use adc_engine::freq::{Hertz, MAX_ADC_CLK_FREQ_HZ};
use adc_engine::prescaler::{Presc, Prescaler};

#[test]
fn bucket_table_maps_each_raw_value() {
    // raw = input / max for max = 25 MHz; one frequency per raw bucket.
    let cases: Vec<(u32, Prescaler)> = vec![
        (10_000_000, Prescaler::NotDivided),   // raw 0
        (25_000_000, Prescaler::DividedBy2),   // raw 1
        (50_000_000, Prescaler::DividedBy4),   // raw 2
        (75_000_000, Prescaler::DividedBy4),   // raw 3
        (100_000_000, Prescaler::DividedBy6),  // raw 4
        (125_000_000, Prescaler::DividedBy6),  // raw 5
        (150_000_000, Prescaler::DividedBy8),  // raw 6
        (175_000_000, Prescaler::DividedBy8),  // raw 7
        (200_000_000, Prescaler::DividedBy10), // raw 8
        (225_000_000, Prescaler::DividedBy10), // raw 9
        (250_000_000, Prescaler::DividedBy12), // raw 10
        (275_000_000, Prescaler::DividedBy12), // raw 11
    ];
    for (hz, expected) in cases {
        assert_eq!(Prescaler::from_ker_ck(Hertz(hz)), expected);
    }
}

#[test]
fn checked_derivation_rejects_unsupported_clocks() {
    assert_eq!(
        Prescaler::checked_from_ker_ck(Hertz(299_999_999)),
        Some(Prescaler::DividedBy12)
    );
    assert_eq!(Prescaler::checked_from_ker_ck(Hertz(300_000_000)), None);
    assert_eq!(Prescaler::checked_from_ker_ck(Hertz(u32::MAX)), None);
    assert_eq!(
        Prescaler::checked_from_ker_ck(Hertz(0)),
        Some(Prescaler::NotDivided)
    );
}

#[test]
fn divisor_of_every_prescaler() {
    let cases: Vec<(Prescaler, u32)> = vec![
        (Prescaler::NotDivided, 1),
        (Prescaler::DividedBy2, 2),
        (Prescaler::DividedBy4, 4),
        (Prescaler::DividedBy6, 6),
        (Prescaler::DividedBy8, 8),
        (Prescaler::DividedBy10, 10),
        (Prescaler::DividedBy12, 12),
        (Prescaler::DividedBy16, 16),
        (Prescaler::DividedBy32, 32),
        (Prescaler::DividedBy64, 64),
        (Prescaler::DividedBy128, 128),
        (Prescaler::DividedBy256, 256),
    ];
    for (p, d) in cases {
        assert_eq!(p.divisor(), d);
    }
}

#[test]
fn presc_field_value_of_every_prescaler() {
    assert_eq!(Prescaler::NotDivided.presc(), Presc::Div1);
    assert_eq!(Prescaler::DividedBy2.presc(), Presc::Div2);
    assert_eq!(Prescaler::DividedBy6.presc(), Presc::Div6);
    assert_eq!(Prescaler::DividedBy12.presc(), Presc::Div12);
    assert_eq!(Prescaler::DividedBy256.presc(), Presc::Div256);
}

#[test]
fn divided_frequency_stays_within_the_maximum() {
    // Every accepted raw bucket, at its highest frequency.
    let tops: Vec<u32> = vec![
        24_999_999,
        49_999_999,
        99_999_999,
        149_999_999,
        199_999_999,
        249_999_999,
        299_999_999,
    ];
    for hz in tops {
        let p = Prescaler::from_ker_ck(Hertz(hz));
        assert!(hz / p.divisor() <= MAX_ADC_CLK_FREQ_HZ);
    }
}
