use adc_engine::averaging::Averaging;

#[test]
fn averaging_encoding_of_every_sample_count() {
    // (setting, ratio = samples - 1, shift = log2(samples))
    let cases: Vec<(Averaging, u16, u8)> = vec![
        (Averaging::Samples2, 1, 1),
        (Averaging::Samples4, 3, 2),
        (Averaging::Samples8, 7, 3),
        (Averaging::Samples16, 15, 4),
        (Averaging::Samples32, 31, 5),
        (Averaging::Samples64, 63, 6),
        (Averaging::Samples128, 127, 7),
        (Averaging::Samples256, 255, 8),
        (Averaging::Samples512, 511, 9),
        (Averaging::Samples1024, 1023, 10),
    ];
    for (av, ratio, shift) in cases {
        assert!(av.enabled());
        assert_eq!(av.ratio(), ratio);
        assert_eq!(av.shift(), shift);
        // ratio + 1 is the accumulated sample count, a power of two.
        assert_eq!(u32::from(av.ratio()) + 1, 1u32 << av.shift());
    }
}

#[test]
fn averaging_disabled_clears_everything() {
    let av = Averaging::Disabled;
    assert!(!av.enabled());
    assert_eq!(av.ratio(), 0);
    assert_eq!(av.shift(), 0);
}
