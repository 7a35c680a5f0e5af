use adc_engine::adc::Adc;
use adc_engine::channel::AnyChannel;
use adc_engine::freq::Hertz;
use adc_engine::regs::{DmaMode, Exten, SampleTime, Scandir};

fn engine() -> Adc {
    Adc::new(Hertz(48_000_000), SampleTime::Cycles12_5)
}

#[test]
fn scan_orders_results_by_hardware_index() {
    let mut adc = engine();
    let temp = adc.enable_temperature().degrade(); // index 9
    let vref = adc.enable_vrefint().degrade(); // index 10
    let pin0 = AnyChannel::from_pin_index(0);
    adc.set_channel_input(0, 111);
    adc.set_channel_input(9, 222);
    adc.set_channel_input(10, 333);

    // Requested as temperature, reference, pin — results land in
    // hardware index order 0, 9, 10: pin, temperature, reference.
    let channels = vec![temp, vref, pin0];
    let mut readings: Vec<u16> = vec![0; 3];
    adc.read(Scandir::Up, &channels, &mut readings);
    assert_eq!(readings, vec![111, 222, 333]);
}

#[test]
fn descending_scan_reverses_the_sampling_order() {
    let mut adc = engine();
    let temp = adc.enable_temperature().degrade();
    let vref = adc.enable_vrefint().degrade();
    let pin0 = AnyChannel::from_pin_index(0);
    adc.set_channel_input(0, 111);
    adc.set_channel_input(9, 222);
    adc.set_channel_input(10, 333);

    let channels = vec![temp, vref, pin0];
    let mut readings: Vec<u16> = vec![0; 3];
    adc.read(Scandir::Down, &channels, &mut readings);
    assert_eq!(readings, vec![333, 222, 111]);
    // The data register keeps the last streamed conversion.
    assert_eq!(adc.regs.dr, 111);
}

#[test]
fn scan_of_one_channel() {
    let mut adc = engine();
    adc.set_channel_input(7, 4096);
    let channels = vec![AnyChannel::from_pin_index(7)];
    let mut readings: Vec<u16> = vec![0; 1];
    adc.read(Scandir::Up, &channels, &mut readings);
    assert_eq!(readings, vec![4096]);
    assert_eq!(readings.len(), channels.len());
}

#[test]
fn scan_restores_the_baseline_configuration() {
    let mut adc = engine();
    let channels = vec![AnyChannel::from_pin_index(2)];
    let mut readings: Vec<u16> = vec![0; 1];
    adc.read(Scandir::Down, &channels, &mut readings);
    assert!(!adc.regs.cfgr1.cont);
    assert_eq!(adc.regs.cfgr1.exten, Exten::Disabled);
    assert_eq!(adc.regs.cfgr1.dmacfg, DmaMode::Disabled);
    assert!(!adc.regs.cr.adstart);
    assert!(!adc.regs.cr.adstp);
    assert!(!adc.regs.isr.ovr);
}

#[test]
fn blocking_read_after_a_scan_matches_a_fresh_engine() {
    let mut scanned = engine();
    let mut fresh = engine();
    for ch in 0..4u8 {
        scanned.set_channel_input(ch, 1000 + u16::from(ch));
        fresh.set_channel_input(ch, 1000 + u16::from(ch));
    }

    let channels = vec![AnyChannel::from_pin_index(1), AnyChannel::from_pin_index(2)];
    let mut readings: Vec<u16> = vec![0; 2];
    scanned.read(Scandir::Up, &channels, &mut readings);
    assert_eq!(readings, vec![1001, 1002]);

    // The scan undid its mode override: a blocking read now behaves
    // exactly as on an engine that never scanned.
    let mut pin = AnyChannel::from_pin_index(3);
    let after_scan = scanned.blocking_read(&mut pin);
    let never_scanned = fresh.blocking_read(&mut pin);
    assert_eq!(after_scan, never_scanned);
    assert_eq!(after_scan, 1003);
    assert_eq!(scanned.regs.cfgr1, fresh.regs.cfgr1);
}

#[test]
fn scan_leaves_sample_times_untouched() {
    let mut adc = engine();
    adc.set_sample_time_all_channels(SampleTime::Cycles160_5);
    let smpr_before = adc.regs.smpr;
    let channels = vec![AnyChannel::from_pin_index(4)];
    let mut readings: Vec<u16> = vec![0; 1];
    adc.read(Scandir::Up, &channels, &mut readings);
    assert_eq!(adc.regs.smpr, smpr_before);
}
