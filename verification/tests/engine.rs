use adc_engine::adc::Adc;
use adc_engine::averaging::Averaging;
use adc_engine::channel::{AdcChannel, AnyChannel};
use adc_engine::freq::Hertz;
use adc_engine::prescaler::Presc;
use adc_engine::regs::{DmaMode, Exten, Resolution, SampleTime, Scandir};

fn engine() -> Adc {
    Adc::new(Hertz(48_000_000), SampleTime::Cycles12_5)
}

#[test]
fn construction_establishes_the_baseline() {
    let adc = engine();
    assert!(adc.regs.cr.advregen);
    assert!(adc.regs.cr.aden);
    assert!(!adc.regs.cr.adstart);
    assert!(!adc.regs.cr.adcal);
    assert!(adc.regs.isr.adrdy);
    assert!(adc.calibrated);
    assert!(!adc.regs.cfgr1.cont);
    assert_eq!(adc.regs.cfgr1.exten, Exten::Disabled);
    assert_eq!(adc.regs.cfgr1.dmacfg, DmaMode::Disabled);
    // 48 MHz / 25 MHz = raw 1: divide by two.
    assert_eq!(adc.common.presc, Presc::Div2);
    assert!(!adc.common.vrefen);
    assert!(!adc.common.tsen);
    assert_eq!(adc.regs.smpr.smpsel, 0);
    assert_eq!(adc.regs.smpr.smp1, SampleTime::Cycles12_5);
    assert_eq!(adc.sample_time, SampleTime::Cycles12_5);
}

#[test]
fn internal_channels_have_their_fixed_indices() {
    let mut adc = engine();
    let vref = adc.enable_vrefint();
    assert!(adc.common.vrefen);
    assert_eq!(vref.channel(), 10);
    let temp = adc.enable_temperature();
    assert!(adc.common.tsen);
    assert_eq!(temp.channel(), 9);
    assert_eq!(vref.degrade().channel(), 10);
    assert_eq!(temp.degrade().channel(), 9);
    assert_eq!(AnyChannel::from_pin_index(3).channel(), 3);
}

#[test]
fn set_resolution_writes_the_field() {
    let mut adc = engine();
    adc.set_resolution(Resolution::Bits8);
    assert_eq!(adc.regs.cfgr1.res, Resolution::Bits8);
}

#[test]
fn set_scandir_writes_the_field() {
    let mut adc = engine();
    adc.set_scandir(Scandir::Down);
    assert_eq!(adc.regs.cfgr1.scandir, Scandir::Down);
}

#[test]
fn set_averaging_writes_all_three_fields() {
    let mut adc = engine();
    adc.set_averaging(Averaging::Samples16);
    assert!(adc.regs.cfgr2.ovse);
    assert_eq!(adc.regs.cfgr2.ovsr, 15);
    assert_eq!(adc.regs.cfgr2.ovss, 4);
    adc.set_averaging(Averaging::Disabled);
    assert!(!adc.regs.cfgr2.ovse);
    assert_eq!(adc.regs.cfgr2.ovsr, 0);
    assert_eq!(adc.regs.cfgr2.ovss, 0);
}

#[test]
fn blocking_read_returns_the_channel_level() {
    let mut adc = engine();
    adc.set_channel_input(3, 1234);
    let mut pin = AnyChannel::from_pin_index(3);
    let sample = adc.blocking_read(&mut pin);
    assert_eq!(sample, 1234);
    assert_eq!(adc.regs.dr, 1234);
    assert!(adc.regs.isr.eos);
    assert!(adc.regs.isr.eoc);
    assert_eq!(adc.regs.chselr, 1 << 3);
    assert!(!adc.regs.cr.adstart);
    assert_eq!(adc.channel_input(3), 1234);
}

#[test]
fn global_sample_time_round_trip() {
    let mut adc = engine();
    adc.set_sample_time_all_channels(SampleTime::Cycles79_5);
    assert_eq!(adc.regs.smpr.smp1, SampleTime::Cycles79_5);
    assert_eq!(adc.regs.smpr.smpsel, 0);
    let mut pin = AnyChannel::from_pin_index(5);
    adc.set_channel_input(5, 77);
    let sample = adc.blocking_read(&mut pin);
    assert_eq!(sample, 77);
    // The blocking read applied the global selector: every selector bit
    // still points at the first field, which still holds the set value.
    assert_eq!(adc.regs.smpr.smpsel, 0);
    assert_eq!(adc.regs.smpr.smp1, SampleTime::Cycles79_5);
    assert_eq!(adc.sample_time, SampleTime::Cycles79_5);
}

#[test]
fn cancellation_is_a_no_op_when_idle() {
    let mut adc = engine();
    let before_regs = adc.regs;
    let before_common = adc.common;
    adc.cancel_conversions();
    assert_eq!(adc.regs, before_regs);
    assert_eq!(adc.common, before_common);
}

#[test]
fn cancellation_is_a_no_op_while_disabling() {
    let mut adc = engine();
    adc.regs.cr.adstart = true;
    adc.regs.cr.addis = true;
    let before = adc.regs;
    adc.cancel_conversions();
    assert_eq!(adc.regs, before);
}

#[test]
fn cancellation_stops_an_active_conversion() {
    let mut adc = engine();
    adc.regs.cr.adstart = true;
    adc.cancel_conversions();
    assert!(!adc.regs.cr.adstart);
    assert!(!adc.regs.cr.adstp);
}
