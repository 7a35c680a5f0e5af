//! The acquisition engine: power-up sequencing, configuration, single
//! blocking conversions and multi-channel scans.
//!
//! The driver owns the register model of one converter and of its shared
//! common-configuration block, together with the analog levels its
//! channels would sample (the analog world is a collaborator outside this
//! crate; its levels enter the model as plain values). Every busy-wait of
//! the protocol — calibration completion, enable-ready, end of sequence,
//! conversion stop — stands in one `wait_*` function whose body carries
//! the hardware's documented reaction to the preceding register writes;
//! on the real part each is a poll of the named status flag.

use vstd::prelude::*;

use crate::averaging::Averaging;
use crate::channel::{AdcChannel, AnyChannel, Temperature, VrefInt};
use crate::freq::{Hertz, MAX_ADC_CLK_FREQ_HZ};
use crate::prescaler::{lemma_prescaler_frequency_bound, Prescaler};
use crate::regs::{
    sel, AdcRegs, Cfgr1, Ckmode, CommonRegs, Cr, DmaMode, Exten, Isr, Resolution, SampleTime,
    Scandir, Smpr, NUM_CHANNELS, TEMP_CHANNEL, VREF_CHANNEL,
};

verus! {

/// Whether some channel of `channels` has hardware index `ch`.
pub open spec fn channel_in(channels: Seq<AnyChannel>, ch: u32) -> bool {
    exists|j: int| 0 <= j < channels.len() && channels[j].spec_channel() == ch
}

/// No two channels of `channels` share a hardware index.
pub open spec fn channels_distinct(channels: Seq<AnyChannel>) -> bool {
    forall|i: int, j: int|
        0 <= i < j < channels.len() ==> channels[i].spec_channel() != channels[j].spec_channel()
}

/// Results of one ascending pass over channels `i..NUM_CHANNELS`: the
/// level of each channel enabled in `mask`, in ascending index order.
pub open spec fn spec_scan_up(levels: Seq<u16>, mask: u32, i: int) -> Seq<u16>
    decreases NUM_CHANNELS - i,
{
    if i < 0 || i >= NUM_CHANNELS {
        Seq::<u16>::empty()
    } else {
        let rest = spec_scan_up(levels, mask, i + 1);
        if sel(mask, i as u32) {
            seq![levels[i]] + rest
        } else {
            rest
        }
    }
}

/// Results of one descending pass over channels `i..=0`: the level of
/// each channel enabled in `mask`, in descending index order.
pub open spec fn spec_scan_down(levels: Seq<u16>, mask: u32, i: int) -> Seq<u16>
    decreases i + 1,
{
    if i < 0 || i >= NUM_CHANNELS {
        Seq::<u16>::empty()
    } else {
        let rest = spec_scan_down(levels, mask, i - 1);
        if sel(mask, i as u32) {
            seq![levels[i]] + rest
        } else {
            rest
        }
    }
}

/// Results of one full scan pass: hardware walks the enabled channel set
/// in index order — ascending or descending per `dir` — never in the
/// order the caller listed the channels.
pub open spec fn spec_scan_results(levels: Seq<u16>, mask: u32, dir: Scandir) -> Seq<u16> {
    match dir {
        Scandir::Up => spec_scan_up(levels, mask, 0),
        Scandir::Down => spec_scan_down(levels, mask, NUM_CHANNELS as int - 1),
    }
}

/// No channel is enabled in an all-zero select mask.
proof fn lemma_sel_zero(ch: u32)
    by (bit_vector)
    requires
        ch < 32,
    ensures
        !sel(0u32, ch),
{
}

/// Setting bit `k` of a select mask enables channel `k` and leaves every
/// other channel's bit as it was.
proof fn lemma_sel_or_bit(m: u32, k: u32, ch: u32)
    by (bit_vector)
    requires
        k < 32,
        ch < 32,
    ensures
        sel(m | (1u32 << k), ch) <==> (sel(m, ch) || ch == k),
{
}

/// Two one-hot select masks are equal only if they select the same
/// channel.
proof fn lemma_one_hot_injective(a: u32, b: u32)
    by (bit_vector)
    requires
        a < 32,
        b < 32,
        1u32 << a == 1u32 << b,
    ensures
        a == b,
{
}

/// An all-clear select mask scans nothing, ascending.
proof fn lemma_scan_up_empty(levels: Seq<u16>, i: int)
    ensures
        spec_scan_up(levels, 0u32, i).len() == 0,
    decreases NUM_CHANNELS - i,
{
    if 0 <= i < NUM_CHANNELS {
        lemma_sel_zero(i as u32);
        lemma_scan_up_empty(levels, i + 1);
    }
}

/// An all-clear select mask scans nothing, descending.
proof fn lemma_scan_down_empty(levels: Seq<u16>, i: int)
    ensures
        spec_scan_down(levels, 0u32, i).len() == 0,
    decreases i + 1,
{
    if 0 <= i < NUM_CHANNELS {
        lemma_sel_zero(i as u32);
        lemma_scan_down_empty(levels, i - 1);
    }
}

/// Enabling one more channel lengthens an ascending pass over the
/// channels at or after `i` by exactly one slot when the new channel
/// lies in that range.
proof fn lemma_scan_up_or_len(levels: Seq<u16>, mask: u32, k: u32, i: int)
    requires
        k < NUM_CHANNELS,
        !sel(mask, k),
        0 <= i,
    ensures
        spec_scan_up(levels, mask | (1u32 << k), i).len() == spec_scan_up(levels, mask, i).len()
            + if i <= k {
                1int
            } else {
                0int
            },
    decreases NUM_CHANNELS - i,
{
    if i < NUM_CHANNELS {
        lemma_sel_or_bit(mask, k, i as u32);
        lemma_scan_up_or_len(levels, mask, k, i + 1);
    }
}

/// Enabling one more channel lengthens a descending pass over the
/// channels at or before `i` by exactly one slot when the new channel
/// lies in that range.
proof fn lemma_scan_down_or_len(levels: Seq<u16>, mask: u32, k: u32, i: int)
    requires
        k < NUM_CHANNELS,
        !sel(mask, k),
        i < NUM_CHANNELS,
    ensures
        spec_scan_down(levels, mask | (1u32 << k), i).len() == spec_scan_down(
            levels,
            mask,
            i,
        ).len() + if k <= i {
            1int
        } else {
            0int
        },
    decreases i + 1,
{
    if 0 <= i {
        lemma_sel_or_bit(mask, k, i as u32);
        lemma_scan_down_or_len(levels, mask, k, i - 1);
    }
}

/// The acquisition engine: exclusive owner of one converter's register
/// block and of its shared common-configuration block.
pub struct Adc {
    /// The converter's register block.
    pub regs: AdcRegs,
    /// The shared common-configuration block.
    pub common: CommonRegs,
    /// The currently configured global sample-time selector.
    pub sample_time: SampleTime,
    /// Whether the self-calibration sequence has completed.
    pub calibrated: bool,
    /// The analog level presented to each channel: what a conversion of
    /// channel `i` samples. The analog world is a collaborator outside
    /// this crate; its levels enter the model here.
    pub inputs: Vec<u16>,
}

impl Adc {
    /// The analog level presented to each channel.
    pub open spec fn spec_inputs(self) -> Seq<u16> {
        self.inputs@
    }

    /// Well-formed: one input level per hardware channel.
    pub open spec fn wf(self) -> bool {
        self.spec_inputs().len() == NUM_CHANNELS
    }

    /// The power-up/calibrate/enable sequence has run to completion and
    /// no conversion-related request is in flight.
    pub open spec fn ready(self) -> bool {
        &&& self.regs.cr.advregen
        &&& self.calibrated
        &&& self.regs.cr.aden
        &&& self.regs.isr.adrdy
        &&& !self.regs.cr.adcal
        &&& !self.regs.cr.addis
        &&& !self.regs.cr.adstp
    }

    /// The baseline configuration single blocking conversions require:
    /// continuous mode off, trigger source software, no transfer-engine
    /// delivery. Construction establishes it; a scan overrides it and
    /// restores it before returning.
    pub open spec fn baseline(self) -> bool {
        &&& !self.regs.cfgr1.cont
        &&& self.regs.cfgr1.exten is Disabled
        &&& self.regs.cfgr1.dmacfg is Disabled
    }

    /// All input levels, as a zeroed vector.
    fn zero_inputs() -> (r: Vec<u16>)
        ensures
            r@.len() == NUM_CHANNELS,
            forall|i: int| 0 <= i < NUM_CHANNELS ==> r@[i] == 0,
    {
        let mut v: Vec<u16> = Vec::new();
        let mut i: usize = 0;
        while i < NUM_CHANNELS
            invariant
                i <= NUM_CHANNELS,
                v@.len() == i,
                forall|j: int| 0 <= j < i ==> v@[j] == 0,
            decreases NUM_CHANNELS - i,
        {
            v.push(0);
            i += 1;
        }
        v
    }

    /// Create a new driver: power up the regulator, run self-calibration,
    /// enable the converter, establish the baseline configuration, and
    /// apply `sample_time` globally.
    ///
    /// An input clock whose `raw = input / max` falls outside the bucket
    /// table is a fatal board-configuration mistake and is excluded here;
    /// a caller that cannot rule it out checks
    /// [`Prescaler::checked_from_ker_ck`] first and halts loudly.
    pub fn new(frequency: Hertz, sample_time: SampleTime) -> (r: Adc)
        requires
            frequency.0 / MAX_ADC_CLK_FREQ_HZ <= 11,
        ensures
            r.wf(),
            r.ready(),
            r.baseline(),
            !r.regs.cr.adstart,
            r.common == (CommonRegs {
                presc: Prescaler::spec_from_ker_ck(frequency).spec_presc(),
                vrefen: false,
                tsen: false,
            }),
            r.regs.cfgr1 == (Cfgr1 {
                cont: false,
                exten: Exten::Disabled,
                autoff: false,
                dmacfg: DmaMode::Disabled,
                scandir: Scandir::Up,
                res: Resolution::Bits12,
            }),
            r.regs.cfgr2.ckmode is SysClk,
            !r.regs.cfgr2.ovse,
            r.regs.cfgr2.ovsr == 0,
            r.regs.cfgr2.ovss == 0,
            r.regs.smpr == (Smpr { smpsel: 0, smp1: sample_time, smp2: SampleTime::Cycles1_5 }),
            r.sample_time == sample_time,
            forall|i: int| 0 <= i < NUM_CHANNELS ==> r.spec_inputs()[i] == 0,
    {
        let prescaler = Prescaler::from_ker_ck(frequency);

        let divided: u32 = frequency.0 / prescaler.divisor();
        proof {
            lemma_prescaler_frequency_bound(frequency);
        }
        // The part's electrical timing guarantee: exceeding the maximum
        // operating frequency after prescaling would be a fatal
        // construction error; the bucket table makes it unreachable.
        assert(divided <= MAX_ADC_CLK_FREQ_HZ);

        let mut s = Adc {
            regs: AdcRegs::reset(),
            common: CommonRegs::reset(),
            sample_time: SampleTime::Cycles1_5,
            calibrated: false,
            inputs: Self::zero_inputs(),
        };

        s.regs.cfgr2.ckmode = Ckmode::SysClk;
        s.common.presc = prescaler.presc();

        s.power_up();
        s.calibrate();
        s.enable();
        s.configure_default();
        s.set_sample_time_all_channels(sample_time);
        s
    }

    /// Enable the analog voltage regulator. The regulator reports no
    /// readiness flag; on hardware this holds a blocking delay of
    /// [`crate::regs::VOLTAGE_REGULATOR_STARTUP_US`] microseconds before
    /// any further register access.
    pub fn power_up(&mut self)
        requires
            !old(self).regs.cr.advregen,
        ensures
            final(self).regs == (AdcRegs {
                cr: (Cr { advregen: true, ..old(self).regs.cr }),
                ..old(self).regs
            }),
            final(self).common == old(self).common,
            final(self).sample_time == old(self).sample_time,
            final(self).calibrated == old(self).calibrated,
            final(self).spec_inputs() == old(self).spec_inputs(),
    {
        self.regs.cr.advregen = true;
    }

    /// Run the hardware self-calibration sequence. The auto power-off
    /// feature is forced off for its duration (calibration results are
    /// undefined if auto power-off triggers mid-sequence) and its prior
    /// value restored afterwards.
    pub fn calibrate(&mut self)
        requires
            old(self).regs.cr.advregen,
            !old(self).regs.cr.aden,
            !old(self).regs.cr.adcal,
            !old(self).regs.cr.adstart,
        ensures
            final(self).regs == old(self).regs,
            final(self).common == old(self).common,
            final(self).sample_time == old(self).sample_time,
            final(self).calibrated,
            final(self).spec_inputs() == old(self).spec_inputs(),
    {
        // Force auto power-off out of the way, keeping its value for after.
        let autoff_value = self.regs.cfgr1.autoff;
        self.regs.cfgr1.autoff = false;

        self.regs.cr.adcal = true;
        self.wait_calibration_done();

        self.regs.cfgr1.autoff = autoff_value;
    }

    /// The calibration busy-wait: the calibration-start flag stays set for
    /// the whole sequence and is cleared by hardware as soon as the
    /// sequence completes. On the real part this is a poll of that flag.
    fn wait_calibration_done(&mut self)
        requires
            old(self).regs.cr.adcal,
        ensures
            final(self).regs == (AdcRegs {
                cr: (Cr { adcal: false, ..old(self).regs.cr }),
                ..old(self).regs
            }),
            final(self).common == old(self).common,
            final(self).sample_time == old(self).sample_time,
            final(self).calibrated,
            final(self).spec_inputs() == old(self).spec_inputs(),
    {
        self.regs.cr.adcal = false;
        self.calibrated = true;
    }

    /// Enable the converter: clear any stale ready flag, set the enable
    /// flag, and wait until hardware reports ready.
    pub fn enable(&mut self)
        requires
            old(self).regs.cr.advregen,
            !old(self).regs.cr.aden,
            !old(self).regs.cr.adcal,
        ensures
            final(self).regs == (AdcRegs {
                cr: (Cr { aden: true, ..old(self).regs.cr }),
                isr: (Isr { adrdy: true, ..old(self).regs.isr }),
                ..old(self).regs
            }),
            final(self).common == old(self).common,
            final(self).sample_time == old(self).sample_time,
            final(self).calibrated == old(self).calibrated,
            final(self).spec_inputs() == old(self).spec_inputs(),
    {
        // A stale ready flag from an earlier enable must not be misread
        // as this one's completion.
        self.regs.isr.adrdy = false;
        self.regs.cr.aden = true;
        self.wait_ready();
    }

    /// The enable busy-wait: hardware asserts the ready flag once the
    /// enabled converter can accept conversions. On the real part this is
    /// a poll of that flag.
    fn wait_ready(&mut self)
        requires
            old(self).regs.cr.aden,
        ensures
            final(self).regs == (AdcRegs {
                isr: (Isr { adrdy: true, ..old(self).regs.isr }),
                ..old(self).regs
            }),
            final(self).common == old(self).common,
            final(self).sample_time == old(self).sample_time,
            final(self).calibrated == old(self).calibrated,
            final(self).spec_inputs() == old(self).spec_inputs(),
    {
        self.regs.isr.adrdy = true;
    }

    /// Establish the baseline configuration: single conversion mode,
    /// software trigger.
    fn configure_default(&mut self)
        ensures
            final(self).regs == (AdcRegs {
                cfgr1: (Cfgr1 {
                    cont: false,
                    exten: Exten::Disabled,
                    ..old(self).regs.cfgr1
                }),
                ..old(self).regs
            }),
            final(self).common == old(self).common,
            final(self).sample_time == old(self).sample_time,
            final(self).calibrated == old(self).calibrated,
            final(self).spec_inputs() == old(self).spec_inputs(),
    {
        self.regs.cfgr1.cont = false;
        self.regs.cfgr1.exten = Exten::Disabled;
    }

    /// Enable reading the internal voltage-reference channel: closes its
    /// analog switch in the shared configuration block and hands back the
    /// channel capability. The switch is not reopened when the capability
    /// is dropped.
    pub fn enable_vrefint(&mut self) -> (r: VrefInt)
        ensures
            final(self).common == (CommonRegs { vrefen: true, ..old(self).common }),
            final(self).regs == old(self).regs,
            final(self).sample_time == old(self).sample_time,
            final(self).calibrated == old(self).calibrated,
            final(self).spec_inputs() == old(self).spec_inputs(),
            r.spec_channel() == VREF_CHANNEL,
    {
        self.common.vrefen = true;
        VrefInt {}
    }

    /// Enable reading the internal temperature channel: closes its analog
    /// switch in the shared configuration block and hands back the channel
    /// capability. The sample time must be long enough for the sensor's
    /// start-up time; see the part's datasheet.
    pub fn enable_temperature(&mut self) -> (r: Temperature)
        ensures
            final(self).common == (CommonRegs { tsen: true, ..old(self).common }),
            final(self).regs == old(self).regs,
            final(self).sample_time == old(self).sample_time,
            final(self).calibrated == old(self).calibrated,
            final(self).spec_inputs() == old(self).spec_inputs(),
            r.spec_channel() == TEMP_CHANNEL,
    {
        self.common.tsen = true;
        Temperature {}
    }

    /// Set the sample time of every channel at once: each channel's
    /// selector bit is pointed at the first selector field, which receives
    /// `sample_time`. Shall only be called while no conversion is active.
    pub fn set_sample_time_all_channels(&mut self, sample_time: SampleTime)
        requires
            !old(self).regs.cr.adstart,
        ensures
            final(self).regs == (AdcRegs {
                smpr: (Smpr { smpsel: 0, smp1: sample_time, smp2: old(self).regs.smpr.smp2 }),
                ..old(self).regs
            }),
            final(self).common == old(self).common,
            final(self).sample_time == sample_time,
            final(self).calibrated == old(self).calibrated,
            final(self).spec_inputs() == old(self).spec_inputs(),
    {
        self.sample_time = sample_time;
        self.regs.smpr.smpsel = 0;
        self.regs.smpr.smp1 = sample_time;
    }

    /// Set the conversion resolution.
    pub fn set_resolution(&mut self, resolution: Resolution)
        ensures
            final(self).regs == (AdcRegs {
                cfgr1: (Cfgr1 { res: resolution, ..old(self).regs.cfgr1 }),
                ..old(self).regs
            }),
            final(self).common == old(self).common,
            final(self).sample_time == old(self).sample_time,
            final(self).calibrated == old(self).calibrated,
            final(self).spec_inputs() == old(self).spec_inputs(),
    {
        self.regs.cfgr1.res = resolution;
    }

    /// Configure hardware averaging: the enable flag, the ratio field
    /// (one less than the sample count) and the normalizing right shift.
    pub fn set_averaging(&mut self, averaging: Averaging)
        ensures
            final(self).regs.cfgr2.ovse == averaging.spec_enabled(),
            final(self).regs.cfgr2.ovsr == averaging.spec_ratio(),
            final(self).regs.cfgr2.ovss == averaging.spec_shift(),
            final(self).regs.cfgr2.ckmode == old(self).regs.cfgr2.ckmode,
            final(self).regs == (AdcRegs { cfgr2: final(self).regs.cfgr2, ..old(self).regs }),
            final(self).common == old(self).common,
            final(self).sample_time == old(self).sample_time,
            final(self).calibrated == old(self).calibrated,
            final(self).spec_inputs() == old(self).spec_inputs(),
    {
        self.regs.cfgr2.ovse = averaging.enabled();
        self.regs.cfgr2.ovsr = averaging.ratio();
        self.regs.cfgr2.ovss = averaging.shift();
    }

    /// Set the direction in which hardware walks the enabled channel set
    /// during a scan. Direction orders sampling only, never the placement
    /// of results in a caller's buffer.
    pub fn set_scandir(&mut self, scandir: Scandir)
        ensures
            final(self).regs == (AdcRegs {
                cfgr1: (Cfgr1 { scandir, ..old(self).regs.cfgr1 }),
                ..old(self).regs
            }),
            final(self).common == old(self).common,
            final(self).sample_time == old(self).sample_time,
            final(self).calibrated == old(self).calibrated,
            final(self).spec_inputs() == old(self).spec_inputs(),
    {
        self.regs.cfgr1.scandir = scandir;
    }

    /// Present analog level `level` to channel `channel`: what the next
    /// conversion of that channel samples. This is the model's stand-in
    /// for the analog world outside the driver.
    pub fn set_channel_input(&mut self, channel: u8, level: u16)
        requires
            old(self).wf(),
            channel < NUM_CHANNELS,
        ensures
            final(self).spec_inputs() == old(self).spec_inputs().update(channel as int, level),
            final(self).regs == old(self).regs,
            final(self).common == old(self).common,
            final(self).sample_time == old(self).sample_time,
            final(self).calibrated == old(self).calibrated,
    {
        self.inputs.set(channel as usize, level);
    }

    /// The analog level currently presented to channel `channel`.
    pub fn channel_input(&self, channel: u8) -> (r: u16)
        requires
            self.wf(),
            channel < NUM_CHANNELS,
        ensures
            r == self.spec_inputs()[channel as int],
    {
        self.inputs[channel as usize]
    }

    /// Perform the source-side setup of a channel before conversion.
    pub fn configure_channel<C: AdcChannel>(channel: &mut C)
        ensures
            final(channel).spec_channel() == old(channel).spec_channel(),
    {
        channel.setup();
    }

    /// Perform one software-triggered conversion of whatever channel is
    /// selected: clear the stale end-of-sequence and end-of-conversion
    /// flags, set the start flag, busy-wait until end-of-sequence
    /// asserts, and hand back the data register.
    pub fn convert(&mut self) -> (r: u16)
        requires
            old(self).wf(),
            old(self).ready(),
            old(self).baseline(),
            !old(self).regs.cr.adstart,
            exists|k: u32| k < NUM_CHANNELS && old(self).regs.chselr == 1u32 << k,
        ensures
            forall|k: u32|
                k < NUM_CHANNELS && old(self).regs.chselr == 1u32 << k ==> r == old(self).spec_inputs()[k as int],
            final(self).regs == (AdcRegs {
                isr: (Isr { eoc: true, eos: true, ..old(self).regs.isr }),
                dr: r,
                ..old(self).regs
            }),
            final(self).common == old(self).common,
            final(self).sample_time == old(self).sample_time,
            final(self).calibrated == old(self).calibrated,
            final(self).spec_inputs() == old(self).spec_inputs(),
    {
        // Stale completion flags from an earlier conversion must not be
        // misread as this one's.
        self.regs.isr.eos = false;
        self.regs.isr.eoc = false;

        self.regs.cr.adstart = true;
        self.wait_single_sequence();

        self.regs.dr
    }

    /// The single-conversion busy-wait: hardware samples the one selected
    /// channel, lands the result in the data register, asserts the
    /// end-of-conversion and end-of-sequence flags, and clears the start
    /// flag (single mode ends the sequence by itself). On the real part
    /// this is a poll of the end-of-sequence flag.
    fn wait_single_sequence(&mut self)
        requires
            old(self).wf(),
            old(self).regs.cr.adstart,
            !old(self).regs.cfgr1.cont,
            exists|k: u32| k < NUM_CHANNELS && old(self).regs.chselr == 1u32 << k,
        ensures
            final(self).regs == (AdcRegs {
                cr: (Cr { adstart: false, ..old(self).regs.cr }),
                isr: (Isr { eoc: true, eos: true, ..old(self).regs.isr }),
                dr: final(self).regs.dr,
                ..old(self).regs
            }),
            forall|k: u32|
                k < NUM_CHANNELS && old(self).regs.chselr == 1u32 << k ==> final(self).regs.dr == old(self).spec_inputs()[k as int],
            final(self).common == old(self).common,
            final(self).sample_time == old(self).sample_time,
            final(self).calibrated == old(self).calibrated,
            final(self).spec_inputs() == old(self).spec_inputs(),
    {
        let ghost sk: u32 = choose|k: u32| k < NUM_CHANNELS && self.regs.chselr == 1u32 << k;
        let mut i: usize = 0;
        let mut found: bool = false;
        while i < NUM_CHANNELS
            invariant
                self.regs.cr == old(self).regs.cr,
                self.regs.cfgr1 == old(self).regs.cfgr1,
                self.regs.cfgr2 == old(self).regs.cfgr2,
                self.regs.isr == old(self).regs.isr,
                self.regs.smpr == old(self).regs.smpr,
                self.regs.chselr == old(self).regs.chselr,
                self.common == old(self).common,
                self.sample_time == old(self).sample_time,
                self.calibrated == old(self).calibrated,
                self.spec_inputs() == old(self).spec_inputs(),
                self.wf(),
                i <= NUM_CHANNELS,
                sk < NUM_CHANNELS,
                self.regs.chselr == 1u32 << sk,
                found <==> i > sk,
                found ==> self.regs.dr == self.spec_inputs()[sk as int],
                !found ==> self.regs.dr == old(self).regs.dr,
            decreases NUM_CHANNELS - i,
        {
            if self.regs.chselr == 1u32 << (i as u32) {
                proof {
                    lemma_one_hot_injective(i as u32, sk);
                }
                self.regs.dr = self.inputs[i];
                found = true;
            } else {
                assert(i as u32 != sk);
            }
            i += 1;
        }
        proof {
            assert forall|k: u32| k < NUM_CHANNELS && old(self).regs.chselr == 1u32 << k
                implies self.regs.dr == old(self).spec_inputs()[k as int] by {
                lemma_one_hot_injective(k, sk);
            }
        }
        self.regs.isr.eoc = true;
        self.regs.isr.eos = true;
        self.regs.cr.adstart = false;
    }

    /// Select channel `channel` alone and perform one blocking conversion
    /// of it.
    pub fn read_channel<C: AdcChannel>(&mut self, channel: &mut C) -> (r: u16)
        requires
            old(self).wf(),
            old(self).ready(),
            old(self).baseline(),
            !old(self).regs.cr.adstart,
        ensures
            r == old(self).spec_inputs()[old(channel).spec_channel() as int],
            final(channel).spec_channel() == old(channel).spec_channel(),
            final(self).regs == (AdcRegs {
                isr: (Isr { eoc: true, eos: true, ..old(self).regs.isr }),
                chselr: 1u32 << old(channel).spec_channel() as u32,
                dr: r,
                ..old(self).regs
            }),
            final(self).common == old(self).common,
            final(self).sample_time == old(self).sample_time,
            final(self).calibrated == old(self).calibrated,
            final(self).spec_inputs() == old(self).spec_inputs(),
    {
        Self::configure_channel(channel);
        let ch = channel.channel();
        // Select exactly this channel for the next sequence.
        self.regs.chselr = 1u32 << (ch as u32);
        self.convert()
    }

    /// Read one channel with a single software-triggered blocking
    /// conversion. Blocks the calling context for the full conversion;
    /// not cancellable.
    pub fn blocking_read<C: AdcChannel>(&mut self, channel: &mut C) -> (r: u16)
        requires
            old(self).wf(),
            old(self).ready(),
            old(self).baseline(),
            !old(self).regs.cr.adstart,
        ensures
            r == old(self).spec_blocking_result(old(channel).spec_channel()),
            final(channel).spec_channel() == old(channel).spec_channel(),
            final(self).regs == (AdcRegs {
                isr: (Isr { eoc: true, eos: true, ..old(self).regs.isr }),
                chselr: 1u32 << old(channel).spec_channel() as u32,
                dr: r,
                ..old(self).regs
            }),
            final(self).common == old(self).common,
            final(self).sample_time == old(self).sample_time,
            final(self).calibrated == old(self).calibrated,
            final(self).spec_inputs() == old(self).spec_inputs(),
    {
        self.read_channel(channel)
    }

    /// The cancellation sub-protocol: if a conversion is active and the
    /// converter is not already disabling, request a stop and busy-wait
    /// until the active flag clears. Invoked with nothing converting it
    /// is a no-op: no field changes.
    pub fn cancel_conversions(&mut self)
        ensures
            old(self).regs.cr.adstart && !old(self).regs.cr.addis ==> final(self).regs == (
            AdcRegs {
                cr: (Cr { adstart: false, adstp: false, ..old(self).regs.cr }),
                ..old(self).regs
            }),
            !(old(self).regs.cr.adstart && !old(self).regs.cr.addis) ==> final(self).regs == old(self).regs,
            final(self).common == old(self).common,
            final(self).sample_time == old(self).sample_time,
            final(self).calibrated == old(self).calibrated,
            final(self).spec_inputs() == old(self).spec_inputs(),
    {
        if self.regs.cr.adstart && !self.regs.cr.addis {
            self.regs.cr.adstp = true;
            self.wait_stopped();
        }
    }

    /// The stop busy-wait: hardware abandons the active conversion, then
    /// clears the active flag and the stop request. On the real part this
    /// is a poll of the active flag.
    fn wait_stopped(&mut self)
        requires
            old(self).regs.cr.adstp,
        ensures
            final(self).regs == (AdcRegs {
                cr: (Cr { adstart: false, adstp: false, ..old(self).regs.cr }),
                ..old(self).regs
            }),
            final(self).common == old(self).common,
            final(self).sample_time == old(self).sample_time,
            final(self).calibrated == old(self).calibrated,
            final(self).spec_inputs() == old(self).spec_inputs(),
    {
        self.regs.cr.adstart = false;
        self.regs.cr.adstp = false;
    }

    /// The transfer suspension: hardware samples each enabled channel
    /// once, in the configured direction, and the transfer engine streams
    /// every result into memory; the caller is suspended until the full
    /// pass has been delivered (the one asynchronous point of the
    /// engine), while the data register keeps the last streamed value.
    fn transfer_scan(&mut self) -> (r: Vec<u16>)
        requires
            old(self).wf(),
            old(self).regs.cr.adstart,
            old(self).regs.cfgr1.cont,
            old(self).regs.cfgr1.dmacfg is OneShot,
        ensures
            r@ == spec_scan_results(
                old(self).spec_inputs(),
                old(self).regs.chselr,
                old(self).regs.cfgr1.scandir,
            ),
            final(self).regs == (AdcRegs {
                isr: (Isr { eoc: true, eos: true, ..old(self).regs.isr }),
                dr: final(self).regs.dr,
                ..old(self).regs
            }),
            r@.len() > 0 ==> final(self).regs.dr == r@.last(),
            r@.len() == 0 ==> final(self).regs.dr == old(self).regs.dr,
            final(self).common == old(self).common,
            final(self).sample_time == old(self).sample_time,
            final(self).calibrated == old(self).calibrated,
            final(self).spec_inputs() == old(self).spec_inputs(),
    {
        let ghost levels = self.spec_inputs();
        let mask = self.regs.chselr;
        let mut out: Vec<u16> = Vec::new();
        match self.regs.cfgr1.scandir {
            Scandir::Up => {
                let mut i: usize = 0;
                while i < NUM_CHANNELS
                    invariant
                        self.regs.cr == old(self).regs.cr,
                        self.regs.cfgr1 == old(self).regs.cfgr1,
                        self.regs.cfgr2 == old(self).regs.cfgr2,
                        self.regs.isr == old(self).regs.isr,
                        self.regs.smpr == old(self).regs.smpr,
                        self.regs.chselr == old(self).regs.chselr,
                        self.common == old(self).common,
                        self.sample_time == old(self).sample_time,
                        self.calibrated == old(self).calibrated,
                        self.spec_inputs() == old(self).spec_inputs(),
                        self.wf(),
                        self.regs.cfgr1.scandir is Up,
                        levels == self.spec_inputs(),
                        mask == self.regs.chselr,
                        i <= NUM_CHANNELS,
                        out@ + spec_scan_up(levels, mask, i as int) == spec_scan_up(
                            levels,
                            mask,
                            0,
                        ),
                        out@.len() > 0 ==> self.regs.dr == out@.last(),
                        out@.len() == 0 ==> self.regs.dr == old(self).regs.dr,
                    decreases NUM_CHANNELS - i,
                {
                    if (self.regs.chselr >> (i as u32)) & 1 == 1 {
                        let ghost prev = out@;
                        let level = self.inputs[i];
                        self.regs.dr = level;
                        out.push(level);
                        proof {
                            assert(sel(mask, i as u32));
                            assert(spec_scan_up(levels, mask, i as int) == seq![
                                levels[i as int],
                            ] + spec_scan_up(levels, mask, i as int + 1));
                            assert((prev + seq![level]) + spec_scan_up(levels, mask, i as int + 1)
                                =~= prev + (seq![level] + spec_scan_up(
                                levels,
                                mask,
                                i as int + 1,
                            )));
                        }
                    } else {
                        proof {
                            assert(!sel(mask, i as u32));
                            assert(spec_scan_up(levels, mask, i as int) == spec_scan_up(
                                levels,
                                mask,
                                i as int + 1,
                            ));
                        }
                    }
                    i += 1;
                }
                proof {
                    assert(out@ + Seq::<u16>::empty() =~= out@);
                }
            },
            Scandir::Down => {
                let mut i: usize = NUM_CHANNELS;
                while i > 0
                    invariant
                        self.regs.cr == old(self).regs.cr,
                        self.regs.cfgr1 == old(self).regs.cfgr1,
                        self.regs.cfgr2 == old(self).regs.cfgr2,
                        self.regs.isr == old(self).regs.isr,
                        self.regs.smpr == old(self).regs.smpr,
                        self.regs.chselr == old(self).regs.chselr,
                        self.common == old(self).common,
                        self.sample_time == old(self).sample_time,
                        self.calibrated == old(self).calibrated,
                        self.spec_inputs() == old(self).spec_inputs(),
                        self.wf(),
                        self.regs.cfgr1.scandir is Down,
                        levels == self.spec_inputs(),
                        mask == self.regs.chselr,
                        i <= NUM_CHANNELS,
                        out@ + spec_scan_down(levels, mask, i as int - 1) == spec_scan_down(
                            levels,
                            mask,
                            NUM_CHANNELS as int - 1,
                        ),
                        out@.len() > 0 ==> self.regs.dr == out@.last(),
                        out@.len() == 0 ==> self.regs.dr == old(self).regs.dr,
                    decreases i,
                {
                    i -= 1;
                    if (self.regs.chselr >> (i as u32)) & 1 == 1 {
                        let ghost prev = out@;
                        let level = self.inputs[i];
                        self.regs.dr = level;
                        out.push(level);
                        proof {
                            assert(sel(mask, i as u32));
                            assert(spec_scan_down(levels, mask, i as int) == seq![
                                levels[i as int],
                            ] + spec_scan_down(levels, mask, i as int - 1));
                            assert((prev + seq![level]) + spec_scan_down(levels, mask, i as int - 1)
                                =~= prev + (seq![level] + spec_scan_down(
                                levels,
                                mask,
                                i as int - 1,
                            )));
                        }
                    } else {
                        proof {
                            assert(!sel(mask, i as u32));
                            assert(spec_scan_down(levels, mask, i as int) == spec_scan_down(
                                levels,
                                mask,
                                i as int - 1,
                            ));
                        }
                    }
                }
                proof {
                    assert(out@ + Seq::<u16>::empty() =~= out@);
                }
            },
        }
        self.regs.isr.eoc = true;
        self.regs.isr.eos = true;
        out
    }

    /// Read a set of channels in one hardware-driven scan, suspending the
    /// caller until the transfer engine has streamed the full pass into
    /// `readings`.
    ///
    /// In order: cancel any in-flight conversion; set the scan direction;
    /// clear a stale overrun flag; switch to continuous mode with
    /// one-shot transfer delivery; enable exactly the requested channel
    /// set; start; suspend until the pass is delivered; cancel again so
    /// the converter is not left mid-scan; restore the baseline
    /// configuration so a later blocking read behaves as it would right
    /// after construction.
    ///
    /// `readings[i]` is the i-th enabled channel in hardware index order
    /// — ascending or descending per `scandir` — never in the order the
    /// caller listed the channels; `readings` must be sized exactly to
    /// the channel count.
    pub fn read(&mut self, scandir: Scandir, channels: &Vec<AnyChannel>, readings: &mut Vec<u16>)
        requires
            old(self).wf(),
            old(self).ready(),
            channels@.len() >= 1,
            channels@.len() == old(readings)@.len(),
            forall|i: int|
                0 <= i < channels@.len() ==> channels@[i].spec_channel() < NUM_CHANNELS,
            channels_distinct(channels@),
        ensures
            forall|ch: u32|
                ch < 32 ==> (sel(final(self).regs.chselr, ch) <==> channel_in(channels@, ch)),
            final(readings)@ == spec_scan_results(
                old(self).spec_inputs(),
                final(self).regs.chselr,
                scandir,
            ),
            final(readings)@.len() == channels@.len(),
            final(self).ready(),
            final(self).baseline(),
            final(self).regs.cr == (Cr {
                adstart: false,
                adstp: false,
                ..old(self).regs.cr
            }),
            final(self).regs.cfgr1 == (Cfgr1 {
                cont: false,
                exten: Exten::Disabled,
                dmacfg: DmaMode::Disabled,
                scandir,
                autoff: old(self).regs.cfgr1.autoff,
                res: old(self).regs.cfgr1.res,
            }),
            final(self).regs.isr == (Isr {
                adrdy: old(self).regs.isr.adrdy,
                eoc: true,
                eos: true,
                ovr: false,
            }),
            final(self).regs.cfgr2 == old(self).regs.cfgr2,
            final(self).regs.smpr == old(self).regs.smpr,
            final(readings)@.len() > 0 ==> final(self).regs.dr == final(readings)@.last(),
            final(readings)@.len() == 0 ==> final(self).regs.dr == old(self).regs.dr,
            final(self).common == old(self).common,
            final(self).sample_time == old(self).sample_time,
            final(self).calibrated == old(self).calibrated,
            final(self).spec_inputs() == old(self).spec_inputs(),
    {
        // A clean starting point regardless of what ran before.
        self.cancel_conversions();

        self.set_scandir(scandir);

        // A stale overrun from an earlier run must not be misread as
        // belonging to this one.
        self.regs.isr.ovr = false;

        // Continuous mode with one-shot delivery: exactly one full pass
        // is streamed, then delivery deactivates itself in hardware.
        self.regs.cfgr1.cont = true;
        self.regs.cfgr1.dmacfg = DmaMode::OneShot;

        // Enable exactly the requested channel set.
        let ghost levels = self.spec_inputs();
        let mut mask: u32 = 0;
        proof {
            assert forall|ch: u32| ch < 32 implies !sel(mask, ch) by {
                lemma_sel_zero(ch);
            }
            lemma_scan_up_empty(levels, 0);
            lemma_scan_down_empty(levels, NUM_CHANNELS as int - 1);
        }
        let mut k: usize = 0;
        while k < channels.len()
            invariant
                k <= channels@.len(),
                channels_distinct(channels@),
                forall|i: int|
                    0 <= i < channels@.len() ==> channels@[i].spec_channel() < NUM_CHANNELS,
                forall|ch: u32|
                    ch < 32 ==> (sel(mask, ch) <==> channel_in(channels@.take(k as int), ch)),
                spec_scan_up(levels, mask, 0).len() == k,
                spec_scan_down(levels, mask, NUM_CHANNELS as int - 1).len() == k,
            decreases channels@.len() - k,
        {
            let c = channels[k].channel();
            let ghost prev_mask = mask;
            mask = mask | (1u32 << (c as u32));
            proof {
                // Channel `c` is new: every channel listed before differs.
                assert(!channel_in(channels@.take(k as int), c as u32)) by {
                    if channel_in(channels@.take(k as int), c as u32) {
                        let j = choose|j: int|
                            0 <= j < k && channels@.take(k as int)[j].spec_channel() == c;
                        assert(channels@.take(k as int)[j] == channels@[j]);
                        assert(channels@[j].spec_channel() != channels@[k as int].spec_channel());
                    }
                }
                assert(!sel(prev_mask, c as u32));
                lemma_scan_up_or_len(levels, prev_mask, c as u32, 0);
                lemma_scan_down_or_len(levels, prev_mask, c as u32, NUM_CHANNELS as int - 1);
                assert forall|ch: u32|
                    ch < 32 implies (sel(mask, ch) <==> channel_in(
                    channels@.take(k as int + 1),
                    ch,
                )) by {
                    lemma_sel_or_bit(prev_mask, c as u32, ch);
                    let taken = channels@.take(k as int + 1);
                    assert(taken[k as int] == channels@[k as int]);
                    if sel(mask, ch) {
                        if ch == c {
                            assert(taken[k as int].spec_channel() == ch);
                        } else {
                            let j = choose|j: int|
                                0 <= j < k && channels@.take(k as int)[j].spec_channel() == ch;
                            assert(taken[j] == channels@[j]);
                            assert(taken[j].spec_channel() == ch);
                        }
                    } else {
                        if channel_in(taken, ch) {
                            let j = choose|j: int|
                                0 <= j < taken.len() && taken[j].spec_channel() == ch;
                            if j < k {
                                assert(channels@.take(k as int)[j] == channels@[j]);
                                assert(channel_in(channels@.take(k as int), ch));
                            } else {
                                assert(ch == c);
                            }
                            assert(false);
                        }
                    }
                }
            }
            k += 1;
        }
        self.regs.chselr = mask;
        proof {
            assert(channels@.take(channels@.len() as int) =~= channels@);
        }

        // Arm the transfer engine on the result buffer, start the scan,
        // and suspend until the full pass has been streamed.
        self.regs.cr.adstart = true;
        let results = self.transfer_scan();
        *readings = results;

        // Symmetry: the pass is delivered, but continuous mode keeps the
        // converter sampling until it is explicitly stopped.
        self.cancel_conversions();

        // Restore the baseline configuration, undoing the mode override,
        // so a later blocking read behaves as after construction.
        self.regs.cfgr1.cont = false;
        self.regs.cfgr1.exten = Exten::Disabled;
        self.regs.cfgr1.dmacfg = DmaMode::Disabled;
    }
}

impl Adc {
    /// The sample-time selector a conversion of channel `ch` uses: the
    /// channel's selector bit picks between the two selector fields.
    pub open spec fn spec_effective_sample_time(self, ch: u8) -> SampleTime {
        if sel(self.regs.smpr.smpsel, ch as u32) {
            self.regs.smpr.smp2
        } else {
            self.regs.smpr.smp1
        }
    }

    /// The sample a blocking read of channel `ch` hands back: the analog
    /// level presented to that channel.
    pub open spec fn spec_blocking_result(self, ch: u8) -> u16 {
        self.spec_inputs()[ch as int]
    }
}

/// Round trip of the global sample time: once the global setter has
/// cleared every selector bit and loaded the first selector field, a
/// conversion of any channel uses exactly that selector — and a blocking
/// read leaves the sample-time register untouched, so the round trip
/// holds for every later read as well.
pub proof fn lemma_global_sample_time_round_trip(s: Adc, ch: u8)
    requires
        s.regs.smpr.smpsel == 0,
        ch < NUM_CHANNELS,
    ensures
        s.spec_effective_sample_time(ch) == s.regs.smpr.smp1,
{
    lemma_sel_zero(ch as u32);
}

/// A blocking read behaves identically in any two ready, baseline states
/// that present the same analog levels: its result depends on nothing
/// else. A completed scan restores exactly the configuration that
/// construction establishes and leaves the levels untouched, so a
/// blocking read after a scan behaves as one issued right after
/// construction.
pub proof fn lemma_blocking_read_agrees(s1: Adc, s2: Adc, ch: u8)
    requires
        ch < NUM_CHANNELS,
        s1.spec_inputs() == s2.spec_inputs(),
    ensures
        s1.spec_blocking_result(ch) == s2.spec_blocking_result(ch),
{
}

} // verus!
