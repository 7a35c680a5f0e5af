//! Plain-value model of the converter's register block.
//!
//! The low-level read/modify/write primitives and the memory-mapped block
//! itself belong to a register-access collaborator outside this crate; what
//! the driver's logic reads and writes is modelled here as ordinary fields,
//! one struct per hardware register. Status flags are modelled by their
//! meaning: clearing a stale flag stores `false`, hardware asserting it
//! stores `true`.

use vstd::prelude::*;

use crate::prescaler::Presc;

verus! {

/// Number of hardware channels the converter multiplexes.
pub const NUM_CHANNELS: usize = 23;

/// Fixed hardware index of the internal temperature channel.
pub const TEMP_CHANNEL: u8 = 9;

/// Fixed hardware index of the internal voltage-reference channel.
pub const VREF_CHANNEL: u8 = 10;

/// Default reference voltage, in millivolts, for converting samples.
pub const VREF_DEFAULT_MV: u32 = 3300;

/// Reference voltage, in millivolts, at which the factory calibration
/// value was measured.
pub const VREF_CALIB_MV: u32 = 3300;

/// Microseconds the analog voltage regulator needs to settle after being
/// enabled, plus margin; no status flag reports regulator readiness, so
/// power-up holds a blocking delay of this length.
pub const VOLTAGE_REGULATOR_STARTUP_US: u32 = 21;

/// Sample-time selector: how many clock cycles the sampling switch stays
/// closed before a conversion.
#[derive(Clone, Copy, Debug, PartialEq, Eq, Structural)]
pub enum SampleTime {
    Cycles1_5,
    Cycles3_5,
    Cycles7_5,
    Cycles12_5,
    Cycles19_5,
    Cycles39_5,
    Cycles79_5,
    Cycles160_5,
}

/// Conversion resolution, in bits.
#[derive(Clone, Copy, Debug, PartialEq, Eq, Structural)]
pub enum Resolution {
    Bits12,
    Bits10,
    Bits8,
    Bits6,
}

/// Order in which hardware walks the enabled channel set during a scan.
#[derive(Clone, Copy, Debug, PartialEq, Eq, Structural)]
pub enum Scandir {
    /// Ascending hardware-channel-index order.
    Up,
    /// Descending hardware-channel-index order.
    Down,
}

/// External-trigger selection; `Disabled` means conversions start by
/// software, which is the baseline single-shot configuration.
#[derive(Clone, Copy, Debug, PartialEq, Eq, Structural)]
pub enum Exten {
    Disabled,
    RisingEdge,
    FallingEdge,
    BothEdges,
}

/// Direct-memory-transfer delivery mode for conversion results.
#[derive(Clone, Copy, Debug, PartialEq, Eq, Structural)]
pub enum DmaMode {
    /// Results stay in the data register; no transfer engine involved.
    Disabled,
    /// Exactly one full scan is streamed, then delivery deactivates itself.
    OneShot,
}

/// Clock-source selection for the converter.
#[derive(Clone, Copy, Debug, PartialEq, Eq, Structural)]
pub enum Ckmode {
    Adclk,
    SysClk,
    PclkDiv2,
    PclkDiv4,
}

/// Control register: power, calibration, enable and conversion start/stop.
#[derive(Clone, Copy, Debug, PartialEq, Eq, Structural)]
pub struct Cr {
    /// Analog voltage regulator enable.
    pub advregen: bool,
    /// Calibration in progress; set by software, cleared by hardware when
    /// the calibration sequence completes.
    pub adcal: bool,
    /// Converter enable.
    pub aden: bool,
    /// Converter disable in progress.
    pub addis: bool,
    /// Conversion (sequence) active; set by software to start, cleared by
    /// hardware when the sequence ends or is stopped.
    pub adstart: bool,
    /// Stop request; set by software, cleared by hardware once the active
    /// conversion has been abandoned.
    pub adstp: bool,
}

/// First configuration register: conversion mode, triggering, scanning.
#[derive(Clone, Copy, Debug, PartialEq, Eq, Structural)]
pub struct Cfgr1 {
    /// Continuous conversion mode.
    pub cont: bool,
    /// External-trigger selection; `Disabled` is the software trigger.
    pub exten: Exten,
    /// Automatic power-off between conversions.
    pub autoff: bool,
    /// Delivery mode of results to the transfer engine.
    pub dmacfg: DmaMode,
    /// Scan direction over the enabled channel set.
    pub scandir: Scandir,
    /// Conversion resolution.
    pub res: Resolution,
}

/// Second configuration register: clocking and hardware averaging.
#[derive(Clone, Copy, Debug, PartialEq, Eq, Structural)]
pub struct Cfgr2 {
    /// Clock-source selection.
    pub ckmode: Ckmode,
    /// Oversampling (hardware averaging) enable.
    pub ovse: bool,
    /// Oversampling ratio field: one less than the accumulated sample count.
    pub ovsr: u16,
    /// Right-shift applied to the accumulated sum to normalize it back to
    /// the native resolution.
    pub ovss: u8,
}

/// Interrupt-and-status register: completion flags reported by hardware.
#[derive(Clone, Copy, Debug, PartialEq, Eq, Structural)]
pub struct Isr {
    /// Converter ready.
    pub adrdy: bool,
    /// End of (single) conversion.
    pub eoc: bool,
    /// End of conversion sequence.
    pub eos: bool,
    /// Overrun: a result arrived before the previous one was read out.
    pub ovr: bool,
}

/// Sample-time register. Each bit of `smpsel` picks, for one channel,
/// which of the two selectors applies: a clear bit selects `smp1`, a set
/// bit selects `smp2`.
#[derive(Clone, Copy, Debug, PartialEq, Eq, Structural)]
pub struct Smpr {
    pub smpsel: u32,
    pub smp1: SampleTime,
    pub smp2: SampleTime,
}

/// The converter's own register block.
#[derive(Clone, Copy, Debug, PartialEq, Eq, Structural)]
pub struct AdcRegs {
    pub cr: Cr,
    pub cfgr1: Cfgr1,
    pub cfgr2: Cfgr2,
    pub isr: Isr,
    pub smpr: Smpr,
    /// Channel-select mask: bit `i` enables channel `i` for conversion.
    pub chselr: u32,
    /// Data register: the most recent conversion result.
    pub dr: u16,
}

/// Shared common-configuration block: prescaler and analog switches for
/// the internal channels.
#[derive(Clone, Copy, Debug, PartialEq, Eq, Structural)]
pub struct CommonRegs {
    /// Input-clock prescaler.
    pub presc: Presc,
    /// Analog switch feeding the internal voltage reference to its channel.
    pub vrefen: bool,
    /// Analog switch feeding the temperature sensor to its channel.
    pub tsen: bool,
}

/// Whether channel `ch` is enabled in the channel-select mask `mask`.
pub open spec fn sel(mask: u32, ch: u32) -> bool {
    (mask >> ch) & 1 == 1
}

impl AdcRegs {
    /// The register block in its hardware-reset state.
    pub open spec fn spec_reset() -> AdcRegs {
        AdcRegs {
            cr: Cr {
                advregen: false,
                adcal: false,
                aden: false,
                addis: false,
                adstart: false,
                adstp: false,
            },
            cfgr1: Cfgr1 {
                cont: false,
                exten: Exten::Disabled,
                autoff: false,
                dmacfg: DmaMode::Disabled,
                scandir: Scandir::Up,
                res: Resolution::Bits12,
            },
            cfgr2: Cfgr2 { ckmode: Ckmode::Adclk, ovse: false, ovsr: 0, ovss: 0 },
            isr: Isr { adrdy: false, eoc: false, eos: false, ovr: false },
            smpr: Smpr { smpsel: 0, smp1: SampleTime::Cycles1_5, smp2: SampleTime::Cycles1_5 },
            chselr: 0,
            dr: 0,
        }
    }

    /// The register block in its hardware-reset state.
    pub fn reset() -> (r: AdcRegs)
        ensures
            r == AdcRegs::spec_reset(),
    {
        AdcRegs {
            cr: Cr {
                advregen: false,
                adcal: false,
                aden: false,
                addis: false,
                adstart: false,
                adstp: false,
            },
            cfgr1: Cfgr1 {
                cont: false,
                exten: Exten::Disabled,
                autoff: false,
                dmacfg: DmaMode::Disabled,
                scandir: Scandir::Up,
                res: Resolution::Bits12,
            },
            cfgr2: Cfgr2 { ckmode: Ckmode::Adclk, ovse: false, ovsr: 0, ovss: 0 },
            isr: Isr { adrdy: false, eoc: false, eos: false, ovr: false },
            smpr: Smpr { smpsel: 0, smp1: SampleTime::Cycles1_5, smp2: SampleTime::Cycles1_5 },
            chselr: 0,
            dr: 0,
        }
    }
}

impl CommonRegs {
    /// The common-configuration block in its hardware-reset state.
    pub open spec fn spec_reset() -> CommonRegs {
        CommonRegs { presc: Presc::Div1, vrefen: false, tsen: false }
    }

    /// The common-configuration block in its hardware-reset state.
    pub fn reset() -> (r: CommonRegs)
        ensures
            r == CommonRegs::spec_reset(),
    {
        CommonRegs { presc: Presc::Div1, vrefen: false, tsen: false }
    }
}

} // verus!
