//! Clock prescaler derivation.
//!
//! The converter's input clock must be divided down so that the resulting
//! operating frequency does not exceed [`MAX_ADC_CLK_FREQ_HZ`]. The divider
//! is picked from a fixed bucket table over `raw = input / max`; a `raw`
//! outside the table means the board's clock tree cannot drive this
//! converter at all, which is a fatal configuration mistake.

use vstd::arithmetic::div_mod::{lemma_fundamental_div_mod, lemma_multiply_divide_lt};
use vstd::prelude::*;

use crate::freq::{Hertz, MAX_ADC_CLK_FREQ_HZ};

verus! {

/// Value written to the prescaler field of the shared common-configuration
/// block; one variant per supported divider.
#[derive(Clone, Copy, Debug, PartialEq, Eq, Structural)]
pub enum Presc {
    Div1,
    Div2,
    Div4,
    Div6,
    Div8,
    Div10,
    Div12,
    Div16,
    Div32,
    Div64,
    Div128,
    Div256,
}

/// Clock divider applied to the converter's input clock.
#[derive(Clone, Copy, Debug, PartialEq, Eq, Structural)]
pub enum Prescaler {
    NotDivided,
    DividedBy2,
    DividedBy4,
    DividedBy6,
    DividedBy8,
    DividedBy10,
    DividedBy12,
    DividedBy16,
    DividedBy32,
    DividedBy64,
    DividedBy128,
    DividedBy256,
}

impl Prescaler {
    /// The integer divider this prescaler stands for.
    pub open spec fn spec_divisor(self) -> u32 {
        match self {
            Prescaler::NotDivided => 1,
            Prescaler::DividedBy2 => 2,
            Prescaler::DividedBy4 => 4,
            Prescaler::DividedBy6 => 6,
            Prescaler::DividedBy8 => 8,
            Prescaler::DividedBy10 => 10,
            Prescaler::DividedBy12 => 12,
            Prescaler::DividedBy16 => 16,
            Prescaler::DividedBy32 => 32,
            Prescaler::DividedBy64 => 64,
            Prescaler::DividedBy128 => 128,
            Prescaler::DividedBy256 => 256,
        }
    }

    /// The bucket table: the smallest standard divider that brings
    /// `frequency` at or below the maximum operating frequency.
    pub open spec fn spec_from_ker_ck(frequency: Hertz) -> Prescaler {
        let raw = frequency.0 / MAX_ADC_CLK_FREQ_HZ;
        if raw == 0 {
            Prescaler::NotDivided
        } else if raw == 1 {
            Prescaler::DividedBy2
        } else if raw <= 3 {
            Prescaler::DividedBy4
        } else if raw <= 5 {
            Prescaler::DividedBy6
        } else if raw <= 7 {
            Prescaler::DividedBy8
        } else if raw <= 9 {
            Prescaler::DividedBy10
        } else {
            Prescaler::DividedBy12
        }
    }

    /// Derive the prescaler from the input clock frequency.
    ///
    /// An input clock whose `raw = input / max` lies outside the bucket
    /// table cannot be supported at all; such a clock is excluded here,
    /// and [`Prescaler::checked_from_ker_ck`] reports it as `None`.
    pub fn from_ker_ck(frequency: Hertz) -> (r: Prescaler)
        requires
            frequency.0 / MAX_ADC_CLK_FREQ_HZ <= 11,
        ensures
            r == Self::spec_from_ker_ck(frequency),
    {
        let raw_prescaler: u32 = frequency.0 / MAX_ADC_CLK_FREQ_HZ;
        match raw_prescaler {
            0 => Prescaler::NotDivided,
            1 => Prescaler::DividedBy2,
            2..=3 => Prescaler::DividedBy4,
            4..=5 => Prescaler::DividedBy6,
            6..=7 => Prescaler::DividedBy8,
            8..=9 => Prescaler::DividedBy10,
            _ => Prescaler::DividedBy12,
        }
    }

    /// Derive the prescaler, reporting an unsupported input clock as `None`
    /// instead of excluding it.
    pub fn checked_from_ker_ck(frequency: Hertz) -> (r: Option<Prescaler>)
        ensures
            frequency.0 / MAX_ADC_CLK_FREQ_HZ <= 11 ==> r == Some(
                Self::spec_from_ker_ck(frequency),
            ),
            frequency.0 / MAX_ADC_CLK_FREQ_HZ > 11 ==> r is None,
    {
        if frequency.0 / MAX_ADC_CLK_FREQ_HZ <= 11 {
            Some(Self::from_ker_ck(frequency))
        } else {
            None
        }
    }

    /// The integer divider this prescaler stands for.
    pub fn divisor(&self) -> (r: u32)
        ensures
            r == self.spec_divisor(),
    {
        match self {
            Prescaler::NotDivided => 1,
            Prescaler::DividedBy2 => 2,
            Prescaler::DividedBy4 => 4,
            Prescaler::DividedBy6 => 6,
            Prescaler::DividedBy8 => 8,
            Prescaler::DividedBy10 => 10,
            Prescaler::DividedBy12 => 12,
            Prescaler::DividedBy16 => 16,
            Prescaler::DividedBy32 => 32,
            Prescaler::DividedBy64 => 64,
            Prescaler::DividedBy128 => 128,
            Prescaler::DividedBy256 => 256,
        }
    }

    /// The common-configuration field value this prescaler is written as.
    pub open spec fn spec_presc(self) -> Presc {
        match self {
            Prescaler::NotDivided => Presc::Div1,
            Prescaler::DividedBy2 => Presc::Div2,
            Prescaler::DividedBy4 => Presc::Div4,
            Prescaler::DividedBy6 => Presc::Div6,
            Prescaler::DividedBy8 => Presc::Div8,
            Prescaler::DividedBy10 => Presc::Div10,
            Prescaler::DividedBy12 => Presc::Div12,
            Prescaler::DividedBy16 => Presc::Div16,
            Prescaler::DividedBy32 => Presc::Div32,
            Prescaler::DividedBy64 => Presc::Div64,
            Prescaler::DividedBy128 => Presc::Div128,
            Prescaler::DividedBy256 => Presc::Div256,
        }
    }

    /// The common-configuration field value this prescaler is written as.
    pub fn presc(&self) -> (r: Presc)
        ensures
            r == self.spec_presc(),
    {
        match self {
            Prescaler::NotDivided => Presc::Div1,
            Prescaler::DividedBy2 => Presc::Div2,
            Prescaler::DividedBy4 => Presc::Div4,
            Prescaler::DividedBy6 => Presc::Div6,
            Prescaler::DividedBy8 => Presc::Div8,
            Prescaler::DividedBy10 => Presc::Div10,
            Prescaler::DividedBy12 => Presc::Div12,
            Prescaler::DividedBy16 => Presc::Div16,
            Prescaler::DividedBy32 => Presc::Div32,
            Prescaler::DividedBy64 => Presc::Div64,
            Prescaler::DividedBy128 => Presc::Div128,
            Prescaler::DividedBy256 => Presc::Div256,
        }
    }
}

/// Every accepted input clock, once divided by the prescaler the bucket
/// table selects for it, operates the converter at or below the maximum
/// operating frequency.
pub proof fn lemma_prescaler_frequency_bound(frequency: Hertz)
    requires
        frequency.0 / MAX_ADC_CLK_FREQ_HZ <= 11,
    ensures
        frequency.0 / Prescaler::spec_from_ker_ck(frequency).spec_divisor()
            <= MAX_ADC_CLK_FREQ_HZ,
{
    let f = frequency.0 as int;
    let max = MAX_ADC_CLK_FREQ_HZ as int;
    let raw = f / max;
    let div = Prescaler::spec_from_ker_ck(frequency).spec_divisor() as int;
    lemma_fundamental_div_mod(f, max);
    assert(f < max * (raw + 1));
    assert(raw + 1 <= div);
    assert(max * (raw + 1) <= max * div) by (nonlinear_arith)
        requires
            0 < max,
            raw + 1 <= div,
    ;
    assert(max * div == div * max) by (nonlinear_arith);
    lemma_multiply_divide_lt(f, div, max);
}

} // verus!
