//! Hardware averaging (oversampling) configuration.
//!
//! The hardware can accumulate `2^k` raw samples and right-shift the sum
//! by `k` to hand back one result at the native resolution. The setting is
//! an enumeration of the supported sample counts; its encoding into the
//! configuration fields is fixed: the ratio field holds `samples - 1` and
//! the shift field holds `log2(samples)`.

use vstd::arithmetic::power2::pow2;
use vstd::prelude::*;

verus! {

/// Number of samples accumulated for one result; `Disabled` hands back
/// each raw sample unaveraged.
#[derive(Clone, Copy, Debug, PartialEq, Eq, Structural)]
pub enum Averaging {
    Disabled,
    Samples2,
    Samples4,
    Samples8,
    Samples16,
    Samples32,
    Samples64,
    Samples128,
    Samples256,
    Samples512,
    Samples1024,
}

impl Averaging {
    /// How many raw samples one result accumulates; 1 when disabled.
    pub open spec fn spec_samples(self) -> u32 {
        match self {
            Averaging::Disabled => 1,
            Averaging::Samples2 => 2,
            Averaging::Samples4 => 4,
            Averaging::Samples8 => 8,
            Averaging::Samples16 => 16,
            Averaging::Samples32 => 32,
            Averaging::Samples64 => 64,
            Averaging::Samples128 => 128,
            Averaging::Samples256 => 256,
            Averaging::Samples512 => 512,
            Averaging::Samples1024 => 1024,
        }
    }

    /// Whether this setting asserts the oversampling-enable flag.
    pub open spec fn spec_enabled(self) -> bool {
        !(self is Disabled)
    }

    /// Value of the oversampling-ratio field: `samples - 1`, or 0 when
    /// disabled.
    pub open spec fn spec_ratio(self) -> u16 {
        match self {
            Averaging::Disabled => 0,
            Averaging::Samples2 => 1,
            Averaging::Samples4 => 3,
            Averaging::Samples8 => 7,
            Averaging::Samples16 => 15,
            Averaging::Samples32 => 31,
            Averaging::Samples64 => 63,
            Averaging::Samples128 => 127,
            Averaging::Samples256 => 255,
            Averaging::Samples512 => 511,
            Averaging::Samples1024 => 1023,
        }
    }

    /// Value of the right-shift field: `log2(samples)`, or 0 when disabled.
    pub open spec fn spec_shift(self) -> u8 {
        match self {
            Averaging::Disabled => 0,
            Averaging::Samples2 => 1,
            Averaging::Samples4 => 2,
            Averaging::Samples8 => 3,
            Averaging::Samples16 => 4,
            Averaging::Samples32 => 5,
            Averaging::Samples64 => 6,
            Averaging::Samples128 => 7,
            Averaging::Samples256 => 8,
            Averaging::Samples512 => 9,
            Averaging::Samples1024 => 10,
        }
    }

    /// Whether this setting asserts the oversampling-enable flag.
    pub fn enabled(&self) -> (r: bool)
        ensures
            r == self.spec_enabled(),
    {
        !matches!(self, Averaging::Disabled)
    }

    /// Value of the oversampling-ratio field.
    pub fn ratio(&self) -> (r: u16)
        ensures
            r == self.spec_ratio(),
    {
        match self {
            Averaging::Disabled => 0,
            Averaging::Samples2 => 1,
            Averaging::Samples4 => 3,
            Averaging::Samples8 => 7,
            Averaging::Samples16 => 15,
            Averaging::Samples32 => 31,
            Averaging::Samples64 => 63,
            Averaging::Samples128 => 127,
            Averaging::Samples256 => 255,
            Averaging::Samples512 => 511,
            Averaging::Samples1024 => 1023,
        }
    }

    /// Value of the right-shift field.
    pub fn shift(&self) -> (r: u8)
        ensures
            r == self.spec_shift(),
    {
        match self {
            Averaging::Disabled => 0,
            Averaging::Samples2 => 1,
            Averaging::Samples4 => 2,
            Averaging::Samples8 => 3,
            Averaging::Samples16 => 4,
            Averaging::Samples32 => 5,
            Averaging::Samples64 => 6,
            Averaging::Samples128 => 7,
            Averaging::Samples256 => 8,
            Averaging::Samples512 => 9,
            Averaging::Samples1024 => 10,
        }
    }
}

/// The encoding law of the averaging setting: an enabled setting that
/// accumulates `2^k` samples carries ratio `2^k - 1` and shift `k`, with
/// `k` between 1 and 10; the disabled setting carries ratio 0, shift 0 and
/// a cleared enable flag.
pub proof fn lemma_averaging_mapping(av: Averaging)
    ensures
        av.spec_samples() == pow2(av.spec_shift() as nat),
        av.spec_ratio() + 1 == av.spec_samples(),
        av.spec_enabled() ==> 1 <= av.spec_shift() <= 10,
        !av.spec_enabled() ==> av.spec_ratio() == 0 && av.spec_shift() == 0,
{
    vstd::arithmetic::power2::lemma2_to64();
}

} // verus!
