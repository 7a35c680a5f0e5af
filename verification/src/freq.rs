//! Clock frequencies, in hertz.

use vstd::prelude::*;

verus! {

/// A clock frequency in hertz.
#[derive(Clone, Copy, Debug, PartialEq, Eq, Structural)]
pub struct Hertz(pub u32);

/// Highest clock frequency at which the converter may operate.
/// The prescaler is chosen so that the divided input clock stays at
/// or below this bound.
pub const MAX_ADC_CLK_FREQ_HZ: u32 = 25_000_000;

} // verus!
