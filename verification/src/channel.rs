//! Conversion channels.
//!
//! A channel handle is a capability naming one fixed hardware channel
//! index. Internal sources (voltage reference, temperature) are obtained
//! from the driver by enabling their analog switch; an external pin is
//! turned into a channel by recording its fixed hardware index. A handle
//! carries no ownership of the peripheral, only its index.

use vstd::prelude::*;

use crate::regs::{NUM_CHANNELS, TEMP_CHANNEL, VREF_CHANNEL};

verus! {

/// A source the converter can sample: one fixed hardware channel index.
pub trait AdcChannel: Sized {
    /// The fixed hardware index of this channel.
    spec fn spec_channel(&self) -> u8;

    /// Read the fixed hardware index of this channel.
    fn channel(&self) -> (r: u8)
        ensures
            r == self.spec_channel(),
            r < NUM_CHANNELS,
    ;

    /// Perform any source-side setup needed before a conversion (for an
    /// external pin, switching it to analog operation). Idempotent; the
    /// channel's index never changes.
    fn setup(&mut self)
        ensures
            final(self).spec_channel() == old(self).spec_channel(),
    ;

}

/// Handle for the internal voltage-reference channel.
pub struct VrefInt;

impl AdcChannel for VrefInt {
    open spec fn spec_channel(&self) -> u8 {
        VREF_CHANNEL
    }

    fn channel(&self) -> (r: u8) {
        VREF_CHANNEL
    }

    fn setup(&mut self) {
    }
}

impl VrefInt {
    /// Give up the handle's concrete type, keeping only its index.
    pub fn degrade(self) -> (r: AnyChannel)
        ensures
            r.spec_channel() == self.spec_channel(),
    {
        AnyChannel { index: VREF_CHANNEL, analog: true }
    }
}

/// Handle for the internal temperature channel.
pub struct Temperature;

impl AdcChannel for Temperature {
    open spec fn spec_channel(&self) -> u8 {
        TEMP_CHANNEL
    }

    fn channel(&self) -> (r: u8) {
        TEMP_CHANNEL
    }

    fn setup(&mut self) {
    }
}

impl Temperature {
    /// Give up the handle's concrete type, keeping only its index.
    pub fn degrade(self) -> (r: AnyChannel)
        ensures
            r.spec_channel() == self.spec_channel(),
    {
        AnyChannel { index: TEMP_CHANNEL, analog: true }
    }
}

/// A type-erased channel handle: any source, known only by its index.
#[derive(Clone, Copy, Debug)]
pub struct AnyChannel {
    index: u8,
    /// Whether the source-side setup (for a pin, analog operation) has
    /// been performed.
    analog: bool,
}

impl AnyChannel {
    /// A channel handle's index always names a real channel.
    #[verifier::type_invariant]
    spec fn index_in_range(self) -> bool {
        self.index < NUM_CHANNELS
    }

    /// Turn a pin capability into a channel capability by recording the
    /// pin's fixed hardware channel index.
    pub fn from_pin_index(index: u8) -> (r: AnyChannel)
        requires
            index < NUM_CHANNELS,
        ensures
            r.spec_channel() == index,
    {
        AnyChannel { index, analog: false }
    }
}

impl AdcChannel for AnyChannel {
    closed spec fn spec_channel(&self) -> u8 {
        self.index
    }

    fn channel(&self) -> (r: u8) {
        proof {
            use_type_invariant(self);
        }
        self.index
    }

    fn setup(&mut self) {
        proof {
            use_type_invariant(&*self);
        }
        let index = self.index;
        *self = AnyChannel { index, analog: true };
    }
}

} // verus!
