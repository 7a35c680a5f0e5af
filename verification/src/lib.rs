//! Acquisition driver for a microcontroller analog-to-digital converter,
//! modelled at the register level.
//!
//! The driver owns a plain-value model of the peripheral's register block
//! and of its shared common-configuration block. Every operation states in
//! its contract exactly which fields it writes and what it returns; the
//! hardware's documented reactions to those writes (a calibration that
//! completes, a ready flag that asserts, a conversion that lands in the
//! data register) are part of the model, so the whole protocol is checked.

pub mod adc;
pub mod averaging;
pub mod channel;
pub mod freq;
pub mod prescaler;
pub mod regs;
