//! The hardware that the driver is handed: two one-bit pins and a clock.

use crate::timing::Hertz;
use vstd::prelude::*;

verus! {

/// A digital output that can be driven high or low. Either call may fail.
pub trait DigitalOutputPin {
    /// What a failed call reports.
    type Error;

    /// Drives the pin high.
    fn set_high(&mut self) -> Result<(), Self::Error>;

    /// Drives the pin low.
    fn set_low(&mut self) -> Result<(), Self::Error>;
}

/// A digital input whose level can be read. Either call may fail.
pub trait DigitalInputPin {
    /// What a failed call reports.
    type Error;

    /// Whether the input is high.
    fn is_high(&self) -> Result<bool, Self::Error>;

    /// Whether the input is low.
    fn is_low(&self) -> Result<bool, Self::Error>;
}

/// A free-running tick counter of fixed rate that wraps at 32 bits.
pub trait MonotonicClock {
    /// The counter's current value.
    fn now(&self) -> u32;

    /// The rate at which the counter runs.
    fn frequency_hz(&self) -> Hertz;
}

} // verus!
