//! Non-blocking driver for an ultrasonic distance sensor with a trigger
//! output and an echo input, polled from a cooperative control loop.
//!
//! * [`capabilities`] are the pins and the clock that a caller supplies.
//! * [`timing`] turns two samples of a wrapping tick counter into elapsed
//!   microseconds.
//! * [`protocol`] is the ranging cycle as a pure state machine: which pin to
//!   touch next, and what each answer leads to.
//! * [`distance_measurement`] owns the pins and runs the protocol on them.
//! * [`decimal`] writes a small number as decimal digits into a byte buffer,
//!   for a display or a serial line.
//! * [`blink`] keeps an indicator on an output pin and toggles it.

pub mod blink;
pub mod capabilities;
pub mod decimal;
pub mod distance_measurement;
pub mod protocol;
pub mod timing;
