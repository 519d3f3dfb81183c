//! The driver: owns the two pins, borrows the clock, and runs the ranging
//! protocol on them one poll at a time.
//!
//! Every operation makes exactly one pin request, which may be to touch
//! nothing. The driver keeps a record of the requests that it has carried
//! out, and the contracts say which request each operation adds to it.

use crate::capabilities::{DigitalInputPin, DigitalOutputPin, MonotonicClock};
use crate::protocol::{
    after_reset_spec, after_start, after_start_spec, answers, drives_trigger, next_state_spec,
    outcome_spec, poll_request, poll_request_spec, reset_request_spec, start_request,
    start_request_spec, step, PinReply, PinRequest, RangingState,
};
use core::time::Duration;
use vstd::prelude::*;

verus! {

/// What a poll reports while nothing has gone wrong.
#[derive(Debug, PartialEq, Eq)]
pub enum Future<T> {
    /// No cycle has been started.
    NotStarted,
    /// A cycle is in progress and has no result yet.
    Pending,
    /// The echo pulse was measured.
    Complete(T),
}

/// Why a ranging cycle failed.
#[derive(Debug, PartialEq, Eq)]
pub enum DistanceError<TOutError> {
    /// A pin call failed with this error.
    PinError(TOutError),
    /// The echo did not rise, or did not fall, within the timeout.
    NoEcho,
}

impl<T> From<T> for DistanceError<T> {
    /// Wraps the error of a pin call.
    fn from(x: T) -> (error: Self) {
        DistanceError::PinError(x)
    }
}

impl<T> vstd::std_specs::convert::FromSpecImpl<T> for DistanceError<T> {
    open spec fn obeys_from_spec() -> bool {
        true
    }

    open spec fn from_spec(x: T) -> Self {
        DistanceError::PinError(x)
    }
}

/// The duration that `Duration::from_micros` makes of `micros`: the one
/// that lasts that many microseconds.
pub uninterp spec fn duration_of_micros(micros: u64) -> Duration;

/// Calls `Duration::from_micros`. Taken on trust: what it returns depends
/// on the number of microseconds alone, and is what [`duration_of_micros`]
/// names for that number.
#[verifier::external_body]
fn duration_from_micros(micros: u64) -> (duration: Duration)
    ensures
        duration == duration_of_micros(micros),
{
    Duration::from_micros(micros)
}

/// A report whose measured pulse, counted in microseconds, is given as a
/// duration instead.
pub open spec fn timed<E>(report: Result<Future<u64>, DistanceError<E>>) -> Result<
    Future<Duration>,
    DistanceError<E>,
> {
    match report {
        Ok(Future::NotStarted) => Ok(Future::NotStarted),
        Ok(Future::Pending) => Ok(Future::Pending),
        Ok(Future::Complete(micros)) => Ok(Future::Complete(duration_of_micros(micros))),
        Err(e) => Err(e),
    }
}

/// A ranging driver on a trigger output, an echo input and a clock.
#[verifier::reject_recursive_types(TError)]
pub struct DistanceMeasurement<'timer, TIn, TOut, TClock, TError> where
    TIn: DigitalInputPin<Error = TError>,
    TOut: DigitalOutputPin<Error = TError>,
    TClock: MonotonicClock,
 {
    state: RangingState,
    driver: TOut,
    receiver: TIn,
    timer: &'timer TClock,
    requests: Ghost<Seq<PinRequest>>,
}

impl<'timer, TIn, TOut, TClock, TError> View for DistanceMeasurement<
    'timer,
    TIn,
    TOut,
    TClock,
    TError,
> where
    TIn: DigitalInputPin<Error = TError>,
    TOut: DigitalOutputPin<Error = TError>,
    TClock: MonotonicClock,
 {
    type V = RangingState;

    closed spec fn view(&self) -> RangingState {
        self.state
    }
}

impl<'timer, TIn, TOut, TClock, TError> DistanceMeasurement<'timer, TIn, TOut, TClock, TError> where
    TIn: DigitalInputPin<Error = TError>,
    TOut: DigitalOutputPin<Error = TError>,
    TClock: MonotonicClock,
 {
    /// Every pin request that the driver has carried out, oldest first.
    /// Each operation adds the one request that it makes, also where that
    /// request is to touch nothing.
    pub closed spec fn requests(&self) -> Seq<PinRequest> {
        self.requests@
    }

    /// The trigger output that the driver holds.
    pub closed spec fn trigger(&self) -> TOut {
        self.driver
    }

    /// The echo input that the driver holds.
    pub closed spec fn echo(&self) -> TIn {
        self.receiver
    }

    /// The clock that the driver borrows.
    pub closed spec fn clock(&self) -> TClock {
        *self.timer
    }

    /// Takes the two pins and borrows the clock, drives the trigger to its
    /// inactive level with one write, and waits in `Idle`.
    pub fn new(trigger: TOut, echo: TIn, timer: &'timer TClock) -> (machine: Self)
        ensures
            machine@ == RangingState::Idle,
            machine.requests() == Seq::<PinRequest>::empty().push(PinRequest::DriveTriggerLow),
            machine.echo() == echo,
            machine.clock() == *timer,
    {
        let requests = Ghost(Seq::<PinRequest>::empty());
        let mut machine = DistanceMeasurement {
            state: RangingState::Idle,
            driver: trigger,
            receiver: echo,
            timer,
            requests,
        };
        let _ = machine.perform(PinRequest::DriveTriggerLow);
        machine
    }

    /// Where the cycle stands.
    pub fn state(&self) -> (state: RangingState)
        ensures
            state == self@,
    {
        self.state
    }

    /// Begins a ranging cycle: from `Idle`, raises the trigger with one
    /// write and enters `Triggering` at the current clock sample. While a
    /// cycle is in progress no pin is touched and nothing changes.
    pub fn start(&mut self)
        ensures
            final(self).requests() == old(self).requests().push(start_request_spec(old(self)@)),
            old(self)@.in_cycle() ==> final(self).trigger() == old(self).trigger(),
            final(self).echo() == old(self).echo(),
            final(self).clock() == old(self).clock(),
            exists|now: u32| final(self)@ == #[trigger] after_start_spec(old(self)@, now),
    {
        let _ = self.perform(start_request(self.state));
        self.state = after_start(self.state, self.timer.now());
    }

    /// Abandons the cycle: drives the trigger to its inactive level with one
    /// write, touches nothing else, and returns to `Idle`, whatever the
    /// state was and whatever became of the write.
    pub fn reset(&mut self)
        ensures
            final(self)@ == after_reset_spec(old(self)@),
            final(self).requests() == old(self).requests().push(reset_request_spec()),
            final(self).echo() == old(self).echo(),
            final(self).clock() == old(self).clock(),
    {
        let _ = self.perform(PinRequest::DriveTriggerLow);
        self.state = RangingState::Idle;
    }

    /// Carries out `request` on the pins, with the one pin call that it
    /// names, and notes it in the record.
    fn perform(&mut self, request: PinRequest) -> (reply: PinReply<TError>)
        ensures
            answers(request, reply),
            final(self)@ == old(self)@,
            final(self).requests() == old(self).requests().push(request),
            !drives_trigger(request) ==> final(self).trigger() == old(self).trigger(),
            final(self).echo() == old(self).echo(),
            final(self).clock() == old(self).clock(),
    {
        let reply = match request {
            PinRequest::Nothing => PinReply::Untouched,
            PinRequest::DriveTriggerHigh => match self.driver.set_high() {
                Ok(_) => PinReply::Driven,
                Err(e) => PinReply::Fault(e),
            },
            PinRequest::DriveTriggerLow => match self.driver.set_low() {
                Ok(_) => PinReply::Driven,
                Err(e) => PinReply::Fault(e),
            },
            PinRequest::ReadEchoHigh => match self.receiver.is_high() {
                Ok(high) => PinReply::Echo(high),
                Err(e) => PinReply::Fault(e),
            },
            PinRequest::ReadEchoLow => match self.receiver.is_low() {
                Ok(low) => PinReply::Echo(!low),
                Err(e) => PinReply::Fault(e),
            },
        };
        proof {
            self.requests@ = self.requests@.push(request);
        }
        reply
    }

    /// Advances the cycle by one step without waiting: samples the clock,
    /// makes the one pin request that the state calls for, and moves on
    /// from its answer.
    pub fn poll(&mut self) -> (report: Result<Future<Duration>, DistanceError<TError>>)
        ensures
            exists|now: u32, hz: u32, reply: PinReply<TError>|
                {
                    &&& hz > 0
                    &&& answers(poll_request_spec(old(self)@, now, hz), reply)
                    &&& final(self).requests() == old(self).requests().push(
                        poll_request_spec(old(self)@, now, hz),
                    )
                    &&& !drives_trigger(poll_request_spec(old(self)@, now, hz))
                        ==> final(self).trigger() == old(self).trigger()
                    &&& final(self)@ == #[trigger] next_state_spec(old(self)@, now, hz, reply)
                    &&& report == timed(outcome_spec(old(self)@, now, hz, reply))
                },
            report is Err ==> final(self)@ == old(self)@,
            final(self).echo() == old(self).echo(),
            final(self).clock() == old(self).clock(),
    {
        let hz = self.timer.frequency_hz();
        proof {
            use_type_invariant(&hz);
        }
        let now = self.timer.now();
        let request = poll_request(self.state, now, hz);
        let reply = self.perform(request);
        let (next, outcome) = step(self.state, now, hz, reply);
        self.state = next;
        match outcome {
            Ok(Future::NotStarted) => Ok(Future::NotStarted),
            Ok(Future::Pending) => Ok(Future::Pending),
            Ok(Future::Complete(micros)) => Ok(Future::Complete(duration_from_micros(micros))),
            Err(e) => Err(e),
        }
    }
}

} // verus!
