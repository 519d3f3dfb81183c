//! The ranging cycle as a pure state machine.
//!
//! One cycle raises the trigger for a minimum time, releases it, waits for
//! the echo input to rise, and measures how long it stays high. Each
//! operation first names the one pin request it makes, and then moves on
//! from the answer to that request. Nothing here touches a pin or waits.

use crate::distance_measurement::{DistanceError, Future};
use crate::timing::{elapsed_micros, elapsed_micros_spec, Hertz};
use vstd::prelude::*;

verus! {

/// Shortest time in microseconds that the trigger is held active.
pub const MIN_TRIGGER_PULSE_MICROS: u64 = 10;

/// Longest time in microseconds to wait for the echo to rise, and for it
/// to fall again.
pub const ECHO_TIMEOUT_MICROS: u64 = 200_000;

/// Where a ranging cycle stands. The tick in a variant is the clock sample
/// at which that state was entered.
#[derive(Clone, Copy, Debug, PartialEq, Eq, Structural)]
pub enum RangingState {
    /// No cycle in progress.
    Idle,
    /// The trigger is held active.
    Triggering(u32),
    /// The trigger was released; the echo has not risen yet.
    AwaitingEcho(u32),
    /// The echo rose and has not fallen yet.
    MeasuringEcho(u32),
}

impl RangingState {
    /// Whether the trigger output is meant to be active in this state.
    pub open spec fn trigger_active_spec(self) -> bool {
        self is Triggering
    }

    /// Whether a cycle is in progress.
    pub open spec fn in_cycle_spec(self) -> bool {
        !(self is Idle)
    }

    /// Whether the trigger output is meant to be active in this state.
    #[verifier::when_used_as_spec(trigger_active_spec)]
    pub fn trigger_active(self) -> (active: bool)
        ensures
            active == self.trigger_active_spec(),
    {
        match self {
            RangingState::Triggering(_) => true,
            _ => false,
        }
    }

    /// Whether a cycle is in progress.
    #[verifier::when_used_as_spec(in_cycle_spec)]
    pub fn in_cycle(self) -> (busy: bool)
        ensures
            busy == self.in_cycle_spec(),
    {
        match self {
            RangingState::Idle => false,
            _ => true,
        }
    }
}

/// The one thing that an operation wants done to a pin.
#[derive(Clone, Copy, Debug, PartialEq, Eq, Structural)]
pub enum PinRequest {
    /// Touch no pin.
    Nothing,
    /// Drive the trigger output to its active level.
    DriveTriggerHigh,
    /// Drive the trigger output to its inactive level.
    DriveTriggerLow,
    /// Ask the echo input whether it is high.
    ReadEchoHigh,
    /// Ask the echo input whether it is low.
    ReadEchoLow,
}

/// What came of a [`PinRequest`].
#[derive(Debug, PartialEq, Eq)]
pub enum PinReply<E> {
    /// No pin was touched.
    Untouched,
    /// The trigger output was driven as asked.
    Driven,
    /// The echo input was read: `true` for high, `false` for low.
    Echo(bool),
    /// The pin call failed.
    Fault(E),
}

/// Whether the trigger has been active for long enough at the sample `now`.
pub open spec fn trigger_pulse_done(start: u32, now: u32, hz: u32) -> bool {
    elapsed_micros_spec(start, now, hz) >= MIN_TRIGGER_PULSE_MICROS
}

/// Whether the wait that began at `start` has run out at the sample `now`.
pub open spec fn echo_timed_out(start: u32, now: u32, hz: u32) -> bool {
    elapsed_micros_spec(start, now, hz) >= ECHO_TIMEOUT_MICROS
}

/// The pin request that starting a cycle makes in `state`: the trigger is
/// raised only when no cycle is in progress.
pub open spec fn start_request_spec(state: RangingState) -> PinRequest {
    if state is Idle {
        PinRequest::DriveTriggerHigh
    } else {
        PinRequest::Nothing
    }
}

/// The state after starting a cycle in `state` at the sample `now`: a cycle
/// begins only from `Idle`, and then whatever became of the pin request.
pub open spec fn after_start_spec(state: RangingState, now: u32) -> RangingState {
    if state is Idle {
        RangingState::Triggering(now)
    } else {
        state
    }
}

/// The pin request that a reset makes, whatever the state.
pub open spec fn reset_request_spec() -> PinRequest {
    PinRequest::DriveTriggerLow
}

/// The state after a reset, whatever the state was and whatever became of
/// the pin request.
pub open spec fn after_reset_spec(state: RangingState) -> RangingState {
    RangingState::Idle
}

/// The pin request that a poll makes in `state` at the sample `now`.
pub open spec fn poll_request_spec(state: RangingState, now: u32, hz: u32) -> PinRequest {
    match state {
        RangingState::Idle => PinRequest::DriveTriggerLow,
        RangingState::Triggering(start) => if trigger_pulse_done(start, now, hz) {
            PinRequest::DriveTriggerLow
        } else {
            PinRequest::Nothing
        },
        RangingState::AwaitingEcho(_) => PinRequest::ReadEchoHigh,
        RangingState::MeasuringEcho(_) => PinRequest::ReadEchoLow,
    }
}

/// Whether `request` is a write to the trigger output.
pub open spec fn drives_trigger(request: PinRequest) -> bool {
    request is DriveTriggerHigh || request is DriveTriggerLow
}

/// Whether `reply` is something that carrying out `request` can give.
pub open spec fn answers<E>(request: PinRequest, reply: PinReply<E>) -> bool {
    match request {
        PinRequest::Nothing => reply is Untouched,
        PinRequest::DriveTriggerHigh | PinRequest::DriveTriggerLow => reply is Driven
            || reply is Fault,
        PinRequest::ReadEchoHigh | PinRequest::ReadEchoLow => reply is Echo || reply is Fault,
    }
}

/// The state after a poll in `state` at the sample `now` whose pin request
/// was answered by `reply`.
pub open spec fn next_state_spec<E>(
    state: RangingState,
    now: u32,
    hz: u32,
    reply: PinReply<E>,
) -> RangingState {
    match state {
        RangingState::Idle => RangingState::Idle,
        RangingState::Triggering(start) => if trigger_pulse_done(start, now, hz)
            && reply is Driven {
            RangingState::AwaitingEcho(now)
        } else {
            state
        },
        RangingState::AwaitingEcho(_) => if reply == PinReply::<E>::Echo(true) {
            RangingState::MeasuringEcho(now)
        } else {
            state
        },
        RangingState::MeasuringEcho(_) => if reply == PinReply::<E>::Echo(false) {
            RangingState::Idle
        } else {
            state
        },
    }
}

/// What a poll in `state` at the sample `now` reports when its pin request
/// was answered by `reply`. A measured pulse is given in microseconds.
pub open spec fn outcome_spec<E>(
    state: RangingState,
    now: u32,
    hz: u32,
    reply: PinReply<E>,
) -> Result<Future<u64>, DistanceError<E>> {
    match state {
        RangingState::Idle => match reply {
            PinReply::Fault(e) => Err(DistanceError::PinError(e)),
            _ => Ok(Future::NotStarted),
        },
        RangingState::Triggering(start) => if trigger_pulse_done(start, now, hz) {
            match reply {
                PinReply::Fault(e) => Err(DistanceError::PinError(e)),
                _ => Ok(Future::Pending),
            }
        } else {
            Ok(Future::Pending)
        },
        RangingState::AwaitingEcho(start) => match reply {
            PinReply::Fault(e) => Err(DistanceError::PinError(e)),
            PinReply::Echo(true) => Ok(Future::Pending),
            _ => if echo_timed_out(start, now, hz) {
                Err(DistanceError::NoEcho)
            } else {
                Ok(Future::Pending)
            },
        },
        RangingState::MeasuringEcho(start) => match reply {
            PinReply::Fault(e) => Err(DistanceError::PinError(e)),
            PinReply::Echo(false) => Ok(
                Future::Complete(elapsed_micros_spec(start, now, hz) as u64),
            ),
            _ => if echo_timed_out(start, now, hz) {
                Err(DistanceError::NoEcho)
            } else {
                Ok(Future::Pending)
            },
        },
    }
}

/// The pin request that starting a cycle makes in `state`.
pub fn start_request(state: RangingState) -> (request: PinRequest)
    ensures
        request == start_request_spec(state),
{
    match state {
        RangingState::Idle => PinRequest::DriveTriggerHigh,
        _ => PinRequest::Nothing,
    }
}

/// The state after starting a cycle in `state` at the sample `now`.
pub fn after_start(state: RangingState, now: u32) -> (next: RangingState)
    ensures
        next == after_start_spec(state, now),
{
    match state {
        RangingState::Idle => RangingState::Triggering(now),
        _ => state,
    }
}

/// The pin request that a poll makes in `state` at the sample `now` of a
/// clock that runs at the rate `hz`.
pub fn poll_request(state: RangingState, now: u32, hz: Hertz) -> (request: PinRequest)
    ensures
        request == poll_request_spec(state, now, hz@),
{
    match state {
        RangingState::Idle => PinRequest::DriveTriggerLow,
        RangingState::Triggering(start) => {
            if elapsed_micros(start, now, hz) >= MIN_TRIGGER_PULSE_MICROS {
                PinRequest::DriveTriggerLow
            } else {
                PinRequest::Nothing
            }
        },
        RangingState::AwaitingEcho(_) => PinRequest::ReadEchoHigh,
        RangingState::MeasuringEcho(_) => PinRequest::ReadEchoLow,
    }
}

/// One poll: from the state, the clock sample `now` and the answer to the
/// poll's pin request to the next state and the report for the caller.
pub fn step<E>(state: RangingState, now: u32, hz: Hertz, reply: PinReply<E>) -> (result: (
    RangingState,
    Result<Future<u64>, DistanceError<E>>,
))
    ensures
        result.0 == next_state_spec(state, now, hz@, reply),
        result.1 == outcome_spec(state, now, hz@, reply),
{
    match state {
        RangingState::Idle => match reply {
            PinReply::Fault(e) => (state, Err(DistanceError::PinError(e))),
            _ => (state, Ok(Future::NotStarted)),
        },
        RangingState::Triggering(start) => {
            if elapsed_micros(start, now, hz) < MIN_TRIGGER_PULSE_MICROS {
                (state, Ok(Future::Pending))
            } else {
                match reply {
                    PinReply::Fault(e) => (state, Err(DistanceError::PinError(e))),
                    PinReply::Driven => (RangingState::AwaitingEcho(now), Ok(Future::Pending)),
                    _ => (state, Ok(Future::Pending)),
                }
            }
        },
        RangingState::AwaitingEcho(start) => match reply {
            PinReply::Fault(e) => (state, Err(DistanceError::PinError(e))),
            PinReply::Echo(true) => (RangingState::MeasuringEcho(now), Ok(Future::Pending)),
            _ => {
                if elapsed_micros(start, now, hz) >= ECHO_TIMEOUT_MICROS {
                    (state, Err(DistanceError::NoEcho))
                } else {
                    (state, Ok(Future::Pending))
                }
            },
        },
        RangingState::MeasuringEcho(start) => match reply {
            PinReply::Fault(e) => (state, Err(DistanceError::PinError(e))),
            PinReply::Echo(false) => (
                RangingState::Idle,
                Ok(Future::Complete(elapsed_micros(start, now, hz))),
            ),
            _ => {
                if elapsed_micros(start, now, hz) >= ECHO_TIMEOUT_MICROS {
                    (state, Err(DistanceError::NoEcho))
                } else {
                    (state, Ok(Future::Pending))
                }
            },
        },
    }
}

/// The answer of working pins while the echo input stays low.
pub open spec fn silent_reply<E>(request: PinRequest) -> PinReply<E> {
    match request {
        PinRequest::Nothing => PinReply::Untouched,
        PinRequest::DriveTriggerHigh | PinRequest::DriveTriggerLow => PinReply::Driven,
        PinRequest::ReadEchoHigh | PinRequest::ReadEchoLow => PinReply::Echo(false),
    }
}

/// The state after one poll at the sample `now` with working pins and a low
/// echo input.
pub open spec fn silent_poll_spec(state: RangingState, now: u32, hz: u32) -> RangingState {
    next_state_spec(state, now, hz, silent_reply::<()>(poll_request_spec(state, now, hz)))
}

/// The state after polling once at each of `samples` in turn, with working
/// pins and an echo input that stays low throughout.
pub open spec fn silent_polls_spec(state: RangingState, samples: Seq<u32>, hz: u32) -> RangingState
    decreases samples.len(),
{
    if samples.len() == 0 {
        state
    } else {
        silent_poll_spec(silent_polls_spec(state, samples.drop_last(), hz), samples.last(), hz)
    }
}

/// A poll that reports a pin fault leaves the state as it was, and so does
/// a poll that reports a missing echo.
pub proof fn lemma_failed_poll_keeps_state<E>(
    state: RangingState,
    now: u32,
    hz: u32,
    reply: PinReply<E>,
)
    ensures
        outcome_spec(state, now, hz, reply) is Err ==> next_state_spec(state, now, hz, reply)
            == state,
{
}

/// A poll reports a pin fault exactly when the pin call that it made failed,
/// and then with the error of that call.
pub proof fn lemma_poll_reports_pin_fault<E>(
    state: RangingState,
    now: u32,
    hz: u32,
    reply: PinReply<E>,
    error: E,
)
    requires
        answers(poll_request_spec(state, now, hz), reply),
    ensures
        outcome_spec(state, now, hz, reply) == Err::<Future<u64>, DistanceError<E>>(
            DistanceError::PinError(error),
        ) <==> reply == PinReply::Fault(error),
{
}

/// A start during a cycle touches no pin and changes nothing, so the tick
/// from which the cycle is timed stays as it was.
pub proof fn lemma_start_guarded(state: RangingState, now: u32)
    ensures
        state.in_cycle() ==> start_request_spec(state) == PinRequest::Nothing
            && after_start_spec(state, now) == state,
        !state.in_cycle() ==> start_request_spec(state) == PinRequest::DriveTriggerHigh
            && after_start_spec(state, now) == RangingState::Triggering(now),
{
}

/// A second reset changes nothing: after one reset and after two the state
/// is `Idle`, in which the trigger is meant to be inactive.
pub proof fn lemma_reset_idempotent(state: RangingState)
    ensures
        after_reset_spec(after_reset_spec(state)) == after_reset_spec(state),
        after_reset_spec(state) == RangingState::Idle,
        !after_reset_spec(state).trigger_active(),
{
}

/// Two resets in a row add two requests to whatever was asked of the pins
/// before, and both are to drive the trigger low: neither raises the trigger
/// or reads the echo.
pub proof fn lemma_resets_only_release(before: Seq<PinRequest>)
    ensures
        ({
            let after = before.push(reset_request_spec()).push(reset_request_spec());
            &&& after.len() == before.len() + 2
            &&& after.subrange(0, before.len() as int) == before
            &&& forall|i: int|
                before.len() <= i < after.len() ==> #[trigger] after[i]
                    == PinRequest::DriveTriggerLow
        }),
{
    let after = before.push(reset_request_spec()).push(reset_request_spec());
    assert(after.subrange(0, before.len() as int) =~= before);
}

/// The trigger is raised by a start from `Idle` and by nothing else: not by
/// a start during a cycle, not by a reset, and not by a poll in any state.
pub proof fn lemma_only_start_raises_trigger(state: RangingState, now: u32, hz: u32)
    ensures
        start_request_spec(state) == PinRequest::DriveTriggerHigh <==> state is Idle,
        reset_request_spec() != PinRequest::DriveTriggerHigh,
        poll_request_spec(state, now, hz) != PinRequest::DriveTriggerHigh,
{
}

/// A poll changes whether the trigger is meant to be active only by
/// releasing it, and only when it asked for that write and the pin took it.
pub proof fn lemma_trigger_released_by_write<E>(
    state: RangingState,
    now: u32,
    hz: u32,
    reply: PinReply<E>,
)
    ensures
        next_state_spec(state, now, hz, reply).trigger_active() != state.trigger_active() ==> {
            &&& state.trigger_active()
            &&& poll_request_spec(state, now, hz) == PinRequest::DriveTriggerLow
            &&& reply is Driven
        },
{
}

/// One poll of a started cycle while the echo input stays low: the report
/// is `Pending` until the trigger pulse is over, the trigger is released at
/// the first poll after that, and from then on the report is `Pending` until
/// the timeout has run out and `NoEcho` from the poll at which it has.
pub proof fn lemma_silent_poll<E>(state: RangingState, now: u32, hz: u32)
    ensures
        state matches RangingState::Triggering(start) ==> {
            &&& outcome_spec::<E>(state, now, hz, silent_reply(poll_request_spec(state, now, hz)))
                == Ok::<Future<u64>, DistanceError<E>>(Future::Pending)
            &&& silent_poll_spec(state, now, hz) == if trigger_pulse_done(start, now, hz) {
                RangingState::AwaitingEcho(now)
            } else {
                state
            }
        },
        state matches RangingState::AwaitingEcho(start) ==> {
            &&& outcome_spec::<E>(state, now, hz, silent_reply(poll_request_spec(state, now, hz)))
                == if echo_timed_out(start, now, hz) {
                Err::<Future<u64>, DistanceError<E>>(DistanceError::NoEcho)
            } else {
                Ok::<Future<u64>, DistanceError<E>>(Future::Pending)
            }
            &&& silent_poll_spec(state, now, hz) == state
        },
{
}

/// However often a started cycle is polled while the echo input stays low,
/// it is still raising the trigger or waiting for the echo: it never
/// measures and never completes. Once it waits for the echo, it goes on
/// waiting from the same tick.
pub proof fn lemma_silent_polls_keep_waiting(state: RangingState, samples: Seq<u32>, hz: u32)
    requires
        state is Triggering || state is AwaitingEcho,
    ensures
        silent_polls_spec(state, samples, hz) is Triggering || silent_polls_spec(
            state,
            samples,
            hz,
        ) is AwaitingEcho,
        silent_polls_spec(state, samples, hz) is Triggering ==> silent_polls_spec(
            state,
            samples,
            hz,
        ) == state,
        state is AwaitingEcho ==> silent_polls_spec(state, samples, hz) == state,
    decreases samples.len(),
{
    if samples.len() > 0 {
        lemma_silent_polls_keep_waiting(state, samples.drop_last(), hz);
    }
}

/// Every poll of a started cycle while the echo input stays low reports
/// `Pending` or `NoEcho`, and `NoEcho` exactly when the cycle is waiting
/// for the echo and the timeout has run out at that poll.
pub proof fn lemma_silent_polls_report<E>(
    state: RangingState,
    earlier: Seq<u32>,
    now: u32,
    hz: u32,
)
    requires
        state is Triggering || state is AwaitingEcho,
    ensures
        ({
            let before = silent_polls_spec(state, earlier, hz);
            let report = outcome_spec::<E>(
                before,
                now,
                hz,
                silent_reply(poll_request_spec(before, now, hz)),
            );
            let timed_out = before matches RangingState::AwaitingEcho(start) && echo_timed_out(
                start,
                now,
                hz,
            );
            &&& timed_out ==> report == Err::<Future<u64>, DistanceError<E>>(DistanceError::NoEcho)
            &&& !timed_out ==> report == Ok::<Future<u64>, DistanceError<E>>(Future::Pending)
        }),
{
    lemma_silent_polls_keep_waiting(state, earlier, hz);
    lemma_silent_poll::<E>(silent_polls_spec(state, earlier, hz), now, hz);
}

/// A pulse is measured from the poll that sees the echo high to the poll
/// that sees it low again: the cycle then ends in `Idle` and reports the
/// microseconds between those two clock samples.
pub proof fn lemma_pulse_measured_between_edges<E>(
    waiting_since: u32,
    rise: u32,
    fall: u32,
    hz: u32,
)
    ensures
        ({
            let waiting = RangingState::AwaitingEcho(waiting_since);
            let measuring = next_state_spec::<E>(waiting, rise, hz, PinReply::Echo(true));
            &&& measuring == RangingState::MeasuringEcho(rise)
            &&& next_state_spec::<E>(measuring, fall, hz, PinReply::Echo(false))
                == RangingState::Idle
            &&& outcome_spec::<E>(measuring, fall, hz, PinReply::Echo(false)) == Ok::<
                Future<u64>,
                DistanceError<E>,
            >(Future::Complete(elapsed_micros_spec(rise, fall, hz) as u64))
        }),
{
}

} // verus!
