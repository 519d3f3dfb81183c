use ultrasonic::distance_measurement::{DistanceError, Future};
use ultrasonic::protocol::{
    after_start, poll_request, start_request, step, PinReply, PinRequest, RangingState,
    ECHO_TIMEOUT_MICROS, MIN_TRIGGER_PULSE_MICROS,
};

use ultrasonic::timing::Hertz;

const HZ: u32 = 8_000_000;

fn rate(ticks_per_second: u32) -> Hertz {
    Hertz::new(ticks_per_second).unwrap()
}

type Report = Result<Future<u64>, DistanceError<u8>>;

fn pending() -> Report {
    Ok(Future::Pending)
}

fn no_echo() -> Report {
    Err(DistanceError::NoEcho)
}

fn fault(code: u8) -> Report {
    Err(DistanceError::PinError(code))
}

#[test]
fn thresholds() {
    assert_eq!(MIN_TRIGGER_PULSE_MICROS, 10);
    assert_eq!(ECHO_TIMEOUT_MICROS, 200_000);
}

#[test]
fn trigger_is_meant_active_only_while_triggering() {
    assert!(!RangingState::Idle.trigger_active());
    assert!(RangingState::Triggering(7).trigger_active());
    assert!(!RangingState::AwaitingEcho(7).trigger_active());
    assert!(!RangingState::MeasuringEcho(7).trigger_active());
    assert!(!RangingState::Idle.in_cycle());
    assert!(RangingState::Triggering(7).in_cycle());
    assert!(RangingState::AwaitingEcho(7).in_cycle());
    assert!(RangingState::MeasuringEcho(7).in_cycle());
}

#[test]
fn start_raises_the_trigger_only_from_idle() {
    assert_eq!(start_request(RangingState::Idle), PinRequest::DriveTriggerHigh);
    assert_eq!(start_request(RangingState::Triggering(1)), PinRequest::Nothing);
    assert_eq!(start_request(RangingState::AwaitingEcho(1)), PinRequest::Nothing);
    assert_eq!(start_request(RangingState::MeasuringEcho(1)), PinRequest::Nothing);
}

#[test]
fn start_enters_triggering_only_from_idle() {
    assert_eq!(after_start(RangingState::Idle, 42), RangingState::Triggering(42));
    assert_eq!(after_start(RangingState::Idle, u32::MAX), RangingState::Triggering(u32::MAX));
    assert_eq!(after_start(RangingState::Triggering(5), 42), RangingState::Triggering(5));
    assert_eq!(after_start(RangingState::AwaitingEcho(5), 42), RangingState::AwaitingEcho(5));
    assert_eq!(after_start(RangingState::MeasuringEcho(5), 42), RangingState::MeasuringEcho(5));
}

#[test]
fn poll_requests_by_state() {
    assert_eq!(poll_request(RangingState::Idle, 0, rate(HZ)), PinRequest::DriveTriggerLow);
    assert_eq!(poll_request(RangingState::Triggering(0), 79, rate(HZ)), PinRequest::Nothing);
    let triggering = RangingState::Triggering(0);
    assert_eq!(poll_request(triggering, 80, rate(HZ)), PinRequest::DriveTriggerLow);
    assert_eq!(poll_request(triggering, 81, rate(HZ)), PinRequest::DriveTriggerLow);
    assert_eq!(poll_request(RangingState::AwaitingEcho(0), 5, rate(HZ)), PinRequest::ReadEchoHigh);
    assert_eq!(poll_request(RangingState::MeasuringEcho(0), 5, rate(HZ)), PinRequest::ReadEchoLow);
}

#[test]
fn idle_reports_not_started() {
    assert_eq!(
        step::<u8>(RangingState::Idle, 123, rate(HZ), PinReply::Driven),
        (RangingState::Idle, Ok(Future::NotStarted))
    );
    assert_eq!(
        step(RangingState::Idle, 123, rate(HZ), PinReply::Fault(9u8)),
        (RangingState::Idle, fault(9))
    );
}

#[test]
fn trigger_pulse_ends_at_ten_microseconds() {
    let state = RangingState::Triggering(0);
    assert_eq!(step::<u8>(state, 79, rate(HZ), PinReply::Untouched), (state, pending()));
    assert_eq!(
        step::<u8>(state, 80, rate(HZ), PinReply::Driven),
        (RangingState::AwaitingEcho(80), pending())
    );
    assert_eq!(
        step::<u8>(state, 81, rate(HZ), PinReply::Driven),
        (RangingState::AwaitingEcho(81), pending())
    );
    assert_eq!(step(state, 81, rate(HZ), PinReply::Fault(4u8)), (state, fault(4)));
    assert_eq!(step::<u8>(state, 81, rate(HZ), PinReply::Untouched), (state, pending()));
}

#[test]
fn trigger_pulse_is_timed_across_a_wrap() {
    let state = RangingState::Triggering(u32::MAX - 39);
    assert_eq!(step::<u8>(state, 39, rate(HZ), PinReply::Untouched), (state, pending()));
    assert_eq!(
        step::<u8>(state, 40, rate(HZ), PinReply::Driven),
        (RangingState::AwaitingEcho(40), pending())
    );
}

#[test]
fn awaiting_echo_moves_on_when_the_echo_rises() {
    let state = RangingState::AwaitingEcho(100);
    assert_eq!(
        step::<u8>(state, 300, rate(HZ), PinReply::Echo(true)),
        (RangingState::MeasuringEcho(300), pending())
    );
    assert_eq!(
        step::<u8>(state, 100 + 1_600_000, rate(HZ), PinReply::Echo(true)),
        (RangingState::MeasuringEcho(100 + 1_600_000), pending())
    );
    assert_eq!(step::<u8>(state, 300, rate(HZ), PinReply::Echo(false)), (state, pending()));
    assert_eq!(step(state, 300, rate(HZ), PinReply::Fault(1u8)), (state, fault(1)));
}

#[test]
fn awaiting_echo_times_out_at_200_milliseconds() {
    let state = RangingState::AwaitingEcho(100);
    let low: fn() -> PinReply<u8> = || PinReply::Echo(false);
    assert_eq!(step(state, 100 + 1_599_999, rate(HZ), low()), (state, pending()));
    assert_eq!(step(state, 100 + 1_600_000, rate(HZ), low()), (state, no_echo()));
    assert_eq!(step(state, 100 + 1_600_001, rate(HZ), low()), (state, no_echo()));
}

#[test]
fn measuring_echo_completes_when_the_echo_falls() {
    let state = RangingState::MeasuringEcho(500);
    assert_eq!(
        step::<u8>(state, 1500, rate(HZ), PinReply::Echo(false)),
        (RangingState::Idle, Ok(Future::Complete(125)))
    );
    assert_eq!(
        step::<u8>(state, 1499, rate(HZ), PinReply::Echo(false)),
        (RangingState::Idle, Ok(Future::Complete(124)))
    );
    assert_eq!(
        step::<u8>(state, 500, rate(HZ), PinReply::Echo(false)),
        (RangingState::Idle, Ok(Future::Complete(0)))
    );
    assert_eq!(
        step::<u8>(state, 500 + 2_000_000, rate(HZ), PinReply::Echo(false)),
        (RangingState::Idle, Ok(Future::Complete(250_000)))
    );
    assert_eq!(step::<u8>(state, 1500, rate(HZ), PinReply::Echo(true)), (state, pending()));
    assert_eq!(step(state, 1500, rate(HZ), PinReply::Fault(2u8)), (state, fault(2)));
}

#[test]
fn measuring_echo_measures_across_a_wrap() {
    let state = RangingState::MeasuringEcho(u32::MAX - 255);
    assert_eq!(
        step::<u8>(state, 744, rate(HZ), PinReply::Echo(false)),
        (RangingState::Idle, Ok(Future::Complete(125)))
    );
    let state = RangingState::MeasuringEcho(1);
    assert_eq!(
        step::<u8>(state, 0, rate(1), PinReply::Echo(false)),
        (RangingState::Idle, Ok(Future::Complete(4_294_967_295_000_000)))
    );
}

#[test]
fn measuring_echo_times_out_at_200_milliseconds() {
    let state = RangingState::MeasuringEcho(0);
    assert_eq!(step::<u8>(state, 1_599_999, rate(HZ), PinReply::Echo(true)), (state, pending()));
    assert_eq!(step::<u8>(state, 1_600_000, rate(HZ), PinReply::Echo(true)), (state, no_echo()));
}

#[test]
fn a_fault_never_changes_the_state() {
    let states = [
        RangingState::Idle,
        RangingState::Triggering(10),
        RangingState::AwaitingEcho(10),
        RangingState::MeasuringEcho(10),
    ];
    for state in states {
        for now in [10u32, 11, 90, 100, 2_000_000, u32::MAX, 9] {
            let (next, _) = step(state, now, rate(HZ), PinReply::Fault(7u8));
            assert_eq!(next, state);
        }
    }
}

#[test]
fn silent_echo_gives_pending_then_no_echo() {
    let mut state = RangingState::Triggering(0);
    let mut now: u32 = 0;
    let mut released_at: Option<u32> = None;
    while now < 1_700_000 {
        let request = poll_request(state, now, rate(HZ));
        let reply: PinReply<u8> = match request {
            PinRequest::Nothing => PinReply::Untouched,
            PinRequest::DriveTriggerHigh | PinRequest::DriveTriggerLow => PinReply::Driven,
            PinRequest::ReadEchoHigh | PinRequest::ReadEchoLow => PinReply::Echo(false),
        };
        let before = state;
        let (next, report) = step(state, now, rate(HZ), reply);
        state = next;
        match before {
            RangingState::Triggering(_) => {
                assert_eq!(report, pending());
                if now >= 80 {
                    assert_eq!(state, RangingState::AwaitingEcho(now));
                    released_at = Some(now);
                } else {
                    assert_eq!(state, before);
                }
            }
            RangingState::AwaitingEcho(since) => {
                assert_eq!(Some(since), released_at);
                assert_eq!(state, before);
                if now - since >= 1_600_000 {
                    assert_eq!(report, no_echo());
                } else {
                    assert_eq!(report, pending());
                }
            }
            _ => panic!("the cycle left the waiting states"),
        }
        now += 7;
    }
    assert_eq!(released_at, Some(84));
    assert_eq!(state, RangingState::AwaitingEcho(84));
}
