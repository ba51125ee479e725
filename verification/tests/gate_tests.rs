use sakura_shell::endpoint::{is_success, Endpoint, Method, Request};
use sakura_shell::gate::{
    no_internet_notice, Gate, GateAction, GateEvent, GateKind, GateOutcome, GatePhase,
    CONNECTIVITY_ATTEMPTS, POLL_INTERVAL_MS, READINESS_ATTEMPTS,
};
use sakura_shell::window::{Command, Effect, Signal, Window};

/// What a gate asked the host to do over one whole run.
struct GateLog {
    outcome: GateOutcome,
    polls: usize,
    notifications: usize,
    sleeps: usize,
    actions: Vec<GateAction>,
}

fn notice() -> Effect {
    Effect { target: Window::Main, command: Command::Emit(Signal::NoInternet) }
}

/// Drives a gate to its end; poll number `n` (from 1) is answered by
/// `answer(n)`.
fn drive(mut gate: Gate, answer: &dyn Fn(usize) -> Option<u16>) -> GateLog {
    let mut log = GateLog {
        outcome: GateOutcome::TimedOut,
        polls: 0,
        notifications: 0,
        sleeps: 0,
        actions: Vec::new(),
    };
    let mut action = gate.action();
    loop {
        log.actions.push(action);
        action = match action {
            GateAction::Poll(_) => {
                log.polls += 1;
                gate.advance(GateEvent::Polled(answer(log.polls)))
            }
            GateAction::Notify(_) => {
                log.notifications += 1;
                gate.advance(GateEvent::Completed)
            }
            GateAction::Sleep { .. } => {
                log.sleeps += 1;
                gate.advance(GateEvent::Completed)
            }
            GateAction::Finish(outcome) => {
                log.outcome = outcome;
                assert_eq!(gate.outcome(), Some(outcome));
                return log;
            }
        };
    }
}

#[test]
fn success_statuses_are_200_to_299() {
    assert!(!is_success(None));
    assert!(!is_success(Some(0)));
    assert!(!is_success(Some(199)));
    assert!(is_success(Some(200)));
    assert!(is_success(Some(204)));
    assert!(is_success(Some(299)));
    assert!(!is_success(Some(300)));
    assert!(!is_success(Some(404)));
    assert!(!is_success(Some(500)));
    assert!(!is_success(Some(u16::MAX)));
}

#[test]
fn requests_name_their_endpoint_method_and_timeout() {
    assert_eq!(
        Request::health(),
        Request { endpoint: Endpoint::Health, method: Method::Get, timeout_ms: None }
    );
    assert_eq!(
        Request::internet(),
        Request { endpoint: Endpoint::Internet, method: Method::Get, timeout_ms: Some(2000) }
    );
    assert_eq!(
        Request::shutdown(),
        Request { endpoint: Endpoint::Shutdown, method: Method::Post, timeout_ms: Some(500) }
    );
    assert_eq!(Endpoint::Health.url(), "http://127.0.0.1:8000/health");
    assert_eq!(Endpoint::Shutdown.url(), "http://localhost:8000/shutdown");
    assert_eq!(Endpoint::Internet.url(), "https://www.google.com");
}

#[test]
fn gate_defaults() {
    assert_eq!(READINESS_ATTEMPTS, 45);
    assert_eq!(CONNECTIVITY_ATTEMPTS, 30);
    assert_eq!(POLL_INTERVAL_MS, 1000);
}

#[test]
fn readiness_passes_on_attempt_ten_after_exactly_ten_polls() {
    let gate = Gate::await_ready(45, 1000);
    let log = drive(gate, &|n| if n == 10 { Some(200) } else { None });
    assert_eq!(log.outcome, GateOutcome::Passed);
    assert_eq!(log.polls, 10);
    assert_eq!(log.sleeps, 9);
    assert_eq!(log.notifications, 0);
    assert_eq!(log.actions.last(), Some(&GateAction::Finish(GateOutcome::Passed)));
    assert_eq!(log.actions[0], GateAction::Poll(Request::health()));
    assert_eq!(log.actions[1], GateAction::Sleep { millis: 1000 });
}

#[test]
fn readiness_treats_a_bad_status_as_not_ready() {
    let gate = Gate::await_ready(3, 250);
    let log = drive(gate, &|n| if n == 3 { Some(204) } else { Some(503) });
    assert_eq!(log.outcome, GateOutcome::Passed);
    assert_eq!(log.polls, 3);
    assert_eq!(log.actions[1], GateAction::Sleep { millis: 250 });
}

#[test]
fn readiness_times_out_after_forty_five_polls() {
    let log = drive(Gate::await_ready(READINESS_ATTEMPTS, POLL_INTERVAL_MS), &|_| None);
    assert_eq!(log.outcome, GateOutcome::TimedOut);
    assert_eq!(log.polls, 45);
    assert_eq!(log.sleeps, 45);
    assert_eq!(log.notifications, 0);
}

#[test]
fn connectivity_never_succeeding_polls_max_times_and_notifies_once() {
    let log = drive(Gate::await_internet(CONNECTIVITY_ATTEMPTS, POLL_INTERVAL_MS), &|_| None);
    assert_eq!(log.outcome, GateOutcome::TimedOut);
    assert_eq!(log.polls, 30);
    assert_eq!(log.notifications, 1);
    assert_eq!(log.sleeps, 30);
    assert_eq!(log.actions[0], GateAction::Poll(Request::internet()));
    assert_eq!(log.actions[1], GateAction::Notify(notice()));
    assert_eq!(log.actions[2], GateAction::Sleep { millis: 1000 });
    assert_eq!(log.actions[3], GateAction::Poll(Request::internet()));
    assert_eq!(log.actions[4], GateAction::Sleep { millis: 1000 });
}

#[test]
fn connectivity_passing_at_once_never_notifies() {
    let log = drive(Gate::await_internet(30, 1000), &|_| Some(200));
    assert_eq!(log.outcome, GateOutcome::Passed);
    assert_eq!(log.polls, 1);
    assert_eq!(log.notifications, 0);
    assert_eq!(log.sleeps, 0);
}

#[test]
fn connectivity_passing_late_has_notified_once() {
    let log = drive(Gate::await_internet(30, 1000), &|n| if n >= 4 { Some(301 - 101) } else { None });
    assert_eq!(log.outcome, GateOutcome::Passed);
    assert_eq!(log.polls, 4);
    assert_eq!(log.notifications, 1);
}

#[test]
fn gate_without_attempts_has_timed_out_already() {
    let gate = Gate::new(GateKind::Connectivity, 0, 1000);
    assert_eq!(gate.phase, GatePhase::Finished(GateOutcome::TimedOut));
    assert_eq!(gate.action(), GateAction::Finish(GateOutcome::TimedOut));
    let log = drive(gate, &|_| Some(200));
    assert_eq!(log.polls, 0);
    assert_eq!(log.notifications, 0);
    assert_eq!(log.outcome, GateOutcome::TimedOut);
}

#[test]
fn gate_with_one_attempt() {
    let log = drive(Gate::await_internet(1, 10), &|_| None);
    assert_eq!(
        log.actions,
        vec![
            GateAction::Poll(Request::internet()),
            GateAction::Notify(notice()),
            GateAction::Sleep { millis: 10 },
            GateAction::Finish(GateOutcome::TimedOut),
        ]
    );
}

#[test]
fn gate_ignores_reports_that_answer_nothing() {
    let mut gate = Gate::await_ready(2, 1000);
    let before = gate;
    assert_eq!(gate.advance(GateEvent::Completed), GateAction::Poll(Request::health()));
    assert_eq!(gate, before);
    gate.advance(GateEvent::Polled(None));
    assert_eq!(gate.phase, GatePhase::Sleeping);
    assert_eq!(gate.attempts, 1);
    let asleep = gate;
    assert_eq!(gate.advance(GateEvent::Polled(Some(200))), GateAction::Sleep { millis: 1000 });
    assert_eq!(gate, asleep);
    assert_eq!(gate.outcome(), None);
    gate.advance(GateEvent::Completed);
    gate.advance(GateEvent::Polled(Some(200)));
    assert_eq!(gate.outcome(), Some(GateOutcome::Passed));
    let done = gate;
    gate.advance(GateEvent::Polled(None));
    gate.advance(GateEvent::Completed);
    assert_eq!(gate, done);
}

#[test]
fn the_no_internet_notice_goes_to_the_main_window() {
    assert_eq!(
        no_internet_notice(),
        Effect { target: Window::Main, command: Command::Emit(Signal::NoInternet) }
    );
    let mut gate = Gate::await_internet(3, 1000);
    assert_eq!(gate.advance(GateEvent::Polled(None)), GateAction::Notify(no_internet_notice()));
}
