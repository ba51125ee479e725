use sakura_shell::gate::{Gate, GateAction, GateEvent, GateKind, GateOutcome};
use sakura_shell::locator::Environment;
use sakura_shell::paths::Platform;
use sakura_shell::shutdown::{Shutdown, ShutdownAction, ShutdownEvent};
use sakura_shell::start::{Begun, StartAction, StartEvent};
use sakura_shell::startup::{
    gate_report, shortcut_report, start_report, Failure, ReadinessState, Startup, StartupAction, StartupPhase,
};
use sakura_shell::supervisor::{
    BackendStatus, SpawnError, StartError, StartOutcome, Supervisor,
};
use sakura_shell::window::{Command, Coordinator, Effect, Signal, Trigger, Window};

fn run_startup(reports: &[Option<Failure>]) -> (Startup, Vec<StartupAction>) {
    let mut startup = Startup::begin();
    let mut actions = vec![startup.action()];
    let mut next = 0;
    while !startup.is_over() {
        let report = if next < reports.len() { reports[next] } else { None };
        next += 1;
        actions.push(startup.advance(report));
    }
    (startup, actions)
}

fn full_order() -> Vec<StartupAction> {
    vec![
        StartupAction::StartBackend,
        StartupAction::RegisterShortcuts,
        StartupAction::PlaceBubble,
        StartupAction::Listen(Signal::ToggleMain),
        StartupAction::AwaitInternet { max_attempts: 30, interval_ms: 1000 },
        StartupAction::AwaitReady { max_attempts: 45, interval_ms: 1000 },
        StartupAction::RevealMain,
        StartupAction::Serve,
    ]
}

#[test]
fn startup_runs_its_steps_in_order() {
    let (end, actions) = run_startup(&[]);
    assert_eq!(actions, full_order());
    assert_eq!(end.phase, StartupPhase::Running);
    assert_eq!(end.readiness, ReadinessState::Ready);
    assert!(!end.degraded);
}

#[test]
fn startup_goes_on_after_every_failure_but_one() {
    let reports = vec![
        Some(Failure::SpawnFailed),
        None,
        None,
        None,
        Some(Failure::ConnectivityTimeout),
        Some(Failure::HealthCheckTimeout),
        None,
    ];
    let (end, actions) = run_startup(&reports);
    assert_eq!(actions, full_order());
    assert_eq!(end.phase, StartupPhase::Running);
    assert_eq!(end.readiness, ReadinessState::TimedOut);
    assert!(end.degraded);
}

#[test]
fn startup_aborts_when_shortcuts_cannot_be_registered() {
    let (end, actions) = run_startup(&[None, Some(Failure::ShortcutRegistrationFailed)]);
    assert_eq!(
        actions,
        vec![
            StartupAction::StartBackend,
            StartupAction::RegisterShortcuts,
            StartupAction::Abort(Failure::ShortcutRegistrationFailed),
        ]
    );
    assert_eq!(end.phase, StartupPhase::Aborted);
    assert_eq!(end.readiness, ReadinessState::Unknown);
}

#[test]
fn only_shortcut_registration_is_fatal() {
    assert!(Failure::ShortcutRegistrationFailed.is_fatal());
    assert!(!Failure::LocatorNotFound.is_fatal());
    assert!(!Failure::SpawnFailed.is_fatal());
    assert!(!Failure::HealthCheckTimeout.is_fatal());
    assert!(!Failure::ConnectivityTimeout.is_fatal());
    assert!(!Failure::ShutdownHandshakeFailed.is_fatal());
}

#[test]
fn readiness_is_checking_while_the_backend_is_waited_for() {
    let mut startup = Startup::begin();
    for _ in 0..5 {
        assert_eq!(startup.readiness, ReadinessState::Unknown);
        startup.advance(None);
    }
    assert_eq!(startup.phase, StartupPhase::AwaitBackend);
    assert_eq!(startup.readiness, ReadinessState::Checking);
    startup.advance(None);
    assert_eq!(startup.readiness, ReadinessState::Ready);
    let over = {
        startup.advance(None);
        startup
    };
    assert!(over.is_over());
    let mut again = over;
    again.advance(Some(Failure::ShortcutRegistrationFailed));
    assert_eq!(again, over);
}

#[test]
fn degraded_startup_without_a_backend_still_reveals_and_quits() {
    // Nothing exists on disk: the start attempt ends for want of a backend.
    let environment = Environment {
        platform: Platform::Other,
        executable_dir: true,
        resource_dir: true,
        working_dir: true,
    };
    let mut supervisor = Supervisor::new();
    let mut coordinator = Coordinator::new();
    let mut startup = Startup::begin();
    assert_eq!(startup.action(), StartupAction::StartBackend);
    let Begun::Attempt(mut attempt, mut action) = supervisor.begin_start(environment) else {
        panic!("a supervisor without a backend declined to start one");
    };
    let outcome = loop {
        action = match action {
            StartAction::Probe(_) => attempt.advance(StartEvent::Probed(false)),
            StartAction::Spawn(_) => panic!("nothing can be launched where nothing exists"),
            ended => break ended.outcome(),
        };
    };
    assert_eq!(outcome, StartOutcome::Failed(StartError::NotFound));
    let started = supervisor.complete_start(outcome);
    assert_eq!(started.result, Err(StartError::NotFound));
    assert_eq!(started.displaced, None);
    assert_eq!(supervisor.status(), BackendStatus::Stopped);
    assert_eq!(start_report(&started.result), Some(Failure::LocatorNotFound));
    assert_eq!(
        startup.advance(start_report(&started.result)),
        StartupAction::RegisterShortcuts
    );
    assert_eq!(startup.advance(None), StartupAction::PlaceBubble);
    assert_eq!(startup.advance(None), StartupAction::Listen(Signal::ToggleMain));
    assert_eq!(
        startup.advance(None),
        StartupAction::AwaitInternet { max_attempts: 30, interval_ms: 1000 }
    );
    assert_eq!(
        startup.advance(None),
        StartupAction::AwaitReady { max_attempts: 45, interval_ms: 1000 }
    );

    // The health check never answers: after 45 polls the wait is given up.
    let mut gate = Gate::await_ready(45, 1000);
    let mut polls = 0;
    let mut pending = gate.action();
    let gate_outcome = loop {
        pending = match pending {
            GateAction::Poll(_) => {
                polls += 1;
                gate.advance(GateEvent::Polled(None))
            }
            GateAction::Finish(outcome) => break outcome,
            _ => gate.advance(GateEvent::Completed),
        };
    };
    assert_eq!(gate_outcome, GateOutcome::TimedOut);
    assert_eq!(polls, 45);

    // The window is revealed all the same.
    assert_eq!(
        startup.advance(gate_report(GateKind::Readiness, gate_outcome)),
        StartupAction::RevealMain
    );
    assert_eq!(startup.readiness, ReadinessState::TimedOut);
    let shown = coordinator.dispatch(Trigger::Reveal);
    assert_eq!(
        shown,
        vec![
            Effect { target: Window::Main, command: Command::Show },
            Effect { target: Window::Main, command: Command::Focus },
        ]
    );
    assert!(coordinator.is_visible(Window::Main));
    assert_eq!(startup.advance(None), StartupAction::Serve);
    assert!(startup.degraded);

    // Quitting finds no child to kill, and exits.
    let mut shutdown = Shutdown::force_quit();
    let mut kills = 0;
    let mut step = shutdown.action();
    let code = loop {
        step = match step {
            ShutdownAction::Notify(_) => shutdown.advance(ShutdownEvent::notified(None)),
            ShutdownAction::Settle { .. } => shutdown.advance(ShutdownEvent::Settled),
            ShutdownAction::Terminate => {
                if supervisor.release().is_some() {
                    kills += 1;
                }
                shutdown.advance(ShutdownEvent::Terminated)
            }
            ShutdownAction::Exit { code } => break code,
        };
    };
    assert_eq!(code, 0);
    assert_eq!(kills, 0);
    assert_eq!(supervisor.status(), BackendStatus::Stopped);
}

#[test]
fn what_a_start_reports_to_startup() {
    assert_eq!(start_report(&Ok(())), None);
    assert_eq!(start_report(&Err(StartError::NotFound)), Some(Failure::LocatorNotFound));
    let refused = SpawnError { code: Some(13), detail: "Permission denied".to_string() };
    assert_eq!(start_report(&Err(StartError::SpawnFailed(refused))), Some(Failure::SpawnFailed));
}

#[test]
fn what_a_gate_reports_to_startup() {
    assert_eq!(gate_report(GateKind::Connectivity, GateOutcome::Passed), None);
    assert_eq!(gate_report(GateKind::Readiness, GateOutcome::Passed), None);
    assert_eq!(
        gate_report(GateKind::Connectivity, GateOutcome::TimedOut),
        Some(Failure::ConnectivityTimeout)
    );
    assert_eq!(
        gate_report(GateKind::Readiness, GateOutcome::TimedOut),
        Some(Failure::HealthCheckTimeout)
    );
}

#[test]
fn what_the_shortcut_registration_reports_to_startup() {
    assert_eq!(shortcut_report(true), None);
    assert_eq!(shortcut_report(false), Some(Failure::ShortcutRegistrationFailed));
    let mut startup = Startup::begin();
    startup.advance(None);
    assert_eq!(
        startup.advance(shortcut_report(false)),
        StartupAction::Abort(Failure::ShortcutRegistrationFailed)
    );
}
