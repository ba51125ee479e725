//! The order of things at startup, and which failures stop it.
//!
//! The backend is started first, then the shortcuts are registered, the
//! bubble is placed, the toggle signal is listened for, the network and the
//! backend are waited for, and `main` is revealed. Only a failure to
//! register the shortcuts aborts; every other failure is noted and startup
//! goes on without what failed.

use vstd::prelude::*;
use crate::gate::{
    GateKind, GateOutcome, CONNECTIVITY_ATTEMPTS, POLL_INTERVAL_MS, READINESS_ATTEMPTS,
};
use crate::gate::{all_fail, lemma_gate_times_out_after_max_polls, polls_in, Gate, GateAction};
use crate::locator::Environment;
use crate::paths::Location;
use crate::shutdown::{
    lemma_shutdown_always_exits, Shutdown, ShutdownAction, ShutdownPolicy, EXIT_CODE,
};
use crate::start::{lemma_nothing_found, StartState, World};
use crate::supervisor::{StartError, StartOutcome, Supervisor};
use crate::window::{Coordinator, Trigger};
use crate::window::Signal;

verus! {

/// Everything that can go wrong in the controller.
#[derive(Clone, Copy, Debug, PartialEq, Eq, Structural)]
pub enum Failure {
    /// No backend was found.
    LocatorNotFound,
    /// The backend was found and could not be launched.
    SpawnFailed,
    /// The backend did not report healthy in time.
    HealthCheckTimeout,
    /// The network did not come up in time.
    ConnectivityTimeout,
    /// A global shortcut could not be registered.
    ShortcutRegistrationFailed,
    /// The backend did not take the shutdown notice.
    ShutdownHandshakeFailed,
}

impl Failure {
    /// Whether the failure aborts startup. Only one does: without its global
    /// shortcuts the application cannot be used.
    pub open spec fn spec_is_fatal(self) -> bool {
        self == Failure::ShortcutRegistrationFailed
    }

    /// Whether the failure aborts startup.
    pub fn is_fatal(self) -> (fatal: bool)
        ensures
            fatal == self.spec_is_fatal(),
    {
        match self {
            Failure::ShortcutRegistrationFailed => true,
            _ => false,
        }
    }
}

/// What a start of the backend has to report to startup: nothing if it
/// went well, else that no backend was found or that its launch failed.
pub open spec fn spec_start_report(result: Result<(), StartError>) -> Option<Failure> {
    match result {
        Ok(_) => None,
        Err(StartError::NotFound) => Some(Failure::LocatorNotFound),
        Err(StartError::SpawnFailed(_)) => Some(Failure::SpawnFailed),
    }
}

/// What a start of the backend has to report to startup.
pub fn start_report(result: &Result<(), StartError>) -> (report: Option<Failure>)
    ensures
        report == spec_start_report(*result),
{
    match result {
        Ok(_) => None,
        Err(StartError::NotFound) => Some(Failure::LocatorNotFound),
        Err(StartError::SpawnFailed(_)) => Some(Failure::SpawnFailed),
    }
}

/// What the registration of the shortcuts has to report to startup:
/// nothing if every binding was taken, else the one fatal failure.
pub open spec fn spec_shortcut_report(registered: bool) -> Option<Failure> {
    if registered {
        None
    } else {
        Some(Failure::ShortcutRegistrationFailed)
    }
}

/// What the registration of the shortcuts has to report to startup.
pub fn shortcut_report(registered: bool) -> (report: Option<Failure>)
    ensures
        report == spec_shortcut_report(registered),
{
    if registered {
        None
    } else {
        Some(Failure::ShortcutRegistrationFailed)
    }
}

/// What a gate has to report to startup: nothing if it passed, else the
/// timeout of its kind.
pub open spec fn spec_gate_report(kind: GateKind, outcome: GateOutcome) -> Option<Failure> {
    match (outcome, kind) {
        (GateOutcome::Passed, _) => None,
        (GateOutcome::TimedOut, GateKind::Connectivity) => Some(Failure::ConnectivityTimeout),
        (GateOutcome::TimedOut, GateKind::Readiness) => Some(Failure::HealthCheckTimeout),
    }
}

/// What a gate has to report to startup.
pub fn gate_report(kind: GateKind, outcome: GateOutcome) -> (report: Option<Failure>)
    ensures
        report == spec_gate_report(kind, outcome),
{
    match (outcome, kind) {
        (GateOutcome::Passed, _) => None,
        (GateOutcome::TimedOut, GateKind::Connectivity) => Some(Failure::ConnectivityTimeout),
        (GateOutcome::TimedOut, GateKind::Readiness) => Some(Failure::HealthCheckTimeout),
    }
}

/// What is known of the backend's health.
#[derive(Clone, Copy, Debug, PartialEq, Eq, Structural)]
pub enum ReadinessState {
    Unknown,
    Checking,
    Ready,
    TimedOut,
}

/// The step startup is at.
#[derive(Clone, Copy, Debug, PartialEq, Eq, Structural)]
pub enum StartupPhase {
    LaunchBackend,
    RegisterShortcuts,
    PlaceBubble,
    ListenForToggle,
    AwaitInternet,
    AwaitBackend,
    RevealMain,
    /// Startup is over; shortcuts, signals and window events drive the rest.
    Running,
    /// Startup was given up.
    Aborted,
}

/// What the host must do for startup.
#[derive(Clone, Copy, Debug, PartialEq, Eq, Structural)]
pub enum StartupAction {
    /// Run a start attempt and hand its outcome to the supervisor.
    StartBackend,
    /// Register every binding of the shortcut table.
    RegisterShortcuts,
    /// Pin the bubble to the corner of the primary monitor.
    PlaceBubble,
    /// Subscribe to the signal.
    Listen(Signal),
    /// Run the connectivity gate.
    AwaitInternet { max_attempts: u32, interval_ms: u64 },
    /// Run the readiness gate.
    AwaitReady { max_attempts: u32, interval_ms: u64 },
    /// Deliver the reveal trigger to the coordinator.
    RevealMain,
    /// Nothing more: enter the event loop.
    Serve,
    /// Give up and return the error to the shell.
    Abort(Failure),
}

/// Startup in progress.
#[derive(Clone, Copy, Debug, PartialEq, Eq, Structural)]
pub struct Startup {
    pub phase: StartupPhase,
    pub readiness: ReadinessState,
    /// Whether any step so far has failed without stopping startup.
    pub degraded: bool,
}

/// The step that follows `phase` when nothing fatal happened.
pub open spec fn spec_following(phase: StartupPhase) -> StartupPhase {
    match phase {
        StartupPhase::LaunchBackend => StartupPhase::RegisterShortcuts,
        StartupPhase::RegisterShortcuts => StartupPhase::PlaceBubble,
        StartupPhase::PlaceBubble => StartupPhase::ListenForToggle,
        StartupPhase::ListenForToggle => StartupPhase::AwaitInternet,
        StartupPhase::AwaitInternet => StartupPhase::AwaitBackend,
        StartupPhase::AwaitBackend => StartupPhase::RevealMain,
        StartupPhase::RevealMain => StartupPhase::Running,
        StartupPhase::Running => StartupPhase::Running,
        StartupPhase::Aborted => StartupPhase::Aborted,
    }
}

fn following(phase: StartupPhase) -> (next: StartupPhase)
    ensures
        next == spec_following(phase),
{
    match phase {
        StartupPhase::LaunchBackend => StartupPhase::RegisterShortcuts,
        StartupPhase::RegisterShortcuts => StartupPhase::PlaceBubble,
        StartupPhase::PlaceBubble => StartupPhase::ListenForToggle,
        StartupPhase::ListenForToggle => StartupPhase::AwaitInternet,
        StartupPhase::AwaitInternet => StartupPhase::AwaitBackend,
        StartupPhase::AwaitBackend => StartupPhase::RevealMain,
        StartupPhase::RevealMain => StartupPhase::Running,
        StartupPhase::Running => StartupPhase::Running,
        StartupPhase::Aborted => StartupPhase::Aborted,
    }
}

impl Startup {
    /// Startup at its first step.
    pub open spec fn spec_begin() -> Startup {
        Startup {
            phase: StartupPhase::LaunchBackend,
            readiness: ReadinessState::Unknown,
            degraded: false,
        }
    }

    /// Whether startup has come to an end, one way or the other.
    pub open spec fn spec_is_over(self) -> bool {
        self.phase == StartupPhase::Running || self.phase == StartupPhase::Aborted
    }

    /// What the host must do now.
    pub open spec fn spec_action(self) -> StartupAction {
        match self.phase {
            StartupPhase::LaunchBackend => StartupAction::StartBackend,
            StartupPhase::RegisterShortcuts => StartupAction::RegisterShortcuts,
            StartupPhase::PlaceBubble => StartupAction::PlaceBubble,
            StartupPhase::ListenForToggle => StartupAction::Listen(Signal::ToggleMain),
            StartupPhase::AwaitInternet => StartupAction::AwaitInternet {
                max_attempts: CONNECTIVITY_ATTEMPTS,
                interval_ms: POLL_INTERVAL_MS,
            },
            StartupPhase::AwaitBackend => StartupAction::AwaitReady {
                max_attempts: READINESS_ATTEMPTS,
                interval_ms: POLL_INTERVAL_MS,
            },
            StartupPhase::RevealMain => StartupAction::RevealMain,
            StartupPhase::Running => StartupAction::Serve,
            StartupPhase::Aborted => StartupAction::Abort(Failure::ShortcutRegistrationFailed),
        }
    }

    /// What is known of the backend's health once the step at `phase` has
    /// been reported on.
    pub open spec fn spec_readiness_after(
        self,
        next: StartupPhase,
        failure: Option<Failure>,
    ) -> ReadinessState {
        if self.phase == StartupPhase::AwaitBackend {
            if failure is Some {
                ReadinessState::TimedOut
            } else {
                ReadinessState::Ready
            }
        } else if next == StartupPhase::AwaitBackend {
            ReadinessState::Checking
        } else {
            self.readiness
        }
    }

    /// Startup after the host has reported on the pending step: `None` if
    /// the step went well, the failure otherwise. A fatal failure aborts;
    /// any other is noted and startup moves to the following step. Once
    /// startup is over, reports change nothing.
    pub open spec fn spec_next(self, failure: Option<Failure>) -> Startup {
        if self.spec_is_over() {
            self
        } else if failure is Some && failure->Some_0.spec_is_fatal() {
            Startup { phase: StartupPhase::Aborted, ..self }
        } else {
            let next = spec_following(self.phase);
            Startup {
                phase: next,
                readiness: self.spec_readiness_after(next, failure),
                degraded: self.degraded || failure is Some,
            }
        }
    }

    /// Startup at its first step.
    pub fn begin() -> (s: Startup)
        ensures
            s == Startup::spec_begin(),
    {
        Startup {
            phase: StartupPhase::LaunchBackend,
            readiness: ReadinessState::Unknown,
            degraded: false,
        }
    }

    /// Whether startup has come to an end.
    pub fn is_over(&self) -> (over: bool)
        ensures
            over == self.spec_is_over(),
    {
        match self.phase {
            StartupPhase::Running => true,
            StartupPhase::Aborted => true,
            _ => false,
        }
    }

    /// What the host must do now.
    pub fn action(&self) -> (a: StartupAction)
        ensures
            a == self.spec_action(),
    {
        match self.phase {
            StartupPhase::LaunchBackend => StartupAction::StartBackend,
            StartupPhase::RegisterShortcuts => StartupAction::RegisterShortcuts,
            StartupPhase::PlaceBubble => StartupAction::PlaceBubble,
            StartupPhase::ListenForToggle => StartupAction::Listen(Signal::ToggleMain),
            StartupPhase::AwaitInternet => StartupAction::AwaitInternet {
                max_attempts: CONNECTIVITY_ATTEMPTS,
                interval_ms: POLL_INTERVAL_MS,
            },
            StartupPhase::AwaitBackend => StartupAction::AwaitReady {
                max_attempts: READINESS_ATTEMPTS,
                interval_ms: POLL_INTERVAL_MS,
            },
            StartupPhase::RevealMain => StartupAction::RevealMain,
            StartupPhase::Running => StartupAction::Serve,
            StartupPhase::Aborted => StartupAction::Abort(Failure::ShortcutRegistrationFailed),
        }
    }

    /// Takes the host's report on the pending step and moves on; returns
    /// what to do next.
    pub fn advance(&mut self, failure: Option<Failure>) -> (a: StartupAction)
        ensures
            *final(self) == old(self).spec_next(failure),
            a == final(self).spec_action(),
    {
        if !self.is_over() {
            let fatal = match failure {
                Some(f) => f.is_fatal(),
                None => false,
            };
            if fatal {
                self.phase = StartupPhase::Aborted;
            } else {
                let next = following(self.phase);
                let readiness = match (self.phase, next) {
                    (StartupPhase::AwaitBackend, _) => {
                        if failure.is_some() {
                            ReadinessState::TimedOut
                        } else {
                            ReadinessState::Ready
                        }
                    },
                    (_, StartupPhase::AwaitBackend) => ReadinessState::Checking,
                    _ => self.readiness,
                };
                self.phase = next;
                self.readiness = readiness;
                self.degraded = self.degraded || failure.is_some();
            }
        }
        self.action()
    }

    /// A bound on the steps still to take.
    pub open spec fn fuel(self) -> nat {
        match self.phase {
            StartupPhase::LaunchBackend => 7,
            StartupPhase::RegisterShortcuts => 6,
            StartupPhase::PlaceBubble => 5,
            StartupPhase::ListenForToggle => 4,
            StartupPhase::AwaitInternet => 3,
            StartupPhase::AwaitBackend => 2,
            StartupPhase::RevealMain => 1,
            StartupPhase::Running => 0,
            StartupPhase::Aborted => 0,
        }
    }

    /// Startup carried to its end, when the steps are reported on by
    /// `reports` in turn; a step without a report counts as gone well.
    pub open spec fn run(self, reports: Seq<Option<Failure>>) -> Startup
        decreases self.fuel(),
    {
        if self.spec_is_over() {
            self
        } else if reports.len() == 0 {
            self.spec_next(None).run(reports)
        } else {
            self.spec_next(reports[0]).run(reports.drop_first())
        }
    }

    /// Everything the host is asked to do on the way, in order.
    pub open spec fn trace(self, reports: Seq<Option<Failure>>) -> Seq<StartupAction>
        decreases self.fuel(),
    {
        if self.spec_is_over() {
            seq![self.spec_action()]
        } else if reports.len() == 0 {
            seq![self.spec_action()] + self.spec_next(None).trace(reports)
        } else {
            seq![self.spec_action()] + self.spec_next(reports[0]).trace(reports.drop_first())
        }
    }
}

/// No report is a fatal failure.
pub open spec fn none_fatal(reports: Seq<Option<Failure>>) -> bool {
    forall|i: int|
        0 <= i < reports.len() ==> !(#[trigger] reports[i] is Some
            && reports[i]->Some_0.spec_is_fatal())
}

proof fn lemma_tail_none_fatal(reports: Seq<Option<Failure>>)
    requires
        none_fatal(reports),
        reports.len() > 0,
    ensures
        none_fatal(reports.drop_first()),
        !(reports[0] is Some && reports[0]->Some_0.spec_is_fatal()),
{
    let tail = reports.drop_first();
    assert forall|i: int| 0 <= i < tail.len() implies !(#[trigger] tail[i] is Some
        && tail[i]->Some_0.spec_is_fatal()) by {
        assert(tail[i] == reports[i + 1]);
    }
}

/// The steps from `phase` on when nothing fatal happens.
pub open spec fn steps_from(phase: StartupPhase) -> Seq<StartupAction>
    decreases (Startup { phase, readiness: ReadinessState::Unknown, degraded: false }).fuel(),
{
    let here = Startup { phase, readiness: ReadinessState::Unknown, degraded: false };
    if here.spec_is_over() {
        seq![here.spec_action()]
    } else {
        seq![here.spec_action()] + steps_from(spec_following(phase))
    }
}

proof fn lemma_steps_without_fatal_failure(s: Startup, reports: Seq<Option<Failure>>)
    requires
        none_fatal(reports),
        s.phase != StartupPhase::Aborted,
    ensures
        s.run(reports).phase == StartupPhase::Running,
        s.trace(reports) == steps_from(s.phase),
    decreases s.fuel(),
{
    if !s.spec_is_over() {
        if reports.len() == 0 {
            lemma_steps_without_fatal_failure(s.spec_next(None), reports);
        } else {
            lemma_tail_none_fatal(reports);
            lemma_steps_without_fatal_failure(s.spec_next(reports[0]), reports.drop_first());
        }
    }
}

/// Unless the shortcuts cannot be registered, startup always reveals
/// `main` and ends running, whatever else fails. The steps come in one
/// order: the backend is started before either gate polls, the network is
/// waited for before the backend, and the reveal comes last.
pub proof fn lemma_startup_reveals_main(reports: Seq<Option<Failure>>)
    requires
        none_fatal(reports),
    ensures
        Startup::spec_begin().run(reports).phase == StartupPhase::Running,
        Startup::spec_begin().trace(reports) == seq![
            StartupAction::StartBackend,
            StartupAction::RegisterShortcuts,
            StartupAction::PlaceBubble,
            StartupAction::Listen(Signal::ToggleMain),
            StartupAction::AwaitInternet {
                max_attempts: CONNECTIVITY_ATTEMPTS,
                interval_ms: POLL_INTERVAL_MS,
            },
            StartupAction::AwaitReady {
                max_attempts: READINESS_ATTEMPTS,
                interval_ms: POLL_INTERVAL_MS,
            },
            StartupAction::RevealMain,
            StartupAction::Serve,
        ],
{
    lemma_steps_without_fatal_failure(Startup::spec_begin(), reports);
    reveal_with_fuel(steps_from, 9);
    assert(steps_from(StartupPhase::LaunchBackend) =~= seq![
        StartupAction::StartBackend,
        StartupAction::RegisterShortcuts,
        StartupAction::PlaceBubble,
        StartupAction::Listen(Signal::ToggleMain),
        StartupAction::AwaitInternet {
            max_attempts: CONNECTIVITY_ATTEMPTS,
            interval_ms: POLL_INTERVAL_MS,
        },
        StartupAction::AwaitReady {
            max_attempts: READINESS_ATTEMPTS,
            interval_ms: POLL_INTERVAL_MS,
        },
        StartupAction::RevealMain,
        StartupAction::Serve,
    ]);
}

/// A failure to register the shortcuts aborts startup on the spot: nothing
/// is waited for and `main` is never revealed.
pub proof fn lemma_shortcut_failure_aborts(launch: Option<Failure>, rest: Seq<Option<Failure>>)
    requires
        !(launch is Some && launch->Some_0.spec_is_fatal()),
    ensures
        ({
            let reports = seq![launch, Some(Failure::ShortcutRegistrationFailed)] + rest;
            &&& Startup::spec_begin().run(reports).phase == StartupPhase::Aborted
            &&& Startup::spec_begin().trace(reports) == seq![
                StartupAction::StartBackend,
                StartupAction::RegisterShortcuts,
                StartupAction::Abort(Failure::ShortcutRegistrationFailed),
            ]
        }),
{
    let reports = seq![launch, Some(Failure::ShortcutRegistrationFailed)] + rest;
    let s0 = Startup::spec_begin();
    let s1 = s0.spec_next(launch);
    let r1 = reports.drop_first();
    assert(reports[0] == launch);
    assert(r1[0] == Some(Failure::ShortcutRegistrationFailed));
    let s2 = s1.spec_next(r1[0]);
    assert(s2.phase == StartupPhase::Aborted);
    assert(s2.run(r1.drop_first()) == s2);
    assert(s1.run(r1) == s2);
    assert(s0.run(reports) == s2);
    assert(s2.trace(r1.drop_first()) =~= seq![
        StartupAction::Abort(Failure::ShortcutRegistrationFailed),
    ]);
    assert(s1.trace(r1) =~= seq![
        StartupAction::RegisterShortcuts,
        StartupAction::Abort(Failure::ShortcutRegistrationFailed),
    ]);
    assert(s0.trace(reports) =~= seq![
        StartupAction::StartBackend,
        StartupAction::RegisterShortcuts,
        StartupAction::Abort(Failure::ShortcutRegistrationFailed),
    ]);
}

/// Startup without a backend, from end to end. Where no candidate file
/// exists, the start ends for want of a backend and the supervisor holds
/// nothing. The readiness gate, never answered, gives up after its 45
/// polls. Startup takes both failures as they are reported and still ends
/// running, with `main` revealed on the way. The quit that follows finds no
/// backend to terminate and ends in the exit of the process, whether or not
/// the shutdown notice is delivered.
pub proof fn lemma_degraded_startup_still_reveals_and_quits(
    env: Environment,
    world: World,
    internet: GateOutcome,
    health: Seq<Option<u16>>,
    delivered: bool,
)
    requires
        world.present == Set::<Location>::empty(),
        health.len() >= READINESS_ATTEMPTS,
        all_fail(health, READINESS_ATTEMPTS as int),
    ensures
        ({
            let supervisor = Supervisor::spec_new();
            let outcome = StartState::start(env, world);
            let completion = supervisor.spec_completion(outcome);
            let after_start = supervisor.spec_after_start(outcome);
            let waiting = Gate::spec_new(
                GateKind::Readiness,
                READINESS_ATTEMPTS,
                POLL_INTERVAL_MS,
            ).spec_run(health);
            let reports = seq![
                spec_start_report(completion.result),
                None,
                None,
                None,
                spec_gate_report(GateKind::Connectivity, internet),
                spec_gate_report(GateKind::Readiness, GateOutcome::TimedOut),
                None,
            ];
            let quitting = Shutdown::spec_begin(ShutdownPolicy::ForceQuit).run(delivered);
            &&& supervisor.handle is None
            &&& outcome == StartOutcome::Failed(StartError::NotFound)
            &&& completion.result == Err::<(), StartError>(StartError::NotFound)
            &&& completion.displaced is None
            &&& after_start.handle is None
            &&& polls_in(waiting) == READINESS_ATTEMPTS
            &&& waiting.last() == GateAction::Finish(GateOutcome::TimedOut)
            &&& reports[0] == Some(Failure::LocatorNotFound)
            &&& reports[5] == Some(Failure::HealthCheckTimeout)
            &&& Startup::spec_begin().run(reports).phase == StartupPhase::Running
            &&& Startup::spec_begin().run(reports).degraded
            &&& Startup::spec_begin().trace(reports)[6] == StartupAction::RevealMain
            &&& Coordinator::spec_new().spec_next(Trigger::Reveal).main.visible
            &&& quitting.last() == (ShutdownAction::Exit { code: EXIT_CODE })
            &&& quitting.contains(ShutdownAction::Terminate)
        }),
{
    lemma_nothing_found(env, world);
    lemma_gate_times_out_after_max_polls(
        GateKind::Readiness,
        READINESS_ATTEMPTS,
        POLL_INTERVAL_MS,
        health,
    );
    let supervisor = Supervisor::spec_new();
    let outcome = StartState::start(env, world);
    let completion = supervisor.spec_completion(outcome);
    let reports = seq![
        spec_start_report(completion.result),
        None,
        None,
        None,
        spec_gate_report(GateKind::Connectivity, internet),
        spec_gate_report(GateKind::Readiness, GateOutcome::TimedOut),
        None,
    ];
    assert(none_fatal(reports));
    lemma_startup_reveals_main(reports);
    lemma_degraded_run(reports);
    lemma_shutdown_always_exits(ShutdownPolicy::ForceQuit, delivered);
    let quitting = Shutdown::spec_begin(ShutdownPolicy::ForceQuit).run(delivered);
    if delivered {
        assert(quitting[2] == ShutdownAction::Terminate);
    } else {
        assert(quitting[1] == ShutdownAction::Terminate);
    }
}

/// A failure reported for the first step leaves its mark to the end.
proof fn lemma_degraded_run(reports: Seq<Option<Failure>>)
    requires
        none_fatal(reports),
        reports.len() > 0,
        reports[0] is Some,
    ensures
        Startup::spec_begin().run(reports).degraded,
{
    lemma_tail_none_fatal(reports);
    let next = Startup::spec_begin().spec_next(reports[0]);
    lemma_degraded_stays(next, reports.drop_first());
}

proof fn lemma_degraded_stays(s: Startup, reports: Seq<Option<Failure>>)
    requires
        none_fatal(reports),
        s.degraded,
    ensures
        s.run(reports).degraded,
    decreases s.fuel(),
{
    if !s.spec_is_over() {
        if reports.len() == 0 {
            lemma_degraded_stays(s.spec_next(None), reports);
        } else {
            lemma_tail_none_fatal(reports);
            lemma_degraded_stays(s.spec_next(reports[0]), reports.drop_first());
        }
    }
}

} // verus!
