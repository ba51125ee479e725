//! The supervisor: the one guarded record of the running backend.
//!
//! The host keeps the supervisor behind its exclusive lock and touches it only
//! for the moment of a read or a write, never while a request is under way.

use vstd::prelude::*;
use vstd::string::StringExecFns;
use crate::locator::BackendLocation;

verus! {

/// A reference to the live backend process and the place it was started from.
#[derive(Clone, Copy, Debug, PartialEq, Eq, Structural)]
pub struct BackendHandle {
    /// The process identifier the operating system gave the child.
    pub child: u32,
    pub location: BackendLocation,
}

/// Why the operating system refused to start a process.
#[derive(Clone, Debug, PartialEq, Eq)]
pub struct SpawnError {
    /// The error number, if the system gave one.
    pub code: Option<i32>,
    /// The system's own description of the error.
    pub detail: String,
}

/// Why a start attempt ended without a backend.
#[derive(Clone, Debug, PartialEq, Eq)]
pub enum StartError {
    /// No candidate location holds a backend.
    NotFound,
    /// The last launch that was tried failed.
    SpawnFailed(SpawnError),
}

/// How a start attempt ended.
#[derive(Clone, Debug, PartialEq, Eq)]
pub enum StartOutcome {
    Started(BackendHandle),
    Failed(StartError),
}

/// What the supervisor answers when it is told how a start attempt ended.
#[derive(Debug, PartialEq, Eq)]
pub struct Completion {
    /// `Ok` if a backend was started, the failure of the attempt otherwise.
    pub result: Result<(), StartError>,
    /// The backend whose place the new one has taken. It is no longer
    /// supervised: the host must terminate it.
    pub displaced: Option<BackendHandle>,
}

/// What the supervisor reports of the backend.
#[derive(Clone, Copy, Debug, PartialEq, Eq, Structural)]
pub enum BackendStatus {
    Running,
    Stopped,
}

/// The owner of the backend handle.
#[derive(Clone, Copy, Debug, PartialEq, Eq, Structural)]
pub struct Supervisor {
    pub handle: Option<BackendHandle>,
}

impl StartError {
    /// The error in words.
    pub open spec fn spec_message(self) -> Seq<char> {
        match self {
            StartError::NotFound => "Could not find backend/server.py"@,
            StartError::SpawnFailed(error) => "Failed to start backend: "@ + error.detail@,
        }
    }

    /// The error in words.
    pub fn message(&self) -> (text: String)
        ensures
            text@ == self.spec_message(),
    {
        match self {
            StartError::NotFound => String::from_str("Could not find backend/server.py"),
            StartError::SpawnFailed(error) => String::from_str("Failed to start backend: ").concat(
                error.detail.as_str(),
            ),
        }
    }
}

impl BackendStatus {
    /// The status as the interface reads it.
    pub open spec fn spec_label(self) -> Seq<char> {
        match self {
            BackendStatus::Running => "running"@,
            BackendStatus::Stopped => "stopped"@,
        }
    }

    /// The status as the interface reads it.
    pub fn label(self) -> (s: &'static str)
        ensures
            s@ == self.spec_label(),
    {
        match self {
            BackendStatus::Running => "running",
            BackendStatus::Stopped => "stopped",
        }
    }
}

impl Supervisor {
    /// A supervisor without a backend.
    pub open spec fn spec_new() -> Supervisor {
        Supervisor { handle: None }
    }

    /// `Running` exactly when a handle is held. The process itself is not
    /// asked: a child that died unnoticed still counts as running.
    pub open spec fn spec_status(self) -> BackendStatus {
        if self.handle is Some {
            BackendStatus::Running
        } else {
            BackendStatus::Stopped
        }
    }

    /// The supervisor once a start attempt has ended: a started backend
    /// takes the place of whatever handle was held, a failure changes nothing.
    pub open spec fn spec_after_start(self, outcome: StartOutcome) -> Supervisor {
        match outcome {
            StartOutcome::Started(handle) => Supervisor { handle: Some(handle) },
            StartOutcome::Failed(_) => self,
        }
    }

    /// The backend that loses its place when a start attempt ends so: the
    /// one held, if another was started; none, if the attempt failed.
    pub open spec fn spec_displaced(self, outcome: StartOutcome) -> Option<BackendHandle> {
        match outcome {
            StartOutcome::Started(_) => self.handle,
            StartOutcome::Failed(_) => None,
        }
    }

    /// The answer to the end of a start attempt: success or the failure of
    /// the attempt, and the backend handed out for termination.
    pub open spec fn spec_completion(self, outcome: StartOutcome) -> Completion {
        Completion {
            result: match outcome {
                StartOutcome::Started(_) => Ok(()),
                StartOutcome::Failed(error) => Err(error),
            },
            displaced: self.spec_displaced(outcome),
        }
    }

    /// A supervisor without a backend.
    pub fn new() -> (s: Supervisor)
        ensures
            s == Supervisor::spec_new(),
    {
        Supervisor { handle: None }
    }

    /// Whether a backend is held.
    pub fn status(&self) -> (status: BackendStatus)
        ensures
            status == self.spec_status(),
    {
        match self.handle {
            Some(_) => BackendStatus::Running,
            None => BackendStatus::Stopped,
        }
    }

    /// Records how a start attempt ended. A started backend becomes the
    /// one held; the one held before, if any, is handed out for termination.
    /// A failure changes nothing and is passed on.
    pub fn complete_start(&mut self, outcome: StartOutcome) -> (completion: Completion)
        ensures
            *final(self) == old(self).spec_after_start(outcome),
            completion == old(self).spec_completion(outcome),
    {
        match outcome {
            StartOutcome::Started(handle) => {
                let displaced = self.handle;
                self.handle = Some(handle);
                Completion { result: Ok(()), displaced }
            },
            StartOutcome::Failed(error) => Completion { result: Err(error), displaced: None },
        }
    }

    /// Gives up the handle: returns the backend to terminate, if one is
    /// held, and holds none afterwards.
    pub fn release(&mut self) -> (released: Option<BackendHandle>)
        ensures
            released == old(self).handle,
            *final(self) == Supervisor::spec_new(),
    {
        let released = self.handle;
        self.handle = None;
        released
    }
}

/// The status as the interface reads it: `running` exactly when a handle
/// is held, `stopped` otherwise.
pub fn get_backend_status(supervisor: &Supervisor) -> (label: &'static str)
    ensures
        label@ == supervisor.spec_status().spec_label(),
{
    supervisor.status().label()
}

/// What the host can tell a supervisor.
pub enum SupervisorOp {
    /// A start attempt ended so.
    Complete(StartOutcome),
    /// The shutdown path takes the handle.
    Release,
}

/// The handle as a sequence: itself alone, or nothing.
pub open spec fn in_turn(handle: Option<BackendHandle>) -> Seq<BackendHandle> {
    match handle {
        Some(h) => seq![h],
        None => seq![],
    }
}

/// The backend that a start attempt has brought to life, if it has.
pub open spec fn started_by(outcome: StartOutcome) -> Option<BackendHandle> {
    match outcome {
        StartOutcome::Started(handle) => Some(handle),
        StartOutcome::Failed(_) => None,
    }
}

/// A supervisor with the account of every backend that has passed through
/// it.
pub struct Ledger {
    pub supervisor: Supervisor,
    /// Every backend whose start was recorded, first to last.
    pub started: Seq<BackendHandle>,
    /// Every backend handed out for termination, first to last.
    pub handed_out: Seq<BackendHandle>,
}

impl Ledger {
    /// A fresh supervisor, and nothing on account.
    pub open spec fn empty() -> Ledger {
        Ledger { supervisor: Supervisor::spec_new(), started: seq![], handed_out: seq![] }
    }

    /// The account after one operation: what `complete_start` and `release`
    /// do to the supervisor, what was started, and what they hand out.
    pub open spec fn apply(self, op: SupervisorOp) -> Ledger {
        match op {
            SupervisorOp::Complete(outcome) => Ledger {
                supervisor: self.supervisor.spec_after_start(outcome),
                started: self.started + in_turn(started_by(outcome)),
                handed_out: self.handed_out + in_turn(self.supervisor.spec_displaced(outcome)),
            },
            SupervisorOp::Release => Ledger {
                supervisor: Supervisor::spec_new(),
                started: self.started,
                handed_out: self.handed_out + in_turn(self.supervisor.handle),
            },
        }
    }

    /// The account after a sequence of operations, first to last.
    pub open spec fn apply_all(self, ops: Seq<SupervisorOp>) -> Ledger
        decreases ops.len(),
    {
        if ops.len() == 0 {
            self
        } else {
            self.apply_all(ops.drop_last()).apply(ops.last())
        }
    }

    /// The backends that were started and not handed out for termination
    /// are exactly the one that is held, if one is.
    pub open spec fn balanced(self) -> bool {
        self.started == self.handed_out + in_turn(self.supervisor.handle)
    }
}

/// One operation keeps the account balanced.
pub proof fn lemma_apply_keeps_balance(ledger: Ledger, op: SupervisorOp)
    requires
        ledger.balanced(),
    ensures
        ledger.apply(op).balanced(),
{
    let next = ledger.apply(op);
    assert(next.started =~= next.handed_out + in_turn(next.supervisor.handle));
}

/// No backend leaves the supervisor except handed out for termination.
/// After any sequence of completed starts and releases, every backend that
/// was ever started has either been handed out, in the order of the starts,
/// or is the one still held. So the backends alive under the supervisor's
/// care are never more than one, and after a release there is none.
pub proof fn lemma_at_most_one_handle(ops: Seq<SupervisorOp>)
    ensures
        Ledger::empty().apply_all(ops).balanced(),
        Ledger::empty().apply_all(ops).started.len() - Ledger::empty().apply_all(
            ops,
        ).handed_out.len() == (if Ledger::empty().apply_all(ops).supervisor.handle is Some {
            1int
        } else {
            0int
        }),
        ops.len() > 0 && ops.last() is Release ==> Ledger::empty().apply_all(ops).started
            == Ledger::empty().apply_all(ops).handed_out,
    decreases ops.len(),
{
    if ops.len() == 0 {
        assert(Ledger::empty().started =~= Ledger::empty().handed_out + in_turn(
            Ledger::empty().supervisor.handle,
        ));
    } else {
        lemma_at_most_one_handle(ops.drop_last());
        let before = Ledger::empty().apply_all(ops.drop_last());
        lemma_apply_keeps_balance(before, ops.last());
        let after = before.apply(ops.last());
        assert(after.handed_out + in_turn(after.supervisor.handle) =~= after.started);
        if ops.last() is Release {
            assert(after.started =~= after.handed_out);
        }
    }
}

} // verus!
