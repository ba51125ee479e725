//! The way out. Both quit paths tell the backend that the end has come, give
//! it a moment to save its state, terminate it, and exit the process. Nothing
//! that goes wrong on the way keeps the process from exiting.

use vstd::prelude::*;
use crate::endpoint::Request;

verus! {

/// The moment the backend is given to save its state, in milliseconds.
pub const SETTLE_MS: u64 = 300;

/// The exit status of the process, on every path.
pub const EXIT_CODE: i32 = 0;

/// Which quit path is taken.
#[derive(Clone, Copy, Debug, PartialEq, Eq, Structural)]
pub enum ShutdownPolicy {
    /// The bubble was destroyed: always wait before terminating.
    Graceful,
    /// The user asked to quit: wait only if the backend got the notice.
    ForceQuit,
}

/// Where a shutdown stands.
#[derive(Clone, Copy, Debug, PartialEq, Eq, Structural)]
pub enum ShutdownPhase {
    Notifying,
    Settling,
    Terminating,
    Exiting,
}

/// What the host must do for a shutdown.
#[derive(Clone, Copy, Debug, PartialEq, Eq, Structural)]
pub enum ShutdownAction {
    /// Send the request; whatever comes of it, report and go on.
    Notify(Request),
    /// Wait.
    Settle { millis: u64 },
    /// Take the handle from the supervisor, holding its lock for that moment
    /// only, and kill the child it names, if any.
    Terminate,
    /// Exit the process with this status.
    Exit { code: i32 },
}

/// What the host reports to a shutdown.
#[derive(Clone, Copy, Debug, PartialEq, Eq, Structural)]
pub enum ShutdownEvent {
    /// The request is over; `delivered` says whether any response came.
    Notified { delivered: bool },
    /// The wait is over.
    Settled,
    /// The handle is released; whether a kill was needed or worked is of no
    /// concern.
    Terminated,
}

impl ShutdownEvent {
    /// The report on the notice, read from the answer to the request: the
    /// notice counts as delivered when any response came, whatever its
    /// status.
    pub open spec fn spec_notified(answer: Option<u16>) -> ShutdownEvent {
        ShutdownEvent::Notified { delivered: answer is Some }
    }

    /// The report on the notice, read from the answer to the request: the
    /// status code of the response, or `None` when no response came.
    pub fn notified(answer: Option<u16>) -> (event: ShutdownEvent)
        ensures
            event == ShutdownEvent::spec_notified(answer),
    {
        ShutdownEvent::Notified { delivered: answer.is_some() }
    }
}

/// A shutdown in progress.
#[derive(Clone, Copy, Debug, PartialEq, Eq, Structural)]
pub struct Shutdown {
    pub policy: ShutdownPolicy,
    pub phase: ShutdownPhase,
}

impl Shutdown {
    /// A shutdown at its start.
    pub open spec fn spec_begin(policy: ShutdownPolicy) -> Shutdown {
        Shutdown { policy, phase: ShutdownPhase::Notifying }
    }

    /// What the host must do now.
    pub open spec fn spec_action(self) -> ShutdownAction {
        match self.phase {
            ShutdownPhase::Notifying => ShutdownAction::Notify(Request::spec_shutdown()),
            ShutdownPhase::Settling => ShutdownAction::Settle { millis: SETTLE_MS },
            ShutdownPhase::Terminating => ShutdownAction::Terminate,
            ShutdownPhase::Exiting => ShutdownAction::Exit { code: EXIT_CODE },
        }
    }

    /// The shutdown after `event`. The graceful path settles whatever came of
    /// the notice; the forced path settles only if the notice was delivered.
    /// After settling comes termination, after termination the exit. An
    /// event that does not answer the pending action changes nothing.
    pub open spec fn spec_next(self, event: ShutdownEvent) -> Shutdown {
        match (self.phase, event) {
            (ShutdownPhase::Notifying, ShutdownEvent::Notified { delivered }) => Shutdown {
                phase: if self.policy == ShutdownPolicy::Graceful || delivered {
                    ShutdownPhase::Settling
                } else {
                    ShutdownPhase::Terminating
                },
                ..self
            },
            (ShutdownPhase::Settling, ShutdownEvent::Settled) => Shutdown {
                phase: ShutdownPhase::Terminating,
                ..self
            },
            (ShutdownPhase::Terminating, ShutdownEvent::Terminated) => Shutdown {
                phase: ShutdownPhase::Exiting,
                ..self
            },
            _ => self,
        }
    }

    /// The report a host gives that has carried out `action`, in a world
    /// where the notice is delivered or not.
    pub open spec fn answer(action: ShutdownAction, delivered: bool) -> ShutdownEvent {
        match action {
            ShutdownAction::Notify(_) => ShutdownEvent::Notified { delivered },
            ShutdownAction::Settle { .. } => ShutdownEvent::Settled,
            _ => ShutdownEvent::Terminated,
        }
    }

    /// A bound on the steps still to take.
    pub open spec fn fuel(self) -> nat {
        match self.phase {
            ShutdownPhase::Notifying => 3,
            ShutdownPhase::Settling => 2,
            ShutdownPhase::Terminating => 1,
            ShutdownPhase::Exiting => 0,
        }
    }

    /// Everything the host is asked to do from here on, in order.
    pub open spec fn run(self, delivered: bool) -> Seq<ShutdownAction>
        decreases self.fuel(),
    {
        if self.phase == ShutdownPhase::Exiting {
            seq![self.spec_action()]
        } else {
            seq![self.spec_action()] + self.spec_next(
                Shutdown::answer(self.spec_action(), delivered),
            ).run(delivered)
        }
    }

    /// The shutdown that follows the destruction of the bubble.
    pub fn graceful_shutdown() -> (s: Shutdown)
        ensures
            s == Shutdown::spec_begin(ShutdownPolicy::Graceful),
    {
        Shutdown { policy: ShutdownPolicy::Graceful, phase: ShutdownPhase::Notifying }
    }

    /// The shutdown that the user's quit command starts.
    pub fn force_quit() -> (s: Shutdown)
        ensures
            s == Shutdown::spec_begin(ShutdownPolicy::ForceQuit),
    {
        Shutdown { policy: ShutdownPolicy::ForceQuit, phase: ShutdownPhase::Notifying }
    }

    /// What the host must do now.
    pub fn action(&self) -> (a: ShutdownAction)
        ensures
            a == self.spec_action(),
    {
        match self.phase {
            ShutdownPhase::Notifying => ShutdownAction::Notify(Request::shutdown()),
            ShutdownPhase::Settling => ShutdownAction::Settle { millis: SETTLE_MS },
            ShutdownPhase::Terminating => ShutdownAction::Terminate,
            ShutdownPhase::Exiting => ShutdownAction::Exit { code: EXIT_CODE },
        }
    }

    /// Takes the host's report and moves on; returns what to do next.
    pub fn advance(&mut self, event: ShutdownEvent) -> (a: ShutdownAction)
        ensures
            *final(self) == old(self).spec_next(event),
            a == final(self).spec_action(),
    {
        match (self.phase, event) {
            (ShutdownPhase::Notifying, ShutdownEvent::Notified { delivered }) => {
                let settle = match self.policy {
                    ShutdownPolicy::Graceful => true,
                    ShutdownPolicy::ForceQuit => delivered,
                };
                if settle {
                    self.phase = ShutdownPhase::Settling;
                } else {
                    self.phase = ShutdownPhase::Terminating;
                }
            },
            (ShutdownPhase::Settling, ShutdownEvent::Settled) => {
                self.phase = ShutdownPhase::Terminating;
            },
            (ShutdownPhase::Terminating, ShutdownEvent::Terminated) => {
                self.phase = ShutdownPhase::Exiting;
            },
            _ => {},
        }
        self.action()
    }
}

/// Both quit paths end in the exit of the process, whatever came of the
/// notice. The graceful path is always the same four steps: notify, settle
/// for the fixed moment, terminate, exit. The forced path is the same when
/// the notice was delivered, and skips the settling when it was not. Either
/// way the backend is terminated exactly once, after the notice and before
/// the exit.
pub proof fn lemma_shutdown_always_exits(policy: ShutdownPolicy, delivered: bool)
    ensures
        Shutdown::spec_begin(policy).run(delivered).last() == (ShutdownAction::Exit {
            code: EXIT_CODE,
        }),
        policy == ShutdownPolicy::Graceful || delivered ==> Shutdown::spec_begin(policy).run(
            delivered,
        ) == seq![
            ShutdownAction::Notify(Request::spec_shutdown()),
            ShutdownAction::Settle { millis: SETTLE_MS },
            ShutdownAction::Terminate,
            ShutdownAction::Exit { code: EXIT_CODE },
        ],
        policy == ShutdownPolicy::ForceQuit && !delivered ==> Shutdown::spec_begin(policy).run(
            delivered,
        ) == seq![
            ShutdownAction::Notify(Request::spec_shutdown()),
            ShutdownAction::Terminate,
            ShutdownAction::Exit { code: EXIT_CODE },
        ],
{
    let notifying = Shutdown::spec_begin(policy);
    let settling = Shutdown { policy, phase: ShutdownPhase::Settling };
    let terminating = Shutdown { policy, phase: ShutdownPhase::Terminating };
    let exiting = Shutdown { policy, phase: ShutdownPhase::Exiting };
    assert(exiting.run(delivered) =~= seq![ShutdownAction::Exit { code: EXIT_CODE }]);
    assert(terminating.spec_next(ShutdownEvent::Terminated) == exiting);
    assert(terminating.run(delivered) =~= seq![
        ShutdownAction::Terminate,
        ShutdownAction::Exit { code: EXIT_CODE },
    ]);
    assert(settling.spec_next(ShutdownEvent::Settled) == terminating);
    assert(settling.run(delivered) =~= seq![
        ShutdownAction::Settle { millis: SETTLE_MS },
        ShutdownAction::Terminate,
        ShutdownAction::Exit { code: EXIT_CODE },
    ]);
    if policy == ShutdownPolicy::Graceful || delivered {
        assert(notifying.spec_next(ShutdownEvent::Notified { delivered }) == settling);
        assert(notifying.run(delivered) =~= seq![
            ShutdownAction::Notify(Request::spec_shutdown()),
            ShutdownAction::Settle { millis: SETTLE_MS },
            ShutdownAction::Terminate,
            ShutdownAction::Exit { code: EXIT_CODE },
        ]);
    } else {
        assert(notifying.spec_next(ShutdownEvent::Notified { delivered }) == terminating);
        assert(notifying.run(delivered) =~= seq![
            ShutdownAction::Notify(Request::spec_shutdown()),
            ShutdownAction::Terminate,
            ShutdownAction::Exit { code: EXIT_CODE },
        ]);
    }
}

/// No report can hold a shutdown back or turn it round: every event leaves
/// it where it was or takes it one step nearer the exit, and once the exit
/// is reached nothing leads away from it.
pub proof fn lemma_shutdown_never_retreats(s: Shutdown, event: ShutdownEvent)
    ensures
        s.spec_next(event).fuel() <= s.fuel(),
        s.spec_next(event).policy == s.policy,
        s.phase == ShutdownPhase::Exiting ==> s.spec_next(event) == s,
        event == Shutdown::answer(s.spec_action(), true) && s.phase != ShutdownPhase::Exiting
            ==> s.spec_next(event).fuel() < s.fuel(),
        event == Shutdown::answer(s.spec_action(), false) && s.phase != ShutdownPhase::Exiting
            ==> s.spec_next(event).fuel() < s.fuel(),
{
}

} // verus!
