//! The two startup gates. Each polls an endpoint a bounded number of times,
//! sleeping between polls, and ends as soon as one poll succeeds.
//!
//! A gate is a machine: `action` says what the host must do now, `advance`
//! takes the report of what happened.

use vstd::prelude::*;
use crate::endpoint::{Request, spec_is_success, is_success};
use crate::window::{Command, Effect, Signal, Window};

verus! {

/// Polls allowed while waiting for the backend.
pub const READINESS_ATTEMPTS: u32 = 45;

/// Polls allowed while waiting for the network.
pub const CONNECTIVITY_ATTEMPTS: u32 = 30;

/// Pause after a failed poll, in milliseconds.
pub const POLL_INTERVAL_MS: u64 = 1000;

/// Which endpoint a gate watches.
#[derive(Clone, Copy, Debug, PartialEq, Eq, Structural)]
pub enum GateKind {
    /// Waits for the network; tells `main` once when the first poll fails.
    Connectivity,
    /// Waits for the backend's health check.
    Readiness,
}

/// How a gate ended.
#[derive(Clone, Copy, Debug, PartialEq, Eq, Structural)]
pub enum GateOutcome {
    /// A poll succeeded: connected, or ready.
    Passed,
    /// Every allowed poll failed.
    TimedOut,
}

/// What a gate is waiting for.
#[derive(Clone, Copy, Debug, PartialEq, Eq, Structural)]
pub enum GatePhase {
    Polling,
    Notifying,
    Sleeping,
    Finished(GateOutcome),
}

/// What the host must do for a gate.
#[derive(Clone, Copy, Debug, PartialEq, Eq, Structural)]
pub enum GateAction {
    /// Make the request and report its answer.
    Poll(Request),
    /// Carry out the effect, without waiting for anyone to take notice.
    Notify(Effect),
    /// Wait.
    Sleep { millis: u64 },
    /// Stop: the polling is over.
    Finish(GateOutcome),
}

/// What the host reports to a gate.
#[derive(Clone, Copy, Debug, PartialEq, Eq, Structural)]
pub enum GateEvent {
    /// The answer to the poll: a status code, or `None` without a response.
    Polled(Option<u16>),
    /// The notification or the sleep is over.
    Completed,
}

/// A gate in the middle of its work.
#[derive(Clone, Copy, Debug, PartialEq, Eq, Structural)]
pub struct Gate {
    pub kind: GateKind,
    pub max_attempts: u32,
    pub interval_ms: u64,
    /// Polls answered so far.
    pub attempts: u32,
    pub phase: GatePhase,
}

/// The notice that the network is down: the "no internet" signal, emitted
/// to the main window.
pub open spec fn spec_no_internet_notice() -> Effect {
    Effect { target: Window::Main, command: Command::Emit(Signal::NoInternet) }
}

/// The notice that the network is down.
pub fn no_internet_notice() -> (notice: Effect)
    ensures
        notice == spec_no_internet_notice(),
{
    Effect { target: Window::Main, command: Command::Emit(Signal::NoInternet) }
}

impl Gate {
    /// A fresh gate. With no attempt allowed it has timed out already.
    pub open spec fn spec_new(kind: GateKind, max_attempts: u32, interval_ms: u64) -> Gate {
        Gate {
            kind,
            max_attempts,
            interval_ms,
            attempts: 0,
            phase: if max_attempts == 0 {
                GatePhase::Finished(GateOutcome::TimedOut)
            } else {
                GatePhase::Polling
            },
        }
    }

    /// The request a gate of this kind polls with.
    pub open spec fn spec_request(self) -> Request {
        match self.kind {
            GateKind::Connectivity => Request::spec_internet(),
            GateKind::Readiness => Request::spec_health(),
        }
    }

    /// What the host must do now.
    pub open spec fn spec_action(self) -> GateAction {
        match self.phase {
            GatePhase::Polling => GateAction::Poll(self.spec_request()),
            GatePhase::Notifying => GateAction::Notify(spec_no_internet_notice()),
            GatePhase::Sleeping => GateAction::Sleep { millis: self.interval_ms },
            GatePhase::Finished(outcome) => GateAction::Finish(outcome),
        }
    }

    /// This gate after `event`. An event that does not answer the pending
    /// action changes nothing.
    ///
    /// A successful poll ends the waiting at once. A failed one is followed
    /// by a sleep, and a connectivity gate puts its notification before the
    /// sleep that follows its very first poll. After the sleep comes another
    /// poll if an attempt is left, and the timeout if none is.
    pub open spec fn spec_next(self, event: GateEvent) -> Gate {
        match (self.phase, event) {
            (GatePhase::Polling, GateEvent::Polled(answer)) => {
                if self.attempts >= self.max_attempts {
                    Gate {
                        phase: GatePhase::Finished(
                            if spec_is_success(answer) {
                                GateOutcome::Passed
                            } else {
                                GateOutcome::TimedOut
                            },
                        ),
                        ..self
                    }
                } else if spec_is_success(answer) {
                    Gate {
                        attempts: (self.attempts + 1) as u32,
                        phase: GatePhase::Finished(GateOutcome::Passed),
                        ..self
                    }
                } else if self.kind == GateKind::Connectivity && self.attempts == 0 {
                    Gate { attempts: 1, phase: GatePhase::Notifying, ..self }
                } else {
                    Gate {
                        attempts: (self.attempts + 1) as u32,
                        phase: GatePhase::Sleeping,
                        ..self
                    }
                }
            },
            (GatePhase::Notifying, GateEvent::Completed) => Gate {
                phase: GatePhase::Sleeping,
                ..self
            },
            (GatePhase::Sleeping, GateEvent::Completed) => Gate {
                phase: if self.attempts < self.max_attempts {
                    GatePhase::Polling
                } else {
                    GatePhase::Finished(GateOutcome::TimedOut)
                },
                ..self
            },
            _ => self,
        }
    }

    /// The outcome, once there is one.
    pub open spec fn spec_outcome(self) -> Option<GateOutcome> {
        match self.phase {
            GatePhase::Finished(outcome) => Some(outcome),
            _ => None,
        }
    }

    /// A fresh gate.
    pub fn new(kind: GateKind, max_attempts: u32, interval_ms: u64) -> (g: Gate)
        ensures
            g == Gate::spec_new(kind, max_attempts, interval_ms),
    {
        let phase = if max_attempts == 0 {
            GatePhase::Finished(GateOutcome::TimedOut)
        } else {
            GatePhase::Polling
        };
        Gate { kind, max_attempts, interval_ms, attempts: 0, phase }
    }

    /// A gate that waits for the backend's health check.
    pub fn await_ready(max_attempts: u32, interval_ms: u64) -> (g: Gate)
        ensures
            g == Gate::spec_new(GateKind::Readiness, max_attempts, interval_ms),
    {
        Gate::new(GateKind::Readiness, max_attempts, interval_ms)
    }

    /// A gate that waits for the network.
    pub fn await_internet(max_attempts: u32, interval_ms: u64) -> (g: Gate)
        ensures
            g == Gate::spec_new(GateKind::Connectivity, max_attempts, interval_ms),
    {
        Gate::new(GateKind::Connectivity, max_attempts, interval_ms)
    }

    /// What the host must do now.
    pub fn action(&self) -> (a: GateAction)
        ensures
            a == self.spec_action(),
    {
        match self.phase {
            GatePhase::Polling => match self.kind {
                GateKind::Connectivity => GateAction::Poll(Request::internet()),
                GateKind::Readiness => GateAction::Poll(Request::health()),
            },
            GatePhase::Notifying => GateAction::Notify(no_internet_notice()),
            GatePhase::Sleeping => GateAction::Sleep { millis: self.interval_ms },
            GatePhase::Finished(outcome) => GateAction::Finish(outcome),
        }
    }

    /// Takes the host's report and moves on; returns what to do next.
    pub fn advance(&mut self, event: GateEvent) -> (a: GateAction)
        ensures
            *final(self) == old(self).spec_next(event),
            a == final(self).spec_action(),
    {
        match (self.phase, event) {
            (GatePhase::Polling, GateEvent::Polled(answer)) => {
                let ok = is_success(answer);
                if self.attempts >= self.max_attempts {
                    self.phase = GatePhase::Finished(
                        if ok {
                            GateOutcome::Passed
                        } else {
                            GateOutcome::TimedOut
                        },
                    );
                } else if ok {
                    self.attempts = self.attempts + 1;
                    self.phase = GatePhase::Finished(GateOutcome::Passed);
                } else if self.kind == GateKind::Connectivity && self.attempts == 0 {
                    self.attempts = 1;
                    self.phase = GatePhase::Notifying;
                } else {
                    self.attempts = self.attempts + 1;
                    self.phase = GatePhase::Sleeping;
                }
            },
            (GatePhase::Notifying, GateEvent::Completed) => {
                self.phase = GatePhase::Sleeping;
            },
            (GatePhase::Sleeping, GateEvent::Completed) => {
                if self.attempts < self.max_attempts {
                    self.phase = GatePhase::Polling;
                } else {
                    self.phase = GatePhase::Finished(GateOutcome::TimedOut);
                }
            },
            _ => {},
        }
        self.action()
    }

    /// The outcome, once there is one.
    pub fn outcome(&self) -> (o: Option<GateOutcome>)
        ensures
            o == self.spec_outcome(),
    {
        match self.phase {
            GatePhase::Finished(outcome) => Some(outcome),
            _ => None,
        }
    }

    /// A bound on the steps still to take.
    pub open spec fn spec_fuel(self) -> nat {
        let left: nat = if self.attempts < self.max_attempts {
            (self.max_attempts - self.attempts) as nat
        } else {
            0
        };
        match self.phase {
            GatePhase::Polling => 3 * left + 1,
            GatePhase::Notifying => 3 * left + 3,
            GatePhase::Sleeping => 3 * left + 2,
            GatePhase::Finished(_) => 0,
        }
    }

    /// Everything the host is asked to do, in order, when the polls are
    /// answered by `answers` in turn. The run ends with `Finish`, or, if the
    /// answers run out first, with the poll that nobody answered.
    pub open spec fn spec_run(self, answers: Seq<Option<u16>>) -> Seq<GateAction>
        decreases self.spec_fuel(),
    {
        match self.phase {
            GatePhase::Finished(_) => seq![self.spec_action()],
            GatePhase::Polling => if answers.len() == 0 {
                seq![self.spec_action()]
            } else {
                seq![self.spec_action()] + self.spec_next(GateEvent::Polled(answers[0])).spec_run(
                    answers.drop_first(),
                )
            },
            _ => seq![self.spec_action()] + self.spec_next(GateEvent::Completed).spec_run(answers),
        }
    }
}

/// How many polls a run asks for.
pub open spec fn polls_in(run: Seq<GateAction>) -> nat
    decreases run.len(),
{
    if run.len() == 0 {
        0
    } else {
        (if run[0] is Poll {
            1nat
        } else {
            0nat
        }) + polls_in(run.drop_first())
    }
}

/// How many notifications a run asks for.
pub open spec fn notifications_in(run: Seq<GateAction>) -> nat
    decreases run.len(),
{
    if run.len() == 0 {
        0
    } else {
        (if run[0] is Notify {
            1nat
        } else {
            0nat
        }) + notifications_in(run.drop_first())
    }
}

/// The first `n` answers are all failures.
pub open spec fn all_fail(answers: Seq<Option<u16>>, n: int) -> bool {
    forall|i: int| 0 <= i < n ==> !spec_is_success(#[trigger] answers[i])
}

proof fn lemma_prepend(first: GateAction, rest: Seq<GateAction>)
    requires
        rest.len() > 0,
    ensures
        polls_in(seq![first] + rest) == polls_in(rest) + (if first is Poll {
            1nat
        } else {
            0nat
        }),
        notifications_in(seq![first] + rest) == notifications_in(rest) + (if first is Notify {
            1nat
        } else {
            0nat
        }),
        (seq![first] + rest).last() == rest.last(),
        (seq![first] + rest)[0] == first,
        (seq![first] + rest).len() == rest.len() + 1,
{
    let whole = seq![first] + rest;
    assert(whole.drop_first() =~= rest);
}

proof fn lemma_single(only: GateAction)
    ensures
        polls_in(seq![only]) == (if only is Poll {
            1nat
        } else {
            0nat
        }),
        notifications_in(seq![only]) == (if only is Notify {
            1nat
        } else {
            0nat
        }),
{
    let whole = seq![only];
    assert(whole.drop_first() =~= Seq::<GateAction>::empty());
    assert(polls_in(whole.drop_first()) == 0);
    assert(notifications_in(whole.drop_first()) == 0);
}

proof fn lemma_run_nonempty(g: Gate, answers: Seq<Option<u16>>)
    ensures
        g.spec_run(answers).len() > 0,
        g.spec_run(answers)[0] == g.spec_action(),
    decreases g.spec_fuel(),
{
    match g.phase {
        GatePhase::Finished(_) => {},
        GatePhase::Polling => {
            if answers.len() > 0 {
                let next = g.spec_next(GateEvent::Polled(answers[0]));
                lemma_run_nonempty(next, answers.drop_first());
            }
        },
        _ => {
            let next = g.spec_next(GateEvent::Completed);
            lemma_run_nonempty(next, answers);
        },
    }
}

/// The run of a gate that is about to sleep after `g.attempts` failed polls.
proof fn lemma_run_from_sleep(g: Gate, answers: Seq<Option<u16>>)
    requires
        g.phase == GatePhase::Sleeping,
        g.attempts <= g.max_attempts,
    ensures
        g.spec_run(answers) == seq![GateAction::Sleep { millis: g.interval_ms }] + g.spec_next(
            GateEvent::Completed,
        ).spec_run(answers),
{
}

/// What wakes from the sleep after a failed poll: a gate one attempt
/// further, polling again if an attempt is left and timed out if none is.
spec fn woken_after_failure(g: Gate) -> Gate {
    Gate {
        attempts: (g.attempts + 1) as u32,
        phase: if g.attempts + 1 < g.max_attempts {
            GatePhase::Polling
        } else {
            GatePhase::Finished(GateOutcome::TimedOut)
        },
        ..g
    }
}

/// Whether the next poll is the one whose failure is announced.
spec fn announces(g: Gate) -> bool {
    g.kind == GateKind::Connectivity && g.attempts == 0
}

/// What one failed poll adds to a run: the poll itself, the notice if the
/// failure is announced, and the sleep. What follows is the run of what
/// wakes from that sleep.
proof fn lemma_failed_poll(g: Gate, answers: Seq<Option<u16>>)
    requires
        g.phase == GatePhase::Polling,
        g.attempts < g.max_attempts,
        answers.len() > 0,
        !spec_is_success(answers[0]),
    ensures
        ({
            let run = g.spec_run(answers);
            let tail = woken_after_failure(g).spec_run(answers.drop_first());
            &&& polls_in(run) == polls_in(tail) + 1
            &&& notifications_in(run) == notifications_in(tail) + (if announces(g) {
                1nat
            } else {
                0nat
            })
            &&& run.last() == tail.last()
            &&& announces(g) ==> run[1] == GateAction::Notify(spec_no_internet_notice())
        }),
{
    let rest = answers.drop_first();
    let polled = g.spec_next(GateEvent::Polled(answers[0]));
    let asleep = Gate { attempts: (g.attempts + 1) as u32, phase: GatePhase::Sleeping, ..g };
    let woken = woken_after_failure(g);
    assert(asleep.spec_next(GateEvent::Completed) == woken);
    let tail = woken.spec_run(rest);
    lemma_run_nonempty(woken, rest);
    let from_sleep = asleep.spec_run(rest);
    lemma_run_from_sleep(asleep, rest);
    lemma_prepend(GateAction::Sleep { millis: g.interval_ms }, tail);
    if announces(g) {
        assert(polled == Gate { phase: GatePhase::Notifying, ..asleep });
        assert(polled.spec_next(GateEvent::Completed) == asleep);
        assert(polled.spec_run(rest) == seq![GateAction::Notify(spec_no_internet_notice())]
            + from_sleep);
        lemma_prepend(GateAction::Notify(spec_no_internet_notice()), from_sleep);
    } else {
        assert(polled == asleep);
    }
    lemma_prepend(GateAction::Poll(g.spec_request()), polled.spec_run(rest));
}

proof fn lemma_rest_fails(answers: Seq<Option<u16>>, n: int)
    requires
        answers.len() > 0,
        n <= answers.len(),
        all_fail(answers, n),
    ensures
        all_fail(answers.drop_first(), n - 1),
{
    let rest = answers.drop_first();
    assert forall|i: int| 0 <= i < n - 1 implies !spec_is_success(#[trigger] rest[i]) by {
        assert(rest[i] == answers[i + 1]);
    }
}

/// A gate that polls with `left` attempts to go, against answers that all
/// fail, asks for exactly `left` polls and then times out.
proof fn lemma_timeout_from(g: Gate, answers: Seq<Option<u16>>)
    requires
        g.phase == GatePhase::Polling,
        g.attempts < g.max_attempts,
        answers.len() >= g.max_attempts - g.attempts,
        all_fail(answers, g.max_attempts - g.attempts),
    ensures
        polls_in(g.spec_run(answers)) == g.max_attempts - g.attempts,
        notifications_in(g.spec_run(answers)) == (if announces(g) {
            1nat
        } else {
            0nat
        }),
        g.spec_run(answers).last() == GateAction::Finish(GateOutcome::TimedOut),
        announces(g) ==> g.spec_run(answers)[1] == GateAction::Notify(spec_no_internet_notice()),
    decreases g.max_attempts - g.attempts,
{
    let rest = answers.drop_first();
    let woken = woken_after_failure(g);
    assert(!spec_is_success(answers[0]));
    lemma_failed_poll(g, answers);
    if woken.phase == GatePhase::Polling {
        lemma_rest_fails(answers, g.max_attempts - g.attempts);
        lemma_timeout_from(woken, rest);
    } else {
        assert(woken.spec_run(rest) =~= seq![GateAction::Finish(GateOutcome::TimedOut)]);
        lemma_single(GateAction::Finish(GateOutcome::TimedOut));
    }
}

/// A gate that polls against answers of which the `k`-th is the first
/// success, with at least `k` attempts to go, asks for exactly `k` polls and
/// then passes.
proof fn lemma_pass_from(g: Gate, answers: Seq<Option<u16>>, k: int)
    requires
        g.phase == GatePhase::Polling,
        1 <= k <= g.max_attempts - g.attempts,
        answers.len() >= k,
        all_fail(answers, k - 1),
        spec_is_success(answers[k - 1]),
    ensures
        polls_in(g.spec_run(answers)) == k,
        notifications_in(g.spec_run(answers)) == (if announces(g) && k >= 2 {
            1nat
        } else {
            0nat
        }),
        g.spec_run(answers).last() == GateAction::Finish(GateOutcome::Passed),
    decreases k,
{
    let rest = answers.drop_first();
    if k == 1 {
        let polled = g.spec_next(GateEvent::Polled(answers[0]));
        assert(polled.phase == GatePhase::Finished(GateOutcome::Passed));
        assert(polled.spec_run(rest) =~= seq![GateAction::Finish(GateOutcome::Passed)]);
        lemma_single(GateAction::Finish(GateOutcome::Passed));
        lemma_prepend(GateAction::Poll(g.spec_request()), polled.spec_run(rest));
    } else {
        assert(!spec_is_success(answers[0]));
        lemma_failed_poll(g, answers);
        lemma_rest_fails(answers, k - 1);
        assert(rest[k - 2] == answers[k - 1]);
        lemma_pass_from(woken_after_failure(g), rest, k - 1);
    }
}

/// A gate whose `k`-th poll is the first to succeed, `k` within the allowed
/// attempts, passes after exactly `k` polls: no poll follows the success. It
/// notifies at most once, and only if the first poll failed.
pub proof fn lemma_gate_passes_after_k_polls(
    kind: GateKind,
    max_attempts: u32,
    interval_ms: u64,
    answers: Seq<Option<u16>>,
    k: int,
)
    requires
        1 <= k <= max_attempts,
        answers.len() >= k,
        all_fail(answers, k - 1),
        spec_is_success(answers[k - 1]),
    ensures
        ({
            let run = Gate::spec_new(kind, max_attempts, interval_ms).spec_run(answers);
            &&& run.last() == GateAction::Finish(GateOutcome::Passed)
            &&& polls_in(run) == k
            &&& notifications_in(run) == (if kind == GateKind::Connectivity && k >= 2 {
                1nat
            } else {
                0nat
            })
        }),
{
    lemma_pass_from(Gate::spec_new(kind, max_attempts, interval_ms), answers, k);
}

/// A gate whose polls all fail makes exactly `max_attempts` polls and then
/// times out. A connectivity gate notifies exactly once on the way, right
/// after its first poll; a readiness gate never notifies.
pub proof fn lemma_gate_times_out_after_max_polls(
    kind: GateKind,
    max_attempts: u32,
    interval_ms: u64,
    answers: Seq<Option<u16>>,
)
    requires
        answers.len() >= max_attempts,
        all_fail(answers, max_attempts as int),
    ensures
        ({
            let run = Gate::spec_new(kind, max_attempts, interval_ms).spec_run(answers);
            &&& run.last() == GateAction::Finish(GateOutcome::TimedOut)
            &&& polls_in(run) == max_attempts
            &&& notifications_in(run) == (if kind == GateKind::Connectivity && max_attempts >= 1 {
                1nat
            } else {
                0nat
            })
            &&& kind == GateKind::Connectivity && max_attempts >= 1 ==> run[1]
                == GateAction::Notify(spec_no_internet_notice())
        }),
{
    let g = Gate::spec_new(kind, max_attempts, interval_ms);
    if max_attempts == 0 {
        assert(g.spec_run(answers) =~= seq![GateAction::Finish(GateOutcome::TimedOut)]);
        lemma_single(GateAction::Finish(GateOutcome::TimedOut));
    } else {
        lemma_timeout_from(g, answers);
    }
}

} // verus!
