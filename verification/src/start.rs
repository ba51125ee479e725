//! One attempt to start the backend.
//!
//! The attempt looks for a bundled sidecar first and launches it. If there is
//! none, or its launch fails, it looks for a source checkout, picks an
//! interpreter, and launches the entry script. Only the failure of that last
//! launch, or the absence of any backend, ends the attempt in an error.
//!
//! The attempt is a machine. It asks the host for one thing at a time, a probe
//! or a launch, and takes the host's report of what came of it.

use vstd::prelude::*;
use crate::launch::{plan, spec_plan, LaunchPlan};
use crate::locator::{
    search_end, spec_script_candidates, spec_sidecar_candidates,
    BackendLocation, Environment, Locator, Resolution, Search,
};
use crate::paths::Location;
use crate::supervisor::{
    BackendHandle, Completion, SpawnError, StartError, StartOutcome, Supervisor,
};

verus! {

/// Where an attempt stands.
#[derive(Clone, Copy, Debug, PartialEq, Eq, Structural)]
pub enum StartPhase {
    /// Searching the sidecar candidates; a probe is under way.
    SidecarSearch,
    /// Waiting to hear whether the sidecar could be launched.
    SidecarSpawn { location: BackendLocation },
    /// Searching the source checkouts; a probe is under way.
    ScriptSearch,
    /// Waiting to hear whether the checkout has a virtual environment.
    VenvProbe { location: BackendLocation },
    /// Waiting to hear whether the entry script could be launched.
    ScriptSpawn { location: BackendLocation, venv: bool },
    /// The attempt is over.
    Done,
}

/// What the host reports to an attempt.
#[derive(Clone, Debug, PartialEq, Eq)]
pub enum StartEvent {
    /// Whether the probed file exists.
    Probed(bool),
    /// The launch succeeded; the child has this process identifier.
    Spawned(u32),
    /// The launch failed.
    SpawnFailed(SpawnError),
}

/// What the host must do for an attempt.
#[derive(Clone, Debug, PartialEq, Eq)]
pub enum StartAction {
    /// Look whether the file exists.
    Probe(Location),
    /// Launch the backend as the plan says.
    Spawn(LaunchPlan),
    /// Stop: the attempt has ended so.
    Finish(StartOutcome),
    /// Nothing: the attempt ended before.
    Idle,
}

impl StartAction {
    /// The outcome that the host's loop ends with on this action: the one
    /// the attempt finishes with, and the want of a backend for an attempt
    /// that asks for nothing because it was over before.
    pub open spec fn spec_outcome(self) -> StartOutcome {
        match self {
            StartAction::Finish(outcome) => outcome,
            _ => StartOutcome::Failed(StartError::NotFound),
        }
    }

    /// The outcome that the host's loop ends with on this action.
    pub fn outcome(self) -> (outcome: StartOutcome)
        ensures
            outcome == self.spec_outcome(),
    {
        match self {
            StartAction::Finish(outcome) => outcome,
            _ => StartOutcome::Failed(StartError::NotFound),
        }
    }
}

/// The interpreter of the virtual environment that belongs to a source
/// checkout.
pub open spec fn spec_venv_of(location: BackendLocation, env: Environment) -> Location {
    match location {
        BackendLocation::SourceScript { anchor, ascend } => BackendLocation::spec_venv_interpreter(
            anchor,
            ascend,
            env.platform,
        ),
        BackendLocation::BundledSidecar { binary } => binary,
    }
}

fn venv_of(location: BackendLocation, env: Environment) -> (l: Location)
    ensures
        l == spec_venv_of(location, env),
{
    match location {
        BackendLocation::SourceScript { anchor, ascend } => BackendLocation::venv_interpreter(
            anchor,
            ascend,
            env.platform,
        ),
        BackendLocation::BundledSidecar { binary } => binary,
    }
}

/// The mathematical state of an attempt.
pub struct StartState {
    pub env: Environment,
    pub phase: StartPhase,
    /// The search of the phase, while the phase is a search.
    pub search: Search,
}

impl StartState {
    /// What the attempt is waiting for the host to do.
    pub open spec fn pending(self) -> StartAction {
        match self.phase {
            StartPhase::SidecarSearch | StartPhase::ScriptSearch => match self.search.pending() {
                Some(marker) => StartAction::Probe(marker),
                None => StartAction::Idle,
            },
            StartPhase::SidecarSpawn { location } => StartAction::Spawn(
                spec_plan(self.env, location, false),
            ),
            StartPhase::VenvProbe { location } => StartAction::Probe(
                spec_venv_of(location, self.env),
            ),
            StartPhase::ScriptSpawn { location, venv } => StartAction::Spawn(
                spec_plan(self.env, location, venv),
            ),
            StartPhase::Done => StartAction::Idle,
        }
    }

    /// The attempt at its end.
    pub open spec fn done(self) -> StartState {
        StartState { phase: StartPhase::Done, ..self }
    }

    /// The turn to the source checkouts: the first candidate is probed, or,
    /// if there is no candidate at all, the attempt ends for want of a
    /// backend.
    pub open spec fn turn_to_scripts(self) -> (StartState, StartAction) {
        let search = Search::start(spec_script_candidates(self.env));
        match search.pending() {
            Some(marker) => (
                StartState { env: self.env, phase: StartPhase::ScriptSearch, search },
                StartAction::Probe(marker),
            ),
            None => (
                StartState { env: self.env, phase: StartPhase::Done, search },
                StartAction::Finish(StartOutcome::Failed(StartError::NotFound)),
            ),
        }
    }

    /// A fresh attempt and the first thing it asks for: a probe of the first
    /// sidecar candidate, or the turn to the source checkouts if no sidecar
    /// candidate is to be had.
    pub open spec fn begin(env: Environment) -> (StartState, StartAction) {
        let search = Search::start(spec_sidecar_candidates(env));
        match search.pending() {
            Some(marker) => (
                StartState { env, phase: StartPhase::SidecarSearch, search },
                StartAction::Probe(marker),
            ),
            None => (StartState { env, phase: StartPhase::Done, search }).turn_to_scripts(),
        }
    }

    /// The attempt after `event`, and what it asks for next.
    ///
    /// A sidecar that exists is launched; a sidecar that fails to launch is
    /// forgotten and the search turns to the source checkouts. A checkout
    /// whose entry script exists is launched with the interpreter that fits.
    /// An event that does not answer what the attempt is waiting for changes
    /// nothing and has the request made again; after the end nothing is
    /// asked any more.
    pub open spec fn step(self, event: StartEvent) -> (StartState, StartAction) {
        match (self.phase, event) {
            (StartPhase::SidecarSearch, StartEvent::Probed(exists)) => {
                let search = self.search.record(exists);
                match (search.result(), search.pending()) {
                    (Some(Resolution::Found(location)), _) => (
                        StartState { phase: StartPhase::SidecarSpawn { location }, search, ..self },
                        StartAction::Spawn(spec_plan(self.env, location, false)),
                    ),
                    (None, Some(marker)) => (
                        StartState { search, ..self },
                        StartAction::Probe(marker),
                    ),
                    _ => self.turn_to_scripts(),
                }
            },
            (StartPhase::SidecarSpawn { location }, StartEvent::Spawned(child)) => (
                self.done(),
                StartAction::Finish(StartOutcome::Started(BackendHandle { child, location })),
            ),
            (StartPhase::SidecarSpawn { .. }, StartEvent::SpawnFailed(_)) => self.turn_to_scripts(),
            (StartPhase::ScriptSearch, StartEvent::Probed(exists)) => {
                let search = self.search.record(exists);
                match (search.result(), search.pending()) {
                    (Some(Resolution::Found(location)), _) => (
                        StartState { phase: StartPhase::VenvProbe { location }, search, ..self },
                        StartAction::Probe(spec_venv_of(location, self.env)),
                    ),
                    (None, Some(marker)) => (
                        StartState { search, ..self },
                        StartAction::Probe(marker),
                    ),
                    _ => (
                        StartState { phase: StartPhase::Done, search, ..self },
                        StartAction::Finish(StartOutcome::Failed(StartError::NotFound)),
                    ),
                }
            },
            (StartPhase::VenvProbe { location }, StartEvent::Probed(venv)) => (
                StartState { phase: StartPhase::ScriptSpawn { location, venv }, ..self },
                StartAction::Spawn(spec_plan(self.env, location, venv)),
            ),
            (StartPhase::ScriptSpawn { location, .. }, StartEvent::Spawned(child)) => (
                self.done(),
                StartAction::Finish(StartOutcome::Started(BackendHandle { child, location })),
            ),
            (StartPhase::ScriptSpawn { .. }, StartEvent::SpawnFailed(error)) => (
                self.done(),
                StartAction::Finish(StartOutcome::Failed(StartError::SpawnFailed(error))),
            ),
            (StartPhase::Done, _) => (self, StartAction::Idle),
            _ => (self, self.pending()),
        }
    }
}

/// An attempt in progress.
#[derive(Debug)]
pub struct StartAttempt {
    env: Environment,
    phase: StartPhase,
    search: Locator,
}

impl View for StartAttempt {
    type V = StartState;

    closed spec fn view(&self) -> StartState {
        StartState { env: self.env, phase: self.phase, search: self.search@ }
    }
}

impl StartAttempt {
    fn turn_to_scripts(&mut self) -> (action: StartAction)
        ensures
            (final(self)@, action) == old(self)@.turn_to_scripts(),
    {
        self.search = Locator::find_backend_dir(self.env);
        match self.search.pending() {
            Some(marker) => {
                self.phase = StartPhase::ScriptSearch;
                StartAction::Probe(marker)
            },
            None => {
                self.phase = StartPhase::Done;
                StartAction::Finish(StartOutcome::Failed(StartError::NotFound))
            },
        }
    }

    /// A fresh attempt and the first thing it asks for. The attempt does not
    /// know whether a backend is running: `Supervisor::begin_start` looks
    /// first, and whatever an attempt starts beside a held backend has that
    /// backend handed out by `Supervisor::complete_start`.
    pub fn begin(env: Environment) -> (r: (StartAttempt, StartAction))
        ensures
            (r.0@, r.1) == StartState::begin(env),
    {
        let search = Locator::find_sidecar(env);
        match search.pending() {
            Some(marker) => (
                StartAttempt { env, phase: StartPhase::SidecarSearch, search },
                StartAction::Probe(marker),
            ),
            None => {
                let mut attempt = StartAttempt { env, phase: StartPhase::Done, search };
                let action = attempt.turn_to_scripts();
                (attempt, action)
            },
        }
    }

    /// Where the attempt stands.
    pub fn phase(&self) -> (phase: StartPhase)
        ensures
            phase == self@.phase,
    {
        self.phase
    }

    /// The surroundings the attempt was begun in.
    pub fn environment(&self) -> (env: Environment)
        ensures
            env == self@.env,
    {
        self.env
    }

    /// What the attempt is waiting for the host to do.
    pub fn pending(&self) -> (action: StartAction)
        ensures
            action == self@.pending(),
    {
        match self.phase {
            StartPhase::SidecarSearch | StartPhase::ScriptSearch => match self.search.pending() {
                Some(marker) => StartAction::Probe(marker),
                None => StartAction::Idle,
            },
            StartPhase::SidecarSpawn { location } => StartAction::Spawn(
                plan(self.env, location, false),
            ),
            StartPhase::VenvProbe { location } => StartAction::Probe(venv_of(location, self.env)),
            StartPhase::ScriptSpawn { location, venv } => StartAction::Spawn(
                plan(self.env, location, venv),
            ),
            StartPhase::Done => StartAction::Idle,
        }
    }

    /// Takes the host's report and moves on; returns what to do next.
    pub fn advance(&mut self, event: StartEvent) -> (action: StartAction)
        ensures
            (final(self)@, action) == old(self)@.step(event),
    {
        match (self.phase, event) {
            (StartPhase::SidecarSearch, StartEvent::Probed(exists)) => {
                self.search.record(exists);
                match (self.search.result(), self.search.pending()) {
                    (Some(Resolution::Found(location)), _) => {
                        self.phase = StartPhase::SidecarSpawn { location };
                        StartAction::Spawn(plan(self.env, location, false))
                    },
                    (None, Some(marker)) => StartAction::Probe(marker),
                    _ => self.turn_to_scripts(),
                }
            },
            (StartPhase::SidecarSpawn { location }, StartEvent::Spawned(child)) => {
                self.phase = StartPhase::Done;
                StartAction::Finish(StartOutcome::Started(BackendHandle { child, location }))
            },
            (StartPhase::SidecarSpawn { .. }, StartEvent::SpawnFailed(_)) => self.turn_to_scripts(),
            (StartPhase::ScriptSearch, StartEvent::Probed(exists)) => {
                self.search.record(exists);
                match (self.search.result(), self.search.pending()) {
                    (Some(Resolution::Found(location)), _) => {
                        self.phase = StartPhase::VenvProbe { location };
                        StartAction::Probe(venv_of(location, self.env))
                    },
                    (None, Some(marker)) => StartAction::Probe(marker),
                    _ => {
                        self.phase = StartPhase::Done;
                        StartAction::Finish(StartOutcome::Failed(StartError::NotFound))
                    },
                }
            },
            (StartPhase::VenvProbe { location }, StartEvent::Probed(venv)) => {
                self.phase = StartPhase::ScriptSpawn { location, venv };
                StartAction::Spawn(plan(self.env, location, venv))
            },
            (StartPhase::ScriptSpawn { location, .. }, StartEvent::Spawned(child)) => {
                self.phase = StartPhase::Done;
                StartAction::Finish(StartOutcome::Started(BackendHandle { child, location }))
            },
            (StartPhase::ScriptSpawn { .. }, StartEvent::SpawnFailed(error)) => {
                self.phase = StartPhase::Done;
                StartAction::Finish(StartOutcome::Failed(StartError::SpawnFailed(error)))
            },
            (StartPhase::Done, _) => StartAction::Idle,
            _ => self.pending(),
        }
    }
}

/// What the supervisor answers to the wish to start the backend.
#[derive(Debug)]
pub enum Begun {
    /// No backend is held: a fresh attempt, and the first thing it asks for.
    Attempt(StartAttempt, StartAction),
    /// A backend is held: no attempt is made, and this is the answer of
    /// the start.
    Declined(Completion),
}

/// The answer of a start that was declined because a backend is held: the
/// backend runs, so the start has succeeded, and nobody is displaced.
pub open spec fn spec_declined() -> Completion {
    Completion { result: Ok(()), displaced: None }
}

impl Supervisor {
    /// Begins a start attempt, unless a backend is held already: one
    /// backend is kept running, never two. With a backend held nothing is
    /// probed and nothing launched, and the start is answered at once.
    pub fn begin_start(&self, env: Environment) -> (begun: Begun)
        ensures
            self.handle is Some ==> begun is Declined && begun->Declined_0 == spec_declined(),
            self.handle is None ==> begun is Attempt && (begun->Attempt_0@, begun->Attempt_1)
                == StartState::begin(env),
    {
        match self.handle {
            Some(_) => Begun::Declined(Completion { result: Ok(()), displaced: None }),
            None => {
                let (attempt, action) = StartAttempt::begin(env);
                Begun::Attempt(attempt, action)
            },
        }
    }
}

/// The world an attempt runs in, as far as the attempt can tell: which files
/// exist, and what comes of launching a plan.
pub struct World {
    pub present: Set<Location>,
    pub spawn: spec_fn(LaunchPlan) -> Result<u32, SpawnError>,
}

impl World {
    /// What the host reports when it has done `action` in this world.
    pub open spec fn answer(self, action: StartAction) -> StartEvent {
        match action {
            StartAction::Probe(location) => StartEvent::Probed(self.present.contains(location)),
            StartAction::Spawn(plan) => match (self.spawn)(plan) {
                Ok(child) => StartEvent::Spawned(child),
                Err(error) => StartEvent::SpawnFailed(error),
            },
            _ => StartEvent::Probed(false),
        }
    }

    /// What comes of launching the backend at `location` in this world,
    /// with the interpreter that fits.
    pub open spec fn launch(self, env: Environment, location: BackendLocation) -> Result<
        u32,
        SpawnError,
    > {
        (self.spawn)(
            spec_plan(env, location, self.present.contains(spec_venv_of(location, env))),
        )
    }

    /// How the attempt ends once the search for a source checkout has ended
    /// at script candidate `end`: that launch is the last resort, so its
    /// failure is the failure of the attempt, and without a checkout the
    /// attempt fails for want of a backend.
    pub open spec fn script_outcome_at(self, env: Environment, end: int) -> StartOutcome {
        let scripts = spec_script_candidates(env);
        if 0 <= end < scripts.len() {
            match self.launch(env, scripts[end]) {
                Ok(child) => StartOutcome::Started(BackendHandle { child, location: scripts[end] }),
                Err(error) => StartOutcome::Failed(StartError::SpawnFailed(error)),
            }
        } else {
            StartOutcome::Failed(StartError::NotFound)
        }
    }

    /// How an attempt ends that has only source checkouts to turn to: the
    /// first one that exists is launched.
    pub open spec fn script_outcome(self, env: Environment) -> StartOutcome {
        self.script_outcome_at(
            env,
            search_end(spec_script_candidates(env), self.present, 0),
        )
    }

    /// How the attempt ends once the search for a sidecar has ended at
    /// sidecar candidate `end`: the sidecar is launched, and if there is none
    /// or the launch fails, the source checkouts are turned to.
    pub open spec fn sidecar_outcome_at(self, env: Environment, end: int) -> StartOutcome {
        let sidecars = spec_sidecar_candidates(env);
        if 0 <= end < sidecars.len() {
            match (self.spawn)(spec_plan(env, sidecars[end], false)) {
                Ok(child) => StartOutcome::Started(
                    BackendHandle { child, location: sidecars[end] },
                ),
                Err(_) => self.script_outcome(env),
            }
        } else {
            self.script_outcome(env)
        }
    }

    /// How an attempt ends in this world. The first sidecar that exists is
    /// launched. If none exists, or the launch fails, the first source
    /// checkout that exists is launched instead, by the interpreter of its
    /// virtual environment if that exists and by the system's otherwise.
    /// Without any backend the attempt fails for want of one.
    pub open spec fn start_outcome(self, env: Environment) -> StartOutcome {
        self.sidecar_outcome_at(
            env,
            search_end(spec_sidecar_candidates(env), self.present, 0),
        )
    }
}

impl StartState {
    /// A bound on the requests the attempt can still make.
    pub open spec fn fuel(self) -> nat {
        let scripts = spec_script_candidates(self.env).len();
        match self.phase {
            StartPhase::SidecarSearch => 5 + scripts + self.search.fuel(),
            StartPhase::SidecarSpawn { .. } => 4 + scripts,
            StartPhase::ScriptSearch => 3 + self.search.fuel(),
            StartPhase::VenvProbe { .. } => 2,
            StartPhase::ScriptSpawn { .. } => 1,
            StartPhase::Done => 0,
        }
    }

    /// How the attempt ends when the host carries out every request in
    /// `world` and reports truthfully.
    pub open spec fn run(self, world: World) -> StartOutcome
        decreases self.fuel(),
    {
        let (next, action) = self.step(world.answer(self.pending()));
        match action {
            StartAction::Probe(_) | StartAction::Spawn(_) => next.run(world),
            _ => action.spec_outcome(),
        }
    }

    /// How a fresh attempt ends in `world`.
    pub open spec fn start(env: Environment, world: World) -> StartOutcome {
        outcome_from(StartState::begin(env), world)
    }
}

/// How things end from a state and the request that led to it.
pub open spec fn outcome_from(pair: (StartState, StartAction), world: World) -> StartOutcome {
    match pair.1 {
        StartAction::Probe(_) | StartAction::Spawn(_) => pair.0.run(world),
        _ => pair.1.spec_outcome(),
    }
}

proof fn lemma_script_search(s: StartState, world: World)
    requires
        s.phase == StartPhase::ScriptSearch,
        s.search.queue == spec_script_candidates(s.env),
        s.search.searching(),
    ensures
        s.run(world) == world.script_outcome_at(
            s.env,
            search_end(s.search.queue, world.present, s.search.cursor as int),
        ),
    decreases s.search.fuel(),
{
    let location = s.search.queue[s.search.cursor as int];
    let exists = world.present.contains(location.spec_marker());
    let (next, action) = s.step(world.answer(s.pending()));
    if exists {
        let venv = world.present.contains(spec_venv_of(location, s.env));
        let launching = StartState {
            phase: StartPhase::ScriptSpawn { location, venv },
            ..next
        };
        assert(next.phase == StartPhase::VenvProbe { location });
        assert(next.step(world.answer(next.pending())).0 == launching);
        assert(launching.run(world) == world.script_outcome_at(s.env, s.search.cursor as int));
        assert(next.run(world) == launching.run(world));
    } else if s.search.record(false).searching() {
        lemma_script_search(next, world);
    }
}

proof fn lemma_turn_to_scripts(s: StartState, world: World)
    ensures
        outcome_from(s.turn_to_scripts(), world) == world.script_outcome(s.env),
{
    let (next, action) = s.turn_to_scripts();
    if next.phase == StartPhase::ScriptSearch {
        lemma_script_search(next, world);
    }
}

proof fn lemma_sidecar_search(s: StartState, world: World)
    requires
        s.phase == StartPhase::SidecarSearch,
        s.search.queue == spec_sidecar_candidates(s.env),
        s.search.searching(),
    ensures
        s.run(world) == world.sidecar_outcome_at(
            s.env,
            search_end(s.search.queue, world.present, s.search.cursor as int),
        ),
    decreases s.search.fuel(),
{
    let location = s.search.queue[s.search.cursor as int];
    let exists = world.present.contains(location.spec_marker());
    let (next, action) = s.step(world.answer(s.pending()));
    if exists {
        assert(next.phase == StartPhase::SidecarSpawn { location });
        lemma_turn_to_scripts(next, world);
        assert(next.run(world) == world.sidecar_outcome_at(s.env, s.search.cursor as int));
    } else if s.search.record(false).searching() {
        lemma_sidecar_search(next, world);
    } else {
        assert(search_end(s.search.queue, world.present, s.search.cursor as int + 1)
            == s.search.queue.len());
        lemma_turn_to_scripts(s, world);
    }
}

/// Request by request, an attempt ends as `start_outcome` says: with the
/// first existing sidecar if it can be launched, else with the first
/// existing source checkout, else in an error.
pub proof fn lemma_start_outcome(env: Environment, world: World)
    ensures
        StartState::start(env, world) == world.start_outcome(env),
{
    let (first, action) = StartState::begin(env);
    if first.phase == StartPhase::SidecarSearch {
        lemma_sidecar_search(first, world);
    } else {
        let empty = StartState {
            env,
            phase: StartPhase::Done,
            search: Search::start(spec_sidecar_candidates(env)),
        };
        lemma_turn_to_scripts(empty, world);
    }
}

/// Where nothing exists, the attempt fails for want of a backend, whatever
/// launching would have given.
pub proof fn lemma_nothing_found(env: Environment, world: World)
    requires
        world.present == Set::<Location>::empty(),
    ensures
        StartState::start(env, world) == StartOutcome::Failed(StartError::NotFound),
{
    lemma_start_outcome(env, world);
    crate::locator::lemma_search_end_is_first(spec_sidecar_candidates(env), world.present, 0);
    crate::locator::lemma_search_end_is_first(spec_script_candidates(env), world.present, 0);
}

/// An attempt that ends with a backend was asked to launch it exactly where
/// the locator finds one: the handle names the first existing sidecar, or,
/// failing that, the first existing source checkout.
pub proof fn lemma_started_where_found(env: Environment, world: World)
    requires
        StartState::start(env, world) is Started,
    ensures
        ({
            let location = StartState::start(env, world)->Started_0.location;
            let sidecar = crate::locator::search_result(
                spec_sidecar_candidates(env),
                world.present,
            );
            let script = crate::locator::search_result(
                spec_script_candidates(env),
                world.present,
            );
            Resolution::Found(location) == sidecar || Resolution::Found(location) == script
        }),
{
    lemma_start_outcome(env, world);
}

/// A start that the supervisor has let begin displaces nobody when it ends,
/// as long as the supervisor is not told of another start in between: the
/// supervisor held no backend when the attempt began, so none loses its
/// place. And once a backend is held, every further start is declined until
/// the backend is released.
pub proof fn lemma_start_keeps_one_backend(s: Supervisor, outcome: StartOutcome)
    ensures
        s.handle is None ==> s.spec_displaced(outcome) is None,
        s.spec_after_start(outcome).handle is Some <==> s.handle is Some || outcome is Started,
{
}

} // verus!
