//! The backend locator: a short, ordered list of places where a runnable
//! backend may lie, probed one by one until the first exists.
//!
//! The locator decides which file to look for next; the host looks, and
//! reports whether the file is there. A place that the host cannot even
//! name (an anchor without enough parents) counts as absent.

use vstd::prelude::*;
use crate::paths::{Anchor, Location, Name, Platform, Trail};

verus! {

/// What the host knows of its surroundings when a launch is attempted.
#[derive(Clone, Copy, Debug, PartialEq, Eq, Structural)]
pub struct Environment {
    pub platform: Platform,
    /// Whether the directory of the running executable could be determined.
    pub executable_dir: bool,
    /// Whether the resource directory could be determined.
    pub resource_dir: bool,
    /// Whether the current working directory could be determined.
    pub working_dir: bool,
}

/// A place where the backend may lie, tagged with the way to launch it.
#[derive(Clone, Copy, Debug, PartialEq, Eq, Structural)]
pub enum BackendLocation {
    /// A bundled executable, started directly.
    BundledSidecar { binary: Location },
    /// A source checkout, run by an interpreter: the directory named
    /// `backend` below the anchor's `ascend`-th parent.
    SourceScript { anchor: Anchor, ascend: u8 },
}

/// The outcome of a finished search.
#[derive(Clone, Copy, Debug, PartialEq, Eq, Structural)]
pub enum Resolution {
    Found(BackendLocation),
    NotFound,
}

impl BackendLocation {
    /// The file whose existence shows that the backend lies here: the
    /// executable itself, or the entry script in the backend directory.
    pub open spec fn spec_marker(self) -> Location {
        match self {
            BackendLocation::BundledSidecar { binary } => binary,
            BackendLocation::SourceScript { anchor, ascend } => Location {
                anchor,
                ascend,
                trail: Trail::Two(Name::Backend, Name::ServerScript),
            },
        }
    }

    /// The directory of a source checkout's backend.
    pub open spec fn spec_directory(anchor: Anchor, ascend: u8) -> Location {
        Location { anchor, ascend, trail: Trail::One(Name::Backend) }
    }

    /// The interpreter of the virtual environment that lies beside a source
    /// checkout's backend directory.
    pub open spec fn spec_venv_interpreter(
        anchor: Anchor,
        ascend: u8,
        platform: Platform,
    ) -> Location {
        Location {
            anchor,
            ascend,
            trail: Trail::Three(
                Name::VenvRoot,
                Name::VenvScripts,
                if platform == Platform::Windows {
                    Name::PythonExe
                } else {
                    Name::Python
                },
            ),
        }
    }

    /// The file whose existence shows that the backend lies here.
    pub fn marker(self) -> (l: Location)
        ensures
            l == self.spec_marker(),
    {
        match self {
            BackendLocation::BundledSidecar { binary } => binary,
            BackendLocation::SourceScript { anchor, ascend } => Location {
                anchor,
                ascend,
                trail: Trail::Two(Name::Backend, Name::ServerScript),
            },
        }
    }

    /// The directory of a source checkout's backend.
    pub fn directory(anchor: Anchor, ascend: u8) -> (l: Location)
        ensures
            l == BackendLocation::spec_directory(anchor, ascend),
    {
        Location { anchor, ascend, trail: Trail::One(Name::Backend) }
    }

    /// The interpreter of the virtual environment beside the backend
    /// directory.
    pub fn venv_interpreter(anchor: Anchor, ascend: u8, platform: Platform) -> (l: Location)
        ensures
            l == BackendLocation::spec_venv_interpreter(anchor, ascend, platform),
    {
        let python = match platform {
            Platform::Windows => Name::PythonExe,
            Platform::Other => Name::Python,
        };
        Location { anchor, ascend, trail: Trail::Three(Name::VenvRoot, Name::VenvScripts, python) }
    }
}

/// The bundled executable `name` in the anchor directory, or in its
/// `binaries` subdirectory.
pub open spec fn sidecar_at(anchor: Anchor, in_binaries: bool, name: Name) -> BackendLocation {
    BackendLocation::BundledSidecar {
        binary: Location {
            anchor,
            ascend: 0,
            trail: if in_binaries {
                Trail::Two(Name::Binaries, name)
            } else {
                Trail::One(name)
            },
        },
    }
}

/// The sidecar candidates of one directory: one per file name of the
/// platform, the most specific name first.
pub open spec fn sidecars_in(
    anchor: Anchor,
    in_binaries: bool,
    platform: Platform,
) -> Seq<BackendLocation> {
    if platform == Platform::Windows {
        seq![
            sidecar_at(anchor, in_binaries, Name::SidecarTargetExe),
            sidecar_at(anchor, in_binaries, Name::SidecarExe),
        ]
    } else {
        seq![sidecar_at(anchor, in_binaries, Name::Sidecar)]
    }
}

/// The production candidates, in priority order: the executable's own
/// directory, the resource directory, the resource directory's `binaries`.
/// A directory that the host could not determine contributes nothing.
pub open spec fn spec_sidecar_candidates(env: Environment) -> Seq<BackendLocation> {
    (if env.executable_dir {
        sidecars_in(Anchor::ExecutableDir, false, env.platform)
    } else {
        seq![]
    }) + (if env.resource_dir {
        sidecars_in(Anchor::ResourceDir, false, env.platform) + sidecars_in(
            Anchor::ResourceDir,
            true,
            env.platform,
        )
    } else {
        seq![]
    })
}

/// The development candidates, in priority order: `backend` beside the
/// fourth and the third parent of the executable's directory, then in the
/// working directory and beside its first and second parent.
pub open spec fn spec_script_candidates(env: Environment) -> Seq<BackendLocation> {
    (if env.executable_dir {
        seq![
            BackendLocation::SourceScript { anchor: Anchor::ExecutableDir, ascend: 4 },
            BackendLocation::SourceScript { anchor: Anchor::ExecutableDir, ascend: 3 },
        ]
    } else {
        seq![]
    }) + (if env.working_dir {
        seq![
            BackendLocation::SourceScript { anchor: Anchor::WorkingDir, ascend: 0 },
            BackendLocation::SourceScript { anchor: Anchor::WorkingDir, ascend: 1 },
            BackendLocation::SourceScript { anchor: Anchor::WorkingDir, ascend: 2 },
        ]
    } else {
        seq![]
    })
}

/// Every candidate in priority order: production first, development after.
pub open spec fn spec_candidates(env: Environment) -> Seq<BackendLocation> {
    spec_sidecar_candidates(env) + spec_script_candidates(env)
}

fn push_sidecars(
    queue: &mut Vec<BackendLocation>,
    anchor: Anchor,
    in_binaries: bool,
    platform: Platform,
)
    ensures
        final(queue)@ == old(queue)@ + sidecars_in(anchor, in_binaries, platform),
{
    match platform {
        Platform::Windows => {
            queue.push(make_sidecar(anchor, in_binaries, Name::SidecarTargetExe));
            queue.push(make_sidecar(anchor, in_binaries, Name::SidecarExe));
        },
        Platform::Other => {
            queue.push(make_sidecar(anchor, in_binaries, Name::Sidecar));
        },
    }
    assert(queue@ =~= old(queue)@ + sidecars_in(anchor, in_binaries, platform));
}

fn make_sidecar(anchor: Anchor, in_binaries: bool, name: Name) -> (l: BackendLocation)
    ensures
        l == sidecar_at(anchor, in_binaries, name),
{
    let trail = if in_binaries {
        Trail::Two(Name::Binaries, name)
    } else {
        Trail::One(name)
    };
    BackendLocation::BundledSidecar { binary: Location { anchor, ascend: 0, trail } }
}

fn push_sidecar_candidates(queue: &mut Vec<BackendLocation>, env: Environment)
    ensures
        final(queue)@ == old(queue)@ + spec_sidecar_candidates(env),
{
    if env.executable_dir {
        push_sidecars(queue, Anchor::ExecutableDir, false, env.platform);
    }
    if env.resource_dir {
        push_sidecars(queue, Anchor::ResourceDir, false, env.platform);
        push_sidecars(queue, Anchor::ResourceDir, true, env.platform);
    }
    assert(queue@ =~= old(queue)@ + spec_sidecar_candidates(env));
}

fn push_script_candidates(queue: &mut Vec<BackendLocation>, env: Environment)
    ensures
        final(queue)@ == old(queue)@ + spec_script_candidates(env),
{
    if env.executable_dir {
        queue.push(BackendLocation::SourceScript { anchor: Anchor::ExecutableDir, ascend: 4 });
        queue.push(BackendLocation::SourceScript { anchor: Anchor::ExecutableDir, ascend: 3 });
    }
    if env.working_dir {
        queue.push(BackendLocation::SourceScript { anchor: Anchor::WorkingDir, ascend: 0 });
        queue.push(BackendLocation::SourceScript { anchor: Anchor::WorkingDir, ascend: 1 });
        queue.push(BackendLocation::SourceScript { anchor: Anchor::WorkingDir, ascend: 2 });
    }
    assert(queue@ =~= old(queue)@ + spec_script_candidates(env));
}

/// The production candidates, in priority order.
pub fn sidecar_candidates(env: Environment) -> (queue: Vec<BackendLocation>)
    ensures
        queue@ == spec_sidecar_candidates(env),
{
    let mut queue: Vec<BackendLocation> = Vec::new();
    push_sidecar_candidates(&mut queue, env);
    assert(queue@ =~= spec_sidecar_candidates(env));
    queue
}

/// The development candidates, in priority order.
pub fn script_candidates(env: Environment) -> (queue: Vec<BackendLocation>)
    ensures
        queue@ == spec_script_candidates(env),
{
    let mut queue: Vec<BackendLocation> = Vec::new();
    push_script_candidates(&mut queue, env);
    assert(queue@ =~= spec_script_candidates(env));
    queue
}

/// Every candidate in priority order.
pub fn candidates(env: Environment) -> (queue: Vec<BackendLocation>)
    ensures
        queue@ == spec_candidates(env),
{
    let mut queue: Vec<BackendLocation> = Vec::new();
    push_sidecar_candidates(&mut queue, env);
    push_script_candidates(&mut queue, env);
    assert(queue@ =~= spec_candidates(env));
    queue
}

/// The mathematical state of a search: the queue, how far it has come, and
/// whether it has ended on a hit.
pub struct Search {
    /// The candidates, in priority order.
    pub queue: Seq<BackendLocation>,
    /// The candidate under examination; every one before it is absent.
    pub cursor: nat,
    /// Whether the candidate at `cursor` was reported to exist.
    pub found: bool,
}

impl Search {
    /// A search through `queue` from its start.
    pub open spec fn start(queue: Seq<BackendLocation>) -> Search {
        Search { queue, cursor: 0, found: false }
    }

    /// Whether a probe is outstanding.
    pub open spec fn searching(self) -> bool {
        !self.found && self.cursor < self.queue.len()
    }

    /// The file the host must look for now, if the search is still on.
    pub open spec fn pending(self) -> Option<Location> {
        if self.searching() {
            Some(self.queue[self.cursor as int].spec_marker())
        } else {
            None
        }
    }

    /// The outcome, once no probe is outstanding.
    pub open spec fn result(self) -> Option<Resolution> {
        if self.searching() {
            None
        } else if self.found && self.cursor < self.queue.len() {
            Some(Resolution::Found(self.queue[self.cursor as int]))
        } else {
            Some(Resolution::NotFound)
        }
    }

    /// The search after the answer to the outstanding probe. A hit ends the
    /// search at the candidate under examination; a miss moves on to the
    /// next. Without an outstanding probe nothing changes.
    pub open spec fn record(self, exists: bool) -> Search {
        if !self.searching() {
            self
        } else if exists {
            Search { found: true, ..self }
        } else {
            Search { cursor: self.cursor + 1, ..self }
        }
    }

    /// A bound on the probes the search can still ask for.
    pub open spec fn fuel(self) -> nat {
        if self.searching() {
            (self.queue.len() - self.cursor) as nat
        } else {
            0
        }
    }

    /// The search carried to its end, when the files in `present` exist and
    /// no others.
    pub open spec fn run(self, present: Set<Location>) -> Search
        decreases self.fuel(),
    {
        match self.pending() {
            None => self,
            Some(marker) => self.record(present.contains(marker)).run(present),
        }
    }
}

/// A search through a queue of candidates.
#[derive(Debug)]
pub struct Locator {
    queue: Vec<BackendLocation>,
    cursor: usize,
    found: bool,
}

impl View for Locator {
    type V = Search;

    closed spec fn view(&self) -> Search {
        Search { queue: self.queue@, cursor: self.cursor as nat, found: self.found }
    }
}

impl Locator {
    /// A search through `queue` from its start.
    pub fn new(queue: Vec<BackendLocation>) -> (l: Locator)
        ensures
            l@ == Search::start(queue@),
    {
        Locator { queue, cursor: 0, found: false }
    }

    /// The full search: production candidates first, development after.
    pub fn resolve(env: Environment) -> (l: Locator)
        ensures
            l@ == Search::start(spec_candidates(env)),
    {
        Locator::new(candidates(env))
    }

    /// The search for a bundled sidecar alone.
    pub fn find_sidecar(env: Environment) -> (l: Locator)
        ensures
            l@ == Search::start(spec_sidecar_candidates(env)),
    {
        Locator::new(sidecar_candidates(env))
    }

    /// The search for a source checkout's backend directory alone.
    pub fn find_backend_dir(env: Environment) -> (l: Locator)
        ensures
            l@ == Search::start(spec_script_candidates(env)),
    {
        Locator::new(script_candidates(env))
    }

    /// The file the host must look for now, if the search is still on.
    pub fn pending(&self) -> (p: Option<Location>)
        ensures
            p == self@.pending(),
    {
        if !self.found && self.cursor < self.queue.len() {
            Some(self.queue[self.cursor].marker())
        } else {
            None
        }
    }

    /// Takes the answer to the outstanding probe, and moves on.
    pub fn record(&mut self, exists: bool)
        ensures
            final(self)@ == old(self)@.record(exists),
    {
        if !self.found && self.cursor < self.queue.len() {
            if exists {
                self.found = true;
            } else {
                self.cursor = self.cursor + 1;
            }
        }
    }

    /// The outcome, once no probe is outstanding.
    pub fn result(&self) -> (r: Option<Resolution>)
        ensures
            r == self@.result(),
    {
        if !self.found && self.cursor < self.queue.len() {
            None
        } else if self.found && self.cursor < self.queue.len() {
            Some(Resolution::Found(self.queue[self.cursor]))
        } else {
            Some(Resolution::NotFound)
        }
    }
}

/// The index at which a search through `queue` from `cursor` ends when the
/// files in `present` exist and no others: the first candidate from `cursor`
/// on whose marker is present, or the length of the queue if there is none.
pub open spec fn search_end(queue: Seq<BackendLocation>, present: Set<Location>, cursor: int) -> int
    decreases queue.len() - cursor,
{
    if cursor < 0 || cursor >= queue.len() {
        queue.len() as int
    } else if present.contains(queue[cursor].spec_marker()) {
        cursor
    } else {
        search_end(queue, present, cursor + 1)
    }
}

/// The outcome of the search through `queue` when the files in `present`
/// exist and no others.
pub open spec fn search_result(queue: Seq<BackendLocation>, present: Set<Location>) -> Resolution {
    let end = search_end(queue, present, 0);
    if end < queue.len() {
        Resolution::Found(queue[end])
    } else {
        Resolution::NotFound
    }
}

/// The search ends at the first candidate that exists, never at a later one:
/// no candidate before the end exists, and the end itself exists unless the
/// queue is exhausted.
pub proof fn lemma_search_end_is_first(
    queue: Seq<BackendLocation>,
    present: Set<Location>,
    cursor: int,
)
    requires
        0 <= cursor <= queue.len(),
    ensures
        cursor <= search_end(queue, present, cursor) <= queue.len(),
        forall|i: int|
            cursor <= i < search_end(queue, present, cursor) ==> !present.contains(
                #[trigger] queue[i].spec_marker(),
            ),
        search_end(queue, present, cursor) < queue.len() ==> present.contains(
            queue[search_end(queue, present, cursor)].spec_marker(),
        ),
    decreases queue.len() - cursor,
{
    if cursor < queue.len() && !present.contains(queue[cursor].spec_marker()) {
        lemma_search_end_is_first(queue, present, cursor + 1);
    }
}

/// The locator returns the first existing candidate in priority order. If
/// any candidate exists, the result is the one with the least index among
/// those that exist; if none does, the result is `NotFound`.
pub proof fn lemma_first_match_wins(queue: Seq<BackendLocation>, present: Set<Location>)
    ensures
        match search_result(queue, present) {
            Resolution::Found(location) => exists|i: int|
                {
                    &&& 0 <= i < queue.len()
                    &&& #[trigger] queue[i] == location
                    &&& present.contains(queue[i].spec_marker())
                    &&& forall|j: int|
                        0 <= j < i ==> !present.contains(#[trigger] queue[j].spec_marker())
                },
            Resolution::NotFound => forall|i: int|
                0 <= i < queue.len() ==> !present.contains(#[trigger] queue[i].spec_marker()),
        },
{
    lemma_search_end_is_first(queue, present, 0);
    let end = search_end(queue, present, 0);
    if end < queue.len() {
        // The end of the search is the witness.
        assert(queue[end] == search_result(queue, present)->Found_0);
    }
}

/// Probe by probe, the locator arrives where `search_end` says: a search
/// that has found nothing yet ends, once every probe is answered from
/// `present`, at the first existing candidate from its cursor on.
pub proof fn lemma_run_ends_at_first_match(s: Search, present: Set<Location>)
    requires
        !s.found,
        s.cursor <= s.queue.len(),
    ensures
        s.run(present).queue == s.queue,
        s.run(present).cursor == search_end(s.queue, present, s.cursor as int),
        s.run(present).found == (search_end(s.queue, present, s.cursor as int) < s.queue.len()),
        s.run(present).pending() is None,
        s.cursor == 0 ==> s.run(present).result() == Some(search_result(s.queue, present)),
    decreases s.fuel(),
{
    if s.cursor < s.queue.len() {
        let marker = s.queue[s.cursor as int].spec_marker();
        if !present.contains(marker) {
            lemma_run_ends_at_first_match(s.record(false), present);
        } else {
            let hit = s.record(true);
            assert(hit.pending() is None);
            assert(hit.run(present) == hit);
        }
    }
}

/// Every production candidate is a bundled sidecar.
proof fn lemma_sidecar_candidates_are_sidecars(env: Environment, k: int)
    requires
        0 <= k < spec_sidecar_candidates(env).len(),
    ensures
        spec_sidecar_candidates(env)[k] is BundledSidecar,
{
}

/// A production candidate that exists always beats a development candidate.
pub proof fn lemma_sidecar_beats_script(env: Environment, present: Set<Location>, i: int)
    requires
        0 <= i < spec_sidecar_candidates(env).len(),
        present.contains(spec_sidecar_candidates(env)[i].spec_marker()),
    ensures
        search_result(spec_candidates(env), present) is Found,
        search_result(spec_candidates(env), present)->Found_0 is BundledSidecar,
{
    let sidecars = spec_sidecar_candidates(env);
    let queue = sidecars + spec_script_candidates(env);
    lemma_search_end_is_first(queue, present, 0);
    let end = search_end(queue, present, 0);
    assert(queue[i] == sidecars[i]);
    if end > i {
        // No candidate before the end exists, yet candidate `i` does.
        assert(!present.contains(queue[i].spec_marker()));
    }
    assert(queue[end] == sidecars[end]);
    lemma_sidecar_candidates_are_sidecars(env, end);
}

} // verus!
