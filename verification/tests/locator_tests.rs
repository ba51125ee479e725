use sakura_shell::locator::{
    candidates, script_candidates, sidecar_candidates, BackendLocation, Environment, Locator,
    Resolution,
};
use sakura_shell::paths::{Anchor, Location, Name, Platform, Trail};

fn env(platform: Platform, exe: bool, res: bool, cwd: bool) -> Environment {
    Environment { platform, executable_dir: exe, resource_dir: res, working_dir: cwd }
}

fn sidecar(anchor: Anchor, trail: Trail) -> BackendLocation {
    BackendLocation::BundledSidecar { binary: Location { anchor, ascend: 0, trail } }
}

fn script(anchor: Anchor, ascend: u8) -> BackendLocation {
    BackendLocation::SourceScript { anchor, ascend }
}

/// Runs a locator against a set of existing files; returns the outcome and
/// the files that were probed, in order.
fn search(mut locator: Locator, present: &[Location]) -> (Resolution, Vec<Location>) {
    let mut probed = Vec::new();
    while let Some(marker) = locator.pending() {
        probed.push(marker);
        locator.record(present.contains(&marker));
    }
    (locator.result().unwrap(), probed)
}

#[test]
fn names_are_spelled_as_on_disk() {
    assert_eq!(Name::Binaries.text(), "binaries");
    assert_eq!(Name::Backend.text(), "backend");
    assert_eq!(Name::ServerScript.text(), "server.py");
    assert_eq!(Name::Sidecar.text(), "sakura-backend");
    assert_eq!(Name::SidecarExe.text(), "sakura-backend.exe");
    assert_eq!(Name::SidecarTargetExe.text(), "sakura-backend-x86_64-pc-windows-msvc.exe");
    assert_eq!(Name::VenvRoot.text(), "PA");
    assert_eq!(Name::VenvScripts.text(), "Scripts");
    assert_eq!(Name::Python.text(), "python");
    assert_eq!(Name::PythonExe.text(), "python.exe");
}

#[test]
fn trail_lists_its_names_outermost_first() {
    assert_eq!(Trail::Here.names(), Vec::<Name>::new());
    assert_eq!(Trail::One(Name::Backend).names(), vec![Name::Backend]);
    assert_eq!(
        Trail::Three(Name::VenvRoot, Name::VenvScripts, Name::Python).names(),
        vec![Name::VenvRoot, Name::VenvScripts, Name::Python]
    );
    let l = Location {
        anchor: Anchor::ResourceDir,
        ascend: 0,
        trail: Trail::Two(Name::Binaries, Name::Sidecar),
    };
    assert_eq!(l.segments(), vec![Name::Binaries, Name::Sidecar]);
    assert_eq!(
        Location::at(Anchor::WorkingDir),
        Location { anchor: Anchor::WorkingDir, ascend: 0, trail: Trail::Here }
    );
}

#[test]
fn sidecar_candidates_on_unix_in_priority_order() {
    let got = sidecar_candidates(env(Platform::Other, true, true, true));
    assert_eq!(
        got,
        vec![
            sidecar(Anchor::ExecutableDir, Trail::One(Name::Sidecar)),
            sidecar(Anchor::ResourceDir, Trail::One(Name::Sidecar)),
            sidecar(Anchor::ResourceDir, Trail::Two(Name::Binaries, Name::Sidecar)),
        ]
    );
}

#[test]
fn sidecar_candidates_on_windows_try_the_target_name_first() {
    let got = sidecar_candidates(env(Platform::Windows, true, true, false));
    assert_eq!(
        got,
        vec![
            sidecar(Anchor::ExecutableDir, Trail::One(Name::SidecarTargetExe)),
            sidecar(Anchor::ExecutableDir, Trail::One(Name::SidecarExe)),
            sidecar(Anchor::ResourceDir, Trail::One(Name::SidecarTargetExe)),
            sidecar(Anchor::ResourceDir, Trail::One(Name::SidecarExe)),
            sidecar(Anchor::ResourceDir, Trail::Two(Name::Binaries, Name::SidecarTargetExe)),
            sidecar(Anchor::ResourceDir, Trail::Two(Name::Binaries, Name::SidecarExe)),
        ]
    );
}

#[test]
fn unknown_directories_contribute_no_candidates() {
    assert_eq!(sidecar_candidates(env(Platform::Other, false, false, true)), vec![]);
    assert_eq!(
        sidecar_candidates(env(Platform::Other, false, true, true)),
        vec![
            sidecar(Anchor::ResourceDir, Trail::One(Name::Sidecar)),
            sidecar(Anchor::ResourceDir, Trail::Two(Name::Binaries, Name::Sidecar)),
        ]
    );
    assert_eq!(script_candidates(env(Platform::Other, false, true, false)), vec![]);
    assert_eq!(
        script_candidates(env(Platform::Other, false, true, true)),
        vec![
            script(Anchor::WorkingDir, 0),
            script(Anchor::WorkingDir, 1),
            script(Anchor::WorkingDir, 2),
        ]
    );
}

#[test]
fn script_candidates_in_priority_order() {
    assert_eq!(
        script_candidates(env(Platform::Other, true, false, true)),
        vec![
            script(Anchor::ExecutableDir, 4),
            script(Anchor::ExecutableDir, 3),
            script(Anchor::WorkingDir, 0),
            script(Anchor::WorkingDir, 1),
            script(Anchor::WorkingDir, 2),
        ]
    );
}

#[test]
fn all_candidates_put_production_first() {
    let e = env(Platform::Other, true, true, true);
    let mut expected = sidecar_candidates(e);
    expected.extend(script_candidates(e));
    assert_eq!(candidates(e), expected);
    assert_eq!(candidates(e).len(), 8);
}

#[test]
fn markers_and_neighbours_of_a_checkout() {
    let s = script(Anchor::ExecutableDir, 3);
    assert_eq!(
        s.marker(),
        Location {
            anchor: Anchor::ExecutableDir,
            ascend: 3,
            trail: Trail::Two(Name::Backend, Name::ServerScript)
        }
    );
    assert_eq!(
        BackendLocation::directory(Anchor::ExecutableDir, 3),
        Location { anchor: Anchor::ExecutableDir, ascend: 3, trail: Trail::One(Name::Backend) }
    );
    assert_eq!(
        BackendLocation::venv_interpreter(Anchor::WorkingDir, 1, Platform::Windows),
        Location {
            anchor: Anchor::WorkingDir,
            ascend: 1,
            trail: Trail::Three(Name::VenvRoot, Name::VenvScripts, Name::PythonExe)
        }
    );
    assert_eq!(
        BackendLocation::venv_interpreter(Anchor::WorkingDir, 1, Platform::Other),
        Location {
            anchor: Anchor::WorkingDir,
            ascend: 1,
            trail: Trail::Three(Name::VenvRoot, Name::VenvScripts, Name::Python)
        }
    );
    let b = sidecar(Anchor::ResourceDir, Trail::One(Name::Sidecar));
    assert_eq!(
        b.marker(),
        Location { anchor: Anchor::ResourceDir, ascend: 0, trail: Trail::One(Name::Sidecar) }
    );
}

#[test]
fn locator_returns_the_first_existing_match() {
    let e = env(Platform::Other, true, true, true);
    let all = candidates(e);
    // Candidates 2, 4 and 7 exist: the locator must end on 2.
    let present = vec![all[7].marker(), all[2].marker(), all[4].marker()];
    let (result, probed) = search(Locator::resolve(e), &present);
    assert_eq!(result, Resolution::Found(all[2]));
    assert_eq!(probed, vec![all[0].marker(), all[1].marker(), all[2].marker()]);
}

#[test]
fn locator_prefers_a_sidecar_over_a_checkout() {
    let e = env(Platform::Windows, true, true, true);
    let sidecars = sidecar_candidates(e);
    let scripts = script_candidates(e);
    let present = vec![scripts[0].marker(), sidecars[5].marker()];
    let (result, _) = search(Locator::resolve(e), &present);
    assert_eq!(result, Resolution::Found(sidecars[5]));
}

#[test]
fn locator_finds_nothing_when_nothing_exists() {
    let e = env(Platform::Other, true, true, true);
    let (result, probed) = search(Locator::resolve(e), &[]);
    assert_eq!(result, Resolution::NotFound);
    assert_eq!(probed.len(), 8);
}

#[test]
fn locator_over_an_empty_queue_is_done_at_once() {
    let locator = Locator::new(Vec::new());
    assert_eq!(locator.pending(), None);
    assert_eq!(locator.result(), Some(Resolution::NotFound));
}

#[test]
fn locator_ignores_reports_after_the_end() {
    let e = env(Platform::Other, true, false, false);
    let mut locator = Locator::find_sidecar(e);
    assert_eq!(locator.result(), None);
    locator.record(true);
    let found = locator.result();
    assert_eq!(
        found,
        Some(Resolution::Found(sidecar(Anchor::ExecutableDir, Trail::One(Name::Sidecar))))
    );
    locator.record(false);
    locator.record(true);
    assert_eq!(locator.result(), found);
    assert_eq!(locator.pending(), None);
}

#[test]
fn find_backend_dir_searches_checkouts_only() {
    let e = env(Platform::Other, true, true, true);
    let scripts = script_candidates(e);
    let sidecars = sidecar_candidates(e);
    let present = vec![sidecars[0].marker(), scripts[3].marker(), scripts[4].marker()];
    let (result, probed) = search(Locator::find_backend_dir(e), &present);
    assert_eq!(result, Resolution::Found(script(Anchor::WorkingDir, 1)));
    assert_eq!(probed.len(), 4);
}
