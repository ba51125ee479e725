//! How the backend is started: the command line, working directory and
//! environment of each of the two launch modes.

use vstd::prelude::*;
use crate::locator::{BackendLocation, Environment};
use crate::paths::{Anchor, Location, Platform};

verus! {

/// The process-creation flag that keeps Windows from opening a console
/// window for the child.
pub const CREATE_NO_WINDOW: u32 = 0x0800_0000;

/// The two ways to run the backend.
#[derive(Clone, Copy, Debug, PartialEq, Eq, Structural)]
pub enum LaunchMode {
    /// Production: the bundled executable.
    BundledSidecar,
    /// Development: the entry script, run by an interpreter.
    SourceScript,
}

/// An interpreter found by name on the search path of the system.
#[derive(Clone, Copy, Debug, PartialEq, Eq, Structural)]
pub enum SystemCommand {
    Python,
    Python3,
}

/// What is executed.
#[derive(Clone, Copy, Debug, PartialEq, Eq, Structural)]
pub enum Program {
    /// The file at a location.
    File(Location),
    /// A command that the system resolves.
    Command(SystemCommand),
}

/// The one flag the controller ever passes.
#[derive(Clone, Copy, Debug, PartialEq, Eq, Structural)]
pub enum Flag {
    /// Turns on the backend's voice interaction.
    Voice,
}

/// One command-line argument.
#[derive(Clone, Copy, Debug, PartialEq, Eq, Structural)]
pub enum Argument {
    File(Location),
    Flag(Flag),
}

/// Everything the host needs to start the backend once.
#[derive(Clone, Copy, Debug, PartialEq, Eq, Structural)]
pub struct LaunchPlan {
    pub mode: LaunchMode,
    pub program: Program,
    /// The entry script, passed as the first argument.
    pub script: Option<Location>,
    /// The flag passed after the script.
    pub flag: Option<Flag>,
    /// The directory the child starts in; `None` leaves it where the host is.
    pub working_dir: Option<Location>,
    /// The directory the interpreter's module search path is pointed at.
    pub search_path: Option<Location>,
    /// Whether the child writes to the host's own output and error streams.
    /// Always so: the output is never captured.
    pub inherit_output: bool,
    /// Whether the child is created without a console window.
    pub hide_console: bool,
}

impl SystemCommand {
    /// The command as typed.
    pub open spec fn spec_text(self) -> Seq<char> {
        match self {
            SystemCommand::Python => "python"@,
            SystemCommand::Python3 => "python3"@,
        }
    }

    /// The command as typed.
    pub fn text(self) -> (s: &'static str)
        ensures
            s@ == self.spec_text(),
    {
        match self {
            SystemCommand::Python => "python",
            SystemCommand::Python3 => "python3",
        }
    }
}

impl Flag {
    /// The flag as typed.
    pub open spec fn spec_text(self) -> Seq<char> {
        match self {
            Flag::Voice => "--voice"@,
        }
    }

    /// The flag as typed.
    pub fn text(self) -> (s: &'static str)
        ensures
            s@ == self.spec_text(),
    {
        match self {
            Flag::Voice => "--voice",
        }
    }
}

/// The name of the environment variable that carries the module search path.
pub fn search_path_variable() -> (s: &'static str)
    ensures
        s@ == "PYTHONPATH"@,
{
    "PYTHONPATH"
}

/// The directory a sidecar starts in: the resource directory if the host
/// knows it, else the executable's directory, else wherever the host is.
pub open spec fn spec_sidecar_working_dir(env: Environment) -> Option<Location> {
    if env.resource_dir {
        Some(Location::spec_at(Anchor::ResourceDir))
    } else if env.executable_dir {
        Some(Location::spec_at(Anchor::ExecutableDir))
    } else {
        None
    }
}

/// The interpreter the system offers by name.
pub open spec fn spec_system_interpreter(platform: Platform) -> SystemCommand {
    if platform == Platform::Windows {
        SystemCommand::Python
    } else {
        SystemCommand::Python3
    }
}

/// The plan for a backend at `location`. For a source checkout, `venv` says
/// whether the interpreter of the neighbouring virtual environment exists;
/// for a sidecar it has no bearing.
///
/// A sidecar is run as it is, without arguments. A source checkout is run by
/// the virtual environment's interpreter if there is one, by the system's
/// otherwise, with the entry script and the voice flag as arguments, from
/// the backend directory, with the module search path set to that directory.
pub open spec fn spec_plan(env: Environment, location: BackendLocation, venv: bool) -> LaunchPlan {
    match location {
        BackendLocation::BundledSidecar { binary } => LaunchPlan {
            mode: LaunchMode::BundledSidecar,
            program: Program::File(binary),
            script: None,
            flag: None,
            working_dir: spec_sidecar_working_dir(env),
            search_path: None,
            inherit_output: true,
            hide_console: env.platform == Platform::Windows,
        },
        BackendLocation::SourceScript { anchor, ascend } => LaunchPlan {
            mode: LaunchMode::SourceScript,
            program: if venv {
                Program::File(BackendLocation::spec_venv_interpreter(anchor, ascend, env.platform))
            } else {
                Program::Command(spec_system_interpreter(env.platform))
            },
            script: Some(location.spec_marker()),
            flag: Some(Flag::Voice),
            working_dir: Some(BackendLocation::spec_directory(anchor, ascend)),
            search_path: Some(BackendLocation::spec_directory(anchor, ascend)),
            inherit_output: true,
            hide_console: env.platform == Platform::Windows,
        },
    }
}

/// The plan for a backend at `location`.
pub fn plan(env: Environment, location: BackendLocation, venv: bool) -> (p: LaunchPlan)
    ensures
        p == spec_plan(env, location, venv),
{
    let hide_console = match env.platform {
        Platform::Windows => true,
        Platform::Other => false,
    };
    match location {
        BackendLocation::BundledSidecar { binary } => {
            let working_dir = if env.resource_dir {
                Some(Location::at(Anchor::ResourceDir))
            } else if env.executable_dir {
                Some(Location::at(Anchor::ExecutableDir))
            } else {
                None
            };
            LaunchPlan {
                mode: LaunchMode::BundledSidecar,
                program: Program::File(binary),
                script: None,
                flag: None,
                working_dir,
                search_path: None,
                inherit_output: true,
                hide_console,
            }
        },
        BackendLocation::SourceScript { anchor, ascend } => {
            let program = if venv {
                Program::File(BackendLocation::venv_interpreter(anchor, ascend, env.platform))
            } else {
                match env.platform {
                    Platform::Windows => Program::Command(SystemCommand::Python),
                    Platform::Other => Program::Command(SystemCommand::Python3),
                }
            };
            let directory = BackendLocation::directory(anchor, ascend);
            LaunchPlan {
                mode: LaunchMode::SourceScript,
                program,
                script: Some(location.marker()),
                flag: Some(Flag::Voice),
                working_dir: Some(directory),
                search_path: Some(directory),
                inherit_output: true,
                hide_console,
            }
        },
    }
}

impl LaunchPlan {
    /// The command-line arguments, in order: the script if there is one,
    /// then the flag if there is one.
    pub open spec fn spec_arguments(self) -> Seq<Argument> {
        (match self.script {
            Some(script) => seq![Argument::File(script)],
            None => seq![],
        }) + (match self.flag {
            Some(flag) => seq![Argument::Flag(flag)],
            None => seq![],
        })
    }

    /// The command-line arguments, in order.
    pub fn arguments(&self) -> (args: Vec<Argument>)
        ensures
            args@ == self.spec_arguments(),
    {
        let mut args: Vec<Argument> = Vec::new();
        if let Some(script) = self.script {
            args.push(Argument::File(script));
        }
        if let Some(flag) = self.flag {
            args.push(Argument::Flag(flag));
        }
        assert(args@ =~= self.spec_arguments());
        args
    }
}

/// Whatever is launched, its output is inherited and never captured, and on
/// Windows, and only there, it gets no console window. A sidecar takes no
/// argument; a script is always run with the voice flag, from its own
/// directory.
pub proof fn lemma_plan_policy(env: Environment, location: BackendLocation, venv: bool)
    ensures
        spec_plan(env, location, venv).inherit_output,
        spec_plan(env, location, venv).hide_console == (env.platform == Platform::Windows),
        location is BundledSidecar ==> spec_plan(env, location, venv).spec_arguments()
            == Seq::<Argument>::empty(),
        location is SourceScript ==> spec_plan(env, location, venv).spec_arguments() == seq![
            Argument::File(location.spec_marker()),
            Argument::Flag(Flag::Voice),
        ],
        location is SourceScript ==> spec_plan(env, location, venv).working_dir == spec_plan(
            env,
            location,
            venv,
        ).search_path,
{
    let p = spec_plan(env, location, venv);
    if location is BundledSidecar {
        assert(p.spec_arguments() =~= Seq::<Argument>::empty());
    } else {
        assert(p.spec_arguments() =~= seq![
            Argument::File(location.spec_marker()),
            Argument::Flag(Flag::Voice),
        ]);
    }
}

} // verus!
