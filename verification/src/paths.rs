//! Symbolic file-system locations.
//!
//! The controller never touches a real path. It names a place relative to a
//! directory that the host knows (an anchor), and the host turns the name into
//! a path: take the anchor, go up `ascend` parents, then descend through the
//! segments in order.

use vstd::prelude::*;

verus! {

/// The operating-system family the controller runs on.
#[derive(Clone, Copy, Debug, PartialEq, Eq, Structural)]
pub enum Platform {
    Windows,
    Other,
}

/// A directory whose real path only the host knows.
#[derive(Clone, Copy, Debug, PartialEq, Eq, Structural)]
pub enum Anchor {
    /// The directory that holds the running executable.
    ExecutableDir,
    /// The directory into which bundled resources are installed.
    ResourceDir,
    /// The current working directory.
    WorkingDir,
}

/// A file or directory name that the controller knows by heart.
#[derive(Clone, Copy, Debug, PartialEq, Eq, Structural)]
pub enum Name {
    Binaries,
    Backend,
    ServerScript,
    Sidecar,
    SidecarExe,
    SidecarTargetExe,
    VenvRoot,
    VenvScripts,
    Python,
    PythonExe,
}

impl Name {
    /// The name as it is written on disk.
    pub open spec fn spec_text(self) -> Seq<char> {
        match self {
            Name::Binaries => "binaries"@,
            Name::Backend => "backend"@,
            Name::ServerScript => "server.py"@,
            Name::Sidecar => "sakura-backend"@,
            Name::SidecarExe => "sakura-backend.exe"@,
            Name::SidecarTargetExe => "sakura-backend-x86_64-pc-windows-msvc.exe"@,
            Name::VenvRoot => "PA"@,
            Name::VenvScripts => "Scripts"@,
            Name::Python => "python"@,
            Name::PythonExe => "python.exe"@,
        }
    }

    /// The name as it is written on disk.
    pub fn text(self) -> (s: &'static str)
        ensures
            s@ == self.spec_text(),
    {
        match self {
            Name::Binaries => "binaries",
            Name::Backend => "backend",
            Name::ServerScript => "server.py",
            Name::Sidecar => "sakura-backend",
            Name::SidecarExe => "sakura-backend.exe",
            Name::SidecarTargetExe => "sakura-backend-x86_64-pc-windows-msvc.exe",
            Name::VenvRoot => "PA",
            Name::VenvScripts => "Scripts",
            Name::Python => "python",
            Name::PythonExe => "python.exe",
        }
    }
}

/// The names below an anchor's ancestor, outermost first: none, or up to three.
#[derive(Clone, Copy, Debug, PartialEq, Eq, Structural)]
pub enum Trail {
    Here,
    One(Name),
    Two(Name, Name),
    Three(Name, Name, Name),
}

impl Trail {
    /// The names of the trail, outermost first.
    pub open spec fn spec_names(self) -> Seq<Name> {
        match self {
            Trail::Here => seq![],
            Trail::One(a) => seq![a],
            Trail::Two(a, b) => seq![a, b],
            Trail::Three(a, b, c) => seq![a, b, c],
        }
    }

    /// The names of the trail, outermost first.
    pub fn names(self) -> (v: Vec<Name>)
        ensures
            v@ == self.spec_names(),
    {
        let mut v: Vec<Name> = Vec::new();
        match self {
            Trail::Here => {},
            Trail::One(a) => {
                v.push(a);
            },
            Trail::Two(a, b) => {
                v.push(a);
                v.push(b);
            },
            Trail::Three(a, b, c) => {
                v.push(a);
                v.push(b);
                v.push(c);
            },
        }
        assert(v@ =~= self.spec_names());
        v
    }
}

/// A place in the file system, named relative to an anchor: the anchor's
/// `ascend`-th parent, followed downwards through `trail`.
#[derive(Clone, Copy, Debug, PartialEq, Eq, Structural)]
pub struct Location {
    pub anchor: Anchor,
    pub ascend: u8,
    pub trail: Trail,
}

impl Location {
    /// The anchor directory itself.
    pub open spec fn spec_at(anchor: Anchor) -> Location {
        Location { anchor, ascend: 0, trail: Trail::Here }
    }

    /// The anchor directory itself.
    pub fn at(anchor: Anchor) -> (l: Location)
        ensures
            l == Location::spec_at(anchor),
    {
        Location { anchor, ascend: 0, trail: Trail::Here }
    }

    /// The segments to descend through, outermost first.
    pub fn segments(&self) -> (v: Vec<Name>)
        ensures
            v@ == self.trail.spec_names(),
    {
        self.trail.names()
    }
}

} // verus!
