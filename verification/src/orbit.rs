//! The top-level command: what an invocation asks for, and which of its
//! requests is served.

use crate::release::STALE_PREFIX;
use crate::text::equal;
use crate::upgrade::{Action, ActionView, StageView, Upgrade, UpgradeView};
use crate::version::Version;
use vstd::prelude::*;

verus! {

/// The commands of the tool.
#[derive(Clone, Copy, Debug, PartialEq, Eq, Structural)]
pub enum OrbitSubcommand {
    Help,
    New,
    Search,
    Plan,
    Build,
    Launch,
    Install,
    Tree,
    Get,
    Init,
    Show,
    Env,
    Config,
    Uninstall,
    Read,
    Download,
}

/// The command that goes by `name` on the command line, if any does.
pub open spec fn command_named(name: Seq<char>) -> Option<OrbitSubcommand> {
    if name == "get"@ {
        Some(OrbitSubcommand::Get)
    } else if name == "help"@ {
        Some(OrbitSubcommand::Help)
    } else if name == "new"@ {
        Some(OrbitSubcommand::New)
    } else if name == "search"@ {
        Some(OrbitSubcommand::Search)
    } else if name == "p"@ || name == "plan"@ {
        Some(OrbitSubcommand::Plan)
    } else if name == "b"@ || name == "build"@ {
        Some(OrbitSubcommand::Build)
    } else if name == "init"@ {
        Some(OrbitSubcommand::Init)
    } else if name == "download"@ {
        Some(OrbitSubcommand::Download)
    } else if name == "launch"@ {
        Some(OrbitSubcommand::Launch)
    } else if name == "install"@ {
        Some(OrbitSubcommand::Install)
    } else if name == "tree"@ {
        Some(OrbitSubcommand::Tree)
    } else if name == "show"@ {
        Some(OrbitSubcommand::Show)
    } else if name == "env"@ {
        Some(OrbitSubcommand::Env)
    } else if name == "config"@ {
        Some(OrbitSubcommand::Config)
    } else if name == "remove"@ {
        Some(OrbitSubcommand::Uninstall)
    } else if name == "read"@ {
        Some(OrbitSubcommand::Read)
    } else {
        None
    }
}

impl OrbitSubcommand {
    /// The command that goes by `name` on the command line.
    pub fn from_name(name: &str) -> (r: Option<OrbitSubcommand>)
        ensures
            r == command_named(name@),
    {
        if equal(name, "get") {
            Some(OrbitSubcommand::Get)
        } else if equal(name, "help") {
            Some(OrbitSubcommand::Help)
        } else if equal(name, "new") {
            Some(OrbitSubcommand::New)
        } else if equal(name, "search") {
            Some(OrbitSubcommand::Search)
        } else if equal(name, "p") || equal(name, "plan") {
            Some(OrbitSubcommand::Plan)
        } else if equal(name, "b") || equal(name, "build") {
            Some(OrbitSubcommand::Build)
        } else if equal(name, "init") {
            Some(OrbitSubcommand::Init)
        } else if equal(name, "download") {
            Some(OrbitSubcommand::Download)
        } else if equal(name, "launch") {
            Some(OrbitSubcommand::Launch)
        } else if equal(name, "install") {
            Some(OrbitSubcommand::Install)
        } else if equal(name, "tree") {
            Some(OrbitSubcommand::Tree)
        } else if equal(name, "show") {
            Some(OrbitSubcommand::Show)
        } else if equal(name, "env") {
            Some(OrbitSubcommand::Env)
        } else if equal(name, "config") {
            Some(OrbitSubcommand::Config)
        } else if equal(name, "remove") {
            Some(OrbitSubcommand::Uninstall)
        } else if equal(name, "read") {
            Some(OrbitSubcommand::Read)
        } else {
            None
        }
    }

    /// Tests whether the command runs without the usual checks: only the
    /// one that edits the configuration does.
    pub fn bypass_check(&self) -> (r: bool)
        ensures
            r == (*self is Config),
    {
        match self {
            OrbitSubcommand::Config => true,
            _ => false,
        }
    }

    /// Tests whether the command works on the execution context: every
    /// command but the one that prints help does.
    pub fn needs_context(&self) -> (r: bool)
        ensures
            r == !(*self is Help),
    {
        match self {
            OrbitSubcommand::Help => false,
            _ => true,
        }
    }
}

/// What an invocation asks for.
#[derive(Clone, Copy, Debug, PartialEq, Eq, Structural)]
pub struct Orbit {
    pub help: bool,
    pub upgrade: bool,
    pub version: bool,
    pub force: bool,
    pub command: Option<OrbitSubcommand>,
}

/// What an invocation does.
#[derive(Clone, Copy, Debug, PartialEq, Eq, Structural)]
pub enum Task {
    /// Print the version of the tool.
    PrintVersion,
    /// Look for a newer release and install it.
    Upgrade,
    /// Build the execution context and run this command on it.
    Run(OrbitSubcommand),
    /// Print the help text.
    PrintHelp,
}

/// Which request of an invocation is served: the version before an
/// update, an update before a command, and help where nothing is asked.
pub open spec fn task_of(orbit: Orbit) -> Task {
    if orbit.version {
        Task::PrintVersion
    } else if orbit.upgrade {
        Task::Upgrade
    } else {
        match orbit.command {
            Some(c) => Task::Run(c),
            None => Task::PrintHelp,
        }
    }
}

impl Orbit {
    /// An invocation from its flags and its command.
    pub fn new(
        help: bool,
        upgrade: bool,
        version: bool,
        force: bool,
        command: Option<OrbitSubcommand>,
    ) -> (r: Orbit)
        ensures
            r == (Orbit { help, upgrade, version, force, command }),
    {
        Orbit { help, upgrade, version, force, command }
    }

    /// Decides what the invocation does.
    pub fn run(&self) -> (r: Task)
        ensures
            r == task_of(*self),
    {
        if self.version {
            Task::PrintVersion
        } else if self.upgrade {
            Task::Upgrade
        } else {
            match self.command {
                Some(c) => Task::Run(c),
                None => Task::PrintHelp,
            }
        }
    }

    /// Begins the update that the invocation asks for: of the binary of
    /// version `current`, on the machine with architecture `arch`,
    /// operating system `os` and executables that end in `extension`. The
    /// user is asked before anything is installed unless the invocation
    /// forces the update.
    pub fn upgrade(&self, current: Version, arch: &str, os: &str, extension: &str) -> (r: (
        Upgrade,
        Action,
    ))
        ensures
            r.0@ == (UpgradeView {
                current,
                force: self.force,
                target: crate::release::target_of(arch@, os@),
                suffix: crate::release::suffix_of(extension@),
                stage: StageView::PurgingStale,
            }),
            r.1@ == (ActionView::PurgeStale { prefix: STALE_PREFIX@ }),
    {
        Upgrade::start(current, self.force, arch, os, extension)
    }
}

} // verus!
