//! The commands of the tool, as plain values.
use vstd::prelude::*;

verus! {

/// A parsed command line.
#[derive(Debug)]
pub struct Cli {
    pub command: Commands,
}

/// The subcommands of `keys`.
#[derive(Clone, Copy, Debug, PartialEq, Eq, Structural)]
pub enum KeyCommands {
    List,
    Sync,
}

/// What the tool is asked to do.
#[derive(Debug)]
pub enum Commands {
    /// Create project `project_name`; `no_git` skips the repository,
    /// `no_boilerplate` writes the minimal project.
    Init { project_name: String, no_git: bool, no_boilerplate: bool },
    Build,
    Test,
    /// Deploy the built program, with optional cluster and wallet overrides.
    Deploy { cluster: Option<String>, wallet: Option<String> },
    /// Remove the build output; keypairs are kept unless `no_preserve`.
    Clean { no_preserve: bool },
    Add { package_name: String },
    Search { query: Option<String> },
    Keys { command: KeyCommands },
    Help,
}

} // verus!
