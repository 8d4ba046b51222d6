//! The failures that the commands report.
use vstd::prelude::*;

verus! {

/// Why a command stopped.
#[derive(Debug)]
pub enum PinocError {
    /// The project name holds something other than letters, digits and `_`, or is empty.
    Validation { name: String },
    /// An external tool could not start or exited unsuccessfully.
    ToolInvocation { stderr: String, code: Option<i32> },
    /// A file that an earlier step should have produced is not there.
    MissingArtifact { path: String },
    /// The package manifest is missing or names no project.
    Configuration,
    /// Reading, writing or removing a file failed, as `detail` says.
    FileSystem { detail: String },
}

} // verus!
