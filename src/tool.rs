//! What an external tool run hands back, and how a command reads it.
use vstd::prelude::*;
use crate::error::PinocError;
use crate::text::{trim, trimmed};

verus! {

/// The captured result of one external process run (or of one file-system
/// step, which reports through the same shape with an empty `stdout`).
#[derive(Debug)]
pub struct ToolOutput {
    pub success: bool,
    pub code: Option<i32>,
    pub stdout: String,
    pub stderr: String,
}

/// The failure that an unsuccessful run becomes.
pub open spec fn is_tool_failure(e: PinocError, out: ToolOutput) -> bool {
    &&& e matches PinocError::ToolInvocation { stderr, code }
    &&& stderr@ == out.stderr@
    &&& code == out.code
}

/// A successful run gives its trimmed standard output; any other run fails
/// with its standard error and exit code.
pub fn tool_result(out: &ToolOutput) -> (r: Result<String, PinocError>)
    ensures
        out.success ==> (r matches Ok(s) && s@ == trimmed(out.stdout@)),
        !out.success ==> (r matches Err(e) && is_tool_failure(e, *out)),
{
    if out.success {
        Ok(trim(out.stdout.as_str()))
    } else {
        Err(PinocError::ToolInvocation { stderr: out.stderr.clone(), code: out.code })
    }
}

/// The invoking user's address: the trimmed output of a successful lookup,
/// or the empty string when the lookup failed.
pub fn default_address(out: &ToolOutput) -> (r: String)
    ensures
        out.success ==> r@ == trimmed(out.stdout@),
        !out.success ==> r@ == Seq::<char>::empty(),
{
    if out.success {
        trim(out.stdout.as_str())
    } else {
        String::new()
    }
}

} // verus!
