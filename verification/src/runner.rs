//! Classifying the outcome of running an external tool.
//!
//! The launch itself is performed by the caller; what comes back — a spawn
//! failure, or an exit status — is classified here. A launch failure and a
//! non-zero exit are distinct conditions: the first names the binary, the
//! second carries the exit code (or its absence, when the process ended
//! without one).

use vstd::prelude::*;
use crate::errors::ExternalToolError;

verus! {

/// How an external process exited. `code` is `None` when the process was
/// terminated without a numeric exit code (e.g. by a signal).
#[derive(Clone, Copy, Debug)]
pub struct ToolExit {
    pub code: Option<i32>,
}

/// A successful exit is exactly exit code zero.
pub open spec fn spec_exit_success(exit: ToolExit) -> bool {
    exit.code == Some(0i32)
}

/// What became of an attempt to launch an external tool.
pub enum LaunchOutcome {
    /// The process ran to completion and exited as described.
    Exited { exit: ToolExit },
    /// The process could not be spawned at all (binary missing, not
    /// executable, or an OS-level error); carries the cause's description.
    LaunchFailed { message: String },
}

/// Judges a tool run: a launch failure is reported with the binary's name,
/// a non-zero or abnormal exit with its status, and only exit code zero
/// counts as success.
pub fn classify_tool_run(
    program: &String,
    outcome: LaunchOutcome,
) -> (result: Result<(), ExternalToolError>)
    ensures
        outcome matches LaunchOutcome::LaunchFailed { message } ==> (result matches Err(e)
            && (e matches ExternalToolError::FailedToExecute { tool_binary, message: m }
                && tool_binary@ == program@ && m@ == message@)),
        outcome matches LaunchOutcome::Exited { exit } ==> (if spec_exit_success(exit) {
            result is Ok
        } else {
            result matches Err(e)
                && (e matches ExternalToolError::ToolAborted { exit_code }
                    && exit_code == exit.code)
        }),
{
    match outcome {
        LaunchOutcome::LaunchFailed { message } => {
            Err(ExternalToolError::FailedToExecute {
                tool_binary: program.clone(),
                message,
            })
        },
        LaunchOutcome::Exited { exit } => {
            match exit.code {
                Some(code) => {
                    if code == 0 {
                        Ok(())
                    } else {
                        Err(ExternalToolError::ToolAborted { exit_code: exit.code })
                    }
                },
                None => Err(ExternalToolError::ToolAborted { exit_code: exit.code }),
            }
        },
    }
}

} // verus!
