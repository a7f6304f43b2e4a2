//! The error taxonomy shared by conflict reconciliation and diff editing.
//!
//! Every failure is a typed outcome; nothing is logged and swallowed. The
//! variants carry plain values (paths and diagnostic text as strings, exit
//! codes as integers) so that contracts can state exactly which inputs
//! produce which error.

use vstd::prelude::*;

verus! {

/// Failures of the machinery around an external tool: reading its
/// configuration, preparing scratch files, launching it, and judging how it
/// exited.
#[derive(Debug)]
pub enum ExternalToolError {
    /// The settings for the tool could not be read or decoded; carries the
    /// collaborator's description of what was wrong.
    ConfigError { message: String },
    /// The tool was requested as a merge editor but its settings define no
    /// merge argument template, so it cannot be invoked meaningfully.
    MergeArgsNotConfigured { tool_name: String },
    /// A scratch directory or scratch file could not be set up.
    SetUpDirError { message: String },
    /// The tool binary could not be launched at all (missing, not
    /// executable, or the spawn itself failed).
    FailedToExecute { tool_binary: String, message: String },
    /// The tool ran but did not exit successfully; `exit_code` is `None`
    /// when the process ended without a numeric code (e.g. by signal).
    ToolAborted { exit_code: Option<i32> },
    /// Any other I/O failure while shuttling file contents.
    IoError { message: String },
}

/// Failures of the diff-editing workflow.
#[derive(Debug)]
pub enum DiffEditError {
    ExternalToolError(ExternalToolError),
    /// One of the two sides could not be checked out into its scratch
    /// directory.
    CheckoutError { message: String },
    /// The edited side could not be snapshotted back into a tree.
    SnapshotError { message: String },
}

/// Failures of conflict reconciliation.
#[derive(Debug)]
pub enum ConflictResolveError {
    ExternalToolError(ExternalToolError),
    /// The requested path does not exist in the tree.
    PathNotFoundError { path: String },
    /// The requested path exists but holds no conflict.
    NotAConflictError { path: String },
    /// The conflict involves content other than ordinary files; carries a
    /// rendered summary of the conflict for diagnostics.
    NotNormalFilesError { path: String, summary: String },
    /// The conflict's shape exceeds one remove and two adds; carries the
    /// actual counts.
    ConflictTooComplicatedError { path: String, removes: usize, adds: usize },
    /// The output file was empty or byte-identical to its pre-seeded
    /// content after the tool exited: the user made no effective change.
    EmptyOrUnchanged,
    /// The object store failed while reading or writing conflict data.
    BackendError { message: String },
}

} // verus!
