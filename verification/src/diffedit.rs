//! Reviewing and editing a tree-to-tree diff with an external tool.
//!
//! The orchestrator checks both trees out into sibling scratch directories
//! restricted to the paths that differ, lets the tool mutate the right
//! side, and snapshots that side back into a tree. Checkout, snapshot and
//! the process launch are collaborators; their outcomes enter here as plain
//! values. The structural diff that restricts the checkouts is
//! [`crate::tree::Tree::diff_paths`].

use vstd::prelude::*;
use crate::errors::{DiffEditError, ExternalToolError};
use crate::runner::{classify_tool_run, spec_exit_success, LaunchOutcome};
use crate::tools::MergeTool;
use crate::tree::Tree;

verus! {

/// Whether the instructions file should be written into the editable
/// directory: only when there are instructions to give and no file already
/// occupies the reserved name there.
pub fn wants_instructions_file(instructions: &String, file_already_exists: bool) -> (write: bool)
    ensures
        write == (instructions@.len() != 0 && !file_already_exists),
{
    !instructions.as_str().is_empty() && !file_already_exists
}

/// The command line for a diff editor: the configured `edit_args` followed
/// by the two directory paths, appended positionally rather than through
/// sigil substitution.
pub fn diff_editor_args(
    tool: &MergeTool,
    left_dir: &String,
    right_dir: &String,
) -> (args: Vec<String>)
    ensures
        args@.len() == tool.edit_args@.len() + 2,
        forall|i: int| 0 <= i < tool.edit_args@.len() ==> args@[i]@ == tool.edit_args@[i]@,
        args@[args@.len() - 2]@ == left_dir@,
        args@[args@.len() - 1]@ == right_dir@,
{
    let mut args: Vec<String> = Vec::new();
    let mut i: usize = 0;
    while i < tool.edit_args.len()
        invariant
            0 <= i <= tool.edit_args@.len(),
            args@.len() == i,
            forall|j: int| 0 <= j < i ==> args@[j]@ == tool.edit_args@[j]@,
        decreases tool.edit_args@.len() - i,
    {
        args.push(tool.edit_args[i].clone());
        i += 1;
    }
    args.push(left_dir.clone());
    args.push(right_dir.clone());
    args
}

/// Edits the diff between two trees, deciding on the outcomes the
/// collaborators reported, in the order the workflow performs them:
///
/// - `left_checkout`, `right_checkout`: materializing each tree into its
///   scratch directory (the left one is then made read-only and never
///   snapshotted; the right one is the editing target);
/// - `editor`: the resolved diff-editor spec (via
///   [`crate::tools::editor_name_from_settings`] and
///   [`crate::tools::get_tool_config`]), or the error resolution ended in;
/// - `launch`: how running the tool across the two directories went;
/// - `snapshot`: the tree the collaborator read back from the edited right
///   directory.
///
/// Only a tool run that exited successfully is followed by a snapshot, and
/// the snapshot tree is returned as the result unchanged; on any failure no
/// tree is produced.
pub fn edit_diff(
    left_checkout: Result<(), String>,
    right_checkout: Result<(), String>,
    editor: Result<MergeTool, ExternalToolError>,
    launch: LaunchOutcome,
    snapshot: Result<Tree, String>,
) -> (result: Result<Tree, DiffEditError>)
    ensures
        left_checkout matches Err(message) ==> (result matches Err(e)
            && (e matches DiffEditError::CheckoutError { message: m } && m@ == message@)),
        left_checkout is Ok ==> {
            &&& right_checkout matches Err(message) ==> (result matches Err(e)
                && (e matches DiffEditError::CheckoutError { message: m } && m@ == message@))
            &&& right_checkout is Ok ==> {
                &&& editor matches Err(err) ==> (result matches Err(e)
                    && (e matches DiffEditError::ExternalToolError(inner) && inner == err))
                &&& editor matches Ok(tool) ==> {
                    &&& launch matches LaunchOutcome::LaunchFailed { message } ==> (result
                        matches Err(e) && (e matches DiffEditError::ExternalToolError(inner) && (
                        inner matches ExternalToolError::FailedToExecute { tool_binary, message: m }
                        && tool_binary@ == tool.program@ && m@ == message@)))
                    &&& launch matches LaunchOutcome::Exited { exit } ==> {
                        &&& !spec_exit_success(exit) ==> (result matches Err(e) && (e
                            matches DiffEditError::ExternalToolError(inner) && (inner
                            matches ExternalToolError::ToolAborted { exit_code } && exit_code
                            == exit.code)))
                        &&& spec_exit_success(exit) ==> {
                            &&& snapshot matches Err(message) ==> (result matches Err(e)
                                && (e matches DiffEditError::SnapshotError { message: m } && m@
                                == message@))
                            &&& snapshot matches Ok(new_tree) ==> (result matches Ok(t) && t
                                == new_tree)
                        }
                    }
                }
            }
        },
{
    if let Err(message) = left_checkout {
        return Err(DiffEditError::CheckoutError { message });
    }
    if let Err(message) = right_checkout {
        return Err(DiffEditError::CheckoutError { message });
    }
    let tool = match editor {
        Err(err) => {
            return Err(DiffEditError::ExternalToolError(err));
        },
        Ok(tool) => tool,
    };
    if let Err(e) = classify_tool_run(&tool.program, launch) {
        return Err(DiffEditError::ExternalToolError(e));
    }
    match snapshot {
        Err(message) => Err(DiffEditError::SnapshotError { message }),
        Ok(new_tree) => Ok(new_tree),
    }
}

} // verus!
