//! Reconciling a single path's conflict with an external merge tool.
//!
//! The reconciler validates the conflict's shape, assigns its sides to the
//! role files handed to the tool, judges the tool's outcome and its output
//! file, and builds the new tree. The surrounding collaborators — the store
//! that materializes and reparses conflicts, the scratch filesystem, the
//! process launcher — run outside; their outcomes enter here as plain
//! values, and the decision taken on every outcome is verified.

use vstd::prelude::*;
use crate::errors::{ConflictResolveError, ExternalToolError};
use crate::runner::{classify_tool_run, spec_exit_success, LaunchOutcome};
use crate::tools::MergeTool;
use crate::tree::{Tree, TreeValue};

verus! {

/// A conflict at one path, materialized as a single hunk: the ordered
/// base-side contents (`removes`) and side contents (`adds`).
pub struct ConflictHunk {
    pub removes: Vec<Vec<u8>>,
    pub adds: Vec<Vec<u8>>,
}

/// The contents written to the three read-only role files.
pub struct RoleContents {
    pub base: Vec<u8>,
    pub left: Vec<u8>,
    pub right: Vec<u8>,
}

/// The only conflict shape a merge tool is handed: at most one remove and
/// at most two adds. Anything larger is rejected, never truncated.
pub open spec fn spec_shape_supported(hunk: ConflictHunk) -> bool {
    hunk.removes@.len() <= 1 && hunk.adds@.len() <= 2
}

/// Accepts the hunk's shape or rejects it with the actual counts.
pub fn validate_conflict_shape(
    hunk: &ConflictHunk,
    path: &String,
) -> (result: Result<(), ConflictResolveError>)
    ensures
        result is Ok <==> spec_shape_supported(*hunk),
        !spec_shape_supported(*hunk) ==> (result matches Err(e)
            && (e matches ConflictResolveError::ConflictTooComplicatedError {
                path: p,
                removes,
                adds,
            } && p@ == path@ && removes == hunk.removes@.len() && adds == hunk.adds@.len())),
{
    if hunk.removes.len() > 1 || hunk.adds.len() > 2 {
        Err(ConflictResolveError::ConflictTooComplicatedError {
            path: path.clone(),
            removes: hunk.removes.len(),
            adds: hunk.adds.len(),
        })
    } else {
        Ok(())
    }
}

/// What the base role file holds: the single remove, or nothing.
pub open spec fn spec_base_content(hunk: ConflictHunk) -> Seq<u8> {
    if hunk.removes@.len() >= 1 {
        hunk.removes@[hunk.removes@.len() - 1]@
    } else {
        Seq::<u8>::empty()
    }
}

/// What the right role file holds: the last add, or nothing.
pub open spec fn spec_right_content(hunk: ConflictHunk) -> Seq<u8> {
    if hunk.adds@.len() >= 1 {
        hunk.adds@[hunk.adds@.len() - 1]@
    } else {
        Seq::<u8>::empty()
    }
}

/// What the left role file holds: the add before the last, or nothing.
pub open spec fn spec_left_content(hunk: ConflictHunk) -> Seq<u8> {
    if hunk.adds@.len() >= 2 {
        hunk.adds@[hunk.adds@.len() - 2]@
    } else {
        Seq::<u8>::empty()
    }
}

/// Assigns the hunk's sides to the role files. The adds are consumed from
/// the back: the last add becomes `right`, the one before it `left`, so with
/// two adds the first is `left` and the second `right`, and with a single
/// add it is `right` while `left` stays empty.
pub fn assign_roles(hunk: ConflictHunk) -> (roles: RoleContents)
    requires
        spec_shape_supported(hunk),
    ensures
        roles.base@ == spec_base_content(hunk),
        roles.left@ == spec_left_content(hunk),
        roles.right@ == spec_right_content(hunk),
{
    let mut removes = hunk.removes;
    let mut adds = hunk.adds;
    let base = match removes.pop() {
        Some(content) => content,
        None => Vec::new(),
    };
    let right = match adds.pop() {
        Some(content) => content,
        None => Vec::new(),
    };
    let left = match adds.pop() {
        Some(content) => content,
        None => Vec::new(),
    };
    RoleContents { base, left, right }
}

/// Byte-for-byte comparison of two buffers.
pub fn bytes_equal(a: &Vec<u8>, b: &Vec<u8>) -> (eq: bool)
    ensures
        eq == (a@ == b@),
{
    if a.len() != b.len() {
        return false;
    }
    let mut i: usize = 0;
    while i < a.len()
        invariant
            0 <= i <= a@.len(),
            a@.len() == b@.len(),
            forall|j: int| 0 <= j < i ==> a@[j] == b@[j],
        decreases a@.len() - i,
    {
        if a[i] != b[i] {
            return false;
        }
        i += 1;
    }
    proof {
        assert(a@ =~= b@);
    }
    true
}

/// The content the output file is pre-seeded with before the tool runs: the
/// conflict rendered with markers when the tool edits markers, empty
/// otherwise.
pub open spec fn spec_initial_output(edits_conflict_markers: bool, materialized: Seq<u8>) -> Seq<
    u8,
> {
    if edits_conflict_markers {
        materialized
    } else {
        Seq::<u8>::empty()
    }
}

/// Builds the output file's pre-seeded content; `materialized` is the
/// conflict rendered with markers, as produced by the store collaborator.
pub fn initial_output_content(
    edits_conflict_markers: bool,
    materialized: &Vec<u8>,
) -> (content: Vec<u8>)
    ensures
        content@ == spec_initial_output(edits_conflict_markers, materialized@),
{
    if edits_conflict_markers {
        let mut content: Vec<u8> = Vec::new();
        let mut i: usize = 0;
        while i < materialized.len()
            invariant
                0 <= i <= materialized@.len(),
                content@ == materialized@.subrange(0, i as int),
            decreases materialized@.len() - i,
        {
            content.push(materialized[i]);
            proof {
                assert(content@ =~= materialized@.subrange(0, i as int + 1));
            }
            i += 1;
        }
        proof {
            assert(content@ =~= materialized@);
        }
        content
    } else {
        Vec::new()
    }
}

/// The user made no effective change: the output file is empty, or
/// byte-identical to what it was pre-seeded with.
pub open spec fn spec_output_unchanged(output: Seq<u8>, initial: Seq<u8>) -> bool {
    output.len() == 0 || output == initial
}

/// Accepts the tool's output only if the user changed it: an output that is
/// empty or still equal to its pre-seeded content fails.
pub fn check_output_changed(
    output: &Vec<u8>,
    initial: &Vec<u8>,
) -> (result: Result<(), ConflictResolveError>)
    ensures
        result is Ok <==> !spec_output_unchanged(output@, initial@),
        spec_output_unchanged(output@, initial@) ==> (result matches Err(e)
            && e is EmptyOrUnchanged),
{
    if output.len() == 0 || bytes_equal(output, initial) {
        Err(ConflictResolveError::EmptyOrUnchanged)
    } else {
        Ok(())
    }
}

/// Reconciles the conflict at `repo_path` in `tree`, deciding on the
/// outcomes the collaborators reported:
///
/// - `extraction`: the store's materialization of the conflict as a single
///   ordinary-file hunk — `Err` for a store failure, `Ok(None)` when the
///   conflict mixes non-file content;
/// - `conflict_summary`: the rendered description used when extraction
///   finds non-file content;
/// - `editor`: the resolved merge-editor spec (via
///   [`crate::tools::editor_name_from_settings`],
///   [`crate::tools::get_tool_config`] and
///   [`crate::tools::check_merge_tool`]), or the error resolution ended in;
/// - `materialized_conflict`: the conflict rendered with markers, seeding
///   the output file when the tool edits markers;
/// - `launch`: how running the tool went;
/// - `output_file_contents`: the output role file read back afterwards;
/// - `reparse`: the store's reading of the output as marker-annotated
///   conflict text — `Ok(Some(id))` an updated, still unresolved conflict,
///   `Ok(None)` full resolution, `Err` a store failure; consulted only when
///   the tool edits markers;
/// - `new_file_id`: the id the store assigned to the output bytes written
///   as a file.
///
/// On success the result is the input tree with exactly the one path
/// replaced — by the updated conflict if marker parsing found leftovers,
/// by an ordinary non-executable file of the output's content otherwise.
/// On any failure no tree is produced, so nothing partial is ever
/// committed.
pub fn run_mergetool(
    tree: &Tree,
    repo_path: &String,
    extraction: Result<Option<ConflictHunk>, String>,
    conflict_summary: String,
    editor: Result<MergeTool, ExternalToolError>,
    materialized_conflict: Vec<u8>,
    launch: LaunchOutcome,
    output_file_contents: Vec<u8>,
    reparse: Result<Option<u64>, String>,
    new_file_id: u64,
) -> (result: Result<Tree, ConflictResolveError>)
    requires
        tree.wf(),
    ensures
        tree.spec_value_at(repo_path@) is None ==> (result matches Err(e)
            && (e matches ConflictResolveError::PathNotFoundError { path } && path@
                == repo_path@)),
        (tree.spec_value_at(repo_path@) matches Some(v) && !(v is Conflict)) ==> (result matches Err(
            e,
        ) && (e matches ConflictResolveError::NotAConflictError { path } && path@ == repo_path@)),
        (tree.spec_value_at(repo_path@) matches Some(v) && v is Conflict) ==> {
            &&& extraction matches Err(message) ==> (result matches Err(e)
                && (e matches ConflictResolveError::BackendError { message: m } && m@ == message@))
            &&& extraction matches Ok(None) ==> (result matches Err(e)
                && (e matches ConflictResolveError::NotNormalFilesError { path, summary } && path@
                    == repo_path@ && summary@ == conflict_summary@))
            &&& extraction matches Ok(Some(hunk)) ==> {
                &&& !spec_shape_supported(hunk) ==> (result matches Err(e) && (e
                    matches ConflictResolveError::ConflictTooComplicatedError {
                    path,
                    removes,
                    adds,
                } && path@ == repo_path@ && removes == hunk.removes@.len() && adds
                    == hunk.adds@.len()))
                &&& spec_shape_supported(hunk) ==> {
                    &&& editor matches Err(err) ==> (result matches Err(e)
                        && (e matches ConflictResolveError::ExternalToolError(inner) && inner
                        == err))
                    &&& editor matches Ok(tool) ==> {
                        &&& launch matches LaunchOutcome::LaunchFailed { message } ==> (result
                            matches Err(e) && (e
                            matches ConflictResolveError::ExternalToolError(inner) && (inner
                            matches ExternalToolError::FailedToExecute { tool_binary, message: m }
                            && tool_binary@ == tool.program@ && m@ == message@)))
                        &&& launch matches LaunchOutcome::Exited { exit } ==> {
                            &&& !spec_exit_success(exit) ==> (result matches Err(e) && (e
                                matches ConflictResolveError::ExternalToolError(inner) && (inner
                                matches ExternalToolError::ToolAborted { exit_code } && exit_code
                                == exit.code)))
                            &&& spec_exit_success(exit) ==> {
                                &&& spec_output_unchanged(
                                    output_file_contents@,
                                    spec_initial_output(
                                        tool.merge_tool_edits_conflict_markers,
                                        materialized_conflict@,
                                    ),
                                ) ==> (result matches Err(e) && e is EmptyOrUnchanged)
                                &&& !spec_output_unchanged(
                                    output_file_contents@,
                                    spec_initial_output(
                                        tool.merge_tool_edits_conflict_markers,
                                        materialized_conflict@,
                                    ),
                                ) ==> {
                                    &&& reparse matches Err(message) ==> (
                                    tool.merge_tool_edits_conflict_markers ==> (result matches Err(
                                        e,
                                    ) && (e matches ConflictResolveError::BackendError {
                                        message: m,
                                    } && m@ == message@)))
                                    &&& reparse matches Ok(Some(new_conflict_id)) ==> (
                                    tool.merge_tool_edits_conflict_markers ==> (result matches Ok(
                                        new_tree,
                                    ) && new_tree.wf() && new_tree.spec_value_at(repo_path@)
                                        == Some(TreeValue::Conflict { id: new_conflict_id }) && (
                                    forall|q: Seq<char>|
                                        q != repo_path@ ==> new_tree.spec_value_at(q)
                                            == tree.spec_value_at(q))))
                                    &&& (!tool.merge_tool_edits_conflict_markers || reparse
                                        matches Ok(None)) ==> (result matches Ok(new_tree)
                                        && new_tree.wf() && new_tree.spec_value_at(repo_path@)
                                        == Some(
                                        TreeValue::File { id: new_file_id, executable: false },
                                    ) && (forall|q: Seq<char>|
                                        q != repo_path@ ==> new_tree.spec_value_at(q)
                                            == tree.spec_value_at(q)))
                                }
                            }
                        }
                    }
                }
            }
        },
{
    match tree.path_value(repo_path) {
        None => {
            return Err(ConflictResolveError::PathNotFoundError { path: repo_path.clone() });
        },
        Some(TreeValue::Conflict { .. }) => {},
        Some(_) => {
            return Err(ConflictResolveError::NotAConflictError { path: repo_path.clone() });
        },
    }
    let hunk = match extraction {
        Err(message) => {
            return Err(ConflictResolveError::BackendError { message });
        },
        Ok(None) => {
            return Err(ConflictResolveError::NotNormalFilesError {
                path: repo_path.clone(),
                summary: conflict_summary,
            });
        },
        Ok(Some(hunk)) => hunk,
    };
    if let Err(e) = validate_conflict_shape(&hunk, repo_path) {
        return Err(e);
    }
    let tool = match editor {
        Err(err) => {
            return Err(ConflictResolveError::ExternalToolError(err));
        },
        Ok(tool) => tool,
    };
    if let Err(e) = classify_tool_run(&tool.program, launch) {
        return Err(ConflictResolveError::ExternalToolError(e));
    }
    let initial = initial_output_content(
        tool.merge_tool_edits_conflict_markers,
        &materialized_conflict,
    );
    if let Err(e) = check_output_changed(&output_file_contents, &initial) {
        return Err(e);
    }
    let new_value = if tool.merge_tool_edits_conflict_markers {
        match reparse {
            Err(message) => {
                return Err(ConflictResolveError::BackendError { message });
            },
            Ok(Some(new_conflict_id)) => TreeValue::Conflict { id: new_conflict_id },
            Ok(None) => TreeValue::File { id: new_file_id, executable: false },
        }
    } else {
        TreeValue::File { id: new_file_id, executable: false }
    };
    Ok(tree.set_path_value(repo_path, new_value))
}

} // verus!
