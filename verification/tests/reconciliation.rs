//! Conflict reconciliation: shape limits, role assignment, output judging,
//! and the full decision pipeline.

use merge_tools::errors::{ConflictResolveError, ExternalToolError};
use merge_tools::interpolate::{interpolate_mergetool_filename_patterns, RoleFileSet};
use merge_tools::reconcile::{
    assign_roles, check_output_changed, initial_output_content, run_mergetool,
    validate_conflict_shape, ConflictHunk,
};
use merge_tools::runner::{LaunchOutcome, ToolExit};
use merge_tools::tools::MergeTool;
use merge_tools::tree::{Tree, TreeValue};
use merge_tools::workspace::role_file_name;

fn merge_editor(edits_conflict_markers: bool) -> MergeTool {
    MergeTool {
        program: "my-merge".to_string(),
        edit_args: vec![],
        merge_args: vec![
            "$base".to_string(),
            "$left".to_string(),
            "$right".to_string(),
            "$output".to_string(),
        ],
        merge_tool_edits_conflict_markers: edits_conflict_markers,
    }
}

fn hunk(removes: &[&[u8]], adds: &[&[u8]]) -> ConflictHunk {
    ConflictHunk {
        removes: removes.iter().map(|b| b.to_vec()).collect(),
        adds: adds.iter().map(|b| b.to_vec()).collect(),
    }
}

fn conflicted_tree(path: &str) -> Tree {
    Tree::new()
        .set_path_value(&"other.txt".to_string(), TreeValue::File { id: 11, executable: false })
        .set_path_value(&path.to_string(), TreeValue::Conflict { id: 42 })
}

fn exit(code: i32) -> LaunchOutcome {
    LaunchOutcome::Exited { exit: ToolExit { code: Some(code) } }
}

#[test]
fn supported_shape_with_new_output_becomes_a_file() {
    let path = "file.txt".to_string();
    let tree = conflicted_tree(&path);
    let result = run_mergetool(
        &tree,
        &path,
        Ok(Some(hunk(&[b"base"], &[b"left", b"right"]))),
        String::new(),
        Ok(merge_editor(false)),
        vec![],
        exit(0),
        b"resolved content".to_vec(),
        Ok(None),
        7,
    );
    let new_tree = result.unwrap();
    assert_eq!(
        new_tree.path_value(&path),
        Some(TreeValue::File { id: 7, executable: false })
    );
    // every other path is untouched
    assert_eq!(
        new_tree.path_value(&"other.txt".to_string()),
        Some(TreeValue::File { id: 11, executable: false })
    );
    // the input tree still holds the conflict
    assert_eq!(tree.path_value(&path), Some(TreeValue::Conflict { id: 42 }));
}

#[test]
fn too_many_sides_report_exact_counts() {
    let path = "file.txt".to_string();
    let tree = conflicted_tree(&path);
    let result = run_mergetool(
        &tree,
        &path,
        Ok(Some(hunk(&[b"r1", b"r2"], &[b"a1", b"a2", b"a3"]))),
        String::new(),
        Ok(merge_editor(false)),
        vec![],
        exit(0),
        b"whatever".to_vec(),
        Ok(None),
        7,
    );
    match result.unwrap_err() {
        ConflictResolveError::ConflictTooComplicatedError { path: p, removes, adds } => {
            assert_eq!(p, "file.txt");
            assert_eq!(removes, 2);
            assert_eq!(adds, 3);
        }
        other => panic!("expected ConflictTooComplicatedError, got {other:?}"),
    }
}

#[test]
fn shape_validation_bounds() {
    let path = "f".to_string();
    assert!(validate_conflict_shape(&hunk(&[], &[]), &path).is_ok());
    assert!(validate_conflict_shape(&hunk(&[b"r"], &[b"a", b"b"]), &path).is_ok());
    assert!(validate_conflict_shape(&hunk(&[b"r", b"r"], &[b"a"]), &path).is_err());
    assert!(validate_conflict_shape(&hunk(&[b"r"], &[b"a", b"b", b"c"]), &path).is_err());
}

#[test]
fn nonzero_exit_aborts_and_names_the_status() {
    let path = "file.txt".to_string();
    let tree = conflicted_tree(&path);
    let result = run_mergetool(
        &tree,
        &path,
        Ok(Some(hunk(&[b"base"], &[b"left", b"right"]))),
        String::new(),
        Ok(merge_editor(false)),
        vec![],
        exit(3),
        b"ignored".to_vec(),
        Ok(None),
        7,
    );
    match result.unwrap_err() {
        ConflictResolveError::ExternalToolError(ExternalToolError::ToolAborted { exit_code }) => {
            assert_eq!(exit_code, Some(3));
        }
        other => panic!("expected ToolAborted, got {other:?}"),
    }
}

#[test]
fn launching_the_merge_tool_can_fail() {
    let path = "file.txt".to_string();
    let tree = conflicted_tree(&path);
    let result = run_mergetool(
        &tree,
        &path,
        Ok(Some(hunk(&[b"base"], &[b"left", b"right"]))),
        String::new(),
        Ok(merge_editor(false)),
        vec![],
        LaunchOutcome::LaunchFailed { message: "not found".to_string() },
        b"ignored".to_vec(),
        Ok(None),
        7,
    );
    match result.unwrap_err() {
        ConflictResolveError::ExternalToolError(ExternalToolError::FailedToExecute {
            tool_binary,
            message,
        }) => {
            assert_eq!(tool_binary, "my-merge");
            assert_eq!(message, "not found");
        }
        other => panic!("expected FailedToExecute, got {other:?}"),
    }
}

#[test]
fn empty_output_is_rejected() {
    let path = "file.txt".to_string();
    let tree = conflicted_tree(&path);
    let result = run_mergetool(
        &tree,
        &path,
        Ok(Some(hunk(&[b"base"], &[b"left", b"right"]))),
        String::new(),
        Ok(merge_editor(false)),
        vec![],
        exit(0),
        vec![],
        Ok(None),
        7,
    );
    assert!(matches!(
        result.unwrap_err(),
        ConflictResolveError::EmptyOrUnchanged
    ));
}

#[test]
fn unchanged_seeded_output_is_rejected() {
    let path = "file.txt".to_string();
    let tree = conflicted_tree(&path);
    let seed = b"<<< conflict markers >>>".to_vec();
    let result = run_mergetool(
        &tree,
        &path,
        Ok(Some(hunk(&[b"base"], &[b"left", b"right"]))),
        String::new(),
        Ok(merge_editor(true)),
        seed.clone(),
        exit(0),
        seed,
        Ok(None),
        7,
    );
    assert!(matches!(
        result.unwrap_err(),
        ConflictResolveError::EmptyOrUnchanged
    ));
}

#[test]
fn leftover_markers_keep_an_updated_conflict() {
    let path = "file.txt".to_string();
    let tree = conflicted_tree(&path);
    let result = run_mergetool(
        &tree,
        &path,
        Ok(Some(hunk(&[b"base"], &[b"left", b"right"]))),
        String::new(),
        Ok(merge_editor(true)),
        b"<<< seed >>>".to_vec(),
        exit(0),
        b"partially resolved, markers remain".to_vec(),
        Ok(Some(99)),
        7,
    );
    let new_tree = result.unwrap();
    assert_eq!(new_tree.path_value(&path), Some(TreeValue::Conflict { id: 99 }));
}

#[test]
fn fully_resolved_marker_text_becomes_a_file() {
    let path = "file.txt".to_string();
    let tree = conflicted_tree(&path);
    let result = run_mergetool(
        &tree,
        &path,
        Ok(Some(hunk(&[b"base"], &[b"left", b"right"]))),
        String::new(),
        Ok(merge_editor(true)),
        b"<<< seed >>>".to_vec(),
        exit(0),
        b"all resolved".to_vec(),
        Ok(None),
        7,
    );
    let new_tree = result.unwrap();
    assert_eq!(
        new_tree.path_value(&path),
        Some(TreeValue::File { id: 7, executable: false })
    );
}

#[test]
fn reparse_failure_is_a_backend_error() {
    let path = "file.txt".to_string();
    let tree = conflicted_tree(&path);
    let result = run_mergetool(
        &tree,
        &path,
        Ok(Some(hunk(&[b"base"], &[b"left", b"right"]))),
        String::new(),
        Ok(merge_editor(true)),
        b"<<< seed >>>".to_vec(),
        exit(0),
        b"changed".to_vec(),
        Err("store unavailable".to_string()),
        7,
    );
    match result.unwrap_err() {
        ConflictResolveError::BackendError { message } => {
            assert_eq!(message, "store unavailable");
        }
        other => panic!("expected BackendError, got {other:?}"),
    }
}

#[test]
fn missing_path_is_reported() {
    let tree = conflicted_tree("file.txt");
    let path = "absent.txt".to_string();
    let result = run_mergetool(
        &tree,
        &path,
        Ok(Some(hunk(&[], &[]))),
        String::new(),
        Ok(merge_editor(false)),
        vec![],
        exit(0),
        b"x".to_vec(),
        Ok(None),
        7,
    );
    match result.unwrap_err() {
        ConflictResolveError::PathNotFoundError { path: p } => assert_eq!(p, "absent.txt"),
        other => panic!("expected PathNotFoundError, got {other:?}"),
    }
}

#[test]
fn non_conflict_value_is_reported() {
    let tree = conflicted_tree("file.txt");
    let path = "other.txt".to_string();
    let result = run_mergetool(
        &tree,
        &path,
        Ok(Some(hunk(&[], &[]))),
        String::new(),
        Ok(merge_editor(false)),
        vec![],
        exit(0),
        b"x".to_vec(),
        Ok(None),
        7,
    );
    match result.unwrap_err() {
        ConflictResolveError::NotAConflictError { path: p } => assert_eq!(p, "other.txt"),
        other => panic!("expected NotAConflictError, got {other:?}"),
    }
}

#[test]
fn non_file_conflict_carries_the_summary() {
    let path = "file.txt".to_string();
    let tree = conflicted_tree(&path);
    let result = run_mergetool(
        &tree,
        &path,
        Ok(None),
        "conflict of a symlink and a file".to_string(),
        Ok(merge_editor(false)),
        vec![],
        exit(0),
        b"x".to_vec(),
        Ok(None),
        7,
    );
    match result.unwrap_err() {
        ConflictResolveError::NotNormalFilesError { path: p, summary } => {
            assert_eq!(p, "file.txt");
            assert_eq!(summary, "conflict of a symlink and a file");
        }
        other => panic!("expected NotNormalFilesError, got {other:?}"),
    }
}

#[test]
fn extraction_failure_is_a_backend_error() {
    let path = "file.txt".to_string();
    let tree = conflicted_tree(&path);
    let result = run_mergetool(
        &tree,
        &path,
        Err("blob missing".to_string()),
        String::new(),
        Ok(merge_editor(false)),
        vec![],
        exit(0),
        b"x".to_vec(),
        Ok(None),
        7,
    );
    match result.unwrap_err() {
        ConflictResolveError::BackendError { message } => assert_eq!(message, "blob missing"),
        other => panic!("expected BackendError, got {other:?}"),
    }
}

#[test]
fn unresolved_editor_error_flows_through() {
    let path = "file.txt".to_string();
    let tree = conflicted_tree(&path);
    let result = run_mergetool(
        &tree,
        &path,
        Ok(Some(hunk(&[b"base"], &[b"left", b"right"]))),
        String::new(),
        Err(ExternalToolError::MergeArgsNotConfigured { tool_name: "my-merge".to_string() }),
        vec![],
        exit(0),
        b"x".to_vec(),
        Ok(None),
        7,
    );
    match result.unwrap_err() {
        ConflictResolveError::ExternalToolError(ExternalToolError::MergeArgsNotConfigured {
            tool_name,
        }) => assert_eq!(tool_name, "my-merge"),
        other => panic!("expected MergeArgsNotConfigured, got {other:?}"),
    }
}

#[test]
fn roles_follow_the_pop_order() {
    // two adds: the first becomes left, the second right
    let roles = assign_roles(hunk(&[b"base"], &[b"A", b"B"]));
    assert_eq!(roles.base, b"base");
    assert_eq!(roles.left, b"A");
    assert_eq!(roles.right, b"B");

    // one add: it becomes right, left stays empty
    let roles = assign_roles(hunk(&[b"base"], &[b"only"]));
    assert_eq!(roles.base, b"base");
    assert!(roles.left.is_empty());
    assert_eq!(roles.right, b"only");

    // no remove: base stays empty
    let roles = assign_roles(hunk(&[], &[b"A", b"B"]));
    assert!(roles.base.is_empty());
    assert_eq!(roles.left, b"A");
    assert_eq!(roles.right, b"B");
}

#[test]
fn tool_copying_left_and_appending_wins() {
    // one remove and two adds; the tool copies $left to $output and appends
    // one byte, so the new file holds the first add plus that byte
    let path = "file.txt".to_string();
    let tree = conflicted_tree(&path);
    let conflict = hunk(&[b"base"], &[b"A", b"B"]);
    let roles = assign_roles(hunk(&[b"base"], &[b"A", b"B"]));
    assert_eq!(roles.left, b"A");

    let mut output = roles.left.clone();
    output.push(b'!');
    assert_eq!(output, b"A!");

    let result = run_mergetool(
        &tree,
        &path,
        Ok(Some(conflict)),
        String::new(),
        Ok(merge_editor(false)),
        vec![],
        exit(0),
        output.clone(),
        Ok(None),
        7,
    );
    let new_tree = result.unwrap();
    // id 7 is what the store assigned to the output bytes, i.e. to b"A!"
    assert_eq!(
        new_tree.path_value(&path),
        Some(TreeValue::File { id: 7, executable: false })
    );
}

#[test]
fn seeding_follows_the_marker_setting() {
    let materialized = b"<<< markers >>>".to_vec();
    assert_eq!(initial_output_content(true, &materialized), materialized);
    assert!(initial_output_content(false, &materialized).is_empty());
}

#[test]
fn output_judgement() {
    let seed = b"seed".to_vec();
    assert!(check_output_changed(&b"new".to_vec(), &seed).is_ok());
    assert!(check_output_changed(&vec![], &seed).is_err());
    assert!(check_output_changed(&seed.clone(), &seed).is_err());
    // empty output is rejected even against an empty seed
    assert!(check_output_changed(&vec![], &vec![]).is_err());
}

#[test]
fn merge_args_interpolate_over_role_files() {
    let roles = RoleFileSet {
        base: "/scratch/base_file.txt".to_string(),
        left: "/scratch/left_file.txt".to_string(),
        right: "/scratch/right_file.txt".to_string(),
        output: "/scratch/output_file.txt".to_string(),
    };
    let resolved =
        interpolate_mergetool_filename_patterns(&merge_editor(false).merge_args, &roles);
    assert_eq!(
        resolved,
        vec![
            "/scratch/base_file.txt",
            "/scratch/left_file.txt",
            "/scratch/right_file.txt",
            "/scratch/output_file.txt",
        ]
    );
}

#[test]
fn role_files_carry_the_conflicted_file_name() {
    assert_eq!(role_file_name("base", &"dir/sub/file.txt".to_string()), "base_file.txt");
    assert_eq!(role_file_name("output", &"file.txt".to_string()), "output_file.txt");
    // resolving the root path: no component, so the role name stands alone
    assert_eq!(role_file_name("left", &String::new()), "left");
}
