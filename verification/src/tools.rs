//! Resolving an external tool's invocation spec from layered settings.
//!
//! The settings source itself is a collaborator: the caller looks up the
//! `ui.diff-editor` / `ui.merge-editor` keys and the `merge-tools.<name>`
//! table and hands the outcomes to these functions as plain values. The
//! defaulting rules — fall back to a fixed editor with a notice, default a
//! missing program to the tool name, reject a merge tool without merge
//! arguments — are decided and verified here.

use vstd::prelude::*;
use vstd::string::StringExecFns;
use crate::errors::ExternalToolError;

verus! {

/// Invocation spec for an external merge/diff tool, as resolved from the
/// settings.
#[derive(Debug)]
pub struct MergeTool {
    /// Program to execute; defaults to the tool name if the settings entry
    /// leaves it empty.
    pub program: String,
    /// Arguments to pass when editing diffs.
    pub edit_args: Vec<String>,
    /// Arguments to pass when resolving conflicts; `$left`, `$right`,
    /// `$base` and `$output` are replaced with the corresponding file paths.
    /// The entire argument has to match one of those four strings to be
    /// substituted.
    pub merge_args: Vec<String>,
    /// If false (default), the output file starts out empty and is accepted
    /// as a full resolution as-is. If true, it starts out with the conflict
    /// rendered with markers, and leftover markers afterwards mean the
    /// conflict was only partially resolved.
    pub merge_tool_edits_conflict_markers: bool,
}

impl MergeTool {
    /// A tool that simply runs `program` with no configured arguments.
    pub fn with_program(program: &str) -> (tool: Self)
        ensures
            tool.program@ == program@,
            tool.edit_args@.len() == 0,
            tool.merge_args@.len() == 0,
            !tool.merge_tool_edits_conflict_markers,
    {
        MergeTool {
            program: program.to_owned(),
            edit_args: Vec::new(),
            merge_args: Vec::new(),
            merge_tool_edits_conflict_markers: false,
        }
    }
}

/// Outcome of looking up a string-valued settings key, as reported by the
/// settings collaborator.
pub enum SettingsString {
    /// The key is set to this string.
    Found { value: String },
    /// The key is not set at all.
    NotFound,
    /// The key is set but malformed; carries the collaborator's description.
    Invalid { message: String },
}

/// The editor every role falls back to when its settings key is unset.
pub open spec fn spec_default_editor() -> Seq<char> {
    "meld"@
}

/// The notice emitted when the fallback editor is chosen for `key`.
pub open spec fn spec_default_editor_notice(key: Seq<char>) -> Seq<char> {
    "Using default editor 'meld'; you can change this by setting "@ + key
}

/// Picks the editor name for the settings key `key`, whose lookup outcome is
/// `lookup`: the configured string if the key is set, the fixed default plus
/// a one-line notice for the caller to surface if it is not, and a
/// configuration error if the key is malformed.
pub fn editor_name_from_settings(
    lookup: SettingsString,
    key: &String,
) -> (result: Result<(String, Option<String>), ExternalToolError>)
    ensures
        lookup matches SettingsString::Found { value } ==> (result matches Ok(r)
            && r.0@ == value@ && r.1 is None),
        lookup is NotFound ==> (result matches Ok(r) && r.0@ == spec_default_editor()
            && (r.1 matches Some(notice) && notice@ == spec_default_editor_notice(key@))),
        lookup matches SettingsString::Invalid { message } ==> (result matches Err(e)
            && (e matches ExternalToolError::ConfigError { message: m } && m@ == message@)),
{
    match lookup {
        SettingsString::Found { value } => Ok((value, None)),
        SettingsString::NotFound => {
            let name = String::from_str("meld");
            let notice = String::from_str(
                "Using default editor 'meld'; you can change this by setting ",
            ).concat(key.as_str());
            Ok((name, Some(notice)))
        },
        SettingsString::Invalid { message } => {
            Err(ExternalToolError::ConfigError { message })
        },
    }
}

/// The configuration-error text for a tool entry that failed to decode:
/// it names the offending settings key before the decoder's message.
pub open spec fn spec_tool_entry_error(name: Seq<char>, message: Seq<char>) -> Seq<char> {
    "merge-tools."@ + name + ": "@ + message
}

/// Builds the tool spec for the tool named `name` from its settings entry.
/// `entry` is the collaborator's decoding of `merge-tools.<name>`: `None`
/// when no entry exists (the name is then taken as the program to run),
/// `Some(Err(message))` when the entry exists but failed to decode, and
/// `Some(Ok(tool))` otherwise. An empty `program` field defaults to `name`.
pub fn get_tool_config(
    entry: Option<Result<MergeTool, String>>,
    name: &String,
) -> (result: Result<MergeTool, ExternalToolError>)
    ensures
        entry is None ==> (result matches Ok(tool)
            && tool.program@ == name@
            && tool.edit_args@.len() == 0
            && tool.merge_args@.len() == 0
            && !tool.merge_tool_edits_conflict_markers),
        entry matches Some(Ok(t)) ==> (result matches Ok(tool)
            && tool.program@ == (if t.program@.len() == 0 { name@ } else { t.program@ })
            && tool.edit_args == t.edit_args
            && tool.merge_args == t.merge_args
            && tool.merge_tool_edits_conflict_markers == t.merge_tool_edits_conflict_markers),
        entry matches Some(Err(message)) ==> (result matches Err(e)
            && (e matches ExternalToolError::ConfigError { message: m }
                && m@ == spec_tool_entry_error(name@, message@))),
{
    match entry {
        None => Ok(MergeTool::with_program(name.as_str())),
        Some(Ok(mut tool)) => {
            if tool.program.as_str().is_empty() {
                tool.program = name.clone();
            }
            Ok(tool)
        },
        Some(Err(message)) => {
            let text = String::from_str("merge-tools.")
                .concat(name.as_str())
                .concat(": ")
                .concat(message.as_str());
            Err(ExternalToolError::ConfigError { message: text })
        },
    }
}

/// Admits `tool` as a merge editor only if it defines a merge argument
/// template: a merge tool with no `merge_args` cannot be invoked
/// meaningfully, even though a diff editor with empty `edit_args` is valid.
pub fn check_merge_tool(
    tool: MergeTool,
    tool_name: &String,
) -> (result: Result<MergeTool, ExternalToolError>)
    ensures
        tool.merge_args@.len() == 0 ==> (result matches Err(e)
            && (e matches ExternalToolError::MergeArgsNotConfigured { tool_name: n }
                && n@ == tool_name@)),
        tool.merge_args@.len() != 0 ==> (result matches Ok(t) && t == tool),
{
    if tool.merge_args.len() == 0 {
        Err(ExternalToolError::MergeArgsNotConfigured { tool_name: tool_name.clone() })
    } else {
        Ok(tool)
    }
}

} // verus!
