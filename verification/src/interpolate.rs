//! Substituting role sigils in an argument template with concrete paths.
//!
//! The sigils form a small closed set: `$base`, `$left`, `$right`,
//! `$output`. Only an argument that is exactly one of those four strings is
//! replaced; any other argument — including one that merely contains a
//! sigil — is passed through unchanged.

use vstd::prelude::*;
use vstd::string::StringExecFns;

verus! {

/// The scratch-file path of each role handed to a merge tool.
pub struct RoleFileSet {
    pub base: String,
    pub left: String,
    pub right: String,
    pub output: String,
}

/// What one template argument interpolates to: a role's path if the whole
/// argument is that role's sigil, the argument itself otherwise.
pub open spec fn spec_interpolate_arg(paths: RoleFileSet, arg: Seq<char>) -> Seq<char> {
    if arg == "$base"@ {
        paths.base@
    } else if arg == "$left"@ {
        paths.left@
    } else if arg == "$right"@ {
        paths.right@
    } else if arg == "$output"@ {
        paths.output@
    } else {
        arg
    }
}

/// Interpolation is the identity on every argument that is not exactly a
/// role sigil: partial or embedded occurrences are left alone.
pub proof fn lemma_interpolate_non_sigil(paths: RoleFileSet, arg: Seq<char>)
    requires
        arg != "$base"@,
        arg != "$left"@,
        arg != "$right"@,
        arg != "$output"@,
    ensures
        spec_interpolate_arg(paths, arg) == arg,
{
}

/// Replaces each argument of `merge_args` that is exactly a role sigil with
/// that role's path from `paths`, leaving every other argument unchanged.
pub fn interpolate_mergetool_filename_patterns(
    merge_args: &Vec<String>,
    paths: &RoleFileSet,
) -> (args: Vec<String>)
    ensures
        args@.len() == merge_args@.len(),
        forall|i: int|
            0 <= i < args@.len() ==> args@[i]@ == spec_interpolate_arg(*paths, merge_args@[i]@),
{
    let sig_base = String::from_str("$base");
    let sig_left = String::from_str("$left");
    let sig_right = String::from_str("$right");
    let sig_output = String::from_str("$output");
    let mut args: Vec<String> = Vec::new();
    let mut i: usize = 0;
    while i < merge_args.len()
        invariant
            i <= merge_args@.len(),
            args@.len() == i,
            sig_base@ == "$base"@,
            sig_left@ == "$left"@,
            sig_right@ == "$right"@,
            sig_output@ == "$output"@,
            forall|j: int|
                0 <= j < i ==> args@[j]@ == spec_interpolate_arg(*paths, merge_args@[j]@),
        decreases merge_args@.len() - i,
    {
        let arg = &merge_args[i];
        let interpolated = if arg.eq(&sig_base) {
            paths.base.clone()
        } else if arg.eq(&sig_left) {
            paths.left.clone()
        } else if arg.eq(&sig_right) {
            paths.right.clone()
        } else if arg.eq(&sig_output) {
            paths.output.clone()
        } else {
            arg.clone()
        };
        args.push(interpolated);
        i += 1;
    }
    args
}

} // verus!
