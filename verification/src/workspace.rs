//! Naming the role files of an ephemeral workspace.
//!
//! Each role file lives directly under the scratch root, named
//! `{role}_{basename}` where `basename` is the conflicted path's final
//! component — or bare `{role}` in the border case of resolving the root
//! path, which has no component.

use vstd::prelude::*;
use vstd::string::{StrSliceExecFns, StringExecFns};

verus! {

/// The final component of `path`: everything after the last separator.
pub open spec fn spec_basename(path: Seq<char>) -> Seq<char>
    decreases path.len(),
{
    if path.len() == 0 {
        path
    } else if path[path.len() - 1] == '/' {
        Seq::<char>::empty()
    } else {
        spec_basename(path.drop_last()).push(path[path.len() - 1])
    }
}

/// The name of a role file: the role, then `_` and the path's final
/// component when the path has one.
pub open spec fn spec_role_file_name(role: Seq<char>, path: Seq<char>) -> Seq<char> {
    if path.len() == 0 {
        role
    } else {
        role + "_"@ + spec_basename(path)
    }
}

/// A separator-free tail that starts right after a separator (or at the
/// very start) is the basename.
proof fn lemma_basename_subrange(path: Seq<char>, start: int)
    requires
        0 <= start <= path.len(),
        forall|j: int| start <= j < path.len() ==> path[j] != '/',
        start > 0 ==> path[start - 1] == '/',
    ensures
        spec_basename(path) == path.subrange(start, path.len() as int),
    decreases path.len(),
{
    let n = path.len() as int;
    if path.len() == 0 {
        assert(path.subrange(0, 0) =~= path);
    } else if path[n - 1] == '/' {
        assert(start == n);
        assert(path.subrange(n, n) =~= Seq::<char>::empty());
    } else {
        assert(start < n);
        let shorter = path.drop_last();
        assert forall|j: int| start <= j < shorter.len() implies shorter[j] != '/' by {
            assert(shorter[j] == path[j]);
        }
        if start > 0 {
            assert(shorter[start - 1] == path[start - 1]);
        }
        lemma_basename_subrange(shorter, start);
        assert(shorter.subrange(start, n - 1).push(path[n - 1]) =~= path.subrange(start, n));
    }
}

/// Builds the scratch-file name for `role` over the conflicted `repo_path`.
pub fn role_file_name(role: &str, repo_path: &String) -> (name: String)
    ensures
        name@ == spec_role_file_name(role@, repo_path@),
{
    let path = repo_path.as_str();
    let n = path.unicode_len();
    if n == 0 {
        return String::from_str(role);
    }
    let mut i: usize = 0;
    let mut start: usize = 0;
    while i < n
        invariant
            0 <= start <= i <= n,
            n == path@.len(),
            forall|j: int| start <= j < i ==> path@[j] != '/',
            start > 0 ==> path@[start - 1] == '/',
        decreases n - i,
    {
        if path.get_char(i) == '/' {
            start = i + 1;
        }
        i += 1;
    }
    let basename = path.substring_char(start, n);
    proof {
        lemma_basename_subrange(path@, start as int);
    }
    String::from_str(role).concat("_").concat(basename)
}

} // verus!
