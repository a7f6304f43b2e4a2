//! An immutable tree model: a mapping from paths to stored values.
//!
//! Trees stand for the content-addressed tree objects of the store: file
//! contents, symlink targets and conflict objects appear as plain
//! identifiers. A tree is never mutated in place — every edit builds a new
//! tree — and the paths of a well-formed tree are unique, so the entry list
//! denotes a mapping.

use vstd::prelude::*;

verus! {

/// A value stored at a path of a tree.
#[derive(Clone, Copy, Debug, PartialEq, Eq, Structural)]
pub enum TreeValue {
    /// An ordinary file, identified by the id of its content in the store.
    File { id: u64, executable: bool },
    /// A symbolic link, identified by the id of its target text.
    Symlink { id: u64 },
    /// An unresolved conflict object.
    Conflict { id: u64 },
}

/// One path-to-value binding of a tree.
#[derive(Debug)]
pub struct TreeEntry {
    pub path: String,
    pub value: TreeValue,
}

impl View for TreeEntry {
    type V = (Seq<char>, TreeValue);

    open spec fn view(&self) -> (Seq<char>, TreeValue) {
        (self.path@, self.value)
    }
}

/// An immutable mapping from paths to values.
#[derive(Debug)]
pub struct Tree {
    pub entries: Vec<TreeEntry>,
}

impl View for Tree {
    type V = Seq<(Seq<char>, TreeValue)>;

    open spec fn view(&self) -> Seq<(Seq<char>, TreeValue)> {
        self.entries@.map(|i: int, e: TreeEntry| e@)
    }
}

/// The value bound to `path` in `bindings`, by first match.
pub open spec fn spec_lookup(
    bindings: Seq<(Seq<char>, TreeValue)>,
    path: Seq<char>,
) -> Option<TreeValue>
    decreases bindings.len(),
{
    if bindings.len() == 0 {
        None
    } else if bindings[0].0 == path {
        Some(bindings[0].1)
    } else {
        spec_lookup(bindings.drop_first(), path)
    }
}

/// A lookup misses exactly when no binding carries the path.
pub proof fn lemma_lookup_none(bindings: Seq<(Seq<char>, TreeValue)>, path: Seq<char>)
    ensures
        spec_lookup(bindings, path) is None <==> (forall|i: int|
            0 <= i < bindings.len() ==> bindings[i].0 != path),
    decreases bindings.len(),
{
    if bindings.len() > 0 {
        lemma_lookup_none(bindings.drop_first(), path);
        if spec_lookup(bindings, path) is None {
            assert forall|i: int| 0 <= i < bindings.len() implies bindings[i].0 != path by {
                if i > 0 {
                    assert(bindings.drop_first()[i - 1] == bindings[i]);
                }
            }
        } else {
            if bindings[0].0 != path {
                let j = choose|j: int|
                    0 <= j < bindings.drop_first().len() && bindings.drop_first()[j].0 == path;
                assert(bindings[j + 1].0 == path);
            }
        }
    }
}

/// A binding whose path no earlier binding shares is what a lookup finds.
pub proof fn lemma_lookup_found(bindings: Seq<(Seq<char>, TreeValue)>, i: int)
    requires
        0 <= i < bindings.len(),
        forall|j: int| 0 <= j < i ==> bindings[j].0 != bindings[i].0,
    ensures
        spec_lookup(bindings, bindings[i].0) == Some(bindings[i].1),
    decreases i,
{
    if i > 0 {
        assert(bindings.drop_first()[i - 1] == bindings[i]);
        assert forall|j: int| 0 <= j < i - 1 implies (#[trigger] bindings.drop_first()[j]).0
            != bindings.drop_first()[i - 1].0 by {
            assert(bindings.drop_first()[j] == bindings[j + 1]);
        }
        lemma_lookup_found(bindings.drop_first(), i - 1);
    }
}

/// Replacing the value of the first binding of a path changes lookups at
/// that path alone.
pub proof fn lemma_lookup_update(
    bindings: Seq<(Seq<char>, TreeValue)>,
    i: int,
    value: TreeValue,
    q: Seq<char>,
)
    requires
        0 <= i < bindings.len(),
        forall|j: int| 0 <= j < i ==> bindings[j].0 != bindings[i].0,
    ensures
        spec_lookup(bindings.update(i, (bindings[i].0, value)), q) == (if q == bindings[i].0 {
            Some(value)
        } else {
            spec_lookup(bindings, q)
        }),
    decreases i,
{
    let updated = bindings.update(i, (bindings[i].0, value));
    if i == 0 {
        if q != bindings[0].0 {
            assert(updated.drop_first() =~= bindings.drop_first());
        }
    } else {
        assert(updated[0] == bindings[0]);
        if q != bindings[0].0 {
            assert(bindings.drop_first()[i - 1] == bindings[i]);
            assert forall|j: int| 0 <= j < i - 1 implies (#[trigger] bindings.drop_first()[j]).0
                != bindings.drop_first()[i - 1].0 by {
                assert(bindings.drop_first()[j] == bindings[j + 1]);
            }
            lemma_lookup_update(bindings.drop_first(), i - 1, value, q);
            assert(updated.drop_first() =~= bindings.drop_first().update(
                i - 1,
                (bindings[i].0, value),
            ));
        }
    }
}

/// Appending a binding for a path that misses changes lookups at that path
/// alone.
pub proof fn lemma_lookup_push(
    bindings: Seq<(Seq<char>, TreeValue)>,
    path: Seq<char>,
    value: TreeValue,
    q: Seq<char>,
)
    requires
        spec_lookup(bindings, path) is None,
    ensures
        spec_lookup(bindings.push((path, value)), q) == (if q == path {
            Some(value)
        } else {
            spec_lookup(bindings, q)
        }),
    decreases bindings.len(),
{
    let pushed = bindings.push((path, value));
    if bindings.len() == 0 {
        assert(pushed[0] == (path, value));
        if q != path {
            assert(pushed.drop_first() =~= Seq::<(Seq<char>, TreeValue)>::empty());
        }
    } else {
        assert(pushed[0] == bindings[0]);
        if q != bindings[0].0 || q == path {
            assert(pushed.drop_first() =~= bindings.drop_first().push((path, value)));
            lemma_lookup_push(bindings.drop_first(), path, value, q);
        }
    }
}

/// Whether some string of `paths` reads `p`.
pub open spec fn spec_contains_path(paths: Seq<String>, p: Seq<char>) -> bool {
    exists|i: int| 0 <= i < paths.len() && paths[i]@ == p
}

/// Membership after a push: the old members plus the pushed string.
pub proof fn lemma_contains_push(paths: Seq<String>, s: String, p: Seq<char>)
    ensures
        spec_contains_path(paths.push(s), p) <==> (spec_contains_path(paths, p) || s@ == p),
{
    if spec_contains_path(paths.push(s), p) {
        let i = choose|i: int| 0 <= i < paths.push(s).len() && paths.push(s)[i]@ == p;
        if i < paths.len() {
            assert(paths[i]@ == p);
        }
    }
    if spec_contains_path(paths, p) {
        let i = choose|i: int| 0 <= i < paths.len() && paths[i]@ == p;
        assert(paths.push(s)[i]@ == p);
    }
    if s@ == p {
        assert(paths.push(s)[paths.len() as int]@ == p);
    }
}

impl Tree {
    /// The tree's mapping at `path`.
    pub open spec fn spec_value_at(self, path: Seq<char>) -> Option<TreeValue> {
        spec_lookup(self@, path)
    }

    /// Paths are unique: the entry list denotes a mapping.
    pub open spec fn wf(self) -> bool {
        forall|i: int, j: int| 0 <= i < j < self@.len() ==> self@[i].0 != self@[j].0
    }

    /// The empty tree.
    pub fn new() -> (tree: Tree)
        ensures
            tree@.len() == 0,
            tree.wf(),
    {
        Tree { entries: Vec::new() }
    }

    /// Reads the value at `path`, if any.
    pub fn path_value(&self, path: &String) -> (result: Option<TreeValue>)
        ensures
            result == self.spec_value_at(path@),
    {
        let mut i: usize = 0;
        proof {
            assert(self@.skip(0) =~= self@);
        }
        while i < self.entries.len()
            invariant
                0 <= i <= self.entries@.len(),
                spec_lookup(self@, path@) == spec_lookup(self@.skip(i as int), path@),
            decreases self.entries@.len() - i,
        {
            if self.entries[i].path.eq(path) {
                assert(self@.skip(i as int)[0] == self@[i as int]);
                return Some(self.entries[i].value);
            }
            proof {
                assert(self@.skip(i as int)[0] == self@[i as int]);
                assert(self@.skip(i as int).drop_first() =~= self@.skip(i as int + 1));
            }
            i += 1;
        }
        assert(self@.skip(i as int).len() == 0);
        None
    }

    /// A new tree equal to this one except that `path` is bound to `value`:
    /// the model of building a tree from an original with one path replaced.
    pub fn set_path_value(&self, path: &String, value: TreeValue) -> (result: Tree)
        requires
            self.wf(),
        ensures
            result.wf(),
            result.spec_value_at(path@) == Some(value),
            forall|q: Seq<char>| q != path@ ==> result.spec_value_at(q) == self.spec_value_at(q),
    {
        let mut entries: Vec<TreeEntry> = Vec::new();
        let mut replaced = false;
        let ghost mut match_index: int = 0;
        let mut i: usize = 0;
        while i < self.entries.len()
            invariant
                0 <= i <= self.entries@.len(),
                entries@.len() == i,
                forall|j: int|
                    0 <= j < i ==> #[trigger] entries@[j]@ == (if self@[j].0 == path@ {
                        (path@, value)
                    } else {
                        self@[j]
                    }),
                replaced <==> (exists|j: int| 0 <= j < i && self@[j].0 == path@),
                replaced ==> 0 <= match_index < i && self@[match_index].0 == path@,
            decreases self.entries@.len() - i,
        {
            let e = &self.entries[i];
            assert(self@[i as int] == (e.path@, e.value));
            if e.path.eq(path) {
                entries.push(TreeEntry { path: e.path.clone(), value });
                if !replaced {
                    proof {
                        match_index = i as int;
                    }
                }
                replaced = true;
            } else {
                entries.push(TreeEntry { path: e.path.clone(), value: e.value });
            }
            i += 1;
        }
        if !replaced {
            entries.push(TreeEntry { path: path.clone(), value });
            let result = Tree { entries };
            proof {
                lemma_lookup_none(self@, path@);
                assert(result@ =~= self@.push((path@, value)));
                assert forall|q: Seq<char>| true implies spec_lookup(result@, q) == (if q == path@ {
                    Some(value)
                } else {
                    spec_lookup(self@, q)
                }) by {
                    lemma_lookup_push(self@, path@, value, q);
                }
                assert forall|a: int, b: int| 0 <= a < b < result@.len() implies result@[a].0
                    != result@[b].0 by {
                    if b == self@.len() {
                        lemma_lookup_none(self@, path@);
                    }
                }
            }
            result
        } else {
            let result = Tree { entries };
            proof {
                let m = match_index;
                // earlier matches would have set match_index earlier
                assert forall|j: int| 0 <= j < m implies self@[j].0 != self@[m].0 by {
                    if self@[j].0 == path@ {
                        assert(0 <= j < m && self@[j].0 == path@);
                        // wf: two distinct entries cannot share a path
                        assert(self@[j].0 != self@[m].0);
                    }
                }
                assert(result@ =~= self@.update(m, (self@[m].0, value)));
                assert forall|q: Seq<char>| true implies spec_lookup(result@, q) == (if q == path@ {
                    Some(value)
                } else {
                    spec_lookup(self@, q)
                }) by {
                    lemma_lookup_update(self@, m, value, q);
                }
                assert forall|a: int, b: int| 0 <= a < b < result@.len() implies result@[a].0
                    != result@[b].0 by {
                    assert(result@[a].0 == self@[a].0);
                    assert(result@[b].0 == self@[b].0);
                }
            }
            result
        }
    }

    /// The paths at which `self` and `other` differ: bound in one tree and
    /// not the other, or bound to different values. This is the structural
    /// diff that restricts the scratch checkouts of diff editing.
    pub fn diff_paths(&self, other: &Tree) -> (changed: Vec<String>)
        requires
            self.wf(),
            other.wf(),
        ensures
            forall|p: Seq<char>|
                spec_contains_path(changed@, p) <==> self.spec_value_at(p)
                    != other.spec_value_at(p),
    {
        let mut changed: Vec<String> = Vec::new();
        let mut i: usize = 0;
        while i < self.entries.len()
            invariant
                0 <= i <= self.entries@.len(),
                self.wf(),
                other.wf(),
                forall|p: Seq<char>|
                    spec_contains_path(changed@, p) <==> (exists|j: int|
                        0 <= j < i && self@[j].0 == p) && self.spec_value_at(p)
                        != other.spec_value_at(p),
            decreases self.entries@.len() - i,
        {
            let e = &self.entries[i];
            assert(self@[i as int] == (e.path@, e.value));
            proof {
                assert forall|j: int| 0 <= j < i as int implies self@[j].0 != self@[i as int].0 by {}
                lemma_lookup_found(self@, i as int);
            }
            let rv = other.path_value(&e.path);
            let differs = match rv {
                None => true,
                Some(v) => !(v == e.value),
            };
            proof {
                assert(differs == (self.spec_value_at(e.path@) != other.spec_value_at(e.path@)));
            }
            let ghost old_changed = changed@;
            if differs {
                changed.push(e.path.clone());
            }
            proof {
                assert forall|p: Seq<char>| true implies (spec_contains_path(changed@, p) <==> (
                exists|j: int| 0 <= j < i as int + 1 && self@[j].0 == p) && self.spec_value_at(p)
                    != other.spec_value_at(p)) by {
                    if differs {
                        lemma_contains_push(old_changed, changed@[changed@.len() - 1], p);
                        assert(changed@ == old_changed.push(changed@[changed@.len() - 1]));
                    }
                    if (exists|j: int| 0 <= j < i as int + 1 && self@[j].0 == p)
                        && self.spec_value_at(p) != other.spec_value_at(p) {
                        let j = choose|j: int| 0 <= j < i as int + 1 && self@[j].0 == p;
                        if j == i as int && !(exists|k: int| 0 <= k < i as int && self@[k].0 == p) {
                            assert(p == e.path@);
                        }
                    }
                }
            }
            i += 1;
        }
        let mut k: usize = 0;
        while k < other.entries.len()
            invariant
                0 <= k <= other.entries@.len(),
                self.wf(),
                other.wf(),
                forall|p: Seq<char>|
                    spec_contains_path(changed@, p) <==> ((exists|j: int|
                        0 <= j < self@.len() && self@[j].0 == p) || (exists|j: int|
                        0 <= j < k && other@[j].0 == p)) && self.spec_value_at(p)
                        != other.spec_value_at(p),
            decreases other.entries@.len() - k,
        {
            let e = &other.entries[k];
            assert(other@[k as int] == (e.path@, e.value));
            proof {
                assert forall|j: int| 0 <= j < k as int implies other@[j].0
                    != other@[k as int].0 by {}
                lemma_lookup_found(other@, k as int);
            }
            let lv = self.path_value(&e.path);
            let ghost old_changed = changed@;
            let missing = lv.is_none();
            if missing {
                changed.push(e.path.clone());
            }
            proof {
                assert forall|p: Seq<char>| true implies (spec_contains_path(changed@, p) <==> ((
                exists|j: int| 0 <= j < self@.len() && self@[j].0 == p) || (exists|j: int|
                    0 <= j < k as int + 1 && other@[j].0 == p)) && self.spec_value_at(p)
                    != other.spec_value_at(p)) by {
                    if missing {
                        lemma_contains_push(old_changed, changed@[changed@.len() - 1], p);
                        assert(changed@ == old_changed.push(changed@[changed@.len() - 1]));
                    }
                    if ((exists|j: int| 0 <= j < self@.len() && self@[j].0 == p) || (exists|j: int|
                        0 <= j < k as int + 1 && other@[j].0 == p)) && self.spec_value_at(p)
                        != other.spec_value_at(p) {
                        if !((exists|j: int| 0 <= j < self@.len() && self@[j].0 == p) || (
                        exists|j: int| 0 <= j < k as int && other@[j].0 == p)) {
                            assert(p == e.path@);
                            lemma_lookup_none(self@, p);
                        }
                    }
                }
            }
            k += 1;
        }
        proof {
            assert forall|p: Seq<char>| true implies (spec_contains_path(changed@, p)
                <==> self.spec_value_at(p) != other.spec_value_at(p)) by {
                lemma_lookup_none(self@, p);
                lemma_lookup_none(other@, p);
            }
        }
        changed
    }
}

} // verus!
