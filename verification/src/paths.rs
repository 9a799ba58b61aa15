//! Paths held as text, and lists of them.
//!
//! A path is a `String`; its model is the sequence of its characters. A list
//! of paths is modelled by the sequence of those sequences, its deep view.

use vstd::prelude::*;

verus! {

/// What `std::path::Path::parent` returns for `path`: the path without its
/// final component, or `None` when the path ends in a root or is empty.
pub uninterp spec fn path_parent(path: Seq<char>) -> Option<Seq<char>>;

/// Calls `std::path::Path::parent`, which works on the text of the path
/// alone. The result is `Some` exactly when `path_parent` is, and then holds
/// the same text.
#[verifier::external_body]
pub(crate) fn parent(path: &String) -> (r: Option<String>)
    ensures
        r is Some <==> path_parent(path@) is Some,
        r is Some ==> path_parent(path@) == Some(r->Some_0@),
{
    match std::path::Path::new(path).parent() {
        Some(dir) => Some(dir.to_string_lossy().into_owned()),
        None => None,
    }
}

/// Whether `first` is less than `second` as `std::path::Path` orders paths:
/// component by component.
pub uninterp spec fn path_before(first: Seq<char>, second: Seq<char>) -> bool;

/// Compares the two paths with `<` on `std::path::Path`, which looks at the
/// text of the two paths alone.
#[verifier::external_body]
pub(crate) fn precedes(first: &String, second: &String) -> (r: bool)
    ensures
        r == path_before(first@, second@),
{
    std::path::Path::new(first) < std::path::Path::new(second)
}

/// The paths of `paths` in the order of their first occurrence, each once.
pub open spec fn distinct_paths(paths: Seq<Seq<char>>) -> Seq<Seq<char>>
    decreases paths.len(),
{
    if paths.len() == 0 {
        paths
    } else {
        let rest = distinct_paths(paths.drop_last());
        if rest.contains(paths.last()) {
            rest
        } else {
            rest.push(paths.last())
        }
    }
}

/// The parents of `paths`, in order, leaving out the paths that have none.
pub open spec fn parents(paths: Seq<Seq<char>>) -> Seq<Seq<char>> {
    paths.filter_map(|path: Seq<char>| path_parent(path))
}

/// `distinct_paths` keeps exactly the paths of its argument and repeats none.
pub proof fn lemma_distinct_paths(paths: Seq<Seq<char>>)
    ensures
        distinct_paths(paths).no_duplicates(),
        distinct_paths(paths).to_set() == paths.to_set(),
        distinct_paths(paths).len() <= paths.len(),
    decreases paths.len(),
{
    if paths.len() > 0 {
        let front = paths.drop_last();
        let rest = distinct_paths(front);
        lemma_distinct_paths(front);
        assert forall|p: Seq<char>| distinct_paths(paths).to_set().contains(p) == paths.to_set().contains(p) by {
            if paths.contains(p) {
                let i = choose|i: int| 0 <= i < paths.len() && paths[i] == p;
                if i < paths.len() - 1 {
                    assert(front[i] == p);
                    assert(front.to_set().contains(p));
                    assert(rest.contains(p));
                    let j = choose|j: int| 0 <= j < rest.len() && rest[j] == p;
                    assert(distinct_paths(paths)[j] == p);
                } else if !rest.contains(p) {
                    assert(distinct_paths(paths)[rest.len() as int] == p);
                } else {
                    let j = choose|j: int| 0 <= j < rest.len() && rest[j] == p;
                    assert(distinct_paths(paths)[j] == p);
                }
            }
            if distinct_paths(paths).contains(p) {
                let j = choose|j: int| 0 <= j < distinct_paths(paths).len() && distinct_paths(paths)[j] == p;
                if j < rest.len() {
                    assert(rest[j] == p);
                    assert(rest.to_set().contains(p));
                    assert(front.contains(p));
                    let i = choose|i: int| 0 <= i < front.len() && front[i] == p;
                    assert(paths[i] == p);
                } else {
                    assert(paths[paths.len() - 1] == p);
                }
            }
        }
        assert(distinct_paths(paths).to_set() =~= paths.to_set());
    } else {
        assert(distinct_paths(paths).to_set() =~= paths.to_set());
    }
}

/// Whether `path` occurs in `paths`.
pub fn contains(paths: &Vec<String>, path: &String) -> (r: bool)
    ensures
        r == paths.deep_view().contains(path@),
{
    let mut i: usize = 0;
    while i < paths.len()
        invariant
            i <= paths.len(),
            forall|j: int| 0 <= j < i ==> paths.deep_view()[j] != path@,
        decreases paths.len() - i,
    {
        if paths[i] == *path {
            assert(paths.deep_view()[i as int] == path@);
            return true;
        }
        i += 1;
    }
    false
}

/// The paths of `paths` in the order of their first occurrence, each once.
pub fn distinct(paths: &Vec<String>) -> (r: Vec<String>)
    ensures
        r.deep_view() == distinct_paths(paths.deep_view()),
{
    let mut out: Vec<String> = Vec::new();
    let mut i: usize = 0;
    assert(paths.deep_view().take(0) =~= Seq::<Seq<char>>::empty());
    assert(out.deep_view() =~= Seq::<Seq<char>>::empty());
    while i < paths.len()
        invariant
            i <= paths.len(),
            out.deep_view() == distinct_paths(paths.deep_view().take(i as int)),
        decreases paths.len() - i,
    {
        let ghost before = out.deep_view();
        proof {
            let next = paths.deep_view().take(i + 1);
            assert(next.drop_last() =~= paths.deep_view().take(i as int));
            assert(next.last() == paths[i as int]@);
        }
        if !contains(&out, &paths[i]) {
            out.push(paths[i].clone());
            assert(out.deep_view() =~= before.push(paths[i as int]@));
        }
        i += 1;
    }
    assert(paths.deep_view().take(paths.len() as int) =~= paths.deep_view());
    out
}

} // verus!
