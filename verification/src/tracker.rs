//! The consumer's side of the event stream: the list of image files that the
//! events describe, and the file that is shown.
//!
//! A path is tracked from its `Added` event until its `Removed` event. A
//! rename moves the place of the old path to the new one. Events for paths
//! that are not tracked change nothing.

use vstd::prelude::*;
use crate::paths::{path_before, precedes};
use crate::service::{read_file, read_thumbnail, Job, JobView};

verus! {

/// The size of the box that thumbnails are made for, in pixels.
pub const THUMBNAIL_SIZE: u32 = 150;

/// Whether `first` may stand directly before `second` in a sorted list: it
/// is the lesser path, or at least `second` is not.
pub open spec fn in_order(first: Seq<char>, second: Seq<char>) -> bool {
    path_before(first, second) || !path_before(second, first)
}

/// Whether each path of `files` may stand directly before the next.
pub open spec fn ordered(files: Seq<Seq<char>>) -> bool {
    forall|i: int| 0 <= i < files.len() - 1 ==> in_order(#[trigger] files[i], files[i + 1])
}

/// The test that a path is another one than `path`.
pub open spec fn other_than(path: Seq<char>) -> spec_fn(Seq<char>) -> bool {
    |file: Seq<char>| file != path
}

/// Whether `places` names, for each place in `sorted`, the place in `files`
/// that its path was taken from, such that every place is taken from once
/// and a path stands before one that came earlier in `files` only where it
/// is the lesser of the two.
pub open spec fn arranges(places: Seq<int>, files: Seq<Seq<char>>, sorted: Seq<Seq<char>>) -> bool {
    &&& places.len() == files.len()
    &&& sorted.len() == files.len()
    &&& places.no_duplicates()
    &&& forall|k: int|
        0 <= k < places.len() ==> 0 <= #[trigger] places[k] < files.len() && sorted[k]
            == files[places[k]]
    &&& forall|a: int, b: int|
        0 <= a < b < places.len() && #[trigger] places[a] > #[trigger] places[b] ==> path_before(
            files[places[a]],
            files[places[b]],
        )
}

/// Whether `sorted` holds the paths of `files` moved no more than sorting
/// needs: a path has passed another only where it is less than it, so that
/// paths of which neither is less keep their order.
pub open spec fn sorted_stably(files: Seq<Seq<char>>, sorted: Seq<Seq<char>>) -> bool {
    exists|places: Seq<int>| arranges(places, files, sorted)
}

/// The paths of `files` other than `path`, in order.
pub open spec fn without(files: Seq<Seq<char>>, path: Seq<char>) -> Seq<Seq<char>> {
    files.filter(other_than(path))
}

/// The list `files` with the first `old` replaced by `new`; unchanged where
/// `old` does not occur.
pub open spec fn renamed(files: Seq<Seq<char>>, old: Seq<char>, new: Seq<char>) -> Seq<
    Seq<char>,
> {
    match files.index_of_first(old) {
        Some(i) => files.update(i, new),
        None => files,
    }
}

/// The file shown after a batch of file events: the one shown before, or
/// the first of the list where none was shown, or none where the list is
/// empty.
pub open spec fn shown_after(files: Seq<Seq<char>>, current: Option<Seq<char>>) -> Option<
    Seq<char>,
> {
    if files.len() == 0 {
        None
    } else if current is None {
        Some(files[0])
    } else {
        current
    }
}

/// The paths of `files` in ascending order. A path is moved in front of
/// another only where it is less than it.
pub fn sort_paths(files: &Vec<String>) -> (r: Vec<String>)
    ensures
        r.deep_view().to_multiset() == files.deep_view().to_multiset(),
        ordered(r.deep_view()),
        sorted_stably(files.deep_view(), r.deep_view()),
{
    let mut out: Vec<String> = Vec::new();
    let ghost mut places: Seq<int> = Seq::empty();
    let mut i: usize = 0;
    assert(files.deep_view().take(0) =~= out.deep_view());
    while i < files.len()
        invariant
            i <= files.len(),
            out.len() == i,
            out.deep_view().to_multiset() == files.deep_view().take(i as int).to_multiset(),
            ordered(out.deep_view()),
            places.len() == i,
            places.no_duplicates(),
            forall|k: int|
                0 <= k < i ==> 0 <= #[trigger] places[k] < i && out.deep_view()[k]
                    == files.deep_view()[places[k]],
            forall|a: int, b: int|
                0 <= a < b < i && #[trigger] places[a] > #[trigger] places[b] ==> path_before(
                    files.deep_view()[places[a]],
                    files.deep_view()[places[b]],
                ),
        decreases files.len() - i,
    {
        let mut k: usize = out.len();
        while k > 0 && precedes(&files[i], &out[k - 1])
            invariant
                k <= out.len(),
                i < files.len(),
                forall|j: int|
                    k <= j < out.len() ==> path_before(files[i as int]@, #[trigger] out[j]@),
            decreases k,
        {
            k -= 1;
        }
        let ghost before = out.deep_view();
        let ghost places_before = places;
        out.insert(k, files[i].clone());
        proof {
            let path = files[i as int]@;
            let after = before.insert(k as int, path);
            assert(out.deep_view() =~= after);
            vstd::seq_lib::to_multiset_insert(before, k as int, path);
            let front = files.deep_view().take(i as int);
            assert(files.deep_view().take(i + 1) =~= front.push(path));
            vstd::seq_lib::to_multiset_build(front, path);
            assert forall|j: int| 0 <= j < after.len() - 1 implies in_order(
                #[trigger] after[j],
                after[j + 1],
            ) by {
                if j < k - 1 {
                    assert(in_order(before[j], before[j + 1]));
                } else if j == k - 1 {
                    assert(after[j] == before[j]);
                    assert(!path_before(path, out[j]@) || k == 0);
                } else if j == k {
                    assert(after[j + 1] == before[j]);
                } else {
                    assert(in_order(before[j - 1], before[j]));
                }
            }
            places = places_before.insert(k as int, i as int);
            assert forall|a: int| 0 <= a <= i implies #[trigger] places[a] == (if a < k {
                places_before[a]
            } else if a == k {
                i as int
            } else {
                places_before[a - 1]
            }) by {}
            assert forall|a: int, b: int| 0 <= a < places.len() && 0 <= b < places.len() && a
                != b implies places[a] != places[b] by {
                let pa = if a < k { a } else { a - 1 };
                let pb = if b < k { b } else { b - 1 };
                if a != k && b != k {
                    assert(places_before[pa] != places_before[pb]);
                }
            }
            assert forall|a: int, b: int|
                0 <= a < b < i + 1 && #[trigger] places[a] > #[trigger] places[b] implies path_before(
                files.deep_view()[places[a]],
                files.deep_view()[places[b]],
            ) by {
                if a == k {
                    assert(path_before(path, before[b - 1]));
                } else if b != k {
                    let pa = if a < k { a } else { a - 1 };
                    let pb = if b < k { b } else { b - 1 };
                    assert(places_before[pa] > places_before[pb]);
                }
            }
        }
        i += 1;
    }
    proof {
        assert(files.deep_view().take(files.len() as int) =~= files.deep_view());
        assert(arranges(places, files.deep_view(), out.deep_view()));
    }
    out
}

/// The model of a `Tracker`: the tracked files in the order of the list, and
/// the file that is shown.
pub struct TrackerView {
    pub files: Seq<Seq<char>>,
    pub current: Option<Seq<char>>,
}

/// The list of tracked files and the file that is shown.
#[derive(Debug, PartialEq, Eq)]
pub struct Tracker {
    files: Vec<String>,
    current: Option<String>,
}

impl View for Tracker {
    type V = TrackerView;

    closed spec fn view(&self) -> TrackerView {
        TrackerView {
            files: self.files.deep_view(),
            current: match self.current {
                Some(path) => Some(path@),
                None => None,
            },
        }
    }
}

impl Tracker {
    /// A tracker that tracks nothing and shows nothing.
    pub fn new() -> (r: Tracker)
        ensures
            r@.files == Seq::<Seq<char>>::empty(),
            r@.current is None,
    {
        let tracker = Tracker { files: Vec::new(), current: None };
        assert(tracker.files.deep_view() =~= Seq::<Seq<char>>::empty());
        tracker
    }

    /// The tracked files, in the order of the list.
    pub fn files(&self) -> (r: &Vec<String>)
        ensures
            r.deep_view() == self@.files,
    {
        &self.files
    }

    /// The file that is shown, if any.
    pub fn current(&self) -> (r: &Option<String>)
        ensures
            r is Some <==> self@.current is Some,
            r is Some ==> self@.current == Some(r->Some_0@),
    {
        &self.current
    }

    /// Shows `path`.
    pub fn select(&mut self, path: String)
        ensures
            final(self)@.files == old(self)@.files,
            final(self)@.current == Some(path@),
    {
        self.current = Some(path);
    }

    /// Tracks `path`, at the end of the list, and gives the job that makes
    /// its thumbnail.
    pub fn add_file(&mut self, path: String) -> (job: Job)
        ensures
            final(self)@.files == old(self)@.files.push(path@),
            final(self)@.current == old(self)@.current,
            job@ == JobView::Thumbnail(path@, THUMBNAIL_SIZE as nat),
    {
        let job = read_thumbnail(path.as_str(), THUMBNAIL_SIZE);
        let ghost before = self.files.deep_view();
        self.files.push(path);
        assert(self.files.deep_view() =~= before.push(path@));
        job
    }

    /// Stops tracking `path`: every occurrence leaves the list.
    pub fn remove_file(&mut self, path: &String)
        ensures
            final(self)@.files == without(old(self)@.files, path@),
            final(self)@.current == old(self)@.current,
    {
        let mut kept: Vec<String> = Vec::new();
        let mut i: usize = 0;
        proof {
            reveal(Seq::filter);
            assert(self.files.deep_view().take(0) =~= Seq::<Seq<char>>::empty());
            assert(kept.deep_view() =~= without(self.files.deep_view().take(0), path@));
        }
        while i < self.files.len()
            invariant
                i <= self.files.len(),
                self.files == old(self).files,
                self.current == old(self).current,
                kept.deep_view() == without(self.files.deep_view().take(i as int), path@),
            decreases self.files.len() - i,
        {
            let ghost before = kept.deep_view();
            proof {
                let front = self.files.deep_view().take(i as int);
                assert(self.files.deep_view().take(i + 1) =~= front.push(self.files[i as int]@));
                front.lemma_filter_push(self.files[i as int]@, other_than(path@));
            }
            if self.files[i] != *path {
                kept.push(self.files[i].clone());
                assert(kept.deep_view() =~= before.push(self.files[i as int]@));
            }
            i += 1;
        }
        assert(self.files.deep_view().take(self.files.len() as int) =~= self.files.deep_view());
        self.files = kept;
    }

    /// Gives the job that makes the thumbnail of `path` anew, after the file
    /// was written to. The list stays as it is.
    pub fn invalidate_file_data(&self, path: &String) -> (job: Job)
        ensures
            job@ == JobView::Thumbnail(path@, THUMBNAIL_SIZE as nat),
    {
        read_thumbnail(path.as_str(), THUMBNAIL_SIZE)
    }

    /// Puts `new_path` in the place of the first `old_path`. Answers whether
    /// `old_path` was tracked; if it was not, nothing changes.
    pub fn rename_file(&mut self, old_path: &String, new_path: String) -> (r: bool)
        ensures
            r == old(self)@.files.contains(old_path@),
            final(self)@.files == renamed(old(self)@.files, old_path@, new_path@),
            final(self)@.current == old(self)@.current,
    {
        let ghost before = self.files.deep_view();
        let mut i: usize = 0;
        while i < self.files.len()
            invariant
                i <= self.files.len(),
                self.files == old(self).files,
                self.current == old(self).current,
                before == self.files.deep_view(),
                forall|j: int| 0 <= j < i ==> before[j] != old_path@,
            decreases self.files.len() - i,
        {
            if self.files[i] == *old_path {
                proof {
                    assert(before[i as int] == old_path@);
                    before.index_of_first_ensures(old_path@);
                }
                self.files.set(i, new_path);
                assert(self.files.deep_view() =~= before.update(i as int, new_path@));
                return true;
            }
            i += 1;
        }
        proof {
            before.index_of_first_ensures(old_path@);
        }
        false
    }

    /// Ends a batch of file events: sorts the list, moving a path in front
    /// of another only where it is less than it, and where no file is shown
    /// shows the first. Gives the job that loads the file newly shown.
    pub fn settle(&mut self) -> (job: Option<Job>)
        ensures
            final(self)@.files.to_multiset() == old(self)@.files.to_multiset(),
            ordered(final(self)@.files),
            sorted_stably(old(self)@.files, final(self)@.files),
            final(self)@.current == shown_after(final(self)@.files, old(self)@.current),
            match job {
                Some(j) => old(self)@.current is None && final(self)@.files.len() > 0 && j@
                    == JobView::Image(final(self)@.files[0]),
                None => old(self)@.current is Some || final(self)@.files.len() == 0,
            },
    {
        let sorted = sort_paths(&self.files);
        proof {
            sorted.deep_view().to_multiset_ensures();
            self.files.deep_view().to_multiset_ensures();
        }
        self.files = sorted;
        if self.files.len() == 0 {
            self.current = None;
            None
        } else if self.current.is_none() {
            let first = self.files[0].clone();
            let job = read_file(first.as_str());
            self.current = Some(first);
            Some(job)
        } else {
            None
        }
    }
}

/// A path is tracked from the moment it is added.
pub proof fn lemma_added_is_tracked(files: Seq<Seq<char>>, path: Seq<char>)
    ensures
        files.push(path).contains(path),
{
    assert(files.push(path)[files.len() as int] == path);
}

/// A removed path is tracked no longer, however often it was added; every
/// other path stays tracked.
pub proof fn lemma_removed_is_not_tracked(files: Seq<Seq<char>>, path: Seq<char>, other: Seq<char>)
    ensures
        !without(files, path).contains(path),
        other != path ==> (without(files, path).contains(other) <==> files.contains(other)),
{
    broadcast use vstd::seq_lib::group_filter_ensures;

    let keep = other_than(path);
    if without(files, path).contains(path) {
        let j = choose|j: int| 0 <= j < without(files, path).len() && without(files, path)[j] == path;
        assert(keep(without(files, path)[j]));
    }
    if other != path {
        if files.contains(other) {
            let i = choose|i: int| 0 <= i < files.len() && files[i] == other;
            assert(keep(files[i]));
        }
        if without(files, path).contains(other) {
            files.lemma_filter_contains_rev(keep, other);
        }
    }
}

/// After a rename of a tracked path the new path is tracked. A rename of a
/// path that is not tracked changes nothing.
pub proof fn lemma_renamed_is_tracked(files: Seq<Seq<char>>, old: Seq<char>, new: Seq<char>)
    ensures
        files.contains(old) ==> renamed(files, old, new).contains(new),
        renamed(files, old, new).len() == files.len(),
        !files.contains(old) ==> renamed(files, old, new) == files,
{
    files.index_of_first_ensures(old);
    if files.contains(old) {
        let i = files.index_of_first(old)->Some_0;
        assert(renamed(files, old, new)[i] == new);
    }
}

} // verus!
