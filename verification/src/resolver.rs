//! Path resolution: from the paths the service was started with to the files
//! of the initial snapshot and at most one directory to watch.
//!
//! Looking at the file system is the caller's part. The caller canonicalizes
//! each path and reports what it found there as a `PathEntry`; the `Resolver`
//! says which directory to list next and decides the outcome.

use vstd::prelude::*;
use crate::format::{is_image, recognized};
use crate::paths::{distinct, distinct_paths, lemma_distinct_paths, parent, parents, path_parent};

verus! {

/// What the file system holds at a path.
#[derive(Clone, Copy, Debug, PartialEq, Eq, Structural)]
pub enum PathKind {
    /// A regular file.
    File,
    /// A directory.
    Directory,
    /// Neither of the two, or nothing that could be examined.
    Other,
}

/// A canonical path together with what was found there.
#[derive(Clone, Debug, PartialEq, Eq)]
pub struct PathEntry {
    pub path: String,
    pub kind: PathKind,
}

/// The outcome of path resolution.
#[derive(Clone, Debug, PartialEq, Eq)]
pub struct Resolution {
    /// The directory to watch, if the inputs lead to exactly one.
    pub root: Option<String>,
    /// The image files of the initial snapshot, each once.
    pub files: Vec<String>,
}

/// The text of an optional path.
pub open spec fn text_of(path: Option<String>) -> Option<Seq<char>> {
    match path {
        Some(p) => Some(p@),
        None => None,
    }
}

/// The path of an entry that is a regular file.
pub open spec fn file_of(entry: PathEntry) -> Option<Seq<char>> {
    if entry.kind == PathKind::File {
        Some(entry.path@)
    } else {
        None
    }
}

/// The path of an entry that is a directory.
pub open spec fn directory_of(entry: PathEntry) -> Option<Seq<char>> {
    if entry.kind == PathKind::Directory {
        Some(entry.path@)
    } else {
        None
    }
}

/// The path of an entry that is a regular file recognized as an image.
pub open spec fn image_of(entry: PathEntry) -> Option<Seq<char>> {
    if entry.kind == PathKind::File && recognized(entry.path@) {
        Some(entry.path@)
    } else {
        None
    }
}

/// The regular files among `entries`, in order.
pub open spec fn files_in(entries: Seq<PathEntry>) -> Seq<Seq<char>> {
    entries.filter_map(|entry: PathEntry| file_of(entry))
}

/// The directories among `entries`, in order.
pub open spec fn directories_in(entries: Seq<PathEntry>) -> Seq<Seq<char>> {
    entries.filter_map(|entry: PathEntry| directory_of(entry))
}

/// The recognized image files among `entries`, in order.
pub open spec fn images_in(entries: Seq<PathEntry>) -> Seq<Seq<char>> {
    entries.filter_map(|entry: PathEntry| image_of(entry))
}

/// The paths among `paths` that are recognized as images, in order.
pub open spec fn recognized_among(paths: Seq<Seq<char>>) -> Seq<Seq<char>> {
    paths.filter(|path: Seq<char>| recognized(path))
}

/// The recognized image files of a run of directory listings, in order.
pub open spec fn images_listed(listings: Seq<Seq<PathEntry>>) -> Seq<Seq<char>>
    decreases listings.len(),
{
    if listings.len() == 0 {
        Seq::empty()
    } else {
        images_listed(listings.drop_last()) + images_in(listings.last())
    }
}

/// Every image found: first those named by the inputs, then those of the
/// listings, in the order the listings were supplied.
pub open spec fn found_in(inputs: Seq<PathEntry>, listings: Seq<Seq<PathEntry>>) -> Seq<Seq<char>> {
    images_in(inputs) + images_listed(listings)
}

/// The directories that could be watched: the explicit directories and the
/// parent of every file found, each once.
pub open spec fn root_candidates(dirs: Seq<Seq<char>>, files: Seq<Seq<char>>) -> Seq<Seq<char>> {
    distinct_paths(dirs + parents(files))
}

/// The only member of `candidates`, if it has exactly one.
pub open spec fn single(candidates: Seq<Seq<char>>) -> Option<Seq<char>> {
    if candidates.len() == 1 {
        Some(candidates[0])
    } else {
        None
    }
}

/// The watched root. It is decided once every explicit directory has been
/// listed, from the directories and the files found up to then; a listing
/// supplied after that does not change it.
pub open spec fn selected_root(inputs: Seq<PathEntry>, listings: Seq<Seq<PathEntry>>) -> Option<
    Seq<char>,
> {
    let dirs = directories_in(inputs);
    if listings.len() < dirs.len() {
        None
    } else {
        single(root_candidates(dirs, found_in(inputs, listings.take(dirs.len() as int))))
    }
}

/// The directory whose listing is wanted next: the explicit directories in
/// order, then the watched root once more if there is one, then nothing.
pub open spec fn pending_directory(inputs: Seq<PathEntry>, listings: Seq<Seq<PathEntry>>) -> Option<
    Seq<char>,
> {
    let dirs = directories_in(inputs);
    if listings.len() < dirs.len() {
        Some(dirs[listings.len() as int])
    } else if listings.len() == dirs.len() {
        selected_root(inputs, listings)
    } else {
        None
    }
}

/// The files of the snapshot: every image found, each once.
pub open spec fn resolved_files(inputs: Seq<PathEntry>, listings: Seq<Seq<PathEntry>>) -> Seq<
    Seq<char>,
> {
    distinct_paths(found_in(inputs, listings))
}

/// Filtering the regular files by recognition gives the recognized images.
pub proof fn lemma_recognized_files(entries: Seq<PathEntry>)
    ensures
        recognized_among(files_in(entries)) == images_in(entries),
    decreases entries.len(),
{
    reveal(Seq::filter);
    if entries.len() > 0 {
        lemma_recognized_files(entries.drop_last());
        let front = files_in(entries.drop_last());
        if file_of(entries.last()) is Some {
            let path = entries.last().path@;
            assert(files_in(entries) == front.push(path));
            front.lemma_filter_push(path, |path: Seq<char>| recognized(path));
        }
    } else {
        assert(files_in(entries) =~= Seq::<Seq<char>>::empty());
    }
}

/// Whether some entry of the inputs or of a listing is a recognized image
/// file at `path`.
pub open spec fn names_image(
    inputs: Seq<PathEntry>,
    listings: Seq<Seq<PathEntry>>,
    path: Seq<char>,
) -> bool {
    ||| exists|i: int| 0 <= i < inputs.len() && image_of(#[trigger] inputs[i]) == Some(path)
    ||| exists|k: int, i: int|
        0 <= k < listings.len() && 0 <= i < listings[k].len() && image_of(
            #[trigger] listings[k][i],
        ) == Some(path)
}

/// The images among `entries` are the paths of its recognized image files.
pub proof fn lemma_images_in(entries: Seq<PathEntry>, path: Seq<char>)
    ensures
        images_in(entries).contains(path) <==> exists|i: int|
            0 <= i < entries.len() && image_of(#[trigger] entries[i]) == Some(path),
    decreases entries.len(),
{
    if entries.len() > 0 {
        let front = entries.drop_last();
        let last = entries.last();
        lemma_images_in(front, path);
        if images_in(entries).contains(path) {
            let j = choose|j: int| 0 <= j < images_in(entries).len() && images_in(entries)[j] == path;
            if j < images_in(front).len() {
                assert(images_in(front)[j] == path);
                let i = choose|i: int| 0 <= i < front.len() && image_of(#[trigger] front[i]) == Some(path);
                assert(image_of(entries[i]) == Some(path));
            } else {
                assert(image_of(entries[entries.len() - 1]) == Some(path));
            }
        }
        if exists|i: int| 0 <= i < entries.len() && image_of(#[trigger] entries[i]) == Some(path) {
            let i = choose|i: int| 0 <= i < entries.len() && image_of(#[trigger] entries[i]) == Some(path);
            if i < entries.len() - 1 {
                assert(image_of(front[i]) == Some(path));
                let j = choose|j: int| 0 <= j < images_in(front).len() && images_in(front)[j] == path;
                assert(images_in(entries)[j] == path);
            } else {
                assert(images_in(entries)[images_in(front).len() as int] == path);
            }
        }
    }
}

/// The images of a run of listings are the paths of their recognized image
/// files.
pub proof fn lemma_images_listed(listings: Seq<Seq<PathEntry>>, path: Seq<char>)
    ensures
        images_listed(listings).contains(path) <==> exists|k: int, i: int|
            0 <= k < listings.len() && 0 <= i < listings[k].len() && image_of(
                #[trigger] listings[k][i],
            ) == Some(path),
    decreases listings.len(),
{
    if listings.len() > 0 {
        let front = listings.drop_last();
        let last = listings.last();
        let n = images_listed(front).len() as int;
        lemma_images_listed(front, path);
        lemma_images_in(last, path);
        if images_listed(listings).contains(path) {
            let j = choose|j: int|
                0 <= j < images_listed(listings).len() && images_listed(listings)[j] == path;
            if j < n {
                assert(images_listed(front)[j] == path);
                let (k, i) = choose|k: int, i: int|
                    0 <= k < front.len() && 0 <= i < front[k].len() && image_of(
                        #[trigger] front[k][i],
                    ) == Some(path);
                assert(image_of(listings[k][i]) == Some(path));
            } else {
                assert(images_in(last)[j - n] == path);
                let i = choose|i: int| 0 <= i < last.len() && image_of(#[trigger] last[i]) == Some(path);
                assert(image_of(listings[listings.len() - 1][i]) == Some(path));
            }
        }
        if exists|k: int, i: int|
            0 <= k < listings.len() && 0 <= i < listings[k].len() && image_of(
                #[trigger] listings[k][i],
            ) == Some(path) {
            let (k, i) = choose|k: int, i: int|
                0 <= k < listings.len() && 0 <= i < listings[k].len() && image_of(
                    #[trigger] listings[k][i],
                ) == Some(path);
            if k < listings.len() - 1 {
                assert(image_of(front[k][i]) == Some(path));
                let j = choose|j: int| 0 <= j < n && images_listed(front)[j] == path;
                assert(images_listed(listings)[j] == path);
            } else {
                assert(image_of(last[i]) == Some(path));
                let j = choose|j: int| 0 <= j < images_in(last).len() && images_in(last)[j] == path;
                assert(images_listed(listings)[n + j] == path);
            }
        }
    }
}

/// The snapshot holds the path of every recognized image file that the
/// inputs or a listing named, each exactly once, and no other path. A file
/// that is not recognized as an image is never part of it.
pub proof fn lemma_snapshot_exact(inputs: Seq<PathEntry>, listings: Seq<Seq<PathEntry>>)
    ensures
        resolved_files(inputs, listings).no_duplicates(),
        forall|path: Seq<char>| #[trigger]
            resolved_files(inputs, listings).contains(path) <==> names_image(inputs, listings, path),
        forall|path: Seq<char>| #[trigger]
            resolved_files(inputs, listings).contains(path) ==> recognized(path),
{
    let found = found_in(inputs, listings);
    lemma_distinct_paths(found);
    assert forall|path: Seq<char>| #[trigger]
        resolved_files(inputs, listings).contains(path) <==> names_image(
            inputs,
            listings,
            path,
        ) by {
        lemma_images_in(inputs, path);
        lemma_images_listed(listings, path);
        let first = images_in(inputs);
        let rest = images_listed(listings);
        assert(resolved_files(inputs, listings).to_set().contains(path) == found.to_set().contains(
            path,
        ));
        if found.contains(path) {
            let j = choose|j: int| 0 <= j < found.len() && found[j] == path;
            if j < first.len() {
                assert(first[j] == path);
            } else {
                assert(rest[j - first.len()] == path);
            }
        }
        if first.contains(path) {
            let j = choose|j: int| 0 <= j < first.len() && first[j] == path;
            assert(found[j] == path);
        }
        if rest.contains(path) {
            let j = choose|j: int| 0 <= j < rest.len() && rest[j] == path;
            assert(found[first.len() + j] == path);
        }
    }
    assert forall|path: Seq<char>| #[trigger]
        resolved_files(inputs, listings).contains(path) implies recognized(path) by {
        assert(names_image(inputs, listings, path));
    }
}

/// A root is selected exactly when every explicit directory has been listed
/// and the explicit directories and the parents of the files found by then
/// are all one and the same directory.
pub proof fn lemma_single_root(
    inputs: Seq<PathEntry>,
    listings: Seq<Seq<PathEntry>>,
    root: Seq<char>,
)
    ensures
        selected_root(inputs, listings) == Some(root) <==> {
            let dirs = directories_in(inputs);
            &&& listings.len() >= dirs.len()
            &&& (dirs + parents(found_in(inputs, listings.take(dirs.len() as int)))).to_set()
                == set![root]
        },
{
    let dirs = directories_in(inputs);
    if listings.len() >= dirs.len() {
        let all = dirs + parents(found_in(inputs, listings.take(dirs.len() as int)));
        let candidates = distinct_paths(all);
        lemma_distinct_paths(all);
        candidates.unique_seq_to_set();
        if selected_root(inputs, listings) == Some(root) {
            assert(candidates =~= seq![root]);
            assert(candidates.to_set() =~= set![root]);
        }
        if all.to_set() == set![root] {
            assert(set![root].len() == 1);
            assert(candidates.to_set().contains(candidates[0]));
        }
    }
}

/// Where two different directories are root candidates, none is selected:
/// nothing is watched and no directory is listed a second time.
pub proof fn lemma_two_directories_no_root(
    inputs: Seq<PathEntry>,
    listings: Seq<Seq<PathEntry>>,
    first: Seq<char>,
    second: Seq<char>,
)
    requires
        first != second,
        ({
            let dirs = directories_in(inputs);
            let all = dirs + parents(found_in(inputs, listings.take(dirs.len() as int)));
            all.contains(first) && all.contains(second)
        }),
    ensures
        selected_root(inputs, listings) is None,
        listings.len() >= directories_in(inputs).len() ==> pending_directory(inputs, listings)
            is None,
{
    let dirs = directories_in(inputs);
    if listings.len() >= dirs.len() {
        let all = dirs + parents(found_in(inputs, listings.take(dirs.len() as int)));
        lemma_distinct_paths(all);
        let candidates = distinct_paths(all);
        assert(candidates.to_set().contains(first));
        assert(candidates.to_set().contains(second));
        if candidates.len() == 1 {
            assert(candidates[0] == first);
            assert(candidates[0] == second);
        }
    }
}

/// Splits the entries into the regular files and the directories, each in
/// order. Entries that are neither are left out.
pub fn drain_files_dirs(entries: &Vec<PathEntry>) -> (r: (Vec<String>, Vec<String>))
    ensures
        r.0.deep_view() == files_in(entries@),
        r.1.deep_view() == directories_in(entries@),
{
    let mut files: Vec<String> = Vec::new();
    let mut dirs: Vec<String> = Vec::new();
    let mut i: usize = 0;
    assert(entries@.take(0) =~= Seq::<PathEntry>::empty());
    assert(files.deep_view() =~= files_in(entries@.take(0)));
    assert(dirs.deep_view() =~= directories_in(entries@.take(0)));
    while i < entries.len()
        invariant
            i <= entries.len(),
            files.deep_view() == files_in(entries@.take(i as int)),
            dirs.deep_view() == directories_in(entries@.take(i as int)),
        decreases entries.len() - i,
    {
        let ghost files_before = files.deep_view();
        let ghost dirs_before = dirs.deep_view();
        proof {
            entries@.lemma_filter_map_take_succ(|entry: PathEntry| file_of(entry), i as int);
            entries@.lemma_filter_map_take_succ(|entry: PathEntry| directory_of(entry), i as int);
        }
        match entries[i].kind {
            PathKind::File => {
                files.push(entries[i].path.clone());
                assert(files.deep_view() =~= files_before + seq![entries[i as int].path@]);
            },
            PathKind::Directory => {
                dirs.push(entries[i].path.clone());
                assert(dirs.deep_view() =~= dirs_before + seq![entries[i as int].path@]);
            },
            PathKind::Other => {},
        }
        i += 1;
    }
    assert(entries@.take(entries.len() as int) =~= entries@);
    (files, dirs)
}

/// Keeps the paths that are recognized as images, in order.
pub fn retain_images(paths: &Vec<String>) -> (r: Vec<String>)
    ensures
        r.deep_view() == recognized_among(paths.deep_view()),
{
    let mut out: Vec<String> = Vec::new();
    let mut i: usize = 0;
    proof {
        reveal(Seq::filter);
        assert(paths.deep_view().take(0) =~= Seq::<Seq<char>>::empty());
        assert(out.deep_view() =~= recognized_among(paths.deep_view().take(0)));
    }
    while i < paths.len()
        invariant
            i <= paths.len(),
            out.deep_view() == recognized_among(paths.deep_view().take(i as int)),
        decreases paths.len() - i,
    {
        let ghost before = out.deep_view();
        proof {
            let front = paths.deep_view().take(i as int);
            assert(paths.deep_view().take(i + 1) =~= front.push(paths[i as int]@));
            front.lemma_filter_push(paths[i as int]@, |path: Seq<char>| recognized(path));
        }
        if is_image(paths[i].as_str()) {
            out.push(paths[i].clone());
            assert(out.deep_view() =~= before.push(paths[i as int]@));
        }
        i += 1;
    }
    assert(paths.deep_view().take(paths.len() as int) =~= paths.deep_view());
    out
}

/// The recognized image files of one directory listing, in order.
pub fn collect_files(listing: &Vec<PathEntry>) -> (r: Vec<String>)
    ensures
        r.deep_view() == images_in(listing@),
{
    let mut out: Vec<String> = Vec::new();
    let mut i: usize = 0;
    assert(listing@.take(0) =~= Seq::<PathEntry>::empty());
    assert(out.deep_view() =~= images_in(listing@.take(0)));
    while i < listing.len()
        invariant
            i <= listing.len(),
            out.deep_view() == images_in(listing@.take(i as int)),
        decreases listing.len() - i,
    {
        let ghost before = out.deep_view();
        proof {
            listing@.lemma_filter_map_take_succ(|entry: PathEntry| image_of(entry), i as int);
        }
        let is_file = match listing[i].kind {
            PathKind::File => true,
            _ => false,
        };
        if is_file && is_image(listing[i].path.as_str()) {
            out.push(listing[i].path.clone());
            assert(out.deep_view() =~= before + seq![listing[i as int].path@]);
        }
        i += 1;
    }
    assert(listing@.take(listing.len() as int) =~= listing@);
    out
}


/// The watched root for the explicit directories `dirs` and the image files
/// `files`: the only root candidate, if there is exactly one.
pub fn select_root(dirs: &Vec<String>, files: &Vec<String>) -> (r: Option<String>)
    ensures
        text_of(r) == single(root_candidates(dirs.deep_view(), files.deep_view())),
{
    let mut all: Vec<String> = Vec::new();
    let mut i: usize = 0;
    while i < dirs.len()
        invariant
            i <= dirs.len(),
            all.deep_view() == dirs.deep_view().take(i as int),
        decreases dirs.len() - i,
    {
        let ghost before = all.deep_view();
        all.push(dirs[i].clone());
        assert(all.deep_view() =~= before.push(dirs[i as int]@));
        assert(all.deep_view() =~= dirs.deep_view().take(i + 1));
        i += 1;
    }
    let mut k: usize = 0;
    proof {
        assert(dirs.deep_view().take(dirs.len() as int) =~= dirs.deep_view());
        assert(files.deep_view().take(0) =~= Seq::<Seq<char>>::empty());
        assert(all.deep_view() =~= dirs.deep_view() + parents(files.deep_view().take(0)));
    }
    while k < files.len()
        invariant
            k <= files.len(),
            all.deep_view() == dirs.deep_view() + parents(files.deep_view().take(k as int)),
        decreases files.len() - k,
    {
        let ghost before = all.deep_view();
        proof {
            files.deep_view().lemma_filter_map_take_succ(
                |path: Seq<char>| path_parent(path),
                k as int,
            );
        }
        match parent(&files[k]) {
            Some(dir) => {
                all.push(dir);
                assert(all.deep_view() =~= before + seq![dir@]);
            },
            None => {},
        }
        k += 1;
    }
    assert(files.deep_view().take(files.len() as int) =~= files.deep_view());
    let roots = distinct(&all);
    if roots.len() == 1 {
        Some(roots[0].clone())
    } else {
        None
    }
}

/// Path resolution in progress.
///
/// Its state is what it was given: the inputs, and the directory listings
/// accepted so far. `pending` names the directory whose listing it wants
/// next; `accept` takes that listing; `finish` gives the outcome.
pub struct Resolver {
    dirs: Vec<String>,
    found: Vec<String>,
    listed: usize,
    root: Option<String>,
    rescanned: bool,
    inputs: Ghost<Seq<PathEntry>>,
    listings: Ghost<Seq<Seq<PathEntry>>>,
}

impl Resolver {
    #[verifier::type_invariant]
    spec fn consistent(self) -> bool {
        &&& self.dirs.deep_view() == directories_in(self.inputs@)
        &&& self.found.deep_view() == found_in(self.inputs@, self.listings@)
        &&& self.listed <= self.dirs.len()
        &&& self.listings@.len() == self.listed + (if self.rescanned { 1int } else { 0int })
        &&& self.rescanned ==> self.listed == self.dirs.len() && self.root is Some
        &&& self.listed == self.dirs.len() ==> text_of(self.root) == selected_root(
            self.inputs@,
            self.listings@,
        )
    }

    /// The entries that resolution started from.
    pub closed spec fn inputs(self) -> Seq<PathEntry> {
        self.inputs@
    }

    /// The directory listings accepted so far, in order.
    pub closed spec fn listings(self) -> Seq<Seq<PathEntry>> {
        self.listings@
    }

    /// Starts resolution from the canonicalized input paths.
    pub fn new(inputs: Vec<PathEntry>) -> (r: Resolver)
        ensures
            r.inputs() == inputs@,
            r.listings() == Seq::<Seq<PathEntry>>::empty(),
    {
        let (files, dirs) = drain_files_dirs(&inputs);
        let found = retain_images(&files);
        proof {
            lemma_recognized_files(inputs@);
            assert(found.deep_view() =~= found_in(inputs@, Seq::empty()));
            assert(Seq::<Seq<PathEntry>>::empty().take(0) =~= Seq::<Seq<PathEntry>>::empty());
        }
        let root = if dirs.len() == 0 {
            select_root(&dirs, &found)
        } else {
            None
        };
        Resolver {
            dirs,
            found,
            listed: 0,
            root,
            rescanned: false,
            inputs: Ghost(inputs@),
            listings: Ghost(Seq::empty()),
        }
    }

    /// The directory whose listing is wanted next, if any.
    pub fn pending(&self) -> (r: Option<String>)
        ensures
            text_of(r) == pending_directory(self.inputs(), self.listings()),
    {
        proof {
            use_type_invariant(self);
        }
        if self.listed < self.dirs.len() {
            Some(self.dirs[self.listed].clone())
        } else if !self.rescanned {
            match &self.root {
                Some(dir) => Some(dir.clone()),
                None => None,
            }
        } else {
            None
        }
    }

    /// Takes the listing of the pending directory. Where no directory is
    /// pending, the listing is dropped.
    pub fn accept(self, listing: Vec<PathEntry>) -> (r: Resolver)
        ensures
            r.inputs() == self.inputs(),
            r.listings() == if pending_directory(self.inputs(), self.listings()) is Some {
                self.listings().push(listing@)
            } else {
                self.listings()
            },
    {
        proof {
            use_type_invariant(&self);
        }
        let ghost before = self.listings@;
        let ghost after = self.listings@.push(listing@);
        let wanted = self.listed < self.dirs.len() || (!self.rescanned && self.root.is_some());
        if !wanted {
            return self;
        }
        let Resolver { dirs, found, listed, root, rescanned, inputs, listings } = self;
        let mut found = found;
        let mut more = collect_files(&listing);
        let ghost found_before = found.deep_view();
        let ghost more_view = more.deep_view();
        found.append(&mut more);
        proof {
            assert(after.drop_last() =~= before);
            assert(found.deep_view() =~= found_before + more_view);
            assert(found.deep_view() =~= found_in(inputs@, after));
        }
        if listed < dirs.len() {
            let listed = listed + 1;
            let root = if listed == dirs.len() {
                proof {
                    assert(after.take(dirs.len() as int) =~= after);
                }
                select_root(&dirs, &found)
            } else {
                None
            };
            Resolver { dirs, found, listed, root, rescanned: false, inputs, listings: Ghost(after) }
        } else {
            proof {
                assert(after.take(dirs.len() as int) =~= before.take(dirs.len() as int));
            }
            Resolver { dirs, found, listed, root, rescanned: true, inputs, listings: Ghost(after) }
        }
    }

    /// Ends resolution. The root is the one selected after the explicit
    /// directories were listed, or none if they were not all listed; the
    /// files are the images found, each once, in the order they were found.
    pub fn finish(self) -> (r: Resolution)
        ensures
            text_of(r.root) == selected_root(self.inputs(), self.listings()),
            r.files.deep_view() == resolved_files(self.inputs(), self.listings()),
    {
        proof {
            use_type_invariant(&self);
        }
        let files = distinct(&self.found);
        let root = if self.listed == self.dirs.len() {
            self.root
        } else {
            None
        };
        Resolution { root, files }
    }
}

} // verus!
