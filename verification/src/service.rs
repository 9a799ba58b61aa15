//! What the service decides when it starts and when a decode job is
//! submitted and completed.

use vstd::prelude::*;
use crate::error::{DecodeErrorView, DecodeStage};
use crate::events::{
    decoded_view, event_views, initial_events, lemma_snapshot_events, snapshot_events, Decoded,
    DecodedView, FileEventView, FileSystemEvent, FileSystemEventView, InternalFSEvent,
    InternalFSEventView, OperationEventView,
};
use crate::format::recognized;
use crate::funnel::{funnel_stream, lemma_completions_are_not_merged};
use crate::resolver::{
    lemma_snapshot_exact, names_image, resolved_files, text_of, PathEntry, Resolution,
};
use crate::thumbnail::{resize_message, thumbnail_of, thumbnail_within_limits, to_thumbnail};

verus! {

/// The largest number of threads in a worker pool.
pub const MAX_POOL_THREADS: usize = 4;

/// The debounce window of the watch, in seconds.
pub const DEBOUNCE_SECONDS: u64 = 10;

/// `num_cpus::get` returns the number of logical cores available to the
/// process, which is at least one. The number depends on the machine.
pub assume_specification[ num_cpus::get ]() -> (n: usize)
    ensures
        n >= 1,
;

/// The number of threads of a worker pool on a machine with `cpus` cores:
/// one per core, but no more than four.
pub open spec fn pool_threads(cpus: nat) -> nat {
    if cpus < MAX_POOL_THREADS {
        cpus
    } else {
        MAX_POOL_THREADS as nat
    }
}

/// The number of threads of a worker pool on a machine with `cpus` cores.
pub fn pool_size(cpus: usize) -> (n: usize)
    ensures
        n == pool_threads(cpus as nat),
{
    if cpus < MAX_POOL_THREADS {
        cpus
    } else {
        MAX_POOL_THREADS
    }
}

/// How a directory is watched.
#[derive(Clone, Debug, PartialEq, Eq)]
pub struct Watch {
    /// The directory to watch.
    pub directory: String,
    /// Whether its subdirectories are watched too.
    pub recursive: bool,
    /// The window, in seconds, over which rapid changes of one path are
    /// merged into one notification.
    pub debounce_seconds: u64,
}

/// What `start` sets up, in the order it sets it up: the watch, the two
/// worker pools, and the events that seed the consumer's stream.
#[derive(Debug, PartialEq, Eq)]
pub struct Startup {
    /// The watch to start; `None` where nothing is watched.
    pub watch: Option<Watch>,
    /// The number of threads that make thumbnails.
    pub thumbnail_threads: usize,
    /// The number of threads that load full images.
    pub image_threads: usize,
    /// One `Added` event for each file of the snapshot.
    pub initial: Vec<FileSystemEvent>,
}

/// The directory that a start watches, if it watches one.
pub open spec fn watched(startup: Startup) -> Option<Seq<char>> {
    match startup.watch {
        Some(watch) => Some(watch.directory@),
        None => None,
    }
}

/// Whether the watch of a start, if it has one, is of the only kind that the
/// service uses: the directory alone, with the fixed debounce window.
pub open spec fn watch_is_flat(startup: Startup) -> bool {
    match startup.watch {
        Some(watch) => !watch.recursive && watch.debounce_seconds == DEBOUNCE_SECONDS,
        None => true,
    }
}

/// The watch on `dir`: the directory alone, without its subdirectories, with
/// changes merged over the debounce window.
pub fn start_notify(dir: String) -> (r: Watch)
    ensures
        r.directory == dir,
        !r.recursive,
        r.debounce_seconds == DEBOUNCE_SECONDS,
{
    Watch { directory: dir, recursive: false, debounce_seconds: DEBOUNCE_SECONDS }
}

/// The start of the service on a machine with `cpus` cores. The resolved
/// root is watched, and nothing else; both pools have the same size, each
/// with threads of its own; every resolved file is announced once.
pub fn plan_start(resolution: Resolution, cpus: usize) -> (r: Startup)
    ensures
        watched(r) == text_of(resolution.root),
        watch_is_flat(r),
        r.thumbnail_threads == pool_threads(cpus as nat),
        r.image_threads == pool_threads(cpus as nat),
        event_views(r.initial@) == snapshot_events(resolution.files.deep_view()),
{
    let initial = initial_events(&resolution.files);
    let watch = match resolution.root {
        Some(root) => Some(start_notify(root)),
        None => None,
    };
    Startup {
        watch,
        thumbnail_threads: pool_size(cpus),
        image_threads: pool_size(cpus),
        initial,
    }
}

/// The start of the service on this machine. The pools have between one and
/// four threads each, as many as the machine has cores up to four.
pub fn start(resolution: Resolution) -> (r: Startup)
    ensures
        watched(r) == text_of(resolution.root),
        watch_is_flat(r),
        1 <= r.thumbnail_threads <= MAX_POOL_THREADS,
        r.image_threads == r.thumbnail_threads,
        event_views(r.initial@) == snapshot_events(resolution.files.deep_view()),
{
    plan_start(resolution, num_cpus::get())
}

/// A decode job as submitted.
#[derive(Clone, Debug, PartialEq, Eq)]
pub enum Job {
    /// Load the image at the path in full.
    Image(String),
    /// Load the image at the path and scale it to fit a square box of the
    /// given size.
    Thumbnail(String, u32),
}

/// The two worker pools. Each has threads of its own, so that making
/// thumbnails cannot hold up the loading of full images, nor the reverse.
#[derive(Clone, Copy, Debug, PartialEq, Eq, Structural)]
pub enum Pool {
    Thumbnails,
    Images,
}

/// The model of a `Job`.
pub enum JobView {
    Image(Seq<char>),
    Thumbnail(Seq<char>, nat),
}

impl View for Job {
    type V = JobView;

    open spec fn view(&self) -> JobView {
        match *self {
            Job::Image(path) => JobView::Image(path@),
            Job::Thumbnail(path, size) => JobView::Thumbnail(path@, size as nat),
        }
    }
}

/// The job that loads the image at `path` in full. Every call gives a job
/// of its own: nothing remembers the paths already submitted.
pub fn read_file(path: &str) -> (r: Job)
    ensures
        r@ == JobView::Image(path@),
{
    Job::Image(path.to_owned())
}

/// The job that makes a thumbnail of the image at `path` for a square box of
/// `size` pixels.
pub fn read_thumbnail(path: &str, size: u32) -> (r: Job)
    ensures
        r@ == JobView::Thumbnail(path@, size as nat),
{
    Job::Thumbnail(path.to_owned(), size)
}

/// What a thumbnail job makes of the decoder's result: the thumbnail of the
/// image, a resize error where the image is beyond the limits of scaling,
/// and the decoder's own error as it is.
pub open spec fn thumbnail_result(decoded: DecodedView, size: nat) -> DecodedView {
    match decoded {
        Ok(image) => if thumbnail_within_limits(image, size) {
            Ok(thumbnail_of(image, size))
        } else {
            Err(DecodeErrorView { stage: DecodeStage::Resize, message: resize_message() })
        },
        Err(error) => Err(error),
    }
}

/// What a job posts to the funnel once the decoder has answered. A
/// full-image job reports the decoder's result unchanged.
pub open spec fn completion(job: JobView, decoded: DecodedView) -> InternalFSEventView {
    match job {
        JobView::Image(path) => InternalFSEventView::Op(
            OperationEventView::ImageLoaded(path, decoded),
        ),
        JobView::Thumbnail(path, size) => InternalFSEventView::Op(
            OperationEventView::ThumbnailLoaded(path, thumbnail_result(decoded, size)),
        ),
    }
}

/// The pool that runs a job: thumbnail jobs and full-image jobs never share
/// threads.
pub open spec fn pool_of(job: JobView) -> Pool {
    match job {
        JobView::Image(_) => Pool::Images,
        JobView::Thumbnail(_, _) => Pool::Thumbnails,
    }
}

impl Job {
    /// The pool that runs the job.
    pub fn pool(&self) -> (r: Pool)
        ensures
            r == pool_of(self@),
    {
        match self {
            Job::Image(_) => Pool::Images,
            Job::Thumbnail(_, _) => Pool::Thumbnails,
        }
    }

    /// The path that the job reads.
    pub fn path(&self) -> (r: &String)
        ensures
            r@ == match self@ {
                JobView::Image(path) => path,
                JobView::Thumbnail(path, _) => path,
            },
    {
        match self {
            Job::Image(path) => path,
            Job::Thumbnail(path, _) => path,
        }
    }

    /// Finishes the job with the decoder's result and gives the event to
    /// post. A failure of the decoder is part of the event.
    pub fn complete(self, decoded: Decoded) -> (r: InternalFSEvent)
        ensures
            r@ == completion(self@, decoded_view(decoded)),
    {
        match self {
            Job::Image(path) => InternalFSEvent::image_loaded(path, decoded),
            Job::Thumbnail(path, size) => {
                let result = match decoded {
                    Ok(image) => to_thumbnail(image, size),
                    Err(error) => Err(error),
                };
                InternalFSEvent::thumbnail_loaded(path, result)
            },
        }
    }
}

/// The consumer's stream starts with exactly one `Added` event for each
/// recognized image file that the inputs or a directory listing named, each
/// event for a path of its own, and with no event for any other file.
pub proof fn lemma_snapshot_is_announced(inputs: Seq<PathEntry>, listings: Seq<Seq<PathEntry>>)
    ensures
        ({
            let files = resolved_files(inputs, listings);
            let events = snapshot_events(files);
            &&& events.len() == files.len()
            &&& events.no_duplicates()
            &&& forall|i: int|
                0 <= i < events.len() ==> #[trigger] events[i] == FileSystemEventView::FileEvent(
                    FileEventView::Added(files[i]),
                )
            &&& forall|path: Seq<char>|
                names_image(inputs, listings, path) <==> #[trigger] events.contains(
                    FileSystemEventView::FileEvent(FileEventView::Added(path)),
                )
            &&& forall|path: Seq<char>|
                !recognized(path) ==> !#[trigger] events.contains(
                    FileSystemEventView::FileEvent(FileEventView::Added(path)),
                )
        }),
{
    let files = resolved_files(inputs, listings);
    let events = snapshot_events(files);
    lemma_snapshot_exact(inputs, listings);
    lemma_snapshot_events(files);
    assert forall|path: Seq<char>|
        names_image(inputs, listings, path) <==> #[trigger] events.contains(
            FileSystemEventView::FileEvent(FileEventView::Added(path)),
        ) by {
        let event = FileSystemEventView::FileEvent(FileEventView::Added(path));
        if files.contains(path) {
            let i = choose|i: int| 0 <= i < files.len() && files[i] == path;
            assert(events[i] == event);
        }
        if events.contains(event) {
            let i = choose|i: int| 0 <= i < events.len() && events[i] == event;
            assert(files[i] == path);
        }
    }
    assert forall|path: Seq<char>| !recognized(path) implies !#[trigger] events.contains(
        FileSystemEventView::FileEvent(FileEventView::Added(path)),
    ) by {
        if names_image(inputs, listings, path) {
            assert(files.contains(path));
        }
    }
}

/// A job for a file that cannot be read still completes: its event names the
/// path and carries the decoder's error.
pub proof fn lemma_failed_read_is_reported(path: Seq<char>, error: DecodeErrorView)
    ensures
        completion(JobView::Image(path), Err(error)) == InternalFSEventView::Op(
            OperationEventView::ImageLoaded(path, Err(error)),
        ),
        funnel_stream(seq![completion(JobView::Image(path), Err(error))]) == seq![
            FileSystemEventView::OperationEvent(OperationEventView::ImageLoaded(path, Err(error))),
        ],
{
    let input = seq![completion(JobView::Image(path), Err(error))];
    assert(input.drop_last() =~= Seq::<InternalFSEventView>::empty());
    assert(funnel_stream(input.drop_last()) =~= Seq::<FileSystemEventView>::empty());
    assert(funnel_stream(input) =~= seq![
        FileSystemEventView::OperationEvent(OperationEventView::ImageLoaded(path, Err(error))),
    ]);
}

/// Two full-image jobs for one path give two events, each with the result
/// of its own decoding: submissions are not deduplicated.
pub proof fn lemma_submissions_are_independent(
    path: Seq<char>,
    first: DecodedView,
    second: DecodedView,
)
    ensures
        funnel_stream(
            seq![
                completion(JobView::Image(path), first),
                completion(JobView::Image(path), second),
            ],
        ) == seq![
            FileSystemEventView::OperationEvent(OperationEventView::ImageLoaded(path, first)),
            FileSystemEventView::OperationEvent(OperationEventView::ImageLoaded(path, second)),
        ],
{
    lemma_completions_are_not_merged(
        OperationEventView::ImageLoaded(path, first),
        OperationEventView::ImageLoaded(path, second),
    );
}

} // verus!
