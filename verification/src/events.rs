//! The events of the service: what the watcher reports, what decode jobs
//! report, and the single shape in which both reach the consumer.

use vstd::prelude::*;
use crate::error::{DecodeError, DecodeErrorView};
use crate::format::{is_image, recognized};
use crate::pixels::{PixelBuffer, PixelsView};

verus! {

/// A change notification as the directory watcher delivers it.
#[derive(Clone, Debug, PartialEq, Eq)]
pub enum RawEvent {
    /// Something was created at the path.
    Create(String),
    /// The file at the path was written to.
    Write(String),
    /// What was at the path is gone.
    Remove(String),
    /// What was at the first path is now at the second.
    Rename(String, String),
    /// Any other notice. It is dropped.
    Other,
}

/// A change of the set of image files.
#[derive(Clone, Debug, PartialEq, Eq)]
pub enum FileEvent {
    Added(String),
    Removed(String),
    Modified(String),
    Renamed(String, String),
}

/// The result of a decode job: the image, or why there is none.
pub type Decoded = Result<PixelBuffer, DecodeError>;

/// The completion of a decode job, with the path it was submitted for.
#[derive(Debug, PartialEq, Eq)]
pub enum OperationEvent {
    ThumbnailLoaded((String, Decoded)),
    ImageLoaded((String, Decoded)),
}

/// What the funnel receives from its two sources.
#[derive(Debug, PartialEq, Eq)]
pub enum InternalFSEvent {
    Notify(RawEvent),
    Op(OperationEvent),
}

/// What the consumer receives.
#[derive(Debug, PartialEq, Eq)]
pub enum FileSystemEvent {
    FileEvent(FileEvent),
    OperationEvent(OperationEvent),
}

/// The model of a `RawEvent`.
pub enum RawEventView {
    Create(Seq<char>),
    Write(Seq<char>),
    Remove(Seq<char>),
    Rename(Seq<char>, Seq<char>),
    Other,
}

/// The model of a `FileEvent`.
pub enum FileEventView {
    Added(Seq<char>),
    Removed(Seq<char>),
    Modified(Seq<char>),
    Renamed(Seq<char>, Seq<char>),
}

/// The model of a job's result.
pub type DecodedView = Result<PixelsView, DecodeErrorView>;

/// The model of an `OperationEvent`.
pub enum OperationEventView {
    ThumbnailLoaded(Seq<char>, DecodedView),
    ImageLoaded(Seq<char>, DecodedView),
}

/// The model of an `InternalFSEvent`.
pub enum InternalFSEventView {
    Notify(RawEventView),
    Op(OperationEventView),
}

/// The model of a `FileSystemEvent`.
pub enum FileSystemEventView {
    FileEvent(FileEventView),
    OperationEvent(OperationEventView),
}

impl View for RawEvent {
    type V = RawEventView;

    open spec fn view(&self) -> RawEventView {
        match *self {
            RawEvent::Create(path) => RawEventView::Create(path@),
            RawEvent::Write(path) => RawEventView::Write(path@),
            RawEvent::Remove(path) => RawEventView::Remove(path@),
            RawEvent::Rename(old, new) => RawEventView::Rename(old@, new@),
            RawEvent::Other => RawEventView::Other,
        }
    }
}

impl View for FileEvent {
    type V = FileEventView;

    open spec fn view(&self) -> FileEventView {
        match *self {
            FileEvent::Added(path) => FileEventView::Added(path@),
            FileEvent::Removed(path) => FileEventView::Removed(path@),
            FileEvent::Modified(path) => FileEventView::Modified(path@),
            FileEvent::Renamed(old, new) => FileEventView::Renamed(old@, new@),
        }
    }
}

/// The model of the result `decoded`.
pub open spec fn decoded_view(decoded: Decoded) -> DecodedView {
    match decoded {
        Ok(image) => Ok(image@),
        Err(error) => Err(error@),
    }
}

impl View for OperationEvent {
    type V = OperationEventView;

    open spec fn view(&self) -> OperationEventView {
        match *self {
            OperationEvent::ThumbnailLoaded((path, decoded)) => OperationEventView::ThumbnailLoaded(
                path@,
                decoded_view(decoded),
            ),
            OperationEvent::ImageLoaded((path, decoded)) => OperationEventView::ImageLoaded(
                path@,
                decoded_view(decoded),
            ),
        }
    }
}

impl View for InternalFSEvent {
    type V = InternalFSEventView;

    open spec fn view(&self) -> InternalFSEventView {
        match *self {
            InternalFSEvent::Notify(raw) => InternalFSEventView::Notify(raw@),
            InternalFSEvent::Op(operation) => InternalFSEventView::Op(operation@),
        }
    }
}

impl View for FileSystemEvent {
    type V = FileSystemEventView;

    open spec fn view(&self) -> FileSystemEventView {
        match *self {
            FileSystemEvent::FileEvent(event) => FileSystemEventView::FileEvent(event@),
            FileSystemEvent::OperationEvent(event) => FileSystemEventView::OperationEvent(event@),
        }
    }
}

/// The model of an event that may be absent.
pub open spec fn optional_view(event: Option<FileSystemEvent>) -> Option<FileSystemEventView> {
    match event {
        Some(e) => Some(e@),
        None => None,
    }
}

/// The classification of a raw notification. A creation or a write counts
/// only for a path recognized as an image. A removal and a rename always
/// count, whatever the path. Everything else is dropped.
pub open spec fn classified(raw: RawEventView) -> Option<FileEventView> {
    match raw {
        RawEventView::Create(path) => if recognized(path) {
            Some(FileEventView::Added(path))
        } else {
            None
        },
        RawEventView::Write(path) => if recognized(path) {
            Some(FileEventView::Modified(path))
        } else {
            None
        },
        RawEventView::Remove(path) => Some(FileEventView::Removed(path)),
        RawEventView::Rename(old, new) => Some(FileEventView::Renamed(old, new)),
        RawEventView::Other => None,
    }
}

/// What the funnel forwards for a raw notification.
pub open spec fn notify_output(raw: RawEventView) -> Option<FileSystemEventView> {
    match classified(raw) {
        Some(event) => Some(FileSystemEventView::FileEvent(event)),
        None => None,
    }
}

/// Classifies a raw notification and wraps what is left of it for the
/// consumer.
pub fn process_notify_event(event: RawEvent) -> (r: Option<FileSystemEvent>)
    ensures
        optional_view(r) == notify_output(event@),
{
    let classified = match event {
        RawEvent::Create(path) => {
            if is_image(path.as_str()) {
                Some(FileEvent::Added(path))
            } else {
                None
            }
        },
        RawEvent::Write(path) => {
            if is_image(path.as_str()) {
                Some(FileEvent::Modified(path))
            } else {
                None
            }
        },
        RawEvent::Remove(path) => Some(FileEvent::Removed(path)),
        RawEvent::Rename(old_path, new_path) => Some(FileEvent::Renamed(old_path, new_path)),
        RawEvent::Other => None,
    };
    match classified {
        Some(event) => Some(FileSystemEvent::FileEvent(event)),
        None => None,
    }
}

/// Wraps a job's completion for the consumer, unchanged.
pub fn process_operation_event(event: OperationEvent) -> (r: FileSystemEvent)
    ensures
        r == FileSystemEvent::OperationEvent(event),
        r@ == FileSystemEventView::OperationEvent(event@),
{
    FileSystemEvent::OperationEvent(event)
}

impl InternalFSEvent {
    /// The completion of a full-image job, as the funnel receives it.
    pub fn image_loaded(path: String, image: Decoded) -> (r: InternalFSEvent)
        ensures
            r == InternalFSEvent::Op(OperationEvent::ImageLoaded((path, image))),
            r@ == InternalFSEventView::Op(
                OperationEventView::ImageLoaded(path@, decoded_view(image)),
            ),
    {
        InternalFSEvent::Op(OperationEvent::ImageLoaded((path, image)))
    }

    /// The completion of a thumbnail job, as the funnel receives it.
    pub fn thumbnail_loaded(path: String, image: Decoded) -> (r: InternalFSEvent)
        ensures
            r == InternalFSEvent::Op(OperationEvent::ThumbnailLoaded((path, image))),
            r@ == InternalFSEventView::Op(
                OperationEventView::ThumbnailLoaded(path@, decoded_view(image)),
            ),
    {
        InternalFSEvent::Op(OperationEvent::ThumbnailLoaded((path, image)))
    }
}

/// The events that announce the files of the initial snapshot.
pub open spec fn snapshot_events(files: Seq<Seq<char>>) -> Seq<FileSystemEventView> {
    files.map_values(
        |path: Seq<char>| FileSystemEventView::FileEvent(FileEventView::Added(path)),
    )
}

/// The models of a list of events.
pub open spec fn event_views(events: Seq<FileSystemEvent>) -> Seq<FileSystemEventView> {
    events.map_values(|event: FileSystemEvent| event@)
}

/// The snapshot is announced file by file: as many events as files, the
/// event in each place an `Added` for the file in that place, and no event
/// twice where no file occurs twice.
pub proof fn lemma_snapshot_events(files: Seq<Seq<char>>)
    ensures
        snapshot_events(files).len() == files.len(),
        forall|i: int|
            0 <= i < files.len() ==> #[trigger] snapshot_events(files)[i]
                == FileSystemEventView::FileEvent(FileEventView::Added(files[i])),
        files.no_duplicates() ==> snapshot_events(files).no_duplicates(),
{
}

/// One `Added` event for each file of the snapshot, in order: the initial
/// snapshot reaches the consumer in the shape of live updates.
pub fn initial_events(files: &Vec<String>) -> (r: Vec<FileSystemEvent>)
    ensures
        event_views(r@) == snapshot_events(files.deep_view()),
{
    let mut events: Vec<FileSystemEvent> = Vec::new();
    let mut i: usize = 0;
    while i < files.len()
        invariant
            i <= files.len(),
            events@.len() == i,
            forall|j: int|
                0 <= j < i ==> (#[trigger] events@[j])@ == FileSystemEventView::FileEvent(
                    FileEventView::Added(files@[j]@),
                ),
        decreases files.len() - i,
    {
        events.push(FileSystemEvent::FileEvent(FileEvent::Added(files[i].clone())));
        i += 1;
    }
    assert(event_views(events@) =~= snapshot_events(files.deep_view()));
    events
}

} // verus!
