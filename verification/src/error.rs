//! The errors that the service reports, as plain values.

use vstd::prelude::*;

verus! {

/// Where a failure that stops the service from starting came from.
#[derive(Clone, Copy, Debug, PartialEq, Eq, Structural)]
pub enum ConstructionErrorKind {
    /// The operating system refused a file or directory operation.
    Io,
    /// Anything else: the watch or a worker pool could not be set up.
    Other,
}

/// A failure during path resolution or watch setup. It is fatal: no service
/// is created.
#[derive(Clone, Debug, PartialEq, Eq)]
pub struct ConstructionError {
    pub kind: ConstructionErrorKind,
    pub message: String,
}

/// Why the native directory watch could not be initialised.
#[derive(Clone, Debug, PartialEq, Eq)]
pub enum WatchSetupError {
    /// An I/O failure, with the system's message.
    Io(String),
    /// The directory to watch does not exist.
    PathNotFound,
    /// The watch to remove was never registered.
    WatchNotFound,
    /// A failure that the watcher describes in its own words.
    Generic(String),
}

/// The step of a decode job that failed.
#[derive(Clone, Copy, Debug, PartialEq, Eq, Structural)]
pub enum DecodeStage {
    /// The file could not be opened.
    Open,
    /// The file's contents are not a readable image.
    Decode,
    /// The decoded image could not be scaled down.
    Resize,
}

/// The failure of one decode job. It travels inside the job's completion
/// event and never stops the service.
#[derive(Clone, Debug, PartialEq, Eq)]
pub struct DecodeError {
    pub stage: DecodeStage,
    pub message: String,
}

/// The model of a decode failure: its stage and the text of its message.
pub struct DecodeErrorView {
    pub stage: DecodeStage,
    pub message: Seq<char>,
}

impl View for DecodeError {
    type V = DecodeErrorView;

    open spec fn view(&self) -> DecodeErrorView {
        DecodeErrorView { stage: self.stage, message: self.message@ }
    }
}

/// The text that `map_err_notify` gives the error it builds from `err`.
pub open spec fn watch_error_message(err: WatchSetupError) -> Seq<char> {
    match err {
        WatchSetupError::Io(message) => message@,
        WatchSetupError::PathNotFound => "Path not found"@,
        WatchSetupError::WatchNotFound => "Watch not found"@,
        WatchSetupError::Generic(message) => message@,
    }
}

/// The kind that `map_err_notify` gives the error it builds from `err`.
pub open spec fn watch_error_kind(err: WatchSetupError) -> ConstructionErrorKind {
    match err {
        WatchSetupError::Io(_) => ConstructionErrorKind::Io,
        _ => ConstructionErrorKind::Other,
    }
}

/// Turns a watch setup failure into the error that `start` returns. An I/O
/// failure passes through with its message; the others become `Other`, with
/// a fixed text for a missing path and a missing watch.
pub fn map_err_notify(err: WatchSetupError) -> (r: ConstructionError)
    ensures
        r.kind == watch_error_kind(err),
        r.message@ == watch_error_message(err),
{
    match err {
        WatchSetupError::Io(message) => ConstructionError {
            kind: ConstructionErrorKind::Io,
            message,
        },
        WatchSetupError::PathNotFound => ConstructionError {
            kind: ConstructionErrorKind::Other,
            message: "Path not found".to_owned(),
        },
        WatchSetupError::WatchNotFound => ConstructionError {
            kind: ConstructionErrorKind::Other,
            message: "Watch not found".to_owned(),
        },
        WatchSetupError::Generic(message) => ConstructionError {
            kind: ConstructionErrorKind::Other,
            message,
        },
    }
}

} // verus!
