//! The file operations that the library asks its host to perform, what the
//! host reports back, and the file store that the library's laws are stated
//! against.
//!
//! The library never touches a file. A task of the library hands out one
//! [`IoAction`] at a time; the host performs it and answers with an
//! [`IoOutcome`].

use vstd::prelude::*;

verus! {

/// One file operation for the host to perform.
#[derive(Debug, Clone, PartialEq, Eq)]
pub enum IoAction {
    /// Create the directory at `path` and every missing ancestor of it.
    CreateDirectories { path: String },
    /// Create an empty file at `path`; refuse if anything exists there.
    CreateNewFile { path: String },
    /// Write `bytes` as the whole contents of the file just created at `path`.
    WriteAll { path: String, bytes: Vec<u8> },
    /// Read the whole contents of the file at `path`.
    ReadFile { path: String },
}

/// What an [`IoAction`] is, as mathematical values.
pub enum IoActionView {
    CreateDirectories { path: Seq<char> },
    CreateNewFile { path: Seq<char> },
    WriteAll { path: Seq<char>, bytes: Seq<u8> },
    ReadFile { path: Seq<char> },
}

impl View for IoAction {
    type V = IoActionView;

    open spec fn view(&self) -> IoActionView {
        match self {
            IoAction::CreateDirectories { path } => IoActionView::CreateDirectories { path: path@ },
            IoAction::CreateNewFile { path } => IoActionView::CreateNewFile { path: path@ },
            IoAction::WriteAll { path, bytes } => IoActionView::WriteAll {
                path: path@,
                bytes: bytes@,
            },
            IoAction::ReadFile { path } => IoActionView::ReadFile { path: path@ },
        }
    }
}

/// What the host reports after performing an [`IoAction`].
#[derive(Debug, Clone, PartialEq, Eq)]
pub enum IoOutcome {
    /// The operation succeeded and has nothing to hand back.
    Done,
    /// The operation succeeded and read these bytes.
    Data(Vec<u8>),
    /// The operation was refused because something exists at the path.
    AlreadyExists,
    /// The operation failed because nothing exists at the path.
    NotFound,
    /// The operation failed for another reason, described by the text.
    Failed(String),
}

/// What an [`IoOutcome`] is, as mathematical values.
pub enum IoOutcomeView {
    Done,
    Data(Seq<u8>),
    AlreadyExists,
    NotFound,
    Failed(Seq<char>),
}

impl View for IoOutcome {
    type V = IoOutcomeView;

    open spec fn view(&self) -> IoOutcomeView {
        match self {
            IoOutcome::Done => IoOutcomeView::Done,
            IoOutcome::Data(bytes) => IoOutcomeView::Data(bytes@),
            IoOutcome::AlreadyExists => IoOutcomeView::AlreadyExists,
            IoOutcome::NotFound => IoOutcomeView::NotFound,
            IoOutcome::Failed(detail) => IoOutcomeView::Failed(detail@),
        }
    }
}

/// The text that describes a failed operation: the host's own words for
/// `Failed`, nothing for the other outcomes.
pub open spec fn failure_detail(outcome: IoOutcomeView) -> Seq<char> {
    match outcome {
        IoOutcomeView::Failed(detail) => detail,
        _ => Seq::empty(),
    }
}

/// The text that describes a failed operation.
pub fn detail_of(outcome: IoOutcome) -> (detail: String)
    ensures
        detail@ == failure_detail(outcome@),
{
    match outcome {
        IoOutcome::Failed(detail) => detail,
        _ => String::new(),
    }
}

/// A file store that never fails: a map from paths to file contents.
pub type FileStore = Map<Seq<char>, Seq<u8>>;

/// What a file store that never fails does with an action: the store after
/// it, and the outcome that it reports. Creating a file refuses to touch a
/// path that is taken; writing replaces the contents of an existing file;
/// reading hands out the contents unchanged; directories are always there.
pub open spec fn perform(store: FileStore, action: IoActionView) -> (FileStore, IoOutcomeView) {
    match action {
        IoActionView::CreateDirectories { path } => (store, IoOutcomeView::Done),
        IoActionView::CreateNewFile { path } => if store.contains_key(path) {
            (store, IoOutcomeView::AlreadyExists)
        } else {
            (store.insert(path, Seq::empty()), IoOutcomeView::Done)
        },
        IoActionView::WriteAll { path, bytes } => if store.contains_key(path) {
            (store.insert(path, bytes), IoOutcomeView::Done)
        } else {
            (store, IoOutcomeView::NotFound)
        },
        IoActionView::ReadFile { path } => if store.contains_key(path) {
            (store, IoOutcomeView::Data(store[path]))
        } else {
            (store, IoOutcomeView::NotFound)
        },
    }
}

} // verus!
