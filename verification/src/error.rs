use vstd::prelude::*;
use vstd::std_specs::convert::FromSpecImpl;
use crate::clip::ClipboardKind;

verus! {

/// What a clipboard backend answers when it has no content to give.
#[derive(Clone, Debug, PartialEq, Eq)]
pub enum BackendError {
    /// The clipboard holds nothing.
    EmptyClipboard,
    /// The clipboard holds nothing in the format that was asked for.
    MatchMime { expected_mime: String },
    /// The type of the content is not known.
    UnknownContentType,
    /// The backend cannot read this kind of clipboard.
    UnsupportedClipboardKind { kind: ClipboardKind },
    /// The backend failed.
    Failure { message: String },
}

impl BackendError {
    /// An answer that a running watcher passes over: there is nothing to
    /// report, and nothing went wrong.
    pub open spec fn is_ignorable(self) -> bool {
        self is EmptyClipboard || self is MatchMime || self is UnknownContentType
    }

    /// An answer that the first snapshot passes over. The snapshot asks every
    /// watched kind once, so it also tolerates a kind that the backend cannot
    /// read.
    pub open spec fn is_ignorable_at_start(self) -> bool {
        self.is_ignorable() || self is UnsupportedClipboardKind
    }

    /// Whether a running watcher passes over this answer.
    pub fn ignorable(&self) -> (ignorable: bool)
        ensures
            ignorable == self.is_ignorable(),
    {
        match self {
            BackendError::EmptyClipboard => true,
            BackendError::MatchMime { .. } => true,
            BackendError::UnknownContentType => true,
            BackendError::UnsupportedClipboardKind { .. } => false,
            BackendError::Failure { .. } => false,
        }
    }

    /// Whether the first snapshot passes over this answer.
    pub fn ignorable_at_start(&self) -> (ignorable: bool)
        ensures
            ignorable == self.is_ignorable_at_start(),
    {
        match self {
            BackendError::UnsupportedClipboardKind { .. } => true,
            _ => self.ignorable(),
        }
    }
}

/// Why a watcher could not be made, or why its loop ended.
#[derive(Clone, Debug, PartialEq, Eq)]
pub enum Error {
    /// The backend failed: on opening the notification stream, or on a load.
    Backend { error: BackendError },
    /// A clip could not be published: no receiver is left.
    SendClipEntry,
    /// The backend closed the stream of notifications.
    SubscriberClosed,
}

impl From<BackendError> for Error {
    fn from(error: BackendError) -> (wrapped: Error) {
        Error::Backend { error }
    }
}

impl FromSpecImpl<BackendError> for Error {
    open spec fn obeys_from_spec() -> bool {
        true
    }

    open spec fn from_spec(error: BackendError) -> Error {
        Error::Backend { error }
    }
}

} // verus!
