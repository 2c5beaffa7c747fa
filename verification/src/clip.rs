use vstd::prelude::*;

verus! {

/// A clipboard selection that a platform exposes.
#[derive(Clone, Copy, Debug, PartialEq, Eq, Hash, Structural)]
pub enum ClipboardKind {
    /// The system clipboard.
    Clipboard,
    /// The primary selection.
    Primary,
    /// The secondary selection. No watcher option selects it.
    Secondary,
}

/// Whether a watcher republishes what it observes.
#[derive(Clone, Copy, Debug, PartialEq, Eq, Hash, Structural)]
pub enum ClipboardWatcherState {
    Enabled,
    Disabled,
}

impl ClipboardWatcherState {
    /// The state that a switch position stands for.
    pub open spec fn of(watching: bool) -> ClipboardWatcherState {
        if watching {
            ClipboardWatcherState::Enabled
        } else {
            ClipboardWatcherState::Disabled
        }
    }
}

/// A clip as a mathematical value: the kind it was read from and its bytes.
pub struct Clip {
    pub kind: ClipboardKind,
    pub content: Seq<u8>,
}

/// Clipboard content together with the kind it was read from.
///
/// An entry is made when new content is detected and is never changed
/// afterwards; every subscriber receives its own copy.
#[derive(Clone, Debug, PartialEq, Eq, Hash)]
pub struct ClipEntry {
    content: Vec<u8>,
    kind: ClipboardKind,
}

impl View for ClipEntry {
    type V = Clip;

    closed spec fn view(&self) -> Clip {
        Clip { kind: self.kind, content: self.content@ }
    }
}

impl ClipEntry {
    /// Wraps content that was read from `kind`.
    pub fn from_clipboard_content(content: Vec<u8>, kind: ClipboardKind) -> (entry: ClipEntry)
        ensures
            entry@ == (Clip { kind, content: content@ }),
    {
        ClipEntry { content, kind }
    }

    /// The kind that the content was read from.
    pub fn kind(&self) -> (kind: ClipboardKind)
        ensures
            kind == self@.kind,
    {
        self.kind
    }

    /// The content, byte for byte as it was read.
    pub fn content(&self) -> (content: &Vec<u8>)
        ensures
            content@ == self@.content,
    {
        &self.content
    }

    /// The number of bytes of content.
    pub fn len(&self) -> (len: usize)
        ensures
            len == self@.content.len(),
    {
        self.content.len()
    }

    /// Gives the content up.
    pub fn into_content(self) -> (content: Vec<u8>)
        ensures
            content@ == self@.content,
    {
        self.content
    }
}

} // verus!
