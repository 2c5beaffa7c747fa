use vstd::prelude::*;
use crate::clip::ClipboardKind;

verus! {

/// How a watcher is set up. Fixed once the watcher is made.
#[derive(Clone, Copy, Debug, PartialEq, Eq)]
pub struct ClipboardWatcherOptions {
    /// Publish what the clipboards hold when the watcher starts.
    pub load_current: bool,
    /// Watch the system clipboard.
    pub enable_clipboard: bool,
    /// Watch the primary selection.
    pub enable_primary: bool,
    /// Content must be longer than this many bytes to be published.
    pub filter_min_size: usize,
}

impl Default for ClipboardWatcherOptions {
    fn default() -> (opts: ClipboardWatcherOptions)
        ensures
            opts == (ClipboardWatcherOptions {
                load_current: true,
                enable_clipboard: true,
                enable_primary: true,
                filter_min_size: 1,
            }),
    {
        ClipboardWatcherOptions {
            load_current: true,
            enable_clipboard: true,
            enable_primary: true,
            filter_min_size: 1,
        }
    }
}

impl ClipboardWatcherOptions {
    /// Whether `kind` belongs to the watch set.
    pub open spec fn watches(self, kind: ClipboardKind) -> bool {
        match kind {
            ClipboardKind::Clipboard => self.enable_clipboard,
            ClipboardKind::Primary => self.enable_primary,
            ClipboardKind::Secondary => false,
        }
    }

    /// The watch set, in the order in which the first snapshot visits it.
    pub open spec fn watch_set(self) -> Seq<ClipboardKind> {
        let clipboard = if self.enable_clipboard {
            seq![ClipboardKind::Clipboard]
        } else {
            Seq::empty()
        };
        let primary = if self.enable_primary {
            seq![ClipboardKind::Primary]
        } else {
            Seq::empty()
        };
        clipboard + primary
    }

    /// Whether content is long enough to be published.
    pub open spec fn qualifies(self, content: Seq<u8>) -> bool {
        content.len() > self.filter_min_size
    }

    /// The kinds to watch.
    pub fn enabled_kinds(&self) -> (kinds: Vec<ClipboardKind>)
        ensures
            kinds@ == self.watch_set(),
    {
        let mut kinds: Vec<ClipboardKind> = Vec::new();
        if self.enable_clipboard {
            kinds.push(ClipboardKind::Clipboard);
        }
        if self.enable_primary {
            kinds.push(ClipboardKind::Primary);
        }
        kinds
    }

    /// Whether the watch set is empty. Such a watcher runs and never
    /// publishes.
    pub fn watches_nothing(&self) -> (nothing: bool)
        ensures
            nothing == (self.watch_set().len() == 0),
            nothing == (forall|kind: ClipboardKind| !self.watches(kind)),
    {
        proof {
            if !self.enable_clipboard && !self.enable_primary {
                assert forall|kind: ClipboardKind| !self.watches(kind) by {}
            } else if self.enable_clipboard {
                assert(self.watches(ClipboardKind::Clipboard));
            } else {
                assert(self.watches(ClipboardKind::Primary));
            }
        }
        !self.enable_clipboard && !self.enable_primary
    }

    /// Whether `content` is long enough to be published.
    pub fn accepts(&self, content: &Vec<u8>) -> (accepted: bool)
        ensures
            accepted == self.qualifies(content@),
    {
        content.len() > self.filter_min_size
    }
}

/// The watch set holds each watched kind once, and no other kind.
pub proof fn lemma_watch_set(opts: ClipboardWatcherOptions)
    ensures
        forall|kind: ClipboardKind| opts.watch_set().contains(kind) <==> opts.watches(kind),
        opts.watch_set().no_duplicates(),
        opts.watch_set().len() <= 2,
{
    let set = opts.watch_set();
    assert forall|kind: ClipboardKind| set.contains(kind) <==> opts.watches(kind) by {
        if opts.watches(kind) {
            if kind == ClipboardKind::Clipboard {
                assert(set[0] == kind);
            } else {
                assert(set[set.len() - 1] == kind);
            }
        }
    }
}

} // verus!
