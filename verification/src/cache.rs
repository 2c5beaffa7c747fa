use vstd::prelude::*;
use crate::clip::ClipboardKind;

verus! {

/// For each kind, the content that was published last.
///
/// A loop consults the cache before it publishes, so that content that a
/// backend announces again without a change is not published again.
pub struct DedupCache {
    clipboard: Option<Vec<u8>>,
    primary: Option<Vec<u8>>,
    secondary: Option<Vec<u8>>,
}

impl DedupCache {
    spec fn slot(self, kind: ClipboardKind) -> Option<Vec<u8>> {
        match kind {
            ClipboardKind::Clipboard => self.clipboard,
            ClipboardKind::Primary => self.primary,
            ClipboardKind::Secondary => self.secondary,
        }
    }
}

impl View for DedupCache {
    type V = Map<ClipboardKind, Seq<u8>>;

    closed spec fn view(&self) -> Map<ClipboardKind, Seq<u8>> {
        Map::new(
            |kind: ClipboardKind| self.slot(kind) is Some,
            |kind: ClipboardKind| self.slot(kind)->0@,
        )
    }
}

impl DedupCache {
    /// A cache that holds nothing.
    pub fn new() -> (cache: DedupCache)
        ensures
            cache@ == Map::<ClipboardKind, Seq<u8>>::empty(),
    {
        let cache = DedupCache { clipboard: None, primary: None, secondary: None };
        assert(cache@ =~= Map::<ClipboardKind, Seq<u8>>::empty());
        cache
    }

    /// The content that was recorded last for `kind`.
    pub fn get(&self, kind: ClipboardKind) -> (content: Option<&Vec<u8>>)
        ensures
            match content {
                Some(content) => self@.contains_key(kind) && self@[kind] == content@,
                None => !self@.contains_key(kind),
            },
    {
        match kind {
            ClipboardKind::Clipboard => self.clipboard.as_ref(),
            ClipboardKind::Primary => self.primary.as_ref(),
            ClipboardKind::Secondary => self.secondary.as_ref(),
        }
    }

    /// Records `content` for `kind`, in place of what was recorded before.
    pub fn insert(&mut self, kind: ClipboardKind, content: Vec<u8>)
        ensures
            final(self)@ == old(self)@.insert(kind, content@),
    {
        match kind {
            ClipboardKind::Clipboard => {
                self.clipboard = Some(content);
            },
            ClipboardKind::Primary => {
                self.primary = Some(content);
            },
            ClipboardKind::Secondary => {
                self.secondary = Some(content);
            },
        }
        assert(self@ =~= old(self)@.insert(kind, content@));
    }

    /// Whether `content` is, byte for byte, what was recorded last for `kind`.
    pub fn holds(&self, kind: ClipboardKind, content: &Vec<u8>) -> (held: bool)
        ensures
            held == (self@.contains_key(kind) && self@[kind] == content@),
    {
        match self.get(kind) {
            Some(recorded) => {
                let same = *recorded == *content;
                proof {
                    if same {
                        assert(recorded@ =~= content@);
                    }
                }
                same
            },
            None => false,
        }
    }
}

} // verus!
