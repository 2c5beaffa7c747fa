use vstd::prelude::*;
use std::sync::atomic::AtomicBool;
use std::sync::Arc;
use tokio::sync::broadcast::Sender;
use crate::cache::DedupCache;
use crate::channel::send_entry;
use crate::clip::ClipEntry;
use crate::clip::ClipboardKind;
use crate::error::BackendError;
use crate::error::Error;
use crate::flag::FlagReader;
use crate::model::cache_fits;
use crate::model::loaded_view;
use crate::model::unvisited_from;
use crate::model::Action;
use crate::model::LoopModel;
use crate::model::Phase;
use crate::options::lemma_watch_set;
use crate::options::ClipboardWatcherOptions;

verus! {

/// The worker of a clipboard watcher.
///
/// The loop holds what the background task of a watcher owns: the options,
/// the watch set, the cache of what was published last, a reading side of
/// the switch, and a sending end of the channel. It is driven from outside:
/// [`start`](ChangeLoop::start) returns the first [`Action`], and each answer
/// that the driver hands in returns the next.
pub struct ChangeLoop {
    is_watching: FlagReader,
    clip_sender: Sender<ClipEntry>,
    opts: ClipboardWatcherOptions,
    enabled_kinds: Vec<ClipboardKind>,
    current_data: DedupCache,
    phase: Phase,
}

impl View for ChangeLoop {
    type V = LoopModel;

    closed spec fn view(&self) -> LoopModel {
        LoopModel { opts: self.opts, cache: self.current_data@, phase: self.phase }
    }
}

impl ChangeLoop {
    /// The loop is consistent: its watch set is the one of its options, and
    /// its model is well-formed.
    pub closed spec fn wf(&self) -> bool {
        &&& self.enabled_kinds@ == self.opts.watch_set()
        &&& self@.wf()
    }

    /// The cell that holds the switch of the watcher.
    pub closed spec fn switch(&self) -> Arc<AtomicBool> {
        self.is_watching.cell()
    }

    /// The sending end of the channel on which the loop publishes.
    pub closed spec fn endpoint(&self) -> Sender<ClipEntry> {
        self.clip_sender
    }

    /// The loop is consistent, but for the content of the kind that the first
    /// snapshot waits for: that content may be recorded already.
    spec fn resumable(&self) -> bool {
        &&& self.enabled_kinds@ == self.opts.watch_set()
        &&& cache_fits(self.opts, self.current_data@)
        &&& match self.phase {
            Phase::InitialLoad { index } => {
                &&& self.opts.load_current
                &&& index < self.opts.watch_set().len()
                &&& unvisited_from(self.opts, self.current_data@, index + 1)
            },
            Phase::Loading { kind } => self.opts.watches(kind),
            _ => true,
        }
    }

    /// A loop that has not started, for a watcher with these options. It
    /// reads the switch through `is_watching` and publishes through
    /// `clip_sender`.
    pub(crate) fn new(
        is_watching: FlagReader,
        clip_sender: Sender<ClipEntry>,
        opts: ClipboardWatcherOptions,
    ) -> (worker: ChangeLoop)
        ensures
            worker.wf(),
            worker@ == LoopModel::initial(opts),
            worker.switch() == is_watching.cell(),
            worker.endpoint() == clip_sender,
    {
        ChangeLoop {
            is_watching,
            clip_sender,
            opts,
            enabled_kinds: opts.enabled_kinds(),
            current_data: DedupCache::new(),
            phase: Phase::Starting,
        }
    }

    /// Where the loop stands.
    pub fn phase(&self) -> (phase: Phase)
        ensures
            phase == self@.phase,
    {
        self.phase
    }

    /// The options that the loop was made with.
    pub fn options(&self) -> (opts: ClipboardWatcherOptions)
        ensures
            opts == self@.opts,
    {
        self.opts
    }

    /// The content that was published last for `kind`.
    pub fn last_published(&self, kind: ClipboardKind) -> (content: Option<&Vec<u8>>)
        ensures
            match content {
                Some(content) => self@.cache.contains_key(kind) && self@.cache[kind] == content@,
                None => !self@.cache.contains_key(kind),
            },
    {
        self.current_data.get(kind)
    }

    /// The kind whose content the loop waits for, if it waits for any.
    pub fn awaited(&self) -> (kind: Option<ClipboardKind>)
        requires
            self.wf(),
        ensures
            kind == self@.awaited(),
    {
        match self.phase {
            Phase::InitialLoad { index } => Some(self.enabled_kinds[index]),
            Phase::Loading { kind } => Some(kind),
            _ => None,
        }
    }

    /// Whether `kind` belongs to the watch set.
    pub fn watches(&self, kind: ClipboardKind) -> (watched: bool)
        requires
            self.wf(),
        ensures
            watched == self@.opts.watches(kind),
    {
        proof {
            lemma_watch_set(self.opts);
        }
        let mut i: usize = 0;
        while i < self.enabled_kinds.len()
            invariant
                i <= self.enabled_kinds.len(),
                self.enabled_kinds@ == self.opts.watch_set(),
                forall|j: int| 0 <= j < i ==> self.enabled_kinds@[j] != kind,
            decreases self.enabled_kinds.len() - i,
        {
            if self.enabled_kinds[i] == kind {
                proof {
                    lemma_watch_set(self.opts);
                }
                return true;
            }
            i += 1;
        }
        false
    }

    fn snapshot_from(&mut self, index: usize) -> (action: Action)
        requires
            old(self).enabled_kinds@ == old(self).opts.watch_set(),
            cache_fits(old(self).opts, old(self).current_data@),
            unvisited_from(old(self).opts, old(self).current_data@, index as int),
        ensures
            final(self).wf(),
            final(self)@.asks(action),
            final(self).switch() == old(self).switch(),
            final(self).endpoint() == old(self).endpoint(),
            (final(self)@, action) == old(self)@.snapshot_from(index as int),
    {
        if self.opts.load_current && index < self.enabled_kinds.len() {
            proof {
                lemma_watch_set(self.opts);
            }
            self.phase = Phase::InitialLoad { index };
            Action::Load(self.enabled_kinds[index])
        } else {
            self.phase = Phase::Waiting;
            Action::Wait
        }
    }

    fn resume(&mut self) -> (action: Action)
        requires
            old(self).resumable(),
        ensures
            final(self).wf(),
            final(self)@.asks(action),
            final(self).switch() == old(self).switch(),
            final(self).endpoint() == old(self).endpoint(),
            (final(self)@, action) == old(self)@.resumed(),
    {
        match self.phase {
            Phase::InitialLoad { index } => self.snapshot_from(index + 1),
            _ => {
                self.phase = Phase::Waiting;
                Action::Wait
            },
        }
    }

    fn stop(&mut self, error: Error) -> (action: Action)
        requires
            old(self).resumable(),
        ensures
            final(self).wf(),
            final(self)@.asks(action),
            final(self).switch() == old(self).switch(),
            final(self).endpoint() == old(self).endpoint(),
            (final(self)@, action) == old(self)@.stopped(error),
    {
        self.phase = Phase::Stopped;
        Action::Stop(error)
    }

    /// What the loop publishes on the answer to the load that it asked for:
    /// a clip of the content, where the content passes the size filter and
    /// differs from what was published last for its kind; nothing on every
    /// other answer. The loop stays as it is.
    pub fn to_publish(&self, loaded: &Result<Vec<u8>, BackendError>) -> (entry: Option<ClipEntry>)
        requires
            self.wf(),
            self@.awaited() is Some,
        ensures
            match entry {
                Some(entry) => self@.publication(loaded_view(*loaded)) == Some(entry@),
                None => self@.publication(loaded_view(*loaded)) is None,
            },
    {
        let at_start = match self.phase {
            Phase::InitialLoad { .. } => true,
            _ => false,
        };
        let kind = match self.awaited() {
            Some(kind) => kind,
            None => unreached(),
        };
        match loaded {
            Ok(content) => {
                // The first snapshot visits each kind once, so what it finds
                // is never what was published last.
                if self.opts.accepts(content) && (at_start || !self.current_data.holds(
                    kind,
                    content,
                )) {
                    Some(ClipEntry::from_clipboard_content(content.clone(), kind))
                } else {
                    None
                }
            },
            Err(_) => None,
        }
    }

    /// Takes the answer of the channel to the clip of `content`, which the
    /// loop had to publish: `delivered` says whether the channel took it.
    ///
    /// The content is recorded as published last for its kind. The loop goes
    /// on where the channel took the clip. It ends where the channel did
    /// not, because no receiver is left to take a later one either.
    pub fn after_publication(&mut self, content: Vec<u8>, delivered: bool) -> (action: Action)
        requires
            old(self).wf(),
            old(self)@.publication(Ok(content@)) is Some,
        ensures
            final(self).wf(),
            final(self)@.asks(action),
            final(self).switch() == old(self).switch(),
            final(self).endpoint() == old(self).endpoint(),
            (final(self)@, action) == old(self)@.on_loaded(Ok(content@), delivered),
    {
        let kind = match self.awaited() {
            Some(kind) => kind,
            None => unreached(),
        };
        proof {
            lemma_watch_set(self.opts);
        }
        self.current_data.insert(kind, content);
        if delivered {
            self.resume()
        } else {
            self.stop(Error::SendClipEntry)
        }
    }

    /// Starts the loop: asks for the first load of the first snapshot, or,
    /// where the options ask for no snapshot or nothing is watched, for the
    /// first notification.
    pub fn start(&mut self) -> (action: Action)
        requires
            old(self).wf(),
            old(self)@.phase is Starting,
        ensures
            final(self).wf(),
            final(self)@.asks(action),
            final(self).switch() == old(self).switch(),
            final(self).endpoint() == old(self).endpoint(),
            (final(self)@, action) == old(self)@.on_start(),
    {
        self.snapshot_from(0)
    }

    /// Takes the answer to the load that the loop asked for.
    ///
    /// What [`to_publish`](ChangeLoop::to_publish) gives for the answer is
    /// sent on the channel, and the channel's answer goes to
    /// [`after_publication`](ChangeLoop::after_publication): that answer is
    /// the `delivered` of the model. Where nothing is to publish, the loop
    /// ends on a failed load that it does not pass over, and goes on in
    /// every other event.
    pub fn on_loaded(&mut self, loaded: Result<Vec<u8>, BackendError>) -> (action: Action)
        requires
            old(self).wf(),
            old(self)@.awaited() is Some,
        ensures
            final(self).wf(),
            final(self)@.asks(action),
            final(self).switch() == old(self).switch(),
            final(self).endpoint() == old(self).endpoint(),
            (final(self)@, action) == old(self)@.on_loaded(loaded_view(loaded), true) || (
                final(self)@,
                action,
            ) == old(self)@.on_loaded(loaded_view(loaded), false),
            old(self)@.publication(loaded_view(loaded)) is None ==> (final(self)@, action) == old(
                self,
            )@.on_loaded(loaded_view(loaded), true),
    {
        let published = self.to_publish(&loaded);
        match loaded {
            Ok(content) => {
                match published {
                    Some(entry) => {
                        let delivered = send_entry(&self.clip_sender, entry);
                        self.after_publication(content, delivered)
                    },
                    None => self.resume(),
                }
            },
            Err(error) => {
                let ignored = match self.phase {
                    Phase::InitialLoad { .. } => error.ignorable_at_start(),
                    _ => error.ignorable(),
                };
                if ignored {
                    self.resume()
                } else {
                    self.stop(Error::Backend { error })
                }
            },
        }
    }

    /// Takes the next item of the notification stream, `None` where the
    /// stream has ended, for a loop that found the switch in the position
    /// `watching`.
    ///
    /// The loop ends where the stream has ended. It asks for the content of
    /// a kind that is announced while the switch is on and that belongs to
    /// the watch set. It discards every other notification and asks for the
    /// next one.
    pub fn on_notification_observing(
        &mut self,
        next: Option<ClipboardKind>,
        watching: bool,
    ) -> (action: Action)
        requires
            old(self).wf(),
            old(self)@.phase is Waiting,
        ensures
            final(self).wf(),
            final(self)@.asks(action),
            final(self).switch() == old(self).switch(),
            final(self).endpoint() == old(self).endpoint(),
            (final(self)@, action) == old(self)@.on_notification(next, watching),
    {
        match next {
            None => self.stop(Error::SubscriberClosed),
            Some(kind) => {
                if watching && self.watches(kind) {
                    self.phase = Phase::Loading { kind };
                    Action::Load(kind)
                } else {
                    Action::Wait
                }
            },
        }
    }

    /// Takes the next item of the notification stream, `None` where the
    /// stream has ended. Where a kind is announced, the loop reads the switch
    /// of its watcher: what it reads is the `watching` of the model.
    pub fn on_notification(&mut self, next: Option<ClipboardKind>) -> (action: Action)
        requires
            old(self).wf(),
            old(self)@.phase is Waiting,
        ensures
            final(self).wf(),
            final(self)@.asks(action),
            final(self).switch() == old(self).switch(),
            final(self).endpoint() == old(self).endpoint(),
            (final(self)@, action) == old(self)@.on_notification(next, true) || (
                final(self)@,
                action,
            ) == old(self)@.on_notification(next, false),
            next is None ==> (final(self)@, action) == old(self)@.stopped(Error::SubscriberClosed),
            next matches Some(kind) && !old(self)@.opts.watches(kind) ==> (final(self)@, action)
                == (old(self)@, Action::Wait),
    {
        let watching = match next {
            Some(_) => self.is_watching.read(),
            None => false,
        };
        self.on_notification_observing(next, watching)
    }
}

} // verus!
