use vstd::prelude::*;
use crate::clip::Clip;
use crate::clip::ClipboardKind;
use crate::error::BackendError;
use crate::error::Error;
use crate::options::ClipboardWatcherOptions;

verus! {

/// Where a change loop stands.
#[derive(Clone, Copy, Debug, PartialEq, Eq, Structural)]
pub enum Phase {
    /// The loop was made and has not started.
    Starting,
    /// The first snapshot waits for the content of the watched kind at
    /// `index`.
    InitialLoad { index: usize },
    /// The loop waits for the next notification.
    Waiting,
    /// The loop waits for the content of `kind`, which a notification
    /// announced.
    Loading { kind: ClipboardKind },
    /// The loop has ended.
    Stopped,
}

/// What a change loop asks of its driver.
#[derive(Clone, Debug, PartialEq, Eq)]
pub enum Action {
    /// Load the content of this kind, and hand the answer to the loop.
    Load(ClipboardKind),
    /// Await the next notification, and hand it to the loop.
    Wait,
    /// End the loop with this error.
    Stop(Error),
}

/// The cache holds only content of watched kinds that passes the size filter.
pub open spec fn cache_fits(opts: ClipboardWatcherOptions, cache: Map<ClipboardKind, Seq<u8>>) -> bool {
    forall|kind: ClipboardKind| #[trigger]
        cache.contains_key(kind) ==> opts.watches(kind) && opts.qualifies(cache[kind])
}

/// Nothing was published yet for the watched kinds from `index` on, in the
/// order of the first snapshot.
pub open spec fn unvisited_from(
    opts: ClipboardWatcherOptions,
    cache: Map<ClipboardKind, Seq<u8>>,
    index: int,
) -> bool {
    forall|j: int|
        index <= j < opts.watch_set().len() ==> !cache.contains_key(#[trigger] opts.watch_set()[j])
}

/// Only watched kinds are loaded. The first snapshot is taken only where the
/// options ask for it, and nothing was published yet for the kinds that it
/// has not visited.
pub open spec fn phase_fits(
    opts: ClipboardWatcherOptions,
    cache: Map<ClipboardKind, Seq<u8>>,
    phase: Phase,
) -> bool {
    match phase {
        Phase::Starting => forall|kind: ClipboardKind| !#[trigger] cache.contains_key(kind),
        Phase::InitialLoad { index } => {
            &&& opts.load_current
            &&& index < opts.watch_set().len()
            &&& unvisited_from(opts, cache, index as int)
        },
        Phase::Loading { kind } => opts.watches(kind),
        _ => true,
    }
}

/// A change loop as a mathematical value.
pub struct LoopModel {
    /// The options that the loop was made with.
    pub opts: ClipboardWatcherOptions,
    /// For each kind, the content that was published last.
    pub cache: Map<ClipboardKind, Seq<u8>>,
    /// Where the loop stands.
    pub phase: Phase,
}

impl LoopModel {
    /// A loop that has not started: nothing was published yet.
    pub open spec fn initial(opts: ClipboardWatcherOptions) -> LoopModel {
        LoopModel { opts, cache: Map::empty(), phase: Phase::Starting }
    }

    /// What holds of every loop: the cache and the phase fit the options.
    pub open spec fn wf(self) -> bool {
        &&& cache_fits(self.opts, self.cache)
        &&& phase_fits(self.opts, self.cache, self.phase)
    }

    /// The kind whose content the loop waits for, if it waits for any.
    pub open spec fn awaited(self) -> Option<ClipboardKind> {
        match self.phase {
            Phase::InitialLoad { index } => Some(self.opts.watch_set()[index as int]),
            Phase::Loading { kind } => Some(kind),
            _ => None,
        }
    }

    /// Whether `action` is what the loop, in the phase it is in, asks of its
    /// driver.
    pub open spec fn asks(self, action: Action) -> bool {
        match action {
            Action::Load(kind) => self.awaited() == Some(kind),
            Action::Wait => self.phase is Waiting,
            Action::Stop(_) => self.phase is Stopped,
        }
    }

    /// The same loop in another phase.
    pub open spec fn in_phase(self, phase: Phase) -> LoopModel {
        LoopModel { phase, ..self }
    }

    /// The same loop after `clip` was recorded as published.
    pub open spec fn recorded(self, clip: Clip) -> LoopModel {
        LoopModel { cache: self.cache.insert(clip.kind, clip.content), ..self }
    }

    /// The first snapshot goes on with the watched kind at `index`; past the
    /// last one, or where no snapshot is asked for, the loop waits for
    /// notifications.
    pub open spec fn snapshot_from(self, index: int) -> (LoopModel, Action) {
        if self.opts.load_current && 0 <= index < self.opts.watch_set().len() {
            (
                self.in_phase(Phase::InitialLoad { index: index as usize }),
                Action::Load(self.opts.watch_set()[index]),
            )
        } else {
            (self.in_phase(Phase::Waiting), Action::Wait)
        }
    }

    /// The loop goes on after an answer has been dealt with.
    pub open spec fn resumed(self) -> (LoopModel, Action) {
        match self.phase {
            Phase::InitialLoad { index } => self.snapshot_from(index + 1),
            _ => (self.in_phase(Phase::Waiting), Action::Wait),
        }
    }

    /// The loop ends.
    pub open spec fn stopped(self, error: Error) -> (LoopModel, Action) {
        (self.in_phase(Phase::Stopped), Action::Stop(error))
    }

    /// Whether the loop passes over a load that failed with `error`. The
    /// first snapshot also passes over a kind that the backend cannot read;
    /// a running loop ends on it.
    pub open spec fn ignores(self, error: BackendError) -> bool {
        if self.phase is InitialLoad {
            error.is_ignorable_at_start()
        } else {
            error.is_ignorable()
        }
    }

    /// Whether `content` differs from what was published last for `kind`.
    pub open spec fn is_new(self, kind: ClipboardKind, content: Seq<u8>) -> bool {
        !self.cache.contains_key(kind) || self.cache[kind] != content
    }

    /// What the loop publishes on an answer to the load it waits for: content
    /// that passes the size filter and differs from what was published last
    /// for its kind.
    pub open spec fn publication(self, loaded: Result<Seq<u8>, BackendError>) -> Option<Clip> {
        match (self.awaited(), loaded) {
            (Some(kind), Ok(content)) => if self.opts.qualifies(content) && self.is_new(
                kind,
                content,
            ) {
                Some(Clip { kind, content })
            } else {
                None
            },
            _ => None,
        }
    }

    /// The loop starts.
    pub open spec fn on_start(self) -> (LoopModel, Action) {
        self.snapshot_from(0)
    }

    /// The loop gets the answer to the load it waits for. `delivered` says
    /// whether the channel took what the loop published; it counts only
    /// where something is published.
    pub open spec fn on_loaded(self, loaded: Result<Seq<u8>, BackendError>, delivered: bool) -> (
        LoopModel,
        Action,
    ) {
        match self.publication(loaded) {
            Some(clip) => if delivered {
                self.recorded(clip).resumed()
            } else {
                self.recorded(clip).stopped(Error::SendClipEntry)
            },
            None => match loaded {
                Ok(_) => self.resumed(),
                Err(error) => if self.ignores(error) {
                    self.resumed()
                } else {
                    self.stopped(Error::Backend { error })
                },
            },
        }
    }

    /// The loop gets the next item of the notification stream, `None` where
    /// the stream has ended. `watching` is the position in which the loop
    /// found the switch; it counts only where a kind is announced.
    pub open spec fn on_notification(self, next: Option<ClipboardKind>, watching: bool) -> (
        LoopModel,
        Action,
    ) {
        match next {
            None => self.stopped(Error::SubscriberClosed),
            Some(kind) => if watching && self.opts.watches(kind) {
                (self.in_phase(Phase::Loading { kind }), Action::Load(kind))
            } else {
                (self, Action::Wait)
            },
        }
    }
}

/// What a driver hands to a loop.
pub enum Event {
    /// The driver starts the loop.
    Start,
    /// The answer to the load that the loop asked for. `delivered` says
    /// whether the channel took what the loop published on this answer.
    Loaded { loaded: Result<Seq<u8>, BackendError>, delivered: bool },
    /// The next item of the notification stream. `watching` is the position
    /// in which the loop found the switch.
    Notified { next: Option<ClipboardKind>, watching: bool },
}

impl LoopModel {
    /// Whether the loop, in the phase it is in, waits for `event`.
    pub open spec fn takes(self, event: Event) -> bool {
        match event {
            Event::Start => self.phase is Starting,
            Event::Loaded { .. } => self.awaited() is Some,
            Event::Notified { .. } => self.phase is Waiting,
        }
    }

    /// The loop after `event`. An event that the loop does not wait for
    /// leaves it as it is.
    pub open spec fn after(self, event: Event) -> LoopModel {
        if self.takes(event) {
            match event {
                Event::Start => self.on_start().0,
                Event::Loaded { loaded, delivered } => self.on_loaded(loaded, delivered).0,
                Event::Notified { next, watching } => self.on_notification(next, watching).0,
            }
        } else {
            self
        }
    }

    /// What the loop publishes on `event`.
    pub open spec fn published(self, event: Event) -> Option<Clip> {
        match event {
            Event::Loaded { loaded, .. } => self.publication(loaded),
            _ => None,
        }
    }

    /// The loop after a sequence of events.
    pub open spec fn run(self, events: Seq<Event>) -> LoopModel
        decreases events.len(),
    {
        if events.len() == 0 {
            self
        } else {
            self.run(events.drop_last()).after(events.last())
        }
    }

    /// What the loop publishes over a sequence of events, in order.
    pub open spec fn publications(self, events: Seq<Event>) -> Seq<Clip>
        decreases events.len(),
    {
        if events.len() == 0 {
            Seq::empty()
        } else {
            let earlier = self.publications(events.drop_last());
            match self.run(events.drop_last()).published(events.last()) {
                Some(clip) => earlier.push(clip),
                None => earlier,
            }
        }
    }
}

/// The answer to a load as a mathematical value.
pub open spec fn loaded_view(loaded: Result<Vec<u8>, BackendError>) -> Result<
    Seq<u8>,
    BackendError,
> {
    match loaded {
        Ok(content) => Ok(content@),
        Err(error) => Err(error),
    }
}

} // verus!
