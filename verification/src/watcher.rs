use vstd::prelude::*;
use std::sync::atomic::AtomicBool;
use std::sync::Arc;
use tokio::sync::broadcast::Receiver;
use tokio::sync::broadcast::Sender;
use crate::change_loop::ChangeLoop;
use crate::channel::another_end;
use crate::channel::channel_capacity;
use crate::channel::clip_channel;
use crate::channel::doubled_up_to;
use crate::channel::receiver_channel;
use crate::channel::sender_channel;
use crate::channel::subscribe_to;
use crate::channel::CLIP_CHANNEL_CAPACITY;
use crate::clip::ClipEntry;
use crate::clip::ClipboardWatcherState;
use crate::error::BackendError;
use crate::error::Error;
use crate::flag::WatchFlag;
use crate::model::LoopModel;
use crate::options::ClipboardWatcherOptions;

verus! {

/// The control handle of a clipboard watcher.
///
/// The handle owns the switch that silences the watcher and the sending end
/// of the channel on which the watcher publishes. Its [`ChangeLoop`] holds a
/// reading side of the same switch and another sending end of the same
/// channel.
pub struct ClipboardWatcher {
    is_watching: WatchFlag,
    clip_sender: Sender<ClipEntry>,
}

impl ClipboardWatcher {
    /// Whether the switch is on.
    pub closed spec fn watching(&self) -> bool {
        self.is_watching.value()
    }

    /// The cell that holds the switch.
    pub closed spec fn switch(&self) -> Arc<AtomicBool> {
        self.is_watching.cell()
    }

    /// The sending end of the channel.
    pub closed spec fn endpoint(&self) -> Sender<ClipEntry> {
        self.clip_sender
    }

    /// Makes a watcher and its loop.
    ///
    /// `subscription` says how opening the backend's stream of notifications
    /// went. Where it failed, no watcher is made, and the failure is handed
    /// on. Otherwise the watcher is switched on, and its loop stands at the
    /// start with nothing published. The loop reads the switch of the
    /// watcher and sends on the channel of the watcher, which keeps
    /// [`CLIP_CHANNEL_CAPACITY`] clips and has no receiver yet.
    pub fn new(subscription: Result<(), BackendError>, opts: ClipboardWatcherOptions) -> (made: Result<
        (ClipboardWatcher, ChangeLoop),
        Error,
    >)
        ensures
            match subscription {
                Ok(_) => {
                    &&& made matches Ok((watcher, worker))
                    &&& watcher.watching()
                    &&& worker.wf()
                    &&& worker@ == LoopModel::initial(opts)
                    &&& worker.switch() == watcher.switch()
                    &&& sender_channel(worker.endpoint()) == sender_channel(watcher.endpoint())
                    &&& channel_capacity(sender_channel(watcher.endpoint()))
                        == CLIP_CHANNEL_CAPACITY
                },
                Err(error) => made matches Err(refusal) && refusal == (Error::Backend { error }),
            },
    {
        let (clip_sender, _event_receiver) = clip_channel(CLIP_CHANNEL_CAPACITY);
        assert(doubled_up_to(1, 16) == 16) by {
            reveal_with_fuel(doubled_up_to, 6);
        }
        let is_watching = WatchFlag::new(true);
        match subscription {
            Ok(_) => {
                let worker = ChangeLoop::new(is_watching.reader(), another_end(&clip_sender), opts);
                Ok((ClipboardWatcher { is_watching, clip_sender }, worker))
            },
            Err(error) => Err(Error::from(error)),
        }
    }

    /// A new receiver of what the watcher publishes from now on: a
    /// receiving end of the channel that the watcher and its loop send on.
    pub fn subscribe(&self) -> (receiver: Receiver<ClipEntry>)
        ensures
            receiver_channel(receiver) == sender_channel(self.endpoint()),
    {
        subscribe_to(&self.clip_sender)
    }

    /// Switches the watcher on.
    pub fn enable(&mut self)
        ensures
            final(self).watching(),
            final(self).switch() == old(self).switch(),
            final(self).endpoint() == old(self).endpoint(),
    {
        self.is_watching.set(true);
    }

    /// Switches the watcher off: its loop discards the notifications that it
    /// gets from now on.
    pub fn disable(&mut self)
        ensures
            !final(self).watching(),
            final(self).switch() == old(self).switch(),
            final(self).endpoint() == old(self).endpoint(),
    {
        self.is_watching.set(false);
    }

    /// Switches the watcher off where it is on, and on where it is off.
    pub fn toggle(&mut self)
        ensures
            final(self).watching() == !old(self).watching(),
            final(self).switch() == old(self).switch(),
            final(self).endpoint() == old(self).endpoint(),
    {
        if self.is_watching() {
            self.disable();
        } else {
            self.enable();
        }
    }

    /// Whether the watcher is switched on.
    pub fn is_watching(&self) -> (watching: bool)
        ensures
            watching == self.watching(),
    {
        self.is_watching.get()
    }

    /// The position of the switch as a state.
    pub fn state(&self) -> (state: ClipboardWatcherState)
        ensures
            state == ClipboardWatcherState::of(self.watching()),
    {
        if self.is_watching() {
            ClipboardWatcherState::Enabled
        } else {
            ClipboardWatcherState::Disabled
        }
    }
}

} // verus!
