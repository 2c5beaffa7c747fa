use vstd::prelude::*;
use tokio::sync::broadcast::Receiver;
use tokio::sync::broadcast::Sender;
use crate::clip::ClipEntry;

verus! {

/// How many clips the channel keeps for receivers that have not read them
/// yet. A receiver that falls further behind misses the oldest ones; the
/// sender is never held up.
pub const CLIP_CHANNEL_CAPACITY: usize = 16;

/// `tokio::sync::broadcast::Sender`: the sending end of a broadcast channel.
/// Nothing inside it is visible here.
#[verifier::external_type_specification]
#[verifier::external_body]
#[verifier::reject_recursive_types(T)]
pub struct ExSender<T>(Sender<T>);

/// `tokio::sync::broadcast::Receiver`: one receiving end of a broadcast
/// channel. Nothing inside it is visible here.
#[verifier::external_type_specification]
#[verifier::external_body]
#[verifier::reject_recursive_types(T)]
pub struct ExReceiver<T>(Receiver<T>);

/// The channel that a sending end belongs to. Two ends have the same channel
/// where they lead to the same shared state.
pub uninterp spec fn sender_channel(sender: Sender<ClipEntry>) -> int;

/// The channel that a receiving end belongs to.
pub uninterp spec fn receiver_channel(receiver: Receiver<ClipEntry>) -> int;

/// How many values a channel keeps for receivers that have not read them.
pub uninterp spec fn channel_capacity(channel: int) -> nat;

/// The first of `power`, twice `power`, four times `power` and so on that is
/// not below `capacity`.
pub open spec fn doubled_up_to(power: nat, capacity: nat) -> nat
    decreases
            (if power < capacity {
                capacity - power
            } else {
                0
            }),
{
    if power == 0 || power >= capacity {
        power
    } else {
        doubled_up_to(2 * power, capacity)
    }
}

/// The smallest power of two that is not below `capacity`.
pub open spec fn rounded_up(capacity: nat) -> nat {
    doubled_up_to(1, capacity)
}

/// `tokio::sync::broadcast::channel` makes a channel with its two first
/// ends. Both ends belong to the one channel, and the channel keeps
/// `capacity` values, rounded up to a power of two. The call panics on a
/// capacity of zero and on one above `usize::MAX / 2`, so both are left out.
#[verifier::external_body]
pub(crate) fn clip_channel(capacity: usize) -> (ends: (Sender<ClipEntry>, Receiver<ClipEntry>))
    requires
        0 < capacity <= usize::MAX / 2,
    ensures
        receiver_channel(ends.1) == sender_channel(ends.0),
        channel_capacity(sender_channel(ends.0)) == rounded_up(capacity as nat),
{
    tokio::sync::broadcast::channel(capacity)
}

/// `Sender::subscribe` makes a receiving end of the sender's channel, which
/// sees what is sent from now on. The call panics when `usize::MAX / 4`
/// receivers are alive at once, more than a machine can hold.
#[verifier::external_body]
pub(crate) fn subscribe_to(sender: &Sender<ClipEntry>) -> (receiver: Receiver<ClipEntry>)
    ensures
        receiver_channel(receiver) == sender_channel(*sender),
{
    sender.subscribe()
}

/// `Sender::clone` makes another sending end of the sender's channel.
#[verifier::external_body]
pub(crate) fn another_end(sender: &Sender<ClipEntry>) -> (other: Sender<ClipEntry>)
    ensures
        sender_channel(other) == sender_channel(*sender),
{
    sender.clone()
}

/// `Sender::send` hands `entry` to every receiver that is alive, and fails
/// when there is none. Whether there is one is not known here, so nothing is
/// claimed of the answer, which is `true` when the entry was taken.
#[verifier::external_body]
pub(crate) fn send_entry(sender: &Sender<ClipEntry>, entry: ClipEntry) -> (delivered: bool) {
    sender.send(entry).is_ok()
}

} // verus!
