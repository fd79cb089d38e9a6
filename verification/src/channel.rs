//! The broadcast channel on which the updates of one dataset reach its
//! subscribers.
//!
//! The channel is `tokio`'s. It keeps its state inside itself, shared between
//! the sender and every receiver, so nothing here can say which updates a
//! channel holds. What can be said is which channel a sender and a receiver
//! belong to. The functions below are trusted and claim only what is true of
//! them whatever the receivers do.
use vstd::prelude::*;
use tokio::sync::broadcast::Receiver;
use tokio::sync::broadcast::Sender;
use crate::dataupdate::DataUpdate;

verus! {

/// The sending half of `tokio`'s broadcast channel. It is opaque here.
#[verifier::external_type_specification]
#[verifier::external_body]
#[verifier::reject_recursive_types(T)]
pub struct ExSender<T>(tokio::sync::broadcast::Sender<T>);

/// A receiving half of `tokio`'s broadcast channel. It is opaque here.
#[verifier::external_type_specification]
#[verifier::external_body]
#[verifier::reject_recursive_types(T)]
pub struct ExReceiver<T>(tokio::sync::broadcast::Receiver<T>);

/// The channel that a sender sends into. Senders of one channel have one
/// number, senders of different channels different ones.
pub uninterp spec fn sender_channel(sender: Sender<DataUpdate>) -> int;

/// The channel that a receiver listens on, by the number of its senders.
pub uninterp spec fn receiver_channel(receiver: Receiver<DataUpdate>) -> int;

/// The capacity asked of a channel: it keeps at least this many updates for
/// a receiver that has fallen behind. A receiver that falls further behind
/// than the channel keeps loses the oldest updates.
pub const CHANNEL_CAPACITY: usize = 100;

/// Trusted: `tokio::sync::broadcast::channel`. The receiver listens on the
/// channel that the sender sends into: both are made on one shared state. It
/// panics where the capacity is zero or above `usize::MAX / 2`; those are
/// left out.
#[verifier::external_body]
pub(crate) fn open_channel(capacity: usize) -> (r: (Sender<DataUpdate>, Receiver<DataUpdate>))
    requires
        0 < capacity <= usize::MAX / 2,
    ensures
        receiver_channel(r.1) == sender_channel(r.0),
{
    tokio::sync::broadcast::channel(capacity)
}

/// Trusted: `Sender::subscribe`. The receiver listens on the sender's own
/// channel: it is made on the sender's shared state. It sees the updates
/// sent after this call. (It panics only once the channel has
/// `usize::MAX / 4` receivers.)
#[verifier::external_body]
pub(crate) fn subscribe_to(sender: &Sender<DataUpdate>) -> (r: Receiver<DataUpdate>)
    ensures
        receiver_channel(r) == sender_channel(*sender),
{
    sender.subscribe()
}

/// Trusted: `Sender::send`. It does not wait for receivers. With no receiver subscribed it
/// hands the update back; otherwise it answers with the number of receivers,
/// which is then at least one.
#[verifier::external_body]
pub(crate) fn send_update(sender: &Sender<DataUpdate>, update: DataUpdate) -> (r: Result<
    usize,
    DataUpdate,
>)
    ensures
        r matches Ok(receivers) ==> receivers >= 1,
        r matches Err(returned) ==> returned == update,
{
    sender.send(update).map_err(|e| e.0)
}

/// Sends the updates into the channel, first to last, and answers with how
/// many of them were sent while at least one receiver was subscribed. An
/// update sent with no receiver subscribed is dropped; sending goes on.
pub fn publish_all(sender: &Sender<DataUpdate>, updates: Vec<DataUpdate>) -> (delivered: usize)
    ensures
        delivered <= updates@.len(),
{
    let total = updates.len();
    let mut outcomes: Vec<bool> = Vec::new();
    for update in it: updates
        invariant
            outcomes@.len() == it.index(),
            it.seq().len() == total,
    {
        outcomes.push(send_update(sender, update).is_ok());
    }
    proof {
        lemma_delivered_at_most_sent(outcomes@);
    }
    count_delivered(&outcomes)
}

/// How many sends found a receiver. `outcomes` holds one entry for each
/// send, in the order of the sends: whether a receiver was subscribed.
pub open spec fn delivered_among(outcomes: Seq<bool>) -> nat
    decreases outcomes.len(),
{
    if outcomes.len() == 0 {
        0
    } else {
        delivered_among(outcomes.drop_last()) + if outcomes.last() {
            1nat
        } else {
            0nat
        }
    }
}

/// No more sends find a receiver than there are sends.
pub proof fn lemma_delivered_at_most_sent(outcomes: Seq<bool>)
    ensures
        delivered_among(outcomes) <= outcomes.len(),
    decreases outcomes.len(),
{
    if outcomes.len() > 0 {
        lemma_delivered_at_most_sent(outcomes.drop_last());
    }
}

/// Counts the sends that found a receiver, given the outcome of each send.
pub fn count_delivered(outcomes: &Vec<bool>) -> (r: usize)
    ensures
        r == delivered_among(outcomes@),
{
    let mut delivered: usize = 0;
    let mut i: usize = 0;
    proof {
        assert(outcomes@.take(0) =~= Seq::<bool>::empty());
    }
    while i < outcomes.len()
        invariant
            i <= outcomes@.len(),
            delivered == delivered_among(outcomes@.take(i as int)),
            delivered <= i,
        decreases outcomes@.len() - i,
    {
        proof {
            assert(outcomes@.take(i + 1).drop_last() =~= outcomes@.take(i as int));
            assert(outcomes@.take(i + 1).last() == outcomes@[i as int]);
        }
        if outcomes[i] {
            delivered = delivered + 1;
        }
        i += 1;
    }
    proof {
        assert(outcomes@.take(outcomes@.len() as int) =~= outcomes@);
    }
    delivered
}

} // verus!
