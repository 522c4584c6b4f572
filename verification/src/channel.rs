//! The bounded event channel, supplied by `futures::sync::mpsc`: a
//! fixed-capacity, order-preserving conduit from one or more producers
//! to a single consumer. Producers wait while the buffer is full and
//! fail once the consumer is gone; dropping every producer ends the
//! consumer's stream normally.
//!
//! The channel's behaviour lives in the outside crate, so every call
//! into it stands behind one of the trusted items below. Once a
//! consumer may hold the receiving end, the outcome of a send depends
//! on channel state no contract can see, so those wrappers promise
//! nothing and the store's own ghost state carries its claims. Only
//! while both ends are still captive in a `FreshEventChannel` is more
//! certain, and only that struct's send says more.

use vstd::prelude::*;

use futures::sync::mpsc::{Receiver, Sender};
use futures::Future;
use futures::Sink;

use crate::events::{SchemaProviderEvent, SendError, StoreEvent, StoreEventView};

verus! {

/// How many messages a store channel buffers before its senders are
/// made to wait: the capacity of both the schema-event channel and the
/// store-event channel.
pub const CHANNEL_CAPACITY: usize = 100;

#[verifier::external_type_specification]
#[verifier::external_body]
#[verifier::reject_recursive_types(T)]
pub struct ExSender<T>(Sender<T>);

#[verifier::external_type_specification]
#[verifier::external_body]
#[verifier::reject_recursive_types(T)]
pub struct ExReceiver<T>(Receiver<T>);

/// Relies on `futures::sync::mpsc::channel`: creates a bounded channel
/// that buffers up to `capacity` messages beyond the senders' own
/// slots and yields them to the single receiver in send order. The
/// bound on `capacity` keeps clear of the buffer-size limit the
/// constructor enforces.
#[verifier::external_body]
pub(crate) fn new_channel<T>(capacity: usize) -> (ends: (Sender<T>, Receiver<T>))
    requires
        capacity < 0x3fffffff,
{
    futures::sync::mpsc::channel(capacity)
}

/// Relies on `futures::sink::Sink::send` on a clone of the producer
/// handle, driven to completion with `Future::wait`: queues `message`
/// on the channel, waiting while the buffer is full, and fails only
/// when the consuming end is gone (dropped, or closed by the consumer).
/// A success means the message was queued; the consumer may still
/// vanish before reading it.
#[verifier::external_body]
pub(crate) fn send_message<T>(sink: &Sender<T>, message: T) -> (outcome: Result<(), SendError>) {
    match sink.clone().send(message).wait() {
        Ok(_) => Ok(()),
        Err(_) => Err(SendError::ChannelClosed),
    }
}

// The schema-event channel's handles below get identity claims that
// the store's contracts hand on to callers: which producer handles
// feed the one channel whose receiver the relay drains.

/// The identity of the channel a schema-event producer handle feeds.
/// A handle's channel is fixed when the handle is made and never
/// changes, so this is a function of the value. Nothing is claimed
/// about the identity itself: the trusted items below only state which
/// handles share one channel.
pub uninterp spec fn sender_channel(sink: &Sender<SchemaProviderEvent>) -> int;

/// The identity of the channel a schema-event receiver drains; the
/// consumer-side counterpart of `sender_channel`.
pub uninterp spec fn receiver_channel(stream: &Receiver<SchemaProviderEvent>) -> int;

/// Relies on `futures::sync::mpsc::channel`, as `new_channel` does,
/// here for the schema-event channel in particular: the sender and the
/// receiver returned are the two ends of one channel.
#[verifier::external_body]
pub(crate) fn new_schema_channel(capacity: usize) -> (ends: (
    Sender<SchemaProviderEvent>,
    Receiver<SchemaProviderEvent>,
))
    requires
        capacity < 0x3fffffff,
    ensures
        sender_channel(&ends.0) == receiver_channel(&ends.1),
{
    futures::sync::mpsc::channel(capacity)
}

/// Relies on `Clone for Sender`: the clone feeds the very channel the
/// original feeds (one shared core behind both handles), behind the
/// messages already queued. The clone itself only fails after an
/// astronomically large number of live senders, which cannot be
/// reached here.
#[verifier::external_body]
pub(crate) fn clone_schema_sender(sink: &Sender<SchemaProviderEvent>) -> (cloned: Sender<
    SchemaProviderEvent,
>)
    ensures
        sender_channel(&cloned) == sender_channel(sink),
{
    sink.clone()
}

/// A store-event channel both of whose ends are still in the store's
/// hands: no consumer can drain it or drop its receiving end, and its
/// only producer handle is the captive one, fed exclusively through
/// `send_queued`. While that holds, the channel is certainly open, its
/// backlog is exactly the messages sent so far, and a send below
/// capacity is certainly accepted — which is what lets the store
/// promise a complete demonstration burst. `into_ends` takes the
/// channel apart once the backlog is in place.
pub struct FreshEventChannel {
    sender: Sender<StoreEvent>,
    receiver: Receiver<StoreEvent>,
    capacity: usize,
    queued: Ghost<Seq<StoreEventView>>,
}

impl FreshEventChannel {
    /// The messages this channel has accepted, oldest first: exactly
    /// the backlog its eventual consumer will read first.
    pub closed spec fn queued(&self) -> Seq<StoreEventView> {
        self.queued@
    }

    /// The buffer size this channel was created with.
    pub closed spec fn capacity(&self) -> nat {
        self.capacity as nat
    }

    /// Takes the channel apart: the producer end, ready for the
    /// store's subscription slot, and the consumer end, ready for the
    /// subscriber, with the queued backlog awaiting it.
    pub(crate) fn into_ends(self) -> (ends: (Sender<StoreEvent>, Receiver<StoreEvent>)) {
        (self.sender, self.receiver)
    }
}

/// A fresh bounded channel with nothing queued, both ends captive: the
/// one way a `FreshEventChannel` comes to be, so its two ends always
/// belong to one and the same channel.
pub(crate) fn new_fresh_event_channel(capacity: usize) -> (fresh: FreshEventChannel)
    requires
        capacity < 0x3fffffff,
    ensures
        fresh.queued() == Seq::<StoreEventView>::empty(),
        fresh.capacity() == capacity as nat,
{
    let (sender, receiver) = new_channel(capacity);
    FreshEventChannel { sender, receiver, capacity, queued: Ghost(Seq::empty()) }
}

/// Relies on `Sender::try_send`. Its two failures cannot arise here:
/// the channel cannot be closed, because the receiver sits captive in
/// `fresh` (dropping or closing it needs the very receiver this struct
/// owns, and a last-sender drop needs the captive sender); and the
/// sender cannot be parked as full, because parking happens only when
/// a send pushes the backlog beyond the buffer, and every send through
/// this function starts below capacity. So the message is accepted,
/// behind the backlog already queued.
#[verifier::external_body]
pub(crate) fn send_queued(fresh: &mut FreshEventChannel, message: StoreEvent)
    requires
        old(fresh).queued().len() < old(fresh).capacity(),
    ensures
        final(fresh).queued() == old(fresh).queued().push(message@),
        final(fresh).capacity() == old(fresh).capacity(),
{
    // The error case is unreachable while both ends are captive; see
    // the contract above.
    let _ = fresh.sender.try_send(message);
}

} // verus!
