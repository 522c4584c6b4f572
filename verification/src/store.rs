//! The mock store: persistence is an unimplemented stub, but the
//! event-notification contract is complete. The store owns the
//! producer handle of the inbound schema-event channel and a one-time
//! subscription slot for the outbound store-event channel. The slot
//! starts empty, is occupied by the first successful `event_stream`
//! call, and is never emptied again; every later call fails with
//! `AlreadyCreated`. No store event is ever published while the slot
//! is empty.

use vstd::prelude::*;

use futures::sync::mpsc::{Receiver, Sender};

use crate::channel::{
    clone_schema_sender, new_fresh_event_channel, new_schema_channel, receiver_channel,
    send_message, send_queued, sender_channel, FreshEventChannel, CHANNEL_CAPACITY,
};
use crate::events::{
    EmitOutcome, Entity, SchemaProviderEvent, SendError, StoreEvent, StoreEventView, StoreKey,
    StoreQuery, StreamError,
};

verus! {

/// One step of the subscription slot's state machine, from whether the
/// slot is occupied before an `event_stream` call: the pair of the
/// slot state after the call and whether the call succeeds. The slot
/// is occupied afterwards either way, and the call succeeds exactly
/// when the slot was still empty.
pub open spec fn create_stream_step(occupied: bool) -> (bool, bool) {
    (true, !occupied)
}

/// Whether the subscription slot is occupied after `calls` calls to
/// `event_stream` on a store whose slot started empty.
pub open spec fn occupied_after(calls: nat) -> bool
    decreases calls,
{
    if calls == 0 {
        false
    } else {
        create_stream_step(occupied_after((calls - 1) as nat)).0
    }
}

/// Whether the (zero-indexed) `call`-th `event_stream` call on a fresh
/// store succeeds.
pub open spec fn create_succeeds_at(call: nat) -> bool {
    create_stream_step(occupied_after(call)).1
}

proof fn lemma_occupied_after(calls: nat)
    ensures
        occupied_after(calls) <==> calls > 0,
    decreases calls,
{
    if calls > 0 {
        lemma_occupied_after((calls - 1) as nat);
    }
}

/// Law: on any store, creating the event stream succeeds exactly once.
/// The first call succeeds; every later call, however many there are,
/// fails with `AlreadyCreated`.
pub proof fn lemma_stream_creation_succeeds_exactly_once(call: nat)
    ensures
        create_succeeds_at(call) <==> call == 0,
{
    lemma_occupied_after(call);
}

/// The demonstration burst the mock store publishes to a freshly
/// subscribed consumer, in publication order.
pub open spec fn demo_events() -> Seq<StoreEventView> {
    seq![
        StoreEventView::EntityAdded("Entity 1"@),
        StoreEventView::EntityAdded("Entity 2"@),
        StoreEventView::EntityChanged("Entity 1"@),
        StoreEventView::EntityRemoved("Entity 2"@),
    ]
}

/// The abstract state of a mock store: whether the one-time event
/// stream has been created, and the store events accepted into the
/// outbound channel so far, oldest first.
pub struct MockStoreView {
    pub stream_created: bool,
    pub emitted: Seq<StoreEventView>,
}

/// A mock `Store`. Its persistence operations always report failure;
/// its notification surface is the real contract: an inbound
/// schema-event sink, a one-time outbound event stream, and an emitter
/// that publishes only once a consumer exists.
pub struct MockStore {
    event_sink: Option<Sender<StoreEvent>>,
    schema_provider_event_sink: Sender<SchemaProviderEvent>,
    emitted: Ghost<Seq<StoreEventView>>,
}

impl View for MockStore {
    type V = MockStoreView;

    closed spec fn view(&self) -> MockStoreView {
        MockStoreView {
            stream_created: self.event_sink is Some,
            emitted: self.emitted@,
        }
    }
}

impl MockStore {
    /// A store is well-formed when its emission log matches its
    /// lifecycle: while no consumer has ever subscribed, nothing has
    /// been emitted.
    pub open spec fn wf(self) -> bool {
        !self@.stream_created ==> self@.emitted == Seq::<StoreEventView>::empty()
    }

    /// The identity of this store's schema-event channel: the channel
    /// that every handle from `schema_provider_event_sink` feeds and
    /// that the receiver handed out by `new` drains.
    pub closed spec fn schema_channel(&self) -> int {
        sender_channel(&self.schema_provider_event_sink)
    }

    /// Creates a new mock store, paired with the consuming end of its
    /// own schema-event channel. The caller hands that receiver to the
    /// schema-event relay it runs; the store keeps the producer side
    /// and shares it through `schema_provider_event_sink`.
    pub fn new() -> (result: (MockStore, Receiver<SchemaProviderEvent>))
        ensures
            result.0.wf(),
            !result.0@.stream_created,
            result.0@.emitted == Seq::<StoreEventView>::empty(),
            receiver_channel(&result.1) == result.0.schema_channel(),
    {
        let (sink, stream) = new_schema_channel(CHANNEL_CAPACITY);
        let store = MockStore {
            event_sink: None,
            schema_provider_event_sink: sink,
            emitted: Ghost(Seq::empty()),
        };
        (store, stream)
    }

    /// Returns a producer handle for the store's own schema-event
    /// channel. The handle may be cloned and shared among upstream
    /// providers; per-producer send order is preserved by the channel.
    pub fn schema_provider_event_sink(&self) -> (sink: Sender<SchemaProviderEvent>)
        ensures
            sender_channel(&sink) == self.schema_channel(),
    {
        clone_schema_sender(&self.schema_provider_event_sink)
    }

    /// Publishes one store event. If no consumer has ever subscribed,
    /// the event is discarded: not buffered, not an error. If one has,
    /// the event goes out on the store-event channel and the send
    /// fails exactly when that consumer is gone.
    pub fn emit(&mut self, event: StoreEvent) -> (outcome: Result<EmitOutcome, SendError>)
        requires
            old(self).wf(),
        ensures
            final(self).wf(),
            final(self)@.stream_created == old(self)@.stream_created,
            final(self).schema_channel() == old(self).schema_channel(),
            !old(self)@.stream_created ==> outcome == Ok::<EmitOutcome, SendError>(
                EmitOutcome::Discarded,
            ) && final(self)@.emitted == old(self)@.emitted,
            old(self)@.stream_created ==> match outcome {
                Ok(EmitOutcome::Sent) => final(self)@.emitted == old(self)@.emitted.push(event@),
                Err(SendError::ChannelClosed) => final(self)@.emitted == old(self)@.emitted,
                _ => false,
            },
    {
        match &self.event_sink {
            None => Ok(EmitOutcome::Discarded),
            Some(sink) => {
                let ghost sent_event = event@;
                match send_message(sink, event) {
                    Ok(()) => {
                        self.emitted = Ghost(self.emitted@.push(sent_event));
                        Ok(EmitOutcome::Sent)
                    },
                    Err(closed) => Err(closed),
                }
            },
        }
    }

    /// The demonstration event at position `position` of the burst.
    fn demo_event(position: usize) -> (event: StoreEvent)
        requires
            position < demo_events().len(),
        ensures
            event@ == demo_events()[position as int],
    {
        if position == 0 {
            StoreEvent::EntityAdded("Entity 1".to_owned())
        } else if position == 1 {
            StoreEvent::EntityAdded("Entity 2".to_owned())
        } else if position == 2 {
            StoreEvent::EntityChanged("Entity 1".to_owned())
        } else {
            StoreEvent::EntityRemoved("Entity 2".to_owned())
        }
    }

    /// Publishes the demonstration burst into the freshly created
    /// store-event channel, in order and in full: both ends of that
    /// channel are still in the store's hands, so no send can fail and
    /// nothing less than the whole burst goes out.
    fn generate_mock_events(channel: &mut FreshEventChannel)
        requires
            old(channel).queued().len() + demo_events().len() <= old(channel).capacity(),
        ensures
            final(channel).queued() == old(channel).queued() + demo_events(),
            final(channel).capacity() == old(channel).capacity(),
    {
        let ghost queued0 = channel.queued();
        let mut position: usize = 0;
        while position < 4
            invariant
                position <= 4,
                demo_events().len() == 4,
                queued0 == old(channel).queued(),
                queued0.len() + 4 <= channel.capacity(),
                channel.capacity() == old(channel).capacity(),
                channel.queued() == queued0 + demo_events().take(position as int),
            decreases 4 - position,
        {
            let event = Self::demo_event(position);
            send_queued(channel, event);
            proof {
                assert((queued0 + demo_events().take(position as int)).push(
                    demo_events()[position as int],
                ) =~= queued0 + demo_events().take(position + 1));
            }
            position = position + 1;
        }
        proof {
            assert(queued0 + demo_events().take(4) =~= queued0 + demo_events());
        }
    }

    /// Hands out the one event stream of this store. The call succeeds
    /// exactly when the subscription slot is still empty: it then
    /// occupies the slot with the producer end of a fresh bounded
    /// channel, publishes the whole demonstration burst through that
    /// very handle, and returns the consuming end with the burst
    /// awaiting it. When the slot is already occupied the call fails
    /// fast with `AlreadyCreated` and leaves the store untouched.
    /// Taking `&mut self` makes each call atomic: of racing callers,
    /// exactly one can succeed.
    pub fn event_stream(&mut self) -> (stream: Result<Receiver<StoreEvent>, StreamError>)
        requires
            old(self).wf(),
        ensures
            final(self).wf(),
            final(self).schema_channel() == old(self).schema_channel(),
            stream is Ok == create_stream_step(old(self)@.stream_created).1,
            final(self)@.stream_created == create_stream_step(old(self)@.stream_created).0,
            stream is Err ==> stream == Err::<Receiver<StoreEvent>, StreamError>(
                StreamError::AlreadyCreated,
            ) && *final(self) == *old(self),
            stream is Ok ==> final(self)@.emitted == old(self)@.emitted + demo_events(),
    {
        if self.event_sink.is_some() {
            Err(StreamError::AlreadyCreated)
        } else {
            let mut fresh = new_fresh_event_channel(CHANNEL_CAPACITY);
            Self::generate_mock_events(&mut fresh);
            proof {
                assert(Seq::<StoreEventView>::empty() + demo_events() =~= demo_events());
                assert(fresh.queued() == demo_events());
            }
            let (sink, stream) = fresh.into_ends();
            self.event_sink = Some(sink);
            self.emitted = Ghost(self.emitted@ + demo_events());
            Ok(stream)
        }
    }

    /// Looks up one entity. Persistence belongs to the external
    /// engine; the mock supplies none, so every lookup reports failure.
    pub fn get(&self, _key: StoreKey) -> (result: Result<Entity, ()>)
        ensures
            result is Err,
    {
        Err(())
    }

    /// Writes one entity. The mock has no persistence engine, so the
    /// write fails; a failed mutation publishes no store event.
    pub fn set(&mut self, _key: StoreKey, _entity: Entity) -> (result: Result<(), ()>)
        ensures
            result is Err,
            *final(self) == *old(self),
    {
        Err(())
    }

    /// Deletes one entity. The mock has no persistence engine, so the
    /// deletion fails; a failed mutation publishes no store event.
    pub fn delete(&mut self, _key: StoreKey) -> (result: Result<(), ()>)
        ensures
            result is Err,
            *final(self) == *old(self),
    {
        Err(())
    }

    /// Runs a query. The mock has no persistence engine, so every
    /// query reports failure.
    pub fn find(&self, _query: StoreQuery) -> (result: Result<Vec<Entity>, ()>)
        ensures
            result is Err,
    {
        Err(())
    }
}

/// Law: no store event is observable before the event stream has been
/// created. A well-formed store whose subscription slot is empty has
/// published nothing at all.
pub proof fn lemma_no_emission_before_subscription(store: &MockStore)
    requires
        store.wf(),
    ensures
        !store@.stream_created ==> store@.emitted == Seq::<StoreEventView>::empty(),
{
}

} // verus!
