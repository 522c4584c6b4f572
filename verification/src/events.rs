//! The messages and errors of the store's notification contract, with
//! their mathematical values.

use vstd::prelude::*;

verus! {

/// Identifies at most one entity in the backing store: an entity type
/// together with the id of the entity within that type.
#[derive(Clone, Debug, PartialEq, Eq)]
pub struct StoreKey {
    pub entity: String,
    pub id: String,
}

/// A persisted record: a list of named attribute values, in field order.
/// Entities are owned by the persistence engine; the notification core
/// only ever names them by label.
#[derive(Clone, Debug, PartialEq, Eq)]
pub struct Entity {
    pub fields: Vec<(String, String)>,
}

/// A declarative selector over entities of one type; opaque to the
/// notification core.
#[derive(Clone, Debug, PartialEq, Eq)]
pub struct StoreQuery {
    pub entity: String,
}

/// A mutation notification published by the store, carrying the label of
/// the affected entity.
#[derive(Clone, Debug, PartialEq, Eq)]
pub enum StoreEvent {
    EntityAdded(String),
    EntityChanged(String),
    EntityRemoved(String),
}

/// The mathematical value of a `StoreEvent`: the same tag over the
/// label's character sequence.
pub enum StoreEventView {
    EntityAdded(Seq<char>),
    EntityChanged(Seq<char>),
    EntityRemoved(Seq<char>),
}

impl View for StoreEvent {
    type V = StoreEventView;

    open spec fn view(&self) -> StoreEventView {
        match self {
            StoreEvent::EntityAdded(label) => StoreEventView::EntityAdded(label@),
            StoreEvent::EntityChanged(label) => StoreEventView::EntityChanged(label@),
            StoreEvent::EntityRemoved(label) => StoreEventView::EntityRemoved(label@),
        }
    }
}

/// A schema-change notification from the upstream schema provider,
/// naming the schema that changed. The store relays it; it never alters
/// or answers it.
#[derive(Clone, Debug, PartialEq, Eq)]
pub enum SchemaProviderEvent {
    SchemaChanged(String),
}

/// The mathematical value of a `SchemaProviderEvent`.
pub enum SchemaProviderEventView {
    SchemaChanged(Seq<char>),
}

impl View for SchemaProviderEvent {
    type V = SchemaProviderEventView;

    open spec fn view(&self) -> SchemaProviderEventView {
        match self {
            SchemaProviderEvent::SchemaChanged(name) => {
                SchemaProviderEventView::SchemaChanged(name@)
            },
        }
    }
}

/// Why an event stream could not be handed out.
#[derive(Clone, Copy, Debug, PartialEq, Eq, Structural)]
pub enum StreamError {
    /// The one-time subscription slot is already occupied: a stream was
    /// created earlier in this store's lifetime.
    AlreadyCreated,
}

/// Why a message could not be sent on a channel.
#[derive(Clone, Copy, Debug, PartialEq, Eq, Structural)]
pub enum SendError {
    /// The consuming end has been dropped; the consumer is gone and the
    /// producer should stop sending.
    ChannelClosed,
}

/// What became of an event handed to the store's emitter.
#[derive(Clone, Copy, Debug, PartialEq, Eq, Structural)]
pub enum EmitOutcome {
    /// A consumer is subscribed and the channel accepted the event.
    Sent,
    /// No consumer has ever subscribed; the event was dropped, without
    /// buffering and without error.
    Discarded,
}

} // verus!
