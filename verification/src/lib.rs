//! A mock store for an indexing pipeline: it persists nothing, but it
//! honors the store's event-notification contract in full. Inbound,
//! schema-change events flow through a bounded channel to a relay that
//! reacts to each one in arrival order. Outbound, the store owns a
//! one-time subscription slot: the first `event_stream` call creates a
//! bounded channel of mutation events, every later call fails, and no
//! event is ever published before a consumer has subscribed.

pub mod channel;
pub mod events;
pub mod relay;
pub mod store;
