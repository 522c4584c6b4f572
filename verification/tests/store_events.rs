//! The outbound side of the notification contract: the one-time event
//! stream, the demonstration burst, and the emitter's lifecycle.

use futures::Stream;

use thegraph_mock::events::{Entity, EmitOutcome, SendError, StoreEvent, StoreKey, StoreQuery, StreamError};
use thegraph_mock::store::MockStore;

fn added(label: &str) -> StoreEvent {
    StoreEvent::EntityAdded(label.to_owned())
}

fn changed(label: &str) -> StoreEvent {
    StoreEvent::EntityChanged(label.to_owned())
}

fn removed(label: &str) -> StoreEvent {
    StoreEvent::EntityRemoved(label.to_owned())
}

#[test]
fn event_stream_succeeds_exactly_once() {
    let (mut store, _schema_events) = MockStore::new();
    assert!(store.event_stream().is_ok());
    assert_eq!(store.event_stream().err(), Some(StreamError::AlreadyCreated));
    assert_eq!(store.event_stream().err(), Some(StreamError::AlreadyCreated));
}

#[test]
fn event_stream_yields_demo_events_in_order() {
    let (mut store, _schema_events) = MockStore::new();
    let stream = store.event_stream().unwrap();
    let mut events = stream.wait();
    assert_eq!(events.next(), Some(Ok(added("Entity 1"))));
    assert_eq!(events.next(), Some(Ok(added("Entity 2"))));
    assert_eq!(events.next(), Some(Ok(changed("Entity 1"))));
    assert_eq!(events.next(), Some(Ok(removed("Entity 2"))));
    // Dropping the store drops the producer handle; the stream then
    // ends normally, showing the burst was exactly four events.
    drop(store);
    assert_eq!(events.next(), None);
}

#[test]
fn failed_creation_publishes_nothing_more() {
    let (mut store, _schema_events) = MockStore::new();
    let stream = store.event_stream().unwrap();
    assert_eq!(store.event_stream().err(), Some(StreamError::AlreadyCreated));
    drop(store);
    let received: Vec<StoreEvent> = stream.wait().map(Result::unwrap).collect();
    assert_eq!(
        received,
        vec![
            added("Entity 1"),
            added("Entity 2"),
            changed("Entity 1"),
            removed("Entity 2"),
        ]
    );
}

#[test]
fn no_event_observable_before_subscription() {
    let (mut store, _schema_events) = MockStore::new();
    // Emitted while nobody has subscribed: discarded, not buffered.
    assert_eq!(store.emit(added("early")), Ok(EmitOutcome::Discarded));
    let stream = store.event_stream().unwrap();
    drop(store);
    let received: Vec<StoreEvent> = stream.wait().map(Result::unwrap).collect();
    // Only the demonstration burst arrives; the early event is gone.
    assert_eq!(
        received,
        vec![
            added("Entity 1"),
            added("Entity 2"),
            changed("Entity 1"),
            removed("Entity 2"),
        ]
    );
}

#[test]
fn emitted_event_reaches_the_consumer_unchanged() {
    let (mut store, _schema_events) = MockStore::new();
    let stream = store.event_stream().unwrap();
    let event = changed("Some entity with a long label");
    assert_eq!(store.emit(event.clone()), Ok(EmitOutcome::Sent));
    drop(store);
    let received: Vec<StoreEvent> = stream.wait().map(Result::unwrap).collect();
    assert_eq!(received.len(), 5);
    assert_eq!(received[4], event);
}

#[test]
fn emit_after_consumer_dropped_fails_closed() {
    let (mut store, _schema_events) = MockStore::new();
    let stream = store.event_stream().unwrap();
    drop(stream);
    assert_eq!(
        store.emit(added("nobody listens")),
        Err(SendError::ChannelClosed)
    );
}

#[test]
fn persistence_operations_report_failure_and_emit_nothing() {
    let (mut store, _schema_events) = MockStore::new();
    let key = StoreKey {
        entity: "user".to_owned(),
        id: "1".to_owned(),
    };
    let entity = Entity {
        fields: vec![("name".to_owned(), "Ada".to_owned())],
    };
    assert!(store.get(key.clone()).is_err());
    assert!(store.set(key.clone(), entity).is_err());
    assert!(store.delete(key).is_err());
    assert!(store
        .find(StoreQuery {
            entity: "user".to_owned()
        })
        .is_err());
    // Failed mutations must not have published anything.
    let stream = store.event_stream().unwrap();
    drop(store);
    let received: Vec<StoreEvent> = stream.wait().map(Result::unwrap).collect();
    assert_eq!(received.len(), 4);
}

#[test]
fn emitted_events_arrive_in_emission_order_without_loss() {
    let (mut store, _schema_events) = MockStore::new();
    let stream = store.event_stream().unwrap();
    let mut accepted: Vec<StoreEvent> = vec![
        added("Entity 1"),
        added("Entity 2"),
        changed("Entity 1"),
        removed("Entity 2"),
    ];
    for i in 0..50 {
        let event = added(&format!("bulk {}", i));
        assert_eq!(store.emit(event.clone()), Ok(EmitOutcome::Sent));
        accepted.push(event);
    }
    drop(store);
    let received: Vec<StoreEvent> = stream.wait().map(Result::unwrap).collect();
    assert_eq!(received, accepted);
}
