//! The schema-event relay: the store-side consumer of inbound
//! schema-change events. The relay reacts to each event in arrival
//! order and keeps consuming until the channel closes; a failure
//! reacting to one event never stops it. Its view is the sequence of
//! events it has observed so far, oldest first.
//!
//! Receiving from the channel suspends, so the consumption loop itself
//! is run by the caller (a background task in a deployment, a plain
//! loop in a test); the relay supplies the verified decisions: what to
//! do with one event, and what to do when the channel closes.

use vstd::prelude::*;

use crate::events::{SchemaProviderEvent, SchemaProviderEventView};

verus! {

/// What the relay decides after one observation: keep consuming, or
/// stop because the channel has closed.
#[derive(Clone, Copy, Debug, PartialEq, Eq, Structural)]
pub enum RelayDirective {
    Continue,
    Stop,
}

/// The sequence of mathematical values of a sequence of schema events.
pub open spec fn views_of(events: Seq<SchemaProviderEvent>) -> Seq<SchemaProviderEventView> {
    events.map_values(|event: SchemaProviderEvent| event@)
}

/// The log a relay holds after observing `arrivals` one at a time,
/// oldest first, starting from the log `observed`. This is the relay's
/// whole behaviour over a run: each observation appends one event.
pub open spec fn relay_run(
    observed: Seq<SchemaProviderEventView>,
    arrivals: Seq<SchemaProviderEventView>,
) -> Seq<SchemaProviderEventView>
    decreases arrivals.len(),
{
    if arrivals.len() == 0 {
        observed
    } else {
        relay_run(observed.push(arrivals[0]), arrivals.drop_first())
    }
}

/// A run appends the arrivals, in order, to the log the relay already held.
pub proof fn lemma_relay_run_appends(
    observed: Seq<SchemaProviderEventView>,
    arrivals: Seq<SchemaProviderEventView>,
)
    ensures
        relay_run(observed, arrivals) == observed + arrivals,
    decreases arrivals.len(),
{
    if arrivals.len() == 0 {
        assert(observed + arrivals =~= observed);
    } else {
        lemma_relay_run_appends(observed.push(arrivals[0]), arrivals.drop_first());
        assert(observed.push(arrivals[0]) + arrivals.drop_first() =~= observed + arrivals);
    }
}

/// Law: the relay observes schema events in the order they arrive. A
/// relay that starts with nothing observed and is handed `arrivals` one
/// by one ends up holding exactly `arrivals`: nothing reordered, nothing
/// dropped, nothing duplicated.
pub proof fn lemma_relay_observes_in_arrival_order(arrivals: Seq<SchemaProviderEventView>)
    ensures
        relay_run(Seq::<SchemaProviderEventView>::empty(), arrivals) == arrivals,
{
    lemma_relay_run_appends(Seq::<SchemaProviderEventView>::empty(), arrivals);
    assert(Seq::<SchemaProviderEventView>::empty() + arrivals =~= arrivals);
}

/// The relay itself. It owns no channel end: the caller drives it with
/// each received event, so that the decisions stay verifiable while the
/// suspension points stay with the runtime.
pub struct SchemaEventRelay {
    observed: Ghost<Seq<SchemaProviderEventView>>,
}

impl View for SchemaEventRelay {
    type V = Seq<SchemaProviderEventView>;

    closed spec fn view(&self) -> Seq<SchemaProviderEventView> {
        self.observed@
    }
}

impl SchemaEventRelay {
    /// A relay that has observed nothing yet.
    pub fn new() -> (relay: Self)
        ensures
            relay@ == Seq::<SchemaProviderEventView>::empty(),
    {
        SchemaEventRelay { observed: Ghost(Seq::empty()) }
    }

    /// Reacts to one inbound schema event: records its value, exactly
    /// as received and without transformation, and keeps consuming. A
    /// failure reacting to a single event is contained here and never
    /// ends the relay, so the directive is always `Continue`.
    pub fn observe(&mut self, event: &SchemaProviderEvent) -> (directive: RelayDirective)
        ensures
            directive == RelayDirective::Continue,
            final(self)@ == old(self)@.push(event@),
    {
        self.observed = Ghost(self.observed@.push(event@));
        RelayDirective::Continue
    }

    /// The channel has closed: every producer handle has been dropped.
    /// This is the relay's one normal termination, not an error.
    pub fn on_channel_closed(&self) -> (directive: RelayDirective)
        ensures
            directive == RelayDirective::Stop,
    {
        RelayDirective::Stop
    }

    /// Observes a batch of already-received events, oldest first, and
    /// reports how many were processed: always the whole batch, since no
    /// single event can stop the relay.
    pub fn process_batch(&mut self, events: &Vec<SchemaProviderEvent>) -> (processed: usize)
        ensures
            processed == events@.len(),
            final(self)@ == relay_run(old(self)@, views_of(events@)),
    {
        let ghost observed0 = self@;
        let mut i: usize = 0;
        while i < events.len()
            invariant
                i <= events@.len(),
                self@ == observed0 + views_of(events@).take(i as int),
            decreases events@.len() - i,
        {
            let _directive = self.observe(&events[i]);
            proof {
                assert((observed0 + views_of(events@).take(i as int)).push(events@[i as int]@)
                    =~= observed0 + views_of(events@).take(i + 1));
            }
            i = i + 1;
        }
        proof {
            assert(views_of(events@).take(events@.len() as int) =~= views_of(events@));
            lemma_relay_run_appends(observed0, views_of(events@));
        }
        i
    }
}

} // verus!
