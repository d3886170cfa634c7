//! The relay: the part of the bus that serves one producer. It takes the producer's
//! envelopes one by one and delivers copies to the consumers that its own snapshot of
//! the registry lists for the envelope's category.

use crate::dispatcher::{DispatchMessage, DispatchType};
use crate::endpoint::ProducerHandle;
use crate::registry::{
    deliver, is_total, kept_before, nothing_severed_nothing_forgotten, survivors, survivors_are_the_endpoints_not_severed, Delivery, Routes,
    SubscriptionRegistry,
};
use vstd::prelude::*;

verus! {

/// What one turn of a relay came to.
#[derive(Debug)]
pub enum RelayStep {
    /// An envelope went through a round of deliveries; the outcomes are those of the
    /// endpoints of its category, in registration order.
    Relayed(Vec<Delivery>),
    /// The producer is gone: there is nothing more to relay.
    Finished,
}

/// `after` is `before` once an envelope of `category` went through a round of
/// deliveries that ended with `outcomes`: every endpoint of the category was tried, the
/// severed ones are forgotten, and no other category changed.
pub open spec fn relayed(
    before: Routes,
    after: Routes,
    category: DispatchType,
    outcomes: Seq<Delivery>,
) -> bool {
    &&& outcomes.len() == before[category].len()
    &&& after == before.insert(category, survivors(before[category], outcomes))
}

/// One producer's handle together with the snapshot of the registry that its envelopes
/// are delivered by.
pub struct Relay {
    source: ProducerHandle,
    subscribers: SubscriptionRegistry,
    finished: bool,
}

impl Relay {
    /// The handle that this relay reads.
    pub closed spec fn source(&self) -> ProducerHandle {
        self.source
    }

    /// The endpoints that this relay still delivers to.
    pub closed spec fn routes(&self) -> Routes {
        self.subscribers@
    }

    /// Whether the producer was found gone.
    pub closed spec fn finished(&self) -> bool {
        self.finished
    }

    /// The routes of a relay have a list for every category, empty or not.
    pub proof fn routes_are_total(&self)
        ensures
            is_total(self.routes()),
    {
        self.subscribers.routes_are_total();
    }

    /// A relay that reads `source` and delivers by `subscribers`.
    pub fn new(source: ProducerHandle, subscribers: SubscriptionRegistry) -> (relay: Relay)
        ensures
            relay.source() == source,
            relay.routes() == subscribers@,
            !relay.finished(),
    {
        Relay { source, subscribers, finished: false }
    }

    /// Whether the producer was found gone. A finished relay relays nothing more.
    pub fn is_finished(&self) -> (finished: bool)
        ensures
            finished == self.finished(),
    {
        self.finished
    }

    /// The number of endpoints that this relay still delivers envelopes of `category`
    /// to.
    pub fn num_subscribers(&self, category: DispatchType) -> (count: usize)
        ensures
            count == self.routes()[category].len(),
    {
        self.subscribers.count(category)
    }

    /// Delivers one copy of `message` to each endpoint of its category and forgets the
    /// endpoints that turned out severed. An envelope of a category without endpoints
    /// is dropped.
    pub fn relay(&mut self, message: &DispatchMessage) -> (outcomes: Vec<Delivery>)
        ensures
            relayed(old(self).routes(), final(self).routes(), message.dispatch_type, outcomes@),
            final(self).source() == old(self).source(),
            final(self).finished() == old(self).finished(),
    {
        let outcomes = deliver(self.subscribers.fan_out(message));
        self.subscribers.prune(message.dispatch_type, &outcomes);
        outcomes
    }

    /// Takes what waiting on the producer gave: an envelope, which is relayed, or
    /// `None`, which says that the producer is gone and finishes the relay. A finished
    /// relay stays finished and relays nothing.
    pub fn handle(&mut self, event: Option<DispatchMessage>) -> (step: RelayStep)
        ensures
            final(self).source() == old(self).source(),
            final(self).finished() == (old(self).finished() || event is None),
            match step {
                RelayStep::Finished => {
                    &&& final(self).finished()
                    &&& final(self).routes() == old(self).routes()
                },
                RelayStep::Relayed(outcomes) => {
                    &&& !final(self).finished()
                    &&& event matches Some(message)
                    &&& relayed(
                        old(self).routes(),
                        final(self).routes(),
                        message.dispatch_type,
                        outcomes@,
                    )
                },
            },
    {
        if self.finished {
            return RelayStep::Finished;
        }
        match event {
            Some(message) => RelayStep::Relayed(self.relay(&message)),
            None => {
                self.finished = true;
                RelayStep::Finished
            },
        }
    }

    /// One turn: waits for the producer's next envelope and handles what came. A
    /// finished relay does not wait again.
    pub fn turn(&mut self) -> (step: RelayStep)
        ensures
            final(self).source() == old(self).source(),
            old(self).finished() ==> final(self).finished(),
            match step {
                RelayStep::Finished => {
                    &&& final(self).finished()
                    &&& final(self).routes() == old(self).routes()
                },
                RelayStep::Relayed(outcomes) => {
                    &&& !final(self).finished()
                    &&& exists|category: DispatchType|
                        relayed(old(self).routes(), final(self).routes(), category, outcomes@)
                },
            },
    {
        if self.finished {
            return RelayStep::Finished;
        }
        let event = self.source.wait();
        self.handle(event)
    }
}

/// Relaying an envelope of a category without subscribers delivers nothing and leaves
/// every category as it was: the envelope is dropped, and that is no failure.
pub proof fn relay_without_subscribers_changes_nothing(
    before: Routes,
    after: Routes,
    category: DispatchType,
    outcomes: Seq<Delivery>,
)
    requires
        relayed(before, after, category, outcomes),
        before[category].len() == 0,
    ensures
        outcomes.len() == 0,
        forall|any: DispatchType| after[any] == before[any],
{
    assert forall|any: DispatchType| after[any] == before[any] by {
        if any == category {
            assert(before[category] == Seq::<crate::endpoint::Endpoint>::empty());
        }
    }
}

/// A round in which no attempt ended `Severed` leaves the routes as they were, all of
/// them.
pub proof fn relay_that_severs_nobody_changes_nothing(
    before: Routes,
    after: Routes,
    category: DispatchType,
    outcomes: Seq<Delivery>,
)
    requires
        is_total(before),
        relayed(before, after, category, outcomes),
        forall|slot: int| 0 <= slot < outcomes.len() ==> outcomes[slot] != Delivery::Severed,
    ensures
        after == before,
{
    nothing_severed_nothing_forgotten(before[category], outcomes);
    assert(before.dom().contains(category));
    assert(after =~= before);
}

/// Relaying an envelope leaves the endpoints of every other category as they were.
pub proof fn relay_leaves_other_categories_alone(
    before: Routes,
    after: Routes,
    category: DispatchType,
    outcomes: Seq<Delivery>,
    other: DispatchType,
)
    requires
        relayed(before, after, category, outcomes),
        other != category,
    ensures
        after[other] == before[other],
{
}

/// A consumer that is gone costs the others nothing: after a round, every endpoint whose
/// attempt did not end `Severed` is still there, behind as many endpoints as stayed of
/// those before it, and so is tried again in the next round.
pub proof fn relay_keeps_the_living_endpoints(
    before: Routes,
    after: Routes,
    category: DispatchType,
    outcomes: Seq<Delivery>,
    slot: int,
)
    requires
        relayed(before, after, category, outcomes),
        0 <= slot < before[category].len(),
        outcomes[slot] != Delivery::Severed,
    ensures
        0 <= kept_before(outcomes, slot) < after[category].len(),
        after[category][kept_before(outcomes, slot)] == before[category][slot],
{
    survivors_are_the_endpoints_not_severed(before[category], outcomes);
}

} // verus!
