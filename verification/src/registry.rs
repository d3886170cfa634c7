//! The subscription registry: for each event category, the endpoints registered for it,
//! in the order in which they were registered.

use crate::dispatcher::{DispatchMessage, DispatchType};
use crate::endpoint::{send, Endpoint};
use std::collections::HashMap;
use vstd::prelude::*;

verus! {

broadcast use vstd::std_specs::hash::group_hash_axioms;

/// What a registry holds: the endpoints of every category, in registration order. A
/// category without subscribers has the empty sequence.
pub type Routes = Map<DispatchType, Seq<Endpoint>>;

/// Whether `routes` has a list for every category.
pub open spec fn is_total(routes: Routes) -> bool {
    forall|category: DispatchType| #[trigger] routes.dom().contains(category)
}

/// The routes of a registry on which nothing was registered.
pub open spec fn no_routes() -> Routes {
    Map::total(|category: DispatchType| Seq::<Endpoint>::empty())
}

/// `routes` after `endpoint` was registered for `category`: it comes last in the
/// category's list, and no other list changes.
pub open spec fn with_endpoint(routes: Routes, category: DispatchType, endpoint: Endpoint) -> Routes {
    routes.insert(category, routes[category].push(endpoint))
}

/// How one delivery attempt ended.
#[derive(Clone, Copy, Debug, PartialEq, Eq, Structural)]
pub enum Delivery {
    /// The copy was put on the consumer's queue.
    Delivered,
    /// The consumer's receiving side is gone; the copy was dropped.
    Severed,
}

/// One copy of an envelope, addressed to the endpoint that is to get it.
pub struct Parcel<'a> {
    pub endpoint: &'a Endpoint,
    pub message: DispatchMessage,
}

/// The parcels that fanning out `message` makes: one for each endpoint registered for
/// the message's category, in registration order, each with a copy equal to the
/// message. Endpoints of other categories get none.
pub open spec fn fan_out_parcels(routes: Routes, message: DispatchMessage) -> Seq<Parcel<'static>> {
    Seq::new(
        routes[message.dispatch_type].len(),
        |slot: int| Parcel { endpoint: &routes[message.dispatch_type][slot], message },
    )
}

/// The endpoints that stay after a round of deliveries: those whose attempt, at the
/// same position in `outcomes`, did not end `Severed`. Their order is kept. An endpoint
/// beyond the end of `outcomes` was not tried and stays.
pub open spec fn survivors(endpoints: Seq<Endpoint>, outcomes: Seq<Delivery>) -> Seq<Endpoint>
    decreases endpoints.len(),
{
    if endpoints.len() == 0 {
        endpoints
    } else {
        let last = endpoints.len() - 1;
        let earlier = survivors(endpoints.drop_last(), outcomes);
        if last < outcomes.len() && outcomes[last] == Delivery::Severed {
            earlier
        } else {
            earlier.push(endpoints.last())
        }
    }
}

impl Delivery {
    /// The outcome that the answer of a send stands for: the copy was taken, or it came
    /// back because the receiving side is gone.
    pub fn of_send(sent: Result<(), DispatchMessage>) -> (outcome: Delivery)
        ensures
            outcome == (if sent is Ok {
                Delivery::Delivered
            } else {
                Delivery::Severed
            }),
    {
        match sent {
            Ok(()) => Delivery::Delivered,
            Err(_) => Delivery::Severed,
        }
    }
}

/// Tries to deliver one parcel: hands its copy to its endpoint. A copy that comes back
/// is dropped. How the attempt ends is up to the consumer.
pub fn post(parcel: Parcel<'_>) -> (outcome: Delivery) {
    Delivery::of_send(send(parcel.endpoint, parcel.message))
}

/// Tries to deliver each of `parcels`, in their order. A failed attempt does not stop
/// the round: every parcel is tried, and the result holds the outcome of each attempt
/// at the position of its parcel.
pub fn deliver(parcels: Vec<Parcel<'_>>) -> (outcomes: Vec<Delivery>)
    ensures
        outcomes@.len() == parcels@.len(),
{
    let mut outcomes: Vec<Delivery> = Vec::new();
    for parcel in tried: parcels
        invariant
            outcomes@.len() == tried.index(),
    {
        outcomes.push(post(parcel));
    }
    outcomes
}

/// The key under which a category's endpoints are stored.
spec fn route_key(category: DispatchType) -> u64 {
    match category {
        DispatchType::ChangeCurrentChannel => 0,
        DispatchType::OutgoingMessage => 1,
        DispatchType::IncomingMessage => 2,
    }
}

fn key_of(category: DispatchType) -> (key: u64)
    ensures
        key == route_key(category),
{
    match category {
        DispatchType::ChangeCurrentChannel => 0,
        DispatchType::OutgoingMessage => 1,
        DispatchType::IncomingMessage => 2,
    }
}

/// A mapping from event category to the endpoints registered for it.
pub struct SubscriptionRegistry {
    routes: HashMap<u64, Vec<Endpoint>>,
}

impl View for SubscriptionRegistry {
    type V = Routes;

    closed spec fn view(&self) -> Routes {
        Map::total(
            |category: DispatchType|
                if self.routes@.contains_key(route_key(category)) {
                    self.routes@[route_key(category)]@
                } else {
                    Seq::empty()
                },
        )
    }
}

impl SubscriptionRegistry {
    /// A registry without subscribers.
    pub fn new() -> (registry: SubscriptionRegistry)
        ensures
            registry@ == no_routes(),
    {
        SubscriptionRegistry { routes: HashMap::new() }
    }

    /// Appends `endpoint` to the list of `category`. The same endpoint may be registered
    /// more than once and then receives as many copies.
    pub fn register(&mut self, category: DispatchType, endpoint: Endpoint)
        ensures
            final(self)@ == with_endpoint(old(self)@, category, endpoint),
    {
        let key = key_of(category);
        let mut list = match self.routes.remove(&key) {
            Some(list) => list,
            None => Vec::new(),
        };
        list.push(endpoint);
        self.routes.insert(key, list);
    }

    /// The endpoints registered for `category`, in registration order; empty when there
    /// are none.
    pub fn lookup(&self, category: DispatchType) -> (found: &[Endpoint])
        ensures
            found@ == self@[category],
    {
        match self.routes.get(&key_of(category)) {
            Some(list) => list.as_slice(),
            None => &[],
        }
    }

    /// Fans `message` out: one parcel for each endpoint registered for its category, each
    /// with an independent copy of the message.
    pub fn fan_out<'a>(&'a self, message: &DispatchMessage) -> (parcels: Vec<Parcel<'a>>)
        ensures
            parcels@ == fan_out_parcels(self@, *message),
    {
        let endpoints = self.lookup(message.dispatch_type);
        let mut parcels: Vec<Parcel<'a>> = Vec::new();
        while parcels.len() < endpoints.len()
            invariant
                endpoints@ == self@[message.dispatch_type],
                parcels@.len() <= endpoints@.len(),
                parcels@ == Seq::new(
                    parcels@.len(),
                    |slot: int| Parcel { endpoint: &endpoints@[slot], message: *message },
                ),
            decreases endpoints@.len() - parcels@.len(),
        {
            parcels.push(Parcel { endpoint: &endpoints[parcels.len()], message: message.clone() });
        }
        parcels
    }

    /// Forgets the endpoints of `category` whose delivery attempt ended `Severed`, so
    /// that later rounds skip them. `outcomes` holds the outcome of a round, at the
    /// position of each endpoint. The other endpoints keep their order.
    pub fn prune(&mut self, category: DispatchType, outcomes: &Vec<Delivery>)
        ensures
            final(self)@ == old(self)@.insert(
                category,
                survivors(old(self)@[category], outcomes@),
            ),
    {
        let key = key_of(category);
        match self.routes.remove(&key) {
            None => {},
            Some(mut list) => {
                let ghost before = list@;
                let total = list.len();
                let mut slot: usize = 0;
                let mut kept: usize = 0;
                while slot < total
                    invariant
                        total == before.len(),
                        kept <= slot <= total,
                        list@.len() == kept + (total - slot),
                        list@.subrange(0, kept as int) == survivors(
                            before.subrange(0, slot as int),
                            outcomes@,
                        ),
                        list@.subrange(kept as int, list@.len() as int) == before.subrange(
                            slot as int,
                            total as int,
                        ),
                    decreases total - slot,
                {
                    let ghost tried = before.subrange(0, slot + 1);
                    assert(tried.drop_last() == before.subrange(0, slot as int));
                    assert(list@[kept as int] == list@.subrange(kept as int, list@.len() as int)[0]);
                    let ghost untried = list@.subrange(kept as int, list@.len() as int);
                    assert(list@.subrange(kept + 1, list@.len() as int) == untried.subrange(
                        1,
                        untried.len() as int,
                    ));
                    assert(before.subrange(slot + 1, total as int) == untried.subrange(
                        1,
                        untried.len() as int,
                    ));
                    if slot < outcomes.len() && outcomes[slot] == Delivery::Severed {
                        let ghost full = list@;
                        list.remove(kept);
                        assert(list@.subrange(0, kept as int) == full.subrange(0, kept as int));
                        assert(list@.subrange(kept as int, list@.len() as int) == full.subrange(
                            kept + 1,
                            full.len() as int,
                        ));
                    } else {
                        assert(list@.subrange(0, kept + 1) == list@.subrange(0, kept as int).push(
                            list@[kept as int],
                        ));
                        kept = kept + 1;
                    }
                    slot = slot + 1;
                }
                assert(before.subrange(0, total as int) == before);
                assert(list@.subrange(0, kept as int) == list@);
                self.routes.insert(key, list);
            },
        }
    }

    /// A registry of its own with the same endpoints: later changes to either are not
    /// seen by the other.
    pub fn snapshot(&self) -> (copy: SubscriptionRegistry)
        ensures
            copy@ == self@,
    {
        SubscriptionRegistry { routes: self.routes.clone() }
    }

    /// Every category has its list in the view, empty or not: two registries with the
    /// same list for each category have the same view.
    pub proof fn routes_are_total(&self)
        ensures
            is_total(self@),
    {
    }

    /// The number of endpoints registered for `category`.
    pub fn count(&self, category: DispatchType) -> (count: usize)
        ensures
            count == self@[category].len(),
    {
        self.lookup(category).len()
    }
}

/// The number of attempts among the first `upto` of `outcomes` that did not end
/// `Severed`.
pub open spec fn kept_before(outcomes: Seq<Delivery>, upto: int) -> int
    decreases upto,
{
    if upto <= 0 {
        0
    } else if upto - 1 < outcomes.len() && outcomes[upto - 1] == Delivery::Severed {
        kept_before(outcomes, upto - 1)
    } else {
        kept_before(outcomes, upto - 1) + 1
    }
}

/// Fanning an envelope out makes exactly one parcel for each endpoint registered for
/// its category: the parcel at an endpoint's position is addressed to that endpoint and
/// holds a copy equal to the envelope.
pub proof fn fan_out_reaches_each_subscriber_once(routes: Routes, message: DispatchMessage)
    ensures
        fan_out_parcels(routes, message).len() == routes[message.dispatch_type].len(),
        forall|slot: int|
            0 <= slot < routes[message.dispatch_type].len() ==> {
                &&& *(#[trigger] fan_out_parcels(routes, message)[slot]).endpoint
                    == routes[message.dispatch_type][slot]
                &&& fan_out_parcels(routes, message)[slot].message == message
            },
{
}

/// Fanning an envelope out does not depend on what is registered for another category:
/// consumers of another category get no parcel, and cost the consumers of the
/// envelope's category none.
pub proof fn fan_out_ignores_other_categories(
    routes: Routes,
    message: DispatchMessage,
    other: DispatchType,
    others: Seq<Endpoint>,
)
    requires
        other != message.dispatch_type,
    ensures
        fan_out_parcels(routes.insert(other, others), message) == fan_out_parcels(routes, message),
{
}

/// An envelope of a category without subscribers makes no parcel.
pub proof fn fan_out_without_subscribers_is_empty(routes: Routes, message: DispatchMessage)
    requires
        routes[message.dispatch_type].len() == 0,
    ensures
        fan_out_parcels(routes, message) == Seq::<Parcel<'static>>::empty(),
{
}

/// Every endpoint whose attempt did not end `Severed` stays, and the endpoints that
/// stay keep their order: such an endpoint stands behind as many endpoints as stayed of
/// those before it. No other endpoint stays.
pub proof fn survivors_are_the_endpoints_not_severed(
    endpoints: Seq<Endpoint>,
    outcomes: Seq<Delivery>,
)
    ensures
        survivors(endpoints, outcomes).len() == kept_before(outcomes, endpoints.len() as int),
        forall|slot: int|
            0 <= slot < endpoints.len() && !(slot < outcomes.len() && outcomes[slot]
                == Delivery::Severed) ==> {
                &&& 0 <= #[trigger] kept_before(outcomes, slot) < survivors(
                    endpoints,
                    outcomes,
                ).len()
                &&& survivors(endpoints, outcomes)[kept_before(outcomes, slot)] == endpoints[slot]
            },
    decreases endpoints.len(),
{
    if endpoints.len() > 0 {
        survivors_are_the_endpoints_not_severed(endpoints.drop_last(), outcomes);
        assert forall|slot: int|
            0 <= slot < endpoints.len() && !(slot < outcomes.len() && outcomes[slot]
                == Delivery::Severed) implies {
            &&& 0 <= #[trigger] kept_before(outcomes, slot) < survivors(endpoints, outcomes).len()
            &&& survivors(endpoints, outcomes)[kept_before(outcomes, slot)] == endpoints[slot]
        } by {
            if slot < endpoints.len() - 1 {
                assert(endpoints.drop_last()[slot] == endpoints[slot]);
            }
        }
    }
}

/// A round in which no attempt ended `Severed` leaves the endpoints as they were.
pub proof fn nothing_severed_nothing_forgotten(endpoints: Seq<Endpoint>, outcomes: Seq<Delivery>)
    requires
        forall|slot: int| 0 <= slot < outcomes.len() ==> outcomes[slot] != Delivery::Severed,
    ensures
        survivors(endpoints, outcomes) == endpoints,
    decreases endpoints.len(),
{
    if endpoints.len() > 0 {
        nothing_severed_nothing_forgotten(endpoints.drop_last(), outcomes);
        assert(endpoints.drop_last().push(endpoints.last()) == endpoints);
    }
}

} // verus!
