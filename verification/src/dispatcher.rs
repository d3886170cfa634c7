//! Event categories, envelopes, and the dispatcher on which producers and consumers
//! register.

use crate::endpoint::{Endpoint, ProducerHandle};
use crate::registry::{is_total, no_routes, with_endpoint, Routes, SubscriptionRegistry};
use crate::relay::Relay;
use std::sync::mpsc::{Receiver, Sender};
use vstd::prelude::*;

verus! {

/// The categories of event that travel over the bus. A category is a routing key and
/// nothing more.
#[derive(Clone, Copy, Debug, PartialEq, Eq, Structural, Hash)]
pub enum DispatchType {
    ChangeCurrentChannel,
    OutgoingMessage,
    IncomingMessage,
}

/// An envelope: a category and a payload that the bus never looks into.
#[derive(Debug)]
pub struct DispatchMessage {
    pub dispatch_type: DispatchType,
    pub payload: String,
}

impl Clone for DispatchMessage {
    /// An independent copy with the same category and the same payload.
    fn clone(&self) -> (copy: Self)
        ensures
            copy == *self,
    {
        DispatchMessage { dispatch_type: self.dispatch_type, payload: self.payload.clone() }
    }
}

/// The name under which a category is known.
pub open spec fn category_name(dispatch_type: DispatchType) -> Seq<char> {
    match dispatch_type {
        DispatchType::OutgoingMessage => "OutgoingMessage"@,
        DispatchType::ChangeCurrentChannel => "ChangeCurrentChannel"@,
        DispatchType::IncomingMessage => "IncomingMessage"@,
    }
}

/// The name of a category as text.
pub fn type_to_str(dispatch_type: &DispatchType) -> (name: &'static str)
    ensures
        name@ == category_name(*dispatch_type),
{
    match *dispatch_type {
        DispatchType::OutgoingMessage => "OutgoingMessage",
        DispatchType::ChangeCurrentChannel => "ChangeCurrentChannel",
        DispatchType::IncomingMessage => "IncomingMessage",
    }
}

/// Two categories with the same name are the same category.
pub proof fn category_names_are_distinct(first: DispatchType, second: DispatchType)
    requires
        category_name(first) == category_name(second),
    ensures
        first == second,
{
    reveal_strlit("OutgoingMessage");
    reveal_strlit("ChangeCurrentChannel");
    reveal_strlit("IncomingMessage");
    assert("OutgoingMessage"@.len() == 15);
    assert("ChangeCurrentChannel"@.len() == 20);
    assert("OutgoingMessage"@[0] == 'O');
    assert("IncomingMessage"@[0] == 'I');
}

/// What a producer offers the bus.
pub trait Broadcast {
    /// Puts a new envelope with this category and payload on the producer's queue.
    fn broadcast(&self, dispatch_type: DispatchType, payload: String);

    /// Opens the producer's queue and gives its receiving side away. The producer keeps
    /// the sending side for `broadcast`.
    fn broadcast_handle(&mut self) -> Receiver<DispatchMessage>;
}

/// What a consumer offers the bus.
pub trait Subscribe {
    /// A sending side of the queue that the consumer reads.
    fn subscribe(&self) -> Sender<DispatchMessage>;

    /// The one category whose envelopes the consumer wants.
    fn what_subscribe(&self) -> DispatchType;
}

/// What a dispatcher holds: the handles of the registered producers, in registration
/// order, and the endpoints of the registered consumers by category.
pub ghost struct Registrations {
    pub broadcasters: Seq<ProducerHandle>,
    pub subscribers: Routes,
}

impl Registrations {
    /// Nothing registered.
    pub open spec fn none() -> Registrations {
        Registrations { broadcasters: Seq::empty(), subscribers: no_routes() }
    }

    /// One more producer, after those already there.
    pub open spec fn with_broadcaster(self, handle: ProducerHandle) -> Registrations {
        Registrations { broadcasters: self.broadcasters.push(handle), ..self }
    }

    /// One more consumer of `category`, after those already there.
    pub open spec fn with_subscriber(self, category: DispatchType, endpoint: Endpoint) -> Registrations {
        Registrations { subscribers: with_endpoint(self.subscribers, category, endpoint), ..self }
    }
}

/// The bus before it runs: producers and consumers register here, and `relays` then
/// gives the relays that do the delivering.
pub struct Dispatcher {
    subscribers: SubscriptionRegistry,
    broadcasters: Vec<ProducerHandle>,
}

impl View for Dispatcher {
    type V = Registrations;

    closed spec fn view(&self) -> Registrations {
        Registrations { broadcasters: self.broadcasters@, subscribers: self.subscribers@ }
    }
}

impl Dispatcher {
    /// The consumers of a dispatcher have a list for every category, empty or not.
    pub proof fn subscribers_are_total(&self)
        ensures
            is_total(self@.subscribers),
    {
        self.subscribers.routes_are_total();
    }

    /// A dispatcher on which nothing is registered.
    pub fn new() -> (dispatcher: Dispatcher)
        ensures
            dispatcher@ == Registrations::none(),
    {
        Dispatcher { subscribers: SubscriptionRegistry::new(), broadcasters: Vec::new() }
    }

    /// Stores the handle of one more producer. Nothing is read from it yet.
    pub fn add_handle(&mut self, handle: ProducerHandle)
        ensures
            final(self)@ == old(self)@.with_broadcaster(handle),
    {
        self.broadcasters.push(handle);
    }

    /// Stores the endpoint of one more consumer of `category`.
    pub fn add_endpoint(&mut self, category: DispatchType, endpoint: Endpoint)
        ensures
            final(self)@ == old(self)@.with_subscriber(category, endpoint),
    {
        self.subscribers.register(category, endpoint);
    }

    /// Registers a producer: asks it for the receiving side of its queue and stores
    /// that as one more handle. The consumers are left as they are.
    pub fn register_broadcaster<B: Broadcast + ?Sized>(&mut self, broadcaster: &mut B)
        ensures
            exists|handle: ProducerHandle| final(self)@ == old(self)@.with_broadcaster(handle),
    {
        let handle = ProducerHandle::new(broadcaster.broadcast_handle());
        self.add_handle(handle);
    }

    /// Registers a consumer: asks it for its endpoint and its category and stores the
    /// endpoint as the last of that category. The producers and the other categories
    /// are left as they are.
    pub fn register_subscriber(&mut self, subscriber: &dyn Subscribe)
        ensures
            exists|category: DispatchType, endpoint: Endpoint|
                final(self)@ == old(self)@.with_subscriber(category, endpoint),
    {
        let endpoint = subscriber.subscribe();
        let category = subscriber.what_subscribe();
        self.add_endpoint(category, endpoint);
    }

    /// One relay for each registered producer, in registration order. Each reads its
    /// producer's handle and delivers by its own copy of the registry as it is now:
    /// what is registered later is not seen by these relays. The relays of a second
    /// call read the same handles as those of the first, so that an envelope reaches
    /// one of the two and not the other: ask once, after the last registration.
    pub fn relays(&self) -> (relays: Vec<Relay>)
        ensures
            relays@.len() == self@.broadcasters.len(),
            forall|i: int|
                0 <= i < relays@.len() ==> {
                    &&& (#[trigger] relays@[i]).source() == self@.broadcasters[i]
                    &&& relays@[i].routes() == self@.subscribers
                    &&& !relays@[i].finished()
                },
    {
        let mut relays: Vec<Relay> = Vec::new();
        while relays.len() < self.broadcasters.len()
            invariant
                relays@.len() <= self.broadcasters@.len(),
                forall|i: int|
                    0 <= i < relays@.len() ==> {
                        &&& (#[trigger] relays@[i]).source() == self.broadcasters@[i]
                        &&& relays@[i].routes() == self.subscribers@
                        &&& !relays@[i].finished()
                    },
            decreases self.broadcasters@.len() - relays@.len(),
        {
            let source = self.broadcasters[relays.len()].share();
            relays.push(Relay::new(source, self.subscribers.snapshot()));
        }
        relays
    }

    /// The number of registered producers.
    pub fn num_broadcasters(&self) -> (count: usize)
        ensures
            count == self@.broadcasters.len(),
    {
        self.broadcasters.len()
    }

    /// The number of consumers registered for `dispatch_type`.
    pub fn num_subscribers(&self, dispatch_type: DispatchType) -> (count: usize)
        ensures
            count == self@.subscribers[dispatch_type].len(),
    {
        self.subscribers.count(dispatch_type)
    }
}

/// One registration made on a dispatcher.
pub ghost enum Registration {
    Broadcaster(ProducerHandle),
    Subscriber(DispatchType, Endpoint),
}

/// What a dispatcher holds after `calls` were made on a new one, in this order.
pub open spec fn registered(calls: Seq<Registration>) -> Registrations
    decreases calls.len(),
{
    if calls.len() == 0 {
        Registrations::none()
    } else {
        let before = registered(calls.drop_last());
        match calls.last() {
            Registration::Broadcaster(handle) => before.with_broadcaster(handle),
            Registration::Subscriber(category, endpoint) => before.with_subscriber(
                category,
                endpoint,
            ),
        }
    }
}

/// Whether a registration is that of a producer.
pub open spec fn names_broadcaster() -> spec_fn(Registration) -> bool {
    |call: Registration| call is Broadcaster
}

/// Whether a registration is that of a consumer of `category`.
pub open spec fn names_subscriber_of(category: DispatchType) -> spec_fn(Registration) -> bool {
    |call: Registration| call matches Registration::Subscriber(named, _) && named == category
}

/// After any sequence of registrations, the dispatcher holds as many producers as
/// producers were registered.
pub proof fn broadcaster_count_is_number_of_registrations(calls: Seq<Registration>)
    ensures
        registered(calls).broadcasters.len() == calls.filter(names_broadcaster()).len(),
    decreases calls.len(),
{
    reveal(Seq::filter);
    if calls.len() > 0 {
        broadcaster_count_is_number_of_registrations(calls.drop_last());
    }
}

/// After any sequence of registrations, the dispatcher holds for each category as many
/// consumers as consumers were registered for that category.
pub proof fn subscriber_count_is_number_of_registrations(
    calls: Seq<Registration>,
    category: DispatchType,
)
    ensures
        registered(calls).subscribers[category].len() == calls.filter(
            names_subscriber_of(category),
        ).len(),
    decreases calls.len(),
{
    reveal(Seq::filter);
    if calls.len() > 0 {
        subscriber_count_is_number_of_registrations(calls.drop_last(), category);
    }
}

/// A category for which no consumer was registered has no consumers.
pub proof fn untouched_category_has_no_subscribers(
    calls: Seq<Registration>,
    category: DispatchType,
)
    requires
        forall|i: int| 0 <= i < calls.len() ==> !names_subscriber_of(category)(#[trigger] calls[i]),
    ensures
        registered(calls).subscribers[category].len() == 0,
    decreases calls.len(),
{
    if calls.len() > 0 {
        assert forall|i: int| 0 <= i < calls.drop_last().len() implies !names_subscriber_of(
            category,
        )(#[trigger] calls.drop_last()[i]) by {
            assert(calls.drop_last()[i] == calls[i]);
        }
        untouched_category_has_no_subscribers(calls.drop_last(), category);
        assert(!names_subscriber_of(category)(calls[calls.len() - 1]));
    }
}

} // verus!
