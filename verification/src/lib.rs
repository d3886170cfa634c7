//! An in-process event bus for a chat client.
//!
//! Producers hand typed envelopes to the bus; the bus copies each envelope to every
//! consumer that registered for the envelope's category. Registration happens on a
//! [`dispatcher::Dispatcher`]; delivery is done by one [`relay::Relay`] per producer,
//! each working on its own snapshot of the [`registry::SubscriptionRegistry`].

pub mod channel;
pub mod current_state;
pub mod dispatcher;
pub mod endpoint;
pub mod message;
pub mod registry;
pub mod relay;
pub mod user;
pub mod view_data;
