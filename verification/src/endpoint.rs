//! The two ends of the queues that the bus works with, as the standard library provides
//! them, and the calls that the bus makes on them.
//!
//! A consumer owns the receiving side of its queue and gives the bus the sending side,
//! an [`Endpoint`]. A producer keeps the sending side of its queue and gives the bus the
//! receiving side, which the bus keeps behind a mutex in a [`ProducerHandle`].
//!
//! The mutex never leaves this module. It is locked in one place, `ProducerHandle::wait`,
//! and released before `wait` returns, so no caller can hold it while a relay asks for
//! it.

use crate::dispatcher::DispatchMessage;
use std::sync::mpsc::{Receiver, SendError, Sender};
use std::sync::{Arc, Mutex, MutexGuard};
use vstd::prelude::*;

verus! {

/// `std::sync::mpsc::Sender`, carried through without looking inside.
#[verifier::external_type_specification]
#[verifier::external_body]
#[verifier::reject_recursive_types(T)]
pub struct ExSender<T>(Sender<T>);

/// `std::sync::mpsc::Receiver`, carried through without looking inside.
#[verifier::external_type_specification]
#[verifier::external_body]
#[verifier::reject_recursive_types(T)]
pub struct ExReceiver<T>(Receiver<T>);

/// `std::sync::Mutex`, carried through without looking inside.
#[verifier::external_type_specification]
#[verifier::external_body]
#[verifier::reject_recursive_types(T)]
pub struct ExMutex<T: ?Sized>(Mutex<T>);

/// `std::sync::MutexGuard`, carried through without looking inside.
#[verifier::external_type_specification]
#[verifier::external_body]
#[verifier::reject_recursive_types(T)]
pub struct ExMutexGuard<'a, T: ?Sized + 'a>(MutexGuard<'a, T>);

/// The sending side of one consumer's queue.
pub type Endpoint = Sender<DispatchMessage>;

/// The receiving side of one producer's queue behind its mutex, as the bus shares it.
type SharedQueue = Arc<Mutex<Receiver<DispatchMessage>>>;

/// The receiving side of one producer's queue, shared between the dispatcher and the
/// relays that read it. It is made from the queue's receiving side and from nothing
/// else; what is inside cannot be reached from outside.
pub struct ProducerHandle {
    queue: SharedQueue,
    made_from: Ghost<Receiver<DispatchMessage>>,
}

/// `std::sync::Mutex::new`: a new, unlocked mutex around `value`. Nothing is claimed of
/// the mutex.
pub assume_specification<T>[ Mutex::<T>::new ](value: T) -> (mutex: Mutex<T>)
;

/// `Arc::clone` on a shared queue: another pointer to the same mutex and queue. The
/// claim is that the copy equals the original, as two `Arc`s are equal when they point
/// to the same value.
#[verifier::external_body]
fn share(queue: &SharedQueue) -> (shared: SharedQueue)
    ensures
        shared == *queue,
{
    Arc::clone(queue)
}

/// `std::sync::mpsc::Sender::send`: puts `message` on the consumer's queue and never
/// blocks. It fails only when the receiving side has been dropped, and then hands the
/// message back; that the message handed back is the one given is the whole claim.
/// `Ok` does not promise that the consumer will read the message.
#[verifier::external_body]
pub(crate) fn send(endpoint: &Endpoint, message: DispatchMessage) -> (outcome: Result<
    (),
    DispatchMessage,
>)
    ensures
        outcome matches Err(returned) ==> returned == message,
{
    match endpoint.send(message) {
        Ok(()) => Ok(()),
        Err(SendError(returned)) => Err(returned),
    }
}

/// `std::sync::Mutex::lock`: waits until the mutex is free and takes it. `lock` does not
/// return where the calling thread holds the mutex already; that cannot happen here,
/// as `ProducerHandle::wait` alone calls this and holds no guard when it does. Where a
/// holder panicked, `lock` answers with a `PoisonError`, and the guard is taken out of
/// it with `PoisonError::into_inner`: the library's policy is to go on reading, since a
/// queue is whole whatever became of the thread that last read it. Nothing is claimed
/// of the guard.
#[verifier::external_body]
fn lock<'a>(queue: &'a Mutex<Receiver<DispatchMessage>>) -> (guard: MutexGuard<
    'a,
    Receiver<DispatchMessage>,
>)
{
    match queue.lock() {
        Ok(guard) => guard,
        Err(poisoned) => poisoned.into_inner(),
    }
}

/// `std::sync::mpsc::Receiver::recv`: waits for the producer's next envelope. `None`
/// stands for the error that `recv` returns once every sending side is gone and the
/// queue is empty. Which of the two comes back depends on the producer, so nothing is
/// claimed of the result.
#[verifier::external_body]
fn receive(source: &MutexGuard<'_, Receiver<DispatchMessage>>) -> (next: Option<
    DispatchMessage,
>)
{
    source.recv().ok()
}

impl ProducerHandle {
    /// The receiving side that this handle was made from: it says whose queue the
    /// handle reads.
    pub closed spec fn receiver(&self) -> Receiver<DispatchMessage> {
        self.made_from@
    }

    /// The handle of the queue whose receiving side is `queue`.
    pub fn new(queue: Receiver<DispatchMessage>) -> (handle: ProducerHandle)
        ensures
            handle.receiver() == queue,
    {
        let made_from = Ghost(queue);
        ProducerHandle { queue: Arc::new(Mutex::new(queue)), made_from }
    }

    /// Another handle of the same queue: an envelope reaches whichever of the two waits
    /// for it first.
    pub fn share(&self) -> (shared: ProducerHandle)
        ensures
            shared == *self,
    {
        ProducerHandle { queue: share(&self.queue), made_from: self.made_from }
    }

    /// Waits for the producer's next envelope; `None` says that the producer is gone
    /// and nothing is left in the queue. The queue is locked while waiting and free
    /// again on return. What comes back is up to the producer.
    pub(crate) fn wait(&self) -> (next: Option<DispatchMessage>) {
        let queue = lock(&self.queue);
        receive(&queue)
    }
}

} // verus!
