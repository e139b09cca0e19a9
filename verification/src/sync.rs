//! Trusted boundary around the pieces of `std::sync` that the toolkit builds
//! on: a reader/writer lock shared through `Arc`, and the multi-producer
//! single-consumer queue that carries update notifications.

use vstd::prelude::*;

verus! {

#[verifier::external_type_specification]
#[verifier::external_body]
#[verifier::reject_recursive_types(T)]
pub struct ExRwLock<T: ?Sized>(std::sync::RwLock<T>);

#[verifier::external_type_specification]
#[verifier::external_body]
#[verifier::reject_recursive_types(T)]
pub struct ExSender<T>(std::sync::mpsc::Sender<T>);

#[verifier::external_type_specification]
#[verifier::external_body]
#[verifier::reject_recursive_types(T)]
pub struct ExReceiver<T>(std::sync::mpsc::Receiver<T>);

/// Relies on `std::sync::RwLock::new`: wraps the value in a fresh, unpoisoned
/// lock.
#[verifier::external_body]
fn rwlock_new<T>(value: T) -> std::sync::RwLock<T> {
    std::sync::RwLock::new(value)
}

/// Relies on `std::sync::RwLock::read`: blocks until no writer holds the lock,
/// then hands back a clone of the guarded value; fails exactly when the lock is
/// poisoned (a previous holder panicked while holding it).
#[verifier::external_body]
fn rwlock_read_clone<T: Clone>(lock: &std::sync::RwLock<T>) -> Result<T, ()> {
    match lock.read() {
        Ok(guard) => Ok(guard.clone()),
        Err(_) => Err(()),
    }
}

/// Relies on `std::sync::RwLock::write`: blocks until the lock is free, then
/// replaces the guarded value with `f` applied to it; fails exactly when the
/// lock is poisoned. The caller's mutator runs while exclusive access is held
/// and a panicking mutator would poison the lock, so the precondition demands
/// that `f`'s own precondition hold of every value: what the lock guards at
/// that moment cannot be known.
#[verifier::external_body]
fn rwlock_modify<T, F: Fn(&T) -> T>(lock: &std::sync::RwLock<T>, f: F) -> Result<(), ()>
    requires
        forall|v: T| f.requires((&v,)),
{
    match lock.write() {
        Ok(mut guard) => {
            let next = f(&guard);
            *guard = next;
            Ok(())
        }
        Err(_) => Err(()),
    }
}

/// Relies on `std::sync::Arc::clone`: hands back a second handle to the same
/// allocation, so both handles guard the same value.
#[verifier::external_body]
fn arc_share<T>(arc: &std::sync::Arc<std::sync::RwLock<T>>) -> (r: std::sync::Arc<
    std::sync::RwLock<T>,
>)
    ensures
        r == *arc,
{
    std::sync::Arc::clone(arc)
}

/// A value owned by a reader/writer lock and shared between threads: many
/// concurrent readers, one exclusive writer. What the cell currently holds
/// depends on every thread that owns a handle to it, so no contract here can
/// name the stored value; callers state what holds of every outcome instead.
#[verifier::reject_recursive_types(T)]
pub struct SharedCell<T> {
    lock: std::sync::Arc<std::sync::RwLock<T>>,
}

impl<T> SharedCell<T> {
    /// Wraps `value` in a fresh lock with no other handles.
    pub fn new(value: T) -> Self {
        SharedCell { lock: std::sync::Arc::new(rwlock_new(value)) }
    }

    /// A second handle to the same cell.
    pub fn share(&self) -> (r: Self)
        ensures
            r == *self,
    {
        SharedCell { lock: arc_share(&self.lock) }
    }

    /// A snapshot of the current value, or `Err` when the lock is poisoned.
    pub fn snapshot(&self) -> Result<T, ()> where T: Clone {
        rwlock_read_clone(&self.lock)
    }

    /// Replaces the value with `f` applied to it, or `Err` when the lock is
    /// poisoned. The mutator must accept every value, since what the cell
    /// holds when the lock is acquired cannot be known.
    pub fn modify<F: Fn(&T) -> T>(&self, f: F) -> Result<(), ()>
        requires
            forall|v: T| f.requires((&v,)),
    {
        rwlock_modify(&self.lock, f)
    }
}

/// Relies on `std::sync::mpsc::channel`: connected sending and receiving
/// halves of an unbounded first-in first-out queue.
#[verifier::external_body]
pub(crate) fn channel_pair<T>() -> (std::sync::mpsc::Sender<T>, std::sync::mpsc::Receiver<T>) {
    std::sync::mpsc::channel()
}

/// Relies on `std::sync::mpsc::Sender::send`: enqueues the message without
/// blocking; fails exactly when the receiving half has been dropped, in which
/// case the message is lost.
#[verifier::external_body]
pub(crate) fn channel_send<T>(sender: &std::sync::mpsc::Sender<T>, message: T) -> Result<(), ()> {
    match sender.send(message) {
        Ok(()) => Ok(()),
        Err(_) => Err(()),
    }
}

/// Relies on `std::sync::mpsc::Sender::clone`: a second sending half of the
/// same queue.
#[verifier::external_body]
pub(crate) fn channel_sender_share<T>(sender: &std::sync::mpsc::Sender<T>) -> (r: std::sync::mpsc::Sender<
    T,
>)
    ensures
        r == *sender,
{
    sender.clone()
}

/// Relies on `std::sync::mpsc::Receiver::recv`: blocks until a message is
/// available and dequeues it; fails exactly when the queue is empty and every
/// sending half has been dropped.
#[verifier::external_body]
pub(crate) fn channel_recv<T>(receiver: &std::sync::mpsc::Receiver<T>) -> Result<T, ()> {
    match receiver.recv() {
        Ok(message) => Ok(message),
        Err(_) => Err(()),
    }
}

/// Relies on `std::sync::mpsc::Receiver::try_recv`: dequeues a message if one
/// is waiting, without blocking; fails when the queue is currently empty or
/// disconnected.
#[verifier::external_body]
pub(crate) fn channel_try_recv<T>(receiver: &std::sync::mpsc::Receiver<T>) -> Result<T, ()> {
    match receiver.try_recv() {
        Ok(message) => Ok(message),
        Err(_) => Err(()),
    }
}

} // verus!
