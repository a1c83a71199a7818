//! An in-process, thread-safe, multi-producer multi-consumer channel: an
//! unbounded first-in-first-out queue that decouples producing threads from
//! consuming threads.
//!
//! [`channel`] yields one [`Sender`] and one [`Recevier`], both cloneable and
//! all sharing one lock-guarded state. Senders enqueue; receivers dequeue in
//! global send order, competing when there are several; a receive on an empty
//! channel waits while a sender is still alive and reports end-of-channel
//! once none is. The laws of the channel — first-in-first-out order,
//! exactly-once delivery, and permanence of closure — are stated and proved
//! in [`model`] over the ghost histories that [`inner`] maintains under the
//! lock.
//!
//! The lock is vstd's verified reader-writer lock, and vstd offers no
//! condition variable to park on, so a receiver that finds the channel open
//! and empty waits by re-acquiring the lock and inspecting the state again
//! until an item or closure arrives.

use vstd::prelude::*;

pub mod inner;
pub mod model;

use std::sync::Arc;
use vstd::rwlock::RwLock;

use crate::inner::ChanPred;
use crate::inner::Inner;
use crate::model::RecvStep;

verus! {

/// The allocation all endpoint handles share: the guarded channel state. It
/// is freed when the last handle of either kind is released.
struct Shared<T> {
    lock: RwLock<Inner<T>, ChanPred>,
}

/// Relies on `Arc::clone`: the returned handle refers to the same allocation
/// as the argument, so the value it dereferences to is the argument's.
#[verifier::external_body]
fn clone_arc<T>(a: &Arc<T>) -> (r: Arc<T>)
    ensures
        r == *a,
{
    Arc::clone(a)
}

/// The sending endpoint of a channel. Cloning it adds a producer; releasing
/// the last clone closes the channel for reading once the queue drains.
pub struct Sender<T> {
    shared: Arc<Shared<T>>,
}

/// The receiving endpoint of a channel. Cloning it adds a consumer that
/// competes with the others for the queued items.
pub struct Recevier<T> {
    shared: Arc<Shared<T>>,
}

impl<T> Sender<T> {
    /// True of two sender handles bound to the same shared state.
    pub closed spec fn same_channel(self, other: Sender<T>) -> bool {
        self.shared == other.shared
    }

    /// True of a sender and a receiver bound to the same shared state.
    pub closed spec fn feeds(self, r: Recevier<T>) -> bool {
        self.shared == r.shared
    }

    /// Appends the item to the tail of the queue. Never fails and never
    /// blocks, whether or not any receiver handle still exists: the item is
    /// queued behind everything sent before it, as [`inner::Inner::enqueue`]
    /// ensures, and waits there for a competing receiver to take it.
    pub fn send(&mut self, t: T)
        ensures
            *final(self) == *old(self),
    {
        let (mut inner, handle) = self.shared.lock.acquire_write();
        inner.enqueue(t);
        handle.release_write(inner);
    }

    /// Decrements the live-sender count under the lock; the verified release
    /// step for one sender handle.
    fn release(&self) {
        let (mut inner, handle) = self.shared.lock.acquire_write();
        inner.remove_sender();
        handle.release_write(inner);
    }
}

impl<T> Clone for Sender<T> {
    /// Registers one more producer under the lock, then hands out a handle
    /// bound to the same shared state.
    fn clone(&self) -> (r: Self)
        ensures
            r.same_channel(*self),
    {
        let (mut inner, handle) = self.shared.lock.acquire_write();
        inner.add_sender();
        handle.release_write(inner);
        Sender { shared: clone_arc(&self.shared) }
    }
}

impl<T> Drop for Sender<T> {
    /// Verus holds `drop` to `opens_invariants none`, which taking the lock
    /// inside [`Sender::release`] cannot meet, so the forwarding call is
    /// not checked; everything it performs is the verified release step.
    #[verifier::external_body]
    fn drop(&mut self)
        opens_invariants none
        no_unwind
    {
        self.release();
    }
}

impl<T> Recevier<T> {
    /// True of two receiver handles bound to the same shared state.
    pub closed spec fn same_channel(self, other: Recevier<T>) -> bool {
        self.shared == other.shared
    }

    /// One inspection of the channel under the lock: takes the head item if
    /// one is queued, observes end-of-channel if no sender is left, and
    /// otherwise reports that the caller has to wait. All the receiving
    /// logic is here; [`Recevier::recv`] only repeats it.
    fn poll(&self) -> (r: Option<Option<T>>) {
        let (mut inner, handle) = self.shared.lock.acquire_write();
        let step = inner.next_step();
        handle.release_write(inner);
        match step {
            RecvStep::Item(t) => Some(Some(t)),
            RecvStep::Closed => Some(None),
            RecvStep::Wait => None,
        }
    }

    /// A receive may wait for a sender without bound, so this repetition can
    /// carry no termination measure and its four lines stand outside the
    /// checked code; every inspection it makes is the verified
    /// [`Recevier::poll`], which alone reads or changes the channel.
    #[verifier::external_body]
    fn poll_until_ready(&self) -> (r: Option<T>) {
        loop {
            if let Some(r) = self.poll() {
                return r;
            }
        }
    }

    /// Returns the next queued item in send order, `None` once the queue is
    /// drained and no sender handle remains, and otherwise waits for one of
    /// the two, re-inspecting the state under the lock and never returning
    /// empty-handed while a sender is alive. Which of several competing
    /// receivers obtains a given item is not specified; that each item goes
    /// to exactly one of them, in send order, is what
    /// [`inner::Inner::next_step`] ensures of every inspection.
    pub fn recv(&mut self) -> (r: Option<T>)
        ensures
            *final(self) == *old(self),
    {
        self.poll_until_ready()
    }
}

impl<T> Clone for Recevier<T> {
    /// Hands out a handle bound to the same shared state; receivers are not
    /// counted, since only sender liveness decides closure.
    fn clone(&self) -> (r: Self)
        ensures
            r.same_channel(*self),
    {
        Recevier { shared: clone_arc(&self.shared) }
    }
}

/// Binding to the same shared state carries over from a sender to its
/// clones: a clone of a sender feeds every receiver the original feeds.
pub proof fn lemma_clone_feeds<T>(s1: Sender<T>, s2: Sender<T>, r: Recevier<T>)
    requires
        s1.same_channel(s2),
        s1.feeds(r),
    ensures
        s2.feeds(r),
{
}

/// Binding to the same shared state carries over from a receiver to its
/// clones: a clone of a receiver is fed by every sender that feeds the
/// original.
pub proof fn lemma_feeds_clone<T>(s: Sender<T>, r1: Recevier<T>, r2: Recevier<T>)
    requires
        s.feeds(r1),
        r1.same_channel(r2),
    ensures
        s.feeds(r2),
{
}

/// Creates a channel: a freshly allocated shared state with an empty queue
/// and exactly one live sender, and the one sender and one receiver handle
/// bound to it.
pub fn channel<T>() -> (r: (Sender<T>, Recevier<T>))
    ensures
        r.0.feeds(r.1),
{
    let inner = Inner::new();
    let shared = Arc::new(Shared { lock: RwLock::new(inner, Ghost(ChanPred)) });
    let shared_rx = clone_arc(&shared);
    (Sender { shared }, Recevier { shared: shared_rx })
}

} // verus!
