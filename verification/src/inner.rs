//! The state guarded by the channel's lock, and the verified operations the
//! endpoint handles perform on it while they hold the lock.

use vstd::prelude::*;

use std::collections::VecDeque;
use vstd::rwlock::RwLockPredicate;

use crate::model::ChanState;
use crate::model::RecvStep;
use crate::model::chan_step;
use crate::model::recv_decision;

verus! {

/// The data the channel's lock guards: the queue of undelivered items and
/// the count of live sender handles — consistent only as a pair, since the
/// closed-for-reading determination reads both. The two `Ghost` fields carry
/// the histories that the model states the channel's laws over.
pub struct Inner<T> {
    queue: VecDeque<T>,
    senders: usize,
    sent: Ghost<Seq<T>>,
    taken: Ghost<Seq<T>>,
}

impl<T> View for Inner<T> {
    type V = ChanState<T>;

    closed spec fn view(&self) -> ChanState<T> {
        ChanState {
            queue: self.queue@,
            senders: self.senders as nat,
            sent: self.sent@,
            taken: self.taken@,
        }
    }
}

/// The invariant the channel's lock maintains: the guarded state satisfies
/// the model's well-formedness condition whenever the lock is free.
pub struct ChanPred;

impl<T> RwLockPredicate<Inner<T>> for ChanPred {
    open spec fn inv(self, v: Inner<T>) -> bool {
        v@.wf()
    }
}

impl<T> Inner<T> {
    /// Fresh channel state: empty queue, one live sender, empty histories.
    pub fn new() -> (r: Inner<T>)
        ensures
            r@.wf(),
            r@.queue.len() == 0,
            r@.senders == 1,
            r@.sent.len() == 0,
            r@.taken.len() == 0,
    {
        let r = Inner {
            queue: VecDeque::new(),
            senders: 1,
            sent: Ghost(Seq::empty()),
            taken: Ghost(Seq::empty()),
        };
        proof {
            assert(r@.taken + r@.queue =~= r@.sent);
        }
        r
    }

    /// A send while the lock is held: the item goes to the tail of the
    /// queue, behind everything sent before it; nothing else changes.
    pub fn enqueue(&mut self, t: T)
        requires
            old(self)@.wf(),
        ensures
            final(self)@ == old(self)@.after_send(t),
            final(self)@.wf(),
            old(self)@.senders >= 1 ==> chan_step(old(self)@, final(self)@),
    {
        self.queue.push_back(t);
        proof {
            self.sent@ = self.sent@.push(t);
            assert(self@.taken + self@.queue =~= self@.sent);
            assert(self@ == old(self)@.after_send(t));
        }
    }

    /// A receive's inspection while the lock is held: take the head item if
    /// there is one; otherwise report end-of-channel when no sender is left,
    /// or that the caller has to wait. Exactly the returned item moves from
    /// the queue to the delivered history; in the other two cases the state
    /// is untouched.
    pub fn next_step(&mut self) -> (r: RecvStep<T>)
        requires
            old(self)@.wf(),
        ensures
            final(self)@.wf(),
            r == recv_decision(old(self)@),
            old(self)@.queue.len() > 0 ==> final(self)@ == old(self)@.after_take(),
            old(self)@.queue.len() == 0 ==> final(self)@ == old(self)@,
            chan_step(old(self)@, final(self)@),
    {
        match self.queue.pop_front() {
            Some(t) => {
                proof {
                    self.taken@ = self.taken@.push(t);
                    assert(self@ == old(self)@.after_take());
                    assert(self@.taken + self@.queue =~= self@.sent);
                }
                RecvStep::Item(t)
            },
            None => {
                if self.senders == 0 {
                    RecvStep::Closed
                } else {
                    RecvStep::Wait
                }
            },
        }
    }

    /// Bookkeeping for a new sender handle. A live handle performs the
    /// clone, so `senders >= 1` holds when this runs; the guard against the
    /// count's machine limit only keeps the operation free of overflow.
    pub fn add_sender(&mut self)
        requires
            old(self)@.wf(),
        ensures
            final(self)@.wf(),
            old(self)@.senders < usize::MAX ==> final(self)@ == old(self)@.after_clone_sender(),
            old(self)@.senders == usize::MAX ==> final(self)@ == old(self)@,
            old(self)@.senders >= 1 ==> chan_step(old(self)@, final(self)@),
    {
        if self.senders < usize::MAX {
            self.senders = self.senders + 1;
        }
    }

    /// Bookkeeping for a released sender handle. A live handle is being
    /// released, so `senders >= 1` holds when this runs; the guard against
    /// zero only keeps the operation free of underflow.
    pub fn remove_sender(&mut self)
        requires
            old(self)@.wf(),
        ensures
            final(self)@.wf(),
            old(self)@.senders >= 1 ==> final(self)@ == old(self)@.after_release_sender(),
            old(self)@.senders == 0 ==> final(self)@ == old(self)@,
            old(self)@.senders >= 1 ==> chan_step(old(self)@, final(self)@),
    {
        if self.senders > 0 {
            self.senders = self.senders - 1;
        }
    }
}

} // verus!
