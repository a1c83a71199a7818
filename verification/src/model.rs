//! Ghost model of a channel: the queue of undelivered items, the count of
//! live sender handles, and the full histories of items sent and items
//! delivered. The exec operations relate their effect to this model, and the
//! channel's laws are proved over it.

use vstd::prelude::*;

verus! {

/// Abstract state of one channel.
///
/// `queue` and `senders` mirror the data guarded by the channel's lock;
/// `sent` and `taken` are histories that exist only in ghost code: `sent`
/// lists every item ever enqueued, in the order the lock admitted the sends,
/// and `taken` lists every item ever handed to a receive call, in the order
/// the lock admitted the removals.
pub struct ChanState<T> {
    pub queue: Seq<T>,
    pub senders: nat,
    pub sent: Seq<T>,
    pub taken: Seq<T>,
}

/// Outcome of one locked inspection of the channel by a receiver: an item,
/// end-of-channel, or the need to wait for a sender.
pub enum RecvStep<T> {
    Item(T),
    Closed,
    Wait,
}

impl<T> ChanState<T> {
    /// The channel's invariant: what was sent is exactly what was delivered
    /// followed by what is still queued. Every operation below preserves it.
    pub open spec fn wf(self) -> bool {
        self.sent == self.taken + self.queue
    }

    /// Closed for reading: nothing queued and no sender handle left.
    pub open spec fn is_closed(self) -> bool {
        self.senders == 0 && self.queue.len() == 0
    }

    /// Effect of a send: the item goes to the queue's tail and into the
    /// history of sent items.
    pub open spec fn after_send(self, t: T) -> ChanState<T> {
        ChanState { queue: self.queue.push(t), sent: self.sent.push(t), ..self }
    }

    /// Effect of cloning a sender handle.
    pub open spec fn after_clone_sender(self) -> ChanState<T> {
        ChanState { senders: self.senders + 1, ..self }
    }

    /// Effect of releasing a sender handle.
    pub open spec fn after_release_sender(self) -> ChanState<T> {
        ChanState { senders: (self.senders - 1) as nat, ..self }
    }

    /// Effect of a receive that finds the queue non-empty: the head item
    /// leaves the queue and enters the history of delivered items.
    pub open spec fn after_take(self) -> ChanState<T> {
        ChanState {
            queue: self.queue.drop_first(),
            taken: self.taken.push(self.queue[0]),
            ..self
        }
    }
}

/// What a receive call does with the channel in state `s`, the moment it
/// holds the lock: return the head item, report end-of-channel, or wait.
pub open spec fn recv_decision<T>(s: ChanState<T>) -> RecvStep<T> {
    if s.queue.len() > 0 {
        RecvStep::Item(s.queue[0])
    } else if s.senders == 0 {
        RecvStep::Closed
    } else {
        RecvStep::Wait
    }
}

/// One transition of the channel, as performed by some live handle while it
/// holds the lock. A send or a sender clone or release is only ever performed
/// through a live sender handle, and live sender handles are counted in
/// `senders`, so those transitions presuppose `senders >= 1`; a take
/// presupposes a queued item; a receive that finds nothing to do leaves the
/// state unchanged.
pub open spec fn chan_step<T>(pre: ChanState<T>, post: ChanState<T>) -> bool {
    ||| (pre.senders >= 1 && exists|t: T| post == pre.after_send(t))
    ||| (pre.senders >= 1 && post == pre.after_clone_sender())
    ||| (pre.senders >= 1 && post == pre.after_release_sender())
    ||| (pre.queue.len() > 0 && post == pre.after_take())
    ||| post == pre
}

/// Every transition preserves the channel invariant.
pub proof fn lemma_step_preserves_wf<T>(pre: ChanState<T>, post: ChanState<T>)
    requires
        pre.wf(),
        chan_step(pre, post),
    ensures
        post.wf(),
{
    if pre.senders >= 1 && exists|t: T| post == pre.after_send(t) {
        let t = choose|t: T| post == pre.after_send(t);
        assert(pre.taken + pre.queue.push(t) =~= (pre.taken + pre.queue).push(t));
    } else if pre.queue.len() > 0 && post == pre.after_take() {
        assert(pre.taken.push(pre.queue[0]) + pre.queue.drop_first() =~= pre.taken + pre.queue);
    }
}

/// FIFO delivery: in every reachable state, the items delivered so far are
/// exactly the first `taken.len()` items sent, in send order — the k-th
/// delivered item is the k-th sent item, whichever receiver took it.
pub proof fn lemma_fifo<T>(s: ChanState<T>)
    requires
        s.wf(),
    ensures
        s.taken.len() <= s.sent.len(),
        s.taken == s.sent.take(s.taken.len() as int),
        forall|k: int| 0 <= k < s.taken.len() ==> s.taken[k] == s.sent[k],
{
    assert(s.taken =~= s.sent.take(s.taken.len() as int));
}

/// Exactly-once delivery: every sent item is accounted for exactly once —
/// the first `taken.len()` sent items have each been returned by exactly one
/// receive (the k-th sent item by the k-th successful receive), and the rest
/// are all still queued, in order.
pub proof fn lemma_exactly_once<T>(s: ChanState<T>)
    requires
        s.wf(),
    ensures
        s.sent.len() == s.taken.len() + s.queue.len(),
        forall|k: int| 0 <= k < s.taken.len() ==> s.sent[k] == s.taken[k],
        forall|k: int| s.taken.len() <= k < s.sent.len()
            ==> s.sent[k] == s.queue[k - s.taken.len()],
{
}

/// Histories only grow: no transition ever removes or reorders anything in
/// the sent or the delivered history. In particular, once an item has been
/// returned by a receive, it keeps its place in `taken` forever — it cannot
/// be returned again, and a later state cannot disown the delivery.
pub proof fn lemma_history_monotone<T>(pre: ChanState<T>, post: ChanState<T>)
    requires
        chan_step(pre, post),
    ensures
        pre.taken.is_prefix_of(post.taken),
        pre.sent.is_prefix_of(post.sent),
{
    assert(pre.taken =~= pre.taken.take(pre.taken.len() as int));
    assert(pre.sent =~= pre.sent.take(pre.sent.len() as int));
    if pre.queue.len() > 0 && post == pre.after_take() {
        assert(pre.taken =~= pre.taken.push(pre.queue[0]).take(pre.taken.len() as int));
    }
    if pre.senders >= 1 && exists|t: T| post == pre.after_send(t) {
        let t = choose|t: T| post == pre.after_send(t);
        assert(pre.sent =~= pre.sent.push(t).take(pre.sent.len() as int));
    }
}

/// Along any run of the channel, a delivered history stays a prefix of every
/// later one: what the receivers were handed by step `i` is still recorded,
/// unchanged and in place, at every later step `j`.
pub proof fn lemma_no_redelivery<T>(states: Seq<ChanState<T>>, i: int, j: int)
    requires
        0 <= i <= j < states.len(),
        forall|k: int| 0 <= k < states.len() - 1 ==> #[trigger] chan_step(states[k], states[k + 1]),
    ensures
        states[i].taken.is_prefix_of(states[j].taken),
    decreases j - i,
{
    if i < j {
        lemma_no_redelivery(states, i, j - 1);
        assert(chan_step(states[j - 1], states[(j - 1) + 1]));
        lemma_history_monotone(states[j - 1], states[j]);
        assert(states[i].taken =~= states[j].taken.take(states[i].taken.len() as int));
    } else {
        assert(states[i].taken =~= states[j].taken.take(states[i].taken.len() as int));
    }
}

/// The invariant holds along any run that starts well-formed, so first-in
/// first-out, exactly-once delivery and the other consequences of
/// well-formedness hold in every state the channel ever reaches.
pub proof fn lemma_wf_forever<T>(states: Seq<ChanState<T>>)
    requires
        states.len() > 0,
        states[0].wf(),
        forall|k: int| 0 <= k < states.len() - 1 ==> #[trigger] chan_step(states[k], states[k + 1]),
    ensures
        forall|k: int| 0 <= k < states.len() ==> (#[trigger] states[k]).wf(),
{
    assert forall|k: int| 0 <= k < states.len() implies (#[trigger] states[k]).wf() by {
        lemma_wf_prefix(states, k);
    }
}

proof fn lemma_wf_prefix<T>(states: Seq<ChanState<T>>, k: int)
    requires
        0 <= k < states.len(),
        states[0].wf(),
        forall|j: int| 0 <= j < states.len() - 1 ==> #[trigger] chan_step(states[j], states[j + 1]),
    ensures
        states[k].wf(),
    decreases k,
{
    if k > 0 {
        lemma_wf_prefix(states, k - 1);
        assert(chan_step(states[k - 1], states[(k - 1) + 1]));
        lemma_step_preserves_wf(states[k - 1], states[k]);
    }
}

/// One step out of a closed channel leaves it closed: with no live sender,
/// no send, clone or release is possible, and with an empty queue no take is
/// possible, so the state can only stay as it is.
pub proof fn lemma_closed_step<T>(pre: ChanState<T>, post: ChanState<T>)
    requires
        pre.is_closed(),
        chan_step(pre, post),
    ensures
        post.is_closed(),
{
}

/// Closure is permanent: once a channel is closed, it is closed in every
/// later state, and every receive in every later state reports
/// end-of-channel — closure never reverts.
pub proof fn lemma_closed_forever<T>(states: Seq<ChanState<T>>)
    requires
        states.len() > 0,
        states[0].is_closed(),
        forall|k: int| 0 <= k < states.len() - 1 ==> #[trigger] chan_step(states[k], states[k + 1]),
    ensures
        forall|k: int| 0 <= k < states.len() ==> states[k].is_closed(),
        forall|k: int| 0 <= k < states.len()
            ==> recv_decision(states[k]) == RecvStep::<T>::Closed,
{
    assert forall|k: int| 0 <= k < states.len() implies states[k].is_closed() by {
        lemma_closed_prefix(states, k);
    }
}

proof fn lemma_closed_prefix<T>(states: Seq<ChanState<T>>, k: int)
    requires
        0 <= k < states.len(),
        states[0].is_closed(),
        forall|j: int| 0 <= j < states.len() - 1 ==> #[trigger] chan_step(states[j], states[j + 1]),
    ensures
        states[k].is_closed(),
    decreases k,
{
    if k > 0 {
        lemma_closed_prefix(states, k - 1);
        assert(chan_step(states[k - 1], states[(k - 1) + 1]));
        lemma_closed_step(states[k - 1], states[k]);
    }
}

} // verus!

