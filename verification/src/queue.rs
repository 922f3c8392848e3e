//! The bounded multi-producer/single-consumer request queue.
//!
//! Callers enqueue messages at the back; the one worker dequeues from the
//! front, so delivery is strictly first-enqueued-first-serviced. The
//! capacity bound produces backpressure: an enqueue on a full queue does
//! nothing and reports so, and the embedding program blocks the caller and
//! retries. Sender handles are counted so that the worker can tell an idle
//! queue (a handle may still send) from a disconnected one (no handle left,
//! nothing will ever arrive again). The inter-thread locking of the real
//! queue is the embedding program's; these transitions are what it protects.

use vstd::prelude::*;

verus! {

/// What an enqueue attempt did. The unconsumed message is handed back on
/// failure so the caller can retry or give up without losing it.
pub enum SendAttempt<M> {
    /// The message was enqueued at the back.
    Sent,
    /// The queue was at capacity; nothing changed. The caller should block
    /// until the worker has dequeued, then retry: this is the backpressure.
    Full(M),
    /// The receiving side is gone; nothing can ever be delivered.
    Disconnected(M),
}

/// What a dequeue attempt found.
pub enum RecvAttempt<M> {
    /// The oldest queued message.
    Received(M),
    /// Nothing queued, but a sender handle still exists: the worker should
    /// block (or time out) and try again.
    WouldBlock,
    /// Nothing queued and no sender handle left: the terminal signal.
    Disconnected,
}

/// A bounded FIFO queue with sender-handle accounting.
pub struct BoundedQueue<M> {
    buf: Vec<M>,
    cap: usize,
    senders: usize,
    receiver_live: bool,
}

impl<M> View for BoundedQueue<M> {
    type V = Seq<M>;

    /// The queued messages, oldest first.
    closed spec fn view(&self) -> Seq<M> {
        self.buf@
    }
}

impl<M> BoundedQueue<M> {
    /// The capacity the queue was created with.
    pub closed spec fn capacity(self) -> nat {
        self.cap as nat
    }

    /// How many sender handles currently exist.
    pub closed spec fn sender_count(self) -> nat {
        self.senders as nat
    }

    /// Whether the receiving side still exists.
    pub closed spec fn receiver_live(self) -> bool {
        self.receiver_live
    }

    /// No handle referencing the queue remains, so no message can ever be
    /// enqueued again.
    pub open spec fn disconnected(self) -> bool {
        self.sender_count() == 0
    }

    pub open spec fn wf(self) -> bool {
        1 <= self.capacity() && self@.len() <= self.capacity()
    }

    /// What an enqueue of `m` would report in the current state.
    pub open spec fn send_outcome(self, m: M) -> SendAttempt<M> {
        if !self.receiver_live() {
            SendAttempt::Disconnected(m)
        } else if self@.len() >= self.capacity() {
            SendAttempt::Full(m)
        } else {
            SendAttempt::Sent
        }
    }

    /// What a dequeue would report in the current state.
    pub open spec fn recv_outcome(self) -> RecvAttempt<M> {
        if self@.len() > 0 {
            RecvAttempt::Received(self@[0])
        } else if self.disconnected() {
            RecvAttempt::Disconnected
        } else {
            RecvAttempt::WouldBlock
        }
    }

    /// A fresh queue of capacity `cap` with one sender handle and a live
    /// receiver.
    pub fn new(cap: usize) -> (q: Self)
        requires
            cap >= 1,
        ensures
            q.wf(),
            q@ =~= Seq::<M>::empty(),
            q.capacity() == cap,
            q.sender_count() == 1,
            q.receiver_live(),
    {
        BoundedQueue { buf: Vec::new(), cap, senders: 1, receiver_live: true }
    }

    /// Attempts to enqueue `m` at the back.
    pub fn try_send(&mut self, m: M) -> (r: SendAttempt<M>)
        requires
            old(self).wf(),
            old(self).sender_count() > 0,
        ensures
            final(self).wf(),
            r == old(self).send_outcome(m),
            (r is Sent) ==> final(self)@ == old(self)@.push(m),
            !(r is Sent) ==> final(self)@ == old(self)@,
            final(self).capacity() == old(self).capacity(),
            final(self).sender_count() == old(self).sender_count(),
            final(self).receiver_live() == old(self).receiver_live(),
    {
        if !self.receiver_live {
            SendAttempt::Disconnected(m)
        } else if self.buf.len() >= self.cap {
            SendAttempt::Full(m)
        } else {
            self.buf.push(m);
            SendAttempt::Sent
        }
    }

    /// Attempts to dequeue the oldest message.
    pub fn try_recv(&mut self) -> (r: RecvAttempt<M>)
        requires
            old(self).wf(),
            old(self).receiver_live(),
        ensures
            final(self).wf(),
            r == old(self).recv_outcome(),
            old(self)@.len() > 0 ==> final(self)@ == old(self)@.drop_first(),
            old(self)@.len() == 0 ==> final(self)@ == old(self)@,
            final(self).capacity() == old(self).capacity(),
            final(self).sender_count() == old(self).sender_count(),
            final(self).receiver_live() == old(self).receiver_live(),
    {
        if self.buf.len() > 0 {
            let m = self.buf.remove(0);
            proof {
                assert(self.buf@ =~= old(self).buf@.drop_first());
            }
            RecvAttempt::Received(m)
        } else if self.senders == 0 {
            RecvAttempt::Disconnected
        } else {
            RecvAttempt::WouldBlock
        }
    }

    /// Registers one more sender handle: a handle was cloned.
    pub fn add_sender(&mut self)
        requires
            old(self).wf(),
            old(self).sender_count() < usize::MAX,
        ensures
            final(self).wf(),
            final(self)@ == old(self)@,
            final(self).sender_count() == old(self).sender_count() + 1,
            final(self).capacity() == old(self).capacity(),
            final(self).receiver_live() == old(self).receiver_live(),
    {
        self.senders = self.senders + 1;
    }

    /// Unregisters one sender handle: a handle was dropped. When the last
    /// one goes, the queue becomes disconnected and the worker's next
    /// dequeue on an empty queue reports it.
    pub fn drop_sender(&mut self)
        requires
            old(self).wf(),
            old(self).sender_count() > 0,
        ensures
            final(self).wf(),
            final(self)@ == old(self)@,
            final(self).sender_count() == old(self).sender_count() - 1,
            final(self).capacity() == old(self).capacity(),
            final(self).receiver_live() == old(self).receiver_live(),
    {
        self.senders = self.senders - 1;
    }

    /// Marks the receiving side gone: the worker dropped its selector, so
    /// every later enqueue attempt reports disconnection instead of queuing
    /// a message nobody will answer.
    pub fn drop_receiver(&mut self)
        requires
            old(self).wf(),
        ensures
            final(self).wf(),
            final(self)@ == old(self)@,
            final(self).sender_count() == old(self).sender_count(),
            final(self).capacity() == old(self).capacity(),
            !final(self).receiver_live(),
    {
        self.receiver_live = false;
    }
}

/// The send history still to be delivered after `k` in-order deliveries
/// from a queue whose accumulated send history is `s`.
pub open spec fn after_deliveries<M>(s: Seq<M>, k: int) -> Seq<M> {
    s.subrange(k, s.len() as int)
}

/// First-in-first-out delivery: from a queue whose send history is `s`, the
/// `k`-th dequeue (counting from zero) yields exactly `s[k]`, and leaves the
/// history from `s[k + 1]` on still to be delivered — so messages reach the
/// worker in precisely the order they were enqueued.
pub proof fn lemma_fifo_delivery<M>(s: Seq<M>, k: int)
    requires
        0 <= k < s.len(),
    ensures
        after_deliveries(s, k).len() == s.len() - k,
        after_deliveries(s, k)[0] == s[k],
        after_deliveries(s, k).drop_first() == after_deliveries(s, k + 1),
{
    assert(after_deliveries(s, k).drop_first() =~= after_deliveries(s, k + 1));
}

/// Backpressure: an enqueue on a queue already holding `capacity` messages
/// changes nothing and reports `Full`, handing the message back — with
/// capacity one, a second concurrent send must wait until the worker has
/// dequeued the first.
pub proof fn lemma_backpressure<M>(q: BoundedQueue<M>, m: M)
    requires
        q.wf(),
        q.receiver_live(),
        q@.len() == q.capacity(),
    ensures
        q.send_outcome(m) == SendAttempt::Full(m),
{
}

/// Backpressure releases: once the worker has dequeued one message from a
/// full queue, the blocked caller's retry of the very send that was refused
/// goes through.
pub proof fn lemma_backpressure_releases<M>(q: BoundedQueue<M>, q2: BoundedQueue<M>, m: M)
    requires
        q.wf(),
        q.receiver_live(),
        q@.len() == q.capacity(),
        q2.wf(),
        q2.receiver_live(),
        q2.capacity() == q.capacity(),
        q2@.len() == q@.len() - 1,
    ensures
        q.send_outcome(m) == SendAttempt::Full(m),
        q2.send_outcome(m) == SendAttempt::<M>::Sent,
{
}

/// Disconnection termination: once every sender handle has been dropped and
/// the backlog is drained, a dequeue reports the terminal disconnection
/// signal rather than asking the worker to keep waiting.
pub proof fn lemma_disconnection_terminates<M>(q: BoundedQueue<M>)
    requires
        q.wf(),
        q.disconnected(),
        q@.len() == 0,
    ensures
        q.recv_outcome() == RecvAttempt::<M>::Disconnected,
{
}

} // verus!
