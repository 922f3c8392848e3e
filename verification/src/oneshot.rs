//! The scoped single-value handoff cell and its split capabilities.
//!
//! A `OneShot` cell is one storage slot plus a readiness flag. The protocol
//! is: the sender deposits at most one value and then publishes readiness
//! (or publishes readiness empty-handed when it is abandoned); the receiver
//! reads the slot only once readiness has been observed. Here the cell is a
//! verified state machine; the embedding program supplies the memory
//! sharing, the release/acquire publication of the flag and the park/unpark
//! (or lock/notify) wake-up, and calls these transitions under it.

use vstd::prelude::*;
use core::marker::PhantomData;

verus! {

/// Why a receive could not produce a value.
#[derive(Clone, Copy, Debug, PartialEq, Eq, Structural)]
pub enum RecvError {
    /// The sender was discarded without sending, so no value will ever come.
    Abandoned,
}

/// The handoff cell: an optional stored value and a readiness flag.
///
/// The slot is written at most once, before readiness is published, and is
/// read only after readiness is observed; `wf` captures the resulting
/// invariant that an unready cell is still empty.
pub struct OneShot<T> {
    is_set: bool,
    value: Option<T>,
}

impl<T> OneShot<T> {
    /// Whether readiness has been published.
    pub closed spec fn ready(self) -> bool {
        self.is_set
    }

    /// The slot's content.
    pub closed spec fn stored(self) -> Option<T> {
        self.value
    }

    /// The cell's invariant: before readiness is published the slot is empty,
    /// so a receiver can never observe a value ahead of its publication.
    pub open spec fn wf(self) -> bool {
        !self.ready() ==> self.stored() is None
    }

    /// What a ready cell yields to its receiver: the deposited value, or the
    /// cancellation condition if the sender went away without depositing one.
    pub open spec fn outcome(self) -> Result<T, RecvError> {
        match self.stored() {
            Some(v) => Ok(v),
            None => Err(RecvError::Abandoned),
        }
    }

    /// A fresh cell: not ready, nothing stored.
    pub fn new() -> (c: Self)
        ensures
            c.wf(),
            !c.ready(),
            c.stored() is None,
    {
        OneShot { is_set: false, value: None }
    }

    /// Polls the readiness flag; the embedding program's wait loop parks (or
    /// waits on a condition variable) between polls.
    pub fn is_ready(&self) -> (b: bool)
        ensures
            b == self.ready(),
    {
        self.is_set
    }

    /// Stores `val` and publishes readiness, in that order.
    pub fn deposit(&mut self, val: T)
        requires
            !old(self).ready(),
        ensures
            final(self).wf(),
            final(self).ready(),
            final(self).stored() == Some(val),
    {
        self.value = Some(val);
        self.is_set = true;
    }

    /// Publishes readiness without storing a value: the abandonment wake-up,
    /// so the receiver fails promptly instead of waiting forever.
    pub fn mark_abandoned(&mut self)
        requires
            old(self).wf(),
            !old(self).ready(),
        ensures
            final(self).wf(),
            final(self).ready(),
            final(self).stored() is None,
    {
        self.is_set = true;
    }
}

/// The invocation-scoped owner of one handoff cell.
///
/// In the running system the cell lives on the stack frame of the call that
/// created it, and that frame must not be left until readiness has been
/// published — that final wait is what keeps the sender's reference into
/// the frame valid. Here the scope owns the cell until it is split into the
/// two capabilities.
pub struct Scope<T> {
    oneshot: OneShot<T>,
}

impl<T> Scope<T> {
    /// The cell this scope owns.
    pub closed spec fn cell(self) -> OneShot<T> {
        self.oneshot
    }

    /// A scope is only ever created around a fresh cell.
    pub open spec fn wf(self) -> bool {
        self.cell().wf() && !self.cell().ready() && self.cell().stored() is None
    }

    /// A new scope around a fresh cell.
    pub fn new() -> (s: Self)
        ensures
            s.wf(),
    {
        Scope { oneshot: OneShot::new() }
    }

    /// Splits the scope into its two single-use capabilities. The sender
    /// side carries the cell (in the running system: a reference into the
    /// scope's frame, transferable to another thread); the receiver side is
    /// the right to read it once ready, confined to the creating thread.
    pub fn split(self) -> (pair: (ScopedSender<T>, ScopedReceiver<T>))
        requires
            self.wf(),
        ensures
            pair.0.wf(),
    {
        let Scope { oneshot } = self;
        (ScopedSender { cell: oneshot }, ScopedReceiver { _receives: PhantomData })
    }
}

/// The single-use right to complete one handoff cell.
///
/// `send` and `abandon` both consume the capability, so it can be exercised
/// at most once; one of the two must be exercised, since discarding the
/// capability unexercised would leave the receiver waiting forever.
pub struct ScopedSender<T> {
    cell: OneShot<T>,
}

impl<T> ScopedSender<T> {
    /// The cell this capability completes.
    pub closed spec fn cell(self) -> OneShot<T> {
        self.cell
    }

    /// An unexercised sender always holds a fresh cell.
    pub open spec fn wf(self) -> bool {
        self.cell().wf() && !self.cell().ready() && self.cell().stored() is None
    }

    /// Stores `val` in the cell, then publishes readiness; the completed
    /// cell is what the paired receiver will read.
    pub fn send(self, val: T) -> (c: OneShot<T>)
        requires
            self.wf(),
        ensures
            c.wf(),
            c.ready(),
            c.stored() == Some(val),
    {
        let ScopedSender { mut cell } = self;
        cell.deposit(val);
        cell
    }

    /// Gives the capability up without sending: publishes readiness with an
    /// empty slot, so the paired receiver fails with `Abandoned` instead of
    /// waiting forever. This is what dropping an unexercised sender does in
    /// the running system.
    pub fn abandon(self) -> (c: OneShot<T>)
        requires
            self.wf(),
        ensures
            c.wf(),
            c.ready(),
            c.stored() is None,
    {
        let ScopedSender { mut cell } = self;
        cell.mark_abandoned();
        cell
    }
}

/// The single-use right to read one handoff cell after readiness.
///
/// In the running system this capability must stay on the thread that
/// created the scope; `recv` consumes it, so the cell is read at most once.
pub struct ScopedReceiver<T> {
    _receives: PhantomData<T>,
}

impl<T> ScopedReceiver<T> {
    /// Takes the value out of a ready cell. The embedding program blocks on
    /// `is_ready` (parking between polls, or under a condition variable)
    /// before calling this, so the slot is never read ahead of publication.
    pub fn recv(self, cell: OneShot<T>) -> (r: Result<T, RecvError>)
        requires
            cell.wf(),
            cell.ready(),
        ensures
            r == cell.outcome(),
    {
        let OneShot { is_set: _, value } = cell;
        match value {
            Some(v) => Ok(v),
            None => Err(RecvError::Abandoned),
        }
    }
}

/// Creates one handoff cell and returns its split capabilities. In the
/// running system the scope sits on the caller's stack and the caller must
/// block, after handing the sender away, until the cell is ready; the
/// capability pair here carries the same single-use rights.
pub fn scoped_oneshot_channel<T>() -> (pair: (ScopedSender<T>, ScopedReceiver<T>))
    ensures
        pair.0.wf(),
{
    Scope::new().split()
}

/// No read-before-write: as long as readiness has not been published, the
/// slot holds nothing, so a receiver that observes a value has necessarily
/// observed the matching deposit's publication first.
pub proof fn lemma_no_read_before_write<T>(c: OneShot<T>)
    requires
        c.wf(),
        !c.ready(),
    ensures
        c.stored() is None,
{
}

/// Exactly-once delivery: a cell completed by `send(val)` yields to its
/// receiver precisely `val` — never a default, never another call's value;
/// and since `recv` consumes the receiver, it yields it exactly once.
pub proof fn lemma_exactly_once_delivery<T>(c: OneShot<T>, val: T)
    requires
        c.wf(),
        c.ready(),
        c.stored() == Some(val),
    ensures
        c.outcome() == Ok::<T, RecvError>(val),
{
}

/// Abandonment yields failure, not deadlock: an abandoned cell is ready —
/// so the receiver's wait for readiness ends — and reports the cancellation
/// condition rather than a silent default value.
pub proof fn lemma_abandonment_fails<T>(c: OneShot<T>)
    requires
        c.wf(),
        c.ready(),
        c.stored() is None,
    ensures
        c.outcome() == Err::<T, RecvError>(RecvError::Abandoned),
{
}

} // verus!
