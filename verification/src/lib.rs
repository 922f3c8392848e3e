//! A minimal-latency, allocation-free single-value handoff between two
//! threads, and a typed worker/selector pattern built on top of it.
//!
//! The crate verifies the protocol logic: the handoff cell's state machine
//! (write once, publish readiness, read once), the single-use sender and
//! receiver capabilities, the bounded FIFO request queue with sender
//! accounting, and the worker-side dispatch loop. The surrounding thread
//! machinery (parking, waking, the shared queue's locking) is left to the
//! embedding program, which drives these verified transitions.

pub mod oneshot;
pub mod queue;
pub mod task;
