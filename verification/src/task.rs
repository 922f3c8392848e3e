//! The typed worker/selector pattern over the handoff cell and the queue.
//!
//! One dedicated worker thread services typed, synchronous calls from many
//! caller threads. A caller packages its operation's arguments together
//! with a fresh handoff sender into a message, enqueues it on the worker's
//! capacity-one queue, and blocks on the paired receiver; the worker's
//! select step dequeues the oldest message, dispatches on its tag to the
//! one implementation supplied for that operation — the dispatch is total
//! by construction — and completes the embedded sender with the result.
//!
//! The operation table here is the test task: `noop()` returning nothing,
//! and `test(s)` returning `s` with `" It's processed"` appended. The
//! select step takes one implementation closure per operation, so a worker
//! body may also wire other implementations (an echo, say) to the same
//! message shapes.

use vstd::prelude::*;
use vstd::string::StringExecFns;
use crate::oneshot::{OneShot, ScopedReceiver, ScopedSender, scoped_oneshot_channel};
use crate::queue::{BoundedQueue, RecvAttempt};

verus! {

/// One queued call: the operation's tag, its arguments, and the handoff
/// sender through which the worker delivers the reply. Exactly one variant
/// is active per message.
pub enum TestMethods {
    /// The `noop` operation: no arguments, unit reply.
    Noop(ScopedSender<()>),
    /// The `test` operation: one string argument, string reply.
    Test(String, ScopedSender<String>),
}

/// A message is well-formed when its embedded sender is still unexercised.
pub open spec fn msg_wf(m: TestMethods) -> bool {
    match m {
        TestMethods::Noop(tx) => tx.wf(),
        TestMethods::Test(_, tx) => tx.wf(),
    }
}

/// A completed call: the handoff cell after the worker's reply was
/// deposited, ready for the paired receiver to read.
pub enum Completed {
    /// A serviced `noop` call.
    Noop(OneShot<()>),
    /// A serviced `test` call.
    Test(OneShot<String>),
}

/// What the blocking select step reports.
pub enum Select {
    /// One message was dequeued, dispatched, and its sender completed.
    Handled(Completed),
    /// Nothing is queued but a sender handle still exists: the worker
    /// should block until a message arrives and try again.
    WouldBlock,
    /// Nothing is queued and no sender handle is left: the worker loop can
    /// terminate, since no call can ever arrive again.
    Disconnected,
}

/// What the timed select step reports. Idleness is distinct from
/// disconnection, so a worker can tell "no caller right now" from "no
/// caller ever again".
pub enum TimedSelect {
    /// One message was dequeued, dispatched, and its sender completed.
    Handled(Completed),
    /// The wait elapsed with nothing queued, though a sender handle still
    /// exists.
    Timeout,
    /// Nothing is queued and no sender handle is left.
    Disconnected,
}

/// The `test` operation's reply: the argument with the fixed suffix
/// appended.
pub open spec fn processed(s: Seq<char>) -> Seq<char> {
    s + " It's processed"@
}

/// Builds a `noop` call: the message to enqueue and the receiver on which
/// the caller blocks for the reply.
pub fn make_noop_message() -> (r: (TestMethods, ScopedReceiver<()>))
    ensures
        (r.0 matches TestMethods::Noop(tx) && tx.wf()),
        msg_wf(r.0),
{
    let (tx, rx) = scoped_oneshot_channel::<()>();
    (TestMethods::Noop(tx), rx)
}

/// Builds a `test` call carrying `s`: the message to enqueue and the
/// receiver on which the caller blocks for the reply.
pub fn make_test_message(s: String) -> (r: (TestMethods, ScopedReceiver<String>))
    ensures
        (r.0 matches TestMethods::Test(a, tx) && a == s && tx.wf()),
        msg_wf(r.0),
{
    let (tx, rx) = scoped_oneshot_channel::<String>();
    (TestMethods::Test(s, tx), rx)
}

/// The implementation closures' preconditions, instantiated at the
/// arguments the message carries.
pub open spec fn msg_call_requires<F1: FnOnce() -> (), F2: FnOnce(String) -> String>(
    m: TestMethods,
    noop: F1,
    test: F2,
) -> bool {
    match m {
        TestMethods::Noop(_) => call_requires(noop, ()),
        TestMethods::Test(s, _) => call_requires(test, (s,)),
    }
}

/// How a dispatched message relates to its completion: the reply cell is
/// ready, and it stores exactly one value that the matching implementation
/// closure could have returned for the message's arguments — so every
/// successful call's receiver obtains precisely the worker's reply to it.
pub open spec fn handled<F1: FnOnce() -> (), F2: FnOnce(String) -> String>(
    m: TestMethods,
    c: Completed,
    noop: F1,
    test: F2,
) -> bool {
    match m {
        TestMethods::Noop(_) => (c matches Completed::Noop(cell) && cell.wf() && cell.ready()
            && cell.stored() == Some(()) && call_ensures(noop, (), ())),
        TestMethods::Test(s, _) => (c matches Completed::Test(cell) && cell.wf() && cell.ready()
            && (cell.stored() matches Some(out) && call_ensures(test, (s,), out))),
    }
}

/// The worker's blocking select step: dequeues the oldest message, if any,
/// and dispatches it to the one implementation supplied for its operation.
/// Exactly one implementation is invoked per handled message, and every
/// operation has its implementation wired here, so the dispatch is total.
pub fn select_blocking<F1: FnOnce() -> (), F2: FnOnce(String) -> String>(
    q: &mut BoundedQueue<TestMethods>,
    noop: F1,
    test: F2,
) -> (r: Select)
    requires
        old(q).wf(),
        old(q).receiver_live(),
        old(q)@.len() > 0 ==> msg_wf(old(q)@[0]),
        old(q)@.len() > 0 ==> msg_call_requires(old(q)@[0], noop, test),
    ensures
        final(q).wf(),
        final(q).capacity() == old(q).capacity(),
        final(q).sender_count() == old(q).sender_count(),
        final(q).receiver_live(),
        old(q)@.len() > 0 ==> final(q)@ == old(q)@.drop_first() && (r matches Select::Handled(c)
            && handled(old(q)@[0], c, noop, test)),
        old(q)@.len() == 0 ==> final(q)@ == old(q)@ && r == (if old(q).disconnected() {
            Select::Disconnected
        } else {
            Select::WouldBlock
        }),
{
    match q.try_recv() {
        RecvAttempt::Received(m) => match m {
            TestMethods::Noop(tx) => {
                let out = noop();
                let cell = tx.send(out);
                Select::Handled(Completed::Noop(cell))
            },
            TestMethods::Test(s, tx) => {
                let out = test(s);
                let cell = tx.send(out);
                Select::Handled(Completed::Test(cell))
            },
        },
        RecvAttempt::WouldBlock => Select::WouldBlock,
        RecvAttempt::Disconnected => Select::Disconnected,
    }
}

/// The worker's timed select step: as `select_blocking`, but an empty queue
/// with senders still alive reports that the wait (whose duration the
/// embedding program measures) elapsed idle, distinct from disconnection.
pub fn select_timeout<F1: FnOnce() -> (), F2: FnOnce(String) -> String>(
    q: &mut BoundedQueue<TestMethods>,
    noop: F1,
    test: F2,
) -> (r: TimedSelect)
    requires
        old(q).wf(),
        old(q).receiver_live(),
        old(q)@.len() > 0 ==> msg_wf(old(q)@[0]),
        old(q)@.len() > 0 ==> msg_call_requires(old(q)@[0], noop, test),
    ensures
        final(q).wf(),
        final(q).capacity() == old(q).capacity(),
        final(q).sender_count() == old(q).sender_count(),
        final(q).receiver_live(),
        old(q)@.len() > 0 ==> final(q)@ == old(q)@.drop_first() && (r matches
            TimedSelect::Handled(c) && handled(old(q)@[0], c, noop, test)),
        old(q)@.len() == 0 ==> final(q)@ == old(q)@ && r == (if old(q).disconnected() {
            TimedSelect::Disconnected
        } else {
            TimedSelect::Timeout
        }),
{
    match q.try_recv() {
        RecvAttempt::Received(m) => match m {
            TestMethods::Noop(tx) => {
                let out = noop();
                let cell = tx.send(out);
                TimedSelect::Handled(Completed::Noop(cell))
            },
            TestMethods::Test(s, tx) => {
                let out = test(s);
                let cell = tx.send(out);
                TimedSelect::Handled(Completed::Test(cell))
            },
        },
        RecvAttempt::WouldBlock => TimedSelect::Timeout,
        RecvAttempt::Disconnected => TimedSelect::Disconnected,
    }
}

/// Creates the fresh capacity-one queue a new worker is backed by: one
/// cloneable handle exists, the receiving side is live, nothing is queued.
/// The embedding program spawns the dedicated thread and runs the worker
/// body on it.
pub fn start_task() -> (q: BoundedQueue<TestMethods>)
    ensures
        q.wf(),
        q@ =~= Seq::<TestMethods>::empty(),
        q.capacity() == 1,
        q.sender_count() == 1,
        q.receiver_live(),
{
    BoundedQueue::new(1)
}

/// How the test task's own implementations answer a message: `noop` with
/// the unit value, `test` with the argument plus the fixed suffix — each
/// reply cell ready and holding exactly that value.
pub open spec fn test_task_handled(m: TestMethods, c: Completed) -> bool {
    match m {
        TestMethods::Noop(_) => (c matches Completed::Noop(cell) && cell.wf() && cell.ready()
            && cell.stored() == Some(())),
        TestMethods::Test(s, _) => (c matches Completed::Test(cell) && cell.wf() && cell.ready()
            && (cell.stored() matches Some(out) && out@ == processed(s@))),
    }
}

/// The test task's worker body: selects in a loop, wiring `noop` to the
/// empty implementation and `test` to the suffix-appending one, until the
/// queue has no message left to service. Replies come back in exactly the
/// order the calls were enqueued, each completed per `test_task_handled` —
/// first-in-first-out servicing, one reply per call.
pub fn test_task(q: &mut BoundedQueue<TestMethods>) -> (done: Vec<Completed>)
    requires
        old(q).wf(),
        old(q).receiver_live(),
        forall|i: int| 0 <= i < old(q)@.len() ==> msg_wf(#[trigger] old(q)@[i]),
    ensures
        final(q).wf(),
        final(q)@.len() == 0,
        final(q).sender_count() == old(q).sender_count(),
        final(q).receiver_live(),
        done@.len() == old(q)@.len(),
        forall|i: int| 0 <= i < done@.len() ==> test_task_handled(
            old(q)@[i],
            #[trigger] done@[i],
        ),
{
    let mut done: Vec<Completed> = Vec::new();
    let mut more: bool = true;
    while more
        invariant
            q.wf(),
            q.receiver_live(),
            q.capacity() == old(q).capacity(),
            q.sender_count() == old(q).sender_count(),
            done@.len() + q@.len() == old(q)@.len(),
            q@ == old(q)@.subrange(done@.len() as int, old(q)@.len() as int),
            forall|i: int| 0 <= i < q@.len() ==> msg_wf(#[trigger] q@[i]),
            forall|i: int| 0 <= i < done@.len() ==> test_task_handled(
                old(q)@[i],
                #[trigger] done@[i],
            ),
            !more ==> q@.len() == 0,
        decreases q@.len() + (if more { 1int } else { 0int }),
    {
        let ghost before = q@;
        let ghost k = done@.len() as int;
        let r = select_blocking(
            q,
            || {
            },
            (|s: String| -> (out: String)
                ensures
                    out@ == processed(s@),
                {
                    s.concat(" It's processed")
                }),
        );
        match r {
            Select::Handled(c) => {
                proof {
                    assert(before[0] == old(q)@[k]);
                    assert(before.drop_first() =~= old(q)@.subrange(
                        k + 1,
                        old(q)@.len() as int,
                    ));
                }
                done.push(c);
            },
            Select::WouldBlock => {
                more = false;
            },
            Select::Disconnected => {
                more = false;
            },
        }
    }
    done
}

} // verus!
