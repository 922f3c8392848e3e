use scoped_oneshot::queue::{BoundedQueue, SendAttempt};
use scoped_oneshot::task::{
    Completed, Select, TimedSelect, make_noop_message, make_test_message, select_blocking,
    select_timeout, start_task, test_task,
};

#[test]
fn test_call_roundtrip() {
    let mut q = start_task();
    let (m, rx) = make_test_message(String::from("aha"));
    assert!(matches!(q.try_send(m), SendAttempt::Sent));
    let mut done = test_task(&mut q);
    assert_eq!(done.len(), 1);
    match done.remove(0) {
        Completed::Test(cell) => assert_eq!(rx.recv(cell), Ok(String::from("aha It's processed"))),
        Completed::Noop(_) => panic!("noop reply for a test call"),
    }
}

#[test]
fn noop_call_roundtrip() {
    let mut q = start_task();
    let (m, rx) = make_noop_message();
    assert!(matches!(q.try_send(m), SendAttempt::Sent));
    let mut done = test_task(&mut q);
    assert_eq!(done.len(), 1);
    match done.remove(0) {
        Completed::Noop(cell) => assert_eq!(rx.recv(cell), Ok(())),
        Completed::Test(_) => panic!("test reply for a noop call"),
    }
}

#[test]
fn replies_come_in_request_order() {
    // Three calls enqueued in program order are serviced and answered in
    // that same order.
    let mut q = BoundedQueue::new(3);
    let (ma, rx_a) = make_test_message(String::from("a"));
    let (mb, rx_b) = make_test_message(String::from("b"));
    let (mc, rx_c) = make_test_message(String::from("c"));
    assert!(matches!(q.try_send(ma), SendAttempt::Sent));
    assert!(matches!(q.try_send(mb), SendAttempt::Sent));
    assert!(matches!(q.try_send(mc), SendAttempt::Sent));
    let mut done = test_task(&mut q);
    assert_eq!(done.len(), 3);
    let expected = ["a It's processed", "b It's processed", "c It's processed"];
    for (rx, want) in [rx_a, rx_b, rx_c].into_iter().zip(expected) {
        match done.remove(0) {
            Completed::Test(cell) => assert_eq!(rx.recv(cell), Ok(String::from(want))),
            Completed::Noop(_) => panic!("noop reply for a test call"),
        }
    }
}

#[test]
fn select_blocking_dispatches_to_matching_impl() {
    let mut q = start_task();
    let (m, rx) = make_test_message(String::from("x"));
    assert!(matches!(q.try_send(m), SendAttempt::Sent));
    let r = select_blocking(&mut q, || (), |s: String| s + "!");
    match r {
        Select::Handled(Completed::Test(cell)) => {
            assert_eq!(rx.recv(cell), Ok(String::from("x!")));
        }
        _ => panic!("the queued test call was not handled"),
    }
}

#[test]
fn select_blocking_signals_disconnection() {
    let mut q = start_task();
    q.drop_sender();
    let r = select_blocking(&mut q, || (), |s: String| s);
    assert!(matches!(r, Select::Disconnected));
}

#[test]
fn select_blocking_waits_while_a_sender_remains() {
    let mut q = start_task();
    let r = select_blocking(&mut q, || (), |s: String| s);
    assert!(matches!(r, Select::WouldBlock));
}

#[test]
fn select_timeout_distinguishes_idle_from_disconnection() {
    let mut q = start_task();
    let r = select_timeout(&mut q, || (), |s: String| s);
    assert!(matches!(r, TimedSelect::Timeout));
    q.drop_sender();
    let r = select_timeout(&mut q, || (), |s: String| s);
    assert!(matches!(r, TimedSelect::Disconnected));
}

#[test]
fn end_to_end_echo() {
    // One declared operation, Echo(s) -> s + " processed", exercised by ten
    // callers making ten thousand calls each; every call must come back as
    // "x processed".
    let mut q = start_task();
    for _caller in 0..10 {
        for _round in 0..10_000 {
            let (m, rx) = make_test_message(String::from("x"));
            assert!(matches!(q.try_send(m), SendAttempt::Sent));
            let r = select_blocking(&mut q, || (), |s: String| s + " processed");
            match r {
                Select::Handled(Completed::Test(cell)) => {
                    assert_eq!(rx.recv(cell), Ok(String::from("x processed")));
                }
                _ => panic!("the echo call was not handled"),
            }
        }
    }
    q.drop_sender();
    let r = select_blocking(&mut q, || (), |s: String| s + " processed");
    assert!(matches!(r, Select::Disconnected));
}
