use scoped_oneshot::oneshot::{OneShot, RecvError, Scope, scoped_oneshot_channel};

#[test]
fn send_then_recv_returns_value() {
    let (tx, rx) = scoped_oneshot_channel::<u32>();
    let cell = tx.send(42);
    assert_eq!(rx.recv(cell), Ok(42));
}

#[test]
fn recv_returns_exactly_the_sent_string() {
    let (tx, rx) = scoped_oneshot_channel::<String>();
    let cell = tx.send(String::from("payload"));
    assert_eq!(rx.recv(cell), Ok(String::from("payload")));
}

#[test]
fn abandoned_sender_reports_error() {
    let (tx, rx) = scoped_oneshot_channel::<u32>();
    let cell = tx.abandon();
    assert_eq!(rx.recv(cell), Err(RecvError::Abandoned));
}

#[test]
fn fresh_cell_is_not_ready() {
    let cell = OneShot::<u32>::new();
    assert!(!cell.is_ready());
}

#[test]
fn send_publishes_readiness() {
    let (tx, _rx) = scoped_oneshot_channel::<u8>();
    let cell = tx.send(1);
    assert!(cell.is_ready());
}

#[test]
fn abandonment_publishes_readiness() {
    // The receiver's wait loop ends as soon as the sender goes away: the
    // abandonment itself sets the readiness flag.
    let (tx, _rx) = scoped_oneshot_channel::<u8>();
    let cell = tx.abandon();
    assert!(cell.is_ready());
}

#[test]
fn deposit_sets_value_and_readiness() {
    let mut cell = OneShot::<u16>::new();
    cell.deposit(7);
    assert!(cell.is_ready());
}

#[test]
fn scope_splits_into_working_pair() {
    let (tx, rx) = Scope::<i64>::new().split();
    let cell = tx.send(-5);
    assert_eq!(rx.recv(cell), Ok(-5));
}
