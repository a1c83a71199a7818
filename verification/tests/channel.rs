use mpsc::channel;

#[test]
fn ping_pong() {
    let (mut tx, mut rx) = channel();
    tx.send(42);
    assert_eq!(rx.recv(), Some(42));
}

#[test]
fn closed_tx() {
    let (tx, mut rx) = channel::<()>();
    drop(tx);
    assert_eq!(rx.recv(), None);
}

#[test]
fn closed_rx() {
    let (mut tx, rx) = channel();
    drop(rx);
    tx.send(2);
}

#[test]
fn fifo_order() {
    let (mut tx, mut rx) = channel();
    let mut tx2 = tx.clone();
    tx.send(1);
    tx2.send(2);
    tx.send(3);
    tx2.send(4);
    tx.send(5);
    assert_eq!(rx.recv(), Some(1));
    assert_eq!(rx.recv(), Some(2));
    assert_eq!(rx.recv(), Some(3));
    assert_eq!(rx.recv(), Some(4));
    assert_eq!(rx.recv(), Some(5));
}

#[test]
fn two_receivers_split_the_queue() {
    let (mut tx, mut rx) = channel();
    tx.send(1);
    tx.send(2);
    let mut rx2 = rx.clone();
    assert_eq!(rx.recv(), Some(1));
    assert_eq!(rx2.recv(), Some(2));
}

#[test]
fn closure_is_permanent() {
    let (mut tx, mut rx) = channel();
    let mut tx2 = tx.clone();
    tx.send(7);
    drop(tx);
    tx2.send(8);
    drop(tx2);
    let mut rx2 = rx.clone();
    assert_eq!(rx.recv(), Some(7));
    assert_eq!(rx.recv(), Some(8));
    assert_eq!(rx.recv(), None);
    assert_eq!(rx.recv(), None);
    assert_eq!(rx2.recv(), None);
}

#[test]
fn send_after_receiver_release_is_queued() {
    let (mut tx, rx) = channel();
    let mut rx2 = rx.clone();
    drop(rx);
    tx.send(9);
    drop(tx);
    assert_eq!(rx2.recv(), Some(9));
    assert_eq!(rx2.recv(), None);
}

#[test]
fn unit_items_arrive_in_order() {
    let (mut tx, mut rx) = channel::<()>();
    tx.send(());
    tx.send(());
    drop(tx);
    assert_eq!(rx.recv(), Some(()));
    assert_eq!(rx.recv(), Some(()));
    assert_eq!(rx.recv(), None);
}
