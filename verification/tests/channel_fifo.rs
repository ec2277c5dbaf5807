use taskmsg::channel::{create, RecvError, TryRecv};
use taskmsg::task::{join, spawn};

#[test]
fn fifo_single_sender() {
    let (tx, rx) = create();
    for value in 1u64..=5 {
        assert!(tx.send(value).is_ok());
    }
    for expected in 1u64..=5 {
        assert_eq!(rx.recv(), Ok(expected));
    }
}

#[test]
fn fifo_across_a_task_boundary() {
    let (tx, rx) = create();
    let handle = spawn(move || {
        for value in 1u64..=10 {
            assert!(tx.send(value).is_ok());
        }
        0u8
    });
    for expected in 1u64..=10 {
        assert_eq!(rx.recv(), Ok(expected));
    }
    assert!(join(handle).is_ok());
}

#[test]
fn multi_sender_keeps_each_sources_order() {
    let (tx_a, rx) = create();
    let tx_b = tx_a.clone();
    let first = spawn(move || {
        assert!(tx_a.send(1u64).is_ok());
        assert!(tx_a.send(2u64).is_ok());
        0u8
    });
    let second = spawn(move || {
        assert!(tx_b.send(11u64).is_ok());
        assert!(tx_b.send(12u64).is_ok());
        0u8
    });
    let received = rx.recv_all();
    assert!(join(first).is_ok());
    assert!(join(second).is_ok());

    assert_eq!(received.len(), 4);
    let pos = |wanted: u64| received.iter().position(|&v| v == wanted).unwrap();
    // Each sender's own order is preserved, however the two interleaved.
    assert!(pos(1) < pos(2));
    assert!(pos(11) < pos(12));
}

#[test]
fn channel_closes_after_last_sender_drop() {
    let (tx, rx) = create();
    let tx_clone = tx.clone();
    assert!(tx.send(1u64).is_ok());
    assert!(tx_clone.send(2u64).is_ok());
    assert!(tx.send(3u64).is_ok());
    drop(tx);
    drop(tx_clone);
    // Outstanding messages are still delivered after the close...
    assert_eq!(rx.recv(), Ok(1));
    assert_eq!(rx.recv(), Ok(2));
    assert_eq!(rx.recv(), Ok(3));
    // ...and then the channel reports end-of-stream, permanently.
    assert_eq!(rx.recv(), Err(RecvError));
    assert_eq!(rx.recv(), Err(RecvError));
    assert!(matches!(rx.try_recv(), TryRecv::Disconnected));
}

#[test]
fn try_recv_on_empty_open_channel_does_not_block() {
    let (tx, rx) = create::<u64>();
    assert!(matches!(rx.try_recv(), TryRecv::Empty));
    // The send end is still alive, so this was "nothing ready", not
    // end-of-stream.
    assert!(tx.send(9).is_ok());
    assert!(matches!(rx.try_recv(), TryRecv::Message(9)));
    assert!(matches!(rx.try_recv(), TryRecv::Empty));
}

#[test]
fn send_fails_once_receiver_is_gone() {
    let (tx, rx) = create();
    drop(rx);
    match tx.send(7u64) {
        Err(error) => assert_eq!(error.0, 7),
        Ok(()) => panic!("a send with no receive end left must fail"),
    }
}

#[test]
fn cloned_senders_all_deliver() {
    let (tx, rx) = create();
    let tx_clone = tx.clone();
    assert!(tx.send(1u64).is_ok());
    assert!(tx_clone.send(2u64).is_ok());
    assert_eq!(rx.recv(), Ok(1));
    assert_eq!(rx.recv(), Ok(2));
}

#[test]
fn send_never_blocks_on_a_long_queue() {
    let (tx, rx) = create();
    for value in 0u64..1000 {
        assert!(tx.send(value).is_ok());
    }
    drop(tx);
    let received = rx.recv_all();
    assert_eq!(received.len(), 1000);
    for (index, value) in received.iter().enumerate() {
        assert_eq!(*value, index as u64);
    }
}

#[test]
fn recv_all_ends_at_end_of_stream() {
    let (tx, rx) = create();
    let handle = spawn(move || {
        for value in 1u64..=3 {
            assert!(tx.send(value).is_ok());
        }
        0u8
    });
    let received = rx.recv_all();
    assert_eq!(received, vec![1, 2, 3]);
    // The sequence is not restartable: the channel stays closed.
    assert_eq!(rx.recv(), Err(RecvError));
    assert!(join(handle).is_ok());
}
