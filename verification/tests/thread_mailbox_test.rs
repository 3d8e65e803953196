// Tests of the three mailboxes: the queue of message ids, the backpressure
// strategies, closing and the ready flag. Message payloads are kept in a list
// and the mailbox carries their positions.

use parrot::thread::config::BackpressureStrategy;
use parrot::thread::error::MailboxError;
use parrot::thread::mailbox::mpsc::MpscMailbox;
use parrot::thread::mailbox::spsc::SpscMailbox;
use parrot::thread::mailbox::spsc_ringbuf::SpscRingbufMailbox;
use parrot::thread::mailbox::{block_step, BlockStep, Mailbox};

#[test]
fn mpsc_test_push_and_pop() {
    let payloads = vec!["test message"];
    let mut mailbox = MpscMailbox::new(10, "test-actor".to_string());

    mailbox.push(0, BackpressureStrategy::Block).unwrap();

    let received = mailbox.pop();
    assert!(received.is_some());
    if let Some(id) = received {
        assert_eq!(payloads[id as usize], "test message");
    }
}

#[test]
fn mpsc_test_backpressure_drop_newest() {
    let mut mailbox = MpscMailbox::new(1, "test-actor".to_string());
    mailbox.push(0, BackpressureStrategy::Block).unwrap();

    let result = mailbox.push(1, BackpressureStrategy::DropNewest);
    assert!(result.is_ok());

    let received1 = mailbox.pop();
    assert!(received1.is_some());
    let received2 = mailbox.pop();
    assert!(received2.is_none());
}

#[test]
fn mpsc_test_backpressure_drop_oldest() {
    let payloads = vec!["message 1", "message 2"];
    let mut mailbox = MpscMailbox::new(1, "test-actor".to_string());
    mailbox.push(0, BackpressureStrategy::Block).unwrap();

    let result = mailbox.push(1, BackpressureStrategy::DropOldest);
    assert!(result.is_ok());

    let received = mailbox.pop();
    assert!(received.is_some());
    if let Some(id) = received {
        assert_eq!(payloads[id as usize], "message 2");
    }
}

#[test]
fn mpsc_test_backpressure_error() {
    let mut mailbox = MpscMailbox::new(1, "test-actor".to_string());
    mailbox.push(0, BackpressureStrategy::Block).unwrap();

    let result = mailbox.push(1, BackpressureStrategy::Error);
    assert!(matches!(result, Err(MailboxError::Full { .. })));
}

#[test]
fn test_signal_ready() {
    let mut mailbox = MpscMailbox::new(10, "test-actor".to_string());
    assert!(!mailbox.is_ready());
    mailbox.signal_ready();
    assert!(mailbox.is_ready());
}

#[test]
fn spsc_test_push_and_pop() {
    let payloads = vec!["Hello, World!"];
    let mut mailbox = SpscMailbox::new(10, "test-actor".to_string());

    mailbox.push(0, BackpressureStrategy::Block).unwrap();
    assert_eq!(mailbox.len(), 1);

    let received = mailbox.pop();
    assert!(received.is_some());
    assert_eq!(payloads[received.unwrap() as usize], "Hello, World!");

    assert!(mailbox.is_empty());
    assert_eq!(mailbox.len(), 0);
}

#[test]
fn spsc_test_backpressure_drop_newest() {
    let payloads = vec!["First message", "Second message"];
    let mut mailbox = SpscMailbox::new(1, "test-actor".to_string());
    mailbox.push(0, BackpressureStrategy::Block).unwrap();

    let result = mailbox.push(1, BackpressureStrategy::DropNewest);
    assert!(result.is_ok());
    assert_eq!(mailbox.len(), 1);

    let received = mailbox.pop().unwrap();
    assert_eq!(payloads[received as usize], "First message");
}

#[test]
fn spsc_test_backpressure_error() {
    let mut mailbox = SpscMailbox::new(1, "test-actor".to_string());
    mailbox.push(0, BackpressureStrategy::Block).unwrap();

    let result = mailbox.push(1, BackpressureStrategy::Error);
    assert!(matches!(result, Err(MailboxError::Full { .. })));
}

#[test]
fn spsc_test_backpressure_drop_oldest() {
    let payloads = vec!["First message", "Second message"];
    let mut mailbox = SpscMailbox::new(1, "test-actor".to_string());
    mailbox.push(0, BackpressureStrategy::Block).unwrap();

    let result = mailbox.push(1, BackpressureStrategy::DropOldest);
    assert!(result.is_ok());

    let received = mailbox.pop().unwrap();
    assert_eq!(payloads[received as usize], "Second message");
}

#[test]
fn spsc_ringbuf_test_push_and_pop() {
    let payloads = vec!["Hello, World!"];
    let mut mailbox = SpscRingbufMailbox::new(10, "test-actor".to_string());

    mailbox.push(0, BackpressureStrategy::Block).unwrap();
    assert_eq!(mailbox.len(), 1);

    let received = mailbox.pop();
    assert!(received.is_some());
    assert_eq!(payloads[received.unwrap() as usize], "Hello, World!");

    assert!(mailbox.is_empty());
    assert_eq!(mailbox.len(), 0);
}

#[test]
fn spsc_ringbuf_test_backpressure_drop_newest() {
    let payloads = vec!["First message", "Second message"];
    let mut mailbox = SpscRingbufMailbox::new(1, "test-actor".to_string());
    mailbox.push(0, BackpressureStrategy::Block).unwrap();

    let result = mailbox.push(1, BackpressureStrategy::DropNewest);
    assert!(result.is_ok());
    assert_eq!(mailbox.len(), 1);

    let received = mailbox.pop().unwrap();
    assert_eq!(payloads[received as usize], "First message");
}

#[test]
fn spsc_ringbuf_test_backpressure_error() {
    let mut mailbox = SpscRingbufMailbox::new(1, "test-actor".to_string());
    mailbox.push(0, BackpressureStrategy::Block).unwrap();

    let result = mailbox.push(1, BackpressureStrategy::Error);
    assert!(matches!(result, Err(MailboxError::Full { .. })));
}

#[test]
fn spsc_ringbuf_test_backpressure_drop_oldest() {
    let payloads = vec!["First message", "Second message"];
    let mut mailbox = SpscRingbufMailbox::new(1, "test-actor".to_string());
    mailbox.push(0, BackpressureStrategy::Block).unwrap();

    let result = mailbox.push(1, BackpressureStrategy::DropOldest);
    assert!(result.is_ok());

    let received = mailbox.pop().unwrap();
    assert_eq!(payloads[received as usize], "Second message");
}

#[test]
fn test_close() {
    let mut payloads: Vec<String> = Vec::new();
    let mut mailbox = SpscRingbufMailbox::new(10, "test-actor".to_string());

    for i in 0..5u64 {
        payloads.push(format!("Message {}", i));
        mailbox.push(i, BackpressureStrategy::Block).unwrap();
    }

    mailbox.close();
    assert!(mailbox.is_closed());

    payloads.push("This should fail".to_string());
    let result = mailbox.push(5, BackpressureStrategy::Block);
    assert!(matches!(result, Err(MailboxError::Closed)));

    assert_eq!(mailbox.len(), 0);
    assert_eq!(payloads.len(), 6);
}

#[test]
fn test_messages_come_out_in_the_order_they_went_in() {
    let mut a = MpscMailbox::new(8, "a".to_string());
    let mut b = SpscMailbox::new(8, "b".to_string());
    let mut c = SpscRingbufMailbox::new(8, "c".to_string());
    for id in [7u64, 3, 9, 1] {
        a.push(id, BackpressureStrategy::Error).unwrap();
        b.push(id, BackpressureStrategy::Error).unwrap();
        c.push(id, BackpressureStrategy::Error).unwrap();
    }
    for id in [7u64, 3, 9, 1] {
        assert_eq!(a.pop(), Some(id));
        assert_eq!(b.pop(), Some(id));
        assert_eq!(c.pop(), Some(id));
    }
    assert_eq!(a.pop(), None);
    assert_eq!(b.pop(), None);
    assert_eq!(c.pop(), None);
}

#[test]
fn test_full_error_names_the_capacity() {
    let mut mailbox = MpscMailbox::new(2, "a".to_string());
    mailbox.push(1, BackpressureStrategy::Block).unwrap();
    mailbox.push(2, BackpressureStrategy::Block).unwrap();
    match mailbox.push(3, BackpressureStrategy::Error) {
        Err(MailboxError::Full { capacity }) => assert_eq!(capacity, 2),
        _ => panic!("expected a full mailbox"),
    }
    assert_eq!(mailbox.len(), 2);
    assert_eq!(mailbox.pop(), Some(1));
}

#[test]
fn test_drop_oldest_keeps_the_newest_in_order() {
    let mut mailbox = SpscRingbufMailbox::new(3, "a".to_string());
    for id in 1..=5u64 {
        mailbox.push(id, BackpressureStrategy::DropOldest).unwrap();
    }
    assert_eq!(mailbox.pop(), Some(3));
    assert_eq!(mailbox.pop(), Some(4));
    assert_eq!(mailbox.pop(), Some(5));
    assert_eq!(mailbox.pop(), None);
}

#[test]
fn test_drop_oldest_into_a_zero_capacity_mailbox_fails() {
    let mut mailbox = MpscMailbox::new(0, "a".to_string());
    match mailbox.push(1, BackpressureStrategy::DropOldest) {
        Err(MailboxError::PushError(reason)) => {
            assert_eq!(reason, "Failed to push message after dropping oldest");
        }
        _ => panic!("expected a push error"),
    }
}

#[test]
fn test_closed_mailboxes_refuse_every_strategy() {
    let mut mailbox = SpscMailbox::new(4, "a".to_string());
    mailbox.push(1, BackpressureStrategy::Block).unwrap();
    mailbox.close();
    assert!(mailbox.is_closed());
    assert!(mailbox.is_empty());
    for strategy in [
        BackpressureStrategy::Block,
        BackpressureStrategy::Error,
        BackpressureStrategy::DropOldest,
        BackpressureStrategy::DropNewest,
    ] {
        assert!(matches!(mailbox.push(2, strategy), Err(MailboxError::Closed)));
    }
    assert_eq!(mailbox.pop(), None);
}

#[test]
fn test_ready_flag_follows_the_queue() {
    let mut mailbox = SpscRingbufMailbox::new(4, "a".to_string());
    assert!(!mailbox.is_ready());
    mailbox.push(1, BackpressureStrategy::Block).unwrap();
    assert!(mailbox.is_ready());
    assert_eq!(mailbox.pop(), Some(1));
    assert!(!mailbox.is_ready());
}

#[test]
fn test_mailbox_trait_reports_the_same_state() {
    let mut mailbox = MpscMailbox::new(4, "a".to_string());
    mailbox.push_id(5, BackpressureStrategy::Block).unwrap();
    assert_eq!(mailbox.queued(), 1);
    assert!(!mailbox.no_messages());
    assert_eq!(mailbox.pop_id(), Some(5));
    mailbox.shut();
    assert!(mailbox.is_closed());
    assert_eq!(mailbox.capacity(), 4);
    assert_eq!(mailbox.path(), "a");
}

#[test]
fn test_block_push_waits_for_room() {
    let mut a = MpscMailbox::new(1, "a".to_string());
    let mut b = SpscMailbox::new(1, "b".to_string());
    let mut c = SpscRingbufMailbox::new(1, "c".to_string());
    assert_eq!(block_step(&a), BlockStep::Push);
    a.push(1, BackpressureStrategy::Block).unwrap();
    b.push(1, BackpressureStrategy::Block).unwrap();
    c.push(1, BackpressureStrategy::Block).unwrap();
    assert_eq!(block_step(&a), BlockStep::Wait);
    assert_eq!(block_step(&b), BlockStep::Wait);
    assert_eq!(block_step(&c), BlockStep::Wait);

    // A consumer takes a message: the waiting push goes ahead and comes last.
    assert_eq!(c.pop(), Some(1));
    assert_eq!(block_step(&c), BlockStep::Push);
    c.push(2, BackpressureStrategy::Block).unwrap();
    assert_eq!(c.pop(), Some(2));

    b.close();
    assert_eq!(block_step(&b), BlockStep::Closed);
    assert!(matches!(b.push(2, BackpressureStrategy::Block), Err(MailboxError::Closed)));
    assert_eq!(a.bound(), 1);
    assert!(!a.is_shut());
}
