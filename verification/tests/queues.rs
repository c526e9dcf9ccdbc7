//! Tests of the two directional queues and their mailbox: order
//! preservation on the send path, drop-under-backpressure on the receive
//! path, and the close/teardown behaviour of both.

use gsark::mailbox::{OfferOutcome, TakeOutcome};
use gsark::message::Message;
use gsark::recv::{BrokerEvent, RecvQueue, TaskFlow};
use gsark::send::{ForwardStep, SendQueue};

fn msg(tag: u8) -> Message {
    Message::new(format!("{tag}.jpg"), bytes::Bytes::from(vec![tag]))
}

fn payload_of(m: Message) -> u8 {
    m.into_payload()[0]
}

#[test]
fn send_path_preserves_order() {
    // Three messages submitted with no backpressure reach the
    // publish-handle in submission order.
    let mut q = SendQueue::new("frames".to_string(), 3);
    for tag in [1u8, 2, 3] {
        assert!(matches!(q.send(msg(tag)), OfferOutcome::Accepted));
    }
    let mut out: Vec<u8> = Vec::new();
    loop {
        match q.next_to_forward() {
            ForwardStep::Forward(m) => out.push(payload_of(m)),
            ForwardStep::Idle => break,
            ForwardStep::Ended => panic!("the queue was not closed"),
        }
    }
    assert_eq!(out, vec![1, 2, 3]);
}

#[test]
fn send_path_pushes_back_when_full() {
    // A full send mailbox hands the message back instead of dropping it;
    // once the task drains, the retry is accepted and order still holds.
    let mut q = SendQueue::new("frames".to_string(), 2);
    assert!(matches!(q.send(msg(1)), OfferOutcome::Accepted));
    assert!(matches!(q.send(msg(2)), OfferOutcome::Accepted));
    let back = match q.send(msg(3)) {
        OfferOutcome::Full(m) => m,
        _ => panic!("the mailbox was full; the message must come back"),
    };
    assert_eq!(payload_of(back), 3);

    match q.next_to_forward() {
        ForwardStep::Forward(m) => assert_eq!(payload_of(m), 1),
        _ => panic!("a pending message must be forwarded"),
    }
    assert!(matches!(q.send(msg(3)), OfferOutcome::Accepted));

    let mut rest: Vec<u8> = Vec::new();
    while let ForwardStep::Forward(m) = q.next_to_forward() {
        rest.push(payload_of(m));
    }
    assert_eq!(rest, vec![2, 3]);
}

#[test]
fn send_path_refuses_after_close() {
    let mut q = SendQueue::new("frames".to_string(), 2);
    q.close();
    match q.send(msg(9)) {
        OfferOutcome::Refused(m) => assert_eq!(payload_of(m), 9),
        _ => panic!("a closed mailbox must refuse the message"),
    }
    assert!(matches!(q.next_to_forward(), ForwardStep::Ended));
}

#[test]
fn recv_path_drops_newest_when_full_without_reordering() {
    // Capacity K = 4 and K + 1 messages faster than the consumer drains:
    // the consumer sees at most K, and what it sees keeps delivery order.
    let mut q = RecvQueue::new("frames".to_string(), 4);
    for tag in [1u8, 2, 3, 4, 5] {
        assert!(matches!(
            q.on_broker_event(BrokerEvent::Data(msg(tag))),
            TaskFlow::Continue
        ));
    }
    let mut seen: Vec<u8> = Vec::new();
    while let TakeOutcome::Item(m) = q.poll() {
        seen.push(payload_of(m));
    }
    assert_eq!(seen, vec![1, 2, 3, 4]);
    // The stream did not end; the consumer would simply wait for more.
    assert!(matches!(q.poll(), TakeOutcome::Pending));
}

#[test]
fn recv_path_interleaved_drain_loses_nothing() {
    // When the consumer keeps up, nothing is dropped.
    let mut q = RecvQueue::new("frames".to_string(), 4);
    let mut seen: Vec<u8> = Vec::new();
    for tag in [1u8, 2, 3, 4, 5, 6] {
        q.on_broker_event(BrokerEvent::Data(msg(tag)));
        if let TakeOutcome::Item(m) = q.poll() {
            seen.push(payload_of(m));
        }
    }
    assert_eq!(seen, vec![1, 2, 3, 4, 5, 6]);
}

#[test]
fn recv_path_end_of_stream_drains_then_ends() {
    let mut q = RecvQueue::new("frames".to_string(), 4);
    q.on_broker_event(BrokerEvent::Data(msg(1)));
    q.on_broker_event(BrokerEvent::Data(msg(2)));
    assert!(matches!(
        q.on_broker_event(BrokerEvent::EndOfStream),
        TaskFlow::Stop
    ));
    // Pending messages stay readable; then the reader learns the stream is
    // over.
    assert!(matches!(q.poll(), TakeOutcome::Item(_)));
    assert!(matches!(q.poll(), TakeOutcome::Item(_)));
    assert!(matches!(q.poll(), TakeOutcome::Ended));
}

#[test]
fn recv_path_transient_error_keeps_the_task_alive() {
    let mut q = RecvQueue::new("frames".to_string(), 4);
    assert!(matches!(
        q.on_broker_event(BrokerEvent::TransientError),
        TaskFlow::Continue
    ));
    assert!(matches!(
        q.on_broker_event(BrokerEvent::Data(msg(1))),
        TaskFlow::Continue
    ));
    match q.poll() {
        TakeOutcome::Item(m) => assert_eq!(payload_of(m), 1),
        _ => panic!("the message after the error must still arrive"),
    }
}

#[test]
fn recv_path_consumer_close_stops_the_task() {
    let mut q = RecvQueue::new("frames".to_string(), 4);
    q.close();
    // The forwarding task learns of the close at its next push and stops.
    assert!(matches!(
        q.on_broker_event(BrokerEvent::Data(msg(1))),
        TaskFlow::Stop
    ));
    assert!(matches!(q.poll(), TakeOutcome::Ended));
}
