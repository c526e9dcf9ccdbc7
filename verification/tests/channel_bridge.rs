//! Lifecycle tests of the channel bridge: configuration, lazy queue
//! creation, the caller-side operations and teardown.

use gsark::channel::{Channel, ChannelBuilder, ChannelError, EnsureAction, OpenOutcome, SendOutcome};
use gsark::mailbox::TakeOutcome;
use gsark::message::Message;
use gsark::send::ForwardStep;

/// A stand-in broker client handle; the channel never looks inside it.
type Client = u32;

fn configured_channel(topic: &str) -> Channel<Client> {
    let mut ch: Channel<Client> = Channel::new();
    let needs_client = ChannelBuilder::new(topic.to_string()).build(&mut ch);
    assert!(needs_client);
    assert!(ch.configure_complete(Some(7)).is_ok());
    ch
}

#[test]
fn second_configure_topic_wins() {
    let mut ch: Channel<Client> = Channel::new();
    let needs_client = ChannelBuilder::new("frames".to_string()).build(&mut ch);
    assert!(needs_client);
    assert!(ch.configure_complete(Some(7)).is_ok());

    // Reconfigure with a different topic before any queue is built: the
    // client must not be reconnected, and both directions must open their
    // handle for the newest topic.
    let needs_client = ChannelBuilder::new("frames-b".to_string())
        .otlp(true)
        .build(&mut ch);
    assert!(!needs_client);

    match ch.ensure_recv() {
        EnsureAction::Open(topic) => assert_eq!(topic, "frames-b"),
        _ => panic!("expected a subscribe action"),
    }
    match ch.ensure_send() {
        EnsureAction::Open(topic) => assert_eq!(topic, "frames-b"),
        _ => panic!("expected a publish action"),
    }
}

#[test]
fn ensure_recv_opens_only_once() {
    let mut ch = configured_channel("frames");

    // First caller: the empty slot decides a subscribe.
    match ch.ensure_recv() {
        EnsureAction::Open(topic) => assert_eq!(topic, "frames"),
        _ => panic!("expected a subscribe action"),
    }
    assert!(ch.ensure_recv_complete(OpenOutcome::Opened).is_ok());

    // Second caller: the filled slot is reused, no further handle opens.
    assert!(matches!(ch.ensure_recv(), EnsureAction::Ready));
    assert!(matches!(ch.ensure_recv(), EnsureAction::Ready));
}

#[test]
fn ensure_before_configure_signals_not_configured() {
    let ch: Channel<Client> = Channel::new();
    assert!(matches!(ch.ensure_recv(), EnsureAction::NotConfigured));
    assert!(matches!(ch.ensure_send(), EnsureAction::NotConfigured));
}

#[test]
fn connect_failure_keeps_no_state_and_is_retryable() {
    let mut ch: Channel<Client> = Channel::new();
    ChannelBuilder::new("frames".to_string()).build(&mut ch);

    assert_eq!(
        ch.configure_complete(None),
        Err(ChannelError::ConnectionFailed)
    );
    // Nothing was retained: the queues are still unreachable...
    assert!(matches!(ch.ensure_recv(), EnsureAction::NotConfigured));
    // ...and a retry may succeed.
    assert!(ch.configure_complete(Some(7)).is_ok());
    assert!(matches!(ch.ensure_recv(), EnsureAction::Open(_)));
}

#[test]
fn subscribe_failure_leaves_slot_retryable() {
    let mut ch = configured_channel("frames");

    // The broker rejects the subscribe: QueueInitFailed, slot stays empty.
    assert_eq!(
        ch.ensure_recv_complete(OpenOutcome::Rejected),
        Err(ChannelError::QueueInitFailed)
    );
    assert!(matches!(ch.ensure_recv(), EnsureAction::Open(_)));

    // After the broker recovers the retry installs the queue.
    assert!(ch.ensure_recv_complete(OpenOutcome::Opened).is_ok());
    assert!(matches!(ch.ensure_recv(), EnsureAction::Ready));
}

#[test]
fn bad_topic_fails_queue_init() {
    let mut ch = configured_channel("not a topic");
    assert_eq!(
        ch.ensure_send_complete(OpenOutcome::TopicInvalid),
        Err(ChannelError::QueueInitFailed)
    );
    assert!(matches!(ch.ensure_send(), EnsureAction::Open(_)));
}

#[test]
fn recv_without_ensure_returns_no_data() {
    // Configured, but `ensure_recv` never invoked: recv reports the end of
    // the stream immediately — no data, not an error, no blocking.
    let mut ch = configured_channel("frames");
    assert!(matches!(ch.recv(), TakeOutcome::Ended));
}

#[test]
fn send_without_queue_is_end_of_stream() {
    let mut ch = configured_channel("frames");
    let m = Message::new("000000.jpg".to_string(), bytes::Bytes::from(vec![1u8, 2, 3]));
    match ch.send(m) {
        SendOutcome::Unavailable(back) => {
            // The message comes back untouched.
            assert_eq!(back.into_payload(), bytes::Bytes::from(vec![1u8, 2, 3]));
        }
        _ => panic!("expected sending to be unavailable"),
    }
}

#[test]
fn stop_when_never_started_is_a_no_op() {
    let mut ch: Channel<Client> = Channel::new();
    let actions = ch.stop();
    assert!(!actions.stop_recv);
    assert!(!actions.stop_send);
}

#[test]
fn stop_twice_is_idempotent() {
    let mut ch = configured_channel("frames");
    assert!(ch.ensure_recv_complete(OpenOutcome::Opened).is_ok());
    assert!(ch.ensure_send_complete(OpenOutcome::Opened).is_ok());

    let first = ch.stop();
    assert!(first.stop_recv);
    assert!(first.stop_send);

    let second = ch.stop();
    assert!(!second.stop_recv);
    assert!(!second.stop_send);

    // After stop the channel is back to "never started".
    assert!(matches!(ch.ensure_recv(), EnsureAction::NotConfigured));
    assert!(matches!(ch.recv(), TakeOutcome::Ended));
}

#[test]
fn three_frames_forwarded_in_order_then_stop() {
    // Start with topic "frames", send three image messages, then stop: all
    // three reach the publish-handle, in order, before the task is ended.
    let mut ch = configured_channel("frames");
    assert!(ch.ensure_send_complete(OpenOutcome::Opened).is_ok());

    let payloads: Vec<bytes::Bytes> = vec![
        bytes::Bytes::from(vec![1u8]),
        bytes::Bytes::from(vec![2u8]),
        bytes::Bytes::from(vec![3u8]),
    ];
    let mut published: Vec<bytes::Bytes> = Vec::new();

    for (i, payload) in payloads.iter().enumerate() {
        let m = Message::new(gsark::frame::frame_key(i as u64), payload.clone());
        match ch.send(m) {
            SendOutcome::Accepted => {}
            _ => panic!("the mailbox had room; the send must be accepted"),
        }
        // The background task keeps draining: pump one forward per send so
        // the bounded mailbox never fills.
        match ch.send_queue.as_mut().unwrap().next_to_forward() {
            ForwardStep::Forward(out) => published.push(out.into_payload()),
            _ => panic!("a pending message must be forwarded"),
        }
    }

    assert_eq!(published, payloads);
    let actions = ch.stop();
    assert!(actions.stop_send);
    assert!(!actions.stop_recv);
}
