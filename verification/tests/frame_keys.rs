//! Tests of frame-key formatting, property storage and the message type.

use gsark::args::{Args, PropertyValue};
use gsark::channel::ChannelBuilder;
use gsark::frame::{frame_key, FrameCounter};
use gsark::message::Message;

#[test]
fn frame_keys_are_zero_padded_to_six_digits() {
    assert_eq!(frame_key(0), "000000.jpg");
    assert_eq!(frame_key(7), "000007.jpg");
    assert_eq!(frame_key(42), "000042.jpg");
    assert_eq!(frame_key(999), "000999.jpg");
    assert_eq!(frame_key(100000), "100000.jpg");
    assert_eq!(frame_key(999999), "999999.jpg");
}

#[test]
fn frame_keys_grow_past_six_digits() {
    assert_eq!(frame_key(1000000), "1000000.jpg");
    assert_eq!(frame_key(1234567), "1234567.jpg");
    assert_eq!(frame_key(u64::MAX), "18446744073709551615.jpg");
}

#[test]
fn frame_counter_hands_out_consecutive_keys() {
    let mut counter = FrameCounter::new();
    assert_eq!(counter.take_key(), "000000.jpg");
    assert_eq!(counter.take_key(), "000001.jpg");
    assert_eq!(counter.take_key(), "000002.jpg");
    assert_eq!(counter.next, 3);
}

#[test]
fn args_default_is_unset_model_without_telemetry() {
    let args = Args::default();
    assert_eq!(args.model(), "");
    assert!(!args.otlp());
    assert_eq!(Args::default_model(), "");
    assert!(!Args::default_otlp());
}

#[test]
fn properties_read_and_write_by_name() {
    let mut args = Args::default();
    args.set_property(&"model".to_string(), PropertyValue::Model("frames".to_string()));
    args.set_property(&"otlp".to_string(), PropertyValue::Otlp(true));
    assert_eq!(args.model(), "frames");
    assert!(args.otlp());

    match args.property(&"model".to_string()) {
        PropertyValue::Model(m) => assert_eq!(m, "frames"),
        _ => panic!("reading \"model\" must yield the model"),
    }
    match args.property(&"otlp".to_string()) {
        PropertyValue::Otlp(b) => assert!(b),
        _ => panic!("reading \"otlp\" must yield the toggle"),
    }
}

#[test]
fn builder_carries_model_and_telemetry() {
    let b = ChannelBuilder::new("frames".to_string());
    assert_eq!(b.model, "frames");
    assert!(!b.otlp);
    let b = b.otlp(true);
    assert_eq!(b.model, "frames");
    assert!(b.otlp);
}

#[test]
fn message_carries_key_and_payload_untouched() {
    let payload = bytes::Bytes::from(vec![9u8, 8, 7]);
    let m = Message::new("000123.jpg".to_string(), payload.clone());
    assert_eq!(m.key(), "000123.jpg");
    assert_eq!(m.into_payload(), payload);
}
