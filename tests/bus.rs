use debot_core::bus::{BusError, MessageBus};
use debot_core::messages::{InboundMessage, Metadata, OutboundMessage};

fn inbound(content: &str) -> InboundMessage {
    let mut meta = Metadata::new();
    meta.insert("k".to_string(), serde_json::Value::from(7));
    InboundMessage::new(
        "telegram".to_string(),
        "u1".to_string(),
        "c9".to_string(),
        content.to_string(),
        Some(1_700_000_000_000),
        Some(vec!["a.png".to_string()]),
        Some(meta),
    )
}

#[test]
fn publish_then_consume_returns_same_message() {
    let mut bus = MessageBus::new();
    let m = inbound("hello");
    assert_eq!(bus.publish_inbound(m.clone()), Ok(()));
    let got = bus.consume_inbound().expect("a message");
    assert_eq!(got, m);
    assert_eq!(bus.inbound_size(), 0);
}

#[test]
fn pending_count_after_publishes_and_consumes() {
    let mut bus = MessageBus::new();
    for i in 0..5 {
        bus.publish_inbound(inbound(&format!("m{}", i))).unwrap();
    }
    assert_eq!(bus.inbound_size(), 5);
    for i in 0..3 {
        let m = bus.consume_inbound().unwrap();
        assert_eq!(m.content, format!("m{}", i));
    }
    assert_eq!(bus.inbound_size(), 2);
    assert_eq!(bus.outbound_size(), 0);
}

#[test]
fn consume_on_empty_queue_gives_nothing() {
    let mut bus = MessageBus::new();
    assert!(bus.consume_inbound().is_none());
    assert!(bus.consume_outbound().is_none());
    assert_eq!(bus.inbound_size(), 0);
}

#[test]
fn outbound_queue_is_fifo_and_separate() {
    let mut bus = MessageBus::new();
    let a = OutboundMessage::new("cli".into(), "1".into(), "first".into(), None, None, None);
    let b = OutboundMessage::new("cli".into(), "1".into(), "second".into(), Some("r".into()), None, None);
    bus.publish_outbound(a.clone()).unwrap();
    bus.publish_outbound(b.clone()).unwrap();
    assert_eq!(bus.outbound_size(), 2);
    assert_eq!(bus.inbound_size(), 0);
    assert_eq!(bus.consume_outbound().unwrap(), a);
    assert_eq!(bus.consume_outbound().unwrap(), b);
    assert!(bus.consume_inbound().is_none());
}

#[test]
fn stop_keeps_queues() {
    let mut bus = MessageBus::new();
    bus.publish_inbound(inbound("x")).unwrap();
    bus.stop();
    assert!(!bus.is_running());
    assert_eq!(bus.inbound_size(), 1);
}

#[test]
fn bus_repr_names_counts() {
    let mut bus = MessageBus::new();
    bus.publish_inbound(inbound("x")).unwrap();
    assert_eq!(bus.repr(), "MessageBus(inbound_size=1, outbound_size=0)");
}

#[test]
fn bus_error_is_queue_closed() {
    assert_eq!(BusError::QueueClosed, BusError::QueueClosed);
}

#[test]
fn session_key_joins_channel_and_chat() {
    assert_eq!(inbound("x").session_key(), "telegram:c9");
}

#[test]
fn inbound_defaults() {
    let m = InboundMessage::new("c".into(), "s".into(), "t".into(), "x".into(), None, None, None);
    assert!(m.timestamp_ms > 1_600_000_000_000);
    assert!(m.media.is_empty());
    assert!(m.metadata().is_empty());
}

#[test]
fn set_metadata_replaces_mapping() {
    let mut m = inbound("x");
    let mut meta = Metadata::new();
    meta.insert("z".to_string(), serde_json::Value::from("v"));
    m.set_metadata(meta.clone());
    assert_eq!(m.metadata(), &meta);
    assert_eq!(m.content, "x");
}

#[test]
fn message_repr_quotes_fields() {
    let m = InboundMessage::new("c".into(), "s".into(), "t".into(), "say \"hi\"".into(), Some(0), None, None);
    assert_eq!(
        m.repr(),
        "InboundMessage(channel=\"c\", sender_id=\"s\", chat_id=\"t\", content=\"say \\\"hi\\\"\")"
    );
    let o = OutboundMessage::new("c".into(), "t".into(), "ok".into(), None, None, None);
    assert_eq!(o.repr(), "OutboundMessage(channel=\"c\", chat_id=\"t\", content=\"ok\")");
}

#[test]
fn outbound_defaults_and_publish_succeeds() {
    let mut bus = MessageBus::new();
    let o = OutboundMessage::new("c".into(), "t".into(), "x".into(), None, None, None);
    assert!(o.metadata().is_empty());
    assert!(o.media.is_empty());
    for _ in 0..4 {
        assert_eq!(bus.publish_outbound(o.clone()), Ok(()));
    }
    bus.consume_outbound().unwrap();
    assert_eq!(bus.outbound_size(), 3);
}
