use zenoh_plugin_mavlink::protocol::Protocol;
use zenoh_plugin_mavlink::relay::{Relay, RelayRead};

fn envelope(origin: &str, bytes: &[u8], ts: u64) -> Protocol {
    Protocol::new_with_timestamp(ts, origin, bytes.to_vec())
}

#[test]
fn publish_and_read_in_order() {
    let mut relay = Relay::new(4);
    let mut cursor = relay.subscribe();
    relay.publish(envelope("serial:/dev/ttyUSB0:115200", &[1, 2, 3], 10));
    relay.publish(envelope("udpin:127.0.0.1:14550", &[4, 5], 20));

    match relay.try_next(&mut cursor) {
        RelayRead::Envelope(p) => {
            assert_eq!(p.origin, "serial:/dev/ttyUSB0:115200");
            assert_eq!(p.raw_frame, vec![1, 2, 3]);
            assert_eq!(p.timestamp, 10);
        }
        other => panic!("expected first envelope, got {:?}", other),
    }
    match relay.try_next(&mut cursor) {
        RelayRead::Envelope(p) => {
            assert_eq!(p.origin, "udpin:127.0.0.1:14550");
            assert_eq!(p.raw_frame, vec![4, 5]);
            assert_eq!(p.timestamp, 20);
        }
        other => panic!("expected second envelope, got {:?}", other),
    }
    assert!(matches!(relay.try_next(&mut cursor), RelayRead::Pending));
}

#[test]
fn subscriber_only_sees_later_publishes() {
    let mut relay = Relay::new(4);
    relay.publish(envelope("a", &[1], 1));
    let mut cursor = relay.subscribe();
    assert!(matches!(relay.try_next(&mut cursor), RelayRead::Pending));
    relay.publish(envelope("b", &[2], 2));
    match relay.try_next(&mut cursor) {
        RelayRead::Envelope(p) => assert_eq!(p.origin, "b"),
        other => panic!("expected the later envelope, got {:?}", other),
    }
}

#[test]
fn eviction_after_capacity_plus_one_publishes() {
    // Capacity C; publishing C+1 envelopes before any read evicts the
    // first, and a consumer that started at the beginning gets a lag
    // notification rather than the evicted envelope.
    let mut relay = Relay::new(3);
    let mut cursor = relay.subscribe();
    for i in 0..4u64 {
        relay.publish(envelope("a", &[i as u8], i));
    }
    assert_eq!(relay.buffered_len(), 3);
    assert_eq!(relay.total_published(), 4);
    match relay.try_next(&mut cursor) {
        RelayRead::Lagged(n) => assert_eq!(n, 1),
        other => panic!("expected a lag notification, got {:?}", other),
    }
    for expected in 1..4u8 {
        match relay.try_next(&mut cursor) {
            RelayRead::Envelope(p) => assert_eq!(p.raw_frame, vec![expected]),
            other => panic!("expected envelope {}, got {:?}", expected, other),
        }
    }
    assert!(matches!(relay.try_next(&mut cursor), RelayRead::Pending));
}

#[test]
fn lag_resynchronizes_to_oldest_retained() {
    // Capacity 2; E1, E2, E3 published with no reads in between: E1 is
    // evicted, the consumer is told it lost one entry and resumes from the
    // relay's oldest retained entry.
    let mut relay = Relay::new(2);
    let mut cursor = relay.subscribe();
    relay.publish(envelope("a", &[1], 1));
    relay.publish(envelope("a", &[2], 2));
    relay.publish(envelope("a", &[3], 3));
    match relay.try_next(&mut cursor) {
        RelayRead::Lagged(n) => assert_eq!(n, 1),
        other => panic!("expected a lag notification, got {:?}", other),
    }
    match relay.try_next(&mut cursor) {
        RelayRead::Envelope(p) => assert_eq!(p.raw_frame, vec![2]),
        other => panic!("expected the oldest retained envelope, got {:?}", other),
    }
    match relay.try_next(&mut cursor) {
        RelayRead::Envelope(p) => assert_eq!(p.raw_frame, vec![3]),
        other => panic!("expected the newest envelope, got {:?}", other),
    }
    assert!(matches!(relay.try_next(&mut cursor), RelayRead::Pending));
}

#[test]
fn fan_out_reaches_every_cursor() {
    // One publish is observed by every subscriber, absent eviction.
    let mut relay = Relay::new(8);
    let mut handler_a = relay.subscribe();
    let mut handler_b = relay.subscribe();
    let mut egress = relay.subscribe();
    relay.publish(envelope("serial:/dev/ttyUSB0:115200", &[9, 9], 77));
    for cursor in [&mut handler_a, &mut handler_b, &mut egress] {
        match relay.try_next(cursor) {
            RelayRead::Envelope(p) => {
                assert_eq!(p.origin, "serial:/dev/ttyUSB0:115200");
                assert_eq!(p.raw_frame, vec![9, 9]);
            }
            other => panic!("every cursor observes the envelope, got {:?}", other),
        }
    }
}

#[test]
fn close_drains_then_reports_closed() {
    let mut relay = Relay::new(2);
    let mut cursor = relay.subscribe();
    relay.publish(envelope("a", &[1], 1));
    assert!(!relay.is_closed());
    relay.close();
    assert!(relay.is_closed());
    assert!(matches!(relay.try_next(&mut cursor), RelayRead::Envelope(_)));
    assert!(matches!(relay.try_next(&mut cursor), RelayRead::Closed));
}

#[test]
fn cursors_get_distinct_ids() {
    let mut relay = Relay::new(2);
    let a = relay.subscribe();
    let b = relay.subscribe();
    let c = relay.subscribe();
    assert_ne!(a.id(), b.id());
    assert_ne!(a.id(), c.id());
    assert_ne!(b.id(), c.id());
}

#[test]
fn capacity_one_keeps_only_the_newest() {
    let mut relay = Relay::new(1);
    let mut cursor = relay.subscribe();
    relay.publish(envelope("a", &[1], 1));
    relay.publish(envelope("a", &[2], 2));
    relay.publish(envelope("a", &[3], 3));
    match relay.try_next(&mut cursor) {
        RelayRead::Lagged(n) => assert_eq!(n, 2),
        other => panic!("expected a lag of two entries, got {:?}", other),
    }
    match relay.try_next(&mut cursor) {
        RelayRead::Envelope(p) => assert_eq!(p.raw_frame, vec![3]),
        other => panic!("expected the newest envelope, got {:?}", other),
    }
}

#[test]
fn capacity_is_reported() {
    let relay = Relay::new(5);
    assert_eq!(relay.capacity(), 5);
    assert_eq!(relay.buffered_len(), 0);
    assert_eq!(relay.total_published(), 0);
}
