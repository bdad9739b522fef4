use zenoh_plugin_mavlink::mavlink_connection::{
    ConnectionError, HandlerAction, HandlerEvent, MAVLinkConnection,
};
use zenoh_plugin_mavlink::protocol::Protocol;
use zenoh_plugin_mavlink::relay::{Relay, RelayRead};
use zenoh_plugin_mavlink::supervisor::{spawn_plan, Supervisor};

const SERIAL: &str = "serial:/dev/ttyUSB0:115200";
const UDP: &str = "udpin:127.0.0.1:14550";

#[test]
fn own_origin_is_discarded() {
    let conn = MAVLinkConnection::new(SERIAL.to_owned());
    let own = Protocol::new_with_timestamp(5, SERIAL, vec![1, 2]);
    match conn.handle_event(HandlerEvent::EnvelopeReceived(own), 6) {
        HandlerAction::DiscardEcho => {}
        other => panic!("an echo of this handler's own publish is discarded, got {:?}", other),
    }
}

#[test]
fn foreign_origin_is_written() {
    let conn = MAVLinkConnection::new(SERIAL.to_owned());
    let foreign = Protocol::new_with_timestamp(5, UDP, vec![7, 8, 9]);
    match conn.handle_event(HandlerEvent::EnvelopeReceived(foreign), 6) {
        HandlerAction::WriteFrame(bytes) => assert_eq!(bytes, vec![7, 8, 9]),
        other => panic!("a foreign envelope is written to the transport, got {:?}", other),
    }
}

#[test]
fn received_frame_is_published_with_own_origin() {
    let conn = MAVLinkConnection::new(SERIAL.to_owned());
    match conn.handle_event(HandlerEvent::FrameReceived(vec![0xFD, 0, 0]), 42) {
        HandlerAction::PublishEnvelope(p) => {
            assert_eq!(p.origin, SERIAL);
            assert_eq!(p.raw_frame, vec![0xFD, 0, 0]);
            assert_eq!(p.timestamp, 42);
        }
        other => panic!("a received frame is published, got {:?}", other),
    }
}

#[test]
fn read_failure_is_terminal() {
    let conn = MAVLinkConnection::new(SERIAL.to_owned());
    match conn.handle_event(HandlerEvent::TransportReadFailed, 0) {
        HandlerAction::Stop(e) => assert_eq!(e, ConnectionError::Read),
        other => panic!("a transport read failure ends the handler, got {:?}", other),
    }
}

#[test]
fn write_failure_is_not_terminal() {
    let conn = MAVLinkConnection::new(SERIAL.to_owned());
    assert!(matches!(
        conn.handle_event(HandlerEvent::TransportWriteFailed, 0),
        HandlerAction::Proceed
    ));
}

#[test]
fn relay_lag_is_noted_and_loop_continues() {
    let conn = MAVLinkConnection::new(SERIAL.to_owned());
    match conn.handle_event(HandlerEvent::RelayLagged(3), 0) {
        HandlerAction::NoteLag(n) => assert_eq!(n, 3),
        other => panic!("a lag is noted, got {:?}", other),
    }
    assert!(matches!(
        conn.handle_event(HandlerEvent::RelayClosed, 0),
        HandlerAction::NoteRelayClosed
    ));
}

#[test]
fn serial_frame_reaches_udp_but_never_reflects() {
    // Two endpoints; a frame arriving on the serial endpoint is written to
    // the UDP endpoint's transport and never back to the serial one.
    let serial = MAVLinkConnection::new(SERIAL.to_owned());
    let udp = MAVLinkConnection::new(UDP.to_owned());
    let mut relay = Relay::new(1024);
    let mut serial_cursor = relay.subscribe();
    let mut udp_cursor = relay.subscribe();

    let frame_msg_id_zero = vec![0xFD, 9, 0, 0, 1, 1, 0, 0, 0];
    let action = serial.handle_event(HandlerEvent::FrameReceived(frame_msg_id_zero.clone()), 100);
    match action {
        HandlerAction::PublishEnvelope(p) => relay.publish(p),
        other => panic!("the serial handler publishes the frame, got {:?}", other),
    }

    match relay.try_next(&mut udp_cursor) {
        RelayRead::Envelope(p) => match udp.handle_event(HandlerEvent::EnvelopeReceived(p), 101) {
            HandlerAction::WriteFrame(bytes) => assert_eq!(bytes, frame_msg_id_zero),
            other => panic!("the UDP handler writes the frame, got {:?}", other),
        },
        other => panic!("the UDP cursor observes the envelope, got {:?}", other),
    }

    match relay.try_next(&mut serial_cursor) {
        RelayRead::Envelope(p) => {
            match serial.handle_event(HandlerEvent::EnvelopeReceived(p), 102) {
                HandlerAction::DiscardEcho => {}
                other => panic!("the serial handler never writes its own frame back, got {:?}", other),
            }
        }
        other => panic!("the serial cursor observes the envelope, got {:?}", other),
    }
}

#[test]
fn one_handler_per_descriptor_with_distinct_cursors() {
    // N endpoint descriptors: exactly N handler slots, each with its own
    // relay cursor, all carrying distinct identifiers.
    let conns = vec![
        MAVLinkConnection::new(SERIAL.to_owned()),
        MAVLinkConnection::new(UDP.to_owned()),
        MAVLinkConnection::new("tcpout:10.0.0.1:5760".to_owned()),
    ];
    let mut relay = Relay::new(16);
    let cursors = spawn_plan(&conns, &mut relay);
    assert_eq!(cursors.len(), conns.len());
    for i in 0..cursors.len() {
        for j in 0..cursors.len() {
            if i != j {
                assert_ne!(cursors[i].id(), cursors[j].id());
            }
        }
        assert_eq!(cursors[i].position(), 0);
    }
}

#[test]
fn supervisor_sees_forwarding_end_only_after_last_handler() {
    let mut supervisor = Supervisor::new(2);
    assert!(!supervisor.forwarding_ended());
    assert!(!supervisor.handler_exited());
    assert_eq!(supervisor.remaining(), 1);
    assert!(!supervisor.forwarding_ended());
    assert!(supervisor.handler_exited());
    assert!(supervisor.forwarding_ended());
    assert_eq!(supervisor.remaining(), 0);
}
