use matiane::codec::ByteOrder;
use matiane::codec::SwayPacketCodec;
use matiane::codec::SwayPacketRaw;
use matiane::command::CommandTypeError;
use matiane::command::EventType;
use matiane::connection::SubscribeError;
use matiane::connection::check_event_packet;
use matiane::connection::subscribe_ack;
use matiane::connection::subscribe_packet;
use matiane::pipeline::normalize_window;
use matiane::reply::CommandOutcome;
use matiane::reply::Container;
use matiane::reply::Rect;
use matiane::reply::WindowChange;
use matiane::reply::WindowEvent;

#[test]
fn subscribe_packet_test() {
    let packet = EventType::Window;

    subscribe_packet(packet).unwrap();
}

#[test]
fn connection_subscribe_packet_test() {
    let packet = EventType::Window;

    subscribe_packet(packet).unwrap();
}

#[test]
fn subscribe_packet_shape() {
    let packet = subscribe_packet(EventType::Window).unwrap();
    assert_eq!(packet.packet_type, 2);
    assert_eq!(packet.payload, b"[\"window\"]".to_vec());
}

#[test]
fn subscribe_ack_success() {
    let outcome = CommandOutcome { success: true, error: None };
    assert!(subscribe_ack(2, Some(outcome)).is_ok());
}

#[test]
fn subscribe_ack_wrong_type() {
    let outcome = CommandOutcome { success: true, error: None };
    let out = subscribe_ack(0x8000_0003, Some(outcome));
    assert!(matches!(out, Err(SubscribeError::IncorrectResponseType)));
}

#[test]
fn subscribe_ack_bad_payload() {
    let out = subscribe_ack(2, None);
    assert!(matches!(out, Err(SubscribeError::BadPayload)));
}

#[test]
fn subscribe_ack_refused() {
    let outcome = CommandOutcome { success: false, error: Some("no such event".to_string()) };
    let out = subscribe_ack(2, Some(outcome));
    match out {
        Err(SubscribeError::SubscribeFailed(msg)) => {
            assert_eq!(msg.as_deref(), Some("no such event"));
        }
        other => panic!("expected SubscribeFailed, got {:?}", other),
    }
}

#[test]
fn event_packet_window() {
    let out = check_event_packet(0x8000_0003);
    assert!(matches!(out, Ok(EventType::Window)));
}

#[test]
fn event_packet_not_an_event() {
    let out = check_event_packet(2);
    assert!(matches!(out, Err(SubscribeError::NotAnEvent(2))));
}

#[test]
fn event_packet_unsupported() {
    let out = check_event_packet(0x8000_0000);
    assert!(matches!(out, Err(SubscribeError::UnsupportedEvent(0))));
    let out = check_event_packet(0x8000_0007);
    assert!(matches!(out, Err(SubscribeError::UnsupportedEvent(7))));
}

/// The whole handshake on concrete bytes: the client's subscribe frame,
/// a success acknowledgement, then one window event frame, normalized.
#[test]
fn subscribe_happy_path_model() {
    let order = ByteOrder::Little;
    let mut codec = SwayPacketCodec::new(order);

    // What the client sends: one frame asking for window events.
    let mut sent: Vec<u8> = Vec::new();
    let request = subscribe_packet(EventType::Window).unwrap();
    codec.encode(request, &mut sent).unwrap();
    let expected: Vec<u8> = vec![
        b'i', b'3', b'-', b'i', b'p', b'c', 10, 0, 0, 0, 2, 0, 0, 0, b'[', b'"', b'w', b'i',
        b'n', b'd', b'o', b'w', b'"', b']',
    ];
    assert_eq!(sent, expected);

    // What the server answers: an acknowledgement, then an event frame.
    let ack_payload = b"{\"success\":true}";
    let mut wire: Vec<u8> = Vec::new();
    codec
        .encode(SwayPacketRaw { packet_type: 2, payload: ack_payload.to_vec() }, &mut wire)
        .unwrap();
    let event_payload = b"{\"change\":\"focus\",...}";
    codec
        .encode(
            SwayPacketRaw { packet_type: 0x8000_0003, payload: event_payload.to_vec() },
            &mut wire,
        )
        .unwrap();

    let ack = codec.decode(&mut wire).unwrap().expect("must decode the acknowledgement");
    let outcome = CommandOutcome { success: true, error: None };
    subscribe_ack(ack.packet_type, Some(outcome)).expect("the subscription must stand");

    let event_frame = codec.decode(&mut wire).unwrap().expect("must decode the event frame");
    assert_eq!(event_frame.payload, event_payload.to_vec());
    assert!(wire.is_empty());
    let event_type = check_event_packet(event_frame.packet_type).unwrap();
    assert_eq!(event_type, EventType::Window);

    // The payload, parsed by the unverified layer, normalizes as the
    // pipeline records it.
    let window = WindowEvent {
        change: WindowChange::Focus,
        container: Container {
            id: 10,
            name: Some("Alacritty - dev-1 // 2 - zsh // 1 - sway-matiane/src".to_string()),
            app_id: Some("Alacritty".to_string()),
            pid: Some(1775),
            window_properties: None,
            rect: Rect { x: 0, y: 2185, width: 2880, height: 1775 },
        },
    };
    let focused = normalize_window(window);
    assert_eq!(focused.title, "Alacritty - dev-1 // 2 - zsh // 1 - sway-matiane/src");
    assert_eq!(focused.id, "Alacritty");
    assert_eq!(focused.pid, 1775);
}

#[test]
fn event_packet_unknown_code() {
    let out = check_event_packet(0x8000_0063);
    assert!(matches!(
        out,
        Err(SubscribeError::BadCommand(CommandTypeError::IncorrectEventType(0x63)))
    ));
}
