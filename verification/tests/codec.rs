use matiane::codec::ByteOrder;
use matiane::codec::SwayPacketCodec;
use matiane::codec::SwayPacketCodecError;
use matiane::codec::SwayPacketRaw;

fn word(order: ByteOrder, x: u32) -> Vec<u8> {
    let le = vec![
        (x & 0xff) as u8,
        ((x >> 8) & 0xff) as u8,
        ((x >> 16) & 0xff) as u8,
        ((x >> 24) & 0xff) as u8,
    ];
    match order {
        ByteOrder::Little => le,
        ByteOrder::Big => le.into_iter().rev().collect(),
    }
}

fn frame(order: ByteOrder, packet_type: u32, payload: &[u8]) -> Vec<u8> {
    let mut out: Vec<u8> = b"i3-ipc".to_vec();
    out.extend_from_slice(&word(order, payload.len() as u32));
    out.extend_from_slice(&word(order, packet_type));
    out.extend_from_slice(payload);
    out
}

#[test]
fn decode_normal() {
    for order in [ByteOrder::Little, ByteOrder::Big] {
        let payload: &[u8] = b"{}";
        let payload_type = 4u32; // GetTree
        let payload2: &[u8] = b"something_else";
        let payload2_type = 1u32; // GetWorkspaces

        let mut codec = SwayPacketCodec::new(order);
        let mut buf = frame(order, payload_type, payload);
        buf.extend_from_slice(&frame(order, payload2_type, payload2));

        let packet = codec.decode(&mut buf).unwrap().expect("We must get a packet.");
        assert_eq!(packet.packet_type, payload_type);
        assert_eq!(packet.payload, payload);

        let packet = codec.decode(&mut buf).unwrap().expect("We must get a packet.");
        assert_eq!(packet.packet_type, payload2_type);
        assert_eq!(packet.payload, payload2);

        assert!(buf.is_empty());
        assert!(codec.decode(&mut buf).unwrap().is_none());
    }
}

#[test]
fn decode_incomplete() {
    let mut codec = SwayPacketCodec::new(ByteOrder::Little);
    let mut buf = b"i3-ip".to_vec();
    let out = codec.decode(&mut buf);
    assert!(matches!(out, Ok(None)));
    assert_eq!(buf, b"i3-ip".to_vec());
}

#[test]
fn decode_incorrect_magic() {
    let mut codec = SwayPacketCodec::new(ByteOrder::Little);
    let mut buf = b"i3-ipx".to_vec();
    buf.extend_from_slice(b"12341234");
    let out = codec.decode(&mut buf);
    assert!(
        matches!(out, Err(SwayPacketCodecError::MagicIncorrect)),
        "Expected magic incorrect error, received: {:?}",
        out
    );
    assert!(buf.is_empty());
}

#[test]
fn decode_negative_payload_len() {
    for order in [ByteOrder::Little, ByteOrder::Big] {
        let mut codec = SwayPacketCodec::new(order);
        let mut buf: Vec<u8> = b"i3-ipc".to_vec();
        buf.extend_from_slice(&word(order, 0x8000_0001));
        buf.extend_from_slice(&word(order, 0));
        let out = codec.decode(&mut buf);
        assert!(matches!(out, Err(SwayPacketCodecError::PayloadLenIncorrect)));
        assert!(buf.is_empty());
    }
}

/// The decoder is cancel-safe: woken with a partial frame it consumes
/// nothing, and the same buffer continued later yields the whole frame.
#[test]
fn decode_cancel_continue() {
    let payload: &[u8] = b"{}";
    let payload_type = 1u32; // GetWorkspaces
    let order = ByteOrder::Little;

    let full = frame(order, payload_type, payload);
    let mut codec = SwayPacketCodec::new(order);

    for split in 0..full.len() {
        let mut buf = full[..split].to_vec();
        let out = codec.decode(&mut buf);
        assert!(matches!(out, Ok(None)), "Must not get a packet at split {}.", split);
        assert_eq!(buf, full[..split].to_vec());

        buf.extend_from_slice(&full[split..]);
        let again = codec.decode(&mut buf).unwrap().expect("We must get a packet.");
        assert_eq!(again.packet_type, payload_type);
        assert_eq!(again.payload, payload);
        assert!(buf.is_empty());
    }
}

#[test]
fn encode() {
    for order in [ByteOrder::Little, ByteOrder::Big] {
        let payload: &[u8] = b"{}";
        let payload_type = 10u32; // SendTick
        let payload2: &[u8] = b"something_else";
        let payload2_type = 101u32; // GetSeats

        let mut codec = SwayPacketCodec::new(order);
        let mut out: Vec<u8> = Vec::new();

        codec
            .encode(SwayPacketRaw { packet_type: payload_type, payload: payload.to_vec() }, &mut out)
            .expect("Must send the packet.");
        codec
            .encode(
                SwayPacketRaw { packet_type: payload2_type, payload: payload2.to_vec() },
                &mut out,
            )
            .expect("Must send the packet.");

        let mut expected = frame(order, payload_type, payload);
        expected.extend_from_slice(&frame(order, payload2_type, payload2));
        assert_eq!(out, expected);
    }
}

#[test]
fn encode_exact_little_endian_bytes() {
    let mut codec = SwayPacketCodec::new(ByteOrder::Little);
    let mut out: Vec<u8> = Vec::new();
    codec
        .encode(SwayPacketRaw { packet_type: 2, payload: b"[\"window\"]".to_vec() }, &mut out)
        .unwrap();
    let expected: Vec<u8> = vec![
        b'i', b'3', b'-', b'i', b'p', b'c', 10, 0, 0, 0, 2, 0, 0, 0, b'[', b'"', b'w', b'i', b'n',
        b'd', b'o', b'w', b'"', b']',
    ];
    assert_eq!(out, expected);
}

/// Frame round-trip on concrete values, in both byte orders.
#[test]
fn frame_round_trip() {
    for order in [ByteOrder::Little, ByteOrder::Big] {
        let mut codec = SwayPacketCodec::new(order);
        let payload: Vec<u8> = (0u16..300).map(|i| (i % 256) as u8).collect();
        let packet_type = 0x8000_0003u32;

        let mut buf: Vec<u8> = Vec::new();
        codec
            .encode(SwayPacketRaw { packet_type, payload: payload.clone() }, &mut buf)
            .unwrap();
        let packet = codec.decode(&mut buf).unwrap().expect("We must get a packet.");
        assert_eq!(packet.packet_type, packet_type);
        assert_eq!(packet.payload, payload);
        assert!(buf.is_empty());
    }
}
