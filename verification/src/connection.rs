//! The verified decisions of the subscription handshake and of the event
//! stream that follows it.
//!
//! Establishing a subscription is: send one `Subscribe` frame whose payload
//! names the event, read one acknowledgement frame, then treat every later
//! frame as an event.  The socket reads and writes, and the parsing of the
//! acknowledgement and window payloads, are the caller's part; every
//! decision taken on what came back is made here.

use crate::codec::EVENT_FLAG;
use crate::codec::SwayPacketCodecError;
use crate::codec::SwayPacketRaw;
use crate::command::CommandType;
use crate::command::CommandTypeError;
use crate::command::EventType;
use crate::command::event_type_code;
use crate::command::event_type_from;
use crate::reply::CommandOutcome;
use vstd::prelude::*;
use vstd::string::StrSliceExecFns;
use vstd::string::StringExecFns;
use vstd::utf8::encode_utf8;

verus! {

/// Why a subscription, or one event on a subscribed stream, failed.
#[derive(Clone, Debug)]
pub enum SubscribeError {
    /// The acknowledgement frame did not carry the `Subscribe` command code.
    IncorrectResponseType,
    /// The compositor refused the subscription, with its error message if
    /// it gave one.
    SubscribeFailed(Option<String>),
    /// A frame on the subscribed stream did not have the event flag set.
    NotAnEvent(u32),
    /// An event frame of a type other than the subscribed one.
    UnsupportedEvent(u32),
    /// The stream's framing was broken.
    TerriblePacket(SwayPacketCodecError),
    /// The stream ended before the acknowledgement.
    Closed,
    /// A payload did not parse as the expected shape.
    BadPayload,
    /// An event frame whose low bits name no known event type.
    BadCommand(CommandTypeError),
}

/// The payload of a subscribe request: a one-element list holding the
/// event's snake-case name.
pub open spec fn subscribe_payload_chars(event: EventType) -> Seq<char> {
    "[\""@ + event.name_chars() + "\"]"@
}

/// The subscribe request frame for an event type: packet type 2
/// (`Subscribe`), payload `["<name>"]` in UTF-8.
pub fn subscribe_packet(event: EventType) -> (r: Result<SwayPacketRaw, SubscribeError>)
    ensures
        r matches Ok(p) && p.packet_type == 2 && p.payload@ == encode_utf8(
            subscribe_payload_chars(event),
        ),
{
    let mut s = String::new();
    s.append("[\"");
    s.append(event.name());
    s.append("\"]");
    proof {
        assert(s@ =~= subscribe_payload_chars(event));
    }
    let payload = s.as_str().as_bytes_vec();
    let packet_type = CommandType::Subscribe.code();
    Ok(SwayPacketRaw { packet_type, payload })
}

/// Judges the acknowledgement frame: its packet type, and its payload as
/// the caller managed to parse it (`None` when it did not parse).
///
/// The subscription stands if and only if the frame echoes the `Subscribe`
/// command code and the payload parsed with `success` true.
pub fn subscribe_ack(packet_type: u32, parsed: Option<CommandOutcome>) -> (r: Result<
    (),
    SubscribeError,
>)
    ensures
        packet_type != 2 ==> r == Err::<(), SubscribeError>(SubscribeError::IncorrectResponseType),
        packet_type == 2 && parsed is None ==> r == Err::<(), SubscribeError>(
            SubscribeError::BadPayload,
        ),
        packet_type == 2 && (parsed matches Some(o) && o.success) ==> r == Ok::<
            (),
            SubscribeError,
        >(()),
        packet_type == 2 && (parsed matches Some(o) && !o.success) ==> (r matches Err(e) && e
            == SubscribeError::SubscribeFailed(parsed.unwrap().error)),
{
    if packet_type != 2 {
        return Err(SubscribeError::IncorrectResponseType);
    }
    match parsed {
        None => Err(SubscribeError::BadPayload),
        Some(outcome) => {
            if outcome.success {
                Ok(())
            } else {
                Err(SubscribeError::SubscribeFailed(outcome.error))
            }
        },
    }
}

/// Whether a packet type marks an event frame: its high bit is set.
pub open spec fn is_event_packet(t: u32) -> bool {
    t & 0x8000_0000u32 == 0x8000_0000u32
}

/// The event code of an event frame: the packet type with the flag cleared.
pub open spec fn event_code_of(t: u32) -> u32 {
    t ^ 0x8000_0000u32
}

/// Classifies a frame that arrived on a subscribed stream.
///
/// A frame without the event flag is a protocol error; one whose low bits
/// name no event type is `BadCommand`; one naming any event other than
/// `Window` (the only mapped type) is `UnsupportedEvent`.  Exactly the
/// window events come back `Ok`.
pub fn check_event_packet(packet_type: u32) -> (r: Result<EventType, SubscribeError>)
    ensures
        !is_event_packet(packet_type) ==> r == Err::<EventType, SubscribeError>(
            SubscribeError::NotAnEvent(packet_type),
        ),
        is_event_packet(packet_type) ==> match event_type_from(event_code_of(packet_type)) {
            None => r == Err::<EventType, SubscribeError>(
                SubscribeError::BadCommand(
                    CommandTypeError::IncorrectEventType(event_code_of(packet_type)),
                ),
            ),
            Some(e) => if e == EventType::Window {
                r == Ok::<EventType, SubscribeError>(EventType::Window)
            } else {
                r == Err::<EventType, SubscribeError>(
                    SubscribeError::UnsupportedEvent(event_type_code(e)),
                )
            },
        },
{
    if packet_type & EVENT_FLAG != EVENT_FLAG {
        return Err(SubscribeError::NotAnEvent(packet_type));
    }
    let code = packet_type ^ EVENT_FLAG;
    match EventType::try_from(code) {
        Err(e) => Err(SubscribeError::BadCommand(e)),
        Ok(event_type) => {
            if let EventType::Window = event_type {
                Ok(EventType::Window)
            } else {
                Err(SubscribeError::UnsupportedEvent(event_type.code()))
            }
        },
    }
}

} // verus!
