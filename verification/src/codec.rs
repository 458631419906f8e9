//! The i3/sway IPC frame codec.
//!
//! A frame on the wire is the 6-byte magic `i3-ipc`, a 32-bit payload
//! length, a 32-bit packet type, then the payload.  The two 32-bit fields
//! are in the byte order of the host the compositor runs on; the codec is
//! verified for both orders and the caller picks one (see
//! [`ByteOrder`]).  The decoder is incremental and cancel-safe: it consumes
//! nothing from the buffer until a whole frame is present.

use vstd::prelude::*;

verus! {

/// Length of the magic string.
pub const MAGIC_LEN: usize = 6;

/// Length of the frame header: magic, payload length, packet type.
pub const HEADER_LEN: usize = 14;

/// The bit of the packet-type field that marks a frame as an event.
pub const EVENT_FLAG: u32 = 0x8000_0000;

/// The magic bytes `i3-ipc`.
pub open spec fn magic_bytes() -> Seq<u8> {
    seq![105u8, 51u8, 45u8, 105u8, 112u8, 99u8]
}

/// Which byte order the 32-bit header fields use on the wire.
#[derive(Clone, Copy, Debug, PartialEq, Eq, Structural)]
pub enum ByteOrder {
    Little,
    Big,
}

/// The value of four little-endian bytes.
pub open spec fn le_val(b0: u8, b1: u8, b2: u8, b3: u8) -> int {
    b0 + 256 * b1 + 65536 * b2 + 16777216 * b3
}

/// The value of a 4-byte word in the given order.
pub open spec fn word_val(o: ByteOrder, b: Seq<u8>) -> int {
    match o {
        ByteOrder::Little => le_val(b[0], b[1], b[2], b[3]),
        ByteOrder::Big => le_val(b[3], b[2], b[1], b[0]),
    }
}

/// The four bytes of `x` in the given order.
pub open spec fn word_bytes(o: ByteOrder, x: u32) -> Seq<u8> {
    let b0 = (x as int % 256) as u8;
    let b1 = ((x as int / 256) % 256) as u8;
    let b2 = ((x as int / 65536) % 256) as u8;
    let b3 = ((x as int / 16777216) % 256) as u8;
    match o {
        ByteOrder::Little => seq![b0, b1, b2, b3],
        ByteOrder::Big => seq![b3, b2, b1, b0],
    }
}

/// Reading back the bytes of `x` yields `x`.
pub proof fn lemma_word_round_trip(o: ByteOrder, x: u32)
    ensures
        word_bytes(o, x).len() == 4,
        word_val(o, word_bytes(o, x)) == x as int,
{
    assert(x as int == x as int % 256 + 256 * ((x as int / 256) % 256) + 65536 * ((x as int
        / 65536) % 256) + 16777216 * (x as int / 16777216)) by (nonlinear_arith);
    assert((x as int / 16777216) % 256 == x as int / 16777216) by (nonlinear_arith);
}

/// One raw frame: the packet type as it appeared on the wire, and the
/// payload bytes.
#[derive(Clone, Debug)]
pub struct SwayPacketRaw {
    pub packet_type: u32,
    pub payload: Vec<u8>,
}

/// The decoder's errors.  Both clear the buffer: the stream is beyond
/// recovery once its framing is wrong.
#[derive(Clone, Copy, Debug, PartialEq, Eq, Structural)]
pub enum SwayPacketCodecError {
    /// The first six bytes were not `i3-ipc`.
    MagicIncorrect,
    /// The payload length field, read as a signed 32-bit value, was negative.
    PayloadLenIncorrect,
}

/// The encoding of one frame.
pub open spec fn frame_bytes(o: ByteOrder, packet_type: u32, payload: Seq<u8>) -> Seq<u8> {
    magic_bytes() + word_bytes(o, payload.len() as u32) + word_bytes(o, packet_type) + payload
}

/// What decoding a buffer yields: `Ok(None)` to wait for more bytes,
/// `Ok(Some((packet_type, payload, rest)))` for a decoded frame and the
/// bytes after it, or an error.
pub open spec fn decode_spec(o: ByteOrder, b: Seq<u8>) -> Result<
    Option<(u32, Seq<u8>, Seq<u8>)>,
    SwayPacketCodecError,
> {
    if b.len() < 14 {
        Ok(None)
    } else if b.subrange(0, 6) != magic_bytes() {
        Err(SwayPacketCodecError::MagicIncorrect)
    } else {
        let len = word_val(o, b.subrange(6, 10));
        if len >= 0x8000_0000 {
            Err(SwayPacketCodecError::PayloadLenIncorrect)
        } else if b.len() < 14 + len {
            Ok(None)
        } else {
            Ok(
                Some(
                    (
                        word_val(o, b.subrange(10, 14)) as u32,
                        b.subrange(14, 14 + len),
                        b.subrange(14 + len, b.len() as int),
                    ),
                ),
            )
        }
    }
}

/// Reads a 4-byte word given its bytes in buffer order.
fn read_word(o: ByteOrder, b0: u8, b1: u8, b2: u8, b3: u8) -> (x: u32)
    ensures
        x as int == word_val(o, seq![b0, b1, b2, b3]),
{
    match o {
        ByteOrder::Little => b0 as u32 + 256 * (b1 as u32) + 65536 * (b2 as u32) + 16777216 * (
        b3 as u32),
        ByteOrder::Big => b3 as u32 + 256 * (b2 as u32) + 65536 * (b1 as u32) + 16777216 * (
        b0 as u32),
    }
}

/// Appends the 4-byte encoding of `x` to `dst`.
fn append_word(o: ByteOrder, x: u32, dst: &mut Vec<u8>)
    ensures
        final(dst)@ == old(dst)@ + word_bytes(o, x),
{
    let b0 = (x % 256) as u8;
    let b1 = ((x / 256) % 256) as u8;
    let b2 = ((x / 65536) % 256) as u8;
    let b3 = ((x / 16777216) % 256) as u8;
    match o {
        ByteOrder::Little => {
            dst.push(b0);
            dst.push(b1);
            dst.push(b2);
            dst.push(b3);
        },
        ByteOrder::Big => {
            dst.push(b3);
            dst.push(b2);
            dst.push(b1);
            dst.push(b0);
        },
    }
    proof {
        assert(final(dst)@ =~= old(dst)@ + word_bytes(o, x));
    }
}

/// The incremental frame codec, fixed to one byte order.
pub struct SwayPacketCodec {
    pub order: ByteOrder,
}

impl SwayPacketCodec {
    /// A codec speaking the given byte order.
    pub fn new(order: ByteOrder) -> (c: SwayPacketCodec)
        ensures
            c.order == order,
    {
        SwayPacketCodec { order }
    }

    /// Decodes at most one frame from the front of `src`.
    ///
    /// Returns `Ok(None)` and leaves `src` untouched when it holds less
    /// than a full frame (so a caller dropped between reads loses nothing);
    /// splits a full frame off the front; clears `src` on either framing
    /// error.
    pub fn decode(&mut self, src: &mut Vec<u8>) -> (r: Result<
        Option<SwayPacketRaw>,
        SwayPacketCodecError,
    >)
        ensures
            *final(self) == *old(self),
            ({
                let out = decode_spec(old(self).order, old(src)@);
                match r {
                    Ok(None) => out == Ok::<Option<(u32, Seq<u8>, Seq<u8>)>, SwayPacketCodecError>(
                        None,
                    ) && final(src)@ == old(src)@,
                    Ok(Some(p)) => out == Ok::<
                        Option<(u32, Seq<u8>, Seq<u8>)>,
                        SwayPacketCodecError,
                    >(Some((p.packet_type, p.payload@, final(src)@))),
                    Err(e) => out == Err::<Option<(u32, Seq<u8>, Seq<u8>)>, SwayPacketCodecError>(
                        e,
                    ) && final(src)@.len() == 0,
                }
            }),
    {
        if src.len() < HEADER_LEN {
            return Ok(None);
        }
        let magic_ok = src[0] == 105 && src[1] == 51 && src[2] == 45
            && src[3] == 105 && src[4] == 112 && src[5] == 99;
        proof {
            if magic_ok {
                assert(src@.subrange(0, 6) =~= magic_bytes());
            } else {
                if src@.subrange(0, 6) == magic_bytes() {
                    assert(src@[0] == 105 && src@[1] == 51 && src@[2] == 45 && src@[3] == 105
                        && src@[4] == 112 && src@[5] == 99) by {
                        assert(forall|i: int|
                            0 <= i < 6 ==> src@[i] == #[trigger] src@.subrange(0, 6)[i]);
                    }
                }
            }
        }
        if !magic_ok {
            src.clear();
            return Err(SwayPacketCodecError::MagicIncorrect);
        }
        let len_word = read_word(self.order, src[6], src[7], src[8], src[9]);
        proof {
            assert(src@.subrange(6, 10) =~= seq![src@[6], src@[7], src@[8], src@[9]]);
        }
        if len_word >= EVENT_FLAG {
            src.clear();
            return Err(SwayPacketCodecError::PayloadLenIncorrect);
        }
        let len = len_word as usize;
        if src.len() - 14 < len {
            return Ok(None);
        }
        let packet_type = read_word(
            self.order,
            src[10],
            src[11],
            src[12],
            src[13],
        );
        proof {
            assert(src@.subrange(10, 14) =~= seq![src@[10], src@[11], src@[12], src@[13]]);
        }
        let mut rest = src.split_off(14 + len);
        let payload = src.split_off(14);
        src.clear();
        src.append(&mut rest);
        proof {
            assert(payload@ =~= old(src)@.subrange(14, 14 + len_word as int));
            assert(final(src)@ =~= old(src)@.subrange(14 + len_word as int, old(src)@.len() as int));
        }
        Ok(Some(SwayPacketRaw { packet_type, payload }))
    }

    /// Appends the encoding of `item` to `dst`.
    pub fn encode(&mut self, item: SwayPacketRaw, dst: &mut Vec<u8>) -> (r: Result<
        (),
        SwayPacketCodecError,
    >)
        requires
            item.payload@.len() <= 0x7fffffff,
        ensures
            *final(self) == *old(self),
            r is Ok,
            final(dst)@ == old(dst)@ + frame_bytes(old(self).order, item.packet_type, item.payload@),
    {
        let mut item = item;
        let ghost payload0 = item.payload@;
        dst.push(105);
        dst.push(51);
        dst.push(45);
        dst.push(105);
        dst.push(112);
        dst.push(99);
        append_word(self.order, item.payload.len() as u32, dst);
        append_word(self.order, item.packet_type, dst);
        dst.append(&mut item.payload);
        proof {
            assert(final(dst)@ =~= old(dst)@ + frame_bytes(
                old(self).order,
                item.packet_type,
                payload0,
            ));
        }
        Ok(())
    }
}

/// Decoding a buffer that starts with a whole encoded frame yields exactly
/// that frame and leaves exactly the bytes after it.
pub proof fn lemma_decode_frame_with_rest(o: ByteOrder, t: u32, payload: Seq<u8>, rest: Seq<u8>)
    requires
        payload.len() <= 0x7fffffff,
    ensures
        decode_spec(o, frame_bytes(o, t, payload) + rest) == Ok::<
            Option<(u32, Seq<u8>, Seq<u8>)>,
            SwayPacketCodecError,
        >(Some((t, payload, rest))),
{
    let b = frame_bytes(o, t, payload) + rest;
    lemma_word_round_trip(o, payload.len() as u32);
    lemma_word_round_trip(o, t);
    assert(b.len() == 14 + payload.len() + rest.len());
    assert(b.subrange(0, 6) =~= magic_bytes());
    assert(b.subrange(6, 10) =~= word_bytes(o, payload.len() as u32));
    assert(b.subrange(10, 14) =~= word_bytes(o, t));
    let len = word_val(o, b.subrange(6, 10));
    assert(len == payload.len());
    assert(b.subrange(14, 14 + len) =~= payload);
    assert(b.subrange(14 + len, b.len() as int) =~= rest);
}

/// Frame round-trip: decoding the encoding of any frame gives the frame
/// back, with an empty remainder.
pub proof fn lemma_frame_round_trip(o: ByteOrder, t: u32, payload: Seq<u8>)
    requires
        payload.len() <= 0x7fffffff,
    ensures
        decode_spec(o, frame_bytes(o, t, payload)) == Ok::<
            Option<(u32, Seq<u8>, Seq<u8>)>,
            SwayPacketCodecError,
        >(Some((t, payload, Seq::<u8>::empty()))),
{
    lemma_decode_frame_with_rest(o, t, payload, Seq::<u8>::empty());
    assert(frame_bytes(o, t, payload) + Seq::<u8>::empty() =~= frame_bytes(o, t, payload));
}

/// Partial reads: any strict prefix of an encoded frame decodes to "need
/// more", so a decoder woken with part of a frame neither consumes nor
/// yields anything.
pub proof fn lemma_partial_frame_needs_more(o: ByteOrder, t: u32, payload: Seq<u8>, n: int)
    requires
        payload.len() <= 0x7fffffff,
        0 <= n < frame_bytes(o, t, payload).len(),
    ensures
        decode_spec(o, frame_bytes(o, t, payload).take(n)) == Ok::<
            Option<(u32, Seq<u8>, Seq<u8>)>,
            SwayPacketCodecError,
        >(None),
{
    let full = frame_bytes(o, t, payload);
    let b = full.take(n);
    lemma_word_round_trip(o, payload.len() as u32);
    assert(full.len() == 14 + payload.len());
    if n >= 14 {
        assert(b.subrange(0, 6) =~= magic_bytes());
        assert(b.subrange(6, 10) =~= word_bytes(o, payload.len() as u32));
        let len = word_val(o, b.subrange(6, 10));
        assert(len == payload.len());
        assert(b.len() < 14 + len);
    }
}

/// The encoding of a whole stream of frames, in order.
pub open spec fn frames_bytes(o: ByteOrder, frames: Seq<(u32, Seq<u8>)>) -> Seq<u8>
    decreases frames.len(),
{
    if frames.len() == 0 {
        Seq::empty()
    } else {
        frame_bytes(o, frames.first().0, frames.first().1) + frames_bytes(o, frames.drop_first())
    }
}

/// A buffer holding an encoded stream decodes to its first frame, leaving
/// the encoding of the remaining frames.  Applied frame after frame, the
/// decoder therefore yields exactly the encoded sequence, however the
/// stream was chunked: by [`lemma_partial_frame_needs_more`] the bytes of a
/// half-delivered frame only ever produce "need more" and stay in the
/// buffer.
pub proof fn lemma_decode_frame_stream(o: ByteOrder, frames: Seq<(u32, Seq<u8>)>)
    requires
        frames.len() > 0,
        frames.first().1.len() <= 0x7fffffff,
    ensures
        decode_spec(o, frames_bytes(o, frames)) == Ok::<
            Option<(u32, Seq<u8>, Seq<u8>)>,
            SwayPacketCodecError,
        >(Some((frames.first().0, frames.first().1, frames_bytes(o, frames.drop_first())))),
{
    lemma_decode_frame_with_rest(
        o,
        frames.first().0,
        frames.first().1,
        frames_bytes(o, frames.drop_first()),
    );
}

/// Magic rejection: whatever else a full-header buffer holds, if its first
/// six bytes are not `i3-ipc` the decoder fails with `MagicIncorrect` (and,
/// per [`SwayPacketCodec::decode`], clears the buffer).
pub proof fn lemma_magic_rejection(o: ByteOrder, b: Seq<u8>)
    requires
        b.len() >= 14,
        b.subrange(0, 6) != magic_bytes(),
    ensures
        decode_spec(o, b) == Err::<Option<(u32, Seq<u8>, Seq<u8>)>, SwayPacketCodecError>(
            SwayPacketCodecError::MagicIncorrect,
        ),
{
}

} // verus!
