//! The frame codec: sixteen header bytes, big-endian, then the payload.
//!
//! | bytes  | field            |
//! |--------|------------------|
//! | 0..4   | total size       |
//! | 4..6   | header size      |
//! | 6..8   | protocol version |
//! | 8..12  | opcode           |
//! | 12..16 | sequence         |

use crate::buffer::{advance, contents, extend_from_slice, held, put_u16, put_u32, reserve};
use crate::message::{Message, MessageView, ProtocolHeader, HEADER_SIZE, MAX_FRAME_SIZE};
use crate::wire::{
    lemma_u16_round_trip, lemma_u32_round_trip, read_u16, read_u32, u16_at, u16_bytes, u32_at,
    u32_bytes,
};
use bytes::BytesMut;
use vstd::prelude::*;
use vstd::slice::{slice_subrange, slice_to_vec};

verus! {

/// Why a buffer cannot be decoded, now or after more bytes arrive.
#[derive(Debug, Clone, Copy, PartialEq, Eq, Structural)]
pub enum FrameError {
    /// The header declares more than `MAX_FRAME_SIZE` bytes.
    OversizedFrame,
    /// The header declares itself longer than the whole frame.
    HeaderExceedsFrame,
}

impl FrameError {
    /// A short text for the error.
    pub fn message(&self) -> (text: String)
        ensures
            text@ == match *self {
                FrameError::OversizedFrame => "Message too large"@,
                FrameError::HeaderExceedsFrame => "Header larger than message"@,
            },
    {
        match self {
            FrameError::OversizedFrame => "Message too large".to_owned(),
            FrameError::HeaderExceedsFrame => "Header larger than message".to_owned(),
        }
    }
}

/// What the front of a buffer amounts to.
pub enum Decoded {
    /// Too few bytes for a header, or fewer than the header declares.
    Incomplete,
    /// The header declares more than `MAX_FRAME_SIZE` bytes.
    Oversized,
    /// The frame is all there, but its header claims more than the frame.
    Malformed,
    /// A whole frame, which occupies the first `total_size` bytes.
    Frame(MessageView),
}

/// The header whose sixteen bytes start at `at`.
pub open spec fn header_at(buf: Seq<u8>, at: int) -> ProtocolHeader
    recommends
        0 <= at,
        at + HEADER_SIZE <= buf.len(),
{
    ProtocolHeader {
        total_size: u32_at(buf, at),
        header_size: u16_at(buf, at + 4),
        protocol_version: u16_at(buf, at + 6),
        opcode: u32_at(buf, at + 8),
        sequence: u32_at(buf, at + 12),
    }
}

/// The sixteen bytes of `h`.
pub open spec fn header_bytes(h: ProtocolHeader) -> Seq<u8> {
    u32_bytes(h.total_size) + u16_bytes(h.header_size) + u16_bytes(h.protocol_version)
        + u32_bytes(h.opcode) + u32_bytes(h.sequence)
}

/// The bytes of a frame: the header fields, then the payload untouched.
pub open spec fn encode_frame(m: MessageView) -> Seq<u8> {
    header_bytes(m.header) + m.payload
}

/// Reads the front of `buf` as one frame.
pub open spec fn decode_frame(buf: Seq<u8>) -> Decoded {
    if buf.len() < HEADER_SIZE {
        Decoded::Incomplete
    } else {
        let h = header_at(buf, 0);
        if h.total_size > MAX_FRAME_SIZE {
            Decoded::Oversized
        } else if buf.len() < h.total_size {
            Decoded::Incomplete
        } else if h.header_size > h.total_size {
            Decoded::Malformed
        } else {
            Decoded::Frame(
                MessageView {
                    header: h,
                    payload: buf.subrange(h.header_size as int, h.total_size as int),
                },
            )
        }
    }
}

/// A frame's encoding is its payload and sixteen bytes more; with the fixed
/// header size that is exactly the declared total.
pub proof fn lemma_encode_len(m: MessageView)
    ensures
        encode_frame(m).len() == HEADER_SIZE + m.payload.len(),
        m.wf() && m.header.header_size == HEADER_SIZE ==> encode_frame(m).len()
            == m.header.total_size,
{
}

/// Reading the header back from an encoding gives the header that was
/// written, whatever follows the sixteen bytes.
pub proof fn lemma_header_round_trip(h: ProtocolHeader, rest: Seq<u8>)
    ensures
        header_at(header_bytes(h) + rest, 0) == h,
{
    let buf = header_bytes(h) + rest;
    assert(buf.subrange(0, 4) =~= u32_bytes(h.total_size));
    assert(buf.subrange(4, 6) =~= u16_bytes(h.header_size));
    assert(buf.subrange(6, 8) =~= u16_bytes(h.protocol_version));
    assert(buf.subrange(8, 12) =~= u32_bytes(h.opcode));
    assert(buf.subrange(12, 16) =~= u32_bytes(h.sequence));
    lemma_u32_round_trip(h.total_size, buf, 0);
    lemma_u16_round_trip(h.header_size, buf, 4);
    lemma_u16_round_trip(h.protocol_version, buf, 6);
    lemma_u32_round_trip(h.opcode, buf, 8);
    lemma_u32_round_trip(h.sequence, buf, 12);
}

/// Round trip: decoding the encoding of a well-formed frame with the fixed
/// header size gives that frame again, also when more bytes follow it.
pub proof fn lemma_decode_encode(m: MessageView, rest: Seq<u8>)
    requires
        m.wf(),
        m.header.header_size == HEADER_SIZE,
    ensures
        decode_frame(encode_frame(m) + rest) == Decoded::Frame(m),
        (encode_frame(m) + rest).skip(m.header.total_size as int) == rest,
{
    let buf = encode_frame(m) + rest;
    assert(buf =~= header_bytes(m.header) + (m.payload + rest));
    lemma_header_round_trip(m.header, m.payload + rest);
    assert(buf.subrange(m.header.header_size as int, m.header.total_size as int) =~= m.payload);
    assert(buf.skip(m.header.total_size as int) =~= rest);
}

/// Partial frame: a buffer that is shorter than a header, or shorter than
/// the size its header declares within the limit, is incomplete.
pub proof fn lemma_partial_frame(buf: Seq<u8>)
    requires
        buf.len() < HEADER_SIZE || (u32_at(buf, 0) <= MAX_FRAME_SIZE && buf.len() < u32_at(buf, 0)),
    ensures
        decode_frame(buf) == Decoded::Incomplete,
{
}

/// Oversize rejection: a header that declares more than the limit is
/// rejected whatever else the buffer holds.
pub proof fn lemma_oversized_frame(buf: Seq<u8>)
    requires
        buf.len() >= HEADER_SIZE,
        u32_at(buf, 0) > MAX_FRAME_SIZE,
    ensures
        decode_frame(buf) == Decoded::Oversized,
{
}

/// Every frame that decoding yields is well formed.
pub proof fn lemma_decoded_wf(buf: Seq<u8>)
    ensures
        decode_frame(buf) matches Decoded::Frame(m) ==> m.wf() && m.header.total_size <= buf.len(),
{
}

/// The stateless frame codec.
pub struct ProtocolCodec;

impl ProtocolCodec {
    /// Takes one frame off the front of `src`, if a whole one is there.
    ///
    /// Nothing is consumed unless a frame is returned. While the frame is
    /// still arriving, room for the rest of it is reserved.
    pub fn decode(&mut self, src: &mut BytesMut) -> (r: Result<Option<Message>, FrameError>)
        ensures
            match decode_frame(held(*old(src))) {
                Decoded::Incomplete => r matches Ok(None) && held(*final(src)) == held(*old(src)),
                Decoded::Oversized => r matches Err(FrameError::OversizedFrame)
                    && held(*final(src)) == held(*old(src)),
                Decoded::Malformed => r matches Err(FrameError::HeaderExceedsFrame)
                    && held(*final(src)) == held(*old(src)),
                Decoded::Frame(m) => r matches Ok(Some(msg)) && msg@ == m && m.wf()
                    && held(*final(src)) == held(*old(src)).skip(m.header.total_size as int),
            },
    {
        let bytes = contents(src);
        let len: usize = bytes.len();
        if len < 16 {
            return Ok(None);
        }
        let total_size: u32 = read_u32(bytes, 0);
        let header_size: u16 = read_u16(bytes, 4);
        let protocol_version: u16 = read_u16(bytes, 6);
        let opcode: u32 = read_u32(bytes, 8);
        let sequence: u32 = read_u32(bytes, 12);

        if total_size > MAX_FRAME_SIZE {
            return Err(FrameError::OversizedFrame);
        }
        if len < total_size as usize {
            reserve(src, total_size as usize - len);
            return Ok(None);
        }
        if header_size as u32 > total_size {
            return Err(FrameError::HeaderExceedsFrame);
        }
        let header = ProtocolHeader { total_size, header_size, protocol_version, opcode, sequence };
        let payload_size: usize = total_size as usize - header_size as usize;
        let payload = slice_to_vec(
            slice_subrange(bytes, header_size as usize, total_size as usize),
        );
        advance(src, header_size as usize);
        advance(src, payload_size);
        proof {
            let whole = held(*old(src));
            assert(whole.skip(header_size as int).skip(payload_size as int)
                =~= whole.skip(total_size as int));
        }
        Ok(Some(Message { header, payload }))
    }

    /// Appends the encoding of `item` to `dst` where the buffer can still
    /// grow by that much, and says whether it did. A buffer that cannot is
    /// left as it was.
    pub fn try_encode(&mut self, item: Message, dst: &mut BytesMut) -> (done: bool)
        ensures
            done == (held(*old(dst)).len() + HEADER_SIZE + item@.payload.len() <= isize::MAX),
            held(*final(dst)) == if done {
                held(*old(dst)) + encode_frame(item@)
            } else {
                held(*old(dst))
            },
    {
        let used: usize = contents(dst).len();
        let room: usize = isize::MAX as usize - 16;
        if item.payload.len() > room || used > room - item.payload.len() {
            return false;
        }
        let _ = self.encode(item, dst);
        true
    }

    /// Appends the encoding of `item` to `dst`.
    pub fn encode(&mut self, item: Message, dst: &mut BytesMut) -> (r: Result<(), FrameError>)
        requires
            held(*old(dst)).len() + HEADER_SIZE + item@.payload.len() <= isize::MAX,
        ensures
            r is Ok,
            held(*final(dst)) == held(*old(dst)) + encode_frame(item@),
            item@.wf() && item@.header.header_size == HEADER_SIZE ==> held(*final(dst)).len()
                == held(*old(dst)).len() + item@.header.total_size,
    {
        put_u32(dst, item.header.total_size);
        put_u16(dst, item.header.header_size);
        put_u16(dst, item.header.protocol_version);
        put_u32(dst, item.header.opcode);
        put_u32(dst, item.header.sequence);
        extend_from_slice(dst, item.payload.as_slice());
        assert(held(*dst) =~= held(*old(dst)) + encode_frame(item@));
        Ok(())
    }
}

} // verus!
