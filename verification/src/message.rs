//! Frames and the constants that tag them.

use vstd::prelude::*;

verus! {

/// Length in bytes of the fixed frame header.
pub const HEADER_SIZE: u16 = 16;

/// Largest `total_size` a frame may declare.
pub const MAX_FRAME_SIZE: u32 = 10_000_000;

/// Largest payload that fits in a frame with the fixed 16-byte header.
pub const MAX_PAYLOAD_SIZE: usize = 9_999_984;

/// Tags that say what a frame is for.
pub struct Opcode;

impl Opcode {
    pub const HEARTBEAT: u32 = 2;

    pub const HEARTBEAT_REPLY: u32 = 3;

    pub const NORMAL: u32 = 5;

    pub const AUTH: u32 = 7;

    pub const AUTH_REPLY: u32 = 8;
}

/// Tags that say how the payload of a `NORMAL` frame is packed.
pub struct ProtocolVersion;

impl ProtocolVersion {
    pub const NORMAL: u16 = 0;

    pub const AUTH_HEARTBEAT: u16 = 1;

    pub const COMPRESSED_ZLIB: u16 = 2;

    pub const COMPRESSED_BROTLI: u16 = 3;
}

/// The five header fields of a frame, in wire order.
#[derive(Debug, Clone, Copy, PartialEq, Eq, Structural)]
pub struct ProtocolHeader {
    /// Header and payload together, in bytes.
    pub total_size: u32,
    /// Bytes that precede the payload.
    pub header_size: u16,
    pub protocol_version: u16,
    pub opcode: u32,
    pub sequence: u32,
}

impl ProtocolHeader {
    /// The header leaves room for itself and stays within the frame limit.
    pub open spec fn wf(self) -> bool {
        self.header_size <= self.total_size <= MAX_FRAME_SIZE
    }
}

/// One frame: a header and the bytes that follow it.
#[derive(Debug, Clone, PartialEq, Eq)]
pub struct Message {
    pub header: ProtocolHeader,
    pub payload: Vec<u8>,
}

/// A frame as a mathematical value.
pub struct MessageView {
    pub header: ProtocolHeader,
    pub payload: Seq<u8>,
}

impl MessageView {
    /// The header is well formed and accounts for every payload byte.
    pub open spec fn wf(self) -> bool {
        &&& self.header.wf()
        &&& self.payload.len() == self.header.total_size - self.header.header_size
    }
}

impl View for Message {
    type V = MessageView;

    open spec fn view(&self) -> MessageView {
        MessageView { header: self.header, payload: self.payload@ }
    }
}

/// The frame that this client sends for `opcode`, `sequence` and `payload`:
/// a 16-byte header, protocol version 1, and a total size that counts both.
pub open spec fn outbound(opcode: u32, sequence: u32, payload: Seq<u8>) -> MessageView {
    MessageView {
        header: ProtocolHeader {
            total_size: (HEADER_SIZE + payload.len()) as u32,
            header_size: HEADER_SIZE,
            protocol_version: ProtocolVersion::AUTH_HEARTBEAT,
            opcode,
            sequence,
        },
        payload,
    }
}

impl Message {
    /// Builds an outbound frame around `payload`.
    pub fn new(opcode: u32, sequence: u32, payload: Vec<u8>) -> (m: Message)
        requires
            payload@.len() <= MAX_PAYLOAD_SIZE,
        ensures
            m@ == outbound(opcode, sequence, payload@),
            m@.wf(),
    {
        let header_size: u16 = HEADER_SIZE;
        let total_size: u32 = header_size as u32 + payload.len() as u32;
        Message {
            header: ProtocolHeader {
                total_size,
                header_size,
                protocol_version: ProtocolVersion::AUTH_HEARTBEAT,
                opcode,
                sequence,
            },
            payload,
        }
    }

    /// The authentication frame that carries `auth_data`.
    pub fn verification(sequence: u32, auth_data: Vec<u8>) -> (m: Message)
        requires
            auth_data@.len() <= MAX_PAYLOAD_SIZE,
        ensures
            m@ == outbound(Opcode::AUTH, sequence, auth_data@),
            m@.wf(),
    {
        Message::new(Opcode::AUTH, sequence, auth_data)
    }

    /// The heartbeat frame: a header and nothing else.
    pub fn heartbeat(sequence: u32) -> (m: Message)
        ensures
            m@ == outbound(Opcode::HEARTBEAT, sequence, Seq::empty()),
            m@.wf(),
    {
        Message::new(Opcode::HEARTBEAT, sequence, Vec::new())
    }
}

} // verus!
