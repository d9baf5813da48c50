use bytes::BytesMut;
use danmaku_client::codec::{FrameError, ProtocolCodec};
use danmaku_client::message::{
    Message, Opcode, ProtocolHeader, ProtocolVersion, HEADER_SIZE, MAX_FRAME_SIZE,
    MAX_PAYLOAD_SIZE,
};

fn header_bytes(total: u32, header: u16, version: u16, opcode: u32, sequence: u32) -> Vec<u8> {
    let mut out = Vec::new();
    out.extend_from_slice(&total.to_be_bytes());
    out.extend_from_slice(&header.to_be_bytes());
    out.extend_from_slice(&version.to_be_bytes());
    out.extend_from_slice(&opcode.to_be_bytes());
    out.extend_from_slice(&sequence.to_be_bytes());
    out
}

fn encoded(msg: Message) -> BytesMut {
    let mut dst = BytesMut::new();
    ProtocolCodec.encode(msg, &mut dst).unwrap();
    dst
}

#[test]
fn constants_match_the_protocol() {
    assert_eq!(Opcode::HEARTBEAT, 2);
    assert_eq!(Opcode::HEARTBEAT_REPLY, 3);
    assert_eq!(Opcode::NORMAL, 5);
    assert_eq!(Opcode::AUTH, 7);
    assert_eq!(Opcode::AUTH_REPLY, 8);
    assert_eq!(ProtocolVersion::NORMAL, 0);
    assert_eq!(ProtocolVersion::AUTH_HEARTBEAT, 1);
    assert_eq!(ProtocolVersion::COMPRESSED_ZLIB, 2);
    assert_eq!(ProtocolVersion::COMPRESSED_BROTLI, 3);
    assert_eq!(HEADER_SIZE, 16);
    assert_eq!(MAX_FRAME_SIZE, 10_000_000);
    assert_eq!(MAX_PAYLOAD_SIZE, 9_999_984);
}

#[test]
fn new_fills_the_header() {
    let msg = Message::new(5, 9, vec![1, 2, 3]);
    assert_eq!(
        msg.header,
        ProtocolHeader {
            total_size: 19,
            header_size: 16,
            protocol_version: 1,
            opcode: 5,
            sequence: 9,
        }
    );
    assert_eq!(msg.payload, vec![1, 2, 3]);
}

#[test]
fn verification_is_an_auth_frame() {
    let msg = Message::verification(1, b"{}".to_vec());
    assert_eq!(msg.header.opcode, 7);
    assert_eq!(msg.header.sequence, 1);
    assert_eq!(msg.header.header_size, 16);
    assert_eq!(msg.header.protocol_version, 1);
    assert_eq!(msg.header.total_size, 18);
    assert_eq!(msg.payload, b"{}".to_vec());
}

#[test]
fn heartbeat_is_a_bare_header() {
    let msg = Message::heartbeat(7);
    assert_eq!(msg.header.opcode, 2);
    assert_eq!(msg.header.sequence, 7);
    assert_eq!(msg.header.total_size, 16);
    assert_eq!(msg.header.header_size, 16);
    assert_eq!(msg.header.protocol_version, 1);
    assert!(msg.payload.is_empty());
}

#[test]
fn encode_writes_big_endian_fields_then_payload() {
    let dst = encoded(Message::new(0x0102_0304, 0x0a0b_0c0d, vec![0xaa, 0xbb]));
    assert_eq!(
        &dst[..],
        &[0, 0, 0, 18, 0, 16, 0, 1, 1, 2, 3, 4, 0x0a, 0x0b, 0x0c, 0x0d, 0xaa, 0xbb][..]
    );
}

#[test]
fn encode_appends_to_what_is_there() {
    let mut dst = BytesMut::from(&b"xy"[..]);
    ProtocolCodec.encode(Message::heartbeat(2), &mut dst).unwrap();
    assert_eq!(dst.len(), 18);
    assert_eq!(&dst[..2], b"xy");
    assert_eq!(&dst[2..], &header_bytes(16, 16, 1, 2, 2)[..]);
}

#[test]
fn encoded_length_is_the_total_size() {
    for len in [0usize, 1, 15, 16, 17, 1000] {
        let msg = Message::new(5, 1, vec![7; len]);
        let total = msg.header.total_size as usize;
        assert_eq!(total, 16 + len);
        assert_eq!(encoded(msg).len(), total);
    }
}

#[test]
fn round_trip_gives_the_message_back() {
    for len in [0usize, 1, 5, 16, 255, 256, 70_000] {
        let payload: Vec<u8> = (0..len).map(|i| (i * 31 % 251) as u8).collect();
        let msg = Message::new(Opcode::NORMAL, 42, payload);
        let mut buf = encoded(msg.clone());
        let back = ProtocolCodec.decode(&mut buf).unwrap();
        assert_eq!(back, Some(msg));
        assert!(buf.is_empty());
    }
}

#[test]
fn round_trip_at_the_largest_payload() {
    let msg = Message::new(Opcode::NORMAL, 1, vec![0x5a; MAX_PAYLOAD_SIZE]);
    assert_eq!(msg.header.total_size, MAX_FRAME_SIZE);
    let mut buf = encoded(msg.clone());
    assert_eq!(buf.len(), 10_000_000);
    assert_eq!(ProtocolCodec.decode(&mut buf).unwrap(), Some(msg));
    assert!(buf.is_empty());
}

#[test]
fn round_trip_of_every_header_field() {
    let mut buf = BytesMut::from(&header_bytes(16, 16, 0xfffe, 0xffff_fffd, 0x8000_0001)[..]);
    let msg = ProtocolCodec.decode(&mut buf).unwrap().unwrap();
    assert_eq!(msg.header.protocol_version, 0xfffe);
    assert_eq!(msg.header.opcode, 0xffff_fffd);
    assert_eq!(msg.header.sequence, 0x8000_0001);
    assert_eq!(&encoded(msg)[..], &header_bytes(16, 16, 0xfffe, 0xffff_fffd, 0x8000_0001)[..]);
}

#[test]
fn short_buffer_needs_more_data() {
    for len in 0..16usize {
        let bytes = vec![0xffu8; len];
        let mut buf = BytesMut::from(&bytes[..]);
        assert_eq!(ProtocolCodec.decode(&mut buf), Ok(None));
        assert_eq!(&buf[..], &bytes[..]);
    }
}

#[test]
fn partial_frame_needs_more_data() {
    let mut bytes = header_bytes(20, 16, 0, 5, 0);
    bytes.extend_from_slice(b"abc");
    let mut buf = BytesMut::from(&bytes[..]);
    assert_eq!(ProtocolCodec.decode(&mut buf), Ok(None));
    assert_eq!(&buf[..], &bytes[..]);
    assert!(buf.capacity() >= 20);

    buf.extend_from_slice(b"d");
    let msg = ProtocolCodec.decode(&mut buf).unwrap().unwrap();
    assert_eq!(msg.payload, b"abcd".to_vec());
    assert!(buf.is_empty());
}

#[test]
fn partial_frame_at_the_limit_needs_more_data() {
    let bytes = header_bytes(10_000_000, 16, 0, 5, 0);
    let mut buf = BytesMut::from(&bytes[..]);
    assert_eq!(ProtocolCodec.decode(&mut buf), Ok(None));
    assert_eq!(&buf[..], &bytes[..]);
}

#[test]
fn oversized_frame_is_rejected() {
    let bytes = header_bytes(10_000_001, 16, 0, 5, 0);
    let mut buf = BytesMut::from(&bytes[..]);
    assert_eq!(ProtocolCodec.decode(&mut buf), Err(FrameError::OversizedFrame));
    assert_eq!(&buf[..], &bytes[..]);
}

#[test]
fn oversized_frame_is_rejected_whatever_follows() {
    for extra in [0usize, 1, 100, 5000] {
        let mut bytes = header_bytes(10_000_001, 16, 2, 5, 77);
        bytes.extend_from_slice(&vec![0x33; extra]);
        let mut buf = BytesMut::from(&bytes[..]);
        assert_eq!(ProtocolCodec.decode(&mut buf), Err(FrameError::OversizedFrame));
    }
    let mut buf = BytesMut::from(&header_bytes(u32::MAX, 0, 0, 0, 0)[..]);
    assert_eq!(ProtocolCodec.decode(&mut buf), Err(FrameError::OversizedFrame));
}

#[test]
fn header_longer_than_frame_is_rejected() {
    let bytes = header_bytes(16, 17, 0, 5, 0);
    let mut buf = BytesMut::from(&bytes[..]);
    assert_eq!(ProtocolCodec.decode(&mut buf), Err(FrameError::HeaderExceedsFrame));
    assert_eq!(&buf[..], &bytes[..]);
}

#[test]
fn header_longer_than_frame_waits_while_the_frame_is_partial() {
    let bytes = header_bytes(17, 18, 0, 5, 0);
    let mut buf = BytesMut::from(&bytes[..]);
    assert_eq!(ProtocolCodec.decode(&mut buf), Ok(None));
    buf.extend_from_slice(b"x");
    assert_eq!(ProtocolCodec.decode(&mut buf), Err(FrameError::HeaderExceedsFrame));
}

#[test]
fn decode_takes_one_frame_and_leaves_the_rest() {
    let mut buf = encoded(Message::new(5, 1, b"one".to_vec()));
    ProtocolCodec.encode(Message::new(5, 2, b"two!".to_vec()), &mut buf).unwrap();
    buf.extend_from_slice(&[9, 9]);

    let first = ProtocolCodec.decode(&mut buf).unwrap().unwrap();
    assert_eq!(first.payload, b"one".to_vec());
    assert_eq!(buf.len(), 20 + 2);
    let second = ProtocolCodec.decode(&mut buf).unwrap().unwrap();
    assert_eq!(second.payload, b"two!".to_vec());
    assert_eq!(second.header.sequence, 2);
    assert_eq!(&buf[..], &[9, 9][..]);
    assert_eq!(ProtocolCodec.decode(&mut buf), Ok(None));
    assert_eq!(&buf[..], &[9, 9][..]);
}

#[test]
fn payload_starts_where_the_header_size_says() {
    let mut bytes = header_bytes(24, 20, 0, 5, 3);
    bytes.extend_from_slice(b"....text");
    let mut buf = BytesMut::from(&bytes[..]);
    let msg = ProtocolCodec.decode(&mut buf).unwrap().unwrap();
    assert_eq!(msg.header.header_size, 20);
    assert_eq!(msg.header.total_size, 24);
    assert_eq!(msg.payload, b"text".to_vec());
    assert!(buf.is_empty());
}

#[test]
fn short_header_size_puts_header_bytes_in_the_payload() {
    let bytes = header_bytes(16, 12, 0, 5, 0x0102_0304);
    let mut buf = BytesMut::from(&bytes[..]);
    let msg = ProtocolCodec.decode(&mut buf).unwrap().unwrap();
    assert_eq!(msg.payload, vec![1, 2, 3, 4]);
    assert!(buf.is_empty());
}

#[test]
fn frame_error_texts() {
    assert_eq!(FrameError::OversizedFrame.message(), "Message too large");
    assert_eq!(FrameError::HeaderExceedsFrame.message(), "Header larger than message");
}

#[test]
fn try_encode_appends_like_encode() {
    let mut dst = BytesMut::from(&b"xy"[..]);
    assert!(ProtocolCodec.try_encode(Message::new(5, 3, b"abc".to_vec()), &mut dst));
    let mut expected = b"xy".to_vec();
    expected.extend_from_slice(&header_bytes(19, 16, 1, 5, 3));
    expected.extend_from_slice(b"abc");
    assert_eq!(&dst[..], &expected[..]);
}
