use danmaku_client::utils::{brotli_decode, zlib_decode};
use std::io::Write;

fn zlib(data: &[u8]) -> Vec<u8> {
    let mut enc = flate2::write::ZlibEncoder::new(Vec::new(), flate2::Compression::default());
    enc.write_all(data).unwrap();
    enc.finish().unwrap()
}

fn brotli_pack(data: &[u8]) -> Vec<u8> {
    let mut out = Vec::new();
    {
        let mut enc = brotli::CompressorWriter::new(&mut out, 4096, 5, 22);
        enc.write_all(data).unwrap();
    }
    out
}

fn samples() -> Vec<Vec<u8>> {
    vec![
        Vec::new(),
        vec![0],
        b"hello world".to_vec(),
        (0..=255u8).collect(),
        vec![0xab; 100_000],
        (0..50_000usize).map(|i| (i * i % 253) as u8).collect(),
    ]
}

#[test]
fn zlib_round_trip() {
    for data in samples() {
        let packed = zlib(&data);
        assert_eq!(zlib_decode(packed), Ok(data));
    }
}

#[test]
fn brotli_round_trip() {
    for data in samples() {
        let packed = brotli_pack(&data);
        assert_eq!(brotli_decode(packed), Ok(data));
    }
}

#[test]
fn zlib_round_trip_of_the_empty_sequence() {
    let packed = zlib(&[]);
    assert!(!packed.is_empty());
    assert_eq!(zlib_decode(packed), Ok(Vec::new()));
}

#[test]
fn brotli_round_trip_of_the_empty_sequence() {
    let packed = brotli_pack(&[]);
    assert!(!packed.is_empty());
    assert_eq!(brotli_decode(packed), Ok(Vec::new()));
}

#[test]
fn zlib_output_differs_from_its_input() {
    let packed = zlib(b"aaaaaaaaaaaaaaaaaaaaaaaaaaaaaaaaaaaaaaaa");
    let out = zlib_decode(packed.clone()).unwrap();
    assert_ne!(out, packed);
    assert_eq!(out, b"aaaaaaaaaaaaaaaaaaaaaaaaaaaaaaaaaaaaaaaa".to_vec());
}

#[test]
fn brotli_output_differs_from_its_input() {
    let packed = brotli_pack(b"aaaaaaaaaaaaaaaaaaaaaaaaaaaaaaaaaaaaaaaa");
    let out = brotli_decode(packed.clone()).unwrap();
    assert_ne!(out, packed);
    assert_eq!(out, b"aaaaaaaaaaaaaaaaaaaaaaaaaaaaaaaaaaaaaaaa".to_vec());
}

#[test]
fn zlib_rejects_a_corrupt_stream() {
    assert_eq!(
        zlib_decode(b"this is not zlib".to_vec()),
        Err("corrupt deflate stream".to_string())
    );
}

#[test]
fn zlib_rejects_a_truncated_stream() {
    let mut packed = zlib(&vec![7u8; 10_000]);
    packed.truncate(packed.len() / 2);
    assert!(zlib_decode(packed).is_err());
}

#[test]
fn zlib_rejects_empty_input() {
    assert!(zlib_decode(Vec::new()).is_err());
}

#[test]
fn brotli_rejects_a_corrupt_stream() {
    assert!(brotli_decode(vec![0xff; 64]).is_err());
}

#[test]
fn brotli_rejects_a_truncated_stream() {
    let data: Vec<u8> = (0..20_000usize).map(|i| (i * 7 % 251) as u8).collect();
    let mut packed = brotli_pack(&data);
    packed.truncate(packed.len() / 2);
    assert!(brotli_decode(packed).is_err());
}
