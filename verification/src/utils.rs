//! Decompression and text decoding, done by `flate2`, `brotli` and `std`.
//!
//! Nothing in this file is proved. What a decompressor returns is a
//! function of the compressed bytes alone, far too long to write down, so
//! each result gets a name that the rest of the library reasons with.

use brotli::Decompressor;
use flate2::bufread::ZlibDecoder;
use std::io::Read;
use vstd::prelude::*;
use vstd::utf8::{decode_utf8, valid_utf8};

verus! {

/// What inflating `data` as one zlib stream gives: the decompressed bytes,
/// or the decoder's complaint about a malformed stream.
pub uninterp spec fn zlib_stream(data: Seq<u8>) -> Result<Seq<u8>, Seq<char>>;

/// What decoding `data` as one brotli stream gives: the decompressed bytes,
/// or the decoder's complaint about a malformed stream.
pub uninterp spec fn brotli_stream(data: Seq<u8>) -> Result<Seq<u8>, Seq<char>>;

/// The outcome of a decompression as a mathematical value.
pub open spec fn decoded_view(r: Result<Vec<u8>, String>) -> Result<Seq<u8>, Seq<char>> {
    match r {
        Ok(bytes) => Ok(bytes@),
        Err(text) => Err(text@),
    }
}

/// Decompresses a brotli stream held in memory.
///
/// Runs `brotli::Decompressor` over `data` until it reports the end of the
/// stream; the contract only names the outcome.
#[verifier::external_body]
pub fn brotli_decode(data: Vec<u8>) -> (r: Result<Vec<u8>, String>)
    ensures
        decoded_view(r) == brotli_stream(data@),
{
    let mut decompressed = Vec::new();
    let mut reader = Decompressor::new(&data[..], 4096);
    match reader.read_to_end(&mut decompressed) {
        Ok(_) => Ok(decompressed),
        Err(e) => Err(e.to_string()),
    }
}

/// Decompresses a zlib stream held in memory.
///
/// Runs `flate2::bufread::ZlibDecoder` over `data` until it reports the end
/// of the stream; the contract only names the outcome.
#[verifier::external_body]
pub fn zlib_decode(data: Vec<u8>) -> (r: Result<Vec<u8>, String>)
    ensures
        decoded_view(r) == zlib_stream(data@),
{
    let mut decompressed = Vec::new();
    let mut decoder = ZlibDecoder::new(&data[..]);
    match decoder.read_to_end(&mut decompressed) {
        Ok(_) => Ok(decompressed),
        Err(e) => Err(e.to_string()),
    }
}

/// `String::from_utf8` accepts exactly the byte strings that are valid
/// UTF-8, and returns the text they encode.
#[verifier::external_body]
pub(crate) fn text_from_utf8(bytes: Vec<u8>) -> (r: Option<String>)
    ensures
        match r {
            Some(text) => valid_utf8(bytes@) && text@ == decode_utf8(bytes@),
            None => !valid_utf8(bytes@),
        },
{
    String::from_utf8(bytes).ok()
}

} // verus!
