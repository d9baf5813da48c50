//! The byte buffer that the codec reads from and writes to.
//!
//! `bytes::BytesMut` is used as it is. Nothing in this file is proved: each
//! contract below restates what the `bytes` crate documents, over the one
//! abstract name `held`.

use bytes::{Buf, BufMut, BytesMut};
use vstd::prelude::*;

verus! {

/// Makes `bytes::BytesMut` known as an opaque type.
#[verifier::external_type_specification]
#[verifier::external_body]
pub struct ExBytesMut(BytesMut);

/// The bytes that a buffer currently holds, front first. Spare capacity is
/// not part of it.
pub uninterp spec fn held(buf: BytesMut) -> Seq<u8>;

/// Borrows the contents: `BytesMut::as_ref` returns the slice of the bytes
/// held, in order.
#[verifier::external_body]
pub(crate) fn contents(buf: &BytesMut) -> (s: &[u8])
    ensures
        s@ == held(*buf),
{
    buf.as_ref()
}

/// `BytesMut::reserve` makes room for `additional` more bytes and leaves the
/// contents as they are. It panics when the new capacity overflows `usize`.
#[verifier::external_body]
pub(crate) fn reserve(buf: &mut BytesMut, additional: usize)
    requires
        held(*old(buf)).len() + additional <= isize::MAX,
    ensures
        held(*final(buf)) == held(*old(buf)),
{
    buf.reserve(additional)
}

/// `Buf::advance` drops the first `cnt` bytes. It panics when fewer are held.
#[verifier::external_body]
pub(crate) fn advance(buf: &mut BytesMut, cnt: usize)
    requires
        cnt <= held(*old(buf)).len(),
    ensures
        held(*final(buf)) == held(*old(buf)).skip(cnt as int),
{
    buf.advance(cnt)
}

/// `BufMut::put_u16` appends the two bytes of `n`, most significant first.
#[verifier::external_body]
pub(crate) fn put_u16(buf: &mut BytesMut, n: u16)
    requires
        held(*old(buf)).len() + 2 <= isize::MAX,
    ensures
        held(*final(buf)) == held(*old(buf)) + crate::wire::u16_bytes(n),
{
    buf.put_u16(n)
}

/// `BufMut::put_u32` appends the four bytes of `n`, most significant first.
#[verifier::external_body]
pub(crate) fn put_u32(buf: &mut BytesMut, n: u32)
    requires
        held(*old(buf)).len() + 4 <= isize::MAX,
    ensures
        held(*final(buf)) == held(*old(buf)) + crate::wire::u32_bytes(n),
{
    buf.put_u32(n)
}

/// `BytesMut::extend_from_slice` appends `extend`, growing the buffer first
/// where it must.
#[verifier::external_body]
pub(crate) fn extend_from_slice(buf: &mut BytesMut, extend: &[u8])
    requires
        held(*old(buf)).len() + extend@.len() <= isize::MAX,
    ensures
        held(*final(buf)) == held(*old(buf)) + extend@,
{
    buf.extend_from_slice(extend)
}

} // verus!
