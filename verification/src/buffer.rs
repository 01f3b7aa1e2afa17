//! Byte buffers of the `bytes` crate, as the wire encoding uses them.
//!
//! Verus cannot look inside a `BytesMut` or a `Bytes`. Their contents are
//! therefore named by two uninterpreted functions, and each buffer operation
//! the encoder needs is a small function whose contract is taken on trust.

use bytes::{BufMut, Bytes, BytesMut};
use vstd::prelude::*;

verus! {

/// Declares `bytes::BytesMut`, a growable byte buffer, as an opaque type.
#[verifier::external_type_specification]
#[verifier::external_body]
pub struct ExBytesMut(bytes::BytesMut);

/// Declares `bytes::Bytes`, an immutable byte buffer, as an opaque type.
#[verifier::external_type_specification]
#[verifier::external_body]
pub struct ExBytes(bytes::Bytes);

/// The bytes held by a growable buffer, first written first.
pub uninterp spec fn buffered(buf: BytesMut) -> Seq<u8>;

/// The bytes held by a frozen buffer, in order.
pub uninterp spec fn frozen(bytes: Bytes) -> Seq<u8>;

/// The two bytes of `n`, most significant first.
pub open spec fn be16(n: u16) -> Seq<u8> {
    seq![(n / 256) as u8, (n % 256) as u8]
}

/// Whether `extra` more bytes fit into a buffer that already holds `held`.
///
/// A `BytesMut` is backed by one allocation, and no allocation may exceed
/// `isize::MAX` bytes.
pub open spec fn has_room(held: Seq<u8>, extra: int) -> bool {
    held.len() + extra <= isize::MAX
}

/// Trusted: `BytesMut::new` returns a buffer of length zero.
#[verifier::external_body]
pub(crate) fn new_buffer() -> (buf: BytesMut)
    ensures
        buffered(buf) == Seq::<u8>::empty(),
{
    BytesMut::new()
}

/// Trusted: `BufMut::put_u8` on a `BytesMut` appends the one byte `n`. The
/// call grows the buffer as needed and panics only when the new length
/// would pass the allocation limit, which `requires` rules out.
#[verifier::external_body]
pub(crate) fn put_u8(buf: &mut BytesMut, n: u8)
    requires
        has_room(buffered(*old(buf)), 1),
    ensures
        buffered(*final(buf)) == buffered(*old(buf)).push(n),
{
    buf.put_u8(n)
}

/// Trusted: `BufMut::put_u16` on a `BytesMut` appends `n` as two bytes in
/// big-endian order; it panics only past the allocation limit.
#[verifier::external_body]
pub(crate) fn put_u16(buf: &mut BytesMut, n: u16)
    requires
        has_room(buffered(*old(buf)), 2),
    ensures
        buffered(*final(buf)) == buffered(*old(buf)) + be16(n),
{
    buf.put_u16(n)
}

/// Trusted: `BufMut::put_slice` on a `BytesMut` appends all of `src`,
/// unchanged and in order; it panics only past the allocation limit.
#[verifier::external_body]
pub(crate) fn put_slice(buf: &mut BytesMut, src: &[u8])
    requires
        has_room(buffered(*old(buf)), src@.len() as int),
    ensures
        buffered(*final(buf)) == buffered(*old(buf)) + src@,
{
    buf.put_slice(src)
}

/// Trusted: `BufMut::put` on a `BytesMut`, given a `Bytes`, appends every
/// byte of that `Bytes` in order; it panics only past the allocation limit.
#[verifier::external_body]
pub(crate) fn put_bytes(buf: &mut BytesMut, src: Bytes)
    requires
        has_room(buffered(*old(buf)), frozen(src).len() as int),
    ensures
        buffered(*final(buf)) == buffered(*old(buf)) + frozen(src),
{
    buf.put(src)
}

/// Trusted: `BytesMut::freeze` turns the buffer into a `Bytes` with the
/// same contents.
#[verifier::external_body]
pub(crate) fn freeze(buf: BytesMut) -> (bytes: Bytes)
    ensures
        frozen(bytes) == buffered(buf),
{
    buf.freeze()
}

} // verus!
