//! The byte buffers of the `bytes` crate.
//!
//! `Bytes` and `BytesMut` are opaque to Verus. Each is known by the bytes it
//! holds, and every method that the library calls is specified over those bytes.
//! That memory can run out is not part of the picture.

use bytes::{Buf, BufMut, Bytes, BytesMut};
use vstd::prelude::*;

verus! {

/// `bytes::Bytes`: a shared, immutable run of bytes that is read from its front.
#[verifier::external_type_specification]
#[verifier::external_body]
pub struct ExBytes(Bytes);

/// `bytes::BytesMut`: a growing run of bytes.
#[verifier::external_type_specification]
#[verifier::external_body]
pub struct ExBytesMut(BytesMut);

/// The bytes that a `Bytes` still holds.
pub uninterp spec fn held(bytes: Bytes) -> Seq<u8>;

/// The bytes that a `BytesMut` holds.
pub uninterp spec fn gathered(bytes: BytesMut) -> Seq<u8>;

/// Two bytes, the most significant first.
pub open spec fn be16(n: u16) -> Seq<u8> {
    seq![(n / 0x100) as u8, (n % 0x100) as u8]
}

/// Four bytes, the most significant first.
pub open spec fn be32(n: u32) -> Seq<u8> {
    be16((n / 0x1_0000) as u16) + be16((n % 0x1_0000) as u16)
}

/// Eight bytes, the most significant first.
pub open spec fn be64(n: u64) -> Seq<u8> {
    be32((n / 0x1_0000_0000) as u32) + be32((n % 0x1_0000_0000) as u32)
}

/// `BytesMut::new`: a buffer that holds nothing.
#[verifier::external_body]
pub(crate) fn empty() -> (buffer: BytesMut)
    ensures
        gathered(buffer) == Seq::<u8>::empty(),
{
    BytesMut::new()
}

/// `BytesMut::len`: the number of bytes held.
#[verifier::external_body]
pub(crate) fn length(buffer: &BytesMut) -> (len: usize)
    ensures
        len == gathered(*buffer).len(),
{
    buffer.len()
}

/// `BufMut::put_u8`: appends one byte. There has to be room for it, up to the
/// largest size that an allocation can have.
#[verifier::external_body]
pub(crate) fn put_u8(buffer: &mut BytesMut, n: u8)
    requires
        gathered(*old(buffer)).len() + 1 <= isize::MAX,
    ensures
        gathered(*final(buffer)) == gathered(*old(buffer)).push(n),
{
    buffer.put_u8(n)
}

/// `BufMut::put_u16`: appends two bytes, the most significant first.
#[verifier::external_body]
pub(crate) fn put_u16(buffer: &mut BytesMut, n: u16)
    requires
        gathered(*old(buffer)).len() + 2 <= isize::MAX,
    ensures
        gathered(*final(buffer)) == gathered(*old(buffer)) + be16(n),
{
    buffer.put_u16(n)
}

/// `BufMut::put_u32`: appends four bytes, the most significant first.
#[verifier::external_body]
pub(crate) fn put_u32(buffer: &mut BytesMut, n: u32)
    requires
        gathered(*old(buffer)).len() + 4 <= isize::MAX,
    ensures
        gathered(*final(buffer)) == gathered(*old(buffer)) + be32(n),
{
    buffer.put_u32(n)
}

/// `BufMut::put_u64`: appends eight bytes, the most significant first.
#[verifier::external_body]
pub(crate) fn put_u64(buffer: &mut BytesMut, n: u64)
    requires
        gathered(*old(buffer)).len() + 8 <= isize::MAX,
    ensures
        gathered(*final(buffer)) == gathered(*old(buffer)) + be64(n),
{
    buffer.put_u64(n)
}

/// `BytesMut::extend_from_slice`: appends the bytes of a slice.
#[verifier::external_body]
pub(crate) fn extend(buffer: &mut BytesMut, slice: &[u8])
    requires
        gathered(*old(buffer)).len() + slice@.len() <= isize::MAX,
    ensures
        gathered(*final(buffer)) == gathered(*old(buffer)) + slice@,
{
    buffer.extend_from_slice(slice)
}

/// `BytesMut`'s dereference to a slice: the bytes held.
#[verifier::external_body]
pub(crate) fn gathered_slice(buffer: &BytesMut) -> (slice: &[u8])
    ensures
        slice@ == gathered(*buffer),
{
    buffer
}

/// `BytesMut::clone`: a buffer with the same bytes.
#[verifier::external_body]
pub(crate) fn copy(buffer: &BytesMut) -> (other: BytesMut)
    ensures
        gathered(other) == gathered(*buffer),
{
    buffer.clone()
}

/// `BytesMut::freeze`: the same bytes, no longer growing.
#[verifier::external_body]
pub(crate) fn freeze(buffer: BytesMut) -> (bytes: Bytes)
    ensures
        held(bytes) == gathered(buffer),
{
    buffer.freeze()
}

/// `Bytes`'s dereference to a slice: the bytes still held.
#[verifier::external_body]
pub(crate) fn held_slice(bytes: &Bytes) -> (slice: &[u8])
    ensures
        slice@ == held(*bytes),
{
    bytes
}

/// `Buf::remaining`: the number of bytes still held.
#[verifier::external_body]
pub(crate) fn remaining(bytes: &Bytes) -> (len: usize)
    ensures
        len == held(*bytes).len(),
{
    bytes.remaining()
}

/// `Buf::has_remaining`: whether any byte is still held.
#[verifier::external_body]
pub(crate) fn has_remaining(bytes: &Bytes) -> (any: bool)
    ensures
        any == (held(*bytes).len() > 0),
{
    bytes.has_remaining()
}

/// `Buf::get_u8`: takes one byte off the front.
#[verifier::external_body]
pub(crate) fn get_u8(bytes: &mut Bytes) -> (n: u8)
    requires
        held(*old(bytes)).len() >= 1,
    ensures
        n == held(*old(bytes))[0],
        held(*final(bytes)) == held(*old(bytes)).skip(1),
{
    bytes.get_u8()
}

/// `Buf::get_u16`: takes two bytes off the front, the most significant first.
#[verifier::external_body]
pub(crate) fn get_u16(bytes: &mut Bytes) -> (n: u16)
    requires
        held(*old(bytes)).len() >= 2,
    ensures
        be16(n) == held(*old(bytes)).take(2),
        held(*final(bytes)) == held(*old(bytes)).skip(2),
{
    bytes.get_u16()
}

/// `Buf::get_u32`: takes four bytes off the front, the most significant first.
#[verifier::external_body]
pub(crate) fn get_u32(bytes: &mut Bytes) -> (n: u32)
    requires
        held(*old(bytes)).len() >= 4,
    ensures
        be32(n) == held(*old(bytes)).take(4),
        held(*final(bytes)) == held(*old(bytes)).skip(4),
{
    bytes.get_u32()
}

/// `Buf::get_u64`: takes eight bytes off the front, the most significant first.
#[verifier::external_body]
pub(crate) fn get_u64(bytes: &mut Bytes) -> (n: u64)
    requires
        held(*old(bytes)).len() >= 8,
    ensures
        be64(n) == held(*old(bytes)).take(8),
        held(*final(bytes)) == held(*old(bytes)).skip(8),
{
    bytes.get_u64()
}

} // verus!
