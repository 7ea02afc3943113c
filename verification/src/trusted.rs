use vstd::prelude::*;
use vstd::utf8::{decode_utf8, valid_utf8};

use crate::wire::{be2, be4, u16_from_be, u32_from_be};

verus! {

#[verifier::external_type_specification]
#[verifier::external_body]
pub struct ExBytes(bytes::Bytes);

#[verifier::external_type_specification]
#[verifier::external_body]
pub struct ExBytesMut(bytes::BytesMut);

#[verifier::external_type_specification]
#[verifier::external_body]
pub struct ExFromUtf8Error(std::string::FromUtf8Error);

/// The bytes a `bytes::Bytes` cursor still holds, front to back.
pub uninterp spec fn bytes_view(b: bytes::Bytes) -> Seq<u8>;

/// The bytes a `bytes::BytesMut` builder holds so far, front to back.
pub uninterp spec fn bytes_mut_view(b: bytes::BytesMut) -> Seq<u8>;

/// Relies on bytes::BytesMut::with_capacity: the new builder is empty.
#[verifier::external_body]
pub(crate) fn bytes_mut_with_capacity(capacity: usize) -> (r: bytes::BytesMut)
    ensures
        bytes_mut_view(r) == Seq::<u8>::empty(),
{
    bytes::BytesMut::with_capacity(capacity)
}

/// Relies on bytes::BufMut::put_u8 for BytesMut: appends the one byte.
#[verifier::external_body]
pub(crate) fn put_u8(b: &mut bytes::BytesMut, v: u8)
    requires
        bytes_mut_view(*old(b)).len() < usize::MAX,
    ensures
        bytes_mut_view(*final(b)) == bytes_mut_view(*old(b)) + seq![v],
{
    bytes::BufMut::put_u8(b, v)
}

/// Relies on bytes::BufMut::put_u16 for BytesMut: appends the two bytes of
/// the integer in big-endian order.
#[verifier::external_body]
pub(crate) fn put_u16(b: &mut bytes::BytesMut, v: u16)
    requires
        bytes_mut_view(*old(b)).len() + 2 <= usize::MAX,
    ensures
        bytes_mut_view(*final(b)) == bytes_mut_view(*old(b)) + be2(v),
{
    bytes::BufMut::put_u16(b, v)
}

/// Relies on bytes::BufMut::put_u32 for BytesMut: appends the four bytes of
/// the integer in big-endian order.
#[verifier::external_body]
pub(crate) fn put_u32(b: &mut bytes::BytesMut, v: u32)
    requires
        bytes_mut_view(*old(b)).len() + 4 <= usize::MAX,
    ensures
        bytes_mut_view(*final(b)) == bytes_mut_view(*old(b)) + be4(v),
{
    bytes::BufMut::put_u32(b, v)
}

/// Relies on bytes::BufMut::put_slice for BytesMut: appends the slice verbatim.
#[verifier::external_body]
pub(crate) fn put_slice(b: &mut bytes::BytesMut, src: &[u8])
    requires
        bytes_mut_view(*old(b)).len() + src@.len() <= usize::MAX,
    ensures
        bytes_mut_view(*final(b)) == bytes_mut_view(*old(b)) + src@,
{
    bytes::BufMut::put_slice(b, src)
}

/// Relies on bytes::BytesMut::freeze: the frozen buffer holds the same bytes.
#[verifier::external_body]
pub(crate) fn freeze(b: bytes::BytesMut) -> (r: bytes::Bytes)
    ensures
        bytes_view(r) == bytes_mut_view(b),
{
    b.freeze()
}

/// Relies on bytes::Bytes::len: how many bytes remain.
#[verifier::external_body]
pub(crate) fn bytes_len(b: &bytes::Bytes) -> (r: usize)
    ensures
        r == bytes_view(*b).len(),
{
    b.len()
}

/// Relies on the slice index of Bytes (through Deref): reads the first byte
/// without consuming it.
#[verifier::external_body]
pub(crate) fn first_byte(b: &bytes::Bytes) -> (r: u8)
    requires
        bytes_view(*b).len() >= 1,
    ensures
        r == bytes_view(*b)[0],
{
    b[0]
}

/// Relies on bytes::Buf::get_u8 for Bytes: returns the first byte and
/// advances past it.
#[verifier::external_body]
pub(crate) fn get_u8(b: &mut bytes::Bytes) -> (r: u8)
    requires
        bytes_view(*old(b)).len() >= 1,
    ensures
        r == bytes_view(*old(b))[0],
        bytes_view(*final(b)) == bytes_view(*old(b)).skip(1),
{
    bytes::Buf::get_u8(b)
}

/// Relies on bytes::Buf::get_u16 for Bytes: reads the first two bytes as a
/// big-endian integer and advances past them.
#[verifier::external_body]
pub(crate) fn get_u16(b: &mut bytes::Bytes) -> (r: u16)
    requires
        bytes_view(*old(b)).len() >= 2,
    ensures
        r == u16_from_be(bytes_view(*old(b))[0], bytes_view(*old(b))[1]),
        bytes_view(*final(b)) == bytes_view(*old(b)).skip(2),
{
    bytes::Buf::get_u16(b)
}

/// Relies on bytes::Buf::get_u32 for Bytes: reads the first four bytes as a
/// big-endian integer and advances past them.
#[verifier::external_body]
pub(crate) fn get_u32(b: &mut bytes::Bytes) -> (r: u32)
    requires
        bytes_view(*old(b)).len() >= 4,
    ensures
        r == u32_from_be(
            bytes_view(*old(b))[0],
            bytes_view(*old(b))[1],
            bytes_view(*old(b))[2],
            bytes_view(*old(b))[3],
        ),
        bytes_view(*final(b)) == bytes_view(*old(b)).skip(4),
{
    bytes::Buf::get_u32(b)
}

/// Relies on bytes::Bytes::split_to: the first `at` bytes leave the cursor
/// and come back as a buffer of their own.
#[verifier::external_body]
pub(crate) fn split_to(b: &mut bytes::Bytes, at: usize) -> (r: bytes::Bytes)
    requires
        at <= bytes_view(*old(b)).len(),
    ensures
        bytes_view(r) == bytes_view(*old(b)).take(at as int),
        bytes_view(*final(b)) == bytes_view(*old(b)).skip(at as int),
{
    b.split_to(at)
}

/// Relies on the slice view of Bytes (through Deref) and slice::to_vec:
/// copies the remaining bytes out.
#[verifier::external_body]
pub(crate) fn to_vec(b: &bytes::Bytes) -> (r: Vec<u8>)
    ensures
        r@ == bytes_view(*b),
{
    b.to_vec()
}

/// Relies on String::from_utf8: succeeds exactly on valid UTF-8, and then
/// returns the string spelled by those bytes.
#[verifier::external_body]
pub(crate) fn string_from_utf8(v: Vec<u8>) -> (r: Result<String, std::string::FromUtf8Error>)
    ensures
        r is Ok <==> valid_utf8(v@),
        r matches Ok(s) ==> s@ == decode_utf8(v@),
{
    String::from_utf8(v)
}

/// Relies on ToString::to_string through FromUtf8Error's Display: renders the
/// validation diagnostic. Nothing is claimed of the wording.
#[verifier::external_body]
pub(crate) fn from_utf8_error_detail(e: &std::string::FromUtf8Error) -> (r: String) {
    e.to_string()
}

} // verus!
