//! The byte buffer that frames are written to and read from.

use bytes::BytesMut;
use vstd::prelude::*;

verus! {

#[verifier::external_type_specification]
#[verifier::external_body]
pub struct ExBytesMut(BytesMut);

/// The bytes that a buffer holds, first to last.
pub uninterp spec fn buffer_bytes(buffer: BytesMut) -> Seq<u8>;

/// The contents of a `BytesMut` as a slice, through its `Deref`: the bytes
/// that the buffer holds.
#[verifier::external_body]
pub(crate) fn as_slice(buffer: &BytesMut) -> (bytes: &[u8])
    ensures
        bytes@ == buffer_bytes(*buffer),
{
    &buffer[..]
}

/// `BytesMut::split_to`: the first `at` bytes leave the buffer and are
/// returned, here copied into a vector; the buffer keeps the rest. The
/// method panics where `at` exceeds the length, which `requires` rules out.
#[verifier::external_body]
pub(crate) fn split_to(buffer: &mut BytesMut, at: usize) -> (head: Vec<u8>)
    requires
        at <= buffer_bytes(*old(buffer)).len(),
    ensures
        head@ == buffer_bytes(*old(buffer)).take(at as int),
        buffer_bytes(*final(buffer)) == buffer_bytes(*old(buffer)).skip(at as int),
{
    buffer.split_to(at).to_vec()
}

/// `BytesMut::extend_from_slice`: the bytes are appended to the buffer.
#[verifier::external_body]
pub(crate) fn extend_from_slice(buffer: &mut BytesMut, bytes: &[u8])
    ensures
        buffer_bytes(*final(buffer)) == buffer_bytes(*old(buffer)) + bytes@,
{
    buffer.extend_from_slice(bytes)
}

} // verus!
