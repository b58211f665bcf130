//! The byte buffers of the `bytes` crate.

use bytes::{Buf, Bytes, BytesMut};
use vstd::prelude::*;

verus! {

/// The shared buffer of `bytes`. Verus sees nothing inside it.
#[verifier::external_type_specification]
#[verifier::external_body]
pub struct ExBytes(Bytes);

/// The growing buffer of `bytes`. Verus sees nothing inside it.
#[verifier::external_type_specification]
#[verifier::external_body]
pub struct ExBytesMut(BytesMut);

/// The bytes that a buffer holds.
pub uninterp spec fn content(bytes: Bytes) -> Seq<u8>;

/// The bytes that were gathered in a buffer.
pub uninterp spec fn gathered(bytes: BytesMut) -> Seq<u8>;

/// Calls `BytesMut::new`: nothing gathered yet.
#[verifier::external_body]
pub(crate) fn gather() -> (bytes: BytesMut)
    ensures
        gathered(bytes) == Seq::<u8>::empty(),
{
    BytesMut::new()
}

/// Calls `BytesMut::extend_from_slice`: the slice follows what was gathered.
#[verifier::external_body]
pub(crate) fn append(bytes: &mut BytesMut, slice: &[u8])
    ensures
        gathered(*final(bytes)) == gathered(*old(bytes)) + slice@,
{
    bytes.extend_from_slice(slice)
}

/// Calls `BytesMut::freeze`: a buffer of what was gathered.
#[verifier::external_body]
pub(crate) fn frozen(bytes: BytesMut) -> (frozen: Bytes)
    ensures
        content(frozen) == gathered(bytes),
{
    bytes.freeze()
}

/// Calls `Bytes::new`: an empty buffer.
#[verifier::external_body]
pub(crate) fn no_bytes() -> (bytes: Bytes)
    ensures
        content(bytes) == Seq::<u8>::empty(),
{
    Bytes::new()
}

/// Calls `Bytes::len`: how many bytes the buffer holds.
#[verifier::external_body]
pub(crate) fn length(bytes: &Bytes) -> (length: usize)
    ensures
        length == content(*bytes).len(),
{
    bytes.len()
}

/// Calls `Bytes::clone`: another buffer with the same bytes.
#[verifier::external_body]
pub(crate) fn share(bytes: &Bytes) -> (shared: Bytes)
    ensures
        content(shared) == content(*bytes),
{
    bytes.clone()
}

/// Calls `Buf::copy_to_bytes` on a `Bytes`: takes that many bytes off the front
/// and leaves the rest. `bytes` panics on more than the buffer holds.
#[verifier::external_body]
pub(crate) fn take_front(bytes: &mut Bytes, count: usize) -> (front: Bytes)
    requires
        count <= content(*old(bytes)).len(),
    ensures
        content(front) == content(*old(bytes)).take(count as int),
        content(*final(bytes)) == content(*old(bytes)).skip(count as int),
{
    bytes.copy_to_bytes(count)
}

/// Calls `Bytes::copy_from_slice`: a buffer with the same bytes.
#[verifier::external_body]
pub(crate) fn copied(slice: &[u8]) -> (bytes: Bytes)
    ensures
        content(bytes) == slice@,
{
    Bytes::copy_from_slice(slice)
}

} // verus!
