//! The byte containers of `ntex` that carry a body: `Bytes` for a chunk as the
//! stream yields it, `BytesMut` for the buffer that collects the chunks.
//!
//! Verus cannot look inside either type. What each holds has a name here, and
//! the few operations the decoder needs are stated over those names.
use ntex::util::{Bytes, BytesMut};
use vstd::prelude::*;

verus! {

/// `ntex::util::Bytes`, an immutable run of bytes; opaque to the verifier.
#[verifier::external_type_specification]
#[verifier::external_body]
pub struct ExBytes(ntex::util::Bytes);

/// `ntex::util::BytesMut`, a growable byte buffer; opaque to the verifier.
#[verifier::external_type_specification]
#[verifier::external_body]
pub struct ExBytesMut(ntex::util::BytesMut);

/// The bytes that a chunk holds, in order.
pub uninterp spec fn chunk_bytes(chunk: Bytes) -> Seq<u8>;

/// The bytes that a buffer holds, in order.
pub uninterp spec fn buffer_bytes(buffer: BytesMut) -> Seq<u8>;

/// The largest number of bytes that a buffer is ever asked to hold.
///
/// A `BytesMut` of `ntex` stores its capacity in 32 bits next to a header of
/// at most 32 bytes; a request beyond that panics. Where a `usize` has 32
/// bits, it also grows to twice its length at a time, and that allocation has
/// to stay under `isize::MAX`.
pub open spec fn max_buffer() -> usize {
    if usize::BITS == 64 {
        0xFFFF_FFDF
    } else {
        0x3FFF_FFE0
    }
}

/// The largest number of bytes that a buffer is ever asked to hold:
/// 4 GiB less 33 bytes where a `usize` has 64 bits, 1 GiB less 32 bytes where
/// it has 32.
pub fn largest_buffer() -> (max: usize)
    ensures
        max == max_buffer(),
        max >= 0x3FFF_FFE0,
{
    if usize::BITS == 64 {
        0xFFFF_FFDF
    } else {
        0x3FFF_FFE0
    }
}

/// The capacity that a fresh buffer starts with.
pub const INITIAL_CAPACITY: usize = 8192;

/// Calls `Bytes::len`: the number of bytes in the chunk.
#[verifier::external_body]
pub(crate) fn chunk_len(chunk: &Bytes) -> (n: usize)
    ensures
        n == chunk_bytes(*chunk).len(),
{
    chunk.len()
}

/// Calls `BytesMut::with_capacity`: a buffer that holds no bytes. The capacity
/// asked for has to stay within [`max_buffer`].
#[verifier::external_body]
pub(crate) fn new_buffer(capacity: usize) -> (buffer: BytesMut)
    requires
        capacity <= max_buffer(),
    ensures
        buffer_bytes(buffer) == Seq::<u8>::empty(),
{
    BytesMut::with_capacity(capacity)
}

/// Calls `BytesMut::len`: the number of bytes in the buffer.
#[verifier::external_body]
pub(crate) fn buffer_len(buffer: &BytesMut) -> (n: usize)
    ensures
        n == buffer_bytes(*buffer).len(),
{
    buffer.len()
}

/// Calls `Deref::deref` of `BytesMut`: the bytes of the buffer as a slice.
#[verifier::external_body]
pub(crate) fn buffer_slice(buffer: &BytesMut) -> (bytes: &[u8])
    ensures
        bytes@ == buffer_bytes(*buffer),
{
    buffer
}

/// Calls `BytesMut::extend_from_slice` with the bytes of `chunk`: they are
/// appended to the buffer, which keeps what it held. The new length has to
/// stay within [`max_buffer`].
#[verifier::external_body]
pub(crate) fn append_chunk(buffer: &mut BytesMut, chunk: &Bytes)
    requires
        buffer_bytes(*old(buffer)).len() + chunk_bytes(*chunk).len() <= max_buffer(),
    ensures
        buffer_bytes(*final(buffer)) == buffer_bytes(*old(buffer)) + chunk_bytes(*chunk),
{
    buffer.extend_from_slice(chunk);
}

} // verus!
