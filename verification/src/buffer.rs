//! Byte buffers of the `bytes` crate: the receive buffer of an upgraded
//! connection (`BytesMut`) and the cached request body (`Bytes`).
//!
//! Verus does not look inside either. Their contents are named by
//! [`buffered`] and [`held`], and each method that the library calls is
//! reached through a small function whose contract is taken from the `bytes`
//! sources on trust.

use vstd::prelude::*;
use bytes::Buf;
use bytes::Bytes;
use bytes::BytesMut;

verus! {

#[verifier::external_type_specification]
#[verifier::external_body]
pub struct ExBytesMut(BytesMut);

#[verifier::external_type_specification]
#[verifier::external_body]
pub struct ExBytes(Bytes);

/// The bytes of an immutable buffer.
pub uninterp spec fn held(bytes: Bytes) -> Seq<u8>;

/// `Bytes::clone`: another handle on the same bytes.
#[verifier::external_body]
pub(crate) fn bytes_clone(bytes: &Bytes) -> (copy: Bytes)
    ensures
        held(copy) == held(*bytes),
{
    bytes.clone()
}

/// The bytes that a buffer currently holds, oldest first.
pub uninterp spec fn buffered(buffer: BytesMut) -> Seq<u8>;

/// `BytesMut::with_capacity`: a fresh buffer holds no bytes, whatever room
/// was reserved for it.
#[verifier::external_body]
pub(crate) fn buffer_with_capacity(capacity: usize) -> (buffer: BytesMut)
    ensures
        buffered(buffer) == Seq::<u8>::empty(),
{
    BytesMut::with_capacity(capacity)
}

/// `BytesMut::len`: the number of bytes held.
#[verifier::external_body]
pub(crate) fn buffer_len(buffer: &BytesMut) -> (n: usize)
    ensures
        n == buffered(*buffer).len(),
{
    buffer.len()
}

/// Indexing a `BytesMut` through its `Deref` to a byte slice: the byte at
/// position `i`. The index must be in range, since the slice index panics
/// otherwise.
#[verifier::external_body]
pub(crate) fn buffer_byte(buffer: &BytesMut, i: usize) -> (b: u8)
    requires
        i < buffered(*buffer).len(),
    ensures
        b == buffered(*buffer)[i as int],
{
    buffer[i]
}

/// Slicing a `BytesMut` through its `Deref` and copying the range out with
/// `to_vec`: the bytes from `from` up to, not including, `to`. The range must
/// lie inside the buffer, since the slice index panics otherwise.
#[verifier::external_body]
pub(crate) fn buffer_copy_range(buffer: &BytesMut, from: usize, to: usize) -> (out: Vec<u8>)
    requires
        from <= to <= buffered(*buffer).len(),
    ensures
        out@ == buffered(*buffer).subrange(from as int, to as int),
{
    buffer[from..to].to_vec()
}

/// `Buf::advance` on a `BytesMut`: drops the first `count` bytes and keeps the
/// rest in order. It panics when asked to drop more than it holds, so that is
/// required not to happen.
#[verifier::external_body]
pub(crate) fn buffer_advance(buffer: &mut BytesMut, count: usize)
    requires
        count <= buffered(*old(buffer)).len(),
    ensures
        buffered(*final(buffer)) == buffered(*old(buffer)).subrange(
            count as int,
            buffered(*old(buffer)).len() as int,
        ),
{
    buffer.advance(count)
}

/// `BytesMut::extend_from_slice`: appends the given bytes after those already
/// held.
#[verifier::external_body]
pub(crate) fn buffer_extend(buffer: &mut BytesMut, data: &[u8])
    ensures
        buffered(*final(buffer)) == buffered(*old(buffer)) + data@,
{
    buffer.extend_from_slice(data)
}

} // verus!
