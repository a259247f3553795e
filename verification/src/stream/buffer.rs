//! The byte buffer in which records and frames are assembled, and the reading of integers out
//! of received bytes.
//!
//! The buffer is `bytes::BytesMut` and the integers are read by `byteorder`. Verus does not look
//! into either crate: every function in this file that is marked `external_body` states what the
//! crate's function does, and that statement is taken on trust.
use byteorder::{ByteOrder, LittleEndian};
use bytes::{BufMut, BytesMut};
use vstd::prelude::*;

verus! {

#[verifier::external_type_specification]
#[verifier::external_body]
pub struct ExBytesMut(bytes::BytesMut);

/// The bytes that a buffer holds, in the order in which they were put.
pub uninterp spec fn buffer_bytes(buffer: BytesMut) -> Seq<u8>;

/// The four bytes of `n`, least significant first.
pub open spec fn le_bytes(n: u32) -> Seq<u8> {
    seq![
        (n % 256) as u8,
        ((n / 256) % 256) as u8,
        ((n / 65536) % 256) as u8,
        ((n / 16777216) % 256) as u8,
    ]
}

/// The number whose four bytes, least significant first, open `bytes`.
pub open spec fn le_value(bytes: Seq<u8>) -> u32
    recommends
        bytes.len() >= 4,
{
    (bytes[0] + 256 * bytes[1] + 65536 * bytes[2] + 16777216 * bytes[3]) as u32
}

/// Reading back the bytes of a number gives the number, whatever follows the four bytes.
pub proof fn lemma_le_value_of_le_bytes(n: u32, rest: Seq<u8>)
    ensures
        le_bytes(n).len() == 4,
        le_value(le_bytes(n) + rest) == n,
{
}

/// `BytesMut::with_capacity`: a new buffer, which holds no bytes.
#[verifier::external_body]
pub(crate) fn buffer_with_capacity(capacity: usize) -> (buffer: BytesMut)
    requires
        capacity <= isize::MAX,
    ensures
        buffer_bytes(buffer) == Seq::<u8>::empty(),
{
    BytesMut::with_capacity(capacity)
}

/// `BytesMut::clear`: the buffer holds no bytes afterwards.
#[verifier::external_body]
pub(crate) fn buffer_clear(buffer: &mut BytesMut)
    ensures
        buffer_bytes(*final(buffer)) == Seq::<u8>::empty(),
{
    buffer.clear()
}

/// `BufMut::put_u8` on a `BytesMut`: appends one byte. The buffer grows as needed, as long as
/// its length stays within `isize::MAX`.
#[verifier::external_body]
pub(crate) fn buffer_put_u8(buffer: &mut BytesMut, byte: u8)
    requires
        buffer_bytes(*old(buffer)).len() + 1 <= isize::MAX,
    ensures
        buffer_bytes(*final(buffer)) == buffer_bytes(*old(buffer)).push(byte),
{
    buffer.put_u8(byte)
}

/// `BufMut::put_u32_le` on a `BytesMut`: appends the four bytes of `n`, least significant
/// first. The buffer grows as needed, as long as its length stays within `isize::MAX`.
#[verifier::external_body]
pub(crate) fn buffer_put_u32_le(buffer: &mut BytesMut, n: u32)
    requires
        buffer_bytes(*old(buffer)).len() + 4 <= isize::MAX,
    ensures
        buffer_bytes(*final(buffer)) == buffer_bytes(*old(buffer)) + le_bytes(n),
{
    buffer.put_u32_le(n)
}

/// `BufMut::put_slice` on a `BytesMut`: appends the bytes of `src`. The buffer grows as needed,
/// as long as its length stays within `isize::MAX`.
#[verifier::external_body]
pub(crate) fn buffer_put_slice(buffer: &mut BytesMut, src: &[u8])
    requires
        buffer_bytes(*old(buffer)).len() + src@.len() <= isize::MAX,
    ensures
        buffer_bytes(*final(buffer)) == buffer_bytes(*old(buffer)) + src@,
{
    buffer.put_slice(src)
}

/// Copies the bytes that a `BytesMut` holds into a vector (through its `Deref` to a slice).
#[verifier::external_body]
pub(crate) fn buffer_to_vec(buffer: &BytesMut) -> (bytes: Vec<u8>)
    ensures
        bytes@ == buffer_bytes(*buffer),
{
    buffer.to_vec()
}

/// `LittleEndian::read_u32` of `byteorder`: the number stored in the first four bytes of `bytes`,
/// least significant byte first. It panics on fewer than four bytes.
#[verifier::external_body]
pub(crate) fn read_u32_le(bytes: &[u8]) -> (n: u32)
    requires
        bytes@.len() >= 4,
    ensures
        n == le_value(bytes@),
{
    LittleEndian::read_u32(bytes)
}

} // verus!
