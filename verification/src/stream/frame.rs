//! Frames on the wire between a producer and the stream server.
//!
//! A frame is a length of four bytes, least significant byte first, followed by exactly that
//! many bytes of sealed payload. What the payload means is not the business of this module: it
//! is opened, and turned into a message, by whoever owns the connection's keys.
use crate::stream::buffer::{
    buffer_bytes, buffer_put_slice, buffer_put_u32_le, buffer_to_vec, buffer_with_capacity,
    le_bytes, le_value, lemma_le_value_of_le_bytes, read_u32_le,
};
use vstd::prelude::*;
use vstd::slice::{slice_subrange, slice_to_vec};

verus! {

/// The length of the length field that starts a frame.
pub const FRAME_PREFIX_LEN: usize = 4;

/// The longest payload that a receiver accepts unless it is told otherwise: 8 MiB.
pub const DEFAULT_MAX_FRAME_LEN: u32 = 8388608;

/// Why a frame could not be written or read.
#[derive(Debug, Clone, Copy, PartialEq, Eq, Structural)]
pub enum FrameError {
    /// The payload to be sent does not fit into one frame.
    PayloadTooLarge,
    /// The frame announces a payload that is longer than the receiver accepts.
    FrameTooLarge { announced: u32 },
}

/// Whether a payload of `len` bytes fits into one frame: its length has to fit into the length
/// field, and the whole frame into one allocation.
pub open spec fn frame_fits(len: nat) -> bool {
    len <= u32::MAX && len + FRAME_PREFIX_LEN <= isize::MAX
}

/// The bytes of the frame that carries `payload`.
pub open spec fn frame_bytes(payload: Seq<u8>) -> Seq<u8> {
    le_bytes(payload.len() as u32) + payload
}

/// What a receiver finds at the start of the bytes that it has got so far.
pub enum FrameView {
    /// The bytes do not yet hold a whole frame.
    Incomplete,
    /// The bytes start with a whole frame of `taken` bytes that carries `payload`.
    Complete { payload: Seq<u8>, taken: nat },
    /// The bytes start with a frame that announces more than `max_len` bytes of payload.
    TooLarge { announced: u32 },
}

/// What the start of `bytes` holds for a receiver that accepts payloads of up to `max_len`
/// bytes.
pub open spec fn decode_frame_spec(bytes: Seq<u8>, max_len: u32) -> FrameView {
    if bytes.len() < FRAME_PREFIX_LEN {
        FrameView::Incomplete
    } else {
        let announced = le_value(bytes.subrange(0, 4));
        if announced > max_len {
            FrameView::TooLarge { announced }
        } else if bytes.len() < FRAME_PREFIX_LEN + announced {
            FrameView::Incomplete
        } else {
            FrameView::Complete {
                payload: bytes.subrange(4, 4 + announced),
                taken: (FRAME_PREFIX_LEN + announced) as nat,
            }
        }
    }
}

/// Puts `payload` into a frame. It fails, with `FrameError::PayloadTooLarge`, exactly when the
/// payload does not fit into one frame.
pub fn encode_frame(payload: &[u8]) -> (result: Result<Vec<u8>, FrameError>)
    ensures
        result is Ok <==> frame_fits(payload@.len()),
        result matches Ok(bytes) ==> bytes@ == frame_bytes(payload@),
        result matches Err(e) ==> e == FrameError::PayloadTooLarge,
{
    let len = payload.len();
    if len > u32::MAX as usize || len > isize::MAX as usize - FRAME_PREFIX_LEN {
        return Err(FrameError::PayloadTooLarge);
    }
    let mut buffer = buffer_with_capacity(len + FRAME_PREFIX_LEN);
    buffer_put_u32_le(&mut buffer, len as u32);
    buffer_put_slice(&mut buffer, payload);
    Ok(buffer_to_vec(&buffer))
}

/// Takes one frame from the start of `bytes`, the bytes received so far and not yet used.
///
/// `Ok(Some((payload, taken)))` hands out the payload of the first frame and the number of
/// bytes to drop from the start of `bytes`; `Ok(None)` says that the first frame has not
/// arrived completely; `Err` says that it announces a payload longer than `max_len`, which ends
/// the connection.
pub fn decode_frame(bytes: &[u8], max_len: u32) -> (result: Result<
    Option<(Vec<u8>, usize)>,
    FrameError,
>)
    ensures
        match decode_frame_spec(bytes@, max_len) {
            FrameView::Incomplete => result == Ok::<Option<(Vec<u8>, usize)>, FrameError>(None),
            FrameView::Complete { payload, taken } => result matches Ok(Some((p, n))) && p@
                == payload && n == taken,
            FrameView::TooLarge { announced } => result == Err::<
                Option<(Vec<u8>, usize)>,
                FrameError,
            >(FrameError::FrameTooLarge { announced }),
        },
{
    let len = bytes.len();
    if len < FRAME_PREFIX_LEN {
        return Ok(None);
    }
    let announced = read_u32_le(slice_subrange(bytes, 0, 4));
    if announced > max_len {
        return Err(FrameError::FrameTooLarge { announced });
    }
    if ((len - FRAME_PREFIX_LEN) as u64) < announced as u64 {
        return Ok(None);
    }
    let end = FRAME_PREFIX_LEN + announced as usize;
    let payload = slice_to_vec(slice_subrange(bytes, FRAME_PREFIX_LEN, end));
    Ok(Some((payload, end)))
}

/// A frame followed by anything is read back as the payload that was put into it, and exactly
/// its bytes are taken, by every receiver that accepts payloads of that length.
pub proof fn lemma_decode_encoded_frame(payload: Seq<u8>, rest: Seq<u8>, max_len: u32)
    requires
        payload.len() <= max_len,
    ensures
        decode_frame_spec(frame_bytes(payload) + rest, max_len) == (FrameView::Complete {
            payload,
            taken: (FRAME_PREFIX_LEN + payload.len()) as nat,
        }),
{
    let bytes = frame_bytes(payload) + rest;
    let size = payload.len() as u32;
    lemma_le_value_of_le_bytes(size, Seq::<u8>::empty());
    assert(bytes.subrange(4, 4 + size) =~= payload);
}

/// A frame of which the last byte is still missing is not read as a frame.
pub proof fn lemma_decode_partial_frame(payload: Seq<u8>, max_len: u32, got: int)
    requires
        payload.len() <= max_len,
        0 <= got < FRAME_PREFIX_LEN + payload.len(),
    ensures
        decode_frame_spec(frame_bytes(payload).subrange(0, got), max_len) == FrameView::Incomplete,
{
    if got >= FRAME_PREFIX_LEN {
        lemma_le_value_of_le_bytes(payload.len() as u32, Seq::<u8>::empty());
    }
}

} // verus!
