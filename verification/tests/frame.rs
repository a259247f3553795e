use hyperqueue::stream::connection::FrameBuffer;
use hyperqueue::stream::frame::{
    decode_frame, encode_frame, FrameError, DEFAULT_MAX_FRAME_LEN, FRAME_PREFIX_LEN,
};

#[test]
fn frame_is_length_then_payload() {
    assert_eq!(encode_frame(b"abc"), Ok(vec![3, 0, 0, 0, b'a', b'b', b'c']));
    assert_eq!(encode_frame(b""), Ok(vec![0, 0, 0, 0]));
    let long = vec![7u8; 0x0001_0203];
    let frame = encode_frame(&long).unwrap();
    assert_eq!(&frame[..4], &[0x03, 0x02, 0x01, 0x00]);
    assert_eq!(&frame[4..], &long[..]);
    assert_eq!(FRAME_PREFIX_LEN, 4);
}

#[test]
fn decode_gives_back_what_encode_took() {
    let payload = b"sealed bytes".to_vec();
    let mut bytes = encode_frame(&payload).unwrap();
    let frame_len = bytes.len();
    bytes.extend(b"start of the next frame");
    assert_eq!(
        decode_frame(&bytes, DEFAULT_MAX_FRAME_LEN),
        Ok(Some((payload, frame_len)))
    );
}

#[test]
fn decode_waits_for_the_whole_frame() {
    let bytes = encode_frame(b"0123456789").unwrap();
    for got in 0..bytes.len() {
        assert_eq!(decode_frame(&bytes[..got], DEFAULT_MAX_FRAME_LEN), Ok(None), "got {}", got);
    }
    assert_eq!(
        decode_frame(&bytes, DEFAULT_MAX_FRAME_LEN),
        Ok(Some((b"0123456789".to_vec(), 14)))
    );
}

#[test]
fn decode_rejects_frames_over_the_limit() {
    assert_eq!(
        decode_frame(&[5, 0, 0, 0, 1, 2, 3, 4, 5], 4),
        Err(FrameError::FrameTooLarge { announced: 5 })
    );
    assert_eq!(decode_frame(&[5, 0, 0, 0, 1, 2, 3, 4, 5], 5), Ok(Some((vec![1, 2, 3, 4, 5], 9))));
    assert_eq!(
        decode_frame(&[0, 0, 0, 1], DEFAULT_MAX_FRAME_LEN),
        Err(FrameError::FrameTooLarge { announced: 0x0100_0000 })
    );
    assert_eq!(DEFAULT_MAX_FRAME_LEN, 8 * 1024 * 1024);
}

#[test]
fn empty_frame_is_a_frame() {
    assert_eq!(decode_frame(&[0, 0, 0, 0], 0), Ok(Some((vec![], 4))));
}

#[test]
fn buffer_hands_out_frames_in_order() {
    let mut wire = Vec::new();
    wire.extend(encode_frame(b"one").unwrap());
    wire.extend(encode_frame(b"").unwrap());
    wire.extend(encode_frame(b"three").unwrap());
    let mut buffer = FrameBuffer::new(DEFAULT_MAX_FRAME_LEN);
    let mut frames = Vec::new();
    for chunk in wire.chunks(2) {
        buffer.extend(chunk);
        while let Some(payload) = buffer.next_frame().unwrap() {
            frames.push(payload);
        }
    }
    assert_eq!(frames, vec![b"one".to_vec(), b"".to_vec(), b"three".to_vec()]);
    assert_eq!(buffer.len(), 0);
}

#[test]
fn buffer_keeps_what_is_not_a_whole_frame() {
    let mut buffer = FrameBuffer::new(16);
    assert_eq!(buffer.next_frame(), Ok(None));
    buffer.extend(&[2, 0, 0]);
    assert_eq!(buffer.next_frame(), Ok(None));
    assert_eq!(buffer.len(), 3);
    buffer.extend(&[0, 9]);
    assert_eq!(buffer.next_frame(), Ok(None));
    assert_eq!(buffer.len(), 5);
    buffer.extend(&[8, 1]);
    assert_eq!(buffer.next_frame(), Ok(Some(vec![9, 8])));
    assert_eq!(buffer.len(), 1);
    assert_eq!(buffer.next_frame(), Ok(None));
}

#[test]
fn buffer_reports_frames_over_its_limit() {
    let mut buffer = FrameBuffer::new(2);
    buffer.extend(&[3, 0, 0, 0, 1, 2, 3]);
    assert_eq!(buffer.next_frame(), Err(FrameError::FrameTooLarge { announced: 3 }));
    assert_eq!(buffer.len(), 7);
}
