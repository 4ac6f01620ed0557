use pwmp_server::codec::{encode_frame, frame_length, length_prefix, MAX_FRAME, RCV_BUFFER_SIZE};
use pwmp_server::error::Error;

#[test]
fn empty_frame_is_rejected() {
    assert_eq!(frame_length([0, 0, 0, 0], RCV_BUFFER_SIZE), Err(Error::IllegalMessageLength));
}

#[test]
fn frame_one_above_max_is_rejected() {
    let len = (MAX_FRAME + 1) as u32;
    assert_eq!(frame_length(len.to_be_bytes(), RCV_BUFFER_SIZE), Err(Error::IllegalMessageLength));
    assert_eq!(frame_length([0, 0, 4, 1], RCV_BUFFER_SIZE), Err(Error::IllegalMessageLength));
}

#[test]
fn frame_lengths_are_big_endian() {
    assert_eq!(frame_length([0, 0, 0, 5], RCV_BUFFER_SIZE), Ok(5));
    assert_eq!(frame_length([0, 0, 1, 2], RCV_BUFFER_SIZE), Ok(258));
    assert_eq!(frame_length([0, 0, 4, 0], RCV_BUFFER_SIZE), Ok(1024));
    assert_eq!(frame_length([1, 0, 0, 0], RCV_BUFFER_SIZE), Err(Error::IllegalMessageLength));
}

#[test]
fn frame_above_buffer_capacity_is_rejected() {
    assert_eq!(frame_length([0, 0, 0, 10], 8), Err(Error::InvalidBuffer));
    assert_eq!(frame_length([0, 0, 0, 8], 8), Ok(8));
}

#[test]
fn length_prefix_round_trips() {
    assert_eq!(length_prefix(0x0102_0304), Ok([1, 2, 3, 4]));
    let prefix = length_prefix(300).unwrap();
    assert_eq!(frame_length(prefix, RCV_BUFFER_SIZE), Ok(300));
}

#[test]
fn length_prefix_rejects_oversized_payloads() {
    if usize::BITS > 32 {
        let len = (u32::MAX as usize) + 1;
        assert_eq!(length_prefix(len), Err(Error::MessageTooLarge));
    }
}

#[test]
fn frames_carry_prefix_then_payload() {
    assert_eq!(encode_frame(&[7, 8, 9]), Ok(vec![0, 0, 0, 3, 7, 8, 9]));
    assert_eq!(encode_frame(&[]), Ok(vec![0, 0, 0, 0]));
}
