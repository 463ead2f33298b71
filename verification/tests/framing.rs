use perftest::messages_handler::{
    decode_length_prefix, frame_message, payload_buffer, ErrorControl, FrameError, State,
    MAX_CONTROL_MESSAGE, MESSAGE_LENGTH_SIZE,
};

#[test]
fn frame_puts_big_endian_length_before_payload() {
    let frame = frame_message(b"hello").unwrap();
    assert_eq!(&frame[..], &[0u8, 0, 0, 5, b'h', b'e', b'l', b'l', b'o'][..]);
}

#[test]
fn frame_of_empty_payload_is_four_zero_bytes() {
    let frame = frame_message(&[]).unwrap();
    assert_eq!(&frame[..], &[0u8, 0, 0, 0][..]);
}

#[test]
fn frame_length_of_a_large_payload() {
    let payload = vec![7u8; 0x0001_0203];
    let frame = frame_message(&payload).unwrap();
    assert_eq!(frame.len(), MESSAGE_LENGTH_SIZE + payload.len());
    assert_eq!(&frame[..4], &[0u8, 0x01, 0x02, 0x03][..]);
    assert_eq!(&frame[4..], &payload[..]);
}

#[test]
fn length_prefix_is_read_big_endian() {
    assert_eq!(decode_length_prefix([0x08, 0x09, 0xA0, 0xA1]), 0x0809A0A1);
    assert_eq!(decode_length_prefix([0, 0, 0, 5]), 5);
    assert_eq!(decode_length_prefix([0xff, 0xff, 0xff, 0xff]), u32::MAX);
}

#[test]
fn reader_gets_back_what_writer_framed() {
    let payload = br#"{"Hello":{"cookie":"abc"}}"#;
    let frame = frame_message(payload).unwrap();
    let prefix = [frame[0], frame[1], frame[2], frame[3]];
    let size = decode_length_prefix(prefix);
    assert_eq!(size as usize, payload.len());
    let mut buf = payload_buffer(size).unwrap();
    buf.copy_from_slice(&frame[4..]);
    assert_eq!(&buf[..], &payload[..]);
}

#[test]
fn payload_buffer_is_zero_filled() {
    let buf = payload_buffer(3).unwrap();
    assert_eq!(&buf[..], &[0u8, 0, 0][..]);
    assert_eq!(payload_buffer(0).unwrap().len(), 0);
}

#[test]
fn payload_buffer_accepts_the_limit() {
    let buf = payload_buffer(MAX_CONTROL_MESSAGE).unwrap();
    assert_eq!(buf.len(), MAX_CONTROL_MESSAGE as usize);
}

#[test]
fn payload_buffer_refuses_over_the_limit() {
    assert_eq!(
        payload_buffer(MAX_CONTROL_MESSAGE + 1).unwrap_err(),
        FrameError::HeaderTooLarge { size: MAX_CONTROL_MESSAGE + 1 }
    );
    assert_eq!(
        payload_buffer(u32::MAX).unwrap_err(),
        FrameError::HeaderTooLarge { size: u32::MAX }
    );
}

#[test]
fn error_control_texts() {
    assert_eq!(
        ErrorControl::AccessDenied("Test already in-flight".to_string()).description(),
        "Access denied: Test already in-flight"
    );
    assert_eq!(
        ErrorControl::CannotAcceptStream("x".to_string()).description(),
        "Cannot accept a stream connection: x"
    );
    assert_eq!(
        ErrorControl::CannotCreateStream(String::new()).description(),
        "Cannot create a stream connection: "
    );
}

#[test]
fn state_duplicate_is_equal() {
    let s = State::CreateStreams { cookie: "abc".to_string() };
    assert_eq!(s.duplicate(), s);
    assert_eq!(State::Running.duplicate(), State::Running);
}
