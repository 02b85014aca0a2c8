use mbus_frame::Encodable;
use mbus_frame::SingleCharacterFrame;
use mbus_frame::SingleCharacterFrameDecodeError;

#[test]
fn single_it_encodes_the_frame_to_a_byte_vector() {
    let frame = SingleCharacterFrame::Ack;
    let bytes = frame.to_bytes();
    assert_eq!(bytes, vec![0xE5]);
}

#[test]
fn it_decodes_a_byte_slice_to_a_frame() {
    let bytes = vec![0xE5];
    let frame = SingleCharacterFrame::try_from_bytes(&bytes).unwrap();
    matches!(frame, SingleCharacterFrame::Ack);
}

#[test]
fn it_fails_to_decode_a_byte_slice_with_invalid_size() {
    let bytes = vec![0xE5, 0x00];
    let err = SingleCharacterFrame::try_from_bytes(&bytes).unwrap_err();
    assert!(matches!(
        err,
        SingleCharacterFrameDecodeError::InvalidSize(2)
    ));
}

#[test]
fn it_fails_to_decode_a_byte_slice_with_invalid_byte() {
    let bytes = vec![0x00];
    let err = SingleCharacterFrame::try_from_bytes(&bytes).unwrap_err();
    assert!(matches!(
        err,
        SingleCharacterFrameDecodeError::InvalidByte(0x00)
    ));
}
