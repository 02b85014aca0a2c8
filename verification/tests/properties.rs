use mbus_frame::Address;
use mbus_frame::Control;
use mbus_frame::ControlDecodeError;
use mbus_frame::Encodable;
use mbus_frame::Frame;
use mbus_frame::FrameError;
use mbus_frame::FrameWithControl;
use mbus_frame::LongFrame;
use mbus_frame::LongFrameDecodeError;
use mbus_frame::ShortFrame;
use mbus_frame::ShortFrameDecodeError;
use mbus_frame::SingleCharacterFrame;
use mbus_frame::SingleCharacterFrameDecodeError;

#[test]
fn address_bijection_covers_all_bytes() {
    for value in 0..=255u8 {
        let address = Address::from_byte(value);
        assert_eq!(address.to_byte(), value);
    }
}

#[test]
fn address_classifies_every_byte_range() {
    assert!(matches!(Address::from_byte(0), Address::Unconfigured));
    assert!(matches!(Address::from_byte(1), Address::Primary(1)));
    assert!(matches!(Address::from_byte(250), Address::Primary(250)));
    assert!(matches!(Address::from_byte(251), Address::Management));
    assert!(matches!(Address::from_byte(252), Address::Reserved));
    assert!(matches!(Address::from_byte(253), Address::Secondary));
    assert!(matches!(Address::from_byte(254), Address::Diagnosis));
    assert!(matches!(Address::from_byte(255), Address::Broadcast));
}

#[test]
fn control_bijection_covers_every_valid_byte() {
    let valid = [
        0x40u8, 0x53, 0x73, 0x5A, 0x7A, 0x5B, 0x7B, 0x08, 0x18, 0x28, 0x38,
    ];
    for value in 0..=255u8 {
        let result = Control::try_from_byte(value);
        if valid.contains(&value) {
            assert_eq!(result.unwrap().to_byte(), value);
        } else {
            assert!(matches!(
                result,
                Err(ControlDecodeError::UnsupportedCommunicationType)
            ));
        }
    }
}

#[test]
fn control_canonical_bytes_reencode_bit_clear() {
    for value in [0x40u8, 0x53, 0x5A, 0x5B, 0x08] {
        let control = Control::try_from_byte(value).unwrap();
        assert_eq!(control.to_byte(), value);
        assert_eq!(control.to_byte() & 0x20, 0);
    }
}

#[test]
fn round_trip_short_frame() {
    let frame = ShortFrame::new(
        Control::Response {
            fcb: true,
            fcv: true,
        },
        Address::Secondary,
    );
    let bytes = frame.to_bytes();
    let decoded = ShortFrame::try_from_bytes(&bytes).unwrap();
    assert_eq!(decoded.start, frame.start);
    assert!(matches!(
        decoded.control,
        Control::Response {
            fcb: true,
            fcv: true
        }
    ));
    assert!(matches!(decoded.address, Address::Secondary));
    assert_eq!(decoded.checksum, frame.checksum);
    assert_eq!(decoded.end, frame.end);
    assert_eq!(decoded.to_bytes(), bytes);
}

#[test]
fn round_trip_long_frame() {
    let frame = LongFrame::new(
        Control::Request { fcb: true },
        Address::Primary(0x42),
        &[0xDE, 0xAD, 0xBE, 0xEF],
    );
    let bytes = frame.to_bytes();
    let decoded = LongFrame::try_from_bytes(&bytes).unwrap();
    assert_eq!(decoded.start1, frame.start1);
    assert_eq!(decoded.length1, frame.length1);
    assert_eq!(decoded.length2, frame.length2);
    assert_eq!(decoded.start2, frame.start2);
    assert!(matches!(decoded.control, Control::Request { fcb: true }));
    assert!(matches!(decoded.address, Address::Primary(0x42)));
    assert_eq!(decoded.data, frame.data);
    assert_eq!(decoded.checksum, frame.checksum);
    assert_eq!(decoded.end, frame.end);
    assert_eq!(decoded.to_bytes(), bytes);
}

#[test]
fn round_trip_single_character_frame() {
    let bytes = SingleCharacterFrame::Nack.to_bytes();
    let decoded = SingleCharacterFrame::try_from_bytes(&bytes).unwrap();
    assert!(matches!(decoded, SingleCharacterFrame::Nack));
    assert_eq!(decoded.to_bytes(), bytes);
}

#[test]
fn round_trip_generic_frame() {
    let frame = Frame::new_long(
        Control::Send { fcb: false },
        Address::Broadcast,
        vec![0x01, 0x02],
    );
    let bytes = frame.to_bytes();
    let decoded = Frame::try_from_bytes(&bytes).unwrap();
    assert!(matches!(decoded, Frame::Long(_)));
    assert_eq!(decoded.to_bytes(), bytes);
}

#[test]
fn long_checksum_wraps_modulo_256() {
    let data = [0xFFu8, 0xFF, 0x02];
    let frame = LongFrame::new(Control::Send { fcb: false }, Address::Primary(0x01), &data);
    let expected = (0x53u32 + 0x01 + 0xFF + 0xFF + 0x02) % 256;
    assert_eq!(frame.checksum as u32, expected);
}

#[test]
fn short_checksum_wraps_modulo_256() {
    let frame = ShortFrame::new(Control::Send { fcb: true }, Address::Broadcast);
    let expected = (0x73u32 + 0xFF) % 256;
    assert_eq!(frame.checksum as u32, expected);
}

#[test]
fn short_decode_reports_length_before_start_byte() {
    // wrong length and wrong start byte at once: the length error wins
    let bytes = vec![0x11, 0x40, 0x01];
    let err = ShortFrame::try_from_bytes(&bytes).unwrap_err();
    assert!(matches!(err, ShortFrameDecodeError::InvalidLength(3)));
}

#[test]
fn long_decode_reports_size_before_start_byte() {
    // wrong size and wrong start byte at once: the size error wins
    let bytes = vec![0x69, 0x00, 0x00];
    let err = LongFrame::try_from_bytes(&bytes).unwrap_err();
    assert!(matches!(err, LongFrameDecodeError::InvalidSize(3)));
}

#[test]
fn long_decode_reports_length_mismatch_before_end_byte() {
    // mismatched length fields and wrong end byte at once
    let bytes = vec![
        0x68, 0x06, 0x07, 0x68, 0x53, 0x01, 0x00, 0x01, 0x02, 0x03, 0x5A, 0x15,
    ];
    let err = LongFrame::try_from_bytes(&bytes).unwrap_err();
    assert!(matches!(
        err,
        LongFrameDecodeError::LengthMismatch(0x06, 0x07)
    ));
}

#[test]
fn empty_long_frame_encodes_to_eight_bytes() {
    let frame = LongFrame::new(Control::Send { fcb: false }, Address::Primary(0x05), &[]);
    let bytes = frame.to_bytes();
    assert_eq!(bytes, vec![0x68, 0x02, 0x02, 0x68, 0x53, 0x05, 0x58, 0x16]);
    let decoded = LongFrame::try_from_bytes(&bytes).unwrap();
    assert_eq!(decoded.data, Vec::<u8>::new());
}

#[test]
fn largest_long_frame_encodes_to_259_bytes() {
    let data = vec![0xABu8; 251];
    let frame = LongFrame::new(Control::Send { fcb: false }, Address::Primary(0x01), &data);
    let bytes = frame.to_bytes();
    assert_eq!(bytes.len(), 259);
    assert_eq!(bytes[1], 0xFD);
    let decoded = LongFrame::try_from_bytes(&bytes).unwrap();
    assert_eq!(decoded.data, data);
}

#[test]
fn oversized_long_frame_is_rejected_on_decode() {
    // a 260-byte buffer claiming 252 bytes of user data
    let mut bytes = vec![0x68, 0xFE, 0xFE, 0x68, 0x53, 0x01];
    bytes.extend(vec![0x00; 252]);
    bytes.push(0x54);
    bytes.push(0x16);
    assert_eq!(bytes.len(), 260);
    let err = LongFrame::try_from_bytes(&bytes).unwrap_err();
    assert!(matches!(err, LongFrameDecodeError::InvalidSize(260)));
}

#[test]
fn short_frame_count_bit_keeps_stored_checksum() {
    let frame = ShortFrame::new(Control::Send { fcb: false }, Address::Primary(0x01));
    let toggled = frame.with_frame_count_bit(true);
    assert!(matches!(toggled.control, Control::Send { fcb: true }));
    // the checksum is not recomputed from the new control byte
    assert_eq!(toggled.checksum, frame.checksum);
    let bytes = toggled.to_bytes();
    assert_eq!(bytes, vec![0x10, 0x73, 0x01, 0x54, 0x16]);
}

#[test]
fn long_frame_count_bit_keeps_stored_checksum() {
    let frame = LongFrame::new(
        Control::Send { fcb: false },
        Address::Primary(0x01),
        &[0x09],
    );
    let toggled = frame.with_frame_count_bit(true);
    assert!(matches!(toggled.control, Control::Send { fcb: true }));
    assert_eq!(toggled.checksum, frame.checksum);
    assert_eq!(toggled.data, frame.data);
}

#[test]
fn control_frame_count_bit_preserves_kind_and_fcv() {
    let response = Control::Response {
        fcb: false,
        fcv: true,
    };
    assert!(matches!(
        response.with_frame_count_bit(true),
        Control::Response {
            fcb: true,
            fcv: true
        }
    ));
    assert!(matches!(
        Control::Initialize.with_frame_count_bit(true),
        Control::Initialize
    ));
}

#[test]
fn single_frame_count_bit_is_identity() {
    let frame = Frame::new_single(SingleCharacterFrame::Ack);
    let toggled = frame.with_frame_count_bit(true);
    assert!(matches!(toggled, Frame::Single(SingleCharacterFrame::Ack)));
}

#[test]
fn frame_decodes_ack_and_nack() {
    let ack = Frame::try_from_bytes(&[0xE5]).unwrap();
    assert!(matches!(ack, Frame::Single(SingleCharacterFrame::Ack)));
    let nack = Frame::try_from_bytes(&[0xA2]).unwrap();
    assert!(matches!(nack, Frame::Single(SingleCharacterFrame::Nack)));
}

#[test]
fn frame_wraps_single_character_decode_error() {
    let err = Frame::try_from_bytes(&[0xE5, 0x00]).unwrap_err();
    assert!(matches!(
        err,
        FrameError::SingleCharacterFrame(SingleCharacterFrameDecodeError::InvalidSize(2))
    ));
}

#[test]
fn long_decode_rejects_unsupported_control() {
    // structurally sound long frame whose control byte 0x54 is
    // undocumented: the checksum over the raw bytes matches, so the
    // control byte is the first check that fails
    let bytes = vec![
        0x68, 0x06, 0x06, 0x68, 0x54, 0x01, 0x00, 0x01, 0x02, 0x03, 0x5B, 0x16,
    ];
    let err = LongFrame::try_from_bytes(&bytes).unwrap_err();
    assert!(matches!(
        err,
        LongFrameDecodeError::ControlDecodeError(
            ControlDecodeError::UnsupportedCommunicationType
        )
    ));
}

#[test]
fn short_decode_rejects_unsupported_control() {
    // structurally sound short frame whose control byte 0x41 is undocumented
    let bytes = vec![0x10, 0x41, 0x01, 0x42, 0x16];
    let err = ShortFrame::try_from_bytes(&bytes).unwrap_err();
    assert!(matches!(
        err,
        ShortFrameDecodeError::ControlDecodeError(
            ControlDecodeError::UnsupportedCommunicationType
        )
    ));
}

#[test]
fn frame_detection_error_carries_the_byte() {
    let err = Frame::try_from_bytes(&[0x00]).unwrap_err();
    assert!(matches!(
        err,
        FrameError::Detection(mbus_frame::FrameDetectionError::UnknownFrameType(0x00))
    ));
}

#[test]
fn get_type_reports_the_active_shape() {
    let short = Frame::new_short(Control::Initialize, Address::Unconfigured);
    assert!(matches!(short.get_type(), mbus_frame::FrameType::Short));
    let long = Frame::new_long(Control::Initialize, Address::Unconfigured, vec![]);
    assert!(matches!(long.get_type(), mbus_frame::FrameType::Long));
    let single = Frame::new_single(SingleCharacterFrame::Nack);
    assert!(matches!(single.get_type(), mbus_frame::FrameType::Single));
}
