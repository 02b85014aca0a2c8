use crate::address::Address;
use crate::address::lemma_address_value_roundtrip;
use crate::checksum::add_mod;
use crate::checksum::byte_sum;
use crate::checksum::lemma_sum_mod_is_byte_sum;
use crate::checksum::sum_bytes;
use crate::checksum::sum_mod;
use crate::control::Control;
use crate::control::ControlDecodeError;
use crate::control::lemma_control_value_roundtrip;
use crate::frame::Encodable;
use crate::frame::FrameWithControl;
use vstd::arithmetic::div_mod::lemma_add_mod_noop;
use vstd::prelude::*;
use vstd::slice::slice_subrange;
use vstd::slice::slice_to_vec;

verus! {

/// M-Bus Long Frame
///
/// An M-Bus long frame is a variable-length frame used for transmitting
/// user data and control information. Its layout is: start sentinel 0x68,
/// the length byte twice, the start sentinel again, the control byte, the
/// address byte, 0-251 bytes of user data, the checksum, and the end
/// sentinel 0x16. The length byte counts the control and address bytes
/// plus the user data.
#[derive(Debug, Clone)]
pub struct LongFrame {
    /// Start byte (0x68)
    ///
    /// The start byte marks the beginning of the long frame.
    pub start1: u8,

    /// Length of the user data plus the control and address bytes
    pub length1: u8,

    /// Length of the user data plus the control and address bytes, again
    pub length2: u8,

    /// Start byte, again (0x68)
    pub start2: u8,

    /// Control
    ///
    /// The control byte is used to indicate the type of frame.
    pub control: Control,

    /// Address
    ///
    /// The address byte specifies the address of the addressed slave.
    pub address: Address,

    /// User data
    pub data: Vec<u8>,

    /// Checksum
    ///
    /// The checksum byte is used for error detection. It is calculated as
    /// the sum of the control byte, the address byte and every data byte,
    /// each addition modulo 256.
    pub checksum: u8,

    /// End byte (0x16)
    ///
    /// The end byte marks the end of the long frame.
    pub end: u8,
}

/// Mathematical image of a long frame: the same fields, with the user
/// data held as a byte sequence instead of a vector.
#[verifier::ext_equal]
pub struct LongFrameImage {
    /// Start byte (0x68)
    pub start1: u8,

    /// Length field
    pub length1: u8,

    /// Length field, again
    pub length2: u8,

    /// Start byte, again (0x68)
    pub start2: u8,

    /// Control field
    pub control: Control,

    /// Address field
    pub address: Address,

    /// User data
    pub data: Seq<u8>,

    /// Checksum byte
    pub checksum: u8,

    /// End byte (0x16)
    pub end: u8,
}

/// Start byte of an M-Bus long frame
pub const START_BYTE: u8 = 0x68;

/// End byte of an M-Bus long frame
pub const END_BYTE: u8 = 0x16;

/// Minimum length of an M-Bus long frame
///
/// The minimum length of an M-Bus long frame is 8 bytes, which
/// corresponds to a frame with no user data.
pub const MIN_LENGTH: usize = 8;

/// Maximum length of an M-Bus long frame
///
/// The maximum length of an M-Bus long frame is 259 bytes, which
/// corresponds to a frame with 251 bytes of user data.
pub const MAX_LENGTH: usize = 259;

/// Maximum number of user data bytes in an M-Bus long frame
///
/// A long frame spends 8 bytes on its sentinels, length fields, control,
/// address and checksum, so the 259-byte frame size cap leaves room for
/// 251 bytes of user data.
pub const MAX_DATA_LENGTH: usize = 251;

/// Errors that can occur when decoding an M-Bus long frame
#[derive(Debug, Copy, Clone)]
pub enum LongFrameDecodeError {
    /// The input is shorter than 8 or longer than 259 bytes; carries the
    /// actual length.
    InvalidSize(usize),

    /// The input length does not match the declared length field; carries
    /// the declared length, then the length the input implies.
    InvalidLength(u8, u8),

    /// The first byte is not the start sentinel; carries the byte found.
    InvalidStartByte(u8),

    /// The two start bytes differ; carries both.
    StartByteMismatch(u8, u8),

    /// The two length fields differ; carries both.
    LengthMismatch(u8, u8),

    /// The stored checksum does not match the recomputed one; carries the
    /// recomputed checksum, then the stored byte.
    InvalidChecksum(u8, u8),

    /// The last byte is not the end sentinel; carries the byte found.
    InvalidEndByte(u8),

    /// The control byte matches no documented pattern; carries the cause.
    ControlDecodeError(ControlDecodeError),
}

impl View for LongFrame {
    type V = LongFrameImage;

    open spec fn view(&self) -> LongFrameImage {
        LongFrameImage {
            start1: self.start1,
            length1: self.length1,
            length2: self.length2,
            start2: self.start2,
            control: self.control,
            address: self.address,
            data: self.data@,
            checksum: self.checksum,
            end: self.end,
        }
    }
}

impl LongFrameImage {
    /// The byte sequence the frame encodes to: the four header bytes, the
    /// control and address bytes, the user data, the checksum and the end
    /// byte.
    pub open spec fn spec_to_bytes(self) -> Seq<u8> {
        seq![
            self.start1,
            self.length1,
            self.length2,
            self.start2,
            self.control.spec_to_byte(),
            self.address.spec_to_byte(),
        ] + self.data + seq![self.checksum, self.end]
    }

    /// A valid long frame: correct sentinels, a valid address, both length
    /// fields counting the control and address bytes plus the data, the
    /// data within the one-byte length field's reach, and the checksum
    /// derived from the stored control, address and data.
    pub open spec fn wf(self) -> bool {
        &&& self.start1 == START_BYTE
        &&& self.start2 == START_BYTE
        &&& self.end == END_BYTE
        &&& self.data.len() <= MAX_DATA_LENGTH
        &&& self.length1 == 2 + self.data.len()
        &&& self.length2 == self.length1
        &&& self.checksum == LongFrame::spec_checksum(self.control, self.address, self.data)
        &&& self.address.wf()
    }
}

impl LongFrame {
    /// Checksum rule of the long frame over raw bytes: the sum of the
    /// control byte, the address byte and every data byte, each addition
    /// modulo 256.
    pub open spec fn spec_checksum_bytes(control_byte: u8, address_byte: u8, data: Seq<u8>) -> u8 {
        add_mod(add_mod(control_byte, address_byte), sum_mod(data))
    }

    /// Checksum rule of the long frame, over the typed control and address
    /// fields: the same sum, taken over their encodings.
    pub open spec fn spec_checksum(control: Control, address: Address, data: Seq<u8>) -> u8 {
        LongFrame::spec_checksum_bytes(control.spec_to_byte(), address.spec_to_byte(), data)
    }

    /// The image of the frame `new` builds: both sentinels, the length of
    /// the data plus two in both length fields, the given fields, and the
    /// checksum derived from them.
    pub open spec fn spec_new(control: Control, address: Address, data: Seq<u8>) -> LongFrameImage {
        LongFrameImage {
            start1: START_BYTE,
            length1: (2 + data.len()) as u8,
            length2: (2 + data.len()) as u8,
            start2: START_BYTE,
            control,
            address,
            data,
            checksum: LongFrame::spec_checksum(control, address, data),
            end: END_BYTE,
        }
    }

    /// Create a new M-Bus long frame.
    ///
    /// The frame size cap of 259 bytes leaves room for at most 251 bytes
    /// of user data; a larger payload would encode to a frame that no
    /// decoder accepts.
    pub fn new(control: Control, address: Address, data: &[u8]) -> (frame: LongFrame)
        requires
            data@.len() <= MAX_DATA_LENGTH,
        ensures
            frame@ == LongFrame::spec_new(control, address, data@),
            address.wf() ==> frame@.wf(),
    {
        let length = 2 + data.len() as u8;

        LongFrame {
            start1: START_BYTE,
            length1: length,
            length2: length,
            start2: START_BYTE,
            control,
            address,
            data: slice_to_vec(data),
            checksum: LongFrame::compute_checksum(control, address, data),
            end: END_BYTE,
        }
    }

    /// Compute the checksum of a long frame: the sum of the control byte,
    /// the address byte and every data byte, modulo 256.
    fn compute_checksum(control: Control, address: Address, data: &[u8]) -> (checksum: u8)
        ensures
            checksum == LongFrame::spec_checksum(control, address, data@),
            checksum == (control.spec_to_byte() + address.spec_to_byte() + byte_sum(data@)) % 256,
    {
        proof {
            lemma_long_checksum(control, address, data@);
        }
        control.to_byte().wrapping_add(address.to_byte()).wrapping_add(sum_bytes(data))
    }
}

impl Encodable for LongFrame {
    type Error = LongFrameDecodeError;

    open spec fn spec_to_bytes(&self) -> Seq<u8> {
        self@.spec_to_bytes()
    }

    open spec fn spec_try_from_bytes(bytes: Seq<u8>) -> Result<LongFrameImage, LongFrameDecodeError> {
        if bytes.len() < MIN_LENGTH || bytes.len() > MAX_LENGTH {
            Err(LongFrameDecodeError::InvalidSize(bytes.len() as usize))
        } else if bytes[0] != START_BYTE {
            Err(LongFrameDecodeError::InvalidStartByte(bytes[0]))
        } else if bytes[0] != bytes[3] {
            Err(LongFrameDecodeError::StartByteMismatch(bytes[0], bytes[3]))
        } else if bytes[1] != bytes[2] {
            Err(LongFrameDecodeError::LengthMismatch(bytes[1], bytes[2]))
        } else if bytes.len() != bytes[1] + 6 {
            Err(LongFrameDecodeError::InvalidLength(bytes[1], (bytes.len() - 6) as u8))
        } else {
            let data = bytes.subrange(6, bytes.len() - 2);
            let checksum = LongFrame::spec_checksum_bytes(bytes[4], bytes[5], data);
            if checksum != bytes[bytes.len() - 2] {
                Err(LongFrameDecodeError::InvalidChecksum(checksum, bytes[bytes.len() - 2]))
            } else if bytes[bytes.len() - 1] != END_BYTE {
                Err(LongFrameDecodeError::InvalidEndByte(bytes[bytes.len() - 1]))
            } else {
                match Control::spec_from_byte(bytes[4]) {
                    Err(error) => Err(LongFrameDecodeError::ControlDecodeError(error)),
                    Ok(control) => Ok(
                        LongFrameImage {
                            start1: bytes[0],
                            length1: bytes[1],
                            length2: bytes[2],
                            start2: bytes[3],
                            control,
                            address: Address::spec_from_byte(bytes[5]),
                            data,
                            checksum: bytes[bytes.len() - 2],
                            end: bytes[bytes.len() - 1],
                        },
                    ),
                }
            }
        }
    }

    /// Convert the long frame to a byte vector.
    fn to_bytes(&self) -> (bytes: Vec<u8>) {
        let mut bytes: Vec<u8> = Vec::new();

        bytes.push(self.start1);
        bytes.push(self.length1);
        bytes.push(self.length2);
        bytes.push(self.start2);
        bytes.push(self.control.to_byte());
        bytes.push(self.address.to_byte());

        let ghost header: Seq<u8> = bytes@;
        let mut i: usize = 0;
        while i < self.data.len()
            invariant
                i <= self.data.len(),
                bytes@ == header + self.data@.take(i as int),
            decreases self.data.len() - i,
        {
            bytes.push(self.data[i]);
            proof {
                assert(bytes@ =~= header + self.data@.take(i + 1));
            }
            i = i + 1;
        }

        bytes.push(self.checksum);
        bytes.push(self.end);

        proof {
            assert(self.data@.take(self.data@.len() as int) =~= self.data@);
            assert(bytes@ =~= self.spec_to_bytes());
        }
        bytes
    }

    /// Try decoding a byte slice into a long frame.
    ///
    /// The checks run in a fixed order - size, start byte, matching start
    /// bytes, matching length fields, declared length, checksum, end
    /// byte, control byte - and the first one that fails determines the
    /// error, so a buffer violating several rules always reports the same
    /// reason. The checksum is computed over the raw control and address
    /// bytes, so a checksum mismatch is reported even when the control
    /// byte is itself invalid.
    fn try_from_bytes(bytes: &[u8]) -> (result: Result<Self, Self::Error>) {
        // Ensure that the size of the frame isn't too short, or too long
        if bytes.len() < MIN_LENGTH || bytes.len() > MAX_LENGTH {
            return Err(LongFrameDecodeError::InvalidSize(bytes.len()));
        }

        // Ensure that the start byte is correct
        if bytes[0] != START_BYTE {
            return Err(LongFrameDecodeError::InvalidStartByte(bytes[0]));
        }

        // Ensure that the start bytes match
        if bytes[0] != bytes[3] {
            return Err(LongFrameDecodeError::StartByteMismatch(bytes[0], bytes[3]));
        }

        // Ensure that the length fields match
        if bytes[1] != bytes[2] {
            return Err(LongFrameDecodeError::LengthMismatch(bytes[1], bytes[2]));
        }

        // Ensure that the length field is correct
        let declared_length = bytes[1];
        if bytes.len() != declared_length as usize + 6 {
            return Err(LongFrameDecodeError::InvalidLength(declared_length, (bytes.len() - 6) as u8));
        }

        // Ensure that the checksum is correct
        let data = slice_subrange(bytes, 6, bytes.len() - 2);
        let checksum = bytes[4].wrapping_add(bytes[5]).wrapping_add(sum_bytes(data));
        let checksum_index = bytes.len() - 2;
        if checksum != bytes[checksum_index] {
            return Err(LongFrameDecodeError::InvalidChecksum(checksum, bytes[checksum_index]));
        }

        // Ensure that the end byte is correct
        let end_index = bytes.len() - 1;
        if bytes[end_index] != END_BYTE {
            return Err(LongFrameDecodeError::InvalidEndByte(bytes[end_index]));
        }

        // Ensure that the control byte is valid
        let control = match Control::try_from_byte(bytes[4]) {
            Ok(control) => control,
            Err(error) => {
                return Err(LongFrameDecodeError::ControlDecodeError(error));
            },
        };

        Ok(
            LongFrame {
                start1: bytes[0],
                length1: bytes[1],
                length2: bytes[2],
                start2: bytes[3],
                control,
                address: Address::from_byte(bytes[5]),
                data: slice_to_vec(data),
                checksum: bytes[checksum_index],
                end: bytes[end_index],
            },
        )
    }
}

impl FrameWithControl for LongFrame {
    open spec fn spec_with_frame_count_bit(&self, fcb: bool) -> LongFrameImage {
        LongFrameImage {
            control: self.control.spec_with_frame_count_bit(fcb),
            ..self@
        }
    }

    /// Set or clear the FCB of the stored control field. The checksum is
    /// not recomputed: it stays derived from the control value the frame
    /// was constructed with, so a caller that needs the checksum to track
    /// the new control byte must rebuild the frame with `new`.
    fn with_frame_count_bit(&self, fcb: bool) -> (frame: LongFrame) {
        LongFrame {
            start1: self.start1,
            length1: self.length1,
            length2: self.length2,
            start2: self.start2,
            control: self.control.with_frame_count_bit(fcb),
            address: self.address,
            data: slice_to_vec(self.data.as_slice()),
            checksum: self.checksum,
            end: self.end,
        }
    }
}

/// A valid long frame decodes from its own encoding, byte-for-byte and
/// field-for-field.
pub proof fn lemma_long_roundtrip(frame: LongFrameImage)
    requires
        frame.wf(),
    ensures
        LongFrame::spec_try_from_bytes(frame.spec_to_bytes())
            == Ok::<LongFrameImage, LongFrameDecodeError>(frame),
{
    let bytes = frame.spec_to_bytes();
    assert(bytes.len() == frame.data.len() + 8);
    assert(bytes[0] == frame.start1);
    assert(bytes[1] == frame.length1);
    assert(bytes[2] == frame.length2);
    assert(bytes[3] == frame.start2);
    assert(bytes[4] == frame.control.spec_to_byte());
    assert(bytes[5] == frame.address.spec_to_byte());
    assert(bytes[bytes.len() - 2] == frame.checksum);
    assert(bytes[bytes.len() - 1] == frame.end);
    lemma_control_value_roundtrip(frame.control);
    lemma_address_value_roundtrip(frame.address);
    assert(bytes.subrange(6, bytes.len() - 2) =~= frame.data);
    assert(LongFrame::spec_try_from_bytes(bytes) matches Ok(image) && image == frame);
}

/// Checksum rule of the long frame, stated arithmetically: the checksum
/// is the sum of the control byte, the address byte and every data byte,
/// modulo 256.
pub proof fn lemma_long_checksum(control: Control, address: Address, data: Seq<u8>)
    ensures
        LongFrame::spec_checksum(control, address, data)
            == (control.spec_to_byte() + address.spec_to_byte() + byte_sum(data)) % 256,
{
    let control_byte = control.spec_to_byte();
    let address_byte = address.spec_to_byte();
    lemma_sum_mod_is_byte_sum(data);
    lemma_add_mod_noop(control_byte + address_byte, byte_sum(data), 256);
}

/// A valid long frame encodes to 8 bytes plus its user data: 8 bytes for
/// an empty payload, up to 259 bytes for the maximum 251 bytes of data.
pub proof fn lemma_long_frame_size(frame: LongFrameImage)
    requires
        frame.wf(),
    ensures
        frame.spec_to_bytes().len() == 8 + frame.data.len(),
        8 <= frame.spec_to_bytes().len() <= 259,
{
}

/// Decoding rejects every input shorter than 8 or longer than 259 bytes
/// with an invalid-size error, whatever else is wrong with the buffer; in
/// particular no input carrying more than 251 bytes of user data decodes.
pub proof fn lemma_long_decode_size_bound(bytes: Seq<u8>)
    requires
        bytes.len() < 8 || bytes.len() > 259,
    ensures
        LongFrame::spec_try_from_bytes(bytes)
            == Err::<LongFrameImage, LongFrameDecodeError>(
                LongFrameDecodeError::InvalidSize(bytes.len() as usize),
            ),
{
}

} // verus!
