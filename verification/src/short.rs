use crate::address::Address;
use crate::address::lemma_address_value_roundtrip;
use crate::checksum::add_mod;
use crate::control::Control;
use crate::control::ControlDecodeError;
use crate::control::lemma_control_value_roundtrip;
use crate::frame::Encodable;
use crate::frame::FrameWithControl;
use vstd::prelude::*;

verus! {

/// M-Bus Short Frame
///
/// An M-Bus short frame is a fixed-length frame used for simple
/// communication that doesn't transmit user data. Its five bytes are the
/// start sentinel 0x10, the control byte, the address byte, the checksum
/// and the end sentinel 0x16.
#[derive(Debug, Clone)]
pub struct ShortFrame {
    /// Start byte (0x10)
    ///
    /// The start byte marks the beginning of the short frame.
    pub start: u8,

    /// Control
    ///
    /// The control byte is used to indicate the type of frame.
    pub control: Control,

    /// Address
    ///
    /// The address byte specifies the address of the addressed slave.
    pub address: Address,

    /// Checksum
    ///
    /// The checksum byte is used for error detection. It is calculated as
    /// the sum of the control and address bytes, modulo 256.
    pub checksum: u8,

    /// End byte (0x16)
    ///
    /// The end byte marks the end of the short frame.
    pub end: u8,
}

/// Start byte of an M-Bus short frame
pub const START_BYTE: u8 = 0x10;

/// End byte of an M-Bus short frame
pub const END_BYTE: u8 = 0x16;

/// Length of an M-Bus short frame
pub const LENGTH: usize = 5;

/// Errors that can occur when decoding an M-Bus short frame
#[derive(Debug, Copy, Clone)]
pub enum ShortFrameDecodeError {
    /// The input is not exactly five bytes long; carries the actual length.
    InvalidLength(usize),

    /// The first byte is not the start sentinel; carries the byte found.
    InvalidStartByte(u8),

    /// The stored checksum does not match the recomputed one; carries the
    /// recomputed checksum, then the stored byte.
    InvalidChecksum(u8, u8),

    /// The last byte is not the end sentinel; carries the byte found.
    InvalidEndByte(u8),

    /// The control byte matches no documented pattern; carries the cause.
    ControlDecodeError(ControlDecodeError),
}

impl ShortFrame {
    /// Checksum rule of the short frame: the sum of the control byte and
    /// the address byte, modulo 256.
    pub open spec fn spec_checksum(control: Control, address: Address) -> u8 {
        add_mod(control.spec_to_byte(), address.spec_to_byte())
    }

    /// The frame `new` builds: both sentinels, the given fields, and the
    /// checksum derived from them.
    pub open spec fn spec_new(control: Control, address: Address) -> ShortFrame {
        ShortFrame {
            start: START_BYTE,
            control,
            address,
            checksum: ShortFrame::spec_checksum(control, address),
            end: END_BYTE,
        }
    }

    /// A valid short frame: correct sentinels, a valid address, and the
    /// checksum derived from the stored control and address.
    pub open spec fn wf(self) -> bool {
        &&& self.start == START_BYTE
        &&& self.end == END_BYTE
        &&& self.checksum == ShortFrame::spec_checksum(self.control, self.address)
        &&& self.address.wf()
    }

    /// Create a new M-Bus short frame
    pub fn new(control: Control, address: Address) -> (frame: ShortFrame)
        ensures
            frame == ShortFrame::spec_new(control, address),
            address.wf() ==> frame.wf(),
    {
        ShortFrame {
            start: START_BYTE,
            control,
            address,
            checksum: ShortFrame::compute_checksum(control, address),
            end: END_BYTE,
        }
    }

    /// Compute the checksum of a short frame: the sum of the control byte
    /// and the address byte, modulo 256.
    fn compute_checksum(control: Control, address: Address) -> (checksum: u8)
        ensures
            checksum == ShortFrame::spec_checksum(control, address),
            checksum == (control.spec_to_byte() + address.spec_to_byte()) % 256,
    {
        control.to_byte().wrapping_add(address.to_byte())
    }
}

impl View for ShortFrame {
    type V = ShortFrame;

    open spec fn view(&self) -> ShortFrame {
        *self
    }
}

impl Encodable for ShortFrame {
    type Error = ShortFrameDecodeError;

    open spec fn spec_to_bytes(&self) -> Seq<u8> {
        seq![
            self.start,
            self.control.spec_to_byte(),
            self.address.spec_to_byte(),
            self.checksum,
            self.end,
        ]
    }

    open spec fn spec_try_from_bytes(bytes: Seq<u8>) -> Result<Self, Self::Error> {
        if bytes.len() != LENGTH {
            Err(ShortFrameDecodeError::InvalidLength(bytes.len() as usize))
        } else if bytes[0] != START_BYTE {
            Err(ShortFrameDecodeError::InvalidStartByte(bytes[0]))
        } else if add_mod(bytes[1], bytes[2]) != bytes[3] {
            Err(ShortFrameDecodeError::InvalidChecksum(add_mod(bytes[1], bytes[2]), bytes[3]))
        } else if bytes[4] != END_BYTE {
            Err(ShortFrameDecodeError::InvalidEndByte(bytes[4]))
        } else {
            match Control::spec_from_byte(bytes[1]) {
                Ok(control) => Ok(
                    ShortFrame {
                        start: bytes[0],
                        control,
                        address: Address::spec_from_byte(bytes[2]),
                        checksum: bytes[3],
                        end: bytes[4],
                    },
                ),
                Err(error) => Err(ShortFrameDecodeError::ControlDecodeError(error)),
            }
        }
    }

    /// Convert the short frame to a byte vector.
    fn to_bytes(&self) -> (bytes: Vec<u8>) {
        let bytes = vec![
            self.start,
            self.control.to_byte(),
            self.address.to_byte(),
            self.checksum,
            self.end,
        ];
        proof {
            assert(bytes@ =~= self.spec_to_bytes());
        }
        bytes
    }

    /// Try decoding a byte slice into a short frame.
    ///
    /// The checks run in a fixed order - length, start byte, checksum, end
    /// byte, control byte - and the first one that fails determines the
    /// error, so a buffer violating several rules always reports the same
    /// reason.
    fn try_from_bytes(bytes: &[u8]) -> (result: Result<Self, Self::Error>) {
        // Ensure that the length is correct
        if bytes.len() != LENGTH {
            return Err(ShortFrameDecodeError::InvalidLength(bytes.len()));
        }

        // Ensure that the start byte is correct
        if bytes[0] != START_BYTE {
            return Err(ShortFrameDecodeError::InvalidStartByte(bytes[0]));
        }

        // Ensure that the checksum is correct
        let checksum = bytes[1].wrapping_add(bytes[2]);
        if checksum != bytes[3] {
            return Err(ShortFrameDecodeError::InvalidChecksum(checksum, bytes[3]));
        }

        // Ensure that the end byte is correct
        if bytes[4] != END_BYTE {
            return Err(ShortFrameDecodeError::InvalidEndByte(bytes[4]));
        }

        let control = match Control::try_from_byte(bytes[1]) {
            Ok(control) => control,
            Err(error) => {
                return Err(ShortFrameDecodeError::ControlDecodeError(error));
            },
        };

        Ok(
            ShortFrame {
                start: bytes[0],
                control,
                address: Address::from_byte(bytes[2]),
                checksum: bytes[3],
                end: bytes[4],
            },
        )
    }
}

impl FrameWithControl for ShortFrame {
    open spec fn spec_with_frame_count_bit(&self, fcb: bool) -> ShortFrame {
        ShortFrame {
            control: self.control.spec_with_frame_count_bit(fcb),
            ..*self
        }
    }

    /// Set or clear the FCB of the stored control field. The checksum is
    /// not recomputed: it stays derived from the control value the frame
    /// was constructed with, so a caller that needs the checksum to track
    /// the new control byte must rebuild the frame with `new`.
    fn with_frame_count_bit(&self, fcb: bool) -> (frame: ShortFrame) {
        ShortFrame {
            start: self.start,
            control: self.control.with_frame_count_bit(fcb),
            address: self.address,
            checksum: self.checksum,
            end: self.end,
        }
    }
}

/// A valid short frame decodes from its own encoding, byte-for-byte and
/// field-for-field.
pub proof fn lemma_short_roundtrip(frame: ShortFrame)
    requires
        frame.wf(),
    ensures
        ShortFrame::spec_try_from_bytes(frame.spec_to_bytes())
            == Ok::<ShortFrame, ShortFrameDecodeError>(frame),
{
    lemma_control_value_roundtrip(frame.control);
    lemma_address_value_roundtrip(frame.address);
}

/// Decoding reports the length error on every input that is not exactly
/// five bytes long, whatever else is wrong with the buffer: the checks of
/// the validation order short-circuit at the first failure.
pub proof fn lemma_short_decode_length_first(bytes: Seq<u8>)
    requires
        bytes.len() != 5,
    ensures
        ShortFrame::spec_try_from_bytes(bytes)
            == Err::<ShortFrame, ShortFrameDecodeError>(
                ShortFrameDecodeError::InvalidLength(bytes.len() as usize),
            ),
{
}

/// Checksum rule of the short frame, stated arithmetically: the checksum
/// is the sum of the control byte and the address byte, modulo 256.
pub proof fn lemma_short_checksum(control: Control, address: Address)
    ensures
        ShortFrame::spec_checksum(control, address)
            == (control.spec_to_byte() + address.spec_to_byte()) % 256,
{
}

} // verus!
