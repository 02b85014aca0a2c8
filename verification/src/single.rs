use crate::frame::Encodable;
use vstd::prelude::*;

verus! {

/// M-Bus Single Character Frame
///
/// An M-Bus single character frame is used for simple control commands
/// and acknowledgments. It consists of a single byte: ACK is 0xE5 and
/// NACK is 0xA2.
#[derive(Debug, Copy, Clone)]
pub enum SingleCharacterFrame {
    /// Positive Acknowledgment (ACK)
    Ack,

    /// Negative Acknowledgment (NACK)
    Nack,
}

/// Errors that can occur when decoding an M-Bus single character frame
#[derive(Debug, Copy, Clone)]
pub enum SingleCharacterFrameDecodeError {
    /// The input is not exactly one byte long; carries the actual length.
    InvalidSize(usize),

    /// The single byte is neither of the two sentinels; carries the byte.
    InvalidByte(u8),
}

impl SingleCharacterFrame {
    /// The single byte that is the whole message.
    pub open spec fn spec_byte(self) -> u8 {
        match self {
            SingleCharacterFrame::Ack => 0xE5,
            SingleCharacterFrame::Nack => 0xA2,
        }
    }
}

impl View for SingleCharacterFrame {
    type V = SingleCharacterFrame;

    open spec fn view(&self) -> SingleCharacterFrame {
        *self
    }
}

impl Encodable for SingleCharacterFrame {
    type Error = SingleCharacterFrameDecodeError;

    open spec fn spec_to_bytes(&self) -> Seq<u8> {
        seq![self.spec_byte()]
    }

    open spec fn spec_try_from_bytes(bytes: Seq<u8>) -> Result<Self, Self::Error> {
        if bytes.len() != 1 {
            Err(SingleCharacterFrameDecodeError::InvalidSize(bytes.len() as usize))
        } else if bytes[0] == 0xE5 {
            Ok(SingleCharacterFrame::Ack)
        } else if bytes[0] == 0xA2 {
            Ok(SingleCharacterFrame::Nack)
        } else {
            Err(SingleCharacterFrameDecodeError::InvalidByte(bytes[0]))
        }
    }

    /// Convert the single character frame to a byte vector
    fn to_bytes(&self) -> (bytes: Vec<u8>) {
        match self {
            SingleCharacterFrame::Ack => vec![0xE5],
            SingleCharacterFrame::Nack => vec![0xA2],
        }
    }

    /// Create a single character frame from a byte slice
    fn try_from_bytes(bytes: &[u8]) -> (result: Result<Self, Self::Error>) {
        if bytes.len() != 1 {
            return Err(SingleCharacterFrameDecodeError::InvalidSize(bytes.len()));
        }

        if bytes[0] == 0xE5 {
            Ok(SingleCharacterFrame::Ack)
        } else if bytes[0] == 0xA2 {
            Ok(SingleCharacterFrame::Nack)
        } else {
            Err(SingleCharacterFrameDecodeError::InvalidByte(bytes[0]))
        }
    }
}

/// Decoding after encoding restores every single character frame value.
pub proof fn lemma_single_roundtrip(frame: SingleCharacterFrame)
    ensures
        SingleCharacterFrame::spec_try_from_bytes(frame.spec_to_bytes())
            == Ok::<SingleCharacterFrame, SingleCharacterFrameDecodeError>(frame),
{
}

} // verus!
