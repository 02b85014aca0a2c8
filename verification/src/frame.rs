use crate::address::Address;
use crate::control::Control;
use crate::long::LongFrame;
use crate::long::LongFrameDecodeError;
use crate::long::LongFrameImage;
use crate::long::MAX_DATA_LENGTH;
use crate::long::lemma_long_roundtrip;
use crate::short::ShortFrame;
use crate::short::ShortFrameDecodeError;
use crate::short::lemma_short_roundtrip;
use crate::single::SingleCharacterFrame;
use crate::single::SingleCharacterFrameDecodeError;
use crate::single::lemma_single_roundtrip;
use vstd::prelude::*;

verus! {

/// Trait for M-Bus frames: conversion between a typed frame value and its
/// wire representation as a byte sequence.
///
/// Contracts are stated against the frame's mathematical image `Self::V`
/// (for frames that carry user data, the view replaces the data vector by
/// a byte sequence).
pub trait Encodable: View + Sized {
    /// Error type for frame decoding
    type Error;

    /// The byte sequence the frame encodes to.
    spec fn spec_to_bytes(&self) -> Seq<u8>;

    /// What decoding a byte sequence yields: the image of the decoded
    /// frame, or the earliest-triggered decode error for the validation
    /// order of the frame shape.
    spec fn spec_try_from_bytes(bytes: Seq<u8>) -> Result<Self::V, Self::Error>;

    /// Convert the frame to a byte vector.
    fn to_bytes(&self) -> (bytes: Vec<u8>)
        ensures
            bytes@ == self.spec_to_bytes(),
    ;

    /// Create a frame from a byte slice.
    fn try_from_bytes(bytes: &[u8]) -> (result: Result<Self, Self::Error>)
        ensures
            result matches Ok(frame)
                ==> Self::spec_try_from_bytes(bytes@) == Ok::<Self::V, Self::Error>(frame@),
            result matches Err(error)
                ==> Self::spec_try_from_bytes(bytes@) == Err::<Self::V, Self::Error>(error),
    ;
}

/// Trait for M-Bus frames that carry a control field, on which the frame
/// count bit (FCB) can be set or cleared.
pub trait FrameWithControl: View + Sized {
    /// The image of the frame with its control field's FCB set or cleared
    /// and every other field unchanged.
    spec fn spec_with_frame_count_bit(&self, fcb: bool) -> Self::V;

    /// Set the frame count bit (FCB) of the frame's control field
    fn with_frame_count_bit(&self, fcb: bool) -> (frame: Self)
        ensures
            frame@ == self.spec_with_frame_count_bit(fcb),
    ;
}

/// Generic M-Bus frame: a tagged union over the three frame shapes.
#[derive(Debug, Clone)]
pub enum Frame {
    Short(ShortFrame),
    Long(LongFrame),
    Single(SingleCharacterFrame),
}

/// Mathematical image of a generic M-Bus frame.
pub enum FrameImage {
    Short(ShortFrame),
    Long(LongFrameImage),
    Single(SingleCharacterFrame),
}

/// The three M-Bus frame shapes, as detected from the leading byte.
#[derive(Debug)]
pub enum FrameType {
    Short,
    Long,
    Single,
}

/// Errors that can occur when detecting the shape of a frame
#[derive(Debug, Copy, Clone)]
pub enum FrameDetectionError {
    /// The input byte slice is empty.
    Empty,

    /// The leading byte announces no known frame shape; carries the byte.
    UnknownFrameType(u8),
}

/// Errors that can occur when decoding a generic M-Bus frame: the
/// detection error or the decode error of the detected shape, preserving
/// the cause.
#[derive(Debug, Copy, Clone)]
pub enum FrameError {
    /// Frame detection failed; carries the cause.
    Detection(FrameDetectionError),

    /// Short frame parsing failed; carries the cause.
    ShortFrame(ShortFrameDecodeError),

    /// Long frame parsing failed; carries the cause.
    LongFrame(LongFrameDecodeError),

    /// Single character frame parsing failed; carries the cause.
    SingleCharacterFrame(SingleCharacterFrameDecodeError),
}

impl View for Frame {
    type V = FrameImage;

    open spec fn view(&self) -> FrameImage {
        match self {
            Frame::Short(frame) => FrameImage::Short(*frame),
            Frame::Long(frame) => FrameImage::Long(frame@),
            Frame::Single(frame) => FrameImage::Single(*frame),
        }
    }
}

impl FrameImage {
    /// The byte sequence the frame encodes to: that of its active shape.
    pub open spec fn spec_to_bytes(self) -> Seq<u8> {
        match self {
            FrameImage::Short(frame) => frame.spec_to_bytes(),
            FrameImage::Long(frame) => frame.spec_to_bytes(),
            FrameImage::Single(frame) => frame.spec_to_bytes(),
        }
    }

    /// A valid frame: the active shape is valid.
    pub open spec fn wf(self) -> bool {
        match self {
            FrameImage::Short(frame) => frame.wf(),
            FrameImage::Long(frame) => frame.wf(),
            FrameImage::Single(_) => true,
        }
    }

    /// The shape tag of the active variant.
    pub open spec fn spec_frame_type(self) -> FrameType {
        match self {
            FrameImage::Short(_) => FrameType::Short,
            FrameImage::Long(_) => FrameType::Long,
            FrameImage::Single(_) => FrameType::Single,
        }
    }
}

impl Frame {
    /// Which frame shape the leading byte announces: 0x10 a short frame,
    /// 0x68 a long frame, 0xE5 or 0xA2 a single character frame. Empty
    /// input and any other leading byte are distinct error conditions.
    pub open spec fn spec_detect_type(bytes: Seq<u8>) -> Result<FrameType, FrameDetectionError> {
        if bytes.len() == 0 {
            Err(FrameDetectionError::Empty)
        } else if bytes[0] == 0x10 {
            Ok(FrameType::Short)
        } else if bytes[0] == 0x68 {
            Ok(FrameType::Long)
        } else if bytes[0] == 0xE5 || bytes[0] == 0xA2 {
            Ok(FrameType::Single)
        } else {
            Err(FrameDetectionError::UnknownFrameType(bytes[0]))
        }
    }

    /// What decoding a byte sequence yields: the image of the frame the
    /// detected shape decodes to, or the first error on the way, wrapped
    /// with its cause.
    pub open spec fn spec_try_from_bytes(bytes: Seq<u8>) -> Result<FrameImage, FrameError> {
        match Frame::spec_detect_type(bytes) {
            Err(error) => Err(FrameError::Detection(error)),
            Ok(FrameType::Short) => match ShortFrame::spec_try_from_bytes(bytes) {
                Ok(frame) => Ok(FrameImage::Short(frame)),
                Err(error) => Err(FrameError::ShortFrame(error)),
            },
            Ok(FrameType::Long) => match LongFrame::spec_try_from_bytes(bytes) {
                Ok(frame) => Ok(FrameImage::Long(frame)),
                Err(error) => Err(FrameError::LongFrame(error)),
            },
            Ok(FrameType::Single) => match SingleCharacterFrame::spec_try_from_bytes(bytes) {
                Ok(frame) => Ok(FrameImage::Single(frame)),
                Err(error) => Err(FrameError::SingleCharacterFrame(error)),
            },
        }
    }

    /// Wrap a single character frame.
    pub fn new_single(frame: SingleCharacterFrame) -> (result: Frame)
        ensures
            result@ == FrameImage::Single(frame),
            result@.wf(),
    {
        Frame::Single(frame)
    }

    /// Build a short frame from its control and address fields.
    pub fn new_short(control: Control, address: Address) -> (result: Frame)
        ensures
            result@ == FrameImage::Short(ShortFrame::spec_new(control, address)),
            address.wf() ==> result@.wf(),
    {
        Frame::Short(ShortFrame::new(control, address))
    }

    /// Build a long frame from its control and address fields and its
    /// user data.
    pub fn new_long(control: Control, address: Address, data: Vec<u8>) -> (result: Frame)
        requires
            data@.len() <= MAX_DATA_LENGTH,
        ensures
            result@ == FrameImage::Long(LongFrame::spec_new(control, address, data@)),
            address.wf() ==> result@.wf(),
    {
        Frame::Long(LongFrame::new(control, address, data.as_slice()))
    }

    /// Parse an M-Bus frame from a byte slice
    pub fn try_from_bytes(bytes: &[u8]) -> (result: Result<Frame, FrameError>)
        ensures
            result matches Ok(frame)
                ==> Frame::spec_try_from_bytes(bytes@) == Ok::<FrameImage, FrameError>(frame@),
            result matches Err(error)
                ==> Frame::spec_try_from_bytes(bytes@) == Err::<FrameImage, FrameError>(error),
    {
        match Frame::detect_type_from_bytes(bytes) {
            Err(error) => Err(FrameError::Detection(error)),
            Ok(FrameType::Short) => match ShortFrame::try_from_bytes(bytes) {
                Ok(frame) => Ok(Frame::Short(frame)),
                Err(error) => Err(FrameError::ShortFrame(error)),
            },
            Ok(FrameType::Long) => match LongFrame::try_from_bytes(bytes) {
                Ok(frame) => Ok(Frame::Long(frame)),
                Err(error) => Err(FrameError::LongFrame(error)),
            },
            Ok(FrameType::Single) => match SingleCharacterFrame::try_from_bytes(bytes) {
                Ok(frame) => Ok(Frame::Single(frame)),
                Err(error) => Err(FrameError::SingleCharacterFrame(error)),
            },
        }
    }

    /// Convert the frame to a byte vector
    pub fn to_bytes(&self) -> (bytes: Vec<u8>)
        ensures
            bytes@ == self@.spec_to_bytes(),
    {
        match self {
            Frame::Short(frame) => frame.to_bytes(),
            Frame::Long(frame) => frame.to_bytes(),
            Frame::Single(frame) => frame.to_bytes(),
        }
    }

    /// The shape tag of the active variant.
    pub fn get_type(&self) -> (frame_type: FrameType)
        ensures
            frame_type == self@.spec_frame_type(),
    {
        match self {
            Frame::Short(_) => FrameType::Short,
            Frame::Long(_) => FrameType::Long,
            Frame::Single(_) => FrameType::Single,
        }
    }

    /// Detect the frame shape from the leading byte of a byte slice.
    pub fn detect_type_from_bytes(bytes: &[u8]) -> (result: Result<FrameType, FrameDetectionError>)
        ensures
            result == Frame::spec_detect_type(bytes@),
    {
        if bytes.len() == 0 {
            return Err(FrameDetectionError::Empty);
        }

        if bytes[0] == 0x10 {
            Ok(FrameType::Short)
        } else if bytes[0] == 0x68 {
            Ok(FrameType::Long)
        } else if bytes[0] == 0xE5 || bytes[0] == 0xA2 {
            Ok(FrameType::Single)
        } else {
            Err(FrameDetectionError::UnknownFrameType(bytes[0]))
        }
    }
}

impl FrameWithControl for Frame {
    open spec fn spec_with_frame_count_bit(&self, fcb: bool) -> FrameImage {
        match self {
            Frame::Short(frame) => FrameImage::Short(frame.spec_with_frame_count_bit(fcb)),
            Frame::Long(frame) => FrameImage::Long(frame.spec_with_frame_count_bit(fcb)),
            Frame::Single(frame) => FrameImage::Single(*frame),
        }
    }

    /// Set or clear the FCB of the active shape's control field; a no-op
    /// for single character frames, which carry no control field.
    fn with_frame_count_bit(&self, fcb: bool) -> (frame: Frame) {
        match self {
            Frame::Short(frame) => Frame::Short(frame.with_frame_count_bit(fcb)),
            Frame::Long(frame) => Frame::Long(frame.with_frame_count_bit(fcb)),
            Frame::Single(frame) => Frame::Single(*frame),
        }
    }
}

/// Every valid frame, of whichever shape, decodes from its own encoding,
/// byte-for-byte and field-for-field.
pub proof fn lemma_frame_roundtrip(frame: FrameImage)
    requires
        frame.wf(),
    ensures
        Frame::spec_try_from_bytes(frame.spec_to_bytes())
            == Ok::<FrameImage, FrameError>(frame),
{
    match frame {
        FrameImage::Short(short) => {
            lemma_short_roundtrip(short);
        },
        FrameImage::Long(long) => {
            lemma_long_roundtrip(long);
            assert(long.spec_to_bytes()[0] == long.start1);
        },
        FrameImage::Single(single) => {
            lemma_single_roundtrip(single);
        },
    }
}

} // verus!
