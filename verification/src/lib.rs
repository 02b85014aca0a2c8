//! Byte-level codec for the M-Bus link-layer framing format (EN 60870-5-2,
//! FT 1.2 transmission mode): typed representations of the address field, the
//! control field and the three frame shapes, with verified encoding to and
//! decoding from raw octet sequences.

pub mod address;
pub mod checksum;
pub mod control;
pub mod frame;
pub mod long;
pub mod short;
pub mod single;

pub use address::Address;
pub use control::Control;
pub use control::ControlDecodeError;
pub use frame::Encodable;
pub use frame::Frame;
pub use frame::FrameDetectionError;
pub use frame::FrameError;
pub use frame::FrameImage;
pub use frame::FrameType;
pub use frame::FrameWithControl;
pub use long::LongFrame;
pub use long::LongFrameDecodeError;
pub use long::LongFrameImage;
pub use short::ShortFrame;
pub use short::ShortFrameDecodeError;
pub use single::SingleCharacterFrame;
pub use single::SingleCharacterFrameDecodeError;
