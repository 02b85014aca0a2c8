use vstd::prelude::*;

verus! {

/// M-Bus control field: a closed classification of the one-byte control
/// field into the five defined command kinds.
///
/// The byte encoding carries, besides the command kind, a frame count bit
/// (FCB, bit 0x20) and, for responses, a frame count valid bit (FCV, bit
/// 0x10). The command kind alone determines the base byte value; the
/// per-telegram FCB is layered on top by `with_frame_count_bit` rather than
/// being an intrinsic attribute of the command kind.
#[derive(Debug, Copy, Clone)]
pub enum Control {
    /// Initialize or Reset the slave device (SND-NKE)
    ///
    /// This command flows from the master to the slave and is used to
    /// initialize or reset a slave device.
    Initialize,

    /// Send user data to a slave device (SND-UD)
    ///
    /// This command flows from the master to the slave and is used to
    /// send user data to a slave device.
    Send {
        /// Frame count bit (FCB)
        fcb: bool,
    },

    /// Request time-critical user data from a slave device (REQ-UD1)
    ///
    /// This command flows from the master to the slave and is used to
    /// request time-critical user data from a slave device.
    PriorityRequest {
        /// Frame count bit (FCB)
        fcb: bool,
    },

    /// Request non-time-critical user data from a slave device (REQ-UD2)
    ///
    /// This command flows from the master to the slave and is used to
    /// request non-time-critical user data from a slave device.
    Request {
        /// Frame count bit (FCB)
        fcb: bool,
    },

    /// Respond with user data (RSP-UD)
    ///
    /// This command flows from the slave to the master and is used to
    /// respond with user data to a Request or PriorityRequest command.
    Response {
        /// Frame count bit (FCB)
        fcb: bool,

        /// Frame count valid bit (FCV)
        ///
        /// Indicates if the frame count bit should be considered.
        fcv: bool,
    },
}

/// Error reported when a control byte cannot be decoded.
///
/// The design deliberately does not distinguish why a byte is unsupported,
/// only that it is.
#[derive(Debug, Copy, Clone)]
pub enum ControlDecodeError {
    /// The byte matches none of the documented control bit patterns.
    UnsupportedCommunicationType,
}

impl Control {
    /// The documented bit patterns of the control field; decoding any other
    /// byte fails.
    pub open spec fn spec_valid_byte(value: u8) -> bool {
        ||| value == 0x40
    ||| value == 0x53 || value == 0x73
    ||| value == 0x5A || value == 0x7A
    ||| value == 0x5B || value == 0x7B
    ||| value == 0x08 || value == 0x18 || value == 0x28 || value == 0x38
    }

    /// What decoding a control byte yields: the command kind together with
    /// the FCB/FCV bits the byte carries, or the single unsupported error.
    pub open spec fn spec_from_byte(value: u8) -> Result<Control, ControlDecodeError> {
        if value == 0x40 {
            Ok(Control::Initialize)
        } else if value == 0x53 || value == 0x73 {
            Ok(Control::Send { fcb: value == 0x73 })
        } else if value == 0x5A || value == 0x7A {
            Ok(Control::PriorityRequest { fcb: value == 0x7A })
        } else if value == 0x5B || value == 0x7B {
            Ok(Control::Request { fcb: value == 0x7B })
        } else if value == 0x08 || value == 0x18 || value == 0x28 || value == 0x38 {
            Ok(Control::Response {
                fcb: value == 0x28 || value == 0x38,
                fcv: value == 0x18 || value == 0x38,
            })
        } else {
            Err(ControlDecodeError::UnsupportedCommunicationType)
        }
    }

    /// The byte a control field encodes to: the base value of the command
    /// kind with the FCB bit (0x20) and, for responses, the FCV bit (0x10)
    /// layered on top.
    pub open spec fn spec_to_byte(self) -> u8 {
        match self {
            Control::Initialize => 0x40,
            Control::Send { fcb } => if fcb { 0x73 } else { 0x53 },
            Control::PriorityRequest { fcb } => if fcb { 0x7A } else { 0x5A },
            Control::Request { fcb } => if fcb { 0x7B } else { 0x5B },
            Control::Response { fcb, fcv } => {
                if fcb {
                    if fcv { 0x38 } else { 0x28 }
                } else {
                    if fcv { 0x18 } else { 0x08 }
                }
            },
        }
    }

    /// The control value with the frame count bit set or cleared: the
    /// command kind is preserved and so, for responses, is the FCV bit.
    /// `Initialize` carries no FCB and is returned unchanged.
    pub open spec fn spec_with_frame_count_bit(self, fcb: bool) -> Control {
        match self {
            Control::Initialize => Control::Initialize,
            Control::Send { .. } => Control::Send { fcb },
            Control::PriorityRequest { .. } => Control::PriorityRequest { fcb },
            Control::Request { .. } => Control::Request { fcb },
            Control::Response { fcv, .. } => Control::Response { fcb, fcv },
        }
    }

    /// Decode a control byte; partial, succeeds exactly on the documented
    /// bit patterns and fails on every other byte.
    pub fn try_from_byte(value: u8) -> (result: Result<Control, ControlDecodeError>)
        ensures
            result == Control::spec_from_byte(value),
            result is Ok <==> Control::spec_valid_byte(value),
    {
        if value == 0x40 {
            Ok(Control::Initialize)
        } else if value == 0x53 || value == 0x73 {
            Ok(Control::Send { fcb: value == 0x73 })
        } else if value == 0x5A || value == 0x7A {
            Ok(Control::PriorityRequest { fcb: value == 0x7A })
        } else if value == 0x5B || value == 0x7B {
            Ok(Control::Request { fcb: value == 0x7B })
        } else if value == 0x08 || value == 0x18 || value == 0x28 || value == 0x38 {
            Ok(Control::Response {
                fcb: value == 0x28 || value == 0x38,
                fcv: value == 0x18 || value == 0x38,
            })
        } else {
            Err(ControlDecodeError::UnsupportedCommunicationType)
        }
    }

    /// Encode the control field to its byte; total.
    pub fn to_byte(self) -> (value: u8)
        ensures
            value == self.spec_to_byte(),
    {
        match self {
            Control::Initialize => 0x40,
            Control::Send { fcb } => if fcb { 0x73 } else { 0x53 },
            Control::PriorityRequest { fcb } => if fcb { 0x7A } else { 0x5A },
            Control::Request { fcb } => if fcb { 0x7B } else { 0x5B },
            Control::Response { fcb, fcv } => {
                if fcb {
                    if fcv { 0x38 } else { 0x28 }
                } else {
                    if fcv { 0x18 } else { 0x08 }
                }
            },
        }
    }

    /// Set or clear the frame count bit, preserving the command kind and,
    /// for responses, the FCV bit.
    pub fn with_frame_count_bit(&self, fcb: bool) -> (control: Control)
        ensures
            control == self.spec_with_frame_count_bit(fcb),
    {
        match self {
            Control::Initialize => Control::Initialize,
            Control::Send { .. } => Control::Send { fcb },
            Control::PriorityRequest { .. } => Control::PriorityRequest { fcb },
            Control::Request { .. } => Control::Request { fcb },
            Control::Response { fcv, .. } => Control::Response { fcb, fcv: *fcv },
        }
    }
}

/// Decoding a valid control byte and re-encoding it restores the byte
/// exactly: the valid bit patterns and the control values they denote are
/// in bijection. On the five FCB/FCV-clear patterns the restored byte is
/// the canonical encoding of the command kind.
pub proof fn lemma_control_byte_roundtrip(value: u8)
    requires
        Control::spec_valid_byte(value),
    ensures
        Control::spec_from_byte(value) matches Ok(control) && control.spec_to_byte() == value,
{
}

/// Decoding after encoding restores every control value.
pub proof fn lemma_control_value_roundtrip(control: Control)
    ensures
        Control::spec_from_byte(control.spec_to_byte()) == Ok::<Control, ControlDecodeError>(control),
{
}

} // verus!
