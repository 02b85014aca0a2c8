use vstd::prelude::*;

verus! {

/// M-Bus address field: a closed classification of the one-byte address.
///
/// Every byte maps to exactly one class and every valid class value maps
/// back to exactly one byte, so the classification is a lossless bijection
/// with the byte range 0-255.
#[derive(Debug, Copy, Clone)]
pub enum Address {
    /// The address for unconfigured devices (0)
    Unconfigured,

    /// The primary address for devices (1-250)
    Primary(u8),

    /// The address for link layer management (251)
    Management,

    /// Reserved address (252)
    Reserved,

    /// The address for secondary addressing (253)
    Secondary,

    /// The address for tests and diagnosis (254)
    Diagnosis,

    /// The address to broadcast messages to all slaves (255)
    Broadcast,
}

impl Address {
    /// A `Primary` address carries only the bytes reserved for it, 1-250;
    /// the other classes carry nothing and are always valid.
    pub open spec fn wf(self) -> bool {
        self matches Address::Primary(value) ==> 1 <= value <= 250
    }

    /// The address class that a byte denotes.
    pub open spec fn spec_from_byte(value: u8) -> Address {
        if value == 0 {
            Address::Unconfigured
        } else if value <= 250 {
            Address::Primary(value)
        } else if value == 251 {
            Address::Management
        } else if value == 252 {
            Address::Reserved
        } else if value == 253 {
            Address::Secondary
        } else if value == 254 {
            Address::Diagnosis
        } else {
            Address::Broadcast
        }
    }

    /// The byte that an address encodes to.
    pub open spec fn spec_to_byte(self) -> u8 {
        match self {
            Address::Unconfigured => 0,
            Address::Primary(value) => value,
            Address::Management => 251,
            Address::Reserved => 252,
            Address::Secondary => 253,
            Address::Diagnosis => 254,
            Address::Broadcast => 255,
        }
    }

    /// Classify a byte as an address; total, never fails.
    pub fn from_byte(value: u8) -> (address: Address)
        ensures
            address == Address::spec_from_byte(value),
            address.wf(),
    {
        if value == 0 {
            Address::Unconfigured
        } else if value <= 250 {
            Address::Primary(value)
        } else if value == 251 {
            Address::Management
        } else if value == 252 {
            Address::Reserved
        } else if value == 253 {
            Address::Secondary
        } else if value == 254 {
            Address::Diagnosis
        } else {
            Address::Broadcast
        }
    }

    /// Encode the address to its byte; total, the inverse of `from_byte`.
    pub fn to_byte(self) -> (value: u8)
        ensures
            value == self.spec_to_byte(),
    {
        match self {
            Address::Unconfigured => 0,
            Address::Primary(value) => value,
            Address::Management => 251,
            Address::Reserved => 252,
            Address::Secondary => 253,
            Address::Diagnosis => 254,
            Address::Broadcast => 255,
        }
    }
}

/// Encoding after decoding restores the byte: for all 256 byte values the
/// address classification loses nothing.
pub proof fn lemma_address_byte_roundtrip(value: u8)
    ensures
        Address::spec_from_byte(value).spec_to_byte() == value,
{
}

/// Decoding after encoding restores every valid address value.
pub proof fn lemma_address_value_roundtrip(address: Address)
    requires
        address.wf(),
    ensures
        Address::spec_from_byte(address.spec_to_byte()) == address,
{
}

} // verus!
