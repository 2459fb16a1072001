//! Records of the platform's boot protocols.

use vstd::prelude::*;

pub mod dhcp;
pub mod pxe;

verus! {

/// The byte with which the platform says true.
pub const TRUE: u8 = 1;

/// The byte with which the platform says false.
pub const FALSE: u8 = 0;

/// The platform's byte for a truth value.
pub open spec fn spec_to_boolean(value: bool) -> u8 {
    if value {
        TRUE
    } else {
        FALSE
    }
}

/// The truth value of a byte of the platform: every byte but the one for
/// false counts as true.
pub open spec fn spec_from_boolean(byte: u8) -> bool {
    byte != FALSE
}

/// The platform's byte for a truth value.
#[verifier::when_used_as_spec(spec_to_boolean)]
pub fn to_boolean(value: bool) -> (byte: u8)
    ensures
        byte == spec_to_boolean(value),
{
    if value {
        TRUE
    } else {
        FALSE
    }
}

/// The truth value of a byte of the platform: every byte but the one for
/// false counts as true.
#[verifier::when_used_as_spec(spec_from_boolean)]
pub fn from_boolean(byte: u8) -> (value: bool)
    ensures
        value == spec_from_boolean(byte),
{
    byte != FALSE
}

/// A truth value comes back from its byte as it went in.
pub proof fn lemma_boolean_round_trip(value: bool)
    ensures
        from_boolean(to_boolean(value)) == value,
{
}

} // verus!
