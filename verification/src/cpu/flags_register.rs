//! The F register: four condition flags kept in the high nibble of one byte.

use crate::utils::{bit, bit_value, lemma_pack_bits, lemma_test_bits};
use vstd::prelude::*;

verus! {

/// The condition flags of the processor.
#[derive(Copy, Clone, Debug, PartialEq, Eq, Structural)]
pub struct FlagsRegister {
    /// Set when the last operation produced a result of 0.
    pub zero: bool,
    /// Set when the last operation was a subtraction.
    pub subtract: bool,
    /// Set when the lower half of the result overflowed.
    pub half_carry: bool,
    /// Set when the result overflowed.
    pub carry: bool,
}

impl FlagsRegister {
    /// The byte that encodes these flags: Z at bit 7, N at bit 6, H at bit 5,
    /// C at bit 4, and the low nibble zero.
    pub open spec fn spec_to_byte(self) -> u8 {
        (128 * bit_value(self.zero) + 64 * bit_value(self.subtract) + 32 * bit_value(
            self.half_carry,
        ) + 16 * bit_value(self.carry)) as u8
    }

    /// The flags that a byte encodes; its low nibble plays no part.
    pub open spec fn spec_from_byte(byte: u8) -> FlagsRegister {
        FlagsRegister {
            zero: byte / 128 % 2 == 1,
            subtract: byte / 64 % 2 == 1,
            half_carry: byte / 32 % 2 == 1,
            carry: byte / 16 % 2 == 1,
        }
    }

    /// All four flags clear.
    pub fn new() -> (flags: FlagsRegister)
        ensures
            flags == (FlagsRegister {
                zero: false,
                subtract: false,
                half_carry: false,
                carry: false,
            }),
    {
        FlagsRegister { zero: false, subtract: false, half_carry: false, carry: false }
    }

    /// Packs the flags into a byte.
    pub fn to_byte(self) -> (byte: u8)
        ensures
            byte == self.spec_to_byte(),
    {
        let z = bit(self.zero);
        let n = bit(self.subtract);
        let h = bit(self.half_carry);
        let c = bit(self.carry);
        proof {
            lemma_pack_bits(z, n, h, c, 0, 0, 0, 0);
        }
        z << 7 | n << 6 | h << 5 | c << 4
    }

    /// Unpacks the flags from a byte.
    pub fn from_byte(byte: u8) -> (flags: FlagsRegister)
        ensures
            flags == Self::spec_from_byte(byte),
    {
        proof {
            lemma_test_bits(byte);
        }
        FlagsRegister {
            zero: ((byte >> 7) & 0b1) != 0,
            subtract: ((byte >> 6) & 0b1) != 0,
            half_carry: ((byte >> 5) & 0b1) != 0,
            carry: ((byte >> 4) & 0b1) != 0,
        }
    }
}

impl From<FlagsRegister> for u8 {
    fn from(flag: FlagsRegister) -> (byte: u8) {
        flag.to_byte()
    }
}

impl vstd::std_specs::convert::FromSpecImpl<FlagsRegister> for u8 {
    open spec fn obeys_from_spec() -> bool {
        true
    }

    open spec fn from_spec(flag: FlagsRegister) -> u8 {
        flag.spec_to_byte()
    }
}

impl From<u8> for FlagsRegister {
    fn from(byte: u8) -> (flags: FlagsRegister) {
        FlagsRegister::from_byte(byte)
    }
}

impl vstd::std_specs::convert::FromSpecImpl<u8> for FlagsRegister {
    open spec fn obeys_from_spec() -> bool {
        true
    }

    open spec fn from_spec(byte: u8) -> FlagsRegister {
        FlagsRegister::spec_from_byte(byte)
    }
}

/// What can be written to the F register: the flags themselves, or the byte
/// that encodes them.
pub trait IntoFlags: Sized {
    /// The flags that the value stands for.
    spec fn spec_into_flags(self) -> FlagsRegister;

    /// The flags that the value stands for.
    fn into_flags(self) -> (flags: FlagsRegister)
        ensures
            flags == self.spec_into_flags(),
    ;
}

impl IntoFlags for FlagsRegister {
    open spec fn spec_into_flags(self) -> FlagsRegister {
        self
    }

    fn into_flags(self) -> (flags: FlagsRegister) {
        self
    }
}

impl IntoFlags for u8 {
    open spec fn spec_into_flags(self) -> FlagsRegister {
        FlagsRegister::spec_from_byte(self)
    }

    fn into_flags(self) -> (flags: FlagsRegister) {
        FlagsRegister::from_byte(self)
    }
}

/// Unpacking a byte into flags and packing them again keeps the high nibble
/// and clears the low one.
pub proof fn lemma_flags_byte_round_trip(byte: u8)
    ensures
        FlagsRegister::spec_from_byte(byte).spec_to_byte() == byte & 0xF0,
        FlagsRegister::spec_from_byte(byte).spec_to_byte() == byte - byte % 16,
{
    lemma_high_nibble(byte);
    let flags = FlagsRegister::spec_from_byte(byte);
    assert(bit_value(flags.zero) == byte / 128 % 2);
    assert(bit_value(flags.subtract) == byte / 64 % 2);
    assert(bit_value(flags.half_carry) == byte / 32 % 2);
    assert(bit_value(flags.carry) == byte / 16 % 2);
}

/// Packing flags into a byte and unpacking them gives the same flags back, and
/// the byte has a zero low nibble.
pub proof fn lemma_flags_round_trip(flags: FlagsRegister)
    ensures
        FlagsRegister::spec_from_byte(flags.spec_to_byte()) == flags,
        flags.spec_to_byte() % 16 == 0,
{
    let z = bit_value(flags.zero);
    let n = bit_value(flags.subtract);
    let h = bit_value(flags.half_carry);
    let c = bit_value(flags.carry);
    let byte = flags.spec_to_byte();
    assert(byte == 128 * z + 64 * n + 32 * h + 16 * c);
    assert(byte / 128 == z);
    assert(byte / 64 == 2 * z + n);
    assert(byte / 32 == 4 * z + 2 * n + h);
    assert(byte / 16 == 8 * z + 4 * n + 2 * h + c);
}

proof fn lemma_high_nibble(b: u8)
    by (bit_vector)
    ensures
        (b & 0xF0) == 128 * (b / 128 % 2) + 64 * (b / 64 % 2) + 32 * (b / 32 % 2) + 16 * (b / 16
            % 2),
        (b & 0xF0) == b - b % 16,
{
}

} // verus!
