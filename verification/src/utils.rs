//! Small helpers shared by the hardware components: turning a flag into a bit,
//! and the facts that connect shifts and masks with division and remainder.

use vstd::prelude::*;

verus! {

/// The numeric value of a flag: 1 when set, 0 when clear.
pub open spec fn bit_value(condition: bool) -> int {
    if condition {
        1
    } else {
        0
    }
}

/// Whether bit `n` of `byte` is set, counting from the least significant bit.
pub open spec fn bit_is_set(byte: u8, n: int) -> bool {
    (byte as int / pow2_int(n)) % 2 == 1
}

/// Two to the power `n` for the bit positions of a byte or a word.
pub open spec fn pow2_int(n: int) -> int {
    if n <= 0 {
        1
    } else if n == 1 {
        2
    } else if n == 2 {
        4
    } else if n == 3 {
        8
    } else if n == 4 {
        16
    } else if n == 5 {
        32
    } else if n == 6 {
        64
    } else if n == 7 {
        128
    } else if n == 8 {
        256
    } else if n == 9 {
        512
    } else if n == 10 {
        1024
    } else if n == 11 {
        2048
    } else if n == 12 {
        4096
    } else if n == 13 {
        8192
    } else if n == 14 {
        16384
    } else {
        32768
    }
}

/// Turns a flag into the byte 1 or 0.
pub fn bit(condition: bool) -> (value: u8)
    ensures
        value == bit_value(condition),
{
    if condition {
        1
    } else {
        0
    }
}

/// Packing eight single bits with shifts and ors is the same as weighting them
/// by powers of two.
pub proof fn lemma_pack_bits(b7: u8, b6: u8, b5: u8, b4: u8, b3: u8, b2: u8, b1: u8, b0: u8)
    by (bit_vector)
    requires
        b7 <= 1,
        b6 <= 1,
        b5 <= 1,
        b4 <= 1,
        b3 <= 1,
        b2 <= 1,
        b1 <= 1,
        b0 <= 1,
    ensures
        (b7 << 7 | b6 << 6 | b5 << 5 | b4 << 4 | b3 << 3 | b2 << 2 | b1 << 1 | b0) == 128 * b7 + 64
            * b6 + 32 * b5 + 16 * b4 + 8 * b3 + 4 * b2 + 2 * b1 + b0,
        (b7 << 7 | b6 << 6 | b5 << 5 | b4 << 4) == 128 * b7 + 64 * b6 + 32 * b5 + 16 * b4,
        (0b1110_0000u8 | (b4 << 4) | (b3 << 3) | (b2 << 2) | (b1 << 1) | b0) == 224 + 16 * b4 + 8
            * b3 + 4 * b2 + 2 * b1 + b0,
        (b3 << 3 | b2 << 2 | b1 << 1 | b0) == 8 * b3 + 4 * b2 + 2 * b1 + b0,
        ((1u8 << 5) | (b3 << 3 | b2 << 2 | b1 << 1 | b0)) == 32 + 8 * b3 + 4 * b2 + 2 * b1 + b0,
        ((1u8 << 4) | (b3 << 3 | b2 << 2 | b1 << 1 | b0)) == 16 + 8 * b3 + 4 * b2 + 2 * b1 + b0,
        (b2 << 2 | b1 << 1 | b0) == 4 * b2 + 2 * b1 + b0,
{
}

/// Packing the status flags above a two-bit mode number with shifts and ors is
/// the same as weighting them by powers of two.
pub proof fn lemma_pack_status(b6: u8, b5: u8, b4: u8, b3: u8, b2: u8, mode: u8)
    by (bit_vector)
    requires
        b6 <= 1,
        b5 <= 1,
        b4 <= 1,
        b3 <= 1,
        b2 <= 1,
        mode <= 3,
    ensures
        (0b1000_0000u8 | b6 << 6 | b5 << 5 | b4 << 4 | b3 << 3 | b2 << 2 | mode) == 128 + 64 * b6
            + 32 * b5 + 16 * b4 + 8 * b3 + 4 * b2 + mode,
{
}

/// Testing one bit of a byte with a shift or a mask is the same as dividing by
/// the bit's weight and looking at the parity.
pub proof fn lemma_test_bits(b: u8)
    by (bit_vector)
    ensures
        (((b >> 7) & 1) != 0) == (b / 128 % 2 == 1),
        (((b >> 6) & 1) != 0) == (b / 64 % 2 == 1),
        (((b >> 5) & 1) != 0) == (b / 32 % 2 == 1),
        (((b >> 4) & 1) != 0) == (b / 16 % 2 == 1),
        (((b >> 3) & 1) != 0) == (b / 8 % 2 == 1),
        (((b >> 2) & 1) != 0) == (b / 4 % 2 == 1),
        (((b >> 1) & 1) != 0) == (b / 2 % 2 == 1),
        (((b >> 0) & 1) != 0) == (b / 1 % 2 == 1),
        ((b >> 7) == 1) == (b / 128 % 2 == 1),
        (((b >> 6) & 1) == 1) == (b / 64 % 2 == 1),
        (((b >> 5) & 1) == 1) == (b / 32 % 2 == 1),
        (((b >> 4) & 1) == 1) == (b / 16 % 2 == 1),
        (((b >> 3) & 1) == 1) == (b / 8 % 2 == 1),
        (((b >> 2) & 1) == 1) == (b / 4 % 2 == 1),
        (((b >> 1) & 1) == 1) == (b / 2 % 2 == 1),
        ((b & 1) == 1) == (b % 2 == 1),
        ((b & 0b1) == 0b1) == (b % 2 == 1),
        ((b & 0b10) == 0b10) == (b / 2 % 2 == 1),
        ((b & 0b100) == 0b100) == (b / 4 % 2 == 1),
        ((b & 0b1000) == 0b1000) == (b / 8 % 2 == 1),
        ((b & 0b10000) == 0b10000) == (b / 16 % 2 == 1),
        ((b & 0b100000) == 0b100000) == (b / 32 % 2 == 1),
        ((b & 0b1000000) == 0b1000000) == (b / 64 % 2 == 1),
        ((b & 0x80) == 0x80) == (b / 128 % 2 == 1),
        ((b & 0x20) == 0) == (b / 32 % 2 == 0),
{
}

/// The two halves of a word, taken with masks and shifts, are its quotient and
/// remainder by 256; and putting two bytes together gives back the word.
pub proof fn lemma_word_halves(w: u16, hi: u8, lo: u8)
    by (bit_vector)
    ensures
        ((w & 0xFF00) >> 8) == w / 256,
        (w & 0xFF) == w % 256,
        (w >> 8) == w / 256,
        w / 256 < 256,
        w % 256 < 256,
        (((hi as u16) << 8) | (lo as u16)) == (hi as u16) * 256 + (lo as u16),
        (w & 0xF) == w % 16,
        (w & 0xFFF) == w % 4096,
{
}

/// The four two-bit fields of a byte, taken with shifts and masks, are its
/// base-4 digits.
pub proof fn lemma_two_bit_fields(b: u8)
    by (bit_vector)
    ensures
        (b & 0b11) == b % 4,
        ((b >> 2) & 0b11) == b / 4 % 4,
        ((b >> 4) & 0b11) == b / 16 % 4,
        (b >> 6) == b / 64,
        (b & 0xF) == b % 16,
        (b & 0xF0) == b - b % 16,
        (b >> 4) == b / 16,
        (b >> 1) == b / 2,
        (b >> 7) == b / 128,
{
}

/// Tests bit `n` of `byte`, bit 0 being the least significant.
pub fn test_bit(byte: u8, n: u8) -> (set: bool)
    requires
        n < 8,
    ensures
        set == bit_is_set(byte, n as int),
{
    proof {
        lemma_test_bits(byte);
    }
    ((byte >> n) & 1) != 0
}

} // verus!
