//! The arithmetic and logic of the processor as functions from operands and
//! flags to a result and new flags, stated over integers.

use super::flags_register::FlagsRegister;
use super::instruction::BitPosition;
use crate::utils::{bit_is_set, bit_value, lemma_test_bits, lemma_two_bit_fields, pow2_int};
use vstd::prelude::*;

verus! {

/// The sum of `a`, `value` and a carry of 0 or 1, and the flags of an
/// addition: zero when the result is 0, half carry when the low nibbles carry
/// into the high nibble, carry when the sum does not fit in a byte.
pub open spec fn spec_add(a: u8, value: u8, carry: int) -> (u8, FlagsRegister) {
    let total = a + value + carry;
    let result = (total % 256) as u8;
    (
        result,
        FlagsRegister {
            zero: result == 0,
            subtract: false,
            half_carry: a % 16 + value % 16 + carry > 0xF,
            carry: total > 0xFF,
        },
    )
}

/// The difference of `a` and `value` and a borrow of 0 or 1, and the flags of
/// a subtraction: zero when the result is 0, half carry when the low nibble
/// borrows from the high nibble, carry when the whole byte borrows.
pub open spec fn spec_sub(a: u8, value: u8, carry: int) -> (u8, FlagsRegister) {
    let total = a - value - carry;
    let result = (total % 256) as u8;
    (
        result,
        FlagsRegister {
            zero: result == 0,
            subtract: true,
            half_carry: a % 16 < value % 16 + carry,
            carry: a < value + carry,
        },
    )
}

/// The flags of a bitwise operation with the given result.
pub open spec fn spec_logic_flags(result: u8, half_carry: bool) -> FlagsRegister {
    FlagsRegister { zero: result == 0, subtract: false, half_carry, carry: false }
}

/// The flags of a comparison of `a` with `value`: those of the subtraction
/// without borrow, whose result is not kept.
pub open spec fn spec_compare(a: u8, value: u8) -> FlagsRegister {
    FlagsRegister {
        zero: a == value,
        subtract: true,
        half_carry: a % 16 < value % 16,
        carry: a < value,
    }
}

/// `value` plus one, wrapping, and the flags of an increment; the carry flag
/// stays.
pub open spec fn spec_inc(value: u8, flags: FlagsRegister) -> (u8, FlagsRegister) {
    let result = ((value + 1) % 256) as u8;
    (
        result,
        FlagsRegister { zero: result == 0, subtract: false, half_carry: value % 16 == 0xF, ..flags },
    )
}

/// `value` minus one, wrapping, and the flags of a decrement; the carry flag
/// stays.
pub open spec fn spec_dec(value: u8, flags: FlagsRegister) -> (u8, FlagsRegister) {
    let result = ((value - 1) % 256) as u8;
    (
        result,
        FlagsRegister { zero: result == 0, subtract: true, half_carry: value % 16 == 0, ..flags },
    )
}

/// The sum of two words, wrapping, and the flags of a 16-bit addition: half
/// carry when the low 12 bits overflow, carry when the sum does not fit in a
/// word; the zero flag stays.
pub open spec fn spec_add_hl(hl: u16, value: u16, flags: FlagsRegister) -> (u16, FlagsRegister) {
    (
        ((hl + value) % 0x10000) as u16,
        FlagsRegister {
            subtract: false,
            half_carry: hl % 0x1000 + value % 0x1000 > 0xFFF,
            carry: hl + value > 0xFFFF,
            ..flags
        },
    )
}

/// The byte after an opcode read as a signed offset, -128 to 127.
pub open spec fn signed_offset(byte: u8) -> int {
    if byte < 128 {
        byte as int
    } else {
        byte - 256
    }
}

/// The stack pointer moved by a signed offset, wrapping, and the flags of
/// that addition: zero and subtract clear, half carry and carry as for the
/// unsigned addition of the offset byte to the low byte of the stack pointer.
pub open spec fn spec_add_sp(sp: u16, byte: u8) -> (u16, FlagsRegister) {
    (
        ((sp + signed_offset(byte)) % 0x10000) as u16,
        FlagsRegister {
            zero: false,
            subtract: false,
            half_carry: sp % 16 + byte % 16 > 0xF,
            carry: sp % 256 + byte > 0xFF,
        },
    )
}

/// The flags of a rotate or shift with the given result and the bit that
/// fell out; the zero flag is set from the result only where `set_zero` says
/// so, and is clear otherwise.
pub open spec fn spec_rotate_flags(result: u8, carry: bool, set_zero: bool) -> FlagsRegister {
    FlagsRegister { zero: set_zero && result == 0, subtract: false, half_carry: false, carry }
}

/// `value` rotated left by one bit; bit 7 comes back in as bit 0.
pub open spec fn spec_rotate_left(value: u8) -> u8 {
    ((value * 2) % 256 + value / 128) as u8
}

/// `value` rotated right by one bit; bit 0 comes back in as bit 7.
pub open spec fn spec_rotate_right(value: u8) -> u8 {
    (value / 2 + 128 * (value % 2)) as u8
}

/// `value` shifted left by one bit with the carry coming in as bit 0.
pub open spec fn spec_rotate_left_through_carry(value: u8, carry: bool) -> u8 {
    ((value * 2) % 256 + bit_value(carry)) as u8
}

/// `value` shifted right by one bit with the carry coming in as bit 7.
pub open spec fn spec_rotate_right_through_carry(value: u8, carry: bool) -> u8 {
    (value / 2 + 128 * bit_value(carry)) as u8
}

/// `value` shifted left by one bit; bit 0 becomes 0.
pub open spec fn spec_shift_left(value: u8) -> u8 {
    ((value * 2) % 256) as u8
}

/// `value` shifted right by one bit; bit 7 becomes 0.
pub open spec fn spec_shift_right_logical(value: u8) -> u8 {
    value / 2
}

/// `value` shifted right by one bit; bit 7 keeps its value.
pub open spec fn spec_shift_right_arithmetic(value: u8) -> u8 {
    (value / 2 + 128 * (value / 128)) as u8
}

/// `value` with its two nibbles exchanged.
pub open spec fn spec_swap_nibbles(value: u8) -> u8 {
    ((value % 16) * 16 + value / 16) as u8
}

/// `value` with every bit inverted.
pub open spec fn spec_complement(value: u8) -> u8 {
    (255 - value) as u8
}

/// `value` with bit `position` cleared.
pub open spec fn spec_reset_bit(value: u8, position: BitPosition) -> u8 {
    if bit_is_set(value, position.index()) {
        (value - pow2_int(position.index())) as u8
    } else {
        value
    }
}

/// `value` with bit `position` set.
pub open spec fn spec_set_bit(value: u8, position: BitPosition) -> u8 {
    if bit_is_set(value, position.index()) {
        value
    } else {
        (value + pow2_int(position.index())) as u8
    }
}

/// The flags after testing bit `position` of `value`: zero when the bit is
/// clear, subtract clear, half carry set; the carry flag stays.
pub open spec fn spec_bit_test(value: u8, position: BitPosition, flags: FlagsRegister)
    -> FlagsRegister {
    FlagsRegister {
        zero: !bit_is_set(value, position.index()),
        subtract: false,
        half_carry: true,
        ..flags
    }
}

/// The accumulator and the flags after the decimal adjustment that follows
/// an addition or subtraction of two packed decimal numbers. After an
/// addition, 0x60 is added where the carry is set or the value is above 0x99,
/// and then 0x06 where the half carry is set or the low nibble is above 9;
/// after a subtraction, 0x60 is taken off where the carry is set and 0x06
/// where the half carry is set. The carry is set where 0x60 was added, and
/// stays otherwise; the half carry is cleared.
pub open spec fn spec_decimal_adjust(a: u8, flags: FlagsRegister) -> (u8, FlagsRegister) {
    let high = if flags.subtract {
        flags.carry
    } else {
        flags.carry || a > 0x99
    };
    let low = if flags.subtract {
        flags.half_carry
    } else {
        flags.half_carry || a % 16 > 9
    };
    let correction = (if high {
        0x60int
    } else {
        0int
    }) + (if low {
        0x06int
    } else {
        0int
    });
    let result = (if flags.subtract {
        (a - correction) % 256
    } else {
        (a + correction) % 256
    }) as u8;
    (result, FlagsRegister { zero: result == 0, half_carry: false, carry: high, ..flags })
}

/// Adds with a carry of 0 or 1.
pub fn alu_add(a: u8, value: u8, carry: bool) -> (result: (u8, FlagsRegister))
    ensures
        result == spec_add(a, value, bit_value(carry)),
{
    let additional_carry: u8 = if carry {
        1
    } else {
        0
    };
    let total: u16 = a as u16 + value as u16 + additional_carry as u16;
    let sum = (total % 256) as u8;
    let flags = FlagsRegister {
        zero: sum == 0,
        subtract: false,
        // Half carry is set if adding the lower nibbles of the two values,
        // and the carry bit where it takes part, gives more than 0xF.
        half_carry: (a % 16) + (value % 16) + additional_carry > 0xF,
        carry: total > 0xFF,
    };
    (sum, flags)
}

/// Subtracts with a borrow of 0 or 1.
pub fn alu_sub(a: u8, value: u8, carry: bool) -> (result: (u8, FlagsRegister))
    ensures
        result == spec_sub(a, value, bit_value(carry)),
{
    let additional_carry: u8 = if carry {
        1
    } else {
        0
    };
    let total: u16 = 256 + a as u16 - value as u16 - additional_carry as u16;
    let difference = (total % 256) as u8;
    let flags = FlagsRegister {
        zero: difference == 0,
        subtract: true,
        // Half carry is set if the lower nibble of a is less than the lower
        // nibble of the value, with the carry bit where it takes part.
        half_carry: (a % 16) < (value % 16) + additional_carry,
        carry: (a as u16) < value as u16 + additional_carry as u16,
    };
    (difference, flags)
}

/// Increments a byte.
pub fn alu_inc(value: u8, flags: FlagsRegister) -> (result: (u8, FlagsRegister))
    ensures
        result == spec_inc(value, flags),
{
    let new_value = value.wrapping_add(1);
    (
        new_value,
        FlagsRegister {
            zero: new_value == 0,
            subtract: false,
            half_carry: value % 16 == 0xF,
            carry: flags.carry,
        },
    )
}

/// Decrements a byte.
pub fn alu_dec(value: u8, flags: FlagsRegister) -> (result: (u8, FlagsRegister))
    ensures
        result == spec_dec(value, flags),
{
    let new_value = value.wrapping_sub(1);
    (
        new_value,
        FlagsRegister {
            zero: new_value == 0,
            subtract: true,
            half_carry: value % 16 == 0x0,
            carry: flags.carry,
        },
    )
}

/// Adds two words.
pub fn alu_add_hl(hl: u16, value: u16, flags: FlagsRegister) -> (result: (u16, FlagsRegister))
    ensures
        result == spec_add_hl(hl, value, flags),
{
    let total: u32 = hl as u32 + value as u32;
    (
        (total % 0x10000) as u16,
        FlagsRegister {
            zero: flags.zero,
            subtract: false,
            half_carry: (hl % 0x1000) + (value % 0x1000) > 0xFFF,
            carry: total > 0xFFFF,
        },
    )
}

/// Moves the stack pointer by the signed offset that `byte` encodes.
pub fn alu_add_sp(sp: u16, byte: u8) -> (result: (u16, FlagsRegister))
    ensures
        result == spec_add_sp(sp, byte),
{
    let total: u32 = if byte < 128 {
        sp as u32 + byte as u32
    } else {
        sp as u32 + 0x10000 + byte as u32 - 256
    };
    (
        (total % 0x10000) as u16,
        FlagsRegister {
            zero: false,
            subtract: false,
            half_carry: (sp % 16) + (byte as u16 % 16) > 0xF,
            carry: (sp % 256) + byte as u16 > 0xFF,
        },
    )
}

/// Rotates left by one bit.
pub fn alu_rotate_left(value: u8) -> (result: u8)
    ensures
        result == spec_rotate_left(value),
{
    proof {
        lemma_left_shifts(value, 0);
    }
    (value << 1) | (value >> 7)
}

/// Rotates right by one bit.
pub fn alu_rotate_right(value: u8) -> (result: u8)
    ensures
        result == spec_rotate_right(value),
{
    proof {
        lemma_shifts(value, 0);
    }
    (value >> 1) | (value << 7)
}

/// Shifts left by one bit and brings the carry in as bit 0.
pub fn alu_rotate_left_through_carry(value: u8, carry: bool) -> (result: u8)
    ensures
        result == spec_rotate_left_through_carry(value, carry),
{
    let carry_bit: u8 = if carry {
        1
    } else {
        0
    };
    proof {
        lemma_left_shifts(value, carry_bit);
    }
    (value << 1) | carry_bit
}

/// Shifts right by one bit and brings the carry in as bit 7.
pub fn alu_rotate_right_through_carry(value: u8, carry: bool) -> (result: u8)
    ensures
        result == spec_rotate_right_through_carry(value, carry),
{
    let carry_bit: u8 = if carry {
        1
    } else {
        0
    };
    proof {
        lemma_shifts(value, carry_bit);
    }
    (carry_bit << 7) | (value >> 1)
}

/// Shifts left by one bit.
pub fn alu_shift_left(value: u8) -> (result: u8)
    ensures
        result == spec_shift_left(value),
{
    proof {
        lemma_left_shifts(value, 0);
    }
    value << 1
}

/// Shifts right by one bit, filling with zero.
pub fn alu_shift_right_logical(value: u8) -> (result: u8)
    ensures
        result == spec_shift_right_logical(value),
{
    proof {
        lemma_shifts(value, 0);
    }
    value >> 1
}

/// Shifts right by one bit, keeping the sign bit.
pub fn alu_shift_right_arithmetic(value: u8) -> (result: u8)
    ensures
        result == spec_shift_right_arithmetic(value),
{
    proof {
        lemma_shifts(value, 0);
    }
    (value & 0x80) | (value >> 1)
}

/// Exchanges the two nibbles.
pub fn alu_swap_nibbles(value: u8) -> (result: u8)
    ensures
        result == spec_swap_nibbles(value),
{
    proof {
        lemma_shifts(value, 0);
    }
    ((value & 0xf) << 4) | ((value & 0xf0) >> 4)
}

/// Inverts every bit.
pub fn alu_complement(value: u8) -> (result: u8)
    ensures
        result == spec_complement(value),
{
    proof {
        lemma_shifts(value, 0);
    }
    !value
}

/// Clears one bit.
pub fn alu_reset_bit(value: u8, bit_position: BitPosition) -> (result: u8)
    ensures
        result == spec_reset_bit(value, bit_position),
{
    let mask = bit_position.mask();
    proof {
        lemma_single_bit(value, mask);
    }
    value & !mask
}

/// Sets one bit.
pub fn alu_set_bit(value: u8, bit_position: BitPosition) -> (result: u8)
    ensures
        result == spec_set_bit(value, bit_position),
{
    let mask = bit_position.mask();
    proof {
        lemma_single_bit(value, mask);
    }
    value | mask
}

/// Whether bit 7 is set.
pub fn high_bit(value: u8) -> (set: bool)
    ensures
        set == (value >= 128),
        set == (value / 128 == 1),
{
    proof {
        lemma_test_bits(value);
    }
    (value & 0x80) == 0x80
}

/// Whether bit 0 is set.
pub fn low_bit(value: u8) -> (set: bool)
    ensures
        set == (value % 2 == 1),
{
    proof {
        lemma_test_bits(value);
    }
    (value & 0b1) == 0b1
}

/// Adjusts the accumulator to packed decimal.
pub fn alu_decimal_adjust(a: u8, flags: FlagsRegister) -> (result: (u8, FlagsRegister))
    ensures
        result == spec_decimal_adjust(a, flags),
{
    proof {
        lemma_two_bit_fields(a);
    }
    let high = if flags.subtract {
        flags.carry
    } else {
        flags.carry || a > 0x99
    };
    let low = if flags.subtract {
        flags.half_carry
    } else {
        flags.half_carry || (a & 0xF) > 0x9
    };
    let mut correction: u8 = 0;
    if high {
        correction = correction + 0x60;
    }
    if low {
        correction = correction + 0x06;
    }
    let adjusted = if flags.subtract {
        a.wrapping_sub(correction)
    } else {
        a.wrapping_add(correction)
    };
    (
        adjusted,
        FlagsRegister {
            zero: adjusted == 0,
            subtract: flags.subtract,
            half_carry: false,
            carry: high,
        },
    )
}

/// Shifts of a byte to the left by one bit, as sums and remainders.
proof fn lemma_left_shifts(v: u8, c: u8)
    by (bit_vector)
    requires
        c <= 1,
    ensures
        ((v << 1) | (v >> 7)) == (v * 2) % 256 + v / 128,
        ((v << 1) | c) == (v * 2) % 256 + c,
        (v << 1) == (v * 2) % 256,
{
}

/// Shifts of a byte to the right by one bit, the exchange of its nibbles and
/// its complement, as sums and quotients.
proof fn lemma_shifts(v: u8, c: u8)
    by (bit_vector)
    requires
        c <= 1,
    ensures
        ((v >> 1) | (v << 7)) == v / 2 + 128 * (v % 2),
        ((c << 7) | (v >> 1)) == v / 2 + 128 * c,
        (v >> 1) == v / 2,
        ((v & 0x80) | (v >> 1)) == v / 2 + 128 * (v / 128),
        (((v & 0xf) << 4) | ((v & 0xf0) >> 4)) == (v % 16) * 16 + v / 16,
        !v == 255 - v,
{
}

/// Clearing or setting one bit of a byte takes off or adds the weight of the
/// bit, where that changes the byte at all.
proof fn lemma_single_bit(v: u8, mask: u8)
    by (bit_vector)
    requires
        mask == 1 || mask == 2 || mask == 4 || mask == 8 || mask == 16 || mask == 32 || mask == 64
            || mask == 128,
    ensures
        v / mask % 2 == 1 ==> (v & !mask) == v - mask,
        v / mask % 2 == 0 ==> (v & !mask) == v,
        v / mask % 2 == 1 ==> (v | mask) == v,
        v / mask % 2 == 0 ==> (v | mask) == v + mask,
        v / mask % 2 == 0 || v / mask % 2 == 1,
{
}

} // verus!
