//! The LR35902 processor: its flags, its register file, its instruction set,
//! and the interpreter that carries out one instruction at a time.

pub mod alu;
pub mod flags_register;
pub mod instruction;
pub mod registers;

use self::alu::{
    alu_add, alu_add_hl, alu_add_sp, alu_complement, alu_dec, alu_decimal_adjust, alu_inc,
    alu_reset_bit, alu_rotate_left, alu_rotate_left_through_carry, alu_rotate_right,
    alu_rotate_right_through_carry, alu_set_bit, alu_shift_left, alu_shift_right_arithmetic,
    alu_shift_right_logical, alu_sub, alu_swap_nibbles, high_bit, low_bit, spec_add, spec_add_hl,
    spec_add_sp, spec_bit_test, spec_compare, spec_complement, spec_dec, spec_decimal_adjust,
    spec_inc, spec_logic_flags, spec_reset_bit, spec_rotate_flags, spec_rotate_left,
    spec_rotate_left_through_carry, spec_rotate_right, spec_rotate_right_through_carry,
    spec_set_bit, spec_shift_left, spec_shift_right_arithmetic, spec_shift_right_logical,
    spec_sub, spec_swap_nibbles,
};
use self::flags_register::FlagsRegister;
use self::instruction::{
    spec_from_byte, ADDHLTarget, ArithmeticTarget, BitPosition, IncDecTarget, Indirect,
    Instruction, JumpTest, LoadByteSource, LoadType, LoadWordTarget, Operand, PrefixTarget,
    StackTarget,
};
use self::registers::{
    high_byte, join_bytes, lemma_af_write_read, low_byte, split_word, word_of, Register, Registers,
};
use crate::gpu::{push_pixel, spec_pack_pixel, TileMap};
use crate::interrupt_flags::InterruptFlags;
use crate::joypad::Joypad;
use crate::memory_bus::{
    is_plain_memory, lemma_step_forwards_cycles, lemma_write_keeps_others, lemma_write_then_read,
    MemoryBus,
};
use crate::utils::{bit_value, test_bit};
use vstd::prelude::*;

verus! {

/// The processor together with the bus that it drives.
pub struct CPU {
    pub registers: Registers,
    /// The program counter.
    pub pc: u16,
    /// The stack pointer.
    pub sp: u16,
    pub bus: MemoryBus,
    /// Whether the processor waits for an interrupt.
    pub is_halted: bool,
    /// The interrupt master enable.
    pub interrupts_enabled: bool,
    /// Whether an EI was carried out whose effect is still to come.
    pub interrupt_enable_pending: bool,
}

/// The address that lies a signed offset away from `base`, wrapping at the
/// ends of the address space. The offset is the byte read as a number from
/// -128 to 127.
pub open spec fn spec_offset_address(base: u16, offset: u8) -> u16 {
    if offset < 128 {
        base.wrapping_add(offset as u16)
    } else {
        base.wrapping_sub((256 - offset) as u16)
    }
}

/// The address that lies a signed offset away from `base`.
pub fn offset_address(base: u16, offset: u8) -> (address: u16)
    ensures
        address == spec_offset_address(base, offset),
{
    if offset < 128 {
        base.wrapping_add(offset as u16)
    } else {
        base.wrapping_sub(256 - offset as u16)
    }
}

impl CPU {
    /// The bus keeps its invariant.
    pub open spec fn wf(self) -> bool {
        self.bus.wf()
    }

    /// This state with other flags.
    pub open spec fn with_flags(self, flags: FlagsRegister) -> CPU {
        CPU { registers: Registers { f: flags, ..self.registers }, ..self }
    }

    /// This state with another accumulator and other flags.
    pub open spec fn with_a(self, a: u8, flags: FlagsRegister) -> CPU {
        CPU { registers: Registers { a, f: flags, ..self.registers }, ..self }
    }

    /// The byte after the opcode.
    pub open spec fn spec_read_next_byte(self) -> u8 {
        self.bus.spec_read_byte(self.pc.wrapping_add(1))
    }

    /// The word after the opcode, low byte first.
    pub open spec fn spec_read_next_word(self) -> u16 {
        word_of(
            self.bus.spec_read_byte(self.pc.wrapping_add(2)),
            self.bus.spec_read_byte(self.pc.wrapping_add(1)),
        )
    }

    /// The byte that an operand stands for.
    pub open spec fn spec_operand_value(self, operand: Operand) -> u8 {
        match operand {
            Operand::Register(register) => self.registers.spec_read8(register),
            Operand::D8 => self.spec_read_next_byte(),
            Operand::HLI => self.bus.spec_read_byte(self.registers.hl()),
        }
    }

    /// This state after `value` is stored where the operand lies. An
    /// immediate byte cannot be stored to and leaves the state alone.
    pub open spec fn spec_store_operand(self, operand: Operand, value: u8) -> CPU {
        match operand {
            Operand::Register(register) => CPU {
                registers: self.registers.spec_write8(register, value),
                ..self
            },
            Operand::D8 => self,
            Operand::HLI => CPU {
                bus: self.bus.spec_write_byte(self.registers.hl(), value),
                ..self
            },
        }
    }

    /// Whether the condition of a jump holds.
    pub open spec fn spec_test(self, test: JumpTest) -> bool {
        match test {
            JumpTest::NotZero => !self.registers.f.zero,
            JumpTest::NotCarry => !self.registers.f.carry,
            JumpTest::Zero => self.registers.f.zero,
            JumpTest::Carry => self.registers.f.carry,
            JumpTest::Always => true,
        }
    }

    /// This state after a word is pushed: the stack pointer goes down by one
    /// before each of the two writes, and the high byte is written first.
    pub open spec fn spec_push(self, value: u16) -> CPU {
        let first = self.sp.wrapping_sub(1);
        let second = self.sp.wrapping_sub(2);
        CPU {
            sp: second,
            bus: self.bus.spec_write_byte(first, high_byte(value)).spec_write_byte(
                second,
                low_byte(value),
            ),
            ..self
        }
    }

    /// The word on top of the stack, low byte first.
    pub open spec fn spec_stack_top(self) -> u16 {
        word_of(
            self.bus.spec_read_byte(self.sp.wrapping_add(1)),
            self.bus.spec_read_byte(self.sp),
        )
    }

    /// This state after a word is popped: the stack pointer goes up by two.
    pub open spec fn spec_pop(self) -> CPU {
        CPU { sp: self.sp.wrapping_add(2), ..self }
    }

    /// Reads the byte after the opcode.
    pub fn read_next_byte(&self) -> (value: u8)
        ensures
            value == self.spec_read_next_byte(),
    {
        self.bus.read_byte(self.pc.wrapping_add(1))
    }

    /// Reads the word after the opcode. The machine is little endian: the
    /// byte at pc + 1 is the low one.
    pub fn read_next_word(&self) -> (value: u16)
        ensures
            value == self.spec_read_next_word(),
    {
        join_bytes(
            self.bus.read_byte(self.pc.wrapping_add(2)),
            self.bus.read_byte(self.pc.wrapping_add(1)),
        )
    }

    /// Reads the byte that an operand stands for.
    pub fn operand_value(&self, operand: Operand) -> (value: u8)
        ensures
            value == self.spec_operand_value(operand),
    {
        match operand {
            Operand::Register(register) => self.registers.get8(register),
            Operand::D8 => self.read_next_byte(),
            Operand::HLI => self.bus.read_byte(self.registers.get_hl()),
        }
    }

    /// Stores a byte where an operand lies.
    pub fn store_operand(&mut self, operand: Operand, value: u8)
        requires
            old(self).wf(),
        ensures
            *final(self) == old(self).spec_store_operand(operand, value),
            final(self).wf(),
    {
        match operand {
            Operand::Register(register) => self.registers.set8(register, value),
            Operand::D8 => {},
            Operand::HLI => {
                let hl = self.registers.get_hl();
                self.bus.write_byte(hl, value)
            },
        }
    }

    /// Whether the condition of a jump holds.
    pub fn test(&self, test: JumpTest) -> (holds: bool)
        ensures
            holds == self.spec_test(test),
    {
        match test {
            JumpTest::NotZero => !self.registers.f.zero,
            JumpTest::NotCarry => !self.registers.f.carry,
            JumpTest::Zero => self.registers.f.zero,
            JumpTest::Carry => self.registers.f.carry,
            JumpTest::Always => true,
        }
    }

    /// Pushes a word on the stack.
    pub fn push(&mut self, value: u16)
        requires
            old(self).wf(),
        ensures
            *final(self) == old(self).spec_push(value),
            final(self).wf(),
    {
        let (high, low) = split_word(value);
        let first = self.sp.wrapping_sub(1);
        let second = self.sp.wrapping_sub(2);
        self.bus.write_byte(first, high);
        self.bus.write_byte(second, low);
        self.sp = second;
    }

    /// Pops a word off the stack.
    pub fn pop(&mut self) -> (value: u16)
        ensures
            value == old(self).spec_stack_top(),
            *final(self) == old(self).spec_pop(),
    {
        let lsb = self.bus.read_byte(self.sp);
        let msb = self.bus.read_byte(self.sp.wrapping_add(1));
        self.sp = self.sp.wrapping_add(2);
        join_bytes(msb, lsb)
    }

    /// Increments a byte and sets the flags for it.
    pub fn inc_8bit(&mut self, value: u8) -> (new_value: u8)
        ensures
            new_value == spec_inc(value, old(self).registers.f).0,
            *final(self) == old(self).with_flags(spec_inc(value, old(self).registers.f).1),
    {
        let (new_value, flags) = alu_inc(value, self.registers.f);
        self.registers.f = flags;
        new_value
    }

    /// Increments a word; no flag changes.
    pub fn inc_16bit(&mut self, value: u16) -> (new_value: u16)
        ensures
            new_value == value.wrapping_add(1),
            *final(self) == *old(self),
    {
        value.wrapping_add(1)
    }

    /// Decrements a byte and sets the flags for it.
    pub fn dec_8bit(&mut self, value: u8) -> (new_value: u8)
        ensures
            new_value == spec_dec(value, old(self).registers.f).0,
            *final(self) == old(self).with_flags(spec_dec(value, old(self).registers.f).1),
    {
        let (new_value, flags) = alu_dec(value, self.registers.f);
        self.registers.f = flags;
        new_value
    }

    /// Decrements a word; no flag changes.
    pub fn dec_16bit(&mut self, value: u16) -> (new_value: u16)
        ensures
            new_value == value.wrapping_sub(1),
            *final(self) == *old(self),
    {
        value.wrapping_sub(1)
    }

    /// The carry that an addition or subtraction takes in: the carry flag
    /// where the instruction uses it, and 0 otherwise.
    pub open spec fn spec_carry_in(self, use_carry: bool) -> int {
        bit_value(use_carry && self.registers.f.carry)
    }

    /// Adds a byte to A without the carry flag.
    pub fn add_without_carry(&mut self, value: u8) -> (sum: u8)
        ensures
            sum == spec_add(old(self).registers.a, value, 0).0,
            *final(self) == old(self).with_flags(spec_add(old(self).registers.a, value, 0).1),
    {
        self.add(value, false)
    }

    /// Adds a byte and the carry flag to A.
    pub fn add_with_carry(&mut self, value: u8) -> (sum: u8)
        ensures
            sum == spec_add(old(self).registers.a, value, old(self).spec_carry_in(true)).0,
            *final(self) == old(self).with_flags(
                spec_add(old(self).registers.a, value, old(self).spec_carry_in(true)).1,
            ),
    {
        self.add(value, true)
    }

    /// Adds a byte, and the carry flag where `add_carry` says so, to A. The
    /// sum is returned and the flags are set for it.
    pub fn add(&mut self, value: u8, add_carry: bool) -> (sum: u8)
        ensures
            sum == spec_add(old(self).registers.a, value, old(self).spec_carry_in(add_carry)).0,
            *final(self) == old(self).with_flags(
                spec_add(old(self).registers.a, value, old(self).spec_carry_in(add_carry)).1,
            ),
    {
        let (sum, flags) = alu_add(self.registers.a, value, add_carry && self.registers.f.carry);
        self.registers.f = flags;
        sum
    }

    /// Adds a word to HL. The sum is returned and the flags are set for it.
    pub fn add_hl(&mut self, value: u16) -> (sum: u16)
        ensures
            sum == spec_add_hl(old(self).registers.hl(), value, old(self).registers.f).0,
            *final(self) == old(self).with_flags(
                spec_add_hl(old(self).registers.hl(), value, old(self).registers.f).1,
            ),
    {
        let hl = self.registers.get_hl();
        let (sum, flags) = alu_add_hl(hl, value, self.registers.f);
        self.registers.f = flags;
        sum
    }

    /// Subtracts a byte from A without the carry flag.
    pub fn sub_without_carry(&mut self, value: u8) -> (difference: u8)
        ensures
            difference == spec_sub(old(self).registers.a, value, 0).0,
            *final(self) == old(self).with_flags(spec_sub(old(self).registers.a, value, 0).1),
    {
        self.sub(value, false)
    }

    /// Subtracts a byte and the carry flag from A.
    pub fn sub_with_carry(&mut self, value: u8) -> (difference: u8)
        ensures
            difference == spec_sub(old(self).registers.a, value, old(self).spec_carry_in(true)).0,
            *final(self) == old(self).with_flags(
                spec_sub(old(self).registers.a, value, old(self).spec_carry_in(true)).1,
            ),
    {
        self.sub(value, true)
    }

    /// Subtracts a byte, and the carry flag where `sub_carry` says so, from
    /// A. The difference is returned and the flags are set for it.
    pub fn sub(&mut self, value: u8, sub_carry: bool) -> (difference: u8)
        ensures
            difference == spec_sub(
                old(self).registers.a,
                value,
                old(self).spec_carry_in(sub_carry),
            ).0,
            *final(self) == old(self).with_flags(
                spec_sub(old(self).registers.a, value, old(self).spec_carry_in(sub_carry)).1,
            ),
    {
        let (difference, flags) = alu_sub(
            self.registers.a,
            value,
            sub_carry && self.registers.f.carry,
        );
        self.registers.f = flags;
        difference
    }

    /// The bitwise and of A and a byte, with the flags set for it.
    pub fn and(&mut self, value: u8) -> (new_value: u8)
        ensures
            new_value == old(self).registers.a & value,
            *final(self) == old(self).with_flags(spec_logic_flags(new_value, true)),
    {
        let new_value = self.registers.a & value;
        self.registers.f = FlagsRegister {
            zero: new_value == 0,
            subtract: false,
            half_carry: true,
            carry: false,
        };
        new_value
    }

    /// The bitwise or of A and a byte, with the flags set for it.
    pub fn or(&mut self, value: u8) -> (new_value: u8)
        ensures
            new_value == old(self).registers.a | value,
            *final(self) == old(self).with_flags(spec_logic_flags(new_value, false)),
    {
        let new_value = self.registers.a | value;
        self.registers.f = FlagsRegister {
            zero: new_value == 0,
            subtract: false,
            half_carry: false,
            carry: false,
        };
        new_value
    }

    /// The bitwise exclusive or of A and a byte, with the flags set for it.
    pub fn xor(&mut self, value: u8) -> (new_value: u8)
        ensures
            new_value == old(self).registers.a ^ value,
            *final(self) == old(self).with_flags(spec_logic_flags(new_value, false)),
    {
        let new_value = self.registers.a ^ value;
        self.registers.f = FlagsRegister {
            zero: new_value == 0,
            subtract: false,
            half_carry: false,
            carry: false,
        };
        new_value
    }

    /// Sets the flags as a subtraction of a byte from A would, and keeps A.
    pub fn compare(&mut self, value: u8)
        ensures
            *final(self) == old(self).with_flags(spec_compare(old(self).registers.a, value)),
    {
        self.registers.f = FlagsRegister {
            zero: self.registers.a == value,
            subtract: true,
            half_carry: (self.registers.a % 16) < (value % 16),
            carry: self.registers.a < value,
        };
    }

    /// Rotates right through the carry and leaves the zero flag clear.
    pub fn rotate_right_through_carry_retain_zero(&mut self, value: u8) -> (new_value: u8)
        ensures
            new_value == spec_rotate_right_through_carry(value, old(self).registers.f.carry),
            *final(self) == old(self).with_flags(
                spec_rotate_flags(new_value, value % 2 == 1, false),
            ),
    {
        self.rotate_right_through_carry(value, false)
    }

    /// Rotates right through the carry and sets the zero flag from the result.
    pub fn rotate_right_through_carry_set_zero(&mut self, value: u8) -> (new_value: u8)
        ensures
            new_value == spec_rotate_right_through_carry(value, old(self).registers.f.carry),
            *final(self) == old(self).with_flags(
                spec_rotate_flags(new_value, value % 2 == 1, true),
            ),
    {
        self.rotate_right_through_carry(value, true)
    }

    /// Shifts a byte right by one bit; the carry flag comes in as bit 7 and
    /// bit 0 goes out into the carry flag.
    pub fn rotate_right_through_carry(&mut self, value: u8, set_zero: bool) -> (new_value: u8)
        ensures
            new_value == spec_rotate_right_through_carry(value, old(self).registers.f.carry),
            *final(self) == old(self).with_flags(
                spec_rotate_flags(new_value, value % 2 == 1, set_zero),
            ),
    {
        let new_value = alu_rotate_right_through_carry(value, self.registers.f.carry);
        self.registers.f = FlagsRegister {
            zero: set_zero && new_value == 0,
            subtract: false,
            half_carry: false,
            carry: low_bit(value),
        };
        new_value
    }

    /// Rotates left through the carry and leaves the zero flag clear.
    pub fn rotate_left_through_carry_retain_zero(&mut self, value: u8) -> (new_value: u8)
        ensures
            new_value == spec_rotate_left_through_carry(value, old(self).registers.f.carry),
            *final(self) == old(self).with_flags(
                spec_rotate_flags(new_value, value >= 128, false),
            ),
    {
        self.rotate_left_through_carry(value, false)
    }

    /// Rotates left through the carry and sets the zero flag from the result.
    pub fn rotate_left_through_carry_set_zero(&mut self, value: u8) -> (new_value: u8)
        ensures
            new_value == spec_rotate_left_through_carry(value, old(self).registers.f.carry),
            *final(self) == old(self).with_flags(spec_rotate_flags(new_value, value >= 128, true)),
    {
        self.rotate_left_through_carry(value, true)
    }

    /// Shifts a byte left by one bit; the carry flag comes in as bit 0 and
    /// bit 7 goes out into the carry flag.
    pub fn rotate_left_through_carry(&mut self, value: u8, set_zero: bool) -> (new_value: u8)
        ensures
            new_value == spec_rotate_left_through_carry(value, old(self).registers.f.carry),
            *final(self) == old(self).with_flags(
                spec_rotate_flags(new_value, value >= 128, set_zero),
            ),
    {
        let new_value = alu_rotate_left_through_carry(value, self.registers.f.carry);
        self.registers.f = FlagsRegister {
            zero: set_zero && new_value == 0,
            subtract: false,
            half_carry: false,
            carry: high_bit(value),
        };
        new_value
    }

    /// Rotates right and sets the zero flag from the result.
    pub fn rotate_right_set_zero(&mut self, value: u8) -> (new_value: u8)
        ensures
            new_value == spec_rotate_right(value),
            *final(self) == old(self).with_flags(
                spec_rotate_flags(new_value, value % 2 == 1, true),
            ),
    {
        self.rotate_right(value, true)
    }

    /// Rotates right and leaves the zero flag clear.
    pub fn rotate_right_retain_zero(&mut self, value: u8) -> (new_value: u8)
        ensures
            new_value == spec_rotate_right(value),
            *final(self) == old(self).with_flags(
                spec_rotate_flags(new_value, value % 2 == 1, false),
            ),
    {
        self.rotate_right(value, false)
    }

    /// Rotates left and sets the zero flag from the result.
    pub fn rotate_left_set_zero(&mut self, value: u8) -> (new_value: u8)
        ensures
            new_value == spec_rotate_left(value),
            *final(self) == old(self).with_flags(spec_rotate_flags(new_value, value >= 128, true)),
    {
        self.rotate_left(value, true)
    }

    /// Rotates left and leaves the zero flag clear.
    pub fn rotate_left_retain_zero(&mut self, value: u8) -> (new_value: u8)
        ensures
            new_value == spec_rotate_left(value),
            *final(self) == old(self).with_flags(
                spec_rotate_flags(new_value, value >= 128, false),
            ),
    {
        self.rotate_left(value, false)
    }

    /// Rotates a byte left by one bit; bit 7 also goes into the carry flag.
    pub fn rotate_left(&mut self, value: u8, set_zero: bool) -> (new_value: u8)
        ensures
            new_value == spec_rotate_left(value),
            *final(self) == old(self).with_flags(
                spec_rotate_flags(new_value, value >= 128, set_zero),
            ),
    {
        let new_value = alu_rotate_left(value);
        self.registers.f = FlagsRegister {
            zero: set_zero && new_value == 0,
            subtract: false,
            half_carry: false,
            carry: high_bit(value),
        };
        new_value
    }

    /// Rotates a byte right by one bit; bit 0 also goes into the carry flag.
    pub fn rotate_right(&mut self, value: u8, set_zero: bool) -> (new_value: u8)
        ensures
            new_value == spec_rotate_right(value),
            *final(self) == old(self).with_flags(
                spec_rotate_flags(new_value, value % 2 == 1, set_zero),
            ),
    {
        let new_value = alu_rotate_right(value);
        self.registers.f = FlagsRegister {
            zero: set_zero && new_value == 0,
            subtract: false,
            half_carry: false,
            carry: low_bit(value),
        };
        new_value
    }

    /// Inverts every bit of a byte and sets the subtract and half-carry flags.
    pub fn complement(&mut self, value: u8) -> (new_value: u8)
        ensures
            new_value == spec_complement(value),
            *final(self) == old(self).with_flags(
                FlagsRegister { subtract: true, half_carry: true, ..old(self).registers.f },
            ),
    {
        let new_value = alu_complement(value);
        self.registers.f.subtract = true;
        self.registers.f.half_carry = true;
        new_value
    }

    /// Tests one bit of a byte: the zero flag is set when the bit is clear.
    pub fn bit_test(&mut self, value: u8, bit_position: BitPosition)
        ensures
            *final(self) == old(self).with_flags(
                spec_bit_test(value, bit_position, old(self).registers.f),
            ),
    {
        let bit_position: u8 = bit_position.to_byte();
        let result = test_bit(value, bit_position);
        self.registers.f = FlagsRegister {
            zero: !result,
            subtract: false,
            half_carry: true,
            carry: self.registers.f.carry,
        };
    }

    /// Clears one bit of a byte; no flag changes.
    pub fn reset_bit(&mut self, value: u8, bit_position: BitPosition) -> (new_value: u8)
        ensures
            new_value == spec_reset_bit(value, bit_position),
            *final(self) == *old(self),
    {
        alu_reset_bit(value, bit_position)
    }

    /// Sets one bit of a byte; no flag changes.
    pub fn set_bit(&mut self, value: u8, bit_position: BitPosition) -> (new_value: u8)
        ensures
            new_value == spec_set_bit(value, bit_position),
            *final(self) == *old(self),
    {
        alu_set_bit(value, bit_position)
    }

    /// Shifts a byte right by one bit, filling with zero; bit 0 goes into the
    /// carry flag.
    pub fn shift_right_logical(&mut self, value: u8) -> (new_value: u8)
        ensures
            new_value == spec_shift_right_logical(value),
            *final(self) == old(self).with_flags(
                spec_rotate_flags(new_value, value % 2 == 1, true),
            ),
    {
        let new_value = alu_shift_right_logical(value);
        self.registers.f = FlagsRegister {
            zero: new_value == 0,
            subtract: false,
            half_carry: false,
            carry: low_bit(value),
        };
        new_value
    }

    /// Shifts a byte right by one bit, keeping bit 7; bit 0 goes into the
    /// carry flag.
    pub fn shift_right_arithmetic(&mut self, value: u8) -> (new_value: u8)
        ensures
            new_value == spec_shift_right_arithmetic(value),
            *final(self) == old(self).with_flags(
                spec_rotate_flags(new_value, value % 2 == 1, true),
            ),
    {
        let new_value = alu_shift_right_arithmetic(value);
        self.registers.f = FlagsRegister {
            zero: new_value == 0,
            subtract: false,
            half_carry: false,
            carry: low_bit(value),
        };
        new_value
    }

    /// Shifts a byte left by one bit; bit 7 goes into the carry flag.
    pub fn shift_left_arithmetic(&mut self, value: u8) -> (new_value: u8)
        ensures
            new_value == spec_shift_left(value),
            *final(self) == old(self).with_flags(spec_rotate_flags(new_value, value >= 128, true)),
    {
        let new_value = alu_shift_left(value);
        self.registers.f = FlagsRegister {
            zero: new_value == 0,
            subtract: false,
            half_carry: false,
            carry: high_bit(value),
        };
        new_value
    }

    /// Exchanges the nibbles of a byte and sets the zero flag from the result.
    pub fn swap_nibbles(&mut self, value: u8) -> (new_value: u8)
        ensures
            new_value == spec_swap_nibbles(value),
            *final(self) == old(self).with_flags(spec_rotate_flags(new_value, false, true)),
    {
        let new_value = alu_swap_nibbles(value);
        self.registers.f = FlagsRegister {
            zero: new_value == 0,
            subtract: false,
            half_carry: false,
            carry: false,
        };
        new_value
    }

    /// The word in the 16-bit register that INC or DEC names.
    pub open spec fn spec_wide_value(self, target: IncDecTarget) -> u16 {
        match target {
            IncDecTarget::BC => self.registers.bc(),
            IncDecTarget::DE => self.registers.de(),
            IncDecTarget::HL => self.registers.hl(),
            _ => self.sp,
        }
    }

    /// This state with a word in the 16-bit register that INC or DEC names.
    pub open spec fn spec_with_wide(self, target: IncDecTarget, value: u16) -> CPU {
        match target {
            IncDecTarget::BC => CPU { registers: self.registers.with_bc(value), ..self },
            IncDecTarget::DE => CPU { registers: self.registers.with_de(value), ..self },
            IncDecTarget::HL => CPU { registers: self.registers.with_hl(value), ..self },
            _ => CPU { sp: value, ..self },
        }
    }

    /// The cycles of INC and DEC: 8 for a 16-bit register, 12 for the byte at
    /// HL, 4 for a register.
    pub open spec fn spec_inc_dec_cycles(target: IncDecTarget) -> u8 {
        if target.is_wide() {
            8
        } else if target is HLI {
            12
        } else {
            4
        }
    }

    /// INC: the operand goes up by one, wrapping. A byte operand sets the
    /// zero, subtract and half-carry flags; a 16-bit register sets none.
    pub open spec fn spec_inc(self, target: IncDecTarget) -> (CPU, u16, u8) {
        let result = spec_inc(self.spec_operand_value(target.spec_operand()), self.registers.f);
        (
            if target.is_wide() {
                self.spec_with_wide(target, self.spec_wide_value(target).wrapping_add(1))
            } else {
                self.with_flags(result.1).spec_store_operand(target.spec_operand(), result.0)
            },
            self.pc.wrapping_add(1),
            Self::spec_inc_dec_cycles(target),
        )
    }

    /// DEC: the operand goes down by one, wrapping. A byte operand sets the
    /// zero, subtract and half-carry flags; a 16-bit register sets none.
    pub open spec fn spec_dec(self, target: IncDecTarget) -> (CPU, u16, u8) {
        let result = spec_dec(self.spec_operand_value(target.spec_operand()), self.registers.f);
        (
            if target.is_wide() {
                self.spec_with_wide(target, self.spec_wide_value(target).wrapping_sub(1))
            } else {
                self.with_flags(result.1).spec_store_operand(target.spec_operand(), result.0)
            },
            self.pc.wrapping_add(1),
            Self::spec_inc_dec_cycles(target),
        )
    }

    /// Where the next instruction lies after an arithmetic instruction on A,
    /// and the cycles of that instruction: two bytes and 8 cycles with an
    /// immediate byte, one byte and 8 cycles with the byte at HL, one byte and
    /// 4 cycles with a register.
    pub open spec fn spec_arithmetic_next(self, target: ArithmeticTarget) -> (u16, u8) {
        match target {
            ArithmeticTarget::D8 => (self.pc.wrapping_add(2), 8),
            ArithmeticTarget::HLI => (self.pc.wrapping_add(1), 8),
            _ => (self.pc.wrapping_add(1), 4),
        }
    }

    /// The byte that an arithmetic instruction combines with A.
    pub open spec fn spec_arithmetic_value(self, target: ArithmeticTarget) -> u8 {
        self.spec_operand_value(target.spec_operand())
    }

    /// An arithmetic instruction that leaves the given result in A and the
    /// given flags in F.
    pub open spec fn spec_accumulate(self, target: ArithmeticTarget, result: (u8, FlagsRegister))
        -> (CPU, u16, u8) {
        (
            self.with_a(result.0, result.1),
            self.spec_arithmetic_next(target).0,
            self.spec_arithmetic_next(target).1,
        )
    }

    /// The word that ADD HL adds to HL.
    pub open spec fn spec_add_hl_value(self, target: ADDHLTarget) -> u16 {
        match target {
            ADDHLTarget::BC => self.registers.bc(),
            ADDHLTarget::DE => self.registers.de(),
            ADDHLTarget::HL => self.registers.hl(),
            ADDHLTarget::SP => self.sp,
        }
    }

    /// ADD HL: the sum goes to HL; 8 cycles.
    pub open spec fn spec_add_to_hl(self, target: ADDHLTarget) -> (CPU, u16, u8) {
        let result = spec_add_hl(
            self.registers.hl(),
            self.spec_add_hl_value(target),
            self.registers.f,
        );
        (
            CPU {
                registers: (Registers { f: result.1, ..self.registers }).with_hl(result.0),
                ..self
            },
            self.pc.wrapping_add(1),
            8,
        )
    }

    /// ADD SP: the stack pointer moves by the signed byte after the opcode; 16
    /// cycles.
    pub open spec fn spec_add_to_sp(self) -> (CPU, u16, u8) {
        let result = spec_add_sp(self.sp, self.spec_read_next_byte());
        (
            CPU { sp: result.0, registers: Registers { f: result.1, ..self.registers }, ..self },
            self.pc.wrapping_add(2),
            16,
        )
    }

    /// An instruction of one byte and 4 cycles that leaves the given result in
    /// A and the given flags in F.
    pub open spec fn spec_accumulator(self, a: u8, flags: FlagsRegister) -> (CPU, u16, u8) {
        (self.with_a(a, flags), self.pc.wrapping_add(1), 4)
    }

    /// The cycles of a prefixed instruction: 16 with the byte at HL, 8 with a
    /// register.
    pub open spec fn spec_prefix_cycles(target: PrefixTarget) -> u8 {
        if target is HLI {
            16
        } else {
            8
        }
    }

    /// A prefixed instruction that stores the given result where its operand
    /// lies and leaves the given flags in F.
    pub open spec fn spec_prefix_store(
        self,
        target: PrefixTarget,
        result: u8,
        flags: FlagsRegister,
    ) -> (CPU, u16, u8) {
        (
            self.with_flags(flags).spec_store_operand(target.spec_operand(), result),
            self.pc.wrapping_add(2),
            Self::spec_prefix_cycles(target),
        )
    }

    /// The operand of a prefixed instruction.
    pub open spec fn spec_prefix_value(self, target: PrefixTarget) -> u8 {
        self.spec_operand_value(target.spec_operand())
    }

    /// JP: to the word after the opcode in 16 cycles where the condition
    /// holds, and on to the next instruction in 12 where it does not.
    pub open spec fn spec_jump(self, should_jump: bool) -> (u16, u8) {
        if should_jump {
            (self.spec_read_next_word(), 16)
        } else {
            (self.pc.wrapping_add(3), 12)
        }
    }

    /// JR: to the next instruction plus the signed byte after the opcode in
    /// 12 cycles where the condition holds, and on to the next instruction in
    /// 8 where it does not.
    pub open spec fn spec_jump_relative(self, should_jump: bool) -> (u16, u8) {
        if should_jump {
            (spec_offset_address(self.pc.wrapping_add(2), self.spec_read_next_byte()), 12)
        } else {
            (self.pc.wrapping_add(2), 8)
        }
    }

    /// CALL: where the condition holds, the address of the next instruction
    /// is pushed and the word after the opcode is jumped to, in 24 cycles;
    /// where it does not, the next instruction follows in 12.
    pub open spec fn spec_call(self, should_jump: bool) -> (CPU, u16, u8) {
        if should_jump {
            (
                self.spec_push(self.pc.wrapping_add(3)),
                self.spec_push(self.pc.wrapping_add(3)).spec_read_next_word(),
                24,
            )
        } else {
            (self, self.pc.wrapping_add(3), 12)
        }
    }

    /// RET: where the condition holds, the address on top of the stack is
    /// popped and jumped to, in 16 cycles without a condition and in 20 with
    /// one; where it does not, the next instruction follows in 8.
    pub open spec fn spec_return(self, test: JumpTest) -> (CPU, u16, u8) {
        if self.spec_test(test) {
            (
                self.spec_pop(),
                self.spec_stack_top(),
                if test is Always {
                    16
                } else {
                    20
                },
            )
        } else {
            (self, self.pc.wrapping_add(1), 8)
        }
    }

    /// The address that an indirect load or store uses.
    pub open spec fn spec_indirect_address(self, indirect: Indirect) -> u16 {
        match indirect {
            Indirect::BCIndirect => self.registers.bc(),
            Indirect::DEIndirect => self.registers.de(),
            Indirect::HLIndirectMinus => self.registers.hl(),
            Indirect::HLIndirectPlus => self.registers.hl(),
            Indirect::WordIndirect => self.spec_read_next_word(),
            Indirect::LastByteIndirect => (0xFF00 + self.registers.c) as u16,
        }
    }

    /// The registers after an indirect load or store: HL steps down or up by
    /// one in the two forms that say so.
    pub open spec fn spec_indirect_registers(self, indirect: Indirect) -> Registers {
        match indirect {
            Indirect::HLIndirectMinus => self.registers.with_hl(
                self.registers.hl().wrapping_sub(1),
            ),
            Indirect::HLIndirectPlus => self.registers.with_hl(self.registers.hl().wrapping_add(1)),
            _ => self.registers,
        }
    }

    /// Where the next instruction lies after an indirect load or store, and
    /// the cycles of that instruction.
    pub open spec fn spec_indirect_next(self, indirect: Indirect) -> (u16, u8) {
        match indirect {
            Indirect::WordIndirect => (self.pc.wrapping_add(3), 16),
            Indirect::LastByteIndirect => (self.pc.wrapping_add(2), 8),
            _ => (self.pc.wrapping_add(1), 8),
        }
    }

    /// Where the next instruction lies after a byte load, and the cycles of
    /// that instruction.
    pub open spec fn spec_load_byte_next(self, source: LoadByteSource) -> (u16, u8) {
        match source {
            LoadByteSource::D8 => (self.pc.wrapping_add(2), 8),
            LoadByteSource::HLI => (self.pc.wrapping_add(1), 8),
            _ => (self.pc.wrapping_add(1), 4),
        }
    }

    /// This state with a word in the register that a word load names.
    pub open spec fn spec_with_word(self, target: LoadWordTarget, value: u16) -> CPU {
        match target {
            LoadWordTarget::BC => CPU { registers: self.registers.with_bc(value), ..self },
            LoadWordTarget::DE => CPU { registers: self.registers.with_de(value), ..self },
            LoadWordTarget::HL => CPU { registers: self.registers.with_hl(value), ..self },
            LoadWordTarget::SP => CPU { sp: value, ..self },
        }
    }

    /// LD in all its forms. No form but LD HL,SP+e8 touches the flags.
    pub open spec fn spec_load(self, load_type: LoadType) -> (CPU, u16, u8) {
        match load_type {
            LoadType::Byte(target, source) => (
                self.spec_store_operand(
                    target.spec_operand(),
                    self.spec_operand_value(source.spec_operand()),
                ),
                self.spec_load_byte_next(source).0,
                self.spec_load_byte_next(source).1,
            ),
            LoadType::Word(target) => (
                self.spec_with_word(target, self.spec_read_next_word()),
                self.pc.wrapping_add(3),
                12,
            ),
            LoadType::AFromIndirect(source) => (
                CPU {
                    registers: Registers {
                        a: self.bus.spec_read_byte(self.spec_indirect_address(source)),
                        ..self.spec_indirect_registers(source)
                    },
                    ..self
                },
                self.spec_indirect_next(source).0,
                self.spec_indirect_next(source).1,
            ),
            LoadType::IndirectFromA(target) => (
                CPU {
                    registers: self.spec_indirect_registers(target),
                    bus: self.bus.spec_write_byte(
                        self.spec_indirect_address(target),
                        self.registers.a,
                    ),
                    ..self
                },
                self.spec_indirect_next(target).0,
                self.spec_indirect_next(target).1,
            ),
            LoadType::ByteAddressFromA => (
                CPU {
                    bus: self.bus.spec_write_byte(
                        (0xFF00 + self.spec_read_next_byte()) as u16,
                        self.registers.a,
                    ),
                    ..self
                },
                self.pc.wrapping_add(2),
                12,
            ),
            LoadType::AFromByteAddress => (
                CPU {
                    registers: Registers {
                        a: self.bus.spec_read_byte((0xFF00 + self.spec_read_next_byte()) as u16),
                        ..self.registers
                    },
                    ..self
                },
                self.pc.wrapping_add(2),
                12,
            ),
            LoadType::SPFromHL => (
                CPU { sp: self.registers.hl(), ..self },
                self.pc.wrapping_add(1),
                8,
            ),
            LoadType::IndirectFromSP => (
                CPU {
                    bus: self.bus.spec_write_byte(
                        self.spec_read_next_word(),
                        low_byte(self.sp),
                    ).spec_write_byte(
                        self.spec_read_next_word().wrapping_add(1),
                        high_byte(self.sp),
                    ),
                    ..self
                },
                self.pc.wrapping_add(3),
                20,
            ),
            LoadType::HLFromSPN => (
                CPU {
                    registers: (Registers {
                        f: spec_add_sp(self.sp, self.spec_read_next_byte()).1,
                        ..self.registers
                    }).with_hl(spec_add_sp(self.sp, self.spec_read_next_byte()).0),
                    ..self
                },
                self.pc.wrapping_add(2),
                12,
            ),
        }
    }

    /// The word in the register pair that PUSH names.
    pub open spec fn spec_stack_value(self, target: StackTarget) -> u16 {
        match target {
            StackTarget::AF => self.registers.af(),
            StackTarget::BC => self.registers.bc(),
            StackTarget::DE => self.registers.de(),
            StackTarget::HL => self.registers.hl(),
        }
    }

    /// The registers with a word in the register pair that POP names. AF
    /// drops the low nibble of the word.
    pub open spec fn spec_with_stack_value(self, target: StackTarget, value: u16) -> Registers {
        match target {
            StackTarget::AF => self.registers.with_af(value),
            StackTarget::BC => self.registers.with_bc(value),
            StackTarget::DE => self.registers.with_de(value),
            StackTarget::HL => self.registers.with_hl(value),
        }
    }

    /// The arithmetic and logic instructions that combine A with an operand:
    /// ADD, ADC, SUB, SBC, AND, OR, XOR and CP. Any other instruction leaves
    /// the state alone.
    pub open spec fn spec_execute_arithmetic(self, instruction: Instruction) -> (CPU, u16, u8) {
        let a = self.registers.a;
        match instruction {
            Instruction::ADD(target) => self.spec_accumulate(
                target,
                spec_add(a, self.spec_arithmetic_value(target), 0),
            ),
            Instruction::ADC(target) => self.spec_accumulate(
                target,
                spec_add(a, self.spec_arithmetic_value(target), self.spec_carry_in(true)),
            ),
            Instruction::SUB(target) => self.spec_accumulate(
                target,
                spec_sub(a, self.spec_arithmetic_value(target), 0),
            ),
            Instruction::SBC(target) => self.spec_accumulate(
                target,
                spec_sub(a, self.spec_arithmetic_value(target), self.spec_carry_in(true)),
            ),
            Instruction::AND(target) => self.spec_accumulate(
                target,
                (
                    a & self.spec_arithmetic_value(target),
                    spec_logic_flags(a & self.spec_arithmetic_value(target), true),
                ),
            ),
            Instruction::OR(target) => self.spec_accumulate(
                target,
                (
                    a | self.spec_arithmetic_value(target),
                    spec_logic_flags(a | self.spec_arithmetic_value(target), false),
                ),
            ),
            Instruction::XOR(target) => self.spec_accumulate(
                target,
                (
                    a ^ self.spec_arithmetic_value(target),
                    spec_logic_flags(a ^ self.spec_arithmetic_value(target), false),
                ),
            ),
            Instruction::CP(target) => self.spec_accumulate(
                target,
                (a, spec_compare(a, self.spec_arithmetic_value(target))),
            ),
            _ => (self, self.pc, 0),
        }
    }

    /// The instructions of one byte that work on A and the flags alone: CCF,
    /// SCF, the four rotates of A, which leave the zero flag clear, CPL and
    /// DAA. Any other instruction leaves the state alone.
    pub open spec fn spec_execute_accumulator(self, instruction: Instruction) -> (CPU, u16, u8) {
        let a = self.registers.a;
        let f = self.registers.f;
        match instruction {
            Instruction::CCF => self.spec_accumulator(
                a,
                FlagsRegister { subtract: false, half_carry: false, carry: !f.carry, ..f },
            ),
            Instruction::SCF => self.spec_accumulator(
                a,
                FlagsRegister { subtract: false, half_carry: false, carry: true, ..f },
            ),
            Instruction::RRA => self.spec_accumulator(
                spec_rotate_right_through_carry(a, f.carry),
                spec_rotate_flags(spec_rotate_right_through_carry(a, f.carry), a % 2 == 1, false),
            ),
            Instruction::RLA => self.spec_accumulator(
                spec_rotate_left_through_carry(a, f.carry),
                spec_rotate_flags(spec_rotate_left_through_carry(a, f.carry), a >= 128, false),
            ),
            Instruction::RRCA => self.spec_accumulator(
                spec_rotate_right(a),
                spec_rotate_flags(spec_rotate_right(a), a % 2 == 1, false),
            ),
            Instruction::RLCA => self.spec_accumulator(
                spec_rotate_left(a),
                spec_rotate_flags(spec_rotate_left(a), a >= 128, false),
            ),
            Instruction::CPL => self.spec_accumulator(
                spec_complement(a),
                FlagsRegister { subtract: true, half_carry: true, ..f },
            ),
            Instruction::DAA => self.spec_accumulator(
                spec_decimal_adjust(a, f).0,
                spec_decimal_adjust(a, f).1,
            ),
            _ => (self, self.pc, 0),
        }
    }

    /// The instructions behind the prefix 0xCB. BIT sets the flags from one
    /// bit of the operand; RES and SET change one bit of it and leave the
    /// flags alone; the rotates and shifts store their result where the
    /// operand lies and set the zero flag from it. Any other instruction
    /// leaves the state alone.
    pub open spec fn spec_execute_prefixed(self, instruction: Instruction) -> (CPU, u16, u8) {
        let f = self.registers.f;
        match instruction {
            Instruction::BIT(target, position) => (
                self.with_flags(spec_bit_test(self.spec_prefix_value(target), position, f)),
                self.pc.wrapping_add(2),
                Self::spec_prefix_cycles(target),
            ),
            Instruction::RES(target, position) => self.spec_prefix_store(
                target,
                spec_reset_bit(self.spec_prefix_value(target), position),
                f,
            ),
            Instruction::SET(target, position) => self.spec_prefix_store(
                target,
                spec_set_bit(self.spec_prefix_value(target), position),
                f,
            ),
            Instruction::SRL(target) => self.spec_prefix_store(
                target,
                spec_shift_right_logical(self.spec_prefix_value(target)),
                spec_rotate_flags(
                    spec_shift_right_logical(self.spec_prefix_value(target)),
                    self.spec_prefix_value(target) % 2 == 1,
                    true,
                ),
            ),
            Instruction::RR(target) => self.spec_prefix_store(
                target,
                spec_rotate_right_through_carry(self.spec_prefix_value(target), f.carry),
                spec_rotate_flags(
                    spec_rotate_right_through_carry(self.spec_prefix_value(target), f.carry),
                    self.spec_prefix_value(target) % 2 == 1,
                    true,
                ),
            ),
            Instruction::RL(target) => self.spec_prefix_store(
                target,
                spec_rotate_left_through_carry(self.spec_prefix_value(target), f.carry),
                spec_rotate_flags(
                    spec_rotate_left_through_carry(self.spec_prefix_value(target), f.carry),
                    self.spec_prefix_value(target) >= 128,
                    true,
                ),
            ),
            Instruction::RRC(target) => self.spec_prefix_store(
                target,
                spec_rotate_right(self.spec_prefix_value(target)),
                spec_rotate_flags(
                    spec_rotate_right(self.spec_prefix_value(target)),
                    self.spec_prefix_value(target) % 2 == 1,
                    true,
                ),
            ),
            Instruction::RLC(target) => self.spec_prefix_store(
                target,
                spec_rotate_left(self.spec_prefix_value(target)),
                spec_rotate_flags(
                    spec_rotate_left(self.spec_prefix_value(target)),
                    self.spec_prefix_value(target) >= 128,
                    true,
                ),
            ),
            Instruction::SRA(target) => self.spec_prefix_store(
                target,
                spec_shift_right_arithmetic(self.spec_prefix_value(target)),
                spec_rotate_flags(
                    spec_shift_right_arithmetic(self.spec_prefix_value(target)),
                    self.spec_prefix_value(target) % 2 == 1,
                    true,
                ),
            ),
            Instruction::SLA(target) => self.spec_prefix_store(
                target,
                spec_shift_left(self.spec_prefix_value(target)),
                spec_rotate_flags(
                    spec_shift_left(self.spec_prefix_value(target)),
                    self.spec_prefix_value(target) >= 128,
                    true,
                ),
            ),
            Instruction::SWAP(target) => self.spec_prefix_store(
                target,
                spec_swap_nibbles(self.spec_prefix_value(target)),
                spec_rotate_flags(spec_swap_nibbles(self.spec_prefix_value(target)), false, true),
            ),
            _ => (self, self.pc, 0),
        }
    }

    /// The instructions that move the program counter or use the stack: JP,
    /// JR, JP (HL), PUSH, POP, CALL, RET, RETI and RST. Any other instruction
    /// leaves the state alone.
    pub open spec fn spec_execute_control(self, instruction: Instruction) -> (CPU, u16, u8) {
        match instruction {
            Instruction::JP(test) => (
                self,
                self.spec_jump(self.spec_test(test)).0,
                self.spec_jump(self.spec_test(test)).1,
            ),
            Instruction::JR(test) => (
                self,
                self.spec_jump_relative(self.spec_test(test)).0,
                self.spec_jump_relative(self.spec_test(test)).1,
            ),
            Instruction::JPI => (self, self.registers.hl(), 4),
            Instruction::PUSH(target) => (
                self.spec_push(self.spec_stack_value(target)),
                self.pc.wrapping_add(1),
                16,
            ),
            Instruction::POP(target) => (
                CPU {
                    registers: self.spec_with_stack_value(target, self.spec_stack_top()),
                    ..self.spec_pop()
                },
                self.pc.wrapping_add(1),
                12,
            ),
            Instruction::CALL(test) => self.spec_call(self.spec_test(test)),
            Instruction::RET(test) => self.spec_return(test),
            Instruction::RETI => (
                CPU { interrupts_enabled: true, ..self.spec_pop() },
                self.spec_stack_top(),
                16,
            ),
            Instruction::RST(location) => (
                self.spec_push(self.pc.wrapping_add(1)),
                location.address(),
                16,
            ),
            _ => (self, self.pc, 0),
        }
    }

    /// NOP does nothing; HALT and STOP put the processor to sleep until an
    /// interrupt is due, STOP being two bytes long; DI switches the interrupts
    /// off at once; EI switches them on with a delay of one instruction. Any
    /// other instruction leaves the state alone.
    pub open spec fn spec_execute_misc(self, instruction: Instruction) -> (CPU, u16, u8) {
        match instruction {
            Instruction::NOP => (self, self.pc.wrapping_add(1), 4),
            Instruction::HALT => (CPU { is_halted: true, ..self }, self.pc.wrapping_add(1), 4),
            Instruction::STOP => (CPU { is_halted: true, ..self }, self.pc.wrapping_add(2), 4),
            Instruction::DI => (
                CPU { interrupts_enabled: false, interrupt_enable_pending: false, ..self },
                self.pc.wrapping_add(1),
                4,
            ),
            Instruction::EI => (
                CPU { interrupt_enable_pending: true, ..self },
                self.pc.wrapping_add(1),
                4,
            ),
            _ => (self, self.pc, 0),
        }
    }

    /// The state after one instruction is carried out at the program
    /// counter, the address of the instruction that follows, and the cycles
    /// that the instruction took. The program counter itself stays; the caller
    /// moves it.
    pub open spec fn spec_execute(self, instruction: Instruction) -> (CPU, u16, u8) {
        match instruction {
            Instruction::INC(target) => self.spec_inc(target),
            Instruction::DEC(target) => self.spec_dec(target),
            Instruction::ADDHL(target) => self.spec_add_to_hl(target),
            Instruction::ADDSP => self.spec_add_to_sp(),
            Instruction::LD(load_type) => self.spec_load(load_type),
            _ => if instruction.is_arithmetic() {
                self.spec_execute_arithmetic(instruction)
            } else if instruction.is_accumulator() {
                self.spec_execute_accumulator(instruction)
            } else if instruction.is_prefixed() {
                self.spec_execute_prefixed(instruction)
            } else if instruction.is_control() {
                self.spec_execute_control(instruction)
            } else {
                self.spec_execute_misc(instruction)
            },
        }
    }

    /// Where the next instruction lies after an arithmetic instruction on A,
    /// and the cycles of that instruction.
    pub fn arithmetic_next(&self, target: ArithmeticTarget) -> (next: (u16, u8))
        ensures
            next == self.spec_arithmetic_next(target),
    {
        match target {
            ArithmeticTarget::D8 => (self.pc.wrapping_add(2), 8),
            ArithmeticTarget::HLI => (self.pc.wrapping_add(1), 8),
            _ => (self.pc.wrapping_add(1), 4),
        }
    }

    /// The cycles of a prefixed instruction.
    pub fn prefix_cycles(target: PrefixTarget) -> (cycles: u8)
        ensures
            cycles == Self::spec_prefix_cycles(target),
    {
        match target {
            PrefixTarget::HLI => 16,
            _ => 8,
        }
    }

    /// Carries out INC.
    pub fn inc(&mut self, target: IncDecTarget) -> (next: (u16, u8))
        requires
            old(self).wf(),
        ensures
            (*final(self), next.0, next.1) == old(self).spec_inc(target),
            final(self).wf(),
    {
        let next_pc = self.pc.wrapping_add(1);
        match target {
            IncDecTarget::BC => {
                let amount = self.registers.get_bc();
                let result = self.inc_16bit(amount);
                self.registers.set_bc(result);
                (next_pc, 8)
            },
            IncDecTarget::DE => {
                let amount = self.registers.get_de();
                let result = self.inc_16bit(amount);
                self.registers.set_de(result);
                (next_pc, 8)
            },
            IncDecTarget::HL => {
                let amount = self.registers.get_hl();
                let result = self.inc_16bit(amount);
                self.registers.set_hl(result);
                (next_pc, 8)
            },
            IncDecTarget::SP => {
                let amount = self.sp;
                let result = self.inc_16bit(amount);
                self.sp = result;
                (next_pc, 8)
            },
            _ => {
                let operand = target.operand();
                let amount = self.operand_value(operand);
                let result = self.inc_8bit(amount);
                self.store_operand(operand, result);
                let cycles = match target {
                    IncDecTarget::HLI => 12,
                    _ => 4,
                };
                (next_pc, cycles)
            },
        }
    }

    /// Carries out DEC.
    pub fn dec(&mut self, target: IncDecTarget) -> (next: (u16, u8))
        requires
            old(self).wf(),
        ensures
            (*final(self), next.0, next.1) == old(self).spec_dec(target),
            final(self).wf(),
    {
        let next_pc = self.pc.wrapping_add(1);
        match target {
            IncDecTarget::BC => {
                let amount = self.registers.get_bc();
                let result = self.dec_16bit(amount);
                self.registers.set_bc(result);
                (next_pc, 8)
            },
            IncDecTarget::DE => {
                let amount = self.registers.get_de();
                let result = self.dec_16bit(amount);
                self.registers.set_de(result);
                (next_pc, 8)
            },
            IncDecTarget::HL => {
                let amount = self.registers.get_hl();
                let result = self.dec_16bit(amount);
                self.registers.set_hl(result);
                (next_pc, 8)
            },
            IncDecTarget::SP => {
                let amount = self.sp;
                let result = self.dec_16bit(amount);
                self.sp = result;
                (next_pc, 8)
            },
            _ => {
                let operand = target.operand();
                let amount = self.operand_value(operand);
                let result = self.dec_8bit(amount);
                self.store_operand(operand, result);
                let cycles = match target {
                    IncDecTarget::HLI => 12,
                    _ => 4,
                };
                (next_pc, cycles)
            },
        }
    }

    /// Carries out ADD, ADC, SUB, SBC, AND, OR, XOR and CP.
    pub fn execute_arithmetic(&mut self, instruction: Instruction) -> (next: (u16, u8))
        requires
            instruction.is_arithmetic(),
        ensures
            (*final(self), next.0, next.1) == old(self).spec_execute_arithmetic(instruction),
            final(self).bus == old(self).bus,
    {
        match instruction {
            Instruction::ADD(target) => {
                let value = self.operand_value(target.operand());
                let result = self.add_without_carry(value);
                self.registers.a = result;
                self.arithmetic_next(target)
            },
            Instruction::ADC(target) => {
                let value = self.operand_value(target.operand());
                let result = self.add_with_carry(value);
                self.registers.a = result;
                self.arithmetic_next(target)
            },
            Instruction::SUB(target) => {
                let value = self.operand_value(target.operand());
                let result = self.sub_without_carry(value);
                self.registers.a = result;
                self.arithmetic_next(target)
            },
            Instruction::SBC(target) => {
                let value = self.operand_value(target.operand());
                let result = self.sub_with_carry(value);
                self.registers.a = result;
                self.arithmetic_next(target)
            },
            Instruction::AND(target) => {
                let value = self.operand_value(target.operand());
                let result = self.and(value);
                self.registers.a = result;
                self.arithmetic_next(target)
            },
            Instruction::OR(target) => {
                let value = self.operand_value(target.operand());
                let result = self.or(value);
                self.registers.a = result;
                self.arithmetic_next(target)
            },
            Instruction::XOR(target) => {
                let value = self.operand_value(target.operand());
                let result = self.xor(value);
                self.registers.a = result;
                self.arithmetic_next(target)
            },
            Instruction::CP(target) => {
                let value = self.operand_value(target.operand());
                self.compare(value);
                self.arithmetic_next(target)
            },
            _ => (self.pc, 0),
        }
    }

    /// Carries out CCF, SCF, RRA, RLA, RRCA, RLCA, CPL and DAA.
    pub fn execute_accumulator(&mut self, instruction: Instruction) -> (next: (u16, u8))
        requires
            instruction.is_accumulator(),
        ensures
            (*final(self), next.0, next.1) == old(self).spec_execute_accumulator(instruction),
            final(self).bus == old(self).bus,
    {
        let a = self.registers.a;
        let f = self.registers.f;
        match instruction {
            Instruction::CCF => {
                self.registers.f = FlagsRegister {
                    zero: f.zero,
                    subtract: false,
                    half_carry: false,
                    carry: !f.carry,
                };
                (self.pc.wrapping_add(1), 4)
            },
            Instruction::SCF => {
                self.registers.f = FlagsRegister {
                    zero: f.zero,
                    subtract: false,
                    half_carry: false,
                    carry: true,
                };
                (self.pc.wrapping_add(1), 4)
            },
            Instruction::RRA => {
                let result = self.rotate_right_through_carry_retain_zero(a);
                self.registers.a = result;
                (self.pc.wrapping_add(1), 4)
            },
            Instruction::RLA => {
                let result = self.rotate_left_through_carry_retain_zero(a);
                self.registers.a = result;
                (self.pc.wrapping_add(1), 4)
            },
            Instruction::RRCA => {
                let result = self.rotate_right_retain_zero(a);
                self.registers.a = result;
                (self.pc.wrapping_add(1), 4)
            },
            Instruction::RLCA => {
                let result = self.rotate_left_retain_zero(a);
                self.registers.a = result;
                (self.pc.wrapping_add(1), 4)
            },
            Instruction::CPL => {
                let result = self.complement(a);
                self.registers.a = result;
                (self.pc.wrapping_add(1), 4)
            },
            Instruction::DAA => {
                let (result, flags) = alu_decimal_adjust(a, f);
                self.registers.a = result;
                self.registers.f = flags;
                (self.pc.wrapping_add(1), 4)
            },
            _ => (self.pc, 0),
        }
    }

    /// Carries out the instructions behind the prefix 0xCB: the rotates and
    /// shifts of any operand, BIT, RES and SET.
    pub fn execute_prefixed(&mut self, instruction: Instruction) -> (next: (u16, u8))
        requires
            old(self).wf(),
            instruction.is_prefixed(),
        ensures
            (*final(self), next.0, next.1) == old(self).spec_execute_prefixed(instruction),
            final(self).wf(),
    {
        let next_pc = self.pc.wrapping_add(2);
        match instruction {
            Instruction::BIT(target, bit_position) => {
                let value = self.operand_value(target.operand());
                self.bit_test(value, bit_position);
                (next_pc, Self::prefix_cycles(target))
            },
            Instruction::RES(target, bit_position) => {
                let value = self.operand_value(target.operand());
                let result = self.reset_bit(value, bit_position);
                self.store_operand(target.operand(), result);
                (next_pc, Self::prefix_cycles(target))
            },
            Instruction::SET(target, bit_position) => {
                let value = self.operand_value(target.operand());
                let result = self.set_bit(value, bit_position);
                self.store_operand(target.operand(), result);
                (next_pc, Self::prefix_cycles(target))
            },
            Instruction::SRL(target) => {
                let value = self.operand_value(target.operand());
                let result = self.shift_right_logical(value);
                self.store_operand(target.operand(), result);
                (next_pc, Self::prefix_cycles(target))
            },
            Instruction::RR(target) => {
                let value = self.operand_value(target.operand());
                let result = self.rotate_right_through_carry_set_zero(value);
                self.store_operand(target.operand(), result);
                (next_pc, Self::prefix_cycles(target))
            },
            Instruction::RL(target) => {
                let value = self.operand_value(target.operand());
                let result = self.rotate_left_through_carry_set_zero(value);
                self.store_operand(target.operand(), result);
                (next_pc, Self::prefix_cycles(target))
            },
            Instruction::RRC(target) => {
                let value = self.operand_value(target.operand());
                let result = self.rotate_right_set_zero(value);
                self.store_operand(target.operand(), result);
                (next_pc, Self::prefix_cycles(target))
            },
            Instruction::RLC(target) => {
                let value = self.operand_value(target.operand());
                let result = self.rotate_left_set_zero(value);
                self.store_operand(target.operand(), result);
                (next_pc, Self::prefix_cycles(target))
            },
            Instruction::SRA(target) => {
                let value = self.operand_value(target.operand());
                let result = self.shift_right_arithmetic(value);
                self.store_operand(target.operand(), result);
                (next_pc, Self::prefix_cycles(target))
            },
            Instruction::SLA(target) => {
                let value = self.operand_value(target.operand());
                let result = self.shift_left_arithmetic(value);
                self.store_operand(target.operand(), result);
                (next_pc, Self::prefix_cycles(target))
            },
            Instruction::SWAP(target) => {
                let value = self.operand_value(target.operand());
                let result = self.swap_nibbles(value);
                self.store_operand(target.operand(), result);
                (next_pc, Self::prefix_cycles(target))
            },
            _ => (self.pc, 0),
        }
    }

    /// Where a JP leads, and its cycles.
    pub fn jump(&self, should_jump: bool) -> (next: (u16, u8))
        ensures
            next == self.spec_jump(should_jump),
    {
        if should_jump {
            (self.read_next_word(), 16)
        } else {
            (self.pc.wrapping_add(3), 12)
        }
    }

    /// Where a JR leads, and its cycles.
    pub fn jump_relative(&self, should_jump: bool) -> (next: (u16, u8))
        ensures
            next == self.spec_jump_relative(should_jump),
    {
        let next_step = self.pc.wrapping_add(2);
        if should_jump {
            let offset = self.read_next_byte();
            (offset_address(next_step, offset), 12)
        } else {
            (next_step, 8)
        }
    }

    /// Carries out a CALL.
    pub fn call(&mut self, should_jump: bool) -> (next: (u16, u8))
        requires
            old(self).wf(),
        ensures
            (*final(self), next.0, next.1) == old(self).spec_call(should_jump),
            final(self).wf(),
    {
        let next_pc = self.pc.wrapping_add(3);
        if should_jump {
            self.push(next_pc);
            (self.read_next_word(), 24)
        } else {
            (next_pc, 12)
        }
    }

    /// Carries out the stack part of a RET and says where it leads.
    pub fn return_(&mut self, should_jump: bool) -> (next_pc: u16)
        ensures
            should_jump ==> *final(self) == old(self).spec_pop() && next_pc
                == old(self).spec_stack_top(),
            !should_jump ==> *final(self) == *old(self) && next_pc == old(self).pc.wrapping_add(1),
    {
        if should_jump {
            self.pop()
        } else {
            self.pc.wrapping_add(1)
        }
    }

    /// The address that an indirect load or store uses.
    pub fn indirect_address(&self, indirect: Indirect) -> (address: u16)
        ensures
            address == self.spec_indirect_address(indirect),
    {
        match indirect {
            Indirect::BCIndirect => self.registers.get_bc(),
            Indirect::DEIndirect => self.registers.get_de(),
            Indirect::HLIndirectMinus => self.registers.get_hl(),
            Indirect::HLIndirectPlus => self.registers.get_hl(),
            Indirect::WordIndirect => self.read_next_word(),
            Indirect::LastByteIndirect => 0xFF00 + self.registers.c as u16,
        }
    }

    /// Steps HL after an indirect load or store that asks for it.
    pub fn step_indirect(&mut self, indirect: Indirect)
        ensures
            *final(self) == (CPU {
                registers: old(self).spec_indirect_registers(indirect),
                ..*old(self)
            }),
    {
        match indirect {
            Indirect::HLIndirectMinus => {
                let hl = self.registers.get_hl();
                self.registers.set_hl(hl.wrapping_sub(1));
            },
            Indirect::HLIndirectPlus => {
                let hl = self.registers.get_hl();
                self.registers.set_hl(hl.wrapping_add(1));
            },
            _ => {},
        }
    }

    /// Where the next instruction lies after an indirect load or store, and
    /// the cycles of that instruction.
    pub fn indirect_next(&self, indirect: Indirect) -> (next: (u16, u8))
        ensures
            next == self.spec_indirect_next(indirect),
    {
        match indirect {
            Indirect::WordIndirect => (self.pc.wrapping_add(3), 16),
            Indirect::LastByteIndirect => (self.pc.wrapping_add(2), 8),
            _ => (self.pc.wrapping_add(1), 8),
        }
    }

    /// Carries out LD.
    pub fn load(&mut self, load_type: LoadType) -> (next: (u16, u8))
        requires
            old(self).wf(),
        ensures
            (*final(self), next.0, next.1) == old(self).spec_load(load_type),
            final(self).wf(),
    {
        match load_type {
            LoadType::Byte(target, source) => {
                let source_value = self.operand_value(source.operand());
                let next = match source {
                    LoadByteSource::D8 => (self.pc.wrapping_add(2), 8),
                    LoadByteSource::HLI => (self.pc.wrapping_add(1), 8),
                    _ => (self.pc.wrapping_add(1), 4),
                };
                self.store_operand(target.operand(), source_value);
                next
            },
            LoadType::Word(target) => {
                let word = self.read_next_word();
                match target {
                    LoadWordTarget::BC => self.registers.set_bc(word),
                    LoadWordTarget::DE => self.registers.set_de(word),
                    LoadWordTarget::HL => self.registers.set_hl(word),
                    LoadWordTarget::SP => self.sp = word,
                };
                (self.pc.wrapping_add(3), 12)
            },
            LoadType::AFromIndirect(source) => {
                let address = self.indirect_address(source);
                let value = self.bus.read_byte(address);
                let next = self.indirect_next(source);
                self.step_indirect(source);
                self.registers.a = value;
                next
            },
            LoadType::IndirectFromA(target) => {
                let address = self.indirect_address(target);
                let next = self.indirect_next(target);
                let a = self.registers.a;
                self.bus.write_byte(address, a);
                self.step_indirect(target);
                next
            },
            LoadType::ByteAddressFromA => {
                let offset = self.read_next_byte() as u16;
                let a = self.registers.a;
                self.bus.write_byte(0xFF00 + offset, a);
                (self.pc.wrapping_add(2), 12)
            },
            LoadType::AFromByteAddress => {
                let offset = self.read_next_byte() as u16;
                self.registers.a = self.bus.read_byte(0xFF00 + offset);
                (self.pc.wrapping_add(2), 12)
            },
            LoadType::SPFromHL => {
                self.sp = self.registers.get_hl();
                (self.pc.wrapping_add(1), 8)
            },
            LoadType::IndirectFromSP => {
                let address = self.read_next_word();
                let (high, low) = split_word(self.sp);
                self.bus.write_byte(address, low);
                self.bus.write_byte(address.wrapping_add(1), high);
                (self.pc.wrapping_add(3), 20)
            },
            LoadType::HLFromSPN => {
                let value = self.read_next_byte();
                let (result, flags) = alu_add_sp(self.sp, value);
                self.registers.f = flags;
                self.registers.set_hl(result);
                (self.pc.wrapping_add(2), 12)
            },
        }
    }

    /// Carries out the instructions that move the program counter or use the
    /// stack: JP, JR, CALL, RET, RETI, RST, PUSH and POP.
    pub fn execute_control(&mut self, instruction: Instruction) -> (next: (u16, u8))
        requires
            old(self).wf(),
            instruction.is_control(),
        ensures
            (*final(self), next.0, next.1) == old(self).spec_execute_control(instruction),
            final(self).wf(),
    {
        match instruction {
            Instruction::JP(test) => {
                let jump_condition = self.test(test);
                self.jump(jump_condition)
            },
            Instruction::JR(test) => {
                let jump_condition = self.test(test);
                self.jump_relative(jump_condition)
            },
            Instruction::JPI => (self.registers.get_hl(), 4),
            Instruction::PUSH(target) => {
                let value = match target {
                    StackTarget::AF => self.registers.get_af(),
                    StackTarget::BC => self.registers.get_bc(),
                    StackTarget::DE => self.registers.get_de(),
                    StackTarget::HL => self.registers.get_hl(),
                };
                self.push(value);
                (self.pc.wrapping_add(1), 16)
            },
            Instruction::POP(target) => {
                let result = self.pop();
                match target {
                    StackTarget::AF => self.registers.set_af(result),
                    StackTarget::BC => self.registers.set_bc(result),
                    StackTarget::DE => self.registers.set_de(result),
                    StackTarget::HL => self.registers.set_hl(result),
                };
                (self.pc.wrapping_add(1), 12)
            },
            Instruction::CALL(test) => {
                let jump_condition = self.test(test);
                self.call(jump_condition)
            },
            Instruction::RET(test) => {
                let jump_condition = self.test(test);
                let next_pc = self.return_(jump_condition);
                let cycles = if jump_condition && test == JumpTest::Always {
                    16
                } else if jump_condition {
                    20
                } else {
                    8
                };
                (next_pc, cycles)
            },
            Instruction::RETI => {
                let next_pc = self.pop();
                self.interrupts_enabled = true;
                (next_pc, 16)
            },
            Instruction::RST(location) => {
                let return_address = self.pc.wrapping_add(1);
                self.push(return_address);
                (location.to_address(), 16)
            },
            _ => (self.pc, 0),
        }
    }

    /// Carries out ADD HL.
    pub fn add_to_hl(&mut self, target: ADDHLTarget) -> (next: (u16, u8))
        ensures
            (*final(self), next.0, next.1) == old(self).spec_add_to_hl(target),
            final(self).bus == old(self).bus,
    {
        let value = match target {
            ADDHLTarget::BC => self.registers.get_bc(),
            ADDHLTarget::DE => self.registers.get_de(),
            ADDHLTarget::HL => self.registers.get_hl(),
            ADDHLTarget::SP => self.sp,
        };
        let result = self.add_hl(value);
        self.registers.set_hl(result);
        (self.pc.wrapping_add(1), 8)
    }

    /// Carries out ADD SP.
    pub fn add_to_sp(&mut self) -> (next: (u16, u8))
        ensures
            (*final(self), next.0, next.1) == old(self).spec_add_to_sp(),
            final(self).bus == old(self).bus,
    {
        let value = self.read_next_byte();
        let (result, flags) = alu_add_sp(self.sp, value);
        self.registers.f = flags;
        self.sp = result;
        (self.pc.wrapping_add(2), 16)
    }

    /// Carries out NOP, HALT, STOP, DI and EI.
    pub fn execute_misc(&mut self, instruction: Instruction) -> (next: (u16, u8))
        ensures
            (*final(self), next.0, next.1) == old(self).spec_execute_misc(instruction),
            final(self).bus == old(self).bus,
    {
        let is_halted = match instruction {
            Instruction::HALT => true,
            Instruction::STOP => true,
            _ => self.is_halted,
        };
        let interrupts_enabled = match instruction {
            Instruction::DI => false,
            _ => self.interrupts_enabled,
        };
        let interrupt_enable_pending = match instruction {
            Instruction::DI => false,
            Instruction::EI => true,
            _ => self.interrupt_enable_pending,
        };
        self.is_halted = is_halted;
        self.interrupts_enabled = interrupts_enabled;
        self.interrupt_enable_pending = interrupt_enable_pending;
        match instruction {
            Instruction::NOP => (self.pc.wrapping_add(1), 4),
            Instruction::HALT => (self.pc.wrapping_add(1), 4),
            Instruction::STOP => (self.pc.wrapping_add(2), 4),
            Instruction::DI => (self.pc.wrapping_add(1), 4),
            Instruction::EI => (self.pc.wrapping_add(1), 4),
            _ => (self.pc, 0),
        }
    }

    /// Carries out one instruction at the program counter and returns the
    /// address of the instruction that follows and the cycles taken. The
    /// program counter itself is left for the caller to move.
    pub fn execute(&mut self, instruction: Instruction) -> (next: (u16, u8))
        requires
            old(self).wf(),
        ensures
            (*final(self), next.0, next.1) == old(self).spec_execute(instruction),
            final(self).wf(),
    {
        match instruction {
            Instruction::INC(target) => self.inc(target),
            Instruction::DEC(target) => self.dec(target),
            Instruction::ADDHL(target) => self.add_to_hl(target),
            Instruction::ADDSP => self.add_to_sp(),
            Instruction::LD(load_type) => self.load(load_type),
            Instruction::ADD(_) | Instruction::ADC(_) | Instruction::SUB(_) | Instruction::SBC(_)
            | Instruction::AND(_) | Instruction::OR(_) | Instruction::XOR(_)
            | Instruction::CP(_) => self.execute_arithmetic(instruction),
            Instruction::CCF | Instruction::SCF | Instruction::RRA | Instruction::RLA
            | Instruction::RRCA | Instruction::RLCA | Instruction::CPL
            | Instruction::DAA => self.execute_accumulator(instruction),
            Instruction::BIT(_, _) | Instruction::RES(_, _) | Instruction::SET(_, _)
            | Instruction::SRL(_) | Instruction::RR(_) | Instruction::RL(_) | Instruction::RRC(_)
            | Instruction::RLC(_) | Instruction::SRA(_) | Instruction::SLA(_)
            | Instruction::SWAP(_) => self.execute_prefixed(instruction),
            Instruction::JP(_) | Instruction::JR(_) | Instruction::JPI | Instruction::PUSH(_)
            | Instruction::POP(_) | Instruction::CALL(_) | Instruction::RET(_) | Instruction::RETI
            | Instruction::RST(_) => self.execute_control(instruction),
            Instruction::NOP | Instruction::HALT | Instruction::STOP | Instruction::DI
            | Instruction::EI => self.execute_misc(instruction),
        }
    }

    /// Whether an interrupt is both enabled and requested.
    pub open spec fn spec_interrupt_pending(self) -> bool {
        self.bus.spec_has_interrupt()
    }

    /// The interrupt requests that stay once the interrupt of the highest
    /// priority among the enabled and requested ones is taken off: VBlank
    /// comes first, then LCDStat, Timer, Serial and Joypad.
    pub open spec fn spec_requests_after_service(self) -> InterruptFlags {
        let enabled = self.bus.interrupt_enable;
        let requested = self.bus.interrupt_flag;
        if enabled.vblank && requested.vblank {
            InterruptFlags { vblank: false, ..requested }
        } else if enabled.lcdstat && requested.lcdstat {
            InterruptFlags { lcdstat: false, ..requested }
        } else if enabled.timer && requested.timer {
            InterruptFlags { timer: false, ..requested }
        } else if enabled.serial && requested.serial {
            InterruptFlags { serial: false, ..requested }
        } else {
            InterruptFlags { joypad: false, ..requested }
        }
    }

    /// The address at which the handler of the interrupt of the highest
    /// priority among the enabled and requested ones starts.
    pub open spec fn spec_interrupt_vector(self) -> u16 {
        let enabled = self.bus.interrupt_enable;
        let requested = self.bus.interrupt_flag;
        if enabled.vblank && requested.vblank {
            0x40
        } else if enabled.lcdstat && requested.lcdstat {
            0x48
        } else if enabled.timer && requested.timer {
            0x50
        } else if enabled.serial && requested.serial {
            0x58
        } else {
            0x60
        }
    }

    /// The state after an interrupt is serviced: the master enable is off,
    /// the request is taken off, the program counter is pushed, and the
    /// handler is next.
    pub open spec fn spec_service_interrupt(self) -> CPU {
        let acknowledged = CPU {
            interrupts_enabled: false,
            interrupt_enable_pending: false,
            bus: MemoryBus { interrupt_flag: self.spec_requests_after_service(), ..self.bus },
            ..self
        };
        CPU { pc: self.spec_interrupt_vector(), ..acknowledged.spec_push(self.pc) }
    }

    /// The instruction at the program counter: the byte there names it in the
    /// base table, unless that byte is the prefix 0xCB, after which the next
    /// byte names it in the other table. Nothing where the byte names no
    /// instruction.
    pub open spec fn spec_fetch(self) -> Option<Instruction> {
        let byte = self.bus.spec_read_byte(self.pc);
        if byte == 0xCB {
            spec_from_byte(self.spec_read_next_byte(), true)
        } else {
            spec_from_byte(byte, false)
        }
    }

    /// Whether the processor is about to service an interrupt.
    pub open spec fn spec_services_interrupt(self) -> bool {
        self.spec_interrupt_pending() && self.interrupts_enabled
    }

    /// Whether the processor is about to sleep through a step.
    pub open spec fn spec_sleeps(self) -> bool {
        self.is_halted && !self.spec_interrupt_pending()
    }

    /// Whether a step can be made: the processor services an interrupt or
    /// sleeps, or the byte at the program counter names an instruction.
    pub open spec fn spec_can_step(self) -> bool {
        self.spec_services_interrupt() || self.spec_sleeps() || self.spec_fetch() is Some
    }

    /// The state in which an instruction is carried out: awake, and with the
    /// interrupts switched on if an EI came just before.
    pub open spec fn spec_ready(self) -> CPU {
        CPU {
            is_halted: false,
            interrupts_enabled: self.interrupts_enabled || self.interrupt_enable_pending,
            interrupt_enable_pending: false,
            ..self
        }
    }

    /// The processor's own part of a step, before the cycles are handed on,
    /// and the cycles that the step takes.
    ///
    /// A pending interrupt wakes the processor. With the master enable on it
    /// is serviced, in 20 cycles. A processor that stays asleep lets 4 cycles
    /// pass. Otherwise the instruction at the program counter is carried out
    /// and the program counter moves to the instruction that follows.
    pub open spec fn spec_before_forwarding(self) -> (CPU, u8) {
        if self.spec_services_interrupt() {
            ((CPU { is_halted: false, ..self }).spec_service_interrupt(), 20)
        } else if self.spec_sleeps() {
            (self, 4)
        } else {
            let executed = self.spec_ready().spec_execute(self.spec_fetch()->0);
            (CPU { pc: executed.1, ..executed.0 }, executed.2)
        }
    }

    /// The machine after one step, and the cycles that the step took: the
    /// processor does its part, and the bus then hands exactly those cycles
    /// to the timer and to the picture processing unit.
    #[verifier::opaque]
    pub open spec fn spec_step(self) -> (CPU, u8) {
        let before = self.spec_before_forwarding();
        (CPU { bus: before.0.bus.spec_step(before.1), ..before.0 }, before.1)
    }

    /// What holds of a machine that was just made from a boot ROM and a
    /// cartridge.
    pub open spec fn is_initial(self, boot_rom: Option<Seq<u8>>, game_rom: Seq<u8>) -> bool {
        &&& self.registers == (Registers {
            a: 0,
            b: 0,
            c: 0,
            d: 0,
            e: 0,
            f: FlagsRegister { zero: false, subtract: false, half_carry: false, carry: false },
            h: 0,
            l: 0,
        })
        &&& self.pc == 0
        &&& self.sp == 0
        &&& self.bus.is_initial(boot_rom, game_rom)
        &&& !self.is_halted
        &&& !self.interrupts_enabled
        &&& !self.interrupt_enable_pending
    }

    /// Makes a machine with the given cartridge, and with the boot ROM
    /// mounted if one is given. The boot ROM has exactly 256 bytes and the
    /// cartridge at least 32 KiB.
    pub fn new(boot_rom: Option<Vec<u8>>, game_rom: Vec<u8>) -> (cpu: CPU)
        requires
            boot_rom matches Some(buffer) ==> buffer.len() == 0x100,
            game_rom.len() >= 0x8000,
        ensures
            cpu.is_initial(
                match boot_rom {
                    Some(buffer) => Some(buffer@),
                    None => None,
                },
                game_rom@,
            ),
            cpu.wf(),
    {
        CPU {
            registers: Registers::new(),
            pc: 0x0,
            sp: 0x00,
            bus: MemoryBus::new(boot_rom, game_rom),
            is_halted: false,
            interrupts_enabled: false,
            interrupt_enable_pending: false,
        }
    }

    /// Decodes the instruction at the program counter.
    pub fn fetch(&self) -> (instruction: Option<Instruction>)
        ensures
            instruction == self.spec_fetch(),
    {
        let instruction_byte = self.bus.read_byte(self.pc);
        if instruction_byte == 0xCB {
            Instruction::from_byte(self.read_next_byte(), true)
        } else {
            Instruction::from_byte(instruction_byte, false)
        }
    }

    /// Whether a step can be made.
    pub fn can_step(&self) -> (possible: bool)
        ensures
            possible == self.spec_can_step(),
    {
        let pending = self.bus.has_interrupt();
        (pending && self.interrupts_enabled) || (self.is_halted && !pending)
            || self.fetch().is_some()
    }

    /// Services the interrupt of the highest priority among those that are
    /// enabled and requested.
    pub fn service_interrupt(&mut self)
        requires
            old(self).wf(),
        ensures
            *final(self) == old(self).spec_service_interrupt(),
            final(self).wf(),
    {
        let enabled = self.bus.interrupt_enable;
        let requested = self.bus.interrupt_flag;
        let vblank = enabled.vblank && requested.vblank;
        let lcdstat = !vblank && enabled.lcdstat && requested.lcdstat;
        let timer = !vblank && !lcdstat && enabled.timer && requested.timer;
        let serial = !vblank && !lcdstat && !timer && enabled.serial && requested.serial;
        let joypad = !vblank && !lcdstat && !timer && !serial;
        let vector: u16 = if vblank {
            0x40
        } else if lcdstat {
            0x48
        } else if timer {
            0x50
        } else if serial {
            0x58
        } else {
            0x60
        };
        self.bus.interrupt_flag = InterruptFlags {
            vblank: requested.vblank && !vblank,
            lcdstat: requested.lcdstat && !lcdstat,
            timer: requested.timer && !timer,
            serial: requested.serial && !serial,
            joypad: requested.joypad && !joypad,
        };
        self.interrupts_enabled = false;
        self.interrupt_enable_pending = false;
        let return_address = self.pc;
        self.push(return_address);
        self.pc = vector;
    }

    /// Carries out the instruction at the program counter and moves the
    /// program counter on.
    pub fn run_instruction(&mut self) -> (cycles: u8)
        requires
            old(self).wf(),
            old(self).spec_fetch() is Some,
        ensures
            cycles == old(self).spec_ready().spec_execute(old(self).spec_fetch()->0).2,
            *final(self) == (CPU {
                pc: old(self).spec_ready().spec_execute(old(self).spec_fetch()->0).1,
                ..old(self).spec_ready().spec_execute(old(self).spec_fetch()->0).0
            }),
            final(self).wf(),
    {
        let instruction = self.fetch().unwrap();
        let interrupts_enabled = self.interrupts_enabled || self.interrupt_enable_pending;
        self.is_halted = false;
        self.interrupts_enabled = interrupts_enabled;
        self.interrupt_enable_pending = false;
        assert(*self == old(self).spec_ready());
        let (next_pc, cycles) = self.execute(instruction);
        self.pc = next_pc;
        cycles
    }

    /// Makes one step: services an interrupt, sleeps, or carries out one
    /// instruction, and then lets the rest of the machine catch up with the
    /// cycles that this took. Returns those cycles.
    pub fn step(&mut self) -> (cycles: u8)
        requires
            old(self).wf(),
            old(self).spec_can_step(),
        ensures
            (*final(self), cycles) == old(self).spec_step(),
            final(self).wf(),
    {
        reveal(CPU::spec_step);
        let pending = self.bus.has_interrupt();
        let cycles = if pending && self.interrupts_enabled {
            self.is_halted = false;
            self.service_interrupt();
            20
        } else if self.is_halted && !pending {
            4
        } else {
            self.run_instruction()
        };
        assert((*self, cycles) == old(self).spec_before_forwarding());
        self.bus.step(cycles);
        cycles
    }

    /// Makes one step where one can be made, and otherwise leaves the machine
    /// as it is and returns nothing.
    pub fn try_step(&mut self) -> (cycles: Option<u8>)
        requires
            old(self).wf(),
        ensures
            old(self).spec_can_step() ==> cycles == Some(old(self).spec_step().1) && *final(self)
                == old(self).spec_step().0,
            !old(self).spec_can_step() ==> cycles is None && *final(self) == *old(self),
            final(self).wf(),
    {
        if self.can_step() {
            Some(self.step())
        } else {
            None
        }
    }

    /// The machine after it has run from a count of `elapsed` cycles until
    /// the count is above `cycles_to_run` or no step can be made, and the
    /// count of cycles at that point.
    pub open spec fn spec_run(self, elapsed: nat, cycles_to_run: nat) -> (CPU, nat)
        decreases
                (if elapsed <= cycles_to_run {
                    cycles_to_run + 1 - elapsed
                } else {
                    0
                }),
    {
        let cycles = self.spec_step().1 as nat;
        if elapsed > cycles_to_run || !self.spec_can_step() || cycles == 0 {
            (self, elapsed)
        } else {
            self.spec_step().0.spec_run(elapsed + cycles, cycles_to_run)
        }
    }

    /// Makes steps until more than `cycles_to_run` cycles have gone by, or
    /// until no step can be made, and returns the cycles that have gone by. A
    /// result of at most `cycles_to_run` says that the byte at the program
    /// counter names no instruction.
    pub fn run(&mut self, cycles_to_run: usize) -> (cycles_elapsed: usize)
        requires
            old(self).wf(),
            cycles_to_run <= usize::MAX - 0x100,
        ensures
            (*final(self), cycles_elapsed as nat) == old(self).spec_run(0, cycles_to_run as nat),
            cycles_elapsed <= cycles_to_run ==> !final(self).spec_can_step(),
            cycles_elapsed <= cycles_to_run + 24,
            final(self).wf(),
    {
        let ghost start = *self;
        let mut cycles_elapsed: usize = 0;
        while cycles_elapsed <= cycles_to_run
            invariant
                self.wf(),
                cycles_to_run <= usize::MAX - 0x100,
                cycles_elapsed <= cycles_to_run + 24,
                start == *old(self),
                start.spec_run(0, cycles_to_run as nat) == self.spec_run(
                    cycles_elapsed as nat,
                    cycles_to_run as nat,
                ),
            decreases cycles_to_run + 25 - cycles_elapsed,
        {
            let ghost before = *self;
            let step = self.try_step();
            proof {
                if before.spec_can_step() {
                    lemma_step_cycles(before);
                }
            }
            match step {
                Some(cycles) => {
                    cycles_elapsed += cycles as usize;
                },
                None => {
                    assert(self.spec_run(cycles_elapsed as nat, cycles_to_run as nat) == (
                        *self,
                        cycles_elapsed as nat,
                    ));
                    return cycles_elapsed;
                },
            }
        }
        cycles_elapsed
    }

    /// Writes a register or a register pair. A single register takes the low
    /// byte of `value`.
    pub fn set_register(&mut self, register: Register, value: u16)
        ensures
            *final(self) == (CPU {
                registers: old(self).registers.spec_write(register, value),
                ..*old(self)
            }),
    {
        self.registers.set_register(register, value);
    }

    /// Takes over the buttons that the host reports.
    pub fn set_joypad(&mut self, joypad: Joypad)
        ensures
            *final(self) == (CPU { bus: old(self).bus.spec_set_joypad(joypad), ..*old(self) }),
            final(self).wf() == old(self).wf(),
    {
        self.bus.set_joypad(joypad);
    }

    /// A picture of the whole tile cache.
    pub fn get_tile_set_buffer(&self, outline_tiles: bool) -> (data: Vec<u8>)
        ensures
            data.len() == 98304,
            forall|index: int|
                0 <= index < 98304 ==> (#[trigger] data[index]) == self.bus.gpu.spec_tile_set_byte(
                    outline_tiles,
                    index,
                ),
    {
        self.bus.gpu.tile_set_as_buffer(outline_tiles)
    }

    /// A picture of the whole background that the first tile map describes.
    pub fn get_background_buffer(&self, outline_tiles: bool, show_viewport: bool) -> (data: Vec<u8>)
        requires
            self.bus.gpu.background_tile_map == TileMap::X9800,
        ensures
            data.len() == 262144,
            forall|index: int|
                0 <= index < 262144 ==> (#[trigger] data[index])
                    == self.bus.gpu.spec_background_byte(outline_tiles, show_viewport, index),
    {
        self.bus.gpu.background_as_buffer(outline_tiles, show_viewport)
    }

    /// The tile that the first tile map shows at a pixel of the background,
    /// as 64 opaque gray pixels of four bytes each, row by row.
    pub fn get_tile_at(&self, x: usize, y: usize) -> (data: Vec<u8>)
        requires
            y / 8 * 32 + x / 8 < 0x400,
        ensures
            data.len() == 256,
            forall|index: int|
                0 <= index < 256 ==> (#[trigger] data[index]) == (if index % 4 == 3 {
                    255u8
                } else {
                    self.bus.gpu.spec_tile_shade(
                        self.bus.gpu.vram[0x1800 + y as int / 8 * 32 + x as int / 8] as int,
                        index / 32,
                        index / 4 % 8,
                    )
                }),
    {
        let tile = self.bus.gpu.get_tile_buffer_at(x, y);
        let mut data: Vec<u8> = Vec::with_capacity(8 * 8 * 4);
        let ghost tile_id = self.bus.gpu.vram[0x1800 + y as int / 8 * 32 + x as int / 8] as int;
        let mut pixel: usize = 0;
        while pixel < 64
            invariant
                pixel <= 64,
                data.len() == pixel * 4,
                forall|row: int, column: int|
                    0 <= row < 8 && 0 <= column < 8 ==> (#[trigger] tile[row][column])
                        == self.bus.gpu.spec_tile_shade(tile_id, row, column),
                forall|index: int|
                    0 <= index < pixel * 4 ==> (#[trigger] data[index]) == (if index % 4 == 3 {
                        255u8
                    } else {
                        self.bus.gpu.spec_tile_shade(tile_id, index / 32, index / 4 % 8)
                    }),
            decreases 64 - pixel,
        {
            let shade = tile[pixel / 8][pixel % 8];
            push_pixel(&mut data, shade, shade, shade);
            proof {
                assert forall|index: int| pixel * 4 <= index < pixel * 4 + 4 implies (
                #[trigger] data[index]) == (if index % 4 == 3 {
                    255u8
                } else {
                    self.bus.gpu.spec_tile_shade(tile_id, index / 32, index / 4 % 8)
                }) by {
                    assert(index / 4 == pixel);
                    assert(index / 32 == pixel / 8);
                    assert(index % 4 == index - pixel * 4);
                }
            }
            pixel += 1;
        }
        data
    }

    /// A copy of the frame: 160 by 144 pixels of four bytes each.
    pub fn canvas_buffer(&self) -> (buffer: Vec<u8>)
        ensures
            buffer@ == self.bus.gpu.canvas_buffer@,
    {
        let mut buffer: Vec<u8> = Vec::with_capacity(92160);
        let mut index: usize = 0;
        while index < 92160
            invariant
                index <= 92160,
                buffer.len() == index,
                forall|i: int| 0 <= i < index ==> (#[trigger] buffer[i]) == self.bus.gpu.canvas_buffer[i],
            decreases 92160 - index,
        {
            buffer.push(self.bus.gpu.canvas_buffer[index]);
            index += 1;
        }
        assert(buffer@ =~= self.bus.gpu.canvas_buffer@);
        buffer
    }

    /// The frame as one word for each pixel, as a presenter takes it.
    pub fn frame_as_words(&self) -> (words: Vec<u32>)
        ensures
            words.len() == 23040,
            forall|pixel: int|
                0 <= pixel < 23040 ==> (#[trigger] words[pixel]) == spec_pack_pixel(
                    self.bus.gpu.canvas_buffer[pixel * 4],
                    self.bus.gpu.canvas_buffer[pixel * 4 + 1],
                    self.bus.gpu.canvas_buffer[pixel * 4 + 2],
                    self.bus.gpu.canvas_buffer[pixel * 4 + 3],
                ),
    {
        self.bus.gpu.frame_as_words()
    }

    /// The bytes at the addresses from `start` up to `end`, `end` left out.
    pub fn memory_slice(&self, start: u16, end: u16) -> (bytes: Vec<u8>)
        requires
            start <= end,
        ensures
            bytes.len() == end - start,
            forall|i: int|
                0 <= i < end - start ==> (#[trigger] bytes[i]) == self.bus.spec_read_byte(
                    (start + i) as u16,
                ),
    {
        self.bus.slice(start, end)
    }
}

/// Whether the two bytes below the stack pointer lie in memory that keeps
/// what is written to it, out of reach of a mounted boot ROM.
pub open spec fn stack_is_plain(cpu: CPU) -> bool {
    let first = cpu.sp.wrapping_sub(1);
    let second = cpu.sp.wrapping_sub(2);
    &&& is_plain_memory(first)
    &&& is_plain_memory(second)
    &&& first < 0x100 || second < 0x100 ==> cpu.bus.boot_rom is None
}

/// A word that is pushed is the word on top of the stack, and popping it
/// brings the stack pointer back to where it was.
pub proof fn lemma_push_then_pop(cpu: CPU, value: u16)
    requires
        stack_is_plain(cpu),
    ensures
        cpu.spec_push(value).spec_stack_top() == value,
        cpu.spec_push(value).spec_pop().sp == cpu.sp,
{
    let first = cpu.sp.wrapping_sub(1);
    let second = cpu.sp.wrapping_sub(2);
    let between = cpu.bus.spec_write_byte(first, high_byte(value));
    let pushed = cpu.spec_push(value);
    assert(pushed.sp == second);
    assert(second.wrapping_add(1) == first);
    assert(second.wrapping_add(2) == cpu.sp);
    lemma_write_then_read(cpu.bus, first, high_byte(value));
    lemma_write_keeps_others(cpu.bus, first, high_byte(value), second);
    lemma_write_then_read(between, second, low_byte(value));
    lemma_write_keeps_others(between, second, low_byte(value), first);
    assert(word_of(high_byte(value), low_byte(value)) == value);
}

/// AF pushed and popped again leaves the registers as they were: the low
/// nibble that a pop into AF drops is zero in every word that AF gives.
pub proof fn lemma_push_then_pop_af(cpu: CPU)
    requires
        stack_is_plain(cpu),
    ensures
        cpu.registers.with_af(cpu.spec_push(cpu.registers.af()).spec_stack_top())
            == cpu.registers,
{
    lemma_push_then_pop(cpu, cpu.registers.af());
    lemma_af_write_read(cpu.registers, 0);
}

/// A word popped into AF reads back without its low nibble.
pub proof fn lemma_pop_af_masks(cpu: CPU, value: u16)
    requires
        stack_is_plain(cpu),
    ensures
        cpu.registers.with_af(cpu.spec_push(value).spec_stack_top()).af() == value - value % 16,
{
    lemma_push_then_pop(cpu, value);
    lemma_af_write_read(cpu.registers, value);
}

/// Whatever a step does, the cycles that it returns are the cycles that the
/// timer and the picture processing unit each advance by.
pub proof fn lemma_step_hands_on_its_cycles(cpu: CPU)
    ensures
        cpu.spec_step().1 == cpu.spec_before_forwarding().1,
        cpu.spec_step().0.bus.timer == cpu.spec_before_forwarding().0.bus.timer.spec_step(
            cpu.spec_step().1,
        ).0,
        cpu.spec_step().0.bus.gpu == cpu.spec_before_forwarding().0.bus.gpu.spec_step(
            cpu.spec_step().1,
        ).0,
        cpu.spec_step().0.bus.timer.divider_counter == (
        cpu.spec_before_forwarding().0.bus.timer.divider_counter + cpu.spec_step().1) % 0x10000,
{
    reveal(CPU::spec_step);
    lemma_step_forwards_cycles(cpu.spec_before_forwarding().0.bus, cpu.spec_before_forwarding().1);
}

/// An interrupt that is enabled and requested while the master enable is on
/// is serviced by the next step: the master enable goes off, the program
/// counter is pushed, the handler's address becomes the program counter, and
/// the step takes 20 cycles.
pub proof fn lemma_step_services_interrupt(cpu: CPU)
    requires
        cpu.spec_interrupt_pending(),
        cpu.interrupts_enabled,
    ensures
        cpu.spec_step().1 == 20,
        cpu.spec_step().0.pc == cpu.spec_interrupt_vector(),
        !cpu.spec_step().0.interrupts_enabled,
        !cpu.spec_step().0.is_halted,
        cpu.spec_step().0.sp == cpu.sp.wrapping_sub(2),
        stack_is_plain(cpu) ==> cpu.spec_before_forwarding().0.spec_stack_top() == cpu.pc,
{
    reveal(CPU::spec_step);
    let awake = CPU { is_halted: false, ..cpu };
    let acknowledged = CPU {
        interrupts_enabled: false,
        interrupt_enable_pending: false,
        bus: MemoryBus { interrupt_flag: awake.spec_requests_after_service(), ..awake.bus },
        ..awake
    };
    if stack_is_plain(cpu) {
        lemma_push_then_pop(acknowledged, cpu.pc);
    }
}

/// EI takes effect one instruction late: the step that carries out EI leaves
/// the master enable as it was, and the step after that switches it on
/// before it carries out its instruction, so that an interrupt can be
/// serviced from the step after that one on.
pub proof fn lemma_enable_is_delayed(cpu: CPU)
    requires
        cpu.spec_fetch() == Some(Instruction::EI),
        !cpu.spec_services_interrupt(),
        !cpu.spec_sleeps(),
        !cpu.interrupt_enable_pending,
    ensures
        cpu.spec_step().0.interrupts_enabled == cpu.interrupts_enabled,
        cpu.spec_step().0.interrupt_enable_pending,
        cpu.spec_step().0.spec_ready().interrupts_enabled,
{
    reveal(CPU::spec_step);
}

/// An arithmetic instruction on A takes 4 or 8 cycles.
proof fn lemma_arithmetic_cycles(cpu: CPU, instruction: Instruction)
    requires
        instruction.is_arithmetic(),
    ensures
        4 <= cpu.spec_execute_arithmetic(instruction).2 <= 8,
{
}

/// An instruction behind the prefix takes 8 or 16 cycles.
proof fn lemma_prefixed_cycles(cpu: CPU, instruction: Instruction)
    requires
        instruction.is_prefixed(),
    ensures
        8 <= cpu.spec_execute_prefixed(instruction).2 <= 16,
{
}

/// A jump, call, return, push or pop takes between 4 and 24 cycles.
proof fn lemma_control_cycles(cpu: CPU, instruction: Instruction)
    requires
        instruction.is_control(),
    ensures
        4 <= cpu.spec_execute_control(instruction).2 <= 24,
{
}

/// A load takes between 4 and 20 cycles.
proof fn lemma_load_cycles(cpu: CPU, load_type: LoadType)
    ensures
        4 <= cpu.spec_load(load_type).2 <= 20,
{
}

/// Every instruction takes at least 4 and at most 24 cycles.
pub proof fn lemma_execute_cycles(cpu: CPU, instruction: Instruction)
    ensures
        4 <= cpu.spec_execute(instruction).2 <= 24,
{
    match instruction {
        Instruction::LD(load_type) => {
            lemma_load_cycles(cpu, load_type);
        },
        Instruction::INC(target) => {
            assert(4 <= cpu.spec_inc(target).2 <= 12);
        },
        Instruction::DEC(target) => {
            assert(4 <= cpu.spec_dec(target).2 <= 12);
        },
        Instruction::ADDHL(target) => {},
        Instruction::ADDSP => {},
        _ => {
            if instruction.is_arithmetic() {
                lemma_arithmetic_cycles(cpu, instruction);
            } else if instruction.is_accumulator() {
                assert(cpu.spec_execute_accumulator(instruction).2 == 4);
            } else if instruction.is_prefixed() {
                lemma_prefixed_cycles(cpu, instruction);
            } else if instruction.is_control() {
                lemma_control_cycles(cpu, instruction);
            } else {
                assert(cpu.spec_execute_misc(instruction).2 == 4);
            }
        },
    }
}

/// Every step takes at least 4 and at most 24 cycles.
pub proof fn lemma_step_cycles(cpu: CPU)
    requires
        cpu.spec_can_step(),
    ensures
        4 <= cpu.spec_step().1 <= 24,
{
    reveal(CPU::spec_step);
    if !cpu.spec_services_interrupt() && !cpu.spec_sleeps() {
        lemma_execute_cycles(cpu.spec_ready(), cpu.spec_fetch()->0);
    }
}

} // verus!
