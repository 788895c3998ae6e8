//! The register file: eight one-byte registers and their four paired 16-bit
//! views AF, BC, DE and HL, each with the first register as the high byte.

use super::flags_register::{
    lemma_flags_byte_round_trip, lemma_flags_round_trip, FlagsRegister, IntoFlags,
};
use crate::utils::lemma_word_halves;
use vstd::prelude::*;

verus! {

/// The eight one-byte registers.
#[derive(Copy, Clone, Debug, PartialEq, Eq, Structural)]
pub struct Registers {
    pub a: u8,
    pub b: u8,
    pub c: u8,
    pub d: u8,
    pub e: u8,
    pub f: FlagsRegister,
    pub h: u8,
    pub l: u8,
}

/// The name of a register or of a register pair.
#[derive(Copy, Clone, Debug, PartialEq, Eq, Structural)]
pub enum Register {
    A,
    B,
    C,
    D,
    E,
    F,
    H,
    L,
    AF,
    BC,
    DE,
    HL,
}

impl Register {
    /// Whether the name stands for a pair of registers.
    pub open spec fn is_pair(self) -> bool {
        self is AF || self is BC || self is DE || self is HL
    }
}

/// The word whose high byte is `high` and whose low byte is `low`.
pub open spec fn word_of(high: u8, low: u8) -> u16 {
    (high as int * 256 + low as int) as u16
}

/// The high byte of a word.
pub open spec fn high_byte(word: u16) -> u8 {
    (word / 256) as u8
}

/// The low byte of a word.
pub open spec fn low_byte(word: u16) -> u8 {
    (word % 256) as u8
}

/// Joins two bytes into a word, high byte first.
pub fn join_bytes(high: u8, low: u8) -> (word: u16)
    ensures
        word == word_of(high, low),
        high_byte(word) == high,
        low_byte(word) == low,
{
    proof {
        lemma_word_halves(0, high, low);
    }
    ((high as u16) << 8) | (low as u16)
}

/// Splits a word into its high and low bytes.
pub fn split_word(word: u16) -> (bytes: (u8, u8))
    ensures
        bytes.0 == high_byte(word),
        bytes.1 == low_byte(word),
        word_of(bytes.0, bytes.1) == word,
{
    proof {
        lemma_word_halves(word, 0, 0);
    }
    (((word & 0xFF00) >> 8) as u8, (word & 0xFF) as u8)
}

impl Registers {
    /// The pair AF as a word; the low nibble is always zero.
    pub open spec fn af(self) -> u16 {
        word_of(self.a, self.f.spec_to_byte())
    }

    /// The pair BC as a word.
    pub open spec fn bc(self) -> u16 {
        word_of(self.b, self.c)
    }

    /// The pair DE as a word.
    pub open spec fn de(self) -> u16 {
        word_of(self.d, self.e)
    }

    /// The pair HL as a word.
    pub open spec fn hl(self) -> u16 {
        word_of(self.h, self.l)
    }

    /// These registers with AF replaced; the low nibble of the word is dropped.
    pub open spec fn with_af(self, value: u16) -> Registers {
        Registers { a: high_byte(value), f: FlagsRegister::spec_from_byte(low_byte(value)), ..self }
    }

    /// These registers with BC replaced.
    pub open spec fn with_bc(self, value: u16) -> Registers {
        Registers { b: high_byte(value), c: low_byte(value), ..self }
    }

    /// These registers with DE replaced.
    pub open spec fn with_de(self, value: u16) -> Registers {
        Registers { d: high_byte(value), e: low_byte(value), ..self }
    }

    /// These registers with HL replaced.
    pub open spec fn with_hl(self, value: u16) -> Registers {
        Registers { h: high_byte(value), l: low_byte(value), ..self }
    }

    /// What reading the named register gives: a byte for a single register,
    /// a word for a pair.
    pub open spec fn spec_read(self, register: Register) -> u16 {
        match register {
            Register::A => self.a as u16,
            Register::B => self.b as u16,
            Register::C => self.c as u16,
            Register::D => self.d as u16,
            Register::E => self.e as u16,
            Register::F => self.f.spec_to_byte() as u16,
            Register::H => self.h as u16,
            Register::L => self.l as u16,
            Register::AF => self.af(),
            Register::BC => self.bc(),
            Register::DE => self.de(),
            Register::HL => self.hl(),
        }
    }

    /// These registers after `value` is written to the named register. A single
    /// register takes the low byte of `value`.
    pub open spec fn spec_write(self, register: Register, value: u16) -> Registers {
        match register {
            Register::A => Registers { a: low_byte(value), ..self },
            Register::B => Registers { b: low_byte(value), ..self },
            Register::C => Registers { c: low_byte(value), ..self },
            Register::D => Registers { d: low_byte(value), ..self },
            Register::E => Registers { e: low_byte(value), ..self },
            Register::F => Registers {
                f: FlagsRegister::spec_from_byte(low_byte(value)),
                ..self
            },
            Register::H => Registers { h: low_byte(value), ..self },
            Register::L => Registers { l: low_byte(value), ..self },
            Register::AF => self.with_af(value),
            Register::BC => self.with_bc(value),
            Register::DE => self.with_de(value),
            Register::HL => self.with_hl(value),
        }
    }

    /// The byte in the named single register; for F, the flags packed into a
    /// byte. A pair has no such byte and gives 0.
    pub open spec fn spec_read8(self, register: Register) -> u8 {
        match register {
            Register::A => self.a,
            Register::B => self.b,
            Register::C => self.c,
            Register::D => self.d,
            Register::E => self.e,
            Register::F => self.f.spec_to_byte(),
            Register::H => self.h,
            Register::L => self.l,
            _ => 0,
        }
    }

    /// These registers with `value` in the named single register; a pair is
    /// left alone.
    pub open spec fn spec_write8(self, register: Register, value: u8) -> Registers {
        match register {
            Register::A => Registers { a: value, ..self },
            Register::B => Registers { b: value, ..self },
            Register::C => Registers { c: value, ..self },
            Register::D => Registers { d: value, ..self },
            Register::E => Registers { e: value, ..self },
            Register::F => Registers { f: FlagsRegister::spec_from_byte(value), ..self },
            Register::H => Registers { h: value, ..self },
            Register::L => Registers { l: value, ..self },
            _ => self,
        }
    }

    /// All registers zero and all flags clear.
    pub fn new() -> (registers: Registers)
        ensures
            registers == (Registers {
                a: 0,
                b: 0,
                c: 0,
                d: 0,
                e: 0,
                f: FlagsRegister { zero: false, subtract: false, half_carry: false, carry: false },
                h: 0,
                l: 0,
            }),
    {
        Registers { a: 0, b: 0, c: 0, d: 0, e: 0, f: FlagsRegister::new(), h: 0, l: 0 }
    }

    /// Reads A.
    pub fn get_a(&self) -> (value: u8)
        ensures
            value == self.a,
    {
        self.a
    }

    /// Writes A.
    pub fn set_a(&mut self, value: u8)
        ensures
            *final(self) == (Registers { a: value, ..*old(self) }),
    {
        self.a = value;
    }

    /// Reads B.
    pub fn get_b(&self) -> (value: u8)
        ensures
            value == self.b,
    {
        self.b
    }

    /// Writes B.
    pub fn set_b(&mut self, value: u8)
        ensures
            *final(self) == (Registers { b: value, ..*old(self) }),
    {
        self.b = value;
    }

    /// Reads C.
    pub fn get_c(&self) -> (value: u8)
        ensures
            value == self.c,
    {
        self.c
    }

    /// Writes C.
    pub fn set_c(&mut self, value: u8)
        ensures
            *final(self) == (Registers { c: value, ..*old(self) }),
    {
        self.c = value;
    }

    /// Reads D.
    pub fn get_d(&self) -> (value: u8)
        ensures
            value == self.d,
    {
        self.d
    }

    /// Writes D.
    pub fn set_d(&mut self, value: u8)
        ensures
            *final(self) == (Registers { d: value, ..*old(self) }),
    {
        self.d = value;
    }

    /// Reads E.
    pub fn get_e(&self) -> (value: u8)
        ensures
            value == self.e,
    {
        self.e
    }

    /// Writes E.
    pub fn set_e(&mut self, value: u8)
        ensures
            *final(self) == (Registers { e: value, ..*old(self) }),
    {
        self.e = value;
    }

    /// Reads the flags.
    pub fn get_f(&self) -> (value: FlagsRegister)
        ensures
            value == self.f,
    {
        self.f
    }

    /// Replaces the flags. A byte is unpacked: its high nibble gives the four
    /// flags and its low nibble is dropped.
    pub fn set_f<T: IntoFlags>(&mut self, value: T)
        ensures
            *final(self) == (Registers { f: value.spec_into_flags(), ..*old(self) }),
    {
        self.f = value.into_flags();
    }

    /// Reads H.
    pub fn get_h(&self) -> (value: u8)
        ensures
            value == self.h,
    {
        self.h
    }

    /// Writes H.
    pub fn set_h(&mut self, value: u8)
        ensures
            *final(self) == (Registers { h: value, ..*old(self) }),
    {
        self.h = value;
    }

    /// Reads L.
    pub fn get_l(&self) -> (value: u8)
        ensures
            value == self.l,
    {
        self.l
    }

    /// Writes L.
    pub fn set_l(&mut self, value: u8)
        ensures
            *final(self) == (Registers { l: value, ..*old(self) }),
    {
        self.l = value;
    }

    /// Reads the pair AF as a word.
    pub fn get_af(&self) -> (value: u16)
        ensures
            value == self.af(),
            high_byte(value) == self.a,
            low_byte(value) == self.f.spec_to_byte(),
    {
        join_bytes(self.a, self.f.to_byte())
    }

    /// Writes a word to the pair AF; the low nibble of the word is dropped.
    pub fn set_af(&mut self, value: u16)
        ensures
            *final(self) == old(self).with_af(value),
    {
        let (high, low) = split_word(value);
        self.a = high;
        self.f = FlagsRegister::from_byte(low);
    }

    /// Reads the pair BC as a word.
    pub fn get_bc(&self) -> (value: u16)
        ensures
            value == self.bc(),
            high_byte(value) == self.b,
            low_byte(value) == self.c,
    {
        join_bytes(self.b, self.c)
    }

    /// Writes a word to the pair BC.
    pub fn set_bc(&mut self, value: u16)
        ensures
            *final(self) == old(self).with_bc(value),
            final(self).bc() == value,
    {
        let (high, low) = split_word(value);
        self.b = high;
        self.c = low;
    }

    /// Reads the pair DE as a word.
    pub fn get_de(&self) -> (value: u16)
        ensures
            value == self.de(),
            high_byte(value) == self.d,
            low_byte(value) == self.e,
    {
        join_bytes(self.d, self.e)
    }

    /// Writes a word to the pair DE.
    pub fn set_de(&mut self, value: u16)
        ensures
            *final(self) == old(self).with_de(value),
            final(self).de() == value,
    {
        let (high, low) = split_word(value);
        self.d = high;
        self.e = low;
    }

    /// Reads the pair HL as a word.
    pub fn get_hl(&self) -> (value: u16)
        ensures
            value == self.hl(),
            high_byte(value) == self.h,
            low_byte(value) == self.l,
    {
        join_bytes(self.h, self.l)
    }

    /// Writes a word to the pair HL.
    pub fn set_hl(&mut self, value: u16)
        ensures
            *final(self) == old(self).with_hl(value),
            final(self).hl() == value,
    {
        let (high, low) = split_word(value);
        self.h = high;
        self.l = low;
    }

    /// Reads the named single register.
    pub fn get8(&self, register: Register) -> (value: u8)
        ensures
            value == self.spec_read8(register),
    {
        match register {
            Register::A => self.a,
            Register::B => self.b,
            Register::C => self.c,
            Register::D => self.d,
            Register::E => self.e,
            Register::F => self.f.to_byte(),
            Register::H => self.h,
            Register::L => self.l,
            _ => 0,
        }
    }

    /// Writes the named single register.
    pub fn set8(&mut self, register: Register, value: u8)
        ensures
            *final(self) == old(self).spec_write8(register, value),
    {
        match register {
            Register::A => self.a = value,
            Register::B => self.b = value,
            Register::C => self.c = value,
            Register::D => self.d = value,
            Register::E => self.e = value,
            Register::F => self.f = FlagsRegister::from_byte(value),
            Register::H => self.h = value,
            Register::L => self.l = value,
            _ => {},
        }
    }

    /// Reads the named register: a byte for a single register, a word for a
    /// pair.
    pub fn get_register(&self, register: Register) -> (value: u16)
        ensures
            value == self.spec_read(register),
    {
        match register {
            Register::A => self.a as u16,
            Register::B => self.b as u16,
            Register::C => self.c as u16,
            Register::D => self.d as u16,
            Register::E => self.e as u16,
            Register::F => self.f.to_byte() as u16,
            Register::H => self.h as u16,
            Register::L => self.l as u16,
            Register::AF => self.get_af(),
            Register::BC => self.get_bc(),
            Register::DE => self.get_de(),
            Register::HL => self.get_hl(),
        }
    }

    /// Writes the named register. A single register takes the low byte of
    /// `value`; F keeps only the high nibble of that byte.
    pub fn set_register(&mut self, register: Register, value: u16)
        ensures
            *final(self) == old(self).spec_write(register, value),
    {
        let (_, low) = split_word(value);
        match register {
            Register::A => self.a = low,
            Register::B => self.b = low,
            Register::C => self.c = low,
            Register::D => self.d = low,
            Register::E => self.e = low,
            Register::F => self.f = FlagsRegister::from_byte(low),
            Register::H => self.h = low,
            Register::L => self.l = low,
            Register::AF => self.set_af(value),
            Register::BC => self.set_bc(value),
            Register::DE => self.set_de(value),
            Register::HL => self.set_hl(value),
        }
    }
}

/// A byte written to a single register is the byte read back from it. For F
/// this holds of the bytes whose low nibble is zero, the only ones F can hold.
pub proof fn lemma_register_write_read(registers: Registers, register: Register, value: u8)
    requires
        !register.is_pair(),
        register is F ==> value % 16 == 0,
    ensures
        registers.spec_write(register, value as u16).spec_read(register) == value,
{
    assert(low_byte(value as u16) == value);
    if register is F {
        lemma_flags_byte_round_trip(value);
    }
}

/// A byte written to F is read back with its low nibble cleared.
pub proof fn lemma_flags_write_read(registers: Registers, value: u8)
    ensures
        registers.spec_write(Register::F, value as u16).spec_read(Register::F) == value - value
            % 16,
{
    assert(low_byte(value as u16) == value);
    lemma_flags_byte_round_trip(value);
}

/// A word written to BC, DE or HL is the word read back, with the first
/// register of the pair holding its high byte and the second its low byte.
pub proof fn lemma_pair_write_read(registers: Registers, value: u16)
    ensures
        registers.with_bc(value).bc() == value,
        registers.with_bc(value).b == value / 256,
        registers.with_bc(value).c == value % 256,
        registers.with_de(value).de() == value,
        registers.with_de(value).d == value / 256,
        registers.with_de(value).e == value % 256,
        registers.with_hl(value).hl() == value,
        registers.with_hl(value).h == value / 256,
        registers.with_hl(value).l == value % 256,
        registers.spec_write(Register::BC, value).spec_read(Register::BC) == value,
        registers.spec_write(Register::DE, value).spec_read(Register::DE) == value,
        registers.spec_write(Register::HL, value).spec_read(Register::HL) == value,
{
    assert(word_of(high_byte(value), low_byte(value)) == value);
}

/// A word written to AF is read back with the low nibble cleared, and writing
/// back what AF reads changes nothing.
pub proof fn lemma_af_write_read(registers: Registers, value: u16)
    ensures
        registers.with_af(value).af() == value - value % 16,
        registers.with_af(value).a == value / 256,
        registers.with_af(registers.af()) == registers,
{
    let low = low_byte(value);
    lemma_flags_byte_round_trip(low);
    assert(value % 16 == low % 16);
    assert(word_of(high_byte(value), (low - low % 16) as u8) == value - value % 16);
    lemma_flags_round_trip(registers.f);
    let packed = registers.f.spec_to_byte();
    assert(high_byte(word_of(registers.a, packed)) == registers.a);
    assert(low_byte(word_of(registers.a, packed)) == packed);
}

} // verus!
