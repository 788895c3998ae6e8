//! The five interrupt sources as one byte: VBlank at bit 0, LCDStat at bit 1,
//! Timer at bit 2, Serial at bit 3, Joypad at bit 4. The three unused bits read
//! as ones.

use crate::utils::{bit, bit_value, lemma_pack_bits, lemma_test_bits};
use vstd::prelude::*;

verus! {

/// One flag for each interrupt source. The same layout serves the
/// interrupt-enable register and the interrupt-request register.
#[derive(Copy, Clone, Debug, PartialEq, Eq, Structural)]
pub struct InterruptFlags {
    pub vblank: bool,
    pub lcdstat: bool,
    pub timer: bool,
    pub serial: bool,
    pub joypad: bool,
}

impl InterruptFlags {
    /// The byte that reading the register gives.
    pub open spec fn spec_to_byte(self) -> u8 {
        (224 + 16 * bit_value(self.joypad) + 8 * bit_value(self.serial) + 4 * bit_value(
            self.timer,
        ) + 2 * bit_value(self.lcdstat) + bit_value(self.vblank)) as u8
    }

    /// The flags that writing a byte to the register sets; the three high bits
    /// play no part.
    pub open spec fn spec_from_byte(byte: u8) -> InterruptFlags {
        InterruptFlags {
            vblank: byte % 2 == 1,
            lcdstat: byte / 2 % 2 == 1,
            timer: byte / 4 % 2 == 1,
            serial: byte / 8 % 2 == 1,
            joypad: byte / 16 % 2 == 1,
        }
    }

    /// Whether some source is set both here and in `other`.
    pub open spec fn intersects(self, other: InterruptFlags) -> bool {
        (self.vblank && other.vblank) || (self.lcdstat && other.lcdstat) || (self.timer
            && other.timer) || (self.serial && other.serial) || (self.joypad && other.joypad)
    }

    /// No source set.
    pub fn new() -> (flags: InterruptFlags)
        ensures
            flags == (InterruptFlags {
                vblank: false,
                lcdstat: false,
                timer: false,
                serial: false,
                joypad: false,
            }),
    {
        InterruptFlags { vblank: false, lcdstat: false, timer: false, serial: false, joypad: false }
    }

    /// Sets the flags from a byte written to the register.
    pub fn from_byte(&mut self, byte: u8)
        ensures
            *final(self) == Self::spec_from_byte(byte),
    {
        proof {
            lemma_test_bits(byte);
        }
        self.vblank = (byte & 0b1) == 0b1;
        self.lcdstat = (byte & 0b10) == 0b10;
        self.timer = (byte & 0b100) == 0b100;
        self.serial = (byte & 0b1000) == 0b1000;
        self.joypad = (byte & 0b10000) == 0b10000;
    }

    /// The byte that reading the register gives.
    pub fn to_byte(&self) -> (byte: u8)
        ensures
            byte == self.spec_to_byte(),
            byte >= 0xE0,
    {
        let joypad = bit(self.joypad);
        let serial = bit(self.serial);
        let timer = bit(self.timer);
        let lcdstat = bit(self.lcdstat);
        let vblank = bit(self.vblank);
        proof {
            lemma_pack_bits(0, 0, 0, joypad, serial, timer, lcdstat, vblank);
        }
        0b11100000 | (joypad << 4) | (serial << 3) | (timer << 2) | (lcdstat << 1) | vblank
    }
}

/// A byte written to the register reads back with its five low bits kept and
/// its three high bits set.
pub proof fn lemma_interrupt_byte_round_trip(byte: u8)
    ensures
        InterruptFlags::spec_from_byte(byte).spec_to_byte() == byte | 0xE0,
        InterruptFlags::spec_from_byte(byte).spec_to_byte() == 224 + byte % 32,
{
    lemma_low_five(byte);
    let flags = InterruptFlags::spec_from_byte(byte);
    assert(bit_value(flags.vblank) == byte % 2);
    assert(bit_value(flags.lcdstat) == byte / 2 % 2);
    assert(bit_value(flags.timer) == byte / 4 % 2);
    assert(bit_value(flags.serial) == byte / 8 % 2);
    assert(bit_value(flags.joypad) == byte / 16 % 2);
}

/// The flags read from the register's byte are the flags it holds.
pub proof fn lemma_interrupt_flags_round_trip(flags: InterruptFlags)
    ensures
        InterruptFlags::spec_from_byte(flags.spec_to_byte()) == flags,
{
    let byte = flags.spec_to_byte();
    let j = bit_value(flags.joypad);
    let s = bit_value(flags.serial);
    let t = bit_value(flags.timer);
    let l = bit_value(flags.lcdstat);
    let v = bit_value(flags.vblank);
    assert(byte == 224 + 16 * j + 8 * s + 4 * t + 2 * l + v);
    assert(byte / 2 == 112 + 8 * j + 4 * s + 2 * t + l);
    assert(byte / 4 == 56 + 4 * j + 2 * s + t);
    assert(byte / 8 == 28 + 2 * j + s);
    assert(byte / 16 == 14 + j);
}

proof fn lemma_low_five(b: u8)
    by (bit_vector)
    ensures
        (b | 0xE0) == 224 + 16 * (b / 16 % 2) + 8 * (b / 8 % 2) + 4 * (b / 4 % 2) + 2 * (b / 2 % 2)
            + b % 2,
        (b | 0xE0) == 224 + b % 32,
{
}

} // verus!
