//! The divider and the programmable timer. The divider counts every cycle and
//! shows its high byte. The timer counts one tick each time its accumulator
//! reaches the number of cycles that its frequency asks for, and on overflow
//! reloads from the modulo and asks for the timer interrupt.

use crate::utils::{bit, bit_value, lemma_test_bits, lemma_two_bit_fields};
use vstd::prelude::*;

verus! {

/// The four rates at which the timer can tick, in Hz.
#[derive(Copy, Clone, Debug, PartialEq, Eq, Structural)]
pub enum Frequency {
    F4096,
    F16384,
    F262144,
    F65536,
}

impl Frequency {
    /// The number of processor cycles in one tick: 4194304 divided by the
    /// frequency.
    pub open spec fn spec_cycles_per_tick(self) -> int {
        match self {
            Frequency::F4096 => 1024,
            Frequency::F16384 => 256,
            Frequency::F262144 => 16,
            Frequency::F65536 => 64,
        }
    }

    /// The number of processor cycles in one tick.
    pub fn cycles_per_tick(&self) -> (cycles: usize)
        ensures
            cycles == self.spec_cycles_per_tick(),
    {
        match self {
            Frequency::F4096 => 1024,
            Frequency::F16384 => 256,
            Frequency::F262144 => 16,
            Frequency::F65536 => 64,
        }
    }

    /// The frequency that the two low bits of the timer-control byte select.
    pub open spec fn spec_from_control(byte: u8) -> Frequency {
        let selector = byte % 4;
        if selector == 0 {
            Frequency::F4096
        } else if selector == 3 {
            Frequency::F16384
        } else if selector == 2 {
            Frequency::F65536
        } else {
            Frequency::F262144
        }
    }

    /// The two bits that select this frequency in the timer-control byte.
    pub open spec fn spec_selector(self) -> u8 {
        match self {
            Frequency::F4096 => 0,
            Frequency::F16384 => 3,
            Frequency::F65536 => 2,
            Frequency::F262144 => 1,
        }
    }
}

/// The state of the timer and of the divider.
#[derive(Copy, Clone, Debug, PartialEq, Eq, Structural)]
pub struct Timer {
    /// The rate of the counter.
    pub frequency: Frequency,
    /// Cycles gathered towards the next tick.
    pub cycles: usize,
    /// The counter (TIMA).
    pub value: u8,
    /// The value that the counter restarts from after an overflow (TMA).
    pub modulo: u8,
    /// Whether the counter runs.
    pub on: bool,
    /// The divider's 16-bit counter, which runs whether or not the timer is on.
    pub divider_counter: u16,
}

impl Timer {
    /// The divider register: the high byte of the divider's counter.
    pub open spec fn spec_divider(self) -> u8 {
        (self.divider_counter / 256) as u8
    }

    /// The accumulator stays below the largest number of cycles per tick.
    pub open spec fn wf(self) -> bool {
        self.cycles < 1024
    }

    /// The timer after `cycles` more cycles, and whether it asks for the timer
    /// interrupt. The divider advances by `cycles` modulo 65536. A timer that
    /// is on adds `cycles` to its accumulator; once that reaches the cycles per
    /// tick it is reduced modulo them and the counter goes up by one, or, from
    /// 0xFF, restarts at the modulo and asks for the interrupt.
    pub open spec fn spec_step(self, cycles: u8) -> (Timer, bool) {
        let divider_counter = ((self.divider_counter + cycles) % 0x10000) as u16;
        let total = self.cycles + cycles;
        let per_tick = self.frequency.spec_cycles_per_tick();
        if !self.on {
            (Timer { divider_counter, ..self }, false)
        } else if total >= per_tick {
            let overflow = self.value == 0xFF;
            (
                Timer {
                    divider_counter,
                    cycles: (total % per_tick) as usize,
                    value: if overflow {
                        self.modulo
                    } else {
                        (self.value + 1) as u8
                    },
                    ..self
                },
                overflow,
            )
        } else {
            (Timer { divider_counter, cycles: total as usize, ..self }, false)
        }
    }

    /// The timer-control byte: the frequency selector in bits 1 and 0, the
    /// run bit in bit 2.
    pub open spec fn spec_control(self) -> u8 {
        (4 * bit_value(self.on) + self.frequency.spec_selector()) as u8
    }

    /// Whether the address is that of the divider, the counter, the modulo or
    /// the timer control.
    pub open spec fn is_register(address: u16) -> bool {
        0xFF04 <= address <= 0xFF07
    }

    /// The byte that the timer's register at `address` reads as.
    pub open spec fn spec_read_register(self, address: u16) -> u8 {
        if address == 0xFF04 {
            self.spec_divider()
        } else if address == 0xFF05 {
            self.value
        } else if address == 0xFF06 {
            self.modulo
        } else {
            self.spec_control()
        }
    }

    /// The timer after `value` is written to its register at `address`. Any
    /// write to the divider sets it back to zero.
    pub open spec fn spec_write_register(self, address: u16, value: u8) -> Timer {
        if address == 0xFF04 {
            Timer { divider_counter: 0, ..self }
        } else if address == 0xFF05 {
            Timer { value, ..self }
        } else if address == 0xFF06 {
            Timer { modulo: value, ..self }
        } else {
            Timer {
                frequency: Frequency::spec_from_control(value),
                on: value / 4 % 2 == 1,
                ..self
            }
        }
    }

    /// A stopped timer at zero with the given frequency.
    pub fn new(frequency: Frequency) -> (timer: Timer)
        ensures
            timer == (Timer {
                frequency,
                cycles: 0,
                value: 0,
                modulo: 0,
                on: false,
                divider_counter: 0,
            }),
            timer.wf(),
    {
        Timer { frequency, cycles: 0, value: 0, modulo: 0, on: false, divider_counter: 0 }
    }

    /// Advances the divider and the timer by `cycles` cycles and says whether
    /// the timer asks for its interrupt.
    pub fn step(&mut self, cycles: u8) -> (interrupt: bool)
        requires
            old(self).wf(),
        ensures
            (*final(self), interrupt) == old(self).spec_step(cycles),
            final(self).wf(),
    {
        self.divider_counter = self.divider_counter.wrapping_add(cycles as u16);
        if !self.on {
            return false;
        }
        self.cycles += cycles as usize;

        let cycles_per_tick = self.frequency.cycles_per_tick();
        let did_overflow = if self.cycles >= cycles_per_tick {
            self.cycles = self.cycles % cycles_per_tick;
            let did_overflow = self.value == 0xFF;
            self.value = self.value.wrapping_add(1);
            did_overflow
        } else {
            false
        };
        if did_overflow {
            self.value = self.modulo;
        }
        did_overflow
    }

    /// Reads the timer's register at `address`.
    pub fn read_register(&self, address: u16) -> (value: u8)
        requires
            Timer::is_register(address),
        ensures
            value == self.spec_read_register(address),
    {
        match address {
            0xFF04 => self.divider(),
            0xFF05 => self.value,
            0xFF06 => self.modulo,
            _ => {
                let selector: u8 = match self.frequency {
                    Frequency::F4096 => 0b00,
                    Frequency::F16384 => 0b11,
                    Frequency::F65536 => 0b10,
                    Frequency::F262144 => 0b01,
                };
                4 * bit(self.on) + selector
            },
        }
    }

    /// Writes `value` to the timer's register at `address`.
    pub fn write_register(&mut self, address: u16, value: u8)
        requires
            Timer::is_register(address),
        ensures
            *final(self) == old(self).spec_write_register(address, value),
            final(self).wf() == old(self).wf(),
    {
        proof {
            lemma_test_bits(value);
            lemma_two_bit_fields(value);
        }
        match address {
            0xFF04 => self.reset_divider(),
            0xFF05 => {
                self.value = value;
            },
            0xFF06 => {
                self.modulo = value;
            },
            _ => {
                let frequency = match value & 0b11 {
                    0b00 => Frequency::F4096,
                    0b11 => Frequency::F16384,
                    0b10 => Frequency::F65536,
                    _ => Frequency::F262144,
                };
                self.frequency = frequency;
                self.on = (value & 0b100) == 0b100;
            },
        }
    }

    /// The divider register.
    pub fn divider(&self) -> (value: u8)
        ensures
            value == self.spec_divider(),
    {
        (self.divider_counter / 256) as u8
    }

    /// Sets the divider back to zero.
    pub fn reset_divider(&mut self)
        ensures
            *final(self) == (Timer { divider_counter: 0, ..*old(self) }),
    {
        self.divider_counter = 0;
    }
}

/// Each step moves the divider's counter forward by exactly the cycles handed
/// in, modulo 65536, whatever the state of the timer. A timer that is off
/// changes in nothing else; one that is on asks for the interrupt exactly when
/// its accumulator reaches the cycles per tick while the counter is at 0xFF.
pub proof fn lemma_timer_step_counts_cycles(timer: Timer, cycles: u8)
    ensures
        timer.spec_step(cycles).0.divider_counter == (timer.divider_counter + cycles) % 0x10000,
        !timer.on ==> timer.spec_step(cycles) == (
            Timer { divider_counter: timer.spec_step(cycles).0.divider_counter, ..timer },
            false,
        ),
        timer.on ==> timer.spec_step(cycles).1 == (timer.cycles + cycles
            >= timer.frequency.spec_cycles_per_tick() && timer.value == 0xFF),
        timer.wf() ==> timer.spec_step(cycles).0.wf(),
{
}

} // verus!
