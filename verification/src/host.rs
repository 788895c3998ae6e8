//! What a host program that shows the processor at work needs beside the
//! machine itself: a way to add a chosen register to A in one call.

use crate::cpu::instruction::{ArithmeticTarget, Instruction};
use crate::cpu::CPU;
use vstd::prelude::*;

verus! {

/// A register or a register pair, as a host names the operand of an addition.
#[derive(Copy, Clone, Debug, PartialEq, Eq, Structural)]
pub enum Target {
    A,
    B,
    C,
    D,
    E,
    F,
    H,
    L,
    AF,
    BC,
    DE,
    HL,
}

impl Target {
    /// The operand of ADD that the name stands for, where it stands for one:
    /// F and the pairs cannot be added to A.
    pub open spec fn spec_arithmetic_target(self) -> Option<ArithmeticTarget> {
        match self {
            Target::A => Some(ArithmeticTarget::A),
            Target::B => Some(ArithmeticTarget::B),
            Target::C => Some(ArithmeticTarget::C),
            Target::D => Some(ArithmeticTarget::D),
            Target::E => Some(ArithmeticTarget::E),
            Target::H => Some(ArithmeticTarget::H),
            Target::L => Some(ArithmeticTarget::L),
            _ => None,
        }
    }

    /// The operand of ADD that the name stands for, where it stands for one.
    pub fn arithmetic_target(self) -> (target: Option<ArithmeticTarget>)
        ensures
            target == self.spec_arithmetic_target(),
    {
        match self {
            Target::A => Some(ArithmeticTarget::A),
            Target::B => Some(ArithmeticTarget::B),
            Target::C => Some(ArithmeticTarget::C),
            Target::D => Some(ArithmeticTarget::D),
            Target::E => Some(ArithmeticTarget::E),
            Target::H => Some(ArithmeticTarget::H),
            Target::L => Some(ArithmeticTarget::L),
            _ => None,
        }
    }
}

/// Adds the named register to A, as the instruction ADD does, and hands the
/// machine back. The program counter stays. A name that ADD cannot take
/// leaves the machine as it is.
pub fn add(cpu: CPU, target: Target) -> (result: CPU)
    ensures
        result == (match target.spec_arithmetic_target() {
            Some(register) => cpu.spec_execute(Instruction::ADD(register)).0,
            None => cpu,
        }),
        result.wf() == cpu.wf(),
{
    let mut cpu = cpu;
    if let Some(register) = target.arithmetic_target() {
        cpu.execute_arithmetic(Instruction::ADD(register));
    }
    cpu
}

} // verus!
