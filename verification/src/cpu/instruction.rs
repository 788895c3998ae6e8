//! The instruction set: what an instruction is, and how an opcode byte names
//! one, in the base table and in the table behind the prefix byte 0xCB.

use super::registers::Register;
use vstd::prelude::*;

verus! {

/// The operand of INC and DEC: a register, a register pair, or the byte at the
/// address in HL.
#[derive(Copy, Clone, Debug, PartialEq, Eq, Structural)]
pub enum IncDecTarget {
    A,
    B,
    C,
    D,
    E,
    H,
    L,
    HLI,
    BC,
    DE,
    HL,
    SP,
}

/// The operand that an 8-bit arithmetic instruction combines with A: a
/// register, the byte after the opcode, or the byte at the address in HL.
#[derive(Copy, Clone, Debug, PartialEq, Eq, Structural)]
pub enum ArithmeticTarget {
    A,
    B,
    C,
    D,
    E,
    H,
    L,
    D8,
    HLI,
}

/// The word that ADD HL adds to HL.
#[derive(Copy, Clone, Debug, PartialEq, Eq, Structural)]
pub enum ADDHLTarget {
    BC,
    DE,
    HL,
    SP,
}

/// The operand of a prefixed instruction: a register or the byte at the
/// address in HL.
#[derive(Copy, Clone, Debug, PartialEq, Eq, Structural)]
pub enum PrefixTarget {
    A,
    B,
    C,
    D,
    E,
    H,
    L,
    HLI,
}

/// A bit of a byte, B0 being the least significant.
#[derive(Copy, Clone, Debug, PartialEq, Eq, Structural)]
pub enum BitPosition {
    B0,
    B1,
    B2,
    B3,
    B4,
    B5,
    B6,
    B7,
}

/// The condition under which a jump, call or return is taken.
#[derive(Copy, Clone, Debug, PartialEq, Eq, Structural)]
pub enum JumpTest {
    NotZero,
    Zero,
    NotCarry,
    Carry,
    Always,
}

/// Where a byte load writes.
#[derive(Copy, Clone, Debug, PartialEq, Eq, Structural)]
pub enum LoadByteTarget {
    A,
    B,
    C,
    D,
    E,
    H,
    L,
    HLI,
}

/// Where a byte load reads.
#[derive(Copy, Clone, Debug, PartialEq, Eq, Structural)]
pub enum LoadByteSource {
    A,
    B,
    C,
    D,
    E,
    H,
    L,
    D8,
    HLI,
}

/// Where a word load writes.
#[derive(Copy, Clone, Debug, PartialEq, Eq, Structural)]
pub enum LoadWordTarget {
    BC,
    DE,
    HL,
    SP,
}

/// An address taken from a register pair, from the word after the opcode, or
/// from 0xFF00 plus C. The HL forms step HL after the access.
#[derive(Copy, Clone, Debug, PartialEq, Eq, Structural)]
pub enum Indirect {
    BCIndirect,
    DEIndirect,
    HLIndirectMinus,
    HLIndirectPlus,
    WordIndirect,
    LastByteIndirect,
}

/// The forms of LD.
#[derive(Copy, Clone, Debug, PartialEq, Eq, Structural)]
pub enum LoadType {
    Byte(LoadByteTarget, LoadByteSource),
    Word(LoadWordTarget),
    AFromIndirect(Indirect),
    IndirectFromA(Indirect),
    AFromByteAddress,
    ByteAddressFromA,
    SPFromHL,
    HLFromSPN,
    IndirectFromSP,
}

/// The register pair that PUSH reads and POP writes.
#[derive(Copy, Clone, Debug, PartialEq, Eq, Structural)]
pub enum StackTarget {
    AF,
    BC,
    DE,
    HL,
}

/// The fixed address that RST calls.
#[derive(Copy, Clone, Debug, PartialEq, Eq, Structural)]
pub enum RSTLocation {
    X00,
    X08,
    X10,
    X18,
    X20,
    X28,
    X30,
    X38,
}

/// An operation of the processor with its operands.
#[derive(Copy, Clone, Debug, PartialEq, Eq, Structural)]
pub enum Instruction {
    INC(IncDecTarget),
    DEC(IncDecTarget),
    ADD(ArithmeticTarget),
    ADDHL(ADDHLTarget),
    ADDSP,
    ADC(ArithmeticTarget),
    SUB(ArithmeticTarget),
    SBC(ArithmeticTarget),
    AND(ArithmeticTarget),
    OR(ArithmeticTarget),
    XOR(ArithmeticTarget),
    CP(ArithmeticTarget),
    CCF,
    SCF,
    RRA,
    RLA,
    RRCA,
    RLCA,
    CPL,
    DAA,
    BIT(PrefixTarget, BitPosition),
    RES(PrefixTarget, BitPosition),
    SET(PrefixTarget, BitPosition),
    SRL(PrefixTarget),
    RR(PrefixTarget),
    RL(PrefixTarget),
    RRC(PrefixTarget),
    RLC(PrefixTarget),
    SRA(PrefixTarget),
    SLA(PrefixTarget),
    SWAP(PrefixTarget),
    JP(JumpTest),
    JR(JumpTest),
    JPI,
    LD(LoadType),
    PUSH(StackTarget),
    POP(StackTarget),
    CALL(JumpTest),
    RET(JumpTest),
    RETI,
    RST(RSTLocation),
    NOP,
    HALT,
    STOP,
    DI,
    EI,
}

/// Where an instruction finds a byte operand: in a register, in the byte
/// after the opcode, or in the byte at the address in HL.
#[derive(Copy, Clone, Debug, PartialEq, Eq, Structural)]
pub enum Operand {
    Register(Register),
    D8,
    HLI,
}

impl ArithmeticTarget {
    /// Where the operand lies.
    pub open spec fn spec_operand(self) -> Operand {
        match self {
            ArithmeticTarget::A => Operand::Register(Register::A),
            ArithmeticTarget::B => Operand::Register(Register::B),
            ArithmeticTarget::C => Operand::Register(Register::C),
            ArithmeticTarget::D => Operand::Register(Register::D),
            ArithmeticTarget::E => Operand::Register(Register::E),
            ArithmeticTarget::H => Operand::Register(Register::H),
            ArithmeticTarget::L => Operand::Register(Register::L),
            ArithmeticTarget::D8 => Operand::D8,
            ArithmeticTarget::HLI => Operand::HLI,
        }
    }

    /// Where the operand lies.
    pub fn operand(self) -> (operand: Operand)
        ensures
            operand == self.spec_operand(),
    {
        match self {
            ArithmeticTarget::A => Operand::Register(Register::A),
            ArithmeticTarget::B => Operand::Register(Register::B),
            ArithmeticTarget::C => Operand::Register(Register::C),
            ArithmeticTarget::D => Operand::Register(Register::D),
            ArithmeticTarget::E => Operand::Register(Register::E),
            ArithmeticTarget::H => Operand::Register(Register::H),
            ArithmeticTarget::L => Operand::Register(Register::L),
            ArithmeticTarget::D8 => Operand::D8,
            ArithmeticTarget::HLI => Operand::HLI,
        }
    }
}

impl PrefixTarget {
    /// Where the operand lies.
    pub open spec fn spec_operand(self) -> Operand {
        match self {
            PrefixTarget::A => Operand::Register(Register::A),
            PrefixTarget::B => Operand::Register(Register::B),
            PrefixTarget::C => Operand::Register(Register::C),
            PrefixTarget::D => Operand::Register(Register::D),
            PrefixTarget::E => Operand::Register(Register::E),
            PrefixTarget::H => Operand::Register(Register::H),
            PrefixTarget::L => Operand::Register(Register::L),
            PrefixTarget::HLI => Operand::HLI,
        }
    }

    /// Where the operand lies.
    pub fn operand(self) -> (operand: Operand)
        ensures
            operand == self.spec_operand(),
    {
        match self {
            PrefixTarget::A => Operand::Register(Register::A),
            PrefixTarget::B => Operand::Register(Register::B),
            PrefixTarget::C => Operand::Register(Register::C),
            PrefixTarget::D => Operand::Register(Register::D),
            PrefixTarget::E => Operand::Register(Register::E),
            PrefixTarget::H => Operand::Register(Register::H),
            PrefixTarget::L => Operand::Register(Register::L),
            PrefixTarget::HLI => Operand::HLI,
        }
    }
}

impl LoadByteTarget {
    /// Where the operand lies.
    pub open spec fn spec_operand(self) -> Operand {
        match self {
            LoadByteTarget::A => Operand::Register(Register::A),
            LoadByteTarget::B => Operand::Register(Register::B),
            LoadByteTarget::C => Operand::Register(Register::C),
            LoadByteTarget::D => Operand::Register(Register::D),
            LoadByteTarget::E => Operand::Register(Register::E),
            LoadByteTarget::H => Operand::Register(Register::H),
            LoadByteTarget::L => Operand::Register(Register::L),
            LoadByteTarget::HLI => Operand::HLI,
        }
    }

    /// Where the operand lies.
    pub fn operand(self) -> (operand: Operand)
        ensures
            operand == self.spec_operand(),
    {
        match self {
            LoadByteTarget::A => Operand::Register(Register::A),
            LoadByteTarget::B => Operand::Register(Register::B),
            LoadByteTarget::C => Operand::Register(Register::C),
            LoadByteTarget::D => Operand::Register(Register::D),
            LoadByteTarget::E => Operand::Register(Register::E),
            LoadByteTarget::H => Operand::Register(Register::H),
            LoadByteTarget::L => Operand::Register(Register::L),
            LoadByteTarget::HLI => Operand::HLI,
        }
    }
}

impl LoadByteSource {
    /// Where the operand lies.
    pub open spec fn spec_operand(self) -> Operand {
        match self {
            LoadByteSource::A => Operand::Register(Register::A),
            LoadByteSource::B => Operand::Register(Register::B),
            LoadByteSource::C => Operand::Register(Register::C),
            LoadByteSource::D => Operand::Register(Register::D),
            LoadByteSource::E => Operand::Register(Register::E),
            LoadByteSource::H => Operand::Register(Register::H),
            LoadByteSource::L => Operand::Register(Register::L),
            LoadByteSource::D8 => Operand::D8,
            LoadByteSource::HLI => Operand::HLI,
        }
    }

    /// Where the operand lies.
    pub fn operand(self) -> (operand: Operand)
        ensures
            operand == self.spec_operand(),
    {
        match self {
            LoadByteSource::A => Operand::Register(Register::A),
            LoadByteSource::B => Operand::Register(Register::B),
            LoadByteSource::C => Operand::Register(Register::C),
            LoadByteSource::D => Operand::Register(Register::D),
            LoadByteSource::E => Operand::Register(Register::E),
            LoadByteSource::H => Operand::Register(Register::H),
            LoadByteSource::L => Operand::Register(Register::L),
            LoadByteSource::D8 => Operand::D8,
            LoadByteSource::HLI => Operand::HLI,
        }
    }
}

impl IncDecTarget {
    /// Whether the operand is a 16-bit register.
    pub open spec fn is_wide(self) -> bool {
        self is BC || self is DE || self is HL || self is SP
    }

    /// Where a byte operand lies; a 16-bit register gives the register A.
    pub open spec fn spec_operand(self) -> Operand {
        match self {
            IncDecTarget::A => Operand::Register(Register::A),
            IncDecTarget::B => Operand::Register(Register::B),
            IncDecTarget::C => Operand::Register(Register::C),
            IncDecTarget::D => Operand::Register(Register::D),
            IncDecTarget::E => Operand::Register(Register::E),
            IncDecTarget::H => Operand::Register(Register::H),
            IncDecTarget::L => Operand::Register(Register::L),
            IncDecTarget::HLI => Operand::HLI,
            _ => Operand::Register(Register::A),
        }
    }

    /// Where a byte operand lies.
    pub fn operand(self) -> (operand: Operand)
        ensures
            operand == self.spec_operand(),
    {
        match self {
            IncDecTarget::A => Operand::Register(Register::A),
            IncDecTarget::B => Operand::Register(Register::B),
            IncDecTarget::C => Operand::Register(Register::C),
            IncDecTarget::D => Operand::Register(Register::D),
            IncDecTarget::E => Operand::Register(Register::E),
            IncDecTarget::H => Operand::Register(Register::H),
            IncDecTarget::L => Operand::Register(Register::L),
            IncDecTarget::HLI => Operand::HLI,
            _ => Operand::Register(Register::A),
        }
    }
}

impl BitPosition {
    /// The number of the bit, 0 to 7.
    pub open spec fn index(self) -> int {
        match self {
            BitPosition::B0 => 0,
            BitPosition::B1 => 1,
            BitPosition::B2 => 2,
            BitPosition::B3 => 3,
            BitPosition::B4 => 4,
            BitPosition::B5 => 5,
            BitPosition::B6 => 6,
            BitPosition::B7 => 7,
        }
    }

    /// The bit with the given number; numbers above 7 give B7.
    pub open spec fn of_index(index: int) -> BitPosition {
        if index <= 0 {
            BitPosition::B0
        } else if index == 1 {
            BitPosition::B1
        } else if index == 2 {
            BitPosition::B2
        } else if index == 3 {
            BitPosition::B3
        } else if index == 4 {
            BitPosition::B4
        } else if index == 5 {
            BitPosition::B5
        } else if index == 6 {
            BitPosition::B6
        } else {
            BitPosition::B7
        }
    }

    /// The number of the bit as a byte.
    pub fn to_byte(self) -> (position: u8)
        ensures
            position == self.index(),
            position <= 7,
    {
        match self {
            BitPosition::B0 => 0,
            BitPosition::B1 => 1,
            BitPosition::B2 => 2,
            BitPosition::B3 => 3,
            BitPosition::B4 => 4,
            BitPosition::B5 => 5,
            BitPosition::B6 => 6,
            BitPosition::B7 => 7,
        }
    }
}

impl BitPosition {
    /// The byte in which only this bit is set.
    pub fn mask(self) -> (mask: u8)
        ensures
            mask == crate::utils::pow2_int(self.index()),
    {
        match self {
            BitPosition::B0 => 0b0000_0001,
            BitPosition::B1 => 0b0000_0010,
            BitPosition::B2 => 0b0000_0100,
            BitPosition::B3 => 0b0000_1000,
            BitPosition::B4 => 0b0001_0000,
            BitPosition::B5 => 0b0010_0000,
            BitPosition::B6 => 0b0100_0000,
            BitPosition::B7 => 0b1000_0000,
        }
    }
}

impl From<BitPosition> for u8 {
    fn from(position: BitPosition) -> (byte: u8) {
        position.to_byte()
    }
}

impl vstd::std_specs::convert::FromSpecImpl<BitPosition> for u8 {
    open spec fn obeys_from_spec() -> bool {
        true
    }

    open spec fn from_spec(position: BitPosition) -> u8 {
        position.index() as u8
    }
}

impl RSTLocation {
    /// The address that the restart calls: eight times its number.
    pub open spec fn address(self) -> u16 {
        match self {
            RSTLocation::X00 => 0x00,
            RSTLocation::X08 => 0x08,
            RSTLocation::X10 => 0x10,
            RSTLocation::X18 => 0x18,
            RSTLocation::X20 => 0x20,
            RSTLocation::X28 => 0x28,
            RSTLocation::X30 => 0x30,
            RSTLocation::X38 => 0x38,
        }
    }

    /// The restart whose address is eight times `index`.
    pub open spec fn of_index(index: int) -> RSTLocation {
        if index <= 0 {
            RSTLocation::X00
        } else if index == 1 {
            RSTLocation::X08
        } else if index == 2 {
            RSTLocation::X10
        } else if index == 3 {
            RSTLocation::X18
        } else if index == 4 {
            RSTLocation::X20
        } else if index == 5 {
            RSTLocation::X28
        } else if index == 6 {
            RSTLocation::X30
        } else {
            RSTLocation::X38
        }
    }

    /// The address that the restart calls.
    pub fn to_address(self) -> (address: u16)
        ensures
            address == self.address(),
    {
        match self {
            RSTLocation::X00 => 0x00,
            RSTLocation::X08 => 0x08,
            RSTLocation::X10 => 0x10,
            RSTLocation::X18 => 0x18,
            RSTLocation::X20 => 0x20,
            RSTLocation::X28 => 0x28,
            RSTLocation::X30 => 0x30,
            RSTLocation::X38 => 0x38,
        }
    }
}

impl Instruction {
    /// Whether the instruction combines A with an operand.
    pub open spec fn is_arithmetic(self) -> bool {
        self is ADD || self is ADC || self is SUB || self is SBC || self is AND || self is OR
            || self is XOR || self is CP
    }

    /// Whether the instruction is one of those of one byte that work on A and
    /// the flags alone.
    pub open spec fn is_accumulator(self) -> bool {
        self is CCF || self is SCF || self is RRA || self is RLA || self is RRCA || self is RLCA
            || self is CPL || self is DAA
    }

    /// Whether the instruction lies behind the prefix 0xCB.
    pub open spec fn is_prefixed(self) -> bool {
        self is BIT || self is RES || self is SET || self is SRL || self is RR || self is RL
            || self is RRC || self is RLC || self is SRA || self is SLA || self is SWAP
    }

    /// Whether the instruction moves the program counter or uses the stack.
    pub open spec fn is_control(self) -> bool {
        self is JP || self is JR || self is JPI || self is PUSH || self is POP || self is CALL
            || self is RET || self is RETI || self is RST
    }
}

/// The operand of a prefixed instruction with the given operand number.
pub open spec fn prefix_target_of(index: int) -> PrefixTarget {
    if index <= 0 {
        PrefixTarget::B
    } else if index == 1 {
        PrefixTarget::C
    } else if index == 2 {
        PrefixTarget::D
    } else if index == 3 {
        PrefixTarget::E
    } else if index == 4 {
        PrefixTarget::H
    } else if index == 5 {
        PrefixTarget::L
    } else if index == 6 {
        PrefixTarget::HLI
    } else {
        PrefixTarget::A
    }
}

/// The operand of an arithmetic instruction with the given operand number.
pub open spec fn arithmetic_target_of(index: int) -> ArithmeticTarget {
    if index <= 0 {
        ArithmeticTarget::B
    } else if index == 1 {
        ArithmeticTarget::C
    } else if index == 2 {
        ArithmeticTarget::D
    } else if index == 3 {
        ArithmeticTarget::E
    } else if index == 4 {
        ArithmeticTarget::H
    } else if index == 5 {
        ArithmeticTarget::L
    } else if index == 6 {
        ArithmeticTarget::HLI
    } else {
        ArithmeticTarget::A
    }
}

/// The operand of INC or DEC with the given operand number.
pub open spec fn inc_dec_target_of(index: int) -> IncDecTarget {
    if index <= 0 {
        IncDecTarget::B
    } else if index == 1 {
        IncDecTarget::C
    } else if index == 2 {
        IncDecTarget::D
    } else if index == 3 {
        IncDecTarget::E
    } else if index == 4 {
        IncDecTarget::H
    } else if index == 5 {
        IncDecTarget::L
    } else if index == 6 {
        IncDecTarget::HLI
    } else {
        IncDecTarget::A
    }
}

/// The destination of a byte load with the given operand number.
pub open spec fn load_byte_target_of(index: int) -> LoadByteTarget {
    if index <= 0 {
        LoadByteTarget::B
    } else if index == 1 {
        LoadByteTarget::C
    } else if index == 2 {
        LoadByteTarget::D
    } else if index == 3 {
        LoadByteTarget::E
    } else if index == 4 {
        LoadByteTarget::H
    } else if index == 5 {
        LoadByteTarget::L
    } else if index == 6 {
        LoadByteTarget::HLI
    } else {
        LoadByteTarget::A
    }
}

/// The source of a byte load with the given operand number.
pub open spec fn load_byte_source_of(index: int) -> LoadByteSource {
    if index <= 0 {
        LoadByteSource::B
    } else if index == 1 {
        LoadByteSource::C
    } else if index == 2 {
        LoadByteSource::D
    } else if index == 3 {
        LoadByteSource::E
    } else if index == 4 {
        LoadByteSource::H
    } else if index == 5 {
        LoadByteSource::L
    } else if index == 6 {
        LoadByteSource::HLI
    } else {
        LoadByteSource::A
    }
}

/// The condition with the given number: NZ, Z, NC, C.
pub open spec fn jump_test_of(index: int) -> JumpTest {
    if index <= 0 {
        JumpTest::NotZero
    } else if index == 1 {
        JumpTest::Zero
    } else if index == 2 {
        JumpTest::NotCarry
    } else {
        JumpTest::Carry
    }
}

/// The arithmetic instruction with the given operation number, in the order
/// ADD, ADC, SUB, SBC, AND, XOR, OR, CP.
pub open spec fn arithmetic_of(operation: int, target: ArithmeticTarget) -> Instruction {
    if operation <= 0 {
        Instruction::ADD(target)
    } else if operation == 1 {
        Instruction::ADC(target)
    } else if operation == 2 {
        Instruction::SUB(target)
    } else if operation == 3 {
        Instruction::SBC(target)
    } else if operation == 4 {
        Instruction::AND(target)
    } else if operation == 5 {
        Instruction::XOR(target)
    } else if operation == 6 {
        Instruction::OR(target)
    } else {
        Instruction::CP(target)
    }
}

/// The rotate or shift with the given operation number, in the order RLC,
/// RRC, RL, RR, SLA, SRA, SWAP, SRL.
pub open spec fn rotation_of(operation: int, target: PrefixTarget) -> Instruction {
    if operation <= 0 {
        Instruction::RLC(target)
    } else if operation == 1 {
        Instruction::RRC(target)
    } else if operation == 2 {
        Instruction::RL(target)
    } else if operation == 3 {
        Instruction::RR(target)
    } else if operation == 4 {
        Instruction::SLA(target)
    } else if operation == 5 {
        Instruction::SRA(target)
    } else if operation == 6 {
        Instruction::SWAP(target)
    } else {
        Instruction::SRL(target)
    }
}

/// The instruction that a byte names behind the prefix 0xCB. The two high bits
/// choose between rotate or shift, BIT, RES and SET; the three middle bits give
/// the rotate or shift, or the bit; the three low bits give the operand.
pub open spec fn spec_from_byte_prefixed(byte: u8) -> Instruction {
    let group = byte as int / 64;
    let middle = byte as int / 8 % 8;
    let target = prefix_target_of(byte as int % 8);
    if group == 0 {
        rotation_of(middle, target)
    } else if group == 1 {
        Instruction::BIT(target, BitPosition::of_index(middle))
    } else if group == 2 {
        Instruction::RES(target, BitPosition::of_index(middle))
    } else {
        Instruction::SET(target, BitPosition::of_index(middle))
    }
}

/// The bytes of the base table that name no instruction.
pub open spec fn is_undefined_opcode(byte: u8) -> bool {
    byte == 0xD3 || byte == 0xDB || byte == 0xDD || byte == 0xE3 || byte == 0xE4 || byte == 0xEB
        || byte == 0xEC || byte == 0xED || byte == 0xF4 || byte == 0xFC || byte == 0xFD
}

/// The instruction that a byte of the first quarter of the base table names.
pub open spec fn spec_from_byte_quarter_0(byte: u8) -> Instruction {
    let row = byte as int / 8 % 8;
    let column = byte as int % 8;
    let pair = row / 2;
    let second = row % 2 == 1;
    if column == 0 {
        if row == 0 {
            Instruction::NOP
        } else if row == 1 {
            Instruction::LD(LoadType::IndirectFromSP)
        } else if row == 2 {
            Instruction::STOP
        } else if row == 3 {
            Instruction::JR(JumpTest::Always)
        } else {
            Instruction::JR(jump_test_of(row - 4))
        }
    } else if column == 1 {
        if second {
            Instruction::ADDHL(
                if pair == 0 {
                    ADDHLTarget::BC
                } else if pair == 1 {
                    ADDHLTarget::DE
                } else if pair == 2 {
                    ADDHLTarget::HL
                } else {
                    ADDHLTarget::SP
                },
            )
        } else {
            Instruction::LD(
                LoadType::Word(
                    if pair == 0 {
                        LoadWordTarget::BC
                    } else if pair == 1 {
                        LoadWordTarget::DE
                    } else if pair == 2 {
                        LoadWordTarget::HL
                    } else {
                        LoadWordTarget::SP
                    },
                ),
            )
        }
    } else if column == 2 {
        let indirect = if pair == 0 {
            Indirect::BCIndirect
        } else if pair == 1 {
            Indirect::DEIndirect
        } else if pair == 2 {
            Indirect::HLIndirectPlus
        } else {
            Indirect::HLIndirectMinus
        };
        if second {
            Instruction::LD(LoadType::AFromIndirect(indirect))
        } else {
            Instruction::LD(LoadType::IndirectFromA(indirect))
        }
    } else if column == 3 {
        let target = if pair == 0 {
            IncDecTarget::BC
        } else if pair == 1 {
            IncDecTarget::DE
        } else if pair == 2 {
            IncDecTarget::HL
        } else {
            IncDecTarget::SP
        };
        if second {
            Instruction::DEC(target)
        } else {
            Instruction::INC(target)
        }
    } else if column == 4 {
        Instruction::INC(inc_dec_target_of(row))
    } else if column == 5 {
        Instruction::DEC(inc_dec_target_of(row))
    } else if column == 6 {
        Instruction::LD(LoadType::Byte(load_byte_target_of(row), LoadByteSource::D8))
    } else {
        if row == 0 {
            Instruction::RLCA
        } else if row == 1 {
            Instruction::RRCA
        } else if row == 2 {
            Instruction::RLA
        } else if row == 3 {
            Instruction::RRA
        } else if row == 4 {
            Instruction::DAA
        } else if row == 5 {
            Instruction::CPL
        } else if row == 6 {
            Instruction::SCF
        } else {
            Instruction::CCF
        }
    }
}

/// The instruction that a byte of the last quarter of the base table names,
/// where it names one.
pub open spec fn spec_from_byte_quarter_3(byte: u8) -> Instruction {
    let row = byte as int / 8 % 8;
    let column = byte as int % 8;
    let pair = row / 2;
    let second = row % 2 == 1;
    let stack_target = if pair == 0 {
        StackTarget::BC
    } else if pair == 1 {
        StackTarget::DE
    } else if pair == 2 {
        StackTarget::HL
    } else {
        StackTarget::AF
    };
    if column == 0 {
        if row < 4 {
            Instruction::RET(jump_test_of(row))
        } else if row == 4 {
            Instruction::LD(LoadType::ByteAddressFromA)
        } else if row == 5 {
            Instruction::ADDSP
        } else if row == 6 {
            Instruction::LD(LoadType::AFromByteAddress)
        } else {
            Instruction::LD(LoadType::HLFromSPN)
        }
    } else if column == 1 {
        if !second {
            Instruction::POP(stack_target)
        } else if pair == 0 {
            Instruction::RET(JumpTest::Always)
        } else if pair == 1 {
            Instruction::RETI
        } else if pair == 2 {
            Instruction::JPI
        } else {
            Instruction::LD(LoadType::SPFromHL)
        }
    } else if column == 2 {
        if row < 4 {
            Instruction::JP(jump_test_of(row))
        } else if row == 4 {
            Instruction::LD(LoadType::IndirectFromA(Indirect::LastByteIndirect))
        } else if row == 5 {
            Instruction::LD(LoadType::IndirectFromA(Indirect::WordIndirect))
        } else if row == 6 {
            Instruction::LD(LoadType::AFromIndirect(Indirect::LastByteIndirect))
        } else {
            Instruction::LD(LoadType::AFromIndirect(Indirect::WordIndirect))
        }
    } else if column == 3 {
        if row == 0 {
            Instruction::JP(JumpTest::Always)
        } else if row == 6 {
            Instruction::DI
        } else {
            Instruction::EI
        }
    } else if column == 4 {
        Instruction::CALL(jump_test_of(row))
    } else if column == 5 {
        if !second {
            Instruction::PUSH(stack_target)
        } else {
            Instruction::CALL(JumpTest::Always)
        }
    } else if column == 6 {
        arithmetic_of(row, ArithmeticTarget::D8)
    } else {
        Instruction::RST(RSTLocation::of_index(row))
    }
}

/// The instruction that a byte names in the base table: nothing for the
/// eleven undefined bytes and for the prefix 0xCB. The second quarter holds the
/// register-to-register loads with HALT in the place of LD (HL),(HL); the third
/// holds the arithmetic on A.
pub open spec fn spec_from_byte_not_prefixed(byte: u8) -> Option<Instruction> {
    let quarter = byte as int / 64;
    if is_undefined_opcode(byte) || byte == 0xCB {
        None
    } else if quarter == 0 {
        Some(spec_from_byte_quarter_0(byte))
    } else if quarter == 1 {
        if byte == 0x76 {
            Some(Instruction::HALT)
        } else {
            Some(
                Instruction::LD(
                    LoadType::Byte(
                        load_byte_target_of(byte as int / 8 % 8),
                        load_byte_source_of(byte as int % 8),
                    ),
                ),
            )
        }
    } else if quarter == 2 {
        Some(arithmetic_of(byte as int / 8 % 8, arithmetic_target_of(byte as int % 8)))
    } else {
        Some(spec_from_byte_quarter_3(byte))
    }
}

/// The instruction that a byte names, in the table that `prefixed` selects.
pub open spec fn spec_from_byte(byte: u8, prefixed: bool) -> Option<Instruction> {
    if prefixed {
        Some(spec_from_byte_prefixed(byte))
    } else {
        spec_from_byte_not_prefixed(byte)
    }
}

impl Instruction {
    /// Decodes an opcode byte. `prefixed` says that the byte followed the
    /// prefix 0xCB. The result depends on the two arguments alone.
    pub fn from_byte(byte: u8, prefixed: bool) -> (instruction: Option<Instruction>)
        ensures
            instruction == spec_from_byte(byte, prefixed),
            prefixed ==> instruction is Some,
            !prefixed ==> (instruction is None <==> is_undefined_opcode(byte) || byte == 0xCB),
    {
        if prefixed {
            Instruction::from_byte_prefixed(byte)
        } else {
            Instruction::from_byte_not_prefixed(byte)
        }
    }

    /// Decodes a byte that followed the prefix 0xCB. Every byte names an
    /// instruction there.
    #[verifier::rlimit(50)]
    pub fn from_byte_prefixed(byte: u8) -> (instruction: Option<Instruction>)
        ensures
            instruction == Some(spec_from_byte_prefixed(byte)),
    {
        match byte {
            0x00 => Some(Instruction::RLC(PrefixTarget::B)),
            0x01 => Some(Instruction::RLC(PrefixTarget::C)),
            0x02 => Some(Instruction::RLC(PrefixTarget::D)),
            0x03 => Some(Instruction::RLC(PrefixTarget::E)),
            0x04 => Some(Instruction::RLC(PrefixTarget::H)),
            0x05 => Some(Instruction::RLC(PrefixTarget::L)),
            0x06 => Some(Instruction::RLC(PrefixTarget::HLI)),
            0x07 => Some(Instruction::RLC(PrefixTarget::A)),

            0x08 => Some(Instruction::RRC(PrefixTarget::B)),
            0x09 => Some(Instruction::RRC(PrefixTarget::C)),
            0x0a => Some(Instruction::RRC(PrefixTarget::D)),
            0x0b => Some(Instruction::RRC(PrefixTarget::E)),
            0x0c => Some(Instruction::RRC(PrefixTarget::H)),
            0x0d => Some(Instruction::RRC(PrefixTarget::L)),
            0x0e => Some(Instruction::RRC(PrefixTarget::HLI)),
            0x0f => Some(Instruction::RRC(PrefixTarget::A)),

            0x10 => Some(Instruction::RL(PrefixTarget::B)),
            0x11 => Some(Instruction::RL(PrefixTarget::C)),
            0x12 => Some(Instruction::RL(PrefixTarget::D)),
            0x13 => Some(Instruction::RL(PrefixTarget::E)),
            0x14 => Some(Instruction::RL(PrefixTarget::H)),
            0x15 => Some(Instruction::RL(PrefixTarget::L)),
            0x16 => Some(Instruction::RL(PrefixTarget::HLI)),
            0x17 => Some(Instruction::RL(PrefixTarget::A)),

            0x18 => Some(Instruction::RR(PrefixTarget::B)),
            0x19 => Some(Instruction::RR(PrefixTarget::C)),
            0x1a => Some(Instruction::RR(PrefixTarget::D)),
            0x1b => Some(Instruction::RR(PrefixTarget::E)),
            0x1c => Some(Instruction::RR(PrefixTarget::H)),
            0x1d => Some(Instruction::RR(PrefixTarget::L)),
            0x1e => Some(Instruction::RR(PrefixTarget::HLI)),
            0x1f => Some(Instruction::RR(PrefixTarget::A)),

            0x20 => Some(Instruction::SLA(PrefixTarget::B)),
            0x21 => Some(Instruction::SLA(PrefixTarget::C)),
            0x22 => Some(Instruction::SLA(PrefixTarget::D)),
            0x23 => Some(Instruction::SLA(PrefixTarget::E)),
            0x24 => Some(Instruction::SLA(PrefixTarget::H)),
            0x25 => Some(Instruction::SLA(PrefixTarget::L)),
            0x26 => Some(Instruction::SLA(PrefixTarget::HLI)),
            0x27 => Some(Instruction::SLA(PrefixTarget::A)),

            0x28 => Some(Instruction::SRA(PrefixTarget::B)),
            0x29 => Some(Instruction::SRA(PrefixTarget::C)),
            0x2a => Some(Instruction::SRA(PrefixTarget::D)),
            0x2b => Some(Instruction::SRA(PrefixTarget::E)),
            0x2c => Some(Instruction::SRA(PrefixTarget::H)),
            0x2d => Some(Instruction::SRA(PrefixTarget::L)),
            0x2e => Some(Instruction::SRA(PrefixTarget::HLI)),
            0x2f => Some(Instruction::SRA(PrefixTarget::A)),

            0x30 => Some(Instruction::SWAP(PrefixTarget::B)),
            0x31 => Some(Instruction::SWAP(PrefixTarget::C)),
            0x32 => Some(Instruction::SWAP(PrefixTarget::D)),
            0x33 => Some(Instruction::SWAP(PrefixTarget::E)),
            0x34 => Some(Instruction::SWAP(PrefixTarget::H)),
            0x35 => Some(Instruction::SWAP(PrefixTarget::L)),
            0x36 => Some(Instruction::SWAP(PrefixTarget::HLI)),
            0x37 => Some(Instruction::SWAP(PrefixTarget::A)),

            0x38 => Some(Instruction::SRL(PrefixTarget::B)),
            0x39 => Some(Instruction::SRL(PrefixTarget::C)),
            0x3a => Some(Instruction::SRL(PrefixTarget::D)),
            0x3b => Some(Instruction::SRL(PrefixTarget::E)),
            0x3c => Some(Instruction::SRL(PrefixTarget::H)),
            0x3d => Some(Instruction::SRL(PrefixTarget::L)),
            0x3e => Some(Instruction::SRL(PrefixTarget::HLI)),
            0x3f => Some(Instruction::SRL(PrefixTarget::A)),

            0x40 => Some(Instruction::BIT(PrefixTarget::B, BitPosition::B0)),
            0x41 => Some(Instruction::BIT(PrefixTarget::C, BitPosition::B0)),
            0x42 => Some(Instruction::BIT(PrefixTarget::D, BitPosition::B0)),
            0x43 => Some(Instruction::BIT(PrefixTarget::E, BitPosition::B0)),
            0x44 => Some(Instruction::BIT(PrefixTarget::H, BitPosition::B0)),
            0x45 => Some(Instruction::BIT(PrefixTarget::L, BitPosition::B0)),
            0x46 => Some(Instruction::BIT(PrefixTarget::HLI, BitPosition::B0)),
            0x47 => Some(Instruction::BIT(PrefixTarget::A, BitPosition::B0)),

            0x48 => Some(Instruction::BIT(PrefixTarget::B, BitPosition::B1)),
            0x49 => Some(Instruction::BIT(PrefixTarget::C, BitPosition::B1)),
            0x4a => Some(Instruction::BIT(PrefixTarget::D, BitPosition::B1)),
            0x4b => Some(Instruction::BIT(PrefixTarget::E, BitPosition::B1)),
            0x4c => Some(Instruction::BIT(PrefixTarget::H, BitPosition::B1)),
            0x4d => Some(Instruction::BIT(PrefixTarget::L, BitPosition::B1)),
            0x4e => Some(Instruction::BIT(PrefixTarget::HLI, BitPosition::B1)),
            0x4f => Some(Instruction::BIT(PrefixTarget::A, BitPosition::B1)),

            0x50 => Some(Instruction::BIT(PrefixTarget::B, BitPosition::B2)),
            0x51 => Some(Instruction::BIT(PrefixTarget::C, BitPosition::B2)),
            0x52 => Some(Instruction::BIT(PrefixTarget::D, BitPosition::B2)),
            0x53 => Some(Instruction::BIT(PrefixTarget::E, BitPosition::B2)),
            0x54 => Some(Instruction::BIT(PrefixTarget::H, BitPosition::B2)),
            0x55 => Some(Instruction::BIT(PrefixTarget::L, BitPosition::B2)),
            0x56 => Some(Instruction::BIT(PrefixTarget::HLI, BitPosition::B2)),
            0x57 => Some(Instruction::BIT(PrefixTarget::A, BitPosition::B2)),

            0x58 => Some(Instruction::BIT(PrefixTarget::B, BitPosition::B3)),
            0x59 => Some(Instruction::BIT(PrefixTarget::C, BitPosition::B3)),
            0x5a => Some(Instruction::BIT(PrefixTarget::D, BitPosition::B3)),
            0x5b => Some(Instruction::BIT(PrefixTarget::E, BitPosition::B3)),
            0x5c => Some(Instruction::BIT(PrefixTarget::H, BitPosition::B3)),
            0x5d => Some(Instruction::BIT(PrefixTarget::L, BitPosition::B3)),
            0x5e => Some(Instruction::BIT(PrefixTarget::HLI, BitPosition::B3)),
            0x5f => Some(Instruction::BIT(PrefixTarget::A, BitPosition::B3)),

            0x60 => Some(Instruction::BIT(PrefixTarget::B, BitPosition::B4)),
            0x61 => Some(Instruction::BIT(PrefixTarget::C, BitPosition::B4)),
            0x62 => Some(Instruction::BIT(PrefixTarget::D, BitPosition::B4)),
            0x63 => Some(Instruction::BIT(PrefixTarget::E, BitPosition::B4)),
            0x64 => Some(Instruction::BIT(PrefixTarget::H, BitPosition::B4)),
            0x65 => Some(Instruction::BIT(PrefixTarget::L, BitPosition::B4)),
            0x66 => Some(Instruction::BIT(PrefixTarget::HLI, BitPosition::B4)),
            0x67 => Some(Instruction::BIT(PrefixTarget::A, BitPosition::B4)),

            0x68 => Some(Instruction::BIT(PrefixTarget::B, BitPosition::B5)),
            0x69 => Some(Instruction::BIT(PrefixTarget::C, BitPosition::B5)),
            0x6a => Some(Instruction::BIT(PrefixTarget::D, BitPosition::B5)),
            0x6b => Some(Instruction::BIT(PrefixTarget::E, BitPosition::B5)),
            0x6c => Some(Instruction::BIT(PrefixTarget::H, BitPosition::B5)),
            0x6d => Some(Instruction::BIT(PrefixTarget::L, BitPosition::B5)),
            0x6e => Some(Instruction::BIT(PrefixTarget::HLI, BitPosition::B5)),
            0x6f => Some(Instruction::BIT(PrefixTarget::A, BitPosition::B5)),

            0x70 => Some(Instruction::BIT(PrefixTarget::B, BitPosition::B6)),
            0x71 => Some(Instruction::BIT(PrefixTarget::C, BitPosition::B6)),
            0x72 => Some(Instruction::BIT(PrefixTarget::D, BitPosition::B6)),
            0x73 => Some(Instruction::BIT(PrefixTarget::E, BitPosition::B6)),
            0x74 => Some(Instruction::BIT(PrefixTarget::H, BitPosition::B6)),
            0x75 => Some(Instruction::BIT(PrefixTarget::L, BitPosition::B6)),
            0x76 => Some(Instruction::BIT(PrefixTarget::HLI, BitPosition::B6)),
            0x77 => Some(Instruction::BIT(PrefixTarget::A, BitPosition::B6)),

            0x78 => Some(Instruction::BIT(PrefixTarget::B, BitPosition::B7)),
            0x79 => Some(Instruction::BIT(PrefixTarget::C, BitPosition::B7)),
            0x7a => Some(Instruction::BIT(PrefixTarget::D, BitPosition::B7)),
            0x7b => Some(Instruction::BIT(PrefixTarget::E, BitPosition::B7)),
            0x7c => Some(Instruction::BIT(PrefixTarget::H, BitPosition::B7)),
            0x7d => Some(Instruction::BIT(PrefixTarget::L, BitPosition::B7)),
            0x7e => Some(Instruction::BIT(PrefixTarget::HLI, BitPosition::B7)),
            0x7f => Some(Instruction::BIT(PrefixTarget::A, BitPosition::B7)),

            0x80 => Some(Instruction::RES(PrefixTarget::B, BitPosition::B0)),
            0x81 => Some(Instruction::RES(PrefixTarget::C, BitPosition::B0)),
            0x82 => Some(Instruction::RES(PrefixTarget::D, BitPosition::B0)),
            0x83 => Some(Instruction::RES(PrefixTarget::E, BitPosition::B0)),
            0x84 => Some(Instruction::RES(PrefixTarget::H, BitPosition::B0)),
            0x85 => Some(Instruction::RES(PrefixTarget::L, BitPosition::B0)),
            0x86 => Some(Instruction::RES(PrefixTarget::HLI, BitPosition::B0)),
            0x87 => Some(Instruction::RES(PrefixTarget::A, BitPosition::B0)),

            0x88 => Some(Instruction::RES(PrefixTarget::B, BitPosition::B1)),
            0x89 => Some(Instruction::RES(PrefixTarget::C, BitPosition::B1)),
            0x8a => Some(Instruction::RES(PrefixTarget::D, BitPosition::B1)),
            0x8b => Some(Instruction::RES(PrefixTarget::E, BitPosition::B1)),
            0x8c => Some(Instruction::RES(PrefixTarget::H, BitPosition::B1)),
            0x8d => Some(Instruction::RES(PrefixTarget::L, BitPosition::B1)),
            0x8e => Some(Instruction::RES(PrefixTarget::HLI, BitPosition::B1)),
            0x8f => Some(Instruction::RES(PrefixTarget::A, BitPosition::B1)),

            0x90 => Some(Instruction::RES(PrefixTarget::B, BitPosition::B2)),
            0x91 => Some(Instruction::RES(PrefixTarget::C, BitPosition::B2)),
            0x92 => Some(Instruction::RES(PrefixTarget::D, BitPosition::B2)),
            0x93 => Some(Instruction::RES(PrefixTarget::E, BitPosition::B2)),
            0x94 => Some(Instruction::RES(PrefixTarget::H, BitPosition::B2)),
            0x95 => Some(Instruction::RES(PrefixTarget::L, BitPosition::B2)),
            0x96 => Some(Instruction::RES(PrefixTarget::HLI, BitPosition::B2)),
            0x97 => Some(Instruction::RES(PrefixTarget::A, BitPosition::B2)),

            0x98 => Some(Instruction::RES(PrefixTarget::B, BitPosition::B3)),
            0x99 => Some(Instruction::RES(PrefixTarget::C, BitPosition::B3)),
            0x9a => Some(Instruction::RES(PrefixTarget::D, BitPosition::B3)),
            0x9b => Some(Instruction::RES(PrefixTarget::E, BitPosition::B3)),
            0x9c => Some(Instruction::RES(PrefixTarget::H, BitPosition::B3)),
            0x9d => Some(Instruction::RES(PrefixTarget::L, BitPosition::B3)),
            0x9e => Some(Instruction::RES(PrefixTarget::HLI, BitPosition::B3)),
            0x9f => Some(Instruction::RES(PrefixTarget::A, BitPosition::B3)),

            0xa0 => Some(Instruction::RES(PrefixTarget::B, BitPosition::B4)),
            0xa1 => Some(Instruction::RES(PrefixTarget::C, BitPosition::B4)),
            0xa2 => Some(Instruction::RES(PrefixTarget::D, BitPosition::B4)),
            0xa3 => Some(Instruction::RES(PrefixTarget::E, BitPosition::B4)),
            0xa4 => Some(Instruction::RES(PrefixTarget::H, BitPosition::B4)),
            0xa5 => Some(Instruction::RES(PrefixTarget::L, BitPosition::B4)),
            0xa6 => Some(Instruction::RES(PrefixTarget::HLI, BitPosition::B4)),
            0xa7 => Some(Instruction::RES(PrefixTarget::A, BitPosition::B4)),

            0xa8 => Some(Instruction::RES(PrefixTarget::B, BitPosition::B5)),
            0xa9 => Some(Instruction::RES(PrefixTarget::C, BitPosition::B5)),
            0xaa => Some(Instruction::RES(PrefixTarget::D, BitPosition::B5)),
            0xab => Some(Instruction::RES(PrefixTarget::E, BitPosition::B5)),
            0xac => Some(Instruction::RES(PrefixTarget::H, BitPosition::B5)),
            0xad => Some(Instruction::RES(PrefixTarget::L, BitPosition::B5)),
            0xae => Some(Instruction::RES(PrefixTarget::HLI, BitPosition::B5)),
            0xaf => Some(Instruction::RES(PrefixTarget::A, BitPosition::B5)),

            0xb0 => Some(Instruction::RES(PrefixTarget::B, BitPosition::B6)),
            0xb1 => Some(Instruction::RES(PrefixTarget::C, BitPosition::B6)),
            0xb2 => Some(Instruction::RES(PrefixTarget::D, BitPosition::B6)),
            0xb3 => Some(Instruction::RES(PrefixTarget::E, BitPosition::B6)),
            0xb4 => Some(Instruction::RES(PrefixTarget::H, BitPosition::B6)),
            0xb5 => Some(Instruction::RES(PrefixTarget::L, BitPosition::B6)),
            0xb6 => Some(Instruction::RES(PrefixTarget::HLI, BitPosition::B6)),
            0xb7 => Some(Instruction::RES(PrefixTarget::A, BitPosition::B6)),

            0xb8 => Some(Instruction::RES(PrefixTarget::B, BitPosition::B7)),
            0xb9 => Some(Instruction::RES(PrefixTarget::C, BitPosition::B7)),
            0xba => Some(Instruction::RES(PrefixTarget::D, BitPosition::B7)),
            0xbb => Some(Instruction::RES(PrefixTarget::E, BitPosition::B7)),
            0xbc => Some(Instruction::RES(PrefixTarget::H, BitPosition::B7)),
            0xbd => Some(Instruction::RES(PrefixTarget::L, BitPosition::B7)),
            0xbe => Some(Instruction::RES(PrefixTarget::HLI, BitPosition::B7)),
            0xbf => Some(Instruction::RES(PrefixTarget::A, BitPosition::B7)),

            0xc0 => Some(Instruction::SET(PrefixTarget::B, BitPosition::B0)),
            0xc1 => Some(Instruction::SET(PrefixTarget::C, BitPosition::B0)),
            0xc2 => Some(Instruction::SET(PrefixTarget::D, BitPosition::B0)),
            0xc3 => Some(Instruction::SET(PrefixTarget::E, BitPosition::B0)),
            0xc4 => Some(Instruction::SET(PrefixTarget::H, BitPosition::B0)),
            0xc5 => Some(Instruction::SET(PrefixTarget::L, BitPosition::B0)),
            0xc6 => Some(Instruction::SET(PrefixTarget::HLI, BitPosition::B0)),
            0xc7 => Some(Instruction::SET(PrefixTarget::A, BitPosition::B0)),

            0xc8 => Some(Instruction::SET(PrefixTarget::B, BitPosition::B1)),
            0xc9 => Some(Instruction::SET(PrefixTarget::C, BitPosition::B1)),
            0xca => Some(Instruction::SET(PrefixTarget::D, BitPosition::B1)),
            0xcb => Some(Instruction::SET(PrefixTarget::E, BitPosition::B1)),
            0xcc => Some(Instruction::SET(PrefixTarget::H, BitPosition::B1)),
            0xcd => Some(Instruction::SET(PrefixTarget::L, BitPosition::B1)),
            0xce => Some(Instruction::SET(PrefixTarget::HLI, BitPosition::B1)),
            0xcf => Some(Instruction::SET(PrefixTarget::A, BitPosition::B1)),

            0xd0 => Some(Instruction::SET(PrefixTarget::B, BitPosition::B2)),
            0xd1 => Some(Instruction::SET(PrefixTarget::C, BitPosition::B2)),
            0xd2 => Some(Instruction::SET(PrefixTarget::D, BitPosition::B2)),
            0xd3 => Some(Instruction::SET(PrefixTarget::E, BitPosition::B2)),
            0xd4 => Some(Instruction::SET(PrefixTarget::H, BitPosition::B2)),
            0xd5 => Some(Instruction::SET(PrefixTarget::L, BitPosition::B2)),
            0xd6 => Some(Instruction::SET(PrefixTarget::HLI, BitPosition::B2)),
            0xd7 => Some(Instruction::SET(PrefixTarget::A, BitPosition::B2)),

            0xd8 => Some(Instruction::SET(PrefixTarget::B, BitPosition::B3)),
            0xd9 => Some(Instruction::SET(PrefixTarget::C, BitPosition::B3)),
            0xda => Some(Instruction::SET(PrefixTarget::D, BitPosition::B3)),
            0xdb => Some(Instruction::SET(PrefixTarget::E, BitPosition::B3)),
            0xdc => Some(Instruction::SET(PrefixTarget::H, BitPosition::B3)),
            0xdd => Some(Instruction::SET(PrefixTarget::L, BitPosition::B3)),
            0xde => Some(Instruction::SET(PrefixTarget::HLI, BitPosition::B3)),
            0xdf => Some(Instruction::SET(PrefixTarget::A, BitPosition::B3)),

            0xe0 => Some(Instruction::SET(PrefixTarget::B, BitPosition::B4)),
            0xe1 => Some(Instruction::SET(PrefixTarget::C, BitPosition::B4)),
            0xe2 => Some(Instruction::SET(PrefixTarget::D, BitPosition::B4)),
            0xe3 => Some(Instruction::SET(PrefixTarget::E, BitPosition::B4)),
            0xe4 => Some(Instruction::SET(PrefixTarget::H, BitPosition::B4)),
            0xe5 => Some(Instruction::SET(PrefixTarget::L, BitPosition::B4)),
            0xe6 => Some(Instruction::SET(PrefixTarget::HLI, BitPosition::B4)),
            0xe7 => Some(Instruction::SET(PrefixTarget::A, BitPosition::B4)),

            0xe8 => Some(Instruction::SET(PrefixTarget::B, BitPosition::B5)),
            0xe9 => Some(Instruction::SET(PrefixTarget::C, BitPosition::B5)),
            0xea => Some(Instruction::SET(PrefixTarget::D, BitPosition::B5)),
            0xeb => Some(Instruction::SET(PrefixTarget::E, BitPosition::B5)),
            0xec => Some(Instruction::SET(PrefixTarget::H, BitPosition::B5)),
            0xed => Some(Instruction::SET(PrefixTarget::L, BitPosition::B5)),
            0xee => Some(Instruction::SET(PrefixTarget::HLI, BitPosition::B5)),
            0xef => Some(Instruction::SET(PrefixTarget::A, BitPosition::B5)),

            0xf0 => Some(Instruction::SET(PrefixTarget::B, BitPosition::B6)),
            0xf1 => Some(Instruction::SET(PrefixTarget::C, BitPosition::B6)),
            0xf2 => Some(Instruction::SET(PrefixTarget::D, BitPosition::B6)),
            0xf3 => Some(Instruction::SET(PrefixTarget::E, BitPosition::B6)),
            0xf4 => Some(Instruction::SET(PrefixTarget::H, BitPosition::B6)),
            0xf5 => Some(Instruction::SET(PrefixTarget::L, BitPosition::B6)),
            0xf6 => Some(Instruction::SET(PrefixTarget::HLI, BitPosition::B6)),
            0xf7 => Some(Instruction::SET(PrefixTarget::A, BitPosition::B6)),

            0xf8 => Some(Instruction::SET(PrefixTarget::B, BitPosition::B7)),
            0xf9 => Some(Instruction::SET(PrefixTarget::C, BitPosition::B7)),
            0xfa => Some(Instruction::SET(PrefixTarget::D, BitPosition::B7)),
            0xfb => Some(Instruction::SET(PrefixTarget::E, BitPosition::B7)),
            0xfc => Some(Instruction::SET(PrefixTarget::H, BitPosition::B7)),
            0xfd => Some(Instruction::SET(PrefixTarget::L, BitPosition::B7)),
            0xfe => Some(Instruction::SET(PrefixTarget::HLI, BitPosition::B7)),
            0xff => Some(Instruction::SET(PrefixTarget::A, BitPosition::B7)),
        }
    }

    /// Decodes a byte of the base table.
    #[verifier::rlimit(50)]
    pub fn from_byte_not_prefixed(byte: u8) -> (instruction: Option<Instruction>)
        ensures
            instruction == spec_from_byte_not_prefixed(byte),
            instruction is None <==> is_undefined_opcode(byte) || byte == 0xCB,
    {
        match byte {
            0x00 => Some(Instruction::NOP),

            0x01 => Some(Instruction::LD(LoadType::Word(LoadWordTarget::BC))),
            0x11 => Some(Instruction::LD(LoadType::Word(LoadWordTarget::DE))),
            0x21 => Some(Instruction::LD(LoadType::Word(LoadWordTarget::HL))),
            0x31 => Some(Instruction::LD(LoadType::Word(LoadWordTarget::SP))),

            0x02 => Some(Instruction::LD(LoadType::IndirectFromA(Indirect::BCIndirect))),
            0x12 => Some(Instruction::LD(LoadType::IndirectFromA(Indirect::DEIndirect))),
            0x22 => Some(Instruction::LD(LoadType::IndirectFromA(Indirect::HLIndirectPlus))),
            0x32 => Some(Instruction::LD(LoadType::IndirectFromA(Indirect::HLIndirectMinus))),
            0xe2 => Some(Instruction::LD(LoadType::IndirectFromA(Indirect::LastByteIndirect))),
            0xea => Some(Instruction::LD(LoadType::IndirectFromA(Indirect::WordIndirect))),

            0x03 => Some(Instruction::INC(IncDecTarget::BC)),
            0x04 => Some(Instruction::INC(IncDecTarget::B)),
            0x0c => Some(Instruction::INC(IncDecTarget::C)),
            0x13 => Some(Instruction::INC(IncDecTarget::DE)),
            0x14 => Some(Instruction::INC(IncDecTarget::D)),
            0x1c => Some(Instruction::INC(IncDecTarget::E)),
            0x23 => Some(Instruction::INC(IncDecTarget::HL)),
            0x24 => Some(Instruction::INC(IncDecTarget::H)),
            0x2c => Some(Instruction::INC(IncDecTarget::L)),
            0x33 => Some(Instruction::INC(IncDecTarget::SP)),
            0x34 => Some(Instruction::INC(IncDecTarget::HLI)),
            0x3c => Some(Instruction::INC(IncDecTarget::A)),

            0x05 => Some(Instruction::DEC(IncDecTarget::B)),
            0x0b => Some(Instruction::DEC(IncDecTarget::BC)),
            0x0d => Some(Instruction::DEC(IncDecTarget::C)),
            0x15 => Some(Instruction::DEC(IncDecTarget::D)),
            0x1b => Some(Instruction::DEC(IncDecTarget::DE)),
            0x1d => Some(Instruction::DEC(IncDecTarget::E)),
            0x25 => Some(Instruction::DEC(IncDecTarget::H)),
            0x2b => Some(Instruction::DEC(IncDecTarget::HL)),
            0x2d => Some(Instruction::DEC(IncDecTarget::L)),
            0x35 => Some(Instruction::DEC(IncDecTarget::HLI)),
            0x3b => Some(Instruction::DEC(IncDecTarget::SP)),
            0x3d => Some(Instruction::DEC(IncDecTarget::A)),

            0x06 => Some(Instruction::LD(LoadType::Byte(LoadByteTarget::B, LoadByteSource::D8))),
            0x0e => Some(Instruction::LD(LoadType::Byte(LoadByteTarget::C, LoadByteSource::D8))),
            0x16 => Some(Instruction::LD(LoadType::Byte(LoadByteTarget::D, LoadByteSource::D8))),
            0x1e => Some(Instruction::LD(LoadType::Byte(LoadByteTarget::E, LoadByteSource::D8))),
            0x26 => Some(Instruction::LD(LoadType::Byte(LoadByteTarget::H, LoadByteSource::D8))),
            0x2e => Some(Instruction::LD(LoadType::Byte(LoadByteTarget::L, LoadByteSource::D8))),
            0x36 => Some(Instruction::LD(LoadType::Byte(LoadByteTarget::HLI, LoadByteSource::D8))),
            0x3e => Some(Instruction::LD(LoadType::Byte(LoadByteTarget::A, LoadByteSource::D8))),
            0x40 => Some(Instruction::LD(LoadType::Byte(LoadByteTarget::B, LoadByteSource::B))),
            0x41 => Some(Instruction::LD(LoadType::Byte(LoadByteTarget::B, LoadByteSource::C))),
            0x42 => Some(Instruction::LD(LoadType::Byte(LoadByteTarget::B, LoadByteSource::D))),
            0x43 => Some(Instruction::LD(LoadType::Byte(LoadByteTarget::B, LoadByteSource::E))),
            0x44 => Some(Instruction::LD(LoadType::Byte(LoadByteTarget::B, LoadByteSource::H))),
            0x45 => Some(Instruction::LD(LoadType::Byte(LoadByteTarget::B, LoadByteSource::L))),
            0x46 => Some(Instruction::LD(LoadType::Byte(LoadByteTarget::B, LoadByteSource::HLI))),
            0x47 => Some(Instruction::LD(LoadType::Byte(LoadByteTarget::B, LoadByteSource::A))),
            0x48 => Some(Instruction::LD(LoadType::Byte(LoadByteTarget::C, LoadByteSource::B))),
            0x49 => Some(Instruction::LD(LoadType::Byte(LoadByteTarget::C, LoadByteSource::C))),
            0x4a => Some(Instruction::LD(LoadType::Byte(LoadByteTarget::C, LoadByteSource::D))),
            0x4b => Some(Instruction::LD(LoadType::Byte(LoadByteTarget::C, LoadByteSource::E))),
            0x4c => Some(Instruction::LD(LoadType::Byte(LoadByteTarget::C, LoadByteSource::H))),
            0x4d => Some(Instruction::LD(LoadType::Byte(LoadByteTarget::C, LoadByteSource::L))),
            0x4e => Some(Instruction::LD(LoadType::Byte(LoadByteTarget::C, LoadByteSource::HLI))),
            0x4f => Some(Instruction::LD(LoadType::Byte(LoadByteTarget::C, LoadByteSource::A))),
            0x50 => Some(Instruction::LD(LoadType::Byte(LoadByteTarget::D, LoadByteSource::B))),
            0x51 => Some(Instruction::LD(LoadType::Byte(LoadByteTarget::D, LoadByteSource::C))),
            0x52 => Some(Instruction::LD(LoadType::Byte(LoadByteTarget::D, LoadByteSource::D))),
            0x53 => Some(Instruction::LD(LoadType::Byte(LoadByteTarget::D, LoadByteSource::E))),
            0x54 => Some(Instruction::LD(LoadType::Byte(LoadByteTarget::D, LoadByteSource::H))),
            0x55 => Some(Instruction::LD(LoadType::Byte(LoadByteTarget::D, LoadByteSource::L))),
            0x56 => Some(Instruction::LD(LoadType::Byte(LoadByteTarget::D, LoadByteSource::HLI))),
            0x57 => Some(Instruction::LD(LoadType::Byte(LoadByteTarget::D, LoadByteSource::A))),
            0x58 => Some(Instruction::LD(LoadType::Byte(LoadByteTarget::E, LoadByteSource::B))),
            0x59 => Some(Instruction::LD(LoadType::Byte(LoadByteTarget::E, LoadByteSource::C))),
            0x5a => Some(Instruction::LD(LoadType::Byte(LoadByteTarget::E, LoadByteSource::D))),
            0x5b => Some(Instruction::LD(LoadType::Byte(LoadByteTarget::E, LoadByteSource::E))),
            0x5c => Some(Instruction::LD(LoadType::Byte(LoadByteTarget::E, LoadByteSource::H))),
            0x5d => Some(Instruction::LD(LoadType::Byte(LoadByteTarget::E, LoadByteSource::L))),
            0x5e => Some(Instruction::LD(LoadType::Byte(LoadByteTarget::E, LoadByteSource::HLI))),
            0x5f => Some(Instruction::LD(LoadType::Byte(LoadByteTarget::E, LoadByteSource::A))),
            0x60 => Some(Instruction::LD(LoadType::Byte(LoadByteTarget::H, LoadByteSource::B))),
            0x61 => Some(Instruction::LD(LoadType::Byte(LoadByteTarget::H, LoadByteSource::C))),
            0x62 => Some(Instruction::LD(LoadType::Byte(LoadByteTarget::H, LoadByteSource::D))),
            0x63 => Some(Instruction::LD(LoadType::Byte(LoadByteTarget::H, LoadByteSource::E))),
            0x64 => Some(Instruction::LD(LoadType::Byte(LoadByteTarget::H, LoadByteSource::H))),
            0x65 => Some(Instruction::LD(LoadType::Byte(LoadByteTarget::H, LoadByteSource::L))),
            0x66 => Some(Instruction::LD(LoadType::Byte(LoadByteTarget::H, LoadByteSource::HLI))),
            0x67 => Some(Instruction::LD(LoadType::Byte(LoadByteTarget::H, LoadByteSource::A))),
            0x68 => Some(Instruction::LD(LoadType::Byte(LoadByteTarget::L, LoadByteSource::B))),
            0x69 => Some(Instruction::LD(LoadType::Byte(LoadByteTarget::L, LoadByteSource::C))),
            0x6a => Some(Instruction::LD(LoadType::Byte(LoadByteTarget::L, LoadByteSource::D))),
            0x6b => Some(Instruction::LD(LoadType::Byte(LoadByteTarget::L, LoadByteSource::E))),
            0x6c => Some(Instruction::LD(LoadType::Byte(LoadByteTarget::L, LoadByteSource::H))),
            0x6d => Some(Instruction::LD(LoadType::Byte(LoadByteTarget::L, LoadByteSource::L))),
            0x6e => Some(Instruction::LD(LoadType::Byte(LoadByteTarget::L, LoadByteSource::HLI))),
            0x6f => Some(Instruction::LD(LoadType::Byte(LoadByteTarget::L, LoadByteSource::A))),
            0x70 => Some(Instruction::LD(LoadType::Byte(LoadByteTarget::HLI, LoadByteSource::B))),
            0x71 => Some(Instruction::LD(LoadType::Byte(LoadByteTarget::HLI, LoadByteSource::C))),
            0x72 => Some(Instruction::LD(LoadType::Byte(LoadByteTarget::HLI, LoadByteSource::D))),
            0x73 => Some(Instruction::LD(LoadType::Byte(LoadByteTarget::HLI, LoadByteSource::E))),
            0x74 => Some(Instruction::LD(LoadType::Byte(LoadByteTarget::HLI, LoadByteSource::H))),
            0x75 => Some(Instruction::LD(LoadType::Byte(LoadByteTarget::HLI, LoadByteSource::L))),
            0x77 => Some(Instruction::LD(LoadType::Byte(LoadByteTarget::HLI, LoadByteSource::A))),
            0x78 => Some(Instruction::LD(LoadType::Byte(LoadByteTarget::A, LoadByteSource::B))),
            0x79 => Some(Instruction::LD(LoadType::Byte(LoadByteTarget::A, LoadByteSource::C))),
            0x7a => Some(Instruction::LD(LoadType::Byte(LoadByteTarget::A, LoadByteSource::D))),
            0x7b => Some(Instruction::LD(LoadType::Byte(LoadByteTarget::A, LoadByteSource::E))),
            0x7c => Some(Instruction::LD(LoadType::Byte(LoadByteTarget::A, LoadByteSource::H))),
            0x7d => Some(Instruction::LD(LoadType::Byte(LoadByteTarget::A, LoadByteSource::L))),
            0x7e => Some(Instruction::LD(LoadType::Byte(LoadByteTarget::A, LoadByteSource::HLI))),
            0x7f => Some(Instruction::LD(LoadType::Byte(LoadByteTarget::A, LoadByteSource::A))),

            0x07 => Some(Instruction::RLCA),

            0x08 => Some(Instruction::LD(LoadType::IndirectFromSP)),

            0x09 => Some(Instruction::ADDHL(ADDHLTarget::BC)),
            0x19 => Some(Instruction::ADDHL(ADDHLTarget::DE)),
            0x29 => Some(Instruction::ADDHL(ADDHLTarget::HL)),
            0x39 => Some(Instruction::ADDHL(ADDHLTarget::SP)),

            0x0a => Some(Instruction::LD(LoadType::AFromIndirect(Indirect::BCIndirect))),
            0x1a => Some(Instruction::LD(LoadType::AFromIndirect(Indirect::DEIndirect))),
            0x2a => Some(Instruction::LD(LoadType::AFromIndirect(Indirect::HLIndirectPlus))),
            0x3a => Some(Instruction::LD(LoadType::AFromIndirect(Indirect::HLIndirectMinus))),
            0xf2 => Some(Instruction::LD(LoadType::AFromIndirect(Indirect::LastByteIndirect))),
            0xfa => Some(Instruction::LD(LoadType::AFromIndirect(Indirect::WordIndirect))),

            0x0f => Some(Instruction::RRCA),

            0x10 => Some(Instruction::STOP),

            0x17 => Some(Instruction::RLA),

            0x18 => Some(Instruction::JR(JumpTest::Always)),
            0x20 => Some(Instruction::JR(JumpTest::NotZero)),
            0x28 => Some(Instruction::JR(JumpTest::Zero)),
            0x30 => Some(Instruction::JR(JumpTest::NotCarry)),
            0x38 => Some(Instruction::JR(JumpTest::Carry)),

            0x1f => Some(Instruction::RRA),

            0x27 => Some(Instruction::DAA),

            0x2f => Some(Instruction::CPL),

            0x37 => Some(Instruction::SCF),

            0x3f => Some(Instruction::CCF),

            0x76 => Some(Instruction::HALT),

            0x80 => Some(Instruction::ADD(ArithmeticTarget::B)),
            0x81 => Some(Instruction::ADD(ArithmeticTarget::C)),
            0x82 => Some(Instruction::ADD(ArithmeticTarget::D)),
            0x83 => Some(Instruction::ADD(ArithmeticTarget::E)),
            0x84 => Some(Instruction::ADD(ArithmeticTarget::H)),
            0x85 => Some(Instruction::ADD(ArithmeticTarget::L)),
            0x86 => Some(Instruction::ADD(ArithmeticTarget::HLI)),
            0x87 => Some(Instruction::ADD(ArithmeticTarget::A)),
            0xc6 => Some(Instruction::ADD(ArithmeticTarget::D8)),

            0x88 => Some(Instruction::ADC(ArithmeticTarget::B)),
            0x89 => Some(Instruction::ADC(ArithmeticTarget::C)),
            0x8a => Some(Instruction::ADC(ArithmeticTarget::D)),
            0x8b => Some(Instruction::ADC(ArithmeticTarget::E)),
            0x8c => Some(Instruction::ADC(ArithmeticTarget::H)),
            0x8d => Some(Instruction::ADC(ArithmeticTarget::L)),
            0x8e => Some(Instruction::ADC(ArithmeticTarget::HLI)),
            0x8f => Some(Instruction::ADC(ArithmeticTarget::A)),
            0xce => Some(Instruction::ADC(ArithmeticTarget::D8)),

            0x90 => Some(Instruction::SUB(ArithmeticTarget::B)),
            0x91 => Some(Instruction::SUB(ArithmeticTarget::C)),
            0x92 => Some(Instruction::SUB(ArithmeticTarget::D)),
            0x93 => Some(Instruction::SUB(ArithmeticTarget::E)),
            0x94 => Some(Instruction::SUB(ArithmeticTarget::H)),
            0x95 => Some(Instruction::SUB(ArithmeticTarget::L)),
            0x96 => Some(Instruction::SUB(ArithmeticTarget::HLI)),
            0x97 => Some(Instruction::SUB(ArithmeticTarget::A)),
            0xd6 => Some(Instruction::SUB(ArithmeticTarget::D8)),

            0x98 => Some(Instruction::SBC(ArithmeticTarget::B)),
            0x99 => Some(Instruction::SBC(ArithmeticTarget::C)),
            0x9a => Some(Instruction::SBC(ArithmeticTarget::D)),
            0x9b => Some(Instruction::SBC(ArithmeticTarget::E)),
            0x9c => Some(Instruction::SBC(ArithmeticTarget::H)),
            0x9d => Some(Instruction::SBC(ArithmeticTarget::L)),
            0x9e => Some(Instruction::SBC(ArithmeticTarget::HLI)),
            0x9f => Some(Instruction::SBC(ArithmeticTarget::A)),
            0xde => Some(Instruction::SBC(ArithmeticTarget::D8)),

            0xa0 => Some(Instruction::AND(ArithmeticTarget::B)),
            0xa1 => Some(Instruction::AND(ArithmeticTarget::C)),
            0xa2 => Some(Instruction::AND(ArithmeticTarget::D)),
            0xa3 => Some(Instruction::AND(ArithmeticTarget::E)),
            0xa4 => Some(Instruction::AND(ArithmeticTarget::H)),
            0xa5 => Some(Instruction::AND(ArithmeticTarget::L)),
            0xa6 => Some(Instruction::AND(ArithmeticTarget::HLI)),
            0xa7 => Some(Instruction::AND(ArithmeticTarget::A)),
            0xe6 => Some(Instruction::AND(ArithmeticTarget::D8)),

            0xa8 => Some(Instruction::XOR(ArithmeticTarget::B)),
            0xa9 => Some(Instruction::XOR(ArithmeticTarget::C)),
            0xaa => Some(Instruction::XOR(ArithmeticTarget::D)),
            0xab => Some(Instruction::XOR(ArithmeticTarget::E)),
            0xac => Some(Instruction::XOR(ArithmeticTarget::H)),
            0xad => Some(Instruction::XOR(ArithmeticTarget::L)),
            0xae => Some(Instruction::XOR(ArithmeticTarget::HLI)),
            0xaf => Some(Instruction::XOR(ArithmeticTarget::A)),
            0xee => Some(Instruction::XOR(ArithmeticTarget::D8)),

            0xb0 => Some(Instruction::OR(ArithmeticTarget::B)),
            0xb1 => Some(Instruction::OR(ArithmeticTarget::C)),
            0xb2 => Some(Instruction::OR(ArithmeticTarget::D)),
            0xb3 => Some(Instruction::OR(ArithmeticTarget::E)),
            0xb4 => Some(Instruction::OR(ArithmeticTarget::H)),
            0xb5 => Some(Instruction::OR(ArithmeticTarget::L)),
            0xb6 => Some(Instruction::OR(ArithmeticTarget::HLI)),
            0xb7 => Some(Instruction::OR(ArithmeticTarget::A)),
            0xf6 => Some(Instruction::OR(ArithmeticTarget::D8)),

            0xb8 => Some(Instruction::CP(ArithmeticTarget::B)),
            0xb9 => Some(Instruction::CP(ArithmeticTarget::C)),
            0xba => Some(Instruction::CP(ArithmeticTarget::D)),
            0xbb => Some(Instruction::CP(ArithmeticTarget::E)),
            0xbc => Some(Instruction::CP(ArithmeticTarget::H)),
            0xbd => Some(Instruction::CP(ArithmeticTarget::L)),
            0xbe => Some(Instruction::CP(ArithmeticTarget::HLI)),
            0xbf => Some(Instruction::CP(ArithmeticTarget::A)),
            0xfe => Some(Instruction::CP(ArithmeticTarget::D8)),

            0xc0 => Some(Instruction::RET(JumpTest::NotZero)),
            0xc8 => Some(Instruction::RET(JumpTest::Zero)),
            0xc9 => Some(Instruction::RET(JumpTest::Always)),
            0xd0 => Some(Instruction::RET(JumpTest::NotCarry)),
            0xd8 => Some(Instruction::RET(JumpTest::Carry)),

            0xc1 => Some(Instruction::POP(StackTarget::BC)),
            0xd1 => Some(Instruction::POP(StackTarget::DE)),
            0xe1 => Some(Instruction::POP(StackTarget::HL)),
            0xf1 => Some(Instruction::POP(StackTarget::AF)),

            0xc2 => Some(Instruction::JP(JumpTest::NotZero)),
            0xc3 => Some(Instruction::JP(JumpTest::Always)),
            0xca => Some(Instruction::JP(JumpTest::Zero)),
            0xd2 => Some(Instruction::JP(JumpTest::NotCarry)),
            0xda => Some(Instruction::JP(JumpTest::Carry)),

            0xc4 => Some(Instruction::CALL(JumpTest::NotZero)),
            0xcc => Some(Instruction::CALL(JumpTest::Zero)),
            0xcd => Some(Instruction::CALL(JumpTest::Always)),
            0xd4 => Some(Instruction::CALL(JumpTest::NotCarry)),
            0xdc => Some(Instruction::CALL(JumpTest::Carry)),

            0xc5 => Some(Instruction::PUSH(StackTarget::BC)),
            0xd5 => Some(Instruction::PUSH(StackTarget::DE)),
            0xe5 => Some(Instruction::PUSH(StackTarget::HL)),
            0xf5 => Some(Instruction::PUSH(StackTarget::AF)),

            0xc7 => Some(Instruction::RST(RSTLocation::X00)),
            0xcf => Some(Instruction::RST(RSTLocation::X08)),
            0xd7 => Some(Instruction::RST(RSTLocation::X10)),
            0xdf => Some(Instruction::RST(RSTLocation::X18)),
            0xe7 => Some(Instruction::RST(RSTLocation::X20)),
            0xef => Some(Instruction::RST(RSTLocation::X28)),
            0xf7 => Some(Instruction::RST(RSTLocation::X30)),
            0xff => Some(Instruction::RST(RSTLocation::X38)),

            0xd9 => Some(Instruction::RETI),

            0xe0 => Some(Instruction::LD(LoadType::ByteAddressFromA)),

            0xe8 => Some(Instruction::ADDSP),

            0xe9 => Some(Instruction::JPI),

            0xf0 => Some(Instruction::LD(LoadType::AFromByteAddress)),

            0xf3 => Some(Instruction::DI),

            0xf8 => Some(Instruction::LD(LoadType::HLFromSPN)),

            0xf9 => Some(Instruction::LD(LoadType::SPFromHL)),

            0xfb => Some(Instruction::EI),

            _ => None,
        }
    }
}

} // verus!
