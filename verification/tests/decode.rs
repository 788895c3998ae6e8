use dmg_01::cpu::instruction::{
    ADDHLTarget, ArithmeticTarget, BitPosition, IncDecTarget, Indirect, Instruction, JumpTest,
    LoadByteSource, LoadByteTarget, LoadType, LoadWordTarget, PrefixTarget, RSTLocation,
    StackTarget,
};

#[test]
fn undefined_opcodes_decode_to_nothing() {
    for byte in [0xD3u8, 0xDB, 0xDD, 0xE3, 0xE4, 0xEB, 0xEC, 0xED, 0xF4, 0xFC, 0xFD] {
        assert_eq!(Instruction::from_byte(byte, false), None);
    }
}

#[test]
fn prefix_byte_alone_is_no_instruction() {
    assert_eq!(Instruction::from_byte(0xCB, false), None);
}

#[test]
fn base_table_has_244_instructions() {
    let defined = (0..=255u8).filter(|byte| Instruction::from_byte(*byte, false).is_some()).count();
    assert_eq!(defined, 244);
}

#[test]
fn every_prefixed_byte_decodes() {
    for byte in 0..=255u8 {
        assert!(Instruction::from_byte(byte, true).is_some());
    }
}

#[test]
fn decoding_is_a_function_of_its_arguments() {
    for byte in 0..=255u8 {
        assert_eq!(Instruction::from_byte(byte, false), Instruction::from_byte(byte, false));
        assert_eq!(Instruction::from_byte(byte, true), Instruction::from_byte(byte, true));
        assert_eq!(Instruction::from_byte(byte, true), Instruction::from_byte_prefixed(byte));
        assert_eq!(Instruction::from_byte(byte, false), Instruction::from_byte_not_prefixed(byte));
    }
}

#[test]
fn base_table_follows_the_canonical_assignment() {
    let cases = [
        (0x00, Instruction::NOP),
        (0x01, Instruction::LD(LoadType::Word(LoadWordTarget::BC))),
        (0x02, Instruction::LD(LoadType::IndirectFromA(Indirect::BCIndirect))),
        (0x03, Instruction::INC(IncDecTarget::BC)),
        (0x07, Instruction::RLCA),
        (0x08, Instruction::LD(LoadType::IndirectFromSP)),
        (0x09, Instruction::ADDHL(ADDHLTarget::BC)),
        (0x0A, Instruction::LD(LoadType::AFromIndirect(Indirect::BCIndirect))),
        (0x0B, Instruction::DEC(IncDecTarget::BC)),
        (0x0F, Instruction::RRCA),
        (0x10, Instruction::STOP),
        (0x17, Instruction::RLA),
        (0x18, Instruction::JR(JumpTest::Always)),
        (0x1F, Instruction::RRA),
        (0x20, Instruction::JR(JumpTest::NotZero)),
        (0x22, Instruction::LD(LoadType::IndirectFromA(Indirect::HLIndirectPlus))),
        (0x27, Instruction::DAA),
        (0x28, Instruction::JR(JumpTest::Zero)),
        (0x2A, Instruction::LD(LoadType::AFromIndirect(Indirect::HLIndirectPlus))),
        (0x2F, Instruction::CPL),
        (0x30, Instruction::JR(JumpTest::NotCarry)),
        (0x32, Instruction::LD(LoadType::IndirectFromA(Indirect::HLIndirectMinus))),
        (0x34, Instruction::INC(IncDecTarget::HLI)),
        (0x35, Instruction::DEC(IncDecTarget::HLI)),
        (0x36, Instruction::LD(LoadType::Byte(LoadByteTarget::HLI, LoadByteSource::D8))),
        (0x37, Instruction::SCF),
        (0x38, Instruction::JR(JumpTest::Carry)),
        (0x3A, Instruction::LD(LoadType::AFromIndirect(Indirect::HLIndirectMinus))),
        (0x3F, Instruction::CCF),
        (0x40, Instruction::LD(LoadType::Byte(LoadByteTarget::B, LoadByteSource::B))),
        (0x46, Instruction::LD(LoadType::Byte(LoadByteTarget::B, LoadByteSource::HLI))),
        (0x70, Instruction::LD(LoadType::Byte(LoadByteTarget::HLI, LoadByteSource::B))),
        (0x76, Instruction::HALT),
        (0x7F, Instruction::LD(LoadType::Byte(LoadByteTarget::A, LoadByteSource::A))),
        (0x80, Instruction::ADD(ArithmeticTarget::B)),
        (0x86, Instruction::ADD(ArithmeticTarget::HLI)),
        (0x8F, Instruction::ADC(ArithmeticTarget::A)),
        (0x90, Instruction::SUB(ArithmeticTarget::B)),
        (0x98, Instruction::SBC(ArithmeticTarget::B)),
        (0xA0, Instruction::AND(ArithmeticTarget::B)),
        (0xA8, Instruction::XOR(ArithmeticTarget::B)),
        (0xAF, Instruction::XOR(ArithmeticTarget::A)),
        (0xB0, Instruction::OR(ArithmeticTarget::B)),
        (0xB5, Instruction::OR(ArithmeticTarget::L)),
        (0xB8, Instruction::CP(ArithmeticTarget::B)),
        (0xC0, Instruction::RET(JumpTest::NotZero)),
        (0xC1, Instruction::POP(StackTarget::BC)),
        (0xC2, Instruction::JP(JumpTest::NotZero)),
        (0xC3, Instruction::JP(JumpTest::Always)),
        (0xC4, Instruction::CALL(JumpTest::NotZero)),
        (0xC5, Instruction::PUSH(StackTarget::BC)),
        (0xC6, Instruction::ADD(ArithmeticTarget::D8)),
        (0xC7, Instruction::RST(RSTLocation::X00)),
        (0xC9, Instruction::RET(JumpTest::Always)),
        (0xCD, Instruction::CALL(JumpTest::Always)),
        (0xCE, Instruction::ADC(ArithmeticTarget::D8)),
        (0xD6, Instruction::SUB(ArithmeticTarget::D8)),
        (0xD9, Instruction::RETI),
        (0xDE, Instruction::SBC(ArithmeticTarget::D8)),
        (0xE0, Instruction::LD(LoadType::ByteAddressFromA)),
        (0xE2, Instruction::LD(LoadType::IndirectFromA(Indirect::LastByteIndirect))),
        (0xE6, Instruction::AND(ArithmeticTarget::D8)),
        (0xE8, Instruction::ADDSP),
        (0xE9, Instruction::JPI),
        (0xEA, Instruction::LD(LoadType::IndirectFromA(Indirect::WordIndirect))),
        (0xEE, Instruction::XOR(ArithmeticTarget::D8)),
        (0xEF, Instruction::RST(RSTLocation::X28)),
        (0xF0, Instruction::LD(LoadType::AFromByteAddress)),
        (0xF1, Instruction::POP(StackTarget::AF)),
        (0xF2, Instruction::LD(LoadType::AFromIndirect(Indirect::LastByteIndirect))),
        (0xF3, Instruction::DI),
        (0xF5, Instruction::PUSH(StackTarget::AF)),
        (0xF6, Instruction::OR(ArithmeticTarget::D8)),
        (0xF8, Instruction::LD(LoadType::HLFromSPN)),
        (0xF9, Instruction::LD(LoadType::SPFromHL)),
        (0xFA, Instruction::LD(LoadType::AFromIndirect(Indirect::WordIndirect))),
        (0xFB, Instruction::EI),
        (0xFE, Instruction::CP(ArithmeticTarget::D8)),
        (0xFF, Instruction::RST(RSTLocation::X38)),
    ];
    for (byte, instruction) in cases {
        assert_eq!(Instruction::from_byte(byte, false), Some(instruction), "opcode {:#04x}", byte);
    }
}

#[test]
fn prefixed_table_is_systematic() {
    let cases = [
        (0x00, Instruction::RLC(PrefixTarget::B)),
        (0x06, Instruction::RLC(PrefixTarget::HLI)),
        (0x0F, Instruction::RRC(PrefixTarget::A)),
        (0x11, Instruction::RL(PrefixTarget::C)),
        (0x1A, Instruction::RR(PrefixTarget::D)),
        (0x23, Instruction::SLA(PrefixTarget::E)),
        (0x2C, Instruction::SRA(PrefixTarget::H)),
        (0x37, Instruction::SWAP(PrefixTarget::A)),
        (0x3D, Instruction::SRL(PrefixTarget::L)),
        (0x40, Instruction::BIT(PrefixTarget::B, BitPosition::B0)),
        (0x7E, Instruction::BIT(PrefixTarget::HLI, BitPosition::B7)),
        (0x87, Instruction::RES(PrefixTarget::A, BitPosition::B0)),
        (0xBE, Instruction::RES(PrefixTarget::HLI, BitPosition::B7)),
        (0xE8, Instruction::SET(PrefixTarget::B, BitPosition::B5)),
        (0xFF, Instruction::SET(PrefixTarget::A, BitPosition::B7)),
    ];
    for (byte, instruction) in cases {
        assert_eq!(Instruction::from_byte(byte, true), Some(instruction), "opcode {:#04x}", byte);
    }
}

#[test]
fn bit_positions_and_restart_addresses() {
    assert_eq!(u8::from(BitPosition::B0), 0);
    assert_eq!(u8::from(BitPosition::B5), 5);
    assert_eq!(BitPosition::B7.to_byte(), 7);
    assert_eq!(BitPosition::B3.mask(), 0b0000_1000);
    assert_eq!(RSTLocation::X00.to_address(), 0x00);
    assert_eq!(RSTLocation::X18.to_address(), 0x18);
    assert_eq!(RSTLocation::X38.to_address(), 0x38);
}
