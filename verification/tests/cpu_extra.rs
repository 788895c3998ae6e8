use dmg_01::cpu::alu::{alu_add, alu_add_hl, alu_add_sp, alu_decimal_adjust, alu_sub};
use dmg_01::cpu::flags_register::FlagsRegister;
use dmg_01::cpu::instruction::{
    ADDHLTarget, ArithmeticTarget, BitPosition, IncDecTarget, Indirect, Instruction, JumpTest,
    LoadByteSource, LoadByteTarget, LoadType, LoadWordTarget, PrefixTarget, RSTLocation,
    StackTarget,
};
use dmg_01::cpu::registers::Register;
use dmg_01::cpu::{offset_address, CPU};
use dmg_01::joypad::{Button, Joypad};

fn machine() -> CPU {
    let mut cpu = CPU::new(None, vec![0; 0x8000]);
    cpu.sp = 0xFFFE;
    cpu
}

fn flags(zero: bool, subtract: bool, half_carry: bool, carry: bool) -> FlagsRegister {
    FlagsRegister { zero, subtract, half_carry, carry }
}

#[test]
fn new_machine_starts_at_zero() {
    let cpu = CPU::new(None, vec![0; 0x8000]);
    assert_eq!(cpu.pc, 0);
    assert_eq!(cpu.sp, 0);
    assert_eq!(cpu.registers.get_af(), 0);
    assert_eq!(cpu.registers.get_bc(), 0);
    assert_eq!(cpu.registers.get_de(), 0);
    assert_eq!(cpu.registers.get_hl(), 0);
    assert!(!cpu.is_halted);
    assert!(!cpu.interrupts_enabled);
    assert!(cpu.bus.boot_rom.is_none());
}

#[test]
fn alu_formulas() {
    assert_eq!(alu_add(0x0F, 0x01, false), (0x10, flags(false, false, true, false)));
    assert_eq!(alu_add(0xFF, 0x01, false), (0x00, flags(true, false, true, true)));
    assert_eq!(alu_add(0xFF, 0xFF, true), (0xFF, flags(false, false, true, true)));
    assert_eq!(alu_add(0x0E, 0x01, true), (0x10, flags(false, false, true, false)));
    assert_eq!(alu_sub(0x10, 0x01, false), (0x0F, flags(false, true, true, false)));
    assert_eq!(alu_sub(0x00, 0x01, false), (0xFF, flags(false, true, true, true)));
    assert_eq!(alu_sub(0x00, 0xFF, true), (0x00, flags(true, true, true, true)));
    assert_eq!(alu_sub(0x20, 0x10, true), (0x0F, flags(false, true, true, false)));
    let clear = FlagsRegister::new();
    assert_eq!(alu_add_hl(0x0FFF, 0x0001, clear), (0x1000, flags(false, false, true, false)));
    assert_eq!(alu_add_hl(0xFFFF, 0x0001, clear), (0x0000, flags(false, false, true, true)));
    assert_eq!(
        alu_add_hl(0x8000, 0x8000, flags(true, true, false, false)),
        (0x0000, flags(true, false, false, true))
    );
    assert_eq!(alu_add_sp(0x00FF, 0x01), (0x0100, flags(false, false, true, true)));
    assert_eq!(alu_add_sp(0x0100, 0xFF), (0x00FF, flags(false, false, false, false)));
    assert_eq!(alu_add_sp(0x0000, 0xFF), (0xFFFF, flags(false, false, false, false)));
    assert_eq!(alu_add_sp(0x000F, 0xFF), (0x000E, flags(false, false, true, true)));
    assert_eq!(alu_add_sp(0xFFFF, 0x7F), (0x007E, flags(false, false, true, true)));
}

#[test]
fn decimal_adjust_after_addition_and_subtraction() {
    let (sum, f) = alu_add(0x15, 0x27, false);
    assert_eq!(sum, 0x3C);
    assert_eq!(alu_decimal_adjust(sum, f), (0x42, flags(false, false, false, false)));
    let (sum, f) = alu_add(0x99, 0x01, false);
    assert_eq!(alu_decimal_adjust(sum, f), (0x00, flags(true, false, false, true)));
    let (sum, f) = alu_add(0x90, 0x90, false);
    assert_eq!(sum, 0x20);
    assert_eq!(alu_decimal_adjust(sum, f), (0x80, flags(false, false, false, true)));
    let (difference, f) = alu_sub(0x42, 0x15, false);
    assert_eq!(difference, 0x2D);
    assert_eq!(alu_decimal_adjust(difference, f), (0x27, flags(false, true, false, false)));
    let (difference, f) = alu_sub(0x10, 0x20, false);
    assert_eq!(difference, 0xF0);
    assert_eq!(alu_decimal_adjust(difference, f), (0x90, flags(false, true, false, true)));

    let mut cpu = machine();
    cpu.registers.a = 0x3C;
    let (next_pc, cycles) = cpu.execute(Instruction::DAA);
    assert_eq!(cpu.registers.a, 0x42);
    assert_eq!((next_pc, cycles), (1, 4));
}

#[test]
fn offsets_are_signed_and_wrap() {
    assert_eq!(offset_address(0x0100, 0x00), 0x0100);
    assert_eq!(offset_address(0x0100, 0x7F), 0x017F);
    assert_eq!(offset_address(0x0100, 0x80), 0x0080);
    assert_eq!(offset_address(0x0100, 0xFF), 0x00FF);
    assert_eq!(offset_address(0x0000, 0xFF), 0xFFFF);
    assert_eq!(offset_address(0xFFFF, 0x01), 0x0000);
}

#[test]
fn arithmetic_reads_immediate_and_memory_operands() {
    let mut cpu = machine();
    cpu.pc = 0xC000;
    cpu.bus.write_byte(0xC001, 0x22);
    cpu.registers.a = 0x11;
    assert_eq!(cpu.execute(Instruction::ADD(ArithmeticTarget::D8)), (0xC002, 8));
    assert_eq!(cpu.registers.a, 0x33);
    cpu.registers.set_hl(0xC100);
    cpu.bus.write_byte(0xC100, 0x03);
    assert_eq!(cpu.execute(Instruction::SUB(ArithmeticTarget::HLI)), (0xC001, 8));
    assert_eq!(cpu.registers.a, 0x30);
    assert_eq!(cpu.registers.get_hl(), 0xC100);
    assert_eq!(cpu.bus.read_byte(0xC100), 0x03);
    assert_eq!(cpu.execute(Instruction::CP(ArithmeticTarget::D8)), (0xC002, 8));
    assert_eq!(cpu.registers.a, 0x30);
    assert_eq!(cpu.registers.f, flags(false, true, true, false));
    cpu.registers.a = 0b1100_1010;
    cpu.registers.c = 0b1010_0110;
    cpu.execute(Instruction::AND(ArithmeticTarget::C));
    assert_eq!(cpu.registers.a, 0b1000_0010);
    assert_eq!(cpu.registers.f, flags(false, false, true, false));
    cpu.execute(Instruction::XOR(ArithmeticTarget::C));
    assert_eq!(cpu.registers.a, 0b0010_0100);
    cpu.execute(Instruction::OR(ArithmeticTarget::C));
    assert_eq!(cpu.registers.a, 0b1010_0110);
    assert_eq!(cpu.registers.f, flags(false, false, false, false));
}

#[test]
fn inc_and_dec_reach_memory_and_wide_registers() {
    let mut cpu = machine();
    cpu.registers.set_hl(0xC000);
    cpu.bus.write_byte(0xC000, 0xFF);
    assert_eq!(cpu.execute(Instruction::INC(IncDecTarget::HLI)), (1, 12));
    assert_eq!(cpu.bus.read_byte(0xC000), 0x00);
    assert_eq!(cpu.registers.f, flags(true, false, true, false));
    assert_eq!(cpu.execute(Instruction::DEC(IncDecTarget::HLI)), (1, 12));
    assert_eq!(cpu.bus.read_byte(0xC000), 0xFF);
    assert_eq!(cpu.registers.f, flags(false, true, true, false));
    assert_eq!(cpu.registers.get_hl(), 0xC000);
    cpu.sp = 0xFFFF;
    assert_eq!(cpu.execute(Instruction::INC(IncDecTarget::SP)), (1, 8));
    assert_eq!(cpu.sp, 0);
    assert_eq!(cpu.execute(Instruction::DEC(IncDecTarget::SP)), (1, 8));
    assert_eq!(cpu.sp, 0xFFFF);
    cpu.registers.set_de(0x00FF);
    cpu.execute(Instruction::INC(IncDecTarget::DE));
    assert_eq!(cpu.registers.get_de(), 0x0100);
    cpu.execute(Instruction::DEC(IncDecTarget::HL));
    assert_eq!(cpu.registers.get_hl(), 0xBFFF);
    assert_eq!(cpu.registers.f, flags(false, true, true, false));
}

#[test]
fn add_hl_and_add_sp() {
    let mut cpu = machine();
    cpu.registers.set_hl(0x8A23);
    cpu.registers.f.zero = true;
    assert_eq!(cpu.execute(Instruction::ADDHL(ADDHLTarget::HL)), (1, 8));
    assert_eq!(cpu.registers.get_hl(), 0x1446);
    assert_eq!(cpu.registers.f, flags(true, false, true, true));
    cpu.sp = 0x0001;
    cpu.execute(Instruction::ADDHL(ADDHLTarget::SP));
    assert_eq!(cpu.registers.get_hl(), 0x1447);
    cpu.registers.set_de(0x0100);
    cpu.execute(Instruction::ADDHL(ADDHLTarget::DE));
    assert_eq!(cpu.registers.get_hl(), 0x1547);

    let mut cpu = machine();
    cpu.pc = 0xC000;
    cpu.sp = 0xFFF8;
    cpu.bus.write_byte(0xC001, 0x02);
    cpu.registers.f.zero = true;
    assert_eq!(cpu.execute(Instruction::ADDSP), (0xC002, 16));
    assert_eq!(cpu.sp, 0xFFFA);
    assert_eq!(cpu.registers.f, flags(false, false, false, false));
    cpu.bus.write_byte(0xC001, 0xFE);
    cpu.execute(Instruction::ADDSP);
    assert_eq!(cpu.sp, 0xFFF8);
    assert_eq!(cpu.registers.f, flags(false, false, true, true));
    assert_eq!(cpu.execute(Instruction::LD(LoadType::HLFromSPN)), (0xC002, 12));
    assert_eq!(cpu.registers.get_hl(), 0xFFF6);
    assert_eq!(cpu.sp, 0xFFF8);
    assert_eq!(cpu.registers.f, flags(false, false, true, true));
}

#[test]
fn carry_flag_instructions() {
    let mut cpu = machine();
    cpu.registers.f = flags(true, true, true, false);
    assert_eq!(cpu.execute(Instruction::SCF), (1, 4));
    assert_eq!(cpu.registers.f, flags(true, false, false, true));
    cpu.registers.f = flags(true, true, true, true);
    assert_eq!(cpu.execute(Instruction::CCF), (1, 4));
    assert_eq!(cpu.registers.f, flags(true, false, false, false));
    cpu.execute(Instruction::CCF);
    assert_eq!(cpu.registers.f, flags(true, false, false, true));
}

#[test]
fn rotates_of_a_clear_zero_and_prefixed_ones_set_it() {
    let mut cpu = machine();
    cpu.registers.a = 0;
    cpu.execute(Instruction::RLCA);
    assert_eq!(cpu.registers.f, flags(false, false, false, false));
    cpu.execute(Instruction::RLC(PrefixTarget::A));
    assert_eq!(cpu.registers.f, flags(true, false, false, false));
    cpu.registers.a = 0x80;
    cpu.execute(Instruction::SLA(PrefixTarget::A));
    assert_eq!(cpu.registers.a, 0);
    assert_eq!(cpu.registers.f, flags(true, false, false, true));
    cpu.registers.a = 0x01;
    cpu.execute(Instruction::RRC(PrefixTarget::A));
    assert_eq!(cpu.registers.a, 0x80);
    assert_eq!(cpu.registers.f, flags(false, false, false, true));
    cpu.registers.b = 0x85;
    cpu.execute(Instruction::RLC(PrefixTarget::B));
    assert_eq!(cpu.registers.b, 0x0B);
    assert_eq!(cpu.registers.f, flags(false, false, false, true));
}

#[test]
fn prefixed_instructions_work_on_the_byte_at_hl() {
    let mut cpu = machine();
    cpu.registers.set_hl(0xC000);
    cpu.bus.write_byte(0xC000, 0b1011_0101);
    assert_eq!(cpu.execute(Instruction::SWAP(PrefixTarget::HLI)), (2, 16));
    assert_eq!(cpu.bus.read_byte(0xC000), 0b0101_1011);
    assert_eq!(cpu.registers.get_hl(), 0xC000);
    assert_eq!(cpu.execute(Instruction::SET(PrefixTarget::HLI, BitPosition::B7)), (2, 16));
    assert_eq!(cpu.bus.read_byte(0xC000), 0b1101_1011);
    cpu.execute(Instruction::RES(PrefixTarget::HLI, BitPosition::B0));
    assert_eq!(cpu.bus.read_byte(0xC000), 0b1101_1010);
    cpu.registers.f.carry = true;
    cpu.execute(Instruction::BIT(PrefixTarget::HLI, BitPosition::B0));
    assert_eq!(cpu.registers.f, flags(true, false, true, true));
    cpu.execute(Instruction::BIT(PrefixTarget::HLI, BitPosition::B7));
    assert_eq!(cpu.registers.f, flags(false, false, true, true));
    cpu.execute(Instruction::SRL(PrefixTarget::HLI));
    assert_eq!(cpu.bus.read_byte(0xC000), 0b0110_1101);
    assert_eq!(cpu.execute(Instruction::BIT(PrefixTarget::C, BitPosition::B3)), (2, 8));
}

#[test]
fn every_bit_can_be_set_reset_and_tested() {
    let positions = [
        BitPosition::B0,
        BitPosition::B1,
        BitPosition::B2,
        BitPosition::B3,
        BitPosition::B4,
        BitPosition::B5,
        BitPosition::B6,
        BitPosition::B7,
    ];
    for (n, position) in positions.iter().enumerate() {
        let mut cpu = machine();
        cpu.registers.d = 0;
        cpu.execute(Instruction::SET(PrefixTarget::D, *position));
        assert_eq!(cpu.registers.d, 1 << n);
        cpu.execute(Instruction::BIT(PrefixTarget::D, *position));
        assert!(!cpu.registers.f.zero);
        cpu.registers.d = 0xFF;
        cpu.execute(Instruction::RES(PrefixTarget::D, *position));
        assert_eq!(cpu.registers.d, 0xFF ^ (1 << n));
        cpu.execute(Instruction::BIT(PrefixTarget::D, *position));
        assert!(cpu.registers.f.zero);
    }
}

#[test]
fn conditional_jumps_calls_and_returns() {
    let mut cpu = machine();
    cpu.pc = 0xC000;
    cpu.bus.write_byte(0xC001, 0x34);
    cpu.bus.write_byte(0xC002, 0x12);
    assert_eq!(cpu.execute(Instruction::JP(JumpTest::Always)), (0x1234, 16));
    assert_eq!(cpu.execute(Instruction::JP(JumpTest::Zero)), (0xC003, 12));
    assert_eq!(cpu.execute(Instruction::JP(JumpTest::NotZero)), (0x1234, 16));
    cpu.registers.f.carry = true;
    assert_eq!(cpu.execute(Instruction::JP(JumpTest::Carry)), (0x1234, 16));
    assert_eq!(cpu.execute(Instruction::JP(JumpTest::NotCarry)), (0xC003, 12));
    cpu.registers.set_hl(0x4321);
    assert_eq!(cpu.execute(Instruction::JPI), (0x4321, 4));

    assert_eq!(cpu.execute(Instruction::CALL(JumpTest::NotCarry)), (0xC003, 12));
    assert_eq!(cpu.sp, 0xFFFE);
    assert_eq!(cpu.execute(Instruction::CALL(JumpTest::Carry)), (0x1234, 24));
    assert_eq!(cpu.sp, 0xFFFC);
    assert_eq!(cpu.bus.read_byte(0xFFFD), 0xC0);
    assert_eq!(cpu.bus.read_byte(0xFFFC), 0x03);
    assert_eq!(cpu.execute(Instruction::RET(JumpTest::NotCarry)), (0xC001, 8));
    assert_eq!(cpu.sp, 0xFFFC);
    assert_eq!(cpu.execute(Instruction::RET(JumpTest::Carry)), (0xC003, 20));
    assert_eq!(cpu.sp, 0xFFFE);
    cpu.execute(Instruction::CALL(JumpTest::Always));
    assert_eq!(cpu.execute(Instruction::RET(JumpTest::Always)), (0xC003, 16));
    cpu.execute(Instruction::CALL(JumpTest::Always));
    assert!(!cpu.interrupts_enabled);
    assert_eq!(cpu.execute(Instruction::RETI), (0xC003, 16));
    assert!(cpu.interrupts_enabled);
    assert_eq!(cpu.sp, 0xFFFE);
}

#[test]
fn restarts_push_the_next_address() {
    let targets = [
        (RSTLocation::X00, 0x00u16),
        (RSTLocation::X08, 0x08),
        (RSTLocation::X10, 0x10),
        (RSTLocation::X18, 0x18),
        (RSTLocation::X20, 0x20),
        (RSTLocation::X28, 0x28),
        (RSTLocation::X30, 0x30),
        (RSTLocation::X38, 0x38),
    ];
    for (location, address) in targets {
        let mut cpu = machine();
        cpu.pc = 0x1234;
        assert_eq!(cpu.execute(Instruction::RST(location)), (address, 16));
        assert_eq!(cpu.sp, 0xFFFC);
        assert_eq!(cpu.bus.read_byte(0xFFFD), 0x12);
        assert_eq!(cpu.bus.read_byte(0xFFFC), 0x35);
    }
}

#[test]
fn push_and_pop_round_trip_for_every_pair() {
    for value in [0x0000u16, 0x1234, 0xABCD, 0xFFFF, 0x00FF, 0xFF00] {
        let mut cpu = machine();
        cpu.registers.set_hl(value);
        cpu.execute(Instruction::PUSH(StackTarget::HL));
        cpu.execute(Instruction::POP(StackTarget::BC));
        assert_eq!(cpu.registers.get_bc(), value);
        cpu.execute(Instruction::PUSH(StackTarget::BC));
        cpu.execute(Instruction::POP(StackTarget::AF));
        assert_eq!(cpu.registers.get_af(), value & 0xFFF0);
        cpu.execute(Instruction::PUSH(StackTarget::AF));
        cpu.execute(Instruction::POP(StackTarget::DE));
        assert_eq!(cpu.registers.get_de(), value & 0xFFF0);
        assert_eq!(cpu.sp, 0xFFFE);
    }
}

#[test]
fn pop_af_masks_the_low_nibble() {
    let mut cpu = machine();
    cpu.sp = 0xC000;
    cpu.bus.write_byte(0xC000, 0xFF);
    cpu.bus.write_byte(0xC001, 0x12);
    cpu.execute(Instruction::POP(StackTarget::AF));
    assert_eq!(cpu.registers.a, 0x12);
    assert_eq!(u8::from(cpu.registers.f), 0xF0);
    assert_eq!(cpu.registers.get_af(), 0x12F0);
}

#[test]
fn loads_between_registers_and_memory() {
    let mut cpu = machine();
    cpu.pc = 0xC000;
    cpu.bus.write_byte(0xC001, 0x42);
    cpu.bus.write_byte(0xC002, 0xD0);
    assert_eq!(
        cpu.execute(Instruction::LD(LoadType::Byte(LoadByteTarget::E, LoadByteSource::D8))),
        (0xC002, 8)
    );
    assert_eq!(cpu.registers.e, 0x42);
    cpu.registers.set_hl(0xD000);
    assert_eq!(
        cpu.execute(Instruction::LD(LoadType::Byte(LoadByteTarget::HLI, LoadByteSource::E))),
        (0xC001, 4)
    );
    assert_eq!(cpu.bus.read_byte(0xD000), 0x42);
    assert_eq!(
        cpu.execute(Instruction::LD(LoadType::Byte(LoadByteTarget::A, LoadByteSource::HLI))),
        (0xC001, 8)
    );
    assert_eq!(cpu.registers.a, 0x42);
    assert_eq!(cpu.execute(Instruction::LD(LoadType::Word(LoadWordTarget::BC))), (0xC003, 12));
    assert_eq!(cpu.registers.get_bc(), 0xD042);
    cpu.execute(Instruction::LD(LoadType::Word(LoadWordTarget::SP)));
    assert_eq!(cpu.sp, 0xD042);
    cpu.registers.set_hl(0xBEEF);
    assert_eq!(cpu.execute(Instruction::LD(LoadType::SPFromHL)), (0xC001, 8));
    assert_eq!(cpu.sp, 0xBEEF);
    assert_eq!(cpu.execute(Instruction::LD(LoadType::IndirectFromSP)), (0xC003, 20));
    assert_eq!(cpu.bus.read_byte(0xD042), 0xEF);
    assert_eq!(cpu.bus.read_byte(0xD043), 0xBE);
}

#[test]
fn indirect_loads_and_stores_of_a() {
    let mut cpu = machine();
    cpu.pc = 0xC000;
    cpu.registers.a = 0x5A;
    cpu.registers.set_hl(0xD000);
    assert_eq!(
        cpu.execute(Instruction::LD(LoadType::IndirectFromA(Indirect::HLIndirectPlus))),
        (0xC001, 8)
    );
    assert_eq!(cpu.bus.read_byte(0xD000), 0x5A);
    assert_eq!(cpu.registers.get_hl(), 0xD001);
    cpu.registers.a = 0xA5;
    cpu.execute(Instruction::LD(LoadType::IndirectFromA(Indirect::HLIndirectMinus)));
    assert_eq!(cpu.bus.read_byte(0xD001), 0xA5);
    assert_eq!(cpu.registers.get_hl(), 0xD000);
    cpu.execute(Instruction::LD(LoadType::AFromIndirect(Indirect::HLIndirectMinus)));
    assert_eq!(cpu.registers.a, 0x5A);
    assert_eq!(cpu.registers.get_hl(), 0xCFFF);
    cpu.registers.set_de(0xD001);
    cpu.execute(Instruction::LD(LoadType::AFromIndirect(Indirect::DEIndirect)));
    assert_eq!(cpu.registers.a, 0xA5);
    cpu.registers.set_bc(0xD080);
    cpu.execute(Instruction::LD(LoadType::IndirectFromA(Indirect::BCIndirect)));
    assert_eq!(cpu.bus.read_byte(0xD080), 0xA5);
    assert_eq!(
        cpu.execute(Instruction::LD(LoadType::IndirectFromA(Indirect::LastByteIndirect))),
        (0xC002, 8)
    );
    assert_eq!(cpu.bus.read_byte(0xFF80), 0xA5);
    cpu.bus.write_byte(0xC001, 0x90);
    cpu.bus.write_byte(0xC002, 0xD1);
    assert_eq!(
        cpu.execute(Instruction::LD(LoadType::IndirectFromA(Indirect::WordIndirect))),
        (0xC003, 16)
    );
    assert_eq!(cpu.bus.read_byte(0xD190), 0xA5);
    cpu.registers.a = 0;
    cpu.execute(Instruction::LD(LoadType::AFromIndirect(Indirect::WordIndirect)));
    assert_eq!(cpu.registers.a, 0xA5);
    cpu.registers.a = 0x77;
    assert_eq!(cpu.execute(Instruction::LD(LoadType::ByteAddressFromA)), (0xC002, 12));
    assert_eq!(cpu.bus.read_byte(0xFF90), 0x77);
    cpu.registers.a = 0;
    assert_eq!(cpu.execute(Instruction::LD(LoadType::AFromByteAddress)), (0xC002, 12));
    assert_eq!(cpu.registers.a, 0x77);
    cpu.registers.a = 0;
    cpu.registers.c = 0x90;
    cpu.execute(Instruction::LD(LoadType::AFromIndirect(Indirect::LastByteIndirect)));
    assert_eq!(cpu.registers.a, 0x77);
}

#[test]
fn halt_sleeps_until_an_interrupt_is_due() {
    let mut rom = vec![0u8; 0x8000];
    rom[0] = 0x76;
    rom[1] = 0x3C;
    let mut cpu = CPU::new(None, rom);
    cpu.sp = 0xFFFE;
    assert_eq!(cpu.step(), 4);
    assert!(cpu.is_halted);
    assert_eq!(cpu.pc, 1);
    for _ in 0..10 {
        assert_eq!(cpu.step(), 4);
        assert_eq!(cpu.pc, 1);
    }
    assert_eq!(cpu.bus.timer.divider_counter, 44);
    cpu.bus.write_byte(0xFFFF, 0x04);
    cpu.bus.write_byte(0xFF0F, 0x04);
    assert_eq!(cpu.step(), 4);
    assert!(!cpu.is_halted);
    assert_eq!(cpu.registers.a, 1);
    assert_eq!(cpu.pc, 2);
    assert_eq!(cpu.bus.read_byte(0xFF0F), 0xE4);
}

#[test]
fn stop_sleeps_and_skips_its_second_byte() {
    let mut rom = vec![0u8; 0x8000];
    rom[0] = 0x10;
    let mut cpu = CPU::new(None, rom);
    assert_eq!(cpu.step(), 4);
    assert!(cpu.is_halted);
    assert_eq!(cpu.pc, 2);
}

#[test]
fn enabling_interrupts_takes_effect_one_instruction_late() {
    let mut rom = vec![0u8; 0x8000];
    rom[0] = 0xFB;
    rom[1] = 0x3C;
    rom[2] = 0x3C;
    let mut cpu = CPU::new(None, rom);
    cpu.sp = 0xFFFE;
    cpu.bus.write_byte(0xFFFF, 0x01);
    cpu.bus.write_byte(0xFF0F, 0x01);
    assert_eq!(cpu.step(), 4);
    assert!(!cpu.interrupts_enabled);
    assert_eq!(cpu.pc, 1);
    assert_eq!(cpu.step(), 4);
    assert_eq!(cpu.registers.a, 1);
    assert!(cpu.interrupts_enabled);
    assert_eq!(cpu.pc, 2);
    assert_eq!(cpu.step(), 20);
    assert_eq!(cpu.registers.a, 1);
    assert_eq!(cpu.pc, 0x0040);
    assert!(!cpu.interrupts_enabled);
    assert_eq!(cpu.bus.read_byte(0xFFFC), 0x02);
    assert_eq!(cpu.bus.read_byte(0xFFFD), 0x00);
}

#[test]
fn disabling_interrupts_is_immediate_and_cancels_a_pending_enable() {
    let mut rom = vec![0u8; 0x8000];
    rom[0] = 0xFB;
    rom[1] = 0xF3;
    let mut cpu = CPU::new(None, rom);
    cpu.bus.write_byte(0xFFFF, 0x01);
    cpu.bus.write_byte(0xFF0F, 0x01);
    cpu.step();
    cpu.step();
    assert!(!cpu.interrupts_enabled);
    assert_eq!(cpu.step(), 4);
    assert_eq!(cpu.pc, 3);

    let mut cpu = machine();
    cpu.interrupts_enabled = true;
    cpu.execute(Instruction::DI);
    assert!(!cpu.interrupts_enabled);
}

#[test]
fn interrupts_are_serviced_in_order_of_priority() {
    let vectors = [(0x01u8, 0x40u16), (0x02, 0x48), (0x04, 0x50), (0x08, 0x58), (0x10, 0x60)];
    let mut cpu = machine();
    cpu.pc = 0x0150;
    cpu.bus.write_byte(0xFFFF, 0x1F);
    cpu.bus.write_byte(0xFF0F, 0x1F);
    let mut remaining = 0x1Fu8;
    for (bit, vector) in vectors {
        cpu.interrupts_enabled = true;
        assert_eq!(cpu.step(), 20);
        assert_eq!(cpu.pc, vector);
        remaining &= !bit;
        assert_eq!(cpu.bus.read_byte(0xFF0F), 0xE0 | remaining);
        assert!(!cpu.interrupts_enabled);
    }
    cpu.interrupts_enabled = true;
    assert_eq!(cpu.step(), 4);
}

#[test]
fn a_masked_interrupt_is_not_serviced() {
    let mut cpu = machine();
    cpu.interrupts_enabled = true;
    cpu.bus.write_byte(0xFFFF, 0x02);
    cpu.bus.write_byte(0xFF0F, 0x05);
    assert_eq!(cpu.step(), 4);
    assert_eq!(cpu.pc, 1);
    assert_eq!(cpu.bus.read_byte(0xFF0F), 0xE5);
}

#[test]
fn every_step_forwards_its_cycles_to_the_divider() {
    let mut rom = vec![0u8; 0x8000];
    let program = [0x3Cu8, 0xCB, 0x37, 0x01, 0x00, 0xC0, 0xC5, 0xC1, 0xCD, 0x10, 0x00];
    rom[..program.len()].copy_from_slice(&program);
    rom[0x10] = 0xC9;
    rom[0x0B] = 0x18;
    rom[0x0C] = 0xF3;
    let mut cpu = CPU::new(None, rom);
    cpu.sp = 0xFFFE;
    let mut total = 0u32;
    for _ in 0..200 {
        let before = cpu.bus.timer.divider_counter;
        let cycles = cpu.step();
        assert!(cycles >= 4 && cycles <= 24);
        assert_eq!(cpu.bus.timer.divider_counter, before.wrapping_add(cycles as u16));
        total += cycles as u32;
    }
    assert_eq!(cpu.bus.timer.divider_counter as u32, total % 0x10000);
}

#[test]
fn undefined_opcode_stops_the_machine_without_changing_it() {
    let mut rom = vec![0u8; 0x8000];
    rom[0] = 0x3C;
    rom[1] = 0xD3;
    let mut cpu = CPU::new(None, rom);
    assert!(cpu.can_step());
    assert_eq!(cpu.try_step(), Some(4));
    assert!(!cpu.can_step());
    assert_eq!(cpu.fetch(), None);
    assert_eq!(cpu.try_step(), None);
    assert_eq!(cpu.pc, 1);
    assert_eq!(cpu.registers.a, 1);
    assert_eq!(cpu.bus.timer.divider_counter, 4);
    assert_eq!(cpu.run(1000), 0);
}

#[test]
fn run_makes_steps_until_the_budget_is_passed() {
    let mut cpu = machine();
    assert_eq!(cpu.run(0), 4);
    assert_eq!(cpu.pc, 1);
    assert_eq!(cpu.run(7), 8);
    assert_eq!(cpu.pc, 3);
    assert_eq!(cpu.run(8), 12);
    assert_eq!(cpu.pc, 6);
    let mut rom = vec![0u8; 0x8000];
    rom[5] = 0xDD;
    let mut cpu = CPU::new(None, rom);
    assert_eq!(cpu.run(1000), 20);
    assert_eq!(cpu.pc, 5);
}

#[test]
fn registers_and_joypad_can_be_set_from_outside() {
    let mut cpu = machine();
    cpu.set_register(Register::A, 0x1FF);
    assert_eq!(cpu.registers.a, 0xFF);
    cpu.set_register(Register::F, 0xFF);
    assert_eq!(u8::from(cpu.registers.f), 0xF0);
    cpu.set_register(Register::HL, 0xBEEF);
    assert_eq!(cpu.registers.h, 0xBE);
    assert_eq!(cpu.registers.l, 0xEF);
    cpu.set_register(Register::AF, 0x1234);
    assert_eq!(cpu.registers.get_af(), 0x1230);
    let mut joypad = Joypad::new();
    joypad.set_button(Button::Up, true);
    cpu.set_joypad(joypad);
    assert!(cpu.bus.joypad.up);
    assert_eq!(cpu.bus.read_byte(0xFF00), 0b0010_1011);
    assert_eq!(cpu.bus.read_byte(0xFF0F), 0xF0);
}

#[test]
fn views_of_memory_and_pictures() {
    let mut cpu = machine();
    cpu.bus.write_byte(0xC000, 9);
    cpu.bus.write_byte(0xC001, 8);
    assert_eq!(cpu.memory_slice(0xC000, 0xC002), vec![9, 8]);
    assert_eq!(cpu.get_tile_set_buffer(false).len(), 98304);
    assert_eq!(cpu.get_background_buffer(true, true).len(), 262144);
    for row in 0..8u16 {
        cpu.bus.write_byte(0x8010 + row * 2, 0b0101_0101);
        cpu.bus.write_byte(0x8010 + row * 2 + 1, 0b0011_0011);
    }
    cpu.bus.write_byte(0x9800, 1);
    let tile = cpu.get_tile_at(3, 5);
    assert_eq!(tile.len(), 256);
    assert_eq!(&tile[0..16], &[255, 255, 255, 255, 192, 192, 192, 255, 96, 96, 96, 255, 0, 0, 0, 255]);
    assert_eq!(&tile[32..36], &[255, 255, 255, 255]);
    assert_eq!(cpu.frame_as_words().len(), 23040);
}

#[test]
fn host_can_add_a_register_to_a() {
    let mut cpu = machine();
    cpu.pc = 0x1234;
    cpu.registers.a = 0x3A;
    cpu.registers.b = 0xC6;
    let cpu = dmg_01::host::add(cpu, dmg_01::host::Target::B);
    assert_eq!(cpu.registers.a, 0x00);
    assert_eq!(cpu.registers.f, flags(true, false, true, true));
    assert_eq!(cpu.pc, 0x1234);
    let cpu = dmg_01::host::add(cpu, dmg_01::host::Target::BC);
    assert_eq!(cpu.registers.a, 0x00);
    assert_eq!(cpu.registers.f, flags(true, false, true, true));
    let cpu = dmg_01::host::add(cpu, dmg_01::host::Target::F);
    assert_eq!(cpu.registers.a, 0x00);
}

#[test]
fn canvas_buffer_is_a_copy_of_the_frame() {
    let mut cpu = machine();
    cpu.bus.write_byte(0xFF40, 0x91);
    cpu.bus.gpu.mode = dmg_01::gpu::Mode::VRAMAccess;
    cpu.bus.step(172);
    let buffer = cpu.canvas_buffer();
    assert_eq!(buffer.len(), 160 * 144 * 4);
    assert_eq!(&buffer[..], &cpu.bus.gpu.canvas_buffer[..]);
    assert_eq!(&buffer[0..8], &[255, 255, 255, 255, 255, 255, 255, 255]);
    assert_eq!(buffer[640], 0);
}
