use dmg_01::cpu::instruction::{
    ADDHLTarget, ArithmeticTarget, BitPosition, IncDecTarget, Indirect, Instruction, JumpTest,
    LoadByteSource, LoadByteTarget, LoadType, PrefixTarget, StackTarget,
};
use dmg_01::cpu::CPU;

fn new_cpu() -> CPU {
    CPU::new(None, vec![0; 0x8000])
}

fn check_flags(cpu: &CPU, zero: bool, subtract: bool, half_carry: bool, carry: bool) {
    let flags = cpu.registers.f;
    println!("Flags: {:?}", flags);
    assert_eq!(flags.zero, zero);
    assert_eq!(flags.subtract, subtract);
    assert_eq!(flags.half_carry, half_carry);
    assert_eq!(flags.carry, carry);
}

#[test]
fn execute_inc_8bit_non_overflow() {
    let mut cpu = new_cpu();
    cpu.registers.a = 0x7;
    cpu.execute(Instruction::INC(IncDecTarget::A));

    assert_eq!(cpu.registers.a, 0x8);
    check_flags(&cpu, false, false, false, false);
}

#[test]
fn execute_inc_8bit_half_carry() {
    let mut cpu = new_cpu();
    cpu.registers.a = 0xF;
    cpu.execute(Instruction::INC(IncDecTarget::A));

    assert_eq!(cpu.registers.a, 0x10);
    check_flags(&cpu, false, false, true, false);
}

#[test]
fn execute_inc_8bit_overflow() {
    let mut cpu = new_cpu();
    cpu.registers.a = 0xFF;
    cpu.execute(Instruction::INC(IncDecTarget::A));

    assert_eq!(cpu.registers.a, 0x0);
    check_flags(&cpu, true, false, true, false);
}

#[test]
fn execute_inc_16bit_byte_overflow() {
    let instruction = Instruction::INC(IncDecTarget::BC);
    let mut cpu = new_cpu();
    cpu.registers.set_bc(0xFF);
    cpu.execute(instruction);

    assert_eq!(cpu.registers.get_bc(), 0x0100);
    assert_eq!(cpu.registers.b, 0x01);
    assert_eq!(cpu.registers.c, 0x00);
    check_flags(&cpu, false, false, false, false);
}

#[test]
fn execute_inc_16bit_overflow() {
    let instruction = Instruction::INC(IncDecTarget::BC);
    let mut cpu = new_cpu();
    cpu.registers.set_bc(0xFFFF);
    cpu.execute(instruction);

    assert_eq!(cpu.registers.get_bc(), 0x0);
    assert_eq!(cpu.registers.b, 0x00);
    assert_eq!(cpu.registers.c, 0x00);
    check_flags(&cpu, false, false, false, false);
}

#[test]
fn execute_dec_8bit_non_overflow() {
    let mut cpu = new_cpu();
    cpu.registers.a = 0x7;
    cpu.execute(Instruction::DEC(IncDecTarget::A));

    assert_eq!(cpu.registers.a, 0x6);
    check_flags(&cpu, false, true, false, false);
}

#[test]
fn execute_dec_8bit_half_carry() {
    let mut cpu = new_cpu();
    cpu.registers.a = 0x80;
    cpu.execute(Instruction::DEC(IncDecTarget::A));

    assert_eq!(cpu.registers.a, 0x7f);
    check_flags(&cpu, false, true, true, false);
}

#[test]
fn execute_dec_8bit_underflow() {
    let mut cpu = new_cpu();
    cpu.registers.a = 0x0;
    cpu.execute(Instruction::DEC(IncDecTarget::A));

    assert_eq!(cpu.registers.a, 0xFF);
    check_flags(&cpu, false, true, true, false);
}

#[test]
fn execute_dec_16bit_underflow() {
    let instruction = Instruction::DEC(IncDecTarget::BC);
    let mut cpu = new_cpu();
    cpu.registers.set_bc(0x0000);
    cpu.execute(instruction);

    assert_eq!(cpu.registers.get_bc(), 0xFFFF);
    assert_eq!(cpu.registers.b, 0xFF);
    assert_eq!(cpu.registers.c, 0xFF);
    check_flags(&cpu, false, false, false, false);
}

#[test]
fn execute_add_8bit_non_overflow_target_a() {
    let mut cpu = new_cpu();
    cpu.registers.a = 0x7;
    cpu.execute(Instruction::ADD(ArithmeticTarget::A));

    assert_eq!(cpu.registers.a, 0xe);
    check_flags(&cpu, false, false, false, false);
}

#[test]
fn execute_add_8bit_non_overflow_target_c() {
    let mut cpu = new_cpu();
    cpu.registers.a = 0x7;
    cpu.registers.c = 0x3;
    cpu.execute(Instruction::ADD(ArithmeticTarget::C));

    assert_eq!(cpu.registers.a, 0xa);
    check_flags(&cpu, false, false, false, false);
}

#[test]
fn execute_add_8bit_non_overflow_target_c_with_carry() {
    let mut cpu = new_cpu();
    cpu.registers.a = 0x7;
    cpu.registers.c = 0x3;
    cpu.registers.f.carry = true;
    cpu.execute(Instruction::ADD(ArithmeticTarget::C));

    assert_eq!(cpu.registers.a, 0xa);
    check_flags(&cpu, false, false, false, false);
}

#[test]
fn execute_add_8bit_carry() {
    let mut cpu = new_cpu();
    cpu.registers.a = 0xFC;
    cpu.registers.b = 0x9;
    cpu.execute(Instruction::ADD(ArithmeticTarget::B));

    assert_eq!(cpu.registers.a, 0x05);
    check_flags(&cpu, false, false, true, true);
}

#[test]
fn execute_add_hl() {
    let mut cpu = new_cpu();
    cpu.registers.b = 0x07;
    cpu.registers.c = 0x00;
    cpu.registers.h = 0x03;
    cpu.registers.l = 0x00;
    cpu.execute(Instruction::ADDHL(ADDHLTarget::BC));

    assert_eq!(cpu.registers.get_hl(), 0x0A00);
    // No carry out of bit 11: 0x300 + 0x700 stays below 0x1000.
    check_flags(&cpu, false, false, false, false);

    let mut cpu = new_cpu();
    cpu.registers.b = 0x08;
    cpu.registers.c = 0x00;
    cpu.registers.h = 0x08;
    cpu.registers.l = 0x00;
    cpu.execute(Instruction::ADDHL(ADDHLTarget::BC));

    assert_eq!(cpu.registers.get_hl(), 0x1000);
    check_flags(&cpu, false, false, true, false);
}

#[test]
fn execute_addc_8bit_non_overflow_target_a_no_carry() {
    let mut cpu = new_cpu();
    cpu.registers.a = 0x7;
    cpu.execute(Instruction::ADD(ArithmeticTarget::A));

    assert_eq!(cpu.registers.a, 0xe);
    check_flags(&cpu, false, false, false, false);
}

#[test]
fn execute_addc_8bit_non_overflow_target_a_with_carry() {
    let mut cpu = new_cpu();
    cpu.registers.a = 0x7;
    cpu.registers.f.carry = true;
    cpu.execute(Instruction::ADC(ArithmeticTarget::A));

    assert_eq!(cpu.registers.a, 0xf);
    check_flags(&cpu, false, false, false, false);
}

#[test]
fn execute_addc_8bit_non_overflow_target_c_with_carry() {
    let mut cpu = new_cpu();
    cpu.registers.a = 0x7;
    cpu.registers.c = 0x3;
    cpu.registers.f.carry = true;
    cpu.execute(Instruction::ADC(ArithmeticTarget::C));

    assert_eq!(cpu.registers.a, 0xb);
    check_flags(&cpu, false, false, false, false);
}

#[test]
fn execute_addc_8bit_carry_with_carry() {
    let mut cpu = new_cpu();
    cpu.registers.a = 0xFC;
    cpu.registers.b = 0x3;
    cpu.registers.f.carry = true;
    cpu.execute(Instruction::ADC(ArithmeticTarget::B));

    assert_eq!(cpu.registers.a, 0x00);
    check_flags(&cpu, true, false, true, true);
}

#[test]
fn execute_sub_8bit_non_underflow_target_a() {
    let mut cpu = new_cpu();
    cpu.registers.a = 0x7;
    cpu.execute(Instruction::SUB(ArithmeticTarget::A));

    assert_eq!(cpu.registers.a, 0x0);
    check_flags(&cpu, true, true, false, false);
}

#[test]
fn execute_sub_8bit_non_underflow_target_c() {
    let mut cpu = new_cpu();
    cpu.registers.a = 0x7;
    cpu.registers.c = 0x3;
    cpu.execute(Instruction::SUB(ArithmeticTarget::C));

    assert_eq!(cpu.registers.a, 0x4);
    check_flags(&cpu, false, true, false, false);
}

#[test]
fn execute_sub_8bit_non_overflow_target_c_with_carry() {
    let mut cpu = new_cpu();
    cpu.registers.a = 0x7;
    cpu.registers.c = 0x3;
    cpu.registers.f.carry = true;
    cpu.execute(Instruction::SUB(ArithmeticTarget::C));

    assert_eq!(cpu.registers.a, 0x4);
    check_flags(&cpu, false, true, false, false);
}

#[test]
fn execute_sub_8bit_carry() {
    let mut cpu = new_cpu();
    cpu.registers.a = 0x4;
    cpu.registers.b = 0x9;
    cpu.execute(Instruction::SUB(ArithmeticTarget::B));

    assert_eq!(cpu.registers.a, 0xFB);
    check_flags(&cpu, false, true, true, true);
}

#[test]
fn execute_subc_8bit_non_overflow_target_a_no_carry() {
    let mut cpu = new_cpu();
    cpu.registers.a = 0x7;
    cpu.execute(Instruction::SBC(ArithmeticTarget::A));

    assert_eq!(cpu.registers.a, 0x0);
    check_flags(&cpu, true, true, false, false);
}

#[test]
fn execute_subc_8bit_non_overflow_target_a_with_carry() {
    let mut cpu = new_cpu();
    cpu.registers.a = 0x7;
    cpu.registers.f.carry = true;
    cpu.execute(Instruction::SBC(ArithmeticTarget::A));

    assert_eq!(cpu.registers.a, 0xFF);
    check_flags(&cpu, false, true, true, true);
}

#[test]
fn execute_subc_8bit_non_overflow_target_c_with_carry() {
    let mut cpu = new_cpu();
    cpu.registers.a = 0x7;
    cpu.registers.c = 0x3;
    cpu.registers.f.carry = true;
    cpu.execute(Instruction::SBC(ArithmeticTarget::C));

    assert_eq!(cpu.registers.a, 0x3);
    check_flags(&cpu, false, true, false, false);
}

#[test]
fn execute_and_8bit() {
    let mut cpu = new_cpu();
    cpu.registers.a = 0x7;
    cpu.execute(Instruction::AND(ArithmeticTarget::A));

    assert_eq!(cpu.registers.a, 0x7);
    check_flags(&cpu, false, false, true, false);
}

#[test]
fn execute_and_8bit_with_zero() {
    let mut cpu = new_cpu();
    cpu.registers.a = 0x8;
    cpu.execute(Instruction::AND(ArithmeticTarget::B));

    assert_eq!(cpu.registers.a, 0x0);
    check_flags(&cpu, true, false, true, false);
}

#[test]
fn execute_or_8bit() {
    let mut cpu = new_cpu();
    cpu.registers.a = 0x7;
    cpu.execute(Instruction::OR(ArithmeticTarget::A));

    assert_eq!(cpu.registers.a, 0x7);
    check_flags(&cpu, false, false, false, false);
}

#[test]
fn execute_or_8bit_with_zero() {
    let mut cpu = new_cpu();
    cpu.registers.a = 0x8;
    cpu.execute(Instruction::OR(ArithmeticTarget::B));

    assert_eq!(cpu.registers.a, 0x8);
    check_flags(&cpu, false, false, false, false);
}

#[test]
fn execute_xor_8bit() {
    let mut cpu = new_cpu();
    cpu.registers.a = 0b0000_0111;
    cpu.execute(Instruction::XOR(ArithmeticTarget::A));

    assert_eq!(cpu.registers.a, 0x0);
    check_flags(&cpu, true, false, false, false);
}

#[test]
fn execute_xor_8bit_with_zero() {
    let mut cpu = new_cpu();
    cpu.registers.a = 0x8;
    cpu.execute(Instruction::XOR(ArithmeticTarget::B));

    assert_eq!(cpu.registers.a, 0x8);
    check_flags(&cpu, false, false, false, false);
}

#[test]
fn execute_cp_8bit_non_underflow_target_a() {
    let mut cpu = new_cpu();
    cpu.registers.a = 0x7;
    cpu.execute(Instruction::CP(ArithmeticTarget::A));

    assert_eq!(cpu.registers.a, 0x7);
    check_flags(&cpu, true, true, false, false);
}

#[test]
fn execute_cp_8bit_non_underflow_target_c() {
    let mut cpu = new_cpu();
    cpu.registers.a = 0x7;
    cpu.registers.c = 0x3;
    cpu.execute(Instruction::CP(ArithmeticTarget::C));

    assert_eq!(cpu.registers.a, 0x7);
    check_flags(&cpu, false, true, false, false);
}

#[test]
fn execute_cp_8bit_non_overflow_target_c_with_carry() {
    let mut cpu = new_cpu();
    cpu.registers.a = 0x7;
    cpu.registers.c = 0x3;
    cpu.registers.f.carry = true;
    cpu.execute(Instruction::CP(ArithmeticTarget::C));

    assert_eq!(cpu.registers.a, 0x7);
    check_flags(&cpu, false, true, false, false);
}

#[test]
fn execute_cp_8bit_carry() {
    let mut cpu = new_cpu();
    cpu.registers.a = 0x4;
    cpu.registers.b = 0x9;
    cpu.execute(Instruction::CP(ArithmeticTarget::B));

    assert_eq!(cpu.registers.a, 0x4);
    check_flags(&cpu, false, true, true, true);
}

#[test]
fn execute_rra_8bit() {
    let mut cpu = new_cpu();
    cpu.registers.a = 0b1;
    cpu.execute(Instruction::RRA);

    assert_eq!(cpu.registers.a, 0x0);
    check_flags(&cpu, false, false, false, true);
}

#[test]
fn execute_rla_8bit() {
    let mut cpu = new_cpu();
    cpu.registers.a = 0x80;
    cpu.execute(Instruction::RLA);

    assert_eq!(cpu.registers.a, 0x0);
    check_flags(&cpu, false, false, false, true);
}

#[test]
fn execute_rrca_8bit() {
    let mut cpu = new_cpu();
    cpu.registers.a = 0b1;
    cpu.registers.f.carry = true;
    cpu.execute(Instruction::RRCA);

    assert_eq!(cpu.registers.a, 0x80);
    check_flags(&cpu, false, false, false, true);
}

#[test]
fn execute_rlca_8bit() {
    let mut cpu = new_cpu();
    cpu.registers.a = 0x80;
    cpu.registers.f.carry = true;
    cpu.execute(Instruction::RLCA);

    assert_eq!(cpu.registers.a, 0x1);
    check_flags(&cpu, false, false, false, true);
}

#[test]
fn execute_cpl_8bit() {
    let mut cpu = new_cpu();
    cpu.registers.a = 0b1011_0100;
    cpu.execute(Instruction::CPL);

    assert_eq!(cpu.registers.a, 0b0100_1011);
    check_flags(&cpu, false, true, true, false);
}

#[test]
fn execute_bit_8bit() {
    let mut cpu = new_cpu();
    cpu.registers.a = 0b1011_0100;
    cpu.execute(Instruction::BIT(PrefixTarget::A, BitPosition::B2));

    assert_eq!(cpu.registers.a, 0b1011_0100);
    check_flags(&cpu, false, false, true, false);

    let mut cpu = new_cpu();
    cpu.registers.a = 0b1011_0100;
    cpu.execute(Instruction::BIT(PrefixTarget::A, BitPosition::B1));
    assert_eq!(cpu.registers.a, 0b1011_0100);
    check_flags(&cpu, true, false, true, false);
}

#[test]
fn execute_res_8bit() {
    let mut cpu = new_cpu();
    cpu.registers.a = 0b1011_0100;
    cpu.execute(Instruction::RES(PrefixTarget::A, BitPosition::B2));

    assert_eq!(cpu.registers.a, 0b1011_0000);
    check_flags(&cpu, false, false, false, false);

    let mut cpu = new_cpu();
    cpu.registers.a = 0b1011_0100;
    cpu.execute(Instruction::RES(PrefixTarget::A, BitPosition::B1));
    assert_eq!(cpu.registers.a, 0b1011_0100);
    check_flags(&cpu, false, false, false, false);
}

#[test]
fn execute_set_8bit() {
    let mut cpu = new_cpu();
    cpu.registers.a = 0b1011_0100;
    cpu.execute(Instruction::SET(PrefixTarget::A, BitPosition::B2));

    assert_eq!(cpu.registers.a, 0b1011_0100);
    check_flags(&cpu, false, false, false, false);

    let mut cpu = new_cpu();
    cpu.registers.a = 0b1011_0100;
    cpu.execute(Instruction::SET(PrefixTarget::A, BitPosition::B1));
    assert_eq!(cpu.registers.a, 0b1011_0110);
    check_flags(&cpu, false, false, false, false);
}

#[test]
fn execute_srl_8bit() {
    let mut cpu = new_cpu();
    cpu.registers.a = 0b1011_0101;
    cpu.execute(Instruction::SRL(PrefixTarget::A));

    assert_eq!(cpu.registers.a, 0b0101_1010);
    check_flags(&cpu, false, false, false, true);
}

#[test]
fn execute_rr() {
    let mut cpu = new_cpu();
    cpu.registers.a = 0b1011_0101;
    cpu.execute(Instruction::RR(PrefixTarget::A));

    assert_eq!(cpu.registers.a, 0b0101_1010);
    check_flags(&cpu, false, false, false, true);

    let mut cpu = new_cpu();
    cpu.registers.a = 0b1011_0101;
    cpu.registers.f.carry = true;
    cpu.execute(Instruction::RR(PrefixTarget::A));

    assert_eq!(cpu.registers.a, 0b1101_1010);
    check_flags(&cpu, false, false, false, true);
}

#[test]
fn execute_rl() {
    let mut cpu = new_cpu();
    cpu.registers.a = 0b1011_0101;
    cpu.execute(Instruction::RL(PrefixTarget::A));

    assert_eq!(cpu.registers.a, 0b0110_1010);
    check_flags(&cpu, false, false, false, true);

    let mut cpu = new_cpu();
    cpu.registers.a = 0b1011_0101;
    cpu.registers.f.carry = true;
    cpu.execute(Instruction::RL(PrefixTarget::A));

    assert_eq!(cpu.registers.a, 0b0110_1011);
    check_flags(&cpu, false, false, false, true);
}

#[test]
fn execute_sra() {
    let mut cpu = new_cpu();
    cpu.registers.a = 0b1011_0101;
    cpu.execute(Instruction::SRA(PrefixTarget::A));

    assert_eq!(cpu.registers.a, 0b1101_1010);
    check_flags(&cpu, false, false, false, true);
}

#[test]
fn execute_sla() {
    let mut cpu = new_cpu();
    cpu.registers.a = 0b1011_0101;
    cpu.execute(Instruction::SLA(PrefixTarget::A));

    assert_eq!(cpu.registers.a, 0b0110_1010);
    check_flags(&cpu, false, false, false, true);
}

#[test]
fn execute_swap() {
    let mut cpu = new_cpu();
    cpu.registers.a = 0b1011_0101;
    cpu.execute(Instruction::SWAP(PrefixTarget::A));

    assert_eq!(cpu.registers.a, 0b0101_1011);
    check_flags(&cpu, false, false, false, false);
}

#[test]
fn execute_jp() {
    let mut cpu = new_cpu();
    cpu.pc = 0xF8;
    cpu.bus.rom_bank_0[0xF9] = 0xFC;
    cpu.bus.rom_bank_0[0xFA] = 0x02;
    let (next_pc, _) = cpu.execute(Instruction::JP(JumpTest::Always));

    assert_eq!(next_pc, 0x02FC);

    let (next_pc, _) = cpu.execute(Instruction::JP(JumpTest::Carry));

    assert_eq!(next_pc, 0xFB);
}

#[test]
fn execute_jr() {
    let mut cpu = new_cpu();
    cpu.pc = 0xF8;
    cpu.bus.rom_bank_0[0xF9] = 0x4;
    let (next_pc, _) = cpu.execute(Instruction::JR(JumpTest::Always));

    assert_eq!(next_pc, 0xFE);

    cpu.bus.rom_bank_0[0xF9] = 0xFC; // == -4
    let (next_pc, _) = cpu.execute(Instruction::JR(JumpTest::Always));
    assert_eq!(next_pc, 0xF6);
}

#[test]
fn execute_ld_a_indirect() {
    let mut cpu = new_cpu();
    cpu.registers.set_bc(0xF9);
    cpu.bus.rom_bank_0[0xF9] = 0x4;
    cpu.execute(Instruction::LD(LoadType::AFromIndirect(Indirect::BCIndirect)));

    assert_eq!(cpu.registers.a, 0x04);

    cpu.registers.set_hl(0xA1);
    cpu.bus.rom_bank_0[0xA1] = 0x9;
    cpu.execute(Instruction::LD(LoadType::AFromIndirect(Indirect::HLIndirectPlus)));

    assert_eq!(cpu.registers.a, 0x09);
    assert_eq!(cpu.registers.get_hl(), 0xA2);
}

#[test]
fn execute_ld_byte() {
    let mut cpu = new_cpu();
    cpu.registers.b = 0x4;
    cpu.execute(Instruction::LD(LoadType::Byte(LoadByteTarget::D, LoadByteSource::B)));

    assert_eq!(cpu.registers.b, 0x4);
    assert_eq!(cpu.registers.d, 0x4);
}

#[test]
fn execute_push_pop() {
    let mut cpu = new_cpu();
    cpu.registers.b = 0x4;
    cpu.registers.c = 0x89;
    cpu.sp = 0x10;
    cpu.execute(Instruction::PUSH(StackTarget::BC));

    assert_eq!(cpu.bus.read_byte(0xF), 0x04);
    assert_eq!(cpu.bus.read_byte(0xE), 0x89);
    assert_eq!(cpu.sp, 0xE);

    cpu.execute(Instruction::POP(StackTarget::DE));

    assert_eq!(cpu.registers.d, 0x04);
    assert_eq!(cpu.registers.e, 0x89);
}

#[test]
fn test_step() {
    let mut cpu = new_cpu();
    cpu.bus.rom_bank_0[0] = 0x23; //INC(HL)
    cpu.bus.rom_bank_0[1] = 0xB5; //OR(L)
    cpu.bus.rom_bank_0[2] = 0xCB; //PREFIX
    cpu.bus.rom_bank_0[3] = 0xe8; //SET(B, 5)
    for _ in 0..3 {
        cpu.step();
    }

    assert_eq!(cpu.registers.h, 0b0);
    assert_eq!(cpu.registers.l, 0b1);
    assert_eq!(cpu.registers.a, 0b1);
    assert_eq!(cpu.registers.b, 0b0010_0000);
}
