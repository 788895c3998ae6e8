use dmg_01::cpu::flags_register::FlagsRegister;
use dmg_01::cpu::registers::{Register, Registers};
use dmg_01::interrupt_flags::InterruptFlags;
use dmg_01::joypad::{Button, Column, Joypad};
use dmg_01::timer::{Frequency, Timer};

#[test]
fn flags_round_trip_keeps_the_high_nibble() {
    for byte in 0..=255u8 {
        let flags = FlagsRegister::from_byte(byte);
        assert_eq!(flags.to_byte(), byte & 0xF0);
        assert_eq!(FlagsRegister::from_byte(flags.to_byte()), flags);
    }
}

#[test]
fn every_register_reads_what_was_written() {
    let singles = [
        Register::A,
        Register::B,
        Register::C,
        Register::D,
        Register::E,
        Register::H,
        Register::L,
    ];
    for register in singles {
        for value in 0..=255u16 {
            let mut registers = Registers::new();
            registers.set_register(register, value);
            assert_eq!(registers.get_register(register), value);
            assert_eq!(registers.get8(register) as u16, value);
        }
    }
    for value in 0..=255u16 {
        let mut registers = Registers::new();
        registers.set_register(Register::F, value);
        assert_eq!(registers.get_register(Register::F), value & 0xF0);
    }
}

#[test]
fn register_accessors_read_what_was_set() {
    let mut registers = Registers::new();
    registers.set_a(1);
    registers.set_b(2);
    registers.set_c(3);
    registers.set_d(4);
    registers.set_e(5);
    registers.set_h(6);
    registers.set_l(7);
    assert_eq!(registers.get_a(), 1);
    assert_eq!(registers.get_b(), 2);
    assert_eq!(registers.get_c(), 3);
    assert_eq!(registers.get_d(), 4);
    assert_eq!(registers.get_e(), 5);
    assert_eq!(registers.get_h(), 6);
    assert_eq!(registers.get_l(), 7);
    assert_eq!(registers.get_bc(), 0x0203);
    assert_eq!(registers.get_de(), 0x0405);
    assert_eq!(registers.get_hl(), 0x0607);
}

#[test]
fn every_pair_reads_what_was_written() {
    for value in [0x0000u16, 0x0001, 0x00FF, 0x0100, 0x1234, 0xABCD, 0xFF00, 0xFFFF] {
        let mut registers = Registers::new();
        registers.set_bc(value);
        assert_eq!(registers.get_bc(), value);
        assert_eq!(registers.b, (value >> 8) as u8);
        assert_eq!(registers.c, (value & 0xFF) as u8);
        registers.set_de(value);
        assert_eq!(registers.get_de(), value);
        assert_eq!(registers.d, (value >> 8) as u8);
        assert_eq!(registers.e, (value & 0xFF) as u8);
        registers.set_hl(value);
        assert_eq!(registers.get_hl(), value);
        assert_eq!(registers.h, (value >> 8) as u8);
        assert_eq!(registers.l, (value & 0xFF) as u8);
        registers.set_af(value);
        assert_eq!(registers.get_af(), value & 0xFFF0);
        assert_eq!(registers.a, (value >> 8) as u8);
    }
}

#[test]
fn writing_af_clears_the_low_nibble_of_f() {
    let mut registers = Registers::new();
    registers.set_af(0x12FF);
    assert_eq!(registers.get_af(), 0x12F0);
    assert!(registers.f.zero && registers.f.subtract && registers.f.half_carry);
    assert!(registers.f.carry);
    registers.set_af(0x340F);
    assert_eq!(registers.get_af(), 0x3400);
    assert_eq!(registers.f, FlagsRegister::new());
}

#[test]
fn interrupt_flags_pack_into_the_low_five_bits() {
    let mut flags = InterruptFlags::new();
    assert_eq!(flags.to_byte(), 0xE0);
    flags.vblank = true;
    assert_eq!(flags.to_byte(), 0xE1);
    flags.timer = true;
    assert_eq!(flags.to_byte(), 0xE5);
    flags.joypad = true;
    assert_eq!(flags.to_byte(), 0xF5);
    flags.from_byte(0b0000_1010);
    assert!(!flags.vblank && flags.lcdstat && !flags.timer && flags.serial && !flags.joypad);
    for byte in 0..=255u8 {
        flags.from_byte(byte);
        assert_eq!(flags.to_byte(), byte | 0xE0);
    }
}

#[test]
fn joypad_reads_pressed_buttons_as_zero() {
    let mut joypad = Joypad::new();
    assert_eq!(joypad.to_byte(), 0b0010_1111);
    joypad.set_button(Button::Down, true);
    assert_eq!(joypad.to_byte(), 0b0010_0111);
    joypad.set_button(Button::Right, true);
    assert_eq!(joypad.to_byte(), 0b0010_0110);
    joypad.set_button(Button::A, true);
    joypad.set_button(Button::Start, true);
    assert_eq!(joypad.to_byte(), 0b0010_0110);
    joypad.column = Column::One;
    assert_eq!(joypad.to_byte(), 0b0001_0110);
    joypad.set_button(Button::A, false);
    joypad.set_button(Button::B, true);
    joypad.set_button(Button::Select, true);
    assert_eq!(joypad.to_byte(), 0b0001_0001);
    joypad.column = Column::Zero;
    joypad.set_button(Button::Up, true);
    joypad.set_button(Button::Left, true);
    assert_eq!(joypad.to_byte(), 0b0010_0000);
}

#[test]
fn frequencies_give_the_cycles_per_tick() {
    assert_eq!(Frequency::F4096.cycles_per_tick(), 1024);
    assert_eq!(Frequency::F16384.cycles_per_tick(), 256);
    assert_eq!(Frequency::F65536.cycles_per_tick(), 64);
    assert_eq!(Frequency::F262144.cycles_per_tick(), 16);
}

#[test]
fn stopped_timer_only_advances_the_divider() {
    let mut timer = Timer::new(Frequency::F262144);
    for _ in 0..100 {
        assert!(!timer.step(200));
    }
    assert_eq!(timer.value, 0);
    assert_eq!(timer.cycles, 0);
    assert_eq!(timer.divider_counter, 20000);
    assert_eq!(timer.divider(), (20000 / 256) as u8);
}

#[test]
fn timer_ticks_when_the_accumulator_reaches_the_period() {
    let mut timer = Timer::new(Frequency::F262144);
    timer.on = true;
    assert!(!timer.step(15));
    assert_eq!(timer.value, 0);
    assert_eq!(timer.cycles, 15);
    assert!(!timer.step(1));
    assert_eq!(timer.value, 1);
    assert_eq!(timer.cycles, 0);
    assert!(!timer.step(20));
    assert_eq!(timer.value, 2);
    assert_eq!(timer.cycles, 4);
}

#[test]
fn timer_overflow_reloads_and_requests_the_interrupt() {
    let mut timer = Timer::new(Frequency::F65536);
    timer.on = true;
    timer.value = 0xFF;
    timer.modulo = 0x42;
    assert!(!timer.step(63));
    assert_eq!(timer.value, 0xFF);
    assert!(timer.step(1));
    assert_eq!(timer.value, 0x42);
    assert!(!timer.step(64));
    assert_eq!(timer.value, 0x43);
}

#[test]
fn divider_wraps_and_resets() {
    let mut timer = Timer::new(Frequency::F4096);
    timer.divider_counter = 0xFFFF;
    timer.step(2);
    assert_eq!(timer.divider_counter, 1);
    assert_eq!(timer.divider(), 0);
    timer.divider_counter = 0x1234;
    assert_eq!(timer.divider(), 0x12);
    timer.reset_divider();
    assert_eq!(timer.divider_counter, 0);
}
