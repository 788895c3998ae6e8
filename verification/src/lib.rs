//! A Game Boy (DMG-01) emulator core: CPU interpreter, memory bus, picture
//! processing unit, timer and joypad, with every function verified against a
//! mathematical model of the hardware state.

pub mod cpu;
pub mod gpu;
pub mod host;
pub mod interrupt_flags;
pub mod joypad;
pub mod memory_bus;
pub mod timer;
pub mod utils;

pub use cpu::flags_register::FlagsRegister;
pub use cpu::CPU;
pub use cpu::registers::Registers;
pub use joypad::Joypad;
