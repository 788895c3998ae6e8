//! The memory bus: which part of the machine answers at each of the 65536
//! addresses, the register file of the I/O page, and the forwarding of elapsed
//! cycles to the timer and the picture processing unit.

use crate::gpu::{InterruptRequest, GPU};
use crate::interrupt_flags::InterruptFlags;
use crate::joypad::{Column, Joypad};
use crate::timer::{Frequency, Timer};
use crate::utils::lemma_test_bits;
use vstd::array::spec_array_update;
use vstd::prelude::*;

verus! {

pub const BOOT_ROM_BEGIN: usize = 0x00;

pub const BOOT_ROM_END: usize = 0xFF;

pub const BOOT_ROM_SIZE: usize = 0x100;

pub const ROM_BANK_0_BEGIN: usize = 0x0000;

pub const ROM_BANK_0_END: usize = 0x3FFF;

pub const ROM_BANK_0_SIZE: usize = 0x4000;

pub const ROM_BANK_N_BEGIN: usize = 0x4000;

pub const ROM_BANK_N_END: usize = 0x7FFF;

pub const ROM_BANK_N_SIZE: usize = 0x4000;

pub const EXTERNAL_RAM_BEGIN: usize = 0xA000;

pub const EXTERNAL_RAM_END: usize = 0xBFFF;

pub const EXTERNAL_RAM_SIZE: usize = 0x2000;

pub const WORKING_RAM_BEGIN: usize = 0xC000;

pub const WORKING_RAM_END: usize = 0xDFFF;

pub const WORKING_RAM_SIZE: usize = 0x2000;

pub const ECHO_RAM_BEGIN: usize = 0xE000;

pub const ECHO_RAM_END: usize = 0xFDFF;

pub const OAM_BEGIN: usize = 0xFE00;

pub const OAM_END: usize = 0xFE9F;

pub const UNUSED_BEGIN: usize = 0xFEA0;

pub const UNUSED_END: usize = 0xFEFF;

pub const IO_REGISTERS_BEGIN: usize = 0xFF00;

pub const IO_REGISTERS_END: usize = 0xFF7F;

pub const ZERO_PAGE_BEGIN: usize = 0xFF80;

pub const ZERO_PAGE_END: usize = 0xFFFE;

pub const ZERO_PAGE_SIZE: usize = 0x7F;

pub const INTERRUPT_ENABLE_REGISTER: usize = 0xFFFF;

pub const VBLANK_VECTOR: u16 = 0x40;

pub const LCDSTAT_VECTOR: u16 = 0x48;

pub const TIMER_VECTOR: u16 = 0x50;

pub const SERIAL_VECTOR: u16 = 0x58;

pub const JOYPAD_VECTOR: u16 = 0x60;

/// Bytes that one OAM transfer copies.
pub const DMA_LENGTH: u16 = 160;

/// Everything that the processor reaches through an address.
pub struct MemoryBus {
    /// The boot ROM, while it is mounted over the first 256 bytes.
    pub boot_rom: Option<[u8; 0x100]>,
    pub rom_bank_0: [u8; 0x4000],
    pub rom_bank_n: [u8; 0x4000],
    pub external_ram: [u8; 0x2000],
    pub working_ram: [u8; 0x2000],
    pub zero_page: [u8; 0x7F],
    pub gpu: GPU,
    pub interrupt_enable: InterruptFlags,
    pub interrupt_flag: InterruptFlags,
    pub timer: Timer,
    pub joypad: Joypad,
    /// The byte last written to the OAM transfer register.
    pub dma_source: u8,
}

/// The byte that an I/O address without a register behind it reads as.
pub open spec fn unmapped_io_value() -> u8 {
    0xFF
}

impl MemoryBus {
    /// The parts that keep an invariant keep it, and the tile cache is in step
    /// with video memory.
    pub open spec fn wf(self) -> bool {
        self.gpu.wf() && self.timer.wf() && self.gpu.tiles_coherent()
    }

    /// Whether an interrupt is both enabled and requested.
    pub open spec fn spec_has_interrupt(self) -> bool {
        self.interrupt_enable.intersects(self.interrupt_flag)
    }

    /// The byte that the I/O register at `address` reads as; 0xFF where the
    /// address has no register that can be read.
    pub open spec fn spec_read_io_register(self, address: u16) -> u8 {
        if address == 0xFF00 {
            self.joypad.spec_to_byte()
        } else if Timer::is_register(address) {
            self.timer.spec_read_register(address)
        } else if address == 0xFF0F {
            self.interrupt_flag.spec_to_byte()
        } else if address == 0xFF46 {
            self.dma_source
        } else if GPU::is_register(address) {
            self.gpu.spec_read_register(address)
        } else {
            unmapped_io_value()
        }
    }

    /// The byte at `address`.
    ///
    /// The first 256 addresses show the boot ROM while it is mounted and the
    /// cartridge after that; then come the two ROM banks, video memory,
    /// external RAM, work RAM and its echo, sprite attribute memory, 96
    /// unused addresses that read as zero, the I/O registers, high RAM, and
    /// at the last address the interrupt-enable register.
    #[verifier::opaque]
    pub open spec fn spec_read_byte(self, address: u16) -> u8 {
        if address < 0x100 && self.boot_rom is Some {
            self.boot_rom->0[address as int]
        } else if address < 0x4000 {
            self.rom_bank_0[address as int]
        } else if address < 0x8000 {
            self.rom_bank_n[address - 0x4000]
        } else if address < 0xA000 {
            self.gpu.vram[address - 0x8000]
        } else if address < 0xC000 {
            self.external_ram[address - 0xA000]
        } else if address < 0xE000 {
            self.working_ram[address - 0xC000]
        } else if address < 0xFE00 {
            self.working_ram[address - 0xE000]
        } else if address < 0xFEA0 {
            self.gpu.oam[address - 0xFE00]
        } else if address < 0xFF00 {
            0
        } else if address < 0xFF80 {
            self.spec_read_io_register(address)
        } else if address < 0xFFFF {
            self.zero_page[address - 0xFF80]
        } else {
            self.interrupt_enable.spec_to_byte()
        }
    }

    /// The bus after the first `count` bytes of an OAM transfer from `source`:
    /// byte after byte is read through the bus and stored in sprite attribute
    /// memory.
    pub open spec fn spec_dma(self, source: u16, count: nat) -> MemoryBus
        decreases count,
    {
        if count == 0 {
            self
        } else {
            let before = self.spec_dma(source, (count - 1) as nat);
            MemoryBus {
                gpu: before.gpu.spec_write_oam(
                    count - 1,
                    before.spec_read_byte((source + count - 1) as u16),
                ),
                ..before
            }
        }
    }

    /// The bus after `value` is written to the I/O register at `address`: the
    /// joypad register takes the column selector, with bit 5 clear for column
    /// One; the timer and the picture processing unit take what is theirs;
    /// 0xFF46 starts an OAM transfer from the page that `value` names; 0xFF50
    /// unmounts the boot ROM for good. Sound registers and addresses without
    /// a register take the write and drop it.
    pub open spec fn spec_write_io_register(self, address: u16, value: u8) -> MemoryBus {
        if address == 0xFF00 {
            MemoryBus {
                joypad: Joypad {
                    column: if value / 32 % 2 == 0 {
                        Column::One
                    } else {
                        Column::Zero
                    },
                    ..self.joypad
                },
                ..self
            }
        } else if Timer::is_register(address) {
            MemoryBus { timer: self.timer.spec_write_register(address, value), ..self }
        } else if address == 0xFF0F {
            MemoryBus { interrupt_flag: InterruptFlags::spec_from_byte(value), ..self }
        } else if address == 0xFF46 {
            (MemoryBus { dma_source: value, ..self }).spec_dma((value as u16 * 256) as u16, 160)
        } else if GPU::is_register(address) {
            MemoryBus { gpu: self.gpu.spec_write_register(address, value), ..self }
        } else if address == 0xFF50 {
            MemoryBus { boot_rom: None, ..self }
        } else {
            self
        }
    }

    /// The bus after `value` is written at `address`.
    ///
    /// ROM bank 0, external RAM, work RAM, sprite attribute memory and high
    /// RAM store the byte; video memory stores it and brings the tile cache
    /// up to date; the echo of work RAM stores it in work RAM; ROM bank N and
    /// the unused addresses drop it; the I/O page and the interrupt-enable
    /// register act on it.
    #[verifier::opaque]
    pub open spec fn spec_write_byte(self, address: u16, value: u8) -> MemoryBus {
        if address < 0x4000 {
            MemoryBus { rom_bank_0: spec_array_update(self.rom_bank_0, address as int, value), ..self }
        } else if address < 0x8000 {
            self
        } else if address < 0xA000 {
            MemoryBus { gpu: self.gpu.spec_write_vram(address - 0x8000, value), ..self }
        } else if address < 0xC000 {
            MemoryBus {
                external_ram: spec_array_update(self.external_ram, address - 0xA000, value),
                ..self
            }
        } else if address < 0xE000 {
            MemoryBus {
                working_ram: spec_array_update(self.working_ram, address - 0xC000, value),
                ..self
            }
        } else if address < 0xFE00 {
            MemoryBus {
                working_ram: spec_array_update(self.working_ram, address - 0xE000, value),
                ..self
            }
        } else if address < 0xFEA0 {
            MemoryBus { gpu: self.gpu.spec_write_oam(address - 0xFE00, value), ..self }
        } else if address < 0xFF00 {
            self
        } else if address < 0xFF80 {
            self.spec_write_io_register(address, value)
        } else if address < 0xFFFF {
            MemoryBus {
                zero_page: spec_array_update(self.zero_page, address - 0xFF80, value),
                ..self
            }
        } else {
            MemoryBus { interrupt_enable: InterruptFlags::spec_from_byte(value), ..self }
        }
    }

    /// The bus after `cycles` cycles: the timer and the picture processing
    /// unit each advance by all of them, and the interrupts that they ask for
    /// are added to the requested ones.
    #[verifier::opaque]
    pub open spec fn spec_step(self, cycles: u8) -> MemoryBus {
        let timer = self.timer.spec_step(cycles);
        let gpu = self.gpu.spec_step(cycles);
        MemoryBus {
            timer: timer.0,
            gpu: gpu.0,
            interrupt_flag: InterruptFlags {
                timer: self.interrupt_flag.timer || timer.1,
                vblank: self.interrupt_flag.vblank || gpu.1.vblank(),
                lcdstat: self.interrupt_flag.lcdstat || gpu.1.lcdstat(),
                ..self.interrupt_flag
            },
            ..self
        }
    }

    /// The bus after the host reports the buttons in `joypad`: the buttons
    /// are taken over, the column selector stays, and the joypad interrupt is
    /// requested when a button of the selected column changed.
    pub open spec fn spec_set_joypad(self, joypad: Joypad) -> MemoryBus {
        MemoryBus {
            joypad: Joypad { column: self.joypad.column, ..joypad },
            interrupt_flag: InterruptFlags {
                joypad: self.interrupt_flag.joypad || self.joypad.selected_buttons_differ(joypad),
                ..self.interrupt_flag
            },
            ..self
        }
    }

    /// What holds of a bus that was just made from a boot ROM and a
    /// cartridge: the boot ROM is mounted where one was given, the two ROM
    /// banks hold the first 32 KiB of the cartridge, all RAM is zero, and
    /// every component is in its power-on state.
    pub open spec fn is_initial(self, boot_rom: Option<Seq<u8>>, game_rom: Seq<u8>) -> bool {
        &&& (boot_rom is Some) == (self.boot_rom is Some)
        &&& boot_rom is Some ==> forall|i: int|
            0 <= i < 0x100 ==> (#[trigger] self.boot_rom->0[i]) == boot_rom->0[i]
        &&& forall|i: int| 0 <= i < 0x4000 ==> (#[trigger] self.rom_bank_0[i]) == game_rom[i]
        &&& forall|i: int|
            0 <= i < 0x4000 ==> (#[trigger] self.rom_bank_n[i]) == game_rom[0x4000 + i]
        &&& forall|i: int| 0 <= i < 0x2000 ==> (#[trigger] self.external_ram[i]) == 0
        &&& forall|i: int| 0 <= i < 0x2000 ==> (#[trigger] self.working_ram[i]) == 0
        &&& forall|i: int| 0 <= i < 0x7F ==> (#[trigger] self.zero_page[i]) == 0
        &&& self.gpu.is_initial()
        &&& self.interrupt_enable == InterruptFlags::spec_from_byte(0)
        &&& self.interrupt_flag == InterruptFlags::spec_from_byte(0)
        &&& self.timer == (Timer {
            frequency: Frequency::F4096,
            cycles: 0,
            value: 0,
            modulo: 0,
            on: false,
            divider_counter: 0,
        })
        &&& self.joypad == (Joypad {
            column: Column::Zero,
            start: false,
            select: false,
            b: false,
            a: false,
            down: false,
            up: false,
            left: false,
            right: false,
        })
        &&& self.dma_source == 0
    }

    /// Makes the bus of a machine with the given cartridge, and with the boot
    /// ROM mounted if one is given.
    pub fn new(boot_rom_buffer: Option<Vec<u8>>, game_rom: Vec<u8>) -> (bus: MemoryBus)
        requires
            boot_rom_buffer matches Some(buffer) ==> buffer.len() == BOOT_ROM_SIZE,
            game_rom.len() >= ROM_BANK_0_SIZE + ROM_BANK_N_SIZE,
        ensures
            bus.is_initial(
                match boot_rom_buffer {
                    Some(buffer) => Some(buffer@),
                    None => None,
                },
                game_rom@,
            ),
            bus.wf(),
    {
        let boot_rom = match &boot_rom_buffer {
            Some(buffer) => {
                let mut boot_rom = [0u8; 0x100];
                let mut i: usize = 0;
                while i < BOOT_ROM_SIZE
                    invariant
                        i <= BOOT_ROM_SIZE,
                        buffer.len() == BOOT_ROM_SIZE,
                        forall|j: int| 0 <= j < i ==> (#[trigger] boot_rom[j]) == buffer[j],
                    decreases BOOT_ROM_SIZE - i,
                {
                    boot_rom[i] = buffer[i];
                    i += 1;
                }
                Some(boot_rom)
            },
            None => None,
        };

        let mut rom_bank_0 = [0u8; 0x4000];
        let mut i: usize = 0;
        while i < ROM_BANK_0_SIZE
            invariant
                i <= ROM_BANK_0_SIZE,
                game_rom.len() >= ROM_BANK_0_SIZE + ROM_BANK_N_SIZE,
                forall|j: int| 0 <= j < i ==> (#[trigger] rom_bank_0[j]) == game_rom[j],
            decreases ROM_BANK_0_SIZE - i,
        {
            rom_bank_0[i] = game_rom[i];
            i += 1;
        }
        let mut rom_bank_n = [0u8; 0x4000];
        let mut i: usize = 0;
        while i < ROM_BANK_N_SIZE
            invariant
                i <= ROM_BANK_N_SIZE,
                game_rom.len() >= ROM_BANK_0_SIZE + ROM_BANK_N_SIZE,
                forall|j: int| 0 <= j < i ==> (#[trigger] rom_bank_n[j]) == game_rom[0x4000 + j],
            decreases ROM_BANK_N_SIZE - i,
        {
            rom_bank_n[i] = game_rom[ROM_BANK_0_SIZE + i];
            i += 1;
        }
        MemoryBus {
            boot_rom,
            rom_bank_0,
            rom_bank_n,
            external_ram: [0u8; 0x2000],
            working_ram: [0u8; 0x2000],
            zero_page: [0u8; 0x7F],
            gpu: GPU::new(),
            interrupt_enable: InterruptFlags::new(),
            interrupt_flag: InterruptFlags::new(),
            timer: Timer::new(Frequency::F4096),
            joypad: Joypad::new(),
            dma_source: 0,
        }
    }

    /// Forwards `cycles` cycles to the timer and to the picture processing
    /// unit and gathers the interrupts that they ask for.
    pub fn step(&mut self, cycles: u8)
        requires
            old(self).wf(),
        ensures
            *final(self) == old(self).spec_step(cycles),
            final(self).wf(),
    {
        reveal(MemoryBus::spec_step);
        let timer_interrupt = self.timer.step(cycles);
        let request = self.gpu.step(cycles);
        let (vblank, lcd) = match request {
            InterruptRequest::Both => (true, true),
            InterruptRequest::VBlank => (true, false),
            InterruptRequest::LCDStat => (false, true),
            InterruptRequest::Nothing => (false, false),
        };
        self.interrupt_flag.timer = self.interrupt_flag.timer || timer_interrupt;
        self.interrupt_flag.vblank = self.interrupt_flag.vblank || vblank;
        self.interrupt_flag.lcdstat = self.interrupt_flag.lcdstat || lcd;
    }

    /// Whether an interrupt is both enabled and requested.
    pub fn has_interrupt(&self) -> (pending: bool)
        ensures
            pending == self.spec_has_interrupt(),
    {
        (self.interrupt_enable.vblank && self.interrupt_flag.vblank) || (
        self.interrupt_enable.lcdstat && self.interrupt_flag.lcdstat) || (
        self.interrupt_enable.timer && self.interrupt_flag.timer) || (self.interrupt_enable.serial
            && self.interrupt_flag.serial) || (self.interrupt_enable.joypad
            && self.interrupt_flag.joypad)
    }

    /// Reads the byte at `address`.
    pub fn read_byte(&self, address: u16) -> (value: u8)
        ensures
            value == self.spec_read_byte(address),
    {
        reveal(MemoryBus::spec_read_byte);
        let index = address as usize;
        if index <= BOOT_ROM_END {
            match &self.boot_rom {
                Some(boot_rom) => boot_rom[index],
                None => self.rom_bank_0[index],
            }
        } else if index <= ROM_BANK_0_END {
            self.rom_bank_0[index]
        } else if index <= ROM_BANK_N_END {
            self.rom_bank_n[index - ROM_BANK_N_BEGIN]
        } else if index <= crate::gpu::VRAM_END {
            self.gpu.vram[index - crate::gpu::VRAM_BEGIN]
        } else if index <= EXTERNAL_RAM_END {
            self.external_ram[index - EXTERNAL_RAM_BEGIN]
        } else if index <= WORKING_RAM_END {
            self.working_ram[index - WORKING_RAM_BEGIN]
        } else if index <= ECHO_RAM_END {
            self.working_ram[index - ECHO_RAM_BEGIN]
        } else if index <= OAM_END {
            self.gpu.oam[index - OAM_BEGIN]
        } else if index <= UNUSED_END {
            0
        } else if index <= IO_REGISTERS_END {
            self.read_io_register(address)
        } else if index <= ZERO_PAGE_END {
            self.zero_page[index - ZERO_PAGE_BEGIN]
        } else {
            self.interrupt_enable.to_byte()
        }
    }

    /// Reads the I/O register at `address`.
    pub fn read_io_register(&self, address: u16) -> (value: u8)
        ensures
            value == self.spec_read_io_register(address),
    {
        if address == 0xFF00 {
            self.joypad.to_byte()
        } else if 0xFF04 <= address && address <= 0xFF07 {
            self.timer.read_register(address)
        } else if address == 0xFF0F {
            self.interrupt_flag.to_byte()
        } else if address == 0xFF46 {
            self.dma_source
        } else if 0xFF40 <= address && address <= 0xFF4B {
            self.gpu.read_register(address)
        } else {
            0xFF
        }
    }

    /// Writes `value` at `address`.
    pub fn write_byte(&mut self, address: u16, value: u8)
        requires
            old(self).wf(),
        ensures
            *final(self) == old(self).spec_write_byte(address, value),
            final(self).wf(),
    {
        reveal(MemoryBus::spec_write_byte);
        let index = address as usize;
        if index <= ROM_BANK_0_END {
            self.rom_bank_0[index] = value;
        } else if index <= ROM_BANK_N_END {
            // The cartridge has no bank controller that would listen here.
        } else if index <= crate::gpu::VRAM_END {
            self.gpu.write_vram(index - crate::gpu::VRAM_BEGIN, value);
        } else if index <= EXTERNAL_RAM_END {
            self.external_ram[index - EXTERNAL_RAM_BEGIN] = value;
        } else if index <= WORKING_RAM_END {
            self.working_ram[index - WORKING_RAM_BEGIN] = value;
        } else if index <= ECHO_RAM_END {
            self.working_ram[index - ECHO_RAM_BEGIN] = value;
        } else if index <= OAM_END {
            self.gpu.write_oam(index - OAM_BEGIN, value);
        } else if index <= UNUSED_END {
            // Nothing lives at these addresses.
        } else if index <= IO_REGISTERS_END {
            self.write_io_register(address, value);
        } else if index <= ZERO_PAGE_END {
            self.zero_page[index - ZERO_PAGE_BEGIN] = value;
        } else {
            self.interrupt_enable.from_byte(value);
        }
    }

    /// Copies 160 bytes, read through the bus from `source` on, into sprite
    /// attribute memory.
    pub fn dma_transfer(&mut self, source: u16)
        requires
            source <= 0xFF00,
        ensures
            *final(self) == old(self).spec_dma(source, 160),
            final(self).wf() == old(self).wf(),
    {
        let ghost start = *self;
        let mut offset: u16 = 0;
        while offset < DMA_LENGTH
            invariant
                offset <= DMA_LENGTH,
                source <= 0xFF00,
                *self == start.spec_dma(source, offset as nat),
                self.wf() == start.wf(),
            decreases DMA_LENGTH - offset,
        {
            let byte = self.read_byte(source + offset);
            self.gpu.write_oam(offset as usize, byte);
            assert(*self == start.spec_dma(source, (offset + 1) as nat));
            offset += 1;
        }
    }

    /// Writes `value` to the I/O register at `address`.
    pub fn write_io_register(&mut self, address: u16, value: u8)
        requires
            old(self).wf(),
        ensures
            *final(self) == old(self).spec_write_io_register(address, value),
            final(self).wf(),
    {
        if address == 0xFF00 {
            proof {
                lemma_test_bits(value);
            }
            self.joypad.column = if (value & 0x20) == 0 {
                Column::One
            } else {
                Column::Zero
            };
        } else if 0xFF04 <= address && address <= 0xFF07 {
            self.timer.write_register(address, value);
        } else if address == 0xFF0F {
            self.interrupt_flag.from_byte(value);
        } else if address == 0xFF46 {
            self.dma_source = value;
            self.dma_transfer((value as u16) * 256);
        } else if 0xFF40 <= address && address <= 0xFF4B {
            self.gpu.write_register(address, value);
        } else if address == 0xFF50 {
            // Unmount the boot ROM.
            self.boot_rom = None;
        } else {
            // Sound, serial and everything else: accepted and dropped.
        }
    }

    /// Takes over the buttons that the host reports.
    pub fn set_joypad(&mut self, joypad: Joypad)
        ensures
            *final(self) == old(self).spec_set_joypad(joypad),
            final(self).wf() == old(self).wf(),
    {
        let changed = if self.joypad.reading_column_0() {
            self.joypad.down != joypad.down || self.joypad.up != joypad.up || self.joypad.left
                != joypad.left || self.joypad.right != joypad.right
        } else {
            self.joypad.start != joypad.start || self.joypad.select != joypad.select
                || self.joypad.b != joypad.b || self.joypad.a != joypad.a
        };
        let column = self.joypad.column;
        self.joypad = joypad;
        self.joypad.column = column;
        self.interrupt_flag.joypad = self.interrupt_flag.joypad || changed;
    }

    /// The bytes at the addresses from `start` up to `end`, `end` left out.
    pub fn slice(&self, start: u16, end: u16) -> (bytes: Vec<u8>)
        requires
            start <= end,
        ensures
            bytes.len() == end - start,
            forall|i: int|
                0 <= i < end - start ==> (#[trigger] bytes[i]) == self.spec_read_byte(
                    (start + i) as u16,
                ),
    {
        let mut result = Vec::with_capacity((end - start) as usize);
        let mut address = start;
        while address < end
            invariant
                start <= address <= end,
                result.len() == address - start,
                forall|i: int|
                    0 <= i < address - start ==> (#[trigger] result[i]) == self.spec_read_byte(
                        (start + i) as u16,
                    ),
            decreases end - address,
        {
            result.push(self.read_byte(address));
            address += 1;
        }
        result
    }
}

/// Whether `address` lies in memory that keeps what is written to it: ROM
/// bank 0, video memory, external RAM, work RAM and its echo, sprite attribute
/// memory or high RAM.
pub open spec fn is_plain_memory(address: u16) -> bool {
    address < 0x4000 || 0x8000 <= address < 0xFEA0 || 0xFF80 <= address < 0xFFFF
}

/// Whether two addresses name the same byte: they are equal, or one lies in
/// work RAM and the other is its echo.
pub open spec fn same_byte(first: u16, second: u16) -> bool {
    first == second || (0xC000 <= first < 0xDE00 && second == first + 0x2000) || (0xC000 <= second
        < 0xDE00 && first == second + 0x2000)
}

/// A byte written to plain memory is the byte read back from there, unless
/// the boot ROM is mounted and covers the address.
pub proof fn lemma_write_then_read(bus: MemoryBus, address: u16, value: u8)
    requires
        is_plain_memory(address),
        address < 0x100 ==> bus.boot_rom is None,
    ensures
        bus.spec_write_byte(address, value).spec_read_byte(address) == value,
{
    reveal(MemoryBus::spec_write_byte);
    reveal(MemoryBus::spec_read_byte);
}

/// A write to plain memory changes no byte but the one written to: every
/// other address reads as before.
pub proof fn lemma_write_keeps_others(bus: MemoryBus, address: u16, value: u8, other: u16)
    requires
        is_plain_memory(address),
        !same_byte(address, other),
    ensures
        bus.spec_write_byte(address, value).spec_read_byte(other) == bus.spec_read_byte(other),
        (bus.spec_write_byte(address, value).boot_rom is None) == (bus.boot_rom is None),
{
    let after = bus.spec_write_byte(address, value);
    lemma_plain_write(bus, address, value);
    if 0x8000 <= address < 0xA000 {
        assert(after.gpu == (GPU {
            tile_set: after.gpu.tile_set,
            vram: spec_array_update(bus.gpu.vram, address - 0x8000, value),
            ..bus.gpu
        }));
    } else if 0xFE00 <= address < 0xFEA0 {
        assert(after.gpu == (GPU {
            oam: spec_array_update(bus.gpu.oam, address - 0xFE00, value),
            ..bus.gpu
        }));
    } else {
        assert(after.gpu == bus.gpu);
    }
    lemma_read_frame(bus, after, other);
}

/// What a write to plain memory does to each part of the bus.
proof fn lemma_plain_write(bus: MemoryBus, address: u16, value: u8)
    requires
        is_plain_memory(address),
    ensures
        bus.spec_write_byte(address, value) == (MemoryBus {
            rom_bank_0: if address < 0x4000 {
                spec_array_update(bus.rom_bank_0, address as int, value)
            } else {
                bus.rom_bank_0
            },
            external_ram: if 0xA000 <= address < 0xC000 {
                spec_array_update(bus.external_ram, address - 0xA000, value)
            } else {
                bus.external_ram
            },
            working_ram: if 0xC000 <= address < 0xE000 {
                spec_array_update(bus.working_ram, address - 0xC000, value)
            } else if 0xE000 <= address < 0xFE00 {
                spec_array_update(bus.working_ram, address - 0xE000, value)
            } else {
                bus.working_ram
            },
            zero_page: if 0xFF80 <= address < 0xFFFF {
                spec_array_update(bus.zero_page, address - 0xFF80, value)
            } else {
                bus.zero_page
            },
            gpu: if 0x8000 <= address < 0xA000 {
                bus.gpu.spec_write_vram(address - 0x8000, value)
            } else if 0xFE00 <= address < 0xFEA0 {
                bus.gpu.spec_write_oam(address - 0xFE00, value)
            } else {
                bus.gpu
            },
            ..bus
        }),
{
    reveal(MemoryBus::spec_write_byte);
}

/// Two buses read the same byte at an address when they agree on the byte of
/// memory behind that address, or, on the I/O page, on the registers.
proof fn lemma_read_frame(first: MemoryBus, second: MemoryBus, address: u16)
    requires
        first.boot_rom == second.boot_rom,
        address < 0x4000 ==> first.rom_bank_0[address as int] == second.rom_bank_0[address as int],
        0x4000 <= address < 0x8000 ==> first.rom_bank_n == second.rom_bank_n,
        0x8000 <= address < 0xA000 ==> first.gpu.vram[address - 0x8000] == second.gpu.vram[address
            - 0x8000],
        0xA000 <= address < 0xC000 ==> first.external_ram[address - 0xA000]
            == second.external_ram[address - 0xA000],
        0xC000 <= address < 0xE000 ==> first.working_ram[address - 0xC000]
            == second.working_ram[address - 0xC000],
        0xE000 <= address < 0xFE00 ==> first.working_ram[address - 0xE000]
            == second.working_ram[address - 0xE000],
        0xFE00 <= address < 0xFEA0 ==> first.gpu.oam[address - 0xFE00] == second.gpu.oam[address
            - 0xFE00],
        0xFF00 <= address < 0xFF80 ==> first.joypad == second.joypad && first.timer == second.timer
            && first.interrupt_flag == second.interrupt_flag && first.dma_source
            == second.dma_source && second.gpu == (GPU {
            canvas_buffer: second.gpu.canvas_buffer,
            tile_set: second.gpu.tile_set,
            vram: second.gpu.vram,
            oam: second.gpu.oam,
            ..first.gpu
        }),
        0xFF80 <= address < 0xFFFF ==> first.zero_page[address - 0xFF80]
            == second.zero_page[address - 0xFF80],
        address == 0xFFFF ==> first.interrupt_enable == second.interrupt_enable,
    ensures
        first.spec_read_byte(address) == second.spec_read_byte(address),
{
    reveal(MemoryBus::spec_read_byte);
}

/// Once the boot ROM is unmounted it stays so: a second write to 0xFF50
/// changes nothing, whatever the two bytes written.
pub proof fn lemma_unmount_is_idempotent(bus: MemoryBus, first: u8, second: u8)
    ensures
        bus.spec_write_byte(0xFF50, first).boot_rom is None,
        bus.spec_write_byte(0xFF50, first).spec_write_byte(0xFF50, second) == bus.spec_write_byte(
            0xFF50,
            first,
        ),
{
    reveal(MemoryBus::spec_write_byte);
}

/// No write brings the boot ROM back.
pub proof fn lemma_boot_rom_stays_unmounted(bus: MemoryBus, address: u16, value: u8)
    requires
        bus.boot_rom is None,
    ensures
        bus.spec_write_byte(address, value).boot_rom is None,
{
    reveal(MemoryBus::spec_write_byte);
    if address == 0xFF46 {
        lemma_dma_frame(MemoryBus { dma_source: value, ..bus }, (value as u16 * 256) as u16, 160);
    }
}

/// An OAM transfer changes nothing but sprite attribute memory.
pub proof fn lemma_dma_frame(bus: MemoryBus, source: u16, count: nat)
    ensures
        bus.spec_dma(source, count) == (MemoryBus {
            gpu: GPU { oam: bus.spec_dma(source, count).gpu.oam, ..bus.gpu },
            ..bus
        }),
    decreases count,
{
    if count > 0 {
        lemma_dma_frame(bus, source, (count - 1) as nat);
    }
}

/// After an OAM transfer each of the 160 bytes of sprite attribute memory is
/// the byte that was read from the source before the transfer began, also
/// where the source is sprite attribute memory itself.
pub proof fn lemma_dma_copies(bus: MemoryBus, source: u16, count: nat)
    requires
        source <= 0xFF00,
        source % 256 == 0,
        count <= 160,
    ensures
        forall|i: int|
            0 <= i < 160 ==> (#[trigger] bus.spec_dma(source, count).gpu.oam[i]) == (if i < count {
                bus.spec_read_byte((source + i) as u16)
            } else {
                bus.gpu.oam[i]
            }),
    decreases count,
{
    reveal(MemoryBus::spec_read_byte);
    if count > 0 {
        let before = bus.spec_dma(source, (count - 1) as nat);
        lemma_dma_copies(bus, source, (count - 1) as nat);
        lemma_dma_frame(bus, source, (count - 1) as nat);
        let address = (source + count - 1) as u16;
        if source == 0xFE00 {
            assert(before.spec_read_byte(address) == before.gpu.oam[count - 1]);
            assert(bus.spec_read_byte(address) == bus.gpu.oam[count - 1]);
        } else {
            assert(before.spec_read_byte(address) == bus.spec_read_byte(address));
        }
    }
}

/// A step of the bus hands all of the cycles both to the timer and to the
/// picture processing unit.
pub proof fn lemma_step_forwards_cycles(bus: MemoryBus, cycles: u8)
    ensures
        bus.spec_step(cycles).timer == bus.timer.spec_step(cycles).0,
        bus.spec_step(cycles).gpu == bus.gpu.spec_step(cycles).0,
        bus.spec_step(cycles).timer.divider_counter == (bus.timer.divider_counter + cycles)
            % 0x10000,
{
    reveal(MemoryBus::spec_step);
}

} // verus!
