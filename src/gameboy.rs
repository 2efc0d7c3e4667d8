//! The console: the components, the memory bus, the clock tick and the
//! interrupt dispatcher.
use vstd::prelude::*;
use crate::cartridge::{VirtualCartridge, HeaderError, rom_index};
use crate::cpu::CPU;
use crate::registers::Registers;
use crate::debugger::Debugger;
use crate::interrupts::{Interrupt, InterruptLine, mask_of, vector_of};
use crate::joypad::{Joypad, Key, key_index};
use crate::mbc::byte_at;
use crate::mode::Mode;
use crate::oam_dma::{OamDmaState, blocks};
use crate::ppu::{DmgPpu, PpuIoRegister, PpuMode, ppu_register_at, PpuCore, ppu_core_next, ppu_core_requests};
use crate::serial::{Serial, LinkState, link_next, link_requests};
use crate::timer::{Timer, TimerRegister, timer_register_at};

verus! {

/// Bytes of memory-mapped I/O backing store.
pub const IO_SIZE: usize = 128;
/// Bytes of work RAM.
pub const WRAM_SIZE: usize = 0x8000;
/// The T-cycle count up to which the engine runs: 2^63 cycles, tens of
/// thousands of years at 4 MHz.
pub const CYCLE_LIMIT: u64 = 0x8000_0000_0000_0000;
/// Headroom above `CYCLE_LIMIT` within one step.
pub const STEP_HEADROOM: u64 = 1024;
/// T-cycles per second of the master clock.
pub const CLOCK_HZ: u64 = 4_194_304;

/// The I/O bytes that the monochrome boot program leaves at 0xFF00-0xFF7F.
pub const DMG_IO: [u8; 128] = [
    0xCF, 0x00, 0x7E, 0xFF, 0x19, 0x00, 0x00, 0xF8,
    0xFF, 0xFF, 0xFF, 0xFF, 0xFF, 0xFF, 0xFF, 0xE1,
    0x80, 0xBF, 0xF3, 0xFF, 0xBF, 0xFF, 0x3F, 0x00,
    0xFF, 0xBF, 0x7F, 0xFF, 0x9F, 0xFF, 0xBF, 0xFF,
    0xFF, 0x00, 0x00, 0xBF, 0x77, 0xF3, 0xF1, 0xFF,
    0xFF, 0xFF, 0xFF, 0xFF, 0xFF, 0xFF, 0xFF, 0xFF,
    0xFF, 0xFF, 0xFF, 0xFF, 0xFF, 0xFF, 0xFF, 0xFF,
    0xFF, 0xFF, 0xFF, 0xFF, 0xFF, 0xFF, 0xFF, 0xFF,
    0x91, 0x83, 0x00, 0x00, 0x01, 0x00, 0xFF, 0xFC,
    0xFF, 0xFF, 0x00, 0x00, 0xFF, 0xFF, 0xFF, 0xFF,
    0xFF, 0xFF, 0xFF, 0xFF, 0xFF, 0xFF, 0xFF, 0xFF,
    0xFF, 0xFF, 0xFF, 0xFF, 0xFF, 0xFF, 0xFF, 0xFF,
    0xFF, 0xFF, 0xFF, 0xFF, 0xFF, 0xFF, 0xFF, 0xFF,
    0xFF, 0xFF, 0xFF, 0xFF, 0xFF, 0xFF, 0xFF, 0xFF,
    0xFF, 0xFF, 0xFF, 0xFF, 0xFF, 0xFF, 0xFF, 0xFF,
    0xFF, 0xFF, 0xFF, 0xFF, 0xFF, 0xFF, 0xFF, 0xFF,
];

/// The region of the address space that an address falls in.
#[derive(Clone, Copy, Debug, PartialEq, Eq, Structural)]
pub enum MemoryRegion {
    CartridgeRom,
    CartridgeRam,
    Vram,
    Wram,
    Oam,
    Unmapped,
    Io,
    Hram,
    Ier,
}

/// The region and offset of an address.
pub open spec fn region_of(address: u16) -> (MemoryRegion, u16) {
    if address <= 0x7FFF {
        (MemoryRegion::CartridgeRom, address)
    } else if address <= 0x9FFF {
        (MemoryRegion::Vram, (address - 0x8000) as u16)
    } else if address <= 0xBFFF {
        (MemoryRegion::CartridgeRam, (address - 0xA000) as u16)
    } else if address <= 0xDFFF {
        (MemoryRegion::Wram, (address - 0xC000) as u16)
    } else if address <= 0xFDFF {
        (MemoryRegion::Wram, (address - 0xE000) as u16)
    } else if address <= 0xFE9F {
        (MemoryRegion::Oam, (address - 0xFE00) as u16)
    } else if address <= 0xFEFF {
        (MemoryRegion::Unmapped, 0u16)
    } else if address <= 0xFF7F {
        (MemoryRegion::Io, (address - 0xFF00) as u16)
    } else if address <= 0xFFFE {
        (MemoryRegion::Hram, (address - 0xFF80) as u16)
    } else {
        (MemoryRegion::Ier, 0u16)
    }
}

impl MemoryRegion {
    /// Decodes an address into its region and the offset within it; total on
    /// the 16-bit address space, with 0xE000-0xFDFF echoing work RAM.
    pub fn map_address(address: u16) -> (r: (MemoryRegion, u16))
        ensures
            r == region_of(address),
    {
        if address <= 0x7FFF {
            (MemoryRegion::CartridgeRom, address)
        } else if address <= 0x9FFF {
            (MemoryRegion::Vram, address - 0x8000)
        } else if address <= 0xBFFF {
            (MemoryRegion::CartridgeRam, address - 0xA000)
        } else if address <= 0xDFFF {
            (MemoryRegion::Wram, address - 0xC000)
        } else if address <= 0xFDFF {
            (MemoryRegion::Wram, address - 0xE000)
        } else if address <= 0xFE9F {
            (MemoryRegion::Oam, address - 0xFE00)
        } else if address <= 0xFEFF {
            (MemoryRegion::Unmapped, 0)
        } else if address <= 0xFF7F {
            (MemoryRegion::Io, address - 0xFF00)
        } else if address <= 0xFFFE {
            (MemoryRegion::Hram, address - 0xFF80)
        } else {
            (MemoryRegion::Ier, 0)
        }
    }
}

/// The whole console.
#[derive(Clone, Debug)]
pub struct Gameboy {
    pub cpu: CPU,
    pub timer: Timer,
    pub ppu: DmgPpu,
    pub serial: Serial,
    pub joypad: Joypad,
    pub cart: VirtualCartridge,
    pub io: Vec<u8>,
    pub wram: Vec<u8>,
    pub mode: Mode,
    pub debugger: Debugger,
    pub oam_dma_state: OamDmaState,
}

/// What decides the peripherals' interrupt requests: the timer, the
/// scanline machine and the serial link.
pub type Clocked = (Timer, PpuCore, LinkState);

/// The peripherals one T-cycle on.
pub open spec fn clocked_next(c: Clocked) -> Clocked {
    (c.0.next(), ppu_core_next(c.1), link_next(c.2))
}

/// The peripherals `n` T-cycles on.
pub open spec fn clocked_after(c: Clocked, n: nat) -> Clocked
    decreases n,
{
    if n == 0 {
        c
    } else {
        clocked_after(clocked_next(c), (n - 1) as nat)
    }
}

/// The requests that the peripherals raise in one T-cycle.
pub open spec fn cycle_requests(c: Clocked) -> u8 {
    c.0.requests() | ppu_core_requests(c.1) | link_requests(c.2)
}

/// The requests that the peripherals raise over `n` T-cycles.
pub open spec fn requests_over(c: Clocked, n: nat) -> u8
    decreases n,
{
    if n == 0 {
        0
    } else {
        cycle_requests(c) | requests_over(clocked_next(c), (n - 1) as nat)
    }
}

/// `a + b` T-cycles are `a` T-cycles and then `b` more.
pub proof fn lemma_clocked_split(c: Clocked, a: nat, b: nat)
    ensures
        requests_over(c, a + b) == requests_over(c, a) | requests_over(clocked_after(c, a), b),
        clocked_after(c, a + b) == clocked_after(clocked_after(c, a), b),
    decreases a,
{
    if a == 0 {
        let x = requests_over(c, b);
        assert(0u8 | x == x) by (bit_vector);
    } else {
        lemma_clocked_split(clocked_next(c), (a - 1) as nat, b);
        assert((a - 1 + b) as nat == (a + b - 1) as nat);
        let r = cycle_requests(c);
        let x = requests_over(clocked_next(c), (a - 1) as nat);
        let y = requests_over(clocked_after(clocked_next(c), (a - 1) as nat), b);
        assert(r | (x | y) == (r | x) | y) by (bit_vector);
    }
}

/// Whether an address lies in a region whose bytes the bus stores as written:
/// work RAM and its echo, and high RAM.
pub open spec fn plain_ram(address: u16) -> bool {
    (0xC000 <= address <= 0xFDFF) || (0xFF80 <= address <= 0xFFFE)
}

/// The storage cell behind an address of work RAM (its echo shares the
/// cell) or of high RAM; a distinct negative number for any other address.
pub open spec fn ram_cell(address: u16) -> int {
    if 0xC000 <= address <= 0xDFFF {
        address - 0xC000
    } else if 0xE000 <= address <= 0xFDFF {
        address - 0xE000
    } else if 0xFF80 <= address <= 0xFFFE {
        0x10000 + address - 0xFF80
    } else {
        -1 - address
    }
}

impl Gameboy {
    /// Whether a CPU access to an address reaches memory that the clock does
    /// not change: high RAM always, and with no DMA running also ROM, work
    /// RAM and its echo.
    pub open spec fn steady(&self, address: u16) -> bool {
        ||| 0xFF80 <= address <= 0xFFFE
        ||| (!self.oam_dma_state.active && (address < 0x8000 || plain_ram(address)))
    }

    /// The state that decides the peripherals' requests.
    pub open spec fn clocked(&self) -> Clocked {
        (self.timer, self.ppu.machine(), self.serial.link_state())
    }

    /// Whether the bus stores a byte written at an address and reads it
    /// back: work RAM, its echo and high RAM always; VRAM outside pixel
    /// transfer; OAM outside OAM search and pixel transfer.
    pub open spec fn stores_at(&self, address: u16) -> bool {
        ||| plain_ram(address)
        ||| (0x8000 <= address <= 0x9FFF && self.ppu.mode() != PpuMode::TRANSFER_TO_LCD)
        ||| (0xFE00 <= address <= 0xFE9F && self.ppu.mode() != PpuMode::SEARCH_OAM && self.ppu.mode()
            != PpuMode::TRANSFER_TO_LCD)
    }

    pub open spec fn wf(&self) -> bool {
        &&& self.cpu.wf()
        &&& self.timer.wf()
        &&& self.ppu.wf()
        &&& self.serial.wf()
        &&& self.cart.wf()
        &&& self.io@.len() == IO_SIZE
        &&& self.wram@.len() == WRAM_SIZE
        &&& self.oam_dma_state.wf()
        &&& self.debugger.wf()
    }

    /// Whether there is room for one more step under the cycle limit.
    pub open spec fn can_step(&self) -> bool {
        self.cpu.cycle_counter <= CYCLE_LIMIT
    }

    /// The byte that an I/O register at an offset 0x00-0x7F reads: the LCD and
    /// timer registers, the joypad, SB, SC, IF and the DMA page; other
    /// offsets read their backing byte.
    pub open spec fn io_value(&self, offset: u16) -> u8 {
        let address = (offset + 0xFF00) as u16;
        match ppu_register_at(address) {
            Some(reg) => self.ppu.register_value(reg),
            None => match timer_register_at(address) {
                Some(reg) => self.timer.register_value(reg),
                None => if offset == 0x00 {
                    (0xCF - self.joypad.pressed_nibble()) as u8
                } else if offset == 0x01 {
                    self.serial.sb
                } else if offset == 0x02 {
                    self.serial.sc | 0x7C
                } else if offset == 0x0F {
                    (self.cpu.interrupt_flag.value + 0xE0) as u8
                } else if offset == 0x46 {
                    (self.oam_dma_state.start_address / 256) as u8
                } else {
                    self.io@[offset as int]
                },
            },
        }
    }

    /// The byte that a non-CPU read returns.
    pub open spec fn peek(&self, address: u16) -> u8 {
        let (region, offset) = region_of(address);
        match region {
            MemoryRegion::CartridgeRom => byte_at(self.cart.rom@, rom_index(self.cart.mbc, address)),
            MemoryRegion::Vram => if self.ppu.mode() == PpuMode::TRANSFER_TO_LCD {
                0xFFu8
            } else {
                self.ppu.vram@[offset as int]
            },
            MemoryRegion::Wram => self.wram@[offset as int],
            MemoryRegion::Oam => if self.ppu.mode() == PpuMode::SEARCH_OAM || self.ppu.mode()
                == PpuMode::TRANSFER_TO_LCD {
                0xFFu8
            } else {
                self.ppu.oam@[offset as int]
            },
            MemoryRegion::Unmapped => 0xFFu8,
            MemoryRegion::Hram => self.cpu.hram@[offset as int],
            MemoryRegion::Ier => (self.cpu.interrupt_enable.value + 0xE0) as u8,
            MemoryRegion::Io => self.io_value(offset),
            MemoryRegion::CartridgeRam => self.cart.ram_byte(offset),
        }
    }

    /// Whether the OAM DMA keeps the CPU from an address.
    pub open spec fn dma_blocks(&self, address: u16) -> bool {
        self.oam_dma_state.source() matches Some(src) && blocks(src, address)
    }

    /// Builds a console from a ROM image and an optional RAM image. The
    /// header decides the model; I/O starts at the post-boot values.
    pub fn new(rom: Vec<u8>, ram: Option<Vec<u8>>) -> (r: Result<Gameboy, HeaderError>)
        ensures
            crate::cartridge::cart_info_of(rom@) is Err ==> r == Err::<Gameboy, HeaderError>(
                crate::cartridge::cart_info_of(rom@)->Err_0,
            ),
            crate::cartridge::cart_info_of(rom@) matches Ok(info) ==> (r is Ok <==> (info.mbc_type
                == crate::cartridge::MBCType::NONE || info.mbc_type == crate::cartridge::MBCType::MBC1
                || info.mbc_type == crate::cartridge::MBCType::MBC3)),
            r is Err ==> r == Err::<Gameboy, HeaderError>(HeaderError::UnimplementedMbc) || crate::cartridge::cart_info_of(
                rom@,
            ) is Err,
            r matches Ok(gb) ==> {
                &&& gb.wf()
                &&& gb.cart.rom@ == rom@
                &&& gb.cpu.cycle_counter == 0
                &&& gb.cpu.registers.dmg_values()
                &&& gb.ppu.lcdc == 0x91 && gb.ppu.bgp == 0xFC && gb.ppu.obp0 == 0xFF && gb.ppu.obp1 == 0xFF
                &&& gb.ppu.scx == 0 && gb.ppu.scy == 0 && gb.ppu.lyc == 0 && gb.ppu.ly() == 0
                &&& gb.ppu.stat() == 0x85
                &&& gb.ppu.frame_counter == 0
                &&& gb.cpu.interrupt_flag.value == 1 && gb.cpu.interrupt_enable.value == 0
                &&& !gb.cpu.ime && !gb.cpu.halt
                &&& !gb.oam_dma_state.active
                &&& gb.debugger.breakpoints@.len() == 0
                &&& gb.mode == (if gb.cart.cart_info.cgb { Mode::CGB } else { Mode::DMG })
                &&& gb.mode == Mode::DMG ==> gb.io@ == DMG_IO@
            },
    {
        let cart = match VirtualCartridge::new(rom, ram) {
            Ok(c) => c,
            Err(e) => {
                return Err(e);
            },
        };
        let mode = if cart.cart_info.cgb {
            Mode::CGB
        } else {
            Mode::DMG
        };
        let io: Vec<u8> = match mode {
            Mode::DMG => {
                let mut v: Vec<u8> = Vec::new();
                let mut i: usize = 0;
                while i < IO_SIZE
                    invariant
                        i <= IO_SIZE,
                        v@ == DMG_IO@.subrange(0, i as int),
                    decreases IO_SIZE - i,
                {
                    v.push(DMG_IO[i]);
                    i = i + 1;
                }
                assert(v@ =~= DMG_IO@);
                v
            },
            Mode::CGB => vec![0u8; IO_SIZE],
        };
        Ok(
            Gameboy {
                cpu: CPU::new(),
                timer: Timer::new(mode),
                ppu: DmgPpu::new(),
                serial: Serial::new(),
                joypad: Joypad::new(),
                cart,
                io,
                wram: vec![0u8; WRAM_SIZE],
                mode,
                debugger: Debugger::new(),
                oam_dma_state: OamDmaState::new(),
            },
        )
    }

    /// Reads work RAM at an offset 0x0000-0x1FFF.
    pub fn read_byte_wram(&self, offset: u16) -> (r: u8)
        requires
            self.wf(),
            offset < 0x2000,
        ensures
            r == self.wram@[offset as int],
    {
        self.wram[offset as usize]
    }

    /// Writes work RAM at an offset 0x0000-0x1FFF.
    pub fn write_byte_wram(&mut self, offset: u16, value: u8)
        requires
            old(self).wf(),
            offset < 0x2000,
        ensures
            final(self).wf(),
            final(self).wram@ == old(self).wram@.update(offset as int, value),
            *final(self) == (Gameboy { wram: final(self).wram, ..*old(self) }),
    {
        self.wram.set(offset as usize, value);
    }

    /// Reads an I/O register at an offset 0x00-0x7F.
    pub fn read_byte_io(&self, offset: u16) -> (r: u8)
        requires
            self.wf(),
            offset < 0x80,
        ensures
            r == self.io_value(offset),
    {
        match PpuIoRegister::map_address(offset + 0xFF00) {
            Some(reg) => {
                return self.ppu.read_io(reg);
            },
            None => {},
        }
        match TimerRegister::map_address(offset + 0xFF00) {
            Some(reg) => {
                return self.timer.read_io(reg);
            },
            None => {},
        }
        match offset {
            0x00 => self.joypad.read_joyp(),
            0x01 => self.serial.read_sb(),
            0x02 => self.serial.read_sc(),
            0x0F => self.cpu.interrupt_flag.read(),
            0x46 => self.oam_dma_state.read_ff46(),
            _ => self.io[offset as usize],
        }
    }

    /// Writes an I/O register at an offset 0x00-0x7F. A write to 0xFF46
    /// starts an OAM DMA transfer from that page.
    pub fn write_byte_io(&mut self, offset: u16, value: u8)
        requires
            old(self).wf(),
            offset < 0x80,
        ensures
            final(self).wf(),
            final(self).cpu == old(self).cpu || offset == 0x0F,
            final(self).cpu.registers == old(self).cpu.registers,
            final(self).cpu.ime == old(self).cpu.ime,
            final(self).cpu.next_ime_state == old(self).cpu.next_ime_state,
            final(self).cpu.halt == old(self).cpu.halt,
            final(self).cpu.cycle_counter == old(self).cpu.cycle_counter,
            final(self).cpu.hram == old(self).cpu.hram,
            final(self).cpu.interrupt_enable == old(self).cpu.interrupt_enable,
            final(self).wram == old(self).wram,
            final(self).cart == old(self).cart,
            final(self).ppu.vram == old(self).ppu.vram,
            final(self).ppu.oam == old(self).ppu.oam,
            final(self).debugger == old(self).debugger,
            offset == 0x0F ==> final(self).cpu.interrupt_flag.value == value % 32,
            offset == 0x44 ==> final(self).ppu.line == old(self).ppu.line && final(self).ppu.clock == old(self).ppu.clock,
            offset == 0x46 ==> final(self).oam_dma_state.active && final(self).oam_dma_state.current_cycle == 0
                && final(self).oam_dma_state.start_address == value * 256,
            offset != 0x46 ==> final(self).oam_dma_state == old(self).oam_dma_state,
    {
        match PpuIoRegister::map_address(offset + 0xFF00) {
            Some(reg) => {
                self.ppu.write_io(reg, value);
                return;
            },
            None => {},
        }
        match TimerRegister::map_address(offset + 0xFF00) {
            Some(reg) => {
                self.timer.write_io(reg, value);
                return;
            },
            None => {},
        }
        match offset {
            0x00 => self.joypad.write_joyp(value),
            0x01 => self.serial.write_sb(value),
            0x02 => self.serial.write_sc(value),
            0x0F => self.cpu.interrupt_flag.write(value),
            0x46 => self.start_oam_dma(value),
            _ => self.io.set(offset as usize, value),
        }
    }

    /// Starts an OAM DMA transfer from page `addr_high`.
    pub fn start_oam_dma(&mut self, addr_high: u8)
        requires
            old(self).wf(),
        ensures
            final(self).wf(),
            final(self).oam_dma_state.active,
            final(self).oam_dma_state.current_cycle == 0,
            final(self).oam_dma_state.current_offset == 0,
            final(self).oam_dma_state.start_address == addr_high * 256,
            *final(self) == (Gameboy { oam_dma_state: final(self).oam_dma_state, ..*old(self) }),
    {
        self.oam_dma_state.start_oam_dma(addr_high);
    }

    /// A read that ignores DMA conflicts, as the DMA engine and the debugger read.
    pub fn read_byte(&self, address: u16) -> (r: u8)
        requires
            self.wf(),
        ensures
            r == self.peek(address),
    {
        let (region, offset) = MemoryRegion::map_address(address);
        match region {
            MemoryRegion::CartridgeRom => self.cart.read_byte_rom(offset),
            MemoryRegion::Vram => self.ppu.read_byte_vram(offset),
            MemoryRegion::CartridgeRam => self.cart.read_byte_ram(offset),
            MemoryRegion::Wram => self.read_byte_wram(offset),
            MemoryRegion::Oam => self.ppu.read_byte_oam(offset),
            MemoryRegion::Unmapped => 0xFF,
            MemoryRegion::Io => self.read_byte_io(offset),
            MemoryRegion::Hram => self.cpu.hram[offset as usize],
            MemoryRegion::Ier => self.cpu.interrupt_enable.read(),
        }
    }

    /// A write that ignores DMA conflicts.
    pub fn write_byte(&mut self, address: u16, value: u8)
        requires
            old(self).wf(),
        ensures
            final(self).wf(),
            final(self).cpu.registers == old(self).cpu.registers,
            final(self).cpu.ime == old(self).cpu.ime,
            final(self).cpu.next_ime_state == old(self).cpu.next_ime_state,
            final(self).cpu.halt == old(self).cpu.halt,
            final(self).cpu.cycle_counter == old(self).cpu.cycle_counter,
            final(self).debugger == old(self).debugger,
            final(self).cart.rom == old(self).cart.rom,
            old(self).stores_at(address) ==> final(self).peek(address) == value,
            forall|b: u16| plain_ram(b) && ram_cell(b) != ram_cell(address) ==> #[trigger] final(self).peek(b)
                == old(self).peek(b),
            address == 0xFFFF || address == 0xFF0F ==> final(self).peek(address) == value % 32 + 0xE0,
            address == 0xFF44 ==> final(self).peek(address) == old(self).peek(address),
            address != 0xFF0F ==> final(self).cpu.interrupt_flag == old(self).cpu.interrupt_flag,
            final(self).stores_at(address) ==> final(self).peek(address) == value,
            !(0xFF00 <= address <= 0xFF7F) ==> final(self).clocked() == old(self).clocked(),
            address >= 0xC000 ==> final(self).cart == old(self).cart,
            !(address == 0xFF46) ==> final(self).oam_dma_state == old(self).oam_dma_state,
            address == 0xFF46 ==> final(self).oam_dma_state.active && final(self).oam_dma_state.current_cycle == 0
                && final(self).oam_dma_state.start_address == value * 256,
            0xC000 <= address <= 0xFDFF ==> {
                &&& final(self).wram@ == old(self).wram@.update(region_of(address).1 as int, value)
                &&& *final(self) == (Gameboy { wram: final(self).wram, ..*old(self) })
            },
    {
        let (region, offset) = MemoryRegion::map_address(address);
        match region {
            MemoryRegion::CartridgeRom => self.cart.write_byte_rom(offset, value),
            MemoryRegion::Vram => self.ppu.write_byte_vram(offset, value),
            MemoryRegion::CartridgeRam => self.cart.write_byte_ram(offset, value),
            MemoryRegion::Wram => self.write_byte_wram(offset, value),
            MemoryRegion::Oam => self.ppu.write_byte_oam(offset, value),
            MemoryRegion::Unmapped => {},
            MemoryRegion::Io => self.write_byte_io(offset, value),
            MemoryRegion::Hram => self.cpu.write_byte_hram(address, value),
            MemoryRegion::Ier => self.cpu.interrupt_enable.write(value),
        }
    }

    /// A CPU read: 0xFF where the OAM DMA holds the bus.
    pub fn read_byte_cpu(&self, address: u16) -> (r: u8)
        requires
            self.wf(),
        ensures
            self.dma_blocks(address) ==> r == 0xFF,
            !self.dma_blocks(address) ==> r == self.peek(address),
    {
        if self.oam_dma_state.should_block_cpu_access(address) {
            0xFF
        } else {
            self.read_byte(address)
        }
    }

    /// A CPU write: dropped where the OAM DMA holds the bus.
    pub fn write_byte_cpu(&mut self, address: u16, value: u8)
        requires
            old(self).wf(),
        ensures
            final(self).wf(),
            final(self).cpu.registers == old(self).cpu.registers,
            final(self).cpu.ime == old(self).cpu.ime,
            final(self).cpu.next_ime_state == old(self).cpu.next_ime_state,
            final(self).cpu.halt == old(self).cpu.halt,
            final(self).cpu.cycle_counter == old(self).cpu.cycle_counter,
            final(self).debugger == old(self).debugger,
            final(self).cart.rom == old(self).cart.rom,
            old(self).dma_blocks(address) ==> *final(self) == *old(self),
            !old(self).dma_blocks(address) && final(self).stores_at(address) ==> final(self).peek(address) == value,
            !(0xFF00 <= address <= 0xFF7F) ==> final(self).clocked() == old(self).clocked(),
            forall|b: u16| plain_ram(b) && ram_cell(b) != ram_cell(address) ==> #[trigger] final(self).peek(b)
                == old(self).peek(b),
            address != 0xFF0F ==> final(self).cpu.interrupt_flag == old(self).cpu.interrupt_flag,
            address >= 0xC000 ==> final(self).cart == old(self).cart,
            !old(self).oam_dma_state.active && !(address == 0xFF46) ==> final(self).oam_dma_state == old(self).oam_dma_state,
            !old(self).dma_blocks(address) && address == 0xFF46 ==> final(self).oam_dma_state.active
                && final(self).oam_dma_state.current_cycle == 0 && final(self).oam_dma_state.start_address == value * 256,
            !old(self).dma_blocks(address) && old(self).stores_at(address) ==> final(self).peek(address) == value,
    {
        if self.oam_dma_state.should_block_cpu_access(address) {
            return;
        }
        self.write_byte(address, value);
    }

    /// One T-cycle of the DMA engine: from its fourth cycle on, once per
    /// machine cycle, it copies the next source byte (read past all conflicts)
    /// into OAM; after 648 cycles it stops. Nothing moves while the CPU halts.
    pub fn service_oam_dma_transfer(&mut self)
        requires
            old(self).wf(),
        ensures
            final(self).wf(),
            final(self).cpu == old(self).cpu,
            final(self).debugger == old(self).debugger,
            final(self).cart == old(self).cart,
            final(self).wram == old(self).wram,
            final(self).oam_dma_state == (if !old(self).cpu.halt && old(self).oam_dma_state.active {
                old(self).oam_dma_state.advanced()
            } else {
                old(self).oam_dma_state
            }),
            !old(self).cpu.halt && old(self).oam_dma_state.copies_now() ==> {
                let offset = old(self).oam_dma_state.current_offset as int;
                let src = (old(self).oam_dma_state.start_address + offset) as u16;
                &&& final(self).ppu.oam@ == old(self).ppu.oam@.update(offset, old(self).peek(src))
            },
            !(!old(self).cpu.halt && old(self).oam_dma_state.copies_now()) ==> final(self).ppu.oam == old(self).ppu.oam,
            *final(self) == (Gameboy { ppu: final(self).ppu, oam_dma_state: final(self).oam_dma_state, ..*old(self) }),
            final(self).ppu == (DmgPpu { oam: final(self).ppu.oam, ..old(self).ppu }),
            final(self).ppu.vram == old(self).ppu.vram,
            final(self).ppu.line == old(self).ppu.line,
            final(self).ppu.clock == old(self).ppu.clock,
            final(self).ppu.lcdc == old(self).ppu.lcdc,
            final(self).ppu.frame_counter == old(self).ppu.frame_counter,
    {
        if self.cpu.halt || !self.oam_dma_state.active {
            return;
        }
        if self.oam_dma_state.copies_this_cycle() {
            let offset = self.oam_dma_state.current_offset;
            let src = self.oam_dma_state.start_address + offset;
            let byte = self.read_byte(src);
            self.ppu.write_oam_direct(offset, byte);
        }
        self.oam_dma_state.advance();
    }

    /// One T-cycle of every peripheral: the DMA engine, then the timer, the
    /// PPU and the serial link in turn. The requests they raise (returned)
    /// are added to IF and wake the CPU from halt and stop. The result also
    /// records the requests after the timer and after the PPU, and the PPU as
    /// the DMA engine left it.
    pub fn tick(&mut self) -> (steps: Ghost<(InterruptLine, InterruptLine, DmgPpu, u8)>)
        requires
            old(self).wf(),
            old(self).cpu.cycle_counter < u64::MAX,
        ensures
            final(self).wf(),
            ({
                let (l1, l2, mid, requested) = steps@;
                &&& old(self).timer.ticked(final(self).timer, InterruptLine { requested: 0 }, l1)
                &&& mid == (DmgPpu { oam: mid.oam, ..old(self).ppu })
                &&& mid.ticked(final(self).ppu, l1, l2)
                &&& old(self).serial.ticked(final(self).serial, l2, InterruptLine { requested })
                &&& final(self).cpu.interrupt_flag.value == old(self).cpu.interrupt_flag.value | requested
                &&& final(self).cpu.halt == (old(self).cpu.halt && requested == 0)
                &&& final(self).cpu.stop == (old(self).cpu.stop && requested == 0)
                &&& requested < 32
            }),
            final(self).oam_dma_state == (if !old(self).cpu.halt && old(self).oam_dma_state.active {
                old(self).oam_dma_state.advanced()
            } else {
                old(self).oam_dma_state
            }),
            steps@.3 == cycle_requests(old(self).clocked()),
            final(self).clocked() == clocked_next(old(self).clocked()),
            final(self).cpu.cycle_counter == old(self).cpu.cycle_counter + 1,
            final(self).cpu.registers == old(self).cpu.registers,
            final(self).cpu.ime == old(self).cpu.ime,
            final(self).cpu.next_ime_state == old(self).cpu.next_ime_state,
            final(self).cpu.double_speed_mode == old(self).cpu.double_speed_mode,
            final(self).cpu.interrupt_enable == old(self).cpu.interrupt_enable,
            final(self).cpu.hram == old(self).cpu.hram,
            final(self).debugger == old(self).debugger,
            final(self).cart == old(self).cart,
            final(self).wram == old(self).wram,
            final(self).io == old(self).io,
            final(self).joypad == old(self).joypad,
            final(self).mode == old(self).mode,
    {
        self.service_oam_dma_transfer();
        let mut line = InterruptLine::new();
        self.timer.emulate_hardware(&mut line);
        let ghost l1 = line;
        let ghost mid = self.ppu;
        self.ppu.emulate_hardware(&mut line);
        let ghost l2 = line;
        self.serial.emulate_hardware(&mut line);
        if line.requested != 0 {
            self.cpu.interrupt_flag.request_mask(line.requested);
            self.cpu.halt = false;
            self.cpu.stop = false;
        } else {
            assert(self.cpu.interrupt_flag.value | 0u8 == self.cpu.interrupt_flag.value) by (bit_vector);
        }
        self.cpu.cycle_counter = self.cpu.cycle_counter + 1;
        proof {
            let (a, b, c) = (old(self).timer.requests(), ppu_core_requests(old(self).ppu.machine()), link_requests(
                old(self).serial.link_state(),
            ));
            assert(((0u8 | a) | b) | c == (a | b) | c) by (bit_vector);
            assert(mid.machine() == old(self).ppu.machine());
        }
        Ghost((l1, l2, mid, line.requested))
    }

    /// One machine cycle: four T-cycles of every peripheral. Returns the
    /// requests raised, which IF has gained.
    pub fn emulate_hardware(&mut self) -> (requested: Ghost<u8>)
        requires
            old(self).wf(),
            old(self).cpu.cycle_counter <= u64::MAX - 4,
        ensures
            final(self).wf(),
            final(self).cpu.cycle_counter == old(self).cpu.cycle_counter + 4,
            final(self).cpu.interrupt_flag.value == old(self).cpu.interrupt_flag.value | requested@,
            final(self).cpu.halt == (old(self).cpu.halt && requested@ == 0),
            final(self).cpu.stop == (old(self).cpu.stop && requested@ == 0),
            requested@ < 32,
            requested@ == requests_over(old(self).clocked(), 4),
            final(self).clocked() == clocked_after(old(self).clocked(), 4),
            !old(self).oam_dma_state.active ==> final(self).oam_dma_state == old(self).oam_dma_state,
            final(self).cpu.registers == old(self).cpu.registers,
            final(self).cpu.ime == old(self).cpu.ime,
            final(self).cpu.next_ime_state == old(self).cpu.next_ime_state,
            final(self).cpu.double_speed_mode == old(self).cpu.double_speed_mode,
            final(self).cpu.interrupt_enable == old(self).cpu.interrupt_enable,
            final(self).cpu.hram == old(self).cpu.hram,
            final(self).debugger == old(self).debugger,
            final(self).cart == old(self).cart,
            final(self).wram == old(self).wram,
            final(self).io == old(self).io,
            final(self).mode == old(self).mode,
    {
        let s1 = self.tick();
        let s2 = self.tick();
        let s3 = self.tick();
        let s4 = self.tick();
        let ghost (r1, r2, r3, r4) = (s1@.3, s2@.3, s3@.3, s4@.3);
        let ghost v = old(self).cpu.interrupt_flag.value;
        assert(((((v | r1) | r2) | r3) | r4) == v | (((r1 | r2) | r3) | r4)) by (bit_vector);
        proof {
            reveal_with_fuel(requests_over, 5);
            reveal_with_fuel(clocked_after, 5);
            assert((((r1 | r2) | r3) | r4) == r1 | (r2 | (r3 | (r4 | 0u8)))) by (bit_vector);
        }
        assert(r1 < 32 && r2 < 32 && r3 < 32 && r4 < 32 ==> ((r1 | r2) | r3) | r4 < 32) by (bit_vector);
        assert((((r1 | r2) | r3) | r4 == 0) == (r1 == 0 && r2 == 0 && r3 == 0 && r4 == 0)) by (bit_vector);
        Ghost(((r1 | r2) | r3) | r4)
    }

    /// Requests an interrupt and wakes the CPU.
    pub fn request_interrupt(&mut self, kind: Interrupt)
        requires
            old(self).wf(),
        ensures
            final(self).wf(),
            final(self).cpu.interrupt_flag.value == old(self).cpu.interrupt_flag.value | mask_of(kind),
            !final(self).cpu.halt && !final(self).cpu.stop,
            final(self).cpu.registers == old(self).cpu.registers,
            final(self).cpu.cycle_counter == old(self).cpu.cycle_counter,
            *final(self) == (Gameboy { cpu: final(self).cpu, ..*old(self) }),
            final(self).cpu.ime == old(self).cpu.ime,
            final(self).cpu.interrupt_enable == old(self).cpu.interrupt_enable,
    {
        self.cpu.interrupt_flag.request_interrupt(kind);
        self.cpu.halt = false;
        self.cpu.stop = false;
    }

    /// The requests that are both raised and enabled.
    pub open spec fn pending(&self) -> u8 {
        self.cpu.interrupt_flag.value & self.cpu.interrupt_enable.value
    }

    /// The interrupt to dispatch: the lowest-numbered pending bit.
    pub open spec fn first_pending(&self) -> Option<Interrupt> {
        let p = self.pending();
        if p & 1 != 0 {
            Some(Interrupt::VBlank)
        } else if p & 2 != 0 {
            Some(Interrupt::LcdStat)
        } else if p & 4 != 0 {
            Some(Interrupt::Timer)
        } else if p & 8 != 0 {
            Some(Interrupt::Serial)
        } else if p & 16 != 0 {
            Some(Interrupt::Joypad)
        } else {
            None
        }
    }

    fn select_interrupt(&self) -> (r: Option<Interrupt>)
        requires
            self.wf(),
        ensures
            r == self.first_pending(),
    {
        let p = self.cpu.interrupt_flag.value & self.cpu.interrupt_enable.value;
        if p & 1 != 0 {
            Some(Interrupt::VBlank)
        } else if p & 2 != 0 {
            Some(Interrupt::LcdStat)
        } else if p & 4 != 0 {
            Some(Interrupt::Timer)
        } else if p & 8 != 0 {
            Some(Interrupt::Serial)
        } else if p & 16 != 0 {
            Some(Interrupt::Joypad)
        } else {
            None
        }
    }

    /// Services interrupts before an instruction fetch. With IME set and an
    /// interrupt both requested and enabled, the highest-priority one is
    /// cleared from IF, IME and its shadow clear, and over five machine
    /// cycles PC is pushed (high byte first) and set to the interrupt's
    /// vector; the CPU is awake afterwards. With IME clear, a pending
    /// interrupt only wakes the CPU. The result holds the requests that the
    /// peripherals raised during a dispatch (IF gains them), and the console
    /// right after each of the two stack writes.
    #[verifier::rlimit(100)]
    pub fn interrupt_service_routine(&mut self) -> (seen: Ghost<(u8, Gameboy, Gameboy)>)
        requires
            old(self).wf(),
            old(self).cpu.cycle_counter <= CYCLE_LIMIT + STEP_HEADROOM,
        ensures
            old(self).cpu.cycle_counter <= final(self).cpu.cycle_counter <= old(self).cpu.cycle_counter + 20,
            final(self).wf(),
            final(self).debugger == old(self).debugger,
            final(self).cart.rom == old(self).cart.rom,
            old(self).first_pending() is None ==> *final(self) == *old(self),
            old(self).first_pending() is Some && !old(self).cpu.ime ==> {
                &&& final(self).cpu.registers == old(self).cpu.registers
                &&& final(self).cpu.cycle_counter == old(self).cpu.cycle_counter
                &&& final(self).cpu.interrupt_flag == old(self).cpu.interrupt_flag
                &&& !final(self).cpu.halt && !final(self).cpu.stop
                &&& final(self).cpu.ime == old(self).cpu.ime
                &&& final(self).cpu.next_ime_state == old(self).cpu.next_ime_state
            },
            old(self).cpu.ime ==> (old(self).first_pending() matches Some(k) ==> ({
                let sp = old(self).cpu.registers.sp;
                let pc = old(self).cpu.registers.pc;
                let high_at = ((sp + 65535) % 65536) as u16;
                let low_at = ((sp + 65534) % 65536) as u16;
                &&& final(self).cpu.registers == (Registers { pc: vector_of(k), sp: low_at, ..old(self).cpu.registers })
                &&& final(self).cpu.cycle_counter == old(self).cpu.cycle_counter + 20
                &&& !final(self).cpu.ime && !final(self).cpu.next_ime_state
                &&& !final(self).cpu.halt
                &&& high_at != 0xFF0F && low_at != 0xFF0F ==> final(self).cpu.interrupt_flag.value
                    == (old(self).cpu.interrupt_flag.value & !mask_of(k)) | seen@.0
                &&& plain_ram(high_at) && old(self).steady(high_at) ==> final(self).peek(high_at) == pc / 256
                &&& plain_ram(low_at) && old(self).steady(low_at) ==> final(self).peek(low_at) == pc % 256
                &&& !old(self).oam_dma_state.active && seen@.1.stores_at(high_at) ==> seen@.1.peek(high_at) == pc / 256
                &&& !old(self).oam_dma_state.active && seen@.2.stores_at(low_at) ==> seen@.2.peek(low_at) == pc % 256
                &&& !(0xFF00 <= high_at <= 0xFF7F) && !(0xFF00 <= low_at <= 0xFF7F) ==> {
                    &&& seen@.0 == requests_over(old(self).clocked(), 20)
                    &&& final(self).clocked() == clocked_after(old(self).clocked(), 20)
                    &&& final(self).cpu.interrupt_flag.value == (old(self).cpu.interrupt_flag.value & !mask_of(k))
                        | requests_over(old(self).clocked(), 20)
                }
            })),
    {
        let chosen = self.select_interrupt();
        let kind = match chosen {
            Some(k) => k,
            None => {
                return Ghost((0, *self, *self));
            },
        };
        if !self.cpu.ime {
            self.cpu.halt = false;
            self.cpu.stop = false;
            return Ghost((0, *self, *self));
        }
        self.cpu.interrupt_flag.clear_interrupt(kind);
        self.cpu.ime = false;
        self.cpu.next_ime_state = false;
        let r1 = self.emulate_hardware();
        let r2 = self.emulate_hardware();
        self.cpu.halt = false;
        let old_pc = self.cpu.registers.pc;
        let sp = self.cpu.registers.sp;
        let high_at = sp.wrapping_sub(1);
        let low_at = sp.wrapping_sub(2);
        let ghost dma_was_active = old(self).oam_dma_state.active;
        self.write_byte_cpu(high_at, (old_pc / 256) as u8);
        let ghost after_high_write = *self;
        let r3 = self.emulate_hardware();
        let ghost after_high = self.peek(high_at);
        self.write_byte_cpu(low_at, (old_pc % 256) as u8);
        let ghost after_low_write = *self;
        assert(plain_ram(high_at) ==> self.peek(high_at) == after_high);
        let r4 = self.emulate_hardware();
        self.cpu.registers.sp = low_at;
        self.cpu.registers.pc = kind.address();
        let r5 = self.emulate_hardware();
        let ghost (g1, g2, g3, g4, g5) = (r1@, r2@, r3@, r4@, r5@);
        proof {
            let c0 = old(self).clocked();
            lemma_clocked_split(c0, 4, 16);
            lemma_clocked_split(clocked_after(c0, 4), 4, 12);
            lemma_clocked_split(clocked_after(clocked_after(c0, 4), 4), 4, 8);
            lemma_clocked_split(clocked_after(clocked_after(clocked_after(c0, 4), 4), 4), 4, 4);
            assert(g1 | (g2 | (g3 | (g4 | g5))) == ((((g1 | g2) | g3) | g4) | g5)) by (bit_vector);
        }
        let ghost c = old(self).cpu.interrupt_flag.value & !mask_of(kind);
        assert((((((c | g1) | g2) | g3) | g4) | g5) == c | ((((g1 | g2) | g3) | g4) | g5)) by (bit_vector);
        Ghost(((((g1 | g2) | g3) | g4) | g5, after_high_write, after_low_write))
    }

    /// A key goes down: it is latched and the joypad interrupt is requested.
    pub fn keydown(&mut self, key: Key)
        requires
            old(self).wf(),
        ensures
            final(self).wf(),
            final(self).joypad.keys@ == old(self).joypad.keys@.update(key_index(key), true),
            final(self).cpu.interrupt_flag.value == old(self).cpu.interrupt_flag.value | mask_of(Interrupt::Joypad),
            !final(self).cpu.halt && !final(self).cpu.stop,
            final(self).cpu.registers == old(self).cpu.registers,
            final(self).cpu.ime == old(self).cpu.ime,
            final(self).cpu.cycle_counter == old(self).cpu.cycle_counter,
    {
        self.joypad.keydown(key);
        self.request_interrupt(Interrupt::Joypad);
    }

    /// A key goes up.
    pub fn keyup(&mut self, key: Key)
        requires
            old(self).wf(),
        ensures
            final(self).wf(),
            final(self).joypad.keys@ == old(self).joypad.keys@.update(key_index(key), false),
            final(self).cpu == old(self).cpu,
    {
        self.joypad.keyup(key);
    }

    /// The last complete frame, 160 x 144 RGBA pixels.
    pub fn get_framebuffer(&self) -> (r: &[u32])
        requires
            self.wf(),
        ensures
            r@.len() == crate::ppu::FRAME_PIXELS,
            r@ == self.ppu.framebuffer.front(),
    {
        self.ppu.get_framebuffer()
    }

    /// The number of frames completed since construction.
    pub fn get_frame_counter(&self) -> (r: u64)
        ensures
            r == self.ppu.frame_counter,
    {
        self.ppu.frame_counter
    }

    /// Connects a serial peer with empty queues.
    pub fn create_serial_channels(&mut self)
        requires
            old(self).wf(),
        ensures
            final(self).wf(),
            final(self).serial.connected,
            final(self).serial.incoming@.len() == 0,
            final(self).serial.outgoing@.len() == 0,
    {
        self.serial.create_channels();
    }

    /// A byte arrives from the serial peer.
    pub fn serial_send(&mut self, byte: u8)
        requires
            old(self).wf(),
        ensures
            final(self).wf(),
            final(self).serial.incoming@ == (if old(self).serial.connected {
                crate::serial::pushed(old(self).serial.incoming@, byte)
            } else {
                old(self).serial.incoming@
            }),
    {
        self.serial.receive_from_peer(byte);
    }

    /// Takes the oldest byte that went out to the serial peer.
    pub fn serial_receive(&mut self) -> (r: Option<u8>)
        requires
            old(self).wf(),
        ensures
            final(self).wf(),
            old(self).serial.outgoing@.len() == 0 ==> r is None,
            old(self).serial.outgoing@.len() > 0 ==> r == Some(old(self).serial.outgoing@[0]),
    {
        self.serial.send_to_peer()
    }

    /// The cartridge RAM, for persistence.
    pub fn cartridge_ram(&self) -> (r: &[u8])
        ensures
            r@ == self.cart.ram@,
    {
        self.cart.ram()
    }
}

/// Writes to read-only places leave their fixed reads: the unmapped gap
/// always reads 0xFF, and IE and IF show their unused top bits as one,
/// whatever the state of the console.
pub proof fn lemma_fixed_reads(g: Gameboy, address: u16)
    requires
        g.wf(),
    ensures
        0xFEA0 <= address <= 0xFEFF ==> g.peek(address) == 0xFF,
        address == 0xFFFF ==> g.peek(address) >= 0xE0,
        address == 0xFF0F ==> g.peek(address) >= 0xE0,
{
}

/// The T-cycles that a span of time stands for at 4.194304 MHz, doubled in
/// double-speed mode, at most `u64::MAX`.
pub open spec fn cycles_for(seconds: u64, nanos: u32, double_speed: bool) -> int {
    let c = (seconds * CLOCK_HZ + (nanos * CLOCK_HZ) / 1_000_000_000) * (if double_speed { 2int } else { 1 });
    if c > u64::MAX {
        u64::MAX as int
    } else {
        c
    }
}

/// The T-cycles that a span of time stands for.
pub fn cycles_for_duration(seconds: u64, nanos: u32, double_speed: bool) -> (r: u64)
    ensures
        r == cycles_for(seconds, nanos, double_speed),
{
    let c: u128 = (seconds as u128 * CLOCK_HZ as u128 + (nanos as u128 * CLOCK_HZ as u128) / 1_000_000_000) * (if double_speed { 2 } else { 1 });
    if c > u64::MAX as u128 {
        u64::MAX
    } else {
        c as u64
    }
}

} // verus!
