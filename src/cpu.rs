//! The CPU's state besides its registers.
use vstd::prelude::*;
use crate::interrupts::{InterruptEnable, InterruptFlag};
use crate::mode::Mode;
use crate::registers::Registers;

verus! {

/// Bytes of high RAM (0xFF80-0xFFFE).
pub const HRAM_SIZE: usize = 127;

/// Registers, interrupt state, halt and stop, high RAM and the T-cycle counter.
#[derive(Clone, Debug)]
pub struct CPU {
    pub registers: Registers,
    /// The master interrupt enable.
    pub ime: bool,
    /// The value IME takes at the next instruction boundary (EI's delay).
    pub next_ime_state: bool,
    pub interrupt_flag: InterruptFlag,
    pub interrupt_enable: InterruptEnable,
    pub stop: bool,
    pub halt: bool,
    pub hram: Vec<u8>,
    pub double_speed_mode: bool,
    /// T-cycles since construction.
    pub cycle_counter: u64,
}

impl CPU {
    pub open spec fn wf(&self) -> bool {
        &&& self.hram@.len() == HRAM_SIZE
        &&& self.interrupt_flag.wf()
        &&& self.interrupt_enable.wf()
    }

    /// The post-boot CPU: monochrome registers, interrupts disabled, VBlank requested.
    pub fn new() -> (r: CPU)
        ensures
            r.wf(),
            r.registers.dmg_values(),
            !r.ime && !r.next_ime_state && !r.halt && !r.stop && !r.double_speed_mode,
            r.interrupt_flag.value == 1 && r.interrupt_enable.value == 0,
            r.cycle_counter == 0,
    {
        CPU {
            registers: Registers::new(),
            ime: false,
            next_ime_state: false,
            interrupt_flag: InterruptFlag::new(),
            interrupt_enable: InterruptEnable::new(),
            stop: false,
            halt: false,
            hram: vec![0u8; HRAM_SIZE],
            double_speed_mode: false,
            cycle_counter: 0,
        }
    }

    /// Returns the registers to the model's post-boot values and clears the
    /// interrupt and power state; high RAM and the cycle counter are kept.
    pub fn reset(&mut self, mode: Mode)
        requires
            old(self).wf(),
        ensures
            final(self).wf(),
            mode == Mode::DMG ==> final(self).registers.dmg_values(),
            mode == Mode::CGB ==> final(self).registers.cgb_values(),
            !final(self).ime && !final(self).next_ime_state && !final(self).halt && !final(self).stop,
            !final(self).double_speed_mode,
            final(self).interrupt_flag.value == 1 && final(self).interrupt_enable.value == 0,
            final(self).hram == old(self).hram,
            final(self).cycle_counter == old(self).cycle_counter,
    {
        match mode {
            Mode::DMG => self.registers.init_dmg(),
            Mode::CGB => self.registers.init_cgb(),
        }
        self.ime = false;
        self.next_ime_state = false;
        self.interrupt_flag.reset();
        self.interrupt_enable.reset();
        self.stop = false;
        self.halt = false;
        self.double_speed_mode = false;
    }

    /// Reads high RAM at an address 0xFF80-0xFFFE.
    pub fn read_byte_hram(&self, address: u16) -> (r: u8)
        requires
            self.wf(),
            0xFF80 <= address <= 0xFFFE,
        ensures
            r == self.hram@[address - 0xFF80],
    {
        self.hram[(address - 0xFF80) as usize]
    }

    /// Writes high RAM at an address 0xFF80-0xFFFE.
    pub fn write_byte_hram(&mut self, address: u16, value: u8)
        requires
            old(self).wf(),
            0xFF80 <= address <= 0xFFFE,
        ensures
            final(self).wf(),
            final(self).hram@ == old(self).hram@.update(address - 0xFF80, value),
            *final(self) == (CPU { hram: final(self).hram, ..*old(self) }),
    {
        self.hram.set((address - 0xFF80) as usize, value);
    }
}

} // verus!
