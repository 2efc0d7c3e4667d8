//! The CPU's register file.
use vstd::prelude::*;

verus! {

/// An 8-bit register slot as the opcode map names it; `AT_HL` is the byte at
/// the address held in HL.
#[allow(non_camel_case_types)]
#[derive(Clone, Copy, Debug, PartialEq, Eq, Structural)]
pub enum Register {
    B,
    C,
    D,
    E,
    H,
    L,
    AT_HL,
    A,
    F,
}

/// A 16-bit register pair.
#[derive(Clone, Copy, Debug, PartialEq, Eq, Structural)]
pub enum RegisterPair {
    AF,
    BC,
    DE,
    HL,
    SP,
}

/// A, F, B, C, D, E, H, L, the stack pointer and the program counter.
#[derive(Clone, Copy, Debug, PartialEq, Eq, Structural)]
pub struct Registers {
    pub a: u8,
    pub f: u8,
    pub b: u8,
    pub c: u8,
    pub d: u8,
    pub e: u8,
    pub h: u8,
    pub l: u8,
    pub sp: u16,
    pub pc: u16,
}

/// Two bytes as one big-endian word.
pub open spec fn word(high: u8, low: u8) -> u16 {
    (high * 256 + low) as u16
}

impl Registers {
    /// The value of a register pair.
    pub open spec fn pair(&self, reg: RegisterPair) -> u16 {
        match reg {
            RegisterPair::AF => word(self.a, self.f),
            RegisterPair::BC => word(self.b, self.c),
            RegisterPair::DE => word(self.d, self.e),
            RegisterPair::HL => word(self.h, self.l),
            RegisterPair::SP => self.sp,
        }
    }

    /// The register file after `set_register_pair(reg, value)`: F keeps only
    /// its high nibble.
    pub open spec fn with_pair(&self, reg: RegisterPair, value: u16) -> Registers {
        let high = (value / 256) as u8;
        let low = (value % 256) as u8;
        match reg {
            RegisterPair::AF => Registers { a: high, f: ((low / 16) * 16) as u8, ..*self },
            RegisterPair::BC => Registers { b: high, c: low, ..*self },
            RegisterPair::DE => Registers { d: high, e: low, ..*self },
            RegisterPair::HL => Registers { h: high, l: low, ..*self },
            RegisterPair::SP => Registers { sp: value, ..*self },
        }
    }

    /// The values that the monochrome boot program leaves.
    pub open spec fn dmg_values(&self) -> bool {
        &&& self.a == 0x01 && self.f == 0xB0
        &&& self.b == 0x00 && self.c == 0x13
        &&& self.d == 0x00 && self.e == 0xD8
        &&& self.h == 0x01 && self.l == 0x4D
        &&& self.sp == 0xFFFE && self.pc == 0x0100
    }

    /// The values that the color boot program leaves.
    pub open spec fn cgb_values(&self) -> bool {
        &&& self.a == 0x11 && self.f == 0x80
        &&& self.b == 0x00 && self.c == 0x00
        &&& self.d == 0xFF && self.e == 0x56
        &&& self.h == 0x00 && self.l == 0x0D
        &&& self.sp == 0xFFFE && self.pc == 0x0100
    }

    /// A register file holding the monochrome post-boot values.
    pub fn new() -> (r: Registers)
        ensures
            r.dmg_values(),
    {
        let mut regs = Registers { a: 0, f: 0, b: 0, c: 0, d: 0, e: 0, h: 0, l: 0, sp: 0, pc: 0 };
        regs.init_dmg();
        regs
    }

    /// Sets every register to the monochrome post-boot value.
    pub fn init_dmg(&mut self)
        ensures
            final(self).dmg_values(),
    {
        self.a = 0x01;
        self.f = 0xB0;
        self.b = 0x00;
        self.c = 0x13;
        self.d = 0x00;
        self.e = 0xD8;
        self.h = 0x01;
        self.l = 0x4D;
        self.sp = 0xFFFE;
        self.pc = 0x0100;
    }

    /// Sets every register to the color post-boot value.
    pub fn init_cgb(&mut self)
        ensures
            final(self).cgb_values(),
    {
        self.a = 0x11;
        self.f = 0x80;
        self.b = 0x00;
        self.c = 0x00;
        self.d = 0xFF;
        self.e = 0x56;
        self.h = 0x00;
        self.l = 0x0D;
        self.sp = 0xFFFE;
        self.pc = 0x0100;
    }

    /// Reads a register pair, high byte first.
    pub fn get_register_pair(&self, reg: RegisterPair) -> (r: u16)
        ensures
            r == self.pair(reg),
    {
        match reg {
            RegisterPair::AF => self.a as u16 * 256 + self.f as u16,
            RegisterPair::BC => self.b as u16 * 256 + self.c as u16,
            RegisterPair::DE => self.d as u16 * 256 + self.e as u16,
            RegisterPair::HL => self.h as u16 * 256 + self.l as u16,
            RegisterPair::SP => self.sp,
        }
    }

    /// Writes a register pair; F keeps only the high nibble of its byte.
    pub fn set_register_pair(&mut self, reg: RegisterPair, value: u16)
        ensures
            *final(self) == old(self).with_pair(reg, value),
    {
        let high: u8 = (value / 256) as u8;
        let low: u8 = (value % 256) as u8;
        match reg {
            RegisterPair::AF => {
                self.a = high;
                self.f = (low / 16) * 16;
            },
            RegisterPair::BC => {
                self.b = high;
                self.c = low;
            },
            RegisterPair::DE => {
                self.d = high;
                self.e = low;
            },
            RegisterPair::HL => {
                self.h = high;
                self.l = low;
            },
            RegisterPair::SP => self.sp = value,
        }
    }
}

} // verus!
