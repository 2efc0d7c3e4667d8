//! The memory-bank controllers: none, MBC1 and MBC3.
use vstd::prelude::*;
use crate::rtc::RTC;

verus! {

/// Bytes in a ROM bank.
pub const ROM_BANK_SIZE: usize = 0x4000;

/// Bytes in a RAM bank.
pub const RAM_BANK_SIZE: usize = 0x2000;

/// A byte of an image, or 0xFF past its end.
pub open spec fn byte_at(data: Seq<u8>, index: int) -> u8 {
    if 0 <= index < data.len() {
        data[index]
    } else {
        0xFF
    }
}

/// Reads a byte of an image, or 0xFF past its end.
pub fn read_or_ff(data: &Vec<u8>, index: usize) -> (r: u8)
    ensures
        r == byte_at(data@, index as int),
{
    if index < data.len() {
        data[index]
    } else {
        0xFF
    }
}

/// An image with one byte replaced, or unchanged when the index is past its end.
pub open spec fn stored(data: Seq<u8>, index: int, value: u8) -> Seq<u8> {
    if 0 <= index < data.len() {
        data.update(index, value)
    } else {
        data
    }
}

/// Writes a byte of an image; a write past its end is dropped.
pub fn write_if_in(data: &mut Vec<u8>, index: usize, value: u8)
    ensures
        final(data)@ == stored(old(data)@, index as int, value),
{
    if index < data.len() {
        data.set(index, value);
    }
}

/// A cartridge without a bank controller: ROM and RAM pass straight through.
#[derive(Clone, Copy, Debug, PartialEq, Eq, Structural)]
pub struct NoMBC {}

impl NoMBC {
    pub fn new() -> (r: NoMBC)
        ensures
            r == (NoMBC {  }),
    {
        NoMBC {  }
    }

    /// ROM at the offset, 0xFF past the image.
    pub fn read_byte_rom(&self, rom: &Vec<u8>, offset: u16) -> (r: u8)
        ensures
            r == byte_at(rom@, offset as int),
    {
        read_or_ff(rom, offset as usize)
    }

    /// RAM at the offset, 0xFF past its size.
    pub fn read_byte_ram(&self, ram: &Vec<u8>, ram_size: usize, offset: u16) -> (r: u8)
        ensures
            r == (if (offset as int) < ram_size { byte_at(ram@, offset as int) } else { 0xFF }),
    {
        if (offset as usize) < ram_size {
            read_or_ff(ram, offset as usize)
        } else {
            0xFF
        }
    }

    /// Writes RAM within its size.
    pub fn write_byte_ram(&self, ram: &mut Vec<u8>, ram_size: usize, offset: u16, value: u8)
        ensures
            final(ram)@ == (if (offset as int) < ram_size { stored(old(ram)@, offset as int, value) } else {
                old(ram)@
            }),
    {
        if (offset as usize) < ram_size {
            write_if_in(ram, offset as usize, value);
        }
    }
}

/// What the MBC1 upper register extends: the ROM bank or the RAM bank.
#[derive(Clone, Copy, Debug, PartialEq, Eq, Structural)]
pub enum ModeSelect {
    Rom,
    Ram,
}

/// MBC1: a five-bit ROM bank, a two-bit upper register, the mode and the RAM enable latch.
#[derive(Clone, Copy, Debug, PartialEq, Eq, Structural)]
pub struct MBC1 {
    pub ram_bank: u8,
    pub rom_bank: u8,
    pub mode: ModeSelect,
    pub ram_enable: bool,
}

impl MBC1 {
    pub open spec fn wf(&self) -> bool {
        self.rom_bank < 32 && self.ram_bank < 4
    }

    /// The bank seen at 0x4000-0x7FFF: the ROM bank, extended by the upper
    /// register in ROM mode; bank 0 reads as bank 1.
    pub open spec fn effective_rom_bank(&self) -> int {
        let bank = self.rom_bank + (if self.mode == ModeSelect::Rom { self.ram_bank * 32 } else { 0int });
        if bank == 0 {
            1
        } else {
            bank
        }
    }

    /// The RAM bank: the upper register in RAM mode, else 0.
    pub open spec fn effective_ram_bank(&self) -> int {
        if self.mode == ModeSelect::Ram {
            self.ram_bank as int
        } else {
            0
        }
    }

    /// The registers after a write to the control range: RAM enable (low
    /// nibble 0xA), ROM bank (five bits), upper register (two bits), mode (bit 0).
    pub open spec fn written(&self, address: u16, value: u8) -> MBC1 {
        if address <= 0x1FFF {
            MBC1 { ram_enable: value % 16 == 0xA, ..*self }
        } else if address <= 0x3FFF {
            MBC1 { rom_bank: value % 32, ..*self }
        } else if address <= 0x5FFF {
            MBC1 { ram_bank: value % 4, ..*self }
        } else if address <= 0x7FFF {
            MBC1 { mode: if value % 2 == 0 { ModeSelect::Rom } else { ModeSelect::Ram }, ..*self }
        } else {
            *self
        }
    }

    /// Bank 1, ROM mode, RAM disabled.
    pub fn new() -> (r: MBC1)
        ensures
            r.rom_bank == 1 && r.ram_bank == 0 && r.mode == ModeSelect::Rom && !r.ram_enable,
            r.wf(),
    {
        MBC1 { ram_bank: 0, rom_bank: 1, mode: ModeSelect::Rom, ram_enable: false }
    }

    /// The bank seen at 0x4000-0x7FFF.
    pub fn rom_bank(&self) -> (r: usize)
        requires
            self.wf(),
        ensures
            r == self.effective_rom_bank(),
    {
        let mut bank: usize = self.rom_bank as usize;
        if self.mode == ModeSelect::Rom {
            bank = bank + self.ram_bank as usize * 32;
        }
        if bank == 0 {
            1
        } else {
            bank
        }
    }

    /// The RAM bank.
    pub fn ram_bank(&self) -> (r: usize)
        requires
            self.wf(),
        ensures
            r == self.effective_ram_bank(),
    {
        if self.mode == ModeSelect::Ram {
            self.ram_bank as usize
        } else {
            0
        }
    }

    /// 0x0000-0x3FFF reads bank 0, 0x4000-0x7FFF the selected bank.
    pub fn read_byte_rom(&self, rom: &Vec<u8>, address: u16) -> (r: u8)
        requires
            self.wf(),
            address < 0x8000,
        ensures
            r == byte_at(
                rom@,
                if address < 0x4000 { address as int } else { self.effective_rom_bank() * 0x4000 + address - 0x4000 },
            ),
    {
        if address < 0x4000 {
            read_or_ff(rom, address as usize)
        } else {
            let index: usize = self.rom_bank() * ROM_BANK_SIZE + (address - 0x4000) as usize;
            read_or_ff(rom, index)
        }
    }

    /// RAM at the selected bank, 0xFF past its size.
    pub fn read_byte_ram(&self, ram: &Vec<u8>, ram_size: usize, address: u16) -> (r: u8)
        requires
            self.wf(),
            address < 0x2000,
        ensures
            ({
                let index = self.effective_ram_bank() * 0x2000 + address;
                r == (if index < ram_size { byte_at(ram@, index) } else { 0xFF })
            }),
    {
        let index: usize = self.ram_bank() * RAM_BANK_SIZE + address as usize;
        if index < ram_size {
            read_or_ff(ram, index)
        } else {
            0xFF
        }
    }

    /// Writes the control registers: RAM enable (low nibble 0xA), ROM bank
    /// (five bits), upper register (two bits), mode (bit 0).
    pub fn write_byte_rom(&mut self, address: u16, value: u8)
        requires
            old(self).wf(),
        ensures
            final(self).wf(),
            *final(self) == old(self).written(address, value),
    {
        if address <= 0x1FFF {
            self.ram_enable = value % 16 == 0xA;
        } else if address <= 0x3FFF {
            self.rom_bank = value % 32;
        } else if address <= 0x5FFF {
            self.ram_bank = value % 4;
        } else if address <= 0x7FFF {
            if value % 2 == 0 {
                self.mode = ModeSelect::Rom;
            } else {
                self.mode = ModeSelect::Ram;
            }
        }
    }

    /// Writes RAM at the selected bank within its size.
    pub fn write_byte_ram(&self, ram: &mut Vec<u8>, ram_size: usize, address: u16, value: u8)
        requires
            self.wf(),
            address < 0x2000,
        ensures
            ({
                let index = self.effective_ram_bank() * 0x2000 + address;
                final(ram)@ == (if index < ram_size { stored(old(ram)@, index, value) } else { old(ram)@ })
            }),
    {
        let index: usize = self.ram_bank() * RAM_BANK_SIZE + address as usize;
        if index < ram_size {
            write_if_in(ram, index, value);
        }
    }
}

/// RAM bank numbers that select a clock register.
pub const RTC_S: u8 = 0x08;
pub const RTC_M: u8 = 0x09;
pub const RTC_H: u8 = 0x0A;
pub const RTC_DL: u8 = 0x0B;
pub const RTC_DH: u8 = 0x0C;

/// MBC3: a seven-bit ROM bank, a RAM bank or clock register selector, the
/// latch sequencer, the RAM/clock enable latch and an optional clock.
#[derive(Clone, Copy, Debug, PartialEq, Eq, Structural)]
pub struct MBC3 {
    pub rom_bank: u8,
    pub ram_bank: u8,
    pub latch_written: Option<u8>,
    pub rtc: Option<RTC>,
    pub ram_timer_enable: bool,
}

impl MBC3 {
    pub open spec fn wf(&self) -> bool {
        &&& 1 <= self.rom_bank < 128
        &&& self.ram_bank <= 3 || (8 <= self.ram_bank <= 0xC)
        &&& self.rtc matches Some(c) ==> c.wf()
    }

    /// Bank 1, RAM bank 0, disabled; with a clock when the cartridge has one.
    pub fn new(rtc_enabled: bool) -> (r: MBC3)
        ensures
            r.rom_bank == 1 && r.ram_bank == 0 && r.latch_written is None && !r.ram_timer_enable,
            r.rtc is Some <==> rtc_enabled,
            r.wf(),
    {
        let rtc = if rtc_enabled {
            Some(RTC::new())
        } else {
            None
        };
        MBC3 { rom_bank: 1, ram_bank: 0, latch_written: None, rtc, ram_timer_enable: false }
    }

    /// The bank seen at 0x4000-0x7FFF.
    pub fn rom_bank(&self) -> (r: usize)
        ensures
            r == self.rom_bank,
    {
        self.rom_bank as usize
    }

    /// The RAM bank or clock register selector.
    pub fn ram_bank(&self) -> (r: usize)
        ensures
            r == self.ram_bank,
    {
        self.ram_bank as usize
    }

    /// 0x0000-0x3FFF reads bank 0, 0x4000-0x7FFF the selected bank.
    pub fn read_byte_rom(&self, rom: &Vec<u8>, address: u16) -> (r: u8)
        requires
            self.wf(),
            address < 0x8000,
        ensures
            r == byte_at(
                rom@,
                if address < 0x4000 { address as int } else { self.rom_bank * 0x4000 + address - 0x4000 },
            ),
    {
        if address < 0x4000 {
            read_or_ff(rom, address as usize)
        } else {
            let index: usize = self.rom_bank as usize * ROM_BANK_SIZE + (address - 0x4000) as usize;
            read_or_ff(rom, index)
        }
    }

    /// The value of a clock register.
    pub open spec fn clock_register(c: RTC, sel: u8) -> u8 {
        if sel == RTC_S {
            c.shown().seconds as u8
        } else if sel == RTC_M {
            c.shown().minutes as u8
        } else if sel == RTC_H {
            c.shown().hours as u8
        } else if sel == RTC_DL {
            (c.shown().days % 256) as u8
        } else {
            ((c.shown().days / 256) + (if c.halt { 64int } else { 0 }) + (if c.day_carry { 128int } else { 0 })) as u8
        }
    }

    /// Reads the selected RAM bank or clock register; 0xFF while disabled,
    /// past the RAM's size, or for a clock register without a clock.
    pub fn read_byte_ram(&self, ram: &Vec<u8>, ram_size: usize, address: u16) -> (r: u8)
        requires
            self.wf(),
            address < 0x2000,
        ensures
            !self.ram_timer_enable ==> r == 0xFF,
            self.ram_timer_enable && self.ram_bank <= 3 ==> {
                let index = self.ram_bank * 0x2000 + address;
                r == (if index < ram_size { byte_at(ram@, index) } else { 0xFF })
            },
            self.ram_timer_enable && self.ram_bank >= 8 ==> r == match self.rtc {
                Some(c) => MBC3::clock_register(c, self.ram_bank),
                None => 0xFFu8,
            },
    {
        if !self.ram_timer_enable {
            return 0xFF;
        }
        if self.ram_bank <= 3 {
            let index: usize = self.ram_bank as usize * RAM_BANK_SIZE + address as usize;
            if index < ram_size {
                read_or_ff(ram, index)
            } else {
                0xFF
            }
        } else {
            match &self.rtc {
                Some(c) => {
                    if self.ram_bank == RTC_S {
                        c.seconds()
                    } else if self.ram_bank == RTC_M {
                        c.minutes()
                    } else if self.ram_bank == RTC_H {
                        c.hours()
                    } else if self.ram_bank == RTC_DL {
                        c.days_low()
                    } else {
                        c.days_high()
                    }
                },
                None => 0xFF,
            }
        }
    }

    /// Writes the control registers: RAM/clock enable (0x0A), ROM bank (seven
    /// bits, 0 becomes 1), RAM bank or clock register (0-3, 8-0xC, else 0),
    /// and the latch sequencer (0 then 1 latches the clock; 0 drops the latch).
    pub fn write_byte_rom(&mut self, address: u16, value: u8)
        requires
            old(self).wf(),
        ensures
            final(self).wf(),
            address <= 0x1FFF ==> *final(self) == (MBC3 { ram_timer_enable: value == 0x0A, ..*old(self) }),
            0x2000 <= address <= 0x3FFF ==> *final(self) == (MBC3 {
                rom_bank: if value % 128 == 0 { 1 } else { value % 128 },
                ..*old(self)
            }),
            0x4000 <= address <= 0x5FFF ==> *final(self) == (MBC3 {
                ram_bank: if value <= 3 || (8 <= value <= 0xC) { value } else { 0 },
                ..*old(self)
            }),
            0x6000 <= address <= 0x7FFF ==> {
                &&& final(self).latch_written == Some(value)
                &&& final(self).rom_bank == old(self).rom_bank
                &&& final(self).ram_bank == old(self).ram_bank
                &&& final(self).ram_timer_enable == old(self).ram_timer_enable
                &&& (final(self).rtc is Some <==> old(self).rtc is Some)
                &&& old(self).rtc matches Some(c) ==> {
                    let n = final(self).rtc->Some_0;
                    if old(self).latch_written == Some(0u8) && value == 1 {
                        n.latched == Some(n.duration)
                    } else if value == 0 {
                        n == (RTC { latched: None, ..c })
                    } else {
                        n == c
                    }
                }
            },
            address >= 0x8000 ==> *final(self) == *old(self),
    {
        if address <= 0x1FFF {
            self.ram_timer_enable = value == 0x0A;
        } else if address <= 0x3FFF {
            let bank = value % 128;
            self.rom_bank = if bank == 0 { 1 } else { bank };
        } else if address <= 0x5FFF {
            if value <= 3 || (8 <= value && value <= 0xC) {
                self.ram_bank = value;
            } else {
                self.ram_bank = 0;
            }
        } else if address <= 0x7FFF {
            let arm = self.latch_written;
            match &mut self.rtc {
                Some(c) => {
                    if arm == Some(0u8) && value == 1 {
                        c.latch();
                    } else if value == 0 {
                        c.unlatch();
                    }
                },
                None => {},
            }
            self.latch_written = Some(value);
        }
    }

    /// Writes the selected RAM bank or clock register while enabled.
    pub fn write_byte_ram(&mut self, ram: &mut Vec<u8>, ram_size: usize, address: u16, value: u8)
        requires
            old(self).wf(),
            address < 0x2000,
        ensures
            final(self).wf(),
            !old(self).ram_timer_enable ==> *final(self) == *old(self) && final(ram)@ == old(ram)@,
            old(self).ram_timer_enable && old(self).ram_bank <= 3 ==> {
                let index = old(self).ram_bank * 0x2000 + address;
                &&& final(ram)@ == (if index < ram_size { stored(old(ram)@, index, value) } else { old(ram)@ })
                &&& *final(self) == *old(self)
            },
            old(self).ram_bank >= 8 ==> final(ram)@ == old(ram)@,
            final(self).rom_bank == old(self).rom_bank,
            final(self).ram_bank == old(self).ram_bank,
            final(self).ram_timer_enable == old(self).ram_timer_enable,
    {
        if !self.ram_timer_enable {
            return;
        }
        if self.ram_bank <= 3 {
            let index: usize = self.ram_bank as usize * RAM_BANK_SIZE + address as usize;
            if index < ram_size {
                write_if_in(ram, index, value);
            }
        } else {
            let sel = self.ram_bank;
            match &mut self.rtc {
                Some(c) => {
                    if sel == RTC_S {
                        c.set_seconds(value);
                    } else if sel == RTC_M {
                        c.set_minutes(value);
                    } else if sel == RTC_H {
                        c.set_hours(value);
                    } else if sel == RTC_DL {
                        c.set_days_low(value);
                    } else {
                        c.set_days_high(value);
                    }
                },
                None => {},
            }
        }
    }
}

} // verus!
