//! The cartridge: its header, its ROM and RAM images and its bank controller.
use vstd::prelude::*;
use crate::mbc::{NoMBC, MBC1, MBC3, byte_at, stored, ROM_BANK_SIZE};

verus! {

/// The bank controller that byte 0x147 of the header names.
#[allow(non_camel_case_types)]
#[derive(Clone, Copy, Debug, PartialEq, Eq, Structural)]
pub enum MBCType {
    NONE,
    MBC1,
    MBC2,
    MMM01,
    MBC3,
    MBC4,
    MBC5,
    MBC6,
    MBC7,
    CAMERA,
    TAMA5,
    HUC3,
    HUC1,
}

/// Why a ROM image cannot be loaded.
#[derive(Clone, Copy, Debug, PartialEq, Eq, Structural)]
pub enum HeaderError {
    /// The image is shorter than its 0x150-byte header.
    RomTooSmall,
    /// Byte 0x147 names no known cartridge type.
    InvalidCartridgeType(u8),
    /// Byte 0x148 is no ROM size code.
    InvalidRomSize(u8),
    /// Byte 0x149 is no RAM size code.
    InvalidRamSize(u8),
    /// The cartridge type is known but its controller is not emulated.
    UnimplementedMbc,
}

/// What the header says of the cartridge.
#[derive(Clone, Copy, Debug, PartialEq, Eq, Structural)]
pub struct CartInfo {
    pub sgb: bool,
    pub cgb: bool,
    pub mbc_type: MBCType,
    pub battery: bool,
    pub rtc: bool,
    pub rom_size: usize,
    pub ram_size: usize,
}

/// Bytes in a header.
pub const HEADER_LENGTH: usize = 0x150;

pub open spec fn type_of(t: u8) -> Option<MBCType> {
    if t == 0x00 || t == 0x08 || t == 0x09 {
        Some(MBCType::NONE)
    } else if 0x01 <= t <= 0x03 {
        Some(MBCType::MBC1)
    } else if 0x05 <= t <= 0x06 {
        Some(MBCType::MBC2)
    } else if 0x0B <= t <= 0x0D {
        Some(MBCType::MMM01)
    } else if 0x0F <= t <= 0x13 {
        Some(MBCType::MBC3)
    } else if 0x15 <= t <= 0x17 {
        Some(MBCType::MBC4)
    } else if 0x19 <= t <= 0x1E {
        Some(MBCType::MBC5)
    } else if t == 0x20 {
        Some(MBCType::MBC6)
    } else if t == 0x22 {
        Some(MBCType::MBC7)
    } else if t == 0xFC {
        Some(MBCType::CAMERA)
    } else if t == 0xFD {
        Some(MBCType::TAMA5)
    } else if t == 0xFE {
        Some(MBCType::HUC3)
    } else if t == 0xFF {
        Some(MBCType::HUC1)
    } else {
        None
    }
}

pub open spec fn rom_size_of(code: u8) -> Option<usize> {
    if code <= 7 {
        Some((0x8000 * vstd::arithmetic::power2::pow2(code as nat)) as usize)
    } else if code == 0x52 {
        Some(1179648usize)
    } else if code == 0x53 {
        Some(1310720usize)
    } else if code == 0x54 {
        Some(1572864usize)
    } else {
        None
    }
}

pub open spec fn ram_size_of(code: u8) -> Option<usize> {
    if code == 0 {
        Some(0usize)
    } else if code == 1 {
        Some(2048usize)
    } else if code == 2 {
        Some(8192usize)
    } else if code == 3 {
        Some(32768usize)
    } else if code == 4 {
        Some(131072usize)
    } else if code == 5 {
        Some(65536usize)
    } else {
        None
    }
}

pub open spec fn battery_of(t: u8) -> bool {
    t == 0x03 || t == 0x06 || t == 0x09 || t == 0x0D || t == 0x0F || t == 0x10 || t == 0x13 || t == 0x17
        || t == 0x1B || t == 0x1E || t == 0x22 || t == 0xFF
}

pub open spec fn rtc_of(t: u8) -> bool {
    t == 0x0F || t == 0x10
}

/// The result of parsing a header: a function of its first 0x150 bytes.
pub open spec fn cart_info_of(header: Seq<u8>) -> Result<CartInfo, HeaderError> {
    if header.len() < HEADER_LENGTH {
        Err(HeaderError::RomTooSmall)
    } else if type_of(header[0x147]) is None {
        Err(HeaderError::InvalidCartridgeType(header[0x147]))
    } else if rom_size_of(header[0x148]) is None {
        Err(HeaderError::InvalidRomSize(header[0x148]))
    } else if ram_size_of(header[0x149]) is None {
        Err(HeaderError::InvalidRamSize(header[0x149]))
    } else {
        Ok(
            CartInfo {
                sgb: header[0x146] == 0x03,
                cgb: header[0x143] >= 0x80,
                mbc_type: type_of(header[0x147])->Some_0,
                battery: battery_of(header[0x147]),
                rtc: rtc_of(header[0x147]),
                rom_size: rom_size_of(header[0x148])->Some_0,
                ram_size: ram_size_of(header[0x149])->Some_0,
            },
        )
    }
}

impl CartInfo {
    /// Parses the header of a ROM image.
    pub fn new(rom: &Vec<u8>) -> (r: Result<CartInfo, HeaderError>)
        ensures
            r == cart_info_of(rom@),
            rom@.len() >= HEADER_LENGTH ==> r == cart_info_of(rom@.subrange(0, HEADER_LENGTH as int)),
    {
        if rom.len() < HEADER_LENGTH {
            return Err(HeaderError::RomTooSmall);
        }
        let mbc_type = match CartInfo::get_type(rom[0x147]) {
            Some(t) => t,
            None => {
                return Err(HeaderError::InvalidCartridgeType(rom[0x147]));
            },
        };
        let rom_size = match CartInfo::get_rom_size(rom[0x148]) {
            Some(s) => s,
            None => {
                return Err(HeaderError::InvalidRomSize(rom[0x148]));
            },
        };
        let ram_size = match CartInfo::get_ram_size(rom[0x149]) {
            Some(s) => s,
            None => {
                return Err(HeaderError::InvalidRamSize(rom[0x149]));
            },
        };
        Ok(
            CartInfo {
                sgb: rom[0x146] == 0x03,
                cgb: rom[0x143] >= 0x80,
                mbc_type,
                battery: CartInfo::has_battery(rom[0x147]),
                rtc: CartInfo::has_rtc(rom[0x147]),
                rom_size,
                ram_size,
            },
        )
    }

    /// Whether the cartridge type has a battery.
    pub fn has_battery(cart_type: u8) -> (r: bool)
        ensures
            r == battery_of(cart_type),
    {
        match cart_type {
            0x03 | 0x06 | 0x09 | 0x0D | 0x0F | 0x10 | 0x13 | 0x17 | 0x1B | 0x1E | 0x22 | 0xFF => true,
            _ => false,
        }
    }

    /// Whether the cartridge type has a real-time clock.
    pub fn has_rtc(cart_type: u8) -> (r: bool)
        ensures
            r == rtc_of(cart_type),
    {
        cart_type == 0x0F || cart_type == 0x10
    }

    /// The controller that the cartridge type names.
    pub fn get_type(cart_type: u8) -> (r: Option<MBCType>)
        ensures
            r == type_of(cart_type),
    {
        match cart_type {
            0x00 | 0x08 | 0x09 => Some(MBCType::NONE),
            0x01..=0x03 => Some(MBCType::MBC1),
            0x05..=0x06 => Some(MBCType::MBC2),
            0x0B..=0x0D => Some(MBCType::MMM01),
            0x0F..=0x13 => Some(MBCType::MBC3),
            0x15..=0x17 => Some(MBCType::MBC4),
            0x19..=0x1E => Some(MBCType::MBC5),
            0x20 => Some(MBCType::MBC6),
            0x22 => Some(MBCType::MBC7),
            0xFC => Some(MBCType::CAMERA),
            0xFD => Some(MBCType::TAMA5),
            0xFE => Some(MBCType::HUC3),
            0xFF => Some(MBCType::HUC1),
            _ => None,
        }
    }

    /// The ROM size that a size code stands for: 32 KiB times 2^n, or 72, 80 or 96 banks.
    pub fn get_rom_size(code: u8) -> (r: Option<usize>)
        ensures
            r == rom_size_of(code),
    {
        proof {
            vstd::arithmetic::power2::lemma2_to64();
        }
        match code {
            0 => Some(0x8000),
            1 => Some(0x10000),
            2 => Some(0x20000),
            3 => Some(0x40000),
            4 => Some(0x80000),
            5 => Some(0x100000),
            6 => Some(0x200000),
            7 => Some(0x400000),
            0x52 => Some(0x4000 * 72),
            0x53 => Some(0x4000 * 80),
            0x54 => Some(0x4000 * 96),
            _ => None,
        }
    }

    /// The RAM size that a size code stands for.
    pub fn get_ram_size(code: u8) -> (r: Option<usize>)
        ensures
            r == ram_size_of(code),
    {
        match code {
            0 => Some(0),
            1 => Some(2 * 1024),
            2 => Some(8 * 1024),
            3 => Some(32 * 1024),
            4 => Some(128 * 1024),
            5 => Some(64 * 1024),
            _ => None,
        }
    }
}

/// Header parsing reads nothing past the header: two images with the same
/// first 0x150 bytes give the same result.
pub proof fn lemma_cart_info_reads_header_only(rom1: Seq<u8>, rom2: Seq<u8>)
    requires
        rom1.len() >= HEADER_LENGTH,
        rom2.len() >= HEADER_LENGTH,
        rom1.subrange(0, HEADER_LENGTH as int) == rom2.subrange(0, HEADER_LENGTH as int),
    ensures
        cart_info_of(rom1) == cart_info_of(rom2),
{
    assert(rom1[0x143] == rom1.subrange(0, HEADER_LENGTH as int)[0x143]);
    assert(rom1[0x146] == rom1.subrange(0, HEADER_LENGTH as int)[0x146]);
    assert(rom1[0x147] == rom1.subrange(0, HEADER_LENGTH as int)[0x147]);
    assert(rom1[0x148] == rom1.subrange(0, HEADER_LENGTH as int)[0x148]);
    assert(rom1[0x149] == rom1.subrange(0, HEADER_LENGTH as int)[0x149]);
    assert(rom2[0x143] == rom2.subrange(0, HEADER_LENGTH as int)[0x143]);
    assert(rom2[0x146] == rom2.subrange(0, HEADER_LENGTH as int)[0x146]);
    assert(rom2[0x147] == rom2.subrange(0, HEADER_LENGTH as int)[0x147]);
    assert(rom2[0x148] == rom2.subrange(0, HEADER_LENGTH as int)[0x148]);
    assert(rom2[0x149] == rom2.subrange(0, HEADER_LENGTH as int)[0x149]);
}

/// The bank controller of a cartridge, held inline.
#[derive(Clone, Copy, Debug, PartialEq, Eq, Structural)]
pub enum MBC {
    NoMBC(NoMBC),
    Mbc1(MBC1),
    Mbc3(MBC3),
}

impl MBC {
    pub open spec fn wf(&self) -> bool {
        match self {
            MBC::NoMBC(_) => true,
            MBC::Mbc1(m) => m.wf(),
            MBC::Mbc3(m) => m.wf(),
        }
    }

    /// The ROM bank mapped at 0x4000-0x7FFF.
    pub open spec fn bank(&self) -> int {
        match self {
            MBC::NoMBC(_) => 1,
            MBC::Mbc1(m) => m.effective_rom_bank(),
            MBC::Mbc3(m) => m.rom_bank as int,
        }
    }

    /// The ROM bank mapped at 0x4000-0x7FFF.
    pub fn rom_bank(&self) -> (r: usize)
        requires
            self.wf(),
        ensures
            r == self.bank(),
    {
        match self {
            MBC::NoMBC(_) => 1,
            MBC::Mbc1(m) => m.rom_bank(),
            MBC::Mbc3(m) => m.rom_bank(),
        }
    }

    /// The RAM bank (or, on MBC3, the clock register) selected.
    pub fn ram_bank(&self) -> (r: usize)
        requires
            self.wf(),
        ensures
            r == match self {
                MBC::NoMBC(_) => 0,
                MBC::Mbc1(m) => m.effective_ram_bank(),
                MBC::Mbc3(m) => m.ram_bank as int,
            },
    {
        match self {
            MBC::NoMBC(_) => 0,
            MBC::Mbc1(m) => m.ram_bank(),
            MBC::Mbc3(m) => m.ram_bank(),
        }
    }
}

/// The index in the ROM image that a CPU address 0x0000-0x7FFF reaches.
pub open spec fn rom_index(mbc: MBC, address: u16) -> int {
    if address < 0x4000 {
        address as int
    } else {
        mbc.bank() * 0x4000 + address - 0x4000
    }
}

/// A loaded cartridge.
#[derive(Clone, Debug)]
pub struct VirtualCartridge {
    pub rom: Vec<u8>,
    pub ram: Vec<u8>,
    pub cart_info: CartInfo,
    pub mbc: MBC,
}

/// The RAM image a cartridge starts with: the one supplied, padded with zeros
/// to the header's size, or zeros.
pub open spec fn initial_ram(ram: Option<Seq<u8>>, size: int) -> Seq<u8> {
    let given = match ram {
        Some(r) => r,
        None => Seq::empty(),
    };
    if given.len() >= size {
        given
    } else {
        given + Seq::new((size - given.len()) as nat, |i: int| 0u8)
    }
}

impl VirtualCartridge {
    pub open spec fn wf(&self) -> bool {
        &&& self.mbc.wf()
        &&& self.ram@.len() >= self.cart_info.ram_size
    }

    /// Builds a cartridge from a ROM image and an optional RAM image. Fails as
    /// the header does, or with `UnimplementedMbc` for a controller other than
    /// none, MBC1 and MBC3.
    pub fn new(rom: Vec<u8>, ram: Option<Vec<u8>>) -> (r: Result<VirtualCartridge, HeaderError>)
        ensures
            cart_info_of(rom@) is Err ==> r == Err::<VirtualCartridge, HeaderError>(cart_info_of(rom@)->Err_0),
            cart_info_of(rom@) matches Ok(info) ==> {
                if info.mbc_type == MBCType::NONE || info.mbc_type == MBCType::MBC1 || info.mbc_type == MBCType::MBC3 {
                    r matches Ok(c) && {
                        &&& c.rom@ == rom@
                        &&& c.cart_info == info
                        &&& c.ram@ == initial_ram(
                            match ram {
                                Some(v) => Some(v@),
                                None => None,
                            },
                            info.ram_size as int,
                        )
                        &&& c.wf()
                        &&& info.mbc_type == MBCType::NONE ==> c.mbc == MBC::NoMBC(NoMBC {  })
                        &&& info.mbc_type == MBCType::MBC1 ==> c.mbc == MBC::Mbc1(MBC1::new_spec())
                        &&& info.mbc_type == MBCType::MBC3 ==> (c.mbc matches MBC::Mbc3(m) && m.rom_bank == 1
                            && m.ram_bank == 0 && !m.ram_timer_enable && (m.rtc is Some <==> info.rtc))
                    }
                } else {
                    r == Err::<VirtualCartridge, HeaderError>(HeaderError::UnimplementedMbc)
                }
            },
    {
        let cart_info = match CartInfo::new(&rom) {
            Ok(i) => i,
            Err(e) => {
                return Err(e);
            },
        };
        let mbc = match cart_info.mbc_type {
            MBCType::NONE => MBC::NoMBC(NoMBC::new()),
            MBCType::MBC1 => MBC::Mbc1(MBC1::new()),
            MBCType::MBC3 => MBC::Mbc3(MBC3::new(cart_info.rtc)),
            _ => {
                return Err(HeaderError::UnimplementedMbc);
            },
        };
        let ghost given = match &ram {
            Some(v) => v@,
            None => Seq::<u8>::empty(),
        };
        let mut ram = match ram {
            Some(r) => r,
            None => Vec::new(),
        };
        let ghost start = ram@;
        while ram.len() < cart_info.ram_size
            invariant
                start == given,
                ram@.len() <= cart_info.ram_size || ram@ == start,
                ram@.len() >= start.len(),
                ram@.subrange(0, start.len() as int) == start,
                forall|i: int| start.len() <= i < ram@.len() ==> ram@[i] == 0u8,
            decreases cart_info.ram_size - ram.len(),
        {
            ram.push(0);
        }
        assert(ram@ =~= initial_ram(Some(given), cart_info.ram_size as int));
        Ok(VirtualCartridge { rom, ram, cart_info, mbc })
    }

    /// The byte that the CPU sees at 0x0000-0x7FFF.
    pub fn read_byte_rom(&self, address: u16) -> (r: u8)
        requires
            self.wf(),
            address < 0x8000,
        ensures
            r == byte_at(self.rom@, rom_index(self.mbc, address)),
    {
        match &self.mbc {
            MBC::NoMBC(m) => m.read_byte_rom(&self.rom, address),
            MBC::Mbc1(m) => m.read_byte_rom(&self.rom, address),
            MBC::Mbc3(m) => m.read_byte_rom(&self.rom, address),
        }
    }

    /// The byte that the CPU sees at an offset into 0xA000-0xBFFF.
    pub open spec fn ram_byte(&self, address: u16) -> u8 {
        let size = self.cart_info.ram_size as int;
        match self.mbc {
            MBC::NoMBC(_) => if address < size { byte_at(self.ram@, address as int) } else { 0xFF },
            MBC::Mbc1(m) => {
                let index = m.effective_ram_bank() * 0x2000 + address;
                if index < size { byte_at(self.ram@, index) } else { 0xFF }
            },
            MBC::Mbc3(m) => if !m.ram_timer_enable {
                0xFF
            } else if m.ram_bank <= 3 {
                let index = m.ram_bank * 0x2000 + address;
                if index < size { byte_at(self.ram@, index) } else { 0xFF }
            } else {
                match m.rtc {
                    Some(c) => MBC3::clock_register(c, m.ram_bank),
                    None => 0xFF,
                }
            },
        }
    }

    /// The byte that the CPU sees at 0xA000-0xBFFF, given as an offset.
    pub fn read_byte_ram(&self, address: u16) -> (r: u8)
        requires
            self.wf(),
            address < 0x2000,
        ensures
            r == self.ram_byte(address),
    {
        match &self.mbc {
            MBC::NoMBC(m) => m.read_byte_ram(&self.ram, self.cart_info.ram_size, address),
            MBC::Mbc1(m) => m.read_byte_ram(&self.ram, self.cart_info.ram_size, address),
            MBC::Mbc3(m) => m.read_byte_ram(&self.ram, self.cart_info.ram_size, address),
        }
    }

    /// A write to 0x0000-0x7FFF: it sets the controller's registers; the ROM never changes.
    pub fn write_byte_rom(&mut self, address: u16, value: u8)
        requires
            old(self).wf(),
        ensures
            final(self).wf(),
            old(self).mbc is NoMBC ==> final(self).mbc == old(self).mbc,
            old(self).mbc matches MBC::Mbc1(m) ==> final(self).mbc == MBC::Mbc1(m.written(address, value)),
            old(self).mbc matches MBC::Mbc3(m) ==> (final(self).mbc matches MBC::Mbc3(n) && {
                &&& address <= 0x1FFF ==> n == (MBC3 { ram_timer_enable: value == 0x0A, ..m })
                &&& 0x2000 <= address <= 0x3FFF ==> n.rom_bank == (if value % 128 == 0 { 1 } else { value % 128 })
                &&& 0x4000 <= address <= 0x5FFF ==> n.ram_bank == (if value <= 3 || (8 <= value <= 0xC) {
                    value
                } else {
                    0
                })
            }),
            final(self).rom == old(self).rom,
            final(self).ram == old(self).ram,
            final(self).cart_info == old(self).cart_info,
    {
        match &mut self.mbc {
            MBC::NoMBC(_) => {},
            MBC::Mbc1(m) => m.write_byte_rom(address, value),
            MBC::Mbc3(m) => m.write_byte_rom(address, value),
        }
    }

    /// A write to 0xA000-0xBFFF, given as an offset.
    pub fn write_byte_ram(&mut self, address: u16, value: u8)
        requires
            old(self).wf(),
            address < 0x2000,
        ensures
            final(self).wf(),
            final(self).rom == old(self).rom,
            final(self).cart_info == old(self).cart_info,
            final(self).ram@.len() == old(self).ram@.len(),
    {
        let size = self.cart_info.ram_size;
        match &mut self.mbc {
            MBC::NoMBC(m) => m.write_byte_ram(&mut self.ram, size, address, value),
            MBC::Mbc1(m) => m.write_byte_ram(&mut self.ram, size, address, value),
            MBC::Mbc3(m) => m.write_byte_ram(&mut self.ram, size, address, value),
        }
    }

    /// Replaces the ROM byte that the CPU sees at an address 0x0000-0x7FFF;
    /// nothing changes where that byte is past the image.
    pub fn patch_rom(&mut self, address: u16, value: u8)
        requires
            old(self).wf(),
            address < 0x8000,
        ensures
            final(self).wf(),
            final(self).rom@ == stored(old(self).rom@, rom_index(old(self).mbc, address), value),
            final(self).mbc == old(self).mbc,
            final(self).ram == old(self).ram,
            final(self).cart_info == old(self).cart_info,
    {
        let index: usize = if address < 0x4000 {
            address as usize
        } else {
            self.mbc.rom_bank() * ROM_BANK_SIZE + (address - 0x4000) as usize
        };
        crate::mbc::write_if_in(&mut self.rom, index, value);
    }

    /// The header's description of the cartridge.
    pub fn get_cart_info(&self) -> (r: &CartInfo)
        ensures
            *r == self.cart_info,
    {
        &self.cart_info
    }

    /// The cartridge RAM, for persistence.
    pub fn ram(&self) -> (r: &[u8])
        ensures
            r@ == self.ram@,
    {
        self.ram.as_slice()
    }
}

impl MBC1 {
    pub open spec fn new_spec() -> MBC1 {
        MBC1 { ram_bank: 0, rom_bank: 1, mode: crate::mbc::ModeSelect::Rom, ram_enable: false }
    }
}

} // verus!
