//! The pixel-processing unit: VRAM, OAM, the LCD registers, the scanline
//! state machine and the renderer.
use vstd::prelude::*;
use crate::framebuffer::FrameBuffer;
use crate::interrupts::{Interrupt, InterruptLine, mask_of};

verus! {

pub const VRAM_BANK_SIZE: usize = 8192;
pub const OAM_SIZE: usize = 160;
pub const SCREEN_WIDTH: usize = 160;
pub const SCREEN_HEIGHT: usize = 144;
/// Pixels in one frame.
pub const FRAME_PIXELS: usize = 23040;

/// T-cycles in one scanline.
pub const LINE_CYCLES: u32 = 456;
/// Scanlines in one frame, VBlank included.
pub const FRAME_LINES: u8 = 154;
/// The first scanline of VBlank.
pub const VBLANK_LINE: u8 = 144;
/// T-cycles in one frame.
pub const FRAME_CYCLES: u32 = 70224;
/// The line position at which VBlank starts.
pub const VBLANK_START: u32 = 65664;
/// T-cycles of OAM search at the start of a visible line.
pub const OAM_SEARCH_CYCLES: u32 = 80;
/// The line position at which pixel transfer ends (80 + 172).
pub const TRANSFER_END: u32 = 252;

/// The display's four shades, lightest first, as RGBA.
pub const DEFAULT_SHADES: [u32; 4] = [0xE0F8D0FF, 0x88C070FF, 0x346856FF, 0x081820FF];

/// The four PPU modes.
#[allow(non_camel_case_types)]
#[derive(Clone, Copy, Debug, PartialEq, Eq, Structural)]
pub enum PpuMode {
    HBLANK,
    VBLANK,
    SEARCH_OAM,
    TRANSFER_TO_LCD,
}

/// The mode number that STAT shows.
pub open spec fn mode_number(m: PpuMode) -> u8 {
    match m {
        PpuMode::HBLANK => 0,
        PpuMode::VBLANK => 1,
        PpuMode::SEARCH_OAM => 2,
        PpuMode::TRANSFER_TO_LCD => 3,
    }
}

/// The mode at a scanline and a T-cycle within it.
pub open spec fn mode_at(line: u8, clock: u32) -> PpuMode {
    if line >= VBLANK_LINE {
        PpuMode::VBLANK
    } else if clock < OAM_SEARCH_CYCLES {
        PpuMode::SEARCH_OAM
    } else if clock < TRANSFER_END {
        PpuMode::TRANSFER_TO_LCD
    } else {
        PpuMode::HBLANK
    }
}

/// The LCD registers of the PPU.
#[derive(Clone, Copy, Debug, PartialEq, Eq, Structural)]
pub enum PpuIoRegister {
    Lcdc,
    Stat,
    Scy,
    Scx,
    Ly,
    Lyc,
    Wy,
    Wx,
    Bgp,
    Obp0,
    Obp1,
    Bgpi,
    Bgpd,
    Obpi,
    Obpd,
    Vbk,
}

pub open spec fn ppu_register_address(r: PpuIoRegister) -> u16 {
    match r {
        PpuIoRegister::Lcdc => 0xFF40,
        PpuIoRegister::Stat => 0xFF41,
        PpuIoRegister::Scy => 0xFF42,
        PpuIoRegister::Scx => 0xFF43,
        PpuIoRegister::Ly => 0xFF44,
        PpuIoRegister::Lyc => 0xFF45,
        PpuIoRegister::Bgp => 0xFF47,
        PpuIoRegister::Obp0 => 0xFF48,
        PpuIoRegister::Obp1 => 0xFF49,
        PpuIoRegister::Wy => 0xFF4A,
        PpuIoRegister::Wx => 0xFF4B,
        PpuIoRegister::Vbk => 0xFF4F,
        PpuIoRegister::Bgpi => 0xFF68,
        PpuIoRegister::Bgpd => 0xFF69,
        PpuIoRegister::Obpi => 0xFF6A,
        PpuIoRegister::Obpd => 0xFF6B,
    }
}

/// The LCD register at an address, if any.
pub open spec fn ppu_register_at(address: u16) -> Option<PpuIoRegister> {
    if address == 0xFF40 {
        Some(PpuIoRegister::Lcdc)
    } else if address == 0xFF41 {
        Some(PpuIoRegister::Stat)
    } else if address == 0xFF42 {
        Some(PpuIoRegister::Scy)
    } else if address == 0xFF43 {
        Some(PpuIoRegister::Scx)
    } else if address == 0xFF44 {
        Some(PpuIoRegister::Ly)
    } else if address == 0xFF45 {
        Some(PpuIoRegister::Lyc)
    } else if address == 0xFF47 {
        Some(PpuIoRegister::Bgp)
    } else if address == 0xFF48 {
        Some(PpuIoRegister::Obp0)
    } else if address == 0xFF49 {
        Some(PpuIoRegister::Obp1)
    } else if address == 0xFF4A {
        Some(PpuIoRegister::Wy)
    } else if address == 0xFF4B {
        Some(PpuIoRegister::Wx)
    } else if address == 0xFF4F {
        Some(PpuIoRegister::Vbk)
    } else if address == 0xFF68 {
        Some(PpuIoRegister::Bgpi)
    } else if address == 0xFF69 {
        Some(PpuIoRegister::Bgpd)
    } else if address == 0xFF6A {
        Some(PpuIoRegister::Obpi)
    } else if address == 0xFF6B {
        Some(PpuIoRegister::Obpd)
    } else {
        None
    }
}

impl PpuIoRegister {
    /// The register's address.
    pub fn address(&self) -> (r: u16)
        ensures
            r == ppu_register_address(*self),
    {
        match *self {
            PpuIoRegister::Lcdc => 0xFF40,
            PpuIoRegister::Stat => 0xFF41,
            PpuIoRegister::Scy => 0xFF42,
            PpuIoRegister::Scx => 0xFF43,
            PpuIoRegister::Ly => 0xFF44,
            PpuIoRegister::Lyc => 0xFF45,
            PpuIoRegister::Bgp => 0xFF47,
            PpuIoRegister::Obp0 => 0xFF48,
            PpuIoRegister::Obp1 => 0xFF49,
            PpuIoRegister::Wy => 0xFF4A,
            PpuIoRegister::Wx => 0xFF4B,
            PpuIoRegister::Vbk => 0xFF4F,
            PpuIoRegister::Bgpi => 0xFF68,
            PpuIoRegister::Bgpd => 0xFF69,
            PpuIoRegister::Obpi => 0xFF6A,
            PpuIoRegister::Obpd => 0xFF6B,
        }
    }

    /// The register at an address, if any.
    pub fn map_address(address: u16) -> (r: Option<PpuIoRegister>)
        ensures
            r == ppu_register_at(address),
            r matches Some(reg) ==> ppu_register_address(reg) == address,
            r is None ==> forall|reg: PpuIoRegister| ppu_register_address(reg) != address,
    {
        match address {
            0xFF40 => Some(PpuIoRegister::Lcdc),
            0xFF41 => Some(PpuIoRegister::Stat),
            0xFF42 => Some(PpuIoRegister::Scy),
            0xFF43 => Some(PpuIoRegister::Scx),
            0xFF44 => Some(PpuIoRegister::Ly),
            0xFF45 => Some(PpuIoRegister::Lyc),
            0xFF47 => Some(PpuIoRegister::Bgp),
            0xFF48 => Some(PpuIoRegister::Obp0),
            0xFF49 => Some(PpuIoRegister::Obp1),
            0xFF4A => Some(PpuIoRegister::Wy),
            0xFF4B => Some(PpuIoRegister::Wx),
            0xFF4F => Some(PpuIoRegister::Vbk),
            0xFF68 => Some(PpuIoRegister::Bgpi),
            0xFF69 => Some(PpuIoRegister::Bgpd),
            0xFF6A => Some(PpuIoRegister::Obpi),
            0xFF6B => Some(PpuIoRegister::Obpd),
            _ => None,
        }
    }
}

/// Where background and window tile data lives, as LCDC bit 4 selects.
#[derive(Clone, Copy, Debug, PartialEq, Eq, Structural)]
pub enum TileDataAddress {
    TileData8800h,
    TileData8000h,
}

/// 2 to the power `k`, for `k` below 8.
pub open spec fn pow2_byte(k: int) -> int {
    if k <= 0 {
        1
    } else if k == 1 {
        2
    } else if k == 2 {
        4
    } else if k == 3 {
        8
    } else if k == 4 {
        16
    } else if k == 5 {
        32
    } else if k == 6 {
        64
    } else {
        128
    }
}

/// Bit `k` of a byte.
pub open spec fn bit_of(b: u8, k: int) -> int {
    (b as int / pow2_byte(k)) % 2
}

/// Bit `k` of a byte, for `k` below 8.
pub fn get_bit(b: u8, k: u8) -> (r: u8)
    requires
        k < 8,
    ensures
        r == bit_of(b, k as int),
        r < 2,
{
    let d: u8 = match k {
        0 => 1,
        1 => 2,
        2 => 4,
        3 => 8,
        4 => 16,
        5 => 32,
        6 => 64,
        _ => 128,
    };
    (b / d) % 2
}

/// The VRAM address of a tile's first byte.
pub open spec fn tile_address(sel: TileDataAddress, tile_number: u8) -> int {
    match sel {
        TileDataAddress::TileData8000h => 0x8000 + tile_number * 16,
        TileDataAddress::TileData8800h => 0x8800 + ((tile_number + 128) % 256) * 16,
    }
}

impl TileDataAddress {
    /// The selection that LCDC makes with bit 4.
    pub fn from_lcdc(lcdc: u8) -> (r: TileDataAddress)
        ensures
            r == (if (lcdc / 16) % 2 == 0 { TileDataAddress::TileData8800h } else { TileDataAddress::TileData8000h }),
    {
        if (lcdc / 16) % 2 == 0 {
            TileDataAddress::TileData8800h
        } else {
            TileDataAddress::TileData8000h
        }
    }

    /// The base address of the tile data.
    pub fn address(&self) -> (r: u16)
        ensures
            r == (if *self == TileDataAddress::TileData8000h { 0x8000int } else { 0x8800 }),
    {
        match self {
            TileDataAddress::TileData8000h => 0x8000,
            TileDataAddress::TileData8800h => 0x8800,
        }
    }

    /// The address of a tile: unsigned numbers from 0x8000, or signed numbers
    /// with tile 0 at 0x9000.
    pub fn get_tile_address(&self, tile_number: u8) -> (r: u16)
        ensures
            r == tile_address(*self, tile_number),
            0x8000 <= r <= 0x97F0,
    {
        match self {
            TileDataAddress::TileData8000h => 0x8000 + tile_number as u16 * 16,
            TileDataAddress::TileData8800h => 0x8800 + ((tile_number as u16 + 128) % 256) * 16,
        }
    }
}

/// One entry of the sprite table.
#[derive(Clone, Copy, Debug, PartialEq, Eq, Structural)]
pub struct Sprite {
    pub y: u8,
    pub x: u8,
    pub tile_number: u8,
    pub attributes: u8,
}

impl Sprite {
    /// The top row on screen.
    pub fn y_pos(&self) -> (r: i32)
        ensures
            r == self.y - 16,
    {
        self.y as i32 - 16
    }

    /// The left column on screen.
    pub fn x_pos(&self) -> (r: i32)
        ensures
            r == self.x - 8,
    {
        self.x as i32 - 8
    }
}

/// A sprite pixel waiting for composition: its colour index, whether it uses
/// OBP1, and whether it is drawn above the background.
#[derive(Clone, Copy, Debug, PartialEq, Eq, Structural)]
pub struct SpritePixel {
    pub value: u8,
    pub obp1: bool,
    pub above_bg: bool,
}

/// A rectangle of RGBA pixels, row by row.
#[derive(Clone, Debug)]
pub struct Bitmap {
    pub width: usize,
    pub height: usize,
    pub data: Vec<u32>,
}

/// The colour index (0 to 3) of pixel `px` in the row made of the bytes `low` and `high`.
pub open spec fn tile_pixel(low: u8, high: u8, px: int) -> int {
    bit_of(high, 7 - px) * 2 + bit_of(low, 7 - px)
}

/// The shade number that a palette gives a colour index.
pub open spec fn palette_shade(palette: u8, index: int) -> int {
    (palette as int / pow2_byte(2 * index)) % 4
}

/// The shade number that a palette gives a colour index.
pub fn apply_palette(palette: u8, index: u8) -> (r: u8)
    requires
        index < 4,
    ensures
        r == palette_shade(palette, index as int),
        r < 4,
{
    let d: u8 = match index {
        0 => 1,
        1 => 4,
        2 => 16,
        _ => 64,
    };
    (palette / d) % 4
}

/// The monochrome PPU.
#[derive(Clone, Debug)]
pub struct DmgPpu {
    pub vram: Vec<u8>,
    pub oam: Vec<u8>,
    pub framebuffer: FrameBuffer,
    pub frame_counter: u64,
    pub shades: [u32; 4],
    /// T-cycles into the current scanline.
    pub clock: u32,
    pub lcdc: u8,
    pub lyc_interrupt_enable: bool,
    pub oam_interrupt_enable: bool,
    pub vblank_interrupt_enable: bool,
    pub hblank_interrupt_enable: bool,
    /// The current scanline, LY.
    pub line: u8,
    pub scx: u8,
    pub scy: u8,
    pub lyc: u8,
    pub wx: u8,
    pub wy: u8,
    pub bgp: u8,
    pub obp0: u8,
    pub obp1: u8,
}

/// Whether LCDC enables the display (bit 7).
pub open spec fn lcd_on(lcdc: u8) -> bool {
    lcdc >= 128
}

/// What the scanline machine runs on: LCDC, LY's line, the cycle in the
/// line, LYC and the four STAT interrupt enables (LYC, OAM, VBlank, HBlank).
pub type PpuCore = (u8, u8, u32, u8, bool, bool, bool, bool);

/// The line and cycle one T-cycle on, with the display on.
pub open spec fn ppu_core_next(c: PpuCore) -> PpuCore {
    let (lcdc, line, clock, lyc, e_lyc, e_oam, e_vblank, e_hblank) = c;
    if !lcd_on(lcdc) {
        c
    } else if clock + 1 == LINE_CYCLES {
        (lcdc, if line + 1 == FRAME_LINES { 0u8 } else { (line + 1) as u8 }, 0u32, lyc, e_lyc, e_oam, e_vblank, e_hblank)
    } else {
        (lcdc, line, (clock + 1) as u32, lyc, e_lyc, e_oam, e_vblank, e_hblank)
    }
}

/// The value LY reads at a line and cycle.
pub open spec fn ly_at(line: u8, clock: u32) -> u8 {
    if line == 153 && clock >= 4 {
        0
    } else {
        line
    }
}

/// Whether a T-cycle from this state enters VBlank.
pub open spec fn ppu_core_vblank(c: PpuCore) -> bool {
    let n = ppu_core_next(c);
    lcd_on(c.0) && n.1 == VBLANK_LINE && n.2 == 0
}

/// Whether a T-cycle from this state requests LCDStat: entering VBlank, OAM
/// search or HBlank with that enable set, or LY equal to LYC with its enable.
pub open spec fn ppu_core_stat(c: PpuCore) -> bool {
    let n = ppu_core_next(c);
    lcd_on(c.0) && ((ppu_core_vblank(c) && c.6) || (n.1 < VBLANK_LINE && n.2 == 0 && c.5) || (n.1 < VBLANK_LINE && n.2
        == TRANSFER_END && c.7) || (ly_at(n.1, n.2) == c.3 && c.4))
}

/// The requests of one T-cycle of the scanline machine: VBlank (bit 0) and LCDStat (bit 1).
pub open spec fn ppu_core_requests(c: PpuCore) -> u8 {
    ((if ppu_core_vblank(c) { 1int } else { 0 }) + (if ppu_core_stat(c) { 2int } else { 0 })) as u8
}

impl DmgPpu {
    pub open spec fn wf(&self) -> bool {
        &&& self.vram@.len() == VRAM_BANK_SIZE
        &&& self.oam@.len() == OAM_SIZE
        &&& self.framebuffer.wf()
        &&& self.framebuffer.width == SCREEN_WIDTH
        &&& self.framebuffer.height == SCREEN_HEIGHT
        &&& self.line < FRAME_LINES
        &&& self.clock < LINE_CYCLES
        &&& !lcd_on(self.lcdc) ==> self.line == 0 && self.clock == 0
    }

    /// The state the scanline machine runs on.
    pub open spec fn machine(&self) -> PpuCore {
        (
            self.lcdc,
            self.line,
            self.clock,
            self.lyc,
            self.lyc_interrupt_enable,
            self.oam_interrupt_enable,
            self.vblank_interrupt_enable,
            self.hblank_interrupt_enable,
        )
    }

    /// The value that LY reads: the scanline, except that it reads 0 from
    /// the fourth cycle of line 153 on, as the hardware does.
    pub open spec fn ly(&self) -> u8 {
        if self.line == 153 && self.clock >= 4 {
            0
        } else {
            self.line
        }
    }

    /// The value that LY reads.
    pub fn ly_value(&self) -> (r: u8)
        ensures
            r == self.ly(),
    {
        if self.line == 153 && self.clock >= 4 {
            0
        } else {
            self.line
        }
    }

    /// The current mode: HBlank while the display is off.
    pub open spec fn mode(&self) -> PpuMode {
        if !lcd_on(self.lcdc) {
            PpuMode::HBLANK
        } else {
            mode_at(self.line, self.clock)
        }
    }

    /// The position in the frame, in T-cycles.
    pub open spec fn position(&self) -> int {
        self.line * LINE_CYCLES + self.clock
    }

    /// The post-boot state: display on (LCDC 0x91), BGP 0xFC, OBP0 and OBP1 0xFF.
    pub fn new() -> (r: DmgPpu)
        ensures
            r.wf(),
            r.lcdc == 0x91 && r.bgp == 0xFC && r.obp0 == 0xFF && r.obp1 == 0xFF,
            r.scx == 0 && r.scy == 0 && r.lyc == 0 && r.wx == 0 && r.wy == 0,
            r.line == 153 && r.clock == 4 && r.ly() == 0 && r.frame_counter == 0,
            r.stat() == 0x85,
    {
        DmgPpu {
            vram: vec![0u8; VRAM_BANK_SIZE],
            oam: vec![0u8; OAM_SIZE],
            framebuffer: FrameBuffer::new(SCREEN_WIDTH, SCREEN_HEIGHT),
            frame_counter: 0,
            shades: DEFAULT_SHADES,
            clock: 4,
            lcdc: 0x91,
            lyc_interrupt_enable: false,
            oam_interrupt_enable: false,
            vblank_interrupt_enable: false,
            hblank_interrupt_enable: false,
            line: 153,
            scx: 0,
            scy: 0,
            lyc: 0,
            wx: 0,
            wy: 0,
            bgp: 0xFC,
            obp0: 0xFF,
            obp1: 0xFF,
        }
    }

    /// Returns the registers and the frame counter to their post-boot values;
    /// VRAM and OAM are kept.
    pub fn reset(&mut self)
        requires
            old(self).wf(),
        ensures
            final(self).wf(),
            final(self).lcdc == 0x91 && final(self).bgp == 0xFC && final(self).obp0 == 0xFF && final(self).obp1 == 0xFF,
            final(self).line == 153 && final(self).clock == 4 && final(self).frame_counter == 0,
            final(self).stat() == 0x85,
            final(self).vram == old(self).vram && final(self).oam == old(self).oam,
    {
        self.frame_counter = 0;
        self.line = 153;
        self.clock = 4;
        self.lcdc = 0x91;
        self.lyc_interrupt_enable = false;
        self.oam_interrupt_enable = false;
        self.vblank_interrupt_enable = false;
        self.hblank_interrupt_enable = false;
        self.scx = 0;
        self.scy = 0;
        self.lyc = 0;
        self.wx = 0;
        self.wy = 0;
        self.bgp = 0xFC;
        self.obp0 = 0xFF;
        self.obp1 = 0xFF;
    }

    /// The current mode.
    pub fn get_mode(&self) -> (r: PpuMode)
        requires
            self.wf(),
        ensures
            r == self.mode(),
    {
        if self.lcdc < 128 {
            PpuMode::HBLANK
        } else if self.line >= VBLANK_LINE {
            PpuMode::VBLANK
        } else if self.clock < OAM_SEARCH_CYCLES {
            PpuMode::SEARCH_OAM
        } else if self.clock < TRANSFER_END {
            PpuMode::TRANSFER_TO_LCD
        } else {
            PpuMode::HBLANK
        }
    }

    /// The number of frames completed.
    pub fn get_frame_counter(&self) -> (r: u64)
        ensures
            r == self.frame_counter,
    {
        self.frame_counter
    }

    /// The STAT byte: bit 7 high, the four interrupt enables in bits 6 to 3,
    /// the coincidence flag (LY = LYC) in bit 2 and the mode in bits 1 and 0.
    pub open spec fn stat(&self) -> int {
        0x80 + (if self.lyc_interrupt_enable { 0x40int } else { 0 }) + (if self.oam_interrupt_enable {
            0x20int
        } else {
            0
        }) + (if self.vblank_interrupt_enable { 0x10int } else { 0 }) + (if self.hblank_interrupt_enable {
            0x08int
        } else {
            0
        }) + (if self.ly() == self.lyc { 0x04int } else { 0 }) + mode_number(self.mode())
    }

    /// The value that an LCD register reads; the color-only registers read 0xFF.
    pub open spec fn register_value(&self, reg: PpuIoRegister) -> u8 {
        match reg {
            PpuIoRegister::Lcdc => self.lcdc,
            PpuIoRegister::Stat => self.stat() as u8,
            PpuIoRegister::Scx => self.scx,
            PpuIoRegister::Scy => self.scy,
            PpuIoRegister::Ly => self.ly(),
            PpuIoRegister::Lyc => self.lyc,
            PpuIoRegister::Wx => self.wx,
            PpuIoRegister::Wy => self.wy,
            PpuIoRegister::Bgp => self.bgp,
            PpuIoRegister::Obp0 => self.obp0,
            PpuIoRegister::Obp1 => self.obp1,
            _ => 0xFFu8,
        }
    }

    /// Reads an LCD register; the color-only registers read 0xFF.
    pub fn read_io(&self, reg: PpuIoRegister) -> (r: u8)
        requires
            self.wf(),
        ensures
            r == self.register_value(reg),
            r == match reg {
                PpuIoRegister::Lcdc => self.lcdc,
                PpuIoRegister::Stat => self.stat() as u8,
                PpuIoRegister::Scx => self.scx,
                PpuIoRegister::Scy => self.scy,
                PpuIoRegister::Ly => self.ly(),
                PpuIoRegister::Lyc => self.lyc,
                PpuIoRegister::Wx => self.wx,
                PpuIoRegister::Wy => self.wy,
                PpuIoRegister::Bgp => self.bgp,
                PpuIoRegister::Obp0 => self.obp0,
                PpuIoRegister::Obp1 => self.obp1,
                _ => 0xFFu8,
            },
    {
        match reg {
            PpuIoRegister::Lcdc => self.lcdc,
            PpuIoRegister::Stat => {
                let mut v: u8 = 0x80;
                if self.lyc_interrupt_enable {
                    v = v + 0x40;
                }
                if self.oam_interrupt_enable {
                    v = v + 0x20;
                }
                if self.vblank_interrupt_enable {
                    v = v + 0x10;
                }
                if self.hblank_interrupt_enable {
                    v = v + 0x08;
                }
                if self.ly_value() == self.lyc {
                    v = v + 0x04;
                }
                let m: u8 = match self.get_mode() {
                    PpuMode::HBLANK => 0,
                    PpuMode::VBLANK => 1,
                    PpuMode::SEARCH_OAM => 2,
                    PpuMode::TRANSFER_TO_LCD => 3,
                };
                v + m
            },
            PpuIoRegister::Scx => self.scx,
            PpuIoRegister::Scy => self.scy,
            PpuIoRegister::Ly => self.ly_value(),
            PpuIoRegister::Lyc => self.lyc,
            PpuIoRegister::Wx => self.wx,
            PpuIoRegister::Wy => self.wy,
            PpuIoRegister::Bgp => self.bgp,
            PpuIoRegister::Obp0 => self.obp0,
            PpuIoRegister::Obp1 => self.obp1,
            _ => 0xFF,
        }
    }

    /// Writes an LCD register. LY and the color-only registers ignore writes;
    /// STAT keeps only its four interrupt enables. Turning the display off
    /// returns it to line 0, cycle 0.
    pub fn write_io(&mut self, reg: PpuIoRegister, value: u8)
        requires
            old(self).wf(),
        ensures
            final(self).wf(),
            final(self).vram == old(self).vram,
            final(self).oam == old(self).oam,
            final(self).framebuffer == old(self).framebuffer,
            final(self).frame_counter == old(self).frame_counter,
            reg == PpuIoRegister::Lcdc ==> final(self).lcdc == value && (if lcd_on(value) {
                final(self).line == old(self).line && final(self).clock == old(self).clock
            } else {
                final(self).line == 0 && final(self).clock == 0
            }),
            reg == PpuIoRegister::Stat ==> {
                &&& final(self).lyc_interrupt_enable == ((value / 64) % 2 == 1)
                &&& final(self).oam_interrupt_enable == ((value / 32) % 2 == 1)
                &&& final(self).vblank_interrupt_enable == ((value / 16) % 2 == 1)
                &&& final(self).hblank_interrupt_enable == ((value / 8) % 2 == 1)
            },
            reg == PpuIoRegister::Scx ==> final(self).scx == value,
            reg == PpuIoRegister::Scy ==> final(self).scy == value,
            reg == PpuIoRegister::Lyc ==> final(self).lyc == value,
            reg == PpuIoRegister::Wx ==> final(self).wx == value,
            reg == PpuIoRegister::Wy ==> final(self).wy == value,
            reg == PpuIoRegister::Bgp ==> final(self).bgp == value,
            reg == PpuIoRegister::Obp0 ==> final(self).obp0 == value,
            reg == PpuIoRegister::Obp1 ==> final(self).obp1 == value,
            reg != PpuIoRegister::Lcdc ==> final(self).line == old(self).line && final(self).clock == old(self).clock,
    {
        match reg {
            PpuIoRegister::Lcdc => {
                self.lcdc = value;
                if value < 128 {
                    self.line = 0;
                    self.clock = 0;
                }
            },
            PpuIoRegister::Stat => {
                self.lyc_interrupt_enable = (value / 64) % 2 == 1;
                self.oam_interrupt_enable = (value / 32) % 2 == 1;
                self.vblank_interrupt_enable = (value / 16) % 2 == 1;
                self.hblank_interrupt_enable = (value / 8) % 2 == 1;
            },
            PpuIoRegister::Scx => self.scx = value,
            PpuIoRegister::Scy => self.scy = value,
            PpuIoRegister::Lyc => self.lyc = value,
            PpuIoRegister::Wx => self.wx = value,
            PpuIoRegister::Wy => self.wy = value,
            PpuIoRegister::Bgp => self.bgp = value,
            PpuIoRegister::Obp0 => self.obp0 = value,
            PpuIoRegister::Obp1 => self.obp1 = value,
            _ => {},
        }
    }

    /// Reads VRAM; 0xFF during pixel transfer.
    pub fn read_byte_vram(&self, offset: u16) -> (r: u8)
        requires
            self.wf(),
            offset < 0x2000,
        ensures
            r == (if self.mode() == PpuMode::TRANSFER_TO_LCD { 0xFFu8 } else { self.vram@[offset as int] }),
    {
        if self.get_mode() == PpuMode::TRANSFER_TO_LCD {
            0xFF
        } else {
            self.vram[offset as usize]
        }
    }

    /// Writes VRAM; dropped during pixel transfer.
    pub fn write_byte_vram(&mut self, offset: u16, value: u8)
        requires
            old(self).wf(),
            offset < 0x2000,
        ensures
            final(self).wf(),
            final(self).vram@ == (if old(self).mode() == PpuMode::TRANSFER_TO_LCD { old(self).vram@ } else {
                old(self).vram@.update(offset as int, value)
            }),
            *final(self) == (DmgPpu { vram: final(self).vram, ..*old(self) }),
    {
        if self.get_mode() != PpuMode::TRANSFER_TO_LCD {
            self.vram.set(offset as usize, value);
        }
    }

    /// Reads OAM; 0xFF during OAM search and pixel transfer.
    pub fn read_byte_oam(&self, offset: u16) -> (r: u8)
        requires
            self.wf(),
            offset < 160,
        ensures
            r == (if self.mode() == PpuMode::SEARCH_OAM || self.mode() == PpuMode::TRANSFER_TO_LCD {
                0xFFu8
            } else {
                self.oam@[offset as int]
            }),
    {
        let m = self.get_mode();
        if m == PpuMode::SEARCH_OAM || m == PpuMode::TRANSFER_TO_LCD {
            0xFF
        } else {
            self.oam[offset as usize]
        }
    }

    /// Writes OAM; dropped during OAM search and pixel transfer.
    pub fn write_byte_oam(&mut self, offset: u16, value: u8)
        requires
            old(self).wf(),
            offset < 160,
        ensures
            final(self).wf(),
            final(self).oam@ == (if old(self).mode() == PpuMode::SEARCH_OAM || old(self).mode()
                == PpuMode::TRANSFER_TO_LCD {
                old(self).oam@
            } else {
                old(self).oam@.update(offset as int, value)
            }),
            *final(self) == (DmgPpu { oam: final(self).oam, ..*old(self) }),
    {
        let m = self.get_mode();
        if m != PpuMode::SEARCH_OAM && m != PpuMode::TRANSFER_TO_LCD {
            self.oam.set(offset as usize, value);
        }
    }

    /// Writes OAM whatever the mode, as the DMA controller does.
    pub fn write_oam_direct(&mut self, offset: u16, value: u8)
        requires
            old(self).wf(),
            offset < 160,
        ensures
            final(self).wf(),
            final(self).oam@ == old(self).oam@.update(offset as int, value),
            *final(self) == (DmgPpu { oam: final(self).oam, ..*old(self) }),
    {
        self.oam.set(offset as usize, value);
    }

    /// The front framebuffer: the last complete frame, 160 x 144 RGBA pixels.
    pub fn get_framebuffer(&self) -> (r: &[u32])
        requires
            self.wf(),
        ensures
            r@ == self.framebuffer.front(),
            r@.len() == FRAME_PIXELS,
    {
        self.framebuffer.get_front_buffer()
    }

    /// The colour index of the background or window at column `x` of the current line.
    pub open spec fn bg_index(&self, x: int) -> int {
        let wx = (self.wx + 249) % 256;
        let window = (self.lcdc / 32) % 2 == 1 && self.wy <= self.line && x >= wx;
        let bg = self.lcdc % 2 == 1;
        let sel = if (self.lcdc / 16) % 2 == 0 { TileDataAddress::TileData8800h } else { TileDataAddress::TileData8000h };
        if window || bg {
            let map: int = if window {
                if (self.lcdc / 64) % 2 == 0 { 0x9800int } else { 0x9C00 }
            } else {
                if (self.lcdc / 8) % 2 == 0 { 0x9800int } else { 0x9C00 }
            };
            let px: int = if window { x - wx } else { (x + self.scx) % 256 };
            let py: int = if window { self.line - self.wy } else { (self.line + self.scy) % 256 };
            let tile = self.vram@[map + px / 8 + (py / 8) * 32 - 0x8000];
            let addr = tile_address(sel, tile) + (py % 8) * 2 - 0x8000;
            tile_pixel(self.vram@[addr], self.vram@[addr + 1], px % 8)
        } else {
            0
        }
    }

    /// Computes the background and window colour indices of the current line.
    pub fn draw_bg(&self, background: &mut Vec<u8>)
        requires
            self.wf(),
            self.line < VBLANK_LINE,
            old(background)@.len() == SCREEN_WIDTH,
        ensures
            final(background)@.len() == SCREEN_WIDTH,
            forall|x: int| 0 <= x < SCREEN_WIDTH ==> final(background)@[x] == self.bg_index(x),
            forall|x: int| 0 <= x < SCREEN_WIDTH ==> final(background)@[x] < 4,
    {
        let wx: u8 = self.wx.wrapping_add(249);
        let window_enabled: bool = (self.lcdc / 32) % 2 == 1 && self.wy <= self.line;
        let background_enabled: bool = self.lcdc % 2 == 1;
        let window_map: usize = if (self.lcdc / 64) % 2 == 0 { 0x9800 } else { 0x9C00 };
        let bg_map: usize = if (self.lcdc / 8) % 2 == 0 { 0x9800 } else { 0x9C00 };
        let sel = TileDataAddress::from_lcdc(self.lcdc);
        let mut x: usize = 0;
        while x < SCREEN_WIDTH
            invariant
                self.wf(),
                self.line < VBLANK_LINE,
                background@.len() == SCREEN_WIDTH,
                wx == (self.wx + 249) % 256,
                window_enabled == ((self.lcdc / 32) % 2 == 1 && self.wy <= self.line),
                background_enabled == (self.lcdc % 2 == 1),
                window_map == (if (self.lcdc / 64) % 2 == 0 { 0x9800int } else { 0x9C00 }),
                bg_map == (if (self.lcdc / 8) % 2 == 0 { 0x9800int } else { 0x9C00 }),
                sel == (if (self.lcdc / 16) % 2 == 0 { TileDataAddress::TileData8800h } else { TileDataAddress::TileData8000h }),
                forall|i: int| 0 <= i < x ==> background@[i] == self.bg_index(i),
                forall|i: int| 0 <= i < x ==> background@[i] < 4,
            decreases SCREEN_WIDTH - x,
        {
            let window = window_enabled && x >= wx as usize;
            if window || background_enabled {
                let map: usize = if window { window_map } else { bg_map };
                let px: usize = if window { x - wx as usize } else { (x + self.scx as usize) % 256 };
                let py: usize = if window { (self.line - self.wy) as usize } else { (self.line as usize + self.scy as usize) % 256 };
                let tile = self.vram[map + px / 8 + (py / 8) * 32 - 0x8000];
                let addr: usize = sel.get_tile_address(tile) as usize + (py % 8) * 2 - 0x8000;
                let low = self.vram[addr];
                let high = self.vram[addr + 1];
                let k: u8 = (7 - px % 8) as u8;
                let v = get_bit(high, k) * 2 + get_bit(low, k);
                background.set(x, v);
            } else {
                background.set(x, 0);
            }
            x = x + 1;
        }
    }

    /// The sprite table entry `i`.
    pub fn sprite(&self, i: usize) -> (r: Sprite)
        requires
            self.wf(),
            i < 40,
        ensures
            r == (Sprite {
                y: self.oam@[4 * i as int],
                x: self.oam@[4 * i + 1],
                tile_number: self.oam@[4 * i + 2],
                attributes: self.oam@[4 * i + 3],
            }),
    {
        Sprite {
            y: self.oam[4 * i],
            x: self.oam[4 * i + 1],
            tile_number: self.oam[4 * i + 2],
            attributes: self.oam[4 * i + 3],
        }
    }

    /// Sprite height in rows, as LCDC bit 2 selects.
    pub open spec fn sprite_height(&self) -> int {
        if (self.lcdc / 4) % 2 == 0 {
            8
        } else {
            16
        }
    }

    /// Whether sprite `i` has a row on the current line.
    pub open spec fn on_line(&self, i: int, height: int) -> bool {
        0 <= i < 40 && self.oam@[4 * i] - 16 <= self.line < self.oam@[4 * i] - 16 + height
    }

    /// The order in which sprites win: by X, then by table position.
    pub open spec fn sprite_key(&self, i: int) -> int {
        self.oam@[4 * i + 1] * 64 + i
    }

    /// Whether `sel` is the sprites of the current line in ascending order
    /// of `sprite_key`, cut to the first ten.
    pub open spec fn selection(&self, sel: Seq<usize>, height: int) -> bool {
        &&& sel.len() <= 10
        &&& forall|k: int| 0 <= k < sel.len() ==> self.on_line(#[trigger] sel[k] as int, height)
        &&& forall|a: int, b: int|
            0 <= a < b < sel.len() ==> self.sprite_key(sel[a] as int) < self.sprite_key(sel[b] as int)
        &&& forall|i: int|
            #![trigger self.on_line(i, height)]
            self.on_line(i, height) && !sel.contains(i as usize) ==> sel.len() == 10 && forall|k: int|
                0 <= k < 10 ==> self.sprite_key(#[trigger] sel[k] as int) < self.sprite_key(i)
    }

    /// Whether sprite `i` has a pixel in column `x`.
    pub open spec fn covers_column(&self, i: int, x: int) -> bool {
        self.oam@[4 * i + 1] - 8 <= x < self.oam@[4 * i + 1]
    }

    /// The pixel that sprite `i` draws in column `x` of the current line:
    /// its row (flipped with attribute bit 6; the lower tile of a pair for
    /// rows 8-15), its column (flipped with bit 5), OBP1 with bit 4, and
    /// above the background unless bit 7 is set.
    pub open spec fn sprite_pixel(&self, i: int, x: int, height: int) -> SpritePixel {
        let attr = self.oam@[4 * i + 3];
        let y = self.line - (self.oam@[4 * i] - 16);
        let row = if (attr / 64) % 2 == 1 { height - 1 - y } else { y };
        let tile: int = if height == 16 { (self.oam@[4 * i + 2] / 2) * 2 + row / 8 } else { self.oam@[4 * i + 2] as int };
        let addr = tile * 16 + (row % 8) * 2;
        let px = x - (self.oam@[4 * i + 1] - 8);
        let k = if (attr / 32) % 2 == 1 { px } else { 7 - px };
        SpritePixel {
            value: (bit_of(self.vram@[addr + 1], k) * 2 + bit_of(self.vram@[addr], k)) as u8,
            obp1: (attr / 16) % 2 == 1,
            above_bg: attr < 128,
        }
    }

    /// The pixel of the first sprite of `sel` that covers column `x`, or `dflt`.
    pub open spec fn first_cover(&self, sel: Seq<usize>, x: int, height: int, dflt: Option<SpritePixel>) -> Option<
        SpritePixel,
    >
        decreases sel.len(),
    {
        if sel.len() == 0 {
            dflt
        } else if self.covers_column(sel[0] as int, x) {
            Some(self.sprite_pixel(sel[0] as int, x, height))
        } else {
            self.first_cover(sel.drop_first(), x, height, dflt)
        }
    }

    /// Whether `spr` holds the sprite pixels of the current line: none with
    /// sprites off, else those of the first selected sprite covering each column.
    pub open spec fn line_sprites(&self, spr: Seq<Option<SpritePixel>>) -> bool {
        &&& spr.len() == SCREEN_WIDTH
        &&& (self.lcdc / 2) % 2 == 0 ==> forall|x: int| 0 <= x < SCREEN_WIDTH ==> spr[x] is None
        &&& (self.lcdc / 2) % 2 == 1 ==> exists|sel: Seq<usize>|
            #[trigger] self.selection(sel, self.sprite_height()) && forall|x: int|
                0 <= x < SCREEN_WIDTH ==> spr[x] == self.first_cover(sel, x, self.sprite_height(), None)
    }

    fn sprite_key_exec(&self, i: usize) -> (r: u32)
        requires
            self.wf(),
            i < 40,
        ensures
            r == self.sprite_key(i as int),
    {
        self.oam[4 * i + 1] as u32 * 64 + i as u32
    }

    /// The sprites on the current line, by ascending X (ties in table order),
    /// at most ten.
    pub fn select_sprites(&self, height: i32) -> (r: Vec<usize>)
        requires
            self.wf(),
            height == 8 || height == 16,
        ensures
            self.selection(r@, height as int),
            forall|k: int| 0 <= k < r@.len() ==> r@[k] < 40,
    {
        let line: i32 = self.line as i32;
        let mut found: Vec<usize> = Vec::new();
        let mut last: i64 = -1;
        while found.len() < 10
            invariant
                self.wf(),
                height == 8 || height == 16,
                line == self.line,
                found@.len() <= 10,
                forall|k: int| 0 <= k < found@.len() ==> found@[k] < 40,
                forall|k: int| 0 <= k < found@.len() ==> self.on_line(#[trigger] found@[k] as int, height as int),
                forall|a: int, b: int|
                    0 <= a < b < found@.len() ==> self.sprite_key(found@[a] as int) < self.sprite_key(found@[b] as int),
                forall|k: int| 0 <= k < found@.len() ==> self.sprite_key(#[trigger] found@[k] as int) <= last,
                forall|i: int|
                    #![trigger self.on_line(i, height as int)]
                    self.on_line(i, height as int) && self.sprite_key(i) <= last ==> found@.contains(i as usize),
                -1 <= last < 64 * 256,
            ensures
                found@.len() <= 10,
                forall|k: int| 0 <= k < found@.len() ==> found@[k] < 40,
                forall|k: int| 0 <= k < found@.len() ==> self.on_line(#[trigger] found@[k] as int, height as int),
                forall|a: int, b: int|
                    0 <= a < b < found@.len() ==> self.sprite_key(found@[a] as int) < self.sprite_key(found@[b] as int),
                forall|k: int| 0 <= k < found@.len() ==> self.sprite_key(#[trigger] found@[k] as int) <= last,
                forall|i: int|
                    #![trigger self.on_line(i, height as int)]
                    self.on_line(i, height as int) && self.sprite_key(i) <= last ==> found@.contains(i as usize),
                found@.len() == 10 || forall|i: int|
                    #![trigger self.on_line(i, height as int)]
                    self.on_line(i, height as int) ==> self.sprite_key(i) <= last,
            decreases 10 - found@.len(),
        {
            let mut best: usize = 40;
            let mut best_key: i64 = 0;
            let mut i: usize = 0;
            while i < 40
                invariant
                    self.wf(),
                    height == 8 || height == 16,
                    line == self.line,
                    i <= 40,
                    -1 <= last < 64 * 256,
                    best == 40 ==> forall|j: int|
                        0 <= j < i ==> !(self.on_line(j, height as int) && self.sprite_key(j) > last),
                    best < 40 ==> best < i && self.on_line(best as int, height as int) && best_key == self.sprite_key(
                        best as int,
                    ) && best_key > last,
                    best < 40 ==> forall|j: int|
                        0 <= j < i && self.on_line(j, height as int) && self.sprite_key(j) > last ==> self.sprite_key(j)
                            >= best_key,
                    best <= 40,
                decreases 40 - i,
            {
                let s = self.sprite(i);
                let top = s.y_pos();
                let key = self.sprite_key_exec(i) as i64;
                if top <= line && line < top + height && key > last && (best == 40 || key < best_key) {
                    best = i;
                    best_key = key;
                }
                i = i + 1;
            }
            if best == 40 {
                proof {
                    assert forall|j: int|
                        #![trigger self.on_line(j, height as int)]
                        self.on_line(j, height as int) implies self.sprite_key(j) <= last by {
                        assert(0 <= j < 40);
                    }
                }
                break;
            }
            let ghost before = found@;
            found.push(best);
            proof {
                assert forall|j: int|
                    #![trigger self.on_line(j, height as int)]
                    self.on_line(j, height as int) && self.sprite_key(j) <= best_key implies found@.contains(j as usize) by {
                    if self.sprite_key(j) <= last {
                        let k = choose|k: int| 0 <= k < before.len() && before[k] == j as usize;
                        assert(found@[k] == j as usize);
                    } else {
                        assert(self.sprite_key(j) == best_key);
                        assert(j == best as int);
                        assert(found@[before.len() as int] == best);
                    }
                }
            }
            last = best_key;
        }
        proof {
            assert forall|i: int|
                #![trigger self.on_line(i, height as int)]
                self.on_line(i, height as int) && !found@.contains(i as usize) implies found@.len() == 10 && forall|k: int|
                    0 <= k < 10 ==> self.sprite_key(#[trigger] found@[k] as int) < self.sprite_key(i) by {
                if self.sprite_key(i) <= last {
                } else {
                    assert forall|k: int| 0 <= k < 10 implies self.sprite_key(#[trigger] found@[k] as int) < self.sprite_key(i) by {
                        assert(self.sprite_key(found@[k] as int) <= last);
                    }
                }
            }
        }
        found
    }

    /// Computes the sprite pixels of the current line: sprites are drawn
    /// from the highest X down, so the lowest X wins where they overlap.
    pub fn draw_sprites(&self, buffer: &mut Vec<Option<SpritePixel>>)
        requires
            self.wf(),
            old(buffer)@.len() == SCREEN_WIDTH,
        ensures
            final(buffer)@.len() == SCREEN_WIDTH,
            (self.lcdc / 2) % 2 == 0 ==> final(buffer)@ == old(buffer)@,
            (self.lcdc / 2) % 2 == 1 ==> exists|sel: Seq<usize>|
                #[trigger] self.selection(sel, self.sprite_height()) && forall|x: int|
                    0 <= x < SCREEN_WIDTH ==> final(buffer)@[x] == self.first_cover(
                        sel,
                        x,
                        self.sprite_height(),
                        old(buffer)@[x],
                    ),
    {
        if (self.lcdc / 2) % 2 == 0 {
            return;
        }
        let height: i32 = if (self.lcdc / 4) % 2 == 0 { 8 } else { 16 };
        let line: i32 = self.line as i32;
        let chosen = self.select_sprites(height);
        let ghost h = height as int;
        let ghost start = buffer@;
        let mut n: usize = chosen.len();
        proof {
            assert forall|x: int| 0 <= x < SCREEN_WIDTH implies buffer@[x] == self.first_cover(
                chosen@.subrange(n as int, chosen@.len() as int),
                x,
                h,
                start[x],
            ) by {}
        }
        while n > 0
            invariant
                self.wf(),
                n <= chosen@.len(),
                self.selection(chosen@, h),
                forall|k: int| 0 <= k < chosen@.len() ==> chosen@[k] < 40,
                buffer@.len() == SCREEN_WIDTH,
                h == height,
                height == 8 || height == 16,
                line == self.line,
                start.len() == SCREEN_WIDTH,
                forall|x: int|
                    0 <= x < SCREEN_WIDTH ==> buffer@[x] == self.first_cover(
                        chosen@.subrange(n as int, chosen@.len() as int),
                        x,
                        h,
                        start[x],
                    ),
            decreases n,
        {
            n = n - 1;
            let idx = chosen[n];
            assert(self.on_line(idx as int, h));
            let s = self.sprite(idx);
            let top = s.y_pos();
            let y: i32 = line - top;
            let y_flip = (s.attributes / 64) % 2 == 1;
            let x_flip = (s.attributes / 32) % 2 == 1;
            let row: i32 = if y_flip { height - 1 - y } else { y };
            let tile: usize = if height == 16 {
                (s.tile_number / 2) as usize * 2 + (row / 8) as usize
            } else {
                s.tile_number as usize
            };
            let addr: usize = tile * 16 + (row % 8) as usize * 2;
            let low = self.vram[addr];
            let high = self.vram[addr + 1];
            let pixel_template = SpritePixel { value: 0, obp1: (s.attributes / 16) % 2 == 1, above_bg: s.attributes < 128 };
            let left = s.x_pos();
            let ghost prior = buffer@;
            let mut px: i32 = 0;
            while px < 8
                invariant
                    self.wf(),
                    0 <= px <= 8,
                    buffer@.len() == SCREEN_WIDTH,
                    prior.len() == SCREEN_WIDTH,
                    left == self.oam@[4 * idx + 1] - 8,
                    idx < 40,
                    h == height,
                    height == 8 || height == 16,
                    line == self.line,
                    y == self.line - (self.oam@[4 * idx] - 16),
                    0 <= y < height,
                    row == (if (self.oam@[4 * idx + 3] / 64) % 2 == 1 { height - 1 - y } else { y as int }),
                    addr == (if height == 16 { (self.oam@[4 * idx + 2] / 2) * 2 + row / 8 } else {
                        self.oam@[4 * idx + 2] as int
                    }) * 16 + (row % 8) * 2,
                    addr + 1 < VRAM_BANK_SIZE,
                    low == self.vram@[addr as int],
                    high == self.vram@[addr + 1],
                    x_flip == ((self.oam@[4 * idx + 3] / 32) % 2 == 1),
                    pixel_template.obp1 == ((self.oam@[4 * idx + 3] / 16) % 2 == 1),
                    pixel_template.above_bg == (self.oam@[4 * idx + 3] < 128),
                    forall|x: int|
                        0 <= x < SCREEN_WIDTH ==> buffer@[x] == (if self.covers_column(idx as int, x) && x - left < px {
                            Some(self.sprite_pixel(idx as int, x, h))
                        } else {
                            prior[x]
                        }),
                decreases 8 - px,
            {
                let sx = left + px;
                let ghost was = buffer@;
                assert(forall|x: int|
                    0 <= x < SCREEN_WIDTH ==> was[x] == (if self.covers_column(idx as int, x) && x - left < px {
                        Some(self.sprite_pixel(idx as int, x, h))
                    } else {
                        prior[x]
                    }));
                if 0 <= sx && sx < 160 {
                    let k: u8 = if x_flip { px as u8 } else { (7 - px) as u8 };
                    let v = get_bit(high, k) * 2 + get_bit(low, k);
                    assert(Some(SpritePixel { value: v, ..pixel_template }) == Some(self.sprite_pixel(idx as int, sx as int, h)));
                    buffer.set(sx as usize, Some(SpritePixel { value: v, ..pixel_template }));
                }
                proof {
                    assert forall|x: int| 0 <= x < SCREEN_WIDTH implies buffer@[x] == (if self.covers_column(idx as int, x)
                        && x - left < px + 1 {
                        Some(self.sprite_pixel(idx as int, x, h))
                    } else {
                        prior[x]
                    }) by {
                        assert(was[x] == (if self.covers_column(idx as int, x) && x - left < px {
                            Some(self.sprite_pixel(idx as int, x, h))
                        } else {
                            prior[x]
                        }));
                        if x != sx {
                            assert(buffer@[x] == was[x]);
                        } else {
                            assert(self.covers_column(idx as int, x));
                            assert(buffer@[x] == Some(self.sprite_pixel(idx as int, x, h)));
                        }
                    }
                }
                px = px + 1;
            }
            proof {
                let tail = chosen@.subrange(n as int, chosen@.len() as int);
                assert(tail.drop_first() =~= chosen@.subrange(n + 1, chosen@.len() as int));
                assert(tail[0] == idx);
            }
        }
        proof {
            assert(chosen@.subrange(0, chosen@.len() as int) =~= chosen@);
            assert(h == self.sprite_height());
            assert(self.selection(chosen@, self.sprite_height()));
        }
    }

    /// The shade number of a composed pixel: the sprite's, through its
    /// palette, when it is opaque and above the background or over
    /// background colour 0; else the background's through BGP.
    pub open spec fn composed_shade(&self, bg: int, sprite: Option<SpritePixel>) -> int {
        match sprite {
            Some(p) => if p.value != 0 && p.value < 4 && (p.above_bg || bg == 0) {
                palette_shade(if p.obp1 { self.obp1 } else { self.obp0 }, p.value as int)
            } else {
                palette_shade(self.bgp, bg)
            },
            None => palette_shade(self.bgp, bg),
        }
    }

    /// Renders the current line into the back framebuffer; nothing else changes.
    pub fn draw_scanline(&mut self)
        requires
            old(self).wf(),
            old(self).line < VBLANK_LINE,
        ensures
            final(self).wf(),
            *final(self) == (DmgPpu { framebuffer: final(self).framebuffer, ..*old(self) }),
            final(self).framebuffer.front() == old(self).framebuffer.front(),
            final(self).framebuffer.front_buffer_index == old(self).framebuffer.front_buffer_index,
            exists|spr: Seq<Option<SpritePixel>>|
                #[trigger] old(self).line_sprites(spr) && forall|x: int|
                    0 <= x < SCREEN_WIDTH ==> final(self).framebuffer.buffer@[final(self).framebuffer.back_buffer_index
                        * FRAME_PIXELS + old(self).line * SCREEN_WIDTH + x] == old(self).shades@[old(self).composed_shade(
                        old(self).bg_index(x),
                        spr[x],
                    )],
    {
        let mut background: Vec<u8> = vec![0u8; SCREEN_WIDTH];
        let mut sprites: Vec<Option<SpritePixel>> = vec![None; SCREEN_WIDTH];
        self.draw_bg(&mut background);
        let ghost empty = sprites@;
        self.draw_sprites(&mut sprites);
        proof {
            assert(forall|x: int| 0 <= x < SCREEN_WIDTH ==> empty[x] is None);
            assert(self.line_sprites(sprites@));
        }
        let base: usize = self.line as usize * SCREEN_WIDTH;
        let ghost before = self.framebuffer.buffer@;
        let ghost front_start = self.framebuffer.front_buffer_index * FRAME_PIXELS;
        let mut x: usize = 0;
        while x < SCREEN_WIDTH
            invariant
                self.wf(),
                self.line < VBLANK_LINE,
                background@.len() == SCREEN_WIDTH,
                forall|i: int| 0 <= i < SCREEN_WIDTH ==> background@[i] < 4,
                sprites@.len() == SCREEN_WIDTH,
                base == self.line * SCREEN_WIDTH,
                *self == (DmgPpu { framebuffer: self.framebuffer, ..*old(self) }),
                self.framebuffer.front_buffer_index == old(self).framebuffer.front_buffer_index,
                front_start == self.framebuffer.front_buffer_index * FRAME_PIXELS,
                before == old(self).framebuffer.buffer@,
                forall|i: int| front_start <= i < front_start + FRAME_PIXELS ==> self.framebuffer.buffer@[i] == before[i],
                forall|i: int| 0 <= i < SCREEN_WIDTH ==> background@[i] == old(self).bg_index(i),
                forall|i: int|
                    0 <= i < x ==> self.framebuffer.buffer@[self.framebuffer.back_buffer_index * FRAME_PIXELS + base + i]
                        == old(self).shades@[old(self).composed_shade(old(self).bg_index(i), sprites@[i])],
            decreases SCREEN_WIDTH - x,
        {
            let bg = background[x];
            let mut shade = apply_palette(self.bgp, bg);
            match sprites[x] {
                Some(p) => {
                    if p.value != 0 && p.value < 4 && (p.above_bg || bg == 0) {
                        let pal = if p.obp1 { self.obp1 } else { self.obp0 };
                        shade = apply_palette(pal, p.value);
                    }
                },
                None => {},
            }
            let color = self.shades[shade as usize];
            assert(self.framebuffer.size() == FRAME_PIXELS);
            assert(self.framebuffer.back_buffer_index * FRAME_PIXELS + base + x < front_start
                || self.framebuffer.back_buffer_index * FRAME_PIXELS + base + x >= front_start + FRAME_PIXELS);
            self.framebuffer.set_pixel(base + x, color);
            x = x + 1;
        }
        assert(self.framebuffer.front() =~= old(self).framebuffer.front());
        assert(old(self).line_sprites(sprites@));
    }

    /// Whether `next`, with the requests `line1`, is this PPU one T-cycle
    /// later, given the requests `line0` raised before the cycle.
    pub open spec fn ticked(&self, next: DmgPpu, line0: InterruptLine, line1: InterruptLine) -> bool {
        let moved = DmgPpu { line: ppu_core_next(self.machine()).1, clock: ppu_core_next(self.machine()).2, ..*self };
        &&& next.wf()
        &&& line1.wf()
        &&& line1.requested == line0.requested | ppu_core_requests(self.machine())
        &&& next.machine() == ppu_core_next(self.machine())
        &&& next == (DmgPpu {
            line: next.line,
            clock: next.clock,
            frame_counter: next.frame_counter,
            framebuffer: next.framebuffer,
            ..*self
        })
        &&& !lcd_on(self.lcdc) ==> next == *self
        &&& lcd_on(self.lcdc) ==> {
            &&& next.position() == (self.position() + 1) % (FRAME_CYCLES as int)
            &&& next.frame_counter == (if next.position() == VBLANK_START {
                (self.frame_counter + 1) % 0x1_0000_0000_0000_0000
            } else {
                self.frame_counter as int
            })
        }
        &&& ppu_core_vblank(self.machine()) ==> next.framebuffer.front_buffer_index == self.framebuffer.back_buffer_index
            && next.framebuffer.front() == self.framebuffer.back()
        &&& lcd_on(self.lcdc) && moved.line < VBLANK_LINE && moved.clock == TRANSFER_END ==> {
            &&& next.framebuffer.front_buffer_index == self.framebuffer.front_buffer_index
            &&& next.framebuffer.front() == self.framebuffer.front()
            &&& exists|spr: Seq<Option<SpritePixel>>|
                #[trigger] moved.line_sprites(spr) && forall|x: int|
                    0 <= x < SCREEN_WIDTH ==> next.framebuffer.buffer@[next.framebuffer.back_buffer_index * FRAME_PIXELS
                        + moved.line * SCREEN_WIDTH + x] == moved.shades@[moved.composed_shade(moved.bg_index(x), spr[x])]
        }
        &&& !ppu_core_vblank(self.machine()) && !(lcd_on(self.lcdc) && moved.line < VBLANK_LINE && moved.clock
            == TRANSFER_END) ==> next.framebuffer == self.framebuffer
    }

    /// One T-cycle of the scanline state machine, while the display is on.
    /// The position in the frame advances by one modulo 70224. Entering
    /// OAM search on a visible line requests LCDStat if its enable is set;
    /// leaving pixel transfer renders the line and requests LCDStat if the
    /// HBlank enable is set; entering line 144 requests VBlank (and LCDStat
    /// if its enable is set), swaps the framebuffers and counts a frame.
    /// Whenever LY equals LYC and its enable is set, LCDStat is requested.
    pub fn emulate_hardware(&mut self, interrupt_line: &mut InterruptLine)
        requires
            old(self).wf(),
            old(interrupt_line).wf(),
        ensures
            old(self).ticked(*final(self), *old(interrupt_line), *final(interrupt_line)),
    {
        if self.lcdc < 128 {
            let ghost v = interrupt_line.requested;
            assert(v | 0u8 == v) by (bit_vector);
            return;
        }
        let ghost ol: int = self.line as int;
        let ghost oc: int = self.clock as int;
        let ghost op: int = ol * 456 + oc;
        assert(op < 70224) by (nonlinear_arith)
            requires
                ol < 154,
                oc < 456,
                op == ol * 456 + oc,
        ;
        self.clock = self.clock + 1;
        if self.clock == LINE_CYCLES {
            self.clock = 0;
            if self.line + 1 == FRAME_LINES {
                self.line = 0;
            } else {
                self.line = self.line + 1;
            }
        }
        let ghost nl: int = self.line as int;
        let ghost nc: int = self.clock as int;
        let ghost np: int = nl * 456 + nc;
        proof {
            if oc + 1 < 456 {
                assert(np == op + 1);
                vstd::arithmetic::div_mod::lemma_small_mod((op + 1) as nat, 70224);
            } else if ol + 1 == 154 {
                assert(op + 1 == 70224);
                assert(np == 0);
            } else {
                assert(np == op + 1);
                vstd::arithmetic::div_mod::lemma_small_mod((op + 1) as nat, 70224);
            }
            if nl < 144 {
                assert(np < 65664);
            } else if nl > 144 {
                assert(np > 65664);
            }
        }
        let mut vblank = false;
        let mut stat = false;
        if self.line < VBLANK_LINE {
            if self.clock == 0 {
                stat = self.oam_interrupt_enable;
            } else if self.clock == TRANSFER_END {
                stat = self.hblank_interrupt_enable;
                self.draw_scanline();
            }
        } else if self.line == VBLANK_LINE && self.clock == 0 {
            vblank = true;
            stat = self.vblank_interrupt_enable;
            self.framebuffer.swap_buffers();
            self.frame_counter = self.frame_counter.wrapping_add(1);
        }
        if self.ly_value() == self.lyc && self.lyc_interrupt_enable {
            stat = true;
        }
        let req: u8 = (if vblank { 1 } else { 0 }) + (if stat { 2 } else { 0 });
        interrupt_line.request_mask(req);
    }

    /// A tile's colour indices, row by row, from its number counted from 0x8000.
    pub fn get_tile_raw(&self, tile_number: usize) -> (r: Vec<u8>)
        requires
            self.wf(),
            tile_number < 384,
        ensures
            r@.len() == 64,
            forall|i: int|
                0 <= i < 64 ==> r@[i] == tile_pixel(
                    self.vram@[tile_number * 16 + (i / 8) * 2],
                    self.vram@[tile_number * 16 + (i / 8) * 2 + 1],
                    i % 8,
                ),
    {
        let mut data: Vec<u8> = Vec::new();
        let base: usize = tile_number * 16;
        let mut i: usize = 0;
        while i < 64
            invariant
                self.wf(),
                tile_number < 384,
                base == tile_number * 16,
                data@.len() == i,
                i <= 64,
                forall|j: int|
                    0 <= j < i ==> data@[j] == tile_pixel(
                        self.vram@[tile_number * 16 + (j / 8) * 2],
                        self.vram@[tile_number * 16 + (j / 8) * 2 + 1],
                        j % 8,
                    ),
            decreases 64 - i,
        {
            let low = self.vram[base + (i / 8) * 2];
            let high = self.vram[base + (i / 8) * 2 + 1];
            let k: u8 = (7 - i % 8) as u8;
            data.push(get_bit(high, k) * 2 + get_bit(low, k));
            i = i + 1;
        }
        data
    }

    /// The colour index of pixel `i` (row by row) of a tile counted from 0x8000.
    pub open spec fn raw_pixel(&self, tile_number: int, i: int) -> int {
        tile_pixel(
            self.vram@[tile_number * 16 + (i / 8) * 2],
            self.vram@[tile_number * 16 + (i / 8) * 2 + 1],
            i % 8,
        )
    }

    /// A tile through a palette, as 64 RGBA pixels.
    pub fn get_tile(&self, tile_number: usize, palette: u8) -> (r: Vec<u32>)
        requires
            self.wf(),
            tile_number < 384,
        ensures
            r@.len() == 64,
            forall|i: int|
                0 <= i < 64 ==> r@[i] == self.shades@[palette_shade(palette, self.raw_pixel(tile_number as int, i))],
    {
        let raw = self.get_tile_raw(tile_number);
        let mut data: Vec<u32> = Vec::new();
        let mut i: usize = 0;
        while i < 64
            invariant
                self.wf(),
                tile_number < 384,
                raw@.len() == 64,
                forall|j: int| 0 <= j < 64 ==> raw@[j] == self.raw_pixel(tile_number as int, j),
                forall|j: int| 0 <= j < 64 ==> raw@[j] < 4,
                data@.len() == i,
                i <= 64,
                forall|j: int|
                    0 <= j < i ==> data@[j] == self.shades@[palette_shade(palette, self.raw_pixel(tile_number as int, j))],
            decreases 64 - i,
        {
            let shade = apply_palette(palette, raw[i]);
            data.push(self.shades[shade as usize]);
            i = i + 1;
        }
        data
    }

    /// Pixel `p` of the tile sheet: 16 tiles a row, 24 rows, each pixel in
    /// the raw shade of its colour index.
    pub open spec fn tile_sheet_pixel(&self, p: int) -> u32 {
        let tile = (p / 1024) * 16 + (p % 128) / 8;
        let i = ((p / 128) % 8) * 8 + p % 8;
        self.shades@[self.raw_pixel(tile, i)]
    }

    /// The colour index of one pixel of a tile counted from 0x8000.
    fn tile_pixel_at(&self, tile: usize, row: usize, col: usize) -> (r: u8)
        requires
            self.wf(),
            tile < 384,
            row < 8,
            col < 8,
        ensures
            r == self.raw_pixel(tile as int, (row * 8 + col) as int),
            r < 4,
    {
        let low = self.vram[tile * 16 + row * 2];
        let high = self.vram[tile * 16 + row * 2 + 1];
        let k: u8 = (7 - col) as u8;
        get_bit(high, k) * 2 + get_bit(low, k)
    }

    /// All 384 tiles in a 16 x 24 grid, in the raw shades.
    pub fn dump_tiles(&self) -> (r: Bitmap)
        requires
            self.wf(),
        ensures
            r.width == 128 && r.height == 192,
            r.data@.len() == 128 * 192,
            forall|p: int| 0 <= p < 128 * 192 ==> r.data@[p] == self.tile_sheet_pixel(p),
    {
        let mut data: Vec<u32> = Vec::new();
        let mut p: usize = 0;
        while p < 128 * 192
            invariant
                self.wf(),
                data@.len() == p,
                p <= 128 * 192,
                forall|q: int| 0 <= q < p ==> data@[q] == self.tile_sheet_pixel(q),
            decreases 128 * 192 - p,
        {
            let tile = (p / 1024) * 16 + (p % 128) / 8;
            let row = (p / 128) % 8;
            let col = p % 8;
            let v = self.tile_pixel_at(tile, row, col);
            data.push(self.shades[v as usize]);
            p = p + 1;
        }
        Bitmap { width: 128, height: 192, data }
    }

    /// Pixel `p` of the background map dump: the 32 x 32 tile map that LCDC
    /// selects, 256 x 256 pixels, each through BGP.
    pub open spec fn bg_map_pixel(&self, p: int) -> u32 {
        let row = p / 256;
        let col = p % 256;
        let map: int = if (self.lcdc / 8) % 2 == 0 { 0x1800 } else { 0x1C00 };
        let sel = if (self.lcdc / 16) % 2 == 0 { TileDataAddress::TileData8800h } else { TileDataAddress::TileData8000h };
        let number = self.vram@[map + (row / 8) * 32 + col / 8];
        let tile = (tile_address(sel, number) - 0x8000) / 16;
        self.shades@[palette_shade(self.bgp, self.raw_pixel(tile, (row % 8) * 8 + col % 8))]
    }

    /// The 32 x 32 background tile map that LCDC selects, through BGP.
    pub fn dump_bg(&self) -> (r: Bitmap)
        requires
            self.wf(),
        ensures
            r.width == 256 && r.height == 256,
            r.data@.len() == 256 * 256,
            forall|p: int| 0 <= p < 256 * 256 ==> r.data@[p] == self.bg_map_pixel(p),
    {
        let mut data: Vec<u32> = Vec::new();
        let map: usize = if (self.lcdc / 8) % 2 == 0 { 0x1800 } else { 0x1C00 };
        let sel = TileDataAddress::from_lcdc(self.lcdc);
        let mut p: usize = 0;
        while p < 256 * 256
            invariant
                self.wf(),
                data@.len() == p,
                p <= 256 * 256,
                map == (if (self.lcdc / 8) % 2 == 0 { 0x1800int } else { 0x1C00 }),
                sel == (if (self.lcdc / 16) % 2 == 0 { TileDataAddress::TileData8800h } else { TileDataAddress::TileData8000h }),
                forall|q: int| 0 <= q < p ==> data@[q] == self.bg_map_pixel(q),
            decreases 256 * 256 - p,
        {
            let row = p / 256;
            let col = p % 256;
            let number = self.vram[map + (row / 8) * 32 + col / 8];
            let tile = ((sel.get_tile_address(number) - 0x8000) / 16) as usize;
            let v = self.tile_pixel_at(tile, row % 8, col % 8);
            let shade = apply_palette(self.bgp, v);
            data.push(self.shades[shade as usize]);
            p = p + 1;
        }
        Bitmap { width: 256, height: 256, data }
    }
}

/// The position in the frame `j` T-cycles after position `start`.
pub open spec fn position_after(start: int, j: int) -> int {
    (start + j) % (FRAME_CYCLES as int)
}

/// From any position with the display on, one frame passes between two
/// increments of the frame counter: `emulate_hardware` moves the position on
/// by one modulo 70224 and counts a frame exactly when it reaches the start
/// of VBlank, so if a tick lands there and the next to do so is the `k`-th
/// after it, `k` is 70224.
pub proof fn lemma_frame_length(start: int, k: int)
    requires
        start == VBLANK_START,
        k > 0,
        position_after(start, k) == VBLANK_START,
        forall|j: int| 0 < j < k ==> #[trigger] position_after(start, j) != VBLANK_START,
    ensures
        k == FRAME_CYCLES,
{
    if k < FRAME_CYCLES {
        assert((start + k) % 70224 != 65664) by (nonlinear_arith)
            requires
                start == 65664,
                0 < k < 70224,
        ;
    } else if k > FRAME_CYCLES {
        assert(position_after(start, 70224) == VBLANK_START) by (nonlinear_arith)
            requires
                start == 65664,
        ;
    }
}

} // verus!
