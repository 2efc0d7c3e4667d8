//! Saved states: the engine's state as bytes, behind a `SaveStateHeader`.
//! The ROM is not saved (the cartridge it belongs to supplies it on load),
//! nor the framebuffers, the breakpoints or the serial peer's queues.
use vstd::prelude::*;
use crate::cartridge::MBC;
use crate::cpu::{CPU, HRAM_SIZE};
use crate::framebuffer::FrameBuffer;
use crate::gameboy::{Gameboy, IO_SIZE, WRAM_SIZE};
use crate::interrupts::{InterruptEnable, InterruptFlag};
use crate::joypad::Joypad;
use crate::mbc::{MBC1, MBC3, ModeSelect, NoMBC};
use crate::mode::Mode;
use crate::oam_dma::OamDmaState;
use crate::ppu::{DmgPpu, OAM_SIZE, VRAM_BANK_SIZE, DEFAULT_SHADES};
use crate::registers::Registers;
use crate::rtc::{Duration, RTC};
use crate::savestate::{SaveStateHeader, SaveStateHeaderDeserializationError, SAVE_STATE_HEADER_SERIALIZED_LENGTH};
use crate::serial::Serial;
use crate::timer::{Timer, TIMER_STATE_BUFFER_LENGTH};

verus! {

/// The version written into saved states.
pub const SAVE_STATE_VERSION: u8 = 1;

/// Bytes of each section, in the order they are written.
pub const CPU_STATE_LENGTH: u32 = 154;
pub const PPU_STATE_LENGTH: u32 = 8378;
pub const SERIAL_STATE_LENGTH: u32 = 8;
pub const JOYPAD_STATE_LENGTH: u32 = 10;
pub const OAM_DMA_STATE_LENGTH: u32 = 7;

pub const CPU_OFFSET: u32 = 38;
pub const TIMER_OFFSET: u32 = 192;
pub const PPU_OFFSET: u32 = 200;
pub const SERIAL_OFFSET: u32 = 8578;
pub const JOYPAD_OFFSET: u32 = 8586;
pub const IO_OFFSET: u32 = 8596;
pub const WRAM_OFFSET: u32 = 8724;
pub const OAM_DMA_OFFSET: u32 = 41492;
pub const CART_OFFSET: u32 = 41499;

/// Why a saved state cannot be loaded.
#[derive(Clone, Copy, Debug, PartialEq, Eq, Structural)]
pub enum LoadStateError {
    /// The header is missing or malformed.
    Header(SaveStateHeaderDeserializationError),
    /// The header names another version, model or layout.
    Incompatible,
    /// The bytes end early.
    Truncated,
    /// A value is out of its range, or the state is of another kind of cartridge.
    Invalid,
}

/// The header that a saved state of a model starts with.
pub open spec fn header_for(mode: Mode) -> SaveStateHeader {
    SaveStateHeader {
        version: SAVE_STATE_VERSION,
        mode,
        cpu_state_offset: CPU_OFFSET,
        timer_state_offset: TIMER_OFFSET,
        ppu_state_offset: PPU_OFFSET,
        serial_state_offset: SERIAL_OFFSET,
        joypad_state_offset: JOYPAD_OFFSET,
        cart_state_offset: CART_OFFSET,
        io_offset: IO_OFFSET,
        wram_offset: WRAM_OFFSET,
        oam_dma_state_offset: OAM_DMA_OFFSET,
    }
}

/// The registers that a CPU section starting at `p` holds: A, F, B, C, D, E,
/// H, L, then SP and PC big-endian.
pub open spec fn saved_registers(b: Seq<u8>, p: int) -> Registers {
    Registers {
        a: b[p],
        f: b[p + 1],
        b: b[p + 2],
        c: b[p + 3],
        d: b[p + 4],
        e: b[p + 5],
        h: b[p + 6],
        l: b[p + 7],
        sp: (b[p + 8] * 256 + b[p + 9]) as u16,
        pc: (b[p + 10] * 256 + b[p + 11]) as u16,
    }
}

fn put_bool(buf: &mut Vec<u8>, b: bool)
    ensures
        final(buf)@ == old(buf)@.push(if b { 1u8 } else { 0u8 }),
{
    buf.push(if b { 1 } else { 0 });
}

fn put_u16(buf: &mut Vec<u8>, v: u16)
    ensures
        final(buf)@ == old(buf)@ + seq![(v / 256) as u8, (v % 256) as u8],
{
    buf.push((v / 256) as u8);
    buf.push((v % 256) as u8);
    assert(buf@ =~= old(buf)@ + seq![(v / 256) as u8, (v % 256) as u8]);
}

fn put_u32(buf: &mut Vec<u8>, v: u32)
    ensures
        final(buf)@.len() == old(buf)@.len() + 4,
        final(buf)@.subrange(0, old(buf)@.len() as int) == old(buf)@,
{
    put_u16(buf, (v / 65536) as u16);
    put_u16(buf, (v % 65536) as u16);
    assert(buf@.subrange(0, old(buf)@.len() as int) =~= old(buf)@);
}

fn put_u64(buf: &mut Vec<u8>, v: u64)
    ensures
        final(buf)@.len() == old(buf)@.len() + 8,
        final(buf)@.subrange(0, old(buf)@.len() as int) == old(buf)@,
{
    put_u32(buf, (v / 0x1_0000_0000) as u32);
    put_u32(buf, (v % 0x1_0000_0000) as u32);
    assert(buf@.subrange(0, old(buf)@.len() as int) =~= old(buf)@);
}

fn put_bytes(buf: &mut Vec<u8>, data: &Vec<u8>)
    ensures
        final(buf)@ == old(buf)@ + data@,
{
    let mut i: usize = 0;
    while i < data.len()
        invariant
            i <= data@.len(),
            buf@ == old(buf)@ + data@.subrange(0, i as int),
        decreases data@.len() - i,
    {
        buf.push(data[i]);
        i = i + 1;
        assert(buf@ =~= old(buf)@ + data@.subrange(0, i as int));
    }
    assert(data@.subrange(0, i as int) =~= data@);
}

/// Reads a byte at `*pos` and moves past it; `None` at the end.
fn get_u8(buf: &[u8], pos: &mut usize) -> (r: Option<u8>)
    ensures
        r matches Some(v) ==> *old(pos) < buf@.len() && v == buf@[*old(pos) as int] && *final(pos) == *old(pos) + 1,
        r is None ==> *final(pos) == *old(pos),
{
    if *pos < buf.len() {
        let v = buf[*pos];
        *pos = *pos + 1;
        Some(v)
    } else {
        None
    }
}

fn get_bool(buf: &[u8], pos: &mut usize) -> (r: Option<bool>)
    ensures
        r is Some ==> *final(pos) == *old(pos) + 1,
{
    match get_u8(buf, pos) {
        Some(0) => Some(false),
        Some(1) => Some(true),
        _ => None,
    }
}

fn get_u16(buf: &[u8], pos: &mut usize) -> (r: Option<u16>)
    ensures
        r is Some ==> *final(pos) == *old(pos) + 2,
        r matches Some(v) ==> v == buf@[*old(pos) as int] * 256 + buf@[*old(pos) + 1],
{
    let high = get_u8(buf, pos)?;
    let low = get_u8(buf, pos)?;
    Some(high as u16 * 256 + low as u16)
}

fn get_u32(buf: &[u8], pos: &mut usize) -> (r: Option<u32>)
    ensures
        r is Some ==> *final(pos) == *old(pos) + 4,
{
    let high = get_u16(buf, pos)?;
    let low = get_u16(buf, pos)?;
    Some(high as u32 * 65536 + low as u32)
}

fn get_u64(buf: &[u8], pos: &mut usize) -> (r: Option<u64>)
    ensures
        r is Some ==> *final(pos) == *old(pos) + 8,
{
    let high = get_u32(buf, pos)?;
    let low = get_u32(buf, pos)?;
    Some(high as u64 * 0x1_0000_0000 + low as u64)
}

/// Reads `n` bytes.
fn get_bytes(buf: &[u8], pos: &mut usize, n: usize) -> (r: Option<Vec<u8>>)
    ensures
        r matches Some(v) ==> v@.len() == n && *final(pos) == *old(pos) + n && v@ == buf@.subrange(
            *old(pos) as int,
            *old(pos) + n,
        ),
{
    if *pos > buf.len() {
        return None;
    }
    let mut out: Vec<u8> = Vec::new();
    let mut i: usize = 0;
    let ghost start = *pos;
    while i < n
        invariant
            i <= n,
            out@.len() == i,
            *pos == start + i,
            start + i <= buf@.len(),
            out@ == buf@.subrange(start as int, start + i),
        decreases n - i,
    {
        let b = get_u8(buf, pos)?;
        out.push(b);
        i = i + 1;
        assert(out@ =~= buf@.subrange(start as int, start + i));
    }
    Some(out)
}

fn put_duration(buf: &mut Vec<u8>, d: &Duration)
    requires
        d.wf(),
    ensures
        final(buf)@.len() == old(buf)@.len() + 5,
{
    buf.push(d.seconds as u8);
    buf.push(d.minutes as u8);
    buf.push(d.hours as u8);
    put_u16(buf, d.days as u16);
}

fn get_duration(buf: &[u8], pos: &mut usize) -> (r: Option<Duration>)
    ensures
        r matches Some(d) ==> d.wf() && *final(pos) == *old(pos) + 5,
{
    let seconds = get_u8(buf, pos)?;
    let minutes = get_u8(buf, pos)?;
    let hours = get_u8(buf, pos)?;
    let days = get_u16(buf, pos)?;
    if seconds < 60 && minutes < 60 && hours < 24 && days < 512 {
        Some(Duration { seconds: seconds as u64, minutes: minutes as u64, hours: hours as u64, days: days as u64 })
    } else {
        None
    }
}

impl Gameboy {
    fn save_cpu(&self, buf: &mut Vec<u8>)
        requires
            self.wf(),
        ensures
            final(buf)@.len() == old(buf)@.len() + CPU_STATE_LENGTH,
    {
        let r = self.cpu.registers;
        buf.push(r.a);
        buf.push(r.f);
        buf.push(r.b);
        buf.push(r.c);
        buf.push(r.d);
        buf.push(r.e);
        buf.push(r.h);
        buf.push(r.l);
        put_u16(buf, r.sp);
        put_u16(buf, r.pc);
        put_bool(buf, self.cpu.ime);
        put_bool(buf, self.cpu.next_ime_state);
        put_bool(buf, self.cpu.stop);
        put_bool(buf, self.cpu.halt);
        put_bool(buf, self.cpu.double_speed_mode);
        buf.push(self.cpu.interrupt_flag.value);
        buf.push(self.cpu.interrupt_enable.value);
        put_u64(buf, self.cpu.cycle_counter);
        put_bytes(buf, &self.cpu.hram);
    }

    fn save_ppu(&self, buf: &mut Vec<u8>)
        requires
            self.wf(),
        ensures
            final(buf)@.len() == old(buf)@.len() + PPU_STATE_LENGTH,
    {
        let p = &self.ppu;
        put_bytes(buf, &p.vram);
        put_bytes(buf, &p.oam);
        put_u64(buf, p.frame_counter);
        put_u32(buf, p.clock);
        buf.push(p.lcdc);
        put_bool(buf, p.lyc_interrupt_enable);
        put_bool(buf, p.oam_interrupt_enable);
        put_bool(buf, p.vblank_interrupt_enable);
        put_bool(buf, p.hblank_interrupt_enable);
        buf.push(p.line);
        buf.push(p.scx);
        buf.push(p.scy);
        buf.push(p.lyc);
        buf.push(p.wx);
        buf.push(p.wy);
        buf.push(p.bgp);
        buf.push(p.obp0);
        buf.push(p.obp1);
    }

    fn save_small_sections(&self, buf: &mut Vec<u8>)
        requires
            self.wf(),
        ensures
            final(buf)@.len() == old(buf)@.len() + SERIAL_STATE_LENGTH + JOYPAD_STATE_LENGTH,
    {
        let s = &self.serial;
        buf.push(s.sb);
        buf.push(s.sc);
        put_u32(buf, s.current_bit_cycles);
        buf.push(s.bits_shifted);
        buf.push(s.data_out);
        let mut k: usize = 0;
        while k < 8
            invariant
                k <= 8,
                buf@.len() == old(buf)@.len() + SERIAL_STATE_LENGTH + k,
            decreases 8 - k,
        {
            put_bool(buf, self.joypad.keys[k]);
            k = k + 1;
        }
        put_bool(buf, self.joypad.select_button_keys);
        put_bool(buf, self.joypad.select_direction_keys);
    }

    fn save_cart(&self, buf: &mut Vec<u8>)
        requires
            self.wf(),
        ensures
            final(buf)@.len() >= old(buf)@.len(),
    {
        match &self.cart.mbc {
            MBC::NoMBC(_) => buf.push(0),
            MBC::Mbc1(m) => {
                buf.push(1);
                buf.push(m.ram_bank);
                buf.push(m.rom_bank);
                put_bool(buf, m.mode == ModeSelect::Ram);
                put_bool(buf, m.ram_enable);
            },
            MBC::Mbc3(m) => {
                buf.push(2);
                buf.push(m.rom_bank);
                buf.push(m.ram_bank);
                match m.latch_written {
                    Some(v) => {
                        buf.push(1);
                        buf.push(v);
                    },
                    None => {
                        buf.push(0);
                        buf.push(0);
                    },
                }
                put_bool(buf, m.ram_timer_enable);
                match &m.rtc {
                    Some(c) => {
                        buf.push(1);
                        put_u64(buf, c.last as u64);
                        put_duration(buf, &c.duration);
                        match &c.latched {
                            Some(d) => {
                                buf.push(1);
                                put_duration(buf, d);
                            },
                            None => buf.push(0),
                        }
                        put_bool(buf, c.halt);
                        put_bool(buf, c.day_carry);
                    },
                    None => buf.push(0),
                }
            },
        }
        put_u64(buf, self.cart.ram.len() as u64);
        put_bytes(buf, &self.cart.ram);
    }

    /// The engine's state as bytes: the header of this model, then the CPU,
    /// timer, PPU, serial, joypad, I/O, work RAM, OAM DMA and cartridge
    /// sections at the header's offsets.
    pub fn save_state(&self) -> (r: Vec<u8>)
        requires
            self.wf(),
        ensures
            r@.len() >= CART_OFFSET,
            r@.subrange(0, SAVE_STATE_HEADER_SERIALIZED_LENGTH as int) == header_for(self.mode).serialized(),
            r@.subrange(IO_OFFSET as int, IO_OFFSET + IO_SIZE) == self.io@,
            r@.subrange(WRAM_OFFSET as int, WRAM_OFFSET + WRAM_SIZE) == self.wram@,
    {
        let header = SaveStateHeader {
            version: SAVE_STATE_VERSION,
            mode: self.mode,
            cpu_state_offset: CPU_OFFSET,
            timer_state_offset: TIMER_OFFSET,
            ppu_state_offset: PPU_OFFSET,
            serial_state_offset: SERIAL_OFFSET,
            joypad_state_offset: JOYPAD_OFFSET,
            cart_state_offset: CART_OFFSET,
            io_offset: IO_OFFSET,
            wram_offset: WRAM_OFFSET,
            oam_dma_state_offset: OAM_DMA_OFFSET,
        };
        let mut body: Vec<u8> = Vec::new();
        self.save_cpu(&mut body);
        let timer = self.timer.serialize();
        assert(timer@.len() == TIMER_STATE_BUFFER_LENGTH);
        put_bytes(&mut body, &timer);
        self.save_ppu(&mut body);
        self.save_small_sections(&mut body);
        let ghost before_io = body@;
        put_bytes(&mut body, &self.io);
        put_bytes(&mut body, &self.wram);
        let ghost with_ram = body@;
        assert(with_ram == before_io + self.io@ + self.wram@);
        let mut tail: Vec<u8> = Vec::new();
        let d = &self.oam_dma_state;
        put_bool(&mut tail, d.active);
        put_u16(&mut tail, d.start_address);
        put_u16(&mut tail, d.current_offset);
        put_u16(&mut tail, d.current_cycle);
        self.save_cart(&mut tail);
        put_bytes(&mut body, &tail);
        let mut out = header.serialize();
        let ghost head = out@;
        put_bytes(&mut out, &body);
        assert(out@ == head + (before_io + self.io@ + self.wram@ + tail@));
        assert(head.len() == 38 && before_io.len() == IO_OFFSET - 38);
        assert(out@.subrange(0, SAVE_STATE_HEADER_SERIALIZED_LENGTH as int) =~= header_for(self.mode).serialized());
        assert(out@.subrange(IO_OFFSET as int, IO_OFFSET + IO_SIZE) =~= self.io@);
        assert(out@.subrange(WRAM_OFFSET as int, WRAM_OFFSET + WRAM_SIZE) =~= self.wram@);
        out
    }

    fn load_cpu(buf: &[u8], pos: &mut usize) -> (r: Option<CPU>)
        ensures
            r matches Some(c) ==> c.wf() && *final(pos) == *old(pos) + CPU_STATE_LENGTH
                && c.hram@ == buf@.subrange(*old(pos) + 27, *old(pos) + CPU_STATE_LENGTH)
                && c.registers == saved_registers(buf@, *old(pos) as int),
    {
        let a = get_u8(buf, pos)?;
        let f = get_u8(buf, pos)?;
        let b = get_u8(buf, pos)?;
        let c = get_u8(buf, pos)?;
        let d = get_u8(buf, pos)?;
        let e = get_u8(buf, pos)?;
        let h = get_u8(buf, pos)?;
        let l = get_u8(buf, pos)?;
        let sp = get_u16(buf, pos)?;
        let pc = get_u16(buf, pos)?;
        let ime = get_bool(buf, pos)?;
        let next_ime_state = get_bool(buf, pos)?;
        let stop = get_bool(buf, pos)?;
        let halt = get_bool(buf, pos)?;
        let double_speed_mode = get_bool(buf, pos)?;
        let flag = get_u8(buf, pos)?;
        let enable = get_u8(buf, pos)?;
        let cycle_counter = get_u64(buf, pos)?;
        let hram = get_bytes(buf, pos, HRAM_SIZE)?;
        Some(
            CPU {
                registers: Registers { a, f, b, c, d, e, h, l, sp, pc },
                ime,
                next_ime_state,
                interrupt_flag: InterruptFlag { value: flag % 32 },
                interrupt_enable: InterruptEnable { value: enable % 32 },
                stop,
                halt,
                hram,
                double_speed_mode,
                cycle_counter,
            },
        )
    }

    fn load_ppu(buf: &[u8], pos: &mut usize) -> (r: Option<DmgPpu>)
        ensures
            r matches Some(p) ==> p.wf() && *final(pos) == *old(pos) + PPU_STATE_LENGTH
                && p.vram@ == buf@.subrange(*old(pos) as int, *old(pos) + VRAM_BANK_SIZE)
                && p.oam@ == buf@.subrange(*old(pos) + VRAM_BANK_SIZE, *old(pos) + VRAM_BANK_SIZE + OAM_SIZE)
                && p.lcdc == buf@[*old(pos) + 8364] && p.line == buf@[*old(pos) + 8369]
                && p.scx == buf@[*old(pos) + 8370] && p.scy == buf@[*old(pos) + 8371]
                && p.lyc == buf@[*old(pos) + 8372] && p.bgp == buf@[*old(pos) + 8375],
    {
        let vram = get_bytes(buf, pos, VRAM_BANK_SIZE)?;
        let oam = get_bytes(buf, pos, OAM_SIZE)?;
        let frame_counter = get_u64(buf, pos)?;
        let clock = get_u32(buf, pos)?;
        let lcdc = get_u8(buf, pos)?;
        let lyc_interrupt_enable = get_bool(buf, pos)?;
        let oam_interrupt_enable = get_bool(buf, pos)?;
        let vblank_interrupt_enable = get_bool(buf, pos)?;
        let hblank_interrupt_enable = get_bool(buf, pos)?;
        let line = get_u8(buf, pos)?;
        let scx = get_u8(buf, pos)?;
        let scy = get_u8(buf, pos)?;
        let lyc = get_u8(buf, pos)?;
        let wx = get_u8(buf, pos)?;
        let wy = get_u8(buf, pos)?;
        let bgp = get_u8(buf, pos)?;
        let obp0 = get_u8(buf, pos)?;
        let obp1 = get_u8(buf, pos)?;
        if line >= 154 || clock >= 456 || (lcdc < 128 && (line != 0 || clock != 0)) {
            return None;
        }
        Some(
            DmgPpu {
                vram,
                oam,
                framebuffer: FrameBuffer::new(crate::ppu::SCREEN_WIDTH, crate::ppu::SCREEN_HEIGHT),
                frame_counter,
                shades: DEFAULT_SHADES,
                clock,
                lcdc,
                lyc_interrupt_enable,
                oam_interrupt_enable,
                vblank_interrupt_enable,
                hblank_interrupt_enable,
                line,
                scx,
                scy,
                lyc,
                wx,
                wy,
                bgp,
                obp0,
                obp1,
            },
        )
    }

    fn load_joypad(buf: &[u8], pos: &mut usize) -> (r: Option<Joypad>)
        ensures
            r is Some ==> *final(pos) == *old(pos) + JOYPAD_STATE_LENGTH,
    {
        let mut keys = [false; 8];
        let mut k: usize = 0;
        let ghost start = *pos;
        while k < 8
            invariant
                k <= 8,
                *pos == start + k,
            decreases 8 - k,
        {
            keys[k] = get_bool(buf, pos)?;
            k = k + 1;
        }
        let select_button_keys = get_bool(buf, pos)?;
        let select_direction_keys = get_bool(buf, pos)?;
        Some(Joypad { keys, select_button_keys, select_direction_keys })
    }

    fn load_dma(buf: &[u8], pos: &mut usize) -> (r: Option<OamDmaState>)
        ensures
            r matches Some(d) ==> d.wf(),
    {
        let active = get_bool(buf, pos)?;
        let start_address = get_u16(buf, pos)?;
        let current_offset = get_u16(buf, pos)?;
        let current_cycle = get_u16(buf, pos)?;
        if start_address % 256 != 0 || current_offset > 160 || current_cycle > 648 || (active && current_cycle >= 648) {
            return None;
        }
        Some(OamDmaState { active, start_address, current_offset, current_cycle })
    }

    fn load_rtc(buf: &[u8], pos: &mut usize) -> (r: Option<RTC>)
        ensures
            r matches Some(c) ==> c.wf(),
    {
        let last = get_u64(buf, pos)? as i64;
        let duration = get_duration(buf, pos)?;
        let latched = if get_bool(buf, pos)? {
            Some(get_duration(buf, pos)?)
        } else {
            None
        };
        let halt = get_bool(buf, pos)?;
        let day_carry = get_bool(buf, pos)?;
        Some(RTC { last, duration, latched, halt, day_carry })
    }

    /// The controller state of this cartridge's kind, and the RAM.
    fn load_cart(&self, buf: &[u8], pos: &mut usize) -> (r: Option<(MBC, Vec<u8>)>)
        requires
            self.wf(),
        ensures
            r matches Some((m, ram)) ==> m.wf() && ram@.len() >= self.cart.cart_info.ram_size,
    {
        let tag = get_u8(buf, pos)?;
        let mbc = match &self.cart.mbc {
            MBC::NoMBC(_) => {
                if tag != 0 {
                    return None;
                }
                MBC::NoMBC(NoMBC {  })
            },
            MBC::Mbc1(_) => {
                let ram_bank = get_u8(buf, pos)?;
                let rom_bank = get_u8(buf, pos)?;
                let ram_mode = get_bool(buf, pos)?;
                let ram_enable = get_bool(buf, pos)?;
                if tag != 1 || ram_bank >= 4 || rom_bank >= 32 {
                    return None;
                }
                let mode = if ram_mode {
                    ModeSelect::Ram
                } else {
                    ModeSelect::Rom
                };
                MBC::Mbc1(MBC1 { ram_bank, rom_bank, mode, ram_enable })
            },
            MBC::Mbc3(current) => {
                let rom_bank = get_u8(buf, pos)?;
                let ram_bank = get_u8(buf, pos)?;
                let has_latch = get_bool(buf, pos)?;
                let latch_value = get_u8(buf, pos)?;
                let ram_timer_enable = get_bool(buf, pos)?;
                let has_rtc = get_bool(buf, pos)?;
                let rtc = if has_rtc {
                    Some(Gameboy::load_rtc(buf, pos)?)
                } else {
                    None
                };
                if tag != 2 || rom_bank == 0 || rom_bank >= 128 || !(ram_bank <= 3 || (8 <= ram_bank && ram_bank <= 0xC))
                    || has_rtc != current.rtc.is_some() {
                    return None;
                }
                let latch_written = if has_latch {
                    Some(latch_value)
                } else {
                    None
                };
                MBC::Mbc3(MBC3 { rom_bank, ram_bank, latch_written, rtc, ram_timer_enable })
            },
        };
        let len = get_u64(buf, pos)?;
        if len < self.cart.cart_info.ram_size as u64 || len > buf.len() as u64 {
            return None;
        }
        let ram = get_bytes(buf, pos, len as usize)?;
        Some((mbc, ram))
    }

    /// Restores a state that `save_state` wrote for this cartridge. The ROM,
    /// the breakpoints, the framebuffers' contents aside, and the serial
    /// peer's connection and queues are kept. On an error nothing changes.
    pub fn load_state(&mut self, buf: &[u8]) -> (r: Result<(), LoadStateError>)
        requires
            old(self).wf(),
        ensures
            final(self).wf(),
            r is Err ==> *final(self) == *old(self),
            buf@.len() < SAVE_STATE_HEADER_SERIALIZED_LENGTH ==> r is Err,
            r is Ok ==> {
                &&& final(self).cart.rom == old(self).cart.rom
                &&& final(self).cart.cart_info == old(self).cart.cart_info
                &&& final(self).mode == old(self).mode
                &&& final(self).debugger == old(self).debugger
                &&& final(self).serial.connected == old(self).serial.connected
                &&& final(self).serial.incoming == old(self).serial.incoming
                &&& final(self).serial.outgoing == old(self).serial.outgoing
                &&& final(self).cpu.hram@ == buf@.subrange(CPU_OFFSET + 27, CPU_OFFSET + CPU_STATE_LENGTH)
                &&& final(self).ppu.vram@ == buf@.subrange(PPU_OFFSET as int, PPU_OFFSET + VRAM_BANK_SIZE)
                &&& final(self).io@ == buf@.subrange(IO_OFFSET as int, IO_OFFSET + IO_SIZE)
                &&& final(self).wram@ == buf@.subrange(WRAM_OFFSET as int, WRAM_OFFSET + WRAM_SIZE)
                &&& final(self).cpu.registers == saved_registers(buf@, CPU_OFFSET as int)
                &&& final(self).ppu.oam@ == buf@.subrange(PPU_OFFSET + VRAM_BANK_SIZE, PPU_OFFSET + VRAM_BANK_SIZE + OAM_SIZE)
                &&& final(self).ppu.lcdc == buf@[PPU_OFFSET + 8364] && final(self).ppu.line == buf@[PPU_OFFSET + 8369]
                &&& final(self).ppu.scx == buf@[PPU_OFFSET + 8370] && final(self).ppu.scy == buf@[PPU_OFFSET + 8371]
                &&& final(self).ppu.lyc == buf@[PPU_OFFSET + 8372] && final(self).ppu.bgp == buf@[PPU_OFFSET + 8375]
                &&& final(self).timer.div == buf@[TIMER_OFFSET + 1] * 256 + buf@[TIMER_OFFSET + 2]
                &&& final(self).timer.tima == buf@[TIMER_OFFSET + 4]
                &&& final(self).timer.tma == buf@[TIMER_OFFSET + 5]
                &&& final(self).timer.tac == buf@[TIMER_OFFSET + 6]
                &&& final(self).cart.ram@.len() >= final(self).cart.cart_info.ram_size
            },
    {
        if buf.len() < SAVE_STATE_HEADER_SERIALIZED_LENGTH {
            return Err(
                LoadStateError::Header(
                    SaveStateHeaderDeserializationError::InvalidBufferLength { length: buf.len() },
                ),
            );
        }
        let head = vstd::slice::slice_subrange(buf, 0, SAVE_STATE_HEADER_SERIALIZED_LENGTH);
        let header = match SaveStateHeader::deserialize(head) {
            Ok(h) => h,
            Err(e) => {
                return Err(LoadStateError::Header(e));
            },
        };
        if header.version != SAVE_STATE_VERSION || header.mode != self.mode || header.cpu_state_offset != CPU_OFFSET
            || header.timer_state_offset != TIMER_OFFSET || header.ppu_state_offset != PPU_OFFSET
            || header.serial_state_offset != SERIAL_OFFSET || header.joypad_state_offset != JOYPAD_OFFSET
            || header.cart_state_offset != CART_OFFSET || header.io_offset != IO_OFFSET || header.wram_offset
            != WRAM_OFFSET || header.oam_dma_state_offset != OAM_DMA_OFFSET {
            return Err(LoadStateError::Incompatible);
        }
        let mut pos: usize = SAVE_STATE_HEADER_SERIALIZED_LENGTH;
        let cpu = match Gameboy::load_cpu(buf, &mut pos) {
            Some(c) => c,
            None => {
                return Err(LoadStateError::Invalid);
            },
        };
        let timer_bytes = match get_bytes(buf, &mut pos, TIMER_STATE_BUFFER_LENGTH) {
            Some(t) => t,
            None => {
                return Err(LoadStateError::Invalid);
            },
        };
        let timer = match Timer::deserialize(timer_bytes.as_slice()) {
            Ok(t) => t,
            Err(_) => {
                return Err(LoadStateError::Invalid);
            },
        };
        let delay_ok = match timer.tima_overflow_delay {
            Some(d) => d <= 4,
            None => true,
        };
        if !delay_ok || timer.model != self.mode {
            return Err(LoadStateError::Invalid);
        }
        let ppu = match Gameboy::load_ppu(buf, &mut pos) {
            Some(p) => p,
            None => {
                return Err(LoadStateError::Invalid);
            },
        };
        let sb = get_u8(buf, &mut pos);
        let sc = get_u8(buf, &mut pos);
        let cycles = get_u32(buf, &mut pos);
        let bits = get_u8(buf, &mut pos);
        let data_out = get_u8(buf, &mut pos);
        let (sb, sc, cycles, bits, data_out) = match (sb, sc, cycles, bits, data_out) {
            (Some(a), Some(b), Some(c), Some(d), Some(e)) => (a, b, c, d, e),
            _ => {
                return Err(LoadStateError::Invalid);
            },
        };
        if bits >= 8 || cycles >= 64 {
            return Err(LoadStateError::Invalid);
        }
        let joypad = match Gameboy::load_joypad(buf, &mut pos) {
            Some(j) => j,
            None => {
                return Err(LoadStateError::Invalid);
            },
        };
        let io = match get_bytes(buf, &mut pos, IO_SIZE) {
            Some(v) => v,
            None => {
                return Err(LoadStateError::Invalid);
            },
        };
        let wram = match get_bytes(buf, &mut pos, WRAM_SIZE) {
            Some(v) => v,
            None => {
                return Err(LoadStateError::Invalid);
            },
        };
        let dma = match Gameboy::load_dma(buf, &mut pos) {
            Some(d) => d,
            None => {
                return Err(LoadStateError::Invalid);
            },
        };
        let (mbc, ram) = match self.load_cart(buf, &mut pos) {
            Some(c) => c,
            None => {
                return Err(LoadStateError::Invalid);
            },
        };
        self.cpu = cpu;
        self.timer = timer;
        self.ppu = ppu;
        self.serial.sb = sb;
        self.serial.sc = sc;
        self.serial.current_bit_cycles = cycles;
        self.serial.bits_shifted = bits;
        self.serial.data_out = data_out;
        self.joypad = joypad;
        self.io = io;
        self.wram = wram;
        self.oam_dma_state = dma;
        self.cart.mbc = mbc;
        self.cart.ram = ram;
        Ok(())
    }
}

/// Loading what `save_state` wrote brings back the I/O bytes and the work
/// RAM: the save puts them at their offsets and a successful load takes
/// them from there.
pub proof fn lemma_save_load_memory(saved: Gameboy, bytes: Seq<u8>, loaded: Gameboy)
    requires
        bytes.subrange(IO_OFFSET as int, IO_OFFSET + IO_SIZE) == saved.io@,
        bytes.subrange(WRAM_OFFSET as int, WRAM_OFFSET + WRAM_SIZE) == saved.wram@,
        loaded.io@ == bytes.subrange(IO_OFFSET as int, IO_OFFSET + IO_SIZE),
        loaded.wram@ == bytes.subrange(WRAM_OFFSET as int, WRAM_OFFSET + WRAM_SIZE),
    ensures
        loaded.io@ == saved.io@,
        loaded.wram@ == saved.wram@,
{
}

} // verus!
