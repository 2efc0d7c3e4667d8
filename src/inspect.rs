//! The engine's debugger surface: breakpoints, the lookahead that checks
//! them before each instruction, register and memory access, and the run loop.
use vstd::prelude::*;
use crate::cartridge::rom_index;
use crate::debugger::{AccessType, Breakpoint, Debugger};
use crate::gameboy::{Gameboy, cycles_for_duration, CYCLE_LIMIT, plain_ram, ram_cell};
use crate::mbc::stored;
use crate::mode::Mode;
use crate::ppu::Bitmap;
use crate::registers::{Register, RegisterPair, Registers};
use crate::instructions::{relative, word_at};

verus! {

/// The address that RST jumps to, for the eight RST opcodes.
pub open spec fn rst_target(op: u8) -> u16 {
    (op - 0xC7) as u16
}

/// Whether an opcode is a relative jump.
pub open spec fn is_jr(op: u8) -> bool {
    op == 0x18 || op == 0x20 || op == 0x28 || op == 0x30 || op == 0x38
}

/// Whether an opcode is an absolute jump or a call with an immediate address.
pub open spec fn is_jp_or_call(op: u8) -> bool {
    op == 0xC2 || op == 0xC3 || op == 0xCA || op == 0xD2 || op == 0xDA || op == 0xC4 || op == 0xCC || op == 0xCD
        || op == 0xD4 || op == 0xDC
}

/// Whether an opcode is a return.
pub open spec fn is_ret(op: u8) -> bool {
    op == 0xC0 || op == 0xC8 || op == 0xC9 || op == 0xD0 || op == 0xD8 || op == 0xD9
}

/// Whether an opcode is a restart.
pub open spec fn is_rst(op: u8) -> bool {
    op >= 0xC7 && op % 8 == 7
}

/// Whether a one-byte opcode reads the byte at HL.
pub open spec fn reads_at_hl(op: u8) -> bool {
    op == 0x2A || op == 0x3A || op == 0x34 || op == 0x35 || (0x40 <= op < 0xC0 && op % 8 == 6 && op != 0x76)
}

/// Whether a one-byte opcode writes the byte at HL.
pub open spec fn writes_at_hl(op: u8) -> bool {
    op == 0x22 || op == 0x32 || op == 0x34 || op == 0x35 || op == 0x36 || (0x70 <= op <= 0x77 && op != 0x76)
}

/// The address after the program counter's `n`-th next byte.
pub open spec fn after(pc: u16, n: int) -> u16 {
    ((pc + n) % 65536) as u16
}

/// Where the instruction `op` at PC would jump: JR (relative to the next
/// instruction), JP and CALL (the immediate word), RET (the word at SP),
/// RST (its fixed address) and JP HL.
pub open spec fn jump_spec(g: Gameboy, op: u8) -> Option<u16> {
    let pc = g.cpu.registers.pc;
    if is_jr(op) {
        Some(relative(after(pc, 2), g.peek(after(pc, 1))))
    } else if is_jp_or_call(op) {
        Some(word_at(g, after(pc, 1)))
    } else if is_ret(op) {
        Some(word_at(g, g.cpu.registers.sp))
    } else if is_rst(op) {
        Some(rst_target(op))
    } else if op == 0xE9 {
        Some(g.cpu.registers.pair(RegisterPair::HL))
    } else {
        None
    }
}

/// The address that the instruction `op` (with `cb` after a 0xCB prefix)
/// would read through a register or an immediate operand.
pub open spec fn read_spec(g: Gameboy, op: u8, cb: u8) -> Option<u16> {
    let r = g.cpu.registers;
    if op == 0x0A {
        Some(r.pair(RegisterPair::BC))
    } else if op == 0x1A {
        Some(r.pair(RegisterPair::DE))
    } else if reads_at_hl(op) {
        Some(r.pair(RegisterPair::HL))
    } else if op == 0xF0 {
        Some((0xFF00 + g.peek(after(r.pc, 1))) as u16)
    } else if op == 0xF2 {
        Some((0xFF00 + r.c) as u16)
    } else if op == 0xFA {
        Some(word_at(g, after(r.pc, 1)))
    } else if op == 0xCB && cb % 8 == 6 {
        Some(r.pair(RegisterPair::HL))
    } else {
        None
    }
}

/// The address that the instruction `op` (with `cb` after a 0xCB prefix)
/// would write through a register or an immediate operand.
pub open spec fn write_spec(g: Gameboy, op: u8, cb: u8) -> Option<u16> {
    let r = g.cpu.registers;
    if op == 0x02 {
        Some(r.pair(RegisterPair::BC))
    } else if op == 0x12 {
        Some(r.pair(RegisterPair::DE))
    } else if writes_at_hl(op) {
        Some(r.pair(RegisterPair::HL))
    } else if op == 0x08 || op == 0xEA {
        Some(word_at(g, after(r.pc, 1)))
    } else if op == 0xE0 {
        Some((0xFF00 + g.peek(after(r.pc, 1))) as u16)
    } else if op == 0xE2 {
        Some((0xFF00 + r.c) as u16)
    } else if op == 0xCB && cb % 8 == 6 && !(0x40 <= cb < 0x80) {
        Some(r.pair(RegisterPair::HL))
    } else {
        None
    }
}

/// The breakpoint of a kind at an address that a set holds, if any.
pub open spec fn hit(bps: Seq<Breakpoint>, target: Option<u16>, kind: AccessType) -> Option<Breakpoint> {
    match target {
        Some(a) => if bps.contains(Breakpoint { address: a, access_type: kind }) {
            Some(Breakpoint { address: a, access_type: kind })
        } else {
            None
        },
        None => None,
    }
}

/// The breakpoint that the next instruction hits: Execute at PC, then Jump
/// at its target, then Read, then Write at the addresses it accesses.
pub open spec fn lookahead_spec(g: Gameboy) -> Option<Breakpoint> {
    let bps = g.debugger.breakpoints@;
    let pc = g.cpu.registers.pc;
    let op = g.peek(pc);
    let cb = g.peek(after(pc, 1));
    if bps.len() == 0 {
        None
    } else if bps.contains(Breakpoint { address: pc, access_type: AccessType::Execute }) {
        Some(Breakpoint { address: pc, access_type: AccessType::Execute })
    } else if hit(bps, jump_spec(g, op), AccessType::Jump) is Some {
        hit(bps, jump_spec(g, op), AccessType::Jump)
    } else if hit(bps, read_spec(g, op, cb), AccessType::Read) is Some {
        hit(bps, read_spec(g, op, cb), AccessType::Read)
    } else {
        hit(bps, write_spec(g, op, cb), AccessType::Write)
    }
}

impl Gameboy {
    /// Adds a breakpoint unless it is already set.
    pub fn add_breakpoint(&mut self, breakpoint: Breakpoint)
        requires
            old(self).wf(),
        ensures
            final(self).wf(),
            final(self).debugger.breakpoints@.to_set() == old(self).debugger.breakpoints@.to_set().insert(breakpoint),
    {
        self.debugger.add_breakpoint(breakpoint);
    }

    /// Removes the breakpoint at an index of the ordered list.
    pub fn remove_breakpoint(&mut self, index: usize) -> (r: Result<Breakpoint, ()>)
        requires
            old(self).wf(),
        ensures
            final(self).wf(),
            index >= old(self).debugger.breakpoints@.len() ==> r is Err,
            index < old(self).debugger.breakpoints@.len() ==> r == Ok::<Breakpoint, ()>(
                old(self).debugger.breakpoints@[index as int],
            ) && final(self).debugger.breakpoints@ == old(self).debugger.breakpoints@.remove(index as int),
    {
        self.debugger.remove_breakpoint(index)
    }

    /// The breakpoints, in ascending order.
    pub fn get_breakpoints(&self) -> (r: Vec<Breakpoint>)
        ensures
            r@ == self.debugger.breakpoints@,
    {
        self.debugger.get_breakpoints()
    }

    /// The word at an address, low byte first, as the debugger reads it.
    fn read_word(&self, address: u16) -> (r: u16)
        requires
            self.wf(),
        ensures
            r == self.peek(((address + 1) % 65536) as u16) * 256 + self.peek(address),
    {
        let low = self.read_byte(address);
        let high = self.read_byte(address.wrapping_add(1));
        high as u16 * 256 + low as u16
    }

    /// Where the next instruction would jump, if it is a jump, call, return or restart.
    pub fn jump_target(&self, op: u8) -> (r: Option<u16>)
        requires
            self.wf(),
        ensures
            r == jump_spec(*self, op),
    {
        let pc = self.cpu.registers.pc;
        if op == 0x18 || op == 0x20 || op == 0x28 || op == 0x30 || op == 0x38 {
            let offset = self.read_byte(pc.wrapping_add(1));
            let next = pc.wrapping_add(2);
            if offset < 128 {
                Some(next.wrapping_add(offset as u16))
            } else {
                Some(next.wrapping_sub(256 - offset as u16))
            }
        } else if op == 0xC2 || op == 0xC3 || op == 0xCA || op == 0xD2 || op == 0xDA || op == 0xC4 || op == 0xCC
            || op == 0xCD || op == 0xD4 || op == 0xDC {
            Some(self.read_word(pc.wrapping_add(1)))
        } else if op == 0xC0 || op == 0xC8 || op == 0xC9 || op == 0xD0 || op == 0xD8 || op == 0xD9 {
            Some(self.read_word(self.cpu.registers.sp))
        } else if op >= 0xC7 && op % 8 == 7 {
            Some((op - 0xC7) as u16)
        } else if op == 0xE9 {
            Some(self.cpu.registers.get_register_pair(RegisterPair::HL))
        } else {
            None
        }
    }

    /// The address that the next instruction would read, if it reads memory
    /// through a register or an immediate address. `cb` is the byte after a
    /// 0xCB prefix.
    pub fn read_target(&self, op: u8, cb: u8) -> (r: Option<u16>)
        requires
            self.wf(),
        ensures
            r == read_spec(*self, op, cb),
    {
        let regs = &self.cpu.registers;
        if op == 0x0A {
            Some(regs.get_register_pair(RegisterPair::BC))
        } else if op == 0x1A {
            Some(regs.get_register_pair(RegisterPair::DE))
        } else if op == 0x2A || op == 0x3A || op == 0x34 || op == 0x35 || (0x40 <= op && op < 0xC0 && op % 8 == 6
            && op != 0x76) {
            Some(regs.get_register_pair(RegisterPair::HL))
        } else if op == 0xF0 {
            Some(0xFF00 + self.read_byte(regs.pc.wrapping_add(1)) as u16)
        } else if op == 0xF2 {
            Some(0xFF00 + regs.c as u16)
        } else if op == 0xFA {
            Some(self.read_word(regs.pc.wrapping_add(1)))
        } else if op == 0xCB && cb % 8 == 6 {
            Some(regs.get_register_pair(RegisterPair::HL))
        } else {
            None
        }
    }

    /// The address that the next instruction would write, if it writes
    /// memory through a register or an immediate address.
    pub fn write_target(&self, op: u8, cb: u8) -> (r: Option<u16>)
        requires
            self.wf(),
        ensures
            r == write_spec(*self, op, cb),
    {
        let regs = &self.cpu.registers;
        if op == 0x02 {
            Some(regs.get_register_pair(RegisterPair::BC))
        } else if op == 0x12 {
            Some(regs.get_register_pair(RegisterPair::DE))
        } else if op == 0x22 || op == 0x32 || op == 0x34 || op == 0x35 || op == 0x36 || (0x70 <= op && op <= 0x77
            && op != 0x76) {
            Some(regs.get_register_pair(RegisterPair::HL))
        } else if op == 0x08 || op == 0xEA {
            Some(self.read_word(regs.pc.wrapping_add(1)))
        } else if op == 0xE0 {
            Some(0xFF00 + self.read_byte(regs.pc.wrapping_add(1)) as u16)
        } else if op == 0xE2 {
            Some(0xFF00 + regs.c as u16)
        } else if op == 0xCB && cb % 8 == 6 && !(0x40 <= cb && cb < 0x80) {
            Some(regs.get_register_pair(RegisterPair::HL))
        } else {
            None
        }
    }

    /// The breakpoint that the next instruction would hit, without running
    /// it: an Execute breakpoint at PC first, then a Jump breakpoint at its
    /// target, a Read breakpoint at the address it reads, a Write breakpoint
    /// at the address it writes.
    pub fn breakpoint_lookahead(&self) -> (r: Option<Breakpoint>)
        requires
            self.wf(),
        ensures
            r == lookahead_spec(*self),
            r matches Some(b) ==> self.debugger.breakpoints@.contains(b),
    {
        if self.debugger.breakpoints.len() == 0 {
            return None;
        }
        let pc = self.cpu.registers.pc;
        match self.debugger.find(Breakpoint::new(pc, AccessType::Execute)) {
            Some(b) => {
                return Some(b);
            },
            None => {},
        }
        let op = self.read_byte(pc);
        let cb = self.read_byte(pc.wrapping_add(1));
        match self.jump_target(op) {
            Some(addr) => match self.debugger.find(Breakpoint::new(addr, AccessType::Jump)) {
                Some(b) => {
                    return Some(b);
                },
                None => {},
            },
            None => {},
        }
        match self.read_target(op, cb) {
            Some(addr) => match self.debugger.find(Breakpoint::new(addr, AccessType::Read)) {
                Some(b) => {
                    return Some(b);
                },
                None => {},
            },
            None => {},
        }
        match self.write_target(op, cb) {
            Some(addr) => match self.debugger.find(Breakpoint::new(addr, AccessType::Write)) {
                Some(b) => {
                    return Some(b);
                },
                None => {},
            },
            None => {},
        }
        None
    }

    /// One debugger step: services interrupts, notes the breakpoint that the
    /// instruction hits (if any), and executes it.
    pub fn debug_step(&mut self) -> (r: Option<Breakpoint>)
        requires
            old(self).wf(),
            old(self).can_step(),
        ensures
            final(self).wf(),
            final(self).cpu.cycle_counter > old(self).cpu.cycle_counter,
            r matches Some(b) ==> old(self).debugger.breakpoints@.contains(b),
            old(self).first_pending() is None ==> r == lookahead_spec(*old(self)),
    {
        self.interrupt_service_routine();
        let result = self.breakpoint_lookahead();
        self.execute();
        result
    }

    /// The register file.
    pub fn get_registers(&self) -> (r: Registers)
        ensures
            r == self.cpu.registers,
    {
        self.cpu.registers
    }

    /// Writes a register pair; F keeps only its high nibble.
    pub fn set_register_pair(&mut self, register: RegisterPair, value: u16)
        requires
            old(self).wf(),
        ensures
            final(self).wf(),
            final(self).cpu.registers == old(self).cpu.registers.with_pair(register, value),
    {
        self.cpu.registers.set_register_pair(register, value);
    }

    /// Reads memory as the debugger sees it, past DMA conflicts.
    pub fn read_memory(&self, address: u16) -> (r: u8)
        requires
            self.wf(),
        ensures
            r == self.peek(address),
    {
        self.read_byte(address)
    }

    /// Writes memory as the debugger does: an address in ROM patches the
    /// byte that the CPU sees there; elsewhere the bus write applies.
    pub fn write_memory(&mut self, address: u16, value: u8)
        requires
            old(self).wf(),
        ensures
            final(self).wf(),
            old(self).stores_at(address) ==> final(self).peek(address) == value,
            address < 0x8000 && rom_index(old(self).cart.mbc, address) < old(self).cart.rom@.len() ==> final(self).peek(address) == value,
            address < 0x8000 ==> final(self).cart.rom@ == stored(old(self).cart.rom@, rom_index(old(self).cart.mbc, address), value)
                && final(self).cart.mbc == old(self).cart.mbc,
            address < 0x8000 ==> *final(self) == (Gameboy { cart: final(self).cart, ..*old(self) }),
            forall|b: u16| plain_ram(b) && ram_cell(b) != ram_cell(address) ==> #[trigger] final(self).peek(b)
                == old(self).peek(b),
            address == 0xFFFF || address == 0xFF0F ==> final(self).peek(address) == value % 32 + 0xE0,
            address == 0xFF44 ==> final(self).peek(address) == old(self).peek(address),
            address == 0xFF46 ==> final(self).oam_dma_state.active && final(self).oam_dma_state.current_cycle == 0
                && final(self).oam_dma_state.start_address == value * 256,
    {
        if address < 0x8000 {
            self.cart.patch_rom(address, value);
        } else {
            self.write_byte(address, value);
        }
    }

    /// The bytes from `address_start` to `address_end` inclusive; `Err(())`
    /// when the start is past the end.
    pub fn read_range(&self, address_start: u16, address_end: u16) -> (r: Result<Vec<u8>, ()>)
        requires
            self.wf(),
        ensures
            address_start > address_end <==> r is Err,
            r matches Ok(v) ==> v@.len() == address_end - address_start + 1 && forall|i: int|
                0 <= i < v@.len() ==> v@[i] == #[trigger] self.peek((address_start + i) as u16),
    {
        if address_start > address_end {
            return Err(());
        }
        let mut bytes: Vec<u8> = Vec::new();
        let mut a: u32 = address_start as u32;
        while a <= address_end as u32
            invariant
                self.wf(),
                address_start <= a <= address_end as u32 + 1,
                bytes@.len() == a - address_start,
                forall|i: int|
                    0 <= i < bytes@.len() ==> bytes@[i] == #[trigger] self.peek((address_start + i) as u16),
            decreases address_end as u32 + 1 - a,
        {
            bytes.push(self.read_byte(a as u16));
            a = a + 1;
        }
        Ok(bytes)
    }

    /// Writes bytes from an address on through the bus, wrapping at the top.
    pub fn write_range(&mut self, address_start: u16, values: &[u8])
        requires
            old(self).wf(),
        ensures
            final(self).wf(),
            forall|j: int|
                #![trigger values@[j]]
                0 <= j < values@.len() && plain_ram(after(address_start, j)) && (forall|k: int|
                    j < k < values@.len() ==> ram_cell(#[trigger] after(address_start, k)) != ram_cell(after(address_start, j)))
                    ==> final(self).peek(after(address_start, j)) == values@[j],
    {
        let mut i: usize = 0;
        while i < values.len()
            invariant
                self.wf(),
                i <= values@.len(),
                forall|j: int|
                    #![trigger values@[j]]
                    0 <= j < i && plain_ram(after(address_start, j)) && (forall|k: int|
                        j < k < i ==> ram_cell(#[trigger] after(address_start, k)) != ram_cell(after(address_start, j)))
                        ==> self.peek(after(address_start, j)) == values@[j],
            decreases values@.len() - i,
        {
            let addr: u16 = ((i % 65536 + address_start as usize) % 65536) as u16;
            assert(addr == after(address_start, i as int));
            let ghost before = *self;
            self.write_byte(addr, values[i]);
            proof {
                assert forall|j: int|
                    #![trigger values@[j]]
                    0 <= j < i + 1 && plain_ram(after(address_start, j)) && (forall|k: int|
                        j < k < i + 1 ==> ram_cell(#[trigger] after(address_start, k)) != ram_cell(after(address_start, j)))
                        implies self.peek(after(address_start, j)) == values@[j] by {
                    if j < i {
                        assert(ram_cell(after(address_start, i as int)) != ram_cell(after(address_start, j)));
                        assert(before.peek(after(address_start, j)) == values@[j]);
                    }
                }
            }
            i = i + 1;
        }
    }

    /// Returns the components to their power-on values; memory, the
    /// breakpoints, cartridge RAM and ROM patches, and the cycle counter survive.
    pub fn reset(&mut self)
        requires
            old(self).wf(),
        ensures
            final(self).wf(),
            final(self).cart == old(self).cart,
            final(self).debugger == old(self).debugger,
            final(self).wram == old(self).wram,
            !final(self).oam_dma_state.active,
            final(self).timer.div == 0 && final(self).timer.tima == 0 && final(self).timer.tma == 0,
            final(self).timer.tac == 0 && final(self).timer.tima_overflow_delay is None,
            final(self).ppu.lcdc == 0x91 && final(self).ppu.bgp == 0xFC && final(self).ppu.obp0 == 0xFF,
            final(self).ppu.obp1 == 0xFF && final(self).ppu.stat() == 0x85 && final(self).ppu.frame_counter == 0,
            final(self).serial.sb == 0xFF && final(self).serial.sc == 0,
            final(self).cpu.interrupt_flag.value == 1 && final(self).cpu.interrupt_enable.value == 0,
            !final(self).cpu.ime && !final(self).cpu.halt,
            final(self).mode == Mode::DMG ==> final(self).cpu.registers.dmg_values(),
            final(self).mode == Mode::CGB ==> final(self).cpu.registers.cgb_values(),
    {
        let mode = if self.cart.cart_info.cgb {
            Mode::CGB
        } else {
            Mode::DMG
        };
        self.mode = mode;
        self.cpu.reset(mode);
        self.timer.reset();
        self.ppu.reset();
        self.serial.reset();
        self.oam_dma_state.reset();
    }

    /// The 384 tiles of VRAM.
    pub fn dump_tiles(&self) -> (r: Bitmap)
        requires
            self.wf(),
        ensures
            r.width == 128 && r.height == 192 && r.data@.len() == 128 * 192,
            forall|p: int| 0 <= p < 128 * 192 ==> r.data@[p] == self.ppu.tile_sheet_pixel(p),
    {
        self.ppu.dump_tiles()
    }

    /// The background tile map.
    pub fn dump_bg(&self) -> (r: Bitmap)
        requires
            self.wf(),
        ensures
            r.width == 256 && r.height == 256 && r.data@.len() == 256 * 256,
            forall|p: int| 0 <= p < 256 * 256 ==> r.data@[p] == self.ppu.bg_map_pixel(p),
    {
        self.ppu.dump_bg()
    }

    /// Runs for a span of time, given in seconds and nanoseconds, converted
    /// to T-cycles at 4.194304 MHz (twice that in double-speed mode). With
    /// the debugger enabled it stops before an instruction that would hit a
    /// breakpoint and returns that breakpoint. It also stops at the cycle limit.
    pub fn emulate(&mut self, seconds: u64, nanos: u32) -> (r: Option<Breakpoint>)
        requires
            old(self).wf(),
        ensures
            final(self).wf(),
            final(self).cpu.cycle_counter >= old(self).cpu.cycle_counter,
            r matches Some(b) ==> final(self).debugger.breakpoints@.contains(b) && final(self).debugger.hit_breakpoint,
            r is None ==> final(self).debugger.breakpoints == old(self).debugger.breakpoints,
            r is None && final(self).cpu.cycle_counter <= CYCLE_LIMIT ==> final(self).cpu.cycle_counter
                >= old(self).cpu.cycle_counter + crate::gameboy::cycles_for(seconds, nanos, old(self).cpu.double_speed_mode),
            r is None ==> final(self).cpu.cycle_counter < old(self).cpu.cycle_counter + crate::gameboy::cycles_for(
                seconds,
                nanos,
                old(self).cpu.double_speed_mode,
            ) + 44,
    {
        let budget = cycles_for_duration(seconds, nanos, self.cpu.double_speed_mode);
        let mut counter: u64 = 0;
        while counter < budget && self.cpu.cycle_counter <= CYCLE_LIMIT
            invariant
                self.wf(),
                self.cpu.cycle_counter >= old(self).cpu.cycle_counter + counter,
                counter < budget ==> self.cpu.cycle_counter == old(self).cpu.cycle_counter + counter,
                counter == budget ==> self.cpu.cycle_counter < old(self).cpu.cycle_counter + budget + 44,
                counter <= budget,
                budget == crate::gameboy::cycles_for(seconds, nanos, old(self).cpu.double_speed_mode),
                self.debugger.breakpoints == old(self).debugger.breakpoints,
            decreases budget - counter,
        {
            let start = self.cpu.cycle_counter;
            self.interrupt_service_routine();
            if self.debugger.enabled() {
                match self.breakpoint_lookahead() {
                    Some(b) => {
                        let hit = self.debugger.breakpoint_callback(b);
                        return Some(hit);
                    },
                    None => {},
                }
            }
            self.execute();
            let spent = self.cpu.cycle_counter - start;
            counter = if spent >= budget - counter { budget } else { counter + spent };
        }
        None
    }
}

impl Debugger {
    /// One step under the debugger: stops at an Execute breakpoint on PC
    /// (returning its address) unless `step_over` is set.
    pub fn step(gb: &mut Gameboy, step_over: bool) -> (r: Option<u16>)
        requires
            old(gb).wf(),
            old(gb).can_step(),
        ensures
            final(gb).wf(),
            r matches Some(a) ==> a == old(gb).cpu.registers.pc && !step_over,
            r is Some ==> *final(gb) == *old(gb),
            r is None ==> final(gb).cpu.cycle_counter > old(gb).cpu.cycle_counter,
            final(gb).debugger == old(gb).debugger,
    {
        let pc = gb.cpu.registers.pc;
        let at_pc = gb.debugger.find(Breakpoint::new(pc, AccessType::Execute));
        if at_pc.is_some() && !step_over {
            return Some(pc);
        }
        gb.interrupt_service_routine();
        gb.execute();
        None
    }

    /// Runs about one frame (70224 T-cycles) of instructions, stopping early at a breakpoint.
    pub fn step_frame(gb: &mut Gameboy)
        requires
            old(gb).wf(),
        ensures
            final(gb).wf(),
            final(gb).cpu.cycle_counter >= old(gb).cpu.cycle_counter,
            final(gb).debugger == old(gb).debugger,
    {
        let mut counter: u32 = 0;
        while counter < 70224 && gb.cpu.cycle_counter <= CYCLE_LIMIT
            invariant
                gb.wf(),
                gb.cpu.cycle_counter >= old(gb).cpu.cycle_counter,
                gb.debugger == old(gb).debugger,
                counter % 4 == 0,
                counter <= 70224,
            decreases 70224 - counter,
        {
            if Debugger::step(gb, false).is_some() {
                break;
            }
            counter = counter + 4;
        }
    }

    /// Reads memory past DMA conflicts.
    pub fn read_byte(gb: &Gameboy, address: u16) -> (r: u8)
        requires
            gb.wf(),
        ensures
            r == gb.peek(address),
    {
        gb.read_byte(address)
    }

    /// Writes memory through the bus.
    pub fn write_byte(gb: &mut Gameboy, address: u16, value: u8)
        requires
            old(gb).wf(),
        ensures
            final(gb).wf(),
            old(gb).stores_at(address) ==> final(gb).peek(address) == value,
    {
        gb.write_byte(address, value);
    }

    /// Reads an 8-bit register, or the byte at HL.
    pub fn get_register(gb: &Gameboy, reg: Register) -> (r: u8)
        requires
            gb.wf(),
        ensures
            reg != Register::AT_HL ==> r == crate::instructions::reg_value(gb.cpu.registers, reg),
            reg == Register::AT_HL ==> r == gb.peek(gb.cpu.registers.pair(RegisterPair::HL)),
    {
        match reg {
            Register::B => gb.cpu.registers.b,
            Register::C => gb.cpu.registers.c,
            Register::D => gb.cpu.registers.d,
            Register::E => gb.cpu.registers.e,
            Register::H => gb.cpu.registers.h,
            Register::L => gb.cpu.registers.l,
            Register::AT_HL => {
                let hl = gb.cpu.registers.get_register_pair(RegisterPair::HL);
                gb.read_byte(hl)
            },
            Register::A => gb.cpu.registers.a,
            Register::F => gb.cpu.registers.f,
        }
    }

    /// Writes an 8-bit register, or the byte at HL; F keeps only its high nibble.
    pub fn set_register(gb: &mut Gameboy, reg: Register, val: u8)
        requires
            old(gb).wf(),
        ensures
            final(gb).wf(),
            reg != Register::AT_HL && reg != Register::F ==> final(gb).cpu.registers == crate::instructions::with_register(
                old(gb).cpu.registers,
                reg,
                val,
            ),
            reg == Register::F ==> final(gb).cpu.registers == (Registers { f: ((val / 16) * 16) as u8, ..old(gb).cpu.registers }),
    {
        match reg {
            Register::B => gb.cpu.registers.b = val,
            Register::C => gb.cpu.registers.c = val,
            Register::D => gb.cpu.registers.d = val,
            Register::E => gb.cpu.registers.e = val,
            Register::H => gb.cpu.registers.h = val,
            Register::L => gb.cpu.registers.l = val,
            Register::AT_HL => {
                let hl = gb.cpu.registers.get_register_pair(RegisterPair::HL);
                gb.write_byte(hl, val);
            },
            Register::A => gb.cpu.registers.a = val,
            Register::F => gb.cpu.registers.f = (val / 16) * 16,
        }
    }

    /// Reads a register pair.
    pub fn get_register_pair(gb: &Gameboy, reg: RegisterPair) -> (r: u16)
        ensures
            r == gb.cpu.registers.pair(reg),
    {
        gb.cpu.registers.get_register_pair(reg)
    }

    /// Writes a register pair.
    pub fn set_register_pair(gb: &mut Gameboy, reg: RegisterPair, val: u16)
        requires
            old(gb).wf(),
        ensures
            final(gb).wf(),
            final(gb).cpu.registers == old(gb).cpu.registers.with_pair(reg, val),
    {
        gb.cpu.registers.set_register_pair(reg, val);
    }
}

} // verus!
