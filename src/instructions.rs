//! The instruction interpreter: decoding, the handlers of the opcode map and
//! the 0xCB-prefixed map, and their machine-cycle costs.
use vstd::prelude::*;
use crate::alu::{alu_spec, bit_mask, zero_of, sub_of, half_of, carry_of, flags_of, make_flags, zero_flag, carry_flag, signed_byte, daa_sum};
use crate::cpu::CPU;
use crate::gameboy::{Gameboy, CYCLE_LIMIT, plain_ram, ram_cell};
use crate::registers::{Register, RegisterPair, Registers};

verus! {

/// The 8-bit register slot that a three-bit operand field names.
pub open spec fn register_of(code: u8) -> Register {
    if code % 8 == 0 {
        Register::B
    } else if code % 8 == 1 {
        Register::C
    } else if code % 8 == 2 {
        Register::D
    } else if code % 8 == 3 {
        Register::E
    } else if code % 8 == 4 {
        Register::H
    } else if code % 8 == 5 {
        Register::L
    } else if code % 8 == 6 {
        Register::AT_HL
    } else {
        Register::A
    }
}

/// The register slot named by the low three bits of an opcode.
pub fn map_register(reg: u8) -> (r: Register)
    ensures
        r == register_of(reg),
{
    match reg % 8 {
        0 => Register::B,
        1 => Register::C,
        2 => Register::D,
        3 => Register::E,
        4 => Register::H,
        5 => Register::L,
        6 => Register::AT_HL,
        _ => Register::A,
    }
}

/// The value of an 8-bit register (the byte at HL has none here).
pub open spec fn reg_value(r: Registers, reg: Register) -> u8 {
    match reg {
        Register::B => r.b,
        Register::C => r.c,
        Register::D => r.d,
        Register::E => r.e,
        Register::H => r.h,
        Register::L => r.l,
        Register::A => r.a,
        Register::F => r.f,
        Register::AT_HL => 0,
    }
}

/// The register file with one 8-bit register replaced.
pub open spec fn with_register(r: Registers, reg: Register, v: u8) -> Registers {
    match reg {
        Register::B => Registers { b: v, ..r },
        Register::C => Registers { c: v, ..r },
        Register::D => Registers { d: v, ..r },
        Register::E => Registers { e: v, ..r },
        Register::H => Registers { h: v, ..r },
        Register::L => Registers { l: v, ..r },
        Register::A => Registers { a: v, ..r },
        Register::F => Registers { f: v, ..r },
        Register::AT_HL => r,
    }
}

/// The branch conditions of JR, JP, CALL and RET.
#[derive(Clone, Copy, Debug, PartialEq, Eq, Structural)]
pub enum Conditional {
    Z,
    NZ,
    C,
    NC,
}

/// Whether a condition holds of a flag byte.
pub open spec fn holds(cond: Conditional, f: u8) -> bool {
    match cond {
        Conditional::Z => zero_of(f),
        Conditional::NZ => !zero_of(f),
        Conditional::C => carry_of(f),
        Conditional::NC => !carry_of(f),
    }
}

fn check(cond: Conditional, f: u8) -> (r: bool)
    ensures
        r == holds(cond, f),
{
    match cond {
        Conditional::Z => zero_flag(f),
        Conditional::NZ => !zero_flag(f),
        Conditional::C => carry_flag(f),
        Conditional::NC => !carry_flag(f),
    }
}

/// A program counter moved by a signed byte.
pub open spec fn relative(pc: u16, offset: u8) -> u16 {
    ((pc + signed_byte(offset) + 65536) % 65536) as u16
}

/// The condition that a conditional branch opcode tests.
pub open spec fn condition_of(op: u8) -> Conditional {
    if (op / 8) % 4 == 0 {
        Conditional::NZ
    } else if (op / 8) % 4 == 1 {
        Conditional::Z
    } else if (op / 8) % 4 == 2 {
        Conditional::NC
    } else {
        Conditional::C
    }
}

/// The new value of the operand and the new flags of a 0xCB-prefixed
/// instruction on a byte `v` with flags `f`.
pub open spec fn cb_spec(cb: u8, v: u8, f: u8) -> (u8, u8) {
    let n = (cb / 8) % 8;
    let cy = carry_of(f);
    if cb < 0x40 {
        let r: int = if n == 0 {
            (v as int % 128) * 2 + v as int / 128
        } else if n == 1 {
            v / 2 + (v % 2) * 128
        } else if n == 2 {
            (v % 128) * 2 + (if cy { 1int } else { 0 })
        } else if n == 3 {
            v / 2 + (if cy { 128int } else { 0 })
        } else if n == 4 {
            (v % 128) * 2
        } else if n == 5 {
            v / 2 + (if v >= 128 { 128int } else { 0 })
        } else if n == 6 {
            (v % 16) * 16 + v / 16
        } else {
            v as int / 2
        };
        let c = if n == 0 || n == 2 || n == 4 {
            v >= 128
        } else if n == 6 {
            false
        } else {
            v % 2 == 1
        };
        (r as u8, flags_of(r == 0, false, false, c))
    } else if cb < 0x80 {
        (v, flags_of(v & bit_mask(n as u8) == 0, false, true, cy))
    } else if cb < 0xC0 {
        (v & !bit_mask(n as u8), f)
    } else {
        (v | bit_mask(n as u8), f)
    }
}

/// Machine cycles of a 0xCB-prefixed instruction, prefix included.
pub open spec fn cb_cycles(cb: u8) -> int {
    if cb % 8 == 6 {
        if 0x40 <= cb < 0x80 {
            3
        } else {
            4
        }
    } else {
        2
    }
}

/// Machine cycles of a conditional branch: `taken` cycles when its condition
/// holds of the flags, else `not_taken`.
pub open spec fn branch(op: u8, f: u8, taken: int, not_taken: int) -> int {
    if holds(condition_of(op), f) {
        taken
    } else {
        not_taken
    }
}
/// The documented machine cycles of an instruction, the opcode fetch
/// included: `f` is the flag byte it starts with and `cb` the byte after a
/// 0xCB prefix.
pub open spec fn machine_cycles(op: u8, f: u8, cb: u8) -> int {
    if op == 0xCB {
        cb_cycles(cb)
    } else if 0x40 <= op < 0x80 {
        if op == 0x76 {
            1
        } else if op % 8 == 6 || (op / 8) % 8 == 6 {
            2
        } else {
            1
        }
    } else if 0x80 <= op < 0xC0 {
        if op % 8 == 6 {
            2
        } else {
            1
        }
    } else if op == 0x00 {
        1
    } else if op == 0x01 {
        3
    } else if op == 0x02 {
        2
    } else if op == 0x03 {
        2
    } else if op == 0x04 {
        1
    } else if op == 0x05 {
        1
    } else if op == 0x06 {
        2
    } else if op == 0x07 {
        1
    } else if op == 0x08 {
        5
    } else if op == 0x09 {
        2
    } else if op == 0x0A {
        2
    } else if op == 0x0B {
        2
    } else if op == 0x0C {
        1
    } else if op == 0x0D {
        1
    } else if op == 0x0E {
        2
    } else if op == 0x0F {
        1
    } else if op == 0x10 {
        1
    } else if op == 0x11 {
        3
    } else if op == 0x12 {
        2
    } else if op == 0x13 {
        2
    } else if op == 0x14 {
        1
    } else if op == 0x15 {
        1
    } else if op == 0x16 {
        2
    } else if op == 0x17 {
        1
    } else if op == 0x18 {
        3
    } else if op == 0x19 {
        2
    } else if op == 0x1A {
        2
    } else if op == 0x1B {
        2
    } else if op == 0x1C {
        1
    } else if op == 0x1D {
        1
    } else if op == 0x1E {
        2
    } else if op == 0x1F {
        1
    } else if op == 0x20 {
        branch(op, f, 3, 2)
    } else if op == 0x21 {
        3
    } else if op == 0x22 {
        2
    } else if op == 0x23 {
        2
    } else if op == 0x24 {
        1
    } else if op == 0x25 {
        1
    } else if op == 0x26 {
        2
    } else if op == 0x27 {
        1
    } else if op == 0x28 {
        branch(op, f, 3, 2)
    } else if op == 0x29 {
        2
    } else if op == 0x2A {
        2
    } else if op == 0x2B {
        2
    } else if op == 0x2C {
        1
    } else if op == 0x2D {
        1
    } else if op == 0x2E {
        2
    } else if op == 0x2F {
        1
    } else if op == 0x30 {
        branch(op, f, 3, 2)
    } else if op == 0x31 {
        3
    } else if op == 0x32 {
        2
    } else if op == 0x33 {
        2
    } else if op == 0x34 {
        3
    } else if op == 0x35 {
        3
    } else if op == 0x36 {
        3
    } else if op == 0x37 {
        1
    } else if op == 0x38 {
        branch(op, f, 3, 2)
    } else if op == 0x39 {
        2
    } else if op == 0x3A {
        2
    } else if op == 0x3B {
        2
    } else if op == 0x3C {
        1
    } else if op == 0x3D {
        1
    } else if op == 0x3E {
        2
    } else if op == 0x3F {
        1
    } else if op == 0xC0 {
        branch(op, f, 5, 2)
    } else if op == 0xC1 {
        3
    } else if op == 0xC2 {
        branch(op, f, 4, 3)
    } else if op == 0xC3 {
        4
    } else if op == 0xC4 {
        branch(op, f, 6, 3)
    } else if op == 0xC5 {
        4
    } else if op == 0xC6 {
        2
    } else if op == 0xC7 {
        4
    } else if op == 0xC8 {
        branch(op, f, 5, 2)
    } else if op == 0xC9 {
        4
    } else if op == 0xCA {
        branch(op, f, 4, 3)
    } else if op == 0xCC {
        branch(op, f, 6, 3)
    } else if op == 0xCD {
        6
    } else if op == 0xCE {
        2
    } else if op == 0xCF {
        4
    } else if op == 0xD0 {
        branch(op, f, 5, 2)
    } else if op == 0xD1 {
        3
    } else if op == 0xD2 {
        branch(op, f, 4, 3)
    } else if op == 0xD3 {
        1
    } else if op == 0xD4 {
        branch(op, f, 6, 3)
    } else if op == 0xD5 {
        4
    } else if op == 0xD6 {
        2
    } else if op == 0xD7 {
        4
    } else if op == 0xD8 {
        branch(op, f, 5, 2)
    } else if op == 0xD9 {
        4
    } else if op == 0xDA {
        branch(op, f, 4, 3)
    } else if op == 0xDB {
        1
    } else if op == 0xDC {
        branch(op, f, 6, 3)
    } else if op == 0xDD {
        1
    } else if op == 0xDE {
        2
    } else if op == 0xDF {
        4
    } else if op == 0xE0 {
        3
    } else if op == 0xE1 {
        3
    } else if op == 0xE2 {
        2
    } else if op == 0xE3 {
        1
    } else if op == 0xE4 {
        1
    } else if op == 0xE5 {
        4
    } else if op == 0xE6 {
        2
    } else if op == 0xE7 {
        4
    } else if op == 0xE8 {
        4
    } else if op == 0xE9 {
        1
    } else if op == 0xEA {
        4
    } else if op == 0xEB {
        1
    } else if op == 0xEC {
        1
    } else if op == 0xED {
        1
    } else if op == 0xEE {
        2
    } else if op == 0xEF {
        4
    } else if op == 0xF0 {
        3
    } else if op == 0xF1 {
        3
    } else if op == 0xF2 {
        2
    } else if op == 0xF3 {
        1
    } else if op == 0xF4 {
        1
    } else if op == 0xF5 {
        4
    } else if op == 0xF6 {
        2
    } else if op == 0xF7 {
        4
    } else if op == 0xF8 {
        3
    } else if op == 0xF9 {
        2
    } else if op == 0xFA {
        4
    } else if op == 0xFB {
        1
    } else if op == 0xFC {
        1
    } else if op == 0xFD {
        1
    } else if op == 0xFE {
        2
    } else if op == 0xFF {
        4
    } else {
        1
    }
}
/// Whether an opcode is one of the eight RST instructions.
pub open spec fn is_rst_opcode(op: u8) -> bool {
    op >= 0xC7 && op % 8 == 7
}

/// The word at an address, low byte first, as the bus shows it.
pub open spec fn word_at(g: Gameboy, address: u16) -> u16 {
    (g.peek(((address + 1) % 65536) as u16) * 256 + g.peek(address)) as u16
}

/// The documented cost, in machine cycles, of a run of instructions, each
/// given as its opcode, the flag byte it starts with and its 0xCB operand.
pub open spec fn total_machine_cycles(steps: Seq<(u8, u8, u8)>) -> int
    decreases steps.len(),
{
    if steps.len() == 0 {
        0
    } else {
        total_machine_cycles(steps.drop_last()) + machine_cycles(steps.last().0, steps.last().1, steps.last().2)
    }
}

/// Over a run of instructions, each of which advances the T-cycle counter
/// by four times its documented machine cycles (as `execute` does), the
/// counter advances by four times the documented sum.
pub proof fn lemma_run_cycles(steps: Seq<(u8, u8, u8)>, counters: Seq<int>)
    requires
        counters.len() == steps.len() + 1,
        forall|i: int|
            0 <= i < steps.len() ==> counters[i + 1] == counters[i] + 4 * #[trigger] machine_cycles(
                steps[i].0,
                steps[i].1,
                steps[i].2,
            ),
    ensures
        counters.last() - counters[0] == 4 * total_machine_cycles(steps),
    decreases steps.len(),
{
    if steps.len() > 0 {
        let n = steps.len() - 1;
        let s2 = steps.drop_last();
        let c2 = counters.drop_last();
        assert forall|i: int| 0 <= i < s2.len() implies c2[i + 1] == c2[i] + 4 * #[trigger] machine_cycles(
            s2[i].0,
            s2[i].1,
            s2[i].2,
        ) by {
            assert(s2[i] == steps[i]);
        }
        lemma_run_cycles(s2, c2);
        assert(counters[n + 1] == counters[n] + 4 * machine_cycles(steps[n].0, steps[n].1, steps[n].2));
    }
}

impl Gameboy {
    /// Reads the byte at PC and moves PC past it.
    fn read_next(&mut self) -> (r: u8)
        requires
            old(self).wf(),
        ensures
            final(self).wf(),
            final(self).cpu.registers == (Registers { pc: ((old(self).cpu.registers.pc + 1) % 65536) as u16, ..old(self).cpu.registers }),
            *final(self) == (Gameboy { cpu: CPU { registers: final(self).cpu.registers, ..old(self).cpu }, ..*old(self) }),
            !old(self).dma_blocks(old(self).cpu.registers.pc) ==> r == old(self).peek(old(self).cpu.registers.pc),
    {
        let pc = self.cpu.registers.pc;
        let v = self.read_byte_cpu(pc);
        self.cpu.registers.pc = pc.wrapping_add(1);
        v
    }

    /// Pushes a word: an internal delay, then the high and the low byte, one
    /// machine cycle each.
    fn push(&mut self, value: u16)
        requires
            old(self).wf(),
            old(self).cpu.cycle_counter <= CYCLE_LIMIT + 1024,
        ensures
            plain_ram(((old(self).cpu.registers.sp + 65535) % 65536) as u16) && old(self).steady(((old(self).cpu.registers.sp + 65535) % 65536) as u16) ==> final(self).peek(((old(self).cpu.registers.sp + 65535) % 65536) as u16) == (value) / 256,
            plain_ram(((old(self).cpu.registers.sp + 65534) % 65536) as u16) && old(self).steady(((old(self).cpu.registers.sp + 65534) % 65536) as u16) ==> final(self).peek(((old(self).cpu.registers.sp + 65534) % 65536) as u16) == (value) % 256,
            final(self).wf(),
            final(self).cpu.cycle_counter == old(self).cpu.cycle_counter + 12,
            final(self).cpu.registers == (Registers { sp: ((old(self).cpu.registers.sp + 65534) % 65536) as u16, ..old(self).cpu.registers }),
            final(self).cpu.ime == old(self).cpu.ime,
            final(self).cpu.next_ime_state == old(self).cpu.next_ime_state,
            final(self).debugger == old(self).debugger,
            final(self).cart.rom == old(self).cart.rom,
    {
        self.emulate_hardware();
        let sp = self.cpu.registers.sp;
        let high_at = sp.wrapping_sub(1);
        let low_at = sp.wrapping_sub(2);
        self.write_byte_cpu(high_at, (value / 256) as u8);
        self.emulate_hardware();
        let ghost after_high = self.peek(high_at);
        assert(ram_cell(high_at) != ram_cell(low_at));
        self.write_byte_cpu(low_at, (value % 256) as u8);
        assert(plain_ram(high_at) ==> self.peek(high_at) == after_high);
        self.emulate_hardware();
        self.cpu.registers.sp = sp.wrapping_sub(2);
    }

    /// Pops a word: the low and the high byte, one machine cycle each.
    fn pop(&mut self) -> (r: u16)
        requires
            old(self).wf(),
            old(self).cpu.cycle_counter <= CYCLE_LIMIT + 1024,
        ensures
            old(self).steady(old(self).cpu.registers.sp) && old(self).steady(((old(self).cpu.registers.sp + 1) % 65536) as u16) ==> r == word_at(*old(self), old(self).cpu.registers.sp),
            final(self).wf(),
            final(self).cpu.cycle_counter == old(self).cpu.cycle_counter + 8,
            final(self).cpu.registers == (Registers { sp: ((old(self).cpu.registers.sp + 2) % 65536) as u16, ..old(self).cpu.registers }),
            final(self).cpu.ime == old(self).cpu.ime,
            final(self).cpu.next_ime_state == old(self).cpu.next_ime_state,
            final(self).debugger == old(self).debugger,
            final(self).cart.rom == old(self).cart.rom,
    {
        let sp = self.cpu.registers.sp;
        let low = self.read_byte_cpu(sp);
        self.emulate_hardware();
        let high = self.read_byte_cpu(sp.wrapping_add(1));
        self.emulate_hardware();
        self.cpu.registers.sp = sp.wrapping_add(2);
        high as u16 * 256 + low as u16
    }

    /// Returns: pops PC over three machine cycles.
    fn _ret(&mut self)
        requires
            old(self).wf(),
            old(self).cpu.cycle_counter <= CYCLE_LIMIT + 1024,
        ensures
            old(self).steady(old(self).cpu.registers.sp) && old(self).steady(((old(self).cpu.registers.sp + 1) % 65536) as u16) ==> final(self).cpu.registers.pc == word_at(*old(self), old(self).cpu.registers.sp),
            final(self).wf(),
            final(self).cpu.cycle_counter == old(self).cpu.cycle_counter + 12,
            final(self).cpu.registers.sp == (old(self).cpu.registers.sp + 2) % 65536,
            final(self).cpu.registers.f == old(self).cpu.registers.f,
            final(self).cpu.ime == old(self).cpu.ime,
            final(self).cpu.next_ime_state == old(self).cpu.next_ime_state,
            final(self).debugger == old(self).debugger,
            final(self).cart.rom == old(self).cart.rom,
    {
        let addr = self.pop();
        self.emulate_hardware();
        self.cpu.registers.pc = addr;
    }

    /// Reads an 8-bit register; the byte at HL costs a machine cycle.
    fn get_register(&mut self, reg: Register) -> (r: u8)
        requires
            old(self).wf(),
            old(self).cpu.cycle_counter <= CYCLE_LIMIT + 1024,
        ensures
            !old(self).oam_dma_state.active ==> final(self).oam_dma_state == old(self).oam_dma_state,
            final(self).wram == old(self).wram && final(self).cpu.hram == old(self).cpu.hram,
            final(self).cart == old(self).cart,
            reg == Register::AT_HL && old(self).steady(old(self).cpu.registers.pair(RegisterPair::HL)) ==> r == old(self).peek(old(self).cpu.registers.pair(RegisterPair::HL)),
            final(self).wf(),
            reg != Register::AT_HL ==> r == reg_value(old(self).cpu.registers, reg) && *final(self) == *old(self),
            reg == Register::AT_HL ==> final(self).cpu.cycle_counter == old(self).cpu.cycle_counter + 4,
            final(self).cpu.registers == old(self).cpu.registers,
            final(self).cpu.ime == old(self).cpu.ime,
            final(self).cpu.next_ime_state == old(self).cpu.next_ime_state,
            final(self).debugger == old(self).debugger,
            final(self).cart.rom == old(self).cart.rom,
    {
        match reg {
            Register::B => self.cpu.registers.b,
            Register::C => self.cpu.registers.c,
            Register::D => self.cpu.registers.d,
            Register::E => self.cpu.registers.e,
            Register::H => self.cpu.registers.h,
            Register::L => self.cpu.registers.l,
            Register::AT_HL => {
                let hl = self.cpu.registers.get_register_pair(RegisterPair::HL);
                let v = self.read_byte_cpu(hl);
                self.emulate_hardware();
                v
            },
            Register::A => self.cpu.registers.a,
            Register::F => self.cpu.registers.f,
        }
    }

    /// Writes an 8-bit register; the byte at HL costs a machine cycle.
    fn set_register(&mut self, reg: Register, val: u8)
        requires
            old(self).wf(),
            old(self).cpu.cycle_counter <= CYCLE_LIMIT + 1024,
        ensures
            reg == Register::AT_HL && plain_ram(old(self).cpu.registers.pair(RegisterPair::HL)) && old(self).steady(old(self).cpu.registers.pair(RegisterPair::HL))
                ==> final(self).peek(old(self).cpu.registers.pair(RegisterPair::HL)) == val,
            reg != Register::AT_HL ==> *final(self) == (Gameboy { cpu: CPU { registers: final(self).cpu.registers, ..old(self).cpu }, ..*old(self) }),
            final(self).wf(),
            reg != Register::AT_HL ==> final(self).cpu.registers == with_register(old(self).cpu.registers, reg, val)
                && final(self).cpu.cycle_counter == old(self).cpu.cycle_counter,
            reg == Register::AT_HL ==> final(self).cpu.registers == old(self).cpu.registers
                && final(self).cpu.cycle_counter == old(self).cpu.cycle_counter + 4,
            final(self).cpu.ime == old(self).cpu.ime,
            final(self).cpu.next_ime_state == old(self).cpu.next_ime_state,
            final(self).debugger == old(self).debugger,
            final(self).cart.rom == old(self).cart.rom,
    {
        match reg {
            Register::B => self.cpu.registers.b = val,
            Register::C => self.cpu.registers.c = val,
            Register::D => self.cpu.registers.d = val,
            Register::E => self.cpu.registers.e = val,
            Register::H => self.cpu.registers.h = val,
            Register::L => self.cpu.registers.l = val,
            Register::AT_HL => {
                let hl = self.cpu.registers.get_register_pair(RegisterPair::HL);
                self.write_byte_cpu(hl, val);
                self.emulate_hardware();
            },
            Register::A => self.cpu.registers.a = val,
            Register::F => self.cpu.registers.f = val,
        }
    }

    /// Moves PC by a signed byte.
    fn jr(&mut self, offset: u8)
        requires
            old(self).wf(),
        ensures
            final(self).wf(),
            final(self).cpu.registers == (Registers { pc: relative(old(self).cpu.registers.pc, offset), ..old(self).cpu.registers }),
            *final(self) == (Gameboy { cpu: CPU { registers: final(self).cpu.registers, ..old(self).cpu }, ..*old(self) }),
    {
        let pc = self.cpu.registers.pc;
        if offset < 128 {
            self.cpu.registers.pc = pc.wrapping_add(offset as u16);
        } else {
            self.cpu.registers.pc = pc.wrapping_sub(256 - offset as u16);
        }
    }

    /// NOP: does nothing for one machine cycle.
    pub fn nop(&mut self)
        requires
            old(self).wf(),
            old(self).cpu.cycle_counter <= CYCLE_LIMIT + 512,
        ensures
            final(self).wf(),
            final(self).cpu.cycle_counter == old(self).cpu.cycle_counter + 4 * (0),
            final(self).debugger == old(self).debugger,
            final(self).cart.rom == old(self).cart.rom,
            final(self).cpu.registers == old(self).cpu.registers,
            final(self).cpu.ime == old(self).cpu.ime,
            final(self).cpu.next_ime_state == old(self).cpu.next_ime_state,
    {

    }

    /// LD BC, d16: loads the two bytes that follow, low byte first.
    pub fn ld_bc_d16(&mut self)
        requires
            old(self).wf(),
            old(self).cpu.cycle_counter <= CYCLE_LIMIT + 512,
        ensures
            old(self).steady(old(self).cpu.registers.pc) && old(self).steady(((old(self).cpu.registers.pc + 1) % 65536) as u16) ==> final(self).cpu.registers.pair(RegisterPair::BC) == word_at(*old(self), old(self).cpu.registers.pc),
            final(self).wf(),
            final(self).cpu.cycle_counter == old(self).cpu.cycle_counter + 4 * (2),
            final(self).debugger == old(self).debugger,
            final(self).cart.rom == old(self).cart.rom,
            final(self).cpu.registers.pc == (old(self).cpu.registers.pc + 2) % 65536,
            final(self).cpu.registers.a == old(self).cpu.registers.a && final(self).cpu.registers.f == old(self).cpu.registers.f,
            final(self).cpu.ime == old(self).cpu.ime,
            final(self).cpu.next_ime_state == old(self).cpu.next_ime_state,
    {
        let low = self.read_next();
        self.emulate_hardware();
        let high = self.read_next();
        self.emulate_hardware();
        self.cpu.registers.b = high;
        self.cpu.registers.c = low;
    }

    /// LD DE, d16: loads the two bytes that follow, low byte first.
    pub fn ld_de_d16(&mut self)
        requires
            old(self).wf(),
            old(self).cpu.cycle_counter <= CYCLE_LIMIT + 512,
        ensures
            old(self).steady(old(self).cpu.registers.pc) && old(self).steady(((old(self).cpu.registers.pc + 1) % 65536) as u16) ==> final(self).cpu.registers.pair(RegisterPair::DE) == word_at(*old(self), old(self).cpu.registers.pc),
            final(self).wf(),
            final(self).cpu.cycle_counter == old(self).cpu.cycle_counter + 4 * (2),
            final(self).debugger == old(self).debugger,
            final(self).cart.rom == old(self).cart.rom,
            final(self).cpu.registers.pc == (old(self).cpu.registers.pc + 2) % 65536,
            final(self).cpu.registers.a == old(self).cpu.registers.a && final(self).cpu.registers.f == old(self).cpu.registers.f,
            final(self).cpu.ime == old(self).cpu.ime,
            final(self).cpu.next_ime_state == old(self).cpu.next_ime_state,
    {
        let low = self.read_next();
        self.emulate_hardware();
        let high = self.read_next();
        self.emulate_hardware();
        self.cpu.registers.d = high;
        self.cpu.registers.e = low;
    }

    /// LD HL, d16: loads the two bytes that follow, low byte first.
    pub fn ld_hl_d16(&mut self)
        requires
            old(self).wf(),
            old(self).cpu.cycle_counter <= CYCLE_LIMIT + 512,
        ensures
            old(self).steady(old(self).cpu.registers.pc) && old(self).steady(((old(self).cpu.registers.pc + 1) % 65536) as u16) ==> final(self).cpu.registers.pair(RegisterPair::HL) == word_at(*old(self), old(self).cpu.registers.pc),
            final(self).wf(),
            final(self).cpu.cycle_counter == old(self).cpu.cycle_counter + 4 * (2),
            final(self).debugger == old(self).debugger,
            final(self).cart.rom == old(self).cart.rom,
            final(self).cpu.registers.pc == (old(self).cpu.registers.pc + 2) % 65536,
            final(self).cpu.registers.a == old(self).cpu.registers.a && final(self).cpu.registers.f == old(self).cpu.registers.f,
            final(self).cpu.ime == old(self).cpu.ime,
            final(self).cpu.next_ime_state == old(self).cpu.next_ime_state,
    {
        let low = self.read_next();
        self.emulate_hardware();
        let high = self.read_next();
        self.emulate_hardware();
        self.cpu.registers.h = high;
        self.cpu.registers.l = low;
    }

    /// LD SP, d16.
    pub fn ld_sp_d16(&mut self)
        requires
            old(self).wf(),
            old(self).cpu.cycle_counter <= CYCLE_LIMIT + 512,
        ensures
            old(self).steady(old(self).cpu.registers.pc) && old(self).steady(((old(self).cpu.registers.pc + 1) % 65536) as u16) ==> final(self).cpu.registers.sp == word_at(*old(self), old(self).cpu.registers.pc),
            final(self).wf(),
            final(self).cpu.cycle_counter == old(self).cpu.cycle_counter + 4 * (2),
            final(self).debugger == old(self).debugger,
            final(self).cart.rom == old(self).cart.rom,
            final(self).cpu.registers.pc == (old(self).cpu.registers.pc + 2) % 65536,
            final(self).cpu.ime == old(self).cpu.ime,
            final(self).cpu.next_ime_state == old(self).cpu.next_ime_state,
    {
        let low = self.read_next();
        self.emulate_hardware();
        let high = self.read_next();
        self.emulate_hardware();
        self.cpu.registers.sp = high as u16 * 256 + low as u16;
    }

    /// LD (BC), A.
    pub fn ld_at_bc_a(&mut self)
        requires
            old(self).wf(),
            old(self).cpu.cycle_counter <= CYCLE_LIMIT + 512,
        ensures
            plain_ram(old(self).cpu.registers.pair(RegisterPair::BC)) && old(self).steady(old(self).cpu.registers.pair(RegisterPair::BC)) ==> final(self).peek(old(self).cpu.registers.pair(RegisterPair::BC)) == old(self).cpu.registers.a,
            final(self).wf(),
            final(self).cpu.cycle_counter == old(self).cpu.cycle_counter + 4 * (1),
            final(self).debugger == old(self).debugger,
            final(self).cart.rom == old(self).cart.rom,
            final(self).cpu.registers == old(self).cpu.registers,
            final(self).cpu.ime == old(self).cpu.ime,
            final(self).cpu.next_ime_state == old(self).cpu.next_ime_state,
    {
        let addr = self.cpu.registers.get_register_pair(RegisterPair::BC);
        let a = self.cpu.registers.a;
        self.write_byte_cpu(addr, a);
        self.emulate_hardware();
    }

    /// LD A, (BC).
    pub fn ld_a_at_bc(&mut self)
        requires
            old(self).wf(),
            old(self).cpu.cycle_counter <= CYCLE_LIMIT + 512,
        ensures
            final(self).wf(),
            final(self).cpu.cycle_counter == old(self).cpu.cycle_counter + 4 * (1),
            final(self).debugger == old(self).debugger,
            final(self).cart.rom == old(self).cart.rom,
            final(self).cpu.ime == old(self).cpu.ime,
            final(self).cpu.next_ime_state == old(self).cpu.next_ime_state,
    {
        let addr = self.cpu.registers.get_register_pair(RegisterPair::BC);
        self.cpu.registers.a = self.read_byte_cpu(addr);
        self.emulate_hardware();
    }

    /// LD (DE), A.
    pub fn ld_at_de_a(&mut self)
        requires
            old(self).wf(),
            old(self).cpu.cycle_counter <= CYCLE_LIMIT + 512,
        ensures
            plain_ram(old(self).cpu.registers.pair(RegisterPair::DE)) && old(self).steady(old(self).cpu.registers.pair(RegisterPair::DE)) ==> final(self).peek(old(self).cpu.registers.pair(RegisterPair::DE)) == old(self).cpu.registers.a,
            final(self).wf(),
            final(self).cpu.cycle_counter == old(self).cpu.cycle_counter + 4 * (1),
            final(self).debugger == old(self).debugger,
            final(self).cart.rom == old(self).cart.rom,
            final(self).cpu.registers == old(self).cpu.registers,
            final(self).cpu.ime == old(self).cpu.ime,
            final(self).cpu.next_ime_state == old(self).cpu.next_ime_state,
    {
        let addr = self.cpu.registers.get_register_pair(RegisterPair::DE);
        let a = self.cpu.registers.a;
        self.write_byte_cpu(addr, a);
        self.emulate_hardware();
    }

    /// LD A, (DE).
    pub fn ld_a_at_de(&mut self)
        requires
            old(self).wf(),
            old(self).cpu.cycle_counter <= CYCLE_LIMIT + 512,
        ensures
            final(self).wf(),
            final(self).cpu.cycle_counter == old(self).cpu.cycle_counter + 4 * (1),
            final(self).debugger == old(self).debugger,
            final(self).cart.rom == old(self).cart.rom,
            final(self).cpu.ime == old(self).cpu.ime,
            final(self).cpu.next_ime_state == old(self).cpu.next_ime_state,
    {
        let addr = self.cpu.registers.get_register_pair(RegisterPair::DE);
        self.cpu.registers.a = self.read_byte_cpu(addr);
        self.emulate_hardware();
    }

    /// INC rr: an internal delay, then the pair plus one, wrapping.
    pub fn inc_r16(&mut self, reg: RegisterPair)
        requires
            old(self).wf(),
            old(self).cpu.cycle_counter <= CYCLE_LIMIT + 512,
        ensures
            final(self).wf(),
            final(self).cpu.cycle_counter == old(self).cpu.cycle_counter + 4 * (1),
            final(self).debugger == old(self).debugger,
            final(self).cart.rom == old(self).cart.rom,
            final(self).cpu.registers == (old(self).cpu.registers.with_pair(reg, ((old(self).cpu.registers.pair(reg) + 1) % 65536) as u16)),
            final(self).cpu.ime == old(self).cpu.ime,
            final(self).cpu.next_ime_state == old(self).cpu.next_ime_state,
    {
        self.emulate_hardware();
        let v = self.cpu.registers.get_register_pair(reg);
        self.cpu.registers.set_register_pair(reg, v.wrapping_add(1));
    }

    /// DEC rr: an internal delay, then the pair minus one, wrapping.
    pub fn dec_r16(&mut self, reg: RegisterPair)
        requires
            old(self).wf(),
            old(self).cpu.cycle_counter <= CYCLE_LIMIT + 512,
        ensures
            final(self).wf(),
            final(self).cpu.cycle_counter == old(self).cpu.cycle_counter + 4 * (1),
            final(self).debugger == old(self).debugger,
            final(self).cart.rom == old(self).cart.rom,
            final(self).cpu.registers == (old(self).cpu.registers.with_pair(reg, ((old(self).cpu.registers.pair(reg) + 65535) % 65536) as u16)),
            final(self).cpu.ime == old(self).cpu.ime,
            final(self).cpu.next_ime_state == old(self).cpu.next_ime_state,
    {
        self.emulate_hardware();
        let v = self.cpu.registers.get_register_pair(reg);
        self.cpu.registers.set_register_pair(reg, v.wrapping_sub(1));
    }

    /// INC r: Z 0 H, the carry kept; the byte at HL costs two more cycles.
    pub fn inc_r8(&mut self, reg: Register)
        requires
            old(self).wf(),
            old(self).cpu.cycle_counter <= CYCLE_LIMIT + 512,
        ensures
            reg == Register::AT_HL && plain_ram(old(self).cpu.registers.pair(RegisterPair::HL)) && old(self).steady(old(self).cpu.registers.pair(RegisterPair::HL)) ==> ({
                let v = old(self).peek(old(self).cpu.registers.pair(RegisterPair::HL));
                let r = ((v + 1) % 256) as u8;
                &&& final(self).peek(old(self).cpu.registers.pair(RegisterPair::HL)) == r
                &&& final(self).cpu.registers.f == flags_of(r == 0, false, v % 16 == 15, carry_of(old(self).cpu.registers.f))
            }),
            final(self).wf(),
            final(self).cpu.cycle_counter == old(self).cpu.cycle_counter + 4 * (if reg == Register::AT_HL { 2int } else { 0 }),
            final(self).debugger == old(self).debugger,
            final(self).cart.rom == old(self).cart.rom,
            final(self).cpu.ime == old(self).cpu.ime,
            final(self).cpu.next_ime_state == old(self).cpu.next_ime_state,
            reg != Register::AT_HL && reg != Register::F ==> ({
                let v = reg_value(old(self).cpu.registers, reg);
                let r = ((v + 1) % 256) as u8;
                &&& reg_value(final(self).cpu.registers, reg) == r
                &&& final(self).cpu.registers.f == flags_of(r == 0, false, v % 16 == 15, carry_of(old(self).cpu.registers.f))
                &&& final(self).cpu.registers.pc == old(self).cpu.registers.pc
            }),
    {
        let v = self.get_register(reg);
        let mut f = self.cpu.registers.f;
        let r = crate::alu::inc(v, &mut f);
        self.cpu.registers.f = f;
        self.set_register(reg, r);
    }

    /// DEC r: Z 1 H, the carry kept; the byte at HL costs two more cycles.
    pub fn dec_r8(&mut self, reg: Register)
        requires
            old(self).wf(),
            old(self).cpu.cycle_counter <= CYCLE_LIMIT + 512,
        ensures
            reg == Register::AT_HL && plain_ram(old(self).cpu.registers.pair(RegisterPair::HL)) && old(self).steady(old(self).cpu.registers.pair(RegisterPair::HL)) ==> ({
                let v = old(self).peek(old(self).cpu.registers.pair(RegisterPair::HL));
                let r = ((v + 255) % 256) as u8;
                &&& final(self).peek(old(self).cpu.registers.pair(RegisterPair::HL)) == r
                &&& final(self).cpu.registers.f == flags_of(r == 0, true, v % 16 == 0, carry_of(old(self).cpu.registers.f))
            }),
            final(self).wf(),
            final(self).cpu.cycle_counter == old(self).cpu.cycle_counter + 4 * (if reg == Register::AT_HL { 2int } else { 0 }),
            final(self).debugger == old(self).debugger,
            final(self).cart.rom == old(self).cart.rom,
            final(self).cpu.ime == old(self).cpu.ime,
            final(self).cpu.next_ime_state == old(self).cpu.next_ime_state,
            reg != Register::AT_HL && reg != Register::F ==> ({
                let v = reg_value(old(self).cpu.registers, reg);
                let r = ((v + 255) % 256) as u8;
                &&& reg_value(final(self).cpu.registers, reg) == r
                &&& final(self).cpu.registers.f == flags_of(r == 0, true, v % 16 == 0, carry_of(old(self).cpu.registers.f))
                &&& final(self).cpu.registers.pc == old(self).cpu.registers.pc
            }),
    {
        let v = self.get_register(reg);
        let mut f = self.cpu.registers.f;
        let r = crate::alu::dec(v, &mut f);
        self.cpu.registers.f = f;
        self.set_register(reg, r);
    }

    /// LD r, d8: the byte that follows; the byte at HL costs one more cycle.
    pub fn ld_r8_d8(&mut self, reg: Register)
        requires
            old(self).wf(),
            old(self).cpu.cycle_counter <= CYCLE_LIMIT + 512,
        ensures
            final(self).wf(),
            final(self).cpu.cycle_counter == old(self).cpu.cycle_counter + 4 * (if reg == Register::AT_HL { 2int } else { 1 }),
            final(self).debugger == old(self).debugger,
            final(self).cart.rom == old(self).cart.rom,
            final(self).cpu.registers.pc == (old(self).cpu.registers.pc + 1) % 65536,
            final(self).cpu.ime == old(self).cpu.ime,
            final(self).cpu.next_ime_state == old(self).cpu.next_ime_state,
    {
        let imm = self.read_next();
        self.set_register(reg, imm);
        self.emulate_hardware();
    }

    /// POP rr; popping into AF keeps only the high nibble of F.
    pub fn pop_r16(&mut self, reg: RegisterPair)
        requires
            old(self).wf(),
            old(self).cpu.cycle_counter <= CYCLE_LIMIT + 512,
        ensures
            old(self).steady(old(self).cpu.registers.sp) && old(self).steady(((old(self).cpu.registers.sp + 1) % 65536) as u16) ==> final(self).cpu.registers == (Registers { sp: ((old(self).cpu.registers.sp + 2) % 65536) as u16, ..old(self).cpu.registers }).with_pair(reg, word_at(*old(self), old(self).cpu.registers.sp)),
            final(self).wf(),
            final(self).cpu.cycle_counter == old(self).cpu.cycle_counter + 4 * (2),
            final(self).debugger == old(self).debugger,
            final(self).cart.rom == old(self).cart.rom,
            final(self).cpu.ime == old(self).cpu.ime,
            final(self).cpu.next_ime_state == old(self).cpu.next_ime_state,
    {
        let v = self.pop();
        self.cpu.registers.set_register_pair(reg, v);
    }

    /// POP AF: F keeps only its high nibble.
    pub fn pop_af(&mut self)
        requires
            old(self).wf(),
            old(self).cpu.cycle_counter <= CYCLE_LIMIT + 512,
        ensures
            old(self).steady(old(self).cpu.registers.sp) && old(self).steady(((old(self).cpu.registers.sp + 1) % 65536) as u16) ==> final(self).cpu.registers == (Registers { sp: ((old(self).cpu.registers.sp + 2) % 65536) as u16, ..old(self).cpu.registers }).with_pair(RegisterPair::AF, word_at(*old(self), old(self).cpu.registers.sp)),
            final(self).wf(),
            final(self).cpu.cycle_counter == old(self).cpu.cycle_counter + 4 * (2),
            final(self).debugger == old(self).debugger,
            final(self).cart.rom == old(self).cart.rom,
            final(self).cpu.registers.f % 16 == 0,
            final(self).cpu.ime == old(self).cpu.ime,
            final(self).cpu.next_ime_state == old(self).cpu.next_ime_state,
    {
        let v = self.pop();
        self.cpu.registers.set_register_pair(RegisterPair::AF, v);
    }

    /// PUSH rr.
    pub fn push_r16(&mut self, reg: RegisterPair)
        requires
            old(self).wf(),
            old(self).cpu.cycle_counter <= CYCLE_LIMIT + 512,
        ensures
            plain_ram(((old(self).cpu.registers.sp + 65535) % 65536) as u16) && old(self).steady(((old(self).cpu.registers.sp + 65535) % 65536) as u16) ==> final(self).peek(((old(self).cpu.registers.sp + 65535) % 65536) as u16) == (old(self).cpu.registers.pair(reg)) / 256,
            plain_ram(((old(self).cpu.registers.sp + 65534) % 65536) as u16) && old(self).steady(((old(self).cpu.registers.sp + 65534) % 65536) as u16) ==> final(self).peek(((old(self).cpu.registers.sp + 65534) % 65536) as u16) == (old(self).cpu.registers.pair(reg)) % 256,
            final(self).wf(),
            final(self).cpu.cycle_counter == old(self).cpu.cycle_counter + 4 * (3),
            final(self).debugger == old(self).debugger,
            final(self).cart.rom == old(self).cart.rom,
            final(self).cpu.registers == (Registers { sp: ((old(self).cpu.registers.sp + 65534) % 65536) as u16, ..old(self).cpu.registers }),
            final(self).cpu.ime == old(self).cpu.ime,
            final(self).cpu.next_ime_state == old(self).cpu.next_ime_state,
    {
        let v = self.cpu.registers.get_register_pair(reg);
        self.push(v);
    }

    /// ADD HL, rr: an internal delay; Z kept, N clear, H from bit 11, C from bit 15.
    pub fn add_hl_r16(&mut self, reg: RegisterPair)
        requires
            old(self).wf(),
            old(self).cpu.cycle_counter <= CYCLE_LIMIT + 512,
        ensures
            final(self).wf(),
            final(self).cpu.cycle_counter == old(self).cpu.cycle_counter + 4 * (1),
            final(self).debugger == old(self).debugger,
            final(self).cart.rom == old(self).cart.rom,
            final(self).cpu.registers.pair(RegisterPair::HL) == (old(self).cpu.registers.pair(RegisterPair::HL) + old(self).cpu.registers.pair(reg)) % 65536,
            final(self).cpu.registers.sp == old(self).cpu.registers.sp && final(self).cpu.registers.pc == old(self).cpu.registers.pc,
            final(self).cpu.ime == old(self).cpu.ime,
            final(self).cpu.next_ime_state == old(self).cpu.next_ime_state,
    {
        self.emulate_hardware();
        let hl = self.cpu.registers.get_register_pair(RegisterPair::HL);
        let other = self.cpu.registers.get_register_pair(reg);
        let mut f = self.cpu.registers.f;
        let r = crate::alu::add16(hl, other, &mut f);
        self.cpu.registers.f = f;
        self.cpu.registers.set_register_pair(RegisterPair::HL, r);
    }

    /// LD (a16), SP: SP's low byte at the address, its high byte after it.
    pub fn ld_at_a16_sp(&mut self)
        requires
            old(self).wf(),
            old(self).cpu.cycle_counter <= CYCLE_LIMIT + 512,
        ensures
            final(self).wf(),
            final(self).cpu.cycle_counter == old(self).cpu.cycle_counter + 4 * (4),
            final(self).debugger == old(self).debugger,
            final(self).cart.rom == old(self).cart.rom,
            final(self).cpu.registers.pc == (old(self).cpu.registers.pc + 2) % 65536,
            final(self).cpu.registers.sp == old(self).cpu.registers.sp,
            final(self).cpu.ime == old(self).cpu.ime,
            final(self).cpu.next_ime_state == old(self).cpu.next_ime_state,
    {
        let low = self.read_next();
        self.emulate_hardware();
        let high = self.read_next();
        self.emulate_hardware();
        let addr: u16 = high as u16 * 256 + low as u16;
        let sp = self.cpu.registers.sp;
        self.write_byte_cpu(addr, (sp % 256) as u8);
        self.emulate_hardware();
        self.write_byte_cpu(addr.wrapping_add(1), (sp / 256) as u8);
        self.emulate_hardware();
    }

    /// RLCA: RLC A with Z cleared.
    pub fn rlca(&mut self)
        requires
            old(self).wf(),
            old(self).cpu.cycle_counter <= CYCLE_LIMIT + 512,
        ensures
            final(self).wf(),
            final(self).cpu.cycle_counter == old(self).cpu.cycle_counter + 4 * (0),
            final(self).debugger == old(self).debugger,
            final(self).cart.rom == old(self).cart.rom,
            !zero_of(final(self).cpu.registers.f) && !sub_of(final(self).cpu.registers.f) && !half_of(final(self).cpu.registers.f),
            final(self).cpu.registers.pc == old(self).cpu.registers.pc,
            final(self).cpu.ime == old(self).cpu.ime,
            final(self).cpu.next_ime_state == old(self).cpu.next_ime_state,
    {
        let mut f = self.cpu.registers.f;
        let a = crate::alu::rlc(self.cpu.registers.a, &mut f);
        self.cpu.registers.a = a;
        self.cpu.registers.f = make_flags(false, false, false, carry_flag(f));
    }

    /// RRCA: RRC A with Z cleared.
    pub fn rrca(&mut self)
        requires
            old(self).wf(),
            old(self).cpu.cycle_counter <= CYCLE_LIMIT + 512,
        ensures
            final(self).wf(),
            final(self).cpu.cycle_counter == old(self).cpu.cycle_counter + 4 * (0),
            final(self).debugger == old(self).debugger,
            final(self).cart.rom == old(self).cart.rom,
            !zero_of(final(self).cpu.registers.f) && !sub_of(final(self).cpu.registers.f) && !half_of(final(self).cpu.registers.f),
            final(self).cpu.registers.pc == old(self).cpu.registers.pc,
            final(self).cpu.ime == old(self).cpu.ime,
            final(self).cpu.next_ime_state == old(self).cpu.next_ime_state,
    {
        let mut f = self.cpu.registers.f;
        let a = crate::alu::rrc(self.cpu.registers.a, &mut f);
        self.cpu.registers.a = a;
        self.cpu.registers.f = make_flags(false, false, false, carry_flag(f));
    }

    /// RLA: RL A with Z cleared.
    pub fn rla(&mut self)
        requires
            old(self).wf(),
            old(self).cpu.cycle_counter <= CYCLE_LIMIT + 512,
        ensures
            final(self).wf(),
            final(self).cpu.cycle_counter == old(self).cpu.cycle_counter + 4 * (0),
            final(self).debugger == old(self).debugger,
            final(self).cart.rom == old(self).cart.rom,
            !zero_of(final(self).cpu.registers.f) && !sub_of(final(self).cpu.registers.f) && !half_of(final(self).cpu.registers.f),
            final(self).cpu.registers.pc == old(self).cpu.registers.pc,
            final(self).cpu.ime == old(self).cpu.ime,
            final(self).cpu.next_ime_state == old(self).cpu.next_ime_state,
    {
        let mut f = self.cpu.registers.f;
        let a = crate::alu::rl(self.cpu.registers.a, &mut f);
        self.cpu.registers.a = a;
        self.cpu.registers.f = make_flags(false, false, false, carry_flag(f));
    }

    /// RRA: RR A with Z cleared.
    pub fn rra(&mut self)
        requires
            old(self).wf(),
            old(self).cpu.cycle_counter <= CYCLE_LIMIT + 512,
        ensures
            final(self).wf(),
            final(self).cpu.cycle_counter == old(self).cpu.cycle_counter + 4 * (0),
            final(self).debugger == old(self).debugger,
            final(self).cart.rom == old(self).cart.rom,
            !zero_of(final(self).cpu.registers.f) && !sub_of(final(self).cpu.registers.f) && !half_of(final(self).cpu.registers.f),
            final(self).cpu.registers.pc == old(self).cpu.registers.pc,
            final(self).cpu.ime == old(self).cpu.ime,
            final(self).cpu.next_ime_state == old(self).cpu.next_ime_state,
    {
        let mut f = self.cpu.registers.f;
        let a = crate::alu::rr(self.cpu.registers.a, &mut f);
        self.cpu.registers.a = a;
        self.cpu.registers.f = make_flags(false, false, false, carry_flag(f));
    }

    /// STOP: sets the stop flag.
    pub fn stop(&mut self)
        requires
            old(self).wf(),
            old(self).cpu.cycle_counter <= CYCLE_LIMIT + 512,
        ensures
            final(self).wf(),
            final(self).cpu.cycle_counter == old(self).cpu.cycle_counter + 4 * (0),
            final(self).debugger == old(self).debugger,
            final(self).cart.rom == old(self).cart.rom,
            final(self).cpu.registers == old(self).cpu.registers,
            final(self).cpu.ime == old(self).cpu.ime,
            final(self).cpu.next_ime_state == old(self).cpu.next_ime_state,
            final(self).cpu.stop,
    {
        self.cpu.stop = true;
    }

    /// HALT: the CPU sleeps until an interrupt is requested.
    pub fn halt(&mut self)
        requires
            old(self).wf(),
            old(self).cpu.cycle_counter <= CYCLE_LIMIT + 512,
        ensures
            final(self).wf(),
            final(self).cpu.cycle_counter == old(self).cpu.cycle_counter + 4 * (0),
            final(self).debugger == old(self).debugger,
            final(self).cart.rom == old(self).cart.rom,
            final(self).cpu.registers == old(self).cpu.registers,
            final(self).cpu.ime == old(self).cpu.ime,
            final(self).cpu.next_ime_state == old(self).cpu.next_ime_state,
            final(self).cpu.halt,
    {
        self.cpu.halt = true;
    }

    /// JR e: a signed jump, with an internal delay.
    pub fn jr_r8(&mut self)
        requires
            old(self).wf(),
            old(self).cpu.cycle_counter <= CYCLE_LIMIT + 512,
        ensures
            old(self).steady(old(self).cpu.registers.pc) ==> final(self).cpu.registers.pc == relative(((old(self).cpu.registers.pc + 1) % 65536) as u16, old(self).peek(old(self).cpu.registers.pc)),
            final(self).wf(),
            final(self).cpu.cycle_counter == old(self).cpu.cycle_counter + 4 * (2),
            final(self).debugger == old(self).debugger,
            final(self).cart.rom == old(self).cart.rom,
            final(self).cpu.ime == old(self).cpu.ime,
            final(self).cpu.next_ime_state == old(self).cpu.next_ime_state,
    {
        let offset = self.read_next();
        self.emulate_hardware();
        self.emulate_hardware();
        self.jr(offset);
    }

    /// JR NZ, e: three machine cycles when taken, two when not.
    pub fn jr_nz_r8(&mut self)
        requires
            old(self).wf(),
            old(self).cpu.cycle_counter <= CYCLE_LIMIT + 512,
        ensures
            old(self).steady(old(self).cpu.registers.pc) ==> final(self).cpu.registers.pc == (if holds(Conditional::NZ, old(self).cpu.registers.f) {
                relative(((old(self).cpu.registers.pc + 1) % 65536) as u16, old(self).peek(old(self).cpu.registers.pc))
            } else {
                ((old(self).cpu.registers.pc + 1) % 65536) as u16
            }),
            final(self).wf(),
            final(self).cpu.cycle_counter == old(self).cpu.cycle_counter + 4 * (if holds(Conditional::NZ, old(self).cpu.registers.f) { 2int } else { 1 }),
            final(self).debugger == old(self).debugger,
            final(self).cart.rom == old(self).cart.rom,
            final(self).cpu.ime == old(self).cpu.ime,
            final(self).cpu.next_ime_state == old(self).cpu.next_ime_state,
    {
        let offset = self.read_next();
        self.emulate_hardware();
        if check(Conditional::NZ, self.cpu.registers.f) {
            self.emulate_hardware();
            self.jr(offset);
        }
    }

    /// JR Z, e: three machine cycles when taken, two when not.
    pub fn jr_z_r8(&mut self)
        requires
            old(self).wf(),
            old(self).cpu.cycle_counter <= CYCLE_LIMIT + 512,
        ensures
            old(self).steady(old(self).cpu.registers.pc) ==> final(self).cpu.registers.pc == (if holds(Conditional::Z, old(self).cpu.registers.f) {
                relative(((old(self).cpu.registers.pc + 1) % 65536) as u16, old(self).peek(old(self).cpu.registers.pc))
            } else {
                ((old(self).cpu.registers.pc + 1) % 65536) as u16
            }),
            final(self).wf(),
            final(self).cpu.cycle_counter == old(self).cpu.cycle_counter + 4 * (if holds(Conditional::Z, old(self).cpu.registers.f) { 2int } else { 1 }),
            final(self).debugger == old(self).debugger,
            final(self).cart.rom == old(self).cart.rom,
            final(self).cpu.ime == old(self).cpu.ime,
            final(self).cpu.next_ime_state == old(self).cpu.next_ime_state,
    {
        let offset = self.read_next();
        self.emulate_hardware();
        if check(Conditional::Z, self.cpu.registers.f) {
            self.emulate_hardware();
            self.jr(offset);
        }
    }

    /// JR NC, e: three machine cycles when taken, two when not.
    pub fn jr_nc_r8(&mut self)
        requires
            old(self).wf(),
            old(self).cpu.cycle_counter <= CYCLE_LIMIT + 512,
        ensures
            old(self).steady(old(self).cpu.registers.pc) ==> final(self).cpu.registers.pc == (if holds(Conditional::NC, old(self).cpu.registers.f) {
                relative(((old(self).cpu.registers.pc + 1) % 65536) as u16, old(self).peek(old(self).cpu.registers.pc))
            } else {
                ((old(self).cpu.registers.pc + 1) % 65536) as u16
            }),
            final(self).wf(),
            final(self).cpu.cycle_counter == old(self).cpu.cycle_counter + 4 * (if holds(Conditional::NC, old(self).cpu.registers.f) { 2int } else { 1 }),
            final(self).debugger == old(self).debugger,
            final(self).cart.rom == old(self).cart.rom,
            final(self).cpu.ime == old(self).cpu.ime,
            final(self).cpu.next_ime_state == old(self).cpu.next_ime_state,
    {
        let offset = self.read_next();
        self.emulate_hardware();
        if check(Conditional::NC, self.cpu.registers.f) {
            self.emulate_hardware();
            self.jr(offset);
        }
    }

    /// JR C, e: three machine cycles when taken, two when not.
    pub fn jr_c_r8(&mut self)
        requires
            old(self).wf(),
            old(self).cpu.cycle_counter <= CYCLE_LIMIT + 512,
        ensures
            old(self).steady(old(self).cpu.registers.pc) ==> final(self).cpu.registers.pc == (if holds(Conditional::C, old(self).cpu.registers.f) {
                relative(((old(self).cpu.registers.pc + 1) % 65536) as u16, old(self).peek(old(self).cpu.registers.pc))
            } else {
                ((old(self).cpu.registers.pc + 1) % 65536) as u16
            }),
            final(self).wf(),
            final(self).cpu.cycle_counter == old(self).cpu.cycle_counter + 4 * (if holds(Conditional::C, old(self).cpu.registers.f) { 2int } else { 1 }),
            final(self).debugger == old(self).debugger,
            final(self).cart.rom == old(self).cart.rom,
            final(self).cpu.ime == old(self).cpu.ime,
            final(self).cpu.next_ime_state == old(self).cpu.next_ime_state,
    {
        let offset = self.read_next();
        self.emulate_hardware();
        if check(Conditional::C, self.cpu.registers.f) {
            self.emulate_hardware();
            self.jr(offset);
        }
    }

    /// LD (HL+), A.
    pub fn ldi_at_hl_a(&mut self)
        requires
            old(self).wf(),
            old(self).cpu.cycle_counter <= CYCLE_LIMIT + 512,
        ensures
            final(self).wf(),
            final(self).cpu.cycle_counter == old(self).cpu.cycle_counter + 4 * (1),
            final(self).debugger == old(self).debugger,
            final(self).cart.rom == old(self).cart.rom,
            final(self).cpu.registers == (old(self).cpu.registers.with_pair(RegisterPair::HL, ((old(self).cpu.registers.pair(RegisterPair::HL) + 1) % 65536) as u16)),
            final(self).cpu.ime == old(self).cpu.ime,
            final(self).cpu.next_ime_state == old(self).cpu.next_ime_state,
    {
        let hl = self.cpu.registers.get_register_pair(RegisterPair::HL);
        let a = self.cpu.registers.a;
        self.write_byte_cpu(hl, a);
        self.cpu.registers.set_register_pair(RegisterPair::HL, hl.wrapping_add(1));
        self.emulate_hardware();
    }

    /// LD (HL-), A.
    pub fn ldd_at_hl_a(&mut self)
        requires
            old(self).wf(),
            old(self).cpu.cycle_counter <= CYCLE_LIMIT + 512,
        ensures
            final(self).wf(),
            final(self).cpu.cycle_counter == old(self).cpu.cycle_counter + 4 * (1),
            final(self).debugger == old(self).debugger,
            final(self).cart.rom == old(self).cart.rom,
            final(self).cpu.registers == (old(self).cpu.registers.with_pair(RegisterPair::HL, ((old(self).cpu.registers.pair(RegisterPair::HL) + 65535) % 65536) as u16)),
            final(self).cpu.ime == old(self).cpu.ime,
            final(self).cpu.next_ime_state == old(self).cpu.next_ime_state,
    {
        let hl = self.cpu.registers.get_register_pair(RegisterPair::HL);
        let a = self.cpu.registers.a;
        self.write_byte_cpu(hl, a);
        self.cpu.registers.set_register_pair(RegisterPair::HL, hl.wrapping_sub(1));
        self.emulate_hardware();
    }

    /// LD A, (HL+).
    pub fn ldi_a_at_hl(&mut self)
        requires
            old(self).wf(),
            old(self).cpu.cycle_counter <= CYCLE_LIMIT + 512,
        ensures
            final(self).wf(),
            final(self).cpu.cycle_counter == old(self).cpu.cycle_counter + 4 * (1),
            final(self).debugger == old(self).debugger,
            final(self).cart.rom == old(self).cart.rom,
            final(self).cpu.registers.pair(RegisterPair::HL) == (old(self).cpu.registers.pair(RegisterPair::HL) + 1) % 65536,
            final(self).cpu.ime == old(self).cpu.ime,
            final(self).cpu.next_ime_state == old(self).cpu.next_ime_state,
    {
        let hl = self.cpu.registers.get_register_pair(RegisterPair::HL);
        let v = self.read_byte_cpu(hl);
        self.cpu.registers.a = v;
        self.cpu.registers.set_register_pair(RegisterPair::HL, hl.wrapping_add(1));
        self.emulate_hardware();
    }

    /// LD A, (HL-).
    pub fn ldd_a_at_hl(&mut self)
        requires
            old(self).wf(),
            old(self).cpu.cycle_counter <= CYCLE_LIMIT + 512,
        ensures
            final(self).wf(),
            final(self).cpu.cycle_counter == old(self).cpu.cycle_counter + 4 * (1),
            final(self).debugger == old(self).debugger,
            final(self).cart.rom == old(self).cart.rom,
            final(self).cpu.registers.pair(RegisterPair::HL) == (old(self).cpu.registers.pair(RegisterPair::HL) + 65535) % 65536,
            final(self).cpu.ime == old(self).cpu.ime,
            final(self).cpu.next_ime_state == old(self).cpu.next_ime_state,
    {
        let hl = self.cpu.registers.get_register_pair(RegisterPair::HL);
        let v = self.read_byte_cpu(hl);
        self.cpu.registers.a = v;
        self.cpu.registers.set_register_pair(RegisterPair::HL, hl.wrapping_sub(1));
        self.emulate_hardware();
    }

    /// DAA: decimal adjustment of A.
    pub fn daa(&mut self)
        requires
            old(self).wf(),
            old(self).cpu.cycle_counter <= CYCLE_LIMIT + 512,
        ensures
            final(self).cpu.registers.f == flags_of(daa_sum(old(self).cpu.registers.a, old(self).cpu.registers.f) % 256 == 0, sub_of(old(self).cpu.registers.f), false, carry_of(old(self).cpu.registers.f) || daa_sum(old(self).cpu.registers.a, old(self).cpu.registers.f) >= 256),
            final(self).wf(),
            final(self).cpu.cycle_counter == old(self).cpu.cycle_counter + 4 * (0),
            final(self).debugger == old(self).debugger,
            final(self).cart.rom == old(self).cart.rom,
            final(self).cpu.registers.a == daa_sum(old(self).cpu.registers.a, old(self).cpu.registers.f) % 256,
            final(self).cpu.registers.pc == old(self).cpu.registers.pc,
            final(self).cpu.ime == old(self).cpu.ime,
            final(self).cpu.next_ime_state == old(self).cpu.next_ime_state,
    {
        let mut f = self.cpu.registers.f;
        let a = crate::alu::daa(self.cpu.registers.a, &mut f);
        self.cpu.registers.a = a;
        self.cpu.registers.f = f;
    }

    /// CPL: complements A; sets N and H.
    pub fn cpl(&mut self)
        requires
            old(self).wf(),
            old(self).cpu.cycle_counter <= CYCLE_LIMIT + 512,
        ensures
            final(self).wf(),
            final(self).cpu.cycle_counter == old(self).cpu.cycle_counter + 4 * (0),
            final(self).debugger == old(self).debugger,
            final(self).cart.rom == old(self).cart.rom,
            final(self).cpu.registers == (Registers { a: (255 - old(self).cpu.registers.a) as u8, f: flags_of(zero_of(old(self).cpu.registers.f), true, true, carry_of(old(self).cpu.registers.f)), ..old(self).cpu.registers }),
            final(self).cpu.ime == old(self).cpu.ime,
            final(self).cpu.next_ime_state == old(self).cpu.next_ime_state,
    {
        self.cpu.registers.a = 255 - self.cpu.registers.a;
        let f = self.cpu.registers.f;
        self.cpu.registers.f = make_flags(zero_flag(f), true, true, carry_flag(f));
    }

    /// SCF: sets the carry; clears N and H.
    pub fn scf(&mut self)
        requires
            old(self).wf(),
            old(self).cpu.cycle_counter <= CYCLE_LIMIT + 512,
        ensures
            final(self).wf(),
            final(self).cpu.cycle_counter == old(self).cpu.cycle_counter + 4 * (0),
            final(self).debugger == old(self).debugger,
            final(self).cart.rom == old(self).cart.rom,
            final(self).cpu.registers == (Registers { f: flags_of(zero_of(old(self).cpu.registers.f), false, false, true), ..old(self).cpu.registers }),
            final(self).cpu.ime == old(self).cpu.ime,
            final(self).cpu.next_ime_state == old(self).cpu.next_ime_state,
    {
        let f = self.cpu.registers.f;
        self.cpu.registers.f = make_flags(zero_flag(f), false, false, true);
    }

    /// CCF: complements the carry; clears N and H.
    pub fn ccf(&mut self)
        requires
            old(self).wf(),
            old(self).cpu.cycle_counter <= CYCLE_LIMIT + 512,
        ensures
            final(self).wf(),
            final(self).cpu.cycle_counter == old(self).cpu.cycle_counter + 4 * (0),
            final(self).debugger == old(self).debugger,
            final(self).cart.rom == old(self).cart.rom,
            final(self).cpu.registers == (Registers { f: flags_of(zero_of(old(self).cpu.registers.f), false, false, !carry_of(old(self).cpu.registers.f)), ..old(self).cpu.registers }),
            final(self).cpu.ime == old(self).cpu.ime,
            final(self).cpu.next_ime_state == old(self).cpu.next_ime_state,
    {
        let f = self.cpu.registers.f;
        self.cpu.registers.f = make_flags(zero_flag(f), false, false, !carry_flag(f));
    }

    /// LD r, r': the source slot is in the low three bits of the opcode.
    pub fn ld_r_r(&mut self, dest: Register, opcode: u8)
        requires
            !(register_of(opcode) == Register::AT_HL && dest == Register::AT_HL),
            old(self).wf(),
            old(self).cpu.cycle_counter <= CYCLE_LIMIT + 512,
        ensures
            final(self).wf(),
            final(self).cpu.cycle_counter == old(self).cpu.cycle_counter + 4 * (if register_of(opcode) == Register::AT_HL || dest == Register::AT_HL { 1int } else { 0 }),
            final(self).debugger == old(self).debugger,
            final(self).cart.rom == old(self).cart.rom,
            register_of(opcode) != Register::AT_HL && dest != Register::AT_HL ==> final(self).cpu.registers == with_register(old(self).cpu.registers, dest, reg_value(old(self).cpu.registers, register_of(opcode))),
            final(self).cpu.ime == old(self).cpu.ime,
            final(self).cpu.next_ime_state == old(self).cpu.next_ime_state,
    {
        let src = map_register(opcode);
        let v = self.get_register(src);
        self.set_register(dest, v);
    }

    /// LD (HL), r.
    pub fn ld_at_hl_r8(&mut self, reg: Register)
        requires
            old(self).wf(),
            old(self).cpu.cycle_counter <= CYCLE_LIMIT + 512,
        ensures
            reg != Register::AT_HL && plain_ram(old(self).cpu.registers.pair(RegisterPair::HL)) && old(self).steady(old(self).cpu.registers.pair(RegisterPair::HL)) ==> final(self).peek(old(self).cpu.registers.pair(RegisterPair::HL)) == reg_value(old(self).cpu.registers, reg),
            final(self).wf(),
            final(self).cpu.cycle_counter == old(self).cpu.cycle_counter + 4 * (if reg == Register::AT_HL { 2int } else { 1 }),
            final(self).debugger == old(self).debugger,
            final(self).cart.rom == old(self).cart.rom,
            final(self).cpu.registers == old(self).cpu.registers,
            final(self).cpu.ime == old(self).cpu.ime,
            final(self).cpu.next_ime_state == old(self).cpu.next_ime_state,
    {
        let v = self.get_register(reg);
        let hl = self.cpu.registers.get_register_pair(RegisterPair::HL);
        self.write_byte_cpu(hl, v);
        self.emulate_hardware();
    }

    /// ADD A, r: the operand slot is in the low three bits of the opcode.
    pub fn add_a_r8(&mut self, opcode: u8)
        requires
            old(self).wf(),
            old(self).cpu.cycle_counter <= CYCLE_LIMIT + 512,
        ensures
            register_of(opcode) == Register::AT_HL && old(self).steady(old(self).cpu.registers.pair(RegisterPair::HL)) ==> (final(self).cpu.registers.a, final(self).cpu.registers.f)
                == alu_spec(0, old(self).cpu.registers.a, old(self).peek(old(self).cpu.registers.pair(RegisterPair::HL)), old(self).cpu.registers.f),
            final(self).wf(),
            final(self).cpu.cycle_counter == old(self).cpu.cycle_counter + 4 * (if register_of(opcode) == Register::AT_HL { 1int } else { 0 }),
            final(self).debugger == old(self).debugger,
            final(self).cart.rom == old(self).cart.rom,
            final(self).cpu.registers.pc == old(self).cpu.registers.pc && final(self).cpu.registers.sp == old(self).cpu.registers.sp,
            final(self).cpu.ime == old(self).cpu.ime,
            final(self).cpu.next_ime_state == old(self).cpu.next_ime_state,
            register_of(opcode) != Register::AT_HL ==> (final(self).cpu.registers.a, final(self).cpu.registers.f)
                == alu_spec(0, old(self).cpu.registers.a, reg_value(old(self).cpu.registers, register_of(opcode)), old(self).cpu.registers.f),
    {
        let v = self.get_register(map_register(opcode));
        let mut f = self.cpu.registers.f;
        let a = crate::alu::add(self.cpu.registers.a, v, &mut f);
        self.cpu.registers.a = a;
        self.cpu.registers.f = f;
    }

    /// ADC A, r: the operand slot is in the low three bits of the opcode.
    pub fn adc_a_r8(&mut self, opcode: u8)
        requires
            old(self).wf(),
            old(self).cpu.cycle_counter <= CYCLE_LIMIT + 512,
        ensures
            register_of(opcode) == Register::AT_HL && old(self).steady(old(self).cpu.registers.pair(RegisterPair::HL)) ==> (final(self).cpu.registers.a, final(self).cpu.registers.f)
                == alu_spec(1, old(self).cpu.registers.a, old(self).peek(old(self).cpu.registers.pair(RegisterPair::HL)), old(self).cpu.registers.f),
            final(self).wf(),
            final(self).cpu.cycle_counter == old(self).cpu.cycle_counter + 4 * (if register_of(opcode) == Register::AT_HL { 1int } else { 0 }),
            final(self).debugger == old(self).debugger,
            final(self).cart.rom == old(self).cart.rom,
            final(self).cpu.registers.pc == old(self).cpu.registers.pc && final(self).cpu.registers.sp == old(self).cpu.registers.sp,
            final(self).cpu.ime == old(self).cpu.ime,
            final(self).cpu.next_ime_state == old(self).cpu.next_ime_state,
            register_of(opcode) != Register::AT_HL ==> (final(self).cpu.registers.a, final(self).cpu.registers.f)
                == alu_spec(1, old(self).cpu.registers.a, reg_value(old(self).cpu.registers, register_of(opcode)), old(self).cpu.registers.f),
    {
        let v = self.get_register(map_register(opcode));
        let mut f = self.cpu.registers.f;
        let a = crate::alu::adc(self.cpu.registers.a, v, &mut f);
        self.cpu.registers.a = a;
        self.cpu.registers.f = f;
    }

    /// SUB A, r: the operand slot is in the low three bits of the opcode.
    pub fn sub_a_r8(&mut self, opcode: u8)
        requires
            old(self).wf(),
            old(self).cpu.cycle_counter <= CYCLE_LIMIT + 512,
        ensures
            register_of(opcode) == Register::AT_HL && old(self).steady(old(self).cpu.registers.pair(RegisterPair::HL)) ==> (final(self).cpu.registers.a, final(self).cpu.registers.f)
                == alu_spec(2, old(self).cpu.registers.a, old(self).peek(old(self).cpu.registers.pair(RegisterPair::HL)), old(self).cpu.registers.f),
            final(self).wf(),
            final(self).cpu.cycle_counter == old(self).cpu.cycle_counter + 4 * (if register_of(opcode) == Register::AT_HL { 1int } else { 0 }),
            final(self).debugger == old(self).debugger,
            final(self).cart.rom == old(self).cart.rom,
            final(self).cpu.registers.pc == old(self).cpu.registers.pc && final(self).cpu.registers.sp == old(self).cpu.registers.sp,
            final(self).cpu.ime == old(self).cpu.ime,
            final(self).cpu.next_ime_state == old(self).cpu.next_ime_state,
            register_of(opcode) != Register::AT_HL ==> (final(self).cpu.registers.a, final(self).cpu.registers.f)
                == alu_spec(2, old(self).cpu.registers.a, reg_value(old(self).cpu.registers, register_of(opcode)), old(self).cpu.registers.f),
    {
        let v = self.get_register(map_register(opcode));
        let mut f = self.cpu.registers.f;
        let a = crate::alu::sub(self.cpu.registers.a, v, &mut f);
        self.cpu.registers.a = a;
        self.cpu.registers.f = f;
    }

    /// SBC A, r: the operand slot is in the low three bits of the opcode.
    pub fn sbc_a_r8(&mut self, opcode: u8)
        requires
            old(self).wf(),
            old(self).cpu.cycle_counter <= CYCLE_LIMIT + 512,
        ensures
            register_of(opcode) == Register::AT_HL && old(self).steady(old(self).cpu.registers.pair(RegisterPair::HL)) ==> (final(self).cpu.registers.a, final(self).cpu.registers.f)
                == alu_spec(3, old(self).cpu.registers.a, old(self).peek(old(self).cpu.registers.pair(RegisterPair::HL)), old(self).cpu.registers.f),
            final(self).wf(),
            final(self).cpu.cycle_counter == old(self).cpu.cycle_counter + 4 * (if register_of(opcode) == Register::AT_HL { 1int } else { 0 }),
            final(self).debugger == old(self).debugger,
            final(self).cart.rom == old(self).cart.rom,
            final(self).cpu.registers.pc == old(self).cpu.registers.pc && final(self).cpu.registers.sp == old(self).cpu.registers.sp,
            final(self).cpu.ime == old(self).cpu.ime,
            final(self).cpu.next_ime_state == old(self).cpu.next_ime_state,
            register_of(opcode) != Register::AT_HL ==> (final(self).cpu.registers.a, final(self).cpu.registers.f)
                == alu_spec(3, old(self).cpu.registers.a, reg_value(old(self).cpu.registers, register_of(opcode)), old(self).cpu.registers.f),
    {
        let v = self.get_register(map_register(opcode));
        let mut f = self.cpu.registers.f;
        let a = crate::alu::sbc(self.cpu.registers.a, v, &mut f);
        self.cpu.registers.a = a;
        self.cpu.registers.f = f;
    }

    /// AND A, r: the operand slot is in the low three bits of the opcode.
    pub fn and(&mut self, opcode: u8)
        requires
            old(self).wf(),
            old(self).cpu.cycle_counter <= CYCLE_LIMIT + 512,
        ensures
            register_of(opcode) == Register::AT_HL && old(self).steady(old(self).cpu.registers.pair(RegisterPair::HL)) ==> (final(self).cpu.registers.a, final(self).cpu.registers.f)
                == alu_spec(4, old(self).cpu.registers.a, old(self).peek(old(self).cpu.registers.pair(RegisterPair::HL)), old(self).cpu.registers.f),
            final(self).wf(),
            final(self).cpu.cycle_counter == old(self).cpu.cycle_counter + 4 * (if register_of(opcode) == Register::AT_HL { 1int } else { 0 }),
            final(self).debugger == old(self).debugger,
            final(self).cart.rom == old(self).cart.rom,
            final(self).cpu.registers.pc == old(self).cpu.registers.pc && final(self).cpu.registers.sp == old(self).cpu.registers.sp,
            final(self).cpu.ime == old(self).cpu.ime,
            final(self).cpu.next_ime_state == old(self).cpu.next_ime_state,
            register_of(opcode) != Register::AT_HL ==> (final(self).cpu.registers.a, final(self).cpu.registers.f)
                == alu_spec(4, old(self).cpu.registers.a, reg_value(old(self).cpu.registers, register_of(opcode)), old(self).cpu.registers.f),
    {
        let v = self.get_register(map_register(opcode));
        let mut f = self.cpu.registers.f;
        let a = crate::alu::and(self.cpu.registers.a, v, &mut f);
        self.cpu.registers.a = a;
        self.cpu.registers.f = f;
    }

    /// XOR A, r: the operand slot is in the low three bits of the opcode.
    pub fn xor(&mut self, opcode: u8)
        requires
            old(self).wf(),
            old(self).cpu.cycle_counter <= CYCLE_LIMIT + 512,
        ensures
            register_of(opcode) == Register::AT_HL && old(self).steady(old(self).cpu.registers.pair(RegisterPair::HL)) ==> (final(self).cpu.registers.a, final(self).cpu.registers.f)
                == alu_spec(5, old(self).cpu.registers.a, old(self).peek(old(self).cpu.registers.pair(RegisterPair::HL)), old(self).cpu.registers.f),
            final(self).wf(),
            final(self).cpu.cycle_counter == old(self).cpu.cycle_counter + 4 * (if register_of(opcode) == Register::AT_HL { 1int } else { 0 }),
            final(self).debugger == old(self).debugger,
            final(self).cart.rom == old(self).cart.rom,
            final(self).cpu.registers.pc == old(self).cpu.registers.pc && final(self).cpu.registers.sp == old(self).cpu.registers.sp,
            final(self).cpu.ime == old(self).cpu.ime,
            final(self).cpu.next_ime_state == old(self).cpu.next_ime_state,
            register_of(opcode) != Register::AT_HL ==> (final(self).cpu.registers.a, final(self).cpu.registers.f)
                == alu_spec(5, old(self).cpu.registers.a, reg_value(old(self).cpu.registers, register_of(opcode)), old(self).cpu.registers.f),
    {
        let v = self.get_register(map_register(opcode));
        let mut f = self.cpu.registers.f;
        let a = crate::alu::xor(self.cpu.registers.a, v, &mut f);
        self.cpu.registers.a = a;
        self.cpu.registers.f = f;
    }

    /// OR A, r: the operand slot is in the low three bits of the opcode.
    pub fn or_r8(&mut self, opcode: u8)
        requires
            old(self).wf(),
            old(self).cpu.cycle_counter <= CYCLE_LIMIT + 512,
        ensures
            register_of(opcode) == Register::AT_HL && old(self).steady(old(self).cpu.registers.pair(RegisterPair::HL)) ==> (final(self).cpu.registers.a, final(self).cpu.registers.f)
                == alu_spec(6, old(self).cpu.registers.a, old(self).peek(old(self).cpu.registers.pair(RegisterPair::HL)), old(self).cpu.registers.f),
            final(self).wf(),
            final(self).cpu.cycle_counter == old(self).cpu.cycle_counter + 4 * (if register_of(opcode) == Register::AT_HL { 1int } else { 0 }),
            final(self).debugger == old(self).debugger,
            final(self).cart.rom == old(self).cart.rom,
            final(self).cpu.registers.pc == old(self).cpu.registers.pc && final(self).cpu.registers.sp == old(self).cpu.registers.sp,
            final(self).cpu.ime == old(self).cpu.ime,
            final(self).cpu.next_ime_state == old(self).cpu.next_ime_state,
            register_of(opcode) != Register::AT_HL ==> (final(self).cpu.registers.a, final(self).cpu.registers.f)
                == alu_spec(6, old(self).cpu.registers.a, reg_value(old(self).cpu.registers, register_of(opcode)), old(self).cpu.registers.f),
    {
        let v = self.get_register(map_register(opcode));
        let mut f = self.cpu.registers.f;
        let a = crate::alu::or(self.cpu.registers.a, v, &mut f);
        self.cpu.registers.a = a;
        self.cpu.registers.f = f;
    }

    /// CP A, r: the flags of SUB, A kept.
    pub fn cp_r8(&mut self, opcode: u8)
        requires
            old(self).wf(),
            old(self).cpu.cycle_counter <= CYCLE_LIMIT + 512,
        ensures
            register_of(opcode) == Register::AT_HL && old(self).steady(old(self).cpu.registers.pair(RegisterPair::HL)) ==> (final(self).cpu.registers.a, final(self).cpu.registers.f)
                == alu_spec(7, old(self).cpu.registers.a, old(self).peek(old(self).cpu.registers.pair(RegisterPair::HL)), old(self).cpu.registers.f),
            final(self).wf(),
            final(self).cpu.cycle_counter == old(self).cpu.cycle_counter + 4 * (if register_of(opcode) == Register::AT_HL { 1int } else { 0 }),
            final(self).debugger == old(self).debugger,
            final(self).cart.rom == old(self).cart.rom,
            final(self).cpu.registers.a == old(self).cpu.registers.a && final(self).cpu.registers.pc == old(self).cpu.registers.pc,
            final(self).cpu.ime == old(self).cpu.ime,
            final(self).cpu.next_ime_state == old(self).cpu.next_ime_state,
            register_of(opcode) != Register::AT_HL ==> (final(self).cpu.registers.a, final(self).cpu.registers.f)
                == alu_spec(7, old(self).cpu.registers.a, reg_value(old(self).cpu.registers, register_of(opcode)), old(self).cpu.registers.f),
    {
        let v = self.get_register(map_register(opcode));
        let mut f = self.cpu.registers.f;
        crate::alu::cp(self.cpu.registers.a, v, &mut f);
        self.cpu.registers.f = f;
    }

    /// ADD A, d8.
    pub fn add_d8(&mut self)
        requires
            old(self).wf(),
            old(self).cpu.cycle_counter <= CYCLE_LIMIT + 512,
        ensures
            final(self).wf(),
            final(self).cpu.cycle_counter == old(self).cpu.cycle_counter + 4 * (1),
            final(self).debugger == old(self).debugger,
            final(self).cart.rom == old(self).cart.rom,
            final(self).cpu.registers.pc == (old(self).cpu.registers.pc + 1) % 65536,
            final(self).cpu.ime == old(self).cpu.ime,
            final(self).cpu.next_ime_state == old(self).cpu.next_ime_state,
    {
        let v = self.read_next();
        self.emulate_hardware();
        let mut f = self.cpu.registers.f;
        let a = crate::alu::add(self.cpu.registers.a, v, &mut f);
        self.cpu.registers.a = a;
        self.cpu.registers.f = f;
    }

    /// ADC A, d8.
    pub fn adc_a_d8(&mut self)
        requires
            old(self).wf(),
            old(self).cpu.cycle_counter <= CYCLE_LIMIT + 512,
        ensures
            final(self).wf(),
            final(self).cpu.cycle_counter == old(self).cpu.cycle_counter + 4 * (1),
            final(self).debugger == old(self).debugger,
            final(self).cart.rom == old(self).cart.rom,
            final(self).cpu.registers.pc == (old(self).cpu.registers.pc + 1) % 65536,
            final(self).cpu.ime == old(self).cpu.ime,
            final(self).cpu.next_ime_state == old(self).cpu.next_ime_state,
    {
        let v = self.read_next();
        self.emulate_hardware();
        let mut f = self.cpu.registers.f;
        let a = crate::alu::adc(self.cpu.registers.a, v, &mut f);
        self.cpu.registers.a = a;
        self.cpu.registers.f = f;
    }

    /// SUB A, d8.
    pub fn sub_d8(&mut self)
        requires
            old(self).wf(),
            old(self).cpu.cycle_counter <= CYCLE_LIMIT + 512,
        ensures
            final(self).wf(),
            final(self).cpu.cycle_counter == old(self).cpu.cycle_counter + 4 * (1),
            final(self).debugger == old(self).debugger,
            final(self).cart.rom == old(self).cart.rom,
            final(self).cpu.registers.pc == (old(self).cpu.registers.pc + 1) % 65536,
            final(self).cpu.ime == old(self).cpu.ime,
            final(self).cpu.next_ime_state == old(self).cpu.next_ime_state,
    {
        let v = self.read_next();
        self.emulate_hardware();
        let mut f = self.cpu.registers.f;
        let a = crate::alu::sub(self.cpu.registers.a, v, &mut f);
        self.cpu.registers.a = a;
        self.cpu.registers.f = f;
    }

    /// SBC A, d8.
    pub fn sbc_a_d8(&mut self)
        requires
            old(self).wf(),
            old(self).cpu.cycle_counter <= CYCLE_LIMIT + 512,
        ensures
            final(self).wf(),
            final(self).cpu.cycle_counter == old(self).cpu.cycle_counter + 4 * (1),
            final(self).debugger == old(self).debugger,
            final(self).cart.rom == old(self).cart.rom,
            final(self).cpu.registers.pc == (old(self).cpu.registers.pc + 1) % 65536,
            final(self).cpu.ime == old(self).cpu.ime,
            final(self).cpu.next_ime_state == old(self).cpu.next_ime_state,
    {
        let v = self.read_next();
        self.emulate_hardware();
        let mut f = self.cpu.registers.f;
        let a = crate::alu::sbc(self.cpu.registers.a, v, &mut f);
        self.cpu.registers.a = a;
        self.cpu.registers.f = f;
    }

    /// AND A, d8.
    pub fn and_d8(&mut self)
        requires
            old(self).wf(),
            old(self).cpu.cycle_counter <= CYCLE_LIMIT + 512,
        ensures
            final(self).wf(),
            final(self).cpu.cycle_counter == old(self).cpu.cycle_counter + 4 * (1),
            final(self).debugger == old(self).debugger,
            final(self).cart.rom == old(self).cart.rom,
            final(self).cpu.registers.pc == (old(self).cpu.registers.pc + 1) % 65536,
            final(self).cpu.ime == old(self).cpu.ime,
            final(self).cpu.next_ime_state == old(self).cpu.next_ime_state,
    {
        let v = self.read_next();
        self.emulate_hardware();
        let mut f = self.cpu.registers.f;
        let a = crate::alu::and(self.cpu.registers.a, v, &mut f);
        self.cpu.registers.a = a;
        self.cpu.registers.f = f;
    }

    /// XOR A, d8.
    pub fn xor_d8(&mut self)
        requires
            old(self).wf(),
            old(self).cpu.cycle_counter <= CYCLE_LIMIT + 512,
        ensures
            final(self).wf(),
            final(self).cpu.cycle_counter == old(self).cpu.cycle_counter + 4 * (1),
            final(self).debugger == old(self).debugger,
            final(self).cart.rom == old(self).cart.rom,
            final(self).cpu.registers.pc == (old(self).cpu.registers.pc + 1) % 65536,
            final(self).cpu.ime == old(self).cpu.ime,
            final(self).cpu.next_ime_state == old(self).cpu.next_ime_state,
    {
        let v = self.read_next();
        self.emulate_hardware();
        let mut f = self.cpu.registers.f;
        let a = crate::alu::xor(self.cpu.registers.a, v, &mut f);
        self.cpu.registers.a = a;
        self.cpu.registers.f = f;
    }

    /// OR A, d8.
    pub fn or_d8(&mut self)
        requires
            old(self).wf(),
            old(self).cpu.cycle_counter <= CYCLE_LIMIT + 512,
        ensures
            final(self).wf(),
            final(self).cpu.cycle_counter == old(self).cpu.cycle_counter + 4 * (1),
            final(self).debugger == old(self).debugger,
            final(self).cart.rom == old(self).cart.rom,
            final(self).cpu.registers.pc == (old(self).cpu.registers.pc + 1) % 65536,
            final(self).cpu.ime == old(self).cpu.ime,
            final(self).cpu.next_ime_state == old(self).cpu.next_ime_state,
    {
        let v = self.read_next();
        self.emulate_hardware();
        let mut f = self.cpu.registers.f;
        let a = crate::alu::or(self.cpu.registers.a, v, &mut f);
        self.cpu.registers.a = a;
        self.cpu.registers.f = f;
    }

    /// CP A, d8.
    pub fn cp_d8(&mut self)
        requires
            old(self).wf(),
            old(self).cpu.cycle_counter <= CYCLE_LIMIT + 512,
        ensures
            final(self).wf(),
            final(self).cpu.cycle_counter == old(self).cpu.cycle_counter + 4 * (1),
            final(self).debugger == old(self).debugger,
            final(self).cart.rom == old(self).cart.rom,
            final(self).cpu.registers.a == old(self).cpu.registers.a,
            final(self).cpu.registers.pc == (old(self).cpu.registers.pc + 1) % 65536,
            final(self).cpu.ime == old(self).cpu.ime,
            final(self).cpu.next_ime_state == old(self).cpu.next_ime_state,
    {
        let v = self.read_next();
        self.emulate_hardware();
        let mut f = self.cpu.registers.f;
        crate::alu::cp(self.cpu.registers.a, v, &mut f);
        self.cpu.registers.f = f;
    }

    /// RET NZ: five machine cycles when taken, two when not.
    pub fn ret_nz(&mut self)
        requires
            old(self).wf(),
            old(self).cpu.cycle_counter <= CYCLE_LIMIT + 512,
        ensures
            holds(Conditional::NZ, old(self).cpu.registers.f) && old(self).steady(old(self).cpu.registers.sp) && old(self).steady(((old(self).cpu.registers.sp + 1) % 65536) as u16) ==> final(self).cpu.registers.pc == word_at(*old(self), old(self).cpu.registers.sp),
            !holds(Conditional::NZ, old(self).cpu.registers.f) ==> final(self).cpu.registers == old(self).cpu.registers,
            final(self).wf(),
            final(self).cpu.cycle_counter == old(self).cpu.cycle_counter + 4 * (if holds(Conditional::NZ, old(self).cpu.registers.f) { 4int } else { 1 }),
            final(self).debugger == old(self).debugger,
            final(self).cart.rom == old(self).cart.rom,
            final(self).cpu.ime == old(self).cpu.ime,
            final(self).cpu.next_ime_state == old(self).cpu.next_ime_state,
    {
        self.emulate_hardware();
        if check(Conditional::NZ, self.cpu.registers.f) {
            self._ret();
        }
    }

    /// RET Z: five machine cycles when taken, two when not.
    pub fn ret_z(&mut self)
        requires
            old(self).wf(),
            old(self).cpu.cycle_counter <= CYCLE_LIMIT + 512,
        ensures
            holds(Conditional::Z, old(self).cpu.registers.f) && old(self).steady(old(self).cpu.registers.sp) && old(self).steady(((old(self).cpu.registers.sp + 1) % 65536) as u16) ==> final(self).cpu.registers.pc == word_at(*old(self), old(self).cpu.registers.sp),
            !holds(Conditional::Z, old(self).cpu.registers.f) ==> final(self).cpu.registers == old(self).cpu.registers,
            final(self).wf(),
            final(self).cpu.cycle_counter == old(self).cpu.cycle_counter + 4 * (if holds(Conditional::Z, old(self).cpu.registers.f) { 4int } else { 1 }),
            final(self).debugger == old(self).debugger,
            final(self).cart.rom == old(self).cart.rom,
            final(self).cpu.ime == old(self).cpu.ime,
            final(self).cpu.next_ime_state == old(self).cpu.next_ime_state,
    {
        self.emulate_hardware();
        if check(Conditional::Z, self.cpu.registers.f) {
            self._ret();
        }
    }

    /// RET NC: five machine cycles when taken, two when not.
    pub fn ret_nc(&mut self)
        requires
            old(self).wf(),
            old(self).cpu.cycle_counter <= CYCLE_LIMIT + 512,
        ensures
            holds(Conditional::NC, old(self).cpu.registers.f) && old(self).steady(old(self).cpu.registers.sp) && old(self).steady(((old(self).cpu.registers.sp + 1) % 65536) as u16) ==> final(self).cpu.registers.pc == word_at(*old(self), old(self).cpu.registers.sp),
            !holds(Conditional::NC, old(self).cpu.registers.f) ==> final(self).cpu.registers == old(self).cpu.registers,
            final(self).wf(),
            final(self).cpu.cycle_counter == old(self).cpu.cycle_counter + 4 * (if holds(Conditional::NC, old(self).cpu.registers.f) { 4int } else { 1 }),
            final(self).debugger == old(self).debugger,
            final(self).cart.rom == old(self).cart.rom,
            final(self).cpu.ime == old(self).cpu.ime,
            final(self).cpu.next_ime_state == old(self).cpu.next_ime_state,
    {
        self.emulate_hardware();
        if check(Conditional::NC, self.cpu.registers.f) {
            self._ret();
        }
    }

    /// RET C: five machine cycles when taken, two when not.
    pub fn ret_c(&mut self)
        requires
            old(self).wf(),
            old(self).cpu.cycle_counter <= CYCLE_LIMIT + 512,
        ensures
            holds(Conditional::C, old(self).cpu.registers.f) && old(self).steady(old(self).cpu.registers.sp) && old(self).steady(((old(self).cpu.registers.sp + 1) % 65536) as u16) ==> final(self).cpu.registers.pc == word_at(*old(self), old(self).cpu.registers.sp),
            !holds(Conditional::C, old(self).cpu.registers.f) ==> final(self).cpu.registers == old(self).cpu.registers,
            final(self).wf(),
            final(self).cpu.cycle_counter == old(self).cpu.cycle_counter + 4 * (if holds(Conditional::C, old(self).cpu.registers.f) { 4int } else { 1 }),
            final(self).debugger == old(self).debugger,
            final(self).cart.rom == old(self).cart.rom,
            final(self).cpu.ime == old(self).cpu.ime,
            final(self).cpu.next_ime_state == old(self).cpu.next_ime_state,
    {
        self.emulate_hardware();
        if check(Conditional::C, self.cpu.registers.f) {
            self._ret();
        }
    }

    /// RET.
    pub fn ret(&mut self)
        requires
            old(self).wf(),
            old(self).cpu.cycle_counter <= CYCLE_LIMIT + 512,
        ensures
            old(self).steady(old(self).cpu.registers.sp) && old(self).steady(((old(self).cpu.registers.sp + 1) % 65536) as u16) ==> final(self).cpu.registers.pc == word_at(*old(self), old(self).cpu.registers.sp),
            final(self).wf(),
            final(self).cpu.cycle_counter == old(self).cpu.cycle_counter + 4 * (3),
            final(self).debugger == old(self).debugger,
            final(self).cart.rom == old(self).cart.rom,
            final(self).cpu.ime == old(self).cpu.ime,
            final(self).cpu.next_ime_state == old(self).cpu.next_ime_state,
    {
        self._ret();
    }

    /// RETI: RET, and IME is set again after the next instruction.
    pub fn reti(&mut self)
        requires
            old(self).wf(),
            old(self).cpu.cycle_counter <= CYCLE_LIMIT + 512,
        ensures
            old(self).steady(old(self).cpu.registers.sp) && old(self).steady(((old(self).cpu.registers.sp + 1) % 65536) as u16) ==> final(self).cpu.registers.pc == word_at(*old(self), old(self).cpu.registers.sp),
            final(self).wf(),
            final(self).cpu.cycle_counter == old(self).cpu.cycle_counter + 4 * (3),
            final(self).debugger == old(self).debugger,
            final(self).cart.rom == old(self).cart.rom,
            final(self).cpu.next_ime_state,
            final(self).cpu.ime == old(self).cpu.ime,
    {
        self._ret();
        self.cpu.next_ime_state = true;
    }

    /// JP a16, with an internal delay.
    pub fn jp_a16(&mut self)
        requires
            old(self).wf(),
            old(self).cpu.cycle_counter <= CYCLE_LIMIT + 512,
        ensures
            old(self).steady(old(self).cpu.registers.pc) && old(self).steady(((old(self).cpu.registers.pc + 1) % 65536) as u16) ==> final(self).cpu.registers.pc == word_at(*old(self), old(self).cpu.registers.pc),
            final(self).wf(),
            final(self).cpu.cycle_counter == old(self).cpu.cycle_counter + 4 * (3),
            final(self).debugger == old(self).debugger,
            final(self).cart.rom == old(self).cart.rom,
            final(self).cpu.ime == old(self).cpu.ime,
            final(self).cpu.next_ime_state == old(self).cpu.next_ime_state,
    {
        let low = self.read_next();
        self.emulate_hardware();
        let high = self.read_next();
        self.emulate_hardware();
        self.emulate_hardware();
        self.cpu.registers.pc = high as u16 * 256 + low as u16;
    }

    /// JP cc, a16: four machine cycles when taken, three when not.
    pub fn jp_conditional(&mut self, conditional: Conditional)
        requires
            old(self).wf(),
            old(self).cpu.cycle_counter <= CYCLE_LIMIT + 512,
        ensures
            holds(conditional, old(self).cpu.registers.f) && old(self).steady(old(self).cpu.registers.pc) && old(self).steady(((old(self).cpu.registers.pc + 1) % 65536) as u16) ==> final(self).cpu.registers.pc == word_at(*old(self), old(self).cpu.registers.pc),
            final(self).wf(),
            final(self).cpu.cycle_counter == old(self).cpu.cycle_counter + 4 * (if holds(conditional, old(self).cpu.registers.f) { 3int } else { 2 }),
            final(self).debugger == old(self).debugger,
            final(self).cart.rom == old(self).cart.rom,
            !holds(conditional, old(self).cpu.registers.f) ==> final(self).cpu.registers.pc == (old(self).cpu.registers.pc + 2) % 65536,
            final(self).cpu.ime == old(self).cpu.ime,
            final(self).cpu.next_ime_state == old(self).cpu.next_ime_state,
    {
        let low = self.read_next();
        self.emulate_hardware();
        let high = self.read_next();
        self.emulate_hardware();
        if check(conditional, self.cpu.registers.f) {
            self.emulate_hardware();
            self.cpu.registers.pc = high as u16 * 256 + low as u16;
        }
    }

    /// CALL a16: pushes the return address and jumps.
    pub fn call_a16(&mut self)
        requires
            old(self).wf(),
            old(self).cpu.cycle_counter <= CYCLE_LIMIT + 512,
        ensures
            old(self).steady(old(self).cpu.registers.pc) && old(self).steady(((old(self).cpu.registers.pc + 1) % 65536) as u16) ==> final(self).cpu.registers.pc == word_at(*old(self), old(self).cpu.registers.pc),
            plain_ram(((old(self).cpu.registers.sp + 65535) % 65536) as u16) && old(self).steady(((old(self).cpu.registers.sp + 65535) % 65536) as u16) ==> final(self).peek(((old(self).cpu.registers.sp + 65535) % 65536) as u16) == ((old(self).cpu.registers.pc + 2) % 65536) / 256,
            plain_ram(((old(self).cpu.registers.sp + 65534) % 65536) as u16) && old(self).steady(((old(self).cpu.registers.sp + 65534) % 65536) as u16) ==> final(self).peek(((old(self).cpu.registers.sp + 65534) % 65536) as u16) == ((old(self).cpu.registers.pc + 2) % 65536) % 256,
            final(self).wf(),
            final(self).cpu.cycle_counter == old(self).cpu.cycle_counter + 4 * (5),
            final(self).debugger == old(self).debugger,
            final(self).cart.rom == old(self).cart.rom,
            final(self).cpu.registers.sp == (old(self).cpu.registers.sp + 65534) % 65536,
            final(self).cpu.ime == old(self).cpu.ime,
            final(self).cpu.next_ime_state == old(self).cpu.next_ime_state,
    {
        let low = self.read_next();
        self.emulate_hardware();
        let high = self.read_next();
        self.emulate_hardware();
        let pc = self.cpu.registers.pc;
        self.push(pc);
        self.cpu.registers.pc = high as u16 * 256 + low as u16;
    }

    /// CALL cc, a16: six machine cycles when taken, three when not.
    pub fn call_conditional(&mut self, conditional: Conditional)
        requires
            old(self).wf(),
            old(self).cpu.cycle_counter <= CYCLE_LIMIT + 512,
        ensures
            holds(conditional, old(self).cpu.registers.f) && old(self).steady(old(self).cpu.registers.pc) && old(self).steady(((old(self).cpu.registers.pc + 1) % 65536) as u16) ==> final(self).cpu.registers.pc == word_at(*old(self), old(self).cpu.registers.pc),
            final(self).wf(),
            final(self).cpu.cycle_counter == old(self).cpu.cycle_counter + 4 * (if holds(conditional, old(self).cpu.registers.f) { 5int } else { 2 }),
            final(self).debugger == old(self).debugger,
            final(self).cart.rom == old(self).cart.rom,
            !holds(conditional, old(self).cpu.registers.f) ==> final(self).cpu.registers.pc == (old(self).cpu.registers.pc + 2) % 65536,
            final(self).cpu.ime == old(self).cpu.ime,
            final(self).cpu.next_ime_state == old(self).cpu.next_ime_state,
    {
        let low = self.read_next();
        self.emulate_hardware();
        let high = self.read_next();
        self.emulate_hardware();
        if check(conditional, self.cpu.registers.f) {
            let pc = self.cpu.registers.pc;
            self.push(pc);
            self.cpu.registers.pc = high as u16 * 256 + low as u16;
        }
    }

    /// RST n: pushes PC and jumps to a fixed address.
    pub fn rst(&mut self, address: u8)
        requires
            old(self).wf(),
            old(self).cpu.cycle_counter <= CYCLE_LIMIT + 512,
        ensures
            plain_ram(((old(self).cpu.registers.sp + 65535) % 65536) as u16) && old(self).steady(((old(self).cpu.registers.sp + 65535) % 65536) as u16) ==> final(self).peek(((old(self).cpu.registers.sp + 65535) % 65536) as u16) == (old(self).cpu.registers.pc) / 256,
            plain_ram(((old(self).cpu.registers.sp + 65534) % 65536) as u16) && old(self).steady(((old(self).cpu.registers.sp + 65534) % 65536) as u16) ==> final(self).peek(((old(self).cpu.registers.sp + 65534) % 65536) as u16) == (old(self).cpu.registers.pc) % 256,
            final(self).wf(),
            final(self).cpu.cycle_counter == old(self).cpu.cycle_counter + 4 * (3),
            final(self).debugger == old(self).debugger,
            final(self).cart.rom == old(self).cart.rom,
            final(self).cpu.registers.pc == address,
            final(self).cpu.registers.sp == (old(self).cpu.registers.sp + 65534) % 65536,
            final(self).cpu.ime == old(self).cpu.ime,
            final(self).cpu.next_ime_state == old(self).cpu.next_ime_state,
    {
        let pc = self.cpu.registers.pc;
        self.push(pc);
        self.cpu.registers.pc = address as u16;
    }

    /// JP HL.
    pub fn jp_hl(&mut self)
        requires
            old(self).wf(),
            old(self).cpu.cycle_counter <= CYCLE_LIMIT + 512,
        ensures
            final(self).wf(),
            final(self).cpu.cycle_counter == old(self).cpu.cycle_counter + 4 * (0),
            final(self).debugger == old(self).debugger,
            final(self).cart.rom == old(self).cart.rom,
            final(self).cpu.registers == (Registers { pc: old(self).cpu.registers.pair(RegisterPair::HL), ..old(self).cpu.registers }),
            final(self).cpu.ime == old(self).cpu.ime,
            final(self).cpu.next_ime_state == old(self).cpu.next_ime_state,
    {
        self.cpu.registers.pc = self.cpu.registers.get_register_pair(RegisterPair::HL);
    }

    /// LDH (a8), A: writes A to 0xFF00 plus the byte that follows.
    pub fn ld_at_ff00_plus_a8_a(&mut self)
        requires
            old(self).wf(),
            old(self).cpu.cycle_counter <= CYCLE_LIMIT + 512,
        ensures
            final(self).wf(),
            final(self).cpu.cycle_counter == old(self).cpu.cycle_counter + 4 * (2),
            final(self).debugger == old(self).debugger,
            final(self).cart.rom == old(self).cart.rom,
            final(self).cpu.registers.pc == (old(self).cpu.registers.pc + 1) % 65536,
            final(self).cpu.ime == old(self).cpu.ime,
            final(self).cpu.next_ime_state == old(self).cpu.next_ime_state,
    {
        let offset = self.read_next();
        self.emulate_hardware();
        let a = self.cpu.registers.a;
        self.write_byte_cpu(0xFF00 + offset as u16, a);
        self.emulate_hardware();
    }

    /// LDH A, (a8).
    pub fn ld_a_at_ff00_plus_a8(&mut self)
        requires
            old(self).wf(),
            old(self).cpu.cycle_counter <= CYCLE_LIMIT + 512,
        ensures
            final(self).wf(),
            final(self).cpu.cycle_counter == old(self).cpu.cycle_counter + 4 * (2),
            final(self).debugger == old(self).debugger,
            final(self).cart.rom == old(self).cart.rom,
            final(self).cpu.registers.pc == (old(self).cpu.registers.pc + 1) % 65536,
            final(self).cpu.ime == old(self).cpu.ime,
            final(self).cpu.next_ime_state == old(self).cpu.next_ime_state,
    {
        let offset = self.read_next();
        self.emulate_hardware();
        self.cpu.registers.a = self.read_byte_cpu(0xFF00 + offset as u16);
        self.emulate_hardware();
    }

    /// LD (C), A: writes A to 0xFF00 plus C.
    pub fn ld_at_ff00_plus_c_a(&mut self)
        requires
            old(self).wf(),
            old(self).cpu.cycle_counter <= CYCLE_LIMIT + 512,
        ensures
            final(self).wf(),
            final(self).cpu.cycle_counter == old(self).cpu.cycle_counter + 4 * (1),
            final(self).debugger == old(self).debugger,
            final(self).cart.rom == old(self).cart.rom,
            final(self).cpu.registers == old(self).cpu.registers,
            final(self).cpu.ime == old(self).cpu.ime,
            final(self).cpu.next_ime_state == old(self).cpu.next_ime_state,
    {
        let c = self.cpu.registers.c;
        let a = self.cpu.registers.a;
        self.write_byte_cpu(0xFF00 + c as u16, a);
        self.emulate_hardware();
    }

    /// LD A, (C).
    pub fn ld_a_at_ff00_plus_c(&mut self)
        requires
            old(self).wf(),
            old(self).cpu.cycle_counter <= CYCLE_LIMIT + 512,
        ensures
            final(self).wf(),
            final(self).cpu.cycle_counter == old(self).cpu.cycle_counter + 4 * (1),
            final(self).debugger == old(self).debugger,
            final(self).cart.rom == old(self).cart.rom,
            final(self).cpu.registers.pc == old(self).cpu.registers.pc,
            final(self).cpu.ime == old(self).cpu.ime,
            final(self).cpu.next_ime_state == old(self).cpu.next_ime_state,
    {
        let c = self.cpu.registers.c;
        self.cpu.registers.a = self.read_byte_cpu(0xFF00 + c as u16);
        self.emulate_hardware();
    }

    /// LD (a16), A.
    pub fn ld_at_a16_a(&mut self)
        requires
            old(self).wf(),
            old(self).cpu.cycle_counter <= CYCLE_LIMIT + 512,
        ensures
            final(self).wf(),
            final(self).cpu.cycle_counter == old(self).cpu.cycle_counter + 4 * (3),
            final(self).debugger == old(self).debugger,
            final(self).cart.rom == old(self).cart.rom,
            final(self).cpu.registers.pc == (old(self).cpu.registers.pc + 2) % 65536,
            final(self).cpu.ime == old(self).cpu.ime,
            final(self).cpu.next_ime_state == old(self).cpu.next_ime_state,
    {
        let low = self.read_next();
        self.emulate_hardware();
        let high = self.read_next();
        self.emulate_hardware();
        let a = self.cpu.registers.a;
        self.write_byte_cpu(high as u16 * 256 + low as u16, a);
        self.emulate_hardware();
    }

    /// LD A, (a16).
    pub fn ld_a_at_a16(&mut self)
        requires
            old(self).wf(),
            old(self).cpu.cycle_counter <= CYCLE_LIMIT + 512,
        ensures
            final(self).wf(),
            final(self).cpu.cycle_counter == old(self).cpu.cycle_counter + 4 * (3),
            final(self).debugger == old(self).debugger,
            final(self).cart.rom == old(self).cart.rom,
            final(self).cpu.registers.pc == (old(self).cpu.registers.pc + 2) % 65536,
            final(self).cpu.ime == old(self).cpu.ime,
            final(self).cpu.next_ime_state == old(self).cpu.next_ime_state,
    {
        let low = self.read_next();
        self.emulate_hardware();
        let high = self.read_next();
        self.emulate_hardware();
        self.cpu.registers.a = self.read_byte_cpu(high as u16 * 256 + low as u16);
        self.emulate_hardware();
    }

    /// ADD SP, e: two internal delays; flags 0 0 H C from the low byte.
    pub fn add_sp_nn(&mut self)
        requires
            old(self).wf(),
            old(self).cpu.cycle_counter <= CYCLE_LIMIT + 512,
        ensures
            old(self).steady(old(self).cpu.registers.pc) ==> ({
                let e = old(self).peek(old(self).cpu.registers.pc);
                &&& final(self).cpu.registers.sp == (old(self).cpu.registers.sp + signed_byte(e) + 65536) % 65536
                &&& final(self).cpu.registers.f == flags_of(false, false, old(self).cpu.registers.sp % 16 + e % 16 > 15, old(self).cpu.registers.sp % 256 + e > 255)
            }),
            final(self).wf(),
            final(self).cpu.cycle_counter == old(self).cpu.cycle_counter + 4 * (3),
            final(self).debugger == old(self).debugger,
            final(self).cart.rom == old(self).cart.rom,
            final(self).cpu.registers.pc == (old(self).cpu.registers.pc + 1) % 65536,
            !zero_of(final(self).cpu.registers.f) && !sub_of(final(self).cpu.registers.f),
            final(self).cpu.ime == old(self).cpu.ime,
            final(self).cpu.next_ime_state == old(self).cpu.next_ime_state,
    {
        let e = self.read_next();
        self.emulate_hardware();
        let mut f = self.cpu.registers.f;
        let sp = crate::alu::add_sp_nn(self.cpu.registers.sp, e, &mut f);
        self.cpu.registers.sp = sp;
        self.cpu.registers.f = f;
        self.emulate_hardware();
        self.emulate_hardware();
    }

    /// LD HL, SP+e: flags as ADD SP, e; SP kept.
    pub fn ld_hl_sp_plus_nn(&mut self)
        requires
            old(self).wf(),
            old(self).cpu.cycle_counter <= CYCLE_LIMIT + 512,
        ensures
            final(self).wf(),
            final(self).cpu.cycle_counter == old(self).cpu.cycle_counter + 4 * (2),
            final(self).debugger == old(self).debugger,
            final(self).cart.rom == old(self).cart.rom,
            final(self).cpu.registers.sp == old(self).cpu.registers.sp,
            final(self).cpu.registers.pc == (old(self).cpu.registers.pc + 1) % 65536,
            final(self).cpu.ime == old(self).cpu.ime,
            final(self).cpu.next_ime_state == old(self).cpu.next_ime_state,
    {
        let e = self.read_next();
        self.emulate_hardware();
        let mut f = self.cpu.registers.f;
        let v = crate::alu::add_sp_nn(self.cpu.registers.sp, e, &mut f);
        self.cpu.registers.set_register_pair(RegisterPair::HL, v);
        self.cpu.registers.f = f;
        self.emulate_hardware();
    }

    /// LD SP, HL, with an internal delay.
    pub fn ld_sp_hl(&mut self)
        requires
            old(self).wf(),
            old(self).cpu.cycle_counter <= CYCLE_LIMIT + 512,
        ensures
            final(self).wf(),
            final(self).cpu.cycle_counter == old(self).cpu.cycle_counter + 4 * (1),
            final(self).debugger == old(self).debugger,
            final(self).cart.rom == old(self).cart.rom,
            final(self).cpu.registers == (Registers { sp: old(self).cpu.registers.pair(RegisterPair::HL), ..old(self).cpu.registers }),
            final(self).cpu.ime == old(self).cpu.ime,
            final(self).cpu.next_ime_state == old(self).cpu.next_ime_state,
    {
        self.emulate_hardware();
        self.cpu.registers.sp = self.cpu.registers.get_register_pair(RegisterPair::HL);
    }

    /// DI: clears IME at once.
    pub fn di(&mut self)
        requires
            old(self).wf(),
            old(self).cpu.cycle_counter <= CYCLE_LIMIT + 512,
        ensures
            final(self).wf(),
            final(self).cpu.cycle_counter == old(self).cpu.cycle_counter + 4 * (0),
            final(self).debugger == old(self).debugger,
            final(self).cart.rom == old(self).cart.rom,
            final(self).cpu.registers == old(self).cpu.registers,
            !final(self).cpu.ime && !final(self).cpu.next_ime_state,
    {
        self.cpu.ime = false;
        self.cpu.next_ime_state = false;
    }

    /// EI: IME is set after the next instruction.
    pub fn ei(&mut self)
        requires
            old(self).wf(),
            old(self).cpu.cycle_counter <= CYCLE_LIMIT + 512,
        ensures
            final(self).wf(),
            final(self).cpu.cycle_counter == old(self).cpu.cycle_counter + 4 * (0),
            final(self).debugger == old(self).debugger,
            final(self).cart.rom == old(self).cart.rom,
            final(self).cpu.registers == old(self).cpu.registers,
            final(self).cpu.next_ime_state,
            final(self).cpu.ime == old(self).cpu.ime,
    {
        self.cpu.next_ime_state = true;
    }

    /// An opcode outside the instruction set: the CPU locks up, fetching it again and again.
    pub fn illegal(&mut self)
        requires
            old(self).wf(),
            old(self).cpu.cycle_counter <= CYCLE_LIMIT + 512,
        ensures
            final(self).wf(),
            final(self).cpu.cycle_counter == old(self).cpu.cycle_counter + 4 * (0),
            final(self).debugger == old(self).debugger,
            final(self).cart.rom == old(self).cart.rom,
            final(self).cpu.registers == (Registers { pc: ((old(self).cpu.registers.pc + 65535) % 65536) as u16, ..old(self).cpu.registers }),
            final(self).cpu.ime == old(self).cpu.ime,
            final(self).cpu.next_ime_state == old(self).cpu.next_ime_state,
    {
        self.cpu.registers.pc = self.cpu.registers.pc.wrapping_sub(1);
    }
    /// A 0xCB-prefixed instruction: rotates and shifts, BIT, RES and SET on
    /// the slot in the low three bits of the second byte, which it returns.
    /// For the byte at HL it also returns two snapshots of the console: as
    /// it is when the operand is read (one machine cycle after the prefix
    /// fetch) and right after the result is written back.
    pub fn extended(&mut self) -> (result: (u8, Ghost<(Gameboy, Gameboy)>))
        requires
            old(self).wf(),
            old(self).cpu.cycle_counter <= CYCLE_LIMIT + 512,
        ensures
            ({
                let cb = result.0;
                let (at_read, after_write) = result.1@;
                &&& !old(self).dma_blocks(old(self).cpu.registers.pc) ==> cb == old(self).peek(old(self).cpu.registers.pc)
                &&& final(self).cpu.registers.pc == (old(self).cpu.registers.pc + 1) % 65536
                &&& final(self).wf()
                &&& final(self).cpu.cycle_counter == old(self).cpu.cycle_counter + 4 * (cb_cycles(cb) - 1)
                &&& final(self).debugger == old(self).debugger
                &&& final(self).cart.rom == old(self).cart.rom
                &&& final(self).cpu.ime == old(self).cpu.ime
                &&& final(self).cpu.next_ime_state == old(self).cpu.next_ime_state
                &&& register_of(cb) != Register::AT_HL ==> {
                    let (r, f) = cb_spec(cb, reg_value(old(self).cpu.registers, register_of(cb)), old(self).cpu.registers.f);
                    &&& reg_value(final(self).cpu.registers, register_of(cb)) == r
                    &&& final(self).cpu.registers.f == f
                }
                &&& register_of(cb) == Register::AT_HL ==> {
                    let (r, f) = cb_spec(cb, at_read.peek(old(self).cpu.registers.pair(RegisterPair::HL)), old(self).cpu.registers.f);
                    &&& at_read.cpu.cycle_counter == old(self).cpu.cycle_counter + 4
                    &&& at_read.cpu.registers.pair(RegisterPair::HL) == old(self).cpu.registers.pair(RegisterPair::HL)
                    &&& !old(self).oam_dma_state.active ==> {
                        &&& cb < 0x80 ==> final(self).cpu.registers.f == f
                        &&& cb >= 0x80 ==> final(self).cpu.registers.f == old(self).cpu.registers.f
                        &&& !(0x40 <= cb < 0x80) && after_write.stores_at(old(self).cpu.registers.pair(RegisterPair::HL)) ==> after_write.peek(old(self).cpu.registers.pair(RegisterPair::HL)) == r
                    }
                }
                &&& register_of(cb) == Register::AT_HL && plain_ram(old(self).cpu.registers.pair(RegisterPair::HL)) && old(self).steady(old(self).cpu.registers.pair(RegisterPair::HL)) ==> {
                    let (r, f) = cb_spec(cb, old(self).peek(old(self).cpu.registers.pair(RegisterPair::HL)), old(self).cpu.registers.f);
                    &&& 0x40 <= cb < 0x80 ==> final(self).peek(old(self).cpu.registers.pair(RegisterPair::HL)) == old(self).peek(old(self).cpu.registers.pair(RegisterPair::HL))
                    &&& !(0x40 <= cb < 0x80) ==> final(self).peek(old(self).cpu.registers.pair(RegisterPair::HL)) == r
                    &&& cb < 0x80 ==> final(self).cpu.registers.f == f
                    &&& cb >= 0x80 ==> final(self).cpu.registers.f == old(self).cpu.registers.f
                }
            }),
    {
        let opcode = self.read_next();
        self.emulate_hardware();
        let reg = map_register(opcode);
        let ghost at_read = *self;
        let hl = self.cpu.registers.get_register_pair(RegisterPair::HL);
        let val = if reg == Register::AT_HL {
            let v = self.read_byte_cpu(hl);
            self.emulate_hardware();
            v
        } else {
            self.get_register(reg)
        };
        let mut f = self.cpu.registers.f;
        let n: u8 = (opcode / 8) % 8;
        let mut r: u8 = val;
        let mut writes = true;
        if opcode < 0x40 {
            r = match n {
                0 => crate::alu::rlc(val, &mut f),
                1 => crate::alu::rrc(val, &mut f),
                2 => crate::alu::rl(val, &mut f),
                3 => crate::alu::rr(val, &mut f),
                4 => crate::alu::sla(val, &mut f),
                5 => crate::alu::sra(val, &mut f),
                6 => crate::alu::swap(val, &mut f),
                _ => crate::alu::srl(val, &mut f),
            };
        } else if opcode < 0x80 {
            crate::alu::bit(val, &mut f, n);
            writes = false;
        } else if opcode < 0xC0 {
            r = crate::alu::res(val, n);
        } else {
            r = crate::alu::set(val, n);
        }
        self.cpu.registers.f = f;
        let ghost mut after_write = at_read;
        if writes {
            if reg == Register::AT_HL {
                self.write_byte_cpu(hl, r);
                proof {
                    after_write = *self;
                }
                self.emulate_hardware();
            } else {
                self.set_register(reg, r);
            }
        }
        (opcode, Ghost((at_read, after_write)))
    }

    /// Executes an instruction whose opcode has been fetched (PC already past
    /// it) and returns the second byte of a 0xCB-prefixed one (else 0). It
    /// takes the documented machine cycles less the one of the fetch.
    #[verifier::rlimit(100)]
    pub fn execute_opcode(&mut self, opcode: u8) -> (cb: u8)
        requires
            old(self).wf(),
            old(self).cpu.cycle_counter <= CYCLE_LIMIT + 512,
        ensures
            0x80 <= opcode < 0xC0 && register_of(opcode) != Register::AT_HL ==> (final(self).cpu.registers.a,
                final(self).cpu.registers.f) == alu_spec(((opcode / 8) % 8) as int, old(self).cpu.registers.a, reg_value(old(self).cpu.registers, register_of(opcode)), old(self).cpu.registers.f),
            0x80 <= opcode < 0xC0 && register_of(opcode) == Register::AT_HL && old(self).steady(old(self).cpu.registers.pair(RegisterPair::HL)) ==> (
                final(self).cpu.registers.a,
                final(self).cpu.registers.f,
            ) == alu_spec(((opcode / 8) % 8) as int, old(self).cpu.registers.a, old(self).peek(old(self).cpu.registers.pair(RegisterPair::HL)), old(self).cpu.registers.f),
            0x40 <= opcode < 0x80 && opcode != 0x76 && register_of(opcode) != Register::AT_HL && register_of(opcode / 8)
                != Register::AT_HL ==> final(self).cpu.registers == with_register(old(self).cpu.registers, register_of(opcode / 8), reg_value(old(self).cpu.registers, register_of(opcode))),
            0x70 <= opcode < 0x78 && opcode != 0x76 && plain_ram(old(self).cpu.registers.pair(RegisterPair::HL)) && old(self).steady(old(self).cpu.registers.pair(RegisterPair::HL)) ==> final(self).peek(old(self).cpu.registers.pair(RegisterPair::HL))
                == reg_value(old(self).cpu.registers, register_of(opcode)),
            opcode == 0x76 ==> final(self).cpu.halt && final(self).cpu.registers == old(self).cpu.registers,
            opcode == 0x00 ==> final(self).cpu.registers == old(self).cpu.registers,
            opcode == 0xF3 ==> !final(self).cpu.ime && !final(self).cpu.next_ime_state,
            opcode == 0xFB ==> final(self).cpu.next_ime_state,
            opcode == 0x27 ==> final(self).cpu.registers.a == daa_sum(old(self).cpu.registers.a, old(self).cpu.registers.f) % 256,
            opcode == 0xC3 && old(self).steady(old(self).cpu.registers.pc) && old(self).steady(((old(self).cpu.registers.pc + 1) % 65536) as u16)
                ==> final(self).cpu.registers.pc == word_at(*old(self), old(self).cpu.registers.pc),
            opcode == 0xC9 && old(self).steady(old(self).cpu.registers.sp) && old(self).steady(((old(self).cpu.registers.sp + 1) % 65536) as u16)
                ==> final(self).cpu.registers.pc == word_at(*old(self), old(self).cpu.registers.sp),
            opcode == 0x18 && old(self).steady(old(self).cpu.registers.pc) ==> final(self).cpu.registers.pc == relative(
                ((old(self).cpu.registers.pc + 1) % 65536) as u16,
                old(self).peek(old(self).cpu.registers.pc),
            ),
            opcode == 0xE9 ==> final(self).cpu.registers.pc == old(self).cpu.registers.pair(RegisterPair::HL),
            is_rst_opcode(opcode) ==> final(self).cpu.registers.pc == opcode - 0xC7,
            opcode == 0xF1 && old(self).steady(old(self).cpu.registers.sp) && old(self).steady(((old(self).cpu.registers.sp + 1) % 65536) as u16)
                ==> final(self).cpu.registers == (Registers { sp: ((old(self).cpu.registers.sp + 2) % 65536) as u16, ..old(self).cpu.registers }).with_pair(
                RegisterPair::AF,
                word_at(*old(self), old(self).cpu.registers.sp),
            ),
            opcode == 0xCB && register_of(cb) != Register::AT_HL ==> ({
                let (r, f) = cb_spec(cb, reg_value(old(self).cpu.registers, register_of(cb)), old(self).cpu.registers.f);
                &&& reg_value(final(self).cpu.registers, register_of(cb)) == r
                &&& final(self).cpu.registers.f == f
            }),
            opcode == 0xCB && !old(self).dma_blocks(old(self).cpu.registers.pc) ==> cb == old(self).peek(old(self).cpu.registers.pc),
            final(self).wf(),
            final(self).cpu.cycle_counter == old(self).cpu.cycle_counter + 4 * (machine_cycles(
                opcode,
                old(self).cpu.registers.f,
                cb,
            ) - 1),
            opcode != 0xCB ==> cb == 0,
            final(self).debugger == old(self).debugger,
            final(self).cart.rom == old(self).cart.rom,
    {
        if 0x40 <= opcode && opcode < 0x80 {
            if opcode == 0x76 {
                self.halt();
            } else if (opcode / 8) % 8 == 6 {
                self.ld_at_hl_r8(map_register(opcode));
            } else {
                self.ld_r_r(map_register(opcode / 8), opcode);
            }
            return 0;
        }
        if 0x80 <= opcode && opcode < 0xC0 {
            match (opcode / 8) % 8 {
                0 => self.add_a_r8(opcode),
                1 => self.adc_a_r8(opcode),
                2 => self.sub_a_r8(opcode),
                3 => self.sbc_a_r8(opcode),
                4 => self.and(opcode),
                5 => self.xor(opcode),
                6 => self.or_r8(opcode),
                _ => self.cp_r8(opcode),
            }
            return 0;
        }
        if opcode == 0xCB {
            let (cb, _) = self.extended();
            return cb;
        }
        match opcode {
            0x00 => self.nop(),
            0x01 => self.ld_bc_d16(),
            0x02 => self.ld_at_bc_a(),
            0x03 => self.inc_r16(RegisterPair::BC),
            0x04 => self.inc_r8(Register::B),
            0x05 => self.dec_r8(Register::B),
            0x06 => self.ld_r8_d8(Register::B),
            0x07 => self.rlca(),
            0x08 => self.ld_at_a16_sp(),
            0x09 => self.add_hl_r16(RegisterPair::BC),
            0x0A => self.ld_a_at_bc(),
            0x0B => self.dec_r16(RegisterPair::BC),
            0x0C => self.inc_r8(Register::C),
            0x0D => self.dec_r8(Register::C),
            0x0E => self.ld_r8_d8(Register::C),
            0x0F => self.rrca(),
            0x10 => self.stop(),
            0x11 => self.ld_de_d16(),
            0x12 => self.ld_at_de_a(),
            0x13 => self.inc_r16(RegisterPair::DE),
            0x14 => self.inc_r8(Register::D),
            0x15 => self.dec_r8(Register::D),
            0x16 => self.ld_r8_d8(Register::D),
            0x17 => self.rla(),
            0x18 => self.jr_r8(),
            0x19 => self.add_hl_r16(RegisterPair::DE),
            0x1A => self.ld_a_at_de(),
            0x1B => self.dec_r16(RegisterPair::DE),
            0x1C => self.inc_r8(Register::E),
            0x1D => self.dec_r8(Register::E),
            0x1E => self.ld_r8_d8(Register::E),
            0x1F => self.rra(),
            0x20 => self.jr_nz_r8(),
            0x21 => self.ld_hl_d16(),
            0x22 => self.ldi_at_hl_a(),
            0x23 => self.inc_r16(RegisterPair::HL),
            0x24 => self.inc_r8(Register::H),
            0x25 => self.dec_r8(Register::H),
            0x26 => self.ld_r8_d8(Register::H),
            0x27 => self.daa(),
            0x28 => self.jr_z_r8(),
            0x29 => self.add_hl_r16(RegisterPair::HL),
            0x2A => self.ldi_a_at_hl(),
            0x2B => self.dec_r16(RegisterPair::HL),
            0x2C => self.inc_r8(Register::L),
            0x2D => self.dec_r8(Register::L),
            0x2E => self.ld_r8_d8(Register::L),
            0x2F => self.cpl(),
            0x30 => self.jr_nc_r8(),
            0x31 => self.ld_sp_d16(),
            0x32 => self.ldd_at_hl_a(),
            0x33 => self.inc_r16(RegisterPair::SP),
            0x34 => self.inc_r8(Register::AT_HL),
            0x35 => self.dec_r8(Register::AT_HL),
            0x36 => self.ld_r8_d8(Register::AT_HL),
            0x37 => self.scf(),
            0x38 => self.jr_c_r8(),
            0x39 => self.add_hl_r16(RegisterPair::SP),
            0x3A => self.ldd_a_at_hl(),
            0x3B => self.dec_r16(RegisterPair::SP),
            0x3C => self.inc_r8(Register::A),
            0x3D => self.dec_r8(Register::A),
            0x3E => self.ld_r8_d8(Register::A),
            0x3F => self.ccf(),
            0xC0 => self.ret_nz(),
            0xC1 => self.pop_r16(RegisterPair::BC),
            0xC2 => self.jp_conditional(Conditional::NZ),
            0xC3 => self.jp_a16(),
            0xC4 => self.call_conditional(Conditional::NZ),
            0xC5 => self.push_r16(RegisterPair::BC),
            0xC6 => self.add_d8(),
            0xC7 => self.rst(0x00),
            0xC8 => self.ret_z(),
            0xC9 => self.ret(),
            0xCA => self.jp_conditional(Conditional::Z),
            0xCC => self.call_conditional(Conditional::Z),
            0xCD => self.call_a16(),
            0xCE => self.adc_a_d8(),
            0xCF => self.rst(0x08),
            0xD0 => self.ret_nc(),
            0xD1 => self.pop_r16(RegisterPair::DE),
            0xD2 => self.jp_conditional(Conditional::NC),
            0xD4 => self.call_conditional(Conditional::NC),
            0xD5 => self.push_r16(RegisterPair::DE),
            0xD6 => self.sub_d8(),
            0xD7 => self.rst(0x10),
            0xD8 => self.ret_c(),
            0xD9 => self.reti(),
            0xDA => self.jp_conditional(Conditional::C),
            0xDC => self.call_conditional(Conditional::C),
            0xDE => self.sbc_a_d8(),
            0xDF => self.rst(0x18),
            0xE0 => self.ld_at_ff00_plus_a8_a(),
            0xE1 => self.pop_r16(RegisterPair::HL),
            0xE2 => self.ld_at_ff00_plus_c_a(),
            0xE5 => self.push_r16(RegisterPair::HL),
            0xE6 => self.and_d8(),
            0xE7 => self.rst(0x20),
            0xE8 => self.add_sp_nn(),
            0xE9 => self.jp_hl(),
            0xEA => self.ld_at_a16_a(),
            0xEE => self.xor_d8(),
            0xEF => self.rst(0x28),
            0xF0 => self.ld_a_at_ff00_plus_a8(),
            0xF1 => self.pop_af(),
            0xF2 => self.ld_a_at_ff00_plus_c(),
            0xF3 => self.di(),
            0xF5 => self.push_r16(RegisterPair::AF),
            0xF6 => self.or_d8(),
            0xF7 => self.rst(0x30),
            0xF8 => self.ld_hl_sp_plus_nn(),
            0xF9 => self.ld_sp_hl(),
            0xFA => self.ld_a_at_a16(),
            0xFB => self.ei(),
            0xFE => self.cp_d8(),
            0xFF => self.rst(0x38),
            _ => self.illegal(),
        }
        0
    }

    /// Fetches, decodes and executes one instruction; a halted CPU only lets
    /// one machine cycle pass. IME takes its delayed value before the fetch.
    /// Where the opcode lies in memory that the bus describes, the step takes
    /// exactly the documented machine cycles of that opcode.
    #[verifier::rlimit(60)]
    pub fn execute(&mut self)
        requires
            old(self).wf(),
            old(self).cpu.cycle_counter <= CYCLE_LIMIT + 256,
        ensures
            !old(self).cpu.halt && old(self).steady(old(self).cpu.registers.pc) && 0x80 <= old(self).peek(old(self).cpu.registers.pc) < 0xC0 && register_of(old(self).peek(old(self).cpu.registers.pc)) != Register::AT_HL
                ==> (final(self).cpu.registers.a, final(self).cpu.registers.f) == alu_spec(
                ((old(self).peek(old(self).cpu.registers.pc) / 8) % 8) as int,
                old(self).cpu.registers.a,
                reg_value(old(self).cpu.registers, register_of(old(self).peek(old(self).cpu.registers.pc))),
                old(self).cpu.registers.f,
            ),
            !old(self).cpu.halt && old(self).steady(old(self).cpu.registers.pc) && 0x40 <= old(self).peek(old(self).cpu.registers.pc) < 0x80 && old(self).peek(old(self).cpu.registers.pc) != 0x76 && register_of(old(self).peek(old(self).cpu.registers.pc))
                != Register::AT_HL && register_of(old(self).peek(old(self).cpu.registers.pc) / 8) != Register::AT_HL ==> final(self).cpu.registers == with_register(
                (Registers { pc: ((old(self).cpu.registers.pc + 1) % 65536) as u16, ..old(self).cpu.registers }),
                register_of(old(self).peek(old(self).cpu.registers.pc) / 8),
                reg_value(old(self).cpu.registers, register_of(old(self).peek(old(self).cpu.registers.pc))),
            ),
            !old(self).cpu.halt && old(self).steady(old(self).cpu.registers.pc) && old(self).peek(old(self).cpu.registers.pc) == 0x76 ==> final(self).cpu.halt,
            final(self).cpu.cycle_counter <= old(self).cpu.cycle_counter + 24,
            !old(self).cpu.halt && old(self).steady(old(self).cpu.registers.pc) && old(self).steady(((old(self).cpu.registers.pc + 1) % 65536) as u16)
                ==> final(self).cpu.cycle_counter == old(self).cpu.cycle_counter + 4 * machine_cycles(
                old(self).peek(old(self).cpu.registers.pc),
                old(self).cpu.registers.f,
                old(self).peek(((old(self).cpu.registers.pc + 1) % 65536) as u16),
            ),
            final(self).wf(),
            final(self).debugger == old(self).debugger,
            final(self).cart.rom == old(self).cart.rom,
            old(self).cpu.halt ==> final(self).cpu.cycle_counter == old(self).cpu.cycle_counter + 4,
            !old(self).cpu.halt ==> exists|op: u8, cb: u8|
                final(self).cpu.cycle_counter == old(self).cpu.cycle_counter + 4 * #[trigger] machine_cycles(
                    op,
                    old(self).cpu.registers.f,
                    cb,
                ),
            !old(self).cpu.halt && !old(self).dma_blocks(old(self).cpu.registers.pc) && old(self).peek(
                old(self).cpu.registers.pc,
            ) != 0xCB ==> final(self).cpu.cycle_counter == old(self).cpu.cycle_counter + 4 * machine_cycles(
                old(self).peek(old(self).cpu.registers.pc),
                old(self).cpu.registers.f,
                0,
            ),
            final(self).cpu.cycle_counter > old(self).cpu.cycle_counter,
    {
        if self.cpu.halt {
            self.emulate_hardware();
            return;
        }
        self.cpu.ime = self.cpu.next_ime_state;
        let opcode = self.read_next();
        self.emulate_hardware();
        let cb = self.execute_opcode(opcode);
        proof {
            assert(machine_cycles(opcode, old(self).cpu.registers.f, cb) >= 1);
            assert(machine_cycles(opcode, old(self).cpu.registers.f, cb) <= 6);
        }
    }
}

} // verus!
