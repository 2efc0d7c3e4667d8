//! The arithmetic and logic kernel of the CPU.
//!
//! Every operation takes its operands as plain bytes and the flag register by
//! reference, and states its result and the new flags exactly.
use vstd::prelude::*;

verus! {

/// Bit 7 of F: zero.
pub const ZERO_FLAG: u8 = 0x80;
/// Bit 6 of F: subtract.
pub const SUBTRACTION_FLAG: u8 = 0x40;
/// Bit 5 of F: half carry.
pub const HALF_CARRY_FLAG: u8 = 0x20;
/// Bit 4 of F: carry.
pub const CARRY_FLAG: u8 = 0x10;

/// The flag byte with the four flags given, and the low nibble clear.
pub open spec fn flags_of(z: bool, n: bool, h: bool, c: bool) -> u8 {
    ((if z { 0x80int } else { 0 }) + (if n { 0x40int } else { 0 }) + (if h { 0x20int } else { 0 })
        + (if c { 0x10int } else { 0 })) as u8
}

pub open spec fn zero_of(f: u8) -> bool {
    f / 128 == 1
}

pub open spec fn sub_of(f: u8) -> bool {
    (f / 64) % 2 == 1
}

pub open spec fn half_of(f: u8) -> bool {
    (f / 32) % 2 == 1
}

pub open spec fn carry_of(f: u8) -> bool {
    (f / 16) % 2 == 1
}

/// The result and the flags of an accumulator operation on `a` and `b` with
/// flags `f`: 0 ADD, 1 ADC, 2 SUB, 3 SBC, 4 AND, 5 XOR, 6 OR, 7 CP (which
/// keeps `a`).
pub open spec fn alu_spec(kind: int, a: u8, b: u8, f: u8) -> (u8, u8) {
    let cy: int = if carry_of(f) { 1 } else { 0 };
    if kind == 0 {
        let r = ((a + b) % 256) as u8;
        (r, flags_of(r == 0, false, a % 16 + b % 16 > 15, a + b > 255))
    } else if kind == 1 {
        let r = ((a + b + cy) % 256) as u8;
        (r, flags_of(r == 0, false, a % 16 + b % 16 + cy > 15, a + b + cy > 255))
    } else if kind == 2 {
        let r = ((a - b + 256) % 256) as u8;
        (r, flags_of(r == 0, true, a % 16 < b % 16, a < b))
    } else if kind == 3 {
        let r = ((a - b - cy + 512) % 256) as u8;
        (r, flags_of(r == 0, true, a % 16 < b % 16 + cy, a < b + cy))
    } else if kind == 4 {
        let r = a & b;
        (r, flags_of(r == 0, false, true, false))
    } else if kind == 5 {
        let r = a ^ b;
        (r, flags_of(r == 0, false, false, false))
    } else if kind == 6 {
        let r = a | b;
        (r, flags_of(r == 0, false, false, false))
    } else {
        (a, flags_of(a == b, true, a % 16 < b % 16, a < b))
    }
}

/// Packs four flags into a flag byte.
pub fn make_flags(z: bool, n: bool, h: bool, c: bool) -> (r: u8)
    ensures
        r == flags_of(z, n, h, c),
        zero_of(r) == z,
        sub_of(r) == n,
        half_of(r) == h,
        carry_of(r) == c,
        r % 16 == 0,
{
    let mut r: u8 = 0;
    if z {
        r = r + 0x80;
    }
    if n {
        r = r + 0x40;
    }
    if h {
        r = r + 0x20;
    }
    if c {
        r = r + 0x10;
    }
    r
}

/// Whether the zero flag is set in `f`.
pub fn zero_flag(f: u8) -> (r: bool)
    ensures
        r == zero_of(f),
{
    f / 128 == 1
}

/// Whether the subtract flag is set in `f`.
pub fn subtraction_flag(f: u8) -> (r: bool)
    ensures
        r == sub_of(f),
{
    (f / 64) % 2 == 1
}

/// Whether the half-carry flag is set in `f`.
pub fn half_carry_flag(f: u8) -> (r: bool)
    ensures
        r == half_of(f),
{
    (f / 32) % 2 == 1
}

/// Whether the carry flag is set in `f`.
pub fn carry_flag(f: u8) -> (r: bool)
    ensures
        r == carry_of(f),
{
    (f / 16) % 2 == 1
}

/// ADD: Z 0 H C.
pub fn add(register: u8, other: u8, flags: &mut u8) -> (r: u8)
    ensures
        r == (register + other) % 256,
        *final(flags) == flags_of(
            r == 0,
            false,
            register % 16 + other % 16 > 15,
            register + other > 255,
        ),
{
    let sum: u16 = register as u16 + other as u16;
    let r: u8 = (sum % 256) as u8;
    *flags = make_flags(r == 0, false, register % 16 + other % 16 > 15, sum > 255);
    r
}

/// ADC: adds the carry flag in as well; Z 0 H C.
pub fn adc(register: u8, other: u8, flags: &mut u8) -> (r: u8)
    ensures
        ({
            let cy: int = if carry_of(*old(flags)) { 1 } else { 0 };
            &&& r == (register + other + cy) % 256
            &&& *final(flags) == flags_of(
                r == 0,
                false,
                register % 16 + other % 16 + cy > 15,
                register + other + cy > 255,
            )
        }),
{
    let cy: u8 = if carry_flag(*flags) { 1 } else { 0 };
    let sum: u16 = register as u16 + other as u16 + cy as u16;
    let r: u8 = (sum % 256) as u8;
    *flags = make_flags(r == 0, false, register % 16 + other % 16 + cy > 15, sum > 255);
    r
}

/// SUB: Z 1 H C, where H and C are the borrows out of bit 4 and bit 8.
pub fn sub(register: u8, other: u8, flags: &mut u8) -> (r: u8)
    ensures
        r == (register - other + 256) % 256,
        *final(flags) == flags_of(r == 0, true, register % 16 < other % 16, register < other),
{
    let r: u8 = register.wrapping_sub(other);
    *flags = make_flags(r == 0, true, register % 16 < other % 16, register < other);
    r
}

/// SBC: subtracts the carry flag as well; Z 1 H C.
pub fn sbc(register: u8, other: u8, flags: &mut u8) -> (r: u8)
    ensures
        ({
            let cy: int = if carry_of(*old(flags)) { 1 } else { 0 };
            &&& r == (register - other - cy + 512) % 256
            &&& *final(flags) == flags_of(
                r == 0,
                true,
                register % 16 < other % 16 + cy,
                register < other + cy,
            )
        }),
{
    let cy: u8 = if carry_flag(*flags) { 1 } else { 0 };
    let diff: i16 = register as i16 - other as i16 - cy as i16;
    let r: u8 = if diff < 0 { (diff + 256) as u8 } else { diff as u8 };
    *flags = make_flags(r == 0, true, (register % 16) < (other % 16) + cy, (register as u16) < other as u16 + cy as u16);
    r
}

/// AND: Z 0 1 0.
pub fn and(register: u8, other: u8, flags: &mut u8) -> (r: u8)
    ensures
        r == register & other,
        *final(flags) == flags_of(r == 0, false, true, false),
{
    let r: u8 = register & other;
    *flags = make_flags(r == 0, false, true, false);
    r
}

/// XOR: Z 0 0 0.
pub fn xor(register: u8, other: u8, flags: &mut u8) -> (r: u8)
    ensures
        r == register ^ other,
        *final(flags) == flags_of(r == 0, false, false, false),
{
    let r: u8 = register ^ other;
    *flags = make_flags(r == 0, false, false, false);
    r
}

/// OR: Z 0 0 0.
pub fn or(register: u8, other: u8, flags: &mut u8) -> (r: u8)
    ensures
        r == register | other,
        *final(flags) == flags_of(r == 0, false, false, false),
{
    let r: u8 = register | other;
    *flags = make_flags(r == 0, false, false, false);
    r
}

/// CP: the flags of SUB, with the difference thrown away.
pub fn cp(register: u8, other: u8, flags: &mut u8)
    ensures
        *final(flags) == flags_of(register == other, true, register % 16 < other % 16, register < other),
{
    let _ = crate::alu::sub(register, other, flags);
}

/// INC: Z 0 H -, the carry flag kept.
pub fn inc(register: u8, flags: &mut u8) -> (r: u8)
    ensures
        r == (register + 1) % 256,
        *final(flags) == flags_of(r == 0, false, register % 16 == 15, carry_of(*old(flags))),
{
    let r: u8 = register.wrapping_add(1);
    *flags = make_flags(r == 0, false, register % 16 == 15, carry_flag(*flags));
    r
}

/// DEC: Z 1 H -, the carry flag kept.
pub fn dec(register: u8, flags: &mut u8) -> (r: u8)
    ensures
        r == (register + 255) % 256,
        *final(flags) == flags_of(r == 0, true, register % 16 == 0, carry_of(*old(flags))),
{
    let r: u8 = register.wrapping_sub(1);
    *flags = make_flags(r == 0, true, register % 16 == 0, carry_flag(*flags));
    r
}

/// RLC: rotate left, bit 7 into bit 0 and into C; Z 0 0 C.
pub fn rlc(register: u8, flags: &mut u8) -> (r: u8)
    ensures
        r == (register % 128) * 2 + register / 128,
        *final(flags) == flags_of(r == 0, false, false, register >= 128),
{
    let r: u8 = (register % 128) * 2 + register / 128;
    *flags = make_flags(r == 0, false, false, register >= 128);
    r
}

/// RRC: rotate right, bit 0 into bit 7 and into C; Z 0 0 C.
pub fn rrc(register: u8, flags: &mut u8) -> (r: u8)
    ensures
        r == register / 2 + (register % 2) * 128,
        *final(flags) == flags_of(r == 0, false, false, register % 2 == 1),
{
    let r: u8 = register / 2 + (register % 2) * 128;
    *flags = make_flags(r == 0, false, false, register % 2 == 1);
    r
}

/// RL: rotate left through the carry; Z 0 0 C.
pub fn rl(register: u8, flags: &mut u8) -> (r: u8)
    ensures
        r == (register % 128) * 2 + (if carry_of(*old(flags)) { 1int } else { 0 }),
        *final(flags) == flags_of(r == 0, false, false, register >= 128),
{
    let cy: u8 = if carry_flag(*flags) { 1 } else { 0 };
    let r: u8 = (register % 128) * 2 + cy;
    *flags = make_flags(r == 0, false, false, register >= 128);
    r
}

/// RR: rotate right through the carry; Z 0 0 C.
pub fn rr(register: u8, flags: &mut u8) -> (r: u8)
    ensures
        r == register / 2 + (if carry_of(*old(flags)) { 128int } else { 0 }),
        *final(flags) == flags_of(r == 0, false, false, register % 2 == 1),
{
    let cy: u8 = if carry_flag(*flags) { 128 } else { 0 };
    let r: u8 = register / 2 + cy;
    *flags = make_flags(r == 0, false, false, register % 2 == 1);
    r
}

/// SLA: shift left, a zero into bit 0; Z 0 0 C.
pub fn sla(register: u8, flags: &mut u8) -> (r: u8)
    ensures
        r == (register % 128) * 2,
        *final(flags) == flags_of(r == 0, false, false, register >= 128),
{
    let r: u8 = (register % 128) * 2;
    *flags = make_flags(r == 0, false, false, register >= 128);
    r
}

/// SRA: arithmetic shift right, bit 7 kept; Z 0 0 C.
pub fn sra(register: u8, flags: &mut u8) -> (r: u8)
    ensures
        r == register / 2 + (if register >= 128 { 128int } else { 0 }),
        *final(flags) == flags_of(r == 0, false, false, register % 2 == 1),
{
    let msb: u8 = if register >= 128 { 128 } else { 0 };
    let r: u8 = register / 2 + msb;
    *flags = make_flags(r == 0, false, false, register % 2 == 1);
    r
}

/// SRL: logical shift right, a zero into bit 7; Z 0 0 C.
pub fn srl(register: u8, flags: &mut u8) -> (r: u8)
    ensures
        r == register / 2,
        *final(flags) == flags_of(r == 0, false, false, register % 2 == 1),
{
    let r: u8 = register / 2;
    *flags = make_flags(r == 0, false, false, register % 2 == 1);
    r
}

/// SWAP: exchanges the nibbles; Z 0 0 0.
pub fn swap(register: u8, flags: &mut u8) -> (r: u8)
    ensures
        r == (register % 16) * 16 + register / 16,
        *final(flags) == flags_of(r == 0, false, false, false),
{
    let r: u8 = (register % 16) * 16 + register / 16;
    *flags = make_flags(r == 0, false, false, false);
    r
}

/// The value of bit `n`, as a power of two.
pub open spec fn bit_mask(n: u8) -> u8
    recommends
        n < 8,
{
    if n == 0 {
        1
    } else if n == 1 {
        2
    } else if n == 2 {
        4
    } else if n == 3 {
        8
    } else if n == 4 {
        16
    } else if n == 5 {
        32
    } else if n == 6 {
        64
    } else {
        128
    }
}

/// The byte with only bit `n` set.
pub fn mask_of_bit(n: u8) -> (r: u8)
    requires
        n < 8,
    ensures
        r == bit_mask(n),
{
    match n {
        0 => 1,
        1 => 2,
        2 => 4,
        3 => 8,
        4 => 16,
        5 => 32,
        6 => 64,
        _ => 128,
    }
}

/// BIT: Z is the complement of bit `bit`; Z 0 1 -.
pub fn bit(register: u8, flags: &mut u8, bit: u8)
    requires
        bit < 8,
    ensures
        *final(flags) == flags_of(
            register & bit_mask(bit) == 0,
            false,
            true,
            carry_of(*old(flags)),
        ),
{
    let m: u8 = mask_of_bit(bit);
    *flags = make_flags(register & m == 0, false, true, carry_flag(*flags));
}

/// SET: sets bit `bit`.
pub fn set(register: u8, bit: u8) -> (r: u8)
    requires
        bit < 8,
    ensures
        r == register | bit_mask(bit),
{
    register | mask_of_bit(bit)
}

/// RES: clears bit `bit`.
pub fn res(register: u8, bit: u8) -> (r: u8)
    requires
        bit < 8,
    ensures
        r == register & !bit_mask(bit),
{
    register & !mask_of_bit(bit)
}

/// ADD HL, rr: Z kept; - 0 H C, with H the carry out of bit 11.
pub fn add16(hl: u16, other: u16, flags: &mut u8) -> (r: u16)
    ensures
        r == (hl + other) % 65536,
        *final(flags) == flags_of(
            zero_of(*old(flags)),
            false,
            hl % 4096 + other % 4096 > 4095,
            hl + other > 65535,
        ),
{
    let sum: u32 = hl as u32 + other as u32;
    *flags = make_flags(zero_flag(*flags), false, hl % 4096 + other % 4096 > 4095, sum > 65535);
    (sum % 65536) as u16
}

/// The signed value of a byte in two's complement.
pub open spec fn signed_byte(b: u8) -> int {
    if b < 128 {
        b as int
    } else {
        b - 256
    }
}

/// ADD SP, e and LD HL, SP+e: the sum with `other` as a signed byte;
/// 0 0 H C, from the unsigned addition of `other` to the low byte of `sp`.
pub fn add_sp_nn(sp: u16, other: u8, flags: &mut u8) -> (r: u16)
    ensures
        r == (sp + signed_byte(other) + 65536) % 65536,
        *final(flags) == flags_of(
            false,
            false,
            sp % 16 + other % 16 > 15,
            sp % 256 + other > 255,
        ),
{
    *flags = make_flags(false, false, sp % 16 + (other % 16) as u16 > 15, sp % 256 + other as u16 > 255);
    if other < 128 {
        sp.wrapping_add(other as u16)
    } else {
        sp.wrapping_sub(256 - other as u16)
    }
}

/// A after decimal adjustment, with the carry that DAA leaves.
pub open spec fn daa_sum(a: u8, f: u8) -> int {
    if !sub_of(f) {
        let a1: int = if half_of(f) || a % 16 > 9 { a + 6 } else { a as int };
        if carry_of(f) || a1 > 0x9F { a1 + 0x60 } else { a1 }
    } else {
        let a1: int = if half_of(f) { (a - 6 + 65536) % 65536 % 256 } else { a as int };
        if carry_of(f) { (a1 - 0x60 + 65536) % 65536 } else { a1 }
    }
}

/// DAA: adjusts A into binary-coded decimal after an addition or subtraction.
/// Z from the result, N kept, H cleared, C set when the adjustment carried (or kept).
pub fn daa(a: u8, flags: &mut u8) -> (r: u8)
    ensures
        r == daa_sum(a, *old(flags)) % 256,
        *final(flags) == flags_of(
            r == 0,
            sub_of(*old(flags)),
            false,
            carry_of(*old(flags)) || daa_sum(a, *old(flags)) >= 256,
        ),
{
    let f: u8 = *flags;
    let mut v: u32 = a as u32;
    if !subtraction_flag(f) {
        if half_carry_flag(f) || a % 16 > 9 {
            v = v + 6;
        }
        if carry_flag(f) || v > 0x9F {
            v = v + 0x60;
        }
    } else {
        if half_carry_flag(f) {
            v = ((v + 65536 - 6) % 65536) % 256;
        }
        if carry_flag(f) {
            v = (v + 65536 - 0x60) % 65536;
        }
    }
    let r: u8 = (v % 256) as u8;
    *flags = make_flags(r == 0, subtraction_flag(f), false, carry_flag(f) || v >= 256);
    r
}

} // verus!
