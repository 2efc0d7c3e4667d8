use rustboy::alu;

#[test]
fn add_sets_half_carry_and_carry() {
    let mut f = 0u8;
    assert_eq!(alu::add(0x0F, 0x01, &mut f), 0x10);
    assert_eq!(f, 0x20);
    assert_eq!(alu::add(0xFF, 0x01, &mut f), 0x00);
    assert_eq!(f, 0xB0);
}

#[test]
fn adc_uses_carry_in() {
    let mut f = 0x10u8;
    assert_eq!(alu::adc(0x0E, 0x01, &mut f), 0x10);
    assert_eq!(f, 0x20);
}

#[test]
fn sub_and_sbc_borrow() {
    let mut f = 0u8;
    assert_eq!(alu::sub(0x10, 0x01, &mut f), 0x0F);
    assert_eq!(f, 0x60);
    assert_eq!(alu::sub(0x00, 0x01, &mut f), 0xFF);
    assert_eq!(f, 0x70);
    let mut f = 0x10u8;
    assert_eq!(alu::sbc(0x05, 0x05, &mut f), 0xFF);
    assert_eq!(f, 0x70);
}

#[test]
fn cp_keeps_nothing_but_flags() {
    let mut f = 0u8;
    alu::cp(0x42, 0x42, &mut f);
    assert_eq!(f, 0xC0);
}

#[test]
fn logic_flags() {
    let mut f = 0u8;
    assert_eq!(alu::and(0xF0, 0x0F, &mut f), 0);
    assert_eq!(f, 0xA0);
    assert_eq!(alu::or(0xF0, 0x0F, &mut f), 0xFF);
    assert_eq!(f, 0x00);
    assert_eq!(alu::xor(0xAA, 0xAA, &mut f), 0);
    assert_eq!(f, 0x80);
}

#[test]
fn inc_dec_keep_carry() {
    let mut f = 0x10u8;
    assert_eq!(alu::inc(0xFF, &mut f), 0);
    assert_eq!(f, 0xB0);
    let mut f = 0x10u8;
    assert_eq!(alu::dec(0x10, &mut f), 0x0F);
    assert_eq!(f, 0x70);
}

#[test]
fn rotates_and_shifts() {
    let mut f = 0u8;
    assert_eq!(alu::rlc(0x85, &mut f), 0x0B);
    assert_eq!(f, 0x10);
    assert_eq!(alu::rrc(0x01, &mut f), 0x80);
    assert_eq!(f, 0x10);
    let mut f = 0x10u8;
    assert_eq!(alu::rl(0x80, &mut f), 0x01);
    assert_eq!(f, 0x10);
    let mut f = 0u8;
    assert_eq!(alu::rr(0x01, &mut f), 0x00);
    assert_eq!(f, 0x90);
    assert_eq!(alu::sla(0x80, &mut f), 0x00);
    assert_eq!(f, 0x90);
    assert_eq!(alu::sra(0x81, &mut f), 0xC0);
    assert_eq!(f, 0x10);
    assert_eq!(alu::srl(0x01, &mut f), 0x00);
    assert_eq!(f, 0x90);
    assert_eq!(alu::swap(0xAB, &mut f), 0xBA);
    assert_eq!(f, 0x00);
}

#[test]
fn bit_set_res() {
    let mut f = 0x10u8;
    alu::bit(0x80, &mut f, 7);
    assert_eq!(f, 0x30);
    alu::bit(0x80, &mut f, 6);
    assert_eq!(f, 0xB0);
    assert_eq!(alu::set(0x00, 3), 0x08);
    assert_eq!(alu::res(0xFF, 0), 0xFE);
}

#[test]
fn add16_keeps_zero() {
    let mut f = 0x80u8;
    assert_eq!(alu::add16(0x0FFF, 0x0001, &mut f), 0x1000);
    assert_eq!(f, 0xA0);
    let mut f = 0u8;
    assert_eq!(alu::add16(0xFFFF, 0x0001, &mut f), 0x0000);
    assert_eq!(f, 0x30);
}

#[test]
fn add_sp_signed() {
    let mut f = 0u8;
    assert_eq!(alu::add_sp_nn(0xFFF8, 0xFE, &mut f), 0xFFF6);
    assert_eq!(f, 0x30);
    assert_eq!(alu::add_sp_nn(0x0000, 0x01, &mut f), 0x0001);
    assert_eq!(f, 0x00);
}

#[test]
fn daa_after_addition_and_subtraction() {
    let mut f = 0u8;
    assert_eq!(alu::daa(0x7D, &mut f), 0x83);
    assert_eq!(f, 0x00);
    let mut f = 0x40u8;
    assert_eq!(alu::daa(0x00, &mut f), 0x00);
    assert_eq!(f, 0xC0);
    let mut f = 0x00u8;
    assert_eq!(alu::daa(0x9A, &mut f), 0x00);
    assert_eq!(f, 0x90);
}

#[test]
fn wrapping_helpers() {
    assert_eq!(rustboy::util::wrapping_add(0xFFFF, 2), 1);
    assert_eq!(rustboy::util::wrapping_sub(0, 1), 0xFFFF);
}
