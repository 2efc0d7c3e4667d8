use rustboy::framebuffer::FrameBuffer;
use rustboy::numbers::{parse_u16, parse_u8, parse_usize, ParseNumberError};
use rustboy::rtc::{Duration, RTC};

#[test]
fn duration_from_seconds() {
    let d = Duration::from(2 * 86400 + 3 * 3600 + 4 * 60 + 5);
    assert_eq!((d.seconds, d.minutes, d.hours, d.days), (5, 4, 3, 2));
    assert_eq!(d.get_seconds(), 2 * 86400 + 3 * 3600 + 4 * 60 + 5);
    let w = Duration::from(512 * 86400 + 7);
    assert_eq!((w.seconds, w.days), (7, 0));
    assert_eq!(Duration::new().add_seconds(61).minutes, 1);
}

#[test]
fn clock_update_and_carry() {
    let mut c = RTC::new();
    c.last = 1000;
    c.update_at(1065);
    assert_eq!(c.seconds(), 5);
    assert_eq!(c.minutes(), 1);
    c.update_at(900);
    assert_eq!(c.seconds(), 5);
    c.update_at(1065 + 512 * 86400);
    assert_eq!(c.days_high() & 0x80, 0x80);
    c.set_days_high(0x41);
    assert_eq!(c.days_high(), 0x41);
    c.update_at(2_000_000_000);
    assert_eq!(c.days_high(), 0x41);
    c.set_days_low(0x22);
    assert_eq!(c.days_low(), 0x22);
    c.set_hours(25);
    assert_eq!(c.hours(), 1);
}

#[test]
fn latched_copy_is_read() {
    let mut c = RTC::new();
    c.set_seconds(10);
    c.latched = Some(c.duration);
    c.set_seconds(20);
    assert_eq!(c.seconds(), 10);
    c.unlatch();
    assert_eq!(c.seconds(), 20);
}

#[test]
fn parse_numbers_in_three_radixes() {
    assert_eq!(parse_u8("255"), Ok(255));
    assert_eq!(parse_u8("256"), Err(ParseNumberError::Overflow));
    assert_eq!(parse_u8("0xFf"), Ok(255));
    assert_eq!(parse_u8("0b101"), Ok(5));
    assert_eq!(parse_u8("0b102"), Err(ParseNumberError::InvalidDigit));
    assert_eq!(parse_u8(""), Err(ParseNumberError::Empty));
    assert_eq!(parse_u8("0x"), Err(ParseNumberError::Empty));
    assert_eq!(parse_u8("+7"), Ok(7));
    assert_eq!(parse_u16("0xC000"), Ok(0xC000));
    assert_eq!(parse_u16("65536"), Err(ParseNumberError::Overflow));
    assert_eq!(parse_usize("12x"), Err(ParseNumberError::InvalidDigit));
    assert_eq!(parse_usize("0x10"), Ok(16));
}

#[test]
fn framebuffer_swaps_front_and_back() {
    use_framebuffer();
}

fn use_framebuffer() {
    let mut fb = FrameBuffer::new(4, 2);
    assert_eq!(fb.get_front_buffer().len(), 8);
    fb.set_pixel(3, 0xAABBCCDD);
    assert_eq!(fb.get_front_buffer()[3], 0);
    fb.swap_buffers();
    assert_eq!(fb.get_front_buffer()[3], 0xAABBCCDD);
    assert_eq!(fb.dirty_pixel_count, 0);
}
