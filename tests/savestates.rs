use rustboy::mode::Mode;
use rustboy::savestate::SaveStateHeader;
use rustboy::timer::Timer;

#[test]
fn serialize_deserialize_header() {
    let header = SaveStateHeader {
        version: 0,
        mode: Mode::CGB,
        cpu_state_offset: 38,
        timer_state_offset: 512,
        ppu_state_offset: 1246,
        serial_state_offset: 12451,
        joypad_state_offset: 91252,
        cart_state_offset: 100000,
        io_offset: 101021,
        wram_offset: 101124,
        oam_dma_state_offset: 101160,
    };

    let buffer = header.serialize();

    let deserialized_header = SaveStateHeader::deserialize(&buffer[..]).unwrap();

    assert_eq!(header, deserialized_header);
}

#[test]
fn deserialize_buffer_too_small() {
    let buffer = vec![0, 0, 0, 0, 0, 0xFF, 0xFF];
    assert!(SaveStateHeader::deserialize(&buffer[..]).is_err())
}

#[test]
fn serialize_deserialize_default() {
    let timer = Timer::new(Mode::DMG);
    let buf = timer.serialize();
    let timer2 = Timer::deserialize(&buf[..]).unwrap();
    assert_eq!(timer, timer2);
}

#[test]
fn header_bytes_are_big_endian() {
    let header = SaveStateHeader {
        version: 3,
        mode: Mode::DMG,
        cpu_state_offset: 0x01020304,
        timer_state_offset: 0,
        ppu_state_offset: 0,
        serial_state_offset: 0,
        joypad_state_offset: 0,
        cart_state_offset: 0,
        io_offset: 0,
        wram_offset: 0,
        oam_dma_state_offset: 0xFFFFFFFF,
    };
    let buf = header.serialize();
    assert_eq!(buf.len(), 38);
    assert_eq!(&buf[0..6], &[3, 0, 1, 2, 3, 4]);
    assert_eq!(&buf[34..38], &[0xFF, 0xFF, 0xFF, 0xFF]);
}

#[test]
fn header_with_bad_mode_is_rejected() {
    let mut buf = vec![0u8; 38];
    buf[1] = 2;
    assert!(SaveStateHeader::deserialize(&buf[..]).is_err());
}

#[test]
fn timer_round_trip_with_pending_reload() {
    let mut timer = Timer::new(Mode::CGB);
    timer.div = 0xABCD;
    timer.tima = 0x12;
    timer.tma = 0x34;
    timer.tac = 0x05;
    timer.tima_overflow_delay = Some(3);
    let buf = timer.serialize();
    assert_eq!(buf, vec![1, 0xAB, 0xCD, 0, 0x12, 0x34, 0x05, 3]);
    assert_eq!(Timer::deserialize(&buf[..]).unwrap(), timer);
}

#[test]
fn timer_deserialize_wrong_length() {
    assert!(Timer::deserialize(&[0u8; 7]).is_err());
}

#[test]
fn timer_deserialize_bad_mode() {
    let buf = [7u8, 0, 0, 0, 0, 0, 0, 0xFF];
    assert!(Timer::deserialize(&buf[..]).is_err());
}
