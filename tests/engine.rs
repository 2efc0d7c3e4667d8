use std::io::{Read, Write};
use rustboy::cartridge::{CartInfo, HeaderError, MBCType, VirtualCartridge};
use rustboy::debugger::{AccessType, Breakpoint, Debugger};
use rustboy::gameboy::{Gameboy, MemoryRegion};
use rustboy::interrupts::Interrupt;
use rustboy::joypad::Key;
use rustboy::registers::{Register, RegisterPair};

fn rom_with(cart_type: u8, rom_code: u8, ram_code: u8, len: usize) -> Vec<u8> {
    let mut rom = vec![0u8; len];
    rom[0x147] = cart_type;
    rom[0x148] = rom_code;
    rom[0x149] = ram_code;
    rom
}

fn console() -> Gameboy {
    Gameboy::new(rom_with(0, 0, 0, 0x8000), None).unwrap()
}

/// Loads a program into work RAM at 0xC000 and points PC at it.
fn load_program(gb: &mut Gameboy, program: &[u8]) {
    for (i, b) in program.iter().enumerate() {
        gb.write_memory(0xC000 + i as u16, *b);
    }
    gb.cpu.registers.pc = 0xC000;
}

#[test]
fn daa_after_add() {
    let mut gb = console();
    load_program(&mut gb, &[0x80, 0x27]);
    gb.cpu.registers.a = 0x45;
    gb.cpu.registers.b = 0x38;
    gb.execute();
    gb.execute();
    assert_eq!(gb.cpu.registers.a, 0x83);
    assert_eq!(gb.cpu.registers.f, 0x00);
}

#[test]
fn add_sp_signed_scenario() {
    let mut gb = console();
    load_program(&mut gb, &[0xE8, 0xFE]);
    gb.cpu.registers.sp = 0xFFF8;
    gb.execute();
    assert_eq!(gb.cpu.registers.sp, 0xFFF6);
    assert_eq!(gb.cpu.registers.f, 0x30);
}

#[test]
fn pop_af_masks_low_nibble() {
    let mut gb = console();
    load_program(&mut gb, &[0xC5, 0xF1]);
    gb.set_register_pair(RegisterPair::BC, 0x1234);
    gb.execute();
    gb.execute();
    assert_eq!(gb.cpu.registers.a, 0x12);
    assert_eq!(gb.cpu.registers.f, 0x30);
}

#[test]
fn timer_interrupt_at_default_tac() {
    let mut gb = console();
    load_program(&mut gb, &[0x00, 0x00, 0x00, 0x00]);
    gb.write_memory(0xFF07, 0x05);
    gb.write_memory(0xFF05, 0xFF);
    gb.write_memory(0xFF06, 0x7E);
    gb.write_memory(0xFF0F, 0x00);
    gb.write_memory(0xFFFF, 0x04);
    gb.timer.div = 8;
    gb.cpu.ime = true;
    gb.cpu.next_ime_state = true;
    for _ in 0..4 {
        gb.interrupt_service_routine();
        gb.execute();
    }
    assert_eq!(gb.timer.tima, 0x7E);
    gb.interrupt_service_routine();
    assert_eq!(gb.cpu.registers.pc, 0x50);
    assert!(!gb.cpu.ime);
}

#[test]
fn oam_dma_blocks_cpu_bus() {
    let mut gb = console();
    for i in 0..160u16 {
        gb.write_memory(0xC100 + i, i as u8);
    }
    gb.write_byte_cpu(0xFF46, 0xC1);
    gb.emulate_hardware();
    gb.emulate_hardware();
    assert_eq!(gb.read_byte_cpu(0xC100), 0xFF);
    for _ in 0..170 {
        gb.emulate_hardware();
    }
    assert!(!gb.oam_dma_state.active);
    for i in 0..160usize {
        assert_eq!(gb.ppu.oam[i], i as u8);
    }
    assert_eq!(gb.read_byte_cpu(0xC100), 0);
    assert_eq!(gb.read_byte_cpu(0xFF46), 0xC1);
}

#[test]
fn mbc1_high_bank_wrap() {
    let mut rom = rom_with(0x01, 6, 0, 0x200000);
    rom[0x40 << 14] = 0xAB;
    rom[0x41 << 14] = 0xCD;
    let mut cart = VirtualCartridge::new(rom, None).unwrap();
    cart.write_byte_rom(0x6000, 0x00);
    cart.write_byte_rom(0x2000, 0x00);
    cart.write_byte_rom(0x4000, 0x02);
    assert_eq!(cart.read_byte_rom(0x4000), 0xAB);
}

#[test]
fn mbc1_bank_zero_reads_bank_one() {
    let mut rom = rom_with(0x01, 2, 0, 0x20000);
    rom[0x4000] = 0x11;
    let mut cart = VirtualCartridge::new(rom, None).unwrap();
    cart.write_byte_rom(0x2000, 0x00);
    assert_eq!(cart.read_byte_rom(0x4000), 0x11);
}

#[test]
fn mbc3_banks_and_ram() {
    let mut rom = rom_with(0x13, 2, 3, 0x20000);
    rom[3 * 0x4000 + 5] = 0x77;
    let mut cart = VirtualCartridge::new(rom, None).unwrap();
    assert_eq!(cart.ram.len(), 32 * 1024);
    cart.write_byte_rom(0x2000, 3);
    assert_eq!(cart.read_byte_rom(0x4005), 0x77);
    assert_eq!(cart.read_byte_ram(0x10), 0xFF);
    cart.write_byte_rom(0x0000, 0x0A);
    cart.write_byte_rom(0x4000, 0x02);
    cart.write_byte_ram(0x10, 0x99);
    assert_eq!(cart.read_byte_ram(0x10), 0x99);
    assert_eq!(cart.ram[2 * 0x2000 + 0x10], 0x99);
}

#[test]
fn header_errors() {
    assert_eq!(CartInfo::new(&vec![0u8; 0x100]), Err(HeaderError::RomTooSmall));
    assert_eq!(CartInfo::new(&rom_with(0x04, 0, 0, 0x150)), Err(HeaderError::InvalidCartridgeType(0x04)));
    assert_eq!(CartInfo::new(&rom_with(0x00, 0x09, 0, 0x150)), Err(HeaderError::InvalidRomSize(0x09)));
    assert_eq!(CartInfo::new(&rom_with(0x00, 0, 0x07, 0x150)), Err(HeaderError::InvalidRamSize(0x07)));
    assert!(matches!(VirtualCartridge::new(rom_with(0x19, 0, 0, 0x8000), None), Err(HeaderError::UnimplementedMbc)));
    assert!(Gameboy::new(vec![0u8; 0x14F], None).is_err());
}

#[test]
fn header_fields() {
    let mut rom = rom_with(0x10, 0x52, 0x05, 0x150);
    rom[0x143] = 0x80;
    rom[0x146] = 0x03;
    let info = CartInfo::new(&rom).unwrap();
    assert_eq!(info.mbc_type, MBCType::MBC3);
    assert!(info.cgb && info.sgb && info.battery && info.rtc);
    assert_eq!(info.rom_size, 0x4000 * 72);
    assert_eq!(info.ram_size, 64 * 1024);
    assert_eq!(CartInfo::new(&rom_with(0, 3, 0, 0x150)).unwrap().rom_size, 0x40000);
}

#[test]
fn header_depends_on_first_bytes_only() {
    let mut a = rom_with(0x01, 1, 2, 0x8000);
    let mut b = a.clone();
    a[0x4000] = 1;
    b[0x7000] = 2;
    assert_eq!(CartInfo::new(&a), CartInfo::new(&b));
}

#[test]
fn ram_is_padded_to_header_size() {
    let cart = VirtualCartridge::new(rom_with(0x03, 0, 2, 0x8000), Some(vec![7u8; 4])).unwrap();
    assert_eq!(cart.ram.len(), 8192);
    assert_eq!(&cart.ram[0..5], &[7, 7, 7, 7, 0]);
}

#[test]
fn instruction_cycles_add_up() {
    let mut gb = console();
    // LD BC,0x1234; INC BC; JR +0; NOP; CALL 0xC00A; (at 0xC00A) RET
    load_program(&mut gb, &[0x01, 0x34, 0x12, 0x03, 0x18, 0x00, 0x00, 0xCD, 0x0A, 0xC0, 0xC9]);
    let start = gb.cpu.cycle_counter;
    for _ in 0..6 {
        gb.execute();
    }
    assert_eq!(gb.cpu.cycle_counter - start, 4 * (3 + 2 + 3 + 1 + 6 + 4));
    assert_eq!(gb.cpu.registers.pc, 0xC00A);
    assert_eq!(gb.cpu.registers.get_register_pair(RegisterPair::BC), 0x1235);
}

#[test]
fn conditional_branch_cycles() {
    let mut gb = console();
    load_program(&mut gb, &[0x20, 0x02, 0x00, 0x00, 0x28, 0x10]);
    gb.cpu.registers.f = 0x80;
    let start = gb.cpu.cycle_counter;
    gb.execute();
    assert_eq!(gb.cpu.cycle_counter - start, 8);
    assert_eq!(gb.cpu.registers.pc, 0xC002);
    gb.cpu.registers.f = 0x00;
    gb.cpu.registers.pc = 0xC000;
    let start = gb.cpu.cycle_counter;
    gb.execute();
    assert_eq!(gb.cpu.cycle_counter - start, 12);
    assert_eq!(gb.cpu.registers.pc, 0xC004);
}

#[test]
fn cb_prefixed_ops() {
    let mut gb = console();
    load_program(&mut gb, &[0xCB, 0x37, 0xCB, 0x7F, 0xCB, 0xC6]);
    gb.cpu.registers.a = 0x1F;
    gb.cpu.registers.h = 0xC1;
    gb.cpu.registers.l = 0x00;
    let start = gb.cpu.cycle_counter;
    gb.execute();
    assert_eq!(gb.cpu.registers.a, 0xF1);
    gb.execute();
    assert_eq!(gb.cpu.registers.f & 0x80, 0);
    gb.execute();
    assert_eq!(gb.read_memory(0xC100), 0x01);
    assert_eq!(gb.cpu.cycle_counter - start, 4 * (2 + 2 + 4));
}

#[test]
fn write_read_memory_round_trip() {
    let mut gb = console();
    for &addr in &[0xC000u16, 0xDFFF, 0xE123, 0xFF80, 0xFFFE, 0x0100, 0x4000] {
        gb.write_memory(addr, 0x5A);
        assert_eq!(gb.read_memory(addr), 0x5A);
    }
    assert_eq!(gb.read_memory(0xC123), 0x5A);
    gb.write_memory(0xFEA0, 0x12);
    assert_eq!(gb.read_memory(0xFEA0), 0xFF);
    gb.write_memory(0xFFFF, 0xFF);
    assert_eq!(gb.read_memory(0xFFFF), 0xFF);
    gb.write_memory(0xFFFF, 0x01);
    assert_eq!(gb.read_memory(0xFFFF), 0xE1);
    gb.write_memory(0xFF0F, 0x03);
    assert_eq!(gb.read_memory(0xFF0F), 0xE3);
}

#[test]
fn address_decode() {
    assert_eq!(MemoryRegion::map_address(0x1234), (MemoryRegion::CartridgeRom, 0x1234));
    assert_eq!(MemoryRegion::map_address(0x8001), (MemoryRegion::Vram, 1));
    assert_eq!(MemoryRegion::map_address(0xA002), (MemoryRegion::CartridgeRam, 2));
    assert_eq!(MemoryRegion::map_address(0xE005), (MemoryRegion::Wram, 5));
    assert_eq!(MemoryRegion::map_address(0xFE9F), (MemoryRegion::Oam, 0x9F));
    assert_eq!(MemoryRegion::map_address(0xFEA0), (MemoryRegion::Unmapped, 0));
    assert_eq!(MemoryRegion::map_address(0xFF44), (MemoryRegion::Io, 0x44));
    assert_eq!(MemoryRegion::map_address(0xFF80), (MemoryRegion::Hram, 0));
    assert_eq!(MemoryRegion::map_address(0xFFFF), (MemoryRegion::Ier, 0));
}

#[test]
fn frame_length_is_70224_cycles() {
    let mut gb = console();
    let mut first: Option<u64> = None;
    let mut last = gb.get_frame_counter();
    let mut ticks: u64 = 0;
    loop {
        gb.tick();
        ticks += 1;
        let now = gb.get_frame_counter();
        if now != last {
            last = now;
            match first {
                None => first = Some(ticks),
                Some(t) => {
                    assert_eq!(ticks - t, 70224);
                    break;
                }
            }
        }
        assert!(ticks < 200_000);
    }
}

#[test]
fn lcd_off_holds_line_zero() {
    let mut gb = console();
    for _ in 0..1000 {
        gb.tick();
    }
    gb.write_memory(0xFF40, 0x11);
    assert_eq!(gb.read_memory(0xFF44), 0);
    for _ in 0..1000 {
        gb.tick();
    }
    assert_eq!(gb.read_memory(0xFF44), 0);
    assert_eq!(gb.read_memory(0xFF41) & 3, 0);
}

#[test]
fn timer_falling_edge_on_div_write() {
    let mut gb = console();
    gb.write_memory(0xFF07, 0x05);
    gb.timer.div = 0x0008;
    gb.write_memory(0xFF05, 0x10);
    gb.write_memory(0xFF04, 0x00);
    assert_eq!(gb.timer.div, 0);
    assert_eq!(gb.timer.tima, 0x11);
    gb.write_memory(0xFF04, 0x00);
    assert_eq!(gb.timer.tima, 0x11);
}

#[test]
fn timer_falling_edge_on_tac_write() {
    let mut gb = console();
    gb.timer.div = 0x0008;
    gb.write_memory(0xFF07, 0x05);
    gb.write_memory(0xFF05, 0x20);
    // bit 3 was high and enabled; selecting bit 9 (low) is a falling edge
    gb.write_memory(0xFF07, 0x04);
    assert_eq!(gb.timer.tima, 0x21);
    // selecting bit 5, also low, is no edge
    gb.write_memory(0xFF07, 0x06);
    assert_eq!(gb.timer.tima, 0x21);
    gb.timer.div = 0x0200;
    gb.write_memory(0xFF07, 0x04);
    // disabling while the selected bit is high is a falling edge
    gb.write_memory(0xFF07, 0x00);
    assert_eq!(gb.timer.tima, 0x22);
    assert_eq!(gb.read_memory(0xFF04), 0x02);
}

#[test]
fn interrupt_registers_keep_five_bits() {
    let mut gb = console();
    gb.write_memory(0xFF0F, 0xFF);
    assert_eq!(gb.cpu.interrupt_flag.value, 0x1F);
    assert_eq!(gb.read_memory(0xFF0F), 0xFF);
    assert_eq!(Interrupt::Serial.mask(), 8);
    assert_eq!(Interrupt::Joypad.address(), 0x60);
}

#[test]
fn keydown_requests_joypad_interrupt() {
    let mut gb = console();
    gb.cpu.halt = true;
    gb.keydown(Key::Start);
    assert!(!gb.cpu.halt);
    assert_eq!(gb.cpu.interrupt_flag.value & 0x10, 0x10);
    gb.write_memory(0xFF00, 0x10);
    assert_eq!(gb.read_memory(0xFF00), 0xC7);
    gb.keyup(Key::Start);
    assert_eq!(gb.read_memory(0xFF00), 0xCF);
    gb.keydown(Key::Left);
    gb.write_memory(0xFF00, 0x20);
    assert_eq!(gb.read_memory(0xFF00), 0xCD);
}

#[test]
fn ei_takes_effect_after_next_instruction() {
    let mut gb = console();
    load_program(&mut gb, &[0xFB, 0x00, 0x00]);
    gb.write_memory(0xFFFF, 0x01);
    gb.write_memory(0xFF0F, 0x01);
    gb.interrupt_service_routine();
    gb.execute();
    gb.interrupt_service_routine();
    assert_eq!(gb.cpu.registers.pc, 0xC001);
    gb.execute();
    gb.interrupt_service_routine();
    assert_eq!(gb.cpu.registers.pc, 0x40);
    assert_eq!(gb.read_memory(0xFF0F) & 1, 0);
}

#[test]
fn halt_waits_for_request() {
    let mut gb = console();
    load_program(&mut gb, &[0x76, 0x00]);
    gb.write_memory(0xFFFF, 0x00);
    gb.execute();
    assert!(gb.cpu.halt);
    let pc = gb.cpu.registers.pc;
    gb.execute();
    assert_eq!(gb.cpu.registers.pc, pc);
    gb.keydown(Key::A);
    gb.execute();
    assert_eq!(gb.cpu.registers.pc, pc + 1);
}

#[test]
fn breakpoints_are_an_ordered_set() {
    let mut gb = console();
    gb.add_breakpoint(Breakpoint::new(0x200, AccessType::Read));
    gb.add_breakpoint(Breakpoint::new(0x100, AccessType::Execute));
    gb.add_breakpoint(Breakpoint::new(0x200, AccessType::Read));
    gb.add_breakpoint(Breakpoint::new(0x100, AccessType::Read));
    let bps = gb.get_breakpoints();
    assert_eq!(bps.len(), 3);
    assert_eq!(bps[0], Breakpoint::new(0x100, AccessType::Read));
    assert_eq!(bps[1], Breakpoint::new(0x100, AccessType::Execute));
    assert_eq!(gb.remove_breakpoint(5), Err(()));
    assert_eq!(gb.remove_breakpoint(0), Ok(Breakpoint::new(0x100, AccessType::Read)));
    assert_eq!(gb.get_breakpoints().len(), 2);
}

#[test]
fn lookahead_finds_breakpoints() {
    let mut gb = console();
    load_program(&mut gb, &[0xC3, 0x00, 0xD0]);
    assert_eq!(gb.breakpoint_lookahead(), None);
    gb.add_breakpoint(Breakpoint::new(0xD000, AccessType::Jump));
    assert_eq!(gb.breakpoint_lookahead(), Some(Breakpoint::new(0xD000, AccessType::Jump)));
    gb.add_breakpoint(Breakpoint::new(0xC000, AccessType::Execute));
    assert_eq!(gb.breakpoint_lookahead(), Some(Breakpoint::new(0xC000, AccessType::Execute)));
    gb.debugger.enable();
    assert_eq!(gb.emulate(1, 0), Some(Breakpoint::new(0xC000, AccessType::Execute)));
    assert!(gb.debugger.hit_breakpoint());
    assert_eq!(gb.debug_step(), Some(Breakpoint::new(0xC000, AccessType::Execute)));
    assert_eq!(gb.cpu.registers.pc, 0xD000);
}

#[test]
fn lookahead_reads_and_writes() {
    let mut gb = console();
    load_program(&mut gb, &[0x77, 0x0A]);
    gb.set_register_pair(RegisterPair::HL, 0xC800);
    gb.set_register_pair(RegisterPair::BC, 0xC900);
    gb.add_breakpoint(Breakpoint::new(0xC800, AccessType::Write));
    gb.add_breakpoint(Breakpoint::new(0xC900, AccessType::Read));
    assert_eq!(gb.breakpoint_lookahead(), Some(Breakpoint::new(0xC800, AccessType::Write)));
    gb.execute();
    assert_eq!(gb.breakpoint_lookahead(), Some(Breakpoint::new(0xC900, AccessType::Read)));
}

#[test]
fn debugger_register_access() {
    let mut gb = console();
    Debugger::set_register(&mut gb, Register::D, 0x42);
    assert_eq!(Debugger::get_register(&gb, Register::D), 0x42);
    Debugger::set_register_pair(&mut gb, RegisterPair::HL, 0xC010);
    Debugger::set_register(&mut gb, Register::AT_HL, 0x99);
    assert_eq!(Debugger::read_byte(&gb, 0xC010), 0x99);
    assert_eq!(Debugger::get_register(&gb, Register::AT_HL), 0x99);
    assert_eq!(Debugger::get_register_pair(&gb, RegisterPair::HL), 0xC010);
    Debugger::set_register(&mut gb, Register::F, 0xFF);
    assert_eq!(gb.get_registers().f, 0xF0);
}

#[test]
fn debugger_step_stops_at_execute_breakpoint() {
    let mut gb = console();
    load_program(&mut gb, &[0x00, 0x00]);
    gb.add_breakpoint(Breakpoint::new(0xC001, AccessType::Execute));
    assert_eq!(Debugger::step(&mut gb, false), None);
    assert_eq!(Debugger::step(&mut gb, false), Some(0xC001));
    assert_eq!(Debugger::step(&mut gb, true), None);
    assert_eq!(gb.cpu.registers.pc, 0xC002);
}

#[test]
fn read_and_write_ranges() {
    let mut gb = console();
    gb.write_range(0xC000, &[1, 2, 3]);
    assert_eq!(gb.read_range(0xC000, 0xC002), Ok(vec![1, 2, 3]));
    assert_eq!(gb.read_range(0xC002, 0xC000), Err(()));
}

#[test]
fn reset_keeps_breakpoints_and_ram() {
    let mut gb = console();
    gb.add_breakpoint(Breakpoint::new(0x150, AccessType::Execute));
    gb.write_memory(0xC000, 9);
    gb.cpu.registers.a = 0;
    gb.reset();
    assert_eq!(gb.cpu.registers.a, 0x01);
    assert_eq!(gb.cpu.registers.pc, 0x0100);
    assert_eq!(gb.get_breakpoints().len(), 1);
    assert_eq!(gb.read_memory(0xC000), 9);
}

#[test]
fn post_boot_io_values() {
    let gb = console();
    assert_eq!(gb.read_memory(0xFF40), 0x91);
    assert_eq!(gb.read_memory(0xFF47), 0xFC);
    assert_eq!(gb.read_memory(0xFF48), 0xFF);
    assert_eq!(gb.read_memory(0xFF49), 0xFF);
    assert_eq!(gb.read_memory(0xFF42), 0);
    assert_eq!(gb.read_memory(0xFF45), 0);
    assert_eq!(gb.io[0x10], 0x80);
    assert_eq!(gb.cpu.registers.sp, 0xFFFE);
}

#[test]
fn serial_transfer_without_peer_reads_ff() {
    let mut gb = console();
    gb.write_memory(0xFF01, 0x42);
    gb.write_memory(0xFF02, 0x81);
    for _ in 0..(64 * 8 - 1) {
        gb.tick();
    }
    assert_eq!(gb.read_memory(0xFF02) & 0x80, 0x80);
    assert_eq!(gb.cpu.interrupt_flag.value & 0x08, 0);
    gb.tick();
    assert_eq!(gb.read_memory(0xFF01), 0xFF);
    assert_eq!(gb.read_memory(0xFF02) & 0x80, 0);
    assert_eq!(gb.cpu.interrupt_flag.value & 0x08, 0x08);
}

#[test]
fn serial_transfer_with_peer() {
    let mut gb = console();
    gb.create_serial_channels();
    gb.serial_send(0x5A);
    gb.write_memory(0xFF01, 0x42);
    gb.write_memory(0xFF02, 0x80);
    gb.tick();
    assert_eq!(gb.read_memory(0xFF01), 0x5A);
    assert_eq!(gb.serial_receive(), Some(0x42));
    assert_eq!(gb.serial_receive(), None);
    assert_eq!(gb.read_memory(0xFF02) & 0x80, 0);
}

#[test]
fn emulate_runs_the_budget() {
    let mut gb = console();
    load_program(&mut gb, &[0x18, 0xFE]);
    gb.emulate(0, 1_000_000);
    assert!(gb.cpu.cycle_counter >= 4194);
    assert!(gb.cpu.cycle_counter < 4194 + 64);
    assert_eq!(gb.get_framebuffer().len(), 160 * 144);
}

#[test]
fn frame_renders_background() {
    let mut gb = console();
    load_program(&mut gb, &[0x18, 0xFE]);
    for i in 0..16u16 {
        gb.write_memory(0x8010 + i, 0xFF);
    }
    for i in 0..1024u16 {
        gb.write_memory(0x9800 + i, 1);
    }
    gb.emulate(0, 40_000_000);
    let fb = gb.get_framebuffer();
    assert_eq!(fb[0], 0x081820FF);
    assert_eq!(fb[160 * 144 - 1], 0x081820FF);
    assert!(gb.get_frame_counter() >= 2);
}

#[test]
fn dumps_have_their_sizes() {
    let gb = console();
    let t = gb.dump_tiles();
    assert_eq!((t.width, t.height, t.data.len()), (128, 192, 128 * 192));
    let b = gb.dump_bg();
    assert_eq!((b.width, b.height, b.data.len()), (256, 256, 256 * 256));
}

#[test]
fn cartridge_ram_is_exposed() {
    let gb = Gameboy::new(rom_with(0x03, 0, 2, 0x8000), Some(vec![5u8; 8192])).unwrap();
    assert_eq!(gb.cartridge_ram().len(), 8192);
    assert_eq!(gb.cartridge_ram()[100], 5);
}

#[test]
fn save_and_load_state_round_trip() {
    let mut gb = Gameboy::new(rom_with(0x13, 2, 3, 0x20000), None).unwrap();
    load_program(&mut gb, &[0x3C, 0x18, 0xFD]);
    gb.write_memory(0x2000, 3);
    gb.emulate(0, 5_000_000);
    gb.write_memory(0xC100, 0x77);
    gb.write_memory(0xFF80, 0x66);
    gb.keydown(Key::B);
    let saved = gb.save_state();
    assert_eq!(&saved[0..2], &[1, 0]);

    let mut other = Gameboy::new(rom_with(0x13, 2, 3, 0x20000), None).unwrap();
    assert_eq!(other.load_state(&saved), Ok(()));
    assert_eq!(other.get_registers(), gb.get_registers());
    assert_eq!(other.cpu.cycle_counter, gb.cpu.cycle_counter);
    assert_eq!(other.read_memory(0xC100), 0x77);
    assert_eq!(other.read_memory(0xFF80), 0x66);
    assert_eq!(other.timer, gb.timer);
    assert_eq!(other.ppu.line, gb.ppu.line);
    assert_eq!(other.ppu.clock, gb.ppu.clock);
    assert_eq!(other.get_frame_counter(), gb.get_frame_counter());
    assert_eq!(other.cart.mbc, gb.cart.mbc);
    assert!(other.joypad.key_state(Key::B));
    assert_eq!(other.save_state(), saved);
}

#[test]
fn load_state_rejects_bad_input() {
    let mut gb = console();
    gb.write_memory(0xC000, 0x42);
    assert!(gb.load_state(&[1, 2, 3]).is_err());
    let mut saved = gb.save_state();
    saved.truncate(saved.len() - 1);
    assert_eq!(gb.load_state(&saved), Err(rustboy::snapshot::LoadStateError::Invalid));
    let other = Gameboy::new(rom_with(0x01, 0, 0, 0x8000), None).unwrap();
    assert_eq!(gb.load_state(&other.save_state()), Err(rustboy::snapshot::LoadStateError::Invalid));
    let mut wrong_version = gb.save_state();
    wrong_version[0] = 9;
    assert_eq!(gb.load_state(&wrong_version), Err(rustboy::snapshot::LoadStateError::Incompatible));
    assert_eq!(gb.read_memory(0xC000), 0x42);
}

#[test]
fn compressed_state_round_trip() {
    let mut gb = console();
    gb.write_memory(0xD000, 0xAB);
    let state = gb.save_state();
    let mut encoder = flate2::write::DeflateEncoder::new(Vec::new(), flate2::Compression::default());
    encoder.write_all(&state).unwrap();
    let packed = encoder.finish().unwrap();
    assert!(packed.len() < state.len());
    let mut unpacked = Vec::new();
    flate2::read::DeflateDecoder::new(&packed[..]).read_to_end(&mut unpacked).unwrap();
    let mut fresh = console();
    assert_eq!(fresh.load_state(&unpacked), Ok(()));
    assert_eq!(fresh.read_memory(0xD000), 0xAB);
}

#[test]
fn post_boot_stat_and_ly() {
    let mut gb = console();
    assert_eq!(gb.read_memory(0xFF41), 0x85);
    assert_eq!(gb.read_memory(0xFF44), 0);
    gb.write_memory(0xFF44, 0x55);
    assert_eq!(gb.read_memory(0xFF44), 0);
}

#[test]
fn cb_ops_on_memory_at_hl() {
    let mut gb = console();
    // BIT 3,(HL); RES 7,(HL); SET 0,(HL); RLC (HL)
    load_program(&mut gb, &[0xCB, 0x5E, 0xCB, 0xBE, 0xCB, 0xC6, 0xCB, 0x06]);
    gb.set_register_pair(RegisterPair::HL, 0xFF90);
    gb.write_memory(0xFF90, 0x88);
    gb.cpu.registers.f = 0x10;
    let start = gb.cpu.cycle_counter;
    gb.execute();
    assert_eq!(gb.cpu.cycle_counter - start, 12);
    assert_eq!(gb.cpu.registers.f, 0x30);
    assert_eq!(gb.read_memory(0xFF90), 0x88);
    gb.execute();
    assert_eq!(gb.read_memory(0xFF90), 0x08);
    assert_eq!(gb.cpu.registers.f, 0x30);
    gb.execute();
    assert_eq!(gb.read_memory(0xFF90), 0x09);
    gb.execute();
    assert_eq!(gb.read_memory(0xFF90), 0x12);
    assert_eq!(gb.cpu.registers.f, 0x00);
    assert_eq!(gb.cpu.cycle_counter - start, 4 * (3 + 4 + 4 + 4));
}

#[test]
fn lookahead_sees_rst_targets() {
    let mut gb = console();
    load_program(&mut gb, &[0xEF]);
    gb.add_breakpoint(Breakpoint::new(0x28, AccessType::Jump));
    assert_eq!(gb.breakpoint_lookahead(), Some(Breakpoint::new(0x28, AccessType::Jump)));
    load_program(&mut gb, &[0xFF]);
    gb.add_breakpoint(Breakpoint::new(0x38, AccessType::Jump));
    assert_eq!(gb.breakpoint_lookahead(), Some(Breakpoint::new(0x38, AccessType::Jump)));
}

#[test]
fn dispatch_pushes_pc_and_clears_request() {
    let mut gb = console();
    gb.cpu.registers.pc = 0x1234;
    gb.cpu.registers.sp = 0xFFF0;
    gb.cpu.ime = true;
    gb.write_memory(0xFFFF, 0x04);
    gb.write_memory(0xFF0F, 0x05);
    gb.interrupt_service_routine();
    assert_eq!(gb.cpu.registers.pc, 0x50);
    assert_eq!(gb.cpu.registers.sp, 0xFFEE);
    assert_eq!(gb.read_memory(0xFFEF), 0x12);
    assert_eq!(gb.read_memory(0xFFEE), 0x34);
    assert_eq!(gb.cpu.interrupt_flag.value & 0x04, 0);
    assert_eq!(gb.cpu.interrupt_flag.value & 0x01, 0x01);
}

#[test]
fn serial_shifts_sb_each_bit() {
    let mut gb = console();
    gb.write_memory(0xFF01, 0x42);
    gb.write_memory(0xFF02, 0x81);
    for _ in 0..63 {
        gb.tick();
    }
    assert_eq!(gb.read_memory(0xFF01), 0x42);
    gb.tick();
    assert_eq!(gb.read_memory(0xFF01), 0x85);
}
