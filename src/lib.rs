//! An emulator core for the 8-bit handheld console: CPU interpreter, memory bus,
//! pixel-processing unit, timer, serial link, joypad, OAM DMA and cartridge
//! bank controllers, with their behaviour stated as Verus contracts.
use vstd::prelude::*;

pub mod alu;
pub mod interrupts;
pub mod registers;
pub mod mode;
pub mod timer;
pub mod joypad;
pub mod oam_dma;
pub mod serial;
pub mod rtc;
pub mod mbc;
pub mod cartridge;
pub mod framebuffer;
pub mod ppu;
pub mod cpu;
pub mod debugger;
pub mod gameboy;
pub mod instructions;
pub mod inspect;
pub mod util;
pub mod savestate;
pub mod numbers;
pub mod snapshot;

verus! {

/// Width of the LCD in pixels.
pub const WIDTH: usize = 160;

/// Height of the LCD in pixels.
pub const HEIGHT: usize = 144;

} // verus!
