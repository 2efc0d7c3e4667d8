//! The state of the OAM DMA controller, which copies 160 bytes from a page
//! into sprite memory over 648 T-cycles.
use vstd::prelude::*;

verus! {

/// T-cycles from the start of a transfer to its end.
pub const OAM_DMA_CYCLES: u16 = 648;

/// Bytes copied by one transfer.
pub const OAM_DMA_LENGTH: u16 = 160;

/// The controller's registers.
#[derive(Clone, Copy, Debug, PartialEq, Eq, Structural)]
pub struct OamDmaState {
    /// A transfer is running.
    pub active: bool,
    /// The first source address: the page written to 0xFF46, times 256.
    pub start_address: u16,
    /// The offset of the next byte to copy.
    pub current_offset: u16,
    /// T-cycles since the transfer started.
    pub current_cycle: u16,
}

/// Whether the CPU may not reach `address` while the DMA reads from `src`.
pub open spec fn blocks(src: u16, address: u16) -> bool {
    if address <= 0x7FFF || (0xA000 <= address <= 0xFDFF) {
        src < 0x8000 || (0xA000 <= src < 0xFE00)
    } else if 0x8000 <= address <= 0x9FFF {
        0x8000 <= src < 0xA000
    } else {
        0xFE00 <= address <= 0xFE9F
    }
}

impl OamDmaState {
    pub open spec fn wf(&self) -> bool {
        &&& self.start_address % 256 == 0
        &&& self.current_offset <= OAM_DMA_LENGTH
        &&& self.current_cycle <= OAM_DMA_CYCLES
        &&& self.active ==> self.current_cycle < OAM_DMA_CYCLES
    }

    /// The address being read, once the start-up cycles are over.
    pub open spec fn source(&self) -> Option<u16> {
        if self.active && self.current_cycle > 4 {
            Some((self.start_address + self.current_offset) as u16)
        } else {
            None
        }
    }

    /// No transfer running.
    pub fn new() -> (r: OamDmaState)
        ensures
            !r.active && r.start_address == 0 && r.current_offset == 0 && r.current_cycle == 0,
            r.wf(),
    {
        OamDmaState { active: false, start_address: 0, current_offset: 0, current_cycle: 0 }
    }

    /// Stops any transfer and clears the registers.
    pub fn reset(&mut self)
        ensures
            *final(self) == OamDmaState::new_spec(),
    {
        self.active = false;
        self.start_address = 0;
        self.current_offset = 0;
        self.current_cycle = 0;
    }

    pub open spec fn new_spec() -> OamDmaState {
        OamDmaState { active: false, start_address: 0, current_offset: 0, current_cycle: 0 }
    }

    /// The address that the controller is reading from, if it is past its start-up cycle.
    pub fn current_src_address(&self) -> (r: Option<u16>)
        requires
            self.wf(),
        ensures
            r == self.source(),
    {
        if self.active && self.current_cycle > 4 {
            Some(self.start_address + self.current_offset)
        } else {
            None
        }
    }

    /// Starts a transfer from page `addr_high`.
    pub fn start_oam_dma(&mut self, addr_high: u8)
        ensures
            final(self).active,
            final(self).current_cycle == 0,
            final(self).current_offset == 0,
            final(self).start_address == addr_high * 256,
            final(self).wf(),
    {
        self.active = true;
        self.current_cycle = 0;
        self.current_offset = 0;
        self.start_address = addr_high as u16 * 256;
    }

    /// 0xFF46 reads back the last page written.
    pub fn read_ff46(&self) -> (r: u8)
        ensures
            r == self.start_address / 256,
    {
        (self.start_address / 256) as u8
    }

    /// Whether a CPU access to `address` collides with the transfer: the
    /// external bus (cartridge, work RAM) when the source is on it, VRAM when
    /// the source is VRAM, and OAM always.
    pub fn should_block_cpu_access(&self, address: u16) -> (r: bool)
        requires
            self.wf(),
        ensures
            r == (self.source() matches Some(src) && blocks(src, address)),
    {
        match self.current_src_address() {
            Some(src) => {
                if address <= 0x7FFF || (0xA000 <= address && address <= 0xFDFF) {
                    src < 0x8000 || (0xA000 <= src && src < 0xFE00)
                } else if 0x8000 <= address && address <= 0x9FFF {
                    0x8000 <= src && src < 0xA000
                } else {
                    0xFE00 <= address && address <= 0xFE9F
                }
            },
            None => false,
        }
    }

    /// Whether this T-cycle copies a byte: from the fourth cycle on, once per
    /// machine cycle, while bytes remain.
    pub open spec fn copies_now(&self) -> bool {
        self.active && 4 <= self.current_cycle && self.current_cycle % 4 == 0
            && self.current_offset < OAM_DMA_LENGTH
    }

    /// The state after one T-cycle, given whether a byte was copied.
    pub open spec fn advanced(&self) -> OamDmaState {
        let offset = if self.copies_now() { (self.current_offset + 1) as u16 } else { self.current_offset };
        let cycle = (self.current_cycle + 1) as u16;
        OamDmaState {
            active: cycle < OAM_DMA_CYCLES,
            current_offset: offset,
            current_cycle: cycle,
            ..*self
        }
    }

    /// Whether this T-cycle copies a byte.
    pub fn copies_this_cycle(&self) -> (r: bool)
        ensures
            r == self.copies_now(),
    {
        self.active && 4 <= self.current_cycle && self.current_cycle % 4 == 0
            && self.current_offset < OAM_DMA_LENGTH
    }

    /// Moves an active transfer on by one T-cycle.
    pub fn advance(&mut self)
        requires
            old(self).wf(),
            old(self).active,
        ensures
            *final(self) == old(self).advanced(),
            final(self).wf(),
    {
        if self.copies_this_cycle() {
            self.current_offset = self.current_offset + 1;
        }
        self.current_cycle = self.current_cycle + 1;
        if self.current_cycle >= OAM_DMA_CYCLES {
            self.active = false;
        }
    }
}

} // verus!
