//! The interrupt request (IF) and enable (IE) registers.
use vstd::prelude::*;

verus! {

/// The five interrupt sources, in priority order.
#[derive(Clone, Copy, Debug, PartialEq, Eq, Structural)]
pub enum Interrupt {
    VBlank,
    LcdStat,
    Timer,
    Serial,
    Joypad,
}

/// The bit of IF and IE that belongs to an interrupt.
pub open spec fn mask_of(kind: Interrupt) -> u8 {
    match kind {
        Interrupt::VBlank => 1,
        Interrupt::LcdStat => 2,
        Interrupt::Timer => 4,
        Interrupt::Serial => 8,
        Interrupt::Joypad => 16,
    }
}

/// The handler address of an interrupt.
pub open spec fn vector_of(kind: Interrupt) -> u16 {
    match kind {
        Interrupt::VBlank => 0x40,
        Interrupt::LcdStat => 0x48,
        Interrupt::Timer => 0x50,
        Interrupt::Serial => 0x58,
        Interrupt::Joypad => 0x60,
    }
}

impl Interrupt {
    /// The interrupt's bit in IF and IE.
    pub fn mask(&self) -> (r: u8)
        ensures
            r == mask_of(*self),
    {
        match *self {
            Interrupt::VBlank => 1,
            Interrupt::LcdStat => 2,
            Interrupt::Timer => 4,
            Interrupt::Serial => 8,
            Interrupt::Joypad => 16,
        }
    }

    /// The interrupt's handler address.
    pub fn address(&self) -> (r: u16)
        ensures
            r == vector_of(*self),
    {
        match *self {
            Interrupt::VBlank => 0x40,
            Interrupt::LcdStat => 0x48,
            Interrupt::Timer => 0x50,
            Interrupt::Serial => 0x58,
            Interrupt::Joypad => 0x60,
        }
    }
}

/// The interrupt request register, IF (0xFF0F). Only the low five bits are kept.
#[derive(Clone, Copy, Debug, PartialEq, Eq, Structural)]
pub struct InterruptFlag {
    pub value: u8,
}

impl InterruptFlag {
    pub open spec fn wf(&self) -> bool {
        self.value < 32
    }

    /// IF as the boot program leaves it: a VBlank request.
    pub fn new() -> (r: InterruptFlag)
        ensures
            r.value == 1,
            r.wf(),
    {
        InterruptFlag { value: 1 }
    }

    /// Returns IF to its post-boot value.
    pub fn reset(&mut self)
        ensures
            final(self).value == 1,
    {
        self.value = 1;
    }

    /// Sets the interrupt's request bit.
    pub fn request_interrupt(&mut self, kind: Interrupt)
        requires
            old(self).wf(),
        ensures
            final(self).value == old(self).value | mask_of(kind),
            final(self).wf(),
    {
        let m = kind.mask();
        let v = self.value;
        assert(v < 32 && m < 32 ==> v | m < 32) by (bit_vector);
        self.value = v | m;
    }

    /// Clears the interrupt's request bit.
    pub fn clear_interrupt(&mut self, kind: Interrupt)
        requires
            old(self).wf(),
        ensures
            final(self).value == old(self).value & !mask_of(kind),
            final(self).wf(),
    {
        let m = kind.mask();
        let v = self.value;
        assert(v < 32 ==> v & !m < 32) by (bit_vector);
        self.value = v & !m;
    }

    /// Sets every request bit of a mask of the five interrupts.
    pub fn request_mask(&mut self, mask: u8)
        requires
            old(self).wf(),
            mask < 32,
        ensures
            final(self).value == old(self).value | mask,
            final(self).wf(),
    {
        let v = self.value;
        assert(v < 32 && mask < 32 ==> v | mask < 32) by (bit_vector);
        self.value = v | mask;
    }

    /// Reads IF: the top three bits read as one.
    pub fn read(&self) -> (r: u8)
        requires
            self.wf(),
        ensures
            r == self.value + 0xE0,
    {
        self.value + 0xE0
    }

    /// Writes IF: only the low five bits are kept.
    pub fn write(&mut self, value: u8)
        ensures
            final(self).value == value % 32,
            final(self).wf(),
    {
        self.value = value % 32;
    }
}

/// The interrupt enable register, IE (0xFFFF). Only the low five bits are kept.
#[derive(Clone, Copy, Debug, PartialEq, Eq, Structural)]
pub struct InterruptEnable {
    pub value: u8,
}

impl InterruptEnable {
    pub open spec fn wf(&self) -> bool {
        self.value < 32
    }

    /// IE with every interrupt disabled.
    pub fn new() -> (r: InterruptEnable)
        ensures
            r.value == 0,
            r.wf(),
    {
        InterruptEnable { value: 0 }
    }

    /// Disables every interrupt.
    pub fn reset(&mut self)
        ensures
            final(self).value == 0,
    {
        self.value = 0;
    }

    /// Reads IE: the top three bits read as one.
    pub fn read(&self) -> (r: u8)
        requires
            self.wf(),
        ensures
            r == self.value + 0xE0,
    {
        self.value + 0xE0
    }

    /// Writes IE: only the low five bits are kept.
    pub fn write(&mut self, value: u8)
        ensures
            final(self).value == value % 32,
            final(self).wf(),
    {
        self.value = value % 32;
    }
}

/// The requests that a peripheral raises during one clock, collected so that
/// the owner of IF can record them (and wake the CPU) afterwards.
#[derive(Clone, Copy, Debug, PartialEq, Eq, Structural)]
pub struct InterruptLine {
    pub requested: u8,
}

impl InterruptLine {
    pub open spec fn wf(&self) -> bool {
        self.requested < 32
    }

    /// A line with nothing requested.
    pub fn new() -> (r: InterruptLine)
        ensures
            r.requested == 0,
    {
        InterruptLine { requested: 0 }
    }

    /// Raises every request of a mask of the five interrupts.
    pub fn request_mask(&mut self, mask: u8)
        requires
            old(self).wf(),
            mask < 32,
        ensures
            final(self).requested == old(self).requested | mask,
            final(self).wf(),
    {
        let v = self.requested;
        assert(v < 32 && mask < 32 ==> v | mask < 32) by (bit_vector);
        self.requested = v | mask;
    }

    /// Whether a request for an interrupt has been raised.
    pub open spec fn raised(&self, kind: Interrupt) -> bool {
        self.requested & mask_of(kind) != 0
    }

    /// Raises a request; those raised before stay raised.
    pub fn request_interrupt(&mut self, kind: Interrupt)
        requires
            old(self).wf(),
        ensures
            final(self).requested == old(self).requested | mask_of(kind),
            final(self).wf(),
            final(self).raised(kind),
            forall|k: Interrupt| old(self).raised(k) ==> #[trigger] final(self).raised(k),
    {
        let m = kind.mask();
        let v = self.requested;
        assert(v < 32 && m < 32 ==> v | m < 32) by (bit_vector);
        assert(m != 0 ==> (v | m) & m != 0) by (bit_vector);
        assert forall|k: Interrupt| old(self).raised(k) implies #[trigger] (Self { requested: v | m }).raised(k) by {
            let q = mask_of(k);
            assert((v & q) != 0 ==> ((v | m) & q) != 0) by (bit_vector);
        }
        self.requested = v | m;
    }
}

} // verus!
