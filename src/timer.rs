//! The divider and the programmable timer (DIV, TIMA, TMA, TAC).
use vstd::prelude::*;
use crate::interrupts::{Interrupt, InterruptLine, mask_of};
use crate::mode::{Mode, InvalidModeDiscriminant, mode_byte};

verus! {

pub const DIV_ADDRESS: u16 = 0xFF04;
pub const TIMA_ADDRESS: u16 = 0xFF05;
pub const TMA_ADDRESS: u16 = 0xFF06;
pub const TAC_ADDRESS: u16 = 0xFF07;

/// Cycles between an overflow of TIMA and its reload from TMA.
pub const OVERFLOW_DELAY: u8 = 4;

/// Length of a serialized timer.
pub const TIMER_STATE_BUFFER_LENGTH: usize = 8;

/// The timer's memory-mapped registers.
#[derive(Clone, Copy, Debug, PartialEq, Eq, Structural)]
pub enum TimerRegister {
    Div,
    Tima,
    Tma,
    Tac,
}

pub open spec fn timer_register_address(r: TimerRegister) -> u16 {
    match r {
        TimerRegister::Div => DIV_ADDRESS,
        TimerRegister::Tima => TIMA_ADDRESS,
        TimerRegister::Tma => TMA_ADDRESS,
        TimerRegister::Tac => TAC_ADDRESS,
    }
}

/// The timer register at an address, if any.
pub open spec fn timer_register_at(address: u16) -> Option<TimerRegister> {
    if address == DIV_ADDRESS {
        Some(TimerRegister::Div)
    } else if address == TIMA_ADDRESS {
        Some(TimerRegister::Tima)
    } else if address == TMA_ADDRESS {
        Some(TimerRegister::Tma)
    } else if address == TAC_ADDRESS {
        Some(TimerRegister::Tac)
    } else {
        None
    }
}

impl TimerRegister {
    /// The register's address.
    pub fn address(&self) -> (r: u16)
        ensures
            r == timer_register_address(*self),
    {
        match self {
            TimerRegister::Div => DIV_ADDRESS,
            TimerRegister::Tima => TIMA_ADDRESS,
            TimerRegister::Tma => TMA_ADDRESS,
            TimerRegister::Tac => TAC_ADDRESS,
        }
    }

    /// The register at an address, if any.
    pub fn map_address(address: u16) -> (r: Option<TimerRegister>)
        ensures
            r == timer_register_at(address),
            r matches Some(reg) ==> timer_register_address(reg) == address,
            r is None <==> !(DIV_ADDRESS <= address <= TAC_ADDRESS),
    {
        match address {
            DIV_ADDRESS => Some(TimerRegister::Div),
            TIMA_ADDRESS => Some(TimerRegister::Tima),
            TMA_ADDRESS => Some(TimerRegister::Tma),
            TAC_ADDRESS => Some(TimerRegister::Tac),
            _ => None,
        }
    }
}

/// The power of two of the DIV bit that clock select `tac % 4` watches: bit 9, 3, 5 or 7.
pub open spec fn select_mask(tac: u8) -> u16 {
    if tac % 4 == 0 {
        512
    } else if tac % 4 == 1 {
        8
    } else if tac % 4 == 2 {
        32
    } else {
        128
    }
}

/// The input of TIMA's edge detector: the enable bit of TAC and the selected bit of DIV.
pub open spec fn timer_input(tac: u8, div: u16) -> bool {
    (tac / 4) % 2 == 1 && (div / select_mask(tac)) % 2 == 1
}

/// Whether going from the first (TAC, DIV) pair to the second is a falling edge.
pub open spec fn falling_edge(tac0: u8, div0: u16, tac1: u8, div1: u16) -> bool {
    timer_input(tac0, div0) && !timer_input(tac1, div1)
}

/// DIV, TIMA, TMA, TAC and the pending reload.
#[derive(Clone, Copy, Debug, PartialEq, Eq, Structural)]
pub struct Timer {
    pub model: Mode,
    /// The 16-bit divider; its high byte reads at 0xFF04.
    pub div: u16,
    pub tima: u8,
    pub tma: u8,
    pub tac: u8,
    /// Cycles left before TIMA is reloaded after an overflow.
    pub tima_overflow_delay: Option<u8>,
}

/// A buffer that does not hold a serialized timer.
#[derive(Clone, Copy, Debug, PartialEq, Eq, Structural)]
pub enum TimerDeserializationError {
    InvalidMode(InvalidModeDiscriminant),
    InvalidBufferLength(usize),
}

impl Timer {
    pub open spec fn wf(&self) -> bool {
        self.tima_overflow_delay matches Some(d) ==> d <= OVERFLOW_DELAY
    }

    /// TIMA and the pending reload after one increment of TIMA.
    pub open spec fn incremented(&self) -> Timer {
        if self.tima == 255 {
            Timer { tima: 0, tima_overflow_delay: Some(OVERFLOW_DELAY), ..*self }
        } else {
            Timer { tima: (self.tima + 1) as u8, ..*self }
        }
    }

    /// A timer with every register clear.
    pub fn new(model: Mode) -> (r: Timer)
        ensures
            r.model == model,
            r.div == 0 && r.tima == 0 && r.tma == 0 && r.tac == 0,
            r.tima_overflow_delay is None,
            r.wf(),
    {
        Timer { model, div: 0, tima: 0, tma: 0, tac: 0, tima_overflow_delay: None }
    }

    /// Clears every register.
    pub fn reset(&mut self)
        ensures
            final(self).model == old(self).model,
            final(self).div == 0 && final(self).tima == 0 && final(self).tma == 0 && final(self).tac == 0,
            final(self).tima_overflow_delay is None,
            final(self).wf(),
    {
        self.div = 0;
        self.tima = 0;
        self.tma = 0;
        self.tac = 0;
        self.tima_overflow_delay = None;
    }

    /// The full 16-bit divider.
    pub fn get_div(&self) -> (r: u16)
        ensures
            r == self.div,
    {
        self.div
    }

    fn input(tac: u8, div: u16) -> (r: bool)
        ensures
            r == timer_input(tac, div),
    {
        let m: u16 = match tac % 4 {
            0 => 512,
            1 => 8,
            2 => 32,
            _ => 128,
        };
        (tac / 4) % 2 == 1 && (div / m) % 2 == 1
    }

    fn increment(&mut self)
        ensures
            *final(self) == old(self).incremented(),
    {
        if self.tima == 255 {
            self.tima = 0;
            self.tima_overflow_delay = Some(OVERFLOW_DELAY);
        } else {
            self.tima = self.tima + 1;
        }
    }

    /// Whether `next`, with the requests `line1`, is this timer one T-cycle
    /// later, given the requests `line0` raised before the cycle.
    /// The timer one T-cycle on.
    pub open spec fn next(&self) -> Timer {
        let div = ((self.div + 1) % 65536) as u16;
        if self.tima_overflow_delay == Some(0u8) {
            Timer { div, tima: self.tma, tima_overflow_delay: None, ..*self }
        } else {
            let waited = Timer {
                div,
                tima_overflow_delay: match self.tima_overflow_delay {
                    Some(d) => Some((d - 1) as u8),
                    None => None,
                },
                ..*self
            };
            if falling_edge(self.tac, self.div, self.tac, div) {
                waited.incremented()
            } else {
                waited
            }
        }
    }

    /// The requests of one T-cycle: the timer interrupt (bit 2) when a reload completes.
    pub open spec fn requests(&self) -> u8 {
        if self.tima_overflow_delay == Some(0u8) {
            4
        } else {
            0
        }
    }

    pub open spec fn ticked(&self, next: Timer, line0: InterruptLine, line1: InterruptLine) -> bool {
        &&& next.wf()
        &&& line1.wf()
        &&& next.div == (self.div + 1) % 65536
        &&& next.model == self.model
        &&& next.tma == self.tma
        &&& next.tac == self.tac
        &&& self.tima_overflow_delay == Some(0u8) ==> {
                    &&& next.tima == self.tma
                    &&& next.tima_overflow_delay is None
                    &&& line1.requested == line0.requested | mask_of(Interrupt::Timer)
                }
        &&& self.tima_overflow_delay != Some(0u8) ==> {
                    let waited = Timer {
                        tima_overflow_delay: match self.tima_overflow_delay {
                            Some(d) => Some((d - 1) as u8),
                            None => None,
                        },
                        ..*self
                    };
                    let edge = falling_edge(self.tac, self.div, self.tac, next.div);
                    &&& next.tima == (if edge { waited.incremented().tima } else { waited.tima })
                    &&& next.tima_overflow_delay == (if edge {
                        waited.incremented().tima_overflow_delay
                    } else {
                        waited.tima_overflow_delay
                    })
                    &&& line1 == line0
                }
        &&& next == self.next()
        &&& line1.requested == line0.requested | self.requests()
    }

    /// One T-cycle: DIV counts up; a falling edge of the timer input
    /// increments TIMA; a reload that has waited out its delay copies TMA into
    /// TIMA and requests the timer interrupt.
    pub fn emulate_hardware(&mut self, interrupt_line: &mut InterruptLine)
        requires
            old(self).wf(),
            old(interrupt_line).wf(),
        ensures
            old(self).ticked(*final(self), *old(interrupt_line), *final(interrupt_line)),
    {
        let ghost v = interrupt_line.requested;
        assert(v | 0u8 == v) by (bit_vector);
        let old_div = self.div;
        self.div = self.div.wrapping_add(1);
        match self.tima_overflow_delay {
            Some(0) => {
                self.tima = self.tma;
                self.tima_overflow_delay = None;
                interrupt_line.request_interrupt(Interrupt::Timer);
            },
            _ => {
                match self.tima_overflow_delay {
                    Some(d) => {
                        self.tima_overflow_delay = Some(d - 1);
                    },
                    None => {},
                }
                if Timer::input(self.tac, old_div) && !Timer::input(self.tac, self.div) {
                    self.increment();
                }
            },
        }
    }

    /// The value that a timer register reads; DIV shows the high byte of the divider.
    pub open spec fn register_value(&self, reg: TimerRegister) -> u8 {
        match reg {
            TimerRegister::Div => (self.div / 256) as u8,
            TimerRegister::Tima => self.tima,
            TimerRegister::Tma => self.tma,
            TimerRegister::Tac => self.tac,
        }
    }

    /// Reads a timer register; DIV shows the high byte of the divider.
    pub fn read_io(&self, reg: TimerRegister) -> (r: u8)
        ensures
            r == self.register_value(reg),
            r == match reg {
                TimerRegister::Div => (self.div / 256) as u8,
                TimerRegister::Tima => self.tima,
                TimerRegister::Tma => self.tma,
                TimerRegister::Tac => self.tac,
            },
    {
        match reg {
            TimerRegister::Div => (self.div / 256) as u8,
            TimerRegister::Tima => self.tima,
            TimerRegister::Tma => self.tma,
            TimerRegister::Tac => self.tac,
        }
    }

    /// Writes a timer register. A write to DIV clears the divider, a write to
    /// TAC replaces it; either increments TIMA when it makes the timer input
    /// fall. A write to TIMA cancels a pending reload.
    pub fn write_io(&mut self, reg: TimerRegister, value: u8)
        requires
            old(self).wf(),
        ensures
            final(self).wf(),
            final(self).model == old(self).model,
            match reg {
                TimerRegister::Div => {
                    let cleared = Timer { div: 0, ..*old(self) };
                    *final(self) == if falling_edge(old(self).tac, old(self).div, old(self).tac, 0) {
                        cleared.incremented()
                    } else {
                        cleared
                    }
                },
                TimerRegister::Tima => *final(self) == Timer {
                    tima: value,
                    tima_overflow_delay: None,
                    ..*old(self)
                },
                TimerRegister::Tma => *final(self) == Timer { tma: value, ..*old(self) },
                TimerRegister::Tac => {
                    let replaced = Timer { tac: value, ..*old(self) };
                    *final(self) == if falling_edge(old(self).tac, old(self).div, value, old(self).div) {
                        replaced.incremented()
                    } else {
                        replaced
                    }
                },
            },
    {
        match reg {
            TimerRegister::Div => {
                let before = Timer::input(self.tac, self.div);
                self.div = 0;
                if before && !Timer::input(self.tac, 0) {
                    self.increment();
                }
            },
            TimerRegister::Tima => {
                self.tima = value;
                self.tima_overflow_delay = None;
            },
            TimerRegister::Tma => {
                self.tma = value;
            },
            TimerRegister::Tac => {
                let before = Timer::input(self.tac, self.div);
                let after = Timer::input(value, self.div);
                self.tac = value;
                if before && !after {
                    self.increment();
                }
            },
        }
    }

    /// The timer as eight bytes: model, DIV and TIMA big-endian, TMA, TAC,
    /// and the pending reload delay (0xFF for none).
    pub open spec fn serialized(&self) -> Seq<u8> {
        seq![
            mode_byte(self.model),
            (self.div / 256) as u8,
            (self.div % 256) as u8,
            0u8,
            self.tima,
            self.tma,
            self.tac,
            match self.tima_overflow_delay {
                Some(d) => d,
                None => 0xFFu8,
            },
        ]
    }

    /// Serializes the timer.
    pub fn serialize(&self) -> (r: Vec<u8>)
        ensures
            r@ == self.serialized(),
    {
        let mut buf: Vec<u8> = Vec::new();
        buf.push(self.model.to_byte());
        buf.push((self.div / 256) as u8);
        buf.push((self.div % 256) as u8);
        buf.push(0);
        buf.push(self.tima);
        buf.push(self.tma);
        buf.push(self.tac);
        match self.tima_overflow_delay {
            Some(d) => buf.push(d),
            None => buf.push(0xFF),
        }
        assert(buf@ =~= self.serialized());
        buf
    }

    /// Reads a timer back from eight bytes. The buffer must be eight bytes
    /// long and start with a model byte; TIMA is the low byte of its word.
    pub fn deserialize(buf: &[u8]) -> (r: Result<Timer, TimerDeserializationError>)
        ensures
            buf@.len() != TIMER_STATE_BUFFER_LENGTH ==> r == Err::<Timer, TimerDeserializationError>(
                TimerDeserializationError::InvalidBufferLength(buf@.len() as usize),
            ),
            buf@.len() == TIMER_STATE_BUFFER_LENGTH && buf@[0] >= 2 ==> r == Err::<Timer, TimerDeserializationError>(
                TimerDeserializationError::InvalidMode(InvalidModeDiscriminant { value: buf@[0] }),
            ),
            r matches Ok(t) ==> {
                &&& buf@.len() == TIMER_STATE_BUFFER_LENGTH
                &&& mode_byte(t.model) == buf@[0]
                &&& t.div == buf@[1] * 256 + buf@[2]
                &&& t.tima == buf@[4]
                &&& t.tma == buf@[5]
                &&& t.tac == buf@[6]
                &&& t.tima_overflow_delay == (if buf@[7] == 0xFF { None } else { Some(buf@[7]) })
            },
            buf@.len() == TIMER_STATE_BUFFER_LENGTH && buf@[0] < 2 ==> r is Ok,
    {
        if buf.len() != TIMER_STATE_BUFFER_LENGTH {
            return Err(TimerDeserializationError::InvalidBufferLength(buf.len()));
        }
        let model = match Mode::from_byte(buf[0]) {
            Ok(m) => m,
            Err(e) => {
                return Err(TimerDeserializationError::InvalidMode(e));
            },
        };
        let delay = if buf[7] == 0xFF {
            None
        } else {
            Some(buf[7])
        };
        Ok(Timer {
            model,
            div: buf[1] as u16 * 256 + buf[2] as u16,
            tima: buf[4],
            tma: buf[5],
            tac: buf[6],
            tima_overflow_delay: delay,
        })
    }
}

/// Serializing a timer and reading it back gives the same timer.
pub proof fn lemma_timer_round_trip(t: Timer, bytes: Seq<u8>)
    requires
        bytes == t.serialized(),
        t.tima_overflow_delay != Some(0xFFu8),
    ensures
        bytes.len() == TIMER_STATE_BUFFER_LENGTH,
        mode_byte(t.model) == bytes[0],
        t.div == bytes[1] * 256 + bytes[2],
        t.tima == bytes[4],
        t.tma == bytes[5],
        t.tac == bytes[6],
        t.tima_overflow_delay == (if bytes[7] == 0xFF { None } else { Some(bytes[7]) }),
        bytes[0] < 2,
{
}

} // verus!
