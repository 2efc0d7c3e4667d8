//! The serial link (SB, SC) and the two bounded queues to a connected peer.
use vstd::prelude::*;
use crate::interrupts::{Interrupt, InterruptLine, mask_of};

verus! {

/// T-cycles per shifted bit with the internal clock.
pub const SERIAL_BIT_CYCLES: u32 = 64;

/// The most bytes that either queue holds; further bytes are dropped.
pub const SERIAL_QUEUE_CAPACITY: usize = 1024;

/// The shift register, the control register, the transfer counters and the
/// queues to the peer: `incoming` holds bytes that arrived from it, oldest
/// first, and `outgoing` the bytes sent to it.
#[derive(Clone, Debug)]
pub struct Serial {
    pub sb: u8,
    pub sc: u8,
    pub current_bit_cycles: u32,
    pub bits_shifted: u8,
    pub data_out: u8,
    pub connected: bool,
    pub incoming: Vec<u8>,
    pub outgoing: Vec<u8>,
}

/// Whether a transfer has been started (SC bit 7).
pub open spec fn transferring(sc: u8) -> bool {
    sc >= 128
}

/// Whether the internal clock drives the transfer (SC bit 0).
pub open spec fn internal_clock(sc: u8) -> bool {
    sc % 2 == 1
}

/// A byte pushed onto a bounded queue: dropped when the queue is full.
pub open spec fn pushed(q: Seq<u8>, b: u8) -> Seq<u8> {
    if q.len() < SERIAL_QUEUE_CAPACITY {
        q.push(b)
    } else {
        q
    }
}

/// What decides the link's requests: SC, whether a peer is connected, the
/// number of bytes waiting from it, the cycle within the bit and the bits shifted.
pub type LinkState = (u8, bool, nat, u32, u8);

/// Whether one T-cycle from this state requests the serial interrupt: a
/// byte from the peer completes a started external-clock transfer, or the
/// eighth bit of an internal-clock transfer is shifted.
pub open spec fn link_requests(c: LinkState) -> u8 {
    let (sc, connected, waiting, cycles, bits) = c;
    if transferring(sc) && ((connected && !internal_clock(sc) && waiting > 0) || (internal_clock(sc) && cycles + 1
        == SERIAL_BIT_CYCLES && bits == 7)) {
        8
    } else {
        0
    }
}

/// The link's state one T-cycle on.
pub open spec fn link_next(c: LinkState) -> LinkState {
    let (sc, connected, waiting, cycles, bits) = c;
    if !internal_clock(sc) {
        if connected && waiting > 0 {
            if transferring(sc) {
                (sc & 0x7F, connected, (waiting - 1) as nat, cycles, 0u8)
            } else {
                (sc, connected, (waiting - 1) as nat, cycles, bits)
            }
        } else {
            c
        }
    } else {
        let w1: nat = if connected && waiting > 0 { (waiting - 1) as nat } else { waiting };
        if !transferring(sc) {
            (sc, connected, w1, cycles, bits)
        } else if cycles + 1 < SERIAL_BIT_CYCLES {
            (sc, connected, w1, (cycles + 1) as u32, bits)
        } else if bits < 7 {
            (sc, connected, w1, 0u32, (bits + 1) as u8)
        } else {
            (sc & 0x7F, connected, if connected && w1 > 0 { (w1 - 1) as nat } else { w1 }, 0u32, 0u8)
        }
    }
}

impl Serial {
    /// The state that decides the link's requests.
    pub open spec fn link_state(&self) -> LinkState {
        (self.sc, self.connected, self.incoming@.len(), self.current_bit_cycles, self.bits_shifted)
    }

    pub open spec fn wf(&self) -> bool {
        &&& self.bits_shifted < 8
        &&& self.current_bit_cycles < SERIAL_BIT_CYCLES
        &&& self.incoming@.len() <= SERIAL_QUEUE_CAPACITY
        &&& self.outgoing@.len() <= SERIAL_QUEUE_CAPACITY
    }

    /// A link with nothing connected: SB reads 0xFF.
    pub fn new() -> (r: Serial)
        ensures
            r.sb == 0xFF && r.sc == 0,
            r.current_bit_cycles == 0 && r.bits_shifted == 0 && r.data_out == 0,
            !r.connected,
            r.incoming@.len() == 0 && r.outgoing@.len() == 0,
            r.wf(),
    {
        Serial {
            sb: 0xFF,
            sc: 0,
            current_bit_cycles: 0,
            bits_shifted: 0,
            data_out: 0,
            connected: false,
            incoming: Vec::new(),
            outgoing: Vec::new(),
        }
    }

    /// Returns the registers to their power-on values; the connection stays.
    pub fn reset(&mut self)
        requires
            old(self).wf(),
        ensures
            final(self).sb == 0xFF && final(self).sc == 0,
            final(self).current_bit_cycles == 0 && final(self).bits_shifted == 0,
            final(self).data_out == 0,
            final(self).connected == old(self).connected,
            final(self).incoming == old(self).incoming,
            final(self).outgoing == old(self).outgoing,
            final(self).wf(),
    {
        self.sb = 0xFF;
        self.sc = 0;
        self.current_bit_cycles = 0;
        self.bits_shifted = 0;
        self.data_out = 0;
    }

    /// Reads SB.
    pub fn read_sb(&self) -> (r: u8)
        ensures
            r == self.sb,
    {
        self.sb
    }

    /// Reads SC: the unused bits 6 to 2 read as one.
    pub fn read_sc(&self) -> (r: u8)
        ensures
            r == self.sc | 0x7C,
    {
        self.sc | 0x7C
    }

    /// Writes SB.
    pub fn write_sb(&mut self, value: u8)
        ensures
            *final(self) == (Serial { sb: value, ..*old(self) }),
    {
        self.sb = value;
    }

    /// Writes SC (bits 7, 1 and 0 are kept); setting bit 7 starts a transfer
    /// and clears its counters.
    pub fn write_sc(&mut self, value: u8)
        requires
            old(self).wf(),
        ensures
            final(self).sc == value & 0x83,
            value >= 128 ==> final(self).current_bit_cycles == 0 && final(self).bits_shifted == 0
                && final(self).data_out == 0,
            value < 128 ==> final(self).current_bit_cycles == old(self).current_bit_cycles
                && final(self).bits_shifted == old(self).bits_shifted
                && final(self).data_out == old(self).data_out,
            final(self).sb == old(self).sb,
            final(self).connected == old(self).connected,
            final(self).incoming == old(self).incoming,
            final(self).outgoing == old(self).outgoing,
            final(self).wf(),
    {
        self.sc = value & 0x83;
        if value >= 128 {
            self.current_bit_cycles = 0;
            self.bits_shifted = 0;
            self.data_out = 0;
        }
    }

    /// Connects a peer with empty queues.
    pub fn create_channels(&mut self)
        requires
            old(self).wf(),
        ensures
            final(self).connected,
            final(self).incoming@.len() == 0,
            final(self).outgoing@.len() == 0,
            final(self).sb == old(self).sb && final(self).sc == old(self).sc,
            final(self).wf(),
    {
        self.connected = true;
        self.incoming = Vec::new();
        self.outgoing = Vec::new();
    }

    /// The peer sends a byte: it joins the incoming queue (dropped when the
    /// queue is full or nothing is connected).
    pub fn receive_from_peer(&mut self, byte: u8)
        requires
            old(self).wf(),
        ensures
            final(self).incoming@ == (if old(self).connected { pushed(old(self).incoming@, byte) } else {
                old(self).incoming@
            }),
            final(self).outgoing == old(self).outgoing,
            final(self).sb == old(self).sb && final(self).sc == old(self).sc,
            final(self).connected == old(self).connected,
            final(self).wf(),
    {
        if self.connected && self.incoming.len() < SERIAL_QUEUE_CAPACITY {
            self.incoming.push(byte);
        }
    }

    /// Takes the oldest byte sent to the peer, if any.
    pub fn send_to_peer(&mut self) -> (r: Option<u8>)
        requires
            old(self).wf(),
        ensures
            old(self).outgoing@.len() == 0 ==> r is None && final(self).outgoing@ == old(self).outgoing@,
            old(self).outgoing@.len() > 0 ==> r == Some(old(self).outgoing@[0])
                && final(self).outgoing@ == old(self).outgoing@.drop_first(),
            final(self).incoming == old(self).incoming,
            final(self).sb == old(self).sb && final(self).sc == old(self).sc,
            final(self).connected == old(self).connected,
            final(self).wf(),
    {
        if self.outgoing.len() == 0 {
            None
        } else {
            let b = self.outgoing.remove(0);
            assert(self.outgoing@ =~= old(self).outgoing@.drop_first());
            Some(b)
        }
    }

    fn push_outgoing(&mut self, byte: u8)
        requires
            old(self).wf(),
        ensures
            final(self).outgoing@ == pushed(old(self).outgoing@, byte),
            *final(self) == (Serial { outgoing: final(self).outgoing, ..*old(self) }),
            final(self).wf(),
    {
        if self.outgoing.len() < SERIAL_QUEUE_CAPACITY {
            self.outgoing.push(byte);
        }
    }

    fn pop_incoming(&mut self) -> (r: Option<u8>)
        requires
            old(self).wf(),
        ensures
            old(self).incoming@.len() == 0 ==> r is None && *final(self) == *old(self),
            old(self).incoming@.len() > 0 ==> r == Some(old(self).incoming@[0])
                && final(self).incoming@ == old(self).incoming@.drop_first()
                && *final(self) == (Serial { incoming: final(self).incoming, ..*old(self) }),
            final(self).wf(),
    {
        if self.incoming.len() == 0 {
            None
        } else {
            let b = self.incoming.remove(0);
            assert(self.incoming@ =~= old(self).incoming@.drop_first());
            Some(b)
        }
    }

    /// Whether `next`, with the requests `line1`, is this link one T-cycle
    /// later, given the requests `line0` raised before the cycle.
    pub open spec fn ticked(&self, next: Serial, line0: InterruptLine, line1: InterruptLine) -> bool {
        &&& next.wf()
        &&& line1.wf()
        &&& next.connected == self.connected
        &&& line1.requested == line0.requested
                || line1.requested == line0.requested | mask_of(Interrupt::Serial)
        &&& !self.connected && !(transferring(self.sc) && internal_clock(self.sc))
                ==> next == *self && line1 == line0
        &&& self.connected && !internal_clock(self.sc) && self.incoming@.len() > 0 ==> {
                &&& next.sb == self.incoming@[0]
                &&& next.incoming@ == self.incoming@.drop_first()
                &&& next.outgoing@ == pushed(self.outgoing@, self.sb)
                &&& transferring(self.sc) ==> next.sc == self.sc & 0x7F
                    && line1.requested == line0.requested | mask_of(Interrupt::Serial)
                &&& !transferring(self.sc) ==> next.sc == self.sc
                    && line1 == line0
            }
        &&& !self.connected && transferring(self.sc) && internal_clock(self.sc) ==> {
                &&& self.current_bit_cycles + 1 < SERIAL_BIT_CYCLES ==> next == (Serial {
                    current_bit_cycles: (self.current_bit_cycles + 1) as u32,
                    ..*self
                }) && line1 == line0
                &&& self.current_bit_cycles + 1 == SERIAL_BIT_CYCLES && self.bits_shifted < 7 ==> {
                    &&& next.bits_shifted == self.bits_shifted + 1
                    &&& next.current_bit_cycles == 0
                    &&& next.sb == (self.sb % 128) * 2 + 1 && next.sc == self.sc
                    &&& line1 == line0
                }
                &&& self.current_bit_cycles + 1 == SERIAL_BIT_CYCLES && self.bits_shifted == 7 ==> {
                    &&& next.sb == 0xFF
                    &&& next.sc == self.sc & 0x7F
                    &&& next.bits_shifted == 0 && next.current_bit_cycles == 0
                    &&& line1.requested == line0.requested | mask_of(Interrupt::Serial)
                }
            }
        &&& line1.requested == line0.requested | link_requests(self.link_state())
        &&& next.link_state() == link_next(self.link_state())
    }

    /// One T-cycle of the link.
    ///
    /// A byte from the peer, with the external clock selected, is swapped
    /// with SB (the old SB goes to the peer) and completes a started
    /// transfer; with the internal clock selected the peer is answered with
    /// the current top bit of SB. With the internal clock and a started
    /// transfer, on every 64th cycle SB shifts its top bit out into the staged
    /// byte and takes a 1 in (an idle line); after eight bits the
    /// staged byte goes to the peer, SB takes the peer's reply (0xFF when
    /// there is none or nothing is connected), the serial interrupt is
    /// requested and bit 7 of SC clears.
    pub fn emulate_hardware(&mut self, interrupt_line: &mut InterruptLine)
        requires
            old(self).wf(),
            old(interrupt_line).wf(),
        ensures
            old(self).ticked(*final(self), *old(interrupt_line), *final(interrupt_line)),
    {
        let ghost v0 = interrupt_line.requested;
        assert(v0 | 0u8 == v0) by (bit_vector);
        let ghost sc0 = self.sc;
        assert((sc0 & 0x7Fu8) % 2 == sc0 % 2 && (sc0 & 0x7Fu8) < 128) by (bit_vector);
        if self.connected && !internal_clock_exec(self.sc) {
            match self.pop_incoming() {
                Some(byte) => {
                    let out = self.sb;
                    self.sb = byte;
                    if self.sc >= 128 {
                        interrupt_line.request_interrupt(Interrupt::Serial);
                        self.sc = self.sc & 0x7F;
                        self.bits_shifted = 0;
                    }
                    self.push_outgoing(out);
                },
                None => {},
            }
        } else if self.connected {
            match self.pop_incoming() {
                Some(_) => {
                    let out: u8 = if self.sb >= 128 { 0xFF } else { 0 };
                    self.push_outgoing(out);
                },
                None => {},
            }
        }
        if self.sc >= 128 && internal_clock_exec(self.sc) {
            if self.current_bit_cycles + 1 >= SERIAL_BIT_CYCLES {
                self.data_out = (self.data_out % 128) * 2 + self.sb / 128;
                self.sb = (self.sb % 128) * 2 + 1;
                self.current_bit_cycles = 0;
                if self.bits_shifted >= 7 {
                    if self.connected {
                        let staged = self.data_out;
                        self.push_outgoing(staged);
                        match self.pop_incoming() {
                            Some(reply) => self.sb = reply,
                            None => self.sb = 0xFF,
                        }
                    } else {
                        self.sb = 0xFF;
                    }
                    interrupt_line.request_interrupt(Interrupt::Serial);
                    self.sc = self.sc & 0x7F;
                    self.bits_shifted = 0;
                    self.data_out = 0;
                } else {
                    self.bits_shifted = self.bits_shifted + 1;
                }
            } else {
                self.current_bit_cycles = self.current_bit_cycles + 1;
            }
        }
        assert(interrupt_line.requested == old(interrupt_line).requested | link_requests(old(self).link_state()));
        assert(self.link_state() == link_next(old(self).link_state()));
    }
}

fn internal_clock_exec(sc: u8) -> (r: bool)
    ensures
        r == internal_clock(sc),
{
    sc % 2 == 1
}


} // verus!
