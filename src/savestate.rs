//! The header of a saved state: a version, the model, and the offsets of
//! each component's section, as 38 bytes.
use vstd::prelude::*;
use crate::mode::{Mode, InvalidModeDiscriminant, mode_byte};

verus! {

/// Bytes in a serialized header.
pub const SAVE_STATE_HEADER_SERIALIZED_LENGTH: usize = 38;

/// The header of a saved state.
#[derive(Clone, Copy, Debug, PartialEq, Eq, Structural)]
pub struct SaveStateHeader {
    pub version: u8,
    pub mode: Mode,
    pub cpu_state_offset: u32,
    pub timer_state_offset: u32,
    pub ppu_state_offset: u32,
    pub serial_state_offset: u32,
    pub joypad_state_offset: u32,
    pub cart_state_offset: u32,
    pub io_offset: u32,
    pub wram_offset: u32,
    pub oam_dma_state_offset: u32,
}

/// A buffer that does not hold a header.
#[derive(Clone, Copy, Debug, PartialEq, Eq, Structural)]
pub enum SaveStateHeaderDeserializationError {
    InvalidBufferLength { length: usize },
    InvalidModeValue(InvalidModeDiscriminant),
}

/// A word as four big-endian bytes.
pub open spec fn be_bytes(v: u32) -> Seq<u8> {
    seq![(v / 16777216) as u8, ((v / 65536) % 256) as u8, ((v / 256) % 256) as u8, (v % 256) as u8]
}

/// The word that four big-endian bytes at `i` stand for.
pub open spec fn be_word(s: Seq<u8>, i: int) -> int {
    s[i] * 16777216 + s[i + 1] * 65536 + s[i + 2] * 256 + s[i + 3]
}

/// Appends a word as four big-endian bytes.
fn push_be(buf: &mut Vec<u8>, v: u32)
    ensures
        final(buf)@ == old(buf)@ + be_bytes(v),
{
    buf.push((v / 16777216) as u8);
    buf.push(((v / 65536) % 256) as u8);
    buf.push(((v / 256) % 256) as u8);
    buf.push((v % 256) as u8);
    assert(buf@ =~= old(buf)@ + be_bytes(v));
}

/// Reads four big-endian bytes at `i`.
fn read_be(buf: &[u8], i: usize) -> (r: u32)
    requires
        i + 4 <= buf@.len(),
    ensures
        r == be_word(buf@, i as int),
{
    buf[i] as u32 * 16777216 + buf[i + 1] as u32 * 65536 + buf[i + 2] as u32 * 256 + buf[i + 3] as u32
}

/// The four big-endian bytes of a word read back as that word.
pub proof fn lemma_be_round_trip(v: u32)
    ensures
        be_word(be_bytes(v), 0) == v,
{
    let s = be_bytes(v);
    assert(s[0] == v / 16777216);
    assert(s[1] == (v / 65536) % 256);
    assert(s[2] == (v / 256) % 256);
    assert(s[3] == v % 256);
    let x = v as int;
    assert(x == (x / 16777216) * 16777216 + ((x / 65536) % 256) * 65536 + ((x / 256) % 256) * 256 + x % 256)
        by (nonlinear_arith)
        requires
            0 <= x < 0x1_0000_0000,
    ;
}

impl SaveStateHeader {
    /// The header's bytes: version, model, then the nine offsets big-endian.
    pub open spec fn serialized(&self) -> Seq<u8> {
        seq![self.version, mode_byte(self.mode)] + be_bytes(self.cpu_state_offset) + be_bytes(
            self.timer_state_offset,
        ) + be_bytes(self.ppu_state_offset) + be_bytes(self.serial_state_offset) + be_bytes(
            self.joypad_state_offset,
        ) + be_bytes(self.cart_state_offset) + be_bytes(self.io_offset) + be_bytes(self.wram_offset) + be_bytes(
            self.oam_dma_state_offset,
        )
    }

    /// The header that 38 bytes stand for, given a valid model byte.
    pub open spec fn parsed(s: Seq<u8>, mode: Mode) -> SaveStateHeader {
        SaveStateHeader {
            version: s[0],
            mode,
            cpu_state_offset: be_word(s, 2) as u32,
            timer_state_offset: be_word(s, 6) as u32,
            ppu_state_offset: be_word(s, 10) as u32,
            serial_state_offset: be_word(s, 14) as u32,
            joypad_state_offset: be_word(s, 18) as u32,
            cart_state_offset: be_word(s, 22) as u32,
            io_offset: be_word(s, 26) as u32,
            wram_offset: be_word(s, 30) as u32,
            oam_dma_state_offset: be_word(s, 34) as u32,
        }
    }

    /// Serializes the header into 38 bytes.
    pub fn serialize(&self) -> (r: Vec<u8>)
        ensures
            r@ == self.serialized(),
            r@.len() == SAVE_STATE_HEADER_SERIALIZED_LENGTH,
    {
        let mut buf: Vec<u8> = Vec::new();
        buf.push(self.version);
        buf.push(self.mode.to_byte());
        assert(buf@ =~= seq![self.version, mode_byte(self.mode)]);
        push_be(&mut buf, self.cpu_state_offset);
        push_be(&mut buf, self.timer_state_offset);
        push_be(&mut buf, self.ppu_state_offset);
        push_be(&mut buf, self.serial_state_offset);
        push_be(&mut buf, self.joypad_state_offset);
        push_be(&mut buf, self.cart_state_offset);
        push_be(&mut buf, self.io_offset);
        push_be(&mut buf, self.wram_offset);
        push_be(&mut buf, self.oam_dma_state_offset);
        buf
    }

    /// Reads a header back. The buffer must be exactly 38 bytes long and its
    /// second byte must name a model.
    pub fn deserialize(buf: &[u8]) -> (r: Result<SaveStateHeader, SaveStateHeaderDeserializationError>)
        ensures
            buf@.len() != SAVE_STATE_HEADER_SERIALIZED_LENGTH ==> r == Err::<
                SaveStateHeader,
                SaveStateHeaderDeserializationError,
            >(SaveStateHeaderDeserializationError::InvalidBufferLength { length: buf@.len() as usize }),
            buf@.len() == SAVE_STATE_HEADER_SERIALIZED_LENGTH && buf@[1] >= 2 ==> r == Err::<
                SaveStateHeader,
                SaveStateHeaderDeserializationError,
            >(SaveStateHeaderDeserializationError::InvalidModeValue(InvalidModeDiscriminant { value: buf@[1] })),
            buf@.len() == SAVE_STATE_HEADER_SERIALIZED_LENGTH && buf@[1] < 2 ==> (r matches Ok(h) && mode_byte(h.mode)
                == buf@[1] && h == SaveStateHeader::parsed(buf@, h.mode)),
    {
        if buf.len() != SAVE_STATE_HEADER_SERIALIZED_LENGTH {
            return Err(SaveStateHeaderDeserializationError::InvalidBufferLength { length: buf.len() });
        }
        let mode = match Mode::from_byte(buf[1]) {
            Ok(m) => m,
            Err(e) => {
                return Err(SaveStateHeaderDeserializationError::InvalidModeValue(e));
            },
        };
        Ok(
            SaveStateHeader {
                version: buf[0],
                mode,
                cpu_state_offset: read_be(buf, 2),
                timer_state_offset: read_be(buf, 6),
                ppu_state_offset: read_be(buf, 10),
                serial_state_offset: read_be(buf, 14),
                joypad_state_offset: read_be(buf, 18),
                cart_state_offset: read_be(buf, 22),
                io_offset: read_be(buf, 26),
                wram_offset: read_be(buf, 30),
                oam_dma_state_offset: read_be(buf, 34),
            },
        )
    }
}

/// Reading back the bytes of a serialized header gives the same header.
pub proof fn lemma_header_round_trip(h: SaveStateHeader)
    ensures
        h.serialized().len() == SAVE_STATE_HEADER_SERIALIZED_LENGTH,
        h.serialized()[1] < 2,
        SaveStateHeader::parsed(h.serialized(), h.mode) == h,
{
    let s = h.serialized();
    let offsets = seq![
        h.cpu_state_offset,
        h.timer_state_offset,
        h.ppu_state_offset,
        h.serial_state_offset,
        h.joypad_state_offset,
        h.cart_state_offset,
        h.io_offset,
        h.wram_offset,
        h.oam_dma_state_offset,
    ];
    assert forall|k: int| 0 <= k < 9 implies be_word(s, 2 + 4 * k) == offsets[k] by {
        lemma_be_round_trip(offsets[k]);
        let b = be_bytes(offsets[k]);
        assert(s[2 + 4 * k] == b[0]);
        assert(s[2 + 4 * k + 1] == b[1]);
        assert(s[2 + 4 * k + 2] == b[2]);
        assert(s[2 + 4 * k + 3] == b[3]);
    }
    assert(be_word(s, 2) == offsets[0]);
    assert(be_word(s, 6) == offsets[1]);
    assert(be_word(s, 10) == offsets[2]);
    assert(be_word(s, 14) == offsets[3]);
    assert(be_word(s, 18) == offsets[4]);
    assert(be_word(s, 22) == offsets[5]);
    assert(be_word(s, 26) == offsets[6]);
    assert(be_word(s, 30) == offsets[7]);
    assert(be_word(s, 34) == offsets[8]);
}

} // verus!
