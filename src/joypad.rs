//! The joypad: eight button latches and the select/state register (0xFF00).
use vstd::prelude::*;

verus! {

/// A button of the console.
#[derive(Clone, Copy, Debug, PartialEq, Eq, Hash, Structural)]
pub enum Key {
    Up,
    Down,
    Left,
    Right,
    B,
    A,
    Select,
    Start,
}

/// The latch that holds a key.
pub open spec fn key_index(key: Key) -> int {
    match key {
        Key::Up => 0,
        Key::Down => 1,
        Key::Left => 2,
        Key::Right => 3,
        Key::B => 4,
        Key::A => 5,
        Key::Select => 6,
        Key::Start => 7,
    }
}

fn index_of(key: Key) -> (r: usize)
    ensures
        r == key_index(key),
{
    match key {
        Key::Up => 0,
        Key::Down => 1,
        Key::Left => 2,
        Key::Right => 3,
        Key::B => 4,
        Key::A => 5,
        Key::Select => 6,
        Key::Start => 7,
    }
}

/// The button latches and the two group selectors.
#[derive(Clone, Copy, Debug)]
pub struct Joypad {
    pub keys: [bool; 8],
    pub select_button_keys: bool,
    pub select_direction_keys: bool,
}

/// 8, 4, 2 or 1 when the key is down, else 0.
pub open spec fn weight(down: bool, w: int) -> int {
    if down {
        w
    } else {
        0
    }
}

impl Joypad {
    /// Whether a key is held.
    pub open spec fn held(&self, key: Key) -> bool {
        self.keys@[key_index(key)]
    }

    /// The pressed keys of the selected group as an active-high nibble:
    /// Start, Select, B, A or Down, Up, Left, Right from bit 3 down; the
    /// button group wins when both are selected.
    pub open spec fn pressed_nibble(&self) -> int {
        if self.select_button_keys {
            weight(self.held(Key::Start), 8) + weight(self.held(Key::Select), 4) + weight(
                self.held(Key::B),
                2,
            ) + weight(self.held(Key::A), 1)
        } else if self.select_direction_keys {
            weight(self.held(Key::Down), 8) + weight(self.held(Key::Up), 4) + weight(
                self.held(Key::Left),
                2,
            ) + weight(self.held(Key::Right), 1)
        } else {
            0
        }
    }

    /// No key held and no group selected.
    pub fn new() -> (r: Joypad)
        ensures
            forall|i: int| 0 <= i < 8 ==> !r.keys@[i],
            !r.select_button_keys,
            !r.select_direction_keys,
    {
        Joypad { keys: [false; 8], select_button_keys: false, select_direction_keys: false }
    }

    /// Latches a key as held.
    pub fn keydown(&mut self, key: Key)
        ensures
            final(self).keys@ == old(self).keys@.update(key_index(key), true),
            final(self).select_button_keys == old(self).select_button_keys,
            final(self).select_direction_keys == old(self).select_direction_keys,
    {
        let i = index_of(key);
        self.keys[i] = true;
    }

    /// Latches a key as released.
    pub fn keyup(&mut self, key: Key)
        ensures
            final(self).keys@ == old(self).keys@.update(key_index(key), false),
            final(self).select_button_keys == old(self).select_button_keys,
            final(self).select_direction_keys == old(self).select_direction_keys,
    {
        let i = index_of(key);
        self.keys[i] = false;
    }

    /// Whether a key is held.
    pub fn key_state(&self, key: Key) -> (r: bool)
        ensures
            r == self.held(key),
    {
        self.keys[index_of(key)]
    }

    /// Writes the selectors: bit 5 low selects the buttons, bit 4 low the directions.
    pub fn write_joyp(&mut self, value: u8)
        ensures
            final(self).select_button_keys == ((value / 32) % 2 == 0),
            final(self).select_direction_keys == ((value / 16) % 2 == 0),
            final(self).keys == old(self).keys,
    {
        self.select_button_keys = (value / 32) % 2 == 0;
        self.select_direction_keys = (value / 16) % 2 == 0;
    }

    /// Reads the register: bits 7 and 6 high, bits 5 and 4 low, and the
    /// selected group's keys active-low in the low nibble.
    pub fn read_joyp(&self) -> (r: u8)
        ensures
            r == 0xCF - self.pressed_nibble(),
    {
        let mut low: u8 = 0;
        if self.select_button_keys {
            if self.keys[7] {
                low = low + 8;
            }
            if self.keys[6] {
                low = low + 4;
            }
            if self.keys[4] {
                low = low + 2;
            }
            if self.keys[5] {
                low = low + 1;
            }
        } else if self.select_direction_keys {
            if self.keys[1] {
                low = low + 8;
            }
            if self.keys[0] {
                low = low + 4;
            }
            if self.keys[2] {
                low = low + 2;
            }
            if self.keys[3] {
                low = low + 1;
            }
        }
        0xCF - low
    }
}

} // verus!
