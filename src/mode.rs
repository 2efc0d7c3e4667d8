//! The hardware model being emulated.
use vstd::prelude::*;

verus! {

/// The monochrome model or the color model.
#[derive(Clone, Copy, Debug, PartialEq, Eq, Structural)]
pub enum Mode {
    DMG,
    CGB,
}

/// A byte that names no model.
#[derive(Clone, Copy, Debug, PartialEq, Eq, Structural)]
pub struct InvalidModeDiscriminant {
    pub value: u8,
}

/// The byte that stands for a model in saved state.
pub open spec fn mode_byte(m: Mode) -> u8 {
    match m {
        Mode::DMG => 0,
        Mode::CGB => 1,
    }
}

impl Mode {
    /// The byte that stands for this model.
    pub fn to_byte(&self) -> (r: u8)
        ensures
            r == mode_byte(*self),
    {
        match self {
            Mode::DMG => 0,
            Mode::CGB => 1,
        }
    }

    /// The model that a byte stands for: 0 and 1 only.
    pub fn from_byte(b: u8) -> (r: Result<Mode, InvalidModeDiscriminant>)
        ensures
            b < 2 <==> r is Ok,
            r matches Ok(m) ==> mode_byte(m) == b,
            r matches Err(e) ==> e.value == b,
    {
        if b == 0 {
            Ok(Mode::DMG)
        } else if b == 1 {
            Ok(Mode::CGB)
        } else {
            Err(InvalidModeDiscriminant { value: b })
        }
    }
}

} // verus!
