//! Wrapping 16-bit arithmetic.
use vstd::prelude::*;

verus! {

/// The sum of two words modulo 2^16.
pub fn wrapping_add(r1: u16, r2: u16) -> (r: u16)
    ensures
        r == (r1 + r2) % 65536,
{
    r1.wrapping_add(r2)
}

/// The difference of two words modulo 2^16.
pub fn wrapping_sub(r1: u16, r2: u16) -> (r: u16)
    ensures
        r == (r1 - r2 + 65536) % 65536,
{
    r1.wrapping_sub(r2)
}

} // verus!
