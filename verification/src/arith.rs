//! Executable 8- and 16-bit modular arithmetic, proved against the
//! specification-level helpers.  All register arithmetic wraps silently.

use vstd::prelude::*;

use crate::semantics::{le16, wrap_add16, wrap_add8, wrap_sub8};

verus! {

/// 8-bit modular addition.
pub fn add8(a: u8, b: u8) -> (r: u8)
    ensures
        r == wrap_add8(a, b),
{
    ((a as u16 + b as u16) % 256) as u8
}

/// 8-bit modular subtraction.
pub fn sub8(a: u8, b: u8) -> (r: u8)
    ensures
        r == wrap_sub8(a, b),
{
    ((a as u16 + 256 - b as u16) % 256) as u8
}

/// 16-bit modular addition.
pub fn add16(a: u16, b: u16) -> (r: u16)
    ensures
        r == wrap_add16(a, b),
{
    ((a as u32 + b as u32) % 0x10000) as u16
}

/// The 16-bit word with low byte `lo` and high byte `hi`.
pub fn word(lo: u8, hi: u8) -> (r: u16)
    ensures
        r == le16(lo, hi),
{
    lo as u16 + (hi as u16) * 256
}

} // verus!
