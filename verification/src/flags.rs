//! The status register `P` and its flag algebra.
//!
//! `P` has the bit layout `NV-BDIZC`: Carry, Zero, Interrupt-Disable,
//! Decimal, Break, Unused (always observed as 1), Overflow, Negative.

use vstd::prelude::*;

verus! {

/// A symbolic name for one bit of the status register.
#[derive(Debug, Clone, Copy, PartialEq, Eq, Structural)]
pub enum Flags {
    Carry,
    Zero,
    InterruptDisable,
    DecimalMode,
    Break,
    Unused,
    Overflow,
    Negative,
}

/// The single-bit mask of a flag within the status byte.
pub open spec fn spec_flag_raw(f: Flags) -> u8 {
    match f {
        Flags::Carry => 0x01,
        Flags::Zero => 0x02,
        Flags::InterruptDisable => 0x04,
        Flags::DecimalMode => 0x08,
        Flags::Break => 0x10,
        Flags::Unused => 0x20,
        Flags::Overflow => 0x40,
        Flags::Negative => 0x80,
    }
}

/// The complement of a flag's mask: every bit but the flag's own.
pub open spec fn spec_flag_cleared(f: Flags) -> u8 {
    match f {
        Flags::Carry => 0xfe,
        Flags::Zero => 0xfd,
        Flags::InterruptDisable => 0xfb,
        Flags::DecimalMode => 0xf7,
        Flags::Break => 0xef,
        Flags::Unused => 0xdf,
        Flags::Overflow => 0xbf,
        Flags::Negative => 0x7f,
    }
}

/// Whether a reader of the status byte `p` observes flag `f` as set.
/// The Unused bit is logically always 1, whatever the stored byte holds.
pub open spec fn spec_flag_get(p: u8, f: Flags) -> bool {
    match f {
        Flags::Unused => true,
        _ => spec_flag_raw(f) & p == spec_flag_raw(f),
    }
}

/// The status byte `p` with flag `f` set when `cond` holds and cleared
/// otherwise.  Setting the Unused bit is a no-op from the outside.
pub open spec fn spec_flag_set(p: u8, f: Flags, cond: bool) -> u8 {
    match f {
        Flags::Unused => p,
        _ => if cond {
            p | spec_flag_raw(f)
        } else {
            p & spec_flag_cleared(f)
        },
    }
}

/// The status byte `p` with Zero set iff `v == 0` and Negative set iff
/// bit 7 of `v` is set; the other bits are kept.
pub open spec fn spec_set_zn(p: u8, v: u8) -> u8 {
    (p & 0x7d) | (if v == 0 { 0x02u8 } else { 0u8 }) | (v & 0x80)
}

impl Flags {
    /// The single-bit mask of this flag.
    pub fn raw(self) -> (r: u8)
        ensures
            r == spec_flag_raw(self),
    {
        match self {
            Flags::Carry => 0x01,
            Flags::Zero => 0x02,
            Flags::InterruptDisable => 0x04,
            Flags::DecimalMode => 0x08,
            Flags::Break => 0x10,
            Flags::Unused => 0x20,
            Flags::Overflow => 0x40,
            Flags::Negative => 0x80,
        }
    }

    /// The complement of this flag's mask.
    pub fn cleared(self) -> (r: u8)
        ensures
            r == spec_flag_cleared(self),
    {
        match self {
            Flags::Carry => 0xfe,
            Flags::Zero => 0xfd,
            Flags::InterruptDisable => 0xfb,
            Flags::DecimalMode => 0xf7,
            Flags::Break => 0xef,
            Flags::Unused => 0xdf,
            Flags::Overflow => 0xbf,
            Flags::Negative => 0x7f,
        }
    }

    /// Whether the bit of this flag is set in the raw byte `val`.
    /// This is the raw mask test; unlike `flag_get` it does not treat the
    /// Unused bit specially.
    pub fn is_set(self, val: u8) -> (r: bool)
        ensures
            r == (spec_flag_raw(self) & val == spec_flag_raw(self)),
    {
        let m = self.raw();
        m & val == m
    }
}

/// Whether a reader of status byte `p` observes flag `f`; the Unused bit
/// always reads as 1.
pub fn flag_get(p: u8, f: Flags) -> (r: bool)
    ensures
        r == spec_flag_get(p, f),
{
    match f {
        Flags::Unused => true,
        _ => f.is_set(p),
    }
}

/// The status byte `p` with flag `f` forced to `cond`; setting the Unused
/// bit is a no-op from the outside.
pub fn flag_set(p: u8, f: Flags, cond: bool) -> (r: u8)
    ensures
        r == spec_flag_set(p, f, cond),
{
    match f {
        Flags::Unused => p,
        _ => if cond {
            p | f.raw()
        } else {
            p & f.cleared()
        },
    }
}

/// The status byte `p` with Zero and Negative updated from the result `v`.
pub fn set_zn(p: u8, v: u8) -> (r: u8)
    ensures
        r == spec_set_zn(p, v),
{
    (p & 0x7d) | (if v == 0 { 0x02u8 } else { 0u8 }) | (v & 0x80)
}

} // verus!
