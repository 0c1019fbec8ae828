//! A verified core of a MOS 6502 microprocessor emulator (NES variant).
//!
//! The crate models the CPU state, the thirteen addressing modes, the 56
//! documented operations and the per-instruction step driver.  The whole
//! observable effect of one instruction — registers, status flags, memory
//! writes and the returned cycle count — is pinned down by a specification
//! level interpreter (`semantics`), and every executable function is proved
//! to agree with it, including the partial effects left behind when the bus
//! reports an unmapped address in the middle of an instruction.

pub mod addressing_mode;
pub mod arith;
pub mod bus;
pub mod cpu;
pub mod decode;
pub mod fixture;
pub mod flags;
pub mod laws;
pub mod operation;
pub mod ram;
pub mod semantics;
