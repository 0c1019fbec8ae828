//! The CPU state container and its per-instruction step driver.

use vstd::prelude::*;

use crate::arith::add16;
use crate::bus::{OpenBus, OpenBusDevice};
use crate::decode::{decode, Instruction};
use crate::semantics::{matches_step, spec_step};
use crate::operation::Thingimagic;

verus! {

/// Base address of the stack page: the stack lives at `0x0100 | SP`.
pub const STACK_PAGE: u16 = 0x0100;

/// The register file of the 6502: three 8-bit data registers, the 8-bit
/// stack pointer, the 16-bit program counter and the status byte.
///
/// Every field is pure bits: no out-of-range value is representable, and
/// all arithmetic on them is modular.
#[derive(Debug, Clone, Copy, PartialEq, Eq, Structural)]
pub struct IC6502 {
    pub accumulator: u8,
    pub register_x: u8,
    pub register_y: u8,
    pub stack_pointer: u8,
    pub program_counter: u16,
    pub status: u8,
}

impl IC6502 {
    /// A CPU with every register zeroed.
    pub fn new() -> (r: IC6502)
        ensures
            r == (IC6502 {
                accumulator: 0,
                register_x: 0,
                register_y: 0,
                stack_pointer: 0,
                program_counter: 0,
                status: 0,
            }),
    {
        IC6502 {
            accumulator: 0,
            register_x: 0,
            register_y: 0,
            stack_pointer: 0,
            program_counter: 0,
            status: 0,
        }
    }

    /// Advance the CPU by exactly one instruction against `bus`.
    ///
    /// Returns the instruction's base cycle count, `Some(0)` for an
    /// invalid opcode (which silently advances `PC` by one), or `None`
    /// when a read or write hit open bus mid-instruction.  There is no
    /// rollback: the state left behind after `None` is exactly the
    /// partial state `spec_step` gives.
    pub fn step<B: OpenBus>(&mut self, bus: &mut B) -> (r: Option<u8>)
        ensures
            final(bus).writable() == old(bus).writable(),
            matches_step(
                spec_step(*old(self), old(bus).mem(), old(bus).writable()),
                *final(self),
                final(bus).mem(),
                r,
            ),
    {
        let code = match bus.read(self.program_counter) {
            Some(b) => b,
            None => return None,
        };
        match decode(code) {
            Instruction::Invalid => {
                self.program_counter = add16(self.program_counter, 1);
                Some(0)
            },
            Instruction::Valid { operation, addressing_mode, bytes: _, cycles } => {
                let (len, arg) = match addressing_mode.read(&*self, bus) {
                    Some(t) => t,
                    None => return None,
                };
                match operation.run(self, bus, arg) {
                    None => None,
                    Some(Thingimagic::Jump(t)) => {
                        self.program_counter = t;
                        Some(cycles)
                    },
                    Some(Thingimagic::Increment) => {
                        self.program_counter = add16(self.program_counter, len as u16);
                        Some(cycles)
                    },
                }
            },
        }
    }
}

/// The step driver seen as a bus device: one `cycle` is one `step`.
impl<B: OpenBus> OpenBusDevice<B> for IC6502 {
    fn cycle(&mut self, bus: &mut B) -> Option<u8> {
        self.step(bus)
    }
}

} // verus!
