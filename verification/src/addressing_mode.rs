//! The thirteen addressing modes of the 6502.

use vstd::prelude::*;

use crate::arith::{add16, add8, word};
use crate::bus::OpenBus;
use crate::cpu::IC6502;
use crate::operation::OperationArgument;
use crate::semantics::spec_mode_read;

verus! {

/// How the operand bytes that follow an opcode are turned into an argument:
/// either an immediate value or an effective 16-bit address.
#[derive(Debug, Clone, Copy, PartialEq, Eq, Structural)]
pub enum AdressingMode {
    Implied,
    Immediate,
    Accumulator,
    Relative,
    ZeroPage,
    IndexedZeroPageX,
    IndexedZeroPageY,
    Absolute,
    IndexedAbsoluteX,
    IndexedAbsoluteY,
    IndexedIndirect,
    IndirectIndexed,
    AbsoluteIndirect,
}

impl AdressingMode {
    /// Resolve the operand of the instruction at `cpu.program_counter`:
    /// the instruction length in bytes and the operand argument, or `None`
    /// when an operand read hit open bus.
    pub fn read<B: OpenBus>(&self, cpu: &IC6502, bus: &B) -> (r: Option<(u8, OperationArgument)>)
        ensures
            r == spec_mode_read(*self, *cpu, bus.mem()),
    {
        match self {
            AdressingMode::Implied => address_mode_imp(cpu, bus),
            AdressingMode::Immediate => address_mode_imm(cpu, bus),
            AdressingMode::Accumulator => address_mode_acc(cpu, bus),
            AdressingMode::Relative => address_mode_rel(cpu, bus),
            AdressingMode::ZeroPage => address_mode_zp0(cpu, bus),
            AdressingMode::IndexedZeroPageX => address_mode_zpx(cpu, bus),
            AdressingMode::IndexedZeroPageY => address_mode_zpy(cpu, bus),
            AdressingMode::Absolute => address_mode_abs(cpu, bus),
            AdressingMode::IndexedAbsoluteX => address_mode_abx(cpu, bus),
            AdressingMode::IndexedAbsoluteY => address_mode_aby(cpu, bus),
            AdressingMode::IndexedIndirect => address_mode_inx(cpu, bus),
            AdressingMode::IndirectIndexed => address_mode_iny(cpu, bus),
            AdressingMode::AbsoluteIndirect => address_mode_ind(cpu, bus),
        }
    }
}

/// Implied mode needs no operand; the accumulator is handed over in case
/// the operation wants a byte.
fn address_mode_imp<B: OpenBus>(cpu: &IC6502, _bus: &B) -> (r: Option<(u8, OperationArgument)>)
    ensures
        r == spec_mode_read(AdressingMode::Implied, *cpu, _bus.mem()),
{
    Some((1, OperationArgument::Value(cpu.accumulator)))
}

/// Accumulator mode: the operation works on `A` itself.
fn address_mode_acc<B: OpenBus>(cpu: &IC6502, _bus: &B) -> (r: Option<(u8, OperationArgument)>)
    ensures
        r == spec_mode_read(AdressingMode::Accumulator, *cpu, _bus.mem()),
{
    Some((1, OperationArgument::Value(cpu.accumulator)))
}

/// Immediate mode: the operand is the byte right after the opcode.
fn address_mode_imm<B: OpenBus>(cpu: &IC6502, _bus: &B) -> (r: Option<(u8, OperationArgument)>)
    ensures
        r == spec_mode_read(AdressingMode::Immediate, *cpu, _bus.mem()),
{
    Some((2, OperationArgument::Pointer(add16(cpu.program_counter, 1))))
}

/// Relative mode: the displacement byte, handed over as a value for the
/// branch to interpret as signed.
fn address_mode_rel<B: OpenBus>(cpu: &IC6502, bus: &B) -> (r: Option<(u8, OperationArgument)>)
    ensures
        r == spec_mode_read(AdressingMode::Relative, *cpu, bus.mem()),
{
    let b = bus.read(add16(cpu.program_counter, 1))?;
    Some((2, OperationArgument::Value(b)))
}

/// Zero-page mode: one operand byte addresses page 0.
fn address_mode_zp0<B: OpenBus>(cpu: &IC6502, bus: &B) -> (r: Option<(u8, OperationArgument)>)
    ensures
        r == spec_mode_read(AdressingMode::ZeroPage, *cpu, bus.mem()),
{
    let b = bus.read(add16(cpu.program_counter, 1))?;
    Some((2, OperationArgument::Pointer(b as u16)))
}

/// Zero page indexed by X, wrapping within page 0.
fn address_mode_zpx<B: OpenBus>(cpu: &IC6502, bus: &B) -> (r: Option<(u8, OperationArgument)>)
    ensures
        r == spec_mode_read(AdressingMode::IndexedZeroPageX, *cpu, bus.mem()),
{
    let b = bus.read(add16(cpu.program_counter, 1))?;
    Some((2, OperationArgument::Pointer(add8(b, cpu.register_x) as u16)))
}

/// Zero page indexed by Y, wrapping within page 0.
fn address_mode_zpy<B: OpenBus>(cpu: &IC6502, bus: &B) -> (r: Option<(u8, OperationArgument)>)
    ensures
        r == spec_mode_read(AdressingMode::IndexedZeroPageY, *cpu, bus.mem()),
{
    let b = bus.read(add16(cpu.program_counter, 1))?;
    Some((2, OperationArgument::Pointer(add8(b, cpu.register_y) as u16)))
}

/// Absolute mode: a little-endian 16-bit effective address.
fn address_mode_abs<B: OpenBus>(cpu: &IC6502, bus: &B) -> (r: Option<(u8, OperationArgument)>)
    ensures
        r == spec_mode_read(AdressingMode::Absolute, *cpu, bus.mem()),
{
    let lo = bus.read(add16(cpu.program_counter, 1))?;
    let hi = bus.read(add16(cpu.program_counter, 2))?;
    Some((3, OperationArgument::Pointer(word(lo, hi))))
}

/// Absolute indexed by X, wrapping in 16 bits.
fn address_mode_abx<B: OpenBus>(cpu: &IC6502, bus: &B) -> (r: Option<(u8, OperationArgument)>)
    ensures
        r == spec_mode_read(AdressingMode::IndexedAbsoluteX, *cpu, bus.mem()),
{
    let lo = bus.read(add16(cpu.program_counter, 1))?;
    let hi = bus.read(add16(cpu.program_counter, 2))?;
    Some((3, OperationArgument::Pointer(add16(word(lo, hi), cpu.register_x as u16))))
}

/// Absolute indexed by Y, wrapping in 16 bits.
fn address_mode_aby<B: OpenBus>(cpu: &IC6502, bus: &B) -> (r: Option<(u8, OperationArgument)>)
    ensures
        r == spec_mode_read(AdressingMode::IndexedAbsoluteY, *cpu, bus.mem()),
{
    let lo = bus.read(add16(cpu.program_counter, 1))?;
    let hi = bus.read(add16(cpu.program_counter, 2))?;
    Some((3, OperationArgument::Pointer(add16(word(lo, hi), cpu.register_y as u16))))
}

/// Absolute indirect, with the hardware quirk: the high byte of the target
/// is read from the same page as the low byte, so a pointer whose low byte
/// is `0xFF` wraps to the start of its own page instead of crossing it.
fn address_mode_ind<B: OpenBus>(cpu: &IC6502, bus: &B) -> (r: Option<(u8, OperationArgument)>)
    ensures
        r == spec_mode_read(AdressingMode::AbsoluteIndirect, *cpu, bus.mem()),
{
    let lo = bus.read(add16(cpu.program_counter, 1))?;
    let hi = bus.read(add16(cpu.program_counter, 2))?;
    let target_lo = bus.read(word(lo, hi))?;
    let target_hi = bus.read(word(add8(lo, 1), hi))?;
    Some((3, OperationArgument::Pointer(word(target_lo, target_hi))))
}

/// Indexed indirect: `X` offsets into page 0, where the effective address
/// lies in two consecutive cells, both wrapping within page 0.
fn address_mode_inx<B: OpenBus>(cpu: &IC6502, bus: &B) -> (r: Option<(u8, OperationArgument)>)
    ensures
        r == spec_mode_read(AdressingMode::IndexedIndirect, *cpu, bus.mem()),
{
    let b = bus.read(add16(cpu.program_counter, 1))?;
    let base = add8(b, cpu.register_x);
    let lo = bus.read(base as u16)?;
    let hi = bus.read(add8(base, 1) as u16)?;
    Some((2, OperationArgument::Pointer(word(lo, hi))))
}

/// Indirect indexed: a page-0 pointer, then `Y` added to it with 16-bit
/// wrap.
fn address_mode_iny<B: OpenBus>(cpu: &IC6502, bus: &B) -> (r: Option<(u8, OperationArgument)>)
    ensures
        r == spec_mode_read(AdressingMode::IndirectIndexed, *cpu, bus.mem()),
{
    let b = bus.read(add16(cpu.program_counter, 1))?;
    let lo = bus.read(b as u16)?;
    let hi = bus.read(add8(b, 1) as u16)?;
    Some((2, OperationArgument::Pointer(add16(word(lo, hi), cpu.register_y as u16))))
}

} // verus!
