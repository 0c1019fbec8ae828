//! The 56 documented operations of the 6502.
//!
//! Each executable operation is proved to have exactly the effect its
//! `spec_op_*` twin in `semantics` gives, including the partial state an
//! open-bus access leaves behind.

use vstd::prelude::*;

use crate::arith::{add16, add8, sub8, word};
use crate::bus::OpenBus;
use crate::cpu::{IC6502, STACK_PAGE};
use crate::flags::{flag_get, flag_set, set_zn, spec_flag_get, Flags};
use crate::semantics::{
    branch_dest, matches_effect, spec_adc_cpu, spec_arg_value, spec_op_adc, spec_op_and,
    spec_op_asl, spec_op_bit, spec_op_branch, spec_op_brk, spec_op_cmp, spec_op_cpx, spec_op_cpy,
    spec_op_dec, spec_op_dex, spec_op_dey, spec_op_eor, spec_op_flag, spec_op_inc, spec_op_inx,
    spec_op_iny, spec_op_jmp, spec_op_jsr, spec_op_lda, spec_op_ldx, spec_op_ldy, spec_op_lsr,
    spec_op_ora, spec_op_pha, spec_op_php, spec_op_pla, spec_op_plp, spec_op_rol, spec_op_ror,
    spec_op_rti, spec_op_rts, spec_op_sbc, spec_op_store, spec_op_tax, spec_op_tay, spec_op_tsx,
    spec_op_txa, spec_op_txs, spec_op_tya, spec_advance, spec_pull, spec_push, spec_run,
    spec_write_back,
};

verus! {

/// The location of an operation's data: either a byte already in hand
/// (Accumulator or Immediate-style modes) or the effective address the
/// operation reads from or writes to.
#[derive(Debug, Clone, Copy, PartialEq, Eq, Structural)]
pub enum OperationArgument {
    Value(u8),
    Pointer(u16),
}

/// How control leaves an operation: `Jump` set the program counter
/// directly, `Increment` lets the step driver add the instruction length.
#[derive(Debug, Clone, Copy, PartialEq, Eq, Structural)]
pub enum Thingimagic {
    Jump(u16),
    Increment,
}

/// One of the 56 documented operations.
#[derive(Debug, Clone, Copy, PartialEq, Eq, Structural)]
pub enum Operation {
    AddToAccumulator,
    SubtractFromAccumulator,
    Increment,
    IncrementIndexX,
    IncrementIndexY,
    Decrement,
    DecrementIndexX,
    DecrementIndexY,
    BitwiseANDAccumulator,
    BitwiseXORAccumulator,
    BitwiseORAccumulator,
    LeftShift,
    RightShift,
    RotateBitLeft,
    RotateBitRight,
    BranchOnCarryClear,
    BranchOnCarrySet,
    BranchOnResultZero,
    BranchOnResultMinus,
    BranchOnResultNotZero,
    BranchOnResultPlus,
    BranchOnOverflowClear,
    BranchOnOverflowSet,
    TestBitsWithAccumulator,
    ClearCarryFlag,
    ClearDecimalMode,
    ClearInterruptDisableBit,
    ClearOverflowFlag,
    ComapareWithAccumulator,
    CompareWithIndexX,
    CompareWithIndexY,
    Jump,
    JumpToSubRoutine,
    LoadToAccumulator,
    LoadToXRegister,
    LoadToYRegister,
    PushAccumulatorToStack,
    PushStatusToStack,
    PullAccumulatorFromStack,
    PullStatusFromStack,
    ReturnFromInterrupt,
    ReturnFromSubroutine,
    SetCarryFlag,
    DetDecimalMode,
    SetInterruptStatus,
    StoreAccumulator,
    StoreXRegister,
    StoreYRegister,
    TransferAccumulatorToX,
    TransferAccumulatorToY,
    TransferStackPointerToX,
    TransferXToAccumulator,
    TransferXToStackRegister,
    TransferYToAccumulator,
    ForceBreak,
    NoOp,
}

// ---------------------------------------------------------------------
// Shared building blocks
// ---------------------------------------------------------------------

/// The byte an operation works on: an in-hand value, or the byte read at
/// the effective address.
fn read_argument<B: OpenBus>(bus: &B, argument: OperationArgument) -> (r: Option<u8>)
    ensures
        r == spec_arg_value(bus.mem(), argument),
{
    match argument {
        OperationArgument::Value(v) => Some(v),
        OperationArgument::Pointer(p) => bus.read(p),
    }
}

/// Send a read-modify-write result back where it came from: the
/// accumulator for a value argument, memory for a pointer argument.
fn write_back<B: OpenBus>(
    cpu: &mut IC6502,
    bus: &mut B,
    argument: OperationArgument,
    v: u8,
) -> (r: Option<Thingimagic>)
    ensures
        final(bus).writable() == old(bus).writable(),
        matches_effect(
            spec_write_back(*old(cpu), old(bus).mem(), old(bus).writable(), argument, v),
            *final(cpu),
            final(bus).mem(),
            r,
        ),
{
    match argument {
        OperationArgument::Value(_) => {
            cpu.accumulator = v;
            Some(Thingimagic::Increment)
        },
        OperationArgument::Pointer(p) => match bus.write(p, v) {
            Some(()) => Some(Thingimagic::Increment),
            None => None,
        },
    }
}

/// Push one byte: write it at `0x0100 | SP`, then decrement `SP`.  A
/// refused write changes nothing.
fn push_byte<B: OpenBus>(cpu: &mut IC6502, bus: &mut B, b: u8) -> (r: Option<()>)
    ensures
        final(bus).writable() == old(bus).writable(),
        ({
            match spec_push(*old(cpu), old(bus).mem(), old(bus).writable(), b) {
                Some(t) => r == Some(()) && *final(cpu) == t.0 && final(bus).mem() == t.1,
                None => r == None::<()> && *final(cpu) == *old(cpu) && final(bus).mem() == old(
                    bus,
                ).mem(),
            }
        }),
{
    let addr = STACK_PAGE + (cpu.stack_pointer as u16);
    match bus.write(addr, b) {
        Some(()) => {
            cpu.stack_pointer = sub8(cpu.stack_pointer, 1);
            Some(())
        },
        None => None,
    }
}

/// Pull one byte: increment `SP`, then read at `0x0100 | SP`.  The
/// increment stands even when the read then hits open bus.
fn pull_byte<B: OpenBus>(cpu: &mut IC6502, bus: &B) -> (r: Option<u8>)
    ensures
        *final(cpu) == spec_pull(*old(cpu), bus.mem()).0,
        r == spec_pull(*old(cpu), bus.mem()).1,
{
    let sp1 = add8(cpu.stack_pointer, 1);
    cpu.stack_pointer = sp1;
    bus.read(STACK_PAGE + (sp1 as u16))
}

/// The target of a taken branch: `PC + 2` plus the signed displacement,
/// wrapping in 16 bits.
fn branch_target(pc: u16, d: u8) -> (r: u16)
    ensures
        r == branch_dest(pc, d),
{
    if d < 0x80 {
        ((pc as u32 + 2 + d as u32) % 0x10000) as u16
    } else {
        ((pc as u32 + 2 + d as u32 + 0xff00) % 0x10000) as u16
    }
}

/// `A + M + C` into the accumulator, with carry, overflow, zero and
/// negative updated; the common body of `ADC` and `SBC`.
fn add_to_accumulator(cpu: &mut IC6502, m: u8)
    ensures
        *final(cpu) == spec_adc_cpu(*old(cpu), m),
{
    let a = cpu.accumulator;
    let c: u8 = if flag_get(cpu.status, Flags::Carry) {
        1
    } else {
        0
    };
    let sum: u16 = a as u16 + m as u16 + c as u16;
    let r = (sum % 256) as u8;
    let p1 = flag_set(cpu.status, Flags::Carry, sum > 255);
    let p2 = flag_set(p1, Flags::Overflow, ((a ^ r) & (m ^ r) & 0x80) != 0);
    cpu.accumulator = r;
    cpu.status = set_zn(p2, r);
}

/// A relative branch: not taken it advances, taken it jumps to `PC + 2`
/// plus the signed displacement.
fn operation_branch<B: OpenBus>(
    cpu: &mut IC6502,
    _bus: &mut B,
    taken: bool,
    argument: OperationArgument,
) -> (r: Option<Thingimagic>)
    ensures
        final(_bus).writable() == old(_bus).writable(),
        matches_effect(
            spec_op_branch(*old(cpu), old(_bus).mem(), taken, argument),
            *final(cpu),
            final(_bus).mem(),
            r,
        ),
{
    match argument {
        OperationArgument::Pointer(_) => None,
        OperationArgument::Value(d) => {
            if taken {
                Some(Thingimagic::Jump(branch_target(cpu.program_counter, d)))
            } else {
                Some(Thingimagic::Increment)
            }
        },
    }
}

// ---------------------------------------------------------------------
// Branches
// ---------------------------------------------------------------------

fn operation_bcc<B: OpenBus>(
    cpu: &mut IC6502,
    bus: &mut B,
    argument: OperationArgument,
) -> (r: Option<Thingimagic>)
    ensures
        final(bus).writable() == old(bus).writable(),
        matches_effect(
            spec_op_branch(
                *old(cpu),
                old(bus).mem(),
                !spec_flag_get(old(cpu).status, Flags::Carry),
                argument,
            ),
            *final(cpu),
            final(bus).mem(),
            r,
        ),
{
    let taken = !flag_get(cpu.status, Flags::Carry);
    operation_branch(cpu, bus, taken, argument)
}

fn operation_bcs<B: OpenBus>(
    cpu: &mut IC6502,
    bus: &mut B,
    argument: OperationArgument,
) -> (r: Option<Thingimagic>)
    ensures
        final(bus).writable() == old(bus).writable(),
        matches_effect(
            spec_op_branch(
                *old(cpu),
                old(bus).mem(),
                spec_flag_get(old(cpu).status, Flags::Carry),
                argument,
            ),
            *final(cpu),
            final(bus).mem(),
            r,
        ),
{
    let taken = flag_get(cpu.status, Flags::Carry);
    operation_branch(cpu, bus, taken, argument)
}

fn operation_beq<B: OpenBus>(
    cpu: &mut IC6502,
    bus: &mut B,
    argument: OperationArgument,
) -> (r: Option<Thingimagic>)
    ensures
        final(bus).writable() == old(bus).writable(),
        matches_effect(
            spec_op_branch(
                *old(cpu),
                old(bus).mem(),
                spec_flag_get(old(cpu).status, Flags::Zero),
                argument,
            ),
            *final(cpu),
            final(bus).mem(),
            r,
        ),
{
    let taken = flag_get(cpu.status, Flags::Zero);
    operation_branch(cpu, bus, taken, argument)
}

fn operation_bne<B: OpenBus>(
    cpu: &mut IC6502,
    bus: &mut B,
    argument: OperationArgument,
) -> (r: Option<Thingimagic>)
    ensures
        final(bus).writable() == old(bus).writable(),
        matches_effect(
            spec_op_branch(
                *old(cpu),
                old(bus).mem(),
                !spec_flag_get(old(cpu).status, Flags::Zero),
                argument,
            ),
            *final(cpu),
            final(bus).mem(),
            r,
        ),
{
    let taken = !flag_get(cpu.status, Flags::Zero);
    operation_branch(cpu, bus, taken, argument)
}

fn operation_bmi<B: OpenBus>(
    cpu: &mut IC6502,
    bus: &mut B,
    argument: OperationArgument,
) -> (r: Option<Thingimagic>)
    ensures
        final(bus).writable() == old(bus).writable(),
        matches_effect(
            spec_op_branch(
                *old(cpu),
                old(bus).mem(),
                spec_flag_get(old(cpu).status, Flags::Negative),
                argument,
            ),
            *final(cpu),
            final(bus).mem(),
            r,
        ),
{
    let taken = flag_get(cpu.status, Flags::Negative);
    operation_branch(cpu, bus, taken, argument)
}

fn operation_bpl<B: OpenBus>(
    cpu: &mut IC6502,
    bus: &mut B,
    argument: OperationArgument,
) -> (r: Option<Thingimagic>)
    ensures
        final(bus).writable() == old(bus).writable(),
        matches_effect(
            spec_op_branch(
                *old(cpu),
                old(bus).mem(),
                !spec_flag_get(old(cpu).status, Flags::Negative),
                argument,
            ),
            *final(cpu),
            final(bus).mem(),
            r,
        ),
{
    let taken = !flag_get(cpu.status, Flags::Negative);
    operation_branch(cpu, bus, taken, argument)
}

fn operation_bvc<B: OpenBus>(
    cpu: &mut IC6502,
    bus: &mut B,
    argument: OperationArgument,
) -> (r: Option<Thingimagic>)
    ensures
        final(bus).writable() == old(bus).writable(),
        matches_effect(
            spec_op_branch(
                *old(cpu),
                old(bus).mem(),
                !spec_flag_get(old(cpu).status, Flags::Overflow),
                argument,
            ),
            *final(cpu),
            final(bus).mem(),
            r,
        ),
{
    let taken = !flag_get(cpu.status, Flags::Overflow);
    operation_branch(cpu, bus, taken, argument)
}

fn operation_bvs<B: OpenBus>(
    cpu: &mut IC6502,
    bus: &mut B,
    argument: OperationArgument,
) -> (r: Option<Thingimagic>)
    ensures
        final(bus).writable() == old(bus).writable(),
        matches_effect(
            spec_op_branch(
                *old(cpu),
                old(bus).mem(),
                spec_flag_get(old(cpu).status, Flags::Overflow),
                argument,
            ),
            *final(cpu),
            final(bus).mem(),
            r,
        ),
{
    let taken = flag_get(cpu.status, Flags::Overflow);
    operation_branch(cpu, bus, taken, argument)
}

// ---------------------------------------------------------------------
// Arithmetic
// ---------------------------------------------------------------------

fn operation_adc<B: OpenBus>(
    cpu: &mut IC6502,
    bus: &mut B,
    argument: OperationArgument,
) -> (r: Option<Thingimagic>)
    ensures
        final(bus).writable() == old(bus).writable(),
        matches_effect(
            spec_op_adc(*old(cpu), old(bus).mem(), argument),
            *final(cpu),
            final(bus).mem(),
            r,
        ),
{
    let m = read_argument(bus, argument)?;
    add_to_accumulator(cpu, m);
    Some(Thingimagic::Increment)
}

fn operation_sbc<B: OpenBus>(
    cpu: &mut IC6502,
    bus: &mut B,
    argument: OperationArgument,
) -> (r: Option<Thingimagic>)
    ensures
        final(bus).writable() == old(bus).writable(),
        matches_effect(
            spec_op_sbc(*old(cpu), old(bus).mem(), argument),
            *final(cpu),
            final(bus).mem(),
            r,
        ),
{
    let m = read_argument(bus, argument)?;
    add_to_accumulator(cpu, !m);
    Some(Thingimagic::Increment)
}

fn operation_inc<B: OpenBus>(
    cpu: &mut IC6502,
    bus: &mut B,
    argument: OperationArgument,
) -> (r: Option<Thingimagic>)
    ensures
        final(bus).writable() == old(bus).writable(),
        matches_effect(
            spec_op_inc(*old(cpu), old(bus).mem(), old(bus).writable(), argument),
            *final(cpu),
            final(bus).mem(),
            r,
        ),
{
    let v = read_argument(bus, argument)?;
    let result = add8(v, 1);
    cpu.status = set_zn(cpu.status, result);
    write_back(cpu, bus, argument, result)
}

fn operation_dec<B: OpenBus>(
    cpu: &mut IC6502,
    bus: &mut B,
    argument: OperationArgument,
) -> (r: Option<Thingimagic>)
    ensures
        final(bus).writable() == old(bus).writable(),
        matches_effect(
            spec_op_dec(*old(cpu), old(bus).mem(), old(bus).writable(), argument),
            *final(cpu),
            final(bus).mem(),
            r,
        ),
{
    let v = read_argument(bus, argument)?;
    let result = sub8(v, 1);
    cpu.status = set_zn(cpu.status, result);
    write_back(cpu, bus, argument, result)
}

fn operation_inx<B: OpenBus>(
    cpu: &mut IC6502,
    _bus: &mut B,
    _argument: OperationArgument,
) -> (r: Option<Thingimagic>)
    ensures
        final(_bus).writable() == old(_bus).writable(),
        matches_effect(spec_op_inx(*old(cpu), old(_bus).mem()), *final(cpu), final(_bus).mem(), r),
{
    let result = add8(cpu.register_x, 1);
    cpu.register_x = result;
    cpu.status = set_zn(cpu.status, result);
    Some(Thingimagic::Increment)
}

fn operation_iny<B: OpenBus>(
    cpu: &mut IC6502,
    _bus: &mut B,
    _argument: OperationArgument,
) -> (r: Option<Thingimagic>)
    ensures
        final(_bus).writable() == old(_bus).writable(),
        matches_effect(spec_op_iny(*old(cpu), old(_bus).mem()), *final(cpu), final(_bus).mem(), r),
{
    let result = add8(cpu.register_y, 1);
    cpu.register_y = result;
    cpu.status = set_zn(cpu.status, result);
    Some(Thingimagic::Increment)
}

fn operation_dex<B: OpenBus>(
    cpu: &mut IC6502,
    _bus: &mut B,
    _argument: OperationArgument,
) -> (r: Option<Thingimagic>)
    ensures
        final(_bus).writable() == old(_bus).writable(),
        matches_effect(spec_op_dex(*old(cpu), old(_bus).mem()), *final(cpu), final(_bus).mem(), r),
{
    let result = sub8(cpu.register_x, 1);
    cpu.register_x = result;
    cpu.status = set_zn(cpu.status, result);
    Some(Thingimagic::Increment)
}

fn operation_dey<B: OpenBus>(
    cpu: &mut IC6502,
    _bus: &mut B,
    _argument: OperationArgument,
) -> (r: Option<Thingimagic>)
    ensures
        final(_bus).writable() == old(_bus).writable(),
        matches_effect(spec_op_dey(*old(cpu), old(_bus).mem()), *final(cpu), final(_bus).mem(), r),
{
    let result = sub8(cpu.register_y, 1);
    cpu.register_y = result;
    cpu.status = set_zn(cpu.status, result);
    Some(Thingimagic::Increment)
}

// ---------------------------------------------------------------------
// Logic
// ---------------------------------------------------------------------

fn operation_and<B: OpenBus>(
    cpu: &mut IC6502,
    bus: &mut B,
    argument: OperationArgument,
) -> (r: Option<Thingimagic>)
    ensures
        final(bus).writable() == old(bus).writable(),
        matches_effect(
            spec_op_and(*old(cpu), old(bus).mem(), argument),
            *final(cpu),
            final(bus).mem(),
            r,
        ),
{
    let m = read_argument(bus, argument)?;
    let result = cpu.accumulator & m;
    cpu.accumulator = result;
    cpu.status = set_zn(cpu.status, result);
    Some(Thingimagic::Increment)
}

fn operation_ora<B: OpenBus>(
    cpu: &mut IC6502,
    bus: &mut B,
    argument: OperationArgument,
) -> (r: Option<Thingimagic>)
    ensures
        final(bus).writable() == old(bus).writable(),
        matches_effect(
            spec_op_ora(*old(cpu), old(bus).mem(), argument),
            *final(cpu),
            final(bus).mem(),
            r,
        ),
{
    let m = read_argument(bus, argument)?;
    let result = cpu.accumulator | m;
    cpu.accumulator = result;
    cpu.status = set_zn(cpu.status, result);
    Some(Thingimagic::Increment)
}

fn operation_eor<B: OpenBus>(
    cpu: &mut IC6502,
    bus: &mut B,
    argument: OperationArgument,
) -> (r: Option<Thingimagic>)
    ensures
        final(bus).writable() == old(bus).writable(),
        matches_effect(
            spec_op_eor(*old(cpu), old(bus).mem(), argument),
            *final(cpu),
            final(bus).mem(),
            r,
        ),
{
    let m = read_argument(bus, argument)?;
    let result = cpu.accumulator ^ m;
    cpu.accumulator = result;
    cpu.status = set_zn(cpu.status, result);
    Some(Thingimagic::Increment)
}

fn operation_bit<B: OpenBus>(
    cpu: &mut IC6502,
    bus: &mut B,
    argument: OperationArgument,
) -> (r: Option<Thingimagic>)
    ensures
        final(bus).writable() == old(bus).writable(),
        matches_effect(
            spec_op_bit(*old(cpu), old(bus).mem(), argument),
            *final(cpu),
            final(bus).mem(),
            r,
        ),
{
    let m = read_argument(bus, argument)?;
    let p1 = flag_set(cpu.status, Flags::Zero, (cpu.accumulator & m) == 0);
    let p2 = flag_set(p1, Flags::Negative, (m & 0x80) != 0);
    cpu.status = flag_set(p2, Flags::Overflow, (m & 0x40) != 0);
    Some(Thingimagic::Increment)
}

// ---------------------------------------------------------------------
// Shifts and rotates
// ---------------------------------------------------------------------

fn operation_asl<B: OpenBus>(
    cpu: &mut IC6502,
    bus: &mut B,
    argument: OperationArgument,
) -> (r: Option<Thingimagic>)
    ensures
        final(bus).writable() == old(bus).writable(),
        matches_effect(
            spec_op_asl(*old(cpu), old(bus).mem(), old(bus).writable(), argument),
            *final(cpu),
            final(bus).mem(),
            r,
        ),
{
    let v = read_argument(bus, argument)?;
    let result = v << 1u8;
    cpu.status = set_zn(flag_set(cpu.status, Flags::Carry, (v & 0x80) != 0), result);
    write_back(cpu, bus, argument, result)
}

fn operation_lsr<B: OpenBus>(
    cpu: &mut IC6502,
    bus: &mut B,
    argument: OperationArgument,
) -> (r: Option<Thingimagic>)
    ensures
        final(bus).writable() == old(bus).writable(),
        matches_effect(
            spec_op_lsr(*old(cpu), old(bus).mem(), old(bus).writable(), argument),
            *final(cpu),
            final(bus).mem(),
            r,
        ),
{
    let v = read_argument(bus, argument)?;
    let result = v >> 1u8;
    cpu.status = set_zn(flag_set(cpu.status, Flags::Carry, (v & 0x01) != 0), result);
    write_back(cpu, bus, argument, result)
}

fn operation_rol<B: OpenBus>(
    cpu: &mut IC6502,
    bus: &mut B,
    argument: OperationArgument,
) -> (r: Option<Thingimagic>)
    ensures
        final(bus).writable() == old(bus).writable(),
        matches_effect(
            spec_op_rol(*old(cpu), old(bus).mem(), old(bus).writable(), argument),
            *final(cpu),
            final(bus).mem(),
            r,
        ),
{
    let v = read_argument(bus, argument)?;
    let carry_in: u8 = if flag_get(cpu.status, Flags::Carry) {
        1
    } else {
        0
    };
    let result = (v << 1u8) | carry_in;
    cpu.status = set_zn(flag_set(cpu.status, Flags::Carry, (v & 0x80) != 0), result);
    write_back(cpu, bus, argument, result)
}

fn operation_ror<B: OpenBus>(
    cpu: &mut IC6502,
    bus: &mut B,
    argument: OperationArgument,
) -> (r: Option<Thingimagic>)
    ensures
        final(bus).writable() == old(bus).writable(),
        matches_effect(
            spec_op_ror(*old(cpu), old(bus).mem(), old(bus).writable(), argument),
            *final(cpu),
            final(bus).mem(),
            r,
        ),
{
    let v = read_argument(bus, argument)?;
    let carry_in: u8 = if flag_get(cpu.status, Flags::Carry) {
        0x80
    } else {
        0
    };
    let result = carry_in | (v >> 1u8);
    cpu.status = set_zn(flag_set(cpu.status, Flags::Carry, (v & 0x01) != 0), result);
    write_back(cpu, bus, argument, result)
}

// ---------------------------------------------------------------------
// Compares
// ---------------------------------------------------------------------

/// Compare a register byte against the argument byte: only flags change.
fn compare_status(p: u8, reg: u8, m: u8) -> (r: u8)
    ensures
        r == crate::semantics::spec_compare_status(p, reg, m),
{
    let p1 = flag_set(p, Flags::Carry, reg >= m);
    let p2 = flag_set(p1, Flags::Zero, reg == m);
    flag_set(p2, Flags::Negative, (sub8(reg, m) & 0x80) != 0)
}

fn operation_cmp<B: OpenBus>(
    cpu: &mut IC6502,
    bus: &mut B,
    argument: OperationArgument,
) -> (r: Option<Thingimagic>)
    ensures
        final(bus).writable() == old(bus).writable(),
        matches_effect(
            spec_op_cmp(*old(cpu), old(bus).mem(), argument),
            *final(cpu),
            final(bus).mem(),
            r,
        ),
{
    let m = read_argument(bus, argument)?;
    cpu.status = compare_status(cpu.status, cpu.accumulator, m);
    Some(Thingimagic::Increment)
}

fn operation_cpx<B: OpenBus>(
    cpu: &mut IC6502,
    bus: &mut B,
    argument: OperationArgument,
) -> (r: Option<Thingimagic>)
    ensures
        final(bus).writable() == old(bus).writable(),
        matches_effect(
            spec_op_cpx(*old(cpu), old(bus).mem(), argument),
            *final(cpu),
            final(bus).mem(),
            r,
        ),
{
    let m = read_argument(bus, argument)?;
    cpu.status = compare_status(cpu.status, cpu.register_x, m);
    Some(Thingimagic::Increment)
}

fn operation_cpy<B: OpenBus>(
    cpu: &mut IC6502,
    bus: &mut B,
    argument: OperationArgument,
) -> (r: Option<Thingimagic>)
    ensures
        final(bus).writable() == old(bus).writable(),
        matches_effect(
            spec_op_cpy(*old(cpu), old(bus).mem(), argument),
            *final(cpu),
            final(bus).mem(),
            r,
        ),
{
    let m = read_argument(bus, argument)?;
    cpu.status = compare_status(cpu.status, cpu.register_y, m);
    Some(Thingimagic::Increment)
}

// ---------------------------------------------------------------------
// Loads and stores
// ---------------------------------------------------------------------

fn operation_lda<B: OpenBus>(
    cpu: &mut IC6502,
    bus: &mut B,
    argument: OperationArgument,
) -> (r: Option<Thingimagic>)
    ensures
        final(bus).writable() == old(bus).writable(),
        matches_effect(
            spec_op_lda(*old(cpu), old(bus).mem(), argument),
            *final(cpu),
            final(bus).mem(),
            r,
        ),
{
    let m = read_argument(bus, argument)?;
    cpu.accumulator = m;
    cpu.status = set_zn(cpu.status, m);
    Some(Thingimagic::Increment)
}

fn operation_ldx<B: OpenBus>(
    cpu: &mut IC6502,
    bus: &mut B,
    argument: OperationArgument,
) -> (r: Option<Thingimagic>)
    ensures
        final(bus).writable() == old(bus).writable(),
        matches_effect(
            spec_op_ldx(*old(cpu), old(bus).mem(), argument),
            *final(cpu),
            final(bus).mem(),
            r,
        ),
{
    let m = read_argument(bus, argument)?;
    cpu.register_x = m;
    cpu.status = set_zn(cpu.status, m);
    Some(Thingimagic::Increment)
}

fn operation_ldy<B: OpenBus>(
    cpu: &mut IC6502,
    bus: &mut B,
    argument: OperationArgument,
) -> (r: Option<Thingimagic>)
    ensures
        final(bus).writable() == old(bus).writable(),
        matches_effect(
            spec_op_ldy(*old(cpu), old(bus).mem(), argument),
            *final(cpu),
            final(bus).mem(),
            r,
        ),
{
    let m = read_argument(bus, argument)?;
    cpu.register_y = m;
    cpu.status = set_zn(cpu.status, m);
    Some(Thingimagic::Increment)
}

/// A store: the byte goes to the effective address, flags untouched.
fn store_byte<B: OpenBus>(bus: &mut B, argument: OperationArgument, b: u8) -> (r: Option<
    Thingimagic,
>)
    ensures
        final(bus).writable() == old(bus).writable(),
        ({
            let eff = crate::semantics::spec_store_mem(
                old(bus).mem(),
                old(bus).writable(),
                argument,
                b,
            );
            final(bus).mem() == eff.0 && r == eff.1
        }),
{
    match argument {
        OperationArgument::Value(_) => None,
        OperationArgument::Pointer(p) => match bus.write(p, b) {
            Some(()) => Some(Thingimagic::Increment),
            None => None,
        },
    }
}

fn operation_sta<B: OpenBus>(
    cpu: &mut IC6502,
    bus: &mut B,
    argument: OperationArgument,
) -> (r: Option<Thingimagic>)
    ensures
        final(bus).writable() == old(bus).writable(),
        matches_effect(
            spec_op_store(
                *old(cpu),
                old(bus).mem(),
                old(bus).writable(),
                argument,
                old(cpu).accumulator,
            ),
            *final(cpu),
            final(bus).mem(),
            r,
        ),
{
    store_byte(bus, argument, cpu.accumulator)
}

fn operation_stx<B: OpenBus>(
    cpu: &mut IC6502,
    bus: &mut B,
    argument: OperationArgument,
) -> (r: Option<Thingimagic>)
    ensures
        final(bus).writable() == old(bus).writable(),
        matches_effect(
            spec_op_store(
                *old(cpu),
                old(bus).mem(),
                old(bus).writable(),
                argument,
                old(cpu).register_x,
            ),
            *final(cpu),
            final(bus).mem(),
            r,
        ),
{
    store_byte(bus, argument, cpu.register_x)
}

// ---------------------------------------------------------------------
// Register transfers
// ---------------------------------------------------------------------

fn operation_tax<B: OpenBus>(
    cpu: &mut IC6502,
    _bus: &mut B,
    _argument: OperationArgument,
) -> (r: Option<Thingimagic>)
    ensures
        final(_bus).writable() == old(_bus).writable(),
        matches_effect(spec_op_tax(*old(cpu), old(_bus).mem()), *final(cpu), final(_bus).mem(), r),
{
    cpu.register_x = cpu.accumulator;
    cpu.status = set_zn(cpu.status, cpu.register_x);
    Some(Thingimagic::Increment)
}

fn operation_tay<B: OpenBus>(
    cpu: &mut IC6502,
    _bus: &mut B,
    _argument: OperationArgument,
) -> (r: Option<Thingimagic>)
    ensures
        final(_bus).writable() == old(_bus).writable(),
        matches_effect(spec_op_tay(*old(cpu), old(_bus).mem()), *final(cpu), final(_bus).mem(), r),
{
    cpu.register_y = cpu.accumulator;
    cpu.status = set_zn(cpu.status, cpu.register_y);
    Some(Thingimagic::Increment)
}

fn operation_tsx<B: OpenBus>(
    cpu: &mut IC6502,
    _bus: &mut B,
    _argument: OperationArgument,
) -> (r: Option<Thingimagic>)
    ensures
        final(_bus).writable() == old(_bus).writable(),
        matches_effect(spec_op_tsx(*old(cpu), old(_bus).mem()), *final(cpu), final(_bus).mem(), r),
{
    cpu.register_x = cpu.stack_pointer;
    cpu.status = set_zn(cpu.status, cpu.register_x);
    Some(Thingimagic::Increment)
}

fn operation_txa<B: OpenBus>(
    cpu: &mut IC6502,
    _bus: &mut B,
    _argument: OperationArgument,
) -> (r: Option<Thingimagic>)
    ensures
        final(_bus).writable() == old(_bus).writable(),
        matches_effect(spec_op_txa(*old(cpu), old(_bus).mem()), *final(cpu), final(_bus).mem(), r),
{
    cpu.accumulator = cpu.register_x;
    cpu.status = set_zn(cpu.status, cpu.accumulator);
    Some(Thingimagic::Increment)
}

fn operation_tya<B: OpenBus>(
    cpu: &mut IC6502,
    _bus: &mut B,
    _argument: OperationArgument,
) -> (r: Option<Thingimagic>)
    ensures
        final(_bus).writable() == old(_bus).writable(),
        matches_effect(spec_op_tya(*old(cpu), old(_bus).mem()), *final(cpu), final(_bus).mem(), r),
{
    cpu.accumulator = cpu.register_y;
    cpu.status = set_zn(cpu.status, cpu.accumulator);
    Some(Thingimagic::Increment)
}

/// `TXS` is the one transfer that changes no flag.
fn operation_txs<B: OpenBus>(
    cpu: &mut IC6502,
    _bus: &mut B,
    _argument: OperationArgument,
) -> (r: Option<Thingimagic>)
    ensures
        final(_bus).writable() == old(_bus).writable(),
        matches_effect(spec_op_txs(*old(cpu), old(_bus).mem()), *final(cpu), final(_bus).mem(), r),
{
    cpu.stack_pointer = cpu.register_x;
    Some(Thingimagic::Increment)
}

// ---------------------------------------------------------------------
// Flag set and clear
// ---------------------------------------------------------------------

/// Set or clear exactly the named flag.
fn operation_set_flag<B: OpenBus>(
    cpu: &mut IC6502,
    _bus: &mut B,
    f: Flags,
    on: bool,
) -> (r: Option<Thingimagic>)
    ensures
        final(_bus).writable() == old(_bus).writable(),
        matches_effect(
            spec_op_flag(*old(cpu), old(_bus).mem(), f, on),
            *final(cpu),
            final(_bus).mem(),
            r,
        ),
{
    cpu.status = flag_set(cpu.status, f, on);
    Some(Thingimagic::Increment)
}

// ---------------------------------------------------------------------
// Stack
// ---------------------------------------------------------------------

fn operation_pha<B: OpenBus>(
    cpu: &mut IC6502,
    bus: &mut B,
    _argument: OperationArgument,
) -> (r: Option<Thingimagic>)
    ensures
        final(bus).writable() == old(bus).writable(),
        matches_effect(
            spec_op_pha(*old(cpu), old(bus).mem(), old(bus).writable()),
            *final(cpu),
            final(bus).mem(),
            r,
        ),
{
    push_byte(cpu, bus, cpu.accumulator)?;
    Some(Thingimagic::Increment)
}

/// `PHP` pushes the status byte with Break and Unused forced on.
fn operation_php<B: OpenBus>(
    cpu: &mut IC6502,
    bus: &mut B,
    _argument: OperationArgument,
) -> (r: Option<Thingimagic>)
    ensures
        final(bus).writable() == old(bus).writable(),
        matches_effect(
            spec_op_php(*old(cpu), old(bus).mem(), old(bus).writable()),
            *final(cpu),
            final(bus).mem(),
            r,
        ),
{
    push_byte(cpu, bus, cpu.status | 0x30)?;
    Some(Thingimagic::Increment)
}

fn operation_pla<B: OpenBus>(
    cpu: &mut IC6502,
    bus: &mut B,
    _argument: OperationArgument,
) -> (r: Option<Thingimagic>)
    ensures
        final(bus).writable() == old(bus).writable(),
        matches_effect(
            spec_op_pla(*old(cpu), old(bus).mem()),
            *final(cpu),
            final(bus).mem(),
            r,
        ),
{
    let v = pull_byte(cpu, bus)?;
    cpu.accumulator = v;
    cpu.status = set_zn(cpu.status, v);
    Some(Thingimagic::Increment)
}

/// `PLP` pulls the status byte with Break forced off and Unused forced on.
fn operation_plp<B: OpenBus>(
    cpu: &mut IC6502,
    bus: &mut B,
    _argument: OperationArgument,
) -> (r: Option<Thingimagic>)
    ensures
        final(bus).writable() == old(bus).writable(),
        matches_effect(
            spec_op_plp(*old(cpu), old(bus).mem()),
            *final(cpu),
            final(bus).mem(),
            r,
        ),
{
    let v = pull_byte(cpu, bus)?;
    cpu.status = (v & 0xef) | 0x20;
    Some(Thingimagic::Increment)
}

// ---------------------------------------------------------------------
// Control flow
// ---------------------------------------------------------------------

fn operation_jmp<B: OpenBus>(
    cpu: &mut IC6502,
    _bus: &mut B,
    argument: OperationArgument,
) -> (r: Option<Thingimagic>)
    ensures
        final(_bus).writable() == old(_bus).writable(),
        matches_effect(
            spec_op_jmp(*old(cpu), old(_bus).mem(), argument),
            *final(cpu),
            final(_bus).mem(),
            r,
        ),
{
    match argument {
        OperationArgument::Value(_) => None,
        OperationArgument::Pointer(p) => Some(Thingimagic::Jump(p)),
    }
}

/// `JSR` pushes the address of its own last byte, high byte first.
fn operation_jsr<B: OpenBus>(
    cpu: &mut IC6502,
    bus: &mut B,
    argument: OperationArgument,
) -> (r: Option<Thingimagic>)
    ensures
        final(bus).writable() == old(bus).writable(),
        matches_effect(
            spec_op_jsr(*old(cpu), old(bus).mem(), old(bus).writable(), argument),
            *final(cpu),
            final(bus).mem(),
            r,
        ),
{
    let target = match argument {
        OperationArgument::Value(_) => return None,
        OperationArgument::Pointer(p) => p,
    };
    let ret = add16(cpu.program_counter, 2);
    push_byte(cpu, bus, (ret / 256) as u8)?;
    push_byte(cpu, bus, (ret % 256) as u8)?;
    Some(Thingimagic::Jump(target))
}

/// `RTS` pulls low then high byte and resumes one past that address.
fn operation_rts<B: OpenBus>(
    cpu: &mut IC6502,
    bus: &mut B,
    _argument: OperationArgument,
) -> (r: Option<Thingimagic>)
    ensures
        final(bus).writable() == old(bus).writable(),
        matches_effect(
            spec_op_rts(*old(cpu), old(bus).mem()),
            *final(cpu),
            final(bus).mem(),
            r,
        ),
{
    let lo = pull_byte(cpu, bus)?;
    let hi = pull_byte(cpu, bus)?;
    Some(Thingimagic::Jump(add16(word(lo, hi), 1)))
}

/// `RTI` pulls the status byte, then the program counter, without the
/// `+ 1` of `RTS`.
fn operation_rti<B: OpenBus>(
    cpu: &mut IC6502,
    bus: &mut B,
    _argument: OperationArgument,
) -> (r: Option<Thingimagic>)
    ensures
        final(bus).writable() == old(bus).writable(),
        matches_effect(
            spec_op_rti(*old(cpu), old(bus).mem()),
            *final(cpu),
            final(bus).mem(),
            r,
        ),
{
    let s = pull_byte(cpu, bus)?;
    cpu.status = (s & 0xef) | 0x20;
    let lo = pull_byte(cpu, bus)?;
    let hi = pull_byte(cpu, bus)?;
    Some(Thingimagic::Jump(word(lo, hi)))
}

/// `BRK` reads and discards its padding byte, pushes `PC + 2` and the
/// status byte with Break and Unused on, sets Interrupt-Disable, and
/// jumps through the vector at `0xFFFE/0xFFFF`.
fn operation_brk<B: OpenBus>(
    cpu: &mut IC6502,
    bus: &mut B,
    _argument: OperationArgument,
) -> (r: Option<Thingimagic>)
    ensures
        final(bus).writable() == old(bus).writable(),
        matches_effect(
            spec_op_brk(*old(cpu), old(bus).mem(), old(bus).writable()),
            *final(cpu),
            final(bus).mem(),
            r,
        ),
{
    let _ = bus.read(add16(cpu.program_counter, 1));
    let ret = add16(cpu.program_counter, 2);
    push_byte(cpu, bus, (ret / 256) as u8)?;
    push_byte(cpu, bus, (ret % 256) as u8)?;
    push_byte(cpu, bus, cpu.status | 0x30)?;
    cpu.status = cpu.status | 0x04;
    let lo = bus.read(0xfffe)?;
    let hi = bus.read(0xffff)?;
    Some(Thingimagic::Jump(word(lo, hi)))
}

fn operation_nop<B: OpenBus>(
    _cpu: &mut IC6502,
    _bus: &mut B,
    _argument: OperationArgument,
) -> (r: Option<Thingimagic>)
    ensures
        final(_bus).writable() == old(_bus).writable(),
        matches_effect(
            spec_advance(*old(_cpu), old(_bus).mem()),
            *final(_cpu),
            final(_bus).mem(),
            r,
        ),
{
    Some(Thingimagic::Increment)
}

fn operation_sty<B: OpenBus>(
    cpu: &mut IC6502,
    bus: &mut B,
    argument: OperationArgument,
) -> (r: Option<Thingimagic>)
    ensures
        final(bus).writable() == old(bus).writable(),
        matches_effect(
            spec_op_store(
                *old(cpu),
                old(bus).mem(),
                old(bus).writable(),
                argument,
                old(cpu).register_y,
            ),
            *final(cpu),
            final(bus).mem(),
            r,
        ),
{
    store_byte(bus, argument, cpu.register_y)
}

// ---------------------------------------------------------------------
// Dispatch
// ---------------------------------------------------------------------

impl Operation {
    /// Run this operation against the CPU and bus with the argument the
    /// addressing mode produced.  The whole effect — registers, flags,
    /// memory, control transfer, and the partial state of an aborted
    /// operation — is the one `spec_run` gives.
    pub fn run<B: OpenBus>(
        &self,
        cpu: &mut IC6502,
        bus: &mut B,
        arg: OperationArgument,
    ) -> (r: Option<Thingimagic>)
        ensures
            final(bus).writable() == old(bus).writable(),
            matches_effect(
                spec_run(*self, *old(cpu), old(bus).mem(), old(bus).writable(), arg),
                *final(cpu),
                final(bus).mem(),
                r,
            ),
    {
        match self {
            Operation::AddToAccumulator => operation_adc(cpu, bus, arg),
            Operation::SubtractFromAccumulator => operation_sbc(cpu, bus, arg),
            Operation::Increment => operation_inc(cpu, bus, arg),
            Operation::IncrementIndexX => operation_inx(cpu, bus, arg),
            Operation::IncrementIndexY => operation_iny(cpu, bus, arg),
            Operation::Decrement => operation_dec(cpu, bus, arg),
            Operation::DecrementIndexX => operation_dex(cpu, bus, arg),
            Operation::DecrementIndexY => operation_dey(cpu, bus, arg),
            Operation::BitwiseANDAccumulator => operation_and(cpu, bus, arg),
            Operation::BitwiseXORAccumulator => operation_eor(cpu, bus, arg),
            Operation::BitwiseORAccumulator => operation_ora(cpu, bus, arg),
            Operation::LeftShift => operation_asl(cpu, bus, arg),
            Operation::RightShift => operation_lsr(cpu, bus, arg),
            Operation::RotateBitLeft => operation_rol(cpu, bus, arg),
            Operation::RotateBitRight => operation_ror(cpu, bus, arg),
            Operation::BranchOnCarryClear => operation_bcc(cpu, bus, arg),
            Operation::BranchOnCarrySet => operation_bcs(cpu, bus, arg),
            Operation::BranchOnResultZero => operation_beq(cpu, bus, arg),
            Operation::BranchOnResultMinus => operation_bmi(cpu, bus, arg),
            Operation::BranchOnResultNotZero => operation_bne(cpu, bus, arg),
            Operation::BranchOnResultPlus => operation_bpl(cpu, bus, arg),
            Operation::BranchOnOverflowClear => operation_bvc(cpu, bus, arg),
            Operation::BranchOnOverflowSet => operation_bvs(cpu, bus, arg),
            Operation::TestBitsWithAccumulator => operation_bit(cpu, bus, arg),
            Operation::ClearCarryFlag => operation_set_flag(cpu, bus, Flags::Carry, false),
            Operation::ClearDecimalMode => operation_set_flag(cpu, bus, Flags::DecimalMode, false),
            Operation::ClearInterruptDisableBit => operation_set_flag(
                cpu,
                bus,
                Flags::InterruptDisable,
                false,
            ),
            Operation::ClearOverflowFlag => operation_set_flag(cpu, bus, Flags::Overflow, false),
            Operation::ComapareWithAccumulator => operation_cmp(cpu, bus, arg),
            Operation::CompareWithIndexX => operation_cpx(cpu, bus, arg),
            Operation::CompareWithIndexY => operation_cpy(cpu, bus, arg),
            Operation::Jump => operation_jmp(cpu, bus, arg),
            Operation::JumpToSubRoutine => operation_jsr(cpu, bus, arg),
            Operation::LoadToAccumulator => operation_lda(cpu, bus, arg),
            Operation::LoadToXRegister => operation_ldx(cpu, bus, arg),
            Operation::LoadToYRegister => operation_ldy(cpu, bus, arg),
            Operation::PushAccumulatorToStack => operation_pha(cpu, bus, arg),
            Operation::PushStatusToStack => operation_php(cpu, bus, arg),
            Operation::PullAccumulatorFromStack => operation_pla(cpu, bus, arg),
            Operation::PullStatusFromStack => operation_plp(cpu, bus, arg),
            Operation::ReturnFromInterrupt => operation_rti(cpu, bus, arg),
            Operation::ReturnFromSubroutine => operation_rts(cpu, bus, arg),
            Operation::SetCarryFlag => operation_set_flag(cpu, bus, Flags::Carry, true),
            Operation::DetDecimalMode => operation_set_flag(cpu, bus, Flags::DecimalMode, true),
            Operation::SetInterruptStatus => operation_set_flag(
                cpu,
                bus,
                Flags::InterruptDisable,
                true,
            ),
            Operation::StoreAccumulator => operation_sta(cpu, bus, arg),
            Operation::StoreXRegister => operation_stx(cpu, bus, arg),
            Operation::StoreYRegister => operation_sty(cpu, bus, arg),
            Operation::TransferAccumulatorToX => operation_tax(cpu, bus, arg),
            Operation::TransferAccumulatorToY => operation_tay(cpu, bus, arg),
            Operation::TransferStackPointerToX => operation_tsx(cpu, bus, arg),
            Operation::TransferXToAccumulator => operation_txa(cpu, bus, arg),
            Operation::TransferXToStackRegister => operation_txs(cpu, bus, arg),
            Operation::TransferYToAccumulator => operation_tya(cpu, bus, arg),
            Operation::ForceBreak => operation_brk(cpu, bus, arg),
            Operation::NoOp => operation_nop(cpu, bus, arg),
        }
    }
}

} // verus!
