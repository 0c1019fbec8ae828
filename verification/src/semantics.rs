//! Specification-level model of the processor.
//!
//! One spec function per addressing mode and per operation gives the exact
//! effect of an instruction on the CPU registers, the memory map and the
//! returned control-transfer, and `spec_step` composes them into the
//! meaning of one full `step`.
//!
//! Memory is a partial map from 16-bit addresses to bytes; an address
//! outside its domain is open bus and a read of it aborts the instruction.
//! A separate set `wr` holds the addresses on which a write lands.  An
//! aborted instruction is *not* rolled back: each spec function returns the
//! exact partial state left behind, with outcome `None`.

use vstd::prelude::*;

use crate::addressing_mode::AdressingMode;
use crate::cpu::IC6502;
use crate::decode::{spec_decode, Instruction};
use crate::flags::{spec_flag_get, spec_flag_set, spec_set_zn, Flags};
use crate::operation::{Operation, OperationArgument, Thingimagic};

verus! {

/// The byte at `addr`, or `None` where no device is mapped.
pub open spec fn mem_get(mem: Map<u16, u8>, addr: u16) -> Option<u8> {
    if mem.dom().contains(addr) {
        Some(mem[addr])
    } else {
        None
    }
}

/// 8-bit modular addition.
pub open spec fn wrap_add8(a: u8, b: u8) -> u8 {
    ((a + b) % 256) as u8
}

/// 8-bit modular subtraction.
pub open spec fn wrap_sub8(a: u8, b: u8) -> u8 {
    ((a + 256 - b) % 256) as u8
}

/// 16-bit modular addition.
pub open spec fn wrap_add16(a: u16, b: u16) -> u16 {
    ((a + b) % 0x10000) as u16
}

/// The 16-bit word with low byte `lo` and high byte `hi`.
pub open spec fn le16(lo: u8, hi: u8) -> u16 {
    (lo + hi * 256) as u16
}

/// Low byte of a 16-bit word.
pub open spec fn lo_byte(w: u16) -> u8 {
    (w % 256) as u8
}

/// High byte of a 16-bit word.
pub open spec fn hi_byte(w: u16) -> u8 {
    (w / 256) as u8
}

/// An 8-bit byte taken as a two's-complement signed displacement.
pub open spec fn sign_extend(d: u8) -> int {
    if d < 0x80 {
        d as int
    } else {
        d - 256
    }
}

/// The address `PC + 2 + d` with `d` taken as a signed 8-bit displacement,
/// wrapping in 16 bits.  `0x10000 - 256` is congruent to `-256`, so the
/// second branch is the two's-complement sign extension of `d`.
pub open spec fn branch_dest(pc: u16, d: u8) -> u16 {
    if d < 0x80 {
        ((pc + 2 + d) % 0x10000) as u16
    } else {
        ((pc + 2 + d + (0x10000 - 256)) % 0x10000) as u16
    }
}

/// The stack lives in page 1: the cell addressed by the stack pointer.
pub open spec fn stack_addr(sp: u8) -> u16 {
    (0x0100 + sp) as u16
}

/// The full effect of one operation: the CPU and memory left behind, and
/// either the control transfer of a completed operation or `None` when an
/// open-bus access aborted it part-way.
pub struct OpEffect {
    pub cpu: IC6502,
    pub mem: Map<u16, u8>,
    pub outcome: Option<Thingimagic>,
}

/// The full effect of one `step`: the CPU and memory left behind, and the
/// base cycle count, `Some(0)` for an invalid opcode, or `None` when an
/// open-bus access aborted the instruction.
pub struct StepEffect {
    pub cpu: IC6502,
    pub mem: Map<u16, u8>,
    pub cycles: Option<u8>,
}

/// Whether the machine state and outcome an operation left behind are the
/// ones its spec effect gives.
pub open spec fn matches_effect(
    eff: OpEffect,
    cpu: IC6502,
    mem: Map<u16, u8>,
    r: Option<Thingimagic>,
) -> bool {
    cpu == eff.cpu && mem == eff.mem && r == eff.outcome
}

/// Whether the machine state and cycle count a `step` left behind are the
/// ones its spec effect gives.
pub open spec fn matches_step(
    eff: StepEffect,
    cpu: IC6502,
    mem: Map<u16, u8>,
    r: Option<u8>,
) -> bool {
    cpu == eff.cpu && mem == eff.mem && r == eff.cycles
}

/// An aborted operation that had not yet touched anything.
pub open spec fn spec_absent(cpu: IC6502, mem: Map<u16, u8>) -> OpEffect {
    OpEffect { cpu, mem, outcome: None }
}

/// A completed operation that leaves the program counter to the driver.
pub open spec fn spec_advance(cpu: IC6502, mem: Map<u16, u8>) -> OpEffect {
    OpEffect { cpu, mem, outcome: Some(Thingimagic::Increment) }
}

/// The byte an operation works on: an immediate value is already in hand,
/// a pointer argument is read from memory.
pub open spec fn spec_arg_value(mem: Map<u16, u8>, arg: OperationArgument) -> Option<u8> {
    match arg {
        OperationArgument::Value(v) => Some(v),
        OperationArgument::Pointer(p) => mem_get(mem, p),
    }
}

// ---------------------------------------------------------------------
// Addressing modes
// ---------------------------------------------------------------------

/// Total instruction length in bytes of each addressing mode, opcode
/// included.
pub open spec fn mode_length(mode: AdressingMode) -> u8 {
    match mode {
        AdressingMode::Implied => 1,
        AdressingMode::Immediate => 2,
        AdressingMode::Accumulator => 1,
        AdressingMode::Relative => 2,
        AdressingMode::ZeroPage => 2,
        AdressingMode::IndexedZeroPageX => 2,
        AdressingMode::IndexedZeroPageY => 2,
        AdressingMode::Absolute => 3,
        AdressingMode::IndexedAbsoluteX => 3,
        AdressingMode::IndexedAbsoluteY => 3,
        AdressingMode::IndexedIndirect => 2,
        AdressingMode::IndirectIndexed => 2,
        AdressingMode::AbsoluteIndirect => 3,
    }
}

/// The two operand bytes of a three-byte instruction, as one little-endian
/// word.
pub open spec fn spec_operand_word(cpu: IC6502, mem: Map<u16, u8>) -> Option<u16> {
    match mem_get(mem, wrap_add16(cpu.program_counter, 1)) {
        None => None,
        Some(lo) => match mem_get(mem, wrap_add16(cpu.program_counter, 2)) {
            None => None,
            Some(hi) => Some(le16(lo, hi)),
        },
    }
}

/// A pointer read from two consecutive zero-page cells, the second
/// wrapping within the zero page.
pub open spec fn spec_zp_pointer(mem: Map<u16, u8>, base: u8) -> Option<u16> {
    match mem_get(mem, base as u16) {
        None => None,
        Some(lo) => match mem_get(mem, wrap_add8(base, 1) as u16) {
            None => None,
            Some(hi) => Some(le16(lo, hi)),
        },
    }
}

/// What an addressing mode yields: the instruction length and the operand
/// argument, or `None` when one of its reads hit open bus.  Addressing
/// modes only read, so an aborted mode leaves no trace.
pub open spec fn spec_mode_read(mode: AdressingMode, cpu: IC6502, mem: Map<u16, u8>) -> Option<
    (u8, OperationArgument),
> {
    match mode {
        AdressingMode::Implied => Some((1, OperationArgument::Value(cpu.accumulator))),
        AdressingMode::Accumulator => Some((1, OperationArgument::Value(cpu.accumulator))),
        AdressingMode::Immediate => Some(
            (2, OperationArgument::Pointer(wrap_add16(cpu.program_counter, 1))),
        ),
        AdressingMode::Relative => match mem_get(mem, wrap_add16(cpu.program_counter, 1)) {
            None => None,
            Some(b) => Some((2, OperationArgument::Value(b))),
        },
        AdressingMode::ZeroPage => match mem_get(mem, wrap_add16(cpu.program_counter, 1)) {
            None => None,
            Some(b) => Some((2, OperationArgument::Pointer(b as u16))),
        },
        AdressingMode::IndexedZeroPageX => match mem_get(
            mem,
            wrap_add16(cpu.program_counter, 1),
        ) {
            None => None,
            Some(b) => Some((2, OperationArgument::Pointer(wrap_add8(b, cpu.register_x) as u16))),
        },
        AdressingMode::IndexedZeroPageY => match mem_get(
            mem,
            wrap_add16(cpu.program_counter, 1),
        ) {
            None => None,
            Some(b) => Some((2, OperationArgument::Pointer(wrap_add8(b, cpu.register_y) as u16))),
        },
        AdressingMode::Absolute => match spec_operand_word(cpu, mem) {
            None => None,
            Some(w) => Some((3, OperationArgument::Pointer(w))),
        },
        AdressingMode::IndexedAbsoluteX => match spec_operand_word(cpu, mem) {
            None => None,
            Some(w) => Some(
                (3, OperationArgument::Pointer(wrap_add16(w, cpu.register_x as u16))),
            ),
        },
        AdressingMode::IndexedAbsoluteY => match spec_operand_word(cpu, mem) {
            None => None,
            Some(w) => Some(
                (3, OperationArgument::Pointer(wrap_add16(w, cpu.register_y as u16))),
            ),
        },
        AdressingMode::AbsoluteIndirect => match mem_get(
            mem,
            wrap_add16(cpu.program_counter, 1),
        ) {
            None => None,
            Some(lo) => match mem_get(mem, wrap_add16(cpu.program_counter, 2)) {
                None => None,
                // The page-boundary quirk: the high byte of the target is
                // read from `le16(lo + 1 mod 256, hi)`, never from the next
                // page, so a pointer ending in 0xFF wraps within its page.
                Some(hi) => match mem_get(mem, le16(lo, hi)) {
                    None => None,
                    Some(tlo) => match mem_get(mem, le16(wrap_add8(lo, 1), hi)) {
                        None => None,
                        Some(thi) => Some((3, OperationArgument::Pointer(le16(tlo, thi)))),
                    },
                },
            },
        },
        AdressingMode::IndexedIndirect => match mem_get(mem, wrap_add16(cpu.program_counter, 1)) {
            None => None,
            Some(b) => match spec_zp_pointer(mem, wrap_add8(b, cpu.register_x)) {
                None => None,
                Some(w) => Some((2, OperationArgument::Pointer(w))),
            },
        },
        AdressingMode::IndirectIndexed => match mem_get(mem, wrap_add16(cpu.program_counter, 1)) {
            None => None,
            Some(b) => match spec_zp_pointer(mem, b) {
                None => None,
                Some(w) => Some(
                    (2, OperationArgument::Pointer(wrap_add16(w, cpu.register_y as u16))),
                ),
            },
        },
    }
}

// ---------------------------------------------------------------------
// Operation building blocks
// ---------------------------------------------------------------------

/// The accumulator, status and carry after `A + M + C`, with carry from
/// unsigned overflow, overflow from signed overflow, and Z/N from the
/// result.  Decimal mode is inert, as on the NES variant of the chip.
pub open spec fn spec_adc_cpu(cpu: IC6502, m: u8) -> IC6502 {
    let c: u8 = if spec_flag_get(cpu.status, Flags::Carry) {
        1
    } else {
        0
    };
    let sum: int = cpu.accumulator + m + c;
    let r: u8 = (sum % 256) as u8;
    let p1 = spec_flag_set(cpu.status, Flags::Carry, sum > 255);
    let p2 = spec_flag_set(p1, Flags::Overflow, ((cpu.accumulator ^ r) & (m ^ r) & 0x80) != 0);
    IC6502 { accumulator: r, status: spec_set_zn(p2, r), ..cpu }
}

/// Where a read-modify-write result goes: to the accumulator for a value
/// argument, back to memory for a pointer argument.  The flags in `cpu`
/// were already updated, so a refused write leaves them behind.
pub open spec fn spec_write_back(
    cpu: IC6502,
    mem: Map<u16, u8>,
    wr: Set<u16>,
    arg: OperationArgument,
    r: u8,
) -> OpEffect {
    match arg {
        OperationArgument::Value(_) => spec_advance(IC6502 { accumulator: r, ..cpu }, mem),
        OperationArgument::Pointer(p) => if wr.contains(p) {
            spec_advance(cpu, mem.insert(p, r))
        } else {
            OpEffect { cpu, mem, outcome: None }
        },
    }
}

/// One byte pushed: written at `0x0100 | SP`, then SP decremented.  A
/// refused write leaves everything untouched.
pub open spec fn spec_push(cpu: IC6502, mem: Map<u16, u8>, wr: Set<u16>, b: u8) -> Option<
    (IC6502, Map<u16, u8>),
> {
    let addr = stack_addr(cpu.stack_pointer);
    if wr.contains(addr) {
        Some(
            (
                IC6502 { stack_pointer: wrap_sub8(cpu.stack_pointer, 1), ..cpu },
                mem.insert(addr, b),
            ),
        )
    } else {
        None
    }
}

/// One byte pulled: SP incremented, then the byte at `0x0100 | SP` read.
/// The increment stands even when the read then hits open bus.
pub open spec fn spec_pull(cpu: IC6502, mem: Map<u16, u8>) -> (IC6502, Option<u8>) {
    let sp1 = wrap_add8(cpu.stack_pointer, 1);
    (IC6502 { stack_pointer: sp1, ..cpu }, mem_get(mem, stack_addr(sp1)))
}

/// A relative branch: taken, it jumps to `PC + 2` plus the signed
/// displacement; not taken, it advances.  Branches are given their
/// displacement as an in-hand value; any other argument aborts.
pub open spec fn spec_op_branch(
    cpu: IC6502,
    mem: Map<u16, u8>,
    taken: bool,
    arg: OperationArgument,
) -> OpEffect {
    match arg {
        OperationArgument::Pointer(_) => spec_absent(cpu, mem),
        OperationArgument::Value(d) => if taken {
            OpEffect {
                cpu,
                mem,
                outcome: Some(Thingimagic::Jump(branch_dest(cpu.program_counter, d))),
            }
        } else {
            spec_advance(cpu, mem)
        },
    }
}

/// A compare of register byte `r` against memory byte `m`: carry iff
/// `r >= m` unsigned, zero iff equal, negative from bit 7 of the 8-bit
/// difference.  Nothing else changes.
pub open spec fn spec_compare_status(p: u8, r: u8, m: u8) -> u8 {
    let p1 = spec_flag_set(p, Flags::Carry, r >= m);
    let p2 = spec_flag_set(p1, Flags::Zero, r == m);
    spec_flag_set(p2, Flags::Negative, (wrap_sub8(r, m) & 0x80) != 0)
}

/// The memory and outcome of a store of byte `b`: it lands at the
/// effective address and flags are untouched.  A store needs an address:
/// a value argument aborts, as does a refused write.
pub open spec fn spec_store_mem(
    mem: Map<u16, u8>,
    wr: Set<u16>,
    arg: OperationArgument,
    b: u8,
) -> (Map<u16, u8>, Option<Thingimagic>) {
    match arg {
        OperationArgument::Value(_) => (mem, None),
        OperationArgument::Pointer(p) => if wr.contains(p) {
            (mem.insert(p, b), Some(Thingimagic::Increment))
        } else {
            (mem, None)
        },
    }
}

/// A store as a full operation effect: the CPU is untouched.
pub open spec fn spec_op_store(
    cpu: IC6502,
    mem: Map<u16, u8>,
    wr: Set<u16>,
    arg: OperationArgument,
    b: u8,
) -> OpEffect {
    let (mem1, outcome) = spec_store_mem(mem, wr, arg, b);
    OpEffect { cpu, mem: mem1, outcome }
}

// ---------------------------------------------------------------------
// Operations
// ---------------------------------------------------------------------

/// `ADC`: `A' = A + M + C`.
pub open spec fn spec_op_adc(
    cpu: IC6502,
    mem: Map<u16, u8>,
    arg: OperationArgument,
) -> OpEffect {
    match spec_arg_value(mem, arg) {
        None => spec_absent(cpu, mem),
        Some(m) => spec_advance(spec_adc_cpu(cpu, m), mem),
    }
}

/// `SBC`: `ADC` with the operand complemented; carry acts as borrow-not.
pub open spec fn spec_op_sbc(
    cpu: IC6502,
    mem: Map<u16, u8>,
    arg: OperationArgument,
) -> OpEffect {
    match spec_arg_value(mem, arg) {
        None => spec_absent(cpu, mem),
        Some(m) => spec_advance(spec_adc_cpu(cpu, !m), mem),
    }
}

/// `AND`, `ORA`, `EOR`: the accumulator takes the bitwise result and Z/N
/// follow it.
pub open spec fn spec_logic_effect(
    cpu: IC6502,
    mem: Map<u16, u8>,
    r: u8,
) -> OpEffect {
    spec_advance(IC6502 { accumulator: r, status: spec_set_zn(cpu.status, r), ..cpu }, mem)
}

pub open spec fn spec_op_and(cpu: IC6502, mem: Map<u16, u8>, arg: OperationArgument) -> OpEffect {
    match spec_arg_value(mem, arg) {
        None => spec_absent(cpu, mem),
        Some(m) => spec_logic_effect(cpu, mem, cpu.accumulator & m),
    }
}

pub open spec fn spec_op_ora(cpu: IC6502, mem: Map<u16, u8>, arg: OperationArgument) -> OpEffect {
    match spec_arg_value(mem, arg) {
        None => spec_absent(cpu, mem),
        Some(m) => spec_logic_effect(cpu, mem, cpu.accumulator | m),
    }
}

pub open spec fn spec_op_eor(cpu: IC6502, mem: Map<u16, u8>, arg: OperationArgument) -> OpEffect {
    match spec_arg_value(mem, arg) {
        None => spec_absent(cpu, mem),
        Some(m) => spec_logic_effect(cpu, mem, cpu.accumulator ^ m),
    }
}

/// `BIT`: zero from `A & M`, negative from bit 7 of `M`, overflow from
/// bit 6 of `M`; the accumulator is unchanged.
pub open spec fn spec_op_bit(cpu: IC6502, mem: Map<u16, u8>, arg: OperationArgument) -> OpEffect {
    match spec_arg_value(mem, arg) {
        None => spec_absent(cpu, mem),
        Some(m) => {
            let p1 = spec_flag_set(cpu.status, Flags::Zero, (cpu.accumulator & m) == 0);
            let p2 = spec_flag_set(p1, Flags::Negative, (m & 0x80) != 0);
            let p3 = spec_flag_set(p2, Flags::Overflow, (m & 0x40) != 0);
            spec_advance(IC6502 { status: p3, ..cpu }, mem)
        },
    }
}

/// `ASL`: carry takes old bit 7, the byte shifts left, Z/N follow.
pub open spec fn spec_op_asl(
    cpu: IC6502,
    mem: Map<u16, u8>,
    wr: Set<u16>,
    arg: OperationArgument,
) -> OpEffect {
    match spec_arg_value(mem, arg) {
        None => spec_absent(cpu, mem),
        Some(v) => {
            let r = v << 1;
            let p = spec_set_zn(spec_flag_set(cpu.status, Flags::Carry, (v & 0x80) != 0), r);
            spec_write_back(IC6502 { status: p, ..cpu }, mem, wr, arg, r)
        },
    }
}

/// `LSR`: carry takes old bit 0, the byte shifts right, negative clears.
pub open spec fn spec_op_lsr(
    cpu: IC6502,
    mem: Map<u16, u8>,
    wr: Set<u16>,
    arg: OperationArgument,
) -> OpEffect {
    match spec_arg_value(mem, arg) {
        None => spec_absent(cpu, mem),
        Some(v) => {
            let r = v >> 1;
            let p = spec_set_zn(spec_flag_set(cpu.status, Flags::Carry, (v & 0x01) != 0), r);
            spec_write_back(IC6502 { status: p, ..cpu }, mem, wr, arg, r)
        },
    }
}

/// `ROL`: the old carry enters at bit 0, carry takes old bit 7.
pub open spec fn spec_op_rol(
    cpu: IC6502,
    mem: Map<u16, u8>,
    wr: Set<u16>,
    arg: OperationArgument,
) -> OpEffect {
    match spec_arg_value(mem, arg) {
        None => spec_absent(cpu, mem),
        Some(v) => {
            let cin: u8 = if spec_flag_get(cpu.status, Flags::Carry) {
                1
            } else {
                0
            };
            let r = (v << 1) | cin;
            let p = spec_set_zn(spec_flag_set(cpu.status, Flags::Carry, (v & 0x80) != 0), r);
            spec_write_back(IC6502 { status: p, ..cpu }, mem, wr, arg, r)
        },
    }
}

/// `ROR`: the old carry enters at bit 7, carry takes old bit 0.
pub open spec fn spec_op_ror(
    cpu: IC6502,
    mem: Map<u16, u8>,
    wr: Set<u16>,
    arg: OperationArgument,
) -> OpEffect {
    match spec_arg_value(mem, arg) {
        None => spec_absent(cpu, mem),
        Some(v) => {
            let cin: u8 = if spec_flag_get(cpu.status, Flags::Carry) {
                0x80
            } else {
                0
            };
            let r = cin | (v >> 1);
            let p = spec_set_zn(spec_flag_set(cpu.status, Flags::Carry, (v & 0x01) != 0), r);
            spec_write_back(IC6502 { status: p, ..cpu }, mem, wr, arg, r)
        },
    }
}

/// `INC`: the byte plus one, written back, Z/N from the result.
pub open spec fn spec_op_inc(
    cpu: IC6502,
    mem: Map<u16, u8>,
    wr: Set<u16>,
    arg: OperationArgument,
) -> OpEffect {
    match spec_arg_value(mem, arg) {
        None => spec_absent(cpu, mem),
        Some(v) => {
            let r = wrap_add8(v, 1);
            spec_write_back(
                IC6502 { status: spec_set_zn(cpu.status, r), ..cpu },
                mem,
                wr,
                arg,
                r,
            )
        },
    }
}

/// `DEC`: the byte minus one, written back, Z/N from the result.
pub open spec fn spec_op_dec(
    cpu: IC6502,
    mem: Map<u16, u8>,
    wr: Set<u16>,
    arg: OperationArgument,
) -> OpEffect {
    match spec_arg_value(mem, arg) {
        None => spec_absent(cpu, mem),
        Some(v) => {
            let r = wrap_sub8(v, 1);
            spec_write_back(
                IC6502 { status: spec_set_zn(cpu.status, r), ..cpu },
                mem,
                wr,
                arg,
                r,
            )
        },
    }
}

/// A register stepped by one with Z/N from the result, as one new CPU.
pub open spec fn spec_op_inx(cpu: IC6502, mem: Map<u16, u8>) -> OpEffect {
    let r = wrap_add8(cpu.register_x, 1);
    spec_advance(IC6502 { register_x: r, status: spec_set_zn(cpu.status, r), ..cpu }, mem)
}

pub open spec fn spec_op_iny(cpu: IC6502, mem: Map<u16, u8>) -> OpEffect {
    let r = wrap_add8(cpu.register_y, 1);
    spec_advance(IC6502 { register_y: r, status: spec_set_zn(cpu.status, r), ..cpu }, mem)
}

pub open spec fn spec_op_dex(cpu: IC6502, mem: Map<u16, u8>) -> OpEffect {
    let r = wrap_sub8(cpu.register_x, 1);
    spec_advance(IC6502 { register_x: r, status: spec_set_zn(cpu.status, r), ..cpu }, mem)
}

pub open spec fn spec_op_dey(cpu: IC6502, mem: Map<u16, u8>) -> OpEffect {
    let r = wrap_sub8(cpu.register_y, 1);
    spec_advance(IC6502 { register_y: r, status: spec_set_zn(cpu.status, r), ..cpu }, mem)
}

/// The compares: `CMP` on A, `CPX` on X, `CPY` on Y.
pub open spec fn spec_op_cmp(cpu: IC6502, mem: Map<u16, u8>, arg: OperationArgument) -> OpEffect {
    match spec_arg_value(mem, arg) {
        None => spec_absent(cpu, mem),
        Some(m) => spec_advance(
            IC6502 { status: spec_compare_status(cpu.status, cpu.accumulator, m), ..cpu },
            mem,
        ),
    }
}

pub open spec fn spec_op_cpx(cpu: IC6502, mem: Map<u16, u8>, arg: OperationArgument) -> OpEffect {
    match spec_arg_value(mem, arg) {
        None => spec_absent(cpu, mem),
        Some(m) => spec_advance(
            IC6502 { status: spec_compare_status(cpu.status, cpu.register_x, m), ..cpu },
            mem,
        ),
    }
}

pub open spec fn spec_op_cpy(cpu: IC6502, mem: Map<u16, u8>, arg: OperationArgument) -> OpEffect {
    match spec_arg_value(mem, arg) {
        None => spec_absent(cpu, mem),
        Some(m) => spec_advance(
            IC6502 { status: spec_compare_status(cpu.status, cpu.register_y, m), ..cpu },
            mem,
        ),
    }
}

/// The loads.
pub open spec fn spec_op_lda(cpu: IC6502, mem: Map<u16, u8>, arg: OperationArgument) -> OpEffect {
    match spec_arg_value(mem, arg) {
        None => spec_absent(cpu, mem),
        Some(m) => spec_advance(
            IC6502 { accumulator: m, status: spec_set_zn(cpu.status, m), ..cpu },
            mem,
        ),
    }
}

pub open spec fn spec_op_ldx(cpu: IC6502, mem: Map<u16, u8>, arg: OperationArgument) -> OpEffect {
    match spec_arg_value(mem, arg) {
        None => spec_absent(cpu, mem),
        Some(m) => spec_advance(
            IC6502 { register_x: m, status: spec_set_zn(cpu.status, m), ..cpu },
            mem,
        ),
    }
}

pub open spec fn spec_op_ldy(cpu: IC6502, mem: Map<u16, u8>, arg: OperationArgument) -> OpEffect {
    match spec_arg_value(mem, arg) {
        None => spec_absent(cpu, mem),
        Some(m) => spec_advance(
            IC6502 { register_y: m, status: spec_set_zn(cpu.status, m), ..cpu },
            mem,
        ),
    }
}

/// `JMP`: the program counter takes the effective address.
pub open spec fn spec_op_jmp(cpu: IC6502, mem: Map<u16, u8>, arg: OperationArgument) -> OpEffect {
    match arg {
        OperationArgument::Value(_) => spec_absent(cpu, mem),
        OperationArgument::Pointer(p) => OpEffect {
            cpu,
            mem,
            outcome: Some(Thingimagic::Jump(p)),
        },
    }
}

/// `JSR`: the address of the last byte of the instruction (`PC + 2`) is
/// pushed high byte first, then control jumps to the operand address.
pub open spec fn spec_op_jsr(
    cpu: IC6502,
    mem: Map<u16, u8>,
    wr: Set<u16>,
    arg: OperationArgument,
) -> OpEffect {
    match arg {
        OperationArgument::Value(_) => spec_absent(cpu, mem),
        OperationArgument::Pointer(target) => {
            let ret = wrap_add16(cpu.program_counter, 2);
            match spec_push(cpu, mem, wr, hi_byte(ret)) {
                None => spec_absent(cpu, mem),
                Some((cpu1, mem1)) => match spec_push(cpu1, mem1, wr, lo_byte(ret)) {
                    None => OpEffect { cpu: cpu1, mem: mem1, outcome: None },
                    Some((cpu2, mem2)) => OpEffect {
                        cpu: cpu2,
                        mem: mem2,
                        outcome: Some(Thingimagic::Jump(target)),
                    },
                },
            }
        },
    }
}

/// `RTS`: pull low then high byte, and resume at that address plus one.
pub open spec fn spec_op_rts(cpu: IC6502, mem: Map<u16, u8>) -> OpEffect {
    let (cpu1, lo) = spec_pull(cpu, mem);
    match lo {
        None => OpEffect { cpu: cpu1, mem, outcome: None },
        Some(l) => {
            let (cpu2, hi) = spec_pull(cpu1, mem);
            match hi {
                None => OpEffect { cpu: cpu2, mem, outcome: None },
                Some(h) => OpEffect {
                    cpu: cpu2,
                    mem,
                    outcome: Some(Thingimagic::Jump(wrap_add16(le16(l, h), 1))),
                },
            }
        },
    }
}

/// `RTI`: pull the status byte (Break cleared, Unused set), then the
/// program counter, without the `+ 1` of `RTS`.
pub open spec fn spec_op_rti(cpu: IC6502, mem: Map<u16, u8>) -> OpEffect {
    let (cpu1, s) = spec_pull(cpu, mem);
    match s {
        None => OpEffect { cpu: cpu1, mem, outcome: None },
        Some(sv) => {
            let cpu1s = IC6502 { status: (sv & 0xef) | 0x20, ..cpu1 };
            let (cpu2, lo) = spec_pull(cpu1s, mem);
            match lo {
                None => OpEffect { cpu: cpu2, mem, outcome: None },
                Some(l) => {
                    let (cpu3, hi) = spec_pull(cpu2, mem);
                    match hi {
                        None => OpEffect { cpu: cpu3, mem, outcome: None },
                        Some(h) => OpEffect {
                            cpu: cpu3,
                            mem,
                            outcome: Some(Thingimagic::Jump(le16(l, h))),
                        },
                    }
                },
            }
        },
    }
}

/// `PHA` pushes the accumulator; `PHP` pushes the status byte with the
/// Break and Unused bits forced on.
pub open spec fn spec_op_pha(cpu: IC6502, mem: Map<u16, u8>, wr: Set<u16>) -> OpEffect {
    match spec_push(cpu, mem, wr, cpu.accumulator) {
        None => spec_absent(cpu, mem),
        Some((cpu1, mem1)) => spec_advance(cpu1, mem1),
    }
}

pub open spec fn spec_op_php(cpu: IC6502, mem: Map<u16, u8>, wr: Set<u16>) -> OpEffect {
    match spec_push(cpu, mem, wr, cpu.status | 0x30) {
        None => spec_absent(cpu, mem),
        Some((cpu1, mem1)) => spec_advance(cpu1, mem1),
    }
}

/// `PLA` pulls into the accumulator with Z/N from it; `PLP` pulls into the
/// status byte with Break forced off and Unused forced on.
pub open spec fn spec_op_pla(cpu: IC6502, mem: Map<u16, u8>) -> OpEffect {
    let (cpu1, r) = spec_pull(cpu, mem);
    match r {
        None => OpEffect { cpu: cpu1, mem, outcome: None },
        Some(v) => spec_advance(
            IC6502 { accumulator: v, status: spec_set_zn(cpu1.status, v), ..cpu1 },
            mem,
        ),
    }
}

pub open spec fn spec_op_plp(cpu: IC6502, mem: Map<u16, u8>) -> OpEffect {
    let (cpu1, r) = spec_pull(cpu, mem);
    match r {
        None => OpEffect { cpu: cpu1, mem, outcome: None },
        Some(v) => spec_advance(IC6502 { status: (v & 0xef) | 0x20, ..cpu1 }, mem),
    }
}

/// `BRK`: the padding byte at `PC + 1` is read and discarded (its absence
/// is discarded too); `PC + 2` is pushed high byte first, then the status
/// byte with Break and Unused forced on; Interrupt-Disable is set; control
/// jumps to the vector at `0xFFFE/0xFFFF`.
pub open spec fn spec_op_brk(cpu: IC6502, mem: Map<u16, u8>, wr: Set<u16>) -> OpEffect {
    let ret = wrap_add16(cpu.program_counter, 2);
    match spec_push(cpu, mem, wr, hi_byte(ret)) {
        None => spec_absent(cpu, mem),
        Some((cpu1, mem1)) => match spec_push(cpu1, mem1, wr, lo_byte(ret)) {
            None => OpEffect { cpu: cpu1, mem: mem1, outcome: None },
            Some((cpu2, mem2)) => match spec_push(cpu2, mem2, wr, cpu.status | 0x30) {
                None => OpEffect { cpu: cpu2, mem: mem2, outcome: None },
                Some((cpu3, mem3)) => {
                    let cpu3i = IC6502 { status: cpu3.status | 0x04, ..cpu3 };
                    match mem_get(mem3, 0xfffe) {
                        None => OpEffect { cpu: cpu3i, mem: mem3, outcome: None },
                        Some(l) => match mem_get(mem3, 0xffff) {
                            None => OpEffect { cpu: cpu3i, mem: mem3, outcome: None },
                            Some(h) => OpEffect {
                                cpu: cpu3i,
                                mem: mem3,
                                outcome: Some(Thingimagic::Jump(le16(l, h))),
                            },
                        },
                    }
                },
            },
        },
    }
}

/// The register transfers; all but `TXS` take Z/N from the copied byte.
pub open spec fn spec_op_tax(cpu: IC6502, mem: Map<u16, u8>) -> OpEffect {
    spec_advance(
        IC6502 {
            register_x: cpu.accumulator,
            status: spec_set_zn(cpu.status, cpu.accumulator),
            ..cpu
        },
        mem,
    )
}

pub open spec fn spec_op_tay(cpu: IC6502, mem: Map<u16, u8>) -> OpEffect {
    spec_advance(
        IC6502 {
            register_y: cpu.accumulator,
            status: spec_set_zn(cpu.status, cpu.accumulator),
            ..cpu
        },
        mem,
    )
}

pub open spec fn spec_op_tsx(cpu: IC6502, mem: Map<u16, u8>) -> OpEffect {
    spec_advance(
        IC6502 {
            register_x: cpu.stack_pointer,
            status: spec_set_zn(cpu.status, cpu.stack_pointer),
            ..cpu
        },
        mem,
    )
}

pub open spec fn spec_op_txa(cpu: IC6502, mem: Map<u16, u8>) -> OpEffect {
    spec_advance(
        IC6502 {
            accumulator: cpu.register_x,
            status: spec_set_zn(cpu.status, cpu.register_x),
            ..cpu
        },
        mem,
    )
}

pub open spec fn spec_op_tya(cpu: IC6502, mem: Map<u16, u8>) -> OpEffect {
    spec_advance(
        IC6502 {
            accumulator: cpu.register_y,
            status: spec_set_zn(cpu.status, cpu.register_y),
            ..cpu
        },
        mem,
    )
}

/// `TXS` copies X into the stack pointer and changes no flag.
pub open spec fn spec_op_txs(cpu: IC6502, mem: Map<u16, u8>) -> OpEffect {
    spec_advance(IC6502 { stack_pointer: cpu.register_x, ..cpu }, mem)
}

/// The flag set/clear operations touch exactly the named flag.
pub open spec fn spec_op_flag(cpu: IC6502, mem: Map<u16, u8>, f: Flags, on: bool) -> OpEffect {
    spec_advance(IC6502 { status: spec_flag_set(cpu.status, f, on), ..cpu }, mem)
}

/// The operation dispatch: what each operation does with its argument.
pub open spec fn spec_run(
    op: Operation,
    cpu: IC6502,
    mem: Map<u16, u8>,
    wr: Set<u16>,
    arg: OperationArgument,
) -> OpEffect {
    match op {
        Operation::AddToAccumulator => spec_op_adc(cpu, mem, arg),
        Operation::SubtractFromAccumulator => spec_op_sbc(cpu, mem, arg),
        Operation::Increment => spec_op_inc(cpu, mem, wr, arg),
        Operation::IncrementIndexX => spec_op_inx(cpu, mem),
        Operation::IncrementIndexY => spec_op_iny(cpu, mem),
        Operation::Decrement => spec_op_dec(cpu, mem, wr, arg),
        Operation::DecrementIndexX => spec_op_dex(cpu, mem),
        Operation::DecrementIndexY => spec_op_dey(cpu, mem),
        Operation::BitwiseANDAccumulator => spec_op_and(cpu, mem, arg),
        Operation::BitwiseXORAccumulator => spec_op_eor(cpu, mem, arg),
        Operation::BitwiseORAccumulator => spec_op_ora(cpu, mem, arg),
        Operation::LeftShift => spec_op_asl(cpu, mem, wr, arg),
        Operation::RightShift => spec_op_lsr(cpu, mem, wr, arg),
        Operation::RotateBitLeft => spec_op_rol(cpu, mem, wr, arg),
        Operation::RotateBitRight => spec_op_ror(cpu, mem, wr, arg),
        Operation::BranchOnCarryClear => spec_op_branch(
            cpu,
            mem,
            !spec_flag_get(cpu.status, Flags::Carry),
            arg,
        ),
        Operation::BranchOnCarrySet => spec_op_branch(
            cpu,
            mem,
            spec_flag_get(cpu.status, Flags::Carry),
            arg,
        ),
        Operation::BranchOnResultZero => spec_op_branch(
            cpu,
            mem,
            spec_flag_get(cpu.status, Flags::Zero),
            arg,
        ),
        Operation::BranchOnResultMinus => spec_op_branch(
            cpu,
            mem,
            spec_flag_get(cpu.status, Flags::Negative),
            arg,
        ),
        Operation::BranchOnResultNotZero => spec_op_branch(
            cpu,
            mem,
            !spec_flag_get(cpu.status, Flags::Zero),
            arg,
        ),
        Operation::BranchOnResultPlus => spec_op_branch(
            cpu,
            mem,
            !spec_flag_get(cpu.status, Flags::Negative),
            arg,
        ),
        Operation::BranchOnOverflowClear => spec_op_branch(
            cpu,
            mem,
            !spec_flag_get(cpu.status, Flags::Overflow),
            arg,
        ),
        Operation::BranchOnOverflowSet => spec_op_branch(
            cpu,
            mem,
            spec_flag_get(cpu.status, Flags::Overflow),
            arg,
        ),
        Operation::TestBitsWithAccumulator => spec_op_bit(cpu, mem, arg),
        Operation::ClearCarryFlag => spec_op_flag(cpu, mem, Flags::Carry, false),
        Operation::ClearDecimalMode => spec_op_flag(cpu, mem, Flags::DecimalMode, false),
        Operation::ClearInterruptDisableBit => spec_op_flag(
            cpu,
            mem,
            Flags::InterruptDisable,
            false,
        ),
        Operation::ClearOverflowFlag => spec_op_flag(cpu, mem, Flags::Overflow, false),
        Operation::ComapareWithAccumulator => spec_op_cmp(cpu, mem, arg),
        Operation::CompareWithIndexX => spec_op_cpx(cpu, mem, arg),
        Operation::CompareWithIndexY => spec_op_cpy(cpu, mem, arg),
        Operation::Jump => spec_op_jmp(cpu, mem, arg),
        Operation::JumpToSubRoutine => spec_op_jsr(cpu, mem, wr, arg),
        Operation::LoadToAccumulator => spec_op_lda(cpu, mem, arg),
        Operation::LoadToXRegister => spec_op_ldx(cpu, mem, arg),
        Operation::LoadToYRegister => spec_op_ldy(cpu, mem, arg),
        Operation::PushAccumulatorToStack => spec_op_pha(cpu, mem, wr),
        Operation::PushStatusToStack => spec_op_php(cpu, mem, wr),
        Operation::PullAccumulatorFromStack => spec_op_pla(cpu, mem),
        Operation::PullStatusFromStack => spec_op_plp(cpu, mem),
        Operation::ReturnFromInterrupt => spec_op_rti(cpu, mem),
        Operation::ReturnFromSubroutine => spec_op_rts(cpu, mem),
        Operation::SetCarryFlag => spec_op_flag(cpu, mem, Flags::Carry, true),
        Operation::DetDecimalMode => spec_op_flag(cpu, mem, Flags::DecimalMode, true),
        Operation::SetInterruptStatus => spec_op_flag(cpu, mem, Flags::InterruptDisable, true),
        Operation::StoreAccumulator => spec_op_store(cpu, mem, wr, arg, cpu.accumulator),
        Operation::StoreXRegister => spec_op_store(cpu, mem, wr, arg, cpu.register_x),
        Operation::StoreYRegister => spec_op_store(cpu, mem, wr, arg, cpu.register_y),
        Operation::TransferAccumulatorToX => spec_op_tax(cpu, mem),
        Operation::TransferAccumulatorToY => spec_op_tay(cpu, mem),
        Operation::TransferStackPointerToX => spec_op_tsx(cpu, mem),
        Operation::TransferXToAccumulator => spec_op_txa(cpu, mem),
        Operation::TransferXToStackRegister => spec_op_txs(cpu, mem),
        Operation::TransferYToAccumulator => spec_op_tya(cpu, mem),
        Operation::ForceBreak => spec_op_brk(cpu, mem, wr),
        Operation::NoOp => spec_advance(cpu, mem),
    }
}

/// The meaning of one `step`: fetch the opcode at `PC` (an absent fetch
/// changes nothing), decode it (an invalid opcode advances `PC` by one and
/// costs 0 cycles), resolve the addressing mode, run the operation, and
/// move `PC` by the instruction length or to the jump target.
pub open spec fn spec_step(cpu: IC6502, mem: Map<u16, u8>, wr: Set<u16>) -> StepEffect {
    match mem_get(mem, cpu.program_counter) {
        None => StepEffect { cpu, mem, cycles: None },
        Some(code) => match spec_decode(code) {
            Instruction::Invalid => StepEffect {
                cpu: IC6502 { program_counter: wrap_add16(cpu.program_counter, 1), ..cpu },
                mem,
                cycles: Some(0),
            },
            Instruction::Valid { operation, addressing_mode, bytes, cycles } => {
                match spec_mode_read(addressing_mode, cpu, mem) {
                    None => StepEffect { cpu, mem, cycles: None },
                    Some((len, arg)) => {
                        let eff = spec_run(operation, cpu, mem, wr, arg);
                        match eff.outcome {
                            None => StepEffect { cpu: eff.cpu, mem: eff.mem, cycles: None },
                            Some(Thingimagic::Jump(t)) => StepEffect {
                                cpu: IC6502 { program_counter: t, ..eff.cpu },
                                mem: eff.mem,
                                cycles: Some(cycles),
                            },
                            Some(Thingimagic::Increment) => StepEffect {
                                cpu: IC6502 {
                                    program_counter: wrap_add16(
                                        eff.cpu.program_counter,
                                        len as u16,
                                    ),
                                    ..eff.cpu
                                },
                                mem: eff.mem,
                                cycles: Some(cycles),
                            },
                        }
                    },
                }
            },
        },
    }
}

} // verus!
