//! Laws the core obeys, stated and proved once and for all inputs.

use vstd::prelude::*;

use vstd::arithmetic::div_mod::{
    lemma_add_mod_noop, lemma_fundamental_div_mod, lemma_mod_add_multiples_vanish,
    lemma_small_mod,
};

use crate::addressing_mode::AdressingMode;
use crate::cpu::IC6502;
use crate::decode::{spec_decode, Instruction};
use crate::flags::{spec_flag_get, spec_set_zn, Flags};
use crate::operation::{Operation, OperationArgument, Thingimagic};
use crate::semantics::{
    branch_dest, le16, mem_get, mode_length, sign_extend, spec_adc_cpu, spec_mode_read,
    spec_op_branch, spec_pull, spec_push, spec_step, stack_addr, wrap_add16, wrap_add8, wrap_sub8,
};

verus! {

/// Every addressing mode reports the same instruction length on every
/// input: the mode's own length, whatever the CPU and memory hold.
pub proof fn lemma_mode_read_length(mode: AdressingMode, cpu: IC6502, mem: Map<u16, u8>)
    ensures
        (spec_mode_read(mode, cpu, mem) matches Some(t) ==> t.0 == mode_length(mode)),
{
}

/// For every opcode the decode table marks valid, the byte length in the
/// table entry is the length its addressing mode reports.
#[verifier::rlimit(100)]
pub proof fn lemma_decode_length_consistent(code: u8)
    ensures
        (spec_decode(code) matches Instruction::Valid { addressing_mode, bytes, .. } ==> bytes
            == mode_length(addressing_mode)),
{
}

/// Zero and Negative after `set_zn` are exactly `v == 0` and bit 7 of the
/// result byte `v`, and every other flag keeps its bit.
pub proof fn lemma_set_zn_bits(p: u8, v: u8)
    ensures
        spec_flag_get(spec_set_zn(p, v), Flags::Zero) <==> v == 0,
        spec_flag_get(spec_set_zn(p, v), Flags::Negative) <==> (v >> 7) & 1 == 1,
        spec_flag_get(spec_set_zn(p, v), Flags::Carry) == spec_flag_get(p, Flags::Carry),
        spec_flag_get(spec_set_zn(p, v), Flags::InterruptDisable) == spec_flag_get(
            p,
            Flags::InterruptDisable,
        ),
        spec_flag_get(spec_set_zn(p, v), Flags::DecimalMode) == spec_flag_get(
            p,
            Flags::DecimalMode,
        ),
        spec_flag_get(spec_set_zn(p, v), Flags::Break) == spec_flag_get(p, Flags::Break),
        spec_flag_get(spec_set_zn(p, v), Flags::Overflow) == spec_flag_get(p, Flags::Overflow),
        spec_flag_get(spec_set_zn(p, v), Flags::Unused),
{
    assert((0x02u8 & spec_set_zn(p, v) == 0x02) <==> v == 0) by (bit_vector);
    assert((0x80u8 & spec_set_zn(p, v) == 0x80) <==> (v >> 7) & 1 == 1) by (bit_vector);
    assert((0x01u8 & spec_set_zn(p, v) == 0x01) <==> (0x01u8 & p == 0x01)) by (bit_vector);
    assert((0x04u8 & spec_set_zn(p, v) == 0x04) <==> (0x04u8 & p == 0x04)) by (bit_vector);
    assert((0x08u8 & spec_set_zn(p, v) == 0x08) <==> (0x08u8 & p == 0x08)) by (bit_vector);
    assert((0x10u8 & spec_set_zn(p, v) == 0x10) <==> (0x10u8 & p == 0x10)) by (bit_vector);
    assert((0x40u8 & spec_set_zn(p, v) == 0x40) <==> (0x40u8 & p == 0x40)) by (bit_vector);
}

/// The Unused bit of the status byte reads as 1 through every public
/// read, whatever the stored byte holds.
pub proof fn lemma_unused_always_reads_set(p: u8)
    ensures
        spec_flag_get(p, Flags::Unused),
{
}

/// Wrapping an 8-bit value down by one and back up restores it.
proof fn lemma_wrap8_sub_add(x: u8)
    ensures
        wrap_add8(wrap_sub8(x, 1), 1) == x,
{
    if x == 0 {
        assert(wrap_sub8(0, 1) == 255) by {
            lemma_small_mod(255nat, 256nat);
        }
    } else {
        assert(wrap_sub8(x, 1) == x - 1) by {
            lemma_mod_add_multiples_vanish(x - 1, 256);
            lemma_small_mod((x - 1) as nat, 256nat);
        }
        assert(wrap_add8((x - 1) as u8, 1) == x) by {
            lemma_small_mod(x as nat, 256nat);
        }
    }
}

/// Stack round trip: a push followed by a pull, with nothing between,
/// hands the pushed byte back and restores the whole CPU, registers and
/// stack pointer alike.
pub proof fn lemma_stack_round_trip(cpu: IC6502, mem: Map<u16, u8>, wr: Set<u16>, x: u8)
    requires
        wr.contains(stack_addr(cpu.stack_pointer)),
    ensures
        (match spec_push(cpu, mem, wr, x) {
            Some(t) => spec_pull(t.0, t.1) == (cpu, Some(x)),
            None => false,
        }),
{
    let t = spec_push(cpu, mem, wr, x).unwrap();
    lemma_wrap8_sub_add(cpu.stack_pointer);
    assert(spec_pull(t.0, t.1).0 == cpu);
    assert(t.1[stack_addr(cpu.stack_pointer)] == x);
}

/// `ADC(M)` followed by `SBC(M)` from carry set restores the accumulator
/// and leaves carry set, provided the addition does not carry out of 8
/// bits.  (With a carry out the pair does not return: from `A = 0xFF`,
/// `C = 1`, `M = 0x00` it comes back with `A = 0x00`.)
pub proof fn lemma_adc_sbc_round_trip(cpu: IC6502, m: u8)
    requires
        spec_flag_get(cpu.status, Flags::Carry),
        cpu.accumulator + m + 1 < 256,
    ensures
        spec_adc_cpu(spec_adc_cpu(cpu, m), !m).accumulator == cpu.accumulator,
        spec_flag_get(spec_adc_cpu(spec_adc_cpu(cpu, m), !m).status, Flags::Carry),
{
    let a = cpu.accumulator;
    let p = cpu.status;
    let cpu1 = spec_adc_cpu(cpu, m);
    let sum1: int = a + m + 1;
    lemma_small_mod(sum1 as nat, 256nat);
    let r1 = cpu1.accumulator;
    assert(r1 == sum1);
    let ov1 = ((a ^ r1) & (m ^ r1) & 0x80) != 0;
    let p2 = if ov1 {
        (p & 0xfe) | 0x40
    } else {
        (p & 0xfe) & 0xbf
    };
    assert(cpu1.status == spec_set_zn(p2, r1));
    // The first addition clears carry, and neither overflow nor Z/N
    // updates touch the carry bit.
    assert(0x01u8 & spec_set_zn(p2, r1) != 0x01) by (bit_vector)
        requires
            p2 == (if ov1 {
                (p & 0xfe) | 0x40
            } else {
                (p & 0xfe) & 0xbf
            }),
    ;
    assert(!spec_flag_get(cpu1.status, Flags::Carry));
    // The complement turns the subtraction into `A1 + (255 - M)`.
    assert(m + !m == 255) by (bit_vector);
    let sum2: int = r1 + !m + 0;
    assert(sum2 == a + 255 + 1 - 0);
    assert(sum2 % 256 == a) by {
        lemma_mod_add_multiples_vanish(a as int, 256);
        lemma_small_mod(a as nat, 256nat);
    }
    let cpu2 = spec_adc_cpu(cpu1, !m);
    assert(cpu2.accumulator == a);
    let r2 = cpu2.accumulator;
    let ov2 = ((r1 ^ r2) & (!m ^ r2) & 0x80) != 0;
    let q = cpu1.status;
    let q2 = if ov2 {
        (q | 0x01) | 0x40
    } else {
        (q | 0x01) & 0xbf
    };
    assert(cpu2.status == spec_set_zn(q2, r2));
    // The second addition carries out, and the carry bit survives the
    // overflow and Z/N updates.
    assert(0x01u8 & spec_set_zn(q2, r2) == 0x01) by (bit_vector)
        requires
            q2 == (if ov2 {
                (q | 0x01) | 0x40
            } else {
                (q | 0x01) & 0xbf
            }),
    ;
}

/// Which operations are the relative branches, and the flag predicate
/// each one tests.
pub open spec fn is_branch(op: Operation) -> bool {
    match op {
        Operation::BranchOnCarryClear => true,
        Operation::BranchOnCarrySet => true,
        Operation::BranchOnResultZero => true,
        Operation::BranchOnResultMinus => true,
        Operation::BranchOnResultNotZero => true,
        Operation::BranchOnResultPlus => true,
        Operation::BranchOnOverflowClear => true,
        Operation::BranchOnOverflowSet => true,
        _ => false,
    }
}

/// The predicate a branch operation tests against the status byte.
pub open spec fn branch_taken(op: Operation, p: u8) -> bool {
    match op {
        Operation::BranchOnCarryClear => !spec_flag_get(p, Flags::Carry),
        Operation::BranchOnCarrySet => spec_flag_get(p, Flags::Carry),
        Operation::BranchOnResultZero => spec_flag_get(p, Flags::Zero),
        Operation::BranchOnResultMinus => spec_flag_get(p, Flags::Negative),
        Operation::BranchOnResultNotZero => !spec_flag_get(p, Flags::Zero),
        Operation::BranchOnResultPlus => !spec_flag_get(p, Flags::Negative),
        Operation::BranchOnOverflowClear => !spec_flag_get(p, Flags::Overflow),
        Operation::BranchOnOverflowSet => spec_flag_get(p, Flags::Overflow),
        _ => false,
    }
}

/// The target of a taken branch is `PC + 2` plus the sign-extended
/// displacement, wrapping in 16 bits.
pub proof fn lemma_branch_dest_signed(pc: u16, d: u8)
    ensures
        branch_dest(pc, d) == ((pc + 2 + sign_extend(d)) % 0x10000) as u16,
{
    if d >= 0x80 {
        lemma_mod_add_multiples_vanish(pc + 2 + d - 256, 0x10000);
    }
}

/// A branch instruction not taken advances the program counter by its two
/// bytes; taken, it moves it to `PC + 2` plus the sign-extended
/// displacement; nothing else changes either way.
pub proof fn lemma_branch_step(cpu: IC6502, mem: Map<u16, u8>, wr: Set<u16>, op: Operation, d: u8)
    requires
        (match mem_get(mem, cpu.program_counter) {
            Some(code) => spec_decode(code) == (Instruction::Valid {
                operation: op,
                addressing_mode: AdressingMode::Relative,
                bytes: 2u8,
                cycles: 2u8,
            }),
            None => false,
        }),
        is_branch(op),
        mem_get(mem, wrap_add16(cpu.program_counter, 1)) == Some(d),
    ensures
        ({
            let eff = spec_step(cpu, mem, wr);
            &&& eff.mem == mem
            &&& eff.cycles == Some(2u8)
            &&& eff.cpu == (IC6502 {
                program_counter: if branch_taken(op, cpu.status) {
                    ((cpu.program_counter + 2 + sign_extend(d)) % 0x10000) as u16
                } else {
                    wrap_add16(cpu.program_counter, 2)
                },
                ..cpu
            })
        }),
{
    lemma_branch_dest_signed(cpu.program_counter, d);
    let arg = OperationArgument::Value(d);
    assert(spec_mode_read(AdressingMode::Relative, cpu, mem) == Some((2u8, arg)));
}

/// Composing 16-bit wrapping additions adds the (small) offsets.
proof fn lemma_wrap_add16_twice(a: u16, b: u16, c: u16)
    requires
        b + c < 0x10000,
    ensures
        wrap_add16(wrap_add16(a, b), c) == wrap_add16(a, (b + c) as u16),
{
    lemma_small_mod(c as nat, 0x10000nat);
    lemma_add_mod_noop(a + b, c as int, 0x10000);
    lemma_mod_add_multiples_vanish((a + b) % 0x10000 + c, 0x10000);
}

/// A 16-bit word is its low byte plus 256 times its high byte.
proof fn lemma_le16_split(w: u16)
    ensures
        le16((w % 256) as u8, (w / 256) as u8) == w,
{
    lemma_fundamental_div_mod(w as int, 256);
}

/// `JSR` then `RTS`, with no stack traffic or `PC` change between them,
/// resumes right after the three-byte `JSR`: the subroutine returns.
///
/// The requirements say only that the `JSR` operand and the `RTS` opcode
/// are readable, that the two stack cells accept the pushed return
/// address, and that the subroutine address is not one of those two stack
/// cells.
pub proof fn lemma_jsr_rts_round_trip(cpu: IC6502, mem: Map<u16, u8>, wr: Set<u16>, lo: u8, hi: u8)
    requires
        mem_get(mem, cpu.program_counter) == Some(0x20u8),
        mem_get(mem, wrap_add16(cpu.program_counter, 1)) == Some(lo),
        mem_get(mem, wrap_add16(cpu.program_counter, 2)) == Some(hi),
        wr.contains(stack_addr(cpu.stack_pointer)),
        wr.contains(stack_addr(wrap_sub8(cpu.stack_pointer, 1))),
        mem_get(mem, le16(lo, hi)) == Some(0x60u8),
        le16(lo, hi) != stack_addr(cpu.stack_pointer),
        le16(lo, hi) != stack_addr(wrap_sub8(cpu.stack_pointer, 1)),
    ensures
        ({
            let after_jsr = spec_step(cpu, mem, wr);
            let after_rts = spec_step(after_jsr.cpu, after_jsr.mem, wr);
            &&& after_jsr.cycles == Some(6u8)
            &&& after_jsr.cpu.program_counter == le16(lo, hi)
            &&& after_rts.cycles == Some(6u8)
            &&& after_rts.cpu.program_counter == wrap_add16(cpu.program_counter, 3)
            &&& after_rts.cpu.stack_pointer == cpu.stack_pointer
            &&& after_rts.mem == after_jsr.mem
        }),
{
    let pc = cpu.program_counter;
    let sp = cpu.stack_pointer;
    let sp1 = wrap_sub8(sp, 1);
    let sp2 = wrap_sub8(sp1, 1);
    let target = le16(lo, hi);
    let ret = wrap_add16(pc, 2);

    // The first step decodes `0x20` as JSR absolute and pushes the return
    // address high byte first.
    assert(spec_mode_read(AdressingMode::Absolute, cpu, mem) == Some(
        (3u8, OperationArgument::Pointer(target)),
    ));
    let after_jsr = spec_step(cpu, mem, wr);
    let mem2 = mem.insert(stack_addr(sp), (ret / 256) as u8).insert(
        stack_addr(sp1),
        (ret % 256) as u8,
    );
    assert(after_jsr.mem == mem2);
    assert(after_jsr.cpu.stack_pointer == sp2);
    assert(after_jsr.cpu.program_counter == target);

    // The second step finds `0x60` untouched at the subroutine address
    // and decodes it as RTS.
    assert(mem_get(mem2, target) == Some(0x60u8));
    let after_rts = spec_step(after_jsr.cpu, mem2, wr);

    // The two pulls walk the stack pointer back up over the two cells the
    // pushes filled.
    lemma_wrap8_sub_add(sp1);
    lemma_wrap8_sub_add(sp);
    assert(stack_addr(sp1) != stack_addr(sp));
    assert(mem_get(mem2, stack_addr(sp1)) == Some((ret % 256) as u8));
    assert(mem_get(mem2, stack_addr(sp)) == Some((ret / 256) as u8));
    let pulled = le16((ret % 256) as u8, (ret / 256) as u8);
    lemma_le16_split(ret);
    assert(pulled == ret);
    assert(after_rts.cpu.program_counter == wrap_add16(ret, 1));
    lemma_wrap_add16_twice(pc, 2, 1);
    assert(after_rts.cpu.stack_pointer == sp);
}

/// Indirect `JMP` with an operand pointer whose low byte is `0xFF` reads
/// the high byte of its target from the start of the same page — address
/// `operand & 0xFF00` — not from the next page.
pub proof fn lemma_indirect_jmp_page_bug(
    cpu: IC6502,
    mem: Map<u16, u8>,
    hi: u8,
    target_lo: u8,
    target_hi: u8,
)
    requires
        mem_get(mem, wrap_add16(cpu.program_counter, 1)) == Some(0xffu8),
        mem_get(mem, wrap_add16(cpu.program_counter, 2)) == Some(hi),
        mem_get(mem, le16(0xff, hi)) == Some(target_lo),
        mem_get(mem, le16(0xff, hi) & 0xff00) == Some(target_hi),
    ensures
        spec_mode_read(AdressingMode::AbsoluteIndirect, cpu, mem) == Some(
            (3u8, OperationArgument::Pointer(le16(target_lo, target_hi))),
        ),
{
    assert(wrap_add8(0xff, 1) == 0) by {
        lemma_mod_add_multiples_vanish(0, 256);
    }
    assert((0xffu16 + (hi as u16) * 256) as u16 & 0xff00 == ((hi as u16) * 256) as u16)
        by (bit_vector);
    assert(le16(0xff, hi) & 0xff00 == le16(0, hi));
}

} // verus!
