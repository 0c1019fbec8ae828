//! The static 256-entry opcode decode table.

use vstd::prelude::*;

use crate::addressing_mode::AdressingMode;
use crate::operation::Operation;

verus! {

/// One entry of the decode table: a documented instruction together with
/// its addressing mode, total byte length and base cycle cost, or
/// `Invalid` for an undocumented opcode byte.
#[derive(Debug, Clone, Copy, PartialEq, Eq, Structural)]
pub enum Instruction {
    Valid {
        operation: Operation,
        addressing_mode: AdressingMode,
        bytes: u8,
        cycles: u8,
    },
    Invalid,
}

/// The decode table, as a function from the opcode byte.
pub open spec fn spec_decode(code: u8) -> Instruction {
    match code {
        0x00u8 => Instruction::Valid { operation: Operation::ForceBreak, addressing_mode: AdressingMode::Implied, bytes: 1, cycles: 7 },
        0x01u8 => Instruction::Valid { operation: Operation::BitwiseORAccumulator, addressing_mode: AdressingMode::IndexedIndirect, bytes: 2, cycles: 6 },
        0x05u8 => Instruction::Valid { operation: Operation::BitwiseORAccumulator, addressing_mode: AdressingMode::ZeroPage, bytes: 2, cycles: 3 },
        0x06u8 => Instruction::Valid { operation: Operation::LeftShift, addressing_mode: AdressingMode::ZeroPage, bytes: 2, cycles: 5 },
        0x08u8 => Instruction::Valid { operation: Operation::PushStatusToStack, addressing_mode: AdressingMode::Implied, bytes: 1, cycles: 3 },
        0x09u8 => Instruction::Valid { operation: Operation::BitwiseORAccumulator, addressing_mode: AdressingMode::Immediate, bytes: 2, cycles: 2 },
        0x0au8 => Instruction::Valid { operation: Operation::LeftShift, addressing_mode: AdressingMode::Accumulator, bytes: 1, cycles: 2 },
        0x0du8 => Instruction::Valid { operation: Operation::BitwiseORAccumulator, addressing_mode: AdressingMode::Absolute, bytes: 3, cycles: 4 },
        0x0eu8 => Instruction::Valid { operation: Operation::LeftShift, addressing_mode: AdressingMode::Absolute, bytes: 3, cycles: 6 },
        0x10u8 => Instruction::Valid { operation: Operation::BranchOnResultPlus, addressing_mode: AdressingMode::Relative, bytes: 2, cycles: 2 },
        0x11u8 => Instruction::Valid { operation: Operation::BitwiseORAccumulator, addressing_mode: AdressingMode::IndirectIndexed, bytes: 2, cycles: 5 },
        0x15u8 => Instruction::Valid { operation: Operation::BitwiseORAccumulator, addressing_mode: AdressingMode::IndexedZeroPageX, bytes: 2, cycles: 4 },
        0x16u8 => Instruction::Valid { operation: Operation::LeftShift, addressing_mode: AdressingMode::IndexedZeroPageX, bytes: 2, cycles: 6 },
        0x18u8 => Instruction::Valid { operation: Operation::ClearCarryFlag, addressing_mode: AdressingMode::Implied, bytes: 1, cycles: 2 },
        0x19u8 => Instruction::Valid { operation: Operation::BitwiseORAccumulator, addressing_mode: AdressingMode::IndexedAbsoluteY, bytes: 3, cycles: 4 },
        0x1du8 => Instruction::Valid { operation: Operation::BitwiseORAccumulator, addressing_mode: AdressingMode::IndexedAbsoluteX, bytes: 3, cycles: 4 },
        0x1eu8 => Instruction::Valid { operation: Operation::LeftShift, addressing_mode: AdressingMode::IndexedAbsoluteX, bytes: 3, cycles: 7 },
        0x20u8 => Instruction::Valid { operation: Operation::JumpToSubRoutine, addressing_mode: AdressingMode::Absolute, bytes: 3, cycles: 6 },
        0x21u8 => Instruction::Valid { operation: Operation::BitwiseANDAccumulator, addressing_mode: AdressingMode::IndexedIndirect, bytes: 2, cycles: 6 },
        0x24u8 => Instruction::Valid { operation: Operation::TestBitsWithAccumulator, addressing_mode: AdressingMode::ZeroPage, bytes: 2, cycles: 3 },
        0x25u8 => Instruction::Valid { operation: Operation::BitwiseANDAccumulator, addressing_mode: AdressingMode::ZeroPage, bytes: 2, cycles: 3 },
        0x26u8 => Instruction::Valid { operation: Operation::RotateBitLeft, addressing_mode: AdressingMode::ZeroPage, bytes: 2, cycles: 5 },
        0x28u8 => Instruction::Valid { operation: Operation::PullStatusFromStack, addressing_mode: AdressingMode::Implied, bytes: 1, cycles: 4 },
        0x29u8 => Instruction::Valid { operation: Operation::BitwiseANDAccumulator, addressing_mode: AdressingMode::Immediate, bytes: 2, cycles: 2 },
        0x2au8 => Instruction::Valid { operation: Operation::RotateBitLeft, addressing_mode: AdressingMode::Accumulator, bytes: 1, cycles: 2 },
        0x2cu8 => Instruction::Valid { operation: Operation::TestBitsWithAccumulator, addressing_mode: AdressingMode::Absolute, bytes: 3, cycles: 4 },
        0x2du8 => Instruction::Valid { operation: Operation::BitwiseANDAccumulator, addressing_mode: AdressingMode::Absolute, bytes: 3, cycles: 4 },
        0x2eu8 => Instruction::Valid { operation: Operation::RotateBitLeft, addressing_mode: AdressingMode::Absolute, bytes: 3, cycles: 6 },
        0x30u8 => Instruction::Valid { operation: Operation::BranchOnResultMinus, addressing_mode: AdressingMode::Relative, bytes: 2, cycles: 2 },
        0x31u8 => Instruction::Valid { operation: Operation::BitwiseANDAccumulator, addressing_mode: AdressingMode::IndirectIndexed, bytes: 2, cycles: 5 },
        0x35u8 => Instruction::Valid { operation: Operation::BitwiseANDAccumulator, addressing_mode: AdressingMode::IndexedZeroPageX, bytes: 2, cycles: 4 },
        0x36u8 => Instruction::Valid { operation: Operation::RotateBitLeft, addressing_mode: AdressingMode::IndexedZeroPageX, bytes: 2, cycles: 6 },
        0x38u8 => Instruction::Valid { operation: Operation::SetCarryFlag, addressing_mode: AdressingMode::Implied, bytes: 1, cycles: 2 },
        0x39u8 => Instruction::Valid { operation: Operation::BitwiseANDAccumulator, addressing_mode: AdressingMode::IndexedAbsoluteY, bytes: 3, cycles: 4 },
        0x3du8 => Instruction::Valid { operation: Operation::BitwiseANDAccumulator, addressing_mode: AdressingMode::IndexedAbsoluteX, bytes: 3, cycles: 4 },
        0x3eu8 => Instruction::Valid { operation: Operation::RotateBitLeft, addressing_mode: AdressingMode::IndexedAbsoluteX, bytes: 3, cycles: 7 },
        0x40u8 => Instruction::Valid { operation: Operation::ReturnFromInterrupt, addressing_mode: AdressingMode::Implied, bytes: 1, cycles: 6 },
        0x41u8 => Instruction::Valid { operation: Operation::BitwiseXORAccumulator, addressing_mode: AdressingMode::IndexedIndirect, bytes: 2, cycles: 6 },
        0x45u8 => Instruction::Valid { operation: Operation::BitwiseXORAccumulator, addressing_mode: AdressingMode::ZeroPage, bytes: 2, cycles: 3 },
        0x46u8 => Instruction::Valid { operation: Operation::RightShift, addressing_mode: AdressingMode::ZeroPage, bytes: 2, cycles: 5 },
        0x48u8 => Instruction::Valid { operation: Operation::PushAccumulatorToStack, addressing_mode: AdressingMode::Implied, bytes: 1, cycles: 3 },
        0x49u8 => Instruction::Valid { operation: Operation::BitwiseXORAccumulator, addressing_mode: AdressingMode::Immediate, bytes: 2, cycles: 2 },
        0x4au8 => Instruction::Valid { operation: Operation::RightShift, addressing_mode: AdressingMode::Accumulator, bytes: 1, cycles: 2 },
        0x4cu8 => Instruction::Valid { operation: Operation::Jump, addressing_mode: AdressingMode::Absolute, bytes: 3, cycles: 3 },
        0x4du8 => Instruction::Valid { operation: Operation::BitwiseXORAccumulator, addressing_mode: AdressingMode::Absolute, bytes: 3, cycles: 4 },
        0x4eu8 => Instruction::Valid { operation: Operation::RightShift, addressing_mode: AdressingMode::Absolute, bytes: 3, cycles: 6 },
        0x50u8 => Instruction::Valid { operation: Operation::BranchOnOverflowClear, addressing_mode: AdressingMode::Relative, bytes: 2, cycles: 2 },
        0x51u8 => Instruction::Valid { operation: Operation::BitwiseXORAccumulator, addressing_mode: AdressingMode::IndirectIndexed, bytes: 2, cycles: 5 },
        0x55u8 => Instruction::Valid { operation: Operation::BitwiseXORAccumulator, addressing_mode: AdressingMode::IndexedZeroPageX, bytes: 2, cycles: 4 },
        0x56u8 => Instruction::Valid { operation: Operation::RightShift, addressing_mode: AdressingMode::IndexedZeroPageX, bytes: 2, cycles: 6 },
        0x58u8 => Instruction::Valid { operation: Operation::ClearInterruptDisableBit, addressing_mode: AdressingMode::Implied, bytes: 1, cycles: 2 },
        0x59u8 => Instruction::Valid { operation: Operation::BitwiseXORAccumulator, addressing_mode: AdressingMode::IndexedAbsoluteY, bytes: 3, cycles: 4 },
        0x5du8 => Instruction::Valid { operation: Operation::BitwiseXORAccumulator, addressing_mode: AdressingMode::IndexedAbsoluteX, bytes: 3, cycles: 4 },
        0x5eu8 => Instruction::Valid { operation: Operation::RightShift, addressing_mode: AdressingMode::IndexedAbsoluteX, bytes: 3, cycles: 7 },
        0x60u8 => Instruction::Valid { operation: Operation::ReturnFromSubroutine, addressing_mode: AdressingMode::Implied, bytes: 1, cycles: 6 },
        0x61u8 => Instruction::Valid { operation: Operation::AddToAccumulator, addressing_mode: AdressingMode::IndexedIndirect, bytes: 2, cycles: 6 },
        0x65u8 => Instruction::Valid { operation: Operation::AddToAccumulator, addressing_mode: AdressingMode::ZeroPage, bytes: 2, cycles: 3 },
        0x66u8 => Instruction::Valid { operation: Operation::RotateBitRight, addressing_mode: AdressingMode::ZeroPage, bytes: 2, cycles: 5 },
        0x68u8 => Instruction::Valid { operation: Operation::PullAccumulatorFromStack, addressing_mode: AdressingMode::Implied, bytes: 1, cycles: 4 },
        0x69u8 => Instruction::Valid { operation: Operation::AddToAccumulator, addressing_mode: AdressingMode::Immediate, bytes: 2, cycles: 2 },
        0x6au8 => Instruction::Valid { operation: Operation::RotateBitRight, addressing_mode: AdressingMode::Accumulator, bytes: 1, cycles: 2 },
        0x6cu8 => Instruction::Valid { operation: Operation::Jump, addressing_mode: AdressingMode::AbsoluteIndirect, bytes: 3, cycles: 5 },
        0x6du8 => Instruction::Valid { operation: Operation::AddToAccumulator, addressing_mode: AdressingMode::Absolute, bytes: 3, cycles: 4 },
        0x6eu8 => Instruction::Valid { operation: Operation::RotateBitRight, addressing_mode: AdressingMode::Absolute, bytes: 3, cycles: 6 },
        0x70u8 => Instruction::Valid { operation: Operation::BranchOnOverflowSet, addressing_mode: AdressingMode::Relative, bytes: 2, cycles: 2 },
        0x71u8 => Instruction::Valid { operation: Operation::AddToAccumulator, addressing_mode: AdressingMode::IndirectIndexed, bytes: 2, cycles: 5 },
        0x75u8 => Instruction::Valid { operation: Operation::AddToAccumulator, addressing_mode: AdressingMode::IndexedZeroPageX, bytes: 2, cycles: 4 },
        0x76u8 => Instruction::Valid { operation: Operation::RotateBitRight, addressing_mode: AdressingMode::IndexedZeroPageX, bytes: 2, cycles: 6 },
        0x78u8 => Instruction::Valid { operation: Operation::SetInterruptStatus, addressing_mode: AdressingMode::Implied, bytes: 1, cycles: 2 },
        0x79u8 => Instruction::Valid { operation: Operation::AddToAccumulator, addressing_mode: AdressingMode::IndexedAbsoluteY, bytes: 3, cycles: 4 },
        0x7du8 => Instruction::Valid { operation: Operation::AddToAccumulator, addressing_mode: AdressingMode::IndexedAbsoluteX, bytes: 3, cycles: 4 },
        0x7eu8 => Instruction::Valid { operation: Operation::RotateBitRight, addressing_mode: AdressingMode::IndexedAbsoluteX, bytes: 3, cycles: 7 },
        0x81u8 => Instruction::Valid { operation: Operation::StoreAccumulator, addressing_mode: AdressingMode::IndexedIndirect, bytes: 2, cycles: 6 },
        0x84u8 => Instruction::Valid { operation: Operation::StoreYRegister, addressing_mode: AdressingMode::ZeroPage, bytes: 2, cycles: 3 },
        0x85u8 => Instruction::Valid { operation: Operation::StoreAccumulator, addressing_mode: AdressingMode::ZeroPage, bytes: 2, cycles: 3 },
        0x86u8 => Instruction::Valid { operation: Operation::StoreXRegister, addressing_mode: AdressingMode::ZeroPage, bytes: 2, cycles: 3 },
        0x88u8 => Instruction::Valid { operation: Operation::DecrementIndexY, addressing_mode: AdressingMode::Implied, bytes: 1, cycles: 2 },
        0x8au8 => Instruction::Valid { operation: Operation::TransferXToAccumulator, addressing_mode: AdressingMode::Implied, bytes: 1, cycles: 2 },
        0x8cu8 => Instruction::Valid { operation: Operation::StoreYRegister, addressing_mode: AdressingMode::Absolute, bytes: 3, cycles: 4 },
        0x8du8 => Instruction::Valid { operation: Operation::StoreAccumulator, addressing_mode: AdressingMode::Absolute, bytes: 3, cycles: 4 },
        0x8eu8 => Instruction::Valid { operation: Operation::StoreXRegister, addressing_mode: AdressingMode::Absolute, bytes: 3, cycles: 4 },
        0x90u8 => Instruction::Valid { operation: Operation::BranchOnCarryClear, addressing_mode: AdressingMode::Relative, bytes: 2, cycles: 2 },
        0x91u8 => Instruction::Valid { operation: Operation::StoreAccumulator, addressing_mode: AdressingMode::IndirectIndexed, bytes: 2, cycles: 6 },
        0x94u8 => Instruction::Valid { operation: Operation::StoreYRegister, addressing_mode: AdressingMode::IndexedZeroPageX, bytes: 2, cycles: 4 },
        0x95u8 => Instruction::Valid { operation: Operation::StoreAccumulator, addressing_mode: AdressingMode::IndexedZeroPageX, bytes: 2, cycles: 4 },
        0x96u8 => Instruction::Valid { operation: Operation::StoreXRegister, addressing_mode: AdressingMode::IndexedZeroPageY, bytes: 2, cycles: 4 },
        0x98u8 => Instruction::Valid { operation: Operation::TransferYToAccumulator, addressing_mode: AdressingMode::Implied, bytes: 1, cycles: 2 },
        0x99u8 => Instruction::Valid { operation: Operation::StoreAccumulator, addressing_mode: AdressingMode::IndexedAbsoluteY, bytes: 3, cycles: 5 },
        0x9au8 => Instruction::Valid { operation: Operation::TransferXToStackRegister, addressing_mode: AdressingMode::Implied, bytes: 1, cycles: 2 },
        0x9du8 => Instruction::Valid { operation: Operation::StoreAccumulator, addressing_mode: AdressingMode::IndexedAbsoluteX, bytes: 3, cycles: 5 },
        0xa0u8 => Instruction::Valid { operation: Operation::LoadToYRegister, addressing_mode: AdressingMode::Immediate, bytes: 2, cycles: 2 },
        0xa1u8 => Instruction::Valid { operation: Operation::LoadToAccumulator, addressing_mode: AdressingMode::IndexedIndirect, bytes: 2, cycles: 6 },
        0xa2u8 => Instruction::Valid { operation: Operation::LoadToXRegister, addressing_mode: AdressingMode::Immediate, bytes: 2, cycles: 2 },
        0xa4u8 => Instruction::Valid { operation: Operation::LoadToYRegister, addressing_mode: AdressingMode::ZeroPage, bytes: 2, cycles: 3 },
        0xa5u8 => Instruction::Valid { operation: Operation::LoadToAccumulator, addressing_mode: AdressingMode::ZeroPage, bytes: 2, cycles: 3 },
        0xa6u8 => Instruction::Valid { operation: Operation::LoadToXRegister, addressing_mode: AdressingMode::ZeroPage, bytes: 2, cycles: 3 },
        0xa8u8 => Instruction::Valid { operation: Operation::TransferAccumulatorToY, addressing_mode: AdressingMode::Implied, bytes: 1, cycles: 2 },
        0xa9u8 => Instruction::Valid { operation: Operation::LoadToAccumulator, addressing_mode: AdressingMode::Immediate, bytes: 2, cycles: 2 },
        0xaau8 => Instruction::Valid { operation: Operation::TransferAccumulatorToX, addressing_mode: AdressingMode::Implied, bytes: 1, cycles: 2 },
        0xacu8 => Instruction::Valid { operation: Operation::LoadToYRegister, addressing_mode: AdressingMode::Absolute, bytes: 3, cycles: 4 },
        0xadu8 => Instruction::Valid { operation: Operation::LoadToAccumulator, addressing_mode: AdressingMode::Absolute, bytes: 3, cycles: 4 },
        0xaeu8 => Instruction::Valid { operation: Operation::LoadToXRegister, addressing_mode: AdressingMode::Absolute, bytes: 3, cycles: 4 },
        0xb0u8 => Instruction::Valid { operation: Operation::BranchOnCarrySet, addressing_mode: AdressingMode::Relative, bytes: 2, cycles: 2 },
        0xb1u8 => Instruction::Valid { operation: Operation::LoadToAccumulator, addressing_mode: AdressingMode::IndirectIndexed, bytes: 2, cycles: 5 },
        0xb4u8 => Instruction::Valid { operation: Operation::LoadToYRegister, addressing_mode: AdressingMode::IndexedZeroPageX, bytes: 2, cycles: 4 },
        0xb5u8 => Instruction::Valid { operation: Operation::LoadToAccumulator, addressing_mode: AdressingMode::IndexedZeroPageX, bytes: 2, cycles: 4 },
        0xb6u8 => Instruction::Valid { operation: Operation::LoadToXRegister, addressing_mode: AdressingMode::IndexedZeroPageY, bytes: 2, cycles: 4 },
        0xb8u8 => Instruction::Valid { operation: Operation::ClearOverflowFlag, addressing_mode: AdressingMode::Implied, bytes: 1, cycles: 2 },
        0xb9u8 => Instruction::Valid { operation: Operation::LoadToAccumulator, addressing_mode: AdressingMode::IndexedAbsoluteY, bytes: 3, cycles: 4 },
        0xbau8 => Instruction::Valid { operation: Operation::TransferStackPointerToX, addressing_mode: AdressingMode::Implied, bytes: 1, cycles: 2 },
        0xbcu8 => Instruction::Valid { operation: Operation::LoadToYRegister, addressing_mode: AdressingMode::IndexedAbsoluteX, bytes: 3, cycles: 4 },
        0xbdu8 => Instruction::Valid { operation: Operation::LoadToAccumulator, addressing_mode: AdressingMode::IndexedAbsoluteX, bytes: 3, cycles: 4 },
        0xbeu8 => Instruction::Valid { operation: Operation::LoadToXRegister, addressing_mode: AdressingMode::IndexedAbsoluteY, bytes: 3, cycles: 4 },
        0xc0u8 => Instruction::Valid { operation: Operation::CompareWithIndexY, addressing_mode: AdressingMode::Immediate, bytes: 2, cycles: 2 },
        0xc1u8 => Instruction::Valid { operation: Operation::ComapareWithAccumulator, addressing_mode: AdressingMode::IndexedIndirect, bytes: 2, cycles: 6 },
        0xc4u8 => Instruction::Valid { operation: Operation::CompareWithIndexY, addressing_mode: AdressingMode::ZeroPage, bytes: 2, cycles: 3 },
        0xc5u8 => Instruction::Valid { operation: Operation::ComapareWithAccumulator, addressing_mode: AdressingMode::ZeroPage, bytes: 2, cycles: 3 },
        0xc6u8 => Instruction::Valid { operation: Operation::Decrement, addressing_mode: AdressingMode::ZeroPage, bytes: 2, cycles: 5 },
        0xc8u8 => Instruction::Valid { operation: Operation::IncrementIndexY, addressing_mode: AdressingMode::Implied, bytes: 1, cycles: 2 },
        0xc9u8 => Instruction::Valid { operation: Operation::ComapareWithAccumulator, addressing_mode: AdressingMode::Immediate, bytes: 2, cycles: 2 },
        0xcau8 => Instruction::Valid { operation: Operation::DecrementIndexX, addressing_mode: AdressingMode::Implied, bytes: 1, cycles: 2 },
        0xccu8 => Instruction::Valid { operation: Operation::CompareWithIndexY, addressing_mode: AdressingMode::Absolute, bytes: 3, cycles: 4 },
        0xcdu8 => Instruction::Valid { operation: Operation::ComapareWithAccumulator, addressing_mode: AdressingMode::Absolute, bytes: 3, cycles: 4 },
        0xceu8 => Instruction::Valid { operation: Operation::Decrement, addressing_mode: AdressingMode::Absolute, bytes: 3, cycles: 6 },
        0xd0u8 => Instruction::Valid { operation: Operation::BranchOnResultNotZero, addressing_mode: AdressingMode::Relative, bytes: 2, cycles: 2 },
        0xd1u8 => Instruction::Valid { operation: Operation::ComapareWithAccumulator, addressing_mode: AdressingMode::IndirectIndexed, bytes: 2, cycles: 5 },
        0xd5u8 => Instruction::Valid { operation: Operation::ComapareWithAccumulator, addressing_mode: AdressingMode::IndexedZeroPageX, bytes: 2, cycles: 4 },
        0xd6u8 => Instruction::Valid { operation: Operation::Decrement, addressing_mode: AdressingMode::IndexedZeroPageX, bytes: 2, cycles: 6 },
        0xd8u8 => Instruction::Valid { operation: Operation::ClearDecimalMode, addressing_mode: AdressingMode::Implied, bytes: 1, cycles: 2 },
        0xd9u8 => Instruction::Valid { operation: Operation::ComapareWithAccumulator, addressing_mode: AdressingMode::IndexedAbsoluteY, bytes: 3, cycles: 4 },
        0xddu8 => Instruction::Valid { operation: Operation::ComapareWithAccumulator, addressing_mode: AdressingMode::IndexedAbsoluteX, bytes: 3, cycles: 4 },
        0xdeu8 => Instruction::Valid { operation: Operation::Decrement, addressing_mode: AdressingMode::IndexedAbsoluteX, bytes: 3, cycles: 7 },
        0xe0u8 => Instruction::Valid { operation: Operation::CompareWithIndexX, addressing_mode: AdressingMode::Immediate, bytes: 2, cycles: 2 },
        0xe1u8 => Instruction::Valid { operation: Operation::SubtractFromAccumulator, addressing_mode: AdressingMode::IndexedIndirect, bytes: 2, cycles: 6 },
        0xe4u8 => Instruction::Valid { operation: Operation::CompareWithIndexX, addressing_mode: AdressingMode::ZeroPage, bytes: 2, cycles: 3 },
        0xe5u8 => Instruction::Valid { operation: Operation::SubtractFromAccumulator, addressing_mode: AdressingMode::ZeroPage, bytes: 2, cycles: 3 },
        0xe6u8 => Instruction::Valid { operation: Operation::Increment, addressing_mode: AdressingMode::ZeroPage, bytes: 2, cycles: 5 },
        0xe8u8 => Instruction::Valid { operation: Operation::IncrementIndexX, addressing_mode: AdressingMode::Implied, bytes: 1, cycles: 2 },
        0xe9u8 => Instruction::Valid { operation: Operation::SubtractFromAccumulator, addressing_mode: AdressingMode::Immediate, bytes: 2, cycles: 2 },
        0xeau8 => Instruction::Valid { operation: Operation::NoOp, addressing_mode: AdressingMode::Implied, bytes: 1, cycles: 2 },
        0xecu8 => Instruction::Valid { operation: Operation::CompareWithIndexX, addressing_mode: AdressingMode::Absolute, bytes: 3, cycles: 4 },
        0xedu8 => Instruction::Valid { operation: Operation::SubtractFromAccumulator, addressing_mode: AdressingMode::Absolute, bytes: 3, cycles: 4 },
        0xeeu8 => Instruction::Valid { operation: Operation::Increment, addressing_mode: AdressingMode::Absolute, bytes: 3, cycles: 6 },
        0xf0u8 => Instruction::Valid { operation: Operation::BranchOnResultZero, addressing_mode: AdressingMode::Relative, bytes: 2, cycles: 2 },
        0xf1u8 => Instruction::Valid { operation: Operation::SubtractFromAccumulator, addressing_mode: AdressingMode::IndirectIndexed, bytes: 2, cycles: 5 },
        0xf5u8 => Instruction::Valid { operation: Operation::SubtractFromAccumulator, addressing_mode: AdressingMode::IndexedZeroPageX, bytes: 2, cycles: 4 },
        0xf6u8 => Instruction::Valid { operation: Operation::Increment, addressing_mode: AdressingMode::IndexedZeroPageX, bytes: 2, cycles: 6 },
        0xf8u8 => Instruction::Valid { operation: Operation::DetDecimalMode, addressing_mode: AdressingMode::Implied, bytes: 1, cycles: 2 },
        0xf9u8 => Instruction::Valid { operation: Operation::SubtractFromAccumulator, addressing_mode: AdressingMode::IndexedAbsoluteY, bytes: 3, cycles: 4 },
        0xfdu8 => Instruction::Valid { operation: Operation::SubtractFromAccumulator, addressing_mode: AdressingMode::IndexedAbsoluteX, bytes: 3, cycles: 4 },
        0xfeu8 => Instruction::Valid { operation: Operation::Increment, addressing_mode: AdressingMode::IndexedAbsoluteX, bytes: 3, cycles: 7 },
        _ => Instruction::Invalid,
    }
}

/// Look an opcode byte up in the static decode table.
#[verifier::rlimit(60)]
pub fn decode(code: u8) -> (r: Instruction)
    ensures
        r == spec_decode(code),
{
    match code {
        0x00u8 => Instruction::Valid { operation: Operation::ForceBreak, addressing_mode: AdressingMode::Implied, bytes: 1, cycles: 7 },
        0x01u8 => Instruction::Valid { operation: Operation::BitwiseORAccumulator, addressing_mode: AdressingMode::IndexedIndirect, bytes: 2, cycles: 6 },
        0x05u8 => Instruction::Valid { operation: Operation::BitwiseORAccumulator, addressing_mode: AdressingMode::ZeroPage, bytes: 2, cycles: 3 },
        0x06u8 => Instruction::Valid { operation: Operation::LeftShift, addressing_mode: AdressingMode::ZeroPage, bytes: 2, cycles: 5 },
        0x08u8 => Instruction::Valid { operation: Operation::PushStatusToStack, addressing_mode: AdressingMode::Implied, bytes: 1, cycles: 3 },
        0x09u8 => Instruction::Valid { operation: Operation::BitwiseORAccumulator, addressing_mode: AdressingMode::Immediate, bytes: 2, cycles: 2 },
        0x0au8 => Instruction::Valid { operation: Operation::LeftShift, addressing_mode: AdressingMode::Accumulator, bytes: 1, cycles: 2 },
        0x0du8 => Instruction::Valid { operation: Operation::BitwiseORAccumulator, addressing_mode: AdressingMode::Absolute, bytes: 3, cycles: 4 },
        0x0eu8 => Instruction::Valid { operation: Operation::LeftShift, addressing_mode: AdressingMode::Absolute, bytes: 3, cycles: 6 },
        0x10u8 => Instruction::Valid { operation: Operation::BranchOnResultPlus, addressing_mode: AdressingMode::Relative, bytes: 2, cycles: 2 },
        0x11u8 => Instruction::Valid { operation: Operation::BitwiseORAccumulator, addressing_mode: AdressingMode::IndirectIndexed, bytes: 2, cycles: 5 },
        0x15u8 => Instruction::Valid { operation: Operation::BitwiseORAccumulator, addressing_mode: AdressingMode::IndexedZeroPageX, bytes: 2, cycles: 4 },
        0x16u8 => Instruction::Valid { operation: Operation::LeftShift, addressing_mode: AdressingMode::IndexedZeroPageX, bytes: 2, cycles: 6 },
        0x18u8 => Instruction::Valid { operation: Operation::ClearCarryFlag, addressing_mode: AdressingMode::Implied, bytes: 1, cycles: 2 },
        0x19u8 => Instruction::Valid { operation: Operation::BitwiseORAccumulator, addressing_mode: AdressingMode::IndexedAbsoluteY, bytes: 3, cycles: 4 },
        0x1du8 => Instruction::Valid { operation: Operation::BitwiseORAccumulator, addressing_mode: AdressingMode::IndexedAbsoluteX, bytes: 3, cycles: 4 },
        0x1eu8 => Instruction::Valid { operation: Operation::LeftShift, addressing_mode: AdressingMode::IndexedAbsoluteX, bytes: 3, cycles: 7 },
        0x20u8 => Instruction::Valid { operation: Operation::JumpToSubRoutine, addressing_mode: AdressingMode::Absolute, bytes: 3, cycles: 6 },
        0x21u8 => Instruction::Valid { operation: Operation::BitwiseANDAccumulator, addressing_mode: AdressingMode::IndexedIndirect, bytes: 2, cycles: 6 },
        0x24u8 => Instruction::Valid { operation: Operation::TestBitsWithAccumulator, addressing_mode: AdressingMode::ZeroPage, bytes: 2, cycles: 3 },
        0x25u8 => Instruction::Valid { operation: Operation::BitwiseANDAccumulator, addressing_mode: AdressingMode::ZeroPage, bytes: 2, cycles: 3 },
        0x26u8 => Instruction::Valid { operation: Operation::RotateBitLeft, addressing_mode: AdressingMode::ZeroPage, bytes: 2, cycles: 5 },
        0x28u8 => Instruction::Valid { operation: Operation::PullStatusFromStack, addressing_mode: AdressingMode::Implied, bytes: 1, cycles: 4 },
        0x29u8 => Instruction::Valid { operation: Operation::BitwiseANDAccumulator, addressing_mode: AdressingMode::Immediate, bytes: 2, cycles: 2 },
        0x2au8 => Instruction::Valid { operation: Operation::RotateBitLeft, addressing_mode: AdressingMode::Accumulator, bytes: 1, cycles: 2 },
        0x2cu8 => Instruction::Valid { operation: Operation::TestBitsWithAccumulator, addressing_mode: AdressingMode::Absolute, bytes: 3, cycles: 4 },
        0x2du8 => Instruction::Valid { operation: Operation::BitwiseANDAccumulator, addressing_mode: AdressingMode::Absolute, bytes: 3, cycles: 4 },
        0x2eu8 => Instruction::Valid { operation: Operation::RotateBitLeft, addressing_mode: AdressingMode::Absolute, bytes: 3, cycles: 6 },
        0x30u8 => Instruction::Valid { operation: Operation::BranchOnResultMinus, addressing_mode: AdressingMode::Relative, bytes: 2, cycles: 2 },
        0x31u8 => Instruction::Valid { operation: Operation::BitwiseANDAccumulator, addressing_mode: AdressingMode::IndirectIndexed, bytes: 2, cycles: 5 },
        0x35u8 => Instruction::Valid { operation: Operation::BitwiseANDAccumulator, addressing_mode: AdressingMode::IndexedZeroPageX, bytes: 2, cycles: 4 },
        0x36u8 => Instruction::Valid { operation: Operation::RotateBitLeft, addressing_mode: AdressingMode::IndexedZeroPageX, bytes: 2, cycles: 6 },
        0x38u8 => Instruction::Valid { operation: Operation::SetCarryFlag, addressing_mode: AdressingMode::Implied, bytes: 1, cycles: 2 },
        0x39u8 => Instruction::Valid { operation: Operation::BitwiseANDAccumulator, addressing_mode: AdressingMode::IndexedAbsoluteY, bytes: 3, cycles: 4 },
        0x3du8 => Instruction::Valid { operation: Operation::BitwiseANDAccumulator, addressing_mode: AdressingMode::IndexedAbsoluteX, bytes: 3, cycles: 4 },
        0x3eu8 => Instruction::Valid { operation: Operation::RotateBitLeft, addressing_mode: AdressingMode::IndexedAbsoluteX, bytes: 3, cycles: 7 },
        0x40u8 => Instruction::Valid { operation: Operation::ReturnFromInterrupt, addressing_mode: AdressingMode::Implied, bytes: 1, cycles: 6 },
        0x41u8 => Instruction::Valid { operation: Operation::BitwiseXORAccumulator, addressing_mode: AdressingMode::IndexedIndirect, bytes: 2, cycles: 6 },
        0x45u8 => Instruction::Valid { operation: Operation::BitwiseXORAccumulator, addressing_mode: AdressingMode::ZeroPage, bytes: 2, cycles: 3 },
        0x46u8 => Instruction::Valid { operation: Operation::RightShift, addressing_mode: AdressingMode::ZeroPage, bytes: 2, cycles: 5 },
        0x48u8 => Instruction::Valid { operation: Operation::PushAccumulatorToStack, addressing_mode: AdressingMode::Implied, bytes: 1, cycles: 3 },
        0x49u8 => Instruction::Valid { operation: Operation::BitwiseXORAccumulator, addressing_mode: AdressingMode::Immediate, bytes: 2, cycles: 2 },
        0x4au8 => Instruction::Valid { operation: Operation::RightShift, addressing_mode: AdressingMode::Accumulator, bytes: 1, cycles: 2 },
        0x4cu8 => Instruction::Valid { operation: Operation::Jump, addressing_mode: AdressingMode::Absolute, bytes: 3, cycles: 3 },
        0x4du8 => Instruction::Valid { operation: Operation::BitwiseXORAccumulator, addressing_mode: AdressingMode::Absolute, bytes: 3, cycles: 4 },
        0x4eu8 => Instruction::Valid { operation: Operation::RightShift, addressing_mode: AdressingMode::Absolute, bytes: 3, cycles: 6 },
        0x50u8 => Instruction::Valid { operation: Operation::BranchOnOverflowClear, addressing_mode: AdressingMode::Relative, bytes: 2, cycles: 2 },
        0x51u8 => Instruction::Valid { operation: Operation::BitwiseXORAccumulator, addressing_mode: AdressingMode::IndirectIndexed, bytes: 2, cycles: 5 },
        0x55u8 => Instruction::Valid { operation: Operation::BitwiseXORAccumulator, addressing_mode: AdressingMode::IndexedZeroPageX, bytes: 2, cycles: 4 },
        0x56u8 => Instruction::Valid { operation: Operation::RightShift, addressing_mode: AdressingMode::IndexedZeroPageX, bytes: 2, cycles: 6 },
        0x58u8 => Instruction::Valid { operation: Operation::ClearInterruptDisableBit, addressing_mode: AdressingMode::Implied, bytes: 1, cycles: 2 },
        0x59u8 => Instruction::Valid { operation: Operation::BitwiseXORAccumulator, addressing_mode: AdressingMode::IndexedAbsoluteY, bytes: 3, cycles: 4 },
        0x5du8 => Instruction::Valid { operation: Operation::BitwiseXORAccumulator, addressing_mode: AdressingMode::IndexedAbsoluteX, bytes: 3, cycles: 4 },
        0x5eu8 => Instruction::Valid { operation: Operation::RightShift, addressing_mode: AdressingMode::IndexedAbsoluteX, bytes: 3, cycles: 7 },
        0x60u8 => Instruction::Valid { operation: Operation::ReturnFromSubroutine, addressing_mode: AdressingMode::Implied, bytes: 1, cycles: 6 },
        0x61u8 => Instruction::Valid { operation: Operation::AddToAccumulator, addressing_mode: AdressingMode::IndexedIndirect, bytes: 2, cycles: 6 },
        0x65u8 => Instruction::Valid { operation: Operation::AddToAccumulator, addressing_mode: AdressingMode::ZeroPage, bytes: 2, cycles: 3 },
        0x66u8 => Instruction::Valid { operation: Operation::RotateBitRight, addressing_mode: AdressingMode::ZeroPage, bytes: 2, cycles: 5 },
        0x68u8 => Instruction::Valid { operation: Operation::PullAccumulatorFromStack, addressing_mode: AdressingMode::Implied, bytes: 1, cycles: 4 },
        0x69u8 => Instruction::Valid { operation: Operation::AddToAccumulator, addressing_mode: AdressingMode::Immediate, bytes: 2, cycles: 2 },
        0x6au8 => Instruction::Valid { operation: Operation::RotateBitRight, addressing_mode: AdressingMode::Accumulator, bytes: 1, cycles: 2 },
        0x6cu8 => Instruction::Valid { operation: Operation::Jump, addressing_mode: AdressingMode::AbsoluteIndirect, bytes: 3, cycles: 5 },
        0x6du8 => Instruction::Valid { operation: Operation::AddToAccumulator, addressing_mode: AdressingMode::Absolute, bytes: 3, cycles: 4 },
        0x6eu8 => Instruction::Valid { operation: Operation::RotateBitRight, addressing_mode: AdressingMode::Absolute, bytes: 3, cycles: 6 },
        0x70u8 => Instruction::Valid { operation: Operation::BranchOnOverflowSet, addressing_mode: AdressingMode::Relative, bytes: 2, cycles: 2 },
        0x71u8 => Instruction::Valid { operation: Operation::AddToAccumulator, addressing_mode: AdressingMode::IndirectIndexed, bytes: 2, cycles: 5 },
        0x75u8 => Instruction::Valid { operation: Operation::AddToAccumulator, addressing_mode: AdressingMode::IndexedZeroPageX, bytes: 2, cycles: 4 },
        0x76u8 => Instruction::Valid { operation: Operation::RotateBitRight, addressing_mode: AdressingMode::IndexedZeroPageX, bytes: 2, cycles: 6 },
        0x78u8 => Instruction::Valid { operation: Operation::SetInterruptStatus, addressing_mode: AdressingMode::Implied, bytes: 1, cycles: 2 },
        0x79u8 => Instruction::Valid { operation: Operation::AddToAccumulator, addressing_mode: AdressingMode::IndexedAbsoluteY, bytes: 3, cycles: 4 },
        0x7du8 => Instruction::Valid { operation: Operation::AddToAccumulator, addressing_mode: AdressingMode::IndexedAbsoluteX, bytes: 3, cycles: 4 },
        0x7eu8 => Instruction::Valid { operation: Operation::RotateBitRight, addressing_mode: AdressingMode::IndexedAbsoluteX, bytes: 3, cycles: 7 },
        0x81u8 => Instruction::Valid { operation: Operation::StoreAccumulator, addressing_mode: AdressingMode::IndexedIndirect, bytes: 2, cycles: 6 },
        0x84u8 => Instruction::Valid { operation: Operation::StoreYRegister, addressing_mode: AdressingMode::ZeroPage, bytes: 2, cycles: 3 },
        0x85u8 => Instruction::Valid { operation: Operation::StoreAccumulator, addressing_mode: AdressingMode::ZeroPage, bytes: 2, cycles: 3 },
        0x86u8 => Instruction::Valid { operation: Operation::StoreXRegister, addressing_mode: AdressingMode::ZeroPage, bytes: 2, cycles: 3 },
        0x88u8 => Instruction::Valid { operation: Operation::DecrementIndexY, addressing_mode: AdressingMode::Implied, bytes: 1, cycles: 2 },
        0x8au8 => Instruction::Valid { operation: Operation::TransferXToAccumulator, addressing_mode: AdressingMode::Implied, bytes: 1, cycles: 2 },
        0x8cu8 => Instruction::Valid { operation: Operation::StoreYRegister, addressing_mode: AdressingMode::Absolute, bytes: 3, cycles: 4 },
        0x8du8 => Instruction::Valid { operation: Operation::StoreAccumulator, addressing_mode: AdressingMode::Absolute, bytes: 3, cycles: 4 },
        0x8eu8 => Instruction::Valid { operation: Operation::StoreXRegister, addressing_mode: AdressingMode::Absolute, bytes: 3, cycles: 4 },
        0x90u8 => Instruction::Valid { operation: Operation::BranchOnCarryClear, addressing_mode: AdressingMode::Relative, bytes: 2, cycles: 2 },
        0x91u8 => Instruction::Valid { operation: Operation::StoreAccumulator, addressing_mode: AdressingMode::IndirectIndexed, bytes: 2, cycles: 6 },
        0x94u8 => Instruction::Valid { operation: Operation::StoreYRegister, addressing_mode: AdressingMode::IndexedZeroPageX, bytes: 2, cycles: 4 },
        0x95u8 => Instruction::Valid { operation: Operation::StoreAccumulator, addressing_mode: AdressingMode::IndexedZeroPageX, bytes: 2, cycles: 4 },
        0x96u8 => Instruction::Valid { operation: Operation::StoreXRegister, addressing_mode: AdressingMode::IndexedZeroPageY, bytes: 2, cycles: 4 },
        0x98u8 => Instruction::Valid { operation: Operation::TransferYToAccumulator, addressing_mode: AdressingMode::Implied, bytes: 1, cycles: 2 },
        0x99u8 => Instruction::Valid { operation: Operation::StoreAccumulator, addressing_mode: AdressingMode::IndexedAbsoluteY, bytes: 3, cycles: 5 },
        0x9au8 => Instruction::Valid { operation: Operation::TransferXToStackRegister, addressing_mode: AdressingMode::Implied, bytes: 1, cycles: 2 },
        0x9du8 => Instruction::Valid { operation: Operation::StoreAccumulator, addressing_mode: AdressingMode::IndexedAbsoluteX, bytes: 3, cycles: 5 },
        0xa0u8 => Instruction::Valid { operation: Operation::LoadToYRegister, addressing_mode: AdressingMode::Immediate, bytes: 2, cycles: 2 },
        0xa1u8 => Instruction::Valid { operation: Operation::LoadToAccumulator, addressing_mode: AdressingMode::IndexedIndirect, bytes: 2, cycles: 6 },
        0xa2u8 => Instruction::Valid { operation: Operation::LoadToXRegister, addressing_mode: AdressingMode::Immediate, bytes: 2, cycles: 2 },
        0xa4u8 => Instruction::Valid { operation: Operation::LoadToYRegister, addressing_mode: AdressingMode::ZeroPage, bytes: 2, cycles: 3 },
        0xa5u8 => Instruction::Valid { operation: Operation::LoadToAccumulator, addressing_mode: AdressingMode::ZeroPage, bytes: 2, cycles: 3 },
        0xa6u8 => Instruction::Valid { operation: Operation::LoadToXRegister, addressing_mode: AdressingMode::ZeroPage, bytes: 2, cycles: 3 },
        0xa8u8 => Instruction::Valid { operation: Operation::TransferAccumulatorToY, addressing_mode: AdressingMode::Implied, bytes: 1, cycles: 2 },
        0xa9u8 => Instruction::Valid { operation: Operation::LoadToAccumulator, addressing_mode: AdressingMode::Immediate, bytes: 2, cycles: 2 },
        0xaau8 => Instruction::Valid { operation: Operation::TransferAccumulatorToX, addressing_mode: AdressingMode::Implied, bytes: 1, cycles: 2 },
        0xacu8 => Instruction::Valid { operation: Operation::LoadToYRegister, addressing_mode: AdressingMode::Absolute, bytes: 3, cycles: 4 },
        0xadu8 => Instruction::Valid { operation: Operation::LoadToAccumulator, addressing_mode: AdressingMode::Absolute, bytes: 3, cycles: 4 },
        0xaeu8 => Instruction::Valid { operation: Operation::LoadToXRegister, addressing_mode: AdressingMode::Absolute, bytes: 3, cycles: 4 },
        0xb0u8 => Instruction::Valid { operation: Operation::BranchOnCarrySet, addressing_mode: AdressingMode::Relative, bytes: 2, cycles: 2 },
        0xb1u8 => Instruction::Valid { operation: Operation::LoadToAccumulator, addressing_mode: AdressingMode::IndirectIndexed, bytes: 2, cycles: 5 },
        0xb4u8 => Instruction::Valid { operation: Operation::LoadToYRegister, addressing_mode: AdressingMode::IndexedZeroPageX, bytes: 2, cycles: 4 },
        0xb5u8 => Instruction::Valid { operation: Operation::LoadToAccumulator, addressing_mode: AdressingMode::IndexedZeroPageX, bytes: 2, cycles: 4 },
        0xb6u8 => Instruction::Valid { operation: Operation::LoadToXRegister, addressing_mode: AdressingMode::IndexedZeroPageY, bytes: 2, cycles: 4 },
        0xb8u8 => Instruction::Valid { operation: Operation::ClearOverflowFlag, addressing_mode: AdressingMode::Implied, bytes: 1, cycles: 2 },
        0xb9u8 => Instruction::Valid { operation: Operation::LoadToAccumulator, addressing_mode: AdressingMode::IndexedAbsoluteY, bytes: 3, cycles: 4 },
        0xbau8 => Instruction::Valid { operation: Operation::TransferStackPointerToX, addressing_mode: AdressingMode::Implied, bytes: 1, cycles: 2 },
        0xbcu8 => Instruction::Valid { operation: Operation::LoadToYRegister, addressing_mode: AdressingMode::IndexedAbsoluteX, bytes: 3, cycles: 4 },
        0xbdu8 => Instruction::Valid { operation: Operation::LoadToAccumulator, addressing_mode: AdressingMode::IndexedAbsoluteX, bytes: 3, cycles: 4 },
        0xbeu8 => Instruction::Valid { operation: Operation::LoadToXRegister, addressing_mode: AdressingMode::IndexedAbsoluteY, bytes: 3, cycles: 4 },
        0xc0u8 => Instruction::Valid { operation: Operation::CompareWithIndexY, addressing_mode: AdressingMode::Immediate, bytes: 2, cycles: 2 },
        0xc1u8 => Instruction::Valid { operation: Operation::ComapareWithAccumulator, addressing_mode: AdressingMode::IndexedIndirect, bytes: 2, cycles: 6 },
        0xc4u8 => Instruction::Valid { operation: Operation::CompareWithIndexY, addressing_mode: AdressingMode::ZeroPage, bytes: 2, cycles: 3 },
        0xc5u8 => Instruction::Valid { operation: Operation::ComapareWithAccumulator, addressing_mode: AdressingMode::ZeroPage, bytes: 2, cycles: 3 },
        0xc6u8 => Instruction::Valid { operation: Operation::Decrement, addressing_mode: AdressingMode::ZeroPage, bytes: 2, cycles: 5 },
        0xc8u8 => Instruction::Valid { operation: Operation::IncrementIndexY, addressing_mode: AdressingMode::Implied, bytes: 1, cycles: 2 },
        0xc9u8 => Instruction::Valid { operation: Operation::ComapareWithAccumulator, addressing_mode: AdressingMode::Immediate, bytes: 2, cycles: 2 },
        0xcau8 => Instruction::Valid { operation: Operation::DecrementIndexX, addressing_mode: AdressingMode::Implied, bytes: 1, cycles: 2 },
        0xccu8 => Instruction::Valid { operation: Operation::CompareWithIndexY, addressing_mode: AdressingMode::Absolute, bytes: 3, cycles: 4 },
        0xcdu8 => Instruction::Valid { operation: Operation::ComapareWithAccumulator, addressing_mode: AdressingMode::Absolute, bytes: 3, cycles: 4 },
        0xceu8 => Instruction::Valid { operation: Operation::Decrement, addressing_mode: AdressingMode::Absolute, bytes: 3, cycles: 6 },
        0xd0u8 => Instruction::Valid { operation: Operation::BranchOnResultNotZero, addressing_mode: AdressingMode::Relative, bytes: 2, cycles: 2 },
        0xd1u8 => Instruction::Valid { operation: Operation::ComapareWithAccumulator, addressing_mode: AdressingMode::IndirectIndexed, bytes: 2, cycles: 5 },
        0xd5u8 => Instruction::Valid { operation: Operation::ComapareWithAccumulator, addressing_mode: AdressingMode::IndexedZeroPageX, bytes: 2, cycles: 4 },
        0xd6u8 => Instruction::Valid { operation: Operation::Decrement, addressing_mode: AdressingMode::IndexedZeroPageX, bytes: 2, cycles: 6 },
        0xd8u8 => Instruction::Valid { operation: Operation::ClearDecimalMode, addressing_mode: AdressingMode::Implied, bytes: 1, cycles: 2 },
        0xd9u8 => Instruction::Valid { operation: Operation::ComapareWithAccumulator, addressing_mode: AdressingMode::IndexedAbsoluteY, bytes: 3, cycles: 4 },
        0xddu8 => Instruction::Valid { operation: Operation::ComapareWithAccumulator, addressing_mode: AdressingMode::IndexedAbsoluteX, bytes: 3, cycles: 4 },
        0xdeu8 => Instruction::Valid { operation: Operation::Decrement, addressing_mode: AdressingMode::IndexedAbsoluteX, bytes: 3, cycles: 7 },
        0xe0u8 => Instruction::Valid { operation: Operation::CompareWithIndexX, addressing_mode: AdressingMode::Immediate, bytes: 2, cycles: 2 },
        0xe1u8 => Instruction::Valid { operation: Operation::SubtractFromAccumulator, addressing_mode: AdressingMode::IndexedIndirect, bytes: 2, cycles: 6 },
        0xe4u8 => Instruction::Valid { operation: Operation::CompareWithIndexX, addressing_mode: AdressingMode::ZeroPage, bytes: 2, cycles: 3 },
        0xe5u8 => Instruction::Valid { operation: Operation::SubtractFromAccumulator, addressing_mode: AdressingMode::ZeroPage, bytes: 2, cycles: 3 },
        0xe6u8 => Instruction::Valid { operation: Operation::Increment, addressing_mode: AdressingMode::ZeroPage, bytes: 2, cycles: 5 },
        0xe8u8 => Instruction::Valid { operation: Operation::IncrementIndexX, addressing_mode: AdressingMode::Implied, bytes: 1, cycles: 2 },
        0xe9u8 => Instruction::Valid { operation: Operation::SubtractFromAccumulator, addressing_mode: AdressingMode::Immediate, bytes: 2, cycles: 2 },
        0xeau8 => Instruction::Valid { operation: Operation::NoOp, addressing_mode: AdressingMode::Implied, bytes: 1, cycles: 2 },
        0xecu8 => Instruction::Valid { operation: Operation::CompareWithIndexX, addressing_mode: AdressingMode::Absolute, bytes: 3, cycles: 4 },
        0xedu8 => Instruction::Valid { operation: Operation::SubtractFromAccumulator, addressing_mode: AdressingMode::Absolute, bytes: 3, cycles: 4 },
        0xeeu8 => Instruction::Valid { operation: Operation::Increment, addressing_mode: AdressingMode::Absolute, bytes: 3, cycles: 6 },
        0xf0u8 => Instruction::Valid { operation: Operation::BranchOnResultZero, addressing_mode: AdressingMode::Relative, bytes: 2, cycles: 2 },
        0xf1u8 => Instruction::Valid { operation: Operation::SubtractFromAccumulator, addressing_mode: AdressingMode::IndirectIndexed, bytes: 2, cycles: 5 },
        0xf5u8 => Instruction::Valid { operation: Operation::SubtractFromAccumulator, addressing_mode: AdressingMode::IndexedZeroPageX, bytes: 2, cycles: 4 },
        0xf6u8 => Instruction::Valid { operation: Operation::Increment, addressing_mode: AdressingMode::IndexedZeroPageX, bytes: 2, cycles: 6 },
        0xf8u8 => Instruction::Valid { operation: Operation::DetDecimalMode, addressing_mode: AdressingMode::Implied, bytes: 1, cycles: 2 },
        0xf9u8 => Instruction::Valid { operation: Operation::SubtractFromAccumulator, addressing_mode: AdressingMode::IndexedAbsoluteY, bytes: 3, cycles: 4 },
        0xfdu8 => Instruction::Valid { operation: Operation::SubtractFromAccumulator, addressing_mode: AdressingMode::IndexedAbsoluteX, bytes: 3, cycles: 4 },
        0xfeu8 => Instruction::Valid { operation: Operation::Increment, addressing_mode: AdressingMode::IndexedAbsoluteX, bytes: 3, cycles: 7 },
        _ => Instruction::Invalid,
    }
}

} // verus!
