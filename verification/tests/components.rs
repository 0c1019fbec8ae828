//! The components below the step driver: flag algebra, decode table,
//! addressing modes, operation dispatch, the two RAM forms, and the
//! fixture comparison.

use ic6502::addressing_mode::AdressingMode;
use ic6502::arith::{add16, add8, sub8, word};
use ic6502::bus::{Bus, OpenBusDevice};
use ic6502::cpu::IC6502;
use ic6502::decode::{decode, Instruction};
use ic6502::fixture::{ram_states_equal, State, TestCase};
use ic6502::flags::{flag_get, flag_set, set_zn, Flags};
use ic6502::operation::{Operation, OperationArgument, Thingimagic};
use ic6502::ram::FlatRam;

fn cpu(a: u8, x: u8, y: u8, sp: u8, pc: u16, p: u8) -> IC6502 {
    IC6502 {
        accumulator: a,
        register_x: x,
        register_y: y,
        stack_pointer: sp,
        program_counter: pc,
        status: p,
    }
}

#[test]
fn set_zn_matches_the_flag_formulas() {
    // Z(v) = (v == 0), N(v) = (v >> 7) & 1; other bits kept.
    assert_eq!(set_zn(0x00, 0x00), 0x02);
    assert_eq!(set_zn(0x00, 0x80), 0x80);
    assert_eq!(set_zn(0xFF, 0x80), 0xFD);
    assert_eq!(set_zn(0xFF, 0x00), 0x7F);
    assert_eq!(set_zn(0x6D, 0x01), 0x6D);
}

#[test]
fn unused_flag_reads_one_through_flag_get() {
    assert!(flag_get(0x00, Flags::Unused));
    assert!(flag_get(0xFF, Flags::Unused));
    // The raw mask test still sees the stored bit.
    assert!(!Flags::Unused.is_set(0x00));
    assert!(Flags::Unused.is_set(0x20));
}

#[test]
fn flag_set_and_get_round_trip_each_flag() {
    assert_eq!(flag_set(0x00, Flags::Carry, true), 0x01);
    assert_eq!(flag_set(0xFF, Flags::Negative, false), 0x7F);
    assert!(flag_get(0x01, Flags::Carry));
    assert!(!flag_get(0xFE, Flags::Carry));
    // Setting Unused is a no-op from the outside.
    assert_eq!(flag_set(0x00, Flags::Unused, true), 0x00);
}

#[test]
fn modular_arithmetic_wraps() {
    assert_eq!(add8(0xFF, 0x01), 0x00);
    assert_eq!(sub8(0x00, 0x01), 0xFF);
    assert_eq!(add16(0xFFFF, 0x0002), 0x0001);
    assert_eq!(word(0x34, 0x12), 0x1234);
}

#[test]
fn decode_gives_table_entries_and_invalid() {
    assert_eq!(
        decode(0xEA),
        Instruction::Valid {
            operation: Operation::NoOp,
            addressing_mode: AdressingMode::Implied,
            bytes: 1,
            cycles: 2,
        }
    );
    assert_eq!(
        decode(0x6C),
        Instruction::Valid {
            operation: Operation::Jump,
            addressing_mode: AdressingMode::AbsoluteIndirect,
            bytes: 3,
            cycles: 5,
        }
    );
    assert_eq!(
        decode(0x91),
        Instruction::Valid {
            operation: Operation::StoreAccumulator,
            addressing_mode: AdressingMode::IndirectIndexed,
            bytes: 2,
            cycles: 6,
        }
    );
    assert_eq!(decode(0x02), Instruction::Invalid);
    assert_eq!(decode(0xFF), Instruction::Invalid);
}

#[test]
fn every_valid_opcode_length_matches_its_mode() {
    // The table-consistency law, checked exhaustively on the executable
    // table: a mode always produces the length the table records.
    for code in 0..=255u8 {
        if let Instruction::Valid {
            addressing_mode,
            bytes,
            ..
        } = decode(code)
        {
            let expected = match addressing_mode {
                AdressingMode::Implied | AdressingMode::Accumulator => 1,
                AdressingMode::Absolute
                | AdressingMode::IndexedAbsoluteX
                | AdressingMode::IndexedAbsoluteY
                | AdressingMode::AbsoluteIndirect => 3,
                _ => 2,
            };
            assert_eq!(bytes, expected, "opcode {code:#04x}");
        }
    }
}

#[test]
fn addressing_mode_read_returns_length_and_argument() {
    let c = cpu(0x42, 0, 0, 0xFD, 0x0100, 0x24);
    let ram: Vec<(u16, u8)> = vec![(0x0101, 0x34), (0x0102, 0x12)];
    assert_eq!(
        AdressingMode::Immediate.read(&c, &ram),
        Some((2, OperationArgument::Pointer(0x0101)))
    );
    assert_eq!(
        AdressingMode::Absolute.read(&c, &ram),
        Some((3, OperationArgument::Pointer(0x1234)))
    );
    assert_eq!(
        AdressingMode::Accumulator.read(&c, &ram),
        Some((1, OperationArgument::Value(0x42)))
    );
    // A read past the mapped pairs aborts the mode.
    assert_eq!(AdressingMode::ZeroPage.read(&c, &vec![]), None);
}

#[test]
fn operation_run_dispatches() {
    let mut c = cpu(0, 0, 0, 0xFD, 0, 0x24);
    let mut ram: Vec<(u16, u8)> = vec![];
    let out = Operation::LoadToAccumulator.run(&mut c, &mut ram, OperationArgument::Value(0x99));
    assert_eq!(out, Some(Thingimagic::Increment));
    assert_eq!(c.accumulator, 0x99);
    assert_eq!(c.status, 0xA4);
    let out = Operation::Jump.run(&mut c, &mut ram, OperationArgument::Pointer(0x8000));
    assert_eq!(out, Some(Thingimagic::Jump(0x8000)));
    // A store needs an address: a value argument aborts.
    let out = Operation::StoreAccumulator.run(&mut c, &mut ram, OperationArgument::Value(0));
    assert_eq!(out, None);
}

#[test]
fn flat_ram_is_a_total_bus() {
    let mut ram = FlatRam::new();
    assert_eq!(Bus::read(&ram, 0xFFFF), 0x00);
    Bus::write(&mut ram, 0x8000, 0xAB);
    assert_eq!(Bus::read(&ram, 0x8000), 0xAB);
}

#[test]
fn step_runs_against_a_flat_ram() {
    let mut ram = FlatRam::new();
    Bus::write(&mut ram, 0x0100, 0xA9);
    Bus::write(&mut ram, 0x0101, 0x07);
    let mut c = cpu(0, 0, 0, 0xFD, 0x0100, 0x24);
    assert_eq!(c.step(&mut ram), Some(2));
    assert_eq!(c.accumulator, 0x07);
    assert_eq!(c.program_counter, 0x0102);
}

#[test]
fn the_cpu_is_a_bus_device() {
    // `cycle` through the device trait is one `step`.
    let mut c = IC6502::new();
    assert_eq!(c, cpu(0, 0, 0, 0, 0, 0));
    c.program_counter = 0x0100;
    let mut ram: Vec<(u16, u8)> = vec![(0x0100, 0xE8)];
    assert_eq!(OpenBusDevice::cycle(&mut c, &mut ram), Some(2));
    assert_eq!(c.register_x, 1);
    assert_eq!(c.program_counter, 0x0101);
}

#[test]
fn ram_states_compare_as_sorted_pair_lists() {
    let a: Vec<(u16, u8)> = vec![(3, 1), (1, 2), (2, 9)];
    let b: Vec<(u16, u8)> = vec![(1, 2), (2, 9), (3, 1)];
    assert!(ram_states_equal(&a, &b));
    let c: Vec<(u16, u8)> = vec![(1, 2), (2, 8), (3, 1)];
    assert!(!ram_states_equal(&a, &c));
    let short: Vec<(u16, u8)> = vec![(1, 2), (2, 9)];
    assert!(!ram_states_equal(&a, &short));
    let empty: Vec<(u16, u8)> = vec![];
    assert!(ram_states_equal(&empty, &vec![]));
}

#[test]
fn test_case_run_checks_cpu_and_ram() {
    let mut case = TestCase {
        name: String::from("ea 00 00"),
        initial: State {
            cpu: cpu(0, 0, 0, 0xFD, 0x0100, 0x24),
            ram: vec![(0x0100, 0xEA)],
        },
        target: State {
            cpu: cpu(0, 0, 0, 0xFD, 0x0101, 0x24),
            ram: vec![(0x0100, 0xEA)],
        },
        cycles: vec![(0x0100, 0xEA, String::from("read"))],
    };
    assert!(case.run());

    let mut failing = TestCase {
        name: String::from("ea wrong"),
        initial: State {
            cpu: cpu(0, 0, 0, 0xFD, 0x0100, 0x24),
            ram: vec![(0x0100, 0xEA)],
        },
        target: State {
            cpu: cpu(1, 0, 0, 0xFD, 0x0101, 0x24),
            ram: vec![(0x0100, 0xEA)],
        },
        cycles: vec![],
    };
    assert!(!failing.run());
}
