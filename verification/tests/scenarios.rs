//! End-to-end single-instruction scenarios: seed CPU and sparse RAM, run
//! one step, compare the full final state.

use ic6502::cpu::IC6502;

fn cpu(a: u8, x: u8, y: u8, sp: u8, pc: u16, p: u8) -> IC6502 {
    IC6502 {
        accumulator: a,
        register_x: x,
        register_y: y,
        stack_pointer: sp,
        program_counter: pc,
        status: p,
    }
}

fn ram_byte(ram: &Vec<(u16, u8)>, addr: u16) -> Option<u8> {
    ram.iter().find(|(a, _)| *a == addr).map(|(_, b)| *b)
}

fn sorted(ram: &Vec<(u16, u8)>) -> Vec<(u16, u8)> {
    let mut s = ram.clone();
    s.sort();
    s
}

#[test]
fn nop_advances_pc_and_changes_nothing_else() {
    let mut c = cpu(0, 0, 0, 0xFD, 0x0100, 0x24);
    let mut ram: Vec<(u16, u8)> = vec![(0x0100, 0xEA)];
    let cycles = c.step(&mut ram);
    assert_eq!(cycles, Some(2));
    assert_eq!(c, cpu(0, 0, 0, 0xFD, 0x0101, 0x24));
    assert_eq!(sorted(&ram), vec![(0x0100, 0xEA)]);
}

#[test]
fn lda_immediate_loads_and_sets_negative() {
    let mut c = cpu(0, 0, 0, 0xFD, 0x1000, 0x20);
    let mut ram: Vec<(u16, u8)> = vec![(0x1000, 0xA9), (0x1001, 0x80)];
    let cycles = c.step(&mut ram);
    assert_eq!(cycles, Some(2));
    assert_eq!(c.accumulator, 0x80);
    assert_eq!(c.program_counter, 0x1002);
    assert_eq!(c.status, 0xA0);
}

#[test]
fn sta_absolute_writes_memory_and_no_flags() {
    let mut c = cpu(0x42, 0, 0, 0xFD, 0x4000, 0x24);
    let mut ram: Vec<(u16, u8)> = vec![(0x4000, 0x8D), (0x4001, 0x00), (0x4002, 0x20)];
    let cycles = c.step(&mut ram);
    assert_eq!(cycles, Some(4));
    assert_eq!(c.program_counter, 0x4003);
    assert_eq!(c.status, 0x24);
    assert_eq!(c.accumulator, 0x42);
    assert_eq!(ram_byte(&ram, 0x2000), Some(0x42));
    assert_eq!(
        sorted(&ram),
        vec![(0x2000, 0x42), (0x4000, 0x8D), (0x4001, 0x00), (0x4002, 0x20)]
    );
}

#[test]
fn indirect_jmp_wraps_within_the_page() {
    // The operand pointer is $02FF; the high byte of the target comes from
    // $0200 (the same page), not $0300.
    let mut c = cpu(0, 0, 0, 0xFD, 0x0000, 0x24);
    let mut ram: Vec<(u16, u8)> = vec![
        (0x0000, 0x6C),
        (0x0001, 0xFF),
        (0x0002, 0x02),
        (0x02FF, 0x34),
        (0x0200, 0x12),
    ];
    let cycles = c.step(&mut ram);
    assert_eq!(cycles, Some(5));
    assert_eq!(c.program_counter, 0x1234);
}

#[test]
fn jsr_then_rts_round_trip() {
    let mut c = cpu(0, 0, 0, 0xFF, 0x0400, 0x24);
    let mut ram: Vec<(u16, u8)> = vec![
        (0x0400, 0x20),
        (0x0401, 0x10),
        (0x0402, 0x80),
        (0x8010, 0x60),
    ];
    let cycles = c.step(&mut ram);
    assert_eq!(cycles, Some(6));
    assert_eq!(c.program_counter, 0x8010);
    assert_eq!(c.stack_pointer, 0xFD);
    assert_eq!(ram_byte(&ram, 0x01FF), Some(0x04));
    assert_eq!(ram_byte(&ram, 0x01FE), Some(0x02));
    let cycles = c.step(&mut ram);
    assert_eq!(cycles, Some(6));
    assert_eq!(c.program_counter, 0x0403);
    assert_eq!(c.stack_pointer, 0xFF);
}

#[test]
fn adc_overflow_sets_negative_and_overflow() {
    let mut c = cpu(0x50, 0, 0, 0xFD, 0x0000, 0x20);
    let mut ram: Vec<(u16, u8)> = vec![(0x0000, 0x69), (0x0001, 0x50)];
    let cycles = c.step(&mut ram);
    assert_eq!(cycles, Some(2));
    assert_eq!(c.accumulator, 0xA0);
    assert_eq!(c.status, 0xE0);
    assert_eq!(c.program_counter, 0x0002);
}

#[test]
fn adc_then_sbc_restores_accumulator_and_carry() {
    // From A = 0x10 and carry set: ADC #$05 gives 0x16 with carry clear,
    // SBC #$05 gives 0x10 back with carry set.
    let mut c = cpu(0x10, 0, 0, 0xFD, 0x0000, 0x21);
    let mut ram: Vec<(u16, u8)> = vec![
        (0x0000, 0x69),
        (0x0001, 0x05),
        (0x0002, 0xE9),
        (0x0003, 0x05),
    ];
    assert_eq!(c.step(&mut ram), Some(2));
    assert_eq!(c.accumulator, 0x16);
    assert_eq!(c.status & 0x01, 0x00);
    assert_eq!(c.step(&mut ram), Some(2));
    assert_eq!(c.accumulator, 0x10);
    assert_eq!(c.status & 0x01, 0x01);
}

#[test]
fn pha_then_pla_round_trips_a_byte() {
    let mut c = cpu(0x7B, 0, 0, 0xFD, 0x0000, 0x24);
    let mut ram: Vec<(u16, u8)> = vec![(0x0000, 0x48), (0x0001, 0x68)];
    assert_eq!(c.step(&mut ram), Some(3));
    assert_eq!(c.stack_pointer, 0xFC);
    assert_eq!(ram_byte(&ram, 0x01FD), Some(0x7B));
    c.accumulator = 0x00;
    assert_eq!(c.step(&mut ram), Some(4));
    assert_eq!(c.accumulator, 0x7B);
    assert_eq!(c.stack_pointer, 0xFD);
}

#[test]
fn branch_taken_and_not_taken() {
    // BNE with Z clear: displacement 0xFE is -2, so the branch lands on
    // its own opcode.
    let mut c = cpu(0, 0, 0, 0xFD, 0x0100, 0x24);
    let mut ram: Vec<(u16, u8)> = vec![(0x0100, 0xD0), (0x0101, 0xFE)];
    assert_eq!(c.step(&mut ram), Some(2));
    assert_eq!(c.program_counter, 0x0100);
    // BNE with Z set: not taken, the CPU just walks past the two bytes.
    let mut c = cpu(0, 0, 0, 0xFD, 0x0100, 0x26);
    assert_eq!(c.step(&mut ram), Some(2));
    assert_eq!(c.program_counter, 0x0102);
}

#[test]
fn branch_forward_displacement() {
    // BCS taken with displacement +0x10 from PC = 0x0200.
    let mut c = cpu(0, 0, 0, 0xFD, 0x0200, 0x25);
    let mut ram: Vec<(u16, u8)> = vec![(0x0200, 0xB0), (0x0201, 0x10)];
    assert_eq!(c.step(&mut ram), Some(2));
    assert_eq!(c.program_counter, 0x0212);
}

#[test]
fn brk_pushes_state_and_jumps_through_vector() {
    let mut c = cpu(0, 0, 0, 0xFF, 0x0300, 0x20);
    let mut ram: Vec<(u16, u8)> = vec![
        (0x0300, 0x00),
        (0x0301, 0xAA),
        (0xFFFE, 0x00),
        (0xFFFF, 0x90),
    ];
    assert_eq!(c.step(&mut ram), Some(7));
    assert_eq!(c.program_counter, 0x9000);
    assert_eq!(c.stack_pointer, 0xFC);
    // Pushed: high then low byte of PC + 2, then P with Break and Unused on.
    assert_eq!(ram_byte(&ram, 0x01FF), Some(0x03));
    assert_eq!(ram_byte(&ram, 0x01FE), Some(0x02));
    assert_eq!(ram_byte(&ram, 0x01FD), Some(0x30));
    // Interrupt-Disable is set afterwards.
    assert_eq!(c.status & 0x04, 0x04);
}

#[test]
fn rti_restores_status_and_pc_without_increment() {
    let mut c = cpu(0, 0, 0, 0xFC, 0x0500, 0x24);
    let mut ram: Vec<(u16, u8)> = vec![
        (0x0500, 0x40),
        (0x01FD, 0xFF), // pulled status: Break forced off, Unused on
        (0x01FE, 0x34),
        (0x01FF, 0x12),
    ];
    assert_eq!(c.step(&mut ram), Some(6));
    // The pulled 0xFF comes in with Break forced off and Unused on.
    assert_eq!(c.status, 0xEF);
    assert_eq!(c.program_counter, 0x1234);
    assert_eq!(c.stack_pointer, 0xFF);
}

#[test]
fn invalid_opcode_advances_one_byte_for_zero_cycles() {
    let mut c = cpu(0, 0, 0, 0xFD, 0x0100, 0x24);
    let mut ram: Vec<(u16, u8)> = vec![(0x0100, 0x02)];
    assert_eq!(c.step(&mut ram), Some(0));
    assert_eq!(c, cpu(0, 0, 0, 0xFD, 0x0101, 0x24));
}

#[test]
fn open_bus_fetch_reports_absent_and_leaves_cpu_alone() {
    let mut c = cpu(0, 0, 0, 0xFD, 0x0100, 0x24);
    let mut ram: Vec<(u16, u8)> = vec![];
    assert_eq!(c.step(&mut ram), None);
    assert_eq!(c, cpu(0, 0, 0, 0xFD, 0x0100, 0x24));
    assert!(ram.is_empty());
}

#[test]
fn open_bus_operand_aborts_the_instruction() {
    // LDA absolute whose operand address is unmapped.
    let mut c = cpu(0x11, 0, 0, 0xFD, 0x0100, 0x24);
    let mut ram: Vec<(u16, u8)> = vec![(0x0100, 0xAD), (0x0101, 0x00), (0x0102, 0x20)];
    assert_eq!(c.step(&mut ram), None);
    assert_eq!(c.accumulator, 0x11);
    assert_eq!(c.program_counter, 0x0100);
}
