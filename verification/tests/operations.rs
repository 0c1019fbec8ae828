//! Exact expected values for the operation formulas, one instruction at a
//! time through the public step driver.

use ic6502::cpu::IC6502;

fn cpu(a: u8, x: u8, y: u8, sp: u8, pc: u16, p: u8) -> IC6502 {
    IC6502 {
        accumulator: a,
        register_x: x,
        register_y: y,
        stack_pointer: sp,
        program_counter: pc,
        status: p,
    }
}

fn ram_byte(ram: &Vec<(u16, u8)>, addr: u16) -> Option<u8> {
    ram.iter().find(|(a, _)| *a == addr).map(|(_, b)| *b)
}

#[test]
fn and_or_eor_update_zero_and_negative() {
    // AND #$0F on A = 0xF0 gives zero.
    let mut c = cpu(0xF0, 0, 0, 0xFD, 0, 0x24);
    let mut ram: Vec<(u16, u8)> = vec![(0, 0x29), (1, 0x0F)];
    c.step(&mut ram);
    assert_eq!(c.accumulator, 0x00);
    assert_eq!(c.status, 0x26);
    // ORA #$80 on A = 0x01 sets negative.
    let mut c = cpu(0x01, 0, 0, 0xFD, 0, 0x24);
    let mut ram: Vec<(u16, u8)> = vec![(0, 0x09), (1, 0x80)];
    c.step(&mut ram);
    assert_eq!(c.accumulator, 0x81);
    assert_eq!(c.status, 0xA4);
    // EOR #$FF complements A.
    let mut c = cpu(0x5A, 0, 0, 0xFD, 0, 0x24);
    let mut ram: Vec<(u16, u8)> = vec![(0, 0x49), (1, 0xFF)];
    c.step(&mut ram);
    assert_eq!(c.accumulator, 0xA5);
    assert_eq!(c.status, 0xA4);
}

#[test]
fn asl_on_accumulator_and_memory() {
    // ASL A: carry takes old bit 7.
    let mut c = cpu(0xC1, 0, 0, 0xFD, 0, 0x24);
    let mut ram: Vec<(u16, u8)> = vec![(0, 0x0A)];
    c.step(&mut ram);
    assert_eq!(c.accumulator, 0x82);
    assert_eq!(c.status, 0xA5);
    // ASL $10: the shifted byte is written back.
    let mut c = cpu(0, 0, 0, 0xFD, 0, 0x24);
    let mut ram: Vec<(u16, u8)> = vec![(0, 0x06), (1, 0x10), (0x10, 0x40)];
    c.step(&mut ram);
    assert_eq!(ram_byte(&ram, 0x10), Some(0x80));
    assert_eq!(c.status, 0xA4);
}

#[test]
fn lsr_clears_negative_and_sets_carry_from_bit_zero() {
    let mut c = cpu(0x01, 0, 0, 0xFD, 0, 0xA4);
    let mut ram: Vec<(u16, u8)> = vec![(0, 0x4A)];
    c.step(&mut ram);
    assert_eq!(c.accumulator, 0x00);
    assert_eq!(c.status, 0x27);
}

#[test]
fn rol_and_ror_move_the_carry_through() {
    // ROL A with carry in: bit 0 takes the old carry.
    let mut c = cpu(0x80, 0, 0, 0xFD, 0, 0x25);
    let mut ram: Vec<(u16, u8)> = vec![(0, 0x2A)];
    c.step(&mut ram);
    assert_eq!(c.accumulator, 0x01);
    assert_eq!(c.status & 0x01, 0x01);
    // ROR A with carry in: bit 7 takes the old carry.
    let mut c = cpu(0x01, 0, 0, 0xFD, 0, 0x25);
    let mut ram: Vec<(u16, u8)> = vec![(0, 0x6A)];
    c.step(&mut ram);
    assert_eq!(c.accumulator, 0x80);
    assert_eq!(c.status & 0x01, 0x01);
    assert_eq!(c.status & 0x80, 0x80);
}

#[test]
fn inc_dec_wrap_and_set_flags() {
    // INC $20 on 0xFF wraps to zero.
    let mut c = cpu(0, 0, 0, 0xFD, 0, 0x24);
    let mut ram: Vec<(u16, u8)> = vec![(0, 0xE6), (1, 0x20), (0x20, 0xFF)];
    c.step(&mut ram);
    assert_eq!(ram_byte(&ram, 0x20), Some(0x00));
    assert_eq!(c.status, 0x26);
    // DEC $20 on 0x00 wraps to 0xFF.
    let mut c = cpu(0, 0, 0, 0xFD, 0, 0x24);
    let mut ram: Vec<(u16, u8)> = vec![(0, 0xC6), (1, 0x20), (0x20, 0x00)];
    c.step(&mut ram);
    assert_eq!(ram_byte(&ram, 0x20), Some(0xFF));
    assert_eq!(c.status, 0xA4);
}

#[test]
fn register_increments_wrap() {
    let mut c = cpu(0, 0xFF, 0, 0xFD, 0, 0x24);
    let mut ram: Vec<(u16, u8)> = vec![(0, 0xE8)];
    c.step(&mut ram);
    assert_eq!(c.register_x, 0x00);
    assert_eq!(c.status, 0x26);
    let mut c = cpu(0, 0, 0x00, 0xFD, 0, 0x24);
    let mut ram: Vec<(u16, u8)> = vec![(0, 0x88)];
    c.step(&mut ram);
    assert_eq!(c.register_y, 0xFF);
    assert_eq!(c.status, 0xA4);
}

#[test]
fn compares_set_carry_zero_negative() {
    // CMP: A > M sets carry, clears zero.
    let mut c = cpu(0x40, 0, 0, 0xFD, 0, 0x24);
    let mut ram: Vec<(u16, u8)> = vec![(0, 0xC9), (1, 0x30)];
    c.step(&mut ram);
    assert_eq!(c.status, 0x25);
    assert_eq!(c.accumulator, 0x40);
    // CPX: X == M sets carry and zero.
    let mut c = cpu(0, 0x30, 0, 0xFD, 0, 0x24);
    let mut ram: Vec<(u16, u8)> = vec![(0, 0xE0), (1, 0x30)];
    c.step(&mut ram);
    assert_eq!(c.status, 0x27);
    // CPY: Y < M clears carry; the truncated difference sets negative.
    let mut c = cpu(0, 0, 0x10, 0xFD, 0, 0x24);
    let mut ram: Vec<(u16, u8)> = vec![(0, 0xC0), (1, 0x20)];
    c.step(&mut ram);
    assert_eq!(c.status, 0xA4);
}

#[test]
fn bit_reads_bits_from_memory() {
    let mut c = cpu(0x01, 0, 0, 0xFD, 0, 0x24);
    let mut ram: Vec<(u16, u8)> = vec![(0, 0x24), (1, 0x10), (0x10, 0xC0)];
    c.step(&mut ram);
    // A & M == 0 sets zero; N and V copy bits 7 and 6 of M; A unchanged.
    assert_eq!(c.status, 0xE6);
    assert_eq!(c.accumulator, 0x01);
}

#[test]
fn sbc_with_borrow_clear_subtracts_one_more() {
    // SBC #$10 from A = 0x50 with carry clear: 0x50 - 0x10 - 1 = 0x3F.
    let mut c = cpu(0x50, 0, 0, 0xFD, 0, 0x24);
    let mut ram: Vec<(u16, u8)> = vec![(0, 0xE9), (1, 0x10)];
    c.step(&mut ram);
    assert_eq!(c.accumulator, 0x3F);
    assert_eq!(c.status & 0x01, 0x01);
}

#[test]
fn loads_and_stores_of_x_and_y() {
    let mut c = cpu(0, 0, 0, 0xFD, 0, 0x24);
    let mut ram: Vec<(u16, u8)> = vec![(0, 0xA2), (1, 0x00)];
    c.step(&mut ram);
    assert_eq!(c.register_x, 0x00);
    assert_eq!(c.status, 0x26);
    let mut c = cpu(0, 0x77, 0, 0xFD, 0, 0x24);
    let mut ram: Vec<(u16, u8)> = vec![(0, 0x86), (1, 0x44)];
    c.step(&mut ram);
    assert_eq!(ram_byte(&ram, 0x44), Some(0x77));
    let mut c = cpu(0, 0, 0x99, 0xFD, 0, 0x24);
    let mut ram: Vec<(u16, u8)> = vec![(0, 0x8C), (1, 0x00), (2, 0x30)];
    c.step(&mut ram);
    assert_eq!(ram_byte(&ram, 0x3000), Some(0x99));
}

#[test]
fn transfers_copy_and_flag() {
    let mut c = cpu(0x80, 0, 0, 0xFD, 0, 0x24);
    let mut ram: Vec<(u16, u8)> = vec![(0, 0xAA)];
    c.step(&mut ram);
    assert_eq!(c.register_x, 0x80);
    assert_eq!(c.status, 0xA4);
    // TXS copies without touching flags.
    let mut c = cpu(0, 0x00, 0, 0xFD, 0, 0x24);
    let mut ram: Vec<(u16, u8)> = vec![(0, 0x9A)];
    c.step(&mut ram);
    assert_eq!(c.stack_pointer, 0x00);
    assert_eq!(c.status, 0x24);
    // TSX copies and flags.
    let mut c = cpu(0, 0, 0, 0x00, 0, 0x24);
    let mut ram: Vec<(u16, u8)> = vec![(0, 0xBA)];
    c.step(&mut ram);
    assert_eq!(c.register_x, 0x00);
    assert_eq!(c.status, 0x26);
}

#[test]
fn flag_operations_touch_exactly_one_bit() {
    let cases: Vec<(u8, u8, u8)> = vec![
        // (opcode, initial P, expected P)
        (0x18, 0xFF, 0xFE), // CLC
        (0x38, 0x00, 0x01), // SEC
        (0x58, 0xFF, 0xFB), // CLI
        (0x78, 0x00, 0x04), // SEI
        (0xD8, 0xFF, 0xF7), // CLD
        (0xF8, 0x00, 0x08), // SED
        (0xB8, 0xFF, 0xBF), // CLV
    ];
    for (opcode, before, after) in cases {
        let mut c = cpu(0, 0, 0, 0xFD, 0, before);
        let mut ram: Vec<(u16, u8)> = vec![(0, opcode)];
        assert_eq!(c.step(&mut ram), Some(2));
        assert_eq!(c.status, after);
        assert_eq!(c.program_counter, 1);
    }
}

#[test]
fn php_pushes_break_and_unused_and_plp_strips_them() {
    let mut c = cpu(0, 0, 0, 0xFD, 0, 0x00);
    let mut ram: Vec<(u16, u8)> = vec![(0, 0x08), (1, 0x28)];
    c.step(&mut ram);
    // PHP pushed P with Break and Unused forced on.
    assert_eq!(ram_byte(&ram, 0x01FD), Some(0x30));
    c.step(&mut ram);
    // PLP stored it with Break forced off, Unused on.
    assert_eq!(c.status, 0x20);
    assert_eq!(c.stack_pointer, 0xFD);
}

#[test]
fn jmp_absolute_sets_pc() {
    let mut c = cpu(0, 0, 0, 0xFD, 0x0100, 0x24);
    let mut ram: Vec<(u16, u8)> = vec![(0x0100, 0x4C), (0x0101, 0xCD), (0x0102, 0xAB)];
    assert_eq!(c.step(&mut ram), Some(3));
    assert_eq!(c.program_counter, 0xABCD);
}

#[test]
fn stores_through_every_indexed_mode() {
    // STA zp,X wraps within the zero page: 0xF0 + 0x20 = 0x10.
    let mut c = cpu(0x01, 0x20, 0, 0xFD, 0, 0x24);
    let mut ram: Vec<(u16, u8)> = vec![(0, 0x95), (1, 0xF0)];
    c.step(&mut ram);
    assert_eq!(ram_byte(&ram, 0x0010), Some(0x01));
    // STA abs,Y wraps in 16 bits: 0xFFFF + 2 = 0x0001.
    let mut c = cpu(0x02, 0, 0x02, 0xFD, 0, 0x24);
    let mut ram: Vec<(u16, u8)> = vec![(0, 0x99), (1, 0xFF), (2, 0xFF)];
    c.step(&mut ram);
    assert_eq!(ram_byte(&ram, 0x0001), Some(0x02));
    // STA (zp,X): the pointer sits in the zero page at base + X.
    let mut c = cpu(0x03, 0x04, 0, 0xFD, 0, 0x24);
    let mut ram: Vec<(u16, u8)> = vec![(0, 0x81), (1, 0x20), (0x24, 0x00), (0x25, 0x40)];
    c.step(&mut ram);
    assert_eq!(ram_byte(&ram, 0x4000), Some(0x03));
    // STA (zp),Y: the zero-page pointer plus Y.
    let mut c = cpu(0x04, 0, 0x10, 0xFD, 0, 0x24);
    let mut ram: Vec<(u16, u8)> = vec![(0, 0x91), (1, 0x20), (0x20, 0x00), (0x21, 0x50)];
    c.step(&mut ram);
    assert_eq!(ram_byte(&ram, 0x5010), Some(0x04));
}

#[test]
fn ldx_zero_page_y_wraps_in_page_zero() {
    let mut c = cpu(0, 0, 0x05, 0xFD, 0, 0x24);
    let mut ram: Vec<(u16, u8)> = vec![(0, 0xB6), (1, 0xFE), (0x03, 0x66)];
    c.step(&mut ram);
    assert_eq!(c.register_x, 0x66);
}

#[test]
fn zero_page_indirect_pointer_wraps_at_ff() {
    // LDA (zp,X) with base + X = 0xFF: the high pointer byte comes from
    // 0x00, wrapping within the zero page.
    let mut c = cpu(0, 0x0F, 0, 0xFD, 0x0200, 0x24);
    let mut ram: Vec<(u16, u8)> = vec![
        (0x0200, 0xA1),
        (0x0201, 0xF0),
        (0x00FF, 0x34),
        (0x0000, 0x12),
        (0x1234, 0x42),
    ];
    c.step(&mut ram);
    assert_eq!(c.accumulator, 0x42);
}

#[test]
fn sparse_ram_write_updates_first_pair_in_place() {
    // Storing to an address that already has a pair rewrites that pair
    // instead of appending a second one.
    let mut c = cpu(0x55, 0, 0, 0xFD, 0, 0x24);
    let mut ram: Vec<(u16, u8)> = vec![(0, 0x85), (1, 0x40), (0x40, 0x00)];
    c.step(&mut ram);
    assert_eq!(ram.len(), 3);
    assert_eq!(ram_byte(&ram, 0x40), Some(0x55));
}
