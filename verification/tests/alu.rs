use oxidenes::alu::{
    adc, apply_implied, apply_modify, apply_read, compare, sbc, shift_left, shift_right, stored,
    takes_branch, Registers, Status,
};
use oxidenes::opcodes::{decode, AddressMode, Op, OpKind};

fn regs(a: u8, carry: bool) -> Registers {
    let mut p = Status::new();
    p.carry = carry;
    Registers {
        accumulator: a,
        index_x: 0,
        index_y: 0,
        stack_pointer: 0xFD,
        program_counter: 0,
        status_reg: p,
    }
}

#[test]
fn adc_sets_carry_and_overflow() {
    let out = adc(regs(0x50, false), 0x50);
    assert_eq!(out.accumulator, 0xA0);
    assert!(out.status_reg.overflow);
    assert!(!out.status_reg.carry);
    assert!(out.status_reg.negative);
    let out = adc(regs(0xFF, true), 0x00);
    assert_eq!(out.accumulator, 0x00);
    assert!(out.status_reg.carry);
    assert!(out.status_reg.zero);
    assert!(!out.status_reg.overflow);
    let out = adc(regs(0xD0, false), 0x90);
    assert_eq!(out.accumulator, 0x60);
    assert!(out.status_reg.carry && out.status_reg.overflow);
}

#[test]
fn sbc_borrows() {
    let out = sbc(regs(0x00, true), 0x01);
    assert_eq!(out.accumulator, 0xFF);
    assert!(!out.status_reg.carry);
    assert!(out.status_reg.negative);
    let out = sbc(regs(0x80, true), 0x01);
    assert_eq!(out.accumulator, 0x7F);
    assert!(out.status_reg.overflow);
    assert!(out.status_reg.carry);
    let out = sbc(regs(0x05, false), 0x03);
    assert_eq!(out.accumulator, 0x01);
}

#[test]
fn adc_and_sbc_against_wide_arithmetic() {
    for a in 0..=255u16 {
        for m in (0..=255u16).step_by(7) {
            for c in 0..2u16 {
                let out = adc(regs(a as u8, c == 1), m as u8);
                let sum = a + m + c;
                assert_eq!(out.accumulator, sum as u8);
                assert_eq!(out.status_reg.carry, sum > 255);
                let wide = (a as u8 as i8 as i16) + (m as u8 as i8 as i16) + c as i16;
                assert_eq!(out.status_reg.overflow, !(-128..=127).contains(&wide));
                let out = sbc(regs(a as u8, c == 1), m as u8);
                let diff = a as i16 - m as i16 - (1 - c as i16);
                assert_eq!(out.accumulator, diff as u8);
                assert_eq!(out.status_reg.carry, diff >= 0);
                let wide = (a as u8 as i8 as i16) - (m as u8 as i8 as i16) - (1 - c as i16);
                assert_eq!(out.status_reg.overflow, !(-128..=127).contains(&wide));
            }
        }
    }
}

#[test]
fn status_byte_round_trip() {
    for b in 0..=255u8 {
        assert_eq!(Status::from_byte(b).to_byte(), b);
    }
    let mut p = Status::new();
    assert_eq!(p.to_byte(), 0x24);
    p.carry = true;
    p.negative = true;
    assert_eq!(p.to_byte(), 0xA5);
    assert_eq!(Status::from_byte(0xA5), p);
    assert_eq!(p.set_zn(0).to_byte(), 0x27);
}

#[test]
fn shifts_and_compares() {
    assert_eq!(shift_left(0x81, true), 0x03);
    assert_eq!(shift_left(0x40, false), 0x80);
    assert_eq!(shift_right(0x81, true), 0xC0);
    assert_eq!(shift_right(0x01, false), 0x00);
    let p = compare(Status::new(), 0x10, 0x20);
    assert!(!p.carry && !p.zero && p.negative);
    let p = compare(Status::new(), 0x20, 0x10);
    assert!(p.carry && !p.zero && !p.negative);
}

#[test]
fn operations_by_kind() {
    let r = apply_read(Op::Eor, regs(0xF0, false), 0xFF);
    assert_eq!(r.accumulator, 0x0F);
    let r = apply_read(Op::Arr, regs(0xFF, true), 0xFF);
    assert_eq!(r.accumulator, 0xFF);
    assert!(r.status_reg.carry && !r.status_reg.overflow);
    let r = apply_read(Op::Arr, regs(0x7F, false), 0xC0);
    assert_eq!(r.accumulator, 0x20);
    assert!(!r.status_reg.carry && r.status_reg.overflow);
    let (r, out) = apply_modify(Op::Rra, regs(0x10, false), 0x03);
    assert_eq!(out, 0x01);
    assert_eq!(r.accumulator, 0x12); // $10 + $01 + the carry that the rotation made
    let (r, out) = apply_modify(Op::Rla, regs(0xFF, true), 0x80);
    assert_eq!(out, 0x01);
    assert_eq!(r.accumulator, 0x01);
    assert!(r.status_reg.carry);
    let (r, out) = apply_modify(Op::Sre, regs(0x0F, false), 0x03);
    assert_eq!((out, r.accumulator), (0x01, 0x0E));
    let mut r = regs(0x33, false);
    r.index_x = 0x55;
    r.index_y = 0x77;
    assert_eq!(stored(Op::Sta, r), 0x33);
    assert_eq!(stored(Op::Stx, r), 0x55);
    assert_eq!(stored(Op::Sty, r), 0x77);
    assert_eq!(stored(Op::Sax, r), 0x11);
    let t = apply_implied(Op::Txs, r);
    assert_eq!(t.stack_pointer, 0x55);
    assert_eq!(t.status_reg, r.status_reg);
    let t = apply_implied(Op::Dey, apply_implied(Op::Tay, regs(0, false)));
    assert_eq!(t.index_y, 0xFF);
    assert!(t.status_reg.negative);
    assert!(takes_branch(Op::Bcs, regs(0, true).status_reg));
    assert!(!takes_branch(Op::Bcc, regs(0, true).status_reg));
    assert!(!takes_branch(Op::Lda, regs(0, true).status_reg));
}

#[test]
fn opcode_matrix() {
    let lda = decode(0xA9);
    assert_eq!((lda.op, lda.mode, lda.kind, lda.cycles, lda.cross, lda.name), (Op::Lda, AddressMode::Immediate, OpKind::Read, 2, false, "LDA"));
    let sta = decode(0x9D);
    assert_eq!((sta.op, sta.mode, sta.kind, sta.cycles, sta.cross), (Op::Sta, AddressMode::AbsoluteX, OpKind::Write, 5, false));
    let cmp = decode(0xD1);
    assert_eq!((cmp.op, cmp.mode, cmp.cycles, cmp.cross, cmp.name), (Op::Cpa, AddressMode::IndirectY, 5, true, "CMP"));
    assert_eq!(decode(0x02).kind, OpKind::Halt);
    assert_eq!(decode(0x02).op, Op::Jam);
    let official = (0..=255u8).filter(|op| decode(*op).kind != OpKind::Halt).count();
    assert_eq!(official, 236);
}
