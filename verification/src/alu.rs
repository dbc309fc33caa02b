//! The register file of the processor and what each operation does to it.
//!
//! Every operation is a function from the registers (and, where it has one,
//! the operand byte) to the new registers. The contracts are written
//! over integers: a sum, a difference, a doubling or a halving, with the
//! flags derived from the mathematical result.

use crate::opcodes::Op;
use vstd::prelude::*;

verus! {

/// The processor status flags.
#[derive(Clone, Copy, PartialEq, Eq, Structural, Debug)]
pub struct Status {
    pub carry: bool,
    pub zero: bool,
    pub interrupt: bool,
    pub decimal: bool,
    pub brk: bool,
    pub unused: bool,
    pub overflow: bool,
    pub negative: bool,
}

/// 1 for a set flag, 0 for a clear one.
pub open spec fn flag_bit(f: bool) -> int {
    if f {
        1
    } else {
        0
    }
}

impl Status {
    /// The flags packed as `NVUBDIZC`, most significant bit first.
    #[verifier::opaque]
    pub open spec fn byte(self) -> int {
        flag_bit(self.carry) + 2 * flag_bit(self.zero) + 4 * flag_bit(self.interrupt) + 8
            * flag_bit(self.decimal) + 16 * flag_bit(self.brk) + 32 * flag_bit(self.unused) + 64
            * flag_bit(self.overflow) + 128 * flag_bit(self.negative)
    }

    /// The flags that the byte `b` packs.
    pub open spec fn of_byte(b: u8) -> Status {
        Status {
            carry: b % 2 == 1,
            zero: (b / 2) % 2 == 1,
            interrupt: (b / 4) % 2 == 1,
            decimal: (b / 8) % 2 == 1,
            brk: (b / 16) % 2 == 1,
            unused: (b / 32) % 2 == 1,
            overflow: (b / 64) % 2 == 1,
            negative: b / 128 == 1,
        }
    }

    /// The flags right after power-up: interrupts masked, the unused bit set.
    pub open spec fn power_up() -> Status {
        Status {
            carry: false,
            zero: false,
            interrupt: true,
            decimal: false,
            brk: false,
            unused: true,
            overflow: false,
            negative: false,
        }
    }

    /// The state at power-up.
    pub fn new() -> (s: Status)
        ensures
            s == Status::power_up(),
    {
        Status {
            carry: false,
            zero: false,
            interrupt: true,
            decimal: false,
            brk: false,
            unused: true,
            overflow: false,
            negative: false,
        }
    }

    /// Computes `byte`.
    pub fn to_byte(self) -> (b: u8)
        ensures
            b == self.byte(),
    {
        proof {
            reveal(Status::byte);
        }
        let mut b: u8 = 0;
        if self.carry {
            b = b + 1;
        }
        if self.zero {
            b = b + 2;
        }
        if self.interrupt {
            b = b + 4;
        }
        if self.decimal {
            b = b + 8;
        }
        if self.brk {
            b = b + 16;
        }
        if self.unused {
            b = b + 32;
        }
        if self.overflow {
            b = b + 64;
        }
        if self.negative {
            b = b + 128;
        }
        b
    }

    /// Computes `of_byte`.
    pub fn from_byte(b: u8) -> (s: Status)
        ensures
            s == Status::of_byte(b),
    {
        Status {
            carry: b % 2 == 1,
            zero: (b / 2) % 2 == 1,
            interrupt: (b / 4) % 2 == 1,
            decimal: (b / 8) % 2 == 1,
            brk: (b / 16) % 2 == 1,
            unused: (b / 32) % 2 == 1,
            overflow: (b / 64) % 2 == 1,
            negative: b / 128 == 1,
        }
    }

    /// The flags with `zero` and `negative` taken from the value `v`.
    pub open spec fn with_zn(self, v: u8) -> Status {
        Status { zero: v == 0, negative: v >= 128, ..self }
    }

    /// Computes `with_zn`.
    pub fn set_zn(self, v: u8) -> (s: Status)
        ensures
            s == self.with_zn(v),
    {
        Status { zero: v == 0, negative: v >= 128, ..self }
    }
}

/// Packing the flags and unpacking the byte gives the flags back.
pub proof fn lemma_status_round_trip(s: Status)
    ensures
        0 <= s.byte() < 256,
        Status::of_byte(s.byte() as u8) == s,
{
    reveal(Status::byte);
}

/// Unpacking a byte and packing the flags gives the byte back.
pub proof fn lemma_status_byte_round_trip(b: u8)
    ensures
        Status::of_byte(b).byte() == b,
{
    reveal(Status::byte);
    assert(b == b % 2 + 2 * ((b / 2) % 2) + 4 * ((b / 4) % 2) + 8 * ((b / 8) % 2) + 16 * ((b / 16)
        % 2) + 32 * ((b / 32) % 2) + 64 * ((b / 64) % 2) + 128 * (b / 128)) by (bit_vector);
}

/// The programmer-visible registers.
#[derive(Clone, Copy, PartialEq, Eq, Structural, Debug)]
pub struct Registers {
    pub accumulator: u8,
    pub index_x: u8,
    pub index_y: u8,
    pub stack_pointer: u8,
    pub program_counter: u16,
    pub status_reg: Status,
}

/// A byte read as a two's complement number.
pub open spec fn signed(v: u8) -> int {
    if v >= 128 {
        v - 256
    } else {
        v as int
    }
}

/// Whether `v` has the bit of weight `weight` (a power of two) set.
#[verifier::opaque]
pub open spec fn has_bit(v: u8, weight: u8) -> bool {
    (v / weight) % 2 == 1
}

/// Computes `has_bit`.
pub fn test_bit(v: u8, weight: u8) -> (set: bool)
    requires
        weight > 0,
    ensures
        set == has_bit(v, weight),
{
    proof {
        reveal(has_bit);
    }
    (v / weight) % 2 == 1
}

/// `v + 1` in eight bits.
#[verifier::opaque]
pub open spec fn incremented(v: u8) -> u8 {
    ((v + 1) % 256) as u8
}

/// `v - 1` in eight bits.
#[verifier::opaque]
pub open spec fn decremented(v: u8) -> u8 {
    ((v - 1) % 256) as u8
}

/// `v - m` in eight bits.
#[verifier::opaque]
pub open spec fn difference(v: u8, m: u8) -> u8 {
    ((v - m) % 256) as u8
}

/// Computes `incremented`.
pub fn increment(v: u8) -> (out: u8)
    ensures
        out == incremented(v),
{
    proof {
        reveal(incremented);
    }
    v.wrapping_add(1)
}

/// Computes `decremented`.
pub fn decrement(v: u8) -> (out: u8)
    ensures
        out == decremented(v),
{
    proof {
        reveal(decremented);
    }
    v.wrapping_sub(1)
}

/// Computes `difference`.
pub fn subtract(v: u8, m: u8) -> (out: u8)
    ensures
        out == difference(v, m),
{
    proof {
        reveal(difference);
    }
    v.wrapping_sub(m)
}

/// `ADC`: the accumulator becomes the low eight bits of `A + m + C`. Carry is
/// set when the unsigned sum does not fit in a byte, overflow when the signed
/// sum does not.
#[verifier::opaque]
pub open spec fn add_with_carry(r: Registers, m: u8) -> Registers {
    let c = flag_bit(r.status_reg.carry);
    let sum = r.accumulator + m + c;
    let wide = signed(r.accumulator) + signed(m) + c;
    let out = (sum % 256) as u8;
    Registers {
        accumulator: out,
        status_reg: Status {
            carry: sum > 255,
            overflow: wide < -128 || wide > 127,
            ..r.status_reg.with_zn(out)
        },
        ..r
    }
}

/// `SBC`: the accumulator becomes the low eight bits of `A - m - (1 - C)`.
/// Carry is set when no borrow was needed, overflow when the signed
/// difference does not fit in a byte.
#[verifier::opaque]
pub open spec fn subtract_with_borrow(r: Registers, m: u8) -> Registers {
    let borrow = 1 - flag_bit(r.status_reg.carry);
    let diff = r.accumulator - m - borrow;
    let wide = signed(r.accumulator) - signed(m) - borrow;
    let out = (diff % 256) as u8;
    Registers {
        accumulator: out,
        status_reg: Status {
            carry: diff >= 0,
            overflow: wide < -128 || wide > 127,
            ..r.status_reg.with_zn(out)
        },
        ..r
    }
}

/// The flags after comparing the register value `v` with `m`: carry when
/// `v >= m`, zero when they are equal, negative from the difference.
#[verifier::opaque]
pub open spec fn compared(p: Status, v: u8, m: u8) -> Status {
    Status { carry: v >= m, ..p.with_zn(difference(v, m)) }
}

/// `v` shifted left by one bit, with `low` shifted in.
#[verifier::opaque]
pub open spec fn doubled(v: u8, low: bool) -> u8 {
    ((2 * v + flag_bit(low)) % 256) as u8
}

/// `v` shifted right by one bit, with `high` shifted in.
#[verifier::opaque]
pub open spec fn halved(v: u8, high: bool) -> u8 {
    (v / 2 + 128 * flag_bit(high)) as u8
}

/// Computes `add_with_carry`.
pub fn adc(r: Registers, m: u8) -> (out: Registers)
    ensures
        out == add_with_carry(r, m),
{
    proof {
        reveal(add_with_carry);
    }
    let c: u16 = if r.status_reg.carry {
        1
    } else {
        0
    };
    let sum: u16 = r.accumulator as u16 + m as u16 + c;
    let res: u8 = (sum % 256) as u8;
    let same_sign = (r.accumulator >= 128) == (m >= 128);
    let flipped = (r.accumulator >= 128) != (res >= 128);
    Registers {
        accumulator: res,
        status_reg: Status {
            carry: sum > 255,
            overflow: same_sign && flipped,
            ..r.status_reg.set_zn(res)
        },
        ..r
    }
}

/// Computes `subtract_with_borrow`.
pub fn sbc(r: Registers, m: u8) -> (out: Registers)
    ensures
        out == subtract_with_borrow(r, m),
{
    proof {
        // A - m - (1 - C) and A + (255 - m) + C differ by 256.
        reveal(add_with_carry);
        reveal(subtract_with_borrow);
    }
    adc(r, 255 - m)
}

/// Computes `compared`.
pub fn compare(p: Status, v: u8, m: u8) -> (out: Status)
    ensures
        out == compared(p, v, m),
{
    proof {
        reveal(compared);
    }
    let diff = subtract(v, m);
    Status { carry: v >= m, ..p.set_zn(diff) }
}

/// Computes `doubled`.
pub fn shift_left(v: u8, low: bool) -> (out: u8)
    ensures
        out == doubled(v, low),
{
    proof {
        reveal(doubled);
    }
    let carry_in: u8 = if low {
        1
    } else {
        0
    };
    (v % 128) * 2 + carry_in
}

/// Computes `halved`.
pub fn shift_right(v: u8, high: bool) -> (out: u8)
    ensures
        out == halved(v, high),
{
    proof {
        reveal(halved);
    }
    let carry_in: u8 = if high {
        128
    } else {
        0
    };
    v / 2 + carry_in
}

/// The loads: `LDA`, `LDX`, `LDY` and `LAX`.
pub open spec fn load_op(op: Op, r: Registers, m: u8) -> Registers {
    let p = r.status_reg.with_zn(m);
    match op {
        Op::Lda => Registers { accumulator: m, status_reg: p, ..r },
        Op::Ldx => Registers { index_x: m, status_reg: p, ..r },
        Op::Ldy => Registers { index_y: m, status_reg: p, ..r },
        Op::Lax => Registers { accumulator: m, index_x: m, status_reg: p, ..r },
        _ => r,
    }
}

/// Computes `load_op`.
pub fn apply_load(op: Op, r: Registers, m: u8) -> (out: Registers)
    ensures
        out == load_op(op, r, m),
{
    let p = r.status_reg.set_zn(m);
    match op {
        Op::Lda => Registers { accumulator: m, status_reg: p, ..r },
        Op::Ldx => Registers { index_x: m, status_reg: p, ..r },
        Op::Ldy => Registers { index_y: m, status_reg: p, ..r },
        Op::Lax => Registers { accumulator: m, index_x: m, status_reg: p, ..r },
        _ => r,
    }
}

/// The bitwise operations on the accumulator: `AND`, `ORA`, `EOR`.
pub open spec fn logic_op(op: Op, r: Registers, m: u8) -> Registers {
    let v = match op {
        Op::And => r.accumulator & m,
        Op::Ora => r.accumulator | m,
        _ => r.accumulator ^ m,
    };
    Registers { accumulator: v, status_reg: r.status_reg.with_zn(v), ..r }
}

/// Computes `logic_op`.
pub fn apply_logic(op: Op, r: Registers, m: u8) -> (out: Registers)
    ensures
        out == logic_op(op, r, m),
{
    let v = match op {
        Op::And => r.accumulator & m,
        Op::Ora => r.accumulator | m,
        _ => r.accumulator ^ m,
    };
    Registers { accumulator: v, status_reg: r.status_reg.set_zn(v), ..r }
}

/// `BIT`: zero from `A & m`, overflow and negative from bits 6 and 7 of `m`.
pub open spec fn bit_test(r: Registers, m: u8) -> Registers {
    Registers {
        status_reg: Status {
            zero: r.accumulator & m == 0,
            overflow: has_bit(m, 64),
            negative: m >= 128,
            ..r.status_reg
        },
        ..r
    }
}

/// Computes `bit_test`.
pub fn apply_bit_test(r: Registers, m: u8) -> (out: Registers)
    ensures
        out == bit_test(r, m),
{
    Registers {
        status_reg: Status {
            zero: r.accumulator & m == 0,
            overflow: test_bit(m, 64),
            negative: m >= 128,
            ..r.status_reg
        },
        ..r
    }
}

/// The undocumented immediate operations `ANC`, `ALR`, `ARR` and `AXS`.
pub open spec fn combined_op(op: Op, r: Registers, m: u8) -> Registers {
    let p = r.status_reg;
    let t = r.accumulator & m;
    match op {
        Op::Anc => Registers {
            accumulator: t,
            status_reg: Status { carry: t >= 128, ..p.with_zn(t) },
            ..r
        },
        Op::Alr => {
            let v = halved(t, false);
            Registers {
                accumulator: v,
                status_reg: Status { carry: has_bit(t, 1), ..p.with_zn(v) },
                ..r
            }
        },
        Op::Arr => {
            let v = halved(t, p.carry);
            Registers {
                accumulator: v,
                status_reg: Status {
                    carry: has_bit(v, 64),
                    overflow: has_bit(v, 64) != has_bit(v, 32),
                    ..p.with_zn(v)
                },
                ..r
            }
        },
        _ => {
            let both = r.accumulator & r.index_x;
            let v = difference(both, m);
            Registers { index_x: v, status_reg: Status { carry: both >= m, ..p.with_zn(v) }, ..r }
        },
    }
}

/// Computes `combined_op`.
pub fn apply_combined(op: Op, r: Registers, m: u8) -> (out: Registers)
    ensures
        out == combined_op(op, r, m),
{
    let p = r.status_reg;
    let t = r.accumulator & m;
    match op {
        Op::Anc => Registers {
            accumulator: t,
            status_reg: Status { carry: t >= 128, ..p.set_zn(t) },
            ..r
        },
        Op::Alr => {
            let v = shift_right(t, false);
            Registers {
                accumulator: v,
                status_reg: Status { carry: test_bit(t, 1), ..p.set_zn(v) },
                ..r
            }
        },
        Op::Arr => {
            let v = shift_right(t, p.carry);
            Registers {
                accumulator: v,
                status_reg: Status {
                    carry: test_bit(v, 64),
                    overflow: test_bit(v, 64) != test_bit(v, 32),
                    ..p.set_zn(v)
                },
                ..r
            }
        },
        _ => {
            let both = r.accumulator & r.index_x;
            let v = subtract(both, m);
            Registers { index_x: v, status_reg: Status { carry: both >= m, ..p.set_zn(v) }, ..r }
        },
    }
}

/// What an operation of kind `Read` does with the operand `m`.
pub open spec fn read_op(op: Op, r: Registers, m: u8) -> Registers {
    match op {
        Op::Lda | Op::Ldx | Op::Ldy | Op::Lax => load_op(op, r, m),
        Op::And | Op::Ora | Op::Eor => logic_op(op, r, m),
        Op::Adc => add_with_carry(r, m),
        Op::Sbc => subtract_with_borrow(r, m),
        Op::Cpa => Registers { status_reg: compared(r.status_reg, r.accumulator, m), ..r },
        Op::Cpx => Registers { status_reg: compared(r.status_reg, r.index_x, m), ..r },
        Op::Cpy => Registers { status_reg: compared(r.status_reg, r.index_y, m), ..r },
        Op::Bit => bit_test(r, m),
        Op::Anc | Op::Alr | Op::Arr | Op::Axs => combined_op(op, r, m),
        _ => r,
    }
}

/// Computes `read_op`.
pub fn apply_read(op: Op, r: Registers, m: u8) -> (out: Registers)
    ensures
        out == read_op(op, r, m),
{
    match op {
        Op::Lda | Op::Ldx | Op::Ldy | Op::Lax => apply_load(op, r, m),
        Op::And | Op::Ora | Op::Eor => apply_logic(op, r, m),
        Op::Adc => adc(r, m),
        Op::Sbc => sbc(r, m),
        Op::Cpa => Registers { status_reg: compare(r.status_reg, r.accumulator, m), ..r },
        Op::Cpx => Registers { status_reg: compare(r.status_reg, r.index_x, m), ..r },
        Op::Cpy => Registers { status_reg: compare(r.status_reg, r.index_y, m), ..r },
        Op::Bit => apply_bit_test(r, m),
        Op::Anc | Op::Alr | Op::Arr | Op::Axs => apply_combined(op, r, m),
        _ => r,
    }
}

/// The byte that an operation of kind `Write` stores.
pub open spec fn store_value(op: Op, r: Registers) -> u8 {
    match op {
        Op::Sta => r.accumulator,
        Op::Stx => r.index_x,
        Op::Sty => r.index_y,
        Op::Sax => r.accumulator & r.index_x,
        _ => 0,
    }
}

/// Computes `store_value`.
pub fn stored(op: Op, r: Registers) -> (v: u8)
    ensures
        v == store_value(op, r),
{
    match op {
        Op::Sta => r.accumulator,
        Op::Stx => r.index_x,
        Op::Sty => r.index_y,
        Op::Sax => r.accumulator & r.index_x,
        _ => 0,
    }
}

/// What an operation of kind `Modify` does with the byte `v`: the new
/// registers and the byte written back.
pub open spec fn modify_op(op: Op, r: Registers, v: u8) -> (Registers, u8) {
    let p = r.status_reg;
    match op {
        Op::Asl => {
            let out = doubled(v, false);
            (Registers { status_reg: Status { carry: v >= 128, ..p.with_zn(out) }, ..r }, out)
        },
        Op::Lsr => {
            let out = halved(v, false);
            (Registers { status_reg: Status { carry: has_bit(v, 1), ..p.with_zn(out) }, ..r }, out)
        },
        Op::Rol => {
            let out = doubled(v, p.carry);
            (Registers { status_reg: Status { carry: v >= 128, ..p.with_zn(out) }, ..r }, out)
        },
        Op::Ror => {
            let out = halved(v, p.carry);
            (Registers { status_reg: Status { carry: has_bit(v, 1), ..p.with_zn(out) }, ..r }, out)
        },
        Op::Inc => {
            let out = incremented(v);
            (Registers { status_reg: p.with_zn(out), ..r }, out)
        },
        Op::Dec => {
            let out = decremented(v);
            (Registers { status_reg: p.with_zn(out), ..r }, out)
        },
        Op::Slo => {
            let out = doubled(v, false);
            let a = r.accumulator | out;
            (
                Registers {
                    accumulator: a,
                    status_reg: Status { carry: v >= 128, ..p.with_zn(a) },
                    ..r
                },
                out,
            )
        },
        Op::Rla => {
            let out = doubled(v, p.carry);
            let a = r.accumulator & out;
            (
                Registers {
                    accumulator: a,
                    status_reg: Status { carry: v >= 128, ..p.with_zn(a) },
                    ..r
                },
                out,
            )
        },
        Op::Sre => {
            let out = halved(v, false);
            let a = r.accumulator ^ out;
            (
                Registers {
                    accumulator: a,
                    status_reg: Status { carry: has_bit(v, 1), ..p.with_zn(a) },
                    ..r
                },
                out,
            )
        },
        Op::Rra => {
            let out = halved(v, p.carry);
            let rotated = Registers { status_reg: Status { carry: has_bit(v, 1), ..p }, ..r };
            (add_with_carry(rotated, out), out)
        },
        Op::Dcp => {
            let out = decremented(v);
            (Registers { status_reg: compared(p, r.accumulator, out), ..r }, out)
        },
        Op::Isc => {
            let out = incremented(v);
            (subtract_with_borrow(r, out), out)
        },
        _ => (r, v),
    }
}

/// Computes `modify_op`.
pub fn apply_modify(op: Op, r: Registers, v: u8) -> (out: (Registers, u8))
    ensures
        out == modify_op(op, r, v),
{
    let p = r.status_reg;
    match op {
        Op::Asl => {
            let out = shift_left(v, false);
            (Registers { status_reg: Status { carry: v >= 128, ..p.set_zn(out) }, ..r }, out)
        },
        Op::Lsr => {
            let out = shift_right(v, false);
            (Registers { status_reg: Status { carry: test_bit(v, 1), ..p.set_zn(out) }, ..r }, out)
        },
        Op::Rol => {
            let out = shift_left(v, p.carry);
            (Registers { status_reg: Status { carry: v >= 128, ..p.set_zn(out) }, ..r }, out)
        },
        Op::Ror => {
            let out = shift_right(v, p.carry);
            (Registers { status_reg: Status { carry: test_bit(v, 1), ..p.set_zn(out) }, ..r }, out)
        },
        Op::Inc => {
            let out = increment(v);
            (Registers { status_reg: p.set_zn(out), ..r }, out)
        },
        Op::Dec => {
            let out = decrement(v);
            (Registers { status_reg: p.set_zn(out), ..r }, out)
        },
        Op::Slo => {
            let out = shift_left(v, false);
            let a = r.accumulator | out;
            (
                Registers {
                    accumulator: a,
                    status_reg: Status { carry: v >= 128, ..p.set_zn(a) },
                    ..r
                },
                out,
            )
        },
        Op::Rla => {
            let out = shift_left(v, p.carry);
            let a = r.accumulator & out;
            (
                Registers {
                    accumulator: a,
                    status_reg: Status { carry: v >= 128, ..p.set_zn(a) },
                    ..r
                },
                out,
            )
        },
        Op::Sre => {
            let out = shift_right(v, false);
            let a = r.accumulator ^ out;
            (
                Registers {
                    accumulator: a,
                    status_reg: Status { carry: test_bit(v, 1), ..p.set_zn(a) },
                    ..r
                },
                out,
            )
        },
        Op::Rra => {
            let out = shift_right(v, p.carry);
            let rotated = Registers { status_reg: Status { carry: test_bit(v, 1), ..p }, ..r };
            (adc(rotated, out), out)
        },
        Op::Dcp => {
            let out = decrement(v);
            (Registers { status_reg: compare(p, r.accumulator, out), ..r }, out)
        },
        Op::Isc => {
            let out = increment(v);
            (sbc(r, out), out)
        },
        _ => (r, v),
    }
}

/// What an operation of kind `Implied` does to the registers.
pub open spec fn implied_op(op: Op, r: Registers) -> Registers {
    let p = r.status_reg;
    match op {
        Op::Clc => Registers { status_reg: Status { carry: false, ..p }, ..r },
        Op::Sec => Registers { status_reg: Status { carry: true, ..p }, ..r },
        Op::Cli => Registers { status_reg: Status { interrupt: false, ..p }, ..r },
        Op::Sei => Registers { status_reg: Status { interrupt: true, ..p }, ..r },
        Op::Cld => Registers { status_reg: Status { decimal: false, ..p }, ..r },
        Op::Sed => Registers { status_reg: Status { decimal: true, ..p }, ..r },
        Op::Clv => Registers { status_reg: Status { overflow: false, ..p }, ..r },
        Op::Tax => Registers { index_x: r.accumulator, status_reg: p.with_zn(r.accumulator), ..r },
        Op::Tay => Registers { index_y: r.accumulator, status_reg: p.with_zn(r.accumulator), ..r },
        Op::Txa => Registers { accumulator: r.index_x, status_reg: p.with_zn(r.index_x), ..r },
        Op::Tya => Registers { accumulator: r.index_y, status_reg: p.with_zn(r.index_y), ..r },
        Op::Tsx => Registers {
            index_x: r.stack_pointer,
            status_reg: p.with_zn(r.stack_pointer),
            ..r
        },
        Op::Txs => Registers { stack_pointer: r.index_x, ..r },
        Op::Inx => {
            let v = incremented(r.index_x);
            Registers { index_x: v, status_reg: p.with_zn(v), ..r }
        },
        Op::Iny => {
            let v = incremented(r.index_y);
            Registers { index_y: v, status_reg: p.with_zn(v), ..r }
        },
        Op::Dex => {
            let v = decremented(r.index_x);
            Registers { index_x: v, status_reg: p.with_zn(v), ..r }
        },
        Op::Dey => {
            let v = decremented(r.index_y);
            Registers { index_y: v, status_reg: p.with_zn(v), ..r }
        },
        _ => r,
    }
}

/// Computes `implied_op`.
pub fn apply_implied(op: Op, r: Registers) -> (out: Registers)
    ensures
        out == implied_op(op, r),
{
    let p = r.status_reg;
    match op {
        Op::Clc => Registers { status_reg: Status { carry: false, ..p }, ..r },
        Op::Sec => Registers { status_reg: Status { carry: true, ..p }, ..r },
        Op::Cli => Registers { status_reg: Status { interrupt: false, ..p }, ..r },
        Op::Sei => Registers { status_reg: Status { interrupt: true, ..p }, ..r },
        Op::Cld => Registers { status_reg: Status { decimal: false, ..p }, ..r },
        Op::Sed => Registers { status_reg: Status { decimal: true, ..p }, ..r },
        Op::Clv => Registers { status_reg: Status { overflow: false, ..p }, ..r },
        Op::Tax => Registers { index_x: r.accumulator, status_reg: p.set_zn(r.accumulator), ..r },
        Op::Tay => Registers { index_y: r.accumulator, status_reg: p.set_zn(r.accumulator), ..r },
        Op::Txa => Registers { accumulator: r.index_x, status_reg: p.set_zn(r.index_x), ..r },
        Op::Tya => Registers { accumulator: r.index_y, status_reg: p.set_zn(r.index_y), ..r },
        Op::Tsx => Registers {
            index_x: r.stack_pointer,
            status_reg: p.set_zn(r.stack_pointer),
            ..r
        },
        Op::Txs => Registers { stack_pointer: r.index_x, ..r },
        Op::Inx => {
            let v = increment(r.index_x);
            Registers { index_x: v, status_reg: p.set_zn(v), ..r }
        },
        Op::Iny => {
            let v = increment(r.index_y);
            Registers { index_y: v, status_reg: p.set_zn(v), ..r }
        },
        Op::Dex => {
            let v = decrement(r.index_x);
            Registers { index_x: v, status_reg: p.set_zn(v), ..r }
        },
        Op::Dey => {
            let v = decrement(r.index_y);
            Registers { index_y: v, status_reg: p.set_zn(v), ..r }
        },
        _ => r,
    }
}

/// Whether the branch `op` is taken under the flags `p`.
pub open spec fn branch_taken(op: Op, p: Status) -> bool {
    match op {
        Op::Bpl => !p.negative,
        Op::Bmi => p.negative,
        Op::Bvc => !p.overflow,
        Op::Bvs => p.overflow,
        Op::Bcc => !p.carry,
        Op::Bcs => p.carry,
        Op::Bne => !p.zero,
        Op::Beq => p.zero,
        _ => false,
    }
}

/// Computes `branch_taken`.
pub fn takes_branch(op: Op, p: Status) -> (taken: bool)
    ensures
        taken == branch_taken(op, p),
{
    match op {
        Op::Bpl => !p.negative,
        Op::Bmi => p.negative,
        Op::Bvc => !p.overflow,
        Op::Bvs => p.overflow,
        Op::Bcc => !p.carry,
        Op::Bcs => p.carry,
        Op::Bne => !p.zero,
        Op::Beq => p.zero,
        _ => false,
    }
}

} // verus!
