//! The flag-computation rules shared by every instruction category, stated
//! once as specifications and computed once by the helpers below.
use vstd::prelude::*;

use super::flags::{
    bit3, bit5, is_set, make_result_flags, pack, pack_flags, parity, result_flags, FLAG_C, FLAG_H,
    FLAG_N,
};
use super::{add8, CpuState};

verus! {

/// The eight accumulator operations, in opcode order.
#[derive(Debug, Clone, Copy, PartialEq, Eq)]
pub enum AluOp {
    Add,
    Adc,
    Sub,
    Sbc,
    And,
    Xor,
    Or,
    Cp,
}

/// The eight rotate and shift operations of the CB table, in opcode order.
#[derive(Debug, Clone, Copy, PartialEq, Eq)]
pub enum ShiftOp {
    Rlc,
    Rrc,
    Rl,
    Rr,
    Sla,
    Sra,
    Sll,
    Srl,
}

pub open spec fn cin(c: bool) -> int {
    if c {
        1
    } else {
        0
    }
}

/// Sign of a byte as a two's complement number.
pub open spec fn neg8(v: u8) -> bool {
    v >= 0x80
}

/// `a + v + carry` modulo 256.
pub open spec fn add_result(a: u8, v: u8, c: bool) -> u8 {
    ((a + v + cin(c)) % 256) as u8
}

/// Flags of an 8-bit addition: H from the low nibbles of the operands,
/// P/V as signed overflow, C as carry out of bit 7.
pub open spec fn add_flags(a: u8, v: u8, c: bool) -> u8 {
    let r = add_result(a, v, c);
    pack_flags(
        neg8(r),
        r == 0,
        bit5(r),
        a % 16 + v % 16 + cin(c) > 15,
        bit3(r),
        neg8(a) == neg8(v) && neg8(r) != neg8(a),
        false,
        a + v + cin(c) > 255,
    )
}

/// `a - v - carry` modulo 256.
pub open spec fn sub_result(a: u8, v: u8, c: bool) -> u8 {
    ((a - v - cin(c)) % 256) as u8
}

/// Flags of an 8-bit subtraction: H as borrow from bit 4, P/V as signed
/// overflow, C as borrow.
pub open spec fn sub_flags(a: u8, v: u8, c: bool) -> u8 {
    let r = sub_result(a, v, c);
    pack_flags(
        neg8(r),
        r == 0,
        bit5(r),
        a % 16 < v % 16 + cin(c),
        bit3(r),
        neg8(a) != neg8(v) && neg8(r) != neg8(a),
        true,
        a < v + cin(c),
    )
}

/// The accumulator after `op` with operand `v` and flags `f`.
pub open spec fn alu_result(op: AluOp, a: u8, v: u8, f: u8) -> u8 {
    match op {
        AluOp::Add => add_result(a, v, false),
        AluOp::Adc => add_result(a, v, is_set(f, FLAG_C)),
        AluOp::Sub => sub_result(a, v, false),
        AluOp::Sbc => sub_result(a, v, is_set(f, FLAG_C)),
        AluOp::And => a & v,
        AluOp::Xor => a ^ v,
        AluOp::Or => a | v,
        AluOp::Cp => a,
    }
}

/// The flags after `op`; CP sets them as SUB does.
pub open spec fn alu_flags(op: AluOp, a: u8, v: u8, f: u8) -> u8 {
    match op {
        AluOp::Add => add_flags(a, v, false),
        AluOp::Adc => add_flags(a, v, is_set(f, FLAG_C)),
        AluOp::Sub => sub_flags(a, v, false),
        AluOp::Sbc => sub_flags(a, v, is_set(f, FLAG_C)),
        AluOp::And => result_flags(a & v, true, false, false),
        AluOp::Xor => result_flags(a ^ v, false, false, false),
        AluOp::Or => result_flags(a | v, false, false, false),
        AluOp::Cp => sub_flags(a, v, false),
    }
}

/// The state after an accumulator operation.
pub open spec fn alu_spec(s: CpuState, op: AluOp, v: u8) -> CpuState {
    CpuState { a: alu_result(op, s.a, v, s.f), f: alu_flags(op, s.a, v, s.f), ..s }
}

pub open spec fn inc_result(v: u8) -> u8 {
    add8(v, 1)
}

/// Flags of an 8-bit increment; C is kept.
pub open spec fn inc_flags(v: u8, f: u8) -> u8 {
    let r = inc_result(v);
    pack_flags(neg8(r), r == 0, bit5(r), v % 16 == 15, bit3(r), v == 0x7F, false, is_set(f, FLAG_C))
}

pub open spec fn dec_result(v: u8) -> u8 {
    add8(v, -1)
}

/// Flags of an 8-bit decrement; C is kept.
pub open spec fn dec_flags(v: u8, f: u8) -> u8 {
    let r = dec_result(v);
    pack_flags(neg8(r), r == 0, bit5(r), v % 16 == 0, bit3(r), v == 0x80, true, is_set(f, FLAG_C))
}

/// The value after a rotate or shift; RL and RR take the carry in.
pub open spec fn shift_result(op: ShiftOp, v: u8, f: u8) -> u8 {
    match op {
        ShiftOp::Rlc => (v << 1u8) | (v >> 7u8),
        ShiftOp::Rrc => (v >> 1u8) | (v << 7u8),
        ShiftOp::Rl => (v << 1u8) | (if is_set(f, FLAG_C) {
            1u8
        } else {
            0u8
        }),
        ShiftOp::Rr => (v >> 1u8) | (if is_set(f, FLAG_C) {
            0x80u8
        } else {
            0u8
        }),
        ShiftOp::Sla => v << 1u8,
        ShiftOp::Sra => (v >> 1u8) | (v & 0x80u8),
        ShiftOp::Sll => (v << 1u8) | 1u8,
        ShiftOp::Srl => v >> 1u8,
    }
}

/// The bit shifted out, which becomes the carry.
pub open spec fn shift_carry(op: ShiftOp, v: u8) -> bool {
    match op {
        ShiftOp::Rlc | ShiftOp::Rl | ShiftOp::Sla | ShiftOp::Sll => v >= 0x80,
        _ => v % 2 == 1,
    }
}

/// Flags of a CB-table rotate or shift: S, Z, Y, X and parity from the
/// result, H and N clear, C the bit shifted out.
pub open spec fn shift_flags(op: ShiftOp, v: u8, f: u8) -> u8 {
    result_flags(shift_result(op, v, f), false, false, shift_carry(op, v))
}

/// Flags of the accumulator rotates RLCA, RRCA, RLA and RRA: S, Z and P/V
/// kept, H and N clear, Y and X from the result, C the bit shifted out.
pub open spec fn acc_shift_flags(op: ShiftOp, v: u8, f: u8) -> u8 {
    let r = shift_result(op, v, f);
    pack_flags(is_set(f, 0x80), is_set(f, 0x40), bit5(r), false, bit3(r), is_set(f, 0x04), false, shift_carry(op, v))
}

/// Flags of BIT `b`: Z and P/V when the bit is clear, S when bit 7 is set and
/// tested, H set, N clear, Y and X from the tested value, C kept.
pub open spec fn bit_flags(b: u8, v: u8, f: u8) -> u8 {
    let clear = v & (1u8 << b) == 0;
    pack_flags(b == 7 && !clear, clear, bit5(v), true, bit3(v), clear, false, is_set(f, FLAG_C))
}

/// Whether DAA corrects the low digit.
pub open spec fn daa_low(a: u8, f: u8) -> bool {
    is_set(f, FLAG_H) || a % 16 > 9
}

/// Whether DAA corrects the high digit; this is also the new carry.
pub open spec fn daa_high(a: u8, f: u8) -> bool {
    is_set(f, FLAG_C) || a > 0x99
}

pub open spec fn daa_adjust(a: u8, f: u8) -> int {
    (if daa_low(a, f) {
        6int
    } else {
        0
    }) + (if daa_high(a, f) {
        0x60int
    } else {
        0
    })
}

/// The accumulator after decimal adjustment.
pub open spec fn daa_result(a: u8, f: u8) -> u8 {
    if is_set(f, FLAG_N) {
        add8(a, -daa_adjust(a, f))
    } else {
        add8(a, daa_adjust(a, f))
    }
}

/// Flags after DAA: H clear, N kept, C set when the high digit was corrected.
pub open spec fn daa_flags(a: u8, f: u8) -> u8 {
    let r = daa_result(a, f);
    pack_flags(neg8(r), r == 0, bit5(r), false, bit3(r), parity(r), is_set(f, FLAG_N), daa_high(a, f))
}

/// Adds with carry and returns the result and its flags.
pub fn add8_with_flags(a: u8, v: u8, c: bool) -> (res: (u8, u8))
    ensures
        res.0 == add_result(a, v, c),
        res.1 == add_flags(a, v, c),
{
    let carry: u16 = if c {
        1
    } else {
        0
    };
    let sum: u16 = a as u16 + v as u16 + carry;
    let r = (sum % 256) as u8;
    let h = (a % 16) as u16 + (v % 16) as u16 + carry > 15;
    let ov = (a >= 0x80) == (v >= 0x80) && (r >= 0x80) != (a >= 0x80);
    (r, pack(r >= 0x80, r == 0, r & 0x20 != 0, h, r & 0x08 != 0, ov, false, sum > 255))
}

/// Subtracts with borrow and returns the result and its flags.
pub fn sub8_with_flags(a: u8, v: u8, c: bool) -> (res: (u8, u8))
    ensures
        res.0 == sub_result(a, v, c),
        res.1 == sub_flags(a, v, c),
{
    let borrow: i16 = if c {
        1
    } else {
        0
    };
    let diff: i16 = a as i16 - v as i16 - borrow;
    let r: u8 = if diff < 0 {
        (diff + 256) as u8
    } else {
        diff as u8
    };
    let h = ((a % 16) as i16) < (v % 16) as i16 + borrow;
    let ov = (a >= 0x80) != (v >= 0x80) && (r >= 0x80) != (a >= 0x80);
    (r, pack(r >= 0x80, r == 0, r & 0x20 != 0, h, r & 0x08 != 0, ov, true, diff < 0))
}

/// Result and flags of an accumulator operation.
pub fn alu8(op: AluOp, a: u8, v: u8, f: u8) -> (res: (u8, u8))
    ensures
        res.0 == alu_result(op, a, v, f),
        res.1 == alu_flags(op, a, v, f),
{
    let c = f & FLAG_C != 0;
    match op {
        AluOp::Add => add8_with_flags(a, v, false),
        AluOp::Adc => add8_with_flags(a, v, c),
        AluOp::Sub => sub8_with_flags(a, v, false),
        AluOp::Sbc => sub8_with_flags(a, v, c),
        AluOp::And => (a & v, make_result_flags(a & v, true, false, false)),
        AluOp::Xor => (a ^ v, make_result_flags(a ^ v, false, false, false)),
        AluOp::Or => (a | v, make_result_flags(a | v, false, false, false)),
        AluOp::Cp => (a, sub8_with_flags(a, v, false).1),
    }
}

/// Result of a rotate or shift.
pub fn shift8(op: ShiftOp, v: u8, f: u8) -> (r: u8)
    ensures
        r == shift_result(op, v, f),
{
    let c = f & FLAG_C != 0;
    match op {
        ShiftOp::Rlc => (v << 1u8) | (v >> 7u8),
        ShiftOp::Rrc => (v >> 1u8) | (v << 7u8),
        ShiftOp::Rl => (v << 1u8) | (if c {
            1u8
        } else {
            0u8
        }),
        ShiftOp::Rr => (v >> 1u8) | (if c {
            0x80u8
        } else {
            0u8
        }),
        ShiftOp::Sla => v << 1u8,
        ShiftOp::Sra => (v >> 1u8) | (v & 0x80u8),
        ShiftOp::Sll => (v << 1u8) | 1u8,
        ShiftOp::Srl => v >> 1u8,
    }
}

/// The bit a rotate or shift moves out.
pub fn shift_carry_out(op: ShiftOp, v: u8) -> (c: bool)
    ensures
        c == shift_carry(op, v),
{
    match op {
        ShiftOp::Rlc | ShiftOp::Rl | ShiftOp::Sla | ShiftOp::Sll => v >= 0x80,
        _ => v % 2 == 1,
    }
}

/// Flags of BIT `b` on `v`.
pub fn bit_test_flags(b: u8, v: u8, f: u8) -> (r: u8)
    requires
        b < 8,
    ensures
        r == bit_flags(b, v, f),
{
    let clear = v & (1u8 << b) == 0;
    pack(b == 7 && !clear, clear, v & 0x20 != 0, true, v & 0x08 != 0, clear, false, f & FLAG_C != 0)
}

/// Incrementing and then decrementing a byte gives it back, for all 256 values.
pub proof fn lemma_inc_dec(v: u8)
    ensures
        dec_result(inc_result(v)) == v,
        inc_result(dec_result(v)) == v,
{
}


/// After AND, OR and XOR, P/V holds exactly when the result has an even
/// number of one bits.
pub proof fn lemma_logic_parity(op: AluOp, a: u8, v: u8, f: u8)
    requires
        op == AluOp::And || op == AluOp::Or || op == AluOp::Xor,
    ensures
        is_set(alu_flags(op, a, v, f), super::flags::FLAG_PV) == parity(alu_result(op, a, v, f)),
{
    let r = alu_result(op, a, v, f);
    super::flags::lemma_pack_flags(neg8(r), r == 0, bit5(r), op == AluOp::And, bit3(r), parity(r), false, false);
}

/// After a CB-table rotate or shift, P/V holds exactly when the result has
/// an even number of one bits.
pub proof fn lemma_shift_parity(op: ShiftOp, v: u8, f: u8)
    ensures
        is_set(shift_flags(op, v, f), super::flags::FLAG_PV) == parity(shift_result(op, v, f)),
{
    let r = shift_result(op, v, f);
    super::flags::lemma_pack_flags(neg8(r), r == 0, bit5(r), false, bit3(r), parity(r), false, shift_carry(op, v));
}

} // verus!
