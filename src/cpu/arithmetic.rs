//! 8-bit arithmetic: ADD, ADC, SUB, SBC, INC, DEC, DAA, NEG, and the flag
//! helpers they share.
use vstd::prelude::*;

use super::alu::{
    add_flags, alu8, alu_spec, daa_flags, daa_result, dec_flags, dec_result, inc_flags, inc_result,
    sub_flags, AluOp,
};
use super::flags::{even_parity, flag_bit, pack, parity, FLAG_C, FLAG_H, FLAG_N, FLAG_PV, FLAG_S, FLAG_Z};
use super::{with_f, Cpu, CpuState};

verus! {

/// The state after NEG: the accumulator subtracted from zero.
pub open spec fn neg_spec(s: CpuState) -> CpuState {
    alu_spec(CpuState { a: 0, ..s }, AluOp::Sub, s.a)
}

/// The individual flag rules, one flag at a time.
pub trait FlagUtils {
    /// S from bit 7 of `result`.
    fn update_sign_flag(&mut self, result: u8);

    /// Z when `result` is zero.
    fn update_zero_flag(&mut self, result: u8);

    /// P/V when `result` has even parity.
    fn update_parity_flag(&mut self, result: u8);

    /// C when a widened 8-bit `result` does not fit in 8 bits.
    fn update_carry_flag(&mut self, result: u16);

    /// H when `a + b + carry` carries out of bit 3.
    fn update_half_carry_flag(&mut self, a: u8, b: u8, carry: bool);

    /// P/V when adding `a` and `b` to give `result` overflows as signed bytes.
    fn update_overflow_flag(&mut self, a: u8, b: u8, result: u8);
}

/// `f` with the bits of `mask` set to `on`.
pub open spec fn with_flag(f: u8, mask: u8, on: bool) -> u8 {
    (f & !mask) | flag_bit(on, mask)
}

impl FlagUtils for Cpu {
    fn update_sign_flag(&mut self, result: u8)
        ensures
            final(self)@ == with_f(old(self)@, with_flag(old(self).f, FLAG_S, result >= 0x80)),
    {
        self.f = (self.f & !FLAG_S) | super::flags::flag_byte(result >= 0x80, FLAG_S);
    }

    fn update_zero_flag(&mut self, result: u8)
        ensures
            final(self)@ == with_f(old(self)@, with_flag(old(self).f, FLAG_Z, result == 0)),
    {
        self.f = (self.f & !FLAG_Z) | super::flags::flag_byte(result == 0, FLAG_Z);
    }

    fn update_parity_flag(&mut self, result: u8)
        ensures
            final(self)@ == with_f(old(self)@, with_flag(old(self).f, FLAG_PV, parity(result))),
    {
        self.f = (self.f & !FLAG_PV) | super::flags::flag_byte(even_parity(result), FLAG_PV);
    }

    fn update_carry_flag(&mut self, result: u16)
        ensures
            final(self)@ == with_f(old(self)@, with_flag(old(self).f, FLAG_C, result > 0xFF)),
    {
        self.f = (self.f & !FLAG_C) | super::flags::flag_byte(result > 0xFF, FLAG_C);
    }

    fn update_half_carry_flag(&mut self, a: u8, b: u8, carry: bool)
        ensures
            final(self)@ == with_f(
                old(self)@,
                with_flag(old(self).f, FLAG_H, a % 16 + b % 16 + super::alu::cin(carry) > 15),
            ),
    {
        let c: u8 = if carry {
            1
        } else {
            0
        };
        self.f = (self.f & !FLAG_H) | super::flags::flag_byte(a % 16 + b % 16 + c > 15, FLAG_H);
    }

    fn update_overflow_flag(&mut self, a: u8, b: u8, result: u8)
        ensures
            final(self)@ == with_f(
                old(self)@,
                with_flag(old(self).f, FLAG_PV, (a >= 0x80) == (b >= 0x80) && (a >= 0x80) != (result >= 0x80)),
            ),
    {
        let overflow = (a >= 0x80) == (b >= 0x80) && (a >= 0x80) != (result >= 0x80);
        self.f = (self.f & !FLAG_PV) | super::flags::flag_byte(overflow, FLAG_PV);
    }
}

/// The decimal-adjusted accumulator.
fn daa_value(a: u8, f: u8) -> (r: u8)
    ensures
        r == daa_result(a, f),
{
    let low = f & FLAG_H != 0 || a % 16 > 9;
    let high = f & FLAG_C != 0 || a > 0x99;
    let adjust: u8 = (if low {
        6u8
    } else {
        0u8
    }) + (if high {
        0x60u8
    } else {
        0u8
    });
    assert(adjust as int == super::alu::daa_adjust(a, f));
    if f & FLAG_N != 0 {
        a.wrapping_sub(adjust)
    } else {
        a.wrapping_add(adjust)
    }
}

impl Cpu {
    /// Applies an accumulator operation to A and F.
    pub fn alu(&mut self, op: AluOp, value: u8)
        ensures
            final(self)@ == alu_spec(old(self)@, op, value),
    {
        let (r, f) = alu8(op, self.a, value, self.f);
        self.a = r;
        self.f = f;
    }

    /// ADD A,value.
    pub fn add_a(&mut self, value: u8)
        ensures
            final(self)@ == alu_spec(old(self)@, AluOp::Add, value),
    {
        self.alu(AluOp::Add, value);
    }

    /// ADC A,value: adds the carry flag too.
    pub fn adc_a(&mut self, value: u8)
        ensures
            final(self)@ == alu_spec(old(self)@, AluOp::Adc, value),
    {
        self.alu(AluOp::Adc, value);
    }

    /// SUB value.
    pub fn sub_a(&mut self, value: u8)
        ensures
            final(self)@ == alu_spec(old(self)@, AluOp::Sub, value),
    {
        self.alu(AluOp::Sub, value);
    }

    /// SBC A,value: subtracts the carry flag too.
    pub fn sbc_a(&mut self, value: u8)
        ensures
            final(self)@ == alu_spec(old(self)@, AluOp::Sbc, value),
    {
        self.alu(AluOp::Sbc, value);
    }

    /// Increments `value`, setting the flags of INC; the carry is kept.
    pub fn inc(&mut self, value: u8) -> (r: u8)
        ensures
            r == inc_result(value),
            final(self)@ == with_f(old(self)@, inc_flags(value, old(self).f)),
    {
        let result = value.wrapping_add(1);
        self.f = pack(
            result >= 0x80,
            result == 0,
            result & 0x20 != 0,
            value % 16 == 15,
            result & 0x08 != 0,
            value == 0x7F,
            false,
            self.f & FLAG_C != 0,
        );
        result
    }

    /// Decrements `value`, setting the flags of DEC; the carry is kept.
    pub fn dec(&mut self, value: u8) -> (r: u8)
        ensures
            r == dec_result(value),
            final(self)@ == with_f(old(self)@, dec_flags(value, old(self).f)),
    {
        let result = value.wrapping_sub(1);
        self.f = pack(
            result >= 0x80,
            result == 0,
            result & 0x20 != 0,
            value % 16 == 0,
            result & 0x08 != 0,
            value == 0x80,
            true,
            self.f & FLAG_C != 0,
        );
        result
    }

    /// DAA: corrects A after a BCD addition or subtraction.
    pub fn daa(&mut self)
        ensures
            final(self)@ == (CpuState {
                a: daa_result(old(self).a, old(self).f),
                f: daa_flags(old(self).a, old(self).f),
                ..old(self)@
            }),
    {
        let a = self.a;
        let r = daa_value(a, self.f);
        let high = self.f & FLAG_C != 0 || a > 0x99;
        let n = self.f & FLAG_N != 0;
        self.f = pack(r >= 0x80, r == 0, r & 0x20 != 0, false, r & 0x08 != 0, even_parity(r), n, high);
        self.a = r;
    }

    /// NEG: A becomes 0 - A, with the flags of that subtraction.
    pub fn neg(&mut self)
        ensures
            final(self)@ == neg_spec(old(self)@),
    {
        let a = self.a;
        self.a = 0;
        self.sub_a(a);
    }

    /// Sets S, Z, H, P/V (as overflow), N and C for `a + b + carry`
    /// (`is_add`) or `a - b - carry`.
    pub fn update_arithmetic_flags(&mut self, a: u8, b: u8, carry: bool, is_add: bool)
        ensures
            final(self)@ == with_f(
                old(self)@,
                if is_add {
                    add_flags(a, b, carry)
                } else {
                    sub_flags(a, b, carry)
                },
            ),
    {
        let (_, f) = if is_add {
            super::alu::add8_with_flags(a, b, carry)
        } else {
            super::alu::sub8_with_flags(a, b, carry)
        };
        self.f = f;
    }

    /// Sets S and Z from `result`, keeping the other flags.
    pub fn update_sz_flags(&mut self, result: u8)
        ensures
            final(self)@ == with_f(
                old(self)@,
                (old(self).f & 0x3F) | flag_bit(result >= 0x80, FLAG_S) | flag_bit(result == 0, FLAG_Z),
            ),
    {
        self.f = (self.f & 0x3F) | super::flags::flag_byte(result >= 0x80, FLAG_S)
            | super::flags::flag_byte(result == 0, FLAG_Z);
    }

    /// Sets S, Z and P/V (as parity) from `result`, keeping the other flags.
    pub fn update_szp_flags(&mut self, result: u8)
        ensures
            final(self)@ == with_f(
                old(self)@,
                (old(self).f & 0x3B) | flag_bit(result >= 0x80, FLAG_S) | flag_bit(result == 0, FLAG_Z)
                    | flag_bit(parity(result), FLAG_PV),
            ),
    {
        self.f = (self.f & 0x3B) | super::flags::flag_byte(result >= 0x80, FLAG_S)
            | super::flags::flag_byte(result == 0, FLAG_Z) | super::flags::flag_byte(
            even_parity(result),
            FLAG_PV,
        );
    }
}

} // verus!
