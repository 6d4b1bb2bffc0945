//! BIT, SET, RES and the rotates and shifts.
use vstd::prelude::*;

use super::alu::{
    acc_shift_flags, bit_flags, bit_test_flags, shift8, shift_carry_out, shift_flags,
    shift_result, ShiftOp,
};
use super::flags::{make_result_flags, pack, FLAG_PV, FLAG_S, FLAG_Z};
use super::{with_f, Cpu, CpuState};

verus! {

/// The state after an accumulator rotate (RLCA, RRCA, RLA, RRA).
pub open spec fn acc_shift_spec(s: CpuState, op: ShiftOp) -> CpuState {
    CpuState { a: shift_result(op, s.a, s.f), f: acc_shift_flags(op, s.a, s.f), ..s }
}

impl Cpu {
    /// BIT bit,value: tests a bit without changing the operand.
    pub fn bit(&mut self, bit: u8, value: u8)
        requires
            bit < 8,
        ensures
            final(self)@ == with_f(old(self)@, bit_flags(bit, value, old(self).f)),
    {
        self.f = bit_test_flags(bit, value, self.f);
    }

    /// SET bit: sets a bit of the operand; flags are untouched.
    pub fn set_bit(&mut self, bit: u8, value: &mut u8)
        requires
            bit < 8,
        ensures
            *final(value) == *old(value) | (1u8 << bit),
            final(self)@ == old(self)@,
    {
        *value = *value | (1u8 << bit);
    }

    /// RES bit: clears a bit of the operand; flags are untouched.
    pub fn res_bit(&mut self, bit: u8, value: &mut u8)
        requires
            bit < 8,
        ensures
            *final(value) == *old(value) & !(1u8 << bit),
            final(self)@ == old(self)@,
    {
        *value = *value & !(1u8 << bit);
    }

    /// Applies a CB-table rotate or shift to `value` and sets the flags.
    pub fn shift(&mut self, op: ShiftOp, value: u8) -> (r: u8)
        ensures
            r == shift_result(op, value, old(self).f),
            final(self)@ == with_f(old(self)@, shift_flags(op, value, old(self).f)),
    {
        let result = shift8(op, value, self.f);
        self.f = make_result_flags(result, false, false, shift_carry_out(op, value));
        result
    }

    /// RLC: rotate left, bit 7 into carry and bit 0.
    pub fn rlc(&mut self, value: u8) -> (r: u8)
        ensures
            r == shift_result(ShiftOp::Rlc, value, old(self).f),
            final(self)@ == with_f(old(self)@, shift_flags(ShiftOp::Rlc, value, old(self).f)),
    {
        self.shift(ShiftOp::Rlc, value)
    }

    /// RRC: rotate right, bit 0 into carry and bit 7.
    pub fn rrc(&mut self, value: u8) -> (r: u8)
        ensures
            r == shift_result(ShiftOp::Rrc, value, old(self).f),
            final(self)@ == with_f(old(self)@, shift_flags(ShiftOp::Rrc, value, old(self).f)),
    {
        self.shift(ShiftOp::Rrc, value)
    }

    /// RL: rotate left through the carry.
    pub fn rl(&mut self, value: u8) -> (r: u8)
        ensures
            r == shift_result(ShiftOp::Rl, value, old(self).f),
            final(self)@ == with_f(old(self)@, shift_flags(ShiftOp::Rl, value, old(self).f)),
    {
        self.shift(ShiftOp::Rl, value)
    }

    /// RR: rotate right through the carry.
    pub fn rr(&mut self, value: u8) -> (r: u8)
        ensures
            r == shift_result(ShiftOp::Rr, value, old(self).f),
            final(self)@ == with_f(old(self)@, shift_flags(ShiftOp::Rr, value, old(self).f)),
    {
        self.shift(ShiftOp::Rr, value)
    }

    /// SLA: shift left, zero into bit 0.
    pub fn sla(&mut self, value: u8) -> (r: u8)
        ensures
            r == shift_result(ShiftOp::Sla, value, old(self).f),
            final(self)@ == with_f(old(self)@, shift_flags(ShiftOp::Sla, value, old(self).f)),
    {
        self.shift(ShiftOp::Sla, value)
    }

    /// SRA: shift right, bit 7 kept.
    pub fn sra(&mut self, value: u8) -> (r: u8)
        ensures
            r == shift_result(ShiftOp::Sra, value, old(self).f),
            final(self)@ == with_f(old(self)@, shift_flags(ShiftOp::Sra, value, old(self).f)),
    {
        self.shift(ShiftOp::Sra, value)
    }

    /// SRL: shift right, zero into bit 7.
    pub fn srl(&mut self, value: u8) -> (r: u8)
        ensures
            r == shift_result(ShiftOp::Srl, value, old(self).f),
            final(self)@ == with_f(old(self)@, shift_flags(ShiftOp::Srl, value, old(self).f)),
    {
        self.shift(ShiftOp::Srl, value)
    }

    /// Applies an accumulator rotate: S, Z and P/V are kept.
    pub fn shift_a(&mut self, op: ShiftOp)
        ensures
            final(self)@ == acc_shift_spec(old(self)@, op),
    {
        let v = self.a;
        let r = shift8(op, v, self.f);
        self.f = pack(
            self.f & FLAG_S != 0,
            self.f & FLAG_Z != 0,
            r & 0x20 != 0,
            false,
            r & 0x08 != 0,
            self.f & FLAG_PV != 0,
            false,
            shift_carry_out(op, v),
        );
        self.a = r;
    }

    /// RLCA.
    pub fn rlca(&mut self)
        ensures
            final(self)@ == acc_shift_spec(old(self)@, ShiftOp::Rlc),
    {
        self.shift_a(ShiftOp::Rlc);
    }

    /// RRCA.
    pub fn rrca(&mut self)
        ensures
            final(self)@ == acc_shift_spec(old(self)@, ShiftOp::Rrc),
    {
        self.shift_a(ShiftOp::Rrc);
    }

    /// RLA.
    pub fn rla(&mut self)
        ensures
            final(self)@ == acc_shift_spec(old(self)@, ShiftOp::Rl),
    {
        self.shift_a(ShiftOp::Rl);
    }

    /// RRA.
    pub fn rra(&mut self)
        ensures
            final(self)@ == acc_shift_spec(old(self)@, ShiftOp::Rr),
    {
        self.shift_a(ShiftOp::Rr);
    }
}

} // verus!
