//! AND, OR, XOR and CP against the accumulator.
use vstd::prelude::*;

use super::alu::{alu_spec, AluOp};
use super::Cpu;

verus! {

impl Cpu {
    /// AND value: H set, N and C clear, P/V as parity.
    pub fn and_a(&mut self, value: u8)
        ensures
            final(self)@ == alu_spec(old(self)@, AluOp::And, value),
    {
        self.alu(AluOp::And, value);
    }

    /// OR value: H, N and C clear, P/V as parity.
    pub fn or_a(&mut self, value: u8)
        ensures
            final(self)@ == alu_spec(old(self)@, AluOp::Or, value),
    {
        self.alu(AluOp::Or, value);
    }

    /// XOR value: H, N and C clear, P/V as parity.
    pub fn xor_a(&mut self, value: u8)
        ensures
            final(self)@ == alu_spec(old(self)@, AluOp::Xor, value),
    {
        self.alu(AluOp::Xor, value);
    }

    /// CP value: the flags of A - value; A is unchanged.
    pub fn cp_a(&mut self, value: u8)
        ensures
            final(self)@ == alu_spec(old(self)@, AluOp::Cp, value),
            final(self).a == old(self).a,
    {
        self.alu(AluOp::Cp, value);
    }
}

} // verus!
