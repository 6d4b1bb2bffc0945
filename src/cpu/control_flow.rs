//! Jumps, calls, returns, restarts and DJNZ. Conditions arrive already
//! resolved; PC is expected to point past the instruction already.
use vstd::prelude::*;

use super::registers::displaced;
use super::{pop_spec, push_spec, top, Cpu, CpuState};

verus! {

/// The state after CALL to `address` when taken: the current PC pushed.
pub open spec fn call_spec(s: CpuState, address: u16) -> CpuState {
    CpuState { pc: address, ..push_spec(s, s.pc) }
}

/// The state after a taken RET: PC popped from the stack.
pub open spec fn ret_spec(s: CpuState) -> CpuState {
    CpuState { pc: top(s), ..pop_spec(s) }
}

impl Cpu {
    /// JP: jumps to `address` when `condition` holds.
    pub fn jp(&mut self, condition: bool, address: u16)
        ensures
            final(self)@ == (if condition {
                CpuState { pc: address, ..old(self)@ }
            } else {
                old(self)@
            }),
    {
        if condition {
            self.pc = address;
        }
    }

    /// JR: adds the signed `offset` to PC when `condition` holds.
    pub fn jr(&mut self, condition: bool, offset: i8)
        ensures
            final(self)@ == (if condition {
                CpuState { pc: displaced(old(self).pc, offset), ..old(self)@ }
            } else {
                old(self)@
            }),
    {
        if condition {
            self.pc = self.pc.wrapping_add_signed(offset as i16);
        }
    }

    /// CALL: pushes PC and jumps to `address` when `condition` holds.
    pub fn call(&mut self, condition: bool, address: u16)
        ensures
            final(self)@ == (if condition {
                call_spec(old(self)@, address)
            } else {
                old(self)@
            }),
    {
        if condition {
            let pc = self.pc;
            self.push(pc);
            self.pc = address;
        }
    }

    /// RET: pops PC when `condition` holds.
    pub fn ret(&mut self, condition: bool)
        ensures
            final(self)@ == (if condition {
                ret_spec(old(self)@)
            } else {
                old(self)@
            }),
    {
        if condition {
            self.pc = self.pop();
        }
    }

    /// RST: pushes PC and jumps to the page-zero `address`.
    pub fn rst(&mut self, address: u8)
        ensures
            final(self)@ == call_spec(old(self)@, address as u16),
    {
        let pc = self.pc;
        self.push(pc);
        self.pc = address as u16;
    }

    /// DJNZ: decrements B, then jumps by `offset` when B is not zero.
    pub fn djnz(&mut self, offset: i8)
        ensures
            final(self).b == (if old(self).b == 0 { 255 } else { old(self).b - 1 }),
            final(self)@ == (CpuState {
                b: final(self).b,
                pc: if final(self).b != 0 {
                    displaced(old(self).pc, offset)
                } else {
                    old(self).pc
                },
                ..old(self)@
            }),
    {
        self.b = self.b.wrapping_sub(1);
        if self.b != 0 {
            self.pc = self.pc.wrapping_add_signed(offset as i16);
        }
    }
}

} // verus!
