//! Undocumented instructions that real software relies on: SLL, the IX/IY
//! half registers, IN F,(C) and OUT (C),0.
use vstd::prelude::*;

use super::alu::{alu_spec, inc_flags, inc_result, shift_flags, shift_result, AluOp, ShiftOp};
use super::flags::{is_set, result_flags, FLAG_C, FLAG_N};
use super::io::port_addr;
use super::registers::{reg, Register};
use super::{hi, lo, pair, rd8, with_f, Cpu, CpuState};

verus! {

/// `v` with its high byte replaced.
pub open spec fn with_hi(v: u16, h: u8) -> u16 {
    pair(h, lo(v))
}

/// `v` with its low byte replaced.
pub open spec fn with_lo(v: u16, l: u8) -> u16 {
    pair(hi(v), l)
}

impl Cpu {
    /// SLL: shift left with one into bit 0.
    pub fn sll(&mut self, value: u8) -> (r: u8)
        ensures
            r == shift_result(ShiftOp::Sll, value, old(self).f),
            final(self)@ == with_f(old(self)@, shift_flags(ShiftOp::Sll, value, old(self).f)),
    {
        self.shift(ShiftOp::Sll, value)
    }

    /// Sets N to bit 3 of a register.
    pub fn set_n_flag_bit3(&mut self, reg: Register)
        ensures
            final(self)@ == with_f(
                old(self)@,
                if self::reg(old(self)@, reg) & 0x08 != 0 {
                    old(self).f | FLAG_N
                } else {
                    old(self).f & !FLAG_N
                },
            ),
    {
        let value = self.read_register(reg);
        self.set_flag(FLAG_N, value & 0x08 != 0);
    }

    /// Sets N to bit 5 of a register.
    pub fn set_n_flag_bit5(&mut self, reg: Register)
        ensures
            final(self)@ == with_f(
                old(self)@,
                if self::reg(old(self)@, reg) & 0x20 != 0 {
                    old(self).f | FLAG_N
                } else {
                    old(self).f & !FLAG_N
                },
            ),
    {
        let value = self.read_register(reg);
        self.set_flag(FLAG_N, value & 0x20 != 0);
    }

    pub fn ld_a_ixh(&mut self)
        ensures
            final(self)@ == (CpuState { a: hi(old(self).ix), ..old(self)@ }),
    {
        self.a = (self.ix / 256) as u8;
    }

    pub fn ld_a_ixl(&mut self)
        ensures
            final(self)@ == (CpuState { a: lo(old(self).ix), ..old(self)@ }),
    {
        self.a = (self.ix % 256) as u8;
    }

    pub fn ld_a_iyh(&mut self)
        ensures
            final(self)@ == (CpuState { a: hi(old(self).iy), ..old(self)@ }),
    {
        self.a = (self.iy / 256) as u8;
    }

    pub fn ld_a_iyl(&mut self)
        ensures
            final(self)@ == (CpuState { a: lo(old(self).iy), ..old(self)@ }),
    {
        self.a = (self.iy % 256) as u8;
    }

    pub fn ld_ixh_n(&mut self, value: u8)
        ensures
            final(self)@ == (CpuState { ix: with_hi(old(self).ix, value), ..old(self)@ }),
    {
        self.ix = (value as u16) * 256 + self.ix % 256;
    }

    pub fn ld_ixl_n(&mut self, value: u8)
        ensures
            final(self)@ == (CpuState { ix: with_lo(old(self).ix, value), ..old(self)@ }),
    {
        self.ix = (self.ix / 256) * 256 + value as u16;
    }

    pub fn ld_iyh_n(&mut self, value: u8)
        ensures
            final(self)@ == (CpuState { iy: with_hi(old(self).iy, value), ..old(self)@ }),
    {
        self.iy = (value as u16) * 256 + self.iy % 256;
    }

    pub fn ld_iyl_n(&mut self, value: u8)
        ensures
            final(self)@ == (CpuState { iy: with_lo(old(self).iy, value), ..old(self)@ }),
    {
        self.iy = (self.iy / 256) * 256 + value as u16;
    }

    /// IN F,(C): sets the flags from the port byte and discards it.
    pub fn in_f_c(&mut self)
        ensures
            final(self)@ == with_f(
                old(self)@,
                result_flags(rd8(old(self)@.mem, port_addr(old(self).c)), false, false, is_set(old(self).f, FLAG_C)),
            ),
    {
        let value = self.read_byte(0xFF00 + self.c as u16);
        self.f = super::flags::make_result_flags(value, false, false, self.f & FLAG_C != 0);
    }

    /// OUT (C),0.
    pub fn out_c_0(&mut self)
        ensures
            final(self)@ == (CpuState { mem: old(self)@.mem.update(port_addr(old(self).c) as int, 0), ..old(self)@ }),
    {
        let address = 0xFF00 + self.c as u16;
        self.write_byte(address, 0);
    }

    pub fn ld_hl_ix(&mut self)
        ensures
            final(self)@ == (CpuState { h: hi(old(self).ix), l: lo(old(self).ix), ..old(self)@ }),
    {
        self.h = (self.ix / 256) as u8;
        self.l = (self.ix % 256) as u8;
    }

    pub fn ld_hl_iy(&mut self)
        ensures
            final(self)@ == (CpuState { h: hi(old(self).iy), l: lo(old(self).iy), ..old(self)@ }),
    {
        self.h = (self.iy / 256) as u8;
        self.l = (self.iy % 256) as u8;
    }

    pub fn ld_ix_hl(&mut self)
        ensures
            final(self)@ == (CpuState { ix: pair(old(self).h, old(self).l), ..old(self)@ }),
    {
        self.ix = self.get_hl();
    }

    pub fn ld_iy_hl(&mut self)
        ensures
            final(self)@ == (CpuState { iy: pair(old(self).h, old(self).l), ..old(self)@ }),
    {
        self.iy = self.get_hl();
    }

    pub fn cp_ixh(&mut self)
        ensures
            final(self)@ == alu_spec(old(self)@, AluOp::Cp, hi(old(self).ix)),
    {
        let value = (self.ix / 256) as u8;
        self.cp_a(value);
    }

    pub fn cp_ixl(&mut self)
        ensures
            final(self)@ == alu_spec(old(self)@, AluOp::Cp, lo(old(self).ix)),
    {
        let value = (self.ix % 256) as u8;
        self.cp_a(value);
    }

    pub fn cp_iyh(&mut self)
        ensures
            final(self)@ == alu_spec(old(self)@, AluOp::Cp, hi(old(self).iy)),
    {
        let value = (self.iy / 256) as u8;
        self.cp_a(value);
    }

    pub fn cp_iyl(&mut self)
        ensures
            final(self)@ == alu_spec(old(self)@, AluOp::Cp, lo(old(self).iy)),
    {
        let value = (self.iy % 256) as u8;
        self.cp_a(value);
    }

    pub fn inc_ixh(&mut self)
        ensures
            final(self)@ == (CpuState {
                ix: with_hi(old(self).ix, inc_result(hi(old(self).ix))),
                f: inc_flags(hi(old(self).ix), old(self).f),
                ..old(self)@
            }),
    {
        let value = (self.ix / 256) as u8;
        let result = self.inc(value);
        self.ix = (result as u16) * 256 + self.ix % 256;
    }

    pub fn inc_ixl(&mut self)
        ensures
            final(self)@ == (CpuState {
                ix: with_lo(old(self).ix, inc_result(lo(old(self).ix))),
                f: inc_flags(lo(old(self).ix), old(self).f),
                ..old(self)@
            }),
    {
        let value = (self.ix % 256) as u8;
        let result = self.inc(value);
        self.ix = (self.ix / 256) * 256 + result as u16;
    }

    pub fn inc_iyh(&mut self)
        ensures
            final(self)@ == (CpuState {
                iy: with_hi(old(self).iy, inc_result(hi(old(self).iy))),
                f: inc_flags(hi(old(self).iy), old(self).f),
                ..old(self)@
            }),
    {
        let value = (self.iy / 256) as u8;
        let result = self.inc(value);
        self.iy = (result as u16) * 256 + self.iy % 256;
    }

    pub fn inc_iyl(&mut self)
        ensures
            final(self)@ == (CpuState {
                iy: with_lo(old(self).iy, inc_result(lo(old(self).iy))),
                f: inc_flags(lo(old(self).iy), old(self).f),
                ..old(self)@
            }),
    {
        let value = (self.iy % 256) as u8;
        let result = self.inc(value);
        self.iy = (self.iy / 256) * 256 + result as u16;
    }
}

} // verus!
