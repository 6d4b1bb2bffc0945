//! Loads, stack transfers and exchanges with the top of the stack.
use vstd::prelude::*;

use super::registers::{reg, reg16, with_reg, with_reg16, Register, RegisterPair};
use super::{bc, de, hl, pop_spec, push_spec, rd16, rd8, top, with_hl, wr16, Cpu, CpuState};

verus! {

/// The state after `POP rr`.
pub open spec fn pop_rr_spec(s: CpuState, p: RegisterPair) -> CpuState {
    with_reg16(pop_spec(s), p, top(s))
}

/// The state after exchanging a 16-bit value `v` with the top of the stack;
/// `set` puts the old top where `v` came from.
pub open spec fn ex_sp_mem(s: CpuState, v: u16) -> Seq<u8> {
    wr16(s.mem, s.sp, v)
}

impl Cpu {
    /// LD dest,src.
    pub fn ld_r_r(&mut self, dest: Register, src: Register)
        ensures
            final(self)@ == with_reg(old(self)@, dest, reg(old(self)@, src)),
    {
        let value = self.read_register(src);
        self.write_register(dest, value);
    }

    /// LD reg,n.
    pub fn ld_r_n(&mut self, reg: Register, value: u8)
        ensures
            final(self)@ == with_reg(old(self)@, reg, value),
    {
        self.write_register(reg, value);
    }

    /// LD reg,(HL).
    pub fn ld_r_hl(&mut self, reg: Register)
        ensures
            final(self)@ == with_reg(old(self)@, reg, rd8(old(self)@.mem, hl(old(self)@))),
    {
        let address = self.get_hl();
        let value = self.read_byte(address);
        self.write_register(reg, value);
    }

    /// LD (HL),reg.
    pub fn ld_hl_r(&mut self, reg: Register)
        ensures
            final(self)@ == (CpuState {
                mem: old(self)@.mem.update(hl(old(self)@) as int, self::reg(old(self)@, reg)),
                ..old(self)@
            }),
    {
        let address = self.get_hl();
        let value = self.read_register(reg);
        self.write_byte(address, value);
    }

    /// LD (HL),n.
    pub fn ld_hl_n(&mut self, value: u8)
        ensures
            final(self)@ == (CpuState {
                mem: old(self)@.mem.update(hl(old(self)@) as int, value),
                ..old(self)@
            }),
    {
        let address = self.get_hl();
        self.write_byte(address, value);
    }

    /// LD A,(BC).
    pub fn ld_a_bc(&mut self)
        ensures
            final(self)@ == (CpuState { a: rd8(old(self)@.mem, bc(old(self)@)), ..old(self)@ }),
    {
        let address = self.get_bc();
        self.a = self.read_byte(address);
    }

    /// LD A,(DE).
    pub fn ld_a_de(&mut self)
        ensures
            final(self)@ == (CpuState { a: rd8(old(self)@.mem, de(old(self)@)), ..old(self)@ }),
    {
        let address = self.get_de();
        self.a = self.read_byte(address);
    }

    /// LD (BC),A.
    pub fn ld_bc_a(&mut self)
        ensures
            final(self)@ == (CpuState {
                mem: old(self)@.mem.update(bc(old(self)@) as int, old(self).a),
                ..old(self)@
            }),
    {
        let address = self.get_bc();
        let a = self.a;
        self.write_byte(address, a);
    }

    /// LD (DE),A.
    pub fn ld_de_a(&mut self)
        ensures
            final(self)@ == (CpuState {
                mem: old(self)@.mem.update(de(old(self)@) as int, old(self).a),
                ..old(self)@
            }),
    {
        let address = self.get_de();
        let a = self.a;
        self.write_byte(address, a);
    }

    /// LD (nn),A.
    pub fn ld_nn_a(&mut self, address: u16)
        ensures
            final(self)@ == (CpuState {
                mem: old(self)@.mem.update(address as int, old(self).a),
                ..old(self)@
            }),
    {
        let a = self.a;
        self.write_byte(address, a);
    }

    /// LD A,(nn).
    pub fn ld_a_nn(&mut self, address: u16)
        ensures
            final(self)@ == (CpuState { a: rd8(old(self)@.mem, address), ..old(self)@ }),
    {
        self.a = self.read_byte(address);
    }

    /// LD rr,nn.
    pub fn ld_rr_nn(&mut self, reg_pair: RegisterPair, value: u16)
        ensures
            final(self)@ == with_reg16(old(self)@, reg_pair, value),
    {
        self.write_register_pair(reg_pair, value);
    }

    /// LD rr,(nn): loads a 16-bit register from memory.
    pub fn ld_rr_mem(&mut self, reg_pair: RegisterPair, address: u16)
        ensures
            final(self)@ == with_reg16(old(self)@, reg_pair, rd16(old(self)@.mem, address)),
    {
        let value = self.read_word(address);
        self.write_register_pair(reg_pair, value);
    }

    /// LD SP,HL.
    pub fn ld_sp_hl(&mut self)
        ensures
            final(self)@ == (CpuState { sp: hl(old(self)@), ..old(self)@ }),
    {
        self.sp = self.get_hl();
    }

    /// LD SP,IX.
    pub fn ld_sp_ix(&mut self)
        ensures
            final(self)@ == (CpuState { sp: old(self).ix, ..old(self)@ }),
    {
        self.sp = self.ix;
    }

    /// LD SP,IY.
    pub fn ld_sp_iy(&mut self)
        ensures
            final(self)@ == (CpuState { sp: old(self).iy, ..old(self)@ }),
    {
        self.sp = self.iy;
    }

    /// PUSH rr.
    pub fn push_rr(&mut self, reg_pair: RegisterPair)
        ensures
            final(self)@ == push_spec(old(self)@, reg16(old(self)@, reg_pair)),
    {
        let value = self.read_register_pair(reg_pair);
        self.push(value);
    }

    /// PUSH IX.
    pub fn push_ix(&mut self)
        ensures
            final(self)@ == push_spec(old(self)@, old(self).ix),
    {
        let value = self.ix;
        self.push(value);
    }

    /// PUSH IY.
    pub fn push_iy(&mut self)
        ensures
            final(self)@ == push_spec(old(self)@, old(self).iy),
    {
        let value = self.iy;
        self.push(value);
    }

    /// POP rr.
    pub fn pop_rr(&mut self, reg_pair: RegisterPair)
        ensures
            final(self)@ == pop_rr_spec(old(self)@, reg_pair),
    {
        let value = self.pop();
        self.write_register_pair(reg_pair, value);
    }

    /// POP IX.
    pub fn pop_ix(&mut self)
        ensures
            final(self)@ == pop_rr_spec(old(self)@, RegisterPair::IX),
    {
        self.ix = self.pop();
    }

    /// POP IY.
    pub fn pop_iy(&mut self)
        ensures
            final(self)@ == pop_rr_spec(old(self)@, RegisterPair::IY),
    {
        self.iy = self.pop();
    }

    /// LD (nn),SP.
    pub fn ld_nn_sp(&mut self, address: u16)
        ensures
            final(self)@ == (CpuState { mem: wr16(old(self)@.mem, address, old(self).sp), ..old(self)@ }),
    {
        let v = self.sp;
        self.write_word(address, v);
    }

    /// LD (nn),HL.
    pub fn ld_nn_hl(&mut self, address: u16)
        ensures
            final(self)@ == (CpuState {
                mem: wr16(old(self)@.mem, address, hl(old(self)@)),
                ..old(self)@
            }),
    {
        let v = self.get_hl();
        self.write_word(address, v);
    }

    /// LD (nn),IX.
    pub fn ld_nn_ix(&mut self, address: u16)
        ensures
            final(self)@ == (CpuState { mem: wr16(old(self)@.mem, address, old(self).ix), ..old(self)@ }),
    {
        let v = self.ix;
        self.write_word(address, v);
    }

    /// LD (nn),IY.
    pub fn ld_nn_iy(&mut self, address: u16)
        ensures
            final(self)@ == (CpuState { mem: wr16(old(self)@.mem, address, old(self).iy), ..old(self)@ }),
    {
        let v = self.iy;
        self.write_word(address, v);
    }

    /// EX (SP),HL.
    pub fn ex_sp_hl(&mut self)
        ensures
            final(self)@ == with_hl(
                CpuState { mem: ex_sp_mem(old(self)@, hl(old(self)@)), ..old(self)@ },
                top(old(self)@),
            ),
    {
        let temp = self.read_word(self.sp);
        let v = self.get_hl();
        let sp = self.sp;
        self.write_word(sp, v);
        self.set_hl(temp);
    }

    /// EX (SP),IX.
    pub fn ex_sp_ix(&mut self)
        ensures
            final(self)@ == (CpuState { ix: top(old(self)@), mem: ex_sp_mem(old(self)@, old(self).ix), ..old(self)@ }),
    {
        let temp = self.read_word(self.sp);
        let v = self.ix;
        let sp = self.sp;
        self.write_word(sp, v);
        self.ix = temp;
    }

    /// EX (SP),IY.
    pub fn ex_sp_iy(&mut self)
        ensures
            final(self)@ == (CpuState { iy: top(old(self)@), mem: ex_sp_mem(old(self)@, old(self).iy), ..old(self)@ }),
    {
        let temp = self.read_word(self.sp);
        let v = self.iy;
        let sp = self.sp;
        self.write_word(sp, v);
        self.iy = temp;
    }
}

/// PUSH rr followed by POP rr restores the pair and SP.
pub proof fn lemma_push_pop_round_trip(s: CpuState, p: RegisterPair)
    requires
        s.mem.len() == 65536,
    ensures
        reg16(pop_rr_spec(push_spec(s, reg16(s, p)), p), p) == reg16(s, p),
        pop_rr_spec(push_spec(s, reg16(s, p)), p).sp == s.sp,
{
    let v = reg16(s, p);
    super::lemma_rd16_wr16(s.mem, super::add16(s.sp, -2), v);
    super::registers::lemma_reg16_round_trip(pop_spec(push_spec(s, v)), p, v);
}

} // verus!
