//! 16-bit arithmetic and the IX/IY indexed instructions.
use vstd::prelude::*;

use super::alu::{alu_spec, bit_flags, cin, dec_flags, dec_result, inc_flags, inc_result, shift_flags, shift_result, AluOp, ShiftOp};
use super::flags::{flag_bit, is_set, pack, pack_flags, FLAG_C, FLAG_H, FLAG_X, FLAG_Y};
use super::registers::{displaced, index, reg, reg16, with_reg, with_reg16, IndexRegister, Register, RegisterPair};
use super::{add16, rd8, with_f, Cpu, CpuState};

verus! {

/// Flags of ADD on 16 bits: H from bit 11, C from bit 15, N clear, the rest kept.
pub open spec fn add16_flags(a: u16, b: u16, f: u8) -> u8 {
    (f & 0xEC) | flag_bit(a % 4096 + b % 4096 > 4095, FLAG_H) | flag_bit(a + b > 65535, FLAG_C)
}

pub open spec fn adc16_result(a: u16, b: u16, c: bool) -> u16 {
    ((a + b + cin(c)) % 65536) as u16
}

/// Flags of ADC on 16 bits: S, Z and overflow from the 16-bit result, Y and X kept.
pub open spec fn adc16_flags(a: u16, b: u16, c: bool, f: u8) -> u8 {
    let r = adc16_result(a, b, c);
    pack_flags(
        r >= 0x8000,
        r == 0,
        is_set(f, FLAG_Y),
        a % 4096 + b % 4096 + cin(c) > 4095,
        is_set(f, FLAG_X),
        (a >= 0x8000) == (b >= 0x8000) && (r >= 0x8000) != (a >= 0x8000),
        false,
        a + b + cin(c) > 65535,
    )
}

pub open spec fn sbc16_result(a: u16, b: u16, c: bool) -> u16 {
    ((a - b - cin(c)) % 65536) as u16
}

/// Flags of SBC on 16 bits.
pub open spec fn sbc16_flags(a: u16, b: u16, c: bool, f: u8) -> u8 {
    let r = sbc16_result(a, b, c);
    pack_flags(
        r >= 0x8000,
        r == 0,
        is_set(f, FLAG_Y),
        a % 4096 < b % 4096 + cin(c),
        is_set(f, FLAG_X),
        (a >= 0x8000) != (b >= 0x8000) && (r >= 0x8000) != (a >= 0x8000),
        true,
        a < b + cin(c),
    )
}

/// The state after `ADD rr,v`.
pub open spec fn add16_spec(s: CpuState, p: RegisterPair, v: u16) -> CpuState {
    with_f(with_reg16(s, p, add16(reg16(s, p), v as int)), add16_flags(reg16(s, p), v, s.f))
}

/// The state after `ADC rr,v`.
pub open spec fn adc16_spec(s: CpuState, p: RegisterPair, v: u16) -> CpuState {
    let c = is_set(s.f, FLAG_C);
    with_f(with_reg16(s, p, adc16_result(reg16(s, p), v, c)), adc16_flags(reg16(s, p), v, c, s.f))
}

/// The state after `SBC rr,v`.
pub open spec fn sbc16_spec(s: CpuState, p: RegisterPair, v: u16) -> CpuState {
    let c = is_set(s.f, FLAG_C);
    with_f(with_reg16(s, p, sbc16_result(reg16(s, p), v, c)), sbc16_flags(reg16(s, p), v, c, s.f))
}

/// The address `IX+d` or `IY+d` in state `s`.
pub open spec fn idx_addr(s: CpuState, x: IndexRegister, d: i8) -> u16 {
    displaced(index(s, x), d)
}

/// The byte at `IX+d` or `IY+d`.
pub open spec fn idx_byte(s: CpuState, x: IndexRegister, d: i8) -> u8 {
    rd8(s.mem, idx_addr(s, x, d))
}

/// The state with the byte at `IX+d` or `IY+d` replaced.
pub open spec fn with_idx_byte(s: CpuState, x: IndexRegister, d: i8, v: u8) -> CpuState {
    CpuState { mem: s.mem.update(idx_addr(s, x, d) as int, v), ..s }
}

pub open spec fn pair_of(x: IndexRegister) -> RegisterPair {
    match x {
        IndexRegister::IX => RegisterPair::IX,
        IndexRegister::IY => RegisterPair::IY,
    }
}

impl Cpu {
    /// ADD rr,value for rr one of HL, IX, IY (any 16-bit register works).
    pub fn add_rr(&mut self, target: RegisterPair, value: u16)
        ensures
            final(self)@ == add16_spec(old(self)@, target, value),
    {
        let a = self.read_register_pair(target);
        let h = a % 4096 + value % 4096 > 4095;
        let c = a as u32 + value as u32 > 65535;
        let f = (self.f & 0xEC) | super::flags::flag_byte(h, FLAG_H) | super::flags::flag_byte(c, FLAG_C);
        self.write_register_pair(target, a.wrapping_add(value));
        self.f = f;
    }

    /// ADC rr,value.
    pub fn adc_rr(&mut self, target: RegisterPair, value: u16)
        ensures
            final(self)@ == adc16_spec(old(self)@, target, value),
    {
        let a = self.read_register_pair(target);
        let carry: u32 = if self.f & FLAG_C != 0 {
            1
        } else {
            0
        };
        let sum: u32 = a as u32 + value as u32 + carry;
        let r = (sum % 65536) as u16;
        let f = pack(
            r >= 0x8000,
            r == 0,
            self.f & FLAG_Y != 0,
            (a % 4096) as u32 + (value % 4096) as u32 + carry > 4095,
            self.f & FLAG_X != 0,
            (a >= 0x8000) == (value >= 0x8000) && (r >= 0x8000) != (a >= 0x8000),
            false,
            sum > 65535,
        );
        self.write_register_pair(target, r);
        self.f = f;
    }

    /// SBC rr,value.
    pub fn sbc_rr(&mut self, target: RegisterPair, value: u16)
        ensures
            final(self)@ == sbc16_spec(old(self)@, target, value),
    {
        let a = self.read_register_pair(target);
        let borrow: i32 = if self.f & FLAG_C != 0 {
            1
        } else {
            0
        };
        let diff: i32 = a as i32 - value as i32 - borrow;
        let r: u16 = if diff < 0 {
            (diff + 65536) as u16
        } else {
            diff as u16
        };
        let f = pack(
            r >= 0x8000,
            r == 0,
            self.f & FLAG_Y != 0,
            ((a % 4096) as i32) < (value % 4096) as i32 + borrow,
            self.f & FLAG_X != 0,
            (a >= 0x8000) != (value >= 0x8000) && (r >= 0x8000) != (a >= 0x8000),
            true,
            diff < 0,
        );
        self.write_register_pair(target, r);
        self.f = f;
    }

    pub fn add_hl(&mut self, value: u16)
        ensures
            final(self)@ == add16_spec(old(self)@, RegisterPair::HL, value),
    {
        self.add_rr(RegisterPair::HL, value);
    }

    pub fn adc_hl(&mut self, value: u16)
        ensures
            final(self)@ == adc16_spec(old(self)@, RegisterPair::HL, value),
    {
        self.adc_rr(RegisterPair::HL, value);
    }

    pub fn sbc_hl(&mut self, value: u16)
        ensures
            final(self)@ == sbc16_spec(old(self)@, RegisterPair::HL, value),
    {
        self.sbc_rr(RegisterPair::HL, value);
    }

    pub fn add_ix(&mut self, value: u16)
        ensures
            final(self)@ == add16_spec(old(self)@, RegisterPair::IX, value),
    {
        self.add_rr(RegisterPair::IX, value);
    }

    pub fn add_iy(&mut self, value: u16)
        ensures
            final(self)@ == add16_spec(old(self)@, RegisterPair::IY, value),
    {
        self.add_rr(RegisterPair::IY, value);
    }

    pub fn adc_ix(&mut self, value: u16)
        ensures
            final(self)@ == adc16_spec(old(self)@, RegisterPair::IX, value),
    {
        self.adc_rr(RegisterPair::IX, value);
    }

    pub fn adc_iy(&mut self, value: u16)
        ensures
            final(self)@ == adc16_spec(old(self)@, RegisterPair::IY, value),
    {
        self.adc_rr(RegisterPair::IY, value);
    }

    pub fn sbc_ix(&mut self, value: u16)
        ensures
            final(self)@ == sbc16_spec(old(self)@, RegisterPair::IX, value),
    {
        self.sbc_rr(RegisterPair::IX, value);
    }

    pub fn sbc_iy(&mut self, value: u16)
        ensures
            final(self)@ == sbc16_spec(old(self)@, RegisterPair::IY, value),
    {
        self.sbc_rr(RegisterPair::IY, value);
    }

    /// INC rr: no flags change.
    pub fn inc_rr(&mut self, target: RegisterPair)
        ensures
            final(self)@ == with_reg16(old(self)@, target, add16(reg16(old(self)@, target), 1)),
    {
        let v = self.read_register_pair(target);
        self.write_register_pair(target, v.wrapping_add(1));
    }

    /// DEC rr: no flags change.
    pub fn dec_rr(&mut self, target: RegisterPair)
        ensures
            final(self)@ == with_reg16(old(self)@, target, add16(reg16(old(self)@, target), -1)),
    {
        let v = self.read_register_pair(target);
        self.write_register_pair(target, v.wrapping_sub(1));
    }

    pub fn inc_ix(&mut self)
        ensures
            final(self)@ == (CpuState { ix: add16(old(self).ix, 1), ..old(self)@ }),
    {
        self.ix = self.ix.wrapping_add(1);
    }

    pub fn inc_iy(&mut self)
        ensures
            final(self)@ == (CpuState { iy: add16(old(self).iy, 1), ..old(self)@ }),
    {
        self.iy = self.iy.wrapping_add(1);
    }

    pub fn dec_ix(&mut self)
        ensures
            final(self)@ == (CpuState { ix: add16(old(self).ix, -1), ..old(self)@ }),
    {
        self.ix = self.ix.wrapping_sub(1);
    }

    pub fn dec_iy(&mut self)
        ensures
            final(self)@ == (CpuState { iy: add16(old(self).iy, -1), ..old(self)@ }),
    {
        self.iy = self.iy.wrapping_sub(1);
    }

    /// `value + 1`, wrapping.
    pub fn inc_16(&mut self, value: u16) -> (r: u16)
        ensures
            r == add16(value, 1),
            final(self)@ == old(self)@,
    {
        value.wrapping_add(1)
    }

    /// `value - 1`, wrapping.
    pub fn dec_16(&mut self, value: u16) -> (r: u16)
        ensures
            r == add16(value, -1),
            final(self)@ == old(self)@,
    {
        value.wrapping_sub(1)
    }

    pub fn ld_ix_nn(&mut self, value: u16)
        ensures
            final(self)@ == (CpuState { ix: value, ..old(self)@ }),
    {
        self.ix = value;
    }

    pub fn ld_iy_nn(&mut self, value: u16)
        ensures
            final(self)@ == (CpuState { iy: value, ..old(self)@ }),
    {
        self.iy = value;
    }

    /// LD (X+d),n.
    pub fn ld_idx_d_n(&mut self, x: IndexRegister, offset: i8, value: u8)
        ensures
            final(self)@ == with_idx_byte(old(self)@, x, offset, value),
    {
        let address = self.index_address(x, offset);
        self.write_byte(address, value);
    }

    /// LD reg,(X+d).
    pub fn ld_r_idx_d(&mut self, x: IndexRegister, reg: Register, offset: i8)
        ensures
            final(self)@ == with_reg(old(self)@, reg, idx_byte(old(self)@, x, offset)),
    {
        let address = self.index_address(x, offset);
        let value = self.read_byte(address);
        self.write_register(reg, value);
    }

    /// LD (X+d),reg.
    pub fn ld_idx_d_r(&mut self, x: IndexRegister, offset: i8, reg: Register)
        ensures
            final(self)@ == with_idx_byte(old(self)@, x, offset, self::reg(old(self)@, reg)),
    {
        let address = self.index_address(x, offset);
        let value = self.read_register(reg);
        self.write_byte(address, value);
    }

    pub fn ld_ix_d_n(&mut self, offset: i8, value: u8)
        ensures
            final(self)@ == with_idx_byte(old(self)@, IndexRegister::IX, offset, value),
    {
        self.ld_idx_d_n(IndexRegister::IX, offset, value);
    }

    pub fn ld_iy_d_n(&mut self, offset: i8, value: u8)
        ensures
            final(self)@ == with_idx_byte(old(self)@, IndexRegister::IY, offset, value),
    {
        self.ld_idx_d_n(IndexRegister::IY, offset, value);
    }

    pub fn ld_r_ix_d(&mut self, reg: Register, offset: i8)
        ensures
            final(self)@ == with_reg(old(self)@, reg, idx_byte(old(self)@, IndexRegister::IX, offset)),
    {
        self.ld_r_idx_d(IndexRegister::IX, reg, offset);
    }

    pub fn ld_r_iy_d(&mut self, reg: Register, offset: i8)
        ensures
            final(self)@ == with_reg(old(self)@, reg, idx_byte(old(self)@, IndexRegister::IY, offset)),
    {
        self.ld_r_idx_d(IndexRegister::IY, reg, offset);
    }

    pub fn ld_ix_d_r(&mut self, offset: i8, reg: Register)
        ensures
            final(self)@ == with_idx_byte(old(self)@, IndexRegister::IX, offset, self::reg(old(self)@, reg)),
    {
        self.ld_idx_d_r(IndexRegister::IX, offset, reg);
    }

    pub fn ld_iy_d_r(&mut self, offset: i8, reg: Register)
        ensures
            final(self)@ == with_idx_byte(old(self)@, IndexRegister::IY, offset, self::reg(old(self)@, reg)),
    {
        self.ld_idx_d_r(IndexRegister::IY, offset, reg);
    }

    /// BIT bit,(X+d).
    pub fn bit_idx_d(&mut self, x: IndexRegister, bit: u8, offset: i8)
        requires
            bit < 8,
        ensures
            final(self)@ == with_f(old(self)@, bit_flags(bit, idx_byte(old(self)@, x, offset), old(self).f)),
    {
        let address = self.index_address(x, offset);
        let value = self.read_byte(address);
        self.bit(bit, value);
    }

    /// SET bit,(X+d).
    pub fn set_idx_d(&mut self, x: IndexRegister, bit: u8, offset: i8)
        requires
            bit < 8,
        ensures
            final(self)@ == with_idx_byte(old(self)@, x, offset, idx_byte(old(self)@, x, offset) | (1u8 << bit)),
    {
        let address = self.index_address(x, offset);
        let mut value = self.read_byte(address);
        self.set_bit(bit, &mut value);
        self.write_byte(address, value);
    }

    /// RES bit,(X+d).
    pub fn res_idx_d(&mut self, x: IndexRegister, bit: u8, offset: i8)
        requires
            bit < 8,
        ensures
            final(self)@ == with_idx_byte(old(self)@, x, offset, idx_byte(old(self)@, x, offset) & !(1u8 << bit)),
    {
        let address = self.index_address(x, offset);
        let mut value = self.read_byte(address);
        self.res_bit(bit, &mut value);
        self.write_byte(address, value);
    }

    /// A rotate or shift of the byte at (X+d).
    pub fn shift_idx_d(&mut self, x: IndexRegister, op: ShiftOp, offset: i8)
        ensures
            final(self)@ == with_f(
                with_idx_byte(old(self)@, x, offset, shift_result(op, idx_byte(old(self)@, x, offset), old(self).f)),
                shift_flags(op, idx_byte(old(self)@, x, offset), old(self).f),
            ),
    {
        let address = self.index_address(x, offset);
        let value = self.read_byte(address);
        let result = self.shift(op, value);
        self.write_byte(address, result);
    }

    /// An accumulator operation on the byte at (X+d).
    pub fn alu_idx_d(&mut self, x: IndexRegister, op: AluOp, offset: i8)
        ensures
            final(self)@ == alu_spec(old(self)@, op, idx_byte(old(self)@, x, offset)),
    {
        let address = self.index_address(x, offset);
        let value = self.read_byte(address);
        self.alu(op, value);
    }

    /// INC (X+d).
    pub fn inc_idx_d(&mut self, x: IndexRegister, offset: i8)
        ensures
            final(self)@ == with_f(
                with_idx_byte(old(self)@, x, offset, inc_result(idx_byte(old(self)@, x, offset))),
                inc_flags(idx_byte(old(self)@, x, offset), old(self).f),
            ),
    {
        let address = self.index_address(x, offset);
        let value = self.read_byte(address);
        let result = self.inc(value);
        self.write_byte(address, result);
    }

    /// DEC (X+d).
    pub fn dec_idx_d(&mut self, x: IndexRegister, offset: i8)
        ensures
            final(self)@ == with_f(
                with_idx_byte(old(self)@, x, offset, dec_result(idx_byte(old(self)@, x, offset))),
                dec_flags(idx_byte(old(self)@, x, offset), old(self).f),
            ),
    {
        let address = self.index_address(x, offset);
        let value = self.read_byte(address);
        let result = self.dec(value);
        self.write_byte(address, result);
    }
    pub fn bit_ix_d(&mut self, bit: u8, offset: i8)
        requires
            bit < 8,
        ensures
            final(self)@ == with_f(old(self)@, bit_flags(bit, idx_byte(old(self)@, IndexRegister::IX, offset), old(self).f)),
    {
        self.bit_idx_d(IndexRegister::IX, bit, offset);
    }

    pub fn set_ix_d(&mut self, bit: u8, offset: i8)
        requires
            bit < 8,
        ensures
            final(self)@ == with_idx_byte(old(self)@, IndexRegister::IX, offset, idx_byte(old(self)@, IndexRegister::IX, offset) | (1u8 << bit)),
    {
        self.set_idx_d(IndexRegister::IX, bit, offset);
    }

    pub fn res_ix_d(&mut self, bit: u8, offset: i8)
        requires
            bit < 8,
        ensures
            final(self)@ == with_idx_byte(old(self)@, IndexRegister::IX, offset, idx_byte(old(self)@, IndexRegister::IX, offset) & !(1u8 << bit)),
    {
        self.res_idx_d(IndexRegister::IX, bit, offset);
    }

    pub fn add_a_ix_d(&mut self, offset: i8)
        ensures
            final(self)@ == alu_spec(old(self)@, AluOp::Add, idx_byte(old(self)@, IndexRegister::IX, offset)),
    {
        self.alu_idx_d(IndexRegister::IX, AluOp::Add, offset);
    }

    pub fn adc_a_ix_d(&mut self, offset: i8)
        ensures
            final(self)@ == alu_spec(old(self)@, AluOp::Adc, idx_byte(old(self)@, IndexRegister::IX, offset)),
    {
        self.alu_idx_d(IndexRegister::IX, AluOp::Adc, offset);
    }

    pub fn sub_ix_d(&mut self, offset: i8)
        ensures
            final(self)@ == alu_spec(old(self)@, AluOp::Sub, idx_byte(old(self)@, IndexRegister::IX, offset)),
    {
        self.alu_idx_d(IndexRegister::IX, AluOp::Sub, offset);
    }

    pub fn sbc_a_ix_d(&mut self, offset: i8)
        ensures
            final(self)@ == alu_spec(old(self)@, AluOp::Sbc, idx_byte(old(self)@, IndexRegister::IX, offset)),
    {
        self.alu_idx_d(IndexRegister::IX, AluOp::Sbc, offset);
    }

    pub fn inc_ix_d(&mut self, offset: i8)
        ensures
            final(self)@ == with_f(
                with_idx_byte(old(self)@, IndexRegister::IX, offset, inc_result(idx_byte(old(self)@, IndexRegister::IX, offset))),
                inc_flags(idx_byte(old(self)@, IndexRegister::IX, offset), old(self).f),
            ),
    {
        self.inc_idx_d(IndexRegister::IX, offset);
    }

    pub fn dec_ix_d(&mut self, offset: i8)
        ensures
            final(self)@ == with_f(
                with_idx_byte(old(self)@, IndexRegister::IX, offset, dec_result(idx_byte(old(self)@, IndexRegister::IX, offset))),
                dec_flags(idx_byte(old(self)@, IndexRegister::IX, offset), old(self).f),
            ),
    {
        self.dec_idx_d(IndexRegister::IX, offset);
    }

    pub fn bit_iy_d(&mut self, bit: u8, offset: i8)
        requires
            bit < 8,
        ensures
            final(self)@ == with_f(old(self)@, bit_flags(bit, idx_byte(old(self)@, IndexRegister::IY, offset), old(self).f)),
    {
        self.bit_idx_d(IndexRegister::IY, bit, offset);
    }

    pub fn set_iy_d(&mut self, bit: u8, offset: i8)
        requires
            bit < 8,
        ensures
            final(self)@ == with_idx_byte(old(self)@, IndexRegister::IY, offset, idx_byte(old(self)@, IndexRegister::IY, offset) | (1u8 << bit)),
    {
        self.set_idx_d(IndexRegister::IY, bit, offset);
    }

    pub fn res_iy_d(&mut self, bit: u8, offset: i8)
        requires
            bit < 8,
        ensures
            final(self)@ == with_idx_byte(old(self)@, IndexRegister::IY, offset, idx_byte(old(self)@, IndexRegister::IY, offset) & !(1u8 << bit)),
    {
        self.res_idx_d(IndexRegister::IY, bit, offset);
    }

    pub fn add_a_iy_d(&mut self, offset: i8)
        ensures
            final(self)@ == alu_spec(old(self)@, AluOp::Add, idx_byte(old(self)@, IndexRegister::IY, offset)),
    {
        self.alu_idx_d(IndexRegister::IY, AluOp::Add, offset);
    }

    pub fn adc_a_iy_d(&mut self, offset: i8)
        ensures
            final(self)@ == alu_spec(old(self)@, AluOp::Adc, idx_byte(old(self)@, IndexRegister::IY, offset)),
    {
        self.alu_idx_d(IndexRegister::IY, AluOp::Adc, offset);
    }

    pub fn sub_iy_d(&mut self, offset: i8)
        ensures
            final(self)@ == alu_spec(old(self)@, AluOp::Sub, idx_byte(old(self)@, IndexRegister::IY, offset)),
    {
        self.alu_idx_d(IndexRegister::IY, AluOp::Sub, offset);
    }

    pub fn sbc_a_iy_d(&mut self, offset: i8)
        ensures
            final(self)@ == alu_spec(old(self)@, AluOp::Sbc, idx_byte(old(self)@, IndexRegister::IY, offset)),
    {
        self.alu_idx_d(IndexRegister::IY, AluOp::Sbc, offset);
    }

    pub fn inc_iy_d(&mut self, offset: i8)
        ensures
            final(self)@ == with_f(
                with_idx_byte(old(self)@, IndexRegister::IY, offset, inc_result(idx_byte(old(self)@, IndexRegister::IY, offset))),
                inc_flags(idx_byte(old(self)@, IndexRegister::IY, offset), old(self).f),
            ),
    {
        self.inc_idx_d(IndexRegister::IY, offset);
    }

    pub fn dec_iy_d(&mut self, offset: i8)
        ensures
            final(self)@ == with_f(
                with_idx_byte(old(self)@, IndexRegister::IY, offset, dec_result(idx_byte(old(self)@, IndexRegister::IY, offset))),
                dec_flags(idx_byte(old(self)@, IndexRegister::IY, offset), old(self).f),
            ),
    {
        self.dec_idx_d(IndexRegister::IY, offset);
    }
}

} // verus!
