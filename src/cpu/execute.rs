//! The effect of each operation on the processor state, and the executor
//! that carries it out.
use vstd::prelude::*;

use super::alu::{
    alu_spec, bit_flags, daa_flags, daa_result, dec_flags, dec_result, inc_flags, inc_result,
    shift_flags, shift_result, AluOp, ShiftOp,
};
use super::arithmetic::neg_spec;
use super::bit_manipulation::acc_shift_spec;
use super::block_operations::{cp_block_spec, cp_repeat, ld_block_spec, ld_repeat, rep_count};
use super::control_flow::{call_spec, ret_spec};
use super::extended::{adc16_spec, add16_spec, idx_byte, pair_of, sbc16_spec, with_idx_byte};
use super::flags::{flag_bit, is_set, result_flags, FLAG_C, FLAG_H, FLAG_N, FLAG_PV, FLAG_S, FLAG_Z};
use super::instruction::{Cond, Op, Operands, R8};
use super::io::{in_block_spec, in_flags, in_repeat, out_block_spec, out_repeat, port_addr};
use super::load::{ex_sp_mem, pop_rr_spec};
use super::misc::{rld_spec, rrd_spec};
use super::registers::{
    displaced, index, reg, reg16, with_index, with_reg, with_reg16, IndexRegister, Register,
    RegisterPair,
};
use super::{add16, add8, bc, de, hl, push_spec, rd16, rd8, top, with_f, with_hl, wr16, Cpu, CpuState};

verus! {

/// The value of an 8-bit operand; `(HL)` reads memory.
pub open spec fn r8_val(s: CpuState, r: R8) -> u8 {
    match r {
        R8::B => s.b,
        R8::C => s.c,
        R8::D => s.d,
        R8::E => s.e,
        R8::H => s.h,
        R8::L => s.l,
        R8::AtHl => rd8(s.mem, hl(s)),
        R8::A => s.a,
    }
}

/// The state with an 8-bit operand replaced; `(HL)` writes memory.
pub open spec fn with_r8(s: CpuState, r: R8, v: u8) -> CpuState {
    match r {
        R8::B => CpuState { b: v, ..s },
        R8::C => CpuState { c: v, ..s },
        R8::D => CpuState { d: v, ..s },
        R8::E => CpuState { e: v, ..s },
        R8::H => CpuState { h: v, ..s },
        R8::L => CpuState { l: v, ..s },
        R8::AtHl => CpuState { mem: s.mem.update(hl(s) as int, v), ..s },
        R8::A => CpuState { a: v, ..s },
    }
}

/// Whether a branch condition holds for flags `f`.
pub open spec fn cond_holds(f: u8, c: Cond) -> bool {
    match c {
        Cond::NZ => !is_set(f, FLAG_Z),
        Cond::Z => is_set(f, FLAG_Z),
        Cond::NC => !is_set(f, FLAG_C),
        Cond::C => is_set(f, FLAG_C),
        Cond::PO => !is_set(f, FLAG_PV),
        Cond::PE => is_set(f, FLAG_PV),
        Cond::P => !is_set(f, FLAG_S),
        Cond::M => is_set(f, FLAG_S),
    }
}

/// The state after a jump to `target` when `c` holds.
pub open spec fn jump_if(s: CpuState, c: bool, target: u16) -> CpuState {
    if c {
        CpuState { pc: target, ..s }
    } else {
        s
    }
}

/// The effect of executing `op` with immediate data `o` on state `s`, in
/// which PC already points past the instruction.
#[verifier::opaque]
pub open spec fn exec_spec(s: CpuState, op: Op, o: Operands) -> CpuState {
    match op {
        Op::Prefix | Op::Nop => s,
        Op::Halt => CpuState { halted: true, pc: add16(s.pc, -1), ..s },
        Op::LdR8R8(d, r) => with_r8(s, d, r8_val(s, r)),
        Op::LdR8N(d) => with_r8(s, d, o.n),
        Op::AluR8(k, r) => alu_spec(s, k, r8_val(s, r)),
        Op::AluN(k) => alu_spec(s, k, o.n),
        Op::IncR8(r) => with_f(with_r8(s, r, inc_result(r8_val(s, r))), inc_flags(r8_val(s, r), s.f)),
        Op::DecR8(r) => with_f(with_r8(s, r, dec_result(r8_val(s, r))), dec_flags(r8_val(s, r), s.f)),
        Op::LdRpNn(p) => with_reg16(s, p, o.nn),
        Op::AddHlRp(p) => add16_spec(s, RegisterPair::HL, reg16(s, p)),
        Op::IncRp(p) => with_reg16(s, p, add16(reg16(s, p), 1)),
        Op::DecRp(p) => with_reg16(s, p, add16(reg16(s, p), -1)),
        Op::LdBcA => CpuState { mem: s.mem.update(bc(s) as int, s.a), ..s },
        Op::LdDeA => CpuState { mem: s.mem.update(de(s) as int, s.a), ..s },
        Op::LdABc => CpuState { a: rd8(s.mem, bc(s)), ..s },
        Op::LdADe => CpuState { a: rd8(s.mem, de(s)), ..s },
        Op::LdNnHl => CpuState { mem: wr16(s.mem, o.nn, hl(s)), ..s },
        Op::LdHlNn => with_reg16(s, RegisterPair::HL, rd16(s.mem, o.nn)),
        Op::LdNnA => CpuState { mem: s.mem.update(o.nn as int, s.a), ..s },
        Op::LdANn => CpuState { a: rd8(s.mem, o.nn), ..s },
        Op::AccShift(k) => acc_shift_spec(s, k),
        Op::Daa => CpuState { a: daa_result(s.a, s.f), f: daa_flags(s.a, s.f), ..s },
        Op::Cpl => CpuState { a: !s.a, f: s.f | FLAG_H | FLAG_N, ..s },
        Op::Scf => with_f(s, (s.f & 0xEC) | FLAG_C),
        Op::Ccf => with_f(
            s,
            (s.f & 0xEC) | flag_bit(is_set(s.f, FLAG_C), FLAG_H) | flag_bit(!is_set(s.f, FLAG_C), FLAG_C),
        ),
        Op::ExAf => CpuState { a: s.a_alt, f: s.f_alt, a_alt: s.a, f_alt: s.f, ..s },
        Op::Exx => CpuState {
            b: s.b_alt,
            c: s.c_alt,
            d: s.d_alt,
            e: s.e_alt,
            h: s.h_alt,
            l: s.l_alt,
            b_alt: s.b,
            c_alt: s.c,
            d_alt: s.d,
            e_alt: s.e,
            h_alt: s.h,
            l_alt: s.l,
            ..s
        },
        Op::ExDeHl => CpuState { d: s.h, e: s.l, h: s.d, l: s.e, ..s },
        Op::ExSpHl => with_hl(CpuState { mem: ex_sp_mem(s, hl(s)), ..s }, top(s)),
        Op::Di => CpuState { iff1: false, iff2: false, ..s },
        Op::Ei => CpuState { iff1: true, iff2: true, ..s },
        Op::Djnz => {
            let b = add8(s.b, -1);
            CpuState { b: b, pc: if b != 0 { displaced(s.pc, o.d) } else { s.pc }, ..s }
        },
        Op::Jr => CpuState { pc: displaced(s.pc, o.d), ..s },
        Op::JrCc(c) => jump_if(s, cond_holds(s.f, c), displaced(s.pc, o.d)),
        Op::Jp => CpuState { pc: o.nn, ..s },
        Op::JpCc(c) => jump_if(s, cond_holds(s.f, c), o.nn),
        Op::JpHl => CpuState { pc: hl(s), ..s },
        Op::Call => call_spec(s, o.nn),
        Op::CallCc(c) => if cond_holds(s.f, c) {
            call_spec(s, o.nn)
        } else {
            s
        },
        Op::Ret => ret_spec(s),
        Op::RetCc(c) => if cond_holds(s.f, c) {
            ret_spec(s)
        } else {
            s
        },
        Op::Rst(t) => call_spec(s, t as u16),
        Op::Push(p) => push_spec(s, reg16(s, p)),
        Op::Pop(p) => pop_rr_spec(s, p),
        Op::LdSpHl => CpuState { sp: hl(s), ..s },
        Op::OutNA => CpuState { mem: s.mem.update(port_addr(o.n) as int, s.a), ..s },
        Op::InAN => {
            let v = rd8(s.mem, port_addr(o.n));
            CpuState { a: v, f: in_flags(v, s.f), ..s }
        },
        Op::Shift(k, r) => with_f(
            with_r8(s, r, shift_result(k, r8_val(s, r), s.f)),
            shift_flags(k, r8_val(s, r), s.f),
        ),
        Op::BitR8(b, r) => if b < 8 {
            with_f(s, bit_flags(b, r8_val(s, r), s.f))
        } else {
            s
        },
        Op::ResR8(b, r) => if b < 8 {
            with_r8(s, r, r8_val(s, r) & !(1u8 << b))
        } else {
            s
        },
        Op::SetR8(b, r) => if b < 8 {
            with_r8(s, r, r8_val(s, r) | (1u8 << b))
        } else {
            s
        },
        Op::LdIdxNn(x) => with_index(s, x, o.nn),
        Op::LdNnIdx(x) => CpuState { mem: wr16(s.mem, o.nn, index(s, x)), ..s },
        Op::LdIdxMem(x) => with_index(s, x, rd16(s.mem, o.nn)),
        Op::IncIdx(x) => with_index(s, x, add16(index(s, x), 1)),
        Op::DecIdx(x) => with_index(s, x, add16(index(s, x), -1)),
        Op::AddIdxRp(x, p) => add16_spec(s, pair_of(x), reg16(s, p)),
        Op::LdRIdxD(x, r) => with_reg(s, r, idx_byte(s, x, o.d)),
        Op::LdIdxDR(x, r) => with_idx_byte(s, x, o.d, reg(s, r)),
        Op::LdIdxDN(x) => with_idx_byte(s, x, o.d, o.n),
        Op::AluIdxD(x, k) => alu_spec(s, k, idx_byte(s, x, o.d)),
        Op::IncIdxD(x) => with_f(
            with_idx_byte(s, x, o.d, inc_result(idx_byte(s, x, o.d))),
            inc_flags(idx_byte(s, x, o.d), s.f),
        ),
        Op::DecIdxD(x) => with_f(
            with_idx_byte(s, x, o.d, dec_result(idx_byte(s, x, o.d))),
            dec_flags(idx_byte(s, x, o.d), s.f),
        ),
        Op::PushIdx(x) => push_spec(s, index(s, x)),
        Op::PopIdx(x) => pop_rr_spec(s, pair_of(x)),
        Op::JpIdx(x) => CpuState { pc: index(s, x), ..s },
        Op::ExSpIdx(x) => with_index(CpuState { mem: ex_sp_mem(s, index(s, x)), ..s }, x, top(s)),
        Op::LdSpIdx(x) => CpuState { sp: index(s, x), ..s },
        Op::ShiftIdxD(x, k) => with_f(
            with_idx_byte(s, x, o.d, shift_result(k, idx_byte(s, x, o.d), s.f)),
            shift_flags(k, idx_byte(s, x, o.d), s.f),
        ),
        Op::BitIdxD(x, b) => if b < 8 {
            with_f(s, bit_flags(b, idx_byte(s, x, o.d), s.f))
        } else {
            s
        },
        Op::ResIdxD(x, b) => if b < 8 {
            with_idx_byte(s, x, o.d, idx_byte(s, x, o.d) & !(1u8 << b))
        } else {
            s
        },
        Op::SetIdxD(x, b) => if b < 8 {
            with_idx_byte(s, x, o.d, idx_byte(s, x, o.d) | (1u8 << b))
        } else {
            s
        },
        Op::InRC(r) => {
            let v = rd8(s.mem, port_addr(s.c));
            CpuState { f: in_flags(v, s.f), ..with_reg(s, r, v) }
        },
        Op::InFC => with_f(s, result_flags(rd8(s.mem, port_addr(s.c)), false, false, is_set(s.f, FLAG_C))),
        Op::OutCR(r) => CpuState { mem: s.mem.update(port_addr(s.c) as int, reg(s, r)), ..s },
        Op::OutC0 => CpuState { mem: s.mem.update(port_addr(s.c) as int, 0), ..s },
        Op::SbcHlRp(p) => sbc16_spec(s, RegisterPair::HL, reg16(s, p)),
        Op::AdcHlRp(p) => adc16_spec(s, RegisterPair::HL, reg16(s, p)),
        Op::LdNnRp(p) => CpuState { mem: wr16(s.mem, o.nn, reg16(s, p)), ..s },
        Op::LdRpMem(p) => with_reg16(s, p, rd16(s.mem, o.nn)),
        Op::Neg => neg_spec(s),
        Op::Retn => CpuState { iff1: s.iff2, ..ret_spec(s) },
        Op::Reti => CpuState { iff1: true, iff2: true, ..ret_spec(s) },
        Op::Im(m) => CpuState { interrupt_mode: m, ..s },
        Op::Rrd => rrd_spec(s),
        Op::Rld => rld_spec(s),
        Op::LdIA => CpuState { i: s.a, ..s },
        Op::Ldi => ld_block_spec(s, 1),
        Op::Ldd => ld_block_spec(s, -1),
        Op::Ldir => ld_repeat(s, 1, rep_count(bc(s))),
        Op::Lddr => ld_repeat(s, -1, rep_count(bc(s))),
        Op::Cpi => cp_block_spec(s, 1),
        Op::Cpd => cp_block_spec(s, -1),
        Op::Cpir => cp_repeat(s, 1, rep_count(bc(s))),
        Op::Cpdr => cp_repeat(s, -1, rep_count(bc(s))),
        Op::Ini => in_block_spec(s, 1),
        Op::Ind => in_block_spec(s, -1),
        Op::Inir => in_repeat(s, 1, s.b as nat),
        Op::Indr => in_repeat(s, -1, s.b as nat),
        Op::Outi => out_block_spec(s, 1),
        Op::Outd => out_block_spec(s, -1),
        Op::Otir => out_repeat(s, 1, s.b as nat),
        Op::Otdr => {
            let t = out_repeat(s, -1, s.b as nat);
            CpuState { f: t.f & !0x04u8, ..t }
        },
        Op::LdAHalf(x, h) => CpuState { a: half(index(s, x), h), ..s },
        Op::LdHalfN(x, h) => with_index(s, x, with_half(index(s, x), h, o.n)),
        Op::IncHalf(x, h) => with_f(
            with_index(s, x, with_half(index(s, x), h, inc_result(half(index(s, x), h)))),
            inc_flags(half(index(s, x), h), s.f),
        ),
        Op::CpHalf(x, h) => alu_spec(s, AluOp::Cp, half(index(s, x), h)),
    }
}

/// The high (`h`) or low byte of a 16-bit value.
pub open spec fn half(v: u16, h: bool) -> u8 {
    if h {
        super::hi(v)
    } else {
        super::lo(v)
    }
}

/// `v` with its high (`h`) or low byte replaced.
pub open spec fn with_half(v: u16, h: bool, b: u8) -> u16 {
    if h {
        super::undocumented::with_hi(v, b)
    } else {
        super::undocumented::with_lo(v, b)
    }
}

/// Which dispatcher handles an operation.
pub open spec fn group_of(op: Op) -> u8 {
    match op {
        Op::Prefix | Op::Nop | Op::Halt | Op::LdR8R8(..) | Op::LdR8N(..) | Op::AluR8(..) | Op::AluN(..) | Op::IncR8(..) | Op::DecR8(..) | Op::LdRpNn(..) | Op::AddHlRp(..) | Op::IncRp(..) | Op::DecRp(..) => 0,
        Op::LdBcA | Op::LdDeA | Op::LdABc | Op::LdADe | Op::LdNnHl | Op::LdHlNn | Op::LdNnA | Op::LdANn | Op::AccShift(..) | Op::Daa | Op::Cpl | Op::Scf | Op::Ccf => 1,
        Op::ExAf | Op::Exx | Op::ExDeHl | Op::ExSpHl | Op::Di | Op::Ei | Op::Djnz | Op::Jr | Op::JrCc(..) | Op::Jp | Op::JpCc(..) | Op::JpHl | Op::Call => 2,
        Op::CallCc(..) | Op::Ret | Op::RetCc(..) | Op::Rst(..) | Op::Push(..) | Op::Pop(..) | Op::LdSpHl | Op::OutNA | Op::InAN | Op::Shift(..) | Op::BitR8(..) | Op::ResR8(..) | Op::SetR8(..) => 3,
        Op::LdIdxNn(..) | Op::LdNnIdx(..) | Op::LdIdxMem(..) | Op::IncIdx(..) | Op::DecIdx(..) | Op::AddIdxRp(..) | Op::LdRIdxD(..) | Op::LdIdxDR(..) | Op::LdIdxDN(..) | Op::AluIdxD(..) | Op::IncIdxD(..) | Op::DecIdxD(..) | Op::PushIdx(..) => 4,
        Op::PopIdx(..) | Op::JpIdx(..) | Op::ExSpIdx(..) | Op::LdSpIdx(..) | Op::ShiftIdxD(..) | Op::BitIdxD(..) | Op::ResIdxD(..) | Op::SetIdxD(..) | Op::InRC(..) | Op::InFC | Op::OutCR(..) | Op::OutC0 | Op::SbcHlRp(..) => 5,
        Op::AdcHlRp(..) | Op::LdNnRp(..) | Op::LdRpMem(..) | Op::Neg | Op::Retn | Op::Reti | Op::Im(..) | Op::Rrd | Op::Rld | Op::LdIA | Op::Ldi | Op::Ldd | Op::Ldir => 6,
        Op::Lddr | Op::Cpi | Op::Cpd | Op::Cpir | Op::Cpdr | Op::Ini | Op::Ind | Op::Inir | Op::Indr | Op::Outi | Op::Outd | Op::Otir | Op::Otdr => 7,
        Op::LdAHalf(..) | Op::LdHalfN(..) | Op::IncHalf(..) | Op::CpHalf(..) => 8,
    }
}

/// Computes `group_of`.
fn group(op: Op) -> (g: u8)
    ensures
        g == group_of(op),
{
    match op {
        Op::Prefix | Op::Nop | Op::Halt | Op::LdR8R8(..) | Op::LdR8N(..) | Op::AluR8(..) | Op::AluN(..) | Op::IncR8(..) | Op::DecR8(..) | Op::LdRpNn(..) | Op::AddHlRp(..) | Op::IncRp(..) | Op::DecRp(..) => 0,
        Op::LdBcA | Op::LdDeA | Op::LdABc | Op::LdADe | Op::LdNnHl | Op::LdHlNn | Op::LdNnA | Op::LdANn | Op::AccShift(..) | Op::Daa | Op::Cpl | Op::Scf | Op::Ccf => 1,
        Op::ExAf | Op::Exx | Op::ExDeHl | Op::ExSpHl | Op::Di | Op::Ei | Op::Djnz | Op::Jr | Op::JrCc(..) | Op::Jp | Op::JpCc(..) | Op::JpHl | Op::Call => 2,
        Op::CallCc(..) | Op::Ret | Op::RetCc(..) | Op::Rst(..) | Op::Push(..) | Op::Pop(..) | Op::LdSpHl | Op::OutNA | Op::InAN | Op::Shift(..) | Op::BitR8(..) | Op::ResR8(..) | Op::SetR8(..) => 3,
        Op::LdIdxNn(..) | Op::LdNnIdx(..) | Op::LdIdxMem(..) | Op::IncIdx(..) | Op::DecIdx(..) | Op::AddIdxRp(..) | Op::LdRIdxD(..) | Op::LdIdxDR(..) | Op::LdIdxDN(..) | Op::AluIdxD(..) | Op::IncIdxD(..) | Op::DecIdxD(..) | Op::PushIdx(..) => 4,
        Op::PopIdx(..) | Op::JpIdx(..) | Op::ExSpIdx(..) | Op::LdSpIdx(..) | Op::ShiftIdxD(..) | Op::BitIdxD(..) | Op::ResIdxD(..) | Op::SetIdxD(..) | Op::InRC(..) | Op::InFC | Op::OutCR(..) | Op::OutC0 | Op::SbcHlRp(..) => 5,
        Op::AdcHlRp(..) | Op::LdNnRp(..) | Op::LdRpMem(..) | Op::Neg | Op::Retn | Op::Reti | Op::Im(..) | Op::Rrd | Op::Rld | Op::LdIA | Op::Ldi | Op::Ldd | Op::Ldir => 6,
        Op::Lddr | Op::Cpi | Op::Cpd | Op::Cpir | Op::Cpdr | Op::Ini | Op::Ind | Op::Inir | Op::Indr | Op::Outi | Op::Outd | Op::Otir | Op::Otdr => 7,
        Op::LdAHalf(..) | Op::LdHalfN(..) | Op::IncHalf(..) | Op::CpHalf(..) => 8,
    }
}

impl Cpu {
    /// Reads an 8-bit operand.
    pub fn read_r8(&self, r: R8) -> (v: u8)
        ensures
            v == r8_val(self@, r),
    {
        match r {
            R8::B => self.b,
            R8::C => self.c,
            R8::D => self.d,
            R8::E => self.e,
            R8::H => self.h,
            R8::L => self.l,
            R8::AtHl => self.read_byte(self.get_hl()),
            R8::A => self.a,
        }
    }

    /// Writes an 8-bit operand.
    pub fn write_r8(&mut self, r: R8, v: u8)
        ensures
            final(self)@ == with_r8(old(self)@, r, v),
    {
        match r {
            R8::B => self.b = v,
            R8::C => self.c = v,
            R8::D => self.d = v,
            R8::E => self.e = v,
            R8::H => self.h = v,
            R8::L => self.l = v,
            R8::AtHl => {
                let address = self.get_hl();
                self.write_byte(address, v);
            },
            R8::A => self.a = v,
        }
    }

    /// Whether a branch condition holds now.
    pub fn condition(&self, c: Cond) -> (r: bool)
        ensures
            r == cond_holds(self.f, c),
    {
        match c {
            Cond::NZ => self.f & FLAG_Z == 0,
            Cond::Z => self.f & FLAG_Z != 0,
            Cond::NC => self.f & FLAG_C == 0,
            Cond::C => self.f & FLAG_C != 0,
            Cond::PO => self.f & FLAG_PV == 0,
            Cond::PE => self.f & FLAG_PV != 0,
            Cond::P => self.f & FLAG_S == 0,
            Cond::M => self.f & FLAG_S != 0,
        }
    }

    /// Executes `op` with immediate data `o`; PC must already point past the
    /// instruction, so that jumps, calls and returns simply replace it.
    pub fn execute(&mut self, op: Op, o: Operands)
        ensures
            final(self)@ == exec_spec(old(self)@, op, o),
    {
        match group(op) {
            0 => self.dispatch_0(op, o),
            1 => self.dispatch_1(op, o),
            2 => self.dispatch_2(op, o),
            3 => self.dispatch_3(op, o),
            4 => self.dispatch_4(op, o),
            5 => self.dispatch_5(op, o),
            6 => self.dispatch_6(op, o),
            7 => self.dispatch_7(op, o),
            _ => self.dispatch_8(op, o),
        }
    }

    fn dispatch_0(&mut self, op: Op, o: Operands)
        requires
            group_of(op) == 0,
        ensures
            final(self)@ == exec_spec(old(self)@, op, o),
    {
        match op {
            Op::Prefix => self.exec_prefix(o),
            Op::Nop => self.exec_nop_op(o),
            Op::Halt => self.exec_halt_op(o),
            Op::LdR8R8(d, r) => self.exec_ld_r8_r8(d, r, o),
            Op::LdR8N(d) => self.exec_ld_r8_n(d, o),
            Op::AluR8(k, r) => self.exec_alu_r8(k, r, o),
            Op::AluN(k) => self.exec_alu_n(k, o),
            Op::IncR8(r) => self.exec_inc_r8(r, o),
            Op::DecR8(r) => self.exec_dec_r8(r, o),
            Op::LdRpNn(p) => self.exec_ld_rp_nn(p, o),
            Op::AddHlRp(p) => self.exec_add_hl_rp(p, o),
            Op::IncRp(p) => self.exec_inc_rp(p, o),
            Op::DecRp(p) => self.exec_dec_rp(p, o),
            _ => {},
        }
    }

    fn dispatch_1(&mut self, op: Op, o: Operands)
        requires
            group_of(op) == 1,
        ensures
            final(self)@ == exec_spec(old(self)@, op, o),
    {
        match op {
            Op::LdBcA => self.exec_ld_bc_a_op(o),
            Op::LdDeA => self.exec_ld_de_a_op(o),
            Op::LdABc => self.exec_ld_a_bc_op(o),
            Op::LdADe => self.exec_ld_a_de_op(o),
            Op::LdNnHl => self.exec_ld_nn_hl_op(o),
            Op::LdHlNn => self.exec_ld_hl_nn_op(o),
            Op::LdNnA => self.exec_ld_nn_a_op(o),
            Op::LdANn => self.exec_ld_a_nn_op(o),
            Op::AccShift(k) => self.exec_acc_shift(k, o),
            Op::Daa => self.exec_daa_op(o),
            Op::Cpl => self.exec_cpl_op(o),
            Op::Scf => self.exec_scf_op(o),
            Op::Ccf => self.exec_ccf_op(o),
            _ => {},
        }
    }

    fn dispatch_2(&mut self, op: Op, o: Operands)
        requires
            group_of(op) == 2,
        ensures
            final(self)@ == exec_spec(old(self)@, op, o),
    {
        match op {
            Op::ExAf => self.exec_ex_af(o),
            Op::Exx => self.exec_exx_op(o),
            Op::ExDeHl => self.exec_ex_de_hl_op(o),
            Op::ExSpHl => self.exec_ex_sp_hl_op(o),
            Op::Di => self.exec_di_op(o),
            Op::Ei => self.exec_ei_op(o),
            Op::Djnz => self.exec_djnz_op(o),
            Op::Jr => self.exec_jr_op(o),
            Op::JrCc(c) => self.exec_jr_cc(c, o),
            Op::Jp => self.exec_jp_op(o),
            Op::JpCc(c) => self.exec_jp_cc(c, o),
            Op::JpHl => self.exec_jp_hl(o),
            Op::Call => self.exec_call_op(o),
            _ => {},
        }
    }

    fn dispatch_3(&mut self, op: Op, o: Operands)
        requires
            group_of(op) == 3,
        ensures
            final(self)@ == exec_spec(old(self)@, op, o),
    {
        match op {
            Op::CallCc(c) => self.exec_call_cc(c, o),
            Op::Ret => self.exec_ret_op(o),
            Op::RetCc(c) => self.exec_ret_cc(c, o),
            Op::Rst(t) => self.exec_rst_op(t, o),
            Op::Push(p) => self.exec_push_op(p, o),
            Op::Pop(p) => self.exec_pop_op(p, o),
            Op::LdSpHl => self.exec_ld_sp_hl_op(o),
            Op::OutNA => self.exec_out_n_a_op(o),
            Op::InAN => self.exec_in_a_n_op(o),
            Op::Shift(k, r) => self.exec_shift_r8(k, r, o),
            Op::BitR8(b, r) => self.exec_bit_r8(b, r, o),
            Op::ResR8(b, r) => self.exec_res_r8(b, r, o),
            Op::SetR8(b, r) => self.exec_set_r8(b, r, o),
            _ => {},
        }
    }

    fn dispatch_4(&mut self, op: Op, o: Operands)
        requires
            group_of(op) == 4,
        ensures
            final(self)@ == exec_spec(old(self)@, op, o),
    {
        match op {
            Op::LdIdxNn(x) => self.exec_ld_idx_nn(x, o),
            Op::LdNnIdx(x) => self.exec_ld_nn_idx(x, o),
            Op::LdIdxMem(x) => self.exec_ld_idx_mem(x, o),
            Op::IncIdx(x) => self.exec_inc_idx(x, o),
            Op::DecIdx(x) => self.exec_dec_idx(x, o),
            Op::AddIdxRp(x, p) => self.exec_add_idx_rp(x, p, o),
            Op::LdRIdxD(x, r) => self.exec_ld_r_idx(x, r, o),
            Op::LdIdxDR(x, r) => self.exec_ld_idx_r(x, r, o),
            Op::LdIdxDN(x) => self.exec_ld_idx_n(x, o),
            Op::AluIdxD(x, k) => self.exec_alu_idx(x, k, o),
            Op::IncIdxD(x) => self.exec_inc_idx_mem(x, o),
            Op::DecIdxD(x) => self.exec_dec_idx_mem(x, o),
            Op::PushIdx(x) => self.exec_push_idx(x, o),
            _ => {},
        }
    }

    fn dispatch_5(&mut self, op: Op, o: Operands)
        requires
            group_of(op) == 5,
        ensures
            final(self)@ == exec_spec(old(self)@, op, o),
    {
        match op {
            Op::PopIdx(x) => self.exec_pop_idx(x, o),
            Op::JpIdx(x) => self.exec_jp_idx(x, o),
            Op::ExSpIdx(x) => self.exec_ex_sp_idx(x, o),
            Op::LdSpIdx(x) => self.exec_ld_sp_idx(x, o),
            Op::ShiftIdxD(x, k) => self.exec_shift_idx(x, k, o),
            Op::BitIdxD(x, b) => self.exec_bit_idx(x, b, o),
            Op::ResIdxD(x, b) => self.exec_res_idx(x, b, o),
            Op::SetIdxD(x, b) => self.exec_set_idx(x, b, o),
            Op::InRC(r) => self.exec_in_r_c_op(r, o),
            Op::InFC => self.exec_in_f_c_op(o),
            Op::OutCR(r) => self.exec_out_c_r_op(r, o),
            Op::OutC0 => self.exec_out_c_0_op(o),
            Op::SbcHlRp(p) => self.exec_sbc_hl_rp(p, o),
            _ => {},
        }
    }

    fn dispatch_6(&mut self, op: Op, o: Operands)
        requires
            group_of(op) == 6,
        ensures
            final(self)@ == exec_spec(old(self)@, op, o),
    {
        match op {
            Op::AdcHlRp(p) => self.exec_adc_hl_rp(p, o),
            Op::LdNnRp(p) => self.exec_ld_nn_rp(p, o),
            Op::LdRpMem(p) => self.exec_ld_rp_mem(p, o),
            Op::Neg => self.exec_neg_op(o),
            Op::Retn => self.exec_retn_op(o),
            Op::Reti => self.exec_reti_op(o),
            Op::Im(m) => self.exec_im_op(m, o),
            Op::Rrd => self.exec_rrd_op(o),
            Op::Rld => self.exec_rld_op(o),
            Op::LdIA => self.exec_ld_i_a(o),
            Op::Ldi => self.exec_ldi_op(o),
            Op::Ldd => self.exec_ldd_op(o),
            Op::Ldir => self.exec_ldir_op(o),
            _ => {},
        }
    }

    fn dispatch_8(&mut self, op: Op, o: Operands)
        requires
            group_of(op) == 8,
        ensures
            final(self)@ == exec_spec(old(self)@, op, o),
    {
        match op {
            Op::LdAHalf(x, h) => self.exec_ld_a_half(x, h, o),
            Op::LdHalfN(x, h) => self.exec_ld_half_n(x, h, o),
            Op::IncHalf(x, h) => self.exec_inc_half(x, h, o),
            Op::CpHalf(x, h) => self.exec_cp_half(x, h, o),
            _ => {},
        }
    }

    fn exec_ld_a_half(&mut self, x: IndexRegister, h: bool, o: Operands)
        ensures
            final(self)@ == exec_spec(old(self)@, Op::LdAHalf(x, h), o),
    {
        proof {
            reveal(exec_spec);
        }
        match x {
            IndexRegister::IX => if h {
                self.ld_a_ixh()
            } else {
                self.ld_a_ixl()
            },
            IndexRegister::IY => if h {
                self.ld_a_iyh()
            } else {
                self.ld_a_iyl()
            },
        }
    }

    fn exec_ld_half_n(&mut self, x: IndexRegister, h: bool, o: Operands)
        ensures
            final(self)@ == exec_spec(old(self)@, Op::LdHalfN(x, h), o),
    {
        proof {
            reveal(exec_spec);
        }
        match x {
            IndexRegister::IX => if h {
                self.ld_ixh_n(o.n)
            } else {
                self.ld_ixl_n(o.n)
            },
            IndexRegister::IY => if h {
                self.ld_iyh_n(o.n)
            } else {
                self.ld_iyl_n(o.n)
            },
        }
    }

    fn exec_inc_half(&mut self, x: IndexRegister, h: bool, o: Operands)
        ensures
            final(self)@ == exec_spec(old(self)@, Op::IncHalf(x, h), o),
    {
        proof {
            reveal(exec_spec);
        }
        match x {
            IndexRegister::IX => if h {
                self.inc_ixh()
            } else {
                self.inc_ixl()
            },
            IndexRegister::IY => if h {
                self.inc_iyh()
            } else {
                self.inc_iyl()
            },
        }
    }

    fn exec_cp_half(&mut self, x: IndexRegister, h: bool, o: Operands)
        ensures
            final(self)@ == exec_spec(old(self)@, Op::CpHalf(x, h), o),
    {
        proof {
            reveal(exec_spec);
        }
        match x {
            IndexRegister::IX => if h {
                self.cp_ixh()
            } else {
                self.cp_ixl()
            },
            IndexRegister::IY => if h {
                self.cp_iyh()
            } else {
                self.cp_iyl()
            },
        }
    }

    fn dispatch_7(&mut self, op: Op, o: Operands)
        requires
            group_of(op) == 7,
        ensures
            final(self)@ == exec_spec(old(self)@, op, o),
    {
        match op {
            Op::Lddr => self.exec_lddr_op(o),
            Op::Cpi => self.exec_cpi_op(o),
            Op::Cpd => self.exec_cpd_op(o),
            Op::Cpir => self.exec_cpir_op(o),
            Op::Cpdr => self.exec_cpdr_op(o),
            Op::Ini => self.exec_ini_op(o),
            Op::Ind => self.exec_ind_op(o),
            Op::Inir => self.exec_inir_op(o),
            Op::Indr => self.exec_indr_op(o),
            Op::Outi => self.exec_outi_op(o),
            Op::Outd => self.exec_outd_op(o),
            Op::Otir => self.exec_otir_op(o),
            Op::Otdr => self.exec_otdr_op(o),
            _ => {},
        }
    }

    fn exec_prefix(&mut self, o: Operands)
        ensures
            final(self)@ == exec_spec(old(self)@, Op::Prefix, o),
    {
        proof {
            reveal(exec_spec);
        }
    }

    fn exec_nop_op(&mut self, o: Operands)
        ensures
            final(self)@ == exec_spec(old(self)@, Op::Nop, o),
    {
        proof {
            reveal(exec_spec);
        }
    }

    /// HALT leaves PC on its own opcode; accepting an interrupt moves it on.
    fn exec_halt_op(&mut self, o: Operands)
        ensures
            final(self)@ == exec_spec(old(self)@, Op::Halt, o),
    {
        proof {
            reveal(exec_spec);
        }
        self.halt();
        self.pc = self.pc.wrapping_sub(1);
    }

    fn exec_ld_r8_r8(&mut self, d: R8, r: R8, o: Operands)
        ensures
            final(self)@ == exec_spec(old(self)@, Op::LdR8R8(d, r), o),
    {
        proof {
            reveal(exec_spec);
        }
        let v = self.read_r8(r);
        self.write_r8(d, v);
    }

    fn exec_ld_r8_n(&mut self, d: R8, o: Operands)
        ensures
            final(self)@ == exec_spec(old(self)@, Op::LdR8N(d), o),
    {
        proof {
            reveal(exec_spec);
        }
        self.write_r8(d, o.n);
    }

    fn exec_alu_r8(&mut self, k: AluOp, r: R8, o: Operands)
        ensures
            final(self)@ == exec_spec(old(self)@, Op::AluR8(k, r), o),
    {
        proof {
            reveal(exec_spec);
        }
        let v = self.read_r8(r);
        self.alu(k, v);
    }

    fn exec_alu_n(&mut self, k: AluOp, o: Operands)
        ensures
            final(self)@ == exec_spec(old(self)@, Op::AluN(k), o),
    {
        proof {
            reveal(exec_spec);
        }
        self.alu(k, o.n);
    }

    fn exec_inc_r8(&mut self, r: R8, o: Operands)
        ensures
            final(self)@ == exec_spec(old(self)@, Op::IncR8(r), o),
    {
        proof {
            reveal(exec_spec);
        }
        let v = self.read_r8(r);
        let res = self.inc(v);
        self.write_r8(r, res);
    }

    fn exec_dec_r8(&mut self, r: R8, o: Operands)
        ensures
            final(self)@ == exec_spec(old(self)@, Op::DecR8(r), o),
    {
        proof {
            reveal(exec_spec);
        }
        let v = self.read_r8(r);
        let res = self.dec(v);
        self.write_r8(r, res);
    }

    fn exec_ld_rp_nn(&mut self, p: RegisterPair, o: Operands)
        ensures
            final(self)@ == exec_spec(old(self)@, Op::LdRpNn(p), o),
    {
        proof {
            reveal(exec_spec);
        }
        self.write_register_pair(p, o.nn);
    }

    fn exec_add_hl_rp(&mut self, p: RegisterPair, o: Operands)
        ensures
            final(self)@ == exec_spec(old(self)@, Op::AddHlRp(p), o),
    {
        proof {
            reveal(exec_spec);
        }
        let v = self.read_register_pair(p);
        self.add_rr(RegisterPair::HL, v);
    }

    fn exec_inc_rp(&mut self, p: RegisterPair, o: Operands)
        ensures
            final(self)@ == exec_spec(old(self)@, Op::IncRp(p), o),
    {
        proof {
            reveal(exec_spec);
        }
        self.inc_rr(p);
    }

    fn exec_dec_rp(&mut self, p: RegisterPair, o: Operands)
        ensures
            final(self)@ == exec_spec(old(self)@, Op::DecRp(p), o),
    {
        proof {
            reveal(exec_spec);
        }
        self.dec_rr(p);
    }

    fn exec_ld_bc_a_op(&mut self, o: Operands)
        ensures
            final(self)@ == exec_spec(old(self)@, Op::LdBcA, o),
    {
        proof {
            reveal(exec_spec);
        }
        self.ld_bc_a();
    }

    fn exec_ld_de_a_op(&mut self, o: Operands)
        ensures
            final(self)@ == exec_spec(old(self)@, Op::LdDeA, o),
    {
        proof {
            reveal(exec_spec);
        }
        self.ld_de_a();
    }

    fn exec_ld_a_bc_op(&mut self, o: Operands)
        ensures
            final(self)@ == exec_spec(old(self)@, Op::LdABc, o),
    {
        proof {
            reveal(exec_spec);
        }
        self.ld_a_bc();
    }

    fn exec_ld_a_de_op(&mut self, o: Operands)
        ensures
            final(self)@ == exec_spec(old(self)@, Op::LdADe, o),
    {
        proof {
            reveal(exec_spec);
        }
        self.ld_a_de();
    }

    fn exec_ld_nn_hl_op(&mut self, o: Operands)
        ensures
            final(self)@ == exec_spec(old(self)@, Op::LdNnHl, o),
    {
        proof {
            reveal(exec_spec);
        }
        self.ld_nn_hl(o.nn);
    }

    fn exec_ld_hl_nn_op(&mut self, o: Operands)
        ensures
            final(self)@ == exec_spec(old(self)@, Op::LdHlNn, o),
    {
        proof {
            reveal(exec_spec);
        }
        self.ld_rr_mem(RegisterPair::HL, o.nn);
    }

    fn exec_ld_nn_a_op(&mut self, o: Operands)
        ensures
            final(self)@ == exec_spec(old(self)@, Op::LdNnA, o),
    {
        proof {
            reveal(exec_spec);
        }
        self.ld_nn_a(o.nn);
    }

    fn exec_ld_a_nn_op(&mut self, o: Operands)
        ensures
            final(self)@ == exec_spec(old(self)@, Op::LdANn, o),
    {
        proof {
            reveal(exec_spec);
        }
        self.ld_a_nn(o.nn);
    }

    fn exec_acc_shift(&mut self, k: ShiftOp, o: Operands)
        ensures
            final(self)@ == exec_spec(old(self)@, Op::AccShift(k), o),
    {
        proof {
            reveal(exec_spec);
        }
        self.shift_a(k);
    }

    fn exec_daa_op(&mut self, o: Operands)
        ensures
            final(self)@ == exec_spec(old(self)@, Op::Daa, o),
    {
        proof {
            reveal(exec_spec);
        }
        self.daa();
    }

    fn exec_cpl_op(&mut self, o: Operands)
        ensures
            final(self)@ == exec_spec(old(self)@, Op::Cpl, o),
    {
        proof {
            reveal(exec_spec);
        }
        self.cpl();
    }

    fn exec_scf_op(&mut self, o: Operands)
        ensures
            final(self)@ == exec_spec(old(self)@, Op::Scf, o),
    {
        proof {
            reveal(exec_spec);
        }
        self.scf();
    }

    fn exec_ccf_op(&mut self, o: Operands)
        ensures
            final(self)@ == exec_spec(old(self)@, Op::Ccf, o),
    {
        proof {
            reveal(exec_spec);
        }
        self.ccf();
    }

    fn exec_ex_af(&mut self, o: Operands)
        ensures
            final(self)@ == exec_spec(old(self)@, Op::ExAf, o),
    {
        proof {
            reveal(exec_spec);
        }
        self.ex_af_af_prime();
    }

    fn exec_exx_op(&mut self, o: Operands)
        ensures
            final(self)@ == exec_spec(old(self)@, Op::Exx, o),
    {
        proof {
            reveal(exec_spec);
        }
        self.exx();
    }

    fn exec_ex_de_hl_op(&mut self, o: Operands)
        ensures
            final(self)@ == exec_spec(old(self)@, Op::ExDeHl, o),
    {
        proof {
            reveal(exec_spec);
        }
        self.ex_de_hl();
    }

    fn exec_ex_sp_hl_op(&mut self, o: Operands)
        ensures
            final(self)@ == exec_spec(old(self)@, Op::ExSpHl, o),
    {
        proof {
            reveal(exec_spec);
        }
        self.ex_sp_hl();
    }

    fn exec_di_op(&mut self, o: Operands)
        ensures
            final(self)@ == exec_spec(old(self)@, Op::Di, o),
    {
        proof {
            reveal(exec_spec);
        }
        self.di();
    }

    fn exec_ei_op(&mut self, o: Operands)
        ensures
            final(self)@ == exec_spec(old(self)@, Op::Ei, o),
    {
        proof {
            reveal(exec_spec);
        }
        self.ei();
    }

    fn exec_djnz_op(&mut self, o: Operands)
        ensures
            final(self)@ == exec_spec(old(self)@, Op::Djnz, o),
    {
        proof {
            reveal(exec_spec);
        }
        self.djnz(o.d);
    }

    fn exec_jr_op(&mut self, o: Operands)
        ensures
            final(self)@ == exec_spec(old(self)@, Op::Jr, o),
    {
        proof {
            reveal(exec_spec);
        }
        self.jr(true, o.d);
    }

    fn exec_jr_cc(&mut self, c: Cond, o: Operands)
        ensures
            final(self)@ == exec_spec(old(self)@, Op::JrCc(c), o),
    {
        proof {
            reveal(exec_spec);
        }
        let t = self.condition(c);
        self.jr(t, o.d);
    }

    fn exec_jp_op(&mut self, o: Operands)
        ensures
            final(self)@ == exec_spec(old(self)@, Op::Jp, o),
    {
        proof {
            reveal(exec_spec);
        }
        self.jp(true, o.nn);
    }

    fn exec_jp_cc(&mut self, c: Cond, o: Operands)
        ensures
            final(self)@ == exec_spec(old(self)@, Op::JpCc(c), o),
    {
        proof {
            reveal(exec_spec);
        }
        let t = self.condition(c);
        self.jp(t, o.nn);
    }

    fn exec_jp_hl(&mut self, o: Operands)
        ensures
            final(self)@ == exec_spec(old(self)@, Op::JpHl, o),
    {
        proof {
            reveal(exec_spec);
        }
        let target = self.get_hl();
        self.jp(true, target);
    }

    fn exec_call_op(&mut self, o: Operands)
        ensures
            final(self)@ == exec_spec(old(self)@, Op::Call, o),
    {
        proof {
            reveal(exec_spec);
        }
        self.call(true, o.nn);
    }

    fn exec_call_cc(&mut self, c: Cond, o: Operands)
        ensures
            final(self)@ == exec_spec(old(self)@, Op::CallCc(c), o),
    {
        proof {
            reveal(exec_spec);
        }
        let t = self.condition(c);
        self.call(t, o.nn);
    }

    fn exec_ret_op(&mut self, o: Operands)
        ensures
            final(self)@ == exec_spec(old(self)@, Op::Ret, o),
    {
        proof {
            reveal(exec_spec);
        }
        self.ret(true);
    }

    fn exec_ret_cc(&mut self, c: Cond, o: Operands)
        ensures
            final(self)@ == exec_spec(old(self)@, Op::RetCc(c), o),
    {
        proof {
            reveal(exec_spec);
        }
        let t = self.condition(c);
        self.ret(t);
    }

    fn exec_rst_op(&mut self, t: u8, o: Operands)
        ensures
            final(self)@ == exec_spec(old(self)@, Op::Rst(t), o),
    {
        proof {
            reveal(exec_spec);
        }
        self.rst(t);
    }

    fn exec_push_op(&mut self, p: RegisterPair, o: Operands)
        ensures
            final(self)@ == exec_spec(old(self)@, Op::Push(p), o),
    {
        proof {
            reveal(exec_spec);
        }
        self.push_rr(p);
    }

    fn exec_pop_op(&mut self, p: RegisterPair, o: Operands)
        ensures
            final(self)@ == exec_spec(old(self)@, Op::Pop(p), o),
    {
        proof {
            reveal(exec_spec);
        }
        self.pop_rr(p);
    }

    fn exec_ld_sp_hl_op(&mut self, o: Operands)
        ensures
            final(self)@ == exec_spec(old(self)@, Op::LdSpHl, o),
    {
        proof {
            reveal(exec_spec);
        }
        self.ld_sp_hl();
    }

    fn exec_out_n_a_op(&mut self, o: Operands)
        ensures
            final(self)@ == exec_spec(old(self)@, Op::OutNA, o),
    {
        proof {
            reveal(exec_spec);
        }
        self.out_c_r(o.n, Register::A);
    }

    fn exec_in_a_n_op(&mut self, o: Operands)
        ensures
            final(self)@ == exec_spec(old(self)@, Op::InAN, o),
    {
        proof {
            reveal(exec_spec);
        }
        self.in_r_c(Register::A, o.n);
    }

    fn exec_shift_r8(&mut self, k: ShiftOp, r: R8, o: Operands)
        ensures
            final(self)@ == exec_spec(old(self)@, Op::Shift(k, r), o),
    {
        proof {
            reveal(exec_spec);
        }
        let v = self.read_r8(r);
        let res = self.shift(k, v);
        self.write_r8(r, res);
    }

    fn exec_bit_r8(&mut self, b: u8, r: R8, o: Operands)
        ensures
            final(self)@ == exec_spec(old(self)@, Op::BitR8(b, r), o),
    {
        proof {
            reveal(exec_spec);
        }
        if b < 8 {
            let v = self.read_r8(r);
            self.bit(b, v);
        }
    }

    fn exec_res_r8(&mut self, b: u8, r: R8, o: Operands)
        ensures
            final(self)@ == exec_spec(old(self)@, Op::ResR8(b, r), o),
    {
        proof {
            reveal(exec_spec);
        }
        if b < 8 {
            let mut v = self.read_r8(r);
            self.res_bit(b, &mut v);
            self.write_r8(r, v);
        }
    }

    fn exec_set_r8(&mut self, b: u8, r: R8, o: Operands)
        ensures
            final(self)@ == exec_spec(old(self)@, Op::SetR8(b, r), o),
    {
        proof {
            reveal(exec_spec);
        }
        if b < 8 {
            let mut v = self.read_r8(r);
            self.set_bit(b, &mut v);
            self.write_r8(r, v);
        }
    }

    fn exec_ld_idx_nn(&mut self, x: IndexRegister, o: Operands)
        ensures
            final(self)@ == exec_spec(old(self)@, Op::LdIdxNn(x), o),
    {
        proof {
            reveal(exec_spec);
        }
        self.write_index(x, o.nn);
    }

    fn exec_ld_nn_idx(&mut self, x: IndexRegister, o: Operands)
        ensures
            final(self)@ == exec_spec(old(self)@, Op::LdNnIdx(x), o),
    {
        proof {
            reveal(exec_spec);
        }
        let v = self.read_index(x);
        self.write_word(o.nn, v);
    }

    fn exec_ld_idx_mem(&mut self, x: IndexRegister, o: Operands)
        ensures
            final(self)@ == exec_spec(old(self)@, Op::LdIdxMem(x), o),
    {
        proof {
            reveal(exec_spec);
        }
        let v = self.read_word(o.nn);
        self.write_index(x, v);
    }

    fn exec_inc_idx(&mut self, x: IndexRegister, o: Operands)
        ensures
            final(self)@ == exec_spec(old(self)@, Op::IncIdx(x), o),
    {
        proof {
            reveal(exec_spec);
        }
        let v = self.read_index(x);
        self.write_index(x, v.wrapping_add(1));
    }

    fn exec_dec_idx(&mut self, x: IndexRegister, o: Operands)
        ensures
            final(self)@ == exec_spec(old(self)@, Op::DecIdx(x), o),
    {
        proof {
            reveal(exec_spec);
        }
        let v = self.read_index(x);
        self.write_index(x, v.wrapping_sub(1));
    }

    fn exec_add_idx_rp(&mut self, x: IndexRegister, p: RegisterPair, o: Operands)
        ensures
            final(self)@ == exec_spec(old(self)@, Op::AddIdxRp(x, p), o),
    {
        proof {
            reveal(exec_spec);
        }
        let v = self.read_register_pair(p);
        self.add_rr(index_pair(x), v);
    }

    fn exec_ld_r_idx(&mut self, x: IndexRegister, r: Register, o: Operands)
        ensures
            final(self)@ == exec_spec(old(self)@, Op::LdRIdxD(x, r), o),
    {
        proof {
            reveal(exec_spec);
        }
        self.ld_r_idx_d(x, r, o.d);
    }

    fn exec_ld_idx_r(&mut self, x: IndexRegister, r: Register, o: Operands)
        ensures
            final(self)@ == exec_spec(old(self)@, Op::LdIdxDR(x, r), o),
    {
        proof {
            reveal(exec_spec);
        }
        self.ld_idx_d_r(x, o.d, r);
    }

    fn exec_ld_idx_n(&mut self, x: IndexRegister, o: Operands)
        ensures
            final(self)@ == exec_spec(old(self)@, Op::LdIdxDN(x), o),
    {
        proof {
            reveal(exec_spec);
        }
        self.ld_idx_d_n(x, o.d, o.n);
    }

    fn exec_alu_idx(&mut self, x: IndexRegister, k: AluOp, o: Operands)
        ensures
            final(self)@ == exec_spec(old(self)@, Op::AluIdxD(x, k), o),
    {
        proof {
            reveal(exec_spec);
        }
        self.alu_idx_d(x, k, o.d);
    }

    fn exec_inc_idx_mem(&mut self, x: IndexRegister, o: Operands)
        ensures
            final(self)@ == exec_spec(old(self)@, Op::IncIdxD(x), o),
    {
        proof {
            reveal(exec_spec);
        }
        self.inc_idx_d(x, o.d);
    }

    fn exec_dec_idx_mem(&mut self, x: IndexRegister, o: Operands)
        ensures
            final(self)@ == exec_spec(old(self)@, Op::DecIdxD(x), o),
    {
        proof {
            reveal(exec_spec);
        }
        self.dec_idx_d(x, o.d);
    }

    fn exec_push_idx(&mut self, x: IndexRegister, o: Operands)
        ensures
            final(self)@ == exec_spec(old(self)@, Op::PushIdx(x), o),
    {
        proof {
            reveal(exec_spec);
        }
        let v = self.read_index(x);
        self.push(v);
    }

    fn exec_pop_idx(&mut self, x: IndexRegister, o: Operands)
        ensures
            final(self)@ == exec_spec(old(self)@, Op::PopIdx(x), o),
    {
        proof {
            reveal(exec_spec);
        }
        let v = self.pop();
        self.write_index(x, v);
    }

    fn exec_jp_idx(&mut self, x: IndexRegister, o: Operands)
        ensures
            final(self)@ == exec_spec(old(self)@, Op::JpIdx(x), o),
    {
        proof {
            reveal(exec_spec);
        }
        let target = self.read_index(x);
        self.jp(true, target);
    }

    fn exec_ex_sp_idx(&mut self, x: IndexRegister, o: Operands)
        ensures
            final(self)@ == exec_spec(old(self)@, Op::ExSpIdx(x), o),
    {
        proof {
            reveal(exec_spec);
        }
        let t = self.read_word(self.sp);
        let v = self.read_index(x);
        let sp = self.sp;
        self.write_word(sp, v);
        self.write_index(x, t);
    }

    fn exec_ld_sp_idx(&mut self, x: IndexRegister, o: Operands)
        ensures
            final(self)@ == exec_spec(old(self)@, Op::LdSpIdx(x), o),
    {
        proof {
            reveal(exec_spec);
        }
        self.sp = self.read_index(x);
    }

    fn exec_shift_idx(&mut self, x: IndexRegister, k: ShiftOp, o: Operands)
        ensures
            final(self)@ == exec_spec(old(self)@, Op::ShiftIdxD(x, k), o),
    {
        proof {
            reveal(exec_spec);
        }
        self.shift_idx_d(x, k, o.d);
    }

    fn exec_bit_idx(&mut self, x: IndexRegister, b: u8, o: Operands)
        ensures
            final(self)@ == exec_spec(old(self)@, Op::BitIdxD(x, b), o),
    {
        proof {
            reveal(exec_spec);
        }
        if b < 8 {
            self.bit_idx_d(x, b, o.d);
        }
    }

    fn exec_res_idx(&mut self, x: IndexRegister, b: u8, o: Operands)
        ensures
            final(self)@ == exec_spec(old(self)@, Op::ResIdxD(x, b), o),
    {
        proof {
            reveal(exec_spec);
        }
        if b < 8 {
            self.res_idx_d(x, b, o.d);
        }
    }

    fn exec_set_idx(&mut self, x: IndexRegister, b: u8, o: Operands)
        ensures
            final(self)@ == exec_spec(old(self)@, Op::SetIdxD(x, b), o),
    {
        proof {
            reveal(exec_spec);
        }
        if b < 8 {
            self.set_idx_d(x, b, o.d);
        }
    }

    fn exec_in_r_c_op(&mut self, r: Register, o: Operands)
        ensures
            final(self)@ == exec_spec(old(self)@, Op::InRC(r), o),
    {
        proof {
            reveal(exec_spec);
        }
        let port = self.c;
        self.in_r_c(r, port);
    }

    fn exec_in_f_c_op(&mut self, o: Operands)
        ensures
            final(self)@ == exec_spec(old(self)@, Op::InFC, o),
    {
        proof {
            reveal(exec_spec);
        }
        self.in_f_c();
    }

    fn exec_out_c_r_op(&mut self, r: Register, o: Operands)
        ensures
            final(self)@ == exec_spec(old(self)@, Op::OutCR(r), o),
    {
        proof {
            reveal(exec_spec);
        }
        let port = self.c;
        self.out_c_r(port, r);
    }

    fn exec_out_c_0_op(&mut self, o: Operands)
        ensures
            final(self)@ == exec_spec(old(self)@, Op::OutC0, o),
    {
        proof {
            reveal(exec_spec);
        }
        self.out_c_0();
    }

    fn exec_sbc_hl_rp(&mut self, p: RegisterPair, o: Operands)
        ensures
            final(self)@ == exec_spec(old(self)@, Op::SbcHlRp(p), o),
    {
        proof {
            reveal(exec_spec);
        }
        let v = self.read_register_pair(p);
        self.sbc_rr(RegisterPair::HL, v);
    }

    fn exec_adc_hl_rp(&mut self, p: RegisterPair, o: Operands)
        ensures
            final(self)@ == exec_spec(old(self)@, Op::AdcHlRp(p), o),
    {
        proof {
            reveal(exec_spec);
        }
        let v = self.read_register_pair(p);
        self.adc_rr(RegisterPair::HL, v);
    }

    fn exec_ld_nn_rp(&mut self, p: RegisterPair, o: Operands)
        ensures
            final(self)@ == exec_spec(old(self)@, Op::LdNnRp(p), o),
    {
        proof {
            reveal(exec_spec);
        }
        let v = self.read_register_pair(p);
        self.write_word(o.nn, v);
    }

    fn exec_ld_rp_mem(&mut self, p: RegisterPair, o: Operands)
        ensures
            final(self)@ == exec_spec(old(self)@, Op::LdRpMem(p), o),
    {
        proof {
            reveal(exec_spec);
        }
        self.ld_rr_mem(p, o.nn);
    }

    fn exec_neg_op(&mut self, o: Operands)
        ensures
            final(self)@ == exec_spec(old(self)@, Op::Neg, o),
    {
        proof {
            reveal(exec_spec);
        }
        self.neg();
    }

    fn exec_retn_op(&mut self, o: Operands)
        ensures
            final(self)@ == exec_spec(old(self)@, Op::Retn, o),
    {
        proof {
            reveal(exec_spec);
        }
        self.retn();
    }

    fn exec_reti_op(&mut self, o: Operands)
        ensures
            final(self)@ == exec_spec(old(self)@, Op::Reti, o),
    {
        proof {
            reveal(exec_spec);
        }
        self.reti();
    }

    fn exec_im_op(&mut self, m: u8, o: Operands)
        ensures
            final(self)@ == exec_spec(old(self)@, Op::Im(m), o),
    {
        proof {
            reveal(exec_spec);
        }
        self.interrupt_mode = m;
    }

    fn exec_rrd_op(&mut self, o: Operands)
        ensures
            final(self)@ == exec_spec(old(self)@, Op::Rrd, o),
    {
        proof {
            reveal(exec_spec);
        }
        self.rrd();
    }

    fn exec_rld_op(&mut self, o: Operands)
        ensures
            final(self)@ == exec_spec(old(self)@, Op::Rld, o),
    {
        proof {
            reveal(exec_spec);
        }
        self.rld();
    }

    fn exec_ld_i_a(&mut self, o: Operands)
        ensures
            final(self)@ == exec_spec(old(self)@, Op::LdIA, o),
    {
        proof {
            reveal(exec_spec);
        }
        self.i = self.a;
    }

    fn exec_ldi_op(&mut self, o: Operands)
        ensures
            final(self)@ == exec_spec(old(self)@, Op::Ldi, o),
    {
        proof {
            reveal(exec_spec);
        }
        self.ldi();
    }

    fn exec_ldd_op(&mut self, o: Operands)
        ensures
            final(self)@ == exec_spec(old(self)@, Op::Ldd, o),
    {
        proof {
            reveal(exec_spec);
        }
        self.ldd();
    }

    fn exec_ldir_op(&mut self, o: Operands)
        ensures
            final(self)@ == exec_spec(old(self)@, Op::Ldir, o),
    {
        proof {
            reveal(exec_spec);
        }
        self.ldir();
    }

    fn exec_lddr_op(&mut self, o: Operands)
        ensures
            final(self)@ == exec_spec(old(self)@, Op::Lddr, o),
    {
        proof {
            reveal(exec_spec);
        }
        self.lddr();
    }

    fn exec_cpi_op(&mut self, o: Operands)
        ensures
            final(self)@ == exec_spec(old(self)@, Op::Cpi, o),
    {
        proof {
            reveal(exec_spec);
        }
        self.cpi();
    }

    fn exec_cpd_op(&mut self, o: Operands)
        ensures
            final(self)@ == exec_spec(old(self)@, Op::Cpd, o),
    {
        proof {
            reveal(exec_spec);
        }
        self.cpd();
    }

    fn exec_cpir_op(&mut self, o: Operands)
        ensures
            final(self)@ == exec_spec(old(self)@, Op::Cpir, o),
    {
        proof {
            reveal(exec_spec);
        }
        self.cpir();
    }

    fn exec_cpdr_op(&mut self, o: Operands)
        ensures
            final(self)@ == exec_spec(old(self)@, Op::Cpdr, o),
    {
        proof {
            reveal(exec_spec);
        }
        self.cpdr();
    }

    fn exec_ini_op(&mut self, o: Operands)
        ensures
            final(self)@ == exec_spec(old(self)@, Op::Ini, o),
    {
        proof {
            reveal(exec_spec);
        }
        self.ini();
    }

    fn exec_ind_op(&mut self, o: Operands)
        ensures
            final(self)@ == exec_spec(old(self)@, Op::Ind, o),
    {
        proof {
            reveal(exec_spec);
        }
        self.ind();
    }

    fn exec_inir_op(&mut self, o: Operands)
        ensures
            final(self)@ == exec_spec(old(self)@, Op::Inir, o),
    {
        proof {
            reveal(exec_spec);
        }
        self.inir();
    }

    fn exec_indr_op(&mut self, o: Operands)
        ensures
            final(self)@ == exec_spec(old(self)@, Op::Indr, o),
    {
        proof {
            reveal(exec_spec);
        }
        self.indr();
    }

    fn exec_outi_op(&mut self, o: Operands)
        ensures
            final(self)@ == exec_spec(old(self)@, Op::Outi, o),
    {
        proof {
            reveal(exec_spec);
        }
        self.outi();
    }

    fn exec_outd_op(&mut self, o: Operands)
        ensures
            final(self)@ == exec_spec(old(self)@, Op::Outd, o),
    {
        proof {
            reveal(exec_spec);
        }
        self.outd();
    }

    fn exec_otir_op(&mut self, o: Operands)
        ensures
            final(self)@ == exec_spec(old(self)@, Op::Otir, o),
    {
        proof {
            reveal(exec_spec);
        }
        self.otir();
    }

    fn exec_otdr_op(&mut self, o: Operands)
        ensures
            final(self)@ == exec_spec(old(self)@, Op::Otdr, o),
    {
        proof {
            reveal(exec_spec);
        }
        self.otdr();
    }
}

/// The register pair that names an index register.
fn index_pair(x: IndexRegister) -> (p: RegisterPair)
    ensures
        p == pair_of(x),
{
    match x {
        IndexRegister::IX => RegisterPair::IX,
        IndexRegister::IY => RegisterPair::IY,
    }
}

} // verus!
