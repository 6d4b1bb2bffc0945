//! The opcode tables: for each of the main, CB, DD/FD, DD/FD+CB and ED
//! opcode spaces, a map from opcode byte to instruction descriptor, built
//! once from the opcode's bit fields x (bits 7-6), y (bits 5-3) and z
//! (bits 2-0), with p = y / 2 and q = y % 2.
use vstd::prelude::*;

use super::alu::{AluOp, ShiftOp};
use super::instruction::{Cond, Instruction, InstructionType, Op, R8};
use super::registers::{IndexRegister, Register, RegisterPair};

verus! {

/// What a table entry says about an instruction.
pub ghost struct Descriptor {
    pub length: u8,
    pub op: Op,
    pub mnemonic: &'static str,
    pub instruction_type: InstructionType,
    pub t_states: u32,
}

/// The descriptor of an entry.
pub open spec fn shape(e: Option<Instruction>) -> Option<Descriptor> {
    match e {
        Some(i) => Some(
            Descriptor {
                length: i.length,
                op: i.op,
                mnemonic: i.mnemonic,
                instruction_type: i.instruction_type,
                t_states: i.t_states,
            },
        ),
        None => None,
    }
}

pub open spec fn shape_ref(e: Option<&Instruction>) -> Option<Descriptor> {
    match e {
        Some(i) => shape(Some(*i)),
        None => None,
    }
}

pub open spec fn spec_r8_of(i: u8) -> R8 {
    match i {
        0 => R8::B,
        1 => R8::C,
        2 => R8::D,
        3 => R8::E,
        4 => R8::H,
        5 => R8::L,
        6 => R8::AtHl,
        _ => R8::A,
    }
}

fn r8_of(i: u8) -> (r: R8)
    ensures
        r == spec_r8_of(i),
{
    match i {
        0 => R8::B,
        1 => R8::C,
        2 => R8::D,
        3 => R8::E,
        4 => R8::H,
        5 => R8::L,
        6 => R8::AtHl,
        _ => R8::A,
    }
}

pub open spec fn spec_rp_of(i: u8) -> RegisterPair {
    match i {
        0 => RegisterPair::BC,
        1 => RegisterPair::DE,
        2 => RegisterPair::HL,
        _ => RegisterPair::SP,
    }
}

fn rp_of(i: u8) -> (r: RegisterPair)
    ensures
        r == spec_rp_of(i),
{
    match i {
        0 => RegisterPair::BC,
        1 => RegisterPair::DE,
        2 => RegisterPair::HL,
        _ => RegisterPair::SP,
    }
}

pub open spec fn spec_rp2_of(i: u8) -> RegisterPair {
    match i {
        0 => RegisterPair::BC,
        1 => RegisterPair::DE,
        2 => RegisterPair::HL,
        _ => RegisterPair::AF,
    }
}

fn rp2_of(i: u8) -> (r: RegisterPair)
    ensures
        r == spec_rp2_of(i),
{
    match i {
        0 => RegisterPair::BC,
        1 => RegisterPair::DE,
        2 => RegisterPair::HL,
        _ => RegisterPair::AF,
    }
}

pub open spec fn spec_rp_ix_of(i: u8) -> RegisterPair {
    match i {
        0 => RegisterPair::BC,
        1 => RegisterPair::DE,
        2 => RegisterPair::IX,
        _ => RegisterPair::SP,
    }
}

fn rp_ix_of(i: u8) -> (r: RegisterPair)
    ensures
        r == spec_rp_ix_of(i),
{
    match i {
        0 => RegisterPair::BC,
        1 => RegisterPair::DE,
        2 => RegisterPair::IX,
        _ => RegisterPair::SP,
    }
}

pub open spec fn spec_alu_of(i: u8) -> AluOp {
    match i {
        0 => AluOp::Add,
        1 => AluOp::Adc,
        2 => AluOp::Sub,
        3 => AluOp::Sbc,
        4 => AluOp::And,
        5 => AluOp::Xor,
        6 => AluOp::Or,
        _ => AluOp::Cp,
    }
}

fn alu_of(i: u8) -> (r: AluOp)
    ensures
        r == spec_alu_of(i),
{
    match i {
        0 => AluOp::Add,
        1 => AluOp::Adc,
        2 => AluOp::Sub,
        3 => AluOp::Sbc,
        4 => AluOp::And,
        5 => AluOp::Xor,
        6 => AluOp::Or,
        _ => AluOp::Cp,
    }
}

pub open spec fn spec_shift_of(i: u8) -> ShiftOp {
    match i {
        0 => ShiftOp::Rlc,
        1 => ShiftOp::Rrc,
        2 => ShiftOp::Rl,
        3 => ShiftOp::Rr,
        4 => ShiftOp::Sla,
        5 => ShiftOp::Sra,
        6 => ShiftOp::Sll,
        _ => ShiftOp::Srl,
    }
}

fn shift_of(i: u8) -> (r: ShiftOp)
    ensures
        r == spec_shift_of(i),
{
    match i {
        0 => ShiftOp::Rlc,
        1 => ShiftOp::Rrc,
        2 => ShiftOp::Rl,
        3 => ShiftOp::Rr,
        4 => ShiftOp::Sla,
        5 => ShiftOp::Sra,
        6 => ShiftOp::Sll,
        _ => ShiftOp::Srl,
    }
}

pub open spec fn spec_cond_of(i: u8) -> Cond {
    match i {
        0 => Cond::NZ,
        1 => Cond::Z,
        2 => Cond::NC,
        3 => Cond::C,
        4 => Cond::PO,
        5 => Cond::PE,
        6 => Cond::P,
        _ => Cond::M,
    }
}

fn cond_of(i: u8) -> (r: Cond)
    ensures
        r == spec_cond_of(i),
{
    match i {
        0 => Cond::NZ,
        1 => Cond::Z,
        2 => Cond::NC,
        3 => Cond::C,
        4 => Cond::PO,
        5 => Cond::PE,
        6 => Cond::P,
        _ => Cond::M,
    }
}

pub open spec fn spec_reg_of(i: u8) -> Register {
    match i {
        0 => Register::B,
        1 => Register::C,
        2 => Register::D,
        3 => Register::E,
        4 => Register::H,
        5 => Register::L,
        6 => Register::F,
        _ => Register::A,
    }
}

fn reg_of(i: u8) -> (r: Register)
    ensures
        r == spec_reg_of(i),
{
    match i {
        0 => Register::B,
        1 => Register::C,
        2 => Register::D,
        3 => Register::E,
        4 => Register::H,
        5 => Register::L,
        6 => Register::F,
        _ => Register::A,
    }
}

/// The unprefixed opcodes. 0xFF is left undefined.
#[verifier::opaque]
pub open spec fn main_shape(k: u8) -> Option<Descriptor> {
    let x = k / 64;
    let y = (k / 8) % 8;
    let z = k % 8;
    let p = y / 2;
    let q = y % 2;
    if x == 0 {
        if z == 0 {
            if y == 0 {
                Some(Descriptor { length: 1, op: Op::Nop, mnemonic: "NOP", instruction_type: InstructionType::Control, t_states: 4 })
            } else if y == 1 {
                Some(Descriptor { length: 1, op: Op::ExAf, mnemonic: "EX AF, AF'", instruction_type: InstructionType::Exchange, t_states: 4 })
            } else if y == 2 {
                Some(Descriptor { length: 2, op: Op::Djnz, mnemonic: "DJNZ d", instruction_type: InstructionType::Jump, t_states: 13 })
            } else if y == 3 {
                Some(Descriptor { length: 2, op: Op::Jr, mnemonic: "JR d", instruction_type: InstructionType::Jump, t_states: 12 })
            } else {
                Some(Descriptor { length: 2, op: Op::JrCc(spec_cond_of((y - 4) as u8)), mnemonic: spec_jr_cc_name((y - 4) as u8), instruction_type: InstructionType::Jump, t_states: 12 })
            }
        } else if z == 1 {
            if q == 0 {
                Some(Descriptor { length: 3, op: Op::LdRpNn(spec_rp_of(p)), mnemonic: spec_ld_rp_name(p), instruction_type: InstructionType::Load, t_states: 10 })
            } else {
                Some(Descriptor { length: 1, op: Op::AddHlRp(spec_rp_of(p)), mnemonic: spec_add_hl_name(p), instruction_type: InstructionType::Arithmetic, t_states: 11 })
            }
        } else if z == 2 {
            if y == 0 {
                Some(Descriptor { length: 1, op: Op::LdBcA, mnemonic: "LD (BC), A", instruction_type: InstructionType::Load, t_states: 7 })
            } else if y == 1 {
                Some(Descriptor { length: 1, op: Op::LdABc, mnemonic: "LD A, (BC)", instruction_type: InstructionType::Load, t_states: 7 })
            } else if y == 2 {
                Some(Descriptor { length: 1, op: Op::LdDeA, mnemonic: "LD (DE), A", instruction_type: InstructionType::Load, t_states: 7 })
            } else if y == 3 {
                Some(Descriptor { length: 1, op: Op::LdADe, mnemonic: "LD A, (DE)", instruction_type: InstructionType::Load, t_states: 7 })
            } else if y == 4 {
                Some(Descriptor { length: 3, op: Op::LdNnHl, mnemonic: "LD (nn), HL", instruction_type: InstructionType::Load, t_states: 16 })
            } else if y == 5 {
                Some(Descriptor { length: 3, op: Op::LdHlNn, mnemonic: "LD HL, (nn)", instruction_type: InstructionType::Load, t_states: 16 })
            } else if y == 6 {
                Some(Descriptor { length: 3, op: Op::LdNnA, mnemonic: "LD (nn), A", instruction_type: InstructionType::Load, t_states: 13 })
            } else {
                Some(Descriptor { length: 3, op: Op::LdANn, mnemonic: "LD A, (nn)", instruction_type: InstructionType::Load, t_states: 13 })
            }
        } else if z == 3 {
            if q == 0 {
                Some(Descriptor { length: 1, op: Op::IncRp(spec_rp_of(p)), mnemonic: spec_inc_rp_name(p), instruction_type: InstructionType::Arithmetic, t_states: 6 })
            } else {
                Some(Descriptor { length: 1, op: Op::DecRp(spec_rp_of(p)), mnemonic: spec_dec_rp_name(p), instruction_type: InstructionType::Arithmetic, t_states: 6 })
            }
        } else if z == 4 {
            Some(Descriptor { length: 1, op: Op::IncR8(spec_r8_of(y)), mnemonic: spec_inc_name(y), instruction_type: InstructionType::Arithmetic, t_states: if y == 6 { 11 } else { 4 } })
        } else if z == 5 {
            Some(Descriptor { length: 1, op: Op::DecR8(spec_r8_of(y)), mnemonic: spec_dec_name(y), instruction_type: InstructionType::Arithmetic, t_states: if y == 6 { 11 } else { 4 } })
        } else if z == 6 {
            Some(Descriptor { length: 2, op: Op::LdR8N(spec_r8_of(y)), mnemonic: spec_ld_n_name(y), instruction_type: InstructionType::Load, t_states: if y == 6 { 10 } else { 7 } })
        } else if y < 4 {
            Some(Descriptor { length: 1, op: Op::AccShift(spec_shift_of(y)), mnemonic: spec_acc_rot_name(y), instruction_type: InstructionType::Rotate, t_states: 4 })
        } else if y == 4 {
            Some(Descriptor { length: 1, op: Op::Daa, mnemonic: "DAA", instruction_type: InstructionType::Arithmetic, t_states: 4 })
        } else if y == 5 {
            Some(Descriptor { length: 1, op: Op::Cpl, mnemonic: "CPL", instruction_type: InstructionType::Logic, t_states: 4 })
        } else if y == 6 {
            Some(Descriptor { length: 1, op: Op::Scf, mnemonic: "SCF", instruction_type: InstructionType::Control, t_states: 4 })
        } else {
            Some(Descriptor { length: 1, op: Op::Ccf, mnemonic: "CCF", instruction_type: InstructionType::Control, t_states: 4 })
        }
    } else if x == 1 {
        if y == 6 && z == 6 {
            Some(Descriptor { length: 1, op: Op::Halt, mnemonic: "HALT", instruction_type: InstructionType::Control, t_states: 4 })
        } else {
            Some(Descriptor { length: 1, op: Op::LdR8R8(spec_r8_of(y), spec_r8_of(z)), mnemonic: spec_ld_name(y, z), instruction_type: InstructionType::Load, t_states: if y == 6 || z == 6 { 7 } else { 4 } })
        }
    } else if x == 2 {
        Some(Descriptor { length: 1, op: Op::AluR8(spec_alu_of(y), spec_r8_of(z)), mnemonic: spec_alu_name(y, z), instruction_type: (if y >= 4 { InstructionType::Logic } else { InstructionType::Arithmetic }), t_states: if z == 6 { 7 } else { 4 } })
    } else if z == 0 {
        Some(Descriptor { length: 1, op: Op::RetCc(spec_cond_of(y)), mnemonic: spec_ret_cc_name(y), instruction_type: InstructionType::Return, t_states: 11 })
    } else if z == 1 {
        if q == 0 {
            Some(Descriptor { length: 1, op: Op::Pop(spec_rp2_of(p)), mnemonic: spec_pop_name(p), instruction_type: InstructionType::Load, t_states: 10 })
        } else if p == 0 {
            Some(Descriptor { length: 1, op: Op::Ret, mnemonic: "RET", instruction_type: InstructionType::Return, t_states: 10 })
        } else if p == 1 {
            Some(Descriptor { length: 1, op: Op::Exx, mnemonic: "EXX", instruction_type: InstructionType::Exchange, t_states: 4 })
        } else if p == 2 {
            Some(Descriptor { length: 1, op: Op::JpHl, mnemonic: "JP (HL)", instruction_type: InstructionType::Jump, t_states: 4 })
        } else {
            Some(Descriptor { length: 1, op: Op::LdSpHl, mnemonic: "LD SP, HL", instruction_type: InstructionType::Load, t_states: 6 })
        }
    } else if z == 2 {
        Some(Descriptor { length: 3, op: Op::JpCc(spec_cond_of(y)), mnemonic: spec_jp_cc_name(y), instruction_type: InstructionType::Jump, t_states: 10 })
    } else if z == 3 {
        if y == 0 {
            Some(Descriptor { length: 3, op: Op::Jp, mnemonic: "JP nn", instruction_type: InstructionType::Jump, t_states: 10 })
        } else if y == 1 {
            None
        } else if y == 2 {
            Some(Descriptor { length: 2, op: Op::OutNA, mnemonic: "OUT (n), A", instruction_type: InstructionType::IO, t_states: 11 })
        } else if y == 3 {
            Some(Descriptor { length: 2, op: Op::InAN, mnemonic: "IN A, (n)", instruction_type: InstructionType::IO, t_states: 11 })
        } else if y == 4 {
            Some(Descriptor { length: 1, op: Op::ExSpHl, mnemonic: "EX (SP), HL", instruction_type: InstructionType::Exchange, t_states: 19 })
        } else if y == 5 {
            Some(Descriptor { length: 1, op: Op::ExDeHl, mnemonic: "EX DE, HL", instruction_type: InstructionType::Exchange, t_states: 4 })
        } else if y == 6 {
            Some(Descriptor { length: 1, op: Op::Di, mnemonic: "DI", instruction_type: InstructionType::Control, t_states: 4 })
        } else {
            Some(Descriptor { length: 1, op: Op::Ei, mnemonic: "EI", instruction_type: InstructionType::Control, t_states: 4 })
        }
    } else if z == 4 {
        Some(Descriptor { length: 3, op: Op::CallCc(spec_cond_of(y)), mnemonic: spec_call_cc_name(y), instruction_type: InstructionType::Call, t_states: 17 })
    } else if z == 5 {
        if q == 0 {
            Some(Descriptor { length: 1, op: Op::Push(spec_rp2_of(p)), mnemonic: spec_push_name(p), instruction_type: InstructionType::Load, t_states: 11 })
        } else if p == 0 {
            Some(Descriptor { length: 3, op: Op::Call, mnemonic: "CALL nn", instruction_type: InstructionType::Call, t_states: 17 })
        } else {
            None
        }
    } else if z == 6 {
        Some(Descriptor { length: 2, op: Op::AluN(spec_alu_of(y)), mnemonic: spec_alu_n_name(y), instruction_type: (if y >= 4 { InstructionType::Logic } else { InstructionType::Arithmetic }), t_states: 7 })
    } else if y < 7 {
        Some(Descriptor { length: 1, op: Op::Rst((y * 8) as u8), mnemonic: spec_rst_name(y), instruction_type: InstructionType::Call, t_states: 11 })
    } else {
        None
    }
}

fn main_entry(k: u8) -> (r: Option<Instruction>)
    ensures
        shape(r) == main_shape(k),
{
    proof {
        reveal(main_shape);
    }
    let x = k / 64;
    let y = (k / 8) % 8;
    let z = k % 8;
    let p = y / 2;
    let q = y % 2;
    if x == 0 {
        if z == 0 {
            if y == 0 {
                Some(Instruction { length: 1, op: Op::Nop, mnemonic: "NOP", instruction_type: InstructionType::Control, t_states: 4 })
            } else if y == 1 {
                Some(Instruction { length: 1, op: Op::ExAf, mnemonic: "EX AF, AF'", instruction_type: InstructionType::Exchange, t_states: 4 })
            } else if y == 2 {
                Some(Instruction { length: 2, op: Op::Djnz, mnemonic: "DJNZ d", instruction_type: InstructionType::Jump, t_states: 13 })
            } else if y == 3 {
                Some(Instruction { length: 2, op: Op::Jr, mnemonic: "JR d", instruction_type: InstructionType::Jump, t_states: 12 })
            } else {
                Some(Instruction { length: 2, op: Op::JrCc(cond_of((y - 4) as u8)), mnemonic: jr_cc_name((y - 4) as u8), instruction_type: InstructionType::Jump, t_states: 12 })
            }
        } else if z == 1 {
            if q == 0 {
                Some(Instruction { length: 3, op: Op::LdRpNn(rp_of(p)), mnemonic: ld_rp_name(p), instruction_type: InstructionType::Load, t_states: 10 })
            } else {
                Some(Instruction { length: 1, op: Op::AddHlRp(rp_of(p)), mnemonic: add_hl_name(p), instruction_type: InstructionType::Arithmetic, t_states: 11 })
            }
        } else if z == 2 {
            if y == 0 {
                Some(Instruction { length: 1, op: Op::LdBcA, mnemonic: "LD (BC), A", instruction_type: InstructionType::Load, t_states: 7 })
            } else if y == 1 {
                Some(Instruction { length: 1, op: Op::LdABc, mnemonic: "LD A, (BC)", instruction_type: InstructionType::Load, t_states: 7 })
            } else if y == 2 {
                Some(Instruction { length: 1, op: Op::LdDeA, mnemonic: "LD (DE), A", instruction_type: InstructionType::Load, t_states: 7 })
            } else if y == 3 {
                Some(Instruction { length: 1, op: Op::LdADe, mnemonic: "LD A, (DE)", instruction_type: InstructionType::Load, t_states: 7 })
            } else if y == 4 {
                Some(Instruction { length: 3, op: Op::LdNnHl, mnemonic: "LD (nn), HL", instruction_type: InstructionType::Load, t_states: 16 })
            } else if y == 5 {
                Some(Instruction { length: 3, op: Op::LdHlNn, mnemonic: "LD HL, (nn)", instruction_type: InstructionType::Load, t_states: 16 })
            } else if y == 6 {
                Some(Instruction { length: 3, op: Op::LdNnA, mnemonic: "LD (nn), A", instruction_type: InstructionType::Load, t_states: 13 })
            } else {
                Some(Instruction { length: 3, op: Op::LdANn, mnemonic: "LD A, (nn)", instruction_type: InstructionType::Load, t_states: 13 })
            }
        } else if z == 3 {
            if q == 0 {
                Some(Instruction { length: 1, op: Op::IncRp(rp_of(p)), mnemonic: inc_rp_name(p), instruction_type: InstructionType::Arithmetic, t_states: 6 })
            } else {
                Some(Instruction { length: 1, op: Op::DecRp(rp_of(p)), mnemonic: dec_rp_name(p), instruction_type: InstructionType::Arithmetic, t_states: 6 })
            }
        } else if z == 4 {
            Some(Instruction { length: 1, op: Op::IncR8(r8_of(y)), mnemonic: inc_name(y), instruction_type: InstructionType::Arithmetic, t_states: if y == 6 { 11 } else { 4 } })
        } else if z == 5 {
            Some(Instruction { length: 1, op: Op::DecR8(r8_of(y)), mnemonic: dec_name(y), instruction_type: InstructionType::Arithmetic, t_states: if y == 6 { 11 } else { 4 } })
        } else if z == 6 {
            Some(Instruction { length: 2, op: Op::LdR8N(r8_of(y)), mnemonic: ld_n_name(y), instruction_type: InstructionType::Load, t_states: if y == 6 { 10 } else { 7 } })
        } else if y < 4 {
            Some(Instruction { length: 1, op: Op::AccShift(shift_of(y)), mnemonic: acc_rot_name(y), instruction_type: InstructionType::Rotate, t_states: 4 })
        } else if y == 4 {
            Some(Instruction { length: 1, op: Op::Daa, mnemonic: "DAA", instruction_type: InstructionType::Arithmetic, t_states: 4 })
        } else if y == 5 {
            Some(Instruction { length: 1, op: Op::Cpl, mnemonic: "CPL", instruction_type: InstructionType::Logic, t_states: 4 })
        } else if y == 6 {
            Some(Instruction { length: 1, op: Op::Scf, mnemonic: "SCF", instruction_type: InstructionType::Control, t_states: 4 })
        } else {
            Some(Instruction { length: 1, op: Op::Ccf, mnemonic: "CCF", instruction_type: InstructionType::Control, t_states: 4 })
        }
    } else if x == 1 {
        if y == 6 && z == 6 {
            Some(Instruction { length: 1, op: Op::Halt, mnemonic: "HALT", instruction_type: InstructionType::Control, t_states: 4 })
        } else {
            Some(Instruction { length: 1, op: Op::LdR8R8(r8_of(y), r8_of(z)), mnemonic: ld_name(y, z), instruction_type: InstructionType::Load, t_states: if y == 6 || z == 6 { 7 } else { 4 } })
        }
    } else if x == 2 {
        Some(Instruction { length: 1, op: Op::AluR8(alu_of(y), r8_of(z)), mnemonic: alu_name(y, z), instruction_type: (if y >= 4 { InstructionType::Logic } else { InstructionType::Arithmetic }), t_states: if z == 6 { 7 } else { 4 } })
    } else if z == 0 {
        Some(Instruction { length: 1, op: Op::RetCc(cond_of(y)), mnemonic: ret_cc_name(y), instruction_type: InstructionType::Return, t_states: 11 })
    } else if z == 1 {
        if q == 0 {
            Some(Instruction { length: 1, op: Op::Pop(rp2_of(p)), mnemonic: pop_name(p), instruction_type: InstructionType::Load, t_states: 10 })
        } else if p == 0 {
            Some(Instruction { length: 1, op: Op::Ret, mnemonic: "RET", instruction_type: InstructionType::Return, t_states: 10 })
        } else if p == 1 {
            Some(Instruction { length: 1, op: Op::Exx, mnemonic: "EXX", instruction_type: InstructionType::Exchange, t_states: 4 })
        } else if p == 2 {
            Some(Instruction { length: 1, op: Op::JpHl, mnemonic: "JP (HL)", instruction_type: InstructionType::Jump, t_states: 4 })
        } else {
            Some(Instruction { length: 1, op: Op::LdSpHl, mnemonic: "LD SP, HL", instruction_type: InstructionType::Load, t_states: 6 })
        }
    } else if z == 2 {
        Some(Instruction { length: 3, op: Op::JpCc(cond_of(y)), mnemonic: jp_cc_name(y), instruction_type: InstructionType::Jump, t_states: 10 })
    } else if z == 3 {
        if y == 0 {
            Some(Instruction { length: 3, op: Op::Jp, mnemonic: "JP nn", instruction_type: InstructionType::Jump, t_states: 10 })
        } else if y == 1 {
            None
        } else if y == 2 {
            Some(Instruction { length: 2, op: Op::OutNA, mnemonic: "OUT (n), A", instruction_type: InstructionType::IO, t_states: 11 })
        } else if y == 3 {
            Some(Instruction { length: 2, op: Op::InAN, mnemonic: "IN A, (n)", instruction_type: InstructionType::IO, t_states: 11 })
        } else if y == 4 {
            Some(Instruction { length: 1, op: Op::ExSpHl, mnemonic: "EX (SP), HL", instruction_type: InstructionType::Exchange, t_states: 19 })
        } else if y == 5 {
            Some(Instruction { length: 1, op: Op::ExDeHl, mnemonic: "EX DE, HL", instruction_type: InstructionType::Exchange, t_states: 4 })
        } else if y == 6 {
            Some(Instruction { length: 1, op: Op::Di, mnemonic: "DI", instruction_type: InstructionType::Control, t_states: 4 })
        } else {
            Some(Instruction { length: 1, op: Op::Ei, mnemonic: "EI", instruction_type: InstructionType::Control, t_states: 4 })
        }
    } else if z == 4 {
        Some(Instruction { length: 3, op: Op::CallCc(cond_of(y)), mnemonic: call_cc_name(y), instruction_type: InstructionType::Call, t_states: 17 })
    } else if z == 5 {
        if q == 0 {
            Some(Instruction { length: 1, op: Op::Push(rp2_of(p)), mnemonic: push_name(p), instruction_type: InstructionType::Load, t_states: 11 })
        } else if p == 0 {
            Some(Instruction { length: 3, op: Op::Call, mnemonic: "CALL nn", instruction_type: InstructionType::Call, t_states: 17 })
        } else {
            None
        }
    } else if z == 6 {
        Some(Instruction { length: 2, op: Op::AluN(alu_of(y)), mnemonic: alu_n_name(y), instruction_type: (if y >= 4 { InstructionType::Logic } else { InstructionType::Arithmetic }), t_states: 7 })
    } else if y < 7 {
        Some(Instruction { length: 1, op: Op::Rst((y * 8) as u8), mnemonic: rst_name(y), instruction_type: InstructionType::Call, t_states: 11 })
    } else {
        None
    }
}

/// The CB-prefixed opcodes; costs include the prefix byte.
#[verifier::opaque]
pub open spec fn cb_shape(k: u8) -> Option<Descriptor> {
    let x = k / 64;
    let y = (k / 8) % 8;
    let z = k % 8;
    let p = y / 2;
    let q = y % 2;
    if x == 0 {
        Some(Descriptor { length: 2, op: Op::Shift(spec_shift_of(y), spec_r8_of(z)), mnemonic: spec_rot_name(y, z), instruction_type: InstructionType::Rotate, t_states: if z == 6 { 15 } else { 8 } })
    } else if x == 1 {
        Some(Descriptor { length: 2, op: Op::BitR8(y, spec_r8_of(z)), mnemonic: spec_bit_name(y, z), instruction_type: InstructionType::BitManip, t_states: if z == 6 { 12 } else { 8 } })
    } else if x == 2 {
        Some(Descriptor { length: 2, op: Op::ResR8(y, spec_r8_of(z)), mnemonic: spec_res_name(y, z), instruction_type: InstructionType::BitManip, t_states: if z == 6 { 15 } else { 8 } })
    } else {
        Some(Descriptor { length: 2, op: Op::SetR8(y, spec_r8_of(z)), mnemonic: spec_set_name(y, z), instruction_type: InstructionType::BitManip, t_states: if z == 6 { 15 } else { 8 } })
    }
}

fn cb_entry(k: u8) -> (r: Option<Instruction>)
    ensures
        shape(r) == cb_shape(k),
{
    proof {
        reveal(cb_shape);
    }
    let x = k / 64;
    let y = (k / 8) % 8;
    let z = k % 8;
    let p = y / 2;
    let q = y % 2;
    if x == 0 {
        Some(Instruction { length: 2, op: Op::Shift(shift_of(y), r8_of(z)), mnemonic: rot_name(y, z), instruction_type: InstructionType::Rotate, t_states: if z == 6 { 15 } else { 8 } })
    } else if x == 1 {
        Some(Instruction { length: 2, op: Op::BitR8(y, r8_of(z)), mnemonic: bit_name(y, z), instruction_type: InstructionType::BitManip, t_states: if z == 6 { 12 } else { 8 } })
    } else if x == 2 {
        Some(Instruction { length: 2, op: Op::ResR8(y, r8_of(z)), mnemonic: res_name(y, z), instruction_type: InstructionType::BitManip, t_states: if z == 6 { 15 } else { 8 } })
    } else {
        Some(Instruction { length: 2, op: Op::SetR8(y, r8_of(z)), mnemonic: set_name(y, z), instruction_type: InstructionType::BitManip, t_states: if z == 6 { 15 } else { 8 } })
    }
}

/// The DD-prefixed opcodes, in their IX form; an FD prefix selects the IY form of the same entry. Costs are those after the prefix byte. The entries at 0xC6 + 8r (IY loads) and 0x84 + 16p (ADD IX) are alternate encodings that the table also answers.
#[verifier::opaque]
pub open spec fn ddfd_shape(k: u8) -> Option<Descriptor> {
    let x = k / 64;
    let y = (k / 8) % 8;
    let z = k % 8;
    let p = y / 2;
    let q = y % 2;
    if k == 0x7C {
        Some(Descriptor { length: 2, op: Op::LdAHalf(IndexRegister::IX, true), mnemonic: "LD A, IXH", instruction_type: InstructionType::Load, t_states: 4 })
    } else if k == 0x7D {
        Some(Descriptor { length: 2, op: Op::LdAHalf(IndexRegister::IX, false), mnemonic: "LD A, IXL", instruction_type: InstructionType::Load, t_states: 4 })
    } else if k == 0x26 {
        Some(Descriptor { length: 3, op: Op::LdHalfN(IndexRegister::IX, true), mnemonic: "LD IXH, n", instruction_type: InstructionType::Load, t_states: 7 })
    } else if k == 0x2E {
        Some(Descriptor { length: 3, op: Op::LdHalfN(IndexRegister::IX, false), mnemonic: "LD IXL, n", instruction_type: InstructionType::Load, t_states: 7 })
    } else if k == 0x24 {
        Some(Descriptor { length: 2, op: Op::IncHalf(IndexRegister::IX, true), mnemonic: "INC IXH", instruction_type: InstructionType::Arithmetic, t_states: 4 })
    } else if k == 0x2C {
        Some(Descriptor { length: 2, op: Op::IncHalf(IndexRegister::IX, false), mnemonic: "INC IXL", instruction_type: InstructionType::Arithmetic, t_states: 4 })
    } else if k == 0xBC {
        Some(Descriptor { length: 2, op: Op::CpHalf(IndexRegister::IX, true), mnemonic: "CP IXH", instruction_type: InstructionType::Logic, t_states: 4 })
    } else if k == 0xBD {
        Some(Descriptor { length: 2, op: Op::CpHalf(IndexRegister::IX, false), mnemonic: "CP IXL", instruction_type: InstructionType::Logic, t_states: 4 })
    } else if x == 0 && z == 1 && q == 1 {
        Some(Descriptor { length: 2, op: Op::AddIdxRp(IndexRegister::IX, spec_rp_ix_of(p)), mnemonic: spec_add_ix_name(p), instruction_type: InstructionType::Arithmetic, t_states: 11 })
    } else if k == 0x21 {
        Some(Descriptor { length: 4, op: Op::LdIdxNn(IndexRegister::IX), mnemonic: "LD IX, nn", instruction_type: InstructionType::Load, t_states: 10 })
    } else if k == 0x22 {
        Some(Descriptor { length: 4, op: Op::LdNnIdx(IndexRegister::IX), mnemonic: "LD (nn), IX", instruction_type: InstructionType::Load, t_states: 16 })
    } else if k == 0x2A {
        Some(Descriptor { length: 4, op: Op::LdIdxMem(IndexRegister::IX), mnemonic: "LD IX, (nn)", instruction_type: InstructionType::Load, t_states: 16 })
    } else if k == 0x23 {
        Some(Descriptor { length: 2, op: Op::IncIdx(IndexRegister::IX), mnemonic: "INC IX", instruction_type: InstructionType::Arithmetic, t_states: 6 })
    } else if k == 0x2B {
        Some(Descriptor { length: 2, op: Op::DecIdx(IndexRegister::IX), mnemonic: "DEC IX", instruction_type: InstructionType::Arithmetic, t_states: 6 })
    } else if k == 0x34 {
        Some(Descriptor { length: 3, op: Op::IncIdxD(IndexRegister::IX), mnemonic: "INC (IX+d)", instruction_type: InstructionType::Arithmetic, t_states: 19 })
    } else if k == 0x35 {
        Some(Descriptor { length: 3, op: Op::DecIdxD(IndexRegister::IX), mnemonic: "DEC (IX+d)", instruction_type: InstructionType::Arithmetic, t_states: 19 })
    } else if k == 0x36 {
        Some(Descriptor { length: 4, op: Op::LdIdxDN(IndexRegister::IX), mnemonic: "LD (IX+d), n", instruction_type: InstructionType::Load, t_states: 15 })
    } else if x == 1 && z == 6 && y != 6 {
        Some(Descriptor { length: 3, op: Op::LdRIdxD(IndexRegister::IX, spec_reg_of(y)), mnemonic: spec_ix_load_name(y), instruction_type: InstructionType::Load, t_states: 19 })
    } else if x == 1 && y == 6 && z != 6 {
        Some(Descriptor { length: 3, op: Op::LdIdxDR(IndexRegister::IX, spec_reg_of(z)), mnemonic: spec_ix_store_name(z), instruction_type: InstructionType::Load, t_states: 15 })
    } else if x == 2 && z == 6 {
        Some(Descriptor { length: 3, op: Op::AluIdxD(IndexRegister::IX, spec_alu_of(y)), mnemonic: spec_alu_ix_name(y), instruction_type: (if y >= 4 { InstructionType::Logic } else { InstructionType::Arithmetic }), t_states: 15 })
    } else if x == 2 && z == 4 && q == 0 {
        Some(Descriptor { length: 2, op: Op::AddIdxRp(IndexRegister::IX, spec_rp_ix_of(p)), mnemonic: spec_add_ix_name(p), instruction_type: InstructionType::Arithmetic, t_states: 15 })
    } else if x == 3 && z == 6 && y != 6 {
        Some(Descriptor { length: 3, op: Op::LdRIdxD(IndexRegister::IY, spec_reg_of(y)), mnemonic: spec_iy_load_name(y), instruction_type: InstructionType::Load, t_states: 19 })
    } else if k == 0xE1 {
        Some(Descriptor { length: 2, op: Op::PopIdx(IndexRegister::IX), mnemonic: "POP IX", instruction_type: InstructionType::Load, t_states: 10 })
    } else if k == 0xE3 {
        Some(Descriptor { length: 2, op: Op::ExSpIdx(IndexRegister::IX), mnemonic: "EX (SP), IX", instruction_type: InstructionType::Exchange, t_states: 19 })
    } else if k == 0xE5 {
        Some(Descriptor { length: 2, op: Op::PushIdx(IndexRegister::IX), mnemonic: "PUSH IX", instruction_type: InstructionType::Load, t_states: 11 })
    } else if k == 0xE9 {
        Some(Descriptor { length: 2, op: Op::JpIdx(IndexRegister::IX), mnemonic: "JP (IX)", instruction_type: InstructionType::Jump, t_states: 4 })
    } else if k == 0xF9 {
        Some(Descriptor { length: 2, op: Op::LdSpIdx(IndexRegister::IX), mnemonic: "LD SP, IX", instruction_type: InstructionType::Load, t_states: 6 })
    } else {
        None
    }
}

fn ddfd_entry(k: u8) -> (r: Option<Instruction>)
    ensures
        shape(r) == ddfd_shape(k),
{
    proof {
        reveal(ddfd_shape);
    }
    let x = k / 64;
    let y = (k / 8) % 8;
    let z = k % 8;
    let p = y / 2;
    let q = y % 2;
    if k == 0x7C {
        Some(Instruction { length: 2, op: Op::LdAHalf(IndexRegister::IX, true), mnemonic: "LD A, IXH", instruction_type: InstructionType::Load, t_states: 4 })
    } else if k == 0x7D {
        Some(Instruction { length: 2, op: Op::LdAHalf(IndexRegister::IX, false), mnemonic: "LD A, IXL", instruction_type: InstructionType::Load, t_states: 4 })
    } else if k == 0x26 {
        Some(Instruction { length: 3, op: Op::LdHalfN(IndexRegister::IX, true), mnemonic: "LD IXH, n", instruction_type: InstructionType::Load, t_states: 7 })
    } else if k == 0x2E {
        Some(Instruction { length: 3, op: Op::LdHalfN(IndexRegister::IX, false), mnemonic: "LD IXL, n", instruction_type: InstructionType::Load, t_states: 7 })
    } else if k == 0x24 {
        Some(Instruction { length: 2, op: Op::IncHalf(IndexRegister::IX, true), mnemonic: "INC IXH", instruction_type: InstructionType::Arithmetic, t_states: 4 })
    } else if k == 0x2C {
        Some(Instruction { length: 2, op: Op::IncHalf(IndexRegister::IX, false), mnemonic: "INC IXL", instruction_type: InstructionType::Arithmetic, t_states: 4 })
    } else if k == 0xBC {
        Some(Instruction { length: 2, op: Op::CpHalf(IndexRegister::IX, true), mnemonic: "CP IXH", instruction_type: InstructionType::Logic, t_states: 4 })
    } else if k == 0xBD {
        Some(Instruction { length: 2, op: Op::CpHalf(IndexRegister::IX, false), mnemonic: "CP IXL", instruction_type: InstructionType::Logic, t_states: 4 })
    } else if x == 0 && z == 1 && q == 1 {
        Some(Instruction { length: 2, op: Op::AddIdxRp(IndexRegister::IX, rp_ix_of(p)), mnemonic: add_ix_name(p), instruction_type: InstructionType::Arithmetic, t_states: 11 })
    } else if k == 0x21 {
        Some(Instruction { length: 4, op: Op::LdIdxNn(IndexRegister::IX), mnemonic: "LD IX, nn", instruction_type: InstructionType::Load, t_states: 10 })
    } else if k == 0x22 {
        Some(Instruction { length: 4, op: Op::LdNnIdx(IndexRegister::IX), mnemonic: "LD (nn), IX", instruction_type: InstructionType::Load, t_states: 16 })
    } else if k == 0x2A {
        Some(Instruction { length: 4, op: Op::LdIdxMem(IndexRegister::IX), mnemonic: "LD IX, (nn)", instruction_type: InstructionType::Load, t_states: 16 })
    } else if k == 0x23 {
        Some(Instruction { length: 2, op: Op::IncIdx(IndexRegister::IX), mnemonic: "INC IX", instruction_type: InstructionType::Arithmetic, t_states: 6 })
    } else if k == 0x2B {
        Some(Instruction { length: 2, op: Op::DecIdx(IndexRegister::IX), mnemonic: "DEC IX", instruction_type: InstructionType::Arithmetic, t_states: 6 })
    } else if k == 0x34 {
        Some(Instruction { length: 3, op: Op::IncIdxD(IndexRegister::IX), mnemonic: "INC (IX+d)", instruction_type: InstructionType::Arithmetic, t_states: 19 })
    } else if k == 0x35 {
        Some(Instruction { length: 3, op: Op::DecIdxD(IndexRegister::IX), mnemonic: "DEC (IX+d)", instruction_type: InstructionType::Arithmetic, t_states: 19 })
    } else if k == 0x36 {
        Some(Instruction { length: 4, op: Op::LdIdxDN(IndexRegister::IX), mnemonic: "LD (IX+d), n", instruction_type: InstructionType::Load, t_states: 15 })
    } else if x == 1 && z == 6 && y != 6 {
        Some(Instruction { length: 3, op: Op::LdRIdxD(IndexRegister::IX, reg_of(y)), mnemonic: ix_load_name(y), instruction_type: InstructionType::Load, t_states: 19 })
    } else if x == 1 && y == 6 && z != 6 {
        Some(Instruction { length: 3, op: Op::LdIdxDR(IndexRegister::IX, reg_of(z)), mnemonic: ix_store_name(z), instruction_type: InstructionType::Load, t_states: 15 })
    } else if x == 2 && z == 6 {
        Some(Instruction { length: 3, op: Op::AluIdxD(IndexRegister::IX, alu_of(y)), mnemonic: alu_ix_name(y), instruction_type: (if y >= 4 { InstructionType::Logic } else { InstructionType::Arithmetic }), t_states: 15 })
    } else if x == 2 && z == 4 && q == 0 {
        Some(Instruction { length: 2, op: Op::AddIdxRp(IndexRegister::IX, rp_ix_of(p)), mnemonic: add_ix_name(p), instruction_type: InstructionType::Arithmetic, t_states: 15 })
    } else if x == 3 && z == 6 && y != 6 {
        Some(Instruction { length: 3, op: Op::LdRIdxD(IndexRegister::IY, reg_of(y)), mnemonic: iy_load_name(y), instruction_type: InstructionType::Load, t_states: 19 })
    } else if k == 0xE1 {
        Some(Instruction { length: 2, op: Op::PopIdx(IndexRegister::IX), mnemonic: "POP IX", instruction_type: InstructionType::Load, t_states: 10 })
    } else if k == 0xE3 {
        Some(Instruction { length: 2, op: Op::ExSpIdx(IndexRegister::IX), mnemonic: "EX (SP), IX", instruction_type: InstructionType::Exchange, t_states: 19 })
    } else if k == 0xE5 {
        Some(Instruction { length: 2, op: Op::PushIdx(IndexRegister::IX), mnemonic: "PUSH IX", instruction_type: InstructionType::Load, t_states: 11 })
    } else if k == 0xE9 {
        Some(Instruction { length: 2, op: Op::JpIdx(IndexRegister::IX), mnemonic: "JP (IX)", instruction_type: InstructionType::Jump, t_states: 4 })
    } else if k == 0xF9 {
        Some(Instruction { length: 2, op: Op::LdSpIdx(IndexRegister::IX), mnemonic: "LD SP, IX", instruction_type: InstructionType::Load, t_states: 6 })
    } else {
        None
    }
}

/// The DD CB d op opcodes, in their IX form; only the (IX+d) column is defined. Costs are those after the two prefix bytes.
#[verifier::opaque]
pub open spec fn ddcb_shape(k: u8) -> Option<Descriptor> {
    let x = k / 64;
    let y = (k / 8) % 8;
    let z = k % 8;
    let p = y / 2;
    let q = y % 2;
    if z == 6 {
        if x == 0 {
            Some(Descriptor { length: 4, op: Op::ShiftIdxD(IndexRegister::IX, spec_shift_of(y)), mnemonic: spec_rot_ix_name(y), instruction_type: InstructionType::Rotate, t_states: 15 })
        } else if x == 1 {
            Some(Descriptor { length: 4, op: Op::BitIdxD(IndexRegister::IX, y), mnemonic: spec_bit_ix_name(y), instruction_type: InstructionType::BitManip, t_states: 12 })
        } else if x == 2 {
            Some(Descriptor { length: 4, op: Op::ResIdxD(IndexRegister::IX, y), mnemonic: spec_res_ix_name(y), instruction_type: InstructionType::BitManip, t_states: 15 })
        } else {
            Some(Descriptor { length: 4, op: Op::SetIdxD(IndexRegister::IX, y), mnemonic: spec_set_ix_name(y), instruction_type: InstructionType::BitManip, t_states: 15 })
        }
    } else {
        None
    }
}

fn ddcb_entry(k: u8) -> (r: Option<Instruction>)
    ensures
        shape(r) == ddcb_shape(k),
{
    proof {
        reveal(ddcb_shape);
    }
    let x = k / 64;
    let y = (k / 8) % 8;
    let z = k % 8;
    let p = y / 2;
    let q = y % 2;
    if z == 6 {
        if x == 0 {
            Some(Instruction { length: 4, op: Op::ShiftIdxD(IndexRegister::IX, shift_of(y)), mnemonic: rot_ix_name(y), instruction_type: InstructionType::Rotate, t_states: 15 })
        } else if x == 1 {
            Some(Instruction { length: 4, op: Op::BitIdxD(IndexRegister::IX, y), mnemonic: bit_ix_name(y), instruction_type: InstructionType::BitManip, t_states: 12 })
        } else if x == 2 {
            Some(Instruction { length: 4, op: Op::ResIdxD(IndexRegister::IX, y), mnemonic: res_ix_name(y), instruction_type: InstructionType::BitManip, t_states: 15 })
        } else {
            Some(Instruction { length: 4, op: Op::SetIdxD(IndexRegister::IX, y), mnemonic: set_ix_name(y), instruction_type: InstructionType::BitManip, t_states: 15 })
        }
    } else {
        None
    }
}

/// The ED-prefixed opcodes; costs include the prefix byte.
#[verifier::opaque]
pub open spec fn ed_shape(k: u8) -> Option<Descriptor> {
    let x = k / 64;
    let y = (k / 8) % 8;
    let z = k % 8;
    let p = y / 2;
    let q = y % 2;
    if x == 1 && z == 0 && y == 6 {
        Some(Descriptor { length: 2, op: Op::InFC, mnemonic: "IN (C)", instruction_type: InstructionType::IO, t_states: 12 })
    } else if x == 1 && z == 0 {
        Some(Descriptor { length: 2, op: Op::InRC(spec_reg_of(y)), mnemonic: spec_in_name(y), instruction_type: InstructionType::IO, t_states: 12 })
    } else if x == 1 && z == 1 && y == 6 {
        Some(Descriptor { length: 2, op: Op::OutC0, mnemonic: "OUT (C),0", instruction_type: InstructionType::IO, t_states: 12 })
    } else if x == 1 && z == 1 {
        Some(Descriptor { length: 2, op: Op::OutCR(spec_reg_of(y)), mnemonic: spec_out_name(y), instruction_type: InstructionType::IO, t_states: 12 })
    } else if x == 1 && z == 2 && q == 0 {
        Some(Descriptor { length: 2, op: Op::SbcHlRp(spec_rp_of(p)), mnemonic: spec_sbc_hl_name(p), instruction_type: InstructionType::Arithmetic, t_states: 15 })
    } else if x == 1 && z == 2 {
        Some(Descriptor { length: 2, op: Op::AdcHlRp(spec_rp_of(p)), mnemonic: spec_adc_hl_name(p), instruction_type: InstructionType::Arithmetic, t_states: 15 })
    } else if x == 1 && z == 3 && q == 0 {
        Some(Descriptor { length: 4, op: Op::LdNnRp(spec_rp_of(p)), mnemonic: spec_ld_nn_rp_name(p), instruction_type: InstructionType::Load, t_states: 20 })
    } else if x == 1 && z == 3 {
        Some(Descriptor { length: 4, op: Op::LdRpMem(spec_rp_of(p)), mnemonic: spec_ld_rp_nn_name(p), instruction_type: InstructionType::Load, t_states: 20 })
    } else if k == 0x44 || k == 0x4C {
        Some(Descriptor { length: 2, op: Op::Neg, mnemonic: "NEG", instruction_type: InstructionType::Arithmetic, t_states: 8 })
    } else if k == 0x45 {
        Some(Descriptor { length: 2, op: Op::Retn, mnemonic: "RETN", instruction_type: InstructionType::Return, t_states: 14 })
    } else if k == 0x4D {
        Some(Descriptor { length: 2, op: Op::Reti, mnemonic: "RETI", instruction_type: InstructionType::Return, t_states: 14 })
    } else if k == 0x46 {
        Some(Descriptor { length: 2, op: Op::Im(0), mnemonic: "IM 0", instruction_type: InstructionType::Control, t_states: 8 })
    } else if k == 0x56 {
        Some(Descriptor { length: 2, op: Op::Im(1), mnemonic: "IM 1", instruction_type: InstructionType::Control, t_states: 8 })
    } else if k == 0x5E {
        Some(Descriptor { length: 2, op: Op::Im(2), mnemonic: "IM 2", instruction_type: InstructionType::Control, t_states: 8 })
    } else if k == 0x47 {
        Some(Descriptor { length: 2, op: Op::LdIA, mnemonic: "LD I, A", instruction_type: InstructionType::Load, t_states: 9 })
    } else if k == 0x67 {
        Some(Descriptor { length: 2, op: Op::Rrd, mnemonic: "RRD", instruction_type: InstructionType::Arithmetic, t_states: 18 })
    } else if k == 0x6F {
        Some(Descriptor { length: 2, op: Op::Rld, mnemonic: "RLD", instruction_type: InstructionType::Arithmetic, t_states: 18 })
    } else if k == 0xA0 {
        Some(Descriptor { length: 2, op: Op::Ldi, mnemonic: "LDI", instruction_type: InstructionType::Block, t_states: 16 })
    } else if k == 0xA1 {
        Some(Descriptor { length: 2, op: Op::Cpi, mnemonic: "CPI", instruction_type: InstructionType::Block, t_states: 16 })
    } else if k == 0xA2 {
        Some(Descriptor { length: 2, op: Op::Ini, mnemonic: "INI", instruction_type: InstructionType::Block, t_states: 16 })
    } else if k == 0xA3 {
        Some(Descriptor { length: 2, op: Op::Outi, mnemonic: "OUTI", instruction_type: InstructionType::Block, t_states: 16 })
    } else if k == 0xA8 {
        Some(Descriptor { length: 2, op: Op::Ldd, mnemonic: "LDD", instruction_type: InstructionType::Block, t_states: 16 })
    } else if k == 0xA9 {
        Some(Descriptor { length: 2, op: Op::Cpd, mnemonic: "CPD", instruction_type: InstructionType::Block, t_states: 16 })
    } else if k == 0xAA {
        Some(Descriptor { length: 2, op: Op::Ind, mnemonic: "IND", instruction_type: InstructionType::Block, t_states: 16 })
    } else if k == 0xAB {
        Some(Descriptor { length: 2, op: Op::Outd, mnemonic: "OUTD", instruction_type: InstructionType::Block, t_states: 16 })
    } else if k == 0xB0 {
        Some(Descriptor { length: 2, op: Op::Ldir, mnemonic: "LDIR", instruction_type: InstructionType::Block, t_states: 21 })
    } else if k == 0xB1 {
        Some(Descriptor { length: 2, op: Op::Cpir, mnemonic: "CPIR", instruction_type: InstructionType::Block, t_states: 21 })
    } else if k == 0xB2 {
        Some(Descriptor { length: 2, op: Op::Inir, mnemonic: "INIR", instruction_type: InstructionType::Block, t_states: 21 })
    } else if k == 0xB3 {
        Some(Descriptor { length: 2, op: Op::Otir, mnemonic: "OTIR", instruction_type: InstructionType::Block, t_states: 21 })
    } else if k == 0xB8 {
        Some(Descriptor { length: 2, op: Op::Lddr, mnemonic: "LDDR", instruction_type: InstructionType::Block, t_states: 21 })
    } else if k == 0xB9 {
        Some(Descriptor { length: 2, op: Op::Cpdr, mnemonic: "CPDR", instruction_type: InstructionType::Block, t_states: 21 })
    } else if k == 0xBA {
        Some(Descriptor { length: 2, op: Op::Indr, mnemonic: "INDR", instruction_type: InstructionType::Block, t_states: 21 })
    } else if k == 0xBB {
        Some(Descriptor { length: 2, op: Op::Otdr, mnemonic: "OTDR", instruction_type: InstructionType::Block, t_states: 21 })
    } else {
        None
    }
}

fn ed_entry(k: u8) -> (r: Option<Instruction>)
    ensures
        shape(r) == ed_shape(k),
{
    proof {
        reveal(ed_shape);
    }
    let x = k / 64;
    let y = (k / 8) % 8;
    let z = k % 8;
    let p = y / 2;
    let q = y % 2;
    if x == 1 && z == 0 && y == 6 {
        Some(Instruction { length: 2, op: Op::InFC, mnemonic: "IN (C)", instruction_type: InstructionType::IO, t_states: 12 })
    } else if x == 1 && z == 0 {
        Some(Instruction { length: 2, op: Op::InRC(reg_of(y)), mnemonic: in_name(y), instruction_type: InstructionType::IO, t_states: 12 })
    } else if x == 1 && z == 1 && y == 6 {
        Some(Instruction { length: 2, op: Op::OutC0, mnemonic: "OUT (C),0", instruction_type: InstructionType::IO, t_states: 12 })
    } else if x == 1 && z == 1 {
        Some(Instruction { length: 2, op: Op::OutCR(reg_of(y)), mnemonic: out_name(y), instruction_type: InstructionType::IO, t_states: 12 })
    } else if x == 1 && z == 2 && q == 0 {
        Some(Instruction { length: 2, op: Op::SbcHlRp(rp_of(p)), mnemonic: sbc_hl_name(p), instruction_type: InstructionType::Arithmetic, t_states: 15 })
    } else if x == 1 && z == 2 {
        Some(Instruction { length: 2, op: Op::AdcHlRp(rp_of(p)), mnemonic: adc_hl_name(p), instruction_type: InstructionType::Arithmetic, t_states: 15 })
    } else if x == 1 && z == 3 && q == 0 {
        Some(Instruction { length: 4, op: Op::LdNnRp(rp_of(p)), mnemonic: ld_nn_rp_name(p), instruction_type: InstructionType::Load, t_states: 20 })
    } else if x == 1 && z == 3 {
        Some(Instruction { length: 4, op: Op::LdRpMem(rp_of(p)), mnemonic: ld_rp_nn_name(p), instruction_type: InstructionType::Load, t_states: 20 })
    } else if k == 0x44 || k == 0x4C {
        Some(Instruction { length: 2, op: Op::Neg, mnemonic: "NEG", instruction_type: InstructionType::Arithmetic, t_states: 8 })
    } else if k == 0x45 {
        Some(Instruction { length: 2, op: Op::Retn, mnemonic: "RETN", instruction_type: InstructionType::Return, t_states: 14 })
    } else if k == 0x4D {
        Some(Instruction { length: 2, op: Op::Reti, mnemonic: "RETI", instruction_type: InstructionType::Return, t_states: 14 })
    } else if k == 0x46 {
        Some(Instruction { length: 2, op: Op::Im(0), mnemonic: "IM 0", instruction_type: InstructionType::Control, t_states: 8 })
    } else if k == 0x56 {
        Some(Instruction { length: 2, op: Op::Im(1), mnemonic: "IM 1", instruction_type: InstructionType::Control, t_states: 8 })
    } else if k == 0x5E {
        Some(Instruction { length: 2, op: Op::Im(2), mnemonic: "IM 2", instruction_type: InstructionType::Control, t_states: 8 })
    } else if k == 0x47 {
        Some(Instruction { length: 2, op: Op::LdIA, mnemonic: "LD I, A", instruction_type: InstructionType::Load, t_states: 9 })
    } else if k == 0x67 {
        Some(Instruction { length: 2, op: Op::Rrd, mnemonic: "RRD", instruction_type: InstructionType::Arithmetic, t_states: 18 })
    } else if k == 0x6F {
        Some(Instruction { length: 2, op: Op::Rld, mnemonic: "RLD", instruction_type: InstructionType::Arithmetic, t_states: 18 })
    } else if k == 0xA0 {
        Some(Instruction { length: 2, op: Op::Ldi, mnemonic: "LDI", instruction_type: InstructionType::Block, t_states: 16 })
    } else if k == 0xA1 {
        Some(Instruction { length: 2, op: Op::Cpi, mnemonic: "CPI", instruction_type: InstructionType::Block, t_states: 16 })
    } else if k == 0xA2 {
        Some(Instruction { length: 2, op: Op::Ini, mnemonic: "INI", instruction_type: InstructionType::Block, t_states: 16 })
    } else if k == 0xA3 {
        Some(Instruction { length: 2, op: Op::Outi, mnemonic: "OUTI", instruction_type: InstructionType::Block, t_states: 16 })
    } else if k == 0xA8 {
        Some(Instruction { length: 2, op: Op::Ldd, mnemonic: "LDD", instruction_type: InstructionType::Block, t_states: 16 })
    } else if k == 0xA9 {
        Some(Instruction { length: 2, op: Op::Cpd, mnemonic: "CPD", instruction_type: InstructionType::Block, t_states: 16 })
    } else if k == 0xAA {
        Some(Instruction { length: 2, op: Op::Ind, mnemonic: "IND", instruction_type: InstructionType::Block, t_states: 16 })
    } else if k == 0xAB {
        Some(Instruction { length: 2, op: Op::Outd, mnemonic: "OUTD", instruction_type: InstructionType::Block, t_states: 16 })
    } else if k == 0xB0 {
        Some(Instruction { length: 2, op: Op::Ldir, mnemonic: "LDIR", instruction_type: InstructionType::Block, t_states: 21 })
    } else if k == 0xB1 {
        Some(Instruction { length: 2, op: Op::Cpir, mnemonic: "CPIR", instruction_type: InstructionType::Block, t_states: 21 })
    } else if k == 0xB2 {
        Some(Instruction { length: 2, op: Op::Inir, mnemonic: "INIR", instruction_type: InstructionType::Block, t_states: 21 })
    } else if k == 0xB3 {
        Some(Instruction { length: 2, op: Op::Otir, mnemonic: "OTIR", instruction_type: InstructionType::Block, t_states: 21 })
    } else if k == 0xB8 {
        Some(Instruction { length: 2, op: Op::Lddr, mnemonic: "LDDR", instruction_type: InstructionType::Block, t_states: 21 })
    } else if k == 0xB9 {
        Some(Instruction { length: 2, op: Op::Cpdr, mnemonic: "CPDR", instruction_type: InstructionType::Block, t_states: 21 })
    } else if k == 0xBA {
        Some(Instruction { length: 2, op: Op::Indr, mnemonic: "INDR", instruction_type: InstructionType::Block, t_states: 21 })
    } else if k == 0xBB {
        Some(Instruction { length: 2, op: Op::Otdr, mnemonic: "OTDR", instruction_type: InstructionType::Block, t_states: 21 })
    } else {
        None
    }
}


/// The five opcode tables.
pub struct InstructionTables {
    main: Vec<Option<Instruction>>,
    cb: Vec<Option<Instruction>>,
    ddfd: Vec<Option<Instruction>>,
    ddcb: Vec<Option<Instruction>>,
    ed: Vec<Option<Instruction>>,
}

impl InstructionTables {
    #[verifier::type_invariant]
    spec fn complete(&self) -> bool {
        &&& self.main@.len() == 256
        &&& forall|k: int| 0 <= k < 256 ==> shape(#[trigger] self.main@[k]) == main_shape(k as u8)
        &&& self.cb@.len() == 256
        &&& forall|k: int| 0 <= k < 256 ==> shape(#[trigger] self.cb@[k]) == cb_shape(k as u8)
        &&& self.ddfd@.len() == 256
        &&& forall|k: int| 0 <= k < 256 ==> shape(#[trigger] self.ddfd@[k]) == ddfd_shape(k as u8)
        &&& self.ddcb@.len() == 256
        &&& forall|k: int| 0 <= k < 256 ==> shape(#[trigger] self.ddcb@[k]) == ddcb_shape(k as u8)
        &&& self.ed@.len() == 256
        &&& forall|k: int| 0 <= k < 256 ==> shape(#[trigger] self.ed@[k]) == ed_shape(k as u8)
    }

    /// Builds every table.
    pub fn new() -> (t: InstructionTables) {
    let mut main: Vec<Option<Instruction>> = Vec::new();
    let mut k: u16 = 0;
    while k < 256
        invariant
            k <= 256,
            main@.len() == k,
            forall|j: int| 0 <= j < k ==> shape(#[trigger] main@[j]) == main_shape(j as u8),
        decreases 256 - k,
    {
        main.push(main_entry(k as u8));
        k = k + 1;
    }
    let mut cb: Vec<Option<Instruction>> = Vec::new();
    let mut k: u16 = 0;
    while k < 256
        invariant
            k <= 256,
            cb@.len() == k,
            forall|j: int| 0 <= j < k ==> shape(#[trigger] cb@[j]) == cb_shape(j as u8),
        decreases 256 - k,
    {
        cb.push(cb_entry(k as u8));
        k = k + 1;
    }
    let mut ddfd: Vec<Option<Instruction>> = Vec::new();
    let mut k: u16 = 0;
    while k < 256
        invariant
            k <= 256,
            ddfd@.len() == k,
            forall|j: int| 0 <= j < k ==> shape(#[trigger] ddfd@[j]) == ddfd_shape(j as u8),
        decreases 256 - k,
    {
        ddfd.push(ddfd_entry(k as u8));
        k = k + 1;
    }
    let mut ddcb: Vec<Option<Instruction>> = Vec::new();
    let mut k: u16 = 0;
    while k < 256
        invariant
            k <= 256,
            ddcb@.len() == k,
            forall|j: int| 0 <= j < k ==> shape(#[trigger] ddcb@[j]) == ddcb_shape(j as u8),
        decreases 256 - k,
    {
        ddcb.push(ddcb_entry(k as u8));
        k = k + 1;
    }
    let mut ed: Vec<Option<Instruction>> = Vec::new();
    let mut k: u16 = 0;
    while k < 256
        invariant
            k <= 256,
            ed@.len() == k,
            forall|j: int| 0 <= j < k ==> shape(#[trigger] ed@[j]) == ed_shape(j as u8),
        decreases 256 - k,
    {
        ed.push(ed_entry(k as u8));
        k = k + 1;
    }
        InstructionTables { main, cb, ddfd, ddcb, ed }
    }

    /// Looks up an unprefixed opcode; `None` when it is undefined.
    pub fn lookup_main(&self, opcode: u8) -> (r: Option<&Instruction>)
        ensures
            shape_ref(r) == main_shape(opcode),
    {
        proof {
            use_type_invariant(self);
        }
        self.main[opcode as usize].as_ref()
    }

    /// Looks up a CB-prefixed opcode; `None` when it is undefined.
    pub fn lookup_cb(&self, opcode: u8) -> (r: Option<&Instruction>)
        ensures
            shape_ref(r) == cb_shape(opcode),
    {
        proof {
            use_type_invariant(self);
        }
        self.cb[opcode as usize].as_ref()
    }

    /// Looks up a DD/FD-prefixed opcode; `None` when it is undefined.
    pub fn lookup_ddfd(&self, opcode: u8) -> (r: Option<&Instruction>)
        ensures
            shape_ref(r) == ddfd_shape(opcode),
    {
        proof {
            use_type_invariant(self);
        }
        self.ddfd[opcode as usize].as_ref()
    }

    /// Looks up a DD CB / FD CB opcode; `None` when it is undefined.
    pub fn lookup_ddcb(&self, opcode: u8) -> (r: Option<&Instruction>)
        ensures
            shape_ref(r) == ddcb_shape(opcode),
    {
        proof {
            use_type_invariant(self);
        }
        self.ddcb[opcode as usize].as_ref()
    }

    /// Looks up an ED-prefixed opcode; `None` when it is undefined.
    pub fn lookup_ed(&self, opcode: u8) -> (r: Option<&Instruction>)
        ensures
            shape_ref(r) == ed_shape(opcode),
    {
        proof {
            use_type_invariant(self);
        }
        self.ed[opcode as usize].as_ref()
    }

}

pub open spec fn spec_ld_name(a: u8, b: u8) -> &'static str {
    match a {
        0 => match b {
            0 => "LD B, B",
            1 => "LD B, C",
            2 => "LD B, D",
            3 => "LD B, E",
            4 => "LD B, H",
            5 => "LD B, L",
            6 => "LD B, (HL)",
            _ => "LD B, A",
        },
        1 => match b {
            0 => "LD C, B",
            1 => "LD C, C",
            2 => "LD C, D",
            3 => "LD C, E",
            4 => "LD C, H",
            5 => "LD C, L",
            6 => "LD C, (HL)",
            _ => "LD C, A",
        },
        2 => match b {
            0 => "LD D, B",
            1 => "LD D, C",
            2 => "LD D, D",
            3 => "LD D, E",
            4 => "LD D, H",
            5 => "LD D, L",
            6 => "LD D, (HL)",
            _ => "LD D, A",
        },
        3 => match b {
            0 => "LD E, B",
            1 => "LD E, C",
            2 => "LD E, D",
            3 => "LD E, E",
            4 => "LD E, H",
            5 => "LD E, L",
            6 => "LD E, (HL)",
            _ => "LD E, A",
        },
        4 => match b {
            0 => "LD H, B",
            1 => "LD H, C",
            2 => "LD H, D",
            3 => "LD H, E",
            4 => "LD H, H",
            5 => "LD H, L",
            6 => "LD H, (HL)",
            _ => "LD H, A",
        },
        5 => match b {
            0 => "LD L, B",
            1 => "LD L, C",
            2 => "LD L, D",
            3 => "LD L, E",
            4 => "LD L, H",
            5 => "LD L, L",
            6 => "LD L, (HL)",
            _ => "LD L, A",
        },
        6 => match b {
            0 => "LD (HL), B",
            1 => "LD (HL), C",
            2 => "LD (HL), D",
            3 => "LD (HL), E",
            4 => "LD (HL), H",
            5 => "LD (HL), L",
            6 => "LD (HL), (HL)",
            _ => "LD (HL), A",
        },
        7 => match b {
            0 => "LD A, B",
            1 => "LD A, C",
            2 => "LD A, D",
            3 => "LD A, E",
            4 => "LD A, H",
            5 => "LD A, L",
            6 => "LD A, (HL)",
            _ => "LD A, A",
        },
        _ => match b {
            0 => "LD A, B",
            1 => "LD A, C",
            2 => "LD A, D",
            3 => "LD A, E",
            4 => "LD A, H",
            5 => "LD A, L",
            6 => "LD A, (HL)",
            _ => "LD A, A",
        },
    }
}

fn ld_name(a: u8, b: u8) -> (r: &'static str)
    ensures
        r == spec_ld_name(a, b),
{
    match a {
        0 => match b {
            0 => "LD B, B",
            1 => "LD B, C",
            2 => "LD B, D",
            3 => "LD B, E",
            4 => "LD B, H",
            5 => "LD B, L",
            6 => "LD B, (HL)",
            _ => "LD B, A",
        },
        1 => match b {
            0 => "LD C, B",
            1 => "LD C, C",
            2 => "LD C, D",
            3 => "LD C, E",
            4 => "LD C, H",
            5 => "LD C, L",
            6 => "LD C, (HL)",
            _ => "LD C, A",
        },
        2 => match b {
            0 => "LD D, B",
            1 => "LD D, C",
            2 => "LD D, D",
            3 => "LD D, E",
            4 => "LD D, H",
            5 => "LD D, L",
            6 => "LD D, (HL)",
            _ => "LD D, A",
        },
        3 => match b {
            0 => "LD E, B",
            1 => "LD E, C",
            2 => "LD E, D",
            3 => "LD E, E",
            4 => "LD E, H",
            5 => "LD E, L",
            6 => "LD E, (HL)",
            _ => "LD E, A",
        },
        4 => match b {
            0 => "LD H, B",
            1 => "LD H, C",
            2 => "LD H, D",
            3 => "LD H, E",
            4 => "LD H, H",
            5 => "LD H, L",
            6 => "LD H, (HL)",
            _ => "LD H, A",
        },
        5 => match b {
            0 => "LD L, B",
            1 => "LD L, C",
            2 => "LD L, D",
            3 => "LD L, E",
            4 => "LD L, H",
            5 => "LD L, L",
            6 => "LD L, (HL)",
            _ => "LD L, A",
        },
        6 => match b {
            0 => "LD (HL), B",
            1 => "LD (HL), C",
            2 => "LD (HL), D",
            3 => "LD (HL), E",
            4 => "LD (HL), H",
            5 => "LD (HL), L",
            6 => "LD (HL), (HL)",
            _ => "LD (HL), A",
        },
        7 => match b {
            0 => "LD A, B",
            1 => "LD A, C",
            2 => "LD A, D",
            3 => "LD A, E",
            4 => "LD A, H",
            5 => "LD A, L",
            6 => "LD A, (HL)",
            _ => "LD A, A",
        },
        _ => match b {
            0 => "LD A, B",
            1 => "LD A, C",
            2 => "LD A, D",
            3 => "LD A, E",
            4 => "LD A, H",
            5 => "LD A, L",
            6 => "LD A, (HL)",
            _ => "LD A, A",
        },
    }
}

pub open spec fn spec_inc_name(a: u8) -> &'static str {
    match a {
        0 => "INC B",
        1 => "INC C",
        2 => "INC D",
        3 => "INC E",
        4 => "INC H",
        5 => "INC L",
        6 => "INC (HL)",
        _ => "INC A",
    }
}

fn inc_name(a: u8) -> (r: &'static str)
    ensures
        r == spec_inc_name(a),
{
    match a {
        0 => "INC B",
        1 => "INC C",
        2 => "INC D",
        3 => "INC E",
        4 => "INC H",
        5 => "INC L",
        6 => "INC (HL)",
        _ => "INC A",
    }
}

pub open spec fn spec_dec_name(a: u8) -> &'static str {
    match a {
        0 => "DEC B",
        1 => "DEC C",
        2 => "DEC D",
        3 => "DEC E",
        4 => "DEC H",
        5 => "DEC L",
        6 => "DEC (HL)",
        _ => "DEC A",
    }
}

fn dec_name(a: u8) -> (r: &'static str)
    ensures
        r == spec_dec_name(a),
{
    match a {
        0 => "DEC B",
        1 => "DEC C",
        2 => "DEC D",
        3 => "DEC E",
        4 => "DEC H",
        5 => "DEC L",
        6 => "DEC (HL)",
        _ => "DEC A",
    }
}

pub open spec fn spec_ld_n_name(a: u8) -> &'static str {
    match a {
        0 => "LD B, n",
        1 => "LD C, n",
        2 => "LD D, n",
        3 => "LD E, n",
        4 => "LD H, n",
        5 => "LD L, n",
        6 => "LD (HL), n",
        _ => "LD A, n",
    }
}

fn ld_n_name(a: u8) -> (r: &'static str)
    ensures
        r == spec_ld_n_name(a),
{
    match a {
        0 => "LD B, n",
        1 => "LD C, n",
        2 => "LD D, n",
        3 => "LD E, n",
        4 => "LD H, n",
        5 => "LD L, n",
        6 => "LD (HL), n",
        _ => "LD A, n",
    }
}

pub open spec fn spec_ld_rp_name(a: u8) -> &'static str {
    match a {
        0 => "LD BC, nn",
        1 => "LD DE, nn",
        2 => "LD HL, nn",
        _ => "LD SP, nn",
    }
}

fn ld_rp_name(a: u8) -> (r: &'static str)
    ensures
        r == spec_ld_rp_name(a),
{
    match a {
        0 => "LD BC, nn",
        1 => "LD DE, nn",
        2 => "LD HL, nn",
        _ => "LD SP, nn",
    }
}

pub open spec fn spec_add_hl_name(a: u8) -> &'static str {
    match a {
        0 => "ADD HL, BC",
        1 => "ADD HL, DE",
        2 => "ADD HL, HL",
        _ => "ADD HL, SP",
    }
}

fn add_hl_name(a: u8) -> (r: &'static str)
    ensures
        r == spec_add_hl_name(a),
{
    match a {
        0 => "ADD HL, BC",
        1 => "ADD HL, DE",
        2 => "ADD HL, HL",
        _ => "ADD HL, SP",
    }
}

pub open spec fn spec_inc_rp_name(a: u8) -> &'static str {
    match a {
        0 => "INC BC",
        1 => "INC DE",
        2 => "INC HL",
        _ => "INC SP",
    }
}

fn inc_rp_name(a: u8) -> (r: &'static str)
    ensures
        r == spec_inc_rp_name(a),
{
    match a {
        0 => "INC BC",
        1 => "INC DE",
        2 => "INC HL",
        _ => "INC SP",
    }
}

pub open spec fn spec_dec_rp_name(a: u8) -> &'static str {
    match a {
        0 => "DEC BC",
        1 => "DEC DE",
        2 => "DEC HL",
        _ => "DEC SP",
    }
}

fn dec_rp_name(a: u8) -> (r: &'static str)
    ensures
        r == spec_dec_rp_name(a),
{
    match a {
        0 => "DEC BC",
        1 => "DEC DE",
        2 => "DEC HL",
        _ => "DEC SP",
    }
}

pub open spec fn spec_pop_name(a: u8) -> &'static str {
    match a {
        0 => "POP BC",
        1 => "POP DE",
        2 => "POP HL",
        _ => "POP AF",
    }
}

fn pop_name(a: u8) -> (r: &'static str)
    ensures
        r == spec_pop_name(a),
{
    match a {
        0 => "POP BC",
        1 => "POP DE",
        2 => "POP HL",
        _ => "POP AF",
    }
}

pub open spec fn spec_push_name(a: u8) -> &'static str {
    match a {
        0 => "PUSH BC",
        1 => "PUSH DE",
        2 => "PUSH HL",
        _ => "PUSH AF",
    }
}

fn push_name(a: u8) -> (r: &'static str)
    ensures
        r == spec_push_name(a),
{
    match a {
        0 => "PUSH BC",
        1 => "PUSH DE",
        2 => "PUSH HL",
        _ => "PUSH AF",
    }
}

pub open spec fn spec_jr_cc_name(a: u8) -> &'static str {
    match a {
        0 => "JR NZ, d",
        1 => "JR Z, d",
        2 => "JR NC, d",
        _ => "JR C, d",
    }
}

fn jr_cc_name(a: u8) -> (r: &'static str)
    ensures
        r == spec_jr_cc_name(a),
{
    match a {
        0 => "JR NZ, d",
        1 => "JR Z, d",
        2 => "JR NC, d",
        _ => "JR C, d",
    }
}

pub open spec fn spec_jp_cc_name(a: u8) -> &'static str {
    match a {
        0 => "JP NZ, nn",
        1 => "JP Z, nn",
        2 => "JP NC, nn",
        3 => "JP C, nn",
        4 => "JP PO, nn",
        5 => "JP PE, nn",
        6 => "JP P, nn",
        _ => "JP M, nn",
    }
}

fn jp_cc_name(a: u8) -> (r: &'static str)
    ensures
        r == spec_jp_cc_name(a),
{
    match a {
        0 => "JP NZ, nn",
        1 => "JP Z, nn",
        2 => "JP NC, nn",
        3 => "JP C, nn",
        4 => "JP PO, nn",
        5 => "JP PE, nn",
        6 => "JP P, nn",
        _ => "JP M, nn",
    }
}

pub open spec fn spec_call_cc_name(a: u8) -> &'static str {
    match a {
        0 => "CALL NZ, nn",
        1 => "CALL Z, nn",
        2 => "CALL NC, nn",
        3 => "CALL C, nn",
        4 => "CALL PO, nn",
        5 => "CALL PE, nn",
        6 => "CALL P, nn",
        _ => "CALL M, nn",
    }
}

fn call_cc_name(a: u8) -> (r: &'static str)
    ensures
        r == spec_call_cc_name(a),
{
    match a {
        0 => "CALL NZ, nn",
        1 => "CALL Z, nn",
        2 => "CALL NC, nn",
        3 => "CALL C, nn",
        4 => "CALL PO, nn",
        5 => "CALL PE, nn",
        6 => "CALL P, nn",
        _ => "CALL M, nn",
    }
}

pub open spec fn spec_ret_cc_name(a: u8) -> &'static str {
    match a {
        0 => "RET NZ",
        1 => "RET Z",
        2 => "RET NC",
        3 => "RET C",
        4 => "RET PO",
        5 => "RET PE",
        6 => "RET P",
        _ => "RET M",
    }
}

fn ret_cc_name(a: u8) -> (r: &'static str)
    ensures
        r == spec_ret_cc_name(a),
{
    match a {
        0 => "RET NZ",
        1 => "RET Z",
        2 => "RET NC",
        3 => "RET C",
        4 => "RET PO",
        5 => "RET PE",
        6 => "RET P",
        _ => "RET M",
    }
}

pub open spec fn spec_rst_name(a: u8) -> &'static str {
    match a {
        0 => "RST 00H",
        1 => "RST 08H",
        2 => "RST 10H",
        3 => "RST 18H",
        4 => "RST 20H",
        5 => "RST 28H",
        6 => "RST 30H",
        _ => "RST 38H",
    }
}

fn rst_name(a: u8) -> (r: &'static str)
    ensures
        r == spec_rst_name(a),
{
    match a {
        0 => "RST 00H",
        1 => "RST 08H",
        2 => "RST 10H",
        3 => "RST 18H",
        4 => "RST 20H",
        5 => "RST 28H",
        6 => "RST 30H",
        _ => "RST 38H",
    }
}

pub open spec fn spec_acc_rot_name(a: u8) -> &'static str {
    match a {
        0 => "RLCA",
        1 => "RRCA",
        2 => "RLA",
        _ => "RRA",
    }
}

fn acc_rot_name(a: u8) -> (r: &'static str)
    ensures
        r == spec_acc_rot_name(a),
{
    match a {
        0 => "RLCA",
        1 => "RRCA",
        2 => "RLA",
        _ => "RRA",
    }
}

pub open spec fn spec_alu_n_name(a: u8) -> &'static str {
    match a {
        0 => "ADD A, n",
        1 => "ADC A, n",
        2 => "SUB n",
        3 => "SBC A, n",
        4 => "AND n",
        5 => "XOR n",
        6 => "OR n",
        _ => "CP n",
    }
}

fn alu_n_name(a: u8) -> (r: &'static str)
    ensures
        r == spec_alu_n_name(a),
{
    match a {
        0 => "ADD A, n",
        1 => "ADC A, n",
        2 => "SUB n",
        3 => "SBC A, n",
        4 => "AND n",
        5 => "XOR n",
        6 => "OR n",
        _ => "CP n",
    }
}

pub open spec fn spec_sbc_hl_name(a: u8) -> &'static str {
    match a {
        0 => "SBC HL, BC",
        1 => "SBC HL, DE",
        2 => "SBC HL, HL",
        _ => "SBC HL, SP",
    }
}

fn sbc_hl_name(a: u8) -> (r: &'static str)
    ensures
        r == spec_sbc_hl_name(a),
{
    match a {
        0 => "SBC HL, BC",
        1 => "SBC HL, DE",
        2 => "SBC HL, HL",
        _ => "SBC HL, SP",
    }
}

pub open spec fn spec_adc_hl_name(a: u8) -> &'static str {
    match a {
        0 => "ADC HL, BC",
        1 => "ADC HL, DE",
        2 => "ADC HL, HL",
        _ => "ADC HL, SP",
    }
}

fn adc_hl_name(a: u8) -> (r: &'static str)
    ensures
        r == spec_adc_hl_name(a),
{
    match a {
        0 => "ADC HL, BC",
        1 => "ADC HL, DE",
        2 => "ADC HL, HL",
        _ => "ADC HL, SP",
    }
}

pub open spec fn spec_ld_nn_rp_name(a: u8) -> &'static str {
    match a {
        0 => "LD (nn), BC",
        1 => "LD (nn), DE",
        2 => "LD (nn), HL",
        _ => "LD (nn), SP",
    }
}

fn ld_nn_rp_name(a: u8) -> (r: &'static str)
    ensures
        r == spec_ld_nn_rp_name(a),
{
    match a {
        0 => "LD (nn), BC",
        1 => "LD (nn), DE",
        2 => "LD (nn), HL",
        _ => "LD (nn), SP",
    }
}

pub open spec fn spec_ld_rp_nn_name(a: u8) -> &'static str {
    match a {
        0 => "LD BC, (nn)",
        1 => "LD DE, (nn)",
        2 => "LD HL, (nn)",
        _ => "LD SP, (nn)",
    }
}

fn ld_rp_nn_name(a: u8) -> (r: &'static str)
    ensures
        r == spec_ld_rp_nn_name(a),
{
    match a {
        0 => "LD BC, (nn)",
        1 => "LD DE, (nn)",
        2 => "LD HL, (nn)",
        _ => "LD SP, (nn)",
    }
}

pub open spec fn spec_rot_name(a: u8, b: u8) -> &'static str {
    match a {
        0 => match b {
            0 => "RLC B",
            1 => "RLC C",
            2 => "RLC D",
            3 => "RLC E",
            4 => "RLC H",
            5 => "RLC L",
            6 => "RLC (HL)",
            _ => "RLC A",
        },
        1 => match b {
            0 => "RRC B",
            1 => "RRC C",
            2 => "RRC D",
            3 => "RRC E",
            4 => "RRC H",
            5 => "RRC L",
            6 => "RRC (HL)",
            _ => "RRC A",
        },
        2 => match b {
            0 => "RL B",
            1 => "RL C",
            2 => "RL D",
            3 => "RL E",
            4 => "RL H",
            5 => "RL L",
            6 => "RL (HL)",
            _ => "RL A",
        },
        3 => match b {
            0 => "RR B",
            1 => "RR C",
            2 => "RR D",
            3 => "RR E",
            4 => "RR H",
            5 => "RR L",
            6 => "RR (HL)",
            _ => "RR A",
        },
        4 => match b {
            0 => "SLA B",
            1 => "SLA C",
            2 => "SLA D",
            3 => "SLA E",
            4 => "SLA H",
            5 => "SLA L",
            6 => "SLA (HL)",
            _ => "SLA A",
        },
        5 => match b {
            0 => "SRA B",
            1 => "SRA C",
            2 => "SRA D",
            3 => "SRA E",
            4 => "SRA H",
            5 => "SRA L",
            6 => "SRA (HL)",
            _ => "SRA A",
        },
        6 => match b {
            0 => "SLL B",
            1 => "SLL C",
            2 => "SLL D",
            3 => "SLL E",
            4 => "SLL H",
            5 => "SLL L",
            6 => "SLL (HL)",
            _ => "SLL A",
        },
        7 => match b {
            0 => "SRL B",
            1 => "SRL C",
            2 => "SRL D",
            3 => "SRL E",
            4 => "SRL H",
            5 => "SRL L",
            6 => "SRL (HL)",
            _ => "SRL A",
        },
        _ => match b {
            0 => "SRL B",
            1 => "SRL C",
            2 => "SRL D",
            3 => "SRL E",
            4 => "SRL H",
            5 => "SRL L",
            6 => "SRL (HL)",
            _ => "SRL A",
        },
    }
}

fn rot_name(a: u8, b: u8) -> (r: &'static str)
    ensures
        r == spec_rot_name(a, b),
{
    match a {
        0 => match b {
            0 => "RLC B",
            1 => "RLC C",
            2 => "RLC D",
            3 => "RLC E",
            4 => "RLC H",
            5 => "RLC L",
            6 => "RLC (HL)",
            _ => "RLC A",
        },
        1 => match b {
            0 => "RRC B",
            1 => "RRC C",
            2 => "RRC D",
            3 => "RRC E",
            4 => "RRC H",
            5 => "RRC L",
            6 => "RRC (HL)",
            _ => "RRC A",
        },
        2 => match b {
            0 => "RL B",
            1 => "RL C",
            2 => "RL D",
            3 => "RL E",
            4 => "RL H",
            5 => "RL L",
            6 => "RL (HL)",
            _ => "RL A",
        },
        3 => match b {
            0 => "RR B",
            1 => "RR C",
            2 => "RR D",
            3 => "RR E",
            4 => "RR H",
            5 => "RR L",
            6 => "RR (HL)",
            _ => "RR A",
        },
        4 => match b {
            0 => "SLA B",
            1 => "SLA C",
            2 => "SLA D",
            3 => "SLA E",
            4 => "SLA H",
            5 => "SLA L",
            6 => "SLA (HL)",
            _ => "SLA A",
        },
        5 => match b {
            0 => "SRA B",
            1 => "SRA C",
            2 => "SRA D",
            3 => "SRA E",
            4 => "SRA H",
            5 => "SRA L",
            6 => "SRA (HL)",
            _ => "SRA A",
        },
        6 => match b {
            0 => "SLL B",
            1 => "SLL C",
            2 => "SLL D",
            3 => "SLL E",
            4 => "SLL H",
            5 => "SLL L",
            6 => "SLL (HL)",
            _ => "SLL A",
        },
        7 => match b {
            0 => "SRL B",
            1 => "SRL C",
            2 => "SRL D",
            3 => "SRL E",
            4 => "SRL H",
            5 => "SRL L",
            6 => "SRL (HL)",
            _ => "SRL A",
        },
        _ => match b {
            0 => "SRL B",
            1 => "SRL C",
            2 => "SRL D",
            3 => "SRL E",
            4 => "SRL H",
            5 => "SRL L",
            6 => "SRL (HL)",
            _ => "SRL A",
        },
    }
}

pub open spec fn spec_bit_name(a: u8, b: u8) -> &'static str {
    match a {
        0 => match b {
            0 => "BIT 0, B",
            1 => "BIT 0, C",
            2 => "BIT 0, D",
            3 => "BIT 0, E",
            4 => "BIT 0, H",
            5 => "BIT 0, L",
            6 => "BIT 0, (HL)",
            _ => "BIT 0, A",
        },
        1 => match b {
            0 => "BIT 1, B",
            1 => "BIT 1, C",
            2 => "BIT 1, D",
            3 => "BIT 1, E",
            4 => "BIT 1, H",
            5 => "BIT 1, L",
            6 => "BIT 1, (HL)",
            _ => "BIT 1, A",
        },
        2 => match b {
            0 => "BIT 2, B",
            1 => "BIT 2, C",
            2 => "BIT 2, D",
            3 => "BIT 2, E",
            4 => "BIT 2, H",
            5 => "BIT 2, L",
            6 => "BIT 2, (HL)",
            _ => "BIT 2, A",
        },
        3 => match b {
            0 => "BIT 3, B",
            1 => "BIT 3, C",
            2 => "BIT 3, D",
            3 => "BIT 3, E",
            4 => "BIT 3, H",
            5 => "BIT 3, L",
            6 => "BIT 3, (HL)",
            _ => "BIT 3, A",
        },
        4 => match b {
            0 => "BIT 4, B",
            1 => "BIT 4, C",
            2 => "BIT 4, D",
            3 => "BIT 4, E",
            4 => "BIT 4, H",
            5 => "BIT 4, L",
            6 => "BIT 4, (HL)",
            _ => "BIT 4, A",
        },
        5 => match b {
            0 => "BIT 5, B",
            1 => "BIT 5, C",
            2 => "BIT 5, D",
            3 => "BIT 5, E",
            4 => "BIT 5, H",
            5 => "BIT 5, L",
            6 => "BIT 5, (HL)",
            _ => "BIT 5, A",
        },
        6 => match b {
            0 => "BIT 6, B",
            1 => "BIT 6, C",
            2 => "BIT 6, D",
            3 => "BIT 6, E",
            4 => "BIT 6, H",
            5 => "BIT 6, L",
            6 => "BIT 6, (HL)",
            _ => "BIT 6, A",
        },
        7 => match b {
            0 => "BIT 7, B",
            1 => "BIT 7, C",
            2 => "BIT 7, D",
            3 => "BIT 7, E",
            4 => "BIT 7, H",
            5 => "BIT 7, L",
            6 => "BIT 7, (HL)",
            _ => "BIT 7, A",
        },
        _ => match b {
            0 => "BIT 7, B",
            1 => "BIT 7, C",
            2 => "BIT 7, D",
            3 => "BIT 7, E",
            4 => "BIT 7, H",
            5 => "BIT 7, L",
            6 => "BIT 7, (HL)",
            _ => "BIT 7, A",
        },
    }
}

fn bit_name(a: u8, b: u8) -> (r: &'static str)
    ensures
        r == spec_bit_name(a, b),
{
    match a {
        0 => match b {
            0 => "BIT 0, B",
            1 => "BIT 0, C",
            2 => "BIT 0, D",
            3 => "BIT 0, E",
            4 => "BIT 0, H",
            5 => "BIT 0, L",
            6 => "BIT 0, (HL)",
            _ => "BIT 0, A",
        },
        1 => match b {
            0 => "BIT 1, B",
            1 => "BIT 1, C",
            2 => "BIT 1, D",
            3 => "BIT 1, E",
            4 => "BIT 1, H",
            5 => "BIT 1, L",
            6 => "BIT 1, (HL)",
            _ => "BIT 1, A",
        },
        2 => match b {
            0 => "BIT 2, B",
            1 => "BIT 2, C",
            2 => "BIT 2, D",
            3 => "BIT 2, E",
            4 => "BIT 2, H",
            5 => "BIT 2, L",
            6 => "BIT 2, (HL)",
            _ => "BIT 2, A",
        },
        3 => match b {
            0 => "BIT 3, B",
            1 => "BIT 3, C",
            2 => "BIT 3, D",
            3 => "BIT 3, E",
            4 => "BIT 3, H",
            5 => "BIT 3, L",
            6 => "BIT 3, (HL)",
            _ => "BIT 3, A",
        },
        4 => match b {
            0 => "BIT 4, B",
            1 => "BIT 4, C",
            2 => "BIT 4, D",
            3 => "BIT 4, E",
            4 => "BIT 4, H",
            5 => "BIT 4, L",
            6 => "BIT 4, (HL)",
            _ => "BIT 4, A",
        },
        5 => match b {
            0 => "BIT 5, B",
            1 => "BIT 5, C",
            2 => "BIT 5, D",
            3 => "BIT 5, E",
            4 => "BIT 5, H",
            5 => "BIT 5, L",
            6 => "BIT 5, (HL)",
            _ => "BIT 5, A",
        },
        6 => match b {
            0 => "BIT 6, B",
            1 => "BIT 6, C",
            2 => "BIT 6, D",
            3 => "BIT 6, E",
            4 => "BIT 6, H",
            5 => "BIT 6, L",
            6 => "BIT 6, (HL)",
            _ => "BIT 6, A",
        },
        7 => match b {
            0 => "BIT 7, B",
            1 => "BIT 7, C",
            2 => "BIT 7, D",
            3 => "BIT 7, E",
            4 => "BIT 7, H",
            5 => "BIT 7, L",
            6 => "BIT 7, (HL)",
            _ => "BIT 7, A",
        },
        _ => match b {
            0 => "BIT 7, B",
            1 => "BIT 7, C",
            2 => "BIT 7, D",
            3 => "BIT 7, E",
            4 => "BIT 7, H",
            5 => "BIT 7, L",
            6 => "BIT 7, (HL)",
            _ => "BIT 7, A",
        },
    }
}

pub open spec fn spec_res_name(a: u8, b: u8) -> &'static str {
    match a {
        0 => match b {
            0 => "RES 0, B",
            1 => "RES 0, C",
            2 => "RES 0, D",
            3 => "RES 0, E",
            4 => "RES 0, H",
            5 => "RES 0, L",
            6 => "RES 0, (HL)",
            _ => "RES 0, A",
        },
        1 => match b {
            0 => "RES 1, B",
            1 => "RES 1, C",
            2 => "RES 1, D",
            3 => "RES 1, E",
            4 => "RES 1, H",
            5 => "RES 1, L",
            6 => "RES 1, (HL)",
            _ => "RES 1, A",
        },
        2 => match b {
            0 => "RES 2, B",
            1 => "RES 2, C",
            2 => "RES 2, D",
            3 => "RES 2, E",
            4 => "RES 2, H",
            5 => "RES 2, L",
            6 => "RES 2, (HL)",
            _ => "RES 2, A",
        },
        3 => match b {
            0 => "RES 3, B",
            1 => "RES 3, C",
            2 => "RES 3, D",
            3 => "RES 3, E",
            4 => "RES 3, H",
            5 => "RES 3, L",
            6 => "RES 3, (HL)",
            _ => "RES 3, A",
        },
        4 => match b {
            0 => "RES 4, B",
            1 => "RES 4, C",
            2 => "RES 4, D",
            3 => "RES 4, E",
            4 => "RES 4, H",
            5 => "RES 4, L",
            6 => "RES 4, (HL)",
            _ => "RES 4, A",
        },
        5 => match b {
            0 => "RES 5, B",
            1 => "RES 5, C",
            2 => "RES 5, D",
            3 => "RES 5, E",
            4 => "RES 5, H",
            5 => "RES 5, L",
            6 => "RES 5, (HL)",
            _ => "RES 5, A",
        },
        6 => match b {
            0 => "RES 6, B",
            1 => "RES 6, C",
            2 => "RES 6, D",
            3 => "RES 6, E",
            4 => "RES 6, H",
            5 => "RES 6, L",
            6 => "RES 6, (HL)",
            _ => "RES 6, A",
        },
        7 => match b {
            0 => "RES 7, B",
            1 => "RES 7, C",
            2 => "RES 7, D",
            3 => "RES 7, E",
            4 => "RES 7, H",
            5 => "RES 7, L",
            6 => "RES 7, (HL)",
            _ => "RES 7, A",
        },
        _ => match b {
            0 => "RES 7, B",
            1 => "RES 7, C",
            2 => "RES 7, D",
            3 => "RES 7, E",
            4 => "RES 7, H",
            5 => "RES 7, L",
            6 => "RES 7, (HL)",
            _ => "RES 7, A",
        },
    }
}

fn res_name(a: u8, b: u8) -> (r: &'static str)
    ensures
        r == spec_res_name(a, b),
{
    match a {
        0 => match b {
            0 => "RES 0, B",
            1 => "RES 0, C",
            2 => "RES 0, D",
            3 => "RES 0, E",
            4 => "RES 0, H",
            5 => "RES 0, L",
            6 => "RES 0, (HL)",
            _ => "RES 0, A",
        },
        1 => match b {
            0 => "RES 1, B",
            1 => "RES 1, C",
            2 => "RES 1, D",
            3 => "RES 1, E",
            4 => "RES 1, H",
            5 => "RES 1, L",
            6 => "RES 1, (HL)",
            _ => "RES 1, A",
        },
        2 => match b {
            0 => "RES 2, B",
            1 => "RES 2, C",
            2 => "RES 2, D",
            3 => "RES 2, E",
            4 => "RES 2, H",
            5 => "RES 2, L",
            6 => "RES 2, (HL)",
            _ => "RES 2, A",
        },
        3 => match b {
            0 => "RES 3, B",
            1 => "RES 3, C",
            2 => "RES 3, D",
            3 => "RES 3, E",
            4 => "RES 3, H",
            5 => "RES 3, L",
            6 => "RES 3, (HL)",
            _ => "RES 3, A",
        },
        4 => match b {
            0 => "RES 4, B",
            1 => "RES 4, C",
            2 => "RES 4, D",
            3 => "RES 4, E",
            4 => "RES 4, H",
            5 => "RES 4, L",
            6 => "RES 4, (HL)",
            _ => "RES 4, A",
        },
        5 => match b {
            0 => "RES 5, B",
            1 => "RES 5, C",
            2 => "RES 5, D",
            3 => "RES 5, E",
            4 => "RES 5, H",
            5 => "RES 5, L",
            6 => "RES 5, (HL)",
            _ => "RES 5, A",
        },
        6 => match b {
            0 => "RES 6, B",
            1 => "RES 6, C",
            2 => "RES 6, D",
            3 => "RES 6, E",
            4 => "RES 6, H",
            5 => "RES 6, L",
            6 => "RES 6, (HL)",
            _ => "RES 6, A",
        },
        7 => match b {
            0 => "RES 7, B",
            1 => "RES 7, C",
            2 => "RES 7, D",
            3 => "RES 7, E",
            4 => "RES 7, H",
            5 => "RES 7, L",
            6 => "RES 7, (HL)",
            _ => "RES 7, A",
        },
        _ => match b {
            0 => "RES 7, B",
            1 => "RES 7, C",
            2 => "RES 7, D",
            3 => "RES 7, E",
            4 => "RES 7, H",
            5 => "RES 7, L",
            6 => "RES 7, (HL)",
            _ => "RES 7, A",
        },
    }
}

pub open spec fn spec_set_name(a: u8, b: u8) -> &'static str {
    match a {
        0 => match b {
            0 => "SET 0, B",
            1 => "SET 0, C",
            2 => "SET 0, D",
            3 => "SET 0, E",
            4 => "SET 0, H",
            5 => "SET 0, L",
            6 => "SET 0, (HL)",
            _ => "SET 0, A",
        },
        1 => match b {
            0 => "SET 1, B",
            1 => "SET 1, C",
            2 => "SET 1, D",
            3 => "SET 1, E",
            4 => "SET 1, H",
            5 => "SET 1, L",
            6 => "SET 1, (HL)",
            _ => "SET 1, A",
        },
        2 => match b {
            0 => "SET 2, B",
            1 => "SET 2, C",
            2 => "SET 2, D",
            3 => "SET 2, E",
            4 => "SET 2, H",
            5 => "SET 2, L",
            6 => "SET 2, (HL)",
            _ => "SET 2, A",
        },
        3 => match b {
            0 => "SET 3, B",
            1 => "SET 3, C",
            2 => "SET 3, D",
            3 => "SET 3, E",
            4 => "SET 3, H",
            5 => "SET 3, L",
            6 => "SET 3, (HL)",
            _ => "SET 3, A",
        },
        4 => match b {
            0 => "SET 4, B",
            1 => "SET 4, C",
            2 => "SET 4, D",
            3 => "SET 4, E",
            4 => "SET 4, H",
            5 => "SET 4, L",
            6 => "SET 4, (HL)",
            _ => "SET 4, A",
        },
        5 => match b {
            0 => "SET 5, B",
            1 => "SET 5, C",
            2 => "SET 5, D",
            3 => "SET 5, E",
            4 => "SET 5, H",
            5 => "SET 5, L",
            6 => "SET 5, (HL)",
            _ => "SET 5, A",
        },
        6 => match b {
            0 => "SET 6, B",
            1 => "SET 6, C",
            2 => "SET 6, D",
            3 => "SET 6, E",
            4 => "SET 6, H",
            5 => "SET 6, L",
            6 => "SET 6, (HL)",
            _ => "SET 6, A",
        },
        7 => match b {
            0 => "SET 7, B",
            1 => "SET 7, C",
            2 => "SET 7, D",
            3 => "SET 7, E",
            4 => "SET 7, H",
            5 => "SET 7, L",
            6 => "SET 7, (HL)",
            _ => "SET 7, A",
        },
        _ => match b {
            0 => "SET 7, B",
            1 => "SET 7, C",
            2 => "SET 7, D",
            3 => "SET 7, E",
            4 => "SET 7, H",
            5 => "SET 7, L",
            6 => "SET 7, (HL)",
            _ => "SET 7, A",
        },
    }
}

fn set_name(a: u8, b: u8) -> (r: &'static str)
    ensures
        r == spec_set_name(a, b),
{
    match a {
        0 => match b {
            0 => "SET 0, B",
            1 => "SET 0, C",
            2 => "SET 0, D",
            3 => "SET 0, E",
            4 => "SET 0, H",
            5 => "SET 0, L",
            6 => "SET 0, (HL)",
            _ => "SET 0, A",
        },
        1 => match b {
            0 => "SET 1, B",
            1 => "SET 1, C",
            2 => "SET 1, D",
            3 => "SET 1, E",
            4 => "SET 1, H",
            5 => "SET 1, L",
            6 => "SET 1, (HL)",
            _ => "SET 1, A",
        },
        2 => match b {
            0 => "SET 2, B",
            1 => "SET 2, C",
            2 => "SET 2, D",
            3 => "SET 2, E",
            4 => "SET 2, H",
            5 => "SET 2, L",
            6 => "SET 2, (HL)",
            _ => "SET 2, A",
        },
        3 => match b {
            0 => "SET 3, B",
            1 => "SET 3, C",
            2 => "SET 3, D",
            3 => "SET 3, E",
            4 => "SET 3, H",
            5 => "SET 3, L",
            6 => "SET 3, (HL)",
            _ => "SET 3, A",
        },
        4 => match b {
            0 => "SET 4, B",
            1 => "SET 4, C",
            2 => "SET 4, D",
            3 => "SET 4, E",
            4 => "SET 4, H",
            5 => "SET 4, L",
            6 => "SET 4, (HL)",
            _ => "SET 4, A",
        },
        5 => match b {
            0 => "SET 5, B",
            1 => "SET 5, C",
            2 => "SET 5, D",
            3 => "SET 5, E",
            4 => "SET 5, H",
            5 => "SET 5, L",
            6 => "SET 5, (HL)",
            _ => "SET 5, A",
        },
        6 => match b {
            0 => "SET 6, B",
            1 => "SET 6, C",
            2 => "SET 6, D",
            3 => "SET 6, E",
            4 => "SET 6, H",
            5 => "SET 6, L",
            6 => "SET 6, (HL)",
            _ => "SET 6, A",
        },
        7 => match b {
            0 => "SET 7, B",
            1 => "SET 7, C",
            2 => "SET 7, D",
            3 => "SET 7, E",
            4 => "SET 7, H",
            5 => "SET 7, L",
            6 => "SET 7, (HL)",
            _ => "SET 7, A",
        },
        _ => match b {
            0 => "SET 7, B",
            1 => "SET 7, C",
            2 => "SET 7, D",
            3 => "SET 7, E",
            4 => "SET 7, H",
            5 => "SET 7, L",
            6 => "SET 7, (HL)",
            _ => "SET 7, A",
        },
    }
}

pub open spec fn spec_alu_name(a: u8, b: u8) -> &'static str {
    match a {
        0 => match b {
            0 => "ADD A, B",
            1 => "ADD A, C",
            2 => "ADD A, D",
            3 => "ADD A, E",
            4 => "ADD A, H",
            5 => "ADD A, L",
            6 => "ADD A, (HL)",
            _ => "ADD A, A",
        },
        1 => match b {
            0 => "ADC A, B",
            1 => "ADC A, C",
            2 => "ADC A, D",
            3 => "ADC A, E",
            4 => "ADC A, H",
            5 => "ADC A, L",
            6 => "ADC A, (HL)",
            _ => "ADC A, A",
        },
        2 => match b {
            0 => "SUB B",
            1 => "SUB C",
            2 => "SUB D",
            3 => "SUB E",
            4 => "SUB H",
            5 => "SUB L",
            6 => "SUB (HL)",
            _ => "SUB A",
        },
        3 => match b {
            0 => "SBC A, B",
            1 => "SBC A, C",
            2 => "SBC A, D",
            3 => "SBC A, E",
            4 => "SBC A, H",
            5 => "SBC A, L",
            6 => "SBC A, (HL)",
            _ => "SBC A, A",
        },
        4 => match b {
            0 => "AND B",
            1 => "AND C",
            2 => "AND D",
            3 => "AND E",
            4 => "AND H",
            5 => "AND L",
            6 => "AND (HL)",
            _ => "AND A",
        },
        5 => match b {
            0 => "XOR B",
            1 => "XOR C",
            2 => "XOR D",
            3 => "XOR E",
            4 => "XOR H",
            5 => "XOR L",
            6 => "XOR (HL)",
            _ => "XOR A",
        },
        6 => match b {
            0 => "OR B",
            1 => "OR C",
            2 => "OR D",
            3 => "OR E",
            4 => "OR H",
            5 => "OR L",
            6 => "OR (HL)",
            _ => "OR A",
        },
        7 => match b {
            0 => "CP B",
            1 => "CP C",
            2 => "CP D",
            3 => "CP E",
            4 => "CP H",
            5 => "CP L",
            6 => "CP (HL)",
            _ => "CP A",
        },
        _ => match b {
            0 => "CP B",
            1 => "CP C",
            2 => "CP D",
            3 => "CP E",
            4 => "CP H",
            5 => "CP L",
            6 => "CP (HL)",
            _ => "CP A",
        },
    }
}

fn alu_name(a: u8, b: u8) -> (r: &'static str)
    ensures
        r == spec_alu_name(a, b),
{
    match a {
        0 => match b {
            0 => "ADD A, B",
            1 => "ADD A, C",
            2 => "ADD A, D",
            3 => "ADD A, E",
            4 => "ADD A, H",
            5 => "ADD A, L",
            6 => "ADD A, (HL)",
            _ => "ADD A, A",
        },
        1 => match b {
            0 => "ADC A, B",
            1 => "ADC A, C",
            2 => "ADC A, D",
            3 => "ADC A, E",
            4 => "ADC A, H",
            5 => "ADC A, L",
            6 => "ADC A, (HL)",
            _ => "ADC A, A",
        },
        2 => match b {
            0 => "SUB B",
            1 => "SUB C",
            2 => "SUB D",
            3 => "SUB E",
            4 => "SUB H",
            5 => "SUB L",
            6 => "SUB (HL)",
            _ => "SUB A",
        },
        3 => match b {
            0 => "SBC A, B",
            1 => "SBC A, C",
            2 => "SBC A, D",
            3 => "SBC A, E",
            4 => "SBC A, H",
            5 => "SBC A, L",
            6 => "SBC A, (HL)",
            _ => "SBC A, A",
        },
        4 => match b {
            0 => "AND B",
            1 => "AND C",
            2 => "AND D",
            3 => "AND E",
            4 => "AND H",
            5 => "AND L",
            6 => "AND (HL)",
            _ => "AND A",
        },
        5 => match b {
            0 => "XOR B",
            1 => "XOR C",
            2 => "XOR D",
            3 => "XOR E",
            4 => "XOR H",
            5 => "XOR L",
            6 => "XOR (HL)",
            _ => "XOR A",
        },
        6 => match b {
            0 => "OR B",
            1 => "OR C",
            2 => "OR D",
            3 => "OR E",
            4 => "OR H",
            5 => "OR L",
            6 => "OR (HL)",
            _ => "OR A",
        },
        7 => match b {
            0 => "CP B",
            1 => "CP C",
            2 => "CP D",
            3 => "CP E",
            4 => "CP H",
            5 => "CP L",
            6 => "CP (HL)",
            _ => "CP A",
        },
        _ => match b {
            0 => "CP B",
            1 => "CP C",
            2 => "CP D",
            3 => "CP E",
            4 => "CP H",
            5 => "CP L",
            6 => "CP (HL)",
            _ => "CP A",
        },
    }
}

pub open spec fn spec_ix_load_name(a: u8) -> &'static str {
    match a {
        0 => "LD B, (IX+d)",
        1 => "LD C, (IX+d)",
        2 => "LD D, (IX+d)",
        3 => "LD E, (IX+d)",
        4 => "LD H, (IX+d)",
        5 => "LD L, (IX+d)",
        6 => "LD F, (IX+d)",
        _ => "LD A, (IX+d)",
    }
}

fn ix_load_name(a: u8) -> (r: &'static str)
    ensures
        r == spec_ix_load_name(a),
{
    match a {
        0 => "LD B, (IX+d)",
        1 => "LD C, (IX+d)",
        2 => "LD D, (IX+d)",
        3 => "LD E, (IX+d)",
        4 => "LD H, (IX+d)",
        5 => "LD L, (IX+d)",
        6 => "LD F, (IX+d)",
        _ => "LD A, (IX+d)",
    }
}

pub open spec fn spec_iy_load_name(a: u8) -> &'static str {
    match a {
        0 => "LD B, (IY+d)",
        1 => "LD C, (IY+d)",
        2 => "LD D, (IY+d)",
        3 => "LD E, (IY+d)",
        4 => "LD H, (IY+d)",
        5 => "LD L, (IY+d)",
        6 => "LD F, (IY+d)",
        _ => "LD A, (IY+d)",
    }
}

fn iy_load_name(a: u8) -> (r: &'static str)
    ensures
        r == spec_iy_load_name(a),
{
    match a {
        0 => "LD B, (IY+d)",
        1 => "LD C, (IY+d)",
        2 => "LD D, (IY+d)",
        3 => "LD E, (IY+d)",
        4 => "LD H, (IY+d)",
        5 => "LD L, (IY+d)",
        6 => "LD F, (IY+d)",
        _ => "LD A, (IY+d)",
    }
}

pub open spec fn spec_ix_store_name(a: u8) -> &'static str {
    match a {
        0 => "LD (IX+d), B",
        1 => "LD (IX+d), C",
        2 => "LD (IX+d), D",
        3 => "LD (IX+d), E",
        4 => "LD (IX+d), H",
        5 => "LD (IX+d), L",
        6 => "LD (IX+d), F",
        _ => "LD (IX+d), A",
    }
}

fn ix_store_name(a: u8) -> (r: &'static str)
    ensures
        r == spec_ix_store_name(a),
{
    match a {
        0 => "LD (IX+d), B",
        1 => "LD (IX+d), C",
        2 => "LD (IX+d), D",
        3 => "LD (IX+d), E",
        4 => "LD (IX+d), H",
        5 => "LD (IX+d), L",
        6 => "LD (IX+d), F",
        _ => "LD (IX+d), A",
    }
}

pub open spec fn spec_in_name(a: u8) -> &'static str {
    match a {
        0 => "IN B,(C)",
        1 => "IN C,(C)",
        2 => "IN D,(C)",
        3 => "IN E,(C)",
        4 => "IN H,(C)",
        5 => "IN L,(C)",
        6 => "IN (C)",
        _ => "IN A,(C)",
    }
}

fn in_name(a: u8) -> (r: &'static str)
    ensures
        r == spec_in_name(a),
{
    match a {
        0 => "IN B,(C)",
        1 => "IN C,(C)",
        2 => "IN D,(C)",
        3 => "IN E,(C)",
        4 => "IN H,(C)",
        5 => "IN L,(C)",
        6 => "IN (C)",
        _ => "IN A,(C)",
    }
}

pub open spec fn spec_out_name(a: u8) -> &'static str {
    match a {
        0 => "OUT (C),B",
        1 => "OUT (C),C",
        2 => "OUT (C),D",
        3 => "OUT (C),E",
        4 => "OUT (C),H",
        5 => "OUT (C),L",
        6 => "OUT (C),0",
        _ => "OUT (C),A",
    }
}

fn out_name(a: u8) -> (r: &'static str)
    ensures
        r == spec_out_name(a),
{
    match a {
        0 => "OUT (C),B",
        1 => "OUT (C),C",
        2 => "OUT (C),D",
        3 => "OUT (C),E",
        4 => "OUT (C),H",
        5 => "OUT (C),L",
        6 => "OUT (C),0",
        _ => "OUT (C),A",
    }
}

pub open spec fn spec_add_ix_name(a: u8) -> &'static str {
    match a {
        0 => "ADD IX, BC",
        1 => "ADD IX, DE",
        2 => "ADD IX, IX",
        _ => "ADD IX, SP",
    }
}

fn add_ix_name(a: u8) -> (r: &'static str)
    ensures
        r == spec_add_ix_name(a),
{
    match a {
        0 => "ADD IX, BC",
        1 => "ADD IX, DE",
        2 => "ADD IX, IX",
        _ => "ADD IX, SP",
    }
}

pub open spec fn spec_rot_ix_name(a: u8) -> &'static str {
    match a {
        0 => "RLC (IX+d)",
        1 => "RRC (IX+d)",
        2 => "RL (IX+d)",
        3 => "RR (IX+d)",
        4 => "SLA (IX+d)",
        5 => "SRA (IX+d)",
        6 => "SLL (IX+d)",
        _ => "SRL (IX+d)",
    }
}

fn rot_ix_name(a: u8) -> (r: &'static str)
    ensures
        r == spec_rot_ix_name(a),
{
    match a {
        0 => "RLC (IX+d)",
        1 => "RRC (IX+d)",
        2 => "RL (IX+d)",
        3 => "RR (IX+d)",
        4 => "SLA (IX+d)",
        5 => "SRA (IX+d)",
        6 => "SLL (IX+d)",
        _ => "SRL (IX+d)",
    }
}

pub open spec fn spec_bit_ix_name(a: u8) -> &'static str {
    match a {
        0 => "BIT 0, (IX+d)",
        1 => "BIT 1, (IX+d)",
        2 => "BIT 2, (IX+d)",
        3 => "BIT 3, (IX+d)",
        4 => "BIT 4, (IX+d)",
        5 => "BIT 5, (IX+d)",
        6 => "BIT 6, (IX+d)",
        _ => "BIT 7, (IX+d)",
    }
}

fn bit_ix_name(a: u8) -> (r: &'static str)
    ensures
        r == spec_bit_ix_name(a),
{
    match a {
        0 => "BIT 0, (IX+d)",
        1 => "BIT 1, (IX+d)",
        2 => "BIT 2, (IX+d)",
        3 => "BIT 3, (IX+d)",
        4 => "BIT 4, (IX+d)",
        5 => "BIT 5, (IX+d)",
        6 => "BIT 6, (IX+d)",
        _ => "BIT 7, (IX+d)",
    }
}

pub open spec fn spec_res_ix_name(a: u8) -> &'static str {
    match a {
        0 => "RES 0, (IX+d)",
        1 => "RES 1, (IX+d)",
        2 => "RES 2, (IX+d)",
        3 => "RES 3, (IX+d)",
        4 => "RES 4, (IX+d)",
        5 => "RES 5, (IX+d)",
        6 => "RES 6, (IX+d)",
        _ => "RES 7, (IX+d)",
    }
}

fn res_ix_name(a: u8) -> (r: &'static str)
    ensures
        r == spec_res_ix_name(a),
{
    match a {
        0 => "RES 0, (IX+d)",
        1 => "RES 1, (IX+d)",
        2 => "RES 2, (IX+d)",
        3 => "RES 3, (IX+d)",
        4 => "RES 4, (IX+d)",
        5 => "RES 5, (IX+d)",
        6 => "RES 6, (IX+d)",
        _ => "RES 7, (IX+d)",
    }
}

pub open spec fn spec_set_ix_name(a: u8) -> &'static str {
    match a {
        0 => "SET 0, (IX+d)",
        1 => "SET 1, (IX+d)",
        2 => "SET 2, (IX+d)",
        3 => "SET 3, (IX+d)",
        4 => "SET 4, (IX+d)",
        5 => "SET 5, (IX+d)",
        6 => "SET 6, (IX+d)",
        _ => "SET 7, (IX+d)",
    }
}

fn set_ix_name(a: u8) -> (r: &'static str)
    ensures
        r == spec_set_ix_name(a),
{
    match a {
        0 => "SET 0, (IX+d)",
        1 => "SET 1, (IX+d)",
        2 => "SET 2, (IX+d)",
        3 => "SET 3, (IX+d)",
        4 => "SET 4, (IX+d)",
        5 => "SET 5, (IX+d)",
        6 => "SET 6, (IX+d)",
        _ => "SET 7, (IX+d)",
    }
}

pub open spec fn spec_alu_ix_name(a: u8) -> &'static str {
    match a {
        0 => "ADD A, (IX+d)",
        1 => "ADC A, (IX+d)",
        2 => "SUB (IX+d)",
        3 => "SBC A, (IX+d)",
        4 => "AND (IX+d)",
        5 => "XOR (IX+d)",
        6 => "OR (IX+d)",
        _ => "CP (IX+d)",
    }
}

fn alu_ix_name(a: u8) -> (r: &'static str)
    ensures
        r == spec_alu_ix_name(a),
{
    match a {
        0 => "ADD A, (IX+d)",
        1 => "ADC A, (IX+d)",
        2 => "SUB (IX+d)",
        3 => "SBC A, (IX+d)",
        4 => "AND (IX+d)",
        5 => "XOR (IX+d)",
        6 => "OR (IX+d)",
        _ => "CP (IX+d)",
    }
}

} // verus!
