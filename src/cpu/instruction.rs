//! Instruction descriptors and the executor each one is bound to. The
//! executor is a tagged operation: executing an instruction is a match on
//! its operation, whose effect on the state is `exec_spec`.
use vstd::prelude::*;
use vstd::string::StringExecFns;

use super::alu::{AluOp, ShiftOp};
use super::registers::{IndexRegister, Register, RegisterPair};

verus! {

/// The category an instruction belongs to.
#[derive(Debug, Clone, Copy, PartialEq, Eq)]
pub enum InstructionType {
    Load,
    Arithmetic,
    Logic,
    Rotate,
    BitManip,
    Jump,
    Call,
    Return,
    IO,
    Control,
    Exchange,
    Block,
    Special,
}

/// The display name of a category.
pub open spec fn category_name(t: InstructionType) -> &'static str {
    match t {
        InstructionType::Load => "Load",
        InstructionType::Arithmetic => "Arithmetic",
        InstructionType::Logic => "Logic",
        InstructionType::Rotate => "Rotate",
        InstructionType::BitManip => "Bit Manipulation",
        InstructionType::Jump => "Jump",
        InstructionType::Call => "Call",
        InstructionType::Return => "Return",
        InstructionType::IO => "I/O",
        InstructionType::Control => "Control",
        InstructionType::Exchange => "Exchange",
        InstructionType::Block => "Block",
        InstructionType::Special => "Special",
    }
}

impl InstructionType {
    /// The category's display name.
    pub fn name(&self) -> (r: &'static str)
        ensures
            r == category_name(*self),
    {
        match self {
            InstructionType::Load => "Load",
            InstructionType::Arithmetic => "Arithmetic",
            InstructionType::Logic => "Logic",
            InstructionType::Rotate => "Rotate",
            InstructionType::BitManip => "Bit Manipulation",
            InstructionType::Jump => "Jump",
            InstructionType::Call => "Call",
            InstructionType::Return => "Return",
            InstructionType::IO => "I/O",
            InstructionType::Control => "Control",
            InstructionType::Exchange => "Exchange",
            InstructionType::Block => "Block",
            InstructionType::Special => "Special",
        }
    }
}

/// An 8-bit operand as the opcode's register field encodes it.
#[derive(Debug, Clone, Copy, PartialEq, Eq)]
pub enum R8 {
    B,
    C,
    D,
    E,
    H,
    L,
    AtHl,
    A,
}

/// A branch condition on the flags.
#[derive(Debug, Clone, Copy, PartialEq, Eq)]
pub enum Cond {
    NZ,
    Z,
    NC,
    C,
    PO,
    PE,
    P,
    M,
}

/// What an instruction does.
#[derive(Debug, Clone, Copy, PartialEq, Eq)]
pub enum Op {
    /// A prefix byte: no effect of its own.
    Prefix,
    Nop,
    Halt,
    LdR8R8(R8, R8),
    LdR8N(R8),
    AluR8(AluOp, R8),
    AluN(AluOp),
    IncR8(R8),
    DecR8(R8),
    LdRpNn(RegisterPair),
    AddHlRp(RegisterPair),
    IncRp(RegisterPair),
    DecRp(RegisterPair),
    LdBcA,
    LdDeA,
    LdABc,
    LdADe,
    LdNnHl,
    LdHlNn,
    LdNnA,
    LdANn,
    AccShift(ShiftOp),
    Daa,
    Cpl,
    Scf,
    Ccf,
    ExAf,
    Exx,
    ExDeHl,
    ExSpHl,
    Di,
    Ei,
    Djnz,
    Jr,
    JrCc(Cond),
    Jp,
    JpCc(Cond),
    JpHl,
    Call,
    CallCc(Cond),
    Ret,
    RetCc(Cond),
    Rst(u8),
    Push(RegisterPair),
    Pop(RegisterPair),
    LdSpHl,
    OutNA,
    InAN,
    Shift(ShiftOp, R8),
    BitR8(u8, R8),
    ResR8(u8, R8),
    SetR8(u8, R8),
    LdIdxNn(IndexRegister),
    LdNnIdx(IndexRegister),
    LdIdxMem(IndexRegister),
    IncIdx(IndexRegister),
    DecIdx(IndexRegister),
    AddIdxRp(IndexRegister, RegisterPair),
    LdRIdxD(IndexRegister, Register),
    LdIdxDR(IndexRegister, Register),
    LdIdxDN(IndexRegister),
    AluIdxD(IndexRegister, AluOp),
    IncIdxD(IndexRegister),
    DecIdxD(IndexRegister),
    PushIdx(IndexRegister),
    PopIdx(IndexRegister),
    JpIdx(IndexRegister),
    ExSpIdx(IndexRegister),
    LdSpIdx(IndexRegister),
    ShiftIdxD(IndexRegister, ShiftOp),
    BitIdxD(IndexRegister, u8),
    ResIdxD(IndexRegister, u8),
    SetIdxD(IndexRegister, u8),
    InRC(Register),
    InFC,
    OutCR(Register),
    OutC0,
    SbcHlRp(RegisterPair),
    AdcHlRp(RegisterPair),
    LdNnRp(RegisterPair),
    LdRpMem(RegisterPair),
    Neg,
    Retn,
    Reti,
    Im(u8),
    Rrd,
    Rld,
    LdIA,
    Ldi,
    Ldd,
    Ldir,
    Lddr,
    Cpi,
    Cpd,
    Cpir,
    Cpdr,
    Ini,
    Ind,
    Inir,
    Indr,
    Outi,
    Outd,
    Otir,
    Otdr,
    /// LD A,IXH / IXL / IYH / IYL (`true` for the high byte).
    LdAHalf(IndexRegister, bool),
    /// LD IXH / IXL / IYH / IYL,n.
    LdHalfN(IndexRegister, bool),
    /// INC IXH / IXL / IYH / IYL.
    IncHalf(IndexRegister, bool),
    /// CP IXH / IXL / IYH / IYL.
    CpHalf(IndexRegister, bool),
}

/// The immediate data that follows an opcode: a displacement, a byte and a
/// word, of which each operation uses what it needs.
#[derive(Debug, Clone, Copy, PartialEq, Eq)]
pub struct Operands {
    pub d: i8,
    pub n: u8,
    pub nn: u16,
}

/// A decoded instruction: size, cost, category and operation.
#[derive(Debug, Clone, Copy)]
pub struct Instruction {
    /// Length in bytes, prefixes and immediate data included.
    pub length: u8,
    /// The executor.
    pub op: Op,
    /// Assembly text, for display only.
    pub mnemonic: &'static str,
    pub instruction_type: InstructionType,
    /// Clock cycles.
    pub t_states: u32,
}

impl Instruction {
    /// A descriptor with the given fields.
    pub fn new(
        length: u8,
        op: Op,
        mnemonic: &'static str,
        instruction_type: InstructionType,
        t_states: u32,
    ) -> (r: Instruction)
        ensures
            r == (Instruction { length, op, mnemonic, instruction_type, t_states }),
    {
        Instruction { length, op, mnemonic, instruction_type, t_states }
    }

    /// The mnemonic followed by the category in parentheses.
    pub fn label(&self) -> (r: String)
        ensures
            r@ == self.mnemonic@ + seq![' ', '('] + category_name(self.instruction_type)@ + seq![')'],
    {
        let t = self.instruction_type.name();
        join_label(self.mnemonic, t)
    }
}

/// `mnemonic`, a space and `category` in parentheses.
fn join_label(mnemonic: &str, category: &str) -> (r: String)
    ensures
        r@ == mnemonic@ + seq![' ', '('] + category@ + seq![')'],
{
    proof {
        reveal_strlit(" (");
        reveal_strlit(")");
    }
    let mut text = String::from_str(mnemonic);
    text.append(" (");
    text.append(category);
    text.append(")");
    text
}

/// The NOP descriptor: one byte, four cycles.
pub open spec fn nop_spec() -> Instruction {
    Instruction { length: 1, op: Op::Nop, mnemonic: "NOP", instruction_type: InstructionType::Control, t_states: 4 }
}

/// Creates the NOP descriptor.
pub fn create_nop() -> (r: Instruction)
    ensures
        r == nop_spec(),
{
    Instruction { length: 1, op: Op::Nop, mnemonic: "NOP", instruction_type: InstructionType::Control, t_states: 4 }
}

} // verus!
