//! The prefix state machine that turns a byte stream into instructions.
use vstd::prelude::*;

use super::instruction::{Instruction, InstructionType, Op};
use super::registers::IndexRegister;
use super::tables::{
    cb_shape, ddcb_shape, ddfd_shape, ed_shape, main_shape, shape, Descriptor,
    InstructionTables,
};
use crate::EmulatorError;

verus! {

/// The prefix bytes seen so far in the current instruction.
#[derive(Debug, Clone, Copy, PartialEq, Eq, Structural)]
pub enum Prefix {
    NoPrefix,
    /// Bit operations, rotates and shifts.
    Cb,
    /// IX instructions.
    Dd,
    /// IY instructions.
    Fd,
    /// Extended instructions.
    Ed,
    /// IX bit operations.
    DdCb,
    /// IY bit operations.
    FdCb,
}

/// The prefix state after `b`, when `b` is a prefix byte in state `p`.
pub open spec fn next_prefix(p: Prefix, b: u8) -> Option<Prefix> {
    match p {
        Prefix::NoPrefix => if b == 0xCB {
            Some(Prefix::Cb)
        } else if b == 0xDD {
            Some(Prefix::Dd)
        } else if b == 0xFD {
            Some(Prefix::Fd)
        } else if b == 0xED {
            Some(Prefix::Ed)
        } else {
            None
        },
        Prefix::Dd => if b == 0xCB {
            Some(Prefix::DdCb)
        } else {
            None
        },
        Prefix::Fd => if b == 0xCB {
            Some(Prefix::FdCb)
        } else {
            None
        },
        _ => None,
    }
}

/// Cycles that the prefix bytes of state `p` add to the instruction: four
/// for each DD or FD byte and for a CB byte after one. The CB and ED tables
/// already count their own prefix byte.
pub open spec fn prefix_cost(p: Prefix) -> u32 {
    match p {
        Prefix::Dd | Prefix::Fd => 4,
        Prefix::DdCb | Prefix::FdCb => 8,
        _ => 0,
    }
}

/// The IY form of an IX operation; other operations are unchanged.
pub open spec fn to_iy(op: Op) -> Op {
    let y = IndexRegister::IY;
    match op {
        Op::LdIdxNn(_) => Op::LdIdxNn(y),
        Op::LdNnIdx(_) => Op::LdNnIdx(y),
        Op::LdIdxMem(_) => Op::LdIdxMem(y),
        Op::IncIdx(_) => Op::IncIdx(y),
        Op::DecIdx(_) => Op::DecIdx(y),
        Op::AddIdxRp(_, p) => Op::AddIdxRp(
            y,
            if p == super::registers::RegisterPair::IX {
                super::registers::RegisterPair::IY
            } else {
                p
            },
        ),
        Op::LdRIdxD(_, r) => Op::LdRIdxD(y, r),
        Op::LdIdxDR(_, r) => Op::LdIdxDR(y, r),
        Op::LdIdxDN(_) => Op::LdIdxDN(y),
        Op::AluIdxD(_, k) => Op::AluIdxD(y, k),
        Op::IncIdxD(_) => Op::IncIdxD(y),
        Op::DecIdxD(_) => Op::DecIdxD(y),
        Op::PushIdx(_) => Op::PushIdx(y),
        Op::PopIdx(_) => Op::PopIdx(y),
        Op::JpIdx(_) => Op::JpIdx(y),
        Op::ExSpIdx(_) => Op::ExSpIdx(y),
        Op::LdSpIdx(_) => Op::LdSpIdx(y),
        Op::ShiftIdxD(_, k) => Op::ShiftIdxD(y, k),
        Op::BitIdxD(_, b) => Op::BitIdxD(y, b),
        Op::ResIdxD(_, b) => Op::ResIdxD(y, b),
        Op::SetIdxD(_, b) => Op::SetIdxD(y, b),
        Op::LdAHalf(_, h) => Op::LdAHalf(y, h),
        Op::LdHalfN(_, h) => Op::LdHalfN(y, h),
        Op::IncHalf(_, h) => Op::IncHalf(y, h),
        Op::CpHalf(_, h) => Op::CpHalf(y, h),
        _ => op,
    }
}

pub open spec fn iy_form(d: Option<Descriptor>) -> Option<Descriptor> {
    match d {
        Some(x) => Some(Descriptor { op: to_iy(x.op), ..x }),
        None => None,
    }
}

/// The table entry for terminal byte `b` in prefix state `p`.
pub open spec fn table_entry(p: Prefix, b: u8) -> Option<Descriptor> {
    match p {
        Prefix::NoPrefix => main_shape(b),
        Prefix::Cb => cb_shape(b),
        Prefix::Ed => ed_shape(b),
        Prefix::Dd => ddfd_shape(b),
        Prefix::Fd => iy_form(ddfd_shape(b)),
        Prefix::DdCb => ddcb_shape(b),
        Prefix::FdCb => iy_form(ddcb_shape(b)),
    }
}

/// The instruction that terminal byte `b` completes in prefix state `p`,
/// with the prefix bytes' cycles added.
pub open spec fn resolved(p: Prefix, b: u8) -> Option<Descriptor> {
    match table_entry(p, b) {
        Some(x) => Some(Descriptor { t_states: (x.t_states + prefix_cost(p)) as u32, ..x }),
        None => None,
    }
}

/// The descriptor of a decoding result.
pub open spec fn decoded(r: Result<Instruction, EmulatorError>) -> Option<Descriptor> {
    match r {
        Ok(i) => shape(Some(i)),
        Err(_) => None,
    }
}

/// The descriptor reported for a prefix byte.
pub open spec fn prefix_instruction() -> Instruction {
    Instruction { length: 1, op: Op::Prefix, mnemonic: "PREFIX", instruction_type: InstructionType::Special, t_states: 4 }
}

/// No table entry costs more than 23 cycles.
proof fn lemma_entry_cost(p: Prefix, b: u8)
    ensures
        table_entry(p, b) matches Some(x) ==> x.t_states <= 23,
{
    reveal(main_shape);
    reveal(cb_shape);
    reveal(ddfd_shape);
    reveal(ddcb_shape);
    reveal(ed_shape);
}

/// The IY form of the operation of a DD/FD entry.
fn convert_iy(op: Op) -> (r: Op)
    ensures
        r == to_iy(op),
{
    let y = IndexRegister::IY;
    match op {
        Op::LdIdxNn(_) => Op::LdIdxNn(y),
        Op::LdNnIdx(_) => Op::LdNnIdx(y),
        Op::LdIdxMem(_) => Op::LdIdxMem(y),
        Op::IncIdx(_) => Op::IncIdx(y),
        Op::DecIdx(_) => Op::DecIdx(y),
        Op::AddIdxRp(_, p) => Op::AddIdxRp(
            y,
            match p {
                super::registers::RegisterPair::IX => super::registers::RegisterPair::IY,
                _ => p,
            },
        ),
        Op::LdRIdxD(_, r) => Op::LdRIdxD(y, r),
        Op::LdIdxDR(_, r) => Op::LdIdxDR(y, r),
        Op::LdIdxDN(_) => Op::LdIdxDN(y),
        Op::AluIdxD(_, k) => Op::AluIdxD(y, k),
        Op::IncIdxD(_) => Op::IncIdxD(y),
        Op::DecIdxD(_) => Op::DecIdxD(y),
        Op::PushIdx(_) => Op::PushIdx(y),
        Op::PopIdx(_) => Op::PopIdx(y),
        Op::JpIdx(_) => Op::JpIdx(y),
        Op::ExSpIdx(_) => Op::ExSpIdx(y),
        Op::LdSpIdx(_) => Op::LdSpIdx(y),
        Op::ShiftIdxD(_, k) => Op::ShiftIdxD(y, k),
        Op::BitIdxD(_, b) => Op::BitIdxD(y, b),
        Op::ResIdxD(_, b) => Op::ResIdxD(y, b),
        Op::SetIdxD(_, b) => Op::SetIdxD(y, b),
        Op::LdAHalf(_, h) => Op::LdAHalf(y, h),
        Op::LdHalfN(_, h) => Op::LdHalfN(y, h),
        Op::IncHalf(_, h) => Op::IncHalf(y, h),
        Op::CpHalf(_, h) => Op::CpHalf(y, h),
        _ => op,
    }
}

/// The instruction decoder: the current prefix state and the tables.
pub struct Decoder {
    pub current_prefix: Prefix,
    pub tables: InstructionTables,
}

impl Decoder {
    /// A decoder with no prefix pending.
    pub fn new() -> (d: Decoder)
        ensures
            d.current_prefix == Prefix::NoPrefix,
    {
        Decoder { current_prefix: Prefix::NoPrefix, tables: InstructionTables::new() }
    }

    /// Forgets any pending prefix.
    pub fn reset(&mut self)
        ensures
            final(self).current_prefix == Prefix::NoPrefix,
    {
        self.current_prefix = Prefix::NoPrefix;
    }

    /// Follows the prefix transition for `opcode`, if it is a prefix byte in
    /// the current state; returns whether it was.
    pub fn handle_prefix(&mut self, opcode: u8) -> (r: bool)
        ensures
            r == next_prefix(old(self).current_prefix, opcode) is Some,
            final(self).current_prefix == match next_prefix(old(self).current_prefix, opcode) {
                Some(p) => p,
                None => old(self).current_prefix,
            },
    {
        let next = match self.current_prefix {
            Prefix::NoPrefix => if opcode == 0xCB {
                Some(Prefix::Cb)
            } else if opcode == 0xDD {
                Some(Prefix::Dd)
            } else if opcode == 0xFD {
                Some(Prefix::Fd)
            } else if opcode == 0xED {
                Some(Prefix::Ed)
            } else {
                None
            },
            Prefix::Dd => if opcode == 0xCB {
                Some(Prefix::DdCb)
            } else {
                None
            },
            Prefix::Fd => if opcode == 0xCB {
                Some(Prefix::FdCb)
            } else {
                None
            },
            _ => None,
        };
        match next {
            Some(p) => {
                self.current_prefix = p;
                true
            },
            None => false,
        }
    }

    /// Completes the instruction with terminal byte `opcode`: looks it up in
    /// the table that the prefix state selects and returns to no prefix.
    /// Fails with `InvalidOpcode(opcode)` when the table has no entry.
    pub fn resolve(&mut self, opcode: u8) -> (r: crate::Result<Instruction>)
        ensures
            final(self).current_prefix == Prefix::NoPrefix,
            resolved(old(self).current_prefix, opcode) is None ==> r == Err::<Instruction, EmulatorError>(
                EmulatorError::InvalidOpcode(opcode),
            ),
            resolved(old(self).current_prefix, opcode) is Some ==> r is Ok && decoded(r) == resolved(
                old(self).current_prefix,
                opcode,
            ),
    {
        let prefix = self.current_prefix;
        self.current_prefix = Prefix::NoPrefix;
        let entry = match prefix {
            Prefix::NoPrefix => self.tables.lookup_main(opcode),
            Prefix::Cb => self.tables.lookup_cb(opcode),
            Prefix::Ed => self.tables.lookup_ed(opcode),
            Prefix::Dd | Prefix::Fd => self.tables.lookup_ddfd(opcode),
            Prefix::DdCb | Prefix::FdCb => self.tables.lookup_ddcb(opcode),
        };
        proof {
            lemma_entry_cost(prefix, opcode);
        }
        match entry {
            None => Err(EmulatorError::InvalidOpcode(opcode)),
            Some(i) => {
                let cost: u32 = match prefix {
                    Prefix::Dd | Prefix::Fd => 4,
                    Prefix::DdCb | Prefix::FdCb => 8,
                    _ => 0,
                };
                let op = match prefix {
                    Prefix::Fd | Prefix::FdCb => convert_iy(i.op),
                    _ => i.op,
                };
                Ok(
                    Instruction {
                        length: i.length,
                        op,
                        mnemonic: i.mnemonic,
                        instruction_type: i.instruction_type,
                        t_states: i.t_states + cost,
                    },
                )
            },
        }
    }

    /// Feeds one byte: a prefix byte moves the prefix state and yields the
    /// PREFIX pseudo-instruction; any other byte completes the instruction
    /// (see `resolve`).
    pub fn decode(&mut self, opcode: u8) -> (r: crate::Result<Instruction>)
        ensures
            next_prefix(old(self).current_prefix, opcode) matches Some(p) ==> final(self).current_prefix
                == p && r == Ok::<Instruction, EmulatorError>(prefix_instruction()),
            next_prefix(old(self).current_prefix, opcode) is None ==> final(self).current_prefix
                == Prefix::NoPrefix && (resolved(old(self).current_prefix, opcode) is None ==> r == Err::<
                Instruction,
                EmulatorError,
            >(EmulatorError::InvalidOpcode(opcode))) && (resolved(old(self).current_prefix, opcode) is Some
                ==> r is Ok && decoded(r) == resolved(old(self).current_prefix, opcode)),
    {
        if self.handle_prefix(opcode) {
            Ok(Instruction { length: 1, op: Op::Prefix, mnemonic: "PREFIX", instruction_type: InstructionType::Special, t_states: 4 })
        } else {
            self.resolve(opcode)
        }
    }
}

impl Default for Decoder {
    fn default() -> (d: Decoder)
        ensures
            d.current_prefix == Prefix::NoPrefix,
    {
        Decoder::new()
    }
}

} // verus!
