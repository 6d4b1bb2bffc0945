//! Register names and access by name.
use vstd::prelude::*;

use super::{add16, hi, lo, pair, Cpu, CpuState};

verus! {

/// An 8-bit register.
#[derive(Debug, Clone, Copy, PartialEq, Eq)]
pub enum Register {
    A,
    B,
    C,
    D,
    E,
    H,
    L,
    F,
}

/// A 16-bit register or register pair.
#[derive(Debug, Clone, Copy, PartialEq, Eq)]
pub enum RegisterPair {
    BC,
    DE,
    HL,
    AF,
    SP,
    IX,
    IY,
}

/// One of the two index registers.
#[derive(Debug, Clone, Copy, PartialEq, Eq)]
pub enum IndexRegister {
    IX,
    IY,
}

/// The value of an 8-bit register.
pub open spec fn reg(s: CpuState, r: Register) -> u8 {
    match r {
        Register::A => s.a,
        Register::B => s.b,
        Register::C => s.c,
        Register::D => s.d,
        Register::E => s.e,
        Register::H => s.h,
        Register::L => s.l,
        Register::F => s.f,
    }
}

/// The state with an 8-bit register replaced.
pub open spec fn with_reg(s: CpuState, r: Register, v: u8) -> CpuState {
    match r {
        Register::A => CpuState { a: v, ..s },
        Register::B => CpuState { b: v, ..s },
        Register::C => CpuState { c: v, ..s },
        Register::D => CpuState { d: v, ..s },
        Register::E => CpuState { e: v, ..s },
        Register::H => CpuState { h: v, ..s },
        Register::L => CpuState { l: v, ..s },
        Register::F => CpuState { f: v, ..s },
    }
}

/// The value of a 16-bit register or pair.
pub open spec fn reg16(s: CpuState, p: RegisterPair) -> u16 {
    match p {
        RegisterPair::BC => pair(s.b, s.c),
        RegisterPair::DE => pair(s.d, s.e),
        RegisterPair::HL => pair(s.h, s.l),
        RegisterPair::AF => pair(s.a, s.f),
        RegisterPair::SP => s.sp,
        RegisterPair::IX => s.ix,
        RegisterPair::IY => s.iy,
    }
}

/// The state with a 16-bit register or pair replaced.
pub open spec fn with_reg16(s: CpuState, p: RegisterPair, v: u16) -> CpuState {
    match p {
        RegisterPair::BC => CpuState { b: hi(v), c: lo(v), ..s },
        RegisterPair::DE => CpuState { d: hi(v), e: lo(v), ..s },
        RegisterPair::HL => CpuState { h: hi(v), l: lo(v), ..s },
        RegisterPair::AF => CpuState { a: hi(v), f: lo(v), ..s },
        RegisterPair::SP => CpuState { sp: v, ..s },
        RegisterPair::IX => CpuState { ix: v, ..s },
        RegisterPair::IY => CpuState { iy: v, ..s },
    }
}

/// The value of an index register.
pub open spec fn index(s: CpuState, x: IndexRegister) -> u16 {
    match x {
        IndexRegister::IX => s.ix,
        IndexRegister::IY => s.iy,
    }
}

/// The state with an index register replaced.
pub open spec fn with_index(s: CpuState, x: IndexRegister, v: u16) -> CpuState {
    match x {
        IndexRegister::IX => CpuState { ix: v, ..s },
        IndexRegister::IY => CpuState { iy: v, ..s },
    }
}

/// The address `base + d` with `d` sign-extended, wrapping.
pub open spec fn displaced(base: u16, d: i8) -> u16 {
    add16(base, d as int)
}

/// A register pair written and read back gives the value written.
pub proof fn lemma_reg16_round_trip(s: CpuState, p: RegisterPair, v: u16)
    ensures
        reg16(with_reg16(s, p, v), p) == v,
{
}

impl Cpu {
    pub fn read_register(&self, reg: Register) -> (r: u8)
        ensures
            r == self::reg(self@, reg),
    {
        match reg {
            Register::A => self.a,
            Register::B => self.b,
            Register::C => self.c,
            Register::D => self.d,
            Register::E => self.e,
            Register::H => self.h,
            Register::L => self.l,
            Register::F => self.f,
        }
    }

    pub fn write_register(&mut self, reg: Register, value: u8)
        ensures
            final(self)@ == with_reg(old(self)@, reg, value),
    {
        match reg {
            Register::A => self.a = value,
            Register::B => self.b = value,
            Register::C => self.c = value,
            Register::D => self.d = value,
            Register::E => self.e = value,
            Register::H => self.h = value,
            Register::L => self.l = value,
            Register::F => self.f = value,
        }
    }

    pub fn read_register_pair(&self, pair: RegisterPair) -> (r: u16)
        ensures
            r == reg16(self@, pair),
    {
        match pair {
            RegisterPair::BC => self.get_bc(),
            RegisterPair::DE => self.get_de(),
            RegisterPair::HL => self.get_hl(),
            RegisterPair::AF => (self.a as u16) * 256 + (self.f as u16),
            RegisterPair::SP => self.sp,
            RegisterPair::IX => self.ix,
            RegisterPair::IY => self.iy,
        }
    }

    pub fn write_register_pair(&mut self, pair: RegisterPair, value: u16)
        ensures
            final(self)@ == with_reg16(old(self)@, pair, value),
    {
        let high = (value / 256) as u8;
        let low = (value % 256) as u8;
        match pair {
            RegisterPair::BC => {
                self.b = high;
                self.c = low;
            },
            RegisterPair::DE => {
                self.d = high;
                self.e = low;
            },
            RegisterPair::HL => {
                self.h = high;
                self.l = low;
            },
            RegisterPair::AF => {
                self.a = high;
                self.f = low;
            },
            RegisterPair::SP => self.sp = value,
            RegisterPair::IX => self.ix = value,
            RegisterPair::IY => self.iy = value,
        }
    }

    /// The value of an index register.
    pub fn read_index(&self, x: IndexRegister) -> (r: u16)
        ensures
            r == index(self@, x),
    {
        match x {
            IndexRegister::IX => self.ix,
            IndexRegister::IY => self.iy,
        }
    }

    /// Replaces an index register.
    pub fn write_index(&mut self, x: IndexRegister, value: u16)
        ensures
            final(self)@ == with_index(old(self)@, x, value),
    {
        match x {
            IndexRegister::IX => self.ix = value,
            IndexRegister::IY => self.iy = value,
        }
    }

    /// The address `IX+d` or `IY+d`.
    pub fn index_address(&self, x: IndexRegister, offset: i8) -> (r: u16)
        ensures
            r == displaced(index(self@, x), offset),
    {
        self.read_index(x).wrapping_add_signed(offset as i16)
    }
}

} // verus!
