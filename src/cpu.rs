//! The Z80 processor: register file, flags, memory and clock.
use vstd::prelude::*;

pub mod alu;
pub mod arithmetic;
pub mod bit_manipulation;
pub mod block_operations;
pub mod control_flow;
pub mod decoder;
pub mod engine;
pub mod execute;
pub mod extended;
pub mod flags;
pub mod instruction;
pub mod interrupts;
pub mod io;
pub mod load;
pub mod logical;
pub mod misc;
pub mod registers;
pub mod tables;
pub mod undocumented;

use crate::event::EventQueue;
use crate::memory::Memory;
use crate::EmulatorError;
use flags::{flags_of, is_set, Flags};

verus! {

/// The architectural state of the processor: registers, interrupt state and
/// the 64 KiB of memory it addresses.
pub ghost struct CpuState {
    pub a: u8,
    pub b: u8,
    pub c: u8,
    pub d: u8,
    pub e: u8,
    pub h: u8,
    pub l: u8,
    pub f: u8,
    pub i: u8,
    pub r: u8,
    pub pc: u16,
    pub sp: u16,
    pub ix: u16,
    pub iy: u16,
    pub a_alt: u8,
    pub b_alt: u8,
    pub c_alt: u8,
    pub d_alt: u8,
    pub e_alt: u8,
    pub h_alt: u8,
    pub l_alt: u8,
    pub f_alt: u8,
    pub iff1: bool,
    pub iff2: bool,
    pub interrupt_mode: u8,
    pub halted: bool,
    pub mem: Seq<u8>,
}

/// The 16-bit value with high byte `hi` and low byte `lo`.
pub open spec fn pair(hi: u8, lo: u8) -> u16 {
    (hi * 256 + lo) as u16
}

/// High byte of a 16-bit value.
pub open spec fn hi(v: u16) -> u8 {
    (v / 256) as u8
}

/// Low byte of a 16-bit value.
pub open spec fn lo(v: u16) -> u8 {
    (v % 256) as u8
}

/// `x + y` modulo 2^16, for `y` within one turn of the range.
pub open spec fn add16(x: u16, y: int) -> u16 {
    if x + y > 65535 {
        (x + y - 65536) as u16
    } else if x + y < 0 {
        (x + y + 65536) as u16
    } else {
        (x + y) as u16
    }
}

/// `x + y` modulo 2^8, for `y` within one turn of the range.
pub open spec fn add8(x: u8, y: int) -> u8 {
    if x + y > 255 {
        (x + y - 256) as u8
    } else if x + y < 0 {
        (x + y + 256) as u8
    } else {
        (x + y) as u8
    }
}

/// The byte at `addr`.
pub open spec fn rd8(mem: Seq<u8>, addr: u16) -> u8 {
    mem[addr as int]
}

/// The little-endian word at `addr`, wrapping at the top of memory.
pub open spec fn rd16(mem: Seq<u8>, addr: u16) -> u16 {
    pair(mem[add16(addr, 1) as int], mem[addr as int])
}

/// `mem` with the little-endian word `v` stored at `addr`.
pub open spec fn wr16(mem: Seq<u8>, addr: u16, v: u16) -> Seq<u8> {
    mem.update(addr as int, lo(v)).update(add16(addr, 1) as int, hi(v))
}

pub open spec fn bc(s: CpuState) -> u16 {
    pair(s.b, s.c)
}

pub open spec fn de(s: CpuState) -> u16 {
    pair(s.d, s.e)
}

pub open spec fn hl(s: CpuState) -> u16 {
    pair(s.h, s.l)
}

pub open spec fn af(s: CpuState) -> u16 {
    pair(s.a, s.f)
}

pub open spec fn with_bc(s: CpuState, v: u16) -> CpuState {
    CpuState { b: hi(v), c: lo(v), ..s }
}

pub open spec fn with_de(s: CpuState, v: u16) -> CpuState {
    CpuState { d: hi(v), e: lo(v), ..s }
}

pub open spec fn with_hl(s: CpuState, v: u16) -> CpuState {
    CpuState { h: hi(v), l: lo(v), ..s }
}

pub open spec fn with_f(s: CpuState, f: u8) -> CpuState {
    CpuState { f: f, ..s }
}

/// A byte split into a word and put back together is unchanged.
pub proof fn lemma_pair_split(v: u16)
    ensures
        pair(hi(v), lo(v)) == v,
{
}

/// A word written to memory reads back unchanged.
pub proof fn lemma_rd16_wr16(mem: Seq<u8>, addr: u16, v: u16)
    requires
        mem.len() == 65536,
    ensures
        rd16(wr16(mem, addr, v), addr) == v,
        wr16(mem, addr, v).len() == 65536,
{
    assert(add16(addr, 1) != addr);
}

/// The Z80 processor.
pub struct Cpu {
    pub a: u8,
    pub b: u8,
    pub c: u8,
    pub d: u8,
    pub e: u8,
    pub h: u8,
    pub l: u8,
    /// The flag register.
    pub f: u8,
    /// Interrupt vector base.
    pub i: u8,
    /// Memory refresh counter.
    pub r: u8,
    pub pc: u16,
    pub sp: u16,
    pub ix: u16,
    pub iy: u16,
    pub a_alt: u8,
    pub b_alt: u8,
    pub c_alt: u8,
    pub d_alt: u8,
    pub e_alt: u8,
    pub h_alt: u8,
    pub l_alt: u8,
    pub f_alt: u8,
    pub iff1: bool,
    pub iff2: bool,
    /// 0, 1 or 2.
    pub interrupt_mode: u8,
    pub halted: bool,
    pub memory: Memory,
    /// Clock cycles elapsed.
    pub t_states: u64,
    /// Events scheduled by other components.
    pub event_queue: EventQueue,
    /// The prefix decoder and its opcode tables.
    pub decoder: decoder::Decoder,
}

impl View for Cpu {
    type V = CpuState;

    open spec fn view(&self) -> CpuState {
        CpuState {
            a: self.a,
            b: self.b,
            c: self.c,
            d: self.d,
            e: self.e,
            h: self.h,
            l: self.l,
            f: self.f,
            i: self.i,
            r: self.r,
            pc: self.pc,
            sp: self.sp,
            ix: self.ix,
            iy: self.iy,
            a_alt: self.a_alt,
            b_alt: self.b_alt,
            c_alt: self.c_alt,
            d_alt: self.d_alt,
            e_alt: self.e_alt,
            h_alt: self.h_alt,
            l_alt: self.l_alt,
            f_alt: self.f_alt,
            iff1: self.iff1,
            iff2: self.iff2,
            interrupt_mode: self.interrupt_mode,
            halted: self.halted,
            mem: self.memory@,
        }
    }
}

/// The state after reset: every register zero but SP, which is 0xFFFF,
/// interrupts disabled, mode 0, memory as given.
pub open spec fn reset_state(mem: Seq<u8>) -> CpuState {
    CpuState {
        a: 0,
        b: 0,
        c: 0,
        d: 0,
        e: 0,
        h: 0,
        l: 0,
        f: 0,
        i: 0,
        r: 0,
        pc: 0,
        sp: 0xFFFF,
        ix: 0,
        iy: 0,
        a_alt: 0,
        b_alt: 0,
        c_alt: 0,
        d_alt: 0,
        e_alt: 0,
        h_alt: 0,
        l_alt: 0,
        f_alt: 0,
        iff1: false,
        iff2: false,
        interrupt_mode: 0,
        halted: false,
        mem: mem,
    }
}

/// The refresh counter after one opcode fetch: the low seven bits count
/// and wrap, bit 7 is kept.
pub open spec fn next_r(r: u8) -> u8 {
    ((r / 128) * 128 + (r % 128 + 1) % 128) as u8
}

/// The state after pushing `v`: SP down by two, `v` stored at the new SP.
pub open spec fn push_spec(s: CpuState, v: u16) -> CpuState {
    CpuState { sp: add16(s.sp, -2), mem: wr16(s.mem, add16(s.sp, -2), v), ..s }
}

/// The word at the top of the stack.
pub open spec fn top(s: CpuState) -> u16 {
    rd16(s.mem, s.sp)
}

/// The state after popping: SP up by two.
pub open spec fn pop_spec(s: CpuState) -> CpuState {
    CpuState { sp: add16(s.sp, 2), ..s }
}

impl Cpu {
    /// A processor in its reset state with the given memory.
    pub fn with_memory(memory: Memory) -> (cpu: Cpu)
        ensures
            cpu@ == reset_state(memory@),
            cpu.t_states == 0,
            cpu.event_queue@.len() == 0,
    {
        Cpu {
            a: 0,
            b: 0,
            c: 0,
            d: 0,
            e: 0,
            h: 0,
            l: 0,
            f: 0,
            i: 0,
            r: 0,
            pc: 0,
            sp: 0xFFFF,
            ix: 0,
            iy: 0,
            a_alt: 0,
            b_alt: 0,
            c_alt: 0,
            d_alt: 0,
            e_alt: 0,
            h_alt: 0,
            l_alt: 0,
            f_alt: 0,
            iff1: false,
            iff2: false,
            interrupt_mode: 0,
            halted: false,
            memory,
            t_states: 0,
            event_queue: EventQueue::new(),
            decoder: decoder::Decoder::new(),
        }
    }

    /// A processor in its reset state with zeroed memory.
    pub fn new() -> (cpu: Cpu)
        ensures
            cpu@ == reset_state(Seq::new(65536, |i: int| 0u8)),
            cpu.t_states == 0,
            cpu.event_queue@.len() == 0,
    {
        Cpu::with_memory(Memory::new())
    }

    /// Reads the byte at `address`.
    pub fn read_byte(&self, address: u16) -> (r: u8)
        ensures
            r == rd8(self@.mem, address),
            self@.mem.len() == 65536,
    {
        match self.memory.read_byte(address) {
            Ok(v) => v,
            Err(_) => 0,
        }
    }

    /// Writes the byte at `address`.
    pub fn write_byte(&mut self, address: u16, value: u8)
        ensures
            final(self)@ == (CpuState { mem: old(self)@.mem.update(address as int, value), ..old(self)@ }),
            old(self)@.mem.len() == 65536,
            final(self).t_states == old(self).t_states,
            final(self).event_queue == old(self).event_queue,
    {
        let _ = self.memory.write_byte(address, value);
    }

    /// Reads the little-endian word at `address`.
    pub fn read_word(&self, address: u16) -> (r: u16)
        ensures
            r == rd16(self@.mem, address),
            self@.mem.len() == 65536,
    {
        let low = self.read_byte(address);
        let high = self.read_byte(address.wrapping_add(1));
        (high as u16) * 256 + (low as u16)
    }

    /// Writes the little-endian word `value` at `address`.
    pub fn write_word(&mut self, address: u16, value: u16)
        ensures
            final(self)@ == (CpuState { mem: wr16(old(self)@.mem, address, value), ..old(self)@ }),
            old(self)@.mem.len() == 65536,
            final(self).t_states == old(self).t_states,
            final(self).event_queue == old(self).event_queue,
    {
        self.write_byte(address, (value % 256) as u8);
        self.write_byte(address.wrapping_add(1), (value / 256) as u8);
    }

    /// Advances the program counter by `amount`, wrapping.
    pub fn increment_pc(&mut self, amount: u16)
        ensures
            final(self)@ == (CpuState { pc: add16(old(self).pc, amount as int), ..old(self)@ }),
    {
        self.pc = self.pc.wrapping_add(amount);
    }

    /// Reads the byte at PC and advances PC past it.
    pub fn fetch_byte(&mut self) -> (r: u8)
        ensures
            r == rd8(old(self)@.mem, old(self).pc),
            final(self)@ == (CpuState { pc: add16(old(self).pc, 1), ..old(self)@ }),
    {
        let byte = self.read_byte(self.pc);
        self.pc = self.pc.wrapping_add(1);
        byte
    }

    /// The program counter.
    pub fn get_pc(&self) -> (r: u16)
        ensures
            r == self.pc,
    {
        self.pc
    }

    /// The stack pointer.
    pub fn get_sp(&self) -> (r: u16)
        ensures
            r == self.sp,
    {
        self.sp
    }

    pub fn get_bc(&self) -> (r: u16)
        ensures
            r == bc(self@),
    {
        (self.b as u16) * 256 + (self.c as u16)
    }

    pub fn get_de(&self) -> (r: u16)
        ensures
            r == de(self@),
    {
        (self.d as u16) * 256 + (self.e as u16)
    }

    pub fn get_hl(&self) -> (r: u16)
        ensures
            r == hl(self@),
    {
        (self.h as u16) * 256 + (self.l as u16)
    }

    pub fn set_bc(&mut self, value: u16)
        ensures
            final(self)@ == with_bc(old(self)@, value),
    {
        self.b = (value / 256) as u8;
        self.c = (value % 256) as u8;
    }

    pub fn set_de(&mut self, value: u16)
        ensures
            final(self)@ == with_de(old(self)@, value),
    {
        self.d = (value / 256) as u8;
        self.e = (value % 256) as u8;
    }

    pub fn set_hl(&mut self, value: u16)
        ensures
            final(self)@ == with_hl(old(self)@, value),
    {
        self.h = (value / 256) as u8;
        self.l = (value % 256) as u8;
    }

    /// Sets (`value`) or clears the flag bits in `flag`.
    pub fn set_flag(&mut self, flag: u8, value: bool)
        ensures
            final(self)@ == with_f(
                old(self)@,
                if value {
                    old(self).f | flag
                } else {
                    old(self).f & !flag
                },
            ),
    {
        if value {
            self.f = self.f | flag;
        } else {
            self.f = self.f & !flag;
        }
    }

    /// Whether any bit of `flag` is set in F.
    pub fn get_flag(&self, flag: u8) -> (r: bool)
        ensures
            r == is_set(self.f, flag),
    {
        (self.f & flag) != 0
    }

    /// The structured view of F; it packs back to F exactly.
    pub fn flags(&self) -> (r: Flags)
        ensures
            r == flags_of(self.f),
            flags::packed(r) == self.f,
    {
        let mut fl = Flags::new();
        fl.from_byte(self.f);
        fl
    }

    /// Swaps the main registers A..L and F with the alternate set.
    pub fn exchange_register_sets(&mut self)
        ensures
            final(self)@ == (CpuState {
                a: old(self).a_alt,
                b: old(self).b_alt,
                c: old(self).c_alt,
                d: old(self).d_alt,
                e: old(self).e_alt,
                h: old(self).h_alt,
                l: old(self).l_alt,
                f: old(self).f_alt,
                a_alt: old(self).a,
                b_alt: old(self).b,
                c_alt: old(self).c,
                d_alt: old(self).d,
                e_alt: old(self).e,
                h_alt: old(self).h,
                l_alt: old(self).l,
                f_alt: old(self).f,
                ..old(self)@
            }),
    {
        let (a, b, c, d, e, h, l, f) = (self.a, self.b, self.c, self.d, self.e, self.h, self.l, self.f);
        self.a = self.a_alt;
        self.b = self.b_alt;
        self.c = self.c_alt;
        self.d = self.d_alt;
        self.e = self.e_alt;
        self.h = self.h_alt;
        self.l = self.l_alt;
        self.f = self.f_alt;
        self.a_alt = a;
        self.b_alt = b;
        self.c_alt = c;
        self.d_alt = d;
        self.e_alt = e;
        self.h_alt = h;
        self.l_alt = l;
        self.f_alt = f;
    }

    /// Counts one opcode fetch in the refresh register.
    pub fn increment_r(&mut self)
        ensures
            final(self)@ == (CpuState { r: next_r(old(self).r), ..old(self)@ }),
            final(self).t_states == old(self).t_states,
            final(self).event_queue == old(self).event_queue,
            final(self).decoder == old(self).decoder,
    {
        self.r = (self.r / 128) * 128 + (self.r % 128 + 1) % 128;
    }

    /// Clock cycles elapsed so far.
    pub fn get_t_states(&self) -> (r: u64)
        ensures
            r == self.t_states,
    {
        self.t_states
    }

    /// Restarts the cycle count from zero.
    pub fn reset_t_states(&mut self)
        ensures
            final(self)@ == old(self)@,
            final(self).t_states == 0,
    {
        self.t_states = 0;
    }

    /// Copies `program` into memory from `address`; fails with
    /// `MemoryError(address)`, changing nothing, when it does not fit.
    pub fn load_program(&mut self, address: u16, program: &[u8]) -> (r: crate::Result<()>)
        ensures
            address + program@.len() > 65536 ==> r == Err::<(), EmulatorError>(
                EmulatorError::MemoryError(address),
            ) && final(self)@ == old(self)@,
            address + program@.len() <= 65536 ==> r == Ok::<(), EmulatorError>(()) && final(self)@
                == (CpuState {
                mem: crate::memory::loaded(old(self)@.mem, address as int, program@),
                ..old(self)@
            }),
            final(self).t_states == old(self).t_states,
            final(self).event_queue == old(self).event_queue,
    {
        self.memory.load(address, program)
    }

    /// Pushes `value`: SP goes down by two and the word is stored there.
    pub fn push(&mut self, value: u16)
        ensures
            final(self)@ == push_spec(old(self)@, value),
            old(self)@.mem.len() == 65536,
            final(self).t_states == old(self).t_states,
            final(self).event_queue == old(self).event_queue,
    {
        self.sp = self.sp.wrapping_sub(2);
        self.write_word(self.sp, value);
    }

    /// Pops the word at the top of the stack.
    pub fn pop(&mut self) -> (r: u16)
        ensures
            r == top(old(self)@),
            final(self)@ == pop_spec(old(self)@),
            old(self)@.mem.len() == 65536,
    {
        let value = self.read_word(self.sp);
        self.sp = self.sp.wrapping_add(2);
        value
    }
}

impl Default for Cpu {
    fn default() -> (cpu: Cpu)
        ensures
            cpu@ == reset_state(Seq::new(65536, |i: int| 0u8)),
            cpu.t_states == 0,
            cpu.event_queue@.len() == 0,
    {
        Cpu::new()
    }
}

} // verus!
