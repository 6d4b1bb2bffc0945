//! Control of the processor and the flags, digit rotates and exchanges.
use vstd::prelude::*;

use super::flags::{even_parity, flag_bit, is_set, pack, pack_flags, parity, FLAG_C, FLAG_H, FLAG_N, FLAG_X, FLAG_Y};
use super::{hl, rd8, with_f, Cpu, CpuState};

verus! {

/// The state after RLD: the low digit of (HL) moves to its high digit, the
/// high digit of (HL) to the low digit of A, the low digit of A to the low
/// digit of (HL).
pub open spec fn rld_spec(s: CpuState) -> CpuState {
    let m = rd8(s.mem, hl(s));
    let a = ((s.a / 16) * 16 + m / 16) as u8;
    let nm = ((m % 16) * 16 + s.a % 16) as u8;
    CpuState { a: a, f: digit_flags(a, s.f), mem: s.mem.update(hl(s) as int, nm), ..s }
}

/// The state after RRD: the digits move the other way round.
pub open spec fn rrd_spec(s: CpuState) -> CpuState {
    let m = rd8(s.mem, hl(s));
    let a = ((s.a / 16) * 16 + m % 16) as u8;
    let nm = ((s.a % 16) * 16 + m / 16) as u8;
    CpuState { a: a, f: digit_flags(a, s.f), mem: s.mem.update(hl(s) as int, nm), ..s }
}

/// Flags of RLD and RRD: S, Z and parity from A, H and N clear, the rest kept.
pub open spec fn digit_flags(a: u8, f: u8) -> u8 {
    pack_flags(a >= 0x80, a == 0, is_set(f, FLAG_Y), false, is_set(f, FLAG_X), parity(a), false, is_set(f, FLAG_C))
}

impl Cpu {
    /// NOP: does nothing.
    pub fn nop(&self) {
    }

    /// HALT: stops until an interrupt arrives.
    pub fn halt(&mut self)
        ensures
            final(self)@ == (CpuState { halted: true, ..old(self)@ }),
    {
        self.halted = true;
    }

    /// CPL: complements A and sets H and N.
    pub fn cpl(&mut self)
        ensures
            final(self)@ == (CpuState { a: !old(self).a, f: old(self).f | FLAG_H | FLAG_N, ..old(self)@ }),
    {
        self.a = !self.a;
        self.f = self.f | FLAG_H | FLAG_N;
    }

    /// CCF: complements the carry; H takes the old carry, N is cleared.
    pub fn ccf(&mut self)
        ensures
            final(self)@ == with_f(
                old(self)@,
                (old(self).f & 0xEC) | flag_bit(is_set(old(self).f, FLAG_C), FLAG_H) | flag_bit(
                    !is_set(old(self).f, FLAG_C),
                    FLAG_C,
                ),
            ),
    {
        let carry = self.f & FLAG_C != 0;
        self.f = (self.f & 0xEC) | super::flags::flag_byte(carry, FLAG_H) | super::flags::flag_byte(
            !carry,
            FLAG_C,
        );
    }

    /// SCF: sets the carry, clears H and N.
    pub fn scf(&mut self)
        ensures
            final(self)@ == with_f(old(self)@, (old(self).f & 0xEC) | FLAG_C),
    {
        self.f = (self.f & 0xEC) | FLAG_C;
    }

    /// IM 0.
    pub fn im_0(&mut self)
        ensures
            final(self)@ == (CpuState { interrupt_mode: 0, ..old(self)@ }),
    {
        self.interrupt_mode = 0;
    }

    /// IM 1.
    pub fn im_1(&mut self)
        ensures
            final(self)@ == (CpuState { interrupt_mode: 1, ..old(self)@ }),
    {
        self.interrupt_mode = 1;
    }

    /// IM 2.
    pub fn im_2(&mut self)
        ensures
            final(self)@ == (CpuState { interrupt_mode: 2, ..old(self)@ }),
    {
        self.interrupt_mode = 2;
    }

    /// RLD: rotates the digits of A and (HL) to the left.
    pub fn rld(&mut self)
        ensures
            final(self)@ == rld_spec(old(self)@),
    {
        let address = self.get_hl();
        let m = self.read_byte(address);
        let a = (self.a / 16) * 16 + m / 16;
        let nm = (m % 16) * 16 + self.a % 16;
        self.write_byte(address, nm);
        self.a = a;
        self.f = digit_flags_of(a, self.f);
    }

    /// RRD: rotates the digits of A and (HL) to the right.
    pub fn rrd(&mut self)
        ensures
            final(self)@ == rrd_spec(old(self)@),
    {
        let address = self.get_hl();
        let m = self.read_byte(address);
        let a = (self.a / 16) * 16 + m % 16;
        let nm = (self.a % 16) * 16 + m / 16;
        self.write_byte(address, nm);
        self.a = a;
        self.f = digit_flags_of(a, self.f);
    }

    /// EX DE,HL.
    pub fn ex_de_hl(&mut self)
        ensures
            final(self)@ == (CpuState {
                d: old(self).h,
                e: old(self).l,
                h: old(self).d,
                l: old(self).e,
                ..old(self)@
            }),
    {
        let (d, e) = (self.d, self.e);
        self.d = self.h;
        self.e = self.l;
        self.h = d;
        self.l = e;
    }

    /// EX AF,AF': swaps A and F with their alternates.
    pub fn ex_af_af_prime(&mut self)
        ensures
            final(self)@ == (CpuState {
                a: old(self).a_alt,
                f: old(self).f_alt,
                a_alt: old(self).a,
                f_alt: old(self).f,
                ..old(self)@
            }),
    {
        let (a, f) = (self.a, self.f);
        self.a = self.a_alt;
        self.f = self.f_alt;
        self.a_alt = a;
        self.f_alt = f;
    }

    /// EXX: swaps BC, DE and HL with their alternates.
    pub fn exx(&mut self)
        ensures
            final(self)@ == (CpuState {
                b: old(self).b_alt,
                c: old(self).c_alt,
                d: old(self).d_alt,
                e: old(self).e_alt,
                h: old(self).h_alt,
                l: old(self).l_alt,
                b_alt: old(self).b,
                c_alt: old(self).c,
                d_alt: old(self).d,
                e_alt: old(self).e,
                h_alt: old(self).h,
                l_alt: old(self).l,
                ..old(self)@
            }),
    {
        let (b, c, d, e, h, l) = (self.b, self.c, self.d, self.e, self.h, self.l);
        self.b = self.b_alt;
        self.c = self.c_alt;
        self.d = self.d_alt;
        self.e = self.e_alt;
        self.h = self.h_alt;
        self.l = self.l_alt;
        self.b_alt = b;
        self.c_alt = c;
        self.d_alt = d;
        self.e_alt = e;
        self.h_alt = h;
        self.l_alt = l;
    }
}

fn digit_flags_of(a: u8, f: u8) -> (r: u8)
    ensures
        r == digit_flags(a, f),
{
    pack(a >= 0x80, a == 0, f & FLAG_Y != 0, false, f & FLAG_X != 0, even_parity(a), false, f & FLAG_C != 0)
}

} // verus!
