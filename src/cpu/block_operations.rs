//! Block transfer (LDI, LDD, LDIR, LDDR) and block search (CPI, CPD, CPIR,
//! CPDR). The repeating forms are plain loops over the single-step forms.
use vstd::prelude::*;

use super::flags::{bit3, is_set, pack, pack_flags, FLAG_C, FLAG_S, FLAG_Z};
use super::{add16, add8, bc, de, hi, hl, lemma_pair_split, lo, rd8, Cpu, CpuState};

verus! {

/// How many times a repeating block instruction runs for a starting BC:
/// BC itself, or 65536 when BC is zero.
pub open spec fn rep_count(n: u16) -> nat {
    if n == 0 {
        65536
    } else {
        n as nat
    }
}

/// The state after LDI (`step` = 1) or LDD (`step` = -1): the byte at (HL)
/// copied to (DE), both stepped, BC decremented; P/V tells whether BC is
/// still non-zero, Y and X come from A plus the byte copied.
pub open spec fn ld_block_spec(s: CpuState, step: int) -> CpuState {
    let v = rd8(s.mem, hl(s));
    let n = add8(s.a, v as int);
    let count = add16(bc(s), -1);
    let src = add16(hl(s), step);
    let dst = add16(de(s), step);
    CpuState {
        mem: s.mem.update(de(s) as int, v),
        f: pack_flags(
            is_set(s.f, FLAG_S),
            is_set(s.f, FLAG_Z),
            n & 0x02 != 0,
            false,
            bit3(n),
            count != 0,
            false,
            is_set(s.f, FLAG_C),
        ),
        h: hi(src),
        l: lo(src),
        d: hi(dst),
        e: lo(dst),
        b: hi(count),
        c: lo(count),
        ..s
    }
}

/// The state after CPI (`step` = 1) or CPD (`step` = -1): A compared with
/// (HL), HL stepped, BC decremented; the carry is kept.
pub open spec fn cp_block_spec(s: CpuState, step: int) -> CpuState {
    let v = rd8(s.mem, hl(s));
    let r = add8(s.a, -v);
    let count = add16(bc(s), -1);
    let src = add16(hl(s), step);
    CpuState {
        f: pack_flags(
            r >= 0x80,
            r == 0,
            r & 0x02 != 0,
            s.a % 16 < v % 16,
            bit3(r),
            count != 0,
            true,
            is_set(s.f, FLAG_C),
        ),
        h: hi(src),
        l: lo(src),
        b: hi(count),
        c: lo(count),
        ..s
    }
}

/// `n` transfers in a row.
pub open spec fn ld_repeat(s: CpuState, step: int, n: nat) -> CpuState
    decreases n,
{
    if n == 0 {
        s
    } else {
        ld_block_spec(ld_repeat(s, step, (n - 1) as nat), step)
    }
}

/// Comparisons in a row: at most `n`, stopping after the first match.
pub open spec fn cp_repeat(s: CpuState, step: int, n: nat) -> CpuState
    decreases n,
{
    let t = cp_block_spec(s, step);
    if n <= 1 || is_set(t.f, FLAG_Z) {
        t
    } else {
        cp_repeat(t, step, (n - 1) as nat)
    }
}

proof fn lemma_ld_block_count(s: CpuState, step: int)
    ensures
        bc(ld_block_spec(s, step)) == add16(bc(s), -1),
{
    lemma_pair_split(add16(bc(s), -1));
}

proof fn lemma_cp_block_count(s: CpuState, step: int)
    ensures
        bc(cp_block_spec(s, step)) == add16(bc(s), -1),
{
    lemma_pair_split(add16(bc(s), -1));
}

/// A repeated transfer started with BC = n runs n times (65536 when n is
/// zero) and leaves BC at zero with P/V clear.
pub proof fn lemma_ld_repeat_ends(s: CpuState, step: int)
    ensures
        bc(ld_repeat(s, step, rep_count(bc(s)))) == 0,
        !is_set(ld_repeat(s, step, rep_count(bc(s))).f, 0x04),
{
    let n = rep_count(bc(s));
    lemma_ld_repeat_count(s, step, n);
    let t = ld_repeat(s, step, (n - 1) as nat);
    lemma_ld_repeat_count(s, step, (n - 1) as nat);
    let v = rd8(t.mem, hl(t));
    let m = add8(t.a, v as int);
    super::flags::lemma_pack_flags(
        is_set(t.f, FLAG_S),
        is_set(t.f, FLAG_Z),
        m & 0x02 != 0,
        false,
        bit3(m),
        add16(bc(t), -1) != 0,
        false,
        is_set(t.f, FLAG_C),
    );
}

proof fn lemma_ld_repeat_count(s: CpuState, step: int, k: nat)
    requires
        k <= rep_count(bc(s)),
    ensures
        k >= 1 ==> bc(ld_repeat(s, step, k)) == rep_count(bc(s)) - k,
    decreases k,
{
    if k > 1 {
        lemma_ld_repeat_count(s, step, (k - 1) as nat);
        lemma_ld_block_count(ld_repeat(s, step, (k - 1) as nat), step);
    } else if k == 1 {
        assert(ld_repeat(s, step, 0) == s);
        lemma_ld_block_count(s, step);
    }
}

impl Cpu {
    #[verifier::rlimit(40)]
    fn ld_block(&mut self, up: bool)
        ensures
            final(self)@ == ld_block_spec(old(self)@, if up { 1 } else { -1 }),
    {
        let src = self.get_hl();
        let dst = self.get_de();
        let value = self.read_byte(src);
        let count = self.get_bc().wrapping_sub(1);
        let n = self.a.wrapping_add(value);
        let f = pack(
            self.f & FLAG_S != 0,
            self.f & FLAG_Z != 0,
            n & 0x02 != 0,
            false,
            n & 0x08 != 0,
            count != 0,
            false,
            self.f & FLAG_C != 0,
        );
        let (next_src, next_dst) = if up {
            (src.wrapping_add(1), dst.wrapping_add(1))
        } else {
            (src.wrapping_sub(1), dst.wrapping_sub(1))
        };
        self.write_byte(dst, value);
        self.f = f;
        self.h = (next_src / 256) as u8;
        self.l = (next_src % 256) as u8;
        self.d = (next_dst / 256) as u8;
        self.e = (next_dst % 256) as u8;
        self.b = (count / 256) as u8;
        self.c = (count % 256) as u8;
    }

    fn cp_block(&mut self, up: bool)
        ensures
            final(self)@ == cp_block_spec(old(self)@, if up { 1 } else { -1 }),
    {
        let src = self.get_hl();
        let value = self.read_byte(src);
        let r = self.a.wrapping_sub(value);
        let count = self.get_bc().wrapping_sub(1);
        let f = pack(
            r >= 0x80,
            r == 0,
            r & 0x02 != 0,
            self.a % 16 < value % 16,
            r & 0x08 != 0,
            count != 0,
            true,
            self.f & FLAG_C != 0,
        );
        let next_src = if up {
            src.wrapping_add(1)
        } else {
            src.wrapping_sub(1)
        };
        self.f = f;
        self.h = (next_src / 256) as u8;
        self.l = (next_src % 256) as u8;
        self.b = (count / 256) as u8;
        self.c = (count % 256) as u8;
    }

    fn ld_repeated(&mut self, up: bool)
        ensures
            final(self)@ == ld_repeat(old(self)@, if up { 1 } else { -1 }, rep_count(bc(old(self)@))),
    {
        let ghost s0 = self@;
        let ghost step: int = if up { 1 } else { -1 };
        let ghost n0 = rep_count(bc(s0));
        proof {
            lemma_ld_block_count(self@, step);
        }
        self.ld_block(up);
        assert(ld_repeat(s0, step, 0) == s0);
        let ghost mut k: nat = 1;
        while self.get_bc() != 0
            invariant
                1 <= k <= n0,
                n0 == rep_count(bc(s0)),
                self@ == ld_repeat(s0, step, k),
                bc(self@) == n0 - k,
                step == (if up { 1int } else { -1 }),
            decreases bc(self@),
        {
            proof {
                lemma_ld_block_count(self@, step);
            }
            self.ld_block(up);
            proof {
                k = k + 1;
            }
        }
    }

    fn cp_repeated(&mut self, up: bool)
        ensures
            final(self)@ == cp_repeat(old(self)@, if up { 1 } else { -1 }, rep_count(bc(old(self)@))),
    {
        let ghost s0 = self@;
        let ghost step: int = if up { 1 } else { -1 };
        let ghost n0 = rep_count(bc(s0));
        proof {
            lemma_cp_block_count(self@, step);
        }
        self.cp_block(up);
        let ghost mut k: nat = 1;
        while self.get_bc() != 0 && self.f & FLAG_Z == 0
            invariant
                1 <= k <= n0,
                n0 == rep_count(bc(s0)),
                bc(self@) == n0 - k,
                cp_repeat(s0, step, n0) == (if k >= n0 || is_set(self.f, FLAG_Z) {
                    self@
                } else {
                    cp_repeat(self@, step, (n0 - k) as nat)
                }),
                step == (if up { 1int } else { -1 }),
            decreases bc(self@),
        {
            proof {
                lemma_cp_block_count(self@, step);
            }
            self.cp_block(up);
            proof {
                k = k + 1;
            }
        }
    }

    /// LDI.
    pub fn ldi(&mut self)
        ensures
            final(self)@ == ld_block_spec(old(self)@, 1),
    {
        self.ld_block(true);
    }

    /// LDD.
    pub fn ldd(&mut self)
        ensures
            final(self)@ == ld_block_spec(old(self)@, -1),
    {
        self.ld_block(false);
    }

    /// LDIR: LDI repeated until BC reaches zero.
    pub fn ldir(&mut self)
        ensures
            final(self)@ == ld_repeat(old(self)@, 1, rep_count(bc(old(self)@))),
    {
        self.ld_repeated(true);
    }

    /// LDDR: LDD repeated until BC reaches zero.
    pub fn lddr(&mut self)
        ensures
            final(self)@ == ld_repeat(old(self)@, -1, rep_count(bc(old(self)@))),
    {
        self.ld_repeated(false);
    }

    /// CPI.
    pub fn cpi(&mut self)
        ensures
            final(self)@ == cp_block_spec(old(self)@, 1),
    {
        self.cp_block(true);
    }

    /// CPD.
    pub fn cpd(&mut self)
        ensures
            final(self)@ == cp_block_spec(old(self)@, -1),
    {
        self.cp_block(false);
    }

    /// CPIR: CPI repeated until a match or until BC reaches zero.
    pub fn cpir(&mut self)
        ensures
            final(self)@ == cp_repeat(old(self)@, 1, rep_count(bc(old(self)@))),
    {
        self.cp_repeated(true);
    }

    /// CPDR: CPD repeated until a match or until BC reaches zero.
    pub fn cpdr(&mut self)
        ensures
            final(self)@ == cp_repeat(old(self)@, -1, rep_count(bc(old(self)@))),
    {
        self.cp_repeated(false);
    }
}

} // verus!
