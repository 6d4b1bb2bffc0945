//! Port input and output. Ports are a fixed window of memory: port `p` is
//! the byte at address 0xFF00 + p. This stands in for the separate port
//! space of the real part, which the core does not model.
use vstd::prelude::*;

use super::flags::{even_parity, is_set, pack, pack_flags, parity, FLAG_C, FLAG_S, FLAG_X, FLAG_Y};
use super::registers::{reg, with_reg, Register};
use super::{add16, add8, hl, lo, rd8, with_hl, Cpu, CpuState};

verus! {

/// The memory address that stands for port `p`.
pub open spec fn port_addr(p: u8) -> u16 {
    (0xFF00 + p) as u16
}

/// Flags of IN r,(C): S, Z and parity from the byte, H and N clear, the rest kept.
pub open spec fn in_flags(v: u8, f: u8) -> u8 {
    pack_flags(v >= 0x80, v == 0, is_set(f, FLAG_Y), false, is_set(f, FLAG_X), parity(v), false, is_set(f, FLAG_C))
}

/// The state after INI (`step` = 1) or IND (`step` = -1): the byte at port C
/// stored at (HL), HL stepped, B decremented.
pub open spec fn in_block_spec(s: CpuState, step: int) -> CpuState {
    let v = rd8(s.mem, port_addr(s.c));
    let b = add8(s.b, -1);
    let carry = v + lo(hl(s)) > 255;
    with_hl(
        CpuState {
            mem: s.mem.update(hl(s) as int, v),
            b: b,
            f: pack_flags(v >= 0x80, b == 0, is_set(s.f, FLAG_Y), carry, is_set(s.f, FLAG_X), b != 0, true, carry),
            ..s
        },
        add16(hl(s), step),
    )
}

/// The state after OUTI (`step` = 1) or OUTD (`step` = -1): the byte at (HL)
/// sent to port C, HL stepped, B decremented.
pub open spec fn out_block_spec(s: CpuState, step: int) -> CpuState {
    let v = rd8(s.mem, hl(s));
    let b = add8(s.b, -1);
    let carry = lo(hl(s)) + v > 255;
    with_hl(
        CpuState {
            mem: s.mem.update(port_addr(s.c) as int, v),
            b: b,
            f: pack_flags(is_set(s.f, FLAG_S), b == 0, is_set(s.f, FLAG_Y), carry, is_set(s.f, FLAG_X), b != 0x7F, true, carry),
            ..s
        },
        add16(hl(s), step),
    )
}

/// INIR or INDR after `n` rounds, each a single transfer followed by a step
/// of C in the same direction as HL.
pub open spec fn in_repeat(s: CpuState, step: int, n: nat) -> CpuState
    decreases n,
{
    if n == 0 {
        s
    } else {
        let t = in_block_spec(in_repeat(s, step, (n - 1) as nat), step);
        CpuState { c: add8(t.c, step), ..t }
    }
}

/// OTIR or OTDR after `n` rounds.
pub open spec fn out_repeat(s: CpuState, step: int, n: nat) -> CpuState
    decreases n,
{
    if n == 0 {
        s
    } else {
        out_block_spec(out_repeat(s, step, (n - 1) as nat), step)
    }
}

impl Cpu {
    /// IN A,(n), with the port number taken from the byte at PC.
    pub fn in_a_n(&mut self)
        ensures
            ({
                let s = old(self)@;
                let v = rd8(s.mem, port_addr(rd8(s.mem, s.pc)));
                final(self)@ == (CpuState { a: v, f: in_flags(v, s.f), pc: add16(s.pc, 1), ..s })
            }),
    {
        let port = self.fetch_byte();
        self.in_r_c(Register::A, port);
    }

    /// IN reg,(port): reads a port into a register and sets the flags from it.
    pub fn in_r_c(&mut self, reg: Register, port: u8) -> (r: u8)
        ensures
            r == rd8(old(self)@.mem, port_addr(port)),
            final(self)@ == (CpuState { f: in_flags(r, old(self).f), ..with_reg(old(self)@, reg, r) }),
    {
        let value = self.read_byte(0xFF00 + port as u16);
        let f = pack(
            value >= 0x80,
            value == 0,
            self.f & FLAG_Y != 0,
            false,
            self.f & FLAG_X != 0,
            even_parity(value),
            false,
            self.f & FLAG_C != 0,
        );
        self.write_register(reg, value);
        self.f = f;
        value
    }

    /// OUT (n),A, with the port number taken from the byte at PC.
    pub fn out_n_a(&mut self)
        ensures
            ({
                let s = old(self)@;
                final(self)@ == (CpuState {
                    mem: s.mem.update(port_addr(rd8(s.mem, s.pc)) as int, s.a),
                    pc: add16(s.pc, 1),
                    ..s
                })
            }),
    {
        let port = self.fetch_byte();
        self.out_c_r(port, Register::A);
    }

    /// OUT (port),reg.
    pub fn out_c_r(&mut self, port: u8, reg: Register)
        ensures
            final(self)@ == (CpuState {
                mem: old(self)@.mem.update(port_addr(port) as int, self::reg(old(self)@, reg)),
                ..old(self)@
            }),
    {
        let value = self.read_register(reg);
        self.write_byte(0xFF00 + port as u16, value);
    }

    fn in_block(&mut self, up: bool)
        ensures
            final(self)@ == in_block_spec(old(self)@, if up { 1 } else { -1 }),
    {
        let address = self.get_hl();
        let value = self.read_byte(0xFF00 + self.c as u16);
        let next = if up {
            address.wrapping_add(1)
        } else {
            address.wrapping_sub(1)
        };
        let b = self.b.wrapping_sub(1);
        let carry = (address % 256) as u16 + value as u16 > 255;
        let f = pack(
            value >= 0x80,
            b == 0,
            self.f & FLAG_Y != 0,
            carry,
            self.f & FLAG_X != 0,
            b != 0,
            true,
            carry,
        );
        self.write_byte(address, value);
        self.h = (next / 256) as u8;
        self.l = (next % 256) as u8;
        self.b = b;
        self.f = f;
    }

    fn out_block(&mut self, up: bool)
        ensures
            final(self)@ == out_block_spec(old(self)@, if up { 1 } else { -1 }),
    {
        let address = self.get_hl();
        let value = self.read_byte(address);
        let next = if up {
            address.wrapping_add(1)
        } else {
            address.wrapping_sub(1)
        };
        let b = self.b.wrapping_sub(1);
        let carry = (address % 256) as u16 + value as u16 > 255;
        let f = pack(
            self.f & FLAG_S != 0,
            b == 0,
            self.f & FLAG_Y != 0,
            carry,
            self.f & FLAG_X != 0,
            b != 0x7F,
            true,
            carry,
        );
        self.write_byte(0xFF00 + self.c as u16, value);
        self.h = (next / 256) as u8;
        self.l = (next % 256) as u8;
        self.b = b;
        self.f = f;
    }

    /// INI.
    pub fn ini(&mut self)
        ensures
            final(self)@ == in_block_spec(old(self)@, 1),
    {
        self.in_block(true);
    }

    /// IND.
    pub fn ind(&mut self)
        ensures
            final(self)@ == in_block_spec(old(self)@, -1),
    {
        self.in_block(false);
    }

    /// OUTI.
    pub fn outi(&mut self)
        ensures
            final(self)@ == out_block_spec(old(self)@, 1),
    {
        self.out_block(true);
    }

    /// OUTD.
    pub fn outd(&mut self)
        ensures
            final(self)@ == out_block_spec(old(self)@, -1),
    {
        self.out_block(false);
    }

    fn in_repeated(&mut self, up: bool)
        ensures
            final(self)@ == in_repeat(old(self)@, if up { 1 } else { -1 }, old(self).b as nat),
    {
        let ghost s0 = self@;
        let ghost step: int = if up { 1 } else { -1 };
        let ghost mut k: nat = 0;
        while self.b != 0
            invariant
                k <= s0.b,
                self.b == s0.b - k,
                self@ == in_repeat(s0, step, k),
                step == (if up { 1int } else { -1 }),
            decreases self.b,
        {
            let ghost prev = self@;
            self.in_block(up);
            let ghost mid = self@;
            assert(mid == in_block_spec(prev, step));
            self.c = if up {
                self.c.wrapping_add(1)
            } else {
                self.c.wrapping_sub(1)
            };
            assert(self@ == (CpuState { c: add8(mid.c, step), ..mid }));
            proof {
                k = k + 1;
            }
        }
    }

    fn out_repeated(&mut self, up: bool)
        ensures
            final(self)@ == out_repeat(old(self)@, if up { 1 } else { -1 }, old(self).b as nat),
    {
        let ghost s0 = self@;
        let ghost step: int = if up { 1 } else { -1 };
        let ghost mut k: nat = 0;
        while self.b != 0
            invariant
                k <= s0.b,
                self.b == s0.b - k,
                self@ == out_repeat(s0, step, k),
                step == (if up { 1int } else { -1 }),
            decreases self.b,
        {
            self.out_block(up);
            proof {
                k = k + 1;
            }
        }
    }

    /// INIR: INI repeated until B reaches zero, C stepping up with HL.
    pub fn inir(&mut self)
        ensures
            final(self)@ == in_repeat(old(self)@, 1, old(self).b as nat),
    {
        self.in_repeated(true);
    }

    /// INDR: IND repeated until B reaches zero, C stepping down with HL.
    pub fn indr(&mut self)
        ensures
            final(self)@ == in_repeat(old(self)@, -1, old(self).b as nat),
    {
        self.in_repeated(false);
    }

    /// OTIR: OUTI repeated until B reaches zero.
    pub fn otir(&mut self)
        ensures
            final(self)@ == out_repeat(old(self)@, 1, old(self).b as nat),
    {
        self.out_repeated(true);
    }

    /// OTDR: OUTD repeated until B reaches zero; P/V ends clear.
    pub fn otdr(&mut self)
        ensures
            final(self)@ == (CpuState {
                f: out_repeat(old(self)@, -1, old(self).b as nat).f & !0x04u8,
                ..out_repeat(old(self)@, -1, old(self).b as nat)
            }),
    {
        self.out_repeated(false);
        self.f = self.f & !0x04u8;
    }
}

} // verus!
