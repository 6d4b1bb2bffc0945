//! Flag bit positions, the packed F register and the structured flag view.
use vstd::prelude::*;

verus! {

/// Carry.
pub const FLAG_C: u8 = 0x01;
/// Add/subtract.
pub const FLAG_N: u8 = 0x02;
/// Parity/overflow.
pub const FLAG_PV: u8 = 0x04;
/// Undocumented copy of bit 3.
pub const FLAG_X: u8 = 0x08;
/// Half carry.
pub const FLAG_H: u8 = 0x10;
/// Undocumented copy of bit 5.
pub const FLAG_Y: u8 = 0x20;
/// Zero.
pub const FLAG_Z: u8 = 0x40;
/// Sign.
pub const FLAG_S: u8 = 0x80;

/// `mask` when `on`, else zero.
pub open spec fn flag_bit(on: bool, mask: u8) -> u8 {
    if on {
        mask
    } else {
        0
    }
}

/// The F register byte holding the given flag values.
pub open spec fn pack_flags(
    s: bool,
    z: bool,
    y: bool,
    h: bool,
    x: bool,
    pv: bool,
    n: bool,
    c: bool,
) -> u8 {
    flag_bit(s, FLAG_S) | flag_bit(z, FLAG_Z) | flag_bit(y, FLAG_Y) | flag_bit(h, FLAG_H) | flag_bit(
        x,
        FLAG_X,
    ) | flag_bit(pv, FLAG_PV) | flag_bit(n, FLAG_N) | flag_bit(c, FLAG_C)
}

/// Whether any bit of `mask` is set in `f`.
pub open spec fn is_set(f: u8, mask: u8) -> bool {
    f & mask != 0
}

/// Bit 5 of a value, which the undocumented Y flag copies.
pub open spec fn bit5(v: u8) -> bool {
    v & 0x20 != 0
}

/// Bit 3 of a value, which the undocumented X flag copies.
pub open spec fn bit3(v: u8) -> bool {
    v & 0x08 != 0
}

/// Number of one bits in a byte.
pub open spec fn popcount(v: u8) -> int {
    v % 2 + (v / 2) % 2 + (v / 4) % 2 + (v / 8) % 2 + (v / 16) % 2 + (v / 32) % 2 + (v / 64) % 2 + (v
        / 128) % 2
}

/// Even parity: an even number of one bits.
pub open spec fn parity(v: u8) -> bool {
    popcount(v) % 2 == 0
}

/// The usual result flags of a logic, rotate or input operation: S, Z, Y, X
/// and P/V from the result, H, N and C as given.
pub open spec fn result_flags(r: u8, h: bool, n: bool, c: bool) -> u8 {
    pack_flags(r >= 0x80, r == 0, bit5(r), h, bit3(r), parity(r), n, c)
}

/// Each flag can be read back out of a packed F byte.
pub proof fn lemma_pack_flags(s: bool, z: bool, y: bool, h: bool, x: bool, pv: bool, n: bool, c: bool)
    by (bit_vector)
    ensures
        is_set(pack_flags(s, z, y, h, x, pv, n, c), FLAG_S) == s,
        is_set(pack_flags(s, z, y, h, x, pv, n, c), FLAG_Z) == z,
        is_set(pack_flags(s, z, y, h, x, pv, n, c), FLAG_Y) == y,
        is_set(pack_flags(s, z, y, h, x, pv, n, c), FLAG_H) == h,
        is_set(pack_flags(s, z, y, h, x, pv, n, c), FLAG_X) == x,
        is_set(pack_flags(s, z, y, h, x, pv, n, c), FLAG_PV) == pv,
        is_set(pack_flags(s, z, y, h, x, pv, n, c), FLAG_N) == n,
        is_set(pack_flags(s, z, y, h, x, pv, n, c), FLAG_C) == c,
{
}

pub fn flag_byte(on: bool, mask: u8) -> (r: u8)
    ensures
        r == flag_bit(on, mask),
{
    if on {
        mask
    } else {
        0
    }
}

/// Packs flag values into an F byte.
pub fn pack(s: bool, z: bool, y: bool, h: bool, x: bool, pv: bool, n: bool, c: bool) -> (r: u8)
    ensures
        r == pack_flags(s, z, y, h, x, pv, n, c),
{
    flag_byte(s, FLAG_S) | flag_byte(z, FLAG_Z) | flag_byte(y, FLAG_Y) | flag_byte(h, FLAG_H)
        | flag_byte(x, FLAG_X) | flag_byte(pv, FLAG_PV) | flag_byte(n, FLAG_N) | flag_byte(c, FLAG_C)
}

/// Even parity of a byte, by counting its one bits.
pub fn even_parity(v: u8) -> (r: bool)
    ensures
        r == parity(v),
{
    let count: u8 = v % 2 + (v / 2) % 2 + (v / 4) % 2 + (v / 8) % 2 + (v / 16) % 2 + (v / 32) % 2 + (
    v / 64) % 2 + (v / 128) % 2;
    count % 2 == 0
}

/// Flags computed from a result byte (see `result_flags`).
pub fn make_result_flags(r: u8, h: bool, n: bool, c: bool) -> (f: u8)
    ensures
        f == result_flags(r, h, n, c),
{
    pack(r >= 0x80, r == 0, r & 0x20 != 0, h, r & 0x08 != 0, even_parity(r), n, c)
}

/// The six architectural flags and the two undocumented bits as separate
/// values.
#[derive(Debug, Clone, Copy, PartialEq, Eq)]
pub struct Flags {
    /// S: bit 7, the result is negative.
    pub sign: bool,
    /// Z: bit 6, the result is zero.
    pub zero: bool,
    /// Y: bit 5, undocumented copy of bit 5 of a result or operand.
    pub y: bool,
    /// H: bit 4, carry from bit 3 into bit 4.
    pub half_carry: bool,
    /// X: bit 3, undocumented copy of bit 3 of a result or operand.
    pub x: bool,
    /// P/V: bit 2, parity or overflow.
    pub parity: bool,
    /// N: bit 1, the last operation was a subtraction.
    pub add_subtract: bool,
    /// C: bit 0, carry out of the top bit.
    pub carry: bool,
}

/// The structured view of an F byte.
pub open spec fn flags_of(f: u8) -> Flags {
    Flags {
        sign: is_set(f, FLAG_S),
        zero: is_set(f, FLAG_Z),
        y: is_set(f, FLAG_Y),
        half_carry: is_set(f, FLAG_H),
        x: is_set(f, FLAG_X),
        parity: is_set(f, FLAG_PV),
        add_subtract: is_set(f, FLAG_N),
        carry: is_set(f, FLAG_C),
    }
}

/// The F byte for a structured flag value.
pub open spec fn packed(fl: Flags) -> u8 {
    pack_flags(fl.sign, fl.zero, fl.y, fl.half_carry, fl.x, fl.parity, fl.add_subtract, fl.carry)
}

/// Unpacking an F byte and packing it again gives the byte back.
pub proof fn lemma_flags_round_trip(f: u8)
    by (bit_vector)
    ensures
        pack_flags(
            is_set(f, FLAG_S),
            is_set(f, FLAG_Z),
            is_set(f, FLAG_Y),
            is_set(f, FLAG_H),
            is_set(f, FLAG_X),
            is_set(f, FLAG_PV),
            is_set(f, FLAG_N),
            is_set(f, FLAG_C),
        ) == f,
{
}

/// Every flag clear.
pub open spec fn all_clear() -> Flags {
    Flags {
        sign: false,
        zero: false,
        y: false,
        half_carry: false,
        x: false,
        parity: false,
        add_subtract: false,
        carry: false,
    }
}

impl Default for Flags {
    fn default() -> (r: Flags)
        ensures
            r == all_clear(),
    {
        Flags {
            sign: false,
            zero: false,
            y: false,
            half_carry: false,
            x: false,
            parity: false,
            add_subtract: false,
            carry: false,
        }
    }
}

impl Flags {
    /// All flags clear.
    pub fn new() -> (r: Flags)
        ensures
            r == all_clear(),
    {
        Flags::default()
    }

    /// The F byte holding these flags.
    pub fn to_byte(&self) -> (r: u8)
        ensures
            r == packed(*self),
            flags_of(r) == *self,
    {
        proof {
            lemma_pack_flags(
                self.sign,
                self.zero,
                self.y,
                self.half_carry,
                self.x,
                self.parity,
                self.add_subtract,
                self.carry,
            );
        }
        pack(
            self.sign,
            self.zero,
            self.y,
            self.half_carry,
            self.x,
            self.parity,
            self.add_subtract,
            self.carry,
        )
    }

    /// Sets every flag from the bits of an F byte.
    pub fn from_byte(&mut self, byte: u8)
        ensures
            *final(self) == flags_of(byte),
            packed(*final(self)) == byte,
    {
        proof {
            lemma_flags_round_trip(byte);
        }
        self.sign = (byte & FLAG_S) != 0;
        self.zero = (byte & FLAG_Z) != 0;
        self.y = (byte & FLAG_Y) != 0;
        self.half_carry = (byte & FLAG_H) != 0;
        self.x = (byte & FLAG_X) != 0;
        self.parity = (byte & FLAG_PV) != 0;
        self.add_subtract = (byte & FLAG_N) != 0;
        self.carry = (byte & FLAG_C) != 0;
    }
}

} // verus!
