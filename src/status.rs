//! The processor status register `P`, held as separate flags.
use vstd::prelude::*;

verus! {

/// Mask of the break bit (bit 4) in the packed status byte.
pub const BREAK_BIT: u8 = 0x10;

/// Mask of the unused bit (bit 5), which always reads as one.
pub const UNUSED_BIT: u8 = 0x20;

/// The status flags, one boolean each: `N V - B D I Z C` from bit 7 down.
#[derive(Clone, Copy, Debug, PartialEq, Eq, Structural)]
pub struct RegP {
    pub carry: bool,
    pub zero: bool,
    pub int_disable: bool,
    pub decimal: bool,
    pub brk: bool,
    pub expansion: bool,
    pub overflow: bool,
    pub negative: bool,
}

/// The byte that has bit `b` set when `flag` holds, and no other bit.
pub open spec fn bit_if(flag: bool, b: u8) -> u8 {
    if flag { b } else { 0 }
}

/// The flags packed into one byte, each at its hardware bit position.
pub open spec fn pack(p: RegP) -> u8 {
    bit_if(p.negative, 0x80) | bit_if(p.overflow, 0x40) | bit_if(p.expansion, 0x20)
        | bit_if(p.brk, 0x10) | bit_if(p.decimal, 0x08) | bit_if(p.int_disable, 0x04)
        | bit_if(p.zero, 0x02) | bit_if(p.carry, 0x01)
}

/// The flags read back from a byte: the break bit is dropped and the unused
/// bit is set, whatever the byte holds there.
pub open spec fn unpack(v: u8) -> RegP {
    RegP {
        carry: v & 0x01 != 0,
        zero: v & 0x02 != 0,
        int_disable: v & 0x04 != 0,
        decimal: v & 0x08 != 0,
        brk: false,
        expansion: true,
        overflow: v & 0x40 != 0,
        negative: v & 0x80 != 0,
    }
}

impl RegP {
    /// The state of the register as a well-behaved processor keeps it: the
    /// unused bit set and the break bit clear.
    pub open spec fn wf(self) -> bool {
        self.expansion && !self.brk
    }

    /// The flags at power-on: only the interrupt-disable and unused bits set.
    pub fn power_on() -> (r: RegP)
        ensures
            r == (RegP {
                carry: false,
                zero: false,
                int_disable: true,
                decimal: false,
                brk: false,
                expansion: true,
                overflow: false,
                negative: false,
            }),
            r.wf(),
    {
        RegP {
            carry: false,
            zero: false,
            int_disable: true,
            decimal: false,
            brk: false,
            expansion: true,
            overflow: false,
            negative: false,
        }
    }

    /// Packs the flags into the status byte.
    pub fn to_byte(&self) -> (r: u8)
        ensures
            r == pack(*self),
    {
        let n: u8 = if self.negative { 0x80 } else { 0 };
        let v: u8 = if self.overflow { 0x40 } else { 0 };
        let u: u8 = if self.expansion { 0x20 } else { 0 };
        let b: u8 = if self.brk { 0x10 } else { 0 };
        let d: u8 = if self.decimal { 0x08 } else { 0 };
        let i: u8 = if self.int_disable { 0x04 } else { 0 };
        let z: u8 = if self.zero { 0x02 } else { 0 };
        let c: u8 = if self.carry { 0x01 } else { 0 };
        n | v | u | b | d | i | z | c
    }

    /// Reads the flags back from a status byte pulled off the stack.
    pub fn from_byte(value: u8) -> (r: RegP)
        ensures
            r == unpack(value),
            r.wf(),
    {
        RegP {
            carry: value & 0x01 != 0,
            zero: value & 0x02 != 0,
            int_disable: value & 0x04 != 0,
            decimal: value & 0x08 != 0,
            brk: false,
            expansion: true,
            overflow: value & 0x40 != 0,
            negative: value & 0x80 != 0,
        }
    }
}

/// Each bit of the packed byte is the flag that belongs there.
pub proof fn lemma_pack_bits(p: RegP)
    ensures
        (pack(p) & 0x01 != 0) == p.carry,
        (pack(p) & 0x02 != 0) == p.zero,
        (pack(p) & 0x04 != 0) == p.int_disable,
        (pack(p) & 0x08 != 0) == p.decimal,
        (pack(p) & 0x10 != 0) == p.brk,
        (pack(p) & 0x20 != 0) == p.expansion,
        (pack(p) & 0x40 != 0) == p.overflow,
        (pack(p) & 0x80 != 0) == p.negative,
{
    let (n, v, u, b, d, i, z, c) = (
        bit_if(p.negative, 0x80),
        bit_if(p.overflow, 0x40),
        bit_if(p.expansion, 0x20),
        bit_if(p.brk, 0x10),
        bit_if(p.decimal, 0x08),
        bit_if(p.int_disable, 0x04),
        bit_if(p.zero, 0x02),
        bit_if(p.carry, 0x01),
    );
    assert({
        let x = n | v | u | b | d | i | z | c;
        &&& (x & 0x01 != 0) == (c == 0x01)
        &&& (x & 0x02 != 0) == (z == 0x02)
        &&& (x & 0x04 != 0) == (i == 0x04)
        &&& (x & 0x08 != 0) == (d == 0x08)
        &&& (x & 0x10 != 0) == (b == 0x10)
        &&& (x & 0x20 != 0) == (u == 0x20)
        &&& (x & 0x40 != 0) == (v == 0x40)
        &&& (x & 0x80 != 0) == (n == 0x80)
    }) by (bit_vector)
        requires
            n == 0 || n == 0x80,
            v == 0 || v == 0x40,
            u == 0 || u == 0x20,
            b == 0 || b == 0x10,
            d == 0 || d == 0x08,
            i == 0 || i == 0x04,
            z == 0 || z == 0x02,
            c == 0 || c == 0x01,
    ;
}

} // verus!
