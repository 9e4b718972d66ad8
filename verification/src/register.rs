//! The register file: eight 8-bit general registers, the 4-bit flag set held
//! in the high nibble of `f`, and the two 16-bit pointers `sp` and `pc`.

use vstd::prelude::*;

use crate::bitmath::{high_byte, lemma_word_parts, low_byte, word};

verus! {

/// One of the four condition flags: Zero, Subtract, Half-carry, Carry.
#[derive(Clone, Copy, PartialEq, Eq, Structural, Debug)]
pub enum Flag {
    Z,
    N,
    H,
    C,
}

impl Flag {
    /// The bit this flag occupies in the flag register.
    pub open spec fn spec_mask(self) -> u8 {
        match self {
            Flag::Z => 0x80,
            Flag::N => 0x40,
            Flag::H => 0x20,
            Flag::C => 0x10,
        }
    }

    pub fn mask(self) -> (m: u8)
        ensures
            m == self.spec_mask(),
    {
        match self {
            Flag::Z => 0x80,
            Flag::N => 0x40,
            Flag::H => 0x20,
            Flag::C => 0x10,
        }
    }
}

/// The flag register. Only the high nibble carries flag bits; the low nibble
/// always reads as zero.
#[derive(Clone, Copy, PartialEq, Eq, Structural, Debug)]
pub struct Flags {
    pub bits: u8,
}

impl Flags {
    /// The low nibble of the flag register is always zero.
    pub open spec fn wf(self) -> bool {
        self.bits & 0x0f == 0
    }

    pub open spec fn spec_contains(self, f: Flag) -> bool {
        self.bits & f.spec_mask() != 0
    }

    pub open spec fn spec_assign(self, f: Flag, v: bool) -> Flags {
        if v {
            Flags { bits: self.bits | f.spec_mask() }
        } else {
            Flags { bits: self.bits & !f.spec_mask() }
        }
    }

    /// Shorthands for the four flags, for use in contracts.
    pub open spec fn z(self) -> bool {
        self.spec_contains(Flag::Z)
    }

    pub open spec fn n(self) -> bool {
        self.spec_contains(Flag::N)
    }

    pub open spec fn h(self) -> bool {
        self.spec_contains(Flag::H)
    }

    pub open spec fn c(self) -> bool {
        self.spec_contains(Flag::C)
    }

    /// The flag set with the given four flag values, as contracts describe it.
    pub open spec fn flag_bits(z: bool, n: bool, h: bool, c: bool) -> Flags {
        Flags {
            bits: ((if z { 0x80u8 } else { 0u8 }) | (if n { 0x40u8 } else { 0u8 })
                | (if h { 0x20u8 } else { 0u8 }) | (if c { 0x10u8 } else { 0u8 })) as u8,
        }
    }

    pub fn empty() -> (r: Flags)
        ensures
            r.bits == 0,
            r.wf(),
    {
        proof {
            lemma_flag_nibble();
        }
        Flags { bits: 0 }
    }

    /// Keeps the four flag bits of `v` and drops the rest.
    pub fn from_bits_truncate(v: u8) -> (r: Flags)
        ensures
            r.bits == v & 0xf0,
            r.wf(),
    {
        proof {
            lemma_flag_nibble();
        }
        Flags { bits: v & 0xf0 }
    }

    pub fn contains(&self, f: Flag) -> (r: bool)
        ensures
            r == self.spec_contains(f),
    {
        self.bits & f.mask() != 0
    }

    pub fn assign(&mut self, f: Flag, v: bool)
        ensures
            *final(self) == old(self).spec_assign(f, v),
            old(self).wf() ==> final(self).wf(),
    {
        proof {
            lemma_flag_nibble();
        }
        if v {
            self.bits = self.bits | f.mask();
        } else {
            self.bits = self.bits & !f.mask();
        }
    }
}

/// Setting or clearing a flag bit never touches the low nibble, and a value
/// masked to the high nibble has a zero low nibble.
proof fn lemma_flag_nibble()
    by (bit_vector)
    ensures
        forall|b: u8, m: u8|
            b & 0x0f == 0 && (m == 0x80 || m == 0x40 || m == 0x20 || m == 0x10) ==> (#[trigger] (b
                | m)) & 0x0f == 0,
        forall|b: u8, m: u8|
            b & 0x0f == 0 && (m == 0x80 || m == 0x40 || m == 0x20 || m == 0x10) ==> (#[trigger] (b
                & !m)) & 0x0f == 0,
        forall|v: u8| (#[trigger] (v & 0xf0)) & 0x0f == 0,
        0u8 & 0x0f == 0,
{
}

/// A 16-bit register pair. The high byte is the first-named register; AF's
/// low byte is the flag bits.
#[derive(Clone, Copy, PartialEq, Eq, Structural, Debug)]
pub enum Register16 {
    AF,
    BC,
    DE,
    HL,
}

/// The register file.
#[derive(Clone, Copy, PartialEq, Eq, Structural, Debug)]
pub struct Register {
    pub a: u8,
    pub f: Flags,
    pub b: u8,
    pub c: u8,
    pub d: u8,
    pub e: u8,
    pub h: u8,
    pub l: u8,
    pub sp: u16,
    pub pc: u16,
}

impl Register {
    pub open spec fn wf(self) -> bool {
        self.f.wf()
    }

    pub open spec fn spec_read_word(self, reg: Register16) -> u16 {
        match reg {
            Register16::AF => word(self.a, self.f.bits),
            Register16::BC => word(self.b, self.c),
            Register16::DE => word(self.d, self.e),
            Register16::HL => word(self.h, self.l),
        }
    }

    /// The register file after writing `v` to the pair `reg`. A write to AF
    /// masks the flag nibble's low bits to zero.
    pub open spec fn spec_write_word(self, reg: Register16, v: u16) -> Register {
        match reg {
            Register16::AF => Register {
                a: high_byte(v),
                f: Flags { bits: low_byte(v) & 0xf0 },
                ..self
            },
            Register16::BC => Register { b: high_byte(v), c: low_byte(v), ..self },
            Register16::DE => Register { d: high_byte(v), e: low_byte(v), ..self },
            Register16::HL => Register { h: high_byte(v), l: low_byte(v), ..self },
        }
    }

    pub fn new() -> (r: Register)
        ensures
            r == (Register {
                a: 0u8,
                f: Flags { bits: 0u8 },
                b: 0u8,
                c: 0u8,
                d: 0u8,
                e: 0u8,
                h: 0u8,
                l: 0u8,
                sp: 0u16,
                pc: 0u16,
            }),
            r.wf(),
    {
        Register {
            a: 0x00,
            f: Flags::empty(),
            b: 0x00,
            c: 0x00,
            d: 0x00,
            e: 0x00,
            h: 0x00,
            l: 0x00,
            sp: 0x0000,
            pc: 0x0000,
        }
    }

    pub fn read_word(&self, reg: Register16) -> (r: u16)
        ensures
            r == self.spec_read_word(reg),
    {
        proof {
            lemma_word_parts();
        }
        match reg {
            Register16::AF => (self.a as u16) << 8 | self.f.bits as u16,
            Register16::BC => (self.b as u16) << 8 | self.c as u16,
            Register16::DE => (self.d as u16) << 8 | self.e as u16,
            Register16::HL => (self.h as u16) << 8 | self.l as u16,
        }
    }

    pub fn write_word(&mut self, reg: Register16, v: u16)
        ensures
            *final(self) == old(self).spec_write_word(reg, v),
            old(self).wf() ==> final(self).wf(),
    {
        proof {
            lemma_word_parts();
            lemma_flag_nibble();
        }
        match reg {
            Register16::AF => {
                self.a = (v >> 8) as u8;
                self.f = Flags::from_bits_truncate(v as u8);
            },
            Register16::BC => {
                self.b = (v >> 8) as u8;
                self.c = v as u8;
            },
            Register16::DE => {
                self.d = (v >> 8) as u8;
                self.e = v as u8;
            },
            Register16::HL => {
                self.h = (v >> 8) as u8;
                self.l = v as u8;
            },
        }
    }

    pub fn get_flag(&self, f: Flag) -> (r: bool)
        ensures
            r == self.f.spec_contains(f),
    {
        self.f.contains(f)
    }

    pub fn set_flag(&mut self, f: Flag, v: bool)
        ensures
            *final(self) == (Register { f: old(self).f.spec_assign(f, v), ..*old(self) }),
            old(self).wf() ==> final(self).wf(),
    {
        self.f.assign(f, v);
    }
}


/// Each field of a composed flag byte reads back exactly.
proof fn lemma_flag_or_fields()
    by (bit_vector)
    ensures
        forall|zb: u8, nb: u8, hb: u8, cb: u8|
            (zb == 0 || zb == 0x80) && (nb == 0 || nb == 0x40) && (hb == 0 || hb == 0x20) && (cb
                == 0 || cb == 0x10) ==> (#[trigger] (((zb | nb) | hb) | cb)) & 0x80 == zb && (((zb
                | nb) | hb) | cb) & 0x40 == nb && (((zb | nb) | hb) | cb) & 0x20 == hb && (((zb
                | nb) | hb) | cb) & 0x10 == cb && (((zb | nb) | hb) | cb) & 0x0f == 0,
{
}

/// The flag set composed from four flag values reads back each flag
/// exactly, and is well formed.
pub proof fn lemma_flag_bits_props(z: bool, n: bool, h: bool, c: bool)
    ensures
        Flags::flag_bits(z, n, h, c).z() == z,
        Flags::flag_bits(z, n, h, c).n() == n,
        Flags::flag_bits(z, n, h, c).h() == h,
        Flags::flag_bits(z, n, h, c).c() == c,
        Flags::flag_bits(z, n, h, c).wf(),
{
    lemma_flag_or_fields();
    let zb: u8 = if z {
        0x80u8
    } else {
        0u8
    };
    let nb: u8 = if n {
        0x40u8
    } else {
        0u8
    };
    let hb: u8 = if h {
        0x20u8
    } else {
        0u8
    };
    let cb: u8 = if c {
        0x10u8
    } else {
        0u8
    };
    assert(Flags::flag_bits(z, n, h, c).bits == ((zb | nb) | hb) | cb);
}

} // verus!
