//! The register file: eight 8-bit registers plus the flags register, with
//! the derived 16-bit register pairs AF, BC, DE and HL.

use vstd::prelude::*;

verus! {

/// The four condition flags. In the byte-level encoding, zero sits at bit 7,
/// subtract at bit 6, half-carry at bit 5 and carry at bit 4; the low nibble
/// of the flags byte is always zero.
#[derive(Clone, Copy, PartialEq, Eq, Structural, Debug)]
pub struct FlagsRegister {
    pub zero: bool,
    pub subtract: bool,
    pub half_carry: bool,
    pub carry: bool,
}

/// The byte encoding of the flags: one fixed bit per flag, low nibble zero.
pub open spec fn spec_flags_to_byte(f: FlagsRegister) -> u8 {
    ((if f.zero {
        128int
    } else {
        0int
    }) + (if f.subtract {
        64int
    } else {
        0int
    }) + (if f.half_carry {
        32int
    } else {
        0int
    }) + (if f.carry {
        16int
    } else {
        0int
    })) as u8
}

/// Decoding a byte back into the four flags reads the four fixed bits and
/// ignores the low nibble.
pub open spec fn spec_byte_to_flags(b: u8) -> FlagsRegister {
    FlagsRegister {
        zero: (b / 128) % 2 == 1,
        subtract: (b / 64) % 2 == 1,
        half_carry: (b / 32) % 2 == 1,
        carry: (b / 16) % 2 == 1,
    }
}

impl FlagsRegister {
    /// All flags clear at power-on.
    pub fn new() -> (r: FlagsRegister)
        ensures
            r == (FlagsRegister { zero: false, subtract: false, half_carry: false, carry: false }),
    {
        FlagsRegister { zero: false, subtract: false, half_carry: false, carry: false }
    }

    /// Packs the four flags into their byte encoding.
    pub fn to_byte(&self) -> (b: u8)
        ensures
            b == spec_flags_to_byte(*self),
    {
        (if self.zero {
            128
        } else {
            0
        }) + (if self.subtract {
            64
        } else {
            0
        }) + (if self.half_carry {
            32
        } else {
            0
        }) + (if self.carry {
            16
        } else {
            0
        })
    }

    /// Reads the four flags out of a byte.
    pub fn from_byte(b: u8) -> (r: FlagsRegister)
        ensures
            r == spec_byte_to_flags(b),
    {
        FlagsRegister {
            zero: (b / 128) % 2 == 1,
            subtract: (b / 64) % 2 == 1,
            half_carry: (b / 32) % 2 == 1,
            carry: (b / 16) % 2 == 1,
        }
    }
}

/// Encoding the flags and decoding the byte again restores the flags exactly.
pub proof fn lemma_flags_roundtrip(f: FlagsRegister)
    ensures
        spec_byte_to_flags(spec_flags_to_byte(f)) == f,
{
}

/// The flags byte carries nothing in its low nibble.
pub proof fn lemma_flags_byte_low_nibble_zero(f: FlagsRegister)
    ensures
        spec_flags_to_byte(f) % 16 == 0,
{
}

/// Decoding a byte and re-encoding keeps exactly the four flag bits: the
/// result is the byte with its low nibble cleared.
pub proof fn lemma_byte_flags_roundtrip(b: u8)
    ensures
        spec_flags_to_byte(spec_byte_to_flags(b)) == (b / 16) * 16,
{
    assert(spec_flags_to_byte(spec_byte_to_flags(b)) == (b / 16) * 16) by (bit_vector);
}

/// The eight 8-bit registers. The 16-bit pairs AF, BC, DE and HL are always
/// derived from the two 8-bit halves; no separate storage exists for them.
#[derive(Clone, Copy, PartialEq, Eq, Structural, Debug)]
pub struct Registers {
    pub a: u8,
    pub b: u8,
    pub c: u8,
    pub d: u8,
    pub e: u8,
    pub f: FlagsRegister,
    pub h: u8,
    pub l: u8,
}

/// A 16-bit pair read: high half in the upper byte, low half in the lower.
pub open spec fn spec_pair(hi: u8, lo: u8) -> u16 {
    (hi * 256 + lo) as u16
}

pub open spec fn spec_get_af(r: Registers) -> u16 {
    spec_pair(r.a, spec_flags_to_byte(r.f))
}

pub open spec fn spec_get_bc(r: Registers) -> u16 {
    spec_pair(r.b, r.c)
}

pub open spec fn spec_get_de(r: Registers) -> u16 {
    spec_pair(r.d, r.e)
}

pub open spec fn spec_get_hl(r: Registers) -> u16 {
    spec_pair(r.h, r.l)
}

pub open spec fn spec_set_af(r: Registers, v: u16) -> Registers {
    Registers { a: (v / 256) as u8, f: spec_byte_to_flags((v % 256) as u8), ..r }
}

pub open spec fn spec_set_bc(r: Registers, v: u16) -> Registers {
    Registers { b: (v / 256) as u8, c: (v % 256) as u8, ..r }
}

pub open spec fn spec_set_de(r: Registers, v: u16) -> Registers {
    Registers { d: (v / 256) as u8, e: (v % 256) as u8, ..r }
}

pub open spec fn spec_set_hl(r: Registers, v: u16) -> Registers {
    Registers { h: (v / 256) as u8, l: (v % 256) as u8, ..r }
}

impl Registers {
    /// All registers zero and all flags clear at power-on.
    pub fn new() -> (r: Registers)
        ensures
            r == (Registers {
                a: 0,
                b: 0,
                c: 0,
                d: 0,
                e: 0,
                f: FlagsRegister { zero: false, subtract: false, half_carry: false, carry: false },
                h: 0,
                l: 0,
            }),
    {
        Registers {
            a: 0,
            b: 0,
            c: 0,
            d: 0,
            e: 0,
            f: FlagsRegister::new(),
            h: 0,
            l: 0,
        }
    }

    pub fn get_af(&self) -> (v: u16)
        ensures
            v == spec_get_af(*self),
    {
        (self.a as u16) * 256 + (self.f.to_byte() as u16)
    }

    pub fn set_af(&mut self, value: u16)
        ensures
            *final(self) == spec_set_af(*old(self), value),
    {
        self.a = (value / 256) as u8;
        self.f = FlagsRegister::from_byte((value % 256) as u8);
    }

    pub fn get_bc(&self) -> (v: u16)
        ensures
            v == spec_get_bc(*self),
    {
        (self.b as u16) * 256 + (self.c as u16)
    }

    pub fn set_bc(&mut self, value: u16)
        ensures
            *final(self) == spec_set_bc(*old(self), value),
    {
        self.b = (value / 256) as u8;
        self.c = (value % 256) as u8;
    }

    pub fn get_de(&self) -> (v: u16)
        ensures
            v == spec_get_de(*self),
    {
        (self.d as u16) * 256 + (self.e as u16)
    }

    pub fn set_de(&mut self, value: u16)
        ensures
            *final(self) == spec_set_de(*old(self), value),
    {
        self.d = (value / 256) as u8;
        self.e = (value % 256) as u8;
    }

    pub fn get_hl(&self) -> (v: u16)
        ensures
            v == spec_get_hl(*self),
    {
        (self.h as u16) * 256 + (self.l as u16)
    }

    pub fn set_hl(&mut self, value: u16)
        ensures
            *final(self) == spec_set_hl(*old(self), value),
    {
        self.h = (value / 256) as u8;
        self.l = (value % 256) as u8;
    }
}

/// Register-pair round trip: writing a 16-bit value into BC, DE or HL and
/// reading the pair back returns the value unchanged.
pub proof fn lemma_pair_roundtrip(r: Registers, w: u16)
    ensures
        spec_get_bc(spec_set_bc(r, w)) == w,
        spec_get_de(spec_set_de(r, w)) == w,
        spec_get_hl(spec_set_hl(r, w)) == w,
{
    assert((w / 256) * 256 + (w % 256) == w) by {
        vstd::arithmetic::div_mod::lemma_fundamental_div_mod(w as int, 256);
    }
}

/// Writing a pair with its own current value is the identity: the pairs
/// are pure views over the 8-bit halves, with no storage of their own to
/// fall out of step.
pub proof fn lemma_pair_set_get_identity(r: Registers)
    ensures
        spec_set_bc(r, spec_get_bc(r)) == r,
        spec_set_de(r, spec_get_de(r)) == r,
        spec_set_hl(r, spec_get_hl(r)) == r,
        spec_set_af(r, spec_get_af(r)) == r,
{
    vstd::arithmetic::div_mod::lemma_fundamental_div_mod_converse(
        r.b as int * 256 + r.c as int,
        256,
        r.b as int,
        r.c as int,
    );
    vstd::arithmetic::div_mod::lemma_fundamental_div_mod_converse(
        r.d as int * 256 + r.e as int,
        256,
        r.d as int,
        r.e as int,
    );
    vstd::arithmetic::div_mod::lemma_fundamental_div_mod_converse(
        r.h as int * 256 + r.l as int,
        256,
        r.h as int,
        r.l as int,
    );
    vstd::arithmetic::div_mod::lemma_fundamental_div_mod_converse(
        r.a as int * 256 + spec_flags_to_byte(r.f) as int,
        256,
        r.a as int,
        spec_flags_to_byte(r.f) as int,
    );
    lemma_flags_roundtrip(r.f);
}

/// AF round trip: the high byte and the four flag bits survive; the low
/// nibble of the low byte is always zero afterwards.
pub proof fn lemma_af_roundtrip(r: Registers, w: u16)
    ensures
        spec_get_af(spec_set_af(r, w)) == (w / 256) * 256 + ((w % 256) / 16) * 16,
        spec_get_af(spec_set_af(r, w)) % 16 == 0,
{
    let lo = (w % 256) as u8;
    lemma_byte_flags_roundtrip(lo);
    assert((w / 256) * 256 + (lo / 16) * 16 <= 65535);
}

} // verus!
