//! The CPU register file: eight 8-bit registers pairing into AF, BC, DE
//! and HL, the stack pointer and the program counter.  The flag register
//! F keeps Z, N, H, C in bits 7..4; its low nibble is forced to zero by
//! every paired write.

use vstd::prelude::*;

verus! {

#[derive(Clone, Copy)]
pub struct Registers {
    pub a: u8,
    pub b: u8,
    pub c: u8,
    pub d: u8,
    pub e: u8,
    pub h: u8,
    pub l: u8,
    pub f: u8,
    pub sp: u16,
    pub pc: u16,
}

/// The 16-bit value formed by a high and a low byte.
pub open spec fn word(hi: u8, lo: u8) -> u16 {
    (hi as u16) << 8 | lo as u16
}

/// High byte of a 16-bit value.
pub open spec fn high_byte(v: u16) -> u8 {
    (v >> 8) as u8
}

/// Low byte of a 16-bit value.
pub open spec fn low_byte(v: u16) -> u8 {
    v as u8
}

pub proof fn lemma_word_bytes(v: u16)
    ensures
        word(high_byte(v), low_byte(v)) == v,
{
    assert(((v >> 8) as u8 as u16) << 8 | (v as u8 as u16) == v) by (bit_vector);
}

/// The flag byte after writing Z, N, H and C in that order; the low
/// nibble is untouched.
pub open spec fn spec_apply_flags(f: u8, z: bool, n: bool, h: bool, c: bool) -> u8 {
    let f1 = if z {
        f | 0x80
    } else {
        f & 0x7F
    };
    let f2 = if n {
        f1 | 0x40
    } else {
        f1 & 0xBF
    };
    let f3 = if h {
        f2 | 0x20
    } else {
        f2 & 0xDF
    };
    if c {
        f3 | 0x10
    } else {
        f3 & 0xEF
    }
}

/// Writing the Z or C flag with the value it already holds leaves the
/// flag byte unchanged (so a flag write that skips one of them still
/// fits `spec_apply_flags` with that flag passed through).
pub proof fn lemma_rewrite_flag_noop(f: u8)
    ensures
        f & 0x10 != 0 ==> f | 0x10 == f,
        f & 0x10 == 0 ==> f & 0xEF == f,
        f & 0x80 != 0 ==> f | 0x80 == f,
        f & 0x80 == 0 ==> f & 0x7F == f,
{
    assert((f & 0x10 != 0 ==> f | 0x10 == f) && (f & 0x10 == 0 ==> f & 0xEF == f) && (f & 0x80 != 0
        ==> f | 0x80 == f) && (f & 0x80 == 0 ==> f & 0x7F == f)) by (bit_vector);
}

pub proof fn lemma_bytes_word(hi: u8, lo: u8)
    ensures
        high_byte(word(hi, lo)) == hi,
        low_byte(word(hi, lo)) == lo,
{
    assert((((hi as u16) << 8 | lo as u16) >> 8) as u8 == hi) by (bit_vector);
    assert(((hi as u16) << 8 | lo as u16) as u8 == lo) by (bit_vector);
}

impl Registers {
    /// Spec view of the Z flag (bit 7 of F).
    pub open spec fn spec_flag_z(self) -> bool {
        self.f & 0x80 != 0
    }

    /// Spec view of the N flag (bit 6 of F).
    pub open spec fn spec_flag_n(self) -> bool {
        self.f & 0x40 != 0
    }

    /// Spec view of the H flag (bit 5 of F).
    pub open spec fn spec_flag_h(self) -> bool {
        self.f & 0x20 != 0
    }

    /// Spec view of the C flag (bit 4 of F).
    pub open spec fn spec_flag_c(self) -> bool {
        self.f & 0x10 != 0
    }

    /// Register values at power-on without a boot ROM: AF=0x01B0,
    /// BC=0x0013, DE=0x00D8, HL=0x014D, SP=0xFFFE, PC=0x0100.
    pub fn new() -> (r: Registers)
        ensures
            r.a == 0x01 && r.f == 0xB0,
            r.b == 0x00 && r.c == 0x13,
            r.d == 0x00 && r.e == 0xD8,
            r.h == 0x01 && r.l == 0x4D,
            r.sp == 0xFFFE,
            r.pc == 0x0100,
    {
        Registers {
            a: 0x01,
            b: 0x00,
            c: 0x13,
            d: 0x00,
            e: 0xD8,
            h: 0x01,
            l: 0x4D,
            f: 0xB0,
            sp: 0xFFFE,
            pc: 0x0100,
        }
    }

    pub fn af(&self) -> (r: u16)
        ensures
            r == word(self.a, self.f),
    {
        (self.a as u16) << 8 | self.f as u16
    }

    pub fn bc(&self) -> (r: u16)
        ensures
            r == word(self.b, self.c),
    {
        (self.b as u16) << 8 | self.c as u16
    }

    pub fn de(&self) -> (r: u16)
        ensures
            r == word(self.d, self.e),
    {
        (self.d as u16) << 8 | self.e as u16
    }

    pub fn hl(&self) -> (r: u16)
        ensures
            r == word(self.h, self.l),
    {
        (self.h as u16) << 8 | self.l as u16
    }

    /// Writing AF keeps only the high nibble of the low byte in F.
    pub fn set_af(&mut self, value: u16)
        ensures
            final(self).a == high_byte(value),
            final(self).f == low_byte(value) & 0xF0,
            final(self).f & 0x0F == 0,
            *final(self) == (Registers { a: final(self).a, f: final(self).f, ..*old(self) }),
    {
        self.a = (value >> 8) as u8;
        self.f = (value & 0xF0) as u8;
        proof {
            assert((value & 0xF0) as u8 == (value as u8) & 0xF0 && ((value as u8) & 0xF0) & 0x0F
                == 0) by (bit_vector);
        }
    }

    pub fn set_bc(&mut self, value: u16)
        ensures
            final(self).b == high_byte(value),
            final(self).c == low_byte(value),
            *final(self) == (Registers { b: final(self).b, c: final(self).c, ..*old(self) }),
    {
        self.b = (value >> 8) as u8;
        self.c = value as u8;
    }

    pub fn set_de(&mut self, value: u16)
        ensures
            final(self).d == high_byte(value),
            final(self).e == low_byte(value),
            *final(self) == (Registers { d: final(self).d, e: final(self).e, ..*old(self) }),
    {
        self.d = (value >> 8) as u8;
        self.e = value as u8;
    }

    pub fn set_hl(&mut self, value: u16)
        ensures
            final(self).h == high_byte(value),
            final(self).l == low_byte(value),
            *final(self) == (Registers { h: final(self).h, l: final(self).l, ..*old(self) }),
    {
        self.h = (value >> 8) as u8;
        self.l = value as u8;
    }

    pub fn flag_z(&self) -> (r: bool)
        ensures
            r == self.spec_flag_z(),
    {
        (self.f & 0x80) != 0
    }

    pub fn flag_n(&self) -> (r: bool)
        ensures
            r == self.spec_flag_n(),
    {
        (self.f & 0x40) != 0
    }

    pub fn flag_h(&self) -> (r: bool)
        ensures
            r == self.spec_flag_h(),
    {
        (self.f & 0x20) != 0
    }

    pub fn flag_c(&self) -> (r: bool)
        ensures
            r == self.spec_flag_c(),
    {
        (self.f & 0x10) != 0
    }

    pub fn set_flag_z(&mut self, value: bool)
        ensures
            final(self).f == (if value { old(self).f | 0x80 } else { old(self).f & 0x7F }),
            final(self).spec_flag_z() == value,
            final(self).spec_flag_n() == old(self).spec_flag_n(),
            final(self).spec_flag_h() == old(self).spec_flag_h(),
            final(self).spec_flag_c() == old(self).spec_flag_c(),
            final(self).f & 0x0F == old(self).f & 0x0F,
            *final(self) == (Registers { f: final(self).f, ..*old(self) }),
    {
        proof {
            let f = self.f;
            assert((f | 0x80) & 0x80 != 0 && (f & 0x7F) & 0x80 == 0 && ((f | 0x80) & 0x80 == f
                & 0x80 || 0x80 == 0x80u8) && ((f | 0x80) & 0x40 == f & 0x40 || 0x80 == 0x40u8) && ((
            f | 0x80) & 0x20 == f & 0x20 || 0x80 == 0x20u8) && ((f | 0x80) & 0x10 == f & 0x10
                || 0x80 == 0x10u8) && (f | 0x80) & 0x0F == f & 0x0F && ((f & 0x7F) & 0x80 == f
                & 0x80 || 0x80 == 0x80u8) && ((f & 0x7F) & 0x40 == f & 0x40 || 0x80 == 0x40u8) && ((
            f & 0x7F) & 0x20 == f & 0x20 || 0x80 == 0x20u8) && ((f & 0x7F) & 0x10 == f & 0x10
                || 0x80 == 0x10u8) && (f & 0x7F) & 0x0F == f & 0x0F) by (bit_vector);
        }
        if value {
            self.f |= 0x80;
        } else {
            self.f &= 0x7F;
        }
    }

    pub fn set_flag_n(&mut self, value: bool)
        ensures
            final(self).f == (if value { old(self).f | 0x40 } else { old(self).f & 0xBF }),
            final(self).spec_flag_n() == value,
            final(self).spec_flag_z() == old(self).spec_flag_z(),
            final(self).spec_flag_h() == old(self).spec_flag_h(),
            final(self).spec_flag_c() == old(self).spec_flag_c(),
            final(self).f & 0x0F == old(self).f & 0x0F,
            *final(self) == (Registers { f: final(self).f, ..*old(self) }),
    {
        proof {
            let f = self.f;
            assert((f | 0x40) & 0x40 != 0 && (f & 0xBF) & 0x40 == 0 && ((f | 0x40) & 0x80 == f
                & 0x80 || 0x40 == 0x80u8) && ((f | 0x40) & 0x40 == f & 0x40 || 0x40 == 0x40u8) && ((
            f | 0x40) & 0x20 == f & 0x20 || 0x40 == 0x20u8) && ((f | 0x40) & 0x10 == f & 0x10
                || 0x40 == 0x10u8) && (f | 0x40) & 0x0F == f & 0x0F && ((f & 0xBF) & 0x80 == f
                & 0x80 || 0x40 == 0x80u8) && ((f & 0xBF) & 0x40 == f & 0x40 || 0x40 == 0x40u8) && ((
            f & 0xBF) & 0x20 == f & 0x20 || 0x40 == 0x20u8) && ((f & 0xBF) & 0x10 == f & 0x10
                || 0x40 == 0x10u8) && (f & 0xBF) & 0x0F == f & 0x0F) by (bit_vector);
        }
        if value {
            self.f |= 0x40;
        } else {
            self.f &= 0xBF;
        }
    }

    pub fn set_flag_h(&mut self, value: bool)
        ensures
            final(self).f == (if value { old(self).f | 0x20 } else { old(self).f & 0xDF }),
            final(self).spec_flag_h() == value,
            final(self).spec_flag_z() == old(self).spec_flag_z(),
            final(self).spec_flag_n() == old(self).spec_flag_n(),
            final(self).spec_flag_c() == old(self).spec_flag_c(),
            final(self).f & 0x0F == old(self).f & 0x0F,
            *final(self) == (Registers { f: final(self).f, ..*old(self) }),
    {
        proof {
            let f = self.f;
            assert((f | 0x20) & 0x20 != 0 && (f & 0xDF) & 0x20 == 0 && ((f | 0x20) & 0x80 == f
                & 0x80 || 0x20 == 0x80u8) && ((f | 0x20) & 0x40 == f & 0x40 || 0x20 == 0x40u8) && ((
            f | 0x20) & 0x20 == f & 0x20 || 0x20 == 0x20u8) && ((f | 0x20) & 0x10 == f & 0x10
                || 0x20 == 0x10u8) && (f | 0x20) & 0x0F == f & 0x0F && ((f & 0xDF) & 0x80 == f
                & 0x80 || 0x20 == 0x80u8) && ((f & 0xDF) & 0x40 == f & 0x40 || 0x20 == 0x40u8) && ((
            f & 0xDF) & 0x20 == f & 0x20 || 0x20 == 0x20u8) && ((f & 0xDF) & 0x10 == f & 0x10
                || 0x20 == 0x10u8) && (f & 0xDF) & 0x0F == f & 0x0F) by (bit_vector);
        }
        if value {
            self.f |= 0x20;
        } else {
            self.f &= 0xDF;
        }
    }

    pub fn set_flag_c(&mut self, value: bool)
        ensures
            final(self).f == (if value { old(self).f | 0x10 } else { old(self).f & 0xEF }),
            final(self).spec_flag_c() == value,
            final(self).spec_flag_z() == old(self).spec_flag_z(),
            final(self).spec_flag_n() == old(self).spec_flag_n(),
            final(self).spec_flag_h() == old(self).spec_flag_h(),
            final(self).f & 0x0F == old(self).f & 0x0F,
            *final(self) == (Registers { f: final(self).f, ..*old(self) }),
    {
        proof {
            let f = self.f;
            assert((f | 0x10) & 0x10 != 0 && (f & 0xEF) & 0x10 == 0 && ((f | 0x10) & 0x80 == f
                & 0x80 || 0x10 == 0x80u8) && ((f | 0x10) & 0x40 == f & 0x40 || 0x10 == 0x40u8) && ((
            f | 0x10) & 0x20 == f & 0x20 || 0x10 == 0x20u8) && ((f | 0x10) & 0x10 == f & 0x10
                || 0x10 == 0x10u8) && (f | 0x10) & 0x0F == f & 0x0F && ((f & 0xEF) & 0x80 == f
                & 0x80 || 0x10 == 0x80u8) && ((f & 0xEF) & 0x40 == f & 0x40 || 0x10 == 0x40u8) && ((
            f & 0xEF) & 0x20 == f & 0x20 || 0x10 == 0x20u8) && ((f & 0xEF) & 0x10 == f & 0x10
                || 0x10 == 0x10u8) && (f & 0xEF) & 0x0F == f & 0x0F) by (bit_vector);
        }
        if value {
            self.f |= 0x10;
        } else {
            self.f &= 0xEF;
        }
    }
}

} // verus!
