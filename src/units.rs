use vstd::prelude::*;
use vstd::arithmetic::power2::{pow2, lemma2_to64, lemma_pow2_adds, lemma_pow2_strictly_increases};

verus! {

/// A 32-bit IEEE-754 binary floating-point value, held by its bit pattern.
///
/// The library does no arithmetic on these values: it carries them unchanged
/// from the style source to the layout engine. The one conversion it performs
/// is the truncation of a border width to an unsigned integer.
#[derive(Clone, Copy, Debug, PartialEq, Eq, Structural)]
pub struct Number {
    pub bits: u32,
}

pub open spec fn sign_of(bits: u32) -> int {
    bits as int / 0x8000_0000
}

pub open spec fn exponent_of(bits: u32) -> int {
    (bits as int / 0x80_0000) % 0x100
}

pub open spec fn mantissa_of(bits: u32) -> int {
    bits as int % 0x80_0000
}

/// The unsigned integer that a saturating, truncating conversion of the
/// value with bit pattern `bits` gives: NaN and everything below one become
/// zero, everything at or above 2^32 (infinity included) becomes `u32::MAX`,
/// and any other value loses its fractional part.
pub open spec fn truncated_u32(bits: u32) -> u32 {
    let e = exponent_of(bits);
    let m = mantissa_of(bits);
    if e == 0xff && m != 0 {
        0
    } else if sign_of(bits) == 1 {
        0
    } else if e < 127 {
        0
    } else if e >= 127 + 32 {
        u32::MAX
    } else {
        (((m + 0x80_0000) * pow2((e - 127) as nat)) / 0x80_0000) as u32
    }
}

impl Number {
    /// The value zero.
    pub fn zero() -> (r: Number)
        ensures
            r.bits == 0,
            truncated_u32(r.bits) == 0,
    {
        Number { bits: 0 }
    }

    /// The value carried as the bit pattern `bits`.
    pub fn from_bits(bits: u32) -> (r: Number)
        ensures
            r.bits == bits,
    {
        Number { bits }
    }

    /// Truncates the value to an unsigned integer, saturating at both ends.
    pub fn to_u32_truncated(&self) -> (r: u32)
        ensures
            r == truncated_u32(self.bits),
    {
        let bits = self.bits;
        let sign: u32 = bits / 0x8000_0000;
        let exponent: u32 = (bits / 0x80_0000) % 0x100;
        let mantissa: u32 = bits % 0x80_0000;
        if exponent == 0xff && mantissa != 0 {
            0
        } else if sign == 1 {
            0
        } else if exponent < 127 {
            0
        } else if exponent >= 127 + 32 {
            u32::MAX
        } else {
            let shift: u32 = exponent - 127;
            let mut p: u64 = 1;
            let mut i: u32 = 0;
            proof {
                lemma2_to64();
            }
            while i < shift
                invariant
                    shift <= 31,
                    i <= shift,
                    p == pow2(i as nat),
                    pow2(31) == 0x8000_0000,
                decreases shift - i,
            {
                proof {
                    lemma_pow2_adds(i as nat, 1);
                    lemma2_to64();
                    if i + 1 < 31 {
                        lemma_pow2_strictly_increases((i + 1) as nat, 31);
                    }
                }
                p = p * 2;
                i = i + 1;
            }
            let sig: u64 = (mantissa + 0x80_0000) as u64;
            proof {
                if shift < 31 {
                    lemma_pow2_strictly_increases(shift as nat, 31);
                }
                assert(sig < 0x100_0000);
                assert(p <= 0x8000_0000);
                assert(sig * p <= 0x100_0000 * 0x8000_0000) by (nonlinear_arith)
                    requires sig < 0x100_0000, p <= 0x8000_0000;
                assert((sig * p) / 0x80_0000 < 0x1_0000_0000) by (nonlinear_arith)
                    requires sig < 0x100_0000, p <= 0x8000_0000, 0 < p;
            }
            ((sig * p) / 0x80_0000) as u32
        }
    }
}

/// A length as the layout engine reads it.
#[derive(Clone, Copy, Debug, PartialEq, Eq, Structural)]
pub enum StyleUnit {
    UndefinedValue,
    Point(Number),
    Percent(Number),
    Auto,
}

} // verus!
