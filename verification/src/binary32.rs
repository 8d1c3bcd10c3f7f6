//! Single-precision numbers held by their IEEE 754 encoding.
//!
//! The verified code never computes with such a number. It carries the 32-bit
//! encoding and decides order questions on the sign, exponent and fraction
//! fields of it.

use vstd::arithmetic::power2::{
    lemma2_to64, lemma_pow2_adds, lemma_pow2_pos, lemma_pow2_strictly_increases, pow2,
};
use vstd::prelude::*;

verus! {

/// An IEEE 754 binary32 number, held as its 32-bit encoding: one sign bit,
/// eight exponent bits, twenty-three fraction bits.
#[derive(Debug, Clone, Copy, PartialEq, Eq, Structural)]
pub struct Binary32 {
    pub bits: u32,
}

impl Binary32 {
    /// The sign bit is set.
    pub open spec fn sign_bit(self) -> bool {
        self.bits >= 0x8000_0000
    }

    /// The biased exponent field.
    pub open spec fn exponent(self) -> nat {
        ((self.bits / 0x80_0000) % 256) as nat
    }

    /// The fraction field.
    pub open spec fn fraction(self) -> nat {
        (self.bits % 0x80_0000) as nat
    }

    /// Not a number: the exponent is all ones and the fraction is not zero.
    pub open spec fn is_nan(self) -> bool {
        self.exponent() == 255 && self.fraction() != 0
    }

    /// Positive or negative zero.
    pub open spec fn is_zero(self) -> bool {
        self.exponent() == 0 && self.fraction() == 0
    }

    /// Neither an infinity nor a NaN: the exponent is not all ones.
    pub open spec fn is_finite(self) -> bool {
        self.exponent() < 255
    }

    /// The significand of a finite number: the fraction, with the implicit
    /// leading bit where the exponent field is not zero.
    pub open spec fn significand(self) -> nat {
        if self.exponent() == 0 {
            self.fraction()
        } else {
            0x80_0000 + self.fraction()
        }
    }

    /// The magnitude of a finite number in units of `2^-149`, the smallest
    /// positive binary32 number: the significand times two to the exponent
    /// field less one, or times one where that field is zero.
    pub open spec fn magnitude(self) -> nat {
        if self.exponent() == 0 {
            self.significand()
        } else {
            self.significand() * pow2((self.exponent() - 1) as nat)
        }
    }

    /// The number lies in `[0, 1]`: it is a zero, or it is positive with a
    /// magnitude below one (biased exponent under 127) or exactly one
    /// (biased exponent 127, fraction zero). No NaN does.
    pub open spec fn in_unit_interval(self) -> bool {
        ||| self.is_zero()
        ||| !self.sign_bit() && self.exponent() < 127
        ||| !self.sign_bit() && self.exponent() == 127 && self.fraction() == 0
    }

    /// The number with the given encoding.
    pub fn from_bits(bits: u32) -> (x: Binary32)
        ensures
            x.bits == bits,
    {
        Binary32 { bits }
    }

    /// The encoding of the number.
    pub fn to_bits(self) -> (bits: u32)
        ensures
            bits == self.bits,
    {
        self.bits
    }

    /// Positive zero.
    pub fn zero() -> (x: Binary32)
        ensures
            x.bits == 0,
            x.is_zero(),
    {
        Binary32 { bits: 0 }
    }

    /// Whether the number lies in `[0, 1]`.
    pub fn lies_in_unit_interval(self) -> (inside: bool)
        ensures
            inside == self.in_unit_interval(),
    {
        self.bits <= 0x3F80_0000 || self.bits == 0x8000_0000
    }
}

/// A number as a caller reports it: its encoding, and the decimal text that
/// stands for it in messages.
#[derive(Debug, Clone)]
pub struct Reading {
    pub value: Binary32,
    pub text: String,
}

/// No NaN lies in the unit interval, and neither does a number whose sign bit
/// is set, negative zero apart.
pub proof fn lemma_unit_interval_excludes(x: Binary32)
    ensures
        x.is_nan() ==> !x.in_unit_interval(),
        x.sign_bit() && !x.is_zero() ==> !x.in_unit_interval(),
{
}

/// The magnitude of one, in units of `2^-149`.
pub open spec fn magnitude_of_one() -> nat {
    pow2(149)
}

/// The test on the fields decides the order of the numbers: a number lies
/// in `[0, 1]` exactly when it is finite, its magnitude is at most that of
/// one, and it carries a sign bit only as negative zero.
pub proof fn lemma_unit_interval_by_magnitude(x: Binary32)
    ensures
        x.in_unit_interval() <==> {
            &&& x.is_finite()
            &&& x.magnitude() <= magnitude_of_one()
            &&& x.sign_bit() ==> x.magnitude() == 0
        },
{
    let e = x.exponent();
    let f = x.fraction();
    let sig = x.significand();
    lemma2_to64();
    lemma_pow2_pos(126);
    lemma_pow2_adds(23, 126);
    if e == 0 {
        lemma_pow2_strictly_increases(23, 149);
    } else if e < 255 {
        let unit = pow2((e - 1) as nat);
        lemma_pow2_pos((e - 1) as nat);
        lemma_pow2_adds(23, (e - 1) as nat);
        lemma_pow2_adds(24, (e - 1) as nat);
        assert(pow2(23) * unit <= sig * unit < pow2(24) * unit) by (nonlinear_arith)
            requires
                pow2(23) <= sig < pow2(24),
                unit > 0,
        ;
        if e < 127 {
            if e + 23 < 149 {
                lemma_pow2_strictly_increases((e + 23) as nat, 149);
            }
        } else if e == 127 {
            assert(sig * unit <= pow2(23) * unit <==> sig <= pow2(23)) by (nonlinear_arith)
                requires
                    unit > 0,
            ;
        } else {
            if e + 22 > 150 {
                lemma_pow2_strictly_increases(150, (e + 22) as nat);
            }
            lemma_pow2_strictly_increases(149, 150);
        }
    }
}

/// Among the numbers without a sign bit that are no NaN, the unit interval
/// is an initial segment in the order of the encodings: it ends at the
/// encoding of one.
pub proof fn lemma_unit_interval_is_initial(x: Binary32)
    requires
        !x.sign_bit(),
    ensures
        x.in_unit_interval() <==> x.bits <= 0x3F80_0000,
{
}

} // verus!
