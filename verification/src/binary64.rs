//! The IEEE 754 binary64 interchange format, seen as a raw bit pattern.
//!
//! The verifier does not reason about `f64` arithmetic, but every branch
//! decision the engine takes reads only discrete facts about an argument:
//! which class it belongs to (NaN, an infinity, zero, an ordinary number),
//! its sign, and how close it lies to a whole number.  All of those facts
//! are functions of the 64 raw bits, so they are modelled and decided here
//! exactly, in integer arithmetic.

use vstd::prelude::*;
use vstd::arithmetic::power2::pow2;

verus! {

/// A double-precision value, carried as its raw bit pattern
/// (1 sign bit, 11 exponent bits, 52 fraction bits).
#[derive(Clone, Copy, Debug, PartialEq, Eq, Structural)]
pub struct Binary64 {
    pub bits: u64,
}

/// The sign bit: 1 for a negative sign, 0 for a positive one.
pub open spec fn sign_field(b: u64) -> u64 {
    b >> 63
}

/// The 11 biased exponent bits.
pub open spec fn exp_field(b: u64) -> u64 {
    (b >> 52) & 0x7ff
}

/// The 52 fraction bits.
pub open spec fn frac_field(b: u64) -> u64 {
    b & 0xf_ffff_ffff_ffff
}

/// NaN: all exponent bits set and a non-zero fraction.
pub open spec fn is_nan_bits(b: u64) -> bool {
    exp_field(b) == 0x7ff && frac_field(b) != 0
}

/// An infinity of either sign: all exponent bits set, fraction zero.
pub open spec fn is_infinite_bits(b: u64) -> bool {
    exp_field(b) == 0x7ff && frac_field(b) == 0
}

pub open spec fn is_pos_infinite_bits(b: u64) -> bool {
    is_infinite_bits(b) && sign_field(b) == 0
}

pub open spec fn is_neg_infinite_bits(b: u64) -> bool {
    is_infinite_bits(b) && sign_field(b) == 1
}

/// Finite: anything that is neither NaN nor an infinity.
pub open spec fn is_finite_bits(b: u64) -> bool {
    exp_field(b) != 0x7ff
}

/// A zero of either sign.
pub open spec fn is_zero_bits(b: u64) -> bool {
    exp_field(b) == 0 && frac_field(b) == 0
}

/// The strict comparison `x > 0.0`: true of finite positive values and of
/// positive infinity, false of both zeros, of everything negative, and of
/// NaN (every comparison on NaN is false).
pub open spec fn is_above_zero_bits(b: u64) -> bool {
    !is_nan_bits(b) && sign_field(b) == 0 && !is_zero_bits(b)
}

/// The comparison `x >= 0.0`: like `is_above_zero_bits` but also true of
/// both zeros, the negative one included.
pub open spec fn is_at_least_zero_bits(b: u64) -> bool {
    !is_nan_bits(b) && (sign_field(b) == 0 || is_zero_bits(b))
}

/// The magnitude of a finite value, scaled by `2^1074` so that it is a
/// whole number: `frac` for a subnormal, `(2^52 + frac) * 2^(exp - 1)` for
/// a normal value.
pub open spec fn scaled_mag(b: u64) -> nat {
    if exp_field(b) == 0 {
        frac_field(b) as nat
    } else {
        ((pow2(52) + frac_field(b)) * pow2((exp_field(b) - 1) as nat)) as nat
    }
}

/// Whether a finite value lies within strict distance `2^-52` (the machine
/// epsilon) of some whole number.  In the scale of `scaled_mag`, one unit is
/// `2^1074` and the epsilon is `2^1022`.  This is the exact meaning of the
/// engine's integer-proximity test `(x - x.round()).abs() < f64::EPSILON`:
/// rounding half away from zero never brings a value closer than one half,
/// so the strict test holds exactly when the distance to the nearest whole
/// number is below the epsilon.
pub open spec fn near_integer_bits(b: u64) -> bool {
    &&& is_finite_bits(b)
    &&& {
        let r = scaled_mag(b) % pow2(1074);
        r < pow2(1022) || pow2(1074) - r < pow2(1022)
    }
}

impl Binary64 {
    pub fn new(bits: u64) -> (r: Binary64)
        ensures
            r.bits == bits,
    {
        Binary64 { bits }
    }

    pub fn is_nan(&self) -> (r: bool)
        ensures
            r == is_nan_bits(self.bits),
    {
        let e: u64 = (self.bits >> 52) & 0x7ff;
        let f: u64 = self.bits & 0xf_ffff_ffff_ffff;
        e == 0x7ff && f != 0
    }

    pub fn is_pos_infinite(&self) -> (r: bool)
        ensures
            r == is_pos_infinite_bits(self.bits),
    {
        let s: u64 = self.bits >> 63;
        let e: u64 = (self.bits >> 52) & 0x7ff;
        let f: u64 = self.bits & 0xf_ffff_ffff_ffff;
        e == 0x7ff && f == 0 && s == 0
    }

    pub fn is_neg_infinite(&self) -> (r: bool)
        ensures
            r == is_neg_infinite_bits(self.bits),
    {
        let s: u64 = self.bits >> 63;
        let e: u64 = (self.bits >> 52) & 0x7ff;
        let f: u64 = self.bits & 0xf_ffff_ffff_ffff;
        e == 0x7ff && f == 0 && s == 1
    }

    pub fn is_zero(&self) -> (r: bool)
        ensures
            r == is_zero_bits(self.bits),
    {
        let e: u64 = (self.bits >> 52) & 0x7ff;
        let f: u64 = self.bits & 0xf_ffff_ffff_ffff;
        e == 0 && f == 0
    }

    /// The strict sign test `x > 0.0`.
    pub fn is_above_zero(&self) -> (r: bool)
        ensures
            r == is_above_zero_bits(self.bits),
    {
        let s: u64 = self.bits >> 63;
        !self.is_nan() && s == 0 && !self.is_zero()
    }

    /// The sign test `x >= 0.0`, which a negative zero also passes.
    pub fn is_at_least_zero(&self) -> (r: bool)
        ensures
            r == is_at_least_zero_bits(self.bits),
    {
        let s: u64 = self.bits >> 63;
        !self.is_nan() && (s == 0 || self.is_zero())
    }
}

} // verus!
