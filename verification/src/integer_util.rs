//! Integer proximity, decided exactly from the bit pattern.
//!
//! Every branch selection downstream — pole detection for the gamma
//! function above all — asks one question of a finite argument: does it lie
//! within the machine epsilon of a whole number?  The engine asks it as
//! `(x - x.round()).abs() < f64::EPSILON`.  Here the same predicate is
//! computed from the raw bits alone and proved to agree with the exact
//! arithmetic statement `near_integer_bits`.

use vstd::prelude::*;
use vstd::arithmetic::power2::{
    pow2, lemma_pow2_adds, lemma_pow2_pos, lemma_pow2_strictly_increases, lemma_pow2_unfold,
    lemma2_to64, lemma2_to64_rest,
};
use vstd::arithmetic::div_mod::{
    lemma_small_mod, lemma_mod_multiples_basic, lemma_mod_pos_bound, lemma_truncate_middle,
};
use vstd::arithmetic::mul::{lemma_mul_is_associative, lemma_mul_is_commutative};
use vstd::bits::{low_bits_mask, lemma_u64_low_bits_mask_is_mod, lemma_u64_shl_is_mul};
use crate::binary64::{
    Binary64, exp_field, frac_field, is_finite_bits, near_integer_bits, scaled_mag,
};

verus! {

/// The integer-proximity test: whether a value lies within strict distance
/// `2^-52` of a whole number.
pub trait IsInteger {
    /// What proximity means for the implementing type.
    spec fn is_integer_spec(self) -> bool;

    /// Decides the proximity test, exactly.
    fn is_integer(self) -> (r: bool)
        ensures
            r == self.is_integer_spec(),
    ;
}

/// Bounds that the bit-field extractions carry by construction.
proof fn lemma_field_bounds(b: u64)
    ensures
        frac_field(b) < 0x10_0000_0000_0000u64,
        exp_field(b) <= 0x7ff,
{
    assert(b & 0xf_ffff_ffff_ffff < 0x10_0000_0000_0000u64) by (bit_vector);
    assert((b >> 52) & 0x7ff <= 0x7ffu64) by (bit_vector);
}

/// A magnitude of `2^52` or more: every such value is a whole number, since
/// its scaled magnitude is a multiple of `2^1074`.
proof fn lemma_huge_is_near(b: u64)
    requires
        is_finite_bits(b),
        exp_field(b) >= 1075,
    ensures
        near_integer_bits(b),
{
    let e = exp_field(b);
    let m_val = (pow2(52) + frac_field(b)) as int;
    let p = (e - 1) as nat;
    lemma_pow2_adds((p - 1074) as nat, 1074);
    assert(pow2(p) == pow2((p - 1074) as nat) * pow2(1074));
    lemma_mul_is_associative(m_val, pow2((p - 1074) as nat) as int, pow2(1074) as int);
    assert(scaled_mag(b) as int == (m_val * pow2((p - 1074) as nat)) * pow2(1074));
    lemma_pow2_pos(1074);
    lemma_mod_multiples_basic(m_val * pow2((p - 1074) as nat), pow2(1074) as int);
    assert(scaled_mag(b) % pow2(1074) == 0);
    lemma_pow2_pos(1022);
}

/// A magnitude strictly below `2^-53`: closer to zero than the epsilon, so
/// near a whole number.  Covers the zeros, the subnormals and the small
/// normal range.
proof fn lemma_tiny_is_near(b: u64)
    requires
        is_finite_bits(b),
        exp_field(b) <= 970,
    ensures
        near_integer_bits(b),
{
    let e = exp_field(b);
    lemma_field_bounds(b);
    lemma2_to64();
    lemma2_to64_rest();
    lemma_pow2_strictly_increases(52, 1022);
    lemma_pow2_strictly_increases(1022, 1074);
    if e == 0 {
        assert(scaled_mag(b) < pow2(52));
    } else {
        let m_val = (pow2(52) + frac_field(b)) as int;
        let pe = pow2((e - 1) as nat) as int;
        lemma_pow2_unfold(53);
        assert(m_val < pow2(53));
        if e - 1 < 969 {
            lemma_pow2_strictly_increases((e - 1) as nat, 969);
        }
        assert(pe <= pow2(969));
        lemma_pow2_adds(53, 969);
        lemma_pow2_pos((e - 1) as nat);
        assert(m_val * pe < pow2(53) * pow2(969)) by (nonlinear_arith)
            requires
                0 < m_val < pow2(53),
                0 < pe <= pow2(969),
        ;
        assert(scaled_mag(b) < pow2(1022));
    }
    lemma_small_mod(scaled_mag(b), pow2(1074));
}

/// A magnitude in the half-open range `[2^-52, 1/2)`: too large to be near
/// zero, too small to be near anything else, so never near a whole number.
proof fn lemma_low_mid_is_far(b: u64)
    requires
        is_finite_bits(b),
        971 <= exp_field(b) <= 1021,
    ensures
        !near_integer_bits(b),
{
    let e = exp_field(b);
    lemma_field_bounds(b);
    lemma2_to64();
    lemma2_to64_rest();
    let m_val = (pow2(52) + frac_field(b)) as int;
    let pe = pow2((e - 1) as nat) as int;
    lemma_pow2_unfold(53);
    assert(pow2(52) <= m_val < pow2(53));
    lemma_pow2_pos((e - 1) as nat);
    lemma_pow2_pos(970);
    if e - 1 > 970 {
        lemma_pow2_strictly_increases(970, (e - 1) as nat);
    }
    if e - 1 < 1020 {
        lemma_pow2_strictly_increases((e - 1) as nat, 1020);
    }
    assert(pow2(970) <= pe <= pow2(1020));
    lemma_pow2_adds(52, 970);
    lemma_pow2_adds(53, 1020);
    assert(pow2(52) * pow2(970) <= m_val * pe < pow2(53) * pow2(1020)) by (nonlinear_arith)
        requires
            pow2(52) <= m_val < pow2(53),
            0 < pow2(970) <= pe <= pow2(1020),
    ;
    let s = scaled_mag(b);
    assert(pow2(1022) <= s < pow2(1073));
    lemma_pow2_strictly_increases(1073, 1074);
    lemma_small_mod(s, pow2(1074));
    lemma_pow2_unfold(1074);
    lemma_pow2_strictly_increases(1022, 1073);
    assert(pow2(1074) - s > pow2(1073));
}

/// A magnitude in `[1/2, 1)`: near a whole number exactly when it is the
/// largest value below one, whose distance to one is `2^-53`.
proof fn lemma_below_one_near_iff_top(b: u64)
    requires
        is_finite_bits(b),
        exp_field(b) == 1022,
    ensures
        near_integer_bits(b) == (frac_field(b) == 0xf_ffff_ffff_ffff),
{
    lemma_field_bounds(b);
    let m_val = (pow2(52) + frac_field(b)) as int;
    let pe = pow2(1021) as int;
    lemma_pow2_unfold(53);
    lemma2_to64();
    lemma2_to64_rest();
    assert(pow2(52) <= m_val < pow2(53));
    lemma_pow2_pos(1021);
    lemma_pow2_adds(52, 1021);
    lemma_pow2_adds(53, 1021);
    lemma_pow2_unfold(1022);
    lemma_pow2_unfold(1074);
    let s = scaled_mag(b);
    assert(s == m_val * pe);
    assert(pow2(52) * pe <= m_val * pe && m_val * pe <= (pow2(53) - 1) * pe) by (nonlinear_arith)
        requires
            pow2(52) <= m_val <= pow2(53) - 1,
            0 < pe,
    ;
    assert(pow2(1073) <= s);
    assert((pow2(53) - 1) * pe == pow2(53) * pe - pe) by (nonlinear_arith);
    assert(s <= pow2(1074) - pow2(1021));
    lemma_pow2_strictly_increases(1021, 1074);
    lemma_small_mod(s, pow2(1074));
    lemma_pow2_strictly_increases(1022, 1073);
    // The low disjunct is out of reach: s is at least 2^1073.
    assert(!(s % pow2(1074) < pow2(1022)));
    // The high disjunct: 2^1074 - s = (2^53 - m) * 2^1021 < 2 * 2^1021
    // exactly when m is the top mantissa value.
    let d = pow2(53) - m_val;
    assert(pow2(1074) - s == d * pe) by (nonlinear_arith)
        requires
            s == m_val * pe,
            d == pow2(53) - m_val,
            pow2(1074) == pow2(53) * pe,
    ;
    assert((d * pe < 2 * pe) == (d < 2)) by (nonlinear_arith)
        requires
            0 < pe,
    ;
    assert((frac_field(b) == 0xf_ffff_ffff_ffff) == (d == 1));
}

/// A magnitude of one or more, below `2^52`: the bit pattern has
/// `f = 1075 - exp` fraction bits, and the value is near a whole number
/// exactly when all of them are clear.  The epsilon window is narrower than
/// half the spacing of whole numbers here, so only exact whole numbers pass.
proof fn lemma_ordinary_near_iff_low_bits_clear(b: u64)
    requires
        is_finite_bits(b),
        1023 <= exp_field(b) <= 1074,
    ensures
        near_integer_bits(b) == ((pow2(52) + frac_field(b)) as int % pow2(
            (1075 - exp_field(b)) as nat,
        ) as int == 0),
{
    let e = exp_field(b);
    let m_val = (pow2(52) + frac_field(b)) as int;
    let p = (e - 1) as nat;
    let f = (1075 - e) as nat;
    let pp = pow2(p) as int;
    let pf = pow2(f) as int;
    lemma_field_bounds(b);
    lemma2_to64();
    lemma2_to64_rest();
    lemma_pow2_pos(p);
    lemma_pow2_pos(f);
    lemma_pow2_adds(p, f);
    assert(pp * pf == pow2(1074));
    let s = scaled_mag(b);
    lemma_mul_is_commutative(m_val, pp);
    lemma_truncate_middle(m_val, pp, pf);
    assert((pp * m_val) % (pp * pf) == pp * (m_val % pf));
    let r_m = m_val % pf;
    assert(s % pow2(1074) == pp * r_m);
    lemma_mod_pos_bound(m_val, pf);
    assert(0 <= r_m < pf);
    if p > 1022 {
        lemma_pow2_strictly_increases(1022, p);
    }
    assert(pow2(1022) <= pp);
    if r_m == 0 {
        lemma_pow2_pos(1022);
        assert(pp * r_m == 0) by (nonlinear_arith)
            requires
                r_m == 0,
        ;
        assert(near_integer_bits(b));
    } else {
        assert(pp <= pp * r_m && pp * r_m <= pp * (pf - 1)) by (nonlinear_arith)
            requires
                0 < pp,
                1 <= r_m <= pf - 1,
        ;
        assert(pp * (pf - 1) == pp * pf - pp) by (nonlinear_arith);
        assert(!(s % pow2(1074) < pow2(1022)));
        assert(pow2(1074) - s % pow2(1074) >= pp);
        assert(!near_integer_bits(b));
    }
}

impl IsInteger for Binary64 {
    open spec fn is_integer_spec(self) -> bool {
        near_integer_bits(self.bits)
    }

    fn is_integer(self) -> (r: bool) {
        let e: u64 = (self.bits >> 52) & 0x7ff;
        let m: u64 = self.bits & 0xf_ffff_ffff_ffff;
        if e == 0x7ff {
            false
        } else if e >= 1075 {
            proof {
                lemma_huge_is_near(self.bits);
            }
            true
        } else if e >= 1023 {
            let f: u64 = 1075 - e;
            let whole: u64 = (1u64 << 52u64) | m;
            proof {
                lemma2_to64();
                lemma2_to64_rest();
                let bv = self.bits;
                assert(1u64 << 52u64 == 0x10_0000_0000_0000) by (bit_vector);
                assert(((1u64 << 52u64) | (bv & 0xf_ffff_ffff_ffff)) == (1u64 << 52u64) + (bv
                    & 0xf_ffff_ffff_ffff)) by (bit_vector);
                assert(whole == pow2(52) + m);
                if f < 52 {
                    lemma_pow2_strictly_increases(f as nat, 52);
                }
                lemma_u64_shl_is_mul(1u64, f);
                assert(1u64 << f == pow2(f as nat));
                lemma_pow2_pos(f as nat);
            }
            let mask: u64 = (1u64 << f) - 1;
            proof {
                assert(mask == low_bits_mask(f as nat));
                lemma_u64_low_bits_mask_is_mod(whole, f as nat);
                lemma_ordinary_near_iff_low_bits_clear(self.bits);
            }
            whole & mask == 0
        } else if e == 1022 {
            proof {
                lemma_below_one_near_iff_top(self.bits);
            }
            m == 0xf_ffff_ffff_ffff
        } else if e >= 971 {
            proof {
                lemma_low_mid_is_far(self.bits);
            }
            false
        } else {
            proof {
                lemma_tiny_is_near(self.bits);
            }
            true
        }
    }
}

} // verus!
