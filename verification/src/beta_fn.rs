//! Branch selection for the beta function B(x, y) = Γ(x)Γ(y)/Γ(x+y).
//!
//! When both arguments are strictly positive and finite the engine works in
//! the log domain, `exp(log Γ(x) + log Γ(y) - log Γ(x+y))`, which is the
//! numerically stable form.  Everything else — infinities of either sign,
//! NaN, and non-positive arguments that must inherit the gamma function's
//! pole behaviour through the direct ratio — is a separate regime.  Naive
//! arithmetic on the infinite cases would produce NaN where the true limit
//! is 0 or +∞, so they are classified here, exactly, before any arithmetic
//! runs.

use vstd::prelude::*;
use crate::binary64::{
    Binary64, is_above_zero_bits, is_finite_bits, is_nan_bits, is_neg_infinite_bits,
    is_pos_infinite_bits,
};

verus! {

/// What the engine does for one pair of beta arguments.
#[derive(Clone, Copy, Debug, PartialEq, Eq, Structural)]
pub enum BetaBranch {
    /// The result is NaN outright: a NaN argument, or infinities of mixed
    /// sign.
    NanValue,
    /// The result is 0: a positive infinity among the arguments, the other
    /// one anything finite or +∞.
    ZeroValue,
    /// The result is +∞: a negative infinity among the arguments, the
    /// other one anything finite or -∞.
    PosInfValue,
    /// Both arguments strictly positive and finite: the log-domain formula
    /// `exp(log Γ(x) + log Γ(y) - log Γ(x+y))`.
    LogDomain,
    /// Both arguments finite, at least one non-positive: the direct ratio
    /// `gamma(x) · gamma(y) / gamma(x+y)`, which inherits pole and NaN
    /// behaviour from the gamma evaluator.
    DirectRatio,
}

/// The branch `beta` takes, as a function of the two arguments' classes.
/// NaN propagates first, whatever stands beside it; then the infinite
/// cases get their limit values; only finite pairs reach a formula.
pub open spec fn beta_branch_spec(a: u64, b: u64) -> BetaBranch {
    if is_nan_bits(a) || is_nan_bits(b) {
        BetaBranch::NanValue
    } else if (is_pos_infinite_bits(a) && is_neg_infinite_bits(b)) || (is_neg_infinite_bits(a)
        && is_pos_infinite_bits(b)) {
        BetaBranch::NanValue
    } else if is_pos_infinite_bits(a) || is_pos_infinite_bits(b) {
        BetaBranch::ZeroValue
    } else if is_neg_infinite_bits(a) || is_neg_infinite_bits(b) {
        BetaBranch::PosInfValue
    } else if is_above_zero_bits(a) && is_above_zero_bits(b) {
        BetaBranch::LogDomain
    } else {
        BetaBranch::DirectRatio
    }
}

pub fn beta_branch(x: Binary64, y: Binary64) -> (r: BetaBranch)
    ensures
        r == beta_branch_spec(x.bits, y.bits),
{
    if x.is_nan() || y.is_nan() {
        BetaBranch::NanValue
    } else if (x.is_pos_infinite() && y.is_neg_infinite()) || (x.is_neg_infinite()
        && y.is_pos_infinite()) {
        BetaBranch::NanValue
    } else if x.is_pos_infinite() || y.is_pos_infinite() {
        BetaBranch::ZeroValue
    } else if x.is_neg_infinite() || y.is_neg_infinite() {
        BetaBranch::PosInfValue
    } else if x.is_above_zero() && y.is_above_zero() {
        BetaBranch::LogDomain
    } else {
        BetaBranch::DirectRatio
    }
}

/// B(x, y) = B(y, x) holds of the branch table outright: the two arguments
/// are classified symmetrically, for every pair of bit patterns, poles and
/// infinities included.  The two formula branches are themselves symmetric
/// in their arguments, so the whole selection is.
pub proof fn lemma_beta_branch_symmetric(a: u64, b: u64)
    ensures
        beta_branch_spec(a, b) == beta_branch_spec(b, a),
{
}

/// NaN never recovers: whatever the other argument holds, a NaN argument
/// routes the pair to the NaN result.
pub proof fn lemma_beta_nan_propagates(a: u64, b: u64)
    requires
        is_nan_bits(a) || is_nan_bits(b),
    ensures
        beta_branch_spec(a, b) == BetaBranch::NanValue,
{
}

/// Arithmetic on the arguments starts only when both are finite: every
/// pair that reaches one of the two formula branches is a pair of finite
/// values.
pub proof fn lemma_beta_formulas_see_finite_arguments(a: u64, b: u64)
    requires
        beta_branch_spec(a, b) == BetaBranch::LogDomain || beta_branch_spec(a, b)
            == BetaBranch::DirectRatio,
    ensures
        is_finite_bits(a) && is_finite_bits(b),
{
    assert(a >> 63 <= 1u64) by (bit_vector);
    assert(b >> 63 <= 1u64) by (bit_vector);
}

} // verus!
