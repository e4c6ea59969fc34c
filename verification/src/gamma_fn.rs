//! Branch selection for the gamma function and its logarithm.
//!
//! The engine computes log Γ(x) by a Stirling-type series after shifting the
//! argument upward, and Γ(x) either as `exp(log Γ(x))` (positive domain) or
//! through the reflection formula `π / (sin(πx) · exp(log Γ(1-x)))`
//! (negative non-integer domain).  Which of those formulas runs — or whether
//! the argument is a pole, an infinity or NaN and gets its fixed result —
//! depends only on the argument's bit pattern, and is decided here.
//!
//! The pole policy is the canonical one: Γ at a non-positive integer (or at
//! a value within the machine epsilon of one) answers NaN.

use vstd::prelude::*;
use crate::binary64::{
    Binary64, is_above_zero_bits, is_finite_bits, is_nan_bits, is_neg_infinite_bits,
    is_pos_infinite_bits, near_integer_bits,
};
use crate::integer_util::IsInteger;

verus! {

/// What the engine does for one log-gamma argument.
#[derive(Clone, Copy, Debug, PartialEq, Eq, Structural)]
pub enum LogGammaBranch {
    /// The result is NaN outright: a NaN argument, or negative infinity.
    NanValue,
    /// The result is positive infinity: log Γ(+∞) = +∞.
    PosInfValue,
    /// A finite argument: shift it into the convergent range and run the
    /// Stirling-type series.
    StirlingSeries,
}

/// The branch `log_gamma` takes, as a function of the argument's class.
/// NaN propagates, +∞ maps to +∞, -∞ to NaN, and every finite argument is
/// handed to the series (which itself yields +∞ at the non-positive
/// integers and NaN on the negative half-lines it is not defined on).
pub open spec fn log_gamma_branch_spec(b: u64) -> LogGammaBranch {
    if is_nan_bits(b) || is_neg_infinite_bits(b) {
        LogGammaBranch::NanValue
    } else if is_pos_infinite_bits(b) {
        LogGammaBranch::PosInfValue
    } else {
        LogGammaBranch::StirlingSeries
    }
}

pub fn log_gamma_branch(x: Binary64) -> (r: LogGammaBranch)
    ensures
        r == log_gamma_branch_spec(x.bits),
{
    if x.is_nan() || x.is_neg_infinite() {
        LogGammaBranch::NanValue
    } else if x.is_pos_infinite() {
        LogGammaBranch::PosInfValue
    } else {
        LogGammaBranch::StirlingSeries
    }
}

/// What the engine does for one gamma argument.
#[derive(Clone, Copy, Debug, PartialEq, Eq, Structural)]
pub enum GammaBranch {
    /// The result is NaN outright: a NaN argument, or negative infinity.
    NanValue,
    /// The result is positive infinity: Γ(+∞) = +∞.
    PosInfValue,
    /// Strictly positive finite argument: `exp(log Γ(x))`.
    PositiveDomain,
    /// A non-positive integer, or within the machine epsilon of one: a true
    /// pole, answered with NaN.
    Pole,
    /// Negative non-integer argument: the reflection formula
    /// `π / (sin(πx) · exp(log Γ(1-x)))`.
    Reflection,
}

/// The branch `gamma` takes, as a function of the argument's class.  The
/// positive domain is claimed first, exactly as the strict test `x > 0.0`
/// does, so a tiny positive value close to zero still runs the ordinary
/// formula; only then is a non-positive near-integer declared a pole.
pub open spec fn gamma_branch_spec(b: u64) -> GammaBranch {
    if is_nan_bits(b) {
        GammaBranch::NanValue
    } else if is_pos_infinite_bits(b) {
        GammaBranch::PosInfValue
    } else if is_neg_infinite_bits(b) {
        GammaBranch::NanValue
    } else if is_above_zero_bits(b) {
        GammaBranch::PositiveDomain
    } else if near_integer_bits(b) {
        GammaBranch::Pole
    } else {
        GammaBranch::Reflection
    }
}

pub fn gamma_branch(x: Binary64) -> (r: GammaBranch)
    ensures
        r == gamma_branch_spec(x.bits),
{
    if x.is_nan() {
        GammaBranch::NanValue
    } else if x.is_pos_infinite() {
        GammaBranch::PosInfValue
    } else if x.is_neg_infinite() {
        GammaBranch::NanValue
    } else if x.is_above_zero() {
        GammaBranch::PositiveDomain
    } else if x.is_integer() {
        GammaBranch::Pole
    } else {
        GammaBranch::Reflection
    }
}

/// NaN never recovers: a NaN argument is routed to the NaN result, in both
/// evaluators, whatever its payload bits.
pub proof fn lemma_gamma_nan_propagates(b: u64)
    requires
        is_nan_bits(b),
    ensures
        gamma_branch_spec(b) == GammaBranch::NanValue,
        log_gamma_branch_spec(b) == LogGammaBranch::NanValue,
{
}

/// A pole never masquerades as convergence: the pole result is selected for
/// exactly the finite arguments that are non-positive (by the strict test)
/// and within the machine epsilon of a whole number, and no numeric branch
/// ever sees such an argument.
pub proof fn lemma_gamma_pole_exactly_at_non_positive_integers(b: u64)
    ensures
        (gamma_branch_spec(b) == GammaBranch::Pole) == (is_finite_bits(b)
            && !is_above_zero_bits(b) && near_integer_bits(b)),
{
    assert(b >> 63 <= 1u64) by (bit_vector);
}

/// The reflection formula is reserved for the arguments it is defined on:
/// finite, non-positive, and at least the machine epsilon away from every
/// whole number.
pub proof fn lemma_gamma_reflection_only_off_integers(b: u64)
    ensures
        (gamma_branch_spec(b) == GammaBranch::Reflection) == (is_finite_bits(b)
            && !is_above_zero_bits(b) && !near_integer_bits(b)),
{
    assert(b >> 63 <= 1u64) by (bit_vector);
}

} // verus!
