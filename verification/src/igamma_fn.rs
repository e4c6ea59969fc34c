//! Routing for the regularized incomplete gamma functions and the
//! transforms derived from them.
//!
//! The engine has two evaluators for the regularized pair P(s, x), Q(s, x):
//! a power series, convergent while `x < 1 + s`, and a continued fraction,
//! convergent from `x >= 1 + s` up.  Each of P and Q delegates to the
//! complement of the other outside its own regime, so every evaluation runs
//! exactly one evaluator and at most one subtraction from one.  That
//! routing, and the sign-splitting affine combinations that turn the pair
//! into erf, erfc and the normal distribution's two CDFs, are decided and
//! related here.  The chi-square CDFs reuse the same routes at shape `k/2`
//! and point `x/2`.

use vstd::prelude::*;
use crate::binary64::{Binary64, is_at_least_zero_bits};

verus! {

/// How one regularized incomplete-gamma value is produced.
#[derive(Clone, Copy, Debug, PartialEq, Eq, Structural)]
pub enum IncGammaRoute {
    /// The fixed value 0 (the lower function at x = 0).
    ZeroConstant,
    /// The fixed value 1 (the upper function at x = 0).
    OneConstant,
    /// The power series, taken as it stands.
    SeriesDirect,
    /// One minus the power series.
    SeriesComplement,
    /// The continued fraction, taken as it stands.
    FractionDirect,
    /// One minus the continued fraction.
    FractionComplement,
}

/// The route for P(s, x), the regularized lower function, given the two
/// discrete facts the engine tests: whether `x >= 1 + s` (the continued
/// fraction's regime) and whether `x == 0`.
pub open spec fn p_gamma_route_spec(fraction_regime: bool, x_zero: bool) -> IncGammaRoute {
    if fraction_regime {
        IncGammaRoute::FractionComplement
    } else if x_zero {
        IncGammaRoute::ZeroConstant
    } else {
        IncGammaRoute::SeriesDirect
    }
}

/// The route for Q(s, x), the regularized upper function, under the same
/// two facts.
pub open spec fn q_gamma_route_spec(fraction_regime: bool, x_zero: bool) -> IncGammaRoute {
    if fraction_regime {
        IncGammaRoute::FractionDirect
    } else if x_zero {
        IncGammaRoute::OneConstant
    } else {
        IncGammaRoute::SeriesComplement
    }
}

pub fn p_gamma_route(fraction_regime: bool, x_zero: bool) -> (r: IncGammaRoute)
    ensures
        r == p_gamma_route_spec(fraction_regime, x_zero),
{
    if fraction_regime {
        IncGammaRoute::FractionComplement
    } else if x_zero {
        IncGammaRoute::ZeroConstant
    } else {
        IncGammaRoute::SeriesDirect
    }
}

pub fn q_gamma_route(fraction_regime: bool, x_zero: bool) -> (r: IncGammaRoute)
    ensures
        r == q_gamma_route_spec(fraction_regime, x_zero),
{
    if fraction_regime {
        IncGammaRoute::FractionDirect
    } else if x_zero {
        IncGammaRoute::OneConstant
    } else {
        IncGammaRoute::SeriesComplement
    }
}

/// The route that stands for one minus a given route's value.
pub open spec fn complement_route(r: IncGammaRoute) -> IncGammaRoute {
    match r {
        IncGammaRoute::ZeroConstant => IncGammaRoute::OneConstant,
        IncGammaRoute::OneConstant => IncGammaRoute::ZeroConstant,
        IncGammaRoute::SeriesDirect => IncGammaRoute::SeriesComplement,
        IncGammaRoute::SeriesComplement => IncGammaRoute::SeriesDirect,
        IncGammaRoute::FractionDirect => IncGammaRoute::FractionComplement,
        IncGammaRoute::FractionComplement => IncGammaRoute::FractionDirect,
    }
}

/// P + Q = 1 by construction: in every regime — series, fraction, or the
/// point x = 0 — the two functions route to complementary plans over one
/// and the same evaluator run, so the pair never evaluates both expansions
/// and their results are exact complements of a single value.  The
/// chi-square CDF pair inherits this wholesale, since `p_chi2` and
/// `q_chi2` take these routes at shape `k/2` and point `x/2`.
pub proof fn lemma_q_gamma_complements_p_gamma(fraction_regime: bool, x_zero: bool)
    ensures
        q_gamma_route_spec(fraction_regime, x_zero) == complement_route(
            p_gamma_route_spec(fraction_regime, x_zero),
        ),
{
}

/// An affine plan over one regularized incomplete-gamma evaluation: the
/// engine computes `(offset2 + scale2 · E) / 2`, where E is P(1/2, t) when
/// `lower` holds and Q(1/2, t) otherwise, at an argument t fixed by the
/// derived function (x² for the error functions, x²/2 for the normal CDFs).
#[derive(Clone, Copy, Debug, PartialEq, Eq, Structural)]
pub struct GaussPlan {
    /// Which of the regularized pair is evaluated.
    pub lower: bool,
    /// Twice the constant term of the affine combination.
    pub offset2: i64,
    /// Twice the coefficient the evaluation is scaled by.
    pub scale2: i64,
}

/// The plan for erf(x), split on the sign test `x >= 0.0`: the error
/// function is P(1/2, x²) on the non-negative side and odd across zero.
pub open spec fn erf_plan_spec(nonneg: bool) -> GaussPlan {
    if nonneg {
        GaussPlan { lower: true, offset2: 0, scale2: 2 }
    } else {
        GaussPlan { lower: true, offset2: 0, scale2: -2i64 }
    }
}

/// The plan for erfc(x): Q(1/2, x²) on the non-negative side, 1 + P(1/2, x²)
/// on the negative side, each the branch that stays convergent there.
pub open spec fn erfc_plan_spec(nonneg: bool) -> GaussPlan {
    if nonneg {
        GaussPlan { lower: false, offset2: 0, scale2: 2 }
    } else {
        GaussPlan { lower: true, offset2: 2, scale2: 2 }
    }
}

/// The plan for the normal CDF p_normal(x): (1 + P(1/2, x²/2)) / 2 on the
/// non-negative side, Q(1/2, x²/2) / 2 on the negative side.
pub open spec fn p_normal_plan_spec(nonneg: bool) -> GaussPlan {
    if nonneg {
        GaussPlan { lower: true, offset2: 1, scale2: 1 }
    } else {
        GaussPlan { lower: false, offset2: 0, scale2: 1 }
    }
}

/// The plan for the complementary normal CDF q_normal(x): the mirror image
/// of `p_normal_plan_spec` across zero.
pub open spec fn q_normal_plan_spec(nonneg: bool) -> GaussPlan {
    if nonneg {
        GaussPlan { lower: false, offset2: 0, scale2: 1 }
    } else {
        GaussPlan { lower: true, offset2: 1, scale2: 1 }
    }
}

pub fn erf_plan(x: Binary64) -> (r: GaussPlan)
    ensures
        r == erf_plan_spec(is_at_least_zero_bits(x.bits)),
{
    if x.is_at_least_zero() {
        GaussPlan { lower: true, offset2: 0, scale2: 2 }
    } else {
        GaussPlan { lower: true, offset2: 0, scale2: -2i64 }
    }
}

pub fn erfc_plan(x: Binary64) -> (r: GaussPlan)
    ensures
        r == erfc_plan_spec(is_at_least_zero_bits(x.bits)),
{
    if x.is_at_least_zero() {
        GaussPlan { lower: false, offset2: 0, scale2: 2 }
    } else {
        GaussPlan { lower: true, offset2: 2, scale2: 2 }
    }
}

pub fn p_normal_plan(x: Binary64) -> (r: GaussPlan)
    ensures
        r == p_normal_plan_spec(is_at_least_zero_bits(x.bits)),
{
    if x.is_at_least_zero() {
        GaussPlan { lower: true, offset2: 1, scale2: 1 }
    } else {
        GaussPlan { lower: false, offset2: 0, scale2: 1 }
    }
}

pub fn q_normal_plan(x: Binary64) -> (r: GaussPlan)
    ensures
        r == q_normal_plan_spec(is_at_least_zero_bits(x.bits)),
{
    if x.is_at_least_zero() {
        GaussPlan { lower: false, offset2: 0, scale2: 1 }
    } else {
        GaussPlan { lower: true, offset2: 1, scale2: 1 }
    }
}

/// A plan's value written over the lower evaluation alone: the pair
/// (c, k) with value `(c + k·p) / 2`, where p = P(1/2, t) and the upper
/// value is written as its complement 1 - p, which the evaluation routes
/// guarantee.
pub open spec fn plan_canonical(pl: GaussPlan) -> (int, int) {
    if pl.lower {
        (pl.offset2 as int, pl.scale2 as int)
    } else {
        (pl.offset2 + pl.scale2, -(pl.scale2 as int))
    }
}

/// erfc(x) = 1 - erf(x), on both sides of zero: at every sign, the two
/// plans read the evaluator at the same argument x², and their canonical
/// forms (c, k) and (c', k') satisfy c' = 2 - c, k' = -k — which is
/// exactly the affine relation `1 - value`.
pub proof fn lemma_erfc_complements_erf(nonneg: bool)
    ensures
        plan_canonical(erfc_plan_spec(nonneg)).0 == 2 - plan_canonical(erf_plan_spec(nonneg)).0,
        plan_canonical(erfc_plan_spec(nonneg)).1 == -plan_canonical(erf_plan_spec(nonneg)).1,
{
}

/// q_normal(x) = 1 - p_normal(x), on both sides of zero, by the same
/// affine relation over one evaluation of the pair at x²/2.
pub proof fn lemma_q_normal_complements_p_normal(nonneg: bool)
    ensures
        plan_canonical(q_normal_plan_spec(nonneg)).0 == 2 - plan_canonical(
            p_normal_plan_spec(nonneg),
        ).0,
        plan_canonical(q_normal_plan_spec(nonneg)).1 == -plan_canonical(
            p_normal_plan_spec(nonneg),
        ).1,
{
}

/// p_normal(x) = (1 + erf(x/√2)) / 2, on both sides of zero: x and x/√2
/// share a sign, and both plans read one evaluation at x²/2 = (x/√2)², so
/// the relation is affine; the canonical forms satisfy 2c = 2 + c' and
/// 2k = k'.
pub proof fn lemma_p_normal_halves_one_plus_erf(nonneg: bool)
    ensures
        2 * plan_canonical(p_normal_plan_spec(nonneg)).0 == 2 + plan_canonical(
            erf_plan_spec(nonneg),
        ).0,
        2 * plan_canonical(p_normal_plan_spec(nonneg)).1 == plan_canonical(
            erf_plan_spec(nonneg),
        ).1,
{
}

} // verus!
