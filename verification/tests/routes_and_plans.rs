//! The incomplete-gamma routes, the derived-function plans and their
//! complement relations, checked on concrete flag values and by running
//! the affine combinations on a sample evaluation.

use comonjo_mathfn::binary64::Binary64;
use comonjo_mathfn::ibeta_fn::{inc_beta_route, IncBetaRoute};
use comonjo_mathfn::igamma_fn::{
    erf_plan, erfc_plan, p_gamma_route, p_normal_plan, q_gamma_route, q_normal_plan, GaussPlan,
    IncGammaRoute,
};

fn b64(x: f64) -> Binary64 {
    Binary64::new(x.to_bits())
}

/// Runs a plan the way the engine does, on a given lower evaluation `p`
/// (the upper one is its exact complement within one routing pair).
fn run_plan(plan: GaussPlan, p: f64) -> f64 {
    let e = if plan.lower { p } else { 1.0 - p };
    (plan.offset2 as f64 + plan.scale2 as f64 * e) / 2.0
}

#[test]
fn incomplete_gamma_routes() {
    // Series regime, x away from zero.
    assert_eq!(p_gamma_route(false, false), IncGammaRoute::SeriesDirect);
    assert_eq!(q_gamma_route(false, false), IncGammaRoute::SeriesComplement);
    // Series regime at x = 0: the fixed endpoint values.
    assert_eq!(p_gamma_route(false, true), IncGammaRoute::ZeroConstant);
    assert_eq!(q_gamma_route(false, true), IncGammaRoute::OneConstant);
    // Continued-fraction regime.
    assert_eq!(p_gamma_route(true, false), IncGammaRoute::FractionComplement);
    assert_eq!(q_gamma_route(true, false), IncGammaRoute::FractionDirect);
    assert_eq!(p_gamma_route(true, true), IncGammaRoute::FractionComplement);
    assert_eq!(q_gamma_route(true, true), IncGammaRoute::FractionDirect);
}

#[test]
fn p_and_q_routes_complement_each_other() {
    // In every regime the two routes read one evaluator, one of them
    // through `1 - `, so the computed pair sums to one exactly.
    for &(fraction_regime, x_zero) in
        &[(false, false), (false, true), (true, false), (true, true)]
    {
        let p_route = p_gamma_route(fraction_regime, x_zero);
        let q_route = q_gamma_route(fraction_regime, x_zero);
        let sample: f64 = 0.375;
        let p_val = match p_route {
            IncGammaRoute::ZeroConstant => 0.0,
            IncGammaRoute::OneConstant => 1.0,
            IncGammaRoute::SeriesDirect | IncGammaRoute::FractionDirect => sample,
            IncGammaRoute::SeriesComplement | IncGammaRoute::FractionComplement => 1.0 - sample,
        };
        let q_val = match q_route {
            IncGammaRoute::ZeroConstant => 0.0,
            IncGammaRoute::OneConstant => 1.0,
            IncGammaRoute::SeriesDirect | IncGammaRoute::FractionDirect => sample,
            IncGammaRoute::SeriesComplement | IncGammaRoute::FractionComplement => 1.0 - sample,
        };
        assert_eq!(p_val + q_val, 1.0, "at regime ({}, {})", fraction_regime, x_zero);
    }
}

#[test]
fn gauss_plans_select_the_documented_branches() {
    // erf: P(1/2, x²) with the sign of x.
    assert_eq!(erf_plan(b64(1.5)), GaussPlan { lower: true, offset2: 0, scale2: 2 });
    assert_eq!(erf_plan(b64(-1.5)), GaussPlan { lower: true, offset2: 0, scale2: -2 });
    // A negative zero passes the `x >= 0.0` test, as in the engine.
    assert_eq!(erf_plan(b64(-0.0)), erf_plan(b64(0.0)));
    // erfc: Q on the right, 1 + P on the left.
    assert_eq!(erfc_plan(b64(2.0)), GaussPlan { lower: false, offset2: 0, scale2: 2 });
    assert_eq!(erfc_plan(b64(-2.0)), GaussPlan { lower: true, offset2: 2, scale2: 2 });
    // The normal CDFs mirror each other across zero.
    assert_eq!(p_normal_plan(b64(0.7)), q_normal_plan(b64(-0.7)));
    assert_eq!(q_normal_plan(b64(0.7)), p_normal_plan(b64(-0.7)));
    assert_eq!(p_normal_plan(b64(0.7)), GaussPlan { lower: true, offset2: 1, scale2: 1 });
    assert_eq!(p_normal_plan(b64(-0.7)), GaussPlan { lower: false, offset2: 0, scale2: 1 });
}

#[test]
fn erfc_complements_erf_on_both_sides() {
    for &x in &[2.25, -2.25] {
        let sample: f64 = 0.375;
        let erf_val = run_plan(erf_plan(b64(x)), sample);
        let erfc_val = run_plan(erfc_plan(b64(x)), sample);
        assert_eq!(erfc_val, 1.0 - erf_val, "at {}", x);
    }
}

#[test]
fn q_normal_complements_p_normal_on_both_sides() {
    for &x in &[0.9, -0.9] {
        let sample: f64 = 0.375;
        let p_val = run_plan(p_normal_plan(b64(x)), sample);
        let q_val = run_plan(q_normal_plan(b64(x)), sample);
        assert_eq!(q_val, 1.0 - p_val, "at {}", x);
    }
}

#[test]
fn p_normal_is_half_one_plus_erf_on_both_sides() {
    // Both plans read one evaluation at x²/2 = (x/√2)², and x/√2 keeps the
    // sign of x, so the same sample stands on both sides.
    for &x in &[1.3, -1.3] {
        let sample: f64 = 0.375;
        let p_val = run_plan(p_normal_plan(b64(x)), sample);
        let erf_val = run_plan(erf_plan(b64(x)), sample);
        assert_eq!(p_val, (1.0 + erf_val) / 2.0, "at {}", x);
    }
}

#[test]
fn incomplete_beta_routes_complement_across_the_crossover() {
    assert_eq!(inc_beta_route(true), IncBetaRoute::FractionDirect);
    assert_eq!(inc_beta_route(false), IncBetaRoute::SwappedComplement);
    // Off the crossover, (x; a, b) and (1-x; b, a) test on opposite sides:
    // one runs the fraction, the other returns one minus it.
    for &below in &[true, false] {
        let below_swapped = !below;
        let direct = inc_beta_route(below) == IncBetaRoute::FractionDirect;
        let swapped_complement =
            inc_beta_route(below_swapped) == IncBetaRoute::SwappedComplement;
        assert_eq!(direct, swapped_complement);
    }
}
