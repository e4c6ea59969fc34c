//! The branch tables for gamma, log-gamma and beta, checked on concrete
//! arguments from every regime: ordinary domain, reflected domain, poles,
//! signed infinities and NaN.

use comonjo_mathfn::binary64::Binary64;
use comonjo_mathfn::beta_fn::{beta_branch, BetaBranch};
use comonjo_mathfn::gamma_fn::{gamma_branch, log_gamma_branch, GammaBranch, LogGammaBranch};

fn b64(x: f64) -> Binary64 {
    Binary64::new(x.to_bits())
}

#[test]
fn gamma_branches_at_ordinary_points() {
    // The factorial points and the half-integers run the positive-domain
    // formula.
    for &x in &[1.0, 2.0, 5.0, 0.5, 1.5, 2.5, 20.0, 1e-8] {
        assert_eq!(gamma_branch(b64(x)), GammaBranch::PositiveDomain, "at {}", x);
    }
    // Negative half-integers run the reflection formula.
    for &x in &[-0.5, -1.5, -2.5, -3.7] {
        assert_eq!(gamma_branch(b64(x)), GammaBranch::Reflection, "at {}", x);
    }
}

#[test]
fn gamma_branches_at_poles() {
    // Zero and the negative integers are poles, and so is anything within
    // the machine epsilon of one.
    for n in 0..=5 {
        let x = -(n as f64);
        assert_eq!(gamma_branch(b64(x)), GammaBranch::Pole, "at {}", x);
    }
    assert_eq!(gamma_branch(b64(-0.0)), GammaBranch::Pole);
    assert_eq!(gamma_branch(b64(-1.0 + f64::EPSILON / 4.0)), GammaBranch::Pole);
    // A positive value that close to zero still belongs to the positive
    // domain: the strict sign test is asked first.
    assert_eq!(gamma_branch(b64(f64::EPSILON / 4.0)), GammaBranch::PositiveDomain);
}

#[test]
fn gamma_branches_at_non_finite_arguments() {
    assert_eq!(gamma_branch(b64(f64::INFINITY)), GammaBranch::PosInfValue);
    assert_eq!(gamma_branch(b64(f64::NEG_INFINITY)), GammaBranch::NanValue);
    assert_eq!(gamma_branch(b64(f64::NAN)), GammaBranch::NanValue);
    assert_eq!(gamma_branch(b64(-f64::NAN)), GammaBranch::NanValue);
}

#[test]
fn log_gamma_branches() {
    assert_eq!(log_gamma_branch(b64(f64::INFINITY)), LogGammaBranch::PosInfValue);
    assert_eq!(log_gamma_branch(b64(f64::NEG_INFINITY)), LogGammaBranch::NanValue);
    assert_eq!(log_gamma_branch(b64(f64::NAN)), LogGammaBranch::NanValue);
    for &x in &[1.0, 8.0, 0.5, 0.0, -1.0, -0.5, -2.5] {
        assert_eq!(log_gamma_branch(b64(x)), LogGammaBranch::StirlingSeries, "at {}", x);
    }
}

#[test]
fn beta_branches_at_finite_arguments() {
    // Both strictly positive: the log-domain formula (the π point among
    // them).
    for &(x, y) in &[(0.5, 0.5), (1.0, 1.0), (2.0, 1.0), (1.0, 2.0), (3.0, 4.5)] {
        assert_eq!(beta_branch(b64(x), b64(y)), BetaBranch::LogDomain, "at ({}, {})", x, y);
    }
    // A non-positive argument on either side: the direct gamma ratio,
    // which carries the pole behaviour.
    for n in 0..=5 {
        let x = -(n as f64);
        assert_eq!(beta_branch(b64(x), b64(2.5)), BetaBranch::DirectRatio, "at ({}, 2.5)", x);
        assert_eq!(beta_branch(b64(2.5), b64(x)), BetaBranch::DirectRatio, "at (2.5, {})", x);
    }
    assert_eq!(beta_branch(b64(-3.0), b64(1.0)), BetaBranch::DirectRatio);
    assert_eq!(beta_branch(b64(0.0), b64(0.0)), BetaBranch::DirectRatio);
}

#[test]
fn beta_branches_at_infinities_and_nan() {
    let inf = f64::INFINITY;
    // NaN beside anything, mixed infinities included, stays NaN.
    for &y in &[f64::NAN, inf, -inf, 0.5, -3.0] {
        assert_eq!(beta_branch(b64(f64::NAN), b64(y)), BetaBranch::NanValue, "at (NaN, {})", y);
        assert_eq!(beta_branch(b64(y), b64(f64::NAN)), BetaBranch::NanValue, "at ({}, NaN)", y);
    }
    // Infinities of mixed sign have no limit.
    assert_eq!(beta_branch(b64(inf), b64(-inf)), BetaBranch::NanValue);
    assert_eq!(beta_branch(b64(-inf), b64(inf)), BetaBranch::NanValue);
    // A positive infinity sends the value to zero.
    assert_eq!(beta_branch(b64(inf), b64(inf)), BetaBranch::ZeroValue);
    assert_eq!(beta_branch(b64(inf), b64(0.5)), BetaBranch::ZeroValue);
    assert_eq!(beta_branch(b64(0.5), b64(inf)), BetaBranch::ZeroValue);
    assert_eq!(beta_branch(b64(inf), b64(-2.5)), BetaBranch::ZeroValue);
    // A negative infinity, absent a positive one, diverges to +infinity.
    assert_eq!(beta_branch(b64(-inf), b64(-inf)), BetaBranch::PosInfValue);
    assert_eq!(beta_branch(b64(-inf), b64(0.5)), BetaBranch::PosInfValue);
    assert_eq!(beta_branch(b64(0.5), b64(-inf)), BetaBranch::PosInfValue);
}

#[test]
fn beta_branch_is_symmetric_on_a_grid() {
    let values: &[f64] = &[
        f64::NAN,
        f64::INFINITY,
        f64::NEG_INFINITY,
        -2.0,
        -1.5,
        -0.0,
        0.0,
        0.5,
        1.0,
        3.25,
        1e300,
    ];
    for &x in values {
        for &y in values {
            assert_eq!(
                beta_branch(b64(x), b64(y)),
                beta_branch(b64(y), b64(x)),
                "asymmetry at ({}, {})",
                x,
                y
            );
        }
    }
}
