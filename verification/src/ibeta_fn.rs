//! Routing for the regularized incomplete beta function I(x; a, b).
//!
//! The engine evaluates I through a continued fraction (Lentz's algorithm
//! on the beta continued fraction), which converges fast only while x lies
//! below the crossover `(a + 1) / (a + b + 2)`.  Above it, the symmetry
//! I(x; a, b) = 1 - I(1-x; b, a) routes the evaluation into the convergent
//! half.  The crossover test is the one discrete fact the engine reads,
//! and the route it selects is decided here.

use vstd::prelude::*;

verus! {

/// How one regularized incomplete-beta value is produced.
#[derive(Clone, Copy, Debug, PartialEq, Eq, Structural)]
pub enum IncBetaRoute {
    /// x below the crossover: the continued fraction at (x; a, b), taken
    /// as it stands.
    FractionDirect,
    /// x at or above the crossover: one minus the continued fraction at
    /// the reflected arguments (1-x; b, a).
    SwappedComplement,
}

/// The route for I(x; a, b), given the crossover test
/// `x < (a + 1) / (a + b + 2)`.
pub open spec fn inc_beta_route_spec(below_crossover: bool) -> IncBetaRoute {
    if below_crossover {
        IncBetaRoute::FractionDirect
    } else {
        IncBetaRoute::SwappedComplement
    }
}

pub fn inc_beta_route(below_crossover: bool) -> (r: IncBetaRoute)
    ensures
        r == inc_beta_route_spec(below_crossover),
{
    if below_crossover {
        IncBetaRoute::FractionDirect
    } else {
        IncBetaRoute::SwappedComplement
    }
}

/// The symmetry I(x; a, b) = 1 - I(1-x; b, a) at routing level.  The two
/// crossover thresholds sum to one, so for arguments off the threshold
/// exactly one of the pair (x; a, b), (1-x; b, a) tests below its
/// crossover: one member runs the continued fraction directly and the
/// other returns one minus that same fraction.  A pair on the threshold
/// itself tests below on neither side and is left out here.
pub proof fn lemma_inc_beta_routes_complement(below: bool, below_swapped: bool)
    requires
        below != below_swapped,
    ensures
        (inc_beta_route_spec(below) == IncBetaRoute::FractionDirect) == (inc_beta_route_spec(
            below_swapped,
        ) == IncBetaRoute::SwappedComplement),
{
}

} // verus!
