//! Decision logic for the local refiners that start from an initial guess.
//!
//! Newton's method and the secant method share one loop shape: refine the
//! estimate until either of two convergence measures falls within the
//! tolerance, or a fixed iteration cap is reached. Exhausting the cap is
//! not an error — the best current estimate is returned, and a caller who
//! needs a guarantee checks the residual itself. The caller computes the
//! two floating-point convergence tests and hands their outcomes in; the
//! rule below decides whether the loop takes another step.

use vstd::prelude::*;

verus! {

/// The fixed safety cap on refinement iterations for the local refiners
/// that start from an initial guess rather than a bracket.
pub const MAX_REFINE_ITERATIONS: u64 = 100;

/// Whether a guess-based refinement loop takes another step: it goes on
/// only while neither convergence measure is within tolerance
/// (`first_converged`, `second_converged` — for Newton's method the
/// residual and the derivative magnitude, for the secant method the step
/// width and the value difference) and the iteration cap is not yet
/// reached.
pub fn refine_continues(first_converged: bool, second_converged: bool, iterations: u64) -> (r:
    bool)
    ensures
        r == (!first_converged && !second_converged && iterations < MAX_REFINE_ITERATIONS),
{
    !first_converged && !second_converged && iterations < MAX_REFINE_ITERATIONS
}

} // verus!
