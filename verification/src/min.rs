//! Decision logic for Brent's derivative-free minimization.
//!
//! Brent's method keeps a best, second-best and third-best point inside a
//! shrinking interval, trying an inverse-parabolic step where the recent
//! history justifies it and falling back to a golden-section step
//! otherwise. After each trial evaluation the interval and the three
//! tracked points are updated by exact case analysis on a handful of
//! comparisons; that bookkeeping is what this module states and verifies.
//! The caller evaluates the target function, performs the floating-point
//! arithmetic and comparisons, and hands the outcomes in as plain values.

use vstd::prelude::*;

verus! {

/// The running state of Brent's minimization: the interval `[a, b]` known
/// to contain a minimum, the best point `x`, the second-best `w` and the
/// third-best `v`, with their function values `fx`, `fw` and `fv`.
#[derive(Debug, PartialEq)]
pub struct BrentState<T> {
    /// Left end of the interval being shrunk.
    pub a: T,
    /// Right end of the interval being shrunk.
    pub b: T,
    /// Third-best point seen so far.
    pub v: T,
    /// Second-best point seen so far.
    pub w: T,
    /// Best point seen so far.
    pub x: T,
    /// Function value at `v`.
    pub fv: T,
    /// Function value at `w`.
    pub fw: T,
    /// Function value at `x`.
    pub fx: T,
}

/// Chooses the next trial step. The parabolic step is preferred, but only
/// when the step taken two iterations ago was still large enough to make
/// the history trustworthy (`prior_span_exceeds_tol`) and the fitted
/// parabola passes the acceptability tests (`parabola_acceptable`: its step
/// is small against the step two iterations back and lands strictly inside
/// the interval). Even then, a parabolic trial that would land within the
/// minimal spacing of an interval end is pulled to that spacing
/// (`nudge_d`). In every other case the method falls back to the
/// golden-section step, and the span it divided becomes the new prior span.
///
/// Returns the chosen step together with the span recorded for the next
/// round: the golden-section span on a fallback, the previous step
/// (`prior_d`) on a parabolic trial.
pub fn brent_trial<T: Copy>(
    prior_span_exceeds_tol: bool,
    parabola_acceptable: bool,
    trial_near_bound: bool,
    golden_d: T,
    golden_span: T,
    parabolic_d: T,
    nudge_d: T,
    prior_d: T,
) -> (r: (T, T))
    ensures
        !(prior_span_exceeds_tol && parabola_acceptable) ==> r == (golden_d, golden_span),
        prior_span_exceeds_tol && parabola_acceptable && !trial_near_bound ==> r == (
            parabolic_d,
            prior_d,
        ),
        prior_span_exceeds_tol && parabola_acceptable && trial_near_bound ==> r == (
            nudge_d,
            prior_d,
        ),
{
    if prior_span_exceeds_tol && parabola_acceptable {
        if trial_near_bound {
            (nudge_d, prior_d)
        } else {
            (parabolic_d, prior_d)
        }
    } else {
        (golden_d, golden_span)
    }
}

/// First half of the bookkeeping after a trial evaluation at `u`.
///
/// If the trial is no worse than the best point (`trial_no_worse`), the
/// trial becomes the best point, the former best and second-best move down
/// one rank, and the former best becomes the interval end on the side the
/// trial did not come from (`trial_right_of_best` says which side that is).
/// If the trial is worse, the points keep their ranks and the trial itself
/// closes the interval on its own side.
pub fn brent_accept<T: Copy>(
    st: BrentState<T>,
    u: T,
    fu: T,
    trial_no_worse: bool,
    trial_right_of_best: bool,
) -> (r: BrentState<T>)
    ensures
        trial_no_worse && trial_right_of_best ==> r == (BrentState {
            a: st.x,
            b: st.b,
            v: st.w,
            w: st.x,
            x: u,
            fv: st.fw,
            fw: st.fx,
            fx: fu,
        }),
        trial_no_worse && !trial_right_of_best ==> r == (BrentState {
            a: st.a,
            b: st.x,
            v: st.w,
            w: st.x,
            x: u,
            fv: st.fw,
            fw: st.fx,
            fx: fu,
        }),
        !trial_no_worse && !trial_right_of_best ==> r == (BrentState { a: u, ..st }),
        !trial_no_worse && trial_right_of_best ==> r == (BrentState { b: u, ..st }),
{
    if trial_no_worse {
        if trial_right_of_best {
            BrentState {
                a: st.x,
                b: st.b,
                v: st.w,
                w: st.x,
                x: u,
                fv: st.fw,
                fw: st.fx,
                fx: fu,
            }
        } else {
            BrentState {
                a: st.a,
                b: st.x,
                v: st.w,
                w: st.x,
                x: u,
                fv: st.fw,
                fw: st.fx,
                fx: fu,
            }
        }
    } else {
        if !trial_right_of_best {
            BrentState { a: u, ..st }
        } else {
            BrentState { b: u, ..st }
        }
    }
}

/// Second half of the bookkeeping: whether the trial displaces the
/// second-best or the third-best point, judged on the state `brent_accept`
/// produced.
///
/// The trial replaces the second-best point when it beats it
/// (`beats_second`) or when the second-best coincides with the best
/// (`second_is_best`), the displaced second-best moving down to third.
/// Failing that, it replaces the third-best point when it beats it
/// (`beats_third`) or when the third-best coincides with the best or the
/// second-best (`third_is_best`, `third_is_second`). Otherwise nothing
/// changes.
pub fn brent_retarget<T: Copy>(
    st: BrentState<T>,
    u: T,
    fu: T,
    beats_second: bool,
    second_is_best: bool,
    beats_third: bool,
    third_is_best: bool,
    third_is_second: bool,
) -> (r: BrentState<T>)
    ensures
        beats_second || second_is_best ==> r == (BrentState {
            v: st.w,
            fv: st.fw,
            w: u,
            fw: fu,
            ..st
        }),
        !(beats_second || second_is_best) && (beats_third || third_is_best || third_is_second)
            ==> r == (BrentState { v: u, fv: fu, ..st }),
        !(beats_second || second_is_best) && !(beats_third || third_is_best || third_is_second)
            ==> r == st,
{
    if beats_second || second_is_best {
        BrentState { v: st.w, fv: st.fw, w: u, fw: fu, ..st }
    } else if beats_third || third_is_best || third_is_second {
        BrentState { v: u, fv: fu, ..st }
    } else {
        st
    }
}

} // verus!
