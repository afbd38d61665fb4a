//! Decision logic for bracket searches and bracket-based root refinement.
//!
//! A root bracket is a pair of abscissae `a` and `b` such that `f(a)` and
//! `f(b)` have different signs; by the intermediate value theorem a
//! continuous `f` has a root between them. A minima bracket is a pair such
//! that both `f(a)` and `f(b)` exceed some minimum contained between them.
//!
//! Each loop of the search and refinement algorithms evaluates the target
//! function, compares, and then branches. The functions here are those
//! branches: they take the comparison outcomes together with the candidate
//! coordinates and decide, exactly, what the next state of the loop is.

use vstd::prelude::*;
use crate::MaybeEval;

verus! {

/// One interval update of the bisection method. The midpoint replaces the
/// endpoint whose function value shares its sign, so that the sign change —
/// and with it the root — stays inside the interval.
pub fn bisection_update<T: Copy>(a: T, b: T, mid: T, mid_matches_a_sign: bool) -> (r: (T, T))
    ensures
        mid_matches_a_sign ==> r == (mid, b),
        !mid_matches_a_sign ==> r == (a, mid),
{
    if mid_matches_a_sign {
        (mid, b)
    } else {
        (a, mid)
    }
}

/// The outcome of one interval update of the ITP method.
#[derive(Debug, PartialEq)]
pub enum ItpStep<T> {
    /// The probed point evaluated to zero exactly: it is the root.
    Root(T),
    /// The bracket was narrowed; the probed point replaced one endpoint.
    Narrowed { a: T, fa: T, b: T, fb: T },
}

/// One interval update of the ITP method, after the
/// interpolate-truncate-project step has produced the probe `x_itp` and the
/// target function evaluated to `f_itp` there.
///
/// The method's interval bookkeeping assumes the function does not decrease
/// from `a` to `b`; `negate` records that the caller observed the opposite
/// orientation, and flips which endpoint a probe of a given sign replaces,
/// so the sign change stays inside the bracket either way.
pub fn itp_update<T: Copy>(
    a: T,
    fa: T,
    b: T,
    fb: T,
    x_itp: T,
    f_itp: T,
    negate: bool,
    is_zero: bool,
    is_positive: bool,
) -> (r: ItpStep<T>)
    ensures
        is_zero ==> r == ItpStep::Root(x_itp),
        !is_zero && (negate != is_positive) ==> r == (ItpStep::Narrowed {
            a: a,
            fa: fa,
            b: x_itp,
            fb: f_itp,
        }),
        !is_zero && (negate == is_positive) ==> r == (ItpStep::Narrowed {
            a: x_itp,
            fa: f_itp,
            b: b,
            fb: fb,
        }),
{
    if is_zero {
        ItpStep::Root(x_itp)
    } else if negate != is_positive {
        ItpStep::Narrowed { a: a, fa: fa, b: x_itp, fb: f_itp }
    } else {
        ItpStep::Narrowed { a: x_itp, fa: f_itp, b: b, fb: fb }
    }
}

/// The outcome of one step of the exponential search for a minima bracket.
#[derive(Debug, PartialEq)]
pub enum SearchStep<T> {
    /// The walk left the caller-supplied bounds without meeting its target;
    /// the search reports nothing found.
    Exhausted,
    /// A bracket was found: the pulled-back left end, not yet evaluated, and
    /// the probed right end with its value.
    Found(MaybeEval<T>, MaybeEval<T>),
    /// No decision yet: the probe becomes the new base point and the walk
    /// goes on with a doubled step.
    Advance { base: T, fbase: T },
}

/// One step of the exponential minima-bracket search: the walk has probed a
/// new point `b` with value `fb`.
///
/// Leaving the caller-supplied bounds ends the search before anything else
/// is considered. Otherwise, seeing the function increase past the current
/// base certifies that a minimum was passed; the left end is pulled back by
/// half the last step (`pulled_back`, computed by the caller) so the minimum
/// lies strictly inside the reported bracket.
pub fn minima_search_step<T: Copy>(
    b: T,
    fb: T,
    pulled_back: T,
    in_bounds: bool,
    increased: bool,
) -> (r: SearchStep<T>)
    ensures
        !in_bounds ==> r == SearchStep::<T>::Exhausted,
        in_bounds && increased ==> r == SearchStep::Found(
            MaybeEval::Unknown(pulled_back),
            MaybeEval::Known(b, fb),
        ),
        in_bounds && !increased ==> r == (SearchStep::Advance { base: b, fbase: fb }),
{
    if !in_bounds {
        SearchStep::Exhausted
    } else if increased {
        SearchStep::Found(MaybeEval::Unknown(pulled_back), MaybeEval::Known(b, fb))
    } else {
        SearchStep::Advance { base: b, fbase: fb }
    }
}

/// The outcome of one step of the exponential root-bracket search.
#[derive(Debug, PartialEq)]
pub enum RootSearchStep<T> {
    /// The two latest points straddle a sign change: they are the bracket,
    /// both already evaluated.
    Found(MaybeEval<T>, MaybeEval<T>),
    /// No sign change yet: the probe becomes the new base point and the walk
    /// goes on with a doubled step.
    Advance { base: T, fbase: T },
}

/// One step of the exponential root-bracket search: the walk has probed
/// `new_x` with value `new_fx`, and `sign_changed` says whether the sign of
/// the value differs from the sign seen at the starting point.
pub fn root_search_step<T: Copy>(
    x: T,
    fx: T,
    new_x: T,
    new_fx: T,
    sign_changed: bool,
) -> (r: RootSearchStep<T>)
    ensures
        sign_changed ==> r == RootSearchStep::Found(
            MaybeEval::Known(x, fx),
            MaybeEval::Known(new_x, new_fx),
        ),
        !sign_changed ==> r == (RootSearchStep::Advance { base: new_x, fbase: new_fx }),
{
    if sign_changed {
        RootSearchStep::Found(MaybeEval::Known(x, fx), MaybeEval::Known(new_x, new_fx))
    } else {
        RootSearchStep::Advance { base: new_x, fbase: new_fx }
    }
}

/// The outcome of one step of the exponential search for a negative value.
#[derive(Debug, PartialEq)]
pub enum NegativeSearchStep<T> {
    /// The walk left the caller-supplied bounds without meeting its target;
    /// the search reports nothing found.
    Exhausted,
    /// The probed point itself is negative: it is the answer.
    Negative(MaybeEval<T>),
    /// The function increased past the current base without going negative:
    /// a dip lies inside `[lo, hi]` and an interval locator takes over there.
    Bracketed { lo: T, hi: T },
    /// No decision yet: the probe becomes the new base point and the walk
    /// goes on with a doubled step.
    Advance { base: T, fbase: T },
}

/// One step of the exponential negative-value search: the walk has probed a
/// new point `b` with value `fb`.
///
/// The decisions are taken in this order: leaving the bounds ends the
/// search; a negative value is returned at once; an increase past the base
/// certifies a dip between the pulled-back point and the probe, and the
/// caller hands `lo` and `hi` (the two, already ordered) to the locator;
/// otherwise the walk advances.
pub fn negative_search_step<T: Copy>(
    b: T,
    fb: T,
    lo: T,
    hi: T,
    in_bounds: bool,
    is_negative: bool,
    increased: bool,
) -> (r: NegativeSearchStep<T>)
    ensures
        !in_bounds ==> r == NegativeSearchStep::<T>::Exhausted,
        in_bounds && is_negative ==> r == NegativeSearchStep::Negative(MaybeEval::Known(b, fb)),
        in_bounds && !is_negative && increased ==> r == (NegativeSearchStep::Bracketed {
            lo: lo,
            hi: hi,
        }),
        in_bounds && !is_negative && !increased ==> r == (NegativeSearchStep::Advance {
            base: b,
            fbase: fb,
        }),
{
    if !in_bounds {
        NegativeSearchStep::Exhausted
    } else if is_negative {
        NegativeSearchStep::Negative(MaybeEval::Known(b, fb))
    } else if increased {
        NegativeSearchStep::Bracketed { lo: lo, hi: hi }
    } else {
        NegativeSearchStep::Advance { base: b, fbase: fb }
    }
}

/// Reports a probed point as the located negative value when its evaluation
/// came out negative, and nothing otherwise. The golden-section locator
/// applies this to each endpoint and to each interior probe in turn, exiting
/// early at the first negative.
pub fn probe_negative<T: Copy>(x: T, fx: T, is_negative: bool) -> (r: Option<MaybeEval<T>>)
    ensures
        is_negative ==> r == Some(MaybeEval::Known(x, fx)),
        !is_negative ==> r is None,
{
    if is_negative {
        Some(MaybeEval::Known(x, fx))
    } else {
        None
    }
}

/// One golden-section shrink: neither interior probe was negative, so the
/// side whose interior value is larger is discarded. If the value at `c`
/// (the left probe) is below the value at `d` (the right probe), the
/// interval keeps its left end and closes down to `d`; otherwise it keeps
/// its right end and closes up to `c`.
pub fn golden_shrink<T: Copy>(a: T, b: T, c: T, d: T, fc_below_fd: bool) -> (r: (T, T))
    ensures
        fc_below_fd ==> r == (a, d),
        !fc_below_fd ==> r == (c, b),
{
    if fc_below_fd {
        (a, d)
    } else {
        (c, b)
    }
}

} // verus!
