//! Decision cores for derivative-free rootfinding and minimization.
//!
//! The numerical algorithms this crate supports (bisection, ITP, bracket
//! search, golden-section search, Chebyshev rootfinding, Brent minimization)
//! walk an interval by evaluating a target function and then branching on
//! comparison outcomes. The branching — which endpoint is replaced, when a
//! search reports success or exhaustion, which points survive a truncation —
//! is exact discrete logic, and this crate states and verifies it. The
//! floating-point arithmetic that produces the coordinates and comparison
//! outcomes lives with the caller, which hands the results in as plain values.

use vstd::prelude::*;

pub mod bracket;
pub mod cheb;
pub mod initial;
pub mod min;

verus! {

/// An x-coordinate on a function, along with a potentially-known evaluation
/// at that coordinate. Passing one of these instead of a bare coordinate lets
/// composed algorithms avoid evaluating the target function twice at the same
/// point.
#[derive(Debug, PartialEq)]
pub enum MaybeEval<T> {
    /// The function value at this coordinate is known.
    Known(T, T),
    /// The function value at this coordinate is unknown.
    Unknown(T),
}

impl<T: Copy> MaybeEval<T> {
    /// The x-coordinate, regardless of whether the evaluation is known.
    pub fn x(&self) -> (r: T)
        ensures
            r == self.spec_x(),
    {
        match *self {
            MaybeEval::Known(x, _) => x,
            MaybeEval::Unknown(x) => x,
        }
    }

    /// The x-coordinate of either variant.
    pub open spec fn spec_x(&self) -> T {
        match *self {
            MaybeEval::Known(x, _) => x,
            MaybeEval::Unknown(x) => x,
        }
    }

    /// Just the evaluated coordinate, if it is known.
    pub fn fx(&self) -> (r: Option<T>)
        ensures
            self is Known ==> r == Some(self->Known_1),
            self is Unknown ==> r is None,
    {
        match *self {
            MaybeEval::Known(_, fx) => Some(fx),
            MaybeEval::Unknown(_) => None,
        }
    }

    /// Returns either the known function evaluation, or, if it is unknown,
    /// computes it with the given function.
    pub fn evaled<F: Fn(T) -> T>(&self, f: &F) -> (r: (T, T))
        requires
            self is Unknown ==> call_requires(*f, (self.spec_x(),)),
        ensures
            r.0 == self.spec_x(),
            self is Known ==> r.1 == self->Known_1,
            self is Unknown ==> call_ensures(*f, (self.spec_x(),), r.1),
    {
        match *self {
            MaybeEval::Known(x, fx) => (x, fx),
            MaybeEval::Unknown(x) => (x, f(x)),
        }
    }
}

impl<T: Copy> From<T> for MaybeEval<T> {
    fn from(value: T) -> (r: Self)
        ensures
            r == MaybeEval::Unknown(value),
    {
        MaybeEval::Unknown(value)
    }
}

impl<T: Copy> vstd::std_specs::convert::FromSpecImpl<T> for MaybeEval<T> {
    open spec fn obeys_from_spec() -> bool {
        true
    }

    open spec fn from_spec(value: T) -> Self {
        MaybeEval::Unknown(value)
    }
}

impl<T: Copy> From<(T, T)> for MaybeEval<T> {
    fn from(value: (T, T)) -> (r: Self)
        ensures
            r == MaybeEval::Known(value.0, value.1),
    {
        MaybeEval::Known(value.0, value.1)
    }
}

impl<T: Copy> vstd::std_specs::convert::FromSpecImpl<(T, T)> for MaybeEval<T> {
    open spec fn obeys_from_spec() -> bool {
        true
    }

    open spec fn from_spec(value: (T, T)) -> Self {
        MaybeEval::Known(value.0, value.1)
    }
}

} // verus!
