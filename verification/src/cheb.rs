//! Decision logic for the Chebyshev-series global rootfinder.
//!
//! A function is approximated on an interval by sampling it at Chebyshev
//! nodes and cosine-transforming the samples into series coefficients.
//! Trailing coefficients whose magnitude falls below a truncation threshold
//! are dropped, and the roots of the truncated series are read off the
//! eigenvalues of its companion matrix, keeping only the eigenvalues that
//! are close enough to real and to the reference interval. The caller does
//! the floating-point work — sampling, transforming, comparing against the
//! thresholds — and hands the comparison outcomes in as flags; the
//! functions here decide, exactly, where the series is cut and which
//! candidates survive the filter.

use vstd::prelude::*;

verus! {

/// Index of the last coefficient still significant — the last `true` in
/// `significant`, where the caller has marked each coefficient whose
/// magnitude reached the truncation threshold. Everything after that index
/// is negligible and is dropped; if no coefficient is significant, the
/// whole series is treated as the zero polynomial.
pub fn truncation_index(significant: &Vec<bool>) -> (r: Option<usize>)
    ensures
        r matches Some(i) ==> {
            &&& i < significant.len()
            &&& significant@[i as int]
            &&& forall|j: int| i < j < significant.len() ==> !significant@[j]
        },
        r is None ==> forall|j: int| 0 <= j < significant.len() ==> !significant@[j],
{
    let mut k: usize = significant.len();
    while k > 0
        invariant
            k <= significant.len(),
            forall|j: int| k <= j < significant.len() ==> !significant@[j],
        decreases k,
    {
        k = k - 1;
        if significant[k] {
            return Some(k);
        }
    }
    None
}

/// The coefficients retained after truncation: everything through `last`,
/// the index of the last significant coefficient, in order. Together with
/// `truncation_index` this keeps the series invariant: the retained
/// sequence is non-empty only if some coefficient is significant, and its
/// last element is a significant one.
pub fn retain_through<T: Copy>(c: &Vec<T>, last: usize) -> (r: Vec<T>)
    requires
        last < c.len(),
    ensures
        r@ == c@.take(last as int + 1),
{
    let mut r: Vec<T> = Vec::new();
    let mut i: usize = 0;
    while i <= last
        invariant
            i <= last + 1,
            last < c.len(),
            r@ == c@.take(i as int),
        decreases last + 1 - i,
    {
        r.push(c[i]);
        proof {
            assert(c@.take(i as int + 1) =~= c@.take(i as int).push(c@[i as int]));
        }
        i = i + 1;
    }
    r
}

/// The subsequence of `vals` at the positions marked in `keep`, in order.
pub open spec fn flagged<T>(vals: Seq<T>, keep: Seq<bool>) -> Seq<T>
    decreases vals.len(),
{
    if vals.len() == 0 {
        Seq::empty()
    } else {
        flagged(vals.drop_last(), keep.drop_last()) + if keep.last() {
            seq![vals.last()]
        } else {
            Seq::empty()
        }
    }
}

/// Keeps exactly the values marked in `keep`, in their original order. The
/// rootfinder uses this to retain the companion-matrix eigenvalues whose
/// imaginary part is negligible and whose real part lies within the
/// reference interval, with the flags computed by the caller.
pub fn keep_flagged<T: Copy>(vals: &Vec<T>, keep: &Vec<bool>) -> (r: Vec<T>)
    requires
        vals.len() == keep.len(),
    ensures
        r@ == flagged(vals@, keep@),
{
    let mut r: Vec<T> = Vec::new();
    let mut i: usize = 0;
    while i < vals.len()
        invariant
            i <= vals.len(),
            vals.len() == keep.len(),
            r@ == flagged(vals@.take(i as int), keep@.take(i as int)),
        decreases vals.len() - i,
    {
        if keep[i] {
            r.push(vals[i]);
        }
        i = i + 1;
        proof {
            let vi = vals@.take(i as int);
            let ki = keep@.take(i as int);
            assert(vi.drop_last() =~= vals@.take(i as int - 1));
            assert(ki.drop_last() =~= keep@.take(i as int - 1));
            assert(vi.last() == vals@[i as int - 1]);
            assert(ki.last() == keep@[i as int - 1]);
        }
    }
    proof {
        assert(vals@.take(vals@.len() as int) =~= vals@);
        assert(keep@.take(keep@.len() as int) =~= keep@);
    }
    r
}

} // verus!
