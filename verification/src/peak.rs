//! Screening of the cross-correlation peak before sub-sample refinement.
//!
//! Refinement fits a parabola through the maximum and its two neighbours, so
//! it needs at least three points, an interior maximum, and both neighbours
//! strictly lower. This module locates the candidate index and rejects every
//! degenerate shape; the fit itself runs on the selected points outside the
//! verified core.
//!
//! Sample values arrive in an integer encoding chosen by the caller that
//! preserves the order and equality of the source samples; only comparisons
//! are performed here.

use vstd::prelude::*;

verus! {

/// Why no refinable peak exists in a sequence.
#[derive(Debug, PartialEq, Eq, Structural, Clone, Copy)]
pub enum PeakError {
    /// Fewer than three points: no parabola can be fitted.
    TooFewPoints,
    /// The maximum sits at the first or last index: a neighbour is missing.
    PeakAtBoundary,
    /// A neighbour of the maximum is not strictly lower: a plateau or a
    /// non-maximum, where interpolation is unreliable.
    NotALocalMaximum,
}

/// Index of the first occurrence of the greatest value: a later value
/// displaces the running maximum only when strictly greater.
pub open spec fn first_argmax(s: Seq<i64>) -> int
    recommends
        s.len() > 0,
    decreases s.len(),
{
    if s.len() <= 1 {
        0
    } else {
        let prev = first_argmax(s.drop_last());
        if s.last() > s[prev] {
            s.len() - 1
        } else {
            prev
        }
    }
}

/// The first argmax is in range, no value exceeds it, and every value before
/// it is strictly smaller.
pub proof fn lemma_first_argmax(s: Seq<i64>)
    requires
        s.len() > 0,
    ensures
        0 <= first_argmax(s) < s.len(),
        forall|j: int| 0 <= j < s.len() ==> #[trigger] s[j] <= s[first_argmax(s)],
        forall|j: int| 0 <= j < first_argmax(s) ==> #[trigger] s[j] < s[first_argmax(s)],
    decreases s.len(),
{
    if s.len() > 1 {
        lemma_first_argmax(s.drop_last());
        assert(forall|j: int| 0 <= j < s.len() - 1 ==> s[j] == s.drop_last()[j]);
    }
}

/// Locate the index the parabolic refinement will interpolate around, or say
/// why none exists. On success the index is interior, carries the greatest
/// value, and both neighbours are strictly lower.
pub fn peak_candidate(values: &Vec<i64>) -> (r: Result<usize, PeakError>)
    ensures
        values@.len() < 3 ==> r == Err::<usize, PeakError>(PeakError::TooFewPoints),
        values@.len() >= 3 ==> (
            {
                let k = first_argmax(values@);
                if k == 0 || k == values@.len() - 1 {
                    r == Err::<usize, PeakError>(PeakError::PeakAtBoundary)
                } else if values@[k] <= values@[k - 1] || values@[k] <= values@[k + 1] {
                    r == Err::<usize, PeakError>(PeakError::NotALocalMaximum)
                } else {
                    r matches Ok(c) && c == first_argmax(values@)
                }
            }
        ),
        r matches Ok(c) ==> 0 < c < values@.len() - 1 && values@[c as int] > values@[c as int - 1]
            && values@[c as int] > values@[c as int + 1] && (forall|j: int|
            0 <= j < values@.len() ==> values@[j] <= values@[c as int]),
{
    let n = values.len();
    if n < 3 {
        return Err(PeakError::TooFewPoints);
    }
    let mut best: usize = 0;
    let mut i: usize = 1;
    while i < n
        invariant
            1 <= i <= n,
            n == values@.len(),
            best < i,
            best as int == first_argmax(values@.subrange(0, i as int)),
        decreases n - i,
    {
        proof {
            let pre = values@.subrange(0, i as int);
            let ext = values@.subrange(0, i + 1);
            assert(ext.drop_last() =~= pre);
            assert(ext.last() == values@[i as int]);
        }
        if values[i] > values[best] {
            best = i;
        }
        i += 1;
    }
    proof {
        assert(values@.subrange(0, n as int) =~= values@);
        lemma_first_argmax(values@);
    }
    if best == 0 || best == n - 1 {
        return Err(PeakError::PeakAtBoundary);
    }
    if values[best] <= values[best - 1] || values[best] <= values[best + 1] {
        return Err(PeakError::NotALocalMaximum);
    }
    Ok(best)
}

} // verus!
