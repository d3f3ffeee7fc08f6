//! Cell geometry of the adaptive-threshold (constant-false-alarm-rate)
//! detector.
//!
//! The threshold at index i averages the reference samples lying just
//! outside a guard-wide gap on each side of i, skipping indices that fall
//! outside the array, and scales the average by a bias. This module selects
//! those reference cells and the divisor that turns their sum into a mean;
//! it proves that every selected cell is in bounds, also at the first and
//! last index, and that the reference count stands in as the divisor, never
//! zero, exactly when no cell is available on either side. Summing the
//! samples at the selected cells is plain arithmetic on the caller's side.

use vstd::prelude::*;

verus! {

/// In-bounds reference cells below index i: the indices from
/// i - guard - reference through i - guard - 1, clipped at zero, ascending.
pub open spec fn lower_cells(i: int, guard: int, reference: int) -> Seq<int> {
    let lo = if i - guard - reference > 0 {
        i - guard - reference
    } else {
        0
    };
    let hi = if i - guard > 0 {
        i - guard
    } else {
        0
    };
    if hi > lo {
        Seq::new((hi - lo) as nat, |t: int| lo + t)
    } else {
        Seq::empty()
    }
}

/// In-bounds reference cells above index i: the indices from i + guard + 1
/// through i + guard + reference, clipped at n, ascending.
pub open spec fn upper_cells(n: int, i: int, guard: int, reference: int) -> Seq<int> {
    let lo = i + guard + 1;
    let hi = if i + guard + reference + 1 < n {
        i + guard + reference + 1
    } else {
        n
    };
    if hi > lo {
        Seq::new((hi - lo) as nat, |t: int| lo + t)
    } else {
        Seq::empty()
    }
}

/// All in-bounds reference cells of index i, ascending: the lower window
/// followed by the upper window.
pub open spec fn reference_cells(n: int, i: int, guard: int, reference: int) -> Seq<int> {
    lower_cells(i, guard, reference) + upper_cells(n, i, guard, reference)
}

/// Reference cells and divisor for one output position of the threshold.
pub struct CfarCells {
    /// In-bounds reference cell indices, ascending.
    pub cells: Vec<usize>,
    /// Divisor of the accumulated sum, making it a mean: the number of
    /// cells, or the reference count when no cell is in bounds on either
    /// side.
    pub divisor: usize,
}

/// The row holds exactly the reference cells of index i, all in bounds, and
/// the divisor with its fallback.
pub open spec fn cfar_row_ok(n: int, guard: int, reference: int, i: int, row: CfarCells) -> bool {
    &&& row.cells@.map_values(|c: usize| c as int) == reference_cells(n, i, guard, reference)
    &&& forall|t: int| 0 <= t < row.cells@.len() ==> (#[trigger] row.cells@[t]) < n
    &&& row.divisor == if row.cells@.len() > 0 {
        row.cells@.len() as int
    } else {
        reference
    }
}

/// Select the reference cells and divisor for index i of an n-point array.
pub fn cfar_reference_cells(n: usize, i: usize, guard: usize, reference: usize) -> (row: CfarCells)
    requires
        i < n,
        reference >= 1,
        n + guard + reference <= usize::MAX,
    ensures
        cfar_row_ok(n as int, guard as int, reference as int, i as int, row),
        row.divisor >= 1,
{
    let lo_start: usize = if i > guard + reference {
        i - guard - reference
    } else {
        0
    };
    let lo_end: usize = if i > guard {
        i - guard
    } else {
        0
    };
    let mut cells: Vec<usize> = Vec::new();
    let mut j: usize = lo_start;
    while j < lo_end
        invariant
            lo_start <= j,
            j <= lo_end || j == lo_start,
            cells@.len() == j - lo_start,
            forall|t: int| 0 <= t < cells@.len() ==> #[trigger] cells@[t] == lo_start + t,
        decreases lo_end - j,
    {
        cells.push(j);
        j += 1;
    }
    let lo_len: usize = cells.len();
    let up_start: usize = i + guard + 1;
    let up_end: usize = if i + guard + reference + 1 < n {
        i + guard + reference + 1
    } else {
        n
    };
    let mut j2: usize = up_start;
    while j2 < up_end
        invariant
            up_start <= j2,
            j2 <= up_end || j2 == up_start,
            lo_len == lo_end - lo_start,
            cells@.len() == lo_len + (j2 - up_start),
            forall|t: int| 0 <= t < lo_len ==> #[trigger] cells@[t] == lo_start + t,
            forall|t: int|
                lo_len <= t < cells@.len() ==> #[trigger] cells@[t] == up_start + (t - lo_len),
        decreases up_end - j2,
    {
        cells.push(j2);
        j2 += 1;
    }
    let count: usize = cells.len();
    let divisor: usize = if count == 0 {
        reference
    } else {
        count
    };
    proof {
        let ni = n as int;
        let ii = i as int;
        let gi = guard as int;
        let ri = reference as int;
        let lc = lower_cells(ii, gi, ri);
        let uc = upper_cells(ni, ii, gi, ri);
        assert(lc.len() == lo_end - lo_start);
        assert(uc.len() == (if up_end > up_start {
            up_end - up_start
        } else {
            0
        }));
        let m = cells@.map_values(|c: usize| c as int);
        assert forall|t: int| 0 <= t < m.len() implies m[t] == (lc + uc)[t] by {
            assert(m[t] == cells@[t] as int);
            if t < lc.len() {
                assert(lc[t] == lo_start + t);
            } else {
                assert(uc[t - lc.len()] == up_start + (t - lc.len()));
            }
        }
        assert(m =~= lc + uc);
        assert forall|t: int| 0 <= t < cells@.len() implies (#[trigger] cells@[t]) < n by {
            if t < lo_len {
                assert(cells@[t] == lo_start + t);
                assert(lo_start + t < lo_end);
            } else {
                assert(cells@[t] == up_start + (t - lo_len));
            }
        }
    }
    CfarCells { cells, divisor }
}

/// Select the reference cells and divisor for every index of an n-point
/// array: one row per input sample, so a threshold built from the plan has
/// the input's length.
pub fn cfar_plan(n: usize, guard: usize, reference: usize) -> (rows: Vec<CfarCells>)
    requires
        reference >= 1,
        n + guard + reference <= usize::MAX,
    ensures
        rows@.len() == n,
        forall|i: int|
            0 <= i < n ==> cfar_row_ok(
                n as int,
                guard as int,
                reference as int,
                i,
                #[trigger] rows@[i],
            ),
{
    let mut rows: Vec<CfarCells> = Vec::new();
    let mut i: usize = 0;
    while i < n
        invariant
            i <= n,
            rows@.len() == i,
            reference >= 1,
            n + guard + reference <= usize::MAX,
            forall|t: int|
                0 <= t < i ==> cfar_row_ok(
                    n as int,
                    guard as int,
                    reference as int,
                    t,
                    #[trigger] rows@[t],
                ),
        decreases n - i,
    {
        let row = cfar_reference_cells(n, i, guard, reference);
        rows.push(row);
        i += 1;
    }
    rows
}

} // verus!
