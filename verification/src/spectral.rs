//! Index and ordering logic of the spectral stages.
//!
//! Centering relabels a transform-domain sequence so that the zero-lag sample
//! sits at the middle index; the peak search and the threshold filter compare
//! sample values but never combine them arithmetically. Where a function
//! takes sample values, they arrive in an integer encoding chosen by the
//! caller that preserves the order and equality of the source samples and
//! encodes zero as zero.

use vstd::prelude::*;

verus! {

/// Size of the leading part of an n-point sequence under centering: the part
/// that moves to the back. Equals n/2 for even n and (n+1)/2 for odd n.
pub open spec fn center_split(n: int) -> int {
    (n + 1) / 2
}

/// Relabel a transform-domain sequence so the zero-lag sample sits at the
/// middle: the back part, of size n/2, moves to the front, and the front
/// part, of size (n+1)/2, follows it.
pub fn center_time_domain<T: Copy>(values: &Vec<T>) -> (r: Vec<T>)
    ensures
        r@ == values@.subrange(center_split(values@.len() as int), values@.len() as int)
            + values@.subrange(0, center_split(values@.len() as int)),
        r@.len() == values@.len(),
{
    let n = values.len();
    let split: usize = n - n / 2;
    let mut r: Vec<T> = Vec::new();
    let mut j: usize = split;
    while j < n
        invariant
            split <= j <= n,
            n == values@.len(),
            split == center_split(n as int),
            r@ == values@.subrange(split as int, j as int),
        decreases n - j,
    {
        r.push(values[j]);
        proof {
            assert(r@ =~= values@.subrange(split as int, j + 1));
        }
        j += 1;
    }
    let mut j2: usize = 0;
    while j2 < split
        invariant
            j2 <= split <= n,
            n == values@.len(),
            split == center_split(n as int),
            r@ == values@.subrange(split as int, n as int) + values@.subrange(0, j2 as int),
        decreases split - j2,
    {
        r.push(values[j2]);
        proof {
            assert(r@ =~= values@.subrange(split as int, n as int) + values@.subrange(
                0,
                j2 + 1,
            ));
        }
        j2 += 1;
    }
    r
}

/// Where centering puts each sample: original index j moves to j - split
/// when it lies in the back part and to j + (n - split) when it lies in the
/// front part. In particular, for even n an impulse at index j >= n/2
/// reappears at j - n/2.
pub proof fn lemma_center_relocation<T>(s: Seq<T>, j: int)
    requires
        0 <= j < s.len(),
    ensures
        j >= center_split(s.len() as int) ==> (s.subrange(
            center_split(s.len() as int),
            s.len() as int,
        ) + s.subrange(0, center_split(s.len() as int)))[j - center_split(s.len() as int)] == s[j],
        j < center_split(s.len() as int) ==> (s.subrange(
            center_split(s.len() as int),
            s.len() as int,
        ) + s.subrange(0, center_split(s.len() as int)))[j + s.len() - center_split(
            s.len() as int,
        )] == s[j],
{
}

/// Numerator of the centered time label: the sample at centered index i of an
/// n-point sequence sits at time (2*i - n) * timeResolution / 2, so that the
/// middle index carries lag zero.
pub fn centered_lag_numerator(n: usize, i: usize) -> (r: i64)
    requires
        i < n,
        n <= 0x3fff_ffff_ffff_ffff,
    ensures
        r == 2 * (i as int) - (n as int),
{
    2 * (i as i64) - (n as i64)
}

/// The running maximum of a left-to-right scan of s[lo..=hi] that starts at
/// index lo with a floor value of zero: the index moves only to a value
/// strictly above everything seen so far, including the floor.
pub open spec fn peak_scan_holds(s: Seq<i64>, lo: int, hi: int, k: int) -> bool {
    if exists|j: int| lo <= j <= hi && #[trigger] s[j] > 0 {
        &&& lo <= k <= hi
        &&& s[k] > 0
        &&& forall|j: int| lo <= j <= hi ==> #[trigger] s[j] <= s[k]
        &&& forall|j: int| lo <= j < k ==> #[trigger] s[j] < s[k]
    } else {
        k == lo
    }
}

/// The scan outcome is unique: the description in peak_scan_holds admits
/// exactly one index, so it determines the search result completely.
pub proof fn lemma_peak_scan_unique(s: Seq<i64>, lo: int, hi: int, k1: int, k2: int)
    requires
        peak_scan_holds(s, lo, hi, k1),
        peak_scan_holds(s, lo, hi, k2),
    ensures
        k1 == k2,
{
    if exists|j: int| lo <= j <= hi && #[trigger] s[j] > 0 {
        if k1 < k2 {
            assert(s[k1] < s[k2]);
            assert(s[k2] <= s[k1]);
        }
        if k2 < k1 {
            assert(s[k2] < s[k1]);
            assert(s[k1] <= s[k2]);
        }
    }
}

/// Scan the index range [min_ind, max_ind] of a magnitude sequence for the
/// first index whose value strictly exceeds zero and every other value in
/// the range; yield min_ind when no value in the range exceeds zero, and
/// nothing when the range reaches past the end of the sequence. An empty
/// range (min_ind above max_ind) touches no index and yields min_ind.
pub fn find_peak_index(min_ind: usize, max_ind: usize, values: &Vec<i64>) -> (r: Option<usize>)
    ensures
        min_ind > max_ind ==> r == Some(min_ind),
        min_ind <= max_ind && max_ind >= values@.len() ==> r is None,
        min_ind <= max_ind && max_ind < values@.len() ==> (r matches Some(k) && peak_scan_holds(
            values@,
            min_ind as int,
            max_ind as int,
            k as int,
        )),
{
    if min_ind > max_ind {
        return Some(min_ind);
    }
    if max_ind >= values.len() {
        return None;
    }
    let mut best: usize = min_ind;
    let mut best_val: i64 = 0;
    let mut i: usize = min_ind;
    while i <= max_ind
        invariant
            min_ind <= i <= max_ind + 1,
            max_ind < values@.len(),
            values@.len() <= usize::MAX,
            best_val >= 0,
            best_val > 0 ==> min_ind <= best < i && values@[best as int] == best_val,
            best_val > 0 ==> forall|j: int| min_ind <= j < best ==> #[trigger] values@[j]
                < best_val,
            best_val == 0 ==> best == min_ind,
            forall|j: int| min_ind <= j < i ==> #[trigger] values@[j] <= best_val,
        decreases max_ind + 1 - i,
    {
        let v = values[i];
        if v > best_val {
            best = i;
            best_val = v;
        }
        i += 1;
    }
    Some(best)
}

/// Keep each magnitude that strictly exceeds its index-aligned threshold and
/// replace every other entry by the encoding of zero. The two sequences must
/// already be aligned index for index.
pub fn filter_with_cfar(magnitudes: &Vec<i64>, thresholds: &Vec<i64>) -> (r: Vec<i64>)
    requires
        magnitudes@.len() == thresholds@.len(),
    ensures
        r@.len() == magnitudes@.len(),
        forall|j: int|
            0 <= j < r@.len() ==> r@[j] == (if magnitudes@[j] > thresholds@[j] {
                magnitudes@[j]
            } else {
                0i64
            }),
{
    let n = magnitudes.len();
    let mut r: Vec<i64> = Vec::new();
    let mut i: usize = 0;
    while i < n
        invariant
            i <= n,
            n == magnitudes@.len() == thresholds@.len(),
            r@.len() == i,
            forall|j: int|
                0 <= j < i ==> r@[j] == (if magnitudes@[j] > thresholds@[j] {
                    magnitudes@[j]
                } else {
                    0i64
                }),
        decreases n - i,
    {
        if magnitudes[i] > thresholds[i] {
            r.push(magnitudes[i]);
        } else {
            r.push(0);
        }
        i += 1;
    }
    r
}

} // verus!
