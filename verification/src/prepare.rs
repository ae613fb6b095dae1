//! Decisions of the covariance preparer.
//!
//! Once per generation, before sampling, the covariance matrix is
//! symmetrized, optionally thinned for numerical health, eigen-decomposed,
//! and its eigenvalues are forced into a safe positive band before any
//! square root is taken.  The arithmetic lives with the numeric backend;
//! the entry-by-entry decisions live here, over order keys.
//!
//! A caller hands each rule its boundary values as keys: `zero` for the
//! real zero, `diag_floor` for the small positive replacement of a negative
//! diagonal entry, `neg_threshold`/`threshold` for the thinning band, and
//! `lo`/`hi` for the eigenvalue safeguard band.

use vstd::prelude::*;

verus! {

/// One covariance entry after the thinning pass: a negative diagonal entry
/// is floored at a small positive value; an off-diagonal entry whose
/// magnitude falls below the thinning threshold — whose key lies strictly
/// between `neg_threshold` and `threshold` — is zeroed.
pub open spec fn thinned_entry(
    v: i64,
    diagonal: bool,
    zero: i64,
    diag_floor: i64,
    neg_threshold: i64,
    threshold: i64,
) -> i64 {
    if diagonal {
        if v < zero {
            diag_floor
        } else {
            v
        }
    } else {
        if neg_threshold < v && v < threshold {
            zero
        } else {
            v
        }
    }
}

/// Applies the thinning pass to a covariance matrix held as rows of keys,
/// entry by entry.
pub fn sparsify_covariance(
    cov: &Vec<Vec<i64>>,
    zero: i64,
    diag_floor: i64,
    neg_threshold: i64,
    threshold: i64,
) -> (r: Vec<Vec<i64>>)
    ensures
        r@.len() == cov@.len(),
        forall|i: int| 0 <= i < cov@.len() ==> (#[trigger] r@[i])@.len() == cov@[i]@.len(),
        forall|i: int, j: int|
            0 <= i < cov@.len() && 0 <= j < cov@[i]@.len() ==> #[trigger] r@[i]@[j] == thinned_entry(
                cov@[i]@[j],
                i == j,
                zero,
                diag_floor,
                neg_threshold,
                threshold,
            ),
{
    let mut r: Vec<Vec<i64>> = Vec::new();
    let mut i: usize = 0;
    while i < cov.len()
        invariant
            i <= cov@.len(),
            r@.len() == i,
            forall|k: int| 0 <= k < i ==> (#[trigger] r@[k])@.len() == cov@[k]@.len(),
            forall|k: int, j: int|
                0 <= k < i && 0 <= j < cov@[k]@.len() ==> #[trigger] r@[k]@[j] == thinned_entry(
                    cov@[k]@[j],
                    k == j,
                    zero,
                    diag_floor,
                    neg_threshold,
                    threshold,
                ),
        decreases cov@.len() - i,
    {
        let row: &Vec<i64> = &cov[i];
        let mut out: Vec<i64> = Vec::new();
        let mut j: usize = 0;
        while j < row.len()
            invariant
                j <= row@.len(),
                i < cov@.len(),
                row@ == cov@[i as int]@,
                out@.len() == j,
                forall|jj: int|
                    0 <= jj < j ==> #[trigger] out@[jj] == thinned_entry(
                        row@[jj],
                        i == jj,
                        zero,
                        diag_floor,
                        neg_threshold,
                        threshold,
                    ),
            decreases row@.len() - j,
        {
            let v: i64 = row[j];
            let w: i64 = if i == j {
                if v < zero {
                    diag_floor
                } else {
                    v
                }
            } else {
                if neg_threshold < v && v < threshold {
                    zero
                } else {
                    v
                }
            };
            out.push(w);
            j = j + 1;
        }
        r.push(out);
        i = i + 1;
    }
    r
}

/// One eigenvalue after the safeguard: forced into the band `[lo, hi]`, so
/// that no non-positive or unbounded value reaches the square-root and
/// inverse-square-root steps.
pub open spec fn clamped(v: i64, lo: i64, hi: i64) -> i64 {
    if v < lo {
        lo
    } else if v > hi {
        hi
    } else {
        v
    }
}

/// Applies the safeguard band to every eigenvalue.  The safeguard only
/// bounds valid decomposition results; a decomposition that failed to
/// converge must be surfaced as a `NumericalError` instead.
pub fn clamp_eigenvalues(vals: &Vec<i64>, lo: i64, hi: i64) -> (r: Vec<i64>)
    ensures
        r@.len() == vals@.len(),
        forall|i: int| 0 <= i < vals@.len() ==> #[trigger] r@[i] == clamped(vals@[i], lo, hi),
{
    let mut r: Vec<i64> = Vec::new();
    let mut i: usize = 0;
    while i < vals.len()
        invariant
            i <= vals@.len(),
            r@.len() == i,
            forall|k: int| 0 <= k < i ==> #[trigger] r@[k] == clamped(vals@[k], lo, hi),
        decreases vals@.len() - i,
    {
        let v: i64 = vals[i];
        let w: i64 = if v < lo {
            lo
        } else if v > hi {
            hi
        } else {
            v
        };
        r.push(w);
        i = i + 1;
    }
    r
}

} // verus!
