//! The mutable search state, on its discrete side.
//!
//! The numeric backend owns the floating-point half of the search
//! distribution (mean, covariance, eigen cache, evolution paths, step size).
//! This record owns everything the decisions read and write: the generation
//! and evaluation counters, the best candidate found so far with its fitness
//! key, and the bounded history of recent best-fitness keys that smooths the
//! convergence check.

use vstd::prelude::*;

use crate::params::CmaesParams;

verus! {

/// How many recent best-fitness values the rolling history retains for
/// convergence smoothing; older entries are evicted.
pub const HISTORY_CAPACITY: usize = 10;

/// The discrete search state.  Candidate coordinates and fitness values are
/// order keys (see the crate root).
#[derive(Debug, Clone)]
pub struct CmaesState {
    /// Generation counter.
    pub g: u64,
    /// Cumulative number of fitness evaluations consumed.
    pub evals_count: u64,
    /// Keys of the best candidate found so far.
    pub best_y: Vec<i64>,
    /// Fitness key of the best candidate; starts at the sentinel
    /// `i64::MAX`, which no key of a measured value reaches.
    pub best_y_fit: i64,
    /// Rolling history of each generation's best fitness key, newest last,
    /// at most [`HISTORY_CAPACITY`] entries.
    pub best_y_hist: Vec<i64>,
}

/// The rolling history after one more value is recorded: the newest
/// `HISTORY_CAPACITY - 1` retained entries, then the new value, so the
/// history never exceeds its capacity and evicts oldest-first.
pub open spec fn recorded(hist: Seq<i64>, value: i64) -> Seq<i64> {
    if hist.len() >= HISTORY_CAPACITY {
        hist.subrange(hist.len() - (HISTORY_CAPACITY - 1) as int, hist.len() as int).push(value)
    } else {
        hist.push(value)
    }
}

/// Appends `value` to the history and evicts the oldest entries beyond the
/// capacity.
pub(crate) fn record(hist: &mut Vec<i64>, value: i64)
    ensures
        final(hist)@ == recorded(old(hist)@, value),
{
    let len: usize = hist.len();
    let start: usize = if len >= HISTORY_CAPACITY {
        len - (HISTORY_CAPACITY - 1)
    } else {
        0
    };
    let mut out: Vec<i64> = Vec::new();
    let mut i: usize = start;
    while i < len
        invariant
            start <= i <= len,
            len == hist@.len(),
            out@ =~= hist@.subrange(start as int, i as int),
        decreases len - i,
    {
        out.push(hist[i]);
        i = i + 1;
    }
    out.push(value);
    proof {
        if start == 0 {
            assert(old(hist)@.subrange(0, len as int) =~= old(hist)@);
        }
        assert(out@ =~= recorded(old(hist)@, value));
    }
    *hist = out;
}

impl CmaesState {
    /// Well-formedness against the run's parameters: the best candidate has
    /// the run's dimension, the history respects its bound, and the
    /// evaluation counter agrees with the generations consumed.
    pub open spec fn wf(&self, params: &CmaesParams) -> bool {
        &&& self.best_y@.len() == params.xstart@.len()
        &&& self.best_y_hist@.len() <= HISTORY_CAPACITY
        &&& self.evals_count == self.g * params.popsize
    }

    /// A fresh state for the given parameters: counters at zero, the
    /// sentinel best fitness, a zero best candidate of the right dimension,
    /// and an empty history.
    pub fn init_state(params: &CmaesParams) -> (s: CmaesState)
        ensures
            s.g == 0,
            s.evals_count == 0,
            s.best_y_fit == i64::MAX,
            s.best_y@ == Seq::new(params.xstart@.len(), |i: int| 0i64),
            s.best_y_hist@ == Seq::<i64>::empty(),
            s.wf(params),
    {
        let dim: usize = params.xstart.len();
        let mut best_y: Vec<i64> = Vec::new();
        while best_y.len() < dim
            invariant
                best_y@ =~= Seq::new(best_y@.len(), |i: int| 0i64),
                best_y@.len() <= dim,
            decreases dim - best_y@.len(),
        {
            best_y.push(0i64);
        }
        CmaesState {
            g: 0,
            evals_count: 0,
            best_y,
            best_y_fit: i64::MAX,
            best_y_hist: Vec::new(),
        }
    }

    /// The best candidate found so far (as keys) and its fitness key.
    pub fn get_best(&self) -> (r: (Vec<i64>, i64))
        ensures
            r.0@ == self.best_y@,
            r.1 == self.best_y_fit,
    {
        let mut out: Vec<i64> = Vec::new();
        let mut i: usize = 0;
        while i < self.best_y.len()
            invariant
                i <= self.best_y@.len(),
                out@ =~= self.best_y@.subrange(0, i as int),
            decreases self.best_y@.len() - i,
        {
            out.push(self.best_y[i]);
            i = i + 1;
        }
        proof {
            assert(out@ =~= self.best_y@);
        }
        (out, self.best_y_fit)
    }

    /// The rolling best-fitness history, newest last; the convergence check
    /// averages it.
    pub fn history(&self) -> (r: &Vec<i64>)
        ensures
            r@ == self.best_y_hist@,
    {
        &self.best_y_hist
    }
}

} // verus!
