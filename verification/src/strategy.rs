//! The strategy around the ask–tell protocol: folding an evaluated
//! population back into the search state, and deciding when to stop.
//!
//! `tell` owns every decision of the update step: the shape check, the
//! stable ranking of the candidates by fitness, best-so-far tracking, the
//! rolling history, and the counters.  It hands the ranking back so that
//! the numeric backend can reorder the candidate rows and recombine the
//! top `mu` of them; the arithmetic of recombination, evolution paths,
//! covariance adaptation and step-size adaptation is the backend's, driven
//! by this ranking.

use vstd::prelude::*;

use crate::errors::{ConfigError, ShapeMismatchError};
use crate::params::CmaesParams;
use crate::sort::{argsort, is_ranking, lemma_ranking_head_is_min};
use crate::state::{record, recorded, CmaesState};

verus! {

/// The generation floor of the convergence check: completion is never
/// reported at or before this generation, however close the history is.
pub const MIN_GENERATIONS: u64 = 5;

/// The optimizer strategy: the validated, immutable parameters of one run.
#[derive(Debug)]
pub struct CmaesAlgo {
    pub params: CmaesParams,
}

impl CmaesAlgo {
    /// Wraps validated parameters for the run.
    pub fn new(params: CmaesParams) -> (r: Result<CmaesAlgo, ConfigError>)
        ensures
            r matches Ok(a) && a.params == params,
    {
        Ok(CmaesAlgo { params })
    }

    /// Whether a reported population and fitness vector agree in shape with
    /// the run: one fitness value per candidate, one candidate per member of
    /// the population, one coordinate per dimension.
    pub open spec fn shapes_agree(&self, pop: Seq<Vec<i64>>, fitness: Seq<i64>) -> bool {
        &&& fitness.len() == pop.len()
        &&& pop.len() == self.params.popsize
        &&& forall|i: int|
            0 <= i < pop.len() ==> (#[trigger] pop[i])@.len() == self.params.xstart@.len()
    }

    /// Folds one evaluated generation into the state.
    ///
    /// The population rows are the candidates as keys; `fitness` carries one
    /// key per row, lower is better.  On a shape mismatch nothing is
    /// updated.  Otherwise the counters advance, the best candidate and its
    /// fitness are updated whenever this generation improves on them, the
    /// generation's best fitness enters the rolling history, and the stable
    /// ranking of the candidates — best first, ties in original order — is
    /// returned for the numeric backend to recombine by.
    pub fn tell(&self, state: &mut CmaesState, pop: &Vec<Vec<i64>>, fitness: &Vec<i64>) -> (r:
        Result<Vec<usize>, ShapeMismatchError>)
        requires
            self.params.wf(),
            old(state).g < u64::MAX,
            old(state).evals_count + self.params.popsize <= u64::MAX,
        ensures
            r is Ok <==> self.shapes_agree(pop@, fitness@),
            r is Err ==> *final(state) == *old(state),
            r matches Ok(order) ==> {
                &&& is_ranking(fitness@, order@)
                &&& final(state).g == old(state).g + 1
                &&& final(state).evals_count == old(state).evals_count + self.params.popsize
                &&& ({
                    let best = fitness@[order@[0] as int];
                    &&& final(state).best_y_fit == (if best < old(state).best_y_fit {
                        best
                    } else {
                        old(state).best_y_fit
                    })
                    &&& final(state).best_y@ == (if best < old(state).best_y_fit {
                        pop@[order@[0] as int]@
                    } else {
                        old(state).best_y@
                    })
                    &&& final(state).best_y_hist@ == recorded(old(state).best_y_hist@, best)
                })
                &&& final(state).best_y_fit <= old(state).best_y_fit
                &&& forall|i: int|
                    0 <= i < fitness@.len() ==> final(state).best_y_fit <= #[trigger] fitness@[i]
                &&& old(state).wf(&self.params) ==> final(state).wf(&self.params)
            },
    {
        if fitness.len() != pop.len() || pop.len() != self.params.popsize {
            return Err(ShapeMismatchError);
        }
        let dim: usize = self.params.xstart.len();
        let mut i: usize = 0;
        while i < pop.len()
            invariant
                i <= pop@.len(),
                dim == self.params.xstart@.len(),
                forall|k: int| 0 <= k < i ==> (#[trigger] pop@[k])@.len() == dim,
            decreases pop@.len() - i,
        {
            if pop[i].len() != dim {
                return Err(ShapeMismatchError);
            }
            i = i + 1;
        }

        state.g = state.g + 1;
        state.evals_count = state.evals_count + (self.params.popsize as u64);

        let order = argsort(fitness);
        proof {
            lemma_ranking_head_is_min(fitness@, order@);
        }
        let p0: usize = order[0];
        let best: i64 = fitness[p0];

        if best < state.best_y_fit {
            state.best_y_fit = best;
            let row: &Vec<i64> = &pop[p0];
            let mut by: Vec<i64> = Vec::new();
            let mut k: usize = 0;
            while k < row.len()
                invariant
                    k <= row@.len(),
                    by@ =~= row@.subrange(0, k as int),
                decreases row@.len() - k,
            {
                by.push(row[k]);
                k = k + 1;
            }
            proof {
                assert(by@ =~= row@);
            }
            state.best_y = by;
        }
        record(&mut state.best_y_hist, best);
        proof {
            let g0 = old(state).g as int;
            let p = self.params.popsize as int;
            assert((g0 + 1) * p == g0 * p + p) by (nonlinear_arith);
            assert(state.best_y_hist@.len() <= crate::state::HISTORY_CAPACITY);
        }
        Ok(order)
    }

    /// The convergence decision: past the generation floor, and the gap
    /// between the current best fitness and the windowed average of the
    /// recent best-fitness history below the tolerance.
    pub open spec fn spec_is_done(&self, step: u64, gap: i64) -> bool {
        step > MIN_GENERATIONS && gap < self.params.tol
    }

    /// Decides whether the search should stop.  `step` is the generation
    /// index; `gap` is the key of the absolute difference between the
    /// current best fitness and the average of the rolling history, which
    /// the numeric backend computes.  Below the generation floor the answer
    /// is `false` no matter how small the gap is.
    pub fn is_done(&self, step: u64, gap: i64) -> (r: bool)
        ensures
            r == self.spec_is_done(step, gap),
            step <= MIN_GENERATIONS ==> !r,
    {
        step > MIN_GENERATIONS && gap < self.params.tol
    }

    /// The fixed-budget alternative to the convergence check: run exactly
    /// the configured number of generations, with no early exit.
    pub fn budget_exhausted(&self, step: u32) -> (r: bool)
        ensures
            r == (step >= self.params.num_gens),
    {
        step >= self.params.num_gens
    }
}

} // verus!
