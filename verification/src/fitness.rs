//! The direction of an optimization and the fitness convention.
//!
//! Fitness is always interpreted as "lower is better" inside the optimizer.
//! An evaluator that maximizes negates its raw cost before reporting it, so
//! every internal comparison is minimization-only.

use vstd::prelude::*;

verus! {

/// Whether an objective is to be minimized or maximized.
#[derive(Clone, Debug, PartialEq, Eq, Structural)]
pub enum MinOrMax {
    Min,
    Max,
}

impl MinOrMax {
    /// True exactly for the minimizing direction; a maximizing evaluator must
    /// negate its raw cost before it enters the optimizer.
    pub fn is_minimize(&self) -> (r: bool)
        ensures
            r == (*self == MinOrMax::Min),
    {
        match self {
            MinOrMax::Min => true,
            MinOrMax::Max => false,
        }
    }
}

} // verus!
