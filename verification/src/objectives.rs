//! Descriptions of the bundled example objectives.
//!
//! An objective here is a description: its dimension and its optimization
//! direction, which is what the optimizer core reads of it.  The cost
//! formulas themselves (sum of squares, standard deviation, the Rastrigin
//! landscape, a negated parabola) are floating-point work and belong to the
//! evaluator that pairs the optimizer with a numeric backend.

use vstd::prelude::*;

use crate::fitness::MinOrMax;

verus! {

/// Sum of squared coordinates; its minimum is the origin.
pub struct SquareAndSum {
    pub obj_dim: usize,
    pub dir: MinOrMax,
}

impl SquareAndSum {
    pub fn cost_dim(&self) -> (r: usize)
        ensures
            r == self.obj_dim,
    {
        self.obj_dim
    }

    pub fn optimization_type(&self) -> (r: &MinOrMax)
        ensures
            r == self.dir,
    {
        &self.dir
    }
}

/// Standard deviation of the coordinates; constant vectors score best.
pub struct StdAndSum {
    pub obj_dim: usize,
    pub dir: MinOrMax,
}

impl StdAndSum {
    pub fn cost_dim(&self) -> (r: usize)
        ensures
            r == self.obj_dim,
    {
        self.obj_dim
    }

    pub fn optimization_type(&self) -> (r: &MinOrMax)
        ensures
            r == self.dir,
    {
        &self.dir
    }
}

/// The Rastrigin landscape, a highly multimodal classic benchmark.
pub struct Rastrigin {
    pub obj_dim: usize,
    pub dir: MinOrMax,
}

impl Rastrigin {
    pub fn cost_dim(&self) -> (r: usize)
        ensures
            r == self.obj_dim,
    {
        self.obj_dim
    }

    pub fn optimization_type(&self) -> (r: &MinOrMax)
        ensures
            r == self.dir,
    {
        &self.dir
    }
}

/// A downward parabola with its peak above the origin.
pub struct XSquare {
    pub obj_dim: usize,
    pub dir: MinOrMax,
}

impl XSquare {
    pub fn cost_dim(&self) -> (r: usize)
        ensures
            r == self.obj_dim,
    {
        self.obj_dim
    }

    pub fn optimization_type(&self) -> (r: &MinOrMax)
        ensures
            r == self.dir,
    {
        &self.dir
    }
}

} // verus!
