//! Derivation and validation of the run parameters.
//!
//! Validation happens before anything is derived: a population size of five
//! or less, a dimension of one or less, or a non-positive initial step size
//! is rejected with the [`ConfigError`] naming the violated constraint.
//!
//! The discrete derived quantity is the selected-parent count
//! `mu = popsize / 2`.  Every setter that changes the population size or the
//! dimension re-derives it: stale derived state is a correctness bug.  The
//! floating-point constants derived alongside it (recombination weights,
//! learning rates, time constants, damping) are functions of `popsize` and
//! the dimension alone, and the numeric backend derives them from this
//! record.

use vstd::prelude::*;

use crate::errors::ConfigError;

verus! {

/// The immutable parameters of one optimization run.
///
/// `xstart`, `sigma` and `tol` hold order keys (see the crate root): the
/// initial mean entry by entry, the initial step size, and the convergence
/// tolerance.
#[derive(Debug, Clone)]
pub struct CmaesParams {
    /// Population size; always greater than five.
    pub popsize: usize,
    /// Keys of the initial mean; its length is the dimension, always greater than one.
    pub xstart: Vec<i64>,
    /// Key of the initial step size; always positive.
    pub sigma: i64,
    /// Key of the convergence tolerance.
    pub tol: i64,
    /// Generation budget for fixed-budget runs.
    pub num_gens: u32,
    /// Whether the covariance is thinned to its diagonal before decomposition.
    pub only_diag: bool,
    /// Derived: the number of selected parents, `popsize / 2`.
    pub mu: usize,
}

impl CmaesParams {
    /// The configuration constraints, and the derived parent count being current.
    pub open spec fn wf(&self) -> bool {
        &&& self.popsize > 5
        &&& self.xstart@.len() > 1
        &&& self.sigma > 0
        &&& self.mu == self.popsize / 2
    }

    /// Which inputs pass validation.
    pub open spec fn config_ok(popsize: usize, dim: nat, sigma: i64) -> bool {
        popsize > 5 && dim > 1 && sigma > 0
    }

    /// Validates the configuration, then derives the parameters.
    ///
    /// The violated constraint is reported in the order population size,
    /// dimension, step size; nothing is derived for a rejected configuration.
    pub fn new(popsize: usize, xstart: Vec<i64>, sigma: i64, tol: i64, num_gens: u32) -> (r:
        Result<CmaesParams, ConfigError>)
        ensures
            r is Ok <==> Self::config_ok(popsize, xstart@.len(), sigma),
            popsize <= 5 ==> r == Err::<CmaesParams, ConfigError>(ConfigError::PopsizeTooSmall),
            popsize > 5 && xstart@.len() <= 1 ==> r == Err::<CmaesParams, ConfigError>(
                ConfigError::DimensionTooSmall,
            ),
            popsize > 5 && xstart@.len() > 1 && sigma <= 0 ==> r == Err::<CmaesParams, ConfigError>(
                ConfigError::SigmaNotPositive,
            ),
            r matches Ok(p) ==> {
                &&& p.popsize == popsize
                &&& p.xstart@ == xstart@
                &&& p.sigma == sigma
                &&& p.tol == tol
                &&& p.num_gens == num_gens
                &&& p.only_diag == false
                &&& p.mu == popsize / 2
                &&& p.wf()
            },
    {
        if popsize <= 5 {
            return Err(ConfigError::PopsizeTooSmall);
        }
        if xstart.len() <= 1 {
            return Err(ConfigError::DimensionTooSmall);
        }
        if sigma <= 0 {
            return Err(ConfigError::SigmaNotPositive);
        }
        let mu: usize = popsize / 2;
        Ok(CmaesParams { popsize, xstart, sigma, tol, num_gens, only_diag: false, mu })
    }

    /// The problem dimension, implied by the length of the initial mean.
    pub fn dim(&self) -> (r: usize)
        ensures
            r == self.xstart@.len(),
    {
        self.xstart.len()
    }

    /// Re-derives every quantity that depends on the population size or the
    /// dimension.
    pub fn update_dependent_params(&mut self)
        ensures
            final(self).mu == old(self).popsize / 2,
            final(self).popsize == old(self).popsize,
            final(self).xstart@ == old(self).xstart@,
            final(self).sigma == old(self).sigma,
            final(self).tol == old(self).tol,
            final(self).num_gens == old(self).num_gens,
            final(self).only_diag == old(self).only_diag,
    {
        self.mu = self.popsize / 2;
    }

    /// Replaces the population size, re-validating and re-deriving.
    pub fn set_popsize(self, popsize: usize) -> (r: Result<CmaesParams, ConfigError>)
        ensures
            r is Ok <==> popsize > 5,
            popsize <= 5 ==> r == Err::<CmaesParams, ConfigError>(ConfigError::PopsizeTooSmall),
            r matches Ok(p) ==> {
                &&& p.popsize == popsize
                &&& p.mu == popsize / 2
                &&& p.xstart@ == self.xstart@
                &&& p.sigma == self.sigma
                &&& p.tol == self.tol
                &&& p.num_gens == self.num_gens
                &&& p.only_diag == self.only_diag
            },
    {
        if popsize <= 5 {
            return Err(ConfigError::PopsizeTooSmall);
        }
        let mut p = self;
        p.popsize = popsize;
        p.update_dependent_params();
        Ok(p)
    }

    /// Replaces the initial mean by `capacity` copies of `origin` (a key),
    /// re-validating the implied dimension and re-deriving.
    pub fn set_xstart(self, capacity: usize, origin: i64) -> (r: Result<CmaesParams, ConfigError>)
        ensures
            r is Ok <==> capacity > 1,
            capacity <= 1 ==> r == Err::<CmaesParams, ConfigError>(ConfigError::DimensionTooSmall),
            r matches Ok(p) ==> {
                &&& p.xstart@ == Seq::new(capacity as nat, |i: int| origin)
                &&& p.mu == self.popsize / 2
                &&& p.popsize == self.popsize
                &&& p.sigma == self.sigma
                &&& p.tol == self.tol
                &&& p.num_gens == self.num_gens
                &&& p.only_diag == self.only_diag
            },
    {
        if capacity <= 1 {
            return Err(ConfigError::DimensionTooSmall);
        }
        let mut p = self;
        let mut xstart: Vec<i64> = Vec::new();
        while xstart.len() < capacity
            invariant
                xstart@ =~= Seq::new(xstart@.len(), |i: int| origin),
                xstart@.len() <= capacity,
            decreases capacity - xstart@.len(),
        {
            xstart.push(origin);
        }
        p.xstart = xstart;
        p.update_dependent_params();
        Ok(p)
    }

    /// Replaces the initial step size (a key), re-validating it.
    pub fn set_sigma(self, sigma: i64) -> (r: Result<CmaesParams, ConfigError>)
        ensures
            r is Ok <==> sigma > 0,
            sigma <= 0 ==> r == Err::<CmaesParams, ConfigError>(ConfigError::SigmaNotPositive),
            r matches Ok(p) ==> {
                &&& p.sigma == sigma
                &&& p.popsize == self.popsize
                &&& p.xstart@ == self.xstart@
                &&& p.tol == self.tol
                &&& p.num_gens == self.num_gens
                &&& p.only_diag == self.only_diag
                &&& p.mu == self.mu
            },
    {
        if sigma <= 0 {
            return Err(ConfigError::SigmaNotPositive);
        }
        let mut p = self;
        p.sigma = sigma;
        Ok(p)
    }

    /// Replaces the convergence tolerance (a key).
    pub fn set_tol(self, tol: i64) -> (r: Result<CmaesParams, ConfigError>)
        ensures
            r matches Ok(p) && {
                &&& p.tol == tol
                &&& p.popsize == self.popsize
                &&& p.xstart@ == self.xstart@
                &&& p.sigma == self.sigma
                &&& p.num_gens == self.num_gens
                &&& p.only_diag == self.only_diag
                &&& p.mu == self.mu
            },
    {
        let mut p = self;
        p.tol = tol;
        Ok(p)
    }

    /// Switches the covariance between full and diagonal-only form.
    pub fn set_only_diag(self, only_diag: bool) -> (r: Result<CmaesParams, ConfigError>)
        ensures
            r matches Ok(p) && {
                &&& p.only_diag == only_diag
                &&& p.popsize == self.popsize
                &&& p.xstart@ == self.xstart@
                &&& p.sigma == self.sigma
                &&& p.tol == self.tol
                &&& p.num_gens == self.num_gens
                &&& p.mu == self.mu
            },
    {
        let mut p = self;
        p.only_diag = only_diag;
        Ok(p)
    }

    /// Replaces the generation budget.
    pub fn set_num_gens(self, num_gens: u32) -> (r: Result<CmaesParams, ConfigError>)
        ensures
            r matches Ok(p) && {
                &&& p.num_gens == num_gens
                &&& p.popsize == self.popsize
                &&& p.xstart@ == self.xstart@
                &&& p.sigma == self.sigma
                &&& p.tol == self.tol
                &&& p.only_diag == self.only_diag
                &&& p.mu == self.mu
            },
    {
        let mut p = self;
        p.num_gens = num_gens;
        Ok(p)
    }
}

} // verus!
