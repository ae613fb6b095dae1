//! The error taxonomy of the optimizer.

use vstd::prelude::*;

verus! {

/// A rejected configuration, reported before any search state is created.
///
/// Each variant names the violated constraint.
#[derive(Clone, Copy, Debug, PartialEq, Eq, Structural)]
pub enum ConfigError {
    /// The population size must exceed five.
    PopsizeTooSmall,
    /// The dimension, implied by the length of the initial mean, must exceed one.
    DimensionTooSmall,
    /// The initial step size must be strictly positive.
    SigmaNotPositive,
}

/// Raised by `tell` when the fitness vector disagrees in shape with the
/// population it grades.  No partial update is applied.
#[derive(Clone, Copy, Debug, PartialEq, Eq, Structural)]
pub struct ShapeMismatchError;

/// Raised when the eigen-decomposition of the (symmetrized) covariance fails
/// to converge.  Distinct from the eigenvalue safeguard, which silently bounds
/// *valid* decomposition results.
#[derive(Clone, Copy, Debug, PartialEq, Eq, Structural)]
pub struct NumericalError;

} // verus!
