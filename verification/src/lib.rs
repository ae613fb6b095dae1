//! Core decision layer of a CMA-ES optimizer (Covariance Matrix Adaptation
//! Evolution Strategy).
//!
//! CMA-ES repeats one loop: prepare the covariance, sample a population
//! ("ask"), evaluate it, and fold the fitness values back into the search
//! state ("tell") until a convergence check says to stop.  Everything the
//! loop *decides* — validation of the configuration, selection and stable
//! ranking of candidates, best-so-far tracking, the bounded fitness history,
//! the eigenvalue safeguard band, and the stopping rule — lives here and is
//! verified.
//!
//! Scalar measurements cross the boundary as *order keys*: signed 64-bit
//! integers whose ordering agrees with the ordering of the measured values
//! and whose sign agrees with theirs (zero stands for zero).  The standard
//! monotone recoding of IEEE-754 bits is such a key, so a numeric backend
//! can translate losslessly in both directions.  The logic in this crate
//! reads nothing of a scalar but its order, which is exactly what the key
//! preserves.
//!
//! The floating-point linear algebra itself — drawing normal variates,
//! rotating them through the eigenbasis, recombining the mean, adapting the
//! covariance and the step size — is the numeric backend's side of the
//! contract and is driven by the decisions made here.

pub mod errors;
pub mod fitness;
pub mod objectives;
pub mod params;
pub mod prepare;
pub mod sort;
pub mod state;
pub mod strategy;
