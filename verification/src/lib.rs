//! Fitting engine for a lumped-parameter closed-loop cardiovascular model.
//!
//! Scalar model quantities are IEEE-754 double-precision values; inside this
//! library each one is carried as its 64-bit encoding, so that every decision
//! the engine makes on such a value (ordering, range membership, regime
//! selection, NaN handling) is ordinary integer logic and is verified.  The
//! floating-point arithmetic itself (the ODE integrator and the metric
//! formulas) lives in the surrounding application, which calls back into
//! this library for every decision it takes.

pub mod ga;
pub mod metrics;
pub mod order;
pub mod parameters;
pub mod valve;
