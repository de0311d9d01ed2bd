//! Fixed-point iteration with acceleration algorithms.
//!
//! Given a map `g`, the iteration looks for `x*` with `g(x*) = x*`.  This crate
//! holds the verified part of that search: which acceleration step each
//! algorithm takes at each iteration, and the iteration loop that records the
//! history and decides when to stop.  The vector arithmetic itself is supplied
//! by the caller as closures, so the loop is generic over the vector type.

pub mod types;
pub mod schedule;
pub mod iteration;

pub use types::{Algorithm, TerminationStatus, Schedule};
