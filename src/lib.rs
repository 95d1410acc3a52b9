//! State algebra and trajectory recording for a two-body integrator.
//!
//! The scalar type is a parameter: the algebra moves, pairs and combines the
//! eight components of a state without knowing how the scalars are added or
//! multiplied, which the caller supplies as closures.
use vstd::prelude::*;

pub mod state;
pub mod trajectory;
