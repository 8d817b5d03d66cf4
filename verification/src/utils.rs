//! Utilities layered over the wrapper primitives.

pub mod interpolator;
