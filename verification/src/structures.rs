//! The derivation lattice: which structure a parent with its operator tags is.
pub mod grouplike;
pub mod ringlike;
pub mod specialized;
