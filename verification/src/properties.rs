//! The capabilities that are declared of an operator on a set, with their laws.
pub mod grouplike;
pub mod ringlike;
