//! The infix operators that a specialized structure asks of its elements.
//!
//! Each trait stands for one operator of the language, closed on the type: the
//! operands and the result have the same type. A type has the trait as soon as
//! it has the operator.
use core::ops::{Add, Div, Mul, Neg, Sub};
use vstd::prelude::*;

verus! {

/// Values that are added with `+`.
pub trait AddOps: Sized + Add<Self, Output = Self> {
}

impl<T> AddOps for T where T: Add<T, Output = T> {
}

/// Values that are negated with the prefix `-`.
pub trait NegOps: Sized + Neg<Output = Self> {
}

impl<T> NegOps for T where T: Neg<Output = T> {
}

/// Values that are subtracted with `-`.
pub trait SubOps: Sized + Sub<Self, Output = Self> {
}

impl<T> SubOps for T where T: Sub<T, Output = T> {
}

/// Values that are multiplied with `*`.
pub trait MulOps: Sized + Mul<Self, Output = Self> {
}

impl<T> MulOps for T where T: Mul<T, Output = T> {
}

/// Values that are divided with `/`.
pub trait DivOps: Sized + Div<Self, Output = Self> {
}

impl<T> DivOps for T where T: Div<T, Output = T> {
}

/// Values with a multiplicative inverse.
pub trait InvOps: Sized {
    /// The inverse as a mathematical function.
    spec fn inv_spec(self) -> Self;

    /// Computes the multiplicative inverse.
    fn inv(self) -> (inverse: Self)
        ensures
            inverse == self.inv_spec(),
    ;
}

} // verus!
