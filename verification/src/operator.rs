//! Operator tags and the element-side primitives that are stated per tag.
//!
//! A tag is a zero-sized token that says which binary operation is meant, so
//! that one value type can carry several unrelated algebraic structures at
//! once. Every executable primitive has a mathematical twin of the same
//! shape, named with the suffix `_spec`; the laws of the capability traits are
//! stated over those.
use vstd::prelude::*;

verus! {

/// A marker for one binary operation.
pub trait Operator: Copy {
    /// The tag as a value.
    fn operator_token() -> Self;
}

/// The tag of the operation that is written `+`.
#[derive(Clone, Copy)]
pub struct Additive;

/// The tag of the operation that is written `×`.
#[derive(Clone, Copy)]
pub struct Multiplicative;

impl Operator for Additive {
    fn operator_token() -> (tag: Self)
        ensures
            tag == Additive,
    {
        Additive
    }
}

impl Operator for Multiplicative {
    fn operator_token() -> (tag: Self)
        ensures
            tag == Multiplicative,
    {
        Multiplicative
    }
}

/// Closure under the operation tagged `O`: two values of the type combine to a
/// third of the same type, for every pair of values.
pub trait Operation<O: Operator>: Sized {
    /// The operation as a mathematical function.
    spec fn operate_spec(&self, right: &Self) -> Self;

    /// Computes `self ∘ right`.
    fn operate(&self, right: &Self) -> (result: Self)
        ensures
            result == self.operate_spec(right),
    ;

    /// Computes `self ∘ right`, the operation being picked by the tag's value.
    fn op(&self, _tag: O, right: &Self) -> (result: Self)
        ensures
            result == self.operate_spec(right),
    {
        self.operate(right)
    }
}

/// An inverse under the operation tagged `O`.
///
/// What the inverse is good for is stated by the capability that rests on it,
/// [`Divisible`](crate::properties::grouplike::Divisible).
pub trait TwoSidedInverse<O: Operator>: Operation<O> {
    /// The inverse as a mathematical function.
    spec fn two_sided_inverse_spec(&self) -> Self;

    /// Computes the inverse of `self`.
    fn two_sided_inverse(&self) -> (result: Self)
        ensures
            result == self.two_sided_inverse_spec(),
    ;
}

} // verus!
