//! Structures over two operator tags: rings and fields.
//!
//! The first tag names the addition, the second the multiplication; the two
//! are joined by the distributive law.
use crate::operator::{Additive, Multiplicative, Operator, TwoSidedInverse};
use crate::properties::grouplike::{Commutative, Divisible};
use crate::properties::ringlike::Distributive;
use crate::structures::grouplike::{
    AbstractGroupAbelian, AbstractGroupAbelianElement, AbstractMagma, AbstractMonoid,
    AbstractMonoidElement, Par,
};
use vstd::prelude::*;

verus! {

/// A ring whose multiplication need not be commutative: an Abelian group
/// under `A`, a monoid under `M`, and `M` distributes over `A`.
pub trait AbstractNCRing<A: Operator = Additive, M: Operator = Multiplicative>:
    AbstractGroupAbelian<A, Element = <Self as AbstractNCRing<A, M>>::Element> + AbstractMonoid<
    M,
    Element = <Self as AbstractNCRing<A, M>>::Element,
> + Distributive<A, M> {
    /// The members.
    type Element: AbstractNCRingElement<A, M, Parent = Self>;

    /// Holds of every parent that is a ring under `A` and `M`, commutative or
    /// not.
    fn is_abstract_ncring(&self, _add: A, _mul: M) -> (holds: bool)
        ensures
            holds,
    {
        true
    }
}

/// A member of a ring whose multiplication need not be commutative.
pub trait AbstractNCRingElement<A: Operator = Additive, M: Operator = Multiplicative>:
    AbstractGroupAbelianElement<A> + AbstractMonoidElement<M> {
}

impl<P, A: Operator, M: Operator> AbstractNCRing<A, M> for P where
    P: AbstractGroupAbelian<A> + AbstractMonoid<
        M,
        Element = <P as AbstractGroupAbelian<A>>::Element,
    > + Distributive<A, M>,
    <P as AbstractGroupAbelian<A>>::Element: AbstractGroupAbelianElement<A, Parent = P>
        + AbstractMonoidElement<M, Parent = P>,
 {
    type Element = <P as AbstractGroupAbelian<A>>::Element;
}

impl<T, A: Operator, M: Operator> AbstractNCRingElement<A, M> for T where
    T: AbstractGroupAbelianElement<A> + AbstractMonoidElement<M>,
    Par<T>: AbstractMagma<A, Element = T> + Distributive<A, M>,
 {
}

/// A ring: its multiplication is commutative.
pub trait AbstractRing<A: Operator = Additive, M: Operator = Multiplicative>: AbstractNCRing<
    A,
    M,
    Element = <Self as AbstractRing<A, M>>::Element,
> + Commutative<M> {
    /// The members.
    type Element: AbstractRingElement<A, M, Parent = Self>;

    /// Holds of every parent that is a commutative ring under `A` and `M`.
    fn is_abstract_ring(&self, _add: A, _mul: M) -> (holds: bool)
        ensures
            holds,
    {
        true
    }
}

/// A member of a ring.
pub trait AbstractRingElement<A: Operator = Additive, M: Operator = Multiplicative>:
    AbstractNCRingElement<A, M> {
}

impl<P, A: Operator, M: Operator> AbstractRing<A, M> for P where
    P: AbstractNCRing<A, M> + Commutative<M>,
 {
    type Element = <P as AbstractNCRing<A, M>>::Element;
}

impl<T, A: Operator, M: Operator> AbstractRingElement<A, M> for T where
    T: AbstractNCRingElement<A, M>,
    Par<T>: AbstractMagma<M, Element = T> + Commutative<M>,
 {
}

/// A field: a ring in which every element can be divided by every other.
///
/// The division does not set the neutral element of addition apart: a type
/// that claims divisibility under `M` claims it of all its elements.
pub trait AbstractField<A: Operator = Additive, M: Operator = Multiplicative>: AbstractRing<
    A,
    M,
    Element = <Self as AbstractField<A, M>>::Element,
> + Divisible<M> {
    /// The members, each with its inverse under `M`.
    type Element: AbstractFieldElement<A, M, Parent = Self>;

    /// Holds of every parent that is a field under `A` and `M`.
    fn is_abstract_field(&self, _add: A, _mul: M) -> (holds: bool)
        ensures
            holds,
    {
        true
    }
}

/// A member of a field.
pub trait AbstractFieldElement<A: Operator = Additive, M: Operator = Multiplicative>:
    AbstractRingElement<A, M> + TwoSidedInverse<M> {
}

impl<P, A: Operator, M: Operator> AbstractField<A, M> for P where
    P: AbstractRing<A, M> + Divisible<M>,
    <P as AbstractRing<A, M>>::Element: TwoSidedInverse<M>,
 {
    type Element = <P as AbstractRing<A, M>>::Element;
}

impl<T, A: Operator, M: Operator> AbstractFieldElement<A, M> for T where
    T: AbstractRingElement<A, M> + TwoSidedInverse<M>,
    Par<T>: AbstractMagma<M, Element = T> + Divisible<M>,
 {
}

} // verus!
