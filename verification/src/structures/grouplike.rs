//! Structures over one operator tag, from magma to Abelian group.
//!
//! No structure is declared by hand. A parent is a member of a structure as
//! soon as it, and its element type, have the capabilities that the structure
//! asks for; an element type is a member of the element side of a structure as
//! soon as it, and its parent, have them.
use crate::operator::{Operation, Operator, TwoSidedInverse};
use crate::properties::grouplike::{Associative, Commutative, Divisible, Identity, IsIdentity};
use vstd::prelude::*;

verus! {

/// The element type of a parent.
pub type Elem<T> = <T as Parent>::Element;

/// The parent type of an element.
pub type Par<T> = <T as Element>::Parent;

/// A concrete member of an algebraic set.
pub trait Element: Clone + PartialEq {
    /// The descriptor of the set that the value belongs to.
    type Parent;

    /// The owner as a mathematical function of the value.
    spec fn parent_spec(&self) -> Self::Parent;

    /// The set that the value came from.
    fn parent(&self) -> (owner: Self::Parent)
        ensures
            owner == self.parent_spec(),
    ;
}

/// The descriptor of an algebraic set. Its element type names the descriptor
/// as its owner.
pub trait Parent: Sized {
    /// The type of the members of the set.
    type Element: Element<Parent = Self>;
}

/// A magma: a set with a closed binary operation.
pub trait AbstractMagma<O: Operator>: Parent<Element = <Self as AbstractMagma<O>>::Element> {
    /// The members, which combine under `O`.
    type Element: AbstractMagmaElement<O, Parent = Self>;

    /// Holds of every parent that is a magma under `O`.
    fn is_abstract_magma(&self, _tag: O) -> (holds: bool)
        ensures
            holds,
    {
        true
    }
}

/// A member of a magma.
pub trait AbstractMagmaElement<O: Operator>: Element + Operation<O> {
}

impl<T, O: Operator> AbstractMagma<O> for T where T: Parent, Elem<T>: Operation<O> {
    type Element = Elem<T>;
}

impl<T, O: Operator> AbstractMagmaElement<O> for T where T: Element + Operation<O> {
}

/// A quasigroup: a magma with the Latin square property.
pub trait AbstractQuasigroup<O: Operator>: AbstractMagma<
    O,
    Element = <Self as AbstractQuasigroup<O>>::Element,
> + Divisible<O> {
    /// The members, each with its inverse.
    type Element: AbstractQuasigroupElement<O, Parent = Self>;

    /// Holds of every parent that is a quasigroup under `O`.
    fn is_abstract_quasigroup(&self, _tag: O) -> (holds: bool)
        ensures
            holds,
    {
        true
    }
}

/// A member of a quasigroup.
pub trait AbstractQuasigroupElement<O: Operator>: AbstractMagmaElement<O> + TwoSidedInverse<O> {
}

impl<T, O: Operator> AbstractQuasigroup<O> for T where
    T: AbstractMagma<O> + Divisible<O>,
    Elem<T>: TwoSidedInverse<O>,
 {
    type Element = Elem<T>;
}

impl<T, O: Operator> AbstractQuasigroupElement<O> for T where
    T: AbstractMagmaElement<O> + TwoSidedInverse<O>,
    Par<T>: AbstractMagma<O, Element = T> + Divisible<O>,
 {
}

/// A semigroup: a magma whose operation is associative.
pub trait AbstractSemigroup<O: Operator>: AbstractMagma<
    O,
    Element = <Self as AbstractSemigroup<O>>::Element,
> + Associative<O> {
    /// The members.
    type Element: AbstractSemigroupElement<O, Parent = Self>;

    /// Holds of every parent that is a semigroup under `O`.
    fn is_abstract_semigroup(&self, _tag: O) -> (holds: bool)
        ensures
            holds,
    {
        true
    }
}

/// A member of a semigroup.
pub trait AbstractSemigroupElement<O: Operator>: AbstractMagmaElement<O> {
}

impl<T, O: Operator> AbstractSemigroup<O> for T where T: AbstractMagma<O> + Associative<O> {
    type Element = Elem<T>;
}

impl<T, O: Operator> AbstractSemigroupElement<O> for T where
    T: AbstractMagmaElement<O>,
    Par<T>: AbstractMagma<O, Element = T> + Associative<O>,
 {
}

/// A loop: a quasigroup with a neutral element.
pub trait AbstractLoop<O: Operator>: AbstractQuasigroup<
    O,
    Element = <Self as AbstractLoop<O>>::Element,
> + Identity<O> {
    /// The members, each able to tell whether it is the neutral element.
    type Element: AbstractLoopElement<O, Parent = Self>;

    /// Holds of every parent that is a loop under `O`.
    fn is_abstract_loop(&self, _tag: O) -> (holds: bool)
        ensures
            holds,
    {
        true
    }
}

/// A member of a loop.
pub trait AbstractLoopElement<O: Operator>: AbstractQuasigroupElement<O> + IsIdentity<O> {
}

impl<T, O: Operator> AbstractLoop<O> for T where
    T: AbstractQuasigroup<O> + Identity<O>,
    Elem<T>: IsIdentity<O>,
 {
    type Element = Elem<T>;
}

impl<T, O: Operator> AbstractLoopElement<O> for T where
    T: AbstractQuasigroupElement<O> + IsIdentity<O>,
    Par<T>: AbstractMagma<O, Element = T> + Identity<O>,
 {
}

/// A monoid: a semigroup with a neutral element.
pub trait AbstractMonoid<O: Operator>: AbstractSemigroup<
    O,
    Element = <Self as AbstractMonoid<O>>::Element,
> + Identity<O> {
    /// The members, each able to tell whether it is the neutral element.
    type Element: AbstractMonoidElement<O, Parent = Self>;

    /// Holds of every parent that is a monoid under `O`.
    fn is_abstract_monoid(&self, _tag: O) -> (holds: bool)
        ensures
            holds,
    {
        true
    }
}

/// A member of a monoid.
pub trait AbstractMonoidElement<O: Operator>: AbstractSemigroupElement<O> + IsIdentity<O> {
}

impl<T, O: Operator> AbstractMonoid<O> for T where
    T: AbstractSemigroup<O> + Identity<O>,
    Elem<T>: IsIdentity<O>,
 {
    type Element = Elem<T>;
}

impl<T, O: Operator> AbstractMonoidElement<O> for T where
    T: AbstractSemigroupElement<O> + IsIdentity<O>,
    Par<T>: AbstractMagma<O, Element = T> + Identity<O>,
 {
}

/// A group: a loop whose operation is associative, which makes it a monoid
/// too.
pub trait AbstractGroup<O: Operator>: AbstractLoop<
    O,
    Element = <Self as AbstractGroup<O>>::Element,
> + Associative<O> {
    /// The members.
    type Element: AbstractGroupElement<O, Parent = Self>;

    /// Holds of every parent that is a group under `O`.
    fn is_abstract_group(&self, _tag: O) -> (holds: bool)
        ensures
            holds,
    {
        true
    }
}

/// A member of a group.
pub trait AbstractGroupElement<O: Operator>: AbstractLoopElement<O> {
}

impl<T, O: Operator> AbstractGroup<O> for T where T: AbstractLoop<O> + Associative<O> {
    type Element = Elem<T>;
}

impl<T, O: Operator> AbstractGroupElement<O> for T where
    T: AbstractLoopElement<O>,
    Par<T>: AbstractMagma<O, Element = T> + Associative<O>,
 {
}

/// An Abelian group: a group whose operation is commutative.
pub trait AbstractGroupAbelian<O: Operator>: AbstractGroup<
    O,
    Element = <Self as AbstractGroupAbelian<O>>::Element,
> + Commutative<O> {
    /// The members.
    type Element: AbstractGroupAbelianElement<O, Parent = Self>;

    /// Holds of every parent that is an Abelian group under `O`.
    fn is_abstract_group_abelian(&self, _tag: O) -> (holds: bool)
        ensures
            holds,
    {
        true
    }
}

/// A member of an Abelian group.
pub trait AbstractGroupAbelianElement<O: Operator>: AbstractGroupElement<O> {
}

impl<T, O: Operator> AbstractGroupAbelian<O> for T where T: AbstractGroup<O> + Commutative<O> {
    type Element = Elem<T>;
}

impl<T, O: Operator> AbstractGroupAbelianElement<O> for T where
    T: AbstractGroupElement<O>,
    Par<T>: AbstractMagma<O, Element = T> + Commutative<O>,
 {
}

} // verus!
