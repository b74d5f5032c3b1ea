//! The group-like structures under the two usual tags, addition and
//! multiplication, for elements that also have the infix operators.
use crate::operator::{Additive, Multiplicative};
use crate::ops::{AddOps, DivOps, InvOps, MulOps, NegOps, SubOps};
use crate::structures::grouplike::{
    AbstractGroup, AbstractGroupAbelian, AbstractGroupAbelianElement, AbstractGroupElement,
    AbstractLoop, AbstractLoopElement, AbstractMagma, AbstractMagmaElement, AbstractMonoid,
    AbstractMonoidElement, AbstractQuasigroup, AbstractQuasigroupElement, AbstractSemigroup,
    AbstractSemigroupElement, Elem,
};
use vstd::prelude::*;

verus! {

/// The operator that the elements of an additive magma have: `+`.
pub trait AddMagmaOps: AddOps {
}

impl<T> AddMagmaOps for T where T: AddOps {
}

/// The operators that the elements of an additive quasigroup have: `+`, the
/// prefix `-` and the infix `-`.
pub trait AddQuasigroupOps: AddOps + NegOps + SubOps {
}

impl<T> AddQuasigroupOps for T where T: AddOps + NegOps + SubOps {
}

/// A magma under addition whose elements are added with `+`.
pub trait AdditiveMagma: AbstractMagma<Additive, Element = <Self as AdditiveMagma>::Element> {
    /// The members.
    type Element: AdditiveMagmaElement<Parent = Self>;

    /// Holds of every parent that is a magma under addition.
    fn is_additive_magma(&self) -> (holds: bool)
        ensures
            holds,
    {
        true
    }
}

/// A member of a magma under addition that has the infix operators.
pub trait AdditiveMagmaElement: AbstractMagmaElement<Additive> + AddMagmaOps {
}

impl<T> AdditiveMagma for T where
    T: AbstractMagma<Additive>,
    <T as AbstractMagma<Additive>>::Element: AddMagmaOps,
 {
    type Element = Elem<T>;
}

impl<T> AdditiveMagmaElement for T where T: AbstractMagmaElement<Additive> + AddMagmaOps {
}

/// A quasigroup under addition whose elements are added, negated and
/// subtracted with `+` and `-`.
pub trait AdditiveQuasigroup: AbstractQuasigroup<
    Additive,
    Element = <Self as AdditiveQuasigroup>::Element,
> {
    /// The members.
    type Element: AdditiveQuasigroupElement<Parent = Self>;

    /// Holds of every parent that is a quasigroup under addition.
    fn is_additive_quasigroup(&self) -> (holds: bool)
        ensures
            holds,
    {
        true
    }
}

/// A member of a quasigroup under addition that has the infix operators.
pub trait AdditiveQuasigroupElement: AbstractQuasigroupElement<Additive> + AddQuasigroupOps {
}

impl<T> AdditiveQuasigroup for T where
    T: AbstractQuasigroup<Additive>,
    <T as AbstractQuasigroup<Additive>>::Element: AddQuasigroupOps,
 {
    type Element = Elem<T>;
}

impl<T> AdditiveQuasigroupElement for T where
    T: AbstractQuasigroupElement<Additive> + AddQuasigroupOps,
 {
}

/// A semigroup under addition whose elements are added with `+`.
pub trait AdditiveSemigroup: AbstractSemigroup<
    Additive,
    Element = <Self as AdditiveSemigroup>::Element,
> {
    /// The members.
    type Element: AdditiveSemigroupElement<Parent = Self>;

    /// Holds of every parent that is a semigroup under addition.
    fn is_additive_semigroup(&self) -> (holds: bool)
        ensures
            holds,
    {
        true
    }
}

/// A member of a semigroup under addition that has the infix operators.
pub trait AdditiveSemigroupElement: AbstractSemigroupElement<Additive> + AddMagmaOps {
}

impl<T> AdditiveSemigroup for T where
    T: AbstractSemigroup<Additive>,
    <T as AbstractSemigroup<Additive>>::Element: AddMagmaOps,
 {
    type Element = Elem<T>;
}

impl<T> AdditiveSemigroupElement for T where T: AbstractSemigroupElement<Additive> + AddMagmaOps {
}

/// A loop under addition whose elements are added, negated and subtracted
/// with `+` and `-`.
pub trait AdditiveLoop: AbstractLoop<Additive, Element = <Self as AdditiveLoop>::Element> {
    /// The members.
    type Element: AdditiveLoopElement<Parent = Self>;

    /// Holds of every parent that is a loop under addition.
    fn is_additive_loop(&self) -> (holds: bool)
        ensures
            holds,
    {
        true
    }
}

/// A member of a loop under addition that has the infix operators.
pub trait AdditiveLoopElement: AbstractLoopElement<Additive> + AddQuasigroupOps {
}

impl<T> AdditiveLoop for T where
    T: AbstractLoop<Additive>,
    <T as AbstractLoop<Additive>>::Element: AddQuasigroupOps,
 {
    type Element = Elem<T>;
}

impl<T> AdditiveLoopElement for T where T: AbstractLoopElement<Additive> + AddQuasigroupOps {
}

/// A monoid under addition whose elements are added, negated and subtracted
/// with `+` and `-`.
pub trait AdditiveMonoid: AbstractMonoid<Additive, Element = <Self as AdditiveMonoid>::Element> {
    /// The members.
    type Element: AdditiveMonoidElement<Parent = Self>;

    /// Holds of every parent that is a monoid under addition.
    fn is_additive_monoid(&self) -> (holds: bool)
        ensures
            holds,
    {
        true
    }
}

/// A member of a monoid under addition that has the infix operators.
pub trait AdditiveMonoidElement: AbstractMonoidElement<Additive> + AddQuasigroupOps {
}

impl<T> AdditiveMonoid for T where
    T: AbstractMonoid<Additive>,
    <T as AbstractMonoid<Additive>>::Element: AddQuasigroupOps,
 {
    type Element = Elem<T>;
}

impl<T> AdditiveMonoidElement for T where T: AbstractMonoidElement<Additive> + AddQuasigroupOps {
}

/// A group under addition whose elements are added, negated and subtracted
/// with `+` and `-`.
pub trait AdditiveGroup: AbstractGroup<Additive, Element = <Self as AdditiveGroup>::Element> {
    /// The members.
    type Element: AdditiveGroupElement<Parent = Self>;

    /// Holds of every parent that is a group under addition.
    fn is_additive_group(&self) -> (holds: bool)
        ensures
            holds,
    {
        true
    }
}

/// A member of a group under addition that has the infix operators.
pub trait AdditiveGroupElement: AbstractGroupElement<Additive> + AddQuasigroupOps {
}

impl<T> AdditiveGroup for T where
    T: AbstractGroup<Additive>,
    <T as AbstractGroup<Additive>>::Element: AddQuasigroupOps,
 {
    type Element = Elem<T>;
}

impl<T> AdditiveGroupElement for T where T: AbstractGroupElement<Additive> + AddQuasigroupOps {
}

/// An Abelian group under addition whose elements are added, negated and
/// subtracted with `+` and `-`.
pub trait AdditiveGroupAbelian: AbstractGroupAbelian<
    Additive,
    Element = <Self as AdditiveGroupAbelian>::Element,
> {
    /// The members.
    type Element: AdditiveGroupAbelianElement<Parent = Self>;

    /// Holds of every parent that is an Abelian group under addition.
    fn is_additive_group_abelian(&self) -> (holds: bool)
        ensures
            holds,
    {
        true
    }
}

/// A member of an Abelian group under addition that has the infix operators.
pub trait AdditiveGroupAbelianElement: AbstractGroupAbelianElement<Additive> + AddQuasigroupOps {
}

impl<T> AdditiveGroupAbelian for T where
    T: AbstractGroupAbelian<Additive>,
    <T as AbstractGroupAbelian<Additive>>::Element: AddQuasigroupOps,
 {
    type Element = Elem<T>;
}

impl<T> AdditiveGroupAbelianElement for T where
    T: AbstractGroupAbelianElement<Additive> + AddQuasigroupOps,
 {
}

/// A magma under multiplication whose elements are multiplied with `*`.
pub trait MultiplicativeMagma: AbstractMagma<
    Multiplicative,
    Element = <Self as MultiplicativeMagma>::Element,
> {
    /// The members.
    type Element: MultiplicativeMagmaElement<Parent = Self>;

    /// Holds of every parent that is a magma under multiplication.
    fn is_multiplicative_magma(&self) -> (holds: bool)
        ensures
            holds,
    {
        true
    }
}

/// A member of a magma under multiplication that has the infix operators.
pub trait MultiplicativeMagmaElement: AbstractMagmaElement<Multiplicative> + MulOps {
}

impl<T> MultiplicativeMagma for T where
    T: AbstractMagma<Multiplicative>,
    <T as AbstractMagma<Multiplicative>>::Element: MulOps,
 {
    type Element = Elem<T>;
}

impl<T> MultiplicativeMagmaElement for T where T: AbstractMagmaElement<Multiplicative> + MulOps {
}

/// A quasigroup under multiplication whose elements are divided with `/` and
/// inverted.
pub trait MultiplicativeQuasigroup: AbstractQuasigroup<
    Multiplicative,
    Element = <Self as MultiplicativeQuasigroup>::Element,
> {
    /// The members.
    type Element: MultiplicativeQuasigroupElement<Parent = Self>;

    /// Holds of every parent that is a quasigroup under multiplication.
    fn is_multiplicative_quasigroup(&self) -> (holds: bool)
        ensures
            holds,
    {
        true
    }
}

/// A member of a quasigroup under multiplication that has the infix
/// operators.
pub trait MultiplicativeQuasigroupElement:
    AbstractQuasigroupElement<Multiplicative> + DivOps + InvOps {
}

impl<T> MultiplicativeQuasigroup for T where
    T: AbstractQuasigroup<Multiplicative>,
    <T as AbstractQuasigroup<Multiplicative>>::Element: DivOps + InvOps,
 {
    type Element = Elem<T>;
}

impl<T> MultiplicativeQuasigroupElement for T where
    T: AbstractQuasigroupElement<Multiplicative> + DivOps + InvOps,
 {
}

/// A semigroup under multiplication.
pub trait MultiplicativeSemigroup: AbstractSemigroup<
    Multiplicative,
    Element = <Self as MultiplicativeSemigroup>::Element,
> {
    /// The members.
    type Element: MultiplicativeSemigroupElement<Parent = Self>;

    /// Holds of every parent that is a semigroup under multiplication.
    fn is_multiplicative_semigroup(&self) -> (holds: bool)
        ensures
            holds,
    {
        true
    }
}

/// A member of a semigroup under multiplication.
pub trait MultiplicativeSemigroupElement: AbstractSemigroupElement<Multiplicative> {
}

impl<T> MultiplicativeSemigroup for T where T: AbstractSemigroup<Multiplicative> {
    type Element = Elem<T>;
}

impl<T> MultiplicativeSemigroupElement for T where T: AbstractSemigroupElement<Multiplicative> {
}

/// A loop under multiplication.
pub trait MultiplicativeLoop: AbstractLoop<
    Multiplicative,
    Element = <Self as MultiplicativeLoop>::Element,
> {
    /// The members.
    type Element: MultiplicativeLoopElement<Parent = Self>;

    /// Holds of every parent that is a loop under multiplication.
    fn is_multiplicative_loop(&self) -> (holds: bool)
        ensures
            holds,
    {
        true
    }
}

/// A member of a loop under multiplication.
pub trait MultiplicativeLoopElement: AbstractLoopElement<Multiplicative> {
}

impl<T> MultiplicativeLoop for T where T: AbstractLoop<Multiplicative> {
    type Element = Elem<T>;
}

impl<T> MultiplicativeLoopElement for T where T: AbstractLoopElement<Multiplicative> {
}

/// A monoid under multiplication.
pub trait MultiplicativeMonoid: AbstractMonoid<
    Multiplicative,
    Element = <Self as MultiplicativeMonoid>::Element,
> {
    /// The members.
    type Element: MultiplicativeMonoidElement<Parent = Self>;

    /// Holds of every parent that is a monoid under multiplication.
    fn is_multiplicative_monoid(&self) -> (holds: bool)
        ensures
            holds,
    {
        true
    }
}

/// A member of a monoid under multiplication.
pub trait MultiplicativeMonoidElement: AbstractMonoidElement<Multiplicative> {
}

impl<T> MultiplicativeMonoid for T where T: AbstractMonoid<Multiplicative> {
    type Element = Elem<T>;
}

impl<T> MultiplicativeMonoidElement for T where T: AbstractMonoidElement<Multiplicative> {
}

/// A group under multiplication.
pub trait MultiplicativeGroup: AbstractGroup<
    Multiplicative,
    Element = <Self as MultiplicativeGroup>::Element,
> {
    /// The members.
    type Element: MultiplicativeGroupElement<Parent = Self>;

    /// Holds of every parent that is a group under multiplication.
    fn is_multiplicative_group(&self) -> (holds: bool)
        ensures
            holds,
    {
        true
    }
}

/// A member of a group under multiplication.
pub trait MultiplicativeGroupElement: AbstractGroupElement<Multiplicative> {
}

impl<T> MultiplicativeGroup for T where T: AbstractGroup<Multiplicative> {
    type Element = Elem<T>;
}

impl<T> MultiplicativeGroupElement for T where T: AbstractGroupElement<Multiplicative> {
}

/// An Abelian group under multiplication.
pub trait MultiplicativeGroupAbelian: AbstractGroupAbelian<
    Multiplicative,
    Element = <Self as MultiplicativeGroupAbelian>::Element,
> {
    /// The members.
    type Element: MultiplicativeGroupAbelianElement<Parent = Self>;

    /// Holds of every parent that is an Abelian group under multiplication.
    fn is_multiplicative_group_abelian(&self) -> (holds: bool)
        ensures
            holds,
    {
        true
    }
}

/// A member of an Abelian group under multiplication.
pub trait MultiplicativeGroupAbelianElement: AbstractGroupAbelianElement<Multiplicative> {
}

impl<T> MultiplicativeGroupAbelian for T where T: AbstractGroupAbelian<Multiplicative> {
    type Element = Elem<T>;
}

impl<T> MultiplicativeGroupAbelianElement for T where
    T: AbstractGroupAbelianElement<Multiplicative>,
 {
}

} // verus!
