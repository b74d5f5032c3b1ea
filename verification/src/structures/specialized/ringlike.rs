//! Rings and fields under the usual tags, addition and multiplication, for
//! elements that also have the infix operators.
use crate::ops::{AddOps, DivOps, InvOps, MulOps, NegOps, SubOps};
use crate::structures::ringlike::{
    AbstractField, AbstractFieldElement, AbstractNCRing, AbstractNCRingElement, AbstractRing,
    AbstractRingElement,
};
use vstd::prelude::*;

verus! {

/// The operators of a ring's elements: `+`, the prefix `-`, the infix `-` and
/// `*`. A type claims them together by implementing this trait.
pub trait RingOps: AddOps + NegOps + SubOps + MulOps {
}

/// A ring under addition and multiplication, commutative or not, whose
/// elements have the ring operators.
pub trait NCRing: AbstractNCRing<Element = <Self as NCRing>::Element> {
    /// The members.
    type Element: NCRingElement<Parent = Self>;

    /// Holds of every parent that is a ring, commutative or not, under
    /// addition and multiplication.
    fn is_ncring(&self) -> (holds: bool)
        ensures
            holds,
    {
        true
    }
}

/// A member of a ring, commutative or not, that has the ring operators.
pub trait NCRingElement: AbstractNCRingElement + RingOps {
}

impl<T> NCRing for T where T: AbstractNCRing, <T as AbstractNCRing>::Element: RingOps {
    type Element = <T as AbstractNCRing>::Element;
}

impl<T> NCRingElement for T where T: AbstractNCRingElement + RingOps {
}

/// A commutative ring under addition and multiplication whose elements have
/// the ring operators.
pub trait Ring: AbstractRing<Element = <Self as Ring>::Element> {
    /// The members.
    type Element: RingElement<Parent = Self>;

    /// Holds of every parent that is a commutative ring under addition and
    /// multiplication.
    fn is_ring(&self) -> (holds: bool)
        ensures
            holds,
    {
        true
    }
}

/// A member of a commutative ring that has the ring operators.
pub trait RingElement: AbstractRingElement + RingOps {
}

impl<T> Ring for T where T: AbstractRing, <T as AbstractRing>::Element: RingOps {
    type Element = <T as AbstractRing>::Element;
}

impl<T> RingElement for T where T: AbstractRingElement + RingOps {
}

/// The operators of a field's elements: those of a ring, `/` and the inverse.
/// A type claims them together by implementing this trait.
pub trait FieldOps: RingOps + InvOps + DivOps {
}

/// A field under addition and multiplication whose elements have the field
/// operators.
pub trait Field: AbstractField<Element = <Self as Field>::Element> {
    /// The members.
    type Element: FieldElement<Parent = Self>;

    /// Holds of every parent that is a field under addition and
    /// multiplication.
    fn is_field(&self) -> (holds: bool)
        ensures
            holds,
    {
        true
    }
}

/// A member of a field that has the field operators.
pub trait FieldElement: AbstractFieldElement + FieldOps {
}

impl<T> Field for T where T: AbstractField, <T as AbstractField>::Element: FieldOps {
    type Element = <T as AbstractField>::Element;
}

impl<T> FieldElement for T where T: AbstractFieldElement + FieldOps {
}

} // verus!
