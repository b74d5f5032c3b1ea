//! Capabilities of one operator: identity, associativity, divisibility and
//! commutativity.
//!
//! A capability is claimed by implementing its trait, and the lattice takes
//! the claim at its word. What is claimed is a law, stated over the element
//! type's own equality. The claim offers sampling predicates that test the law
//! on given elements: one by strict equality, one by a comparison that the
//! caller hands in (a tolerance for elements that are backed by floating
//! point). A claim is proved by implementing the law trait that stands next to
//! it; the theorems of [`crate::laws`] hold of claims that are proved.
use crate::operator::{Additive, Multiplicative, Operation, Operator, TwoSidedInverse};
use crate::structures::grouplike::{AbstractMagma, Elem};
use vstd::prelude::*;
use vstd::std_specs::cmp::PartialEqSpec;

verus! {

/// `(a ∘ b) ∘ c`.
pub open spec fn operate_left<E: Operation<O>, O: Operator>(a: E, b: E, c: E) -> E {
    a.operate_spec(&b).operate_spec(&c)
}

/// `a ∘ (b ∘ c)`.
pub open spec fn operate_right<E: Operation<O>, O: Operator>(a: E, b: E, c: E) -> E {
    a.operate_spec(&b.operate_spec(&c))
}

/// `(a ∘ b⁻¹) ∘ b`: dividing by `b` on the right and operating with it again.
pub open spec fn divide_operate<E: TwoSidedInverse<O>, O: Operator>(a: E, b: E) -> E {
    a.operate_spec(&b.two_sided_inverse_spec()).operate_spec(&b)
}

/// `a ∘ (b ∘ b⁻¹)`.
pub open spec fn operate_divide<E: TwoSidedInverse<O>, O: Operator>(a: E, b: E) -> E {
    a.operate_spec(&b.operate_spec(&b.two_sided_inverse_spec()))
}

/// `x` is neutral for `a`: `a ∘ x` and `x ∘ a` both equal `a`.
pub open spec fn neutral_at<E: Operation<O> + PartialEq, O: Operator>(x: E, a: E) -> bool {
    a.operate_spec(&x).eq_spec(&a) && x.operate_spec(&a).eq_spec(&a)
}

/// The associative law on one sample: `(a ∘ b) ∘ c` equals `a ∘ (b ∘ c)`.
pub open spec fn associative_at<E: Operation<O> + PartialEq, O: Operator>(
    a: E,
    b: E,
    c: E,
) -> bool {
    operate_left::<E, O>(a, b, c).eq_spec(&operate_right::<E, O>(a, b, c))
}

/// The commutative law on one sample: `a ∘ b` equals `b ∘ a`.
pub open spec fn commutative_at<E: Operation<O> + PartialEq, O: Operator>(a: E, b: E) -> bool {
    a.operate_spec(&b).eq_spec(&b.operate_spec(&a))
}

/// The Latin square law on one sample: `a` equals `(a ∘ b⁻¹) ∘ b` and
/// `a ∘ (b ∘ b⁻¹)`.
pub open spec fn latin_square_at<E: TwoSidedInverse<O> + PartialEq, O: Operator>(
    a: E,
    b: E,
) -> bool {
    a.eq_spec(&divide_operate::<E, O>(a, b)) && a.eq_spec(&operate_divide::<E, O>(a, b))
}

/// The comparison may be made of any two elements.
pub open spec fn compares_all<F: Fn(&E, &E) -> bool, E>(compare: F) -> bool {
    forall|x: &E, y: &E| compare.requires((x, y))
}

/// Asked whether `left` equals `right`, the comparison may give `answer`.
pub open spec fn compares<F: Fn(&E, &E) -> bool, E>(
    compare: F,
    left: E,
    right: E,
    answer: bool,
) -> bool {
    compare.ensures((&left, &right), answer)
}

/// Asked about the pair `first` and then, only where that passed, about the
/// pair `second`, the comparison may give `answer` for both together.
pub open spec fn compares_in_turn<F: Fn(&E, &E) -> bool, E>(
    compare: F,
    first: (E, E),
    second: (E, E),
    answer: bool,
) -> bool {
    if answer {
        compares(compare, first.0, first.1, true) && compares(compare, second.0, second.1, true)
    } else {
        compares(compare, first.0, first.1, false) || (compares(compare, first.0, first.1, true)
            && compares(compare, second.0, second.1, false))
    }
}

/// A set with an element that is claimed to be neutral for the operation
/// `O`.
pub trait Identity<O: Operator>: AbstractMagma<O> {
    /// The neutral element as a mathematical value.
    spec fn identity_spec(&self) -> Elem<Self>;

    /// The neutral element.
    fn identity(&self) -> (e: Elem<Self>)
        ensures
            e == self.identity_spec(),
    ;

    /// The neutral element, the operation being picked by the tag's value.
    fn id(&self, _tag: O) -> (e: Elem<Self>)
        ensures
            e == self.identity_spec(),
    {
        self.identity()
    }

    /// Tests on the given element, by a comparison of the caller's choice,
    /// whether operating with the neutral element changes nothing. The right
    /// side is compared only where the left side has passed.
    fn prop_operating_identity_element_is_noop_approx<F: Fn(&Elem<Self>, &Elem<Self>) -> bool>(
        &self,
        args: (Elem<Self>,),
        approx_eq: F,
    ) -> (holds: bool)
        requires
            compares_all(approx_eq),
        ensures
            compares_in_turn(
                approx_eq,
                (args.0.operate_spec(&self.identity_spec()), args.0),
                (self.identity_spec().operate_spec(&args.0), args.0),
                holds,
            ),
    {
        let (a,) = args;
        approx_eq(&a.operate(&self.identity()), &a) && approx_eq(&self.identity().operate(&a), &a)
    }

    /// Tests on the given element, by strict equality, whether operating with
    /// the neutral element changes nothing.
    fn prop_operating_identity_element_is_noop(&self, args: (Elem<Self>,)) -> (holds: bool) where
        Elem<Self>: Eq,

        ensures
            Elem::<Self>::obeys_eq_spec() ==> holds == neutral_at::<Elem<Self>, O>(
                self.identity_spec(),
                args.0,
            ),
    {
        let (a,) = args;
        a.operate(&self.identity()) == a && self.identity().operate(&a) == a
    }
}

/// The proof of the claim of a neutral element.
pub trait IdentityLaw<O: Operator>: Identity<O> {
    /// Operating with the neutral element, on either side, changes nothing.
    proof fn law_identity(&self, a: Elem<Self>)
        ensures
            neutral_at::<Elem<Self>, O>(self.identity_spec(), a),
    ;
}

/// The neutral element of addition under its usual name.
pub trait Zero: AbstractMagma<Additive> + Identity<Additive> {
    /// The neutral element of addition.
    fn zero(&self) -> (e: Elem<Self>)
        ensures
            e == self.identity_spec(),
    {
        self.identity()
    }
}

impl<T> Zero for T where T: AbstractMagma<Additive> + Identity<Additive> {
}

/// The neutral element of multiplication under its usual name.
pub trait One: AbstractMagma<Multiplicative> + Identity<Multiplicative> {
    /// The neutral element of multiplication.
    fn one(&self) -> (e: Elem<Self>)
        ensures
            e == self.identity_spec(),
    {
        self.identity()
    }
}

impl<T> One for T where T: AbstractMagma<Multiplicative> + Identity<Multiplicative> {
}

/// The self-test of an element: is it neutral for the operation `O`? The
/// test is claimed to be exact.
pub trait IsIdentity<O: Operator> {
    /// The test as a mathematical predicate.
    spec fn is_identity_spec(&self) -> bool;

    /// Whether `self` is the neutral element.
    fn is_identity(&self) -> (holds: bool)
        ensures
            holds == self.is_identity_spec(),
    ;
}

/// The proof that a self-test is exact: it holds of the elements that are
/// neutral for every element of the type, and of no others.
pub trait IsIdentityLaw<O: Operator>: IsIdentity<O> + Operation<O> + PartialEq {
    /// An element that passes the test is neutral for every element.
    proof fn law_is_identity_sound(&self, a: Self)
        requires
            self.is_identity_spec(),
        ensures
            neutral_at::<Self, O>(*self, a),
    ;

    /// An element that is neutral for every element passes the test.
    proof fn law_is_identity_complete(&self)
        requires
            forall|a: Self| #[trigger] neutral_at::<Self, O>(*self, a),
        ensures
            self.is_identity_spec(),
    ;
}

/// A set whose operation `O` is claimed to be associative.
pub trait Associative<O: Operator>: AbstractMagma<O> {
    /// Tests associativity on the given elements by a comparison of the
    /// caller's choice.
    fn prop_is_associative_approx<F: Fn(&Elem<Self>, &Elem<Self>) -> bool>(
        args: (Elem<Self>, Elem<Self>, Elem<Self>),
        approx_eq: F,
    ) -> (holds: bool)
        requires
            compares_all(approx_eq),
        ensures
            compares(
                approx_eq,
                operate_left::<Elem<Self>, O>(args.0, args.1, args.2),
                operate_right::<Elem<Self>, O>(args.0, args.1, args.2),
                holds,
            ),
    {
        let (a, b, c) = args;
        approx_eq(&a.operate(&b).operate(&c), &a.operate(&b.operate(&c)))
    }

    /// Tests associativity on the given elements by strict equality.
    fn prop_is_associative(args: (Elem<Self>, Elem<Self>, Elem<Self>)) -> (holds: bool) where
        Elem<Self>: Eq,

        ensures
            Elem::<Self>::obeys_eq_spec() ==> holds == associative_at::<Elem<Self>, O>(
                args.0,
                args.1,
                args.2,
            ),
    {
        let (a, b, c) = args;
        a.operate(&b).operate(&c) == a.operate(&b.operate(&c))
    }
}

/// The proof of the claim of associativity.
pub trait AssociativeLaw<O: Operator>: Associative<O> {
    /// `(a ∘ b) ∘ c` equals `a ∘ (b ∘ c)`, whatever the elements.
    proof fn law_associative(a: Elem<Self>, b: Elem<Self>, c: Elem<Self>)
        ensures
            associative_at::<Elem<Self>, O>(a, b, c),
    ;
}

/// A set in which every element is claimed to be divisible by every other:
/// the inverse undoes the operation on either side.
pub trait Divisible<O: Operator>: AbstractMagma<O> where Elem<Self>: TwoSidedInverse<O> {
    /// Tests the Latin square law on the given elements by a comparison of the
    /// caller's choice. The second equation is compared only where the first
    /// has passed.
    fn prop_inv_is_latin_square_approx<F: Fn(&Elem<Self>, &Elem<Self>) -> bool>(
        args: (Elem<Self>, Elem<Self>),
        approx_eq: F,
    ) -> (holds: bool)
        requires
            compares_all(approx_eq),
        ensures
            compares_in_turn(
                approx_eq,
                (args.0, divide_operate::<Elem<Self>, O>(args.0, args.1)),
                (args.0, operate_divide::<Elem<Self>, O>(args.0, args.1)),
                holds,
            ),
    {
        let (a, b) = args;
        approx_eq(&a, &a.operate(&b.two_sided_inverse()).operate(&b)) && approx_eq(
            &a,
            &a.operate(&b.operate(&b.two_sided_inverse())),
        )
    }

    /// Tests the Latin square law on the given elements by strict equality.
    fn prop_inv_is_latin_square(args: (Elem<Self>, Elem<Self>)) -> (holds: bool) where
        Elem<Self>: Eq,

        ensures
            Elem::<Self>::obeys_eq_spec() ==> holds == latin_square_at::<Elem<Self>, O>(
                args.0,
                args.1,
            ),
    {
        let (a, b) = args;
        a == a.operate(&b.two_sided_inverse()).operate(&b) && a == a.operate(
            &b.operate(&b.two_sided_inverse()),
        )
    }
}

/// The proof of the claim of divisibility.
pub trait DivisibleLaw<O: Operator>: Divisible<O> where Elem<Self>: TwoSidedInverse<O> {
    /// `a` equals `(a ∘ b⁻¹) ∘ b` and `a ∘ (b ∘ b⁻¹)`, whatever the elements.
    proof fn law_latin_square(a: Elem<Self>, b: Elem<Self>)
        ensures
            latin_square_at::<Elem<Self>, O>(a, b),
    ;
}

/// A set whose operation `O` is claimed to be commutative.
pub trait Commutative<O: Operator>: AbstractMagma<O> {
    /// Tests commutativity on the given elements by a comparison of the
    /// caller's choice.
    fn prop_is_commutative_approx<F: Fn(&Elem<Self>, &Elem<Self>) -> bool>(
        args: (Elem<Self>, Elem<Self>),
        approx_eq: F,
    ) -> (holds: bool)
        requires
            compares_all(approx_eq),
        ensures
            compares(
                approx_eq,
                args.0.operate_spec(&args.1),
                args.1.operate_spec(&args.0),
                holds,
            ),
    {
        let (a, b) = args;
        approx_eq(&a.operate(&b), &b.operate(&a))
    }

    /// Tests commutativity on the given elements by strict equality.
    fn prop_is_commutative(args: (Elem<Self>, Elem<Self>)) -> (holds: bool) where
        Elem<Self>: Eq,

        ensures
            Elem::<Self>::obeys_eq_spec() ==> holds == commutative_at::<Elem<Self>, O>(
                args.0,
                args.1,
            ),
    {
        let (a, b) = args;
        a.operate(&b) == b.operate(&a)
    }
}

/// The proof of the claim of commutativity.
pub trait CommutativeLaw<O: Operator>: Commutative<O> {
    /// `a ∘ b` equals `b ∘ a`, whatever the elements.
    proof fn law_commutative(a: Elem<Self>, b: Elem<Self>)
        ensures
            commutative_at::<Elem<Self>, O>(a, b),
    ;
}

} // verus!
