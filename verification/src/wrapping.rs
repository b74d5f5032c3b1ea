//! Rings of primitive integers that wrap around at the boundary.
//!
//! For every primitive integer type `T`, the integers of that type form a
//! commutative ring under wrapping addition and wrapping multiplication. The
//! capabilities are claimed here once for all those types, and every claim is
//! proved from arithmetic modulo the number of values of the type. Under
//! multiplication the ring is a monoid only: two has no inverse.
pub mod integer;
pub mod modular;

use crate::laws::lemma_inverse_is_involutive;
use crate::operator::{Additive, Multiplicative, Operation, TwoSidedInverse};
use crate::properties::grouplike::{
    neutral_at, Associative, AssociativeLaw, Commutative, CommutativeLaw, Divisible,
    DivisibleLaw, Identity, IdentityLaw, IsIdentity, IsIdentityLaw,
};
use crate::properties::ringlike::{Distributive, DistributiveLaw};
use crate::structures::grouplike::{Element, Parent};
use crate::structures::specialized::ringlike::RingOps;
use crate::wrapping::integer::WrappingInteger;
use crate::wrapping::modular::{
    congruent, lemma_congruent_product, lemma_congruent_sum, lemma_congruent_symmetric,
    lemma_double_is_not_one, lemma_multiple_congruent, lemma_wrap_into, lemma_wrap_into_fixed,
    lemma_wrap_into_same,
};
use core::marker::PhantomData;
use core::ops::{Add, Mul, Neg, Sub};
use vstd::laws_eq::{obeys_concrete_eq, obeys_eq, obeys_eq_spec_properties};
use vstd::prelude::*;
use vstd::std_specs::cmp::PartialEqSpecImpl;
use vstd::std_specs::ops::{AddSpecImpl, MulSpecImpl, NegSpecImpl, SubSpecImpl};

verus! {

/// The ring of the integers of type `T` with arithmetic that wraps around at
/// the boundary.
#[derive(Debug)]
pub struct WrappingRing<T>(pub PhantomData<T>);

/// A member of a wrapping ring.
#[derive(Debug)]
pub struct Wrap<T>(pub T);

impl<T> WrappingRing<T> {
    /// The ring.
    pub fn init() -> (ring: Self)
        ensures
            ring == WrappingRing::<T>(PhantomData),
    {
        WrappingRing(PhantomData)
    }

    /// The member of the ring that holds `src`.
    pub fn new(&self, src: T) -> (element: Wrap<T>)
        ensures
            element == Wrap(src),
    {
        Wrap(src)
    }
}

impl<T> Clone for WrappingRing<T> {
    fn clone(&self) -> (copy: Self)
        ensures
            copy == *self,
    {
        WrappingRing(PhantomData)
    }
}

impl<T: WrappingInteger> View for Wrap<T> {
    type V = int;

    /// The integer that the element holds.
    open spec fn view(&self) -> int {
        self.0.value()
    }
}

impl<T: WrappingInteger> Clone for Wrap<T> {
    fn clone(&self) -> (copy: Self)
        ensures
            copy == *self,
    {
        Wrap(self.0)
    }
}

impl<T: WrappingInteger> Copy for Wrap<T> {
}

impl<T: WrappingInteger> PartialEq for Wrap<T> {
    fn eq(&self, other: &Self) -> (equal: bool) {
        self.0.same(other.0)
    }
}

impl<T: WrappingInteger> PartialEqSpecImpl for Wrap<T> {
    open spec fn obeys_eq_spec() -> bool {
        true
    }

    open spec fn eq_spec(&self, other: &Self) -> bool {
        self.0 == other.0
    }
}

impl<T: WrappingInteger> Eq for Wrap<T> {
}

/// The sum of two integers of type `T`, wrapped around at the boundary.
pub open spec fn wrapping_sum<T: WrappingInteger>(x: T, y: T) -> T {
    T::wrapped(x.value() + y.value())
}

/// The product of two integers of type `T`, wrapped around at the boundary.
pub open spec fn wrapping_product<T: WrappingInteger>(x: T, y: T) -> T {
    T::wrapped(x.value() * y.value())
}

/// The negation of an integer of type `T`, wrapped around at the boundary.
pub open spec fn wrapping_negation<T: WrappingInteger>(x: T) -> T {
    T::wrapped(-x.value())
}

/// A type has at least two values.
pub proof fn lemma_modulus<T: WrappingInteger>()
    ensures
        T::modulus() >= 2,
{
    T::law_window();
}

/// What stands for an integer is congruent to it.
pub proof fn lemma_wrapped_congruent<T: WrappingInteger>(v: int)
    ensures
        congruent(T::wrapped(v).value(), v, T::modulus()),
{
    lemma_modulus::<T>();
    T::law_wrapped(v);
    lemma_wrap_into(v, T::lowest(), T::modulus());
}

/// Congruent integers are stood for by the same value.
pub proof fn lemma_wrapped_same<T: WrappingInteger>(v: int, w: int)
    requires
        congruent(v, w, T::modulus()),
    ensures
        T::wrapped(v) == T::wrapped(w),
{
    lemma_modulus::<T>();
    T::law_wrapped(v);
    T::law_wrapped(w);
    lemma_wrap_into_same(v, w, T::lowest(), T::modulus());
    T::wrapped(v).law_value();
    T::wrapped(w).law_value();
}

/// Zero and one are stood for by values that hold them.
pub proof fn lemma_zero_and_one<T: WrappingInteger>()
    ensures
        T::wrapped(0).value() == 0,
        T::wrapped(1).value() == 1,
{
    T::law_window();
    T::law_wrapped(0);
    T::law_wrapped(1);
    lemma_wrap_into_fixed(0, T::lowest(), T::modulus());
    lemma_wrap_into_fixed(1, T::lowest(), T::modulus());
}

/// In a sum that is wrapped, a summand may be wrapped beforehand.
pub proof fn lemma_sum_absorbs<T: WrappingInteger>(v: int, w: int)
    ensures
        T::wrapped(T::wrapped(v).value() + w) == T::wrapped(v + w),
        T::wrapped(w + T::wrapped(v).value()) == T::wrapped(w + v),
{
    lemma_modulus::<T>();
    lemma_wrapped_congruent::<T>(v);
    lemma_multiple_congruent(w, w, 0, T::modulus());
    lemma_congruent_sum(T::wrapped(v).value(), v, w, w, T::modulus());
    lemma_congruent_sum(w, w, T::wrapped(v).value(), v, T::modulus());
    lemma_wrapped_same::<T>(T::wrapped(v).value() + w, v + w);
    lemma_wrapped_same::<T>(w + T::wrapped(v).value(), w + v);
}

/// In a product that is wrapped, a factor may be wrapped beforehand.
pub proof fn lemma_product_absorbs<T: WrappingInteger>(v: int, w: int)
    ensures
        T::wrapped(T::wrapped(v).value() * w) == T::wrapped(v * w),
        T::wrapped(w * T::wrapped(v).value()) == T::wrapped(w * v),
{
    lemma_modulus::<T>();
    lemma_wrapped_congruent::<T>(v);
    lemma_multiple_congruent(w, w, 0, T::modulus());
    lemma_congruent_product(T::wrapped(v).value(), v, w, w, T::modulus());
    lemma_congruent_product(w, w, T::wrapped(v).value(), v, T::modulus());
    lemma_wrapped_same::<T>(T::wrapped(v).value() * w, v * w);
    lemma_wrapped_same::<T>(w * T::wrapped(v).value(), w * v);
}

impl<T: WrappingInteger> Parent for WrappingRing<T> {
    type Element = Wrap<T>;
}

impl<T: WrappingInteger> Element for Wrap<T> {
    type Parent = WrappingRing<T>;

    open spec fn parent_spec(&self) -> WrappingRing<T> {
        WrappingRing(PhantomData)
    }

    fn parent(&self) -> WrappingRing<T> {
        WrappingRing::init()
    }
}

impl<T: WrappingInteger> Operation<Additive> for Wrap<T> {
    open spec fn operate_spec(&self, right: &Self) -> Self {
        Wrap(wrapping_sum(self.0, right.0))
    }

    fn operate(&self, right: &Self) -> Self {
        Wrap(self.0.wrapping_sum(right.0))
    }
}

impl<T: WrappingInteger> Operation<Multiplicative> for Wrap<T> {
    open spec fn operate_spec(&self, right: &Self) -> Self {
        Wrap(wrapping_product(self.0, right.0))
    }

    fn operate(&self, right: &Self) -> Self {
        Wrap(self.0.wrapping_product(right.0))
    }
}

impl<T: WrappingInteger> TwoSidedInverse<Additive> for Wrap<T> {
    open spec fn two_sided_inverse_spec(&self) -> Self {
        Wrap(wrapping_negation(self.0))
    }

    fn two_sided_inverse(&self) -> Self {
        Wrap(self.0.wrapping_negation())
    }
}

impl<T: WrappingInteger> Identity<Additive> for WrappingRing<T> {
    open spec fn identity_spec(&self) -> Wrap<T> {
        Wrap(T::wrapped(0))
    }

    fn identity(&self) -> Wrap<T> {
        Wrap(T::zero())
    }
}

impl<T: WrappingInteger> IdentityLaw<Additive> for WrappingRing<T> {
    proof fn law_identity(&self, a: Wrap<T>) {
        lemma_zero_and_one::<T>();
        a.0.law_value();
    }
}

impl<T: WrappingInteger> Identity<Multiplicative> for WrappingRing<T> {
    open spec fn identity_spec(&self) -> Wrap<T> {
        Wrap(T::wrapped(1))
    }

    fn identity(&self) -> Wrap<T> {
        Wrap(T::one())
    }
}

impl<T: WrappingInteger> IdentityLaw<Multiplicative> for WrappingRing<T> {
    proof fn law_identity(&self, a: Wrap<T>) {
        lemma_zero_and_one::<T>();
        a.0.law_value();
        assert(a.0.value() * 1 == a.0.value());
        assert(1 * a.0.value() == a.0.value());
    }
}

impl<T: WrappingInteger> IsIdentity<Additive> for Wrap<T> {
    open spec fn is_identity_spec(&self) -> bool {
        self.0 == T::wrapped(0)
    }

    fn is_identity(&self) -> bool {
        self.0.same(T::zero())
    }
}

impl<T: WrappingInteger> IsIdentityLaw<Additive> for Wrap<T> {
    proof fn law_is_identity_sound(&self, a: Self) {
        <WrappingRing<T> as IdentityLaw<Additive>>::law_identity(&WrappingRing(PhantomData), a);
    }

    proof fn law_is_identity_complete(&self) {
        let zero = Wrap(T::wrapped(0));
        assert(neutral_at::<Wrap<T>, Additive>(*self, zero));
        lemma_zero_and_one::<T>();
        self.0.law_value();
    }
}

impl<T: WrappingInteger> IsIdentity<Multiplicative> for Wrap<T> {
    open spec fn is_identity_spec(&self) -> bool {
        self.0 == T::wrapped(1)
    }

    fn is_identity(&self) -> bool {
        self.0.same(T::one())
    }
}

impl<T: WrappingInteger> IsIdentityLaw<Multiplicative> for Wrap<T> {
    proof fn law_is_identity_sound(&self, a: Self) {
        <WrappingRing<T> as IdentityLaw<Multiplicative>>::law_identity(
            &WrappingRing(PhantomData),
            a,
        );
    }

    proof fn law_is_identity_complete(&self) {
        let one = Wrap(T::wrapped(1));
        assert(neutral_at::<Wrap<T>, Multiplicative>(*self, one));
        lemma_zero_and_one::<T>();
        self.0.law_value();
        assert(1 * self.0.value() == self.0.value());
    }
}

impl<T: WrappingInteger> Associative<Additive> for WrappingRing<T> {
}

impl<T: WrappingInteger> AssociativeLaw<Additive> for WrappingRing<T> {
    proof fn law_associative(a: Wrap<T>, b: Wrap<T>, c: Wrap<T>) {
        lemma_sum_absorbs::<T>(a@ + b@, c@);
        lemma_sum_absorbs::<T>(b@ + c@, a@);
    }
}

impl<T: WrappingInteger> Associative<Multiplicative> for WrappingRing<T> {
}

impl<T: WrappingInteger> AssociativeLaw<Multiplicative> for WrappingRing<T> {
    proof fn law_associative(a: Wrap<T>, b: Wrap<T>, c: Wrap<T>) {
        lemma_product_absorbs::<T>(a@ * b@, c@);
        lemma_product_absorbs::<T>(b@ * c@, a@);
        assert((a@ * b@) * c@ == a@ * (b@ * c@)) by (nonlinear_arith);
    }
}

impl<T: WrappingInteger> Commutative<Additive> for WrappingRing<T> {
}

impl<T: WrappingInteger> CommutativeLaw<Additive> for WrappingRing<T> {
    proof fn law_commutative(a: Wrap<T>, b: Wrap<T>) {
    }
}

impl<T: WrappingInteger> Commutative<Multiplicative> for WrappingRing<T> {
}

impl<T: WrappingInteger> CommutativeLaw<Multiplicative> for WrappingRing<T> {
    proof fn law_commutative(a: Wrap<T>, b: Wrap<T>) {
        assert(a@ * b@ == b@ * a@) by (nonlinear_arith);
    }
}

impl<T: WrappingInteger> Divisible<Additive> for WrappingRing<T> {
}

impl<T: WrappingInteger> DivisibleLaw<Additive> for WrappingRing<T> {
    proof fn law_latin_square(a: Wrap<T>, b: Wrap<T>) {
        a.0.law_value();
        lemma_sum_absorbs::<T>(-b@, a@);
        lemma_sum_absorbs::<T>(a@ + -b@, b@);
        lemma_sum_absorbs::<T>(-b@, b@);
        lemma_sum_absorbs::<T>(b@ + -b@, a@);
    }
}

impl<T: WrappingInteger> Distributive<Additive, Multiplicative> for WrappingRing<T> {
}

impl<T: WrappingInteger> DistributiveLaw<Additive, Multiplicative> for WrappingRing<T> {
    proof fn law_distributive(a: Wrap<T>, b: Wrap<T>, c: Wrap<T>) {
        lemma_product_absorbs::<T>(b@ + c@, a@);
        lemma_sum_absorbs::<T>(a@ * b@, T::wrapped(a@ * c@).value());
        lemma_sum_absorbs::<T>(a@ * c@, a@ * b@);
        assert(a@ * (b@ + c@) == a@ * b@ + a@ * c@) by (nonlinear_arith);
        lemma_sum_absorbs::<T>(b@ * a@, T::wrapped(c@ * a@).value());
        lemma_sum_absorbs::<T>(c@ * a@, b@ * a@);
        assert((b@ + c@) * a@ == b@ * a@ + c@ * a@) by (nonlinear_arith);
    }
}

impl<T: WrappingInteger> Add for Wrap<T> {
    type Output = Self;

    fn add(self, rhs: Self) -> (result: Self) {
        Wrap(self.0.wrapping_sum(rhs.0))
    }
}

impl<T: WrappingInteger> AddSpecImpl for Wrap<T> {
    open spec fn obeys_add_spec() -> bool {
        true
    }

    open spec fn add_req(self, rhs: Self) -> bool {
        true
    }

    open spec fn add_spec(self, rhs: Self) -> Self {
        Wrap(wrapping_sum(self.0, rhs.0))
    }
}

impl<T: WrappingInteger> Neg for Wrap<T> {
    type Output = Self;

    fn neg(self) -> (result: Self) {
        Wrap(self.0.wrapping_negation())
    }
}

impl<T: WrappingInteger> NegSpecImpl for Wrap<T> {
    open spec fn obeys_neg_spec() -> bool {
        true
    }

    open spec fn neg_req(self) -> bool {
        true
    }

    open spec fn neg_spec(self) -> Self {
        Wrap(wrapping_negation(self.0))
    }
}

impl<T: WrappingInteger> Sub for Wrap<T> {
    type Output = Self;

    fn sub(self, rhs: Self) -> (result: Self) {
        Wrap(self.0.wrapping_sum(rhs.0.wrapping_negation()))
    }
}

impl<T: WrappingInteger> SubSpecImpl for Wrap<T> {
    open spec fn obeys_sub_spec() -> bool {
        true
    }

    open spec fn sub_req(self, rhs: Self) -> bool {
        true
    }

    open spec fn sub_spec(self, rhs: Self) -> Self {
        Wrap(wrapping_sum(self.0, wrapping_negation(rhs.0)))
    }
}

impl<T: WrappingInteger> Mul for Wrap<T> {
    type Output = Self;

    fn mul(self, rhs: Self) -> (result: Self) {
        Wrap(self.0.wrapping_product(rhs.0))
    }
}

impl<T: WrappingInteger> MulSpecImpl for Wrap<T> {
    open spec fn obeys_mul_spec() -> bool {
        true
    }

    open spec fn mul_req(self, rhs: Self) -> bool {
        true
    }

    open spec fn mul_spec(self, rhs: Self) -> Self {
        Wrap(wrapping_product(self.0, rhs.0))
    }
}

impl<T: WrappingInteger> RingOps for Wrap<T> {
}

/// Equality of the elements of a wrapping ring is equality of the integers
/// that they hold.
pub proof fn lemma_equality<T: WrappingInteger>()
    ensures
        obeys_eq::<Wrap<T>>(),
        obeys_concrete_eq::<Wrap<T>>(),
        forall|x: Wrap<T>, y: Wrap<T>| x@ == y@ ==> x == y,
{
    reveal(obeys_eq_spec_properties);
    reveal(obeys_concrete_eq);
    assert forall|x: Wrap<T>, y: Wrap<T>| x@ == y@ implies x == y by {
        x.0.law_value();
        y.0.law_value();
    }
}

/// The negation of the negation of an element is the element, as in every
/// group.
pub proof fn lemma_negation_is_involutive<T: WrappingInteger>(x: Wrap<T>)
    ensures
        x.two_sided_inverse_spec().two_sided_inverse_spec() == x,
{
    lemma_equality::<T>();
    lemma_inverse_is_involutive::<WrappingRing<T>, Additive>(WrappingRing(PhantomData), x);
}

/// Two has no inverse under wrapping multiplication: no product with two is
/// one. So divisibility under multiplication cannot be proved of a wrapping
/// ring, and the ring does not claim it: it is no field.
pub proof fn lemma_two_has_no_inverse<T: WrappingInteger>(x: Wrap<T>)
    ensures
        Operation::<Multiplicative>::operate_spec(&x, &Wrap(T::wrapped(2))) != Wrap(
            T::wrapped(1),
        ),
        Operation::<Multiplicative>::operate_spec(&Wrap(T::wrapped(2)), &x) != Wrap(
            T::wrapped(1),
        ),
{
    lemma_modulus::<T>();
    T::law_window();
    lemma_zero_and_one::<T>();
    lemma_product_absorbs::<T>(2, x@);
    lemma_double_is_not_one(x@, T::modulus());
    lemma_wrapped_congruent::<T>(2 * x@);
    assert(x@ * 2 == 2 * x@);
    if T::wrapped(2 * x@) == T::wrapped(1) {
        assert(congruent(1, 2 * x@, T::modulus()));
        lemma_congruent_symmetric(1, 2 * x@, T::modulus());
    }
}

} // verus!
