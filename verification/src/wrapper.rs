//! An adapter that gives an element the infix operators.
//!
//! The adapter holds an element together with two operator tags, one for
//! addition and one for multiplication. An expression over adapters reads as
//! ordinary arithmetic: `+` and `*` are the element's two operations, `-` and
//! `/` operate with the inverse of the right operand.
use crate::operator::{Operation, Operator, TwoSidedInverse};
use crate::ops::InvOps;
use crate::properties::ringlike::{product, sum};
use core::marker::PhantomData;
use core::ops::{Add, Div, Mul, Neg, Sub};
use vstd::prelude::*;
use vstd::std_specs::ops::{AddSpecImpl, DivSpecImpl, MulSpecImpl, NegSpecImpl, SubSpecImpl};

verus! {

/// An element of type `T` whose `+` is its operation tagged `A` and whose `*`
/// is its operation tagged `M`.
pub struct Wrapper<T, A: Operator, M: Operator> {
    /// The element.
    pub val: T,
    /// The tag of the operation that `+` stands for.
    pub additive: PhantomData<A>,
    /// The tag of the operation that `*` stands for.
    pub multiplicative: PhantomData<M>,
}

/// The adapter that holds `val`.
pub open spec fn wrapper<T, A: Operator, M: Operator>(val: T) -> Wrapper<T, A, M> {
    Wrapper { val, additive: PhantomData, multiplicative: PhantomData }
}

impl<T, A: Operator, M: Operator> Wrapper<T, A, M> {
    /// Wraps an element.
    pub fn new(val: T) -> (wrapped: Self)
        ensures
            wrapped == wrapper::<T, A, M>(val),
    {
        Wrapper { val, additive: PhantomData, multiplicative: PhantomData }
    }

    /// Hands the element back.
    pub fn into_inner(self) -> (val: T)
        ensures
            val == self.val,
    {
        self.val
    }
}

impl<T: Operation<A>, A: Operator, M: Operator> Add for Wrapper<T, A, M> {
    type Output = Self;

    fn add(self, rhs: Self) -> (result: Self) {
        Wrapper::new(Operation::<A>::operate(&self.val, &rhs.val))
    }
}

impl<T: Operation<A>, A: Operator, M: Operator> AddSpecImpl for Wrapper<T, A, M> {
    open spec fn obeys_add_spec() -> bool {
        true
    }

    open spec fn add_req(self, rhs: Self) -> bool {
        true
    }

    open spec fn add_spec(self, rhs: Self) -> Self {
        wrapper(sum::<T, A>(self.val, rhs.val))
    }
}

impl<T: Operation<M>, A: Operator, M: Operator> Mul for Wrapper<T, A, M> {
    type Output = Self;

    fn mul(self, rhs: Self) -> (result: Self) {
        Wrapper::new(Operation::<M>::operate(&self.val, &rhs.val))
    }
}

impl<T: Operation<M>, A: Operator, M: Operator> MulSpecImpl for Wrapper<T, A, M> {
    open spec fn obeys_mul_spec() -> bool {
        true
    }

    open spec fn mul_req(self, rhs: Self) -> bool {
        true
    }

    open spec fn mul_spec(self, rhs: Self) -> Self {
        wrapper(product::<T, M>(self.val, rhs.val))
    }
}

impl<T: TwoSidedInverse<A>, A: Operator, M: Operator> Neg for Wrapper<T, A, M> {
    type Output = Self;

    fn neg(self) -> (result: Self) {
        Wrapper::new(TwoSidedInverse::<A>::two_sided_inverse(&self.val))
    }
}

impl<T: TwoSidedInverse<A>, A: Operator, M: Operator> NegSpecImpl for Wrapper<T, A, M> {
    open spec fn obeys_neg_spec() -> bool {
        true
    }

    open spec fn neg_req(self) -> bool {
        true
    }

    open spec fn neg_spec(self) -> Self {
        wrapper(TwoSidedInverse::<A>::two_sided_inverse_spec(&self.val))
    }
}

impl<T: TwoSidedInverse<A>, A: Operator, M: Operator> Sub for Wrapper<T, A, M> {
    type Output = Self;

    fn sub(self, rhs: Self) -> (result: Self) {
        let negated = TwoSidedInverse::<A>::two_sided_inverse(&rhs.val);
        Wrapper::new(Operation::<A>::operate(&self.val, &negated))
    }
}

impl<T: TwoSidedInverse<A>, A: Operator, M: Operator> SubSpecImpl for Wrapper<T, A, M> {
    open spec fn obeys_sub_spec() -> bool {
        true
    }

    open spec fn sub_req(self, rhs: Self) -> bool {
        true
    }

    open spec fn sub_spec(self, rhs: Self) -> Self {
        wrapper(sum::<T, A>(self.val, TwoSidedInverse::<A>::two_sided_inverse_spec(&rhs.val)))
    }
}

impl<T: TwoSidedInverse<M>, A: Operator, M: Operator> Div for Wrapper<T, A, M> {
    type Output = Self;

    fn div(self, rhs: Self) -> (result: Self) {
        let inverted = TwoSidedInverse::<M>::two_sided_inverse(&rhs.val);
        Wrapper::new(Operation::<M>::operate(&self.val, &inverted))
    }
}

impl<T: TwoSidedInverse<M>, A: Operator, M: Operator> DivSpecImpl for Wrapper<T, A, M> {
    open spec fn obeys_div_spec() -> bool {
        true
    }

    open spec fn div_req(self, rhs: Self) -> bool {
        true
    }

    open spec fn div_spec(self, rhs: Self) -> Self {
        wrapper(product::<T, M>(self.val, TwoSidedInverse::<M>::two_sided_inverse_spec(&rhs.val)))
    }
}

impl<T: TwoSidedInverse<M>, A: Operator, M: Operator> InvOps for Wrapper<T, A, M> {
    open spec fn inv_spec(self) -> Self {
        wrapper(TwoSidedInverse::<M>::two_sided_inverse_spec(&self.val))
    }

    fn inv(self) -> Self {
        Wrapper::new(TwoSidedInverse::<M>::two_sided_inverse(&self.val))
    }
}

} // verus!
