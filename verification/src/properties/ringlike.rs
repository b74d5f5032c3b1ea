//! The capability that links two operators: distributivity, and its law.
use crate::operator::{Additive, Multiplicative, Operation, Operator};
use crate::structures::grouplike::{Elem, Parent};
use vstd::prelude::*;
use vstd::std_specs::cmp::PartialEqSpec;

verus! {

/// `a + b`, the operation tagged `A`.
pub open spec fn sum<E: Operation<A>, A: Operator>(a: E, b: E) -> E {
    Operation::<A>::operate_spec(&a, &b)
}

/// `a × b`, the operation tagged `M`.
pub open spec fn product<E: Operation<M>, M: Operator>(a: E, b: E) -> E {
    Operation::<M>::operate_spec(&a, &b)
}

/// The distributive law on one sample, on the left and on the right:
/// `a × (b + c)` equals `a × b + a × c`, and `(b + c) × a` equals
/// `b × a + c × a`.
pub open spec fn distributive_at<E, A: Operator, M: Operator>(a: E, b: E, c: E) -> bool where
    E: Operation<A> + Operation<M> + PartialEq,
 {
    &&& product::<E, M>(a, sum::<E, A>(b, c)).eq_spec(
        &sum::<E, A>(product::<E, M>(a, b), product::<E, M>(a, c)),
    )
    &&& product::<E, M>(sum::<E, A>(b, c), a).eq_spec(
        &sum::<E, A>(product::<E, M>(b, a), product::<E, M>(c, a)),
    )
}

/// A set on which the operation `M` is claimed to distribute over the
/// operation `A`, on both sides. The claim is a marker: it has no method to
/// call and no sampling predicate.
pub trait Distributive<A: Operator = Additive, M: Operator = Multiplicative> {
}

/// The proof of the claim of distributivity.
pub trait DistributiveLaw<A: Operator = Additive, M: Operator = Multiplicative>: Distributive<
    A,
    M,
> + Parent where Elem<Self>: Operation<A> + Operation<M> {
    /// Multiplication distributes over addition, whatever the elements.
    proof fn law_distributive(a: Elem<Self>, b: Elem<Self>, c: Elem<Self>)
        ensures
            distributive_at::<Elem<Self>, A, M>(a, b, c),
    ;
}

} // verus!
