//! What membership in a structure means, and what follows from claims that
//! are proved.
//!
//! A structure is a set of laws. The predicates of this module state, for
//! each structure of the lattice, the laws that make it up, over the
//! mathematical twins of the capabilities' operations. The lattice classifies
//! by claims alone. The theorems say that the classification queries answer
//! `true` whenever they are asked, that a member of a structure is a member of
//! every structure below it, and that a member whose claims are proved
//! satisfies the laws of its structure and of every structure below it.
use crate::operator::{Operation, Operator, TwoSidedInverse};
use crate::properties::grouplike::{
    associative_at, commutative_at, latin_square_at, neutral_at, AssociativeLaw, CommutativeLaw,
    Divisible, DivisibleLaw, Identity, IdentityLaw, IsIdentity, IsIdentityLaw,
};
use crate::properties::ringlike::{distributive_at, product, sum, DistributiveLaw};
use crate::structures::grouplike::{
    AbstractGroup, AbstractGroupAbelian, AbstractLoop, AbstractMagma, AbstractMonoid,
    AbstractQuasigroup, AbstractSemigroup, Elem,
};
use crate::structures::ringlike::{AbstractField, AbstractNCRing, AbstractRing};
use vstd::laws_eq::{obeys_concrete_eq, obeys_eq, obeys_eq_spec_properties};
use vstd::prelude::*;
use vstd::std_specs::cmp::PartialEqSpec;

verus! {

/// The law of a semigroup: the operation is associative.
pub open spec fn semigroup_laws<P: AbstractSemigroup<O>, O: Operator>() -> bool {
    forall|a: Elem<P>, b: Elem<P>, c: Elem<P>| #[trigger] associative_at::<Elem<P>, O>(a, b, c)
}

/// The law of a quasigroup: the Latin square property.
pub open spec fn quasigroup_laws<P: AbstractQuasigroup<O>, O: Operator>() -> bool {
    forall|a: Elem<P>, b: Elem<P>| #[trigger] latin_square_at::<Elem<P>, O>(a, b)
}

/// The laws of a neutral element: it is neutral for every element, it passes
/// the self-test, and whatever passes the self-test is neutral for every
/// element.
pub open spec fn identity_laws<P: Identity<O>, O: Operator>() -> bool where
    Elem<P>: IsIdentity<O>,
 {
    &&& forall|parent: P, a: Elem<P>| #[trigger]
        neutral_at::<Elem<P>, O>(parent.identity_spec(), a)
    &&& forall|parent: P| (#[trigger] parent.identity_spec()).is_identity_spec()
    &&& forall|x: Elem<P>, a: Elem<P>|
        x.is_identity_spec() ==> #[trigger] neutral_at::<Elem<P>, O>(x, a)
}

/// The laws of a loop: those of a quasigroup and of a neutral element.
pub open spec fn loop_laws<P: AbstractLoop<O>, O: Operator>() -> bool {
    quasigroup_laws::<P, O>() && identity_laws::<P, O>()
}

/// The laws of a monoid: those of a semigroup and of a neutral element.
pub open spec fn monoid_laws<P: AbstractMonoid<O>, O: Operator>() -> bool {
    semigroup_laws::<P, O>() && identity_laws::<P, O>()
}

/// The laws of a group: those of a loop, and associativity.
pub open spec fn group_laws<P: AbstractGroup<O>, O: Operator>() -> bool {
    loop_laws::<P, O>() && semigroup_laws::<P, O>()
}

/// The laws of an Abelian group: those of a group, and commutativity.
pub open spec fn group_abelian_laws<P: AbstractGroupAbelian<O>, O: Operator>() -> bool {
    &&& group_laws::<P, O>()
    &&& forall|a: Elem<P>, b: Elem<P>| #[trigger] commutative_at::<Elem<P>, O>(a, b)
}

/// The laws of a ring whose multiplication need not be commutative: those of
/// an Abelian group under `A`, those of a monoid under `M`, and distributivity
/// of `M` over `A`.
pub open spec fn ncring_laws<P: AbstractNCRing<A, M>, A: Operator, M: Operator>() -> bool {
    &&& group_abelian_laws::<P, A>()
    &&& monoid_laws::<P, M>()
    &&& forall|a: Elem<P>, b: Elem<P>, c: Elem<P>| #[trigger]
        distributive_at::<Elem<P>, A, M>(a, b, c)
}

/// The laws of a ring: those of a ring whose multiplication need not be
/// commutative, and commutativity of `M`.
pub open spec fn ring_laws<P: AbstractRing<A, M>, A: Operator, M: Operator>() -> bool {
    &&& ncring_laws::<P, A, M>()
    &&& forall|a: Elem<P>, b: Elem<P>| #[trigger] commutative_at::<Elem<P>, M>(a, b)
}

/// The laws of a field: those of a ring, and the Latin square property of `M`.
pub open spec fn field_laws<P: AbstractField<A, M>, A: Operator, M: Operator>() -> bool {
    ring_laws::<P, A, M>() && quasigroup_laws::<P, M>()
}

/// A quasigroup whose divisibility is proved has the Latin square property.
pub proof fn lemma_quasigroup_laws<P, O: Operator>() where
    P: AbstractQuasigroup<O> + DivisibleLaw<O>,

    ensures
        quasigroup_laws::<P, O>(),
{
    assert forall|a: Elem<P>, b: Elem<P>| #[trigger] latin_square_at::<Elem<P>, O>(a, b) by {
        P::law_latin_square(a, b);
    }
}

/// The operation of a semigroup whose associativity is proved is associative.
pub proof fn lemma_semigroup_laws<P, O: Operator>() where
    P: AbstractSemigroup<O> + AssociativeLaw<O>,

    ensures
        semigroup_laws::<P, O>(),
{
    assert forall|a: Elem<P>, b: Elem<P>, c: Elem<P>| #[trigger]
        associative_at::<Elem<P>, O>(a, b, c) by {
        P::law_associative(a, b, c);
    }
}

/// A neutral element and a self-test that are both proved satisfy the laws of
/// a neutral element.
pub proof fn lemma_identity_laws<P, O: Operator>() where
    P: IdentityLaw<O>,
    Elem<P>: IsIdentityLaw<O>,

    ensures
        identity_laws::<P, O>(),
{
    assert forall|parent: P, a: Elem<P>| #[trigger]
        neutral_at::<Elem<P>, O>(parent.identity_spec(), a) by {
        parent.law_identity(a);
    }
    assert forall|parent: P| (#[trigger] parent.identity_spec()).is_identity_spec() by {
        assert forall|a: Elem<P>| #[trigger]
            neutral_at::<Elem<P>, O>(parent.identity_spec(), a) by {
            parent.law_identity(a);
        }
        parent.identity_spec().law_is_identity_complete();
    }
    assert forall|x: Elem<P>, a: Elem<P>| x.is_identity_spec() implies #[trigger]
        neutral_at::<Elem<P>, O>(x, a) by {
        x.law_is_identity_sound(a);
    }
}

/// A loop whose claims are proved satisfies the laws of a loop.
pub proof fn lemma_loop_laws<P, O: Operator>() where
    P: AbstractLoop<O> + DivisibleLaw<O> + IdentityLaw<O>,
    Elem<P>: IsIdentityLaw<O>,

    ensures
        loop_laws::<P, O>(),
{
    lemma_quasigroup_laws::<P, O>();
    lemma_identity_laws::<P, O>();
}

/// A monoid whose claims are proved satisfies the laws of a monoid.
pub proof fn lemma_monoid_laws<P, O: Operator>() where
    P: AbstractMonoid<O> + AssociativeLaw<O> + IdentityLaw<O>,
    Elem<P>: IsIdentityLaw<O>,

    ensures
        monoid_laws::<P, O>(),
{
    lemma_semigroup_laws::<P, O>();
    lemma_identity_laws::<P, O>();
}

/// A group whose claims are proved satisfies the laws of a group, and with
/// them those of a monoid, a loop, a semigroup and a quasigroup.
pub proof fn lemma_group_laws<P, O: Operator>() where
    P: AbstractGroup<O> + AssociativeLaw<O> + DivisibleLaw<O> + IdentityLaw<O>,
    Elem<P>: IsIdentityLaw<O>,

    ensures
        group_laws::<P, O>(),
        monoid_laws::<P, O>(),
        loop_laws::<P, O>(),
        semigroup_laws::<P, O>(),
        quasigroup_laws::<P, O>(),
{
    lemma_loop_laws::<P, O>();
    lemma_semigroup_laws::<P, O>();
}

/// An Abelian group whose claims are proved satisfies the laws of an Abelian
/// group.
pub proof fn lemma_group_abelian_laws<P, O: Operator>() where
    P: AbstractGroupAbelian<O> + AssociativeLaw<O> + DivisibleLaw<O> + IdentityLaw<O>
        + CommutativeLaw<O>,
    Elem<P>: IsIdentityLaw<O>,

    ensures
        group_abelian_laws::<P, O>(),
{
    lemma_group_laws::<P, O>();
    assert forall|a: Elem<P>, b: Elem<P>| #[trigger] commutative_at::<Elem<P>, O>(a, b) by {
        P::law_commutative(a, b);
    }
}

/// A ring whose multiplication need not be commutative, and whose claims are
/// proved, satisfies the laws of such a ring.
pub proof fn lemma_ncring_laws<P, A: Operator, M: Operator>() where
    P: AbstractNCRing<A, M> + AssociativeLaw<A> + DivisibleLaw<A> + IdentityLaw<A>
        + CommutativeLaw<A> + AssociativeLaw<M> + IdentityLaw<M> + DistributiveLaw<A, M>,
    <P as AbstractNCRing<A, M>>::Element: IsIdentityLaw<A> + IsIdentityLaw<M>,

    ensures
        ncring_laws::<P, A, M>(),
{
    lemma_group_abelian_laws::<P, A>();
    lemma_monoid_laws::<P, M>();
    assert forall|a: Elem<P>, b: Elem<P>, c: Elem<P>| #[trigger]
        distributive_at::<Elem<P>, A, M>(a, b, c) by {
        <P as DistributiveLaw<A, M>>::law_distributive(a, b, c);
    }
}

/// A ring whose claims are proved satisfies the laws of a ring.
pub proof fn lemma_ring_laws<P, A: Operator, M: Operator>() where
    P: AbstractRing<A, M> + AssociativeLaw<A> + DivisibleLaw<A> + IdentityLaw<A>
        + CommutativeLaw<A> + AssociativeLaw<M> + IdentityLaw<M> + CommutativeLaw<M>
        + DistributiveLaw<A, M>,
    <P as AbstractRing<A, M>>::Element: IsIdentityLaw<A> + IsIdentityLaw<M>,

    ensures
        ring_laws::<P, A, M>(),
{
    lemma_ncring_laws::<P, A, M>();
    assert forall|a: Elem<P>, b: Elem<P>| #[trigger] commutative_at::<Elem<P>, M>(a, b) by {
        <P as CommutativeLaw<M>>::law_commutative(a, b);
    }
}

/// A field whose claims are proved satisfies the laws of a field, and with
/// them those of a ring, with or without commutativity of the multiplication,
/// of an Abelian group under `A` and of a monoid under `M`.
pub proof fn lemma_field_laws<P, A: Operator, M: Operator>() where
    P: AbstractField<A, M> + AssociativeLaw<A> + DivisibleLaw<A> + IdentityLaw<A>
        + CommutativeLaw<A> + AssociativeLaw<M> + IdentityLaw<M> + CommutativeLaw<M>
        + DivisibleLaw<M> + DistributiveLaw<A, M>,
    <P as AbstractField<A, M>>::Element: IsIdentityLaw<A> + IsIdentityLaw<M>,

    ensures
        field_laws::<P, A, M>(),
        ring_laws::<P, A, M>(),
        ncring_laws::<P, A, M>(),
        group_abelian_laws::<P, A>(),
        monoid_laws::<P, M>(),
{
    lemma_ring_laws::<P, A, M>();
    assert forall|a: Elem<P>, b: Elem<P>| #[trigger] latin_square_at::<Elem<P>, M>(a, b) by {
        <P as DivisibleLaw<M>>::law_latin_square(a, b);
    }
}

/// Asked of a magma, any number of times, the query answers `true`.
pub proof fn lemma_magma_query<P: AbstractMagma<O>, O: Operator>(parent: &P, tag: O)
    ensures
        forall|answer: bool|
            call_ensures(P::is_abstract_magma, (parent, tag), answer) ==> answer,
{
}

/// Asked of a quasigroup, any number of times, the query answers `true`.
pub proof fn lemma_quasigroup_query<P: AbstractQuasigroup<O>, O: Operator>(parent: &P, tag: O)
    ensures
        forall|answer: bool|
            call_ensures(P::is_abstract_quasigroup, (parent, tag), answer) ==> answer,
{
}

/// Asked of a semigroup, any number of times, the query answers `true`.
pub proof fn lemma_semigroup_query<P: AbstractSemigroup<O>, O: Operator>(parent: &P, tag: O)
    ensures
        forall|answer: bool|
            call_ensures(P::is_abstract_semigroup, (parent, tag), answer) ==> answer,
{
}

/// Asked of a loop, any number of times, the query answers `true`.
pub proof fn lemma_loop_query<P: AbstractLoop<O>, O: Operator>(parent: &P, tag: O)
    ensures
        forall|answer: bool| call_ensures(P::is_abstract_loop, (parent, tag), answer) ==> answer,
{
}

/// Asked of a monoid, any number of times, the query answers `true`.
pub proof fn lemma_monoid_query<P: AbstractMonoid<O>, O: Operator>(parent: &P, tag: O)
    ensures
        forall|answer: bool|
            call_ensures(P::is_abstract_monoid, (parent, tag), answer) ==> answer,
{
}

/// Asked of a group, any number of times, the query answers `true`.
pub proof fn lemma_group_query<P: AbstractGroup<O>, O: Operator>(parent: &P, tag: O)
    ensures
        forall|answer: bool| call_ensures(P::is_abstract_group, (parent, tag), answer) ==> answer,
{
}

/// Asked of an Abelian group, any number of times, the query answers `true`.
pub proof fn lemma_group_abelian_query<P: AbstractGroupAbelian<O>, O: Operator>(
    parent: &P,
    tag: O,
)
    ensures
        forall|answer: bool|
            call_ensures(P::is_abstract_group_abelian, (parent, tag), answer) ==> answer,
{
}

/// Asked of a ring whose multiplication need not be commutative, any number
/// of times, the query answers `true`.
pub proof fn lemma_ncring_query<P: AbstractNCRing<A, M>, A: Operator, M: Operator>(
    parent: &P,
    add: A,
    mul: M,
)
    ensures
        forall|answer: bool|
            call_ensures(P::is_abstract_ncring, (parent, add, mul), answer) ==> answer,
{
}

/// Asked of a ring, any number of times, the query answers `true`.
pub proof fn lemma_ring_query<P: AbstractRing<A, M>, A: Operator, M: Operator>(
    parent: &P,
    add: A,
    mul: M,
)
    ensures
        forall|answer: bool|
            call_ensures(P::is_abstract_ring, (parent, add, mul), answer) ==> answer,
{
}

/// Asked of a field, any number of times, the query answers `true`.
pub proof fn lemma_field_query<P: AbstractField<A, M>, A: Operator, M: Operator>(
    parent: &P,
    add: A,
    mul: M,
)
    ensures
        forall|answer: bool|
            call_ensures(P::is_abstract_field, (parent, add, mul), answer) ==> answer,
{
}

/// Consistency of the lattice below a group: a group is a monoid, a loop, a
/// semigroup, a quasigroup and a magma too. Each of their queries answers
/// `true` for it.
pub proof fn lemma_group_is_consistent<P: AbstractGroup<O>, O: Operator>(parent: &P, tag: O)
    ensures
        forall|answer: bool|
            call_ensures(<P as AbstractMonoid<O>>::is_abstract_monoid, (parent, tag), answer)
                ==> answer,
        forall|answer: bool|
            call_ensures(<P as AbstractLoop<O>>::is_abstract_loop, (parent, tag), answer)
                ==> answer,
        forall|answer: bool|
            call_ensures(
                <P as AbstractSemigroup<O>>::is_abstract_semigroup,
                (parent, tag),
                answer,
            ) ==> answer,
        forall|answer: bool|
            call_ensures(
                <P as AbstractQuasigroup<O>>::is_abstract_quasigroup,
                (parent, tag),
                answer,
            ) ==> answer,
        forall|answer: bool|
            call_ensures(<P as AbstractMagma<O>>::is_abstract_magma, (parent, tag), answer)
                ==> answer,
{
}

/// The other way to a group: a monoid that claims divisibility is classified
/// as a group.
pub proof fn lemma_divisible_monoid_is_group<P, O: Operator>(parent: &P, tag: O) where
    P: AbstractMonoid<O> + Divisible<O>,
    Elem<P>: TwoSidedInverse<O>,

    ensures
        forall|answer: bool|
            call_ensures(<P as AbstractGroup<O>>::is_abstract_group, (parent, tag), answer)
                ==> answer,
{
}

/// The two ways to a group agree: to be a loop with an associative operation
/// is to be a monoid with the Latin square property.
pub proof fn lemma_group_paths_agree<P: AbstractGroup<O>, O: Operator>()
    ensures
        group_laws::<P, O>() <==> monoid_laws::<P, O>() && quasigroup_laws::<P, O>(),
{
}

/// Consistency of the lattice below a field: a field is a ring, with or
/// without commutativity of the multiplication, an Abelian group under `A`
/// and a monoid under `M`. Each of their queries answers `true` for it.
pub proof fn lemma_field_is_consistent<P: AbstractField<A, M>, A: Operator, M: Operator>(
    parent: &P,
    add: A,
    mul: M,
)
    ensures
        forall|answer: bool|
            call_ensures(
                <P as AbstractRing<A, M>>::is_abstract_ring,
                (parent, add, mul),
                answer,
            ) ==> answer,
        forall|answer: bool|
            call_ensures(
                <P as AbstractNCRing<A, M>>::is_abstract_ncring,
                (parent, add, mul),
                answer,
            ) ==> answer,
        forall|answer: bool|
            call_ensures(
                <P as AbstractGroupAbelian<A>>::is_abstract_group_abelian,
                (parent, add),
                answer,
            ) ==> answer,
        forall|answer: bool|
            call_ensures(<P as AbstractMonoid<M>>::is_abstract_monoid, (parent, mul), answer)
                ==> answer,
{
}

/// Where the claim of a neutral element is proved, the sampling predicate
/// cannot find operating with it to change anything, whatever the element.
pub proof fn lemma_identity_is_confirmed<P: IdentityLaw<O>, O: Operator>(
    parent: &P,
    args: (Elem<P>,),
) where Elem<P>: Eq
    requires
        Elem::<P>::obeys_eq_spec(),
    ensures
        forall|answer: bool|
            call_ensures(P::prop_operating_identity_element_is_noop, (parent, args), answer)
                ==> answer,
{
    parent.law_identity(args.0);
}

/// Where the claim of associativity is proved, the sampling predicate cannot
/// find the law to fail, whatever the elements.
pub proof fn lemma_associativity_is_confirmed<P: AssociativeLaw<O>, O: Operator>(
    args: (Elem<P>, Elem<P>, Elem<P>),
) where Elem<P>: Eq
    requires
        Elem::<P>::obeys_eq_spec(),
    ensures
        forall|answer: bool| call_ensures(P::prop_is_associative, (args,), answer) ==> answer,
{
    P::law_associative(args.0, args.1, args.2);
}

/// Where the claim of divisibility is proved, the sampling predicate cannot
/// find the Latin square law to fail, whatever the elements.
pub proof fn lemma_divisibility_is_confirmed<P: DivisibleLaw<O>, O: Operator>(
    args: (Elem<P>, Elem<P>),
) where Elem<P>: TwoSidedInverse<O> + Eq
    requires
        Elem::<P>::obeys_eq_spec(),
    ensures
        forall|answer: bool|
            call_ensures(P::prop_inv_is_latin_square, (args,), answer) ==> answer,
{
    P::law_latin_square(args.0, args.1);
}

/// Where the claim of commutativity is proved, the sampling predicate cannot
/// find the law to fail, whatever the elements.
pub proof fn lemma_commutativity_is_confirmed<P: CommutativeLaw<O>, O: Operator>(
    args: (Elem<P>, Elem<P>),
) where Elem<P>: Eq
    requires
        Elem::<P>::obeys_eq_spec(),
    ensures
        forall|answer: bool| call_ensures(P::prop_is_commutative, (args,), answer) ==> answer,
{
    P::law_commutative(args.0, args.1);
}

/// A self-test that is proved is exact: the neutral element passes it, and an
/// element that passes it equals the neutral element. Where equality is that
/// of the values, the elements that pass are those that are the neutral
/// element.
pub proof fn lemma_self_test_is_exact<P, O: Operator>(parent: P, x: Elem<P>) where
    P: IdentityLaw<O>,
    Elem<P>: IsIdentityLaw<O>,

    requires
        obeys_eq::<Elem<P>>(),
    ensures
        parent.identity_spec().is_identity_spec(),
        x.is_identity_spec() ==> x.eq_spec(&parent.identity_spec()),
        obeys_concrete_eq::<Elem<P>>() ==> (x.is_identity_spec() <==> x == parent.identity_spec()),
{
    reveal(obeys_eq_spec_properties);
    reveal(obeys_concrete_eq);
    let e = parent.identity_spec();
    lemma_identity_laws::<P, O>();
    assert(neutral_at::<Elem<P>, O>(e, x));
    if x.is_identity_spec() {
        assert(neutral_at::<Elem<P>, O>(x, e));
        let ex = e.operate_spec(&x);
        assert(ex.eq_spec(&x));
        assert(ex.eq_spec(&e));
        assert(x.eq_spec(&ex));
    }
}

/// In a loop whose claims are proved and whose equality is that of the
/// values, an element and its inverse operate to the neutral element, on
/// either side.
pub proof fn lemma_inverse_cancels<P, O: Operator>(parent: P, x: Elem<P>) where
    P: AbstractLoop<O> + DivisibleLaw<O> + IdentityLaw<O>,

    requires
        obeys_concrete_eq::<Elem<P>>(),
    ensures
        x.operate_spec(&x.two_sided_inverse_spec()) == parent.identity_spec(),
        x.two_sided_inverse_spec().operate_spec(&x) == parent.identity_spec(),
{
    reveal(obeys_concrete_eq);
    let e = parent.identity_spec();
    P::law_latin_square(e, x);
    parent.law_identity(x.two_sided_inverse_spec());
    parent.law_identity(x.operate_spec(&x.two_sided_inverse_spec()));
}

/// In a group whose claims are proved and whose equality is that of the
/// values, the inverse of the inverse of an element is the element.
pub proof fn lemma_inverse_is_involutive<P, O: Operator>(parent: P, x: Elem<P>) where
    P: AbstractGroup<O> + AssociativeLaw<O> + DivisibleLaw<O> + IdentityLaw<O>,

    requires
        obeys_concrete_eq::<Elem<P>>(),
    ensures
        x.two_sided_inverse_spec().two_sided_inverse_spec() == x,
{
    reveal(obeys_concrete_eq);
    let e = parent.identity_spec();
    let y = x.two_sided_inverse_spec();
    let z = y.two_sided_inverse_spec();
    lemma_inverse_cancels::<P, O>(parent, x);
    lemma_inverse_cancels::<P, O>(parent, y);
    P::law_associative(x, y, z);
    parent.law_identity(z);
    parent.law_identity(x);
}

/// In a group whose claims are proved and whose equality is that of the
/// values, only the neutral element is left unchanged by operating with
/// itself.
pub proof fn lemma_sum_with_itself<P, O: Operator>(parent: P, y: Elem<P>) where
    P: AbstractGroup<O> + AssociativeLaw<O> + DivisibleLaw<O> + IdentityLaw<O>,

    requires
        obeys_concrete_eq::<Elem<P>>(),
        y == y.operate_spec(&y),
    ensures
        y == parent.identity_spec(),
{
    reveal(obeys_concrete_eq);
    let inverse = y.two_sided_inverse_spec();
    lemma_inverse_cancels::<P, O>(parent, y);
    P::law_associative(y, y, inverse);
    parent.law_identity(y);
}

/// In a ring whose claims are proved and whose equality is that of the
/// values, a product with the neutral element of addition is that element, on
/// either side.
pub proof fn lemma_zero_annihilates<P, A: Operator, M: Operator>(parent: P, x: Elem<P>) where
    P: AbstractNCRing<A, M> + AssociativeLaw<A> + DivisibleLaw<A> + IdentityLaw<A>
        + DistributiveLaw<A, M>,

    requires
        obeys_concrete_eq::<Elem<P>>(),
    ensures
        product::<Elem<P>, M>(x, Identity::<A>::identity_spec(&parent)) == Identity::<
            A,
        >::identity_spec(&parent),
        product::<Elem<P>, M>(Identity::<A>::identity_spec(&parent), x) == Identity::<
            A,
        >::identity_spec(&parent),
{
    reveal(obeys_concrete_eq);
    let zero = Identity::<A>::identity_spec(&parent);
    IdentityLaw::<A>::law_identity(&parent, zero);
    <P as DistributiveLaw<A, M>>::law_distributive(x, zero, zero);
    let left = product::<Elem<P>, M>(x, zero);
    assert(left == sum::<Elem<P>, A>(left, left));
    lemma_sum_with_itself::<P, A>(parent, left);
    let right = product::<Elem<P>, M>(zero, x);
    assert(right == sum::<Elem<P>, A>(right, right));
    lemma_sum_with_itself::<P, A>(parent, right);
}

/// The division of a field does not set the neutral element of addition
/// apart. So divisibility under the multiplication can be claimed of a field
/// but, where equality is that of the values, proved only of one that has no
/// element but that one.
pub proof fn lemma_field_has_one_element<P, A: Operator, M: Operator>(parent: P, a: Elem<P>) where
    P: AbstractField<A, M> + AssociativeLaw<A> + DivisibleLaw<A> + IdentityLaw<A>
        + DistributiveLaw<A, M> + DivisibleLaw<M>,

    requires
        obeys_concrete_eq::<Elem<P>>(),
    ensures
        a == Identity::<A>::identity_spec(&parent),
{
    reveal(obeys_concrete_eq);
    let zero = Identity::<A>::identity_spec(&parent);
    <P as DivisibleLaw<M>>::law_latin_square(a, zero);
    let quotient = product::<Elem<P>, M>(a, TwoSidedInverse::<M>::two_sided_inverse_spec(&zero));
    lemma_zero_annihilates::<P, A, M>(parent, quotient);
}

} // verus!
