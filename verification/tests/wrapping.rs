use inertia_algebra::wrapping::{Wrap, WrappingRing};
use inertia_algebra::{
    AbstractGroup, AbstractGroupAbelian, AbstractLoop, AbstractMagma, AbstractMonoid,
    AbstractNCRing, AbstractQuasigroup, AbstractRing, AbstractSemigroup, Additive,
    AdditiveGroup, AdditiveGroupAbelian, AdditiveLoop, AdditiveMagma, AdditiveMonoid,
    AdditiveQuasigroup, AdditiveSemigroup, Associative, Commutative, Divisible, Element,
    Identity, IsIdentity, Multiplicative, MultiplicativeMagma, MultiplicativeMonoid,
    MultiplicativeSemigroup, NCRing, One, Operation, Operator, Ring, TwoSidedInverse, Zero,
};

type Z8 = WrappingRing<i8>;
type U8 = WrappingRing<u8>;

#[test]
fn signed_bytes_wrap_on_addition() {
    let zn = Z8::init();
    let x = zn.new(-20);
    let y = zn.new(25);
    assert_eq!(x.op(Additive, &y).0, 5);
    assert_eq!(zn.new(100).op(Additive, &zn.new(100)).0, -56);
    assert_eq!(zn.new(-128).op(Additive, &zn.new(-1)).0, 127);
    assert_eq!(zn.new(127).op(Additive, &zn.new(1)).0, -128);
}

#[test]
fn signed_bytes_wrap_on_multiplication() {
    let zn = Z8::init();
    let x = zn.new(-20);
    let y = zn.new(25);
    let z = x.op(Multiplicative, &y);
    assert_eq!(z.0, 12);
    assert_eq!(z.0, (-20i8).wrapping_mul(25));
    assert_eq!(zn.new(-128).op(Multiplicative, &zn.new(-1)).0, -128);
    assert_eq!(zn.new(16).op(Multiplicative, &zn.new(16)).0, 0);
}

#[test]
fn unsigned_bytes_wrap_modulo_256() {
    let zn = U8::init();
    let x = zn.new(236);
    let y = zn.new(25);
    assert_eq!(x.op(Additive, &y).0, 5);
    assert_eq!(x.op(Multiplicative, &y).0, 12);
    assert_eq!(Operation::<Additive>::operate(&zn.new(255), &zn.new(1)).0, 0);
    assert_eq!(Operation::<Multiplicative>::operate(&zn.new(255), &zn.new(255)).0, 1);
}

#[test]
fn signed_and_unsigned_bytes_agree() {
    let signed = Z8::init();
    let unsigned = U8::init();
    for a in 0..=255u8 {
        for b in (0..=255u8).step_by(3) {
            let s = signed.new(a as i8).op(Additive, &signed.new(b as i8));
            let u = unsigned.new(a).op(Additive, &unsigned.new(b));
            assert_eq!(s.0 as u8, u.0);
            let s = signed.new(a as i8).op(Multiplicative, &signed.new(b as i8));
            let u = unsigned.new(a).op(Multiplicative, &unsigned.new(b));
            assert_eq!(s.0 as u8, u.0);
        }
    }
}

#[test]
fn wrapping_ring_is_an_additive_abelian_group() {
    let zn = Z8::init();
    assert!(zn.is_abstract_magma(Additive));
    assert!(zn.is_abstract_quasigroup(Additive));
    assert!(zn.is_abstract_semigroup(Additive));
    assert!(zn.is_abstract_loop(Additive));
    assert!(zn.is_abstract_monoid(Additive));
    assert!(zn.is_abstract_group(Additive));
    assert!(zn.is_abstract_group_abelian(Additive));
}

#[test]
fn wrapping_ring_is_a_multiplicative_monoid() {
    let zn = Z8::init();
    assert!(zn.is_abstract_magma(Multiplicative));
    assert!(zn.is_abstract_semigroup(Multiplicative));
    assert!(zn.is_abstract_monoid(Multiplicative));
}

#[test]
fn wrapping_ring_is_a_ring() {
    let zn = Z8::init();
    assert!(zn.is_abstract_ncring(Additive, Multiplicative));
    assert!(zn.is_abstract_ring(Additive, Multiplicative));
    assert!(zn.is_ncring());
    assert!(zn.is_ring());
}

#[test]
fn wrapping_ring_has_the_specialized_structures() {
    let zn = U8::init();
    assert!(zn.is_additive_magma());
    assert!(zn.is_additive_quasigroup());
    assert!(zn.is_additive_semigroup());
    assert!(zn.is_additive_loop());
    assert!(zn.is_additive_monoid());
    assert!(zn.is_additive_group());
    assert!(zn.is_additive_group_abelian());
    assert!(zn.is_multiplicative_magma());
    assert!(zn.is_multiplicative_semigroup());
    assert!(zn.is_multiplicative_monoid());
}

#[test]
fn classification_answers_the_same_when_asked_again() {
    let zn = Z8::init();
    let first = zn.is_abstract_group_abelian(Additive);
    let second = zn.is_abstract_group_abelian(Additive);
    assert_eq!(first, second);
    let first = zn.is_abstract_ring(Additive, Multiplicative);
    let second = zn.is_abstract_ring(Additive, Multiplicative);
    assert_eq!(first, second);
    assert_eq!(zn.new(7).0, 7);
}

#[test]
fn operator_tokens_are_the_tags() {
    let add: Additive = Operator::operator_token();
    let mul: Multiplicative = Operator::operator_token();
    let zn = Z8::init();
    assert_eq!(zn.new(3).op(add, &zn.new(4)).0, 7);
    assert_eq!(zn.new(3).op(mul, &zn.new(4)).0, 12);
}

#[test]
fn identities_are_zero_and_one() {
    let zn = Z8::init();
    assert_eq!(zn.id(Additive).0, 0);
    assert_eq!(zn.id(Multiplicative).0, 1);
    assert_eq!(zn.zero().0, 0);
    assert_eq!(zn.one().0, 1);
    assert_eq!(Identity::<Additive>::identity(&zn).0, 0);
    assert_eq!(Identity::<Multiplicative>::identity(&zn).0, 1);
}

#[test]
fn only_the_identity_passes_the_self_test() {
    let zn = Z8::init();
    for v in i8::MIN..=i8::MAX {
        let x = zn.new(v);
        assert_eq!(IsIdentity::<Additive>::is_identity(&x), v == 0);
        assert_eq!(IsIdentity::<Multiplicative>::is_identity(&x), v == 1);
        assert_eq!(IsIdentity::<Additive>::is_identity(&x), x == zn.id(Additive));
        assert_eq!(IsIdentity::<Multiplicative>::is_identity(&x), x == zn.id(Multiplicative));
    }
}

#[test]
fn operating_with_the_identity_changes_nothing() {
    let zn = Z8::init();
    for v in i8::MIN..=i8::MAX {
        assert!(Identity::<Additive>::prop_operating_identity_element_is_noop(&zn, (zn.new(v),)));
        assert!(Identity::<Multiplicative>::prop_operating_identity_element_is_noop(
            &zn,
            (zn.new(v),)
        ));
    }
}

#[test]
fn wrapping_operations_are_associative() {
    let zn = U8::init();
    for a in (0..=255u8).step_by(5) {
        for b in (0..=255u8).step_by(7) {
            for c in (0..=255u8).step_by(11) {
                let args = (zn.new(a), zn.new(b), zn.new(c));
                assert!(<U8 as Associative<Additive>>::prop_is_associative(args.clone()));
                assert!(<U8 as Associative<Multiplicative>>::prop_is_associative(args));
            }
        }
    }
}

#[test]
fn wrapping_operations_are_commutative() {
    let zn = Z8::init();
    for a in i8::MIN..=i8::MAX {
        for b in (i8::MIN..=i8::MAX).step_by(3) {
            let args = (zn.new(a), zn.new(b));
            assert!(<Z8 as Commutative<Additive>>::prop_is_commutative(args.clone()));
            assert!(<Z8 as Commutative<Multiplicative>>::prop_is_commutative(args));
        }
    }
}

#[test]
fn wrapping_addition_has_the_latin_square_property() {
    let zn = Z8::init();
    for a in i8::MIN..=i8::MAX {
        for b in i8::MIN..=i8::MAX {
            assert!(<Z8 as Divisible<Additive>>::prop_inv_is_latin_square((zn.new(a), zn.new(b))));
        }
    }
}

#[test]
fn negation_wraps_at_the_lowest_value() {
    let zn = Z8::init();
    assert_eq!(zn.new(20).two_sided_inverse().0, -20);
    assert_eq!(zn.new(-20).two_sided_inverse().0, 20);
    assert_eq!(zn.new(0).two_sided_inverse().0, 0);
    assert_eq!(zn.new(-128).two_sided_inverse().0, -128);
    let un = U8::init();
    assert_eq!(un.new(1).two_sided_inverse().0, 255);
    assert_eq!(un.new(20).two_sided_inverse().0, 236);
    assert_eq!(un.new(0).two_sided_inverse().0, 0);
    assert_eq!(un.new(128).two_sided_inverse().0, 128);
}

#[test]
fn negation_agrees_with_the_standard_library() {
    for v in i8::MIN..=i8::MAX {
        assert_eq!(Wrap(v).two_sided_inverse().0, v.wrapping_neg());
    }
    for v in 0..=255u8 {
        assert_eq!(Wrap(v).two_sided_inverse().0, v.wrapping_neg());
    }
    for v in [i64::MIN, -1, 0, 1, i64::MAX] {
        assert_eq!(Wrap(v).two_sided_inverse().0, v.wrapping_neg());
    }
}

#[test]
fn negating_twice_gives_the_element_back() {
    let zn = Z8::init();
    for v in i8::MIN..=i8::MAX {
        let x = zn.new(v);
        assert_eq!(x.two_sided_inverse().two_sided_inverse(), x);
    }
    let un = U8::init();
    for v in 0..=255u8 {
        let x = un.new(v);
        assert_eq!(x.two_sided_inverse().two_sided_inverse(), x);
    }
    for v in [i128::MIN, -7, 0, 7, i128::MAX] {
        assert_eq!(Wrap(v).two_sided_inverse().two_sided_inverse().0, v);
    }
}

#[test]
fn two_has_no_multiplicative_inverse() {
    let zn = U8::init();
    for v in 0..=255u8 {
        assert_ne!(zn.new(v).op(Multiplicative, &zn.new(2)).0, 1);
        assert_ne!(zn.new(2).op(Multiplicative, &zn.new(v)).0, 1);
    }
}

#[test]
fn multiplication_distributes_over_addition() {
    let zn = Z8::init();
    for a in (i8::MIN..=i8::MAX).step_by(5) {
        for b in (i8::MIN..=i8::MAX).step_by(7) {
            for c in (i8::MIN..=i8::MAX).step_by(11) {
                let (x, y, z) = (zn.new(a), zn.new(b), zn.new(c));
                let left = x.op(Multiplicative, &y.op(Additive, &z));
                let right = x.op(Multiplicative, &y).op(Additive, &x.op(Multiplicative, &z));
                assert_eq!(left, right);
                let left = y.op(Additive, &z).op(Multiplicative, &x);
                let right = y.op(Multiplicative, &x).op(Additive, &z.op(Multiplicative, &x));
                assert_eq!(left, right);
            }
        }
    }
}

#[test]
fn every_width_wraps_at_its_boundary() {
    assert_eq!(Wrap(u8::MAX).op(Additive, &Wrap(1)).0, 0);
    assert_eq!(Wrap(u16::MAX).op(Additive, &Wrap(1)).0, 0);
    assert_eq!(Wrap(u32::MAX).op(Additive, &Wrap(1)).0, 0);
    assert_eq!(Wrap(u64::MAX).op(Additive, &Wrap(1)).0, 0);
    assert_eq!(Wrap(u128::MAX).op(Additive, &Wrap(1)).0, 0);
    assert_eq!(Wrap(usize::MAX).op(Additive, &Wrap(1)).0, 0);
    assert_eq!(Wrap(i8::MAX).op(Additive, &Wrap(1)).0, i8::MIN);
    assert_eq!(Wrap(i16::MAX).op(Additive, &Wrap(1)).0, i16::MIN);
    assert_eq!(Wrap(i32::MAX).op(Additive, &Wrap(1)).0, i32::MIN);
    assert_eq!(Wrap(i64::MAX).op(Additive, &Wrap(1)).0, i64::MIN);
    assert_eq!(Wrap(i128::MAX).op(Additive, &Wrap(1)).0, i128::MIN);
    assert_eq!(Wrap(isize::MAX).op(Additive, &Wrap(1)).0, isize::MIN);
}

#[test]
fn every_width_multiplies_modulo_its_range() {
    assert_eq!(Wrap(u16::MAX).op(Multiplicative, &Wrap(u16::MAX)).0, 1);
    assert_eq!(Wrap(u32::MAX).op(Multiplicative, &Wrap(2)).0, u32::MAX - 1);
    assert_eq!(Wrap(u64::MAX).op(Multiplicative, &Wrap(u64::MAX)).0, 1);
    assert_eq!(Wrap(u128::MAX).op(Multiplicative, &Wrap(3)).0, u128::MAX - 2);
    assert_eq!(Wrap(usize::MAX).op(Multiplicative, &Wrap(usize::MAX)).0, 1);
    assert_eq!(Wrap(i16::MIN).op(Multiplicative, &Wrap(-1)).0, i16::MIN);
    assert_eq!(Wrap(i32::MAX).op(Multiplicative, &Wrap(2)).0, -2);
    assert_eq!(Wrap(i64::MIN).op(Multiplicative, &Wrap(3)).0, i64::MIN);
    assert_eq!(Wrap(i128::MAX).op(Multiplicative, &Wrap(i128::MAX)).0, 1);
    assert_eq!(Wrap(isize::MIN).op(Multiplicative, &Wrap(-1)).0, isize::MIN);
    assert_eq!(
        Wrap(1_000_003i32).op(Multiplicative, &Wrap(1_000_033)).0,
        1_000_003i32.wrapping_mul(1_000_033)
    );
    assert_eq!(Wrap(1_000_003i32).op(Multiplicative, &Wrap(1_000_033)).0, -691_379_869);
}

#[test]
fn elements_name_their_ring() {
    let x = Wrap(5i32);
    let ring: WrappingRing<i32> = x.parent();
    assert_eq!(ring.new(6).op(Additive, &x).0, 11);
    assert_eq!(ring.clone().new(6).0, 6);
    assert_eq!(x.clone(), x);
}

#[test]
fn infix_operators_are_the_tagged_operations() {
    let zn = Z8::init();
    let (x, y) = (zn.new(-20), zn.new(25));
    assert_eq!((x.clone() + y.clone()).0, 5);
    assert_eq!((x.clone() * y.clone()).0, 12);
    assert_eq!((x.clone() - y.clone()).0, -45);
    assert_eq!((-x.clone()).0, 20);
    assert_eq!((zn.new(-128) - zn.new(1)).0, 127);
    assert_eq!((-zn.new(-128)).0, -128);
    assert_eq!(x.clone() + y.clone(), x.op(Additive, &y));
    assert_eq!(x.clone() * y.clone(), x.op(Multiplicative, &y));
}

#[test]
fn adapter_reads_as_ordinary_arithmetic() {
    type W = inertia_algebra::wrapper::Wrapper<Wrap<i8>, Additive, Multiplicative>;
    let (x, y, z) = (Wrap(-20i8), Wrap(25i8), Wrap(20i8));
    assert_eq!((W::new(x) + W::new(y)).into_inner().0, 5);
    assert_eq!((W::new(x) * W::new(y)).into_inner().0, 12);
    assert_eq!((W::new(x) * (W::new(y) + W::new(z))).val.0, 124);
    assert_eq!((W::new(x) * W::new(y) + W::new(x) * W::new(z)).val.0, 124);
    assert_eq!((W::new(x) - W::new(y)).val.0, -45);
    assert_eq!((-W::new(x)).val.0, 20);
    assert_eq!((W::new(Wrap(i8::MIN)) - W::new(Wrap(1))).val.0, i8::MAX);
}

#[test]
fn adapter_takes_its_operations_from_the_tags() {
    type Swapped = inertia_algebra::wrapper::Wrapper<Wrap<u8>, Multiplicative, Additive>;
    let (x, y) = (Wrap(236u8), Wrap(25u8));
    assert_eq!((Swapped::new(x) + Swapped::new(y)).val.0, 12);
    assert_eq!((Swapped::new(x) * Swapped::new(y)).val.0, 5);
    type Doubled = inertia_algebra::wrapper::Wrapper<Wrap<u8>, Additive, Additive>;
    assert_eq!((Doubled::new(x) + Doubled::new(y)).val.0, 5);
    assert_eq!((Doubled::new(x) * Doubled::new(y)).val.0, 5);
    assert_eq!((Doubled::new(x) / Doubled::new(y)).val.0, 211);
    assert_eq!(inertia_algebra::ops::InvOps::inv(Doubled::new(y)).val.0, 231);
}
