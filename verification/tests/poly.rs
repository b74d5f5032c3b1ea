use inertia_algebra::wrapping::{Wrap, WrappingRing};
use inertia_algebra::{
    AbstractRing, Additive, Associative, Commutative, Distributive, Divisible, Element, Identity,
    IsIdentity, Multiplicative, Operation, Parent, PolynomialRing, PolynomialRingElement, Ring,
    RingOps, TwoSidedInverse,
};
use std::ops::{Add, Mul, Neg, Sub};

type Base = WrappingRing<u8>;
type Coeff = Wrap<u8>;

// Polynomials in one variable over the bytes, kept without leading zeros.

#[derive(Clone, Debug)]
struct Polynomials {
    base: Base,
    var: String,
}

#[derive(Clone, Debug, PartialEq, Eq)]
struct Polynomial {
    coeffs: Vec<u8>,
    var: String,
}

impl PartialEq for Polynomials {
    fn eq(&self, other: &Self) -> bool {
        self.var == other.var
    }
}

impl Polynomial {
    fn from(coeffs: &[u8], var: &str) -> Self {
        let mut p = Polynomial { coeffs: coeffs.to_vec(), var: var.to_string() };
        p.trim();
        p
    }

    fn trim(&mut self) {
        while self.coeffs.len() > 1 && *self.coeffs.last().unwrap() == 0 {
            self.coeffs.pop();
        }
        if self.coeffs.is_empty() {
            self.coeffs.push(0);
        }
    }
}

impl Parent for Polynomials {
    type Element = Polynomial;
}

impl Element for Polynomial {
    type Parent = Polynomials;

    fn parent_spec(&self) -> Polynomials {
        unreachable!()
    }

    fn parent(&self) -> Polynomials {
        Polynomials { base: Base::init(), var: self.var.clone() }
    }
}

impl Operation<Additive> for Polynomial {
    fn operate_spec(&self, _right: &Self) -> Self {
        unreachable!()
    }

    fn operate(&self, right: &Self) -> Self {
        let len = self.coeffs.len().max(right.coeffs.len());
        let mut coeffs = vec![0u8; len];
        for (i, c) in coeffs.iter_mut().enumerate() {
            let a = Wrap(*self.coeffs.get(i).unwrap_or(&0));
            let b = Wrap(*right.coeffs.get(i).unwrap_or(&0));
            *c = a.op(Additive, &b).0;
        }
        Polynomial::from(&coeffs, &self.var)
    }
}

impl Operation<Multiplicative> for Polynomial {
    fn operate_spec(&self, _right: &Self) -> Self {
        unreachable!()
    }

    fn operate(&self, right: &Self) -> Self {
        let mut coeffs = vec![0u8; self.coeffs.len() + right.coeffs.len() - 1];
        for (i, a) in self.coeffs.iter().enumerate() {
            for (j, b) in right.coeffs.iter().enumerate() {
                let term = Wrap(*a).op(Multiplicative, &Wrap(*b));
                coeffs[i + j] = Wrap(coeffs[i + j]).op(Additive, &term).0;
            }
        }
        Polynomial::from(&coeffs, &self.var)
    }
}

impl TwoSidedInverse<Additive> for Polynomial {
    fn two_sided_inverse_spec(&self) -> Self {
        unreachable!()
    }

    fn two_sided_inverse(&self) -> Self {
        let coeffs: Vec<u8> = self.coeffs.iter().map(|c| Wrap(*c).two_sided_inverse().0).collect();
        Polynomial::from(&coeffs, &self.var)
    }
}

impl Identity<Additive> for Polynomials {
    fn identity_spec(&self) -> Polynomial {
        unreachable!()
    }

    fn identity(&self) -> Polynomial {
        Polynomial::from(&[0], &self.var)
    }
}

impl Identity<Multiplicative> for Polynomials {
    fn identity_spec(&self) -> Polynomial {
        unreachable!()
    }

    fn identity(&self) -> Polynomial {
        Polynomial::from(&[1], &self.var)
    }
}

impl IsIdentity<Additive> for Polynomial {
    fn is_identity_spec(&self) -> bool {
        unreachable!()
    }

    fn is_identity(&self) -> bool {
        self.coeffs == [0]
    }
}

impl IsIdentity<Multiplicative> for Polynomial {
    fn is_identity_spec(&self) -> bool {
        unreachable!()
    }

    fn is_identity(&self) -> bool {
        self.coeffs == [1]
    }
}

impl Associative<Additive> for Polynomials {}

impl Associative<Multiplicative> for Polynomials {}

impl Commutative<Additive> for Polynomials {}

impl Commutative<Multiplicative> for Polynomials {}

impl Divisible<Additive> for Polynomials {}

impl Distributive<Additive, Multiplicative> for Polynomials {}

impl Add for Polynomial {
    type Output = Self;

    fn add(self, rhs: Self) -> Self {
        self.op(Additive, &rhs)
    }
}

impl Neg for Polynomial {
    type Output = Self;

    fn neg(self) -> Self {
        self.two_sided_inverse()
    }
}

impl Sub for Polynomial {
    type Output = Self;

    fn sub(self, rhs: Self) -> Self {
        self.op(Additive, &rhs.two_sided_inverse())
    }
}

impl Mul for Polynomial {
    type Output = Self;

    fn mul(self, rhs: Self) -> Self {
        self.op(Multiplicative, &rhs)
    }
}

impl RingOps for Polynomial {}

impl PolynomialRing<Base> for Polynomials {
    type Element = Polynomial;

    fn base_ring_spec(&self) -> Base {
        unreachable!()
    }

    fn var_spec(&self) -> String {
        unreachable!()
    }

    fn init<S: Into<String>>(ring: &Base, var: S) -> Self {
        Polynomials { base: ring.clone(), var: var.into() }
    }

    fn base_ring(&self) -> &Base {
        &self.base
    }

    fn var(&self) -> String {
        self.var.clone()
    }

    fn set_var<S: Into<String>>(&mut self, var: S) {
        self.var = var.into();
    }
}

impl PolynomialRingElement<Base> for Polynomial {
    type Borrow<'a> = &'a Coeff;
    type BorrowMut<'a> = &'a mut Coeff;

    fn base_ring_spec(&self) -> Base {
        unreachable!()
    }

    fn var_spec(&self) -> String {
        unreachable!()
    }

    fn coefficients_spec(&self) -> Vec<Coeff> {
        unreachable!()
    }

    fn coefficient_spec(&self, _i: usize) -> Coeff {
        unreachable!()
    }

    fn set_coefficient_spec(&self, _i: usize, _coeff: Coeff) -> Vec<Coeff> {
        unreachable!()
    }

    fn base_ring(&self) -> &Base {
        &WrappingRing(std::marker::PhantomData)
    }

    fn var(&self) -> String {
        self.var.clone()
    }

    fn len(&self) -> usize {
        self.coeffs.len()
    }

    fn get_coefficient(&self, i: usize) -> Coeff {
        Wrap(*self.coeffs.get(i).unwrap_or(&0))
    }

    fn set_coefficient(&mut self, i: usize, coeff: Coeff) {
        if i >= self.coeffs.len() {
            self.coeffs.resize(i + 1, 0);
        }
        self.coeffs[i] = coeff.0;
    }

    fn get_coefficients(&self) -> Vec<Coeff> {
        self.coeffs.iter().map(|c| Wrap(*c)).collect()
    }
}

fn poly(coeffs: &[u8]) -> Polynomial {
    Polynomial::from(coeffs, "x")
}

#[test]
fn polynomial_ring_is_built_over_its_base_ring() {
    let base = Base::init();
    let ring = Polynomials::init(&base, "x");
    assert_eq!(ring.var(), "x");
    assert_eq!(ring.base_ring().new(3).0, 3);
    assert_eq!(ring.nvars(), 1);
    assert!(!PolynomialRing::is_generic(&ring));
}

#[test]
fn polynomial_ring_variable_is_renamed() {
    let base = Base::init();
    let mut ring = Polynomials::init(&base, String::from("x"));
    ring.set_var("t");
    assert_eq!(ring.var(), "t");
    assert_eq!(ring.base_ring().new(9).0, 9);
    assert_eq!(ring.nvars(), 1);
}

#[test]
fn polynomial_ring_is_a_ring() {
    let ring = Polynomials::init(&Base::init(), "x");
    assert!(ring.is_abstract_ring(Additive, Multiplicative));
    assert!(ring.is_ring());
}

#[test]
fn degree_is_the_length_minus_one() {
    assert_eq!(poly(&[7]).degree(), 0);
    assert_eq!(poly(&[7]).len(), 1);
    assert_eq!(poly(&[1, 2, 3]).degree(), 2);
    assert_eq!(poly(&[1, 2, 3]).len(), 3);
    assert_eq!(poly(&[0, 0, 0, 0, 5]).degree(), 4);
    assert_eq!(poly(&[1, 2, 0, 0]).degree(), 1);
}

#[test]
fn coefficients_are_read_by_either_name() {
    let p = poly(&[4, 5, 6]);
    for i in 0..3 {
        assert_eq!(p.get_coeff(i), p.get_coefficient(i));
        assert_eq!(p.get_coeff(i).0, 4 + i as u8);
    }
    assert_eq!(p.get_coeffs(), p.get_coefficients());
    assert_eq!(p.get_coeffs(), vec![Wrap(4u8), Wrap(5), Wrap(6)]);
    assert!(!PolynomialRingElement::is_generic(&p));
    assert_eq!(PolynomialRingElement::var(&p), "x");
    assert_eq!(PolynomialRingElement::base_ring(&p).new(1).0, 1);
}

#[test]
fn short_name_reads_what_the_long_name_reads_at_every_index() {
    let p = poly(&[4, 5, 6]);
    for i in [0, 1, 2, 3, 4, 100, usize::MAX] {
        assert_eq!(p.get_coeff(i), p.get_coefficient(i));
    }
    assert_eq!(p.get_coeff(3), Wrap(0));
    assert_eq!(p.get_coeff(usize::MAX), Wrap(0));
    assert_eq!(p, poly(&[4, 5, 6]));
}

#[test]
fn short_name_sets_what_the_long_name_sets_at_every_index() {
    for i in [0, 1, 2, 3, 7] {
        let mut p = poly(&[4, 5, 6]);
        let mut q = poly(&[4, 5, 6]);
        p.set_coeff(i, Wrap(9));
        q.set_coefficient(i, Wrap(9));
        assert_eq!(p, q);
        assert_eq!(p.get_coeffs(), q.get_coefficients());
        assert_eq!(p.get_coeff(i), Wrap(9));
    }
}

#[test]
fn coefficients_are_set_by_either_name() {
    let mut p = poly(&[4, 5, 6]);
    p.set_coeff(1, Wrap(50));
    assert_eq!(p.get_coeffs(), vec![Wrap(4u8), Wrap(50), Wrap(6)]);
    let mut q = poly(&[4, 5, 6]);
    q.set_coefficient(1, Wrap(50));
    assert_eq!(p, q);
    p.set_coeff(2, Wrap(0));
    assert_eq!(p.get_coeffs(), vec![Wrap(4u8), Wrap(50), Wrap(0)]);
    assert_eq!(p.degree(), 2);
    p.set_coeff(4, Wrap(1));
    assert_eq!(p.get_coeffs(), vec![Wrap(4u8), Wrap(50), Wrap(0), Wrap(0), Wrap(1)]);
    assert_eq!(p.degree(), 4);
    assert_eq!(PolynomialRingElement::var(&p), "x");
}

#[test]
fn polynomial_arithmetic_wraps_in_the_base_ring() {
    let p = poly(&[200, 1]);
    let q = poly(&[100, 255]);
    assert_eq!(p.op(Additive, &q), poly(&[44]));
    assert_eq!(p.op(Multiplicative, &q), poly(&[32, 156, 255]));
    assert_eq!(p.clone() - p.clone(), poly(&[0]));
    assert_eq!(p.clone() + (-p.clone()), poly(&[0]));
    assert_eq!(p.clone() * q.clone(), q * p);
}

#[test]
fn polynomial_laws_hold_on_samples() {
    let ring = Polynomials::init(&Base::init(), "x");
    let samples = [poly(&[0]), poly(&[1]), poly(&[3, 250]), poly(&[128, 0, 2]), poly(&[255, 255])];
    for a in &samples {
        assert!(Identity::<Additive>::prop_operating_identity_element_is_noop(
            &ring,
            (a.clone(),)
        ));
        assert!(Identity::<Multiplicative>::prop_operating_identity_element_is_noop(
            &ring,
            (a.clone(),)
        ));
        for b in &samples {
            let pair = (a.clone(), b.clone());
            assert!(<Polynomials as Commutative<Additive>>::prop_is_commutative(pair.clone()));
            assert!(<Polynomials as Commutative<Multiplicative>>::prop_is_commutative(
                pair.clone()
            ));
            assert!(<Polynomials as Divisible<Additive>>::prop_inv_is_latin_square(pair));
            for c in &samples {
                let triple = (a.clone(), b.clone(), c.clone());
                assert!(<Polynomials as Associative<Additive>>::prop_is_associative(
                    triple.clone()
                ));
                assert!(<Polynomials as Associative<Multiplicative>>::prop_is_associative(triple));
            }
        }
    }
}
