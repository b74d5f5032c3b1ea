//! The interface of a ring of polynomials in one variable over a base ring.
use crate::structures::grouplike::Elem;
use crate::structures::specialized::ringlike::{Ring, RingElement};
use core::ops::{Deref, DerefMut};
use vstd::prelude::*;
use vstd::std_specs::convert::IntoSpec;

verus! {

/// A ring of polynomials over the base ring `T`.
pub trait PolynomialRing<T: Ring>: Ring<Element = <Self as PolynomialRing<T>>::Element> {
    /// The polynomials.
    type Element: PolynomialRingElement<T, Parent = Self>;

    /// The base ring as a mathematical value.
    spec fn base_ring_spec(&self) -> T;

    /// The name of the variable as a mathematical value.
    spec fn var_spec(&self) -> String;

    /// The ring of polynomials over `ring` in the variable that is printed as
    /// `var`.
    fn init<S: Into<String>>(ring: &T, var: S) -> (polynomials: Self)
        ensures
            polynomials.base_ring_spec() == *ring,
            S::obeys_into_spec() ==> polynomials.var_spec()@ == var.into_spec()@,
    ;

    /// The base ring.
    fn base_ring(&self) -> (ring: &T)
        ensures
            *ring == self.base_ring_spec(),
    ;

    /// The name of the variable.
    fn var(&self) -> (name: String)
        ensures
            name@ == self.var_spec()@,
    ;

    /// Renames the variable; the base ring stays.
    fn set_var<S: Into<String>>(&mut self, var: S)
        ensures
            final(self).base_ring_spec() == old(self).base_ring_spec(),
            S::obeys_into_spec() ==> final(self).var_spec()@ == var.into_spec()@,
    ;

    /// The number of variables: one, unless an implementation says otherwise.
    fn nvars(&self) -> (count: i64)
        default_ensures
            count == 1,
    {
        1
    }

    /// Whether the implementation is the generic one: it is not, unless an
    /// implementation says otherwise.
    fn is_generic(&self) -> (generic: bool)
        default_ensures
            !generic,
    {
        false
    }
}

/// A polynomial over the base ring `T`.
pub trait PolynomialRingElement<T: Ring>: RingElement {
    /// A shared borrow of one coefficient.
    type Borrow<'a>: Deref<Target = Elem<T>> where T: 'a;

    /// An exclusive borrow of one coefficient.
    type BorrowMut<'a>: DerefMut<Target = Elem<T>> where T: 'a;

    /// The base ring as a mathematical value.
    spec fn base_ring_spec(&self) -> T;

    /// The name of the variable as a mathematical value.
    spec fn var_spec(&self) -> String;

    /// The coefficients as a mathematical value, that of the constant term
    /// first.
    spec fn coefficients_spec(&self) -> Vec<Elem<T>>;

    /// The coefficient of the power `i` as a mathematical value, for every
    /// `i`: below the length it is the one that the polynomial holds there, at
    /// and above the length it is what the implementation reads there.
    spec fn coefficient_spec(&self, i: usize) -> Elem<T>;

    /// The coefficients that the polynomial has once the coefficient of the
    /// power `i` has been set to `coeff`, for every `i`.
    spec fn set_coefficient_spec(&self, i: usize, coeff: Elem<T>) -> Vec<Elem<T>>;

    /// The base ring.
    fn base_ring(&self) -> (ring: &T)
        ensures
            *ring == self.base_ring_spec(),
    ;

    /// The name of the variable.
    fn var(&self) -> (name: String)
        ensures
            name@ == self.var_spec()@,
    ;

    /// The number of coefficients, which is the degree plus one.
    fn len(&self) -> (length: usize)
        ensures
            length == self.coefficients_spec()@.len(),
    ;

    /// The coefficient of the power `i`.
    fn get_coefficient(&self, i: usize) -> (coeff: Elem<T>)
        ensures
            coeff == self.coefficient_spec(i),
            i < self.coefficients_spec()@.len() ==> coeff == self.coefficients_spec()@[i as int],
    ;

    /// Sets the coefficient of the power `i`. Below the length, the other
    /// coefficients stay.
    fn set_coefficient(&mut self, i: usize, coeff: Elem<T>)
        ensures
            final(self).base_ring_spec() == old(self).base_ring_spec(),
            final(self).var_spec()@ == old(self).var_spec()@,
            final(self).coefficients_spec()@ == old(self).set_coefficient_spec(i, coeff)@,
            i < old(self).coefficients_spec()@.len() ==> final(self).coefficients_spec()@ == old(
                self,
            ).coefficients_spec()@.update(i as int, coeff),
    ;

    /// All the coefficients, that of the constant term first.
    fn get_coefficients(&self) -> (coeffs: Vec<Elem<T>>)
        ensures
            coeffs@ == self.coefficients_spec()@,
    ;

    /// The degree, which is the length minus one. A polynomial without any
    /// coefficient has no degree.
    fn degree(&self) -> (degree: i64)
        requires
            1 <= self.coefficients_spec()@.len(),
            self.coefficients_spec()@.len() - 1 <= i64::MAX,
        ensures
            degree == self.coefficients_spec()@.len() - 1,
    {
        let length = self.len();
        (length - 1) as i64
    }

    /// The coefficient of the power `i`, under a shorter name.
    fn get_coeff(&self, i: usize) -> (coeff: Elem<T>)
        ensures
            coeff == self.coefficient_spec(i),
            i < self.coefficients_spec()@.len() ==> coeff == self.coefficients_spec()@[i as int],
    {
        self.get_coefficient(i)
    }

    /// Sets the coefficient of the power `i`, under a shorter name.
    fn set_coeff(&mut self, i: usize, coeff: Elem<T>)
        ensures
            final(self).base_ring_spec() == old(self).base_ring_spec(),
            final(self).var_spec()@ == old(self).var_spec()@,
            final(self).coefficients_spec()@ == old(self).set_coefficient_spec(i, coeff)@,
            i < old(self).coefficients_spec()@.len() ==> final(self).coefficients_spec()@ == old(
                self,
            ).coefficients_spec()@.update(i as int, coeff),
    {
        self.set_coefficient(i, coeff);
    }

    /// All the coefficients, under a shorter name.
    fn get_coeffs(&self) -> (coeffs: Vec<Elem<T>>)
        ensures
            coeffs@ == self.coefficients_spec()@,
    {
        self.get_coefficients()
    }

    /// Whether the implementation is the generic one: it is not, unless an
    /// implementation says otherwise.
    fn is_generic(&self) -> (generic: bool)
        default_ensures
            !generic,
    {
        false
    }
}

} // verus!
