//! The primitive integers as rings of residues.
//!
//! A primitive integer type with `n` bits holds one representative of each
//! residue modulo `2^n`: the unsigned types those from zero upwards, the
//! signed types, in two's complement, those around zero.
use crate::wrapping::modular::{
    lemma_wrap_into, lemma_wrap_into_fixed, lemma_wrap_into_is, wrap_into,
};
use vstd::arithmetic::div_mod::{lemma_fundamental_div_mod, lemma_mod_bound};
use vstd::prelude::*;

verus! {

/// A primitive integer type with arithmetic that wraps around at the
/// boundary.
pub trait WrappingInteger: Copy {
    /// The number of values of the type.
    spec fn modulus() -> int;

    /// The least value of the type.
    spec fn lowest() -> int;

    /// The value as a mathematical integer.
    spec fn value(self) -> int;

    /// The value of the type that stands for the integer `v`.
    spec fn wrapped(v: int) -> Self;

    /// The type has an even number of values, zero and one among them.
    proof fn law_window()
        ensures
            Self::modulus() % 2 == 0,
            Self::lowest() <= 0,
            1 < Self::lowest() + Self::modulus(),
    ;

    /// Every value lies in the window of the type and stands for itself.
    proof fn law_value(self)
        ensures
            Self::lowest() <= self.value() < Self::lowest() + Self::modulus(),
            Self::wrapped(self.value()) == self,
    ;

    /// An integer is stood for by its representative in the window of the
    /// type.
    proof fn law_wrapped(v: int)
        ensures
            Self::wrapped(v).value() == wrap_into(v, Self::lowest(), Self::modulus()),
    ;

    /// Zero.
    fn zero() -> (number: Self)
        ensures
            number == Self::wrapped(0),
    ;

    /// One.
    fn one() -> (number: Self)
        ensures
            number == Self::wrapped(1),
    ;

    /// The sum, wrapped around at the boundary.
    fn wrapping_sum(self, other: Self) -> (sum: Self)
        ensures
            sum == Self::wrapped(self.value() + other.value()),
    ;

    /// The product, wrapped around at the boundary.
    fn wrapping_product(self, other: Self) -> (product: Self)
        ensures
            product == Self::wrapped(self.value() * other.value()),
    ;

    /// The negation, wrapped around at the boundary.
    fn wrapping_negation(self) -> (negation: Self)
        ensures
            negation == Self::wrapped(-self.value()),
    ;

    /// Whether the two values are the same.
    fn same(self, other: Self) -> (equal: bool)
        ensures
            equal == (self == other),
    ;
}

impl WrappingInteger for u8 {
    open spec fn modulus() -> int {
        u8::MAX - u8::MIN + 1
    }

    open spec fn lowest() -> int {
        u8::MIN as int
    }

    open spec fn value(self) -> int {
        self as int
    }

    open spec fn wrapped(v: int) -> u8 {
        wrap_into(v, Self::lowest(), Self::modulus()) as u8
    }

    proof fn law_window() {
    }

    proof fn law_value(self) {
        lemma_wrap_into_fixed(self as int, Self::lowest(), Self::modulus());
    }

    proof fn law_wrapped(v: int) {
        lemma_wrap_into(v, Self::lowest(), Self::modulus());
    }

    fn zero() -> u8 {
        0
    }

    fn one() -> u8 {
        1
    }

    fn wrapping_sum(self, other: u8) -> u8 {
        self.wrapping_add(other)
    }

    fn wrapping_product(self, other: u8) -> u8 {
        self.wrapping_mul(other)
    }

    fn wrapping_negation(self) -> u8 {
        0u8.wrapping_sub(self)
    }

    fn same(self, other: u8) -> bool {
        self == other
    }
}

impl WrappingInteger for i8 {
    open spec fn modulus() -> int {
        i8::MAX - i8::MIN + 1
    }

    open spec fn lowest() -> int {
        i8::MIN as int
    }

    open spec fn value(self) -> int {
        self as int
    }

    open spec fn wrapped(v: int) -> i8 {
        wrap_into(v, Self::lowest(), Self::modulus()) as i8
    }

    proof fn law_window() {
    }

    proof fn law_value(self) {
        lemma_wrap_into_fixed(self as int, Self::lowest(), Self::modulus());
    }

    proof fn law_wrapped(v: int) {
        lemma_wrap_into(v, Self::lowest(), Self::modulus());
    }

    fn zero() -> i8 {
        0
    }

    fn one() -> i8 {
        1
    }

    fn wrapping_sum(self, other: i8) -> i8 {
        self.wrapping_add(other)
    }

    fn wrapping_product(self, other: i8) -> i8 {
        self.wrapping_mul(other)
    }

    fn wrapping_negation(self) -> i8 {
        0i8.wrapping_sub(self)
    }

    fn same(self, other: i8) -> bool {
        self == other
    }
}

impl WrappingInteger for u16 {
    open spec fn modulus() -> int {
        u16::MAX - u16::MIN + 1
    }

    open spec fn lowest() -> int {
        u16::MIN as int
    }

    open spec fn value(self) -> int {
        self as int
    }

    open spec fn wrapped(v: int) -> u16 {
        wrap_into(v, Self::lowest(), Self::modulus()) as u16
    }

    proof fn law_window() {
    }

    proof fn law_value(self) {
        lemma_wrap_into_fixed(self as int, Self::lowest(), Self::modulus());
    }

    proof fn law_wrapped(v: int) {
        lemma_wrap_into(v, Self::lowest(), Self::modulus());
    }

    fn zero() -> u16 {
        0
    }

    fn one() -> u16 {
        1
    }

    fn wrapping_sum(self, other: u16) -> u16 {
        self.wrapping_add(other)
    }

    fn wrapping_product(self, other: u16) -> u16 {
        self.wrapping_mul(other)
    }

    fn wrapping_negation(self) -> u16 {
        0u16.wrapping_sub(self)
    }

    fn same(self, other: u16) -> bool {
        self == other
    }
}

impl WrappingInteger for i16 {
    open spec fn modulus() -> int {
        i16::MAX - i16::MIN + 1
    }

    open spec fn lowest() -> int {
        i16::MIN as int
    }

    open spec fn value(self) -> int {
        self as int
    }

    open spec fn wrapped(v: int) -> i16 {
        wrap_into(v, Self::lowest(), Self::modulus()) as i16
    }

    proof fn law_window() {
    }

    proof fn law_value(self) {
        lemma_wrap_into_fixed(self as int, Self::lowest(), Self::modulus());
    }

    proof fn law_wrapped(v: int) {
        lemma_wrap_into(v, Self::lowest(), Self::modulus());
    }

    fn zero() -> i16 {
        0
    }

    fn one() -> i16 {
        1
    }

    fn wrapping_sum(self, other: i16) -> i16 {
        self.wrapping_add(other)
    }

    fn wrapping_product(self, other: i16) -> i16 {
        self.wrapping_mul(other)
    }

    fn wrapping_negation(self) -> i16 {
        0i16.wrapping_sub(self)
    }

    fn same(self, other: i16) -> bool {
        self == other
    }
}

impl WrappingInteger for u32 {
    open spec fn modulus() -> int {
        u32::MAX - u32::MIN + 1
    }

    open spec fn lowest() -> int {
        u32::MIN as int
    }

    open spec fn value(self) -> int {
        self as int
    }

    open spec fn wrapped(v: int) -> u32 {
        wrap_into(v, Self::lowest(), Self::modulus()) as u32
    }

    proof fn law_window() {
    }

    proof fn law_value(self) {
        lemma_wrap_into_fixed(self as int, Self::lowest(), Self::modulus());
    }

    proof fn law_wrapped(v: int) {
        lemma_wrap_into(v, Self::lowest(), Self::modulus());
    }

    fn zero() -> u32 {
        0
    }

    fn one() -> u32 {
        1
    }

    fn wrapping_sum(self, other: u32) -> u32 {
        self.wrapping_add(other)
    }

    fn wrapping_product(self, other: u32) -> u32 {
        self.wrapping_mul(other)
    }

    fn wrapping_negation(self) -> u32 {
        0u32.wrapping_sub(self)
    }

    fn same(self, other: u32) -> bool {
        self == other
    }
}

impl WrappingInteger for i32 {
    open spec fn modulus() -> int {
        i32::MAX - i32::MIN + 1
    }

    open spec fn lowest() -> int {
        i32::MIN as int
    }

    open spec fn value(self) -> int {
        self as int
    }

    open spec fn wrapped(v: int) -> i32 {
        wrap_into(v, Self::lowest(), Self::modulus()) as i32
    }

    proof fn law_window() {
    }

    proof fn law_value(self) {
        lemma_wrap_into_fixed(self as int, Self::lowest(), Self::modulus());
    }

    proof fn law_wrapped(v: int) {
        lemma_wrap_into(v, Self::lowest(), Self::modulus());
    }

    fn zero() -> i32 {
        0
    }

    fn one() -> i32 {
        1
    }

    fn wrapping_sum(self, other: i32) -> i32 {
        self.wrapping_add(other)
    }

    fn wrapping_product(self, other: i32) -> i32 {
        self.wrapping_mul(other)
    }

    fn wrapping_negation(self) -> i32 {
        0i32.wrapping_sub(self)
    }

    fn same(self, other: i32) -> bool {
        self == other
    }
}

impl WrappingInteger for u64 {
    open spec fn modulus() -> int {
        u64::MAX - u64::MIN + 1
    }

    open spec fn lowest() -> int {
        u64::MIN as int
    }

    open spec fn value(self) -> int {
        self as int
    }

    open spec fn wrapped(v: int) -> u64 {
        wrap_into(v, Self::lowest(), Self::modulus()) as u64
    }

    proof fn law_window() {
    }

    proof fn law_value(self) {
        lemma_wrap_into_fixed(self as int, Self::lowest(), Self::modulus());
    }

    proof fn law_wrapped(v: int) {
        lemma_wrap_into(v, Self::lowest(), Self::modulus());
    }

    fn zero() -> u64 {
        0
    }

    fn one() -> u64 {
        1
    }

    fn wrapping_sum(self, other: u64) -> u64 {
        self.wrapping_add(other)
    }

    fn wrapping_product(self, other: u64) -> u64 {
        self.wrapping_mul(other)
    }

    fn wrapping_negation(self) -> u64 {
        0u64.wrapping_sub(self)
    }

    fn same(self, other: u64) -> bool {
        self == other
    }
}

impl WrappingInteger for i64 {
    open spec fn modulus() -> int {
        i64::MAX - i64::MIN + 1
    }

    open spec fn lowest() -> int {
        i64::MIN as int
    }

    open spec fn value(self) -> int {
        self as int
    }

    open spec fn wrapped(v: int) -> i64 {
        wrap_into(v, Self::lowest(), Self::modulus()) as i64
    }

    proof fn law_window() {
    }

    proof fn law_value(self) {
        lemma_wrap_into_fixed(self as int, Self::lowest(), Self::modulus());
    }

    proof fn law_wrapped(v: int) {
        lemma_wrap_into(v, Self::lowest(), Self::modulus());
    }

    fn zero() -> i64 {
        0
    }

    fn one() -> i64 {
        1
    }

    fn wrapping_sum(self, other: i64) -> i64 {
        self.wrapping_add(other)
    }

    fn wrapping_product(self, other: i64) -> i64 {
        self.wrapping_mul(other)
    }

    fn wrapping_negation(self) -> i64 {
        0i64.wrapping_sub(self)
    }

    fn same(self, other: i64) -> bool {
        self == other
    }
}

impl WrappingInteger for u128 {
    open spec fn modulus() -> int {
        u128::MAX - u128::MIN + 1
    }

    open spec fn lowest() -> int {
        u128::MIN as int
    }

    open spec fn value(self) -> int {
        self as int
    }

    open spec fn wrapped(v: int) -> u128 {
        wrap_into(v, Self::lowest(), Self::modulus()) as u128
    }

    proof fn law_window() {
    }

    proof fn law_value(self) {
        lemma_wrap_into_fixed(self as int, Self::lowest(), Self::modulus());
    }

    proof fn law_wrapped(v: int) {
        lemma_wrap_into(v, Self::lowest(), Self::modulus());
    }

    fn zero() -> u128 {
        0
    }

    fn one() -> u128 {
        1
    }

    fn wrapping_sum(self, other: u128) -> u128 {
        self.wrapping_add(other)
    }

    fn wrapping_product(self, other: u128) -> u128 {
        self.wrapping_mul(other)
    }

    fn wrapping_negation(self) -> u128 {
        0u128.wrapping_sub(self)
    }

    fn same(self, other: u128) -> bool {
        self == other
    }
}

impl WrappingInteger for i128 {
    open spec fn modulus() -> int {
        i128::MAX - i128::MIN + 1
    }

    open spec fn lowest() -> int {
        i128::MIN as int
    }

    open spec fn value(self) -> int {
        self as int
    }

    open spec fn wrapped(v: int) -> i128 {
        wrap_into(v, Self::lowest(), Self::modulus()) as i128
    }

    proof fn law_window() {
    }

    proof fn law_value(self) {
        lemma_wrap_into_fixed(self as int, Self::lowest(), Self::modulus());
    }

    proof fn law_wrapped(v: int) {
        lemma_wrap_into(v, Self::lowest(), Self::modulus());
    }

    fn zero() -> i128 {
        0
    }

    fn one() -> i128 {
        1
    }

    fn wrapping_sum(self, other: i128) -> i128 {
        self.wrapping_add(other)
    }

    fn wrapping_product(self, other: i128) -> i128 {
        self.wrapping_mul(other)
    }

    fn wrapping_negation(self) -> i128 {
        0i128.wrapping_sub(self)
    }

    fn same(self, other: i128) -> bool {
        self == other
    }
}

impl WrappingInteger for usize {
    open spec fn modulus() -> int {
        usize::MAX - usize::MIN + 1
    }

    open spec fn lowest() -> int {
        usize::MIN as int
    }

    open spec fn value(self) -> int {
        self as int
    }

    open spec fn wrapped(v: int) -> usize {
        wrap_into(v, Self::lowest(), Self::modulus()) as usize
    }

    proof fn law_window() {
    }

    proof fn law_value(self) {
        lemma_wrap_into_fixed(self as int, Self::lowest(), Self::modulus());
    }

    proof fn law_wrapped(v: int) {
        lemma_wrap_into(v, Self::lowest(), Self::modulus());
    }

    fn zero() -> usize {
        proof {
            lemma_wrap_into_fixed(0, Self::lowest(), Self::modulus());
        }
        0
    }

    fn one() -> usize {
        proof {
            lemma_wrap_into_fixed(1, Self::lowest(), Self::modulus());
        }
        1
    }

    fn wrapping_sum(self, other: usize) -> usize {
        proof {
            let sum = self + other;
            if sum > usize::MAX {
                lemma_wrap_into_is(sum, sum - Self::modulus(), 1, Self::lowest(), Self::modulus());
            } else {
                lemma_wrap_into_fixed(sum, Self::lowest(), Self::modulus());
            }
        }
        self.wrapping_add(other)
    }

    fn wrapping_product(self, other: usize) -> usize {
        self.wrapping_mul(other)
    }

    fn wrapping_negation(self) -> usize {
        proof {
            if self > 0 {
                lemma_wrap_into_is(
                    -self,
                    -self + Self::modulus(),
                    -1,
                    Self::lowest(),
                    Self::modulus(),
                );
            } else {
                lemma_wrap_into_fixed(0, Self::lowest(), Self::modulus());
            }
        }
        0usize.wrapping_sub(self)
    }

    fn same(self, other: usize) -> bool {
        self == other
    }
}

impl WrappingInteger for isize {
    open spec fn modulus() -> int {
        isize::MAX - isize::MIN + 1
    }

    open spec fn lowest() -> int {
        isize::MIN as int
    }

    open spec fn value(self) -> int {
        self as int
    }

    open spec fn wrapped(v: int) -> isize {
        wrap_into(v, Self::lowest(), Self::modulus()) as isize
    }

    proof fn law_window() {
    }

    proof fn law_value(self) {
        lemma_wrap_into_fixed(self as int, Self::lowest(), Self::modulus());
    }

    proof fn law_wrapped(v: int) {
        lemma_wrap_into(v, Self::lowest(), Self::modulus());
    }

    fn zero() -> isize {
        proof {
            lemma_wrap_into_fixed(0, Self::lowest(), Self::modulus());
        }
        0
    }

    fn one() -> isize {
        proof {
            lemma_wrap_into_fixed(1, Self::lowest(), Self::modulus());
        }
        1
    }

    fn wrapping_sum(self, other: isize) -> isize {
        proof {
            let sum = self + other;
            if sum > isize::MAX {
                lemma_wrap_into_is(sum, sum - Self::modulus(), 1, Self::lowest(), Self::modulus());
            } else if sum < isize::MIN {
                lemma_wrap_into_is(sum, sum + Self::modulus(), -1, Self::lowest(), Self::modulus());
            } else {
                lemma_wrap_into_fixed(sum, Self::lowest(), Self::modulus());
            }
        }
        self.wrapping_add(other)
    }

    fn wrapping_product(self, other: isize) -> isize {
        proof {
            let modulus = Self::modulus();
            let product = self * other;
            let quotient = product / modulus;
            let remainder = product % modulus;
            lemma_fundamental_div_mod(product, modulus);
            lemma_mod_bound(product, modulus);
            assert(modulus * quotient == quotient * modulus) by (nonlinear_arith);
            if remainder > isize::MAX {
                assert((quotient + 1) * modulus == quotient * modulus + modulus)
                    by (nonlinear_arith);
                lemma_wrap_into_is(
                    product,
                    remainder - modulus,
                    quotient + 1,
                    Self::lowest(),
                    modulus,
                );
            } else {
                lemma_wrap_into_is(product, remainder, quotient, Self::lowest(), modulus);
            }
        }
        self.wrapping_mul(other)
    }

    fn wrapping_negation(self) -> isize {
        proof {
            if -self > isize::MAX {
                lemma_wrap_into_is(
                    -self,
                    -self - Self::modulus(),
                    1,
                    Self::lowest(),
                    Self::modulus(),
                );
            } else {
                lemma_wrap_into_fixed(-self, Self::lowest(), Self::modulus());
            }
        }
        0isize.wrapping_sub(self)
    }

    fn same(self, other: isize) -> bool {
        self == other
    }
}

} // verus!
