//! Arithmetic modulo a positive number, with representatives drawn from a
//! window of that many consecutive integers.
use vstd::arithmetic::div_mod::{
    lemma_fundamental_div_mod, lemma_fundamental_div_mod_converse, lemma_mod_bound,
    lemma_mod_multiples_basic,
};
use vstd::prelude::*;

verus! {

/// `a` and `b` differ by a multiple of `modulus`.
pub open spec fn congruent(a: int, b: int, modulus: int) -> bool {
    (a - b) % modulus == 0
}

/// The one integer of the window `lowest .. lowest + modulus` that is
/// congruent to `v`.
pub open spec fn wrap_into(v: int, lowest: int, modulus: int) -> int {
    lowest + (v - lowest) % modulus
}

/// Two congruent integers differ by the modulus times their quotient.
pub proof fn lemma_congruent_difference(a: int, b: int, modulus: int)
    requires
        modulus > 0,
        congruent(a, b, modulus),
    ensures
        a - b == ((a - b) / modulus) * modulus,
{
    lemma_fundamental_div_mod(a - b, modulus);
    assert(modulus * ((a - b) / modulus) == ((a - b) / modulus) * modulus) by (nonlinear_arith);
}

/// Two integers that differ by a multiple of the modulus are congruent.
pub proof fn lemma_multiple_congruent(a: int, b: int, factor: int, modulus: int)
    requires
        modulus > 0,
        a - b == factor * modulus,
    ensures
        congruent(a, b, modulus),
{
    lemma_mod_multiples_basic(factor, modulus);
}

/// Congruence is symmetric.
pub proof fn lemma_congruent_symmetric(a: int, b: int, modulus: int)
    requires
        modulus > 0,
        congruent(a, b, modulus),
    ensures
        congruent(b, a, modulus),
{
    lemma_congruent_difference(a, b, modulus);
    let k = (a - b) / modulus;
    assert(b - a == (-k) * modulus) by (nonlinear_arith)
        requires
            a - b == k * modulus,
    ;
    lemma_multiple_congruent(b, a, -k, modulus);
}

/// Sums of congruent integers are congruent.
pub proof fn lemma_congruent_sum(a: int, a2: int, b: int, b2: int, modulus: int)
    requires
        modulus > 0,
        congruent(a, a2, modulus),
        congruent(b, b2, modulus),
    ensures
        congruent(a + b, a2 + b2, modulus),
{
    lemma_congruent_difference(a, a2, modulus);
    lemma_congruent_difference(b, b2, modulus);
    let k = (a - a2) / modulus;
    let l = (b - b2) / modulus;
    assert((a + b) - (a2 + b2) == (k + l) * modulus) by (nonlinear_arith)
        requires
            a - a2 == k * modulus,
            b - b2 == l * modulus,
    ;
    lemma_multiple_congruent(a + b, a2 + b2, k + l, modulus);
}

/// Products of congruent integers are congruent.
pub proof fn lemma_congruent_product(a: int, a2: int, b: int, b2: int, modulus: int)
    requires
        modulus > 0,
        congruent(a, a2, modulus),
        congruent(b, b2, modulus),
    ensures
        congruent(a * b, a2 * b2, modulus),
{
    lemma_congruent_difference(a, a2, modulus);
    lemma_congruent_difference(b, b2, modulus);
    let k = (a - a2) / modulus;
    let l = (b - b2) / modulus;
    assert(a * b - a2 * b2 == (k * b + a2 * l) * modulus) by (nonlinear_arith)
        requires
            a - a2 == k * modulus,
            b - b2 == l * modulus,
    ;
    lemma_multiple_congruent(a * b, a2 * b2, k * b + a2 * l, modulus);
}

/// The representative lies in the window and is congruent to what it stands
/// for.
pub proof fn lemma_wrap_into(v: int, lowest: int, modulus: int)
    requires
        modulus > 0,
    ensures
        lowest <= wrap_into(v, lowest, modulus) < lowest + modulus,
        congruent(wrap_into(v, lowest, modulus), v, modulus),
{
    let shifted = v - lowest;
    lemma_fundamental_div_mod(shifted, modulus);
    assert(0 <= shifted % modulus < modulus) by {
        lemma_mod_bound(shifted, modulus);
    }
    let q = shifted / modulus;
    assert(wrap_into(v, lowest, modulus) - v == (-q) * modulus) by (nonlinear_arith)
        requires
            shifted == modulus * q + shifted % modulus,
            shifted == v - lowest,
            wrap_into(v, lowest, modulus) == lowest + shifted % modulus,
    ;
    lemma_multiple_congruent(wrap_into(v, lowest, modulus), v, -q, modulus);
}

/// An integer of the window is its own representative.
pub proof fn lemma_wrap_into_fixed(v: int, lowest: int, modulus: int)
    requires
        modulus > 0,
        lowest <= v < lowest + modulus,
    ensures
        wrap_into(v, lowest, modulus) == v,
{
    lemma_fundamental_div_mod_converse(v - lowest, modulus, 0, v - lowest);
}

/// Congruent integers have the same representative.
pub proof fn lemma_wrap_into_same(v: int, w: int, lowest: int, modulus: int)
    requires
        modulus > 0,
        congruent(v, w, modulus),
    ensures
        wrap_into(v, lowest, modulus) == wrap_into(w, lowest, modulus),
{
    lemma_congruent_difference(v, w, modulus);
    let k = (v - w) / modulus;
    let shifted = w - lowest;
    lemma_fundamental_div_mod(shifted, modulus);
    lemma_mod_bound(shifted, modulus);
    let q = shifted / modulus;
    assert(v - lowest == (k + q) * modulus + shifted % modulus) by (nonlinear_arith)
        requires
            v - w == k * modulus,
            shifted == w - lowest,
            shifted == modulus * q + shifted % modulus,
    ;
    lemma_fundamental_div_mod_converse(v - lowest, modulus, k + q, shifted % modulus);
}

/// An integer of the window that differs from `v` by a multiple of the
/// modulus is the representative of `v`.
pub proof fn lemma_wrap_into_is(v: int, representative: int, factor: int, lowest: int, modulus: int)
    requires
        modulus > 0,
        lowest <= representative < lowest + modulus,
        v - representative == factor * modulus,
    ensures
        wrap_into(v, lowest, modulus) == representative,
{
    lemma_multiple_congruent(v, representative, factor, modulus);
    lemma_wrap_into_same(v, representative, lowest, modulus);
    lemma_wrap_into_fixed(representative, lowest, modulus);
}

/// Modulo an even number, no even integer is congruent to one.
pub proof fn lemma_double_is_not_one(v: int, modulus: int)
    requires
        modulus > 0,
        modulus % 2 == 0,
    ensures
        !congruent(2 * v, 1, modulus),
{
    if congruent(2 * v, 1, modulus) {
        lemma_congruent_difference(2 * v, 1, modulus);
        let k = (2 * v - 1) / modulus;
        let half = modulus / 2;
        assert(k * modulus == 2 * (k * half)) by (nonlinear_arith)
            requires
                modulus == 2 * half,
        ;
    }
}

} // verus!
