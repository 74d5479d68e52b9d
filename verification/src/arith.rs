//! Facts about products, quotients and remainders of natural numbers that
//! the unit conversions rest on.

use vstd::arithmetic::div_mod::{
    lemma_div_by_multiple, lemma_div_denominator, lemma_div_non_zero, lemma_fundamental_div_mod,
    lemma_mod_bound, lemma_mod_decreases, lemma_mod_multiples_basic, lemma_mul_mod_noop_left,
    lemma_small_mod, lemma_truncate_middle,
};
use vstd::arithmetic::mul::{lemma_mul_is_associative, lemma_mul_is_commutative};
use vstd::prelude::*;

verus! {

/// Multiplying by `step` and then by `rest`, reducing modulo `modulus` after
/// each product, is multiplying by `step * rest` and reducing once.
pub(crate) proof fn lemma_multiply_in_steps(value: nat, step: nat, rest: nat, modulus: nat)
    requires
        0 < modulus,
    ensures
        (((value * step) % modulus) * rest) % modulus == (value * (step * rest)) % modulus,
{
    lemma_mul_mod_noop_left((value * step) as int, rest as int, modulus as int);
    lemma_mul_is_associative(value as int, step as int, rest as int);
}

/// Dividing by `step` and then by `rest` is dividing by `step * rest`.
pub(crate) proof fn lemma_divide_in_steps(value: nat, step: nat, rest: nat)
    requires
        0 < step,
        0 < rest,
    ensures
        (value / step) / rest == value / (step * rest),
{
    lemma_div_denominator(value as int, step as int, rest as int);
}

/// Scaling `value` by `scale` modulo `modulus` and dividing by `scale` again
/// returns `value` exactly when the product stays below `modulus`.
pub(crate) proof fn lemma_scale_and_undo(value: nat, scale: nat, modulus: nat)
    requires
        0 < scale,
        0 < modulus,
    ensures
        ((value * scale) % modulus) / scale == value <==> value * scale < modulus,
{
    let product = value * scale;
    let wrapped = product % modulus;
    lemma_mod_decreases(product, modulus);
    lemma_mod_bound(product as int, modulus as int);
    lemma_fundamental_div_mod(wrapped as int, scale as int);
    lemma_mod_bound(wrapped as int, scale as int);
    if product < modulus {
        lemma_small_mod(product, modulus);
        lemma_div_by_multiple(value as int, scale as int);
    }
    if wrapped / scale == value {
        lemma_mul_is_commutative(scale as int, value as int);
    }
}

/// Scaling `value` by `up`, dividing by `down`, scaling back by `down` and
/// dividing by `up`, every product reduced modulo `modulus`, returns `value`
/// exactly when the first product stays below `modulus` and `down` divides it.
pub(crate) proof fn lemma_scale_there_and_back(value: nat, up: nat, down: nat, modulus: nat)
    requires
        0 < up,
        0 < down,
        0 < modulus,
    ensures
        ((((value * up) % modulus) / down * down) % modulus) / up == value <==> (value * up
            < modulus && (value * up) % down == 0),
{
    let product = value * up;
    let wrapped = product % modulus;
    let quotient = wrapped / down;
    let restored = (quotient * down) % modulus;
    lemma_mod_decreases(product, modulus);
    lemma_mod_bound(product as int, modulus as int);
    lemma_fundamental_div_mod(wrapped as int, down as int);
    lemma_mod_bound(wrapped as int, down as int);
    lemma_mul_is_commutative(down as int, quotient as int);
    lemma_mod_decreases(quotient * down, modulus);
    lemma_fundamental_div_mod(restored as int, up as int);
    lemma_mod_bound(restored as int, up as int);
    if product < modulus && product % down == 0 {
        lemma_small_mod(product, modulus);
        lemma_small_mod(quotient * down, modulus);
        lemma_div_by_multiple(value as int, up as int);
    }
    if restored / up == value {
        lemma_mul_is_commutative(up as int, value as int);
    }
}

/// Where `fine` divides `coarse`, a count of `coarse` parts is a whole
/// number of `fine` parts: the count times the ratio of the two.
pub(crate) proof fn lemma_scale_up_by_ratio(value: nat, coarse: nat, fine: nat)
    requires
        0 < fine,
        coarse % fine == 0,
    ensures
        (value * coarse) / fine == value * (coarse / fine),
        (value * coarse) % fine == 0,
{
    let ratio = coarse / fine;
    lemma_fundamental_div_mod(coarse as int, fine as int);
    assert(value * coarse == (value * ratio) * fine) by {
        lemma_mul_is_commutative(fine as int, ratio as int);
        lemma_mul_is_associative(value as int, ratio as int, fine as int);
    }
    lemma_div_by_multiple((value * ratio) as int, fine as int);
    lemma_mod_multiples_basic((value * ratio) as int, fine as int);
}

/// Where `fine` divides `coarse`, the whole `coarse` parts in a count of
/// `fine` parts are the count divided by the ratio of the two.
pub(crate) proof fn lemma_scale_down_by_ratio(value: nat, fine: nat, coarse: nat)
    requires
        0 < fine <= coarse,
        coarse % fine == 0,
    ensures
        0 < coarse / fine,
        (value * fine) / coarse == value / (coarse / fine),
{
    let ratio = coarse / fine;
    lemma_div_non_zero(coarse as int, fine as int);
    lemma_fundamental_div_mod(coarse as int, fine as int);
    lemma_div_denominator((value * fine) as int, fine as int, ratio as int);
    lemma_div_by_multiple(value as int, fine as int);
}

/// Where `fine` divides `coarse`, a count of `fine` parts is a whole number
/// of `coarse` parts exactly when the ratio of the two divides the count.
pub(crate) proof fn lemma_whole_parts(value: nat, fine: nat, coarse: nat)
    requires
        0 < fine <= coarse,
        coarse % fine == 0,
    ensures
        (value * fine) % coarse == 0 <==> value % (coarse / fine) == 0,
{
    let ratio = coarse / fine;
    let rest = value % ratio;
    lemma_div_non_zero(coarse as int, fine as int);
    lemma_fundamental_div_mod(coarse as int, fine as int);
    lemma_truncate_middle(value as int, fine as int, ratio as int);
    lemma_mul_is_commutative(value as int, fine as int);
    assert(fine * rest == 0 <==> rest == 0) by (nonlinear_arith)
        requires
            0 < fine,
    ;
}

} // verus!
