//! Uniswap V2 constant-product pricing.
use vstd::prelude::*;

use vstd::arithmetic::div_mod::{lemma_div_is_ordered, lemma_div_multiples_vanish, lemma_fundamental_div_mod, lemma_multiply_divide_lt};

use crate::u256::{opt_value, u256_max, U256};

verus! {

/// The output of selling `amount_in` into a constant-product pool with a
/// 0.3% fee, in raw token units:
/// `amount_in * 997 * reserve_out / (reserve_in * 1000 + amount_in * 997)`,
/// rounded down. `None` when an input is zero or an intermediate product or
/// sum exceeds 2^256 - 1.
pub open spec fn amm_out_spec(amount_in: nat, reserve_in: nat, reserve_out: nat) -> Option<nat> {
    let fee_in = amount_in * 997;
    let numerator = fee_in * reserve_out;
    let denominator = reserve_in * 1000 + fee_in;
    if reserve_in == 0 || reserve_out == 0 || amount_in == 0 {
        None
    } else if fee_in > u256_max() || numerator > u256_max() || reserve_in * 1000 > u256_max()
        || denominator > u256_max() {
        None
    } else {
        Some(numerator / denominator)
    }
}

/// Uniswap V2 constant-product output with 0.3% fee.
/// Uses raw token units: no decimal normalization is needed across hops.
pub fn amm_out(amount_in: U256, reserve_in: U256, reserve_out: U256) -> (r: Option<U256>)
    ensures
        opt_value(r) == amm_out_spec(amount_in@, reserve_in@, reserve_out@),
{
    if reserve_in.is_zero() || reserve_out.is_zero() || amount_in.is_zero() {
        return None;
    }
    let amount_in_with_fee = match amount_in.checked_mul(U256::from_u64(997)) {
        Some(v) => v,
        None => return None,
    };
    let numerator = match amount_in_with_fee.checked_mul(reserve_out) {
        Some(v) => v,
        None => return None,
    };
    let scaled_reserve = match reserve_in.checked_mul(U256::from_u64(1000)) {
        Some(v) => v,
        None => return None,
    };
    let denominator = match scaled_reserve.checked_add(amount_in_with_fee) {
        Some(v) => v,
        None => return None,
    };
    numerator.checked_div(denominator)
}


/// A swap can never take the pool's whole output reserve: whenever
/// `amm_out` gives an amount, it is below `reserve_out`.
pub proof fn lemma_amm_out_below_reserve(amount_in: nat, reserve_in: nat, reserve_out: nat)
    requires
        amm_out_spec(amount_in, reserve_in, reserve_out) is Some,
    ensures
        amm_out_spec(amount_in, reserve_in, reserve_out).unwrap() < reserve_out,
{
    let fee_in = amount_in * 997;
    let numerator = fee_in * reserve_out;
    let denominator = reserve_in * 1000 + fee_in;
    assert(numerator < denominator * reserve_out) by (nonlinear_arith)
        requires
            numerator == fee_in * reserve_out,
            denominator == reserve_in * 1000 + fee_in,
            reserve_in > 0,
            reserve_out > 0,
    ;
    lemma_multiply_divide_lt(numerator as int, denominator as int, reserve_out as int);
}

/// The constant product never falls: after selling `amount_in` for the
/// quoted output, `(reserve_in + amount_in) * (reserve_out - out)` is at
/// least `reserve_in * reserve_out`.
pub proof fn lemma_amm_out_keeps_product(amount_in: nat, reserve_in: nat, reserve_out: nat)
    requires
        amm_out_spec(amount_in, reserve_in, reserve_out) is Some,
    ensures
        ({
            let out = amm_out_spec(amount_in, reserve_in, reserve_out).unwrap();
            (reserve_in + amount_in) * (reserve_out - out) >= reserve_in * reserve_out
        }),
{
    let a = amount_in as int;
    let r = reserve_in as int;
    let big_r = reserve_out as int;
    let numerator = a * 997 * big_r;
    let denominator = r * 1000 + a * 997;
    let out = numerator / denominator;
    lemma_amm_out_below_reserve(amount_in, reserve_in, reserve_out);
    lemma_fundamental_div_mod(numerator, denominator);
    vstd::arithmetic::div_mod::lemma_mod_pos_bound(numerator, denominator);
    assert(denominator * out <= numerator) by (nonlinear_arith)
        requires
            numerator == denominator * out + numerator % denominator,
            numerator % denominator >= 0,
    ;
    assert(a * out <= a * big_r) by (nonlinear_arith)
        requires
            a >= 0,
            out <= big_r,
    ;
    assert((r + a) * (big_r - out) >= r * big_r) by (nonlinear_arith)
        requires
            denominator * out <= numerator,
            numerator == a * 997 * big_r,
            denominator == r * 1000 + a * 997,
            a * out <= a * big_r,
    ;
}

/// Selling more never yields less: for the same pool, a larger input gives
/// an output at least as large, whenever both are quoted.
pub proof fn lemma_amm_out_monotonic(a1: nat, a2: nat, reserve_in: nat, reserve_out: nat)
    requires
        a1 <= a2,
        amm_out_spec(a1, reserve_in, reserve_out) is Some,
        amm_out_spec(a2, reserve_in, reserve_out) is Some,
    ensures
        amm_out_spec(a1, reserve_in, reserve_out).unwrap() <= amm_out_spec(
            a2,
            reserve_in,
            reserve_out,
        ).unwrap(),
{
    let r = reserve_in as int;
    let big_r = reserve_out as int;
    let n1 = (a1 * 997) * big_r;
    let d1 = r * 1000 + a1 * 997;
    let n2 = (a2 * 997) * big_r;
    let d2 = r * 1000 + a2 * 997;
    let o1 = n1 / d1;
    lemma_fundamental_div_mod(n1, d1);
    vstd::arithmetic::div_mod::lemma_mod_pos_bound(n1, d1);
    assert(o1 * d1 <= n1) by (nonlinear_arith)
        requires
            n1 == d1 * o1 + n1 % d1,
            n1 % d1 >= 0,
    ;
    assert(n1 * d2 <= n2 * d1) by (nonlinear_arith)
        requires
            n1 == (a1 * 997) * big_r,
            n2 == (a2 * 997) * big_r,
            d1 == r * 1000 + a1 * 997,
            d2 == r * 1000 + a2 * 997,
            a1 <= a2,
            r >= 0,
            big_r >= 0,
    ;
    assert(o1 * d2 <= n2) by (nonlinear_arith)
        requires
            o1 * d1 <= n1,
            n1 * d2 <= n2 * d1,
            d1 > 0,
            d2 > 0,
            o1 >= 0,
    ;
    lemma_div_is_ordered(o1 * d2, n2, d2);
    lemma_div_multiples_vanish(o1, d2);
    assert((d2 * o1) == (o1 * d2)) by (nonlinear_arith);
}

} // verus!
