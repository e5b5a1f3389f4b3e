//! Uniswap V3 output from the marginal price alone.
use vstd::prelude::*;
use vstd::arithmetic::power2::{lemma2_to64, lemma_pow2_adds, pow2};

use crate::u256::{opt_value, u256_max, U256};

verus! {

/// 2^96.
pub open spec fn q96_value() -> nat {
    0x1_0000_0000_0000_0000_0000_0000nat
}

/// Fee tiers are in millionths; this is their denominator.
pub open spec fn fee_denominator() -> nat {
    1_000_000
}

/// `amount_in * price` with `price = (sqrt_price / 2^96)^2`, computed as two
/// rounded-down steps `(amount_in * sqrt_price / 2^96) * sqrt_price / 2^96`,
/// or `None` when a product exceeds 2^256 - 1.
pub open spec fn times_price(amount_in: nat, sqrt_price: nat) -> Option<nat> {
    let p1 = amount_in * sqrt_price;
    let step1 = p1 / q96_value();
    let p2 = step1 * sqrt_price;
    if p1 > u256_max() || p2 > u256_max() {
        None
    } else {
        Some(p2 / q96_value())
    }
}

/// `amount_in / price`, computed as two rounded-down steps
/// `(amount_in * 2^96 / sqrt_price) * 2^96 / sqrt_price`,
/// or `None` when a product exceeds 2^256 - 1.
pub open spec fn over_price(amount_in: nat, sqrt_price: nat) -> Option<nat> {
    let p1 = amount_in * q96_value();
    let step1 = p1 / sqrt_price;
    let p2 = step1 * q96_value();
    if p1 > u256_max() || p2 > u256_max() {
        None
    } else {
        Some(p2 / sqrt_price)
    }
}

/// The marginal-price estimate of a V3 swap: the input converted at the pool
/// price (multiplied for token0 → token1, divided for token1 → token0), then
/// reduced by the fee, `raw * (1_000_000 - fee_tier) / 1_000_000` rounded down.
/// `None` on a zero input or price, a fee tier of 100% or more, or overflow.
pub open spec fn approx_out_v3_spec(
    amount_in: nat,
    sqrt_price_x96: nat,
    fee_tier: nat,
    zero_for_one: bool,
) -> Option<nat> {
    if amount_in == 0 || sqrt_price_x96 == 0 || fee_tier >= fee_denominator() {
        None
    } else {
        let raw = if !zero_for_one {
            times_price(amount_in, sqrt_price_x96)
        } else {
            over_price(amount_in, sqrt_price_x96)
        };
        match raw {
            None => None,
            Some(raw) => {
                let with_fee = raw * ((fee_denominator() - fee_tier) as nat);
                if with_fee > u256_max() {
                    None
                } else {
                    Some(with_fee / fee_denominator())
                }
            },
        }
    }
}

proof fn lemma_pow2_96()
    ensures
        pow2(96) == q96_value(),
{
    lemma2_to64();
    lemma_pow2_adds(64, 32);
}

/// Approximate V3 output amount using the marginal price from sqrtPriceX96.
///
/// price = (sqrtPriceX96 / 2^96)^2
/// - zero_for_one=false (token0→token1): amountOut = amountIn * price * (1 - fee/1_000_000)
/// - zero_for_one=true  (token1→token0): amountOut = amountIn / price * (1 - fee/1_000_000)
///
/// Fee tiers: 100 (0.01%), 500 (0.05%), 3000 (0.3%), 10000 (1%).
/// This ignores price impact across the curve and is accurate only for
/// small trades relative to liquidity.
pub fn approx_out_v3(
    amount_in: U256,
    sqrt_price_x96: U256,
    fee_tier: u32,
    zero_for_one: bool,
) -> (r: Option<U256>)
    ensures
        opt_value(r) == approx_out_v3_spec(amount_in@, sqrt_price_x96@, fee_tier as nat, zero_for_one),
{
    if amount_in.is_zero() || sqrt_price_x96.is_zero() {
        return None;
    }
    if fee_tier >= 1_000_000 {
        return None;
    }
    proof {
        lemma_pow2_96();
    }
    let fee_num = U256::from_u64((1_000_000 - fee_tier) as u64);
    let fee_den = U256::from_u64(1_000_000);
    let q96 = U256::q96();

    let raw = if !zero_for_one {
        // token0 → token1: (amountIn * sqrtP >> 96) * sqrtP >> 96
        let p1 = match amount_in.checked_mul(sqrt_price_x96) {
            Some(v) => v,
            None => return None,
        };
        let step1 = p1.shr(96);
        let p2 = match step1.checked_mul(sqrt_price_x96) {
            Some(v) => v,
            None => return None,
        };
        p2.shr(96)
    } else {
        // token1 → token0: (amountIn * 2^96 / sqrtP) * 2^96 / sqrtP
        let p1 = match amount_in.checked_mul(q96) {
            Some(v) => v,
            None => return None,
        };
        let step1 = match p1.checked_div(sqrt_price_x96) {
            Some(v) => v,
            None => return None,
        };
        let p2 = match step1.checked_mul(q96) {
            Some(v) => v,
            None => return None,
        };
        match p2.checked_div(sqrt_price_x96) {
            Some(v) => v,
            None => return None,
        }
    };
    match raw.checked_mul(fee_num) {
        Some(with_fee) => with_fee.checked_div(fee_den),
        None => None,
    }
}

} // verus!
