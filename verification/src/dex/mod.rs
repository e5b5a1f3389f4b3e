//! Per-hop quotes from pool state held in memory.
pub mod curve;
pub mod v2;
pub mod v3;

use vstd::prelude::*;

use crate::types::{Address, DexType, PoolState};
use crate::u256::{opt_value, U256};
use self::v2::amm_out_spec;
use self::v3::approx_out_v3_spec;

verus! {

/// The V2 quote: the constant-product output in the direction the two tokens
/// give, or `None` for another kind of state or tokens that are not the
/// pool's pair in some order.
pub open spec fn v2_dispatch_spec(
    state: PoolState,
    token_in: Address,
    token_out: Address,
    amount_in: nat,
) -> Option<nat> {
    match state {
        PoolState::V2 { reserve0, reserve1, token0, token1, .. } => {
            if token_in == token0 && token_out == token1 {
                amm_out_spec(amount_in, reserve0@, reserve1@)
            } else if token_in == token1 && token_out == token0 {
                amm_out_spec(amount_in, reserve1@, reserve0@)
            } else {
                None
            }
        },
        _ => None,
    }
}

/// The V3 quote: the marginal-price estimate, multiplying by the price for
/// token0 → token1 and dividing for token1 → token0, or `None` for another
/// kind of state or tokens that are not the pool's pair in some order.
pub open spec fn v3_dispatch_spec(
    state: PoolState,
    token_in: Address,
    token_out: Address,
    amount_in: nat,
) -> Option<nat> {
    match state {
        PoolState::V3 { sqrt_price_x96, fee_tier, token0, token1, .. } => {
            if token_in == token0 && token_out == token1 {
                approx_out_v3_spec(amount_in, sqrt_price_x96@, fee_tier as nat, false)
            } else if token_in == token1 && token_out == token0 {
                approx_out_v3_spec(amount_in, sqrt_price_x96@, fee_tier as nat, true)
            } else {
                None
            }
        },
        _ => None,
    }
}

/// The quote of one hop. Curve pools are priced only by an on-chain call,
/// so they give `None` here.
pub open spec fn quote_spec(
    dex_type: DexType,
    state: PoolState,
    token_in: Address,
    token_out: Address,
    amount_in: nat,
) -> Option<nat> {
    match dex_type {
        DexType::UniswapV2 => v2_dispatch_spec(state, token_in, token_out, amount_in),
        DexType::UniswapV3 => v3_dispatch_spec(state, token_in, token_out, amount_in),
        DexType::CurveStableswap => None,
    }
}

/// Compute an output quote for a single hop using pool state already in memory.
///
/// Handles UniswapV2 (constant product) and UniswapV3 (marginal price), and
/// returns None for Curve, which needs an on-chain `get_dy` call.
pub fn quote(
    dex_type: DexType,
    state: &PoolState,
    token_in: Address,
    token_out: Address,
    amount_in: U256,
) -> (r: Option<U256>)
    ensures
        opt_value(r) == quote_spec(dex_type, *state, token_in, token_out, amount_in@),
{
    match dex_type {
        DexType::UniswapV2 => v2_dispatch(state, token_in, token_out, amount_in),
        DexType::UniswapV3 => v3_dispatch(state, token_in, token_out, amount_in),
        DexType::CurveStableswap => None,
    }
}

fn v2_dispatch(state: &PoolState, token_in: Address, token_out: Address, amount_in: U256) -> (r:
    Option<U256>)
    ensures
        opt_value(r) == v2_dispatch_spec(*state, token_in, token_out, amount_in@),
{
    match state {
        PoolState::V2 { reserve0, reserve1, token0, token1, .. } => {
            if token_in == *token0 && token_out == *token1 {
                v2::amm_out(amount_in, *reserve0, *reserve1)
            } else if token_in == *token1 && token_out == *token0 {
                v2::amm_out(amount_in, *reserve1, *reserve0)
            } else {
                None
            }
        },
        _ => None,
    }
}

fn v3_dispatch(state: &PoolState, token_in: Address, token_out: Address, amount_in: U256) -> (r:
    Option<U256>)
    ensures
        opt_value(r) == v3_dispatch_spec(*state, token_in, token_out, amount_in@),
{
    match state {
        PoolState::V3 { sqrt_price_x96, fee_tier, token0, token1, .. } => {
            // zero_for_one=false: token0→token1 (multiply by price)
            // zero_for_one=true:  token1→token0 (divide by price)
            let zero_for_one = if token_in == *token0 && token_out == *token1 {
                false
            } else if token_in == *token1 && token_out == *token0 {
                true
            } else {
                return None;
            };
            v3::approx_out_v3(amount_in, *sqrt_price_x96, *fee_tier, zero_for_one)
        },
        _ => None,
    }
}

} // verus!
