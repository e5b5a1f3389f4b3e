//! Arbitrum: one SushiSwap V2 pair, watched for its price.
use vstd::prelude::*;

use crate::config::{is_entry, PoolCatalogEntry, TokenSymbol};
use crate::types::{Address, ArbPath, ChainId, DexType, PoolKey};

verus! {

// ─── Token addresses ──────────────────────────────────────────────────────────

/// WETH, 0x82aF49447D8a07e3bd95BD0d56f35241523fBab1.
#[verifier::allow_in_spec]
pub fn weth() -> Address
    returns
        (Address { hi: 0x82aF4944, mid: 0x7D8a07e3bd95BD0d, lo: 0x56f35241523fBab1 }),
{
    Address { hi: 0x82aF4944, mid: 0x7D8a07e3bd95BD0d, lo: 0x56f35241523fBab1 }
}

/// USDC.e, 0xFF970A61A04b1cA14834A43f5dE4533eBDDB5CC8.
#[verifier::allow_in_spec]
pub fn usdc_e() -> Address
    returns
        (Address { hi: 0xFF970A61, mid: 0xA04b1cA14834A43f, lo: 0x5dE4533eBDDB5CC8 }),
{
    Address { hi: 0xFF970A61, mid: 0xA04b1cA14834A43f, lo: 0x5dE4533eBDDB5CC8 }
}

// ─── Pool keys ────────────────────────────────────────────────────────────────

/// SushiSwap V2 — WETH/USDC.e (token0=WETH, token1=USDC.e; 0x82aF < 0xFF97)
#[verifier::allow_in_spec]
pub fn pool_key_weth_usdc_e() -> PoolKey
    returns
        (PoolKey { chain: ChainId::Arbitrum, address: Address { hi: 0x905dfCD5, mid: 0x649217c42684f239, lo: 0x58568e533C711Aa3 } }),
{
    PoolKey { chain: ChainId::Arbitrum, address: Address { hi: 0x905dfCD5, mid: 0x649217c42684f239, lo: 0x58568e533C711Aa3 } }
}

/// Primary WETH/stable pair used for price display and cross-chain monitoring.
#[verifier::allow_in_spec]
pub fn weth_usdc_key() -> PoolKey
    returns
        pool_key_weth_usdc_e(),
{
    pool_key_weth_usdc_e()
}

// ─── Pool catalog ─────────────────────────────────────────────────────────────

/// The entries of `arbitrum_pools`, in order.
pub open spec fn is_arbitrum_pools(s: Seq<PoolCatalogEntry>) -> bool {
    &&& s.len() == 1
    &&& is_entry(s[0], pool_key_weth_usdc_e(), DexType::UniswapV2, weth(), usdc_e(), TokenSymbol::WETH, TokenSymbol::USDCe, "WETH/USDC.e SushiV2"@, 0, 0)
}

/// Only WETH/USDC.e is listed: it is the only SushiSwap V2 pair on Arbitrum
/// with a verified on-chain address.
pub fn arbitrum_pools() -> (r: Vec<PoolCatalogEntry>)
    ensures
        is_arbitrum_pools(r@),
{
    vec![
        PoolCatalogEntry {
            pool_key: pool_key_weth_usdc_e(),
            dex_type: DexType::UniswapV2,
            expected_token0: weth(),
            expected_token1: usdc_e(),
            token0_symbol: TokenSymbol::WETH,
            token1_symbol: TokenSymbol::USDCe,
            name: "WETH/USDC.e SushiV2",
            fee_tier: 0,
            n_coins: 0,
        },
    ]
}

// ─── Arb paths ────────────────────────────────────────────────────────────────

/// The paths of `arbitrum_arb_paths`, in order.
pub open spec fn is_arbitrum_arb_paths(s: Seq<ArbPath>) -> bool {
    &&& s.len() == 0
}

/// No triangular paths: a triangle needs three pools, and Arbitrum has one.
/// Arbitrum is used for price monitoring only.
pub fn arbitrum_arb_paths() -> (r: Vec<ArbPath>)
    ensures
        is_arbitrum_arb_paths(r@),
{
    Vec::new()
}

} // verus!
