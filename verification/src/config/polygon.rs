//! Polygon: QuickSwap V2 pairs.
use vstd::prelude::*;

use crate::config::{hop, is_entry, is_path, PoolCatalogEntry, TokenSymbol};
use crate::types::{Address, ArbPath, ChainId, DexType, HopSpec, PoolKey};

verus! {

// ─── Token addresses ──────────────────────────────────────────────────────────

/// WETH, 0x7ceB23fD6bC0adD59E62ac25578270cFf1b9f619.
#[verifier::allow_in_spec]
pub fn weth() -> Address
    returns
        (Address { hi: 0x7ceB23fD, mid: 0x6bC0adD59E62ac25, lo: 0x578270cFf1b9f619 }),
{
    Address { hi: 0x7ceB23fD, mid: 0x6bC0adD59E62ac25, lo: 0x578270cFf1b9f619 }
}

/// USDC, 0x2791Bca1f2de4661ED88A30C99A7a9449Aa84174.
#[verifier::allow_in_spec]
pub fn usdc() -> Address
    returns
        (Address { hi: 0x2791Bca1, mid: 0xf2de4661ED88A30C, lo: 0x99A7a9449Aa84174 }),
{
    Address { hi: 0x2791Bca1, mid: 0xf2de4661ED88A30C, lo: 0x99A7a9449Aa84174 }
}

/// DAI, 0x8f3Cf7ad23Cd3CaDbD9735AFf958023239c6A063.
#[verifier::allow_in_spec]
pub fn dai() -> Address
    returns
        (Address { hi: 0x8f3Cf7ad, mid: 0x23Cd3CaDbD9735AF, lo: 0xf958023239c6A063 }),
{
    Address { hi: 0x8f3Cf7ad, mid: 0x23Cd3CaDbD9735AF, lo: 0xf958023239c6A063 }
}

// ─── Pool keys ────────────────────────────────────────────────────────────────

/// QuickSwap V2 — WETH/USDC (token0=USDC, token1=WETH; 0x2791 < 0x7ceB)
#[verifier::allow_in_spec]
pub fn pool_key_weth_usdc() -> PoolKey
    returns
        (PoolKey { chain: ChainId::Polygon, address: Address { hi: 0x853Ee4b2, mid: 0xA13f8a742d64C8F0, lo: 0x88bE7bA2131f670d } }),
{
    PoolKey { chain: ChainId::Polygon, address: Address { hi: 0x853Ee4b2, mid: 0xA13f8a742d64C8F0, lo: 0x88bE7bA2131f670d } }
}

/// QuickSwap V2 — USDC/DAI (token0=USDC, token1=DAI; 0x2791 < 0x8f3C)
#[verifier::allow_in_spec]
pub fn pool_key_usdc_dai() -> PoolKey
    returns
        (PoolKey { chain: ChainId::Polygon, address: Address { hi: 0xf04adBF7, mid: 0x5cDFc5eD26eeA4bb, lo: 0xbb991DB002036Bdd } }),
{
    PoolKey { chain: ChainId::Polygon, address: Address { hi: 0xf04adBF7, mid: 0x5cDFc5eD26eeA4bb, lo: 0xbb991DB002036Bdd } }
}

/// QuickSwap V2 — WETH/DAI (token0=WETH, token1=DAI; 0x7ceB < 0x8f3C)
#[verifier::allow_in_spec]
pub fn pool_key_weth_dai() -> PoolKey
    returns
        (PoolKey { chain: ChainId::Polygon, address: Address { hi: 0x4A35582a, mid: 0x710E1F4b2030A3F8, lo: 0x26DA20BfB6703C09 } }),
{
    PoolKey { chain: ChainId::Polygon, address: Address { hi: 0x4A35582a, mid: 0x710E1F4b2030A3F8, lo: 0x26DA20BfB6703C09 } }
}

/// Primary WETH/stable pair used for price display and cross-chain monitoring.
#[verifier::allow_in_spec]
pub fn weth_usdc_key() -> PoolKey
    returns
        pool_key_weth_usdc(),
{
    pool_key_weth_usdc()
}

// ─── Pool catalog ─────────────────────────────────────────────────────────────

/// The three QuickSwap pairs, WETH/USDC, USDC/DAI and WETH/DAI, under the
/// given keys, in order.
pub open spec fn is_polygon_pools_with(
    s: Seq<PoolCatalogEntry>,
    weth_usdc: PoolKey,
    usdc_dai: PoolKey,
    weth_dai: PoolKey,
) -> bool {
    &&& s.len() == 3
    &&& is_entry(s[0], weth_usdc, DexType::UniswapV2, usdc(), weth(), TokenSymbol::USDC, TokenSymbol::WETH, "WETH/USDC QuickSwap"@, 0, 0)
    &&& is_entry(s[1], usdc_dai, DexType::UniswapV2, usdc(), dai(), TokenSymbol::USDC, TokenSymbol::DAI, "USDC/DAI QuickSwap"@, 0, 0)
    &&& is_entry(s[2], weth_dai, DexType::UniswapV2, weth(), dai(), TokenSymbol::WETH, TokenSymbol::DAI, "WETH/DAI QuickSwap"@, 0, 0)
}

/// The entries of `polygon_pools`, in order.
pub open spec fn is_polygon_pools(s: Seq<PoolCatalogEntry>) -> bool {
    is_polygon_pools_with(s, pool_key_weth_usdc(), pool_key_usdc_dai(), pool_key_weth_dai())
}

/// The Polygon catalog with the pair addresses that the QuickSwap factory
/// gave for WETH/USDC, USDC/DAI and WETH/DAI.
///
/// Token address ordering (numerically):
///   USDC (0x2791) < WETH (0x7ceB) < DAI (0x8f3C)
///
/// | Pool           | token0 | token1 |
/// |----------------|--------|--------|
/// | WETH/USDC QS   | USDC   | WETH   |
/// | USDC/DAI  QS   | USDC   | DAI    |
/// | WETH/DAI  QS   | WETH   | DAI    |
pub fn polygon_pools_from_pairs(weth_usdc: Address, usdc_dai: Address, weth_dai: Address) -> (r: Vec<
    PoolCatalogEntry,
>)
    ensures
        is_polygon_pools_with(
            r@,
            PoolKey { chain: ChainId::Polygon, address: weth_usdc },
            PoolKey { chain: ChainId::Polygon, address: usdc_dai },
            PoolKey { chain: ChainId::Polygon, address: weth_dai },
        ),
{
    vec![
        PoolCatalogEntry {
            pool_key: PoolKey::new(ChainId::Polygon, weth_usdc),
            dex_type: DexType::UniswapV2,
            expected_token0: usdc(),
            expected_token1: weth(),
            token0_symbol: TokenSymbol::USDC,
            token1_symbol: TokenSymbol::WETH,
            name: "WETH/USDC QuickSwap",
            fee_tier: 0,
            n_coins: 0,
        },
        PoolCatalogEntry {
            pool_key: PoolKey::new(ChainId::Polygon, usdc_dai),
            dex_type: DexType::UniswapV2,
            expected_token0: usdc(),
            expected_token1: dai(),
            token0_symbol: TokenSymbol::USDC,
            token1_symbol: TokenSymbol::DAI,
            name: "USDC/DAI QuickSwap",
            fee_tier: 0,
            n_coins: 0,
        },
        PoolCatalogEntry {
            pool_key: PoolKey::new(ChainId::Polygon, weth_dai),
            dex_type: DexType::UniswapV2,
            expected_token0: weth(),
            expected_token1: dai(),
            token0_symbol: TokenSymbol::WETH,
            token1_symbol: TokenSymbol::DAI,
            name: "WETH/DAI QuickSwap",
            fee_tier: 0,
            n_coins: 0,
        },
    ]
}

/// The Polygon catalog under its configured pair addresses.
pub fn polygon_pools() -> (r: Vec<PoolCatalogEntry>)
    ensures
        is_polygon_pools(r@),
{
    polygon_pools_from_pairs(
        pool_key_weth_usdc().address,
        pool_key_usdc_dai().address,
        pool_key_weth_dai().address,
    )
}

// ─── Arb paths ────────────────────────────────────────────────────────────────

/// The two directions of the WETH/USDC/DAI triangle over the given keys.
pub open spec fn is_polygon_arb_paths_with(
    s: Seq<ArbPath>,
    weth_usdc: PoolKey,
    usdc_dai: PoolKey,
    weth_dai: PoolKey,
) -> bool {
    &&& s.len() == 2
    &&& is_path(s[0], "WETH→USDC→DAI→WETH"@, ChainId::Polygon, seq![hop(weth_usdc, DexType::UniswapV2, weth(), usdc()), hop(usdc_dai, DexType::UniswapV2, usdc(), dai()), hop(weth_dai, DexType::UniswapV2, dai(), weth())])
    &&& is_path(s[1], "WETH→DAI→USDC→WETH"@, ChainId::Polygon, seq![hop(weth_dai, DexType::UniswapV2, weth(), dai()), hop(usdc_dai, DexType::UniswapV2, dai(), usdc()), hop(weth_usdc, DexType::UniswapV2, usdc(), weth())])
}

/// The paths of `polygon_arb_paths`, in order.
pub open spec fn is_polygon_arb_paths(s: Seq<ArbPath>) -> bool {
    is_polygon_arb_paths_with(s, pool_key_weth_usdc(), pool_key_usdc_dai(), pool_key_weth_dai())
}

/// The two directions of the WETH/USDC/DAI triangle over the pair addresses
/// that the QuickSwap factory gave.
pub fn polygon_arb_paths_from_pairs(weth_usdc: Address, usdc_dai: Address, weth_dai: Address) -> (r:
    Vec<ArbPath>)
    ensures
        is_polygon_arb_paths_with(
            r@,
            PoolKey { chain: ChainId::Polygon, address: weth_usdc },
            PoolKey { chain: ChainId::Polygon, address: usdc_dai },
            PoolKey { chain: ChainId::Polygon, address: weth_dai },
        ),
{
    let k_weth_usdc = PoolKey::new(ChainId::Polygon, weth_usdc);
    let k_usdc_dai = PoolKey::new(ChainId::Polygon, usdc_dai);
    let k_weth_dai = PoolKey::new(ChainId::Polygon, weth_dai);
    let forward = vec![
        HopSpec { pool_key: k_weth_usdc, dex_type: DexType::UniswapV2, token_in: weth(), token_out: usdc() },
        HopSpec { pool_key: k_usdc_dai, dex_type: DexType::UniswapV2, token_in: usdc(), token_out: dai() },
        HopSpec { pool_key: k_weth_dai, dex_type: DexType::UniswapV2, token_in: dai(), token_out: weth() },
    ];
    let reverse = vec![
        HopSpec { pool_key: k_weth_dai, dex_type: DexType::UniswapV2, token_in: weth(), token_out: dai() },
        HopSpec { pool_key: k_usdc_dai, dex_type: DexType::UniswapV2, token_in: dai(), token_out: usdc() },
        HopSpec { pool_key: k_weth_usdc, dex_type: DexType::UniswapV2, token_in: usdc(), token_out: weth() },
    ];
    vec![
        // Forward: WETH → USDC → DAI → WETH
        ArbPath { name: "WETH→USDC→DAI→WETH", chain: ChainId::Polygon, hops: forward },
        // Reverse: WETH → DAI → USDC → WETH
        ArbPath { name: "WETH→DAI→USDC→WETH", chain: ChainId::Polygon, hops: reverse },
    ]
}

/// The two directions of the WETH/USDC/DAI triangle.
pub fn polygon_arb_paths() -> (r: Vec<ArbPath>)
    ensures
        is_polygon_arb_paths(r@),
{
    polygon_arb_paths_from_pairs(
        pool_key_weth_usdc().address,
        pool_key_usdc_dai().address,
        pool_key_weth_dai().address,
    )
}

} // verus!
