//! Base: BaseSwap V2 pairs. The configured catalog is empty; the pairs are
//! watched under the addresses the BaseSwap factory gives at startup.
use vstd::prelude::*;

use crate::config::{hop, is_entry, is_path, PoolCatalogEntry, TokenSymbol};
use crate::types::{Address, ArbPath, ChainId, DexType, HopSpec, PoolKey};

verus! {

// ─── Token addresses ──────────────────────────────────────────────────────────

/// WETH, 0x4200000000000000000000000000000000000006.
#[verifier::allow_in_spec]
pub fn weth() -> Address
    returns
        (Address { hi: 0x42000000, mid: 0x0000000000000000, lo: 0x0000000000000006 }),
{
    Address { hi: 0x42000000, mid: 0x0000000000000000, lo: 0x0000000000000006 }
}

/// USDC, 0x833589fCD6eDb6E08f4c7C32D4f71b54bdA02913.
#[verifier::allow_in_spec]
pub fn usdc() -> Address
    returns
        (Address { hi: 0x833589fC, mid: 0xD6eDb6E08f4c7C32, lo: 0xD4f71b54bdA02913 }),
{
    Address { hi: 0x833589fC, mid: 0xD6eDb6E08f4c7C32, lo: 0xD4f71b54bdA02913 }
}

/// DAI, 0x50c5725949A6F0c72E6C4a641F24049A917DB0Cb.
#[verifier::allow_in_spec]
pub fn dai() -> Address
    returns
        (Address { hi: 0x50c57259, mid: 0x49A6F0c72E6C4a64, lo: 0x1F24049A917DB0Cb }),
{
    Address { hi: 0x50c57259, mid: 0x49A6F0c72E6C4a64, lo: 0x1F24049A917DB0Cb }
}

// ─── Pool keys ────────────────────────────────────────────────────────────────

/// BaseSwap V2 — WETH/USDC (token0=WETH, token1=USDC; 0x4200 < 0x8335)
#[verifier::allow_in_spec]
pub fn pool_key_weth_usdc() -> PoolKey
    returns
        (PoolKey { chain: ChainId::Base, address: Address { hi: 0xfDc1c9CB, mid: 0xf7BD1Ac41d1A3C4b, lo: 0x56E93c1d1437d2f7 } }),
{
    PoolKey { chain: ChainId::Base, address: Address { hi: 0xfDc1c9CB, mid: 0xf7BD1Ac41d1A3C4b, lo: 0x56E93c1d1437d2f7 } }
}

/// BaseSwap V2 — WETH/DAI (token0=WETH, token1=DAI; 0x4200 < 0x50c5)
#[verifier::allow_in_spec]
pub fn pool_key_weth_dai() -> PoolKey
    returns
        (PoolKey { chain: ChainId::Base, address: Address { hi: 0x7B65E1AA, mid: 0x7f45E17c91b7dbCe, lo: 0x1d8B7bBA0D2cD4a8 } }),
{
    PoolKey { chain: ChainId::Base, address: Address { hi: 0x7B65E1AA, mid: 0x7f45E17c91b7dbCe, lo: 0x1d8B7bBA0D2cD4a8 } }
}

/// BaseSwap V2 — DAI/USDC (token0=DAI, token1=USDC; 0x50c5 < 0x8335)
#[verifier::allow_in_spec]
pub fn pool_key_dai_usdc() -> PoolKey
    returns
        (PoolKey { chain: ChainId::Base, address: Address { hi: 0x6C8d3c11, mid: 0xacE7618843d79c2a, lo: 0xA4d3EDB83C31fb31 } }),
{
    PoolKey { chain: ChainId::Base, address: Address { hi: 0x6C8d3c11, mid: 0xacE7618843d79c2a, lo: 0xA4d3EDB83C31fb31 } }
}

/// Primary WETH/stable pair used for price display and cross-chain monitoring.
#[verifier::allow_in_spec]
pub fn weth_usdc_key() -> PoolKey
    returns
        pool_key_weth_usdc(),
{
    pool_key_weth_usdc()
}

// ─── Pool catalog ─────────────────────────────────────────────────────────────

/// The entries of `base_pools`, in order.
pub open spec fn is_base_pools(s: Seq<PoolCatalogEntry>) -> bool {
    &&& s.len() == 0
}

/// Empty: the Base pool addresses have not been verified on chain.
pub fn base_pools() -> (r: Vec<PoolCatalogEntry>)
    ensures
        is_base_pools(r@),
{
    Vec::new()
}

// ─── Arb paths ────────────────────────────────────────────────────────────────

/// The paths of `base_arb_paths`, in order.
pub open spec fn is_base_arb_paths(s: Seq<ArbPath>) -> bool {
    &&& s.len() == 0
}

/// Empty, as the catalog is.
pub fn base_arb_paths() -> (r: Vec<ArbPath>)
    ensures
        is_base_arb_paths(r@),
{
    Vec::new()
}

// ─── Pools and paths from the factory ────────────────────────────────────────

/// The three BaseSwap pairs, WETH/USDC, WETH/DAI and DAI/USDC, under the
/// given keys, in order.
pub open spec fn is_base_pools_with(
    s: Seq<PoolCatalogEntry>,
    weth_usdc: PoolKey,
    weth_dai: PoolKey,
    dai_usdc: PoolKey,
) -> bool {
    &&& s.len() == 3
    &&& is_entry(s[0], weth_usdc, DexType::UniswapV2, weth(), usdc(), TokenSymbol::WETH, TokenSymbol::USDC, "WETH/USDC BaseSwap"@, 0, 0)
    &&& is_entry(s[1], weth_dai, DexType::UniswapV2, weth(), dai(), TokenSymbol::WETH, TokenSymbol::DAI, "WETH/DAI BaseSwap"@, 0, 0)
    &&& is_entry(s[2], dai_usdc, DexType::UniswapV2, dai(), usdc(), TokenSymbol::DAI, TokenSymbol::USDC, "DAI/USDC BaseSwap"@, 0, 0)
}

/// The Base catalog with the pair addresses that the BaseSwap factory gave
/// for WETH/USDC, WETH/DAI and DAI/USDC.
///
/// Token address ordering (numerically):
///   WETH (0x4200) < DAI (0x50c5) < USDC (0x8335)
///
/// | Pool           | token0 | token1 |
/// |----------------|--------|--------|
/// | WETH/USDC BS   | WETH   | USDC   |
/// | WETH/DAI  BS   | WETH   | DAI    |
/// | DAI/USDC  BS   | DAI    | USDC   |
pub fn base_pools_from_pairs(weth_usdc: Address, weth_dai: Address, dai_usdc: Address) -> (r: Vec<
    PoolCatalogEntry,
>)
    ensures
        is_base_pools_with(
            r@,
            PoolKey { chain: ChainId::Base, address: weth_usdc },
            PoolKey { chain: ChainId::Base, address: weth_dai },
            PoolKey { chain: ChainId::Base, address: dai_usdc },
        ),
{
    vec![
        PoolCatalogEntry {
            pool_key: PoolKey::new(ChainId::Base, weth_usdc),
            dex_type: DexType::UniswapV2,
            expected_token0: weth(),
            expected_token1: usdc(),
            token0_symbol: TokenSymbol::WETH,
            token1_symbol: TokenSymbol::USDC,
            name: "WETH/USDC BaseSwap",
            fee_tier: 0,
            n_coins: 0,
        },
        PoolCatalogEntry {
            pool_key: PoolKey::new(ChainId::Base, weth_dai),
            dex_type: DexType::UniswapV2,
            expected_token0: weth(),
            expected_token1: dai(),
            token0_symbol: TokenSymbol::WETH,
            token1_symbol: TokenSymbol::DAI,
            name: "WETH/DAI BaseSwap",
            fee_tier: 0,
            n_coins: 0,
        },
        PoolCatalogEntry {
            pool_key: PoolKey::new(ChainId::Base, dai_usdc),
            dex_type: DexType::UniswapV2,
            expected_token0: dai(),
            expected_token1: usdc(),
            token0_symbol: TokenSymbol::DAI,
            token1_symbol: TokenSymbol::USDC,
            name: "DAI/USDC BaseSwap",
            fee_tier: 0,
            n_coins: 0,
        },
    ]
}

/// The two directions of the WETH/USDC/DAI triangle over the given keys.
pub open spec fn is_base_arb_paths_with(
    s: Seq<ArbPath>,
    weth_usdc: PoolKey,
    weth_dai: PoolKey,
    dai_usdc: PoolKey,
) -> bool {
    &&& s.len() == 2
    &&& is_path(s[0], "WETH→USDC→DAI→WETH"@, ChainId::Base, seq![hop(weth_usdc, DexType::UniswapV2, weth(), usdc()), hop(dai_usdc, DexType::UniswapV2, usdc(), dai()), hop(weth_dai, DexType::UniswapV2, dai(), weth())])
    &&& is_path(s[1], "WETH→DAI→USDC→WETH"@, ChainId::Base, seq![hop(weth_dai, DexType::UniswapV2, weth(), dai()), hop(dai_usdc, DexType::UniswapV2, dai(), usdc()), hop(weth_usdc, DexType::UniswapV2, usdc(), weth())])
}

/// The two directions of the WETH/USDC/DAI triangle over the pair addresses
/// that the BaseSwap factory gave.
pub fn base_arb_paths_from_pairs(weth_usdc: Address, weth_dai: Address, dai_usdc: Address) -> (r: Vec<
    ArbPath,
>)
    ensures
        is_base_arb_paths_with(
            r@,
            PoolKey { chain: ChainId::Base, address: weth_usdc },
            PoolKey { chain: ChainId::Base, address: weth_dai },
            PoolKey { chain: ChainId::Base, address: dai_usdc },
        ),
{
    let k_weth_usdc = PoolKey::new(ChainId::Base, weth_usdc);
    let k_weth_dai = PoolKey::new(ChainId::Base, weth_dai);
    let k_dai_usdc = PoolKey::new(ChainId::Base, dai_usdc);
    let forward = vec![
        HopSpec { pool_key: k_weth_usdc, dex_type: DexType::UniswapV2, token_in: weth(), token_out: usdc() },
        HopSpec { pool_key: k_dai_usdc, dex_type: DexType::UniswapV2, token_in: usdc(), token_out: dai() },
        HopSpec { pool_key: k_weth_dai, dex_type: DexType::UniswapV2, token_in: dai(), token_out: weth() },
    ];
    let reverse = vec![
        HopSpec { pool_key: k_weth_dai, dex_type: DexType::UniswapV2, token_in: weth(), token_out: dai() },
        HopSpec { pool_key: k_dai_usdc, dex_type: DexType::UniswapV2, token_in: dai(), token_out: usdc() },
        HopSpec { pool_key: k_weth_usdc, dex_type: DexType::UniswapV2, token_in: usdc(), token_out: weth() },
    ];
    vec![
        // Forward: WETH → USDC → DAI → WETH
        ArbPath { name: "WETH→USDC→DAI→WETH", chain: ChainId::Base, hops: forward },
        // Reverse: WETH → DAI → USDC → WETH
        ArbPath { name: "WETH→DAI→USDC→WETH", chain: ChainId::Base, hops: reverse },
    ]
}

} // verus!
