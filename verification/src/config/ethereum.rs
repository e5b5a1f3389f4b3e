//! Ethereum: Uniswap V2 and V3 pairs and Curve 3pool.
use vstd::prelude::*;

use crate::config::{hop, is_entry, is_path, PoolCatalogEntry, TokenSymbol};
use crate::types::{Address, ArbPath, ChainId, DexType, HopSpec, PoolKey};

verus! {

// ─── Token addresses ──────────────────────────────────────────────────────────

/// WETH, 0xC02aaA39b223FE8D0A0e5C4F27eAD9083C756Cc2.
#[verifier::allow_in_spec]
pub fn weth() -> Address
    returns
        (Address { hi: 0xC02aaA39, mid: 0xb223FE8D0A0e5C4F, lo: 0x27eAD9083C756Cc2 }),
{
    Address { hi: 0xC02aaA39, mid: 0xb223FE8D0A0e5C4F, lo: 0x27eAD9083C756Cc2 }
}

/// USDC, 0xA0b86991c6218b36c1d19D4a2e9Eb0cE3606eB48.
#[verifier::allow_in_spec]
pub fn usdc() -> Address
    returns
        (Address { hi: 0xA0b86991, mid: 0xc6218b36c1d19D4a, lo: 0x2e9Eb0cE3606eB48 }),
{
    Address { hi: 0xA0b86991, mid: 0xc6218b36c1d19D4a, lo: 0x2e9Eb0cE3606eB48 }
}

/// DAI, 0x6B175474E89094C44Da98b954EedeAC495271d0F.
#[verifier::allow_in_spec]
pub fn dai() -> Address
    returns
        (Address { hi: 0x6B175474, mid: 0xE89094C44Da98b95, lo: 0x4EedeAC495271d0F }),
{
    Address { hi: 0x6B175474, mid: 0xE89094C44Da98b95, lo: 0x4EedeAC495271d0F }
}

/// USDT, 0xdAC17F958D2ee523a2206206994597C13D831ec7.
#[verifier::allow_in_spec]
pub fn usdt() -> Address
    returns
        (Address { hi: 0xdAC17F95, mid: 0x8D2ee523a2206206, lo: 0x994597C13D831ec7 }),
{
    Address { hi: 0xdAC17F95, mid: 0x8D2ee523a2206206, lo: 0x994597C13D831ec7 }
}

// ─── Pool keys ────────────────────────────────────────────────────────────────

/// Uniswap V2 — WETH/USDC (token0=USDC, token1=WETH; 0xA0b8 < 0xC02a)
#[verifier::allow_in_spec]
pub fn pool_key_weth_usdc() -> PoolKey
    returns
        (PoolKey { chain: ChainId::Ethereum, address: Address { hi: 0xB4e16d01, mid: 0x68e52d35CaCD2c61, lo: 0x85b44281Ec28C9Dc } }),
{
    PoolKey { chain: ChainId::Ethereum, address: Address { hi: 0xB4e16d01, mid: 0x68e52d35CaCD2c61, lo: 0x85b44281Ec28C9Dc } }
}

/// Uniswap V2 — USDC/DAI (token0=DAI, token1=USDC; 0x6B17 < 0xA0b8)
#[verifier::allow_in_spec]
pub fn pool_key_usdc_dai() -> PoolKey
    returns
        (PoolKey { chain: ChainId::Ethereum, address: Address { hi: 0xAE461cA6, mid: 0x7B15dc8dc81CE761, lo: 0x5e0320dA1A9aB8D5 } }),
{
    PoolKey { chain: ChainId::Ethereum, address: Address { hi: 0xAE461cA6, mid: 0x7B15dc8dc81CE761, lo: 0x5e0320dA1A9aB8D5 } }
}

/// Uniswap V2 — DAI/WETH (token0=DAI, token1=WETH; 0x6B17 < 0xC02a)
#[verifier::allow_in_spec]
pub fn pool_key_dai_weth() -> PoolKey
    returns
        (PoolKey { chain: ChainId::Ethereum, address: Address { hi: 0xA478c297, mid: 0x5Ab1Ea89e8196811, lo: 0xF51A7B7Ade33eB11 } }),
{
    PoolKey { chain: ChainId::Ethereum, address: Address { hi: 0xA478c297, mid: 0x5Ab1Ea89e8196811, lo: 0xF51A7B7Ade33eB11 } }
}

/// Uniswap V3 — WETH/USDC 0.05% (token0=USDC, token1=WETH)
#[verifier::allow_in_spec]
pub fn pool_key_weth_usdc_v3_500() -> PoolKey
    returns
        (PoolKey { chain: ChainId::Ethereum, address: Address { hi: 0x88e6A0c2, mid: 0xdDD26FEEb64F039a, lo: 0x2c41296FcB3f5640 } }),
{
    PoolKey { chain: ChainId::Ethereum, address: Address { hi: 0x88e6A0c2, mid: 0xdDD26FEEb64F039a, lo: 0x2c41296FcB3f5640 } }
}

/// Uniswap V3 — WETH/USDC 0.3% (token0=USDC, token1=WETH)
#[verifier::allow_in_spec]
pub fn pool_key_weth_usdc_v3_3000() -> PoolKey
    returns
        (PoolKey { chain: ChainId::Ethereum, address: Address { hi: 0x8ad599c3, mid: 0xA0ff1De082011EFD, lo: 0xDc58f1908eb6e6D8 } }),
{
    PoolKey { chain: ChainId::Ethereum, address: Address { hi: 0x8ad599c3, mid: 0xA0ff1De082011EFD, lo: 0xDc58f1908eb6e6D8 } }
}

/// Curve 3pool — DAI/USDC/USDT (coins: DAI=0, USDC=1, USDT=2)
#[verifier::allow_in_spec]
pub fn pool_key_curve_3pool() -> PoolKey
    returns
        (PoolKey { chain: ChainId::Ethereum, address: Address { hi: 0xbEbc4478, mid: 0x2C7dB0a1A60Cb6fe, lo: 0x97d0b483032FF1C7 } }),
{
    PoolKey { chain: ChainId::Ethereum, address: Address { hi: 0xbEbc4478, mid: 0x2C7dB0a1A60Cb6fe, lo: 0x97d0b483032FF1C7 } }
}

/// Uniswap V2 — WETH/USDT (token0=WETH, token1=USDT; 0xC02a < 0xdAC1)
#[verifier::allow_in_spec]
pub fn pool_key_weth_usdt() -> PoolKey
    returns
        (PoolKey { chain: ChainId::Ethereum, address: Address { hi: 0x0d4a11d5, mid: 0xEEaaC28EC3F61d10, lo: 0x0daF4d40471f1852 } }),
{
    PoolKey { chain: ChainId::Ethereum, address: Address { hi: 0x0d4a11d5, mid: 0xEEaaC28EC3F61d10, lo: 0x0daF4d40471f1852 } }
}

/// Uniswap V2 — DAI/USDT (token0=DAI, token1=USDT; 0x6B17 < 0xdAC1)
#[verifier::allow_in_spec]
pub fn pool_key_dai_usdt() -> PoolKey
    returns
        (PoolKey { chain: ChainId::Ethereum, address: Address { hi: 0xB20bd5D0, mid: 0x4BE54f870D5C0d3c, lo: 0xa85d82b34B836405 } }),
{
    PoolKey { chain: ChainId::Ethereum, address: Address { hi: 0xB20bd5D0, mid: 0x4BE54f870D5C0d3c, lo: 0xa85d82b34B836405 } }
}

// ─── Pool catalog ─────────────────────────────────────────────────────────────

/// The entries of `ethereum_pools`, in order.
pub open spec fn is_ethereum_pools(s: Seq<PoolCatalogEntry>) -> bool {
    &&& s.len() == 8
    &&& is_entry(s[0], pool_key_weth_usdc(), DexType::UniswapV2, usdc(), weth(), TokenSymbol::USDC, TokenSymbol::WETH, "WETH/USDC V2"@, 0, 0)
    &&& is_entry(s[1], pool_key_usdc_dai(), DexType::UniswapV2, dai(), usdc(), TokenSymbol::DAI, TokenSymbol::USDC, "USDC/DAI V2"@, 0, 0)
    &&& is_entry(s[2], pool_key_dai_weth(), DexType::UniswapV2, dai(), weth(), TokenSymbol::DAI, TokenSymbol::WETH, "DAI/WETH V2"@, 0, 0)
    &&& is_entry(s[3], pool_key_weth_usdc_v3_500(), DexType::UniswapV3, usdc(), weth(), TokenSymbol::USDC, TokenSymbol::WETH, "WETH/USDC V3 0.05%"@, 500, 0)
    &&& is_entry(s[4], pool_key_weth_usdc_v3_3000(), DexType::UniswapV3, usdc(), weth(), TokenSymbol::USDC, TokenSymbol::WETH, "WETH/USDC V3 0.3%"@, 3000, 0)
    &&& is_entry(s[5], pool_key_curve_3pool(), DexType::CurveStableswap, dai(), usdc(), TokenSymbol::DAI, TokenSymbol::USDC, "Curve 3pool"@, 0, 3)
    &&& is_entry(s[6], pool_key_weth_usdt(), DexType::UniswapV2, weth(), usdt(), TokenSymbol::WETH, TokenSymbol::USDT, "WETH/USDT V2"@, 0, 0)
    &&& is_entry(s[7], pool_key_dai_usdt(), DexType::UniswapV2, dai(), usdt(), TokenSymbol::DAI, TokenSymbol::USDT, "DAI/USDT V2"@, 0, 0)
}

/// Token address ordering (numerically):
///   DAI  (0x6B17) < USDC (0xA0b8) < WETH (0xC02a) < USDT (0xdAC1)
///
/// | Pool              | token0 | token1 | dex   | fee  | n_coins |
/// |-------------------|--------|--------|-------|------|---------|
/// | WETH/USDC V2      | USDC   | WETH   | V2    | 0    | 0       |
/// | USDC/DAI  V2      | DAI    | USDC   | V2    | 0    | 0       |
/// | DAI/WETH  V2      | DAI    | WETH   | V2    | 0    | 0       |
/// | WETH/USDC V3 500  | USDC   | WETH   | V3    | 500  | 0       |
/// | WETH/USDC V3 3000 | USDC   | WETH   | V3    | 3000 | 0       |
/// | Curve 3pool       | DAI    | USDC   | Curve | 0    | 3       |
/// | WETH/USDT V2      | WETH   | USDT   | V2    | 0    | 0       |
/// | DAI/USDT  V2      | DAI    | USDT   | V2    | 0    | 0       |
pub fn ethereum_pools() -> (r: Vec<PoolCatalogEntry>)
    ensures
        is_ethereum_pools(r@),
{
    vec![
        PoolCatalogEntry {
            pool_key: pool_key_weth_usdc(),
            dex_type: DexType::UniswapV2,
            expected_token0: usdc(),
            expected_token1: weth(),
            token0_symbol: TokenSymbol::USDC,
            token1_symbol: TokenSymbol::WETH,
            name: "WETH/USDC V2",
            fee_tier: 0,
            n_coins: 0,
        },
        PoolCatalogEntry {
            pool_key: pool_key_usdc_dai(),
            dex_type: DexType::UniswapV2,
            expected_token0: dai(),
            expected_token1: usdc(),
            token0_symbol: TokenSymbol::DAI,
            token1_symbol: TokenSymbol::USDC,
            name: "USDC/DAI V2",
            fee_tier: 0,
            n_coins: 0,
        },
        PoolCatalogEntry {
            pool_key: pool_key_dai_weth(),
            dex_type: DexType::UniswapV2,
            expected_token0: dai(),
            expected_token1: weth(),
            token0_symbol: TokenSymbol::DAI,
            token1_symbol: TokenSymbol::WETH,
            name: "DAI/WETH V2",
            fee_tier: 0,
            n_coins: 0,
        },
        PoolCatalogEntry {
            pool_key: pool_key_weth_usdc_v3_500(),
            dex_type: DexType::UniswapV3,
            expected_token0: usdc(),
            expected_token1: weth(),
            token0_symbol: TokenSymbol::USDC,
            token1_symbol: TokenSymbol::WETH,
            name: "WETH/USDC V3 0.05%",
            fee_tier: 500,
            n_coins: 0,
        },
        PoolCatalogEntry {
            pool_key: pool_key_weth_usdc_v3_3000(),
            dex_type: DexType::UniswapV3,
            expected_token0: usdc(),
            expected_token1: weth(),
            token0_symbol: TokenSymbol::USDC,
            token1_symbol: TokenSymbol::WETH,
            name: "WETH/USDC V3 0.3%",
            fee_tier: 3000,
            n_coins: 0,
        },
        PoolCatalogEntry {
            pool_key: pool_key_curve_3pool(),
            dex_type: DexType::CurveStableswap,
            expected_token0: dai(),
            expected_token1: usdc(),
            token0_symbol: TokenSymbol::DAI,
            token1_symbol: TokenSymbol::USDC,
            name: "Curve 3pool",
            fee_tier: 0,
            n_coins: 3,
        },
        PoolCatalogEntry {
            pool_key: pool_key_weth_usdt(),
            dex_type: DexType::UniswapV2,
            expected_token0: weth(),
            expected_token1: usdt(),
            token0_symbol: TokenSymbol::WETH,
            token1_symbol: TokenSymbol::USDT,
            name: "WETH/USDT V2",
            fee_tier: 0,
            n_coins: 0,
        },
        PoolCatalogEntry {
            pool_key: pool_key_dai_usdt(),
            dex_type: DexType::UniswapV2,
            expected_token0: dai(),
            expected_token1: usdt(),
            token0_symbol: TokenSymbol::DAI,
            token1_symbol: TokenSymbol::USDT,
            name: "DAI/USDT V2",
            fee_tier: 0,
            n_coins: 0,
        },
    ]
}

// ─── Arb paths ────────────────────────────────────────────────────────────────

/// The paths of `ethereum_arb_paths`, in order.
pub open spec fn is_ethereum_arb_paths(s: Seq<ArbPath>) -> bool {
    &&& s.len() == 8
    &&& is_path(s[0], "WETH→USDC→DAI→WETH"@, ChainId::Ethereum, seq![hop(pool_key_weth_usdc(), DexType::UniswapV2, weth(), usdc()), hop(pool_key_usdc_dai(), DexType::UniswapV2, usdc(), dai()), hop(pool_key_dai_weth(), DexType::UniswapV2, dai(), weth())])
    &&& is_path(s[1], "WETH→DAI→USDC→WETH"@, ChainId::Ethereum, seq![hop(pool_key_dai_weth(), DexType::UniswapV2, weth(), dai()), hop(pool_key_usdc_dai(), DexType::UniswapV2, dai(), usdc()), hop(pool_key_weth_usdc(), DexType::UniswapV2, usdc(), weth())])
    &&& is_path(s[2], "WETH→USDC→DAI→WETH V3-500"@, ChainId::Ethereum, seq![hop(pool_key_weth_usdc_v3_500(), DexType::UniswapV3, weth(), usdc()), hop(pool_key_usdc_dai(), DexType::UniswapV2, usdc(), dai()), hop(pool_key_dai_weth(), DexType::UniswapV2, dai(), weth())])
    &&& is_path(s[3], "WETH→DAI→USDC→WETH V3-500"@, ChainId::Ethereum, seq![hop(pool_key_dai_weth(), DexType::UniswapV2, weth(), dai()), hop(pool_key_usdc_dai(), DexType::UniswapV2, dai(), usdc()), hop(pool_key_weth_usdc_v3_500(), DexType::UniswapV3, usdc(), weth())])
    &&& is_path(s[4], "WETH→USDC→DAI→WETH V3-3000"@, ChainId::Ethereum, seq![hop(pool_key_weth_usdc_v3_3000(), DexType::UniswapV3, weth(), usdc()), hop(pool_key_usdc_dai(), DexType::UniswapV2, usdc(), dai()), hop(pool_key_dai_weth(), DexType::UniswapV2, dai(), weth())])
    &&& is_path(s[5], "WETH→DAI→USDC→WETH V3-3000"@, ChainId::Ethereum, seq![hop(pool_key_dai_weth(), DexType::UniswapV2, weth(), dai()), hop(pool_key_usdc_dai(), DexType::UniswapV2, dai(), usdc()), hop(pool_key_weth_usdc_v3_3000(), DexType::UniswapV3, usdc(), weth())])
    &&& is_path(s[6], "WETH→USDT→DAI→WETH"@, ChainId::Ethereum, seq![hop(pool_key_weth_usdt(), DexType::UniswapV2, weth(), usdt()), hop(pool_key_dai_usdt(), DexType::UniswapV2, usdt(), dai()), hop(pool_key_dai_weth(), DexType::UniswapV2, dai(), weth())])
    &&& is_path(s[7], "WETH→DAI→USDT→WETH"@, ChainId::Ethereum, seq![hop(pool_key_dai_weth(), DexType::UniswapV2, weth(), dai()), hop(pool_key_dai_usdt(), DexType::UniswapV2, dai(), usdt()), hop(pool_key_weth_usdt(), DexType::UniswapV2, usdt(), weth())])
}

/// The triangular paths scanned on Ethereum. Curve paths are left out: the
/// in-memory quote cannot price a Curve hop, so such a path would always be
/// skipped.
pub fn ethereum_arb_paths() -> (r: Vec<ArbPath>)
    ensures
        is_ethereum_arb_paths(r@),
{
    vec![
        // V2-only: WETH → USDC → DAI → WETH
        ArbPath {
            name: "WETH→USDC→DAI→WETH",
            chain: ChainId::Ethereum,
            hops: vec![
                HopSpec {
                    pool_key: pool_key_weth_usdc(),
                    dex_type: DexType::UniswapV2,
                    token_in: weth(),
                    token_out: usdc(),
                },
                HopSpec {
                    pool_key: pool_key_usdc_dai(),
                    dex_type: DexType::UniswapV2,
                    token_in: usdc(),
                    token_out: dai(),
                },
                HopSpec {
                    pool_key: pool_key_dai_weth(),
                    dex_type: DexType::UniswapV2,
                    token_in: dai(),
                    token_out: weth(),
                },
            ],
        },
        // V2-only: WETH → DAI → USDC → WETH
        ArbPath {
            name: "WETH→DAI→USDC→WETH",
            chain: ChainId::Ethereum,
            hops: vec![
                HopSpec {
                    pool_key: pool_key_dai_weth(),
                    dex_type: DexType::UniswapV2,
                    token_in: weth(),
                    token_out: dai(),
                },
                HopSpec {
                    pool_key: pool_key_usdc_dai(),
                    dex_type: DexType::UniswapV2,
                    token_in: dai(),
                    token_out: usdc(),
                },
                HopSpec {
                    pool_key: pool_key_weth_usdc(),
                    dex_type: DexType::UniswapV2,
                    token_in: usdc(),
                    token_out: weth(),
                },
            ],
        },
        // Cross-DEX V3-500: WETH → USDC → DAI → WETH (V3 500 first hop)
        ArbPath {
            name: "WETH→USDC→DAI→WETH V3-500",
            chain: ChainId::Ethereum,
            hops: vec![
                HopSpec {
                    pool_key: pool_key_weth_usdc_v3_500(),
                    dex_type: DexType::UniswapV3,
                    token_in: weth(),
                    token_out: usdc(),
                },
                HopSpec {
                    pool_key: pool_key_usdc_dai(),
                    dex_type: DexType::UniswapV2,
                    token_in: usdc(),
                    token_out: dai(),
                },
                HopSpec {
                    pool_key: pool_key_dai_weth(),
                    dex_type: DexType::UniswapV2,
                    token_in: dai(),
                    token_out: weth(),
                },
            ],
        },
        // Cross-DEX V3-500: WETH → DAI → USDC → WETH (V3 500 last hop)
        ArbPath {
            name: "WETH→DAI→USDC→WETH V3-500",
            chain: ChainId::Ethereum,
            hops: vec![
                HopSpec {
                    pool_key: pool_key_dai_weth(),
                    dex_type: DexType::UniswapV2,
                    token_in: weth(),
                    token_out: dai(),
                },
                HopSpec {
                    pool_key: pool_key_usdc_dai(),
                    dex_type: DexType::UniswapV2,
                    token_in: dai(),
                    token_out: usdc(),
                },
                HopSpec {
                    pool_key: pool_key_weth_usdc_v3_500(),
                    dex_type: DexType::UniswapV3,
                    token_in: usdc(),
                    token_out: weth(),
                },
            ],
        },
        // Cross-DEX V3-3000: WETH → USDC → DAI → WETH (V3 3000 first hop)
        ArbPath {
            name: "WETH→USDC→DAI→WETH V3-3000",
            chain: ChainId::Ethereum,
            hops: vec![
                HopSpec {
                    pool_key: pool_key_weth_usdc_v3_3000(),
                    dex_type: DexType::UniswapV3,
                    token_in: weth(),
                    token_out: usdc(),
                },
                HopSpec {
                    pool_key: pool_key_usdc_dai(),
                    dex_type: DexType::UniswapV2,
                    token_in: usdc(),
                    token_out: dai(),
                },
                HopSpec {
                    pool_key: pool_key_dai_weth(),
                    dex_type: DexType::UniswapV2,
                    token_in: dai(),
                    token_out: weth(),
                },
            ],
        },
        // Cross-DEX V3-3000: WETH → DAI → USDC → WETH (V3 3000 last hop)
        ArbPath {
            name: "WETH→DAI→USDC→WETH V3-3000",
            chain: ChainId::Ethereum,
            hops: vec![
                HopSpec {
                    pool_key: pool_key_dai_weth(),
                    dex_type: DexType::UniswapV2,
                    token_in: weth(),
                    token_out: dai(),
                },
                HopSpec {
                    pool_key: pool_key_usdc_dai(),
                    dex_type: DexType::UniswapV2,
                    token_in: dai(),
                    token_out: usdc(),
                },
                HopSpec {
                    pool_key: pool_key_weth_usdc_v3_3000(),
                    dex_type: DexType::UniswapV3,
                    token_in: usdc(),
                    token_out: weth(),
                },
            ],
        },
        // V2-only: WETH → USDT → DAI → WETH
        ArbPath {
            name: "WETH→USDT→DAI→WETH",
            chain: ChainId::Ethereum,
            hops: vec![
                HopSpec {
                    pool_key: pool_key_weth_usdt(),
                    dex_type: DexType::UniswapV2,
                    token_in: weth(),
                    token_out: usdt(),
                },
                HopSpec {
                    pool_key: pool_key_dai_usdt(),
                    dex_type: DexType::UniswapV2,
                    token_in: usdt(),
                    token_out: dai(),
                },
                HopSpec {
                    pool_key: pool_key_dai_weth(),
                    dex_type: DexType::UniswapV2,
                    token_in: dai(),
                    token_out: weth(),
                },
            ],
        },
        // V2-only: WETH → DAI → USDT → WETH
        ArbPath {
            name: "WETH→DAI→USDT→WETH",
            chain: ChainId::Ethereum,
            hops: vec![
                HopSpec {
                    pool_key: pool_key_dai_weth(),
                    dex_type: DexType::UniswapV2,
                    token_in: weth(),
                    token_out: dai(),
                },
                HopSpec {
                    pool_key: pool_key_dai_usdt(),
                    dex_type: DexType::UniswapV2,
                    token_in: dai(),
                    token_out: usdt(),
                },
                HopSpec {
                    pool_key: pool_key_weth_usdt(),
                    dex_type: DexType::UniswapV2,
                    token_in: usdt(),
                    token_out: weth(),
                },
            ],
        },
    ]
}

} // verus!
