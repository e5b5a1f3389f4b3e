//! The curated pools and triangular paths of each chain.
pub mod arbitrum;
pub mod base;
pub mod ethereum;
pub mod polygon;

use vstd::prelude::*;

use crate::arb::PoolId;
use crate::types::{Address, ArbPath, ChainId, DexType, HopSpec, PoolKey};
use self::arbitrum::{is_arbitrum_arb_paths, is_arbitrum_pools};
use self::base::{is_base_arb_paths, is_base_pools};
use self::ethereum::{is_ethereum_arb_paths, is_ethereum_pools};
use self::polygon::{is_polygon_arb_paths, is_polygon_pools};

verus! {

/// The token symbols that the catalogs name.
#[derive(Clone, Copy, Debug, PartialEq, Eq, Structural)]
pub enum TokenSymbol {
    WETH,
    USDC,
    USDCe,
    DAI,
    USDT,
}

/// The ticker of a symbol as it is printed.
pub open spec fn symbol_text(s: TokenSymbol) -> Seq<char> {
    match s {
        TokenSymbol::WETH => "WETH"@,
        TokenSymbol::USDC => "USDC"@,
        TokenSymbol::USDCe => "USDC.e"@,
        TokenSymbol::DAI => "DAI"@,
        TokenSymbol::USDT => "USDT"@,
    }
}

impl TokenSymbol {
    /// The ticker as it is printed.
    pub fn as_str(&self) -> (r: &'static str)
        ensures
            r@ == symbol_text(*self),
    {
        match self {
            TokenSymbol::WETH => "WETH",
            TokenSymbol::USDC => "USDC",
            TokenSymbol::USDCe => "USDC.e",
            TokenSymbol::DAI => "DAI",
            TokenSymbol::USDT => "USDT",
        }
    }
}

/// One pool that a chain watches, with the token order it must have on chain.
#[derive(Clone, Copy, Debug)]
pub struct PoolCatalogEntry {
    pub pool_key: PoolKey,
    pub dex_type: DexType,
    pub expected_token0: Address,
    pub expected_token1: Address,
    pub token0_symbol: TokenSymbol,
    pub token1_symbol: TokenSymbol,
    pub name: &'static str,
    pub fee_tier: u32,
    /// Coin count for Curve pools (0 for V2/V3, 3 for Curve 3pool).
    pub n_coins: u8,
}

/// A catalog entry with the given fields.
pub open spec fn is_entry(
    e: PoolCatalogEntry,
    pool_key: PoolKey,
    dex_type: DexType,
    token0: Address,
    token1: Address,
    symbol0: TokenSymbol,
    symbol1: TokenSymbol,
    name: Seq<char>,
    fee_tier: u32,
    n_coins: u8,
) -> bool {
    &&& e.pool_key == pool_key
    &&& e.dex_type == dex_type
    &&& e.expected_token0 == token0
    &&& e.expected_token1 == token1
    &&& e.token0_symbol == symbol0
    &&& e.token1_symbol == symbol1
    &&& e.name@ == name
    &&& e.fee_tier == fee_tier
    &&& e.n_coins == n_coins
}

/// A hop with the given fields.
pub open spec fn hop(pool_key: PoolKey, dex_type: DexType, token_in: Address, token_out: Address) -> HopSpec {
    HopSpec { pool_key, dex_type, token_in, token_out }
}

/// A path with the given name, chain and hops.
pub open spec fn is_path(p: ArbPath, name: Seq<char>, chain: ChainId, hops: Seq<HopSpec>) -> bool {
    &&& p.name@ == name
    &&& p.chain == chain
    &&& p.hops@ == hops
}


// ─── Per-chain lookup ─────────────────────────────────────────────────────────

/// The catalog of a chain.
pub open spec fn is_catalog_of(chain: ChainId, s: Seq<PoolCatalogEntry>) -> bool {
    match chain {
        ChainId::Ethereum => is_ethereum_pools(s),
        ChainId::Arbitrum => is_arbitrum_pools(s),
        ChainId::Base => is_base_pools(s),
        ChainId::Polygon => is_polygon_pools(s),
    }
}

/// The triangular paths of a chain.
pub open spec fn is_paths_of(chain: ChainId, s: Seq<ArbPath>) -> bool {
    match chain {
        ChainId::Ethereum => is_ethereum_arb_paths(s),
        ChainId::Arbitrum => is_arbitrum_arb_paths(s),
        ChainId::Base => is_base_arb_paths(s),
        ChainId::Polygon => is_polygon_arb_paths(s),
    }
}

/// The pools a chain watches.
pub fn pool_catalog(chain: ChainId) -> (r: Vec<PoolCatalogEntry>)
    ensures
        is_catalog_of(chain, r@),
{
    match chain {
        ChainId::Ethereum => ethereum::ethereum_pools(),
        ChainId::Arbitrum => arbitrum::arbitrum_pools(),
        ChainId::Base => base::base_pools(),
        ChainId::Polygon => polygon::polygon_pools(),
    }
}

/// The triangular paths a chain scans.
pub fn arb_paths(chain: ChainId) -> (r: Vec<ArbPath>)
    ensures
        is_paths_of(chain, r@),
{
    match chain {
        ChainId::Ethereum => ethereum::ethereum_arb_paths(),
        ChainId::Arbitrum => arbitrum::arbitrum_arb_paths(),
        ChainId::Base => base::base_arb_paths(),
        ChainId::Polygon => polygon::polygon_arb_paths(),
    }
}

/// The primary WETH/stable pool of a chain and whether USDC is its token0.
pub open spec fn weth_usdc_pool_info_spec(chain: ChainId) -> Option<(PoolKey, bool)> {
    match chain {
        ChainId::Ethereum => Some((ethereum::pool_key_weth_usdc(), true)),
        ChainId::Arbitrum => Some((arbitrum::weth_usdc_key(), false)),
        ChainId::Base => Some((base::weth_usdc_key(), false)),
        ChainId::Polygon => Some((polygon::weth_usdc_key(), true)),
    }
}

/// Returns the primary WETH/stable pool key and whether USDC is token0.
///
/// Used for WETH/USD price estimation and cross-chain monitoring.
/// `usdc_is_token0=true` means reserve0 is USDC (6 dec), reserve1 is WETH (18 dec).
pub fn weth_usdc_pool_info(chain: ChainId) -> (r: Option<(PoolKey, bool)>)
    ensures
        r == weth_usdc_pool_info_spec(chain),
{
    match chain {
        // token0=USDC, token1=WETH
        ChainId::Ethereum => Some((ethereum::pool_key_weth_usdc(), true)),
        // token0=WETH, token1=USDC.e
        ChainId::Arbitrum => Some((arbitrum::weth_usdc_key(), false)),
        // token0=WETH, token1=USDC
        ChainId::Base => Some((base::weth_usdc_key(), false)),
        // token0=USDC, token1=WETH
        ChainId::Polygon => Some((polygon::weth_usdc_key(), true)),
    }
}

/// USD Coin, native or bridged (USDC.e): the stable that the WETH/USD
/// reference price is read against.
pub open spec fn is_usdc_symbol(s: TokenSymbol) -> bool {
    s == TokenSymbol::USDC || s == TokenSymbol::USDCe
}

/// A pool between WETH and USDC (native or bridged), in either order.
pub open spec fn is_weth_usdc_entry(e: PoolCatalogEntry) -> bool {
    (e.token0_symbol == TokenSymbol::WETH && is_usdc_symbol(e.token1_symbol)) || (is_usdc_symbol(
        e.token0_symbol,
    ) && e.token1_symbol == TokenSymbol::WETH)
}

/// The first WETH/USDC pool of a catalog, with whether USDC is its token0.
pub open spec fn find_weth_usdc(s: Seq<PoolCatalogEntry>) -> Option<(PoolKey, bool)>
    decreases s.len(),
{
    if s.len() == 0 {
        None
    } else if is_weth_usdc_entry(s[0]) {
        Some((s[0].pool_key, is_usdc_symbol(s[0].token0_symbol)))
    } else {
        find_weth_usdc(s.drop_first())
    }
}

/// Find the WETH/USDC pool in a catalog (USDC.e counts as USDC) and return
/// (key, usdc_is_token0).
pub fn weth_usdc_from_catalog(catalog: &[PoolCatalogEntry]) -> (r: Option<(PoolKey, bool)>)
    ensures
        r == find_weth_usdc(catalog@),
{
    let mut i: usize = 0;
    assert(catalog@.subrange(0, catalog@.len() as int) =~= catalog@);
    while i < catalog.len()
        invariant
            i <= catalog@.len(),
            find_weth_usdc(catalog@) == find_weth_usdc(catalog@.subrange(i as int, catalog@.len() as int)),
        decreases catalog@.len() - i,
    {
        let e = &catalog[i];
        let ghost rest = catalog@.subrange(i as int, catalog@.len() as int);
        assert(rest[0] == catalog@[i as int]);
        let usdc0 = e.token0_symbol == TokenSymbol::USDC || e.token0_symbol == TokenSymbol::USDCe;
        let usdc1 = e.token1_symbol == TokenSymbol::USDC || e.token1_symbol == TokenSymbol::USDCe;
        if (e.token0_symbol == TokenSymbol::WETH && usdc1) || (usdc0 && e.token1_symbol
            == TokenSymbol::WETH) {
            return Some((e.pool_key, usdc0));
        }
        assert(rest.drop_first() =~= catalog@.subrange(i + 1, catalog@.len() as int));
        i = i + 1;
    }
    assert(catalog@.subrange(i as int, catalog@.len() as int).len() == 0);
    None
}


// ─── What every catalog and path list keeps ───────────────────────────────────

/// The WETH token of a chain.
pub open spec fn chain_weth(chain: ChainId) -> Address {
    match chain {
        ChainId::Ethereum => ethereum::weth(),
        ChainId::Arbitrum => arbitrum::weth(),
        ChainId::Base => base::weth(),
        ChainId::Polygon => polygon::weth(),
    }
}

/// Every pool a chain's catalog lists belongs to that chain.
pub proof fn lemma_catalog_on_chain(chain: ChainId, s: Seq<PoolCatalogEntry>)
    requires
        is_catalog_of(chain, s),
    ensures
        forall|i: int| 0 <= i < s.len() ==> (#[trigger] s[i]).pool_key.chain == chain,
{
}

/// A path is a three-hop cycle on one chain: it starts by selling the
/// chain's WETH, each hop sells what the one before bought, the last buys
/// WETH back, and every hop's pool is on the path's chain.
pub open spec fn is_weth_cycle(p: ArbPath, chain: ChainId) -> bool {
    let h = p.hops@;
    &&& p.chain == chain
    &&& h.len() == 3
    &&& h[0].token_in == chain_weth(chain)
    &&& h[0].token_out == h[1].token_in
    &&& h[1].token_out == h[2].token_in
    &&& h[2].token_out == chain_weth(chain)
    &&& forall|k: int| 0 <= k < 3 ==> (#[trigger] h[k]).pool_key.chain == chain
}

/// Every configured path of a chain is a WETH cycle on that chain.
pub proof fn lemma_paths_are_weth_cycles(chain: ChainId, s: Seq<ArbPath>)
    requires
        is_paths_of(chain, s),
    ensures
        forall|i: int| 0 <= i < s.len() ==> is_weth_cycle(#[trigger] s[i], chain),
{
}

/// The catalog lists the hop's pool, with the hop's pricing model, and the
/// hop trades the pool's own two tokens in one of the two directions.
pub open spec fn hop_in_catalog(h: HopSpec, cat: Seq<PoolCatalogEntry>) -> bool {
    exists|j: int|
        0 <= j < cat.len() && (#[trigger] cat[j]).pool_key == h.pool_key && cat[j].dex_type
            == h.dex_type && ((h.token_in == cat[j].expected_token0 && h.token_out
            == cat[j].expected_token1) || (h.token_in == cat[j].expected_token1 && h.token_out
            == cat[j].expected_token0))
}

/// Every hop of every configured path is a pool of the same chain's catalog,
/// so the pool is watched and its state can price the hop.
pub proof fn lemma_paths_use_catalog_pools(
    chain: ChainId,
    paths: Seq<ArbPath>,
    cat: Seq<PoolCatalogEntry>,
)
    requires
        is_paths_of(chain, paths),
        is_catalog_of(chain, cat),
    ensures
        forall|i: int, k: int|
            0 <= i < paths.len() && 0 <= k < paths[i].hops@.len() ==> hop_in_catalog(
                #[trigger] paths[i].hops@[k],
                cat,
            ),
{
    assert forall|i: int, k: int|
        0 <= i < paths.len() && 0 <= k < paths[i].hops@.len() implies hop_in_catalog(
        #[trigger] paths[i].hops@[k],
        cat,
    ) by {
        let h = paths[i].hops@[k];
        if chain == ChainId::Ethereum {
            if h.pool_key == ethereum::pool_key_weth_usdc() {
                assert(cat[0].pool_key == h.pool_key);
            } else if h.pool_key == ethereum::pool_key_usdc_dai() {
                assert(cat[1].pool_key == h.pool_key);
            } else if h.pool_key == ethereum::pool_key_dai_weth() {
                assert(cat[2].pool_key == h.pool_key);
            } else if h.pool_key == ethereum::pool_key_weth_usdc_v3_500() {
                assert(cat[3].pool_key == h.pool_key);
            } else if h.pool_key == ethereum::pool_key_weth_usdc_v3_3000() {
                assert(cat[4].pool_key == h.pool_key);
            } else if h.pool_key == ethereum::pool_key_weth_usdt() {
                assert(cat[6].pool_key == h.pool_key);
            } else {
                assert(cat[7].pool_key == h.pool_key);
            }
        } else if chain == ChainId::Polygon {
            if h.pool_key == polygon::pool_key_weth_usdc() {
                assert(cat[0].pool_key == h.pool_key);
            } else if h.pool_key == polygon::pool_key_usdc_dai() {
                assert(cat[1].pool_key == h.pool_key);
            } else {
                assert(cat[2].pool_key == h.pool_key);
            }
        }
    }
}

/// No two catalog entries share a pool key, whether they come from one
/// chain's catalog or from two chains' catalogs.
pub proof fn lemma_pool_keys_unique(
    c1: ChainId,
    s1: Seq<PoolCatalogEntry>,
    c2: ChainId,
    s2: Seq<PoolCatalogEntry>,
)
    requires
        is_catalog_of(c1, s1),
        is_catalog_of(c2, s2),
    ensures
        forall|i: int, j: int|
            0 <= i < s1.len() && 0 <= j < s2.len() && (c1 != c2 || i != j) ==> (#[trigger] s1[i]).pool_key
                != (#[trigger] s2[j]).pool_key,
{
    lemma_catalog_on_chain(c1, s1);
    lemma_catalog_on_chain(c2, s2);
}

/// Uniswap V3 pools carry a non-zero fee tier; V2 and Curve pools carry none.
pub proof fn lemma_fee_tiers(chain: ChainId, s: Seq<PoolCatalogEntry>)
    requires
        is_catalog_of(chain, s),
    ensures
        forall|i: int|
            0 <= i < s.len() ==> ((#[trigger] s[i]).dex_type == DexType::UniswapV3 <==> s[i].fee_tier
                > 0),
{
}

/// On every chain with a configured catalog (all but Base), the WETH/USDC
/// pool found in the catalog, USDC.e counting as USDC, is the primary pool
/// that `weth_usdc_pool_info` names, with the same token order.
pub proof fn lemma_catalog_price_pool(chain: ChainId, s: Seq<PoolCatalogEntry>)
    requires
        chain != ChainId::Base,
        is_catalog_of(chain, s),
    ensures
        find_weth_usdc(s) == weth_usdc_pool_info_spec(chain),
{
}

// ─── The Ethereum V2 triangle ────────────────────────────────────────────────

/// One pair of the WETH/USDC/DAI triangle, with its on-chain token order.
#[derive(Clone, Copy, Debug, PartialEq, Eq, Structural)]
pub struct PoolConfig {
    pub pool_id: PoolId,
    pub pair_address: Address,
    pub expected_token0: Address,
    pub expected_token1: Address,
    pub token0_symbol: TokenSymbol,
    pub token1_symbol: TokenSymbol,
}

/// The triangle's pairs, in the order WETH/USDC, USDC/DAI, DAI/WETH:
///
/// | Pool      | token0 | token1 |
/// |-----------|--------|--------|
/// | WETH/USDC | USDC   | WETH   |
/// | USDC/DAI  | DAI    | USDC   |
/// | DAI/WETH  | DAI    | WETH   |
pub open spec fn triangle_configs() -> Seq<PoolConfig> {
    seq![
        PoolConfig {
            pool_id: PoolId::WethUsdc,
            pair_address: ethereum::pool_key_weth_usdc().address,
            expected_token0: ethereum::usdc(),
            expected_token1: ethereum::weth(),
            token0_symbol: TokenSymbol::USDC,
            token1_symbol: TokenSymbol::WETH,
        },
        PoolConfig {
            pool_id: PoolId::UsdcDai,
            pair_address: ethereum::pool_key_usdc_dai().address,
            expected_token0: ethereum::dai(),
            expected_token1: ethereum::usdc(),
            token0_symbol: TokenSymbol::DAI,
            token1_symbol: TokenSymbol::USDC,
        },
        PoolConfig {
            pool_id: PoolId::DaiWeth,
            pair_address: ethereum::pool_key_dai_weth().address,
            expected_token0: ethereum::dai(),
            expected_token1: ethereum::weth(),
            token0_symbol: TokenSymbol::DAI,
            token1_symbol: TokenSymbol::WETH,
        },
    ]
}

/// The pairs of the Ethereum V2 triangle with their verified token order.
pub fn pool_configs() -> (r: [PoolConfig; 3])
    ensures
        r@ == triangle_configs(),
{
    let r = [
        PoolConfig {
            pool_id: PoolId::WethUsdc,
            pair_address: ethereum::pool_key_weth_usdc().address,
            expected_token0: ethereum::usdc(),
            expected_token1: ethereum::weth(),
            token0_symbol: TokenSymbol::USDC,
            token1_symbol: TokenSymbol::WETH,
        },
        PoolConfig {
            pool_id: PoolId::UsdcDai,
            pair_address: ethereum::pool_key_usdc_dai().address,
            expected_token0: ethereum::dai(),
            expected_token1: ethereum::usdc(),
            token0_symbol: TokenSymbol::DAI,
            token1_symbol: TokenSymbol::USDC,
        },
        PoolConfig {
            pool_id: PoolId::DaiWeth,
            pair_address: ethereum::pool_key_dai_weth().address,
            expected_token0: ethereum::dai(),
            expected_token1: ethereum::weth(),
            token0_symbol: TokenSymbol::DAI,
            token1_symbol: TokenSymbol::WETH,
        },
    ];
    assert(r@ =~= triangle_configs());
    r
}

/// The triangle's pairs are the Ethereum catalog's first three pools, the
/// Uniswap V2 pairs, with the same addresses, token order and symbols.
pub proof fn lemma_triangle_in_catalog(s: Seq<PoolCatalogEntry>)
    requires
        is_catalog_of(ChainId::Ethereum, s),
    ensures
        forall|i: int|
            0 <= i < 3 ==> {
                let c = #[trigger] triangle_configs()[i];
                &&& s[i].pool_key == (PoolKey { chain: ChainId::Ethereum, address: c.pair_address })
                &&& s[i].dex_type == DexType::UniswapV2
                &&& s[i].expected_token0 == c.expected_token0
                &&& s[i].expected_token1 == c.expected_token1
                &&& s[i].token0_symbol == c.token0_symbol
                &&& s[i].token1_symbol == c.token1_symbol
            },
{
}

// ─── Pools resolved from a V2 factory ────────────────────────────────────────

/// The token pairs whose pair addresses Base and Polygon ask their V2 factory
/// for, in the order `catalog_from_pairs` takes the answers; `None` for the
/// chains whose catalog is configured.
pub open spec fn factory_pairs_spec(chain: ChainId) -> Option<Seq<(Address, Address)>> {
    match chain {
        ChainId::Base => Some(
            seq![(base::weth(), base::usdc()), (base::weth(), base::dai()), (base::dai(), base::usdc())],
        ),
        ChainId::Polygon => Some(
            seq![
                (polygon::weth(), polygon::usdc()),
                (polygon::usdc(), polygon::dai()),
                (polygon::weth(), polygon::dai()),
            ],
        ),
        _ => None,
    }
}

/// The token pairs a chain resolves from its V2 factory, if it does.
pub fn factory_pairs(chain: ChainId) -> (r: Option<[(Address, Address); 3]>)
    ensures
        match r {
            Some(a) => factory_pairs_spec(chain) == Some(a@),
            None => factory_pairs_spec(chain) is None,
        },
{
    match chain {
        ChainId::Base => {
            let a = [(base::weth(), base::usdc()), (base::weth(), base::dai()), (base::dai(), base::usdc())];
            assert(a@ =~= factory_pairs_spec(chain).unwrap());
            Some(a)
        },
        ChainId::Polygon => {
            let a = [
                (polygon::weth(), polygon::usdc()),
                (polygon::usdc(), polygon::dai()),
                (polygon::weth(), polygon::dai()),
            ];
            assert(a@ =~= factory_pairs_spec(chain).unwrap());
            Some(a)
        },
        _ => None,
    }
}

/// A factory answered the zero address for the pair at `index`: the pair
/// does not exist.
#[derive(Clone, Copy, Debug, PartialEq, Eq, Structural)]
pub struct ZeroPair {
    pub index: usize,
}

/// The key of a pair on a chain.
pub open spec fn pair_key(chain: ChainId, pair: Address) -> PoolKey {
    PoolKey { chain, address: pair }
}

/// The catalog of a factory-resolved chain, under the resolved pair addresses.
pub open spec fn is_resolved_catalog(chain: ChainId, pairs: Seq<Address>, s: Seq<PoolCatalogEntry>) -> bool {
    match chain {
        ChainId::Base => base::is_base_pools_with(
            s,
            pair_key(chain, pairs[0]),
            pair_key(chain, pairs[1]),
            pair_key(chain, pairs[2]),
        ),
        ChainId::Polygon => polygon::is_polygon_pools_with(
            s,
            pair_key(chain, pairs[0]),
            pair_key(chain, pairs[1]),
            pair_key(chain, pairs[2]),
        ),
        _ => false,
    }
}

/// The paths of a factory-resolved chain, under the resolved pair addresses.
pub open spec fn is_resolved_paths(chain: ChainId, pairs: Seq<Address>, s: Seq<ArbPath>) -> bool {
    match chain {
        ChainId::Base => base::is_base_arb_paths_with(
            s,
            pair_key(chain, pairs[0]),
            pair_key(chain, pairs[1]),
            pair_key(chain, pairs[2]),
        ),
        ChainId::Polygon => polygon::is_polygon_arb_paths_with(
            s,
            pair_key(chain, pairs[0]),
            pair_key(chain, pairs[1]),
            pair_key(chain, pairs[2]),
        ),
        _ => false,
    }
}

/// Whether an address is zero, which a factory answers for a missing pair.
pub open spec fn is_zero_address(a: Address) -> bool {
    a == Address { hi: 0, mid: 0, lo: 0 }
}

/// The catalog and paths of a factory-resolved chain from the pair addresses
/// its factory gave for `factory_pairs(chain)`, in that order; the first
/// zero address is an error.
pub fn catalog_from_pairs(chain: ChainId, pairs: [Address; 3]) -> (r: Result<
    (Vec<PoolCatalogEntry>, Vec<ArbPath>),
    ZeroPair,
>)
    requires
        factory_pairs_spec(chain) is Some,
    ensures
        r is Err <==> exists|i: int| 0 <= i < 3 && is_zero_address(#[trigger] pairs@[i]),
        r matches Err(e) ==> e.index < 3 && is_zero_address(pairs@[e.index as int]) && forall|j: int|
            0 <= j < e.index ==> !is_zero_address(#[trigger] pairs@[j]),
        r matches Ok((catalog, paths)) ==> is_resolved_catalog(chain, pairs@, catalog@)
            && is_resolved_paths(chain, pairs@, paths@),
{
    let mut i: usize = 0;
    while i < 3
        invariant
            i <= 3,
            forall|j: int| 0 <= j < i ==> !is_zero_address(#[trigger] pairs@[j]),
        decreases 3 - i,
    {
        if pairs[i].is_zero() {
            return Err(ZeroPair { index: i });
        }
        i = i + 1;
    }
    match chain {
        ChainId::Base => Ok(
            (
                base::base_pools_from_pairs(pairs[0], pairs[1], pairs[2]),
                base::base_arb_paths_from_pairs(pairs[0], pairs[1], pairs[2]),
            ),
        ),
        _ => Ok(
            (
                polygon::polygon_pools_from_pairs(pairs[0], pairs[1], pairs[2]),
                polygon::polygon_arb_paths_from_pairs(pairs[0], pairs[1], pairs[2]),
            ),
        ),
    }
}

/// What a factory-resolved catalog keeps: each listed pool is the pair that
/// was asked for (its two tokens, in some order), on the chain, a V2 pool
/// without fee; the pools are distinct when the factory gave distinct pairs;
/// both paths are WETH cycles over listed pools; and the WETH/USDC pool
/// found in it is the first pair, with the token order that
/// `weth_usdc_pool_info` gives for the chain.
pub proof fn lemma_resolved_catalog(
    chain: ChainId,
    pairs: Seq<Address>,
    s: Seq<PoolCatalogEntry>,
    paths: Seq<ArbPath>,
)
    requires
        factory_pairs_spec(chain) is Some,
        pairs.len() == 3,
        is_resolved_catalog(chain, pairs, s),
        is_resolved_paths(chain, pairs, paths),
    ensures
        s.len() == 3,
        forall|i: int|
            0 <= i < 3 ==> {
                let asked = factory_pairs_spec(chain).unwrap()[i];
                &&& (#[trigger] s[i]).pool_key == pair_key(chain, pairs[i])
                &&& s[i].dex_type == DexType::UniswapV2
                &&& s[i].fee_tier == 0
                &&& ((s[i].expected_token0 == asked.0 && s[i].expected_token1 == asked.1) || (
                s[i].expected_token0 == asked.1 && s[i].expected_token1 == asked.0))
            },
        (forall|i: int, j: int| 0 <= i < j < 3 ==> #[trigger] pairs[i] != #[trigger] pairs[j])
            ==> (forall|i: int, j: int| 0 <= i < j < 3 ==> (#[trigger] s[i]).pool_key != (#[trigger] s[j]).pool_key),
        forall|i: int| 0 <= i < paths.len() ==> is_weth_cycle(#[trigger] paths[i], chain),
        forall|i: int, k: int|
            0 <= i < paths.len() && 0 <= k < paths[i].hops@.len() ==> hop_in_catalog(
                #[trigger] paths[i].hops@[k],
                s,
            ),
        find_weth_usdc(s) == Some((pair_key(chain, pairs[0]), weth_usdc_pool_info_spec(chain).unwrap().1)),
{
    assert forall|i: int, k: int|
        0 <= i < paths.len() && 0 <= k < paths[i].hops@.len() implies hop_in_catalog(
        #[trigger] paths[i].hops@[k],
        s,
    ) by {
        let h = paths[i].hops@[k];
        if chain == ChainId::Base {
            // forward: pairs 0, 2, 1; reverse: pairs 1, 2, 0
            let j: int = if (i == 0 && k == 0) || (i == 1 && k == 2) {
                0
            } else if k == 1 {
                2
            } else {
                1
            };
            assert(s[j].pool_key == h.pool_key);
        } else {
            // forward: pairs 0, 1, 2; reverse: pairs 2, 1, 0
            let j: int = if i == 0 {
                k
            } else {
                2 - k
            };
            assert(s[j].pool_key == h.pool_key);
        }
    }
}

} // verus!
