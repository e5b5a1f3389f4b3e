use std::collections::HashSet;

use arb_scanner::config::{
    arb_paths, arbitrum, base, catalog_from_pairs, ethereum, factory_pairs, pool_catalog, pool_configs,
    polygon, weth_usdc_from_catalog, ZeroPair,
    weth_usdc_pool_info, PoolCatalogEntry, TokenSymbol,
};
use arb_scanner::arb::PoolId;
use arb_scanner::types::{Address, ChainId, DexType, PoolKey};

const ALL_CHAINS: [ChainId; 4] = [ChainId::Ethereum, ChainId::Arbitrum, ChainId::Base, ChainId::Polygon];

// ── arbitrum ──────────────────────────────────────────────────────────────────

#[test]
fn test_arbitrum_catalog_has_one_entry() {
    assert_eq!(arbitrum::arbitrum_pools().len(), 1);
}

#[test]
fn test_arbitrum_pool_keys_all_use_arbitrum_chain() {
    for e in arbitrum::arbitrum_pools() {
        assert_eq!(e.pool_key.chain, ChainId::Arbitrum);
    }
}

#[test]
fn test_arbitrum_arb_paths_empty() {
    assert!(arbitrum::arbitrum_arb_paths().is_empty());
}

#[test]
fn test_arbitrum_weth_usdc_key_uses_arbitrum_chain() {
    assert_eq!(arbitrum::weth_usdc_key().chain, ChainId::Arbitrum);
}

// ── base ──────────────────────────────────────────────────────────────────────

#[test]
fn test_base_catalog_empty() {
    assert!(base::base_pools().is_empty());
}

#[test]
fn test_base_arb_paths_empty() {
    assert!(base::base_arb_paths().is_empty());
}

#[test]
fn test_base_weth_usdc_key_uses_base_chain() {
    assert_eq!(base::weth_usdc_key().chain, ChainId::Base);
}

// ── ethereum ──────────────────────────────────────────────────────────────────

#[test]
fn test_ethereum_catalog_has_eight_entries() {
    assert_eq!(ethereum::ethereum_pools().len(), 8);
}

#[test]
fn test_ethereum_catalog_has_curve_pool() {
    let curve: Vec<_> = ethereum::ethereum_pools()
        .into_iter()
        .filter(|e| e.dex_type == DexType::CurveStableswap)
        .collect();
    assert_eq!(curve.len(), 1);
    assert_eq!(curve[0].n_coins, 3);
    assert_eq!(curve[0].name, "Curve 3pool");
}

#[test]
fn test_ethereum_pool_keys_all_use_ethereum_chain() {
    for e in ethereum::ethereum_pools() {
        assert_eq!(e.pool_key.chain, ChainId::Ethereum);
    }
}

#[test]
fn test_ethereum_arb_paths_have_eight_entries() {
    assert_eq!(ethereum::ethereum_arb_paths().len(), 8);
}

#[test]
fn test_ethereum_arb_paths_each_have_three_hops() {
    for p in ethereum::ethereum_arb_paths() {
        assert_eq!(p.hops.len(), 3);
    }
}

#[test]
fn test_ethereum_arb_paths_chain_matches() {
    for p in ethereum::ethereum_arb_paths() {
        assert_eq!(p.chain, ChainId::Ethereum);
    }
}

#[test]
fn test_ethereum_weth_usdc_key_uses_ethereum_chain() {
    assert_eq!(ethereum::pool_key_weth_usdc().chain, ChainId::Ethereum);
}

#[test]
fn test_ethereum_all_hop_pool_keys_use_ethereum_chain() {
    for path in ethereum::ethereum_arb_paths() {
        for hop in &path.hops {
            assert_eq!(hop.pool_key.chain, ChainId::Ethereum);
        }
    }
}

#[test]
fn test_ethereum_v3_pools_have_fee_tier() {
    let v3_entries: Vec<_> = ethereum::ethereum_pools()
        .into_iter()
        .filter(|e| e.dex_type == DexType::UniswapV3)
        .collect();
    assert_eq!(v3_entries.len(), 2);
    for e in &v3_entries {
        assert!(e.fee_tier > 0, "V3 pool {} should have non-zero fee_tier", e.name);
    }
}

#[test]
fn test_ethereum_v2_pools_have_zero_fee_tier() {
    for e in ethereum::ethereum_pools()
        .into_iter()
        .filter(|e| e.dex_type == DexType::UniswapV2 || e.dex_type == DexType::CurveStableswap)
    {
        assert_eq!(e.fee_tier, 0, "pool {} should have fee_tier=0", e.name);
    }
}

// ── polygon ───────────────────────────────────────────────────────────────────

#[test]
fn test_polygon_catalog_has_three_entries() {
    assert_eq!(polygon::polygon_pools().len(), 3);
}

#[test]
fn test_polygon_pool_keys_all_use_polygon_chain() {
    for e in polygon::polygon_pools() {
        assert_eq!(e.pool_key.chain, ChainId::Polygon);
    }
}

#[test]
fn test_polygon_arb_paths_have_two_entries() {
    assert_eq!(polygon::polygon_arb_paths().len(), 2);
}

#[test]
fn test_polygon_arb_paths_each_have_three_hops() {
    for p in polygon::polygon_arb_paths() {
        assert_eq!(p.hops.len(), 3);
    }
}

#[test]
fn test_polygon_arb_paths_chain_matches() {
    for p in polygon::polygon_arb_paths() {
        assert_eq!(p.chain, ChainId::Polygon);
    }
}

#[test]
fn test_polygon_weth_usdc_key_uses_polygon_chain() {
    assert_eq!(polygon::weth_usdc_key().chain, ChainId::Polygon);
}

#[test]
fn test_polygon_all_hop_pool_keys_use_polygon_chain() {
    for path in polygon::polygon_arb_paths() {
        for hop in &path.hops {
            assert_eq!(hop.pool_key.chain, ChainId::Polygon);
        }
    }
}

// ── per-chain lookup ──────────────────────────────────────────────────────────

#[test]
fn test_pool_catalog_ethereum_non_empty() {
    assert!(!pool_catalog(ChainId::Ethereum).is_empty());
}

#[test]
fn test_arb_paths_ethereum_non_empty() {
    assert!(!arb_paths(ChainId::Ethereum).is_empty());
}

#[test]
fn test_cross_chain_pool_keys_are_unique() {
    let mut all_keys: Vec<PoolKey> = Vec::new();
    for chain in ALL_CHAINS {
        for entry in pool_catalog(chain) {
            all_keys.push(entry.pool_key);
        }
    }
    let total = all_keys.len();
    let unique: HashSet<_> = pool_catalog(ChainId::Ethereum)
        .into_iter()
        .map(|e| e.pool_key)
        .chain(pool_catalog(ChainId::Arbitrum).into_iter().map(|e| e.pool_key))
        .chain(pool_catalog(ChainId::Base).into_iter().map(|e| e.pool_key))
        .chain(pool_catalog(ChainId::Polygon).into_iter().map(|e| e.pool_key))
        .collect();
    assert_eq!(unique.len(), total, "pool keys must be unique across all chains");
}

#[test]
fn test_weth_usdc_pool_info_returns_some_for_all_chains() {
    for chain in ALL_CHAINS {
        assert!(
            weth_usdc_pool_info(chain).is_some(),
            "weth_usdc_pool_info({}) returned None",
            chain.name()
        );
    }
}

#[test]
fn test_weth_usdc_pool_info_chain_matches() {
    for chain in ALL_CHAINS {
        let (key, _) = weth_usdc_pool_info(chain).unwrap();
        assert_eq!(key.chain, chain);
    }
}

#[test]
fn catalog_price_pool_matches_pool_info() {
    for chain in [ChainId::Ethereum, ChainId::Arbitrum, ChainId::Polygon] {
        let catalog = pool_catalog(chain);
        assert_eq!(weth_usdc_from_catalog(&catalog), weth_usdc_pool_info(chain));
    }
    // Arbitrum's pair is WETH/USDC.e, with WETH as token0
    assert_eq!(
        weth_usdc_from_catalog(&pool_catalog(ChainId::Arbitrum)),
        Some((arbitrum::weth_usdc_key(), false))
    );
    // Base has no configured pool
    assert_eq!(weth_usdc_from_catalog(&pool_catalog(ChainId::Base)), None);
}

#[test]
fn weth_usdc_from_catalog_takes_the_first_match() {
    let mut catalog: Vec<PoolCatalogEntry> = ethereum::ethereum_pools();
    catalog.swap(0, 4);
    // entry 0 is now the V3 0.3% pool, USDC as token0
    assert_eq!(
        weth_usdc_from_catalog(&catalog),
        Some((ethereum::pool_key_weth_usdc_v3_3000(), true))
    );
    let only_weth_usdt: Vec<PoolCatalogEntry> = vec![catalog[6]];
    assert_eq!(only_weth_usdt[0].token1_symbol, TokenSymbol::USDT);
    assert_eq!(weth_usdc_from_catalog(&only_weth_usdt), None);
}

#[test]
fn every_path_is_a_weth_cycle_over_catalog_pools() {
    for chain in ALL_CHAINS {
        let catalog = pool_catalog(chain);
        for path in arb_paths(chain) {
            let weth = path.hops[0].token_in;
            assert_eq!(path.hops[2].token_out, weth);
            assert_eq!(path.hops[0].token_out, path.hops[1].token_in);
            assert_eq!(path.hops[1].token_out, path.hops[2].token_in);
            for hop in &path.hops {
                let entry = catalog.iter().find(|e| e.pool_key == hop.pool_key).unwrap();
                assert_eq!(entry.dex_type, hop.dex_type);
                let pair = (entry.expected_token0, entry.expected_token1);
                assert!(pair == (hop.token_in, hop.token_out) || pair == (hop.token_out, hop.token_in));
            }
        }
    }
}

#[test]
fn symbols_print_as_tickers() {
    assert_eq!(TokenSymbol::USDCe.as_str(), "USDC.e");
    assert_eq!(TokenSymbol::WETH.as_str(), "WETH");
    assert_eq!(ChainId::Polygon.name(), "polygon");
    assert_eq!(ChainId::Ethereum.ws_url_var(), "ETH_WS_URL");
}

// ── the V2 triangle ───────────────────────────────────────────────────────────

#[test]
fn triangle_pairs_match_the_ethereum_catalog() {
    let configs = pool_configs();
    let ids: Vec<PoolId> = configs.iter().map(|c| c.pool_id).collect();
    assert_eq!(ids, vec![PoolId::WethUsdc, PoolId::UsdcDai, PoolId::DaiWeth]);
    assert_eq!(configs[0].token0_symbol, TokenSymbol::USDC);
    assert_eq!(configs[0].token1_symbol, TokenSymbol::WETH);
    assert_eq!(configs[1].expected_token0, ethereum::dai());
    assert_eq!(configs[1].expected_token1, ethereum::usdc());
    let catalog = ethereum::ethereum_pools();
    for (c, e) in configs.iter().zip(catalog.iter()) {
        assert_eq!(e.pool_key, PoolKey::new(ChainId::Ethereum, c.pair_address));
        assert_eq!(e.dex_type, DexType::UniswapV2);
        assert_eq!(e.expected_token0, c.expected_token0);
        assert_eq!(e.expected_token1, c.expected_token1);
    }
}

// ── pools resolved from a factory ─────────────────────────────────────────────

#[test]
fn only_base_and_polygon_resolve_from_a_factory() {
    assert!(factory_pairs(ChainId::Ethereum).is_none());
    assert!(factory_pairs(ChainId::Arbitrum).is_none());
    assert_eq!(
        factory_pairs(ChainId::Base).unwrap(),
        [(base::weth(), base::usdc()), (base::weth(), base::dai()), (base::dai(), base::usdc())]
    );
    assert_eq!(
        factory_pairs(ChainId::Polygon).unwrap(),
        [(polygon::weth(), polygon::usdc()), (polygon::usdc(), polygon::dai()), (polygon::weth(), polygon::dai())]
    );
}

#[test]
fn base_catalog_from_factory_pairs() {
    let pairs = [Address::new(1, 0, 1), Address::new(2, 0, 2), Address::new(3, 0, 3)];
    let (catalog, paths) = catalog_from_pairs(ChainId::Base, pairs).unwrap();
    assert_eq!(catalog.len(), 3);
    for (e, p) in catalog.iter().zip(pairs.iter()) {
        assert_eq!(e.pool_key, PoolKey::new(ChainId::Base, *p));
        assert_eq!(e.dex_type, DexType::UniswapV2);
    }
    assert_eq!(catalog[0].expected_token0, base::weth());
    assert_eq!(catalog[0].expected_token1, base::usdc());
    assert_eq!(catalog[2].name, "DAI/USDC BaseSwap");
    assert_eq!(paths.len(), 2);
    assert_eq!(paths[0].name, "WETH→USDC→DAI→WETH");
    let keys: Vec<Address> = paths[0].hops.iter().map(|h| h.pool_key.address).collect();
    assert_eq!(keys, vec![pairs[0], pairs[2], pairs[1]]);
    // the price pool is the first pair, WETH as token0
    assert_eq!(weth_usdc_from_catalog(&catalog), Some((PoolKey::new(ChainId::Base, pairs[0]), false)));
}

#[test]
fn polygon_catalog_from_factory_pairs_matches_configured_layout() {
    let pairs = [
        polygon::pool_key_weth_usdc().address,
        polygon::pool_key_usdc_dai().address,
        polygon::pool_key_weth_dai().address,
    ];
    let (catalog, paths) = catalog_from_pairs(ChainId::Polygon, pairs).unwrap();
    let configured = polygon::polygon_pools();
    for (a, b) in catalog.iter().zip(configured.iter()) {
        assert_eq!(a.pool_key, b.pool_key);
        assert_eq!(a.expected_token0, b.expected_token0);
        assert_eq!(a.expected_token1, b.expected_token1);
        assert_eq!(a.name, b.name);
    }
    assert_eq!(paths.len(), polygon::polygon_arb_paths().len());
}

#[test]
fn zero_pair_address_is_rejected() {
    let z = Address::zero();
    let ok = Address::new(9, 9, 9);
    assert_eq!(catalog_from_pairs(ChainId::Polygon, [ok, z, z]).unwrap_err(), ZeroPair { index: 1 });
    assert_eq!(catalog_from_pairs(ChainId::Base, [z, ok, ok]).unwrap_err(), ZeroPair { index: 0 });
    assert_eq!(catalog_from_pairs(ChainId::Base, [ok, ok, z]).unwrap_err(), ZeroPair { index: 2 });
}
