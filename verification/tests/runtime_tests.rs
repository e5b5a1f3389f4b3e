use arb_scanner::arb::{apply_gas, FORWARD_PATH};
use arb_scanner::config::{arbitrum, ethereum, pool_catalog};
use arb_scanner::pools::{v2_state, PoolRegistry};
use arb_scanner::runtime::{
    is_profitable_opportunity, next_backoff_secs, scan_gas_price, weth_usdc_reserves,
};
use arb_scanner::types::{all_chains, ArbOpportunity, ChainId, SessionStats};
use arb_scanner::u256::U256;

fn n(v: u128) -> U256 {
    U256::from_u128(v)
}

fn opp(net_gross: u128) -> ArbOpportunity {
    apply_gas(n(net_gross), n(1_000), n(0), FORWARD_PATH, ChainId::Ethereum, 0)
}

#[test]
fn backoff_doubles_up_to_a_minute() {
    let mut secs = 1;
    let mut seen = Vec::new();
    for _ in 0..8 {
        secs = next_backoff_secs(secs);
        seen.push(secs);
    }
    assert_eq!(seen, vec![2, 4, 8, 16, 32, 60, 60, 60]);
    assert_eq!(next_backoff_secs(u64::MAX), 60);
}

#[test]
fn scan_needs_gas_price_and_block() {
    assert_eq!(scan_gas_price(Some(n(5)), 10), Some(n(5)));
    assert_eq!(scan_gas_price(Some(n(5)), 0), None);
    assert_eq!(scan_gas_price(None, 10), None);
}

#[test]
fn stats_keep_the_best_profitable_opportunity() {
    let mut stats = SessionStats::new();
    stats.record_block();
    let opps = vec![opp(900), opp(1_010), opp(1_500), opp(1_200)];
    assert!(!is_profitable_opportunity(&opps[0]));
    assert!(is_profitable_opportunity(&opps[1]));
    stats.record_opportunities(&opps);
    assert_eq!(stats.blocks_scanned, 1);
    assert_eq!(stats.opps_found, 3);
    assert_eq!(stats.best_opp.unwrap().estimated_net_after_gas, 500);
    stats.record_opportunities(&vec![opp(1_100)]);
    assert_eq!(stats.opps_found, 4);
    assert_eq!(stats.best_opp.unwrap().estimated_net_after_gas, 500);
}

#[test]
fn weth_price_reserves_follow_token_order() {
    let catalog = pool_catalog(ChainId::Ethereum);
    let mut reg = PoolRegistry::new();
    assert!(weth_usdc_reserves(ChainId::Ethereum, &reg, &catalog).is_none());
    // token0 = USDC (3000e6), token1 = WETH (1e18)
    reg.update(
        ethereum::pool_key_weth_usdc(),
        v2_state(&catalog[0], n(3_000_000_000), n(1_000_000_000_000_000_000), 1),
    );
    assert_eq!(
        weth_usdc_reserves(ChainId::Ethereum, &reg, &catalog),
        Some((n(3_000_000_000), n(1_000_000_000_000_000_000)))
    );
    // the catalog's pool is not on the asked chain
    assert!(weth_usdc_reserves(ChainId::Polygon, &reg, &catalog).is_none());
    // no WETH in the pool
    reg.update(ethereum::pool_key_weth_usdc(), v2_state(&catalog[0], n(5), n(0), 2));
    assert!(weth_usdc_reserves(ChainId::Ethereum, &reg, &catalog).is_none());
}

#[test]
fn chains_in_start_order() {
    assert_eq!(
        all_chains(),
        vec![ChainId::Ethereum, ChainId::Arbitrum, ChainId::Base, ChainId::Polygon]
    );
}

#[test]
fn arbitrum_price_reads_the_weth_usdc_e_pool() {
    let catalog = pool_catalog(ChainId::Arbitrum);
    let mut reg = PoolRegistry::new();
    // token0 = WETH (2e18), token1 = USDC.e (6000e6)
    reg.update(
        arbitrum::weth_usdc_key(),
        v2_state(&catalog[0], n(2_000_000_000_000_000_000), n(6_000_000_000), 7),
    );
    assert_eq!(
        weth_usdc_reserves(ChainId::Arbitrum, &reg, &catalog),
        Some((n(6_000_000_000), n(2_000_000_000_000_000_000)))
    );
}

#[test]
fn run_counters_keep_the_earliest_best() {
    let mut stats = SessionStats::new();
    let mut first_best = opp(1_500);
    first_best.timestamp = 1;
    let mut later_tie = opp(1_500);
    later_tie.timestamp = 2;
    stats.record_opportunities(&vec![opp(800), first_best]);
    stats.record_opportunities(&vec![]);
    stats.record_opportunities(&vec![later_tie, opp(1_001), opp(999)]);
    assert_eq!(stats.opps_found, 3);
    let best = stats.best_opp.unwrap();
    assert_eq!(best.estimated_net_after_gas, 500);
    assert_eq!(best.timestamp, 1);

    let mut none_profitable = SessionStats::new();
    none_profitable.record_opportunities(&vec![opp(1_000), opp(10)]);
    assert_eq!(none_profitable.opps_found, 0);
    assert!(none_profitable.best_opp.is_none());
}
