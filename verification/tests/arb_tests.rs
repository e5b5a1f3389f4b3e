use arb_scanner::arb::{
    amm_out, apply_gas, calc_forward, calc_reverse, execute_path, gas_fits, path_scan_fits,
    pools_are_fresh, scan_all_opportunities, scan_fits, scan_path_opportunities,
    u256_to_i128_lossy, PairReserves, PoolId, TrianglePools, FORWARD_PATH, REVERSE_PATH,
};
use arb_scanner::config::ethereum;
use arb_scanner::pools::PoolRegistry;
use arb_scanner::types::{ArbPath, ChainId, DexType, HopSpec, PoolState};
use arb_scanner::u256::U256;

use ethers_core::types::U256 as EU256;

fn from_e(e: EU256) -> U256 {
    U256 { w0: e.0[0], w1: e.0[1], w2: e.0[2], w3: e.0[3] }
}

fn to_e(v: U256) -> EU256 {
    EU256([v.w0, v.w1, v.w2, v.w3])
}

fn n(v: u128) -> U256 {
    U256::from_u128(v)
}

fn eth(k: u64) -> U256 {
    from_e(EU256::from(k) * EU256::exp10(18))
}

fn reserves(r0: u128, r1: u128, block: u64) -> PairReserves {
    PairReserves { reserve0: n(r0), reserve1: n(r1), last_block: block }
}

/// Build the three pools with controlled last_block values.
#[allow(clippy::too_many_arguments)]
fn make_pools(
    wu_r0: u128, wu_r1: u128, wu_block: u64,
    ud_r0: u128, ud_r1: u128, ud_block: u64,
    dw_r0: u128, dw_r1: u128, dw_block: u64,
) -> TrianglePools {
    let mut m = TrianglePools::new();
    m.insert(PoolId::WethUsdc, reserves(wu_r0, wu_r1, wu_block));
    m.insert(PoolId::UsdcDai, reserves(ud_r0, ud_r1, ud_block));
    m.insert(PoolId::DaiWeth, reserves(dw_r0, dw_r1, dw_block));
    m
}

// ── amm_out ───────────────────────────────────────────────────────────────────

#[test]
fn test_amm_out_basic() {
    // 100 * 997 * 1000 / (1000 * 1000 + 100 * 997) = 90
    let out = amm_out(n(100), n(1000), n(1000));
    assert_eq!(out, Some(n(90)));
}

#[test]
fn test_amm_out_zero_reserve_in() {
    assert_eq!(amm_out(n(100), U256::zero(), n(1000)), None);
}

#[test]
fn test_amm_out_zero_reserve_out() {
    assert_eq!(amm_out(n(100), n(1000), U256::zero()), None);
}

#[test]
fn test_amm_out_zero_amount_in() {
    assert_eq!(amm_out(U256::zero(), n(1000), n(1000)), None);
}

#[test]
fn test_amm_out_overflow_guard() {
    let huge = U256::max_value();
    let result = amm_out(huge, huge, huge);
    let _ = result;
}

// ── Freshness guard ───────────────────────────────────────────────────────────

#[test]
fn test_freshness_guard_passes_when_within_skew() {
    let pools = make_pools(
        1_000_000, 300_000_000_000_000_000_000u128, 100,
        3_000_000_000_000_000_000_000u128, 1_000_000, 101,
        3_000_000_000_000_000_000_000u128, 1_000_000_000_000_000_000u128, 102,
    );
    assert!(pools_are_fresh(&pools));
}

#[test]
fn test_freshness_guard_skips_stale() {
    let pools = make_pools(
        1_000_000, 300_000_000_000_000_000_000u128, 100,
        3_000_000_000_000_000_000_000u128, 1_000_000, 105,
        3_000_000_000_000_000_000_000u128, 1_000_000_000_000_000_000u128, 100,
    );
    assert!(!pools_are_fresh(&pools));
}

#[test]
fn test_freshness_guard_missing_pool() {
    let mut pools = TrianglePools::new();
    pools.insert(PoolId::WethUsdc, reserves(1, 1, 100));
    assert!(!pools_are_fresh(&pools));
}

#[test]
fn freshness_guard_accepts_exact_skew() {
    let pools = make_pools(10, 10, 100, 10, 10, 103, 10, 10, 101);
    assert!(pools_are_fresh(&pools));
    let pools = make_pools(10, 10, 100, 10, 10, 104, 10, 10, 101);
    assert!(!pools_are_fresh(&pools));
}

#[test]
fn test_calc_forward_returns_none_when_stale() {
    let pools = make_pools(
        1_000_000, 300_000_000_000_000_000_000u128, 100,
        3_000_000_000_000_000_000_000u128, 1_000_000, 110,
        3_000_000_000_000_000_000_000u128, 1_000_000_000_000_000_000u128, 100,
    );
    assert!(calc_forward(&pools, eth(1)).is_none());
}

// ── Path direction ────────────────────────────────────────────────────────────

#[test]
fn test_forward_path_differs_from_reverse() {
    let usdc_reserves: u128 = 10_000_000_000_000;
    let weth_wu: u128 = 3_333_000_000_000_000_000_000u128;
    let dai_ud: u128 = 10_000_000_000_000_000_000_000_000u128;
    let usdc_ud: u128 = 10_000_000_000_000;
    let dai_dw: u128 = 10_000_000_000_000_000_000_000_000u128;
    let weth_dw: u128 = 3_333_000_000_000_000_000_000u128;

    let pools = make_pools(
        usdc_reserves, weth_wu, 100,
        dai_ud, usdc_ud, 100,
        dai_dw, weth_dw, 100,
    );

    let fwd = calc_forward(&pools, eth(1));
    let rev = calc_reverse(&pools, eth(1));

    assert!(fwd.is_some(), "forward path should produce a result");
    assert!(rev.is_some(), "reverse path should produce a result");
    assert_ne!(fwd, rev, "forward and reverse should differ");
}

// ── Decimal chain ─────────────────────────────────────────────────────────────

#[test]
fn test_decimal_chain_usdc_intermediate() {
    let usdc_r0: u128 = 3_000_000_000;
    let weth_r1: u128 = 1_000_000_000_000_000_000;
    let dai_ud: u128 = 3_000_000_000_000_000_000_000u128;
    let usdc_ud: u128 = 3_000_000_000;
    let dai_dw: u128 = 3_000_000_000_000_000_000_000u128;
    let weth_dw: u128 = 1_000_000_000_000_000_000;

    let pools = make_pools(
        usdc_r0, weth_r1, 100,
        dai_ud, usdc_ud, 100,
        dai_dw, weth_dw, 100,
    );

    let input = n(1_000_000_000_000_000);
    let out = calc_forward(&pools, input);

    assert!(out.is_some(), "should produce a result");
    let out_val = to_e(out.unwrap());

    let lower = EU256::from(1_000_000_000_000u64);
    let upper = EU256::from(100_000_000_000_000_000u64);
    assert!(
        out_val >= lower && out_val <= upper,
        "output {out_val} should be in plausible WETH wei range"
    );
}

// ── Fixture snapshot ──────────────────────────────────────────────────────────

#[test]
fn test_fixture_snapshot() {
    let weth_amt: u128 = 1_000_000_000_000_000_000u128;
    let wu_r0: u128 = 6_700_000_000_000u128;
    let wu_r1: u128 = 2_234_000_000_000_000_000_000u128;

    let usdc_out = amm_out(n(weth_amt), n(wu_r1), n(wu_r0));

    assert!(usdc_out.is_some());
    let usdc = usdc_out.unwrap().low_u64();
    assert!(
        usdc > 2_900_000_000 && usdc < 3_100_000_000,
        "usdc_out={usdc} should be ~2_989_000_000 (=$2989)"
    );
}

// ── Gas accounting ────────────────────────────────────────────────────────────

#[test]
fn apply_gas_subtracts_input_and_gas() {
    // gas: 20 gwei * 150_000 = 3e15 wei
    let opp = apply_gas(
        n(1_010_000_000_000_000_000),
        n(1_000_000_000_000_000_000),
        n(20_000_000_000),
        FORWARD_PATH,
        ChainId::Ethereum,
        1_700_000_000,
    );
    assert_eq!(opp.gross_profit_wei, 10_000_000_000_000_000);
    assert_eq!(opp.gas_cost_wei, n(3_000_000_000_000_000));
    assert_eq!(opp.estimated_net_after_gas, 7_000_000_000_000_000);
    assert_eq!(opp.path, "WETH→USDC→DAI→WETH");
    assert_eq!(opp.chain, ChainId::Ethereum);
    assert_eq!(opp.input_weth, n(1_000_000_000_000_000_000));
    assert_eq!(opp.timestamp, 1_700_000_000);
}

#[test]
fn apply_gas_reports_losses_as_negative() {
    let opp = apply_gas(n(900), n(1000), n(1), REVERSE_PATH, ChainId::Polygon, 7);
    assert_eq!(opp.gross_profit_wei, -100);
    assert_eq!(opp.estimated_net_after_gas, -150_100);
    assert_eq!(opp.path, "WETH→DAI→USDC→WETH");
}

#[test]
fn gas_cost_saturates() {
    let opp = apply_gas(n(5), n(5), U256::max_value(), FORWARD_PATH, ChainId::Ethereum, 0);
    assert_eq!(opp.gas_cost_wei, U256::max_value());
    // the low 128 bits of 2^256 - 1 read as i128 are -1
    assert_eq!(opp.estimated_net_after_gas, 1);
}

#[test]
fn lossy_conversion_keeps_low_bits() {
    assert_eq!(u256_to_i128_lossy(n(12345)), 12345);
    assert_eq!(u256_to_i128_lossy(n(u128::MAX)), -1);
    assert_eq!(u256_to_i128_lossy(from_e(EU256::one() << 128u32)), 0);
    assert_eq!(u256_to_i128_lossy(n(1u128 << 127)), i128::MIN);
}

#[test]
fn gas_fits_rejects_overflowing_difference() {
    assert!(gas_fits(n(10), n(5), n(1)));
    // gross reads as i128::MAX, input as -1: the difference overflows
    assert!(!gas_fits(n(i128::MAX as u128), n(u128::MAX), n(0)));
}

// ── Scan ──────────────────────────────────────────────────────────────────────

#[test]
fn scan_reports_both_directions_for_every_size() {
    let pools = make_pools(
        10_000_000_000_000, 3_333_000_000_000_000_000_000u128, 100,
        10_000_000_000_000_000_000_000_000u128, 10_000_000_000_000, 100,
        10_000_000_000_000_000_000_000_000u128, 3_333_000_000_000_000_000_000u128, 100,
    );
    let gas = n(1_000_000_000);
    assert!(scan_fits(&pools, gas));
    let opps = scan_all_opportunities(&pools, gas, 42);
    assert_eq!(opps.len(), 10);
    let sizes: [u64; 5] = [
        100_000_000_000_000_000,
        500_000_000_000_000_000,
        1_000_000_000_000_000_000,
        5_000_000_000_000_000_000,
        10_000_000_000_000_000_000,
    ];
    for (k, size) in sizes.iter().enumerate() {
        let fwd = &opps[2 * k];
        let rev = &opps[2 * k + 1];
        assert_eq!(fwd.path, "WETH→USDC→DAI→WETH");
        assert_eq!(rev.path, "WETH→DAI→USDC→WETH");
        assert_eq!(fwd.input_weth, U256::from_u64(*size));
        let out = calc_forward(&pools, U256::from_u64(*size)).unwrap();
        let expected = apply_gas(out, U256::from_u64(*size), gas, FORWARD_PATH, ChainId::Ethereum, 42);
        assert_eq!(fwd.estimated_net_after_gas, expected.estimated_net_after_gas);
        assert_eq!(fwd.timestamp, 42);
    }
}

#[test]
fn scan_of_stale_pools_finds_nothing() {
    let pools = make_pools(10, 10, 100, 10, 10, 110, 10, 10, 100);
    assert!(scan_all_opportunities(&pools, n(1), 0).is_empty());
}

// ── Configured paths over the registry ───────────────────────────────────────

fn v2(r0: u128, r1: u128, t0: arb_scanner::types::Address, t1: arb_scanner::types::Address, block: u64) -> PoolState {
    PoolState::V2 { reserve0: n(r0), reserve1: n(r1), token0: t0, token1: t1, last_block: block }
}

fn ethereum_registry(dw_block: u64) -> PoolRegistry {
    let mut reg = PoolRegistry::new();
    reg.update(
        ethereum::pool_key_weth_usdc(),
        v2(10_000_000_000_000, 3_333_000_000_000_000_000_000, ethereum::usdc(), ethereum::weth(), 100),
    );
    reg.update(
        ethereum::pool_key_usdc_dai(),
        v2(10_000_000_000_000_000_000_000_000, 10_000_000_000_000, ethereum::dai(), ethereum::usdc(), 101),
    );
    reg.update(
        ethereum::pool_key_dai_weth(),
        v2(10_000_000_000_000_000_000_000_000, 3_333_000_000_000_000_000_000, ethereum::dai(), ethereum::weth(), dw_block),
    );
    reg
}

#[test]
fn execute_path_matches_triangle() {
    let reg = ethereum_registry(102);
    let paths = ethereum::ethereum_arb_paths();
    let pools = make_pools(
        10_000_000_000_000, 3_333_000_000_000_000_000_000, 100,
        10_000_000_000_000_000_000_000_000, 10_000_000_000_000, 101,
        10_000_000_000_000_000_000_000_000, 3_333_000_000_000_000_000_000, 102,
    );
    assert_eq!(execute_path(&reg, &paths[0], eth(1)), calc_forward(&pools, eth(1)));
    assert_eq!(execute_path(&reg, &paths[1], eth(1)), calc_reverse(&pools, eth(1)));
    // the V3 pool of the third path is not held
    assert_eq!(execute_path(&reg, &paths[2], eth(1)), None);
}

#[test]
fn execute_path_skips_stale_pools() {
    let reg = ethereum_registry(104);
    let paths = ethereum::ethereum_arb_paths();
    assert_eq!(execute_path(&reg, &paths[0], eth(1)), None);
}

#[test]
fn execute_empty_path_returns_input() {
    let reg = PoolRegistry::new();
    let path = ArbPath { name: "nothing", chain: ChainId::Base, hops: vec![] };
    assert_eq!(execute_path(&reg, &path, n(77)), Some(n(77)));
}

#[test]
fn path_scan_reports_paths_that_yield() {
    let reg = ethereum_registry(100);
    let paths = ethereum::ethereum_arb_paths();
    let gas = n(10_000_000_000);
    assert!(path_scan_fits(&reg, &paths, gas));
    let opps = scan_path_opportunities(&reg, &paths, gas, 9);
    // only the two V2 WETH/USDC/DAI paths have all their pools, for 5 sizes
    assert_eq!(opps.len(), 10);
    assert_eq!(opps[0].path, "WETH→USDC→DAI→WETH");
    assert_eq!(opps[1].path, "WETH→DAI→USDC→WETH");
    assert_eq!(opps[0].chain, ChainId::Ethereum);
    assert_eq!(opps[9].input_weth, eth(10));
    let hop = HopSpec {
        pool_key: ethereum::pool_key_weth_usdc(),
        dex_type: DexType::UniswapV2,
        token_in: ethereum::weth(),
        token_out: ethereum::usdc(),
    };
    assert_eq!(paths[0].hops[0], hop);
}
