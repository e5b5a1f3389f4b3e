use arb_scanner::dex::curve::validate_curve_params;
use arb_scanner::dex::v2::amm_out;
use arb_scanner::dex::v3::approx_out_v3;
use arb_scanner::dex::quote;
use arb_scanner::types::{Address, DexType, PoolState};
use arb_scanner::u256::U256;

use ethers_core::types::U256 as EU256;

fn from_e(e: EU256) -> U256 {
    U256 { w0: e.0[0], w1: e.0[1], w2: e.0[2], w3: e.0[3] }
}

fn to_e(v: U256) -> EU256 {
    EU256([v.w0, v.w1, v.w2, v.w3])
}

fn n(v: u64) -> U256 {
    U256::from_u64(v)
}

// ── v2 ────────────────────────────────────────────────────────────────────────

#[test]
fn test_amm_out_basic_v2_module() {
    let out = amm_out(n(100), n(1000), n(1000));
    assert_eq!(out, Some(n(90)));
}

#[test]
fn test_amm_out_zero_inputs_v2_module() {
    assert_eq!(amm_out(U256::zero(), n(1000), n(1000)), None);
    assert_eq!(amm_out(n(100), U256::zero(), n(1000)), None);
    assert_eq!(amm_out(n(100), n(1000), U256::zero()), None);
}

#[test]
fn amm_out_matches_formula_on_large_values() {
    // 997 * 10^18 * 3 * 10^21 / (2 * 10^21 * 1000 + 997 * 10^18)
    let a = from_e(EU256::exp10(18));
    let rin = from_e(EU256::from(2u64) * EU256::exp10(21));
    let rout = from_e(EU256::from(3u64) * EU256::exp10(21));
    let expected = (EU256::exp10(18) * 997 * EU256::from(3u64) * EU256::exp10(21))
        / (EU256::from(2u64) * EU256::exp10(21) * 1000 + EU256::exp10(18) * 997);
    assert_eq!(amm_out(a, rin, rout).map(to_e), Some(expected));
}

#[test]
fn amm_out_none_when_numerator_overflows() {
    // amount_in * 997 fits, but times reserve_out does not.
    let a = from_e(EU256::MAX / 1000);
    assert_eq!(amm_out(a, n(1000), n(2000)), None);
}

#[test]
fn amm_out_keeps_constant_product() {
    let (a, r, big_r) = (5_000u64, 40_000u64, 90_000u64);
    let out = amm_out(n(a), n(r), n(big_r)).unwrap().low_u64();
    assert!(out < big_r);
    assert!((r + a) as u128 * (big_r - out) as u128 >= r as u128 * big_r as u128);
}

#[test]
fn amm_out_grows_with_input() {
    let small = amm_out(n(100), n(10_000), n(20_000)).unwrap().low_u64();
    let large = amm_out(n(1_000), n(10_000), n(20_000)).unwrap().low_u64();
    assert!(small <= large);
    assert_eq!(small, 197);
    assert_eq!(large, 1813);
}

// ── v3 ────────────────────────────────────────────────────────────────────────

/// sqrtPriceX96 for an integer square root of the price.
fn sqrt_price(sqrt_int: u64) -> U256 {
    from_e(EU256::from(sqrt_int) * (EU256::one() << 96u32))
}

#[test]
fn test_approx_out_v3_zero_for_one_false_no_fee() {
    let out = approx_out_v3(n(100), sqrt_price(2), 0, false);
    assert_eq!(out, Some(n(400)));
}

#[test]
fn test_approx_out_v3_zero_for_one_false_with_fee() {
    let out = approx_out_v3(n(100), sqrt_price(2), 3000, false);
    assert_eq!(out, Some(n(398)));
}

#[test]
fn test_approx_out_v3_zero_for_one_true_no_fee() {
    let out = approx_out_v3(n(100), sqrt_price(2), 0, true);
    assert_eq!(out, Some(n(25)));
}

#[test]
fn test_approx_out_v3_zero_for_one_true_with_fee() {
    let out = approx_out_v3(n(100), sqrt_price(2), 3000, true);
    assert_eq!(out, Some(n(24)));
}

#[test]
fn test_approx_out_v3_zero_amount_in() {
    assert_eq!(approx_out_v3(U256::zero(), sqrt_price(2), 500, false), None);
}

#[test]
fn test_approx_out_v3_zero_sqrt_price() {
    assert_eq!(approx_out_v3(n(100), U256::zero(), 500, false), None);
}

#[test]
fn test_approx_out_v3_invalid_fee_tier() {
    assert_eq!(approx_out_v3(n(100), sqrt_price(2), 1_000_000, false), None);
}

#[test]
fn test_approx_out_v3_realistic_weth_usdc() {
    let sqrt_px96 = sqrt_price(18257);
    let one_eth = n(1_000_000_000_000_000_000);
    let fee = 500u32;
    let usdc_out = approx_out_v3(one_eth, sqrt_px96, fee, true);
    assert!(usdc_out.is_some(), "should return a value");
    let usdc = usdc_out.unwrap().low_u64();
    assert!(
        usdc > 2_500_000_000 && usdc < 3_500_000_000,
        "usdc_out={usdc} should be in $2500–$3500 range (6dec)"
    );
}

#[test]
fn test_approx_out_v3_overflow_guard() {
    let huge_sqrt = from_e(EU256::MAX >> 1u32);
    let _ = approx_out_v3(U256::max_value(), huge_sqrt, 500, false);
    let _ = approx_out_v3(U256::max_value(), huge_sqrt, 500, true);
}

#[test]
fn approx_out_v3_overflow_returns_none() {
    let huge_sqrt = from_e(EU256::MAX >> 1u32);
    assert_eq!(approx_out_v3(U256::max_value(), huge_sqrt, 500, false), None);
    assert_eq!(approx_out_v3(U256::max_value(), huge_sqrt, 500, true), None);
}

#[test]
fn approx_out_v3_rounds_each_step_down() {
    // sqrtP = 1.5 * 2^96 (price 2.25): 7 * 1.5 -> 10, 10 * 1.5 -> 15, less 1%: 14
    let sqrt = from_e(EU256::from(3u64) * (EU256::one() << 95u32));
    assert_eq!(approx_out_v3(n(7), sqrt, 10_000, false), Some(n(14)));
    // 9 / 2.25 = 4 exactly, in two steps: 9 * 2^96 / sqrtP = 6, then 6 * 2^96 / sqrtP = 4
    assert_eq!(approx_out_v3(n(9), sqrt, 0, true), Some(n(4)));
}

// ── quote dispatch ───────────────────────────────────────────────────────────

fn test_addr(b: u8) -> Address {
    Address { hi: 0, mid: 0, lo: b as u64 }
}

fn make_v2_state(r0: u128, r1: u128, t0: u8, t1: u8) -> PoolState {
    PoolState::V2 {
        reserve0: U256::from_u128(r0),
        reserve1: U256::from_u128(r1),
        token0: test_addr(t0),
        token1: test_addr(t1),
        last_block: 100,
    }
}

#[test]
fn test_quote_v2_forward() {
    let state = make_v2_state(1000, 2000, 1, 2);
    let out = quote(DexType::UniswapV2, &state, test_addr(1), test_addr(2), n(100));
    assert_eq!(out, amm_out(n(100), n(1000), n(2000)));
}

#[test]
fn test_quote_v2_reverse() {
    let state = make_v2_state(1000, 2000, 1, 2);
    let out = quote(DexType::UniswapV2, &state, test_addr(2), test_addr(1), n(100));
    assert_eq!(out, amm_out(n(100), n(2000), n(1000)));
}

#[test]
fn test_quote_v2_wrong_tokens() {
    let state = make_v2_state(1000, 2000, 1, 2);
    let out = quote(DexType::UniswapV2, &state, test_addr(3), test_addr(1), n(100));
    assert!(out.is_none());
}

#[test]
fn test_quote_v2_wrong_state_type() {
    let state = PoolState::V3 {
        sqrt_price_x96: n(1),
        fee_tier: 500,
        token0: test_addr(1),
        token1: test_addr(2),
        last_block: 100,
    };
    let out = quote(DexType::UniswapV2, &state, test_addr(1), test_addr(2), n(100));
    assert!(out.is_none());
}

#[test]
fn test_quote_curve_returns_none() {
    let state = make_v2_state(1000, 2000, 1, 2);
    let out = quote(DexType::CurveStableswap, &state, test_addr(1), test_addr(2), n(100));
    assert!(out.is_none());
}

#[test]
fn test_quote_v3_dispatch_works() {
    let state = PoolState::V3 {
        sqrt_price_x96: sqrt_price(2),
        fee_tier: 500,
        token0: test_addr(1),
        token1: test_addr(2),
        last_block: 100,
    };
    let out = quote(DexType::UniswapV3, &state, test_addr(1), test_addr(2), n(100));
    assert_eq!(out, Some(n(399)));
}

#[test]
fn test_quote_v3_wrong_state_type() {
    let state = make_v2_state(1000, 2000, 1, 2);
    let out = quote(DexType::UniswapV3, &state, test_addr(1), test_addr(2), n(100));
    assert!(out.is_none());
}

#[test]
fn test_quote_v3_wrong_tokens() {
    let state = PoolState::V3 {
        sqrt_price_x96: sqrt_price(2),
        fee_tier: 500,
        token0: test_addr(1),
        token1: test_addr(2),
        last_block: 100,
    };
    let out = quote(DexType::UniswapV3, &state, test_addr(3), test_addr(1), n(100));
    assert!(out.is_none());
}

#[test]
fn quote_v3_reverse_divides_by_price() {
    let state = PoolState::V3 {
        sqrt_price_x96: sqrt_price(2),
        fee_tier: 500,
        token0: test_addr(1),
        token1: test_addr(2),
        last_block: 100,
    };
    // 100 / 4 = 25, less 0.05%: 24
    let out = quote(DexType::UniswapV3, &state, test_addr(2), test_addr(1), n(100));
    assert_eq!(out, Some(n(24)));
}

// ── curve parameter checks ───────────────────────────────────────────────────

#[test]
fn test_validate_zero_dx() {
    assert!(!validate_curve_params(0, 1, U256::zero()));
}

#[test]
fn test_validate_same_indices() {
    assert!(!validate_curve_params(1, 1, n(100)));
}

#[test]
fn test_validate_negative_i() {
    assert!(!validate_curve_params(-1, 1, n(100)));
}

#[test]
fn test_validate_negative_j() {
    assert!(!validate_curve_params(0, -1, n(100)));
}

#[test]
fn test_validate_valid_params() {
    assert!(validate_curve_params(0, 1, n(1_000_000)));
    assert!(validate_curve_params(1, 0, n(1_000_000)));
    assert!(validate_curve_params(0, 2, n(1)));
}
