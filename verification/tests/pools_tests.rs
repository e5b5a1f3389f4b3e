use arb_scanner::config::{ethereum, pool_catalog};
use arb_scanner::pools::{
    check_pool_tokens, curve_state, find_entry, needs_token_check, pool_is_stale, swap_update,
    sync_update, token_exchange_update, v2_state, EventTopics, PoolEvent, PoolRegistry,
    TokenMismatch, STALE_BLOCK_THRESHOLD,
};
use arb_scanner::types::{Address, ChainId, PoolKey, PoolState};
use arb_scanner::u256::U256;

fn n(v: u128) -> U256 {
    U256::from_u128(v)
}

fn word(v: u64) -> [u8; 32] {
    let mut w = [0u8; 32];
    w[24..32].copy_from_slice(&v.to_be_bytes());
    w
}

fn key(lo: u64) -> PoolKey {
    PoolKey::new(ChainId::Ethereum, Address::new(0, 0, lo))
}

fn block_of(s: Option<&PoolState>) -> Option<u64> {
    s.map(|s| s.last_block())
}

// ── registry ──────────────────────────────────────────────────────────────────

#[test]
fn registry_get_after_update() {
    let mut reg = PoolRegistry::new();
    assert!(reg.get(key(1)).is_none());
    reg.update(key(1), curve_state(vec![n(1), n(2)], 10));
    reg.update(key(2), curve_state(vec![], 20));
    assert_eq!(block_of(reg.get(key(1))), Some(10));
    assert_eq!(block_of(reg.get(key(2))), Some(20));
    reg.update(key(1), curve_state(vec![n(3)], 30));
    assert_eq!(block_of(reg.get(key(1))), Some(30));
    assert_eq!(block_of(reg.get(key(2))), Some(20));
    assert!(reg.get(key(3)).is_none());
}

#[test]
fn snapshot_holds_the_same_states() {
    let mut reg = PoolRegistry::new();
    reg.update(key(1), curve_state(vec![n(5), n(6)], 10));
    let snap = reg.snapshot();
    reg.update(key(1), curve_state(vec![], 99));
    match snap.get(key(1)) {
        Some(PoolState::Curve { balances, last_block }) => {
            assert_eq!(balances, &vec![n(5), n(6)]);
            assert_eq!(*last_block, 10);
        }
        _ => panic!("snapshot lost the pool"),
    }
}

// ── catalog lookup and event decoding ─────────────────────────────────────────

#[test]
fn find_entry_by_address() {
    let catalog = ethereum::ethereum_pools();
    assert_eq!(find_entry(&catalog, ethereum::pool_key_dai_weth().address), Some(2));
    assert_eq!(find_entry(&catalog, Address::zero()), None);
}

#[test]
fn sync_log_updates_reserves() {
    let catalog = ethereum::ethereum_pools();
    let addr = ethereum::pool_key_weth_usdc().address;
    let mut data = Vec::new();
    data.extend_from_slice(&word(1_000_000));
    data.extend_from_slice(&word(300));
    let (k, state) = sync_update(&catalog, addr, Some(77), &data).unwrap();
    assert_eq!(k, ethereum::pool_key_weth_usdc());
    match state {
        PoolState::V2 { reserve0, reserve1, token0, token1, last_block } => {
            assert_eq!(reserve0, n(1_000_000));
            assert_eq!(reserve1, n(300));
            assert_eq!(token0, ethereum::usdc());
            assert_eq!(token1, ethereum::weth());
            assert_eq!(last_block, 77);
        }
        _ => panic!("expected a V2 state"),
    }
    assert!(sync_update(&catalog, addr, None, &data).is_none());
    assert!(sync_update(&catalog, addr, Some(77), &data[..63]).is_none());
    assert!(sync_update(&catalog, Address::zero(), Some(77), &data).is_none());
}

#[test]
fn swap_log_updates_price() {
    let catalog = ethereum::ethereum_pools();
    let addr = ethereum::pool_key_weth_usdc_v3_500().address;
    let mut data = Vec::new();
    data.extend_from_slice(&word(1));
    data.extend_from_slice(&word(2));
    data.extend_from_slice(&word(123_456));
    let (k, state) = swap_update(&catalog, addr, Some(5), &data).unwrap();
    assert_eq!(k, ethereum::pool_key_weth_usdc_v3_500());
    match state {
        PoolState::V3 { sqrt_price_x96, fee_tier, last_block, .. } => {
            assert_eq!(sqrt_price_x96, n(123_456));
            assert_eq!(fee_tier, 500);
            assert_eq!(last_block, 5);
        }
        _ => panic!("expected a V3 state"),
    }
    assert!(swap_update(&catalog, addr, Some(5), &data[..95]).is_none());
}

fn exchange_data(sold: u64, sold_amt: u64, bought: u64, bought_amt: u64) -> Vec<u8> {
    let mut data = Vec::new();
    data.extend_from_slice(&word(sold));
    data.extend_from_slice(&word(sold_amt));
    data.extend_from_slice(&word(bought));
    data.extend_from_slice(&word(bought_amt));
    data
}

#[test]
fn token_exchange_moves_balances() {
    let catalog = ethereum::ethereum_pools();
    let curve = ethereum::pool_key_curve_3pool();
    let mut reg = PoolRegistry::new();
    reg.update(curve, curve_state(vec![n(100), n(200), n(300)], 1));
    let data = exchange_data(0, 50, 2, 400);
    let (k, state) = token_exchange_update(&reg, &catalog, curve.address, Some(9), &data).unwrap();
    assert_eq!(k, curve);
    match state {
        PoolState::Curve { balances, last_block } => {
            // coin 0 gains 50; coin 2 loses 400, floored at zero
            assert_eq!(balances, vec![n(150), n(200), n(0)]);
            assert_eq!(last_block, 9);
        }
        _ => panic!("expected a Curve state"),
    }
    // coin index out of range
    let data = exchange_data(3, 1, 0, 1);
    assert!(token_exchange_update(&reg, &catalog, curve.address, Some(9), &data).is_none());
    // no Curve state held for the pool
    let empty = PoolRegistry::new();
    let data = exchange_data(0, 1, 1, 1);
    assert!(token_exchange_update(&empty, &catalog, curve.address, Some(9), &data).is_none());
}

#[test]
fn event_topics_classify_logs() {
    let topics = EventTopics::new();
    // keccak256("Sync(uint112,uint112)")
    assert_eq!(topics.sync[..4], [0x1c, 0x41, 0x1e, 0x9a]);
    // keccak256 of the Uniswap V3 Swap and Curve TokenExchange signatures
    assert_eq!(topics.swap[..4], [0xc4, 0x20, 0x79, 0xf9]);
    assert_eq!(topics.token_exchange[..4], [0x8b, 0x3e, 0x96, 0xf2]);
    assert_eq!(topics.classify(Some(topics.sync)), Some(PoolEvent::Sync));
    assert_eq!(topics.classify(Some(topics.swap)), Some(PoolEvent::Swap));
    assert_eq!(topics.classify(Some(topics.token_exchange)), Some(PoolEvent::TokenExchange));
    assert_eq!(topics.classify(Some([0u8; 32])), None);
    assert_eq!(topics.classify(None), None);
}

// ── staleness and token checks ────────────────────────────────────────────────

#[test]
fn stale_pools_need_refresh() {
    let catalog = pool_catalog(ChainId::Ethereum);
    let entry = &catalog[0];
    let mut reg = PoolRegistry::new();
    assert!(pool_is_stale(&reg, entry.pool_key, 100));
    reg.update(entry.pool_key, v2_state(entry, n(1), n(2), 100));
    assert!(!pool_is_stale(&reg, entry.pool_key, 100 + STALE_BLOCK_THRESHOLD));
    assert!(pool_is_stale(&reg, entry.pool_key, 101 + STALE_BLOCK_THRESHOLD));
    // a state from a later block is not stale
    assert!(!pool_is_stale(&reg, entry.pool_key, 50));
}

#[test]
fn token_order_is_checked_against_the_catalog() {
    let catalog = ethereum::ethereum_pools();
    let e = &catalog[0];
    assert_eq!(check_pool_tokens(e, ethereum::usdc(), ethereum::weth()), Ok(()));
    assert_eq!(
        check_pool_tokens(e, ethereum::weth(), ethereum::usdc()),
        Err(TokenMismatch::Token0 { found: ethereum::weth(), expected: ethereum::usdc() })
    );
    assert_eq!(
        check_pool_tokens(e, ethereum::usdc(), ethereum::dai()),
        Err(TokenMismatch::Token1 { found: ethereum::dai(), expected: ethereum::weth() })
    );
    assert!(needs_token_check(e));
    assert!(!needs_token_check(&catalog[5]));
}
