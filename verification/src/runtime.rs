//! Decisions of the per-chain tasks: reconnect backoff, when to scan, and
//! the reserves behind the WETH/USD reference price.
use vstd::prelude::*;

use crate::config::{find_weth_usdc, weth_usdc_from_catalog, PoolCatalogEntry};
use crate::pools::PoolRegistry;
use crate::types::{is_profitable, ArbOpportunity, ChainId, PoolState};
use crate::u256::U256;

verus! {

/// The first wait before reconnecting, in seconds.
pub const INITIAL_BACKOFF_SECS: u64 = 1;

/// The longest wait before reconnecting, in seconds.
pub const MAX_BACKOFF_SECS: u64 = 60;

/// The wait after `secs` when another attempt fails: doubled, at most a minute.
pub open spec fn next_backoff_spec(secs: nat) -> nat {
    if 2 * secs <= MAX_BACKOFF_SECS {
        2 * secs
    } else {
        MAX_BACKOFF_SECS as nat
    }
}

/// The wait after `secs` when another attempt fails: doubled, at most a minute.
pub fn next_backoff_secs(secs: u64) -> (r: u64)
    ensures
        r == next_backoff_spec(secs as nat),
{
    if secs > MAX_BACKOFF_SECS / 2 {
        MAX_BACKOFF_SECS
    } else {
        secs * 2
    }
}

/// Waits never exceed a minute, and grow while below it.
pub proof fn lemma_backoff_bounded(secs: nat)
    requires
        secs <= MAX_BACKOFF_SECS,
    ensures
        next_backoff_spec(secs) <= MAX_BACKOFF_SECS,
        next_backoff_spec(secs) >= secs,
        0 < secs < 30 ==> next_backoff_spec(secs) > secs,
{
}

/// Whether an opportunity clears its gas cost and is worth recording.
pub fn is_profitable_opportunity(opp: &ArbOpportunity) -> (r: bool)
    ensures
        r == is_profitable(*opp),
{
    opp.estimated_net_after_gas > 0
}

/// A scan needs a known gas price and a block past zero; the gas price to
/// scan with, if both hold.
pub fn scan_gas_price(gas_price: Option<U256>, current_block: u64) -> (r: Option<U256>)
    ensures
        r == (if current_block != 0 { gas_price } else { None }),
{
    if current_block == 0 {
        None
    } else {
        gas_price
    }
}

/// The (USDC, WETH) reserves of the chain's WETH/USDC V2 pool, when the
/// catalog lists one on this chain, its V2 state is held and its WETH
/// reserve is non-zero.
pub open spec fn weth_usdc_reserves_spec(
    chain: ChainId,
    pools: Map<crate::types::PoolKey, PoolState>,
    catalog: Seq<PoolCatalogEntry>,
) -> Option<(nat, nat)> {
    match find_weth_usdc(catalog) {
        None => None,
        Some((key, usdc_is_token0)) => {
            if key.chain != chain || !pools.contains_key(key) {
                None
            } else {
                match pools[key] {
                    PoolState::V2 { reserve0, reserve1, .. } => {
                        let (usdc, weth) = if usdc_is_token0 {
                            (reserve0@, reserve1@)
                        } else {
                            (reserve1@, reserve0@)
                        };
                        if weth == 0 {
                            None
                        } else {
                            Some((usdc, weth))
                        }
                    },
                    _ => None,
                }
            }
        },
    }
}

/// The raw (USDC, WETH) reserves that the WETH/USD reference price of a
/// chain is read from.
pub fn weth_usdc_reserves(chain: ChainId, registry: &PoolRegistry, catalog: &[PoolCatalogEntry]) -> (r:
    Option<(U256, U256)>)
    ensures
        match r {
            Some((usdc, weth)) => weth_usdc_reserves_spec(chain, registry@, catalog@) == Some(
                (usdc@, weth@),
            ),
            None => weth_usdc_reserves_spec(chain, registry@, catalog@) is None,
        },
{
    let (key, usdc_is_token0) = match weth_usdc_from_catalog(catalog) {
        Some(found) => found,
        None => return None,
    };
    // Only use the pool if it belongs to this chain.
    if key.chain != chain {
        return None;
    }
    match registry.get(key) {
        Some(PoolState::V2 { reserve0, reserve1, .. }) => {
            let (usdc, weth) = if usdc_is_token0 {
                (*reserve0, *reserve1)
            } else {
                (*reserve1, *reserve0)
            };
            if weth.is_zero() {
                None
            } else {
                Some((usdc, weth))
            }
        },
        _ => None,
    }
}

} // verus!
