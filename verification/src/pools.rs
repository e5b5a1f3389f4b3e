//! The pool registry and the decisions made on pool events.
use vstd::prelude::*;

use crate::config::PoolCatalogEntry;
use crate::types::{same_state, Address, DexType, PoolKey, PoolState};
use crate::u256::{be_value, u256_from_be_bytes, u256_max, U256};

verus! {

// ─── PoolRegistry ─────────────────────────────────────────────────────────────

/// Whether an entry list holds `key`.
pub open spec fn has_key(s: Seq<(PoolKey, PoolState)>, key: PoolKey) -> bool {
    exists|i: int| 0 <= i < s.len() && (#[trigger] s[i]).0 == key
}

/// The state stored under `key` in an entry list that holds it.
pub open spec fn state_of(s: Seq<(PoolKey, PoolState)>, key: PoolKey) -> PoolState {
    s[choose|i: int| 0 <= i < s.len() && (#[trigger] s[i]).0 == key].1
}

/// No key occurs twice in an entry list.
pub open spec fn keys_distinct(s: Seq<(PoolKey, PoolState)>) -> bool {
    forall|i: int, j: int| 0 <= i < s.len() && 0 <= j < s.len() && i != j ==> (#[trigger] s[i]).0 != (#[trigger] s[j]).0
}

/// The map an entry list stands for.
pub open spec fn entries_map(s: Seq<(PoolKey, PoolState)>) -> Map<PoolKey, PoolState> {
    Map::new(|k: PoolKey| has_key(s, k), |k: PoolKey| state_of(s, k))
}

proof fn lemma_entry_in_map(s: Seq<(PoolKey, PoolState)>, i: int)
    requires
        keys_distinct(s),
        0 <= i < s.len(),
    ensures
        entries_map(s).contains_key(s[i].0),
        entries_map(s)[s[i].0] == s[i].1,
{
    let k = s[i].0;
    assert(has_key(s, k));
    let j = choose|j: int| 0 <= j < s.len() && (#[trigger] s[j]).0 == k;
    assert(j == i);
}

/// The latest known state of every watched pool.
pub struct PoolRegistry {
    entries: Vec<(PoolKey, PoolState)>,
}

impl View for PoolRegistry {
    type V = Map<PoolKey, PoolState>;

    closed spec fn view(&self) -> Map<PoolKey, PoolState> {
        entries_map(self.entries@)
    }
}

impl PoolRegistry {
    #[verifier::type_invariant]
    spec fn well_formed(self) -> bool {
        keys_distinct(self.entries@)
    }

    /// An empty registry.
    pub fn new() -> (r: PoolRegistry)
        ensures
            r@ == Map::<PoolKey, PoolState>::empty(),
    {
        let r = PoolRegistry { entries: Vec::new() };
        assert(r@ =~= Map::<PoolKey, PoolState>::empty());
        r
    }

    fn find(&self, key: PoolKey) -> (r: Option<usize>)
        ensures
            r matches Some(i) ==> i < self.entries@.len() && self.entries@[i as int].0 == key,
            r is None ==> !has_key(self.entries@, key),
    {
        let mut i: usize = 0;
        while i < self.entries.len()
            invariant
                i <= self.entries@.len(),
                forall|j: int| 0 <= j < i ==> (#[trigger] self.entries@[j]).0 != key,
            decreases self.entries@.len() - i,
        {
            if self.entries[i].0 == key {
                return Some(i);
            }
            i = i + 1;
        }
        None
    }

    /// The state held for `key`, if any.
    pub fn get(&self, key: PoolKey) -> (r: Option<&PoolState>)
        ensures
            r is Some <==> self@.contains_key(key),
            r matches Some(s) ==> *s == self@[key],
    {
        proof {
            use_type_invariant(self);
        }
        match self.find(key) {
            Some(i) => {
                proof {
                    lemma_entry_in_map(self.entries@, i as int);
                }
                Some(&self.entries[i].1)
            },
            None => None,
        }
    }

    /// A copy of the registry, holding the same states for the same keys.
    pub fn snapshot(&self) -> (r: PoolRegistry)
        ensures
            r@.dom() == self@.dom(),
            forall|k: PoolKey| #[trigger] self@.contains_key(k) ==> same_state(self@[k], r@[k]),
    {
        proof {
            use_type_invariant(self);
        }
        let mut copy: Vec<(PoolKey, PoolState)> = Vec::new();
        let mut i: usize = 0;
        while i < self.entries.len()
            invariant
                i <= self.entries@.len(),
                keys_distinct(self.entries@),
                copy@.len() == i,
                forall|j: int| 0 <= j < i ==> (#[trigger] copy@[j]).0 == self.entries@[j].0,
                forall|j: int| 0 <= j < i ==> same_state(self.entries@[j].1, (#[trigger] copy@[j]).1),
            decreases self.entries@.len() - i,
        {
            let state = self.entries[i].1.duplicate();
            copy.push((self.entries[i].0, state));
            i = i + 1;
        }
        proof {
            let s = self.entries@;
            let c = copy@;
            assert(keys_distinct(c)) by {
                assert forall|a: int, b: int| 0 <= a < c.len() && 0 <= b < c.len() && a != b implies (#[trigger] c[a]).0 != (#[trigger] c[b]).0 by {
                    assert(c[a].0 == s[a].0);
                    assert(c[b].0 == s[b].0);
                }
            }
            assert forall|k: PoolKey| has_key(s, k) == has_key(c, k) by {
                if has_key(s, k) {
                    let j = choose|j: int| 0 <= j < s.len() && (#[trigger] s[j]).0 == k;
                    assert(c[j].0 == k);
                }
                if has_key(c, k) {
                    let j = choose|j: int| 0 <= j < c.len() && (#[trigger] c[j]).0 == k;
                    assert(s[j].0 == k);
                }
            }
            assert(entries_map(c).dom() =~= entries_map(s).dom());
            assert forall|k: PoolKey| #[trigger] entries_map(s).contains_key(k) implies same_state(
                entries_map(s)[k],
                entries_map(c)[k],
            ) by {
                let j = choose|j: int| 0 <= j < s.len() && (#[trigger] s[j]).0 == k;
                lemma_entry_in_map(s, j);
                assert(c[j].0 == k);
                lemma_entry_in_map(c, j);
            }
        }
        PoolRegistry { entries: copy }
    }

    /// Record `state` as the latest state of `key`, replacing any earlier one.
    pub fn update(&mut self, key: PoolKey, state: PoolState)
        ensures
            final(self)@ == old(self)@.insert(key, state),
    {
        proof {
            use_type_invariant(&*self);
        }
        let ghost before = self.entries@;
        let found = self.find(key);
        let mut entries: Vec<(PoolKey, PoolState)> = Vec::new();
        std::mem::swap(&mut entries, &mut self.entries);
        match found {
            Some(i) => {
                entries.set(i, (key, state));
            },
            None => {
                entries.push((key, state));
            },
        }
        proof {
            let after = entries@;
            assert(keys_distinct(after));
            assert forall|k: PoolKey| #[trigger] entries_map(after).contains_key(k) == entries_map(
                before,
            ).insert(key, state).contains_key(k) by {
                if has_key(before, k) {
                    let j = choose|j: int| 0 <= j < before.len() && (#[trigger] before[j]).0 == k;
                    assert(after[j].0 == k);
                }
                if k == key {
                    lemma_entry_in_map(after, if after.len() > before.len() { before.len() as int } else {
                        choose|j: int| 0 <= j < before.len() && (#[trigger] before[j]).0 == key
                    });
                }
                if has_key(after, k) && k != key {
                    let j = choose|j: int| 0 <= j < after.len() && (#[trigger] after[j]).0 == k;
                    assert(before[j].0 == k);
                }
            }
            assert forall|k: PoolKey| #[trigger] entries_map(after).contains_key(k) implies entries_map(
                after,
            )[k] == entries_map(before).insert(key, state)[k] by {
                let j = choose|j: int| 0 <= j < after.len() && (#[trigger] after[j]).0 == k;
                lemma_entry_in_map(after, j);
                if k != key {
                    assert(before[j] == after[j]);
                    lemma_entry_in_map(before, j);
                }
            }
            assert(entries_map(after) =~= entries_map(before).insert(key, state));
        }
        self.entries = entries;
    }
}


/// What a read gives back of a write: after `update(key, state)` a `get` of
/// `key` finds `state`, and every other key keeps what it held.
pub proof fn lemma_get_after_update(
    before: Map<PoolKey, PoolState>,
    after: Map<PoolKey, PoolState>,
    key: PoolKey,
    state: PoolState,
    other: PoolKey,
)
    requires
        after == before.insert(key, state),
    ensures
        after.contains_key(key),
        after[key] == state,
        other != key ==> (after.contains_key(other) == before.contains_key(other)),
        other != key && before.contains_key(other) ==> after[other] == before[other],
{
}


// ─── Catalog lookup ───────────────────────────────────────────────────────────

/// The index of the first catalog entry whose pool has this address.
pub open spec fn entry_index_of(catalog: Seq<PoolCatalogEntry>, address: Address) -> Option<int> {
    if exists|i: int| 0 <= i < catalog.len() && (#[trigger] catalog[i]).pool_key.address == address {
        Some(
            choose|i: int|
                0 <= i < catalog.len() && (#[trigger] catalog[i]).pool_key.address == address && forall|
                    j: int,
                | 0 <= j < i ==> (#[trigger] catalog[j]).pool_key.address != address,
        )
    } else {
        None
    }
}

/// The first catalog entry whose pool has this address, if any.
pub fn find_entry(catalog: &[PoolCatalogEntry], address: Address) -> (r: Option<usize>)
    ensures
        r matches Some(i) ==> i < catalog@.len() && catalog@[i as int].pool_key.address == address
            && forall|j: int| 0 <= j < i ==> (#[trigger] catalog@[j]).pool_key.address != address,
        r is None ==> forall|j: int|
            0 <= j < catalog@.len() ==> (#[trigger] catalog@[j]).pool_key.address != address,
        r matches Some(i) ==> entry_index_of(catalog@, address) == Some(i as int),
        r is None ==> entry_index_of(catalog@, address) is None,
{
    let mut i: usize = 0;
    while i < catalog.len()
        invariant
            i <= catalog@.len(),
            forall|j: int| 0 <= j < i ==> (#[trigger] catalog@[j]).pool_key.address != address,
        decreases catalog@.len() - i,
    {
        if catalog[i].pool_key.address == address {
            proof {
                let w = choose|w: int|
                    0 <= w < catalog@.len() && (#[trigger] catalog@[w]).pool_key.address == address
                        && forall|j: int|
                        0 <= j < w ==> (#[trigger] catalog@[j]).pool_key.address != address;
                assert(catalog@[i as int].pool_key.address == address);
                assert(w == i as int) by {
                    if w < i {
                    } else if w > i {
                        assert(catalog@[i as int].pool_key.address != address);
                    }
                }
            }
            return Some(i);
        }
        i = i + 1;
    }
    None
}

// ─── Event decoding ───────────────────────────────────────────────────────────

/// The value of the 32-byte big-endian word at `offset` of a log's data.
pub open spec fn data_word(data: Seq<u8>, offset: int) -> nat {
    be_value(data.subrange(offset, offset + 32))
}

fn read_word(data: &[u8], offset: usize) -> (r: U256)
    requires
        offset + 32 <= data@.len(),
    ensures
        r@ == data_word(data@, offset as int),
{
    let n = data.len();
    assert(offset + 32 <= n);
    u256_from_be_bytes(&data[offset..offset + 32])
}

/// A V2 state with these reserves for a catalog entry, read at `block`.
pub open spec fn is_v2_state_for(
    st: PoolState,
    e: PoolCatalogEntry,
    reserve0: nat,
    reserve1: nat,
    block: u64,
) -> bool {
    st matches PoolState::V2 { reserve0: r0, reserve1: r1, token0, token1, last_block } && r0@
        == reserve0 && r1@ == reserve1 && token0 == e.expected_token0 && token1 == e.expected_token1
        && last_block == block
}

/// A V3 state with this price for a catalog entry, read at `block`.
pub open spec fn is_v3_state_for(st: PoolState, e: PoolCatalogEntry, sqrt_price: nat, block: u64) -> bool {
    st matches PoolState::V3 { sqrt_price_x96, fee_tier, token0, token1, last_block }
        && sqrt_price_x96@ == sqrt_price && fee_tier == e.fee_tier && token0 == e.expected_token0
        && token1 == e.expected_token1 && last_block == block
}

/// The V2 state of a catalog pool with freshly read reserves.
pub fn v2_state(entry: &PoolCatalogEntry, reserve0: U256, reserve1: U256, block: u64) -> (r: PoolState)
    ensures
        is_v2_state_for(r, *entry, reserve0@, reserve1@, block),
{
    PoolState::V2 {
        reserve0,
        reserve1,
        token0: entry.expected_token0,
        token1: entry.expected_token1,
        last_block: block,
    }
}

/// The V3 state of a catalog pool with a freshly read price.
pub fn v3_state(entry: &PoolCatalogEntry, sqrt_price_x96: U256, block: u64) -> (r: PoolState)
    ensures
        is_v3_state_for(r, *entry, sqrt_price_x96@, block),
{
    PoolState::V3 {
        sqrt_price_x96,
        fee_tier: entry.fee_tier,
        token0: entry.expected_token0,
        token1: entry.expected_token1,
        last_block: block,
    }
}

/// A `Sync(reserve0, reserve1)` log of a catalog pair: its block, the pair's
/// entry and at least 64 bytes of data are needed.
pub open spec fn sync_accepted(
    catalog: Seq<PoolCatalogEntry>,
    address: Address,
    block_number: Option<u64>,
    data: Seq<u8>,
) -> bool {
    block_number is Some && entry_index_of(catalog, address) is Some && data.len() >= 64
}

/// The pool update a `Sync` log calls for: the pair's reserves as the two
/// data words, at the log's block, or `None` when the log is dropped.
pub fn sync_update(
    catalog: &[PoolCatalogEntry],
    address: Address,
    block_number: Option<u64>,
    data: &[u8],
) -> (r: Option<(PoolKey, PoolState)>)
    ensures
        r is Some <==> sync_accepted(catalog@, address, block_number, data@),
        r matches Some((key, st)) ==> ({
            let e = catalog@[entry_index_of(catalog@, address).unwrap()];
            &&& key == e.pool_key
            &&& is_v2_state_for(
                st,
                e,
                data_word(data@, 0),
                data_word(data@, 32),
                block_number.unwrap(),
            )
        }),
{
    let block = match block_number {
        Some(b) => b,
        None => return None,
    };
    let i = match find_entry(catalog, address) {
        Some(i) => i,
        None => return None,
    };
    if data.len() < 64 {
        return None;
    }
    let reserve0 = read_word(data, 0);
    let reserve1 = read_word(data, 32);
    Some((catalog[i].pool_key, v2_state(&catalog[i], reserve0, reserve1, block)))
}

/// A V3 `Swap` log of a catalog pool: its block, the pool's entry and at
/// least 96 bytes of data are needed.
pub open spec fn swap_accepted(
    catalog: Seq<PoolCatalogEntry>,
    address: Address,
    block_number: Option<u64>,
    data: Seq<u8>,
) -> bool {
    block_number is Some && entry_index_of(catalog, address) is Some && data.len() >= 96
}

/// The pool update a V3 `Swap` log calls for: the price as the third data
/// word (after amount0 and amount1), at the log's block.
pub fn swap_update(
    catalog: &[PoolCatalogEntry],
    address: Address,
    block_number: Option<u64>,
    data: &[u8],
) -> (r: Option<(PoolKey, PoolState)>)
    ensures
        r is Some <==> swap_accepted(catalog@, address, block_number, data@),
        r matches Some((key, st)) ==> ({
            let e = catalog@[entry_index_of(catalog@, address).unwrap()];
            &&& key == e.pool_key
            &&& is_v3_state_for(st, e, data_word(data@, 64), block_number.unwrap())
        }),
{
    let block = match block_number {
        Some(b) => b,
        None => return None,
    };
    let i = match find_entry(catalog, address) {
        Some(i) => i,
        None => return None,
    };
    // data: amount0, amount1, sqrtPriceX96, liquidity, tick
    if data.len() < 96 {
        return None;
    }
    let sqrt_price_x96 = read_word(data, 64);
    Some((catalog[i].pool_key, v3_state(&catalog[i], sqrt_price_x96, block)))
}


/// A sum capped at 2^256 - 1.
pub open spec fn sat_add(a: nat, b: nat) -> nat {
    if a + b <= u256_max() {
        a + b
    } else {
        u256_max()
    }
}

/// A difference floored at zero.
pub open spec fn sat_sub(a: nat, b: nat) -> nat {
    if a >= b {
        (a - b) as nat
    } else {
        0
    }
}

/// The values of a list of balances.
pub open spec fn balance_values(v: Seq<U256>) -> Seq<nat> {
    v.map_values(|u: U256| u@)
}

/// Curve balances after a `TokenExchange`: the sold coin's balance grows by
/// the amount sold, then the bought coin's balance shrinks by the amount
/// bought, both saturating.
pub open spec fn exchange_balances(
    b: Seq<nat>,
    sold: int,
    sold_amount: nat,
    bought: int,
    bought_amount: nat,
) -> Seq<nat> {
    let b1 = b.update(sold, sat_add(b[sold], sold_amount));
    b1.update(bought, sat_sub(b1[bought], bought_amount))
}

/// A Curve `TokenExchange(buyer, sold_id, tokens_sold, bought_id,
/// tokens_bought)` log is applied when it has a block, comes from a catalog
/// pool whose Curve state is held, carries 128 bytes of data, and both coin
/// indices (the low bytes of the first and third words) are in range.
pub open spec fn token_exchange_accepted(
    pools: Map<PoolKey, PoolState>,
    catalog: Seq<PoolCatalogEntry>,
    address: Address,
    block_number: Option<u64>,
    data: Seq<u8>,
) -> bool {
    &&& block_number is Some
    &&& entry_index_of(catalog, address) is Some
    &&& data.len() >= 128
    &&& {
        let key = catalog[entry_index_of(catalog, address).unwrap()].pool_key;
        &&& pools.contains_key(key)
        &&& pools[key] matches PoolState::Curve { balances, .. }
        &&& data[31] < balances@.len()
        &&& data[95] < balances@.len()
    }
}

/// The pool update a Curve `TokenExchange` log calls for, or `None` when
/// the log is dropped.
pub fn token_exchange_update(
    registry: &PoolRegistry,
    catalog: &[PoolCatalogEntry],
    address: Address,
    block_number: Option<u64>,
    data: &[u8],
) -> (r: Option<(PoolKey, PoolState)>)
    ensures
        r is Some <==> token_exchange_accepted(registry@, catalog@, address, block_number, data@),
        r matches Some((key, st)) ==> ({
            let e = catalog@[entry_index_of(catalog@, address).unwrap()];
            &&& key == e.pool_key
            &&& registry@[key] matches PoolState::Curve { balances: old_balances, .. }
            &&& st matches PoolState::Curve { balances, last_block }
            &&& last_block == block_number.unwrap()
            &&& balance_values(balances@) == exchange_balances(
                balance_values(old_balances@),
                data@[31] as int,
                data_word(data@, 32),
                data@[95] as int,
                data_word(data@, 96),
            )
        }),
{
    let block = match block_number {
        Some(b) => b,
        None => return None,
    };
    let i = match find_entry(catalog, address) {
        Some(i) => i,
        None => return None,
    };
    // data: sold_id, tokens_sold, bought_id, tokens_bought
    if data.len() < 128 {
        return None;
    }
    let key = catalog[i].pool_key;
    let sold_id = data[31] as usize;
    let tokens_sold = read_word(data, 32);
    let bought_id = data[95] as usize;
    let tokens_bought = read_word(data, 96);
    match registry.get(key) {
        Some(PoolState::Curve { balances, .. }) => {
            let n = balances.len();
            if sold_id >= n || bought_id >= n {
                return None;
            }
            let mut new_balances: Vec<U256> = Vec::new();
            let mut k: usize = 0;
            while k < n
                invariant
                    k <= n,
                    n == balances@.len(),
                    new_balances@ == balances@.subrange(0, k as int),
                decreases n - k,
            {
                new_balances.push(balances[k]);
                k = k + 1;
            }
            assert(new_balances@ =~= balances@);
            let ghost start = balance_values(new_balances@);
            let added = new_balances[sold_id].saturating_add(tokens_sold);
            new_balances.set(sold_id, added);
            let ghost mid = balance_values(new_balances@);
            assert(mid =~= start.update(sold_id as int, sat_add(start[sold_id as int], tokens_sold@)));
            let taken = new_balances[bought_id].saturating_sub(tokens_bought);
            new_balances.set(bought_id, taken);
            assert(balance_values(new_balances@) =~= mid.update(
                bought_id as int,
                sat_sub(mid[bought_id as int], tokens_bought@),
            ));
            Some((key, PoolState::Curve { balances: new_balances, last_block: block }))
        },
        _ => None,
    }
}

// ─── Stale reserve refresh ────────────────────────────────────────────────────

/// Blocks after which a pool's state counts as stale.
pub const STALE_BLOCK_THRESHOLD: u64 = 50;

/// A pool needs refreshing when its state is missing or more than
/// `STALE_BLOCK_THRESHOLD` blocks behind `current_block`.
pub open spec fn is_stale_spec(pools: Map<PoolKey, PoolState>, key: PoolKey, current_block: u64) -> bool {
    !pools.contains_key(key) || current_block - crate::types::state_block(pools[key])
        > STALE_BLOCK_THRESHOLD
}

/// Whether the pool must be read again from chain.
pub fn pool_is_stale(registry: &PoolRegistry, key: PoolKey, current_block: u64) -> (r: bool)
    ensures
        r == is_stale_spec(registry@, key, current_block),
{
    match registry.get(key) {
        Some(state) => current_block.saturating_sub(state.last_block()) > STALE_BLOCK_THRESHOLD,
        None => true,
    }
}

/// The Curve state of a pool with freshly read balances.
pub fn curve_state(balances: Vec<U256>, block: u64) -> (r: PoolState)
    ensures
        r matches PoolState::Curve { balances: b, last_block } && b@ == balances@ && last_block
            == block,
{
    PoolState::Curve { balances, last_block: block }
}

// ─── Token ordering check ─────────────────────────────────────────────────────

/// Which token of a pool was not the one the catalog expects.
#[derive(Clone, Copy, Debug, PartialEq, Eq, Structural)]
pub enum TokenMismatch {
    Token0 { found: Address, expected: Address },
    Token1 { found: Address, expected: Address },
}

/// Curve pools name their coins by `coins(i)`, not `token0`/`token1`, so
/// only V2 and V3 pools have their token order checked.
pub fn needs_token_check(entry: &PoolCatalogEntry) -> (r: bool)
    ensures
        r == (entry.dex_type != DexType::CurveStableswap),
{
    entry.dex_type != DexType::CurveStableswap
}

/// Compare the on-chain token order of a pool with the catalog: token0 is
/// checked first.
pub fn check_pool_tokens(entry: &PoolCatalogEntry, token0: Address, token1: Address) -> (r: Result<
    (),
    TokenMismatch,
>)
    ensures
        r is Ok <==> token0 == entry.expected_token0 && token1 == entry.expected_token1,
        token0 != entry.expected_token0 ==> r == Err::<(), TokenMismatch>(
            TokenMismatch::Token0 { found: token0, expected: entry.expected_token0 },
        ),
        token0 == entry.expected_token0 && token1 != entry.expected_token1 ==> r == Err::<
            (),
            TokenMismatch,
        >(TokenMismatch::Token1 { found: token1, expected: entry.expected_token1 }),
{
    if token0 != entry.expected_token0 {
        return Err(TokenMismatch::Token0 { found: token0, expected: entry.expected_token0 });
    }
    if token1 != entry.expected_token1 {
        return Err(TokenMismatch::Token1 { found: token1, expected: entry.expected_token1 });
    }
    Ok(())
}


// ─── Event topics ─────────────────────────────────────────────────────────────

/// The Keccak-256 digest of some bytes, as `ethers_core::utils::keccak256`
/// computes it.
pub uninterp spec fn keccak256_spec(data: Seq<u8>) -> Seq<u8>;

/// Keccak-256 of `data`.
///
/// Calls `ethers_core::utils::keccak256`; its result is taken to be a
/// function of the bytes alone, named `keccak256_spec`.
#[verifier::external_body]
fn keccak256(data: &[u8]) -> (r: [u8; 32])
    ensures
        r@ == keccak256_spec(data@),
{
    ethers_core::utils::keccak256(data)
}

/// The pool events the scanner follows.
#[derive(Clone, Copy, Debug, PartialEq, Eq, Structural)]
pub enum PoolEvent {
    /// Uniswap V2 `Sync(uint112,uint112)`: new reserves.
    Sync,
    /// Uniswap V3 `Swap(...)`: new price.
    Swap,
    /// Curve `TokenExchange(...)`: a trade between two coins.
    TokenExchange,
}

/// The Solidity signature whose hash is an event's first topic.
pub open spec fn event_signature(e: PoolEvent) -> Seq<char> {
    match e {
        PoolEvent::Sync => "Sync(uint112,uint112)"@,
        PoolEvent::Swap => "Swap(address,address,int256,int256,uint160,uint128,int24)"@,
        PoolEvent::TokenExchange => "TokenExchange(address,int128,uint256,int128,uint256)"@,
    }
}

/// The first topic of each followed event.
pub struct EventTopics {
    pub sync: [u8; 32],
    pub swap: [u8; 32],
    pub token_exchange: [u8; 32],
}

/// The topics are the hashes of the events' signatures.
pub open spec fn topics_hash_signatures(t: EventTopics) -> bool {
    &&& t.sync@ == keccak256_spec(vstd::utf8::encode_utf8(event_signature(PoolEvent::Sync)))
    &&& t.swap@ == keccak256_spec(vstd::utf8::encode_utf8(event_signature(PoolEvent::Swap)))
    &&& t.token_exchange@ == keccak256_spec(
        vstd::utf8::encode_utf8(event_signature(PoolEvent::TokenExchange)),
    )
}

impl EventTopics {
    /// The topics of `Sync`, `Swap` and `TokenExchange`.
    pub fn new() -> (r: EventTopics)
        ensures
            topics_hash_signatures(r),
    {
        let sync = keccak256("Sync(uint112,uint112)".as_bytes());
        let swap = keccak256("Swap(address,address,int256,int256,uint160,uint128,int24)".as_bytes());
        let token_exchange = keccak256(
            "TokenExchange(address,int128,uint256,int128,uint256)".as_bytes(),
        );
        EventTopics { sync, swap, token_exchange }
    }

    /// Which followed event a log is, by its first topic; `None` for a log
    /// without topics or of another event. Sync is tried first, then Swap,
    /// then TokenExchange.
    pub fn classify(&self, topic0: Option<[u8; 32]>) -> (r: Option<PoolEvent>)
        ensures
            r == match topic0 {
                None => None,
                Some(t) => if t@ == self.sync@ {
                    Some(PoolEvent::Sync)
                } else if t@ == self.swap@ {
                    Some(PoolEvent::Swap)
                } else if t@ == self.token_exchange@ {
                    Some(PoolEvent::TokenExchange)
                } else {
                    None
                },
            },
    {
        match topic0 {
            None => None,
            Some(t) => {
                if bytes32_eq(&t, &self.sync) {
                    Some(PoolEvent::Sync)
                } else if bytes32_eq(&t, &self.swap) {
                    Some(PoolEvent::Swap)
                } else if bytes32_eq(&t, &self.token_exchange) {
                    Some(PoolEvent::TokenExchange)
                } else {
                    None
                }
            },
        }
    }
}

/// Whether two 32-byte words are equal.
fn bytes32_eq(a: &[u8; 32], b: &[u8; 32]) -> (r: bool)
    ensures
        r == (a@ == b@),
{
    let mut i: usize = 0;
    while i < 32
        invariant
            i <= 32,
            forall|j: int| 0 <= j < i ==> a@[j] == b@[j],
        decreases 32 - i,
    {
        if a[i] != b[i] {
            return false;
        }
        i = i + 1;
    }
    assert(a@ =~= b@);
    true
}

} // verus!
