//! Chains, pools, pool states, paths and opportunities.
use vstd::prelude::*;

use crate::u256::U256;

verus! {

/// A 20-byte account address, most significant bytes first:
/// `hi` holds bytes 0..4, `mid` bytes 4..12 and `lo` bytes 12..20.
#[derive(Clone, Copy, Debug, PartialEq, Eq, Hash, Structural)]
pub struct Address {
    pub hi: u32,
    pub mid: u64,
    pub lo: u64,
}

impl Address {
    /// The address made of the three big-endian parts.
    pub fn new(hi: u32, mid: u64, lo: u64) -> (r: Address)
        ensures
            r == (Address { hi, mid, lo }),
    {
        Address { hi, mid, lo }
    }

    /// The zero address.
    pub fn zero() -> (r: Address)
        ensures
            r == (Address { hi: 0, mid: 0, lo: 0 }),
    {
        Address { hi: 0, mid: 0, lo: 0 }
    }

    /// Whether this is the zero address.
    pub fn is_zero(&self) -> (r: bool)
        ensures
            r == (*self == Address { hi: 0, mid: 0, lo: 0 }),
    {
        self.hi == 0 && self.mid == 0 && self.lo == 0
    }
}

/// A chain the scanner watches.
#[derive(Clone, Copy, Debug, PartialEq, Eq, Hash, Structural)]
pub enum ChainId {
    Ethereum,
    Arbitrum,
    Base,
    Polygon,
}

/// The lower-case name of a chain.
pub open spec fn chain_name(chain: ChainId) -> Seq<char> {
    match chain {
        ChainId::Ethereum => "ethereum"@,
        ChainId::Arbitrum => "arbitrum"@,
        ChainId::Base => "base"@,
        ChainId::Polygon => "polygon"@,
    }
}

impl ChainId {
    /// The lower-case name used in logs and in the database.
    pub fn name(&self) -> (r: &'static str)
        ensures
            r@ == chain_name(*self),
    {
        match self {
            ChainId::Ethereum => "ethereum",
            ChainId::Arbitrum => "arbitrum",
            ChainId::Base => "base",
            ChainId::Polygon => "polygon",
        }
    }
}

/// The environment variable that holds a chain's WebSocket RPC URL.
pub open spec fn ws_url_var_text(chain: ChainId) -> Seq<char> {
    match chain {
        ChainId::Ethereum => "ETH_WS_URL"@,
        ChainId::Arbitrum => "ARBITRUM_WS_URL"@,
        ChainId::Base => "BASE_WS_URL"@,
        ChainId::Polygon => "POLYGON_WS_URL"@,
    }
}

impl ChainId {
    /// The environment variable that holds this chain's WebSocket RPC URL.
    pub fn ws_url_var(&self) -> (r: &'static str)
        ensures
            r@ == ws_url_var_text(*self),
    {
        match self {
            ChainId::Ethereum => "ETH_WS_URL",
            ChainId::Arbitrum => "ARBITRUM_WS_URL",
            ChainId::Base => "BASE_WS_URL",
            ChainId::Polygon => "POLYGON_WS_URL",
        }
    }
}

/// Every chain, in the order they are started and reported.
pub fn all_chains() -> (r: Vec<ChainId>)
    ensures
        r@ == seq![ChainId::Ethereum, ChainId::Arbitrum, ChainId::Base, ChainId::Polygon],
{
    vec![ChainId::Ethereum, ChainId::Arbitrum, ChainId::Base, ChainId::Polygon]
}

/// The pricing model of a pool.
#[derive(Clone, Copy, Debug, PartialEq, Eq, Structural)]
pub enum DexType {
    UniswapV2,
    UniswapV3,
    CurveStableswap,
}

/// A pool, identified by its chain and contract address.
#[derive(Clone, Copy, Debug, PartialEq, Eq, Hash, Structural)]
pub struct PoolKey {
    pub chain: ChainId,
    pub address: Address,
}

impl PoolKey {
    /// The key of the pool at `address` on `chain`.
    pub fn new(chain: ChainId, address: Address) -> (r: PoolKey)
        ensures
            r == (PoolKey { chain, address }),
    {
        PoolKey { chain, address }
    }
}

/// What is known of a pool at some block.
#[derive(Clone, Debug)]
pub enum PoolState {
    V2 {
        reserve0: U256,
        reserve1: U256,
        /// Kept so that a quote can tell the reserve direction from the hop's tokens.
        token0: Address,
        token1: Address,
        last_block: u64,
    },
    V3 {
        sqrt_price_x96: U256,
        fee_tier: u32,
        token0: Address,
        token1: Address,
        last_block: u64,
    },
    Curve { balances: Vec<U256>, last_block: u64 },
}

/// The block at which a pool state was observed.
pub open spec fn state_block(s: PoolState) -> u64 {
    match s {
        PoolState::V2 { last_block, .. } => last_block,
        PoolState::V3 { last_block, .. } => last_block,
        PoolState::Curve { last_block, .. } => last_block,
    }
}

/// Two states hold the same values: equal, or for Curve pools, balances
/// with the same values at the same block.
pub open spec fn same_state(a: PoolState, b: PoolState) -> bool {
    match (a, b) {
        (
            PoolState::Curve { balances: b1, last_block: l1 },
            PoolState::Curve { balances: b2, last_block: l2 },
        ) => b1@ == b2@ && l1 == l2,
        (PoolState::Curve { .. }, _) => false,
        _ => a == b,
    }
}

impl PoolState {
    /// A copy holding the same values.
    pub fn duplicate(&self) -> (r: PoolState)
        ensures
            same_state(*self, r),
    {
        match self {
            PoolState::V2 { reserve0, reserve1, token0, token1, last_block } => PoolState::V2 {
                reserve0: *reserve0,
                reserve1: *reserve1,
                token0: *token0,
                token1: *token1,
                last_block: *last_block,
            },
            PoolState::V3 { sqrt_price_x96, fee_tier, token0, token1, last_block } => PoolState::V3 {
                sqrt_price_x96: *sqrt_price_x96,
                fee_tier: *fee_tier,
                token0: *token0,
                token1: *token1,
                last_block: *last_block,
            },
            PoolState::Curve { balances, last_block } => {
                let mut copy: Vec<U256> = Vec::new();
                let mut i: usize = 0;
                while i < balances.len()
                    invariant
                        i <= balances@.len(),
                        copy@ == balances@.subrange(0, i as int),
                    decreases balances@.len() - i,
                {
                    copy.push(balances[i]);
                    i = i + 1;
                }
                assert(copy@ =~= balances@);
                PoolState::Curve { balances: copy, last_block: *last_block }
            },
        }
    }

    /// The block at which this state was observed.
    pub fn last_block(&self) -> (r: u64)
        ensures
            r == state_block(*self),
    {
        match self {
            PoolState::V2 { last_block, .. } => *last_block,
            PoolState::V3 { last_block, .. } => *last_block,
            PoolState::Curve { last_block, .. } => *last_block,
        }
    }
}

/// One swap of a path: sell `token_in` for `token_out` in one pool.
#[derive(Clone, Copy, Debug, PartialEq, Eq, Structural)]
pub struct HopSpec {
    pub pool_key: PoolKey,
    pub dex_type: DexType,
    pub token_in: Address,
    pub token_out: Address,
}

/// A named cycle of swaps on one chain.
#[derive(Clone, Debug)]
pub struct ArbPath {
    pub name: &'static str,
    pub chain: ChainId,
    pub hops: Vec<HopSpec>,
}

/// The estimated outcome of running a path with one input size.
///
/// `gross_profit_wei` (output minus input) over the input is the return on
/// investment, and `gas_cost_wei` priced in USD is the gas cost; both are
/// turned into decimals only where they are shown or stored.
#[derive(Clone, Copy, Debug)]
pub struct ArbOpportunity {
    /// "WETH→USDC→DAI→WETH" or similar.
    pub path: &'static str,
    pub chain: ChainId,
    pub input_weth: U256,
    /// Output minus input, in wei, before gas.
    pub gross_profit_wei: i128,
    /// Output minus input minus gas, in wei; may be negative.
    pub estimated_net_after_gas: i128,
    /// Gas price times the gas units of a three-hop swap, in wei.
    pub gas_cost_wei: U256,
    pub timestamp: u64,
}


/// A scanner run, named by its start.
#[derive(Clone, Debug)]
pub struct SessionInfo {
    pub id: String,
    pub started_at: u64,
}

/// Whether an opportunity clears its gas cost.
pub open spec fn is_profitable(opp: ArbOpportunity) -> bool {
    opp.estimated_net_after_gas > 0
}

/// The best opportunity after recording `opps` in turn, starting from
/// `best`: a profitable opportunity replaces the best when there is none
/// yet or when it nets strictly more.
pub open spec fn best_after(best: Option<ArbOpportunity>, opps: Seq<ArbOpportunity>) -> Option<
    ArbOpportunity,
>
    decreases opps.len(),
{
    if opps.len() == 0 {
        best
    } else {
        let prev = best_after(best, opps.drop_last());
        let opp = opps.last();
        if is_profitable(opp) && (prev is None || opp.estimated_net_after_gas
            > prev.unwrap().estimated_net_after_gas) {
            Some(opp)
        } else {
            prev
        }
    }
}

/// How many of `opps` are profitable.
pub open spec fn count_profitable(opps: Seq<ArbOpportunity>) -> nat
    decreases opps.len(),
{
    if opps.len() == 0 {
        0
    } else {
        count_profitable(opps.drop_last()) + if is_profitable(opps.last()) {
            1nat
        } else {
            0nat
        }
    }
}

/// Counters of a scanner run.
#[derive(Debug)]
pub struct SessionStats {
    pub blocks_scanned: u64,
    pub opps_found: u64,
    pub best_opp: Option<ArbOpportunity>,
}

impl SessionStats {
    /// Nothing counted yet.
    pub fn new() -> (r: SessionStats)
        ensures
            r.blocks_scanned == 0,
            r.opps_found == 0,
            r.best_opp is None,
    {
        SessionStats { blocks_scanned: 0, opps_found: 0, best_opp: None }
    }

    /// Count one more scanned block.
    pub fn record_block(&mut self)
        requires
            old(self).blocks_scanned < u64::MAX,
        ensures
            final(self).blocks_scanned == old(self).blocks_scanned + 1,
            final(self).opps_found == old(self).opps_found,
            final(self).best_opp == old(self).best_opp,
    {
        self.blocks_scanned = self.blocks_scanned + 1;
    }

    /// Count the profitable opportunities of one scan and keep the one that
    /// nets the most.
    pub fn record_opportunities(&mut self, opps: &Vec<ArbOpportunity>)
        requires
            old(self).opps_found + count_profitable(opps@) <= u64::MAX,
        ensures
            final(self).blocks_scanned == old(self).blocks_scanned,
            final(self).opps_found == old(self).opps_found + count_profitable(opps@),
            final(self).best_opp == best_after(old(self).best_opp, opps@),
    {
        let mut i: usize = 0;
        while i < opps.len()
            invariant
                i <= opps@.len(),
                self.blocks_scanned == old(self).blocks_scanned,
                self.opps_found == old(self).opps_found + count_profitable(opps@.subrange(0, i as int)),
                self.best_opp == best_after(old(self).best_opp, opps@.subrange(0, i as int)),
                old(self).opps_found + count_profitable(opps@) <= u64::MAX,
            decreases opps@.len() - i,
        {
            let opp = opps[i];
            proof {
                let pre = opps@.subrange(0, i as int);
                let next = opps@.subrange(0, i + 1);
                assert(next.drop_last() =~= pre);
                assert(next.last() == opp);
                lemma_count_profitable_prefix(opps@, i as int + 1);
            }
            if opp.estimated_net_after_gas > 0 {
                self.opps_found = self.opps_found + 1;
                let is_better = match &self.best_opp {
                    Some(b) => opp.estimated_net_after_gas > b.estimated_net_after_gas,
                    None => true,
                };
                if is_better {
                    self.best_opp = Some(opp);
                }
            }
            i = i + 1;
        }
        assert(opps@.subrange(0, opps@.len() as int) =~= opps@);
    }
}

/// A prefix counts no more profitable opportunities than the whole list.
pub proof fn lemma_count_profitable_prefix(opps: Seq<ArbOpportunity>, n: int)
    requires
        0 <= n <= opps.len(),
    ensures
        count_profitable(opps.subrange(0, n)) <= count_profitable(opps),
    decreases opps.len() - n,
{
    if n < opps.len() {
        lemma_count_profitable_prefix(opps, n + 1);
        let next = opps.subrange(0, n + 1);
        assert(next.drop_last() =~= opps.subrange(0, n));
    } else {
        assert(opps.subrange(0, n) =~= opps);
    }
}

proof fn lemma_profitable_counted(opps: Seq<ArbOpportunity>, i: int)
    requires
        0 <= i < opps.len(),
        is_profitable(opps[i]),
    ensures
        count_profitable(opps) > 0,
    decreases opps.len(),
{
    if i < opps.len() - 1 {
        let rest = opps.drop_last();
        assert(rest[i] == opps[i]);
        lemma_profitable_counted(rest, i);
    }
}

/// The kept best opportunity is profitable and nets at least as much as
/// every profitable opportunity recorded, and the best held before; it is
/// absent only when none was held and none recorded is profitable.
pub proof fn lemma_best_is_max(best: Option<ArbOpportunity>, opps: Seq<ArbOpportunity>)
    requires
        best matches Some(b) ==> is_profitable(b),
    ensures
        best_after(best, opps) matches Some(m) ==> is_profitable(m),
        best_after(best, opps) matches Some(m) ==> (best matches Some(b)
            ==> b.estimated_net_after_gas <= m.estimated_net_after_gas),
        best_after(best, opps) matches Some(m) ==> forall|i: int|
            0 <= i < opps.len() && is_profitable(#[trigger] opps[i]) ==> opps[i].estimated_net_after_gas
                <= m.estimated_net_after_gas,
        best_after(best, opps) is None <==> best is None && count_profitable(opps) == 0,
    decreases opps.len(),
{
    if opps.len() > 0 {
        let rest = opps.drop_last();
        lemma_best_is_max(best, rest);
        let prev = best_after(best, rest);
        if let Some(m) = best_after(best, opps) {
            assert(prev matches Some(p) ==> p.estimated_net_after_gas <= m.estimated_net_after_gas);
            assert forall|i: int|
                0 <= i < opps.len() && is_profitable(
                    #[trigger] opps[i],
                ) implies opps[i].estimated_net_after_gas <= m.estimated_net_after_gas by {
                if i < rest.len() {
                    assert(rest[i] == opps[i]);
                    lemma_profitable_counted(rest, i);
                } else {
                    assert(opps[i] == opps.last());
                }
            }
        }
    }
}

// ─── The counters over a whole run ───────────────────────────────────────────

/// The opportunities of several scans, in the order they were recorded.
pub open spec fn concat_scans(scans: Seq<Seq<ArbOpportunity>>) -> Seq<ArbOpportunity>
    decreases scans.len(),
{
    if scans.len() == 0 {
        seq![]
    } else {
        concat_scans(scans.drop_last()) + scans.last()
    }
}

/// `opps_found` and `best_opp` of a run that starts from `SessionStats::new()`
/// and records each scan in turn with `record_opportunities`.
pub open spec fn stats_after(scans: Seq<Seq<ArbOpportunity>>) -> (nat, Option<ArbOpportunity>)
    decreases scans.len(),
{
    if scans.len() == 0 {
        (0, None)
    } else {
        let prev = stats_after(scans.drop_last());
        (prev.0 + count_profitable(scans.last()), best_after(prev.1, scans.last()))
    }
}

proof fn lemma_count_concat(a: Seq<ArbOpportunity>, b: Seq<ArbOpportunity>)
    ensures
        count_profitable(a + b) == count_profitable(a) + count_profitable(b),
    decreases b.len(),
{
    if b.len() == 0 {
        assert(a + b =~= a);
    } else {
        lemma_count_concat(a, b.drop_last());
        assert((a + b).drop_last() =~= a + b.drop_last());
        assert((a + b).last() == b.last());
    }
}

proof fn lemma_best_concat(best: Option<ArbOpportunity>, a: Seq<ArbOpportunity>, b: Seq<ArbOpportunity>)
    ensures
        best_after(best, a + b) == best_after(best_after(best, a), b),
    decreases b.len(),
{
    if b.len() == 0 {
        assert(a + b =~= a);
    } else {
        lemma_best_concat(best, a, b.drop_last());
        assert((a + b).drop_last() =~= a + b.drop_last());
        assert((a + b).last() == b.last());
    }
}

proof fn lemma_best_earliest(opps: Seq<ArbOpportunity>)
    ensures
        best_after(None, opps) matches Some(m) ==> exists|j: int|
            0 <= j < opps.len() && opps[j] == m && forall|i: int|
                0 <= i < j && is_profitable(#[trigger] opps[i]) ==> opps[i].estimated_net_after_gas
                    < m.estimated_net_after_gas,
    decreases opps.len(),
{
    if opps.len() > 0 {
        let rest = opps.drop_last();
        lemma_best_earliest(rest);
        lemma_best_is_max(None, rest);
        let prev = best_after(None, rest);
        if let Some(m) = best_after(None, opps) {
            let last = opps.last();
            if is_profitable(last) && (prev is None || last.estimated_net_after_gas
                > prev.unwrap().estimated_net_after_gas) {
                let j = opps.len() - 1;
                assert forall|i: int|
                    0 <= i < j && is_profitable(#[trigger] opps[i]) implies opps[i].estimated_net_after_gas
                    < m.estimated_net_after_gas by {
                    assert(rest[i] == opps[i]);
                    if prev is None {
                        lemma_profitable_counted(rest, i);
                    }
                }
                assert(opps[j] == m);
            } else {
                let j = choose|j: int|
                    0 <= j < rest.len() && rest[j] == m && forall|i: int|
                        0 <= i < j && is_profitable(#[trigger] rest[i]) ==> rest[i].estimated_net_after_gas
                            < m.estimated_net_after_gas;
                assert(opps[j] == m);
                assert forall|i: int|
                    0 <= i < j && is_profitable(#[trigger] opps[i]) implies opps[i].estimated_net_after_gas
                    < m.estimated_net_after_gas by {
                    assert(rest[i] == opps[i]);
                }
            }
        }
    }
}

/// Over a whole run from `SessionStats::new()`, recording scan after scan:
/// `opps_found` is the number of profitable opportunities seen, and
/// `best_opp` is absent exactly when there was none; otherwise it is one of
/// them, nets at least as much as every one, and is the earliest of those
/// that net the most.
pub proof fn lemma_run_counters(scans: Seq<Seq<ArbOpportunity>>)
    ensures
        stats_after(scans).0 == count_profitable(concat_scans(scans)),
        stats_after(scans).1 == best_after(None, concat_scans(scans)),
        stats_after(scans).1 is None <==> count_profitable(concat_scans(scans)) == 0,
        stats_after(scans).1 matches Some(m) ==> {
            let all = concat_scans(scans);
            &&& is_profitable(m)
            &&& forall|i: int|
                0 <= i < all.len() && is_profitable(#[trigger] all[i]) ==> all[i].estimated_net_after_gas
                    <= m.estimated_net_after_gas
            &&& exists|j: int|
                0 <= j < all.len() && all[j] == m && forall|i: int|
                    0 <= i < j && is_profitable(#[trigger] all[i]) ==> all[i].estimated_net_after_gas
                        < m.estimated_net_after_gas
        },
    decreases scans.len(),
{
    if scans.len() > 0 {
        lemma_run_counters(scans.drop_last());
        lemma_count_concat(concat_scans(scans.drop_last()), scans.last());
        lemma_best_concat(None, concat_scans(scans.drop_last()), scans.last());
    }
    lemma_best_is_max(None, concat_scans(scans));
    lemma_best_earliest(concat_scans(scans));
}

} // verus!
