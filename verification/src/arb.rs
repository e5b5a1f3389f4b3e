//! Triangular arbitrage over three Uniswap V2 pairs, and gas accounting.
use vstd::prelude::*;

use crate::dex::{quote, quote_spec};
use crate::dex::v2::{amm_out_spec, self};
use crate::pools::PoolRegistry;
use crate::config::{ethereum, is_paths_of};
use crate::types::{state_block, Address, ArbOpportunity, ArbPath, ChainId, HopSpec, PoolKey, PoolState};
use crate::u256::{low_128, opt_value, u256_max, U256};

verus! {

/// Maximum block difference across pools before skipping arb calculation.
pub const MAX_BLOCK_SKEW: u64 = 3;

/// Gas units estimated for a 3-hop triangular arb.
pub const GAS_UNITS: u64 = 150_000;

/// Name of the path WETH → USDC → DAI → WETH.
pub const FORWARD_PATH: &'static str = "WETH→USDC→DAI→WETH";

/// Name of the path WETH → DAI → USDC → WETH.
pub const REVERSE_PATH: &'static str = "WETH→DAI→USDC→WETH";

// ─── AMM formula ─────────────────────────────────────────────────────────────

/// Uniswap V2 constant-product output with 0.3% fee, as in `dex::v2`.
pub fn amm_out(amount_in: U256, reserve_in: U256, reserve_out: U256) -> (r: Option<U256>)
    ensures
        opt_value(r) == amm_out_spec(amount_in@, reserve_in@, reserve_out@),
{
    v2::amm_out(amount_in, reserve_in, reserve_out)
}

// ─── The three pairs ─────────────────────────────────────────────────────────

/// The three pairs of the triangle.
///
/// Reserve layout:
///   WethUsdc: token0=USDC, token1=WETH
///   UsdcDai:  token0=DAI,  token1=USDC
///   DaiWeth:  token0=DAI,  token1=WETH
#[derive(Clone, Copy, Debug, PartialEq, Eq, Structural)]
pub enum PoolId {
    WethUsdc,
    UsdcDai,
    DaiWeth,
}

/// The reserves of one pair and the block they were read at.
#[derive(Clone, Copy, Debug, PartialEq, Eq, Structural)]
pub struct PairReserves {
    pub reserve0: U256,
    pub reserve1: U256,
    pub last_block: u64,
}

/// The known state of each pair of the triangle, if any.
#[derive(Clone, Copy, Debug)]
pub struct TrianglePools {
    pub weth_usdc: Option<PairReserves>,
    pub usdc_dai: Option<PairReserves>,
    pub dai_weth: Option<PairReserves>,
}

impl TrianglePools {
    /// The state held for one pair.
    pub open spec fn slot(self, id: PoolId) -> Option<PairReserves> {
        match id {
            PoolId::WethUsdc => self.weth_usdc,
            PoolId::UsdcDai => self.usdc_dai,
            PoolId::DaiWeth => self.dai_weth,
        }
    }

    /// No pair known.
    pub fn new() -> (r: TrianglePools)
        ensures
            forall|id: PoolId| #[trigger] r.slot(id) is None,
    {
        TrianglePools { weth_usdc: None, usdc_dai: None, dai_weth: None }
    }

    /// Record the state of one pair, replacing what was held for it.
    pub fn insert(&mut self, id: PoolId, state: PairReserves)
        ensures
            final(self).slot(id) == Some(state),
            forall|other: PoolId| other != id ==> #[trigger] final(self).slot(other) == old(
                self,
            ).slot(other),
    {
        match id {
            PoolId::WethUsdc => self.weth_usdc = Some(state),
            PoolId::UsdcDai => self.usdc_dai = Some(state),
            PoolId::DaiWeth => self.dai_weth = Some(state),
        }
    }

    /// The state held for one pair.
    pub fn get(&self, id: PoolId) -> (r: Option<PairReserves>)
        ensures
            r == self.slot(id),
    {
        match id {
            PoolId::WethUsdc => self.weth_usdc,
            PoolId::UsdcDai => self.usdc_dai,
            PoolId::DaiWeth => self.dai_weth,
        }
    }
}

// ─── Freshness guard ─────────────────────────────────────────────────────────

/// All three pairs are known and their blocks lie within `MAX_BLOCK_SKEW`
/// of each other.
pub open spec fn pools_fresh_spec(pools: TrianglePools) -> bool {
    match (pools.weth_usdc, pools.usdc_dai, pools.dai_weth) {
        (Some(a), Some(b), Some(c)) => {
            let lo = min3(a.last_block as int, b.last_block as int, c.last_block as int);
            let hi = max3(a.last_block as int, b.last_block as int, c.last_block as int);
            hi - lo <= MAX_BLOCK_SKEW
        },
        _ => false,
    }
}

/// The least of three integers.
pub open spec fn min3(a: int, b: int, c: int) -> int {
    if a <= b && a <= c {
        a
    } else if b <= c {
        b
    } else {
        c
    }
}

/// The greatest of three integers.
pub open spec fn max3(a: int, b: int, c: int) -> int {
    if a >= b && a >= c {
        a
    } else if b >= c {
        b
    } else {
        c
    }
}

/// Returns true if all pools exist and their last_block values are within
/// MAX_BLOCK_SKEW of each other.
pub fn pools_are_fresh(pools: &TrianglePools) -> (r: bool)
    ensures
        r == pools_fresh_spec(*pools),
        r == triangle_within_skew(*pools),
{
    let (a, b, c) = match (pools.weth_usdc, pools.usdc_dai, pools.dai_weth) {
        (Some(a), Some(b), Some(c)) => (a.last_block, b.last_block, c.last_block),
        _ => return false,
    };
    let min = if a <= b && a <= c {
        a
    } else if b <= c {
        b
    } else {
        c
    };
    let max = if a >= b && a >= c {
        a
    } else if b >= c {
        b
    } else {
        c
    };
    max - min <= MAX_BLOCK_SKEW
}

// ─── Path calculation ─────────────────────────────────────────────────────────

/// Three constant-product hops in a row, each fed the previous output.
pub open spec fn three_hops(
    input: nat,
    in1: nat,
    out1: nat,
    in2: nat,
    out2: nat,
    in3: nat,
    out3: nat,
) -> Option<nat> {
    match amm_out_spec(input, in1, out1) {
        None => None,
        Some(x) => match amm_out_spec(x, in2, out2) {
            None => None,
            Some(y) => amm_out_spec(y, in3, out3),
        },
    }
}

/// WETH → USDC → DAI → WETH over fresh pools.
pub open spec fn calc_forward_spec(pools: TrianglePools, input: nat) -> Option<nat> {
    if !pools_fresh_spec(pools) {
        None
    } else {
        let wu = pools.weth_usdc.unwrap();
        let ud = pools.usdc_dai.unwrap();
        let dw = pools.dai_weth.unwrap();
        three_hops(
            input,
            wu.reserve1@,
            wu.reserve0@,
            ud.reserve1@,
            ud.reserve0@,
            dw.reserve0@,
            dw.reserve1@,
        )
    }
}

/// WETH → DAI → USDC → WETH over fresh pools.
pub open spec fn calc_reverse_spec(pools: TrianglePools, input: nat) -> Option<nat> {
    if !pools_fresh_spec(pools) {
        None
    } else {
        let wu = pools.weth_usdc.unwrap();
        let ud = pools.usdc_dai.unwrap();
        let dw = pools.dai_weth.unwrap();
        three_hops(
            input,
            dw.reserve1@,
            dw.reserve0@,
            ud.reserve0@,
            ud.reserve1@,
            wu.reserve0@,
            wu.reserve1@,
        )
    }
}

/// All three pairs are held and no two were read more than
/// `MAX_BLOCK_SKEW` blocks apart.
pub open spec fn triangle_within_skew(pools: TrianglePools) -> bool {
    match (pools.weth_usdc, pools.usdc_dai, pools.dai_weth) {
        (Some(a), Some(b), Some(c)) => {
            &&& a.last_block <= b.last_block + MAX_BLOCK_SKEW
            &&& b.last_block <= a.last_block + MAX_BLOCK_SKEW
            &&& a.last_block <= c.last_block + MAX_BLOCK_SKEW
            &&& c.last_block <= a.last_block + MAX_BLOCK_SKEW
            &&& b.last_block <= c.last_block + MAX_BLOCK_SKEW
            &&& c.last_block <= b.last_block + MAX_BLOCK_SKEW
        },
        _ => false,
    }
}

/// The two round trips of the triangle, hop by hop. Each is `None` unless
/// all three pairs are held within `MAX_BLOCK_SKEW` blocks of each other.
/// Then the forward trip sells WETH for USDC in WETH/USDC (reserve1 in,
/// reserve0 out), that USDC for DAI in USDC/DAI (reserve1 in, reserve0 out)
/// and that DAI for WETH in DAI/WETH (reserve0 in, reserve1 out); the
/// reverse trip sells WETH for DAI in DAI/WETH (reserve1 in, reserve0 out),
/// that DAI for USDC in USDC/DAI (reserve0 in, reserve1 out) and that USDC
/// for WETH in WETH/USDC (reserve0 in, reserve1 out).
pub proof fn lemma_triangle_round_trips(pools: TrianglePools, x: nat)
    ensures
        pools_fresh_spec(pools) == triangle_within_skew(pools),
        calc_forward_spec(pools, x) is Some ==> triangle_within_skew(pools),
        calc_reverse_spec(pools, x) is Some ==> triangle_within_skew(pools),
        triangle_within_skew(pools) ==> {
            let wu = pools.weth_usdc.unwrap();
            let ud = pools.usdc_dai.unwrap();
            let dw = pools.dai_weth.unwrap();
            &&& calc_forward_spec(pools, x) == match amm_out_spec(x, wu.reserve1@, wu.reserve0@) {
                None => None,
                Some(usdc) => match amm_out_spec(usdc, ud.reserve1@, ud.reserve0@) {
                    None => None,
                    Some(dai) => amm_out_spec(dai, dw.reserve0@, dw.reserve1@),
                },
            }
            &&& calc_reverse_spec(pools, x) == match amm_out_spec(x, dw.reserve1@, dw.reserve0@) {
                None => None,
                Some(dai) => match amm_out_spec(dai, ud.reserve0@, ud.reserve1@) {
                    None => None,
                    Some(usdc) => amm_out_spec(usdc, wu.reserve0@, wu.reserve1@),
                },
            }
        },
{
}

/// The registry state of a triangle pair: a V2 state with the pair's
/// reserves and block, and the catalog's token order.
pub open spec fn holds_pair(m: Map<PoolKey, PoolState>, key: PoolKey, p: PairReserves, token0: Address, token1: Address) -> bool {
    &&& m.contains_key(key)
    &&& m[key] == PoolState::V2 {
        reserve0: p.reserve0,
        reserve1: p.reserve1,
        token0,
        token1,
        last_block: p.last_block,
    }
}

/// The triangle scan and the configured Ethereum paths agree: when a
/// registry holds the three V2 pairs with the triangle's reserves and
/// blocks, the forward round trip is what the first configured path
/// (WETH→USDC→DAI→WETH) yields over the registry, and the reverse round
/// trip is what the second (WETH→DAI→USDC→WETH) yields.
pub proof fn lemma_triangle_matches_configured_paths(
    pools: TrianglePools,
    m: Map<PoolKey, PoolState>,
    paths: Seq<ArbPath>,
    x: nat,
)
    requires
        is_paths_of(ChainId::Ethereum, paths),
        pools.weth_usdc matches Some(wu) && holds_pair(m, ethereum::pool_key_weth_usdc(), wu, ethereum::usdc(), ethereum::weth()),
        pools.usdc_dai matches Some(ud) && holds_pair(m, ethereum::pool_key_usdc_dai(), ud, ethereum::dai(), ethereum::usdc()),
        pools.dai_weth matches Some(dw) && holds_pair(m, ethereum::pool_key_dai_weth(), dw, ethereum::dai(), ethereum::weth()),
    ensures
        calc_forward_spec(pools, x) == execute_path_spec(m, paths[0].hops@, x),
        calc_reverse_spec(pools, x) == execute_path_spec(m, paths[1].hops@, x),
{
    let wu = pools.weth_usdc.unwrap();
    let ud = pools.usdc_dai.unwrap();
    let dw = pools.dai_weth.unwrap();
    let f = paths[0].hops@;
    let r = paths[1].hops@;
    assert(hops_fresh_spec(m, f) == pools_fresh_spec(pools)) by {
        if pools_fresh_spec(pools) {
            assert forall|a: int, b: int| 0 <= a < f.len() && 0 <= b < f.len() implies state_block(
                m[(#[trigger] f[a]).pool_key],
            ) - state_block(m[(#[trigger] f[b]).pool_key]) <= MAX_BLOCK_SKEW by {}
        }
        if hops_fresh_spec(m, f) {
            assert(state_block(m[f[0].pool_key]) == wu.last_block);
            assert(state_block(m[f[1].pool_key]) == ud.last_block);
            assert(state_block(m[f[2].pool_key]) == dw.last_block);
        }
    }
    assert(hops_fresh_spec(m, r) == pools_fresh_spec(pools)) by {
        if pools_fresh_spec(pools) {
            assert forall|a: int, b: int| 0 <= a < r.len() && 0 <= b < r.len() implies state_block(
                m[(#[trigger] r[a]).pool_key],
            ) - state_block(m[(#[trigger] r[b]).pool_key]) <= MAX_BLOCK_SKEW by {}
        }
        if hops_fresh_spec(m, r) {
            assert(state_block(m[r[0].pool_key]) == dw.last_block);
            assert(state_block(m[r[1].pool_key]) == ud.last_block);
            assert(state_block(m[r[2].pool_key]) == wu.last_block);
        }
    }
    if pools_fresh_spec(pools) {
        reveal_with_fuel(run_hops, 4);
        assert(f.drop_first().drop_first().drop_first().len() == 0);
        assert(r.drop_first().drop_first().drop_first().len() == 0);
        assert(f.drop_first()[0] == f[1]);
        assert(f.drop_first().drop_first()[0] == f[2]);
        assert(r.drop_first()[0] == r[1]);
        assert(r.drop_first().drop_first()[0] == r[2]);
    }
}

fn hop_chain(
    input: U256,
    in1: U256,
    out1: U256,
    in2: U256,
    out2: U256,
    in3: U256,
    out3: U256,
) -> (r: Option<U256>)
    ensures
        opt_value(r) == three_hops(input@, in1@, out1@, in2@, out2@, in3@, out3@),
{
    let x = match amm_out(input, in1, out1) {
        Some(x) => x,
        None => return None,
    };
    let y = match amm_out(x, in2, out2) {
        Some(y) => y,
        None => return None,
    };
    amm_out(y, in3, out3)
}

/// Forward path: WETH → USDC → DAI → WETH.
pub fn calc_forward(pools: &TrianglePools, input_weth: U256) -> (r: Option<U256>)
    ensures
        opt_value(r) == calc_forward_spec(*pools, input_weth@),
{
    if !pools_are_fresh(pools) {
        return None;
    }
    match (pools.weth_usdc, pools.usdc_dai, pools.dai_weth) {
        (Some(wu), Some(ud), Some(dw)) => {
            // Hop 1: WETH (reserve1) → USDC (reserve0) in WethUsdc
            // Hop 2: USDC (reserve1) → DAI (reserve0) in UsdcDai
            // Hop 3: DAI (reserve0) → WETH (reserve1) in DaiWeth
            hop_chain(
                input_weth,
                wu.reserve1,
                wu.reserve0,
                ud.reserve1,
                ud.reserve0,
                dw.reserve0,
                dw.reserve1,
            )
        },
        _ => None,
    }
}

/// Reverse path: WETH → DAI → USDC → WETH.
pub fn calc_reverse(pools: &TrianglePools, input_weth: U256) -> (r: Option<U256>)
    ensures
        opt_value(r) == calc_reverse_spec(*pools, input_weth@),
{
    if !pools_are_fresh(pools) {
        return None;
    }
    match (pools.weth_usdc, pools.usdc_dai, pools.dai_weth) {
        (Some(wu), Some(ud), Some(dw)) => {
            // Hop 1: WETH (reserve1) → DAI (reserve0) in DaiWeth
            // Hop 2: DAI (reserve0) → USDC (reserve1) in UsdcDai
            // Hop 3: USDC (reserve0) → WETH (reserve1) in WethUsdc
            hop_chain(
                input_weth,
                dw.reserve1,
                dw.reserve0,
                ud.reserve0,
                ud.reserve1,
                wu.reserve0,
                wu.reserve1,
            )
        },
        _ => None,
    }
}

// ─── Gas estimation ──────────────────────────────────────────────────────────

/// The low 128 bits of a value read as a two's-complement `i128`.
pub open spec fn lossy_i128(v: nat) -> int {
    let low = low_128(v);
    if low < 0x8000_0000_0000_0000_0000_0000_0000_0000 {
        low as int
    } else {
        low - 0x1_0000_0000_0000_0000_0000_0000_0000_0000
    }
}

/// The gas cost in wei of a three-hop swap, capped at 2^256 - 1.
pub open spec fn gas_cost_spec(gas_price: nat) -> nat {
    let product = gas_price * (GAS_UNITS as nat);
    if product <= u256_max() {
        product
    } else {
        u256_max()
    }
}

/// Output minus input, as signed wei.
pub open spec fn gross_profit_spec(gross: nat, input: nat) -> int {
    lossy_i128(gross) - lossy_i128(input)
}

/// Output minus input minus gas, as signed wei.
pub open spec fn net_after_gas_spec(gross: nat, input: nat, gas_price: nat) -> int {
    gross_profit_spec(gross, input) - lossy_i128(gas_cost_spec(gas_price))
}

/// The signed subtractions of the gas accounting stay within `i128`.
pub open spec fn gas_math_fits(gross: nat, input: nat, gas_price: nat) -> bool {
    i128::MIN <= gross_profit_spec(gross, input) <= i128::MAX && i128::MIN <= net_after_gas_spec(
        gross,
        input,
        gas_price,
    ) <= i128::MAX
}

/// An opportunity built by `apply_gas` from these arguments.
pub open spec fn is_gas_applied(
    opp: ArbOpportunity,
    gross: nat,
    input: nat,
    gas_price: nat,
    path: Seq<char>,
    chain: ChainId,
    timestamp: u64,
) -> bool {
    &&& opp.path@ == path
    &&& opp.chain == chain
    &&& opp.input_weth@ == input
    &&& opp.gross_profit_wei == gross_profit_spec(gross, input)
    &&& opp.estimated_net_after_gas == net_after_gas_spec(gross, input, gas_price)
    &&& opp.gas_cost_wei@ == gas_cost_spec(gas_price)
    &&& opp.timestamp == timestamp
}

/// For amounts below 2^127 the accounting is exact: the profit before gas
/// is the output minus the input, and after gas it is that minus the gas
/// price times `GAS_UNITS`, when that cost is below 2^127 too.
pub proof fn lemma_gas_accounting_exact(gross: nat, input: nat, gas_price: nat)
    requires
        gross < 0x8000_0000_0000_0000_0000_0000_0000_0000,
        input < 0x8000_0000_0000_0000_0000_0000_0000_0000,
        gas_price * GAS_UNITS < 0x8000_0000_0000_0000_0000_0000_0000_0000,
    ensures
        gross_profit_spec(gross, input) == gross - input,
        net_after_gas_spec(gross, input, gas_price) == gross - input - gas_price * GAS_UNITS,
{
    assert(0x8000_0000_0000_0000_0000_0000_0000_0000nat < crate::u256::base_128());
    assert(gas_price * GAS_UNITS <= u256_max());
    vstd::arithmetic::div_mod::lemma_small_mod(gross, crate::u256::base_128());
    vstd::arithmetic::div_mod::lemma_small_mod(input, crate::u256::base_128());
    vstd::arithmetic::div_mod::lemma_small_mod((gas_price * GAS_UNITS) as nat, crate::u256::base_128());
}

/// The low 128 bits of `v` as a two's-complement `i128`; exact for any
/// value below 2^127.
pub fn u256_to_i128_lossy(v: U256) -> (r: i128)
    ensures
        r == lossy_i128(v@),
{
    let low = v.low_u128();
    if low <= 0x7fff_ffff_ffff_ffff_ffff_ffff_ffff_ffff {
        low as i128
    } else {
        let above: u128 = low - 0x8000_0000_0000_0000_0000_0000_0000_0000;
        (above as i128) + i128::MIN
    }
}

/// Compute the signed profit before and after gas, and the gas cost in wei.
pub fn apply_gas(
    gross_weth: U256,
    input_weth: U256,
    gas_price: U256,
    path: &'static str,
    chain: ChainId,
    timestamp: u64,
) -> (r: ArbOpportunity)
    requires
        gas_math_fits(gross_weth@, input_weth@, gas_price@),
    ensures
        is_gas_applied(r, gross_weth@, input_weth@, gas_price@, path@, chain, timestamp),
{
    let gas_cost_wei = gas_price.saturating_mul(U256::from_u64(GAS_UNITS));

    let gross_i: i128 = u256_to_i128_lossy(gross_weth);
    let input_i: i128 = u256_to_i128_lossy(input_weth);
    let gas_i: i128 = u256_to_i128_lossy(gas_cost_wei);

    let profit_gross = gross_i - input_i;
    let estimated_net_after_gas = profit_gross - gas_i;

    ArbOpportunity {
        path,
        chain,
        input_weth,
        gross_profit_wei: profit_gross,
        estimated_net_after_gas,
        gas_cost_wei,
        timestamp,
    }
}


// ─── Scan all opportunities ────────────────────────────────────────────────────

/// The input sizes scanned, in wei: 0.1, 0.5, 1, 5 and 10 ETH.
pub open spec fn input_size_spec(k: nat) -> nat {
    if k == 0 {
        100_000_000_000_000_000
    } else if k == 1 {
        500_000_000_000_000_000
    } else if k == 2 {
        1_000_000_000_000_000_000
    } else if k == 3 {
        5_000_000_000_000_000_000
    } else {
        10_000_000_000_000_000_000
    }
}

/// How many input sizes are scanned.
pub const NUM_INPUT_SIZES: usize = 5;

/// Input sizes to scan: 0.1, 0.5, 1, 5, 10 ETH in wei (10 ETH still fits a `u64`).
pub fn input_sizes() -> (r: [u64; 5])
    ensures
        forall|k: int| 0 <= k < 5 ==> r[k] == input_size_spec(k as nat),
{
    [
        100_000_000_000_000_000,
        500_000_000_000_000_000,
        1_000_000_000_000_000_000,
        5_000_000_000_000_000_000,
        10_000_000_000_000_000_000,
    ]
}

/// What the scan finds for the first `k` input sizes, in order: for each
/// size, the forward result (if any) and then the reverse result (if any),
/// each as (input, output, is_forward).
pub open spec fn scan_entries(pools: TrianglePools, k: nat) -> Seq<(nat, nat, bool)>
    decreases k,
{
    if k == 0 {
        seq![]
    } else {
        let size = input_size_spec((k - 1) as nat);
        let fwd = match calc_forward_spec(pools, size) {
            Some(out) => seq![(size, out, true)],
            None => seq![],
        };
        let rev = match calc_reverse_spec(pools, size) {
            Some(out) => seq![(size, out, false)],
            None => seq![],
        };
        scan_entries(pools, (k - 1) as nat) + fwd + rev
    }
}

/// An opportunity reports a round trip that yields an output: its profit
/// before and after gas is that output's.
pub open spec fn reports_trip(opp: ArbOpportunity, trip: Option<nat>, gas_price: nat) -> bool {
    match trip {
        Some(out) => opp.gross_profit_wei == gross_profit_spec(out, opp.input_weth@)
            && opp.estimated_net_after_gas == net_after_gas_spec(out, opp.input_weth@, gas_price),
        None => false,
    }
}

/// What the triangle scan of the first `k` sizes finds: every entry is one
/// of those sizes, a forward entry carries the forward round trip of its
/// size and a reverse entry the reverse round trip; and every size whose
/// round trip yields an output has its entry, in each direction.
pub proof fn lemma_scan_entries(pools: TrianglePools, k: nat)
    requires
        k <= 5,
    ensures
        forall|i: int|
            0 <= i < scan_entries(pools, k).len() ==> {
                let e = #[trigger] scan_entries(pools, k)[i];
                &&& exists|kk: nat| kk < k && e.0 == input_size_spec(kk)
                &&& e.2 ==> calc_forward_spec(pools, e.0) == Some(e.1)
                &&& !e.2 ==> calc_reverse_spec(pools, e.0) == Some(e.1)
            },
        forall|kk: nat|
            kk < k ==> (#[trigger] calc_forward_spec(pools, input_size_spec(kk)) matches Some(out)
                ==> exists|i: int|
                0 <= i < scan_entries(pools, k).len() && scan_entries(pools, k)[i] == (
                    input_size_spec(kk),
                    out,
                    true,
                )),
        forall|kk: nat|
            kk < k ==> (#[trigger] calc_reverse_spec(pools, input_size_spec(kk)) matches Some(out)
                ==> exists|i: int|
                0 <= i < scan_entries(pools, k).len() && scan_entries(pools, k)[i] == (
                    input_size_spec(kk),
                    out,
                    false,
                )),
    decreases k,
{
    if k > 0 {
        let k1 = (k - 1) as nat;
        lemma_scan_entries(pools, k1);
        let prev = scan_entries(pools, k1);
        let size = input_size_spec(k1);
        let fwd = match calc_forward_spec(pools, size) {
            Some(out) => seq![(size, out, true)],
            None => seq![],
        };
        let rev = match calc_reverse_spec(pools, size) {
            Some(out) => seq![(size, out, false)],
            None => seq![],
        };
        let all = scan_entries(pools, k);
        assert(all == prev + fwd + rev);
        assert forall|i: int| 0 <= i < all.len() implies {
            let e = #[trigger] all[i];
            &&& exists|kk: nat| kk < k && e.0 == input_size_spec(kk)
            &&& e.2 ==> calc_forward_spec(pools, e.0) == Some(e.1)
            &&& !e.2 ==> calc_reverse_spec(pools, e.0) == Some(e.1)
        } by {
            if i < prev.len() {
                assert(all[i] == prev[i]);
                let kk = choose|kk: nat| kk < k1 && prev[i].0 == input_size_spec(kk);
                assert(kk < k && all[i].0 == input_size_spec(kk));
            } else {
                assert(all[i].0 == input_size_spec(k1));
            }
        }
        assert forall|kk: nat|
            kk < k implies (#[trigger] calc_forward_spec(pools, input_size_spec(kk)) matches Some(out)
            ==> exists|i: int| 0 <= i < all.len() && all[i] == (input_size_spec(kk), out, true)) by {
            if let Some(out) = calc_forward_spec(pools, input_size_spec(kk)) {
                if kk < k1 {
                    let i = choose|i: int| 0 <= i < prev.len() && prev[i] == (input_size_spec(kk), out, true);
                    assert(all[i] == prev[i]);
                } else {
                    assert(all[prev.len() as int] == (input_size_spec(kk), out, true));
                }
            }
        }
        assert forall|kk: nat|
            kk < k implies (#[trigger] calc_reverse_spec(pools, input_size_spec(kk)) matches Some(out)
            ==> exists|i: int| 0 <= i < all.len() && all[i] == (input_size_spec(kk), out, false)) by {
            if let Some(out) = calc_reverse_spec(pools, input_size_spec(kk)) {
                if kk < k1 {
                    let i = choose|i: int| 0 <= i < prev.len() && prev[i] == (input_size_spec(kk), out, false);
                    assert(all[i] == prev[i]);
                } else {
                    assert(all[(prev.len() + fwd.len()) as int] == (input_size_spec(kk), out, false));
                }
            }
        }
    }
}

/// Pools that are missing or whose blocks lie more than `MAX_BLOCK_SKEW`
/// apart yield no scan entry at all, for any number of input sizes.
pub proof fn lemma_stale_pools_yield_nothing(pools: TrianglePools, k: nat)
    requires
        !pools_fresh_spec(pools),
    ensures
        scan_entries(pools, k).len() == 0,
    decreases k,
{
    if k > 0 {
        lemma_stale_pools_yield_nothing(pools, (k - 1) as nat);
    }
}

/// The gas accounting of one input size stays within `i128` on both paths.
pub open spec fn size_fits(pools: TrianglePools, gas_price: nat, size: nat) -> bool {
    &&& (calc_forward_spec(pools, size) matches Some(out) ==> gas_math_fits(out, size, gas_price))
    &&& (calc_reverse_spec(pools, size) matches Some(out) ==> gas_math_fits(out, size, gas_price))
}

/// The gas accounting of every scanned size stays within `i128`.
pub open spec fn scan_fits_spec(pools: TrianglePools, gas_price: nat) -> bool {
    forall|k: nat| k < 5 ==> #[trigger] size_fits(pools, gas_price, input_size_spec(k))
}

/// The opportunity the scan reports for one entry.
pub open spec fn is_scan_result(
    opp: ArbOpportunity,
    entry: (nat, nat, bool),
    gas_price: nat,
    timestamp: u64,
) -> bool {
    is_gas_applied(
        opp,
        entry.1,
        entry.0,
        gas_price,
        if entry.2 {
            FORWARD_PATH@
        } else {
            REVERSE_PATH@
        },
        ChainId::Ethereum,
        timestamp,
    )
}

/// Whether the gas accounting of `scan_all_opportunities` stays within
/// `i128` for these pools and gas price; the scan may be run only then.
pub fn scan_fits(pools: &TrianglePools, gas_price: U256) -> (r: bool)
    ensures
        r == scan_fits_spec(*pools, gas_price@),
{
    let sizes = input_sizes();
    let mut k: usize = 0;
    while k < NUM_INPUT_SIZES
        invariant
            k <= 5,
            forall|k: int| 0 <= k < 5 ==> sizes[k] == input_size_spec(k as nat),
            forall|j: nat| j < k ==> #[trigger] size_fits(*pools, gas_price@, input_size_spec(j)),
        decreases 5 - k,
    {
        let input = U256::from_u64(sizes[k]);
        if let Some(out) = calc_forward(pools, input) {
            if !gas_fits(out, input, gas_price) {
                assert(!size_fits(*pools, gas_price@, input_size_spec(k as nat)));
                return false;
            }
        }
        if let Some(out) = calc_reverse(pools, input) {
            if !gas_fits(out, input, gas_price) {
                assert(!size_fits(*pools, gas_price@, input_size_spec(k as nat)));
                return false;
            }
        }
        k = k + 1;
    }
    true
}

/// Whether `apply_gas` may be called on these amounts.
pub fn gas_fits(gross_weth: U256, input_weth: U256, gas_price: U256) -> (r: bool)
    ensures
        r == gas_math_fits(gross_weth@, input_weth@, gas_price@),
{
    let gas_cost_wei = gas_price.saturating_mul(U256::from_u64(GAS_UNITS));
    let gross_i: i128 = u256_to_i128_lossy(gross_weth);
    let input_i: i128 = u256_to_i128_lossy(input_weth);
    let gas_i: i128 = u256_to_i128_lossy(gas_cost_wei);
    match gross_i.checked_sub(input_i) {
        Some(profit) => profit.checked_sub(gas_i).is_some(),
        None => false,
    }
}

/// Reading the scan's results by their path labels: every result is
/// labelled with one of the two directions and reports that direction's
/// round trip for its input, and every size whose round trip yields an
/// output is reported in that direction.
proof fn lemma_scan_results_report_trips(
    pools: TrianglePools,
    opps: Seq<ArbOpportunity>,
    gas_price: nat,
    timestamp: u64,
)
    requires
        opps.len() == scan_entries(pools, 5).len(),
        forall|i: int|
            0 <= i < opps.len() ==> is_scan_result(
                #[trigger] opps[i],
                scan_entries(pools, 5)[i],
                gas_price,
                timestamp,
            ),
    ensures
        forall|i: int|
            0 <= i < opps.len() ==> (#[trigger] opps[i]).path@ == FORWARD_PATH@ || opps[i].path@
                == REVERSE_PATH@,
        forall|i: int|
            0 <= i < opps.len() && (#[trigger] opps[i]).path@ == FORWARD_PATH@ ==> reports_trip(
                opps[i],
                calc_forward_spec(pools, opps[i].input_weth@),
                gas_price,
            ),
        forall|i: int|
            0 <= i < opps.len() && (#[trigger] opps[i]).path@ == REVERSE_PATH@ ==> reports_trip(
                opps[i],
                calc_reverse_spec(pools, opps[i].input_weth@),
                gas_price,
            ),
        forall|kk: nat|
            kk < 5 ==> (#[trigger] calc_forward_spec(pools, input_size_spec(kk)) matches Some(out)
                ==> exists|i: int|
                0 <= i < opps.len() && opps[i].path@ == FORWARD_PATH@ && opps[i].input_weth@ == input_size_spec(
                    kk,
                ) && opps[i].gross_profit_wei == gross_profit_spec(out, input_size_spec(kk))),
        forall|kk: nat|
            kk < 5 ==> (#[trigger] calc_reverse_spec(pools, input_size_spec(kk)) matches Some(out)
                ==> exists|i: int|
                0 <= i < opps.len() && opps[i].path@ == REVERSE_PATH@ && opps[i].input_weth@ == input_size_spec(
                    kk,
                ) && opps[i].gross_profit_wei == gross_profit_spec(out, input_size_spec(kk))),
{
        reveal_strlit("WETH→USDC→DAI→WETH");
        reveal_strlit("WETH→DAI→USDC→WETH");
        assert(FORWARD_PATH@ != REVERSE_PATH@) by {
            assert(FORWARD_PATH@[6] != REVERSE_PATH@[6]);
        }
        lemma_scan_entries(pools, 5);
        let entries = scan_entries(pools, 5);
        assert forall|kk: nat|
            kk < 5 implies (#[trigger] calc_forward_spec(pools, input_size_spec(kk)) matches Some(out)
            ==> exists|i: int|
            0 <= i < opps.len() && opps[i].path@ == FORWARD_PATH@ && opps[i].input_weth@
                == input_size_spec(kk) && opps[i].gross_profit_wei == gross_profit_spec(
                out,
                input_size_spec(kk),
            )) by {
            if let Some(out) = calc_forward_spec(pools, input_size_spec(kk)) {
                let i = choose|i: int| 0 <= i < entries.len() && entries[i] == (input_size_spec(kk), out, true);
                assert(is_scan_result(opps[i], entries[i], gas_price, timestamp));
            }
        }
        assert forall|kk: nat|
            kk < 5 implies (#[trigger] calc_reverse_spec(pools, input_size_spec(kk)) matches Some(out)
            ==> exists|i: int|
            0 <= i < opps.len() && opps[i].path@ == REVERSE_PATH@ && opps[i].input_weth@
                == input_size_spec(kk) && opps[i].gross_profit_wei == gross_profit_spec(
                out,
                input_size_spec(kk),
            )) by {
            if let Some(out) = calc_reverse_spec(pools, input_size_spec(kk)) {
                let i = choose|i: int| 0 <= i < entries.len() && entries[i] == (input_size_spec(kk), out, false);
                assert(is_scan_result(opps[i], entries[i], gas_price, timestamp));
            }
        }
        assert forall|i: int| 0 <= i < opps.len() implies ((#[trigger] opps[i]).path@ == FORWARD_PATH@
            || opps[i].path@ == REVERSE_PATH@) && (opps[i].path@ == FORWARD_PATH@ ==> reports_trip(
            opps[i],
            calc_forward_spec(pools, opps[i].input_weth@),
            gas_price,
        )) && (opps[i].path@ == REVERSE_PATH@ ==> reports_trip(
            opps[i],
            calc_reverse_spec(pools, opps[i].input_weth@),
            gas_price,
        )) by {
            assert(is_scan_result(opps[i], entries[i], gas_price, timestamp));
            let e = entries[i];
            assert(e.2 ==> calc_forward_spec(pools, e.0) == Some(e.1));
            assert(!e.2 ==> calc_reverse_spec(pools, e.0) == Some(e.1));
        }
}

/// Run both triangle directions for every input size and account for gas.
pub fn scan_all_opportunities(pools: &TrianglePools, gas_price: U256, timestamp: u64) -> (r: Vec<
    ArbOpportunity,
>)
    requires
        scan_fits_spec(*pools, gas_price@),
    ensures
        r@.len() == scan_entries(*pools, 5).len(),
        forall|i: int|
            0 <= i < r@.len() ==> is_scan_result(
                #[trigger] r@[i],
                scan_entries(*pools, 5)[i],
                gas_price@,
                timestamp,
            ),
        forall|i: int|
            0 <= i < r@.len() ==> (#[trigger] r@[i]).path@ == FORWARD_PATH@ || r@[i].path@
                == REVERSE_PATH@,
        forall|i: int|
            0 <= i < r@.len() && (#[trigger] r@[i]).path@ == FORWARD_PATH@ ==> reports_trip(
                r@[i],
                calc_forward_spec(*pools, r@[i].input_weth@),
                gas_price@,
            ),
        forall|i: int|
            0 <= i < r@.len() && (#[trigger] r@[i]).path@ == REVERSE_PATH@ ==> reports_trip(
                r@[i],
                calc_reverse_spec(*pools, r@[i].input_weth@),
                gas_price@,
            ),
        forall|kk: nat|
            kk < 5 ==> (#[trigger] calc_forward_spec(*pools, input_size_spec(kk)) matches Some(out)
                ==> exists|i: int|
                0 <= i < r@.len() && r@[i].path@ == FORWARD_PATH@ && r@[i].input_weth@ == input_size_spec(
                    kk,
                ) && r@[i].gross_profit_wei == gross_profit_spec(out, input_size_spec(kk))),
        forall|kk: nat|
            kk < 5 ==> (#[trigger] calc_reverse_spec(*pools, input_size_spec(kk)) matches Some(out)
                ==> exists|i: int|
                0 <= i < r@.len() && r@[i].path@ == REVERSE_PATH@ && r@[i].input_weth@ == input_size_spec(
                    kk,
                ) && r@[i].gross_profit_wei == gross_profit_spec(out, input_size_spec(kk))),
{
    let sizes = input_sizes();
    let mut opps: Vec<ArbOpportunity> = Vec::new();
    let mut k: usize = 0;
    while k < NUM_INPUT_SIZES
        invariant
            k <= 5,
            forall|k: int| 0 <= k < 5 ==> sizes[k] == input_size_spec(k as nat),
            scan_fits_spec(*pools, gas_price@),
            opps@.len() == scan_entries(*pools, k as nat).len(),
            forall|i: int|
                0 <= i < opps@.len() ==> is_scan_result(
                    #[trigger] opps@[i],
                    scan_entries(*pools, k as nat)[i],
                    gas_price@,
                    timestamp,
                ),
        decreases 5 - k,
    {
        let input = U256::from_u64(sizes[k]);
        let ghost size = input_size_spec(k as nat);
        assert(size_fits(*pools, gas_price@, size));
        let ghost before = opps@;
        if let Some(out) = calc_forward(pools, input) {
            opps.push(apply_gas(out, input, gas_price, FORWARD_PATH, ChainId::Ethereum, timestamp));
        }
        let ghost mid = opps@;
        if let Some(out) = calc_reverse(pools, input) {
            opps.push(apply_gas(out, input, gas_price, REVERSE_PATH, ChainId::Ethereum, timestamp));
        }
        proof {
            let next = scan_entries(*pools, (k + 1) as nat);
            assert(next == scan_entries(*pools, k as nat) + (match calc_forward_spec(*pools, size) {
                Some(out) => seq![(size, out, true)],
                None => seq![],
            }) + (match calc_reverse_spec(*pools, size) {
                Some(out) => seq![(size, out, false)],
                None => seq![],
            }));
            assert(opps@.len() == next.len());
            assert forall|i: int| 0 <= i < opps@.len() implies is_scan_result(
                #[trigger] opps@[i],
                next[i],
                gas_price@,
                timestamp,
            ) by {
                if i < before.len() {
                    assert(opps@[i] == before[i]);
                }
            }
        }
        k = k + 1;
    }
    proof {
        lemma_scan_results_report_trips(*pools, opps@, gas_price@, timestamp);
    }
    opps
}


// ─── Configured paths over the pool registry ─────────────────────────────────

/// Every pool of the hops is held, and their blocks lie within
/// `MAX_BLOCK_SKEW` of each other.
pub open spec fn hops_fresh_spec(pools: Map<PoolKey, PoolState>, hops: Seq<HopSpec>) -> bool {
    &&& forall|k: int| 0 <= k < hops.len() ==> pools.contains_key(#[trigger] hops[k].pool_key)
    &&& forall|a: int, b: int|
        0 <= a < hops.len() && 0 <= b < hops.len() ==> state_block(pools[(#[trigger] hops[a]).pool_key])
            - state_block(pools[(#[trigger] hops[b]).pool_key]) <= MAX_BLOCK_SKEW
}

/// The amount that comes out of the hops in turn, each quoted on the pool's
/// state, or `None` when a hop cannot be quoted.
pub open spec fn run_hops(pools: Map<PoolKey, PoolState>, hops: Seq<HopSpec>, amount: nat) -> Option<
    nat,
>
    decreases hops.len(),
{
    if hops.len() == 0 {
        Some(amount)
    } else {
        let h = hops[0];
        match quote_spec(h.dex_type, pools[h.pool_key], h.token_in, h.token_out, amount) {
            None => None,
            Some(x) => run_hops(pools, hops.drop_first(), x),
        }
    }
}

/// The output of a path over fresh pools.
pub open spec fn execute_path_spec(pools: Map<PoolKey, PoolState>, hops: Seq<HopSpec>, input: nat) -> Option<
    nat,
> {
    if hops_fresh_spec(pools, hops) {
        run_hops(pools, hops, input)
    } else {
        None
    }
}

/// A path yields an output only when every pool it trades in is held and
/// no two of them were read more than `MAX_BLOCK_SKEW` blocks apart; and
/// then every hop is quoted in turn, the first on the input and each next
/// one on the previous hop's output.
pub proof fn lemma_path_needs_fresh_pools(pools: Map<PoolKey, PoolState>, hops: Seq<HopSpec>, input: nat)
    ensures
        execute_path_spec(pools, hops, input) is Some ==> forall|a: int|
            0 <= a < hops.len() ==> pools.contains_key((#[trigger] hops[a]).pool_key),
        execute_path_spec(pools, hops, input) is Some ==> forall|a: int, b: int|
            0 <= a < hops.len() && 0 <= b < hops.len() ==> state_block(
                pools[(#[trigger] hops[a]).pool_key],
            ) <= state_block(pools[(#[trigger] hops[b]).pool_key]) + MAX_BLOCK_SKEW,
        hops.len() == 0 ==> execute_path_spec(pools, hops, input) == Some(input),
        hops.len() > 0 && execute_path_spec(pools, hops, input) is Some ==> {
            let h = hops[0];
            quote_spec(h.dex_type, pools[h.pool_key], h.token_in, h.token_out, input) matches Some(x)
                && execute_path_spec(pools, hops, input) == run_hops(pools, hops.drop_first(), x)
        },
{
    if execute_path_spec(pools, hops, input) is Some {
        assert forall|a: int, b: int|
            0 <= a < hops.len() && 0 <= b < hops.len() implies state_block(
            pools[(#[trigger] hops[a]).pool_key],
        ) <= state_block(pools[(#[trigger] hops[b]).pool_key]) + MAX_BLOCK_SKEW by {
            assert(hops_fresh_spec(pools, hops));
        }
    }
}

/// Run `input` through every hop of `path`, quoting each on the registry's
/// state; `None` when a pool is missing, the pools' blocks are too far
/// apart, or a hop cannot be quoted.
pub fn execute_path(registry: &PoolRegistry, path: &ArbPath, input: U256) -> (r: Option<U256>)
    ensures
        opt_value(r) == execute_path_spec(registry@, path.hops@, input@),
        r is Some ==> forall|a: int| 0 <= a < path.hops@.len() ==> registry@.contains_key(
            (#[trigger] path.hops@[a]).pool_key,
        ),
        r is Some ==> forall|a: int, b: int|
            0 <= a < path.hops@.len() && 0 <= b < path.hops@.len() ==> state_block(
                registry@[(#[trigger] path.hops@[a]).pool_key],
            ) <= state_block(registry@[(#[trigger] path.hops@[b]).pool_key]) + MAX_BLOCK_SKEW,
{
    proof {
        lemma_path_needs_fresh_pools(registry@, path.hops@, input@);
    }
    let hops = &path.hops;
    let n = hops.len();
    let ghost pools = registry@;
    let mut min: u64 = u64::MAX;
    let mut max: u64 = 0;
    let ghost mut imin: int = 0;
    let ghost mut imax: int = 0;
    let mut k: usize = 0;
    while k < n
        invariant
            n == hops@.len(),
            hops@ == path.hops@,
            pools == registry@,
            k <= n,
            forall|j: int| 0 <= j < k ==> pools.contains_key(#[trigger] hops@[j].pool_key),
            forall|j: int|
                0 <= j < k ==> min <= state_block(pools[(#[trigger] hops@[j]).pool_key]) <= max,
            k > 0 ==> 0 <= imin < k && state_block(pools[hops@[imin].pool_key]) == min,
            k > 0 ==> 0 <= imax < k && state_block(pools[hops@[imax].pool_key]) == max,
        decreases n - k,
    {
        match registry.get(hops[k].pool_key) {
            Some(state) => {
                let b = state.last_block();
                if k == 0 || b < min {
                    min = b;
                    proof {
                        imin = k as int;
                    }
                }
                if k == 0 || b > max {
                    max = b;
                    proof {
                        imax = k as int;
                    }
                }
            },
            None => {
                assert(!pools.contains_key(hops@[k as int].pool_key));
                return None;
            },
        }
        k = k + 1;
    }
    if n > 0 && max - min > MAX_BLOCK_SKEW {
        assert(!hops_fresh_spec(pools, hops@)) by {
            let a = hops@[imax];
            let b = hops@[imin];
        }
        return None;
    }
    assert(hops_fresh_spec(pools, hops@));
    let mut amount = input;
    let mut k: usize = 0;
    assert(hops@.subrange(0, n as int) =~= hops@);
    while k < n
        invariant
            n == hops@.len(),
            hops@ == path.hops@,
            pools == registry@,
            k <= n,
            hops_fresh_spec(pools, hops@),
            run_hops(pools, hops@, input@) == run_hops(pools, hops@.subrange(k as int, n as int), amount@),
        decreases n - k,
    {
        let h = hops[k];
        let ghost rest = hops@.subrange(k as int, n as int);
        assert(rest[0] == h);
        assert(rest.drop_first() =~= hops@.subrange(k + 1, n as int));
        assert(pools.contains_key(hops@[k as int].pool_key));
        assert(run_hops(pools, rest, amount@) == match quote_spec(
            h.dex_type,
            pools[h.pool_key],
            h.token_in,
            h.token_out,
            amount@,
        ) {
            None => None,
            Some(x) => run_hops(pools, rest.drop_first(), x),
        });
        let state = match registry.get(h.pool_key) {
            Some(state) => state,
            None => return None,
        };
        amount = match quote(h.dex_type, state, h.token_in, h.token_out, amount) {
            Some(x) => x,
            None => return None,
        };
        k = k + 1;
    }
    assert(hops@.subrange(n as int, n as int).len() == 0);
    Some(amount)
}


/// What scanning `paths` with one input size finds, for the first `m`
/// paths in order, each as (input, output, path index).
pub open spec fn size_entries(
    pools: Map<PoolKey, PoolState>,
    paths: Seq<ArbPath>,
    size: nat,
    m: nat,
) -> Seq<(nat, nat, int)>
    decreases m,
{
    if m == 0 {
        seq![]
    } else {
        let j = (m - 1) as int;
        size_entries(pools, paths, size, (m - 1) as nat) + match execute_path_spec(
            pools,
            paths[j].hops@,
            size,
        ) {
            Some(out) => seq![(size, out, j)],
            None => seq![],
        }
    }
}

/// What scanning `paths` finds for the first `k` input sizes: for each size
/// in turn, every path that yields an output, in path order.
pub open spec fn path_scan_entries(pools: Map<PoolKey, PoolState>, paths: Seq<ArbPath>, k: nat) -> Seq<
    (nat, nat, int),
>
    decreases k,
{
    if k == 0 {
        seq![]
    } else {
        path_scan_entries(pools, paths, (k - 1) as nat) + size_entries(
            pools,
            paths,
            input_size_spec((k - 1) as nat),
            paths.len(),
        )
    }
}

/// What scanning the first `m` paths with one size finds: every entry is
/// one of those paths, with that size, carrying what the path yields; and
/// every one of those paths that yields an output has its entry.
pub proof fn lemma_size_entries(pools: Map<PoolKey, PoolState>, paths: Seq<ArbPath>, size: nat, m: nat)
    requires
        m <= paths.len(),
    ensures
        forall|i: int|
            0 <= i < size_entries(pools, paths, size, m).len() ==> {
                let e = #[trigger] size_entries(pools, paths, size, m)[i];
                &&& 0 <= e.2 < m
                &&& e.0 == size
                &&& execute_path_spec(pools, paths[e.2].hops@, size) == Some(e.1)
            },
        forall|j: int|
            0 <= j < m ==> (#[trigger] execute_path_spec(pools, paths[j].hops@, size) matches Some(out)
                ==> exists|i: int|
                0 <= i < size_entries(pools, paths, size, m).len() && size_entries(pools, paths, size, m)[i]
                    == (size, out, j)),
    decreases m,
{
    if m > 0 {
        let m1 = (m - 1) as nat;
        lemma_size_entries(pools, paths, size, m1);
        let prev = size_entries(pools, paths, size, m1);
        let all = size_entries(pools, paths, size, m);
        assert forall|i: int| 0 <= i < all.len() implies {
            let e = #[trigger] all[i];
            &&& 0 <= e.2 < m
            &&& e.0 == size
            &&& execute_path_spec(pools, paths[e.2].hops@, size) == Some(e.1)
        } by {
            if i < prev.len() {
                assert(all[i] == prev[i]);
            }
        }
        assert forall|j: int|
            0 <= j < m implies (#[trigger] execute_path_spec(pools, paths[j].hops@, size) matches Some(out)
            ==> exists|i: int| 0 <= i < all.len() && all[i] == (size, out, j)) by {
            if let Some(out) = execute_path_spec(pools, paths[j].hops@, size) {
                if j < m1 {
                    let i = choose|i: int| 0 <= i < prev.len() && prev[i] == (size, out, j);
                    assert(all[i] == prev[i]);
                } else {
                    assert(all[prev.len() as int] == (size, out, j));
                }
            }
        }
    }
}

/// What scanning every configured path with the first `k` sizes finds:
/// every entry is a configured path run with one of those sizes, carrying
/// what that path yields; and every configured path that yields an output
/// at one of those sizes has its entry. No path is left out.
pub proof fn lemma_path_scan_entries(pools: Map<PoolKey, PoolState>, paths: Seq<ArbPath>, k: nat)
    requires
        k <= 5,
    ensures
        forall|i: int|
            0 <= i < path_scan_entries(pools, paths, k).len() ==> {
                let e = #[trigger] path_scan_entries(pools, paths, k)[i];
                &&& 0 <= e.2 < paths.len()
                &&& exists|kk: nat| kk < k && e.0 == input_size_spec(kk)
                &&& execute_path_spec(pools, paths[e.2].hops@, e.0) == Some(e.1)
            },
        forall|kk: nat, j: int|
            kk < k && 0 <= j < paths.len() ==> (#[trigger] execute_path_spec(
                pools,
                paths[j].hops@,
                input_size_spec(kk),
            ) matches Some(out) ==> exists|i: int|
                0 <= i < path_scan_entries(pools, paths, k).len() && path_scan_entries(pools, paths, k)[i]
                    == (input_size_spec(kk), out, j)),
    decreases k,
{
    if k > 0 {
        let k1 = (k - 1) as nat;
        lemma_path_scan_entries(pools, paths, k1);
        let size = input_size_spec(k1);
        lemma_size_entries(pools, paths, size, paths.len());
        let prev = path_scan_entries(pools, paths, k1);
        let se = size_entries(pools, paths, size, paths.len());
        let all = path_scan_entries(pools, paths, k);
        assert(all == prev + se);
        assert forall|i: int| 0 <= i < all.len() implies {
            let e = #[trigger] all[i];
            &&& 0 <= e.2 < paths.len()
            &&& exists|kk: nat| kk < k && e.0 == input_size_spec(kk)
            &&& execute_path_spec(pools, paths[e.2].hops@, e.0) == Some(e.1)
        } by {
            if i < prev.len() {
                assert(all[i] == prev[i]);
                let kk = choose|kk: nat| kk < k1 && prev[i].0 == input_size_spec(kk);
                assert(kk < k && all[i].0 == input_size_spec(kk));
            } else {
                assert(all[i] == se[i - prev.len()]);
                assert(all[i].0 == input_size_spec(k1));
            }
        }
        assert forall|kk: nat, j: int|
            kk < k && 0 <= j < paths.len() implies (#[trigger] execute_path_spec(
            pools,
            paths[j].hops@,
            input_size_spec(kk),
        ) matches Some(out) ==> exists|i: int| 0 <= i < all.len() && all[i] == (input_size_spec(kk), out, j)) by {
            if let Some(out) = execute_path_spec(pools, paths[j].hops@, input_size_spec(kk)) {
                if kk < k1 {
                    let i = choose|i: int| 0 <= i < prev.len() && prev[i] == (input_size_spec(kk), out, j);
                    assert(all[i] == prev[i]);
                } else {
                    let i = choose|i: int| 0 <= i < se.len() && se[i] == (size, out, j);
                    assert(all[prev.len() + i] == se[i]);
                }
            }
        }
    }
}

/// The gas accounting stays within `i128` for every path and input size
/// that yields an output.
pub open spec fn path_scan_fits_spec(
    pools: Map<PoolKey, PoolState>,
    paths: Seq<ArbPath>,
    gas_price: nat,
) -> bool {
    forall|k: nat, j: int|
        k < 5 && 0 <= j < paths.len() ==> (#[trigger] execute_path_spec(
            pools,
            paths[j].hops@,
            input_size_spec(k),
        ) matches Some(out) ==> gas_math_fits(out, input_size_spec(k), gas_price))
}

/// Whether the gas accounting of `scan_path_opportunities` stays within
/// `i128` for this registry, these paths and this gas price.
pub fn path_scan_fits(registry: &PoolRegistry, paths: &[ArbPath], gas_price: U256) -> (r: bool)
    ensures
        r == path_scan_fits_spec(registry@, paths@, gas_price@),
{
    let sizes = input_sizes();
    let mut k: usize = 0;
    while k < NUM_INPUT_SIZES
        invariant
            k <= 5,
            forall|k: int| 0 <= k < 5 ==> sizes[k] == input_size_spec(k as nat),
            forall|kk: nat, j: int|
                kk < k && 0 <= j < paths@.len() ==> (#[trigger] execute_path_spec(
                    registry@,
                    paths@[j].hops@,
                    input_size_spec(kk),
                ) matches Some(out) ==> gas_math_fits(out, input_size_spec(kk), gas_price@)),
        decreases 5 - k,
    {
        let input = U256::from_u64(sizes[k]);
        let mut j: usize = 0;
        while j < paths.len()
            invariant
                k < 5,
                j <= paths@.len(),
                forall|k: int| 0 <= k < 5 ==> sizes[k] == input_size_spec(k as nat),
                input@ == input_size_spec(k as nat),
                forall|kk: nat, jj: int|
                    kk < k && 0 <= jj < paths@.len() ==> (#[trigger] execute_path_spec(
                        registry@,
                        paths@[jj].hops@,
                        input_size_spec(kk),
                    ) matches Some(out) ==> gas_math_fits(out, input_size_spec(kk), gas_price@)),
                forall|jj: int|
                    0 <= jj < j ==> (#[trigger] execute_path_spec(
                        registry@,
                        paths@[jj].hops@,
                        input_size_spec(k as nat),
                    ) matches Some(out) ==> gas_math_fits(out, input_size_spec(k as nat), gas_price@)),
            decreases paths@.len() - j,
        {
            if let Some(out) = execute_path(registry, &paths[j], input) {
                if !gas_fits(out, input, gas_price) {
                    assert(execute_path_spec(
                        registry@,
                        paths@[j as int].hops@,
                        input_size_spec(k as nat),
                    ) matches Some(o) && !gas_math_fits(o, input_size_spec(k as nat), gas_price@));
                    return false;
                }
            }
            j = j + 1;
        }
        proof {
            assert forall|kk: nat, jj: int|
                kk < k + 1 && 0 <= jj < paths@.len() implies (#[trigger] execute_path_spec(
                registry@,
                paths@[jj].hops@,
                input_size_spec(kk),
            ) matches Some(out) ==> gas_math_fits(out, input_size_spec(kk), gas_price@)) by {
                if kk == k as nat {
                    assert(execute_path_spec(
                        registry@,
                        paths@[jj].hops@,
                        input_size_spec(k as nat),
                    ) matches Some(out) ==> gas_math_fits(out, input_size_spec(k as nat), gas_price@));
                }
            }
        }
        k = k + 1;
    }
    true
}

/// The opportunity the path scan reports for one entry.
pub open spec fn is_path_scan_result(
    opp: ArbOpportunity,
    paths: Seq<ArbPath>,
    entry: (nat, nat, int),
    gas_price: nat,
    timestamp: u64,
) -> bool {
    is_gas_applied(
        opp,
        entry.1,
        entry.0,
        gas_price,
        paths[entry.2].name@,
        paths[entry.2].chain,
        timestamp,
    )
}

/// Reading the path scan's results: each is a configured path, named and
/// on its chain, reporting what that path yields for its input; and every
/// configured path that yields an output at a scanned size is reported.
proof fn lemma_path_scan_results(
    pools: Map<PoolKey, PoolState>,
    paths: Seq<ArbPath>,
    opps: Seq<ArbOpportunity>,
    gas_price: nat,
    timestamp: u64,
)
    requires
        opps.len() == path_scan_entries(pools, paths, 5).len(),
        forall|i: int|
            0 <= i < opps.len() ==> is_path_scan_result(
                #[trigger] opps[i],
                paths,
                path_scan_entries(pools, paths, 5)[i],
                gas_price,
                timestamp,
            ),
    ensures
        forall|i: int|
            0 <= i < opps.len() ==> exists|j: int|
                0 <= j < paths.len() && (#[trigger] opps[i]).path@ == paths[j].name@ && opps[i].chain
                    == paths[j].chain && reports_trip(
                    opps[i],
                    execute_path_spec(pools, paths[j].hops@, opps[i].input_weth@),
                    gas_price,
                ),
        forall|kk: nat, j: int|
            kk < 5 && 0 <= j < paths.len() ==> (#[trigger] execute_path_spec(
                pools,
                paths[j].hops@,
                input_size_spec(kk),
            ) matches Some(out) ==> exists|i: int|
                0 <= i < opps.len() && opps[i].path@ == paths[j].name@ && opps[i].chain == paths[j].chain
                    && opps[i].input_weth@ == input_size_spec(kk) && reports_trip(opps[i], Some(out), gas_price)),
{
    lemma_path_scan_entries(pools, paths, 5);
    let entries = path_scan_entries(pools, paths, 5);
    assert forall|i: int| 0 <= i < opps.len() implies exists|j: int|
        0 <= j < paths.len() && (#[trigger] opps[i]).path@ == paths[j].name@ && opps[i].chain
            == paths[j].chain && reports_trip(
            opps[i],
            execute_path_spec(pools, paths[j].hops@, opps[i].input_weth@),
            gas_price,
        ) by {
        assert(is_path_scan_result(opps[i], paths, entries[i], gas_price, timestamp));
        let e = entries[i];
        assert(execute_path_spec(pools, paths[e.2].hops@, e.0) == Some(e.1));
    }
    assert forall|kk: nat, j: int|
        kk < 5 && 0 <= j < paths.len() implies (#[trigger] execute_path_spec(
        pools,
        paths[j].hops@,
        input_size_spec(kk),
    ) matches Some(out) ==> exists|i: int|
        0 <= i < opps.len() && opps[i].path@ == paths[j].name@ && opps[i].chain == paths[j].chain
            && opps[i].input_weth@ == input_size_spec(kk) && reports_trip(opps[i], Some(out), gas_price)) by {
        if let Some(out) = execute_path_spec(pools, paths[j].hops@, input_size_spec(kk)) {
            let i = choose|i: int| 0 <= i < entries.len() && entries[i] == (input_size_spec(kk), out, j);
            assert(is_path_scan_result(opps[i], paths, entries[i], gas_price, timestamp));
        }
    }
}

/// Run every configured path with every input size over the registry's
/// pools, and account for gas on each one that yields an output.
pub fn scan_path_opportunities(
    registry: &PoolRegistry,
    paths: &[ArbPath],
    gas_price: U256,
    timestamp: u64,
) -> (r: Vec<ArbOpportunity>)
    requires
        path_scan_fits_spec(registry@, paths@, gas_price@),
    ensures
        r@.len() == path_scan_entries(registry@, paths@, 5).len(),
        forall|i: int|
            0 <= i < r@.len() ==> is_path_scan_result(
                #[trigger] r@[i],
                paths@,
                path_scan_entries(registry@, paths@, 5)[i],
                gas_price@,
                timestamp,
            ),
        forall|i: int|
            0 <= i < r@.len() ==> exists|j: int|
                0 <= j < paths@.len() && (#[trigger] r@[i]).path@ == paths@[j].name@ && r@[i].chain
                    == paths@[j].chain && reports_trip(
                    r@[i],
                    execute_path_spec(registry@, paths@[j].hops@, r@[i].input_weth@),
                    gas_price@,
                ),
        forall|kk: nat, j: int|
            kk < 5 && 0 <= j < paths@.len() ==> (#[trigger] execute_path_spec(
                registry@,
                paths@[j].hops@,
                input_size_spec(kk),
            ) matches Some(out) ==> exists|i: int|
                0 <= i < r@.len() && r@[i].path@ == paths@[j].name@ && r@[i].chain == paths@[j].chain
                    && r@[i].input_weth@ == input_size_spec(kk) && reports_trip(r@[i], Some(out), gas_price@)),
{
    let sizes = input_sizes();
    let mut opps: Vec<ArbOpportunity> = Vec::new();
    let mut k: usize = 0;
    while k < NUM_INPUT_SIZES
        invariant
            k <= 5,
            forall|k: int| 0 <= k < 5 ==> sizes[k] == input_size_spec(k as nat),
            path_scan_fits_spec(registry@, paths@, gas_price@),
            opps@.len() == path_scan_entries(registry@, paths@, k as nat).len(),
            forall|i: int|
                0 <= i < opps@.len() ==> is_path_scan_result(
                    #[trigger] opps@[i],
                    paths@,
                    path_scan_entries(registry@, paths@, k as nat)[i],
                    gas_price@,
                    timestamp,
                ),
        decreases 5 - k,
    {
        let input = U256::from_u64(sizes[k]);
        let ghost size = input_size_spec(k as nat);
        let ghost base = opps@;
        let ghost prefix = path_scan_entries(registry@, paths@, k as nat);
        let mut j: usize = 0;
        while j < paths.len()
            invariant
                k < 5,
                j <= paths@.len(),
                input@ == size,
                size == input_size_spec(k as nat),
                path_scan_fits_spec(registry@, paths@, gas_price@),
                base.len() == prefix.len(),
                opps@.len() == prefix.len() + size_entries(registry@, paths@, size, j as nat).len(),
                forall|i: int| 0 <= i < base.len() ==> opps@[i] == base[i],
                forall|i: int|
                    0 <= i < base.len() ==> is_path_scan_result(
                        #[trigger] base[i],
                        paths@,
                        prefix[i],
                        gas_price@,
                        timestamp,
                    ),
                forall|i: int|
                    0 <= i < size_entries(registry@, paths@, size, j as nat).len()
                        ==> is_path_scan_result(
                        #[trigger] opps@[prefix.len() + i],
                        paths@,
                        size_entries(registry@, paths@, size, j as nat)[i],
                        gas_price@,
                        timestamp,
                    ),
            decreases paths@.len() - j,
        {
            let ghost before = opps@;
            let path = &paths[j];
            if let Some(out) = execute_path(registry, path, input) {
                assert(execute_path_spec(registry@, paths@[j as int].hops@, input_size_spec(k as nat))
                    == Some(out@));
                opps.push(apply_gas(out, input, gas_price, path.name, path.chain, timestamp));
            }
            proof {
                let se = size_entries(registry@, paths@, size, (j + 1) as nat);
                let prev = size_entries(registry@, paths@, size, j as nat);
                assert(se == prev + match execute_path_spec(registry@, paths@[j as int].hops@, size) {
                    Some(out) => seq![(size, out, j as int)],
                    None => seq![],
                });
                assert forall|i: int| 0 <= i < se.len() implies is_path_scan_result(
                    #[trigger] opps@[prefix.len() + i],
                    paths@,
                    se[i],
                    gas_price@,
                    timestamp,
                ) by {
                    if i < prev.len() {
                        assert(opps@[prefix.len() + i] == before[prefix.len() + i]);
                    }
                }
                assert forall|i: int| 0 <= i < base.len() implies opps@[i] == base[i] by {
                    assert(opps@[i] == before[i]);
                }
            }
            j = j + 1;
        }
        proof {
            let next = path_scan_entries(registry@, paths@, (k + 1) as nat);
            let se = size_entries(registry@, paths@, size, paths@.len());
            assert(next == prefix + se);
            assert forall|i: int| 0 <= i < opps@.len() implies is_path_scan_result(
                #[trigger] opps@[i],
                paths@,
                next[i],
                gas_price@,
                timestamp,
            ) by {
                if i < base.len() {
                    assert(opps@[i] == base[i]);
                } else {
                    assert(opps@[prefix.len() + (i - prefix.len())] == opps@[i]);
                }
            }
        }
        k = k + 1;
    }
    proof {
        lemma_path_scan_results(registry@, paths@, opps@, gas_price@, timestamp);
    }
    opps
}

} // verus!
