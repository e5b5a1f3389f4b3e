# arb_scanner

A read-only scanner of DEX arbitrage on Ethereum, Arbitrum, Base and Polygon.
It watches curated pools, estimates triangular round trips after gas, and
records profitable ones and per-block WETH/USD prices in SQLite.

The pricing, path evaluation, pool-event handling and session bookkeeping are
a Verus library under `src/`, each function proved against its contract:

- `u256`: 256-bit integers viewed as natural numbers; carries are done by
  `ethers-core`'s `U256` behind wrappers whose contracts state the arithmetic.
- `dex`: Uniswap V2 constant-product output, the V3 marginal-price estimate,
  and the per-hop quote, with laws of the V2 formula.
- `arb`: the WETH → USDC → DAI → WETH triangle in both directions, the
  configured paths over the pool registry, gas accounting and the scans.
- `pools`: the registry of pool states, the decoding of `Sync`, `Swap` and
  `TokenExchange` logs, staleness and token-order checks.
- `config`: the pool catalogs and paths of each chain, with their laws;
  Base and Polygon build theirs from the pair addresses their V2 factory
  gives at startup (`factory_pairs`, `catalog_from_pairs`).
- `types`, `runtime`, `db`: chains, opportunities and session counters; the
  decisions of the per-chain tasks; integer ranges and the legacy session.

`app/` is the program around it: WebSocket subscriptions, contract reads,
SQLite, floating-point prices and the cross-chain spread monitor.
