# rebalancer-admin

The contract behind LumenJoule, an energy-denominated compute credit on
Stellar. It administers the token's Stellar Asset Contract (SAC), takes the
oracle's price feed, and keeps the Soroswap V2 pool of LumenJoule and a quote
token near the oracle price: it mints and sells while LumenJoule is overpriced
there, and buys back and burns while it is underpriced.

## Layout

`src/` is the contract's logic, verified with Verus. It does not touch the
ledger. An operation takes the contract's storage (`state::RebalancerAdmin`)
and what it needs to know of the ledger, and returns what the ledger is to
carry out, in order (`effects::Effect`).

| Module | Contents |
|--------|----------|
| `state` | the instance storage, its invariant, and how effects change it |
| `effects` | requests to the ledger, and events |
| `errors` | errors that are returned, and reasons to trap |
| `oracle`, `feed` | prices: bounds, circuit breaker, update numbers |
| `admin` | set-up, supply, funds, configuration |
| `pool` | the pair's trade formula, and trades as effects |
| `rebalance` | the stabilizer, as steps between readings of balances |
| `status` | reports on the pool and the configuration |
| `math` | rounding division, integer square roots, comparison of fractions |
| `laws` | what holds of the operations together |

An operation that would trap on some input requires that it does not. For each
such operation there is a `check_` function that says beforehand whether it
would, and why.

`app/` is the contract as the ledger runs it, on `soroban-sdk` and
`stellar-tokens`: it reads the storage, asks `src/`, and carries the effects
out. `tests/` runs the logic on concrete values.
