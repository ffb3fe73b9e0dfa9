# predictify_hybrid

Verified decision logic of the Predictify Hybrid prediction-market contract.

- `src/circuit_breaker.rs`: the emergency circuit breaker (pause scopes,
  automatic trigger, half-open probing and quota admission, recovery, event
  history, status reports), with its properties in
  `src/circuit_breaker_laws.rs`.
- `src/force_resolve.rs`: the force-resolve idempotency records.
- `src/market.rs`, `src/outcome_cache.rs`, `src/resolution.rs`: market
  resolution (oracle result selection, readiness checks, final outcome and
  confidence, cached payout totals, oracle callbacks), with properties in
  `src/resolution_laws.rs`.
- `app/`: Soroban storage, ledger time, events and the oracle query loop.

Ledger time, the admin registry's verdicts and oracle answers are inputs of
the library's functions; storage is loaded and saved by `app/`.
