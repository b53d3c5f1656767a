# iln_contracts

Verified core of an invoice-liquidity contract suite, written in Verus.

- `src/insurance.rs` — the default-protection insurance pool: premiums,
  claims capped by coverage and balance, timelocked coverage changes and
  admin transfers.
- `src/distribution.rs` — the governance-token distribution: accrual of
  funding volume and settlements, reward parameters, claims.
- `src/storage.rs`, `src/access.rs`, `src/invoice.rs`, `src/errors.rs`,
  `src/constants.rs` — the liquidity contract's storage layer (invoices,
  funders, reputation scores with decay, funding queues, appeals,
  statistics) and its access guards (roles, reentrancy lock, rate limits).
- `src/reputation_events.rs` — the reputation-bonus contract's events.
- `src/host.rs`, `src/arith.rs` — addresses, the call's ledger state and
  signatures, saturating arithmetic.

Each contract's storage is a plain value with a mathematical model (`@`);
every operation's contract states the new model and the result exactly, and
the `law_*` proof functions state what holds across operations.

`app/` holds the Soroban contract entry points, which load storage into the
library's values, run the verified operations, store the results and publish
the recorded events.
