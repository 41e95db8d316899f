# payments_engine

A payments engine that processes a stream of client transactions (deposits,
withdrawals, disputes, resolves and chargebacks) into client accounts, written
in Verus with its rules stated as contracts and proved.

- `src/payment_engine/amount.rs` — decimal amounts; arithmetic and comparison
  are done by `rust_decimal`.
- `src/payment_engine/fx_map.rs` — the `rustc_hash` maps that hold accounts
  and transactions.
- `src/payment_engine/transactions_registry.rs` — the record of deposits and
  withdrawals, by transaction ID.
- `src/payment_engine/engine.rs` — the engine, and the transition of its state
  on each record as a spec function.
- `src/payment_engine/laws.rs`, `src/payment_engine/accounting.rs` — what holds
  of every step: invariants, the dispute lifecycle, locks, and the agreement of
  each account with the recorded history.
- `app/` — the command line program: reads a CSV file and feeds the engine.

Business-invalid transactions are answered with
`TransactionOutcome::Ignored(reason)`; arithmetic overflow is an
`EngineError`.
