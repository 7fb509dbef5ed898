# creditra

A verified core for the Creditra credit-line protocol and its liquidation
auction, written in Verus.

- `src/` is the library. Every operation is a function from the state it reads
  (a stored credit line or auction, balances the token reported, the ledger
  time) to the state to store or the error to revert with, with a contract that
  states the result exactly.
  - `auction/`: decay curves, Dutch pricing, bid increments and the auction
    state machine (`Open -> Closed -> Claimed`).
  - `credit/`: lazy interest accrual, drawing (with the freeze, block,
    cooldown, per-draw and exposure gates) and repaying, late fees,
    collateral, the credit-line lifecycle (including borrower self-suspension),
    risk-parameter updates with the score-driven rate formula, liquidation
    settlement with the oracle circuit breaker, storage migrations and
    protocol totals; `credit/laws.rs` proves the properties that span
    operations.
  - `math.rs`: `mul_div`, deviation in basis points, saturating helpers.
- `app/` holds the Soroban contracts: storage, authorization, token transfers
  and events around the library.
- `tests/` exercises the library on concrete values.
