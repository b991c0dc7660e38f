# vaultix

A lending vault for Solana. Users deposit SOL and receive iSOL one to one,
lock iSOL as collateral, borrow SOL against it (at most 75% of the
collateral), repay, withdraw, and can be liquidated when an oracle price
says the loan is unhealthy. Deposits earn 7% a year, loans cost 10% a year.

- `src/` is the verified library (Verus): the account state, interest
  accrual, and each instruction as a function from the accounts' state and
  what was read on chain to the new state, the token-program calls to make
  and the event to emit. `src/laws.rs` holds properties across calls.
- `app/` is the Anchor program around it: account validation, the
  token-program calls, events, the clock, reading the Pyth price account,
  and the floating-point health factor.
- `tests/` runs the library on concrete values.
