# mimir

Verified rules of two USDC contracts on Soroban:

- **market** — governance of an oracle-settled prediction market: one-time
  initialisation, owner and oracle hand-over, and fee policies that are capped
  by a constant and can only take effect after a timelock.
- **squad** — a two-sided pool: depositors back a side before a deadline, an
  oracle names the winner (or cancels), and each winner pulls a pro-rata share
  of both pools, fees being charged on profit only.

Layout:

- `src/` — the library, verified with Verus. Each entry point is a function
  of the records it reads (and the ledger time), returning its answer and the
  records to store; `laws.rs` in each module proves what holds across calls
  (the fee cap, the timelock, exact settlement, the bookkeeping of deposits).
- `app/` — the Soroban contracts that host the library: storage, authorisation,
  token transfers and events.
- `tests/` — tests of the library on concrete values.
