//! Mimir: the governance rules of an oracle-settled prediction market and the
//! bookkeeping of a two-sided USDC pool, as verified state transitions.
//!
//! Everything that talks to the ledger (storage, authorisation, token
//! transfers, events, the clock) belongs to the contract that hosts this
//! library; the library decides, from plain values, what each entry point
//! returns and which state it leaves behind.

pub mod arith;
pub mod ledger;
pub mod market;
pub mod squad;
