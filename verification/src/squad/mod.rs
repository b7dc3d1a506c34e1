//! The squad pool: two sides deposit USDC before a deadline, an oracle names
//! the winning side, and each winner pulls a pro-rata share of both pools.

pub mod laws;
pub mod pool;
pub mod rules;
pub mod types;
