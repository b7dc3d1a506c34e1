//! The prediction market: governance of its fee policy, oracle and owner.

pub mod admin;
pub mod laws;
pub mod rules;
pub mod types;
