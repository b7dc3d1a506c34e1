//! The ledger types that the library carries through without reading.

use vstd::prelude::*;

verus! {

/// A Soroban account or contract address. The library stores and hands back
/// addresses but never looks inside one.
#[verifier::external_type_specification]
#[verifier::external_body]
pub struct ExAddress(soroban_sdk::Address);

} // verus!

verus! {

/// A string held by the ledger host.
#[verifier::external_type_specification]
#[verifier::external_body]
pub struct ExString(soroban_sdk::String);

/// A fixed-length byte array held by the ledger host.
#[verifier::external_type_specification]
#[verifier::external_body]
pub struct ExBytesN<const N: usize>(soroban_sdk::BytesN<N>);

} // verus!
