//! yoctoNEAR amounts and the NEAR arithmetic the contract relies on.

use vstd::prelude::*;

verus! {

/// Price of one byte of contract storage, in yoctoNEAR, as near-sdk gives it.
pub open spec fn storage_byte_cost_spec() -> u128 {
    10_000_000_000_000_000_000u128
}

/// Subtraction of yoctoNEAR amounts that stops at zero.
pub open spec fn saturating_sub_spec(a: u128, b: u128) -> u128 {
    if a >= b {
        (a - b) as u128
    } else {
        0
    }
}

/// Calls `near_sdk::NearToken::saturating_sub` on `a` and `b`, both read as
/// yoctoNEAR amounts. As the near-token source shows, the result is `a - b`
/// when `a >= b` and zero otherwise.
#[verifier::external_body]
pub(crate) fn token_saturating_sub(a: u128, b: u128) -> (r: u128)
    ensures
        r == saturating_sub_spec(a, b),
{
    near_sdk::NearToken::from_yoctonear(a).saturating_sub(near_sdk::NearToken::from_yoctonear(b)).as_yoctonear()
}

/// Calls `near_sdk::env::storage_byte_cost` and returns the price in yoctoNEAR.
/// In near-sdk 5.30 that function returns the fixed mainnet genesis price of
/// 10^19 yoctoNEAR per byte, which is what the contract claims.
#[verifier::external_body]
pub(crate) fn storage_byte_cost() -> (r: u128)
    ensures
        r == storage_byte_cost_spec(),
{
    near_sdk::env::storage_byte_cost().as_yoctonear()
}

} // verus!
