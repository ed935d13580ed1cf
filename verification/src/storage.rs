//! The storage-management (NEP-145) values that the contract reads and sets.

use vstd::prelude::*;

use crate::token::{storage_byte_cost, storage_byte_cost_spec};

verus! {

/// Bytes of contract storage that one registered account is charged for.
pub const STORAGE_BYTES_PER_ACCOUNT: u128 = 250;

/// An account's storage balance, in yoctoNEAR.
#[derive(Clone, Copy, Debug, PartialEq, Eq)]
pub struct StorageBalance {
    /// Total amount deposited for storage.
    pub total: u128,
    /// Part of the total that is not locked by stored data.
    pub available: u128,
}

/// Lower and optional upper bound on an account's storage balance, in yoctoNEAR.
#[derive(Clone, Copy, Debug, PartialEq, Eq)]
pub struct StorageBalanceBounds {
    pub min: u128,
    pub max: Option<u128>,
}

/// The deposit that registers one account: its bytes at the storage price.
pub open spec fn account_storage_deposit_spec() -> u128 {
    (STORAGE_BYTES_PER_ACCOUNT * storage_byte_cost_spec()) as u128
}

/// The bounds the contract sets: every account holds exactly the
/// registration deposit, no less and no more.
pub open spec fn account_storage_bounds_spec() -> StorageBalanceBounds {
    StorageBalanceBounds {
        min: account_storage_deposit_spec(),
        max: Some(account_storage_deposit_spec()),
    }
}

/// Total storage balance of an account, zero for one that is not registered.
pub open spec fn stored_total_spec(balance: Option<StorageBalance>) -> u128 {
    match balance {
        Some(b) => b.total,
        None => 0,
    }
}

/// Whether an account with this storage balance still has to deposit for storage.
pub open spec fn needs_storage_deposit_spec(
    bounds: StorageBalanceBounds,
    balance: Option<StorageBalance>,
) -> bool {
    stored_total_spec(balance) < bounds.min
}

/// Storage balance bounds for the contract: the registration deposit, i.e.
/// `STORAGE_BYTES_PER_ACCOUNT` bytes at near-sdk's storage byte cost, is both
/// the minimum and the maximum.
pub fn account_storage_bounds() -> (bounds: StorageBalanceBounds)
    ensures
        bounds == account_storage_bounds_spec(),
        bounds.min == STORAGE_BYTES_PER_ACCOUNT * 10_000_000_000_000_000_000u128,
        bounds.max == Some(bounds.min),
{
    let cost = storage_byte_cost();
    let deposit = STORAGE_BYTES_PER_ACCOUNT * cost;
    StorageBalanceBounds { min: deposit, max: Some(deposit) }
}

/// Total storage balance of an account, zero when it is not registered.
pub fn stored_total(balance: &Option<StorageBalance>) -> (total: u128)
    ensures
        total == stored_total_spec(*balance),
        balance matches Some(b) ==> total == b.total,
        balance is None ==> total == 0,
{
    match balance {
        Some(b) => b.total,
        None => 0,
    }
}

} // verus!
