//! Initialisation of the contract.

use vstd::prelude::*;

use crate::storage::{account_storage_bounds, account_storage_bounds_spec, StorageBalanceBounds};

verus! {

/// What initialisation sets up besides metadata and owner: the storage
/// balance bounds, and the supply credited to the owner.
#[derive(Clone, Copy, Debug, PartialEq, Eq)]
pub struct InitPlan {
    pub storage_bounds: StorageBalanceBounds,
    pub initial_supply: u128,
}

/// The initialisation plan for a contract created with `total_supply`.
pub open spec fn init_plan_spec(total_supply: u128) -> InitPlan {
    InitPlan { storage_bounds: account_storage_bounds_spec(), initial_supply: total_supply }
}

/// Decides initialisation: the owner is credited with `total_supply` tokens,
/// and every account's storage balance is bound to the registration deposit.
pub fn plan_new(total_supply: u128) -> (plan: InitPlan)
    ensures
        plan == init_plan_spec(total_supply),
        plan.initial_supply == total_supply,
        plan.storage_bounds.min == 2_500_000_000_000_000_000_000u128,
        plan.storage_bounds.max == Some(plan.storage_bounds.min),
{
    InitPlan { storage_bounds: account_storage_bounds(), initial_supply: total_supply }
}

} // verus!
