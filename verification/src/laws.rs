//! Properties that span several of the contract's decisions.

use vstd::prelude::*;

use crate::burn::{burn_plan_spec, BurnError, BurnPlan, ONE_YOCTO};
use crate::init::init_plan_spec;
use crate::mint::{mint_plan_spec, MintError, MintPlan};
use crate::storage::{
    account_storage_deposit_spec, needs_storage_deposit_spec, StorageBalance,
    StorageBalanceBounds,
};

verus! {

/// For a caller who needs no storage deposit, minting with `attached_deposit`
/// and then burning everything that mint produced (attaching one yoctoNEAR)
/// refunds exactly `attached_deposit`.
pub proof fn lemma_mint_then_burn_refunds_deposit(
    attached_deposit: u128,
    bounds: StorageBalanceBounds,
    balance: Option<StorageBalance>,
)
    requires
        !needs_storage_deposit_spec(bounds, balance),
    ensures
        mint_plan_spec(attached_deposit, bounds, balance) matches Ok(plan) && burn_plan_spec(
            ONE_YOCTO,
            plan.amount,
        )
            == Ok::<BurnPlan, BurnError>(BurnPlan { burn_amount: attached_deposit, refund: attached_deposit }),
{
}

/// Registration happens once: under the bounds set at initialisation, an
/// account whose storage total has reached the registration deposit is not
/// charged for storage again, and is minted its whole attachment.
pub proof fn lemma_registered_account_mints_full_deposit(
    total_supply: u128,
    attached_deposit: u128,
    available: u128,
)
    ensures
        mint_plan_spec(
            attached_deposit,
            init_plan_spec(total_supply).storage_bounds,
            Some(StorageBalance { total: account_storage_deposit_spec(), available }),
        ) == Ok::<MintPlan, MintError>(MintPlan { register_storage: false, amount: attached_deposit }),
{
}

/// A first mint under the bounds set at initialisation registers the caller
/// and mints what the attachment holds beyond the registration deposit.
pub proof fn lemma_first_mint_registers_and_mints_remainder(
    total_supply: u128,
    attached_deposit: u128,
)
    requires
        attached_deposit >= account_storage_deposit_spec(),
    ensures
        mint_plan_spec(attached_deposit, init_plan_spec(total_supply).storage_bounds, None)
            == Ok::<MintPlan, MintError>(
            MintPlan {
                register_storage: true,
                amount: (attached_deposit - account_storage_deposit_spec()) as u128,
            },
        ),
{
}

/// A first mint under the bounds set at initialisation that attaches less
/// than the registration deposit is refused, and nothing is minted.
pub proof fn lemma_first_mint_below_deposit_is_refused(total_supply: u128, attached_deposit: u128)
    requires
        attached_deposit < account_storage_deposit_spec(),
    ensures
        mint_plan_spec(attached_deposit, init_plan_spec(total_supply).storage_bounds, None)
            == Err::<MintPlan, MintError>(
            MintError::StorageDepositBelowMinimum {
                attached: attached_deposit,
                minimum: account_storage_deposit_spec(),
            },
        ),
{
}

/// Initialisation credits the owner with exactly the total supply it is given,
/// whatever that supply is.
pub proof fn lemma_init_credits_whole_supply(total_supply: u128)
    ensures
        init_plan_spec(total_supply).initial_supply == total_supply,
{
}

/// The storage bounds set at initialisation do not depend on the supply: every
/// account must hold exactly the registration deposit, 250 bytes at 10^19
/// yoctoNEAR a byte, as both the minimum and the maximum storage balance.
pub proof fn lemma_init_bounds_are_fixed(total_supply: u128, other_supply: u128)
    ensures
        init_plan_spec(total_supply).storage_bounds == init_plan_spec(other_supply).storage_bounds,
        init_plan_spec(total_supply).storage_bounds.min == 250 * 10_000_000_000_000_000_000u128,
        init_plan_spec(total_supply).storage_bounds.max == Some(
            2_500_000_000_000_000_000_000u128,
        ),
{
}

} // verus!
