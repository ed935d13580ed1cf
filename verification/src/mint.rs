//! Minting tokens against the NEAR attached to a call.
//!
//! A caller who already holds the storage deposit is minted the whole
//! attachment. A caller without enough storage balance first has storage
//! deposited for it from the attachment, and is minted what the attachment
//! holds beyond the minimum storage balance; an attachment below that minimum
//! cannot pay for the storage, and the call is refused.

use vstd::prelude::*;

use crate::storage::{needs_storage_deposit_spec, stored_total, StorageBalance, StorageBalanceBounds};
use crate::token::{saturating_sub_spec, token_saturating_sub};

verus! {

/// What a mint call does: whether it first deposits storage for the caller,
/// and how many tokens it then mints to the caller.
#[derive(Clone, Copy, Debug, PartialEq, Eq)]
pub struct MintPlan {
    pub register_storage: bool,
    pub amount: u128,
}

/// Why a mint call is refused.
#[derive(Clone, Copy, Debug, PartialEq, Eq)]
pub enum MintError {
    /// The caller needs a storage deposit, and the attachment is below the
    /// minimum storage balance, so the deposit would leave it under the minimum.
    StorageDepositBelowMinimum { attached: u128, minimum: u128 },
}

/// The outcome of a mint call that attaches `attached_deposit` yoctoNEAR, made
/// by a caller with storage balance `balance` under `bounds`.
pub open spec fn mint_plan_spec(
    attached_deposit: u128,
    bounds: StorageBalanceBounds,
    balance: Option<StorageBalance>,
) -> Result<MintPlan, MintError> {
    if needs_storage_deposit_spec(bounds, balance) {
        if attached_deposit < bounds.min {
            Err(MintError::StorageDepositBelowMinimum { attached: attached_deposit, minimum: bounds.min })
        } else {
            Ok(MintPlan {
                register_storage: true,
                amount: saturating_sub_spec(attached_deposit, bounds.min),
            })
        }
    } else {
        Ok(MintPlan { register_storage: false, amount: attached_deposit })
    }
}

/// Decides a mint call. A caller whose storage total is below `bounds.min`
/// (an unregistered caller counts as zero) is refused when the attachment is
/// below `bounds.min`; otherwise it gets a storage deposit and is minted the
/// attachment less `bounds.min`. Any other caller is minted the whole
/// attachment.
pub fn plan_mint(
    attached_deposit: u128,
    bounds: &StorageBalanceBounds,
    balance: &Option<StorageBalance>,
) -> (outcome: Result<MintPlan, MintError>)
    ensures
        outcome == mint_plan_spec(attached_deposit, *bounds, *balance),
        outcome is Err <==> (needs_storage_deposit_spec(*bounds, *balance) && attached_deposit
            < bounds.min),
        outcome matches Ok(plan) ==> plan.amount <= attached_deposit,
        outcome matches Ok(plan) ==> plan.register_storage ==> plan.amount + bounds.min
            == attached_deposit,
        ({
            let total = match *balance {
                Some(b) => b.total,
                None => 0u128,
            };
            &&& total >= bounds.min ==> outcome == Ok::<MintPlan, MintError>(
                MintPlan { register_storage: false, amount: attached_deposit },
            )
            &&& total < bounds.min && attached_deposit >= bounds.min ==> outcome == Ok::<
                MintPlan,
                MintError,
            >(
                MintPlan {
                    register_storage: true,
                    amount: (attached_deposit - bounds.min) as u128,
                },
            )
            &&& total < bounds.min && attached_deposit < bounds.min ==> outcome == Err::<
                MintPlan,
                MintError,
            >(
                MintError::StorageDepositBelowMinimum {
                    attached: attached_deposit,
                    minimum: bounds.min,
                },
            )
        }),
{
    let total = stored_total(balance);
    if total < bounds.min {
        if attached_deposit < bounds.min {
            Err(MintError::StorageDepositBelowMinimum { attached: attached_deposit, minimum: bounds.min })
        } else {
            let amount = token_saturating_sub(attached_deposit, bounds.min);
            Ok(MintPlan { register_storage: true, amount })
        }
    } else {
        Ok(MintPlan { register_storage: false, amount: attached_deposit })
    }
}

} // verus!
