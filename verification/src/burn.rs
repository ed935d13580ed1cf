//! Burning tokens for a NEAR refund.

use vstd::prelude::*;

verus! {

/// The deposit a burn call must attach, in yoctoNEAR.
pub const ONE_YOCTO: u128 = 1;

/// Why a burn call is refused.
#[derive(Clone, Copy, Debug, PartialEq, Eq)]
pub enum BurnError {
    /// The call did not attach exactly one yoctoNEAR.
    RequiresOneYocto { attached: u128 },
}

/// What a burn call does: how many tokens it burns from the caller, and how
/// many yoctoNEAR it then sends back to the caller.
#[derive(Clone, Copy, Debug, PartialEq, Eq)]
pub struct BurnPlan {
    pub burn_amount: u128,
    pub refund: u128,
}

/// The outcome of a burn call of `amount` tokens that attaches `attached_deposit`.
pub open spec fn burn_plan_spec(attached_deposit: u128, amount: u128) -> Result<BurnPlan, BurnError> {
    if attached_deposit == ONE_YOCTO {
        Ok(BurnPlan { burn_amount: amount, refund: amount })
    } else {
        Err(BurnError::RequiresOneYocto { attached: attached_deposit })
    }
}

/// Decides a burn call. It goes ahead exactly when one yoctoNEAR is attached;
/// then it burns `amount` tokens and refunds `amount` yoctoNEAR.
pub fn plan_burn(attached_deposit: u128, amount: u128) -> (outcome: Result<BurnPlan, BurnError>)
    ensures
        outcome == burn_plan_spec(attached_deposit, amount),
        outcome is Ok <==> attached_deposit == 1,
        outcome matches Ok(plan) ==> plan.burn_amount == amount && plan.refund == amount,
        outcome matches Err(e) ==> e == (BurnError::RequiresOneYocto { attached: attached_deposit }),
{
    if attached_deposit == ONE_YOCTO {
        Ok(BurnPlan { burn_amount: amount, refund: amount })
    } else {
        Err(BurnError::RequiresOneYocto { attached: attached_deposit })
    }
}

} // verus!
