//! Accounting done around each token transfer.

use vstd::prelude::*;

verus! {

/// Bytes of contract storage that a transfer added, from the storage usage
/// measured before and after it. The subtraction overflows, and the contract
/// fails, when the usage shrank; that input is left out.
pub fn storage_delta(usage_before: u64, usage_after: u64) -> (delta: u64)
    requires
        usage_before <= usage_after,
    ensures
        delta == usage_after - usage_before,
{
    usage_after - usage_before
}

} // verus!
