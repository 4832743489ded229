//! Mission Control observability: the lifetime call count, as the native
//! host answers it.
use vstd::prelude::*;

verus! {

/// The call count the native host reports: it records no calls.
pub const NATIVE_CALLS_TOTAL: u64 = 0;

/// Returns the total lifetime call count for this contract.
pub fn calls_total() -> (r: u64)
    ensures
        r == NATIVE_CALLS_TOTAL,
{
    NATIVE_CALLS_TOTAL
}

} // verus!
