//! Address validation utilities.
use vstd::prelude::*;
use crate::address::Address;
use crate::error::Error;

verus! {

/// Every byte of the address is zero (the empty address included).
pub open spec fn all_zero(b: Seq<u8>) -> bool {
    forall|i: int| 0 <= i < b.len() ==> b[i] == 0
}

/// Check if an address is the zero address
pub fn is_zero(addr: &Address) -> (r: bool)
    ensures
        r == all_zero(addr@),
{
    let b = addr.as_bytes();
    let mut i: usize = 0;
    while i < b.len()
        invariant
            i <= b@.len(),
            b@ == addr@,
            forall|k: int| 0 <= k < i ==> b@[k] == 0,
        decreases b@.len() - i,
    {
        if b[i] != 0 {
            return false;
        }
        i = i + 1;
    }
    true
}

/// Require an address is not zero
pub fn require_non_zero(addr: &Address) -> (r: Result<(), Error>)
    ensures
        r is Ok <==> !all_zero(addr@),
        r matches Err(e) ==> e == Error::ZeroAddress,
{
    if is_zero(addr) {
        Err(Error::ZeroAddress)
    } else {
        Ok(())
    }
}

} // verus!
