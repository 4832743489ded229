//! Cross-contract calls. The native host runs no other contract: every call
//! reports status -1, which is `InvalidArgument`.
use vstd::prelude::*;
use crate::address::Address;
use crate::endian::{be_seq, splice, write_be};
use crate::error::{error_of_code, Error};

verus! {

/// The outcome of a host call from its status: a negative status `-c` is
/// the error with code `c`, any other is success.
pub open spec fn status_result(status: i32) -> Result<(), Error> {
    if status < 0 {
        Err(error_of_code((-status) as u32))
    } else {
        Ok(())
    }
}

/// Maps a host call's status to its outcome.
pub fn host_status(status: i32) -> (r: Result<(), Error>)
    ensures
        r == status_result(status),
{
    if status < 0 {
        let code = (-(status as i64)) as u32;
        Err(Error::from_code(code))
    } else {
        Ok(())
    }
}

/// The status the native host answers a contract call with.
pub const NATIVE_CALL_STATUS: i32 = -1;

/// Call another contract and return its output.
pub fn call(address: &Address, input: &[u8]) -> (r: Result<Vec<u8>, Error>)
    ensures
        r matches Err(e) && e == error_of_code(1),
{
    match host_status(NATIVE_CALL_STATUS) {
        Ok(()) => Ok(Vec::new()),
        Err(e) => Err(e),
    }
}

/// Call another contract, writing its output into a buffer; returns the
/// output length.
pub fn call_into(address: &Address, input: &[u8], output: &mut [u8]) -> (r: Result<usize, Error>)
    ensures
        r matches Err(e) && e == error_of_code(1),
        final(output)@ == old(output)@,
{
    match host_status(NATIVE_CALL_STATUS) {
        Ok(()) => Ok(0),
        Err(e) => Err(e),
    }
}

/// Delegate call to another contract: its code runs in the context of this
/// contract.
pub fn delegate_call(address: &Address, input: &[u8]) -> (r: Result<Vec<u8>, Error>)
    ensures
        r matches Err(e) && e == error_of_code(1),
{
    match host_status(NATIVE_CALL_STATUS) {
        Ok(()) => Ok(Vec::new()),
        Err(e) => Err(e),
    }
}

/// Build a function call: the 4 big-endian bytes of the selector followed
/// by the encoded arguments; returns the length written.
pub fn build_call(selector: u32, args: &[u8], buffer: &mut [u8]) -> (r: usize)
    requires
        4 + args@.len() <= old(buffer)@.len(),
    ensures
        r == 4 + args@.len(),
        final(buffer)@ == splice(old(buffer)@, 0, be_seq(selector as u128, 4) + args@),
{
    let ghost orig = buffer@;
    write_be(selector as u128, 4, buffer, 0);
    let blen = buffer.len();
    let n = args.len();
    let mut i: usize = 0;
    while i < n
        invariant
            n == args@.len(),
            blen == buffer@.len(),
            blen == orig.len(),
            4 + n <= blen,
            i <= n,
            forall|k: int| 0 <= k < 4 ==> buffer@[k] == be_seq(selector as u128, 4)[k],
            forall|k: int| 4 + n <= k < blen ==> buffer@[k] == orig[k],
            forall|k: int| 0 <= k < i ==> buffer@[4 + k] == args@[k],
        decreases n - i,
    {
        buffer[4 + i] = args[i];
        i = i + 1;
    }
    assert(buffer@ =~= splice(orig, 0, be_seq(selector as u128, 4) + args@));
    4 + n
}

} // verus!
