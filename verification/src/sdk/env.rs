//! Environment and execution context.
use vstd::prelude::*;
use crate::address::Address;
use crate::error::Error;
use crate::hash::zero32;
use crate::sdk::host::{Host, NATIVE_BLOCK_TIME, NATIVE_GAS_REMAINING};
use crate::types::Context;
use crate::u256::U256;

verus! {

/// Get the caller's address: the address of the account that initiated the
/// current call.
pub fn caller(host: &Host) -> (r: Address)
    ensures
        r@ == (if host.caller_bytes().len() <= 256 {
            host.caller_bytes()
        } else {
            Seq::empty()
        }),
{
    match Address::from_bytes(host.caller()) {
        Some(a) => a,
        None => Address::empty(),
    }
}

/// Get this contract's address; the native host reports none, so it is
/// the empty address.
pub fn self_address() -> (r: Address)
    ensures
        r@ == Seq::<u8>::empty(),
{
    Address::empty()
}

/// Get the contract owner's address; the native host reports none, so it
/// is the empty address.
pub fn owner() -> (r: Address)
    ensures
        r@ == Seq::<u8>::empty(),
{
    Address::empty()
}

/// Get the current block height
pub fn block_height(host: &Host) -> (r: u64)
    ensures
        r == host.height(),
{
    host.block_height()
}

/// Get the current block timestamp (Unix seconds)
pub fn block_time() -> (r: u64)
    ensures
        r == NATIVE_BLOCK_TIME,
{
    NATIVE_BLOCK_TIME
}

/// Get the value (tokens) sent with the call; the native host sends none.
pub fn value() -> (r: U256)
    ensures
        r@ == 0,
{
    let buffer = [0u8; 32];
    let r = U256::from_be_bytes(&buffer);
    proof {
        assert(buffer@ =~= Seq::new(32, |i: int| 0u8));
        crate::sdk::l0::lemma_zero_bytes_are_zero(r);
    }
    r
}

/// Get the remaining gas
pub fn gas_remaining() -> (r: u64)
    ensures
        r == NATIVE_GAS_REMAINING,
{
    NATIVE_GAS_REMAINING
}

/// Get the transaction hash; the native host reports all zeros.
pub fn tx_hash() -> (r: crate::hash::Hash)
    ensures
        r.0@ == zero32(),
{
    crate::hash::Hash::zero()
}

/// Get the full execution context
pub fn context(host: &Host) -> (r: Context)
    ensures
        r.caller@ == (if host.caller_bytes().len() <= 256 {
            host.caller_bytes()
        } else {
            Seq::empty()
        }),
        r.block_height == host.height(),
        r.block_time == NATIVE_BLOCK_TIME,
        r.tx_hash.0@ == zero32(),
        r.value@ == 0,
        r.gas_limit == NATIVE_GAS_REMAINING,
{
    Context {
        caller: caller(host),
        block_height: block_height(host),
        block_time: block_time(),
        tx_hash: tx_hash(),
        value: value(),
        gas_limit: gas_remaining(),
    }
}

/// Require a condition, returning the error if it does not hold.
pub fn require(condition: bool, error: Error) -> (r: Result<(), Error>)
    ensures
        r is Ok <==> condition,
        r matches Err(e) ==> e == error,
{
    if condition {
        Ok(())
    } else {
        Err(error)
    }
}

} // verus!
