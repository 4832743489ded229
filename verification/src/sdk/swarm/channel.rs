//! The swarm's shared key-value channel.
use vstd::prelude::*;
use crate::endian::{be_seq, read_be};
use crate::sdk::host::slice_to_vec;
use crate::sdk::swarm::SwarmError;

verus! {

/// Decodes the host's answer to a channel read: the value, or the error a
/// negative status stands for.
pub fn get_from_host(status: i32, buffer: &[u8]) -> (r: Result<Vec<u8>, SwarmError>)
    requires
        status >= 0 ==> status <= buffer@.len(),
    ensures
        status >= 0 ==> (r matches Ok(v) && v@ == buffer@.take(status as int)),
        status == -1 ==> r matches Err(SwarmError::KeyNotFound),
        status == -2 ==> r matches Err(SwarmError::AccessDenied),
        status < -2 ==> r matches Err(SwarmError::NotInSwarm),
{
    if status >= 0 {
        Ok(slice_to_vec(vstd::slice::slice_subrange(buffer, 0, status as usize)))
    } else if status == -1 {
        Err(SwarmError::KeyNotFound)
    } else if status == -2 {
        Err(SwarmError::AccessDenied)
    } else {
        Err(SwarmError::NotInSwarm)
    }
}

/// Read a channel value; empty on the native host.
pub fn get(key: &str) -> (r: Result<Vec<u8>, SwarmError>)
    ensures
        r matches Ok(v) && v@.len() == 0,
{
    Ok(Vec::new())
}

/// The `u64` a channel value stands for: its first 8 bytes big-endian, or 0
/// when it is shorter.
pub fn u64_of_value(data: &[u8]) -> (r: u64)
    ensures
        data@.len() < 8 ==> r == 0,
        data@.len() >= 8 ==> be_seq(r as u128, 8) == data@.take(8),
{
    if data.len() < 8 {
        return 0;
    }
    let v = read_be(data, 0, 8);
    assert(v < 0x1_0000_0000_0000_0000) by {
        assert((1u128 << 64u128) == 0x1_0000_0000_0000_0000) by (bit_vector);
    }
    assert(data@.subrange(0, 8) =~= data@.take(8));
    v as u64
}

/// Read a channel value as a `u64`; 0 on the native host.
pub fn get_u64(key: &str) -> (r: Result<u64, SwarmError>)
    ensures
        r matches Ok(v) && v == 0,
{
    match get(key) {
        Ok(data) => Ok(u64_of_value(data.as_slice())),
        Err(e) => Err(e),
    }
}

/// Decodes the host's status for a channel write.
pub fn set_status(status: i32) -> (r: Result<(), SwarmError>)
    ensures
        status == 0 <==> r is Ok,
        status == 2 ==> r matches Err(SwarmError::AccessDenied),
        status == 3 ==> r matches Err(SwarmError::NotInSwarm),
        status == 4 ==> r matches Err(SwarmError::SizeExceeded),
        (status != 0 && status != 2 && status != 3 && status != 4) ==> r matches Err(
            SwarmError::SchemaViolation,
        ),
{
    match status {
        0 => Ok(()),
        1 => Err(SwarmError::SchemaViolation),
        2 => Err(SwarmError::AccessDenied),
        3 => Err(SwarmError::NotInSwarm),
        4 => Err(SwarmError::SizeExceeded),
        _ => Err(SwarmError::SchemaViolation),
    }
}

/// Write a channel value; the native host accepts every write.
pub fn set(key: &str, value: &[u8]) -> (r: Result<(), SwarmError>)
    ensures
        r is Ok,
{
    set_status(0)
}

/// Write a `u64` as its 8 big-endian bytes.
pub fn set_u64(key: &str, value: u64) -> (r: Result<(), SwarmError>)
    ensures
        r is Ok,
{
    let mut bytes = [0u8; 8];
    crate::endian::write_be(value as u128, 8, &mut bytes, 0);
    set(key, bytes.as_slice())
}

/// Decodes the host's answer to a channel membership query.
pub fn has_from_host(result: i32) -> (r: Result<bool, SwarmError>)
    ensures
        result == 1 ==> (r matches Ok(b) && b),
        result == -1 ==> r matches Err(SwarmError::NotInSwarm),
        result == -2 ==> r matches Err(SwarmError::AccessDenied),
        (result != 1 && result != -1 && result != -2) ==> (r matches Ok(b) && !b),
{
    match result {
        1 => Ok(true),
        0 => Ok(false),
        -1 => Err(SwarmError::NotInSwarm),
        -2 => Err(SwarmError::AccessDenied),
        _ => Ok(false),
    }
}

/// Whether the channel holds a key; never on the native host.
pub fn has(key: &str) -> (r: Result<bool, SwarmError>)
    ensures
        r matches Ok(b) && !b,
{
    has_from_host(0)
}

/// Decodes the host's status for a channel delete.
pub fn delete_status(status: i32) -> (r: Result<(), SwarmError>)
    ensures
        status == 0 <==> r is Ok,
        status == 1 ==> r matches Err(SwarmError::KeyNotFound),
        status == 2 ==> r matches Err(SwarmError::AccessDenied),
        (status != 0 && status != 1 && status != 2) ==> r matches Err(SwarmError::NotInSwarm),
{
    match status {
        0 => Ok(()),
        1 => Err(SwarmError::KeyNotFound),
        2 => Err(SwarmError::AccessDenied),
        _ => Err(SwarmError::NotInSwarm),
    }
}

/// Delete a channel value; the native host accepts every delete.
pub fn delete(key: &str) -> (r: Result<(), SwarmError>)
    ensures
        r is Ok,
{
    delete_status(0)
}

} // verus!
