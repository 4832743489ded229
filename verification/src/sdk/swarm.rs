//! Contract swarms: membership, shared channels, coordinated actions and
//! the swarm's immune state. On the native host a contract belongs to no
//! swarm: lookups find nothing and writes succeed without effect.
pub mod channel;

use vstd::prelude::*;
use crate::sdk::host::slice_to_vec;
use crate::text::push_str;

verus! {

/// Errors of swarm operations.
#[derive(Debug)]
pub enum SwarmError {
    NotInSwarm,
    AccessDenied,
    KeyNotFound,
    SchemaViolation,
    SizeExceeded,
    ActionNotFound,
    ActionAlreadyActive,
    ActionFailed(String),
}

/// The message of a swarm error.
pub open spec fn swarm_error_text(e: SwarmError) -> Seq<char> {
    match e {
        SwarmError::NotInSwarm => "contract is not a swarm member"@,
        SwarmError::AccessDenied => "channel access denied"@,
        SwarmError::KeyNotFound => "channel key not found"@,
        SwarmError::SchemaViolation => "channel schema violation"@,
        SwarmError::SizeExceeded => "channel size limit exceeded"@,
        SwarmError::ActionNotFound => "coordinated action not found"@,
        SwarmError::ActionAlreadyActive => "coordinated action already executing"@,
        SwarmError::ActionFailed(msg) => "coordinated action failed: "@ + msg@,
    }
}

impl SwarmError {
    /// The message describing the error.
    pub fn message(&self) -> (r: String)
        ensures
            r@ == swarm_error_text(*self),
    {
        match self {
            SwarmError::NotInSwarm => String::from_str("contract is not a swarm member"),
            SwarmError::AccessDenied => String::from_str("channel access denied"),
            SwarmError::KeyNotFound => String::from_str("channel key not found"),
            SwarmError::SchemaViolation => String::from_str("channel schema violation"),
            SwarmError::SizeExceeded => String::from_str("channel size limit exceeded"),
            SwarmError::ActionNotFound => String::from_str("coordinated action not found"),
            SwarmError::ActionAlreadyActive => String::from_str(
                "coordinated action already executing",
            ),
            SwarmError::ActionFailed(msg) => {
                let mut s = String::from_str("coordinated action failed: ");
                push_str(&mut s, msg.as_str());
                s
            },
        }
    }
}

/// The immune state of a swarm.
#[derive(Debug, Clone, Copy, PartialEq, Eq, Structural)]
pub enum ImmuneState {
    Normal,
    Throttled,
    Paused,
    Frozen,
}

/// The immune state a host code stands for, if any.
pub open spec fn immune_state_of(code: i32) -> Option<ImmuneState> {
    if code == 0 {
        Some(ImmuneState::Normal)
    } else if code == 1 {
        Some(ImmuneState::Throttled)
    } else if code == 2 {
        Some(ImmuneState::Paused)
    } else if code == 3 {
        Some(ImmuneState::Frozen)
    } else {
        None
    }
}

/// Decodes the host's immune-state code; an unknown code means the contract
/// is in no swarm.
pub fn immune_state_from_host(code: i32) -> (r: Result<ImmuneState, SwarmError>)
    ensures
        r matches Ok(s) ==> immune_state_of(code) == Some(s),
        r is Err ==> immune_state_of(code) is None && r matches Err(SwarmError::NotInSwarm),
{
    match code {
        0 => Ok(ImmuneState::Normal),
        1 => Ok(ImmuneState::Throttled),
        2 => Ok(ImmuneState::Paused),
        3 => Ok(ImmuneState::Frozen),
        _ => Err(SwarmError::NotInSwarm),
    }
}

/// The swarm this contract belongs to; none on the native host.
pub fn swarm_id() -> (r: Option<String>)
    ensures
        r is None,
{
    None
}

/// The members of this contract's swarm; none on the native host.
pub fn members() -> (r: Result<Vec<String>, SwarmError>)
    ensures
        r matches Ok(v) && v@.len() == 0,
{
    Ok(Vec::new())
}

/// A value of another member's state; empty on the native host.
pub fn member_state(member_address: &str, key: &str) -> (r: Result<Vec<u8>, SwarmError>)
    ensures
        r matches Ok(v) && v@.len() == 0,
{
    Ok(Vec::new())
}

/// The swarm's immune state; normal on the native host.
pub fn immune_state() -> (r: Result<ImmuneState, SwarmError>)
    ensures
        r matches Ok(s) && s == ImmuneState::Normal,
{
    immune_state_from_host(0)
}

/// Decodes the host's answer to a coordinated action: its output, or the
/// error its negative status stands for.
pub fn coordinate_from_host(status: i32, buffer: &[u8]) -> (r: Result<Vec<u8>, SwarmError>)
    requires
        status >= 0 ==> status <= buffer@.len(),
    ensures
        status >= 0 ==> (r matches Ok(v) && v@ == buffer@.take(status as int)),
        status == -1 ==> r matches Err(SwarmError::ActionNotFound),
        status == -2 ==> r matches Err(SwarmError::AccessDenied),
        status == -3 ==> r matches Err(SwarmError::ActionAlreadyActive),
        status < -3 ==> (r matches Err(SwarmError::ActionFailed(m)) && m@ == "unknown error"@),
{
    if status < 0 {
        return match status {
            -1 => Err(SwarmError::ActionNotFound),
            -2 => Err(SwarmError::AccessDenied),
            -3 => Err(SwarmError::ActionAlreadyActive),
            _ => Err(SwarmError::ActionFailed(String::from_str("unknown error"))),
        };
    }
    Ok(slice_to_vec(vstd::slice::slice_subrange(buffer, 0, status as usize)))
}

/// Run a coordinated action across the swarm; the native host answers with
/// no output.
pub fn coordinate(action: &str, args_json: &[u8]) -> (r: Result<Vec<u8>, SwarmError>)
    ensures
        r matches Ok(v) && v@.len() == 0,
{
    Ok(Vec::new())
}

} // verus!
