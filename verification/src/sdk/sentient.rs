//! Autonomous-contract services (price feeds, timestamps, randomness,
//! scheduling, event subscriptions, self-metrics and quarantine) as the
//! native host answers them: every feed reads zero, nothing is scheduled
//! or subscribed, and no contract is quarantined.
use vstd::prelude::*;

verus! {

/// Result of a price feed query.
pub struct PriceResult {
    /// Price in cents.
    pub value: i64,
    /// Confidence level (0-100).
    pub confidence: u32,
    /// Block height when the feed was last updated.
    pub updated_at: u64,
}

/// Query the price of a trading pair: (price in cents, confidence percent,
/// updated block); the native host reports zeros.
pub fn price(pair: &str) -> (r: (i64, u32, u64))
    ensures
        r == (0i64, 0u32, 0u64),
{
    (0, 0, 0)
}

/// The consensus-agreed Unix timestamp; the native host reports 0.
pub fn timestamp() -> (r: i64)
    ensures
        r == 0,
{
    0
}

/// A deterministic random seed for the current block; the native host
/// reports zeros.
pub fn random_seed() -> (r: [u8; 32])
    ensures
        r@ == Seq::new(32, |i: int| 0u8),
{
    let r = [0u8; 32];
    assert(r@ =~= Seq::new(32, |i: int| 0u8));
    r
}

/// Schedule a one-time callback at a future block height; returns the
/// callback id, which the native host reports as 0.
pub fn schedule(target_block: u64, function: &str, args: &[u64]) -> (r: u64)
    ensures
        r == 0,
{
    0
}

/// Schedule a recurring callback; returns the callback id, 0 on the native
/// host.
pub fn schedule_recurring(interval_blocks: u64, function: &str, args: &[u64], max_executions: u32) -> (r: u64)
    ensures
        r == 0,
{
    0
}

/// Cancel a scheduled callback; the native host has none to cancel.
pub fn cancel_schedule(callback_id: u64) -> (r: bool)
    ensures
        !r,
{
    false
}

/// Subscribe to another contract's events; returns the subscription id,
/// 0 on the native host.
pub fn on_event(source_contract: &str, event_name: &str, handler: &str) -> (r: u64)
    ensures
        r == 0,
{
    0
}

/// Remove an event subscription; the native host has none to remove.
pub fn remove_event_handler(subscription_id: u64) -> (r: bool)
    ensures
        !r,
{
    false
}

/// Calls of this contract in the last blocks; 0 on the native host.
pub fn my_call_count(last_n_blocks: u64) -> (r: u64)
    ensures
        r == 0,
{
    0
}

/// Gas used by this contract in the last blocks; 0 on the native host.
pub fn my_gas_total(last_n_blocks: u64) -> (r: u64)
    ensures
        r == 0,
{
    0
}

/// Distinct callers of this contract in the last blocks; 0 on the native
/// host.
pub fn my_unique_callers(last_n_blocks: u64) -> (r: u64)
    ensures
        r == 0,
{
    0
}

/// Value sent out by this contract in the last blocks; 0 on the native host.
pub fn my_value_outflow(last_n_blocks: u64) -> (r: u64)
    ensures
        r == 0,
{
    0
}

/// The last error of this contract; empty on the native host.
pub fn my_last_error() -> (r: String)
    ensures
        r@ == Seq::<char>::empty(),
{
    String::new()
}

/// Whether a contract is quarantined; the native host quarantines none.
pub fn is_quarantined(contract_url: &str) -> (r: bool)
    ensures
        !r,
{
    false
}

} // verus!
