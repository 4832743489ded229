//! Time-aware contract services: historical state, self-metrics,
//! scheduling and call simulation. The native host keeps no history and
//! schedules nothing; simulation estimates gas without running the call.
use vstd::prelude::*;
use crate::sdk::host::slice_to_vec;

verus! {

/// A storage value as it was at some block.
pub struct HistoricalResult {
    pub value: Vec<u8>,
    pub found: bool,
    pub block_height: u64,
}

/// One change of a storage value.
pub struct StateHistoryEntry {
    pub block_height: u64,
    pub old_value: Vec<u8>,
    pub new_value: Vec<u8>,
}

/// Decodes the host's answer to a historical read: a negative status means
/// not found, otherwise the first `status` bytes of the buffer are the
/// value.
pub fn historical_from_host(status: i32, buffer: &[u8], block_height: u64) -> (r: HistoricalResult)
    requires
        status >= 0 ==> status <= buffer@.len(),
    ensures
        r.found == (status >= 0),
        r.block_height == block_height,
        r.value@ == (if status >= 0 {
            buffer@.take(status as int)
        } else {
            Seq::empty()
        }),
{
    if status < 0 {
        return HistoricalResult { value: Vec::new(), found: false, block_height };
    }
    let len = status as usize;
    let value = slice_to_vec(vstd::slice::slice_subrange(buffer, 0, len));
    HistoricalResult { value, found: true, block_height }
}

/// Read a storage value of a contract as it was at a block; the native host
/// keeps no history, so nothing is found.
pub fn state_at_block(contract_url: &str, storage_key: &str, block_height: u64) -> (r: HistoricalResult)
    ensures
        !r.found,
        r.value@ == Seq::<u8>::empty(),
        r.block_height == block_height,
{
    HistoricalResult { value: Vec::new(), found: false, block_height }
}

/// The little-endian value of the 4 bytes of `s` at `o`.
pub open spec fn le32_at(s: Seq<u8>, o: int) -> nat {
    (s[o] + 256 * s[o + 1] + 65536 * s[o + 2] + 16777216 * s[o + 3]) as nat
}

/// The little-endian value of the 8 bytes of `s` at `o`.
pub open spec fn le64_at(s: Seq<u8>, o: int) -> nat {
    le32_at(s, o) + 4294967296 * le32_at(s, o + 4)
}

/// The change records encoded in `buf` from `offset` on, at most `count`
/// of them: each is an 8-byte block height, a 4-byte length and the old
/// value, a 4-byte length and the new value (all little-endian); reading
/// stops at the first record that does not fit in the buffer.
pub open spec fn history_records(buf: Seq<u8>, offset: nat, count: nat) -> Seq<(nat, Seq<u8>, Seq<u8>)>
    decreases count,
{
    if count == 0 || offset + 8 > buf.len() {
        Seq::empty()
    } else {
        let bh = le64_at(buf, offset as int);
        let o1 = offset + 8;
        if o1 + 4 > buf.len() {
            Seq::empty()
        } else {
            let old_len = le32_at(buf, o1 as int);
            let o2 = o1 + 4;
            if o2 + old_len > buf.len() {
                Seq::empty()
            } else {
                let old_value = buf.subrange(o2 as int, (o2 + old_len) as int);
                let o3 = o2 + old_len;
                if o3 + 4 > buf.len() {
                    Seq::empty()
                } else {
                    let new_len = le32_at(buf, o3 as int);
                    let o4 = o3 + 4;
                    if o4 + new_len > buf.len() {
                        Seq::empty()
                    } else {
                        let new_value = buf.subrange(o4 as int, (o4 + new_len) as int);
                        seq![(bh, old_value, new_value)] + history_records(
                            buf,
                            o4 + new_len,
                            (count - 1) as nat,
                        )
                    }
                }
            }
        }
    }
}

fn read_le32(buf: &[u8], o: usize) -> (r: u64)
    requires
        o + 4 <= buf@.len(),
    ensures
        r == le32_at(buf@, o as int),
        r < 4294967296,
{
    (buf[o] as u64) + 256 * (buf[o + 1] as u64) + 65536 * (buf[o + 2] as u64) + 16777216 * (buf[o
        + 3] as u64)
}

/// Decodes the host's answer to a history query: `count` change records
/// (none when `count` is not positive), read as `history_records` reads
/// them.
pub fn state_history_from_host(count: i32, buf: &[u8]) -> (r: Vec<StateHistoryEntry>)
    ensures
        r@.len() == (if count > 0 {
            history_records(buf@, 0, count as nat).len()
        } else {
            0
        }),
        count > 0 ==> forall|i: int|
            0 <= i < r@.len() ==> {
                let rec = history_records(buf@, 0, count as nat)[i];
                &&& (#[trigger] r@[i]).block_height == rec.0
                &&& r@[i].old_value@ == rec.1
                &&& r@[i].new_value@ == rec.2
            },
{
    let mut entries: Vec<StateHistoryEntry> = Vec::new();
    if count <= 0 {
        return entries;
    }
    let total = count as u32;
    let n = buf.len();
    let mut offset: usize = 0;
    let mut k: u32 = 0;
    while k < total
        invariant
            n == buf@.len(),
            count > 0,
            total == count as nat,
            k <= total,
            offset <= n,
            history_records(buf@, 0, count as nat) == entries_records(entries@)
                + history_records(buf@, offset as nat, (total - k) as nat),
        ensures
            history_records(buf@, 0, count as nat) == entries_records(entries@),
        decreases total - k,
    {
        if offset > n || n - offset < 8 {
            break;
        }
        let lo = read_le32(buf, offset);
        let hi = read_le32(buf, offset + 4);
        let bh: u64 = lo + 4294967296 * hi;
        let o1 = offset + 8;
        if n - o1 < 4 {
            break;
        }
        let old_len = read_le32(buf, o1);
        let o2 = o1 + 4;
        if ((n - o2) as u64) < old_len {
            break;
        }
        let old_value = slice_to_vec(vstd::slice::slice_subrange(buf, o2, o2 + old_len as usize));
        let o3 = o2 + old_len as usize;
        if n - o3 < 4 {
            break;
        }
        let new_len = read_le32(buf, o3);
        let o4 = o3 + 4;
        if ((n - o4) as u64) < new_len {
            break;
        }
        let new_value = slice_to_vec(vstd::slice::slice_subrange(buf, o4, o4 + new_len as usize));
        let ghost before = entries@;
        entries.push(StateHistoryEntry { block_height: bh, old_value, new_value });
        proof {
            assert(entries_records(entries@) =~= entries_records(before) + seq![
                (bh as nat, old_value@, new_value@),
            ]);
        }
        offset = o4 + new_len as usize;
        k = k + 1;
    }
    proof {
        assert(entries_records(entries@).len() == entries@.len());
    }
    entries
}

/// The records held by decoded entries.
pub open spec fn entries_records(e: Seq<StateHistoryEntry>) -> Seq<(nat, Seq<u8>, Seq<u8>)> {
    Seq::new(e.len(), |i: int| (e[i].block_height as nat, e[i].old_value@, e[i].new_value@))
}

/// The history of one of this contract's storage values; the native host
/// keeps none.
pub fn my_state_history(storage_key: &str, max_entries: u32) -> (r: Vec<StateHistoryEntry>)
    ensures
        r@.len() == 0,
{
    Vec::new()
}

/// The consensus-agreed Unix timestamp; 0 on the native host.
pub fn consensus_time() -> (r: i64)
    ensures
        r == 0,
{
    0
}

/// Calls of this contract in the last blocks; 0 on the native host.
pub fn my_call_count(last_n_blocks: u64) -> (r: u64)
    ensures
        r == 0,
{
    0
}

/// Gas trend of this contract over the last blocks; 0 on the native host.
pub fn my_gas_trend(last_n_blocks: u64) -> (r: u64)
    ensures
        r == 0,
{
    0
}

/// Distinct callers of this contract in the last blocks; 0 on the native
/// host.
pub fn my_unique_callers(last_n_blocks: u64) -> (r: u64)
    ensures
        r == 0,
{
    0
}

/// Schedule a call at a block; returns the schedule id, 0 on the native
/// host.
pub fn schedule_at(target_block: u64, function: &str, args: &[u64]) -> (r: u64)
    ensures
        r == 0,
{
    0
}

/// Schedule a recurring call; returns the schedule id, 0 on the native host.
pub fn schedule_recurring(interval_blocks: u64, function: &str, args: &[u64], max_executions: u32) -> (r: u64)
    ensures
        r == 0,
{
    0
}

/// Cancel a scheduled call; the native host has none to cancel.
pub fn cancel_schedule(callback_id: u64) -> (r: bool)
    ensures
        !r,
{
    false
}

/// Outcome of a simulated call.
pub struct SimulationResult {
    pub success: bool,
    pub return_values: Vec<u64>,
    pub gas_used: u64,
    pub error: Option<String>,
}

impl SimulationResult {
    /// Whether the call would succeed.
    pub fn would_succeed(&self) -> (r: bool)
        ensures
            r == self.success,
    {
        self.success
    }

    /// The first return value as an `i32` (its low 32 bits), or 0 when
    /// there is none.
    pub fn return_i32(&self) -> (r: i32)
        ensures
            r == (if self.return_values@.len() > 0 {
                self.return_values@[0] as i32
            } else {
                0
            }),
    {
        if self.return_values.len() > 0 {
            #[verifier::truncate]
            (self.return_values[0] as i32)
        } else {
            0
        }
    }
}

/// The gas a simulated call with `n` arguments is estimated to use.
pub open spec fn simulated_gas(n: nat) -> nat {
    21000 + 200 * n
}

/// What a simulation reports, as values: success, return values, gas used
/// and the error text, if any.
pub open spec fn simulation_view(r: SimulationResult) -> (bool, Seq<u64>, nat, Option<Seq<char>>) {
    (
        r.success,
        r.return_values@,
        r.gas_used as nat,
        match r.error {
            Some(e) => Some(e@),
            None => None,
        },
    )
}

/// The simulation of a call with `n` arguments: success, one zero per
/// argument, 21000 gas plus 200 per argument, no error.
pub open spec fn simulated(n: nat) -> (bool, Seq<u64>, nat, Option<Seq<char>>) {
    (true, Seq::new(n, |i: int| 0u64), 21000 + 200 * n, None)
}

/// The simulation of a call with `n` arguments and `k` storage overrides:
/// success, one zero per argument, 21000 gas plus 200 per argument plus 500
/// per override, no error.
pub open spec fn simulated_with_overrides(n: nat, k: nat) -> (bool, Seq<u64>, nat, Option<Seq<char>>) {
    (true, Seq::new(n, |i: int| 0u64), 21000 + 200 * n + 500 * k, None)
}

/// Storage overrides only add 500 gas each: the outcome, the return
/// values and the error are those of the plain simulation.
pub proof fn lemma_overrides_only_add_gas(n: nat, k: nat)
    ensures
        ({
            let b = simulated(n);
            let o = simulated_with_overrides(n, k);
            o.0 == b.0 && o.1 == b.1 && o.2 == b.2 + 500 * k && o.3 == b.3
        }),
{
}

/// Simulate a call: it succeeds, returns one zero per argument and is
/// estimated at 21000 gas plus 200 per argument.
pub fn simulate(function: &str, args: &[u64]) -> (r: SimulationResult)
    requires
        simulated_gas(args@.len()) <= u64::MAX,
    ensures
        r.success,
        r.return_values@ == Seq::new(args@.len(), |i: int| 0u64),
        r.gas_used == simulated_gas(args@.len()),
        r.error is None,
        simulation_view(r) == simulated(args@.len()),
{
    let n = args.len();
    let estimated_gas = 21000u64 + 200u64 * (n as u64);
    let mut return_values: Vec<u64> = Vec::new();
    let mut i: usize = 0;
    while i < n
        invariant
            i <= n,
            return_values@ == Seq::new(i as nat, |k: int| 0u64),
        decreases n - i,
    {
        return_values.push(0);
        assert(return_values@ =~= Seq::new((i + 1) as nat, |k: int| 0u64));
        i = i + 1;
    }
    SimulationResult { success: true, return_values, gas_used: estimated_gas, error: None }
}

/// Simulate a call with storage overrides: as `simulate`, with 500 more gas
/// per override.
pub fn simulate_with_overrides(function: &str, args: &[u64], overrides: &[(&str, &[u8])]) -> (r: SimulationResult)
    requires
        simulated_gas(args@.len()) + 500 * overrides@.len() <= u64::MAX,
    ensures
        r.success,
        r.return_values@ == Seq::new(args@.len(), |i: int| 0u64),
        r.gas_used == simulated_gas(args@.len()) + 500 * overrides@.len(),
        r.error is None,
        simulation_view(r) == simulated_with_overrides(args@.len(), overrides@.len()),
{
    let base = simulate(function, args);
    let override_cost = 500u64 * (overrides.len() as u64);
    SimulationResult {
        success: base.success,
        return_values: base.return_values,
        gas_used: base.gas_used + override_cost,
        error: base.error,
    }
}

} // verus!
