//! Contract testing framework: a simulated chain for tests, with
//! deployments, one-shot call and query fixtures, time travel and
//! snapshots.
use vstd::prelude::*;
use vstd::string::{StrSliceExecFns, StringExecFns};
use crate::sdk::host::slice_to_vec;
use crate::shape_params::{all_digits, digits_value, lemma_digits_value_grows};
use crate::text::{i64_to_decimal, push_char, push_str, signed_decimal, str_eq};

verus! {

/// The value of a decimal numeral with an optional leading `+`.
pub open spec fn unsigned_value(s: Seq<char>) -> Option<nat> {
    let d = if s.len() > 0 && s[0] == '+' {
        s.drop_first()
    } else {
        s
    };
    if all_digits(d) {
        Some(digits_value(d))
    } else {
        None
    }
}

/// The `u64` a text stands for, as `str::parse::<u64>` reads it.
pub open spec fn parse_u64(s: Seq<char>) -> Option<u64> {
    match unsigned_value(s) {
        Some(v) => if v <= u64::MAX {
            Some(v as u64)
        } else {
            None
        },
        None => None,
    }
}

/// The `i32` a text stands for, as `str::parse::<i32>` reads it.
pub open spec fn parse_i32(s: Seq<char>) -> Option<i32> {
    if s.len() > 0 && s[0] == '-' {
        let d = s.drop_first();
        if all_digits(d) && digits_value(d) <= 0x8000_0000 {
            Some((-digits_value(d)) as i32)
        } else {
            None
        }
    } else {
        match unsigned_value(s) {
            Some(v) => if v <= i32::MAX {
                Some(v as i32)
            } else {
                None
            },
            None => None,
        }
    }
}

/// The value of the digits of `s` from `start` on, if they are all digits
/// (at least one) and the value is at most `limit`.
fn digits_at_most(s: &str, start: usize, limit: u64) -> (r: Option<u64>)
    requires
        start <= s@.len(),
    ensures
        r is Some <==> all_digits(s@.skip(start as int)) && digits_value(s@.skip(start as int))
            <= limit,
        r matches Some(v) ==> v == digits_value(s@.skip(start as int)),
{
    let n = s.unicode_len();
    let ghost d = s@.skip(start as int);
    if start == n {
        return None;
    }
    let mut i: usize = start;
    while i < n
        invariant
            n == s@.len(),
            start <= i <= n,
            d == s@.skip(start as int),
            forall|k: int| 0 <= k < i - start ==> '0' <= #[trigger] d[k] && d[k] <= '9',
        decreases n - i,
    {
        let c = s.get_char(i);
        if !('0' <= c && c <= '9') {
            assert(d[i - start] == c);
            return None;
        }
        i = i + 1;
    }
    let mut v: u64 = 0;
    let mut k: usize = start;
    while k < n
        invariant
            n == s@.len(),
            start <= k <= n,
            d == s@.skip(start as int),
            all_digits(d),
            v == digits_value(d.take(k - start)),
            v <= limit,
        decreases n - k,
    {
        assert(d.take(k + 1 - start).drop_last() =~= d.take(k - start));
        let c = s.get_char(k);
        assert(c == d[k - start]);
        let digit = (c as u32 - 48) as u64;
        let next: u128 = (v as u128) * 10 + (digit as u128);
        if next > limit as u128 {
            proof {
                lemma_digits_value_grows(d, (k + 1 - start) as nat);
            }
            return None;
        }
        v = next as u64;
        k = k + 1;
    }
    assert(d.take(n - start) =~= d);
    Some(v)
}

/// Reads a text as `str::parse::<u64>` does: an optional `+`, then
/// decimal digits, at most `u64::MAX`.
pub fn parse_u64_text(s: &str) -> (r: Option<u64>)
    ensures
        r == parse_u64(s@),
{
    let n = s.unicode_len();
    let start: usize = if n > 0 && s.get_char(0) == '+' {
        1
    } else {
        0
    };
    proof {
        if start == 1 {
            assert(s@.skip(1) =~= s@.drop_first());
        } else {
            assert(s@.skip(0) =~= s@);
        }
    }
    digits_at_most(s, start, u64::MAX)
}

/// Reads a text as `str::parse::<i32>` does: an optional sign, then
/// decimal digits, within the range of `i32`.
pub fn parse_i32_text(s: &str) -> (r: Option<i32>)
    ensures
        r == parse_i32(s@),
{
    let n = s.unicode_len();
    if n > 0 && s.get_char(0) == '-' {
        assert(s@.skip(1) =~= s@.drop_first());
        match digits_at_most(s, 1, 0x8000_0000) {
            Some(v) => Some((0i64 - (v as i64)) as i32),
            None => None,
        }
    } else {
        let start: usize = if n > 0 && s.get_char(0) == '+' {
            1
        } else {
            0
        };
        proof {
            if start == 1 {
                assert(s@.skip(1) =~= s@.drop_first());
            } else {
                assert(s@.skip(0) =~= s@);
            }
        }
        match digits_at_most(s, start, 0x7fff_ffff) {
            Some(v) => Some(v as i32),
            None => None,
        }
    }
}

/// The view of an optional string.
pub open spec fn opt_view(o: Option<String>) -> Option<Seq<char>> {
    match o {
        Some(s) => Some(s@),
        None => None,
    }
}

fn clone_opt(o: &Option<String>) -> (r: Option<String>)
    ensures
        opt_view(r) == opt_view(*o),
{
    match o {
        Some(s) => Some(s.clone()),
        None => None,
    }
}

/// A reference to a deployed contract within the test harness.
#[derive(Debug)]
pub struct ContractRef {
    /// The contract's URL (e.g., `acc://test.acme/counter`).
    pub url: String,
}

impl View for ContractRef {
    type V = Seq<char>;

    open spec fn view(&self) -> Seq<char> {
        self.url@
    }
}

impl Clone for ContractRef {
    fn clone(&self) -> (r: Self)
        ensures
            r@ == self@,
    {
        ContractRef { url: self.url.clone() }
    }
}

impl ContractRef {
    /// Create a new contract reference from a URL.
    pub fn new(url: &str) -> (r: Self)
        ensures
            r@ == url@,
    {
        ContractRef { url: String::from_str(url) }
    }
}

/// A named event emitted during contract execution.
#[derive(Debug)]
pub struct TestEvent {
    /// Event name.
    pub name: String,
    /// Event data.
    pub data: Vec<u8>,
}

impl View for TestEvent {
    type V = (Seq<char>, Seq<u8>);

    open spec fn view(&self) -> (Seq<char>, Seq<u8>) {
        (self.name@, self.data@)
    }
}

impl Clone for TestEvent {
    fn clone(&self) -> (r: Self)
        ensures
            r@ == self@,
    {
        TestEvent { name: self.name.clone(), data: slice_to_vec(self.data.as_slice()) }
    }
}

/// The views of a list of events.
pub open spec fn events_view(e: Seq<TestEvent>) -> Seq<(Seq<char>, Seq<u8>)> {
    Seq::new(e.len(), |i: int| e[i]@)
}

fn clone_events(e: &Vec<TestEvent>) -> (r: Vec<TestEvent>)
    ensures
        events_view(r@) == events_view(e@),
{
    let mut out: Vec<TestEvent> = Vec::new();
    let mut i: usize = 0;
    while i < e.len()
        invariant
            i <= e@.len(),
            out@.len() == i,
            events_view(out@) == events_view(e@.take(i as int)),
        decreases e@.len() - i,
    {
        let c = e[i].clone();
        assert(c@ == e@[i as int]@);
        let ghost before = out@;
        out.push(c);
        assert(out@ == before.push(c));
        assert forall|k: int| 0 <= k < i + 1 implies #[trigger] events_view(out@)[k] == events_view(
            e@.take(i + 1),
        )[k] by {
            if k < i {
                assert(events_view(before)[k] == events_view(e@.take(i as int))[k]);
            }
        }
        assert(events_view(out@) =~= events_view(e@.take(i + 1)));
        i = i + 1;
    }
    assert(e@.take(e@.len() as int) =~= e@);
    out
}

/// The view of a receipt: transaction hash, status, gas used, block height,
/// return data, error and events.
pub type ReceiptView = (
    Seq<char>,
    Seq<char>,
    u64,
    u64,
    Option<Seq<char>>,
    Option<Seq<char>>,
    Seq<(Seq<char>, Seq<u8>)>,
);

/// The result of a state-changing contract call.
#[derive(Debug)]
pub struct Receipt {
    /// Transaction hash.
    pub tx_hash: String,
    /// Execution status: `"success"` or `"failed"`.
    pub status: String,
    /// Gas consumed by the call.
    pub gas_used: u64,
    /// Block height at which the transaction was processed.
    pub block_height: u64,
    /// Formatted return data (for successful calls).
    pub return_data: Option<String>,
    /// Error message (for failed calls).
    pub error: Option<String>,
    /// Events emitted during the call.
    pub events: Vec<TestEvent>,
}

impl View for Receipt {
    type V = ReceiptView;

    open spec fn view(&self) -> ReceiptView {
        (
            self.tx_hash@,
            self.status@,
            self.gas_used,
            self.block_height,
            opt_view(self.return_data),
            opt_view(self.error),
            events_view(self.events@),
        )
    }
}

impl Clone for Receipt {
    fn clone(&self) -> (r: Self)
        ensures
            r@ == self@,
    {
        Receipt {
            tx_hash: self.tx_hash.clone(),
            status: self.status.clone(),
            gas_used: self.gas_used,
            block_height: self.block_height,
            return_data: clone_opt(&self.return_data),
            error: clone_opt(&self.error),
            events: clone_events(&self.events),
        }
    }
}

impl Receipt {
    /// Returns `true` if the call succeeded.
    pub fn is_success(&self) -> (r: bool)
        ensures
            r == (self.status@ == "success"@),
    {
        str_eq(self.status.as_str(), "success")
    }

    /// Returns `true` if the call failed (reverted).
    pub fn is_failure(&self) -> (r: bool)
        ensures
            r == (self.status@ == "failed"@),
    {
        str_eq(self.status.as_str(), "failed")
    }

    /// Returns the return value as an `i32`; the receipt must carry return
    /// data that reads as one.
    pub fn return_i32(&self) -> (r: i32)
        requires
            self.return_data matches Some(d) && parse_i32(d@) is Some,
        ensures
            Some(r) == parse_i32(self.return_data->Some_0@),
    {
        match &self.return_data {
            Some(d) => match parse_i32_text(d.as_str()) {
                Some(v) => v,
                None => 0,
            },
            None => 0,
        }
    }

    /// Returns the return value as a `u64`; the receipt must carry return
    /// data that reads as one.
    pub fn return_u64(&self) -> (r: u64)
        requires
            self.return_data matches Some(d) && parse_u64(d@) is Some,
        ensures
            Some(r) == parse_u64(self.return_data->Some_0@),
    {
        match &self.return_data {
            Some(d) => match parse_u64_text(d.as_str()) {
                Some(v) => v,
                None => 0,
            },
            None => 0,
        }
    }
}

/// The result of a read-only contract query.
#[derive(Debug)]
pub struct QueryResult {
    /// Formatted return data.
    pub return_data: String,
}

impl View for QueryResult {
    type V = Seq<char>;

    open spec fn view(&self) -> Seq<char> {
        self.return_data@
    }
}

impl Clone for QueryResult {
    fn clone(&self) -> (r: Self)
        ensures
            r@ == self@,
    {
        QueryResult { return_data: self.return_data.clone() }
    }
}

impl QueryResult {
    /// Parse the return data as an `i32`; it must read as one.
    pub fn return_i32(&self) -> (r: i32)
        requires
            parse_i32(self.return_data@) is Some,
        ensures
            Some(r) == parse_i32(self.return_data@),
    {
        match parse_i32_text(self.return_data.as_str()) {
            Some(v) => v,
            None => 0,
        }
    }

    /// Parse the return data as a `u64`; it must read as one.
    pub fn return_u64(&self) -> (r: u64)
        requires
            parse_u64(self.return_data@) is Some,
        ensures
            Some(r) == parse_u64(self.return_data@),
    {
        match parse_u64_text(self.return_data.as_str()) {
            Some(v) => v,
            None => 0,
        }
    }

    /// Return the raw string data.
    pub fn return_string(&self) -> (r: &str)
        ensures
            r@ == self.return_data@,
    {
        self.return_data.as_str()
    }

    /// Return the data as bytes (UTF-8).
    pub fn return_bytes(&self) -> (r: Vec<u8>)
        ensures
            r@ == vstd::utf8::encode_utf8(self.return_data@),
    {
        slice_to_vec(self.return_data.as_str().as_bytes())
    }
}

/// A pre-funded test identity.
#[derive(Debug)]
pub struct TestAccount {
    /// Human-readable name.
    pub name: String,
    /// Accumulate URL.
    pub url: String,
}

impl View for TestAccount {
    type V = (Seq<char>, Seq<char>);

    open spec fn view(&self) -> (Seq<char>, Seq<char>) {
        (self.name@, self.url@)
    }
}

impl Clone for TestAccount {
    fn clone(&self) -> (r: Self)
        ensures
            r@ == self@,
    {
        TestAccount { name: self.name.clone(), url: self.url.clone() }
    }
}

/// An opaque snapshot identifier used for save/restore.
#[derive(Clone, Copy, Debug, PartialEq, Eq, Structural)]
pub struct SnapshotId(pub u64);

/// The view of a call fixture: contract URL, function, arguments, receipt.
pub type CallFixtureView = (Seq<char>, Seq<char>, Seq<i64>, ReceiptView);

/// The view of a query fixture: contract URL, function, arguments, result.
pub type QueryFixtureView = (Seq<char>, Seq<char>, Seq<i64>, Seq<char>);

struct NativeCallFixture {
    contract_url: String,
    function: String,
    args: Vec<i64>,
    receipt: Receipt,
}

impl View for NativeCallFixture {
    type V = CallFixtureView;

    closed spec fn view(&self) -> CallFixtureView {
        (self.contract_url@, self.function@, self.args@, self.receipt@)
    }
}

struct NativeQueryFixture {
    contract_url: String,
    function: String,
    args: Vec<i64>,
    result: QueryResult,
}

impl View for NativeQueryFixture {
    type V = QueryFixtureView;

    closed spec fn view(&self) -> QueryFixtureView {
        (self.contract_url@, self.function@, self.args@, self.result@)
    }
}

fn copy_args(args: &[i64]) -> (r: Vec<i64>)
    ensures
        r@ == args@,
{
    let mut v: Vec<i64> = Vec::new();
    let mut i: usize = 0;
    while i < args.len()
        invariant
            i <= args@.len(),
            v@ == args@.take(i as int),
        decreases args@.len() - i,
    {
        v.push(args[i]);
        assert(v@ =~= args@.take(i + 1));
        i = i + 1;
    }
    assert(args@.take(args@.len() as int) =~= args@);
    v
}

fn args_eq(a: &[i64], b: &[i64]) -> (r: bool)
    ensures
        r == (a@ == b@),
{
    if a.len() != b.len() {
        return false;
    }
    let mut i: usize = 0;
    while i < a.len()
        invariant
            a@.len() == b@.len(),
            i <= a@.len(),
            forall|k: int| 0 <= k < i ==> a@[k] == b@[k],
        decreases a@.len() - i,
    {
        if a[i] != b[i] {
            return false;
        }
        i = i + 1;
    }
    assert(a@ =~= b@);
    true
}

impl Clone for NativeCallFixture {
    fn clone(&self) -> (r: Self)
        ensures
            r@ == self@,
    {
        NativeCallFixture {
            contract_url: self.contract_url.clone(),
            function: self.function.clone(),
            args: copy_args(self.args.as_slice()),
            receipt: self.receipt.clone(),
        }
    }
}

impl Clone for NativeQueryFixture {
    fn clone(&self) -> (r: Self)
        ensures
            r@ == self@,
    {
        NativeQueryFixture {
            contract_url: self.contract_url.clone(),
            function: self.function.clone(),
            args: copy_args(self.args.as_slice()),
            result: self.result.clone(),
        }
    }
}

/// The views of the elements of a list.
pub open spec fn views<T: View>(s: Seq<T>) -> Seq<T::V> {
    Seq::new(s.len(), |i: int| s[i]@)
}

fn clone_calls(v: &Vec<NativeCallFixture>) -> (r: Vec<NativeCallFixture>)
    ensures
        views(r@) == views(v@),
{
    let mut out: Vec<NativeCallFixture> = Vec::new();
    let mut i: usize = 0;
    while i < v.len()
        invariant
            i <= v@.len(),
            out@.len() == i,
            views(out@) == views(v@.take(i as int)),
        decreases v@.len() - i,
    {
        let c = v[i].clone();
        let ghost before = out@;
        out.push(c);
        assert forall|k: int| 0 <= k < i + 1 implies #[trigger] views(out@)[k] == views(
            v@.take(i + 1),
        )[k] by {
            if k < i {
                assert(views(before)[k] == views(v@.take(i as int))[k]);
            }
        }
        assert(views(out@) =~= views(v@.take(i + 1)));
        i = i + 1;
    }
    assert(v@.take(v@.len() as int) =~= v@);
    out
}

fn clone_queries(v: &Vec<NativeQueryFixture>) -> (r: Vec<NativeQueryFixture>)
    ensures
        views(r@) == views(v@),
{
    let mut out: Vec<NativeQueryFixture> = Vec::new();
    let mut i: usize = 0;
    while i < v.len()
        invariant
            i <= v@.len(),
            out@.len() == i,
            views(out@) == views(v@.take(i as int)),
        decreases v@.len() - i,
    {
        let c = v[i].clone();
        let ghost before = out@;
        out.push(c);
        assert forall|k: int| 0 <= k < i + 1 implies #[trigger] views(out@)[k] == views(
            v@.take(i + 1),
        )[k] by {
            if k < i {
                assert(views(before)[k] == views(v@.take(i as int))[k]);
            }
        }
        assert(views(out@) =~= views(v@.take(i + 1)));
        i = i + 1;
    }
    assert(v@.take(v@.len() as int) =~= v@);
    out
}

fn clone_refs(v: &Vec<ContractRef>) -> (r: Vec<ContractRef>)
    ensures
        views(r@) == views(v@),
{
    let mut out: Vec<ContractRef> = Vec::new();
    let mut i: usize = 0;
    while i < v.len()
        invariant
            i <= v@.len(),
            out@.len() == i,
            views(out@) == views(v@.take(i as int)),
        decreases v@.len() - i,
    {
        let c = v[i].clone();
        let ghost before = out@;
        out.push(c);
        assert forall|k: int| 0 <= k < i + 1 implies #[trigger] views(out@)[k] == views(
            v@.take(i + 1),
        )[k] by {
            if k < i {
                assert(views(before)[k] == views(v@.take(i as int))[k]);
            }
        }
        assert(views(out@) =~= views(v@.take(i + 1)));
        i = i + 1;
    }
    assert(v@.take(v@.len() as int) =~= v@);
    out
}

/// The restorable state of a test chain: caller, block height, block time,
/// snapshot counter, deployments, call fixtures and query fixtures.
pub type ChainState = (
    (Seq<char>, Seq<char>),
    u64,
    u64,
    u64,
    Seq<Seq<char>>,
    Seq<CallFixtureView>,
    Seq<QueryFixtureView>,
);

struct TestContextSnapshot {
    id: SnapshotId,
    caller: TestAccount,
    block_height: u64,
    block_time: u64,
    next_snapshot: u64,
    deployments: Vec<ContractRef>,
    call_fixtures: Vec<NativeCallFixture>,
    query_fixtures: Vec<NativeQueryFixture>,
}

impl View for TestContextSnapshot {
    type V = (u64, ChainState);

    closed spec fn view(&self) -> (u64, ChainState) {
        (
            self.id.0,
            (
                self.caller@,
                self.block_height,
                self.block_time,
                self.next_snapshot,
                views(self.deployments@),
                views(self.call_fixtures@),
                views(self.query_fixtures@),
            ),
        )
    }
}

/// A call fixture answers a call of `function` with `args` on the contract
/// at `url`.
pub open spec fn call_matches(f: CallFixtureView, url: Seq<char>, function: Seq<char>, args: Seq<i64>) -> bool {
    f.0 == url && f.1 == function && f.2 == args
}

/// A query fixture answers a query of `function` with `args` on the
/// contract at `url`.
pub open spec fn query_matches(f: QueryFixtureView, url: Seq<char>, function: Seq<char>, args: Seq<i64>) -> bool {
    f.0 == url && f.1 == function && f.2 == args
}

/// The first call fixture answering a call, if any.
pub open spec fn first_call(fs: Seq<CallFixtureView>, url: Seq<char>, function: Seq<char>, args: Seq<i64>) -> Option<int> {
    if exists|i: int| 0 <= i < fs.len() && call_matches(fs[i], url, function, args) {
        Some(choose|i: int| 0 <= i < fs.len() && call_matches(fs[i], url, function, args) && forall|j: int|
            0 <= j < i ==> !call_matches(fs[j], url, function, args))
    } else {
        None
    }
}

/// The first query fixture answering a query, if any.
pub open spec fn first_query(fs: Seq<QueryFixtureView>, url: Seq<char>, function: Seq<char>, args: Seq<i64>) -> Option<int> {
    if exists|i: int| 0 <= i < fs.len() && query_matches(fs[i], url, function, args) {
        Some(choose|i: int| 0 <= i < fs.len() && query_matches(fs[i], url, function, args) && forall|j: int|
            0 <= j < i ==> !query_matches(fs[j], url, function, args))
    } else {
        None
    }
}

/// The first `k` arguments as `Debug` writes a list: decimal numerals
/// separated by `", "`.
pub open spec fn debug_args(args: Seq<i64>, k: nat) -> Seq<char>
    decreases k,
{
    if k == 0 {
        Seq::empty()
    } else {
        debug_args(args, (k - 1) as nat) + (if k - 1 > 0 {
            ", "@
        } else {
            Seq::empty()
        }) + signed_decimal(args[k - 1] as int)
    }
}

/// The error of a call that no fixture answers.
pub open spec fn missing_call_error(url: Seq<char>, function: Seq<char>, args: Seq<i64>) -> Seq<char> {
    "no native call fixture registered for "@ + url + "::"@ + function + seq!['('] + seq!['[']
        + debug_args(args, args.len()) + seq![']'] + seq![')']
}

/// The receipt a call fixture gives at a block: a block height of 0 is
/// filled in with the block.
pub open spec fn fixture_receipt(r: ReceiptView, height: u64) -> ReceiptView {
    if r.3 == 0 {
        (r.0, r.1, r.2, height, r.4, r.5, r.6)
    } else {
        r
    }
}

/// The receipt of a call that no fixture answers.
pub open spec fn missing_receipt(url: Seq<char>, function: Seq<char>, args: Seq<i64>, height: u64) -> ReceiptView {
    (
        Seq::empty(),
        "failed"@,
        0,
        height,
        None,
        Some(missing_call_error(url, function, args)),
        Seq::empty(),
    )
}

/// The first snapshot with the given id, if any.
pub open spec fn first_snapshot(s: Seq<(u64, ChainState)>, id: u64) -> Option<ChainState>
    decreases s.len(),
{
    if s.len() == 0 {
        None
    } else if s[0].0 == id {
        Some(s[0].1)
    } else {
        first_snapshot(s.drop_first(), id)
    }
}

/// The central test context: an isolated simulated chain with deploy, call
/// and query operations, time manipulation and state snapshots. Calls and
/// queries are answered only by fixtures registered beforehand, each used
/// once.
pub struct TestContext {
    /// The currently active caller identity.
    pub caller: TestAccount,
    /// Pre-funded test accounts.
    pub alice: TestAccount,
    pub bob: TestAccount,
    pub carol: TestAccount,
    block_height: u64,
    block_time: u64,
    next_snapshot: u64,
    deployments: Vec<ContractRef>,
    call_fixtures: Vec<NativeCallFixture>,
    query_fixtures: Vec<NativeQueryFixture>,
    snapshots: Vec<TestContextSnapshot>,
}

impl TestContext {
    /// The current caller.
    pub closed spec fn current_caller(&self) -> (Seq<char>, Seq<char>) {
        self.caller@
    }

    /// The alice, bob and carol accounts.
    pub closed spec fn accounts(&self) -> ((Seq<char>, Seq<char>), (Seq<char>, Seq<char>), (Seq<char>, Seq<char>)) {
        (self.alice@, self.bob@, self.carol@)
    }

    /// The current block height.
    pub closed spec fn height(&self) -> u64 {
        self.block_height
    }

    /// The current block time.
    pub closed spec fn time(&self) -> u64 {
        self.block_time
    }

    /// The URLs of the contracts deployed so far.
    pub closed spec fn deployed(&self) -> Seq<Seq<char>> {
        views(self.deployments@)
    }

    /// The registered call fixtures, in order.
    pub closed spec fn calls(&self) -> Seq<CallFixtureView> {
        views(self.call_fixtures@)
    }

    /// The registered query fixtures, in order.
    pub closed spec fn queries(&self) -> Seq<QueryFixtureView> {
        views(self.query_fixtures@)
    }

    /// The snapshots taken, with their ids.
    pub closed spec fn snaps(&self) -> Seq<(u64, ChainState)> {
        views(self.snapshots@)
    }

    /// The restorable state of the chain.
    pub closed spec fn chain(&self) -> ChainState {
        (
            self.caller@,
            self.block_height,
            self.block_time,
            self.next_snapshot,
            views(self.deployments@),
            views(self.call_fixtures@),
            views(self.query_fixtures@),
        )
    }

    /// Every snapshot id handed out so far is at most the snapshot counter,
    /// so the next snapshot gets an id no earlier snapshot has.
    pub open spec fn ids_fresh(&self) -> bool {
        forall|j: int| 0 <= j < self.snaps().len() ==> #[trigger] self.snaps()[j].0 <= self.chain().3
    }

    /// Create a new test context: alice (`acc://test.acme/alice`) is the
    /// caller, bob and carol are the other accounts; block height 0, block
    /// time 1700000000, nothing deployed or registered.
    pub fn new() -> (r: Self)
        ensures
            r.accounts() == (
                ("alice"@, "acc://test.acme/alice"@),
                ("bob"@, "acc://test.acme/bob"@),
                ("carol"@, "acc://test.acme/carol"@),
            ),
            r.current_caller() == ("alice"@, "acc://test.acme/alice"@),
            r.height() == 0,
            r.time() == 1700000000,
            r.deployed().len() == 0,
            r.calls().len() == 0,
            r.queries().len() == 0,
            r.snaps().len() == 0,
            r.chain().3 == 0,
            r.ids_fresh(),
    {
        let alice = TestAccount {
            name: String::from_str("alice"),
            url: String::from_str("acc://test.acme/alice"),
        };
        TestContext {
            caller: alice.clone(),
            alice: alice,
            bob: TestAccount {
                name: String::from_str("bob"),
                url: String::from_str("acc://test.acme/bob"),
            },
            carol: TestAccount {
                name: String::from_str("carol"),
                url: String::from_str("acc://test.acme/carol"),
            },
            block_height: 0,
            block_time: 1700000000,
            next_snapshot: 0,
            deployments: Vec::new(),
            call_fixtures: Vec::new(),
            query_fixtures: Vec::new(),
            snapshots: Vec::new(),
        }
    }

    /// Get the "alice" test account.
    pub fn alice(&self) -> (r: &TestAccount)
        ensures
            r@ == self.accounts().0,
    {
        &self.alice
    }

    /// Get the "bob" test account.
    pub fn bob(&self) -> (r: &TestAccount)
        ensures
            r@ == self.accounts().1,
    {
        &self.bob
    }

    /// Get the "carol" test account.
    pub fn carol(&self) -> (r: &TestAccount)
        ensures
            r@ == self.accounts().2,
    {
        &self.carol
    }

    /// Set the caller for subsequent operations.
    pub fn set_caller(&mut self, account: &TestAccount)
        ensures
            final(self).current_caller() == account@,
            final(self).accounts() == old(self).accounts(),
            final(self).height() == old(self).height(),
            final(self).time() == old(self).time(),
            final(self).deployed() == old(self).deployed(),
            final(self).calls() == old(self).calls(),
            final(self).queries() == old(self).queries(),
            final(self).snaps() == old(self).snaps(),
            old(self).ids_fresh() ==> final(self).ids_fresh(),
            final(self).chain().3 == old(self).chain().3,
    {
        self.caller = account.clone();
    }

    /// Deploy a contract at the given URL: the block height advances by one
    /// and the deployment is recorded.
    pub fn deploy(&mut self, url: &str) -> (r: ContractRef)
        requires
            old(self).height() < u64::MAX,
        ensures
            r@ == url@,
            final(self).height() == old(self).height() + 1,
            final(self).deployed() == old(self).deployed().push(url@),
            final(self).current_caller() == old(self).current_caller(),
            final(self).accounts() == old(self).accounts(),
            final(self).time() == old(self).time(),
            final(self).calls() == old(self).calls(),
            final(self).queries() == old(self).queries(),
            final(self).snaps() == old(self).snaps(),
            old(self).ids_fresh() ==> final(self).ids_fresh(),
            final(self).chain().3 == old(self).chain().3,
    {
        self.block_height = self.block_height + 1;
        let contract = ContractRef::new(url);
        let ghost before = self.deployments@;
        self.deployments.push(contract.clone());
        assert(views(self.deployments@) =~= views(before).push(url@));
        contract
    }

    /// Deploy a contract as a specific account.
    pub fn deploy_as(&mut self, deployer: &TestAccount, url: &str) -> (r: ContractRef)
        requires
            old(self).height() < u64::MAX,
        ensures
            r@ == url@,
            final(self).height() == old(self).height() + 1,
            final(self).deployed() == old(self).deployed().push(url@),
            final(self).current_caller() == old(self).current_caller(),
            final(self).accounts() == old(self).accounts(),
            final(self).time() == old(self).time(),
            final(self).calls() == old(self).calls(),
            final(self).queries() == old(self).queries(),
            final(self).snaps() == old(self).snaps(),
            old(self).ids_fresh() ==> final(self).ids_fresh(),
            final(self).chain().3 == old(self).chain().3,
    {
        self.deploy(url)
    }

    fn find_call_fixture(&self, contract_url: &str, function: &str, args: &[i64]) -> (r: Option<usize>)
        ensures
            r matches Some(i) ==> i < self.calls().len() && first_call(
                self.calls(),
                contract_url@,
                function@,
                args@,
            ) == Some(i as int),
            r is None ==> first_call(self.calls(), contract_url@, function@, args@) is None,
    {
        let ghost fs = self.calls();
        let mut i: usize = 0;
        while i < self.call_fixtures.len()
            invariant
                fs == views(self.call_fixtures@),
                i <= fs.len(),
                forall|j: int| 0 <= j < i ==> !call_matches(fs[j], contract_url@, function@, args@),
            decreases fs.len() - i,
        {
            let f = &self.call_fixtures[i];
            if str_eq(f.contract_url.as_str(), contract_url) && str_eq(f.function.as_str(), function)
                && args_eq(f.args.as_slice(), args) {
                proof {
                    assert(fs[i as int] == f@);
                    assert(call_matches(fs[i as int], contract_url@, function@, args@));
                    let c = choose|k: int|
                        0 <= k < fs.len() && call_matches(fs[k], contract_url@, function@, args@)
                            && forall|j: int|
                            0 <= j < k ==> !call_matches(fs[j], contract_url@, function@, args@);
                    assert(c == i) by {
                        if c < i {
                        } else if c > i {
                            assert(!call_matches(fs[i as int], contract_url@, function@, args@));
                        }
                    }
                }
                return Some(i);
            }
            assert(fs[i as int] == f@);
            i = i + 1;
        }
        None
    }

    fn find_query_fixture(&self, contract_url: &str, function: &str, args: &[i64]) -> (r: Option<usize>)
        ensures
            r matches Some(i) ==> i < self.queries().len() && first_query(
                self.queries(),
                contract_url@,
                function@,
                args@,
            ) == Some(i as int),
            r is None ==> first_query(self.queries(), contract_url@, function@, args@) is None,
    {
        let ghost fs = self.queries();
        let mut i: usize = 0;
        while i < self.query_fixtures.len()
            invariant
                fs == views(self.query_fixtures@),
                i <= fs.len(),
                forall|j: int| 0 <= j < i ==> !query_matches(fs[j], contract_url@, function@, args@),
            decreases fs.len() - i,
        {
            let f = &self.query_fixtures[i];
            if str_eq(f.contract_url.as_str(), contract_url) && str_eq(f.function.as_str(), function)
                && args_eq(f.args.as_slice(), args) {
                proof {
                    assert(fs[i as int] == f@);
                    assert(query_matches(fs[i as int], contract_url@, function@, args@));
                    let c = choose|k: int|
                        0 <= k < fs.len() && query_matches(fs[k], contract_url@, function@, args@)
                            && forall|j: int|
                            0 <= j < k ==> !query_matches(fs[j], contract_url@, function@, args@);
                    assert(c == i) by {
                        if c < i {
                        } else if c > i {
                            assert(!query_matches(fs[i as int], contract_url@, function@, args@));
                        }
                    }
                }
                return Some(i);
            }
            assert(fs[i as int] == f@);
            i = i + 1;
        }
        None
    }

    // ---- Time Travel ----

    /// Get the current simulated block height.
    pub fn block_height(&self) -> (r: u64)
        ensures
            r == self.height(),
    {
        self.block_height
    }

    /// Get the current simulated block time (Unix seconds).
    pub fn block_time(&self) -> (r: u64)
        ensures
            r == self.time(),
    {
        self.block_time
    }

    /// Advance the chain by the given number of blocks, one second each.
    pub fn advance_blocks(&mut self, count: u64)
        requires
            old(self).height() + count <= u64::MAX,
            old(self).time() + count <= u64::MAX,
        ensures
            final(self).height() == old(self).height() + count,
            final(self).time() == old(self).time() + count,
            final(self).current_caller() == old(self).current_caller(),
            final(self).accounts() == old(self).accounts(),
            final(self).deployed() == old(self).deployed(),
            final(self).calls() == old(self).calls(),
            final(self).queries() == old(self).queries(),
            final(self).snaps() == old(self).snaps(),
            old(self).ids_fresh() ==> final(self).ids_fresh(),
            final(self).chain().3 == old(self).chain().3,
    {
        self.block_height = self.block_height + count;
        self.block_time = self.block_time + count;
    }

    /// Advance the block time by the given number of seconds.
    pub fn advance_time(&mut self, seconds: u64)
        requires
            old(self).time() + seconds <= u64::MAX,
        ensures
            final(self).time() == old(self).time() + seconds,
            final(self).height() == old(self).height(),
            final(self).current_caller() == old(self).current_caller(),
            final(self).accounts() == old(self).accounts(),
            final(self).deployed() == old(self).deployed(),
            final(self).calls() == old(self).calls(),
            final(self).queries() == old(self).queries(),
            final(self).snaps() == old(self).snaps(),
            old(self).ids_fresh() ==> final(self).ids_fresh(),
            final(self).chain().3 == old(self).chain().3,
    {
        self.block_time = self.block_time + seconds;
    }
}

impl Default for TestContext {
    fn default() -> (r: Self)
        ensures
            r.height() == 0,
            r.time() == 1700000000,
            r.calls().len() == 0,
            r.queries().len() == 0,
    {
        TestContext::new()
    }
}

proof fn lemma_views_remove<T: View>(s: Seq<T>, i: int)
    requires
        0 <= i < s.len(),
    ensures
        views(s.remove(i)) == views(s).remove(i),
{
    assert(views(s.remove(i)) =~= views(s).remove(i));
}

proof fn lemma_views_push<T: View>(s: Seq<T>, x: T)
    ensures
        views(s.push(x)) == views(s).push(x@),
{
    assert(views(s.push(x)) =~= views(s).push(x@));
}

proof fn lemma_first_snapshot_skip(s: Seq<(u64, ChainState)>, id: u64, i: int)
    requires
        0 <= i <= s.len(),
        forall|j: int| 0 <= j < i ==> s[j].0 != id,
    ensures
        first_snapshot(s, id) == first_snapshot(s.skip(i), id),
    decreases i,
{
    if i > 0 {
        lemma_first_snapshot_skip(s.drop_first(), id, i - 1);
        assert(s.drop_first().skip(i - 1) =~= s.skip(i));
    } else {
        assert(s.skip(0) =~= s);
    }
}

/// A snapshot taken under an id no earlier snapshot has is the one a
/// restore to that id finds: restoring brings back exactly the state the
/// snapshot recorded.
pub proof fn lemma_restore_finds_snapshot(s: Seq<(u64, ChainState)>, id: u64, state: ChainState)
    requires
        first_snapshot(s, id) is None,
    ensures
        first_snapshot(s.push((id, state)), id) == Some(state),
    decreases s.len(),
{
    if s.len() > 0 {
        lemma_restore_finds_snapshot(s.drop_first(), id, state);
        assert(s.push((id, state)).drop_first() =~= s.drop_first().push((id, state)));
    }
}

proof fn lemma_first_snapshot_absent(s: Seq<(u64, ChainState)>, id: u64)
    requires
        forall|j: int| 0 <= j < s.len() ==> #[trigger] s[j].0 < id,
    ensures
        first_snapshot(s, id) is None,
    decreases s.len(),
{
    if s.len() > 0 {
        assert(s[0].0 < id);
        assert forall|j: int| 0 <= j < s.drop_first().len() implies #[trigger] s.drop_first()[j].0 < id by {
            assert(s.drop_first()[j] == s[j + 1]);
        }
        lemma_first_snapshot_absent(s.drop_first(), id);
    }
}

proof fn lemma_first_snapshot_prefix(s: Seq<(u64, ChainState)>, t: Seq<(u64, ChainState)>, id: u64)
    requires
        first_snapshot(s, id) is Some,
        t.len() >= s.len(),
        t.take(s.len() as int) == s,
    ensures
        first_snapshot(t, id) == first_snapshot(s, id),
    decreases s.len(),
{
    assert(t[0] == s[0]);
    if s[0].0 != id {
        assert(t.drop_first().take(s.drop_first().len() as int) =~= s.drop_first());
        lemma_first_snapshot_prefix(s.drop_first(), t.drop_first(), id);
    }
}

/// A snapshot's id is one no earlier snapshot has, so restoring that id
/// later, however many snapshots were taken since, brings back exactly the
/// state that snapshot captured.
pub proof fn lemma_snapshot_then_restore(before: TestContext, taken: TestContext, id: SnapshotId, later: TestContext)
    requires
        before.ids_fresh(),
        id.0 == before.chain().3 + 1,
        taken.snaps() == before.snaps().push((id.0, taken.chain())),
        later.snaps().len() >= taken.snaps().len(),
        later.snaps().take(taken.snaps().len() as int) == taken.snaps(),
    ensures
        first_snapshot(later.snaps(), id.0) == Some(taken.chain()),
{
    lemma_first_snapshot_absent(before.snaps(), id.0);
    lemma_restore_finds_snapshot(before.snaps(), id.0, taken.chain());
    lemma_first_snapshot_prefix(taken.snaps(), later.snaps(), id.0);
}

/// Appends the `Debug` text of a list of integers.
fn push_debug_args(out: &mut String, args: &[i64])
    ensures
        final(out)@ == old(out)@ + seq!['['] + debug_args(args@, args@.len()) + seq![']'],
{
    let ghost start = out@;
    push_char(out, '[');
    let mut i: usize = 0;
    while i < args.len()
        invariant
            i <= args@.len(),
            out@ == start + seq!['['] + debug_args(args@, i as nat),
        decreases args@.len() - i,
    {
        let ghost before = out@;
        if i > 0 {
            push_str(out, ", ");
        }
        let d = i64_to_decimal(args[i]);
        push_str(out, d.as_str());
        assert(out@ =~= start + seq!['['] + debug_args(args@, (i + 1) as nat));
        i = i + 1;
    }
    push_char(out, ']');
}

fn fixture_tx_hash(url: &str, function: &str) -> (r: String)
    ensures
        r@ == "fixture:"@ + url@ + ":"@ + function@,
{
    let mut s = String::new();
    push_str(&mut s, "fixture:");
    push_str(&mut s, url);
    push_str(&mut s, ":");
    push_str(&mut s, function);
    assert(s@ =~= "fixture:"@ + url@ + ":"@ + function@);
    s
}

fn missing_call_receipt(url: &str, function: &str, args: &[i64], height: u64) -> (r: Receipt)
    ensures
        r@ == missing_receipt(url@, function@, args@, height),
{
    let mut error = String::new();
    push_str(&mut error, "no native call fixture registered for ");
    push_str(&mut error, url);
    push_str(&mut error, "::");
    push_str(&mut error, function);
    push_char(&mut error, '(');
    push_debug_args(&mut error, args);
    push_char(&mut error, ')');
    assert(error@ =~= missing_call_error(url@, function@, args@));
    let r = Receipt {
        tx_hash: String::new(),
        status: String::from_str("failed"),
        gas_used: 0,
        block_height: height,
        return_data: None,
        error: Some(error),
        events: Vec::new(),
    };
    assert(events_view(r.events@) =~= Seq::<(Seq<char>, Seq<u8>)>::empty());
    r
}

impl TestContext {
    /// Execute a state-changing call on a contract: the block height
    /// advances by one, and the first registered call fixture that matches
    /// is consumed and its receipt returned (a receipt block height of 0 is
    /// filled in); without a matching fixture the call fails with a receipt
    /// saying so.
    pub fn call(&mut self, contract: &ContractRef, function: &str, args: &[i64]) -> (r: Receipt)
        requires
            old(self).height() < u64::MAX,
        ensures
            final(self).height() == old(self).height() + 1,
            match first_call(old(self).calls(), contract@, function@, args@) {
                Some(i) => r@ == fixture_receipt(old(self).calls()[i].3, final(self).height())
                    && final(self).calls() == old(self).calls().remove(i),
                None => r@ == missing_receipt(contract@, function@, args@, final(self).height())
                    && final(self).calls() == old(self).calls(),
            },
            final(self).time() == old(self).time(),
            final(self).current_caller() == old(self).current_caller(),
            final(self).accounts() == old(self).accounts(),
            final(self).deployed() == old(self).deployed(),
            final(self).queries() == old(self).queries(),
            final(self).snaps() == old(self).snaps(),
            old(self).ids_fresh() ==> final(self).ids_fresh(),
            final(self).chain().3 == old(self).chain().3,
    {
        self.block_height = self.block_height + 1;
        proof {
            if old(self).ids_fresh() {
                assert forall|j: int| 0 <= j < self.snaps().len() implies #[trigger] self.snaps()[j].0 <= self.chain().3 by {
                    assert(self.snaps()[j] == old(self).snaps()[j]);
                }
            }
        }
        match self.find_call_fixture(contract.url.as_str(), function, args) {
            Some(index) => self.take_call_fixture(index),
            None => missing_call_receipt(contract.url.as_str(), function, args, self.block_height),
        }
    }

    fn take_call_fixture(&mut self, index: usize) -> (r: Receipt)
        requires
            index < old(self).calls().len(),
        ensures
            r@ == fixture_receipt(old(self).calls()[index as int].3, old(self).height()),
            final(self).calls() == old(self).calls().remove(index as int),
            final(self).height() == old(self).height(),
            final(self).time() == old(self).time(),
            final(self).current_caller() == old(self).current_caller(),
            final(self).accounts() == old(self).accounts(),
            final(self).deployed() == old(self).deployed(),
            final(self).queries() == old(self).queries(),
            final(self).snaps() == old(self).snaps(),
            old(self).ids_fresh() ==> final(self).ids_fresh(),
            final(self).chain().3 == old(self).chain().3,
    {
        let ghost before = self.call_fixtures@;
        let fixture = self.call_fixtures.remove(index);
        proof {
            lemma_views_remove(before, index as int);
            assert(fixture@ == views(before)[index as int]);
        }
        let mut receipt = fixture.receipt;
        if receipt.block_height == 0 {
            receipt.block_height = self.block_height;
        }
        receipt
    }

    /// Execute a read-only query on a contract: the first registered query
    /// fixture that matches is consumed and its result returned. A matching
    /// fixture must be registered.
    pub fn query(&mut self, contract: &ContractRef, function: &str, args: &[i64]) -> (r: QueryResult)
        requires
            first_query(old(self).queries(), contract@, function@, args@) is Some,
        ensures
            r@ == old(self).queries()[first_query(
                old(self).queries(),
                contract@,
                function@,
                args@,
            )->Some_0].3,
            final(self).queries() == old(self).queries().remove(
                first_query(old(self).queries(), contract@, function@, args@)->Some_0,
            ),
            final(self).height() == old(self).height(),
            final(self).time() == old(self).time(),
            final(self).current_caller() == old(self).current_caller(),
            final(self).accounts() == old(self).accounts(),
            final(self).deployed() == old(self).deployed(),
            final(self).calls() == old(self).calls(),
            final(self).snaps() == old(self).snaps(),
            old(self).ids_fresh() ==> final(self).ids_fresh(),
            final(self).chain().3 == old(self).chain().3,
    {
        match self.find_query_fixture(contract.url.as_str(), function, args) {
            Some(index) => {
                let ghost before = self.query_fixtures@;
                let fixture = self.query_fixtures.remove(index);
                proof {
                    lemma_views_remove(before, index as int);
                    assert(fixture@ == views(before)[index as int]);
                }
                fixture.result
            },
            None => QueryResult { return_data: String::new() },
        }
    }

    /// Register a one-shot call fixture.
    pub fn expect_call(&mut self, contract: &ContractRef, function: &str, args: &[i64], receipt: Receipt)
        ensures
            final(self).calls() == old(self).calls().push(
                (contract@, function@, args@, receipt@),
            ),
            final(self).height() == old(self).height(),
            final(self).time() == old(self).time(),
            final(self).current_caller() == old(self).current_caller(),
            final(self).accounts() == old(self).accounts(),
            final(self).deployed() == old(self).deployed(),
            final(self).queries() == old(self).queries(),
            final(self).snaps() == old(self).snaps(),
            old(self).ids_fresh() ==> final(self).ids_fresh(),
            final(self).chain().3 == old(self).chain().3,
    {
        let fixture = NativeCallFixture {
            contract_url: contract.url.clone(),
            function: String::from_str(function),
            args: copy_args(args),
            receipt,
        };
        let ghost before = self.call_fixtures@;
        self.call_fixtures.push(fixture);
        proof {
            lemma_views_push(before, fixture);
        }
    }

    /// Register a one-shot successful call fixture: its receipt has the
    /// transaction hash `fixture:<url>:<function>`, status `success`, no gas,
    /// block height 0 (filled in when consumed), the given return data and
    /// events, and no error.
    pub fn expect_call_success(
        &mut self,
        contract: &ContractRef,
        function: &str,
        args: &[i64],
        return_data: Option<&str>,
        events: Vec<TestEvent>,
    )
        ensures
            final(self).calls() == old(self).calls().push(
                (
                    contract@,
                    function@,
                    args@,
                    (
                        "fixture:"@ + contract@ + ":"@ + function@,
                        "success"@,
                        0u64,
                        0u64,
                        match return_data {
                            Some(d) => Some(d@),
                            None => None,
                        },
                        None,
                        events_view(events@),
                    ),
                ),
            ),
            final(self).height() == old(self).height(),
            final(self).queries() == old(self).queries(),
            final(self).snaps() == old(self).snaps(),
            old(self).ids_fresh() ==> final(self).ids_fresh(),
            final(self).chain().3 == old(self).chain().3,
    {
        let receipt = Receipt {
            tx_hash: fixture_tx_hash(contract.url.as_str(), function),
            status: String::from_str("success"),
            gas_used: 0,
            block_height: 0,
            return_data: match return_data {
                Some(d) => Some(String::from_str(d)),
                None => None,
            },
            error: None,
            events,
        };
        self.expect_call(contract, function, args, receipt);
    }

    /// Register a one-shot failing call fixture: its receipt has the
    /// transaction hash `fixture:<url>:<function>`, status `failed`, no gas,
    /// block height 0 (filled in when consumed), no return data or events,
    /// and the given error.
    pub fn expect_call_failure(&mut self, contract: &ContractRef, function: &str, args: &[i64], error: &str)
        ensures
            final(self).calls() == old(self).calls().push(
                (
                    contract@,
                    function@,
                    args@,
                    (
                        "fixture:"@ + contract@ + ":"@ + function@,
                        "failed"@,
                        0u64,
                        0u64,
                        None,
                        Some(error@),
                        Seq::empty(),
                    ),
                ),
            ),
            final(self).height() == old(self).height(),
            final(self).queries() == old(self).queries(),
            final(self).snaps() == old(self).snaps(),
            old(self).ids_fresh() ==> final(self).ids_fresh(),
            final(self).chain().3 == old(self).chain().3,
    {
        let receipt = Receipt {
            tx_hash: fixture_tx_hash(contract.url.as_str(), function),
            status: String::from_str("failed"),
            gas_used: 0,
            block_height: 0,
            return_data: None,
            error: Some(String::from_str(error)),
            events: Vec::new(),
        };
        assert(events_view(receipt.events@) =~= Seq::<(Seq<char>, Seq<u8>)>::empty());
        self.expect_call(contract, function, args, receipt);
    }

    /// Register a one-shot query fixture.
    pub fn expect_query(&mut self, contract: &ContractRef, function: &str, args: &[i64], return_data: &str)
        ensures
            final(self).queries() == old(self).queries().push(
                (contract@, function@, args@, return_data@),
            ),
            final(self).height() == old(self).height(),
            final(self).time() == old(self).time(),
            final(self).current_caller() == old(self).current_caller(),
            final(self).accounts() == old(self).accounts(),
            final(self).deployed() == old(self).deployed(),
            final(self).calls() == old(self).calls(),
            final(self).snaps() == old(self).snaps(),
            old(self).ids_fresh() ==> final(self).ids_fresh(),
            final(self).chain().3 == old(self).chain().3,
    {
        let fixture = NativeQueryFixture {
            contract_url: contract.url.clone(),
            function: String::from_str(function),
            args: copy_args(args),
            result: QueryResult { return_data: String::from_str(return_data) },
        };
        let ghost before = self.query_fixtures@;
        self.query_fixtures.push(fixture);
        proof {
            lemma_views_push(before, fixture);
        }
    }

    /// Capture the current chain state so it can be restored later; returns
    /// the snapshot's id, the snapshot counter advanced by one.
    pub fn snapshot(&mut self) -> (r: SnapshotId)
        requires
            old(self).chain().3 < u64::MAX,
        ensures
            r.0 == old(self).chain().3 + 1,
            final(self).chain() == (
                old(self).chain().0,
                old(self).chain().1,
                old(self).chain().2,
                r.0,
                old(self).chain().4,
                old(self).chain().5,
                old(self).chain().6,
            ),
            final(self).snaps() == old(self).snaps().push((r.0, final(self).chain())),
            final(self).accounts() == old(self).accounts(),
            old(self).ids_fresh() ==> first_snapshot(old(self).snaps(), r.0) is None,
            old(self).ids_fresh() ==> final(self).ids_fresh(),
    {
        proof {
            if self.ids_fresh() {
                lemma_first_snapshot_absent(self.snaps(), (self.chain().3 + 1) as u64);
            }
        }
        self.next_snapshot = self.next_snapshot + 1;
        let id = SnapshotId(self.next_snapshot);
        let snap = TestContextSnapshot {
            id,
            caller: self.caller.clone(),
            block_height: self.block_height,
            block_time: self.block_time,
            next_snapshot: self.next_snapshot,
            deployments: clone_refs(&self.deployments),
            call_fixtures: clone_calls(&self.call_fixtures),
            query_fixtures: clone_queries(&self.query_fixtures),
        };
        let ghost before = self.snapshots@;
        self.snapshots.push(snap);
        proof {
            lemma_views_push(before, snap);
        }
        id
    }

    /// Restore the chain to a previously captured snapshot: the first one
    /// with the given id, which must exist. The snapshot counter keeps
    /// counting, so ids handed out later stay fresh.
    pub fn restore(&mut self, snap: SnapshotId)
        requires
            first_snapshot(old(self).snaps(), snap.0) is Some,
        ensures
            ({
                let t = first_snapshot(old(self).snaps(), snap.0)->Some_0;
                final(self).chain() == (t.0, t.1, t.2, old(self).chain().3, t.4, t.5, t.6)
            }),
            final(self).snaps() == old(self).snaps(),
            old(self).ids_fresh() ==> final(self).ids_fresh(),
            final(self).accounts() == old(self).accounts(),
    {
        let ghost ss = self.snaps();
        let n = self.snapshots.len();
        let mut i: usize = 0;
        while i < n
            invariant
                n == self.snapshots@.len(),
                ss == views(self.snapshots@),
                i <= n,
                forall|j: int| 0 <= j < i ==> ss[j].0 != snap.0,
                first_snapshot(ss, snap.0) is Some,
            ensures
                i <= n,
                forall|j: int| 0 <= j < i ==> ss[j].0 != snap.0,
                i == n || ss[i as int].0 == snap.0,
            decreases n - i,
        {
            if self.snapshots[i].id.0 == snap.0 {
                assert(ss[i as int] == self.snapshots@[i as int]@);
                break;
            }
            assert(ss[i as int] == self.snapshots@[i as int]@);
            i = i + 1;
        }
        proof {
            lemma_first_snapshot_skip(ss, snap.0, i as int);
            if i == n {
                assert(ss.skip(i as int).len() == 0);
            }
        }
        if i == n {
            return;
        }
        assert(ss[i as int] == self.snapshots@[i as int]@);
        assert(ss.skip(i as int)[0] == ss[i as int]);
        let ghost target = ss[i as int].1;
        let caller = self.snapshots[i].caller.clone();
        let block_height = self.snapshots[i].block_height;
        let block_time = self.snapshots[i].block_time;
        let deployments = clone_refs(&self.snapshots[i].deployments);
        let call_fixtures = clone_calls(&self.snapshots[i].call_fixtures);
        let query_fixtures = clone_queries(&self.snapshots[i].query_fixtures);
        assert(caller@ == target.0);
        assert(views(deployments@) == target.4);
        assert(views(call_fixtures@) == target.5);
        assert(views(query_fixtures@) == target.6);
        self.caller = caller;
        self.block_height = block_height;
        self.block_time = block_time;
        self.deployments = deployments;
        self.call_fixtures = call_fixtures;
        self.query_fixtures = query_fixtures;
    }
}

} // verus!
