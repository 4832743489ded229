//! The contract host of native (non-WASM) execution: contract storage,
//! the caller, the block height and the events emitted so far.
use vstd::prelude::*;

verus! {

/// The value stored under `k` in a list of entries: the last entry with
/// that key wins.
pub open spec fn lookup(e: Seq<(Seq<u8>, Seq<u8>)>, k: Seq<u8>) -> Option<Seq<u8>>
    decreases e.len(),
{
    if e.len() == 0 {
        None
    } else if e.last().0 == k {
        Some(e.last().1)
    } else {
        lookup(e.drop_last(), k)
    }
}

/// The entries without those whose key is `k`.
pub open spec fn without_key(e: Seq<(Seq<u8>, Seq<u8>)>, k: Seq<u8>) -> Seq<(Seq<u8>, Seq<u8>)>
    decreases e.len(),
{
    if e.len() == 0 {
        e
    } else if e.last().0 == k {
        without_key(e.drop_last(), k)
    } else {
        without_key(e.drop_last(), k).push(e.last())
    }
}

proof fn lemma_lookup_without_key(e: Seq<(Seq<u8>, Seq<u8>)>, k: Seq<u8>, q: Seq<u8>)
    ensures
        lookup(without_key(e, k), q) == (if q == k {
            None
        } else {
            lookup(e, q)
        }),
    decreases e.len(),
{
    if e.len() > 0 {
        lemma_lookup_without_key(e.drop_last(), k, q);
        let w = without_key(e.drop_last(), k);
        assert(w.push(e.last()).drop_last() =~= w);
    }
}

/// The contract storage as a map from keys to values.
pub open spec fn store_of(e: Seq<(Seq<u8>, Seq<u8>)>) -> Map<Seq<u8>, Seq<u8>> {
    Map::new(|k: Seq<u8>| lookup(e, k) is Some, |k: Seq<u8>| lookup(e, k)->Some_0)
}

/// Block time the native host reports (2024-01-01 00:00:00 UTC).
pub const NATIVE_BLOCK_TIME: u64 = 1704067200;

/// Gas the native host reports as remaining.
pub const NATIVE_GAS_REMAINING: u64 = 1_000_000;

/// The host a contract runs against when compiled natively, for tests:
/// storage is kept in memory, the caller is 256 zero bytes, the block height
/// is 1, and emitted events are recorded.
pub struct Host {
    entries: Vec<(Vec<u8>, Vec<u8>)>,
    caller: Vec<u8>,
    block_height: u64,
    events: Vec<(Vec<u8>, Vec<u8>)>,
}

/// The entries of a storage list by their views.
pub open spec fn entries_view(e: Seq<(Vec<u8>, Vec<u8>)>) -> Seq<(Seq<u8>, Seq<u8>)> {
    Seq::new(e.len(), |i: int| (e[i].0@, e[i].1@))
}

impl Host {
    /// The contract storage.
    pub closed spec fn store(&self) -> Map<Seq<u8>, Seq<u8>> {
        store_of(entries_view(self.entries@))
    }

    /// The caller's address bytes.
    pub closed spec fn caller_bytes(&self) -> Seq<u8> {
        self.caller@
    }

    /// The current block height.
    pub closed spec fn height(&self) -> u64 {
        self.block_height
    }

    /// The events emitted so far, as (topic bytes, data) pairs.
    pub closed spec fn emitted(&self) -> Seq<(Seq<u8>, Seq<u8>)> {
        entries_view(self.events@)
    }

    /// A fresh host: empty storage, a caller of 256 zero bytes, block
    /// height 1 and no events.
    pub fn new() -> (r: Self)
        ensures
            r.store() == Map::<Seq<u8>, Seq<u8>>::empty(),
            r.caller_bytes() == Seq::new(256, |i: int| 0u8),
            r.height() == 1,
            r.emitted() == Seq::<(Seq<u8>, Seq<u8>)>::empty(),
    {
        let r = Host {
            entries: Vec::new(),
            caller: vec![0u8; 256],
            block_height: 1,
            events: Vec::new(),
        };
        assert(r.store() =~= Map::<Seq<u8>, Seq<u8>>::empty());
        assert(r.caller_bytes() =~= Seq::new(256, |i: int| 0u8));
        assert(r.emitted() =~= Seq::<(Seq<u8>, Seq<u8>)>::empty());
        r
    }

    /// The value stored under `key`, if any.
    pub fn storage_get(&self, key: &[u8]) -> (r: Option<&Vec<u8>>)
        ensures
            r is Some <==> self.store().contains_key(key@),
            r matches Some(v) ==> v@ == self.store()[key@],
    {
        let ghost e = entries_view(self.entries@);
        let mut i: usize = self.entries.len();
        assert(e.take(i as int) =~= e);
        while i > 0
            invariant
                i <= self.entries@.len(),
                e == entries_view(self.entries@),
                lookup(e, key@) == lookup(e.take(i as int), key@),
            decreases i,
        {
            let ghost t = e.take(i as int);
            assert(t.drop_last() =~= e.take(i - 1));
            if slice_eq(self.entries[i - 1].0.as_slice(), key) {
                return Some(&self.entries[i - 1].1);
            }
            i = i - 1;
        }
        assert(e.take(0) =~= Seq::<(Seq<u8>, Seq<u8>)>::empty());
        None
    }

    /// Stores `value` under `key`, replacing what was there.
    pub fn storage_set(&mut self, key: &[u8], value: &[u8])
        ensures
            final(self).store() == old(self).store().insert(key@, value@),
            final(self).caller_bytes() == old(self).caller_bytes(),
            final(self).height() == old(self).height(),
            final(self).emitted() == old(self).emitted(),
    {
        self.storage_delete(key);
        let ghost before = entries_view(self.entries@);
        self.entries.push((slice_to_vec(key), slice_to_vec(value)));
        proof {
            let after = entries_view(self.entries@);
            assert(after =~= before.push((key@, value@)));
            assert(store_of(after) =~= store_of(before).insert(key@, value@)) by {
                assert forall|q: Seq<u8>| #[trigger] lookup(after, q) == (if q == key@ {
                    Some(value@)
                } else {
                    lookup(before, q)
                }) by {
                    assert(after.drop_last() =~= before);
                }
            }
            assert(old(self).store().remove(key@).insert(key@, value@) =~= old(self).store().insert(
                key@,
                value@,
            ));
        }
    }

    /// Removes what is stored under `key`.
    pub fn storage_delete(&mut self, key: &[u8])
        ensures
            final(self).store() == old(self).store().remove(key@),
            final(self).caller_bytes() == old(self).caller_bytes(),
            final(self).height() == old(self).height(),
            final(self).emitted() == old(self).emitted(),
    {
        let ghost e = entries_view(self.entries@);
        let mut kept: Vec<(Vec<u8>, Vec<u8>)> = Vec::new();
        let n = self.entries.len();
        let mut i: usize = 0;
        while i < n
            invariant
                n == self.entries@.len(),
                e == entries_view(self.entries@),
                i <= n,
                entries_view(kept@) == without_key(e.take(i as int), key@),
            decreases n - i,
        {
            assert(e.take(i + 1).drop_last() =~= e.take(i as int));
            if !slice_eq(self.entries[i].0.as_slice(), key) {
                let k = self.entries[i].0.clone();
                let v = self.entries[i].1.clone();
                let ghost before = entries_view(kept@);
                kept.push((k, v));
                assert(entries_view(kept@) =~= before.push(e[i as int]));
            }
            i = i + 1;
        }
        assert(e.take(n as int) =~= e);
        self.entries = kept;
        proof {
            let after = entries_view(self.entries@);
            assert(self.store() =~= old(self).store().remove(key@)) by {
                assert forall|q: Seq<u8>| #[trigger] lookup(after, q) == (if q == key@ {
                    None
                } else {
                    lookup(e, q)
                }) by {
                    lemma_lookup_without_key(e, key@, q);
                }
            }
        }
    }

    /// Whether something is stored under `key`.
    pub fn storage_has(&self, key: &[u8]) -> (r: bool)
        ensures
            r == self.store().contains_key(key@),
    {
        self.storage_get(key).is_some()
    }

    /// The caller's address bytes.
    pub fn caller(&self) -> (r: &[u8])
        ensures
            r@ == self.caller_bytes(),
    {
        self.caller.as_slice()
    }

    /// The current block height.
    pub fn block_height(&self) -> (r: u64)
        ensures
            r == self.height(),
    {
        self.block_height
    }

    /// Records an emitted event.
    pub fn emit_event(&mut self, topics: &[u8], data: &[u8])
        ensures
            final(self).emitted() == old(self).emitted().push((topics@, data@)),
            final(self).store() == old(self).store(),
            final(self).caller_bytes() == old(self).caller_bytes(),
            final(self).height() == old(self).height(),
    {
        let ghost before = entries_view(self.events@);
        self.events.push((slice_to_vec(topics), slice_to_vec(data)));
        assert(entries_view(self.events@) =~= before.push((topics@, data@)));
    }
}

/// Whether two byte slices are equal.
pub fn slice_eq(a: &[u8], b: &[u8]) -> (r: bool)
    ensures
        r == (a@ == b@),
{
    if a.len() != b.len() {
        return false;
    }
    let mut i: usize = 0;
    while i < a.len()
        invariant
            a@.len() == b@.len(),
            i <= a@.len(),
            forall|k: int| 0 <= k < i ==> a@[k] == b@[k],
        decreases a@.len() - i,
    {
        if a[i] != b[i] {
            return false;
        }
        i = i + 1;
    }
    assert(a@ =~= b@);
    true
}

/// A vector holding the bytes of a slice.
pub fn slice_to_vec(s: &[u8]) -> (r: Vec<u8>)
    ensures
        r@ == s@,
{
    let mut v: Vec<u8> = Vec::new();
    let mut i: usize = 0;
    while i < s.len()
        invariant
            i <= s@.len(),
            v@ == s@.take(i as int),
        decreases s@.len() - i,
    {
        v.push(s[i]);
        assert(v@ =~= s@.take(i + 1));
        i = i + 1;
    }
    assert(s@.take(s@.len() as int) =~= s@);
    v
}

} // verus!
