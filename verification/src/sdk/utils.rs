//! Utility functions for contract development: storage slots, safe math,
//! address checks and a reentrancy guard.
pub mod address;
pub mod safe_math;

use vstd::prelude::*;
use crate::error::Error;
use crate::keccak::keccak256_spec;
use crate::sdk::crypto::keccak256;
use crate::sdk::host::Host;
use crate::sdk::storage;

verus! {

/// The storage slot of `key` in the mapping at `slot`: the Keccak-256
/// digest of the key followed by the slot.
pub open spec fn mapping_slot_spec(slot: Seq<u8>, key: Seq<u8>) -> Seq<u8> {
    keccak256_spec(key + slot)
}

/// Calculate a storage slot for a mapping: `keccak256(key || slot)`, as in
/// the Solidity storage layout.
pub fn mapping_slot(slot: &[u8; 32], key: &[u8]) -> (r: crate::hash::Hash)
    requires
        key@.len() <= 32,
    ensures
        r.0@ == mapping_slot_spec(slot@, key@),
{
    let mut data = [0u8; 64];
    let n = key.len();
    let mut i: usize = 0;
    while i < n
        invariant
            n == key@.len(),
            n <= 32,
            i <= n,
            forall|k: int| 0 <= k < i ==> data@[k] == key@[k],
        decreases n - i,
    {
        data[i] = key[i];
        i = i + 1;
    }
    let mut j: usize = 0;
    while j < 32
        invariant
            n == key@.len(),
            n <= 32,
            j <= 32,
            forall|k: int| 0 <= k < n ==> data@[k] == key@[k],
            forall|k: int| 0 <= k < j ==> data@[n + k] == slot@[k],
        decreases 32 - j,
    {
        data[n + j] = slot[j];
        j = j + 1;
    }
    let pre = vstd::slice::slice_subrange(data.as_slice(), 0, n + 32);
    assert(pre@ =~= key@ + slot@);
    keccak256(pre)
}

/// Calculate a storage slot for a nested mapping:
/// `keccak256(key2 || keccak256(key1 || slot))`.
pub fn nested_mapping_slot(slot: &[u8; 32], key1: &[u8], key2: &[u8]) -> (r: crate::hash::Hash)
    requires
        key1@.len() <= 32,
        key2@.len() <= 32,
    ensures
        r.0@ == mapping_slot_spec(mapping_slot_spec(slot@, key1@), key2@),
{
    let inner = mapping_slot(slot, key1);
    mapping_slot(&inner.0, key2)
}

/// Reentrancy guard: a storage key that is present while a guarded
/// section runs.
pub struct ReentrancyGuard {
    key: &'static [u8],
}

impl ReentrancyGuard {
    /// The storage key of the guard.
    pub closed spec fn lock_key(&self) -> Seq<u8> {
        self.key@
    }

    /// Create a new reentrancy guard
    pub fn new(key: &'static [u8]) -> (r: Self)
        ensures
            r.lock_key() == key@,
    {
        ReentrancyGuard { key }
    }

    /// Enter the guarded section: fails with `ReentrancyDetected`, changing
    /// nothing, when the section is already entered; otherwise marks it
    /// entered by storing `[1]` under the guard's key.
    pub fn enter(&self, host: &mut Host) -> (r: Result<ReentrancyGuardLock<'_>, Error>)
        ensures
            r is Err <==> old(host).store().contains_key(self.lock_key()),
            r matches Err(e) ==> e == Error::ReentrancyDetected && final(host).store() == old(
                host,
            ).store(),
            r matches Ok(lock) ==> lock.guard_key() == self.lock_key() && final(host).store()
                == old(host).store().insert(self.lock_key(), seq![1u8]),
    {
        if storage::has(host, self.key) {
            return Err(Error::ReentrancyDetected);
        }
        let one = [1u8];
        storage::set(host, self.key, one.as_slice());
        assert(one@ =~= seq![1u8]);
        Ok(ReentrancyGuardLock { guard: self })
    }
}

/// Lock of an entered guarded section; `release` leaves the section.
pub struct ReentrancyGuardLock<'a> {
    guard: &'a ReentrancyGuard,
}

impl<'a> ReentrancyGuardLock<'a> {
    /// The storage key of the guard this lock holds.
    pub closed spec fn guard_key(&self) -> Seq<u8> {
        self.guard.key@
    }

    /// Leave the guarded section: removes the guard's key from storage.
    pub fn release(self, host: &mut Host)
        ensures
            final(host).store() == old(host).store().remove(self.guard_key()),
    {
        storage::delete(host, self.guard.key);
    }
}

/// While a guarded section is entered, entering it again fails; once its
/// lock is released it can be entered again.
pub proof fn lemma_guard_exclusive(store: Map<Seq<u8>, Seq<u8>>, key: Seq<u8>)
    ensures
        store.insert(key, seq![1u8]).contains_key(key),
        !store.insert(key, seq![1u8]).remove(key).contains_key(key),
{
}

} // verus!
