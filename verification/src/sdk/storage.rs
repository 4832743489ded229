//! Storage operations for contract state.
use vstd::prelude::*;
use crate::codec::{Decode, Encode};
use crate::endian::splice;
use crate::error::Error;
use crate::sdk::host::{slice_to_vec, Host};

verus! {

/// Maximum storage value size
pub const MAX_VALUE_SIZE: usize = 65536;

/// Every value stored under `key` fits in `n` bytes.
pub open spec fn fits_in(host: &Host, key: Seq<u8>, n: nat) -> bool {
    host.store().contains_key(key) ==> host.store()[key].len() <= n
}

/// Get a value from storage; `None` if the key doesn't exist.
pub fn get(host: &Host, key: &[u8]) -> (r: Option<Vec<u8>>)
    requires
        fits_in(host, key@, MAX_VALUE_SIZE as nat),
    ensures
        r is Some <==> host.store().contains_key(key@),
        r matches Some(v) ==> v@ == host.store()[key@],
{
    match host.storage_get(key) {
        Some(v) => Some(slice_to_vec(v.as_slice())),
        None => None,
    }
}

/// Get a value from storage into a buffer; returns the number of bytes read,
/// or `None` if the key doesn't exist.
pub fn get_into(host: &Host, key: &[u8], buffer: &mut [u8]) -> (r: Option<usize>)
    requires
        fits_in(host, key@, old(buffer)@.len()),
    ensures
        r is Some <==> host.store().contains_key(key@),
        r matches Some(n) ==> n == host.store()[key@].len() && final(buffer)@ == splice(
            old(buffer)@,
            0,
            host.store()[key@],
        ),
        r is None ==> final(buffer)@ == old(buffer)@,
{
    match host.storage_get(key) {
        Some(v) => {
            let ghost orig = buffer@;
            let n = v.len();
            let mut i: usize = 0;
            while i < n
                invariant
                    n == v@.len(),
                    n <= orig.len(),
                    buffer@.len() == orig.len(),
                    i <= n,
                    forall|k: int| 0 <= k < i ==> buffer@[k] == v@[k],
                    forall|k: int| n <= k < orig.len() ==> buffer@[k] == orig[k],
                decreases n - i,
            {
                buffer[i] = v[i];
                i = i + 1;
            }
            assert(buffer@ =~= splice(orig, 0, v@));
            Some(n)
        },
        None => None,
    }
}

/// Get and decode a value from storage; `None` if the key doesn't exist or
/// its value does not decode.
pub fn get_decoded<T: Decode>(host: &Host, key: &[u8]) -> (r: Option<T>)
    requires
        fits_in(host, key@, MAX_VALUE_SIZE as nat),
    ensures
        r is Some <==> host.store().contains_key(key@) && T::decodable(host.store()[key@]),
        r matches Some(v) ==> T::decodes(host.store()[key@], v),
{
    match host.storage_get(key) {
        Some(v) => match T::decode(v.as_slice()) {
            Ok(x) => Some(x),
            Err(_) => None,
        },
        None => None,
    }
}

/// Set a value in storage
pub fn set(host: &mut Host, key: &[u8], value: &[u8])
    ensures
        final(host).store() == old(host).store().insert(key@, value@),
        final(host).caller_bytes() == old(host).caller_bytes(),
        final(host).height() == old(host).height(),
        final(host).emitted() == old(host).emitted(),
{
    host.storage_set(key, value);
}

/// Encode and set a value in storage; fails with `BufferTooSmall`, storing
/// nothing, when the encoding is longer than the largest storage value.
pub fn set_encoded<T: Encode>(host: &mut Host, key: &[u8], value: &T) -> (r: Result<(), Error>)
    ensures
        r is Ok <==> value.encoding().len() <= MAX_VALUE_SIZE,
        r is Ok ==> final(host).store() == old(host).store().insert(key@, value.encoding()),
        r matches Err(e) ==> e == Error::BufferTooSmall && final(host).store() == old(host).store(),
        final(host).caller_bytes() == old(host).caller_bytes(),
        final(host).height() == old(host).height(),
        final(host).emitted() == old(host).emitted(),
{
    let mut buffer = vec![0u8; MAX_VALUE_SIZE];
    let len = match value.encode(buffer.as_mut_slice()) {
        Ok(n) => n,
        Err(e) => {
            return Err(e);
        },
    };
    let written = vstd::slice::slice_subrange(buffer.as_slice(), 0, len);
    assert(written@ =~= value.encoding());
    set(host, key, written);
    Ok(())
}

/// Delete a value from storage
pub fn delete(host: &mut Host, key: &[u8])
    ensures
        final(host).store() == old(host).store().remove(key@),
        final(host).caller_bytes() == old(host).caller_bytes(),
        final(host).height() == old(host).height(),
        final(host).emitted() == old(host).emitted(),
{
    host.storage_delete(key);
}

/// Check if a key exists in storage
pub fn has(host: &Host, key: &[u8]) -> (r: bool)
    ensures
        r == host.store().contains_key(key@),
{
    host.storage_has(key)
}

/// Storage map helper for key-value mappings: every key is stored under
/// the map's prefix followed by the key.
pub struct StorageMap<'a> {
    prefix: &'a [u8],
}

/// Largest length of a prefixed key.
pub const MAX_MAP_KEY: usize = 512;

impl<'a> StorageMap<'a> {
    /// The prefix of the map's keys.
    pub closed spec fn key_prefix(&self) -> Seq<u8> {
        self.prefix@
    }

    /// The storage key a map key is stored under.
    pub open spec fn full_key(&self, key: Seq<u8>) -> Seq<u8> {
        self.key_prefix() + key
    }

    /// Whether a map key with its prefix fits in a storage key.
    pub open spec fn key_fits(&self, key: Seq<u8>) -> bool {
        self.key_prefix().len() + key.len() <= MAX_MAP_KEY
    }

    /// Create a new storage map with a prefix
    pub fn new(prefix: &'a [u8]) -> (r: Self)
        ensures
            r.key_prefix() == prefix@,
    {
        StorageMap { prefix }
    }

    /// Build a storage key from the prefix and a key
    fn build_key(&self, key: &[u8], buffer: &mut [u8]) -> (r: usize)
        requires
            self.prefix@.len() + key@.len() <= old(buffer)@.len(),
        ensures
            r == self.prefix@.len() + key@.len(),
            final(buffer)@.len() == old(buffer)@.len(),
            final(buffer)@.take(r as int) == self.prefix@ + key@,
    {
        let p = self.prefix.len();
        let n = key.len();
        let blen = buffer.len();
        let ghost orig = buffer@;
        let mut i: usize = 0;
        while i < p
            invariant
                p == self.prefix@.len(),
                p + n <= orig.len(),
                buffer@.len() == orig.len(),
                i <= p,
                forall|k: int| 0 <= k < i ==> buffer@[k] == self.prefix@[k],
            decreases p - i,
        {
            buffer[i] = self.prefix[i];
            i = i + 1;
        }
        let mut j: usize = 0;
        while j < n
            invariant
                p == self.prefix@.len(),
                n == key@.len(),
                blen == orig.len(),
                p + n <= orig.len(),
                buffer@.len() == orig.len(),
                j <= n,
                forall|k: int| 0 <= k < p ==> buffer@[k] == self.prefix@[k],
                forall|k: int| 0 <= k < j ==> buffer@[p + k] == key@[k],
            decreases n - j,
        {
            buffer[p + j] = key[j];
            j = j + 1;
        }
        assert(buffer@.take((p + n) as int) =~= self.prefix@ + key@);
        p + n
    }

    /// The storage key of a map key, built in a 512-byte buffer.
    fn storage_key(&self, key: &[u8]) -> (r: Vec<u8>)
        requires
            self.key_fits(key@),
        ensures
            r@ == self.full_key(key@),
    {
        let mut buffer = vec![0u8; MAX_MAP_KEY];
        let len = self.build_key(key, buffer.as_mut_slice());
        let k = vstd::slice::slice_subrange(buffer.as_slice(), 0, len);
        slice_to_vec(k)
    }

    /// Get a value from the map: the number of bytes of the value, if any.
    pub fn get(&self, host: &Host, key: &[u8]) -> (r: Option<usize>)
        requires
            self.key_fits(key@),
            fits_in(host, self.full_key(key@), MAX_VALUE_SIZE as nat),
        ensures
            r is Some <==> host.store().contains_key(self.full_key(key@)),
            r matches Some(n) ==> n == host.store()[self.full_key(key@)].len(),
    {
        let k = self.storage_key(key);
        let mut value_buffer = vec![0u8; MAX_VALUE_SIZE];
        get_into(host, k.as_slice(), value_buffer.as_mut_slice())
    }

    /// Get and decode a value from the map
    pub fn get_decoded<T: Decode>(&self, host: &Host, key: &[u8]) -> (r: Option<T>)
        requires
            self.key_fits(key@),
            fits_in(host, self.full_key(key@), MAX_VALUE_SIZE as nat),
        ensures
            r is Some <==> host.store().contains_key(self.full_key(key@)) && T::decodable(
                host.store()[self.full_key(key@)],
            ),
            r matches Some(v) ==> T::decodes(host.store()[self.full_key(key@)], v),
    {
        let k = self.storage_key(key);
        get_decoded(host, k.as_slice())
    }

    /// Set a value in the map
    pub fn set(&self, host: &mut Host, key: &[u8], value: &[u8])
        requires
            self.key_fits(key@),
        ensures
            final(host).store() == old(host).store().insert(self.full_key(key@), value@),
            final(host).caller_bytes() == old(host).caller_bytes(),
            final(host).height() == old(host).height(),
            final(host).emitted() == old(host).emitted(),
    {
        let k = self.storage_key(key);
        set(host, k.as_slice(), value);
    }

    /// Encode and set a value in the map
    pub fn set_encoded<T: Encode>(&self, host: &mut Host, key: &[u8], value: &T) -> (r: Result<
        (),
        Error,
    >)
        requires
            self.key_fits(key@),
        ensures
            r is Ok <==> value.encoding().len() <= MAX_VALUE_SIZE,
            r is Ok ==> final(host).store() == old(host).store().insert(
                self.full_key(key@),
                value.encoding(),
            ),
            r matches Err(e) ==> e == Error::BufferTooSmall && final(host).store() == old(
                host,
            ).store(),
            final(host).caller_bytes() == old(host).caller_bytes(),
            final(host).height() == old(host).height(),
            final(host).emitted() == old(host).emitted(),
    {
        let k = self.storage_key(key);
        set_encoded(host, k.as_slice(), value)
    }

    /// Delete a value from the map
    pub fn delete(&self, host: &mut Host, key: &[u8])
        requires
            self.key_fits(key@),
        ensures
            final(host).store() == old(host).store().remove(self.full_key(key@)),
            final(host).caller_bytes() == old(host).caller_bytes(),
            final(host).height() == old(host).height(),
            final(host).emitted() == old(host).emitted(),
    {
        let k = self.storage_key(key);
        delete(host, k.as_slice());
    }

    /// Check if a key exists in the map
    pub fn has(&self, host: &Host, key: &[u8]) -> (r: bool)
        requires
            self.key_fits(key@),
        ensures
            r == host.store().contains_key(self.full_key(key@)),
    {
        let k = self.storage_key(key);
        has(host, k.as_slice())
    }
}

/// Reading a key right after writing it gives the written value; writing
/// leaves every other key as it was.
pub proof fn lemma_get_after_set(store: Map<Seq<u8>, Seq<u8>>, key: Seq<u8>, value: Seq<u8>, other: Seq<u8>)
    ensures
        store.insert(key, value).contains_key(key),
        store.insert(key, value)[key] == value,
        other != key ==> (store.insert(key, value).contains_key(other) == store.contains_key(other)
            && (store.contains_key(other) ==> store.insert(key, value)[other] == store[other])),
{
}

/// After a key is deleted it is absent, and every other key is as it was.
pub proof fn lemma_absent_after_delete(store: Map<Seq<u8>, Seq<u8>>, key: Seq<u8>, other: Seq<u8>)
    ensures
        !store.remove(key).contains_key(key),
        other != key ==> (store.remove(key).contains_key(other) == store.contains_key(other) && (
        store.contains_key(other) ==> store.remove(key)[other] == store[other])),
{
}

/// Two map keys are stored under different storage keys exactly when they
/// differ: a map never mixes up its own keys.
pub proof fn lemma_map_keys_distinct(m: StorageMap, a: Seq<u8>, b: Seq<u8>)
    ensures
        (m.full_key(a) == m.full_key(b)) <==> (a == b),
{
    if m.full_key(a) == m.full_key(b) {
        let p = m.key_prefix().len();
        assert(a =~= m.full_key(a).subrange(p as int, m.full_key(a).len() as int));
        assert(b =~= m.full_key(b).subrange(p as int, m.full_key(b).len() as int));
    }
}

} // verus!
