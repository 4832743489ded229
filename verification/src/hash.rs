//! 32-byte hashes and event topics.
use vstd::prelude::*;

verus! {

/// Thirty-two zero bytes.
pub open spec fn zero32() -> Seq<u8> {
    Seq::new(32, |i: int| 0u8)
}

/// Whether a 32-byte array is all zeros.
fn all_zero_32(b: &[u8; 32]) -> (r: bool)
    ensures
        r == (b@ == zero32()),
{
    let mut i: usize = 0;
    while i < 32
        invariant
            i <= 32,
            forall|k: int| 0 <= k < i ==> b@[k] == 0,
        decreases 32 - i,
    {
        if b[i] != 0 {
            assert(b@[i as int] != zero32()[i as int]);
            return false;
        }
        i = i + 1;
    }
    assert(b@ =~= zero32());
    true
}

/// 32-byte hash type
#[derive(Clone, Copy, PartialEq, Eq, Debug)]
pub struct Hash(pub [u8; 32]);

impl Hash {
    /// Create zero hash
    pub fn zero() -> (r: Self)
        ensures
            r.0@ == zero32(),
    {
        let r = Hash([0u8; 32]);
        assert(r.0@ =~= zero32());
        r
    }

    /// Create from bytes
    pub fn from_bytes(bytes: [u8; 32]) -> (r: Self)
        ensures
            r.0 == bytes,
    {
        Hash(bytes)
    }

    /// Get as bytes
    pub fn as_bytes(&self) -> (r: &[u8; 32])
        ensures
            *r == self.0,
    {
        &self.0
    }

    /// Get as mutable bytes
    pub fn as_bytes_mut(&mut self) -> (r: &mut [u8; 32])
        ensures
            *r == old(self).0,
            final(self).0 == *final(r),
    {
        &mut self.0
    }

    /// Check if zero
    pub fn is_zero(&self) -> (r: bool)
        ensures
            r == (self.0@ == zero32()),
    {
        all_zero_32(&self.0)
    }
}

impl Default for Hash {
    fn default() -> (r: Self)
        ensures
            r.0@ == zero32(),
    {
        Hash::zero()
    }
}

impl From<[u8; 32]> for Hash {
    fn from(bytes: [u8; 32]) -> (r: Self) {
        Hash(bytes)
    }
}

impl vstd::std_specs::convert::FromSpecImpl<[u8; 32]> for Hash {
    open spec fn obeys_from_spec() -> bool {
        true
    }

    open spec fn from_spec(bytes: [u8; 32]) -> Self {
        Hash(bytes)
    }
}

/// Event topic (32 bytes)
#[derive(Clone, Copy, PartialEq, Eq, Debug)]
pub struct Topic(pub [u8; 32]);

/// The four big-endian bytes of `v` followed by 28 zero bytes.
pub open spec fn topic_bytes_of_u32(v: u32) -> Seq<u8> {
    crate::endian::be_seq(v as u128, 4) + Seq::new(28, |i: int| 0u8)
}

impl Topic {
    /// Empty topic
    pub fn empty() -> (r: Self)
        ensures
            r.0@ == zero32(),
    {
        let r = Topic([0u8; 32]);
        assert(r.0@ =~= zero32());
        r
    }

    /// Create from bytes
    pub fn from_bytes(bytes: [u8; 32]) -> (r: Self)
        ensures
            r.0 == bytes,
    {
        Topic(bytes)
    }

    /// Create from u32 (used for event signatures)
    pub fn from_u32(value: u32) -> (r: Self)
        ensures
            r.0@ == topic_bytes_of_u32(value),
    {
        let mut bytes = [0u8; 32];
        crate::endian::write_be(value as u128, 4, &mut bytes, 0);
        assert(bytes@ =~= topic_bytes_of_u32(value));
        Topic(bytes)
    }

    /// Create from hash
    pub fn from_hash(hash: Hash) -> (r: Self)
        ensures
            r.0 == hash.0,
    {
        Topic(hash.0)
    }

    /// Check if empty
    pub fn is_empty(&self) -> (r: bool)
        ensures
            r == (self.0@ == zero32()),
    {
        all_zero_32(&self.0)
    }
}

impl Default for Topic {
    fn default() -> (r: Self)
        ensures
            r.0@ == zero32(),
    {
        Topic::empty()
    }
}

impl From<[u8; 32]> for Topic {
    fn from(bytes: [u8; 32]) -> (r: Self) {
        Topic(bytes)
    }
}

impl vstd::std_specs::convert::FromSpecImpl<[u8; 32]> for Topic {
    open spec fn obeys_from_spec() -> bool {
        true
    }

    open spec fn from_spec(bytes: [u8; 32]) -> Self {
        Topic(bytes)
    }
}

} // verus!
