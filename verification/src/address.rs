//! Accumulate URL addresses.
use vstd::prelude::*;
use vstd::utf8::{valid_utf8, encode_utf8};
use vstd::string::StringSliceAdditionalSpecFns;
use vstd::slice::slice_subrange;

verus! {

/// `core::str::from_utf8`: its documentation promises `Ok` exactly for
/// byte slices that are valid UTF-8, with a string made of those bytes.
#[verifier::external_body]
pub(crate) fn str_from_utf8(b: &[u8]) -> (r: Option<&str>)
    ensures
        r is Some <==> valid_utf8(b@),
        r matches Some(s) ==> s.spec_bytes() == b@,
{
    core::str::from_utf8(b).ok()
}

/// Index of the first `c` in `s`, or `s.len()` when there is none.
pub open spec fn first_index_of(s: Seq<u8>, c: u8) -> int
    decreases s.len(),
{
    if s.len() == 0 {
        0
    } else if s[0] == c {
        0
    } else {
        1 + first_index_of(s.drop_first(), c)
    }
}

proof fn lemma_first_index_of(s: Seq<u8>, c: u8, i: int)
    requires
        0 <= i <= s.len(),
        forall|j: int| 0 <= j < i ==> s[j] != c,
        i == s.len() || s[i] == c,
    ensures
        first_index_of(s, c) == i,
    decreases s.len(),
{
    if s.len() > 0 && i > 0 {
        lemma_first_index_of(s.drop_first(), c, i - 1);
    }
}

/// The bytes of "acc://".
pub open spec fn acc_scheme() -> Seq<u8> {
    seq![0x61u8, 0x63u8, 0x63u8, 0x3au8, 0x2fu8, 0x2fu8]
}

/// The byte of '/'.
pub open spec fn slash() -> u8 {
    0x2f
}

/// Whether the bytes begin with "acc://".
pub open spec fn has_acc_scheme(b: Seq<u8>) -> bool {
    b.len() >= 6 && b.take(6) == acc_scheme()
}

/// The identity part of an "acc://" URL: up to the first '/' after the scheme.
pub open spec fn adi_part(b: Seq<u8>) -> Seq<u8> {
    b.skip(6).take(first_index_of(b.skip(6), slash()))
}

/// Whether an "acc://" URL has a path (a '/' after the scheme).
pub open spec fn has_path(b: Seq<u8>) -> bool {
    first_index_of(b.skip(6), slash()) < b.skip(6).len()
}

/// The path of an "acc://" URL: from the first '/' after the scheme on.
pub open spec fn path_part(b: Seq<u8>) -> Seq<u8> {
    b.skip(6).skip(first_index_of(b.skip(6), slash()))
}

/// Accumulate URL address type
#[derive(PartialEq, Eq, Debug)]
pub struct Address {
    /// Raw bytes of the address (up to 256 bytes)
    data: [u8; 256],
    /// Length of the address
    len: u16,
}

impl View for Address {
    type V = Seq<u8>;

    /// The bytes of the address.
    closed spec fn view(&self) -> Seq<u8> {
        self.data@.take(self.len as int)
    }
}

impl Address {
    #[verifier::type_invariant]
    closed spec fn inv(self) -> bool {
        &&& self.len <= 256
        &&& forall|i: int| self.len <= i < 256 ==> self.data@[i] == 0
    }

    /// Maximum address length
    pub fn max_len() -> (r: usize)
        ensures
            r == 256,
    {
        256
    }

    /// Create empty address
    pub fn empty() -> (r: Self)
        ensures
            r@ == Seq::<u8>::empty(),
    {
        let r = Address { data: [0u8; 256], len: 0 };
        assert(r@ =~= Seq::<u8>::empty());
        r
    }

    /// Create from bytes
    pub fn from_bytes(bytes: &[u8]) -> (r: Option<Self>)
        ensures
            r is Some <==> bytes@.len() <= 256,
            r matches Some(a) ==> a@ == bytes@,
    {
        let n = bytes.len();
        if n > 256 {
            return None;
        }
        let mut data = [0u8; 256];
        let mut i: usize = 0;
        while i < n
            invariant
                n == bytes@.len(),
                n <= 256,
                i <= n,
                data@.len() == 256,
                forall|k: int| 0 <= k < i ==> data@[k] == bytes@[k],
                forall|k: int| i <= k < 256 ==> data@[k] == 0,
            decreases n - i,
        {
            data[i] = bytes[i];
            i = i + 1;
        }
        let r = Address { data, len: n as u16 };
        assert(r@ =~= bytes@);
        Some(r)
    }

    /// Create from string
    pub fn from_str(s: &str) -> (r: Option<Self>)
        ensures
            r is Some <==> s.spec_bytes().len() <= 256,
            r matches Some(a) ==> a@ == s.spec_bytes(),
    {
        Self::from_bytes(s.as_bytes())
    }

    /// Get as bytes
    pub fn as_bytes(&self) -> (r: &[u8])
        ensures
            r@ == self@,
            r@.len() <= 256,
    {
        proof { use_type_invariant(self); }
        slice_subrange(self.data.as_slice(), 0, self.len as usize)
    }

    /// Get length
    pub fn len(&self) -> (r: usize)
        ensures
            r == self@.len(),
            r <= 256,
    {
        proof { use_type_invariant(self); }
        self.len as usize
    }

    /// Check if empty
    pub fn is_empty(&self) -> (r: bool)
        ensures
            r == (self@.len() == 0),
    {
        proof { use_type_invariant(self); }
        self.len == 0
    }

    /// Convert to string (if valid UTF-8)
    pub fn to_string(&self) -> (r: Option<String>)
        ensures
            r is Some <==> valid_utf8(self@),
            r matches Some(s) ==> encode_utf8(s@) == self@,
    {
        match str_from_utf8(self.as_bytes()) {
            Some(s) => Some(s.to_owned()),
            None => None,
        }
    }

    /// Get as str (if valid UTF-8)
    pub fn as_str(&self) -> (r: Option<&str>)
        ensures
            r is Some <==> valid_utf8(self@),
            r matches Some(s) ==> s.spec_bytes() == self@,
    {
        str_from_utf8(self.as_bytes())
    }

    fn starts_with_acc(&self) -> (r: bool)
        ensures
            r == has_acc_scheme(self@),
    {
        let b = self.as_bytes();
        if b.len() < 6 {
            return false;
        }
        let ok = b[0] == 0x61 && b[1] == 0x63 && b[2] == 0x63 && b[3] == 0x3a && b[4] == 0x2f
            && b[5] == 0x2f;
        proof {
            if ok {
                assert(b@.take(6) =~= acc_scheme());
            } else {
                assert(b@.take(6)[0] != acc_scheme()[0] || b@.take(6)[1] != acc_scheme()[1]
                    || b@.take(6)[2] != acc_scheme()[2] || b@.take(6)[3] != acc_scheme()[3]
                    || b@.take(6)[4] != acc_scheme()[4] || b@.take(6)[5] != acc_scheme()[5]);
            }
        }
        ok
    }

    /// Index (after the scheme) of the first '/' of an "acc://" URL.
    fn first_slash_after_scheme(&self) -> (r: usize)
        requires
            has_acc_scheme(self@),
        ensures
            r == first_index_of(self@.skip(6), slash()),
            r <= self@.skip(6).len(),
            forall|j: int| 0 <= j < r ==> self@.skip(6)[j] != slash(),
            r < self@.skip(6).len() ==> self@.skip(6)[r as int] == slash(),
    {
        let b = self.as_bytes();
        let n = b.len();
        let mut i: usize = 6;
        while i < n && b[i] != 0x2f
            invariant
                6 <= i <= n,
                n == b@.len(),
                forall|j: int| 6 <= j < i ==> b@[j] != slash(),
            decreases n - i,
        {
            i = i + 1;
        }
        proof {
            lemma_first_index_of(b@.skip(6), slash(), i - 6);
        }
        i - 6
    }

    /// Check if this is an ADI URL: "acc://" followed by an identity with
    /// no path.
    pub fn is_adi(&self) -> (r: bool)
        ensures
            r == (valid_utf8(self@) && has_acc_scheme(self@) && !has_path(self@)),
    {
        if self.as_str().is_none() {
            return false;
        }
        if !self.starts_with_acc() {
            return false;
        }
        let i = self.first_slash_after_scheme();
        i == self.len() - 6
    }

    /// Get the ADI portion of the URL
    pub fn adi(&self) -> (r: Option<&str>)
        ensures
            r is Some <==> (valid_utf8(self@) && has_acc_scheme(self@)),
            r matches Some(s) ==> s.spec_bytes() == adi_part(self@),
    {
        if self.as_str().is_none() {
            return None;
        }
        if !self.starts_with_acc() {
            return None;
        }
        let i = self.first_slash_after_scheme();
        let b = self.as_bytes();
        let part = slice_subrange(b, 6, 6 + i);
        proof {
            lemma_acc_split_valid(self@, i as int);
            assert(part@ =~= adi_part(self@));
        }
        str_from_utf8(part)
    }

    /// Get the path portion of the URL
    pub fn path(&self) -> (r: Option<&str>)
        ensures
            r is Some <==> (valid_utf8(self@) && has_acc_scheme(self@) && has_path(self@)),
            r matches Some(s) ==> s.spec_bytes() == path_part(self@),
    {
        if self.as_str().is_none() {
            return None;
        }
        if !self.starts_with_acc() {
            return None;
        }
        let i = self.first_slash_after_scheme();
        let n = self.len();
        if i == n - 6 {
            return None;
        }
        let b = self.as_bytes();
        let part = slice_subrange(b, 6 + i, n);
        proof {
            lemma_acc_split_valid(self@, i as int);
            assert(part@ =~= path_part(self@));
        }
        str_from_utf8(part)
    }
}

/// An "acc://" URL is its scheme, then its identity part, then its path:
/// the two parts split what follows the scheme without losing a byte.
pub proof fn lemma_adi_path_split(b: Seq<u8>)
    requires
        has_acc_scheme(b),
    ensures
        acc_scheme() + adi_part(b) + path_part(b) == b,
{
    lemma_first_index_of_bounds(b.skip(6), slash());
    assert(acc_scheme() + adi_part(b) + path_part(b) =~= b);
}

proof fn lemma_first_index_of_bounds(s: Seq<u8>, c: u8)
    ensures
        0 <= first_index_of(s, c) <= s.len(),
    decreases s.len(),
{
    if s.len() > 0 && s[0] != c {
        lemma_first_index_of_bounds(s.drop_first(), c);
    }
}

/// Splitting a valid "acc://" URL after the scheme and at its first '/'
/// leaves valid UTF-8 on both sides.
proof fn lemma_acc_split_valid(b: Seq<u8>, i: int)
    requires
        valid_utf8(b),
        has_acc_scheme(b),
        i == first_index_of(b.skip(6), slash()),
        0 <= i <= b.len() - 6,
        forall|j: int| 0 <= j < i ==> b.skip(6)[j] != slash(),
        i < b.len() - 6 ==> b.skip(6)[i] == slash(),
    ensures
        valid_utf8(b.subrange(6, 6 + i)),
        i < b.len() - 6 ==> valid_utf8(b.subrange(6 + i, b.len() as int)),
{
    broadcast use vstd::utf8::is_char_boundary_iff_not_is_continuation_byte,
        vstd::utf8::valid_utf8_split, vstd::utf8::is_char_boundary_start_end_of_seq;
    // The byte at 5 is '/', an ASCII byte, so 5 and 6 are both boundaries.
    assert(b.take(6)[5] == slash());
    assert(b[5] == slash());
    vstd::utf8::is_char_boundary_iff_not_is_continuation_byte(b, 5);
    assert(vstd::utf8::is_char_boundary(b, 5));
    let tail = b.subrange(5, b.len() as int);
    vstd::utf8::valid_utf8_split(b, 5);
    assert(valid_utf8(tail));
    assert(tail[0] == slash());
    reveal_with_fuel(valid_utf8, 2);
    assert(vstd::utf8::pop_first_scalar(tail) =~= tail.subrange(1, tail.len() as int));
    let rest = b.subrange(6, b.len() as int);
    assert(rest =~= tail.subrange(1, tail.len() as int));
    assert(valid_utf8(rest));
    assert(rest =~= b.skip(6));
    if i < rest.len() {
        assert(rest[i] == slash());
        vstd::utf8::is_char_boundary_iff_not_is_continuation_byte(rest, i);
        assert(vstd::utf8::is_char_boundary(rest, i));
        vstd::utf8::valid_utf8_split(rest, i);
        assert(rest.subrange(0, i) =~= b.subrange(6, 6 + i));
        assert(rest.subrange(i, rest.len() as int) =~= b.subrange(6 + i, b.len() as int));
    } else {
        assert(rest.subrange(0, i) =~= rest);
        assert(b.subrange(6, 6 + i) =~= rest);
    }
}

impl Clone for Address {
    fn clone(&self) -> (r: Self)
        ensures
            r@ == self@,
    {
        proof { use_type_invariant(self); }
        Address { data: self.data, len: self.len }
    }
}

impl Default for Address {
    fn default() -> (r: Self)
        ensures
            r@ == Seq::<u8>::empty(),
    {
        Address::empty()
    }
}

} // verus!
