//! Byte encoding and decoding of contract values.
//!
//! Integers are written big-endian in their natural width, `bool` as one
//! byte, `U256` and `Hash` as 32 bytes, and an address as one length byte
//! followed by its bytes.
use vstd::prelude::*;
use crate::address::Address;
use crate::endian::{be_seq, fits_bytes, read_be, splice, write_be, lemma_be_injective};
use crate::error::Error;
use crate::u256::{u256_be_bytes, lemma_u256_be_bytes_injective, U256};

verus! {

/// Trait for encoding values to bytes
pub trait Encode {
    /// The bytes a value is written as.
    spec fn encoding(&self) -> Seq<u8>;

    /// Encode self into the buffer, returning the number of bytes written.
    ///
    /// Fails with `BufferTooSmall`, leaving the buffer as it was, when the
    /// encoding does not fit.
    fn encode(&self, buffer: &mut [u8]) -> (r: Result<usize, Error>)
        ensures
            r is Ok <==> self.encoding().len() <= old(buffer)@.len(),
            r matches Ok(n) ==> n == self.encoding().len() && final(buffer)@ == splice(
                old(buffer)@,
                0,
                self.encoding(),
            ),
            r matches Err(e) ==> e == Error::BufferTooSmall && final(buffer)@ == old(buffer)@,
    ;
}

/// Trait for decoding values from bytes
pub trait Decode: Sized {
    /// Whether a value can be read from the front of `data`.
    spec fn decodable(data: Seq<u8>) -> bool;

    /// `v` is the value read from the front of `data`.
    spec fn decodes(data: Seq<u8>, v: Self) -> bool;

    /// Decode from bytes; fails with `DecodingError` when no value can be read.
    fn decode(data: &[u8]) -> (r: Result<Self, Error>)
        ensures
            r is Ok <==> Self::decodable(data@),
            r matches Ok(v) ==> Self::decodes(data@, v),
            r matches Err(e) ==> e == Error::DecodingError,
    ;

    /// Decode from bytes, returning the value and number of bytes consumed
    fn decode_with_len(data: &[u8]) -> (r: Result<(Self, usize), Error>)
        ensures
            r is Ok <==> Self::decodable(data@),
            r matches Ok((v, n)) ==> Self::decodes(data@, v) && n <= data@.len(),
            r matches Err(e) ==> e == Error::DecodingError,
    {
        match Self::decode(data) {
            Ok(value) => Ok((value, data.len())),
            Err(e) => Err(e),
        }
    }
}

/// Copies the bytes of `src` to the front of `buffer`.
fn put_bytes(src: &[u8], buffer: &mut [u8], off: usize)
    requires
        off + src@.len() <= old(buffer)@.len(),
    ensures
        final(buffer)@ == splice(old(buffer)@, off as int, src@),
{
    let ghost orig = buffer@;
    let n = src.len();
    let blen = buffer.len();
    let mut i: usize = 0;
    while i < n
        invariant
            n == src@.len(),
            blen == buffer@.len(),
            off + n <= orig.len(),
            buffer@.len() == orig.len(),
            i <= n,
            forall|j: int| 0 <= j < off ==> buffer@[j] == orig[j],
            forall|j: int| off + n <= j < orig.len() ==> buffer@[j] == orig[j],
            forall|j: int| 0 <= j < i ==> buffer@[off + j] == src@[j],
        decreases n - i,
    {
        buffer[off + i] = src[i];
        i = i + 1;
    }
    assert(buffer@ =~= splice(orig, off as int, src@));
}

/// Writes the `n` big-endian bytes of `x` to the front of `buffer`.
fn encode_be(x: u128, n: usize, buffer: &mut [u8]) -> (r: Result<usize, Error>)
    requires
        n <= 16,
    ensures
        r is Ok <==> n <= old(buffer)@.len(),
        r matches Ok(k) ==> k == n && final(buffer)@ == splice(old(buffer)@, 0, be_seq(x, n as nat)),
        r matches Err(e) ==> e == Error::BufferTooSmall && final(buffer)@ == old(buffer)@,
{
    if buffer.len() < n {
        return Err(Error::BufferTooSmall);
    }
    write_be(x, n, buffer, 0);
    Ok(n)
}

/// Reads `n` big-endian bytes from the front of `data`.
fn decode_be(data: &[u8], n: usize) -> (r: Result<u128, Error>)
    requires
        1 <= n <= 16,
    ensures
        r is Ok <==> n <= data@.len(),
        r matches Ok(v) ==> be_seq(v, n as nat) == data@.subrange(0, n as int) && fits_bytes(
            v,
            n as nat,
        ),
        r matches Err(e) ==> e == Error::DecodingError,
{
    if data.len() < n {
        return Err(Error::DecodingError);
    }
    Ok(read_be(data, 0, n))
}

proof fn lemma_fits_cast(v: u128, n: nat)
    requires
        1 <= n <= 15,
        fits_bytes(v, n),
    ensures
        n == 1 ==> v < 0x100,
        n == 2 ==> v < 0x1_0000,
        n == 4 ==> v < 0x1_0000_0000,
        n == 8 ==> v < 0x1_0000_0000_0000_0000,
{
    if n == 1 {
        assert((1u128 << 8u128) == 0x100) by (bit_vector);
    } else if n == 2 {
        assert((1u128 << 16u128) == 0x1_0000) by (bit_vector);
    } else if n == 4 {
        assert((1u128 << 32u128) == 0x1_0000_0000) by (bit_vector);
    } else if n == 8 {
        assert((1u128 << 64u128) == 0x1_0000_0000_0000_0000) by (bit_vector);
    }
}

proof fn lemma_fits_of(v: u128, n: nat)
    requires
        1 <= n <= 16,
        n == 1 ==> v < 0x100,
        n == 2 ==> v < 0x1_0000,
        n == 4 ==> v < 0x1_0000_0000,
        n == 8 ==> v < 0x1_0000_0000_0000_0000,
        n == 1 || n == 2 || n == 4 || n == 8 || n == 16,
    ensures
        fits_bytes(v, n),
{
    if n == 1 {
        assert((1u128 << 8u128) == 0x100) by (bit_vector);
    } else if n == 2 {
        assert((1u128 << 16u128) == 0x1_0000) by (bit_vector);
    } else if n == 4 {
        assert((1u128 << 32u128) == 0x1_0000_0000) by (bit_vector);
    } else if n == 8 {
        assert((1u128 << 64u128) == 0x1_0000_0000_0000_0000) by (bit_vector);
    }
}

impl Encode for u8 {
    open spec fn encoding(&self) -> Seq<u8> {
        seq![*self]
    }

    fn encode(&self, buffer: &mut [u8]) -> (r: Result<usize, Error>) {
        if buffer.len() == 0 {
            return Err(Error::BufferTooSmall);
        }
        buffer[0] = *self;
        assert(buffer@ =~= splice(old(buffer)@, 0, self.encoding()));
        Ok(1)
    }
}

impl Decode for u8 {
    open spec fn decodable(data: Seq<u8>) -> bool {
        data.len() >= 1
    }

    open spec fn decodes(data: Seq<u8>, v: u8) -> bool {
        v == data[0]
    }

    fn decode(data: &[u8]) -> (r: Result<u8, Error>) {
        if data.len() == 0 {
            return Err(Error::DecodingError);
        }
        Ok(data[0])
    }

    fn decode_with_len(data: &[u8]) -> (r: Result<(u8, usize), Error>)
        ensures
            r matches Ok((v, n)) ==> n == 1,
    {
        match Self::decode(data) {
            Ok(v) => Ok((v, 1)),
            Err(e) => Err(e),
        }
    }
}

impl Encode for u16 {
    open spec fn encoding(&self) -> Seq<u8> {
        be_seq(*self as u128, 2)
    }

    fn encode(&self, buffer: &mut [u8]) -> (r: Result<usize, Error>) {
        encode_be(*self as u128, 2, buffer)
    }
}

impl Decode for u16 {
    open spec fn decodable(data: Seq<u8>) -> bool {
        data.len() >= 2
    }

    open spec fn decodes(data: Seq<u8>, v: u16) -> bool {
        be_seq(v as u128, 2) == data.subrange(0, 2)
    }

    fn decode(data: &[u8]) -> (r: Result<u16, Error>) {
        match decode_be(data, 2) {
            Ok(v) => {
                proof { lemma_fits_cast(v, 2); }
                Ok(v as u16)
            },
            Err(e) => Err(e),
        }
    }

    fn decode_with_len(data: &[u8]) -> (r: Result<(u16, usize), Error>)
        ensures
            r matches Ok((v, n)) ==> n == 2,
    {
        match Self::decode(data) {
            Ok(v) => Ok((v, 2)),
            Err(e) => Err(e),
        }
    }
}

impl Encode for u32 {
    open spec fn encoding(&self) -> Seq<u8> {
        be_seq(*self as u128, 4)
    }

    fn encode(&self, buffer: &mut [u8]) -> (r: Result<usize, Error>) {
        encode_be(*self as u128, 4, buffer)
    }
}

impl Decode for u32 {
    open spec fn decodable(data: Seq<u8>) -> bool {
        data.len() >= 4
    }

    open spec fn decodes(data: Seq<u8>, v: u32) -> bool {
        be_seq(v as u128, 4) == data.subrange(0, 4)
    }

    fn decode(data: &[u8]) -> (r: Result<u32, Error>) {
        match decode_be(data, 4) {
            Ok(v) => {
                proof { lemma_fits_cast(v, 4); }
                Ok(v as u32)
            },
            Err(e) => Err(e),
        }
    }

    fn decode_with_len(data: &[u8]) -> (r: Result<(u32, usize), Error>)
        ensures
            r matches Ok((v, n)) ==> n == 4,
    {
        match Self::decode(data) {
            Ok(v) => Ok((v, 4)),
            Err(e) => Err(e),
        }
    }
}

impl Encode for u64 {
    open spec fn encoding(&self) -> Seq<u8> {
        be_seq(*self as u128, 8)
    }

    fn encode(&self, buffer: &mut [u8]) -> (r: Result<usize, Error>) {
        encode_be(*self as u128, 8, buffer)
    }
}

impl Decode for u64 {
    open spec fn decodable(data: Seq<u8>) -> bool {
        data.len() >= 8
    }

    open spec fn decodes(data: Seq<u8>, v: u64) -> bool {
        be_seq(v as u128, 8) == data.subrange(0, 8)
    }

    fn decode(data: &[u8]) -> (r: Result<u64, Error>) {
        match decode_be(data, 8) {
            Ok(v) => {
                proof { lemma_fits_cast(v, 8); }
                Ok(v as u64)
            },
            Err(e) => Err(e),
        }
    }

    fn decode_with_len(data: &[u8]) -> (r: Result<(u64, usize), Error>)
        ensures
            r matches Ok((v, n)) ==> n == 8,
    {
        match Self::decode(data) {
            Ok(v) => Ok((v, 8)),
            Err(e) => Err(e),
        }
    }
}

impl Encode for u128 {
    open spec fn encoding(&self) -> Seq<u8> {
        be_seq(*self, 16)
    }

    fn encode(&self, buffer: &mut [u8]) -> (r: Result<usize, Error>) {
        encode_be(*self, 16, buffer)
    }
}

impl Decode for u128 {
    open spec fn decodable(data: Seq<u8>) -> bool {
        data.len() >= 16
    }

    open spec fn decodes(data: Seq<u8>, v: u128) -> bool {
        be_seq(v, 16) == data.subrange(0, 16)
    }

    fn decode(data: &[u8]) -> (r: Result<u128, Error>) {
        decode_be(data, 16)
    }

    fn decode_with_len(data: &[u8]) -> (r: Result<(u128, usize), Error>)
        ensures
            r matches Ok((v, n)) ==> n == 16,
    {
        match Self::decode(data) {
            Ok(v) => Ok((v, 16)),
            Err(e) => Err(e),
        }
    }
}

impl Encode for bool {
    open spec fn encoding(&self) -> Seq<u8> {
        seq![if *self { 1u8 } else { 0u8 }]
    }

    fn encode(&self, buffer: &mut [u8]) -> (r: Result<usize, Error>) {
        if buffer.len() == 0 {
            return Err(Error::BufferTooSmall);
        }
        buffer[0] = if *self { 1 } else { 0 };
        assert(buffer@ =~= splice(old(buffer)@, 0, self.encoding()));
        Ok(1)
    }
}

impl Decode for bool {
    open spec fn decodable(data: Seq<u8>) -> bool {
        data.len() >= 1
    }

    open spec fn decodes(data: Seq<u8>, v: bool) -> bool {
        v == (data[0] != 0)
    }

    fn decode(data: &[u8]) -> (r: Result<bool, Error>) {
        if data.len() == 0 {
            return Err(Error::DecodingError);
        }
        Ok(data[0] != 0)
    }

    fn decode_with_len(data: &[u8]) -> (r: Result<(bool, usize), Error>)
        ensures
            r matches Ok((v, n)) ==> n == 1,
    {
        match Self::decode(data) {
            Ok(v) => Ok((v, 1)),
            Err(e) => Err(e),
        }
    }
}

impl Encode for U256 {
    open spec fn encoding(&self) -> Seq<u8> {
        u256_be_bytes(*self)
    }

    fn encode(&self, buffer: &mut [u8]) -> (r: Result<usize, Error>) {
        if buffer.len() < 32 {
            return Err(Error::BufferTooSmall);
        }
        let bytes = self.to_be_bytes();
        put_bytes(bytes.as_slice(), buffer, 0);
        Ok(32)
    }
}

impl Decode for U256 {
    open spec fn decodable(data: Seq<u8>) -> bool {
        data.len() >= 32
    }

    open spec fn decodes(data: Seq<u8>, v: U256) -> bool {
        u256_be_bytes(v) == data.subrange(0, 32)
    }

    fn decode(data: &[u8]) -> (r: Result<U256, Error>) {
        if data.len() < 32 {
            return Err(Error::DecodingError);
        }
        let high = read_be(data, 0, 16);
        let low = read_be(data, 16, 16);
        let v = U256::from_parts(high, low);
        assert(u256_be_bytes(v) =~= data@.subrange(0, 32));
        Ok(v)
    }

    fn decode_with_len(data: &[u8]) -> (r: Result<(U256, usize), Error>)
        ensures
            r matches Ok((v, n)) ==> n == 32,
    {
        match Self::decode(data) {
            Ok(v) => Ok((v, 32)),
            Err(e) => Err(e),
        }
    }
}

impl Encode for crate::hash::Hash {
    open spec fn encoding(&self) -> Seq<u8> {
        self.0@
    }

    fn encode(&self, buffer: &mut [u8]) -> (r: Result<usize, Error>) {
        if buffer.len() < 32 {
            return Err(Error::BufferTooSmall);
        }
        put_bytes(self.0.as_slice(), buffer, 0);
        Ok(32)
    }
}

impl Decode for crate::hash::Hash {
    open spec fn decodable(data: Seq<u8>) -> bool {
        data.len() >= 32
    }

    open spec fn decodes(data: Seq<u8>, v: crate::hash::Hash) -> bool {
        v.0@ == data.subrange(0, 32)
    }

    fn decode(data: &[u8]) -> (r: Result<crate::hash::Hash, Error>) {
        if data.len() < 32 {
            return Err(Error::DecodingError);
        }
        let mut bytes = [0u8; 32];
        let mut i: usize = 0;
        while i < 32
            invariant
                32 <= data@.len(),
                i <= 32,
                forall|k: int| 0 <= k < i ==> bytes@[k] == data@[k],
            decreases 32 - i,
        {
            bytes[i] = data[i];
            i = i + 1;
        }
        assert(bytes@ =~= data@.subrange(0, 32));
        Ok(crate::hash::Hash(bytes))
    }

    fn decode_with_len(data: &[u8]) -> (r: Result<(crate::hash::Hash, usize), Error>)
        ensures
            r matches Ok((v, n)) ==> n == 32,
    {
        match Self::decode(data) {
            Ok(v) => Ok((v, 32)),
            Err(e) => Err(e),
        }
    }
}

/// The length byte written before an address: its length modulo 256.
pub open spec fn address_len_byte(a: Address) -> u8 {
    (a@.len() % 256) as u8
}

impl Encode for Address {
    open spec fn encoding(&self) -> Seq<u8> {
        seq![address_len_byte(*self)] + self@
    }

    fn encode(&self, buffer: &mut [u8]) -> (r: Result<usize, Error>) {
        let len = self.len();
        if buffer.len() < 1 + len {
            return Err(Error::BufferTooSmall);
        }
        let ghost orig = buffer@;
        buffer[0] = (len % 256) as u8;
        let ghost mid = buffer@;
        put_bytes(self.as_bytes(), buffer, 1);
        assert(buffer@ =~= splice(orig, 0, self.encoding()));
        Ok(1 + len)
    }
}

impl Decode for Address {
    open spec fn decodable(data: Seq<u8>) -> bool {
        data.len() >= 1 && data.len() >= 1 + data[0]
    }

    open spec fn decodes(data: Seq<u8>, v: Address) -> bool {
        v@ == data.subrange(1, 1 + data[0])
    }

    fn decode(data: &[u8]) -> (r: Result<Address, Error>) {
        if data.len() == 0 {
            return Err(Error::DecodingError);
        }
        let len = data[0] as usize;
        if data.len() < 1 + len {
            return Err(Error::DecodingError);
        }
        let body = vstd::slice::slice_subrange(data, 1, 1 + len);
        match Address::from_bytes(body) {
            Some(a) => Ok(a),
            None => Err(Error::DecodingError),
        }
    }

    fn decode_with_len(data: &[u8]) -> (r: Result<(Address, usize), Error>)
        ensures
            r matches Ok((v, n)) ==> n == 1 + data@[0],
    {
        if data.len() == 0 {
            return Err(Error::DecodingError);
        }
        let len = data[0] as usize;
        match Self::decode(data) {
            Ok(v) => Ok((v, 1 + len)),
            Err(e) => Err(e),
        }
    }
}

impl Encode for () {
    open spec fn encoding(&self) -> Seq<u8> {
        Seq::empty()
    }

    fn encode(&self, buffer: &mut [u8]) -> (r: Result<usize, Error>) {
        assert(buffer@ =~= splice(buffer@, 0, Seq::<u8>::empty()));
        Ok(0)
    }
}

impl Decode for () {
    open spec fn decodable(data: Seq<u8>) -> bool {
        true
    }

    open spec fn decodes(data: Seq<u8>, v: ()) -> bool {
        true
    }

    fn decode(data: &[u8]) -> (r: Result<(), Error>) {
        Ok(())
    }

    fn decode_with_len(data: &[u8]) -> (r: Result<((), usize), Error>)
        ensures
            r matches Ok((v, n)) ==> n == 0,
    {
        Ok(((), 0))
    }
}

/// Reading back the bytes a `u8` is written as gives that value, and no other.
pub proof fn lemma_roundtrip_u8(v: u8, data: Seq<u8>, w: u8)
    requires
        v.encoding().is_prefix_of(data),
    ensures
        <u8 as Decode>::decodable(data),
        <u8 as Decode>::decodes(data, v),
        <u8 as Decode>::decodes(data, w) ==> w == v,
{
    assert(data[0] == v.encoding()[0]);
}

proof fn lemma_roundtrip_be(v: u128, w: u128, n: nat, data: Seq<u8>)
    requires
        n == 1 || n == 2 || n == 4 || n == 8 || n == 16,
        fits_bytes(v, n),
        fits_bytes(w, n),
        be_seq(v, n).is_prefix_of(data),
    ensures
        data.len() >= n,
        be_seq(v, n) == data.subrange(0, n as int),
        be_seq(w, n) == data.subrange(0, n as int) ==> w == v,
{
    assert(be_seq(v, n) =~= data.subrange(0, n as int));
    if be_seq(w, n) == data.subrange(0, n as int) {
        lemma_be_injective(v, w, n);
    }
}

/// Reading back the bytes a `u16` is written as gives that value, and no other.
pub proof fn lemma_roundtrip_u16(v: u16, data: Seq<u8>, w: u16)
    requires
        v.encoding().is_prefix_of(data),
    ensures
        <u16 as Decode>::decodable(data),
        <u16 as Decode>::decodes(data, v),
        <u16 as Decode>::decodes(data, w) ==> w == v,
{
    lemma_fits_of(v as u128, 2);
    lemma_fits_of(w as u128, 2);
    lemma_roundtrip_be(v as u128, w as u128, 2, data);
}

/// Reading back the bytes a `u32` is written as gives that value, and no other.
pub proof fn lemma_roundtrip_u32(v: u32, data: Seq<u8>, w: u32)
    requires
        v.encoding().is_prefix_of(data),
    ensures
        <u32 as Decode>::decodable(data),
        <u32 as Decode>::decodes(data, v),
        <u32 as Decode>::decodes(data, w) ==> w == v,
{
    lemma_fits_of(v as u128, 4);
    lemma_fits_of(w as u128, 4);
    lemma_roundtrip_be(v as u128, w as u128, 4, data);
}

/// Reading back the bytes a `u64` is written as gives that value, and no other.
pub proof fn lemma_roundtrip_u64(v: u64, data: Seq<u8>, w: u64)
    requires
        v.encoding().is_prefix_of(data),
    ensures
        <u64 as Decode>::decodable(data),
        <u64 as Decode>::decodes(data, v),
        <u64 as Decode>::decodes(data, w) ==> w == v,
{
    lemma_fits_of(v as u128, 8);
    lemma_fits_of(w as u128, 8);
    lemma_roundtrip_be(v as u128, w as u128, 8, data);
}

/// Reading back the bytes a `u128` is written as gives that value, and no other.
pub proof fn lemma_roundtrip_u128(v: u128, data: Seq<u8>, w: u128)
    requires
        v.encoding().is_prefix_of(data),
    ensures
        <u128 as Decode>::decodable(data),
        <u128 as Decode>::decodes(data, v),
        <u128 as Decode>::decodes(data, w) ==> w == v,
{
    lemma_roundtrip_be(v, w, 16, data);
}

/// Reading back the byte a `bool` is written as gives that value, and no other.
pub proof fn lemma_roundtrip_bool(v: bool, data: Seq<u8>, w: bool)
    requires
        v.encoding().is_prefix_of(data),
    ensures
        <bool as Decode>::decodable(data),
        <bool as Decode>::decodes(data, v),
        <bool as Decode>::decodes(data, w) ==> w == v,
{
    assert(data[0] == v.encoding()[0]);
}

/// Reading back the bytes a `U256` is written as gives that value, and no other.
pub proof fn lemma_roundtrip_u256(v: U256, data: Seq<u8>, w: U256)
    requires
        v.encoding().is_prefix_of(data),
    ensures
        <U256 as Decode>::decodable(data),
        <U256 as Decode>::decodes(data, v),
        <U256 as Decode>::decodes(data, w) ==> w == v,
{
    assert(u256_be_bytes(v) =~= data.subrange(0, 32));
    if <U256 as Decode>::decodes(data, w) {
        lemma_u256_be_bytes_injective(v, w);
    }
}

/// Reading back the bytes a hash is written as gives that hash, and no other.
pub proof fn lemma_roundtrip_hash(v: crate::hash::Hash, data: Seq<u8>, w: crate::hash::Hash)
    requires
        v.encoding().is_prefix_of(data),
    ensures
        <crate::hash::Hash as Decode>::decodable(data),
        <crate::hash::Hash as Decode>::decodes(data, v),
        <crate::hash::Hash as Decode>::decodes(data, w) ==> w == v,
{
    assert(v.0@ =~= data.subrange(0, 32));
    if <crate::hash::Hash as Decode>::decodes(data, w) {
        assert(v.0@ == w.0@);
        assert(v.0 =~= w.0);
    }
}

/// Reading back the bytes an address of fewer than 256 bytes is written as
/// gives an address with the same bytes, and only such.
pub proof fn lemma_roundtrip_address(v: Address, data: Seq<u8>, w: Address)
    requires
        v@.len() < 256,
        v.encoding().is_prefix_of(data),
    ensures
        <Address as Decode>::decodable(data),
        <Address as Decode>::decodes(data, v),
        <Address as Decode>::decodes(data, w) ==> w@ == v@,
{
    let e = v.encoding();
    assert(data[0] == e[0]);
    assert(data[0] == v@.len());
    assert forall|i: int| 0 <= i < v@.len() implies v@[i] == data.subrange(1, 1 + data[0])[i] by {
        assert(e[1 + i] == v@[i]);
        assert(data[1 + i] == e[1 + i]);
    }
    assert(v@ =~= data.subrange(1, 1 + data[0]));
}

} // verus!
