//! ABI encoding helpers: 32-byte words, function selectors and event topics.
use vstd::prelude::*;
use vstd::string::StringSliceAdditionalSpecFns;
use crate::endian::{be_seq, fits_bytes, read_be, write_be, lemma_be_injective};
use crate::hash::Topic;
use crate::keccak::{keccak256, keccak256_spec};
use crate::u256::{u256_be_bytes, U256};

verus! {

/// `n` zero bytes.
pub open spec fn zeros(n: nat) -> Seq<u8> {
    Seq::new(n, |i: int| 0u8)
}

/// The ABI word of a `u64`: 24 zero bytes, then its 8 big-endian bytes.
pub open spec fn u64_word(value: u64) -> Seq<u8> {
    zeros(24) + be_seq(value as u128, 8)
}

/// The ABI word of a `bool`: 31 zero bytes, then 1 or 0.
pub open spec fn bool_word(value: bool) -> Seq<u8> {
    zeros(31) + seq![if value { 1u8 } else { 0u8 }]
}

/// Encode a u64 value
pub fn encode_u64(value: u64) -> (r: [u8; 32])
    ensures
        r@ == u64_word(value),
{
    let mut result = [0u8; 32];
    write_be(value as u128, 8, &mut result, 24);
    assert(result@ =~= u64_word(value));
    result
}

/// Decode a u64 value from the last 8 bytes of a 32-byte word.
pub fn decode_u64(data: &[u8]) -> (r: Option<u64>)
    ensures
        r is Some <==> data@.len() >= 32,
        r matches Some(v) ==> be_seq(v as u128, 8) == data@.subrange(24, 32),
{
    if data.len() < 32 {
        return None;
    }
    let v = read_be(data, 24, 8);
    assert(v < 0x1_0000_0000_0000_0000) by {
        assert((1u128 << 64u128) == 0x1_0000_0000_0000_0000) by (bit_vector);
    }
    Some(v as u64)
}

/// Encode a U256 value
pub fn encode_u256(value: &U256) -> (r: [u8; 32])
    ensures
        r@ == u256_be_bytes(*value),
{
    value.to_be_bytes()
}

/// Decode a U256 value from the first 32 bytes.
pub fn decode_u256(data: &[u8]) -> (r: Option<U256>)
    ensures
        r is Some <==> data@.len() >= 32,
        r matches Some(v) ==> u256_be_bytes(v) == data@.subrange(0, 32),
{
    if data.len() < 32 {
        return None;
    }
    let high = read_be(data, 0, 16);
    let low = read_be(data, 16, 16);
    let v = U256::from_parts(high, low);
    assert(u256_be_bytes(v) =~= data@.subrange(0, 32));
    Some(v)
}

/// Encode a bool value
pub fn encode_bool(value: bool) -> (r: [u8; 32])
    ensures
        r@ == bool_word(value),
{
    let mut result = [0u8; 32];
    result[31] = if value {
        1
    } else {
        0
    };
    assert(result@ =~= bool_word(value));
    result
}

/// Decode a bool value: true when the last byte of the word is not zero.
pub fn decode_bool(data: &[u8]) -> (r: Option<bool>)
    ensures
        r is Some <==> data@.len() >= 32,
        r matches Some(b) ==> b == (data@[31] != 0),
{
    if data.len() < 32 {
        return None;
    }
    Some(data[31] != 0)
}

/// Encode bytes32
pub fn encode_bytes32(value: &[u8; 32]) -> (r: [u8; 32])
    ensures
        r == *value,
{
    *value
}

/// Compute function selector (first 4 bytes of keccak256).
pub fn function_selector(signature: &str) -> (r: [u8; 4])
    ensures
        r@ == keccak256_spec(signature.spec_bytes()).take(4),
{
    let hash = keccak256(signature.as_bytes());
    let r = [hash[0], hash[1], hash[2], hash[3]];
    assert(r@ =~= keccak256_spec(signature.spec_bytes()).take(4));
    r
}

/// Compute event topic (keccak256 of event signature).
pub fn event_topic(signature: &str) -> (r: Topic)
    ensures
        r.0@ == keccak256_spec(signature.spec_bytes()),
{
    Topic(keccak256(signature.as_bytes()))
}

/// A `u64` written as a word reads back as the same value, and no other.
pub proof fn lemma_u64_word_roundtrip(value: u64, other: u64)
    ensures
        u64_word(value).len() == 32,
        be_seq(value as u128, 8) == u64_word(value).subrange(24, 32),
        be_seq(other as u128, 8) == u64_word(value).subrange(24, 32) ==> other == value,
{
    assert(be_seq(value as u128, 8) =~= u64_word(value).subrange(24, 32));
    if be_seq(other as u128, 8) == u64_word(value).subrange(24, 32) {
        assert((1u128 << 64u128) == 0x1_0000_0000_0000_0000) by (bit_vector);
        assert(fits_bytes(value as u128, 8));
        assert(fits_bytes(other as u128, 8));
        lemma_be_injective(value as u128, other as u128, 8);
    }
}

/// A `bool` written as a word reads back as the same value.
pub proof fn lemma_bool_word_roundtrip(value: bool)
    ensures
        bool_word(value).len() == 32,
        (bool_word(value)[31] != 0) == value,
{
}

} // verus!
