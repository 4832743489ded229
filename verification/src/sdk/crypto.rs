//! Cryptographic operations. Digests are computed in process: Keccak-256 by
//! the library's own verified sponge, SHA-256, SHA3-256, BLAKE2b-256 and
//! RIPEMD-160 by the RustCrypto crates. Signature checks and key recovery
//! are the host's work; what the library does with the host's answer is
//! stated by `verify_reply` and `recover_reply`.
use vstd::prelude::*;
use crate::address::Address;
use crate::keccak::keccak256_spec;
use crate::u256::{u256_be_bytes, U256};
use sha2::Digest;

verus! {

/// The SHA-256 digest (FIPS 180-4) of a byte string.
pub uninterp spec fn sha256_digest(data: Seq<u8>) -> Seq<u8>;

/// The SHA3-256 digest (FIPS 202) of a byte string.
pub uninterp spec fn sha3_256_digest(data: Seq<u8>) -> Seq<u8>;

/// The BLAKE2b digest with a 32-byte output (RFC 7693) of a byte string.
pub uninterp spec fn blake2b_256_digest(data: Seq<u8>) -> Seq<u8>;

/// The RIPEMD-160 digest of a byte string.
pub uninterp spec fn ripemd160_digest(data: Seq<u8>) -> Seq<u8>;

/// `sha2::Sha256::digest`: its result is the SHA-256 digest of exactly the
/// bytes handed in; it takes any input and cannot fail.
#[verifier::external_body]
fn sha256_bytes(data: &[u8]) -> (r: [u8; 32])
    ensures
        r@ == sha256_digest(data@),
{
    let out = sha2::Sha256::digest(data);
    let mut r = [0u8; 32];
    r.copy_from_slice(&out);
    r
}

/// `sha3::Sha3_256::digest`: its result is the SHA3-256 digest of exactly
/// the bytes handed in; it takes any input and cannot fail.
#[verifier::external_body]
fn sha3_256_bytes(data: &[u8]) -> (r: [u8; 32])
    ensures
        r@ == sha3_256_digest(data@),
{
    let out = sha3::Sha3_256::digest(data);
    let mut r = [0u8; 32];
    r.copy_from_slice(&out);
    r
}

/// `blake2::Blake2b<U32>::digest`: its result is the 32-byte BLAKE2b digest
/// of exactly the bytes handed in; it takes any input and cannot fail.
#[verifier::external_body]
fn blake2b_256_bytes(data: &[u8]) -> (r: [u8; 32])
    ensures
        r@ == blake2b_256_digest(data@),
{
    let out = blake2::Blake2b::<blake2::digest::consts::U32>::digest(data);
    let mut r = [0u8; 32];
    r.copy_from_slice(&out);
    r
}

/// `ripemd::Ripemd160::digest`: its result is the RIPEMD-160 digest of
/// exactly the bytes handed in; it takes any input and cannot fail.
#[verifier::external_body]
fn ripemd160_bytes(data: &[u8]) -> (r: [u8; 20])
    ensures
        r@ == ripemd160_digest(data@),
{
    let out = ripemd::Ripemd160::digest(data);
    let mut r = [0u8; 20];
    r.copy_from_slice(&out);
    r
}

/// Compute the SHA-256 hash.
pub fn sha256(data: &[u8]) -> (r: crate::hash::Hash)
    ensures
        r.0@ == sha256_digest(data@),
{
    crate::hash::Hash(sha256_bytes(data))
}

/// Compute the SHA3-256 hash.
pub fn sha3_256(data: &[u8]) -> (r: crate::hash::Hash)
    ensures
        r.0@ == sha3_256_digest(data@),
{
    crate::hash::Hash(sha3_256_bytes(data))
}

/// Compute the Keccak-256 hash (Ethereum compatible).
pub fn keccak256(data: &[u8]) -> (r: crate::hash::Hash)
    ensures
        r.0@ == keccak256_spec(data@),
{
    crate::hash::Hash(crate::keccak::keccak256(data))
}

/// Compute the BLAKE2b-256 hash.
pub fn blake2b_256(data: &[u8]) -> (r: crate::hash::Hash)
    ensures
        r.0@ == blake2b_256_digest(data@),
{
    crate::hash::Hash(blake2b_256_bytes(data))
}

/// Compute the RIPEMD-160 hash (20 bytes).
pub fn ripemd160(data: &[u8]) -> (r: [u8; 20])
    ensures
        r@ == ripemd160_digest(data@),
{
    ripemd160_bytes(data)
}

/// Reads the host's answer to a signature check: any non-zero code means
/// the signature holds.
pub fn verify_reply(code: i32) -> (r: bool)
    ensures
        r == (code != 0),
{
    code != 0
}

/// Reads the host's answer to a key recovery: a negative status means no
/// key; otherwise the 65 bytes it wrote are the key.
pub fn recover_reply(status: i32, output: [u8; 65]) -> (r: Option<[u8; 65]>)
    ensures
        status < 0 ==> r is None,
        status >= 0 ==> r == Some(output),
{
    if status < 0 {
        None
    } else {
        Some(output)
    }
}

/// The code the native host answers every signature check with: it
/// verifies nothing and accepts.
pub const NATIVE_SIGNATURE_CODE: i32 = 1;

/// The status the native host answers a key recovery with: 65 bytes, all
/// zero, written.
pub const NATIVE_RECOVER_STATUS: i32 = 65;

/// Verify an Ed25519 signature. The check is the host's; the native host
/// accepts every signature.
pub fn ed25519_verify(message: &[u8], signature: &[u8; 64], public_key: &[u8; 32]) -> (r: bool)
    ensures
        r == (NATIVE_SIGNATURE_CODE != 0),
{
    verify_reply(NATIVE_SIGNATURE_CODE)
}

/// Verify a secp256k1 signature. The check is the host's; the native host
/// accepts every signature.
pub fn secp256k1_verify(message: &[u8], signature: &[u8; 64], public_key: &[u8; 33]) -> (r: bool)
    ensures
        r == (NATIVE_SIGNATURE_CODE != 0),
{
    verify_reply(NATIVE_SIGNATURE_CODE)
}

/// Recover a secp256k1 public key from a signature. The recovery is the
/// host's; the native host answers 65 zero bytes.
pub fn secp256k1_recover(message: &[u8], signature: &[u8; 64], recovery_id: u8) -> (r: Option<[u8; 65]>)
    ensures
        r matches Some(k) && k@ == Seq::new(65, |i: int| 0u8),
{
    let k = [0u8; 65];
    assert(k@ =~= Seq::new(65, |i: int| 0u8));
    recover_reply(NATIVE_RECOVER_STATUS, k)
}

/// Verify a BLS12-381 signature. The check is the host's; the native host
/// accepts every signature.
pub fn bls12_381_verify(message: &[u8], signature: &[u8; 96], public_key: &[u8; 48]) -> (r: bool)
    ensures
        r == (NATIVE_SIGNATURE_CODE != 0),
{
    verify_reply(NATIVE_SIGNATURE_CODE)
}

/// Hash an address to a 32-byte value (for event indexing): the SHA-256
/// digest of its bytes.
pub fn hash_address(address: &Address) -> (r: [u8; 32])
    ensures
        r@ == sha256_digest(address@),
{
    sha256(address.as_bytes()).0
}

/// Hash a U256 to a 32-byte value (for event indexing): its big-endian bytes.
pub fn hash_u256(value: &U256) -> (r: [u8; 32])
    ensures
        r@ == u256_be_bytes(*value),
{
    value.to_be_bytes()
}

} // verus!
