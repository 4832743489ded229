//! Private storage with visibility levels, as the native host answers it:
//! nothing is stored, every key is public and encryption yields nothing.
pub mod visibility;

use vstd::prelude::*;

verus! {

/// A value read from private storage.
pub struct PrivateValue {
    pub data: Vec<u8>,
    pub level: String,
    pub decrypted: bool,
}

/// Store a private value; the native host keeps nothing.
pub fn set(key: &str, value: &[u8]) {
}

/// Read a private value; the native host holds none.
pub fn get(key: &str) -> (r: Option<Vec<u8>>)
    ensures
        r is None,
{
    None
}

/// The visibility level of a key; public on the native host.
pub fn level(key: &str) -> (r: &'static str)
    ensures
        r@ == "public"@,
{
    visibility::PUBLIC
}

/// Encrypt data for private storage; empty on the native host.
pub fn encrypt(data: &[u8]) -> (r: Vec<u8>)
    ensures
        r@ == Seq::<u8>::empty(),
{
    Vec::new()
}

/// Decrypt private data; the native host decrypts nothing.
pub fn decrypt(data: &[u8]) -> (r: Option<Vec<u8>>)
    ensures
        r is None,
{
    None
}

} // verus!
