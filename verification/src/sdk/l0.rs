//! Accumulate L0 (Layer 0) operations. The native host knows no L0
//! accounts: lookups find nothing, balances are zero and every write
//! succeeds.
use vstd::prelude::*;
use crate::address::Address;
use crate::endian::{be_seq, fits_bytes, read_be};
use crate::error::Error;
use crate::sdk::calls::{host_status, status_result};
use crate::sdk::crypto::sha256;
use crate::u256::{u256_be_bytes, U256};

verus! {

/// Account types for L0 accounts
#[derive(Clone, Copy, Debug, PartialEq, Eq, Structural)]
pub enum AccountType {
    /// ADI (Accumulate Digital Identifier)
    ADI,
    /// Token Account
    TokenAccount,
    /// Lite Token Account
    LiteTokenAccount,
    /// Data Account
    DataAccount,
    /// Key Book
    KeyBook,
    /// Key Page
    KeyPage,
}

/// The L0 account type a byte stands for, if any.
pub open spec fn l0_account_type_of(b: u8) -> Option<AccountType> {
    if b == 0 {
        Some(AccountType::ADI)
    } else if b == 1 {
        Some(AccountType::TokenAccount)
    } else if b == 2 {
        Some(AccountType::LiteTokenAccount)
    } else if b == 3 {
        Some(AccountType::DataAccount)
    } else if b == 4 {
        Some(AccountType::KeyBook)
    } else if b == 5 {
        Some(AccountType::KeyPage)
    } else {
        None
    }
}

/// The byte an L0 account type is sent as.
pub open spec fn l0_account_type_byte(t: AccountType) -> u8 {
    match t {
        AccountType::ADI => 0,
        AccountType::TokenAccount => 1,
        AccountType::LiteTokenAccount => 2,
        AccountType::DataAccount => 3,
        AccountType::KeyBook => 4,
        AccountType::KeyPage => 5,
    }
}

/// L0 Account information
#[derive(Clone, Debug)]
pub struct L0Account {
    pub url: Address,
    pub account_type: AccountType,
    pub balance: U256,
    pub credit_balance: u64,
    pub data_entry_count: u64,
}

/// Reads a big-endian `u64` at `off`.
fn read_u64(buf: &[u8], off: usize) -> (r: u64)
    requires
        off + 8 <= buf@.len(),
    ensures
        be_seq(r as u128, 8) == buf@.subrange(off as int, off + 8),
{
    let v = read_be(buf, off, 8);
    assert(v < 0x1_0000_0000_0000_0000) by {
        assert((1u128 << 64u128) == 0x1_0000_0000_0000_0000) by (bit_vector);
    }
    v as u64
}

/// Decodes the account record the host writes for `url`: a type byte, the
/// balance (32 bytes), the credit balance and the data entry count (8 bytes
/// each, big-endian). `None` when the host reported no account (a negative
/// status) or the type byte is unknown.
pub fn account_from_host(url: &Address, status: i32, buffer: &[u8]) -> (r: Option<L0Account>)
    requires
        buffer@.len() >= 49,
    ensures
        r is Some <==> status >= 0 && l0_account_type_of(buffer@[0]) is Some,
        r matches Some(a) ==> {
            &&& a.url@ == url@
            &&& Some(a.account_type) == l0_account_type_of(buffer@[0])
            &&& u256_be_bytes(a.balance) == buffer@.subrange(1, 33)
            &&& be_seq(a.credit_balance as u128, 8) == buffer@.subrange(33, 41)
            &&& be_seq(a.data_entry_count as u128, 8) == buffer@.subrange(41, 49)
        },
{
    if status < 0 {
        return None;
    }
    let account_type = match buffer[0] {
        0 => AccountType::ADI,
        1 => AccountType::TokenAccount,
        2 => AccountType::LiteTokenAccount,
        3 => AccountType::DataAccount,
        4 => AccountType::KeyBook,
        5 => AccountType::KeyPage,
        _ => {
            return None;
        },
    };
    let high = read_be(buffer, 1, 16);
    let low = read_be(buffer, 17, 16);
    let balance = U256::from_parts(high, low);
    assert(u256_be_bytes(balance) =~= buffer@.subrange(1, 33));
    let credit_balance = read_u64(buffer, 33);
    let data_entry_count = read_u64(buffer, 41);
    Some(L0Account { url: url.clone(), account_type, balance, credit_balance, data_entry_count })
}

/// The status the native host answers an account or data lookup with.
pub const NATIVE_LOOKUP_STATUS: i32 = -1;

/// Get information about an L0 account; the native host knows none.
pub fn get_account(url: &Address) -> (r: Option<L0Account>)
    ensures
        r is None,
{
    let buffer = [0u8; 1024];
    account_from_host(url, NATIVE_LOOKUP_STATUS, buffer.as_slice())
}

/// The status the native host answers a balance query with: the 32 bytes
/// it wrote, all zero.
pub const NATIVE_BALANCE_STATUS: i32 = 32;

/// Decodes the host's answer to a balance query: zero when it reports an
/// error, else the 32 big-endian bytes it wrote.
pub fn balance_from_host(status: i32, buffer: &[u8; 32]) -> (r: U256)
    ensures
        status < 0 ==> r@ == 0,
        status >= 0 ==> u256_be_bytes(r) == buffer@,
{
    if status < 0 {
        U256::zero()
    } else {
        U256::from_be_bytes(buffer)
    }
}

/// Thirty-two zero bytes are the layout of zero.
pub(crate) proof fn lemma_zero_bytes_are_zero(r: U256)
    requires
        u256_be_bytes(r) == Seq::new(32, |i: int| 0u8),
    ensures
        r@ == 0,
{
    let z = U256 { high: 0, low: 0 };
    assert forall|k: u128| (0u128 >> k) as u8 == 0u8 by {
        assert((0u128 >> k) as u8 == 0u8) by (bit_vector);
    }
    assert(u256_be_bytes(z) =~= Seq::new(32, |i: int| 0u8));
    crate::u256::lemma_u256_be_bytes_injective(r, z);
}

/// Get the token balance of an L0 account; the native host reports zero.
pub fn get_balance(url: &Address) -> (r: U256)
    ensures
        r@ == 0,
{
    let buffer = [0u8; 32];
    let r = balance_from_host(NATIVE_BALANCE_STATUS, &buffer);
    proof {
        assert(buffer@ =~= Seq::new(32, |i: int| 0u8));
        lemma_zero_bytes_are_zero(r);
    }
    r
}

/// Get data from an L0 Data Account; the native host holds none.
pub fn get_data(url: &Address, entry_hash: &crate::hash::Hash) -> (r: Option<Vec<u8>>)
    ensures
        r is None,
{
    None
}

/// Get data from an L0 Data Account into a buffer; the native host holds
/// none.
pub fn get_data_into(url: &Address, entry_hash: &crate::hash::Hash, buffer: &mut [u8]) -> (r: Option<usize>)
    ensures
        r is None,
        final(buffer)@ == old(buffer)@,
{
    None
}

/// The status the native host answers an L0 write with.
pub const NATIVE_WRITE_STATUS: i32 = 0;

/// Create an L0 account.
pub fn create_account(url: &Address, account_type: AccountType) -> (r: Result<(), Error>)
    ensures
        r == status_result(NATIVE_WRITE_STATUS),
        r is Ok,
{
    host_status(NATIVE_WRITE_STATUS)
}

/// Write data to an L0 Data Account; returns the entry hash, the SHA-256
/// digest of the data.
pub fn write_data(url: &Address, data: &[u8]) -> (r: Result<crate::hash::Hash, Error>)
    ensures
        r matches Ok(h) && h.0@ == crate::sdk::crypto::sha256_digest(data@),
{
    match host_status(NATIVE_WRITE_STATUS) {
        Ok(()) => Ok(sha256(data)),
        Err(e) => Err(e),
    }
}

/// Transfer tokens between L0 accounts.
pub fn transfer(from: &Address, to: &Address, amount: &U256) -> (r: Result<(), Error>)
    ensures
        r is Ok,
{
    host_status(NATIVE_WRITE_STATUS)
}

/// Burn credits from an L0 account.
pub fn burn_credits(url: &Address, amount: u64) -> (r: Result<(), Error>)
    ensures
        r is Ok,
{
    host_status(NATIVE_WRITE_STATUS)
}

/// Authority information for an L0 account
#[derive(Clone, Debug)]
pub struct Authority {
    pub key_book: Address,
    pub threshold: u64,
    pub signers: u64,
}

/// Decodes the authority record the host writes: a length byte, the key
/// book URL, then the threshold and the signer count (8 bytes each,
/// big-endian). `None` when the host reported no authority.
pub fn authority_from_host(status: i32, buffer: &[u8]) -> (r: Option<Authority>)
    requires
        buffer@.len() >= 512,
    ensures
        r is Some <==> status >= 0,
        r matches Some(a) ==> {
            let n = buffer@[0] as int;
            &&& a.key_book@ == buffer@.subrange(1, 1 + n)
            &&& be_seq(a.threshold as u128, 8) == buffer@.subrange(1 + n, 9 + n)
            &&& be_seq(a.signers as u128, 8) == buffer@.subrange(9 + n, 17 + n)
        },
{
    if status < 0 {
        return None;
    }
    let n = buffer[0] as usize;
    let key_book = match Address::from_bytes(vstd::slice::slice_subrange(buffer, 1, 1 + n)) {
        Some(a) => a,
        None => {
            return None;
        },
    };
    let offset = 1 + n;
    let threshold = read_u64(buffer, offset);
    let signers = read_u64(buffer, offset + 8);
    Some(Authority { key_book, threshold, signers })
}

/// Get authority information for an L0 account; the native host knows
/// none.
pub fn get_authority(url: &Address) -> (r: Option<Authority>)
    ensures
        r is None,
{
    let buffer = [0u8; 512];
    authority_from_host(NATIVE_LOOKUP_STATUS, buffer.as_slice())
}

/// Check if a signer has authority over an L0 account; the native host
/// grants every signer.
pub fn check_authority(url: &Address, signer: &Address) -> (r: bool)
    ensures
        r,
{
    true
}

} // verus!
