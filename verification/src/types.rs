//! Account, token, signature, event and call-result types.
use vstd::prelude::*;
use crate::address::Address;
use crate::codec::Encode;
use crate::error::Error;
use crate::hash::{zero32, Topic};
use crate::u256::U256;

verus! {

/// Account type
#[derive(Clone, Copy, PartialEq, Eq, Debug, Default, Structural)]
pub enum AccountType {
    /// Unknown account type
    #[default]
    Unknown,
    /// ADI (Accumulate Digital Identifier)
    ADI,
    /// Token account
    TokenAccount,
    /// Data account
    DataAccount,
    /// Key book
    KeyBook,
    /// Key page
    KeyPage,
    /// Contract account
    Contract,
}

/// The account type a byte stands for.
pub open spec fn account_type_of(b: u8) -> AccountType {
    if b == 1 {
        AccountType::ADI
    } else if b == 2 {
        AccountType::TokenAccount
    } else if b == 3 {
        AccountType::DataAccount
    } else if b == 4 {
        AccountType::KeyBook
    } else if b == 5 {
        AccountType::KeyPage
    } else if b == 6 {
        AccountType::Contract
    } else {
        AccountType::Unknown
    }
}

/// The byte an account type is stored as.
pub open spec fn account_type_byte(t: AccountType) -> u8 {
    match t {
        AccountType::Unknown => 0,
        AccountType::ADI => 1,
        AccountType::TokenAccount => 2,
        AccountType::DataAccount => 3,
        AccountType::KeyBook => 4,
        AccountType::KeyPage => 5,
        AccountType::Contract => 6,
    }
}

impl AccountType {
    /// Create from byte value
    pub fn from_byte(b: u8) -> (r: Self)
        ensures
            r == account_type_of(b),
    {
        match b {
            1 => AccountType::ADI,
            2 => AccountType::TokenAccount,
            3 => AccountType::DataAccount,
            4 => AccountType::KeyBook,
            5 => AccountType::KeyPage,
            6 => AccountType::Contract,
            _ => AccountType::Unknown,
        }
    }

    /// The byte this account type is stored as.
    pub fn as_byte(&self) -> (r: u8)
        ensures
            r == account_type_byte(*self),
    {
        match self {
            AccountType::Unknown => 0,
            AccountType::ADI => 1,
            AccountType::TokenAccount => 2,
            AccountType::DataAccount => 3,
            AccountType::KeyBook => 4,
            AccountType::KeyPage => 5,
            AccountType::Contract => 6,
        }
    }
}

/// Reading back the byte of an account type gives that type.
pub proof fn lemma_account_type_byte_roundtrip(t: AccountType)
    ensures
        account_type_of(account_type_byte(t)) == t,
{
}

/// Account information from L0
#[derive(Clone, Debug, Default)]
pub struct Account {
    /// Account address
    pub address: Address,
    /// Account type
    pub account_type: AccountType,
    /// Token balance (for token accounts)
    pub balance: U256,
    /// Credit balance
    pub credits: u64,
    /// Transaction count/nonce
    pub nonce: u64,
    /// Code hash (for contracts)
    pub code_hash: crate::hash::Hash,
    /// State root (for contracts)
    pub state_root: crate::hash::Hash,
}

/// Token information
#[derive(Clone, Debug)]
pub struct TokenInfo {
    /// Token URL
    pub url: Address,
    /// Token symbol
    pub symbol: [u8; 8],
    /// Token precision (decimals)
    pub precision: u8,
    /// Total supply
    pub total_supply: U256,
}

impl Default for TokenInfo {
    fn default() -> (r: Self)
        ensures
            r.url@ == Seq::<u8>::empty(),
            r.symbol@ == Seq::new(8, |i: int| 0u8),
            r.precision == 0,
            r.total_supply@ == 0,
    {
        let r = TokenInfo {
            url: Address::empty(),
            symbol: [0u8; 8],
            precision: 0,
            total_supply: U256::zero(),
        };
        assert(r.symbol@ =~= Seq::new(8, |i: int| 0u8));
        r
    }
}

/// Signature type
#[derive(Clone, Copy, PartialEq, Eq, Debug, Default, Structural)]
pub enum SignatureType {
    /// Unknown signature type
    #[default]
    Unknown,
    /// ED25519
    ED25519,
    /// SECP256K1
    SECP256K1,
    /// SECP256K1 with recovery
    SECP256K1Recoverable,
    /// RCD1 (Factom compatibility)
    RCD1,
    /// BLS signature
    BLS,
}

/// The signature type a byte stands for.
pub open spec fn signature_type_of(b: u8) -> SignatureType {
    if b == 1 {
        SignatureType::ED25519
    } else if b == 2 {
        SignatureType::SECP256K1
    } else if b == 3 {
        SignatureType::SECP256K1Recoverable
    } else if b == 4 {
        SignatureType::RCD1
    } else if b == 5 {
        SignatureType::BLS
    } else {
        SignatureType::Unknown
    }
}

impl SignatureType {
    /// Create from byte value
    pub fn from_byte(b: u8) -> (r: Self)
        ensures
            r == signature_type_of(b),
    {
        match b {
            1 => SignatureType::ED25519,
            2 => SignatureType::SECP256K1,
            3 => SignatureType::SECP256K1Recoverable,
            4 => SignatureType::RCD1,
            5 => SignatureType::BLS,
            _ => SignatureType::Unknown,
        }
    }
}

/// Signature data
#[derive(Clone, Debug)]
pub struct Signature {
    /// Signature type
    pub sig_type: SignatureType,
    /// Public key
    pub public_key: [u8; 64],
    /// Public key length
    pub public_key_len: u8,
    /// Signature bytes
    pub signature: [u8; 128],
    /// Signature length
    pub signature_len: u8,
    /// Signer URL
    pub signer: Address,
}

impl Default for Signature {
    fn default() -> (r: Self)
        ensures
            r.sig_type == SignatureType::Unknown,
            r.public_key@ == Seq::new(64, |i: int| 0u8),
            r.public_key_len == 0,
            r.signature@ == Seq::new(128, |i: int| 0u8),
            r.signature_len == 0,
            r.signer@ == Seq::<u8>::empty(),
    {
        let r = Signature {
            sig_type: SignatureType::Unknown,
            public_key: [0u8; 64],
            public_key_len: 0,
            signature: [0u8; 128],
            signature_len: 0,
            signer: Address::empty(),
        };
        assert(r.public_key@ =~= Seq::new(64, |i: int| 0u8));
        assert(r.signature@ =~= Seq::new(128, |i: int| 0u8));
        r
    }
}

/// Maximum number of topics of an event.
pub const MAX_TOPICS: usize = 4;

/// Maximum number of data bytes of an event.
pub const MAX_EVENT_DATA: usize = 1024;

/// Contract event
#[derive(Clone, Debug)]
pub struct Event {
    /// Event topics (indexed parameters)
    pub topics: [Topic; 4],
    /// Number of topics
    pub topic_count: u8,
    /// Event data (non-indexed parameters)
    pub data: [u8; 1024],
    /// Data length
    pub data_len: u16,
}

impl Event {
    /// The counts are within the arrays.
    pub open spec fn wf(&self) -> bool {
        self.topic_count <= 4 && self.data_len <= 1024
    }

    /// The topics in use, in order.
    pub open spec fn topic_list(&self) -> Seq<Topic> {
        self.topics@.take(self.topic_count as int)
    }

    /// The data bytes in use.
    pub open spec fn data_bytes(&self) -> Seq<u8> {
        self.data@.take(self.data_len as int)
    }
}

impl Default for Event {
    fn default() -> (r: Self)
        ensures
            r.wf(),
            r.topic_list() == Seq::<Topic>::empty(),
            r.data_bytes() == Seq::<u8>::empty(),
            forall|i: int| 0 <= i < 4 ==> (#[trigger] r.topics@[i]).0@ == zero32(),
            r.data@ == Seq::new(1024, |i: int| 0u8),
    {
        let t = Topic::empty();
        let r = Event { topics: [t, t, t, t], topic_count: 0, data: [0u8; 1024], data_len: 0 };
        assert(r.topic_list() =~= Seq::<Topic>::empty());
        assert(r.data_bytes() =~= Seq::<u8>::empty());
        assert(r.data@ =~= Seq::new(1024, |i: int| 0u8));
        r
    }
}

impl Event {
    /// Create new event with one topic
    pub fn new(topic0: Topic) -> (r: Self)
        ensures
            r.wf(),
            r.topic_list() == seq![topic0],
            r.data_bytes() == Seq::<u8>::empty(),
    {
        let mut event = Event::default();
        event.topics[0] = topic0;
        event.topic_count = 1;
        assert(event.topic_list() =~= seq![topic0]);
        event
    }

    /// Add a topic; an event that already has four keeps them.
    pub fn with_topic(self, topic: Topic) -> (r: Self)
        requires
            self.wf(),
        ensures
            r.wf(),
            r.topic_list() == (if self.topic_count < 4 {
                self.topic_list().push(topic)
            } else {
                self.topic_list()
            }),
            r.data_bytes() == self.data_bytes(),
    {
        let mut event = self;
        if event.topic_count < 4 {
            let i = event.topic_count as usize;
            event.topics[i] = topic;
            event.topic_count = event.topic_count + 1;
            assert(event.topic_list() =~= self.topic_list().push(topic));
        }
        event
    }

    /// Set event data; at most the first 1024 bytes are kept.
    pub fn with_data(self, data: &[u8]) -> (r: Self)
        requires
            self.wf(),
        ensures
            r.wf(),
            r.topic_list() == self.topic_list(),
            r.data_bytes() == data@.take(
                if data@.len() < 1024 {
                    data@.len() as int
                } else {
                    1024
                },
            ),
    {
        let mut event = self;
        let len = if data.len() < 1024 {
            data.len()
        } else {
            1024
        };
        let mut i: usize = 0;
        while i < len
            invariant
                len <= data@.len(),
                len <= 1024,
                i <= len,
                event.topics == self.topics,
                event.topic_count == self.topic_count,
                forall|k: int| 0 <= k < i ==> event.data@[k] == data@[k],
            decreases len - i,
        {
            event.data[i] = data[i];
            i = i + 1;
        }
        event.data_len = len as u16;
        assert(event.data_bytes() =~= data@.take(len as int));
        event
    }

    /// Get topics slice
    pub fn topics(&self) -> (r: &[Topic])
        requires
            self.topic_count <= 4,
        ensures
            r@ == self.topic_list(),
    {
        vstd::slice::slice_subrange(self.topics.as_slice(), 0, self.topic_count as usize)
    }

    /// Get data slice
    pub fn data(&self) -> (r: &[u8])
        requires
            self.data_len <= 1024,
        ensures
            r@ == self.data_bytes(),
    {
        vstd::slice::slice_subrange(self.data.as_slice(), 0, self.data_len as usize)
    }
}

/// Execution context information
#[derive(Clone, Debug, Default)]
pub struct Context {
    /// Caller address
    pub caller: Address,
    /// Current block height
    pub block_height: u64,
    /// Current block timestamp (Unix seconds)
    pub block_time: u64,
    /// Transaction hash
    pub tx_hash: crate::hash::Hash,
    /// Value sent with call
    pub value: U256,
    /// Gas limit
    pub gas_limit: u64,
}

/// Result of a contract call
#[derive(Clone, Debug)]
pub struct CallResult {
    /// Output data
    pub data: [u8; 4096],
    /// Length of output data
    pub data_len: usize,
}

impl CallResult {
    /// The output bytes in use.
    pub open spec fn output(&self) -> Seq<u8> {
        self.data@.take(self.data_len as int)
    }

    /// Create empty result
    pub fn empty() -> (r: Self)
        ensures
            r.data_len == 0,
            r.output() == Seq::<u8>::empty(),
            r.data@ == Seq::new(4096, |i: int| 0u8),
    {
        let r = CallResult { data: [0u8; 4096], data_len: 0 };
        assert(r.output() =~= Seq::<u8>::empty());
        assert(r.data@ =~= Seq::new(4096, |i: int| 0u8));
        r
    }

    /// Create from data; at most the first 4096 bytes are kept.
    pub fn from_data(data: &[u8]) -> (r: Self)
        ensures
            r.data_len <= 4096,
            r.output() == data@.take(
                if data@.len() < 4096 {
                    data@.len() as int
                } else {
                    4096
                },
            ),
    {
        let mut result = CallResult::empty();
        let len = if data.len() < 4096 {
            data.len()
        } else {
            4096
        };
        let mut i: usize = 0;
        while i < len
            invariant
                len <= data@.len(),
                len <= 4096,
                i <= len,
                forall|k: int| 0 <= k < i ==> result.data@[k] == data@[k],
            decreases len - i,
        {
            result.data[i] = data[i];
            i = i + 1;
        }
        result.data_len = len;
        assert(result.output() =~= data@.take(len as int));
        result
    }

    /// Get data as slice
    pub fn as_slice(&self) -> (r: &[u8])
        requires
            self.data_len <= 4096,
        ensures
            r@ == self.output(),
    {
        vstd::slice::slice_subrange(self.data.as_slice(), 0, self.data_len)
    }
}

impl Default for CallResult {
    fn default() -> (r: Self)
        ensures
            r.data_len == 0,
            r.output() == Seq::<u8>::empty(),
    {
        CallResult::empty()
    }
}

/// Trait for contract instances
pub trait ContractInstance: Sized {
    /// Load contract state from storage
    fn load() -> Option<Self>;

    /// Save contract state to storage
    fn save(&self) -> Result<(), Error>;

    /// Delete contract state from storage
    fn delete();
}

/// Trait for converting return values to Result
pub trait IntoResult<T> {
    /// Convert to Result
    fn into_result(self) -> Result<T, Error>;
}

impl<T> IntoResult<T> for T {
    fn into_result(self) -> (r: Result<T, Error>)
        ensures
            r == Ok::<T, Error>(self),
    {
        Ok(self)
    }
}

impl<T> IntoResult<T> for Result<T, Error> {
    fn into_result(self) -> Result<T, Error>
        returns
            self,
    {
        self
    }
}

/// Function mutability
#[derive(Clone, Copy, PartialEq, Eq, Debug, Structural)]
pub enum Mutability {
    /// View function (read-only)
    View,
    /// Mutable function (can modify state)
    Mutable,
    /// Payable function (can receive tokens)
    Payable,
}

/// Function ABI information
#[derive(Clone, Debug)]
pub struct FunctionAbi {
    /// Function name
    pub name: &'static str,
    /// Function selector (4 bytes)
    pub selector: u32,
    /// Function mutability
    pub mutability: Mutability,
}

/// Trait for events
pub trait EventTrait {
    /// Get event signature
    fn signature() -> u32;

    /// Emit the event
    fn emit(&self) -> Result<(), Error>;
}

/// The 32 bytes obtained by XOR-ing each byte of `s` into position
/// `index % 32`, starting from zeros.
pub open spec fn xor_fold(s: Seq<u8>) -> Seq<u8>
    decreases s.len(),
{
    if s.len() == 0 {
        zero32()
    } else {
        let prev = xor_fold(s.drop_last());
        let j = (s.len() - 1) % 32;
        prev.update(j, prev[j] ^ s.last())
    }
}

/// Up to 32 bytes fold to themselves, padded with zeros to 32.
pub proof fn lemma_xor_fold_short(s: Seq<u8>)
    requires
        s.len() <= 32,
    ensures
        xor_fold(s) == s + Seq::new((32 - s.len()) as nat, |i: int| 0u8),
    decreases s.len(),
{
    if s.len() == 0 {
        assert(zero32() =~= s + Seq::new(32, |i: int| 0u8));
    } else {
        let t = s.drop_last();
        lemma_xor_fold_short(t);
        let b = s.last();
        assert(0u8 ^ b == b) by (bit_vector);
        assert(xor_fold(s) =~= s + Seq::new((32 - s.len()) as nat, |i: int| 0u8));
    }
}

/// Every byte is XOR-ed in, none overwritten: after a whole number of
/// 32-byte blocks, what follows folds on top of them position by position.
pub proof fn lemma_xor_fold_append(e: Seq<u8>, f: Seq<u8>, j: int)
    requires
        e.len() % 32 == 0,
        0 <= j < 32,
    ensures
        xor_fold(e + f)[j] == xor_fold(e)[j] ^ xor_fold(f)[j],
    decreases f.len(),
{
    lemma_xor_fold_len(e);
    lemma_xor_fold_len(f);
    lemma_xor_fold_len(e + f);
    if f.len() == 0 {
        assert(e + f =~= e);
        let a = xor_fold(e)[j];
        assert(a ^ 0u8 == a) by (bit_vector);
    } else {
        let g = f.drop_last();
        let b = f.last();
        lemma_xor_fold_append(e, g, j);
        lemma_xor_fold_len(g);
        lemma_xor_fold_len(e + g);
        assert((e + f).drop_last() =~= e + g);
        assert((e + f).last() == b);
        let k = (e + f).len() - 1;
        assert(k == e.len() + g.len());
        assert(k % 32 == g.len() % 32) by {
            vstd::arithmetic::div_mod::lemma_mod_adds(e.len() as int, g.len() as int, 32);
        }
        let x = xor_fold(e)[j];
        let y = xor_fold(g)[j];
        if j == g.len() % 32 {
            assert((x ^ y) ^ b == x ^ (y ^ b)) by (bit_vector);
        }
    }
}

proof fn lemma_xor_fold_len(s: Seq<u8>)
    ensures
        xor_fold(s).len() == 32,
    decreases s.len(),
{
    if s.len() > 0 {
        lemma_xor_fold_len(s.drop_last());
    }
}

/// The bytes a value is hashed from: its encoding when that fits in 256
/// bytes, and nothing otherwise.
pub open spec fn hashed_bytes<T: Encode>(value: &T) -> Seq<u8> {
    if value.encoding().len() <= 256 {
        value.encoding()
    } else {
        Seq::empty()
    }
}

impl crate::hash::Hash {
    /// Hash a value for event indexing
    pub fn hash_value<T: Encode>(value: &T) -> (r: Self)
        ensures
            r.0@ == xor_fold(hashed_bytes(value)),
    {
        let mut buffer = [0u8; 256];
        let len = match value.encode(&mut buffer) {
            Ok(n) => n,
            Err(_) => 0,
        };
        let ghost bytes = buffer@.take(len as int);
        assert(bytes =~= hashed_bytes(value)) by {
            if value.encoding().len() <= 256 {
                assert(bytes =~= value.encoding());
            }
        }
        let mut hash = [0u8; 32];
        let mut i: usize = 0;
        proof {
            assert(hash@ =~= zero32());
            assert(bytes.take(0) =~= Seq::<u8>::empty());
        }
        while i < len
            invariant
                len <= 256,
                buffer@.len() == 256,
                bytes == buffer@.take(len as int),
                i <= len,
                hash@ == xor_fold(bytes.take(i as int)),
            decreases len - i,
        {
            proof {
                lemma_xor_fold_len(bytes.take(i as int));
                assert(bytes.take(i + 1).drop_last() =~= bytes.take(i as int));
            }
            let j = i % 32;
            hash[j] = hash[j] ^ buffer[i];
            i = i + 1;
        }
        assert(bytes.take(len as int) =~= bytes);
        crate::hash::Hash(hash)
    }
}

} // verus!
