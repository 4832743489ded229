use infrix::abi;
use infrix::address::Address;
use infrix::bytes;
use infrix::codec::{Decode, Encode};
use infrix::error::Error;
use infrix::governance::{serialize_call_goal, IntentGoalType};
use infrix::hash::Topic;
use infrix::keccak::keccak256;
use infrix::types::{AccountType, CallResult, Event, SignatureType};
use infrix::u256::U256;

fn hex(bytes: &[u8]) -> String {
    let mut s = String::new();
    for b in bytes {
        s.push_str(&format!("{:02x}", b));
    }
    s
}

#[test]
fn test_u256_basic() {
    let zero = U256::zero();
    let one = U256::one();
    assert!(zero.is_zero());
    assert!(!one.is_zero());
    assert!(zero < one);
}

#[test]
fn test_u256_arithmetic() {
    let a = U256::from(100u64);
    let b = U256::from(50u64);
    let sum = a.checked_add(&b).unwrap();
    let diff = a.checked_sub(&b).unwrap();
    assert_eq!(sum.low, 150);
    assert_eq!(diff.low, 50);
}

#[test]
fn test_u256_bytes() {
    let val = U256::from(0x1234567890abcdefu64);
    let be = val.to_be_bytes();
    let le = val.to_le_bytes();
    let from_be = U256::from_be_bytes(&be);
    let from_le = U256::from_le_bytes(&le);
    assert_eq!(val, from_be);
    assert_eq!(val, from_le);
}

#[test]
fn test_hash() {
    let zero = infrix::hash::Hash::zero();
    assert!(zero.is_zero());

    let h = infrix::hash::Hash::from([1u8; 32]);
    assert!(!h.is_zero());
    assert_eq!(h.as_bytes()[0], 1);
}

#[test]
fn test_address() {
    let addr = Address::from_str("acc://example.acme/tokens").unwrap();
    assert_eq!(addr.adi(), Some("example.acme"));
    assert_eq!(addr.path(), Some("/tokens"));
}

#[test]
fn address_parts_rebuild_the_url() {
    let url = "acc://alice.acme/book/1";
    let addr = Address::from_str(url).unwrap();
    let adi = addr.adi().unwrap();
    let path = addr.path().unwrap();
    assert_eq!(adi, "alice.acme");
    assert_eq!(path, "/book/1");
    assert_eq!(format!("acc://{}{}", adi, path), url);
    let bare = Address::from_str("acc://alice.acme").unwrap();
    assert_eq!(bare.adi(), Some("alice.acme"));
    assert_eq!(bare.path(), None);
}

#[test]
fn test_error() {
    let err = Error::InsufficientBalance;
    assert!(err.is_error());
    assert_eq!(err.code(), 7);
    assert_eq!(Error::from_code(7), Error::InsufficientBalance);
}

#[test]
fn u256_order_compares_high_half_first() {
    let small = U256::from_parts(0, u128::MAX);
    let big = U256::from_parts(1, 0);
    assert!(small < big);
    assert!(big > small);
}

#[test]
fn u256_checked_ops_at_the_edges() {
    let max = U256::max_value();
    assert!(max.checked_add(&U256::one()).is_none());
    assert!(U256::zero().checked_sub(&U256::one()).is_none());
    let two_128 = U256::from_parts(1, 0);
    assert!(two_128.checked_mul(&two_128).is_none());
    let p = U256::from(1u64 << 40).checked_mul(&U256::from(1u64 << 40)).unwrap();
    assert_eq!(p, U256::from(1u128 << 80));
    let q = max.checked_div(&U256::from_parts(1, 0)).unwrap();
    assert_eq!(q, U256::from(u128::MAX));
    assert!(U256::one().checked_div(&U256::zero()).is_none());
    assert_eq!(max.saturating_add(&U256::one()), max);
    assert_eq!(U256::one().saturating_sub(&max), U256::zero());
}

#[test]
fn u256_bit_counts() {
    assert_eq!(U256::zero().leading_zeros(), 256);
    assert_eq!(U256::zero().trailing_zeros(), 256);
    assert_eq!(U256::one().leading_zeros(), 255);
    assert_eq!(U256::from_parts(1, 0).trailing_zeros(), 128);
    assert_eq!(U256::max_value().count_ones(), 256);
    assert_eq!(U256::from(0b1011u64).count_ones(), 3);
}

#[test]
fn error_codes_round_trip() {
    for code in 0u32..29 {
        assert_eq!(Error::from_code(code).code(), code);
    }
    assert_eq!(Error::from_code(999), Error::Unknown);
    assert_eq!(Error::Unknown.code(), 255);
    assert!(Error::Success.is_success());
    assert!(!Error::Success.is_error());
}

#[test]
fn address_without_path_or_scheme() {
    let adi = Address::from_str("acc://example.acme").unwrap();
    assert!(adi.is_adi());
    assert_eq!(adi.adi(), Some("example.acme"));
    assert_eq!(adi.path(), None);
    let other = Address::from_str("http://x/y").unwrap();
    assert!(!other.is_adi());
    assert_eq!(other.adi(), None);
    assert!(Address::from_bytes(&[0u8; 257]).is_none());
    assert_eq!(Address::from_bytes(&[7u8; 256]).unwrap().len(), 256);
}

#[test]
fn codec_round_trips() {
    let mut buf = [0u8; 64];
    assert_eq!(0xbeefu16.encode(&mut buf), Ok(2));
    assert_eq!(&buf[..2], &[0xbe, 0xef]);
    assert_eq!(u16::decode(&buf), Ok(0xbeef));
    assert_eq!(u64::decode_with_len(&buf).map(|(_, n)| n), Ok(8));
    assert_eq!(true.encode(&mut buf), Ok(1));
    assert_eq!(bool::decode(&buf), Ok(true));
    let v = U256::from_parts(5, 7);
    assert_eq!(v.encode(&mut buf), Ok(32));
    assert_eq!(U256::decode(&buf), Ok(v));
    let a = Address::from_str("acc://a.acme").unwrap();
    assert_eq!(a.encode(&mut buf), Ok(13));
    assert_eq!(buf[0], 12);
    let back = Address::decode(&buf).unwrap();
    assert_eq!(back.as_bytes(), a.as_bytes());
    assert_eq!(Address::decode_with_len(&buf).map(|(_, n)| n), Ok(13));
}

#[test]
fn codec_errors() {
    let mut small = [0u8; 3];
    assert_eq!(0u32.encode(&mut small), Err(Error::BufferTooSmall));
    assert_eq!(u32::decode(&small), Err(Error::DecodingError));
    assert_eq!(u8::decode(&[]), Err(Error::DecodingError));
    assert_eq!(Address::decode(&[5, 1, 2]).is_err(), true);
    assert_eq!(().encode(&mut small), Ok(0));
}

#[test]
fn keccak_known_vectors() {
    assert_eq!(
        hex(&keccak256(b"")),
        "c5d2460186f7233c927e7db2dcc703c0e500b653ca82273b7bfad8045d85a470"
    );
    assert_eq!(
        hex(&keccak256(b"abc")),
        "4e03657aea45a94fc7d47ba826c8d667c0d1e6e33a64a036ec44f58fa12d6c45"
    );
    let long = [0x61u8; 200];
    assert_eq!(keccak256(&long).len(), 32);
}

#[test]
fn abi_selectors_and_words() {
    assert_eq!(abi::function_selector("transfer(address,uint256)"), [0xa9, 0x05, 0x9c, 0xbb]);
    assert_eq!(abi::function_selector("balanceOf(address)"), [0x70, 0xa0, 0x82, 0x31]);
    let t = abi::event_topic("Transfer(address,address,uint256)");
    assert_eq!(&t.0[..4], &[0xdd, 0xf2, 0x52, 0xad]);
    let w = abi::encode_u64(0x0102);
    assert_eq!(w[30], 1);
    assert_eq!(w[31], 2);
    assert_eq!(abi::decode_u64(&w), Some(0x0102));
    assert_eq!(abi::decode_u64(&w[..31]), None);
    assert_eq!(abi::decode_bool(&abi::encode_bool(true)), Some(true));
    let v = U256::from_parts(9, 10);
    assert_eq!(abi::decode_u256(&abi::encode_u256(&v)), Some(v));
    assert_eq!(abi::encode_bytes32(&[3u8; 32]), [3u8; 32]);
}

#[test]
fn byte_helpers() {
    let mut dst = [0u8; 10];
    let n = bytes::copy_with_len(b"hello world", &mut dst);
    assert_eq!(n, 10);
    assert_eq!(&dst[..4], &[6, 0, 0, 0]);
    assert_eq!(bytes::read_with_len(&dst), Some(&b"hello "[..]));
    assert_eq!(bytes::read_with_len(&[9, 0, 0, 0, 1]), None);
    let r = bytes::pad_right_32(b"ab");
    assert_eq!(&r[..3], &[b'a', b'b', 0]);
    let l = bytes::pad_left_32(b"ab");
    assert_eq!(&l[29..], &[0, b'a', b'b']);
}

#[test]
fn event_building() {
    let e = Event::new(Topic::from_u32(0xddf252ad))
        .with_topic(Topic([1u8; 32]))
        .with_data(&[1, 2, 3]);
    assert_eq!(e.topics().len(), 2);
    assert_eq!(&e.topics()[0].0[..4], &[0xdd, 0xf2, 0x52, 0xad]);
    assert_eq!(e.data(), &[1, 2, 3]);
    let full = e
        .with_topic(Topic([2u8; 32]))
        .with_topic(Topic([3u8; 32]))
        .with_topic(Topic([4u8; 32]));
    assert_eq!(full.topics().len(), 4);
    let long = Event::default().with_data(&[7u8; 2000]);
    assert_eq!(long.data().len(), 1024);
}

#[test]
fn call_result_truncates() {
    let r = CallResult::from_data(&[5u8; 5000]);
    assert_eq!(r.as_slice().len(), 4096);
    assert_eq!(CallResult::empty().as_slice().len(), 0);
}

#[test]
fn byte_enums() {
    assert_eq!(AccountType::from_byte(6), AccountType::Contract);
    assert_eq!(AccountType::from_byte(9), AccountType::Unknown);
    assert_eq!(SignatureType::from_byte(5), SignatureType::BLS);
    assert_eq!(SignatureType::from_byte(0), SignatureType::Unknown);
}

#[test]
fn hash_value_folds_encoding() {
    let h = infrix::hash::Hash::hash_value(&0x0102u16);
    assert_eq!(h.0[0], 1);
    assert_eq!(h.0[1], 2);
    let v = U256::from_parts(0, 1);
    let hv = infrix::hash::Hash::hash_value(&v);
    assert_eq!(hv.0[31], 1);
}

#[test]
fn goal_wire_names() {
    assert_eq!(IntentGoalType::Convert.as_str(), "CONVERT");
    assert_eq!(IntentGoalType::ContractCall.as_str(), "CONTRACT_CALL");
    assert_eq!(IntentGoalType::PluginRegister.as_str(), "PLUGIN_REGISTER");
}

#[test]
fn call_goal_serialization() {
    let json = serialize_call_goal("acc://c.acme", "run");
    assert_eq!(
        String::from_utf8(json).unwrap(),
        "{\"type\":\"CONTRACT_CALL\",\"contract\":\"acc://c.acme\",\"method\":\"run\"}"
    );
}
