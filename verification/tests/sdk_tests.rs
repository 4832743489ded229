use infrix::address::Address;
use infrix::error::Error;
use infrix::hash::Topic;
use infrix::sdk::host::Host;
use infrix::sdk::testing::{TestContext, TestEvent};
use infrix::sdk::utils::safe_math;
use infrix::sdk::{calls, crypto, events, l0, storage, swarm, temporal, utils};
use infrix::u256::U256;

#[test]
fn test_storage_operations() {
    let mut host = Host::new();
    let key = b"test_key";
    let value = b"test_value";

    storage::set(&mut host, key, value);
    assert!(storage::has(&host, key));

    let retrieved = storage::get(&host, key).unwrap();
    assert_eq!(retrieved.as_slice(), value);

    storage::delete(&mut host, key);
    assert!(!storage::has(&host, key));
}

#[test]
fn test_storage_map() {
    let mut host = Host::new();
    let map = storage::StorageMap::new(b"balances_");
    let key = b"user1";
    let value = U256::from(1000u64);

    map.set_encoded(&mut host, key, &value).unwrap();
    assert!(map.has(&host, key));

    let retrieved: U256 = map.get_decoded(&host, key).unwrap();
    assert_eq!(retrieved, value);

    map.delete(&mut host, key);
    assert!(!map.has(&host, key));
}

#[test]
fn test_env_functions() {
    // Test that env functions don't panic
    let host = Host::new();
    let _ = infrix::sdk::env::block_height(&host);
    let _ = infrix::sdk::env::block_time();
    let _ = infrix::sdk::env::gas_remaining();
    let _ = infrix::sdk::env::value();
}

#[test]
fn test_safe_math() {
    let a = U256::from(100u64);
    let b = U256::from(50u64);

    assert_eq!(safe_math::add(&a, &b).unwrap(), U256::from(150u64));
    assert_eq!(safe_math::sub(&a, &b).unwrap(), U256::from(50u64));
    assert_eq!(safe_math::mul(&a, &b).unwrap(), U256::from(5000u64));
    assert_eq!(safe_math::div(&a, &b).unwrap(), U256::from(2u64));

    // Test division by zero
    assert!(safe_math::div(&a, &U256::zero()).is_err());

    // Test underflow
    assert!(safe_math::sub(&b, &a).is_err());
}

#[test]
fn test_reentrancy_guard() {
    let mut host = Host::new();
    let guard = utils::ReentrancyGuard::new(b"__reentrancy_lock");

    {
        let lock = guard.enter(&mut host).unwrap();
        // Should fail to enter again
        assert!(guard.enter(&mut host).is_err());
        lock.release(&mut host);
    }

    // Should succeed after lock is released
    assert!(guard.enter(&mut host).is_ok());
}

#[test]
fn native_call_without_fixture_fails_closed() {
    let mut ctx = TestContext::new();
    let contract = ctx.deploy("acc://test.acme/counter");
    let receipt = ctx.call(&contract, "increment", &[]);

    assert!(receipt.is_failure());
    assert!(receipt
        .error
        .as_deref()
        .unwrap_or("")
        .contains("no native call fixture registered"));
}

#[test]
fn native_call_and_query_use_explicit_one_shot_fixtures() {
    let mut ctx = TestContext::new();
    let contract = ctx.deploy("acc://test.acme/counter");

    ctx.expect_call_success(
        &contract,
        "increment",
        &[1],
        Some("2"),
        vec![TestEvent {
            name: "Incremented".into(),
            data: vec![2],
        }],
    );
    ctx.expect_query(&contract, "get", &[], "2");

    let receipt = ctx.call(&contract, "increment", &[1]);
    assert!(receipt.is_success(), "expected success, got failure: {}", receipt.error.as_deref().unwrap_or("unknown error"));
    assert!(receipt.events.iter().any(|event| event.name == "Incremented"), "expected event {:?}", "Incremented");
    assert_eq!(receipt.return_i32(), 2);

    let query = ctx.query(&contract, "get", &[]);
    assert_eq!(query.return_u64(), 2);

    let missing = ctx.call(&contract, "increment", &[1]);
    assert!(missing.is_failure());
}

#[test]
fn snapshot_restore_brings_fixtures_back() {
    let mut ctx = TestContext::new();
    let contract = ctx.deploy("acc://test.acme/counter");
    ctx.expect_query(&contract, "get", &[], "7");
    let snap = ctx.snapshot();

    let first = ctx.query(&contract, "get", &[]);
    assert_eq!(first.return_i32(), 7);
    ctx.advance_blocks(10);
    assert_eq!(ctx.block_height(), 11);

    ctx.restore(snap);
    assert_eq!(ctx.block_height(), 1);
    let restored = ctx.query(&contract, "get", &[]);
    assert_eq!(restored.return_i32(), 7);
}

#[test]
fn missing_call_message_lists_arguments() {
    let mut ctx = TestContext::new();
    let contract = ctx.deploy("acc://test.acme/c");
    let receipt = ctx.call(&contract, "f", &[1, -2]);
    assert_eq!(
        receipt.error.as_deref(),
        Some("no native call fixture registered for acc://test.acme/c::f([1, -2])")
    );
    assert_eq!(receipt.block_height, 2);
    assert_eq!(receipt.status, "failed");
    ctx.expect_call_failure(&contract, "g", &[], "boom");
    let failed = ctx.call(&contract, "g", &[]);
    assert!(failed.is_failure());
    assert_eq!(failed.tx_hash, "fixture:acc://test.acme/c:g");
    assert_eq!(failed.block_height, 3);
}

#[test]
fn context_accounts_and_time() {
    let mut ctx = TestContext::new();
    assert_eq!(ctx.alice().url, "acc://test.acme/alice");
    assert_eq!(ctx.bob().name, "bob");
    let carol = ctx.carol().clone();
    ctx.set_caller(&carol);
    assert_eq!(ctx.caller.url, "acc://test.acme/carol");
    assert_eq!(ctx.block_time(), 1700000000);
    ctx.advance_time(5);
    assert_eq!(ctx.block_time(), 1700000005);
}

#[test]
fn host_storage_overwrites() {
    let mut host = Host::new();
    storage::set(&mut host, b"k", b"a");
    storage::set(&mut host, b"k", b"bb");
    assert_eq!(storage::get(&host, b"k").unwrap(), b"bb".to_vec());
    let mut buf = [0u8; 4];
    assert_eq!(storage::get_into(&host, b"k", &mut buf), Some(2));
    assert_eq!(&buf[..2], b"bb");
    assert_eq!(storage::get_decoded::<u8>(&host, b"k"), Some(b'b'));
    assert_eq!(storage::get_decoded::<u32>(&host, b"k"), None);
    assert_eq!(storage::set_encoded(&mut host, b"n", &7u64), Ok(()));
    assert_eq!(storage::get(&host, b"n").unwrap(), vec![0, 0, 0, 0, 0, 0, 0, 7]);
    let map = storage::StorageMap::new(b"p_");
    map.set(&mut host, b"x", b"1");
    assert!(storage::has(&host, b"p_x"));
    assert_eq!(map.get(&host, b"x"), Some(1));
}

#[test]
fn environment_of_native_host() {
    let host = Host::new();
    assert_eq!(infrix::sdk::env::caller(&host).len(), 256);
    assert_eq!(infrix::sdk::env::block_height(&host), 1);
    assert_eq!(infrix::sdk::env::block_time(), 1704067200);
    assert_eq!(infrix::sdk::env::gas_remaining(), 1_000_000);
    assert!(infrix::sdk::env::self_address().is_empty());
    assert!(infrix::sdk::env::tx_hash().is_zero());
    let ctx = infrix::sdk::env::context(&host);
    assert_eq!(ctx.block_height, 1);
    assert_eq!(infrix::sdk::env::require(false, Error::Unauthorized), Err(Error::Unauthorized));
    assert_eq!(infrix::sdk::env::require(true, Error::Unauthorized), Ok(()));
}

#[test]
fn events_are_recorded() {
    let mut host = Host::new();
    events::emit_indexed1(&mut host, 0x01020304, &[9u8; 32], b"data");
    events::emit(&mut host, &[Topic([1u8; 32]); 6], b"");
    assert_eq!(Topic::from_u32(0x01020304).0[..4], [1, 2, 3, 4]);
}

#[test]
fn calls_and_l0_on_native_host() {
    let addr = Address::from_str("acc://x.acme").unwrap();
    assert_eq!(calls::call(&addr, b"in"), Err(Error::InvalidArgument));
    let mut buf = [0u8; 12];
    assert_eq!(calls::build_call(0xa9059cbb, &[1, 2], &mut buf), 6);
    assert_eq!(&buf[..6], &[0xa9, 0x05, 0x9c, 0xbb, 1, 2]);
    assert_eq!(calls::host_status(-7), Err(Error::InsufficientBalance));
    assert_eq!(calls::host_status(3), Ok(()));
    assert!(l0::get_account(&addr).is_none());
    assert!(l0::transfer(&addr, &addr, &U256::one()).is_ok());
    let mut record = [0u8; 1024];
    record[0] = 1;
    record[32] = 5;
    record[40] = 6;
    let acct = l0::account_from_host(&addr, 0, &record).unwrap();
    assert_eq!(acct.account_type, l0::AccountType::TokenAccount);
    assert_eq!(acct.balance, U256::from(5u64));
    assert_eq!(acct.credit_balance, 6);
    let mut auth = [0u8; 512];
    auth[0] = 2;
    auth[1] = b'k';
    auth[2] = b'b';
    auth[10] = 3;
    let a = l0::authority_from_host(0, &auth).unwrap();
    assert_eq!(a.key_book.as_bytes(), b"kb");
    assert_eq!(a.threshold, 3);
    assert_eq!(crypto::hash_u256(&U256::one())[31], 1);
    assert!(utils::address::is_zero(&Address::empty()));
    assert_eq!(utils::address::require_non_zero(&addr), Ok(()));
}

#[test]
fn temporal_and_swarm_on_native_host() {
    let sim = temporal::simulate("f", &[1, 2]);
    assert!(sim.would_succeed());
    assert_eq!(sim.gas_used, 21400);
    assert_eq!(sim.return_i32(), 0);
    let o = temporal::simulate_with_overrides("f", &[], &[("k", b"v")]);
    assert_eq!(o.gas_used, 21500);
    let mut buf = Vec::new();
    buf.extend_from_slice(&7u64.to_le_bytes());
    buf.extend_from_slice(&1u32.to_le_bytes());
    buf.push(0xaa);
    buf.extend_from_slice(&2u32.to_le_bytes());
    buf.extend_from_slice(&[0xbb, 0xcc]);
    let hist = temporal::state_history_from_host(3, &buf);
    assert_eq!(hist.len(), 1);
    assert_eq!(hist[0].block_height, 7);
    assert_eq!(hist[0].new_value, vec![0xbb, 0xcc]);
    assert_eq!(swarm::channel::get_u64("k").unwrap(), 0);
    assert_eq!(swarm::channel::u64_of_value(&[0, 0, 0, 0, 0, 0, 1, 0]), 256);
    assert!(swarm::channel::set_u64("k", 5).is_ok());
    assert_eq!(
        swarm::SwarmError::ActionFailed("x".into()).message(),
        "coordinated action failed: x"
    );
}

#[test]
fn balance_reply_decodes_big_endian_bytes() {
    let mut buffer = [0u8; 32];
    buffer[31] = 0x10;
    buffer[15] = 0x01;
    assert_eq!(l0::balance_from_host(-1, &buffer), U256::zero());
    assert_eq!(l0::balance_from_host(32, &buffer), U256::from_parts(1, 0x10));
    let url = Address::from_str("acc://alice.acme/tokens").unwrap();
    assert_eq!(l0::get_balance(&url), U256::zero());
}

fn hex(bytes: &[u8]) -> String {
    let mut s = String::new();
    for b in bytes {
        s.push_str(&format!("{:02x}", b));
    }
    s
}

#[test]
fn test_crypto_hash() {
    let data = b"hello world";
    let hash = crypto::sha256(data);
    assert_ne!(hash.0, [0u8; 32]);
}

#[test]
fn digests_match_known_vectors() {
    assert_eq!(
        hex(&crypto::sha256(b"abc").0),
        "ba7816bf8f01cfea414140de5dae2223b00361a396177a9cb410ff61f20015ad"
    );
    assert_eq!(
        hex(&crypto::sha3_256(b"abc").0),
        "3a985da74fe225b2045c172d6bd390bd855f086e3e9d525b46bfe24511431532"
    );
    assert_eq!(
        hex(&crypto::blake2b_256(b"abc").0),
        "bddd813c634239723171ef3fee98579b94964e3bb1cb3e427262c8c068d52319"
    );
    assert_eq!(hex(&crypto::ripemd160(b"abc")), "8eb208f7e05d987a9b044a8e98c6b087f15a0bfc");
    assert_eq!(
        hex(&crypto::keccak256(b"").0),
        "c5d2460186f7233c927e7db2dcc703c0e500b653ca82273b7bfad8045d85a470"
    );
    let addr = Address::from_str("acc://alice.acme").unwrap();
    assert_eq!(crypto::hash_address(&addr), crypto::sha256(b"acc://alice.acme").0);
    assert_eq!(l0::write_data(&addr, b"abc").unwrap(), crypto::sha256(b"abc"));
}

#[test]
fn host_crypto_replies_are_decoded() {
    assert!(crypto::verify_reply(1));
    assert!(crypto::verify_reply(-3));
    assert!(!crypto::verify_reply(0));
    let mut key = [0u8; 65];
    key[0] = 4;
    assert_eq!(crypto::recover_reply(-1, key), None);
    assert_eq!(crypto::recover_reply(65, key), Some(key));
}

#[test]
fn mapping_slots_hash_key_then_slot() {
    let mut slot = [0u8; 32];
    slot[31] = 3;
    let key = [0xabu8; 20];
    let mut pre = key.to_vec();
    pre.extend_from_slice(&slot);
    let s = utils::mapping_slot(&slot, &key);
    assert_eq!(s, crypto::keccak256(&pre));
    let key2 = [7u8; 32];
    let mut pre2 = key2.to_vec();
    pre2.extend_from_slice(&s.0);
    assert_eq!(utils::nested_mapping_slot(&slot, &key, &key2), crypto::keccak256(&pre2));
}

#[test]
fn snapshot_ids_stay_fresh_after_restore() {
    let mut ctx = TestContext::new();
    let first = ctx.snapshot();
    ctx.advance_blocks(5);
    let second = ctx.snapshot();
    ctx.restore(first);
    assert_eq!(ctx.block_height(), 0);
    ctx.advance_blocks(2);
    let third = ctx.snapshot();
    assert_ne!(third.0, first.0);
    assert_ne!(third.0, second.0);
    ctx.advance_blocks(9);
    ctx.restore(third);
    assert_eq!(ctx.block_height(), 2);
    ctx.restore(second);
    assert_eq!(ctx.block_height(), 5);
}

#[test]
fn overrides_only_add_gas() {
    let args = [4u64, 5, 6];
    let plain = temporal::simulate("f", &args);
    let over = temporal::simulate_with_overrides("f", &args, &[("a", b"1"), ("b", b"2")]);
    assert_eq!(over.gas_used, plain.gas_used + 1000);
    assert_eq!(over.success, plain.success);
    assert_eq!(over.return_values, plain.return_values);
    assert_eq!(over.error, plain.error);
}

#[test]
fn native_host_signature_answers() {
    let msg = b"payload";
    assert!(crypto::ed25519_verify(msg, &[1u8; 64], &[2u8; 32]));
    assert!(crypto::secp256k1_verify(msg, &[1u8; 64], &[2u8; 33]));
    assert!(crypto::bls12_381_verify(msg, &[1u8; 96], &[2u8; 48]));
    assert_eq!(crypto::secp256k1_recover(msg, &[1u8; 64], 0), Some([0u8; 65]));
    assert_eq!(infrix::sdk::mission::calls_total(), 0);
}
