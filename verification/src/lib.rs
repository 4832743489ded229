//! Core types and helpers for writing Infrix smart contracts: a 256-bit
//! unsigned integer, hashes, account addresses, error codes, events, a
//! byte codec, Keccak-256 hashing and ABI helpers, together with the
//! contract SDK (storage, environment, events, utilities) and the schema
//! builders used by the contract macros.
#![allow(unused_imports)]

pub mod abi;
pub mod address;
pub mod bytes;
pub mod codec;
pub mod display;
pub mod dispatch;
pub mod endian;
pub mod error;
pub mod governance;
pub mod hash;
pub mod keccak;
pub mod u256;
pub mod schema;
pub mod sdk;
pub mod shape_json;
pub mod shape_params;
pub mod shape_rules;
pub mod text;
pub mod type_names;
pub mod types;
pub mod u256_order;

