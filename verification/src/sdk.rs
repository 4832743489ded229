//! The contract SDK: storage, environment, events, cryptography, calls,
//! L0 operations, token interfaces and utilities, run against the native
//! host.
pub mod host;
pub mod storage;
pub mod env;
pub mod events;
pub mod crypto;
pub mod calls;
pub mod l0;
pub mod utils;
pub mod mission;
pub mod sentient;
pub mod shadow;
pub mod temporal;
pub mod swarm;
pub mod tokens;
pub mod testing;
