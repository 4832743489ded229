//! Visibility levels of private storage.
use vstd::prelude::*;

verus! {

/// Readable by anyone.
pub const PUBLIC: &'static str = "public";

/// Readable by the owner.
pub const OWNER_READ: &'static str = "owner_read";

/// Readable by the authority only.
pub const AUTHORITY_ONLY: &'static str = "authority_only";

/// Readable by nobody but the contract.
pub const PRIVATE: &'static str = "private";

} // verus!
