//! ACU-721 (NFT) function selectors, event signatures and interface.
use vstd::prelude::*;
use crate::address::Address;
use crate::error::Error;
use crate::u256::U256;

verus! {

/// Function selector for `ownerOf(uint256)`
pub const OWNER_OF_SELECTOR: u32 = 0x6352211e;
/// Function selector for `balanceOf(address)`
pub const BALANCE_OF_SELECTOR: u32 = 0x70a08231;
/// Function selector for `approve(address,uint256)`
pub const APPROVE_SELECTOR: u32 = 0x095ea7b3;
/// Function selector for `getApproved(uint256)`
pub const GET_APPROVED_SELECTOR: u32 = 0x081812fc;
/// Function selector for `setApprovalForAll(address,bool)`
pub const SET_APPROVAL_FOR_ALL_SELECTOR: u32 = 0xa22cb465;
/// Function selector for `isApprovedForAll(address,address)`
pub const IS_APPROVED_FOR_ALL_SELECTOR: u32 = 0xe985e9c5;
/// Function selector for `transferFrom(address,address,uint256)`
pub const TRANSFER_FROM_SELECTOR: u32 = 0x23b872dd;
/// Function selector for `safeTransferFrom(address,address,uint256)`
pub const SAFE_TRANSFER_FROM_SELECTOR: u32 = 0x42842e0e;
/// Function selector for `tokenURI(uint256)`
pub const TOKEN_URI_SELECTOR: u32 = 0xc87b56dd;

/// Transfer event signature
pub const TRANSFER_EVENT: u32 = 0xddf252ad;
/// Approval event signature
pub const APPROVAL_EVENT: u32 = 0x8c5be1e5;
/// ApprovalForAll event signature
pub const APPROVAL_FOR_ALL_EVENT: u32 = 0x17307eab;

/// ACU-721 NFT Interface
pub trait NFT {
    /// Returns the owner of a token
    fn owner_of(&self, token_id: &U256) -> Option<Address>;

    /// Returns the number of tokens owned by an address
    fn balance_of(&self, owner: &Address) -> U256;

    /// Approves an address to transfer a specific token
    fn approve(&mut self, to: &Address, token_id: &U256) -> Result<(), Error>;

    /// Returns the approved address for a token
    fn get_approved(&self, token_id: &U256) -> Option<Address>;

    /// Sets approval for all tokens owned by the caller
    fn set_approval_for_all(
        &mut self,
        operator: &Address,
        approved: bool,
    ) -> Result<(), Error>;

    /// Checks if an operator is approved for all tokens of an owner
    fn is_approved_for_all(&self, owner: &Address, operator: &Address) -> bool;

    /// Transfers a token from one address to another
    fn transfer_from(
        &mut self,
        from: &Address,
        to: &Address,
        token_id: &U256,
    ) -> Result<(), Error>;

    /// Returns the token URI for metadata
    fn token_uri(&self, token_id: &U256) -> Option<&str>;
}
    

} // verus!
