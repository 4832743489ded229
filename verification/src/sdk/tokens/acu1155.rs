//! ACU-1155 (multi-token) function selectors, event signatures and interface.
use vstd::prelude::*;
use crate::address::Address;
use crate::error::Error;
use crate::u256::U256;

verus! {

/// Function selector for `balanceOf(address,uint256)`
pub const BALANCE_OF_SELECTOR: u32 = 0x00fdd58e;
/// Function selector for `balanceOfBatch(address[],uint256[])`
pub const BALANCE_OF_BATCH_SELECTOR: u32 = 0x4e1273f4;
/// Function selector for `setApprovalForAll(address,bool)`
pub const SET_APPROVAL_FOR_ALL_SELECTOR: u32 = 0xa22cb465;
/// Function selector for `isApprovedForAll(address,address)`
pub const IS_APPROVED_FOR_ALL_SELECTOR: u32 = 0xe985e9c5;
/// Function selector for `safeTransferFrom(address,address,uint256,uint256,bytes)`
pub const SAFE_TRANSFER_FROM_SELECTOR: u32 = 0xf242432a;
/// Function selector for `safeBatchTransferFrom(address,address,uint256[],uint256[],bytes)`
pub const SAFE_BATCH_TRANSFER_FROM_SELECTOR: u32 = 0x2eb2c2d6;
/// Function selector for `uri(uint256)`
pub const URI_SELECTOR: u32 = 0x0e89341c;

/// TransferSingle event signature
pub const TRANSFER_SINGLE_EVENT: u32 = 0xc3d58168;
/// TransferBatch event signature
pub const TRANSFER_BATCH_EVENT: u32 = 0x4a39dc06;
/// ApprovalForAll event signature
pub const APPROVAL_FOR_ALL_EVENT: u32 = 0x17307eab;
/// URI event signature
pub const URI_EVENT: u32 = 0x6bb7ff70;

/// ACU-1155 Multi-Token Interface
pub trait MultiToken {
    /// Returns the balance of a specific token for an owner
    fn balance_of(&self, owner: &Address, token_id: &U256) -> U256;

    /// Sets approval for all tokens
    fn set_approval_for_all(
        &mut self,
        operator: &Address,
        approved: bool,
    ) -> Result<(), Error>;

    /// Checks if an operator is approved for all tokens
    fn is_approved_for_all(&self, owner: &Address, operator: &Address) -> bool;

    /// Transfers a single token type
    fn safe_transfer_from(
        &mut self,
        from: &Address,
        to: &Address,
        token_id: &U256,
        amount: &U256,
        data: &[u8],
    ) -> Result<(), Error>;

    /// Returns the URI for a token type
    fn uri(&self, token_id: &U256) -> Option<&str>;
}
    

} // verus!
