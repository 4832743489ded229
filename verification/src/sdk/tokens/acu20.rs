//! ACU-20 (fungible token) function selectors, event signatures and interface.
use vstd::prelude::*;
use crate::address::Address;
use crate::error::Error;
use crate::u256::U256;

verus! {

/// Function selector for `name()`
pub const NAME_SELECTOR: u32 = 0x06fdde03;
/// Function selector for `symbol()`
pub const SYMBOL_SELECTOR: u32 = 0x95d89b41;
/// Function selector for `decimals()`
pub const DECIMALS_SELECTOR: u32 = 0x313ce567;
/// Function selector for `totalSupply()`
pub const TOTAL_SUPPLY_SELECTOR: u32 = 0x18160ddd;
/// Function selector for `balanceOf(address)`
pub const BALANCE_OF_SELECTOR: u32 = 0x70a08231;
/// Function selector for `transfer(address,uint256)`
pub const TRANSFER_SELECTOR: u32 = 0xa9059cbb;
/// Function selector for `approve(address,uint256)`
pub const APPROVE_SELECTOR: u32 = 0x095ea7b3;
/// Function selector for `allowance(address,address)`
pub const ALLOWANCE_SELECTOR: u32 = 0xdd62ed3e;
/// Function selector for `transferFrom(address,address,uint256)`
pub const TRANSFER_FROM_SELECTOR: u32 = 0x23b872dd;

/// Transfer event signature
pub const TRANSFER_EVENT: u32 = 0xddf252ad;
/// Approval event signature
pub const APPROVAL_EVENT: u32 = 0x8c5be1e5;

/// ACU-20 Token Interface
pub trait Token {
    /// Returns the name of the token
    fn name(&self) -> &str;

    /// Returns the symbol of the token
    fn symbol(&self) -> &str;

    /// Returns the number of decimals
    fn decimals(&self) -> u8;

    /// Returns the total supply
    fn total_supply(&self) -> U256;

    /// Returns the balance of an account
    fn balance_of(&self, owner: &Address) -> U256;

    /// Transfers tokens to a recipient
    fn transfer(&mut self, to: &Address, amount: &U256) -> Result<bool, Error>;

    /// Approves a spender to transfer tokens
    fn approve(&mut self, spender: &Address, amount: &U256) -> Result<bool, Error>;

    /// Returns the allowance for a spender
    fn allowance(&self, owner: &Address, spender: &Address) -> U256;

    /// Transfers tokens from one account to another (requires approval)
    fn transfer_from(
        &mut self,
        from: &Address,
        to: &Address,
        amount: &U256,
    ) -> Result<bool, Error>;
}
    

} // verus!
