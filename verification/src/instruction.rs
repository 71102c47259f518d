//! The requests that the escrow makes of the asset-transfer service.

use crate::accounts::TokenKey;
use crate::address::Address;
use vstd::prelude::*;

verus! {

/// Move `amount` of `mint` from one custody account to another.
#[derive(Clone, Copy, Debug)]
pub struct TransferChecked {
    /// The account that pays.
    pub from: TokenKey,
    /// The asset that is moved.
    pub mint: Address,
    /// The account that receives.
    pub to: TokenKey,
    /// Who authorises the transfer; it has to control `from`.
    pub authority: Address,
    /// How much is moved.
    pub amount: u64,
    /// The decimal places of `mint`, as the sender believes them to be.
    pub decimals: u8,
}

/// Destroy an empty custody account and hand its maintenance balance on.
#[derive(Clone, Copy, Debug)]
pub struct CloseAccount {
    /// The account to destroy.
    pub account: TokenKey,
    /// The identity that receives the maintenance balance.
    pub destination: Address,
    /// Who authorises the closing; it has to control `account`.
    pub authority: Address,
}

} // verus!
