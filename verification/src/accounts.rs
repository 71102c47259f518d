//! The accounts that the ledger holds.

use crate::address::Address;
use crate::state::escrow::Escrow;
use crate::table::Key;
use vstd::prelude::*;

verus! {

/// Names a custody account: the one account that `owner` has for `mint`.
#[derive(Clone, Copy, Debug)]
pub struct TokenKey {
    /// The identity, or the derived authority, in control of the account.
    pub owner: Address,
    /// The asset that the account holds.
    pub mint: Address,
}

impl PartialEq for TokenKey {
    fn eq(&self, other: &TokenKey) -> (b: bool) {
        self.owner == other.owner && self.mint == other.mint
    }
}

impl Eq for TokenKey {

}

impl vstd::std_specs::cmp::PartialEqSpecImpl for TokenKey {
    open spec fn obeys_eq_spec() -> bool {
        true
    }

    open spec fn eq_spec(&self, other: &TokenKey) -> bool {
        *self == *other
    }
}

impl Key for TokenKey {
    fn same(&self, other: &TokenKey) -> (b: bool) {
        *self == *other
    }
}

/// An asset type.
#[derive(Clone, Copy, Debug, PartialEq, Eq, Structural)]
pub struct Mint {
    /// Number of decimal places of one unit.
    pub decimals: u8,
    /// How much of the asset exists, over all custody accounts.
    pub supply: u64,
}

/// A custody account.
#[derive(Clone, Copy, Debug, PartialEq, Eq, Structural)]
pub struct TokenAccount {
    /// How much of its asset the account holds.
    pub amount: u64,
    /// The maintenance balance paid in when the account was created.
    pub lamports: u64,
}

/// An escrow record as the ledger stores it.
#[derive(Clone, Copy, Debug)]
pub struct EscrowAccount {
    /// The terms of the escrow.
    pub data: Escrow,
    /// The maintenance balance paid in when the record was created.
    pub lamports: u64,
}

/// What creating an account costs its payer; the account holds it as its
/// maintenance balance until it is closed.
#[derive(Clone, Copy, Debug, PartialEq, Eq, Structural)]
pub struct Rent {
    /// The maintenance balance of a custody account.
    pub token_account: u64,
    /// The maintenance balance of an escrow record.
    pub escrow: u64,
}

} // verus!
