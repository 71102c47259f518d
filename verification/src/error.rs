//! The ways in which an escrow operation is rejected.

use vstd::prelude::*;

verus! {

/// Why an operation was rejected. A rejected operation changes nothing.
#[derive(Clone, Copy, Debug, PartialEq, Eq, Structural)]
pub enum EscrowError {
    /// The address that the escrow would live at is occupied.
    AlreadyExists,
    /// No open escrow, or no account, is where the caller says.
    NotFound,
    /// An asset named by the caller is not the one the operation needs.
    AssetMismatch,
    /// The paying account does not hold the amount asked of it.
    InsufficientFunds,
    /// The authority derived from the stored proof is not the one in control.
    AuthorityMismatch,
    /// The caller is not the maker of the escrow.
    AuthorizationDenied,
}

} // verus!
