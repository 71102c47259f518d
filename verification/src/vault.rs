//! Vaults: custody accounts that only a derived authority controls.
//!
//! A vault is opened with the maker's deposit in it and is drained once, in
//! full, when the escrow ends. Nothing else touches it.

use crate::accounts::TokenKey;
use crate::address::Address;
use crate::bank::Bank;
use crate::error::EscrowError;
use crate::instruction::CloseAccount;
use crate::instruction::TransferChecked;
use vstd::prelude::*;

verus! {

/// The request that fills a vault: `amount` of the vault's asset from
/// `source` to the vault, on the word of the owner of `source`.
pub fn funding(vault: &TokenKey, source: &TokenKey, amount: u64, decimals: u8) -> (request:
    TransferChecked)
    ensures
        request == (TransferChecked {
            from: *source,
            mint: vault.mint,
            to: *vault,
            authority: source.owner,
            amount,
            decimals,
        }),
{
    TransferChecked {
        from: *source,
        mint: vault.mint,
        to: *vault,
        authority: source.owner,
        amount,
        decimals,
    }
}

/// The two requests that drain a vault that holds `amount`: the transfer of
/// the amount to `destination`, and the closing of the vault in favour of
/// `recipient`, both on the word of the vault's authority.
pub fn release(
    vault: &TokenKey,
    destination: &TokenKey,
    recipient: &Address,
    amount: u64,
    decimals: u8,
) -> (requests: (TransferChecked, CloseAccount))
    ensures
        requests.0 == (TransferChecked {
            from: *vault,
            mint: vault.mint,
            to: *destination,
            authority: vault.owner,
            amount,
            decimals,
        }),
        requests.1 == (CloseAccount {
            account: *vault,
            destination: *recipient,
            authority: vault.owner,
        }),
{
    (
        TransferChecked {
            from: *vault,
            mint: vault.mint,
            to: *destination,
            authority: vault.owner,
            amount,
            decimals,
        },
        CloseAccount { account: *vault, destination: *recipient, authority: vault.owner },
    )
}

/// Opens the vault for `mint` under `authority` and pulls `amount` into it
/// from `source`, whose owner pays for the new account. Gives back the handle
/// of the vault.
///
/// Rejected with `AssetMismatch` where `source` is not an account for `mint`
/// or the asset is unknown, with `InsufficientFunds` where `source` does not
/// hold the amount or its owner cannot pay for the account, and with
/// `AlreadyExists` where the vault is already there.
pub fn open(bank: &mut Bank, authority: &Address, mint: &Address, source: &TokenKey, amount: u64) -> (r:
    Result<TokenKey, EscrowError>)
    requires
        old(bank).inv(),
    ensures
        final(bank).inv(),
        match old(bank)@.open_vault(*authority, *mint, *source, amount as nat) {
            Ok(next) => r == Ok::<TokenKey, EscrowError>(TokenKey { owner: *authority, mint: *mint })
                && final(bank)@ == next,
            Err(e) => r == Err::<TokenKey, EscrowError>(e) && final(bank)@ == old(bank)@,
        },
{
    let vault = TokenKey { owner: *authority, mint: *mint };
    if source.mint != *mint {
        return Err(EscrowError::AssetMismatch);
    }
    match bank.token(source) {
        Some(held) => {
            if held.amount < amount {
                return Err(EscrowError::InsufficientFunds);
            }
        },
        None => {
            return Err(EscrowError::InsufficientFunds);
        },
    }
    match bank.create_token_account(&source.owner, &vault) {
        Ok(()) => {},
        Err(e) => {
            return Err(e);
        },
    }
    let decimals = match bank.mint(mint) {
        Some(known) => known.decimals,
        None => {
            return Err(EscrowError::AssetMismatch);
        },
    };
    let request = funding(&vault, source, amount, decimals);
    match bank.transfer_checked(&request, &source.owner) {
        Ok(()) => Ok(vault),
        Err(e) => Err(e),
    }
}

/// Moves everything that `vault` holds to `destination`, destroys the vault
/// and hands its maintenance balance to `recipient`. Gives back the amount
/// that was moved. `authority` is the address that the stored proof derives
/// again, or `None` where it derives none.
///
/// Rejected with `AuthorityMismatch` where `authority` is not the one that
/// controls the vault, or where `destination` is the vault itself; with
/// `NotFound` where the vault, `destination` or the wallet of `recipient` is
/// missing; with `AssetMismatch` where `destination` holds another asset.
pub fn drain(
    bank: &mut Bank,
    vault: &TokenKey,
    destination: &TokenKey,
    recipient: &Address,
    authority: Option<Address>,
) -> (r: Result<u64, EscrowError>)
    requires
        old(bank).inv(),
    ensures
        final(bank).inv(),
        match old(bank)@.drain_vault(*vault, *destination, *recipient, authority) {
            Ok((next, amount)) => r == Ok::<u64, EscrowError>(amount as u64) && amount <= u64::MAX
                && final(bank)@ == next,
            Err(e) => r == Err::<u64, EscrowError>(e) && final(bank)@ == old(bank)@,
        },
{
    let held = match bank.token(vault) {
        Some(held) => held,
        None => {
            return Err(EscrowError::NotFound);
        },
    };
    let signer = match authority {
        Some(signer) => signer,
        None => {
            return Err(EscrowError::AuthorityMismatch);
        },
    };
    if signer != vault.owner || *destination == *vault {
        return Err(EscrowError::AuthorityMismatch);
    }
    if destination.mint != vault.mint {
        return Err(EscrowError::AssetMismatch);
    }
    if bank.token(destination).is_none() || bank.lamports(recipient).is_none() {
        return Err(EscrowError::NotFound);
    }
    proof {
        bank.lemma_consistent();
    }
    let decimals = match bank.mint(&vault.mint) {
        Some(known) => known.decimals,
        None => {
            return Err(EscrowError::AssetMismatch);
        },
    };
    let (transfer, close) = release(vault, destination, recipient, held.amount, decimals);
    match bank.transfer_checked(&transfer, &signer) {
        Ok(()) => {},
        Err(e) => {
            return Err(e);
        },
    }
    match bank.close_account(&close, &signer) {
        Ok(()) => Ok(held.amount),
        Err(e) => Err(e),
    }
}

} // verus!
