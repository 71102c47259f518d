//! Cancelling an escrow: the accounts involved and the steps, refund and
//! closing.

use crate::accounts::TokenKey;
use crate::address::Address;
use crate::bank::Bank;
use crate::derivation;
use crate::derivation::escrow_authority;
use crate::error::EscrowError;
use crate::instruction::CloseAccount;
use crate::instruction::TransferChecked;
use crate::model::outcome;
use crate::model::BankState;
use crate::state::escrow::Escrow;
use crate::vault;
use vstd::prelude::*;

verus! {

/// The accounts of an escrow that is being cancelled.
#[derive(Clone, Copy, Debug)]
pub struct Refund {
    /// The identity that opened the escrow and now cancels it.
    pub maker: Address,
    /// The asset in the vault.
    pub mint_a: Address,
    /// The address of the escrow's record.
    pub escrow: Address,
    /// The record as it was read when the accounts were checked.
    pub terms: Escrow,
}

impl Refund {
    /// The maker's custody account for `mint_a`, which receives the refund.
    pub open spec fn maker_ata_a(self) -> TokenKey {
        TokenKey { owner: self.maker, mint: self.mint_a }
    }

    /// The vault: the custody account for `mint_a` under the escrow's address.
    pub open spec fn vault(self) -> TokenKey {
        TokenKey { owner: self.escrow, mint: self.mint_a }
    }

    /// The accounts for cancelling the escrow at `escrow` on behalf of
    /// `maker`, or the reason for which `maker` cannot cancel it.
    pub open spec fn accounts(bank: BankState, maker: Address, mint_a: Address, escrow: Address) -> Result<
        Refund,
        EscrowError,
    > {
        if !bank.escrows.contains_key(escrow) {
            Err(EscrowError::NotFound)
        } else if bank.escrows[escrow].data.maker != maker {
            Err(EscrowError::AuthorizationDenied)
        } else if bank.escrows[escrow].data.mint_a != mint_a {
            Err(EscrowError::AssetMismatch)
        } else {
            Ok(Refund { maker, mint_a, escrow, terms: bank.escrows[escrow].data })
        }
    }

    /// Checks the accounts for cancelling the escrow at `escrow` on behalf of
    /// `maker` and gives back, with them, a working copy of the ledger for the
    /// steps to run on. `bank` itself is not changed.
    ///
    /// Rejected with `NotFound` where no record stands at `escrow`, with
    /// `AuthorizationDenied` where `maker` is not the maker in the record, and
    /// with `AssetMismatch` where `mint_a` is not the asset in the record.
    pub fn try_accounts(bank: &Bank, maker: &Address, mint_a: &Address, escrow: &Address) -> (r:
        Result<(Refund, Bank), EscrowError>)
        requires
            bank.inv(),
        ensures
            match Refund::accounts(bank@, *maker, *mint_a, *escrow) {
                Ok(accounts) => r matches Ok((found, working)) && found == accounts && working@
                    == bank@ && working.inv(),
                Err(e) => r matches Err(f) && f == e,
            },
    {
        let terms = match bank.escrow(escrow) {
            Some(record) => record.data,
            None => {
                return Err(EscrowError::NotFound);
            },
        };
        if terms.maker != *maker {
            return Err(EscrowError::AuthorizationDenied);
        }
        if terms.mint_a != *mint_a {
            return Err(EscrowError::AssetMismatch);
        }
        Ok((Refund { maker: *maker, mint_a: *mint_a, escrow: *escrow, terms }, bank.snapshot()))
    }

    /// The ledger after `refund_and_close_vault`, given what the stored proof
    /// derives, or the reason for which it is rejected.
    pub open spec fn refunded(self, bank: BankState, authority: Option<Address>) -> Result<
        BankState,
        EscrowError,
    > {
        match bank.drain_vault(self.vault(), self.maker_ata_a(), self.maker, authority) {
            Ok((next, amount)) => Ok(next),
            Err(e) => Err(e),
        }
    }

    /// Gives the deposit back, given the authority that the stored proof
    /// derives: everything in the vault goes to the maker's custody account
    /// for `mint_a`, the vault is destroyed, and its maintenance balance goes
    /// back to the maker.
    ///
    /// Rejected with `NotFound` where the vault, the maker's account or the
    /// maker's wallet is missing, and with `AuthorityMismatch` where
    /// `authority` is not the escrow's address.
    pub fn refund_and_close_vault_as(&self, bank: &mut Bank, authority: Option<Address>) -> (r:
        Result<(), EscrowError>)
        requires
            old(bank).inv(),
        ensures
            final(bank).inv(),
            outcome(r, old(bank)@, final(bank)@, self.refunded(old(bank)@, authority)),
    {
        let source = TokenKey { owner: self.escrow, mint: self.mint_a };
        let destination = TokenKey { owner: self.maker, mint: self.mint_a };
        match vault::drain(bank, &source, &destination, &self.maker, authority) {
            Ok(_) => Ok(()),
            Err(e) => Err(e),
        }
    }

    /// Gives the deposit back to the maker and destroys the vault. The
    /// authority over the vault is derived again from the maker, the seed and
    /// the proof in the record; the rest is `refund_and_close_vault_as`.
    pub fn refund_and_close_vault(&self, bank: &mut Bank) -> (r: Result<(), EscrowError>)
        requires
            old(bank).inv(),
        ensures
            final(bank).inv(),
            outcome(
                r,
                old(bank)@,
                final(bank)@,
                self.refunded(
                    old(bank)@,
                    escrow_authority(self.maker, self.terms.seed, self.terms.bump),
                ),
            ),
    {
        let authority = derivation::authority(&self.maker, self.terms.seed, self.terms.bump);
        self.refund_and_close_vault_as(bank, authority)
    }

    /// The two requests that `refund_and_close_vault` makes of the
    /// asset-transfer service for a vault that holds `amount`: the transfer
    /// back to the maker and the closing in favour of the maker, both on the
    /// word of the escrow's address.
    pub fn release(&self, amount: u64, decimals: u8) -> (requests: (TransferChecked, CloseAccount))
        ensures
            requests.0 == (TransferChecked {
                from: self.vault(),
                mint: self.mint_a,
                to: self.maker_ata_a(),
                authority: self.escrow,
                amount,
                decimals,
            }),
            requests.1 == (CloseAccount {
                account: self.vault(),
                destination: self.maker,
                authority: self.escrow,
            }),
    {
        let source = TokenKey { owner: self.escrow, mint: self.mint_a };
        let destination = TokenKey { owner: self.maker, mint: self.mint_a };
        vault::release(&source, &destination, &self.maker, amount, decimals)
    }

    /// The ledger after `exit`, or the reason for which it is rejected.
    pub open spec fn exited(self, bank: BankState) -> Result<BankState, EscrowError> {
        bank.close_escrow(self.escrow, self.maker)
    }

    /// Closes the record: it is deleted, and its maintenance balance goes back
    /// to the maker.
    ///
    /// Rejected with `NotFound` where the record or the maker's wallet is
    /// missing.
    pub fn exit(&self, bank: &mut Bank) -> (r: Result<(), EscrowError>)
        requires
            old(bank).inv(),
        ensures
            final(bank).inv(),
            outcome(r, old(bank)@, final(bank)@, self.exited(old(bank)@)),
    {
        bank.close_escrow(&self.escrow, &self.maker)
    }
}

} // verus!
