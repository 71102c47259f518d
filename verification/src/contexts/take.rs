//! Fulfilling an escrow: the accounts involved and the steps, payment and
//! release.

use crate::accounts::TokenKey;
use crate::address::Address;
use crate::bank::Bank;
use crate::derivation;
use crate::derivation::escrow_authority;
use crate::error::EscrowError;
use crate::instruction::CloseAccount;
use crate::instruction::TransferChecked;
use crate::model::outcome;
use crate::model::BankState;
use crate::state::escrow::Escrow;
use crate::vault;
use vstd::prelude::*;

verus! {

/// The accounts of an escrow that is being fulfilled.
#[derive(Clone, Copy, Debug)]
pub struct Take {
    /// The identity that fulfills the escrow.
    pub taker: Address,
    /// The identity that opened it.
    pub maker: Address,
    /// The asset in the vault.
    pub mint_a: Address,
    /// The asset that the taker pays with.
    pub mint_b: Address,
    /// The address of the escrow's record.
    pub escrow: Address,
    /// The record as it was read when the accounts were checked.
    pub terms: Escrow,
}

impl Take {
    /// The taker's custody account for `mint_a`, which receives the deposit.
    pub open spec fn taker_ata_a(self) -> TokenKey {
        TokenKey { owner: self.taker, mint: self.mint_a }
    }

    /// The taker's custody account for `mint_b`, which pays.
    pub open spec fn taker_ata_b(self) -> TokenKey {
        TokenKey { owner: self.taker, mint: self.mint_b }
    }

    /// The maker's custody account for `mint_b`, which is paid.
    pub open spec fn maker_ata_b(self) -> TokenKey {
        TokenKey { owner: self.maker, mint: self.mint_b }
    }

    /// The vault: the custody account for `mint_a` under the escrow's address.
    pub open spec fn vault(self) -> TokenKey {
        TokenKey { owner: self.escrow, mint: self.mint_a }
    }

    /// The accounts for fulfilling the escrow at `escrow`, with the ledger in
    /// which the two receiving accounts are there, or the reason for which the
    /// escrow cannot be fulfilled as asked.
    pub open spec fn accounts(
        bank: BankState,
        taker: Address,
        maker: Address,
        mint_a: Address,
        mint_b: Address,
        escrow: Address,
    ) -> Result<(Take, BankState), EscrowError> {
        if !bank.escrows.contains_key(escrow) || bank.escrows[escrow].data.maker != maker {
            Err(EscrowError::NotFound)
        } else if bank.escrows[escrow].data.mint_a != mint_a || bank.escrows[escrow].data.mint_b
            != mint_b {
            Err(EscrowError::AssetMismatch)
        } else if !bank.wallets.contains_key(taker) || !bank.tokens.contains_key(
            TokenKey { owner: taker, mint: mint_b },
        ) {
            Err(EscrowError::InsufficientFunds)
        } else {
            match bank.ensure_token_account(taker, TokenKey { owner: taker, mint: mint_a }) {
                Err(e) => Err(e),
                Ok(first) => match first.ensure_token_account(
                    taker,
                    TokenKey { owner: maker, mint: mint_b },
                ) {
                    Err(e) => Err(e),
                    Ok(second) => Ok(
                        (
                            Take {
                                taker,
                                maker,
                                mint_a,
                                mint_b,
                                escrow,
                                terms: bank.escrows[escrow].data,
                            },
                            second,
                        ),
                    ),
                },
            }
        }
    }

    /// Checks the accounts for fulfilling the escrow at `escrow` and gives
    /// back, with them, a working copy of the ledger in which the taker's
    /// account for `mint_a` and the maker's account for `mint_b` are there:
    /// where one is missing, it is created at the taker's cost. `bank` itself
    /// is not changed.
    ///
    /// Rejected with `NotFound` where no record of `maker` stands at `escrow`,
    /// with `AssetMismatch` where the assets named are not those of the
    /// record, and with `InsufficientFunds` where the taker has no wallet, no
    /// account for `mint_b`, or cannot pay for an account that is missing.
    pub fn try_accounts(
        bank: &Bank,
        taker: &Address,
        maker: &Address,
        mint_a: &Address,
        mint_b: &Address,
        escrow: &Address,
    ) -> (r: Result<(Take, Bank), EscrowError>)
        requires
            bank.inv(),
        ensures
            match Take::accounts(bank@, *taker, *maker, *mint_a, *mint_b, *escrow) {
                Ok((accounts, next)) => r matches Ok((found, working)) && found == accounts
                    && working@ == next && working.inv(),
                Err(e) => r matches Err(f) && f == e,
            },
    {
        let terms = match bank.escrow(escrow) {
            Some(record) => record.data,
            None => {
                return Err(EscrowError::NotFound);
            },
        };
        if terms.maker != *maker {
            return Err(EscrowError::NotFound);
        }
        if terms.mint_a != *mint_a || terms.mint_b != *mint_b {
            return Err(EscrowError::AssetMismatch);
        }
        let taker_ata_b = TokenKey { owner: *taker, mint: *mint_b };
        if bank.lamports(taker).is_none() || bank.token(&taker_ata_b).is_none() {
            return Err(EscrowError::InsufficientFunds);
        }
        let mut working = bank.snapshot();
        let taker_ata_a = TokenKey { owner: *taker, mint: *mint_a };
        match working.ensure_token_account(taker, &taker_ata_a) {
            Ok(()) => {},
            Err(e) => {
                return Err(e);
            },
        }
        let maker_ata_b = TokenKey { owner: *maker, mint: *mint_b };
        match working.ensure_token_account(taker, &maker_ata_b) {
            Ok(()) => {},
            Err(e) => {
                return Err(e);
            },
        }
        Ok(
            (
                Take {
                    taker: *taker,
                    maker: *maker,
                    mint_a: *mint_a,
                    mint_b: *mint_b,
                    escrow: *escrow,
                    terms,
                },
                working,
            ),
        )
    }

    /// The payment: the amount that the record asks for, of `mint_b`, from the
    /// taker's account to the maker's, on the taker's word.
    pub fn payment(&self, decimals: u8) -> (ix: TransferChecked)
        ensures
            ix == self.spec_payment(decimals),
    {
        TransferChecked {
            from: TokenKey { owner: self.taker, mint: self.mint_b },
            mint: self.mint_b,
            to: TokenKey { owner: self.maker, mint: self.mint_b },
            authority: self.taker,
            amount: self.terms.receive,
            decimals,
        }
    }

    /// The payment, as a value.
    pub open spec fn spec_payment(self, decimals: u8) -> TransferChecked {
        TransferChecked {
            from: self.taker_ata_b(),
            mint: self.mint_b,
            to: self.maker_ata_b(),
            authority: self.taker,
            amount: self.terms.receive,
            decimals,
        }
    }

    /// The ledger after `deposit`, or the reason for which it is rejected.
    pub open spec fn deposited(self, bank: BankState) -> Result<BankState, EscrowError> {
        bank.transfer_checked(self.spec_payment(bank.mints[self.mint_b].decimals), self.taker)
    }

    /// Pays the maker: moves the amount that the record asks for, of `mint_b`,
    /// from the taker's custody account to the maker's.
    ///
    /// Rejected with `InsufficientFunds` where the taker has no account for
    /// `mint_b` or holds less than the amount, with `AssetMismatch` where the
    /// asset is unknown, and with `NotFound` where the maker has no account
    /// for `mint_b`.
    pub fn deposit(&self, bank: &mut Bank) -> (r: Result<(), EscrowError>)
        requires
            old(bank).inv(),
        ensures
            final(bank).inv(),
            outcome(r, old(bank)@, final(bank)@, self.deposited(old(bank)@)),
    {
        let decimals = match bank.mint(&self.mint_b) {
            Some(known) => known.decimals,
            None => {
                return Err(EscrowError::AssetMismatch);
            },
        };
        let ix = self.payment(decimals);
        bank.transfer_checked(&ix, &self.taker)
    }

    /// The ledger after `withdraw_and_close_vault`, given what the stored
    /// proof derives, or the reason for which it is rejected.
    pub open spec fn withdrawn(self, bank: BankState, authority: Option<Address>) -> Result<
        BankState,
        EscrowError,
    > {
        match bank.drain_vault(self.vault(), self.taker_ata_a(), self.maker, authority) {
            Ok((next, amount)) => Ok(next),
            Err(e) => Err(e),
        }
    }

    /// Releases the deposit, given the authority that the stored proof
    /// derives: everything in the vault goes to the taker's custody account
    /// for `mint_a`, the vault is destroyed, and its maintenance balance goes
    /// back to the maker, who paid for it.
    ///
    /// Rejected with `NotFound` where the vault, the taker's account or the
    /// maker's wallet is missing, and with `AuthorityMismatch` where
    /// `authority` is not the escrow's address.
    pub fn withdraw_and_close_vault_as(&self, bank: &mut Bank, authority: Option<Address>) -> (r:
        Result<(), EscrowError>)
        requires
            old(bank).inv(),
        ensures
            final(bank).inv(),
            outcome(r, old(bank)@, final(bank)@, self.withdrawn(old(bank)@, authority)),
    {
        let source = TokenKey { owner: self.escrow, mint: self.mint_a };
        let destination = TokenKey { owner: self.taker, mint: self.mint_a };
        match vault::drain(bank, &source, &destination, &self.maker, authority) {
            Ok(_) => Ok(()),
            Err(e) => Err(e),
        }
    }

    /// Releases the deposit to the taker and destroys the vault. The
    /// authority over the vault is derived again from the maker, the seed and
    /// the proof in the record; the rest is `withdraw_and_close_vault_as`.
    pub fn withdraw_and_close_vault(&self, bank: &mut Bank) -> (r: Result<(), EscrowError>)
        requires
            old(bank).inv(),
        ensures
            final(bank).inv(),
            outcome(
                r,
                old(bank)@,
                final(bank)@,
                self.withdrawn(
                    old(bank)@,
                    escrow_authority(self.maker, self.terms.seed, self.terms.bump),
                ),
            ),
    {
        let authority = derivation::authority(&self.maker, self.terms.seed, self.terms.bump);
        self.withdraw_and_close_vault_as(bank, authority)
    }

    /// The two requests that `withdraw_and_close_vault` makes of the
    /// asset-transfer service for a vault that holds `amount`: the transfer to
    /// the taker and the closing in favour of the maker, both on the word of
    /// the escrow's address.
    pub fn release(&self, amount: u64, decimals: u8) -> (requests: (TransferChecked, CloseAccount))
        ensures
            requests.0 == (TransferChecked {
                from: self.vault(),
                mint: self.mint_a,
                to: self.taker_ata_a(),
                authority: self.escrow,
                amount,
                decimals,
            }),
            requests.1 == (CloseAccount {
                account: self.vault(),
                destination: self.maker,
                authority: self.escrow,
            }),
    {
        let source = TokenKey { owner: self.escrow, mint: self.mint_a };
        let destination = TokenKey { owner: self.taker, mint: self.mint_a };
        vault::release(&source, &destination, &self.maker, amount, decimals)
    }

    /// The ledger after `exit`, or the reason for which it is rejected.
    pub open spec fn exited(self, bank: BankState) -> Result<BankState, EscrowError> {
        bank.close_escrow(self.escrow, self.maker)
    }

    /// Closes the record: it is deleted, and its maintenance balance goes back
    /// to the maker, who paid for it.
    ///
    /// Rejected with `NotFound` where the record or the maker's wallet is
    /// missing.
    pub fn exit(&self, bank: &mut Bank) -> (r: Result<(), EscrowError>)
        requires
            old(bank).inv(),
        ensures
            final(bank).inv(),
            outcome(r, old(bank)@, final(bank)@, self.exited(old(bank)@)),
    {
        bank.close_escrow(&self.escrow, &self.maker)
    }
}

} // verus!
