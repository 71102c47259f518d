//! Opening an escrow: the accounts involved and the two steps, deposit and
//! record.

use crate::accounts::TokenKey;
use crate::address::Address;
use crate::bank::Bank;
use crate::error::EscrowError;
use crate::instruction::TransferChecked;
use crate::model::outcome;
use crate::model::BankState;
use crate::state::escrow::Escrow;
use crate::vault;
use vstd::prelude::*;

verus! {

/// The accounts of an escrow that is being opened.
#[derive(Clone, Copy, Debug)]
pub struct Make {
    /// The identity that opens the escrow.
    pub maker: Address,
    /// The asset that is deposited.
    pub mint_a: Address,
    /// The asset that is asked for.
    pub mint_b: Address,
    /// The derived address at which the record will stand.
    pub escrow: Address,
}

/// The proofs found while the accounts of `Make` were derived.
#[derive(Clone, Copy, Debug)]
pub struct MakeBumps {
    /// The proof of the escrow's address.
    pub escrow: u8,
}

impl Make {
    /// The maker's custody account for `mint_a`, from which the deposit comes.
    pub open spec fn maker_ata_a(self) -> TokenKey {
        TokenKey { owner: self.maker, mint: self.mint_a }
    }

    /// The vault: the custody account for `mint_a` under the escrow's address.
    pub open spec fn vault(self) -> TokenKey {
        TokenKey { owner: self.escrow, mint: self.mint_a }
    }

    /// The accounts for an escrow of `maker` at the derived address, or the
    /// reason for which it cannot be opened there.
    pub open spec fn accounts(
        bank: BankState,
        derived: Option<(Address, u8)>,
        maker: Address,
        mint_a: Address,
        mint_b: Address,
    ) -> Result<(Make, MakeBumps), EscrowError> {
        match derived {
            None => Err(EscrowError::AuthorityMismatch),
            Some((escrow, bump)) => {
                if bank.occupied(escrow) {
                    Err(EscrowError::AlreadyExists)
                } else if !bank.mints.contains_key(mint_a) || !bank.mints.contains_key(mint_b) {
                    Err(EscrowError::AssetMismatch)
                } else if !bank.wallets.contains_key(maker) {
                    Err(EscrowError::InsufficientFunds)
                } else {
                    Ok((Make { maker, mint_a, mint_b, escrow }, MakeBumps { escrow: bump }))
                }
            },
        }
    }

    /// Checks the accounts for an escrow of `maker` and gives back, with them
    /// and the proof, a working copy of the ledger for the steps to run on.
    /// `derived` is the address and proof derived for the maker and the seed,
    /// or `None` where none could be derived. `bank` itself is not changed.
    ///
    /// Rejected with `AuthorityMismatch` where nothing was derived, with
    /// `AlreadyExists` where the address is occupied, with `AssetMismatch`
    /// where one of the assets is unknown, and with `InsufficientFunds` where
    /// the maker has no wallet.
    pub fn try_accounts(
        bank: &Bank,
        derived: Option<(Address, u8)>,
        maker: &Address,
        mint_a: &Address,
        mint_b: &Address,
    ) -> (r: Result<(Make, MakeBumps, Bank), EscrowError>)
        requires
            bank.inv(),
        ensures
            match Make::accounts(bank@, derived, *maker, *mint_a, *mint_b) {
                Ok((accounts, bumps)) => r matches Ok((found, proofs, working)) && found
                    == accounts && proofs == bumps && working@ == bank@ && working.inv(),
                Err(e) => r matches Err(f) && f == e,
            },
    {
        let (escrow, bump) = match derived {
            Some(pair) => pair,
            None => {
                return Err(EscrowError::AuthorityMismatch);
            },
        };
        if bank.lamports(&escrow).is_some() || bank.escrow(&escrow).is_some() {
            return Err(EscrowError::AlreadyExists);
        }
        if bank.mint(mint_a).is_none() || bank.mint(mint_b).is_none() {
            return Err(EscrowError::AssetMismatch);
        }
        if bank.lamports(maker).is_none() {
            return Err(EscrowError::InsufficientFunds);
        }
        Ok(
            (
                Make { maker: *maker, mint_a: *mint_a, mint_b: *mint_b, escrow },
                MakeBumps { escrow: bump },
                bank.snapshot(),
            ),
        )
    }

    /// The record that `save_escrow` stores.
    pub open spec fn record(self, seed: u64, receive: u64, bumps: MakeBumps) -> Escrow {
        Escrow {
            seed,
            maker: self.maker,
            mint_a: self.mint_a,
            mint_b: self.mint_b,
            receive,
            bump: bumps.escrow,
        }
    }

    /// The record of the escrow: the terms given, with the maker and the two
    /// assets of these accounts and the proof that was found for the address.
    pub fn terms(&self, seed: u64, receive: u64, bumps: &MakeBumps) -> (terms: Escrow)
        ensures
            terms == self.record(seed, receive, *bumps),
    {
        Escrow::new(seed, self.maker, self.mint_a, self.mint_b, receive, bumps.escrow)
    }

    /// The ledger after `save_escrow`, or the reason for which it is rejected.
    pub open spec fn saved(self, bank: BankState, seed: u64, receive: u64, bumps: MakeBumps) -> Result<
        BankState,
        EscrowError,
    > {
        bank.create_escrow(self.maker, self.escrow, self.record(seed, receive, bumps))
    }

    /// Stores the record of the escrow at its derived address, at the maker's
    /// cost: the seed, the maker, the two assets, the amount asked for and the
    /// proof.
    ///
    /// Rejected with `AlreadyExists` where the address is occupied and with
    /// `InsufficientFunds` where the maker cannot pay for the record.
    pub fn save_escrow(&self, bank: &mut Bank, seed: u64, receive: u64, bumps: &MakeBumps) -> (r:
        Result<(), EscrowError>)
        requires
            old(bank).inv(),
        ensures
            final(bank).inv(),
            outcome(r, old(bank)@, final(bank)@, self.saved(old(bank)@, seed, receive, *bumps)),
    {
        let record = self.terms(seed, receive, bumps);
        bank.create_escrow(&self.maker, &self.escrow, record)
    }

    /// The transfer that fills the vault: `deposit` of `mint_a` from the
    /// maker's account to the vault, on the maker's word.
    pub fn deposit_transfer(&self, deposit: u64, decimals: u8) -> (ix: TransferChecked)
        ensures
            ix == (TransferChecked {
                from: self.maker_ata_a(),
                mint: self.mint_a,
                to: self.vault(),
                authority: self.maker,
                amount: deposit,
                decimals,
            }),
    {
        let source = TokenKey { owner: self.maker, mint: self.mint_a };
        let target = TokenKey { owner: self.escrow, mint: self.mint_a };
        vault::funding(&target, &source, deposit, decimals)
    }

    /// The ledger after `deposit`, or the reason for which it is rejected.
    pub open spec fn deposited(self, bank: BankState, deposit: u64) -> Result<BankState, EscrowError> {
        bank.open_vault(self.escrow, self.mint_a, self.maker_ata_a(), deposit as nat)
    }

    /// Opens the vault and moves `deposit` of `mint_a` into it from the
    /// maker's custody account. The maker pays for the vault.
    ///
    /// Rejected with `InsufficientFunds` where the maker does not hold the
    /// deposit or cannot pay for the vault, with `AssetMismatch` where the
    /// asset is unknown, and with `AlreadyExists` where the vault is there
    /// already.
    pub fn deposit(&self, bank: &mut Bank, deposit: u64) -> (r: Result<(), EscrowError>)
        requires
            old(bank).inv(),
        ensures
            final(bank).inv(),
            outcome(r, old(bank)@, final(bank)@, self.deposited(old(bank)@, deposit)),
    {
        let source = TokenKey { owner: self.maker, mint: self.mint_a };
        match vault::open(bank, &self.escrow, &self.mint_a, &source, deposit) {
            Ok(_) => Ok(()),
            Err(e) => Err(e),
        }
    }
}

} // verus!
