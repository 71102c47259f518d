//! The ledger as a mathematical value, and what each request of the
//! asset-transfer service does to it.
//!
//! Amounts are natural numbers here. Every step is a function from a state to
//! either the next state or the reason for which the request is rejected; a
//! rejected request leaves the state as it was.

use crate::accounts::Rent;
use crate::accounts::TokenKey;
use crate::address::Address;
use crate::error::EscrowError;
use crate::instruction::CloseAccount;
use crate::instruction::TransferChecked;
use crate::state::escrow::Escrow;
use vstd::prelude::*;

verus! {

/// An asset type, as the model sees it.
pub struct MintState {
    pub decimals: u8,
    pub supply: nat,
}

/// A custody account, as the model sees it.
pub struct Holding {
    /// How much of its asset the account holds.
    pub amount: nat,
    /// Its maintenance balance.
    pub lamports: nat,
}

/// A stored escrow record, as the model sees it.
pub struct Record {
    /// The terms of the escrow.
    pub data: Escrow,
    /// Its maintenance balance.
    pub lamports: nat,
}

/// Everything the ledger holds.
#[verifier::ext_equal]
pub struct BankState {
    /// What a new account costs its payer.
    pub rent: Rent,
    /// All base currency there is: in wallets and in maintenance balances.
    pub capital: nat,
    /// The base-currency balance of each identity.
    pub wallets: Map<Address, nat>,
    /// The known asset types.
    pub mints: Map<Address, MintState>,
    /// The custody accounts, vaults among them.
    pub tokens: Map<TokenKey, Holding>,
    /// The escrow records, by their address.
    pub escrows: Map<Address, Record>,
}

/// Whether `r`, together with the state after the call, is what `expected`
/// asks for: on success the new state, on rejection the same error and the
/// state unchanged.
pub open spec fn outcome(
    r: Result<(), EscrowError>,
    before: BankState,
    after: BankState,
    expected: Result<BankState, EscrowError>,
) -> bool {
    match expected {
        Ok(next) => r is Ok && after == next,
        Err(e) => r == Err::<(), EscrowError>(e) && after == before,
    }
}

impl BankState {
    /// How much of `key.mint` the identity `key.owner` holds; nothing where it
    /// has no custody account for it.
    pub open spec fn balance(self, key: TokenKey) -> nat {
        if self.tokens.contains_key(key) {
            self.tokens[key].amount
        } else {
            0
        }
    }

    /// The base-currency balance of `identity`; nothing where it has no wallet.
    pub open spec fn lamports(self, identity: Address) -> nat {
        if self.wallets.contains_key(identity) {
            self.wallets[identity]
        } else {
            0
        }
    }

    /// Whether a wallet or an escrow record lives at `address`.
    pub open spec fn occupied(self, address: Address) -> bool {
        self.wallets.contains_key(address) || self.escrows.contains_key(address)
    }

    /// What holds of every ledger: no address is both a wallet and an escrow
    /// record, and every custody account is for a known asset.
    pub open spec fn consistent(self) -> bool {
        &&& forall|a: Address| !(#[trigger] self.wallets.contains_key(a) && self.escrows.contains_key(a))
        &&& forall|key: TokenKey| #[trigger]
            self.tokens.contains_key(key) ==> self.mints.contains_key(key.mint)
    }

    /// Creates the custody account `key`, empty, at the cost of `payer`.
    pub open spec fn create_token_account(self, payer: Address, key: TokenKey) -> Result<
        BankState,
        EscrowError,
    > {
        if self.tokens.contains_key(key) {
            Err(EscrowError::AlreadyExists)
        } else if !self.mints.contains_key(key.mint) {
            Err(EscrowError::AssetMismatch)
        } else if !self.wallets.contains_key(payer) || self.wallets[payer]
            < self.rent.token_account {
            Err(EscrowError::InsufficientFunds)
        } else {
            Ok(
                BankState {
                    wallets: self.wallets.insert(
                        payer,
                        (self.wallets[payer] - self.rent.token_account) as nat,
                    ),
                    tokens: self.tokens.insert(
                        key,
                        Holding { amount: 0, lamports: self.rent.token_account as nat },
                    ),
                    ..self
                },
            )
        }
    }

    /// The state after `amount` has gone from `from` to `to`. Both accounts
    /// exist and `from` holds the amount.
    pub open spec fn moved(self, from: TokenKey, to: TokenKey, amount: nat) -> BankState {
        if from == to {
            self
        } else {
            BankState {
                tokens: self.tokens.insert(
                    from,
                    Holding { amount: (self.tokens[from].amount - amount) as nat, ..self.tokens[from] },
                ).insert(
                    to,
                    Holding { amount: self.tokens[to].amount + amount, ..self.tokens[to] },
                ),
                ..self
            }
        }
    }

    /// Moves `ix.amount` of `ix.mint` from `ix.from` to `ix.to`; `signer` is
    /// the identity that has proved to stand behind the request.
    pub open spec fn transfer_checked(self, ix: TransferChecked, signer: Address) -> Result<
        BankState,
        EscrowError,
    > {
        if ix.from.mint != ix.mint || ix.to.mint != ix.mint {
            Err(EscrowError::AssetMismatch)
        } else if !self.mints.contains_key(ix.mint) || self.mints[ix.mint].decimals
            != ix.decimals {
            Err(EscrowError::AssetMismatch)
        } else if !self.tokens.contains_key(ix.from) {
            Err(EscrowError::InsufficientFunds)
        } else if !self.tokens.contains_key(ix.to) {
            Err(EscrowError::NotFound)
        } else if ix.authority != ix.from.owner || signer != ix.authority {
            Err(EscrowError::AuthorityMismatch)
        } else if self.tokens[ix.from].amount < ix.amount {
            Err(EscrowError::InsufficientFunds)
        } else {
            Ok(self.moved(ix.from, ix.to, ix.amount as nat))
        }
    }

    /// Whether `close_account` may be asked for `ix`: the account, if it is
    /// there, is empty.
    pub open spec fn closable(self, ix: CloseAccount) -> bool {
        self.tokens.contains_key(ix.account) ==> self.tokens[ix.account].amount == 0
    }

    /// Destroys the empty custody account `ix.account` and hands its
    /// maintenance balance to the wallet of `ix.destination`.
    pub open spec fn close_account(self, ix: CloseAccount, signer: Address) -> Result<
        BankState,
        EscrowError,
    > {
        if !self.tokens.contains_key(ix.account) {
            Err(EscrowError::NotFound)
        } else if ix.authority != ix.account.owner || signer != ix.authority {
            Err(EscrowError::AuthorityMismatch)
        } else if !self.wallets.contains_key(ix.destination) {
            Err(EscrowError::NotFound)
        } else {
            Ok(
                BankState {
                    wallets: self.wallets.insert(
                        ix.destination,
                        self.wallets[ix.destination] + self.tokens[ix.account].lamports,
                    ),
                    tokens: self.tokens.remove(ix.account),
                    ..self
                },
            )
        }
    }

    /// Stores `data` as a new escrow record at `address`, at the cost of
    /// `payer`.
    pub open spec fn create_escrow(self, payer: Address, address: Address, data: Escrow) -> Result<
        BankState,
        EscrowError,
    > {
        if self.occupied(address) {
            Err(EscrowError::AlreadyExists)
        } else if !self.wallets.contains_key(payer) || self.wallets[payer] < self.rent.escrow {
            Err(EscrowError::InsufficientFunds)
        } else {
            Ok(
                BankState {
                    wallets: self.wallets.insert(
                        payer,
                        (self.wallets[payer] - self.rent.escrow) as nat,
                    ),
                    escrows: self.escrows.insert(
                        address,
                        Record { data, lamports: self.rent.escrow as nat },
                    ),
                    ..self
                },
            )
        }
    }

    /// Deletes the escrow record at `address` and hands its maintenance
    /// balance to the wallet of `beneficiary`.
    pub open spec fn close_escrow(self, address: Address, beneficiary: Address) -> Result<
        BankState,
        EscrowError,
    > {
        if !self.escrows.contains_key(address) {
            Err(EscrowError::NotFound)
        } else if !self.wallets.contains_key(beneficiary) {
            Err(EscrowError::NotFound)
        } else {
            Ok(
                BankState {
                    wallets: self.wallets.insert(
                        beneficiary,
                        self.wallets[beneficiary] + self.escrows[address].lamports,
                    ),
                    escrows: self.escrows.remove(address),
                    ..self
                },
            )
        }
    }

    /// The custody account `key`, created empty at the cost of `payer` where
    /// it is not there yet.
    pub open spec fn ensure_token_account(self, payer: Address, key: TokenKey) -> Result<
        BankState,
        EscrowError,
    > {
        if self.tokens.contains_key(key) {
            Ok(self)
        } else {
            self.create_token_account(payer, key)
        }
    }

    /// The state after the custody account `account` has been destroyed and
    /// its maintenance balance handed to `destination`. The account and the
    /// wallet exist.
    pub open spec fn closed(self, account: TokenKey, destination: Address) -> BankState {
        BankState {
            wallets: self.wallets.insert(
                destination,
                self.wallets[destination] + self.tokens[account].lamports,
            ),
            tokens: self.tokens.remove(account),
            ..self
        }
    }

    /// Opens a vault: a new custody account for `mint` under `authority`,
    /// filled with `amount` from `source`. The owner of `source` pays for the
    /// account and stands behind the transfer.
    pub open spec fn open_vault(
        self,
        authority: Address,
        mint: Address,
        source: TokenKey,
        amount: nat,
    ) -> Result<BankState, EscrowError> {
        let vault = TokenKey { owner: authority, mint };
        if source.mint != mint {
            Err(EscrowError::AssetMismatch)
        } else if self.balance(source) < amount || !self.tokens.contains_key(source) {
            Err(EscrowError::InsufficientFunds)
        } else {
            match self.create_token_account(source.owner, vault) {
                Ok(created) => Ok(created.moved(source, vault, amount)),
                Err(e) => Err(e),
            }
        }
    }

    /// Drains a vault: all that `vault` holds goes to `destination`, the vault
    /// is destroyed and its maintenance balance goes to `recipient`.
    /// `authority` is what the stored proof derives again; it has to be the
    /// vault's own authority. The result is the next state and the amount that
    /// was moved.
    pub open spec fn drain_vault(
        self,
        vault: TokenKey,
        destination: TokenKey,
        recipient: Address,
        authority: Option<Address>,
    ) -> Result<(BankState, nat), EscrowError> {
        if !self.tokens.contains_key(vault) {
            Err(EscrowError::NotFound)
        } else if authority != Some(vault.owner) || destination == vault {
            Err(EscrowError::AuthorityMismatch)
        } else if destination.mint != vault.mint {
            Err(EscrowError::AssetMismatch)
        } else if !self.tokens.contains_key(destination) || !self.wallets.contains_key(recipient) {
            Err(EscrowError::NotFound)
        } else {
            Ok(
                (
                    self.moved(vault, destination, self.tokens[vault].amount).closed(
                        vault,
                        recipient,
                    ),
                    self.tokens[vault].amount,
                ),
            )
        }
    }
}

} // verus!
