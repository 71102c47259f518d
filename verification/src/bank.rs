//! The ledger in memory: wallets, asset types, custody accounts and escrow
//! records, with the requests that create, move and destroy them.
//!
//! `Bank` stands for the asset-transfer service. Each request either happens
//! in full or is rejected and changes nothing. The bank keeps the books
//! balanced: the custody accounts of an asset always add up to its supply, and
//! wallets and maintenance balances always add up to the capital. That is why
//! no balance can overflow.

use crate::accounts::EscrowAccount;
use crate::accounts::Mint;
use crate::accounts::Rent;
use crate::accounts::TokenAccount;
use crate::accounts::TokenKey;
use crate::address::Address;
use crate::error::EscrowError;
use crate::instruction::CloseAccount;
use crate::instruction::TransferChecked;
use crate::model::outcome;
use crate::model::BankState;
use crate::model::Holding;
use crate::model::MintState;
use crate::model::Record;
use crate::state::escrow::Escrow;
use crate::table::Table;
use vstd::prelude::*;

verus! {

/// The in-memory ledger.
pub struct Bank {
    rent: Rent,
    capital: u64,
    wallets: Table<Address, u64>,
    mints: Table<Address, Mint>,
    tokens: Table<TokenKey, TokenAccount>,
    escrows: Table<Address, EscrowAccount>,
}

spec fn wallet_weight() -> spec_fn(Address, u64) -> int {
    |a: Address, v: u64| v as int
}

spec fn token_rent_weight() -> spec_fn(TokenKey, TokenAccount) -> int {
    |k: TokenKey, v: TokenAccount| v.lamports as int
}

spec fn escrow_rent_weight() -> spec_fn(Address, EscrowAccount) -> int {
    |a: Address, v: EscrowAccount| v.lamports as int
}

spec fn amount_weight(mint: Address) -> spec_fn(TokenKey, TokenAccount) -> int {
    |k: TokenKey, v: TokenAccount|
        if k.mint == mint {
            v.amount as int
        } else {
            0
        }
}

impl View for Bank {
    type V = BankState;

    closed spec fn view(&self) -> BankState {
        BankState {
            rent: self.rent,
            capital: self.capital as nat,
            wallets: Map::new(
                |a: Address| self.wallets@.contains_key(a),
                |a: Address| self.wallets@[a] as nat,
            ),
            mints: Map::new(
                |a: Address| self.mints@.contains_key(a),
                |a: Address|
                    MintState {
                        decimals: self.mints@[a].decimals,
                        supply: self.mints@[a].supply as nat,
                    },
            ),
            tokens: Map::new(
                |k: TokenKey| self.tokens@.contains_key(k),
                |k: TokenKey|
                    Holding {
                        amount: self.tokens@[k].amount as nat,
                        lamports: self.tokens@[k].lamports as nat,
                    },
            ),
            escrows: Map::new(
                |a: Address| self.escrows@.contains_key(a),
                |a: Address|
                    Record {
                        data: self.escrows@[a].data,
                        lamports: self.escrows@[a].lamports as nat,
                    },
            ),
        }
    }
}

impl Bank {
    /// The books are balanced and the tables are sound.
    pub closed spec fn inv(&self) -> bool {
        &&& self.wallets.wf()
        &&& self.mints.wf()
        &&& self.tokens.wf()
        &&& self.escrows.wf()
        &&& self@.consistent()
        &&& forall|m: Address| #[trigger]
            self.mints@.contains_key(m) ==> self.tokens.total(amount_weight(m))
                == self.mints@[m].supply
        &&& self.wallets.total(wallet_weight()) + self.tokens.total(token_rent_weight())
            + self.escrows.total(escrow_rent_weight()) == self.capital
    }

    /// In a sound bank no address is both a wallet and an escrow record, and
    /// every custody account is for a known asset.
    pub proof fn lemma_consistent(&self)
        requires
            self.inv(),
        ensures
            self@.consistent(),
    {
    }

    /// No holding exceeds the supply. In a sound bank two different custody
    /// accounts of one asset hold, together, no more than the asset's supply;
    /// so neither does one alone.
    pub proof fn lemma_holdings_within_supply(&self, first: TokenKey, second: TokenKey)
        requires
            self.inv(),
            self@.tokens.contains_key(first),
            self@.tokens.contains_key(second),
            first != second,
            first.mint == second.mint,
        ensures
            self@.tokens[first].amount + self@.tokens[second].amount
                <= self@.mints[first.mint].supply,
            self@.mints[first.mint].supply <= u64::MAX,
    {
        let weight = amount_weight(first.mint);
        assert(self@.mints.contains_key(first.mint));
        assert(self.mints@.contains_key(first.mint));
        self.tokens.lemma_pair_le_total(weight, first, second);
    }

    /// No wallet exceeds the capital. In a sound bank a wallet and the
    /// maintenance balance of a custody account or of an escrow record hold,
    /// together, no more than the capital.
    pub proof fn lemma_balances_within_capital(&self, identity: Address, key: TokenKey, escrow: Address)
        requires
            self.inv(),
        ensures
            self@.lamports(identity) + (if self@.tokens.contains_key(key) {
                self@.tokens[key].lamports
            } else {
                0
            }) + (if self@.escrows.contains_key(escrow) {
                self@.escrows[escrow].lamports
            } else {
                0
            }) <= self@.capital,
            self@.capital <= u64::MAX,
    {
        self.wallets.lemma_share_le_total(wallet_weight(), identity);
        self.tokens.lemma_share_le_total(token_rent_weight(), key);
        self.escrows.lemma_share_le_total(escrow_rent_weight(), escrow);
    }

    /// An empty ledger in which new accounts cost `rent`.
    pub fn new(rent: Rent) -> (bank: Bank)
        ensures
            bank.inv(),
            bank@ == (BankState {
                rent,
                capital: 0,
                wallets: Map::empty(),
                mints: Map::empty(),
                tokens: Map::empty(),
                escrows: Map::empty(),
            }),
    {
        let bank = Bank {
            rent,
            capital: 0,
            wallets: Table::new(),
            mints: Table::new(),
            tokens: Table::new(),
            escrows: Table::new(),
        };
        assert(bank@ =~= (BankState {
            rent,
            capital: 0,
            wallets: Map::empty(),
            mints: Map::empty(),
            tokens: Map::empty(),
            escrows: Map::empty(),
        }));
        bank
    }

    /// What new accounts cost.
    pub fn rent(&self) -> (rent: Rent)
        ensures
            rent == self@.rent,
    {
        self.rent
    }

    /// The base-currency balance of `identity`, if it has a wallet.
    pub fn lamports(&self, identity: &Address) -> (r: Option<u64>)
        requires
            self.inv(),
        ensures
            match r {
                Some(v) => self@.wallets.contains_key(*identity) && self@.wallets[*identity] == v,
                None => !self@.wallets.contains_key(*identity),
            },
    {
        self.wallets.get(identity)
    }

    /// The asset type at `mint`, if there is one.
    pub fn mint(&self, mint: &Address) -> (r: Option<Mint>)
        requires
            self.inv(),
        ensures
            match r {
                Some(m) => self@.mints.contains_key(*mint) && self@.mints[*mint] == (MintState {
                    decimals: m.decimals,
                    supply: m.supply as nat,
                }),
                None => !self@.mints.contains_key(*mint),
            },
    {
        self.mints.get(mint)
    }

    /// The custody account `key`, if there is one.
    pub fn token(&self, key: &TokenKey) -> (r: Option<TokenAccount>)
        requires
            self.inv(),
        ensures
            match r {
                Some(t) => self@.tokens.contains_key(*key) && self@.tokens[*key] == (Holding {
                    amount: t.amount as nat,
                    lamports: t.lamports as nat,
                }),
                None => !self@.tokens.contains_key(*key),
            },
    {
        self.tokens.get(key)
    }

    /// The escrow record at `address`, if there is one.
    pub fn escrow(&self, address: &Address) -> (r: Option<EscrowAccount>)
        requires
            self.inv(),
        ensures
            match r {
                Some(e) => self@.escrows.contains_key(*address) && self@.escrows[*address] == (
                Record { data: e.data, lamports: e.lamports as nat }),
                None => !self@.escrows.contains_key(*address),
            },
    {
        self.escrows.get(address)
    }

    /// A copy of the ledger.
    pub fn snapshot(&self) -> (copy: Bank)
        requires
            self.inv(),
        ensures
            copy.inv(),
            copy@ == self@,
    {
        let copy = Bank {
            rent: self.rent,
            capital: self.capital,
            wallets: self.wallets.snapshot(),
            mints: self.mints.snapshot(),
            tokens: self.tokens.snapshot(),
            escrows: self.escrows.snapshot(),
        };
        assert(copy@ =~= self@);
        copy
    }

    /// Opens a wallet for `identity` with `lamports` of new base currency in
    /// it. Refused, with nothing changed, where the address is occupied or the
    /// capital would no longer fit.
    pub fn create_wallet(&mut self, identity: &Address, lamports: u64) -> (ok: bool)
        requires
            old(self).inv(),
        ensures
            final(self).inv(),
            ok <==> !old(self)@.occupied(*identity) && old(self)@.capital + lamports <= u64::MAX,
            ok ==> final(self)@ == (BankState {
                capital: old(self)@.capital + lamports as nat,
                wallets: old(self)@.wallets.insert(*identity, lamports as nat),
                ..old(self)@
            }),
            !ok ==> final(self)@ == old(self)@,
    {
        if self.wallets.contains(identity) || self.escrows.contains(identity) {
            return false;
        }
        if lamports > u64::MAX - self.capital {
            return false;
        }
        self.wallets.insert(*identity, lamports);
        self.capital = self.capital + lamports;
        assert(self@ =~= (BankState {
            capital: old(self)@.capital + lamports as nat,
            wallets: old(self)@.wallets.insert(*identity, lamports as nat),
            ..old(self)@
        }));
        true
    }

    /// Registers the asset type `mint`, with nothing of it in existence yet.
    /// Refused, with nothing changed, where the asset is already known.
    pub fn create_mint(&mut self, mint: &Address, decimals: u8) -> (ok: bool)
        requires
            old(self).inv(),
        ensures
            final(self).inv(),
            ok <==> !old(self)@.mints.contains_key(*mint),
            ok ==> final(self)@ == (BankState {
                mints: old(self)@.mints.insert(*mint, MintState { decimals, supply: 0 }),
                ..old(self)@
            }),
            !ok ==> final(self)@ == old(self)@,
    {
        if self.mints.contains(mint) {
            return false;
        }
        proof {
            // No custody account is for the new asset yet.
            assert forall|k: TokenKey| #[trigger] self.tokens@.contains_key(k) implies k.mint
                != *mint by {
                assert(self@.tokens.contains_key(k));
                assert(self@.mints.contains_key(k.mint));
            }
            self.tokens.lemma_total_vanishes(amount_weight(*mint));
        }
        self.mints.insert(*mint, Mint { decimals, supply: 0 });
        assert(self@ =~= (BankState {
            mints: old(self)@.mints.insert(*mint, MintState { decimals, supply: 0 }),
            ..old(self)@
        }));
        true
    }

    /// Brings `amount` of new units of `key.mint` into the custody account
    /// `key`. Refused, with nothing changed, where there is no such account or
    /// the supply would no longer fit.
    pub fn mint_to(&mut self, key: &TokenKey, amount: u64) -> (ok: bool)
        requires
            old(self).inv(),
        ensures
            final(self).inv(),
            ok <==> old(self)@.tokens.contains_key(*key) && old(self)@.mints[key.mint].supply
                + amount <= u64::MAX,
            ok ==> final(self)@ == (BankState {
                mints: old(self)@.mints.insert(
                    key.mint,
                    MintState {
                        supply: old(self)@.mints[key.mint].supply + amount as nat,
                        ..old(self)@.mints[key.mint]
                    },
                ),
                tokens: old(self)@.tokens.insert(
                    *key,
                    Holding {
                        amount: old(self)@.tokens[*key].amount + amount as nat,
                        ..old(self)@.tokens[*key]
                    },
                ),
                ..old(self)@
            }),
            !ok ==> final(self)@ == old(self)@,
    {
        let account = match self.tokens.get(key) {
            Some(account) => account,
            None => {
                return false;
            },
        };
        assert(self@.tokens.contains_key(*key));
        let mint = match self.mints.get(&key.mint) {
            Some(mint) => mint,
            None => {
                return false;
            },
        };
        if amount > u64::MAX - mint.supply {
            return false;
        }
        proof {
            self.tokens.lemma_share_le_total(amount_weight(key.mint), *key);
        }
        self.tokens.insert(
            *key,
            TokenAccount { amount: account.amount + amount, lamports: account.lamports },
        );
        self.mints.insert(key.mint, Mint { decimals: mint.decimals, supply: mint.supply + amount });
        proof {
            assert forall|m: Address| #[trigger] self.mints@.contains_key(m) implies self.tokens.total(
                amount_weight(m),
            ) == self.mints@[m].supply by {
                assert(old(self).mints@.contains_key(m));
            }
            assert(self@ =~= (BankState {
                mints: old(self)@.mints.insert(
                    key.mint,
                    MintState {
                        supply: old(self)@.mints[key.mint].supply + amount as nat,
                        ..old(self)@.mints[key.mint]
                    },
                ),
                tokens: old(self)@.tokens.insert(
                    *key,
                    Holding {
                        amount: old(self)@.tokens[*key].amount + amount as nat,
                        ..old(self)@.tokens[*key]
                    },
                ),
                ..old(self)@
            }));
        }
        true
    }

    /// Creates the custody account `key`, empty, at the cost of `payer`.
    pub fn create_token_account(&mut self, payer: &Address, key: &TokenKey) -> (r: Result<
        (),
        EscrowError,
    >)
        requires
            old(self).inv(),
        ensures
            final(self).inv(),
            outcome(r, old(self)@, final(self)@, old(self)@.create_token_account(*payer, *key)),
    {
        if self.tokens.contains(key) {
            return Err(EscrowError::AlreadyExists);
        }
        if !self.mints.contains(&key.mint) {
            return Err(EscrowError::AssetMismatch);
        }
        let funds = match self.wallets.get(payer) {
            Some(funds) => funds,
            None => {
                return Err(EscrowError::InsufficientFunds);
            },
        };
        let cost = self.rent.token_account;
        if funds < cost {
            return Err(EscrowError::InsufficientFunds);
        }
        self.wallets.insert(*payer, funds - cost);
        self.tokens.insert(*key, TokenAccount { amount: 0, lamports: cost });
        proof {
            assert forall|m: Address| #[trigger] self.mints@.contains_key(m) implies self.tokens.total(
                amount_weight(m),
            ) == self.mints@[m].supply by {
                assert(old(self).mints@.contains_key(m));
            }
            assert(self@ =~= old(self)@.create_token_account(*payer, *key)->Ok_0);
        }
        Ok(())
    }

    /// Moves `ix.amount` of `ix.mint` from `ix.from` to `ix.to`; `signer` is
    /// the identity that has proved to stand behind the request.
    pub fn transfer_checked(&mut self, ix: &TransferChecked, signer: &Address) -> (r: Result<
        (),
        EscrowError,
    >)
        requires
            old(self).inv(),
        ensures
            final(self).inv(),
            outcome(r, old(self)@, final(self)@, old(self)@.transfer_checked(*ix, *signer)),
    {
        if ix.from.mint != ix.mint || ix.to.mint != ix.mint {
            return Err(EscrowError::AssetMismatch);
        }
        match self.mints.get(&ix.mint) {
            Some(mint) => {
                if mint.decimals != ix.decimals {
                    return Err(EscrowError::AssetMismatch);
                }
            },
            None => {
                return Err(EscrowError::AssetMismatch);
            },
        }
        let from = match self.tokens.get(&ix.from) {
            Some(from) => from,
            None => {
                return Err(EscrowError::InsufficientFunds);
            },
        };
        let to = match self.tokens.get(&ix.to) {
            Some(to) => to,
            None => {
                return Err(EscrowError::NotFound);
            },
        };
        if ix.authority != ix.from.owner || *signer != ix.authority {
            return Err(EscrowError::AuthorityMismatch);
        }
        if from.amount < ix.amount {
            return Err(EscrowError::InsufficientFunds);
        }
        if ix.from == ix.to {
            return Ok(());
        }
        self.tokens.insert(
            ix.from,
            TokenAccount { amount: from.amount - ix.amount, lamports: from.lamports },
        );
        proof {
            // What is left of the supply after the debit bounds the receiver.
            self.tokens.lemma_share_le_total(amount_weight(ix.mint), ix.to);
        }
        self.tokens.insert(
            ix.to,
            TokenAccount { amount: to.amount + ix.amount, lamports: to.lamports },
        );
        proof {
            assert forall|m: Address| #[trigger] self.mints@.contains_key(m) implies self.tokens.total(
                amount_weight(m),
            ) == self.mints@[m].supply by {
                assert(old(self).mints@.contains_key(m));
            }
            assert(self@ =~= old(self)@.moved(ix.from, ix.to, ix.amount as nat));
        }
        Ok(())
    }

    /// Destroys the empty custody account `ix.account` and hands its
    /// maintenance balance to the wallet of `ix.destination`.
    pub fn close_account(&mut self, ix: &CloseAccount, signer: &Address) -> (r: Result<
        (),
        EscrowError,
    >)
        requires
            old(self).inv(),
            old(self)@.closable(*ix),
        ensures
            final(self).inv(),
            outcome(r, old(self)@, final(self)@, old(self)@.close_account(*ix, *signer)),
    {
        let account = match self.tokens.get(&ix.account) {
            Some(account) => account,
            None => {
                return Err(EscrowError::NotFound);
            },
        };
        if ix.authority != ix.account.owner || *signer != ix.authority {
            return Err(EscrowError::AuthorityMismatch);
        }
        let funds = match self.wallets.get(&ix.destination) {
            Some(funds) => funds,
            None => {
                return Err(EscrowError::NotFound);
            },
        };
        proof {
            self.wallets.lemma_share_le_total(wallet_weight(), ix.destination);
            self.tokens.lemma_share_le_total(token_rent_weight(), ix.account);
            self.escrows.lemma_share_le_total(escrow_rent_weight(), ix.destination);
        }
        self.wallets.insert(ix.destination, funds + account.lamports);
        self.tokens.remove(&ix.account);
        proof {
            assert forall|m: Address| #[trigger] self.mints@.contains_key(m) implies self.tokens.total(
                amount_weight(m),
            ) == self.mints@[m].supply by {
                assert(old(self).mints@.contains_key(m));
            }
            assert(self@ =~= old(self)@.close_account(*ix, *signer)->Ok_0);
        }
        Ok(())
    }

    /// Stores `data` as a new escrow record at `address`, at the cost of
    /// `payer`. Rejected with `AlreadyExists` where the address is occupied.
    pub fn create_escrow(&mut self, payer: &Address, address: &Address, data: Escrow) -> (r: Result<
        (),
        EscrowError,
    >)
        requires
            old(self).inv(),
        ensures
            final(self).inv(),
            outcome(r, old(self)@, final(self)@, old(self)@.create_escrow(*payer, *address, data)),
    {
        if self.wallets.contains(address) || self.escrows.contains(address) {
            return Err(EscrowError::AlreadyExists);
        }
        let funds = match self.wallets.get(payer) {
            Some(funds) => funds,
            None => {
                return Err(EscrowError::InsufficientFunds);
            },
        };
        let cost = self.rent.escrow;
        if funds < cost {
            return Err(EscrowError::InsufficientFunds);
        }
        self.wallets.insert(*payer, funds - cost);
        self.escrows.insert(*address, EscrowAccount { data, lamports: cost });
        proof {
            assert(self@ =~= old(self)@.create_escrow(*payer, *address, data)->Ok_0);
        }
        Ok(())
    }

    /// Deletes the escrow record at `address` and hands its maintenance
    /// balance to the wallet of `beneficiary`. Rejected with `NotFound` where
    /// there is no record.
    pub fn close_escrow(&mut self, address: &Address, beneficiary: &Address) -> (r: Result<
        (),
        EscrowError,
    >)
        requires
            old(self).inv(),
        ensures
            final(self).inv(),
            outcome(r, old(self)@, final(self)@, old(self)@.close_escrow(*address, *beneficiary)),
    {
        let record = match self.escrows.get(address) {
            Some(record) => record,
            None => {
                return Err(EscrowError::NotFound);
            },
        };
        let funds = match self.wallets.get(beneficiary) {
            Some(funds) => funds,
            None => {
                return Err(EscrowError::NotFound);
            },
        };
        proof {
            self.wallets.lemma_share_le_total(wallet_weight(), *beneficiary);
            self.escrows.lemma_share_le_total(escrow_rent_weight(), *address);
            self.tokens.lemma_share_le_total(token_rent_weight(), TokenKey { owner: *address, mint: *address });
        }
        self.wallets.insert(*beneficiary, funds + record.lamports);
        self.escrows.remove(address);
        proof {
            assert(self@ =~= old(self)@.close_escrow(*address, *beneficiary)->Ok_0);
        }
        Ok(())
    }

    /// Makes sure that the custody account `key` is there: where it is not, it
    /// is created empty at the cost of `payer`.
    pub fn ensure_token_account(&mut self, payer: &Address, key: &TokenKey) -> (r: Result<
        (),
        EscrowError,
    >)
        requires
            old(self).inv(),
        ensures
            final(self).inv(),
            outcome(r, old(self)@, final(self)@, old(self)@.ensure_token_account(*payer, *key)),
    {
        if self.tokens.contains(key) {
            Ok(())
        } else {
            self.create_token_account(payer, key)
        }
    }
}

} // verus!
