//! The escrow ledger: a bank in which every escrow record has its vault.
//!
//! The three operations of the state machine run on a `Ledger`. Each one works
//! on a copy of the bank and puts the copy in place only when every step has
//! succeeded, so that a record without its vault, or a vault without its
//! record, is never there to be seen.

use crate::accounts::Rent;
use crate::accounts::TokenKey;
use crate::address::Address;
use crate::bank::Bank;
use crate::contexts::make::Make;
use crate::contexts::refund::Refund;
use crate::contexts::take::Take;
use crate::derivation::escrow_authority;
use crate::error::EscrowError;
use crate::model::BankState;
use crate::model::Holding;
use crate::model::MintState;
use crate::state::escrow::Escrow;
use vstd::prelude::*;

verus! {

/// The escrow ledger as a mathematical value.
#[verifier::ext_equal]
pub struct LedgerState {
    /// The accounts.
    pub bank: BankState,
    /// What was deposited in each open escrow when it was opened.
    pub deposits: Map<Address, nat>,
}

impl LedgerState {
    /// The vault of the escrow whose record is `terms` and stands at `escrow`.
    pub open spec fn vault_key(escrow: Address, terms: Escrow) -> TokenKey {
        TokenKey { owner: escrow, mint: terms.mint_a }
    }

    /// Whether an escrow is open at `escrow`.
    pub open spec fn is_open(self, escrow: Address) -> bool {
        self.bank.escrows.contains_key(escrow)
    }

    /// Whether a vault is there for `escrow`: a custody account under that
    /// address, which is nobody's wallet.
    pub open spec fn has_vault(self, escrow: Address) -> bool {
        !self.bank.wallets.contains_key(escrow) && exists|mint: Address| #[trigger]
            self.bank.tokens.contains_key(TokenKey { owner: escrow, mint })
    }

    /// What the vault of `escrow` holds; nothing where there is no escrow.
    pub open spec fn vault_balance(self, escrow: Address) -> nat {
        if self.is_open(escrow) {
            self.bank.balance(Self::vault_key(escrow, self.bank.escrows[escrow].data))
        } else {
            0
        }
    }

    /// Records and vaults go together: every record has its vault, which
    /// holds the deposit, and every custody account belongs to a wallet or is
    /// the vault of an open escrow. The maker of every open escrow has a
    /// wallet, to which the maintenance balances can go back, and a custody
    /// account for the deposited asset, to which the deposit can go back.
    pub open spec fn wf(self) -> bool {
        &&& self.bank.consistent()
        &&& forall|escrow: Address| #[trigger]
            self.bank.escrows.contains_key(escrow) ==> {
                let terms = self.bank.escrows[escrow].data;
                &&& self.bank.tokens.contains_key(Self::vault_key(escrow, terms))
                &&& self.deposits.contains_key(escrow)
                &&& self.bank.tokens[Self::vault_key(escrow, terms)].amount
                    == self.deposits[escrow]
                &&& self.bank.wallets.contains_key(terms.maker)
                &&& self.bank.tokens.contains_key(TokenKey { owner: terms.maker, mint: terms.mint_a })
                &&& self.bank.mints.contains_key(terms.mint_b)
            }
        &&& forall|key: TokenKey| #[trigger]
            self.bank.tokens.contains_key(key) ==> {
                ||| self.bank.wallets.contains_key(key.owner)
                ||| (self.bank.escrows.contains_key(key.owner)
                    && self.bank.escrows[key.owner].data.mint_a == key.mint)
            }
        &&& forall|escrow: Address| #[trigger]
            self.deposits.contains_key(escrow) ==> self.bank.escrows.contains_key(escrow)
    }

    /// Every record holds a proof that derives the address at which the
    /// record stands.
    pub open spec fn authentic(self) -> bool {
        forall|escrow: Address| #[trigger]
            self.bank.escrows.contains_key(escrow) ==> escrow_authority(
                self.bank.escrows[escrow].data.maker,
                self.bank.escrows[escrow].data.seed,
                self.bank.escrows[escrow].data.bump,
            ) == Some(escrow)
    }

    /// The number of base-currency units that fulfilling costs the taker: the
    /// price of a custody account for each of the two receiving accounts that
    /// is missing.
    pub open spec fn take_cost(self, taker: Address, maker: Address, mint_a: Address, mint_b: Address) -> nat {
        let receives = TokenKey { owner: taker, mint: mint_a };
        let paid = TokenKey { owner: maker, mint: mint_b };
        let first: nat = if self.bank.tokens.contains_key(receives) {
            0
        } else {
            self.bank.rent.token_account as nat
        };
        let second: nat = if self.bank.tokens.contains_key(paid) || paid == receives {
            0
        } else {
            self.bank.rent.token_account as nat
        };
        first + second
    }

    /// What the proof in the record at `escrow` derives for `maker`; `None`
    /// where no record stands there.
    pub open spec fn derived_authority(self, maker: Address, escrow: Address) -> Option<Address> {
        if self.is_open(escrow) {
            escrow_authority(
                maker,
                self.bank.escrows[escrow].data.seed,
                self.bank.escrows[escrow].data.bump,
            )
        } else {
            None
        }
    }

    /// Open: the ledger after `maker` has opened an escrow at the derived
    /// address, or the reason for which the request is rejected.
    pub open spec fn make(
        self,
        derived: Option<(Address, u8)>,
        maker: Address,
        mint_a: Address,
        mint_b: Address,
        seed: u64,
        deposit: u64,
        receive: u64,
    ) -> Result<LedgerState, EscrowError> {
        match Make::accounts(self.bank, derived, maker, mint_a, mint_b) {
            Err(e) => Err(e),
            Ok((accounts, bumps)) => match accounts.deposited(self.bank, deposit) {
                Err(e) => Err(e),
                Ok(funded) => match accounts.saved(funded, seed, receive, bumps) {
                    Err(e) => Err(e),
                    Ok(bank) => Ok(
                        LedgerState {
                            bank,
                            deposits: self.deposits.insert(accounts.escrow, deposit as nat),
                        },
                    ),
                },
            },
        }
    }

    /// Fulfill: the ledger after `taker` has fulfilled the escrow at
    /// `escrow`, or the reason for which the request is rejected. `authority`
    /// is what the proof in the record derives.
    pub open spec fn take(
        self,
        authority: Option<Address>,
        taker: Address,
        maker: Address,
        mint_a: Address,
        mint_b: Address,
        escrow: Address,
    ) -> Result<LedgerState, EscrowError> {
        match Take::accounts(self.bank, taker, maker, mint_a, mint_b, escrow) {
            Err(e) => Err(e),
            Ok((accounts, ready)) => match accounts.deposited(ready) {
                Err(e) => Err(e),
                Ok(paid) => match accounts.withdrawn(paid, authority) {
                    Err(e) => Err(e),
                    Ok(released) => match accounts.exited(released) {
                        Err(e) => Err(e),
                        Ok(bank) => Ok(
                            LedgerState { bank, deposits: self.deposits.remove(escrow) },
                        ),
                    },
                },
            },
        }
    }

    /// Cancel: the ledger after `maker` has cancelled the escrow at `escrow`,
    /// or the reason for which the request is rejected. `authority` is what
    /// the proof in the record derives.
    pub open spec fn refund(
        self,
        authority: Option<Address>,
        maker: Address,
        mint_a: Address,
        escrow: Address,
    ) -> Result<LedgerState, EscrowError> {
        match Refund::accounts(self.bank, maker, mint_a, escrow) {
            Err(e) => Err(e),
            Ok(accounts) => match accounts.refunded(self.bank, authority) {
                Err(e) => Err(e),
                Ok(released) => match accounts.exited(released) {
                    Err(e) => Err(e),
                    Ok(bank) => Ok(LedgerState { bank, deposits: self.deposits.remove(escrow) }),
                },
            },
        }
    }

    /// Whether `after` is the ledger that some successful `make` leaves.
    pub open spec fn made(self, after: LedgerState) -> bool {
        exists|
            derived: Option<(Address, u8)>,
            maker: Address,
            mint_a: Address,
            mint_b: Address,
            seed: u64,
            deposit: u64,
            receive: u64,
        | #[trigger]
            self.make(derived, maker, mint_a, mint_b, seed, deposit, receive) == Ok::<
                LedgerState,
                EscrowError,
            >(after)
    }

    /// Whether `after` is the ledger that some successful `take` leaves.
    pub open spec fn taken(self, after: LedgerState) -> bool {
        exists|
            authority: Option<Address>,
            taker: Address,
            maker: Address,
            mint_a: Address,
            mint_b: Address,
            escrow: Address,
        | #[trigger]
            self.take(authority, taker, maker, mint_a, mint_b, escrow) == Ok::<
                LedgerState,
                EscrowError,
            >(after)
    }

    /// Whether `after` is the ledger that some successful `refund` leaves.
    pub open spec fn refunded(self, after: LedgerState) -> bool {
        exists|authority: Option<Address>, maker: Address, mint_a: Address, escrow: Address| #[trigger]
            self.refund(authority, maker, mint_a, escrow) == Ok::<LedgerState, EscrowError>(after)
    }

    /// Whether one successful operation of the state machine leads from this
    /// ledger to `after`.
    pub open spec fn steps_to(self, after: LedgerState) -> bool {
        self.made(after) || self.taken(after) || self.refunded(after)
    }
}

/// Whether `r`, together with the ledger after the call, is what `expected`
/// asks for: on success the new ledger, on rejection the same error and the
/// ledger unchanged.
pub open spec fn settled(
    r: Result<(), EscrowError>,
    before: LedgerState,
    after: LedgerState,
    expected: Result<LedgerState, EscrowError>,
) -> bool {
    match expected {
        Ok(next) => r is Ok && after == next,
        Err(e) => r == Err::<(), EscrowError>(e) && after == before,
    }
}

/// The escrow ledger.
pub struct Ledger {
    bank: Bank,
    deposits: Ghost<Map<Address, nat>>,
}

impl View for Ledger {
    type V = LedgerState;

    closed spec fn view(&self) -> LedgerState {
        LedgerState { bank: self.bank@, deposits: self.deposits@ }
    }
}

impl Ledger {
    /// The books are balanced, and records and vaults go together.
    pub closed spec fn wf(&self) -> bool {
        self.bank.inv() && self@.wf()
    }

    /// In a sound ledger records and vaults go together.
    pub proof fn lemma_wf(&self)
        requires
            self.wf(),
        ensures
            self@.wf(),
    {
    }

    /// An empty ledger in which new accounts cost `rent`.
    pub fn new(rent: Rent) -> (ledger: Ledger)
        ensures
            ledger.wf(),
            ledger@.authentic(),
            ledger@ == (LedgerState {
                bank: BankState {
                    rent,
                    capital: 0,
                    wallets: Map::empty(),
                    mints: Map::empty(),
                    tokens: Map::empty(),
                    escrows: Map::empty(),
                },
                deposits: Map::empty(),
            }),
    {
        Ledger { bank: Bank::new(rent), deposits: Ghost(Map::empty()) }
    }

    /// The accounts of the ledger, to read.
    pub fn bank(&self) -> (bank: &Bank)
        requires
            self.wf(),
        ensures
            bank.inv(),
            bank@ == self@.bank,
    {
        &self.bank
    }

    /// Puts `working` in place of the accounts.
    pub(crate) fn commit(&mut self, working: Bank, deposits: Ghost<Map<Address, nat>>)
        requires
            working.inv(),
            (LedgerState { bank: working@, deposits: deposits@ }).wf(),
        ensures
            final(self).wf(),
            final(self)@ == (LedgerState { bank: working@, deposits: deposits@ }),
    {
        self.bank = working;
        self.deposits = deposits;
    }

    /// Opens a wallet for `identity` with `lamports` of new base currency in
    /// it. Refused, with nothing changed, where the address is occupied or the
    /// capital would no longer fit.
    pub fn create_wallet(&mut self, identity: &Address, lamports: u64) -> (ok: bool)
        requires
            old(self).wf(),
        ensures
            final(self).wf(),
            old(self)@.authentic() ==> final(self)@.authentic(),
            ok <==> !old(self)@.bank.occupied(*identity) && old(self)@.bank.capital + lamports
                <= u64::MAX,
            ok ==> final(self)@ == (LedgerState {
                bank: BankState {
                    capital: old(self)@.bank.capital + lamports as nat,
                    wallets: old(self)@.bank.wallets.insert(*identity, lamports as nat),
                    ..old(self)@.bank
                },
                ..old(self)@
            }),
            !ok ==> final(self)@ == old(self)@,
    {
        self.bank.create_wallet(identity, lamports)
    }

    /// Registers the asset type `mint`, with nothing of it in existence yet.
    /// Refused, with nothing changed, where the asset is already known.
    pub fn create_mint(&mut self, mint: &Address, decimals: u8) -> (ok: bool)
        requires
            old(self).wf(),
        ensures
            final(self).wf(),
            old(self)@.authentic() ==> final(self)@.authentic(),
            ok <==> !old(self)@.bank.mints.contains_key(*mint),
            ok ==> final(self)@ == (LedgerState {
                bank: BankState {
                    mints: old(self)@.bank.mints.insert(*mint, MintState { decimals, supply: 0 }),
                    ..old(self)@.bank
                },
                ..old(self)@
            }),
            !ok ==> final(self)@ == old(self)@,
    {
        self.bank.create_mint(mint, decimals)
    }

    /// Creates an empty custody account for `mint` that `owner` controls and
    /// pays for.
    ///
    /// Rejected with `AlreadyExists` where the account is there, with
    /// `AssetMismatch` where the asset is unknown, and with
    /// `InsufficientFunds` where `owner` has no wallet or cannot pay.
    pub fn create_token_account(&mut self, owner: &Address, mint: &Address) -> (r: Result<
        (),
        EscrowError,
    >)
        requires
            old(self).wf(),
        ensures
            final(self).wf(),
            old(self)@.authentic() ==> final(self)@.authentic(),
            match old(self)@.bank.create_token_account(
                *owner,
                TokenKey { owner: *owner, mint: *mint },
            ) {
                Ok(bank) => r is Ok && final(self)@ == (LedgerState { bank, ..old(self)@ }),
                Err(e) => r == Err::<(), EscrowError>(e) && final(self)@ == old(self)@,
            },
    {
        let key = TokenKey { owner: *owner, mint: *mint };
        self.bank.create_token_account(owner, &key)
    }

    /// Brings `amount` of new units of `mint` into the custody account that
    /// `owner` has for it. Refused, with nothing changed, where `owner` has no
    /// wallet or no such account, or where the supply would no longer fit.
    pub fn mint_to(&mut self, owner: &Address, mint: &Address, amount: u64) -> (ok: bool)
        requires
            old(self).wf(),
        ensures
            final(self).wf(),
            old(self)@.authentic() ==> final(self)@.authentic(),
            ok <==> {
                &&& old(self)@.bank.wallets.contains_key(*owner)
                &&& old(self)@.bank.tokens.contains_key(TokenKey { owner: *owner, mint: *mint })
                &&& old(self)@.bank.mints[*mint].supply + amount <= u64::MAX
            },
            ok ==> final(self)@ == (LedgerState {
                bank: BankState {
                    mints: old(self)@.bank.mints.insert(
                        *mint,
                        MintState {
                            supply: old(self)@.bank.mints[*mint].supply + amount as nat,
                            ..old(self)@.bank.mints[*mint]
                        },
                    ),
                    tokens: old(self)@.bank.tokens.insert(
                        TokenKey { owner: *owner, mint: *mint },
                        Holding {
                            amount: old(self)@.bank.tokens[TokenKey { owner: *owner, mint: *mint }].amount
                                + amount as nat,
                            ..old(self)@.bank.tokens[TokenKey { owner: *owner, mint: *mint }]
                        },
                    ),
                    ..old(self)@.bank
                },
                ..old(self)@
            }),
            !ok ==> final(self)@ == old(self)@,
    {
        if self.bank.lamports(owner).is_none() {
            return false;
        }
        let key = TokenKey { owner: *owner, mint: *mint };
        self.bank.mint_to(&key, amount)
    }

    /// How much of `mint` the identity `owner` holds; 0 where it has no
    /// account for it.
    pub fn balance(&self, owner: &Address, mint: &Address) -> (amount: u64)
        requires
            self.wf(),
        ensures
            amount == self@.bank.balance(TokenKey { owner: *owner, mint: *mint }),
    {
        let key = TokenKey { owner: *owner, mint: *mint };
        match self.bank.token(&key) {
            Some(account) => account.amount,
            None => 0,
        }
    }

    /// The base-currency balance of `identity`; 0 where it has no wallet.
    pub fn lamports(&self, identity: &Address) -> (amount: u64)
        requires
            self.wf(),
        ensures
            amount == self@.bank.lamports(*identity),
    {
        match self.bank.lamports(identity) {
            Some(amount) => amount,
            None => 0,
        }
    }

    /// The record of the escrow that is open at `escrow`, if there is one.
    pub fn escrow(&self, escrow: &Address) -> (r: Option<Escrow>)
        requires
            self.wf(),
        ensures
            r == if self@.is_open(*escrow) {
                Some(self@.bank.escrows[*escrow].data)
            } else {
                None
            },
    {
        match self.bank.escrow(escrow) {
            Some(record) => Some(record.data),
            None => None,
        }
    }

    /// What the vault of the escrow at `escrow` holds, if an escrow is open
    /// there.
    pub fn vault(&self, escrow: &Address) -> (r: Option<u64>)
        requires
            self.wf(),
        ensures
            match r {
                Some(amount) => self@.is_open(*escrow) && amount == self@.vault_balance(*escrow)
                    && amount == self@.deposits[*escrow],
                None => !self@.is_open(*escrow),
            },
    {
        match self.bank.escrow(escrow) {
            Some(record) => {
                let key = TokenKey { owner: *escrow, mint: record.data.mint_a };
                match self.bank.token(&key) {
                    Some(account) => Some(account.amount),
                    None => Some(0),
                }
            },
            None => None,
        }
    }
}

} // verus!
