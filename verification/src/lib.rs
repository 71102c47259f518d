//! A two-party escrow over a token ledger.
//!
//! A maker locks an amount of one asset in a vault and names the amount of
//! another asset that is asked in return. Any taker may fulfill the escrow:
//! the taker pays the maker and receives what the vault holds. Until then the
//! maker may cancel and take the deposit back. Either way the vault and the
//! record of the escrow disappear together.
//!
//! `make`, `take` and `refund` are these three operations. Each either
//! happens in full or is rejected with an `EscrowError` and changes nothing.
//! They take the ledger by exclusive reference, so two operations on one
//! ledger never overlap: of a `take` and a `refund` of the same escrow the
//! first succeeds and the second finds nothing.
//!
//! The modules, from the ground up:
//!
//! - `address`, `accounts`, `instruction`, `error`, `state`: the values.
//! - `derivation`: the address of an escrow and the proof that derives it
//!   again, computed by `anchor_lang`.
//! - `table`, `model`, `bank`: the ledger, in memory and as a mathematical
//!   value, with the requests of the asset-transfer service.
//! - `vault`: opening and draining a vault.
//! - `contexts`: the accounts and the steps of each operation.
//! - `ledger`: the escrow ledger, in which records and vaults go together.
//! - `laws`: what holds of the three operations whatever is asked of them.

pub mod accounts;
pub mod address;
pub mod bank;
pub mod contexts;
pub mod derivation;
pub mod error;
pub mod instruction;
pub mod laws;
pub mod ledger;
pub mod model;
pub mod state;
pub mod table;
pub mod vault;

pub use crate::contexts::make::Make;
pub use crate::contexts::make::MakeBumps;
pub use crate::contexts::refund::Refund;
pub use crate::contexts::take::Take;
pub use crate::error::EscrowError;
pub use crate::state::escrow::Escrow;

use crate::address::Address;
use crate::derivation::escrow_address;
use crate::derivation::escrow_authority;
use crate::laws::lemma_make_keeps_wf;
use crate::laws::lemma_refund_keeps_wf;
use crate::laws::lemma_take_keeps_wf;
use crate::ledger::settled;
use crate::ledger::Ledger;
use vstd::prelude::*;

verus! {

/// Opens an escrow of `maker` at the address `derived`, with the proof that
/// came with it: `deposit` of `mint_a` goes from the maker into a new vault,
/// and the record is stored with the amount `receive` of `mint_b` that is
/// asked in return. `derived` is `None` where no address could be derived.
///
/// What the ledger is afterwards, and each reason for a rejection, is
/// `LedgerState::make`; `laws::lemma_make_opens`, `laws::lemma_make_succeeds_iff`
/// and `laws::lemma_make_errors` say what that comes to.
pub fn make_with(
    ledger: &mut Ledger,
    derived: Option<(Address, u8)>,
    maker: &Address,
    mint_a: &Address,
    mint_b: &Address,
    seed: u64,
    deposit: u64,
    receive: u64,
) -> (r: Result<(), EscrowError>)
    requires
        old(ledger).wf(),
    ensures
        final(ledger).wf(),
        settled(
            r,
            old(ledger)@,
            final(ledger)@,
            old(ledger)@.make(derived, *maker, *mint_a, *mint_b, seed, deposit, receive),
        ),
        old(ledger)@.authentic() && (derived matches Some((escrow, bump)) ==> escrow_authority(
            *maker,
            seed,
            bump,
        ) == Some(escrow)) ==> final(ledger)@.authentic(),
{
    proof {
        ledger.lemma_wf();
        if ledger@.make(derived, *maker, *mint_a, *mint_b, seed, deposit, receive) is Ok {
            lemma_make_keeps_wf(ledger@, derived, *maker, *mint_a, *mint_b, seed, deposit, receive);
        }
    }
    let (accounts, bumps, mut working) = match Make::try_accounts(
        ledger.bank(),
        derived,
        maker,
        mint_a,
        mint_b,
    ) {
        Ok(found) => found,
        Err(e) => {
            return Err(e);
        },
    };
    match accounts.deposit(&mut working, deposit) {
        Ok(()) => {},
        Err(e) => {
            return Err(e);
        },
    }
    match accounts.save_escrow(&mut working, seed, receive, &bumps) {
        Ok(()) => {},
        Err(e) => {
            return Err(e);
        },
    }
    let ghost deposits = ledger@.deposits.insert(accounts.escrow, deposit as nat);
    ledger.commit(working, Ghost(deposits));
    Ok(())
}

/// Opens an escrow: derives the address for `maker` and `seed`, moves
/// `deposit` of `mint_a` from the maker into a new vault under that address,
/// and stores the record there, with the amount `receive` of `mint_b` that the
/// maker asks in return.
pub fn make(
    ledger: &mut Ledger,
    maker: &Address,
    mint_a: &Address,
    mint_b: &Address,
    seed: u64,
    deposit: u64,
    receive: u64,
) -> (r: Result<(), EscrowError>)
    requires
        old(ledger).wf(),
    ensures
        final(ledger).wf(),
        settled(
            r,
            old(ledger)@,
            final(ledger)@,
            old(ledger)@.make(
                escrow_address(*maker, seed),
                *maker,
                *mint_a,
                *mint_b,
                seed,
                deposit,
                receive,
            ),
        ),
        old(ledger)@.authentic() ==> final(ledger)@.authentic(),
{
    let derived = derivation::derive(maker, seed);
    make_with(ledger, derived, maker, mint_a, mint_b, seed, deposit, receive)
}

/// Fulfills the escrow at `escrow`, given the authority that the proof in its
/// record derives: the taker pays the maker what the record asks for, receives
/// what the vault holds, and vault and record are closed in favour of the
/// maker.
///
/// What the ledger is afterwards, and each reason for a rejection, is
/// `LedgerState::take`; `laws::lemma_take_conserves`,
/// `laws::lemma_take_succeeds_iff` and `laws::lemma_take_errors` say what that
/// comes to.
pub fn take_with(
    ledger: &mut Ledger,
    authority: Option<Address>,
    taker: &Address,
    maker: &Address,
    mint_a: &Address,
    mint_b: &Address,
    escrow: &Address,
) -> (r: Result<(), EscrowError>)
    requires
        old(ledger).wf(),
    ensures
        final(ledger).wf(),
        settled(
            r,
            old(ledger)@,
            final(ledger)@,
            old(ledger)@.take(authority, *taker, *maker, *mint_a, *mint_b, *escrow),
        ),
        old(ledger)@.authentic() ==> final(ledger)@.authentic(),
{
    proof {
        ledger.lemma_wf();
        if ledger@.take(authority, *taker, *maker, *mint_a, *mint_b, *escrow) is Ok {
            lemma_take_keeps_wf(ledger@, authority, *taker, *maker, *mint_a, *mint_b, *escrow);
        }
    }
    let (accounts, mut working) = match Take::try_accounts(
        ledger.bank(),
        taker,
        maker,
        mint_a,
        mint_b,
        escrow,
    ) {
        Ok(found) => found,
        Err(e) => {
            return Err(e);
        },
    };
    match accounts.deposit(&mut working) {
        Ok(()) => {},
        Err(e) => {
            return Err(e);
        },
    }
    match accounts.withdraw_and_close_vault_as(&mut working, authority) {
        Ok(()) => {},
        Err(e) => {
            return Err(e);
        },
    }
    match accounts.exit(&mut working) {
        Ok(()) => {},
        Err(e) => {
            return Err(e);
        },
    }
    let ghost deposits = ledger@.deposits.remove(*escrow);
    ledger.commit(working, Ghost(deposits));
    Ok(())
}

/// Fulfills the escrow at `escrow`: the taker pays the maker the amount of
/// `mint_b` that the record asks for and receives all that the vault holds;
/// the vault and the record are closed, and their maintenance balances go
/// back to the maker. The authority over the vault is derived again from the
/// proof in the record.
pub fn take(
    ledger: &mut Ledger,
    taker: &Address,
    maker: &Address,
    mint_a: &Address,
    mint_b: &Address,
    escrow: &Address,
) -> (r: Result<(), EscrowError>)
    requires
        old(ledger).wf(),
    ensures
        final(ledger).wf(),
        settled(
            r,
            old(ledger)@,
            final(ledger)@,
            old(ledger)@.take(
                old(ledger)@.derived_authority(*maker, *escrow),
                *taker,
                *maker,
                *mint_a,
                *mint_b,
                *escrow,
            ),
        ),
        old(ledger)@.authentic() ==> final(ledger)@.authentic() && r != Err::<(), EscrowError>(
            EscrowError::AuthorityMismatch,
        ),
{
    proof {
        ledger.lemma_wf();
    }
    let authority = match ledger.bank().escrow(escrow) {
        Some(record) => derivation::authority(maker, record.data.seed, record.data.bump),
        None => None,
    };
    take_with(ledger, authority, taker, maker, mint_a, mint_b, escrow)
}

/// Cancels the escrow at `escrow` on behalf of `maker`, given the authority
/// that the proof in its record derives: the maker receives what the vault
/// holds, and vault and record are closed in favour of the maker.
///
/// What the ledger is afterwards, and each reason for a rejection, is
/// `LedgerState::refund`; `laws::lemma_refund_returns`,
/// `laws::lemma_refund_succeeds_iff` and `laws::lemma_refund_errors` say what
/// that comes to.
pub fn refund_with(
    ledger: &mut Ledger,
    authority: Option<Address>,
    maker: &Address,
    mint_a: &Address,
    escrow: &Address,
) -> (r: Result<(), EscrowError>)
    requires
        old(ledger).wf(),
    ensures
        final(ledger).wf(),
        settled(
            r,
            old(ledger)@,
            final(ledger)@,
            old(ledger)@.refund(authority, *maker, *mint_a, *escrow),
        ),
        old(ledger)@.authentic() ==> final(ledger)@.authentic(),
{
    proof {
        ledger.lemma_wf();
        if ledger@.refund(authority, *maker, *mint_a, *escrow) is Ok {
            lemma_refund_keeps_wf(ledger@, authority, *maker, *mint_a, *escrow);
        }
    }
    let (accounts, mut working) = match Refund::try_accounts(ledger.bank(), maker, mint_a, escrow) {
        Ok(found) => found,
        Err(e) => {
            return Err(e);
        },
    };
    match accounts.refund_and_close_vault_as(&mut working, authority) {
        Ok(()) => {},
        Err(e) => {
            return Err(e);
        },
    }
    match accounts.exit(&mut working) {
        Ok(()) => {},
        Err(e) => {
            return Err(e);
        },
    }
    let ghost deposits = ledger@.deposits.remove(*escrow);
    ledger.commit(working, Ghost(deposits));
    Ok(())
}

/// Cancels the escrow at `escrow`: only the maker may do so. The maker
/// receives all that the vault holds; the vault and the record are closed,
/// and their maintenance balances go back to the maker. The authority over
/// the vault is derived again from the proof in the record.
pub fn refund(ledger: &mut Ledger, maker: &Address, mint_a: &Address, escrow: &Address) -> (r:
    Result<(), EscrowError>)
    requires
        old(ledger).wf(),
    ensures
        final(ledger).wf(),
        settled(
            r,
            old(ledger)@,
            final(ledger)@,
            old(ledger)@.refund(
                old(ledger)@.derived_authority(*maker, *escrow),
                *maker,
                *mint_a,
                *escrow,
            ),
        ),
        old(ledger)@.authentic() ==> final(ledger)@.authentic() && r != Err::<(), EscrowError>(
            EscrowError::AuthorityMismatch,
        ),
{
    proof {
        ledger.lemma_wf();
    }
    let authority = match ledger.bank().escrow(escrow) {
        Some(record) => derivation::authority(maker, record.data.seed, record.data.bump),
        None => None,
    };
    refund_with(ledger, authority, maker, mint_a, escrow)
}

} // verus!
