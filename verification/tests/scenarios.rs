use escrow::accounts::Rent;
use escrow::address::Address;
use escrow::derivation;
use escrow::error::EscrowError;
use escrow::ledger::Ledger;
use escrow::state::escrow::Escrow;
use escrow::{make, refund, take};

fn address(byte: u8) -> Address {
    Address::new([byte; 32])
}

fn maker() -> Address {
    address(1)
}

fn taker() -> Address {
    address(2)
}

fn token_x() -> Address {
    address(10)
}

fn token_y() -> Address {
    address(11)
}

const RENT: Rent = Rent { token_account: 3, escrow: 5 };

/// A ledger with two assets, a maker who holds 1000 of the first and a taker
/// who holds 70 of the second.
fn ledger() -> Ledger {
    let mut ledger = Ledger::new(RENT);
    assert!(ledger.create_wallet(&maker(), 1_000));
    assert!(ledger.create_wallet(&taker(), 1_000));
    assert!(ledger.create_mint(&token_x(), 6));
    assert!(ledger.create_mint(&token_y(), 9));
    assert_eq!(ledger.create_token_account(&maker(), &token_x()), Ok(()));
    assert_eq!(ledger.create_token_account(&taker(), &token_y()), Ok(()));
    assert!(ledger.mint_to(&maker(), &token_x(), 1_000));
    assert!(ledger.mint_to(&taker(), &token_y(), 70));
    ledger
}

fn escrow_of(maker: &Address, seed: u64) -> (Address, u8) {
    derivation::derive(maker, seed).expect("an address is derived")
}

#[test]
fn open_locks_the_deposit_in_the_vault() {
    let mut ledger = ledger();
    let (escrow, bump) = escrow_of(&maker(), 7);
    assert_eq!(make(&mut ledger, &maker(), &token_x(), &token_y(), 7, 100, 50), Ok(()));
    assert_eq!(ledger.balance(&maker(), &token_x()), 900);
    assert_eq!(ledger.vault(&escrow), Some(100));
    assert_eq!(ledger.balance(&escrow, &token_x()), 100);
    assert_eq!(
        ledger.escrow(&escrow),
        Some(Escrow {
            seed: 7,
            maker: maker(),
            mint_a: token_x(),
            mint_b: token_y(),
            receive: 50,
            bump,
        })
    );
    // The maker paid for the custody account at setup, and now for the vault
    // and the record.
    assert_eq!(ledger.lamports(&maker()), 1_000 - 3 - 3 - 5);
}

#[test]
fn fulfill_swaps_the_assets_and_closes_the_escrow() {
    let mut ledger = ledger();
    let (escrow, _) = escrow_of(&maker(), 7);
    assert_eq!(make(&mut ledger, &maker(), &token_x(), &token_y(), 7, 100, 50), Ok(()));
    assert_eq!(
        take(&mut ledger, &taker(), &maker(), &token_x(), &token_y(), &escrow),
        Ok(())
    );
    assert_eq!(ledger.balance(&taker(), &token_x()), 100);
    assert_eq!(ledger.balance(&taker(), &token_y()), 20);
    assert_eq!(ledger.balance(&maker(), &token_y()), 50);
    assert_eq!(ledger.balance(&maker(), &token_x()), 900);
    assert_eq!(ledger.escrow(&escrow), None);
    assert_eq!(ledger.vault(&escrow), None);
    assert_eq!(ledger.balance(&escrow, &token_x()), 0);
    // The maintenance balances of vault and record went back to the maker;
    // the taker paid for the two accounts that were missing.
    assert_eq!(ledger.lamports(&maker()), 1_000 - 3);
    assert_eq!(ledger.lamports(&taker()), 1_000 - 3 - 3 - 3);
}

#[test]
fn open_twice_is_rejected() {
    let mut ledger = ledger();
    assert_eq!(make(&mut ledger, &maker(), &token_x(), &token_y(), 7, 100, 50), Ok(()));
    assert_eq!(
        make(&mut ledger, &maker(), &token_x(), &token_y(), 7, 100, 50),
        Err(EscrowError::AlreadyExists)
    );
    assert_eq!(ledger.balance(&maker(), &token_x()), 900);
    // Another seed gives another escrow.
    assert_eq!(make(&mut ledger, &maker(), &token_x(), &token_y(), 8, 100, 50), Ok(()));
    assert_eq!(ledger.balance(&maker(), &token_x()), 800);
}

#[test]
fn cancel_returns_the_deposit_and_removes_the_record() {
    let mut ledger = ledger();
    let (escrow, _) = escrow_of(&maker(), 7);
    assert_eq!(make(&mut ledger, &maker(), &token_x(), &token_y(), 7, 100, 50), Ok(()));
    assert_eq!(refund(&mut ledger, &maker(), &token_x(), &escrow), Ok(()));
    assert_eq!(ledger.balance(&maker(), &token_x()), 1_000);
    assert_eq!(ledger.escrow(&escrow), None);
    assert_eq!(ledger.vault(&escrow), None);
    assert_eq!(ledger.lamports(&maker()), 1_000 - 3);
    assert_eq!(
        take(&mut ledger, &taker(), &maker(), &token_x(), &token_y(), &escrow),
        Err(EscrowError::NotFound)
    );
    assert_eq!(ledger.balance(&taker(), &token_y()), 70);
}
