use escrow::accounts::Mint;
use escrow::accounts::Rent;
use escrow::accounts::TokenAccount;
use escrow::accounts::TokenKey;
use escrow::address::Address;
use escrow::bank::Bank;
use escrow::error::EscrowError;
use escrow::instruction::CloseAccount;
use escrow::instruction::TransferChecked;
use escrow::state::escrow::Escrow;

fn address(byte: u8) -> Address {
    Address::new([byte; 32])
}

fn alice() -> Address {
    address(1)
}

fn bob() -> Address {
    address(2)
}

fn gold() -> Address {
    address(10)
}

fn silver() -> Address {
    address(11)
}

fn key(owner: Address, mint: Address) -> TokenKey {
    TokenKey { owner, mint }
}

fn amount(bank: &Bank, owner: Address, mint: Address) -> Option<u64> {
    bank.token(&key(owner, mint)).map(|account| account.amount)
}

/// Alice holds 500 gold, Bob has an empty gold account; accounts cost 3.
fn bank() -> Bank {
    let mut bank = Bank::new(Rent { token_account: 3, escrow: 5 });
    assert!(bank.create_wallet(&alice(), 100));
    assert!(bank.create_wallet(&bob(), 100));
    assert!(bank.create_mint(&gold(), 6));
    assert!(bank.create_mint(&silver(), 9));
    assert_eq!(bank.create_token_account(&alice(), &key(alice(), gold())), Ok(()));
    assert_eq!(bank.create_token_account(&bob(), &key(bob(), gold())), Ok(()));
    assert!(bank.mint_to(&key(alice(), gold()), 500));
    bank
}

fn transfer(from: Address, to: Address, amount: u64) -> TransferChecked {
    TransferChecked {
        from: key(from, gold()),
        mint: gold(),
        to: key(to, gold()),
        authority: from,
        amount,
        decimals: 6,
    }
}

#[test]
fn new_bank_is_empty() {
    let rent = Rent { token_account: 3, escrow: 5 };
    let bank = Bank::new(rent);
    assert_eq!(bank.rent(), rent);
    assert_eq!(bank.lamports(&alice()), None);
    assert_eq!(bank.mint(&gold()), None);
    assert_eq!(bank.token(&key(alice(), gold())), None);
    assert!(bank.escrow(&alice()).is_none());
}

#[test]
fn wallets_are_opened_once_and_fit_the_capital() {
    let mut bank = Bank::new(Rent { token_account: 0, escrow: 0 });
    assert!(bank.create_wallet(&alice(), u64::MAX - 1));
    assert!(!bank.create_wallet(&alice(), 0));
    assert!(!bank.create_wallet(&bob(), 2));
    assert_eq!(bank.lamports(&bob()), None);
    assert!(bank.create_wallet(&bob(), 1));
    assert_eq!(bank.lamports(&alice()), Some(u64::MAX - 1));
    assert_eq!(bank.lamports(&bob()), Some(1));
}

#[test]
fn mints_are_registered_once() {
    let mut bank = Bank::new(Rent { token_account: 0, escrow: 0 });
    assert!(bank.create_mint(&gold(), 6));
    assert!(!bank.create_mint(&gold(), 7));
    assert_eq!(bank.mint(&gold()), Some(Mint { decimals: 6, supply: 0 }));
}

#[test]
fn creating_a_custody_account_costs_its_payer() {
    let mut bank = bank();
    assert_eq!(bank.lamports(&alice()), Some(97));
    assert_eq!(
        bank.token(&key(alice(), gold())),
        Some(TokenAccount { amount: 500, lamports: 3 })
    );
    // Bob pays for an account that Alice controls.
    assert_eq!(bank.create_token_account(&bob(), &key(alice(), silver())), Ok(()));
    assert_eq!(bank.lamports(&bob()), Some(94));
    assert_eq!(bank.lamports(&alice()), Some(97));
    assert_eq!(
        bank.token(&key(alice(), silver())),
        Some(TokenAccount { amount: 0, lamports: 3 })
    );
}

#[test]
fn creating_a_custody_account_is_rejected() {
    let mut bank = bank();
    assert_eq!(
        bank.create_token_account(&alice(), &key(alice(), gold())),
        Err(EscrowError::AlreadyExists)
    );
    assert_eq!(
        bank.create_token_account(&alice(), &key(alice(), address(99))),
        Err(EscrowError::AssetMismatch)
    );
    assert_eq!(
        bank.create_token_account(&address(50), &key(alice(), silver())),
        Err(EscrowError::InsufficientFunds)
    );
    let mut poor = Bank::new(Rent { token_account: 3, escrow: 5 });
    assert!(poor.create_wallet(&alice(), 2));
    assert!(poor.create_mint(&gold(), 6));
    assert_eq!(
        poor.create_token_account(&alice(), &key(alice(), gold())),
        Err(EscrowError::InsufficientFunds)
    );
    assert_eq!(poor.lamports(&alice()), Some(2));
    assert_eq!(poor.token(&key(alice(), gold())), None);
}

#[test]
fn ensure_creates_only_what_is_missing() {
    let mut bank = bank();
    assert_eq!(bank.ensure_token_account(&bob(), &key(alice(), gold())), Ok(()));
    assert_eq!(bank.lamports(&bob()), Some(97));
    assert_eq!(amount(&bank, alice(), gold()), Some(500));
    assert_eq!(bank.ensure_token_account(&bob(), &key(bob(), silver())), Ok(()));
    assert_eq!(bank.lamports(&bob()), Some(94));
    assert_eq!(amount(&bank, bob(), silver()), Some(0));
    assert_eq!(
        bank.ensure_token_account(&address(50), &key(address(50), silver())),
        Err(EscrowError::InsufficientFunds)
    );
}

#[test]
fn minting_adds_to_account_and_supply() {
    let mut bank = bank();
    assert_eq!(bank.mint(&gold()), Some(Mint { decimals: 6, supply: 500 }));
    assert!(bank.mint_to(&key(bob(), gold()), 7));
    assert_eq!(amount(&bank, bob(), gold()), Some(7));
    assert_eq!(bank.mint(&gold()), Some(Mint { decimals: 6, supply: 507 }));
    // No such account.
    assert!(!bank.mint_to(&key(bob(), silver()), 7));
    // The supply would not fit.
    assert!(!bank.mint_to(&key(bob(), gold()), u64::MAX - 506));
    assert!(bank.mint_to(&key(bob(), gold()), u64::MAX - 507));
    assert_eq!(bank.mint(&gold()), Some(Mint { decimals: 6, supply: u64::MAX }));
    assert_eq!(amount(&bank, bob(), gold()), Some(u64::MAX - 500));
}

#[test]
fn transfer_moves_exactly_the_amount() {
    let mut bank = bank();
    assert_eq!(bank.transfer_checked(&transfer(alice(), bob(), 120), &alice()), Ok(()));
    assert_eq!(amount(&bank, alice(), gold()), Some(380));
    assert_eq!(amount(&bank, bob(), gold()), Some(120));
    assert_eq!(bank.mint(&gold()), Some(Mint { decimals: 6, supply: 500 }));
    assert_eq!(bank.lamports(&alice()), Some(97));
    // All of it, and nothing.
    assert_eq!(bank.transfer_checked(&transfer(alice(), bob(), 380), &alice()), Ok(()));
    assert_eq!(bank.transfer_checked(&transfer(alice(), bob(), 0), &alice()), Ok(()));
    assert_eq!(amount(&bank, alice(), gold()), Some(0));
    assert_eq!(amount(&bank, bob(), gold()), Some(500));
}

#[test]
fn transfer_to_oneself_changes_nothing() {
    let mut bank = bank();
    assert_eq!(bank.transfer_checked(&transfer(alice(), alice(), 120), &alice()), Ok(()));
    assert_eq!(amount(&bank, alice(), gold()), Some(500));
    assert_eq!(
        bank.transfer_checked(&transfer(alice(), alice(), 501), &alice()),
        Err(EscrowError::InsufficientFunds)
    );
}

#[test]
fn transfer_between_full_accounts_cannot_overflow() {
    let mut bank = bank();
    assert!(bank.mint_to(&key(bob(), gold()), u64::MAX - 500));
    assert_eq!(bank.transfer_checked(&transfer(alice(), bob(), 500), &alice()), Ok(()));
    assert_eq!(amount(&bank, bob(), gold()), Some(u64::MAX));
    assert_eq!(amount(&bank, alice(), gold()), Some(0));
}

#[test]
fn transfer_is_rejected() {
    let mut bank = bank();
    let wrong_source = TransferChecked { from: key(alice(), silver()), ..transfer(alice(), bob(), 1) };
    assert_eq!(bank.transfer_checked(&wrong_source, &alice()), Err(EscrowError::AssetMismatch));
    let wrong_target = TransferChecked { to: key(bob(), silver()), ..transfer(alice(), bob(), 1) };
    assert_eq!(bank.transfer_checked(&wrong_target, &alice()), Err(EscrowError::AssetMismatch));
    let wrong_decimals = TransferChecked { decimals: 9, ..transfer(alice(), bob(), 1) };
    assert_eq!(bank.transfer_checked(&wrong_decimals, &alice()), Err(EscrowError::AssetMismatch));
    let unknown = TransferChecked {
        from: key(alice(), address(99)),
        mint: address(99),
        to: key(bob(), address(99)),
        ..transfer(alice(), bob(), 1)
    };
    assert_eq!(bank.transfer_checked(&unknown, &alice()), Err(EscrowError::AssetMismatch));
    assert_eq!(
        bank.transfer_checked(&transfer(address(50), bob(), 1), &address(50)),
        Err(EscrowError::InsufficientFunds)
    );
    assert_eq!(
        bank.transfer_checked(&transfer(alice(), address(50), 1), &alice()),
        Err(EscrowError::NotFound)
    );
    let not_the_owner = TransferChecked { authority: bob(), ..transfer(alice(), bob(), 1) };
    assert_eq!(bank.transfer_checked(&not_the_owner, &bob()), Err(EscrowError::AuthorityMismatch));
    assert_eq!(
        bank.transfer_checked(&transfer(alice(), bob(), 1), &bob()),
        Err(EscrowError::AuthorityMismatch)
    );
    assert_eq!(
        bank.transfer_checked(&transfer(alice(), bob(), 501), &alice()),
        Err(EscrowError::InsufficientFunds)
    );
    assert_eq!(amount(&bank, alice(), gold()), Some(500));
    assert_eq!(amount(&bank, bob(), gold()), Some(0));
}

#[test]
fn closing_hands_the_maintenance_balance_on() {
    let mut bank = bank();
    let close = CloseAccount { account: key(bob(), gold()), destination: alice(), authority: bob() };
    assert_eq!(bank.close_account(&close, &bob()), Ok(()));
    assert_eq!(bank.token(&key(bob(), gold())), None);
    assert_eq!(bank.lamports(&alice()), Some(100));
    assert_eq!(bank.lamports(&bob()), Some(97));
    assert_eq!(bank.close_account(&close, &bob()), Err(EscrowError::NotFound));
}

#[test]
fn closing_is_rejected() {
    let mut bank = bank();
    let close = CloseAccount { account: key(bob(), gold()), destination: alice(), authority: bob() };
    assert_eq!(bank.close_account(&close, &alice()), Err(EscrowError::AuthorityMismatch));
    let not_the_owner = CloseAccount { authority: alice(), ..close };
    assert_eq!(bank.close_account(&not_the_owner, &alice()), Err(EscrowError::AuthorityMismatch));
    let nowhere = CloseAccount { destination: address(50), ..close };
    assert_eq!(bank.close_account(&nowhere, &bob()), Err(EscrowError::NotFound));
    assert_eq!(amount(&bank, bob(), gold()), Some(0));
    assert_eq!(bank.lamports(&alice()), Some(97));
}

fn terms() -> Escrow {
    Escrow { seed: 7, maker: alice(), mint_a: gold(), mint_b: silver(), receive: 50, bump: 255 }
}

#[test]
fn records_are_created_once_at_a_free_address() {
    let mut bank = bank();
    let place = address(77);
    assert_eq!(bank.create_escrow(&alice(), &place, terms()), Ok(()));
    assert_eq!(bank.lamports(&alice()), Some(92));
    let stored = bank.escrow(&place).unwrap();
    assert_eq!(stored.data, terms());
    assert_eq!(stored.lamports, 5);
    assert_eq!(bank.create_escrow(&alice(), &place, terms()), Err(EscrowError::AlreadyExists));
    // A wallet occupies its address too, and an escrow occupies it for wallets.
    assert_eq!(bank.create_escrow(&alice(), &bob(), terms()), Err(EscrowError::AlreadyExists));
    assert!(!bank.create_wallet(&place, 0));
    assert_eq!(
        bank.create_escrow(&address(50), &address(78), terms()),
        Err(EscrowError::InsufficientFunds)
    );
    assert_eq!(bank.lamports(&alice()), Some(92));
}

#[test]
fn records_are_closed_in_favour_of_the_beneficiary() {
    let mut bank = bank();
    let place = address(77);
    assert_eq!(bank.close_escrow(&place, &bob()), Err(EscrowError::NotFound));
    assert_eq!(bank.create_escrow(&alice(), &place, terms()), Ok(()));
    assert_eq!(bank.close_escrow(&place, &address(50)), Err(EscrowError::NotFound));
    assert!(bank.escrow(&place).is_some());
    assert_eq!(bank.close_escrow(&place, &bob()), Ok(()));
    assert!(bank.escrow(&place).is_none());
    assert_eq!(bank.lamports(&bob()), Some(102));
    assert_eq!(bank.lamports(&alice()), Some(92));
    assert_eq!(bank.close_escrow(&place, &bob()), Err(EscrowError::NotFound));
}

#[test]
fn snapshot_is_independent() {
    let mut bank = bank();
    let copy = bank.snapshot();
    assert_eq!(bank.transfer_checked(&transfer(alice(), bob(), 120), &alice()), Ok(()));
    assert_eq!(amount(&copy, alice(), gold()), Some(500));
    assert_eq!(amount(&copy, bob(), gold()), Some(0));
    assert_eq!(copy.lamports(&alice()), Some(97));
    assert_eq!(copy.rent(), bank.rent());
}
