use escrow::accounts::Rent;
use escrow::accounts::TokenAccount;
use escrow::accounts::TokenKey;
use escrow::address::Address;
use escrow::bank::Bank;
use escrow::error::EscrowError;
use escrow::vault;

fn address(byte: u8) -> Address {
    Address::new([byte; 32])
}

fn alice() -> Address {
    address(1)
}

fn bob() -> Address {
    address(2)
}

fn authority() -> Address {
    address(77)
}

fn gold() -> Address {
    address(10)
}

fn silver() -> Address {
    address(11)
}

fn key(owner: Address, mint: Address) -> TokenKey {
    TokenKey { owner, mint }
}

fn amount(bank: &Bank, owner: Address, mint: Address) -> Option<u64> {
    bank.token(&key(owner, mint)).map(|account| account.amount)
}

fn bank() -> Bank {
    let mut bank = Bank::new(Rent { token_account: 3, escrow: 5 });
    assert!(bank.create_wallet(&alice(), 100));
    assert!(bank.create_wallet(&bob(), 100));
    assert!(bank.create_mint(&gold(), 6));
    assert!(bank.create_mint(&silver(), 9));
    assert_eq!(bank.create_token_account(&alice(), &key(alice(), gold())), Ok(()));
    assert_eq!(bank.create_token_account(&bob(), &key(bob(), gold())), Ok(()));
    assert!(bank.mint_to(&key(alice(), gold()), 500));
    bank
}

#[test]
fn opening_a_vault_pulls_the_amount_into_it() {
    let mut bank = bank();
    let handle = vault::open(&mut bank, &authority(), &gold(), &key(alice(), gold()), 100);
    assert_eq!(handle, Ok(key(authority(), gold())));
    assert_eq!(
        bank.token(&key(authority(), gold())),
        Some(TokenAccount { amount: 100, lamports: 3 })
    );
    assert_eq!(amount(&bank, alice(), gold()), Some(400));
    assert_eq!(bank.lamports(&alice()), Some(94));
}

#[test]
fn opening_a_vault_is_rejected() {
    let mut bank = bank();
    assert_eq!(
        vault::open(&mut bank, &authority(), &silver(), &key(alice(), gold()), 100),
        Err(EscrowError::AssetMismatch)
    );
    assert_eq!(
        vault::open(&mut bank, &authority(), &gold(), &key(alice(), gold()), 501),
        Err(EscrowError::InsufficientFunds)
    );
    assert_eq!(
        vault::open(&mut bank, &authority(), &silver(), &key(alice(), silver()), 0),
        Err(EscrowError::InsufficientFunds)
    );
    // The place of the vault is taken.
    assert_eq!(
        vault::open(&mut bank, &bob(), &gold(), &key(alice(), gold()), 100),
        Err(EscrowError::AlreadyExists)
    );
    assert_eq!(amount(&bank, alice(), gold()), Some(500));
    assert_eq!(bank.lamports(&alice()), Some(97));
    assert_eq!(bank.token(&key(authority(), gold())), None);
    // The owner of the source cannot pay for the account.
    let mut poor = Bank::new(Rent { token_account: 3, escrow: 5 });
    assert!(poor.create_wallet(&alice(), 5));
    assert!(poor.create_mint(&gold(), 6));
    assert_eq!(poor.create_token_account(&alice(), &key(alice(), gold())), Ok(()));
    assert!(poor.mint_to(&key(alice(), gold()), 500));
    assert_eq!(
        vault::open(&mut poor, &authority(), &gold(), &key(alice(), gold()), 100),
        Err(EscrowError::InsufficientFunds)
    );
    assert_eq!(amount(&poor, alice(), gold()), Some(500));
    assert_eq!(poor.lamports(&alice()), Some(2));
}

#[test]
fn draining_a_vault_moves_all_of_it_and_destroys_it() {
    let mut bank = bank();
    assert!(vault::open(&mut bank, &authority(), &gold(), &key(alice(), gold()), 100).is_ok());
    let drained = vault::drain(
        &mut bank,
        &key(authority(), gold()),
        &key(bob(), gold()),
        &alice(),
        Some(authority()),
    );
    assert_eq!(drained, Ok(100));
    assert_eq!(bank.token(&key(authority(), gold())), None);
    assert_eq!(amount(&bank, bob(), gold()), Some(100));
    assert_eq!(amount(&bank, alice(), gold()), Some(400));
    assert_eq!(bank.lamports(&alice()), Some(97));
    assert_eq!(bank.lamports(&bob()), Some(97));
}

#[test]
fn draining_an_empty_vault_destroys_it() {
    let mut bank = bank();
    assert!(vault::open(&mut bank, &authority(), &gold(), &key(alice(), gold()), 0).is_ok());
    let drained = vault::drain(
        &mut bank,
        &key(authority(), gold()),
        &key(alice(), gold()),
        &bob(),
        Some(authority()),
    );
    assert_eq!(drained, Ok(0));
    assert_eq!(bank.token(&key(authority(), gold())), None);
    assert_eq!(amount(&bank, alice(), gold()), Some(500));
    assert_eq!(bank.lamports(&bob()), Some(100));
}

#[test]
fn draining_a_vault_is_rejected() {
    let mut bank = bank();
    let vault_key = key(authority(), gold());
    assert_eq!(
        vault::drain(&mut bank, &vault_key, &key(bob(), gold()), &alice(), Some(authority())),
        Err(EscrowError::NotFound)
    );
    assert!(vault::open(&mut bank, &authority(), &gold(), &key(alice(), gold()), 100).is_ok());
    assert_eq!(
        vault::drain(&mut bank, &vault_key, &key(bob(), gold()), &alice(), None),
        Err(EscrowError::AuthorityMismatch)
    );
    assert_eq!(
        vault::drain(&mut bank, &vault_key, &key(bob(), gold()), &alice(), Some(bob())),
        Err(EscrowError::AuthorityMismatch)
    );
    assert_eq!(
        vault::drain(&mut bank, &vault_key, &vault_key, &alice(), Some(authority())),
        Err(EscrowError::AuthorityMismatch)
    );
    assert_eq!(
        vault::drain(&mut bank, &vault_key, &key(bob(), silver()), &alice(), Some(authority())),
        Err(EscrowError::AssetMismatch)
    );
    assert_eq!(
        vault::drain(&mut bank, &vault_key, &key(address(50), gold()), &alice(), Some(authority())),
        Err(EscrowError::NotFound)
    );
    assert_eq!(
        vault::drain(&mut bank, &vault_key, &key(bob(), gold()), &address(50), Some(authority())),
        Err(EscrowError::NotFound)
    );
    assert_eq!(amount(&bank, authority(), gold()), Some(100));
    assert_eq!(amount(&bank, bob(), gold()), Some(0));
    assert_eq!(bank.lamports(&alice()), Some(94));
}

#[test]
fn funding_request_goes_from_the_source_to_the_vault() {
    let request = vault::funding(&key(authority(), gold()), &key(alice(), gold()), 100, 6);
    assert_eq!(request.from, key(alice(), gold()));
    assert_eq!(request.mint, gold());
    assert_eq!(request.to, key(authority(), gold()));
    assert_eq!(request.authority, alice());
    assert_eq!(request.amount, 100);
    assert_eq!(request.decimals, 6);
}

#[test]
fn release_requests_empty_and_close_the_vault() {
    let (transfer, close) =
        vault::release(&key(authority(), gold()), &key(bob(), gold()), &alice(), 100, 6);
    assert_eq!(transfer.from, key(authority(), gold()));
    assert_eq!(transfer.mint, gold());
    assert_eq!(transfer.to, key(bob(), gold()));
    assert_eq!(transfer.authority, authority());
    assert_eq!(transfer.amount, 100);
    assert_eq!(transfer.decimals, 6);
    assert_eq!(close.account, key(authority(), gold()));
    assert_eq!(close.destination, alice());
    assert_eq!(close.authority, authority());
}

#[test]
fn requests_are_what_open_and_drain_carry_out() {
    // Carrying the requests out by hand leaves the bank as `open` and
    // `drain` leave it.
    let mut by_hand = bank();
    let vault_key = key(authority(), gold());
    assert_eq!(by_hand.create_token_account(&alice(), &vault_key), Ok(()));
    let fill = vault::funding(&vault_key, &key(alice(), gold()), 100, 6);
    assert_eq!(by_hand.transfer_checked(&fill, &alice()), Ok(()));
    let mut opened = bank();
    assert_eq!(vault::open(&mut opened, &authority(), &gold(), &key(alice(), gold()), 100), Ok(vault_key));
    assert_eq!(by_hand.token(&vault_key), opened.token(&vault_key));
    assert_eq!(amount(&by_hand, alice(), gold()), amount(&opened, alice(), gold()));
    assert_eq!(by_hand.lamports(&alice()), opened.lamports(&alice()));

    let (transfer, close) = vault::release(&vault_key, &key(bob(), gold()), &alice(), 100, 6);
    assert_eq!(by_hand.transfer_checked(&transfer, &authority()), Ok(()));
    assert_eq!(by_hand.close_account(&close, &authority()), Ok(()));
    assert_eq!(
        vault::drain(&mut opened, &vault_key, &key(bob(), gold()), &alice(), Some(authority())),
        Ok(100)
    );
    assert_eq!(by_hand.token(&vault_key), None);
    assert_eq!(opened.token(&vault_key), None);
    assert_eq!(amount(&by_hand, bob(), gold()), amount(&opened, bob(), gold()));
    assert_eq!(by_hand.lamports(&alice()), opened.lamports(&alice()));
}
