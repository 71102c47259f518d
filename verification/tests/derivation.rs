use anchor_lang::prelude::Pubkey;
use escrow::address::Address;
use escrow::derivation;

fn address(byte: u8) -> Address {
    Address::new([byte; 32])
}

fn program() -> Pubkey {
    Pubkey::from_str_const("F4AzBSfhz1ASmHzBX6ERbQJCK14GCEBzS6T6mv4CzXS1")
}

#[test]
fn derive_gives_the_same_pair_twice() {
    let maker = address(7);
    let first = derivation::derive(&maker, 7);
    let second = derivation::derive(&maker, 7);
    assert!(first.is_some());
    assert_eq!(first, second);
}

#[test]
fn derive_separates_seeds_and_makers() {
    let (first, _) = derivation::derive(&address(7), 7).unwrap();
    let (other_seed, _) = derivation::derive(&address(7), 8).unwrap();
    let (other_maker, _) = derivation::derive(&address(8), 7).unwrap();
    assert_ne!(first, other_seed);
    assert_ne!(first, other_maker);
    assert_ne!(first, address(7));
}

#[test]
fn program_id_is_the_declared_one() {
    assert_eq!(derivation::id().to_bytes(), program().to_bytes());
    assert_eq!(derivation::PROGRAM_ID, program().to_bytes());
}

#[test]
fn seeds_are_tag_maker_and_little_endian_seed() {
    let maker = address(9);
    let list = derivation::seeds(&maker, 0x0102_0304_0506_0708);
    assert_eq!(
        list,
        vec![
            b"escrow".to_vec(),
            vec![9u8; 32],
            vec![8u8, 7, 6, 5, 4, 3, 2, 1],
        ]
    );
    let signed = derivation::seeds_with_bump(&maker, 7, 254);
    assert_eq!(
        signed,
        vec![
            b"escrow".to_vec(),
            vec![9u8; 32],
            vec![7u8, 0, 0, 0, 0, 0, 0, 0],
            vec![254u8],
        ]
    );
}

#[test]
fn derive_agrees_with_the_program_address_of_the_seeds() {
    let maker = address(3);
    let seed: u64 = 42;
    let (expected, expected_bump) = Pubkey::find_program_address(
        &[b"escrow", &maker.to_bytes(), &seed.to_le_bytes()],
        &program(),
    );
    let (found, bump) = derivation::derive(&maker, seed).unwrap();
    assert_eq!(found.to_bytes(), expected.to_bytes());
    assert_eq!(bump, expected_bump);
}

#[test]
fn the_proof_derives_the_address_again() {
    let maker = address(3);
    let (found, bump) = derivation::derive(&maker, 42).unwrap();
    assert_eq!(derivation::authority(&maker, 42, bump), Some(found));
    // Another seed or another maker derives something else, if anything.
    assert_ne!(derivation::authority(&maker, 43, bump), Some(found));
    assert_ne!(derivation::authority(&address(4), 42, bump), Some(found));
}

#[test]
fn authority_agrees_with_the_program_address_of_the_signer_seeds() {
    let maker = address(5);
    let seed: u64 = 1;
    for bump in [0u8, 1, 100, 254, 255] {
        let expected = Pubkey::create_program_address(
            &[b"escrow", &maker.to_bytes(), &seed.to_le_bytes(), &[bump]],
            &program(),
        )
        .ok()
        .map(|key| Address::new(key.to_bytes()));
        assert_eq!(derivation::authority(&maker, seed, bump), expected);
    }
}
