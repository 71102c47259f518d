use anchor_lang::prelude::borsh;
use anchor_lang::prelude::Pubkey;
use escrow::address::Address;
use escrow::state::escrow::Escrow;

fn sample() -> Escrow {
    Escrow {
        seed: 7,
        maker: Address::new([1; 32]),
        mint_a: Address::new([2; 32]),
        mint_b: Address::new([3; 32]),
        receive: 0x0102,
        bump: 254,
    }
}

#[test]
fn record_layout_is_fixed_width() {
    let bytes = sample().to_bytes();
    assert_eq!(bytes.len(), 113);
    assert_eq!(bytes.len(), Escrow::INIT_SPACE);
    assert_eq!(&bytes[0..8], &[7u8, 0, 0, 0, 0, 0, 0, 0]);
    assert_eq!(&bytes[8..40], &[1u8; 32]);
    assert_eq!(&bytes[40..72], &[2u8; 32]);
    assert_eq!(&bytes[72..104], &[3u8; 32]);
    assert_eq!(&bytes[104..112], &[2u8, 1, 0, 0, 0, 0, 0, 0]);
    assert_eq!(bytes[112], 254);
}

#[test]
fn record_is_read_back_from_its_layout() {
    let bytes = sample().to_bytes();
    assert_eq!(Escrow::from_bytes(&bytes), Some(sample()));
}

#[test]
fn record_of_another_length_is_not_read() {
    let bytes = sample().to_bytes();
    assert_eq!(Escrow::from_bytes(&bytes[..112]), None);
    assert_eq!(Escrow::from_bytes(&[]), None);
    let mut longer = bytes.clone();
    longer.push(0);
    assert_eq!(Escrow::from_bytes(&longer), None);
}

#[test]
fn every_layout_of_the_right_length_is_a_record() {
    let bytes: Vec<u8> = (0..113u8).collect();
    let record = Escrow::from_bytes(&bytes).unwrap();
    assert_eq!(record.seed, u64::from_le_bytes([0, 1, 2, 3, 4, 5, 6, 7]));
    assert_eq!(record.maker.to_bytes()[0], 8);
    assert_eq!(record.mint_a.to_bytes()[0], 40);
    assert_eq!(record.mint_b.to_bytes()[31], 103);
    assert_eq!(record.receive, u64::from_le_bytes([104, 105, 106, 107, 108, 109, 110, 111]));
    assert_eq!(record.bump, 112);
    assert_eq!(record.to_bytes(), bytes);
}

#[test]
fn records_compare_by_their_terms() {
    let mut other = sample();
    assert!(sample() == other);
    other.receive = 1;
    assert!(sample() != other);
    other = sample();
    other.seed = 8;
    assert!(sample() != other);
    other = sample();
    other.maker = Address::new([9; 32]);
    assert!(sample() != other);
    other = sample();
    other.mint_a = Address::new([9; 32]);
    assert!(sample() != other);
    other = sample();
    other.mint_b = Address::new([9; 32]);
    assert!(sample() != other);
    other = sample();
    other.bump = 0;
    assert!(sample() != other);
    assert_eq!(
        Escrow::new(7, Address::new([1; 32]), Address::new([2; 32]), Address::new([3; 32]), 0x0102, 254),
        sample()
    );
}

#[test]
fn record_layout_is_the_field_by_field_encoding() {
    let fields = (
        7u64,
        Pubkey::new_from_array([1; 32]),
        Pubkey::new_from_array([2; 32]),
        Pubkey::new_from_array([3; 32]),
        0x0102u64,
        254u8,
    );
    assert_eq!(sample().to_bytes(), borsh::to_vec(&fields).unwrap());
}
