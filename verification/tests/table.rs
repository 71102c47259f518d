use escrow::accounts::TokenKey;
use escrow::address::Address;
use escrow::table::Key;
use escrow::table::Table;

fn address(byte: u8) -> Address {
    Address::new([byte; 32])
}

#[test]
fn table_keeps_one_value_per_key() {
    let mut table: Table<Address, u64> = Table::new();
    assert_eq!(table.get(&address(1)), None);
    assert!(!table.contains(&address(1)));
    table.insert(address(1), 10);
    table.insert(address(2), 20);
    assert_eq!(table.get(&address(1)), Some(10));
    assert_eq!(table.get(&address(2)), Some(20));
    table.insert(address(1), 11);
    assert_eq!(table.get(&address(1)), Some(11));
    assert_eq!(table.get(&address(2)), Some(20));
    assert!(table.contains(&address(2)));
}

#[test]
fn table_removes_only_the_key_named() {
    let mut table: Table<Address, u64> = Table::new();
    table.insert(address(1), 10);
    table.insert(address(2), 20);
    table.insert(address(3), 30);
    table.remove(&address(2));
    assert_eq!(table.get(&address(1)), Some(10));
    assert_eq!(table.get(&address(2)), None);
    assert_eq!(table.get(&address(3)), Some(30));
    table.remove(&address(9));
    assert_eq!(table.get(&address(1)), Some(10));
    assert_eq!(table.get(&address(3)), Some(30));
}

#[test]
fn table_snapshot_is_independent() {
    let mut table: Table<Address, u64> = Table::new();
    table.insert(address(1), 10);
    let copy = table.snapshot();
    table.insert(address(1), 11);
    table.insert(address(2), 20);
    assert_eq!(copy.get(&address(1)), Some(10));
    assert_eq!(copy.get(&address(2)), None);
    assert_eq!(table.get(&address(1)), Some(11));
}

#[test]
fn keys_compare_by_all_their_bytes() {
    let mut bytes = [7u8; 32];
    let first = Address::new(bytes);
    bytes[31] = 8;
    let last_differs = Address::new(bytes);
    assert!(first.same(&first));
    assert!(!first.same(&last_differs));
    assert!(first == first);
    assert!(first != last_differs);
    assert!(first == Address::new([7u8; 32]));
    let mut first_differs = [7u8; 32];
    first_differs[0] = 6;
    assert!(first != Address::new(first_differs));
    let key = TokenKey { owner: first, mint: last_differs };
    assert!(key.same(&TokenKey { owner: first, mint: last_differs }));
    assert!(!key.same(&TokenKey { owner: last_differs, mint: last_differs }));
    assert!(!key.same(&TokenKey { owner: first, mint: first }));
    assert!(key == TokenKey { owner: first, mint: last_differs });
}
