use claim_registry::bytes::{copy_bytes, same_bytes};
use claim_registry::table::ByteMap;
use claim_registry::types::{ClaimRecord, LockRecord};

#[test]
fn same_bytes_compares_length_and_content() {
    assert!(same_bytes(&vec![], &vec![]));
    assert!(same_bytes(&vec![1, 2, 3], &vec![1, 2, 3]));
    assert!(!same_bytes(&vec![1, 2, 3], &vec![1, 2]));
    assert!(!same_bytes(&vec![1, 2], &vec![1, 2, 3]));
    assert!(!same_bytes(&vec![1, 2, 3], &vec![1, 2, 4]));
    assert!(!same_bytes(&vec![0], &vec![]));
}

#[test]
fn copy_bytes_gives_the_same_bytes() {
    assert_eq!(copy_bytes(&vec![]), Vec::<u8>::new());
    assert_eq!(copy_bytes(&vec![9, 0, 255]), vec![9, 0, 255]);
}

#[test]
fn table_starts_empty() {
    let table: ByteMap<ClaimRecord> = ByteMap::new();
    assert!(!table.contains_key(&vec![]));
    assert!(!table.contains_key(&vec![1]));
    assert_eq!(table.get(&vec![1]), None);
}

#[test]
fn table_insert_then_get() {
    let mut table: ByteMap<ClaimRecord> = ByteMap::new();
    table.insert(vec![1], ClaimRecord { owner: 5, created_at: 6 });
    table.insert(vec![2], ClaimRecord { owner: 7, created_at: 8 });
    table.insert(vec![], ClaimRecord { owner: 9, created_at: 10 });
    assert!(table.contains_key(&vec![1]));
    assert!(table.contains_key(&vec![2]));
    assert!(table.contains_key(&vec![]));
    assert!(!table.contains_key(&vec![3]));
    assert_eq!(table.get(&vec![1]), Some(&ClaimRecord { owner: 5, created_at: 6 }));
    assert_eq!(table.get(&vec![2]), Some(&ClaimRecord { owner: 7, created_at: 8 }));
    assert_eq!(table.get(&vec![]), Some(&ClaimRecord { owner: 9, created_at: 10 }));
    assert_eq!(table.get(&vec![1, 2]), None);
}

#[test]
fn table_insert_replaces_the_value_of_a_key() {
    let mut table: ByteMap<LockRecord> = ByteMap::new();
    table.insert(vec![1], LockRecord { holder: 1, secret: vec![10] });
    table.insert(vec![2], LockRecord { holder: 2, secret: vec![20] });
    table.insert(vec![1], LockRecord { holder: 3, secret: vec![30] });
    assert_eq!(table.get(&vec![1]), Some(&LockRecord { holder: 3, secret: vec![30] }));
    assert_eq!(table.get(&vec![2]), Some(&LockRecord { holder: 2, secret: vec![20] }));
    table.remove(&vec![1]);
    assert_eq!(table.get(&vec![1]), None);
}

#[test]
fn table_remove_takes_one_key_out() {
    let mut table: ByteMap<ClaimRecord> = ByteMap::new();
    table.insert(vec![1], ClaimRecord { owner: 1, created_at: 1 });
    table.insert(vec![2], ClaimRecord { owner: 2, created_at: 2 });
    table.insert(vec![3], ClaimRecord { owner: 3, created_at: 3 });
    table.remove(&vec![2]);
    assert!(!table.contains_key(&vec![2]));
    assert_eq!(table.get(&vec![1]), Some(&ClaimRecord { owner: 1, created_at: 1 }));
    assert_eq!(table.get(&vec![3]), Some(&ClaimRecord { owner: 3, created_at: 3 }));
    table.remove(&vec![2]);
    table.remove(&vec![9]);
    assert_eq!(table.get(&vec![1]), Some(&ClaimRecord { owner: 1, created_at: 1 }));
    assert_eq!(table.get(&vec![3]), Some(&ClaimRecord { owner: 3, created_at: 3 }));
    table.insert(vec![2], ClaimRecord { owner: 4, created_at: 4 });
    assert_eq!(table.get(&vec![2]), Some(&ClaimRecord { owner: 4, created_at: 4 }));
}
