//! Behavioural tests for the block-state registry.

use block_registry::{BlockHash, BlockStorage, Storage};

fn hash(n: u8) -> BlockHash {
    BlockHash::from_bytes([n; 32])
}

#[test]
fn unknown_hash_reads_absent() {
    let mut storage = Storage::empty();
    let h = hash(1);
    let b = storage.block(&h);
    assert!(b.storage(&storage).is_none());
}

#[test]
fn accessor_creates_only_an_empty_slot() {
    let mut storage = Storage::empty();
    let h = hash(2);
    // Access twice: the second access sees the slot the first one created,
    // still without any installed state.
    let b1 = storage.block(&h);
    assert!(b1.storage(&storage).is_none());
    let b2 = storage.block(&h);
    assert!(b2.storage(&storage).is_none());
}

#[test]
fn publish_then_read_back() {
    let mut storage = Storage::empty();
    let h1 = hash(0x11);
    let mut s1 = BlockStorage::empty();
    s1.insert(b":code".to_vec(), vec![0xAA, 0xBB]);

    let b = storage.block(&h1);
    assert!(b.set_storage(&mut storage, s1).is_ok());

    let b = storage.block(&h1);
    let snap = b.storage(&storage).expect("installed state must be visible");
    assert_eq!(snap.code_key(), Some(&vec![0xAA, 0xBB]));

    // A distinct, never-touched hash stays absent.
    let h2 = hash(0x22);
    let b2 = storage.block(&h2);
    assert!(b2.storage(&storage).is_none());
}

#[test]
fn published_content_matches_what_was_built() {
    let mut storage = Storage::empty();
    let h = hash(3);
    let mut s = BlockStorage::empty();
    s.insert(vec![1, 2, 3], vec![4, 5]);
    s.insert(vec![9], vec![]);

    let b = storage.block(&h);
    b.set_storage(&mut storage, s).unwrap();

    let snap = storage.block(&h).storage(&storage).unwrap();
    assert_eq!(snap.get(&vec![1, 2, 3]), Some(&vec![4, 5]));
    assert_eq!(snap.get(&vec![9]), Some(&vec![]));
    assert_eq!(snap.get(&vec![1, 2]), None);
}

#[test]
fn repeated_reads_observe_the_same_snapshot() {
    let mut storage = Storage::empty();
    let h = hash(4);
    let mut s = BlockStorage::empty();
    s.insert(vec![7], vec![8]);
    storage.block(&h).set_storage(&mut storage, s).unwrap();

    let first = storage.block(&h).storage(&storage).unwrap();
    let second = storage.block(&h).storage(&storage).unwrap();
    // Both reads hand out the very same shared snapshot, not a copy.
    assert!(std::sync::Arc::ptr_eq(&first, &second));
    assert_eq!(first.get(&vec![7]), second.get(&vec![7]));
}

#[test]
fn code_key_reads_last_insert_under_code() {
    let mut s = BlockStorage::empty();
    assert!(s.code_key().is_none());
    s.insert(b":code".to_vec(), vec![1]);
    assert_eq!(s.code_key(), Some(&vec![1]));
    // The last write wins.
    s.insert(b":code".to_vec(), vec![2, 3]);
    assert_eq!(s.code_key(), Some(&vec![2, 3]));
    // Writes under other keys do not disturb it.
    s.insert(b":heappages".to_vec(), vec![0]);
    assert_eq!(s.code_key(), Some(&vec![2, 3]));
}

#[test]
fn code_key_absent_when_never_inserted() {
    let mut s = BlockStorage::empty();
    s.insert(b"code".to_vec(), vec![1]);
    s.insert(b":cod".to_vec(), vec![2]);
    assert!(s.code_key().is_none());
}

#[test]
fn child_tries_are_isolated() {
    let mut s = BlockStorage::empty();
    s.child_insert(b"c1".to_vec(), b"key".to_vec(), vec![1]);

    // Visible in c1 only.
    assert_eq!(s.child_get(&b"c1".to_vec(), &b"key".to_vec()), Some(&vec![1]));
    assert_eq!(s.child_get(&b"c2".to_vec(), &b"key".to_vec()), None);
    assert_eq!(s.get(&b"key".to_vec()), None);

    // A top-level write under the same key does not leak into any child.
    s.insert(b"key".to_vec(), vec![9]);
    assert_eq!(s.get(&b"key".to_vec()), Some(&vec![9]));
    assert_eq!(s.child_get(&b"c1".to_vec(), &b"key".to_vec()), Some(&vec![1]));
    assert_eq!(s.child_get(&b"c2".to_vec(), &b"key".to_vec()), None);
}

#[test]
fn children_do_not_collide_with_each_other() {
    let mut s = BlockStorage::empty();
    s.child_insert(b"c1".to_vec(), b"k".to_vec(), vec![1]);
    s.child_insert(b"c2".to_vec(), b"k".to_vec(), vec![2]);
    assert_eq!(s.child_get(&b"c1".to_vec(), &b"k".to_vec()), Some(&vec![1]));
    assert_eq!(s.child_get(&b"c2".to_vec(), &b"k".to_vec()), Some(&vec![2]));
}

#[test]
fn snapshot_clone_is_isolated_from_later_builds() {
    let mut storage = Storage::empty();
    let h = hash(5);
    let mut s1 = BlockStorage::empty();
    s1.insert(b":code".to_vec(), vec![0xAA]);
    storage.block(&h).set_storage(&mut storage, s1).unwrap();

    // Take a shared clone of the published snapshot.
    let old_snap = storage.block(&h).storage(&storage).unwrap();

    // Build different content and republish it, for the same hash and for
    // another hash.
    let mut s2 = BlockStorage::empty();
    s2.insert(b":code".to_vec(), vec![0xBB]);
    storage.block(&h).set_storage(&mut storage, s2).unwrap();
    let mut s3 = BlockStorage::empty();
    s3.insert(b":code".to_vec(), vec![0xCC]);
    let other = hash(6);
    storage.block(&other).set_storage(&mut storage, s3).unwrap();

    // The clone taken earlier still reads the content it was taken with.
    assert_eq!(old_snap.code_key(), Some(&vec![0xAA]));
    // The registry itself now answers with the latest content.
    let new_snap = storage.block(&h).storage(&storage).unwrap();
    assert_eq!(new_snap.code_key(), Some(&vec![0xBB]));
}

#[test]
fn republication_is_last_write_wins() {
    let mut storage = Storage::empty();
    let h = hash(7);
    let mut s1 = BlockStorage::empty();
    s1.insert(vec![1], vec![1]);
    let mut s2 = BlockStorage::empty();
    s2.insert(vec![2], vec![2]);

    assert!(storage.block(&h).set_storage(&mut storage, s1).is_ok());
    assert!(storage.block(&h).set_storage(&mut storage, s2).is_ok());

    let snap = storage.block(&h).storage(&storage).unwrap();
    assert_eq!(snap.get(&vec![1]), None);
    assert_eq!(snap.get(&vec![2]), Some(&vec![2]));
}

#[test]
fn installs_are_isolated_per_hash() {
    let mut storage = Storage::empty();
    let h1 = hash(8);
    let h2 = hash(9);
    let mut s1 = BlockStorage::empty();
    s1.insert(vec![1], vec![10]);
    let mut s2 = BlockStorage::empty();
    s2.insert(vec![1], vec![20]);
    storage.block(&h1).set_storage(&mut storage, s1).unwrap();
    storage.block(&h2).set_storage(&mut storage, s2).unwrap();

    let snap1 = storage.block(&h1).storage(&storage).unwrap();
    let snap2 = storage.block(&h2).storage(&storage).unwrap();
    assert_eq!(snap1.get(&vec![1]), Some(&vec![10]));
    assert_eq!(snap2.get(&vec![1]), Some(&vec![20]));
}

#[test]
fn header_is_not_wired_in_yet() {
    let mut storage = Storage::empty();
    let b = storage.block(&hash(10));
    assert!(b.header().is_none());
}

#[test]
fn accessor_is_bound_to_its_hash() {
    let mut storage = Storage::empty();
    let h = hash(11);
    let b = storage.block(&h);
    assert_eq!(b.hash.bytes, [11; 32]);
}
