use tpixel::sparse_map::SparseMap;

#[test]
fn round_trip_insert_get() {
    let mut m: SparseMap<u64> = SparseMap::new();
    m.insert(3, 30);
    m.insert(7, 70);
    m.insert(11, 110);
    assert_eq!(*m.get(3), 30);
    assert_eq!(*m.get(7), 70);
    assert_eq!(*m.get(11), 110);
    assert!(m.contains_key(3));
    assert!(!m.contains_key(4));
    assert_eq!(m.len(), 3);
}

#[test]
fn round_trip_after_remove() {
    let mut m: SparseMap<u64> = SparseMap::new();
    m.insert(1, 10);
    m.insert(2, 20);
    m.insert(3, 30);
    m.remove(2);
    assert!(!m.contains_key(2));
    assert_eq!(*m.get(1), 10);
    assert_eq!(*m.get(3), 30);
    assert_eq!(m.len(), 2);
}

#[test]
fn insert_existing_key_overwrites_in_place() {
    let mut m: SparseMap<u64> = SparseMap::new();
    m.insert(5, 50);
    m.insert(6, 60);
    m.insert(5, 55);
    assert_eq!(m.len(), 2);
    assert_eq!(*m.get(5), 55);
    assert_eq!(*m.get(6), 60);
    assert_eq!(m.item_at(0).get_key(), 5);
}

#[test]
fn swap_removal_relocates_last_record() {
    let mut m: SparseMap<u64> = SparseMap::new();
    m.insert(1, 10);
    m.insert(2, 20);
    m.insert(3, 30);
    m.remove(1);
    // The dense-last record (key 3) moved into the vacated slot 0.
    assert_eq!(m.item_at(0).get_key(), 3);
    assert_eq!(m.item_at(0).value, 30);
    assert_eq!(m.item_at(1).get_key(), 2);
    // The relocated key still answers with its original value.
    assert_eq!(*m.get(3), 30);
    assert_eq!(*m.get(2), 20);
}

#[test]
fn remove_last_record_needs_no_relocation() {
    let mut m: SparseMap<u64> = SparseMap::new();
    m.insert(1, 10);
    m.insert(2, 20);
    m.remove(2);
    assert_eq!(m.len(), 1);
    assert_eq!(m.item_at(0).get_key(), 1);
    assert_eq!(*m.get(1), 10);
}

#[test]
fn remove_only_record_empties_the_store() {
    let mut m: SparseMap<u64> = SparseMap::new();
    m.insert(9, 90);
    m.remove(9);
    assert_eq!(m.len(), 0);
    assert!(!m.contains_key(9));
    m.insert(9, 91);
    assert_eq!(*m.get(9), 91);
}

#[test]
fn get_mut_rewrites_value_in_place() {
    let mut m: SparseMap<u64> = SparseMap::new();
    m.insert(4, 40);
    m.insert(8, 80);
    *m.get_mut(4) = 44;
    assert_eq!(*m.get(4), 44);
    assert_eq!(*m.get(8), 80);
    assert_eq!(m.item_at(0).get_key(), 4);
}

#[test]
fn dense_iteration_sees_every_record() {
    let mut m: SparseMap<u64> = SparseMap::new();
    m.insert(1, 100);
    m.insert(2, 200);
    m.insert(3, 300);
    let records = m.all_iter();
    let mut sum: u64 = 0;
    for rec in records.iter() {
        sum += rec.value;
    }
    assert_eq!(sum, 600);
}

#[test]
fn mutable_iteration_by_slot() {
    let mut m: SparseMap<u64> = SparseMap::new();
    m.insert(1, 1);
    m.insert(2, 2);
    m.insert(3, 3);
    let n = m.len();
    for i in 0..n {
        *m.all_iter_mut(i) *= 10;
    }
    assert_eq!(*m.get(1), 10);
    assert_eq!(*m.get(2), 20);
    assert_eq!(*m.get(3), 30);
}
