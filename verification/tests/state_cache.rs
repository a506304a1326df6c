use starknet_rs::errors::StateError;
use starknet_rs::felt::{Address, ClassHash, Felt, StorageEntry};
use starknet_rs::state::state_cache::StateCache;
use starknet_rs::vec_map::VecMap;
use std::collections::HashSet;

fn address(n: u64) -> Address {
    Address(Felt::from_u64(n))
}

fn class_hash(name: &[u8]) -> ClassHash {
    let mut hash = [0u8; 32];
    hash[..name.len()].copy_from_slice(name);
    hash
}

fn class_hashes(entries: &[(u64, &[u8])]) -> VecMap<Address, ClassHash> {
    let mut map = VecMap::new();
    for (a, name) in entries {
        map.insert(address(*a), class_hash(name));
    }
    map
}

fn nonces(entries: &[(u64, u64)]) -> VecMap<Address, Felt> {
    let mut map = VecMap::new();
    for (a, n) in entries {
        map.insert(address(*a), Felt::from_u64(*n));
    }
    map
}

fn storage(entries: &[((u64, [u8; 32]), u64)]) -> VecMap<StorageEntry, Felt> {
    let mut map = VecMap::new();
    for ((a, k), v) in entries {
        map.insert((address(*a), *k), Felt::from_u64(*v));
    }
    map
}

fn address_set(addresses: Vec<Address>) -> HashSet<Address> {
    let n = addresses.len();
    let set: HashSet<Address> = addresses.into_iter().collect();
    assert_eq!(set.len(), n);
    set
}

#[test]
fn state_chache_set_initial_values() {
    let mut state_cache = StateCache::new();
    let address_to_class_hash = class_hashes(&[(10, b"pedersen")]);
    let address_to_nonce = nonces(&[(9, 12)]);
    let storage_updates = storage(&[((20, [1; 32]), 18)]);
    assert!(state_cache
        .set_initial_values(&address_to_class_hash, &address_to_nonce, &storage_updates)
        .is_ok());

    assert!(state_cache.class_hash_writes.same_entries(&address_to_class_hash));
    assert!(state_cache.nonce_writes.same_entries(&address_to_nonce));
    assert!(state_cache.storage_writes.same_entries(&storage_updates));

    assert_eq!(
        address_set(state_cache.get_accessed_contract_addresses()),
        HashSet::from([address(10), address(9), address(20)])
    );
}

#[test]
fn state_chache_update_writes_from_other() {
    let mut state_cache = StateCache::new();
    let address_to_class_hash = class_hashes(&[(10, b"pedersen")]);
    let address_to_nonce = nonces(&[(9, 12)]);
    let storage_updates = storage(&[((20, [1; 32]), 18)]);
    state_cache
        .set_initial_values(&address_to_class_hash, &address_to_nonce, &storage_updates)
        .expect("Error setting StateCache values");

    let mut other_state_cache = StateCache::new();
    let other_address_to_class_hash = class_hashes(&[(10, b"sha-3")]);
    let other_address_to_nonce = nonces(&[(401, 100)]);
    let other_storage_updates = storage(&[((4002, [2; 32]), 101)]);
    other_state_cache
        .set_initial_values(
            &other_address_to_class_hash,
            &other_address_to_nonce,
            &other_storage_updates,
        )
        .expect("Error setting StateCache values");

    state_cache.update_writes_from_other(&other_state_cache);

    assert_eq!(
        state_cache.get_class_hash(&address(10)),
        Some(&class_hash(b"sha-3"))
    );
    assert!(state_cache
        .nonce_writes
        .same_entries(&nonces(&[(9, 12), (401, 100)])));
    assert!(state_cache.storage_writes.same_entries(&storage(&[
        ((20, [1; 32]), 18),
        ((4002, [2; 32]), 101)
    ])));
}

#[test]
fn priming_fills_what_was_first_observed_too() {
    let mut cache = StateCache::new();
    cache
        .set_initial_values(
            &class_hashes(&[(10, b"pedersen")]),
            &nonces(&[(9, 12)]),
            &storage(&[((20, [1; 32]), 18)]),
        )
        .unwrap();
    assert!(cache
        .class_hash_initial_values
        .same_entries(&class_hashes(&[(10, b"pedersen")])));
    assert!(cache.nonce_initial_values.same_entries(&nonces(&[(9, 12)])));
    assert!(cache
        .storage_initial_values
        .same_entries(&storage(&[((20, [1; 32]), 18)])));
}

#[test]
fn priming_twice_is_refused() {
    let mut cache = StateCache::new();
    cache
        .set_initial_values(&class_hashes(&[]), &nonces(&[(9, 12)]), &storage(&[]))
        .unwrap();
    let again = cache.set_initial_values(&class_hashes(&[]), &nonces(&[(9, 13)]), &storage(&[]));
    assert_eq!(again, Err(StateError::StateCacheAlreadyInitialized));
    assert_eq!(cache.get_nonce(&address(9)), Some(&Felt::from_u64(12)));
}

#[test]
fn priming_is_refused_once_any_map_holds_an_entry() {
    let empty_hashes = class_hashes(&[]);
    let empty_nonces = nonces(&[]);
    let empty_storage = storage(&[]);

    let mut touched = StateCache::new();
    touched.record_class_hash_initial(address(1), [7; 32]);
    assert!(touched.set_initial_values(&empty_hashes, &empty_nonces, &empty_storage).is_err());

    let mut touched = StateCache::new();
    touched.record_nonce_initial(address(1), Felt::from_u64(1));
    assert!(touched.set_initial_values(&empty_hashes, &empty_nonces, &empty_storage).is_err());

    let mut touched = StateCache::new();
    touched.record_storage_initial((address(1), [0; 32]), Felt::from_u64(1));
    assert!(touched.set_initial_values(&empty_hashes, &empty_nonces, &empty_storage).is_err());

    let mut touched = StateCache::new();
    touched.write_class_hash(address(1), [7; 32]);
    assert!(touched.set_initial_values(&empty_hashes, &empty_nonces, &empty_storage).is_err());

    let mut touched = StateCache::new();
    touched.write_nonce(address(1), Felt::from_u64(1));
    assert!(touched.set_initial_values(&empty_hashes, &empty_nonces, &empty_storage).is_err());

    let mut touched = StateCache::new();
    touched.write_storage((address(1), [0; 32]), Felt::from_u64(1));
    assert!(touched.set_initial_values(&empty_hashes, &empty_nonces, &empty_storage).is_err());

    let mut fresh = StateCache::new();
    assert!(fresh.set_initial_values(&empty_hashes, &empty_nonces, &empty_storage).is_ok());
}

#[test]
fn untouched_cell_is_not_cached() {
    let cache = StateCache::new();
    assert_eq!(cache.get_class_hash(&address(1)), None);
    assert_eq!(cache.get_nonce(&address(1)), None);
    assert_eq!(cache.get_storage(&(address(1), [0; 32])), None);
    assert!(cache.is_untouched());
}

#[test]
fn first_observation_stays() {
    let mut cache = StateCache::new();
    cache.record_nonce_initial(address(5), Felt::from_u64(1));
    cache.record_nonce_initial(address(5), Felt::from_u64(2));
    assert_eq!(cache.get_nonce(&address(5)), Some(&Felt::from_u64(1)));

    cache.record_class_hash_initial(address(5), [1; 32]);
    cache.record_class_hash_initial(address(5), [2; 32]);
    assert_eq!(cache.get_class_hash(&address(5)), Some(&[1; 32]));

    cache.record_storage_initial((address(5), [9; 32]), Felt::from_u64(3));
    cache.record_storage_initial((address(5), [9; 32]), Felt::from_u64(4));
    assert_eq!(cache.get_storage(&(address(5), [9; 32])), Some(&Felt::from_u64(3)));
}

#[test]
fn write_shadows_first_observation() {
    let mut cache = StateCache::new();
    cache.record_storage_initial((address(5), [9; 32]), Felt::from_u64(3));
    cache.write_storage((address(5), [9; 32]), Felt::from_u64(8));
    assert_eq!(cache.get_storage(&(address(5), [9; 32])), Some(&Felt::from_u64(8)));
    cache.record_storage_initial((address(5), [9; 32]), Felt::from_u64(4));
    assert_eq!(cache.get_storage(&(address(5), [9; 32])), Some(&Felt::from_u64(8)));
    assert!(cache
        .storage_initial_values
        .same_entries(&storage(&[((5, [9; 32]), 3)])));
}

#[test]
fn merging_children_in_order_lets_the_later_win() {
    let mut a = StateCache::new();
    a.write_storage((address(1), [1; 32]), Felt::from_u64(10));
    a.write_storage((address(1), [2; 32]), Felt::from_u64(20));
    a.write_nonce(address(1), Felt::from_u64(1));
    let mut b = StateCache::new();
    b.write_storage((address(1), [2; 32]), Felt::from_u64(21));
    b.write_storage((address(1), [3; 32]), Felt::from_u64(30));
    b.write_nonce(address(1), Felt::from_u64(2));

    let mut parent = StateCache::new();
    parent.write_storage((address(1), [1; 32]), Felt::from_u64(5));
    parent.record_storage_initial((address(1), [3; 32]), Felt::from_u64(99));

    let mut one_by_one = parent.clone();
    one_by_one.update_writes_from_other(&a);
    one_by_one.update_writes_from_other(&b);

    let mut overlaid = a.clone();
    overlaid.update_writes_from_other(&b);
    let mut at_once = parent.clone();
    at_once.update_writes_from_other(&overlaid);

    assert!(one_by_one.storage_writes.same_entries(&at_once.storage_writes));
    assert!(one_by_one.nonce_writes.same_entries(&at_once.nonce_writes));
    assert!(one_by_one.class_hash_writes.same_entries(&at_once.class_hash_writes));
    assert!(one_by_one.storage_writes.same_entries(&storage(&[
        ((1, [1; 32]), 10),
        ((1, [2; 32]), 21),
        ((1, [3; 32]), 30)
    ])));
    assert_eq!(one_by_one.get_nonce(&address(1)), Some(&Felt::from_u64(2)));
    assert!(one_by_one
        .storage_initial_values
        .same_entries(&storage(&[((1, [3; 32]), 99)])));
}

#[test]
fn merge_leaves_first_observations_of_the_child_behind() {
    let mut child = StateCache::new();
    child.record_nonce_initial(address(3), Felt::from_u64(7));
    let mut parent = StateCache::new();
    parent.update_writes_from_other(&child);
    assert!(parent.is_untouched());
}

#[test]
fn update_writes_overlays_the_given_maps() {
    let mut cache = StateCache::new();
    cache.write_nonce(address(1), Felt::from_u64(1));
    cache.update_writes(
        &class_hashes(&[(2, b"x")]),
        &nonces(&[(1, 5), (3, 6)]),
        &storage(&[((4, [0; 32]), 9)]),
    );
    assert!(cache.nonce_writes.same_entries(&nonces(&[(1, 5), (3, 6)])));
    assert!(cache.class_hash_writes.same_entries(&class_hashes(&[(2, b"x")])));
    assert!(cache.storage_writes.same_entries(&storage(&[((4, [0; 32]), 9)])));
    assert!(cache.nonce_initial_values.is_empty());
}

#[test]
fn accessed_addresses_include_owner_of_written_cell_only() {
    let mut cache = StateCache::new();
    assert!(cache.get_accessed_contract_addresses().is_empty());
    cache.write_storage((address(7), [1; 32]), Felt::from_u64(1));
    cache.write_storage((address(7), [2; 32]), Felt::from_u64(2));
    cache.record_nonce_initial(address(8), Felt::from_u64(0));
    cache.record_storage_initial((address(9), [1; 32]), Felt::from_u64(0));
    assert_eq!(
        address_set(cache.get_accessed_contract_addresses()),
        HashSet::from([address(7)])
    );
    cache.write_nonce(address(7), Felt::from_u64(1));
    cache.write_class_hash(address(11), [3; 32]);
    assert_eq!(
        address_set(cache.get_accessed_contract_addresses()),
        HashSet::from([address(7), address(11)])
    );
}

#[test]
fn seeded_nonce_then_written_nonce() {
    let a = address(0xA);
    let mut cache = StateCache::new();
    cache
        .set_initial_values(&class_hashes(&[(0xA, b"C1")]), &nonces(&[(0xA, 0)]), &storage(&[]))
        .unwrap();
    cache.write_nonce(a, Felt::from_u64(1));
    assert_eq!(cache.get_nonce(&a), Some(&Felt::from_u64(1)));
    assert_eq!(cache.get_accessed_contract_addresses(), vec![a]);
    assert_eq!(cache.get_class_hash(&a), Some(&class_hash(b"C1")));
}

#[test]
fn vec_map_keeps_one_entry_per_key_in_insertion_order() {
    let mut map: VecMap<Address, Felt> = VecMap::new();
    assert!(map.is_empty());
    map.insert(address(3), Felt::from_u64(30));
    map.insert(address(1), Felt::from_u64(10));
    map.insert(address(3), Felt::from_u64(31));
    map.insert_if_absent(address(1), Felt::from_u64(11));
    map.insert_if_absent(address(2), Felt::from_u64(20));
    assert_eq!(map.len(), 3);
    assert_eq!(map.keys(), vec![address(3), address(1), address(2)]);
    assert_eq!(map.get(&address(3)), Some(&Felt::from_u64(31)));
    assert_eq!(map.get(&address(1)), Some(&Felt::from_u64(10)));
    assert_eq!(map.get(&address(4)), None);
    assert!(map.contains_key(&address(2)));
    assert_eq!(map.key_at(1), address(1));
    assert_eq!(map.value_at(2), &Felt::from_u64(20));
    let copy = map.duplicate();
    assert!(copy.same_entries(&map));
    let mut other: VecMap<Address, Felt> = VecMap::new();
    other.insert(address(2), Felt::from_u64(20));
    other.insert(address(1), Felt::from_u64(10));
    other.insert(address(3), Felt::from_u64(31));
    assert!(other.same_entries(&map));
    other.insert(address(3), Felt::from_u64(32));
    assert!(!other.same_entries(&map));
}
