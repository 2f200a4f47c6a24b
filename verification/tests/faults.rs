use universe_store::collection::{Collection, EntityKind, StoreError};
use universe_store::store::{DurableMap, Entry};
use universe_store::universe::Universe;

fn galaxies_counter() -> Vec<u8> {
    vec![1, 0]
}

fn lifeforms_0_0() -> Vec<u8> {
    vec![3, 0, 0, 0, 0, 0, 0, 0, 0, 0, 0, 0, 0, 0, 0, 0, 0]
}

fn universe_with_one_milkyway() -> Universe {
    let mut universe = Universe::default();
    assert_eq!(universe.spawn_galaxy(), Ok(()));
    assert_eq!(universe.spawn_milkyway(0), Ok(()));
    universe
}

#[test]
fn malformed_counter_is_corrupt() {
    let mut store = DurableMap::new();
    store.put(galaxies_counter(), 0, vec![1, 2, 3]);
    let mut universe = Universe::open(store);
    assert_eq!(universe.spawn_galaxy(), Err(StoreError::Corrupt(vec![1, 0], 0)));
    assert_eq!(universe.get_galaxy(0), Err(StoreError::Corrupt(vec![1, 0], 0)));
    assert_eq!(universe.store().entries().len(), 1);
}

#[test]
fn malformed_galaxy_record_is_corrupt() {
    let mut universe = universe_with_one_milkyway();
    let mut store = universe.into_store();
    store.put(vec![1], 0, vec![9, 0, 0, 0, 0, 0, 0, 0]);
    universe = Universe::open(store);
    assert_eq!(universe.get_galaxy(0), Err(StoreError::Corrupt(vec![1], 0)));
    assert_eq!(universe.spawn_milkyway(0), Err(StoreError::Corrupt(vec![1], 0)));
}

#[test]
fn malformed_milkyway_record_is_corrupt() {
    let universe = universe_with_one_milkyway();
    let mut store = universe.into_store();
    let namespace = vec![2, 0, 0, 0, 0, 0, 0, 0, 0];
    store.put(namespace.clone(), 0, vec![0; 15]);
    let universe = Universe::open(store);
    assert_eq!(universe.get_milkyway(0, 0), Err(StoreError::Corrupt(namespace, 0)));
}

#[test]
fn name_that_is_not_utf8_is_corrupt() {
    let mut universe = universe_with_one_milkyway();
    assert_eq!(universe.spawn_lifeform(0, 0, "ok".to_string()), Ok(()));
    let mut store = universe.into_store();
    store.put(lifeforms_0_0(), 0, vec![2, 0, 0, 0, 0xff, 0xfe]);
    let mut universe = Universe::open(store);
    assert_eq!(universe.get_lifeform(0, 0, 0), Err(StoreError::Corrupt(lifeforms_0_0(), 0)));
    assert_eq!(universe.cross_breed(0, 0, 0, 0), Err(StoreError::Corrupt(lifeforms_0_0(), 0)));
}

#[test]
fn name_with_a_wrong_length_prefix_is_corrupt() {
    let mut universe = universe_with_one_milkyway();
    assert_eq!(universe.spawn_lifeform(0, 0, "ok".to_string()), Ok(()));
    assert_eq!(
        universe.store().get(&lifeforms_0_0(), 0),
        Some(vec![2, 0, 0, 0, b'o', b'k'])
    );
    for bytes in [vec![3, 0, 0, 0, b'o', b'k'], vec![1, 0, 0, 0, b'o', b'k'], vec![b'o', b'k'], vec![]] {
        let mut store = DurableMap::from_entries(universe.store().entries().clone());
        store.put(lifeforms_0_0(), 0, bytes);
        let damaged = Universe::open(store);
        assert_eq!(damaged.get_lifeform(0, 0, 0), Err(StoreError::Corrupt(lifeforms_0_0(), 0)));
    }
    assert_eq!(universe.get_lifeform(0, 0, 0), Ok("ok".to_string()));
}

#[test]
fn record_at_or_above_the_counter_is_inconsistent() {
    let mut store = DurableMap::new();
    store.put(vec![1], 0, vec![0; 8]);
    let mut universe = Universe::open(store);
    assert_eq!(universe.get_galaxy(0), Err(StoreError::Inconsistent));
    assert_eq!(universe.spawn_galaxy(), Err(StoreError::Inconsistent));
    assert_eq!(
        universe.get_galaxy(1),
        Err(StoreError::NotFound(EntityKind::Galaxy, 1))
    );
    assert_eq!(universe.store().entries().len(), 1);
}

#[test]
fn record_missing_below_the_counter_is_inconsistent() {
    let mut store = DurableMap::new();
    store.put(galaxies_counter(), 0, vec![2, 0, 0, 0, 0, 0, 0, 0]);
    let universe = Universe::open(store);
    assert_eq!(universe.get_galaxy(0), Err(StoreError::Inconsistent));
    assert_eq!(universe.get_galaxy(1), Err(StoreError::Inconsistent));
    assert_eq!(
        universe.get_galaxy(2),
        Err(StoreError::NotFound(EntityKind::Galaxy, 2))
    );
}

#[test]
fn last_id_is_never_handed_out() {
    let mut store = DurableMap::new();
    store.put(galaxies_counter(), 0, vec![0xff; 8]);
    let mut universe = Universe::open(store);
    assert_eq!(universe.spawn_galaxy(), Err(StoreError::IdsExhausted));
    assert_eq!(universe.store().entries().len(), 1);

    let mut store = DurableMap::new();
    store.put(galaxies_counter(), 0, vec![0xfe, 0xff, 0xff, 0xff, 0xff, 0xff, 0xff, 0xff]);
    store.put(vec![1], u64::MAX - 2, vec![0xfd, 0xff, 0xff, 0xff, 0xff, 0xff, 0xff, 0xff]);
    let mut universe = Universe::open(store);
    assert_eq!(universe.spawn_galaxy(), Ok(()));
    assert_eq!(universe.galaxies().next_id(universe.store()), Ok(u64::MAX));
    assert_eq!(universe.get_galaxy(u64::MAX - 1).map(|g| g.id), Ok(u64::MAX - 1));
    assert_eq!(universe.spawn_galaxy(), Err(StoreError::IdsExhausted));
}

#[test]
fn collection_appends_under_successive_ids() {
    let mut store = DurableMap::new();
    let collection = Collection::new(vec![7], EntityKind::Lifeform);
    assert_eq!(collection.next_id(&store), Ok(0));
    assert_eq!(collection.get(&store, 0), Err(StoreError::NotFound(EntityKind::Lifeform, 0)));
    assert_eq!(collection.append(&mut store, vec![10]), Ok(0));
    assert_eq!(collection.append(&mut store, vec![11, 12]), Ok(1));
    assert_eq!(collection.append(&mut store, vec![]), Ok(2));
    assert_eq!(collection.next_id(&store), Ok(3));
    assert_eq!(collection.get(&store, 0), Ok(vec![10]));
    assert_eq!(collection.get(&store, 1), Ok(vec![11, 12]));
    assert_eq!(collection.get(&store, 2), Ok(vec![]));
    assert_eq!(collection.get(&store, 3), Err(StoreError::NotFound(EntityKind::Lifeform, 3)));
    assert_eq!(store.get(&vec![7, 0], 0), Some(vec![3, 0, 0, 0, 0, 0, 0, 0]));
    assert_eq!(store.entries().len(), 4);
}

#[test]
fn store_keeps_the_last_value_put() {
    let mut store = DurableMap::new();
    assert_eq!(store.get(&vec![1], 0), None);
    store.put(vec![1], 0, vec![5]);
    store.put(vec![1], 1, vec![6]);
    store.put(vec![1, 0], 0, vec![7]);
    store.put(vec![1], 0, vec![8, 8]);
    assert_eq!(store.get(&vec![1], 0), Some(vec![8, 8]));
    assert_eq!(store.get(&vec![1], 1), Some(vec![6]));
    assert_eq!(store.get(&vec![1, 0], 0), Some(vec![7]));
    assert_eq!(store.get(&vec![1, 0], 1), None);
    assert_eq!(store.get(&vec![], 0), None);
    assert_eq!(store.entries().len(), 3);
}

#[test]
fn later_entries_win_when_a_store_is_loaded() {
    let entries = vec![
        Entry { namespace: vec![4], key: 2, value: vec![1] },
        Entry { namespace: vec![4], key: 3, value: vec![2] },
        Entry { namespace: vec![4], key: 2, value: vec![3] },
    ];
    let mut store = DurableMap::from_entries(entries);
    assert_eq!(store.get(&vec![4], 2), Some(vec![3]));
    assert_eq!(store.get(&vec![4], 3), Some(vec![2]));
    store.put(vec![4], 2, vec![9]);
    assert_eq!(store.get(&vec![4], 2), Some(vec![9]));
    let entries = store.into_entries();
    assert_eq!(entries.len(), 3);
    assert_eq!(entries[2].value, vec![9]);
    assert_eq!(entries[0].value, vec![1]);
}
