use universe_store::collection::{EntityKind, StoreError};
use universe_store::entity::{Galaxy, MilkyWay};
use universe_store::store::DurableMap;
use universe_store::universe::Universe;

fn seeded_universe() -> Universe {
    let mut contract = Universe::default();
    assert_eq!(contract.spawn_galaxy(), Ok(()));
    assert_eq!(contract.spawn_milkyway(0), Ok(()));
    contract
}

#[test]
fn first_questionable_behaviour() {
    let mut contract = Universe::default();

    assert_eq!(contract.spawn_galaxy(), Ok(()));
    assert_eq!(contract.spawn_milkyway(0), Ok(()));
    assert_eq!(contract.spawn_lifeform_2(0, 0, "dog".to_string()), Ok(()));
    assert_eq!(contract.get_lifeform(0, 0, 0), Ok("dog".to_string()));
}

#[test]
fn second_questionable_behaviour() {
    let mut contract = Universe::default();
    assert_eq!(contract.spawn_galaxy(), Ok(()));
    assert_eq!(contract.spawn_milkyway(0), Ok(()));
    assert_eq!(contract.spawn_lifeform_2(0, 0, "cat".to_string()), Ok(()));
    assert_eq!(contract.spawn_lifeform_2(0, 0, "dog".to_string()), Ok(()));
    assert_eq!(contract.cross_breed(0, 0, 0, 1), Ok(()));
    assert_eq!(contract.get_lifeform(0, 0, 2), Ok("catdog".to_string()));
}

#[test]
fn dog_and_cat_breed_dogcat() {
    let mut contract = seeded_universe();
    assert_eq!(contract.spawn_lifeform(0, 0, "dog".to_string()), Ok(()));
    assert_eq!(contract.spawn_lifeform(0, 0, "cat".to_string()), Ok(()));
    assert_eq!(contract.cross_breed(0, 0, 0, 1), Ok(()));
    assert_eq!(contract.get_lifeform(0, 0, 2), Ok("dogcat".to_string()));
    assert_eq!(contract.get_lifeform(0, 0, 0), Ok("dog".to_string()));
    assert_eq!(contract.get_lifeform(0, 0, 1), Ok("cat".to_string()));
    assert_eq!(
        contract.get_lifeform(0, 0, 3),
        Err(StoreError::NotFound(EntityKind::Lifeform, 3))
    );
}

#[test]
fn cat_and_dog_breed_catdog_at_next_id() {
    let mut contract = seeded_universe();
    assert_eq!(contract.spawn_lifeform(0, 0, "cat".to_string()), Ok(()));
    assert_eq!(contract.spawn_lifeform(0, 0, "dog".to_string()), Ok(()));
    assert_eq!(contract.spawn_lifeform(0, 0, "emu".to_string()), Ok(()));
    assert_eq!(contract.cross_breed(0, 0, 0, 1), Ok(()));
    assert_eq!(contract.get_lifeform(0, 0, 3), Ok("catdog".to_string()));
    assert_eq!(contract.cross_breed(0, 0, 3, 3), Ok(()));
    assert_eq!(contract.get_lifeform(0, 0, 4), Ok("catdogcatdog".to_string()));
}

#[test]
fn everything_spawned_can_be_read_back() {
    let mut contract = Universe::default();
    for _ in 0..3 {
        assert_eq!(contract.spawn_galaxy(), Ok(()));
    }
    assert_eq!(contract.spawn_milkyway(2), Ok(()));
    assert_eq!(contract.spawn_milkyway(0), Ok(()));
    assert_eq!(contract.spawn_milkyway(2), Ok(()));
    assert_eq!(contract.spawn_lifeform(2, 1, "owl".to_string()), Ok(()));
    assert_eq!(contract.spawn_lifeform(0, 0, "bat".to_string()), Ok(()));
    assert_eq!(contract.spawn_lifeform(2, 1, "".to_string()), Ok(()));
    assert_eq!(contract.spawn_lifeform(2, 0, "žába 🐸".to_string()), Ok(()));

    for g in 0..3 {
        assert_eq!(contract.get_galaxy(g), Ok(Galaxy { id: g }));
    }
    assert_eq!(contract.get_galaxy(3), Err(StoreError::NotFound(EntityKind::Galaxy, 3)));
    assert_eq!(contract.get_milkyway(2, 0), Ok(MilkyWay { galaxy_id: 2, id: 0 }));
    assert_eq!(contract.get_milkyway(2, 1), Ok(MilkyWay { galaxy_id: 2, id: 1 }));
    assert_eq!(contract.get_milkyway(0, 0), Ok(MilkyWay { galaxy_id: 0, id: 0 }));
    assert_eq!(
        contract.get_milkyway(1, 0),
        Err(StoreError::NotFound(EntityKind::MilkyWay, 0))
    );
    assert_eq!(contract.get_lifeform(2, 1, 0), Ok("owl".to_string()));
    assert_eq!(contract.get_lifeform(2, 1, 1), Ok("".to_string()));
    assert_eq!(contract.get_lifeform(0, 0, 0), Ok("bat".to_string()));
    assert_eq!(contract.get_lifeform(2, 0, 0), Ok("žába 🐸".to_string()));
    assert_eq!(
        contract.get_lifeform(2, 0, 1),
        Err(StoreError::NotFound(EntityKind::Lifeform, 1))
    );
}

#[test]
fn ids_count_up_across_a_reload() {
    let mut contract = seeded_universe();
    assert_eq!(contract.spawn_lifeform(0, 0, "a".to_string()), Ok(()));
    assert_eq!(contract.galaxies().next_id(contract.store()), Ok(1));

    let entries = contract.into_store().into_entries();
    let mut reloaded = Universe::open(DurableMap::from_entries(entries));
    assert_eq!(reloaded.galaxies().next_id(reloaded.store()), Ok(1));
    assert_eq!(reloaded.spawn_galaxy(), Ok(()));
    assert_eq!(reloaded.get_galaxy(1), Ok(Galaxy { id: 1 }));
    assert_eq!(reloaded.spawn_milkyway(0), Ok(()));
    assert_eq!(reloaded.get_milkyway(0, 1), Ok(MilkyWay { galaxy_id: 0, id: 1 }));
    assert_eq!(reloaded.spawn_lifeform(0, 0, "b".to_string()), Ok(()));
    assert_eq!(reloaded.get_lifeform(0, 0, 0), Ok("a".to_string()));
    assert_eq!(reloaded.get_lifeform(0, 0, 1), Ok("b".to_string()));
    assert_eq!(reloaded.galaxies().next_id(reloaded.store()), Ok(2));
    assert_eq!(Galaxy::new(0).milkyways().next_id(reloaded.store()), Ok(2));
    assert_eq!(MilkyWay::new(0, 0).lifeforms().next_id(reloaded.store()), Ok(2));
    assert_eq!(MilkyWay::new(0, 1).lifeforms().next_id(reloaded.store()), Ok(0));
}

#[test]
fn missing_galaxy_fails_and_writes_nothing() {
    let mut contract = Universe::default();
    assert_eq!(
        contract.spawn_milkyway(99),
        Err(StoreError::NotFound(EntityKind::Galaxy, 99))
    );
    assert!(contract.store().entries().is_empty());
    assert_eq!(contract.get_galaxy(99), Err(StoreError::NotFound(EntityKind::Galaxy, 99)));
}

#[test]
fn missing_ancestors_are_named_in_the_error() {
    let mut contract = seeded_universe();
    let before = contract.store().entries().clone();
    assert_eq!(
        contract.spawn_lifeform(1, 0, "x".to_string()),
        Err(StoreError::NotFound(EntityKind::Galaxy, 1))
    );
    assert_eq!(
        contract.spawn_lifeform(0, 7, "x".to_string()),
        Err(StoreError::NotFound(EntityKind::MilkyWay, 7))
    );
    assert_eq!(
        contract.spawn_lifeform_2(0, 7, "x".to_string()),
        Err(StoreError::NotFound(EntityKind::MilkyWay, 7))
    );
    assert_eq!(
        contract.cross_breed(4, 0, 0, 1),
        Err(StoreError::NotFound(EntityKind::Galaxy, 4))
    );
    assert_eq!(
        contract.cross_breed(0, 4, 0, 1),
        Err(StoreError::NotFound(EntityKind::MilkyWay, 4))
    );
    assert_eq!(
        contract.get_lifeform(0, 4, 0),
        Err(StoreError::NotFound(EntityKind::MilkyWay, 4))
    );
    assert_eq!(contract.store().entries(), &before);
}

#[test]
fn breeding_a_missing_lifeform_fails_and_writes_nothing() {
    let mut contract = seeded_universe();
    assert_eq!(contract.spawn_lifeform(0, 0, "cat".to_string()), Ok(()));
    let before = contract.store().entries().clone();
    assert_eq!(
        contract.cross_breed(0, 0, 0, 1),
        Err(StoreError::NotFound(EntityKind::Lifeform, 1))
    );
    assert_eq!(
        contract.cross_breed(0, 0, 5, 0),
        Err(StoreError::NotFound(EntityKind::Lifeform, 5))
    );
    assert_eq!(contract.store().entries(), &before);
    assert_eq!(
        contract.get_lifeform(0, 0, 1),
        Err(StoreError::NotFound(EntityKind::Lifeform, 1))
    );
}

#[test]
fn both_spawn_paths_leave_the_same_store() {
    let mut direct = seeded_universe();
    let mut delegated = seeded_universe();
    assert_eq!(direct.get_milkyway(0, 0), Ok(MilkyWay { galaxy_id: 0, id: 0 }));
    assert_eq!(direct.spawn_lifeform(0, 0, "dog".to_string()), Ok(()));
    assert_eq!(delegated.spawn_lifeform_2(0, 0, "dog".to_string()), Ok(()));
    assert_eq!(direct.get_lifeform(0, 0, 0), delegated.get_lifeform(0, 0, 0));
    assert_eq!(delegated.get_milkyway(0, 0), Ok(MilkyWay { galaxy_id: 0, id: 0 }));
    assert_eq!(direct.spawn_lifeform_2(0, 0, "cat".to_string()), Ok(()));
    assert_eq!(delegated.spawn_lifeform(0, 0, "cat".to_string()), Ok(()));
    assert_eq!(direct.get_lifeform(0, 0, 1), Ok("cat".to_string()));
    assert_eq!(delegated.get_lifeform(0, 0, 1), Ok("cat".to_string()));
}

#[test]
fn handles_write_through_to_the_store() {
    let mut store = DurableMap::new();
    let galaxy = Galaxy::new(5);
    assert_eq!(galaxy.spawn_milkyway(&mut store), Ok(()));
    assert_eq!(galaxy.get_milkyway(&store, 0), Ok(MilkyWay { galaxy_id: 5, id: 0 }));
    assert_eq!(
        galaxy.spawn_lifeform(&mut store, 1, "x".to_string()),
        Err(StoreError::NotFound(EntityKind::MilkyWay, 1))
    );
    assert_eq!(galaxy.spawn_lifeform(&mut store, 0, "ant".to_string()), Ok(()));
    let milkyway = MilkyWay::new(5, 0);
    assert_eq!(milkyway.spawn_lifeform(&mut store, "bee".to_string()), Ok(()));
    assert_eq!(milkyway.cross_breed(&mut store, 1, 0), Ok(()));
    assert_eq!(milkyway.get_lifeform(&store, 2), Ok("beeant".to_string()));

    let universe = Universe::open(store);
    assert_eq!(
        universe.get_lifeform(5, 0, 2),
        Err(StoreError::NotFound(EntityKind::Galaxy, 5))
    );
}
