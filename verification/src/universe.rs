//! The root of the tree, which owns the durable map, and the operations that
//! reach every level from it.

use vstd::prelude::*;
use crate::codec::bytes_eq;
use crate::collection::{Collection, EntityKind, Fault, StoreError};
use crate::entity::{encode_galaxy, Galaxy, MilkyWay};
use crate::model::{
    cross_bred, galaxy_at, galaxy_spawned, lifeform_at, lifeform_spawned, milkyway_at,
    milkyway_spawned,
};
use crate::namespace::{galaxies_namespace, galaxies_path};
use crate::store::{DurableMap, Contents};

verus! {

/// The universe: the durable map, read as a tree of galaxies.
pub struct Universe {
    store: DurableMap,
}

impl View for Universe {
    type V = Contents;

    closed spec fn view(&self) -> Contents {
        self.store@
    }
}

impl Default for Universe {
    /// The universe over an empty map.
    fn default() -> (r: Self)
        ensures
            r@ == Map::<(Seq<u8>, u64), Seq<u8>>::empty(),
    {
        Universe { store: DurableMap::new() }
    }
}

impl Universe {
    /// The universe that a durable map holds.
    pub fn open(store: DurableMap) -> (r: Self)
        ensures
            r@ == store@,
    {
        Universe { store }
    }

    /// The durable map behind this universe.
    pub fn store(&self) -> (r: &DurableMap)
        ensures
            r@ == self@,
    {
        &self.store
    }

    /// Gives up the universe for its durable map.
    pub fn into_store(self) -> (r: DurableMap)
        ensures
            r@ == self@,
    {
        self.store
    }

    /// The handle on the galaxies.
    pub fn galaxies(&self) -> (r: Collection)
        ensures
            r.namespace@ == galaxies_namespace(),
            r.kind == EntityKind::Galaxy,
    {
        Collection::new(galaxies_path(), EntityKind::Galaxy)
    }

    /// Stores a new galaxy under the next galaxy id.
    pub fn spawn_galaxy(&mut self) -> (r: Result<(), StoreError>)
        ensures
            match r {
                Ok(()) => galaxy_spawned(old(self)@) == Ok::<Contents, Fault>(final(self)@),
                Err(e) => {
                    &&& galaxy_spawned(old(self)@) == Err::<Contents, Fault>(e@)
                    &&& final(self)@ == old(self)@
                },
            },
    {
        let galaxies = self.galaxies();
        let n = match galaxies.next_id(&self.store) {
            Ok(n) => n,
            Err(e) => {
                return Err(e);
            },
        };
        match galaxies.append(&mut self.store, encode_galaxy(n)) {
            Ok(_) => Ok(()),
            Err(e) => Err(e),
        }
    }

    /// Stores a new milky way in the galaxy with id `galaxy_id`.
    pub fn spawn_milkyway(&mut self, galaxy_id: u64) -> (r: Result<(), StoreError>)
        ensures
            match r {
                Ok(()) => milkyway_spawned(old(self)@, galaxy_id) == Ok::<Contents, Fault>(
                    final(self)@,
                ),
                Err(e) => {
                    &&& milkyway_spawned(old(self)@, galaxy_id) == Err::<Contents, Fault>(e@)
                    &&& final(self)@ == old(self)@
                },
            },
    {
        match self.get_galaxy(galaxy_id) {
            Err(e) => Err(e),
            Ok(galaxy) => galaxy.spawn_milkyway(&mut self.store),
        }
    }

    /// Stores a new lifeform in a milky way. The root loads the galaxy and the
    /// milky way itself and lets the milky way store the lifeform.
    pub fn spawn_lifeform(&mut self, galaxy_id: u64, milkyway_id: u64, lifeform_name: String) -> (r:
        Result<(), StoreError>)
        ensures
            match r {
                Ok(()) => lifeform_spawned(old(self)@, galaxy_id, milkyway_id, lifeform_name@)
                    == Ok::<Contents, Fault>(final(self)@),
                Err(e) => {
                    &&& lifeform_spawned(old(self)@, galaxy_id, milkyway_id, lifeform_name@)
                        == Err::<Contents, Fault>(e@)
                    &&& final(self)@ == old(self)@
                },
            },
    {
        let galaxy = match self.get_galaxy(galaxy_id) {
            Ok(galaxy) => galaxy,
            Err(e) => {
                return Err(e);
            },
        };
        match galaxy.get_milkyway(&self.store, milkyway_id) {
            Err(e) => Err(e),
            Ok(milkyway) => milkyway.spawn_lifeform(&mut self.store, lifeform_name),
        }
    }

    /// Stores a new lifeform in a milky way. The root loads the galaxy and
    /// hands the rest to it. The outcome is that of `spawn_lifeform`.
    pub fn spawn_lifeform_2(&mut self, galaxy_id: u64, milkyway_id: u64, lifeform_name: String) -> (r:
        Result<(), StoreError>)
        ensures
            match r {
                Ok(()) => lifeform_spawned(old(self)@, galaxy_id, milkyway_id, lifeform_name@)
                    == Ok::<Contents, Fault>(final(self)@),
                Err(e) => {
                    &&& lifeform_spawned(old(self)@, galaxy_id, milkyway_id, lifeform_name@)
                        == Err::<Contents, Fault>(e@)
                    &&& final(self)@ == old(self)@
                },
            },
    {
        match self.get_galaxy(galaxy_id) {
            Err(e) => Err(e),
            Ok(galaxy) => galaxy.spawn_lifeform(&mut self.store, milkyway_id, lifeform_name),
        }
    }

    /// Stores a new lifeform named after two lifeforms of one milky way.
    pub fn cross_breed(
        &mut self,
        galaxy_id: u64,
        milkyway_id: u64,
        lifeform_id_1: u64,
        lifeform_id_2: u64,
    ) -> (r: Result<(), StoreError>)
        ensures
            match r {
                Ok(()) => cross_bred(
                    old(self)@,
                    galaxy_id,
                    milkyway_id,
                    lifeform_id_1,
                    lifeform_id_2,
                ) == Ok::<Contents, Fault>(final(self)@),
                Err(e) => {
                    &&& cross_bred(old(self)@, galaxy_id, milkyway_id, lifeform_id_1, lifeform_id_2)
                        == Err::<Contents, Fault>(e@)
                    &&& final(self)@ == old(self)@
                },
            },
    {
        match self.get_milkyway(galaxy_id, milkyway_id) {
            Err(e) => Err(e),
            Ok(milkyway) => milkyway.cross_breed(&mut self.store, lifeform_id_1, lifeform_id_2),
        }
    }

    /// The galaxy with id `id`.
    pub fn get_galaxy(&self, id: u64) -> (r: Result<Galaxy, StoreError>)
        ensures
            match r {
                Ok(galaxy) => galaxy_at(self@, id) == Ok::<Galaxy, Fault>(galaxy),
                Err(e) => galaxy_at(self@, id) == Err::<Galaxy, Fault>(e@),
            },
    {
        let galaxies = self.galaxies();
        match galaxies.get(&self.store, id) {
            Err(e) => Err(e),
            Ok(bytes) => {
                if bytes_eq(&bytes, &encode_galaxy(id)) {
                    Ok(Galaxy::new(id))
                } else {
                    Err(StoreError::Corrupt(galaxies.namespace, id))
                }
            },
        }
    }

    /// The milky way with id `milkyway_id` of the galaxy with id `galaxy_id`.
    pub fn get_milkyway(&self, galaxy_id: u64, milkyway_id: u64) -> (r: Result<
        MilkyWay,
        StoreError,
    >)
        ensures
            match r {
                Ok(milkyway) => milkyway_at(self@, galaxy_id, milkyway_id) == Ok::<MilkyWay, Fault>(
                    milkyway,
                ),
                Err(e) => milkyway_at(self@, galaxy_id, milkyway_id) == Err::<MilkyWay, Fault>(e@),
            },
    {
        match self.get_galaxy(galaxy_id) {
            Err(e) => Err(e),
            Ok(galaxy) => galaxy.get_milkyway(&self.store, milkyway_id),
        }
    }

    /// The name of a lifeform, reached through its galaxy and its milky way.
    pub fn get_lifeform(&self, galaxy_id: u64, milkyway_id: u64, id: u64) -> (r: Result<
        String,
        StoreError,
    >)
        ensures
            match r {
                Ok(name) => lifeform_at(self@, galaxy_id, milkyway_id, id) == Ok::<Seq<char>, Fault>(
                    name@,
                ),
                Err(e) => lifeform_at(self@, galaxy_id, milkyway_id, id) == Err::<Seq<char>, Fault>(
                    e@,
                ),
            },
    {
        match self.get_milkyway(galaxy_id, milkyway_id) {
            Err(e) => Err(e),
            Ok(milkyway) => milkyway.get_lifeform(&self.store, id),
        }
    }
}

} // verus!
