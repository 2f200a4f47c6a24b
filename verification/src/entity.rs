//! Galaxies and milky ways: handles that carry ids and reach their
//! collections in the durable map by namespace.

use vstd::prelude::*;
use vstd::string::*;
use crate::codec::{append_bytes, bytes_eq, decode_name, encode_name, encode_u64};
use crate::collection::{Collection, EntityKind, Fault, StoreError};
use crate::model::{
    cross_bred_in, galaxy_record, lifeform_in, lifeform_spawned_by_galaxy, lifeform_spawned_in,
    milkyway_in, milkyway_record, milkyway_spawned_in,
};
use crate::namespace::{
    lifeforms_namespace, lifeforms_path, milkyways_namespace, milkyways_path,
};
use crate::store::{DurableMap, Contents};

verus! {

/// A milky way: the leaf container, which holds named lifeforms.
#[derive(Clone, Copy, PartialEq, Eq, Structural, Debug)]
pub struct MilkyWay {
    pub galaxy_id: u64,
    pub id: u64,
}

/// A galaxy: the container of milky ways.
#[derive(Clone, Copy, PartialEq, Eq, Structural, Debug)]
pub struct Galaxy {
    pub id: u64,
}

/// The bytes stored for a galaxy.
pub fn encode_galaxy(galaxy_id: u64) -> (r: Vec<u8>)
    ensures
        r@ == galaxy_record(galaxy_id),
{
    encode_u64(galaxy_id)
}

/// The bytes stored for a milky way.
pub fn encode_milkyway(galaxy_id: u64, milkyway_id: u64) -> (r: Vec<u8>)
    ensures
        r@ == milkyway_record(galaxy_id, milkyway_id),
{
    let mut r = encode_u64(galaxy_id);
    let m = encode_u64(milkyway_id);
    append_bytes(&mut r, &m);
    r
}

impl MilkyWay {
    pub fn new(galaxy_id: u64, id: u64) -> (r: Self)
        ensures
            r == (MilkyWay { galaxy_id, id }),
    {
        MilkyWay { galaxy_id, id }
    }

    /// The handle on this milky way's lifeforms.
    pub fn lifeforms(&self) -> (r: Collection)
        ensures
            r.namespace@ == lifeforms_namespace(self.galaxy_id, self.id),
            r.kind == EntityKind::Lifeform,
    {
        Collection::new(lifeforms_path(self.galaxy_id, self.id), EntityKind::Lifeform)
    }

    /// Stores a new lifeform under the next id of this milky way.
    pub fn spawn_lifeform(&self, store: &mut DurableMap, lifeform_name: String) -> (r: Result<
        (),
        StoreError,
    >)
        ensures
            match r {
                Ok(()) => lifeform_spawned_in(
                    old(store)@,
                    self.galaxy_id,
                    self.id,
                    lifeform_name@,
                ) == Ok::<Contents, Fault>(final(store)@),
                Err(e) => {
                    &&& lifeform_spawned_in(old(store)@, self.galaxy_id, self.id, lifeform_name@)
                        == Err::<Contents, Fault>(e@)
                    &&& final(store)@ == old(store)@
                },
            },
    {
        let value = match encode_name(&lifeform_name) {
            Some(value) => value,
            None => {
                return Err(StoreError::NameTooLong);
            },
        };
        match self.lifeforms().append(store, value) {
            Ok(_) => Ok(()),
            Err(e) => Err(e),
        }
    }

    /// Stores a new lifeform whose name is the names of two stored lifeforms,
    /// one after the other.
    pub fn cross_breed(&self, store: &mut DurableMap, lifeform_id_1: u64, lifeform_id_2: u64) -> (r:
        Result<(), StoreError>)
        ensures
            match r {
                Ok(()) => cross_bred_in(
                    old(store)@,
                    self.galaxy_id,
                    self.id,
                    lifeform_id_1,
                    lifeform_id_2,
                ) == Ok::<Contents, Fault>(final(store)@),
                Err(e) => {
                    &&& cross_bred_in(
                        old(store)@,
                        self.galaxy_id,
                        self.id,
                        lifeform_id_1,
                        lifeform_id_2,
                    ) == Err::<Contents, Fault>(e@)
                    &&& final(store)@ == old(store)@
                },
            },
    {
        let first = match self.get_lifeform(store, lifeform_id_1) {
            Ok(name) => name,
            Err(e) => {
                return Err(e);
            },
        };
        let second = match self.get_lifeform(store, lifeform_id_2) {
            Ok(name) => name,
            Err(e) => {
                return Err(e);
            },
        };
        let new_species = first.concat(second.as_str());
        self.spawn_lifeform(store, new_species)
    }

    /// The name of the lifeform with id `id`.
    pub fn get_lifeform(&self, store: &DurableMap, id: u64) -> (r: Result<String, StoreError>)
        ensures
            match r {
                Ok(name) => lifeform_in(store@, self.galaxy_id, self.id, id) == Ok::<
                    Seq<char>,
                    Fault,
                >(name@),
                Err(e) => lifeform_in(store@, self.galaxy_id, self.id, id) == Err::<
                    Seq<char>,
                    Fault,
                >(e@),
            },
    {
        let lifeforms = self.lifeforms();
        match lifeforms.get(store, id) {
            Err(e) => Err(e),
            Ok(bytes) => match decode_name(&bytes) {
                Some(name) => Ok(name),
                None => Err(StoreError::Corrupt(lifeforms.namespace, id)),
            },
        }
    }
}

impl Galaxy {
    pub fn new(id: u64) -> (r: Self)
        ensures
            r == (Galaxy { id }),
    {
        Galaxy { id }
    }

    /// The handle on this galaxy's milky ways.
    pub fn milkyways(&self) -> (r: Collection)
        ensures
            r.namespace@ == milkyways_namespace(self.id),
            r.kind == EntityKind::MilkyWay,
    {
        Collection::new(milkyways_path(self.id), EntityKind::MilkyWay)
    }

    /// Stores a new milky way under the next id of this galaxy.
    pub fn spawn_milkyway(&self, store: &mut DurableMap) -> (r: Result<(), StoreError>)
        ensures
            match r {
                Ok(()) => milkyway_spawned_in(old(store)@, self.id) == Ok::<Contents, Fault>(
                    final(store)@,
                ),
                Err(e) => {
                    &&& milkyway_spawned_in(old(store)@, self.id) == Err::<Contents, Fault>(e@)
                    &&& final(store)@ == old(store)@
                },
            },
    {
        let milkyways = self.milkyways();
        let n = match milkyways.next_id(store) {
            Ok(n) => n,
            Err(e) => {
                return Err(e);
            },
        };
        match milkyways.append(store, encode_milkyway(self.id, n)) {
            Ok(_) => Ok(()),
            Err(e) => Err(e),
        }
    }

    /// Stores a new lifeform in the milky way with id `milkyway_id`.
    pub fn spawn_lifeform(&self, store: &mut DurableMap, milkyway_id: u64, lifeform_name: String) -> (r:
        Result<(), StoreError>)
        ensures
            match r {
                Ok(()) => lifeform_spawned_by_galaxy(
                    old(store)@,
                    self.id,
                    milkyway_id,
                    lifeform_name@,
                ) == Ok::<Contents, Fault>(final(store)@),
                Err(e) => {
                    &&& lifeform_spawned_by_galaxy(
                        old(store)@,
                        self.id,
                        milkyway_id,
                        lifeform_name@,
                    ) == Err::<Contents, Fault>(e@)
                    &&& final(store)@ == old(store)@
                },
            },
    {
        match self.get_milkyway(store, milkyway_id) {
            Err(e) => Err(e),
            Ok(milkyway) => milkyway.spawn_lifeform(store, lifeform_name),
        }
    }

    /// The milky way with id `id`.
    pub fn get_milkyway(&self, store: &DurableMap, id: u64) -> (r: Result<MilkyWay, StoreError>)
        ensures
            match r {
                Ok(milkyway) => milkyway_in(store@, self.id, id) == Ok::<MilkyWay, Fault>(milkyway),
                Err(e) => milkyway_in(store@, self.id, id) == Err::<MilkyWay, Fault>(e@),
            },
    {
        let milkyways = self.milkyways();
        match milkyways.get(store, id) {
            Err(e) => Err(e),
            Ok(bytes) => {
                if bytes_eq(&bytes, &encode_milkyway(self.id, id)) {
                    Ok(MilkyWay::new(self.id, id))
                } else {
                    Err(StoreError::Corrupt(milkyways.namespace, id))
                }
            },
        }
    }
}

} // verus!
