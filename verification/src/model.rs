//! What the operations mean, as functions on the contents of the durable map.

use vstd::prelude::*;
use crate::codec::{name_bytes, name_fits, parse_name, u64_bytes};
use crate::collection::{appended, next_id_of, record_of, EntityKind, Fault};
use crate::entity::{Galaxy, MilkyWay};
use crate::namespace::{galaxies_namespace, lifeforms_namespace, milkyways_namespace};
use crate::store::Contents;

verus! {

/// The stored form of a galaxy.
pub open spec fn galaxy_record(galaxy_id: u64) -> Seq<u8> {
    u64_bytes(galaxy_id)
}

/// The stored form of a milky way.
pub open spec fn milkyway_record(galaxy_id: u64, milkyway_id: u64) -> Seq<u8> {
    u64_bytes(galaxy_id) + u64_bytes(milkyway_id)
}

/// The galaxy with id `galaxy_id`.
pub open spec fn galaxy_at(s: Contents, galaxy_id: u64) -> Result<Galaxy, Fault> {
    match record_of(s, galaxies_namespace(), EntityKind::Galaxy, galaxy_id) {
        Err(e) => Err(e),
        Ok(bytes) => {
            if bytes == galaxy_record(galaxy_id) {
                Ok(Galaxy { id: galaxy_id })
            } else {
                Err(Fault::Corrupt(galaxies_namespace(), galaxy_id))
            }
        },
    }
}

/// The milky way with id `milkyway_id` in the collection of galaxy
/// `galaxy_id`, whether or not that galaxy is stored.
pub open spec fn milkyway_in(s: Contents, galaxy_id: u64, milkyway_id: u64) -> Result<
    MilkyWay,
    Fault,
> {
    match record_of(s, milkyways_namespace(galaxy_id), EntityKind::MilkyWay, milkyway_id) {
        Err(e) => Err(e),
        Ok(bytes) => {
            if bytes == milkyway_record(galaxy_id, milkyway_id) {
                Ok(MilkyWay { galaxy_id, id: milkyway_id })
            } else {
                Err(Fault::Corrupt(milkyways_namespace(galaxy_id), milkyway_id))
            }
        },
    }
}

/// The name of the lifeform with id `id` in the collection of a milky way,
/// whether or not that milky way is stored.
pub open spec fn lifeform_in(s: Contents, galaxy_id: u64, milkyway_id: u64, id: u64) -> Result<
    Seq<char>,
    Fault,
> {
    match record_of(s, lifeforms_namespace(galaxy_id, milkyway_id), EntityKind::Lifeform, id) {
        Err(e) => Err(e),
        Ok(bytes) => match parse_name(bytes) {
            Some(name) => Ok(name),
            None => Err(Fault::Corrupt(lifeforms_namespace(galaxy_id, milkyway_id), id)),
        },
    }
}

/// The milky way reached from the root: its galaxy must be stored.
pub open spec fn milkyway_at(s: Contents, galaxy_id: u64, milkyway_id: u64) -> Result<
    MilkyWay,
    Fault,
> {
    match galaxy_at(s, galaxy_id) {
        Err(e) => Err(e),
        Ok(_) => milkyway_in(s, galaxy_id, milkyway_id),
    }
}

/// The lifeform reached from the root: its galaxy and its milky way must be
/// stored.
pub open spec fn lifeform_at(s: Contents, galaxy_id: u64, milkyway_id: u64, id: u64) -> Result<
    Seq<char>,
    Fault,
> {
    match milkyway_at(s, galaxy_id, milkyway_id) {
        Err(e) => Err(e),
        Ok(_) => lifeform_in(s, galaxy_id, milkyway_id, id),
    }
}

/// The store after a galaxy was spawned.
pub open spec fn galaxy_spawned(s: Contents) -> Result<Contents, Fault> {
    match next_id_of(s, galaxies_namespace()) {
        Err(e) => Err(e),
        Ok(n) => appended(s, galaxies_namespace(), galaxy_record(n)),
    }
}

/// The store after a milky way was appended to the collection of galaxy
/// `galaxy_id`.
pub open spec fn milkyway_spawned_in(s: Contents, galaxy_id: u64) -> Result<Contents, Fault> {
    match next_id_of(s, milkyways_namespace(galaxy_id)) {
        Err(e) => Err(e),
        Ok(n) => appended(s, milkyways_namespace(galaxy_id), milkyway_record(galaxy_id, n)),
    }
}

/// The store after a lifeform was appended to the collection of a milky way.
/// A name too long to be stored is refused before the store is looked at.
pub open spec fn lifeform_spawned_in(
    s: Contents,
    galaxy_id: u64,
    milkyway_id: u64,
    name: Seq<char>,
) -> Result<Contents, Fault> {
    if name_fits(name) {
        appended(s, lifeforms_namespace(galaxy_id, milkyway_id), name_bytes(name))
    } else {
        Err(Fault::NameTooLong)
    }
}

/// The store after two lifeforms of a milky way's collection were bred.
pub open spec fn cross_bred_in(
    s: Contents,
    galaxy_id: u64,
    milkyway_id: u64,
    id_1: u64,
    id_2: u64,
) -> Result<Contents, Fault> {
    match lifeform_in(s, galaxy_id, milkyway_id, id_1) {
        Err(e) => Err(e),
        Ok(first) => match lifeform_in(s, galaxy_id, milkyway_id, id_2) {
            Err(e) => Err(e),
            Ok(second) => lifeform_spawned_in(s, galaxy_id, milkyway_id, first + second),
        },
    }
}

/// The store after a galaxy spawned a lifeform in one of its milky ways.
pub open spec fn lifeform_spawned_by_galaxy(
    s: Contents,
    galaxy_id: u64,
    milkyway_id: u64,
    name: Seq<char>,
) -> Result<Contents, Fault> {
    match milkyway_in(s, galaxy_id, milkyway_id) {
        Err(e) => Err(e),
        Ok(_) => lifeform_spawned_in(s, galaxy_id, milkyway_id, name),
    }
}

/// The store after the root spawned a milky way in galaxy `galaxy_id`.
pub open spec fn milkyway_spawned(s: Contents, galaxy_id: u64) -> Result<Contents, Fault> {
    match galaxy_at(s, galaxy_id) {
        Err(e) => Err(e),
        Ok(_) => milkyway_spawned_in(s, galaxy_id),
    }
}

/// The store after the root spawned a lifeform.
pub open spec fn lifeform_spawned(
    s: Contents,
    galaxy_id: u64,
    milkyway_id: u64,
    name: Seq<char>,
) -> Result<Contents, Fault> {
    match galaxy_at(s, galaxy_id) {
        Err(e) => Err(e),
        Ok(_) => lifeform_spawned_by_galaxy(s, galaxy_id, milkyway_id, name),
    }
}

/// The store after the root bred two lifeforms of one milky way.
pub open spec fn cross_bred(
    s: Contents,
    galaxy_id: u64,
    milkyway_id: u64,
    id_1: u64,
    id_2: u64,
) -> Result<Contents, Fault> {
    match milkyway_at(s, galaxy_id, milkyway_id) {
        Err(e) => Err(e),
        Ok(_) => cross_bred_in(s, galaxy_id, milkyway_id, id_1, id_2),
    }
}

} // verus!
