//! Storage namespaces: one byte string for each collection, built from a tag
//! and the fixed-width ids of the collection's ancestors.

use vstd::prelude::*;
use crate::codec::{append_bytes, encode_u64, lemma_u64_bytes_injective, lemma_u64_round_trip, u64_bytes};

verus! {

pub const COUNTER_TAG: u8 = 0;

pub const GALAXIES_TAG: u8 = 1;

pub const MILKYWAYS_TAG: u8 = 2;

pub const LIFEFORMS_TAG: u8 = 3;

/// The namespace of the universe's galaxies.
pub open spec fn galaxies_namespace() -> Seq<u8> {
    seq![GALAXIES_TAG]
}

/// The namespace of the milky ways of galaxy `galaxy_id`.
pub open spec fn milkyways_namespace(galaxy_id: u64) -> Seq<u8> {
    seq![MILKYWAYS_TAG] + u64_bytes(galaxy_id)
}

/// The namespace of the lifeforms of milky way `milkyway_id` of galaxy
/// `galaxy_id`.
pub open spec fn lifeforms_namespace(galaxy_id: u64, milkyway_id: u64) -> Seq<u8> {
    seq![LIFEFORMS_TAG] + u64_bytes(galaxy_id) + u64_bytes(milkyway_id)
}

/// The namespace that holds the id counter of the collection `namespace`.
pub open spec fn counter_namespace(namespace: Seq<u8>) -> Seq<u8> {
    namespace.push(COUNTER_TAG)
}

/// The shape of a collection's namespace: a tag and whole ids. A counter's
/// namespace is one byte longer and so never has this shape.
pub open spec fn is_collection_namespace(namespace: Seq<u8>) -> bool {
    namespace.len() % 8 == 1
}

/// The three kinds of namespace are collection namespaces, of three different
/// lengths.
pub proof fn lemma_namespace_shapes(galaxy_id: u64, milkyway_id: u64)
    ensures
        galaxies_namespace().len() == 1,
        milkyways_namespace(galaxy_id).len() == 9,
        lifeforms_namespace(galaxy_id, milkyway_id).len() == 17,
        is_collection_namespace(galaxies_namespace()),
        is_collection_namespace(milkyways_namespace(galaxy_id)),
        is_collection_namespace(lifeforms_namespace(galaxy_id, milkyway_id)),
{
    lemma_u64_round_trip(galaxy_id);
    lemma_u64_round_trip(milkyway_id);
}

/// Two galaxies never share a milky way namespace.
pub proof fn lemma_milkyways_namespace_injective(a: u64, b: u64)
    requires
        a != b,
    ensures
        milkyways_namespace(a) != milkyways_namespace(b),
{
    lemma_u64_round_trip(a);
    lemma_u64_round_trip(b);
    if milkyways_namespace(a) == milkyways_namespace(b) {
        assert(milkyways_namespace(a).subrange(1, 9) =~= u64_bytes(a));
        assert(milkyways_namespace(b).subrange(1, 9) =~= u64_bytes(b));
        lemma_u64_bytes_injective(a, b);
    }
}

/// Two distinct pairs of a galaxy id and a milky way id never share a
/// lifeform namespace.
pub proof fn lemma_lifeforms_namespace_injective(g1: u64, m1: u64, g2: u64, m2: u64)
    requires
        g1 != g2 || m1 != m2,
    ensures
        lifeforms_namespace(g1, m1) != lifeforms_namespace(g2, m2),
{
    lemma_u64_round_trip(g1);
    lemma_u64_round_trip(m1);
    lemma_u64_round_trip(g2);
    lemma_u64_round_trip(m2);
    let n1 = lifeforms_namespace(g1, m1);
    let n2 = lifeforms_namespace(g2, m2);
    if n1 == n2 {
        assert(n1.subrange(1, 9) =~= u64_bytes(g1));
        assert(n2.subrange(1, 9) =~= u64_bytes(g2));
        assert(n1.subrange(9, 17) =~= u64_bytes(m1));
        assert(n2.subrange(9, 17) =~= u64_bytes(m2));
        lemma_u64_bytes_injective(g1, g2);
        lemma_u64_bytes_injective(m1, m2);
    }
}

pub fn galaxies_path() -> (r: Vec<u8>)
    ensures
        r@ == galaxies_namespace(),
{
    let mut r: Vec<u8> = Vec::new();
    r.push(GALAXIES_TAG);
    assert(r@ =~= galaxies_namespace());
    r
}

pub fn milkyways_path(galaxy_id: u64) -> (r: Vec<u8>)
    ensures
        r@ == milkyways_namespace(galaxy_id),
{
    let mut r: Vec<u8> = Vec::new();
    r.push(MILKYWAYS_TAG);
    let g = encode_u64(galaxy_id);
    append_bytes(&mut r, &g);
    assert(r@ =~= milkyways_namespace(galaxy_id));
    r
}

pub fn lifeforms_path(galaxy_id: u64, milkyway_id: u64) -> (r: Vec<u8>)
    ensures
        r@ == lifeforms_namespace(galaxy_id, milkyway_id),
{
    let mut r: Vec<u8> = Vec::new();
    r.push(LIFEFORMS_TAG);
    let g = encode_u64(galaxy_id);
    append_bytes(&mut r, &g);
    let m = encode_u64(milkyway_id);
    append_bytes(&mut r, &m);
    assert(r@ =~= lifeforms_namespace(galaxy_id, milkyway_id));
    r
}

pub fn counter_path(namespace: &Vec<u8>) -> (r: Vec<u8>)
    ensures
        r@ == counter_namespace(namespace@),
{
    let mut r: Vec<u8> = Vec::new();
    append_bytes(&mut r, namespace);
    r.push(COUNTER_TAG);
    assert(r@ =~= counter_namespace(namespace@));
    r
}

} // verus!
