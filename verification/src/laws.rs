//! What holds of the operations whatever the store held before: what was
//! spawned can be read back, ids count up without gaps, and nothing that
//! could be read is lost.

use vstd::prelude::*;
use crate::codec::{
    lemma_name_round_trip, lemma_u64_round_trip, name_bytes, name_fits, parse_name,
};
use crate::collection::{appended, next_id_of, record_of, EntityKind, Fault};
use crate::entity::{Galaxy, MilkyWay};
use crate::model::{
    cross_bred, galaxy_at, galaxy_record, galaxy_spawned, lifeform_at, lifeform_in,
    lifeform_spawned, lifeform_spawned_in, milkyway_at, milkyway_in, milkyway_record,
    milkyway_spawned, milkyway_spawned_in,
};
use crate::namespace::{
    counter_namespace, galaxies_namespace, is_collection_namespace,
    lemma_lifeforms_namespace_injective, lemma_milkyways_namespace_injective,
    lemma_namespace_shapes, lifeforms_namespace, milkyways_namespace,
};
use crate::store::Contents;

verus! {

/// Every galaxy, milky way and lifeform that can be read from `s` can be read
/// from `t`, with the same data.
pub open spec fn keeps_entities(s: Contents, t: Contents) -> bool {
    &&& forall|g: u64| (#[trigger] galaxy_at(s, g)) is Ok ==> galaxy_at(t, g) == galaxy_at(s, g)
    &&& forall|g: u64, m: u64|
        (#[trigger] milkyway_at(s, g, m)) is Ok ==> milkyway_at(t, g, m) == milkyway_at(s, g, m)
    &&& forall|g: u64, m: u64, id: u64|
        (#[trigger] lifeform_at(s, g, m, id)) is Ok ==> lifeform_at(t, g, m, id) == lifeform_at(
            s,
            g,
            m,
            id,
        )
}

/// Every collection but `namespace` hands out the same next id in `t` as in
/// `s`.
pub open spec fn keeps_other_counters(s: Contents, t: Contents, namespace: Seq<u8>) -> bool {
    forall|other: Seq<u8>|
        is_collection_namespace(other) && other != namespace ==> #[trigger] next_id_of(t, other)
            == next_id_of(s, other)
}

/// Every record of a collection that can be read from `s` can be read from
/// `t`, with the same bytes.
pub open spec fn keeps_records(s: Contents, t: Contents) -> bool {
    forall|other: Seq<u8>, kind: EntityKind, id: u64|
        is_collection_namespace(other) && record_of(s, other, kind, id) is Ok
            ==> #[trigger] record_of(t, other, kind, id) == record_of(s, other, kind, id)
}

/// Every record but the one with id `id` of `namespace` reads the same from
/// `t` as from `s`, found or not.
pub open spec fn changes_one_record(s: Contents, t: Contents, namespace: Seq<u8>, id: u64) -> bool {
    forall|other: Seq<u8>, kind: EntityKind, i: u64|
        is_collection_namespace(other) && (other != namespace || i != id)
            ==> #[trigger] record_of(t, other, kind, i) == record_of(s, other, kind, i)
}

/// An append puts the record under the id that the counter gave, moves that
/// counter up by one, and leaves every other record and counter alone.
pub proof fn lemma_appended(s: Contents, t: Contents, namespace: Seq<u8>, value: Seq<u8>)
    requires
        is_collection_namespace(namespace),
        appended(s, namespace, value) == Ok::<Contents, Fault>(t),
    ensures
        next_id_of(s, namespace) is Ok,
        next_id_of(s, namespace)->Ok_0 < u64::MAX,
        next_id_of(t, namespace) == Ok::<u64, Fault>((next_id_of(s, namespace)->Ok_0 + 1) as u64),
        forall|kind: EntityKind| #[trigger]
            record_of(t, namespace, kind, next_id_of(s, namespace)->Ok_0) == Ok::<Seq<u8>, Fault>(
                value,
            ),
        keeps_records(s, t),
        keeps_other_counters(s, t, namespace),
        changes_one_record(s, t, namespace, next_id_of(s, namespace)->Ok_0),
{
    let n = next_id_of(s, namespace)->Ok_0;
    lemma_u64_round_trip((n + 1) as u64);
    assert(counter_namespace(namespace) != namespace);
    assert forall|other: Seq<u8>|
        is_collection_namespace(other) && other != namespace implies #[trigger] next_id_of(
        t,
        other,
    ) == next_id_of(s, other) by {
        if counter_namespace(other) == counter_namespace(namespace) {
            assert(counter_namespace(other).drop_last() =~= other);
            assert(counter_namespace(namespace).drop_last() =~= namespace);
        }
        assert(counter_namespace(other) != namespace);
    }
    assert forall|other: Seq<u8>, kind: EntityKind, id: u64|
        is_collection_namespace(other) && record_of(s, other, kind, id) is Ok
            implies #[trigger] record_of(t, other, kind, id) == record_of(s, other, kind, id) by {
        assert(other != counter_namespace(namespace));
        assert(counter_namespace(other) != namespace);
        if other != namespace {
            assert(next_id_of(t, other) == next_id_of(s, other));
        }
    }
    assert forall|other: Seq<u8>, kind: EntityKind, i: u64|
        is_collection_namespace(other) && (other != namespace || i != n)
            implies #[trigger] record_of(t, other, kind, i) == record_of(s, other, kind, i) by {
        assert(other != counter_namespace(namespace));
        assert(counter_namespace(other) != namespace);
        if other != namespace {
            assert(next_id_of(t, other) == next_id_of(s, other));
        }
    }
}

/// Keeping what can be read carries over a chain of changes.
pub proof fn law_keeps_entities_transitive(s: Contents, t: Contents, u: Contents)
    requires
        keeps_entities(s, t),
        keeps_entities(t, u),
    ensures
        keeps_entities(s, u),
{
}

/// An empty store holds no galaxy, and every collection starts at id 0.
pub proof fn law_empty_universe(galaxy_id: u64)
    ensures
        forall|namespace: Seq<u8>| #[trigger]
            next_id_of(Map::empty(), namespace) == Ok::<u64, Fault>(0),
        galaxy_at(Map::empty(), galaxy_id) == Err::<Galaxy, Fault>(
            Fault::NotFound(EntityKind::Galaxy, galaxy_id),
        ),
        milkyway_spawned(Map::empty(), galaxy_id) == Err::<Contents, Fault>(
            Fault::NotFound(EntityKind::Galaxy, galaxy_id),
        ),
{
}

/// A spawned galaxy gets the next galaxy id and can be read back under it; the
/// next id is then one higher, and nothing that could be read before is lost.
pub proof fn law_spawn_galaxy(s: Contents, t: Contents)
    requires
        galaxy_spawned(s) == Ok::<Contents, Fault>(t),
    ensures
        next_id_of(s, galaxies_namespace()) is Ok,
        galaxy_at(t, next_id_of(s, galaxies_namespace())->Ok_0) == Ok::<Galaxy, Fault>(
            Galaxy { id: next_id_of(s, galaxies_namespace())->Ok_0 },
        ),
        next_id_of(t, galaxies_namespace()) == Ok::<u64, Fault>(
            (next_id_of(s, galaxies_namespace())->Ok_0 + 1) as u64,
        ),
        keeps_entities(s, t),
        keeps_other_counters(s, t, galaxies_namespace()),
{
    let n = next_id_of(s, galaxies_namespace())->Ok_0;
    lemma_namespace_shapes(0, 0);
    lemma_appended(s, t, galaxies_namespace(), galaxy_record(n));
    assert(record_of(t, galaxies_namespace(), EntityKind::Galaxy, n) is Ok);
    lemma_kept_records_keep_entities(s, t);
}

/// A spawned milky way gets the next id of its galaxy and can be read back
/// under it; the next id is then one higher, and nothing that could be read
/// before is lost.
pub proof fn law_spawn_milkyway(s: Contents, t: Contents, galaxy_id: u64)
    requires
        milkyway_spawned(s, galaxy_id) == Ok::<Contents, Fault>(t),
    ensures
        galaxy_at(s, galaxy_id) is Ok,
        next_id_of(s, milkyways_namespace(galaxy_id)) is Ok,
        milkyway_at(t, galaxy_id, next_id_of(s, milkyways_namespace(galaxy_id))->Ok_0) == Ok::<
            MilkyWay,
            Fault,
        >(MilkyWay { galaxy_id, id: next_id_of(s, milkyways_namespace(galaxy_id))->Ok_0 }),
        next_id_of(t, milkyways_namespace(galaxy_id)) == Ok::<u64, Fault>(
            (next_id_of(s, milkyways_namespace(galaxy_id))->Ok_0 + 1) as u64,
        ),
        keeps_entities(s, t),
        keeps_other_counters(s, t, milkyways_namespace(galaxy_id)),
{
    let namespace = milkyways_namespace(galaxy_id);
    let n = next_id_of(s, namespace)->Ok_0;
    lemma_namespace_shapes(galaxy_id, 0);
    lemma_appended(s, t, namespace, milkyway_record(galaxy_id, n));
    assert(record_of(t, namespace, EntityKind::MilkyWay, n) is Ok);
    lemma_kept_records_keep_entities(s, t);
}

/// A spawned lifeform gets the next id of its milky way and can be read back
/// under it with the name it was given; the next id is then one higher, and
/// nothing that could be read before is lost.
pub proof fn law_spawn_lifeform(
    s: Contents,
    t: Contents,
    galaxy_id: u64,
    milkyway_id: u64,
    name: Seq<char>,
)
    requires
        lifeform_spawned(s, galaxy_id, milkyway_id, name) == Ok::<Contents, Fault>(t),
    ensures
        milkyway_at(s, galaxy_id, milkyway_id) is Ok,
        next_id_of(s, lifeforms_namespace(galaxy_id, milkyway_id)) is Ok,
        lifeform_at(
            t,
            galaxy_id,
            milkyway_id,
            next_id_of(s, lifeforms_namespace(galaxy_id, milkyway_id))->Ok_0,
        ) == Ok::<Seq<char>, Fault>(name),
        next_id_of(t, lifeforms_namespace(galaxy_id, milkyway_id)) == Ok::<u64, Fault>(
            (next_id_of(s, lifeforms_namespace(galaxy_id, milkyway_id))->Ok_0 + 1) as u64,
        ),
        keeps_entities(s, t),
        keeps_other_counters(s, t, lifeforms_namespace(galaxy_id, milkyway_id)),
{
    let namespace = lifeforms_namespace(galaxy_id, milkyway_id);
    let n = next_id_of(s, namespace)->Ok_0;
    lemma_namespace_shapes(galaxy_id, milkyway_id);
    lemma_name_round_trip(name);
    lemma_appended(s, t, namespace, name_bytes(name));
    assert(record_of(t, namespace, EntityKind::Lifeform, n) is Ok);
    lemma_kept_records_keep_entities(s, t);
}

/// Breeding two lifeforms spawns one whose name is the first parent's name
/// followed by the second's, under the next id of their milky way.
pub proof fn law_cross_breed(
    s: Contents,
    t: Contents,
    galaxy_id: u64,
    milkyway_id: u64,
    id_1: u64,
    id_2: u64,
)
    requires
        cross_bred(s, galaxy_id, milkyway_id, id_1, id_2) == Ok::<Contents, Fault>(t),
    ensures
        lifeform_at(s, galaxy_id, milkyway_id, id_1) is Ok,
        lifeform_at(s, galaxy_id, milkyway_id, id_2) is Ok,
        lifeform_spawned(
            s,
            galaxy_id,
            milkyway_id,
            lifeform_at(s, galaxy_id, milkyway_id, id_1)->Ok_0 + lifeform_at(
                s,
                galaxy_id,
                milkyway_id,
                id_2,
            )->Ok_0,
        ) == Ok::<Contents, Fault>(t),
        lifeform_at(
            t,
            galaxy_id,
            milkyway_id,
            next_id_of(s, lifeforms_namespace(galaxy_id, milkyway_id))->Ok_0,
        ) == Ok::<Seq<char>, Fault>(
            lifeform_at(s, galaxy_id, milkyway_id, id_1)->Ok_0 + lifeform_at(
                s,
                galaxy_id,
                milkyway_id,
                id_2,
            )->Ok_0,
        ),
        keeps_entities(s, t),
{
    let first = lifeform_in(s, galaxy_id, milkyway_id, id_1)->Ok_0;
    let second = lifeform_in(s, galaxy_id, milkyway_id, id_2)->Ok_0;
    law_spawn_lifeform(s, t, galaxy_id, milkyway_id, first + second);
}

/// A milky way spawned through a galaxy handle, with no write to the
/// galaxy's own record, can be read from the root as soon as the call is over.
pub proof fn law_galaxy_handle_writes_through(s: Contents, t: Contents, galaxy_id: u64)
    requires
        galaxy_at(s, galaxy_id) is Ok,
        milkyway_spawned_in(s, galaxy_id) == Ok::<Contents, Fault>(t),
    ensures
        milkyway_at(t, galaxy_id, next_id_of(s, milkyways_namespace(galaxy_id))->Ok_0) == Ok::<
            MilkyWay,
            Fault,
        >(MilkyWay { galaxy_id, id: next_id_of(s, milkyways_namespace(galaxy_id))->Ok_0 }),
        keeps_entities(s, t),
{
    law_spawn_milkyway(s, t, galaxy_id);
}

/// A lifeform spawned through a milky way handle, with no write to the
/// records of the milky way or of its galaxy, can be read from the root as
/// soon as the call is over.
pub proof fn law_milkyway_handle_writes_through(
    s: Contents,
    t: Contents,
    galaxy_id: u64,
    milkyway_id: u64,
    name: Seq<char>,
)
    requires
        milkyway_at(s, galaxy_id, milkyway_id) is Ok,
        lifeform_spawned_in(s, galaxy_id, milkyway_id, name) == Ok::<Contents, Fault>(t),
    ensures
        lifeform_at(
            t,
            galaxy_id,
            milkyway_id,
            next_id_of(s, lifeforms_namespace(galaxy_id, milkyway_id))->Ok_0,
        ) == Ok::<Seq<char>, Fault>(name),
        keeps_entities(s, t),
{
    law_spawn_lifeform(s, t, galaxy_id, milkyway_id, name);
}

/// A store that keeps every readable record keeps every readable entity.
proof fn lemma_kept_records_keep_entities(s: Contents, t: Contents)
    requires
        keeps_records(s, t),
    ensures
        keeps_entities(s, t),
{
    assert forall|g: u64| (#[trigger] galaxy_at(s, g)) is Ok implies galaxy_at(t, g) == galaxy_at(
        s,
        g,
    ) by {
        lemma_kept_galaxy(s, t, g);
    }
    assert forall|g: u64, m: u64| (#[trigger] milkyway_at(s, g, m)) is Ok implies milkyway_at(
        t,
        g,
        m,
    ) == milkyway_at(s, g, m) by {
        lemma_kept_galaxy(s, t, g);
        lemma_kept_milkyway(s, t, g, m);
    }
    assert forall|g: u64, m: u64, id: u64| (#[trigger] lifeform_at(s, g, m, id)) is Ok implies
        lifeform_at(t, g, m, id) == lifeform_at(s, g, m, id) by {
        lemma_kept_galaxy(s, t, g);
        lemma_kept_milkyway(s, t, g, m);
        lemma_namespace_shapes(g, m);
        let namespace = lifeforms_namespace(g, m);
        assert(record_of(s, namespace, EntityKind::Lifeform, id) is Ok);
        assert(record_of(t, namespace, EntityKind::Lifeform, id) == record_of(
            s,
            namespace,
            EntityKind::Lifeform,
            id,
        ));
    }
}

proof fn lemma_kept_galaxy(s: Contents, t: Contents, g: u64)
    requires
        keeps_records(s, t),
        galaxy_at(s, g) is Ok,
    ensures
        galaxy_at(t, g) == galaxy_at(s, g),
{
    lemma_namespace_shapes(g, 0);
    assert(record_of(s, galaxies_namespace(), EntityKind::Galaxy, g) is Ok);
    assert(record_of(t, galaxies_namespace(), EntityKind::Galaxy, g) == record_of(
        s,
        galaxies_namespace(),
        EntityKind::Galaxy,
        g,
    ));
}

proof fn lemma_kept_milkyway(s: Contents, t: Contents, g: u64, m: u64)
    requires
        keeps_records(s, t),
        milkyway_in(s, g, m) is Ok,
    ensures
        milkyway_in(t, g, m) == milkyway_in(s, g, m),
{
    lemma_namespace_shapes(g, m);
    assert(record_of(s, milkyways_namespace(g), EntityKind::MilkyWay, m) is Ok);
    assert(record_of(t, milkyways_namespace(g), EntityKind::MilkyWay, m) == record_of(
        s,
        milkyways_namespace(g),
        EntityKind::MilkyWay,
        m,
    ));
}

/// One spawn, as the root offers it.
pub enum SpawnOp {
    Galaxy,
    MilkyWay(u64),
    Lifeform(u64, u64, Seq<char>),
}

/// The store after one spawn.
pub open spec fn spawned(s: Contents, op: SpawnOp) -> Result<Contents, Fault> {
    match op {
        SpawnOp::Galaxy => galaxy_spawned(s),
        SpawnOp::MilkyWay(g) => milkyway_spawned(s, g),
        SpawnOp::Lifeform(g, m, name) => lifeform_spawned(s, g, m, name),
    }
}

/// The store after a sequence of spawns, each on what the one before left, if
/// all of them succeed.
pub open spec fn spawned_all(s: Contents, ops: Seq<SpawnOp>) -> Result<Contents, Fault>
    decreases ops.len(),
{
    if ops.len() == 0 {
        Ok(s)
    } else {
        match spawned_all(s, ops.drop_last()) {
            Err(e) => Err(e),
            Ok(t) => spawned(t, ops.last()),
        }
    }
}

/// What `op` creates when it runs on `s` can be read from `t`, under the id
/// that `s` had next for it and with the data that `op` gave.
pub open spec fn holds_creation(s: Contents, op: SpawnOp, t: Contents) -> bool {
    match op {
        SpawnOp::Galaxy => {
            &&& next_id_of(s, galaxies_namespace()) is Ok
            &&& galaxy_at(t, next_id_of(s, galaxies_namespace())->Ok_0) == Ok::<Galaxy, Fault>(
                Galaxy { id: next_id_of(s, galaxies_namespace())->Ok_0 },
            )
        },
        SpawnOp::MilkyWay(g) => {
            &&& next_id_of(s, milkyways_namespace(g)) is Ok
            &&& milkyway_at(t, g, next_id_of(s, milkyways_namespace(g))->Ok_0) == Ok::<
                MilkyWay,
                Fault,
            >(MilkyWay { galaxy_id: g, id: next_id_of(s, milkyways_namespace(g))->Ok_0 })
        },
        SpawnOp::Lifeform(g, m, name) => {
            &&& next_id_of(s, lifeforms_namespace(g, m)) is Ok
            &&& lifeform_at(t, g, m, next_id_of(s, lifeforms_namespace(g, m))->Ok_0) == Ok::<
                Seq<char>,
                Fault,
            >(name)
        },
    }
}

/// One spawn: what it creates can be read afterwards, and nothing that could
/// be read before is lost.
pub proof fn law_spawn(s: Contents, t: Contents, op: SpawnOp)
    requires
        spawned(s, op) == Ok::<Contents, Fault>(t),
    ensures
        holds_creation(s, op, t),
        keeps_entities(s, t),
{
    match op {
        SpawnOp::Galaxy => law_spawn_galaxy(s, t),
        SpawnOp::MilkyWay(g) => law_spawn_milkyway(s, t, g),
        SpawnOp::Lifeform(g, m, name) => law_spawn_lifeform(s, t, g, m, name),
    }
}

/// After any sequence of spawns that all succeeded, what each of them created
/// can still be read, under the id it got and with the data it was given, and
/// so can everything that could be read before the sequence.
pub proof fn law_spawn_durability(s: Contents, t: Contents, ops: Seq<SpawnOp>, i: int)
    requires
        spawned_all(s, ops) == Ok::<Contents, Fault>(t),
        0 <= i < ops.len(),
    ensures
        spawned_all(s, ops.take(i)) is Ok,
        holds_creation(spawned_all(s, ops.take(i))->Ok_0, ops[i], t),
        keeps_entities(s, t),
    decreases ops.len(),
{
    let before_last = spawned_all(s, ops.drop_last())->Ok_0;
    law_spawn(before_last, t, ops.last());
    lemma_spawned_all_keeps_entities(s, before_last, ops.drop_last());
    if i == ops.len() - 1 {
        assert(ops.take(i) =~= ops.drop_last());
    } else {
        assert(ops.drop_last().take(i) =~= ops.take(i));
        law_spawn_durability(s, before_last, ops.drop_last(), i);
    }
}

proof fn lemma_spawned_all_keeps_entities(s: Contents, t: Contents, ops: Seq<SpawnOp>)
    requires
        spawned_all(s, ops) == Ok::<Contents, Fault>(t),
    ensures
        keeps_entities(s, t),
    decreases ops.len(),
{
    if ops.len() > 0 {
        let before_last = spawned_all(s, ops.drop_last())->Ok_0;
        lemma_spawned_all_keeps_entities(s, before_last, ops.drop_last());
        law_spawn(before_last, t, ops.last());
    }
}

/// The ids in use are exactly those below the counter, in every collection:
/// each id below it holds an entity with that id, and each other id is
/// reported as not found, never as damaged.
pub open spec fn dense(s: Contents) -> bool {
    &&& next_id_of(s, galaxies_namespace()) is Ok
    &&& forall|g: u64| #[trigger]
        galaxy_at(s, g) == (if g < next_id_of(s, galaxies_namespace())->Ok_0 {
            Ok::<Galaxy, Fault>(Galaxy { id: g })
        } else {
            Err::<Galaxy, Fault>(Fault::NotFound(EntityKind::Galaxy, g))
        })
    &&& forall|g: u64| (#[trigger] next_id_of(s, milkyways_namespace(g))) is Ok
    &&& forall|g: u64, m: u64| #[trigger]
        milkyway_in(s, g, m) == (if m < next_id_of(s, milkyways_namespace(g))->Ok_0 {
            Ok::<MilkyWay, Fault>(MilkyWay { galaxy_id: g, id: m })
        } else {
            Err::<MilkyWay, Fault>(Fault::NotFound(EntityKind::MilkyWay, m))
        })
    &&& forall|g: u64, m: u64| (#[trigger] next_id_of(s, lifeforms_namespace(g, m))) is Ok
    &&& forall|g: u64, m: u64, id: u64|
        if id < next_id_of(s, lifeforms_namespace(g, m))->Ok_0 {
            (#[trigger] lifeform_in(s, g, m, id)) is Ok
        } else {
            lifeform_in(s, g, m, id) == Err::<Seq<char>, Fault>(
                Fault::NotFound(EntityKind::Lifeform, id),
            )
        }
}

/// An empty store is dense: every counter is 0 and nothing is found.
pub proof fn law_empty_is_dense()
    ensures
        dense(Map::empty()),
{
}

/// A spawn keeps a dense store dense: with the law of each spawn, ids are
/// handed out as 0, 1, 2 and so on, none twice and none left out, however
/// often the store is put away and opened again in between.
pub proof fn law_spawn_keeps_dense(s: Contents, t: Contents, op: SpawnOp)
    requires
        dense(s),
        spawned(s, op) == Ok::<Contents, Fault>(t),
    ensures
        dense(t),
{
    match op {
        SpawnOp::Galaxy => {
            let n = next_id_of(s, galaxies_namespace())->Ok_0;
            assert forall|g: u64| galaxies_namespace() != #[trigger] milkyways_namespace(g) by {
                lemma_namespace_shapes(g, 0);
            }
            assert forall|g: u64, m: u64|
                galaxies_namespace() != #[trigger] lifeforms_namespace(g, m) by {
                lemma_namespace_shapes(g, m);
            }
            lemma_namespace_shapes(0, 0);
            lemma_dense_after_append(s, t, galaxies_namespace(), galaxy_record(n));
        },
        SpawnOp::MilkyWay(g0) => {
            let namespace = milkyways_namespace(g0);
            let n = next_id_of(s, namespace)->Ok_0;
            lemma_namespace_shapes(g0, 0);
            assert forall|g: u64, m: u64|
                namespace != galaxies_namespace() && namespace != #[trigger] lifeforms_namespace(
                    g,
                    m,
                ) by {
                lemma_namespace_shapes(g, m);
                lemma_namespace_shapes(g0, m);
            }
            assert forall|g: u64| namespace == #[trigger] milkyways_namespace(g) implies g
                == g0 by {
                if g != g0 {
                    lemma_milkyways_namespace_injective(g, g0);
                }
            }
            lemma_dense_after_append(s, t, namespace, milkyway_record(g0, n));
        },
        SpawnOp::Lifeform(g0, m0, name) => {
            let namespace = lifeforms_namespace(g0, m0);
            lemma_namespace_shapes(g0, m0);
            assert forall|g: u64|
                namespace != galaxies_namespace() && namespace != #[trigger] milkyways_namespace(
                    g,
                ) by {
                lemma_namespace_shapes(g, m0);
                lemma_namespace_shapes(g0, m0);
            }
            lemma_name_round_trip(name);
            lemma_dense_after_append(s, t, namespace, name_bytes(name));
        },
    }
}

proof fn lemma_dense_after_append(s: Contents, t: Contents, namespace: Seq<u8>, value: Seq<u8>)
    requires
        dense(s),
        is_collection_namespace(namespace),
        appended(s, namespace, value) == Ok::<Contents, Fault>(t),
        namespace == galaxies_namespace() ==> value == galaxy_record(
            next_id_of(s, namespace)->Ok_0,
        ),
        forall|g: u64|
            namespace == #[trigger] milkyways_namespace(g) ==> value == milkyway_record(
                g,
                next_id_of(s, namespace)->Ok_0,
            ),
        forall|g: u64, m: u64|
            namespace == #[trigger] lifeforms_namespace(g, m) ==> parse_name(value) is Some,
    ensures
        dense(t),
{
    let n = next_id_of(s, namespace)->Ok_0;
    lemma_appended(s, t, namespace, value);
    lemma_namespace_shapes(0, 0);
    let galaxies = galaxies_namespace();
    assert(next_id_of(t, galaxies) is Ok);
    assert forall|g: u64| #[trigger]
        galaxy_at(t, g) == (if g < next_id_of(t, galaxies)->Ok_0 {
            Ok::<Galaxy, Fault>(Galaxy { id: g })
        } else {
            Err::<Galaxy, Fault>(Fault::NotFound(EntityKind::Galaxy, g))
        }) by {
        if galaxies == namespace && g == n {
            assert(record_of(t, namespace, EntityKind::Galaxy, n) == Ok::<Seq<u8>, Fault>(value));
        } else {
            assert(record_of(t, galaxies, EntityKind::Galaxy, g) == record_of(
                s,
                galaxies,
                EntityKind::Galaxy,
                g,
            ));
            assert(galaxy_at(t, g) == galaxy_at(s, g));
        }
    }
    assert forall|g: u64| (#[trigger] next_id_of(t, milkyways_namespace(g))) is Ok by {
        lemma_namespace_shapes(g, 0);
        assert(next_id_of(s, milkyways_namespace(g)) is Ok);
    }
    assert forall|g: u64, m: u64| #[trigger]
        milkyway_in(t, g, m) == (if m < next_id_of(t, milkyways_namespace(g))->Ok_0 {
            Ok::<MilkyWay, Fault>(MilkyWay { galaxy_id: g, id: m })
        } else {
            Err::<MilkyWay, Fault>(Fault::NotFound(EntityKind::MilkyWay, m))
        }) by {
        lemma_namespace_shapes(g, 0);
        let milkyways = milkyways_namespace(g);
        assert(next_id_of(s, milkyways) is Ok);
        if milkyways == namespace && m == n {
            assert(record_of(t, namespace, EntityKind::MilkyWay, n) == Ok::<Seq<u8>, Fault>(
                value,
            ));
        } else {
            assert(record_of(t, milkyways, EntityKind::MilkyWay, m) == record_of(
                s,
                milkyways,
                EntityKind::MilkyWay,
                m,
            ));
            assert(milkyway_in(t, g, m) == milkyway_in(s, g, m));
        }
    }
    assert forall|g: u64, m: u64| (#[trigger] next_id_of(t, lifeforms_namespace(g, m))) is Ok by {
        lemma_namespace_shapes(g, m);
        assert(next_id_of(s, lifeforms_namespace(g, m)) is Ok);
    }
    assert forall|g: u64, m: u64, id: u64|
        if id < next_id_of(t, lifeforms_namespace(g, m))->Ok_0 {
            (#[trigger] lifeform_in(t, g, m, id)) is Ok
        } else {
            lifeform_in(t, g, m, id) == Err::<Seq<char>, Fault>(
                Fault::NotFound(EntityKind::Lifeform, id),
            )
        } by {
        lemma_namespace_shapes(g, m);
        let lifeforms = lifeforms_namespace(g, m);
        assert(next_id_of(s, lifeforms) is Ok);
        if lifeforms == namespace && id == n {
            assert(record_of(t, namespace, EntityKind::Lifeform, n) == Ok::<Seq<u8>, Fault>(
                value,
            ));
        } else {
            assert(record_of(t, lifeforms, EntityKind::Lifeform, id) == record_of(
                s,
                lifeforms,
                EntityKind::Lifeform,
                id,
            ));
            assert(lifeform_in(t, g, m, id) == lifeform_in(s, g, m, id));
        }
    }
}

/// In a dense store a galaxy can be spawned unless the ids have run out.
pub proof fn law_spawn_galaxy_succeeds(s: Contents)
    requires
        dense(s),
    ensures
        galaxy_spawned(s) is Ok <==> next_id_of(s, galaxies_namespace())->Ok_0 < u64::MAX,
        galaxy_spawned(s) is Err ==> galaxy_spawned(s) == Err::<Contents, Fault>(
            Fault::IdsExhausted,
        ),
{
    let n = next_id_of(s, galaxies_namespace())->Ok_0;
    assert(galaxy_at(s, n) is Err);
}

/// In a dense store a milky way can be spawned exactly in a galaxy that
/// exists and has ids left; a missing galaxy is reported as not found.
pub proof fn law_spawn_milkyway_succeeds(s: Contents, galaxy_id: u64)
    requires
        dense(s),
    ensures
        milkyway_spawned(s, galaxy_id) is Ok <==> {
            &&& galaxy_id < next_id_of(s, galaxies_namespace())->Ok_0
            &&& next_id_of(s, milkyways_namespace(galaxy_id))->Ok_0 < u64::MAX
        },
        galaxy_id >= next_id_of(s, galaxies_namespace())->Ok_0 ==> milkyway_spawned(s, galaxy_id)
            == Err::<Contents, Fault>(Fault::NotFound(EntityKind::Galaxy, galaxy_id)),
{
    let n = next_id_of(s, milkyways_namespace(galaxy_id))->Ok_0;
    assert(galaxy_at(s, galaxy_id) is Ok <==> galaxy_id < next_id_of(
        s,
        galaxies_namespace(),
    )->Ok_0);
    assert(milkyway_in(s, galaxy_id, n) is Err);
}

/// In a dense store a lifeform can be spawned exactly in a milky way that
/// exists, in a galaxy that exists, if the milky way has ids left and the name
/// can be encoded; a missing galaxy or milky way is reported as not found.
pub proof fn law_spawn_lifeform_succeeds(
    s: Contents,
    galaxy_id: u64,
    milkyway_id: u64,
    name: Seq<char>,
)
    requires
        dense(s),
    ensures
        lifeform_spawned(s, galaxy_id, milkyway_id, name) is Ok <==> {
            &&& galaxy_id < next_id_of(s, galaxies_namespace())->Ok_0
            &&& milkyway_id < next_id_of(s, milkyways_namespace(galaxy_id))->Ok_0
            &&& next_id_of(s, lifeforms_namespace(galaxy_id, milkyway_id))->Ok_0 < u64::MAX
            &&& name_fits(name)
        },
        galaxy_id >= next_id_of(s, galaxies_namespace())->Ok_0 ==> lifeform_spawned(
            s,
            galaxy_id,
            milkyway_id,
            name,
        ) == Err::<Contents, Fault>(Fault::NotFound(EntityKind::Galaxy, galaxy_id)),
        galaxy_id < next_id_of(s, galaxies_namespace())->Ok_0 && milkyway_id >= next_id_of(
            s,
            milkyways_namespace(galaxy_id),
        )->Ok_0 ==> lifeform_spawned(s, galaxy_id, milkyway_id, name) == Err::<Contents, Fault>(
            Fault::NotFound(EntityKind::MilkyWay, milkyway_id),
        ),
{
    let n = next_id_of(s, lifeforms_namespace(galaxy_id, milkyway_id))->Ok_0;
    assert(galaxy_at(s, galaxy_id) is Ok <==> galaxy_id < next_id_of(
        s,
        galaxies_namespace(),
    )->Ok_0);
    assert(milkyway_in(s, galaxy_id, milkyway_id) is Ok <==> milkyway_id < next_id_of(
        s,
        milkyways_namespace(galaxy_id),
    )->Ok_0);
    assert(lifeform_in(s, galaxy_id, milkyway_id, n) is Err);
}

/// In a dense store two lifeforms can be bred exactly if both exist, in a
/// milky way that exists, in a galaxy that exists, the milky way has ids left
/// and the joined name can be encoded.
pub proof fn law_cross_breed_succeeds(
    s: Contents,
    galaxy_id: u64,
    milkyway_id: u64,
    id_1: u64,
    id_2: u64,
)
    requires
        dense(s),
    ensures
        cross_bred(s, galaxy_id, milkyway_id, id_1, id_2) is Ok <==> {
            &&& galaxy_id < next_id_of(s, galaxies_namespace())->Ok_0
            &&& milkyway_id < next_id_of(s, milkyways_namespace(galaxy_id))->Ok_0
            &&& id_1 < next_id_of(s, lifeforms_namespace(galaxy_id, milkyway_id))->Ok_0
            &&& id_2 < next_id_of(s, lifeforms_namespace(galaxy_id, milkyway_id))->Ok_0
            &&& next_id_of(s, lifeforms_namespace(galaxy_id, milkyway_id))->Ok_0 < u64::MAX
            &&& name_fits(
                lifeform_in(s, galaxy_id, milkyway_id, id_1)->Ok_0 + lifeform_in(
                    s,
                    galaxy_id,
                    milkyway_id,
                    id_2,
                )->Ok_0,
            )
        },
{
    let first = lifeform_in(s, galaxy_id, milkyway_id, id_1);
    let second = lifeform_in(s, galaxy_id, milkyway_id, id_2);
    assert(first is Ok <==> id_1 < next_id_of(
        s,
        lifeforms_namespace(galaxy_id, milkyway_id),
    )->Ok_0);
    assert(second is Ok <==> id_2 < next_id_of(
        s,
        lifeforms_namespace(galaxy_id, milkyway_id),
    )->Ok_0);
    if first is Ok && second is Ok {
        law_spawn_lifeform_succeeds(s, galaxy_id, milkyway_id, first->Ok_0 + second->Ok_0);
    } else {
        assert(galaxy_at(s, galaxy_id) is Ok <==> galaxy_id < next_id_of(
            s,
            galaxies_namespace(),
        )->Ok_0);
        assert(milkyway_in(s, galaxy_id, milkyway_id) is Ok <==> milkyway_id < next_id_of(
            s,
            milkyways_namespace(galaxy_id),
        )->Ok_0);
    }
}

/// No collection has a parent that is not stored: where a galaxy or a milky
/// way cannot be read, the collection that would be its own is untouched, so a
/// parent's first child gets id 0.
pub open spec fn rooted(s: Contents) -> bool {
    &&& forall|g: u64|
        !(galaxy_at(s, g) is Ok) ==> #[trigger] next_id_of(s, milkyways_namespace(g)) == Ok::<
            u64,
            Fault,
        >(0)
    &&& forall|g: u64, m: u64|
        !(milkyway_at(s, g, m) is Ok) ==> #[trigger] next_id_of(s, lifeforms_namespace(g, m))
            == Ok::<u64, Fault>(0)
}

/// An empty store is rooted.
pub proof fn law_empty_is_rooted()
    ensures
        rooted(Map::empty()),
{
}

/// A spawn made through the root keeps the store rooted.
pub proof fn law_spawn_keeps_rooted(s: Contents, t: Contents, op: SpawnOp)
    requires
        rooted(s),
        spawned(s, op) == Ok::<Contents, Fault>(t),
    ensures
        rooted(t),
{
    match op {
        SpawnOp::Galaxy => law_spawn_galaxy(s, t),
        SpawnOp::MilkyWay(g0) => law_spawn_milkyway(s, t, g0),
        SpawnOp::Lifeform(g0, m0, name) => law_spawn_lifeform(s, t, g0, m0, name),
    }
    assert forall|g: u64| !(galaxy_at(t, g) is Ok) implies #[trigger] next_id_of(
        t,
        milkyways_namespace(g),
    ) == Ok::<u64, Fault>(0) by {
        lemma_namespace_shapes(g, 0);
        assert(!(galaxy_at(s, g) is Ok));
        assert(next_id_of(s, milkyways_namespace(g)) == Ok::<u64, Fault>(0));
        match op {
            SpawnOp::Galaxy => {},
            SpawnOp::MilkyWay(g0) => {
                if g != g0 {
                    lemma_milkyways_namespace_injective(g, g0);
                }
            },
            SpawnOp::Lifeform(g0, m0, name) => {
                lemma_namespace_shapes(g0, m0);
            },
        }
    }
    assert forall|g: u64, m: u64| !(milkyway_at(t, g, m) is Ok) implies #[trigger] next_id_of(
        t,
        lifeforms_namespace(g, m),
    ) == Ok::<u64, Fault>(0) by {
        lemma_namespace_shapes(g, m);
        assert(!(milkyway_at(s, g, m) is Ok));
        assert(next_id_of(s, lifeforms_namespace(g, m)) == Ok::<u64, Fault>(0));
        match op {
            SpawnOp::Galaxy => {},
            SpawnOp::MilkyWay(g0) => {
                lemma_namespace_shapes(g0, 0);
            },
            SpawnOp::Lifeform(g0, m0, name) => {
                if g != g0 || m != m0 {
                    lemma_lifeforms_namespace_injective(g, m, g0, m0);
                }
            },
        }
    }
}

} // verus!
