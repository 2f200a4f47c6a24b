//! The durable map: a mapping from a namespace and a key to a byte string.

use vstd::prelude::*;
use crate::codec::{bytes_eq, copy_bytes};

verus! {

/// What a durable map holds: a value for some pairs of a namespace and a key.
pub type Contents = Map<(Seq<u8>, u64), Seq<u8>>;

/// One stored value with its address.
#[derive(Clone, PartialEq, Eq, Debug)]
pub struct Entry {
    pub namespace: Vec<u8>,
    pub key: u64,
    pub value: Vec<u8>,
}

/// The address of an entry.
pub open spec fn address(entry: Entry) -> (Seq<u8>, u64) {
    (entry.namespace@, entry.key)
}

/// The mapping that a list of entries stands for: where an address occurs more
/// than once, the last entry counts.
pub open spec fn replay(log: Seq<Entry>) -> Contents
    decreases log.len(),
{
    if log.len() == 0 {
        Map::empty()
    } else {
        replay(log.drop_last()).insert(address(log.last()), log.last().value@)
    }
}

proof fn lemma_replay_absent(log: Seq<Entry>, at: (Seq<u8>, u64))
    requires
        forall|j: int| 0 <= j < log.len() ==> address(#[trigger] log[j]) != at,
    ensures
        !replay(log).contains_key(at),
    decreases log.len(),
{
    if log.len() > 0 {
        lemma_replay_absent(log.drop_last(), at);
    }
}

proof fn lemma_replay_present(log: Seq<Entry>, i: int, at: (Seq<u8>, u64))
    requires
        0 <= i < log.len(),
        address(log[i]) == at,
        forall|j: int| i < j < log.len() ==> address(#[trigger] log[j]) != at,
    ensures
        replay(log).contains_key(at),
        replay(log)[at] == log[i].value@,
    decreases log.len(),
{
    if i < log.len() - 1 {
        lemma_replay_present(log.drop_last(), i, at);
    }
}

proof fn lemma_replay_update(log: Seq<Entry>, i: int, entry: Entry)
    requires
        0 <= i < log.len(),
        address(log[i]) == address(entry),
        forall|j: int| i < j < log.len() ==> address(#[trigger] log[j]) != address(entry),
    ensures
        replay(log.update(i, entry)) == replay(log).insert(address(entry), entry.value@),
    decreases log.len(),
{
    let changed = log.update(i, entry);
    if i == log.len() - 1 {
        assert(changed.drop_last() =~= log.drop_last());
    } else {
        assert(changed.drop_last() =~= log.drop_last().update(i, entry));
        lemma_replay_update(log.drop_last(), i, entry);
    }
    assert(replay(changed) =~= replay(log).insert(address(entry), entry.value@));
}

/// A durable map, held as a list of entries.
pub struct DurableMap {
    entries: Vec<Entry>,
}

impl View for DurableMap {
    type V = Contents;

    closed spec fn view(&self) -> Contents {
        replay(self.entries@)
    }
}

impl DurableMap {
    /// The empty map.
    pub fn new() -> (r: Self)
        ensures
            r@ == Map::<(Seq<u8>, u64), Seq<u8>>::empty(),
    {
        DurableMap { entries: Vec::new() }
    }

    /// The map that a list of entries stands for.
    pub fn from_entries(entries: Vec<Entry>) -> (r: Self)
        ensures
            r@ == replay(entries@),
    {
        DurableMap { entries }
    }

    /// A list of entries that stands for this map.
    pub fn into_entries(self) -> (r: Vec<Entry>)
        ensures
            replay(r@) == self@,
    {
        self.entries
    }

    /// The entries held: a list that stands for this map.
    pub fn entries(&self) -> (r: &Vec<Entry>)
        ensures
            replay(r@) == self@,
    {
        &self.entries
    }

    fn find_last(&self, namespace: &Vec<u8>, key: u64) -> (r: Option<usize>)
        ensures
            match r {
                Some(i) => {
                    &&& i < self.entries@.len()
                    &&& address(self.entries@[i as int]) == (namespace@, key)
                    &&& forall|j: int|
                        i < j < self.entries@.len() ==> address(#[trigger] self.entries@[j]) != (
                            namespace@,
                            key,
                        )
                },
                None => forall|j: int|
                    0 <= j < self.entries@.len() ==> address(#[trigger] self.entries@[j]) != (
                        namespace@,
                        key,
                    ),
            },
    {
        let mut i: usize = self.entries.len();
        while i > 0
            invariant
                i <= self.entries@.len(),
                forall|j: int|
                    i <= j < self.entries@.len() ==> address(#[trigger] self.entries@[j]) != (
                        namespace@,
                        key,
                    ),
            decreases i,
        {
            i -= 1;
            let entry = &self.entries[i];
            if entry.key == key && bytes_eq(&entry.namespace, namespace) {
                return Some(i);
            }
        }
        None
    }

    /// The value stored under `key` in `namespace`, if there is one.
    pub fn get(&self, namespace: &Vec<u8>, key: u64) -> (r: Option<Vec<u8>>)
        ensures
            match r {
                Some(value) => self@.contains_key((namespace@, key)) && self@[(namespace@, key)]
                    == value@,
                None => !self@.contains_key((namespace@, key)),
            },
    {
        match self.find_last(namespace, key) {
            Some(i) => {
                proof {
                    lemma_replay_present(self.entries@, i as int, (namespace@, key));
                }
                Some(copy_bytes(&self.entries[i].value))
            },
            None => {
                proof {
                    lemma_replay_absent(self.entries@, (namespace@, key));
                }
                None
            },
        }
    }

    /// Stores `value` under `key` in `namespace`, in place of what was there.
    pub fn put(&mut self, namespace: Vec<u8>, key: u64, value: Vec<u8>)
        ensures
            final(self)@ == old(self)@.insert((namespace@, key), value@),
    {
        let found = self.find_last(&namespace, key);
        let entry = Entry { namespace, key, value };
        match found {
            Some(i) => {
                proof {
                    lemma_replay_update(self.entries@, i as int, entry);
                }
                self.entries.set(i, entry);
            },
            None => {
                self.entries.push(entry);
                assert(self.entries@.drop_last() =~= old(self).entries@);
            },
        }
    }
}

} // verus!
