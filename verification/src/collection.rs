//! Collection handles: a namespace of the durable map read as a list of
//! records with ids `0, 1, 2, ...`, and the counter that hands out the ids.
//!
//! A handle holds no data. Reading decodes what the map holds at the moment of
//! the call, and appending writes the record and the advanced counter to the
//! map before it returns.

use vstd::prelude::*;
use crate::codec::{copy_bytes, decode_u64, encode_u64, parse_u64, u64_bytes};
use crate::namespace::{counter_namespace, counter_path};
use crate::store::{DurableMap, Contents};

verus! {

/// The three kinds of entity that a collection can hold.
#[derive(Clone, Copy, PartialEq, Eq, Structural, Debug)]
pub enum EntityKind {
    Galaxy,
    MilkyWay,
    Lifeform,
}

/// Why an operation on the store failed.
#[derive(Clone, PartialEq, Eq, Debug)]
pub enum StoreError {
    /// No entity of this kind has this id.
    NotFound(EntityKind, u64),
    /// The bytes stored in this namespace under this key have the wrong shape.
    Corrupt(Vec<u8>, u64),
    /// A collection's counter and its records disagree: a record is missing
    /// below the counter, or one is present at or above it.
    Inconsistent,
    /// The collection has handed out every id but the last.
    IdsExhausted,
    /// The name is too long to be stored.
    NameTooLong,
}

/// A `StoreError` as a mathematical value.
pub enum Fault {
    NotFound(EntityKind, u64),
    Corrupt(Seq<u8>, u64),
    Inconsistent,
    IdsExhausted,
    NameTooLong,
}

impl View for StoreError {
    type V = Fault;

    open spec fn view(&self) -> Fault {
        match self {
            StoreError::NotFound(kind, id) => Fault::NotFound(*kind, *id),
            StoreError::Corrupt(namespace, key) => Fault::Corrupt(namespace@, *key),
            StoreError::Inconsistent => Fault::Inconsistent,
            StoreError::IdsExhausted => Fault::IdsExhausted,
            StoreError::NameTooLong => Fault::NameTooLong,
        }
    }
}

/// The address of the counter of the collection `namespace`.
pub open spec fn counter_address(namespace: Seq<u8>) -> (Seq<u8>, u64) {
    (counter_namespace(namespace), 0u64)
}

/// The next id of the collection `namespace`: 0 while no counter is stored,
/// else the stored counter.
pub open spec fn next_id_of(s: Contents, namespace: Seq<u8>) -> Result<u64, Fault> {
    let at = counter_address(namespace);
    if !s.contains_key(at) {
        Ok(0u64)
    } else {
        match parse_u64(s[at]) {
            Some(n) => Ok(n),
            None => Err(Fault::Corrupt(at.0, at.1)),
        }
    }
}

/// The record with id `id` of the collection `namespace`. Ids below the
/// counter have a record and the others have none; anything else is
/// inconsistent.
pub open spec fn record_of(s: Contents, namespace: Seq<u8>, kind: EntityKind, id: u64) -> Result<
    Seq<u8>,
    Fault,
> {
    match next_id_of(s, namespace) {
        Err(e) => Err(e),
        Ok(n) => {
            if s.contains_key((namespace, id)) {
                if id < n {
                    Ok(s[(namespace, id)])
                } else {
                    Err(Fault::Inconsistent)
                }
            } else {
                if id < n {
                    Err(Fault::Inconsistent)
                } else {
                    Err(Fault::NotFound(kind, id))
                }
            }
        },
    }
}

/// The store after `value` was appended to the collection `namespace`: the
/// record stands under the next id and the counter is one higher.
pub open spec fn appended(s: Contents, namespace: Seq<u8>, value: Seq<u8>) -> Result<
    Contents,
    Fault,
> {
    match next_id_of(s, namespace) {
        Err(e) => Err(e),
        Ok(n) => {
            if s.contains_key((namespace, n)) {
                Err(Fault::Inconsistent)
            } else if n == u64::MAX {
                Err(Fault::IdsExhausted)
            } else {
                Ok(
                    s.insert((namespace, n), value).insert(
                        counter_address(namespace),
                        u64_bytes((n + 1) as u64),
                    ),
                )
            }
        },
    }
}

/// A handle on one collection of the durable map.
pub struct Collection {
    pub namespace: Vec<u8>,
    pub kind: EntityKind,
}

impl Collection {
    pub fn new(namespace: Vec<u8>, kind: EntityKind) -> (r: Self)
        ensures
            r.namespace == namespace,
            r.kind == kind,
    {
        Collection { namespace, kind }
    }

    /// The id that the next record of this collection gets.
    pub fn next_id(&self, store: &DurableMap) -> (r: Result<u64, StoreError>)
        ensures
            match r {
                Ok(n) => next_id_of(store@, self.namespace@) == Ok::<u64, Fault>(n),
                Err(e) => next_id_of(store@, self.namespace@) == Err::<u64, Fault>(e@),
            },
    {
        let path = counter_path(&self.namespace);
        match store.get(&path, 0) {
            None => Ok(0),
            Some(bytes) => match decode_u64(&bytes) {
                Some(n) => Ok(n),
                None => Err(StoreError::Corrupt(path, 0)),
            },
        }
    }

    /// The record with id `id`, as it stands in the store.
    pub fn get(&self, store: &DurableMap, id: u64) -> (r: Result<Vec<u8>, StoreError>)
        ensures
            match r {
                Ok(bytes) => record_of(store@, self.namespace@, self.kind, id) == Ok::<
                    Seq<u8>,
                    Fault,
                >(bytes@),
                Err(e) => record_of(store@, self.namespace@, self.kind, id) == Err::<
                    Seq<u8>,
                    Fault,
                >(e@),
            },
    {
        let n = match self.next_id(store) {
            Ok(n) => n,
            Err(e) => {
                return Err(e);
            },
        };
        match store.get(&self.namespace, id) {
            Some(bytes) => {
                if id < n {
                    Ok(bytes)
                } else {
                    Err(StoreError::Inconsistent)
                }
            },
            None => {
                if id < n {
                    Err(StoreError::Inconsistent)
                } else {
                    Err(StoreError::NotFound(self.kind, id))
                }
            },
        }
    }

    /// Appends a record and returns its id. On an error the store is as it
    /// was.
    pub fn append(&self, store: &mut DurableMap, value: Vec<u8>) -> (r: Result<u64, StoreError>)
        ensures
            match r {
                Ok(id) => {
                    &&& next_id_of(old(store)@, self.namespace@) == Ok::<u64, Fault>(id)
                    &&& appended(old(store)@, self.namespace@, value@) == Ok::<Contents, Fault>(
                        final(store)@,
                    )
                },
                Err(e) => {
                    &&& appended(old(store)@, self.namespace@, value@) == Err::<Contents, Fault>(
                        e@,
                    )
                    &&& final(store)@ == old(store)@
                },
            },
    {
        let n = match self.next_id(store) {
            Ok(n) => n,
            Err(e) => {
                return Err(e);
            },
        };
        if store.get(&self.namespace, n).is_some() {
            return Err(StoreError::Inconsistent);
        }
        if n == u64::MAX {
            return Err(StoreError::IdsExhausted);
        }
        let path = copy_bytes(&self.namespace);
        store.put(path, n, value);
        store.put(counter_path(&self.namespace), 0, encode_u64(n + 1));
        Ok(n)
    }
}

} // verus!
