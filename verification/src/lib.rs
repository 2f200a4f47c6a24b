//! A three-level entity store (a universe of galaxies, of milky ways, of named
//! lifeforms) kept in a flat durable map from a namespace and a key to bytes.
//!
//! Every collection lives in the map under a namespace derived from the ids of
//! its ancestors, and its id counter lives in the map beside it. A galaxy or a
//! milky way read from the store is a handle that carries ids and nothing
//! else: it caches no counter and no children. Whatever a handle writes goes
//! straight to the map, so a mutation is durable at every level once the call
//! that made it returns, and no caller has to store an ancestor again.

pub mod codec;
pub mod namespace;
pub mod store;
pub mod collection;
pub mod entity;
pub mod universe;
pub mod model;
pub mod laws;
