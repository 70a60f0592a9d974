//! Entity resolution: the fields this instance contributes for an entity
//! that a composition layer names by an opaque id.
//!
//! Resolution only reads. The value is looked up under the id with a fixed
//! prefix; an entity of which nothing is recorded gets the default.

use vstd::prelude::*;
use vstd::string::StringExecFns;
use crate::store::KeyedStore;

verus! {

/// The count of an entity of which nothing is recorded.
pub const DEFAULT_COUNT: i32 = 100;

/// The key under which the count of the entity `id` is kept.
pub open spec fn entity_key(id: Seq<char>) -> Seq<char> {
    "endpoint_"@ + id
}

/// The count that resolution gives for `id` against `store`.
pub open spec fn count_of(store: Map<Seq<char>, i32>, id: Seq<char>) -> i32 {
    if store.contains_key(entity_key(id)) {
        store[entity_key(id)]
    } else {
        DEFAULT_COUNT
    }
}

/// The fields contributed for one entity.
pub struct Endpoint {
    pub id: String,
    pub subgraph2_count: Option<i32>,
}

impl Endpoint {
    /// Resolves the entity `id` against `store`: its recorded count, or the
    /// default where none is recorded. Never fails and changes nothing.
    pub fn find_by_id(id: &str, store: &KeyedStore) -> (e: Endpoint)
        requires
            store.wf(),
        ensures
            e.id@ == id@,
            e.subgraph2_count == Some(count_of(store@, id@)),
    {
        let mut key = String::from_str("endpoint_");
        key.append(id);
        let count: i32 = match store.get(key.as_str()) {
            Some(c) => c,
            None => DEFAULT_COUNT,
        };
        Endpoint { id: String::from_str(id), subgraph2_count: Some(count) }
    }
}

} // verus!
