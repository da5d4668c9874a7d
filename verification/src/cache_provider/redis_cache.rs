//! The location cache that a shared key-value store keeps.
//!
//! The store is reached by the caller. This module decides what an answer
//! of the store means for a lookup.

use vstd::prelude::*;

verus! {

/// What the store answered to a lookup.
pub enum StoreReply<V> {
    /// The key has this value.
    Value(V),
    /// The key has no value.
    Absent,
    /// The store could not be reached, or its answer could not be read.
    Failed,
}

/// Why a lookup has no answer.
#[derive(Debug, PartialEq, Eq, Clone, Copy)]
pub enum CacheError {
    /// The store could not be asked.
    CacheUnavailable,
}

/// What a lookup in the store came to, with a store that could not be
/// asked kept apart from a key without a value.
pub fn lookup<V>(reply: StoreReply<V>) -> (found: Result<Option<V>, CacheError>)
    ensures
        match reply {
            StoreReply::Value(v) => found == Ok::<Option<V>, CacheError>(Some(v)),
            StoreReply::Absent => found == Ok::<Option<V>, CacheError>(None),
            StoreReply::Failed => found == Err::<Option<V>, CacheError>(
                CacheError::CacheUnavailable,
            ),
        },
{
    match reply {
        StoreReply::Value(v) => Ok(Some(v)),
        StoreReply::Absent => Ok(None),
        StoreReply::Failed => Err(CacheError::CacheUnavailable),
    }
}

/// What a lookup in the store came to for a caller that takes a store
/// that could not be asked for a miss.
pub fn get<V>(reply: StoreReply<V>) -> (found: Option<V>)
    ensures
        found == match reply {
            StoreReply::Value(v) => Some(v),
            StoreReply::Absent => None,
            StoreReply::Failed => None,
        },
{
    match lookup(reply) {
        Ok(found) => found,
        Err(_) => None,
    }
}

/// A lookup in the store needs no second source: the store is the
/// authority.
pub fn get_or_query<V>(reply: StoreReply<V>) -> (found: Option<V>)
    ensures
        found == match reply {
            StoreReply::Value(v) => Some(v),
            StoreReply::Absent => None,
            StoreReply::Failed => None,
        },
{
    get(reply)
}

} // verus!
