//! The cache surface: lookups and stores by tenant.

use crate::cache_provider::{CacheGetRequest, CacheProvider, CacheSetRequest};
use crate::routes::{Reply, NOT_FOUND, OK};
use vstd::prelude::*;

verus! {

/// The answer to a lookup that found `found`: the location, or "not
/// found".
pub fn found_reply(found: Option<String>) -> (reply: Reply)
    ensures
        match found {
            Some(url) => reply.status == OK && reply.body == url,
            None => reply.status == NOT_FOUND && reply.body@.len() == 0,
        },
{
    match found {
        Some(url) => Reply { status: OK, body: url },
        None => Reply { status: NOT_FOUND, body: String::new() },
    }
}

/// Answers a lookup: the stored location, or "not found" for a tenant
/// without one. A lookup changes nothing and never fails.
pub fn cache_get<C: CacheProvider<String>>(cache: &mut C, info: CacheGetRequest<String>) -> (reply:
    Reply)
    ensures
        final(cache).entries() == old(cache).entries(),
        old(cache).entries().contains_key(info.key@) ==> reply.status == OK && reply.body@ == old(
            cache,
        ).entries()[info.key@]@,
        !old(cache).entries().contains_key(info.key@) ==> reply.status == NOT_FOUND
            && reply.body@.len() == 0,
{
    found_reply(cache.get(info.key))
}

/// Stores a location for a tenant, in place of what was there.
pub fn cache_set<C: CacheProvider<String>>(
    cache: &mut C,
    info: CacheSetRequest<String, String>,
) -> (reply: Reply)
    ensures
        final(cache).entries() == old(cache).entries().insert(info.key@, info.value),
        reply.status == OK,
        reply.body@.len() == 0,
{
    cache.set(info.key, info.value);
    Reply { status: OK, body: String::new() }
}

} // verus!
