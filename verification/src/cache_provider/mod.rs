//! The location cache: which backend serves which tenant.

use vstd::prelude::*;

pub mod local_cache;
pub mod redis_cache;

verus! {

/// The query of a lookup on the cache surface.
#[derive(Debug)]
pub struct CacheGetRequest<K> {
    pub key: K,
}

/// The query of a store on the cache surface.
#[derive(Debug)]
pub struct CacheSetRequest<K, V> {
    pub key: K,
    pub value: V,
}

/// A table from tenants to values, at most one value per tenant.
pub trait CacheProvider<V: Clone> {
    /// What the table holds, by the tenant's characters.
    spec fn entries(&self) -> Map<Seq<char>, V>;

    /// Stores `value` for `key`, replacing what was there.
    fn set(&mut self, key: String, value: V)
        ensures
            final(self).entries() == old(self).entries().insert(key@, value),
    ;

    /// The value stored for `key`, if there is one.
    fn get(&mut self, key: String) -> (found: Option<V>)
        ensures
            final(self).entries() == old(self).entries(),
            match found {
                Some(v) => old(self).entries().contains_key(key@) && cloned(
                    old(self).entries()[key@],
                    v,
                ),
                None => !old(self).entries().contains_key(key@),
            },
    ;

    /// Forgets `key`; the other tenants keep their values.
    fn remove(&mut self, key: String)
        ensures
            final(self).entries() == old(self).entries().remove(key@),
    ;
}

/// What was stored for a tenant is what a lookup finds, and storing for one
/// tenant leaves the others as they were.
pub proof fn lemma_set_then_get<V>(entries: Map<Seq<char>, V>, key: Seq<char>, value: V)
    ensures
        entries.insert(key, value).contains_key(key),
        entries.insert(key, value)[key] == value,
        forall|other: Seq<char>|
            other != key ==> (entries.insert(key, value).contains_key(other)
                <==> entries.contains_key(other)),
        forall|other: Seq<char>|
            other != key && entries.contains_key(other) ==> entries.insert(key, value)[other]
                == entries[other],
{
}

/// A stored value stays through what happens to other tenants: a store or
/// a removal under another key does not touch it.
pub proof fn lemma_value_stays<V>(
    entries: Map<Seq<char>, V>,
    key: Seq<char>,
    other: Seq<char>,
    value: V,
)
    requires
        entries.contains_key(key),
        other != key,
    ensures
        entries.insert(other, value).contains_key(key),
        entries.insert(other, value)[key] == entries[key],
        entries.remove(other).contains_key(key),
        entries.remove(other)[key] == entries[key],
{
}

/// A removed tenant is not found, and the other tenants are as before.
pub proof fn lemma_remove_then_get<V>(entries: Map<Seq<char>, V>, key: Seq<char>)
    ensures
        !entries.remove(key).contains_key(key),
        forall|other: Seq<char>|
            other != key ==> (entries.remove(key).contains_key(other) <==> entries.contains_key(
                other,
            )),
        forall|other: Seq<char>|
            other != key && entries.contains_key(other) ==> entries.remove(key)[other]
                == entries[other],
{
}

} // verus!
