//! The gateway: relaying a tenant's traffic to the tenant's backend.

use crate::cache_provider::local_cache::{query_url, LocalCache, Lookup};
use crate::cache_provider::CacheProvider;
use crate::routes::{Reply, BAD_GATEWAY, NOT_FOUND};
use vstd::prelude::*;
use vstd::string::*;

verus! {

/// The methods that the gateway relays.
#[derive(Debug, Clone, Copy, PartialEq, Eq, Structural)]
pub enum Method {
    Get,
    Post,
}

/// The address that a request is relayed to: the backend, the path tail
/// and, where there is one, the query string, each as it came.
pub open spec fn upstream_url(backend: Seq<char>, tail: Seq<char>, query: Seq<char>) -> Seq<char> {
    if query.len() == 0 {
        "http://"@ + backend + "/"@ + tail
    } else {
        "http://"@ + backend + "/"@ + tail + "?"@ + query
    }
}

/// A request as the backend is to receive it.
#[derive(Debug)]
pub struct UpstreamRequest {
    pub method: Method,
    pub url: String,
    pub body: Vec<u8>,
}

/// What a backend answered.
#[derive(Debug)]
pub struct UpstreamResponse {
    pub status: u16,
    /// Each header's name, and its value as the bytes that came.
    pub headers: Vec<(String, Vec<u8>)>,
    pub body: Vec<u8>,
}

/// What the gateway does with a request.
#[derive(Debug)]
pub enum Forward {
    /// Send this to the backend and hand its answer back.
    Upstream(UpstreamRequest),
    /// Answer at once.
    Local(Reply),
}

/// What the gateway hands back to the client.
#[derive(Debug)]
pub enum Relayed {
    /// The backend's answer, as it came.
    Upstream(UpstreamResponse),
    /// An answer of the gateway's own.
    Local(Reply),
}

/// Builds the address that a request is relayed to.
pub fn build_upstream_url(backend: &String, tail: &String, query: &String) -> (url: String)
    ensures
        url@ == upstream_url(backend@, tail@, query@),
{
    let url = "http://".to_owned().concat(backend.as_str()).concat("/").concat(tail.as_str());
    if query.as_str().unicode_len() == 0 {
        url
    } else {
        url.concat("?").concat(query.as_str())
    }
}

/// Looks the tenant's backend up as the gateway is configured to: with
/// `use_cache_query` a local miss leads to a question to the cache
/// authority, without it a local miss is final.
pub fn resolve(cache: &mut LocalCache<String>, username: String, use_cache_query: bool) -> (lookup:
    Lookup<String>)
    ensures
        final(cache)@ == old(cache)@,
        final(cache).authority() == old(cache).authority(),
        match lookup {
            Lookup::Hit(url) => old(cache)@.contains_key(username@) && url@ == old(
                cache,
            )@[username@]@,
            Lookup::Miss => !old(cache)@.contains_key(username@) && (!use_cache_query || old(
                cache,
            ).authority() is None),
            Lookup::Ask(query) => {
                &&& use_cache_query
                &&& !old(cache)@.contains_key(username@)
                &&& old(cache).authority() is Some
                &&& query.url@ == query_url(old(cache).authority().unwrap(), username@)
                &&& query.attempt == 0
            },
        },
{
    if use_cache_query {
        cache.get_or_query(username)
    } else {
        match cache.get(username) {
            Some(url) => Lookup::Hit(url),
            None => Lookup::Miss,
        }
    }
}

/// Decides what to do with a request of a tenant whose backend was looked
/// up: with a backend the request goes there, method and body unchanged;
/// without one the answer is "not found".
pub fn forward(
    method: Method,
    backend: Option<String>,
    tail: String,
    query: String,
    body: Vec<u8>,
) -> (decision: Forward)
    ensures
        match backend {
            Some(location) => decision matches Forward::Upstream(request) && request.method
                == method && request.url@ == upstream_url(location@, tail@, query@) && request.body
                == body,
            None => decision matches Forward::Local(reply) && reply.status == NOT_FOUND
                && reply.body@.len() == 0,
        },
{
    match backend {
        Some(location) => Forward::Upstream(
            UpstreamRequest { method, url: build_upstream_url(&location, &tail, &query), body },
        ),
        None => Forward::Local(Reply { status: NOT_FOUND, body: String::new() }),
    }
}

/// Relays a `GET` request.
pub fn get_proxy(backend: Option<String>, tail: String, query: String, body: Vec<u8>) -> (decision:
    Forward)
    ensures
        match backend {
            Some(location) => decision matches Forward::Upstream(request) && request.method
                == Method::Get && request.url@ == upstream_url(location@, tail@, query@)
                && request.body == body,
            None => decision matches Forward::Local(reply) && reply.status == NOT_FOUND
                && reply.body@.len() == 0,
        },
{
    forward(Method::Get, backend, tail, query, body)
}

/// Relays a `POST` request.
pub fn post_proxy(backend: Option<String>, tail: String, query: String, body: Vec<u8>) -> (decision:
    Forward)
    ensures
        match backend {
            Some(location) => decision matches Forward::Upstream(request) && request.method
                == Method::Post && request.url@ == upstream_url(location@, tail@, query@)
                && request.body == body,
            None => decision matches Forward::Local(reply) && reply.status == NOT_FOUND
                && reply.body@.len() == 0,
        },
{
    forward(Method::Post, backend, tail, query, body)
}

/// What the client gets once the backend was asked: the backend's answer
/// unchanged, or "bad gateway" where the backend could not be reached.
pub fn relay(answer: Option<UpstreamResponse>) -> (relayed: Relayed)
    ensures
        match answer {
            Some(response) => relayed matches Relayed::Upstream(r) && r == response,
            None => relayed matches Relayed::Local(reply) && reply.status == BAD_GATEWAY
                && reply.body@ == "Bad Gateway"@,
        },
{
    match answer {
        Some(response) => Relayed::Upstream(response),
        None => Relayed::Local(Reply { status: BAD_GATEWAY, body: "Bad Gateway".to_owned() }),
    }
}

/// A relayed address ends in the path tail and the query string exactly
/// as the client sent them, behind the backend's location.
pub proof fn lemma_url_keeps_tail_and_query(backend: Seq<char>, tail: Seq<char>, query: Seq<char>)
    ensures
        ({
            let url = upstream_url(backend, tail, query);
            let head = "http://"@ + backend + "/"@;
            &&& url.subrange(0, head.len() as int) == head
            &&& url.subrange(head.len() as int, (head.len() + tail.len()) as int) == tail
            &&& query.len() > 0 ==> url.subrange(url.len() - query.len(), url.len() as int)
                == query && url[url.len() - query.len() - 1] == '?'
            &&& query.len() == 0 ==> url.len() == head.len() + tail.len()
        }),
{
    reveal_strlit("?");
    let url = upstream_url(backend, tail, query);
    let head = "http://"@ + backend + "/"@;
    assert(url.subrange(0, head.len() as int) =~= head);
    assert(url.subrange(head.len() as int, (head.len() + tail.len()) as int) =~= tail);
    if query.len() > 0 {
        assert(url.subrange(url.len() - query.len(), url.len() as int) =~= query);
    }
}

} // verus!
