//! The in-process location cache, and how it catches up with a remote
//! cache authority after a local miss.

use crate::cache_provider::CacheProvider;
use vstd::hash_map::StringHashMap;
use vstd::prelude::*;
use vstd::string::*;
use vstd::utf8::*;

verus! {

/// A table kept in this process. With a cache authority's address it can
/// ask there for what it does not hold itself.
#[verifier::reject_recursive_types(V)]
pub struct LocalCache<V> {
    cache_server_url: Option<String>,
    map: StringHashMap<V>,
}

impl<V> View for LocalCache<V> {
    type V = Map<Seq<char>, V>;

    closed spec fn view(&self) -> Map<Seq<char>, V> {
        self.map@
    }
}

impl<V> LocalCache<V> {
    /// The address of the cache authority, if one was given.
    pub closed spec fn authority(&self) -> Option<Seq<char>> {
        match self.cache_server_url {
            Some(url) => Some(url@),
            None => None,
        }
    }

    /// An empty cache.
    pub fn new(cache_server_url: Option<String>) -> (cache: LocalCache<V>)
        ensures
            cache@ == Map::<Seq<char>, V>::empty(),
            cache.authority() == match cache_server_url {
                Some(url) => Some(url@),
                None => None,
            },
    {
        LocalCache { cache_server_url, map: StringHashMap::new() }
    }
}

impl<V: Clone> CacheProvider<V> for LocalCache<V> {
    open spec fn entries(&self) -> Map<Seq<char>, V> {
        self@
    }

    fn set(&mut self, key: String, value: V)
        ensures
            final(self).authority() == old(self).authority(),
    {
        self.map.insert(key, value);
    }

    fn get(&mut self, key: String) -> (found: Option<V>)
        ensures
            final(self).authority() == old(self).authority(),
    {
        match self.map.get(key.as_str()) {
            Some(v) => Some(v.clone()),
            None => None,
        }
    }

    fn remove(&mut self, key: String)
        ensures
            final(self).authority() == old(self).authority(),
    {
        self.map.remove(key.as_str());
    }
}

/// How often the cache authority is asked before a lookup gives up.
pub const MAX_ITERS: u32 = 32;

/// The status with which the cache authority answers a hit.
pub const STATUS_OK: u16 = 200;

/// The address at which the authority at `authority` answers for `key`.
pub open spec fn query_url(authority: Seq<char>, key: Seq<char>) -> Seq<char> {
    "http://"@ + authority + "/cache/get?key="@ + key
}

/// A question to the cache authority that waits for its answer.
pub struct PendingQuery {
    /// Where to ask.
    pub url: String,
    /// How many answers came back empty so far.
    pub attempt: u32,
}

impl PendingQuery {
    /// A question is only ever open while the budget is not used up.
    pub open spec fn wf(&self) -> bool {
        self.attempt < MAX_ITERS
    }
}

/// Where a lookup stands.
pub enum Lookup<V> {
    /// The value is known.
    Hit(V),
    /// There is no value, and nobody is left to ask.
    Miss,
    /// The caller asks the authority and reports the answer.
    Ask(PendingQuery),
}

/// Where a lookup stands once the authority answered `reply` to `query`:
/// a value ends it, and an empty answer leads to the next question while
/// fewer than `MAX_ITERS` have been asked.
pub open spec fn next_lookup<V>(query: PendingQuery, reply: Option<V>) -> Lookup<V> {
    match reply {
        Some(v) => Lookup::Hit(v),
        None => if query.attempt + 1 < MAX_ITERS {
            Lookup::Ask(PendingQuery { url: query.url, attempt: (query.attempt + 1) as u32 })
        } else {
            Lookup::Miss
        },
    }
}

/// What a lookup that starts at `query` ends with when the authority's
/// answers are `replies`, in this order. Answers that come after the end
/// are never asked for.
pub open spec fn poll_outcome<V>(query: PendingQuery, replies: Seq<Option<V>>) -> Option<V>
    decreases replies.len(),
{
    if replies.len() == 0 {
        None
    } else {
        match next_lookup(query, replies[0]) {
            Lookup::Hit(v) => Some(v),
            Lookup::Miss => None,
            Lookup::Ask(next) => poll_outcome(next, replies.drop_first()),
        }
    }
}

/// The text that an answer of the cache authority carries: the body of an
/// answer with status `STATUS_OK`, where it arrived whole and is UTF-8.
pub open spec fn reply_text(status: u16, body: Option<Seq<u8>>) -> Option<Seq<char>> {
    match body {
        Some(bytes) => if status == STATUS_OK && valid_utf8(bytes) {
            Some(decode_utf8(bytes))
        } else {
            None
        },
        None => None,
    }
}

/// `String::from_utf8` of std: the bytes as a string where they are valid
/// UTF-8, and nothing where they are not.
#[verifier::external_body]
fn string_from_utf8(bytes: Vec<u8>) -> (text: Option<String>)
    ensures
        match text {
            Some(s) => valid_utf8(bytes@) && s@ == decode_utf8(bytes@),
            None => !valid_utf8(bytes@),
        },
{
    String::from_utf8(bytes).ok()
}

/// Reads one answer of the cache authority. `body` is empty-handed where
/// the request failed or the body could not be read.
pub fn decode_reply(status: u16, body: Option<Vec<u8>>) -> (text: Option<String>)
    ensures
        match text {
            Some(s) => reply_text(
                status,
                match body {
                    Some(b) => Some(b@),
                    None => None,
                },
            ) == Some(s@),
            None => reply_text(
                status,
                match body {
                    Some(b) => Some(b@),
                    None => None,
                },
            ) is None,
        },
{
    if status != STATUS_OK {
        return None;
    }
    match body {
        Some(bytes) => string_from_utf8(bytes),
        None => None,
    }
}

impl PendingQuery {
    /// Takes the authority's answer to this question.
    pub fn on_reply<V>(self, reply: Option<V>) -> (lookup: Lookup<V>)
        ensures
            lookup == next_lookup(self, reply),
            lookup matches Lookup::Ask(next) ==> next.wf(),
    {
        match reply {
            Some(v) => Lookup::Hit(v),
            None => if self.attempt < MAX_ITERS - 1 {
                Lookup::Ask(PendingQuery { url: self.url, attempt: self.attempt + 1 })
            } else {
                Lookup::Miss
            },
        }
    }
}

impl<V: Clone> LocalCache<V> {
    /// Looks `key` up, and on a miss prepares to ask the cache authority.
    /// The cache itself answers where it holds the key; without an
    /// authority a miss is final.
    pub fn get_or_query(&mut self, key: String) -> (lookup: Lookup<V>)
        ensures
            final(self)@ == old(self)@,
            final(self).authority() == old(self).authority(),
            match lookup {
                Lookup::Hit(v) => old(self)@.contains_key(key@) && cloned(old(self)@[key@], v),
                Lookup::Miss => !old(self)@.contains_key(key@) && old(self).authority() is None,
                Lookup::Ask(query) => {
                    &&& !old(self)@.contains_key(key@)
                    &&& old(self).authority() is Some
                    &&& query.url@ == query_url(old(self).authority().unwrap(), key@)
                    &&& query.attempt == 0
                    &&& query.wf()
                },
            },
    {
        if let Some(v) = self.map.get(key.as_str()) {
            return Lookup::Hit(v.clone());
        }
        match &self.cache_server_url {
            Some(authority) => {
                let url = "http://".to_owned().concat(authority.as_str()).concat(
                    "/cache/get?key=",
                ).concat(key.as_str());
                Lookup::Ask(PendingQuery { url, attempt: 0 })
            },
            None => Lookup::Miss,
        }
    }
}

/// A lookup ends with the first value that the authority gives, as long
/// as it comes while questions are left.
pub proof fn lemma_poll_finds_first_value<V>(
    query: PendingQuery,
    replies: Seq<Option<V>>,
    at: int,
)
    requires
        0 <= at < replies.len(),
        query.attempt + at < MAX_ITERS,
        replies[at] is Some,
        forall|j: int| 0 <= j < at ==> replies[j] is None,
    ensures
        poll_outcome(query, replies) == replies[at],
    decreases replies.len(),
{
    if at > 0 {
        let next = PendingQuery { url: query.url, attempt: (query.attempt + 1) as u32 };
        let rest = replies.drop_first();
        assert(next_lookup(query, replies[0]) == Lookup::<V>::Ask(next));
        assert forall|j: int| 0 <= j < at - 1 implies rest[j] is None by {
            assert(rest[j] == replies[j + 1]);
        }
        lemma_poll_finds_first_value(next, rest, at - 1);
    }
}

/// A lookup reports a miss where every answer within the budget is empty,
/// however many answers the authority would have given after that.
pub proof fn lemma_poll_gives_up<V>(query: PendingQuery, replies: Seq<Option<V>>)
    requires
        query.wf(),
        forall|j: int| 0 <= j < replies.len() && query.attempt + j < MAX_ITERS ==> replies[j] is None,
    ensures
        poll_outcome(query, replies) is None,
    decreases replies.len(),
{
    if replies.len() > 0 {
        if query.attempt + 1 < MAX_ITERS {
            let next = PendingQuery { url: query.url, attempt: (query.attempt + 1) as u32 };
            let rest = replies.drop_first();
            assert(replies[0] is None);
            assert forall|j: int|
                0 <= j < rest.len() && next.attempt + j < MAX_ITERS implies rest[j] is None by {
                assert(rest[j] == replies[j + 1]);
            }
            lemma_poll_gives_up(next, rest);
        } else {
            assert(replies[0] is None);
        }
    }
}

} // verus!
