use lynx_balancer::cache_provider::local_cache::{
    decode_reply, LocalCache, Lookup, PendingQuery, MAX_ITERS,
};
use lynx_balancer::cache_provider::redis_cache;
use lynx_balancer::cache_provider::redis_cache::{CacheError, StoreReply};
use lynx_balancer::cache_provider::{CacheGetRequest, CacheProvider, CacheSetRequest};
use lynx_balancer::routes::cache_server::{cache_get, cache_set};

fn fruit_cache() -> LocalCache<i32> {
    let mut cache = LocalCache::<i32>::new(None);
    cache.set("apples".to_string(), 5);
    cache.set("strawberries".to_string(), -142);
    cache.set("apples".to_string(), 3);
    cache
}

#[test]
fn local_cache_test_set() {
    let mut cache = LocalCache::<i32>::new(None);
    cache.set("apples".to_string(), 5);
    cache.set("strawberries".to_string(), -142);
    cache.set("apples".to_string(), 3);
    assert_eq!(cache.get("apples".to_string()).unwrap().to_owned(), 3);
}

#[test]
fn local_cache_test_get_some() {
    let mut cache = LocalCache::<i32>::new(None);
    cache.set("apples".to_string(), 5);
    cache.set("strawberries".to_string(), -142);
    cache.set("apples".to_string(), 3);
    assert_eq!(cache.get("apples".to_string()), Some(3));
}

#[test]
fn local_cache_test_get_none() {
    let mut cache = LocalCache::<i32>::new(None);
    cache.set("apples".to_string(), 5);
    cache.set("strawberries".to_string(), -142);
    cache.set("apples".to_string(), 3);
    assert_eq!(cache.get("lemons".to_string()), None);
}

#[test]
fn local_cache_test_remove() {
    let mut cache = LocalCache::<i32>::new(None);
    cache.set("apples".to_string(), 5);
    cache.set("strawberries".to_string(), -142);
    cache.set("apples".to_string(), 3);
    cache.remove("apples".to_string());
    assert_eq!(cache.get("apples".to_string()), None);
}

#[test]
fn set_value_stays_until_replaced_or_removed() {
    let mut cache = LocalCache::<String>::new(None);
    cache.set("alice".to_string(), "10.0.0.5:8080".to_string());
    assert_eq!(cache.get("alice".to_string()), Some("10.0.0.5:8080".to_string()));
    cache.set("bob".to_string(), "10.0.0.6:8080".to_string());
    cache.remove("carol".to_string());
    assert_eq!(cache.get("alice".to_string()), Some("10.0.0.5:8080".to_string()));
    assert_eq!(cache.get("alice".to_string()), Some("10.0.0.5:8080".to_string()));
    cache.set("alice".to_string(), "10.0.0.7:8080".to_string());
    assert_eq!(cache.get("alice".to_string()), Some("10.0.0.7:8080".to_string()));
    cache.remove("alice".to_string());
    assert_eq!(cache.get("alice".to_string()), None);
    assert_eq!(cache.get("bob".to_string()), Some("10.0.0.6:8080".to_string()));
}

#[test]
fn remove_of_an_unknown_key_changes_nothing() {
    let mut cache = fruit_cache();
    cache.remove("lemons".to_string());
    assert_eq!(cache.get("apples".to_string()), Some(3));
    assert_eq!(cache.get("strawberries".to_string()), Some(-142));
}

#[test]
fn get_or_query_answers_from_the_table() {
    let mut cache = LocalCache::<i32>::new(Some("cache:8081".to_string()));
    cache.set("apples".to_string(), 3);
    assert!(matches!(cache.get_or_query("apples".to_string()), Lookup::Hit(3)));
}

#[test]
fn get_or_query_without_authority_is_a_miss() {
    let mut cache = fruit_cache();
    assert!(matches!(cache.get_or_query("lemons".to_string()), Lookup::Miss));
}

#[test]
fn get_or_query_asks_the_authority() {
    let mut cache = LocalCache::<String>::new(Some("cache:8081".to_string()));
    match cache.get_or_query("alice".to_string()) {
        Lookup::Ask(query) => {
            assert_eq!(query.url, "http://cache:8081/cache/get?key=alice");
            assert_eq!(query.attempt, 0);
        }
        _ => panic!("a question was expected"),
    }
    assert_eq!(cache.get("alice".to_string()), None);
}

#[test]
fn polling_budget_is_thirty_two() {
    assert_eq!(MAX_ITERS, 32);
}

#[test]
fn polling_gives_up_after_the_budget() {
    let mut cache = LocalCache::<String>::new(Some("cache:8081".to_string()));
    let mut lookup = cache.get_or_query("alice".to_string());
    let mut asked = 0;
    loop {
        match lookup {
            Lookup::Ask(query) => {
                assert_eq!(query.attempt, asked);
                assert_eq!(query.url, "http://cache:8081/cache/get?key=alice");
                asked += 1;
                lookup = query.on_reply(None);
            }
            Lookup::Miss => break,
            Lookup::Hit(_) => panic!("nothing was ever answered"),
        }
    }
    assert_eq!(asked, 32);
}

#[test]
fn polling_returns_the_first_value() {
    let mut cache = LocalCache::<String>::new(Some("cache:8081".to_string()));
    let mut lookup = cache.get_or_query("alice".to_string());
    let mut asked = 0;
    let found = loop {
        match lookup {
            Lookup::Ask(query) => {
                asked += 1;
                let reply = if asked == 7 { Some("10.0.0.5:8080".to_string()) } else { None };
                lookup = query.on_reply(reply);
            }
            Lookup::Miss => break None,
            Lookup::Hit(v) => break Some(v),
        }
    };
    assert_eq!(asked, 7);
    assert_eq!(found, Some("10.0.0.5:8080".to_string()));
}

#[test]
fn last_question_can_still_be_answered() {
    let query = PendingQuery { url: "http://cache:8081/cache/get?key=a".to_string(), attempt: 31 };
    assert!(matches!(query.on_reply(Some(9)), Lookup::Hit(9)));
    let query = PendingQuery { url: "http://cache:8081/cache/get?key=a".to_string(), attempt: 31 };
    assert!(matches!(query.on_reply(None::<i32>), Lookup::Miss));
    let query = PendingQuery { url: "http://cache:8081/cache/get?key=a".to_string(), attempt: 30 };
    match query.on_reply(None::<i32>) {
        Lookup::Ask(next) => {
            assert_eq!(next.attempt, 31);
            assert_eq!(next.url, "http://cache:8081/cache/get?key=a");
        }
        _ => panic!("one question was left"),
    }
}

#[test]
fn decode_reply_reads_a_hit() {
    let body = "10.0.0.5:8080".as_bytes().to_vec();
    assert_eq!(decode_reply(200, Some(body)), Some("10.0.0.5:8080".to_string()));
    assert_eq!(decode_reply(200, Some(Vec::new())), Some(String::new()));
    assert_eq!(decode_reply(200, Some("zażółć".as_bytes().to_vec())), Some("zażółć".to_string()));
}

#[test]
fn decode_reply_takes_anything_else_for_nothing() {
    let body = "10.0.0.5:8080".as_bytes().to_vec();
    assert_eq!(decode_reply(404, Some(body.clone())), None);
    assert_eq!(decode_reply(500, Some(body.clone())), None);
    assert_eq!(decode_reply(201, Some(body)), None);
    assert_eq!(decode_reply(200, None), None);
    assert_eq!(decode_reply(200, Some(vec![0xff, 0xfe, 0x41])), None);
    assert_eq!(decode_reply(200, Some(vec![0xc3])), None);
}

#[test]
fn store_reply_keeps_failure_apart_from_absence() {
    assert_eq!(redis_cache::lookup(StoreReply::Value(3)), Ok(Some(3)));
    assert_eq!(redis_cache::lookup(StoreReply::<i32>::Absent), Ok(None));
    assert_eq!(redis_cache::lookup(StoreReply::<i32>::Failed), Err(CacheError::CacheUnavailable));
}

#[test]
fn store_failure_reads_as_a_miss() {
    assert_eq!(redis_cache::get(StoreReply::Value(3)), Some(3));
    assert_eq!(redis_cache::get(StoreReply::<i32>::Absent), None);
    assert_eq!(redis_cache::get(StoreReply::<i32>::Failed), None);
    assert_eq!(redis_cache::get_or_query(StoreReply::Value("a".to_string())), Some("a".to_string()));
    assert_eq!(redis_cache::get_or_query(StoreReply::<String>::Absent), None);
    assert_eq!(redis_cache::get_or_query(StoreReply::<String>::Failed), None);
}

#[test]
fn cache_get_on_an_unset_key_is_not_found() {
    let mut cache = LocalCache::<String>::new(None);
    let reply = cache_get(&mut cache, CacheGetRequest { key: "alice".to_string() });
    assert_eq!(reply.status, 404);
    assert_eq!(reply.body, "");
}

#[test]
fn cache_set_then_cache_get() {
    let mut cache = LocalCache::<String>::new(None);
    let reply = cache_set(
        &mut cache,
        CacheSetRequest { key: "alice".to_string(), value: "10.0.0.5:8080".to_string() },
    );
    assert_eq!(reply.status, 200);
    assert_eq!(reply.body, "");
    let reply = cache_get(&mut cache, CacheGetRequest { key: "alice".to_string() });
    assert_eq!(reply.status, 200);
    assert_eq!(reply.body, "10.0.0.5:8080");
    let reply = cache_get(&mut cache, CacheGetRequest { key: "bob".to_string() });
    assert_eq!(reply.status, 404);
}
