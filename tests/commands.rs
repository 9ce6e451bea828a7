use rgx_commands::args::{CommandError, FindByKey, FindByValue};
use rgx_commands::commands::{
    delete_targets, find_keys_by_rg, find_values_by_rg, tally_deletions, CandidateEntry,
    DeleteResult, MatchResult,
};
use rgx_commands::reply::{handle_redis_command_result, listing_keys, Reply};

/// An in-memory stand-in for the host store: keys in insertion order, with
/// their values. Values listed as unreadable fail to read.
struct FakeStore {
    entries: Vec<(String, String)>,
    unreadable: Vec<String>,
}

impl FakeStore {
    fn new(data: &[(&str, &str)]) -> FakeStore {
        FakeStore {
            entries: data.iter().map(|(k, v)| (k.to_string(), v.to_string())).collect(),
            unreadable: Vec::new(),
        }
    }

    /// The store's native enumeration, with a glob mask where `*` stands for
    /// any run of characters.
    fn keys(&self, mask: &str) -> Reply {
        Reply::Array(
            self.entries
                .iter()
                .filter(|(k, _)| glob(mask.as_bytes(), k.as_bytes()))
                .map(|(k, _)| Reply::SimpleString(k.clone()))
                .collect(),
        )
    }

    fn read(&self, key: &str) -> Option<String> {
        if self.unreadable.iter().any(|k| k == key) {
            return None;
        }
        self.entries.iter().find(|(k, _)| k == key).map(|(_, v)| v.clone())
    }

    fn delete(&mut self, key: &str) -> bool {
        let before = self.entries.len();
        self.entries.retain(|(k, _)| k != key);
        self.entries.len() < before
    }
}

fn glob(mask: &[u8], text: &[u8]) -> bool {
    match mask.split_first() {
        None => text.is_empty(),
        Some((b'*', rest)) => (0..=text.len()).any(|i| glob(rest, &text[i..])),
        Some((c, rest)) => text.first() == Some(c) && glob(rest, &text[1..]),
    }
}

fn strings(items: &[&str]) -> Vec<String> {
    items.iter().map(|s| s.to_string()).collect()
}

fn keys_of(result: MatchResult) -> Vec<String> {
    match result {
        MatchResult::Keys(mut keys) => {
            keys.sort();
            keys
        }
        MatchResult::NoResults => Vec::new(),
    }
}

fn rg_keys(store: &FakeStore, pattern: &str) -> MatchResult {
    let query = FindByKey::try_from(strings(&["RGKEYS", pattern])).unwrap();
    find_keys_by_rg(&query, &store.keys(query.get_redis_mask())).unwrap()
}

fn rg_values(store: &FakeStore, mask: &str, pattern: &str) -> MatchResult {
    let query = FindByValue::try_from(strings(&["RGVALUES", mask, pattern])).unwrap();
    let keys = listing_keys(&store.keys(query.get_redis_mask())).unwrap();
    let entries: Vec<CandidateEntry> = keys
        .into_iter()
        .map(|key| {
            let value = store.read(&key);
            CandidateEntry { key, value }
        })
        .collect();
    find_values_by_rg(&query, &entries)
}

fn rg_delete(store: &mut FakeStore, pattern: &str) -> DeleteResult {
    let query = FindByKey::try_from(strings(&["RGDELETE", pattern])).unwrap();
    let targets = delete_targets(&query, &store.keys(query.get_redis_mask())).unwrap();
    let outcomes: Vec<bool> = targets.iter().map(|k| store.delete(k)).collect();
    tally_deletions(&outcomes)
}

fn store_for_keys() -> FakeStore {
    FakeStore::new(&[
        ("hello:world:2012", "1"),
        ("helloworld:2012", "1"),
        ("helloworld:2012:test", "1"),
    ])
}

fn store_for_values() -> FakeStore {
    FakeStore::new(&[
        ("test1", "GET /user/12/134"),
        ("test6", "POST /user/12/01123"),
        ("test3", "GET /user/12/123123"),
        ("test4", "DELETE /user/12/01123"),
        ("test5", "GET /news/9912"),
        ("test2", "GET /user/4124/910"),
    ])
}

#[test]
fn get_connection() {
    let store = store_for_keys();
    assert!(listing_keys(&store.keys("*")).is_ok());
}

#[test]
fn find_key_by_regex() {
    let store = store_for_keys();

    let native = listing_keys(&store.keys("hello:*:2012")).unwrap();
    assert_eq!(1, native.len());

    let found = keys_of(rg_keys(&store, "hello.*2012$"));
    assert_eq!(2, found.len());
    assert_eq!(found, strings(&["hello:world:2012", "helloworld:2012"]));
}

#[test]
fn find_values_by_regex() {
    let store = store_for_values();

    assert_eq!(
        vec!["test1".to_string(), "test2".to_string(), "test3".to_string()],
        keys_of(rg_values(&store, "*", "GET /user/.*"))
    );

    assert_eq!(
        vec!["test3".to_string(), "test4".to_string(), "test6".to_string()],
        keys_of(rg_values(&store, "*", "(.*) /user/.*123$"))
    );

    assert_eq!(vec!["test5".to_string()], keys_of(rg_values(&store, "*", "(.*) /news/.*12$")));
}

#[test]
fn key_search_keeps_enumeration_order() {
    let store = store_for_keys();
    assert_eq!(
        rg_keys(&store, "hello.*2012$"),
        MatchResult::Keys(strings(&["hello:world:2012", "helloworld:2012"]))
    );
}

#[test]
fn malformed_pattern_is_refused_before_enumeration() {
    match FindByKey::try_from(strings(&["RGKEYS", "(unbalanced"])) {
        Err(CommandError::Pattern(diagnostic)) => assert!(!diagnostic.is_empty()),
        _ => panic!("an unbalanced group must be a pattern error"),
    }
    match FindByValue::try_from(strings(&["RGVALUES", "*", "(unbalanced"])) {
        Err(CommandError::Pattern(diagnostic)) => assert!(!diagnostic.is_empty()),
        _ => panic!("an unbalanced group must be a pattern error"),
    }
}

#[test]
fn missing_arguments_are_arity_errors() {
    assert!(matches!(FindByKey::try_from(strings(&["RGKEYS"])), Err(CommandError::Arity(0))));
    assert!(matches!(FindByValue::try_from(strings(&["RGVALUES"])), Err(CommandError::Arity(0))));
    assert!(matches!(
        FindByValue::try_from(strings(&["RGVALUES", "*"])),
        Err(CommandError::Arity(1))
    ));
}

#[test]
fn value_query_keeps_its_mask() {
    let query = FindByValue::try_from(strings(&["RGVALUES", "test?", "GET"])).unwrap();
    assert_eq!(query.get_redis_mask(), "test?");
    let query = FindByKey::try_from(strings(&["RGKEYS", "GET"])).unwrap();
    assert_eq!(query.get_redis_mask(), "*");
}

#[test]
fn no_match_gives_the_sentinel() {
    let store = store_for_keys();
    assert_eq!(rg_keys(&store, "^nothing$"), MatchResult::NoResults);
    let store = store_for_values();
    assert_eq!(rg_values(&store, "*", "^PUT "), MatchResult::NoResults);
    let empty = FakeStore::new(&[]);
    assert_eq!(rg_keys(&empty, ".*"), MatchResult::NoResults);
}

#[test]
fn listing_that_is_not_a_list_is_a_protocol_error() {
    let query = FindByKey::try_from(strings(&["RGKEYS", ".*"])).unwrap();
    assert_eq!(find_keys_by_rg(&query, &Reply::Integer(3)), Err(CommandError::UpstreamProtocol));
    assert_eq!(delete_targets(&query, &Reply::Null), Err(CommandError::UpstreamProtocol));
    assert_eq!(listing_keys(&Reply::NoReply), Err(CommandError::UpstreamProtocol));
}

#[test]
fn listing_skips_elements_without_text() {
    let items = vec![
        Reply::SimpleString("a".to_string()),
        Reply::Integer(7),
        Reply::BulkString("b".to_string()),
        Reply::Null,
        Reply::Array(vec![Reply::SimpleString("c".to_string())]),
        Reply::SimpleString("d".to_string()),
        Reply::Other,
    ];
    assert_eq!(handle_redis_command_result(&items), strings(&["a", "d"]));
}

#[test]
fn repeated_keys_are_reported_once() {
    let query = FindByKey::try_from(strings(&["RGKEYS", "^k"])).unwrap();
    let listing = Reply::Array(vec![
        Reply::SimpleString("k1".to_string()),
        Reply::SimpleString("x".to_string()),
        Reply::SimpleString("k1".to_string()),
        Reply::SimpleString("k2".to_string()),
    ]);
    assert_eq!(
        find_keys_by_rg(&query, &listing),
        Ok(MatchResult::Keys(strings(&["k1", "k2"])))
    );
}

#[test]
fn value_search_reports_keys_not_values() {
    let query = FindByValue::try_from(strings(&["RGVALUES", "*", "^v"])).unwrap();
    let entries = vec![
        CandidateEntry { key: "a".to_string(), value: Some("v1".to_string()) },
        CandidateEntry { key: "b".to_string(), value: Some("w".to_string()) },
        CandidateEntry { key: "c".to_string(), value: Some("v2".to_string()) },
    ];
    assert_eq!(find_values_by_rg(&query, &entries), MatchResult::Keys(strings(&["a", "c"])));
}

#[test]
fn unreadable_key_does_not_abort_value_search() {
    let mut store = store_for_values();
    store.unreadable.push("test2".to_string());
    assert_eq!(
        keys_of(rg_values(&store, "*", "GET /user/.*")),
        strings(&["test1", "test3"])
    );
}

#[test]
fn value_search_narrows_by_mask() {
    let store = store_for_values();
    assert_eq!(keys_of(rg_values(&store, "test1*", "GET /user/.*")), strings(&["test1"]));
}

#[test]
fn delete_removes_what_search_finds() {
    let mut store = store_for_keys();
    let found = keys_of(rg_keys(&store, "hello.*2012$"));
    assert_eq!(rg_delete(&mut store, "hello.*2012$"), DeleteResult::Deleted(found.len()));
    assert_eq!(rg_keys(&store, "hello.*2012$"), MatchResult::NoResults);
    assert_eq!(
        keys_of(rg_keys(&store, ".*")),
        strings(&["helloworld:2012:test"])
    );
}

#[test]
fn delete_twice_reports_nothing_the_second_time() {
    let mut store = store_for_values();
    assert_eq!(rg_delete(&mut store, "^test[12]$"), DeleteResult::Deleted(2));
    assert_eq!(rg_delete(&mut store, "^test[12]$"), DeleteResult::NoResults);
}

#[test]
fn failed_deletes_are_not_counted() {
    assert_eq!(tally_deletions(&vec![true, false, true]), DeleteResult::Deleted(2));
    assert_eq!(tally_deletions(&vec![false, false]), DeleteResult::NoResults);
    assert_eq!(tally_deletions(&Vec::new()), DeleteResult::NoResults);
}
