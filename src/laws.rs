//! Properties that hold across calls of the commands.
use vstd::prelude::*;

use crate::commands::{
    aggregate, count_successes, delete_outcome, matching_keys, matching_values, remaining_keys,
};
use crate::pattern::regex_matches;

verus! {

/// A key is found by key search exactly when it is listed and its name
/// matches.
pub proof fn matching_keys_contains(p: Seq<char>, keys: Seq<Seq<char>>, x: Seq<char>)
    ensures
        matching_keys(p, keys).contains(x) == (keys.contains(x) && regex_matches(p, x)),
    decreases keys.len(),
{
    if keys.len() > 0 {
        let prev = matching_keys(p, keys.drop_last());
        matching_keys_contains(p, keys.drop_last(), x);
        assert(keys == keys.drop_last().push(keys.last()));
        if keys.drop_last().contains(x) {
            let j = choose|j: int| 0 <= j < keys.drop_last().len() && keys.drop_last()[j] == x;
            assert(keys[j] == x);
        }
        if keys.contains(x) && !keys.drop_last().contains(x) {
            let j = choose|j: int| 0 <= j < keys.len() && keys[j] == x;
            if j < keys.len() - 1 {
                assert(keys.drop_last()[j] == x);
            }
            assert(x == keys.last());
        }
        let k = keys.last();
        if regex_matches(p, k) && !prev.contains(k) {
            assert(prev.push(k)[prev.len() as int] == k);
            if prev.contains(x) {
                let j = choose|j: int| 0 <= j < prev.len() && prev[j] == x;
                assert(prev.push(k)[j] == x);
            }
            if prev.push(k).contains(x) && x != k {
                let j = choose|j: int| 0 <= j < prev.len() + 1 && prev.push(k)[j] == x;
                assert(prev[j] == x);
            }
        }
    }
}

/// A key remains after a deletion exactly when it was listed and not
/// deleted.
pub proof fn remaining_keys_contains(keys: Seq<Seq<char>>, deleted: Seq<Seq<char>>, x: Seq<char>)
    ensures
        remaining_keys(keys, deleted).contains(x) == (keys.contains(x) && !deleted.contains(x)),
    decreases keys.len(),
{
    if keys.len() > 0 {
        let prev = remaining_keys(keys.drop_last(), deleted);
        remaining_keys_contains(keys.drop_last(), deleted, x);
        if keys.drop_last().contains(x) {
            let j = choose|j: int| 0 <= j < keys.drop_last().len() && keys.drop_last()[j] == x;
            assert(keys[j] == x);
        }
        if keys.contains(x) && !keys.drop_last().contains(x) {
            let j = choose|j: int| 0 <= j < keys.len() && keys[j] == x;
            if j < keys.len() - 1 {
                assert(keys.drop_last()[j] == x);
            }
            assert(x == keys.last());
        }
        let k = keys.last();
        if !deleted.contains(k) {
            assert(prev.push(k)[prev.len() as int] == k);
            if prev.contains(x) {
                let j = choose|j: int| 0 <= j < prev.len() && prev[j] == x;
                assert(prev.push(k)[j] == x);
            }
            if prev.push(k).contains(x) && x != k {
                let j = choose|j: int| 0 <= j < prev.len() + 1 && prev.push(k)[j] == x;
                assert(prev[j] == x);
            }
        }
    }
}

/// When every outcome is a success, the successes are as many as the
/// outcomes.
pub proof fn all_successes_counted(outcomes: Seq<bool>)
    requires
        forall|i: int| 0 <= i < outcomes.len() ==> outcomes[i],
    ensures
        count_successes(outcomes) == outcomes.len(),
    decreases outcomes.len(),
{
    if outcomes.len() > 0 {
        all_successes_counted(outcomes.drop_last());
    }
}

/// A key search whose pattern matches no listed key reports the sentinel, and
/// no search ever reports an empty sequence of keys.
pub proof fn no_match_gives_sentinel(p: Seq<char>, keys: Seq<Seq<char>>)
    requires
        forall|i: int| 0 <= i < keys.len() ==> !regex_matches(p, #[trigger] keys[i]),
    ensures
        aggregate(matching_keys(p, keys)) == None::<Seq<Seq<char>>>,
        forall|found: Seq<Seq<char>>| aggregate(found) != Some(Seq::<Seq<char>>::empty()),
{
    let found = matching_keys(p, keys);
    if found.len() > 0 {
        matching_keys_contains(p, keys, found[0]);
        assert(found.contains(found[0]));
        let j = choose|j: int| 0 <= j < keys.len() && keys[j] == found[0];
        assert(!regex_matches(p, keys[j]));
    }
}

/// After a search, nothing that search found remains among the keys once
/// they are deleted: a search with the same pattern then reports the
/// sentinel.
proof fn search_after_delete_is_empty(p: Seq<char>, keys: Seq<Seq<char>>)
    ensures
        matching_keys(p, remaining_keys(keys, matching_keys(p, keys))).len() == 0,
{
    let targets = matching_keys(p, keys);
    let rest = remaining_keys(keys, targets);
    let again = matching_keys(p, rest);
    if again.len() > 0 {
        let x = again[0];
        assert(again.contains(x));
        matching_keys_contains(p, rest, x);
        remaining_keys_contains(keys, targets, x);
        matching_keys_contains(p, keys, x);
    }
}

/// Delete by pattern deletes exactly the keys that key search reports on the
/// same listing: when every delete succeeds it reports as many deletions as
/// the search reports keys (the sentinel when the search does), and a key
/// search with the same pattern over the keys that remain reports the
/// sentinel.
pub proof fn delete_removes_what_search_reports(
    p: Seq<char>,
    keys: Seq<Seq<char>>,
    outcomes: Seq<bool>,
)
    requires
        outcomes.len() == matching_keys(p, keys).len(),
        forall|i: int| 0 <= i < outcomes.len() ==> outcomes[i],
    ensures
        match aggregate(matching_keys(p, keys)) {
            Some(found) => found == matching_keys(p, keys) && delete_outcome(
                count_successes(outcomes),
            ) == Some(found.len()),
            None => delete_outcome(count_successes(outcomes)) == None::<nat>,
        },
        aggregate(matching_keys(p, remaining_keys(keys, matching_keys(p, keys)))) == None::<
            Seq<Seq<char>>,
        >,
{
    all_successes_counted(outcomes);
    search_after_delete_is_empty(p, keys);
}

/// A second delete by pattern right after a first one, with no write in
/// between, finds no key to delete and reports the sentinel, whatever the
/// first one's deletes did.
pub proof fn delete_twice_reports_nothing(p: Seq<char>, keys: Seq<Seq<char>>, second: Seq<bool>)
    requires
        second.len() == matching_keys(p, remaining_keys(keys, matching_keys(p, keys))).len(),
    ensures
        matching_keys(p, remaining_keys(keys, matching_keys(p, keys))).len() == 0,
        delete_outcome(count_successes(second)) == None::<nat>,
{
    search_after_delete_is_empty(p, keys);
}

/// A candidate whose value could not be read changes nothing in what value
/// search reports: the result is that of the other candidates.
pub proof fn unreadable_entry_is_skipped(
    p: Seq<char>,
    entries: Seq<(Seq<char>, Option<Seq<char>>)>,
    i: int,
)
    requires
        0 <= i < entries.len(),
        entries[i].1 is None,
    ensures
        matching_values(p, entries) == matching_values(p, entries.remove(i)),
    decreases entries.len(),
{
    if i == entries.len() - 1 {
        assert(entries.remove(i) == entries.drop_last());
    } else {
        unreadable_entry_is_skipped(p, entries.drop_last(), i);
        assert(entries.remove(i).drop_last() == entries.drop_last().remove(i));
        assert(entries.remove(i).last() == entries.last());
    }
}

} // verus!
