//! The three commands: key search, value search and delete by pattern.
//!
//! Each command is a pipeline: validate the arguments, enumerate keys, read
//! values (value search only), filter, aggregate. The store calls happen
//! between the stages and are made by the caller; the functions here take
//! what those calls returned. Enumeration and the later reads or deletes are
//! not one transaction: what they see together depends on the store.
use vstd::prelude::*;

use crate::args::{CommandError, FindByKey, FindByValue, GetRegularExpression};
use crate::pattern::{is_match, regex_matches, same_text, Pattern};
use crate::reply::{listed_keys, listing_keys, texts, Reply};

verus! {

/// The result of a search: the matching key names, in enumeration order and
/// without repeats, or the sentinel that nothing matched. `Keys` is never
/// empty.
#[derive(Debug, Clone, PartialEq, Eq)]
pub enum MatchResult {
    Keys(Vec<String>),
    NoResults,
}

impl View for MatchResult {
    type V = Option<Seq<Seq<char>>>;

    open spec fn view(&self) -> Option<Seq<Seq<char>>> {
        match self {
            MatchResult::Keys(v) => Some(texts(v@)),
            MatchResult::NoResults => None,
        }
    }
}

/// The result of a delete by pattern: how many keys were deleted, or the
/// sentinel when none was. `Deleted` never holds zero.
#[derive(Debug, Clone, PartialEq, Eq)]
pub enum DeleteResult {
    Deleted(usize),
    NoResults,
}

impl View for DeleteResult {
    type V = Option<nat>;

    open spec fn view(&self) -> Option<nat> {
        match self {
            DeleteResult::Deleted(n) => Some(*n as nat),
            DeleteResult::NoResults => None,
        }
    }
}

/// A key named by an enumeration, with its value when reading it succeeded.
#[derive(Debug, Clone, PartialEq, Eq)]
pub struct CandidateEntry {
    pub key: String,
    pub value: Option<String>,
}

impl View for CandidateEntry {
    type V = (Seq<char>, Option<Seq<char>>);

    open spec fn view(&self) -> (Seq<char>, Option<Seq<char>>) {
        (
            self.key@,
            match self.value {
                Some(v) => Some(v@),
                None => None,
            },
        )
    }
}

/// The views of a sequence of candidate entries.
pub open spec fn entry_views(v: Seq<CandidateEntry>) -> Seq<(Seq<char>, Option<Seq<char>>)> {
    v.map_values(|e: CandidateEntry| e@)
}

/// The keys whose name the pattern matches, in order, each kept at its first
/// occurrence.
pub open spec fn matching_keys(p: Seq<char>, keys: Seq<Seq<char>>) -> Seq<Seq<char>>
    decreases keys.len(),
{
    if keys.len() == 0 {
        seq![]
    } else {
        let prev = matching_keys(p, keys.drop_last());
        let k = keys.last();
        if regex_matches(p, k) && !prev.contains(k) {
            prev.push(k)
        } else {
            prev
        }
    }
}

/// The keys of the entries that have a value and whose value the pattern
/// matches, in order, each kept at its first occurrence.
pub open spec fn matching_values(
    p: Seq<char>,
    entries: Seq<(Seq<char>, Option<Seq<char>>)>,
) -> Seq<Seq<char>>
    decreases entries.len(),
{
    if entries.len() == 0 {
        seq![]
    } else {
        let prev = matching_values(p, entries.drop_last());
        let (k, v) = entries.last();
        if v is Some && regex_matches(p, v->0) && !prev.contains(k) {
            prev.push(k)
        } else {
            prev
        }
    }
}

/// What a search reports for the keys it found: the sentinel in place of an
/// empty sequence.
pub open spec fn aggregate(found: Seq<Seq<char>>) -> Option<Seq<Seq<char>>> {
    if found.len() == 0 {
        None
    } else {
        Some(found)
    }
}

/// How many of the outcomes are successes.
pub open spec fn count_successes(outcomes: Seq<bool>) -> nat
    decreases outcomes.len(),
{
    if outcomes.len() == 0 {
        0
    } else {
        count_successes(outcomes.drop_last()) + if outcomes.last() {
            1nat
        } else {
            0nat
        }
    }
}

/// What a delete reports for its number of successes: the sentinel in place
/// of zero.
pub open spec fn delete_outcome(successes: nat) -> Option<nat> {
    if successes == 0 {
        None
    } else {
        Some(successes)
    }
}

/// The keys of a listing that remain once the keys `deleted` are gone, in
/// order.
pub open spec fn remaining_keys(keys: Seq<Seq<char>>, deleted: Seq<Seq<char>>) -> Seq<Seq<char>>
    decreases keys.len(),
{
    if keys.len() == 0 {
        seq![]
    } else {
        let prev = remaining_keys(keys.drop_last(), deleted);
        if deleted.contains(keys.last()) {
            prev
        } else {
            prev.push(keys.last())
        }
    }
}

/// Whether `k` is among the strings of `v`.
fn contains_text(v: &Vec<String>, k: &str) -> (r: bool)
    ensures
        r == texts(v@).contains(k@),
{
    let mut i: usize = 0;
    while i < v.len()
        invariant
            i <= v@.len(),
            forall|j: int| 0 <= j < i ==> v@[j]@ != k@,
        decreases v@.len() - i,
    {
        if same_text(v[i].as_str(), k) {
            assert(texts(v@)[i as int] == k@);
            return true;
        }
        i = i + 1;
    }
    assert forall|j: int| 0 <= j < texts(v@).len() implies texts(v@)[j] != k@ by {
        assert(texts(v@)[j] == v@[j]@);
    }
    false
}

/// Appends `k` when it is not there yet.
fn push_new(out: &mut Vec<String>, k: &String)
    ensures
        texts(final(out)@) == if texts(old(out)@).contains(k@) {
            texts(old(out)@)
        } else {
            texts(old(out)@).push(k@)
        },
{
    if !contains_text(out, k.as_str()) {
        out.push(k.clone());
        assert(texts(out@) =~= texts(old(out)@).push(k@));
    }
}

/// The keys whose name `p` matches, in order and without repeats.
fn select_keys(p: &Pattern, keys: &Vec<String>) -> (r: Vec<String>)
    ensures
        texts(r@) == matching_keys(p.source(), texts(keys@)),
{
    let mut out: Vec<String> = Vec::new();
    let mut i: usize = 0;
    while i < keys.len()
        invariant
            i <= keys@.len(),
            texts(out@) == matching_keys(p.source(), texts(keys@).take(i as int)),
        decreases keys@.len() - i,
    {
        assert(texts(keys@).take(i as int + 1).drop_last() == texts(keys@).take(i as int));
        assert(texts(keys@).take(i as int + 1).last() == keys@[i as int]@);
        if is_match(p, keys[i].as_str()) {
            push_new(&mut out, &keys[i]);
        }
        i = i + 1;
    }
    assert(texts(keys@).take(i as int) == texts(keys@));
    out
}

/// The sentinel in place of an empty sequence of keys.
fn to_match_result(found: Vec<String>) -> (r: MatchResult)
    ensures
        r@ == aggregate(texts(found@)),
{
    if found.len() == 0 {
        MatchResult::NoResults
    } else {
        MatchResult::Keys(found)
    }
}

/// Key search: the keys of the enumeration `listing` (made with the mask
/// `*`) whose name the pattern matches.
pub fn find_keys_by_rg(args: &FindByKey, listing: &Reply) -> (r: Result<MatchResult, CommandError>)
    ensures
        match listed_keys(*listing) {
            Some(keys) => r is Ok && r->Ok_0@ == aggregate(matching_keys(args.pattern_text(), keys)),
            None => r is Err && r->Err_0 is UpstreamProtocol,
        },
{
    let keys = listing_keys(listing)?;
    let found = select_keys(args.get_regular_expression(), &keys);
    Ok(to_match_result(found))
}

/// Value search: the keys of the candidates whose value was read and is
/// matched by the pattern. A candidate whose read failed is skipped.
pub fn find_values_by_rg(args: &FindByValue, entries: &Vec<CandidateEntry>) -> (r: MatchResult)
    ensures
        r@ == aggregate(matching_values(args.pattern_text(), entry_views(entries@))),
{
    let p = args.get_regular_expression();
    let mut out: Vec<String> = Vec::new();
    let mut i: usize = 0;
    while i < entries.len()
        invariant
            i <= entries@.len(),
            p.source() == args.pattern_text(),
            texts(out@) == matching_values(p.source(), entry_views(entries@).take(i as int)),
        decreases entries@.len() - i,
    {
        let ghost views = entry_views(entries@);
        assert(views.take(i as int + 1).drop_last() == views.take(i as int));
        assert(views.take(i as int + 1).last() == entries@[i as int]@);
        let entry = &entries[i];
        match &entry.value {
            Some(v) => {
                if is_match(p, v.as_str()) {
                    push_new(&mut out, &entry.key);
                }
            },
            None => {},
        }
        i = i + 1;
    }
    assert(entry_views(entries@).take(i as int) == entry_views(entries@));
    to_match_result(out)
}

/// Delete by pattern, first stage: the keys to delete, found exactly as key
/// search finds them in the same listing.
pub fn delete_targets(args: &FindByKey, listing: &Reply) -> (r: Result<Vec<String>, CommandError>)
    ensures
        match listed_keys(*listing) {
            Some(keys) => r is Ok && texts(r->Ok_0@) == matching_keys(args.pattern_text(), keys),
            None => r is Err && r->Err_0 is UpstreamProtocol,
        },
{
    let keys = listing_keys(listing)?;
    Ok(select_keys(args.get_regular_expression(), &keys))
}

/// Delete by pattern, last stage: tallies the outcome of each delete; a
/// failed delete is not counted.
pub fn tally_deletions(outcomes: &Vec<bool>) -> (r: DeleteResult)
    ensures
        r@ == delete_outcome(count_successes(outcomes@)),
{
    let mut count: usize = 0;
    let mut i: usize = 0;
    while i < outcomes.len()
        invariant
            i <= outcomes@.len(),
            count <= i,
            count == count_successes(outcomes@.take(i as int)),
        decreases outcomes@.len() - i,
    {
        assert(outcomes@.take(i as int + 1).drop_last() == outcomes@.take(i as int));
        if outcomes[i] {
            count = count + 1;
        }
        i = i + 1;
    }
    assert(outcomes@.take(i as int) == outcomes@);
    if count == 0 {
        DeleteResult::NoResults
    } else {
        DeleteResult::Deleted(count)
    }
}

} // verus!
