//! The store's replies, as a closed set of shapes, and the listing of key
//! names read from an enumeration reply.
use vstd::prelude::*;

use crate::args::CommandError;

verus! {

/// A reply of the host store to a call made on the library's behalf.
#[derive(Debug, PartialEq, Eq)]
pub enum Reply {
    SimpleString(String),
    BulkString(String),
    Integer(i64),
    Array(Vec<Reply>),
    Null,
    NoReply,
    /// A reply that carries no text the commands can use (a number with a
    /// fraction, for instance).
    Other,
}

/// The character sequences of a sequence of strings.
pub open spec fn texts(v: Seq<String>) -> Seq<Seq<char>> {
    v.map_values(|s: String| s@)
}

/// The text a reply element contributes to a listing: simple strings are
/// used, every other shape is skipped.
pub open spec fn usable_text(r: Reply) -> Option<Seq<char>> {
    match r {
        Reply::SimpleString(s) => Some(s@),
        _ => None,
    }
}

/// The usable texts of the elements, in order.
pub open spec fn usable_texts(rs: Seq<Reply>) -> Seq<Seq<char>>
    decreases rs.len(),
{
    if rs.len() == 0 {
        seq![]
    } else {
        let prev = usable_texts(rs.drop_last());
        match usable_text(rs.last()) {
            Some(t) => prev.push(t),
            None => prev,
        }
    }
}

/// The key names an enumeration reply lists, or `None` when the reply is not
/// a list.
pub open spec fn listed_keys(r: Reply) -> Option<Seq<Seq<char>>> {
    match r {
        Reply::Array(items) => Some(usable_texts(items@)),
        _ => None,
    }
}

/// Keeps the text of every simple-string element, in order, and skips the
/// other elements.
pub fn handle_redis_command_result(result: &Vec<Reply>) -> (r: Vec<String>)
    ensures
        texts(r@) == usable_texts(result@),
{
    let mut out: Vec<String> = Vec::new();
    let mut i: usize = 0;
    while i < result.len()
        invariant
            i <= result@.len(),
            texts(out@) == usable_texts(result@.take(i as int)),
        decreases result@.len() - i,
    {
        assert(result@.take(i as int + 1).drop_last() == result@.take(i as int));
        match &result[i] {
            Reply::SimpleString(s) => {
                out.push(s.clone());
                assert(texts(out@) =~= texts(out@.drop_last()).push(s@));
            },
            _ => {},
        }
        i = i + 1;
    }
    assert(result@.take(i as int) == result@);
    out
}

/// The key names of an enumeration reply; a reply that is not a list is a
/// protocol error.
pub fn listing_keys(reply: &Reply) -> (r: Result<Vec<String>, CommandError>)
    ensures
        match listed_keys(*reply) {
            Some(keys) => r is Ok && texts(r->Ok_0@) == keys,
            None => r is Err && r->Err_0 is UpstreamProtocol,
        },
{
    match reply {
        Reply::Array(items) => Ok(handle_redis_command_result(items)),
        _ => Err(CommandError::UpstreamProtocol),
    }
}

} // verus!
