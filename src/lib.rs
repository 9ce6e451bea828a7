//! Regex-driven search and bulk deletion over a key-value store's primitive
//! operations (enumerate keys by glob mask, read a value, delete a key).
//!
//! The library holds the decisions of the three commands: argument
//! validation, pattern evaluation, filtering and aggregation of results. The
//! host store's calls themselves are made by the embedding program, which
//! hands the library plain values (a listing reply, the values read, the
//! outcome of each delete).
use vstd::prelude::*;

pub mod args;
pub mod commands;
pub mod laws;
pub mod pattern;
pub mod reply;
pub mod seed;

verus! {

} // verus!
