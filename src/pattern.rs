//! Compiled regular expressions, as provided by the `regex` crate.
use vstd::prelude::*;

verus! {

#[verifier::external_type_specification]
#[verifier::external_body]
pub struct ExRegex(regex::Regex);

/// Whether `regex::Regex::new` accepts the pattern. Compilation depends on
/// the pattern text alone.
pub uninterp spec fn regex_compiles(pattern: Seq<char>) -> bool;

/// The diagnostic that `regex::Regex::new` reports for a pattern it refuses.
pub uninterp spec fn regex_diagnostic(pattern: Seq<char>) -> Seq<char>;

/// Whether the regex compiled from `pattern` matches somewhere in `text`
/// (`regex::Regex::is_match`).
pub uninterp spec fn regex_matches(pattern: Seq<char>, text: Seq<char>) -> bool;

/// A regular expression together with the pattern text it was compiled from.
/// Only `compile` builds one, so `source` is always the text of `re`.
pub struct Pattern {
    re: regex::Regex,
    source: Ghost<Seq<char>>,
}

impl Pattern {
    /// The pattern text this regular expression was compiled from.
    pub closed spec fn source(&self) -> Seq<char> {
        self.source@
    }
}

/// Relies on `regex::Regex::new`: it succeeds exactly on the patterns it can
/// compile, and otherwise reports the error's `Display` text.
#[verifier::external_body]
pub(crate) fn compile(text: &str) -> (r: Result<Pattern, String>)
    ensures
        match r {
            Ok(p) => regex_compiles(text@) && p.source() == text@,
            Err(d) => !regex_compiles(text@) && d@ == regex_diagnostic(text@),
        },
{
    match regex::Regex::new(text) {
        Ok(re) => Ok(Pattern { re, source: Ghost(text@) }),
        Err(e) => Err(e.to_string()),
    }
}

/// Relies on `regex::Regex::is_match`: whether the expression matches
/// anywhere in `text`.
#[verifier::external_body]
pub(crate) fn is_match(p: &Pattern, text: &str) -> (r: bool)
    ensures
        r == regex_matches(p.source(), text@),
{
    p.re.is_match(text)
}

/// Relies on `str`'s `==`: two strings are equal exactly when they hold the
/// same characters.
#[verifier::external_body]
pub(crate) fn same_text(a: &str, b: &str) -> (r: bool)
    ensures
        r == (a@ == b@),
{
    a == b
}

} // verus!
