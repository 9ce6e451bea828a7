//! Validation of the commands' positional arguments.
use vstd::prelude::*;

use crate::pattern::{compile, regex_compiles, regex_diagnostic, Pattern};

verus! {

/// Why a command invocation failed as a whole.
#[derive(Debug, Clone, PartialEq, Eq)]
pub enum CommandError {
    /// The argument at this position (counted after the command name) is
    /// missing.
    Arity(usize),
    /// The pattern argument does not compile; holds the compiler's diagnostic.
    Pattern(String),
    /// The store's reply to an enumeration was not a list.
    UpstreamProtocol,
}

/// Access to the compiled pattern of a validated command.
pub trait GetRegularExpression {
    /// The pattern text the command was given.
    spec fn pattern_text(&self) -> Seq<char>;

    fn get_regular_expression(&self) -> (r: &Pattern)
        ensures
            r.source() == self.pattern_text(),
    ;
}

/// Compiles a pattern argument, turning a refusal into a pattern error.
pub fn get_regular_expression(raw_expression: &String) -> (r: Result<Pattern, CommandError>)
    ensures
        match r {
            Ok(p) => regex_compiles(raw_expression@) && p.source() == raw_expression@,
            Err(CommandError::Pattern(d)) => !regex_compiles(raw_expression@) && d@
                == regex_diagnostic(raw_expression@),
            Err(_) => false,
        },
{
    match compile(raw_expression.as_str()) {
        Ok(p) => Ok(p),
        Err(d) => Err(CommandError::Pattern(d)),
    }
}

/// The arguments of the key search and pattern delete commands: one pattern.
pub struct FindByKey {
    regex: Pattern,
}

impl GetRegularExpression for FindByKey {
    closed spec fn pattern_text(&self) -> Seq<char> {
        self.regex.source()
    }

    fn get_regular_expression(&self) -> (r: &Pattern) {
        &self.regex
    }
}

impl FindByKey {
    /// Parses `args`, whose first element is the command name: the pattern
    /// follows it.
    pub fn try_from(args: Vec<String>) -> (r: Result<FindByKey, CommandError>)
        ensures
            match r {
                Ok(q) => args@.len() >= 2 && regex_compiles(args@[1]@) && q.pattern_text()
                    == args@[1]@,
                Err(CommandError::Arity(i)) => args@.len() < 2 && i == 0,
                Err(CommandError::Pattern(d)) => args@.len() >= 2 && !regex_compiles(args@[1]@)
                    && d@ == regex_diagnostic(args@[1]@),
                Err(CommandError::UpstreamProtocol) => false,
            },
    {
        if args.len() < 2 {
            return Err(CommandError::Arity(0));
        }
        let regex = get_regular_expression(&args[1])?;
        Ok(FindByKey { regex })
    }

    /// The glob mask the key enumeration runs with: every key.
    pub fn get_redis_mask(&self) -> (r: &'static str)
        ensures
            r@ == seq!['*'],
    {
        proof {
            reveal_strlit("*");
        }
        "*"
    }
}

/// The arguments of the value search command: a glob mask narrowing the
/// enumeration, then a pattern.
pub struct FindByValue {
    regex: Pattern,
    redis_mask: String,
}

impl GetRegularExpression for FindByValue {
    closed spec fn pattern_text(&self) -> Seq<char> {
        self.regex.source()
    }

    fn get_regular_expression(&self) -> (r: &Pattern) {
        &self.regex
    }
}

impl FindByValue {
    /// The mask argument, as given.
    pub closed spec fn mask(&self) -> Seq<char> {
        self.redis_mask@
    }

    /// The glob mask the key enumeration runs with.
    pub fn get_redis_mask(&self) -> (r: &str)
        ensures
            r@ == self.mask(),
    {
        self.redis_mask.as_str()
    }

    /// Parses `args`, whose first element is the command name: the mask and
    /// the pattern follow it, in that order.
    pub fn try_from(args: Vec<String>) -> (r: Result<FindByValue, CommandError>)
        ensures
            match r {
                Ok(q) => args@.len() >= 3 && regex_compiles(args@[2]@) && q.pattern_text()
                    == args@[2]@ && q.mask() == args@[1]@,
                Err(CommandError::Arity(i)) => (args@.len() < 2 && i == 0) || (args@.len() == 2
                    && i == 1),
                Err(CommandError::Pattern(d)) => args@.len() >= 3 && !regex_compiles(args@[2]@)
                    && d@ == regex_diagnostic(args@[2]@),
                Err(CommandError::UpstreamProtocol) => false,
            },
    {
        if args.len() < 2 {
            return Err(CommandError::Arity(0));
        }
        let redis_mask = args[1].clone();
        if args.len() < 3 {
            return Err(CommandError::Arity(1));
        }
        let regex = get_regular_expression(&args[2])?;
        Ok(FindByValue { regex, redis_mask })
    }
}

} // verus!
