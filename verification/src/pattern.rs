//! Finding the path argument in a line of the trace log.
//!
//! A line is searched for the first double-quoted text that begins with a
//! path separator. The search is done by the `regex` crate; what it finds is
//! taken on trust, and named here so that the rest of the library can speak
//! of it.

use crate::text::occurs;
use regex::Regex;
use vstd::prelude::*;

verus! {

/// A compiled expression of the `regex` crate. Nothing of what it holds is
/// visible here.
#[verifier::external_type_specification]
#[verifier::external_body]
pub struct ExRegex(regex::Regex);

/// The error with which the `regex` crate refuses a pattern.
#[verifier::external_type_specification]
#[verifier::external_body]
pub struct ExRegexError(regex::Error);

/// The pattern that `regex::Regex::new` compiled an expression from; `None`
/// for an expression that was made in any other way.
pub uninterp spec fn compiled_from(expression: regex::Regex) -> Option<Seq<char>>;

/// Whether `regex::Regex::new` accepts `pattern`: the pattern is well
/// formed, and what the engine compiles from it stays within the engine's
/// own size limit.
pub uninterp spec fn accepted(pattern: Seq<char>) -> bool;

/// What an expression that `regex::Regex::new` compiled from `pattern`
/// captures in `haystack`: the text that capture group `group` holds in the
/// leftmost match. It is `None` where the pattern matches nowhere, where
/// the pattern has no group of that index, and where the group took no part
/// in the match.
pub uninterp spec fn first_capture(pattern: Seq<char>, group: nat, haystack: Seq<char>) -> Option<
    Seq<char>,
>;

/// `regex::Regex::new` compiles a pattern. Whether it succeeds depends on
/// the pattern alone, and is named by `accepted`. Of an expression that it
/// hands out, this records the pattern that it was given.
pub assume_specification[ regex::Regex::new ](re: &str) -> (compiled: Result<
    regex::Regex,
    regex::Error,
>)
    ensures
        compiled is Ok <==> accepted(re@),
        compiled matches Ok(expression) ==> compiled_from(expression) == Some(re@),
;

/// `regex::Regex::captures`, then `regex::Captures::get` and
/// `regex::Match::as_str`: the text of one capture group of the leftmost
/// match, as an owned string. Two things are claimed: that, for an
/// expression that `regex::Regex::new` compiled, this text depends on the
/// pattern, the group and the haystack alone; and that it is a piece of the
/// haystack.
#[verifier::external_body]
fn capture_group(expression: &Regex, group: usize, haystack: &str) -> (text: Option<String>)
    requires
        compiled_from(*expression) is Some,
    ensures
        text is Some <==> first_capture(
            compiled_from(*expression).unwrap(),
            group as nat,
            haystack@,
        ) is Some,
        text matches Some(found) ==> first_capture(
            compiled_from(*expression).unwrap(),
            group as nat,
            haystack@,
        ) == Some(found@),
        text matches Some(found) ==> occurs(haystack@, found@),
{
    match expression.captures(haystack) {
        Some(groups) => match groups.get(group) {
            Some(part) => Some(part.as_str().to_owned()),
            None => None,
        },
        None => None,
    }
}

/// The pattern of a path argument: a double quote, then a path separator
/// and at least one more character that is no double quote, then a double
/// quote. Its first capture group is the text between the quotes.
pub const PATH_PATTERN: &'static str = "\"(/[^\"]+)\"";

/// The capture group of `PATH_PATTERN` that holds the path.
pub const PATH_GROUP: usize = 1;

/// The path that a line of the log names, if it names one: the first
/// quoted path in it.
pub open spec fn quoted_path(line: Seq<char>) -> Option<Seq<char>> {
    first_capture(PATH_PATTERN@, PATH_GROUP as nat, line)
}

/// The expression engine refused the path pattern.
#[derive(Clone, Copy, Debug, PartialEq, Eq, Structural)]
pub struct PatternRejected {}

/// The compiled path pattern, ready to be applied to any number of lines.
pub struct PathFinder {
    expression: Regex,
}

impl PathFinder {
    #[verifier::type_invariant]
    spec fn well_formed(self) -> bool {
        compiled_from(self.expression) == Some(PATH_PATTERN@)
    }

    /// The pattern that the finder's expression was compiled from.
    pub closed spec fn pattern(&self) -> Option<Seq<char>> {
        compiled_from(self.expression)
    }

    /// Compiles the path pattern. It succeeds exactly where the engine
    /// accepts the pattern; the finder then holds the expression that the
    /// engine compiled from `PATH_PATTERN`.
    pub fn new() -> (made: Result<PathFinder, PatternRejected>)
        ensures
            made is Ok <==> accepted(PATH_PATTERN@),
            made matches Ok(finder) ==> finder.pattern() == Some(PATH_PATTERN@),
    {
        Self::from_compiled(Regex::new(PATH_PATTERN))
    }

    /// Keeps an expression that was compiled from the path pattern, and
    /// reports a refusal as this library's own error.
    fn from_compiled(compiled: Result<Regex, regex::Error>) -> (made: Result<
        PathFinder,
        PatternRejected,
    >)
        requires
            compiled matches Ok(expression) ==> compiled_from(expression) == Some(PATH_PATTERN@),
        ensures
            made is Ok <==> compiled is Ok,
            made matches Ok(finder) ==> finder.pattern() == Some(PATH_PATTERN@),
    {
        match compiled {
            Ok(expression) => Ok(PathFinder { expression }),
            Err(_) => Err(PatternRejected {  }),
        }
    }

    /// The path named by `line`, if any.
    pub fn extract(&self, line: &str) -> (path: Option<String>)
        ensures
            path is Some <==> quoted_path(line@) is Some,
            path matches Some(found) ==> quoted_path(line@) == Some(found@),
            path matches Some(found) ==> occurs(line@, found@),
    {
        proof {
            use_type_invariant(self);
        }
        capture_group(&self.expression, PATH_GROUP, line)
    }
}

} // verus!
