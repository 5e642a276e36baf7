//! Regular expressions of the `regex` crate, as the rules use them.
//!
//! Nothing in this module is proved: it states what the rest of the library
//! takes for granted about compiling a pattern and searching with it.

use regex::Regex;
use vstd::prelude::*;

verus! {

#[verifier::external_type_specification]
#[verifier::external_body]
pub struct ExRegex(regex::Regex);

#[verifier::external_type_specification]
#[verifier::external_body]
pub struct ExRegexError(regex::Error);

/// What `regex::Regex::new` makes of a pattern text: nothing where it
/// rejects the text (it is malformed, or its program exceeds the crate's
/// default size limit), else the set of the haystacks in which the compiled
/// expression finds a match.
pub uninterp spec fn regex_language(pattern: Seq<char>) -> Option<Set<Seq<char>>>;

/// Whether a compiled expression finds a match anywhere in `haystack`,
/// which is what `regex::Regex::is_match` answers.
pub uninterp spec fn regex_accepts(re: Regex, haystack: Seq<char>) -> bool;

/// The haystacks in which a compiled expression finds a match.
pub open spec fn accepted(re: Regex) -> Set<Seq<char>> {
    Set::new(|haystack: Seq<char>| regex_accepts(re, haystack))
}

/// Calls `regex::Regex::new`. Believed of it: whether it succeeds, and what
/// the expression it returns will match, depend on the pattern text alone.
#[verifier::external_body]
pub(crate) fn compile_pattern(pattern: &str) -> (r: Result<Regex, regex::Error>)
    ensures
        match r {
            Ok(re) => regex_language(pattern@) == Some(accepted(re)),
            Err(_) => regex_language(pattern@) is None,
        },
{
    Regex::new(pattern)
}

/// Calls `regex::Regex::is_match`. Believed of it: for one expression the
/// answer depends on the haystack alone.
#[verifier::external_body]
pub(crate) fn pattern_is_match(re: &Regex, haystack: &str) -> (found: bool)
    ensures
        found == regex_accepts(*re, haystack@),
{
    re.is_match(haystack)
}

} // verus!
