//! Keyword search: a regular expression where the keyword is one, a plain
//! substring search where it is not.

use crate::text::{contains, spec_contains};
use vstd::prelude::*;

verus! {

/// Whether the regular expression `pattern` matches somewhere in `text`;
/// `None` if `pattern` is not a regular expression that the `regex` crate accepts.
pub uninterp spec fn regex_search(pattern: Seq<char>, text: Seq<char>) -> Option<bool>;

/// Calls `regex::Regex::new` on `pattern` and, where that succeeds,
/// `Regex::is_match` on `text`. The contract only names the result.
#[verifier::external_body]
pub(crate) fn regex_is_match(pattern: &str, text: &str) -> (r: Option<bool>)
    ensures
        r == regex_search(pattern@, text@),
{
    regex::Regex::new(pattern).ok().map(|re| re.is_match(text))
}

/// What a keyword search answers, given what the regular expression engine
/// said of the keyword: its verdict where the keyword is a regular
/// expression, a plain substring search where it is not.
pub open spec fn spec_keyword_verdict(
    engine: Option<bool>,
    keyword: Seq<char>,
    text: Seq<char>,
) -> bool {
    match engine {
        Some(found) => found,
        None => spec_contains(text, keyword),
    }
}

/// Whether `keyword` is found in `text`.
pub open spec fn spec_keyword_matches(keyword: Seq<char>, text: Seq<char>) -> bool {
    spec_keyword_verdict(regex_search(keyword, text), keyword, text)
}

/// Decides a keyword search from the engine's answer: `engine` is what the
/// regular expression engine said, `None` where the keyword is no regular
/// expression.
pub fn keyword_verdict(engine: Option<bool>, keyword: &str, text: &str) -> (r: bool)
    ensures
        r == spec_keyword_verdict(engine, keyword@, text@),
{
    match engine {
        Some(found) => found,
        None => contains(text, keyword),
    }
}

/// Whether `keyword` is found in `text`: as a regular expression if it is
/// one, else as a plain substring.
pub fn keyword_matches(keyword: &str, text: &str) -> (r: bool)
    ensures
        r == spec_keyword_matches(keyword@, text@),
{
    let engine = regex_is_match(keyword, text);
    keyword_verdict(engine, keyword, text)
}

/// A keyword that is no regular expression is searched for as a plain
/// substring.
pub proof fn lemma_keyword_fallback(keyword: Seq<char>, text: Seq<char>)
    requires
        regex_search(keyword, text) is None,
    ensures
        spec_keyword_matches(keyword, text) == spec_contains(text, keyword),
{
}

} // verus!
