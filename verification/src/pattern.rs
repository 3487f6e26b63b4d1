//! Regular expressions.
//!
//! Matching is done by the `regex` crate. What it finds is a function of the
//! pattern and the text alone, so the results are given names that the
//! contracts of the callers speak of.

use vstd::prelude::*;

verus! {

/// The leftmost match of the regular expression `pattern` in `text`, as the
/// `regex` crate finds it. `None` where nothing matches, and also where
/// `pattern` is no regular expression.
pub uninterp spec fn regex_first_match(pattern: Seq<char>, text: Seq<char>) -> Option<Seq<char>>;

/// `text` with every match of the regular expression `pattern` replaced by
/// `replacement`, as the `regex` crate does it. `None` where `pattern` is no
/// regular expression.
pub uninterp spec fn regex_replaced(
    pattern: Seq<char>,
    text: Seq<char>,
    replacement: Seq<char>,
) -> Option<Seq<char>>;

/// The view of an optional string.
pub open spec fn option_view(found: Option<String>) -> Option<Seq<char>> {
    match found {
        Some(s) => Some(s@),
        None => None,
    }
}

/// Finds the leftmost match of `pattern` in `text`.
///
/// Trusted: compiles the pattern with `regex::Regex::new` and searches with
/// `Regex::find`. The contract only names the result; a pattern that does not
/// compile gives `None`.
#[verifier::external_body]
pub(crate) fn first_match(pattern: &str, text: &str) -> (found: Option<String>)
    ensures
        option_view(found) == regex_first_match(pattern@, text@),
{
    match regex::Regex::new(pattern) {
        Ok(re) => re.find(text).map(|m| m.as_str().to_owned()),
        Err(_) => None,
    }
}

/// Replaces every match of `pattern` in `text` by `replacement`.
///
/// Trusted: compiles the pattern with `regex::Regex::new` and calls
/// `Regex::replace_all`. The contract only names the result; a pattern that
/// does not compile gives `None`.
#[verifier::external_body]
pub(crate) fn replace_all(pattern: &str, text: &str, replacement: &str) -> (replaced: Option<String>)
    ensures
        option_view(replaced) == regex_replaced(pattern@, text@, replacement@),
{
    match regex::Regex::new(pattern) {
        Ok(re) => Some(re.replace_all(text, replacement).into_owned()),
        Err(_) => None,
    }
}

/// `text` without the matches of `pattern`; `text` itself where `pattern` is
/// no regular expression.
pub open spec fn without_matches(pattern: Seq<char>, text: Seq<char>) -> Seq<char> {
    match regex_replaced(pattern, text, Seq::empty()) {
        Some(s) => s,
        None => text,
    }
}

/// Removes every match of `pattern` from `text`.
pub fn strip_matches(pattern: &str, text: &str) -> (out: String)
    ensures
        out@ == without_matches(pattern@, text@),
{
    let empty = String::new();
    match replace_all(pattern, text, empty.as_str()) {
        Some(s) => s,
        None => text.to_owned(),
    }
}

} // verus!
