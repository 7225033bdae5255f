//! Path patterns. A pattern is kept as its text; the `regex` crate compiles
//! and runs it.

use vstd::prelude::*;

verus! {

/// What the `regex` crate makes of `pattern` on `haystack`: nothing if
/// `regex::Regex::new` does not accept the pattern, and otherwise whether
/// `regex::Regex::is_match` finds a match anywhere in the haystack. Both are
/// functions of the two texts alone.
pub uninterp spec fn regex_search(pattern: Seq<char>, haystack: Seq<char>) -> Option<bool>;

/// Compiles `pattern` with `regex::Regex::new` and looks for a match in
/// `haystack` with `regex::Regex::is_match`. Not proved: that the outcome is
/// the one that [`regex_search`] names for these two texts.
#[verifier::external_body]
pub(crate) fn regex_is_match(pattern: &str, haystack: &str) -> (found: Option<bool>)
    ensures
        found == regex_search(pattern@, haystack@),
{
    match regex::Regex::new(pattern) {
        Ok(re) => Some(re.is_match(haystack)),
        Err(_) => None,
    }
}

/// Whether `pattern` is a regular expression and matches somewhere in
/// `text`. A text that is no regular expression matches nothing.
pub fn pattern_matches(pattern: &str, text: &str) -> (matched: bool)
    ensures
        matched == (regex_search(pattern@, text@) == Some(true)),
{
    verdict(regex_is_match(pattern, text))
}

/// Whether `pattern` is a regular expression at all.
pub fn pattern_is_valid(pattern: &str) -> (valid: bool)
    ensures
        valid == regex_search(pattern@, Seq::<char>::empty()) is Some,
{
    let probe = String::new();
    regex_is_match(pattern, probe.as_str()).is_some()
}

/// What a search result means for a path: only a match that was found
/// counts.
pub fn verdict(found: Option<bool>) -> (matched: bool)
    ensures
        matched == (found == Some(true)),
{
    match found {
        Some(hit) => hit,
        None => false,
    }
}

} // verus!
