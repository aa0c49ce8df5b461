//! Matching of a line against a regular expression.
//!
//! The matching itself is done by the `regex` crate and is not verified
//! here. What a match gives is known to the contracts only by name.

use crate::model::text_of;
use vstd::prelude::*;

verus! {

/// What a search for the regular expression `pattern` in `haystack` gives:
/// nothing where `pattern` is no regular expression or matches nowhere in
/// `haystack`; else, for the leftmost match, the text of each capture group
/// in the order of their numbers, the whole match being group 0 and a group
/// that took no part in the match having no text.
pub uninterp spec fn regex_captures(pattern: Seq<char>, haystack: Seq<char>) -> Option<
    Seq<Option<Seq<char>>>,
>;

/// The models of the texts of a list of capture groups.
pub open spec fn groups_of(v: Seq<Option<String>>) -> Seq<Option<Seq<char>>> {
    v.map_values(|g: Option<String>| text_of(g))
}

/// The model of what a search gives.
pub open spec fn captures_of(r: Option<Vec<Option<String>>>) -> Option<Seq<Option<Seq<char>>>> {
    match r {
        Some(v) => Some(groups_of(v@)),
        None => None,
    }
}

/// Searches `haystack` for the regular expression `pattern`.
///
/// Trusted: the body compiles the pattern with `regex::Regex::new`, searches
/// with `Regex::captures` and copies the text of each group out of the
/// `Captures` with `Captures::iter` and `Match::as_str`. The contract claims
/// only that the outcome is a function of the two texts; it says nothing of
/// which texts match.
#[verifier::external_body]
pub(crate) fn captures(pattern: &str, haystack: &str) -> (r: Option<Vec<Option<String>>>)
    ensures
        captures_of(r) == regex_captures(pattern@, haystack@),
{
    let re = match regex::Regex::new(pattern) {
        Ok(re) => re,
        Err(_) => return None,
    };
    let caps = re.captures(haystack)?;
    let mut groups = Vec::new();
    for m in caps.iter() {
        groups.push(match m {
            Some(m) => Some(m.as_str().to_owned()),
            None => None,
        });
    }
    Some(groups)
}

} // verus!
