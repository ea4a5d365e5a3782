//! The regex crate, as the progress tracker uses it.
use vstd::prelude::*;

verus! {

/// What `regex::Regex::new(pattern)` followed by `is_match(haystack)`
/// gives: `None` where the pattern does not compile, else whether the
/// pattern matches anywhere in the haystack.
pub uninterp spec fn pattern_matches(pattern: Seq<char>, haystack: Seq<char>) -> Option<bool>;

/// What `regex::Regex::new(pattern)` followed by `captures(haystack)` gives:
/// `None` where the pattern does not compile, `Some(None)` where it does
/// not match, and otherwise the text of each capture group by number
/// (group 0 is the whole match), `None` for a group that did not take part.
pub uninterp spec fn pattern_captures(pattern: Seq<char>, haystack: Seq<char>) -> Option<
    Option<Seq<Option<Seq<char>>>>,
>;

/// Compiles `pattern` with `regex::Regex::new` and asks `Regex::is_match`
/// whether it matches anywhere in `haystack`. Claimed: the result is the
/// named value `pattern_matches` of the two texts, `None` where compiling
/// fails. Nothing is claimed of what the regex engine matches.
#[verifier::external_body]
pub(crate) fn find_match(pattern: &str, haystack: &str) -> (r: Option<bool>)
    ensures
        r == pattern_matches(pattern@, haystack@),
{
    match regex::Regex::new(pattern) {
        Ok(re) => Some(re.is_match(haystack)),
        Err(_) => None,
    }
}

/// Compiles `pattern` with `regex::Regex::new` and calls `Regex::captures`
/// on `haystack`, copying the text of each group (by `Captures::iter`).
/// Claimed: the result is the named value `pattern_captures` of the two
/// texts. Nothing is claimed of what the regex engine captures.
#[verifier::external_body]
pub(crate) fn find_captures(pattern: &str, haystack: &str) -> (r: Option<Option<Vec<Option<String>>>>)
    ensures
        r.deep_view() == pattern_captures(pattern@, haystack@),
{
    let re = match regex::Regex::new(pattern) { Ok(re) => re, Err(_) => return None };
    let caps = match re.captures(haystack) { Some(caps) => caps, None => return Some(None) };
    let mut groups = Vec::new();
    for group in caps.iter() {
        groups.push(match group { Some(m) => Some(m.as_str().to_string()), None => None });
    }
    Some(Some(groups))
}

} // verus!
