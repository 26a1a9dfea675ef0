//! Regular expressions, matched by the `regex` crate.
//!
//! The library never interprets a pattern itself. Each function below hands the
//! pattern and the text to `regex` and names what comes back, so that callers
//! can state their own results in terms of it.

use vstd::prelude::*;

verus! {

/// Whether `pattern` compiles and matches somewhere in `haystack`.
pub uninterp spec fn regex_matches(pattern: Seq<char>, haystack: Seq<char>) -> bool;

/// The leftmost match of `pattern` in `haystack`, seen through one of its named
/// groups: `None` where the pattern does not compile or does not match,
/// `Some(None)` where it matches without the group taking part, and
/// `Some(Some(text))` with the text that the group matched.
pub uninterp spec fn regex_group(
    pattern: Seq<char>,
    haystack: Seq<char>,
    group: Seq<char>,
) -> Option<Option<Seq<char>>>;

/// `haystack` with the leftmost match of `pattern` replaced by `replacement`,
/// in which `$name` stands for a group; `haystack` itself where the pattern does
/// not compile.
pub uninterp spec fn regex_replaced(
    pattern: Seq<char>,
    haystack: Seq<char>,
    replacement: Seq<char>,
) -> Seq<char>;

/// `regex::Regex::new` followed by `Regex::is_match`: the result is
/// [`regex_matches`] of the two texts. A pattern that `regex` refuses matches
/// nothing.
#[verifier::external_body]
pub(crate) fn is_match(pattern: &str, haystack: &str) -> (r: bool)
    ensures
        r == regex_matches(pattern@, haystack@),
{
    match regex::Regex::new(pattern) {
        Ok(re) => re.is_match(haystack),
        Err(_) => false,
    }
}

/// `regex::Regex::new` followed by `Regex::captures` and `Captures::name`: the
/// result is [`regex_group`] of the three texts.
#[verifier::external_body]
pub(crate) fn capture(pattern: &str, haystack: &str, group: &str) -> (r: Option<Option<String>>)
    ensures
        group_views(r) == regex_group(pattern@, haystack@, group@),
{
    match regex::Regex::new(pattern) {
        Ok(re) => re.captures(haystack).map(|caps| caps.name(group).map(|m| m.as_str().to_string())),
        Err(_) => None,
    }
}

/// `regex::Regex::new` followed by `Regex::replace`: the result is
/// [`regex_replaced`] of the three texts.
#[verifier::external_body]
pub(crate) fn replace_first(pattern: &str, haystack: &str, replacement: &str) -> (r: String)
    ensures
        r@ == regex_replaced(pattern@, haystack@, replacement@),
{
    match regex::Regex::new(pattern) {
        Ok(re) => re.replace(haystack, replacement).into_owned(),
        Err(_) => haystack.to_string(),
    }
}

/// The view of what [`capture`] returns.
pub open spec fn group_views(found: Option<Option<String>>) -> Option<Option<Seq<char>>> {
    match found {
        None => None,
        Some(None) => Some(None),
        Some(Some(text)) => Some(Some(text@)),
    }
}

} // verus!
