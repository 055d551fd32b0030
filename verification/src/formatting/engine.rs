//! The calls into the `regex` and `sanitize_html` crates that comment
//! formatting makes.

use vstd::prelude::*;

use crate::formatting::{LINK_PATTERN, link_anchor};

verus! {

/// Whether `regex::Regex::new(pattern)` succeeds.
pub uninterp spec fn regex_compiles(pattern: Seq<char>) -> bool;

/// What `regex::Regex::replace_all(haystack, replacement)` returns for
/// the regex compiled from `pattern`, with `replacement` a string in
/// which `$n` stands for the text of capture group `n`.
pub uninterp spec fn regex_replaced(
    pattern: Seq<char>,
    haystack: Seq<char>,
    replacement: Seq<char>,
) -> Seq<char>;

/// The number of items that `regex::Regex::find_iter(haystack)` yields
/// for the regex compiled from `pattern`.
pub uninterp spec fn regex_match_count(pattern: Seq<char>, haystack: Seq<char>) -> nat;

/// The items that `regex::Regex::captures_iter(haystack)` yields for the
/// regex compiled from `pattern`: for each match, in order, the text of
/// each capture group (group 0 first), `None` where a group took no part
/// in the match.
pub uninterp spec fn regex_capture_groups(pattern: Seq<char>, haystack: Seq<char>) -> Seq<
    Seq<Option<Seq<char>>>,
>;

/// What `regex::Regex::replace_all(haystack, f)` returns for the regex
/// compiled from `LINK_PATTERN`, where `f` replaces each match by
/// `link_anchor` of its group 1 and its group 2 (if any).
pub uninterp spec fn regex_links_replaced(haystack: Seq<char>) -> Seq<char>;

/// What `sanitize_html::sanitize_str(&DEFAULT, input)` returns: `None`
/// where it returns an error.
pub uninterp spec fn default_sanitized(input: Seq<char>) -> Option<Seq<char>>;

/// Compiles `pattern` with `regex::Regex::new` and calls
/// `Regex::replace_all(haystack, replacement)`; `None` where the pattern
/// does not compile. The result is named by `regex_replaced`.
#[verifier::external_body]
pub(crate) fn regex_replace_all(pattern: &str, haystack: &str, replacement: &str) -> (r: Option<String>)
    ensures
        r is Some <==> regex_compiles(pattern@),
        r matches Some(t) ==> t@ == regex_replaced(pattern@, haystack@, replacement@),
{
    match regex::Regex::new(pattern) {
        Ok(re) => Some(re.replace_all(haystack, replacement).into_owned()),
        Err(_) => None,
    }
}

/// Compiles `pattern` with `regex::Regex::new` and counts the items of
/// `Regex::find_iter(haystack)`; `None` where the pattern does not
/// compile.
#[verifier::external_body]
pub(crate) fn regex_count_matches(pattern: &str, haystack: &str) -> (r: Option<usize>)
    ensures
        r is Some <==> regex_compiles(pattern@),
        r matches Some(n) ==> n == regex_match_count(pattern@, haystack@),
{
    match regex::Regex::new(pattern) {
        Ok(re) => Some(re.find_iter(haystack).count()),
        Err(_) => None,
    }
}

/// Compiles `pattern` with `regex::Regex::new` and collects the groups
/// of each item of `Regex::captures_iter(haystack)` as strings; `None`
/// where the pattern does not compile.
#[verifier::external_body]
pub(crate) fn regex_captures(pattern: &str, haystack: &str) -> (r: Option<Vec<Vec<Option<String>>>>)
    ensures
        r is Some <==> regex_compiles(pattern@),
        r matches Some(c) ==> c.deep_view() == regex_capture_groups(pattern@, haystack@),
{
    match regex::Regex::new(pattern) {
        Ok(re) => Some(
            re.captures_iter(haystack).map(
                |caps| caps.iter().map(|g| g.map(|m| m.as_str().to_string())).collect(),
            ).collect(),
        ),
        Err(_) => None,
    }
}

/// Compiles `LINK_PATTERN` with `regex::Regex::new` and calls
/// `Regex::replace_all(haystack, f)`, where `f` hands group 1 and group
/// 2 of each match to `link_anchor`; `None` where the pattern does not
/// compile. Group 1 of `LINK_PATTERN` is not optional, so every match
/// has it and `caps[1]` does not panic.
#[verifier::external_body]
pub(crate) fn regex_replace_links(haystack: &str) -> (r: Option<String>)
    ensures
        r is Some <==> regex_compiles(LINK_PATTERN@),
        r matches Some(t) ==> t@ == regex_links_replaced(haystack@),
{
    match regex::Regex::new(LINK_PATTERN) {
        Ok(re) => Some(
            re.replace_all(
                haystack,
                |caps: &regex::Captures| link_anchor(&caps[1], caps.get(2).map(|m| m.as_str())),
            ).into_owned(),
        ),
        Err(_) => None,
    }
}

/// `sanitize_html::sanitize_str` with the crate's `DEFAULT` rules;
/// `None` where it returns an error. The result is named by
/// `default_sanitized`. `DEFAULT` allows no element and no comment, so
/// only text nodes are serialized, and html5ever's serializer writes `<`
/// in text as `&lt;`: the result holds no `<`.
#[verifier::external_body]
pub(crate) fn sanitize_default(input: &str) -> (r: Option<String>)
    ensures
        r is Some <==> default_sanitized(input@) is Some,
        r matches Some(t) ==> default_sanitized(input@) == Some(t@),
        r matches Some(t) ==> !t@.contains('<'),
{
    sanitize_html::sanitize_str(&sanitize_html::rules::predefined::DEFAULT, input).ok()
}

} // verus!
