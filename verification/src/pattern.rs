//! Searching a text for a regular expression and reading the capture groups.

use vstd::prelude::*;

verus! {

/// The error of the `regex` crate, carried through unread.
#[verifier::external_type_specification]
#[verifier::external_body]
pub struct ExRegexError(regex::Error);

/// Whether `regex::Regex::new` compiles `pattern`.
pub uninterp spec fn regex_accepts(pattern: Seq<char>) -> bool;

/// What `regex::Regex::captures` returns for the regex compiled from
/// `pattern` on `haystack`: `None` where nothing matches, else the text of
/// every capture group of the leftmost match, group 0 (the whole match)
/// first, with `None` for a group that took no part in the match.
pub uninterp spec fn regex_captures(pattern: Seq<char>, haystack: Seq<char>) -> Option<
    Seq<Option<Seq<char>>>,
>;

/// The text of one capture group.
pub open spec fn group_of(group: Option<String>) -> Option<Seq<char>> {
    match group {
        Some(text) => Some(text@),
        None => None,
    }
}

/// The texts of the capture groups of one match.
pub open spec fn groups_of(groups: Seq<Option<String>>) -> Seq<Option<Seq<char>>> {
    groups.map_values(|group: Option<String>| group_of(group))
}

/// The outcome of a search as plain text.
pub open spec fn search_of(found: Option<Vec<Option<String>>>) -> Option<Seq<Option<Seq<char>>>> {
    match found {
        Some(groups) => Some(groups_of(groups@)),
        None => None,
    }
}

/// The capture groups that `pattern` finds in `haystack`; `None` where
/// nothing matches or `pattern` is no regular expression.
pub open spec fn pattern_groups(pattern: Seq<char>, haystack: Seq<char>) -> Option<
    Seq<Option<Seq<char>>>,
> {
    if regex_accepts(pattern) {
        regex_captures(pattern, haystack)
    } else {
        None
    }
}

/// The text of group `index` in the outcome of a search, where the search
/// matched and the group took part.
pub open spec fn group_text(found: Option<Seq<Option<Seq<char>>>>, index: int) -> Option<
    Seq<char>,
> {
    match found {
        Some(groups) => if 0 <= index < groups.len() {
            groups[index]
        } else {
            None
        },
        None => None,
    }
}

/// Compiles `pattern` with `regex::Regex::new` and searches `haystack` with
/// `regex::Regex::captures`. Trusted: the call fails exactly on the patterns
/// that the crate does not compile, and otherwise hands back the capture
/// groups that the crate reports, each as an owned string.
#[verifier::external_body]
fn regex_search(pattern: &str, haystack: &str) -> (r: Result<
    Option<Vec<Option<String>>>,
    regex::Error,
>)
    ensures
        (r is Ok) == regex_accepts(pattern@),
        r matches Ok(found) ==> search_of(found) == regex_captures(pattern@, haystack@),
{
    let re = regex::Regex::new(pattern)?;
    Ok(
        re.captures(haystack).map(
            |caps| caps.iter().map(|m| m.map(|t| t.as_str().to_string())).collect(),
        ),
    )
}

/// Searches `haystack` for `pattern`. A pattern that does not compile finds
/// nothing.
pub fn find_groups(pattern: &str, haystack: &str) -> (found: Option<Vec<Option<String>>>)
    ensures
        search_of(found) == pattern_groups(pattern@, haystack@),
{
    match regex_search(pattern, haystack) {
        Ok(found) => found,
        Err(_) => None,
    }
}

/// Reads group `index` out of the outcome of a search.
pub fn group(found: &Option<Vec<Option<String>>>, index: usize) -> (text: Option<String>)
    ensures
        group_of(text) == group_text(search_of(*found), index as int),
{
    match found {
        Some(groups) => {
            if index < groups.len() {
                match &groups[index] {
                    Some(text) => Some(text.clone()),
                    None => None,
                }
            } else {
                None
            }
        },
        None => None,
    }
}

} // verus!
