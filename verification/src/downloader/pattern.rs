//! Searching text with a regular expression, as `regex_lite` does it.

use vstd::prelude::*;

verus! {

/// The text that capture group `group` holds in the leftmost match of the
/// regular expression `pattern` in `haystack`. There is none where `pattern`
/// is no valid expression, where nothing in `haystack` matches, and where the
/// group took no part in the match.
pub uninterp spec fn regex_capture(pattern: Seq<char>, haystack: Seq<char>, group: nat) -> Option<
    Seq<char>,
>;

/// Whether `part` stands in `whole` as one piece.
pub open spec fn occurs_in(part: Seq<char>, whole: Seq<char>) -> bool {
    exists|at: int|
        0 <= at && at + part.len() <= whole.len() && #[trigger] whole.subrange(
            at,
            at + part.len(),
        ) == part
}

/// `Regex::new`, `Regex::captures`, `Captures::get` and `Match::as_str` in a
/// row: compiles `pattern`, searches `haystack` for its leftmost match and
/// copies what the group captured. The outcome depends on the three
/// arguments alone, and what a group captured is a piece of the haystack.
#[verifier::external_body]
pub(crate) fn capture(pattern: &str, haystack: &str, group: usize) -> (r: Option<String>)
    ensures
        r matches Some(text) ==> regex_capture(pattern@, haystack@, group as nat) == Some(text@),
        r is None ==> regex_capture(pattern@, haystack@, group as nat) is None,
        r matches Some(text) ==> occurs_in(text@, haystack@),
{
    let regex = regex_lite::Regex::new(pattern).ok()?;
    let captures = regex.captures(haystack)?;
    let found = captures.get(group)?;
    Some(found.as_str().to_string())
}

} // verus!
