//! HTTP header sets, as the `http` crate holds them.
//!
//! `reqwest` takes its headers as an `http::HeaderMap`. Verified code builds
//! such a map through the functions of this module and reasons about what
//! the map holds, [`header_view`]. The contracts here are taken on trust
//! from the `http` crate.

use reqwest::header::{HeaderMap, HeaderValue, InvalidHeaderValue};
use vstd::prelude::*;

verus! {

/// A tab or a visible ASCII character.
pub open spec fn is_visible_ascii_char(c: char) -> bool {
    c == '\t' || (' ' <= c && c < '\u{7f}')
}

/// Text made of tabs and visible ASCII characters only.
pub open spec fn is_visible_ascii(s: Seq<char>) -> bool {
    forall|i: int| 0 <= i < s.len() ==> is_visible_ascii_char(#[trigger] s[i])
}

/// Text that can stand in a header value: no control character but the tab.
pub open spec fn is_header_text(s: Seq<char>) -> bool {
    forall|i: int| 0 <= i < s.len() ==> (#[trigger] s[i] == '\t' || (' ' <= s[i] && s[i] != '\u{7f}'))
}

/// A character of an HTTP token: a letter, a digit or one of
/// ``! # $ % & ' * + - . ^ _ ` | ~``.
pub open spec fn is_token_char(c: char) -> bool {
    ('a' <= c && c <= 'z') || ('A' <= c && c <= 'Z') || ('0' <= c && c <= '9') || c == '!' || c
        == '#' || c == '$' || c == '%' || c == '&' || c == '\'' || c == '*' || c == '+' || c
        == '-' || c == '.' || c == '^' || c == '_' || c == '`' || c == '|' || c == '~'
}

/// A header name of at most 64 token characters.
pub open spec fn is_header_name(s: Seq<char>) -> bool {
    &&& 1 <= s.len() <= 64
    &&& forall|i: int| 0 <= i < s.len() ==> is_token_char(#[trigger] s[i])
}

/// `c` with an ASCII capital turned into its small letter.
pub open spec fn lower(c: char) -> char {
    if 'A' <= c && c <= 'Z' {
        ((c as u8) + 32) as char
    } else {
        c
    }
}

/// `s` in ASCII lower case.
pub open spec fn lowercase(s: Seq<char>) -> Seq<char> {
    Seq::new(s.len(), |i: int| lower(s[i]))
}

/// The number of names below which a header map always has room for one more.
pub const HEADER_ROOM: usize = 1024;

/// `http::HeaderMap`, a set of headers. Opaque to the verifier.
#[verifier::external_type_specification]
#[verifier::external_body]
#[verifier::reject_recursive_types(T)]
pub struct ExHeaderMap<T>(HeaderMap<T>);

/// `http::HeaderValue`, the value of one header. Opaque to the verifier.
#[verifier::external_type_specification]
#[verifier::external_body]
pub struct ExHeaderValue(HeaderValue);

/// `http::header::InvalidHeaderValue`, the refusal of a text as a header
/// value. Opaque to the verifier.
#[verifier::external_type_specification]
#[verifier::external_body]
pub struct ExInvalidHeaderValue(InvalidHeaderValue);

/// What a header map holds: for each name, in lower case, the text of the
/// first value stored under it.
pub uninterp spec fn header_view(headers: HeaderMap) -> Map<Seq<char>, Seq<char>>;

/// The text that a header value was made from.
pub uninterp spec fn header_text(value: HeaderValue) -> Seq<char>;

/// `HeaderMap::new`: a map without entries.
#[verifier::external_body]
pub(crate) fn new_headers() -> (r: HeaderMap)
    ensures
        header_view(r) == (Map::<Seq<char>, Seq<char>>::empty()),
{
    HeaderMap::new()
}

/// `HeaderValue::from_str`: accepts exactly the texts without control
/// characters other than the tab, and keeps the text as it is.
#[verifier::external_body]
pub(crate) fn header_value(text: &str) -> (r: Result<HeaderValue, InvalidHeaderValue>)
    ensures
        r is Ok <==> is_header_text(text@),
        r matches Ok(value) ==> header_text(value) == text@,
{
    HeaderValue::from_str(text)
}

/// Whether `text` can stand in a header value.
pub fn check_header_text(text: &str) -> (r: bool)
    ensures
        r == is_header_text(text@),
{
    for c in it: text.chars()
        invariant
            it.seq() == text@,
            is_header_text(text@.subrange(0, it.index())),
    {
        if !(c == '\t' || (' ' <= c && c != '\u{7f}')) {
            assert(!is_header_text(text@)) by {
                let at = it.index();
                assert(!(text@[at] == '\t' || (' ' <= text@[at] && text@[at] != '\u{7f}')));
            }
            return false;
        }
        assert(is_header_text(text@.subrange(0, it.index() + 1))) by {
            let longer = text@.subrange(0, it.index() + 1);
            let shorter = text@.subrange(0, it.index());
            assert forall|i: int| 0 <= i < longer.len() implies (#[trigger] longer[i] == '\t' || (' '
                <= longer[i] && longer[i] != '\u{7f}')) by {
                if i < shorter.len() {
                    assert(longer[i] == shorter[i]);
                }
            }
        }
    }
    assert(text@.subrange(0, text@.len() as int) == text@);
    true
}

/// A header value from text that is fit for one.
pub(crate) fn header_value_of(text: &str) -> (r: HeaderValue)
    requires
        is_header_text(text@),
    ensures
        header_text(r) == text@,
{
    match header_value(text) {
        Ok(value) => value,
        Err(_) => vstd::pervasive::unreached(),
    }
}

/// `HeaderValue::from_static`: keeps the text as it is. It panics on
/// anything but tabs and visible ASCII, which `requires` leaves out.
#[verifier::external_body]
pub(crate) fn static_header_value(text: &'static str) -> (r: HeaderValue)
    requires
        is_visible_ascii(text@),
    ensures
        header_text(r) == text@,
{
    HeaderValue::from_static(text)
}

/// `HeaderMap::insert` with a string for the name: the name, folded to
/// lower case, then has `value` as its only value; other names keep theirs.
/// It panics on a string that is no header name and on a map that cannot
/// grow, which `requires` leaves out.
#[verifier::external_body]
pub(crate) fn set_header(headers: &mut HeaderMap, name: &'static str, value: HeaderValue)
    requires
        is_header_name(name@),
        header_view(*old(headers)).dom().finite(),
        header_view(*old(headers)).dom().len() < HEADER_ROOM,
    ensures
        header_view(*final(headers)) == header_view(*old(headers)).insert(lowercase(name@), header_text(value)),
{
    headers.insert(name, value);
}

} // verus!
