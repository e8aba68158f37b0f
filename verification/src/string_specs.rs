//! What this library takes for granted of `std::string::String`.
//!
//! The editing methods of `String` address the text by byte position. Their
//! contracts are therefore stated over the text's UTF-8 encoding. They
//! repeat what the standard library documents and are not proved here.

use vstd::prelude::*;
use vstd::utf8::{
    decode_first_scalar, encode_utf8, encode_utf8_valid_utf8, is_char_boundary,
    length_of_first_scalar, valid_first_scalar, valid_utf8, valid_utf8_split,
};

verus! {

/// `bytes` with `piece` put in at position `at`.
pub open spec fn inserted(bytes: Seq<u8>, at: int, piece: Seq<u8>) -> Seq<u8> {
    bytes.subrange(0, at) + piece + bytes.skip(at)
}

/// The number of bytes of the character that starts at position `at`.
pub open spec fn width_at(bytes: Seq<u8>, at: int) -> int {
    length_of_first_scalar(bytes.skip(at))
}

/// `bytes` without the character that starts at position `at`.
pub open spec fn removed(bytes: Seq<u8>, at: int) -> Seq<u8> {
    bytes.subrange(0, at) + bytes.skip(at + width_at(bytes, at))
}

/// A character that starts inside the encoding of a text has one to four
/// bytes, and all of them lie inside the encoding.
pub proof fn lemma_character_fits(text: Seq<char>, at: int)
    requires
        0 <= at < encode_utf8(text).len(),
        is_char_boundary(encode_utf8(text), at),
    ensures
        1 <= width_at(encode_utf8(text), at) <= 4,
        at + width_at(encode_utf8(text), at) <= encode_utf8(text).len(),
{
    let bytes = encode_utf8(text);
    encode_utf8_valid_utf8(text);
    valid_utf8_split(bytes, at);
    let rest = bytes.skip(at);
    assert(rest == bytes.subrange(at, bytes.len() as int));
    assert(valid_utf8(rest));
    assert(rest.len() > 0);
    assert(valid_first_scalar(rest));
}

/// `String::push` appends exactly one character to the end of the string.
pub assume_specification[ String::push ](s: &mut String, ch: char)
    ensures
        final(s)@ == old(s)@.push(ch),
;

/// `String::insert` puts the character's encoding at byte position `idx`.
/// It panics unless `idx` lies on a character boundary, which `requires`
/// leaves out.
pub assume_specification[ String::insert ](s: &mut String, idx: usize, ch: char)
    requires
        is_char_boundary(encode_utf8(old(s)@), idx as int),
    ensures
        encode_utf8(final(s)@) == inserted(encode_utf8(old(s)@), idx as int, encode_utf8(seq![ch])),
        encode_utf8(final(s)@).len() <= usize::MAX,
;

/// `String::insert_str` puts the string's encoding at byte position `idx`.
/// It panics unless `idx` lies on a character boundary, which `requires`
/// leaves out.
pub assume_specification[ String::insert_str ](s: &mut String, idx: usize, string: &str)
    requires
        is_char_boundary(encode_utf8(old(s)@), idx as int),
    ensures
        encode_utf8(final(s)@) == inserted(encode_utf8(old(s)@), idx as int, encode_utf8(string@)),
        encode_utf8(final(s)@).len() <= usize::MAX,
;

/// `String::remove` takes out the character that starts at byte position
/// `idx` and returns it. It panics unless a character starts there, which
/// `requires` leaves out.
pub assume_specification[ String::remove ](s: &mut String, idx: usize) -> (ch: char)
    requires
        idx < encode_utf8(old(s)@).len(),
        is_char_boundary(encode_utf8(old(s)@), idx as int),
    ensures
        encode_utf8(final(s)@) == removed(encode_utf8(old(s)@), idx as int),
        ch as u32 == decode_first_scalar(encode_utf8(old(s)@).skip(idx as int)),
;

/// `String::push_str` appends the string.
pub assume_specification[ String::push_str ](s: &mut String, string: &str)
    ensures
        final(s)@ == old(s)@ + string@,
        encode_utf8(final(s)@).len() <= usize::MAX,
;

/// `String::clear` empties the string.
pub assume_specification[ String::clear ](s: &mut String)
    ensures
        final(s)@ == Seq::<char>::empty(),
;

} // verus!
