//! A one-line text field with a cursor.
//!
//! The cursor is a position in the text's UTF-8 bytes. The contracts are
//! therefore stated over bytes: what an edit does is said of the encoding of
//! the text.

use crate::string_specs::{inserted, lemma_character_fits, removed};
use vstd::prelude::*;
use vstd::utf8::{encode_utf8, encode_utf8_decode_utf8, is_char_boundary};

verus! {

/// A text field: its content and the cursor's byte position in it.
#[derive(Debug)]
pub struct TextInput {
    content: String,
    cursor: usize,
}

impl TextInput {
    /// The cursor stands inside the text or at its end.
    pub closed spec fn wf(&self) -> bool {
        self.cursor <= encode_utf8(self.content@).len() <= usize::MAX
    }

    /// The text.
    pub closed spec fn text(&self) -> Seq<char> {
        self.content@
    }

    /// The text's UTF-8 encoding.
    pub open spec fn bytes(&self) -> Seq<u8> {
        encode_utf8(self.text())
    }

    /// The cursor's position in the bytes.
    pub closed spec fn position(&self) -> int {
        self.cursor as int
    }

    /// An empty field.
    pub fn new() -> (r: TextInput)
        ensures
            r.wf(),
            r.text() == Seq::<char>::empty(),
            r.position() == 0,
    {
        TextInput { content: String::new(), cursor: 0 }
    }

    /// Whether the cursor stands between two characters or at an end.
    pub fn on_boundary(&self) -> (r: bool)
        ensures
            r == is_char_boundary(self.bytes(), self.position()),
    {
        self.content.as_str().is_char_boundary(self.cursor)
    }

    /// The cursor's position in the bytes.
    pub fn cursor(&self) -> (r: usize)
        ensures
            r == self.position(),
            self.wf() ==> r <= self.bytes().len(),
    {
        self.cursor
    }

    /// Puts `c` in at the cursor and moves the cursor one byte on.
    pub fn insert(&mut self, c: char)
        requires
            old(self).wf(),
            is_char_boundary(old(self).bytes(), old(self).position()),
        ensures
            final(self).wf(),
            final(self).bytes() == inserted(old(self).bytes(), old(self).position(), encode_utf8(seq![c])),
            final(self).position() == old(self).position() + 1,
    {
        proof {
            lemma_encoding_is_not_empty(c);
        }
        self.content.insert(self.cursor, c);
        self.cursor += 1;
    }

    /// Puts `s` in at the cursor and moves the cursor behind it.
    pub fn insert_str(&mut self, s: &str)
        requires
            old(self).wf(),
            is_char_boundary(old(self).bytes(), old(self).position()),
        ensures
            final(self).wf(),
            final(self).bytes() == inserted(old(self).bytes(), old(self).position(), encode_utf8(s@)),
            final(self).position() == old(self).position() + encode_utf8(s@).len(),
    {
        self.content.insert_str(self.cursor, s);
        self.cursor += s.len();
    }

    /// Moves the cursor one byte back and takes out the character that
    /// starts there. At the start of the text nothing happens.
    pub fn delete_back(&mut self)
        requires
            old(self).wf(),
            old(self).position() > 0 ==> is_char_boundary(old(self).bytes(), old(self).position() - 1),
        ensures
            final(self).wf(),
            old(self).position() == 0 ==> final(self).text() == old(self).text() && final(self).position() == 0,
            old(self).position() > 0 ==> final(self).bytes() == removed(old(self).bytes(), old(self).position() - 1)
                && final(self).position() == old(self).position() - 1,
    {
        if self.cursor > 0 {
            self.cursor -= 1;
            proof {
                lemma_character_fits(self.content@, self.cursor as int);
            }
            self.content.remove(self.cursor);
        }
    }

    /// Takes out the character that starts at the cursor. At the end of the
    /// text nothing happens.
    pub fn delete_forward(&mut self)
        requires
            old(self).wf(),
            is_char_boundary(old(self).bytes(), old(self).position()),
        ensures
            final(self).wf(),
            final(self).position() == old(self).position(),
            old(self).position() == old(self).bytes().len() ==> final(self).text() == old(self).text(),
            old(self).position() < old(self).bytes().len() ==> final(self).bytes() == removed(
                old(self).bytes(),
                old(self).position(),
            ),
    {
        if self.cursor < self.content.as_str().len() {
            proof {
                lemma_character_fits(self.content@, self.cursor as int);
            }
            self.content.remove(self.cursor);
        }
    }

    /// Moves the cursor one byte back, unless it is at the start.
    pub fn move_left(&mut self)
        requires
            old(self).wf(),
        ensures
            final(self).wf(),
            final(self).text() == old(self).text(),
            final(self).position() == if old(self).position() > 0 {
                old(self).position() - 1
            } else {
                0
            },
    {
        self.cursor = self.cursor.saturating_sub(1);
    }

    /// Moves the cursor one byte on, unless it is at the end.
    pub fn move_right(&mut self)
        requires
            old(self).wf(),
        ensures
            final(self).wf(),
            final(self).text() == old(self).text(),
            final(self).position() == if old(self).position() < old(self).bytes().len() {
                old(self).position() + 1
            } else {
                old(self).position()
            },
    {
        if self.cursor < self.content.as_str().len() {
            self.cursor += 1;
        }
    }

    /// Moves the cursor to the start.
    pub fn move_start(&mut self)
        requires
            old(self).wf(),
        ensures
            final(self).wf(),
            final(self).text() == old(self).text(),
            final(self).position() == 0,
    {
        self.cursor = 0;
    }

    /// Moves the cursor to the end.
    pub fn move_end(&mut self)
        requires
            old(self).wf(),
        ensures
            final(self).wf(),
            final(self).text() == old(self).text(),
            final(self).position() == old(self).bytes().len(),
    {
        self.cursor = self.content.as_str().len();
    }

    /// Appends `s` to the text and leaves the cursor where it is.
    pub fn push_str(&mut self, s: &str)
        requires
            old(self).wf(),
        ensures
            final(self).wf(),
            final(self).text() == old(self).text() + s@,
            final(self).position() == old(self).position(),
    {
        proof {
            lemma_encoding_of_concat(self.content@, s@);
        }
        self.content.push_str(s);
    }

    /// Empties the field.
    pub fn clear(&mut self)
        ensures
            final(self).wf(),
            final(self).text() == Seq::<char>::empty(),
            final(self).position() == 0,
    {
        self.cursor = 0;
        self.content.clear();
    }

    /// The text.
    pub fn value(&self) -> (r: &str)
        ensures
            r@ == self.text(),
    {
        self.content.as_str()
    }
}

/// Every character has at least one byte.
proof fn lemma_encoding_is_not_empty(c: char)
    ensures
        encode_utf8(seq![c]).len() >= 1,
{
    reveal_with_fuel(encode_utf8, 2);
}

/// Texts with the same encoding are the same text: what a contract says of
/// the bytes of a field, it says of the field's text.
pub proof fn lemma_encoding_determines_text(a: Seq<char>, b: Seq<char>)
    requires
        encode_utf8(a) == encode_utf8(b),
    ensures
        a == b,
{
    encode_utf8_decode_utf8(a);
    encode_utf8_decode_utf8(b);
}

/// The encoding of a concatenation is the concatenation of the encodings.
pub proof fn lemma_encoding_of_concat(a: Seq<char>, b: Seq<char>)
    ensures
        encode_utf8(a + b) == encode_utf8(a) + encode_utf8(b),
    decreases a.len(),
{
    if a.len() == 0 {
        assert(a + b == b);
    } else {
        lemma_encoding_of_concat(a.drop_first(), b);
        assert((a + b).drop_first() == a.drop_first() + b);
    }
}

} // verus!
