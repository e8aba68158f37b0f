//! File names for downloaded tracks.
//!
//! A title becomes a file name by replacing every character that a file
//! system may refuse with `_`, trimming surrounding whitespace and appending
//! an extension.

use vstd::prelude::*;

verus! {

/// Characters with a special meaning in paths on common file systems.
pub open spec fn is_reserved(c: char) -> bool {
    c == '/' || c == '\\' || c == ':' || c == '*' || c == '?' || c == '"' || c == '<' || c == '>'
        || c == '|'
}

/// Unicode control characters: the C0 block, DEL and the C1 block.
pub open spec fn is_control(c: char) -> bool {
    c <= '\u{1f}' || ('\u{7f}' <= c && c <= '\u{9f}')
}

/// Characters that never appear in a sanitized name.
pub open spec fn is_forbidden(c: char) -> bool {
    is_reserved(c) || is_control(c)
}

/// The character that stands for `c` in a sanitized name.
pub open spec fn replaced(c: char) -> char {
    if is_forbidden(c) {
        '_'
    } else {
        c
    }
}

/// Characters with the Unicode `White_Space` property.
pub open spec fn is_whitespace(c: char) -> bool {
    ('\u{9}' <= c && c <= '\u{d}') || c == ' ' || c == '\u{85}' || c == '\u{a0}' || c
        == '\u{1680}' || ('\u{2000}' <= c && c <= '\u{200a}') || c == '\u{2028}' || c
        == '\u{2029}' || c == '\u{202f}' || c == '\u{205f}' || c == '\u{3000}'
}

/// `s` without its leading whitespace.
pub open spec fn trim_start(s: Seq<char>) -> Seq<char>
    decreases s.len(),
{
    if s.len() > 0 && is_whitespace(s[0]) {
        trim_start(s.drop_first())
    } else {
        s
    }
}

/// `s` without its trailing whitespace.
pub open spec fn trim_end(s: Seq<char>) -> Seq<char>
    decreases s.len(),
{
    if s.len() > 0 && is_whitespace(s.last()) {
        trim_end(s.drop_last())
    } else {
        s
    }
}

/// `s` without leading and trailing whitespace.
pub open spec fn trimmed(s: Seq<char>) -> Seq<char> {
    trim_end(trim_start(s))
}

/// Every character of `s` replaced by its stand-in.
pub open spec fn replace_all(s: Seq<char>) -> Seq<char> {
    Seq::new(s.len(), |i: int| replaced(s[i]))
}

/// The sanitized form of a title.
pub open spec fn sanitized(s: Seq<char>) -> Seq<char> {
    trimmed(replace_all(s))
}

/// No character of `s` is forbidden.
pub open spec fn is_clean(s: Seq<char>) -> bool {
    forall|i: int| 0 <= i < s.len() ==> !is_forbidden(#[trigger] s[i])
}

/// The name under which a track with the given title is stored.
pub open spec fn filename_for(title: Seq<char>, extension: Seq<char>) -> Seq<char> {
    sanitized(title) + seq!['.'] + extension
}

proof fn lemma_trim_start_is_suffix(s: Seq<char>) -> (k: int)
    ensures
        0 <= k <= s.len(),
        trim_start(s) == s.subrange(k, s.len() as int),
        forall|i: int| 0 <= i < k ==> is_whitespace(#[trigger] s[i]),
        k < s.len() ==> !is_whitespace(s[k]),
    decreases s.len(),
{
    if s.len() > 0 && is_whitespace(s[0]) {
        let t = s.drop_first();
        let j = lemma_trim_start_is_suffix(t);
        assert(t.subrange(j, t.len() as int) == s.subrange(j + 1, s.len() as int));
        assert forall|i: int| 0 <= i < j + 1 implies is_whitespace(#[trigger] s[i]) by {
            if i > 0 {
                assert(s[i] == t[i - 1]);
            }
        }
        if j + 1 < s.len() {
            assert(s[j + 1] == t[j]);
        }
        j + 1
    } else {
        assert(s.subrange(0, s.len() as int) == s);
        0
    }
}

proof fn lemma_trim_end_is_prefix(s: Seq<char>) -> (k: int)
    ensures
        0 <= k <= s.len(),
        trim_end(s) == s.subrange(0, k),
        forall|i: int| k <= i < s.len() ==> is_whitespace(#[trigger] s[i]),
        k > 0 ==> !is_whitespace(s[k - 1]),
    decreases s.len(),
{
    if s.len() > 0 && is_whitespace(s.last()) {
        let t = s.drop_last();
        let j = lemma_trim_end_is_prefix(t);
        assert(t.subrange(0, j) == s.subrange(0, j));
        assert forall|i: int| j <= i < s.len() implies is_whitespace(#[trigger] s[i]) by {
            if i < s.len() - 1 {
                assert(s[i] == t[i]);
            }
        }
        if j > 0 {
            assert(s[j - 1] == t[j - 1]);
        }
        j
    } else {
        assert(s.subrange(0, s.len() as int) == s);
        s.len() as int
    }
}

/// Where the trimmed text sits inside `s`: in a window with nothing but
/// whitespace before and behind it, which starts and ends with a character
/// that is no whitespace unless it is empty.
pub proof fn lemma_trimmed_is_window(s: Seq<char>) -> (w: (int, int))
    ensures
        0 <= w.0 <= w.1 <= s.len(),
        trimmed(s) == s.subrange(w.0, w.1),
        forall|i: int| 0 <= i < w.0 ==> is_whitespace(#[trigger] s[i]),
        forall|i: int| w.1 <= i < s.len() ==> is_whitespace(#[trigger] s[i]),
        w.0 < w.1 ==> !is_whitespace(s[w.0]) && !is_whitespace(s[w.1 - 1]),
        w.0 == w.1 ==> w.0 == s.len(),
{
    let a = lemma_trim_start_is_suffix(s);
    let t = s.subrange(a, s.len() as int);
    let b = lemma_trim_end_is_prefix(t);
    assert(t.subrange(0, b) == s.subrange(a, a + b));
    assert forall|i: int| a + b <= i < s.len() implies is_whitespace(#[trigger] s[i]) by {
        assert(s[i] == t[i - a]);
    }
    if b > 0 {
        assert(t[b - 1] == s[a + b - 1]);
        assert(t[0] == s[a]);
    } else if a < s.len() {
        assert(t[0] == s[a]);
        assert(is_whitespace(t[0]));
    }
    (a, a + b)
}

/// A window of `s` bounded by non-whitespace, with only whitespace outside
/// it, is the trimmed text.
proof fn lemma_window_is_trimmed(s: Seq<char>, start: int, end: int)
    requires
        0 <= start <= end <= s.len(),
        forall|i: int| 0 <= i < start ==> is_whitespace(#[trigger] s[i]),
        forall|i: int| end <= i < s.len() ==> is_whitespace(#[trigger] s[i]),
        start < end ==> !is_whitespace(s[start]) && !is_whitespace(s[end - 1]),
    ensures
        trimmed(s) == s.subrange(start, end),
{
    let w = lemma_trimmed_is_window(s);
    if start < end {
        if w.0 < start {
            assert(is_whitespace(s[w.0]));
        }
        if start < w.0 {
            assert(is_whitespace(s[start]));
        }
        if w.1 > end {
            assert(is_whitespace(s[w.1 - 1]));
        }
        if end > w.1 {
            assert(is_whitespace(s[end - 1]));
        }
    } else {
        if w.0 < w.1 {
            if w.0 < start {
                assert(is_whitespace(s[w.0]));
            } else {
                assert(is_whitespace(s[w.1 - 1]));
            }
        }
        assert(s.subrange(start, end) == s.subrange(w.0, w.1));
    }
}

/// A sanitized name holds none of the reserved characters and no control
/// character, whatever the title was.
pub proof fn lemma_sanitized_is_clean(title: Seq<char>)
    ensures
        is_clean(sanitized(title)),
{
    let m = replace_all(title);
    let w = lemma_trimmed_is_window(m);
    assert forall|i: int| 0 <= i < sanitized(title).len() implies !is_forbidden(
        #[trigger] sanitized(title)[i],
    ) by {
        assert(sanitized(title)[i] == m[w.0 + i]);
    }
}

/// Sanitizing is idempotent: a sanitized name is its own sanitized form.
pub proof fn lemma_sanitize_idempotent(title: Seq<char>)
    ensures
        sanitized(sanitized(title)) == sanitized(title),
{
    let m = replace_all(title);
    let w = lemma_trimmed_is_window(m);
    let once = sanitized(title);
    lemma_sanitized_is_clean(title);
    assert(replace_all(once) == once);
    if once.len() > 0 {
        assert(once[0] == m[w.0]);
        assert(once[once.len() - 1] == m[w.1 - 1]);
    }
    lemma_window_is_trimmed(once, 0, once.len() as int);
    assert(once.subrange(0, once.len() as int) == once);
}

/// A generated file name holds no forbidden character when its extension
/// holds none.
pub proof fn lemma_filename_is_clean(title: Seq<char>, extension: Seq<char>)
    requires
        is_clean(extension),
    ensures
        is_clean(filename_for(title, extension)),
{
    lemma_sanitized_is_clean(title);
    let base = sanitized(title);
    let name = filename_for(title, extension);
    assert forall|i: int| 0 <= i < name.len() implies !is_forbidden(#[trigger] name[i]) by {
        if i < base.len() {
            assert(name[i] == base[i]);
        } else if i == base.len() {
            assert(name[i] == '.');
        } else {
            assert(name[i] == extension[i - base.len() - 1]);
        }
    }
}

fn is_forbidden_char(c: char) -> (r: bool)
    ensures
        r == is_forbidden(c),
{
    c == '/' || c == '\\' || c == ':' || c == '*' || c == '?' || c == '"' || c == '<' || c == '>'
        || c == '|' || c <= '\u{1f}' || ('\u{7f}' <= c && c <= '\u{9f}')
}

fn is_whitespace_char(c: char) -> (r: bool)
    ensures
        r == is_whitespace(c),
{
    ('\u{9}' <= c && c <= '\u{d}') || c == ' ' || c == '\u{85}' || c == '\u{a0}' || c
        == '\u{1680}' || ('\u{2000}' <= c && c <= '\u{200a}') || c == '\u{2028}' || c
        == '\u{2029}' || c == '\u{202f}' || c == '\u{205f}' || c == '\u{3000}'
}

/// Replaces every reserved or control character of `filename` by `_` and
/// trims the whitespace around the result.
pub fn sanitize_filename(filename: &str) -> (r: String)
    ensures
        r@ == sanitized(filename@),
        is_clean(r@),
{
    let mut mapped: Vec<char> = Vec::new();
    for c in it: filename.chars()
        invariant
            it.seq() == filename@,
            mapped@ == replace_all(it.seq().subrange(0, it.index())),
    {
        let stand_in = if is_forbidden_char(c) { '_' } else { c };
        mapped.push(stand_in);
        assert(mapped@ == replace_all(it.seq().subrange(0, it.index() + 1)));
    }
    assert(filename@.subrange(0, filename@.len() as int) == filename@);

    let mut start: usize = 0;
    while start < mapped.len() && is_whitespace_char(mapped[start])
        invariant
            start <= mapped.len(),
            forall|i: int| 0 <= i < start ==> is_whitespace(#[trigger] mapped@[i]),
        decreases mapped.len() - start,
    {
        start += 1;
    }
    let mut end: usize = mapped.len();
    while end > start && is_whitespace_char(mapped[end - 1])
        invariant
            start <= end <= mapped.len(),
            forall|i: int| end <= i < mapped.len() ==> is_whitespace(#[trigger] mapped@[i]),
        decreases end,
    {
        end -= 1;
    }
    proof {
        lemma_window_is_trimmed(mapped@, start as int, end as int);
        lemma_sanitized_is_clean(filename@);
    }
    let mut out = String::new();
    let mut i: usize = start;
    while i < end
        invariant
            start <= i <= end <= mapped.len(),
            out@ == mapped@.subrange(start as int, i as int),
        decreases end - i,
    {
        out.push(mapped[i]);
        assert(mapped@.subrange(start as int, i + 1) == mapped@.subrange(
            start as int,
            i as int,
        ).push(mapped@[i as int]));
        i += 1;
    }
    out
}

/// The file name for a track: its sanitized title, a dot and the extension.
pub fn generate_filename(filename: &str, extension: &str) -> (r: String)
    ensures
        r@ == filename_for(filename@, extension@),
{
    let mut name = sanitize_filename(filename);
    name.push('.');
    name.append(extension);
    name
}

} // verus!
