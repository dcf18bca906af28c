//! Texts as sequences of characters, whitespace, and the words that
//! whitespace delimits.

use vstd::prelude::*;
use vstd::string::StrSliceExecFns;

verus! {

/// The characters of an optional string.
pub open spec fn text_of(s: Option<String>) -> Option<Seq<char>> {
    match s {
        Some(t) => Some(t@),
        None => None,
    }
}

/// The characters of an optional string slice.
pub open spec fn slice_text_of(s: Option<&str>) -> Option<Seq<char>> {
    match s {
        Some(t) => Some(t@),
        None => None,
    }
}

/// The characters of each of a list of strings.
pub open spec fn texts(words: Seq<String>) -> Seq<Seq<char>> {
    words.map_values(|w: String| w@)
}

/// The characters of each of a list of string slices.
pub open spec fn slice_texts(words: Seq<&'static str>) -> Seq<Seq<char>> {
    words.map_values(|w: &'static str| w@)
}

/// The characters that Unicode gives the property `White_Space`.
pub open spec fn is_whitespace(c: char) -> bool {
    let n = c as u32;
    ||| 0x09 <= n <= 0x0d
    ||| n == 0x20
    ||| n == 0x85
    ||| n == 0xa0
    ||| n == 0x1680
    ||| 0x2000 <= n <= 0x200a
    ||| n == 0x2028
    ||| n == 0x2029
    ||| n == 0x202f
    ||| n == 0x205f
    ||| n == 0x3000
}

/// Tells whether `c` is whitespace.
pub fn char_is_whitespace(c: char) -> (b: bool)
    ensures
        b == is_whitespace(c),
{
    let n: u32 = c as u32;
    (0x09 <= n && n <= 0x0d) || n == 0x20 || n == 0x85 || n == 0xa0 || n == 0x1680 || (0x2000
        <= n && n <= 0x200a) || n == 0x2028 || n == 0x2029 || n == 0x202f || n == 0x205f || n
        == 0x3000
}

/// Holds when the characters of `text` from `start` up to `end` are a word:
/// a run without whitespace, not empty, that stops at whitespace or at the
/// end of the text.
pub open spec fn is_word(text: Seq<char>, start: int, end: int) -> bool {
    &&& 0 <= start < end <= text.len()
    &&& forall|i: int| start <= i < end ==> !is_whitespace(#[trigger] text[i])
    &&& (end == text.len() || is_whitespace(text[end]))
}

/// Holds when the characters of `text` from `start` up to `end` are a
/// token: a word that begins the text or follows whitespace.
pub open spec fn is_token(text: Seq<char>, start: int, end: int) -> bool {
    &&& is_word(text, start, end)
    &&& (start == 0 || is_whitespace(text[start - 1]))
}

/// Holds when `text` has only whitespace from `from` up to `to`.
pub open spec fn is_blank(text: Seq<char>, from: int, to: int) -> bool {
    forall|i: int| from <= i < to && 0 <= i < text.len() ==> is_whitespace(#[trigger] text[i])
}

/// Finds the first word of `text` at or after the character position
/// `from`, skipping whitespace. Returns where it starts and where it ends,
/// or `None` when only whitespace is left.
pub fn next_word(text: &str, from: usize) -> (r: Option<(usize, usize)>)
    ensures
        match r {
            Some((start, end)) => {
                &&& from <= start
                &&& is_blank(text@, from as int, start as int)
                &&& is_word(text@, start as int, end as int)
            },
            None => is_blank(text@, from as int, text@.len() as int),
        },
{
    let len = text.unicode_len();
    let mut start = from;
    while start < len && char_is_whitespace(text.get_char(start))
        invariant
            from <= start,
            len == text@.len(),
            is_blank(text@, from as int, start as int),
        decreases len - start,
    {
        start = start + 1;
    }
    if start >= len {
        return None;
    }
    let mut end = start + 1;
    while end < len && !char_is_whitespace(text.get_char(end))
        invariant
            start < end <= len,
            len == text@.len(),
            forall|i: int| start <= i < end ==> !is_whitespace(#[trigger] text@[i]),
        decreases len - end,
    {
        end = end + 1;
    }
    Some((start, end))
}

} // verus!
