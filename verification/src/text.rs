//! Blank text: text made of nothing but Unicode white space, which `trim`
//! reduces to the empty string.

use vstd::prelude::*;

verus! {

/// The characters with the Unicode `White_Space` property.
pub open spec fn is_white_space(c: char) -> bool {
    ||| '\u{9}' <= c <= '\u{d}'
    ||| c == ' '
    ||| c == '\u{85}'
    ||| c == '\u{a0}'
    ||| c == '\u{1680}'
    ||| '\u{2000}' <= c <= '\u{200a}'
    ||| c == '\u{2028}'
    ||| c == '\u{2029}'
    ||| c == '\u{202f}'
    ||| c == '\u{205f}'
    ||| c == '\u{3000}'
}

/// Text is blank when every one of its characters is white space; the empty
/// text is blank.
pub open spec fn is_blank_text(text: Seq<char>) -> bool {
    forall|i: int| 0 <= i < text.len() ==> is_white_space(#[trigger] text[i])
}

/// Whether `c` is white space: what `char::is_whitespace` answers, written
/// out as the comparisons that `is_white_space` lists.
pub fn char_is_whitespace(c: char) -> (b: bool)
    ensures
        b == is_white_space(c),
{
    ('\u{9}' <= c && c <= '\u{d}') || c == ' ' || c == '\u{85}' || c == '\u{a0}' || c == '\u{1680}'
        || ('\u{2000}' <= c && c <= '\u{200a}') || c == '\u{2028}' || c == '\u{2029}'
        || c == '\u{202f}' || c == '\u{205f}' || c == '\u{3000}'
}

/// Whether `text` is blank: empty, or white space only.
pub fn is_blank(text: &str) -> (b: bool)
    ensures
        b == is_blank_text(text@),
{
    let ghost chars = text@;
    let mut blank = true;
    for c in it: text.chars()
        invariant
            it.seq() == chars,
            blank == (forall|j: int| 0 <= j < it.index() ==> is_white_space(#[trigger] chars[j])),
    {
        if !char_is_whitespace(c) {
            blank = false;
        }
    }
    blank
}

} // verus!
