//! The spaces in a display name.
use vstd::prelude::*;
use vstd::utf8::{
    encode_utf8, encode_utf8_valid_utf8, is_ascii_chars, is_ascii_chars_encode_utf8,
    is_char_boundary, is_char_boundary_iff_not_is_continuation_byte,
};

use crate::text::characters;

verus! {

/// A space of any width, as in the Unicode category of space separators.
pub open spec fn is_space(c: char) -> bool {
    ||| c == ' '
    ||| c == '\u{a0}'
    ||| c == '\u{1680}'
    ||| '\u{2000}' <= c && c <= '\u{200a}'
    ||| c == '\u{202f}'
    ||| c == '\u{205f}'
    ||| c == '\u{3000}'
}

/// A character that compatibility normalisation turns into a space with marks
/// on it, such as a diaeresis that stands alone.
pub open spec fn is_mark_on_a_space(c: char) -> bool {
    ||| c == '\u{a8}'
    ||| c == '\u{af}'
    ||| c == '\u{b4}'
    ||| c == '\u{b8}'
    ||| '\u{2d8}' <= c && c <= '\u{2dd}'
    ||| c == '\u{37a}'
    ||| '\u{384}' <= c && c <= '\u{385}'
    ||| c == '\u{1fbd}'
    ||| '\u{1fbf}' <= c && c <= '\u{1fc1}'
    ||| '\u{1fcd}' <= c && c <= '\u{1fcf}'
    ||| '\u{1fdd}' <= c && c <= '\u{1fdf}'
    ||| '\u{1fed}' <= c && c <= '\u{1fee}'
    ||| '\u{1ffd}' <= c && c <= '\u{1ffe}'
    ||| c == '\u{2017}'
    ||| c == '\u{203e}'
    ||| '\u{309b}' <= c && c <= '\u{309c}'
    ||| '\u{fc5e}' <= c && c <= '\u{fc63}'
    ||| '\u{fe49}' <= c && c <= '\u{fe4c}'
    ||| '\u{fe70}' <= c && c <= '\u{fe7e}' && c as u32 % 2 == 0
    ||| c == '\u{ffe3}'
}

/// A space that does not stand alone between two other characters, or is not
/// the ASCII one.
pub open spec fn is_stray_space(text: Seq<char>, i: int) -> bool {
    &&& 0 <= i < text.len()
    &&& is_space(text[i])
    &&& i == 0 || i == text.len() - 1 || is_space(text[i - 1]) || text[i] != ' '
}

/// The first of the stray spaces of a text.
pub open spec fn is_first_stray_space(text: Seq<char>, i: int) -> bool {
    &&& is_stray_space(text, i)
    &&& forall|j: int| 0 <= j < i ==> !#[trigger] is_stray_space(text, j)
}

/// A space that becomes two of them when the text is normalised, at a place
/// that is not the same number of characters and of bytes.
pub open spec fn is_doubled_space(text: Seq<char>, i: int) -> bool {
    &&& 0 <= i < text.len() - 1
    &&& is_space(text[i])
    &&& is_mark_on_a_space(text[i + 1])
    &&& exists|k: int| 0 <= k <= i && #[trigger] text[k] > '\u{7f}'
}

/// Whether stray spaces can be taken out of a text before and after it is
/// normalised.
///
/// Where the first one is found, the place is counted in characters, and the
/// text is cut at as many bytes. So a character has to start there. This holds
/// after normalisation too: only a mark on a space can then make a stray space
/// out of one that was none, and that place is the same number of bytes if all
/// that comes before it is ASCII.
pub open spec fn has_mappable_spaces(text: Seq<char>) -> bool {
    &&& forall|i: int|
        #[trigger] is_first_stray_space(text, i) ==> is_char_boundary(encode_utf8(text), i)
    &&& forall|i: int| !#[trigger] is_doubled_space(text, i)
}

/// Whether a character is a space.
fn space(c: char) -> (yes: bool)
    ensures
        yes == is_space(c),
{
    c == ' ' || c == '\u{a0}' || c == '\u{1680}' || ('\u{2000}' <= c && c <= '\u{200a}') || c
        == '\u{202f}' || c == '\u{205f}' || c == '\u{3000}'
}

/// Whether a character is a mark on a space.
fn mark_on_a_space(c: char) -> (yes: bool)
    ensures
        yes == is_mark_on_a_space(c),
{
    c == '\u{a8}' || c == '\u{af}' || c == '\u{b4}' || c == '\u{b8}' || ('\u{2d8}' <= c && c
        <= '\u{2dd}') || c == '\u{37a}' || ('\u{384}' <= c && c <= '\u{385}') || c == '\u{1fbd}' || (
    '\u{1fbf}' <= c && c <= '\u{1fc1}') || ('\u{1fcd}' <= c && c <= '\u{1fcf}') || ('\u{1fdd}' <= c
        && c <= '\u{1fdf}') || ('\u{1fed}' <= c && c <= '\u{1fee}') || ('\u{1ffd}' <= c && c
        <= '\u{1ffe}') || c == '\u{2017}' || c == '\u{203e}' || ('\u{309b}' <= c && c <= '\u{309c}')
        || ('\u{fc5e}' <= c && c <= '\u{fc63}') || ('\u{fe49}' <= c && c <= '\u{fe4c}') || (
    '\u{fe70}' <= c && c <= '\u{fe7e}' && c as u32 % 2 == 0) || c == '\u{ffe3}'
}

/// Where the first stray space is.
fn first_stray_space(text: &Vec<char>) -> (place: Option<usize>)
    ensures
        match place {
            Some(i) => is_first_stray_space(text@, i as int),
            None => forall|i: int| !#[trigger] is_stray_space(text@, i),
        },
{
    let mut i: usize = 0;
    while i < text.len()
        invariant
            i <= text.len(),
            forall|j: int| 0 <= j < i ==> !#[trigger] is_stray_space(text@, j),
        decreases text.len() - i,
    {
        if space(text[i]) && (i == 0 || i == text.len() - 1 || space(text[i - 1]) || text[i]
            != ' ') {
            return Some(i);
        }
        i = i + 1;
    }
    None
}

/// Whether a space becomes two of them when the text is normalised.
fn has_doubled_space(text: &Vec<char>) -> (has: bool)
    ensures
        has == exists|i: int| #[trigger] is_doubled_space(text@, i),
{
    let mut ascii: bool = true;
    let mut i: usize = 0;
    while i < text.len()
        invariant
            i <= text.len(),
            ascii == forall|k: int| 0 <= k < i ==> #[trigger] text@[k] <= '\u{7f}',
            forall|j: int| 0 <= j < i - 1 ==> !#[trigger] is_doubled_space(text@, j),
        decreases text.len() - i,
    {
        if i > 0 && !ascii && mark_on_a_space(text[i]) && space(text[i - 1]) {
            assert(is_doubled_space(text@, i - 1));
            return true;
        }
        ascii = ascii && text[i] <= '\u{7f}';
        i = i + 1;
    }
    false
}

/// Whether stray spaces can be taken out of a text before and after it is
/// normalised.
pub fn spaces_are_mappable(text: &str) -> (mappable: bool)
    ensures
        mappable == has_mappable_spaces(text@),
{
    let chars = characters(text);
    if has_doubled_space(&chars) {
        return false;
    }
    match first_stray_space(&chars) {
        Some(i) => {
            let boundary: bool = text.is_char_boundary(i);
            assert forall|j: int| #[trigger] is_first_stray_space(text@, j) implies j == i by {
                assert(is_stray_space(text@, i as int));
            }
            boundary
        },
        None => true,
    }
}

/// A name whose spaces are ASCII and stand alone between other characters, none
/// of them a mark on a space, is not refused for its spaces.
pub proof fn single_spaces_are_mappable(text: Seq<char>)
    requires
        forall|i: int| !#[trigger] is_stray_space(text, i),
        forall|i: int| 0 <= i < text.len() ==> !is_mark_on_a_space(#[trigger] text[i]),
    ensures
        has_mappable_spaces(text),
{
}

/// A letter that names are written with: ASCII but for the space, Latin letters
/// with accents, Greek, Cyrillic, Armenian, Hebrew, Arabic and Indic letters,
/// Chinese characters, Korean syllables, and all that lies beyond the first
/// sixteen bits.
pub open spec fn is_letter_of_a_name(c: char) -> bool {
    ||| c <= '\u{7f}' && c != ' '
    ||| '\u{c0}' <= c && c <= '\u{24f}'
    ||| '\u{386}' <= c && c <= '\u{ff0}'
    ||| '\u{3400}' <= c && c <= '\u{9fff}'
    ||| '\u{ac00}' <= c && c <= '\u{d7a3}'
    ||| '\u{10000}' <= c
}

/// A name of letters, with single ASCII spaces between them where it has any, is
/// never refused for its spaces, whatever the letters.
pub proof fn names_of_letters_are_mappable(text: Seq<char>)
    requires
        forall|i: int|
            0 <= i < text.len() ==> is_letter_of_a_name(#[trigger] text[i]) || text[i] == ' ',
        text.len() > 0 ==> text[0] != ' ' && text.last() != ' ',
        forall|i: int, j: int|
            0 <= i && j == i + 1 && j < text.len() ==> !(#[trigger] text[i] == ' '
                && #[trigger] text[j] == ' '),
    ensures
        has_mappable_spaces(text),
{
    assert forall|i: int| !#[trigger] is_stray_space(text, i) by {
        if 0 < i < text.len() {
            let before = text[i - 1];
            let here = text[i];
            assert(!(before == ' ' && here == ' '));
        }
    }
    assert forall|i: int| 0 <= i < text.len() implies !is_mark_on_a_space(#[trigger] text[i]) by {}
    single_spaces_are_mappable(text);
}

/// A name of letters that ends with a space is refused when the bytes could not be
/// cut where that space is counted to be.
pub proof fn cut_through_a_character_is_refused(text: Seq<char>)
    requires
        text.len() > 0,
        text.last() == ' ',
        forall|i: int| 0 <= i < text.len() - 1 ==> is_letter_of_a_name(#[trigger] text[i]),
        !is_char_boundary(encode_utf8(text), text.len() - 1),
    ensures
        !has_mappable_spaces(text),
{
    let last = text.len() - 1;
    assert forall|j: int| 0 <= j < last implies !#[trigger] is_stray_space(text, j) by {
        let _ = text[j];
    }
    assert(is_first_stray_space(text, last));
}

/// A name in ASCII is not refused for its spaces.
pub proof fn ascii_spaces_are_mappable(text: Seq<char>)
    requires
        is_ascii_chars(text),
    ensures
        has_mappable_spaces(text),
{
    encode_utf8_valid_utf8(text);
    is_ascii_chars_encode_utf8(text);
    assert forall|i: int| #[trigger] is_first_stray_space(text, i) implies is_char_boundary(
        encode_utf8(text),
        i,
    ) by {
        assert(text[i] as u8 == encode_utf8(text)[i]);
        is_char_boundary_iff_not_is_continuation_byte(encode_utf8(text), i);
    }
}

} // verus!
