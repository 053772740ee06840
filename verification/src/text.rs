//! Texts, and optional ones.
use vstd::prelude::*;

verus! {

/// The value of an optional string.
pub open spec fn optional_text(text: Option<String>) -> Option<Seq<char>> {
    match text {
        Some(text) => Some(text@),
        None => None,
    }
}

/// The value of an optional string slice.
pub open spec fn optional_str(text: Option<&str>) -> Option<Seq<char>> {
    match text {
        Some(text) => Some(text@),
        None => None,
    }
}

/// The characters of a text.
pub fn characters(text: &str) -> (chars: Vec<char>)
    ensures
        chars@ == text@,
{
    let mut chars: Vec<char> = Vec::new();
    for c in all: text.chars()
        invariant
            all.seq() == text@,
            chars@ == text@.take(all.index() as int),
    {
        chars.push(c);
        assert(chars@ =~= text@.take(all.index() + 1));
    }
    assert(text@.take(text@.len() as int) =~= text@);
    chars
}

/// The value of an optional text is that of the text, and there is none where
/// there is no text.
pub proof fn optional_text_is_kept(text: String, part: &str)
    ensures
        optional_text(Some(text)) == Some(text@),
        optional_text(None) is None,
        optional_str(Some(part)) == Some(part@),
        optional_str(None) is None,
{
}

} // verus!
