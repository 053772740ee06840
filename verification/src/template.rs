//! Templates that make a text out of claims.
use vstd::prelude::*;

use crate::text::characters;
use crate::tokens::{
    code_of_a_field, code_of_a_filter, code_of_a_key, code_of_joined_templates,
    complete_code_ends_a_tag, field_template, filter_template, is_complete, is_name, key_template,
    plain_text_has_no_code, sub_template_has_four_tokens, token_views, tokens, tokens_of, Token, TokenView,
};

verus! {

#[verifier::external_type_specification]
#[verifier::external_body]
pub struct ExTemplateError(minijinja::Error);

#[verifier::external_type_specification]
#[verifier::external_body]
pub struct ExJsonValue(serde_json::Value);

/// A JSON text, and the value that it stands for.
#[derive(Debug)]
pub struct Claims {
    text: String,
    value: serde_json::Value,
}

/// The value that a JSON text stands for, if the text is one.
pub uninterp spec fn json_value(text: Seq<char>) -> Option<serde_json::Value>;

/// Calls `serde_json::from_str` for a `serde_json::Value`: the value depends
/// on the text alone.
#[verifier::external_body]
fn parse_json(text: &str) -> (r: Result<serde_json::Value, serde_json::Error>)
    ensures
        r is Ok <==> json_value(text@) is Some,
        r matches Ok(value) ==> json_value(text@) == Some(value),
{
    serde_json::from_str(text)
}

impl Claims {
    /// The value is what the text says.
    #[verifier::type_invariant]
    closed spec fn is_consistent(self) -> bool {
        json_value(self.text@) == Some(self.value)
    }

    /// The claims in JSON.
    pub closed spec fn json(self) -> Seq<char> {
        self.text@
    }

    /// Reads the claims of an ID token.
    pub fn parse(text: String) -> (r: Result<Claims, serde_json::Error>)
        ensures
            r is Ok <==> json_value(text@) is Some,
            r matches Ok(claims) ==> claims.json() == text@,
    {
        match parse_json(text.as_str()) {
            Ok(value) => Ok(Claims { text, value }),
            Err(e) => Err(e),
        }
    }
}

/// The length up to which templates are rendered, in characters.
pub const MAX_TEMPLATE_LENGTH: usize = 65_000;

/// The amount of code up to which templates are rendered, in tokens.
pub const MAX_TOKENS: usize = 500;

/// The number of additions up to which templates are rendered.
pub const MAX_ADDITIONS: usize = 10;

/// Whether a text holds a word, on its own or as part of another one.
pub open spec fn holds_word(text: Seq<char>, word: Seq<char>) -> bool {
    exists|i: int|
        #![trigger text.subrange(i, i + word.len())]
        0 <= i && i + word.len() <= text.len() && text.subrange(i, i + word.len()) == word
}

/// Whether a token is a word.
pub open spec fn is_word_at(tokens: Seq<TokenView>, i: int) -> bool {
    0 <= i < tokens.len() && tokens[i] is Word
}

/// Whether a token is a string.
pub open spec fn is_text_at(tokens: Seq<TokenView>, i: int) -> bool {
    0 <= i < tokens.len() && tokens[i] is Text
}

/// Whether a token is the given sign.
pub open spec fn sign_at(tokens: Seq<TokenView>, i: int, sign: char) -> bool {
    0 <= i < tokens.len() && tokens[i] == TokenView::Sign(sign)
}

/// A decimal digit.
pub open spec fn is_digit(c: char) -> bool {
    '0' <= c && c <= '9'
}

/// Digits in a row.
pub open spec fn is_number(letters: Seq<char>) -> bool {
    letters.len() > 0 && forall|i: int| 0 <= i < letters.len() ==> is_digit(#[trigger] letters[i])
}

/// Whether a token is a number.
pub open spec fn number_at(tokens: Seq<TokenView>, i: int) -> bool {
    &&& 0 <= i < tokens.len()
    &&& tokens[i] matches TokenView::Word(letters)
    &&& is_number(letters)
}

/// Whether a token is a number up to 9999.
pub open spec fn small_number_at(tokens: Seq<TokenView>, i: int) -> bool {
    &&& 0 <= i < tokens.len()
    &&& tokens[i] matches TokenView::Word(letters)
    &&& is_number(letters)
    &&& letters.len() <= 4
}

/// Whether a token is a number other than zero that fits in 64 bits.
pub open spec fn positive_number_at(tokens: Seq<TokenView>, i: int) -> bool {
    &&& 0 <= i < tokens.len()
    &&& tokens[i] matches TokenView::Word(letters)
    &&& is_number(letters)
    &&& letters.len() <= 18
    &&& exists|k: int| 0 <= k < letters.len() && #[trigger] letters[k] != '0'
}

/// Whether an argument ends before a token.
pub open spec fn argument_ends_at(tokens: Seq<TokenView>, i: int) -> bool {
    sign_at(tokens, i, ',') || sign_at(tokens, i, ')')
}

/// Whether a token is the name of a field. What follows a number and a dot may
/// belong to the number.
pub open spec fn is_field(tokens: Seq<TokenView>, i: int) -> bool {
    sign_at(tokens, i - 1, '.') && !number_at(tokens, i - 2)
}

/// Letters that are an exponent, after a number and a dot.
pub open spec fn is_exponent(letters: Seq<char>) -> bool {
    &&& letters.len() > 0
    &&& letters[0] == 'e' || letters[0] == 'E'
    &&& letters.len() == 1 || is_digit(letters[1])
}

/// Whether a word that starts with a digit, or follows a number and a dot, is
/// not one token but several.
pub open spec fn is_glued(tokens: Seq<TokenView>, i: int, letters: Seq<char>) -> bool {
    ||| letters.len() > 0 && is_digit(letters[0]) && !is_number(letters)
    ||| is_exponent(letters) && sign_at(tokens, i - 1, '.') && number_at(tokens, i - 2)
}

/// How many colons there are from a token on, up to the end of the brackets
/// or the tag that it is in, without those in further brackets.
pub open spec fn colons_from(tokens: Seq<TokenView>, i: int, depth: nat) -> nat
    decreases tokens.len() - i,
{
    if i < 0 || i >= tokens.len() || tokens[i] is End {
        0
    } else if sign_at(tokens, i, '(') || sign_at(tokens, i, '[') || sign_at(tokens, i, '{') {
        colons_from(tokens, i + 1, depth + 1)
    } else if sign_at(tokens, i, ')') || sign_at(tokens, i, ']') || sign_at(tokens, i, '}') {
        if depth == 0 {
            0
        } else {
            colons_from(tokens, i + 1, (depth - 1) as nat)
        }
    } else if sign_at(tokens, i, ':') && depth == 0 {
        1 + colons_from(tokens, i + 1, depth)
    } else {
        colons_from(tokens, i + 1, depth)
    }
}

/// How many of the first tokens are plus signs.
pub open spec fn additions(tokens: Seq<TokenView>) -> nat
    decreases tokens.len(),
{
    if tokens.len() == 0 {
        0
    } else {
        additions(tokens.drop_last()) + if tokens.last() == TokenView::Sign('+') {
            1nat
        } else {
            0nat
        }
    }
}

/// The filters and tests that [`is_safe_call`] looks at.
pub open spec fn is_watched(name: Seq<char>) -> bool {
    ||| name == "batch"@
    ||| name == "chain"@
    ||| name == "divisibleby"@
    ||| name == "format"@
    ||| name == "indent"@
    ||| name == "map"@
    ||| name == "reject"@
    ||| name == "rejectattr"@
    ||| name == "select"@
    ||| name == "selectattr"@
    ||| name == "slice"@
}

/// Whether an argument is the name of a filter or test that is not watched.
pub open spec fn unwatched_name_at(tokens: Seq<TokenView>, i: int) -> bool {
    &&& 0 <= i < tokens.len()
    &&& tokens[i] matches TokenView::Text(name)
    &&& !is_watched(name)
    &&& !name.contains('\\')
    &&& argument_ends_at(tokens, i + 1)
}

/// Whether an argument is given by its name.
pub open spec fn is_keyword_argument(tokens: Seq<TokenView>, i: int) -> bool {
    &&& is_word_at(tokens, i)
    &&& sign_at(tokens, i + 1, '=')
    &&& !sign_at(tokens, i + 2, '=')
}

/// A format without widths, in ASCII.
pub open spec fn is_plain_format(format: Seq<char>) -> bool {
    forall|k: int|
        0 <= k < format.len() ==> (#[trigger] format[k] as u32) < 128 && !is_digit(format[k])
            && format[k] != '\\'
}

/// Whether a filter is applied to a string that is a plain format.
pub open spec fn applies_to_plain_format(tokens: Seq<TokenView>, i: int) -> bool {
    &&& 2 <= i < tokens.len()
    &&& sign_at(tokens, i - 1, '|')
    &&& tokens[i - 2] matches TokenView::Text(format)
    &&& is_plain_format(format)
    &&& !is_text_at(tokens, i - 3)
}

/// Whether a word that is no field's name can stand where it stands.
///
/// `recursive` loops and namespaces can nest deeper than the stack allows.
/// `range` overflows with a step; `batch`, `slice` and `indent` ask for more
/// memory than there can be on large numbers, and so does `format`, which also
/// stumbles over names that are not in ASCII. `divisibleby` divides by zero,
/// and `chain` may yield items that cannot be compared. The filters that apply
/// other filters or tests must not be given the name of one of these, or a name
/// that is computed.
pub open spec fn is_safe_call(tokens: Seq<TokenView>, i: int, word: Seq<char>) -> bool {
    let called = sign_at(tokens, i + 1, '(');
    if word == "recursive"@ || word == "namespace"@ || word == "chain"@ {
        false
    } else if word == "range"@ {
        &&& called
        &&& is_word_at(tokens, i + 2)
        &&& sign_at(tokens, i + 3, ')') || {
            &&& sign_at(tokens, i + 3, ',')
            &&& is_word_at(tokens, i + 4)
            &&& sign_at(tokens, i + 5, ')')
        }
    } else if word == "batch"@ || word == "slice"@ {
        called && small_number_at(tokens, i + 2) && argument_ends_at(tokens, i + 3)
    } else if word == "indent"@ {
        !called || small_number_at(tokens, i + 2) && argument_ends_at(tokens, i + 3)
    } else if word == "format"@ {
        applies_to_plain_format(tokens, i)
    } else if word == "divisibleby"@ {
        called && positive_number_at(tokens, i + 2) && sign_at(tokens, i + 3, ')')
    } else if word == "map"@ || word == "select"@ || word == "reject"@ {
        ||| !called
        ||| sign_at(tokens, i + 2, ')')
        ||| is_keyword_argument(tokens, i + 2)
        ||| unwatched_name_at(tokens, i + 2)
    } else if word == "selectattr"@ || word == "rejectattr"@ {
        ||| !called
        ||| {
            &&& is_text_at(tokens, i + 2)
            &&& sign_at(tokens, i + 3, ')') || sign_at(tokens, i + 3, ',') && unwatched_name_at(
                tokens,
                i + 4,
            )
        }
    } else {
        true
    }
}

/// Whether a token can stand where it stands.
///
/// Lists can be repeated with `*` more often than there can be items, and a
/// slice can have a negative step, `[start:stop:step]`. Calls of `cycle`
/// without arguments divide by zero.
pub open spec fn is_safe_token(tokens: Seq<TokenView>, i: int) -> bool {
    match tokens[i] {
        TokenView::Sign(sign) => {
            &&& sign != '*'
            &&& sign == '[' ==> colons_from(tokens, i + 1, 0) < 2
        },
        TokenView::Word(word) => {
            &&& !is_glued(tokens, i, word)
            &&& is_field(tokens, i) || is_safe_call(tokens, i, word)
            &&& word == "cycle"@ ==> !(sign_at(tokens, i + 1, '(') && sign_at(tokens, i + 2, ')'))
        },
        _ => true,
    }
}

/// Whether code can mark the start of raw text: `raw` is a word in it, and not
/// the name of a field.
pub open spec fn marks_raw_text(tokens: Seq<TokenView>) -> bool {
    exists|i: int|
        0 <= i < tokens.len() && #[trigger] tokens[i] == TokenView::Word("raw"@) && !is_field(
            tokens,
            i,
        )
}

/// Whether a template can be rendered without a panic, whatever the claims.
///
/// This is told by the code in its tags. Each addition can double the length of
/// a list, and the more code there is, the deeper it can nest. Code can hide
/// behind raw text, and a syntax error can be too far to the right to be
/// reported.
pub open spec fn is_safe_template(template: Seq<char>) -> bool {
    let tokens = tokens_of(template);
    &&& template.len() <= MAX_TEMPLATE_LENGTH
    &&& holds_word(template, "endraw"@) ==> !marks_raw_text(tokens)
    &&& tokens.len() <= MAX_TOKENS
    &&& additions(tokens) <= MAX_ADDITIONS
    &&& forall|i: int| 0 <= i < tokens.len() ==> #[trigger] is_safe_token(tokens, i)
}

/// Whether letters are those of a word.
fn same(letters: &Vec<char>, word: &str) -> (same: bool)
    ensures
        same == (letters@ == word@),
{
    let word = characters(word);
    if letters.len() != word.len() {
        return false;
    }
    stands_at(letters, 0, &word)
}

/// Whether a word stands at a place in a text.
fn stands_at(text: &Vec<char>, i: usize, word: &Vec<char>) -> (stands: bool)
    requires
        i + word.len() <= text.len(),
    ensures
        stands == (text@.subrange(i as int, i + word@.len()) == word@),
        i == 0 && word.len() == text.len() ==> stands == (text@ == word@),
{
    let mut k: usize = 0;
    while k < word.len()
        invariant
            k <= word.len(),
            i + word.len() <= text.len(),
            forall|m: int| 0 <= m < k ==> text@[i + m] == word@[m],
        decreases word.len() - k,
    {
        if text[i + k] != word[k] {
            assert(text@.subrange(i as int, i + word@.len())[k as int] != word@[k as int]);
            return false;
        }
        k = k + 1;
    }
    assert(text@.subrange(i as int, i + word@.len()) =~= word@);
    assert(i == 0 && word.len() == text.len() ==> text@ =~= word@);
    true
}

/// Whether a text holds a word.
fn has_word(text: &Vec<char>, word: &str) -> (has: bool)
    ensures
        has == holds_word(text@, word@),
{
    let letters = characters(word);
    let mut i: usize = 0;
    while letters.len() <= text.len() - i
        invariant
            i <= text.len(),
            letters@ == word@,
            forall|m: int|
                #![trigger text@.subrange(m, m + word@.len())]
                0 <= m < i ==> text@.subrange(m, m + word@.len()) != word@,
        decreases text.len() - i,
    {
        if stands_at(text, i, &letters) {
            assert(text@.subrange(i as int, i + word@.len()) == word@);
            return true;
        }
        proof {
            if word@.len() == 0 {
                assert(text@.subrange(i as int, i + word@.len()) =~= word@);
            }
        }
        i = i + 1;
    }
    false
}

/// Whether a token is the given sign.
fn has_sign(tokens: &Vec<Token>, i: usize, sign: char) -> (has: bool)
    ensures
        has == sign_at(token_views(tokens@), i as int, sign),
{
    if i >= tokens.len() {
        return false;
    }
    match &tokens[i] {
        Token::Sign(c) => *c == sign,
        _ => false,
    }
}

/// Whether a token is a word.
fn is_a_word(tokens: &Vec<Token>, i: usize) -> (is: bool)
    ensures
        is == is_word_at(token_views(tokens@), i as int),
{
    if i >= tokens.len() {
        return false;
    }
    match &tokens[i] {
        Token::Word(_) => true,
        _ => false,
    }
}

/// Whether a token is a string.
fn is_a_text(tokens: &Vec<Token>, i: usize) -> (is: bool)
    ensures
        is == is_text_at(token_views(tokens@), i as int),
{
    if i >= tokens.len() {
        return false;
    }
    match &tokens[i] {
        Token::Text(_) => true,
        _ => false,
    }
}

/// Whether a token is the end of a tag.
fn is_an_end(tokens: &Vec<Token>, i: usize) -> (is: bool)
    requires
        i < tokens.len(),
    ensures
        is == token_views(tokens@)[i as int] is End,
{
    match &tokens[i] {
        Token::End => true,
        _ => false,
    }
}

/// Whether a character is a digit.
fn digit(c: char) -> (yes: bool)
    ensures
        yes == is_digit(c),
{
    '0' <= c && c <= '9'
}

/// Whether letters are digits in a row, and whether one is not zero.
fn number(letters: &Vec<char>) -> (r: (bool, bool))
    ensures
        r.0 == is_number(letters@),
        r.1 == exists|k: int| 0 <= k < letters@.len() && #[trigger] letters@[k] != '0',
{
    let mut digits: bool = letters.len() > 0;
    let mut positive: bool = false;
    let mut i: usize = 0;
    while i < letters.len()
        invariant
            i <= letters.len(),
            digits == (letters.len() > 0 && forall|k: int|
                0 <= k < i ==> is_digit(#[trigger] letters@[k])),
            positive == exists|k: int| 0 <= k < i && #[trigger] letters@[k] != '0',
        decreases letters.len() - i,
    {
        digits = digits && digit(letters[i]);
        positive = positive || letters[i] != '0';
        i = i + 1;
    }
    (digits, positive)
}

/// Whether a token is a number.
fn is_a_number(tokens: &Vec<Token>, i: usize) -> (is: bool)
    ensures
        is == number_at(token_views(tokens@), i as int),
{
    if i >= tokens.len() {
        return false;
    }
    match &tokens[i] {
        Token::Word(letters) => number(letters).0,
        _ => false,
    }
}

/// Whether a token is a number up to 9999.
fn is_small_number(tokens: &Vec<Token>, i: usize) -> (is: bool)
    ensures
        is == small_number_at(token_views(tokens@), i as int),
{
    if i >= tokens.len() {
        return false;
    }
    match &tokens[i] {
        Token::Word(letters) => letters.len() <= 4 && number(letters).0,
        _ => false,
    }
}

/// Whether a token is a number other than zero that fits in 64 bits.
fn is_positive_number(tokens: &Vec<Token>, i: usize) -> (is: bool)
    ensures
        is == positive_number_at(token_views(tokens@), i as int),
{
    if i >= tokens.len() {
        return false;
    }
    match &tokens[i] {
        Token::Word(letters) => {
            let (digits, positive) = number(letters);
            letters.len() <= 18 && digits && positive
        },
        _ => false,
    }
}

/// Whether an argument ends before a token.
fn argument_ends(tokens: &Vec<Token>, i: usize) -> (ends: bool)
    ensures
        ends == argument_ends_at(token_views(tokens@), i as int),
{
    has_sign(tokens, i, ',') || has_sign(tokens, i, ')')
}

/// Whether a name is that of a filter or test that [`safe_call`] looks at.
fn watched(name: &Vec<char>) -> (is: bool)
    ensures
        is == is_watched(name@),
{
    same(name, "batch") || same(name, "chain") || same(name, "divisibleby") || same(name, "format")
        || same(name, "indent") || same(name, "map") || same(name, "reject") || same(
        name,
        "rejectattr",
    ) || same(name, "select") || same(name, "selectattr") || same(name, "slice")
}

/// Whether a character is in a text.
fn has_character(text: &Vec<char>, c: char) -> (has: bool)
    ensures
        has == text@.contains(c),
{
    let mut i: usize = 0;
    while i < text.len()
        invariant
            i <= text.len(),
            forall|m: int| 0 <= m < i ==> text@[m] != c,
        decreases text.len() - i,
    {
        if text[i] == c {
            return true;
        }
        i = i + 1;
    }
    false
}

/// Whether an argument is the name of a filter or test that is not watched.
fn is_unwatched_name(tokens: &Vec<Token>, i: usize) -> (is: bool)
    requires
        i < usize::MAX,
    ensures
        is == unwatched_name_at(token_views(tokens@), i as int),
{
    if i >= tokens.len() {
        return false;
    }
    match &tokens[i] {
        Token::Text(name) => !watched(name) && !has_character(name, '\\') && argument_ends(
            tokens,
            i + 1,
        ),
        _ => false,
    }
}

/// Whether a text is a format without widths, in ASCII.
fn plain_format(format: &Vec<char>) -> (plain: bool)
    ensures
        plain == is_plain_format(format@),
{
    let mut i: usize = 0;
    while i < format.len()
        invariant
            i <= format.len(),
            forall|k: int|
                0 <= k < i ==> (#[trigger] format@[k] as u32) < 128 && !is_digit(format@[k])
                    && format@[k] != '\\',
        decreases format.len() - i,
    {
        if format[i] as u32 >= 128 || digit(format[i]) || format[i] == '\\' {
            return false;
        }
        i = i + 1;
    }
    true
}

/// Whether a filter is applied to a string that is a plain format.
fn formats_plainly(tokens: &Vec<Token>, i: usize) -> (plain: bool)
    requires
        i < tokens.len(),
    ensures
        plain == applies_to_plain_format(token_views(tokens@), i as int),
{
    if i < 2 || !has_sign(tokens, i - 1, '|') {
        return false;
    }
    match &tokens[i - 2] {
        Token::Text(format) => plain_format(format) && (i == 2 || !is_a_text(tokens, i - 3)),
        _ => false,
    }
}

/// How many colons there are from a token on, up to the end of the brackets
/// or the tag that it is in.
fn count_colons(tokens: &Vec<Token>, start: usize) -> (count: usize)
    ensures
        count == colons_from(token_views(tokens@), start as int, 0),
{
    let ghost views = token_views(tokens@);
    let mut count: usize = 0;
    let mut depth: usize = 0;
    let mut i: usize = start;
    while i < tokens.len()
        invariant
            start <= i,
            count + depth <= i - start,
            views == token_views(tokens@),
            count + colons_from(views, i as int, depth as nat) == colons_from(
                views,
                start as int,
                0,
            ),
        decreases tokens.len() - i,
    {
        if is_an_end(tokens, i) {
            return count;
        }
        if has_sign(tokens, i, '(') || has_sign(tokens, i, '[') || has_sign(tokens, i, '{') {
            depth = depth + 1;
        } else if has_sign(tokens, i, ')') || has_sign(tokens, i, ']') || has_sign(
            tokens,
            i,
            '}',
        ) {
            if depth == 0 {
                return count;
            }
            depth = depth - 1;
        } else if depth == 0 && has_sign(tokens, i, ':') {
            count = count + 1;
        }
        i = i + 1;
    }
    count
}

/// How many tokens are plus signs.
fn count_additions(tokens: &Vec<Token>) -> (count: usize)
    ensures
        count == additions(token_views(tokens@)),
{
    let ghost views = token_views(tokens@);
    let mut count: usize = 0;
    let mut i: usize = 0;
    assert(views.take(0) =~= seq![]);
    while i < tokens.len()
        invariant
            i <= tokens.len(),
            count <= i,
            views == token_views(tokens@),
            count == additions(views.take(i as int)),
        decreases tokens.len() - i,
    {
        assert(views.take(i + 1).drop_last() =~= views.take(i as int));
        if has_sign(tokens, i, '+') {
            count = count + 1;
        }
        i = i + 1;
    }
    assert(views.take(i as int) =~= views);
    count
}

/// Whether a word that is no field's name can stand where it stands.
fn safe_call(tokens: &Vec<Token>, i: usize, word: &Vec<char>) -> (safe: bool)
    requires
        i < tokens.len() <= MAX_TOKENS,
    ensures
        safe == is_safe_call(token_views(tokens@), i as int, word@),
{
    let called = has_sign(tokens, i + 1, '(');
    if same(word, "recursive") || same(word, "namespace") || same(word, "chain") {
        false
    } else if same(word, "range") {
        called && is_a_word(tokens, i + 2) && (has_sign(tokens, i + 3, ')') || (has_sign(
            tokens,
            i + 3,
            ',',
        ) && is_a_word(tokens, i + 4) && has_sign(tokens, i + 5, ')')))
    } else if same(word, "batch") || same(word, "slice") {
        called && is_small_number(tokens, i + 2) && argument_ends(tokens, i + 3)
    } else if same(word, "indent") {
        !called || (is_small_number(tokens, i + 2) && argument_ends(tokens, i + 3))
    } else if same(word, "format") {
        formats_plainly(tokens, i)
    } else if same(word, "divisibleby") {
        called && is_positive_number(tokens, i + 2) && has_sign(tokens, i + 3, ')')
    } else if same(word, "map") || same(word, "select") || same(word, "reject") {
        !called || has_sign(tokens, i + 2, ')') || (is_a_word(tokens, i + 2) && has_sign(
            tokens,
            i + 3,
            '=',
        ) && !has_sign(tokens, i + 4, '=')) || is_unwatched_name(tokens, i + 2)
    } else if same(word, "selectattr") || same(word, "rejectattr") {
        !called || (is_a_text(tokens, i + 2) && (has_sign(tokens, i + 3, ')') || (has_sign(
            tokens,
            i + 3,
            ',',
        ) && is_unwatched_name(tokens, i + 4))))
    } else {
        true
    }
}

/// Whether a token can stand where it stands.
fn safe_token(tokens: &Vec<Token>, i: usize) -> (safe: bool)
    requires
        i < tokens.len() <= MAX_TOKENS,
    ensures
        safe == is_safe_token(token_views(tokens@), i as int),
{
    match &tokens[i] {
        Token::Sign(sign) => *sign != '*' && (*sign != '[' || count_colons(tokens, i + 1) < 2),
        Token::Word(word) => {
            let dot = i >= 1 && has_sign(tokens, i - 1, '.');
            let after_number = i >= 2 && is_a_number(tokens, i - 2);
            let exponent = word.len() > 0 && (word[0] == 'e' || word[0] == 'E') && (word.len() == 1
                || digit(word[1]));
            let split = word.len() > 0 && digit(word[0]) && !number(word).0;
            !split && !(exponent && dot && after_number) && ((dot && !after_number) || safe_call(
                tokens,
                i,
                word,
            )) && !(same(word, "cycle") && has_sign(tokens, i + 1, '(') && has_sign(
                tokens,
                i + 2,
                ')',
            ))
        },
        _ => true,
    }
}

/// Whether code can mark the start of raw text.
fn has_raw_mark(tokens: &Vec<Token>) -> (has: bool)
    ensures
        has == marks_raw_text(token_views(tokens@)),
{
    let ghost views = token_views(tokens@);
    let mut i: usize = 0;
    while i < tokens.len()
        invariant
            i <= tokens.len(),
            views == token_views(tokens@),
            forall|k: int|
                0 <= k < i ==> #[trigger] views[k] != TokenView::Word("raw"@) || is_field(views, k),
        decreases tokens.len() - i,
    {
        let field = i >= 1 && has_sign(tokens, i - 1, '.') && !(i >= 2 && is_a_number(
            tokens,
            i - 2,
        ));
        assert(field == is_field(views, i as int));
        match &tokens[i] {
            Token::Word(letters) => {
                if !field && same(letters, "raw") {
                    assert(views[i as int] == TokenView::Word("raw"@));
                    return true;
                }
            },
            _ => {},
        }
        i = i + 1;
    }
    false
}

/// Whether a template can be rendered without a panic, whatever the claims.
pub fn is_safe(template: &str) -> (safe: bool)
    ensures
        safe == is_safe_template(template@),
{
    if template.unicode_len() > MAX_TEMPLATE_LENGTH {
        return false;
    }
    let tokens = tokens(template);
    if has_word(&characters(template), "endraw") && has_raw_mark(&tokens) {
        return false;
    }
    if tokens.len() > MAX_TOKENS || count_additions(&tokens) > MAX_ADDITIONS {
        return false;
    }
    let mut i: usize = 0;
    while i < tokens.len()
        invariant
            i <= tokens.len() <= MAX_TOKENS,
            token_views(tokens@) == tokens_of(template@),
            forall|k: int|
                0 <= k < i ==> #[trigger] is_safe_token(token_views(tokens@), k),
        decreases tokens.len() - i,
    {
        if !safe_token(&tokens, i) {
            assert(!is_safe_token(tokens_of(template@), i as int));
            return false;
        }
        i = i + 1;
    }
    true
}

/// The text that a template makes out of a JSON value that it knows by a
/// name, or why it makes none.
pub uninterp spec fn rendered(
    template: Seq<char>,
    variable: Seq<char>,
    json: Seq<char>,
) -> Result<Seq<char>, minijinja::Error>;

/// Calls `minijinja::Environment::render_str`, in a fresh environment with one
/// more global variable. The result depends on the template, the name and the
/// value of the variable alone.
///
/// The crate is built without macros and without blocks, which are syntax
/// errors then, and so that a sort that finds no order is an error. Some other
/// templates can make it panic; [`is_safe_template`] leaves them out. How long rendering takes, and whether the text and what is made on the
/// way to it fit in the memory, is left open.
#[verifier::external_body]
fn render(template: &str, variable: &str, claims: &Claims) -> (r: Result<
    String,
    minijinja::Error,
>)
    requires
        is_safe_template(template@),
    ensures
        rendered(template@, variable@, claims.json()) == match r {
            Ok(text) => Ok(text@),
            Err(error) => Err(error),
        },
{
    let mut environment = minijinja::Environment::new();
    environment.add_global(variable, minijinja::Value::from_serialize(&claims.value));
    environment.render_str(template, ())
}

/// The error that says what cannot be done.
pub uninterp spec fn template_error(detail: Seq<char>) -> minijinja::Error;

/// Calls `minijinja::Error::new` for an invalid operation. The error depends on
/// the detail alone.
#[verifier::external_body]
fn new_error(detail: &str) -> (error: minijinja::Error)
    ensures
        error == template_error(detail@),
{
    minijinja::Error::new(minijinja::ErrorKind::InvalidOperation, detail.to_owned())
}

/// The text that a template makes out of a JSON value that it knows by a name,
/// or why it makes none. A template that is not safe makes none.
pub open spec fn outcome(
    template: Seq<char>,
    variable: Seq<char>,
    json: Seq<char>,
) -> Result<Seq<char>, minijinja::Error> {
    if is_safe_template(template) {
        rendered(template, variable, json)
    } else {
        Err(template_error("template cannot be rendered safely"@))
    }
}

/// Makes a text out of claims that the template knows by a name.
pub fn extract(template: &str, variable: &str, claims: &Claims) -> (r: Result<
    String,
    minijinja::Error,
>)
    ensures
        outcome(template@, variable@, claims.json()) == match r {
            Ok(text) => Ok(text@),
            Err(error) => Err(error),
        },
{
    if is_safe(template) {
        render(template, variable, claims)
    } else {
        Err(new_error("template cannot be rendered safely"))
    }
}

/// Whether a word is one that is looked at more closely wherever it is not the
/// name of a field.
pub open spec fn is_notable(word: Seq<char>) -> bool {
    ||| word == "recursive"@
    ||| word == "namespace"@
    ||| word == "chain"@
    ||| word == "range"@
    ||| word == "batch"@
    ||| word == "slice"@
    ||| word == "indent"@
    ||| word == "format"@
    ||| word == "divisibleby"@
    ||| word == "map"@
    ||| word == "select"@
    ||| word == "reject"@
    ||| word == "selectattr"@
    ||| word == "rejectattr"@
    ||| word == "cycle"@
    ||| word == "raw"@
}

/// Code without a plus sign has no additions.
proof fn code_without_additions(tokens: Seq<TokenView>)
    requires
        forall|i: int| 0 <= i < tokens.len() ==> #[trigger] tokens[i] != TokenView::Sign('+'),
    ensures
        additions(tokens) == 0,
    decreases tokens.len(),
{
    if tokens.len() > 0 {
        code_without_additions(tokens.drop_last());
    }
}

/// The additions of two pieces of code are those of both.
proof fn additions_of_joined(first: Seq<TokenView>, second: Seq<TokenView>)
    ensures
        additions(first + second) == additions(first) + additions(second),
    decreases second.len(),
{
    if second.len() == 0 {
        assert(first + second =~= first);
    } else {
        assert((first + second).drop_last() =~= first + second.drop_last());
        additions_of_joined(first, second.drop_last());
    }
}

/// A template of ordinary code is rendered: code of a limited amount in which
/// nothing is added, multiplied or put in brackets, with words that start with a
/// letter or an underscore and, but for the names of fields, are not notable.
pub proof fn ordinary_code_is_safe(template: Seq<char>)
    requires
        template.len() <= 65_000,
        tokens_of(template).len() <= 500,
        forall|i: int|
            0 <= i < tokens_of(template).len() ==> {
                &&& #[trigger] tokens_of(template)[i] != TokenView::Sign('+')
                &&& tokens_of(template)[i] != TokenView::Sign('*')
                &&& tokens_of(template)[i] != TokenView::Sign('[')
                &&& tokens_of(template)[i] matches TokenView::Word(word) ==> {
                    &&& word.len() > 0
                    &&& !('0' <= word[0] && word[0] <= '9')
                    &&& !is_notable(word)
                }
            },
    ensures
        is_safe_template(template),
{
    let tokens = tokens_of(template);
    code_without_additions(tokens);
    assert forall|i: int| 0 <= i < tokens.len() implies #[trigger] is_safe_token(tokens, i) by {
        assert(!number_at(tokens, i - 2)) by {
            if 0 <= i - 2 {
                let _ = tokens[i - 2];
            }
        }
    }
}

/// A template that shows one field, whatever its name, is rendered.
pub proof fn field_is_rendered(name: Seq<char>, json: Seq<char>)
    requires
        is_name(name),
        name.len() <= 64_000,
    ensures
        is_safe_template(field_template(name)),
        outcome(field_template(name), "user"@, json) == rendered(
            field_template(name),
            "user"@,
            json,
        ),
{
    code_of_a_field(name);
    let tokens = tokens_of(field_template(name));
    user_is_ordinary();
    template_lengths();
    code_without_additions(tokens);
    assert(!number_at(tokens, 0));
    assert(is_field(tokens, 2));
    assert(is_safe_token(tokens, 0));
    assert(is_safe_token(tokens, 2));
}

/// The template that shows the `sub` claim is safe.
pub(crate) proof fn sub_template_is_safe()
    ensures
        is_safe_template("{{ user.sub }}"@),
{
    reveal_strlit("sub");
    sub_template_has_four_tokens();
    field_is_rendered("sub"@, Seq::empty());
}

/// A template that applies a filter to one field is rendered, unless the filter
/// is a notable one.
pub proof fn filter_is_applied(name: Seq<char>, filter: Seq<char>, json: Seq<char>)
    requires
        is_name(name),
        is_name(filter),
        !is_notable(filter),
        name.len() + filter.len() <= 64_000,
    ensures
        is_safe_template(filter_template(name, filter)),
        outcome(filter_template(name, filter), "user"@, json) == rendered(
            filter_template(name, filter),
            "user"@,
            json,
        ),
{
    code_of_a_filter(name, filter);
    let tokens = tokens_of(filter_template(name, filter));
    user_is_ordinary();
    template_lengths();
    code_without_additions(tokens);
    assert(!number_at(tokens, 0));
    assert(is_field(tokens, 2));
    assert(is_safe_token(tokens, 0));
    assert(is_safe_token(tokens, 2));
    assert(is_safe_token(tokens, 4));
}

/// A template that shows what is stored under a key, whatever the key, is
/// rendered.
pub proof fn key_is_rendered(key: Seq<char>, json: Seq<char>)
    requires
        forall|i: int| 0 <= i < key.len() ==> #[trigger] key[i] != '\'' && key[i] != '\\',
        key.len() <= 64_000,
    ensures
        is_safe_template(key_template(key)),
        outcome(key_template(key), "user"@, json) == rendered(key_template(key), "user"@, json),
{
    code_of_a_key(key);
    let tokens = tokens_of(key_template(key));
    user_is_ordinary();
    template_lengths();
    code_without_additions(tokens);
    reveal_with_fuel(colons_from, 3);
    assert(is_safe_token(tokens, 0));
    assert(is_safe_token(tokens, 1));
}

/// A text without braces is rendered, whatever else stands in it.
pub proof fn plain_text_is_rendered(text: Seq<char>, variable: Seq<char>, json: Seq<char>)
    requires
        forall|i: int| 0 <= i < text.len() ==> #[trigger] text[i] != '{',
        text.len() <= 65_000,
    ensures
        is_safe_template(text),
        outcome(text, variable, json) == rendered(text, variable, json),
{
    plain_text_has_no_code(text);
}

/// The variable's name is no notable word.
proof fn user_is_ordinary()
    ensures
        !is_notable("user"@),
        "user"@.len() == 4,
        "user"@[0] == 'u',
{
    reveal_strlit("user");
    reveal_strlit("recursive");
    reveal_strlit("namespace");
    reveal_strlit("chain");
    reveal_strlit("range");
    reveal_strlit("batch");
    reveal_strlit("slice");
    reveal_strlit("indent");
    reveal_strlit("format");
    reveal_strlit("divisibleby");
    reveal_strlit("map");
    reveal_strlit("select");
    reveal_strlit("reject");
    reveal_strlit("selectattr");
    reveal_strlit("rejectattr");
    reveal_strlit("cycle");
    reveal_strlit("raw");
    assert("recursive"@.len() == 9);
    assert("namespace"@.len() == 9);
    assert("chain"@.len() == 5);
    assert("range"@.len() == 5);
    assert("batch"@.len() == 5);
    assert("slice"@.len() == 5);
    assert("indent"@.len() == 6);
    assert("format"@.len() == 6);
    assert("divisibleby"@.len() == 11);
    assert("map"@.len() == 3);
    assert("select"@.len() == 6);
    assert("reject"@.len() == 6);
    assert("selectattr"@.len() == 10);
    assert("rejectattr"@.len() == 10);
    assert("cycle"@.len() == 5);
    assert("raw"@.len() == 3);
}

/// The lengths of what stands round a name in a template.
proof fn template_lengths()
    ensures
        "{{ user"@.len() == 7,
        "."@.len() == 1,
        " | "@.len() == 3,
        "['"@.len() == 2,
        "']"@.len() == 2,
        " }}"@.len() == 3,
{
    reveal_strlit("{{ user");
    reveal_strlit(".");
    reveal_strlit(" | ");
    reveal_strlit("['");
    reveal_strlit("']");
    reveal_strlit(" }}");
}

/// Colons are counted within a tag.
proof fn colons_of_joined(first: Seq<TokenView>, second: Seq<TokenView>, i: int, depth: nat)
    requires
        0 <= i <= first.len(),
        first.len() > 0 ==> first.last() is End,
        i < first.len() || first.len() == 0,
    ensures
        first.len() > 0 ==> colons_from(first + second, i, depth) == colons_from(first, i, depth),
    decreases first.len() - i,
{
    let both = first + second;
    if i < first.len() {
        assert(both[i] == first[i]);
        if i + 1 < first.len() {
            colons_of_joined(first, second, i + 1, depth + 1);
            colons_of_joined(first, second, i + 1, depth);
            if depth > 0 {
                colons_of_joined(first, second, i + 1, (depth - 1) as nat);
            }
        }
    }
}

/// What comes before does not matter to the colons of a tag.
proof fn colons_behind(first: Seq<TokenView>, second: Seq<TokenView>, i: int, depth: nat)
    requires
        0 <= i <= second.len(),
    ensures
        colons_from(first + second, first.len() + i, depth) == colons_from(second, i, depth),
    decreases second.len() - i,
{
    let both = first + second;
    if i < second.len() {
        assert(both[first.len() + i] == second[i]);
        colons_behind(first, second, i + 1, depth + 1);
        colons_behind(first, second, i + 1, depth);
        if depth > 0 {
            colons_behind(first, second, i + 1, (depth - 1) as nat);
        }
    }
}

/// A token is as safe as it was when more tags follow.
proof fn token_before_others(first: Seq<TokenView>, second: Seq<TokenView>, i: int)
    requires
        0 <= i < first.len(),
        first.last() is End,
        is_safe_token(first, i),
    ensures
        is_safe_token(first + second, i),
{
    let both = first + second;
    let n = first.len() as int;
    assert forall|k: int| 0 <= k < n implies #[trigger] both[k] == first[k] by {}
    assert(both[n - 1] is End);
    if i + 1 < n {
        colons_of_joined(first, second, i + 1, 0);
    }
    assert(is_field(both, i) == is_field(first, i));
    assert(number_at(both, i - 2) == number_at(first, i - 2));
    assert(forall|k: int, c: char| k < n ==> #[trigger] sign_at(both, k, c) == sign_at(first, k, c));
    assert(forall|k: int|
        k < n ==> #[trigger] small_number_at(both, k) == small_number_at(first, k));
    assert(forall|k: int|
        k < n ==> #[trigger] positive_number_at(both, k) == positive_number_at(first, k));
    assert(forall|k: int| k < n ==> #[trigger] is_word_at(both, k) == is_word_at(first, k));
    assert(forall|k: int| k < n ==> #[trigger] is_text_at(both, k) == is_text_at(first, k));
    assert(forall|c: char| !#[trigger] sign_at(first, n - 1, c));
    assert(applies_to_plain_format(both, i) == applies_to_plain_format(first, i));
    if let TokenView::Word(word) = first[i] {
        assert(is_glued(both, i, word) == is_glued(first, i, word));
        if !is_field(first, i) {
            assert(is_safe_call(first, i, word));
            assert(is_safe_call(both, i, word));
        }
    }
}

/// A token is as safe as it was when other tags come before.
proof fn token_behind_others(first: Seq<TokenView>, second: Seq<TokenView>, i: int)
    requires
        0 <= i < second.len(),
        first.len() > 0 ==> first.last() is End,
        is_safe_token(second, i),
    ensures
        is_safe_token(first + second, first.len() + i),
{
    let both = first + second;
    let n = first.len() as int;
    assert forall|k: int| 0 <= k < second.len() implies #[trigger] both[n + k] == second[k] by {}
    colons_behind(first, second, i + 1, 0);
    assert(forall|k: int, c: char| -1 <= k ==> #[trigger] sign_at(second, k, c) == sign_at(both, n + k, c));
    assert(forall|k: int| 0 <= k ==> #[trigger] small_number_at(second, k) == small_number_at(both, n + k));
    assert(forall|k: int| 0 <= k ==> #[trigger] positive_number_at(second, k) == positive_number_at(both, n + k));
    assert(forall|k: int| -1 <= k ==> #[trigger] number_at(second, k) == number_at(both, n + k));
    assert(forall|k: int| 0 <= k ==> #[trigger] is_word_at(second, k) == is_word_at(both, n + k));
    assert(forall|k: int| -1 <= k ==> #[trigger] is_text_at(second, k) == is_text_at(both, n + k));
    assert(is_field(both, n + i) == is_field(second, i));
    assert(applies_to_plain_format(both, n + i) == applies_to_plain_format(second, i));
    if let TokenView::Word(word) = second[i] {
        assert(is_glued(both, n + i, word) == is_glued(second, i, word));
        if !is_field(second, i) {
            assert(is_safe_call(second, i, word));
            assert(is_safe_call(both, n + i, word));
        }
    }
}

/// Templates that are rendered one by one are rendered as one, within the limits
/// on the whole, as long as no raw text is among them.
pub proof fn joined_templates_are_safe(first: Seq<char>, second: Seq<char>)
    requires
        is_complete(first),
        is_safe_template(first),
        is_safe_template(second),
        first.len() + second.len() <= 65_000,
        tokens_of(first).len() + tokens_of(second).len() <= 500,
        additions(tokens_of(first)) + additions(tokens_of(second)) <= 10,
        !holds_word(first + second, "endraw"@),
    ensures
        is_safe_template(first + second),
{
    let (a, b) = (tokens_of(first), tokens_of(second));
    code_of_joined_templates(first, second);
    complete_code_ends_a_tag(first);
    additions_of_joined(a, b);
    assert forall|i: int| 0 <= i < (a + b).len() implies #[trigger] is_safe_token(a + b, i) by {
        if i < a.len() {
            assert(is_safe_token(a, i));
            token_before_others(a, b, i);
        } else {
            assert(is_safe_token(b, i - a.len()));
            token_behind_others(a, b, i - a.len());
        }
    }
}

/// Code that can panic whatever stands around it is never rendered.
pub proof fn risky_code_is_refused(template: Seq<char>, i: int)
    requires
        0 <= i < tokens_of(template).len(),
        ({
            let token = tokens_of(template)[i];
            ||| token == TokenView::Sign('*')
            ||| i == 0 && (token == TokenView::Word("recursive"@) || token == TokenView::Word(
                "namespace"@,
            ) || token == TokenView::Word("chain"@))
            ||| i > 0 && tokens_of(template)[i - 1] != TokenView::Sign('.') && (token
                == TokenView::Word("recursive"@) || token == TokenView::Word("namespace"@) || token
                == TokenView::Word("chain"@))
        }),
    ensures
        !is_safe_template(template),
{
    assert(!is_safe_token(tokens_of(template), i));
}

/// A filter that takes a number can be given one of up to four digits, and other
/// arguments after it.
pub proof fn small_numbers_can_be_given(
    tokens: Seq<TokenView>,
    i: int,
    word: Seq<char>,
    number: Seq<char>,
)
    requires
        word == "batch"@ || word == "slice"@ || word == "indent"@,
        0 <= i && i + 3 < tokens.len(),
        tokens[i] == TokenView::Word(word),
        tokens[i + 1] == TokenView::Sign('('),
        tokens[i + 2] == TokenView::Word(number),
        tokens[i + 3] == TokenView::Sign(')') || tokens[i + 3] == TokenView::Sign(','),
        forall|k: int| 0 <= k < number.len() ==> '0' <= #[trigger] number[k] && number[k] <= '9',
    ensures
        0 < number.len() <= 4 ==> is_safe_token(tokens, i),
        number.len() > 4 && (i == 0 || tokens[i - 1] != TokenView::Sign('.')) ==> !is_safe_token(
            tokens,
            i,
        ),
{
    notable_words_differ();
    assert(number.len() > 0 ==> is_number(number));
    assert(!is_digit(word[0]));
}

/// A range of one or two numbers or variables can be walked; one with a step
/// cannot.
pub proof fn ranges_have_no_step(tokens: Seq<TokenView>, i: int)
    requires
        0 <= i && i + 4 < tokens.len(),
        tokens[i] == TokenView::Word("range"@),
        tokens[i + 1] == TokenView::Sign('('),
        tokens[i + 2] is Word,
    ensures
        tokens[i + 3] == TokenView::Sign(')') ==> is_safe_token(tokens, i),
        i + 5 < tokens.len() && tokens[i + 3] == TokenView::Sign(',') && tokens[i + 4] is Word
            && tokens[i + 5] == TokenView::Sign(')') ==> is_safe_token(tokens, i),
        i + 5 < tokens.len() && tokens[i + 3] == TokenView::Sign(',') && tokens[i + 4] is Word
            && tokens[i + 5] == TokenView::Sign(',') && (i == 0 || tokens[i - 1]
            != TokenView::Sign('.')) ==> !is_safe_token(tokens, i),
{
    notable_words_differ();
}

/// A filter or a test can be applied to each item when it is named and not a
/// notable one, and an attribute can be taken from each; a name that is computed
/// cannot be told.
pub proof fn items_can_be_mapped(tokens: Seq<TokenView>, i: int, word: Seq<char>, name: Seq<char>)
    requires
        word == "map"@ || word == "select"@ || word == "reject"@,
        0 <= i && i + 4 < tokens.len(),
        tokens[i] == TokenView::Word(word),
        tokens[i + 1] == TokenView::Sign('('),
    ensures
        tokens[i + 2] == TokenView::Text(name) && (tokens[i + 3] == TokenView::Sign(')')
            || tokens[i + 3] == TokenView::Sign(',')) && !is_notable(name) && !name.contains('\\')
            ==> is_safe_token(tokens, i),
        tokens[i + 2] is Word && tokens[i + 3] == TokenView::Sign('=') && tokens[i + 4]
            != TokenView::Sign('=') ==> is_safe_token(tokens, i),
        tokens[i + 2] is Word && tokens[i + 3] != TokenView::Sign('=') && (i == 0 || tokens[i - 1]
            != TokenView::Sign('.')) ==> !is_safe_token(tokens, i),
{
    notable_words_differ();
}

/// A number can be divided by any other than zero.
pub proof fn division_by_zero_is_refused(tokens: Seq<TokenView>, i: int, number: Seq<char>)
    requires
        0 <= i && i + 3 < tokens.len(),
        tokens[i] == TokenView::Word("divisibleby"@),
        tokens[i + 1] == TokenView::Sign('('),
        tokens[i + 2] == TokenView::Word(number),
        tokens[i + 3] == TokenView::Sign(')'),
        i == 0 || tokens[i - 1] != TokenView::Sign('.'),
        0 < number.len() <= 18,
        forall|k: int| 0 <= k < number.len() ==> '0' <= #[trigger] number[k] && number[k] <= '9',
    ensures
        is_safe_token(tokens, i) <==> exists|k: int|
            0 <= k < number.len() && #[trigger] number[k] != '0',
{
    notable_words_differ();
    assert(is_number(number));
}

/// A slice without a step can be taken; one with a step cannot.
pub proof fn slices_have_no_step(tokens: Seq<TokenView>, i: int)
    requires
        0 <= i && i + 4 < tokens.len(),
        tokens[i] == TokenView::Sign('['),
        tokens[i + 1] is Word,
        tokens[i + 2] == TokenView::Sign(':'),
        tokens[i + 3] is Word,
    ensures
        tokens[i + 4] == TokenView::Sign(']') ==> is_safe_token(tokens, i),
        tokens[i + 4] == TokenView::Sign(':') ==> !is_safe_token(tokens, i),
{
    reveal_with_fuel(colons_from, 6);
}

/// No two of the words that are looked at are the same, and all start with a small
/// letter.
proof fn notable_words_differ()
    ensures
        "batch"@.len() == 5 && "batch"@[0] == 'b',
        "slice"@.len() == 5 && "slice"@[0] == 's',
        "indent"@.len() == 6 && "indent"@[0] == 'i',
        "range"@.len() == 5 && "range"@[0] == 'r',
        "divisibleby"@.len() == 11 && "divisibleby"@[0] == 'd',
        "map"@.len() == 3 && "map"@[0] == 'm',
        "select"@.len() == 6 && "select"@[0] == 's',
        "reject"@.len() == 6 && "reject"@[0] == 'r',
        "recursive"@.len() == 9 && "recursive"@[0] == 'r',
        "namespace"@.len() == 9 && "namespace"@[0] == 'n',
        "chain"@.len() == 5 && "chain"@[0] == 'c',
        "format"@.len() == 6 && "format"@[0] == 'f',
        "cycle"@.len() == 5 && "cycle"@[0] == 'c',
        "selectattr"@.len() == 10 && "selectattr"@[0] == 's',
        "rejectattr"@.len() == 10 && "rejectattr"@[0] == 'r',
{
    reveal_strlit("batch");
    reveal_strlit("slice");
    reveal_strlit("indent");
    reveal_strlit("range");
    reveal_strlit("divisibleby");
    reveal_strlit("map");
    reveal_strlit("select");
    reveal_strlit("reject");
    reveal_strlit("recursive");
    reveal_strlit("namespace");
    reveal_strlit("chain");
    reveal_strlit("format");
    reveal_strlit("cycle");
    reveal_strlit("selectattr");
    reveal_strlit("rejectattr");
}

/// A template within the limits and without raw text is rendered exactly when each
/// piece of its code can stand where it stands.
pub proof fn code_is_judged_piece_by_piece(template: Seq<char>)
    requires
        template.len() <= 65_000,
        tokens_of(template).len() <= 500,
        additions(tokens_of(template)) <= 10,
        !holds_word(template, "endraw"@),
    ensures
        is_safe_template(template) <==> forall|i: int|
            0 <= i < tokens_of(template).len() ==> #[trigger] is_safe_token(tokens_of(template), i),
{
}

/// Strings, ends of tags, and signs other than an opening bracket and a star can
/// stand anywhere, whatever they hold; so can numbers, and words that start with a
/// letter or an underscore and are not notable.
pub proof fn ordinary_pieces_can_stand_anywhere(tokens: Seq<TokenView>, i: int)
    requires
        0 <= i < tokens.len(),
    ensures
        tokens[i] is Text || tokens[i] is End ==> is_safe_token(tokens, i),
        tokens[i] matches TokenView::Sign(sign) ==> (sign != '*' && sign != '[' ==> is_safe_token(
            tokens,
            i,
        )),
        tokens[i] matches TokenView::Word(word) ==> (is_number(word) ==> is_safe_token(tokens, i)),
        tokens[i] matches TokenView::Word(word) ==> (word.len() > 0 && !is_digit(word[0])
            && !is_notable(word) && (i < 2 || !number_at(tokens, i - 2)) ==> is_safe_token(
            tokens,
            i,
        )),
{
    notable_words_differ();
    if let TokenView::Word(word) = tokens[i] {
        if is_number(word) {
            assert(is_digit(word[0]));
        }
    }
}

/// The name of a field can be any, even a notable word, as long as what it is a
/// field of is no number; only `cycle` is not called without arguments.
pub proof fn fields_can_have_any_name(tokens: Seq<TokenView>, i: int, word: Seq<char>)
    requires
        2 <= i < tokens.len(),
        tokens[i] == TokenView::Word(word),
        tokens[i - 1] == TokenView::Sign('.'),
        !number_at(tokens, i - 2),
        word.len() > 0,
        !is_digit(word[0]),
    ensures
        i + 1 == tokens.len() || tokens[i + 1] != TokenView::Sign('(') ==> is_safe_token(tokens, i),
        word != "cycle"@ ==> is_safe_token(tokens, i),
        word == "cycle"@ && i + 2 < tokens.len() && tokens[i + 1] == TokenView::Sign('(')
            && tokens[i + 2] == TokenView::Sign(')') ==> !is_safe_token(tokens, i),
{
}

/// A string in ASCII without digits and backslashes can be used as a format; a
/// format that is not such a string cannot.
pub proof fn plain_strings_can_be_formats(tokens: Seq<TokenView>, i: int, format: Seq<char>)
    requires
        3 <= i < tokens.len(),
        tokens[i] == TokenView::Word("format"@),
        tokens[i - 1] == TokenView::Sign('|'),
        !(tokens[i - 3] is Text),
    ensures
        tokens[i - 2] == TokenView::Text(format) ==> (is_safe_token(tokens, i) <==> forall|k: int|
            0 <= k < format.len() ==> (#[trigger] format[k] as u32) < 128 && !('0' <= format[k]
                && format[k] <= '9') && format[k] != '\\'),
        !(tokens[i - 2] is Text) ==> !is_safe_token(tokens, i),
{
    notable_words_differ();
    if tokens[i - 2] == TokenView::Text(format) {
        if forall|k: int|
            0 <= k < format.len() ==> (#[trigger] format[k] as u32) < 128 && !('0' <= format[k]
                && format[k] <= '9') && format[k] != '\\' {
            assert(is_plain_format(format));
        } else {
            assert(!is_plain_format(format));
        }
    }
}

/// Items can be chosen by an attribute alone, or by a test on it that is named and
/// not a notable one.
pub proof fn items_can_be_chosen_by_an_attribute(
    tokens: Seq<TokenView>,
    i: int,
    word: Seq<char>,
    name: Seq<char>,
)
    requires
        word == "selectattr"@ || word == "rejectattr"@,
        0 <= i && i + 5 < tokens.len(),
        tokens[i] == TokenView::Word(word),
        tokens[i + 1] == TokenView::Sign('('),
        tokens[i + 2] is Text,
    ensures
        tokens[i + 3] == TokenView::Sign(')') ==> is_safe_token(tokens, i),
        tokens[i + 3] == TokenView::Sign(',') && tokens[i + 4] == TokenView::Text(name) && (
        tokens[i + 5] == TokenView::Sign(')') || tokens[i + 5] == TokenView::Sign(','))
            && !is_notable(name) && !name.contains('\\') ==> is_safe_token(tokens, i),
        tokens[i + 3] == TokenView::Sign(',') && !(tokens[i + 4] is Text) && (i == 0 || tokens[i
            - 1] != TokenView::Sign('.')) ==> !is_safe_token(tokens, i),
{
    notable_words_differ();
}

/// A template makes the text that the engine renders, or none.
pub proof fn template_makes_what_is_rendered(
    template: Seq<char>,
    variable: Seq<char>,
    json: Seq<char>,
)
    ensures
        is_safe_template(template) ==> outcome(template, variable, json) == rendered(
            template,
            variable,
            json,
        ),
        !is_safe_template(template) ==> outcome(template, variable, json) is Err,
        template.len() > 65_000 || tokens_of(template).len() > 500 || additions(
            tokens_of(template),
        ) > 10 ==> outcome(
            template,
            variable,
            json,
        ) is Err,
{
}

} // verus!
