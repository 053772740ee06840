//! The code in a template: what stands in its tags, `{{ .. }}` and `{% .. %}`.
use vstd::prelude::*;

use crate::text::characters;

verus! {

/// A piece of the code in a template's tags.
#[derive(Debug)]
pub enum Token {
    /// Letters, digits and underscores in a row.
    Word(Vec<char>),
    /// A string, without its quotes and with its escapes as they are.
    Text(Vec<char>),
    /// Any other character.
    Sign(char),
    /// The end of a tag.
    End,
}

/// The value of a [`Token`].
pub ghost enum TokenView {
    Word(Seq<char>),
    Text(Seq<char>),
    Sign(char),
    End,
}

impl View for Token {
    type V = TokenView;

    open spec fn view(&self) -> TokenView {
        match self {
            Token::Word(letters) => TokenView::Word(letters@),
            Token::Text(letters) => TokenView::Text(letters@),
            Token::Sign(c) => TokenView::Sign(*c),
            Token::End => TokenView::End,
        }
    }
}

/// The values of tokens.
pub open spec fn token_views(tokens: Seq<Token>) -> Seq<TokenView> {
    tokens.map_values(|token: Token| token@)
}

/// The kind of a tag.
#[derive(Clone, Copy, Debug, PartialEq, Eq, Structural)]
pub enum Tag {
    /// `{{ .. }}`
    Variable,
    /// `{% .. %}`
    Block,
}

/// Where a reader of a template is.
#[derive(Clone, Copy, Debug, PartialEq, Eq, Structural)]
pub enum Place {
    /// In plain text.
    Outside,
    /// In plain text, after a brace that may open a tag or a comment.
    Opening,
    /// In a comment.
    Comment,
    /// In a comment, after a sign that may end it.
    CommentEnding,
    /// In a tag.
    Inside(Tag),
    /// In a tag, after a sign that may end it.
    Ending(Tag),
    /// In a string with the given quotes, in a tag.
    Quoted(Tag, char),
    /// In a string, after a backslash.
    Escaped(Tag, char),
}

/// What a reader of a template knows.
pub ghost struct Reading {
    pub place: Place,
    /// How many brackets are open.
    pub depth: int,
    /// The letters of the word or string that is being read.
    pub part: Seq<char>,
    /// What was read.
    pub tokens: Seq<TokenView>,
}

/// A letter of a word.
pub open spec fn is_word_letter(c: char) -> bool {
    ||| 'a' <= c && c <= 'z'
    ||| 'A' <= c && c <= 'Z'
    ||| '0' <= c && c <= '9'
    ||| c == '_'
}

/// White space between tokens.
pub open spec fn is_blank(c: char) -> bool {
    c == ' ' || c == '\t' || c == '\n' || c == '\r' || c == '\u{c}'
}

/// The first of the two signs that end a tag.
pub open spec fn ending_sign(tag: Tag) -> char {
    match tag {
        Tag::Variable => '}',
        Tag::Block => '%',
    }
}

impl Reading {
    /// Before the first character.
    pub open spec fn start() -> Reading {
        Reading { place: Place::Outside, depth: 0, part: seq![], tokens: seq![] }
    }

    /// At another place.
    pub open spec fn at(self, place: Place) -> Reading {
        Reading { place, ..self }
    }

    /// With a letter more.
    pub open spec fn letter(self, c: char) -> Reading {
        Reading { part: self.part.push(c), ..self }
    }

    /// With a token more.
    pub open spec fn token(self, token: TokenView) -> Reading {
        Reading { part: seq![], tokens: self.tokens.push(token), ..self }
    }

    /// After the word that is being read, if any.
    pub open spec fn after_word(self) -> Reading {
        if self.part.len() == 0 {
            self
        } else {
            self.token(TokenView::Word(self.part))
        }
    }

    /// With a sign more.
    pub open spec fn sign(self, c: char) -> Reading {
        let next = self.token(TokenView::Sign(c));
        if c == '(' || c == '[' || c == '{' {
            Reading { depth: self.depth + 1, ..next }
        } else if c == ')' || c == ']' || c == '}' {
            Reading { depth: self.depth - 1, ..next }
        } else {
            next
        }
    }

    /// After a character in a tag.
    pub open spec fn inside(self, tag: Tag, c: char) -> Reading {
        let next = self.after_word();
        if is_word_letter(c) {
            self.letter(c).at(Place::Inside(tag))
        } else if is_blank(c) {
            next.at(Place::Inside(tag))
        } else if c == '"' || c == '\'' {
            next.at(Place::Quoted(tag, c))
        } else if c == ending_sign(tag) && self.depth == 0 {
            next.at(Place::Ending(tag))
        } else {
            next.sign(c).at(Place::Inside(tag))
        }
    }

    /// After a character.
    pub open spec fn after(self, c: char) -> Reading {
        match self.place {
            Place::Outside => if c == '{' {
                self.at(Place::Opening)
            } else {
                self
            },
            Place::Opening => if c == '{' {
                self.at(Place::Inside(Tag::Variable))
            } else if c == '%' {
                self.at(Place::Inside(Tag::Block))
            } else if c == '#' {
                self.at(Place::Comment)
            } else {
                self.at(Place::Outside)
            },
            Place::Comment => if c == '#' {
                self.at(Place::CommentEnding)
            } else {
                self
            },
            Place::CommentEnding => if c == '}' {
                self.at(Place::Outside)
            } else if c == '#' {
                self
            } else {
                self.at(Place::Comment)
            },
            Place::Inside(tag) => self.inside(tag, c),
            Place::Ending(tag) => if c == '}' {
                self.token(TokenView::End).at(Place::Outside)
            } else {
                self.sign(ending_sign(tag)).inside(tag, c)
            },
            Place::Quoted(tag, quote) => if c == quote {
                self.token(TokenView::Text(self.part)).at(Place::Inside(tag))
            } else if c == '\\' {
                self.letter(c).at(Place::Escaped(tag, quote))
            } else {
                self.letter(c)
            },
            Place::Escaped(tag, quote) => self.letter(c).at(Place::Quoted(tag, quote)),
        }
    }
}

/// What is known after a template, or after the first part of one.
pub open spec fn reading(template: Seq<char>) -> Reading
    decreases template.len(),
{
    if template.len() == 0 {
        Reading::start()
    } else {
        reading(template.drop_last()).after(template.last())
    }
}

/// The code in the tags of a template. Comments and plain text have none.
pub open spec fn tokens_of(template: Seq<char>) -> Seq<TokenView> {
    reading(template).after_word().tokens
}

/// A reader of a template.
struct Reader {
    place: Place,
    depth: i128,
    part: Vec<char>,
    tokens: Vec<Token>,
}

/// Whether a character is a letter of a word.
fn word_letter(c: char) -> (yes: bool)
    ensures
        yes == is_word_letter(c),
{
    ('a' <= c && c <= 'z') || ('A' <= c && c <= 'Z') || ('0' <= c && c <= '9') || c == '_'
}

impl Reader {
    /// What the reader knows.
    spec fn reading(self) -> Reading {
        Reading {
            place: self.place,
            depth: self.depth as int,
            part: self.part@,
            tokens: token_views(self.tokens@),
        }
    }

    /// Takes a token.
    fn token(&mut self, token: Token)
        ensures
            final(self).reading() == old(self).reading().token(token@),
    {
        let ghost before = self.tokens@;
        self.tokens.push(token);
        self.part = Vec::new();
        assert(token_views(self.tokens@) =~= token_views(before).push(token@));
        assert(self.part@ =~= seq![]);
    }

    /// Ends the word that is being read, if any.
    fn end_word(&mut self)
        ensures
            final(self).reading() == old(self).reading().after_word(),
    {
        if self.part.len() > 0 {
            let mut part: Vec<char> = Vec::new();
            std::mem::swap(&mut part, &mut self.part);
            self.token(Token::Word(part));
        }
    }

    /// Takes a sign.
    fn sign(&mut self, c: char)
        requires
            i128::MIN < old(self).depth < i128::MAX,
        ensures
            final(self).reading() == old(self).reading().sign(c),
            old(self).depth - 1 <= final(self).depth <= old(self).depth + 1,
    {
        self.token(Token::Sign(c));
        if c == '(' || c == '[' || c == '{' {
            self.depth = self.depth + 1;
        } else if c == ')' || c == ']' || c == '}' {
            self.depth = self.depth - 1;
        }
    }

    /// Takes a character in a tag.
    fn inside(&mut self, tag: Tag, c: char)
        requires
            i128::MIN < old(self).depth < i128::MAX,
        ensures
            final(self).reading() == old(self).reading().inside(tag, c),
            old(self).depth - 1 <= final(self).depth <= old(self).depth + 1,
    {
        if word_letter(c) {
            self.part.push(c);
            self.place = Place::Inside(tag);
            return;
        }
        self.end_word();
        let ending = match tag {
            Tag::Variable => '}',
            Tag::Block => '%',
        };
        if c == ' ' || c == '\t' || c == '\n' || c == '\r' || c == '\u{c}' {
            self.place = Place::Inside(tag);
        } else if c == '"' || c == '\'' {
            self.place = Place::Quoted(tag, c);
        } else if c == ending && self.depth == 0 {
            self.place = Place::Ending(tag);
        } else {
            self.sign(c);
            self.place = Place::Inside(tag);
        }
    }

    /// Takes a character.
    fn read(&mut self, c: char)
        requires
            i128::MIN + 1 < old(self).depth < i128::MAX - 1,
        ensures
            final(self).reading() == old(self).reading().after(c),
            old(self).depth - 2 <= final(self).depth <= old(self).depth + 2,
    {
        match self.place {
            Place::Outside => {
                if c == '{' {
                    self.place = Place::Opening;
                }
            },
            Place::Opening => {
                self.place = if c == '{' {
                    Place::Inside(Tag::Variable)
                } else if c == '%' {
                    Place::Inside(Tag::Block)
                } else if c == '#' {
                    Place::Comment
                } else {
                    Place::Outside
                };
            },
            Place::Comment => {
                if c == '#' {
                    self.place = Place::CommentEnding;
                }
            },
            Place::CommentEnding => {
                if c == '}' {
                    self.place = Place::Outside;
                } else if c != '#' {
                    self.place = Place::Comment;
                }
            },
            Place::Inside(tag) => self.inside(tag, c),
            Place::Ending(tag) => {
                if c == '}' {
                    self.token(Token::End);
                    self.place = Place::Outside;
                } else {
                    let ending = match tag {
                        Tag::Variable => '}',
                        Tag::Block => '%',
                    };
                    self.sign(ending);
                    self.inside(tag, c);
                }
            },
            Place::Quoted(tag, quote) => {
                if c == quote {
                    let mut part: Vec<char> = Vec::new();
                    std::mem::swap(&mut part, &mut self.part);
                    self.token(Token::Text(part));
                    self.place = Place::Inside(tag);
                } else {
                    self.part.push(c);
                    if c == '\\' {
                        self.place = Place::Escaped(tag, quote);
                    }
                }
            },
            Place::Escaped(tag, quote) => {
                self.part.push(c);
                self.place = Place::Quoted(tag, quote);
            },
        }
    }
}

/// The code in the tags of a template.
pub fn tokens(template: &str) -> (tokens: Vec<Token>)
    ensures
        token_views(tokens@) == tokens_of(template@),
{
    let chars = characters(template);
    let mut reader = Reader {
        place: Place::Outside,
        depth: 0,
        part: Vec::new(),
        tokens: Vec::new(),
    };
    let mut i: usize = 0;
    assert(token_views(reader.tokens@) =~= seq![]);
    assert(reader.part@ =~= seq![]);
    while i < chars.len()
        invariant
            i <= chars.len(),
            chars@ == template@,
            -2 * i <= reader.depth <= 2 * i,
            reader.reading() == reading(template@.take(i as int)),
        decreases chars.len() - i,
    {
        reader.read(chars[i]);
        assert(template@.take(i + 1).drop_last() =~= template@.take(i as int));
        i = i + 1;
    }
    assert(template@.take(i as int) =~= template@);
    reader.end_word();
    reader.tokens
}

impl Reading {
    /// With tokens before those that were read.
    spec fn behind(self, tokens: Seq<TokenView>) -> Reading {
        Reading { tokens: tokens + self.tokens, ..self }
    }

    /// Outside of a tag there is no word or bracket left open, and the last token
    /// is the end of a tag.
    spec fn is_tidy(self) -> bool {
        match self.place {
            Place::Outside | Place::Opening | Place::Comment | Place::CommentEnding => {
                &&& self.part.len() == 0
                &&& self.depth == 0
                &&& self.tokens.len() == 0 || self.tokens.last() is End
            },
            Place::Ending(_) => self.part.len() == 0 && self.depth == 0,
            _ => true,
        }
    }

    /// What comes before the tokens that were read makes no difference.
    proof fn after_is_independent(self, tokens: Seq<TokenView>, c: char)
        ensures
            self.behind(tokens).after(c) == self.after(c).behind(tokens),
            self.behind(tokens).after_word() == self.after_word().behind(tokens),
    {
        assert forall|token: TokenView| #![auto]
            tokens + self.tokens.push(token) == (tokens + self.tokens).push(token) by {
            assert(tokens + self.tokens.push(token) =~= (tokens + self.tokens).push(token));
        }
        assert forall|token: TokenView, next: TokenView| #![auto]
            tokens + self.tokens.push(token).push(next) == (tokens + self.tokens).push(token).push(
            next,
        ) by {
            assert(tokens + self.tokens.push(token).push(next) =~= (tokens + self.tokens).push(
                token,
            ).push(next));
        }
    }
}

/// After each part of a template the reader is tidy.
proof fn reading_is_tidy(template: Seq<char>)
    ensures
        reading(template).is_tidy(),
    decreases template.len(),
{
    if template.len() > 0 {
        reading_is_tidy(template.drop_last());
    }
}

/// A character more is one step more.
proof fn reading_grows(template: Seq<char>, c: char)
    ensures
        reading(template.push(c)) == reading(template).after(c),
{
    assert(template.push(c).drop_last() =~= template);
}

/// Whether a template ends outside of its tags and comments.
pub open spec fn is_complete(template: Seq<char>) -> bool {
    reading(template).place == Place::Outside
}

/// A template that starts with a complete one goes on as if it were new.
proof fn reading_starts_anew(first: Seq<char>, second: Seq<char>)
    requires
        is_complete(first),
    ensures
        reading(first + second) == reading(second).behind(reading(first).tokens),
    decreases second.len(),
{
    let tokens = reading(first).tokens;
    if second.len() == 0 {
        assert(first + second =~= first);
        reading_is_tidy(first);
        assert(reading(second).part =~= reading(first).part);
        assert(tokens + reading(second).tokens =~= tokens);
    } else {
        let rest = second.drop_last();
        reading_starts_anew(first, rest);
        assert((first + second).drop_last() =~= first + rest);
        reading(rest).after_is_independent(tokens, second.last());
    }
}

/// The code of two templates in a row, the first of which is complete, is the
/// code of the one and then that of the other.
pub proof fn code_of_joined_templates(first: Seq<char>, second: Seq<char>)
    requires
        is_complete(first),
    ensures
        tokens_of(first + second) == tokens_of(first) + tokens_of(second),
        is_complete(first + second) <==> is_complete(second),
{
    reading_starts_anew(first, second);
    reading_is_tidy(first);
    reading(second).after_is_independent(reading(first).tokens, ' ');
}

/// The code of a complete template is none, or ends with the end of a tag.
pub proof fn complete_code_ends_a_tag(template: Seq<char>)
    requires
        is_complete(template),
    ensures
        tokens_of(template).len() == 0 || tokens_of(template).last() is End,
{
    reading_is_tidy(template);
}

/// A text without braces has no code.
pub proof fn plain_text_has_no_code(text: Seq<char>)
    requires
        forall|i: int| 0 <= i < text.len() ==> #[trigger] text[i] != '{',
    ensures
        tokens_of(text) == Seq::<TokenView>::empty(),
        is_complete(text),
    decreases text.len(),
{
    if text.len() > 0 {
        plain_text_has_no_code(text.drop_last());
        reading_is_tidy(text.drop_last());
    }
}

/// A comment goes on up to a sign that may end it.
proof fn reading_of_a_comment(template: Seq<char>, comment: Seq<char>)
    requires
        reading(template).place == Place::Comment,
        forall|i: int| 0 <= i < comment.len() ==> #[trigger] comment[i] != '#',
    ensures
        reading(template + comment) == reading(template),
    decreases comment.len(),
{
    if comment.len() == 0 {
        assert(template + comment =~= template);
    } else {
        let rest = comment.drop_last();
        reading_of_a_comment(template, rest);
        assert((template + comment).drop_last() =~= template + rest);
    }
}

/// A comment has no code, whatever stands in it.
pub proof fn comment_has_no_code(comment: Seq<char>)
    requires
        forall|i: int| 0 <= i < comment.len() ==> #[trigger] comment[i] != '#',
    ensures
        tokens_of("{#"@ + comment + "#}"@) == Seq::<TokenView>::empty(),
        is_complete("{#"@ + comment + "#}"@),
{
    reveal_strlit("{#");
    reveal_strlit("#}");
    let empty = Seq::<char>::empty();
    reading_grows(empty, '{');
    reading_grows(empty.push('{'), '#');
    assert("{#"@ =~= empty.push('{').push('#'));
    reading_of_a_comment("{#"@, comment);
    let inner = "{#"@ + comment;
    reading_grows(inner, '#');
    reading_grows(inner.push('#'), '}');
    assert(inner + "#}"@ =~= inner.push('#').push('}'));
}

/// Letters of a word that follow in a tag belong to the word.
proof fn reading_of_a_word(template: Seq<char>, word: Seq<char>)
    requires
        reading(template).place is Inside,
        forall|i: int| 0 <= i < word.len() ==> is_word_letter(#[trigger] word[i]),
    ensures
        reading(template + word) == (Reading {
            part: reading(template).part + word,
            ..reading(template)
        }),
    decreases word.len(),
{
    if word.len() == 0 {
        assert(template + word =~= template);
        assert(reading(template).part + word =~= reading(template).part);
    } else {
        let rest = word.drop_last();
        reading_of_a_word(template, rest);
        assert((template + word).drop_last() =~= template + rest);
        assert((reading(template).part + rest).push(word.last()) =~= reading(template).part + word);
    }
}

/// Letters that follow in a string belong to the string.
proof fn reading_of_a_text(template: Seq<char>, text: Seq<char>)
    requires
        reading(template).place matches Place::Quoted(_, quote) && forall|i: int|
            0 <= i < text.len() ==> #[trigger] text[i] != quote && text[i] != '\\',
    ensures
        reading(template + text) == (Reading {
            part: reading(template).part + text,
            ..reading(template)
        }),
    decreases text.len(),
{
    if text.len() == 0 {
        assert(template + text =~= template);
        assert(reading(template).part + text =~= reading(template).part);
    } else {
        let rest = text.drop_last();
        reading_of_a_text(template, rest);
        assert((template + text).drop_last() =~= template + rest);
        assert((reading(template).part + rest).push(text.last()) =~= reading(template).part + text);
    }
}

/// A name: letters, digits and underscores, with a letter first.
pub open spec fn is_name(word: Seq<char>) -> bool {
    &&& word.len() > 0
    &&& ('a' <= word[0] && word[0] <= 'z') || ('A' <= word[0] && word[0] <= 'Z')
    &&& forall|i: int|
        0 <= i < word.len() ==> {
            ||| 'a' <= #[trigger] word[i] && word[i] <= 'z'
            ||| 'A' <= word[i] && word[i] <= 'Z'
            ||| '0' <= word[i] && word[i] <= '9'
            ||| word[i] == '_'
        }
}

/// What is known after the start of a tag that shows something of `user`.
proof fn reading_of_the_user()
    ensures
        ({
            let r = reading("{{ user"@);
            &&& r.place == Place::Inside(Tag::Variable)
            &&& r.depth == 0
            &&& r.part == "user"@
            &&& r.tokens.len() == 0
        }),
{
    reveal_strlit("{{ user");
    reveal_strlit("user");
    let start = Seq::<char>::empty().push('{').push('{').push(' ');
    reading_grows(Seq::empty(), '{');
    reading_grows(Seq::empty().push('{'), '{');
    reading_grows(Seq::empty().push('{').push('{'), ' ');
    assert(reading(start).place == Place::Inside(Tag::Variable));
    assert(reading(start).part =~= seq![]);
    reading_of_a_word(start, "user"@);
    assert(reading(start).part + "user"@ =~= "user"@);
    assert(start + "user"@ =~= "{{ user"@);
}

/// The end of a tag that shows something.
proof fn reading_of_the_end(template: Seq<char>)
    requires
        reading(template).place == Place::Inside(Tag::Variable),
        reading(template).depth == 0,
    ensures
        reading(template + " }}"@) == reading(template).after_word().token(TokenView::End).at(
            Place::Outside,
        ),
{
    reveal_strlit(" }}");
    reading_grows(template, ' ');
    reading_grows(template.push(' '), '}');
    reading_grows(template.push(' ').push('}'), '}');
    assert(template + " }}"@ =~= template.push(' ').push('}').push('}'));
}

/// What is known after the start of a tag that shows a field of `user`.
proof fn reading_of_a_field(name: Seq<char>)
    requires
        is_name(name),
    ensures
        ({
            let r = reading("{{ user"@ + "."@ + name);
            &&& r.place == Place::Inside(Tag::Variable)
            &&& r.depth == 0
            &&& r.part == name
            &&& r.tokens == seq![TokenView::Word("user"@), TokenView::Sign('.')]
        }),
{
    reveal_strlit(".");
    reveal_strlit("user");
    reading_of_the_user();
    reading_grows("{{ user"@, '.');
    let dotted = "{{ user"@.push('.');
    assert("{{ user"@ + "."@ =~= dotted);
    assert(reading(dotted).part =~= seq![]);
    assert(reading(dotted).tokens =~= seq![TokenView::Word("user"@), TokenView::Sign('.')]);
    reading_of_a_word(dotted, name);
    assert(reading(dotted).part + name =~= name);
}

/// The template that shows a field.
pub open spec fn field_template(name: Seq<char>) -> Seq<char> {
    "{{ user"@ + "."@ + name + " }}"@
}

/// The template that shows a field after a filter was applied to it.
pub open spec fn filter_template(name: Seq<char>, filter: Seq<char>) -> Seq<char> {
    "{{ user"@ + "."@ + name + " | "@ + filter + " }}"@
}

/// The template that shows what is stored under a key.
pub open spec fn key_template(key: Seq<char>) -> Seq<char> {
    "{{ user"@ + "['"@ + key + "']"@ + " }}"@
}

/// The code of a template that shows a field: the variable, a dot and the name.
pub proof fn code_of_a_field(name: Seq<char>)
    requires
        is_name(name),
    ensures
        tokens_of(field_template(name)) == seq![
            TokenView::Word("user"@),
            TokenView::Sign('.'),
            TokenView::Word(name),
            TokenView::End,
        ],
        is_complete(field_template(name)),
{
    reading_of_a_field(name);
    let start = "{{ user"@ + "."@ + name;
    reading_of_the_end(start);
    assert(reading(start).after_word().token(TokenView::End).tokens =~= seq![
        TokenView::Word("user"@),
        TokenView::Sign('.'),
        TokenView::Word(name),
        TokenView::End,
    ]);
}

/// The code of a template that applies a filter to a field.
pub proof fn code_of_a_filter(name: Seq<char>, filter: Seq<char>)
    requires
        is_name(name),
        is_name(filter),
    ensures
        tokens_of(filter_template(name, filter)) == seq![
            TokenView::Word("user"@),
            TokenView::Sign('.'),
            TokenView::Word(name),
            TokenView::Sign('|'),
            TokenView::Word(filter),
            TokenView::End,
        ],
        is_complete(filter_template(name, filter)),
{
    reveal_strlit(" | ");
    reading_of_a_field(name);
    let start = "{{ user"@ + "."@ + name;
    reading_grows(start, ' ');
    reading_grows(start.push(' '), '|');
    reading_grows(start.push(' ').push('|'), ' ');
    let piped = start.push(' ').push('|').push(' ');
    assert(start + " | "@ =~= piped);
    assert(reading(piped).part =~= seq![]);
    assert(reading(piped).tokens =~= seq![
        TokenView::Word("user"@),
        TokenView::Sign('.'),
        TokenView::Word(name),
        TokenView::Sign('|'),
    ]);
    reading_of_a_word(piped, filter);
    assert(reading(piped).part + filter =~= filter);
    reading_of_the_end(piped + filter);
    assert(reading(piped + filter).after_word().token(TokenView::End).tokens =~= seq![
        TokenView::Word("user"@),
        TokenView::Sign('.'),
        TokenView::Word(name),
        TokenView::Sign('|'),
        TokenView::Word(filter),
        TokenView::End,
    ]);
}

/// The code of a template that shows what is stored under a key. The key is
/// not code.
pub proof fn code_of_a_key(key: Seq<char>)
    requires
        forall|i: int| 0 <= i < key.len() ==> #[trigger] key[i] != '\'' && key[i] != '\\',
    ensures
        tokens_of(key_template(key)) == seq![
            TokenView::Word("user"@),
            TokenView::Sign('['),
            TokenView::Text(key),
            TokenView::Sign(']'),
            TokenView::End,
        ],
        is_complete(key_template(key)),
{
    reveal_strlit("['");
    reveal_strlit("']");
    reveal_strlit("user");
    reading_of_the_user();
    let start = "{{ user"@;
    reading_grows(start, '[');
    reading_grows(start.push('['), '\'');
    let quoted = start.push('[').push('\'');
    assert(start + "['"@ =~= quoted);
    assert(reading(quoted).part =~= seq![]);
    assert(reading(quoted).tokens =~= seq![TokenView::Word("user"@), TokenView::Sign('[')]);
    reading_of_a_text(quoted, key);
    assert(reading(quoted).part + key =~= key);
    let keyed = quoted + key;
    reading_grows(keyed, '\'');
    reading_grows(keyed.push('\''), ']');
    let closed = keyed.push('\'').push(']');
    assert(keyed + "']"@ =~= closed);
    assert(reading(closed).part =~= seq![]);
    assert(reading(closed).tokens =~= seq![
        TokenView::Word("user"@),
        TokenView::Sign('['),
        TokenView::Text(key),
        TokenView::Sign(']'),
    ]);
    reading_of_the_end(closed);
    assert(reading(closed).after_word().token(TokenView::End).tokens =~= seq![
        TokenView::Word("user"@),
        TokenView::Sign('['),
        TokenView::Text(key),
        TokenView::Sign(']'),
        TokenView::End,
    ]);
}

/// White space between the pieces of code makes no difference, whichever it is.
pub proof fn white_space_is_no_code(template: Seq<char>, c: char)
    requires
        reading(template).place is Inside,
        reading(template).part.len() == 0,
        c == ' ' || c == '\t' || c == '\n' || c == '\r' || c == '\u{c}',
    ensures
        reading(template.push(c)) == reading(template),
{
    reading_grows(template, c);
}

/// The code of a block of two words, such as a condition on a variable, is the two
/// words.
pub proof fn code_of_a_block(keyword: Seq<char>, name: Seq<char>)
    requires
        is_name(keyword),
        is_name(name),
    ensures
        tokens_of("{% "@ + keyword + " "@ + name + " %}"@) == seq![
            TokenView::Word(keyword),
            TokenView::Word(name),
            TokenView::End,
        ],
        is_complete("{% "@ + keyword + " "@ + name + " %}"@),
{
    reveal_strlit("{% ");
    reveal_strlit(" ");
    reveal_strlit(" %}");
    let empty = Seq::<char>::empty();
    reading_grows(empty, '{');
    reading_grows(empty.push('{'), '%');
    reading_grows(empty.push('{').push('%'), ' ');
    let start = "{% "@;
    assert(start =~= empty.push('{').push('%').push(' '));
    assert(reading(start).part =~= seq![]);
    reading_of_a_word(start, keyword);
    assert(reading(start).part + keyword =~= keyword);
    let first = start + keyword;
    reading_grows(first, ' ');
    assert(first + " "@ =~= first.push(' '));
    assert(reading(first.push(' ')).part =~= seq![]);
    assert(reading(first.push(' ')).tokens =~= seq![TokenView::Word(keyword)]);
    reading_of_a_word(first.push(' '), name);
    assert(reading(first.push(' ')).part + name =~= name);
    let second = first.push(' ') + name;
    reading_grows(second, ' ');
    reading_grows(second.push(' '), '%');
    reading_grows(second.push(' ').push('%'), '}');
    assert(second + " %}"@ =~= second.push(' ').push('%').push('}'));
    assert(reading(second.push(' ').push('%').push('}')).tokens =~= seq![
        TokenView::Word(keyword),
        TokenView::Word(name),
        TokenView::End,
    ]);
}

/// The code of the template that shows the `sub` claim.
pub(crate) proof fn sub_template_has_four_tokens()
    ensures
        tokens_of("{{ user.sub }}"@) == seq![
            TokenView::Word(seq!['u', 's', 'e', 'r']),
            TokenView::Sign('.'),
            TokenView::Word(seq!['s', 'u', 'b']),
            TokenView::End,
        ],
        "{{ user.sub }}"@ == field_template("sub"@),
        is_name("sub"@),
{
    reveal_strlit("{{ user.sub }}");
    reveal_strlit("{{ user");
    reveal_strlit("user");
    reveal_strlit(".");
    reveal_strlit("sub");
    reveal_strlit(" }}");
    assert("{{ user.sub }}"@ =~= field_template("sub"@));
    assert("user"@ =~= seq!['u', 's', 'e', 'r']);
    assert("sub"@ =~= seq!['s', 'u', 'b']);
    code_of_a_field("sub"@);
}

} // verus!
