//! Token streams, built through `virtue`'s `StreamBuilder`.
//!
//! The builder is opaque to the verifier. What it holds is named by
//! [`stream_tokens`], a sequence of [`Token`] values, and every function here
//! that touches a builder says what it appends to that sequence.

use vstd::prelude::*;
use virtue::generate::StreamBuilder;
use virtue::prelude::Literal;

verus! {

/// The brackets that enclose a group of tokens.
#[derive(Clone, Copy, Debug, PartialEq, Eq, Structural)]
pub enum Delimiter {
    /// `( .. )`
    Parenthesis,
    /// `{ .. }`
    Brace,
    /// `[ .. ]`
    Bracket,
}

/// Whether a punctuation character is glued to the token that follows it.
#[derive(Clone, Copy, Debug, PartialEq, Eq, Structural)]
pub enum Spacing {
    /// The operator ends with this character.
    Alone,
    /// The next token continues the operator, as the first `:` of `::` does.
    Joint,
}

/// One token tree of a stream, as contracts speak of it. Spans are left out.
pub enum Token {
    /// A word: a keyword or a name.
    Ident(Seq<char>),
    /// One punctuation character.
    Punct(char, Spacing),
    /// A string literal that denotes the given text.
    Str(Seq<char>),
    /// A decimal integer literal without a suffix.
    Usize(usize),
    /// A decimal integer literal with the suffix `u32`.
    U32(u32),
    /// Any other literal, as it is written.
    Literal(Seq<char>),
    /// A bracketed group and the tokens inside it.
    Group(Delimiter, Seq<Token>),
}

/// `virtue::generate::StreamBuilder`: a sequence of tokens that grows at its
/// end.
#[verifier::external_type_specification]
#[verifier::external_body]
pub struct ExStreamBuilder(StreamBuilder);

/// `virtue::Error`: why `virtue` could not read or write code.
#[verifier::external_type_specification]
#[verifier::external_body]
pub struct ExError(virtue::Error);

/// The token trees that a stream builder holds, first to last.
pub uninterp spec fn stream_tokens(builder: StreamBuilder) -> Seq<Token>;

/// The token trees that Rust's lexer reads from `code`, or `None` where it
/// rejects the text (an unbalanced bracket, an unterminated literal).
pub uninterp spec fn lex(code: Seq<char>) -> Option<Seq<Token>>;

/// Whether `code` is text that the lexer accepts.
pub open spec fn lexes(code: Seq<char>) -> bool {
    lex(code) is Some
}

/// The tokens of `code`, where the lexer accepts it.
pub open spec fn lexed(code: Seq<char>) -> Seq<Token> {
    lex(code).unwrap()
}

/// The characters that may stand in a punctuation token.
pub open spec fn is_punct_char(c: char) -> bool {
    c == '!' || c == '#' || c == '$' || c == '%' || c == '&' || c == '\'' || c == '*' || c == '+'
        || c == ',' || c == '-' || c == '.' || c == '/' || c == ':' || c == ';' || c == '<'
        || c == '=' || c == '>' || c == '?' || c == '@' || c == '^' || c == '|' || c == '~'
}

/// An ASCII letter.
pub open spec fn is_letter(c: char) -> bool {
    ('a' <= c && c <= 'z') || ('A' <= c && c <= 'Z')
}

/// An ASCII letter, a digit or `_`.
pub open spec fn is_word_char(c: char) -> bool {
    is_letter(c) || ('0' <= c && c <= '9') || c == '_'
}

/// A word of ASCII letters, digits and `_` that starts with a letter, or with
/// `_` and goes on. Every such word is an identifier; identifiers outside
/// ASCII are not words.
pub open spec fn is_word(s: Seq<char>) -> bool {
    &&& s.len() > 0
    &&& is_letter(s[0]) || (s[0] == '_' && s.len() > 1)
    &&& forall|i: int| 0 <= i < s.len() ==> is_word_char(#[trigger] s[i])
}

/// The tokens of an operator of several characters: each is glued to the next.
pub open spec fn joint_puncts(s: Seq<char>) -> Seq<Token> {
    Seq::new(s.len(), |i: int| Token::Punct(s[i], Spacing::Joint))
}

/// `StreamBuilder::new`: a builder that holds no token.
#[verifier::external_body]
pub(crate) fn new_stream() -> (builder: StreamBuilder)
    ensures
        stream_tokens(builder) == Seq::<Token>::empty(),
{
    StreamBuilder::new()
}

/// `StreamBuilder::push_parsed`: lexes `code` and appends the tokens. Where
/// the lexer rejects `code` it returns the error and appends nothing.
#[verifier::external_body]
pub(crate) fn push_parsed(builder: &mut StreamBuilder, code: &str) -> (res: Result<(), virtue::Error>)
    ensures
        res is Ok <==> lex(code@) is Some,
        res is Ok ==> stream_tokens(*final(builder)) == stream_tokens(*old(builder)) + lex(
            code@,
        ).unwrap(),
        res is Err ==> stream_tokens(*final(builder)) == stream_tokens(*old(builder)),
{
    builder.push_parsed(code).map(|_| ())
}

/// `StreamBuilder::ident_str`: appends one word. `Ident::new` panics on text
/// that is no identifier, so only words are let in.
#[verifier::external_body]
pub(crate) fn ident_str(builder: &mut StreamBuilder, ident: &str)
    requires
        is_word(ident@),
    ensures
        stream_tokens(*final(builder)) == stream_tokens(*old(builder)).push(Token::Ident(ident@)),
{
    builder.ident_str(ident);
}

/// `StreamBuilder::punct`: appends one punctuation character that stands
/// alone. `Punct::new` panics on any other character, so those are kept out.
#[verifier::external_body]
pub(crate) fn punct(builder: &mut StreamBuilder, p: char)
    requires
        is_punct_char(p),
    ensures
        stream_tokens(*final(builder)) == stream_tokens(*old(builder)).push(
            Token::Punct(p, Spacing::Alone),
        ),
{
    builder.punct(p);
}

/// `StreamBuilder::puncts`: appends the characters of an operator such as
/// `::` or `=>`, each glued to what follows.
#[verifier::external_body]
pub(crate) fn puncts(builder: &mut StreamBuilder, operator: &str)
    requires
        forall|i: int| 0 <= i < operator@.len() ==> is_punct_char(#[trigger] operator@[i]),
    ensures
        stream_tokens(*final(builder)) == stream_tokens(*old(builder)) + joint_puncts(operator@),
{
    builder.puncts(operator);
}

/// `StreamBuilder::lit_str`: appends a string literal that denotes `text`.
#[verifier::external_body]
pub(crate) fn lit_str(builder: &mut StreamBuilder, text: &str)
    ensures
        stream_tokens(*final(builder)) == stream_tokens(*old(builder)).push(Token::Str(text@)),
{
    builder.lit_str(text);
}

/// `StreamBuilder::lit_usize`: appends `value` as a literal without a suffix.
#[verifier::external_body]
pub(crate) fn lit_usize(builder: &mut StreamBuilder, value: usize)
    ensures
        stream_tokens(*final(builder)) == stream_tokens(*old(builder)).push(Token::Usize(value)),
{
    builder.lit_usize(value);
}

/// `StreamBuilder::push` of `Literal::u32_suffixed`: appends `value` as a
/// literal with the suffix `u32`.
#[verifier::external_body]
pub(crate) fn lit_u32(builder: &mut StreamBuilder, value: u32)
    ensures
        stream_tokens(*final(builder)) == stream_tokens(*old(builder)).push(Token::U32(value)),
{
    builder.push(Literal::u32_suffixed(value));
}

/// `StreamBuilder::group`: appends one group in the given brackets that holds
/// the tokens of `inner`.
#[verifier::external_body]
pub(crate) fn group(builder: &mut StreamBuilder, delimiter: Delimiter, inner: StreamBuilder)
    ensures
        stream_tokens(*final(builder)) == stream_tokens(*old(builder)).push(
            Token::Group(delimiter, stream_tokens(inner)),
        ),
{
    let delimiter = match delimiter {
        Delimiter::Parenthesis => virtue::prelude::Delimiter::Parenthesis,
        Delimiter::Brace => virtue::prelude::Delimiter::Brace,
        Delimiter::Bracket => virtue::prelude::Delimiter::Bracket,
    };
    let _ = builder.group(delimiter, |content| {
        *content = inner;
        Ok(())
    });
}

/// Tries `code` on the lexer without keeping the tokens.
pub(crate) fn check_lexes(code: &str) -> (res: Result<(), virtue::Error>)
    ensures
        res is Ok <==> lexes(code@),
{
    let mut scratch = new_stream();
    push_parsed(&mut scratch, code)
}

} // verus!
