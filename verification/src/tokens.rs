//! Rust token streams: what a stream holds, how it is built and how it reads
//! as text.
//!
//! The streams are those of `proc_macro2`; names and types are checked by
//! `syn`. Nothing here is proved: each function states what the crate it calls
//! is known to do.

use proc_macro2::TokenStream;
use quote::ToTokens;
use quote::TokenStreamExt;
use vstd::prelude::*;

verus! {

/// The brackets round a group of tokens.
#[derive(Clone, Copy, Debug, PartialEq, Eq)]
pub enum Delim {
    /// `( ... )`
    Paren,
    /// `{ ... }`
    Brace,
    /// `[ ... ]`
    Bracket,
    /// No visible bracket.
    Invisible,
}

/// One token tree of a stream.
pub enum Token {
    /// A word, given by its text.
    Ident(Seq<char>),
    /// A punctuation character, and whether the next token joins it without
    /// a space.
    Punct(char, bool),
    /// A literal, given by its text.
    Literal(Seq<char>),
    /// A bracketed group.
    Group(Delim, Seq<Token>),
}

/// The token stream of `proc_macro2`. Of what a stream holds only
/// `tokens_of` speaks.
#[verifier::external_type_specification]
#[verifier::external_body]
pub struct ExTokenStream(proc_macro2::TokenStream);

/// The error of `syn`. Nothing is said of what it holds.
#[verifier::external_type_specification]
#[verifier::external_body]
pub struct ExSynError(syn::Error);

/// The token trees that a stream holds, in order.
pub uninterp spec fn tokens_of(stream: TokenStream) -> Seq<Token>;

/// The tokens that `syn` reads from `text` as one identifier, where it reads
/// one.
pub uninterp spec fn parsed_ident(text: Seq<char>) -> Option<Seq<Token>>;

/// The tokens that `syn` reads from `text` as one type, where it reads one.
pub uninterp spec fn parsed_type(text: Seq<char>) -> Option<Seq<Token>>;

/// The tokens that `syn` reads from `text` as one expression, where it reads
/// one.
pub uninterp spec fn parsed_expr(text: Seq<char>) -> Option<Seq<Token>>;

/// Whether `c` may start a word made of ASCII letters, digits and `_`.
pub open spec fn is_word_start(c: char) -> bool {
    ('a' <= c && c <= 'z') || ('A' <= c && c <= 'Z') || c == '_'
}

/// Whether `c` may continue such a word.
pub open spec fn is_word_part(c: char) -> bool {
    is_word_start(c) || ('0' <= c && c <= '9')
}

/// Whether `text` is a word of ASCII letters, digits and `_` that does not
/// start with a digit.
pub open spec fn is_word(text: Seq<char>) -> bool {
    &&& text.len() > 0
    &&& is_word_start(text[0])
    &&& forall|i: int| 0 < i < text.len() ==> is_word_part(#[trigger] text[i])
}

/// Whether `c` is one of the punctuation characters of Rust's tokens.
pub open spec fn is_punct(c: char) -> bool {
    c == '!' || c == '#' || c == '$' || c == '%' || c == '&' || c == '\'' || c == '*' || c == '+'
        || c == ',' || c == '-' || c == '.' || c == '/' || c == ':' || c == ';' || c == '<' || c
        == '=' || c == '>' || c == '?' || c == '@' || c == '^' || c == '|' || c == '~'
}

/// The text before the tokens of a group.
pub open spec fn open_text(delim: Delim) -> Seq<char> {
    match delim {
        Delim::Paren => seq!['('],
        Delim::Brace => seq!['{', ' '],
        Delim::Bracket => seq!['['],
        Delim::Invisible => seq![],
    }
}

/// The text after the tokens of a group.
pub open spec fn close_text(delim: Delim) -> Seq<char> {
    match delim {
        Delim::Paren => seq![')'],
        Delim::Brace => seq!['}'],
        Delim::Bracket => seq![']'],
        Delim::Invisible => seq![],
    }
}

/// The text of one token. A non-empty group in braces has a space before the
/// closing brace.
pub open spec fn token_text(token: Token) -> Seq<char>
    decreases token, 0nat,
{
    match token {
        Token::Ident(text) => text,
        Token::Punct(c, _) => seq![c],
        Token::Literal(text) => text,
        Token::Group(delim, inner) => open_text(delim) + text_of(inner) + (if delim
            == Delim::Brace && inner.len() > 0 {
            seq![' ']
        } else {
            seq![]
        }) + close_text(delim),
    }
}

/// Whether a space stands between `before` and the token that follows it.
pub open spec fn spaced_after(before: Token) -> bool {
    !(before matches Token::Punct(_, joint) && joint)
}

/// The text of a stream: its tokens' texts, with one space between two of
/// them unless the first is a punctuation character that joins the next.
pub open spec fn text_of(tokens: Seq<Token>) -> Seq<char>
    decreases tokens, 1nat,
{
    if tokens.len() == 0 {
        seq![]
    } else if tokens.len() == 1 {
        token_text(tokens[0])
    } else {
        text_of(tokens.drop_last()) + (if spaced_after(tokens[tokens.len() - 2]) {
            seq![' ']
        } else {
            seq![]
        }) + token_text(tokens.last())
    }
}

/// `TokenStream::new`: a stream without tokens.
#[verifier::external_body]
pub(crate) fn new_stream() -> (stream: TokenStream)
    ensures
        tokens_of(stream) == Seq::<Token>::empty(),
{
    TokenStream::new()
}

/// `Ident::new` and `TokenStreamExt::append`: the word `word` is added as the
/// last token. `Ident::new` panics on text that is no identifier, so only
/// words of ASCII letters, digits and `_` are taken.
#[verifier::external_body]
pub(crate) fn push_ident(stream: &mut TokenStream, word: &str)
    requires
        is_word(word@),
    ensures
        tokens_of(*final(stream)) == tokens_of(*old(stream)).push(Token::Ident(word@)),
{
    stream.append(proc_macro2::Ident::new(word, proc_macro2::Span::call_site()));
}

/// `Punct::new` and `TokenStreamExt::append`: the character `c` is added as
/// the last token, joined to what follows it if `joint`. `Punct::new` panics
/// on any other character than those of `is_punct`.
#[verifier::external_body]
pub(crate) fn push_punct(stream: &mut TokenStream, c: char, joint: bool)
    requires
        is_punct(c),
    ensures
        tokens_of(*final(stream)) == tokens_of(*old(stream)).push(Token::Punct(c, joint)),
{
    let spacing = if joint {
        proc_macro2::Spacing::Joint
    } else {
        proc_macro2::Spacing::Alone
    };
    stream.append(proc_macro2::Punct::new(c, spacing));
}

/// `Group::new` and `TokenStreamExt::append`: the tokens of `inner`, in the
/// brackets `delim`, are added as one last token.
#[verifier::external_body]
pub(crate) fn push_group(stream: &mut TokenStream, delim: Delim, inner: TokenStream)
    ensures
        tokens_of(*final(stream)) == tokens_of(*old(stream)).push(
            Token::Group(delim, tokens_of(inner)),
        ),
{
    let delimiter = match delim {
        Delim::Paren => proc_macro2::Delimiter::Parenthesis,
        Delim::Brace => proc_macro2::Delimiter::Brace,
        Delim::Bracket => proc_macro2::Delimiter::Bracket,
        Delim::Invisible => proc_macro2::Delimiter::None,
    };
    stream.append(proc_macro2::Group::new(delimiter, inner));
}

/// `ToTokens::to_tokens` of a stream: the tokens of `part` are added after
/// those of `stream`, in their order.
#[verifier::external_body]
pub(crate) fn push_stream(stream: &mut TokenStream, part: &TokenStream)
    ensures
        tokens_of(*final(stream)) == tokens_of(*old(stream)) + tokens_of(*part),
{
    part.to_tokens(stream);
}

/// `to_string` of a stream: the text of its tokens, as `proc_macro2` writes
/// a stream that was built outside of a procedural macro.
#[verifier::external_body]
pub(crate) fn stream_text(stream: &TokenStream) -> (text: String)
    ensures
        text@ == text_of(tokens_of(*stream)),
{
    stream.to_string()
}

/// `syn::parse_str` for `Ident`: succeeds where `syn` reads `text` as one
/// identifier, and then gives that identifier's tokens.
#[verifier::external_body]
pub(crate) fn parse_ident(text: &str) -> (r: Result<TokenStream, syn::Error>)
    ensures
        r is Ok <==> parsed_ident(text@) is Some,
        r matches Ok(stream) ==> Some(tokens_of(stream)) == parsed_ident(text@),
{
    match syn::parse_str::<syn::Ident>(text) {
        Ok(ident) => Ok(ident.into_token_stream()),
        Err(e) => Err(e),
    }
}

/// `syn::parse_str` for `Type`: succeeds where `syn` reads `text` as one
/// type, and then gives that type's tokens.
#[verifier::external_body]
pub(crate) fn parse_type(text: &str) -> (r: Result<TokenStream, syn::Error>)
    ensures
        r is Ok <==> parsed_type(text@) is Some,
        r matches Ok(stream) ==> Some(tokens_of(stream)) == parsed_type(text@),
{
    match syn::parse_str::<syn::Type>(text) {
        Ok(ty) => Ok(ty.into_token_stream()),
        Err(e) => Err(e),
    }
}

/// `syn::parse_str` for `Expr`: succeeds where `syn` reads `text` as one
/// expression, and then gives that expression's tokens.
#[verifier::external_body]
pub(crate) fn parse_expr(text: &str) -> (r: Result<TokenStream, syn::Error>)
    ensures
        r is Ok <==> parsed_expr(text@) is Some,
        r matches Ok(stream) ==> Some(tokens_of(stream)) == parsed_expr(text@),
{
    match syn::parse_str::<syn::Expr>(text) {
        Ok(expr) => Ok(expr.into_token_stream()),
        Err(e) => Err(e),
    }
}

} // verus!
