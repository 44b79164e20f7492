//! The outside token and syntax types this crate handles, and the calls made
//! into proc-macro2, quote and syn. Each value of these types is opaque here:
//! the library carries them through, and reads only what the wrappers below
//! hand back as plain values.
use vstd::prelude::*;
use proc_macro2::{Delimiter, Group, Ident, Literal, Punct, Spacing, Span, TokenStream, TokenTree};
use quote::ToTokens;
use syn::parse::Parser;
use syn::punctuated::Punctuated;
use syn::{Attribute, DeriveInput, Meta};
use crate::args::decimal;

verus! {

#[verifier::external_type_specification]
#[verifier::external_body]
pub struct ExTokenStream(proc_macro2::TokenStream);

#[verifier::external_type_specification]
#[verifier::external_body]
pub struct ExSynError(syn::Error);

#[verifier::external_type_specification]
#[verifier::external_body]
pub struct ExDeriveInput(syn::DeriveInput);

#[verifier::external_type_specification]
#[verifier::external_body]
pub struct ExAttribute(syn::Attribute);

pub assume_specification[ <proc_macro2::TokenStream as Clone>::clone ](
    ts: &proc_macro2::TokenStream,
) -> (r: proc_macro2::TokenStream)
    ensures
        atoms(r) == atoms(*ts),
        type_list_len(r) == type_list_len(*ts),
;

/// The delimiters of the groups this crate emits.
#[derive(Clone, Copy, Debug, PartialEq, Eq)]
pub enum Delim {
    Paren,
    Brace,
}

/// One element of a token stream read flat: a token (an identifier,
/// punctuation or a literal, by its text), or the opening or closing of a
/// group.
pub enum Atom {
    Token(Seq<char>),
    Open(Delim),
    Close,
}

/// The contents of a token stream, read flat.
pub uninterp spec fn atoms(ts: TokenStream) -> Seq<Atom>;

/// The number of comma-separated types the stream lists (a trailing comma
/// allowed), or `None` where it is not such a list.
pub uninterp spec fn type_list_len(ts: TokenStream) -> Option<nat>;

/// The tokens of the qualifier that gives a function the ABI called `name`.
pub uninterp spec fn abi_atoms(name: Seq<char>) -> Seq<Atom>;

/// The item that a stream parses into, or `None` where it does not parse
/// as an item a derive can be put on.
pub uninterp spec fn parsed_item(input: TokenStream) -> Option<DeriveInput>;

/// The name of an item, read flat.
pub uninterp spec fn item_name(ast: DeriveInput) -> Seq<Atom>;

/// The outer attributes of an item, in source order.
pub uninterp spec fn item_attrs(ast: DeriveInput) -> Seq<Attribute>;

/// An attribute's path, where that is a single identifier.
pub uninterp spec fn attr_path_ident(a: Attribute) -> Option<Seq<char>>;

/// What the library reads of a list of tokens: its contents, and how many
/// types it lists.
pub struct ListView {
    pub atoms: Seq<Atom>,
    pub types: Option<nat>,
}

pub open spec fn list_view(ts: TokenStream) -> ListView {
    ListView { atoms: atoms(ts), types: type_list_len(ts) }
}

/// The tokens inside an attribute's delimiters, where the attribute is of
/// the list form.
pub uninterp spec fn attr_list(a: Attribute) -> Option<ListView>;

/// A letter, digit or underscore.
pub open spec fn ident_char(c: char) -> bool {
    ('a' <= c && c <= 'z') || ('A' <= c && c <= 'Z') || ('0' <= c && c <= '9') || c == '_'
}

/// Text that is an identifier (or keyword): a letter, then letters, digits
/// and underscores.
pub open spec fn valid_ident(s: Seq<char>) -> bool {
    &&& s.len() > 0
    &&& ('a' <= s[0] && s[0] <= 'z') || ('A' <= s[0] && s[0] <= 'Z')
    &&& forall|i: int| 0 <= i < s.len() ==> ident_char(#[trigger] s[i])
}

/// A character that a punctuation token can be.
pub open spec fn punct_char(c: char) -> bool {
    c == '!' || c == '#' || c == '$' || c == '%' || c == '&' || c == '\'' || c == '*' || c == '+'
        || c == ',' || c == '-' || c == '.' || c == '/' || c == ':' || c == ';' || c == '<' || c
        == '=' || c == '>' || c == '?' || c == '@' || c == '^' || c == '|' || c == '~'
}

/// Relies on `proc_macro2::Ident::new`: the identifier `s`, as a one-token
/// stream. It panics on text that is not an identifier.
#[verifier::external_body]
pub(crate) fn ident_token(s: &str) -> (r: TokenStream)
    requires
        valid_ident(s@),
    ensures
        atoms(r) == seq![Atom::Token(s@)],
{
    TokenStream::from(TokenTree::Ident(Ident::new(s, Span::call_site())))
}

/// Relies on `proc_macro2::Punct::new`: the punctuation character `c`, joined
/// to the next token or not, as a one-token stream. It panics on any other
/// character.
#[verifier::external_body]
pub(crate) fn punct_token(c: char, joint: bool) -> (r: TokenStream)
    requires
        punct_char(c),
    ensures
        atoms(r) == seq![Atom::Token(seq![c])],
{
    let spacing = match joint {
        true => Spacing::Joint,
        false => Spacing::Alone,
    };
    TokenStream::from(TokenTree::Punct(Punct::new(c, spacing)))
}

/// Relies on `proc_macro2::Literal::usize_unsuffixed`: the integer literal
/// `n`, written in decimal without a suffix, as a one-token stream.
#[verifier::external_body]
pub(crate) fn index_token(n: usize) -> (r: TokenStream)
    ensures
        atoms(r) == seq![Atom::Token(decimal(n as nat))],
{
    TokenStream::from(TokenTree::Literal(Literal::usize_unsuffixed(n)))
}

/// Relies on `proc_macro2::TokenStream::new`: an empty stream.
#[verifier::external_body]
pub(crate) fn empty_stream() -> (r: TokenStream)
    ensures
        atoms(r) == Seq::<Atom>::empty(),
{
    TokenStream::new()
}

/// Relies on `<proc_macro2::TokenStream as Extend<TokenStream>>::extend`:
/// appends the tokens of `tail` to `dst`.
#[verifier::external_body]
pub(crate) fn append_stream(dst: &mut TokenStream, tail: TokenStream)
    ensures
        atoms(*final(dst)) == atoms(*old(dst)) + atoms(tail),
{
    dst.extend(std::iter::once(tail));
}

/// Relies on `proc_macro2::Group::new`: the stream wrapped in one group with
/// the given delimiter.
#[verifier::external_body]
pub(crate) fn grouped(delim: Delim, inner: TokenStream) -> (r: TokenStream)
    ensures
        atoms(r) == seq![Atom::Open(delim)] + atoms(inner) + seq![Atom::Close],
{
    let d = match delim {
        Delim::Paren => Delimiter::Parenthesis,
        Delim::Brace => Delimiter::Brace,
    };
    TokenStream::from(TokenTree::Group(Group::new(d, inner)))
}

/// Relies on `syn::Abi`'s `ToTokens` impl: the qualifier that gives a
/// function the ABI called `name`.
#[verifier::external_body]
pub(crate) fn abi_qualifier(name: &str) -> (r: TokenStream)
    ensures
        atoms(r) == abi_atoms(name@),
{
    let abi = syn::Abi {
        extern_token: Default::default(),
        name: Some(syn::LitStr::new(name, Span::call_site())),
    };
    abi.to_token_stream()
}

/// Relies on `syn::parse2::<DeriveInput>`: parses the item a derive is put on.
#[verifier::external_body]
pub(crate) fn parse_derive_input(input: TokenStream) -> (r: Result<DeriveInput, syn::Error>)
    ensures
        match r {
            Ok(ast) => parsed_item(input) == Some(ast),
            Err(_) => parsed_item(input) is None,
        },
{
    syn::parse2::<DeriveInput>(input)
}

/// Relies on the public field `DeriveInput::attrs`: the item's outer
/// attributes, in source order.
#[verifier::external_body]
pub(crate) fn input_attrs(ast: &DeriveInput) -> (r: &Vec<Attribute>)
    ensures
        r@ == item_attrs(*ast),
{
    &ast.attrs
}

/// Relies on `quote::ToTokens::to_token_stream` on `DeriveInput::ident`: the
/// name of the item, as a one-token stream.
#[verifier::external_body]
pub(crate) fn input_name(ast: &DeriveInput) -> (r: TokenStream)
    ensures
        atoms(r) == item_name(*ast),
{
    ast.ident.to_token_stream()
}

/// Relies on `syn::Path::get_ident` on the attribute's path: the path's
/// single identifier as text, or `None` where the path is anything else.
#[verifier::external_body]
pub(crate) fn attr_ident(attr: &Attribute) -> (r: Option<String>)
    ensures
        match r {
            Some(s) => attr_path_ident(*attr) == Some(s@),
            None => attr_path_ident(*attr) is None,
        },
{
    attr.path().get_ident().map(|id| id.to_string())
}

/// Relies on the public field `Attribute::meta`: for an attribute of the
/// list form `name(...)`, `name[...]` or `name{...}`, the tokens inside the
/// delimiters (`MetaList::tokens`); `None` for the other forms.
#[verifier::external_body]
pub(crate) fn attr_list_tokens(attr: &Attribute) -> (r: Option<TokenStream>)
    ensures
        match r {
            Some(t) => attr_list(*attr) == Some(list_view(t)),
            None => attr_list(*attr) is None,
        },
{
    match &attr.meta {
        Meta::List(list) => Some(list.tokens.clone()),
        Meta::Path(_) => None,
        Meta::NameValue(_) => None,
    }
}

/// Relies on `Punctuated::<syn::Type, Comma>::parse_terminated`: the number
/// of comma-separated types in the stream (a trailing comma allowed), or
/// syn's error where the stream is not such a list.
#[verifier::external_body]
pub(crate) fn type_count(ts: &TokenStream) -> (r: Result<usize, syn::Error>)
    ensures
        match r {
            Ok(n) => type_list_len(*ts) == Some(n as nat),
            Err(_) => type_list_len(*ts) is None,
        },
{
    Punctuated::<syn::Type, syn::token::Comma>::parse_terminated
        .parse2(ts.clone())
        .map(|list| list.len())
}

} // verus!
