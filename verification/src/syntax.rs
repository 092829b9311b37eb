//! The boundary to the host-language lexer and parser: what both generators
//! need.
//!
//! Parsing and printing of declarations is the work of `syn`, `quote` and
//! `proc-macro2`. Nothing in the three boundary files is proved: each
//! function there makes one call into these crates, or picks fields of one
//! of their values, and its contract gives what comes back a name. A name
//! is a function of its arguments because the crates are built without
//! their `proc-macro` feature: they lex and print with their own code, the
//! same in every process, and never with a compiler's.

use vstd::prelude::*;

verus! {

/// `proc_macro2::TokenStream`, a sequence of tokens. Opaque: proofs see
/// nothing inside it.
#[verifier::external_type_specification]
#[verifier::external_body]
pub struct ExTokenStream(proc_macro2::TokenStream);

/// `proc_macro2::LexError`, the failure to split a text into tokens. Opaque.
#[verifier::external_type_specification]
#[verifier::external_body]
pub struct ExLexError(proc_macro2::LexError);

/// `proc_macro2::TokenTree`, one token or one bracketed group of tokens.
/// Opaque.
#[verifier::external_type_specification]
#[verifier::external_body]
pub struct ExTokenTree(proc_macro2::TokenTree);

/// `syn::Error`, the parser's complaint. Opaque; its message is read by
/// `error_message`.
#[verifier::external_type_specification]
#[verifier::external_body]
pub struct ExSynError(syn::Error);

/// The tokens that `text` is made of, or why it cannot be split into tokens.
pub uninterp spec fn lexed(text: Seq<char>) -> Result<proc_macro2::TokenStream, proc_macro2::LexError>;

/// Calls `proc_macro2::TokenStream::from_str`. Trusted: what it gives for a
/// text is `lexed` of that text.
#[verifier::external_body]
pub(crate) fn lex(text: &str) -> (r: Result<proc_macro2::TokenStream, proc_macro2::LexError>)
    ensures
        r == lexed(text@),
{
    <proc_macro2::TokenStream as core::str::FromStr>::from_str(text)
}

/// Whether a stream holds no token.
pub uninterp spec fn stream_is_empty(tokens: proc_macro2::TokenStream) -> bool;

/// Calls `proc_macro2::TokenStream::is_empty`. Trusted: the answer is
/// `stream_is_empty` of the stream.
#[verifier::external_body]
pub(crate) fn tokens_empty(tokens: &proc_macro2::TokenStream) -> (r: bool)
    ensures
        r == stream_is_empty(*tokens),
{
    tokens.is_empty()
}

/// The message of a parser's error.
pub uninterp spec fn error_text(error: syn::Error) -> Seq<char>;

/// Calls `to_string` on a `syn::Error`, whose `Display` writes the error's
/// first message. Trusted: the text is `error_text` of the error.
#[verifier::external_body]
pub(crate) fn error_message(error: &syn::Error) -> (r: String)
    ensures
        r@ == error_text(*error),
{
    error.to_string()
}

/// The parser's complaint about a text that cannot be split into tokens.
pub uninterp spec fn lex_failure_of(error: proc_macro2::LexError) -> syn::Error;

/// Calls `syn::Error::from` on a `proc_macro2::LexError`, as `syn::parse_str`
/// does when lexing fails. Trusted: the complaint is `lex_failure_of` of
/// the failure.
#[verifier::external_body]
pub(crate) fn lex_failure(error: proc_macro2::LexError) -> (r: syn::Error)
    ensures
        r == lex_failure_of(error),
{
    syn::Error::from(error)
}

/// The tokens and groups that a stream holds at its top, in order.
pub uninterp spec fn stream_trees_of(tokens: proc_macro2::TokenStream) -> Seq<
    proc_macro2::TokenTree,
>;

/// Calls `into_iter` on a copy of the stream and collects what comes.
/// Trusted: the trees are `stream_trees_of` of the stream.
#[verifier::external_body]
pub(crate) fn stream_trees(tokens: &proc_macro2::TokenStream) -> (r: Vec<proc_macro2::TokenTree>)
    ensures
        r@ == stream_trees_of(*tokens),
{
    tokens.clone().into_iter().collect()
}

/// The text of a tree that is a literal, as the literal prints itself.
pub uninterp spec fn tree_literal_of(tree: proc_macro2::TokenTree) -> Option<Seq<char>>;

/// Tells `TokenTree::Literal` from the other variants and calls `to_string`
/// on the literal. Trusted: the answer is `tree_literal_of` of the tree.
#[verifier::external_body]
pub(crate) fn tree_literal(tree: &proc_macro2::TokenTree) -> (r: Option<String>)
    ensures
        r is Some <==> tree_literal_of(*tree) is Some,
        r matches Some(text) ==> tree_literal_of(*tree) == Some(text@),
{
    match tree {
        proc_macro2::TokenTree::Literal(literal) => Some(literal.to_string()),
        _ => None,
    }
}

/// The stream between the brackets of a tree that is a group.
pub uninterp spec fn tree_group_of(tree: proc_macro2::TokenTree) -> Option<
    proc_macro2::TokenStream,
>;

/// Tells `TokenTree::Group` from the other variants and calls
/// `Group::stream`. Trusted: the answer is `tree_group_of` of the tree.
#[verifier::external_body]
pub(crate) fn tree_group(tree: &proc_macro2::TokenTree) -> (r: Option<proc_macro2::TokenStream>)
    ensures
        r == tree_group_of(*tree),
{
    match tree {
        proc_macro2::TokenTree::Group(group) => Some(group.stream()),
        _ => None,
    }
}

} // verus!
