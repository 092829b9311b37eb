//! Which texts can be handed to the parser.
//!
//! The parser reads every literal it meets, and gives up on the spot, not
//! with an error, when it meets one of a kind it does not know. The lexer
//! knows more kinds than the parser: C strings, and the mark that a
//! compiler leaves where a macro failed. So a text is split into tokens
//! first, every literal in it is looked at, at any depth of brackets, and
//! only a text whose literals the parser knows goes on to the parser. Any
//! other is turned down as a syntax error.

use crate::diagnostic::{Diagnostic, Rejection};
use crate::syntax::{
    error_message, error_text, lex, lex_failure, lex_failure_of, lexed, stream_trees,
    stream_trees_of, tree_group, tree_group_of, tree_literal, tree_literal_of,
};
use crate::text::reads_as;
use vstd::prelude::*;

verus! {

/// Whether `c` is one of the ten digits.
pub open spec fn is_digit(c: char) -> bool {
    '0' <= c && c <= '9'
}

/// Whether the parser knows the kind of a literal by the way its text
/// starts: a string (`"`, or `r` for a raw one), a byte string (`b"`,
/// `br`), a byte (`b'`), a character (`'`), a number (a digit), or one of
/// the words `true` and `false`.
pub open spec fn literal_known(text: Seq<char>) -> bool {
    text.len() > 0 && {
        ||| text[0] == '"'
        ||| text[0] == 'r'
        ||| text[0] == '\''
        ||| is_digit(text[0])
        ||| (text[0] == 'b' && text.len() > 1 && (text[1] == '"' || text[1] == 'r' || text[1]
            == '\''))
        ||| text == "true"@
        ||| text == "false"@
    }
}

/// Whether a tree can be handed to the parser: as a literal it is of a
/// known kind; as a group it holds a stream that can be handed on, and is
/// nested no deeper than `depth`.
pub open spec fn tree_readable(tree: proc_macro2::TokenTree, depth: nat) -> bool
    decreases depth, 0nat,
{
    &&& tree_literal_of(tree) matches Some(text) ==> literal_known(text)
    &&& tree_group_of(tree) matches Some(inner) ==> depth > 0 && stream_readable(
        inner,
        (depth - 1) as nat,
    )
}

/// Whether a stream can be handed to the parser: every tree in it can, with
/// brackets nested no deeper than `depth`.
pub open spec fn stream_readable(tokens: proc_macro2::TokenStream, depth: nat) -> bool
    decreases depth, 1nat,
{
    forall|i: int|
        0 <= i < stream_trees_of(tokens).len() ==> tree_readable(
            #[trigger] stream_trees_of(tokens)[i],
            depth,
        )
}

/// The message for a text that holds a literal of a kind the parser does
/// not know.
pub open spec fn unknown_literal_message() -> Seq<char> {
    "literal of a kind that is not supported"@
}

/// The tokens of a text that can be handed to the parser, or why the text
/// is turned down: it cannot be split into tokens, or it holds a literal of
/// a kind the parser does not know. Brackets are followed as deep as the
/// text is long, which is deeper than they can be nested in it.
pub open spec fn readable_tokens(input: Seq<char>) -> Result<
    proc_macro2::TokenStream,
    (Rejection, Seq<char>),
> {
    match lexed(input) {
        Err(error) => Err((Rejection::Syntax, error_text(lex_failure_of(error)))),
        Ok(tokens) => if stream_readable(tokens, input.len()) {
            Ok(tokens)
        } else {
            Err((Rejection::Syntax, unknown_literal_message()))
        },
    }
}

/// Whether the parser knows the kind of a literal with this text.
pub fn known_literal(text: &str) -> (r: bool)
    ensures
        r == literal_known(text@),
{
    let n = text.unicode_len();
    if n == 0 {
        return false;
    }
    let first = text.get_char(0);
    if first == '"' || first == 'r' || first == '\'' || ('0' <= first && first <= '9') {
        return true;
    }
    if first == 'b' && n > 1 {
        let second = text.get_char(1);
        if second == '"' || second == 'r' || second == '\'' {
            return true;
        }
    }
    let owned = String::from_str(text);
    reads_as(&owned, "true") || reads_as(&owned, "false")
}

/// Whether a tree can be handed to the parser.
pub fn tree_is_readable(tree: &proc_macro2::TokenTree, depth: usize) -> (r: bool)
    ensures
        r == tree_readable(*tree, depth as nat),
    decreases depth, 0nat,
{
    match tree_literal(tree) {
        Some(text) => {
            if !known_literal(text.as_str()) {
                return false;
            }
        },
        None => {},
    }
    match tree_group(tree) {
        Some(inner) => depth > 0 && stream_is_readable(&inner, depth - 1),
        None => true,
    }
}

/// Whether a stream can be handed to the parser.
pub fn stream_is_readable(tokens: &proc_macro2::TokenStream, depth: usize) -> (r: bool)
    ensures
        r == stream_readable(*tokens, depth as nat),
    decreases depth, 1nat,
{
    let trees = stream_trees(tokens);
    let n = trees.len();
    let mut i: usize = 0;
    while i < n
        invariant
            trees@ == stream_trees_of(*tokens),
            n == trees@.len(),
            i <= n,
            forall|k: int| 0 <= k < i ==> tree_readable(#[trigger] trees@[k], depth as nat),
        decreases n - i,
    {
        if !tree_is_readable(&trees[i], depth) {
            return false;
        }
        i = i + 1;
    }
    true
}

/// Splits a text into tokens and looks at its literals.
pub fn read_tokens(input: &str) -> (r: Result<proc_macro2::TokenStream, Diagnostic>)
    ensures
        r matches Ok(tokens) ==> readable_tokens(input@) == Ok::<
            proc_macro2::TokenStream,
            (Rejection, Seq<char>),
        >(tokens) && stream_readable(tokens, input@.len()),
        r matches Err(d) ==> readable_tokens(input@) == Err::<
            proc_macro2::TokenStream,
            (Rejection, Seq<char>),
        >((d.rejection, d.message@)),
{
    match lex(input) {
        Err(error) => {
            let complaint = lex_failure(error);
            Err(Diagnostic::explained(Rejection::Syntax, error_message(&complaint)))
        },
        Ok(tokens) => {
            if stream_is_readable(&tokens, input.unicode_len()) {
                Ok(tokens)
            } else {
                Err(
                    Diagnostic::explained(
                        Rejection::Syntax,
                        String::from_str("literal of a kind that is not supported"),
                    ),
                )
            }
        },
    }
}

} // verus!
