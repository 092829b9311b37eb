//! Why a declaration was turned down.
//!
//! Every failure belongs to one declaration and ends its generation: there is
//! no partial output. A rejection names the piece of syntax it is about, so
//! that a caller can point at it.

use vstd::prelude::*;

verus! {

/// The reason for turning a declaration down, with the place it is about.
#[derive(Clone, Copy, Debug, PartialEq, Eq, Structural)]
pub enum Rejection {
    /// The trait-level annotation was given parameters; it takes none. About
    /// the parameter list.
    UnexpectedParameters,
    /// The text is not a declaration of the expected sort: it cannot be
    /// split into tokens, it holds a literal of a kind that the parser does
    /// not know, or the parser turns it down. The message says which, in
    /// the last case in the parser's words.
    Syntax,
    /// The trait declares a type, lifetime or const parameter. About the
    /// trait's generics clause.
    TraitGenerics,
    /// The trait holds an item that is no method. About that item, counted
    /// from zero in source order.
    NotAMethod { item: usize },
    /// A method does not start with a `&self` or `&mut self` receiver. About
    /// the method's first parameter, or about its name when it has none.
    InvalidReceiver { item: usize, at_parameter: bool },
    /// The declaration is an enum. About the `enum` keyword.
    EnumTarget,
    /// The declaration is a union. About the `union` keyword.
    UnionTarget,
    /// The argument of a field's marker is no module-style path. About the
    /// marker of that field, counted from zero. The message is the parser's.
    MalformedMarker { field: usize },
}

/// A rejection with the message that goes to the user.
#[derive(Clone, Debug, PartialEq, Eq)]
pub struct Diagnostic {
    pub rejection: Rejection,
    pub message: String,
}

/// The message of a rejection that has a fixed one; empty for the two whose
/// message depends on the text that was turned down.
pub open spec fn fixed_message(rejection: Rejection) -> Seq<char> {
    match rejection {
        Rejection::UnexpectedParameters => "Unexpected parameter(s)"@,
        Rejection::Syntax => Seq::empty(),
        Rejection::TraitGenerics => "Trait generics are not supported (yet)"@,
        Rejection::NotAMethod { .. } => "`#[inheritable]` currently only supports methods"@,
        Rejection::InvalidReceiver { .. } =>
            "associated function requires a `&self` or `&mut self` receiver"@,
        Rejection::EnumTarget => "enums are not supported"@,
        Rejection::UnionTarget => "unions are not supported"@,
        Rejection::MalformedMarker { .. } => Seq::empty(),
    }
}

/// What a generator hands back, as mathematics: the generated text, or the
/// rejection with its message.
pub open spec fn outcome(result: Result<String, Diagnostic>) -> Result<
    Seq<char>,
    (Rejection, Seq<char>),
> {
    match result {
        Ok(text) => Ok(text@),
        Err(diagnostic) => Err((diagnostic.rejection, diagnostic.message@)),
    }
}

impl Diagnostic {
    /// The diagnostic of a rejection whose message is fixed.
    pub fn fixed(rejection: Rejection) -> (r: Diagnostic)
        ensures
            r.rejection == rejection,
            r.message@ == fixed_message(rejection),
    {
        let message = match rejection {
            Rejection::UnexpectedParameters => String::from_str("Unexpected parameter(s)"),
            Rejection::Syntax => String::new(),
            Rejection::TraitGenerics => String::from_str("Trait generics are not supported (yet)"),
            Rejection::NotAMethod { .. } => String::from_str(
                "`#[inheritable]` currently only supports methods",
            ),
            Rejection::InvalidReceiver { .. } => String::from_str(
                "associated function requires a `&self` or `&mut self` receiver",
            ),
            Rejection::EnumTarget => String::from_str("enums are not supported"),
            Rejection::UnionTarget => String::from_str("unions are not supported"),
            Rejection::MalformedMarker { .. } => String::new(),
        };
        Diagnostic { rejection, message }
    }

    /// The diagnostic of a rejection that the parser explained.
    pub fn explained(rejection: Rejection, message: String) -> (r: Diagnostic)
        ensures
            r.rejection == rejection,
            r.message == message,
    {
        Diagnostic { rejection, message }
    }
}

} // verus!
