//! Declarations as the generators read them.
//!
//! A declaration is held as plain values: the facts that the rules look at,
//! and the text of each piece of syntax that is copied into the output.

use crate::naming::ReceiverKind;
use vstd::prelude::*;

verus! {

/// How a parameter is written.
#[derive(Clone, Copy, Debug, PartialEq, Eq, Structural)]
pub enum ParamShape {
    /// The `self` shorthand: `self`, `mut self`, `&self`, `&'a mut self`.
    Shorthand { reference: bool, mutable: bool },
    /// A pattern and a type. `binds_self` says that the pattern is the
    /// identifier `self`; `reference` that the type is a reference;
    /// `mutable` that this reference is a mutable one; `to_self` that it
    /// is a reference to `Self`.
    Typed { binds_self: bool, reference: bool, mutable: bool, to_self: bool },
}

impl ParamShape {
    /// The kind of receiver that a parameter of this shape is, if it is a
    /// reference-style receiver at all: `&self` or `&mut self`, with or
    /// without a lifetime, or `self` typed as `&Self` or `&mut Self`.
    pub open spec fn as_receiver(self) -> Option<ReceiverKind> {
        match self {
            ParamShape::Shorthand { reference, mutable } => if reference {
                Some(kind_of(mutable))
            } else {
                None
            },
            ParamShape::Typed { binds_self, reference, mutable, to_self } => if binds_self
                && reference && to_self {
                Some(kind_of(mutable))
            } else {
                None
            },
        }
    }

    /// The kind of receiver that a parameter of this shape is, if any.
    pub fn receiver(&self) -> (r: Option<ReceiverKind>)
        ensures
            r == self.as_receiver(),
    {
        match *self {
            ParamShape::Shorthand { reference, mutable } => if reference {
                Some(receiver_kind(mutable))
            } else {
                None
            },
            ParamShape::Typed { binds_self, reference, mutable, to_self } => if binds_self
                && reference && to_self {
                Some(receiver_kind(mutable))
            } else {
                None
            },
        }
    }
}

/// The receiver kind of a reference that is or is not mutable.
pub open spec fn kind_of(mutable: bool) -> ReceiverKind {
    if mutable {
        ReceiverKind::Mutable
    } else {
        ReceiverKind::Shared
    }
}

/// The receiver kind of a reference that is or is not mutable.
pub fn receiver_kind(mutable: bool) -> (r: ReceiverKind)
    ensures
        r == kind_of(mutable),
{
    if mutable {
        ReceiverKind::Mutable
    } else {
        ReceiverKind::Shared
    }
}

/// One parameter of a method.
#[derive(Clone, Debug, PartialEq, Eq)]
pub struct Param {
    pub shape: ParamShape,
    /// The parameter's attributes, each followed by a space.
    pub attributes: String,
    /// The parameter's type; empty for the `self` shorthand.
    pub ty: String,
    /// The whole parameter as the declaration has it.
    pub written: String,
}

/// A parameter, as mathematics.
pub struct ParamView {
    pub shape: ParamShape,
    pub attributes: Seq<char>,
    pub ty: Seq<char>,
    pub written: Seq<char>,
}

impl View for Param {
    type V = ParamView;

    open spec fn view(&self) -> ParamView {
        ParamView {
            shape: self.shape,
            attributes: self.attributes@,
            ty: self.ty@,
            written: self.written@,
        }
    }
}

/// The signature of one method of a trait.
#[derive(Clone, Debug, PartialEq, Eq)]
pub struct MethodSig {
    pub name: String,
    /// What stands before `fn` (`const`, `async`, `unsafe`, an ABI), each
    /// word followed by a space.
    pub qualifiers: String,
    /// The method's own generic parameters in angle brackets, or nothing.
    pub generics: String,
    /// The same parameters as arguments of a call: `::<T>`, or nothing.
    pub turbofish: String,
    /// The parameters in order, the receiver included.
    pub params: Vec<Param>,
    /// A trailing `...`, or nothing.
    pub variadic: String,
    /// The arrow and the return type, or nothing.
    pub output: String,
    /// The method's `where` clause, or nothing.
    pub where_clause: String,
}

/// A method signature, as mathematics.
pub struct MethodView {
    pub name: Seq<char>,
    pub qualifiers: Seq<char>,
    pub generics: Seq<char>,
    pub turbofish: Seq<char>,
    pub params: Seq<ParamView>,
    pub variadic: Seq<char>,
    pub output: Seq<char>,
    pub where_clause: Seq<char>,
}

impl View for MethodSig {
    type V = MethodView;

    open spec fn view(&self) -> MethodView {
        MethodView {
            name: self.name@,
            qualifiers: self.qualifiers@,
            generics: self.generics@,
            turbofish: self.turbofish@,
            params: self.params@.map_values(|p: Param| p@),
            variadic: self.variadic@,
            output: self.output@,
            where_clause: self.where_clause@,
        }
    }
}

impl MethodView {
    /// The kind of the receiver that the method starts with, if it starts
    /// with a reference-style receiver.
    pub open spec fn receiver(self) -> Option<ReceiverKind> {
        if self.params.len() == 0 {
            None
        } else {
            self.params[0].shape.as_receiver()
        }
    }
}

impl MethodSig {
    /// The kind of the receiver that the method starts with, if any.
    pub fn receiver(&self) -> (r: Option<ReceiverKind>)
        ensures
            r == self@.receiver(),
    {
        if self.params.len() == 0 {
            None
        } else {
            self.params[0].shape.receiver()
        }
    }
}

/// One item in the body of a trait.
#[derive(Clone, Debug, PartialEq, Eq)]
pub enum TraitItem {
    Method(MethodSig),
    /// An associated constant or type, a macro call, or anything else.
    Other,
}

/// An item of a trait, as mathematics.
pub enum TraitItemView {
    Method(MethodView),
    Other,
}

impl View for TraitItem {
    type V = TraitItemView;

    open spec fn view(&self) -> TraitItemView {
        match self {
            TraitItem::Method(m) => TraitItemView::Method(m@),
            TraitItem::Other => TraitItemView::Other,
        }
    }
}

/// A trait declaration.
#[derive(Clone, Debug, PartialEq, Eq)]
pub struct TraitDecl {
    pub name: String,
    /// How many type, lifetime and const parameters the trait declares.
    pub generic_params: usize,
    /// The items of the trait's body in source order.
    pub items: Vec<TraitItem>,
}

/// A trait declaration, as mathematics.
pub struct TraitView {
    pub name: Seq<char>,
    pub generic_params: nat,
    pub items: Seq<TraitItemView>,
}

impl View for TraitDecl {
    type V = TraitView;

    open spec fn view(&self) -> TraitView {
        TraitView {
            name: self.name@,
            generic_params: self.generic_params as nat,
            items: self.items@.map_values(|i: TraitItem| i@),
        }
    }
}

} // verus!
