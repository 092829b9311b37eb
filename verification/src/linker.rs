//! The struct linker.
//!
//! For every field of a struct that carries a delegation marker it makes an
//! implementation of the linkage trait of the trait that the marker names:
//! the parent type is the field's type, and the two accessors borrow the
//! field. A field without a marker gets nothing.
//!
//! Whether a marker names a trait that was ever annotated, and whether two
//! fields delegate the same trait, is not looked at: the implementations
//! are written all the same, and the host compiler turns down a linkage
//! trait that does not exist or is implemented twice.

use crate::diagnostic::{Diagnostic, fixed_message, outcome, Rejection};
use crate::literals::{read_tokens, readable_tokens};
use crate::naming::{linkage_name, push_linkage_name};
use crate::struct_reader::{read_struct, struct_of};
use crate::structure::{
    FieldAttributeView, FieldsForm, Marker, MarkerView, StructDecl, StructField,
    StructFieldView, StructView, TargetKind, TraitPath, TraitPathView,
};
use crate::text::{decimal, led, push_decimal, push_led, push_spaced, spaced, word_if};
use crate::syntax::{error_message, error_text};
use crate::struct_syntax::{parse_struct, parsed_struct};
use vstd::prelude::*;

verus! {

/// The marker of the first attribute at or after position `from` that is a
/// delegation marker. Later markers on the same field are not looked at.
pub open spec fn first_marker(attributes: Seq<FieldAttributeView>, from: nat) -> Option<MarkerView>
    decreases attributes.len() - from,
{
    if from >= attributes.len() {
        None
    } else if attributes[from as int].marker is Some {
        attributes[from as int].marker
    } else {
        first_marker(attributes, from + 1)
    }
}

/// How the field at position `index` is reached from the struct: by its
/// name, or by its position if it has none.
pub open spec fn field_place(field: StructFieldView, index: nat) -> Seq<char> {
    match field.name {
        Some(name) => name,
        None => decimal(index),
    }
}

/// The first `upto` segments of a path's qualifier, each followed by `::`.
pub open spec fn qualifier_text(qualifier: Seq<Seq<char>>, upto: nat) -> Seq<char>
    decreases upto,
{
    if upto == 0 {
        Seq::empty()
    } else {
        qualifier_text(qualifier, (upto - 1) as nat) + qualifier[upto - 1] + "::"@
    }
}

/// The path of the linkage trait of the trait at `path`: the same path with
/// its last segment replaced by the linkage trait's name.
pub open spec fn linkage_path(path: TraitPathView) -> Seq<char> {
    word_if(path.leading_colon, "::"@) + qualifier_text(path.qualifier, path.qualifier.len())
        + linkage_name(path.name)
}

/// The header of a linking implementation: the linkage trait of the trait
/// at `path`, implemented for the struct `s`, with the struct's generic
/// parameters and `where` clause carried over.
pub open spec fn linkage_header(s: StructView, path: TraitPathView) -> Seq<char> {
    "impl"@ + s.impl_generics + " "@ + linkage_path(path) + " for "@ + s.name + s.type_generics
        + led(s.where_clause)
}

/// The two accessors of a linking implementation: each borrows the field at
/// `place`, the first to read, the second to change.
pub open spec fn accessors(place: Seq<char>) -> Seq<char> {
    "#[inline] fn __parent__(self: &'_ Self) -> &'_ Self::__Parent__ { &self."@ + place
        + " } #[inline] fn __parent_mut__(self: &'_ mut Self) -> &'_ mut Self::__Parent__ { &mut self."@
        + place + " }"@
}

/// The implementation that links the struct `s` to its field `field` at
/// position `index` as the parent for the trait at `path`: the parent type
/// is the field's type, and the accessors borrow the field.
pub open spec fn linkage_impl(s: StructView, field: StructFieldView, index: nat, path: TraitPathView)
    -> Seq<char> {
    linkage_header(s, path) + " { type __Parent__ = "@ + field.ty + "; "@ + accessors(
        field_place(field, index),
    ) + " }\n"@
}

/// What the field at position `index` adds: nothing without a marker, the
/// linking implementation with a marker that holds a path, a rejection with
/// a marker that holds something else.
pub open spec fn field_link(s: StructView, index: nat) -> Result<
    Seq<char>,
    (Rejection, Seq<char>),
> {
    let field = s.fields[index as int];
    match first_marker(field.attributes, 0) {
        None => Ok(Seq::empty()),
        Some(MarkerView::Path(path)) => Ok(linkage_impl(s, field, index, path)),
        Some(MarkerView::Malformed(message)) => Err(
            (Rejection::MalformedMarker { field: index as usize }, message),
        ),
    }
}

/// What the first `upto` fields add, in order; the first rejection ends it.
pub open spec fn field_links(s: StructView, upto: nat) -> Result<Seq<char>, (Rejection, Seq<char>)>
    decreases upto,
{
    if upto == 0 {
        Ok(Seq::empty())
    } else {
        match field_links(s, (upto - 1) as nat) {
            Err(rejected) => Err(rejected),
            Ok(text) => match field_link(s, (upto - 1) as nat) {
                Err(rejected) => Err(rejected),
                Ok(more) => Ok(text + more),
            },
        }
    }
}

/// What linking a declaration comes to: an enum or a union is turned down;
/// a struct gets the linking implementations of its marked fields.
pub open spec fn linkage(s: StructView) -> Result<Seq<char>, (Rejection, Seq<char>)> {
    match s.kind {
        TargetKind::Enum => Err((Rejection::EnumTarget, fixed_message(Rejection::EnumTarget))),
        TargetKind::Union => Err((Rejection::UnionTarget, fixed_message(Rejection::UnionTarget))),
        TargetKind::Struct => field_links(s, s.fields.len()),
    }
}

/// Once a field is turned down, the fields after it change nothing.
pub proof fn lemma_rejection_ends_linking(s: StructView, at: nat, upto: nat)
    requires
        at <= upto,
        field_links(s, at) is Err,
    ensures
        field_links(s, upto) == field_links(s, at),
    decreases upto,
{
    if at < upto {
        lemma_rejection_ends_linking(s, at, (upto - 1) as nat);
    }
}

/// The first delegation marker of a field.
pub fn find_marker(field: &StructField) -> (r: Option<&Marker>)
    ensures
        r matches Some(marker) ==> first_marker(field@.attributes, 0) == Some(marker@),
        r is None ==> first_marker(field@.attributes, 0) is None,
{
    let n = field.attributes.len();
    let mut i: usize = 0;
    while i < n
        invariant
            n == field.attributes@.len(),
            n == field@.attributes.len(),
            i <= n,
            first_marker(field@.attributes, 0) == first_marker(field@.attributes, i as nat),
        decreases n - i,
    {
        assert(field@.attributes[i as int] == field.attributes@[i as int]@);
        match &field.attributes[i].marker {
            Some(marker) => {
                return Some(marker);
            },
            None => {},
        }
        i = i + 1;
    }
    None
}

/// Appends the path of the linkage trait of the trait at `path`.
fn push_linkage_path(out: &mut String, path: &TraitPath)
    ensures
        final(out)@ == old(out)@ + linkage_path(path@),
{
    if path.leading_colon {
        out.append("::");
    }
    let ghost head = out@;
    assert(head =~= old(out)@ + word_if(path@.leading_colon, "::"@));
    let n = path.qualifier.len();
    let mut i: usize = 0;
    assert(out@ =~= head + qualifier_text(path@.qualifier, 0));
    while i < n
        invariant
            n == path.qualifier@.len(),
            n == path@.qualifier.len(),
            i <= n,
            out@ == head + qualifier_text(path@.qualifier, i as nat),
        decreases n - i,
    {
        assert(path@.qualifier[i as int] == path.qualifier@[i as int]@);
        out.append(path.qualifier[i].as_str());
        out.append("::");
        i = i + 1;
        assert(out@ =~= head + qualifier_text(path@.qualifier, i as nat));
    }
    push_linkage_name(out, path.name.as_str());
    assert(out@ =~= old(out)@ + linkage_path(path@));
}

/// Appends how the field at position `index` is reached from the struct.
fn push_field_place(out: &mut String, field: &StructField, index: usize)
    ensures
        final(out)@ == old(out)@ + field_place(field@, index as nat),
{
    match &field.name {
        Some(name) => {
            out.append(name.as_str());
        },
        None => {
            push_decimal(out, index);
        },
    }
}

/// Appends the header of a linking implementation.
fn push_linkage_header(out: &mut String, decl: &StructDecl, path: &TraitPath)
    ensures
        final(out)@ == old(out)@ + linkage_header(decl@, path@),
{
    out.append("impl");
    out.append(decl.impl_generics.as_str());
    out.append(" ");
    let ghost head = out@;
    assert(head =~= old(out)@ + ("impl"@ + decl@.impl_generics + " "@));
    push_linkage_path(out, path);
    out.append(" for ");
    out.append(decl.name.as_str());
    out.append(decl.type_generics.as_str());
    push_led(out, decl.where_clause.as_str());
    assert(out@ =~= old(out)@ + linkage_header(decl@, path@));
}

/// Appends the two accessors that borrow the field at position `index`.
fn push_accessors(out: &mut String, field: &StructField, index: usize)
    ensures
        final(out)@ == old(out)@ + accessors(field_place(field@, index as nat)),
{
    out.append("#[inline] fn __parent__(self: &'_ Self) -> &'_ Self::__Parent__ { &self.");
    push_field_place(out, field, index);
    out.append(
        " } #[inline] fn __parent_mut__(self: &'_ mut Self) -> &'_ mut Self::__Parent__ { &mut self.",
    );
    push_field_place(out, field, index);
    out.append(" }");
    assert(out@ =~= old(out)@ + accessors(field_place(field@, index as nat)));
}

/// Appends the implementation that links `decl` to its field at `index`.
fn push_linkage_impl(out: &mut String, decl: &StructDecl, index: usize, path: &TraitPath)
    requires
        index < decl.fields@.len(),
    ensures
        final(out)@ == old(out)@ + linkage_impl(
            decl@,
            decl@.fields[index as int],
            index as nat,
            path@,
        ),
{
    let field = &decl.fields[index];
    assert(decl@.fields[index as int] == field@);
    push_linkage_header(out, decl, path);
    out.append(" { type __Parent__ = ");
    out.append(field.ty.as_str());
    out.append("; ");
    push_accessors(out, field, index);
    out.append(" }\n");
    assert(out@ =~= old(out)@ + linkage_impl(decl@, field@, index as nat, path@));
}

/// Links a declaration: the implementations of the linkage traits for the
/// marked fields of a struct, in the order of the fields.
pub fn link(decl: &StructDecl) -> (r: Result<String, Diagnostic>)
    ensures
        outcome(r) == linkage(decl@),
{
    match decl.kind {
        TargetKind::Enum => {
            return Err(Diagnostic::fixed(Rejection::EnumTarget));
        },
        TargetKind::Union => {
            return Err(Diagnostic::fixed(Rejection::UnionTarget));
        },
        TargetKind::Struct => {},
    }
    let mut out = String::new();
    let n = decl.fields.len();
    let mut i: usize = 0;
    while i < n
        invariant
            n == decl.fields@.len(),
            n == decl@.fields.len(),
            i <= n,
            decl@.kind == TargetKind::Struct,
            field_links(decl@, i as nat) == Ok::<Seq<char>, (Rejection, Seq<char>)>(out@),
        decreases n - i,
    {
        assert(decl@.fields[i as int] == decl.fields@[i as int]@);
        let ghost before = out@;
        match find_marker(&decl.fields[i]) {
            None => {
                assert(out@ =~= before + Seq::<char>::empty());
            },
            Some(Marker::Path(path)) => {
                push_linkage_impl(&mut out, decl, i, path);
            },
            Some(Marker::Malformed(message)) => {
                proof {
                    let rejected = (Rejection::MalformedMarker { field: i }, message@);
                    assert(field_link(decl@, i as nat) == Err::<
                        Seq<char>,
                        (Rejection, Seq<char>),
                    >(rejected));
                    assert(field_links(decl@, (i + 1) as nat) == Err::<
                        Seq<char>,
                        (Rejection, Seq<char>),
                    >(rejected));
                    lemma_rejection_ends_linking(decl@, (i + 1) as nat, n as nat);
                }
                let diagnostic = Diagnostic::explained(
                    Rejection::MalformedMarker { field: i },
                    message.clone(),
                );
                return Err(diagnostic);
            },
        }
        i = i + 1;
    }
    Ok(out)
}

/// The first `upto` attributes of a field without the delegation markers
/// among them, each followed by a space.
pub open spec fn kept_attributes(attributes: Seq<FieldAttributeView>, upto: nat) -> Seq<char>
    decreases upto,
{
    if upto == 0 {
        Seq::empty()
    } else {
        kept_attributes(attributes, (upto - 1) as nat) + word_if(
            attributes[upto - 1].marker is None,
            attributes[upto - 1].written + " "@,
        )
    }
}

/// A field without its delegation markers: its other attributes, its
/// visibility, its name if it has one, and its type.
pub open spec fn stripped_field(field: StructFieldView) -> Seq<char> {
    kept_attributes(field.attributes, field.attributes.len()) + spaced(field.visibility)
        + match field.name {
        Some(name) => name + ": "@,
        None => Seq::empty(),
    } + field.ty
}

/// The first `upto` fields without their delegation markers, in order,
/// with commas between them.
pub open spec fn stripped_fields(fields: Seq<StructFieldView>, upto: nat) -> Seq<char>
    decreases upto,
{
    if upto == 0 {
        Seq::empty()
    } else if upto == 1 {
        stripped_field(fields[0])
    } else {
        stripped_fields(fields, (upto - 1) as nat) + ", "@ + stripped_field(fields[upto - 1])
    }
}

/// The fields of a struct without their delegation markers, with what
/// stands around them: braces after the `where` clause, parentheses before
/// it, or the `where` clause alone.
pub open spec fn stripped_body(s: StructView) -> Seq<char> {
    match s.form {
        FieldsForm::Named => led(s.where_clause) + " { "@ + stripped_fields(
            s.fields,
            s.fields.len(),
        ) + " }"@,
        FieldsForm::Tuple => "("@ + stripped_fields(s.fields, s.fields.len()) + ")"@ + led(
            s.where_clause,
        ) + ";"@,
        FieldsForm::Unit => led(s.where_clause) + ";"@,
    }
}

/// The declaration of a struct without the delegation markers of its
/// fields, and otherwise as it was: attributes, visibility, name, generic
/// parameters, `where` clause and fields.
pub open spec fn stripped_struct(s: StructView) -> Seq<char> {
    s.attributes + spaced(s.visibility) + "struct "@ + s.name + s.generics + stripped_body(s)
        + "\n"@
}

/// What a struct declaration becomes: an enum or a union is turned down; a
/// struct is written without its markers, and the implementations that
/// link it to its marked fields follow.
pub open spec fn linked_declaration(s: StructView) -> Result<Seq<char>, (Rejection, Seq<char>)> {
    match linkage(s) {
        Err(rejected) => Err(rejected),
        Ok(links) => Ok(stripped_struct(s) + links),
    }
}

/// Appends a field without its delegation markers.
fn push_stripped_field(out: &mut String, field: &StructField)
    ensures
        final(out)@ == old(out)@ + stripped_field(field@),
{
    let n = field.attributes.len();
    let mut i: usize = 0;
    assert(out@ =~= old(out)@ + kept_attributes(field@.attributes, 0));
    while i < n
        invariant
            n == field.attributes@.len(),
            n == field@.attributes.len(),
            i <= n,
            out@ == old(out)@ + kept_attributes(field@.attributes, i as nat),
        decreases n - i,
    {
        assert(field@.attributes[i as int] == field.attributes@[i as int]@);
        if field.attributes[i].marker.is_none() {
            out.append(field.attributes[i].written.as_str());
            out.append(" ");
        }
        i = i + 1;
        assert(out@ =~= old(out)@ + kept_attributes(field@.attributes, i as nat));
    }
    let ghost kept = out@;
    push_spaced(out, field.visibility.as_str());
    match &field.name {
        Some(name) => {
            out.append(name.as_str());
            out.append(": ");
        },
        None => {},
    }
    out.append(field.ty.as_str());
    assert(out@ =~= old(out)@ + stripped_field(field@)) by {
        assert(kept == old(out)@ + kept_attributes(field@.attributes, field@.attributes.len()));
    }
}

/// Appends the fields of a struct without their delegation markers.
fn push_stripped_fields(out: &mut String, decl: &StructDecl)
    ensures
        final(out)@ == old(out)@ + stripped_fields(decl@.fields, decl@.fields.len()),
{
    let n = decl.fields.len();
    if n == 0 {
        assert(out@ =~= old(out)@ + stripped_fields(decl@.fields, 0));
        return ;
    }
    assert(decl@.fields[0] == decl.fields@[0]@);
    push_stripped_field(out, &decl.fields[0]);
    let mut i: usize = 1;
    while i < n
        invariant
            n == decl.fields@.len(),
            n == decl@.fields.len(),
            1 <= i <= n,
            out@ == old(out)@ + stripped_fields(decl@.fields, i as nat),
        decreases n - i,
    {
        assert(decl@.fields[i as int] == decl.fields@[i as int]@);
        out.append(", ");
        push_stripped_field(out, &decl.fields[i]);
        i = i + 1;
        assert(out@ =~= old(out)@ + stripped_fields(decl@.fields, i as nat));
    }
}

/// Appends the fields of a struct with what stands around them.
fn push_stripped_body(out: &mut String, decl: &StructDecl)
    ensures
        final(out)@ == old(out)@ + stripped_body(decl@),
{
    match decl.form {
        FieldsForm::Named => {
            push_led(out, decl.where_clause.as_str());
            out.append(" { ");
            let ghost head = out@;
            push_stripped_fields(out, decl);
            out.append(" }");
            assert(out@ =~= old(out)@ + stripped_body(decl@)) by {
                assert(head =~= old(out)@ + (led(decl@.where_clause) + " { "@));
            }
        },
        FieldsForm::Tuple => {
            out.append("(");
            push_stripped_fields(out, decl);
            out.append(")");
            push_led(out, decl.where_clause.as_str());
            out.append(";");
            assert(out@ =~= old(out)@ + stripped_body(decl@));
        },
        FieldsForm::Unit => {
            push_led(out, decl.where_clause.as_str());
            out.append(";");
            assert(out@ =~= old(out)@ + stripped_body(decl@));
        },
    }
}

/// The declaration of a struct without the delegation markers of its
/// fields.
pub fn strip_markers(decl: &StructDecl) -> (r: String)
    ensures
        r@ == stripped_struct(decl@),
{
    let mut out = String::from_str(decl.attributes.as_str());
    push_spaced(&mut out, decl.visibility.as_str());
    out.append("struct ");
    out.append(decl.name.as_str());
    out.append(decl.generics.as_str());
    let ghost head = out@;
    assert(head =~= decl@.attributes + spaced(decl@.visibility) + "struct "@ + decl@.name
        + decl@.generics);
    push_stripped_body(&mut out, decl);
    out.append("\n");
    assert(out@ =~= stripped_struct(decl@));
    out
}

/// Writes a struct without its markers, followed by the implementations
/// that link it to its marked fields.
pub fn link_declaration(decl: &StructDecl) -> (r: Result<String, Diagnostic>)
    ensures
        outcome(r) == linked_declaration(decl@),
{
    match link(decl) {
        Err(diagnostic) => Err(diagnostic),
        Ok(links) => {
            let mut out = strip_markers(decl);
            out.append(links.as_str());
            Ok(out)
        },
    }
}

/// What deriving the linkage for the declaration `input` comes to: a text
/// that is no declaration of a struct, an enum or a union is turned down
/// with the parser's message; a declaration is linked.
pub open spec fn derive_outcome(input: Seq<char>) -> Result<Seq<char>, (Rejection, Seq<char>)> {
    match readable_tokens(input) {
        Err(rejected) => Err(rejected),
        Ok(tokens) => match parsed_struct(tokens) {
            Err(error) => Err((Rejection::Syntax, error_text(error))),
            Ok(parsed) => linkage(struct_of(parsed)),
        },
    }
}

/// Derives the linkage for the struct declaration `input`. The answer is
/// the text that goes beside the declaration: for every field with a
/// delegation marker, the implementation of the linkage trait of the trait
/// that the marker names, in the order of the fields.
#[allow(non_snake_case)]
pub fn derive_Inheritance(input: &str) -> (r: Result<String, Diagnostic>)
    ensures
        outcome(r) == derive_outcome(input@),
{
    let tokens = match read_tokens(input) {
        Err(diagnostic) => {
            return Err(diagnostic);
        },
        Ok(tokens) => tokens,
    };
    match parse_struct(tokens) {
        Err(error) => Err(Diagnostic::explained(Rejection::Syntax, error_message(&error))),
        Ok(parsed) => {
            let decl = read_struct(&parsed);
            link(&decl)
        },
    }
}

/// What a struct declaration `input` is replaced by, where the marker is
/// not left for a compiler to drop.
pub open spec fn delegation_outcome(input: Seq<char>) -> Result<Seq<char>, (Rejection, Seq<char>)> {
    match readable_tokens(input) {
        Err(rejected) => Err(rejected),
        Ok(tokens) => match parsed_struct(tokens) {
            Err(error) => Err((Rejection::Syntax, error_text(error))),
            Ok(parsed) => linked_declaration(struct_of(parsed)),
        },
    }
}

/// The whole of what the struct declaration `input` becomes: the
/// declaration without the delegation markers of its fields and otherwise
/// unchanged, then the implementations that `derive_Inheritance` gives.
pub fn delegating_struct(input: &str) -> (r: Result<String, Diagnostic>)
    ensures
        outcome(r) == delegation_outcome(input@),
{
    let tokens = match read_tokens(input) {
        Err(diagnostic) => {
            return Err(diagnostic);
        },
        Ok(tokens) => tokens,
    };
    match parse_struct(tokens) {
        Err(error) => Err(Diagnostic::explained(Rejection::Syntax, error_message(&error))),
        Ok(parsed) => {
            let decl = read_struct(&parsed);
            link_declaration(&decl)
        },
    }
}

} // verus!
