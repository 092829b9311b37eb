//! The boundary to the host-language parser: struct declarations.
//!
//! The declaration of a struct, an enum or a union is a
//! `syn::DeriveInput`, a field a `syn::Field`, an attribute a
//! `syn::Attribute`, the path in a marker a `syn::Path`. Texts and names
//! are printed as for trait declarations.

use crate::literals::stream_readable;
use crate::structure::{FieldsForm, TargetKind};
use quote::ToTokens;
use vstd::prelude::*;

verus! {

/// `syn::DeriveInput`, the parser's tree of the declaration of a struct, an
/// enum or a union. Opaque: what the linker needs of it is read by the
/// functions below.
#[verifier::external_type_specification]
#[verifier::external_body]
pub struct ExDeriveInput(syn::DeriveInput);

/// `syn::Field`, the parser's tree of a field. Opaque.
#[verifier::external_type_specification]
#[verifier::external_body]
pub struct ExField(syn::Field);

/// `syn::Attribute`, the parser's tree of an attribute. Opaque.
#[verifier::external_type_specification]
#[verifier::external_body]
pub struct ExAttribute(syn::Attribute);

/// `syn::Path`, the parser's tree of a path. Opaque.
#[verifier::external_type_specification]
#[verifier::external_body]
pub struct ExPath(syn::Path);

/// The outcome of parsing the whole of a stream as the declaration of one
/// struct, enum or union.
pub uninterp spec fn parsed_struct(tokens: proc_macro2::TokenStream) -> Result<
    syn::DeriveInput,
    syn::Error,
>;

/// Calls `syn::parse2` at `syn::DeriveInput`, which gives up where it meets
/// a literal of a kind it does not know (`Lit::new`); a stream with such a
/// literal, at any depth, is left out. A number is known as soon as it
/// starts with a digit: what the lexer takes for a number, the parser reads
/// as an integer or as a float. Trusted: what it gives for a stream is
/// `parsed_struct` of that stream.
#[verifier::external_body]
pub(crate) fn parse_struct(tokens: proc_macro2::TokenStream) -> (r: Result<
    syn::DeriveInput,
    syn::Error,
>)
    requires
        exists|depth: nat| stream_readable(tokens, depth),
    ensures
        r == parsed_struct(tokens),
{
    syn::parse2::<syn::DeriveInput>(tokens)
}

/// The name of the declared type.
pub uninterp spec fn struct_name_of(input: syn::DeriveInput) -> Seq<char>;

/// Calls `to_string` on the declaration's `ident`. Trusted: the text is
/// `struct_name_of` of the declaration.
#[verifier::external_body]
pub(crate) fn struct_name(input: &syn::DeriveInput) -> (r: String)
    ensures
        r@ == struct_name_of(*input),
{
    input.ident.to_string()
}

/// The sort of type that is declared.
pub uninterp spec fn struct_kind_of(input: syn::DeriveInput) -> TargetKind;

/// Tells the three variants of the declaration's `data` apart. Trusted:
/// the answer is `struct_kind_of` of the declaration.
#[verifier::external_body]
pub(crate) fn struct_kind(input: &syn::DeriveInput) -> (r: TargetKind)
    ensures
        r == struct_kind_of(*input),
{
    match &input.data {
        syn::Data::Struct(_) => TargetKind::Struct,
        syn::Data::Enum(_) => TargetKind::Enum,
        syn::Data::Union(_) => TargetKind::Union,
    }
}

/// How a struct writes its fields; `Unit` for an enum or a union.
pub uninterp spec fn struct_form_of(input: syn::DeriveInput) -> FieldsForm;

/// Tells the three variants of the `fields` of `Data::Struct` apart.
/// Trusted: the answer is `struct_form_of` of the declaration.
#[verifier::external_body]
pub(crate) fn struct_form(input: &syn::DeriveInput) -> (r: FieldsForm)
    ensures
        r == struct_form_of(*input),
{
    match &input.data {
        syn::Data::Struct(data) => match &data.fields {
            syn::Fields::Named(_) => FieldsForm::Named,
            syn::Fields::Unnamed(_) => FieldsForm::Tuple,
            syn::Fields::Unit => FieldsForm::Unit,
        },
        _ => FieldsForm::Unit,
    }
}

/// The declaration's own attributes in order, each as written.
pub uninterp spec fn struct_attributes_of(input: syn::DeriveInput) -> Seq<Seq<char>>;

/// Prints each of the declaration's `attrs`. Trusted: the texts are
/// `struct_attributes_of` of the declaration.
#[verifier::external_body]
pub(crate) fn struct_attributes(input: &syn::DeriveInput) -> (r: Vec<String>)
    ensures
        r.deep_view() == struct_attributes_of(*input),
{
    input.attrs.iter().map(|attr| attr.to_token_stream().to_string()).collect()
}

/// The declaration's visibility as written, or nothing.
pub uninterp spec fn struct_visibility_of(input: syn::DeriveInput) -> Seq<char>;

/// Prints the declaration's `vis`. Trusted: the text is
/// `struct_visibility_of` of the declaration.
#[verifier::external_body]
pub(crate) fn struct_visibility(input: &syn::DeriveInput) -> (r: String)
    ensures
        r@ == struct_visibility_of(*input),
{
    input.vis.to_token_stream().to_string()
}

/// The generic parameters as declared, in angle brackets, or nothing.
pub uninterp spec fn struct_generics_of(input: syn::DeriveInput) -> Seq<char>;

/// Prints the declaration's `generics`. Trusted: the text is
/// `struct_generics_of` of the declaration.
#[verifier::external_body]
pub(crate) fn struct_generics(input: &syn::DeriveInput) -> (r: String)
    ensures
        r@ == struct_generics_of(*input),
{
    input.generics.to_token_stream().to_string()
}

/// The generic parameters as an implementation declares them, that is
/// without defaults, or nothing.
pub uninterp spec fn struct_impl_generics_of(input: syn::DeriveInput) -> Seq<char>;

/// Calls `Generics::split_for_impl` and prints its first part. Trusted: the
/// text is `struct_impl_generics_of` of the declaration.
#[verifier::external_body]
pub(crate) fn struct_impl_generics(input: &syn::DeriveInput) -> (r: String)
    ensures
        r@ == struct_impl_generics_of(*input),
{
    input.generics.split_for_impl().0.to_token_stream().to_string()
}

/// The generic parameters as arguments of the type, that is their names,
/// or nothing.
pub uninterp spec fn struct_type_generics_of(input: syn::DeriveInput) -> Seq<char>;

/// Calls `Generics::split_for_impl` and prints its second part. Trusted:
/// the text is `struct_type_generics_of` of the declaration.
#[verifier::external_body]
pub(crate) fn struct_type_generics(input: &syn::DeriveInput) -> (r: String)
    ensures
        r@ == struct_type_generics_of(*input),
{
    input.generics.split_for_impl().1.to_token_stream().to_string()
}

/// The `where` clause of the declaration, or nothing.
pub uninterp spec fn struct_where_of(input: syn::DeriveInput) -> Seq<char>;

/// Calls `Generics::split_for_impl` and prints its third part. Trusted: the
/// text is `struct_where_of` of the declaration.
#[verifier::external_body]
pub(crate) fn struct_where_clause(input: &syn::DeriveInput) -> (r: String)
    ensures
        r@ == struct_where_of(*input),
{
    input.generics.split_for_impl().2.to_token_stream().to_string()
}

/// The fields of a struct in order; none for an enum or a union.
pub uninterp spec fn struct_fields_of(input: syn::DeriveInput) -> Seq<syn::Field>;

/// Calls `Fields::len` on the `fields` of `Data::Struct`. Trusted: the
/// number is the length of `struct_fields_of`.
#[verifier::external_body]
pub(crate) fn struct_field_count(input: &syn::DeriveInput) -> (r: usize)
    ensures
        r == struct_fields_of(*input).len(),
{
    match &input.data {
        syn::Data::Struct(data) => data.fields.len(),
        _ => 0,
    }
}

/// Calls `Fields::iter` on the `fields` of `Data::Struct` and takes the
/// field at `index`. Trusted: there is one exactly below the length of
/// `struct_fields_of`, and it is the entry at `index`.
#[verifier::external_body]
pub(crate) fn struct_field(input: &syn::DeriveInput, index: usize) -> (r: Option<&syn::Field>)
    ensures
        r is Some <==> index < struct_fields_of(*input).len(),
        r matches Some(field) ==> *field == struct_fields_of(*input)[index as int],
{
    match &input.data {
        syn::Data::Struct(data) => data.fields.iter().nth(index),
        _ => None,
    }
}

/// The name of a field, if it has one.
pub uninterp spec fn field_name_of(field: syn::Field) -> Option<Seq<char>>;

/// Calls `to_string` on the field's `ident`, where there is one. Trusted:
/// the answer is `field_name_of` of the field.
#[verifier::external_body]
pub(crate) fn field_name(field: &syn::Field) -> (r: Option<String>)
    ensures
        r is Some <==> field_name_of(*field) is Some,
        r matches Some(name) ==> field_name_of(*field) == Some(name@),
{
    match &field.ident {
        Some(ident) => Some(ident.to_string()),
        None => None,
    }
}

/// The type of a field as written.
pub uninterp spec fn field_type_of(field: syn::Field) -> Seq<char>;

/// Prints the field's `ty`. Trusted: the text is `field_type_of` of the
/// field.
#[verifier::external_body]
pub(crate) fn field_type(field: &syn::Field) -> (r: String)
    ensures
        r@ == field_type_of(*field),
{
    field.ty.to_token_stream().to_string()
}

/// The visibility of a field as written, or nothing.
pub uninterp spec fn field_visibility_of(field: syn::Field) -> Seq<char>;

/// Prints the field's `vis`. Trusted: the text is `field_visibility_of` of
/// the field.
#[verifier::external_body]
pub(crate) fn field_visibility(field: &syn::Field) -> (r: String)
    ensures
        r@ == field_visibility_of(*field),
{
    field.vis.to_token_stream().to_string()
}

/// The attributes of a field in order.
pub uninterp spec fn field_attributes_of(field: syn::Field) -> Seq<syn::Attribute>;

/// Calls `Vec::len` on the field's `attrs`. Trusted: the number is the
/// length of `field_attributes_of`.
#[verifier::external_body]
pub(crate) fn field_attribute_count(field: &syn::Field) -> (r: usize)
    ensures
        r == field_attributes_of(*field).len(),
{
    field.attrs.len()
}

/// Indexes the field's `attrs`, which panics beyond the last attribute.
/// Trusted: the attribute is the entry of `field_attributes_of` at `index`.
#[verifier::external_body]
pub(crate) fn field_attribute(field: &syn::Field, index: usize) -> (r: &syn::Attribute)
    requires
        index < field_attributes_of(*field).len(),
    ensures
        *r == field_attributes_of(*field)[index as int],
{
    &field.attrs[index]
}

/// An attribute as written.
pub uninterp spec fn attribute_text_of(attribute: syn::Attribute) -> Seq<char>;

/// Prints the attribute. Trusted: the text is `attribute_text_of` of the
/// attribute.
#[verifier::external_body]
pub(crate) fn attribute_text(attribute: &syn::Attribute) -> (r: String)
    ensures
        r@ == attribute_text_of(*attribute),
{
    attribute.to_token_stream().to_string()
}

/// Whether the path of an attribute is the single identifier `word`.
pub uninterp spec fn attribute_named(attribute: syn::Attribute, word: Seq<char>) -> bool;

/// Calls `Path::is_ident` on the attribute's `path`. Trusted: the answer is
/// `attribute_named` of the attribute and the word.
#[verifier::external_body]
pub(crate) fn attribute_is(attribute: &syn::Attribute, word: &str) -> (r: bool)
    ensures
        r == attribute_named(*attribute, word@),
{
    attribute.path.is_ident(word)
}

/// The outcome of parsing the argument of an attribute as a path made of
/// identifiers only.
pub uninterp spec fn marker_path_of(attribute: syn::Attribute) -> Result<syn::Path, syn::Error>;

/// Calls `Attribute::parse_args_with` with `Path::parse_mod_style`.
/// Trusted: the outcome is `marker_path_of` of the attribute; and a path
/// that comes out has at least one segment, since `parse_mod_style` answers
/// "expected path" instead of giving an empty one.
#[verifier::external_body]
pub(crate) fn marker_path(attribute: &syn::Attribute) -> (r: Result<syn::Path, syn::Error>)
    ensures
        r == marker_path_of(*attribute),
        r matches Ok(path) ==> path_segments_of(path).len() > 0,
{
    attribute.parse_args_with(syn::Path::parse_mod_style)
}

/// Whether a path starts with `::`.
pub uninterp spec fn path_leading_colon_of(path: syn::Path) -> bool;

/// Reads whether the path's `leading_colon` is present. Trusted: the
/// answer is `path_leading_colon_of` of the path.
#[verifier::external_body]
pub(crate) fn path_leading_colon(path: &syn::Path) -> (r: bool)
    ensures
        r == path_leading_colon_of(*path),
{
    path.leading_colon.is_some()
}

/// The identifiers of the segments of a path, in order.
pub uninterp spec fn path_segments_of(path: syn::Path) -> Seq<Seq<char>>;

/// Calls `to_string` on the `ident` of each of the path's `segments`.
/// Trusted: the texts are `path_segments_of` of the path.
#[verifier::external_body]
pub(crate) fn path_segments(path: &syn::Path) -> (r: Vec<String>)
    ensures
        r.deep_view() == path_segments_of(*path),
{
    path.segments.iter().map(|segment| segment.ident.to_string()).collect()
}

} // verus!
