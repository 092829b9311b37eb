//! From the parser's tree of a struct declaration to the declaration held
//! as plain values.

use crate::structure::{
    FieldAttribute, FieldAttributeView, Marker, MarkerView, StructDecl, StructField,
    StructFieldView, StructView, TraitPath, TraitPathView,
};
use crate::struct_syntax::{
    attribute_is, attribute_named, attribute_text, attribute_text_of, field_attribute,
    field_attribute_count, field_attributes_of, field_name, field_name_of, field_type,
    field_type_of, field_visibility, field_visibility_of, marker_path, marker_path_of,
    path_leading_colon, path_leading_colon_of, path_segments, path_segments_of,
    struct_attributes, struct_attributes_of, struct_field, struct_field_count, struct_fields_of,
    struct_form, struct_form_of, struct_generics, struct_generics_of, struct_impl_generics,
    struct_impl_generics_of, struct_kind, struct_kind_of, struct_name, struct_name_of,
    struct_type_generics, struct_type_generics_of, struct_visibility, struct_visibility_of,
    struct_where_clause, struct_where_of,
};
use crate::syntax::{error_message, error_text};
use crate::text::{join_spaced, spaced_parts};
use vstd::prelude::*;

verus! {

/// The trait path that the parser's path describes: its last segment is
/// the trait's name, the segments before it are the qualifier.
pub open spec fn path_of(path: syn::Path) -> TraitPathView {
    TraitPathView {
        leading_colon: path_leading_colon_of(path),
        qualifier: path_segments_of(path).drop_last(),
        name: path_segments_of(path).last(),
    }
}

/// What an attribute holds as a delegation marker: nothing unless it is
/// called `inherits`; then the path that its argument is, or the parser's
/// complaint about the argument.
pub open spec fn marker_of(attribute: syn::Attribute) -> Option<MarkerView> {
    if attribute_named(attribute, "inherits"@) {
        Some(
            match marker_path_of(attribute) {
                Ok(path) => MarkerView::Path(path_of(path)),
                Err(error) => MarkerView::Malformed(error_text(error)),
            },
        )
    } else {
        None
    }
}

/// The field attribute that the parser's tree describes.
pub open spec fn attribute_of(attribute: syn::Attribute) -> FieldAttributeView {
    FieldAttributeView { written: attribute_text_of(attribute), marker: marker_of(attribute) }
}

/// The field that the parser's tree describes.
pub open spec fn field_of(field: syn::Field) -> StructFieldView {
    StructFieldView {
        attributes: field_attributes_of(field).map_values(|a: syn::Attribute| attribute_of(a)),
        visibility: field_visibility_of(field),
        name: field_name_of(field),
        ty: field_type_of(field),
    }
}

/// The declaration that the parser's tree describes.
pub open spec fn struct_of(input: syn::DeriveInput) -> StructView {
    StructView {
        attributes: spaced_parts(struct_attributes_of(input), struct_attributes_of(input).len()),
        visibility: struct_visibility_of(input),
        kind: struct_kind_of(input),
        name: struct_name_of(input),
        generics: struct_generics_of(input),
        impl_generics: struct_impl_generics_of(input),
        type_generics: struct_type_generics_of(input),
        where_clause: struct_where_of(input),
        form: struct_form_of(input),
        fields: struct_fields_of(input).map_values(|f: syn::Field| field_of(f)),
    }
}

/// Reads the path of a marker.
fn read_path(path: &syn::Path) -> (r: TraitPath)
    requires
        path_segments_of(*path).len() > 0,
    ensures
        r@ == path_of(*path),
{
    let mut segments = path_segments(path);
    let ghost all = segments;
    let name = segments.pop().unwrap();
    let r = TraitPath { leading_colon: path_leading_colon(path), qualifier: segments, name };
    assert(r@.qualifier =~= path_of(*path).qualifier);
    assert(r@.name == all.deep_view().last());
    r
}

/// Reads one attribute of a field.
pub fn read_attribute(attribute: &syn::Attribute) -> (r: FieldAttribute)
    ensures
        r@ == attribute_of(*attribute),
{
    let marker = if attribute_is(attribute, "inherits") {
        Some(
            match marker_path(attribute) {
                Ok(path) => Marker::Path(read_path(&path)),
                Err(error) => Marker::Malformed(error_message(&error)),
            },
        )
    } else {
        None
    };
    FieldAttribute { written: attribute_text(attribute), marker }
}

/// Reads one field of a struct.
pub fn read_field(field: &syn::Field) -> (r: StructField)
    ensures
        r@ == field_of(*field),
{
    let n = field_attribute_count(field);
    let mut attributes: Vec<FieldAttribute> = Vec::new();
    let mut i: usize = 0;
    while i < n
        invariant
            n == field_attributes_of(*field).len(),
            i <= n,
            attributes@.len() == i,
            forall|k: int|
                0 <= k < i ==> (#[trigger] attributes@[k])@ == attribute_of(
                    field_attributes_of(*field)[k],
                ),
        decreases n - i,
    {
        let attribute = read_attribute(field_attribute(field, i));
        attributes.push(attribute);
        i = i + 1;
    }
    let r = StructField {
        attributes,
        visibility: field_visibility(field),
        name: field_name(field),
        ty: field_type(field),
    };
    assert(r@.attributes =~= field_of(*field).attributes);
    r
}

/// Reads the declaration of a struct, an enum or a union.
pub fn read_struct(input: &syn::DeriveInput) -> (r: StructDecl)
    ensures
        r@ == struct_of(*input),
{
    let n = struct_field_count(input);
    let mut fields: Vec<StructField> = Vec::new();
    let mut i: usize = 0;
    while i < n
        invariant
            n == struct_fields_of(*input).len(),
            i <= n,
            fields@.len() == i,
            forall|k: int|
                0 <= k < i ==> (#[trigger] fields@[k])@ == field_of(struct_fields_of(*input)[k]),
        decreases n - i,
    {
        match struct_field(input, i) {
            Some(field) => {
                let read = read_field(field);
                fields.push(read);
            },
            None => {},
        }
        i = i + 1;
    }
    let attributes = struct_attributes(input);
    let r = StructDecl {
        attributes: join_spaced(&attributes),
        visibility: struct_visibility(input),
        kind: struct_kind(input),
        name: struct_name(input),
        generics: struct_generics(input),
        impl_generics: struct_impl_generics(input),
        type_generics: struct_type_generics(input),
        where_clause: struct_where_clause(input),
        form: struct_form(input),
        fields,
    };
    assert(r@.fields =~= struct_of(*input).fields);
    r
}

} // verus!
