//! Struct declarations as the struct linker reads them.

use vstd::prelude::*;

verus! {

/// The sort of type that a declaration declares.
#[derive(Clone, Copy, Debug, PartialEq, Eq, Structural)]
pub enum TargetKind {
    Struct,
    Enum,
    Union,
}

/// How a struct writes its fields.
#[derive(Clone, Copy, Debug, PartialEq, Eq, Structural)]
pub enum FieldsForm {
    /// In braces, each with a name.
    Named,
    /// In parentheses, each known by its position.
    Tuple,
    /// No fields at all.
    Unit,
}

/// The path of a trait as a marker names it: `IsPoint`, `shapes::IsPoint`,
/// `::shapes::IsPoint`.
#[derive(Clone, Debug, PartialEq, Eq)]
pub struct TraitPath {
    /// Whether the path starts with `::`.
    pub leading_colon: bool,
    /// The segments before the last one.
    pub qualifier: Vec<String>,
    /// The last segment: the trait's own name.
    pub name: String,
}

/// A trait path, as mathematics.
pub struct TraitPathView {
    pub leading_colon: bool,
    pub qualifier: Seq<Seq<char>>,
    pub name: Seq<char>,
}

impl View for TraitPath {
    type V = TraitPathView;

    open spec fn view(&self) -> TraitPathView {
        TraitPathView {
            leading_colon: self.leading_colon,
            qualifier: self.qualifier.deep_view(),
            name: self.name@,
        }
    }
}

/// What a delegation marker holds.
#[derive(Clone, Debug, PartialEq, Eq)]
pub enum Marker {
    /// The path of the trait that the field delegates.
    Path(TraitPath),
    /// Something that is no path, with the parser's complaint.
    Malformed(String),
}

/// A marker, as mathematics.
pub enum MarkerView {
    Path(TraitPathView),
    Malformed(Seq<char>),
}

impl View for Marker {
    type V = MarkerView;

    open spec fn view(&self) -> MarkerView {
        match self {
            Marker::Path(path) => MarkerView::Path(path@),
            Marker::Malformed(message) => MarkerView::Malformed(message@),
        }
    }
}

/// One attribute of a field.
#[derive(Clone, Debug, PartialEq, Eq)]
pub struct FieldAttribute {
    /// The attribute as the declaration has it.
    pub written: String,
    /// What the attribute holds, if it is a delegation marker.
    pub marker: Option<Marker>,
}

/// An attribute of a field, as mathematics.
pub struct FieldAttributeView {
    pub written: Seq<char>,
    pub marker: Option<MarkerView>,
}

impl View for FieldAttribute {
    type V = FieldAttributeView;

    open spec fn view(&self) -> FieldAttributeView {
        FieldAttributeView {
            written: self.written@,
            marker: match self.marker {
                Some(marker) => Some(marker@),
                None => None,
            },
        }
    }
}

/// One field of a struct.
#[derive(Clone, Debug, PartialEq, Eq)]
pub struct StructField {
    /// The field's attributes in order.
    pub attributes: Vec<FieldAttribute>,
    /// The field's visibility as written, or nothing.
    pub visibility: String,
    /// The field's name; a field of a tuple struct has none.
    pub name: Option<String>,
    /// The field's type as written.
    pub ty: String,
}

/// A field, as mathematics.
pub struct StructFieldView {
    pub attributes: Seq<FieldAttributeView>,
    pub visibility: Seq<char>,
    pub name: Option<Seq<char>>,
    pub ty: Seq<char>,
}

impl View for StructField {
    type V = StructFieldView;

    open spec fn view(&self) -> StructFieldView {
        StructFieldView {
            attributes: self.attributes@.map_values(|a: FieldAttribute| a@),
            visibility: self.visibility@,
            name: match self.name {
                Some(name) => Some(name@),
                None => None,
            },
            ty: self.ty@,
        }
    }
}

/// The declaration of a struct, or what is known of an enum or a union.
#[derive(Clone, Debug, PartialEq, Eq)]
pub struct StructDecl {
    /// The declaration's own attributes, each followed by a space.
    pub attributes: String,
    /// The declaration's visibility as written, or nothing.
    pub visibility: String,
    pub kind: TargetKind,
    pub name: String,
    /// The generic parameters as declared, in angle brackets, or nothing.
    pub generics: String,
    /// The generic parameters as an implementation declares them.
    pub impl_generics: String,
    /// The generic parameters as arguments of the type.
    pub type_generics: String,
    /// The `where` clause, or nothing.
    pub where_clause: String,
    pub form: FieldsForm,
    /// The fields in order; none for an enum or a union.
    pub fields: Vec<StructField>,
}

/// A struct declaration, as mathematics.
pub struct StructView {
    pub attributes: Seq<char>,
    pub visibility: Seq<char>,
    pub kind: TargetKind,
    pub name: Seq<char>,
    pub generics: Seq<char>,
    pub impl_generics: Seq<char>,
    pub type_generics: Seq<char>,
    pub where_clause: Seq<char>,
    pub form: FieldsForm,
    pub fields: Seq<StructFieldView>,
}

impl View for StructDecl {
    type V = StructView;

    open spec fn view(&self) -> StructView {
        StructView {
            attributes: self.attributes@,
            visibility: self.visibility@,
            kind: self.kind,
            name: self.name@,
            generics: self.generics@,
            impl_generics: self.impl_generics@,
            type_generics: self.type_generics@,
            where_clause: self.where_clause@,
            form: self.form,
            fields: self.fields@.map_values(|f: StructField| f@),
        }
    }
}

} // verus!
