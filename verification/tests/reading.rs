use inheritance::declaration::{ParamShape, TraitItem};
use inheritance::naming::ReceiverKind;
use inheritance::struct_reader::{read_attribute, read_field, read_struct};
use inheritance::text::join_spaced;
use inheritance::trait_reader::{read_method, read_param, read_trait};
use inheritance::structure::{FieldsForm, Marker, TargetKind, TraitPath};

fn parsed_trait(source: &str) -> syn::ItemTrait {
    syn::parse_str(source).unwrap()
}

fn parsed_struct(source: &str) -> syn::DeriveInput {
    syn::parse_str(source).unwrap()
}

#[test]
fn reads_name_generics_and_items_of_a_trait() {
    let decl = read_trait(&parsed_trait("trait Pile<'a, T, const N: usize> { type Item; fn top(&self) -> &T; const MAX: usize; }"));
    assert_eq!(decl.name, "Pile");
    assert_eq!(decl.generic_params, 3);
    assert_eq!(decl.items.len(), 3);
    assert_eq!(decl.items[0], TraitItem::Other);
    assert!(matches!(decl.items[1], TraitItem::Method(_)));
    assert_eq!(decl.items[2], TraitItem::Other);
    assert_eq!(read_trait(&parsed_trait("trait Bare<> {}")).generic_params, 0);
}

#[test]
fn reads_every_piece_of_a_method_signature() {
    let item = parsed_trait(
        "trait T { #[must_use] const async unsafe extern \"C\" fn run<'a, A: Clone>(&'a mut self, #[one] #[two] (x, y): (A, A), ...) -> &'a A where A: Copy { loop {} } }",
    );
    let method = match &item.items[0] {
        syn::TraitItem::Method(method) => read_method(method),
        _ => panic!("no method"),
    };
    assert_eq!(method.name, "run");
    assert_eq!(method.qualifiers, "const async unsafe extern \"C\" ");
    assert_eq!(method.generics, "< 'a , A : Clone >");
    assert_eq!(method.turbofish, ":: < 'a , A >");
    assert_eq!(method.variadic, "...");
    assert_eq!(method.output, "-> & 'a A");
    assert_eq!(method.where_clause, "where A : Copy");
    assert_eq!(method.params.len(), 2);
    assert_eq!(method.params[0].shape, ParamShape::Shorthand { reference: true, mutable: true });
    assert_eq!(method.params[0].written, "& 'a mut self");
    assert_eq!(method.params[0].ty, "");
    assert_eq!(method.params[1].shape, ParamShape::Typed { binds_self: false, reference: false, mutable: false, to_self: false });
    assert_eq!(method.params[1].attributes, "# [one] # [two] ");
    assert_eq!(method.params[1].ty, "(A , A)");
    assert_eq!(method.params[1].written, "# [one] # [two] (x , y) : (A , A)");
    assert_eq!(method.receiver(), Some(ReceiverKind::Mutable));
}

#[test]
fn reads_a_plain_method_with_empty_pieces() {
    let item = parsed_trait("trait T { fn f(&self); }");
    let method = match &item.items[0] {
        syn::TraitItem::Method(method) => read_method(method),
        _ => panic!("no method"),
    };
    assert_eq!(method.qualifiers, "");
    assert_eq!(method.generics, "");
    assert_eq!(method.turbofish, "");
    assert_eq!(method.variadic, "");
    assert_eq!(method.output, "");
    assert_eq!(method.where_clause, "");
    assert_eq!(method.params[0].attributes, "");
}

#[test]
fn reads_the_shape_of_each_kind_of_parameter() {
    let shape = |text: &str| read_param(&syn::parse_str::<syn::FnArg>(text).unwrap()).shape;
    assert_eq!(shape("self"), ParamShape::Shorthand { reference: false, mutable: false });
    assert_eq!(shape("mut self"), ParamShape::Shorthand { reference: false, mutable: true });
    assert_eq!(shape("&self"), ParamShape::Shorthand { reference: true, mutable: false });
    assert_eq!(shape("&'a mut self"), ParamShape::Shorthand { reference: true, mutable: true });
    let typed = |binds_self, reference, mutable, to_self| ParamShape::Typed { binds_self, reference, mutable, to_self };
    assert_eq!(shape("self: &Self"), typed(true, true, false, true));
    assert_eq!(shape("self: &mut Self"), typed(true, true, true, true));
    assert_eq!(shape("self: &'a mut Self"), typed(true, true, true, true));
    assert_eq!(shape("mut self: &Self"), typed(true, true, false, true));
    assert_eq!(shape("self: &u8"), typed(true, true, false, false));
    assert_eq!(shape("self: &mut Vec<Self>"), typed(true, true, true, false));
    assert_eq!(shape("self: &&Self"), typed(true, true, false, false));
    assert_eq!(shape("self: Box<Self>"), typed(true, false, false, false));
    assert_eq!(shape("self: Self"), typed(true, false, false, false));
    assert_eq!(shape("this: &mut Self"), typed(false, true, true, true));
    assert_eq!(shape("_: u8"), typed(false, false, false, false));
    assert_eq!(shape("(a, b): &(u8, u8)"), typed(false, true, false, false));
}

#[test]
fn joins_texts_with_a_space_after_each() {
    assert_eq!(join_spaced(&vec![]), "");
    assert_eq!(join_spaced(&vec!["a".to_string()]), "a ");
    assert_eq!(join_spaced(&vec!["a".to_string(), "".to_string(), "b c".to_string()]), "a  b c ");
}

#[test]
fn reads_a_struct_with_all_that_surrounds_its_fields() {
    let decl = read_struct(&parsed_struct(
        "#[derive(Debug)] #[repr(C)] pub(crate) struct Wrapper<'a, T: Clone = u8> where T: Copy { #[inherits(::shapes::IsPoint)] pub point: &'a T, count: usize }",
    ));
    assert_eq!(decl.attributes, "# [derive (Debug)] # [repr (C)] ");
    assert_eq!(decl.visibility, "pub (crate)");
    assert_eq!(decl.kind, TargetKind::Struct);
    assert_eq!(decl.name, "Wrapper");
    assert_eq!(decl.generics, "< 'a , T : Clone = u8 >");
    assert_eq!(decl.impl_generics, "< 'a , T : Clone >");
    assert_eq!(decl.type_generics, "< 'a , T >");
    assert_eq!(decl.where_clause, "where T : Copy");
    assert_eq!(decl.form, FieldsForm::Named);
    assert_eq!(decl.fields.len(), 2);
    assert_eq!(decl.fields[0].visibility, "pub");
    assert_eq!(decl.fields[0].name.as_deref(), Some("point"));
    assert_eq!(decl.fields[0].ty, "& 'a T");
    assert_eq!(decl.fields[0].attributes.len(), 1);
    assert_eq!(decl.fields[0].attributes[0].written, "# [inherits (:: shapes :: IsPoint)]");
    assert_eq!(
        decl.fields[0].attributes[0].marker,
        Some(Marker::Path(TraitPath {
            leading_colon: true,
            qualifier: vec!["shapes".to_string()],
            name: "IsPoint".to_string()
        }))
    );
    assert_eq!(decl.fields[1].visibility, "");
    assert_eq!(decl.fields[1].name.as_deref(), Some("count"));
    assert!(decl.fields[1].attributes.is_empty());
}

#[test]
fn reads_the_form_of_tuple_and_unit_structs() {
    let tuple = read_struct(&parsed_struct("struct P(u8, pub String);"));
    assert_eq!(tuple.form, FieldsForm::Tuple);
    assert_eq!(tuple.fields.len(), 2);
    assert_eq!(tuple.fields[0].name, None);
    assert_eq!(tuple.fields[1].visibility, "pub");
    assert_eq!(tuple.generics, "");
    assert_eq!(tuple.impl_generics, "");
    assert_eq!(tuple.type_generics, "");
    assert_eq!(tuple.where_clause, "");
    let unit = read_struct(&parsed_struct("struct U;"));
    assert_eq!(unit.form, FieldsForm::Unit);
    assert!(unit.fields.is_empty());
}

#[test]
fn reads_enum_and_union_as_kinds_without_fields() {
    let e = read_struct(&parsed_struct("enum E { A(u8), B { x: u8 } }"));
    assert_eq!(e.kind, TargetKind::Enum);
    assert_eq!(e.name, "E");
    assert!(e.fields.is_empty());
    let u = read_struct(&parsed_struct("union U { a: u8, b: i8 }"));
    assert_eq!(u.kind, TargetKind::Union);
    assert!(u.fields.is_empty());
}

#[test]
fn reads_an_attribute_as_marker_only_under_its_own_name() {
    let input = parsed_struct(
        "struct S { #[doc = \"d\"] #[inherits(a::B)] #[inherits(1 + 1)] #[other::inherits(C)] #[inherits] f: u8 }",
    );
    let field = match &input.data {
        syn::Data::Struct(data) => read_field(data.fields.iter().next().unwrap()),
        _ => panic!("no struct"),
    };
    assert_eq!(field.attributes.len(), 5);
    assert_eq!(field.attributes[0].marker, None);
    assert_eq!(
        field.attributes[1].marker,
        Some(Marker::Path(TraitPath { leading_colon: false, qualifier: vec!["a".to_string()], name: "B".to_string() }))
    );
    assert_eq!(field.attributes[2].marker, Some(Marker::Malformed("expected path".to_string())));
    assert_eq!(field.attributes[3].marker, None);
    assert!(matches!(field.attributes[4].marker, Some(Marker::Malformed(_))));
    let attribute: syn::DeriveInput = parsed_struct("struct S { #[inherits(Only)] f: u8 }");
    if let syn::Data::Struct(data) = &attribute.data {
        let read = read_attribute(&data.fields.iter().next().unwrap().attrs[0]);
        assert_eq!(read.written, "# [inherits (Only)]");
        assert_eq!(
            read.marker,
            Some(Marker::Path(TraitPath { leading_colon: false, qualifier: vec![], name: "Only".to_string() }))
        );
    }
}
