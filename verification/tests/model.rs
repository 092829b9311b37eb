use inheritance::annotator::{annotate, check_item, check_trait, expand, no_parameters};
use inheritance::declaration::{receiver_kind, MethodSig, Param, ParamShape, TraitDecl, TraitItem};
use inheritance::linker::{find_marker, link, link_declaration, strip_markers};
use inheritance::naming::ReceiverKind;
use inheritance::structure::{FieldAttribute, FieldsForm, Marker, StructDecl, StructField, TargetKind, TraitPath};
use inheritance::{Diagnostic, Rejection};

fn shorthand(reference: bool, mutable: bool, written: &str) -> Param {
    Param {
        shape: ParamShape::Shorthand { reference, mutable },
        attributes: String::new(),
        ty: String::new(),
        written: written.to_string(),
    }
}

fn typed(ty: &str, written: &str) -> Param {
    Param {
        shape: ParamShape::Typed { binds_self: false, reference: false, mutable: false, to_self: false },
        attributes: String::new(),
        ty: ty.to_string(),
        written: written.to_string(),
    }
}

fn method(name: &str, params: Vec<Param>, output: &str) -> MethodSig {
    MethodSig {
        name: name.to_string(),
        qualifiers: String::new(),
        generics: String::new(),
        turbofish: String::new(),
        params,
        variadic: String::new(),
        output: output.to_string(),
        where_clause: String::new(),
    }
}

fn counter() -> TraitDecl {
    TraitDecl {
        name: "Counter".to_string(),
        generic_params: 0,
        items: vec![
            TraitItem::Method(method("get", vec![shorthand(true, false, "&self")], "-> u64")),
            TraitItem::Method(method(
                "add",
                vec![shorthand(true, true, "&mut self"), typed("u64", "amount: u64"), typed("u32", "times: u32")],
                "",
            )),
        ],
    }
}

fn field(name: Option<&str>, ty: &str, attributes: Vec<FieldAttribute>) -> StructField {
    StructField { attributes, visibility: String::new(), name: name.map(str::to_string), ty: ty.to_string() }
}

fn marker(name: &str) -> FieldAttribute {
    FieldAttribute {
        written: format!("#[inherits({name})]"),
        marker: Some(Marker::Path(TraitPath { leading_colon: false, qualifier: vec![], name: name.to_string() })),
    }
}

fn plain(written: &str) -> FieldAttribute {
    FieldAttribute { written: written.to_string(), marker: None }
}

fn structure(name: &str, form: FieldsForm, fields: Vec<StructField>) -> StructDecl {
    StructDecl {
        attributes: String::new(),
        visibility: String::new(),
        kind: TargetKind::Struct,
        name: name.to_string(),
        generics: String::new(),
        impl_generics: String::new(),
        type_generics: String::new(),
        where_clause: String::new(),
        form,
        fields,
    }
}

#[test]
fn shape_tells_which_receiver_a_parameter_is() {
    assert_eq!(ParamShape::Shorthand { reference: true, mutable: false }.receiver(), Some(ReceiverKind::Shared));
    assert_eq!(ParamShape::Shorthand { reference: true, mutable: true }.receiver(), Some(ReceiverKind::Mutable));
    assert_eq!(ParamShape::Shorthand { reference: false, mutable: false }.receiver(), None);
    assert_eq!(ParamShape::Shorthand { reference: false, mutable: true }.receiver(), None);
    assert_eq!(
        ParamShape::Typed { binds_self: true, reference: true, mutable: false, to_self: true }.receiver(),
        Some(ReceiverKind::Shared)
    );
    assert_eq!(
        ParamShape::Typed { binds_self: true, reference: true, mutable: true, to_self: true }.receiver(),
        Some(ReceiverKind::Mutable)
    );
    assert_eq!(
        ParamShape::Typed { binds_self: true, reference: true, mutable: true, to_self: false }.receiver(),
        None
    );
    assert_eq!(
        ParamShape::Typed { binds_self: true, reference: false, mutable: false, to_self: false }.receiver(),
        None
    );
    assert_eq!(
        ParamShape::Typed { binds_self: false, reference: true, mutable: true, to_self: true }.receiver(),
        None
    );
    assert_eq!(receiver_kind(true), ReceiverKind::Mutable);
    assert_eq!(receiver_kind(false), ReceiverKind::Shared);
}

#[test]
fn method_receiver_is_that_of_its_first_parameter() {
    assert_eq!(method("f", vec![], "").receiver(), None);
    assert_eq!(method("f", vec![shorthand(true, true, "&mut self")], "").receiver(), Some(ReceiverKind::Mutable));
    assert_eq!(method("f", vec![typed("u8", "a: u8"), shorthand(true, false, "&self")], "").receiver(), None);
}

#[test]
fn annotates_a_declaration_given_as_plain_values() {
    let source = "trait Counter { fn get(&self) -> u64; fn add(&mut self, amount: u64, times: u32); }";
    assert_eq!(
        annotate(source, &counter(), false).unwrap(),
        "trait Counter { fn get(&self) -> u64; fn add(&mut self, amount: u64, times: u32); }\n\
         #[doc(hidden)] pub(in crate) trait __InheritsCounter__ { type __Parent__: Counter; fn __parent__(self: &'_ Self) -> &'_ Self::__Parent__; fn __parent_mut__(self: &'_ mut Self) -> &'_ mut Self::__Parent__; }\n\
         impl<__inheritable_T__: __InheritsCounter__> Counter for __inheritable_T__ {\n\
         #[inline] fn get(&self) -> u64 { self.__parent__().get() }\n\
         #[inline] fn add(&mut self, arg_1: u64, arg_2: u32) { self.__parent_mut__().add(arg_1, arg_2) }\n\
         }\n"
    );
    assert_eq!(annotate(source, &counter(), false).unwrap(), expand(source, &counter(), false));
    assert!(annotate(source, &counter(), true).unwrap().contains("#[inline] default fn add(&mut self"));
}

#[test]
fn every_piece_of_a_signature_has_its_place() {
    let decl = TraitDecl {
        name: "T".to_string(),
        generic_params: 0,
        items: vec![TraitItem::Method(MethodSig {
            name: "m".to_string(),
            qualifiers: "unsafe ".to_string(),
            generics: "<A>".to_string(),
            turbofish: "::<A>".to_string(),
            params: vec![
                shorthand(true, false, "&self"),
                Param {
                    shape: ParamShape::Typed { binds_self: false, reference: true, mutable: false, to_self: false },
                    attributes: "#[allow(unused)] ".to_string(),
                    ty: "&A".to_string(),
                    written: "#[allow(unused)] a: &A".to_string(),
                },
            ],
            variadic: "...".to_string(),
            output: "-> A".to_string(),
            where_clause: "where A: Copy".to_string(),
        })],
    };
    let text = expand("", &decl, false);
    assert!(text.ends_with(
        "{\n#[inline] unsafe fn m<A>(&self, #[allow(unused)] arg_1: &A, ...) -> A where A: Copy { self.__parent__().m::<A>(arg_1) }\n}\n"
    ));
}

#[test]
fn dots_are_written_once_when_the_last_parameter_brings_them() {
    let mut dotted = method("print", vec![shorthand(true, false, "&self"), typed("...", "args: ...")], "");
    dotted.variadic = "...".to_string();
    let decl = TraitDecl { name: "T".to_string(), generic_params: 0, items: vec![TraitItem::Method(dotted)] };
    assert!(expand("", &decl, false)
        .ends_with("{\n#[inline] fn print(&self, arg_1: ...) { self.__parent__().print(arg_1) }\n}\n"));
    let mut plain = method("print", vec![shorthand(true, false, "&self"), typed("u8", "a: u8")], "");
    plain.variadic = "...".to_string();
    let decl = TraitDecl { name: "T".to_string(), generic_params: 0, items: vec![TraitItem::Method(plain)] };
    assert!(expand("", &decl, false)
        .ends_with("{\n#[inline] fn print(&self, arg_1: u8, ...) { self.__parent__().print(arg_1) }\n}\n"));
}

#[test]
fn check_reports_what_is_wrong_with_one_item() {
    assert_eq!(check_item(&TraitItem::Other, 4), Some(Rejection::NotAMethod { item: 4 }));
    assert_eq!(
        check_item(&TraitItem::Method(method("f", vec![], "")), 2),
        Some(Rejection::InvalidReceiver { item: 2, at_parameter: false })
    );
    assert_eq!(
        check_item(&TraitItem::Method(method("f", vec![shorthand(false, false, "self")], "")), 0),
        Some(Rejection::InvalidReceiver { item: 0, at_parameter: true })
    );
    assert_eq!(check_item(&TraitItem::Method(method("f", vec![shorthand(true, false, "&self")], "")), 7), None);
}

#[test]
fn check_passes_a_sound_trait_and_names_the_first_offence_of_another() {
    assert_eq!(check_trait(&counter()), Ok(()));
    let mut generic = counter();
    generic.generic_params = 2;
    generic.items.insert(0, TraitItem::Other);
    assert_eq!(check_trait(&generic), Err(Diagnostic::fixed(Rejection::TraitGenerics)));
    let mut mixed = counter();
    mixed.items.push(TraitItem::Method(method("make", vec![], "")));
    mixed.items.push(TraitItem::Other);
    assert_eq!(
        check_trait(&mixed),
        Err(Diagnostic {
            rejection: Rejection::InvalidReceiver { item: 2, at_parameter: false },
            message: "associated function requires a `&self` or `&mut self` receiver".to_string(),
        })
    );
    assert_eq!(annotate("", &mixed, false), check_trait(&mixed).map(|_| String::new()));
}

#[test]
fn fixed_messages_are_worded_for_the_user() {
    assert_eq!(Diagnostic::fixed(Rejection::UnexpectedParameters).message, "Unexpected parameter(s)");
    assert_eq!(Diagnostic::fixed(Rejection::TraitGenerics).message, "Trait generics are not supported (yet)");
    assert_eq!(
        Diagnostic::fixed(Rejection::NotAMethod { item: 0 }).message,
        "`#[inheritable]` currently only supports methods"
    );
    assert_eq!(
        Diagnostic::fixed(Rejection::InvalidReceiver { item: 3, at_parameter: true }).message,
        "associated function requires a `&self` or `&mut self` receiver"
    );
    assert_eq!(Diagnostic::fixed(Rejection::EnumTarget).message, "enums are not supported");
    assert_eq!(Diagnostic::fixed(Rejection::UnionTarget).message, "unions are not supported");
    assert_eq!(Diagnostic::fixed(Rejection::Syntax).message, "");
    assert_eq!(Diagnostic::fixed(Rejection::MalformedMarker { field: 1 }).message, "");
    let explained = Diagnostic::explained(Rejection::Syntax, "expected `trait`".to_string());
    assert_eq!(explained, Diagnostic { rejection: Rejection::Syntax, message: "expected `trait`".to_string() });
}

#[test]
fn parameter_list_is_empty_when_it_holds_no_token() {
    assert!(no_parameters(""));
    assert!(no_parameters(" \n "));
    assert!(!no_parameters("x"));
    assert!(!no_parameters("()"));
    assert!(!no_parameters("\"unterminated"));
}

#[test]
fn first_marker_of_a_field_is_found_among_its_attributes() {
    let none = field(Some("a"), "u8", vec![plain("#[doc = \"x\"]")]);
    assert_eq!(find_marker(&none), None);
    let later = field(Some("a"), "u8", vec![plain("#[doc = \"x\"]"), marker("First"), marker("Second")]);
    assert_eq!(find_marker(&later), marker("First").marker.as_ref());
    let broken = field(
        Some("a"),
        "u8",
        vec![
            FieldAttribute { written: "#[inherits(1)]".to_string(), marker: Some(Marker::Malformed("no".to_string())) },
            marker("Fine"),
        ],
    );
    assert_eq!(find_marker(&broken), Some(&Marker::Malformed("no".to_string())));
}

#[test]
fn links_a_declaration_given_as_plain_values() {
    let decl = structure(
        "Pair",
        FieldsForm::Tuple,
        vec![field(None, "u8", vec![]), field(None, "Point", vec![marker("IsPoint")])],
    );
    assert_eq!(
        link(&decl).unwrap(),
        "impl __InheritsIsPoint__ for Pair { type __Parent__ = Point; #[inline] fn __parent__(self: &'_ Self) -> &'_ Self::__Parent__ { &self.1 } #[inline] fn __parent_mut__(self: &'_ mut Self) -> &'_ mut Self::__Parent__ { &mut self.1 } }\n"
    );
    assert_eq!(strip_markers(&decl), "struct Pair(u8, Point);\n");
    assert_eq!(link_declaration(&decl).unwrap(), format!("{}{}", strip_markers(&decl), link(&decl).unwrap()));
}

#[test]
fn linking_a_model_rejects_what_is_no_struct_and_what_is_malformed() {
    let mut decl = structure("E", FieldsForm::Unit, vec![]);
    decl.kind = TargetKind::Enum;
    assert_eq!(link(&decl), Err(Diagnostic::fixed(Rejection::EnumTarget)));
    assert_eq!(link_declaration(&decl), Err(Diagnostic::fixed(Rejection::EnumTarget)));
    decl.kind = TargetKind::Union;
    assert_eq!(link(&decl), Err(Diagnostic::fixed(Rejection::UnionTarget)));
    let broken = structure(
        "S",
        FieldsForm::Named,
        vec![
            field(Some("a"), "u8", vec![marker("A")]),
            field(
                Some("b"),
                "u8",
                vec![FieldAttribute {
                    written: "#[inherits(1)]".to_string(),
                    marker: Some(Marker::Malformed("expected path".to_string())),
                }],
            ),
        ],
    );
    let expected = Diagnostic { rejection: Rejection::MalformedMarker { field: 1 }, message: "expected path".to_string() };
    assert_eq!(link(&broken), Err(expected.clone()));
    assert_eq!(link_declaration(&broken), Err(expected));
}

#[test]
fn qualified_path_is_written_segment_by_segment() {
    let mut decl = structure("S", FieldsForm::Named, vec![field(Some("p"), "P", vec![])]);
    decl.fields[0].attributes.push(FieldAttribute {
        written: "#[inherits(::a::b::T)]".to_string(),
        marker: Some(Marker::Path(TraitPath {
            leading_colon: true,
            qualifier: vec!["a".to_string(), "b".to_string()],
            name: "T".to_string(),
        })),
    });
    assert!(link(&decl).unwrap().starts_with("impl ::a::b::__InheritsT__ for S { type __Parent__ = P; "));
}
