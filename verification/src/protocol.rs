//! What the generated code is made of, stated as laws.
//!
//! The generated text runs under the rules of the host language, which
//! this library does not model. What is proved here is proved of the parts
//! that the generators put into the text: which accessor a forwarding
//! method goes through, which method it calls with which arguments, which
//! field an accessor borrows, and under which name the two generators meet.
//! Where a law speaks of values, names are bound to values position by
//! position and an argument stands for the value bound to its name.

use crate::annotator::{
    expansion, forwarded_names, forwarding_method, inheritable_outcome, item_forwarding,
    item_rejection, lemma_items_rejection, trait_rejection,
};
use crate::declaration::{MethodView, TraitItemView, TraitView};
use crate::diagnostic::{Diagnostic, outcome};
use crate::linker::{derive_outcome, field_link, field_place, linkage_path, qualifier_text};
use crate::naming::{
    lemma_linkage_name_injective, lemma_positional_name_injective, linkage_name, unraw,
};
use crate::structure::{StructView, TraitPathView};
use crate::text::{lemma_decimal_injective, word_if};
use vstd::prelude::*;

verus! {

/// What a method call comes to: the place it is made on, the method that
/// is called, and the values that are passed.
pub struct Call<V> {
    pub place: Seq<char>,
    pub method: Seq<char>,
    pub arguments: Seq<V>,
}

/// The value bound to `name` when `names` are bound to `values` position by
/// position.
pub open spec fn bound_value<V>(names: Seq<Seq<char>>, values: Seq<V>, name: Seq<char>) -> V {
    values[choose|i: int| 0 <= i < names.len() && names[i] == name]
}

/// The values that a call receives whose arguments are `arguments`, when
/// `names` are bound to `values`.
pub open spec fn passed_values<V>(
    names: Seq<Seq<char>>,
    values: Seq<V>,
    arguments: Seq<Seq<char>>,
) -> Seq<V> {
    Seq::new(arguments.len(), |k: int| bound_value(names, values, arguments[k]))
}

/// The call that is made when the method `m` is called with `values` on a
/// struct that delegates through its field at position `index`: the
/// forwarding method binds its parameters to the values, borrows the parent
/// through an accessor, which borrows that field, and calls the method of
/// the same name with its parameters as arguments. The parameters and the
/// arguments are the names that `forwarding_signature` and
/// `forwarding_body` write, `forwarded_names`; the field is the place that
/// both accessors of `linkage_impl` borrow, `field_place`.
pub open spec fn delegated_call<V>(s: StructView, index: nat, m: MethodView, values: Seq<V>) -> Call<
    V,
> {
    let names = forwarded_names(m.params.len());
    Call {
        place: field_place(s.fields[index as int], index),
        method: m.name,
        arguments: passed_values(names, values, names),
    }
}

/// The annotated trait stays as it was written: the expansion starts with
/// the declaration, letter for letter, and what is generated follows it.
pub proof fn lemma_declaration_is_kept(source: Seq<char>, t: TraitView, overridable: bool)
    ensures
        expansion(source, t, overridable).len() > source.len(),
        expansion(source, t, overridable).subrange(0, source.len() as int) == source,
{
    reveal_strlit("\n");
    let whole = expansion(source, t, overridable);
    assert(whole.subrange(0, source.len() as int) =~= source);
}

/// In a trait that `check_trait` lets pass, every item is a method that starts
/// with a reference-style receiver, and the blanket implementation holds
/// the forwarding method of each.
pub proof fn lemma_every_method_is_forwarded(t: TraitView, i: int, overridable: bool)
    requires
        trait_rejection(t) is None,
        0 <= i < t.items.len(),
    ensures
        t.items[i] matches TraitItemView::Method(m) && m.receiver() matches Some(kind)
            && item_forwarding(t.items[i], overridable) == forwarding_method(m, kind, overridable),
{
    lemma_items_rejection(t.items, 0);
    assert(item_rejection(t.items[i], i as usize) is None);
}

/// A forwarding method never uses one name for two parameters.
pub proof fn lemma_forwarded_names_distinct(count: nat, i: int, j: int)
    requires
        0 <= i < forwarded_names(count).len(),
        0 <= j < forwarded_names(count).len(),
        forwarded_names(count)[i] == forwarded_names(count)[j],
    ensures
        i == j,
{
    lemma_positional_name_injective((i + 1) as nat, (j + 1) as nat);
}

/// Parameter order is kept end to end: the values that a forwarding method
/// is called with are the values that it passes on, each at its position.
pub proof fn lemma_arguments_forwarded_in_order<V>(count: nat, values: Seq<V>)
    requires
        values.len() == forwarded_names(count).len(),
    ensures
        passed_values(forwarded_names(count), values, forwarded_names(count)) == values,
{
    let names = forwarded_names(count);
    let passed = passed_values(names, values, names);
    assert forall|k: int| 0 <= k < values.len() implies passed[k] == values[k] by {
        let i = choose|i: int| 0 <= i < names.len() && names[i] == names[k];
        lemma_forwarded_names_distinct(count, i, k);
    }
    assert(passed =~= values);
}

/// A method called on a delegating struct is the method of the same name
/// called on the delegated field with the same values in the same order.
pub proof fn lemma_delegation_reaches_the_field<V>(
    s: StructView,
    index: nat,
    m: MethodView,
    values: Seq<V>,
)
    requires
        index < s.fields.len(),
        values.len() == forwarded_names(m.params.len()).len(),
    ensures
        delegated_call(s, index, m, values) == (Call {
            place: field_place(s.fields[index as int], index),
            method: m.name,
            arguments: values,
        }),
{
    lemma_arguments_forwarded_in_order(m.params.len(), values);
}

/// The accessors of two fields of one struct borrow different places: a
/// change made through the one cannot reach the other. The fields are both
/// known by position, or both by names that differ.
pub proof fn lemma_sibling_fields_are_apart(s: StructView, i: nat, j: nat)
    requires
        i < s.fields.len(),
        j < s.fields.len(),
        i != j,
        s.fields[i as int].name is None <==> s.fields[j as int].name is None,
        s.fields[i as int].name is Some ==> s.fields[i as int].name != s.fields[j as int].name,
    ensures
        field_place(s.fields[i as int], i) != field_place(s.fields[j as int], j),
{
    if s.fields[i as int].name is None {
        if field_place(s.fields[i as int], i) == field_place(s.fields[j as int], j) {
            lemma_decimal_injective(i, j);
        }
    }
}

/// The two generators meet under one name: a marker that names a trait
/// makes the struct implement the linkage trait that the annotation of a
/// trait of that name declares, behind the marker's own module prefix.
/// Whether the one or the other writes the name with `r#` is no matter.
pub proof fn lemma_generators_agree_on_the_name(t: TraitView, path: TraitPathView)
    requires
        unraw(path.name) == unraw(t.name),
    ensures
        path.qualifier.len() == 0 && !path.leading_colon ==> linkage_path(path) == linkage_name(
            t.name,
        ),
        linkage_path(path).len() >= linkage_name(t.name).len(),
        linkage_path(path).subrange(
            linkage_path(path).len() - linkage_name(t.name).len(),
            linkage_path(path).len() as int,
        ) == linkage_name(t.name),
{
    let whole = linkage_path(path);
    let name = linkage_name(t.name);
    assert(qualifier_text(path.qualifier, 0) =~= Seq::<char>::empty());
    if path.qualifier.len() == 0 && !path.leading_colon {
        assert(whole =~= name);
    }
    assert(whole.subrange(whole.len() - name.len(), whole.len() as int) =~= name);
}

/// Traits with different names never share a linkage trait: delegating one
/// trait through one field and another through a second gives two
/// implementations of two different traits.
pub proof fn lemma_different_traits_link_apart(a: TraitPathView, b: TraitPathView)
    requires
        unraw(a.name) != unraw(b.name),
        a.leading_colon == b.leading_colon,
        a.qualifier == b.qualifier,
    ensures
        linkage_path(a) != linkage_path(b),
{
    if linkage_path(a) == linkage_path(b) {
        let head = word_if(a.leading_colon, "::"@) + qualifier_text(
            a.qualifier,
            a.qualifier.len(),
        );
        let pa = linkage_path(a);
        let pb = linkage_path(b);
        assert(pa.subrange(head.len() as int, pa.len() as int) =~= linkage_name(a.name));
        assert(pb.subrange(head.len() as int, pb.len() as int) =~= linkage_name(b.name));
        lemma_linkage_name_injective(a.name, b.name);
    }
}

/// What the linker makes for one field depends on that field and on the
/// struct's name, generic parameters and `where` clause alone: markers on
/// other fields do not change it.
pub proof fn lemma_links_are_independent(a: StructView, b: StructView, index: nat)
    requires
        index < a.fields.len(),
        index < b.fields.len(),
        a.fields[index as int] == b.fields[index as int],
        a.name == b.name,
        a.impl_generics == b.impl_generics,
        a.type_generics == b.type_generics,
        a.where_clause == b.where_clause,
    ensures
        field_link(a, index) == field_link(b, index),
{
}

/// Annotating is determined by its input: two answers to the same
/// parameter list and declaration are the same text, or the same rejection
/// with the same message.
pub proof fn lemma_annotation_is_determined(
    params: Seq<char>,
    input: Seq<char>,
    overridable: bool,
    first: Result<String, Diagnostic>,
    second: Result<String, Diagnostic>,
)
    requires
        outcome(first) == inheritable_outcome(params, input, overridable),
        outcome(second) == inheritable_outcome(params, input, overridable),
    ensures
        outcome(first) == outcome(second),
{
}

/// Linking is determined by its input in the same way.
pub proof fn lemma_linking_is_determined(
    input: Seq<char>,
    first: Result<String, Diagnostic>,
    second: Result<String, Diagnostic>,
)
    requires
        outcome(first) == derive_outcome(input),
        outcome(second) == derive_outcome(input),
    ensures
        outcome(first) == outcome(second),
{
}

} // verus!
