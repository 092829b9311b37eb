//! From the parser's tree of a trait declaration to the declaration held
//! as plain values.

use crate::declaration::{
    MethodSig, MethodView, Param, ParamShape, ParamView, TraitDecl, TraitItem, TraitItemView,
    TraitView,
};
use crate::text::{join_spaced, reads_as, spaced_parts, word_if};
use crate::trait_syntax::{
    arg_attributes, arg_attributes_of, arg_form, arg_form_of, arg_pattern_name,
    arg_pattern_name_of, arg_referent, arg_referent_of, arg_text, arg_text_of, arg_type, arg_type_of, method_abi,
    method_abi_of, method_generics, method_generics_of, method_input, method_input_count,
    method_inputs_of, method_modifiers, method_modifiers_of, method_name, method_name_of,
    method_output, method_output_of, method_turbofish, method_turbofish_of, method_variadic,
    method_variadic_of, method_where_clause, method_where_of, trait_generic_count,
    trait_generic_count_of, trait_item_count, trait_item_method, trait_items_of, trait_name,
    trait_name_of,
};
use vstd::prelude::*;

verus! {

/// What stands before `fn` in a method: its modifiers in the order `const`,
/// `async`, `unsafe`, then its ABI, each followed by a space.
pub open spec fn qualifiers_text(modifiers: (bool, bool, bool), abi: Seq<char>) -> Seq<char> {
    word_if(modifiers.0, "const "@) + word_if(modifiers.1, "async "@) + word_if(
        modifiers.2,
        "unsafe "@,
    ) + word_if(abi.len() > 0, abi + " "@)
}

/// The shape of a parameter of the given form whose pattern binds the given
/// identifier and whose type refers to the given type.
pub open spec fn shape_of(
    form: (bool, bool, bool),
    pattern: Option<Seq<char>>,
    referent: Option<Seq<char>>,
) -> ParamShape {
    if form.0 {
        ParamShape::Shorthand { reference: form.1, mutable: form.2 }
    } else {
        ParamShape::Typed {
            binds_self: pattern == Some("self"@),
            reference: form.1,
            mutable: form.2,
            to_self: referent == Some("Self"@),
        }
    }
}

/// The parameter that the parser's tree describes.
pub open spec fn param_of(arg: syn::FnArg) -> ParamView {
    ParamView {
        shape: shape_of(arg_form_of(arg), arg_pattern_name_of(arg), arg_referent_of(arg)),
        attributes: spaced_parts(arg_attributes_of(arg), arg_attributes_of(arg).len()),
        ty: arg_type_of(arg),
        written: arg_text_of(arg),
    }
}

/// The method signature that the parser's tree describes.
pub open spec fn method_of(method: syn::TraitItemMethod) -> MethodView {
    MethodView {
        name: method_name_of(method),
        qualifiers: qualifiers_text(method_modifiers_of(method), method_abi_of(method)),
        generics: method_generics_of(method),
        turbofish: method_turbofish_of(method),
        params: method_inputs_of(method).map_values(|arg: syn::FnArg| param_of(arg)),
        variadic: method_variadic_of(method),
        output: method_output_of(method),
        where_clause: method_where_of(method),
    }
}

/// The trait item that the parser's tree describes.
pub open spec fn item_of(item: Option<syn::TraitItemMethod>) -> TraitItemView {
    match item {
        Some(method) => TraitItemView::Method(method_of(method)),
        None => TraitItemView::Other,
    }
}

/// The trait declaration that the parser's tree describes.
pub open spec fn trait_of(item: syn::ItemTrait) -> TraitView {
    TraitView {
        name: trait_name_of(item),
        generic_params: trait_generic_count_of(item),
        items: trait_items_of(item).map_values(|i: Option<syn::TraitItemMethod>| item_of(i)),
    }
}

/// Reads one parameter.
pub fn read_param(arg: &syn::FnArg) -> (r: Param)
    ensures
        r@ == param_of(*arg),
{
    let form = arg_form(arg);
    let shape = if form.0 {
        ParamShape::Shorthand { reference: form.1, mutable: form.2 }
    } else {
        let binds_self = match arg_pattern_name(arg) {
            Some(name) => reads_as(&name, "self"),
            None => false,
        };
        let to_self = match arg_referent(arg) {
            Some(referent) => reads_as(&referent, "Self"),
            None => false,
        };
        ParamShape::Typed { binds_self, reference: form.1, mutable: form.2, to_self }
    };
    let attributes = arg_attributes(arg);
    Param {
        shape,
        attributes: join_spaced(&attributes),
        ty: arg_type(arg),
        written: arg_text(arg),
    }
}

/// Reads what stands before `fn` in a method.
fn read_qualifiers(method: &syn::TraitItemMethod) -> (r: String)
    ensures
        r@ == qualifiers_text(method_modifiers_of(*method), method_abi_of(*method)),
{
    let modifiers = method_modifiers(method);
    let abi = method_abi(method);
    let mut out = String::new();
    if modifiers.0 {
        out.append("const ");
    }
    if modifiers.1 {
        out.append("async ");
    }
    if modifiers.2 {
        out.append("unsafe ");
    }
    if abi.as_str().unicode_len() > 0 {
        out.append(abi.as_str());
        out.append(" ");
    }
    assert(out@ =~= qualifiers_text(method_modifiers_of(*method), method_abi_of(*method)));
    out
}

/// Reads the signature of one method.
pub fn read_method(method: &syn::TraitItemMethod) -> (r: MethodSig)
    ensures
        r@ == method_of(*method),
{
    let n = method_input_count(method);
    let mut params: Vec<Param> = Vec::new();
    let mut i: usize = 0;
    while i < n
        invariant
            n == method_inputs_of(*method).len(),
            i <= n,
            params@.len() == i,
            forall|k: int| 0 <= k < i ==> (#[trigger] params@[k])@ == param_of(method_inputs_of(*method)[k]),
        decreases n - i,
    {
        let param = read_param(method_input(method, i));
        params.push(param);
        i = i + 1;
    }
    let r = MethodSig {
        name: method_name(method),
        qualifiers: read_qualifiers(method),
        generics: method_generics(method),
        turbofish: method_turbofish(method),
        params,
        variadic: method_variadic(method),
        output: method_output(method),
        where_clause: method_where_clause(method),
    };
    assert(r@.params =~= method_of(*method).params);
    r
}

/// Reads a trait declaration.
pub fn read_trait(item: &syn::ItemTrait) -> (r: TraitDecl)
    ensures
        r@ == trait_of(*item),
{
    let n = trait_item_count(item);
    let mut items: Vec<TraitItem> = Vec::new();
    let mut i: usize = 0;
    while i < n
        invariant
            n == trait_items_of(*item).len(),
            i <= n,
            items@.len() == i,
            forall|k: int| 0 <= k < i ==> (#[trigger] items@[k])@ == item_of(trait_items_of(*item)[k]),
        decreases n - i,
    {
        let read = match trait_item_method(item, i) {
            Some(method) => TraitItem::Method(read_method(method)),
            None => TraitItem::Other,
        };
        items.push(read);
        i = i + 1;
    }
    let r = TraitDecl { name: trait_name(item), generic_params: trait_generic_count(item), items };
    assert(r@.items =~= trait_of(*item).items);
    r
}

} // verus!
