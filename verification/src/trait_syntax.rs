//! The boundary to the host-language parser: trait declarations.
//!
//! A trait declaration is a `syn::ItemTrait`, a method in it a
//! `syn::TraitItemMethod`, a parameter a `syn::FnArg`. Texts are what
//! `quote::ToTokens::to_token_stream` makes of a piece of syntax, printed
//! by `proc_macro2::TokenStream`'s `Display`; names of things are what the
//! `Display` of `proc_macro2::Ident` prints.

use crate::literals::stream_readable;
use quote::ToTokens;
use vstd::prelude::*;

verus! {

/// `syn::ItemTrait`, the parser's tree of a trait declaration. Opaque: what
/// the generators need of it is read by the functions below.
#[verifier::external_type_specification]
#[verifier::external_body]
pub struct ExItemTrait(syn::ItemTrait);

/// `syn::TraitItemMethod`, the parser's tree of a method in a trait. Opaque.
#[verifier::external_type_specification]
#[verifier::external_body]
pub struct ExTraitItemMethod(syn::TraitItemMethod);

/// `syn::FnArg`, the parser's tree of a parameter. Opaque.
#[verifier::external_type_specification]
#[verifier::external_body]
pub struct ExFnArg(syn::FnArg);

/// The outcome of parsing the whole of a stream as one trait declaration.
pub uninterp spec fn parsed_trait(tokens: proc_macro2::TokenStream) -> Result<
    syn::ItemTrait,
    syn::Error,
>;

/// Calls `syn::parse2` at `syn::ItemTrait`, which gives up where it meets a
/// literal of a kind it does not know (`Lit::new`); a stream with such a
/// literal, at any depth, is left out. A number is known as soon as it
/// starts with a digit: what the lexer takes for a number, the parser reads
/// as an integer or as a float. Trusted: what it gives for a stream is
/// `parsed_trait` of that stream.
#[verifier::external_body]
pub(crate) fn parse_trait(tokens: proc_macro2::TokenStream) -> (r: Result<
    syn::ItemTrait,
    syn::Error,
>)
    requires
        exists|depth: nat| stream_readable(tokens, depth),
    ensures
        r == parsed_trait(tokens),
{
    syn::parse2::<syn::ItemTrait>(tokens)
}

/// The name that a trait declaration gives its trait.
pub uninterp spec fn trait_name_of(item: syn::ItemTrait) -> Seq<char>;

/// Calls `to_string` on the trait's `ident`. Trusted: the text is
/// `trait_name_of` of the declaration.
#[verifier::external_body]
pub(crate) fn trait_name(item: &syn::ItemTrait) -> (r: String)
    ensures
        r@ == trait_name_of(*item),
{
    item.ident.to_string()
}

/// How many generic parameters a trait declaration has: type, lifetime and
/// const parameters together.
pub uninterp spec fn trait_generic_count_of(item: syn::ItemTrait) -> nat;

/// Calls `Punctuated::len` on the trait's `generics.params`. Trusted: the
/// number is `trait_generic_count_of` of the declaration.
#[verifier::external_body]
pub(crate) fn trait_generic_count(item: &syn::ItemTrait) -> (r: usize)
    ensures
        r == trait_generic_count_of(*item),
{
    item.generics.params.len()
}

/// The items of a trait declaration in source order: each method, and `None`
/// in the place of an item that is no method.
pub uninterp spec fn trait_items_of(item: syn::ItemTrait) -> Seq<Option<syn::TraitItemMethod>>;

/// Calls `Vec::len` on the trait's `items`. Trusted: the number is the
/// length of `trait_items_of`.
#[verifier::external_body]
pub(crate) fn trait_item_count(item: &syn::ItemTrait) -> (r: usize)
    ensures
        r == trait_items_of(*item).len(),
{
    item.items.len()
}

/// Indexes the trait's `items` and tells `TraitItem::Method` from the other
/// variants. Trusted: the answer is the entry of `trait_items_of` at
/// `index`.
#[verifier::external_body]
pub(crate) fn trait_item_method(item: &syn::ItemTrait, index: usize) -> (r: Option<
    &syn::TraitItemMethod,
>)
    requires
        index < trait_items_of(*item).len(),
    ensures
        r matches Some(method) ==> trait_items_of(*item)[index as int] == Some(*method),
        r is None ==> trait_items_of(*item)[index as int] is None,
{
    match &item.items[index] {
        syn::TraitItem::Method(method) => Some(method),
        _ => None,
    }
}

/// The name of a method.
pub uninterp spec fn method_name_of(method: syn::TraitItemMethod) -> Seq<char>;

/// Calls `to_string` on the method's `sig.ident`. Trusted: the text is
/// `method_name_of` of the method.
#[verifier::external_body]
pub(crate) fn method_name(method: &syn::TraitItemMethod) -> (r: String)
    ensures
        r@ == method_name_of(*method),
{
    method.sig.ident.to_string()
}

/// Whether a method is written with `const`, with `async`, with `unsafe`,
/// in this order.
pub uninterp spec fn method_modifiers_of(method: syn::TraitItemMethod) -> (bool, bool, bool);

/// Reads whether `sig.constness`, `sig.asyncness` and `sig.unsafety` are
/// present. Trusted: the three answers are `method_modifiers_of` of the
/// method.
#[verifier::external_body]
pub(crate) fn method_modifiers(method: &syn::TraitItemMethod) -> (r: (bool, bool, bool))
    ensures
        r == method_modifiers_of(*method),
{
    let sig = &method.sig;
    (sig.constness.is_some(), sig.asyncness.is_some(), sig.unsafety.is_some())
}

/// The ABI that a method names, as written (`extern "C"`), or nothing.
pub uninterp spec fn method_abi_of(method: syn::TraitItemMethod) -> Seq<char>;

/// Prints `sig.abi`. Trusted: the text is `method_abi_of` of the method.
#[verifier::external_body]
pub(crate) fn method_abi(method: &syn::TraitItemMethod) -> (r: String)
    ensures
        r@ == method_abi_of(*method),
{
    method.sig.abi.to_token_stream().to_string()
}

/// A method's generic parameters in angle brackets, or nothing.
pub uninterp spec fn method_generics_of(method: syn::TraitItemMethod) -> Seq<char>;

/// Prints `sig.generics`. Trusted: the text is `method_generics_of` of the
/// method.
#[verifier::external_body]
pub(crate) fn method_generics(method: &syn::TraitItemMethod) -> (r: String)
    ensures
        r@ == method_generics_of(*method),
{
    method.sig.generics.to_token_stream().to_string()
}

/// A method's generic parameters as the arguments of a call (`::<T>`), or
/// nothing.
pub uninterp spec fn method_turbofish_of(method: syn::TraitItemMethod) -> Seq<char>;

/// Calls `Generics::split_for_impl` on `sig.generics` and
/// `TypeGenerics::as_turbofish` on its second part, and prints that.
/// Trusted: the text is `method_turbofish_of` of the method.
#[verifier::external_body]
pub(crate) fn method_turbofish(method: &syn::TraitItemMethod) -> (r: String)
    ensures
        r@ == method_turbofish_of(*method),
{
    method.sig.generics.split_for_impl().1.as_turbofish().to_token_stream().to_string()
}

/// A method's `where` clause, or nothing.
pub uninterp spec fn method_where_of(method: syn::TraitItemMethod) -> Seq<char>;

/// Prints `sig.generics.where_clause`. Trusted: the text is
/// `method_where_of` of the method.
#[verifier::external_body]
pub(crate) fn method_where_clause(method: &syn::TraitItemMethod) -> (r: String)
    ensures
        r@ == method_where_of(*method),
{
    method.sig.generics.where_clause.to_token_stream().to_string()
}

/// A method's arrow and return type, or nothing.
pub uninterp spec fn method_output_of(method: syn::TraitItemMethod) -> Seq<char>;

/// Prints `sig.output`. Trusted: the text is `method_output_of` of the
/// method.
#[verifier::external_body]
pub(crate) fn method_output(method: &syn::TraitItemMethod) -> (r: String)
    ensures
        r@ == method_output_of(*method),
{
    method.sig.output.to_token_stream().to_string()
}

/// A method's trailing `...`, or nothing.
pub uninterp spec fn method_variadic_of(method: syn::TraitItemMethod) -> Seq<char>;

/// Prints `sig.variadic`. Trusted: the text is `method_variadic_of` of the
/// method.
#[verifier::external_body]
pub(crate) fn method_variadic(method: &syn::TraitItemMethod) -> (r: String)
    ensures
        r@ == method_variadic_of(*method),
{
    method.sig.variadic.to_token_stream().to_string()
}

/// The parameters of a method in order, the receiver included.
pub uninterp spec fn method_inputs_of(method: syn::TraitItemMethod) -> Seq<syn::FnArg>;

/// Calls `Punctuated::len` on `sig.inputs`. Trusted: the number is the
/// length of `method_inputs_of`.
#[verifier::external_body]
pub(crate) fn method_input_count(method: &syn::TraitItemMethod) -> (r: usize)
    ensures
        r == method_inputs_of(*method).len(),
{
    method.sig.inputs.len()
}

/// Calls `Punctuated::index` on `sig.inputs`, which panics beyond the last
/// parameter. Trusted: the parameter is the entry of `method_inputs_of` at
/// `index`.
#[verifier::external_body]
pub(crate) fn method_input(method: &syn::TraitItemMethod, index: usize) -> (r: &syn::FnArg)
    requires
        index < method_inputs_of(*method).len(),
    ensures
        *r == method_inputs_of(*method)[index as int],
{
    &method.sig.inputs[index]
}

/// Whether a parameter is the `self` shorthand; whether it is a reference
/// (`&self`), or, with a pattern and a type, its type is one; whether that
/// reference is mutable.
pub uninterp spec fn arg_form_of(arg: syn::FnArg) -> (bool, bool, bool);

/// Tells `FnArg::Receiver` from `FnArg::Typed`, reads the `reference` and
/// `mutability` of the first, and of the second whether its `ty` is
/// `Type::Reference` and the `mutability` of that. Trusted: the three
/// answers are `arg_form_of` of the parameter.
#[verifier::external_body]
pub(crate) fn arg_form(arg: &syn::FnArg) -> (r: (bool, bool, bool))
    ensures
        r == arg_form_of(*arg),
{
    match arg {
        syn::FnArg::Receiver(receiver) => (
            true,
            receiver.reference.is_some(),
            receiver.mutability.is_some(),
        ),
        syn::FnArg::Typed(typed) => match &*typed.ty {
            syn::Type::Reference(reference) => (false, true, reference.mutability.is_some()),
            _ => (false, false, false),
        },
    }
}

/// The identifier that a parameter's pattern binds, where the parameter has
/// a pattern and the pattern is an identifier.
pub uninterp spec fn arg_pattern_name_of(arg: syn::FnArg) -> Option<Seq<char>>;

/// Calls `to_string` on the `ident` of a `Pat::Ident` that is the `pat` of
/// `FnArg::Typed`. Trusted: the answer is `arg_pattern_name_of` of the
/// parameter.
#[verifier::external_body]
pub(crate) fn arg_pattern_name(arg: &syn::FnArg) -> (r: Option<String>)
    ensures
        r is Some <==> arg_pattern_name_of(*arg) is Some,
        r matches Some(name) ==> arg_pattern_name_of(*arg) == Some(name@),
{
    match arg {
        syn::FnArg::Receiver(_) => None,
        syn::FnArg::Typed(typed) => match &*typed.pat {
            syn::Pat::Ident(pattern) => Some(pattern.ident.to_string()),
            _ => None,
        },
    }
}

/// The type that a parameter's type refers to, as written, where the
/// parameter has a type and the type is a reference.
pub uninterp spec fn arg_referent_of(arg: syn::FnArg) -> Option<Seq<char>>;

/// Prints the `elem` of a `Type::Reference` that is the `ty` of
/// `FnArg::Typed`. Trusted: the answer is `arg_referent_of` of the
/// parameter.
#[verifier::external_body]
pub(crate) fn arg_referent(arg: &syn::FnArg) -> (r: Option<String>)
    ensures
        r is Some <==> arg_referent_of(*arg) is Some,
        r matches Some(text) ==> arg_referent_of(*arg) == Some(text@),
{
    match arg {
        syn::FnArg::Receiver(_) => None,
        syn::FnArg::Typed(typed) => match &*typed.ty {
            syn::Type::Reference(reference) => Some(reference.elem.to_token_stream().to_string()),
            _ => None,
        },
    }
}

/// The attributes of a parameter in order, each as written.
pub uninterp spec fn arg_attributes_of(arg: syn::FnArg) -> Seq<Seq<char>>;

/// Prints each of the parameter's `attrs`. Trusted: the texts are
/// `arg_attributes_of` of the parameter.
#[verifier::external_body]
pub(crate) fn arg_attributes(arg: &syn::FnArg) -> (r: Vec<String>)
    ensures
        r.deep_view() == arg_attributes_of(*arg),
{
    let attrs = match arg {
        syn::FnArg::Receiver(receiver) => &receiver.attrs,
        syn::FnArg::Typed(typed) => &typed.attrs,
    };
    attrs.iter().map(|attr| attr.to_token_stream().to_string()).collect()
}

/// The type of a parameter as written; nothing for the `self` shorthand.
pub uninterp spec fn arg_type_of(arg: syn::FnArg) -> Seq<char>;

/// Prints the `ty` of `FnArg::Typed`. Trusted: the text is `arg_type_of`
/// of the parameter.
#[verifier::external_body]
pub(crate) fn arg_type(arg: &syn::FnArg) -> (r: String)
    ensures
        r@ == arg_type_of(*arg),
{
    match arg {
        syn::FnArg::Receiver(_) => String::new(),
        syn::FnArg::Typed(typed) => typed.ty.to_token_stream().to_string(),
    }
}

/// A parameter as written, attributes included.
pub uninterp spec fn arg_text_of(arg: syn::FnArg) -> Seq<char>;

/// Prints the parameter. Trusted: the text is `arg_text_of` of the
/// parameter.
#[verifier::external_body]
pub(crate) fn arg_text(arg: &syn::FnArg) -> (r: String)
    ensures
        r@ == arg_text_of(*arg),
{
    arg.to_token_stream().to_string()
}

} // verus!
