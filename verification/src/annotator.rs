//! The trait annotator.
//!
//! From a trait declaration it makes three things: the declaration itself,
//! unchanged; the hidden linkage trait, which names a parent type and two
//! accessors that borrow the parent; and an implementation of the trait for
//! every type that has the linkage trait, in which each method borrows the
//! parent and calls the method of the same name on it.

use crate::declaration::{
    MethodSig, MethodView, Param, ParamView, TraitDecl, TraitItem, TraitItemView, TraitView,
};
use crate::diagnostic::{Diagnostic, fixed_message, outcome, Rejection};
use crate::literals::{read_tokens, readable_tokens};
use crate::naming::{
    accessor, accessor_name, linkage_name, positional_name, push_linkage_name,
    push_positional_name, ReceiverKind,
};
use crate::trait_reader::{read_trait, trait_of};
use crate::text::{led, push_led, reads_as, word_if};
use crate::syntax::{error_message, error_text, lex, lexed, stream_is_empty, tokens_empty};
use crate::trait_syntax::{parse_trait, parsed_trait};
use vstd::prelude::*;

verus! {

/// Why one item keeps its trait from being annotated, if it does: it is no
/// method, or it is a method that does not start with a reference-style
/// receiver.
pub open spec fn item_rejection(item: TraitItemView, index: usize) -> Option<Rejection> {
    match item {
        TraitItemView::Other => Some(Rejection::NotAMethod { item: index }),
        TraitItemView::Method(m) => if m.receiver() is Some {
            None
        } else {
            Some(Rejection::InvalidReceiver { item: index, at_parameter: m.params.len() > 0 })
        },
    }
}

/// The rejection of the first item at or after position `from` that has one.
pub open spec fn items_rejection(items: Seq<TraitItemView>, from: nat) -> Option<Rejection>
    decreases items.len() - from,
{
    if from >= items.len() {
        None
    } else if item_rejection(items[from as int], from as usize) is Some {
        item_rejection(items[from as int], from as usize)
    } else {
        items_rejection(items, from + 1)
    }
}

/// Why a trait cannot be annotated, if it cannot: generic parameters on the
/// trait come first, then the items in source order.
pub open spec fn trait_rejection(t: TraitView) -> Option<Rejection> {
    if t.generic_params > 0 {
        Some(Rejection::TraitGenerics)
    } else {
        items_rejection(t.items, 0)
    }
}

/// The rejection that `items_rejection` reports belongs to the first item
/// that has one, and it reports none exactly when no item has one.
pub proof fn lemma_items_rejection(items: Seq<TraitItemView>, from: nat)
    requires
        from <= items.len(),
    ensures
        items_rejection(items, from) is None <==> forall|i: int|
            from <= i < items.len() ==> item_rejection(#[trigger] items[i], i as usize) is None,
        items_rejection(items, from) is Some ==> exists|i: int|
            {
                &&& from <= i < items.len()
                &&& item_rejection(#[trigger] items[i], i as usize) == items_rejection(items, from)
                &&& forall|j: int|
                    from <= j < i ==> item_rejection(#[trigger] items[j], j as usize) is None
            },
    decreases items.len() - from,
{
    if from < items.len() {
        if item_rejection(items[from as int], from as usize) is Some {
            assert(from <= from < items.len() && item_rejection(
                items[from as int],
                from as int as usize,
            ) == items_rejection(items, from));
        } else {
            lemma_items_rejection(items, from + 1);
            if items_rejection(items, from) is Some {
                let i = choose|i: int|
                    {
                        &&& from + 1 <= i < items.len()
                        &&& item_rejection(#[trigger] items[i], i as usize) == items_rejection(
                            items,
                            from + 1,
                        )
                        &&& forall|j: int|
                            from + 1 <= j < i ==> item_rejection(
                                #[trigger] items[j],
                                j as usize,
                            ) is None
                    };
                assert forall|j: int| from <= j < i implies item_rejection(
                    #[trigger] items[j],
                    j as usize,
                ) is None by {
                    if j == from {
                    }
                }
            } else {
                assert forall|i: int| from <= i < items.len() implies item_rejection(
                    #[trigger] items[i],
                    i as usize,
                ) is None by {
                    if i == from {
                    }
                }
            }
        }
    }
}

/// Checks one item of a trait.
pub fn check_item(item: &TraitItem, index: usize) -> (r: Option<Rejection>)
    ensures
        r == item_rejection(item@, index),
{
    match item {
        TraitItem::Other => Some(Rejection::NotAMethod { item: index }),
        TraitItem::Method(m) => match m.receiver() {
            Some(_) => None,
            None => {
                assert(m@.params.len() == m.params@.len());
                Some(Rejection::InvalidReceiver { item: index, at_parameter: m.params.len() > 0 })
            },
        },
    }
}

/// Checks that a trait can be annotated: it has no generic parameters, all
/// its items are methods, and every method starts with a reference-style
/// receiver. The first offence in source order is the one reported.
pub fn check_trait(decl: &TraitDecl) -> (r: Result<(), Diagnostic>)
    ensures
        r is Ok <==> trait_rejection(decl@) is None,
        r matches Err(d) ==> trait_rejection(decl@) == Some(d.rejection) && d.message@
            == fixed_message(d.rejection),
{
    if decl.generic_params > 0 {
        return Err(Diagnostic::fixed(Rejection::TraitGenerics));
    }
    let n = decl.items.len();
    let mut i: usize = 0;
    while i < n
        invariant
            n == decl.items@.len(),
            i <= n,
            decl@.items.len() == n,
            decl@.generic_params == 0,
            items_rejection(decl@.items, 0) == items_rejection(decl@.items, i as nat),
        decreases n - i,
    {
        assert(decl@.items[i as int] == decl.items@[i as int]@);
        match check_item(&decl.items[i], i) {
            Some(rejection) => {
                return Err(Diagnostic::fixed(rejection));
            },
            None => {},
        }
        i = i + 1;
    }
    Ok(())
}

/// The names that a forwarding method gives its parameters after the
/// receiver, in order, for a method of `count` parameters, the receiver
/// included: the parameter at position `i` is called after `i`.
pub open spec fn forwarded_names(count: nat) -> Seq<Seq<char>> {
    Seq::new(
        if count > 0 {
            (count - 1) as nat
        } else {
            0
        },
        |i: int| positional_name((i + 1) as nat),
    )
}

/// A parameter under a new name: its attributes, the name, its type.
pub open spec fn renamed_param(param: ParamView, name: Seq<char>) -> Seq<char> {
    param.attributes + name + ": "@ + param.ty
}

/// The parameters of a forwarding method after the receiver, up to position
/// `upto`: each comes after a comma, keeps its attributes and its type, and
/// gets the name that belongs to its position.
pub open spec fn forwarded_params(params: Seq<ParamView>, upto: nat) -> Seq<char>
    decreases upto,
{
    if upto <= 1 {
        Seq::empty()
    } else {
        let position = (upto - 1) as nat;
        forwarded_params(params, position) + ", "@ + renamed_param(
            params[position as int],
            forwarded_names(params.len())[position - 1],
        )
    }
}

/// The first `upto` of `names`, in order, with commas between them.
pub open spec fn comma_separated(names: Seq<Seq<char>>, upto: nat) -> Seq<char>
    decreases upto,
{
    if upto == 0 {
        Seq::empty()
    } else if upto == 1 {
        names[0]
    } else {
        comma_separated(names, (upto - 1) as nat) + ", "@ + names[upto - 1]
    }
}

/// The arguments of the forwarded call for a method of `count` parameters,
/// the receiver included: the names of the parameters after the receiver,
/// in the order of the parameters.
pub open spec fn forwarded_args(count: nat) -> Seq<char> {
    comma_separated(forwarded_names(count), forwarded_names(count).len())
}

/// The word that marks a method as open to a narrower implementation.
pub open spec fn override_marker(overridable: bool) -> Seq<char> {
    word_if(overridable, "default "@)
}

/// Whether the last parameter of a method is itself written with `...` in
/// the place of its type.
pub open spec fn ends_in_dots(m: MethodView) -> bool {
    m.params.len() > 0 && m.params.last().ty == "..."@
}

/// A trailing `...` after the parameters, where the method has one and its
/// last parameter does not already bring the dots.
pub open spec fn variadic_tail(m: MethodView) -> Seq<char> {
    word_if(m.variadic.len() > 0 && !ends_in_dots(m), ", "@ + m.variadic)
}

/// The signature of the forwarding method: that of the method, with every
/// parameter after the receiver renamed after its position.
pub open spec fn forwarding_signature(m: MethodView) -> Seq<char> {
    m.qualifiers + "fn "@ + m.name + m.generics + "("@ + m.params[0].written + forwarded_params(
        m.params,
        m.params.len(),
    ) + variadic_tail(m) + ")"@ + led(m.output) + led(m.where_clause)
}

/// The body of the forwarding method: borrow the parent through the accessor
/// that fits the receiver, and call the method of the same name on it, with
/// the method's own generic parameters spelled out and the arguments in the
/// order of the parameters.
pub open spec fn forwarding_body(m: MethodView, kind: ReceiverKind) -> Seq<char> {
    "{ self."@ + accessor_name(kind) + "()."@ + m.name + m.turbofish + "("@ + forwarded_args(
        m.params.len(),
    ) + ") }"@
}

/// One method of the blanket implementation, on a line of its own.
pub open spec fn forwarding_method(m: MethodView, kind: ReceiverKind, overridable: bool) -> Seq<
    char,
> {
    "#[inline] "@ + override_marker(overridable) + forwarding_signature(m) + " "@
        + forwarding_body(m, kind) + "\n"@
}

/// Appends the parameters of the forwarding method after the receiver.
fn push_forwarded_params(out: &mut String, m: &MethodSig)
    ensures
        final(out)@ == old(out)@ + forwarded_params(m@.params, m@.params.len()),
{
    let n = m.params.len();
    if n <= 1 {
        assert(out@ =~= old(out)@ + forwarded_params(m@.params, n as nat));
        return ;
    }
    let mut i: usize = 1;
    assert(out@ =~= old(out)@ + forwarded_params(m@.params, 1));
    while i < n
        invariant
            n == m.params@.len(),
            n == m@.params.len(),
            1 <= i <= n,
            out@ == old(out)@ + forwarded_params(m@.params, i as nat),
        decreases n - i,
    {
        let param = &m.params[i];
        let ghost before = out@;
        let ghost name = forwarded_names(n as nat)[i - 1];
        assert(m@.params[i as int] == param@);
        assert(name == positional_name(i as nat));
        out.append(", ");
        out.append(param.attributes.as_str());
        push_positional_name(out, i);
        out.append(": ");
        out.append(param.ty.as_str());
        i = i + 1;
        assert(out@ =~= old(out)@ + forwarded_params(m@.params, i as nat)) by {
            assert(out@ =~= before + ", "@ + renamed_param(param@, name));
        }
    }
}

/// Appends the arguments of the forwarded call.
fn push_forwarded_args(out: &mut String, count: usize)
    ensures
        final(out)@ == old(out)@ + forwarded_args(count as nat),
{
    let ghost names = forwarded_names(count as nat);
    if count <= 1 {
        assert(out@ =~= old(out)@ + forwarded_args(count as nat));
        return ;
    }
    assert(names[0] == positional_name(1));
    push_positional_name(out, 1);
    let mut i: usize = 2;
    while i < count
        invariant
            2 <= i <= count,
            names == forwarded_names(count as nat),
            out@ == old(out)@ + comma_separated(names, (i - 1) as nat),
        decreases count - i,
    {
        let ghost before = out@;
        assert(names[i - 1] == positional_name(i as nat));
        out.append(", ");
        push_positional_name(out, i);
        i = i + 1;
        assert(out@ =~= old(out)@ + comma_separated(names, (i - 1) as nat)) by {
            assert(out@ =~= before + ", "@ + names[i - 2]);
        }
    }
}

/// Appends the signature of the forwarding method.
fn push_forwarding_signature(out: &mut String, m: &MethodSig)
    requires
        m.params@.len() > 0,
    ensures
        final(out)@ == old(out)@ + forwarding_signature(m@),
{
    assert(m@.params[0] == m.params@[0]@);
    out.append(m.qualifiers.as_str());
    out.append("fn ");
    out.append(m.name.as_str());
    out.append(m.generics.as_str());
    out.append("(");
    out.append(m.params[0].written.as_str());
    let ghost head = out@;
    assert(head =~= old(out)@ + (m@.qualifiers + "fn "@ + m@.name + m@.generics + "("@
        + m@.params[0].written));
    push_forwarded_params(out, m);
    let ghost listed = out@;
    let last = m.params.len() - 1;
    assert(m@.params.last() == m.params@[last as int]@);
    if m.variadic.as_str().unicode_len() > 0 && !reads_as(&m.params[last].ty, "...") {
        out.append(", ");
        out.append(m.variadic.as_str());
    }
    assert(out@ =~= listed + variadic_tail(m@));
    out.append(")");
    push_led(out, m.output.as_str());
    push_led(out, m.where_clause.as_str());
    assert(out@ =~= old(out)@ + forwarding_signature(m@));
}

/// Appends the body of the forwarding method.
fn push_forwarding_body(out: &mut String, m: &MethodSig, kind: ReceiverKind)
    ensures
        final(out)@ == old(out)@ + forwarding_body(m@, kind),
{
    out.append("{ self.");
    out.append(accessor(kind));
    out.append("().");
    out.append(m.name.as_str());
    out.append(m.turbofish.as_str());
    out.append("(");
    let ghost head = out@;
    push_forwarded_args(out, m.params.len());
    out.append(") }");
    assert(out@ =~= old(out)@ + forwarding_body(m@, kind)) by {
        assert(head =~= old(out)@ + ("{ self."@ + accessor_name(kind) + "()."@ + m@.name
            + m@.turbofish + "("@));
    }
}

/// Appends the forwarding method of `m`.
fn push_forwarding_method(out: &mut String, m: &MethodSig, kind: ReceiverKind, overridable: bool)
    requires
        m@.receiver() == Some(kind),
    ensures
        final(out)@ == old(out)@ + forwarding_method(m@, kind, overridable),
{
    out.append("#[inline] ");
    if overridable {
        out.append("default ");
    }
    let ghost head = out@;
    assert(head =~= old(out)@ + ("#[inline] "@ + override_marker(overridable)));
    push_forwarding_signature(out, m);
    out.append(" ");
    push_forwarding_body(out, m, kind);
    out.append("\n");
    assert(out@ =~= old(out)@ + forwarding_method(m@, kind, overridable));
}

/// The declaration of the linkage trait of the trait called `name`: hidden
/// from documentation, with the parent type, which must have the trait
/// itself, and the two accessors that borrow the parent.
pub open spec fn linkage_trait(name: Seq<char>) -> Seq<char> {
    "#[doc(hidden)] pub(in crate) trait "@ + linkage_name(name) + " { type __Parent__: "@ + name
        + "; fn __parent__(self: &'_ Self) -> &'_ Self::__Parent__; fn __parent_mut__(self: &'_ mut Self) -> &'_ mut Self::__Parent__; }\n"@
}

/// What one item of the trait adds to the blanket implementation: the
/// forwarding method of a method with a reference-style receiver.
pub open spec fn item_forwarding(item: TraitItemView, overridable: bool) -> Seq<char> {
    match item {
        TraitItemView::Method(m) => match m.receiver() {
            Some(kind) => forwarding_method(m, kind, overridable),
            None => Seq::empty(),
        },
        TraitItemView::Other => Seq::empty(),
    }
}

/// The forwarding methods of the first `upto` items, in source order.
pub open spec fn forwarding_methods(items: Seq<TraitItemView>, upto: nat, overridable: bool) -> Seq<
    char,
>
    decreases upto,
{
    if upto == 0 {
        Seq::empty()
    } else {
        forwarding_methods(items, (upto - 1) as nat, overridable) + item_forwarding(
            items[upto - 1],
            overridable,
        )
    }
}

/// The implementation of the trait for every type that has its linkage
/// trait.
pub open spec fn blanket_impl(t: TraitView, overridable: bool) -> Seq<char> {
    "impl<__inheritable_T__: "@ + linkage_name(t.name) + "> "@ + t.name
        + " for __inheritable_T__ {\n"@ + forwarding_methods(t.items, t.items.len(), overridable)
        + "}\n"@
}

/// All that the annotation of a trait puts in the place of its declaration:
/// the declaration as it was written, the linkage trait, and the blanket
/// implementation.
pub open spec fn expansion(source: Seq<char>, t: TraitView, overridable: bool) -> Seq<char> {
    source + "\n"@ + linkage_trait(t.name) + blanket_impl(t, overridable)
}

/// What annotating a trait comes to: its rejection with the message that
/// belongs to it, or its expansion.
pub open spec fn annotation(source: Seq<char>, t: TraitView, overridable: bool) -> Result<
    Seq<char>,
    (Rejection, Seq<char>),
> {
    match trait_rejection(t) {
        Some(rejection) => Err((rejection, fixed_message(rejection))),
        None => Ok(expansion(source, t, overridable)),
    }
}

/// Appends the declaration of the linkage trait of the trait called `name`.
fn push_linkage_trait(out: &mut String, name: &str)
    ensures
        final(out)@ == old(out)@ + linkage_trait(name@),
{
    out.append("#[doc(hidden)] pub(in crate) trait ");
    push_linkage_name(out, name);
    out.append(" { type __Parent__: ");
    out.append(name);
    out.append(
        "; fn __parent__(self: &'_ Self) -> &'_ Self::__Parent__; fn __parent_mut__(self: &'_ mut Self) -> &'_ mut Self::__Parent__; }\n",
    );
    assert(out@ =~= old(out)@ + linkage_trait(name@));
}

/// Appends what one item of the trait adds to the blanket implementation.
fn push_item_forwarding(out: &mut String, item: &TraitItem, overridable: bool)
    ensures
        final(out)@ == old(out)@ + item_forwarding(item@, overridable),
{
    match item {
        TraitItem::Method(m) => match m.receiver() {
            Some(kind) => {
                push_forwarding_method(out, m, kind, overridable);
            },
            None => {
                assert(out@ =~= old(out)@ + item_forwarding(item@, overridable));
            },
        },
        TraitItem::Other => {
            assert(out@ =~= old(out)@ + item_forwarding(item@, overridable));
        },
    }
}

/// Appends the blanket implementation of the trait.
fn push_blanket_impl(out: &mut String, decl: &TraitDecl, overridable: bool)
    ensures
        final(out)@ == old(out)@ + blanket_impl(decl@, overridable),
{
    out.append("impl<__inheritable_T__: ");
    push_linkage_name(out, decl.name.as_str());
    out.append("> ");
    out.append(decl.name.as_str());
    out.append(" for __inheritable_T__ {\n");
    let ghost head = out@;
    assert(head =~= old(out)@ + ("impl<__inheritable_T__: "@ + linkage_name(decl@.name) + "> "@
        + decl@.name + " for __inheritable_T__ {\n"@));
    let n = decl.items.len();
    let mut i: usize = 0;
    assert(out@ =~= head + forwarding_methods(decl@.items, 0, overridable));
    while i < n
        invariant
            n == decl.items@.len(),
            n == decl@.items.len(),
            i <= n,
            out@ == head + forwarding_methods(decl@.items, i as nat, overridable),
        decreases n - i,
    {
        assert(decl@.items[i as int] == decl.items@[i as int]@);
        push_item_forwarding(out, &decl.items[i], overridable);
        i = i + 1;
        assert(out@ =~= head + forwarding_methods(decl@.items, i as nat, overridable));
    }
    out.append("}\n");
    assert(out@ =~= old(out)@ + blanket_impl(decl@, overridable));
}

/// The expansion of a trait: its declaration `source` as written, then the
/// linkage trait, then the blanket implementation.
pub fn expand(source: &str, decl: &TraitDecl, overridable: bool) -> (r: String)
    ensures
        r@ == expansion(source@, decl@, overridable),
{
    let mut out = String::from_str(source);
    out.append("\n");
    push_linkage_trait(&mut out, decl.name.as_str());
    push_blanket_impl(&mut out, decl, overridable);
    assert(out@ =~= expansion(source@, decl@, overridable));
    out
}

/// Annotates the trait that `source` declares and `decl` describes: checks
/// it, and expands it if nothing speaks against it.
pub fn annotate(source: &str, decl: &TraitDecl, overridable: bool) -> (r: Result<
    String,
    Diagnostic,
>)
    ensures
        outcome(r) == annotation(source@, decl@, overridable),
{
    match check_trait(decl) {
        Err(d) => Err(d),
        Ok(()) => Ok(expand(source, decl, overridable)),
    }
}

/// Whether the parameter list of an annotation holds nothing: it splits
/// into tokens, and there is none.
pub open spec fn parameters_absent(params: Seq<char>) -> bool {
    match lexed(params) {
        Ok(tokens) => stream_is_empty(tokens),
        Err(_) => false,
    }
}

/// What the annotation of the declaration `input` with the parameter list
/// `params` comes to. Parameters are turned down before the declaration is
/// looked at; a text that cannot be handed to the parser is turned down,
/// and so is one that is no trait declaration, with the parser's message;
/// a trait is then checked and expanded.
pub open spec fn inheritable_outcome(params: Seq<char>, input: Seq<char>, overridable: bool)
    -> Result<Seq<char>, (Rejection, Seq<char>)> {
    if !parameters_absent(params) {
        Err((Rejection::UnexpectedParameters, fixed_message(Rejection::UnexpectedParameters)))
    } else {
        match readable_tokens(input) {
            Err(rejected) => Err(rejected),
            Ok(tokens) => match parsed_trait(tokens) {
                Err(error) => Err((Rejection::Syntax, error_text(error))),
                Ok(item) => annotation(input, trait_of(item), overridable),
            },
        }
    }
}

/// Whether the parameter list of an annotation holds nothing.
pub fn no_parameters(params: &str) -> (r: bool)
    ensures
        r == parameters_absent(params@),
{
    match lex(params) {
        Ok(tokens) => tokens_empty(&tokens),
        Err(_) => false,
    }
}

/// Annotates the trait declaration `input`, which was marked with the
/// parameter list `params`, with or without methods that a narrower
/// implementation may override.
pub fn inheritable_in_mode(params: &str, input: &str, overridable: bool) -> (r: Result<
    String,
    Diagnostic,
>)
    ensures
        outcome(r) == inheritable_outcome(params@, input@, overridable),
{
    if !no_parameters(params) {
        return Err(Diagnostic::fixed(Rejection::UnexpectedParameters));
    }
    let tokens = match read_tokens(input) {
        Err(diagnostic) => {
            return Err(diagnostic);
        },
        Ok(tokens) => tokens,
    };
    match parse_trait(tokens) {
        Err(error) => Err(Diagnostic::explained(Rejection::Syntax, error_message(&error))),
        Ok(item) => {
            let decl = read_trait(&item);
            annotate(input, &decl, overridable)
        },
    }
}

/// Annotates the trait declaration `input`, which was marked with the
/// parameter list `params`. The answer is the text that takes the place of
/// the declaration: the declaration itself, its linkage trait, and the
/// implementation of the trait for every type that has the linkage trait.
/// The forwarding methods are not open to override: a type that wants its
/// own version of one method implements the whole trait.
pub fn inheritable(params: &str, input: &str) -> (r: Result<String, Diagnostic>)
    ensures
        outcome(r) == inheritable_outcome(params@, input@, false),
{
    inheritable_in_mode(params, input, false)
}

/// As `inheritable`, with every forwarding method marked `default`, so that
/// a type may override single methods and inherit the rest. The generated
/// text then needs a compiler that has specialization.
pub fn inheritable_specialized(params: &str, input: &str) -> (r: Result<String, Diagnostic>)
    ensures
        outcome(r) == inheritable_outcome(params@, input@, true),
{
    inheritable_in_mode(params, input, true)
}

} // verus!
