//! The naming convention that the two generators share.
//!
//! The trait annotator declares a linkage trait and the struct linker
//! implements it. They never see each other's input, so the name of the
//! linkage trait is a fixed function of the name of the trait it belongs to.

use crate::text::{decimal, lemma_decimal_injective, push_decimal};
use vstd::prelude::*;

verus! {

/// How a method borrows the value it is called on.
#[derive(Clone, Copy, Debug, PartialEq, Eq, Structural)]
pub enum ReceiverKind {
    /// `&self`: the value is only read.
    Shared,
    /// `&mut self`: the value may be changed.
    Mutable,
}

/// A name without the `r#` that lets a keyword stand as a name: the prefix
/// belongs to the way the name is written, not to the name.
pub open spec fn unraw(name: Seq<char>) -> Seq<char> {
    if name.len() >= 2 && name[0] == 'r' && name[1] == '#' {
        name.subrange(2, name.len() as int)
    } else {
        name
    }
}

/// The name of the linkage trait of the trait called `name`: the name,
/// without `r#` if it is written with one, between a fixed head and tail.
pub open spec fn linkage_name(name: Seq<char>) -> Seq<char> {
    "__Inherits"@ + unraw(name) + "__"@
}

/// The name that the `position`-th parameter of a forwarding method gets.
pub open spec fn positional_name(position: nat) -> Seq<char> {
    "arg_"@ + decimal(position)
}

/// The accessor of the linkage trait that serves a receiver of this kind.
pub open spec fn accessor_name(kind: ReceiverKind) -> Seq<char> {
    match kind {
        ReceiverKind::Shared => "__parent__"@,
        ReceiverKind::Mutable => "__parent_mut__"@,
    }
}

/// Appends the linkage trait's name for the trait called `name`.
pub fn push_linkage_name(out: &mut String, name: &str)
    ensures
        final(out)@ == old(out)@ + linkage_name(name@),
{
    out.append("__Inherits");
    let n = name.unicode_len();
    if n >= 2 && name.get_char(0) == 'r' && name.get_char(1) == '#' {
        out.append(name.substring_char(2, n));
    } else {
        out.append(name);
    }
    out.append("__");
    assert(out@ =~= old(out)@ + linkage_name(name@));
}

/// The name of the linkage trait of the trait called `name`.
pub fn linkage_trait_name(name: &str) -> (r: String)
    ensures
        r@ == linkage_name(name@),
{
    let mut out = String::new();
    push_linkage_name(&mut out, name);
    assert(out@ =~= linkage_name(name@));
    out
}

/// Appends the name of the `position`-th parameter of a forwarding method.
pub fn push_positional_name(out: &mut String, position: usize)
    ensures
        final(out)@ == old(out)@ + positional_name(position as nat),
{
    out.append("arg_");
    push_decimal(out, position);
    assert(out@ =~= old(out)@ + positional_name(position as nat));
}

/// The accessor that serves a receiver of this kind.
pub fn accessor(kind: ReceiverKind) -> (r: &'static str)
    ensures
        r@ == accessor_name(kind),
{
    match kind {
        ReceiverKind::Shared => "__parent__",
        ReceiverKind::Mutable => "__parent_mut__",
    }
}

/// Traits with different names have linkage traits with different names;
/// a name written with `r#` and the same name written without are one name.
pub proof fn lemma_linkage_name_injective(a: Seq<char>, b: Seq<char>)
    requires
        linkage_name(a) == linkage_name(b),
    ensures
        unraw(a) == unraw(b),
{
    let head = "__Inherits"@;
    let tail = "__"@;
    let na = unraw(a);
    let nb = unraw(b);
    let la = linkage_name(a);
    let lb = linkage_name(b);
    assert(la.len() == head.len() + na.len() + tail.len());
    assert(lb.len() == head.len() + nb.len() + tail.len());
    assert(na =~= la.subrange(head.len() as int, (head.len() + na.len()) as int));
    assert(nb =~= lb.subrange(head.len() as int, (head.len() + nb.len()) as int));
}

/// Parameters at different positions get different names.
pub proof fn lemma_positional_name_injective(i: nat, j: nat)
    requires
        positional_name(i) == positional_name(j),
    ensures
        i == j,
{
    let head = "arg_"@;
    let pi = positional_name(i);
    let pj = positional_name(j);
    assert(decimal(i) =~= pi.subrange(head.len() as int, pi.len() as int));
    assert(decimal(j) =~= pj.subrange(head.len() as int, pj.len() as int));
    lemma_decimal_injective(i, j);
}

/// The two accessors have different names.
pub proof fn lemma_accessor_names_differ()
    ensures
        accessor_name(ReceiverKind::Shared) != accessor_name(ReceiverKind::Mutable),
{
    reveal_strlit("__parent__");
    reveal_strlit("__parent_mut__");
    assert("__parent__"@.len() != "__parent_mut__"@.len());
}

} // verus!
