//! The derive itself: from the item a derive is put on, to the three impls.
use vstd::prelude::*;
use proc_macro2::TokenStream;
use syn::{Attribute, DeriveInput};
use crate::args::{args_atoms, args_expr};
use crate::attrs::{AttrKind, find_attr, kind_name, kind_str, names};
use crate::plan::{SlotAtoms, Slots, fn_impls_plan, fn_impls_steps, plan_atoms, render};
use crate::tokens::{
    Atom, ListView, atoms, list_view, attr_ident, attr_list_tokens, attr_list, attr_path_ident,
    input_attrs, input_name, item_attrs, item_name, parse_derive_input, parsed_item, type_count,
};

verus! {

#[derive(Debug)]
/// What the derive reads of one attribute on the item.
pub struct AttrInfo {
    /// The attribute's path, where that is a single identifier.
    pub ident: Option<String>,
    /// The tokens inside its delimiters, where the attribute is of the list
    /// form (`name(...)`, `name[...]` or `name{...}`).
    pub tokens: Option<TokenStream>,
}

#[derive(Debug)]
/// Why the three impls could not be generated.
pub enum DeriveError {
    /// The input is not an item a derive can be put on.
    Parse(syn::Error),
    /// No attribute of this kind is on the item.
    Missing(AttrKind),
    /// The first attribute of this kind is not of the list form.
    NotList(AttrKind),
    /// The argument list is not a comma-separated list of types.
    ArgTypes(syn::Error),
}

/// What the derive reads of one attribute, as plain values.
pub struct AttrView {
    pub ident: Option<Seq<char>>,
    pub list: Option<ListView>,
}

pub open spec fn info_view(a: AttrInfo) -> AttrView {
    AttrView {
        ident: match a.ident {
            Some(s) => Some(s@),
            None => None,
        },
        list: match a.tokens {
            Some(t) => Some(list_view(t)),
            None => None,
        },
    }
}

pub open spec fn info_views(attrs: Seq<AttrInfo>) -> Seq<AttrView> {
    attrs.map_values(|a: AttrInfo| info_view(a))
}

/// What the derive reads of the attribute `a` of a parsed item.
pub open spec fn attr_view(a: Attribute) -> AttrView {
    AttrView { ident: attr_path_ident(a), list: attr_list(a) }
}

/// What the derive reads of each attribute of the item `ast`, in order.
pub open spec fn item_views(ast: DeriveInput) -> Seq<AttrView> {
    item_attrs(ast).map_values(|a: Attribute| attr_view(a))
}

/// The attribute is of kind `k`.
pub open spec fn is_kind(v: AttrView, k: AttrKind) -> bool {
    v.ident == Some(kind_name(k))
}

/// Some attribute is of kind `k`.
pub open spec fn present(attrs: Seq<AttrView>, k: AttrKind) -> bool {
    exists|i: int| 0 <= i < attrs.len() && is_kind(#[trigger] attrs[i], k)
}

/// The attribute at `i` is the first one of kind `k`.
pub open spec fn is_first(attrs: Seq<AttrView>, k: AttrKind, i: int) -> bool {
    &&& 0 <= i < attrs.len()
    &&& is_kind(attrs[i], k)
    &&& forall|j: int| 0 <= j < i ==> !is_kind(#[trigger] attrs[j], k)
}

/// The first attribute of kind `k`, if there is one, is of the list form.
pub open spec fn listed(attrs: Seq<AttrView>, k: AttrKind) -> bool {
    forall|i: int| #[trigger] is_first(attrs, k, i) ==> attrs[i].list is Some
}

/// The item gives the attribute of kind `k`, in the list form.
pub open spec fn configured(attrs: Seq<AttrView>, k: AttrKind) -> bool {
    present(attrs, k) && listed(attrs, k)
}

/// What the first attribute of kind `k` lists.
pub open spec fn first_list(attrs: Seq<AttrView>, k: AttrKind) -> ListView {
    let i = choose|i: int| is_first(attrs, k, i);
    match attrs[i].list {
        Some(l) => l,
        None => ListView { atoms: seq![], types: None },
    }
}

/// The argument types are given, and are a list of types.
pub open spec fn args_ok(attrs: Seq<AttrView>) -> bool {
    configured(attrs, AttrKind::Args) && first_list(attrs, AttrKind::Args).types is Some
}

/// What is read before the kind `k` (the argument types and their count,
/// then the body, then the output type) is all there.
pub open spec fn earlier_ok(attrs: Seq<AttrView>, k: AttrKind) -> bool {
    match k {
        AttrKind::Args => true,
        AttrKind::Body => args_ok(attrs),
        AttrKind::Output => args_ok(attrs) && configured(attrs, AttrKind::Body),
    }
}

/// The number of arguments: the number of types in the argument list.
pub open spec fn arg_count(attrs: Seq<AttrView>) -> nat {
    match first_list(attrs, AttrKind::Args).types {
        Some(n) => n,
        None => 0,
    }
}

/// The generated impls, read flat, for the type named by `name`: the first
/// list of each attribute kind is spliced in, and one `args.i` access is
/// passed on for each argument type.
pub open spec fn impl_atoms(name: Seq<Atom>, attrs: Seq<AttrView>) -> Seq<Atom> {
    plan_atoms(
        fn_impls_steps(),
        SlotAtoms {
            name: name,
            arg_types: first_list(attrs, AttrKind::Args).atoms,
            output: first_list(attrs, AttrKind::Output).atoms,
            body: first_list(attrs, AttrKind::Body).atoms,
            arg_expr: args_atoms(arg_count(attrs)),
        },
    )
}

/// What the derive returns for the type named by `name` with the attributes
/// `attrs`.
///
/// The argument types are read first, then counted, then the body, then the
/// output type. The first kind that is missing, or whose first attribute is
/// not of the list form, is the error; an argument list that is not a list
/// of types is the error once it is read. Where all is there, the result is
/// the three impls.
pub open spec fn outcome(name: Seq<Atom>, attrs: Seq<AttrView>, r: Result<
    TokenStream,
    DeriveError,
>) -> bool {
    match r {
        Ok(t) => args_ok(attrs) && configured(attrs, AttrKind::Body) && configured(
            attrs,
            AttrKind::Output,
        ) && atoms(t) == impl_atoms(name, attrs),
        Err(DeriveError::Missing(k)) => earlier_ok(attrs, k) && !present(attrs, k),
        Err(DeriveError::NotList(k)) => earlier_ok(attrs, k) && present(attrs, k) && !listed(
            attrs,
            k,
        ),
        Err(DeriveError::ArgTypes(_)) => configured(attrs, AttrKind::Args) && first_list(
            attrs,
            AttrKind::Args,
        ).types is None,
        Err(DeriveError::Parse(_)) => false,
    }
}

/// What the derive reads of `attr`.
pub fn attr_info(attr: &Attribute) -> (r: AttrInfo)
    ensures
        info_view(r) == attr_view(*attr),
{
    AttrInfo { ident: attr_ident(attr), tokens: attr_list_tokens(attr) }
}

fn idents_of(attrs: &Vec<AttrInfo>) -> (r: Vec<Option<String>>)
    ensures
        r@.len() == attrs@.len(),
        forall|i: int| 0 <= i < attrs@.len() ==> #[trigger] r@[i] == attrs@[i].ident,
{
    let mut out: Vec<Option<String>> = Vec::new();
    let mut i: usize = 0;
    while i < attrs.len()
        invariant
            i <= attrs.len(),
            out@.len() == i,
            forall|j: int| 0 <= j < i ==> #[trigger] out@[j] == attrs@[j].ident,
        decreases attrs.len() - i,
    {
        let id = match &attrs[i].ident {
            Some(s) => Some(s.clone()),
            None => None,
        };
        out.push(id);
        i = i + 1;
    }
    out
}

/// The tokens of the first attribute of kind `k`.
fn take_list(attrs: &Vec<AttrInfo>, idents: &Vec<Option<String>>, k: AttrKind) -> (r: Result<
    TokenStream,
    DeriveError,
>)
    requires
        idents@.len() == attrs@.len(),
        forall|i: int| 0 <= i < attrs@.len() ==> #[trigger] idents@[i] == attrs@[i].ident,
    ensures
        r is Ok <==> configured(info_views(attrs@), k),
        r matches Ok(t) ==> list_view(t) == first_list(info_views(attrs@), k),
        r matches Err(DeriveError::Missing(k2)) ==> k2 == k && !present(info_views(attrs@), k),
        r matches Err(DeriveError::NotList(k2)) ==> k2 == k && present(info_views(attrs@), k)
            && !listed(info_views(attrs@), k),
        r is Err ==> r matches Err(DeriveError::Missing(_)) || r matches Err(
            DeriveError::NotList(_),
        ),
{
    let ghost v = info_views(attrs@);
    assert forall|i: int| 0 <= i < attrs@.len() implies (#[trigger] is_kind(v[i], k) <==> names(
        idents@[i],
        kind_name(k),
    )) by {
        assert(idents@[i] == attrs@[i].ident);
    }
    match find_attr(idents, kind_str(k)) {
        None => {
            assert(!present(v, k)) by {
                if present(v, k) {
                    let i = choose|i: int| 0 <= i < v.len() && is_kind(#[trigger] v[i], k);
                    assert(names(idents@[i], kind_name(k)));
                }
            }
            Err(DeriveError::Missing(k))
        },
        Some(i) => {
            assert(is_first(v, k, i as int)) by {
                assert forall|j: int| 0 <= j < i implies !is_kind(#[trigger] v[j], k) by {
                    assert(!names(idents@[j], kind_name(k)));
                }
                assert(is_kind(v[i as int], k));
            }
            assert(present(v, k));
            assert forall|m: int| #[trigger] is_first(v, k, m) implies m == i by {
                if m < i {
                    assert(!is_kind(v[m], k));
                } else if m > i {
                    assert(!is_kind(v[i as int], k));
                }
            }
            match &attrs[i].tokens {
                Some(t) => Ok(t.clone()),
                None => Err(DeriveError::NotList(k)),
            }
        },
    }
}

/// Generates the `FnOnce`, `FnMut` and `Fn` impls for the type named by
/// `name`, from the attributes read off it (see `outcome`).
pub fn expand(name: TokenStream, attrs: &Vec<AttrInfo>) -> (r: Result<TokenStream, DeriveError>)
    ensures
        outcome(atoms(name), info_views(attrs@), r),
{
    let ghost v = info_views(attrs@);
    let idents = idents_of(attrs);
    let arg_types = match take_list(attrs, &idents, AttrKind::Args) {
        Ok(t) => t,
        Err(e) => return Err(e),
    };
    let arity = match type_count(&arg_types) {
        Ok(n) => n,
        Err(e) => return Err(DeriveError::ArgTypes(e)),
    };
    let body = match take_list(attrs, &idents, AttrKind::Body) {
        Ok(t) => t,
        Err(e) => return Err(e),
    };
    let output = match take_list(attrs, &idents, AttrKind::Output) {
        Ok(t) => t,
        Err(e) => return Err(e),
    };
    let arg_expr = args_expr(arity);
    let ghost name_atoms = atoms(name);
    let slots = Slots { name, arg_types, output, body, arg_expr };
    let plan = fn_impls_plan();
    let t = render(&plan, &slots);
    assert(atoms(t) == impl_atoms(name_atoms, v));
    Ok(t)
}

/// Generates the three impls for the item `ast`, from its name and what
/// `attr_info` reads of each of its attributes (see `outcome`).
pub fn impl_fn(ast: &DeriveInput) -> (r: Result<TokenStream, DeriveError>)
    ensures
        outcome(item_name(*ast), item_views(*ast), r),
{
    let attrs = input_attrs(ast);
    let mut infos: Vec<AttrInfo> = Vec::new();
    let mut i: usize = 0;
    while i < attrs.len()
        invariant
            i <= attrs.len(),
            attrs@ == item_attrs(*ast),
            infos@.len() == i,
            forall|j: int| 0 <= j < i ==> #[trigger] info_view(infos@[j]) == attr_view(attrs@[j]),
        decreases attrs.len() - i,
    {
        infos.push(attr_info(&attrs[i]));
        i = i + 1;
    }
    assert(info_views(infos@) =~= item_views(*ast));
    expand(input_name(ast), &infos)
}

/// The derive: parses `input` as an item and generates its three impls.
/// Where `input` does not parse, the error is syn's; otherwise the result
/// is what `impl_fn` gives for the parsed item.
pub fn derive_fn_mut(input: TokenStream) -> (r: Result<TokenStream, DeriveError>)
    ensures
        match parsed_item(input) {
            None => r matches Err(DeriveError::Parse(_)),
            Some(ast) => outcome(item_name(ast), item_views(ast), r),
        },
{
    match parse_derive_input(input) {
        Ok(ast) => impl_fn(&ast),
        Err(e) => Err(DeriveError::Parse(e)),
    }
}

/// The attribute that holds the argument types: the item is left as it is.
pub fn fn_args(attr: TokenStream, item: TokenStream) -> (r: TokenStream)
    ensures
        r == item,
{
    item
}

/// The attribute that holds the body: the item is left as it is.
pub fn fn_body(attr: TokenStream, item: TokenStream) -> (r: TokenStream)
    ensures
        r == item,
{
    item
}

/// The attribute that holds the output type: the item is left as it is.
pub fn fn_output(attr: TokenStream, item: TokenStream) -> (r: TokenStream)
    ensures
        r == item,
{
    item
}

} // verus!
