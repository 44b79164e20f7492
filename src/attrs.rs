//! Finding the configuring attributes among those on the item.
use vstd::prelude::*;

verus! {

/// The three attributes that configure the generated impls.
#[derive(Clone, Copy, Debug, PartialEq, Eq)]
pub enum AttrKind {
    /// `fn_args(...)`: the argument types.
    Args,
    /// `fn_body{...}`: the body shared by the impls.
    Body,
    /// `fn_output(...)`: the output type.
    Output,
}

pub open spec fn kind_name(k: AttrKind) -> Seq<char> {
    match k {
        AttrKind::Args => seq!['f', 'n', '_', 'a', 'r', 'g', 's'],
        AttrKind::Body => seq!['f', 'n', '_', 'b', 'o', 'd', 'y'],
        AttrKind::Output => seq!['f', 'n', '_', 'o', 'u', 't', 'p', 'u', 't'],
    }
}

/// Whether the attribute whose path reads `ident` is called `wanted`.
pub open spec fn names(ident: Option<String>, wanted: Seq<char>) -> bool {
    match ident {
        Some(s) => s@ == wanted,
        None => false,
    }
}

/// The name of an attribute kind, as it stands in the source.
pub fn kind_str(k: AttrKind) -> (r: &'static str)
    ensures
        r@ == kind_name(k),
{
    proof {
        reveal_strlit("fn_args");
        reveal_strlit("fn_body");
        reveal_strlit("fn_output");
    }
    match k {
        AttrKind::Args => "fn_args",
        AttrKind::Body => "fn_body",
        AttrKind::Output => "fn_output",
    }
}

/// The position of the first attribute whose path is the identifier
/// `wanted`, or `None` where no attribute is.
pub fn find_attr(idents: &Vec<Option<String>>, wanted: &str) -> (r: Option<usize>)
    ensures
        r matches Some(i) ==> i < idents.len() && names(idents@[i as int], wanted@) && forall|
            j: int,
        | 0 <= j < i ==> !names(#[trigger] idents@[j], wanted@),
        r is None ==> forall|j: int| 0 <= j < idents.len() ==> !names(#[trigger] idents@[j], wanted@),
{
    let w = wanted.to_owned();
    let mut i: usize = 0;
    while i < idents.len()
        invariant
            i <= idents.len(),
            w@ == wanted@,
            forall|j: int| 0 <= j < i ==> !names(#[trigger] idents@[j], wanted@),
        decreases idents.len() - i,
    {
        let hit = match &idents[i] {
            Some(s) => *s == w,
            None => false,
        };
        if hit {
            return Some(i);
        }
        i = i + 1;
    }
    None
}

} // verus!
