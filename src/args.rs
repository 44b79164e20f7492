//! The expression that passes each argument of the generated call methods
//! on: `args.0,args.1,...`.
use vstd::prelude::*;
use proc_macro2::TokenStream;
use crate::tokens::{Atom, atoms, append_stream, empty_stream, ident_token, index_token, punct_token};

verus! {

/// The decimal digit `d` as a character.
pub open spec fn digit_char(d: nat) -> char {
    if d == 0 {
        '0'
    } else if d == 1 {
        '1'
    } else if d == 2 {
        '2'
    } else if d == 3 {
        '3'
    } else if d == 4 {
        '4'
    } else if d == 5 {
        '5'
    } else if d == 6 {
        '6'
    } else if d == 7 {
        '7'
    } else if d == 8 {
        '8'
    } else {
        '9'
    }
}

/// `n` written in decimal, without leading zeros.
pub open spec fn decimal(n: nat) -> Seq<char>
    decreases n,
{
    if n < 10 {
        seq![digit_char(n)]
    } else {
        decimal(n / 10) + seq![digit_char(n % 10)]
    }
}

/// The field access `args.i`, read flat.
pub open spec fn arg_access(i: nat) -> Seq<Atom> {
    seq![
        Atom::Token(seq!['a', 'r', 'g', 's']),
        Atom::Token(seq!['.']),
        Atom::Token(decimal(i)),
    ]
}

/// `args.0,args.1,...` up to `args.(n-1)`, read flat: the accesses of the
/// first `n` fields, separated by commas.
pub open spec fn args_atoms(n: nat) -> Seq<Atom>
    decreases n,
{
    if n == 0 {
        seq![]
    } else if n == 1 {
        arg_access(0)
    } else {
        args_atoms((n - 1) as nat) + seq![Atom::Token(seq![','])] + arg_access((n - 1) as nat)
    }
}

/// The expression that passes the first `n` fields of the argument tuple
/// `args` on: `args.0,args.1,...`.
pub fn args_expr(n: usize) -> (r: TokenStream)
    ensures
        atoms(r) == args_atoms(n as nat),
{
    let mut out = empty_stream();
    let mut i: usize = 0;
    while i < n
        invariant
            i <= n,
            atoms(out) == args_atoms(i as nat),
        decreases n - i,
    {
        let ghost before = atoms(out);
        proof {
            reveal_strlit("args");
        }
        if i > 0 {
            append_stream(&mut out, punct_token(',', false));
        }
        append_stream(&mut out, ident_token("args"));
        append_stream(&mut out, punct_token('.', false));
        append_stream(&mut out, index_token(i));
        proof {
            reveal_strlit("args");
            assert("args"@ =~= seq!['a', 'r', 'g', 's']);
            if i == 0 {
                assert(before =~= Seq::<Atom>::empty());
                assert(atoms(out) =~= arg_access(0));
            } else {
                assert(atoms(out) =~= before + seq![Atom::Token(seq![','])] + arg_access(
                    i as nat,
                ));
            }
        }
        i = i + 1;
    }
    out
}

} // verus!
