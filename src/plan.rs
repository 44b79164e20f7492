//! The shape of the generated code, as a flat plan of steps, and the
//! renderer that turns a plan into tokens.
//!
//! A plan is words, punctuation, group openings and closings, and slots where the
//! fragments taken from the item's attributes go. The fragments are spliced
//! in as the tokens they are, so they keep their spans.
use vstd::prelude::*;
use proc_macro2::TokenStream;
use crate::tokens::{
    Atom, Delim, atoms, abi_atoms, valid_ident, punct_char, empty_stream, append_stream, grouped,
    abi_qualifier, ident_token, punct_token,
};

verus! {

/// The fragments spliced into the generated code.
#[derive(Clone, Copy, Debug, PartialEq, Eq)]
pub enum Slot {
    /// The name of the type the impls are for.
    Name,
    /// The argument types, as listed in `fn_args(...)`.
    ArgTypes,
    /// The output type, as given in `fn_output(...)`.
    Output,
    /// The body, as given in `fn_body{...}`.
    Body,
    /// The expression that passes each argument on: `args.0,args.1,...`.
    ArgExpr,
}

/// One step of a plan.
#[derive(Clone, Copy, Debug, PartialEq, Eq)]
pub enum Step {
    /// An identifier or keyword.
    Word(&'static str),
    /// A punctuation character, joined to the next token or not.
    Punct(char, bool),
    /// The qualifier that gives a function the ABI of this name.
    Abi(&'static str),
    /// Opens a group.
    Open(Delim),
    /// Closes the innermost open group.
    Close,
    /// A fragment taken from the item.
    Splice(Slot),
}

/// The three traits the generated impls are of.
#[derive(Clone, Copy, Debug, PartialEq, Eq)]
pub enum CallTrait {
    FnOnce,
    FnMut,
    Fn,
}

/// The fragments of one item, one stream for each slot.
pub struct Slots {
    pub name: TokenStream,
    pub arg_types: TokenStream,
    pub output: TokenStream,
    pub body: TokenStream,
    pub arg_expr: TokenStream,
}

pub open spec fn delta(s: Step) -> int {
    match s {
        Step::Open(_) => 1,
        Step::Close => -1,
        _ => 0,
    }
}

/// How many groups are open after the steps `s`.
pub open spec fn depth(s: Seq<Step>) -> int
    decreases s.len(),
{
    if s.len() == 0 {
        0
    } else {
        depth(s.drop_last()) + delta(s.last())
    }
}

/// No prefix of `s` closes more groups than it opens.
pub open spec fn never_below(s: Seq<Step>) -> bool {
    forall|i: int| 0 <= i <= s.len() ==> depth(#[trigger] s.take(i)) >= 0
}

/// Every group that `s` opens, `s` closes, and none is closed before it opens.
pub open spec fn balanced(s: Seq<Step>) -> bool {
    never_below(s) && depth(s) == 0
}

proof fn lemma_push(s: Seq<Step>, x: Step)
    requires
        never_below(s),
        depth(s) + delta(x) >= 0,
    ensures
        never_below(s.push(x)),
        depth(s.push(x)) == depth(s) + delta(x),
{
    assert(s.push(x).drop_last() =~= s);
    assert forall|i: int| 0 <= i <= s.push(x).len() implies depth(#[trigger] s.push(x).take(i)) >= 0 by {
        if i <= s.len() {
            assert(s.push(x).take(i) =~= s.take(i));
        } else {
            assert(s.push(x).take(i) =~= s.push(x));
        }
    }
}

proof fn lemma_empty()
    ensures
        balanced(Seq::<Step>::empty()),
{
    assert forall|i: int| 0 <= i <= 0 implies depth(#[trigger] Seq::<Step>::empty().take(i)) >= 0 by {
        assert(Seq::<Step>::empty().take(i) =~= Seq::<Step>::empty());
    }
}

/// A step is valid: a word is an identifier, a punctuation step a
/// punctuation character.
pub open spec fn step_ok(s: Step) -> bool {
    match s {
        Step::Word(w) => valid_ident(w@),
        Step::Punct(c, _) => punct_char(c),
        _ => true,
    }
}

/// Every step of `s` is valid.
pub open spec fn steps_ok(s: Seq<Step>) -> bool {
    forall|i: int| 0 <= i < s.len() ==> step_ok(#[trigger] s[i])
}

/// The name of the trait.
pub open spec fn trait_word(t: CallTrait) -> &'static str {
    match t {
        CallTrait::FnOnce => "FnOnce",
        CallTrait::FnMut => "FnMut",
        CallTrait::Fn => "Fn",
    }
}

/// The name of the trait's call method.
pub open spec fn method_word(t: CallTrait) -> &'static str {
    match t {
        CallTrait::FnOnce => "call_once",
        CallTrait::FnMut => "call_mut",
        CallTrait::Fn => "call",
    }
}

/// `(ARGS)`: the argument types as a tuple.
pub open spec fn arg_tuple() -> Seq<Step> {
    seq![Step::Open(Delim::Paren), Step::Splice(Slot::ArgTypes), Step::Close]
}

/// `impl T<(ARGS)> for NAME {`
pub open spec fn head_steps(t: CallTrait) -> Seq<Step> {
    seq![Step::Word("impl"), Step::Word(trait_word(t)), Step::Punct('<', false)] + arg_tuple()
        + seq![
        Step::Punct('>', false),
        Step::Word("for"),
        Step::Splice(Slot::Name),
        Step::Open(Delim::Brace),
    ]
}

/// `type Output = OUT;`: only `FnOnce` declares the output type.
pub open spec fn output_decl(t: CallTrait) -> Seq<Step> {
    match t {
        CallTrait::FnOnce => seq![
            Step::Word("type"),
            Step::Word("Output"),
            Step::Punct('=', false),
            Step::Splice(Slot::Output),
            Step::Punct(';', false),
        ],
        _ => seq![],
    }
}

/// The call method's receiver: `self`, `&mut self` or `&self`.
pub open spec fn receiver_steps(t: CallTrait) -> Seq<Step> {
    match t {
        CallTrait::FnOnce => seq![Step::Word("self")],
        CallTrait::FnMut => seq![Step::Punct('&', false), Step::Word("mut"), Step::Word("self")],
        CallTrait::Fn => seq![Step::Punct('&', false), Step::Word("self")],
    }
}

/// `ABI fn m(RECV, args:`, with the "rust-call" ABI that the call traits'
/// methods carry.
pub open spec fn method_steps(t: CallTrait) -> Seq<Step> {
    seq![
        Step::Abi("rust-call"),
        Step::Word("fn"),
        Step::Word(method_word(t)),
        Step::Open(Delim::Paren),
    ] + receiver_steps(t) + seq![Step::Punct(',', false), Step::Word("args"), Step::Punct(':', false)]
}

/// `) -> Self::Output {`
pub open spec fn ret_steps() -> Seq<Step> {
    seq![
        Step::Close,
        Step::Punct('-', true),
        Step::Punct('>', false),
        Step::Word("Self"),
        Step::Punct(':', true),
        Step::Punct(':', false),
        Step::Word("Output"),
        Step::Open(Delim::Brace),
    ]
}

/// The call method's body: `Fn` runs the body from `fn_body`; the two
/// others call `self` with the arguments passed on, which reaches `Fn`.
pub open spec fn call_body(t: CallTrait) -> Seq<Step> {
    match t {
        CallTrait::Fn => seq![Step::Splice(Slot::Body)],
        _ => seq![
            Step::Word("self"),
            Step::Open(Delim::Paren),
            Step::Splice(Slot::ArgExpr),
            Step::Close,
        ],
    }
}

/// The steps of one impl:
/// `impl T<(ARGS)> for NAME { [type Output = OUT;] ABI fn m(RECV, args: (ARGS)) -> Self::Output { BODY } }`.
pub open spec fn impl_steps(t: CallTrait) -> Seq<Step> {
    head_steps(t) + output_decl(t) + method_steps(t) + arg_tuple() + ret_steps() + call_body(t)
        + seq![Step::Close, Step::Close]
}

/// The whole generated code: the `FnOnce`, `FnMut` and `Fn` impls, in
/// that order.
pub open spec fn fn_impls_steps() -> Seq<Step> {
    impl_steps(CallTrait::FnOnce) + impl_steps(CallTrait::FnMut) + impl_steps(CallTrait::Fn)
}

proof fn lemma_words()
    ensures
        valid_ident("impl"@),
        valid_ident("FnOnce"@),
        valid_ident("FnMut"@),
        valid_ident("Fn"@),
        valid_ident("for"@),
        valid_ident("type"@),
        valid_ident("Output"@),
        valid_ident("fn"@),
        valid_ident("call_once"@),
        valid_ident("call_mut"@),
        valid_ident("call"@),
        valid_ident("self"@),
        valid_ident("mut"@),
        valid_ident("args"@),
        valid_ident("Self"@),
{
    reveal_strlit("impl");
    reveal_strlit("FnOnce");
    reveal_strlit("FnMut");
    reveal_strlit("Fn");
    reveal_strlit("for");
    reveal_strlit("type");
    reveal_strlit("Output");
    reveal_strlit("fn");
    reveal_strlit("call_once");
    reveal_strlit("call_mut");
    reveal_strlit("call");
    reveal_strlit("self");
    reveal_strlit("mut");
    reveal_strlit("args");
    reveal_strlit("Self");
}

fn put(plan: &mut Vec<Step>, x: Step)
    requires
        never_below(old(plan)@),
        steps_ok(old(plan)@),
        step_ok(x),
        delta(x) >= 0 || depth(old(plan)@) > 0,
    ensures
        final(plan)@ == old(plan)@.push(x),
        never_below(final(plan)@),
        steps_ok(final(plan)@),
        depth(final(plan)@) == depth(old(plan)@) + delta(x),
{
    proof {
        assert(plan@.take(plan@.len() as int) =~= plan@);
        lemma_push(plan@, x);
    }
    plan.push(x);
    assert(steps_ok(plan@)) by {
        assert forall|i: int| 0 <= i < plan@.len() implies step_ok(#[trigger] plan@[i]) by {
            if i < old(plan)@.len() {
                assert(plan@[i] == old(plan)@[i]);
            }
        }
    }
}

fn put_arg_tuple(plan: &mut Vec<Step>)
    requires
        never_below(old(plan)@),
        steps_ok(old(plan)@),
    ensures
        final(plan)@ == old(plan)@ + arg_tuple(),
        never_below(final(plan)@),
        steps_ok(final(plan)@),
        depth(final(plan)@) == depth(old(plan)@),
{
    put(plan, Step::Open(Delim::Paren));
    put(plan, Step::Splice(Slot::ArgTypes));
    put(plan, Step::Close);
    assert(plan@ =~= old(plan)@ + arg_tuple());
}

fn put_head(plan: &mut Vec<Step>, t: CallTrait)
    requires
        never_below(old(plan)@),
        steps_ok(old(plan)@),
    ensures
        final(plan)@ == old(plan)@ + head_steps(t),
        never_below(final(plan)@),
        steps_ok(final(plan)@),
        depth(final(plan)@) == depth(old(plan)@) + 1,
{
    proof {
        lemma_words();
    }
    let ghost start = plan@;
    let tw = match t {
        CallTrait::FnOnce => "FnOnce",
        CallTrait::FnMut => "FnMut",
        CallTrait::Fn => "Fn",
    };
    put(plan, Step::Word("impl"));
    put(plan, Step::Word(tw));
    put(plan, Step::Punct('<', false));
    put_arg_tuple(plan);
    put(plan, Step::Punct('>', false));
    put(plan, Step::Word("for"));
    put(plan, Step::Splice(Slot::Name));
    put(plan, Step::Open(Delim::Brace));
    assert(plan@ =~= start + head_steps(t));
}

fn put_output_decl(plan: &mut Vec<Step>, t: CallTrait)
    requires
        never_below(old(plan)@),
        steps_ok(old(plan)@),
    ensures
        final(plan)@ == old(plan)@ + output_decl(t),
        never_below(final(plan)@),
        steps_ok(final(plan)@),
        depth(final(plan)@) == depth(old(plan)@),
{
    proof {
        lemma_words();
    }
    let ghost start = plan@;
    if matches!(t, CallTrait::FnOnce) {
        put(plan, Step::Word("type"));
        put(plan, Step::Word("Output"));
        put(plan, Step::Punct('=', false));
        put(plan, Step::Splice(Slot::Output));
        put(plan, Step::Punct(';', false));
    }
    assert(plan@ =~= start + output_decl(t));
}

fn put_receiver(plan: &mut Vec<Step>, t: CallTrait)
    requires
        never_below(old(plan)@),
        steps_ok(old(plan)@),
    ensures
        final(plan)@ == old(plan)@ + receiver_steps(t),
        never_below(final(plan)@),
        steps_ok(final(plan)@),
        depth(final(plan)@) == depth(old(plan)@),
{
    proof {
        lemma_words();
    }
    let ghost start = plan@;
    if !matches!(t, CallTrait::FnOnce) {
        put(plan, Step::Punct('&', false));
    }
    if matches!(t, CallTrait::FnMut) {
        put(plan, Step::Word("mut"));
    }
    put(plan, Step::Word("self"));
    assert(plan@ =~= start + receiver_steps(t));
}

fn put_method(plan: &mut Vec<Step>, t: CallTrait)
    requires
        never_below(old(plan)@),
        steps_ok(old(plan)@),
    ensures
        final(plan)@ == old(plan)@ + method_steps(t),
        never_below(final(plan)@),
        steps_ok(final(plan)@),
        depth(final(plan)@) == depth(old(plan)@) + 1,
{
    proof {
        lemma_words();
    }
    let ghost start = plan@;
    let mw = match t {
        CallTrait::FnOnce => "call_once",
        CallTrait::FnMut => "call_mut",
        CallTrait::Fn => "call",
    };
    put(plan, Step::Abi("rust-call"));
    put(plan, Step::Word("fn"));
    put(plan, Step::Word(mw));
    put(plan, Step::Open(Delim::Paren));
    put_receiver(plan, t);
    put(plan, Step::Punct(',', false));
    put(plan, Step::Word("args"));
    put(plan, Step::Punct(':', false));
    assert(plan@ =~= start + method_steps(t));
}

fn put_ret(plan: &mut Vec<Step>)
    requires
        never_below(old(plan)@),
        steps_ok(old(plan)@),
        depth(old(plan)@) > 0,
    ensures
        final(plan)@ == old(plan)@ + ret_steps(),
        never_below(final(plan)@),
        steps_ok(final(plan)@),
        depth(final(plan)@) == depth(old(plan)@),
{
    proof {
        lemma_words();
    }
    let ghost start = plan@;
    put(plan, Step::Close);
    put(plan, Step::Punct('-', true));
    put(plan, Step::Punct('>', false));
    put(plan, Step::Word("Self"));
    put(plan, Step::Punct(':', true));
    put(plan, Step::Punct(':', false));
    put(plan, Step::Word("Output"));
    put(plan, Step::Open(Delim::Brace));
    assert(plan@ =~= start + ret_steps());
}

fn put_call_body(plan: &mut Vec<Step>, t: CallTrait)
    requires
        never_below(old(plan)@),
        steps_ok(old(plan)@),
    ensures
        final(plan)@ == old(plan)@ + call_body(t),
        never_below(final(plan)@),
        steps_ok(final(plan)@),
        depth(final(plan)@) == depth(old(plan)@),
{
    proof {
        lemma_words();
    }
    let ghost start = plan@;
    if matches!(t, CallTrait::Fn) {
        put(plan, Step::Splice(Slot::Body));
    } else {
        put(plan, Step::Word("self"));
        put(plan, Step::Open(Delim::Paren));
        put(plan, Step::Splice(Slot::ArgExpr));
        put(plan, Step::Close);
    }
    assert(plan@ =~= start + call_body(t));
}

fn put_impl(plan: &mut Vec<Step>, t: CallTrait)
    requires
        never_below(old(plan)@),
        steps_ok(old(plan)@),
    ensures
        final(plan)@ == old(plan)@ + impl_steps(t),
        never_below(final(plan)@),
        steps_ok(final(plan)@),
        depth(final(plan)@) == depth(old(plan)@),
{
    let ghost start = plan@;
    put_head(plan, t);
    put_output_decl(plan, t);
    put_method(plan, t);
    put_arg_tuple(plan);
    put_ret(plan);
    put_call_body(plan, t);
    put(plan, Step::Close);
    put(plan, Step::Close);
    assert(plan@ =~= start + impl_steps(t));
}

/// The plan of the three impls, whose groups balance and whose steps are
/// all valid.
pub fn fn_impls_plan() -> (r: Vec<Step>)
    ensures
        r@ == fn_impls_steps(),
        balanced(r@),
        steps_ok(r@),
{
    let mut plan: Vec<Step> = Vec::new();
    proof {
        lemma_empty();
        assert(steps_ok(plan@));
    }
    put_impl(&mut plan, CallTrait::FnOnce);
    put_impl(&mut plan, CallTrait::FnMut);
    put_impl(&mut plan, CallTrait::Fn);
    assert(plan@ =~= fn_impls_steps());
    plan
}

/// The contents of the fragments, one for each slot, read flat.
pub struct SlotAtoms {
    pub name: Seq<Atom>,
    pub arg_types: Seq<Atom>,
    pub output: Seq<Atom>,
    pub body: Seq<Atom>,
    pub arg_expr: Seq<Atom>,
}

/// The contents of the streams of `slots`.
pub open spec fn slots_atoms(slots: Slots) -> SlotAtoms {
    SlotAtoms {
        name: atoms(slots.name),
        arg_types: atoms(slots.arg_types),
        output: atoms(slots.output),
        body: atoms(slots.body),
        arg_expr: atoms(slots.arg_expr),
    }
}

/// The contents of the fragment in slot `x`.
pub open spec fn slot_atoms(sa: SlotAtoms, x: Slot) -> Seq<Atom> {
    match x {
        Slot::Name => sa.name,
        Slot::ArgTypes => sa.arg_types,
        Slot::Output => sa.output,
        Slot::Body => sa.body,
        Slot::ArgExpr => sa.arg_expr,
    }
}

/// The tokens that step `s` contributes, read flat.
pub open spec fn step_atoms(s: Step, slots: SlotAtoms) -> Seq<Atom> {
    match s {
        Step::Word(w) => seq![Atom::Token(w@)],
        Step::Punct(c, _) => seq![Atom::Token(seq![c])],
        Step::Abi(name) => abi_atoms(name@),
        Step::Open(d) => seq![Atom::Open(d)],
        Step::Close => seq![Atom::Close],
        Step::Splice(x) => slot_atoms(slots, x),
    }
}

/// The tokens of a whole plan, read flat: those of its steps, in order.
pub open spec fn plan_atoms(p: Seq<Step>, slots: SlotAtoms) -> Seq<Atom>
    decreases p.len(),
{
    if p.len() == 0 {
        seq![]
    } else {
        plan_atoms(p.drop_last(), slots) + step_atoms(p.last(), slots)
    }
}

/// The contents of each stream on the renderer's stack.
pub open spec fn levels(stack: Seq<TokenStream>) -> Seq<Seq<Atom>> {
    stack.map_values(|t: TokenStream| atoms(t))
}

/// What the renderer has produced so far: the outermost level, then each
/// open group's opening and the tokens it holds so far.
pub open spec fn pending(lv: Seq<Seq<Atom>>, delims: Seq<Delim>) -> Seq<Atom>
    decreases lv.len(),
{
    if lv.len() == 0 {
        seq![]
    } else if lv.len() == 1 {
        lv[0]
    } else {
        pending(lv.drop_last(), delims.drop_last()) + seq![Atom::Open(delims.last())] + lv.last()
    }
}

proof fn lemma_extend_top(lv: Seq<Seq<Atom>>, delims: Seq<Delim>, x: Seq<Atom>)
    requires
        lv.len() >= 1,
    ensures
        pending(lv.update(lv.len() - 1, lv.last() + x), delims) == pending(lv, delims) + x,
{
    let nl = lv.update(lv.len() - 1, lv.last() + x);
    if lv.len() == 1 {
        assert(pending(nl, delims) =~= pending(lv, delims) + x);
    } else {
        assert(nl.drop_last() =~= lv.drop_last());
        assert(pending(nl, delims) =~= pending(lv, delims) + x);
    }
}

fn slot_stream(slots: &Slots, s: Slot) -> (r: TokenStream)
    ensures
        atoms(r) == slot_atoms(slots_atoms(*slots), s),
{
    match s {
        Slot::Name => slots.name.clone(),
        Slot::ArgTypes => slots.arg_types.clone(),
        Slot::Output => slots.output.clone(),
        Slot::Body => slots.body.clone(),
        Slot::ArgExpr => slots.arg_expr.clone(),
    }
}

fn append_top(stack: &mut Vec<TokenStream>, t: TokenStream)
    requires
        old(stack).len() > 0,
    ensures
        final(stack).len() == old(stack).len(),
        levels(final(stack)@) == levels(old(stack)@).update(
            old(stack).len() - 1,
            levels(old(stack)@).last() + atoms(t),
        ),
{
    let last = stack.len() - 1;
    let mut top = stack.remove(last);
    append_stream(&mut top, t);
    stack.push(top);
    assert(levels(stack@) =~= levels(old(stack)@).update(
        old(stack).len() - 1,
        levels(old(stack)@).last() + atoms(t),
    ));
}

/// Renders a balanced plan of valid steps into tokens, with the streams of
/// `slots` in its slots: the result holds exactly the plan's tokens.
pub fn render(plan: &Vec<Step>, slots: &Slots) -> (r: TokenStream)
    requires
        balanced(plan@),
        steps_ok(plan@),
    ensures
        atoms(r) == plan_atoms(plan@, slots_atoms(*slots)),
{
    let mut stack: Vec<TokenStream> = Vec::new();
    stack.push(empty_stream());
    let mut delims: Vec<Delim> = Vec::new();
    let mut i: usize = 0;
    proof {
        assert(plan@.take(0) =~= Seq::<Step>::empty());
        assert(levels(stack@) =~= seq![Seq::<Atom>::empty()]);
    }
    while i < plan.len()
        invariant
            i <= plan.len(),
            balanced(plan@),
            steps_ok(plan@),
            stack.len() == depth(plan@.take(i as int)) + 1,
            delims.len() + 1 == stack.len(),
            pending(levels(stack@), delims@) == plan_atoms(plan@.take(i as int), slots_atoms(*slots)),
        decreases plan.len() - i,
    {
        let ghost before = pending(levels(stack@), delims@);
        let ghost step = plan@[i as int];
        proof {
            assert(plan@.take(i + 1).drop_last() =~= plan@.take(i as int));
            assert(plan@.take(i + 1).last() == plan@[i as int]);
            assert(depth(plan@.take(i + 1)) >= 0);
        }
        match plan[i] {
            Step::Word(w) => {
                let ghost lv = levels(stack@);
                let t = ident_token(w);
                append_top(&mut stack, t);
                proof {
                    lemma_extend_top(lv, delims@, atoms(t));
                }
            },
            Step::Punct(c, joint) => {
                let ghost lv = levels(stack@);
                let t = punct_token(c, joint);
                append_top(&mut stack, t);
                proof {
                    lemma_extend_top(lv, delims@, atoms(t));
                }
            },
            Step::Abi(name) => {
                let ghost lv = levels(stack@);
                let t = abi_qualifier(name);
                append_top(&mut stack, t);
                proof {
                    lemma_extend_top(lv, delims@, atoms(t));
                }
            },
            Step::Open(d) => {
                let ghost lv = levels(stack@);
                let ghost ds = delims@;
                stack.push(empty_stream());
                delims.push(d);
                proof {
                    let nl = levels(stack@);
                    assert(nl =~= lv.push(Seq::<Atom>::empty()));
                    assert(nl.drop_last() =~= lv);
                    assert(delims@.drop_last() =~= ds);
                    assert(pending(nl, delims@) =~= before + seq![Atom::Open(d)]);
                }
            },
            Step::Close => {
                let ghost lv = levels(stack@);
                let ghost ds = delims@;
                let inner = stack.remove(stack.len() - 1);
                let d = delims.remove(delims.len() - 1);
                proof {
                    assert(levels(stack@) =~= lv.drop_last());
                    assert(delims@ =~= ds.drop_last());
                    assert(atoms(inner) == lv.last());
                }
                let ghost lv2 = levels(stack@);
                let g = grouped(d, inner);
                append_top(&mut stack, g);
                proof {
                    lemma_extend_top(lv2, delims@, atoms(g));
                    assert(pending(levels(stack@), delims@) =~= before + seq![Atom::Close]);
                }
            },
            Step::Splice(x) => {
                let ghost lv = levels(stack@);
                let t = slot_stream(slots, x);
                append_top(&mut stack, t);
                proof {
                    lemma_extend_top(lv, delims@, atoms(t));
                }
            },
        }
        i = i + 1;
    }
    proof {
        assert(plan@.take(plan@.len() as int) =~= plan@);
    }
    proof {
        assert(levels(stack@)[0] == atoms(stack@[0]));
    }
    stack.remove(0)
}

} // verus!
