//! Properties of the rewrite, stated over the relations that the pass's own
//! contracts establish.
use vstd::prelude::*;

use crate::ast::{
    Expr, ImportSpecifier, ModuleItem, Program, YieldExpr, bound_names, calls_bound_name,
    effects_module, expr_rewritten, imports_macro, item_rewritten, macro_module,
    program_rewritten,
};

verus! {

broadcast use vstd::std_specs::vec::group_vec_axioms;

/// An import of the macro module comes out with the effects module as its
/// source, no stale raw text, and the same specifiers with the same local
/// names.
pub proof fn lemma_import_rewrite_exact(p: Program, q: Program, i: int)
    requires
        program_rewritten(p, q),
        0 <= i < p.body.len(),
        p.body[i] is Import,
        imports_macro(p.body[i]->Import_0),
    ensures
        q.body[i] is Import,
        q.body[i]->Import_0.src.value@ == effects_module(),
        q.body[i]->Import_0.src.raw is None,
        q.body[i]->Import_0.specifiers@ == p.body[i]->Import_0.specifiers@,
{
    assert(item_rewritten(p.body[i], q.body[i], bound_names(p)));
}

/// An import of any other module comes out exactly as it went in.
pub proof fn lemma_import_non_interference(p: Program, q: Program, i: int)
    requires
        program_rewritten(p, q),
        0 <= i < p.body.len(),
        p.body[i] is Import,
        !imports_macro(p.body[i]->Import_0),
    ensures
        q.body[i] == p.body[i],
{
    assert(item_rewritten(p.body[i], q.body[i], bound_names(p)));
}

/// A name is eligible for the yield rule exactly when some import of the
/// macro module binds it by a named specifier; a default or namespace
/// specifier makes no name eligible.
pub proof fn lemma_binding_capture(p: Program, n: Seq<char>)
    ensures
        bound_names(p).contains(n) <==> exists|i: int, k: int|
            0 <= i < p.body.len() && #[trigger] p.body[i] is Import
                && imports_macro(p.body[i]->Import_0)
                && 0 <= k < p.body[i]->Import_0.specifiers.len()
                && #[trigger] p.body[i]->Import_0.specifiers[k] is Named
                && p.body[i]->Import_0.specifiers[k]->Named_0@ == n,
{
    if bound_names(p).contains(n) {
        let i = choose|i: int|
            0 <= i < p.body.len() && #[trigger] p.body@[i] is Import && imports_macro(
                p.body@[i]->Import_0,
            ) && crate::ast::named_locals(p.body@[i]->Import_0).contains(n);
        let d = p.body[i]->Import_0;
        let k = choose|k: int|
            0 <= k < d.specifiers@.len() && #[trigger] d.specifiers@[k] is Named
                && d.specifiers@[k]->Named_0@ == n;
        assert(p.body[i] is Import && d.specifiers[k] is Named);
    }
    if exists|i: int, k: int|
        0 <= i < p.body.len() && #[trigger] p.body[i] is Import
            && imports_macro(p.body[i]->Import_0)
            && 0 <= k < p.body[i]->Import_0.specifiers.len()
            && #[trigger] p.body[i]->Import_0.specifiers[k] is Named
            && p.body[i]->Import_0.specifiers[k]->Named_0@ == n {
        let (i, k) = choose|i: int, k: int|
            0 <= i < p.body.len() && #[trigger] p.body[i] is Import
                && imports_macro(p.body[i]->Import_0)
                && 0 <= k < p.body[i]->Import_0.specifiers.len()
                && #[trigger] p.body[i]->Import_0.specifiers[k] is Named
                && p.body[i]->Import_0.specifiers[k]->Named_0@ == n;
        let d = p.body[i]->Import_0;
        assert(d.specifiers@[k] is Named);
        assert(crate::ast::named_locals(d).contains(n));
        assert(p.body@[i] is Import);
    }
}

/// A delegating yield of a direct call to an eligible name comes out as a
/// plain yield of the same call: same callee, same number of arguments, and
/// each argument only rewritten within.
pub proof fn lemma_delegation_removal(y: YieldExpr, z: YieldExpr, names: Set<Seq<char>>)
    requires
        expr_rewritten(Expr::Yield(y), Expr::Yield(z), names),
        y.delegate,
        calls_bound_name(y.arg, names),
    ensures
        !z.delegate,
        z.arg is Some,
        (*z.arg->Some_0) is Call,
        *(*z.arg->Some_0)->Call_0.callee == *(*y.arg->Some_0)->Call_0.callee,
        (*z.arg->Some_0)->Call_0.args.len() == (*y.arg->Some_0)->Call_0.args.len(),
        forall|i: int|
            0 <= i < (*y.arg->Some_0)->Call_0.args.len() ==> expr_rewritten(
                #[trigger] (*y.arg->Some_0)->Call_0.args[i],
                (*z.arg->Some_0)->Call_0.args[i],
                names,
            ),
{
    let a = *y.arg->Some_0;
    let b = *z.arg->Some_0;
    assert(expr_rewritten(a, b, names));
    assert(expr_rewritten(*a->Call_0.callee, *b->Call_0.callee, names));
}

/// A yield that the rule does not match keeps its delegation flag: one of a
/// call to a name that is not eligible, one of an operand that is not a
/// call, a plain yield, and one with no operand.
pub proof fn lemma_selective_non_interference(y: YieldExpr, z: YieldExpr, names: Set<Seq<char>>)
    requires
        expr_rewritten(Expr::Yield(y), Expr::Yield(z), names),
        !y.delegate || y.arg is None || !((*y.arg->Some_0) is Call)
            || !calls_bound_name(y.arg, names),
    ensures
        z.delegate == y.delegate,
        y.arg is None <==> z.arg is None,
{
}

/// Rewriting an expression, then rewriting the result with no name bound,
/// is the same as rewriting it once.
pub proof fn lemma_expr_second_pass(a: Expr, b: Expr, c: Expr, names: Set<Seq<char>>)
    requires
        expr_rewritten(a, b, names),
        expr_rewritten(b, c, Set::empty()),
    ensures
        expr_rewritten(a, c, names),
    decreases a,
{
    match a {
        Expr::Ident(_) => {},
        Expr::Call(ca) => {
            let cb = b->Call_0;
            let cc = c->Call_0;
            lemma_expr_second_pass(*ca.callee, *cb.callee, *cc.callee, names);
            assert forall|i: int| 0 <= i < ca.args.len() implies expr_rewritten(
                #[trigger] ca.args[i],
                cc.args[i],
                names,
            ) by {
                assert(expr_rewritten(cb.args[i], cc.args[i], Set::empty()));
                lemma_expr_second_pass(ca.args[i], cb.args[i], cc.args[i], names);
            }
        },
        Expr::Yield(ya) => {
            let yb = b->Yield_0;
            let yc = c->Yield_0;
            match ya.arg {
                Some(x) => {
                    lemma_expr_second_pass(*x, *yb.arg->Some_0, *yc.arg->Some_0, names);
                },
                None => {},
            }
        },
        Expr::Other(va) => {
            let vb = b->Other_0;
            let vc = c->Other_0;
            assert forall|i: int| 0 <= i < va.len() implies expr_rewritten(
                #[trigger] va[i],
                vc[i],
                names,
            ) by {
                assert(expr_rewritten(vb[i], vc[i], Set::empty()));
                lemma_expr_second_pass(va[i], vb[i], vc[i], names);
            }
        },
    }
}

/// A rewritten program binds no name: none of its imports is of the macro
/// module.
pub proof fn lemma_rewritten_binds_nothing(p: Program, q: Program)
    requires
        program_rewritten(p, q),
    ensures
        bound_names(q) == Set::<Seq<char>>::empty(),
{
    lemma_modules_differ();
    assert forall|n: Seq<char>| !bound_names(q).contains(n) by {
        if bound_names(q).contains(n) {
            let i = choose|i: int|
                0 <= i < q.body.len() && #[trigger] q.body@[i] is Import && imports_macro(
                    q.body@[i]->Import_0,
                ) && crate::ast::named_locals(q.body@[i]->Import_0).contains(n);
            assert(item_rewritten(p.body[i], q.body[i], bound_names(p)));
        }
    }
    assert(bound_names(q) =~= Set::<Seq<char>>::empty());
}

/// Running the rewrite on its own output gives what a single run gave.
pub proof fn lemma_idempotent(p: Program, q: Program, r: Program)
    requires
        program_rewritten(p, q),
        program_rewritten(q, r),
    ensures
        program_rewritten(p, r),
{
    lemma_rewritten_binds_nothing(p, q);
    lemma_modules_differ();
    assert forall|i: int| 0 <= i < p.body.len() implies item_rewritten(
        #[trigger] p.body[i],
        r.body[i],
        bound_names(p),
    ) by {
        assert(item_rewritten(p.body[i], q.body[i], bound_names(p)));
        assert(item_rewritten(q.body[i], r.body[i], bound_names(q)));
        match p.body[i] {
            ModuleItem::Import(_) => {},
            ModuleItem::Stmt(s) => {
                lemma_expr_second_pass(s, q.body[i]->Stmt_0, r.body[i]->Stmt_0, bound_names(p));
            },
        }
    }
}

/// The effects module is not the macro module, so a rewritten import is
/// never matched again.
pub proof fn lemma_modules_differ()
    ensures
        effects_module() != macro_module(),
{
    reveal_strlit("redux-saga/effects");
    reveal_strlit("typed-redux-saga/macro");
    assert(effects_module()[0] != macro_module()[0]);
}

} // verus!
