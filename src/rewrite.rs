//! The rewrite pass: the import rule, the yield rule and the walk over a
//! program that applies them.
use vstd::prelude::*;

use crate::ast::{
    bound_names, bound_names_upto, calls_bound_name, expr_rewritten, import_rewritten,
    imports_macro, item_rewritten, items_rewritten, named_locals, named_locals_upto,
    program_rewritten, yield_rewrites, CallExpr, Expr, ImportDecl, ImportSpecifier, ModuleItem,
    Program, YieldExpr, EFFECTS_MODULE, MACRO_MODULE,
};

verus! {

broadcast use vstd::std_specs::vec::group_vec_axioms;

/// Holds the binding set: the local names bound by named specifiers of
/// macro-module imports seen so far.
pub struct TransformVisitor {
    local_idents: Vec<String>,
}

impl View for TransformVisitor {
    type V = Set<Seq<char>>;

    closed spec fn view(&self) -> Set<Seq<char>> {
        Set::new(
            |n: Seq<char>|
                exists|i: int| 0 <= i < self.local_idents.len() && #[trigger] self.local_idents[i]@ == n,
        )
    }
}

impl TransformVisitor {
    /// No name is held twice.
    pub closed spec fn wf(&self) -> bool {
        forall|i: int, j: int|
            0 <= i < j < self.local_idents.len() ==> #[trigger] self.local_idents[i]@
                != #[trigger] self.local_idents[j]@
    }

    pub fn new() -> (r: Self)
        ensures
            r.wf(),
            r@ == Set::<Seq<char>>::empty(),
    {
        let r = TransformVisitor { local_idents: Vec::new() };
        assert(r@ =~= Set::<Seq<char>>::empty());
        r
    }

    /// Whether `name` is in the binding set.
    pub fn contains(&self, name: &String) -> (r: bool)
        ensures
            r == self@.contains(name@),
    {
        let mut i: usize = 0;
        while i < self.local_idents.len()
            invariant
                i <= self.local_idents.len(),
                forall|j: int| 0 <= j < i ==> self.local_idents[j]@ != name@,
            decreases self.local_idents.len() - i,
        {
            if self.local_idents[i] == *name {
                return true;
            }
            i = i + 1;
        }
        false
    }

    /// Adds `name` to the binding set.
    pub fn insert(&mut self, name: String)
        requires
            old(self).wf(),
        ensures
            final(self).wf(),
            final(self)@ == old(self)@.insert(name@),
    {
        if !self.contains(&name) {
            let ghost n = name@;
            self.local_idents.push(name);
            assert(self@ =~= old(self)@.insert(n)) by {
                assert(self.local_idents[self.local_idents.len() - 1]@ == n);
                assert forall|m: Seq<char>| old(self)@.contains(m) implies self@.contains(m) by {
                    let i = choose|i: int|
                        0 <= i < old(self).local_idents.len()
                            && #[trigger] old(self).local_idents[i]@ == m;
                    assert(self.local_idents[i]@ == m);
                }
            }
        } else {
            assert(self@ =~= old(self)@.insert(name@));
        }
    }

    /// The import rule. A declaration whose source is the macro module has
    /// the local names of its named specifiers recorded and its source set
    /// to the effects module; any other declaration is left alone.
    pub fn visit_mut_import_decl(&mut self, import_decl: &mut ImportDecl)
        requires
            old(self).wf(),
        ensures
            final(self).wf(),
            import_rewritten(*old(import_decl), *final(import_decl)),
            final(self)@ == if imports_macro(*old(import_decl)) {
                old(self)@.union(named_locals(*old(import_decl)))
            } else {
                old(self)@
            },
    {
        let m = MACRO_MODULE.to_string();
        if import_decl.src.value != m {
            return;
        }
        let n = import_decl.specifiers.len();
        let mut i: usize = 0;
        while i < n
            invariant
                n == import_decl.specifiers.len(),
                i <= n,
                self.wf(),
                self@ == old(self)@.union(named_locals_upto(import_decl.specifiers@, i as int)),
            decreases n - i,
        {
            if let ImportSpecifier::Named(local) = &import_decl.specifiers[i] {
                self.insert(local.clone());
            }
            let ghost specs = import_decl.specifiers@;
            assert(named_locals_upto(specs, i + 1) =~= named_locals_upto(specs, i as int).union(
                if specs[i as int] is Named { set![specs[i as int]->Named_0@] } else { Set::empty() },
            )) by {
                assert forall|x: Seq<char>| #[trigger] named_locals_upto(specs, i + 1).contains(x)
                    implies named_locals_upto(specs, i as int).contains(x) || (specs[i as int] is Named
                    && specs[i as int]->Named_0@ == x) by {
                    let j = choose|j: int|
                        0 <= j < i + 1 && #[trigger] specs[j] is Named && specs[j]->Named_0@ == x;
                    if j < i {
                        assert(specs[j] is Named);
                    }
                }
            }
            i = i + 1;
        }
        proof {
            assert(named_locals_upto(import_decl.specifiers@, n as int) == named_locals(*import_decl));
        }
        import_decl.src.raw = None;
        import_decl.src.value = EFFECTS_MODULE.to_string();
    }

    /// The yield rule's test: the yield delegates, and its operand is a call
    /// whose callee is a bare identifier in the binding set.
    pub fn is_rewrite_target(&self, yield_expr: &YieldExpr) -> (r: bool)
        ensures
            r == yield_rewrites(*yield_expr, self@),
    {
        if !yield_expr.delegate {
            return false;
        }
        match &yield_expr.arg {
            Some(arg) => match &**arg {
                Expr::Call(call_expr) => match &*call_expr.callee {
                    Expr::Ident(id) => self.contains(id),
                    _ => false,
                },
                _ => false,
            },
            None => false,
        }
    }

    /// Applies the yield rule to `yield_expr`, then to every node below it.
    pub fn visit_mut_yield_expr(&self, yield_expr: YieldExpr) -> (r: YieldExpr)
        ensures
            expr_rewritten(Expr::Yield(yield_expr), Expr::Yield(r), self@),
        decreases yield_expr,
    {
        let delegate = yield_expr.delegate && !self.is_rewrite_target(&yield_expr);
        match yield_expr.arg {
            Some(arg) => {
                let a = self.visit_mut_expr(*arg);
                YieldExpr { arg: Some(Box::new(a)), delegate }
            },
            None => YieldExpr { arg: None, delegate },
        }
    }

    /// Applies the yield rule at every node of `expr`.
    pub fn visit_mut_expr(&self, expr: Expr) -> (r: Expr)
        ensures
            expr_rewritten(expr, r, self@),
        decreases expr,
    {
        match expr {
            Expr::Ident(id) => Expr::Ident(id),
            Expr::Call(call_expr) => {
                let callee = self.visit_mut_expr(*call_expr.callee);
                let args = self.visit_mut_exprs(call_expr.args);
                Expr::Call(CallExpr { callee: Box::new(callee), args })
            },
            Expr::Yield(yield_expr) => Expr::Yield(self.visit_mut_yield_expr(yield_expr)),
            Expr::Other(children) => Expr::Other(self.visit_mut_exprs(children)),
        }
    }

    /// Applies the yield rule at every node of each of `exprs`.
    pub fn visit_mut_exprs(&self, exprs: Vec<Expr>) -> (r: Vec<Expr>)
        ensures
            r.len() == exprs.len(),
            forall|i: int| 0 <= i < exprs.len() ==> expr_rewritten(#[trigger] exprs[i], r[i], self@),
        decreases exprs,
    {
        let ghost orig = exprs;
        let mut items = exprs;
        let n = items.len();
        let mut i: usize = 0;
        while i < n
            invariant
                n == items.len() == orig.len(),
                orig == exprs,
                i <= n,
                forall|j: int| i <= j < n ==> items[j] == orig[j],
                forall|j: int| 0 <= j < i ==> expr_rewritten(#[trigger] orig[j], items[j], self@),
            decreases n - i,
        {
            let mut e = Expr::Other(Vec::new());
            items.set_and_swap(i, &mut e);
            proof {
                assert(e == orig[i as int]);
                assert(decreases_to!(orig => orig[i as int]));
            }
            let r = self.visit_mut_expr(e);
            items.set(i, r);
            i = i + 1;
        }
        items
    }

    /// Rewrites `program`. Every import declaration is visited first, so
    /// that the binding set is complete before any yield is looked at; then
    /// the yield rule is applied at every node of every statement.
    pub fn fold_program(&mut self, program: Program) -> (r: Program)
        requires
            old(self).wf(),
        ensures
            final(self).wf(),
            final(self)@ == old(self)@.union(bound_names(program)),
            items_rewritten(program, r, final(self)@),
    {
        let ghost orig = program.body;
        let mut items = program.body;
        let n = items.len();
        let mut i: usize = 0;
        while i < n
            invariant
                n == items.len() == orig.len(),
                i <= n,
                self.wf(),
                self@ == old(self)@.union(bound_names_upto(orig@, i as int)),
                forall|j: int| 0 <= j < i ==> import_done(#[trigger] orig[j], items[j]),
                forall|j: int| i <= j < n ==> items[j] == orig[j],
            decreases n - i,
        {
            let mut item = ModuleItem::Stmt(Expr::Other(Vec::new()));
            items.set_and_swap(i, &mut item);
            match item {
                ModuleItem::Import(mut import_decl) => {
                    self.visit_mut_import_decl(&mut import_decl);
                    items.set(i, ModuleItem::Import(import_decl));
                },
                ModuleItem::Stmt(stmt) => {
                    items.set(i, ModuleItem::Stmt(stmt));
                },
            }
            proof {
                let o = orig@;
                let k = i as int;
                let added = if o[k] is Import && imports_macro(o[k]->Import_0) {
                    named_locals(o[k]->Import_0)
                } else {
                    Set::empty()
                };
                assert(bound_names_upto(o, k + 1) =~= bound_names_upto(o, k).union(added)) by {
                    assert forall|x: Seq<char>| #[trigger] bound_names_upto(o, k + 1).contains(x)
                        implies bound_names_upto(o, k).contains(x) || added.contains(x)
                    by {
                        let j = choose|j: int|
                            0 <= j < k + 1 && #[trigger] o[j] is Import
                                && imports_macro(o[j]->Import_0)
                                && named_locals(o[j]->Import_0).contains(x);
                        if j < k {
                            assert(o[j] is Import);
                        }
                    }
                    assert forall|x: Seq<char>| added.contains(x)
                        implies #[trigger] bound_names_upto(o, k + 1).contains(x) by {
                        assert(o[k] is Import);
                    }
                    assert forall|x: Seq<char>| bound_names_upto(o, k).contains(x)
                        implies #[trigger] bound_names_upto(o, k + 1).contains(x) by {
                        let j = choose|j: int|
                            0 <= j < k && #[trigger] o[j] is Import
                                && imports_macro(o[j]->Import_0)
                                && named_locals(o[j]->Import_0).contains(x);
                        assert(o[j] is Import);
                    }
                }
                assert(self@ =~= old(self)@.union(bound_names_upto(o, k + 1)));
            }
            i = i + 1;
        }
        let mut i: usize = 0;
        while i < n
            invariant
                n == items.len() == orig.len(),
                i <= n,
                self.wf(),
                self@ == old(self)@.union(bound_names_upto(orig@, n as int)),
                forall|j: int| 0 <= j < i ==> item_rewritten(#[trigger] orig[j], items[j], self@),
                forall|j: int| i <= j < n ==> import_done(#[trigger] orig[j], items[j]),
            decreases n - i,
        {
            let mut item = ModuleItem::Stmt(Expr::Other(Vec::new()));
            items.set_and_swap(i, &mut item);
            match item {
                ModuleItem::Import(import_decl) => {
                    items.set(i, ModuleItem::Import(import_decl));
                },
                ModuleItem::Stmt(stmt) => {
                    let stmt = self.visit_mut_expr(stmt);
                    items.set(i, ModuleItem::Stmt(stmt));
                },
            }
            i = i + 1;
        }
        Program { body: items }
    }
}

/// `new` is `old` after the first phase of `fold_program`: an import has
/// had the import rule applied, a statement is untouched.
spec fn import_done(old: ModuleItem, new: ModuleItem) -> bool {
    match old {
        ModuleItem::Import(d) => new is Import && import_rewritten(d, new->Import_0),
        ModuleItem::Stmt(_) => new == old,
    }
}

/// Rewrites one program with a fresh binding set: imports of the macro
/// module point at the effects module, and delegating yields of calls to
/// the names they bind become plain yields.
pub fn process_transform(program: Program) -> (r: Program)
    ensures
        program_rewritten(program, r),
{
    let mut visitor = TransformVisitor::new();
    let r = visitor.fold_program(program);
    proof {
        assert(visitor@ =~= bound_names(program));
    }
    r
}

} // verus!
