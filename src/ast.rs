//! The slice of a module's syntax tree that the rewrite reads and changes.
use vstd::prelude::*;

verus! {

broadcast use vstd::std_specs::vec::group_vec_axioms;

/// The module path whose imports are rewritten.
pub const MACRO_MODULE: &'static str = "typed-redux-saga/macro";

/// The module path that rewritten imports point at.
pub const EFFECTS_MODULE: &'static str = "redux-saga/effects";

pub open spec fn macro_module() -> Seq<char> {
    MACRO_MODULE@
}

pub open spec fn effects_module() -> Seq<char> {
    EFFECTS_MODULE@
}

/// A string literal: its value, and the text it was written as, if known.
#[derive(Debug, Clone, PartialEq, Eq)]
pub struct Str {
    pub value: String,
    pub raw: Option<String>,
}

/// One entry of an import clause, by the local name it binds.
#[derive(Debug, Clone, PartialEq, Eq)]
pub enum ImportSpecifier {
    /// `{ a }` or `{ b as a }`
    Named(String),
    /// `a`
    Default(String),
    /// `* as a`
    Namespace(String),
}

#[derive(Debug, Clone, PartialEq, Eq)]
pub struct ImportDecl {
    pub specifiers: Vec<ImportSpecifier>,
    pub src: Str,
}

#[derive(Debug, PartialEq, Eq)]
pub struct CallExpr {
    pub callee: Box<Expr>,
    pub args: Vec<Expr>,
}

#[derive(Debug, PartialEq, Eq)]
pub struct YieldExpr {
    pub arg: Option<Box<Expr>>,
    pub delegate: bool,
}

/// An expression, statement or function. Every node the rewrite does not
/// look into is `Other`, with its child nodes in source order.
#[derive(Debug, PartialEq, Eq)]
pub enum Expr {
    Ident(String),
    Call(CallExpr),
    Yield(YieldExpr),
    Other(Vec<Expr>),
}

#[derive(Debug, PartialEq, Eq)]
pub enum ModuleItem {
    Import(ImportDecl),
    Stmt(Expr),
}

#[derive(Debug, PartialEq, Eq)]
pub struct Program {
    pub body: Vec<ModuleItem>,
}

/// The declaration imports from the macro module.
pub open spec fn imports_macro(d: ImportDecl) -> bool {
    d.src.value@ == macro_module()
}

/// Local names bound by the named specifiers among the first `k`.
pub open spec fn named_locals_upto(specs: Seq<ImportSpecifier>, k: int) -> Set<Seq<char>> {
    Set::new(
        |n: Seq<char>|
            exists|j: int|
                0 <= j < k && #[trigger] specs[j] is Named && specs[j]->Named_0@ == n,
    )
}

/// Local names bound by the declaration's named specifiers.
pub open spec fn named_locals(d: ImportDecl) -> Set<Seq<char>> {
    named_locals_upto(d.specifiers@, d.specifiers@.len() as int)
}

/// Names bound by the named specifiers of macro-module imports among the
/// first `k` items.
pub open spec fn bound_names_upto(items: Seq<ModuleItem>, k: int) -> Set<Seq<char>> {
    Set::new(
        |n: Seq<char>|
            exists|j: int|
                0 <= j < k && #[trigger] items[j] is Import && imports_macro(items[j]->Import_0)
                    && named_locals(items[j]->Import_0).contains(n),
    )
}

/// The names whose delegating calls are rewritten in a program.
pub open spec fn bound_names(p: Program) -> Set<Seq<char>> {
    bound_names_upto(p.body@, p.body@.len() as int)
}

/// `new` is `old` after the import rule: a macro-module import keeps its
/// specifiers and gets the effects module as its source, with no stale raw
/// text; any other import stays as it is.
pub open spec fn import_rewritten(old: ImportDecl, new: ImportDecl) -> bool {
    if imports_macro(old) {
        &&& new.specifiers@ == old.specifiers@
        &&& new.src.value@ == effects_module()
        &&& new.src.raw is None
    } else {
        new == old
    }
}

/// The yield's operand is a call whose callee is a bare identifier in `names`.
pub open spec fn calls_bound_name(arg: Option<Box<Expr>>, names: Set<Seq<char>>) -> bool {
    match arg {
        Some(b) => match *b {
            Expr::Call(c) => match *c.callee {
                Expr::Ident(n) => names.contains(n@),
                _ => false,
            },
            _ => false,
        },
        None => false,
    }
}

/// The yield rule applies: a delegating yield of a call to a name in `names`.
pub open spec fn yield_rewrites(y: YieldExpr, names: Set<Seq<char>>) -> bool {
    y.delegate && calls_bound_name(y.arg, names)
}

/// `new` is `old` with the yield rule applied at every node: same shape and
/// names, and each yield delegates exactly when it did and the rule does not
/// apply to it.
pub open spec fn expr_rewritten(old: Expr, new: Expr, names: Set<Seq<char>>) -> bool
    decreases old,
{
    match old {
        Expr::Ident(a) => new == Expr::Ident(a),
        Expr::Call(c) => match new {
            Expr::Call(d) => {
                &&& expr_rewritten(*c.callee, *d.callee, names)
                &&& d.args.len() == c.args.len()
                &&& forall|i: int|
                    0 <= i < c.args.len() ==> expr_rewritten(
                        #[trigger] c.args[i],
                        d.args[i],
                        names,
                    )
            },
            _ => false,
        },
        Expr::Yield(y) => match new {
            Expr::Yield(z) => {
                &&& z.delegate == (y.delegate && !calls_bound_name(y.arg, names))
                &&& match y.arg {
                    None => z.arg is None,
                    Some(a) => match z.arg {
                        Some(b) => expr_rewritten(*a, *b, names),
                        None => false,
                    },
                }
            },
            _ => false,
        },
        Expr::Other(v) => match new {
            Expr::Other(w) => {
                &&& w.len() == v.len()
                &&& forall|i: int|
                    0 <= i < v.len() ==> expr_rewritten(#[trigger] v[i], w[i], names)
            },
            _ => false,
        },
    }
}

/// One module item after the whole rewrite, with `names` bound.
pub open spec fn item_rewritten(old: ModuleItem, new: ModuleItem, names: Set<Seq<char>>) -> bool {
    match old {
        ModuleItem::Import(d) => match new {
            ModuleItem::Import(e) => import_rewritten(d, e),
            _ => false,
        },
        ModuleItem::Stmt(s) => match new {
            ModuleItem::Stmt(t) => expr_rewritten(s, t, names),
            _ => false,
        },
    }
}

/// `new` is the program `old` after the rewrite, yields being rewritten
/// with `names` bound.
pub open spec fn items_rewritten(old: Program, new: Program, names: Set<Seq<char>>) -> bool {
    &&& new.body.len() == old.body.len()
    &&& forall|i: int|
        0 <= i < old.body.len() ==> item_rewritten(#[trigger] old.body[i], new.body[i], names)
}

/// `new` is the program `old` after the rewrite, with the names that `old`
/// itself binds.
pub open spec fn program_rewritten(old: Program, new: Program) -> bool {
    items_rewritten(old, new, bound_names(old))
}

} // verus!
