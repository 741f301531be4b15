use typed_redux_saga_rewrite::ast::{
    CallExpr, Expr, ImportDecl, ImportSpecifier, ModuleItem, Program, Str, YieldExpr,
    EFFECTS_MODULE, MACRO_MODULE,
};
use typed_redux_saga_rewrite::rewrite::{process_transform, TransformVisitor};

fn import(src: &str, specifiers: Vec<ImportSpecifier>) -> ImportDecl {
    ImportDecl {
        specifiers,
        src: Str { value: src.to_string(), raw: Some(format!("\"{}\"", src)) },
    }
}

fn named(n: &str) -> ImportSpecifier {
    ImportSpecifier::Named(n.to_string())
}

fn ident(n: &str) -> Expr {
    Expr::Ident(n.to_string())
}

fn call(callee: Expr, args: Vec<Expr>) -> Expr {
    Expr::Call(CallExpr { callee: Box::new(callee), args })
}

fn yield_of(arg: Option<Expr>, delegate: bool) -> Expr {
    Expr::Yield(YieldExpr { arg: arg.map(Box::new), delegate })
}

/// `function* test() { <body> }`
fn generator(body: Vec<Expr>) -> ModuleItem {
    ModuleItem::Stmt(Expr::Other(body))
}

fn program(body: Vec<ModuleItem>) -> Program {
    Program { body }
}

fn rewritten_import(specifiers: Vec<ImportSpecifier>) -> ImportDecl {
    ImportDecl { specifiers, src: Str { value: EFFECTS_MODULE.to_string(), raw: None } }
}

#[test]
fn replaces_import() {
    let p = program(vec![ModuleItem::Import(import(MACRO_MODULE, vec![named("put")]))]);
    let r = process_transform(p);
    let expected = program(vec![ModuleItem::Import(rewritten_import(vec![named("put")]))]);
    assert_eq!(r, expected);
}

#[test]
fn replaces_yield() {
    let p = program(vec![
        ModuleItem::Import(import("typed-redux-saga/macro", vec![named("put")])),
        generator(vec![yield_of(Some(call(ident("put"), vec![])), true)]),
    ]);
    let r = process_transform(p);
    let expected = program(vec![
        ModuleItem::Import(rewritten_import(vec![named("put")])),
        generator(vec![yield_of(Some(call(ident("put"), vec![])), false)]),
    ]);
    assert_eq!(r, expected);
}

fn other_module_program() -> Program {
    program(vec![
        ModuleItem::Import(import("other-module", vec![named("put")])),
        generator(vec![yield_of(Some(call(ident("put"), vec![])), true)]),
    ])
}

#[test]
fn other_module_is_untouched() {
    let r = process_transform(other_module_program());
    assert_eq!(r, other_module_program());
}

#[test]
fn unbound_callee_keeps_delegating() {
    let p = program(vec![
        ModuleItem::Import(import(MACRO_MODULE, vec![named("put")])),
        generator(vec![yield_of(Some(call(ident("other"), vec![])), true)]),
    ]);
    let r = process_transform(p);
    let expected = program(vec![
        ModuleItem::Import(rewritten_import(vec![named("put")])),
        generator(vec![yield_of(Some(call(ident("other"), vec![])), true)]),
    ]);
    assert_eq!(r, expected);
}

#[test]
fn import_keeps_specifiers_and_drops_raw() {
    let specs = vec![
        named("put"),
        ImportSpecifier::Default(String::from("saga")),
        ImportSpecifier::Namespace(String::from("all")),
        named("call"),
    ];
    let mut v = TransformVisitor::new();
    let mut d = import(MACRO_MODULE, specs.clone());
    v.visit_mut_import_decl(&mut d);
    assert_eq!(d.src.value, "redux-saga/effects");
    assert_eq!(d.src.raw, None);
    assert_eq!(d.specifiers, specs);
    assert!(v.contains(&String::from("put")));
    assert!(v.contains(&String::from("call")));
    assert!(!v.contains(&String::from("saga")));
    assert!(!v.contains(&String::from("all")));
}

#[test]
fn other_import_is_byte_for_byte_unchanged() {
    let mut v = TransformVisitor::new();
    let mut d = import("redux-saga/effects", vec![named("put")]);
    let before = d.clone();
    v.visit_mut_import_decl(&mut d);
    assert_eq!(d, before);
    assert!(!v.contains(&String::from("put")));
}

#[test]
fn near_miss_module_paths_do_not_match() {
    for src in ["typed-redux-saga", "typed-redux-saga/macro/", "Typed-redux-saga/macro", ""] {
        let mut v = TransformVisitor::new();
        let mut d = import(src, vec![named("put")]);
        let before = d.clone();
        v.visit_mut_import_decl(&mut d);
        assert_eq!(d, before);
        assert!(!v.contains(&String::from("put")));
    }
}

#[test]
fn default_and_namespace_names_are_not_rewritten() {
    let p = program(vec![
        ModuleItem::Import(import(
            MACRO_MODULE,
            vec![ImportSpecifier::Default(String::from("put")), ImportSpecifier::Namespace(String::from("fx"))],
        )),
        generator(vec![
            yield_of(Some(call(ident("put"), vec![])), true),
            yield_of(Some(call(ident("fx"), vec![])), true),
        ]),
    ]);
    let r = process_transform(p);
    let expected = program(vec![
        ModuleItem::Import(rewritten_import(vec![
            ImportSpecifier::Default(String::from("put")),
            ImportSpecifier::Namespace(String::from("fx")),
        ])),
        generator(vec![
            yield_of(Some(call(ident("put"), vec![])), true),
            yield_of(Some(call(ident("fx"), vec![])), true),
        ]),
    ]);
    assert_eq!(r, expected);
}

#[test]
fn delegation_removal_keeps_arguments() {
    let v = {
        let mut v = TransformVisitor::new();
        v.insert(String::from("put"));
        v
    };
    let args = || vec![ident("action"), call(ident("make"), vec![ident("x")])];
    let y = YieldExpr { arg: Some(Box::new(call(ident("put"), args()))), delegate: true };
    assert!(v.is_rewrite_target(&y));
    let r = v.visit_mut_yield_expr(y);
    assert!(!r.delegate);
    assert_eq!(r.arg, Some(Box::new(call(ident("put"), args()))));
}

#[test]
fn unmatched_yield_shapes_are_untouched() {
    let mut v = TransformVisitor::new();
    v.insert(String::from("put"));
    let cases = || {
        vec![
            // delegating yield of a call to a name that is not bound
            yield_of(Some(call(ident("other"), vec![])), true),
            // delegating yield of an operand that is not a call
            yield_of(Some(ident("put")), true),
            // plain yield of a bound call
            yield_of(Some(call(ident("put"), vec![])), false),
            // delegating yield with no operand
            yield_of(None, true),
            // delegating yield of a call through a member expression
            yield_of(Some(call(Expr::Other(vec![ident("effects"), ident("put")]), vec![])), true),
        ]
    };
    for (e, expected) in cases().into_iter().zip(cases()) {
        if let Expr::Yield(y) = &e {
            assert!(!v.is_rewrite_target(y));
        }
        assert_eq!(v.visit_mut_expr(e), expected);
    }
}

#[test]
fn nested_yields_are_rewritten() {
    let p = program(vec![
        ModuleItem::Import(import(MACRO_MODULE, vec![named("put"), named("call")])),
        generator(vec![yield_of(
            Some(call(
                ident("call"),
                vec![Expr::Other(vec![yield_of(Some(call(ident("put"), vec![ident("a")])), true)])],
            )),
            true,
        )]),
    ]);
    let r = process_transform(p);
    let expected = program(vec![
        ModuleItem::Import(rewritten_import(vec![named("put"), named("call")])),
        generator(vec![yield_of(
            Some(call(
                ident("call"),
                vec![Expr::Other(vec![yield_of(Some(call(ident("put"), vec![ident("a")])), false)])],
            )),
            false,
        )]),
    ]);
    assert_eq!(r, expected);
}

#[test]
fn bindings_apply_to_yields_before_the_import() {
    let p = program(vec![
        generator(vec![yield_of(Some(call(ident("put"), vec![])), true)]),
        ModuleItem::Import(import(MACRO_MODULE, vec![named("put")])),
    ]);
    let r = process_transform(p);
    let expected = program(vec![
        generator(vec![yield_of(Some(call(ident("put"), vec![])), false)]),
        ModuleItem::Import(rewritten_import(vec![named("put")])),
    ]);
    assert_eq!(r, expected);
}

#[test]
fn binding_set_holds_exactly_the_named_locals() {
    let p = program(vec![
        ModuleItem::Import(import(MACRO_MODULE, vec![named("put"), named("put"), ImportSpecifier::Default(String::from("d"))])),
        ModuleItem::Import(import("other-module", vec![named("take")])),
        ModuleItem::Import(import(MACRO_MODULE, vec![named("select")])),
    ]);
    let mut v = TransformVisitor::new();
    let _ = v.fold_program(p);
    assert!(v.contains(&String::from("put")));
    assert!(v.contains(&String::from("select")));
    assert!(!v.contains(&String::from("take")));
    assert!(!v.contains(&String::from("d")));
}

fn mixed_program() -> Program {
    program(vec![
        ModuleItem::Import(import(MACRO_MODULE, vec![named("put")])),
        ModuleItem::Import(import("other-module", vec![named("take")])),
        generator(vec![
            yield_of(Some(call(ident("put"), vec![])), true),
            yield_of(Some(call(ident("take"), vec![])), true),
            yield_of(None, false),
        ]),
    ])
}

#[test]
fn second_run_changes_nothing() {
    let once = process_transform(mixed_program());
    let twice = process_transform(process_transform(mixed_program()));
    assert_eq!(once, twice);
    assert_eq!(once.body.len(), 3);
}

#[test]
fn empty_program() {
    let r = process_transform(program(vec![]));
    assert_eq!(r, program(vec![]));
}

#[test]
fn insert_ignores_duplicates() {
    let mut v = TransformVisitor::new();
    assert!(!v.contains(&String::from("put")));
    v.insert(String::from("put"));
    v.insert(String::from("put"));
    assert!(v.contains(&String::from("put")));
}
