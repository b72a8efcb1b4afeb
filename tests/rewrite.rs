use swc_plugin_import::ast::{
    Arg, Expr, ImportDecl, ImportSpecifier, Module, ModuleItem, Pat, PatProp, Stmt, StrLit,
    VarDecl, VarDeclarator, VarKind,
};
use swc_plugin_import::naming::camel_to_dash;
use swc_plugin_import::options::{CustomNameOption, Options, StyleOption};
use swc_plugin_import::visitor::{is_double_quote, process_transform, wrap_str, TransformVisitor};

fn s(x: &str) -> String {
    x.to_string()
}

fn lit(value: &str, q: char) -> StrLit {
    StrLit { value: s(value), raw: Some(format!("{}{}{}", q, value, q)) }
}

fn named(local: &str, imported: Option<&str>) -> ImportSpecifier {
    ImportSpecifier::Named { local: s(local), imported: imported.map(s) }
}

fn import(specifiers: Vec<ImportSpecifier>, src: StrLit) -> ModuleItem {
    ModuleItem::Import(ImportDecl { specifiers, src })
}

fn default_import(local: &str, path: &str, q: char) -> ModuleItem {
    import(vec![ImportSpecifier::Default { local: s(local) }], lit(path, q))
}

fn bare_import(path: &str, q: char) -> ModuleItem {
    import(vec![], lit(path, q))
}

fn require_call(path: &str, q: char) -> Expr {
    Expr::Call { callee: s("require"), args: vec![Arg::Str(lit(path, q))] }
}

fn var(kind: VarKind, name: Pat, init: Expr) -> Stmt {
    Stmt::Var(VarDecl { kind, decls: vec![VarDeclarator { name, init: Some(init) }] })
}

fn opts() -> Options {
    Options::new(s("my-lib"))
}

#[test]
fn dash_case_splits_words() {
    assert_eq!(camel_to_dash("DatePicker"), "date-picker");
    assert_eq!(camel_to_dash("MyButton"), "my-button");
    assert_eq!(camel_to_dash("Button"), "button");
    assert_eq!(camel_to_dash("datePicker"), "date-picker");
}

#[test]
fn dash_case_does_not_split_capital_runs() {
    assert_eq!(camel_to_dash("ABButton"), "aBButton");
}

#[test]
fn dash_case_of_empty_is_empty() {
    assert_eq!(camel_to_dash(""), "");
}

#[test]
fn name_kept_without_dash_case() {
    let mut o = opts();
    o.camel_2_dash_component_name = false;
    assert_eq!(o.generate_component_name("DatePicker"), "DatePicker");
    assert_eq!(o.generate_component_path("DatePicker"), "my-lib/lib/DatePicker");
}

#[test]
fn default_options() {
    let o = Options::default();
    assert_eq!(o.library_name, "");
    assert_eq!(o.library_directory, "lib");
    assert!(o.camel_2_dash_component_name);
    assert!(o.transform_to_default_import);
    assert_eq!(o.style, StyleOption::On);
    assert!(o.custom_name.is_none());
    assert!(o.style_library_directory.is_none());
}

#[test]
fn component_path_from_library_and_directory() {
    let mut o = opts();
    o.library_directory = s("es");
    assert_eq!(o.generate_component_path("DatePicker"), "my-lib/es/date-picker");
}

#[test]
fn custom_name_replaces_component_path() {
    let mut o = opts();
    o.custom_name = Some(CustomNameOption::Literal(s("CustomPath")));
    assert_eq!(o.generate_component_path("Button"), "custom-path");
    assert_eq!(o.generate_style_source("Button"), Some(s("custom-path/style")));
}

#[test]
fn style_paths_for_each_mode() {
    let mut o = opts();
    assert!(o.should_import_style());
    assert_eq!(o.generate_style_source("DatePicker"), Some(s("my-lib/lib/date-picker/style")));
    o.style = StyleOption::Css;
    assert_eq!(o.generate_style_source("DatePicker"), Some(s("my-lib/lib/date-picker/style/css")));
    o.style = StyleOption::Off;
    assert!(!o.should_import_style());
    assert_eq!(o.generate_style_source("DatePicker"), None);
    o.style_library_directory = Some(s("theme"));
    assert!(o.should_import_style());
    assert_eq!(o.generate_style_source("DatePicker"), Some(s("my-lib/theme/date-picker")));
}

#[test]
fn quote_helpers() {
    assert!(is_double_quote("\"a\""));
    assert!(!is_double_quote("'a'"));
    assert!(!is_double_quote(""));
    assert_eq!(wrap_str("a/b", '\''), "'a/b'");
    assert_eq!(wrap_str("", '"'), "\"\"");
}

#[test]
fn esm_import_rewritten_with_defaults() {
    let m = Module { body: vec![import(vec![named("Button", None)], lit("my-lib", '"'))] };
    let r = process_transform(m, opts());
    assert_eq!(
        r.body,
        vec![
            bare_import("my-lib/lib/button/style", '"'),
            default_import("Button", "my-lib/lib/button", '"'),
        ]
    );
}

#[test]
fn esm_style_off_synthesizes_no_style_import() {
    let mut o = opts();
    o.style = StyleOption::Off;
    let m = Module {
        body: vec![
            import(vec![named("Button", None), named("Input", None)], lit("my-lib", '"')),
            ModuleItem::Stmt(var(
                VarKind::Const,
                Pat::Object(vec![PatProp::Shorthand { key: s("Select") }]),
                require_call("my-lib", '"'),
            )),
        ],
    };
    let r = process_transform(m, o);
    assert_eq!(
        r.body,
        vec![
            default_import("Button", "my-lib/lib/button", '"'),
            default_import("Input", "my-lib/lib/input", '"'),
            ModuleItem::Stmt(var(
                VarKind::Const,
                Pat::Ident(s("Select")),
                require_call("my-lib/lib/select", '"'),
            )),
        ]
    );
}

#[test]
fn esm_named_form_kept_without_default_import() {
    let mut o = opts();
    o.transform_to_default_import = false;
    let m = Module { body: vec![import(vec![named("Btn", Some("Button"))], lit("my-lib", '"'))] };
    let r = process_transform(m, o);
    assert_eq!(
        r.body,
        vec![
            bare_import("my-lib/lib/button/style", '"'),
            import(vec![named("Btn", Some("Button"))], lit("my-lib/lib/button", '"')),
        ]
    );
}

#[test]
fn esm_renamed_import_uses_exported_name() {
    let m = Module { body: vec![import(vec![named("Btn", Some("Button"))], lit("my-lib", '"'))] };
    let r = process_transform(m, opts());
    assert_eq!(
        r.body,
        vec![
            bare_import("my-lib/lib/button/style", '"'),
            default_import("Btn", "my-lib/lib/button", '"'),
        ]
    );
}

#[test]
fn commonjs_destructuring_rewritten_in_order() {
    let stmt = var(
        VarKind::Const,
        Pat::Object(vec![
            PatProp::Shorthand { key: s("Button") },
            PatProp::Shorthand { key: s("Input") },
        ]),
        require_call("my-lib", '"'),
    );
    let v = TransformVisitor::new(opts());
    let mut stmts = vec![stmt];
    v.visit_mut_stmts(&mut stmts);
    assert_eq!(
        stmts,
        vec![
            var(VarKind::Const, Pat::Ident(s("Button")), require_call("my-lib/lib/button", '"')),
            Stmt::Expr(require_call("my-lib/lib/button/style", '"')),
            var(VarKind::Const, Pat::Ident(s("Input")), require_call("my-lib/lib/input", '"')),
            Stmt::Expr(require_call("my-lib/lib/input/style", '"')),
        ]
    );
}

#[test]
fn commonjs_key_value_without_default_import() {
    let mut o = opts();
    o.transform_to_default_import = false;
    o.style = StyleOption::Css;
    let prop = PatProp::KeyValue { key: s("DatePicker"), value: s("DP") };
    let stmt = var(VarKind::Let, Pat::Object(vec![prop.clone()]), require_call("my-lib", '\''));
    let v = TransformVisitor::new(o);
    let (emitted, left) = v.visit_mut_stat(stmt);
    assert_eq!(left, None);
    assert_eq!(
        emitted,
        vec![
            var(VarKind::Let, Pat::Object(vec![prop]), require_call("my-lib/lib/date-picker", '\'')),
            Stmt::Expr(require_call("my-lib/lib/date-picker/style/css", '\'')),
        ]
    );
}

#[test]
fn commonjs_other_properties_stay() {
    let stmt = Stmt::Var(VarDecl {
        kind: VarKind::Var,
        decls: vec![
            VarDeclarator {
                name: Pat::Object(vec![
                    PatProp::Shorthand { key: s("Button") },
                    PatProp::Other(s("...rest")),
                ]),
                init: Some(require_call("my-lib", '"')),
            },
            VarDeclarator { name: Pat::Ident(s("x")), init: Some(Expr::Other(s("1"))) },
        ],
    });
    let mut o = opts();
    o.style = StyleOption::Off;
    let v = TransformVisitor::new(o);
    let (emitted, left) = v.visit_mut_stat(stmt);
    assert_eq!(
        emitted,
        vec![var(VarKind::Var, Pat::Ident(s("Button")), require_call("my-lib/lib/button", '"'))]
    );
    assert_eq!(
        left,
        Some(Stmt::Var(VarDecl {
            kind: VarKind::Var,
            decls: vec![
                VarDeclarator {
                    name: Pat::Object(vec![PatProp::Other(s("...rest"))]),
                    init: Some(require_call("my-lib", '"')),
                },
                VarDeclarator { name: Pat::Ident(s("x")), init: Some(Expr::Other(s("1"))) },
            ],
        }))
    );
}

#[test]
fn commonjs_other_library_untouched() {
    let stmt = var(
        VarKind::Const,
        Pat::Object(vec![PatProp::Shorthand { key: s("Button") }]),
        require_call("other-lib", '"'),
    );
    let v = TransformVisitor::new(opts());
    let mut stmts = vec![stmt, Stmt::Empty];
    v.visit_mut_stmts(&mut stmts);
    assert_eq!(
        stmts,
        vec![
            var(
                VarKind::Const,
                Pat::Object(vec![PatProp::Shorthand { key: s("Button") }]),
                require_call("other-lib", '"'),
            ),
            Stmt::Empty,
        ]
    );
}

#[test]
fn single_quotes_preserved() {
    let m = Module {
        body: vec![import(vec![named("Button", None), named("Input", None)], lit("my-lib", '\''))],
    };
    let r = process_transform(m, opts());
    assert_eq!(
        r.body,
        vec![
            bare_import("my-lib/lib/button/style", '\''),
            bare_import("my-lib/lib/input/style", '\''),
            default_import("Button", "my-lib/lib/button", '\''),
            default_import("Input", "my-lib/lib/input", '\''),
        ]
    );
}

#[test]
fn missing_raw_text_gets_no_raw_component_literal() {
    let src = StrLit { value: s("my-lib"), raw: None };
    let m = Module { body: vec![import(vec![named("Button", None)], src)] };
    let r = process_transform(m, opts());
    assert_eq!(
        r.body,
        vec![
            bare_import("my-lib/lib/button/style", '\''),
            import(
                vec![ImportSpecifier::Default { local: s("Button") }],
                StrLit { value: s("my-lib/lib/button"), raw: None },
            ),
        ]
    );
}

#[test]
fn default_specifier_stays_on_library_import() {
    let m = Module {
        body: vec![import(
            vec![ImportSpecifier::Default { local: s("Lib") }, named("Button", None)],
            lit("my-lib", '"'),
        )],
    };
    let r = process_transform(m, opts());
    assert_eq!(
        r.body,
        vec![
            bare_import("my-lib/lib/button/style", '"'),
            default_import("Button", "my-lib/lib/button", '"'),
            default_import("Lib", "my-lib", '"'),
        ]
    );
}

#[test]
fn bare_library_import_removed_and_others_kept() {
    let m = Module {
        body: vec![
            ModuleItem::Stmt(Stmt::Other(s("foo();"))),
            bare_import("my-lib", '"'),
            default_import("React", "react", '"'),
            import(vec![named("Button", None)], lit("my-lib", '"')),
        ],
    };
    let r = process_transform(m, opts());
    assert_eq!(
        r.body,
        vec![
            bare_import("my-lib/lib/button/style", '"'),
            ModuleItem::Stmt(Stmt::Other(s("foo();"))),
            default_import("React", "react", '"'),
            default_import("Button", "my-lib/lib/button", '"'),
        ]
    );
}

#[test]
fn second_run_is_a_no_op() {
    let m = Module { body: vec![import(vec![named("Button", None)], lit("my-lib", '"'))] };
    let once = process_transform(m, opts());
    let expected = vec![
        bare_import("my-lib/lib/button/style", '"'),
        default_import("Button", "my-lib/lib/button", '"'),
    ];
    assert_eq!(once.body, expected);
    let twice = process_transform(once, opts());
    assert_eq!(twice.body, expected);
}

#[test]
fn visitor_queue_is_flushed_once() {
    let mut v = TransformVisitor::new(opts());
    let mut d = ImportDecl { specifiers: vec![named("Input", None)], src: lit("my-lib", '"') };
    let emitted = v.visit_mut_import_decl(&mut d);
    assert_eq!(emitted.len(), 1);
    assert!(d.specifiers.is_empty());
    assert_eq!(v.import_items.len(), 1);
    let mut m = Module { body: vec![import(vec![named("Button", None)], lit("my-lib", '"'))] };
    v.visit_mut_module(&mut m);
    assert!(v.import_items.is_empty());
    assert_eq!(
        m.body,
        vec![
            bare_import("my-lib/lib/input/style", '"'),
            bare_import("my-lib/lib/button/style", '"'),
            default_import("Button", "my-lib/lib/button", '"'),
        ]
    );
}

#[test]
fn nested_block_rewritten() {
    let inner = var(
        VarKind::Const,
        Pat::Object(vec![PatProp::Shorthand { key: s("Button") }]),
        require_call("my-lib", '\''),
    );
    let m = Module {
        body: vec![ModuleItem::Stmt(Stmt::Block(vec![Stmt::Other(s("a();")), inner]))],
    };
    let r = process_transform(m, opts());
    assert_eq!(
        r.body,
        vec![ModuleItem::Stmt(Stmt::Block(vec![
            Stmt::Other(s("a();")),
            var(VarKind::Const, Pat::Ident(s("Button")), require_call("my-lib/lib/button", '\'')),
            Stmt::Expr(require_call("my-lib/lib/button/style", '\'')),
        ]))]
    );
}

#[test]
fn nested_lists_rewritten_at_every_depth() {
    let deep = var(
        VarKind::Let,
        Pat::Object(vec![PatProp::KeyValue { key: s("Input"), value: s("In") }]),
        require_call("my-lib", '"'),
    );
    let mut o = opts();
    o.style = StyleOption::Off;
    let v = TransformVisitor::new(o);
    let mut stmts = vec![Stmt::Block(vec![Stmt::Block(vec![deep]), Stmt::Empty])];
    v.visit_mut_stmts(&mut stmts);
    assert_eq!(
        stmts,
        vec![Stmt::Block(vec![
            Stmt::Block(vec![var(
                VarKind::Let,
                Pat::Ident(s("In")),
                require_call("my-lib/lib/input", '"'),
            )]),
            Stmt::Empty,
        ])]
    );
}
