//! End-to-end tests of the tree rewriter: injection, boundary
//! tracking, boolean normalization, ignore lists and the file-skip
//! bypass, exercised through the public entry points.
use jsx_testid::ast::{Attr, AttrValue, Declarator, ElemName, Element, Expr, FnBody, Program, Stmt};
use jsx_testid::{process_transform, Config, TransformError, TransformVisitor};

fn s(x: &str) -> String {
    x.to_string()
}

fn text_attr(name: &str, value: &str) -> Attr {
    Attr::Plain { name: s(name), value: Some(AttrValue::Text(s(value))) }
}

fn elem(name: &str, attrs: Vec<Attr>, self_closing: bool, children: Vec<Expr>) -> Expr {
    Expr::Elem(Box::new(Element {
        name: ElemName::Ident(s(name)),
        attrs,
        self_closing,
        children,
    }))
}

fn fn_decl(name: &str, body: Vec<Stmt>) -> Stmt {
    Stmt::FnDecl { name: s(name), body }
}

fn ret(e: Expr) -> Stmt {
    Stmt::Return(Some(Box::new(e)))
}

fn var_decl(name: &str, init: Expr) -> Stmt {
    Stmt::VarDecl(vec![Declarator { name: Some(s(name)), init: Some(init) }])
}

fn config(attr: &str, ignore_components: &[&str], ignore_files: &[&str]) -> Config {
    Config {
        attr_name: s(attr),
        ignore_components: ignore_components.iter().map(|x| s(x)).collect(),
        ignore_files: ignore_files.iter().map(|x| s(x)).collect(),
    }
}

fn transform_ok(p: Program, cfg: &Config, file: &str) -> Program {
    let (out, res) = process_transform(p, cfg, &s(file));
    assert!(res.is_ok());
    out
}

#[test]
fn injection_skips_existing_attr() {
    let cfg = config("data-testid", &[], &[]);
    let make = || Program {
        body: vec![fn_decl(
            "Text",
            vec![ret(elem(
                "h3",
                vec![text_attr("data-testid", "current-data-testid")],
                false,
                vec![Expr::Text(s("This is Text Element!"))],
            ))],
        )],
    };
    assert_eq!(transform_ok(make(), &cfg, "a.tsx"), make());
}

#[test]
fn kebab_values() {
    assert_eq!(jsx_testid::casing::test_id_for(&s("UserProfile")), "user-profile");
    assert_eq!(jsx_testid::casing::test_id_for(&s("Div")), "div");
    assert_eq!(jsx_testid::casing::test_id_for(&s("NoReturn")), "no-return");
    assert_eq!(jsx_testid::casing::test_id_for(&s("ImgComponent")), "img-component");
}

#[test]
fn nested_children_root_only() {
    let cfg = config("data-testid", &[], &[]);
    let prog = Program {
        body: vec![fn_decl(
            "Component",
            vec![ret(elem(
                "div",
                vec![],
                false,
                vec![elem(
                    "div",
                    vec![],
                    false,
                    vec![elem("h3", vec![], false, vec![Expr::Text(s("This is nested text!"))])],
                )],
            ))],
        )],
    };
    let expected = Program {
        body: vec![fn_decl(
            "Component",
            vec![ret(elem(
                "div",
                vec![text_attr("data-testid", "component")],
                false,
                vec![elem(
                    "div",
                    vec![],
                    false,
                    vec![elem("h3", vec![], false, vec![Expr::Text(s("This is nested text!"))])],
                )],
            ))],
        )],
    };
    assert_eq!(transform_ok(prog, &cfg, "a.tsx"), expected);
}

#[test]
fn self_closing_root() {
    let cfg = config("data-testid", &[], &[]);
    let prog = Program {
        body: vec![fn_decl("Div", vec![ret(elem("div", vec![], true, vec![]))])],
    };
    let expected = Program {
        body: vec![fn_decl(
            "Div",
            vec![ret(elem("div", vec![text_attr("data-testid", "div")], true, vec![]))],
        )],
    };
    assert_eq!(transform_ok(prog, &cfg, "a.tsx"), expected);
}

#[test]
fn ignore_component_suppression() {
    let cfg = config("data-testid", &["Foo"], &[]);
    let prog = Program {
        body: vec![
            fn_decl("Foo", vec![ret(elem("div", vec![], true, vec![]))]),
            fn_decl("Bar", vec![ret(elem("div", vec![], true, vec![]))]),
        ],
    };
    let expected = Program {
        body: vec![
            fn_decl("Foo", vec![ret(elem("div", vec![], true, vec![]))]),
            fn_decl(
                "Bar",
                vec![ret(elem("div", vec![text_attr("data-testid", "bar")], true, vec![]))],
            ),
        ],
    };
    assert_eq!(transform_ok(prog, &cfg, "a.tsx"), expected);
}

#[test]
fn ignore_component_list_entries_keep_quotes() {
    // Entries that arrive from a JSON host still carry their quotes;
    // membership strips them before comparing.
    let cfg = config("data-testid", &["\"Foo\""], &[]);
    let make = || Program {
        body: vec![fn_decl("Foo", vec![ret(elem("div", vec![], true, vec![]))])],
    };
    assert_eq!(transform_ok(make(), &cfg, "a.tsx"), make());
}

#[test]
fn ignore_file_bypass() {
    let cfg = config("data-testid", &[], &["legacy/"]);
    let make = || Program {
        body: vec![fn_decl("Widget", vec![ret(elem("div", vec![], true, vec![]))])],
    };
    let (out, res) = process_transform(make(), &cfg, &s("legacy/widget.tsx"));
    assert!(res.is_ok());
    assert_eq!(out, make());
}

#[test]
fn ignore_file_entry_quotes_trimmed() {
    let cfg = config("data-testid", &[], &["\"legacy/\""]);
    let make = || Program {
        body: vec![fn_decl("Widget", vec![ret(elem("div", vec![], true, vec![]))])],
    };
    let (out, res) = process_transform(make(), &cfg, &s("legacy/widget.tsx"));
    assert!(res.is_ok());
    assert_eq!(out, make());
}

#[test]
fn other_file_not_bypassed() {
    let cfg = config("data-testid", &[], &["legacy/"]);
    let prog = Program {
        body: vec![fn_decl("Widget", vec![ret(elem("div", vec![], true, vec![]))])],
    };
    let expected = Program {
        body: vec![fn_decl(
            "Widget",
            vec![ret(elem("div", vec![text_attr("data-testid", "widget")], true, vec![]))],
        )],
    };
    assert_eq!(transform_ok(prog, &cfg, "src/widget.tsx"), expected);
}

#[test]
fn lazy_load_normalization() {
    let cfg = config("data-testid", &[], &[]);
    let prog = Program {
        body: vec![fn_decl(
            "ImgComponent",
            vec![ret(elem(
                "img",
                vec![text_attr("src", "sample.png"), text_attr("lazy-load", "false")],
                true,
                vec![],
            ))],
        )],
    };
    let expected = Program {
        body: vec![fn_decl(
            "ImgComponent",
            vec![ret(elem(
                "img",
                vec![
                    text_attr("src", "sample.png"),
                    text_attr("lazy-load", "true"),
                    text_attr("data-testid", "img-component"),
                ],
                true,
                vec![],
            ))],
        )],
    };
    assert_eq!(transform_ok(prog, &cfg, "a.tsx"), expected);
}

#[test]
fn lazy_load_other_value_untouched() {
    let cfg = config("data-testid", &[], &[]);
    let prog = Program {
        body: vec![fn_decl(
            "ImgComponent",
            vec![ret(elem("img", vec![text_attr("lazy-load", "0")], true, vec![]))],
        )],
    };
    let expected = Program {
        body: vec![fn_decl(
            "ImgComponent",
            vec![ret(elem(
                "img",
                vec![text_attr("lazy-load", "0"), text_attr("data-testid", "img-component")],
                true,
                vec![],
            ))],
        )],
    };
    assert_eq!(transform_ok(prog, &cfg, "a.tsx"), expected);
}

#[test]
fn transform_twice_fixed_point() {
    let cfg = config("data-testid", &["Foo"], &[]);
    let prog = Program {
        body: vec![
            fn_decl(
                "Component",
                vec![ret(elem(
                    "div",
                    vec![text_attr("lazy-load", "false")],
                    false,
                    vec![elem("h3", vec![], false, vec![Expr::Text(s("x"))])],
                ))],
            ),
            fn_decl("Foo", vec![ret(elem("div", vec![], true, vec![]))]),
            var_decl(
                "Arrowed",
                Expr::Arrow(FnBody::Expr(Box::new(elem("span", vec![], true, vec![])))),
            ),
        ],
    };
    let (once_a, res1) = process_transform(prog, &cfg, &s("a.tsx"));
    assert!(res1.is_ok());
    let (twice, res2) = process_transform(once_a, &cfg, &s("a.tsx"));
    assert!(res2.is_ok());
    let prog_again = Program {
        body: vec![
            fn_decl(
                "Component",
                vec![ret(elem(
                    "div",
                    vec![text_attr("lazy-load", "false")],
                    false,
                    vec![elem("h3", vec![], false, vec![Expr::Text(s("x"))])],
                ))],
            ),
            fn_decl("Foo", vec![ret(elem("div", vec![], true, vec![]))]),
            var_decl(
                "Arrowed",
                Expr::Arrow(FnBody::Expr(Box::new(elem("span", vec![], true, vec![])))),
            ),
        ],
    };
    let (once_b, res3) = process_transform(prog_again, &cfg, &s("a.tsx"));
    assert!(res3.is_ok());
    assert_eq!(twice, once_b);
}

#[test]
fn exotic_root_name_error() {
    let cfg = config("data-testid", &[], &[]);
    let prog = Program {
        body: vec![fn_decl(
            "Component",
            vec![ret(Expr::Elem(Box::new(Element {
                name: ElemName::Exotic,
                attrs: vec![],
                self_closing: false,
                children: vec![],
            })))],
        )],
    };
    let (_, res) = process_transform(prog, &cfg, &s("a.tsx"));
    assert_eq!(res, Err(TransformError::UnsupportedElementName));
}

#[test]
fn exotic_name_inside_child_subtree_is_fine() {
    let cfg = config("data-testid", &[], &[]);
    let prog = Program {
        body: vec![fn_decl(
            "Component",
            vec![ret(elem(
                "div",
                vec![],
                false,
                vec![Expr::Elem(Box::new(Element {
                    name: ElemName::Exotic,
                    attrs: vec![],
                    self_closing: true,
                    children: vec![],
                }))],
            ))],
        )],
    };
    let (_, res) = process_transform(prog, &cfg, &s("a.tsx"));
    assert!(res.is_ok());
}

#[test]
fn arrow_expression_body_component() {
    let cfg = config("data-testid", &[], &[]);
    let prog = Program {
        body: vec![var_decl(
            "Div",
            Expr::Arrow(FnBody::Expr(Box::new(elem("div", vec![], true, vec![])))),
        )],
    };
    let expected = Program {
        body: vec![var_decl(
            "Div",
            Expr::Arrow(FnBody::Expr(Box::new(elem(
                "div",
                vec![text_attr("data-testid", "div")],
                true,
                vec![],
            )))),
        )],
    };
    assert_eq!(transform_ok(prog, &cfg, "a.tsx"), expected);
}

#[test]
fn arrow_parenthesized_body_component() {
    let cfg = config("data-testid", &[], &[]);
    let prog = Program {
        body: vec![var_decl(
            "WithoutReturn",
            Expr::Arrow(FnBody::Expr(Box::new(Expr::Paren(Box::new(elem(
                "div",
                vec![],
                false,
                vec![Expr::Text(s("hello"))],
            )))))),
        )],
    };
    let expected = Program {
        body: vec![var_decl(
            "WithoutReturn",
            Expr::Arrow(FnBody::Expr(Box::new(Expr::Paren(Box::new(elem(
                "div",
                vec![text_attr("data-testid", "without-return")],
                false,
                vec![Expr::Text(s("hello"))],
            )))))),
        )],
    };
    assert_eq!(transform_ok(prog, &cfg, "a.tsx"), expected);
}

#[test]
fn function_expression_component() {
    let cfg = config("data-testid", &[], &[]);
    let prog = Program {
        body: vec![var_decl(
            "Div",
            Expr::FnExpr(Some(vec![ret(elem("div", vec![], true, vec![]))])),
        )],
    };
    let expected = Program {
        body: vec![var_decl(
            "Div",
            Expr::FnExpr(Some(vec![ret(elem(
                "div",
                vec![text_attr("data-testid", "div")],
                true,
                vec![],
            ))])),
        )],
    };
    assert_eq!(transform_ok(prog, &cfg, "a.tsx"), expected);
}

#[test]
fn non_component_var_keeps_previous_name() {
    // A variable whose initializer returns no markup does not bind a
    // component; a markup element reached later still carries the
    // previous component's identity.
    let cfg = config("data-testid", &[], &[]);
    let prog = Program {
        body: vec![
            fn_decl("First", vec![ret(elem("div", vec![], true, vec![]))]),
            var_decl(
                "NoJsxReturn",
                Expr::FnExpr(Some(vec![Stmt::Return(Some(Box::new(Expr::Text(s("0")))))])),
            ),
            Stmt::Expr(Box::new(elem("span", vec![], true, vec![]))),
        ],
    };
    let out = transform_ok(prog, &cfg, "a.tsx");
    match &out.body[2] {
        Stmt::Expr(e) => match &**e {
            Expr::Elem(el) => {
                assert_eq!(el.attrs, vec![text_attr("data-testid", "first")]);
            }
            _ => panic!("expected an element"),
        },
        _ => panic!("expected an expression statement"),
    }
}

#[test]
fn bare_expression_statement_renders() {
    let cfg = config("data-testid", &[], &[]);
    let prog = Program {
        body: vec![fn_decl(
            "NoReturn",
            vec![Stmt::Expr(Box::new(elem("div", vec![], true, vec![])))],
        )],
    };
    let expected = Program {
        body: vec![fn_decl(
            "NoReturn",
            vec![Stmt::Expr(Box::new(elem(
                "div",
                vec![text_attr("data-testid", "no-return")],
                true,
                vec![],
            )))],
        )],
    };
    assert_eq!(transform_ok(prog, &cfg, "a.tsx"), expected);
}

#[test]
fn stale_component_name_for_fragment() {
    // An arrow whose body is a parenthesized fragment does not bind a
    // component; the fragment's children are injected under the name
    // still in scope from the declaration before it.
    let cfg = config("data-testid", &[], &[]);
    let prog = Program {
        body: vec![
            var_decl(
                "WithoutReturn",
                Expr::Arrow(FnBody::Expr(Box::new(Expr::Paren(Box::new(elem(
                    "div",
                    vec![],
                    false,
                    vec![Expr::Text(s("hello"))],
                )))))),
            ),
            var_decl(
                "WithoutReturnJsxFragment",
                Expr::Arrow(FnBody::Expr(Box::new(Expr::Paren(Box::new(Expr::Fragment(
                    vec![elem("div", vec![], true, vec![])],
                )))))),
            ),
        ],
    };
    let out = transform_ok(prog, &cfg, "a.tsx");
    match &out.body[1] {
        Stmt::VarDecl(ds) => match ds[0].init.as_ref().unwrap() {
            Expr::Arrow(FnBody::Expr(b)) => match &**b {
                Expr::Paren(f) => match &**f {
                    Expr::Fragment(cs) => match &cs[0] {
                        Expr::Elem(el) => {
                            assert_eq!(el.attrs, vec![text_attr("data-testid", "without-return")]);
                        }
                        _ => panic!("expected an element"),
                    },
                    _ => panic!("expected a fragment"),
                },
                _ => panic!("expected parentheses"),
            },
            _ => panic!("expected an arrow"),
        },
        _ => panic!("expected a variable declaration"),
    }
}

#[test]
fn same_name_closing_reopens_boundary() {
    // Only one boundary is tracked, by tag name: the inner closing
    // tag named like the boundary closes it, so a later sibling is
    // treated as a root again. This mirrors the single-boundary
    // design.
    let cfg = config("data-testid", &[], &[]);
    let prog = Program {
        body: vec![fn_decl(
            "Component",
            vec![ret(elem(
                "div",
                vec![],
                false,
                vec![
                    elem("div", vec![], false, vec![]),
                    elem("span", vec![], true, vec![]),
                ],
            ))],
        )],
    };
    let out = transform_ok(prog, &cfg, "a.tsx");
    match &out.body[0] {
        Stmt::FnDecl { body, .. } => match &body[0] {
            Stmt::Return(Some(e)) => match &**e {
                Expr::Elem(el) => {
                    assert_eq!(el.attrs, vec![text_attr("data-testid", "component")]);
                    match &el.children[1] {
                        Expr::Elem(span) => {
                            assert_eq!(span.attrs, vec![text_attr("data-testid", "component")]);
                        }
                        _ => panic!("expected an element"),
                    }
                }
                _ => panic!("expected an element"),
            },
            _ => panic!("expected a return"),
        },
        _ => panic!("expected a function declaration"),
    }
}

#[test]
fn empty_attr_name_still_injects() {
    let cfg = config("", &[], &[]);
    let prog = Program {
        body: vec![fn_decl("Div", vec![ret(elem("div", vec![], true, vec![]))])],
    };
    let expected = Program {
        body: vec![fn_decl(
            "Div",
            vec![ret(elem("div", vec![text_attr("", "div")], true, vec![]))],
        )],
    };
    assert_eq!(transform_ok(prog, &cfg, "a.tsx"), expected);
}

#[test]
fn visitor_run_reports_state_reuse() {
    // Driving the visitor directly: the same visitor keeps its
    // configuration across runs.
    let cfg = config("data-testid", &[], &[]);
    let mut v = TransformVisitor::new();
    v.set_config(&cfg, s("a.tsx"));
    let prog = Program {
        body: vec![fn_decl("Div", vec![ret(elem("div", vec![], true, vec![]))])],
    };
    let (out, res) = v.run(prog);
    assert!(res.is_ok());
    let expected = Program {
        body: vec![fn_decl(
            "Div",
            vec![ret(elem("div", vec![text_attr("data-testid", "div")], true, vec![]))],
        )],
    };
    assert_eq!(out, expected);
}
