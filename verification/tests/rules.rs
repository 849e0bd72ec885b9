//! Tests of the rename rules and of the list helpers that the
//! configuration machinery leans on.
use jsx_testid::ast::{Attr, AttrValue, Declarator, ElemName, Element, Expr, Program, Stmt};
use jsx_testid::{vec_contains_string, Config, TransformVisitor};

fn s(x: &str) -> String {
    x.to_string()
}

fn text_attr(name: &str, value: &str) -> Attr {
    Attr::Plain { name: s(name), value: Some(AttrValue::Text(s(value))) }
}

fn elem(name: &str, attrs: Vec<Attr>, self_closing: bool, children: Vec<Expr>) -> Expr {
    Expr::Elem(Box::new(Element {
        name: ElemName::Ident(s(name)),
        attrs,
        self_closing,
        children,
    }))
}

fn config(attr: &str) -> Config {
    Config { attr_name: s(attr), ignore_components: vec![], ignore_files: vec![] }
}

#[test]
fn attr_rename_rule() {
    let mut v = TransformVisitor::new();
    v.set_config(&config("data-testid"), s("a.tsx"));
    v.set_attr_rename(s("placeholder"), s("data-placeholder"), s("hint"));
    let prog = Program {
        body: vec![Stmt::FnDecl {
            name: s("Field"),
            body: vec![Stmt::Return(Some(Box::new(elem(
                "input",
                vec![text_attr("placeholder", "old words")],
                true,
                vec![],
            ))))],
        }],
    };
    let (out, res) = v.run(prog);
    assert!(res.is_ok());
    let expected = Program {
        body: vec![Stmt::FnDecl {
            name: s("Field"),
            body: vec![Stmt::Return(Some(Box::new(elem(
                "input",
                vec![
                    text_attr("data-placeholder", "hint"),
                    text_attr("data-testid", "field"),
                ],
                true,
                vec![],
            ))))],
        }],
    };
    assert_eq!(out, expected);
}

#[test]
fn attr_rename_applies_in_child_subtree() {
    let mut v = TransformVisitor::new();
    v.set_config(&config("data-testid"), s("a.tsx"));
    v.set_attr_rename(s("placeholder"), s("data-placeholder"), s("hint"));
    let prog = Program {
        body: vec![Stmt::FnDecl {
            name: s("Field"),
            body: vec![Stmt::Return(Some(Box::new(elem(
                "div",
                vec![],
                false,
                vec![elem("input", vec![text_attr("placeholder", "x")], true, vec![])],
            ))))],
        }],
    };
    let (out, res) = v.run(prog);
    assert!(res.is_ok());
    match &out.body[0] {
        Stmt::FnDecl { body, .. } => match &body[0] {
            Stmt::Return(Some(e)) => match &**e {
                Expr::Elem(el) => match &el.children[0] {
                    Expr::Elem(inner) => {
                        assert_eq!(inner.attrs, vec![text_attr("data-placeholder", "hint")]);
                    }
                    _ => panic!("expected an element"),
                },
                _ => panic!("expected an element"),
            },
            _ => panic!("expected a return"),
        },
        _ => panic!("expected a function declaration"),
    }
}

#[test]
fn call_rename_rule() {
    let mut v = TransformVisitor::new();
    v.set_config(&config("data-testid"), s("a.tsx"));
    v.set_call_rename(s("oldHelper"), s("newHelper"));
    let prog = Program {
        body: vec![Stmt::Expr(Box::new(Expr::Call {
            callee: Box::new(Expr::Ident(s("oldHelper"))),
            args: vec![Expr::Ident(s("x"))],
        }))],
    };
    let (out, res) = v.run(prog);
    assert!(res.is_ok());
    let expected = Program {
        body: vec![Stmt::Expr(Box::new(Expr::Call {
            callee: Box::new(Expr::Ident(s("newHelper"))),
            args: vec![Expr::Ident(s("x"))],
        }))],
    };
    assert_eq!(out, expected);
}

#[test]
fn call_rename_leaves_plain_identifiers() {
    let mut v = TransformVisitor::new();
    v.set_config(&config("data-testid"), s("a.tsx"));
    v.set_call_rename(s("oldHelper"), s("newHelper"));
    let make = || Program {
        body: vec![Stmt::Expr(Box::new(Expr::Ident(s("oldHelper"))))],
    };
    let (out, res) = v.run(make());
    assert!(res.is_ok());
    assert_eq!(out, make());
}

#[test]
fn fn_decl_rename_rule() {
    let mut v = TransformVisitor::new();
    v.set_config(&config("data-testid"), s("a.tsx"));
    v.set_fn_decl_rename(s("OldCard"), s("NewCard"));
    let prog = Program {
        body: vec![Stmt::FnDecl {
            name: s("OldCard"),
            body: vec![Stmt::Return(Some(Box::new(elem("div", vec![], true, vec![]))))],
        }],
    };
    let (out, res) = v.run(prog);
    assert!(res.is_ok());
    // The declaration is renamed, and the injected value follows the
    // new name.
    let expected = Program {
        body: vec![Stmt::FnDecl {
            name: s("NewCard"),
            body: vec![Stmt::Return(Some(Box::new(elem(
                "div",
                vec![text_attr("data-testid", "new-card")],
                true,
                vec![],
            ))))],
        }],
    };
    assert_eq!(out, expected);
}

#[test]
fn multi_declarator_last_decides_first_names() {
    // With several declarators, the last initializer that decides
    // wins, and the name comes from the first declarator.
    let mut v = TransformVisitor::new();
    v.set_config(&config("data-testid"), s("a.tsx"));
    let prog = Program {
        body: vec![
            Stmt::VarDecl(vec![
                Declarator {
                    name: Some(s("First")),
                    init: Some(Expr::FnExpr(Some(vec![Stmt::Return(Some(Box::new(elem(
                        "div",
                        vec![],
                        true,
                        vec![],
                    ))))]))),
                },
                Declarator {
                    name: Some(s("Second")),
                    init: Some(Expr::FnExpr(Some(vec![Stmt::Return(Some(Box::new(
                        Expr::Text(s("0")),
                    )))]))),
                },
            ]),
            Stmt::Expr(Box::new(elem("span", vec![], true, vec![]))),
        ],
    };
    let (out, res) = v.run(prog);
    assert!(res.is_ok());
    // The second initializer decided "no component", so the bare
    // element at the end has no component name to carry.
    match &out.body[1] {
        Stmt::Expr(e) => match &**e {
            Expr::Elem(el) => assert_eq!(el.attrs, vec![]),
            _ => panic!("expected an element"),
        },
        _ => panic!("expected an expression statement"),
    }
}

#[test]
fn vec_contains_string_trims_quotes() {
    assert!(vec_contains_string(vec![s("\"Foo\"")], s("Foo")));
    assert!(vec_contains_string(vec![s("Foo")], s("Foo")));
    assert!(!vec_contains_string(vec![s("\"Foo\"")], s("Bar")));
    assert!(!vec_contains_string(vec![], s("Foo")));
    assert!(vec_contains_string(vec![s("A"), s("\"\"B\"")], s("B")));
}

#[test]
fn spread_and_exotic_attrs_untouched() {
    let mut v = TransformVisitor::new();
    v.set_config(&config("data-testid"), s("a.tsx"));
    let prog = Program {
        body: vec![Stmt::FnDecl {
            name: s("Div"),
            body: vec![Stmt::Return(Some(Box::new(Expr::Elem(Box::new(Element {
                name: ElemName::Ident(s("div")),
                attrs: vec![Attr::Exotic],
                self_closing: true,
                children: vec![],
            })))))],
        }],
    };
    let (out, res) = v.run(prog);
    assert!(res.is_ok());
    match &out.body[0] {
        Stmt::FnDecl { body, .. } => match &body[0] {
            Stmt::Return(Some(e)) => match &**e {
                Expr::Elem(el) => {
                    assert_eq!(
                        el.attrs,
                        vec![Attr::Exotic, text_attr("data-testid", "div")]
                    );
                }
                _ => panic!("expected an element"),
            },
            _ => panic!("expected a return"),
        },
        _ => panic!("expected a function declaration"),
    }
}

#[test]
fn destructuring_pattern_does_not_bind() {
    // A qualifying initializer bound by a non-identifier pattern
    // names no component: a later bare element has nothing to carry.
    let mut v = TransformVisitor::new();
    v.set_config(&config("data-testid"), s("a.tsx"));
    let prog = Program {
        body: vec![
            Stmt::VarDecl(vec![Declarator {
                name: None,
                init: Some(Expr::FnExpr(Some(vec![Stmt::Return(Some(Box::new(elem(
                    "div",
                    vec![],
                    true,
                    vec![],
                ))))]))),
            }]),
            Stmt::Expr(Box::new(elem("span", vec![], true, vec![]))),
        ],
    };
    let (out, res) = v.run(prog);
    assert!(res.is_ok());
    match &out.body[1] {
        Stmt::Expr(e) => match &**e {
            Expr::Elem(el) => assert_eq!(el.attrs, vec![]),
            _ => panic!("expected an element"),
        },
        _ => panic!("expected an expression statement"),
    }
}

#[test]
fn markup_inside_nested_statement_is_reached() {
    // The traversal descends into statements it does not classify;
    // an element there is still a root candidate.
    let mut v = TransformVisitor::new();
    v.set_config(&config("data-testid"), s("a.tsx"));
    let prog = Program {
        body: vec![Stmt::FnDecl {
            name: s("Guarded"),
            body: vec![Stmt::Other(vec![Stmt::Return(Some(Box::new(elem(
                "div",
                vec![],
                true,
                vec![],
            ))))])],
        }],
    };
    let (out, res) = v.run(prog);
    assert!(res.is_ok());
    match &out.body[0] {
        Stmt::FnDecl { body, .. } => match &body[0] {
            Stmt::Other(inner) => match &inner[0] {
                Stmt::Return(Some(e)) => match &**e {
                    Expr::Elem(el) => {
                        assert_eq!(el.attrs, vec![text_attr("data-testid", "guarded")]);
                    }
                    _ => panic!("expected an element"),
                },
                _ => panic!("expected a return"),
            },
            _ => panic!("expected a nested statement"),
        },
        _ => panic!("expected a function declaration"),
    }
}

#[test]
fn call_arguments_are_visited() {
    // Markup handed to a call is still reached by the traversal.
    let mut v = TransformVisitor::new();
    v.set_config(&config("data-testid"), s("a.tsx"));
    let prog = Program {
        body: vec![
            Stmt::FnDecl {
                name: s("Wrapped"),
                body: vec![Stmt::Return(Some(Box::new(Expr::Call {
                    callee: Box::new(Expr::Ident(s("memo"))),
                    args: vec![elem("div", vec![], true, vec![])],
                })))],
            },
        ],
    };
    let (out, res) = v.run(prog);
    assert!(res.is_ok());
    match &out.body[0] {
        Stmt::FnDecl { body, .. } => match &body[0] {
            Stmt::Return(Some(e)) => match &**e {
                Expr::Call { args, .. } => match &args[0] {
                    Expr::Elem(el) => {
                        // the return is a call, not a markup element,
                        // so no component was bound for this function
                        // beyond its own declaration
                        assert_eq!(el.attrs, vec![text_attr("data-testid", "wrapped")]);
                    }
                    _ => panic!("expected an element"),
                },
                _ => panic!("expected a call"),
            },
            _ => panic!("expected a return"),
        },
        _ => panic!("expected a function declaration"),
    }
}

