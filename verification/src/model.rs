//! The functional model of the rewrite: spec-level configuration and
//! traversal state, the individual rewrite rules, and the document-
//! order traversal as one recursive spec function family. The
//! executable visitor is verified against these definitions.
use vstd::prelude::*;

use crate::ast::{SAttr, SAttrValue, SDeclarator, SElement, SExpr, SFnBody, SName, SProgram, SStmt};
use crate::casing::test_id_value;
use crate::text::list_contains_trimmed;

verus! {

/// Spec view of an attribute rename rule: attributes named `from` are
/// renamed to `to` and revalued with the fixed literal `value`.
pub ghost struct SAttrRename {
    pub from: Seq<char>,
    pub to: Seq<char>,
    pub value: Seq<char>,
}

/// Spec view of an identifier rename rule.
pub ghost struct SIdentRename {
    pub from: Seq<char>,
    pub to: Seq<char>,
}

/// Spec view of everything that stays fixed during one invocation:
/// the configuration and the rule sentinels.
pub ghost struct SCfg {
    pub attr_name: Seq<char>,
    pub ignore_components: Seq<Seq<char>>,
    pub filename: Seq<char>,
    pub bool_attr: Seq<char>,
    pub attr_rename: Option<SAttrRename>,
    pub call_rename: Option<SIdentRename>,
    pub fn_rename: Option<SIdentRename>,
}

/// Spec view of the mutable traversal state: the component identifier
/// currently in scope, whether the traversal stands inside a root
/// element's subtree, and the tag name that will close that subtree.
pub ghost struct SState {
    pub in_child: bool,
    pub parent_id: Seq<char>,
    pub component_name: Seq<char>,
}

/// The state every invocation starts from.
pub open spec fn initial_state() -> SState {
    SState { in_child: false, parent_id: Seq::empty(), component_name: Seq::empty() }
}

/// Whether `a` is a plain attribute with exactly this name.
pub open spec fn attr_named(a: SAttr, name: Seq<char>) -> bool {
    match a {
        SAttr::Plain { name: n, value: _ } => n == name,
        SAttr::Exotic => false,
    }
}

/// Whether some attribute in the list carries this name.
pub open spec fn has_attr(attrs: Seq<SAttr>, name: Seq<char>) -> bool {
    exists|i: int| 0 <= i < attrs.len() && attr_named(#[trigger] attrs[i], name)
}

/// Boolean normalization: an attribute named like the boolean
/// sentinel whose string value is exactly `"false"` is rewritten to
/// `"true"`; every other attribute is left alone.
pub open spec fn norm_bool_attr(cfg: SCfg, a: SAttr) -> SAttr {
    match a {
        SAttr::Plain { name, value } => {
            if name == cfg.bool_attr && value == Some(SAttrValue::Text("false"@)) {
                SAttr::Plain { name, value: Some(SAttrValue::Text("true"@)) }
            } else {
                a
            }
        },
        SAttr::Exotic => a,
    }
}

/// Rename + revalue: an attribute named like the rule's source is
/// renamed to the rule's target and its value overwritten with the
/// rule's fixed literal.
pub open spec fn rename_attr(cfg: SCfg, a: SAttr) -> SAttr {
    match cfg.attr_rename {
        Some(ar) => match a {
            SAttr::Plain { name, value } => {
                if name == ar.from {
                    SAttr::Plain { name: ar.to, value: Some(SAttrValue::Text(ar.value)) }
                } else {
                    a
                }
            },
            SAttr::Exotic => a,
        },
        None => a,
    }
}

/// The unconditional per-attribute rules, in their fixed order.
pub open spec fn apply_attr_rules(cfg: SCfg, a: SAttr) -> SAttr {
    rename_attr(cfg, norm_bool_attr(cfg, a))
}

pub open spec fn apply_attr_rules_all(cfg: SCfg, attrs: Seq<SAttr>) -> Seq<SAttr> {
    attrs.map_values(|a: SAttr| apply_attr_rules(cfg, a))
}

/// The diagnostic attribute injected for the component currently in
/// scope.
pub open spec fn injected_attr(cfg: SCfg, st: SState) -> SAttr {
    SAttr::Plain {
        name: cfg.attr_name,
        value: Some(SAttrValue::Text(test_id_value(st.component_name))),
    }
}

/// Whether injection fires: the attribute is not already present, a
/// component identifier is in scope, and that identifier is not on
/// the ignore list.
pub open spec fn inject_allowed(cfg: SCfg, st: SState, attrs: Seq<SAttr>) -> bool {
    &&& !has_attr(attrs, cfg.attr_name)
    &&& st.component_name.len() > 0
    &&& !list_contains_trimmed(cfg.ignore_components, st.component_name)
}

/// Diagnostic-attribute injection: appends the attribute when
/// allowed, otherwise returns the list unchanged.
pub open spec fn inject(cfg: SCfg, st: SState, attrs: Seq<SAttr>) -> Seq<SAttr> {
    if inject_allowed(cfg, st, attrs) {
        attrs.push(injected_attr(cfg, st))
    } else {
        attrs
    }
}

/// The attribute list of an opening element after all rules ran:
/// injection fires only at a root element (outside any child
/// subtree); the per-attribute rules run everywhere, the injected
/// attribute included.
pub open spec fn open_element_attrs(cfg: SCfg, st: SState, attrs: Seq<SAttr>) -> Seq<SAttr> {
    if !st.in_child {
        apply_attr_rules_all(cfg, inject(cfg, st, attrs))
    } else {
        apply_attr_rules_all(cfg, attrs)
    }
}

/// The state after an opening element: at a root, a non-self-closing
/// element opens the child boundary and its tag name is remembered;
/// inside a child subtree nothing changes.
pub open spec fn open_element_state(st: SState, name: SName, self_closing: bool) -> SState {
    if st.in_child {
        st
    } else {
        let st1 = if !self_closing {
            SState { in_child: true, ..st }
        } else {
            st
        };
        match name {
            SName::Ident(n) => SState { parent_id: n, ..st1 },
            SName::Exotic => st1,
        }
    }
}

/// An opening element at root position must carry a simple-identifier
/// tag name; any other shape is a fatal condition.
pub open spec fn open_element_ok(st: SState, name: SName) -> bool {
    st.in_child || (name matches SName::Ident(_))
}

/// The state after a closing element: a tag name equal to the
/// remembered boundary name closes the child subtree.
pub open spec fn close_element_state(st: SState, name: SName) -> SState {
    match name {
        SName::Ident(n) => if n == st.parent_id {
            SState { in_child: false, ..st }
        } else {
            st
        },
        SName::Exotic => st,
    }
}

/// Whether an expression is a markup element, directly or wrapped in
/// one level of parenthesization.
pub open spec fn paren_or_elem(e: SExpr) -> bool {
    match e {
        SExpr::Elem(_) => true,
        SExpr::Paren(inner) => *inner matches SExpr::Elem(_),
        _ => false,
    }
}

/// Whether a statement renders markup: a `return` of a markup element
/// (directly or parenthesized), or a bare expression statement that
/// is a markup element.
pub open spec fn stmt_renders(s: SStmt) -> bool {
    match s {
        SStmt::Return(arg) => match arg {
            Some(e) => paren_or_elem(*e),
            None => false,
        },
        SStmt::Expr(e) => *e matches SExpr::Elem(_),
        _ => false,
    }
}

/// Whether a block body renders markup in some statement.
pub open spec fn body_renders(ss: Seq<SStmt>) -> bool {
    exists|i: int| 0 <= i < ss.len() && stmt_renders(#[trigger] ss[i])
}

/// Classification of one declarator initializer, threading the value
/// accumulated from earlier declarators: arrow functions and function
/// expressions decide afresh; any other shape leaves the accumulator.
pub open spec fn init_class(e: SExpr, acc: bool) -> bool {
    match e {
        SExpr::Arrow(body) => match body {
            SFnBody::Block(ss) => body_renders(ss),
            SFnBody::Expr(b) => paren_or_elem(*b),
        },
        SExpr::FnExpr(body) => match body {
            Some(ss) => body_renders(ss),
            None => acc,
        },
        _ => acc,
    }
}

/// Classification of a whole declarator list; the last initializer
/// that decides wins.
pub open spec fn decls_render(ds: Seq<SDeclarator>, acc: bool) -> bool
    decreases ds.len(),
{
    if ds.len() == 0 {
        acc
    } else {
        let acc1 = match ds[0].init {
            Some(e) => init_class(e, acc),
            None => acc,
        };
        decls_render(ds.drop_first(), acc1)
    }
}

/// The state after resolving a variable declaration: when outside any
/// child subtree and the declaration binds a component, the first
/// declarator's simple-identifier name becomes the component in
/// scope.
pub open spec fn var_decl_state(st: SState, ds: Seq<SDeclarator>) -> SState {
    if !st.in_child && decls_render(ds, false) && ds.len() > 0 {
        match ds[0].name {
            Some(n) => SState { component_name: n, ..st },
            None => st,
        }
    } else {
        st
    }
}

/// The function-declaration rename applied to one name.
pub open spec fn renamed_fn_name(cfg: SCfg, name: Seq<char>) -> Seq<char> {
    match cfg.fn_rename {
        Some(r) => if name == r.from {
            r.to
        } else {
            name
        },
        None => name,
    }
}

/// The state after resolving a function declaration: outside any
/// child subtree its (renamed) name becomes the component in scope.
pub open spec fn fn_decl_state(st: SState, renamed: Seq<char>) -> SState {
    if !st.in_child {
        SState { component_name: renamed, ..st }
    } else {
        st
    }
}

/// The call-target rename applied to a callee expression: only a bare
/// identifier equal to the rule's source is renamed.
pub open spec fn renamed_callee(cfg: SCfg, callee: SExpr) -> SExpr {
    match cfg.call_rename {
        Some(r) => match callee {
            SExpr::Ident(n) => if n == r.from {
                SExpr::Ident(r.to)
            } else {
                callee
            },
            _ => callee,
        },
        None => callee,
    }
}

/// Traversal of one element: opening-element rules and state change,
/// then the children, then the closing element. A root element whose
/// tag name is not a simple identifier aborts after its own rewrite.
pub open spec fn t_elem(cfg: SCfg, st: SState, el: SElement) -> (SElement, SState, bool)
    decreases el,
{
    let attrs1 = open_element_attrs(cfg, st, el.attrs);
    let st1 = open_element_state(st, el.name, el.self_closing);
    if !open_element_ok(st, el.name) {
        (SElement { attrs: attrs1, ..el }, st1, false)
    } else {
        let r = t_exprs(cfg, st1, el.children);
        let el2 = SElement { attrs: attrs1, children: r.0, ..el };
        if !r.2 {
            (el2, r.1, false)
        } else if !el.self_closing {
            (el2, close_element_state(r.1, el.name), true)
        } else {
            (el2, r.1, true)
        }
    }
}

/// Traversal of one expression in document order.
pub open spec fn t_expr(cfg: SCfg, st: SState, e: SExpr) -> (SExpr, SState, bool)
    decreases e,
{
    match e {
        SExpr::Elem(el) => {
            let r = t_elem(cfg, st, el);
            (SExpr::Elem(r.0), r.1, r.2)
        },
        SExpr::Fragment(cs) => {
            let r = t_exprs(cfg, st, cs);
            (SExpr::Fragment(r.0), r.1, r.2)
        },
        SExpr::Paren(b) => {
            let r = t_expr(cfg, st, *b);
            (SExpr::Paren(Box::new(r.0)), r.1, r.2)
        },
        SExpr::Arrow(body) => {
            let r = t_fnbody(cfg, st, body);
            (SExpr::Arrow(r.0), r.1, r.2)
        },
        SExpr::FnExpr(body) => match body {
            Some(ss) => {
                let r = t_stmts(cfg, st, ss);
                (SExpr::FnExpr(Some(r.0)), r.1, r.2)
            },
            None => (e, st, true),
        },
        SExpr::Call { callee, args } => {
            let renamed = renamed_callee(cfg, *callee);
            if renamed == *callee {
                let r1 = t_expr(cfg, st, *callee);
                if !r1.2 {
                    (SExpr::Call { callee: Box::new(r1.0), args }, r1.1, false)
                } else {
                    let r2 = t_exprs(cfg, r1.1, args);
                    (SExpr::Call { callee: Box::new(r1.0), args: r2.0 }, r2.1, r2.2)
                }
            } else {
                let r2 = t_exprs(cfg, st, args);
                (SExpr::Call { callee: Box::new(renamed), args: r2.0 }, r2.1, r2.2)
            }
        },
        SExpr::Ident(_) => (e, st, true),
        SExpr::Text(_) => (e, st, true),
        SExpr::Other(subs) => {
            let r = t_exprs(cfg, st, subs);
            (SExpr::Other(r.0), r.1, r.2)
        },
    }
}

/// Traversal of an expression list, threading the state; an abort
/// leaves the remaining expressions untouched.
pub open spec fn t_exprs(cfg: SCfg, st: SState, v: Seq<SExpr>) -> (Seq<SExpr>, SState, bool)
    decreases v,
{
    if v.len() == 0 {
        (v, st, true)
    } else {
        let r1 = t_expr(cfg, st, v[0]);
        if !r1.2 {
            (seq![r1.0] + v.drop_first(), r1.1, false)
        } else {
            let r2 = t_exprs(cfg, r1.1, v.drop_first());
            (seq![r1.0] + r2.0, r2.1, r2.2)
        }
    }
}

/// Traversal of an arrow-function body.
pub open spec fn t_fnbody(cfg: SCfg, st: SState, b: SFnBody) -> (SFnBody, SState, bool)
    decreases b,
{
    match b {
        SFnBody::Block(ss) => {
            let r = t_stmts(cfg, st, ss);
            (SFnBody::Block(r.0), r.1, r.2)
        },
        SFnBody::Expr(e) => {
            let r = t_expr(cfg, st, *e);
            (SFnBody::Expr(Box::new(r.0)), r.1, r.2)
        },
    }
}

/// Traversal of one statement: declarations resolve the component in
/// scope before their bodies are visited.
pub open spec fn t_stmt(cfg: SCfg, st: SState, s: SStmt) -> (SStmt, SState, bool)
    decreases s,
{
    match s {
        SStmt::FnDecl { name, body } => {
            let name2 = renamed_fn_name(cfg, name);
            let st1 = fn_decl_state(st, name2);
            let r = t_stmts(cfg, st1, body);
            (SStmt::FnDecl { name: name2, body: r.0 }, r.1, r.2)
        },
        SStmt::VarDecl(ds) => {
            let st1 = var_decl_state(st, ds);
            let r = t_decls(cfg, st1, ds);
            (SStmt::VarDecl(r.0), r.1, r.2)
        },
        SStmt::Return(arg) => match arg {
            Some(e) => {
                let r = t_expr(cfg, st, *e);
                (SStmt::Return(Some(Box::new(r.0))), r.1, r.2)
            },
            None => (s, st, true),
        },
        SStmt::Expr(e) => {
            let r = t_expr(cfg, st, *e);
            (SStmt::Expr(Box::new(r.0)), r.1, r.2)
        },
        SStmt::Other(ss) => {
            let r = t_stmts(cfg, st, ss);
            (SStmt::Other(r.0), r.1, r.2)
        },
    }
}

/// Traversal of a statement list, threading the state.
pub open spec fn t_stmts(cfg: SCfg, st: SState, v: Seq<SStmt>) -> (Seq<SStmt>, SState, bool)
    decreases v,
{
    if v.len() == 0 {
        (v, st, true)
    } else {
        let r1 = t_stmt(cfg, st, v[0]);
        if !r1.2 {
            (seq![r1.0] + v.drop_first(), r1.1, false)
        } else {
            let r2 = t_stmts(cfg, r1.1, v.drop_first());
            (seq![r1.0] + r2.0, r2.1, r2.2)
        }
    }
}

/// Traversal of one declarator: only its initializer is visited.
pub open spec fn t_decl(cfg: SCfg, st: SState, d: SDeclarator) -> (SDeclarator, SState, bool)
    decreases d,
{
    match d.init {
        Some(e) => {
            let r = t_expr(cfg, st, e);
            (SDeclarator { name: d.name, init: Some(r.0) }, r.1, r.2)
        },
        None => (d, st, true),
    }
}

/// Traversal of a declarator list, threading the state.
pub open spec fn t_decls(cfg: SCfg, st: SState, v: Seq<SDeclarator>) -> (
    Seq<SDeclarator>,
    SState,
    bool,
)
    decreases v,
{
    if v.len() == 0 {
        (v, st, true)
    } else {
        let r1 = t_decl(cfg, st, v[0]);
        if !r1.2 {
            (seq![r1.0] + v.drop_first(), r1.1, false)
        } else {
            let r2 = t_decls(cfg, r1.1, v.drop_first());
            (seq![r1.0] + r2.0, r2.1, r2.2)
        }
    }
}

/// Traversal of a whole parsed unit from the initial state.
pub open spec fn t_program(cfg: SCfg, st: SState, p: SProgram) -> (SProgram, SState, bool) {
    let r = t_stmts(cfg, st, p.body);
    (SProgram { body: r.0 }, r.1, r.2)
}

} // verus!
