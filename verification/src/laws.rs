//! The laws of the rewrite, stated over the functional model and
//! proved once and for all: injection is idempotent and fires only at
//! a root element, ignored components are never marked, and — the
//! central law — one full pass is a fixed point of the rule set.
use vstd::prelude::*;

use crate::ast::{SAttr, SAttrValue, SDeclarator, SElement, SExpr, SFnBody, SProgram, SStmt};
use crate::model::{
    apply_attr_rules, apply_attr_rules_all, attr_named, body_renders, close_element_state,
    decls_render, fn_decl_state, has_attr, init_class, inject, inject_allowed, injected_attr,
    norm_bool_attr, open_element_attrs, open_element_ok, open_element_state, paren_or_elem,
    renamed_callee, renamed_fn_name, stmt_renders, t_decl, t_decls, t_elem, t_expr, t_exprs,
    t_fnbody, t_program, t_stmt, t_stmts, var_decl_state, SCfg, SState,
};
use crate::text::list_contains_trimmed;

verus! {

/// Injection is idempotent: an attribute list that already carries
/// the diagnostic attribute — whatever its value — is returned
/// unchanged by the injection rule.
pub proof fn lemma_injection_idempotent(cfg: SCfg, st: SState, attrs: Seq<SAttr>)
    requires
        has_attr(attrs, cfg.attr_name),
    ensures
        inject(cfg, st, attrs) == attrs,
{
}

/// Root-only scoping: inside a child subtree, an opening element gets
/// no injected attribute (only the unconditional per-attribute rules
/// run) and the traversal state does not change.
pub proof fn lemma_root_only_scoping(
    cfg: SCfg,
    st: SState,
    attrs: Seq<SAttr>,
    name: crate::ast::SName,
    self_closing: bool,
)
    requires
        st.in_child,
    ensures
        open_element_attrs(cfg, st, attrs) == apply_attr_rules_all(cfg, attrs),
        open_element_state(st, name, self_closing) == st,
{
}

/// A self-closing root element never opens the child boundary.
pub proof fn lemma_self_closing_keeps_boundary(st: SState, name: crate::ast::SName)
    requires
        !st.in_child,
    ensures
        !open_element_state(st, name, true).in_child,
{
}

/// Ignore-list suppression: a component on the ignore list never has
/// the diagnostic attribute injected.
pub proof fn lemma_ignored_component_not_injected(cfg: SCfg, st: SState, attrs: Seq<SAttr>)
    requires
        list_contains_trimmed(cfg.ignore_components, st.component_name),
    ensures
        inject(cfg, st, attrs) == attrs,
{
}

/// Boolean normalization, exactly: the sentinel-named attribute with
/// string value `"false"` becomes `"true"`; any other name or value
/// is left untouched.
pub proof fn lemma_bool_norm_exact(cfg: SCfg, name: Seq<char>, value: Option<SAttrValue>)
    ensures
        name == cfg.bool_attr && value == Some(SAttrValue::Text("false"@))
            ==> norm_bool_attr(cfg, SAttr::Plain { name, value }) == (SAttr::Plain {
            name,
            value: Some(SAttrValue::Text("true"@)),
        }),
        !(name == cfg.bool_attr && value == Some(SAttrValue::Text("false"@)))
            ==> norm_bool_attr(cfg, SAttr::Plain { name, value }) == (SAttr::Plain {
            name,
            value,
        }),
{
}

/// The configurations under which one pass is a fixed point: the
/// attribute rename rule must not take the diagnostic attribute as
/// its source, and must not produce the boolean sentinel with the
/// value the boolean rule rewrites.
pub open spec fn rules_compatible(cfg: SCfg) -> bool {
    match cfg.attr_rename {
        Some(ar) => ar.from != cfg.attr_name && !(ar.to == cfg.bool_attr && ar.value
            == "false"@),
        None => true,
    }
}

/// The two unconditional per-attribute rules are idempotent under a
/// compatible configuration.
pub proof fn lemma_attr_rules_idempotent(cfg: SCfg, a: SAttr)
    requires
        rules_compatible(cfg),
    ensures
        apply_attr_rules(cfg, apply_attr_rules(cfg, a)) == apply_attr_rules(cfg, a),
{
    reveal_strlit("true");
    reveal_strlit("false");
    assert("true"@.len() == 4);
    assert("false"@.len() == 5);
}

/// ... and so is their extension to a whole attribute list.
pub proof fn lemma_attr_rules_all_idempotent(cfg: SCfg, attrs: Seq<SAttr>)
    requires
        rules_compatible(cfg),
    ensures
        apply_attr_rules_all(cfg, apply_attr_rules_all(cfg, attrs)) == apply_attr_rules_all(
            cfg,
            attrs,
        ),
{
    let once = apply_attr_rules_all(cfg, attrs);
    assert forall|i: int| 0 <= i < once.len() implies #[trigger] apply_attr_rules_all(cfg, once)[i]
        == once[i] by {
        lemma_attr_rules_idempotent(cfg, attrs[i]);
    }
    assert(apply_attr_rules_all(cfg, once) =~= once);
}

/// Under a compatible configuration the unconditional rules never
/// remove the diagnostic attribute from a list that carries it.
pub proof fn lemma_rules_keep_attr_name(cfg: SCfg, attrs: Seq<SAttr>)
    requires
        rules_compatible(cfg),
        has_attr(attrs, cfg.attr_name),
    ensures
        has_attr(apply_attr_rules_all(cfg, attrs), cfg.attr_name),
{
    let i = choose|i: int| 0 <= i < attrs.len() && attr_named(#[trigger] attrs[i], cfg.attr_name);
    assert(attr_named(apply_attr_rules_all(cfg, attrs)[i], cfg.attr_name));
}

/// The whole opening-element attribute rewrite is idempotent for one
/// fixed state.
pub proof fn lemma_open_attrs_idempotent(cfg: SCfg, st: SState, attrs: Seq<SAttr>)
    requires
        rules_compatible(cfg),
    ensures
        open_element_attrs(cfg, st, open_element_attrs(cfg, st, attrs)) == open_element_attrs(
            cfg,
            st,
            attrs,
        ),
{
    if st.in_child {
        lemma_attr_rules_all_idempotent(cfg, attrs);
    } else {
        let injected = inject(cfg, st, attrs);
        let once = apply_attr_rules_all(cfg, injected);
        if inject_allowed(cfg, st, attrs) {
            assert(attr_named(injected[injected.len() - 1], cfg.attr_name));
            assert(has_attr(injected, cfg.attr_name));
        } else {
            if has_attr(attrs, cfg.attr_name) {
                assert(has_attr(injected, cfg.attr_name));
            }
        }
        if has_attr(injected, cfg.attr_name) {
            lemma_rules_keep_attr_name(cfg, injected);
            assert(!inject_allowed(cfg, st, once));
        } else {
            assert(!inject_allowed(cfg, st, once));
        }
        lemma_attr_rules_all_idempotent(cfg, injected);
    }
}

/// The traversal of an expression keeps its outer shape where the
/// component classification looks: being a markup element, and being
/// a bare identifier, are preserved (and identifiers pass through
/// unchanged).
pub proof fn lemma_t_expr_is_elem(cfg: SCfg, st: SState, e: SExpr)
    ensures
        (t_expr(cfg, st, e).0 matches SExpr::Elem(_)) <==> (e matches SExpr::Elem(_)),
        (t_expr(cfg, st, e).0 matches SExpr::Ident(_)) <==> (e matches SExpr::Ident(_)),
        e matches SExpr::Ident(_) ==> t_expr(cfg, st, e) == (e, st, true),
{
    match e {
        SExpr::Elem(_) => {},
        SExpr::Fragment(_) => {},
        SExpr::Paren(_) => {},
        SExpr::Arrow(_) => {},
        SExpr::FnExpr(_) => {},
        SExpr::Call { .. } => {},
        SExpr::Ident(_) => {},
        SExpr::Text(_) => {},
        SExpr::Other(_) => {},
    }
}

/// The traversal preserves "markup element, directly or in
/// parentheses".
pub proof fn lemma_t_paren_or_elem(cfg: SCfg, st: SState, e: SExpr)
    ensures
        paren_or_elem(t_expr(cfg, st, e).0) == paren_or_elem(e),
{
    lemma_t_expr_is_elem(cfg, st, e);
    match e {
        SExpr::Paren(b) => {
            let r = t_expr(cfg, st, *b);
            lemma_t_expr_is_elem(cfg, st, *b);
        },
        _ => {},
    }
}

/// The traversal preserves whether one statement renders markup.
pub proof fn lemma_t_stmt_renders(cfg: SCfg, st: SState, s: SStmt)
    ensures
        stmt_renders(t_stmt(cfg, st, s).0) == stmt_renders(s),
{
    match s {
        SStmt::FnDecl { .. } => {},
        SStmt::VarDecl(_) => {},
        SStmt::Return(arg) => match arg {
            Some(e) => {
                lemma_t_paren_or_elem(cfg, st, *e);
            },
            None => {},
        },
        SStmt::Expr(e) => {
            lemma_t_expr_is_elem(cfg, st, *e);
        },
        SStmt::Other(_) => {},
    }
}

/// `body_renders` over a cons cell.
pub proof fn lemma_body_renders_cons(a: SStmt, s: Seq<SStmt>)
    ensures
        body_renders(seq![a] + s) == (stmt_renders(a) || body_renders(s)),
{
    let c = seq![a] + s;
    if stmt_renders(a) {
        assert(stmt_renders(c[0]));
        assert(body_renders(c));
    }
    if body_renders(s) {
        let i = choose|i: int| 0 <= i < s.len() && stmt_renders(#[trigger] s[i]);
        assert(stmt_renders(c[i + 1]));
        assert(body_renders(c));
    }
    if body_renders(c) {
        let i = choose|i: int| 0 <= i < c.len() && stmt_renders(#[trigger] c[i]);
        if i > 0 {
            assert(c[i] == s[i - 1]);
            assert(body_renders(s));
        }
    }
}

/// The traversal preserves whether some statement of a block renders
/// markup, whatever the state it threads.
pub proof fn lemma_t_body_renders(cfg: SCfg, st: SState, ss: Seq<SStmt>)
    ensures
        body_renders(t_stmts(cfg, st, ss).0) == body_renders(ss),
    decreases ss,
{
    if ss.len() > 0 {
        let r1 = t_stmt(cfg, st, ss[0]);
        lemma_t_stmt_renders(cfg, st, ss[0]);
        assert(seq![ss[0]] + ss.drop_first() =~= ss);
        lemma_body_renders_cons(ss[0], ss.drop_first());
        if !r1.2 {
            lemma_body_renders_cons(r1.0, ss.drop_first());
        } else {
            let r2 = t_stmts(cfg, r1.1, ss.drop_first());
            lemma_t_body_renders(cfg, r1.1, ss.drop_first());
            lemma_body_renders_cons(r1.0, r2.0);
        }
    }
}

/// The traversal preserves the classification of one initializer.
pub proof fn lemma_t_init_class(cfg: SCfg, st: SState, e: SExpr, acc: bool)
    ensures
        init_class(t_expr(cfg, st, e).0, acc) == init_class(e, acc),
{
    match e {
        SExpr::Arrow(body) => match body {
            SFnBody::Block(ss) => {
                assert(t_fnbody(cfg, st, body).0 == SFnBody::Block(t_stmts(cfg, st, ss).0));
                assert(t_expr(cfg, st, e).0 == SExpr::Arrow(
                    SFnBody::Block(t_stmts(cfg, st, ss).0),
                ));
                lemma_t_body_renders(cfg, st, ss);
            },
            SFnBody::Expr(b) => {
                assert(t_fnbody(cfg, st, body).0 == SFnBody::Expr(
                    Box::new(t_expr(cfg, st, *b).0),
                ));
                assert(t_expr(cfg, st, e).0 == SExpr::Arrow(
                    SFnBody::Expr(Box::new(t_expr(cfg, st, *b).0)),
                ));
                lemma_t_paren_or_elem(cfg, st, *b);
            },
        },
        SExpr::FnExpr(body) => match body {
            Some(ss) => {
                assert(t_expr(cfg, st, e).0 == SExpr::FnExpr(Some(t_stmts(cfg, st, ss).0)));
                lemma_t_body_renders(cfg, st, ss);
            },
            None => {},
        },
        SExpr::Elem(_) => {},
        SExpr::Fragment(_) => {},
        SExpr::Paren(_) => {},
        SExpr::Call { .. } => {},
        SExpr::Ident(_) => {},
        SExpr::Text(_) => {},
        SExpr::Other(_) => {},
    }
}

/// The traversal of a declarator list preserves its length, the bound
/// names, and whether the list binds a component.
pub proof fn lemma_t_decls_render(cfg: SCfg, st: SState, ds: Seq<SDeclarator>, acc: bool)
    ensures
        t_decls(cfg, st, ds).0.len() == ds.len(),
        forall|i: int| 0 <= i < ds.len() ==> #[trigger] t_decls(cfg, st, ds).0[i].name
            == ds[i].name,
        decls_render(t_decls(cfg, st, ds).0, acc) == decls_render(ds, acc),
    decreases ds,
{
    if ds.len() > 0 {
        let r1 = t_decl(cfg, st, ds[0]);
        let acc1 = match ds[0].init {
            Some(e) => init_class(e, acc),
            None => acc,
        };
        match ds[0].init {
            Some(e) => {
                lemma_t_init_class(cfg, st, e, acc);
            },
            None => {},
        }
        if !r1.2 {
            let out = seq![r1.0] + ds.drop_first();
            assert(out.drop_first() =~= ds.drop_first());
            assert(decls_render(out, acc) == decls_render(ds.drop_first(), acc1));
            assert(decls_render(ds, acc) == decls_render(ds.drop_first(), acc1));
        } else {
            let r2 = t_decls(cfg, r1.1, ds.drop_first());
            lemma_t_decls_render(cfg, r1.1, ds.drop_first(), acc1);
            let out = seq![r1.0] + r2.0;
            assert(out.drop_first() =~= r2.0);
            assert(decls_render(out, acc) == decls_render(r2.0, acc1));
            assert(decls_render(ds, acc) == decls_render(ds.drop_first(), acc1));
        }
    }
}

/// Fixed point of the expression traversal: a second pass over a
/// successfully transformed expression, from the same starting state,
/// changes nothing.
pub proof fn lemma_fp_expr(cfg: SCfg, st: SState, e: SExpr)
    requires
        rules_compatible(cfg),
    ensures
        ({
            let r = t_expr(cfg, st, e);
            r.2 ==> t_expr(cfg, st, r.0) == r
        }),
    decreases e,
{
    let r = t_expr(cfg, st, e);
    if r.2 {
        match e {
            SExpr::Elem(el) => {
                lemma_open_attrs_idempotent(cfg, st, el.attrs);
                let attrs1 = open_element_attrs(cfg, st, el.attrs);
                let st1 = open_element_state(st, el.name, el.self_closing);
                let rc = t_exprs(cfg, st1, el.children);
                lemma_fp_exprs(cfg, st1, el.children);
                let el2 = SElement {
                    name: el.name,
                    attrs: attrs1,
                    self_closing: el.self_closing,
                    children: rc.0,
                };
                let telem = t_elem(cfg, st, el);
                assert(r == (SExpr::Elem(telem.0), telem.1, telem.2));
                assert(telem.2);
                assert(open_element_ok(st, el.name));
                assert(rc.2);
                assert(telem.0 == el2);
                assert(r.0 == SExpr::Elem(el2));
                assert(open_element_attrs(cfg, st, el2.attrs) == attrs1);
                assert(open_element_state(st, el2.name, el2.self_closing) == st1);
                assert(open_element_ok(st, el2.name));
                assert(t_exprs(cfg, st1, el2.children) == (rc.0, rc.1, true));
                assert(t_elem(cfg, st, el2) == (el2, r.1, true));
            },
            SExpr::Fragment(cs) => {
                lemma_fp_exprs(cfg, st, cs);
            },
            SExpr::Paren(b) => {
                lemma_fp_expr(cfg, st, *b);
            },
            SExpr::Arrow(body) => {
                lemma_fp_fnbody(cfg, st, body);
            },
            SExpr::FnExpr(body) => match body {
                Some(ss) => {
                    lemma_fp_stmts(cfg, st, ss);
                },
                None => {},
            },
            SExpr::Call { callee, args } => {
                let renamed = renamed_callee(cfg, *callee);
                if renamed == *callee {
                    let r1 = t_expr(cfg, st, *callee);
                    let r2 = t_exprs(cfg, r1.1, args);
                    lemma_fp_expr(cfg, st, *callee);
                    lemma_t_expr_is_elem(cfg, st, *callee);
                    assert(renamed_callee(cfg, r1.0) == r1.0);
                    lemma_fp_exprs(cfg, r1.1, args);
                    assert(r.0 == (SExpr::Call { callee: Box::new(r1.0), args: r2.0 }));
                    assert(r1.2 && r2.2);
                    assert(t_expr(cfg, st, r1.0) == (r1.0, r1.1, true));
                    assert(t_exprs(cfg, r1.1, r2.0) == (r2.0, r2.1, true));
                    assert(t_expr(cfg, st, r.0) == r);
                } else {
                    let r2 = t_exprs(cfg, st, args);
                    assert(renamed_callee(cfg, renamed) == renamed);
                    lemma_t_expr_is_elem(cfg, st, renamed);
                    lemma_fp_exprs(cfg, st, args);
                    assert(r.0 == (SExpr::Call { callee: Box::new(renamed), args: r2.0 }));
                    assert(t_expr(cfg, st, renamed) == (renamed, st, true));
                    assert(t_exprs(cfg, st, r2.0) == (r2.0, r2.1, true));
                    assert(t_expr(cfg, st, r.0) == r);
                }
            },
            SExpr::Ident(_) => {},
            SExpr::Text(_) => {},
            SExpr::Other(subs) => {
                lemma_fp_exprs(cfg, st, subs);
            },
        }
    }
}

/// Fixed point of the expression-list traversal.
pub proof fn lemma_fp_exprs(cfg: SCfg, st: SState, v: Seq<SExpr>)
    requires
        rules_compatible(cfg),
    ensures
        ({
            let r = t_exprs(cfg, st, v);
            r.2 ==> t_exprs(cfg, st, r.0) == r
        }),
    decreases v,
{
    let r = t_exprs(cfg, st, v);
    if r.2 && v.len() > 0 {
        let r1 = t_expr(cfg, st, v[0]);
        let r2 = t_exprs(cfg, r1.1, v.drop_first());
        lemma_fp_expr(cfg, st, v[0]);
        lemma_fp_exprs(cfg, r1.1, v.drop_first());
        let out = seq![r1.0] + r2.0;
        assert(out[0] == r1.0);
        assert(out.drop_first() =~= r2.0);
        assert(seq![r1.0] + out.drop_first() =~= out);
    }
}

/// Fixed point of the arrow-body traversal.
pub proof fn lemma_fp_fnbody(cfg: SCfg, st: SState, b: SFnBody)
    requires
        rules_compatible(cfg),
    ensures
        ({
            let r = t_fnbody(cfg, st, b);
            r.2 ==> t_fnbody(cfg, st, r.0) == r
        }),
    decreases b,
{
    match b {
        SFnBody::Block(ss) => {
            lemma_fp_stmts(cfg, st, ss);
        },
        SFnBody::Expr(e) => {
            lemma_fp_expr(cfg, st, *e);
        },
    }
}

/// Fixed point of the statement traversal.
pub proof fn lemma_fp_stmt(cfg: SCfg, st: SState, s: SStmt)
    requires
        rules_compatible(cfg),
    ensures
        ({
            let r = t_stmt(cfg, st, s);
            r.2 ==> t_stmt(cfg, st, r.0) == r
        }),
    decreases s,
{
    let r = t_stmt(cfg, st, s);
    if r.2 {
        match s {
            SStmt::FnDecl { name, body } => {
                let name2 = renamed_fn_name(cfg, name);
                assert(renamed_fn_name(cfg, name2) == name2);
                let st1 = fn_decl_state(st, name2);
                lemma_fp_stmts(cfg, st1, body);
            },
            SStmt::VarDecl(ds) => {
                let st1 = var_decl_state(st, ds);
                lemma_t_decls_render(cfg, st1, ds, false);
                let rd = t_decls(cfg, st1, ds);
                assert(var_decl_state(st, rd.0) == st1);
                lemma_fp_decls(cfg, st1, ds);
            },
            SStmt::Return(arg) => match arg {
                Some(e) => {
                    lemma_fp_expr(cfg, st, *e);
                },
                None => {},
            },
            SStmt::Expr(e) => {
                lemma_fp_expr(cfg, st, *e);
            },
            SStmt::Other(ss) => {
                lemma_fp_stmts(cfg, st, ss);
            },
        }
    }
}

/// Fixed point of the statement-list traversal.
pub proof fn lemma_fp_stmts(cfg: SCfg, st: SState, v: Seq<SStmt>)
    requires
        rules_compatible(cfg),
    ensures
        ({
            let r = t_stmts(cfg, st, v);
            r.2 ==> t_stmts(cfg, st, r.0) == r
        }),
    decreases v,
{
    let r = t_stmts(cfg, st, v);
    if r.2 && v.len() > 0 {
        let r1 = t_stmt(cfg, st, v[0]);
        let r2 = t_stmts(cfg, r1.1, v.drop_first());
        lemma_fp_stmt(cfg, st, v[0]);
        lemma_fp_stmts(cfg, r1.1, v.drop_first());
        let out = seq![r1.0] + r2.0;
        assert(out[0] == r1.0);
        assert(out.drop_first() =~= r2.0);
        assert(seq![r1.0] + out.drop_first() =~= out);
    }
}

/// Fixed point of the declarator traversal.
pub proof fn lemma_fp_decl(cfg: SCfg, st: SState, d: SDeclarator)
    requires
        rules_compatible(cfg),
    ensures
        ({
            let r = t_decl(cfg, st, d);
            r.2 ==> t_decl(cfg, st, r.0) == r
        }),
    decreases d,
{
    match d.init {
        Some(e) => {
            lemma_fp_expr(cfg, st, e);
        },
        None => {},
    }
}

/// Fixed point of the declarator-list traversal.
pub proof fn lemma_fp_decls(cfg: SCfg, st: SState, v: Seq<SDeclarator>)
    requires
        rules_compatible(cfg),
    ensures
        ({
            let r = t_decls(cfg, st, v);
            r.2 ==> t_decls(cfg, st, r.0) == r
        }),
    decreases v,
{
    let r = t_decls(cfg, st, v);
    if r.2 && v.len() > 0 {
        let r1 = t_decl(cfg, st, v[0]);
        let r2 = t_decls(cfg, r1.1, v.drop_first());
        lemma_fp_decl(cfg, st, v[0]);
        lemma_fp_decls(cfg, r1.1, v.drop_first());
        let out = seq![r1.0] + r2.0;
        assert(out[0] == r1.0);
        assert(out.drop_first() =~= r2.0);
        assert(seq![r1.0] + out.drop_first() =~= out);
    }
}

/// Round-trip composition: a successful pass of the full rule set is
/// a fixed point — applying it a second time, from the same starting
/// state and under a compatible configuration, changes neither the
/// tree nor the final state.
pub proof fn lemma_transform_fixed_point(cfg: SCfg, st: SState, p: SProgram)
    requires
        rules_compatible(cfg),
        t_program(cfg, st, p).2,
    ensures
        t_program(cfg, st, t_program(cfg, st, p).0) == t_program(cfg, st, p),
{
    lemma_fp_stmts(cfg, st, p.body);
}

} // verus!
