//! The executable rewriter: configuration, traversal state, and the
//! document-order visit over the program tree, each step verified
//! against the functional model.
use vstd::prelude::*;

use crate::ast::{
    lemma_sz_decl_pos, lemma_sz_expr_pos, lemma_sz_stmt_pos, lemma_view_attrs_len,
    lemma_view_decls_len, lemma_view_decls_split, lemma_view_exprs_len, lemma_view_exprs_split,
    lemma_view_stmts_len, lemma_view_stmts_split, sz_decl, sz_decls, sz_expr, sz_exprs, sz_fnbody,
    sz_stmt, sz_stmts, view_attr, view_attrs, view_decl, view_decls, view_expr, view_exprs,
    view_elem, view_stmt, view_stmts, Attr, AttrValue, Declarator, Element, ElemName, Expr, FnBody,
    Program, SAttrValue, SExpr, Stmt,
};
use crate::casing::test_id_for;
use crate::model::{
    apply_attr_rules, apply_attr_rules_all, attr_named, close_element_state, decls_render,
    fn_decl_state, has_attr, init_class, initial_state, inject, inject_allowed, injected_attr,
    open_element_attrs, open_element_ok, open_element_state, paren_or_elem, renamed_callee,
    renamed_fn_name, stmt_renders, t_decl, t_decls, t_elem, t_expr, t_exprs, t_fnbody, t_program,
    t_stmt, t_stmts, var_decl_state, body_renders, SAttrRename, SCfg, SIdentRename, SState,
};
use crate::text::{should_skip, should_skip_s, vec_contains_string_ref};

verus! {

/// The configuration of one invocation: the name of the diagnostic
/// attribute, the component identifiers exempt from injection, and
/// the path fragments that exempt whole files.
#[derive(Debug)]
pub struct Config {
    pub attr_name: String,
    pub ignore_components: Vec<String>,
    pub ignore_files: Vec<String>,
}

impl Default for Config {
    fn default() -> (c: Config)
        ensures
            c.attr_name@ == Seq::<char>::empty(),
            c.ignore_components@.len() == 0,
            c.ignore_files@.len() == 0,
    {
        Config { attr_name: String::new(), ignore_components: Vec::new(), ignore_files: Vec::new() }
    }
}

/// An attribute rename rule: attributes named `from` are renamed to
/// `to` and revalued with the fixed literal `value`.
#[derive(Debug)]
pub struct AttrRename {
    pub from: String,
    pub to: String,
    pub value: String,
}

/// An identifier rename rule.
#[derive(Debug)]
pub struct IdentRename {
    pub from: String,
    pub to: String,
}

/// The rewriter aborts when a root markup element's tag name is not a
/// simple identifier.
#[derive(Debug, PartialEq, Eq)]
pub enum TransformError {
    UnsupportedElementName,
}

/// The rewriter: the fixed configuration and rule sentinels, and the
/// mutable traversal state.
pub struct TransformVisitor {
    attr_name: String,
    ignore_components: Vec<String>,
    filename: String,
    bool_attr: String,
    attr_rename: Option<AttrRename>,
    call_rename: Option<IdentRename>,
    fn_rename: Option<IdentRename>,
    is_in_child: bool,
    parent_id: String,
    component_name: String,
}

impl TransformVisitor {
    /// The fixed part of the rewriter as the model sees it.
    pub closed spec fn cfg(&self) -> SCfg {
        SCfg {
            attr_name: self.attr_name@,
            ignore_components: self.ignore_components.deep_view(),
            filename: self.filename@,
            bool_attr: self.bool_attr@,
            attr_rename: match self.attr_rename {
                Some(r) => Some(SAttrRename { from: r.from@, to: r.to@, value: r.value@ }),
                None => None,
            },
            call_rename: match self.call_rename {
                Some(r) => Some(SIdentRename { from: r.from@, to: r.to@ }),
                None => None,
            },
            fn_rename: match self.fn_rename {
                Some(r) => Some(SIdentRename { from: r.from@, to: r.to@ }),
                None => None,
            },
        }
    }

    /// The mutable part of the rewriter as the model sees it.
    pub closed spec fn st(&self) -> SState {
        SState {
            in_child: self.is_in_child,
            parent_id: self.parent_id@,
            component_name: self.component_name@,
        }
    }

    /// A rewriter with an empty configuration: no attribute name, no
    /// ignore lists, no rename rules, and the fixed boolean sentinel.
    pub fn new() -> (v: TransformVisitor)
        ensures
            v.cfg() == (SCfg {
                attr_name: Seq::<char>::empty(),
                ignore_components: Seq::<Seq<char>>::empty(),
                filename: Seq::<char>::empty(),
                bool_attr: "lazy-load"@,
                attr_rename: None,
                call_rename: None,
                fn_rename: None,
            }),
            v.st() == initial_state(),
    {
        let v = TransformVisitor {
            attr_name: String::new(),
            ignore_components: Vec::new(),
            filename: String::new(),
            bool_attr: "lazy-load".to_owned(),
            attr_rename: None,
            call_rename: None,
            fn_rename: None,
            is_in_child: false,
            parent_id: String::new(),
            component_name: String::new(),
        };
        proof {
            assert(v.cfg().ignore_components =~= Seq::<Seq<char>>::empty());
        }
        v
    }

    /// Takes the attribute name and both ignore lists from `config`,
    /// and remembers the current file's path.
    pub fn set_config(&mut self, config: &Config, filename: String)
        ensures
            final(self).cfg() == (SCfg {
                attr_name: config.attr_name@,
                ignore_components: config.ignore_components.deep_view(),
                filename: filename@,
                ..old(self).cfg()
            }),
            final(self).st() == old(self).st(),
    {
        self.attr_name = config.attr_name.clone();
        let ic = config.ignore_components.clone();
        proof {
            assert forall|i: int| 0 <= i < ic@.len() implies ic@[i]@
                == config.ignore_components@[i]@ by {
            }
            assert(ic.deep_view() =~= config.ignore_components.deep_view());
        }
        self.ignore_components = ic;
        self.filename = filename;
    }

    /// Enables the attribute rename rule.
    pub fn set_attr_rename(&mut self, from: String, to: String, value: String)
        ensures
            final(self).cfg() == (SCfg {
                attr_rename: Some(SAttrRename { from: from@, to: to@, value: value@ }),
                ..old(self).cfg()
            }),
            final(self).st() == old(self).st(),
    {
        self.attr_rename = Some(AttrRename { from, to, value });
    }

    /// Enables the call-target rename rule.
    pub fn set_call_rename(&mut self, from: String, to: String)
        ensures
            final(self).cfg() == (SCfg {
                call_rename: Some(SIdentRename { from: from@, to: to@ }),
                ..old(self).cfg()
            }),
            final(self).st() == old(self).st(),
    {
        self.call_rename = Some(IdentRename { from, to });
    }

    /// Enables the function-declaration rename rule.
    pub fn set_fn_decl_rename(&mut self, from: String, to: String)
        ensures
            final(self).cfg() == (SCfg {
                fn_rename: Some(SIdentRename { from: from@, to: to@ }),
                ..old(self).cfg()
            }),
            final(self).st() == old(self).st(),
    {
        self.fn_rename = Some(IdentRename { from, to });
    }

    /// Whether the attribute list already carries the diagnostic
    /// attribute.
    fn has_attr_exec(&self, attrs: &Vec<Attr>) -> (r: bool)
        ensures
            r == has_attr(view_attrs(attrs@), self.attr_name@),
    {
        proof {
            lemma_view_attrs_len(attrs@);
        }
        let mut found = false;
        let mut i: usize = 0;
        while i < attrs.len()
            invariant
                0 <= i <= attrs@.len(),
                view_attrs(attrs@).len() == attrs@.len(),
                forall|j: int| 0 <= j < attrs@.len() ==> view_attrs(attrs@)[j] == view_attr(
                    attrs@[j],
                ),
                found == exists|j: int|
                    0 <= j < i && attr_named(#[trigger] view_attrs(attrs@)[j], self.attr_name@),
            decreases attrs@.len() - i,
        {
            let hit = match &attrs[i] {
                Attr::Plain { name, value: _ } => *name == self.attr_name,
                Attr::Exotic => false,
            };
            proof {
                assert(attr_named(view_attrs(attrs@)[i as int], self.attr_name@) == hit);
            }
            if hit {
                found = true;
            }
            i = i + 1;
        }
        found
    }

    /// The two unconditional per-attribute rules on one attribute.
    fn apply_rules_one(&self, a: Attr) -> (r: Attr)
        ensures
            view_attr(r) == apply_attr_rules(self.cfg(), view_attr(a)),
    {
        let false_lit: String = "false".to_owned();
        let a1 = match a {
            Attr::Plain { name, value } => {
                let hit = name == self.bool_attr && (match &value {
                    Some(AttrValue::Text(s)) => *s == false_lit,
                    _ => false,
                });
                if hit {
                    Attr::Plain { name, value: Some(AttrValue::Text("true".to_owned())) }
                } else {
                    Attr::Plain { name, value }
                }
            },
            Attr::Exotic => Attr::Exotic,
        };
        match &self.attr_rename {
            Some(ar) => match a1 {
                Attr::Plain { name, value } => {
                    if name == ar.from {
                        Attr::Plain {
                            name: ar.to.clone(),
                            value: Some(AttrValue::Text(ar.value.clone())),
                        }
                    } else {
                        Attr::Plain { name, value }
                    }
                },
                Attr::Exotic => Attr::Exotic,
            },
            None => a1,
        }
    }

    /// The unconditional per-attribute rules on a whole list.
    fn apply_rules_vec(&self, attrs: Vec<Attr>) -> (r: Vec<Attr>)
        ensures
            view_attrs(r@) == apply_attr_rules_all(self.cfg(), view_attrs(attrs@)),
    {
        let ghost orig = attrs@;
        let mut rest = attrs;
        let mut out: Vec<Attr> = Vec::new();
        while rest.len() > 0
            invariant
                out@.len() + rest@.len() == orig.len(),
                rest@ == orig.subrange(out@.len() as int, orig.len() as int),
                forall|j: int| 0 <= j < out@.len() ==> view_attr(#[trigger] out@[j])
                    == apply_attr_rules(self.cfg(), view_attr(orig[j])),
            decreases rest@.len(),
        {
            let ghost done = out@.len() as int;
            let a = rest.remove(0);
            proof {
                assert(a == orig[done]);
                assert(rest@ =~= orig.subrange(done + 1, orig.len() as int));
            }
            let b = self.apply_rules_one(a);
            out.push(b);
        }
        proof {
            lemma_view_attrs_len(out@);
            lemma_view_attrs_len(orig);
            assert(view_attrs(out@) =~= apply_attr_rules_all(self.cfg(), view_attrs(orig)));
        }
        out
    }

    /// All attribute rules of one opening element: injection at a
    /// root, then the unconditional rules over the whole list.
    fn open_attrs(&self, attrs: Vec<Attr>) -> (r: Vec<Attr>)
        ensures
            view_attrs(r@) == open_element_attrs(self.cfg(), self.st(), view_attrs(attrs@)),
    {
        let ghost orig = attrs@;
        let mut list = attrs;
        if !self.is_in_child {
            let present = self.has_attr_exec(&list);
            if !present && !self.component_name.as_str().is_empty() && !vec_contains_string_ref(
                &self.ignore_components,
                &self.component_name,
            ) {
                let val = test_id_for(&self.component_name);
                list.push(
                    Attr::Plain {
                        name: self.attr_name.clone(),
                        value: Some(AttrValue::Text(val)),
                    },
                );
                proof {
                    lemma_view_attrs_len(orig);
                    lemma_view_attrs_len(list@);
                    assert(view_attrs(list@) =~= view_attrs(orig).push(
                        injected_attr(self.cfg(), self.st()),
                    ));
                }
            } else {
                proof {
                    assert(!inject_allowed(self.cfg(), self.st(), view_attrs(orig)));
                }
            }
            proof {
                assert(view_attrs(list@) == inject(self.cfg(), self.st(), view_attrs(orig)));
            }
        }
        self.apply_rules_vec(list)
    }

    /// The opening-element step of the state machine, as one event:
    /// rewrites the attribute list and updates the traversal state.
    /// The flag reports whether the element is acceptable here (a
    /// root element must carry a simple-identifier tag name). Public
    /// so a host-driven traversal can replay the rewrite event by
    /// event.
    pub fn open_jsx_element(&mut self, name: &ElemName, attrs: Vec<Attr>, self_closing: bool) -> (r:
        (Vec<Attr>, bool))
        ensures
            final(self).cfg() == old(self).cfg(),
            view_attrs(r.0@) == open_element_attrs(
                old(self).cfg(),
                old(self).st(),
                view_attrs(attrs@),
            ),
            final(self).st() == open_element_state(old(self).st(), name@, self_closing),
            r.1 == open_element_ok(old(self).st(), name@),
    {
        let new_attrs = self.open_attrs(attrs);
        let ok = if !self.is_in_child {
            if !self_closing {
                self.is_in_child = true;
            }
            match name {
                ElemName::Ident(n) => {
                    self.parent_id = n.clone();
                    true
                },
                ElemName::Exotic => false,
            }
        } else {
            true
        };
        (new_attrs, ok)
    }

    /// The closing-element step: a tag name equal to the remembered
    /// boundary name closes the child subtree.
    pub fn close_jsx_element(&mut self, name: &ElemName)
        ensures
            final(self).cfg() == old(self).cfg(),
            final(self).st() == close_element_state(old(self).st(), name@),
    {
        let matches_parent = match name {
            ElemName::Ident(n) => *n == self.parent_id,
            ElemName::Exotic => false,
        };
        if matches_parent {
            self.is_in_child = false;
        }
    }

    /// Resolves a function declaration: applies the declaration
    /// rename and, outside any child subtree, makes the (renamed)
    /// name the component in scope. Returns the name to declare.
    pub fn resolve_fn_decl(&mut self, name: String) -> (r: String)
        ensures
            final(self).cfg() == old(self).cfg(),
            r@ == renamed_fn_name(old(self).cfg(), name@),
            final(self).st() == fn_decl_state(old(self).st(), r@),
    {
        let name2 = match &self.fn_rename {
            Some(rn) => {
                if name == rn.from {
                    rn.to.clone()
                } else {
                    name
                }
            },
            None => name,
        };
        if !self.is_in_child {
            self.component_name = name2.clone();
        }
        name2
    }

    /// Resolves a variable declaration: when it binds a component
    /// and the traversal is outside any child subtree, the first
    /// declarator's simple-identifier name becomes the component in
    /// scope.
    pub fn resolve_var_decl(&mut self, ds: &Vec<Declarator>)
        ensures
            final(self).cfg() == old(self).cfg(),
            final(self).st() == var_decl_state(old(self).st(), view_decls(ds@)),
    {
        proof {
            lemma_view_decls_len(ds@);
        }
        let renders = decls_render_exec(ds);
        if !self.is_in_child && renders && ds.len() > 0 {
            match &ds[0].name {
                Some(n) => {
                    self.component_name = n.clone();
                },
                None => {},
            }
        }
    }

    /// The call-target rename applied to one bare callee identifier.
    pub fn rename_call_ident(&self, name: String) -> (r: String)
        ensures
            SExpr::Ident(r@) == renamed_callee(self.cfg(), SExpr::Ident(name@)),
    {
        match &self.call_rename {
            Some(rn) => {
                if name == rn.from {
                    rn.to.clone()
                } else {
                    name
                }
            },
            None => name,
        }
    }

    /// One expression in document order.
    fn visit_expr(&mut self, e: Expr) -> (r: (Expr, bool))
        ensures
            final(self).cfg() == old(self).cfg(),
            ({
                let t = t_expr(old(self).cfg(), old(self).st(), e@);
                r.0@ == t.0 && final(self).st() == t.1 && r.1 == t.2
            }),
        decreases sz_expr(e@), 0nat,
    {
        match e {
            Expr::Elem(el) => {
                proof {
                    assert(e@ == SExpr::Elem(view_elem(*el)));
                    assert(sz_expr(e@) == 1 + sz_exprs(view_exprs(el.children@)));
                }
                let (el2, ok) = self.visit_element(*el);
                (Expr::Elem(Box::new(el2)), ok)
            },
            Expr::Fragment(cs) => {
                let (cs2, ok) = self.visit_exprs(cs);
                (Expr::Fragment(cs2), ok)
            },
            Expr::Paren(b) => {
                let (e2, ok) = self.visit_expr(*b);
                (Expr::Paren(Box::new(e2)), ok)
            },
            Expr::Arrow(body) => {
                let (b2, ok) = self.visit_fnbody(body);
                (Expr::Arrow(b2), ok)
            },
            Expr::FnExpr(body) => match body {
                Some(ss) => {
                    let (ss2, ok) = self.visit_stmts(ss);
                    (Expr::FnExpr(Some(ss2)), ok)
                },
                None => (Expr::FnExpr(None), true),
            },
            Expr::Call { callee, args } => {
                let c = *callee;
                let new_name: Option<String> = match (&self.call_rename, &c) {
                    (Some(r), Expr::Ident(n)) => {
                        if *n == r.from && r.from != r.to {
                            Some(r.to.clone())
                        } else {
                            None
                        }
                    },
                    _ => None,
                };
                match new_name {
                    Some(t) => {
                        proof {
                            assert(e@ == (SExpr::Call {
                                callee: Box::new(c@),
                                args: view_exprs(args@),
                            }));
                            assert(renamed_callee(old(self).cfg(), c@) == SExpr::Ident(t@));
                            assert(renamed_callee(old(self).cfg(), c@) != c@);
                        }
                        let (args2, ok) = self.visit_exprs(args);
                        let ghost tv = t@;
                        let ident = Expr::Ident(t);
                        proof {
                            assert(ident@ == SExpr::Ident(tv));
                        }
                        let bc: Box<Expr> = Box::new(ident);
                        proof {
                            assert((*bc)@ == SExpr::Ident(tv));
                        }
                        (Expr::Call { callee: bc, args: args2 }, ok)
                    },
                    None => {
                        proof {
                            assert(e@ == (SExpr::Call {
                                callee: Box::new(c@),
                                args: view_exprs(args@),
                            }));
                            assert(renamed_callee(old(self).cfg(), c@) == c@);
                        }
                        let (c2, ok1) = self.visit_expr(c);
                        if !ok1 {
                            (Expr::Call { callee: Box::new(c2), args }, false)
                        } else {
                            let (args2, ok2) = self.visit_exprs(args);
                            (Expr::Call { callee: Box::new(c2), args: args2 }, ok2)
                        }
                    },
                }
            },
            Expr::Ident(s) => (Expr::Ident(s), true),
            Expr::Text(s) => (Expr::Text(s), true),
            Expr::Other(subs) => {
                let (s2, ok) = self.visit_exprs(subs);
                (Expr::Other(s2), ok)
            },
        }
    }

    /// One markup element: opening rules and state change, children,
    /// closing element.
    fn visit_element(&mut self, el: Element) -> (r: (Element, bool))
        ensures
            final(self).cfg() == old(self).cfg(),
            ({
                let t = t_elem(old(self).cfg(), old(self).st(), el@);
                r.0@ == t.0 && final(self).st() == t.1 && r.1 == t.2
            }),
        decreases sz_exprs(view_exprs(el.children@)), 2nat,
    {
        let Element { name, attrs, self_closing, children } = el;
        let (attrs1, ok) = self.open_jsx_element(&name, attrs, self_closing);
        if !ok {
            return (Element { name, attrs: attrs1, self_closing, children }, false);
        }
        let (children2, ok2) = self.visit_exprs(children);
        let el2 = Element { name, attrs: attrs1, self_closing, children: children2 };
        if !ok2 {
            return (el2, false);
        }
        if !self_closing {
            self.close_jsx_element(&el2.name);
        }
        (el2, true)
    }

    /// An expression list, threading the state.
    fn visit_exprs(&mut self, v: Vec<Expr>) -> (r: (Vec<Expr>, bool))
        ensures
            final(self).cfg() == old(self).cfg(),
            ({
                let t = t_exprs(old(self).cfg(), old(self).st(), view_exprs(v@));
                view_exprs(r.0@) == t.0 && final(self).st() == t.1 && r.1 == t.2
            }),
        decreases sz_exprs(view_exprs(v@)), 1nat,
    {
        if v.len() == 0 {
            return (v, true);
        }
        let ghost v0 = v@;
        let mut rest = v;
        let first = rest.remove(0);
        proof {
            lemma_view_exprs_split(v0);
            lemma_sz_expr_pos(view_expr(first));
            assert(rest@ =~= v0.drop_first());
        }
        let (e2, ok1) = self.visit_expr(first);
        if !ok1 {
            let mut out = rest;
            out.insert(0, e2);
            proof {
                lemma_view_exprs_len(out@);
                lemma_view_exprs_len(rest@);
                assert(view_exprs(out@) =~= seq![e2@] + view_exprs(rest@));
            }
            return (out, false);
        }
        let (rest2, ok2) = self.visit_exprs(rest);
        let mut out = rest2;
        out.insert(0, e2);
        proof {
            lemma_view_exprs_len(out@);
            lemma_view_exprs_len(out@.drop_first());
            assert(out@.drop_first() =~= out@.subrange(1, out@.len() as int));
            assert(view_exprs(out@) =~= seq![e2@] + view_exprs(out@.subrange(
                1,
                out@.len() as int,
            )));
            assert(out@.subrange(1, out@.len() as int) =~= rest2@);
        }
        (out, ok2)
    }

    /// An arrow-function body.
    fn visit_fnbody(&mut self, b: FnBody) -> (r: (FnBody, bool))
        ensures
            final(self).cfg() == old(self).cfg(),
            ({
                let t = t_fnbody(old(self).cfg(), old(self).st(), b@);
                r.0@ == t.0 && final(self).st() == t.1 && r.1 == t.2
            }),
        decreases sz_fnbody(b@), 0nat,
    {
        match b {
            FnBody::Block(ss) => {
                let (ss2, ok) = self.visit_stmts(ss);
                (FnBody::Block(ss2), ok)
            },
            FnBody::Expr(e) => {
                let (e2, ok) = self.visit_expr(*e);
                (FnBody::Expr(Box::new(e2)), ok)
            },
        }
    }

    /// One statement: declarations resolve the component in scope
    /// before their bodies are visited.
    fn visit_stmt(&mut self, s: Stmt) -> (r: (Stmt, bool))
        ensures
            final(self).cfg() == old(self).cfg(),
            ({
                let t = t_stmt(old(self).cfg(), old(self).st(), s@);
                r.0@ == t.0 && final(self).st() == t.1 && r.1 == t.2
            }),
        decreases sz_stmt(s@), 0nat,
    {
        match s {
            Stmt::FnDecl { name, body } => {
                let name2 = self.resolve_fn_decl(name);
                let (body2, ok) = self.visit_stmts(body);
                (Stmt::FnDecl { name: name2, body: body2 }, ok)
            },
            Stmt::VarDecl(ds) => {
                self.resolve_var_decl(&ds);
                let (ds2, ok) = self.visit_decls(ds);
                (Stmt::VarDecl(ds2), ok)
            },
            Stmt::Return(arg) => match arg {
                Some(e) => {
                    let (e2, ok) = self.visit_expr(*e);
                    (Stmt::Return(Some(Box::new(e2))), ok)
                },
                None => (Stmt::Return(None), true),
            },
            Stmt::Expr(e) => {
                let (e2, ok) = self.visit_expr(*e);
                (Stmt::Expr(Box::new(e2)), ok)
            },
            Stmt::Other(ss) => {
                let (ss2, ok) = self.visit_stmts(ss);
                (Stmt::Other(ss2), ok)
            },
        }
    }

    /// A statement list, threading the state.
    fn visit_stmts(&mut self, v: Vec<Stmt>) -> (r: (Vec<Stmt>, bool))
        ensures
            final(self).cfg() == old(self).cfg(),
            ({
                let t = t_stmts(old(self).cfg(), old(self).st(), view_stmts(v@));
                view_stmts(r.0@) == t.0 && final(self).st() == t.1 && r.1 == t.2
            }),
        decreases sz_stmts(view_stmts(v@)), 1nat,
    {
        if v.len() == 0 {
            return (v, true);
        }
        let ghost v0 = v@;
        let mut rest = v;
        let first = rest.remove(0);
        proof {
            lemma_view_stmts_split(v0);
            lemma_sz_stmt_pos(view_stmt(first));
            assert(rest@ =~= v0.drop_first());
        }
        let (s2, ok1) = self.visit_stmt(first);
        if !ok1 {
            let mut out = rest;
            out.insert(0, s2);
            proof {
                lemma_view_stmts_len(out@);
                lemma_view_stmts_len(rest@);
                assert(view_stmts(out@) =~= seq![s2@] + view_stmts(rest@));
            }
            return (out, false);
        }
        let (rest2, ok2) = self.visit_stmts(rest);
        let mut out = rest2;
        out.insert(0, s2);
        proof {
            lemma_view_stmts_len(out@);
            lemma_view_stmts_len(rest2@);
            assert(out@.drop_first() =~= rest2@);
            assert(view_stmts(out@) =~= seq![s2@] + view_stmts(rest2@));
        }
        (out, ok2)
    }

    /// One declarator: only its initializer is visited.
    fn visit_decl(&mut self, d: Declarator) -> (r: (Declarator, bool))
        ensures
            final(self).cfg() == old(self).cfg(),
            ({
                let t = t_decl(old(self).cfg(), old(self).st(), d@);
                r.0@ == t.0 && final(self).st() == t.1 && r.1 == t.2
            }),
        decreases sz_decl(d@), 0nat,
    {
        let Declarator { name, init } = d;
        match init {
            Some(e) => {
                let (e2, ok) = self.visit_expr(e);
                (Declarator { name, init: Some(e2) }, ok)
            },
            None => (Declarator { name, init: None }, true),
        }
    }

    /// A declarator list, threading the state.
    fn visit_decls(&mut self, v: Vec<Declarator>) -> (r: (Vec<Declarator>, bool))
        ensures
            final(self).cfg() == old(self).cfg(),
            ({
                let t = t_decls(old(self).cfg(), old(self).st(), view_decls(v@));
                view_decls(r.0@) == t.0 && final(self).st() == t.1 && r.1 == t.2
            }),
        decreases sz_decls(view_decls(v@)), 1nat,
    {
        if v.len() == 0 {
            return (v, true);
        }
        let ghost v0 = v@;
        let mut rest = v;
        let first = rest.remove(0);
        proof {
            lemma_view_decls_split(v0);
            lemma_sz_decl_pos(view_decl(first));
            assert(rest@ =~= v0.drop_first());
        }
        let (d2, ok1) = self.visit_decl(first);
        if !ok1 {
            let mut out = rest;
            out.insert(0, d2);
            proof {
                lemma_view_decls_len(out@);
                lemma_view_decls_len(rest@);
                assert(view_decls(out@) =~= seq![d2@] + view_decls(rest@));
            }
            return (out, false);
        }
        let (rest2, ok2) = self.visit_decls(rest);
        let mut out = rest2;
        out.insert(0, d2);
        proof {
            lemma_view_decls_len(out@);
            lemma_view_decls_len(rest2@);
            assert(out@.drop_first() =~= rest2@);
            assert(view_decls(out@) =~= seq![d2@] + view_decls(rest2@));
        }
        (out, ok2)
    }

    /// Rewrites a whole parsed unit from the rewriter's current
    /// state; `Err` reports a root element whose tag name is not a
    /// simple identifier, with the rewrites up to that point kept.
    pub fn run(&mut self, program: Program) -> (r: (Program, Result<(), TransformError>))
        ensures
            final(self).cfg() == old(self).cfg(),
            ({
                let t = t_program(old(self).cfg(), old(self).st(), program@);
                r.0@ == t.0 && final(self).st() == t.1 && (r.1 is Ok <==> t.2)
            }),
    {
        let Program { body } = program;
        let (body2, ok) = self.visit_stmts(body);
        let res: Result<(), TransformError> = if ok {
            Ok(())
        } else {
            Err(TransformError::UnsupportedElementName)
        };
        (Program { body: body2 }, res)
    }
}

/// Whether one statement of a block renders markup.
fn stmt_renders_exec(s: &Stmt) -> (r: bool)
    ensures
        r == stmt_renders(s@),
{
    match s {
        Stmt::Return(arg) => match arg {
            Some(e) => paren_or_elem_exec(e),
            None => false,
        },
        Stmt::Expr(e) => match &**e {
            Expr::Elem(_) => true,
            _ => false,
        },
        _ => false,
    }
}

/// Whether an expression is a markup element, directly or in
/// parentheses.
fn paren_or_elem_exec(e: &Expr) -> (r: bool)
    ensures
        r == paren_or_elem(e@),
{
    proof {
        crate::ast::lemma_view_expr_shape(*e);
    }
    match e {
        Expr::Elem(_) => true,
        Expr::Paren(inner) => {
            proof {
                crate::ast::lemma_view_expr_shape(**inner);
            }
            match &**inner {
                Expr::Elem(_) => true,
                _ => false,
            }
        },
        _ => false,
    }
}

/// Whether some statement of a block renders markup.
fn body_renders_exec(ss: &Vec<Stmt>) -> (r: bool)
    ensures
        r == body_renders(view_stmts(ss@)),
{
    proof {
        lemma_view_stmts_len(ss@);
    }
    let mut found = false;
    let mut i: usize = 0;
    while i < ss.len()
        invariant
            0 <= i <= ss@.len(),
            view_stmts(ss@).len() == ss@.len(),
            forall|j: int| 0 <= j < ss@.len() ==> view_stmts(ss@)[j] == view_stmt(ss@[j]),
            found == exists|j: int| 0 <= j < i && stmt_renders(#[trigger] view_stmts(ss@)[j]),
        decreases ss@.len() - i,
    {
        let hit = stmt_renders_exec(&ss[i]);
        proof {
            assert(stmt_renders(view_stmts(ss@)[i as int]) == hit);
        }
        if hit {
            found = true;
        }
        i = i + 1;
    }
    found
}

/// Classification of one declarator initializer.
fn init_class_exec(d: &Declarator, acc: bool) -> (r: bool)
    ensures
        r == (match d@.init {
            Some(e) => init_class(e, acc),
            None => acc,
        }),
{
    match &d.init {
        Some(e) => match e {
            Expr::Arrow(body) => match body {
                FnBody::Block(ss) => body_renders_exec(ss),
                FnBody::Expr(b) => paren_or_elem_exec(b),
            },
            Expr::FnExpr(body) => match body {
                Some(ss) => body_renders_exec(ss),
                None => acc,
            },
            _ => acc,
        },
        None => acc,
    }
}

/// Whether a declarator list binds a component: the last initializer
/// that decides wins.
pub fn decls_render_exec(ds: &Vec<Declarator>) -> (r: bool)
    ensures
        r == decls_render(view_decls(ds@), false),
{
    proof {
        lemma_view_decls_len(ds@);
        assert(view_decls(ds@).skip(0) =~= view_decls(ds@));
    }
    let mut acc = false;
    let mut i: usize = 0;
    while i < ds.len()
        invariant
            0 <= i <= ds@.len(),
            view_decls(ds@).len() == ds@.len(),
            forall|j: int| 0 <= j < ds@.len() ==> view_decls(ds@)[j] == view_decl(ds@[j]),
            decls_render(view_decls(ds@), false) == decls_render(
                view_decls(ds@).skip(i as int),
                acc,
            ),
        decreases ds@.len() - i,
    {
        let ghost pre = view_decls(ds@).skip(i as int);
        proof {
            assert(pre[0] == view_decls(ds@)[i as int]);
            assert(pre.drop_first() =~= view_decls(ds@).skip(i as int + 1));
        }
        acc = init_class_exec(&ds[i], acc);
        i = i + 1;
    }
    proof {
        assert(view_decls(ds@).skip(ds@.len() as int) =~= Seq::<crate::ast::SDeclarator>::empty());
    }
    acc
}

/// One whole invocation: the file-skip check, then — unless the file
/// is exempt — the rewrite of the tree under the given configuration.
pub fn process_transform(program: Program, config: &Config, filename: &String) -> (r: (
    Program,
    Result<(), TransformError>,
))
    ensures
        should_skip_s(filename@, config.ignore_files.deep_view()) ==> r.0 == program && r.1 is Ok,
        !should_skip_s(filename@, config.ignore_files.deep_view()) ==> ({
            let t = t_program(base_cfg(config, filename@), initial_state(), program@);
            r.0@ == t.0 && (r.1 is Ok <==> t.2)
        }),
{
    if should_skip(filename, &config.ignore_files) {
        return (program, Ok(()));
    }
    let mut visitor = TransformVisitor::new();
    visitor.set_config(config, filename.clone());
    proof {
        assert(visitor.cfg() == base_cfg(config, filename@));
    }
    visitor.run(program)
}

/// The model configuration that `process_transform` runs under: the
/// given configuration, the fixed boolean sentinel, and no rename
/// rules.
pub open spec fn base_cfg(config: &Config, filename: Seq<char>) -> SCfg {
    SCfg {
        attr_name: config.attr_name@,
        ignore_components: config.ignore_components.deep_view(),
        filename: filename,
        bool_attr: "lazy-load"@,
        attr_rename: None,
        call_rename: None,
        fn_rename: None,
    }
}

} // verus!
