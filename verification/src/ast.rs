//! The program tree the rewriter works on, together with its ghost
//! mirror: each executable node type has a spec-level counterpart over
//! `Seq`, and a view function relating the two.
use vstd::prelude::*;

verus! {

/// A plain identifier-named attribute with an optional value, or a
/// form no rule touches (a spread, or a namespaced attribute name).
#[derive(Debug, PartialEq, Eq)]
pub enum Attr {
    Plain { name: String, value: Option<AttrValue> },
    Exotic,
}

/// The value of a plain attribute: a string literal, or any other
/// expression form, which every rule leaves alone.
#[derive(Debug, PartialEq, Eq)]
pub enum AttrValue {
    Text(String),
    Code,
}

/// A tag name: a simple identifier, or an unsupported shape
/// (member-style or namespaced), fatal when met at a root element.
#[derive(Debug, PartialEq, Eq)]
pub enum ElemName {
    Ident(String),
    Exotic,
}

/// A markup element: tag name, ordered attributes, children, and
/// whether it is written in self-closing form.
#[derive(Debug, PartialEq, Eq)]
pub struct Element {
    pub name: ElemName,
    pub attrs: Vec<Attr>,
    pub self_closing: bool,
    pub children: Vec<Expr>,
}

/// An expression, reduced to the shapes the rewriter distinguishes.
/// Everything else is `Other`, carrying the subexpressions the
/// traversal still descends into.
#[derive(Debug, PartialEq, Eq)]
pub enum Expr {
    Elem(Box<Element>),
    Fragment(Vec<Expr>),
    Paren(Box<Expr>),
    Arrow(FnBody),
    FnExpr(Option<Vec<Stmt>>),
    Call { callee: Box<Expr>, args: Vec<Expr> },
    Ident(String),
    Text(String),
    Other(Vec<Expr>),
}

/// The body of an arrow function: a block, or a single expression.
#[derive(Debug, PartialEq, Eq)]
pub enum FnBody {
    Block(Vec<Stmt>),
    Expr(Box<Expr>),
}

/// A statement, reduced to the shapes the rewriter distinguishes.
#[derive(Debug, PartialEq, Eq)]
pub enum Stmt {
    FnDecl { name: String, body: Vec<Stmt> },
    VarDecl(Vec<Declarator>),
    Return(Option<Box<Expr>>),
    Expr(Box<Expr>),
    Other(Vec<Stmt>),
}

/// One declarator of a variable declaration. `name` is `None` when the
/// bound pattern is not a simple identifier (such bindings never name
/// a component).
#[derive(Debug, PartialEq, Eq)]
pub struct Declarator {
    pub name: Option<String>,
    pub init: Option<Expr>,
}

/// A parsed unit: the list of its top-level statements.
#[derive(Debug, PartialEq, Eq)]
pub struct Program {
    pub body: Vec<Stmt>,
}

/// Ghost mirror of `Attr`.
pub ghost enum SAttr {
    Plain { name: Seq<char>, value: Option<SAttrValue> },
    Exotic,
}

/// Ghost mirror of `AttrValue`.
pub ghost enum SAttrValue {
    Text(Seq<char>),
    Code,
}

/// Ghost mirror of `ElemName`.
pub ghost enum SName {
    Ident(Seq<char>),
    Exotic,
}

/// Ghost mirror of `Element`.
pub ghost struct SElement {
    pub name: SName,
    pub attrs: Seq<SAttr>,
    pub self_closing: bool,
    pub children: Seq<SExpr>,
}

/// Ghost mirror of `Expr`.
pub ghost enum SExpr {
    Elem(SElement),
    Fragment(Seq<SExpr>),
    Paren(Box<SExpr>),
    Arrow(SFnBody),
    FnExpr(Option<Seq<SStmt>>),
    Call { callee: Box<SExpr>, args: Seq<SExpr> },
    Ident(Seq<char>),
    Text(Seq<char>),
    Other(Seq<SExpr>),
}

/// Ghost mirror of `FnBody`.
pub ghost enum SFnBody {
    Block(Seq<SStmt>),
    Expr(Box<SExpr>),
}

/// Ghost mirror of `Stmt`.
pub ghost enum SStmt {
    FnDecl { name: Seq<char>, body: Seq<SStmt> },
    VarDecl(Seq<SDeclarator>),
    Return(Option<Box<SExpr>>),
    Expr(Box<SExpr>),
    Other(Seq<SStmt>),
}

/// Ghost mirror of `Declarator`.
pub ghost struct SDeclarator {
    pub name: Option<Seq<char>>,
    pub init: Option<SExpr>,
}

/// Ghost mirror of `Program`.
pub ghost struct SProgram {
    pub body: Seq<SStmt>,
}

pub open spec fn view_attr_value(v: AttrValue) -> SAttrValue {
    match v {
        AttrValue::Text(s) => SAttrValue::Text(s@),
        AttrValue::Code => SAttrValue::Code,
    }
}

pub open spec fn view_attr(a: Attr) -> SAttr {
    match a {
        Attr::Plain { name, value } => SAttr::Plain {
            name: name@,
            value: match value {
                Some(v) => Some(view_attr_value(v)),
                None => None,
            },
        },
        Attr::Exotic => SAttr::Exotic,
    }
}

pub open spec fn view_attrs(v: Seq<Attr>) -> Seq<SAttr>
    decreases v.len(),
{
    if v.len() == 0 {
        Seq::empty()
    } else {
        seq![view_attr(v[0])] + view_attrs(v.drop_first())
    }
}

pub open spec fn view_name(n: ElemName) -> SName {
    match n {
        ElemName::Ident(s) => SName::Ident(s@),
        ElemName::Exotic => SName::Exotic,
    }
}

pub open spec fn view_elem(el: Element) -> SElement
    decreases el,
{
    SElement {
        name: view_name(el.name),
        attrs: view_attrs(el.attrs@),
        self_closing: el.self_closing,
        children: view_exprs(el.children@),
    }
}

pub open spec fn view_expr(e: Expr) -> SExpr
    decreases e,
{
    match e {
        Expr::Elem(el) => SExpr::Elem(view_elem(*el)),
        Expr::Fragment(cs) => SExpr::Fragment(view_exprs(cs@)),
        Expr::Paren(b) => SExpr::Paren(Box::new(view_expr(*b))),
        Expr::Arrow(body) => SExpr::Arrow(view_fnbody(body)),
        Expr::FnExpr(body) => SExpr::FnExpr(
            match body {
                Some(ss) => Some(view_stmts(ss@)),
                None => None,
            },
        ),
        Expr::Call { callee, args } => SExpr::Call {
            callee: Box::new(view_expr(*callee)),
            args: view_exprs(args@),
        },
        Expr::Ident(s) => SExpr::Ident(s@),
        Expr::Text(s) => SExpr::Text(s@),
        Expr::Other(subs) => SExpr::Other(view_exprs(subs@)),
    }
}

pub open spec fn view_exprs(v: Seq<Expr>) -> Seq<SExpr>
    decreases v,
{
    if v.len() == 0 {
        Seq::empty()
    } else {
        seq![view_expr(v[0])] + view_exprs(v.drop_first())
    }
}

pub open spec fn view_fnbody(b: FnBody) -> SFnBody
    decreases b,
{
    match b {
        FnBody::Block(ss) => SFnBody::Block(view_stmts(ss@)),
        FnBody::Expr(e) => SFnBody::Expr(Box::new(view_expr(*e))),
    }
}

pub open spec fn view_stmt(s: Stmt) -> SStmt
    decreases s,
{
    match s {
        Stmt::FnDecl { name, body } => SStmt::FnDecl { name: name@, body: view_stmts(body@) },
        Stmt::VarDecl(ds) => SStmt::VarDecl(view_decls(ds@)),
        Stmt::Return(arg) => SStmt::Return(
            match arg {
                Some(e) => Some(Box::new(view_expr(*e))),
                None => None,
            },
        ),
        Stmt::Expr(e) => SStmt::Expr(Box::new(view_expr(*e))),
        Stmt::Other(ss) => SStmt::Other(view_stmts(ss@)),
    }
}

pub open spec fn view_stmts(v: Seq<Stmt>) -> Seq<SStmt>
    decreases v,
{
    if v.len() == 0 {
        Seq::empty()
    } else {
        seq![view_stmt(v[0])] + view_stmts(v.drop_first())
    }
}

pub open spec fn view_decl(d: Declarator) -> SDeclarator
    decreases d,
{
    SDeclarator {
        name: match d.name {
            Some(s) => Some(s@),
            None => None,
        },
        init: match d.init {
            Some(e) => Some(view_expr(e)),
            None => None,
        },
    }
}

pub open spec fn view_decls(v: Seq<Declarator>) -> Seq<SDeclarator>
    decreases v,
{
    if v.len() == 0 {
        Seq::empty()
    } else {
        seq![view_decl(v[0])] + view_decls(v.drop_first())
    }
}

impl View for Attr {
    type V = SAttr;

    open spec fn view(&self) -> SAttr {
        view_attr(*self)
    }
}

impl View for Element {
    type V = SElement;

    open spec fn view(&self) -> SElement {
        view_elem(*self)
    }
}

impl View for Expr {
    type V = SExpr;

    open spec fn view(&self) -> SExpr {
        view_expr(*self)
    }
}

impl View for Stmt {
    type V = SStmt;

    open spec fn view(&self) -> SStmt {
        view_stmt(*self)
    }
}

impl View for Declarator {
    type V = SDeclarator;

    open spec fn view(&self) -> SDeclarator {
        view_decl(*self)
    }
}

impl View for FnBody {
    type V = SFnBody;

    open spec fn view(&self) -> SFnBody {
        view_fnbody(*self)
    }
}

impl View for ElemName {
    type V = SName;

    open spec fn view(&self) -> SName {
        view_name(*self)
    }
}

impl View for AttrValue {
    type V = SAttrValue;

    open spec fn view(&self) -> SAttrValue {
        view_attr_value(*self)
    }
}

impl View for Program {
    type V = SProgram;

    open spec fn view(&self) -> SProgram {
        SProgram { body: view_stmts(self.body@) }
    }
}

/// Size of an expression node, the termination measure of the
/// executable traversal.
pub open spec fn sz_expr(e: SExpr) -> nat
    decreases e,
{
    match e {
        SExpr::Elem(el) => 1 + sz_exprs(el.children),
        SExpr::Fragment(cs) => 1 + sz_exprs(cs),
        SExpr::Paren(b) => 1 + sz_expr(*b),
        SExpr::Arrow(body) => 1 + sz_fnbody(body),
        SExpr::FnExpr(body) => match body {
            Some(ss) => 1 + sz_stmts(ss),
            None => 1,
        },
        SExpr::Call { callee, args } => 1 + sz_expr(*callee) + sz_exprs(args),
        SExpr::Ident(_) => 1,
        SExpr::Text(_) => 1,
        SExpr::Other(subs) => 1 + sz_exprs(subs),
    }
}

pub open spec fn sz_exprs(v: Seq<SExpr>) -> nat
    decreases v,
{
    if v.len() == 0 {
        0
    } else {
        sz_expr(v[0]) + sz_exprs(v.drop_first())
    }
}

pub open spec fn sz_fnbody(b: SFnBody) -> nat
    decreases b,
{
    match b {
        SFnBody::Block(ss) => 1 + sz_stmts(ss),
        SFnBody::Expr(e) => 1 + sz_expr(*e),
    }
}

pub open spec fn sz_stmt(s: SStmt) -> nat
    decreases s,
{
    match s {
        SStmt::FnDecl { name: _, body } => 1 + sz_stmts(body),
        SStmt::VarDecl(ds) => 1 + sz_decls(ds),
        SStmt::Return(arg) => match arg {
            Some(e) => 1 + sz_expr(*e),
            None => 1,
        },
        SStmt::Expr(e) => 1 + sz_expr(*e),
        SStmt::Other(ss) => 1 + sz_stmts(ss),
    }
}

pub open spec fn sz_stmts(v: Seq<SStmt>) -> nat
    decreases v,
{
    if v.len() == 0 {
        0
    } else {
        sz_stmt(v[0]) + sz_stmts(v.drop_first())
    }
}

pub open spec fn sz_decl(d: SDeclarator) -> nat
    decreases d,
{
    match d.init {
        Some(e) => 1 + sz_expr(e),
        None => 1,
    }
}

pub open spec fn sz_decls(v: Seq<SDeclarator>) -> nat
    decreases v,
{
    if v.len() == 0 {
        0
    } else {
        sz_decl(v[0]) + sz_decls(v.drop_first())
    }
}

pub proof fn lemma_sz_expr_pos(e: SExpr)
    ensures
        sz_expr(e) >= 1,
{
}

pub proof fn lemma_sz_stmt_pos(s: SStmt)
    ensures
        sz_stmt(s) >= 1,
{
}

pub proof fn lemma_sz_decl_pos(d: SDeclarator)
    ensures
        sz_decl(d) >= 1,
{
}

/// Unfolds the view of a non-empty expression list into its head and
/// tail, with the matching size equation.
pub proof fn lemma_view_exprs_split(v: Seq<Expr>)
    requires
        v.len() > 0,
    ensures
        view_exprs(v).len() == v.len(),
        view_exprs(v)[0] == view_expr(v[0]),
        view_exprs(v).drop_first() =~= view_exprs(v.drop_first()),
        sz_exprs(view_exprs(v)) == sz_expr(view_expr(v[0])) + sz_exprs(
            view_exprs(v.drop_first()),
        ),
{
    assert((seq![view_expr(v[0])] + view_exprs(v.drop_first())).drop_first() =~= view_exprs(
        v.drop_first(),
    ));
    lemma_view_exprs_len(v);
}

pub proof fn lemma_view_exprs_len(v: Seq<Expr>)
    ensures
        view_exprs(v).len() == v.len(),
        forall|i: int| 0 <= i < v.len() ==> view_exprs(v)[i] == view_expr(v[i]),
    decreases v.len(),
{
    if v.len() > 0 {
        lemma_view_exprs_len(v.drop_first());
    }
}

pub proof fn lemma_view_stmts_split(v: Seq<Stmt>)
    requires
        v.len() > 0,
    ensures
        view_stmts(v).len() == v.len(),
        view_stmts(v)[0] == view_stmt(v[0]),
        view_stmts(v).drop_first() =~= view_stmts(v.drop_first()),
        sz_stmts(view_stmts(v)) == sz_stmt(view_stmt(v[0])) + sz_stmts(
            view_stmts(v.drop_first()),
        ),
{
    assert((seq![view_stmt(v[0])] + view_stmts(v.drop_first())).drop_first() =~= view_stmts(
        v.drop_first(),
    ));
    lemma_view_stmts_len(v);
}

pub proof fn lemma_view_stmts_len(v: Seq<Stmt>)
    ensures
        view_stmts(v).len() == v.len(),
        forall|i: int| 0 <= i < v.len() ==> view_stmts(v)[i] == view_stmt(v[i]),
    decreases v.len(),
{
    if v.len() > 0 {
        lemma_view_stmts_len(v.drop_first());
    }
}

pub proof fn lemma_view_decls_split(v: Seq<Declarator>)
    requires
        v.len() > 0,
    ensures
        view_decls(v).len() == v.len(),
        view_decls(v)[0] == view_decl(v[0]),
        view_decls(v).drop_first() =~= view_decls(v.drop_first()),
        sz_decls(view_decls(v)) == sz_decl(view_decl(v[0])) + sz_decls(
            view_decls(v.drop_first()),
        ),
{
    assert((seq![view_decl(v[0])] + view_decls(v.drop_first())).drop_first() =~= view_decls(
        v.drop_first(),
    ));
    lemma_view_decls_len(v);
}

pub proof fn lemma_view_decls_len(v: Seq<Declarator>)
    ensures
        view_decls(v).len() == v.len(),
        forall|i: int| 0 <= i < v.len() ==> view_decls(v)[i] == view_decl(v[i]),
    decreases v.len(),
{
    if v.len() > 0 {
        lemma_view_decls_len(v.drop_first());
    }
}

pub proof fn lemma_view_attrs_len(v: Seq<Attr>)
    ensures
        view_attrs(v).len() == v.len(),
        forall|i: int| 0 <= i < v.len() ==> view_attrs(v)[i] == view_attr(v[i]),
    decreases v.len(),
{
    if v.len() > 0 {
        lemma_view_attrs_len(v.drop_first());
    }
}

/// The traversal preserves every node's outer shape; this lemma makes
/// the correspondence between an expression and its view explicit,
/// one constructor at a time.
pub proof fn lemma_view_expr_shape(e: Expr)
    ensures
        (view_expr(e) matches SExpr::Elem(_)) <==> (e matches Expr::Elem(_)),
        (view_expr(e) matches SExpr::Fragment(_)) <==> (e matches Expr::Fragment(_)),
        (view_expr(e) matches SExpr::Paren(_)) <==> (e matches Expr::Paren(_)),
        (view_expr(e) matches SExpr::Arrow(_)) <==> (e matches Expr::Arrow(_)),
        (view_expr(e) matches SExpr::FnExpr(_)) <==> (e matches Expr::FnExpr(_)),
        (view_expr(e) matches SExpr::Call { .. }) <==> (e matches Expr::Call { .. }),
        (view_expr(e) matches SExpr::Ident(_)) <==> (e matches Expr::Ident(_)),
        (view_expr(e) matches SExpr::Text(_)) <==> (e matches Expr::Text(_)),
        (view_expr(e) matches SExpr::Other(_)) <==> (e matches Expr::Other(_)),
{
    match e {
        Expr::Elem(_) => {},
        Expr::Fragment(_) => {},
        Expr::Paren(_) => {},
        Expr::Arrow(_) => {},
        Expr::FnExpr(_) => {},
        Expr::Call { .. } => {},
        Expr::Ident(_) => {},
        Expr::Text(_) => {},
        Expr::Other(_) => {},
    }
}

} // verus!
