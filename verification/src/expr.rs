//! Expressions of the language, their nodes, and their free variables.

use crate::decimal::{dec_str, u64_to_string};
use crate::inline_llvm::{InlineLLVM, SGen};
use crate::name::{copy_string, copy_strings, string_eq, strings_view, NameSpace};
use crate::types::{SScheme, SType, Scheme, TypeNode};
use std::sync::Arc;
use vstd::prelude::*;

verus! {

/// The name a recursive function uses for itself.
pub const SELF_NAME: &'static str = "%SELF%";

/// The name of the object a closure captured.
pub const CAP_NAME: &'static str = "%CAP%";

/// A range of source text.
#[derive(Clone, Copy)]
pub struct Span {
    pub start: usize,
    pub end: usize,
}

/// How a source range is printed: its start, `..`, and its end.
pub open spec fn span_str(s: Span) -> Seq<char> {
    dec_str(s.start as nat) + seq!['.', '.'] + dec_str(s.end as nat)
}

impl Span {
    pub fn to_string(&self) -> (r: String)
        ensures
            r@ == span_str(*self),
    {
        let mut r = u64_to_string(self.start as u64);
        r.append("..");
        r.append(u64_to_string(self.end as u64).as_str());
        proof {
            reveal_strlit("..");
        }
        r
    }
}

/// Which of a function and its argument comes first in the source code.
#[derive(Clone, Copy)]
pub enum AppSourceCodeOrderType {
    FunctionIsFormer,
    ArgumentIsFormer,
}

/// A set of variable names, each held once.
pub struct VarSet {
    names: Vec<String>,
}

impl View for VarSet {
    type V = Set<Seq<char>>;

    closed spec fn view(&self) -> Set<Seq<char>> {
        strings_view(self.names@).to_set()
    }
}

impl VarSet {
    #[verifier::type_invariant]
    closed spec fn wf(&self) -> bool {
        strings_view(self.names@).no_duplicates()
    }

    /// The empty set.
    pub fn new() -> (r: VarSet)
        ensures
            r@ == Set::<Seq<char>>::empty(),
    {
        let r = VarSet { names: Vec::new() };
        assert(r@ =~= Set::<Seq<char>>::empty());
        r
    }

    pub fn contains(&self, name: &String) -> (r: bool)
        ensures
            r == self@.contains(name@),
    {
        let mut i: usize = 0;
        while i < self.names.len()
            invariant
                i <= self.names.len(),
                forall|j: int| 0 <= j < i ==> self.names@[j]@ != name@,
            decreases self.names.len() - i,
        {
            if string_eq(&self.names[i], name) {
                assert(strings_view(self.names@)[i as int] == name@);
                return true;
            }
            i = i + 1;
        }
        assert forall|j: int| 0 <= j < strings_view(self.names@).len() implies strings_view(
            self.names@,
        )[j] != name@ by {
            assert(strings_view(self.names@)[j] == self.names@[j]@);
        }
        false
    }

    /// Adds a name.
    pub fn insert(&mut self, name: String)
        ensures
            final(self)@ == old(self)@.insert(name@),
    {
        proof {
            use_type_invariant(&*self);
        }
        if self.contains(&name) {
            assert(self@.insert(name@) =~= self@);
            return;
        }
        let mut names = Vec::new();
        std::mem::swap(&mut names, &mut self.names);
        let ghost old_view = strings_view(names@);
        names.push(name);
        proof {
            assert(strings_view(names@) =~= old_view.push(name@));
            assert forall|i: int, j: int|
                0 <= i < j < strings_view(names@).len() implies strings_view(names@)[i]
                != strings_view(names@)[j] by {
                if j == old_view.len() {
                    assert(old_view[i] == strings_view(names@)[i]);
                    assert(old_view.contains(old_view[i]));
                }
            }
            assert(strings_view(names@).to_set() =~= old_view.to_set().insert(name@)) by {
                assert forall|x: Seq<char>|
                    strings_view(names@).contains(x) <==> (old_view.contains(x) || x == name@) by {
                    if strings_view(names@).contains(x) {
                        let k = choose|k: int|
                            0 <= k < strings_view(names@).len() && strings_view(names@)[k] == x;
                        if k < old_view.len() {
                            assert(old_view[k] == x);
                        }
                    }
                    if old_view.contains(x) {
                        let k = choose|k: int| 0 <= k < old_view.len() && old_view[k] == x;
                        assert(strings_view(names@)[k] == x);
                    }
                    if x == name@ {
                        assert(strings_view(names@)[old_view.len() as int] == x);
                    }
                }
            }
        }
        self.names = names;
    }

    /// Removes a name.
    pub fn remove(&mut self, name: &String)
        ensures
            final(self)@ == old(self)@.remove(name@),
    {
        proof {
            use_type_invariant(&*self);
        }
        let ghost old_view = strings_view(self.names@);
        let mut kept: Vec<String> = Vec::new();
        let mut i: usize = 0;
        while i < self.names.len()
            invariant
                i <= self.names.len(),
                old_view == strings_view(self.names@),
                old_view.no_duplicates(),
                strings_view(kept@).no_duplicates(),
                forall|k: int|
                    0 <= k < kept@.len() ==> #[trigger] old_view.subrange(0, i as int).contains(
                        strings_view(kept@)[k],
                    ),
                strings_view(kept@).to_set() == old_view.subrange(0, i as int).to_set().remove(
                    name@,
                ),
            decreases self.names.len() - i,
        {
            let ghost prev = old_view.subrange(0, i as int);
            let ghost next = old_view.subrange(0, i + 1);
            assert(next =~= prev.push(old_view[i as int]));
            proof {
                lemma_to_set_push(prev, old_view[i as int]);
            }
            let ghost kept_before = strings_view(kept@);
            if !string_eq(&self.names[i], name) {
                kept.push(copy_string(&self.names[i]));
                assert(strings_view(kept@) =~= kept_before.push(old_view[i as int]));
                proof {
                    lemma_to_set_push(kept_before, old_view[i as int]);
                }
                assert(!kept_before.contains(old_view[i as int])) by {
                    if kept_before.contains(old_view[i as int]) {
                        let k = choose|k: int|
                            0 <= k < kept_before.len() && kept_before[k] == old_view[i as int];
                        assert(prev.contains(kept_before[k]));
                        let m = choose|m: int| 0 <= m < prev.len() && prev[m] == kept_before[k];
                        assert(old_view[m] == old_view[i as int]);
                    }
                }
                assert forall|x: int, y: int|
                    0 <= x < y < strings_view(kept@).len() implies strings_view(kept@)[x]
                    != strings_view(kept@)[y] by {
                    if y == kept_before.len() {
                        assert(kept_before.contains(kept_before[x]));
                    } else {
                        assert(kept_before[x] != kept_before[y]);
                    }
                }
                assert(strings_view(kept@).to_set() =~= next.to_set().remove(name@));
            } else {
                assert(strings_view(kept@).to_set() =~= next.to_set().remove(name@));
            }
            assert forall|k: int|
                0 <= k < kept@.len() implies #[trigger] next.contains(strings_view(kept@)[k]) by {
                if k < kept_before.len() {
                    assert(prev.contains(kept_before[k]));
                    let m = choose|m: int| 0 <= m < prev.len() && prev[m] == kept_before[k];
                    assert(next[m] == prev[m]);
                } else {
                    assert(next[i as int] == strings_view(kept@)[k]);
                }
            }
            i = i + 1;
        }
        assert(old_view.subrange(0, self.names.len() as int) =~= old_view);
        self.names = kept;
    }

    /// Adds every name of `other`.
    pub fn extend(&mut self, other: &VarSet)
        ensures
            final(self)@ == old(self)@.union(other@),
    {
        let ghost start = self@;
        let mut i: usize = 0;
        while i < other.names.len()
            invariant
                i <= other.names.len(),
                self@ == start.union(strings_view(other.names@).subrange(0, i as int).to_set()),
            decreases other.names.len() - i,
        {
            let ghost before = strings_view(other.names@).subrange(0, i as int);
            let ghost after = strings_view(other.names@).subrange(0, i + 1);
            self.insert(copy_string(&other.names[i]));
            assert(after =~= before.push(other.names@[i as int]@));
            proof {
                lemma_to_set_push(before, other.names@[i as int]@);
            }
            i = i + 1;
            assert(self@ =~= start.union(strings_view(other.names@).subrange(0, i as int).to_set()));
        }
        assert(strings_view(other.names@).subrange(0, other.names.len() as int) =~= strings_view(
            other.names@,
        ));
        assert(self@ =~= start.union(other@));
    }

    /// The set of the given names.
    pub fn from_vec(v: &Vec<String>) -> (r: VarSet)
        ensures
            r@ == strings_view(v@).to_set(),
    {
        let mut r = VarSet::new();
        let mut i: usize = 0;
        while i < v.len()
            invariant
                i <= v.len(),
                r@ == strings_view(v@).subrange(0, i as int).to_set(),
            decreases v.len() - i,
        {
            let ghost before = strings_view(v@).subrange(0, i as int);
            let ghost after = strings_view(v@).subrange(0, i + 1);
            r.insert(copy_string(&v[i]));
            assert(after =~= before.push(v@[i as int]@));
            proof {
                lemma_to_set_push(before, v@[i as int]@);
            }
            i = i + 1;
        }
        assert(strings_view(v@).subrange(0, v.len() as int) =~= strings_view(v@));
        r
    }

    pub fn copy(&self) -> (r: VarSet)
        ensures
            r@ == self@,
    {
        proof {
            use_type_invariant(self);
        }
        VarSet { names: copy_strings(&self.names) }
    }

    /// The names, each once.
    pub fn to_vec(&self) -> (r: Vec<String>)
        ensures
            strings_view(r@).to_set() == self@,
            strings_view(r@).no_duplicates(),
    {
        proof {
            use_type_invariant(self);
        }
        copy_strings(&self.names)
    }
}

/// The set of `s.push(x)` is that of `s` with `x`.
pub proof fn lemma_to_set_push(s: Seq<Seq<char>>, x: Seq<char>)
    ensures
        s.push(x).to_set() == s.to_set().insert(x),
{
    assert forall|y: Seq<char>| s.push(x).contains(y) <==> (s.contains(y) || y == x) by {
        if s.push(x).contains(y) {
            let k = choose|k: int| 0 <= k < s.push(x).len() && s.push(x)[k] == y;
            if k < s.len() {
                assert(s[k] == y);
            }
        }
        if s.contains(y) {
            let k = choose|k: int| 0 <= k < s.len() && s[k] == y;
            assert(s.push(x)[k] == y);
        }
        if y == x {
            assert(s.push(x)[s.len() as int] == y);
        }
    }
    assert forall|y: Seq<char>|
        s.push(x).to_set().contains(y) <==> s.to_set().insert(x).contains(y) by {
        assert(s.push(x).to_set().contains(y) == s.push(x).contains(y));
        assert(s.to_set().contains(y) == s.contains(y));
    }
    assert(s.push(x).to_set() =~= s.to_set().insert(x));
}

/// A variable.
pub struct Var {
    pub name: String,
    pub namespace: Option<NameSpace>,
    pub type_annotation: Option<Arc<Scheme>>,
    pub source: Option<Span>,
}

pub struct SVar {
    pub name: Seq<char>,
    pub namespace: Option<Seq<Seq<char>>>,
    pub type_annotation: Option<SScheme>,
    pub source: Option<Span>,
}

impl View for Var {
    type V = SVar;

    open spec fn view(&self) -> SVar {
        SVar {
            name: self.name@,
            namespace: match self.namespace {
                Some(ns) => Some(ns@),
                None => None,
            },
            type_annotation: match self.type_annotation {
                Some(s) => Some(s@),
                None => None,
            },
            source: self.source,
        }
    }
}

/// A literal: its generator, the variables it reads, its name and its type.
pub struct Literal {
    pub generator: Arc<InlineLLVM>,
    pub free_vars: Vec<String>,
    pub name: String,
    pub ty: Arc<TypeNode>,
}

pub struct SLit {
    pub generator: SGen,
    pub free_vars: Seq<Seq<char>>,
    pub name: Seq<char>,
    pub ty: SType,
}

impl View for Literal {
    type V = SLit;

    open spec fn view(&self) -> SLit {
        SLit {
            generator: self.generator@,
            free_vars: strings_view(self.free_vars@),
            name: self.name@,
            ty: self.ty@,
        }
    }
}

/// A node of an expression tree: the expression, its free variables once computed,
/// its source, and the order of a function and its argument in the source.
pub struct ExprNode {
    pub expr: Arc<Expr>,
    pub free_vars: Option<VarSet>,
    pub source: Option<Span>,
    pub app_order: AppSourceCodeOrderType,
}

/// An expression.
pub enum Expr {
    Var(Arc<Var>),
    Lit(Arc<Literal>),
    App(Arc<ExprNode>, Arc<ExprNode>),
    Lam(Arc<Var>, Arc<ExprNode>),
    Let(Arc<Var>, Arc<ExprNode>, Arc<ExprNode>),
    If(Arc<ExprNode>, Arc<ExprNode>, Arc<ExprNode>),
}

/// The abstract value of a node.
pub struct SNode {
    pub expr: SExpr,
    pub free_vars: Option<Set<Seq<char>>>,
    pub source: Option<Span>,
    pub app_order: AppSourceCodeOrderType,
}

/// The abstract value of an expression.
pub enum SExpr {
    Var(SVar),
    Lit(SLit),
    App(Box<SNode>, Box<SNode>),
    Lam(SVar, Box<SNode>),
    Let(SVar, Box<SNode>, Box<SNode>),
    If(Box<SNode>, Box<SNode>, Box<SNode>),
}

pub open spec fn node_view(n: ExprNode) -> SNode
    decreases n,
{
    SNode {
        expr: expr_view(*n.expr),
        free_vars: match n.free_vars {
            Some(s) => Some(s@),
            None => None,
        },
        source: n.source,
        app_order: n.app_order,
    }
}

pub open spec fn expr_view(e: Expr) -> SExpr
    decreases e,
{
    match e {
        Expr::Var(v) => SExpr::Var(v@),
        Expr::Lit(l) => SExpr::Lit(l@),
        Expr::App(f, a) => SExpr::App(Box::new(node_view(*f)), Box::new(node_view(*a))),
        Expr::Lam(x, b) => SExpr::Lam(x@, Box::new(node_view(*b))),
        Expr::Let(x, b, v) => SExpr::Let(x@, Box::new(node_view(*b)), Box::new(node_view(*v))),
        Expr::If(c, t, e) => SExpr::If(
            Box::new(node_view(*c)),
            Box::new(node_view(*t)),
            Box::new(node_view(*e)),
        ),
    }
}

impl View for ExprNode {
    type V = SNode;

    open spec fn view(&self) -> SNode {
        node_view(*self)
    }
}

impl View for Expr {
    type V = SExpr;

    open spec fn view(&self) -> SExpr {
        expr_view(*self)
    }
}

/// The free variables of an expression. A `let` does not bind its own name in its
/// bound expression, and a lambda also binds the name of the function itself.
pub open spec fn fv(e: SExpr) -> Set<Seq<char>>
    decreases e,
{
    match e {
        SExpr::Var(v) => set![v.name],
        SExpr::Lit(l) => l.free_vars.to_set(),
        SExpr::App(f, a) => fv(f.expr).union(fv(a.expr)),
        SExpr::Lam(x, b) => fv(b.expr).remove(x.name).remove(SELF_NAME@),
        SExpr::Let(x, b, v) => fv(v.expr).remove(x.name).union(fv(b.expr)),
        SExpr::If(c, t, e) => fv(c.expr).union(fv(t.expr)).union(fv(e.expr)),
    }
}

/// A node, and every node under it, annotated with its free variables.
pub open spec fn annotate(n: SNode) -> SNode
    decreases n,
{
    SNode { expr: annotate_expr(n.expr), free_vars: Some(fv(n.expr)), ..n }
}

pub open spec fn annotate_expr(e: SExpr) -> SExpr
    decreases e,
{
    match e {
        SExpr::Var(v) => SExpr::Var(v),
        SExpr::Lit(l) => SExpr::Lit(l),
        SExpr::App(f, a) => SExpr::App(Box::new(annotate(*f)), Box::new(annotate(*a))),
        SExpr::Lam(x, b) => SExpr::Lam(x, Box::new(annotate(*b))),
        SExpr::Let(x, b, v) => SExpr::Let(x, Box::new(annotate(*b)), Box::new(annotate(*v))),
        SExpr::If(c, t, e) => SExpr::If(
            Box::new(annotate(*c)),
            Box::new(annotate(*t)),
            Box::new(annotate(*e)),
        ),
    }
}

/// Whether every node of the tree carries its free variables.
pub open spec fn is_annotated(n: SNode) -> bool
    decreases n,
{
    &&& n.free_vars == Some(fv(n.expr))
    &&& match n.expr {
        SExpr::Var(_) | SExpr::Lit(_) => true,
        SExpr::App(f, a) => is_annotated(*f) && is_annotated(*a),
        SExpr::Lam(_, b) => is_annotated(*b),
        SExpr::Let(_, b, v) => is_annotated(*b) && is_annotated(*v),
        SExpr::If(c, t, e) => is_annotated(*c) && is_annotated(*t) && is_annotated(*e),
    }
}

/// Annotating keeps the free variables of every expression.
pub proof fn lemma_fv_annotate(e: SExpr)
    ensures
        fv(annotate_expr(e)) == fv(e),
    decreases e,
{
    match e {
        SExpr::App(f, a) => {
            lemma_fv_annotate(f.expr);
            lemma_fv_annotate(a.expr);
        },
        SExpr::Lam(x, b) => {
            lemma_fv_annotate(b.expr);
        },
        SExpr::Let(x, b, v) => {
            lemma_fv_annotate(b.expr);
            lemma_fv_annotate(v.expr);
        },
        SExpr::If(c, t, f) => {
            lemma_fv_annotate(c.expr);
            lemma_fv_annotate(t.expr);
            lemma_fv_annotate(f.expr);
        },
        _ => {},
    }
}

/// The result of annotating is annotated, and annotating it again changes nothing.
pub proof fn lemma_annotate_idempotent(n: SNode)
    ensures
        is_annotated(annotate(n)),
        annotate(annotate(n)) == annotate(n),
    decreases n,
{
    lemma_fv_annotate(n.expr);
    match n.expr {
        SExpr::App(f, a) => {
            lemma_annotate_idempotent(*f);
            lemma_annotate_idempotent(*a);
        },
        SExpr::Lam(x, b) => {
            lemma_annotate_idempotent(*b);
        },
        SExpr::Let(x, b, v) => {
            lemma_annotate_idempotent(*b);
            lemma_annotate_idempotent(*v);
        },
        SExpr::If(c, t, e) => {
            lemma_annotate_idempotent(*c);
            lemma_annotate_idempotent(*t);
            lemma_annotate_idempotent(*e);
        },
        _ => {},
    }
}

/// A name is free in an expression exactly when it is free in one of its parts and not bound
/// there: in either part of an application, in any of the condition and the two branches of
/// an `if`, in the bound expression of a `let` or in its body unless it is the bound name, and
/// in the body of a lambda unless it is the argument or the function's own name.
pub proof fn lemma_fv_parts(e: SExpr, y: Seq<char>)
    ensures
        e matches SExpr::App(f, a) ==> (fv(e).contains(y) <==> (fv(f.expr).contains(y) || fv(
            a.expr,
        ).contains(y))),
        e matches SExpr::If(c, t, x) ==> (fv(e).contains(y) <==> (fv(c.expr).contains(y) || fv(
            t.expr,
        ).contains(y) || fv(x.expr).contains(y))),
        e matches SExpr::Let(v, b, body) ==> (fv(e).contains(y) <==> (fv(b.expr).contains(y) || (
        fv(body.expr).contains(y) && y != v.name))),
        e matches SExpr::Lam(v, body) ==> (fv(e).contains(y) <==> (fv(body.expr).contains(y) && y
            != v.name && y != SELF_NAME@)),
        e matches SExpr::Var(v) ==> (fv(e).contains(y) <==> y == v.name),
{
}

/// In the tree that `calculate_free_vars` gives, every node records each name that one of its
/// parts records and the node does not bind; in particular an `if` records every name that
/// its condition, its then branch or its else branch records.
pub proof fn lemma_annotated_parts(n: SNode, y: Seq<char>)
    ensures
        annotate(n).free_vars is Some,
        match annotate(n).expr {
            SExpr::App(f, a) => (f.free_vars->Some_0.contains(y) || a.free_vars->Some_0.contains(
                y,
            )) ==> annotate(n).free_vars->Some_0.contains(y),
            SExpr::If(c, t, x) => (c.free_vars->Some_0.contains(y) || t.free_vars->Some_0.contains(
                y,
            ) || x.free_vars->Some_0.contains(y)) ==> annotate(n).free_vars->Some_0.contains(y),
            SExpr::Let(v, b, body) => (b.free_vars->Some_0.contains(y) || (
            body.free_vars->Some_0.contains(y) && y != v.name)) ==> annotate(
                n,
            ).free_vars->Some_0.contains(y),
            SExpr::Lam(v, body) => (body.free_vars->Some_0.contains(y) && y != v.name && y
                != SELF_NAME@) ==> annotate(n).free_vars->Some_0.contains(y),
            _ => true,
        },
{
    lemma_fv_parts(n.expr, y);
    assert(annotate(n).expr == annotate_expr(n.expr));
    assert(annotate(n).free_vars == Some(fv(n.expr)));
    match n.expr {
        SExpr::App(f, a) => {
            assert(annotate(*f).free_vars == Some(fv(f.expr)));
            assert(annotate(*a).free_vars == Some(fv(a.expr)));
        },
        SExpr::If(c, t, x) => {
            assert(annotate(*c).free_vars == Some(fv(c.expr)));
            assert(annotate(*t).free_vars == Some(fv(t.expr)));
            assert(annotate(*x).free_vars == Some(fv(x.expr)));
        },
        SExpr::Let(v, b, body) => {
            assert(annotate(*b).free_vars == Some(fv(b.expr)));
            assert(annotate(*body).free_vars == Some(fv(body.expr)));
        },
        SExpr::Lam(v, body) => {
            assert(annotate(*body).free_vars == Some(fv(body.expr)));
        },
        _ => {},
    }
}

/// `let` is not recursive: in `let x = b in v`, the name `x` is free exactly when it is free
/// in `b`, whatever `v` holds, and any other name is free when it is free in `b` or in `v`.
pub proof fn lemma_let_non_recursive(x: SVar, b: SNode, v: SNode, y: Seq<char>)
    ensures
        fv(SExpr::Let(x, Box::new(b), Box::new(v))).contains(x.name) <==> fv(b.expr).contains(
            x.name,
        ),
        y != x.name ==> (fv(SExpr::Let(x, Box::new(b), Box::new(v))).contains(y) <==> (fv(
            b.expr,
        ).contains(y) || fv(v.expr).contains(y))),
{
}

/// A node with the same expression and new free variables.
pub open spec fn with_free_vars(n: SNode, fvs: Set<Seq<char>>) -> SNode {
    SNode { free_vars: Some(fvs), ..n }
}

impl ExprNode {
    /// A copy of the node.
    pub fn copy(&self) -> (r: ExprNode)
        ensures
            r@ == self@,
    {
        ExprNode {
            expr: self.expr.clone(),
            free_vars: match &self.free_vars {
                Some(s) => Some(s.copy()),
                None => None,
            },
            source: self.source,
            app_order: self.app_order,
        }
    }

    /// The node with its free variables set.
    fn set_free_vars(&self, free_vars: VarSet) -> (r: Arc<Self>)
        ensures
            r@ == with_free_vars(self@, free_vars@),
    {
        let mut ret = self.copy();
        ret.free_vars = Some(free_vars);
        Arc::new(ret)
    }

    /// The free variables, once they have been computed.
    pub fn free_vars(self: &Self) -> (r: &VarSet)
        requires
            self@.free_vars is Some,
        ensures
            Some(r@) == self@.free_vars,
    {
        self.free_vars.as_ref().unwrap()
    }

    pub fn set_source(&self, src: Option<Span>) -> (r: Arc<Self>)
        ensures
            r@ == (SNode { source: src, ..self@ }),
    {
        let mut ret = self.copy();
        ret.source = src;
        Arc::new(ret)
    }

    pub fn set_app_order(&self, app_order: AppSourceCodeOrderType) -> (r: Arc<Self>)
        ensures
            r@ == (SNode { app_order: app_order, ..self@ }),
    {
        let mut ret = self.copy();
        ret.app_order = app_order;
        Arc::new(ret)
    }

    pub fn set_app_func(&self, func: Arc<ExprNode>) -> (r: Arc<Self>)
        requires
            self@.expr is App,
        ensures
            r@ == (SNode { expr: SExpr::App(Box::new(func@), self@.expr->App_1), ..self@ }),
    {
        let mut ret = self.copy();
        match &*self.expr {
            Expr::App(_, arg) => {
                ret.expr = Arc::new(Expr::App(func, arg.clone()));
            },
            _ => {},
        }
        Arc::new(ret)
    }

    pub fn set_app_arg(&self, arg: Arc<ExprNode>) -> (r: Arc<Self>)
        requires
            self@.expr is App,
        ensures
            r@ == (SNode { expr: SExpr::App(self@.expr->App_0, Box::new(arg@)), ..self@ }),
    {
        let mut ret = self.copy();
        match &*self.expr {
            Expr::App(func, _) => {
                ret.expr = Arc::new(Expr::App(func.clone(), arg));
            },
            _ => {},
        }
        Arc::new(ret)
    }

    pub fn set_lam_body(&self, body: Arc<ExprNode>) -> (r: Arc<Self>)
        requires
            self@.expr is Lam,
        ensures
            r@ == (SNode { expr: SExpr::Lam(self@.expr->Lam_0, Box::new(body@)), ..self@ }),
    {
        let mut ret = self.copy();
        match &*self.expr {
            Expr::Lam(arg, _) => {
                ret.expr = Arc::new(Expr::Lam(arg.clone(), body));
            },
            _ => {},
        }
        Arc::new(ret)
    }

    pub fn set_let_bound(&self, bound: Arc<ExprNode>) -> (r: Arc<Self>)
        requires
            self@.expr is Let,
        ensures
            r@ == (SNode {
                expr: SExpr::Let(self@.expr->Let_0, Box::new(bound@), self@.expr->Let_2),
                ..self@
            }),
    {
        let mut ret = self.copy();
        match &*self.expr {
            Expr::Let(var, _, val) => {
                ret.expr = Arc::new(Expr::Let(var.clone(), bound, val.clone()));
            },
            _ => {},
        }
        Arc::new(ret)
    }

    pub fn set_let_value(&self, value: Arc<ExprNode>) -> (r: Arc<Self>)
        requires
            self@.expr is Let,
        ensures
            r@ == (SNode {
                expr: SExpr::Let(self@.expr->Let_0, self@.expr->Let_1, Box::new(value@)),
                ..self@
            }),
    {
        let mut ret = self.copy();
        match &*self.expr {
            Expr::Let(var, bound, _) => {
                ret.expr = Arc::new(Expr::Let(var.clone(), bound.clone(), value));
            },
            _ => {},
        }
        Arc::new(ret)
    }

    pub fn set_if_cond(&self, cond: Arc<ExprNode>) -> (r: Arc<Self>)
        requires
            self@.expr is If,
        ensures
            r@ == (SNode {
                expr: SExpr::If(Box::new(cond@), self@.expr->If_1, self@.expr->If_2),
                ..self@
            }),
    {
        let mut ret = self.copy();
        match &*self.expr {
            Expr::If(_, then_expr, else_expr) => {
                ret.expr = Arc::new(Expr::If(cond, then_expr.clone(), else_expr.clone()));
            },
            _ => {},
        }
        Arc::new(ret)
    }

    pub fn set_if_then(&self, then_expr: Arc<ExprNode>) -> (r: Arc<Self>)
        requires
            self@.expr is If,
        ensures
            r@ == (SNode {
                expr: SExpr::If(self@.expr->If_0, Box::new(then_expr@), self@.expr->If_2),
                ..self@
            }),
    {
        let mut ret = self.copy();
        match &*self.expr {
            Expr::If(cond, _, else_expr) => {
                ret.expr = Arc::new(Expr::If(cond.clone(), then_expr, else_expr.clone()));
            },
            _ => {},
        }
        Arc::new(ret)
    }

    pub fn set_if_else(&self, else_expr: Arc<ExprNode>) -> (r: Arc<Self>)
        requires
            self@.expr is If,
        ensures
            r@ == (SNode {
                expr: SExpr::If(self@.expr->If_0, self@.expr->If_1, Box::new(else_expr@)),
                ..self@
            }),
    {
        let mut ret = self.copy();
        match &*self.expr {
            Expr::If(cond, then_expr, _) => {
                ret.expr = Arc::new(Expr::If(cond.clone(), then_expr.clone(), else_expr));
            },
            _ => {},
        }
        Arc::new(ret)
    }
}

/// How an expression is printed.
pub open spec fn expr_str(e: SExpr) -> Seq<char>
    decreases e,
{
    match e {
        SExpr::Var(v) => v.name,
        SExpr::Lit(l) => l.name,
        SExpr::App(f, a) => "("@ + expr_str(f.expr) + ") ("@ + expr_str(a.expr) + ")"@,
        SExpr::Lam(x, b) => "\\"@ + x.name + "->("@ + expr_str(b.expr) + ")"@,
        SExpr::Let(x, b, v) => "let "@ + x.name + "="@ + expr_str(b.expr) + " in ("@ + expr_str(
            v.expr,
        ) + ")"@,
        SExpr::If(c, t, e) => "if "@ + expr_str(c.expr) + " then "@ + expr_str(t.expr)
            + " else ("@ + expr_str(e.expr) + ")"@,
    }
}

/// A fresh node holding an expression.
pub open spec fn s_node(e: SExpr, src: Option<Span>) -> SNode {
    SNode {
        expr: e,
        free_vars: None,
        source: src,
        app_order: AppSourceCodeOrderType::FunctionIsFormer,
    }
}

impl Expr {
    pub fn into_expr_info(self: &Arc<Self>, src: Option<Span>) -> (r: Arc<ExprNode>)
        ensures
            r@ == s_node((**self)@, src),
    {
        Arc::new(
            ExprNode {
                expr: self.clone(),
                free_vars: None,
                source: src,
                app_order: AppSourceCodeOrderType::FunctionIsFormer,
            },
        )
    }

    pub fn to_string(&self) -> (r: String)
        ensures
            r@ == expr_str(self@),
        decreases self,
    {
        match self {
            Expr::Var(v) => copy_string(&v.name),
            Expr::Lit(l) => copy_string(&l.name),
            Expr::App(f, a) => {
                let mut r = String::from_str("(");
                r.append(f.expr.to_string().as_str());
                r.append(") (");
                r.append(a.expr.to_string().as_str());
                r.append(")");
                r
            },
            Expr::Lam(x, fx) => {
                let mut r = String::from_str("\\");
                r.append(x.name.as_str());
                r.append("->(");
                r.append(fx.expr.to_string().as_str());
                r.append(")");
                r
            },
            Expr::Let(x, b, v) => {
                let mut r = String::from_str("let ");
                r.append(x.name.as_str());
                r.append("=");
                r.append(b.expr.to_string().as_str());
                r.append(" in (");
                r.append(v.expr.to_string().as_str());
                r.append(")");
                r
            },
            Expr::If(c, t, e) => {
                let mut r = String::from_str("if ");
                r.append(c.expr.to_string().as_str());
                r.append(" then ");
                r.append(t.expr.to_string().as_str());
                r.append(" else (");
                r.append(e.expr.to_string().as_str());
                r.append(")");
                r
            },
        }
    }
}

/// The abstract value of a fresh variable.
pub open spec fn s_var_of(
    name: Seq<char>,
    namespace: Option<Seq<Seq<char>>>,
    type_annotation: Option<SScheme>,
    src: Option<Span>,
) -> SVar {
    SVar { name, namespace, type_annotation, source: src }
}

pub fn var_var(
    var_name: &str,
    namespace: Option<NameSpace>,
    type_annotation: Option<Arc<Scheme>>,
    src: Option<Span>,
) -> (r: Arc<Var>)
    ensures
        r@ == s_var_of(
            var_name@,
            match namespace {
                Some(ns) => Some(ns@),
                None => None,
            },
            match type_annotation {
                Some(s) => Some(s@),
                None => None,
            },
            src,
        ),
{
    Arc::new(Var { name: String::from_str(var_name), namespace, type_annotation, source: src })
}

pub fn var_local(var_name: &str, type_annotation: Option<Arc<Scheme>>, src: Option<Span>) -> (r: Arc<
    Var,
>)
    ensures
        r@ == s_var_of(
            var_name@,
            Some(Seq::empty()),
            match type_annotation {
                Some(s) => Some(s@),
                None => None,
            },
            src,
        ),
{
    var_var(var_name, Some(NameSpace::local()), type_annotation, src)
}

pub fn expr_lit(
    generator: Arc<InlineLLVM>,
    free_vars: Vec<String>,
    name: String,
    ty: Arc<TypeNode>,
    src: Option<Span>,
) -> (r: Arc<ExprNode>)
    ensures
        r@ == s_node(
            SExpr::Lit(
                SLit {
                    generator: generator@,
                    free_vars: strings_view(free_vars@),
                    name: name@,
                    ty: ty@,
                },
            ),
            src,
        ),
{
    Arc::new(Expr::Lit(Arc::new(Literal { generator, free_vars, name, ty }))).into_expr_info(src)
}

pub fn expr_let(var: Arc<Var>, bound: Arc<ExprNode>, expr: Arc<ExprNode>, src: Option<Span>) -> (r:
    Arc<ExprNode>)
    ensures
        r@ == s_node(SExpr::Let(var@, Box::new(bound@), Box::new(expr@)), src),
{
    Arc::new(Expr::Let(var, bound, expr)).into_expr_info(src)
}

pub fn expr_abs(var: Arc<Var>, val: Arc<ExprNode>, src: Option<Span>) -> (r: Arc<ExprNode>)
    ensures
        r@ == s_node(SExpr::Lam(var@, Box::new(val@)), src),
{
    Arc::new(Expr::Lam(var, val)).into_expr_info(src)
}

pub fn expr_app(lam: Arc<ExprNode>, arg: Arc<ExprNode>, src: Option<Span>) -> (r: Arc<ExprNode>)
    ensures
        r@ == s_node(SExpr::App(Box::new(lam@), Box::new(arg@)), src),
{
    Arc::new(Expr::App(lam, arg)).into_expr_info(src)
}

/// A variable expression whose namespace is to be inferred.
pub fn expr_var(var_name: &str, src: Option<Span>) -> (r: Arc<ExprNode>)
    ensures
        r@ == s_node(SExpr::Var(s_var_of(var_name@, None, None, src)), src),
{
    Arc::new(Expr::Var(var_var(var_name, None, None, src))).into_expr_info(src)
}

pub fn expr_if(
    cond: Arc<ExprNode>,
    then_expr: Arc<ExprNode>,
    else_expr: Arc<ExprNode>,
    src: Option<Span>,
) -> (r: Arc<ExprNode>)
    ensures
        r@ == s_node(SExpr::If(Box::new(cond@), Box::new(then_expr@), Box::new(else_expr@)), src),
{
    Arc::new(Expr::If(cond, then_expr, else_expr)).into_expr_info(src)
}

/// Annotates every node of the tree with its free variables.
pub fn calculate_free_vars(ei: Arc<ExprNode>) -> (r: Arc<ExprNode>)
    ensures
        r@ == annotate(ei@),
    decreases ei,
{
    match &*ei.expr {
        Expr::Var(var) => {
            let mut free_vars = VarSet::new();
            free_vars.insert(copy_string(&var.name));
            assert(free_vars@ =~= set![var.name@]);
            ei.set_free_vars(free_vars)
        },
        Expr::Lit(lit) => {
            let free_vars = VarSet::from_vec(&lit.free_vars);
            ei.set_free_vars(free_vars)
        },
        Expr::App(func, arg) => {
            let func = calculate_free_vars(func.clone());
            let arg = calculate_free_vars(arg.clone());
            let mut free_vars = func.free_vars().copy();
            free_vars.extend(arg.free_vars());
            ei.set_app_func(func).set_app_arg(arg).set_free_vars(free_vars)
        },
        Expr::Lam(arg, body) => {
            let body = calculate_free_vars(body.clone());
            let mut free_vars = body.free_vars().copy();
            free_vars.remove(&arg.name);
            free_vars.remove(&String::from_str(SELF_NAME));
            ei.set_lam_body(body).set_free_vars(free_vars)
        },
        Expr::Let(var, bound, val) => {
            // The let is not recursive: the bound expression does not see the name it binds.
            let bound = calculate_free_vars(bound.clone());
            let val = calculate_free_vars(val.clone());
            let mut free_vars = val.free_vars().copy();
            free_vars.remove(&var.name);
            free_vars.extend(bound.free_vars());
            ei.set_let_bound(bound).set_let_value(val).set_free_vars(free_vars)
        },
        Expr::If(cond, then_expr, else_expr) => {
            let cond = calculate_free_vars(cond.clone());
            let then_expr = calculate_free_vars(then_expr.clone());
            let else_expr = calculate_free_vars(else_expr.clone());
            let mut free_vars = cond.free_vars().copy();
            free_vars.extend(then_expr.free_vars());
            free_vars.extend(else_expr.free_vars());
            ei.set_if_cond(cond).set_if_then(then_expr).set_if_else(else_expr).set_free_vars(
                free_vars,
            )
        },
    }
}

} // verus!
