//! Kinds, types, type schemes and type definitions.

use crate::name::{
    copy_string, full_name_str, join, string_eq, strings_view, FullName, Name, SFullName,
};
use std::sync::Arc;
use vstd::prelude::*;

verus! {

/// The kind of a type: `*`, or an arrow between kinds.
pub enum Kind {
    Star,
    Arrow(Arc<Kind>, Arc<Kind>),
}

pub fn kind_star() -> (k: Arc<Kind>)
    ensures
        *k == Kind::Star,
{
    Arc::new(Kind::Star)
}

pub fn kind_arrow(src: Arc<Kind>, dst: Arc<Kind>) -> (k: Arc<Kind>)
    ensures
        *k == Kind::Arrow(src, dst),
{
    Arc::new(Kind::Arrow(src, dst))
}

/// A type constructor, named by its full name.
pub struct TyCon {
    pub name: FullName,
}

impl View for TyCon {
    type V = SFullName;

    open spec fn view(&self) -> SFullName {
        self.name@
    }
}

/// The namespace `Std`.
pub open spec fn std_ns() -> Seq<Seq<char>> {
    seq!["Std"@]
}

/// Whether a type constructor is one of the signed integer types of `Std`.
pub open spec fn is_signed_integer_tycon(tc: SFullName) -> bool {
    tc.namespace == std_ns() && (tc.name == "I8"@ || tc.name == "I16"@ || tc.name == "I32"@
        || tc.name == "I64"@)
}

impl TyCon {
    pub fn new(name: FullName) -> (r: TyCon)
        ensures
            r@ == name@,
    {
        TyCon { name }
    }

    /// Whether this is a signed integer type (`I8`, `I16`, `I32` or `I64` of `Std`).
    pub fn is_singned_intger(&self) -> (r: bool)
        ensures
            r == is_signed_integer_tycon(self@),
    {
        let std_name = String::from_str("Std");
        let ns_ok = self.name.namespace.names.len() == 1 && string_eq(
            &self.name.namespace.names[0],
            &std_name,
        );
        proof {
            if self.name.namespace@.len() == 1 {
                if self.name.namespace@[0] == "Std"@ {
                    assert(self.name.namespace@ =~= std_ns());
                }
            }
        }
        if !ns_ok {
            return false;
        }
        let n = &self.name.name;
        string_eq(n, &String::from_str("I8")) || string_eq(n, &String::from_str("I16"))
            || string_eq(n, &String::from_str("I32")) || string_eq(n, &String::from_str("I64"))
    }

    pub fn copy(&self) -> (r: TyCon)
        ensures
            r@ == self@,
    {
        TyCon { name: self.name.copy() }
    }
}

pub fn tycon(name: FullName) -> (r: Arc<TyCon>)
    ensures
        r@ == name@,
{
    Arc::new(TyCon::new(name))
}

/// A type variable with its kind.
pub struct TyVar {
    pub name: Name,
    pub kind: Arc<Kind>,
}

pub fn tyvar_from_name(name: &str, kind: &Arc<Kind>) -> (r: Arc<TyVar>)
    ensures
        r.name@ == name@,
        r.kind == *kind,
{
    Arc::new(TyVar { name: String::from_str(name), kind: kind.clone() })
}

/// A type: a variable, a constructor, an application, or a function type.
pub enum TypeNode {
    TyVar(Arc<TyVar>),
    TyCon(Arc<TyCon>),
    TyApp(Arc<TypeNode>, Arc<TypeNode>),
    TyFun(Arc<TypeNode>, Arc<TypeNode>),
}

/// The abstract value of a type.
pub enum SType {
    Var(Seq<char>, Kind),
    Con(SFullName),
    App(Box<SType>, Box<SType>),
    Fun(Box<SType>, Box<SType>),
}

pub open spec fn type_view(t: TypeNode) -> SType
    decreases t,
{
    match t {
        TypeNode::TyVar(v) => SType::Var(v.name@, *v.kind),
        TypeNode::TyCon(tc) => SType::Con(tc.name@),
        TypeNode::TyApp(f, a) => SType::App(Box::new(type_view(*f)), Box::new(type_view(*a))),
        TypeNode::TyFun(a, b) => SType::Fun(Box::new(type_view(*a)), Box::new(type_view(*b))),
    }
}

impl View for TypeNode {
    type V = SType;

    open spec fn view(&self) -> SType {
        type_view(*self)
    }
}

/// Shorthands for abstract types.
pub open spec fn s_var(name: Seq<char>) -> SType {
    SType::Var(name, Kind::Star)
}

pub open spec fn s_con(ns: Seq<Seq<char>>, name: Seq<char>) -> SType {
    SType::Con(SFullName { namespace: ns, name })
}

pub open spec fn s_std(name: Seq<char>) -> SType {
    s_con(std_ns(), name)
}

pub open spec fn s_app(f: SType, a: SType) -> SType {
    SType::App(Box::new(f), Box::new(a))
}

pub open spec fn s_fun(a: SType, b: SType) -> SType {
    SType::Fun(Box::new(a), Box::new(b))
}

pub fn type_tycon(tc: &Arc<TyCon>) -> (r: Arc<TypeNode>)
    ensures
        r@ == SType::Con(tc@),
{
    Arc::new(TypeNode::TyCon(tc.clone()))
}

pub fn type_tyvar(name: &str, kind: &Arc<Kind>) -> (r: Arc<TypeNode>)
    ensures
        r@ == SType::Var(name@, **kind),
{
    Arc::new(TypeNode::TyVar(tyvar_from_name(name, kind)))
}

pub fn type_tyvar_star(name: &str) -> (r: Arc<TypeNode>)
    ensures
        r@ == s_var(name@),
{
    type_tyvar(name, &kind_star())
}

pub fn type_tyapp(f: Arc<TypeNode>, a: Arc<TypeNode>) -> (r: Arc<TypeNode>)
    ensures
        r@ == s_app(f@, a@),
{
    Arc::new(TypeNode::TyApp(f, a))
}

pub fn type_fun(a: Arc<TypeNode>, b: Arc<TypeNode>) -> (r: Arc<TypeNode>)
    ensures
        r@ == s_fun(a@, b@),
{
    Arc::new(TypeNode::TyFun(a, b))
}

/// Wraps `s` in parentheses when `t` is an application or a function type.
pub open spec fn paren_if_compound(t: SType, s: Seq<char>) -> Seq<char> {
    match t {
        SType::App(_, _) | SType::Fun(_, _) => "("@ + s + ")"@,
        _ => s,
    }
}

/// Wraps `s` in parentheses when `t` is a function type.
pub open spec fn paren_if_fun(t: SType, s: Seq<char>) -> Seq<char> {
    match t {
        SType::Fun(_, _) => "("@ + s + ")"@,
        _ => s,
    }
}

/// How a type is printed: `Std::Array a`, `a -> b`, `(a -> b) -> c`.
pub open spec fn type_str(t: SType) -> Seq<char>
    decreases t,
{
    match t {
        SType::Var(n, _) => n,
        SType::Con(n) => full_name_str(n),
        SType::App(f, a) => type_str(*f) + " "@ + paren_if_compound(*a, type_str(*a)),
        SType::Fun(a, b) => paren_if_fun(*a, type_str(*a)) + " -> "@ + type_str(*b),
    }
}

/// The type variables of a type, with their kinds, in order of occurrence (repeats included).
pub open spec fn tyvar_occurrences(t: SType) -> Seq<(Seq<char>, Kind)>
    decreases t,
{
    match t {
        SType::Var(n, k) => seq![(n, k)],
        SType::Con(_) => Seq::empty(),
        SType::App(f, a) => tyvar_occurrences(*f) + tyvar_occurrences(*a),
        SType::Fun(a, b) => tyvar_occurrences(*a) + tyvar_occurrences(*b),
    }
}

/// The names in a list of named kinds.
pub open spec fn names_of(s: Seq<(Seq<char>, Kind)>) -> Seq<Seq<char>> {
    s.map_values(|p: (Seq<char>, Kind)| p.0)
}

/// Appends to `acc` each element of `s` whose name `acc` does not hold yet, in order.
pub open spec fn add_new_names(acc: Seq<(Seq<char>, Kind)>, s: Seq<(Seq<char>, Kind)>) -> Seq<
    (Seq<char>, Kind),
>
    decreases s.len(),
{
    if s.len() == 0 {
        acc
    } else {
        let acc2 = if names_of(acc).contains(s[0].0) {
            acc
        } else {
            acc.push(s[0])
        };
        add_new_names(acc2, s.drop_first())
    }
}

/// The free type variables of a type: each name once, with the kind of its first occurrence.
pub open spec fn free_tyvars(t: SType) -> Seq<(Seq<char>, Kind)> {
    add_new_names(Seq::empty(), tyvar_occurrences(t))
}

pub proof fn lemma_add_new_names_append(
    acc: Seq<(Seq<char>, Kind)>,
    s1: Seq<(Seq<char>, Kind)>,
    s2: Seq<(Seq<char>, Kind)>,
)
    ensures
        add_new_names(acc, s1 + s2) == add_new_names(add_new_names(acc, s1), s2),
    decreases s1.len(),
{
    if s1.len() == 0 {
        assert(s1 + s2 =~= s2);
    } else {
        let acc2 = if names_of(acc).contains(s1[0].0) {
            acc
        } else {
            acc.push(s1[0])
        };
        assert((s1 + s2).drop_first() =~= s1.drop_first() + s2);
        assert((s1 + s2)[0] == s1[0]);
        lemma_add_new_names_append(acc2, s1.drop_first(), s2);
    }
}

/// An element of a concatenation is an element of one of its parts.
pub proof fn lemma_contains_concat<A>(a: Seq<A>, b: Seq<A>, x: A)
    ensures
        (a + b).contains(x) <==> (a.contains(x) || b.contains(x)),
{
    if (a + b).contains(x) {
        let i = choose|i: int| 0 <= i < (a + b).len() && (a + b)[i] == x;
        if i < a.len() {
            assert(a[i] == x);
        } else {
            assert(b[i - a.len()] == x);
        }
    }
    if a.contains(x) {
        let i = choose|i: int| 0 <= i < a.len() && a[i] == x;
        assert((a + b)[i] == x);
    }
    if b.contains(x) {
        let i = choose|i: int| 0 <= i < b.len() && b[i] == x;
        assert((a + b)[i + a.len()] == x);
    }
}

/// An element of `a.push(y)` is `y` or an element of `a`.
pub proof fn lemma_contains_push<A>(a: Seq<A>, y: A, x: A)
    ensures
        a.push(y).contains(x) <==> (a.contains(x) || x == y),
{
    lemma_contains_concat(a, seq![y], x);
    assert(a.push(y) =~= a + seq![y]);
    if seq![y].contains(x) {
        let i = choose|i: int| 0 <= i < 1 && seq![y][i] == x;
    }
    if x == y {
        assert(seq![y][0] == x);
    }
}

/// The names of `add_new_names(acc, s)` are distinct when those of `acc` are, and they
/// are the names of `acc` and of `s`.
pub proof fn lemma_add_new_names_distinct(acc: Seq<(Seq<char>, Kind)>, s: Seq<(Seq<char>, Kind)>)
    requires
        names_of(acc).no_duplicates(),
    ensures
        names_of(add_new_names(acc, s)).no_duplicates(),
        forall|n: Seq<char>|
            #[trigger] names_of(add_new_names(acc, s)).contains(n) <==> (names_of(acc).contains(n)
                || names_of(s).contains(n)),
    decreases s.len(),
{
    if s.len() > 0 {
        let acc2 = if names_of(acc).contains(s[0].0) {
            acc
        } else {
            acc.push(s[0])
        };
        if !names_of(acc).contains(s[0].0) {
            assert(names_of(acc2) =~= names_of(acc).push(s[0].0));
            assert forall|i: int, j: int|
                0 <= i < j < names_of(acc2).len() implies names_of(acc2)[i] != names_of(acc2)[j] by {
                if j == names_of(acc2).len() - 1 {
                    assert(names_of(acc)[i] == names_of(acc2)[i]);
                }
            }
        }
        lemma_add_new_names_distinct(acc2, s.drop_first());
        assert(names_of(s) =~= seq![s[0].0] + names_of(s.drop_first()));
        assert forall|n: Seq<char>|
            #[trigger] names_of(add_new_names(acc, s)).contains(n) <==> (names_of(acc).contains(n)
                || names_of(s).contains(n)) by {
            lemma_contains_concat(seq![s[0].0], names_of(s.drop_first()), n);
            lemma_contains_push(seq![], s[0].0, n);
            assert(seq![s[0].0] =~= Seq::<Seq<char>>::empty().push(s[0].0));
            if !names_of(acc).contains(s[0].0) {
                lemma_contains_push(names_of(acc), s[0].0, n);
            }
        }
    }
}

/// The free type variables of a type have distinct names, and are exactly the names
/// of its type variables.
pub proof fn lemma_free_tyvars(t: SType)
    ensures
        names_of(free_tyvars(t)).no_duplicates(),
        forall|n: Seq<char>| #[trigger]
            names_of(free_tyvars(t)).contains(n) <==> names_of(tyvar_occurrences(t)).contains(n),
{
    assert(names_of(Seq::<(Seq<char>, Kind)>::empty()) =~= Seq::<Seq<char>>::empty());
    lemma_add_new_names_distinct(Seq::empty(), tyvar_occurrences(t));
}

/// Views of lists of named kinds.
pub open spec fn named_kinds_view(v: Seq<(String, Arc<Kind>)>) -> Seq<(Seq<char>, Kind)> {
    v.map_values(|p: (String, Arc<Kind>)| (p.0@, *p.1))
}

fn names_contain(v: &Vec<(String, Arc<Kind>)>, name: &String) -> (r: bool)
    ensures
        r == names_of(named_kinds_view(v@)).contains(name@),
{
    let mut i: usize = 0;
    while i < v.len()
        invariant
            i <= v.len(),
            forall|j: int| 0 <= j < i ==> v@[j].0@ != name@,
        decreases v.len() - i,
    {
        if string_eq(&v[i].0, name) {
            assert(names_of(named_kinds_view(v@))[i as int] == name@);
            return true;
        }
        i = i + 1;
    }
    assert forall|j: int| 0 <= j < names_of(named_kinds_view(v@)).len() implies names_of(
        named_kinds_view(v@),
    )[j] != name@ by {
        assert(names_of(named_kinds_view(v@))[j] == v@[j].0@);
    }
    false
}

impl TypeNode {
    /// Prints the type.
    pub fn to_string(&self) -> (r: String)
        ensures
            r@ == type_str(self@),
        decreases self,
    {
        match self {
            TypeNode::TyVar(v) => copy_string(&v.name),
            TypeNode::TyCon(tc) => tc.name.to_string(),
            TypeNode::TyApp(f, a) => {
                let mut r = f.to_string();
                r.append(" ");
                let s = a.to_string();
                let s = match &**a {
                    TypeNode::TyApp(_, _) | TypeNode::TyFun(_, _) => {
                        let mut p = String::from_str("(");
                        p.append(s.as_str());
                        p.append(")");
                        p
                    },
                    _ => s,
                };
                r.append(s.as_str());
                r
            },
            TypeNode::TyFun(a, b) => {
                let s = a.to_string();
                let mut r = match &**a {
                    TypeNode::TyFun(_, _) => {
                        let mut p = String::from_str("(");
                        p.append(s.as_str());
                        p.append(")");
                        p
                    },
                    _ => s,
                };
                r.append(" -> ");
                let t = b.to_string();
                r.append(t.as_str());
                r
            },
        }
    }

    /// The type constructor at the head of the type, if there is one.
    pub fn toplevel_tycon(&self) -> (r: Option<Arc<TyCon>>)
        ensures
            r matches Some(tc) ==> head_tycon(self@) == Some(tc@),
            r is None ==> head_tycon(self@) is None,
        decreases self,
    {
        match self {
            TypeNode::TyCon(tc) => Some(tc.clone()),
            TypeNode::TyApp(f, _) => f.toplevel_tycon(),
            _ => None,
        }
    }

    fn collect_tyvars(&self, acc: &mut Vec<(String, Arc<Kind>)>)
        ensures
            named_kinds_view(final(acc)@) == add_new_names(
                named_kinds_view(old(acc)@),
                tyvar_occurrences(self@),
            ),
        decreases self,
    {
        match self {
            TypeNode::TyVar(v) => {
                let ghost occ = tyvar_occurrences(self@);
                let ghost a0 = named_kinds_view(old(acc)@);
                assert(occ.drop_first() =~= Seq::<(Seq<char>, Kind)>::empty());
                assert(occ[0] == (v.name@, *v.kind));
                if !names_contain(acc, &v.name) {
                    acc.push((copy_string(&v.name), v.kind.clone()));
                    assert(named_kinds_view(acc@) =~= a0.push(occ[0]));
                }
                assert(add_new_names(named_kinds_view(acc@), occ.drop_first()) == named_kinds_view(
                    acc@,
                ));
            },
            TypeNode::TyCon(_) => {},
            TypeNode::TyApp(f, a) => {
                f.collect_tyvars(acc);
                a.collect_tyvars(acc);
                proof {
                    lemma_add_new_names_append(
                        named_kinds_view(old(acc)@),
                        tyvar_occurrences(f@),
                        tyvar_occurrences(a@),
                    );
                }
            },
            TypeNode::TyFun(f, a) => {
                f.collect_tyvars(acc);
                a.collect_tyvars(acc);
                proof {
                    lemma_add_new_names_append(
                        named_kinds_view(old(acc)@),
                        tyvar_occurrences(f@),
                        tyvar_occurrences(a@),
                    );
                }
            },
        }
    }

    /// The free type variables of the type, each once, with their kinds.
    pub fn free_vars(&self) -> (r: Vec<(Name, Arc<Kind>)>)
        ensures
            named_kinds_view(r@) == free_tyvars(self@),
    {
        let mut acc: Vec<(String, Arc<Kind>)> = Vec::new();
        assert(named_kinds_view(acc@) =~= Seq::<(Seq<char>, Kind)>::empty());
        self.collect_tyvars(&mut acc);
        acc
    }
}

/// The type constructor at the head of a type.
pub open spec fn head_tycon(t: SType) -> Option<SFullName>
    decreases t,
{
    match t {
        SType::Con(n) => Some(n),
        SType::App(f, _) => head_tycon(*f),
        _ => None,
    }
}

/// A trait, named by its full name.
pub struct TraitId {
    pub name: FullName,
}

impl View for TraitId {
    type V = SFullName;

    open spec fn view(&self) -> SFullName {
        self.name@
    }
}

/// A kind signature `tyvar : kind`, a constraint on the kind of a type variable.
pub struct KindSignature {
    pub tyvar: Name,
    pub kind: Arc<Kind>,
}

/// The abstract values of kind signatures.
pub open spec fn kind_sigs_view(v: Seq<KindSignature>) -> Seq<(Seq<char>, Kind)> {
    v.map_values(|k: KindSignature| (k.tyvar@, *k.kind))
}

/// A predicate `ty : trait_id`.
pub struct Predicate {
    pub trait_id: TraitId,
    pub ty: Arc<TypeNode>,
}

pub struct SPredicate {
    pub trait_id: SFullName,
    pub ty: SType,
}

impl View for Predicate {
    type V = SPredicate;

    open spec fn view(&self) -> SPredicate {
        SPredicate { trait_id: self.trait_id@, ty: self.ty@ }
    }
}

pub open spec fn preds_view(v: Seq<Predicate>) -> Seq<SPredicate> {
    v.map_values(|p: Predicate| p@)
}

impl Predicate {
    pub fn make(trait_id: TraitId, ty: Arc<TypeNode>) -> (r: Predicate)
        ensures
            r@ == (SPredicate { trait_id: trait_id@, ty: ty@ }),
    {
        Predicate { trait_id, ty }
    }
}

/// A type scheme: generalized type variables, predicates on them, and a type.
pub struct Scheme {
    pub gen_vars: Vec<Arc<TyVar>>,
    pub preds: Vec<Predicate>,
    pub ty: Arc<TypeNode>,
}

pub struct SScheme {
    pub gen_vars: Seq<(Seq<char>, Kind)>,
    pub preds: Seq<SPredicate>,
    pub ty: SType,
}

pub open spec fn tyvars_view(v: Seq<Arc<TyVar>>) -> Seq<(Seq<char>, Kind)> {
    v.map_values(|t: Arc<TyVar>| (t.name@, *t.kind))
}

impl View for Scheme {
    type V = SScheme;

    open spec fn view(&self) -> SScheme {
        SScheme { gen_vars: tyvars_view(self.gen_vars@), preds: preds_view(self.preds@), ty: self.ty@ }
    }
}

impl Scheme {
    /// Generalizes `ty` over the given type variables.
    pub fn generalize(vars: Vec<(Name, Arc<Kind>)>, preds: Vec<Predicate>, ty: Arc<TypeNode>) -> (r:
        Arc<Scheme>)
        ensures
            r@ == (SScheme { gen_vars: named_kinds_view(vars@), preds: preds_view(preds@), ty: ty@ }),
    {
        let mut gen_vars: Vec<Arc<TyVar>> = Vec::new();
        let mut i: usize = 0;
        while i < vars.len()
            invariant
                i <= vars.len(),
                tyvars_view(gen_vars@) =~= named_kinds_view(vars@.subrange(0, i as int)),
            decreases vars.len() - i,
        {
            gen_vars.push(Arc::new(TyVar { name: copy_string(&vars[i].0), kind: vars[i].1.clone() }));
            i = i + 1;
            assert(named_kinds_view(vars@.subrange(0, i as int)) =~= named_kinds_view(
                vars@.subrange(0, i - 1),
            ).push((vars@[i - 1].0@, *vars@[i - 1].1)));
        }
        assert(vars@.subrange(0, vars.len() as int) =~= vars@);
        Arc::new(Scheme { gen_vars, preds, ty })
    }
}

/// A field of a struct or a union.
pub struct Field {
    pub name: Name,
    pub ty: Arc<TypeNode>,
}

pub struct SField {
    pub name: Seq<char>,
    pub ty: SType,
}

impl View for Field {
    type V = SField;

    open spec fn view(&self) -> SField {
        SField { name: self.name@, ty: self.ty@ }
    }
}

pub open spec fn fields_view(v: Seq<Field>) -> Seq<SField> {
    v.map_values(|f: Field| f@)
}

pub struct Struct {
    pub fields: Vec<Field>,
    pub is_unbox: bool,
}

pub struct Union {
    pub fields: Vec<Field>,
    pub is_unbox: bool,
}

pub enum TypeDeclValue {
    Struct(Struct),
    Union(Union),
}

/// A definition of a struct or a union type.
pub struct TypeDefn {
    pub name: FullName,
    pub tyvars: Vec<Name>,
    pub value: TypeDeclValue,
}

pub struct STypeDefn {
    pub name: SFullName,
    pub tyvars: Seq<Seq<char>>,
    pub is_struct: bool,
    pub fields: Seq<SField>,
    pub is_unbox: bool,
}

impl View for TypeDefn {
    type V = STypeDefn;

    open spec fn view(&self) -> STypeDefn {
        match &self.value {
            TypeDeclValue::Struct(s) => STypeDefn {
                name: self.name@,
                tyvars: strings_view(self.tyvars@),
                is_struct: true,
                fields: fields_view(s.fields@),
                is_unbox: s.is_unbox,
            },
            TypeDeclValue::Union(u) => STypeDefn {
                name: self.name@,
                tyvars: strings_view(self.tyvars@),
                is_struct: false,
                fields: fields_view(u.fields@),
                is_unbox: u.is_unbox,
            },
        }
    }
}

/// The type constructor applied to the type variables, in order.
pub open spec fn apply_tyvars(head: SType, tyvars: Seq<Seq<char>>) -> SType
    decreases tyvars.len(),
{
    if tyvars.len() == 0 {
        head
    } else {
        s_app(apply_tyvars(head, tyvars.drop_last()), s_var(tyvars.last()))
    }
}

/// The type a definition defines.
pub open spec fn defn_type(d: STypeDefn) -> SType {
    apply_tyvars(SType::Con(d.name), d.tyvars)
}

/// The index of the first field with the given name.
pub open spec fn field_index(fields: Seq<SField>, name: Seq<char>) -> Option<nat>
    decreases fields.len(),
{
    if fields.len() == 0 {
        None
    } else if fields[0].name == name {
        Some(0)
    } else {
        match field_index(fields.drop_first(), name) {
            Some(i) => Some(i + 1),
            None => None,
        }
    }
}

pub proof fn lemma_field_index(fields: Seq<SField>, name: Seq<char>)
    ensures
        field_index(fields, name) matches Some(i) ==> i < fields.len() && fields[i as int].name
            == name && forall|j: int| 0 <= j < i ==> fields[j].name != name,
        field_index(fields, name) is None ==> forall|j: int|
            0 <= j < fields.len() ==> fields[j].name != name,
    decreases fields.len(),
{
    if fields.len() > 0 && fields[0].name != name {
        let p = fields.drop_first();
        lemma_field_index(p, name);
        assert forall|j: int| 0 <= j < p.len() implies #[trigger] p[j] == fields[j + 1] by {}
        match field_index(p, name) {
            Some(i) => {
                assert forall|j: int| 0 <= j < i + 1 implies fields[j].name != name by {
                    if j > 0 {
                        assert(p[j - 1] == fields[j]);
                    }
                }
            },
            None => {
                assert forall|j: int| 0 <= j < fields.len() implies fields[j].name != name by {
                    if j > 0 {
                        assert(p[j - 1] == fields[j]);
                    }
                }
            },
        }
    }
}

impl TypeDefn {
    pub fn fields(&self) -> (r: &Vec<Field>)
        ensures
            fields_view(r@) == self@.fields,
    {
        match &self.value {
            TypeDeclValue::Struct(s) => &s.fields,
            TypeDeclValue::Union(u) => &u.fields,
        }
    }

    /// The index and the field that has the given name, if any.
    pub fn get_field_by_name(&self, name: &str) -> (r: Option<(usize, &Field)>)
        ensures
            r matches Some(p) ==> field_index(self@.fields, name@) == Some(p.0 as nat)
                && p.1@ == self@.fields[p.0 as int],
            r is None ==> field_index(self@.fields, name@) is None,
    {
        let fields = self.fields();
        let target = String::from_str(name);
        let mut i: usize = 0;
        proof {
            lemma_field_index(self@.fields, name@);
        }
        while i < fields.len()
            invariant
                i <= fields.len(),
                fields_view(fields@) == self@.fields,
                target@ == name@,
                forall|j: int| 0 <= j < i ==> fields@[j].name@ != name@,
            decreases fields.len() - i,
        {
            if string_eq(&fields[i].name, &target) {
                proof {
                    lemma_field_index(self@.fields, name@);
                    assert(self@.fields[i as int].name == name@);
                    if let Some(k) = field_index(self@.fields, name@) {
                        assert(self@.fields[k as int].name == fields@[k as int].name@);
                    }
                }
                return Some((i, &fields[i]));
            }
            proof {
                assert(self@.fields[i as int].name == fields@[i as int].name@);
            }
            i = i + 1;
        }
        proof {
            if let Some(k) = field_index(self@.fields, name@) {
                assert(self@.fields[k as int].name == fields@[k as int].name@);
            }
        }
        None
    }

    /// The type this definition defines: its constructor applied to its type variables.
    pub fn ty(&self) -> (r: Arc<TypeNode>)
        ensures
            r@ == defn_type(self@),
    {
        let mut t = type_tycon(&tycon(self.name.copy()));
        let mut i: usize = 0;
        while i < self.tyvars.len()
            invariant
                i <= self.tyvars.len(),
                t@ == apply_tyvars(SType::Con(self@.name), self@.tyvars.subrange(0, i as int)),
            decreases self.tyvars.len() - i,
        {
            t = type_tyapp(t, type_tyvar_star(self.tyvars[i].as_str()));
            i = i + 1;
            assert(self@.tyvars.subrange(0, i as int).drop_last() =~= self@.tyvars.subrange(
                0,
                i - 1,
            ));
        }
        assert(self@.tyvars.subrange(0, self.tyvars.len() as int) =~= self@.tyvars);
        t
    }
}

} // verus!
