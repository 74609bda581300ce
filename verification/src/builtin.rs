//! Built-in type constructors, types and literals.

use crate::constants::{
    ARRAY_NAME, BOOL_NAME, DESTRUCTOR_OBJECT_NAME, DYNAMIC_OBJECT_NAME, F32_NAME, F64_NAME,
    FUNPTR_ARGS_MAX, FUNPTR_NAME, I32_NAME, I64_NAME, IO_NAME, PTR_NAME, STD_NAME, STRING_NAME,
    U32_NAME, U64_NAME, U8_NAME,
};
use crate::decimal::{
    dec_str, lemma_dec_str, lemma_dec_str_injective, parse_digits_u32, parse_digits_u32_spec, parse_u32,
    parse_u32_spec, u64_to_string,
};
use crate::expr::{expr_lit, s_node, ExprNode, SExpr, SLit, SNode, Span};
use crate::inline_llvm::{BuiltinOp, InlineLLVM, SGen};
use crate::name::{strings_view, FullName, Name, NameSpace, SFullName};
use crate::types::{
    fields_view, kind_arrow, kind_star, s_app, s_std, s_var, std_ns, tycon, type_tycon,
    type_tyapp, type_tyvar_star, Field, Kind, SField, SType, TyCon, TypeNode,
};
use std::sync::Arc;
use vstd::prelude::*;

verus! {

pub const LOOP_RESULT_NAME: &'static str = "LoopResult";

pub const TUPLE_NAME: &'static str = "Tuple";

/// A name in the namespace `Std`.
pub open spec fn std_full(name: Seq<char>) -> SFullName {
    SFullName { namespace: std_ns(), name }
}

/// The namespace `Std`.
pub fn std_namespace() -> (r: NameSpace)
    ensures
        r@ == std_ns(),
{
    let mut names: Vec<String> = Vec::new();
    names.push(String::from_str(STD_NAME));
    let r = NameSpace::new(names);
    assert(r@ =~= std_ns());
    r
}

/// The full name `Std::{name}`.
pub fn std_name(name: &str) -> (r: FullName)
    ensures
        r@ == std_full(name@),
{
    FullName { namespace: std_namespace(), name: String::from_str(name) }
}

/// What a type constructor is.
#[derive(Clone, Copy)]
pub enum TyConVariant {
    Primitive,
    Array,
    Struct,
    Union,
    DynamicObject,
}

/// What the compiler knows of a type constructor.
pub struct TyConInfo {
    pub kind: Arc<Kind>,
    pub variant: TyConVariant,
    pub is_unbox: bool,
    pub tyvars: Vec<Name>,
    pub fields: Vec<Field>,
}

pub struct STyConInfo {
    pub kind: Kind,
    pub variant: TyConVariant,
    pub is_unbox: bool,
    pub tyvars: Seq<Seq<char>>,
    pub fields: Seq<SField>,
}

impl View for TyConInfo {
    type V = STyConInfo;

    open spec fn view(&self) -> STyConInfo {
        STyConInfo {
            kind: *self.kind,
            variant: self.variant,
            is_unbox: self.is_unbox,
            tyvars: strings_view(self.tyvars@),
            fields: fields_view(self.fields@),
        }
    }
}

/// `k` is the kind `* -> * -> ... -> *` of a constructor that takes `n` types.
pub open spec fn is_kind_fun(k: Kind, n: nat) -> bool
    decreases n,
{
    if n == 0 {
        k == Kind::Star
    } else {
        match k {
            Kind::Arrow(a, b) => *a == Kind::Star && is_kind_fun(*b, (n - 1) as nat),
            Kind::Star => false,
        }
    }
}

/// The kind of a constructor that takes `arity` types.
pub fn make_kind_fun(arity: u32) -> (r: Arc<Kind>)
    ensures
        is_kind_fun(*r, arity as nat),
{
    let mut res = kind_star();
    let mut i: u32 = 0;
    while i < arity
        invariant
            i <= arity,
            is_kind_fun(*res, i as nat),
        decreases arity - i,
    {
        res = kind_arrow(kind_star(), res);
        i = i + 1;
    }
    res
}

/// The names of the primitive types, in the order the table lists them.
pub open spec fn prim_names() -> Seq<Seq<char>> {
    seq!["Ptr"@, "U8"@, "I32"@, "U32"@, "I64"@, "U64"@, "Bool"@, "F32"@, "F64"@]
}

/// The type variables `a0, a1, ...` of a function pointer type.
pub open spec fn funptr_tyvars(n: nat) -> Seq<Seq<char>> {
    Seq::new(n, |i: int| "a"@ + dec_str(i as nat))
}

/// The name of the function pointer type constructor of the given arity.
pub open spec fn funptr_name(arity: nat) -> Seq<char> {
    "#FunPtr"@ + dec_str(arity)
}

/// The number of built-in type constructors.
pub open spec fn builtin_tycon_count() -> nat {
    11 + FUNPTR_ARGS_MAX as nat
}

/// Entry `i` of the table of built-in type constructors.
pub open spec fn builtin_tycon_entry(i: int, tc: SFullName, info: STyConInfo) -> bool {
    if 0 <= i < 9 {
        &&& tc == std_full(prim_names()[i])
        &&& is_kind_fun(info.kind, 0)
        &&& info.variant is Primitive
        &&& info.is_unbox
        &&& info.tyvars == Seq::<Seq<char>>::empty()
        &&& info.fields == Seq::<SField>::empty()
    } else if i == 9 {
        &&& tc == std_full("Array"@)
        &&& is_kind_fun(info.kind, 1)
        &&& info.variant is Array
        &&& !info.is_unbox
        &&& info.tyvars == seq!["a"@]
        &&& info.fields == seq![SField { name: "array_elem"@, ty: s_var("a"@) }]
    } else if 10 <= i < 10 + FUNPTR_ARGS_MAX {
        &&& tc == std_full(funptr_name((i - 9) as nat))
        &&& is_kind_fun(info.kind, (i - 9) as nat)
        &&& info.variant is Primitive
        &&& info.is_unbox
        &&& info.tyvars == funptr_tyvars((i - 9) as nat)
        &&& info.fields == Seq::<SField>::empty()
    } else {
        &&& i == 10 + FUNPTR_ARGS_MAX
        &&& tc == std_full("#DynamicObject"@)
        &&& is_kind_fun(info.kind, 0)
        &&& info.variant is DynamicObject
        &&& !info.is_unbox
        &&& info.tyvars == Seq::<Seq<char>>::empty()
        &&& info.fields == Seq::<SField>::empty()
    }
}

fn primitive_entry(name: &str) -> (r: (TyCon, TyConInfo))
    ensures
        r.0@ == std_full(name@),
        is_kind_fun(r.1@.kind, 0),
        r.1@.variant is Primitive,
        r.1@.is_unbox,
        r.1@.tyvars == Seq::<Seq<char>>::empty(),
        r.1@.fields == Seq::<SField>::empty(),
{
    let info = TyConInfo {
        kind: kind_star(),
        variant: TyConVariant::Primitive,
        is_unbox: true,
        tyvars: Vec::new(),
        fields: Vec::new(),
    };
    assert(info@.tyvars =~= Seq::<Seq<char>>::empty());
    assert(info@.fields =~= Seq::<SField>::empty());
    (TyCon::new(std_name(name)), info)
}

/// The type variables `a0, ..., a{n-1}`.
fn funptr_tyvar_names(n: u32) -> (r: Vec<String>)
    ensures
        strings_view(r@) == funptr_tyvars(n as nat),
{
    let mut r: Vec<String> = Vec::new();
    let mut i: u32 = 0;
    while i < n
        invariant
            i <= n,
            strings_view(r@) =~= funptr_tyvars(i as nat),
        decreases n - i,
    {
        let mut s = String::from_str("a");
        s.append(u64_to_string(i as u64).as_str());
        let ghost before = strings_view(r@);
        r.push(s);
        assert(strings_view(r@) =~= before.push("a"@ + dec_str(i as nat)));
        i = i + 1;
    }
    r
}

/// The built-in type constructors: the primitive types, `Array`, the function pointers of
/// each arity up to the maximum, and the dynamic object. No constructor is listed twice
/// (see `lemma_builtin_tycons_distinct`).
pub fn bulitin_tycons() -> (r: Vec<(TyCon, TyConInfo)>)
    ensures
        r@.len() == builtin_tycon_count(),
        forall|i: int|
            0 <= i < r@.len() ==> builtin_tycon_entry(i, #[trigger] r@[i].0@, r@[i].1@),
{
    let mut ret: Vec<(TyCon, TyConInfo)> = Vec::new();
    ret.push(primitive_entry(PTR_NAME));
    ret.push(primitive_entry(U8_NAME));
    ret.push(primitive_entry(I32_NAME));
    ret.push(primitive_entry(U32_NAME));
    ret.push(primitive_entry(I64_NAME));
    ret.push(primitive_entry(U64_NAME));
    ret.push(primitive_entry(BOOL_NAME));
    ret.push(primitive_entry(F32_NAME));
    ret.push(primitive_entry(F64_NAME));
    assert forall|i: int| 0 <= i < 9 implies builtin_tycon_entry(
        i,
        #[trigger] ret@[i].0@,
        ret@[i].1@,
    ) by {}
    // IO and String are defined in the source code of Std.
    let mut array_tyvars: Vec<String> = Vec::new();
    array_tyvars.push(String::from_str("a"));
    let mut array_fields: Vec<Field> = Vec::new();
    array_fields.push(Field { name: String::from_str("array_elem"), ty: type_tyvar_star("a") });
    let array_info = TyConInfo {
        kind: kind_arrow(kind_star(), kind_star()),
        variant: TyConVariant::Array,
        is_unbox: false,
        tyvars: array_tyvars,
        fields: array_fields,
    };
    assert(array_info@.tyvars =~= seq!["a"@]);
    assert(array_info@.fields =~= seq![SField { name: "array_elem"@, ty: s_var("a"@) }]);
    ret.push((make_array_tycon(), array_info));
    assert(builtin_tycon_entry(9, ret@[9].0@, ret@[9].1@));
    let mut arity: u32 = 1;
    while arity <= FUNPTR_ARGS_MAX
        invariant
            1 <= arity <= FUNPTR_ARGS_MAX + 1,
            ret@.len() == 9 + arity,
            forall|i: int|
                0 <= i < ret@.len() ==> builtin_tycon_entry(i, #[trigger] ret@[i].0@, ret@[i].1@),
        decreases FUNPTR_ARGS_MAX + 1 - arity,
    {
        let info = TyConInfo {
            kind: make_kind_fun(arity),
            variant: TyConVariant::Primitive,
            is_unbox: true,
            tyvars: funptr_tyvar_names(arity),
            fields: Vec::new(),
        };
        assert(info@.fields =~= Seq::<SField>::empty());
        ret.push((make_funptr_tycon(arity), info));
        assert(builtin_tycon_entry(9 + arity, ret@[9 + arity].0@, ret@[9 + arity].1@));
        arity = arity + 1;
    }
    // The opaque object.
    let dyn_info = TyConInfo {
        kind: kind_star(),
        variant: TyConVariant::DynamicObject,
        is_unbox: false,
        tyvars: Vec::new(),
        fields: Vec::new(),
    };
    assert(dyn_info@.tyvars =~= Seq::<Seq<char>>::empty());
    assert(dyn_info@.fields =~= Seq::<SField>::empty());
    ret.push((TyCon::new(make_dynamic_object_name()), dyn_info));
    assert(builtin_tycon_entry(110, ret@[110].0@, ret@[110].1@));
    ret
}

/// The length and the first two characters of the names of the first ten entries.
pub open spec fn entry_name_sig(i: int) -> (nat, char, char) {
    if i == 0 {
        (3, 'P', 't')
    } else if i == 1 {
        (2, 'U', '8')
    } else if i == 2 {
        (3, 'I', '3')
    } else if i == 3 {
        (3, 'U', '3')
    } else if i == 4 {
        (3, 'I', '6')
    } else if i == 5 {
        (3, 'U', '6')
    } else if i == 6 {
        (4, 'B', 'o')
    } else if i == 7 {
        (3, 'F', '3')
    } else if i == 8 {
        (3, 'F', '6')
    } else {
        (5, 'A', 'r')
    }
}

proof fn lemma_entry_name_sig(i: int, tc: SFullName, info: STyConInfo)
    requires
        0 <= i < builtin_tycon_count(),
        builtin_tycon_entry(i, tc, info),
    ensures
        tc.namespace == std_ns(),
        tc.name.len() >= 2,
        i < 10 ==> (tc.name.len(), tc.name[0], tc.name[1]) == entry_name_sig(i),
        10 <= i < 110 ==> tc.name.len() >= 8 && tc.name[0] == '#' && tc.name[1] == 'F'
            && tc.name.subrange(7, tc.name.len() as int) == dec_str((i - 9) as nat),
        i == 110 ==> tc.name.len() == 14 && tc.name[0] == '#' && tc.name[1] == 'D',
{
    reveal_strlit("Ptr");
    reveal_strlit("U8");
    reveal_strlit("I32");
    reveal_strlit("U32");
    reveal_strlit("I64");
    reveal_strlit("U64");
    reveal_strlit("Bool");
    reveal_strlit("F32");
    reveal_strlit("F64");
    reveal_strlit("Array");
    reveal_strlit("#FunPtr");
    reveal_strlit("#DynamicObject");
    if i == 0 {
    } else if i == 1 {
    } else if i == 2 {
    } else if i == 3 {
    } else if i == 4 {
    } else if i == 5 {
    } else if i == 6 {
    } else if i == 7 {
    } else if i == 8 {
    } else if i == 9 {
    } else if i < 110 {
        lemma_dec_str((i - 9) as nat);
        assert(tc.name.subrange(7, tc.name.len() as int) =~= dec_str((i - 9) as nat));
    } else {
    }
}

/// Two built-in type constructors at different places of the table have different names.
pub proof fn lemma_builtin_tycons_distinct(
    i: int,
    j: int,
    ti: SFullName,
    tj: SFullName,
    a: STyConInfo,
    b: STyConInfo,
)
    requires
        0 <= i < builtin_tycon_count(),
        0 <= j < builtin_tycon_count(),
        i != j,
        builtin_tycon_entry(i, ti, a),
        builtin_tycon_entry(j, tj, b),
    ensures
        ti != tj,
{
    lemma_entry_name_sig(i, ti, a);
    lemma_entry_name_sig(j, tj, b);
    if ti == tj && 10 <= i < 110 && 10 <= j < 110 {
        lemma_dec_str_injective((i - 9) as nat, (j - 9) as nat);
    }
}

pub fn make_dynamic_object_name() -> (r: FullName)
    ensures
        r@ == std_full("#DynamicObject"@),
{
    std_name(DYNAMIC_OBJECT_NAME)
}

pub fn make_destructor_object_name() -> (r: FullName)
    ensures
        r@ == std_full("Destructor"@),
{
    std_name(DESTRUCTOR_OBJECT_NAME)
}

pub fn make_funptr_name(arity: u32) -> (r: Name)
    ensures
        r@ == funptr_name(arity as nat),
{
    let mut s = String::from_str(FUNPTR_NAME);
    s.append(u64_to_string(arity as u64).as_str());
    s
}

pub fn make_funptr_tycon(arity: u32) -> (r: TyCon)
    ensures
        r@ == std_full(funptr_name(arity as nat)),
{
    TyCon::new(FullName { namespace: std_namespace(), name: make_funptr_name(arity) })
}

pub fn make_array_tycon() -> (r: TyCon)
    ensures
        r@ == std_full("Array"@),
{
    TyCon::new(std_name(ARRAY_NAME))
}

/// Whether `s` begins with `prefix`.
pub open spec fn starts_with(s: Seq<char>, prefix: Seq<char>) -> bool {
    prefix.len() <= s.len() && s.subrange(0, prefix.len() as int) == prefix
}

/// What `is_funptr_tycon` decides: the arity written after `#FunPtr` in a name of `Std`.
pub open spec fn funptr_arity_spec(tc: SFullName) -> Option<u32> {
    if tc.namespace == std_ns() && starts_with(tc.name, "#FunPtr"@) {
        parse_u32_spec(tc.name.subrange(7, tc.name.len() as int))
    } else {
        None
    }
}

fn string_starts_with(s: &String, prefix: &str) -> (r: bool)
    ensures
        r == starts_with(s@, prefix@),
{
    let st = s.as_str();
    let n = prefix.unicode_len();
    let m = st.unicode_len();
    if n > m {
        return false;
    }
    let mut i: usize = 0;
    while i < n
        invariant
            i <= n <= m,
            n == prefix@.len(),
            m == s@.len(),
            st@ == s@,
            forall|k: int| 0 <= k < i ==> s@[k] == prefix@[k],
        decreases n - i,
    {
        if st.get_char(i) != prefix.get_char(i) {
            assert(s@.subrange(0, n as int)[i as int] != prefix@[i as int]);
            return false;
        }
        i = i + 1;
    }
    assert(s@.subrange(0, n as int) =~= prefix@);
    true
}

/// The characters of a string from position `start` on.
fn string_skip(s: &String, start: usize) -> (r: String)
    requires
        start <= s@.len(),
    ensures
        r@ == s@.subrange(start as int, s@.len() as int),
{
    let st = s.as_str();
    let m = st.unicode_len();
    st.substring_char(start, m).to_owned()
}

/// If the type constructor is a function pointer, its arity.
pub fn is_funptr_tycon(tc: &TyCon) -> (r: Option<u32>)
    requires
        tc@.namespace == std_ns() && starts_with(tc@.name, "#FunPtr"@) ==> parse_u32_spec(
            tc@.name.subrange(7, tc@.name.len() as int),
        ) is Some,
    ensures
        r == funptr_arity_spec(tc@),
{
    if !tc.name.namespace.is_equal(&std_namespace()) {
        return None;
    }
    if !string_starts_with(&tc.name.name, FUNPTR_NAME) {
        return None;
    }
    proof {
        reveal_strlit("#FunPtr");
    }
    let number = string_skip(&tc.name.name, 7);
    parse_u32(number.as_str())
}

/// Whether the type constructor is the dynamic object.
pub fn is_dynamic_object_tycon(tc: &TyCon) -> (r: bool)
    ensures
        r == (tc@ == std_full("#DynamicObject"@)),
{
    tc.name.is_equal(&make_dynamic_object_name())
}

/// Whether the type constructor is `Std::Destructor`.
pub fn is_destructor_object_tycon(tc: &TyCon) -> (r: bool)
    ensures
        r == (tc@ == std_full("Destructor"@)),
{
    tc.name.is_equal(&make_destructor_object_name())
}

/// Whether the type constructor is the array.
pub fn is_array_tycon(tc: &TyCon) -> (r: bool)
    ensures
        r == (tc@ == std_full("Array"@)),
{
    tc.name.is_equal(&make_array_tycon().name)
}

/// The type of a type constructor of `Std`.
fn std_type(name: &str) -> (r: Arc<TypeNode>)
    ensures
        r@ == s_std(name@),
{
    type_tycon(&tycon(std_name(name)))
}

pub fn make_ptr_ty() -> (r: Arc<TypeNode>)
    ensures
        r@ == s_std("Ptr"@),
{
    std_type(PTR_NAME)
}

pub fn make_u8_ty() -> (r: Arc<TypeNode>)
    ensures
        r@ == s_std("U8"@),
{
    std_type(U8_NAME)
}

pub fn make_i32_ty() -> (r: Arc<TypeNode>)
    ensures
        r@ == s_std("I32"@),
{
    std_type(I32_NAME)
}

pub fn make_u32_ty() -> (r: Arc<TypeNode>)
    ensures
        r@ == s_std("U32"@),
{
    std_type(U32_NAME)
}

pub fn make_i64_ty() -> (r: Arc<TypeNode>)
    ensures
        r@ == s_std("I64"@),
{
    std_type(I64_NAME)
}

pub fn make_u64_ty() -> (r: Arc<TypeNode>)
    ensures
        r@ == s_std("U64"@),
{
    std_type(U64_NAME)
}

pub fn make_f32_ty() -> (r: Arc<TypeNode>)
    ensures
        r@ == s_std("F32"@),
{
    std_type(F32_NAME)
}

pub fn make_f64_ty() -> (r: Arc<TypeNode>)
    ensures
        r@ == s_std("F64"@),
{
    std_type(F64_NAME)
}

pub fn make_bool_ty() -> (r: Arc<TypeNode>)
    ensures
        r@ == s_std("Bool"@),
{
    std_type(BOOL_NAME)
}

pub fn make_array_ty() -> (r: Arc<TypeNode>)
    ensures
        r@ == s_std("Array"@),
{
    std_type(ARRAY_NAME)
}

pub fn make_string_ty() -> (r: Arc<TypeNode>)
    ensures
        r@ == s_std("String"@),
{
    std_type(STRING_NAME)
}

pub fn make_loop_result_ty() -> (r: Arc<TypeNode>)
    ensures
        r@ == s_std("LoopResult"@),
{
    std_type(LOOP_RESULT_NAME)
}

pub fn make_dynamic_object_ty() -> (r: Arc<TypeNode>)
    ensures
        r@ == s_std("#DynamicObject"@),
{
    std_type(DYNAMIC_OBJECT_NAME)
}

/// A type constructor applied to types, left to right.
pub open spec fn apply_types(head: SType, args: Seq<SType>) -> SType
    decreases args.len(),
{
    if args.len() == 0 {
        head
    } else {
        s_app(apply_types(head, args.drop_last()), args.last())
    }
}

pub open spec fn types_view(v: Seq<Arc<TypeNode>>) -> Seq<SType> {
    v.map_values(|t: Arc<TypeNode>| t@)
}

/// The name of the tuple of the given size.
pub open spec fn tuple_name(size: nat) -> Seq<char> {
    "Tuple"@ + dec_str(size)
}

/// The tuple type of the given field types.
pub open spec fn tuple_type(fields: Seq<SType>) -> SType {
    apply_types(s_std(tuple_name(fields.len())), fields)
}

/// The tuple type of the given field types.
pub fn make_tuple_ty(tys: Vec<Arc<TypeNode>>) -> (r: Arc<TypeNode>)
    requires
        tys@.len() <= FUNPTR_ARGS_MAX,
    ensures
        r@ == tuple_type(types_view(tys@)),
{
    let n = tys.len();
    let mut ty = type_tycon(&tycon(make_tuple_name(n as u32)));
    let mut i: usize = 0;
    while i < n
        invariant
            n == tys@.len(),
            i <= n,
            ty@ == apply_types(s_std(tuple_name(n as nat)), types_view(tys@).subrange(0, i as int)),
        decreases n - i,
    {
        ty = type_tyapp(ty, tys[i].clone());
        i = i + 1;
        assert(types_view(tys@).subrange(0, i as int).drop_last() =~= types_view(tys@).subrange(
            0,
            i - 1,
        ));
    }
    assert(types_view(tys@).subrange(0, n as int) =~= types_view(tys@));
    ty
}

pub fn make_tuple_name(size: u32) -> (r: FullName)
    ensures
        r@ == std_full(tuple_name(size as nat)),
{
    let mut name = String::from_str(TUPLE_NAME);
    name.append(u64_to_string(size as u64).as_str());
    FullName { namespace: std_namespace(), name }
}

/// The unit type `()`, the tuple of no fields.
pub fn make_unit_ty() -> (r: Arc<TypeNode>)
    ensures
        r@ == tuple_type(Seq::empty()),
{
    let r = make_tuple_ty(Vec::new());
    assert(types_view(Seq::<Arc<TypeNode>>::empty()) =~= Seq::<SType>::empty());
    r
}

/// The type `IO ()`.
pub fn make_io_unit_ty() -> (r: Arc<TypeNode>)
    ensures
        r@ == s_app(s_std("IO"@), tuple_type(Seq::empty())),
{
    type_tyapp(std_type(IO_NAME), make_unit_ty())
}

/// The number of bytes that UTF-8 takes for a character.
pub open spec fn char_utf8_len(c: char) -> nat {
    if (c as u32) < 0x80 {
        1
    } else if (c as u32) < 0x800 {
        2
    } else if (c as u32) < 0x10000 {
        3
    } else {
        4
    }
}

/// The number of bytes that UTF-8 takes for a string.
pub open spec fn utf8_len(s: Seq<char>) -> nat
    decreases s.len(),
{
    if s.len() == 0 {
        0
    } else {
        utf8_len(s.drop_last()) + char_utf8_len(s.last())
    }
}

/// Whether byte `b` of the UTF-8 form of `s` starts a character (or ends the string).
pub open spec fn is_char_boundary(s: Seq<char>, b: nat) -> bool {
    exists|k: int| 0 <= k <= s.len() && #[trigger] utf8_len(s.subrange(0, k)) == b
}

/// What `get_tuple_n` decides: the size written in decimal digits after `Tuple` in a name
/// of `Std`.
pub open spec fn tuple_n_spec(name: SFullName) -> Option<u32> {
    if name.namespace == std_ns() && starts_with(name.name, "Tuple"@) {
        parse_digits_u32_spec(name.name.subrange(5, name.name.len() as int))
    } else {
        None
    }
}

/// If the name is `Std::Tuple` followed by decimal digits alone, the number they write.
pub fn get_tuple_n(name: &FullName) -> (r: Option<u32>)
    requires
        name@.namespace == std_ns() && utf8_len(name@.name) >= 5 ==> is_char_boundary(
            name@.name,
            5,
        ),
    ensures
        r == tuple_n_spec(name@),
{
    if !name.namespace.is_equal(&std_namespace()) {
        return None;
    }
    if !string_starts_with(&name.name, TUPLE_NAME) {
        return None;
    }
    proof {
        reveal_strlit("Tuple");
    }
    let number_str = string_skip(&name.name, 5);
    parse_digits_u32(number_str.as_str())
}

/// Reading back the size of a tuple name gives the size.
pub proof fn lemma_get_tuple_n_of_tuple_name(size: u32)
    ensures
        tuple_n_spec(std_full(tuple_name(size as nat))) == Some(size),
{
    reveal_strlit("Tuple");
    lemma_dec_str(size as nat);
    let n = tuple_name(size as nat);
    assert(n.subrange(0, 5) =~= "Tuple"@);
    assert(n.subrange(5, n.len() as int) =~= dec_str(size as nat));
    crate::decimal::lemma_parse_dec_str(size as nat);
}

/// Reading back the arity of a function pointer name gives the arity.
pub proof fn lemma_is_funptr_tycon_of_funptr_name(arity: u32)
    ensures
        funptr_arity_spec(std_full(funptr_name(arity as nat))) == Some(arity),
{
    reveal_strlit("#FunPtr");
    lemma_dec_str(arity as nat);
    let n = funptr_name(arity as nat);
    assert(n.subrange(0, 7) =~= "#FunPtr"@);
    assert(n.subrange(7, n.len() as int) =~= dec_str(arity as nat));
    crate::decimal::lemma_parse_dec_str(arity as nat);
}

/// A literal node with no source.
pub open spec fn s_lit(gen: SGen, free_vars: Seq<Seq<char>>, name: Seq<char>, ty: SType) -> SNode {
    s_node(SExpr::Lit(SLit { generator: gen, free_vars, name, ty }), None)
}

/// An integer literal of the given integral type.
pub fn expr_int_lit(val: u64, ty: Arc<TypeNode>, source: Option<Span>) -> (r: Arc<ExprNode>)
    ensures
        r@ == s_node(
            SExpr::Lit(
                SLit {
                    generator: SGen::Op(BuiltinOp::IntLit(val)),
                    free_vars: Seq::empty(),
                    name: dec_str(val as nat),
                    ty: ty@,
                },
            ),
            source,
        ),
{
    let r = expr_lit(
        Arc::new(InlineLLVM::Op(BuiltinOp::IntLit(val))),
        Vec::new(),
        u64_to_string(val),
        ty,
        source,
    );
    assert(strings_view(Seq::<String>::empty()) =~= Seq::<Seq<char>>::empty());
    r
}

/// The null pointer literal.
pub fn expr_nullptr_lit(source: Option<Span>) -> (r: Arc<ExprNode>)
    ensures
        r@ == s_node(
            SExpr::Lit(
                SLit {
                    generator: SGen::Op(BuiltinOp::NullPtrLit),
                    free_vars: Seq::empty(),
                    name: "nullptr_literal"@,
                    ty: s_std("Ptr"@),
                },
            ),
            source,
        ),
{
    let r = expr_lit(
        Arc::new(InlineLLVM::Op(BuiltinOp::NullPtrLit)),
        Vec::new(),
        String::from_str("nullptr_literal"),
        make_ptr_ty(),
        source,
    );
    assert(strings_view(Seq::<String>::empty()) =~= Seq::<Seq<char>>::empty());
    r
}

/// How a boolean is printed.
pub open spec fn bool_str(b: bool) -> Seq<char> {
    if b {
        "true"@
    } else {
        "false"@
    }
}

/// A boolean literal.
pub fn expr_bool_lit(val: bool, source: Option<Span>) -> (r: Arc<ExprNode>)
    ensures
        r@ == s_node(
            SExpr::Lit(
                SLit {
                    generator: SGen::Op(BuiltinOp::BoolLit(val)),
                    free_vars: Seq::empty(),
                    name: bool_str(val),
                    ty: s_std("Bool"@),
                },
            ),
            source,
        ),
{
    let name = if val {
        String::from_str("true")
    } else {
        String::from_str("false")
    };
    let r = expr_lit(
        Arc::new(InlineLLVM::Op(BuiltinOp::BoolLit(val))),
        Vec::new(),
        name,
        make_bool_ty(),
        source,
    );
    assert(strings_view(Seq::<String>::empty()) =~= Seq::<Seq<char>>::empty());
    r
}

/// A string literal.
pub fn make_string_from_rust_string(string: String, source: Option<Span>) -> (r: Arc<ExprNode>)
    ensures
        r@ == s_node(
            SExpr::Lit(
                SLit {
                    generator: SGen::StringLit(string@),
                    free_vars: Seq::empty(),
                    name: "string_literal"@,
                    ty: s_std("String"@),
                },
            ),
            source,
        ),
{
    let r = expr_lit(
        Arc::new(InlineLLVM::StringLit(string)),
        Vec::new(),
        String::from_str("string_literal"),
        make_string_ty(),
        source,
    );
    assert(strings_view(Seq::<String>::empty()) =~= Seq::<Seq<char>>::empty());
    r
}

} // verus!
