//! Built-in functions: each is a lambda over its arguments around a literal whose
//! generator does the work, together with its type scheme.

use crate::builtin::{
    make_array_ty, make_bool_ty, make_i64_ty, make_loop_result_ty, make_ptr_ty, make_string_ty,
    make_tuple_name, make_tuple_ty, make_unit_ty, s_lit, std_full, tuple_name, tuple_type,
    types_view,
};
use crate::constants::{FUNPTR_ARGS_MAX, SETTER_SYMBOL, STD_NAME, TUPLE_UNBOX};
use crate::decimal::{dec_str, u64_to_string};
use crate::expr::{
    expr_abs, expr_lit, fv, s_node, s_var_of, var_local, ExprNode, SExpr, SNode, CAP_NAME, SELF_NAME,
};
use crate::inline_llvm::{bit_op_str, BitOperationType, BuiltinOp, InlineLLVM, NumberFormat, SGen};
use crate::name::{copy_string, strings_view, FullName, Name, SFullName, full_name_str};
use crate::types::{
    defn_type, field_index, fields_view, free_tyvars, head_tycon, is_signed_integer_tycon,
    kind_star, named_kinds_view, preds_view, s_app, s_fun, s_std, s_var, type_fun, type_str,
    type_tyapp, type_tyvar, type_tyvar_star, Field, Kind, SField, SScheme, STypeDefn, SType,
    Scheme, Struct, TypeDeclValue, TypeDefn, TypeNode, Union,
};
use crate::decimal::int_str;
use crate::semantics::{
    cast_bits, eval_call, int_format, int_kind, int_value, lemma_widening_cast_keeps_value, value_of, Outcome,
    RtValue,
};
use std::sync::Arc;
use vstd::arithmetic::power2::pow2;
use vstd::prelude::*;

verus! {

/// A lambda over a local variable, with no source.
pub open spec fn s_lam(x: Seq<char>, body: SNode) -> SNode {
    s_node(SExpr::Lam(s_var_of(x, Some(Seq::empty()), None, None), Box::new(body)), None)
}

/// Lambdas over the names `xs`, the first outermost, around `body`.
pub open spec fn s_lams(xs: Seq<Seq<char>>, body: SNode) -> SNode
    decreases xs.len(),
{
    if xs.len() == 0 {
        body
    } else {
        s_lam(xs[0], s_lams(xs.drop_first(), body))
    }
}

/// The free variables of lambdas over `xs` are those of the body but `xs` and the name of the
/// function itself.
proof fn lemma_fv_lams(xs: Seq<Seq<char>>, body: SNode)
    requires
        xs.len() > 0,
    ensures
        fv(s_lams(xs, body).expr) == fv(body.expr).difference(xs.to_set()).remove(SELF_NAME@),
    decreases xs.len(),
{
    let rest = xs.drop_first();
    if rest.len() == 0 {
        assert(xs.to_set() =~= set![xs[0]]) by {
            assert forall|y: Seq<char>| xs.to_set().contains(y) <==> y == xs[0] by {
                if y == xs[0] {
                    assert(xs[0] == y);
                }
            }
        }
        assert(fv(s_lams(xs, body).expr) =~= fv(body.expr).difference(xs.to_set()).remove(
            SELF_NAME@,
        ));
    } else {
        lemma_fv_lams(rest, body);
        assert forall|y: Seq<char>| xs.to_set().contains(y) <==> (y == xs[0] || rest.to_set().contains(y)) by {
            if xs.to_set().contains(y) {
                let k = choose|k: int| 0 <= k < xs.len() && xs[k] == y;
                if k > 0 {
                    assert(rest[k - 1] == y);
                }
            }
            if rest.to_set().contains(y) {
                let k = choose|k: int| 0 <= k < rest.len() && rest[k] == y;
                assert(xs[k + 1] == y);
            }
            if y == xs[0] {
                assert(xs.contains(y));
            }
        }
        assert(fv(s_lams(xs, body).expr) =~= fv(body.expr).difference(xs.to_set()).remove(
            SELF_NAME@,
        ));
    }
}

/// Built-in functions are closed: lambdas over the names `xs` around a literal that reads
/// just those names have no free variables.
pub proof fn lemma_builtin_closed(xs: Seq<Seq<char>>, gen: SGen, name: Seq<char>, ty: SType)
    ensures
        fv(s_lams(xs, s_lit(gen, xs, name, ty)).expr) == Set::<Seq<char>>::empty(),
{
    if xs.len() > 0 {
        lemma_fv_lams(xs, s_lit(gen, xs, name, ty));
    } else {
        assert(xs.to_set() =~= Set::<Seq<char>>::empty());
    }
    assert(fv(s_lams(xs, s_lit(gen, xs, name, ty)).expr) =~= Set::<Seq<char>>::empty());
}

/// `fix` reads one variable from outside: the captured object of the closure it makes.
pub proof fn lemma_fix_reads_its_capture(name: Seq<char>, ty: SType)
    ensures
        fv(
            s_lams(
                seq!["f"@, "x"@],
                s_lit(SGen::Op(BuiltinOp::Fix), seq![CAP_NAME@, "f"@, "x"@], name, ty),
            ).expr,
        ) == set![CAP_NAME@],
{
    let xs = seq!["f"@, "x"@];
    let lit = s_lit(SGen::Op(BuiltinOp::Fix), seq![CAP_NAME@, "f"@, "x"@], name, ty);
    lemma_fv_lams(xs, lit);
    reveal_strlit("f");
    reveal_strlit("x");
    reveal_strlit("%CAP%");
    reveal_strlit("%SELF%");
    let reads = seq![CAP_NAME@, "f"@, "x"@];
    assert(reads.to_set().contains(CAP_NAME@)) by {
        assert(reads[0] == CAP_NAME@);
    }
    assert forall|y: Seq<char>| xs.to_set().contains(y) <==> (y == "f"@ || y == "x"@) by {
        if y == "f"@ {
            assert(xs[0] == y);
        }
        if y == "x"@ {
            assert(xs[1] == y);
        }
    }
    assert(CAP_NAME@ != "f"@ && CAP_NAME@ != "x"@ && CAP_NAME@ != SELF_NAME@) by {
        assert(CAP_NAME@[1] != "f"@[0]);
        assert(CAP_NAME@.len() != "x"@.len());
        assert(CAP_NAME@.len() != SELF_NAME@.len());
    }
    assert(fv(s_lams(xs, lit).expr) =~= set![CAP_NAME@]);
}

pub fn lam(x: &str, body: Arc<ExprNode>) -> (r: Arc<ExprNode>)
    ensures
        r@ == s_lam(x@, body@),
{
    expr_abs(var_local(x, None, None), body, None)
}

/// A literal of a built-in operation, with no source.
pub fn op_lit(op: BuiltinOp, free_vars: Vec<String>, name: String, ty: Arc<TypeNode>) -> (r: Arc<
    ExprNode,
>)
    ensures
        r@ == s_lit(SGen::Op(op), strings_view(free_vars@), name@, ty@),
{
    expr_lit(Arc::new(InlineLLVM::Op(op)), free_vars, name, ty, None)
}

pub fn names0() -> (r: Vec<String>)
    ensures
        strings_view(r@) == Seq::<Seq<char>>::empty(),
{
    let r: Vec<String> = Vec::new();
    assert(strings_view(r@) =~= Seq::<Seq<char>>::empty());
    r
}

pub fn names1(a: &str) -> (r: Vec<String>)
    ensures
        strings_view(r@) == seq![a@],
{
    let mut r: Vec<String> = Vec::new();
    r.push(String::from_str(a));
    assert(strings_view(r@) =~= seq![a@]);
    r
}

pub fn names2(a: &str, b: &str) -> (r: Vec<String>)
    ensures
        strings_view(r@) == seq![a@, b@],
{
    let mut r: Vec<String> = Vec::new();
    r.push(String::from_str(a));
    r.push(String::from_str(b));
    assert(strings_view(r@) =~= seq![a@, b@]);
    r
}

pub fn names3(a: &str, b: &str, c: &str) -> (r: Vec<String>)
    ensures
        strings_view(r@) == seq![a@, b@, c@],
{
    let mut r: Vec<String> = Vec::new();
    r.push(String::from_str(a));
    r.push(String::from_str(b));
    r.push(String::from_str(c));
    assert(strings_view(r@) =~= seq![a@, b@, c@]);
    r
}

/// A scheme with no predicates.
pub open spec fn s_scheme(vars: Seq<(Seq<char>, Kind)>, ty: SType) -> SScheme {
    SScheme { gen_vars: vars, preds: Seq::empty(), ty }
}

/// A scheme over the given variables of kind `*`, with no predicates.
pub fn scheme_star(vars: Vec<String>, ty: Arc<TypeNode>) -> (r: Arc<Scheme>)
    ensures
        r@ == s_scheme(strings_view(vars@).map_values(|n: Seq<char>| (n, Kind::Star)), ty@),
{
    let mut kinds: Vec<(Name, Arc<Kind>)> = Vec::new();
    let mut i: usize = 0;
    while i < vars.len()
        invariant
            i <= vars.len(),
            named_kinds_view(kinds@) =~= strings_view(vars@).subrange(0, i as int).map_values(
                |n: Seq<char>| (n, Kind::Star),
            ),
        decreases vars.len() - i,
    {
        let ghost before = named_kinds_view(kinds@);
        kinds.push((copy_string(&vars[i]), kind_star()));
        assert(named_kinds_view(kinds@) =~= before.push((vars@[i as int]@, Kind::Star)));
        i = i + 1;
    }
    assert(strings_view(vars@).subrange(0, vars.len() as int) =~= strings_view(vars@));
    let r = Scheme::generalize(kinds, Vec::new(), ty);
    assert(preds_view(Seq::empty()) =~= Seq::empty());
    r
}

/// The variables of kind `*` with the given names.
pub open spec fn star_vars(names: Seq<Seq<char>>) -> Seq<(Seq<char>, Kind)> {
    names.map_values(|n: Seq<char>| (n, Kind::Star))
}

/// `Array a`.
pub open spec fn s_array(elem: SType) -> SType {
    s_app(s_std("Array"@), elem)
}

fn array_of(elem: Arc<TypeNode>) -> (r: Arc<TypeNode>)
    ensures
        r@ == s_array(elem@),
{
    type_tyapp(make_array_ty(), elem)
}

/// The literal behind `fix`.
fn fix_lit(b: &str, f: &str, x: &str) -> (r: Arc<ExprNode>)
    ensures
        r@ == s_lit(
            SGen::Op(BuiltinOp::Fix),
            seq![CAP_NAME@, f@, x@],
            "fix("@ + f@ + ", "@ + x@ + ")"@,
            s_var(b@),
        ),
{
    let f_str = FullName::local(f);
    let x_str = FullName::local(x);
    let mut name = String::from_str("fix(");
    name.append(f_str.to_string().as_str());
    name.append(", ");
    name.append(x_str.to_string().as_str());
    name.append(")");
    op_lit(BuiltinOp::Fix, names3(CAP_NAME, f, x), name, type_tyvar_star(b))
}

/// `fix : ((a -> b) -> (a -> b)) -> a -> b`, the fixed point combinator.
pub fn fix() -> (r: (Arc<ExprNode>, Arc<Scheme>))
    ensures
        r.0@ == s_lam(
            "f"@,
            s_lam(
                "x"@,
                s_lit(
                    SGen::Op(BuiltinOp::Fix),
                    seq![CAP_NAME@, "f"@, "x"@],
                    "fix("@ + "f"@ + ", "@ + "x"@ + ")"@,
                    s_var("b"@),
                ),
            ),
        ),
        r.1@ == s_scheme(
            star_vars(seq!["a"@, "b"@]),
            s_fun(
                s_fun(s_fun(s_var("a"@), s_var("b"@)), s_fun(s_var("a"@), s_var("b"@))),
                s_fun(s_var("a"@), s_var("b"@)),
            ),
        ),
{
    let expr = lam("f", lam("x", fix_lit("b", "f", "x")));
    let fixed_ty = type_fun(type_tyvar_star("a"), type_tyvar_star("b"));
    let scm = scheme_star(
        names2("a", "b"),
        type_fun(type_fun(fixed_ty.clone(), fixed_ty.clone()), fixed_ty),
    );
    (expr, scm)
}

/// The buffer size and the format with which `to_string` prints a number type.
pub open spec fn number_format_spec(name: Seq<char>) -> Option<(u32, NumberFormat)> {
    if name == "U8"@ {
        Some((4, NumberFormat::U8))
    } else if name == "I32"@ {
        Some((12, NumberFormat::I32))
    } else if name == "U32"@ {
        Some((11, NumberFormat::U32))
    } else if name == "I64"@ {
        Some((21, NumberFormat::I64))
    } else if name == "U64"@ {
        Some((21, NumberFormat::U64))
    } else if name == "F32"@ {
        Some((50, NumberFormat::F32))
    } else if name == "F64"@ {
        Some((500, NumberFormat::F64))
    } else {
        None
    }
}

/// Whether `(buf_size, format)` is the buffer size and format of some number type.
pub open spec fn number_format_spec_holds(buf_size: u32, format: NumberFormat) -> bool {
    exists|name: Seq<char>| number_format_spec(name) == Some((buf_size, format))
}

fn number_format(name: &String) -> (r: Option<(u32, NumberFormat)>)
    ensures
        r == number_format_spec(name@),
{
    if *name == String::from_str("U8") {
        Some((4, NumberFormat::U8))
    } else if *name == String::from_str("I32") {
        Some((12, NumberFormat::I32))
    } else if *name == String::from_str("U32") {
        Some((11, NumberFormat::U32))
    } else if *name == String::from_str("I64") {
        Some((21, NumberFormat::I64))
    } else if *name == String::from_str("U64") {
        Some((21, NumberFormat::U64))
    } else if *name == String::from_str("F32") {
        Some((50, NumberFormat::F32))
    } else if *name == String::from_str("F64") {
        Some((500, NumberFormat::F64))
    } else {
        None
    }
}

/// Whether `to_string` is defined for the type: its head constructor names a number type.
pub open spec fn is_number_type(ty: SType) -> bool {
    head_tycon(ty) matches Some(tc) && number_format_spec(tc.name) is Some
}

/// `to_string : ty -> String` for a number type.
pub fn number_to_string_function(ty: Arc<TypeNode>) -> (r: (Arc<ExprNode>, Arc<Scheme>))
    requires
        is_number_type(ty@),
    ensures
        ({
            let f = number_format_spec(head_tycon(ty@)->Some_0.name)->Some_0;
            r.0@ == s_lam(
                "number"@,
                s_lit(
                    SGen::Op(BuiltinOp::NumberToString { buf_size: f.0, format: f.1 }),
                    seq!["number"@],
                    type_str(ty@) + "_to_string("@ + "number"@ + ")"@,
                    s_std("String"@),
                ),
            )
        }),
        r.1@ == s_scheme(Seq::empty(), s_fun(ty@, s_std("String"@))),
{
    let tc = ty.toplevel_tycon().unwrap();
    let (buf_size, format) = number_format(&tc.name.name).unwrap();
    let scm = scheme_star(names0(), type_fun(ty.clone(), make_string_ty()));
    assert(star_vars(Seq::empty()) =~= Seq::empty());
    let mut name = ty.to_string();
    name.append("_to_string(");
    name.append("number");
    name.append(")");
    let expr = lam(
        "number",
        op_lit(
            BuiltinOp::NumberToString { buf_size, format },
            names1("number"),
            name,
            make_string_ty(),
        ),
    );
    (expr, scm)
}

/// The name of a cast literal: `cast_{from}_to_{to}(from)`.
pub open spec fn cast_name(from: SType, to: SType) -> Seq<char> {
    "cast_"@ + type_str(from) + "_to_"@ + type_str(to) + "("@ + "from"@ + ")"@
}

/// The lambda of a cast.
pub open spec fn cast_expr(op: BuiltinOp, from: SType, to: SType) -> SNode {
    s_lam("from"@, s_lit(SGen::Op(op), seq!["from"@], cast_name(from, to), to))
}

fn cast_function(op: BuiltinOp, from: Arc<TypeNode>, to: Arc<TypeNode>) -> (r: (
    Arc<ExprNode>,
    Arc<Scheme>,
))
    ensures
        r.0@ == cast_expr(op, from@, to@),
        r.1@ == s_scheme(Seq::empty(), s_fun(from@, to@)),
{
    let scm = scheme_star(names0(), type_fun(from.clone(), to.clone()));
    assert(star_vars(Seq::empty()) =~= Seq::empty());
    let mut name = String::from_str("cast_");
    name.append(from.to_string().as_str());
    name.append("_to_");
    name.append(to.to_string().as_str());
    name.append("(");
    name.append("from");
    name.append(")");
    let expr = lam("from", op_lit(op, names1("from"), name, to));
    (expr, scm)
}

/// Whether the head constructor of a type is a signed integer type.
pub open spec fn head_is_signed(t: SType) -> bool {
    is_signed_integer_tycon(head_tycon(t)->Some_0)
}

/// The cast between two integral types; it extends the sign only when both are signed.
pub fn cast_between_integral_function(from: Arc<TypeNode>, to: Arc<TypeNode>) -> (r: (
    Arc<ExprNode>,
    Arc<Scheme>,
))
    requires
        head_tycon(from@) is Some,
        head_tycon(to@) is Some,
    ensures
        r.0@ == cast_expr(
            BuiltinOp::CastIntegral { is_signed: head_is_signed(from@) && head_is_signed(to@) },
            from@,
            to@,
        ),
        r.1@ == s_scheme(Seq::empty(), s_fun(from@, to@)),
{
    let is_signed = from.toplevel_tycon().unwrap().is_singned_intger()
        && to.toplevel_tycon().unwrap().is_singned_intger();
    cast_function(BuiltinOp::CastIntegral { is_signed }, from, to)
}

/// The cast between two floating point types.
pub fn cast_between_float_function(from: Arc<TypeNode>, to: Arc<TypeNode>) -> (r: (
    Arc<ExprNode>,
    Arc<Scheme>,
))
    ensures
        r.0@ == cast_expr(BuiltinOp::CastFloat, from@, to@),
        r.1@ == s_scheme(Seq::empty(), s_fun(from@, to@)),
{
    cast_function(BuiltinOp::CastFloat, from, to)
}

/// The cast from an integral type to a floating point type.
pub fn cast_int_to_float_function(from: Arc<TypeNode>, to: Arc<TypeNode>) -> (r: (
    Arc<ExprNode>,
    Arc<Scheme>,
))
    requires
        head_tycon(from@) is Some,
    ensures
        r.0@ == cast_expr(
            BuiltinOp::CastIntToFloat { is_signed: head_is_signed(from@) },
            from@,
            to@,
        ),
        r.1@ == s_scheme(Seq::empty(), s_fun(from@, to@)),
{
    let is_signed = from.toplevel_tycon().unwrap().is_singned_intger();
    cast_function(BuiltinOp::CastIntToFloat { is_signed }, from, to)
}

/// The cast from a floating point type to an integral type.
pub fn cast_float_to_int_function(from: Arc<TypeNode>, to: Arc<TypeNode>) -> (r: (
    Arc<ExprNode>,
    Arc<Scheme>,
))
    ensures
        r.0@ == cast_expr(BuiltinOp::CastFloatToInt, from@, to@),
        r.1@ == s_scheme(Seq::empty(), s_fun(from@, to@)),
{
    cast_function(BuiltinOp::CastFloatToInt, from, to)
}

/// The name of a shift literal.
pub open spec fn shift_name(is_left: bool) -> Seq<char> {
    "shift_"@ + (if is_left {
        "left"@
    } else {
        "right"@
    }) + "("@ + "n"@ + ","@ + "val"@ + ")"@
}

/// `shift_left, shift_right : ty -> ty -> ty`, taking the shift amount first.
pub fn shift_function(ty: Arc<TypeNode>, is_left: bool) -> (r: (Arc<ExprNode>, Arc<Scheme>))
    ensures
        r.0@ == s_lam(
            "n"@,
            s_lam(
                "val"@,
                s_lit(
                    SGen::Op(BuiltinOp::Shift { is_left }),
                    seq!["val"@, "n"@],
                    shift_name(is_left),
                    ty@,
                ),
            ),
        ),
        r.1@ == s_scheme(Seq::empty(), s_fun(ty@, s_fun(ty@, ty@))),
{
    let scm = scheme_star(names0(), type_fun(ty.clone(), type_fun(ty.clone(), ty.clone())));
    assert(star_vars(Seq::empty()) =~= Seq::empty());
    let mut name = String::from_str("shift_");
    if is_left {
        name.append("left");
    } else {
        name.append("right");
    }
    name.append("(");
    name.append("n");
    name.append(",");
    name.append("val");
    name.append(")");
    let expr = lam(
        "n",
        lam("val", op_lit(BuiltinOp::Shift { is_left }, names2("val", "n"), name, ty)),
    );
    (expr, scm)
}

/// `bit_xor, bit_or, bit_and : ty -> ty -> ty`.
pub fn bitwise_operation_function(ty: Arc<TypeNode>, op_type: BitOperationType) -> (r: (
    Arc<ExprNode>,
    Arc<Scheme>,
))
    ensures
        r.0@ == s_lam(
            "lhs"@,
            s_lam(
                "rhs"@,
                s_lit(
                    SGen::Op(BuiltinOp::BitOp(op_type)),
                    seq!["lhs"@, "rhs"@],
                    "bit_"@ + bit_op_str(op_type) + "("@ + "lhs"@ + ","@ + "rhs"@ + ")"@,
                    ty@,
                ),
            ),
        ),
        r.1@ == s_scheme(Seq::empty(), s_fun(ty@, s_fun(ty@, ty@))),
{
    let scm = scheme_star(names0(), type_fun(ty.clone(), type_fun(ty.clone(), ty.clone())));
    assert(star_vars(Seq::empty()) =~= Seq::empty());
    let mut name = String::from_str("bit_");
    name.append(op_type.to_string().as_str());
    name.append("(");
    name.append("lhs");
    name.append(",");
    name.append("rhs");
    name.append(")");
    let expr = lam(
        "lhs",
        lam("rhs", op_lit(BuiltinOp::BitOp(op_type), names2("lhs", "rhs"), name, ty)),
    );
    (expr, scm)
}

fn fill_array_lit(a: &str, size: &str, value: &str) -> (r: Arc<ExprNode>)
    ensures
        r@ == s_lit(
            SGen::Op(BuiltinOp::FillArray),
            seq![size@, value@],
            "Array::fill("@ + size@ + ", "@ + value@ + ")"@,
            s_array(s_var(a@)),
        ),
{
    let mut name = String::from_str("Array::fill(");
    name.append(size);
    name.append(", ");
    name.append(value);
    name.append(")");
    op_lit(BuiltinOp::FillArray, names2(size, value), name, array_of(type_tyvar_star(a)))
}

/// `Array::fill : I64 -> a -> Array a`.
pub fn fill_array() -> (r: (Arc<ExprNode>, Arc<Scheme>))
    ensures
        r.0@ == s_lam(
            "size"@,
            s_lam(
                "value"@,
                s_lit(
                    SGen::Op(BuiltinOp::FillArray),
                    seq!["size"@, "value"@],
                    "Array::fill("@ + "size"@ + ", "@ + "value"@ + ")"@,
                    s_array(s_var("a"@)),
                ),
            ),
        ),
        r.1@ == s_scheme(
            star_vars(seq!["a"@]),
            s_fun(s_std("I64"@), s_fun(s_var("a"@), s_array(s_var("a"@)))),
        ),
{
    let expr = lam("size", lam("value", fill_array_lit("a", "size", "value")));
    let scm = scheme_star(
        names1("a"),
        type_fun(make_i64_ty(), type_fun(type_tyvar_star("a"), array_of(type_tyvar_star("a")))),
    );
    (expr, scm)
}

/// `Array::empty : I64 -> Array a`, an empty array of the given capacity.
pub fn make_empty() -> (r: (Arc<ExprNode>, Arc<Scheme>))
    ensures
        r.0@ == s_lam(
            "cap"@,
            s_lit(
                SGen::Op(BuiltinOp::MakeEmptyArray),
                seq!["cap"@],
                "make_empty("@ + "cap"@ + ")"@,
                s_array(s_var("a"@)),
            ),
        ),
        r.1@ == s_scheme(star_vars(seq!["a"@]), s_fun(s_std("I64"@), s_array(s_var("a"@)))),
{
    let mut name = String::from_str("make_empty(");
    name.append("cap");
    name.append(")");
    let expr = lam(
        "cap",
        op_lit(BuiltinOp::MakeEmptyArray, names1("cap"), name, array_of(type_tyvar_star("a"))),
    );
    let scm = scheme_star(names1("a"), type_fun(make_i64_ty(), array_of(type_tyvar_star("a"))));
    (expr, scm)
}

/// `Array::__unsafe_set : I64 -> a -> Array a -> Array a`.
pub fn unsafe_set_array() -> (r: (Arc<ExprNode>, Arc<Scheme>))
    ensures
        r.0@ == s_lam(
            "idx"@,
            s_lam(
                "val"@,
                s_lam(
                    "array"@,
                    s_lit(
                        SGen::Op(BuiltinOp::UnsafeSetArray),
                        seq!["idx"@, "val"@, "array"@],
                        "array"@ + ".unsafe_set("@ + "idx"@ + ", "@ + "val"@ + ")"@,
                        s_array(s_var("a"@)),
                    ),
                ),
            ),
        ),
        r.1@ == s_scheme(
            star_vars(seq!["a"@]),
            s_fun(
                s_std("I64"@),
                s_fun(s_var("a"@), s_fun(s_array(s_var("a"@)), s_array(s_var("a"@)))),
            ),
        ),
{
    let mut name = String::from_str("array");
    name.append(".unsafe_set(");
    name.append("idx");
    name.append(", ");
    name.append("val");
    name.append(")");
    let expr = lam(
        "idx",
        lam(
            "val",
            lam(
                "array",
                op_lit(
                    BuiltinOp::UnsafeSetArray,
                    names3("idx", "val", "array"),
                    name,
                    array_of(type_tyvar_star("a")),
                ),
            ),
        ),
    );
    let scm = scheme_star(
        names1("a"),
        type_fun(
            make_i64_ty(),
            type_fun(
                type_tyvar_star("a"),
                type_fun(array_of(type_tyvar_star("a")), array_of(type_tyvar_star("a"))),
            ),
        ),
    );
    (expr, scm)
}

/// `Array::__unsafe_get : I64 -> Array a -> a`.
pub fn unsafe_get_array() -> (r: (Arc<ExprNode>, Arc<Scheme>))
    ensures
        r.0@ == s_lam(
            "idx"@,
            s_lam(
                "array"@,
                s_lit(
                    SGen::Op(BuiltinOp::UnsafeGetArray),
                    seq!["idx"@, "array"@],
                    "array"@ + ".get_array_noretain("@ + "idx"@ + ")"@,
                    s_var("a"@),
                ),
            ),
        ),
        r.1@ == s_scheme(
            star_vars(seq!["a"@]),
            s_fun(s_std("I64"@), s_fun(s_array(s_var("a"@)), s_var("a"@))),
        ),
{
    let mut name = String::from_str("array");
    name.append(".get_array_noretain(");
    name.append("idx");
    name.append(")");
    let expr = lam(
        "idx",
        lam(
            "array",
            op_lit(BuiltinOp::UnsafeGetArray, names2("idx", "array"), name, type_tyvar_star("a")),
        ),
    );
    let scm = scheme_star(
        names1("a"),
        type_fun(make_i64_ty(), type_fun(array_of(type_tyvar_star("a")), type_tyvar_star("a"))),
    );
    (expr, scm)
}

/// `Array::__unsafe_set_length : I64 -> Array a -> Array a`.
pub fn unsafe_set_length_array() -> (r: (Arc<ExprNode>, Arc<Scheme>))
    ensures
        r.0@ == s_lam(
            "length"@,
            s_lam(
                "array"@,
                s_lit(
                    SGen::Op(BuiltinOp::UnsafeSetLengthArray),
                    seq!["length"@, "array"@],
                    "array"@ + ".unsafe_set_length("@ + "length"@ + ")"@,
                    s_array(s_var("a"@)),
                ),
            ),
        ),
        r.1@ == s_scheme(
            star_vars(seq!["a"@]),
            s_fun(s_std("I64"@), s_fun(s_array(s_var("a"@)), s_array(s_var("a"@)))),
        ),
{
    let mut name = String::from_str("array");
    name.append(".unsafe_set_length(");
    name.append("length");
    name.append(")");
    let expr = lam(
        "length",
        lam(
            "array",
            op_lit(
                BuiltinOp::UnsafeSetLengthArray,
                names2("length", "array"),
                name,
                array_of(type_tyvar_star("a")),
            ),
        ),
    );
    let scm = scheme_star(
        names1("a"),
        type_fun(
            make_i64_ty(),
            type_fun(array_of(type_tyvar_star("a")), array_of(type_tyvar_star("a"))),
        ),
    );
    (expr, scm)
}

fn read_array_lit(a: &str, array: &str, idx: &str) -> (r: Arc<ExprNode>)
    ensures
        r@ == s_lit(
            SGen::Op(BuiltinOp::ReadArray),
            seq![array@, idx@],
            "Array::get("@ + idx@ + ", "@ + array@ + ")"@,
            s_var(a@),
        ),
{
    let mut name = String::from_str("Array::get(");
    name.append(idx);
    name.append(", ");
    name.append(array);
    name.append(")");
    op_lit(BuiltinOp::ReadArray, names2(array, idx), name, type_tyvar_star(a))
}

/// `Array::@ : I64 -> Array a -> a`.
pub fn read_array() -> (r: (Arc<ExprNode>, Arc<Scheme>))
    ensures
        r.0@ == s_lam(
            "idx"@,
            s_lam(
                "array"@,
                s_lit(
                    SGen::Op(BuiltinOp::ReadArray),
                    seq!["array"@, "idx"@],
                    "Array::get("@ + "idx"@ + ", "@ + "array"@ + ")"@,
                    s_var("a"@),
                ),
            ),
        ),
        r.1@ == s_scheme(
            star_vars(seq!["a"@]),
            s_fun(s_std("I64"@), s_fun(s_array(s_var("a"@)), s_var("a"@))),
        ),
{
    let expr = lam("idx", lam("array", read_array_lit("a", "array", "idx")));
    let scm = scheme_star(
        names1("a"),
        type_fun(make_i64_ty(), type_fun(array_of(type_tyvar_star("a")), type_tyvar_star("a"))),
    );
    (expr, scm)
}

/// `s` followed by `!` when `bang` holds.
pub open spec fn with_bang(s: Seq<char>, bang: bool) -> Seq<char> {
    if bang {
        s + "!"@
    } else {
        s
    }
}

fn set_array_lit(a: &str, array: &str, idx: &str, value: &str, is_unique_version: bool) -> (r: Arc<
    ExprNode,
>)
    ensures
        r@ == s_lit(
            SGen::Op(BuiltinOp::SetArray { is_unique: is_unique_version }),
            seq![array@, idx@, value@],
            with_bang("set"@, is_unique_version) + " "@ + idx@ + " "@ + value@ + " "@ + array@,
            s_array(s_var(a@)),
        ),
{
    let mut name = String::from_str("set");
    if is_unique_version {
        name.append("!");
    }
    name.append(" ");
    name.append(idx);
    name.append(" ");
    name.append(value);
    name.append(" ");
    name.append(array);
    op_lit(
        BuiltinOp::SetArray { is_unique: is_unique_version },
        names3(array, idx, value),
        name,
        array_of(type_tyvar_star(a)),
    )
}

/// The expression of `set` or `set!`.
pub open spec fn set_array_expr(is_unique: bool) -> SNode {
    s_lam(
        "idx"@,
        s_lam(
            "value"@,
            s_lam(
                "array"@,
                s_lit(
                    SGen::Op(BuiltinOp::SetArray { is_unique }),
                    seq!["array"@, "idx"@, "value"@],
                    with_bang("set"@, is_unique) + " "@ + "idx"@ + " "@ + "value"@ + " "@
                        + "array"@,
                    s_array(s_var("a"@)),
                ),
            ),
        ),
    )
}

/// The scheme `I64 -> a -> Array a -> Array a` of `set` and `set!`.
pub open spec fn set_array_scheme() -> SScheme {
    s_scheme(
        star_vars(seq!["a"@]),
        s_fun(
            s_std("I64"@),
            s_fun(s_var("a"@), s_fun(s_array(s_var("a"@)), s_array(s_var("a"@)))),
        ),
    )
}

/// `Array::set` (clones a shared array) or `Array::set!` (requires a unique one).
pub fn set_array_common(is_unique_version: bool) -> (r: (Arc<ExprNode>, Arc<Scheme>))
    ensures
        r.0@ == set_array_expr(is_unique_version),
        r.1@ == set_array_scheme(),
{
    let expr = lam(
        "idx",
        lam("value", lam("array", set_array_lit("a", "array", "idx", "value", is_unique_version))),
    );
    let scm = scheme_star(
        names1("a"),
        type_fun(
            make_i64_ty(),
            type_fun(
                type_tyvar_star("a"),
                type_fun(array_of(type_tyvar_star("a")), array_of(type_tyvar_star("a"))),
            ),
        ),
    );
    (expr, scm)
}

/// `Array::set`.
pub fn write_array() -> (r: (Arc<ExprNode>, Arc<Scheme>))
    ensures
        r.0@ == set_array_expr(false),
        r.1@ == set_array_scheme(),
{
    set_array_common(false)
}

/// `Array::set!`.
pub fn write_array_unique() -> (r: (Arc<ExprNode>, Arc<Scheme>))
    ensures
        r.0@ == set_array_expr(true),
        r.1@ == set_array_scheme(),
{
    set_array_common(true)
}

/// `Array::mod, Array::mod! : I64 -> (a -> a) -> Array a -> Array a`.
pub fn mod_array(is_unique_version: bool) -> (r: (Arc<ExprNode>, Arc<Scheme>))
    ensures
        r.0@ == s_lam(
            "idx"@,
            s_lam(
                "f"@,
                s_lam(
                    "arr"@,
                    s_lit(
                        SGen::Op(BuiltinOp::ModArray { is_unique: is_unique_version }),
                        seq!["idx"@, "f"@, "arr"@],
                        "arr"@ + with_bang(".mod"@, is_unique_version) + "("@ + "idx"@ + ", "@
                            + "f"@ + ")"@,
                        s_array(s_var("a"@)),
                    ),
                ),
            ),
        ),
        r.1@ == s_scheme(
            star_vars(seq!["a"@]),
            s_fun(
                s_std("I64"@),
                s_fun(
                    s_fun(s_var("a"@), s_var("a"@)),
                    s_fun(s_array(s_var("a"@)), s_array(s_var("a"@))),
                ),
            ),
        ),
{
    let mut name = String::from_str("arr");
    name.append(".mod");
    if is_unique_version {
        name.append("!");
    }
    name.append("(");
    name.append("idx");
    name.append(", ");
    name.append("f");
    name.append(")");
    assert(name@ =~= "arr"@ + with_bang(".mod"@, is_unique_version) + "("@ + "idx"@ + ", "@ + "f"@
        + ")"@);
    let expr = lam(
        "idx",
        lam(
            "f",
            lam(
                "arr",
                op_lit(
                    BuiltinOp::ModArray { is_unique: is_unique_version },
                    names3("idx", "f", "arr"),
                    name,
                    array_of(type_tyvar_star("a")),
                ),
            ),
        ),
    );
    let scm = scheme_star(
        names1("a"),
        type_fun(
            make_i64_ty(),
            type_fun(
                type_fun(type_tyvar_star("a"), type_tyvar_star("a")),
                type_fun(array_of(type_tyvar_star("a")), array_of(type_tyvar_star("a"))),
            ),
        ),
    );
    (expr, scm)
}

/// `Array::force_unique, Array::force_unique! : Array a -> Array a`.
pub fn force_unique_array(is_unique_version: bool) -> (r: (Arc<ExprNode>, Arc<Scheme>))
    ensures
        r.0@ == s_lam(
            "arr"@,
            s_lit(
                SGen::Op(BuiltinOp::ForceUniqueArray { is_unique: is_unique_version }),
                seq!["arr"@],
                "arr"@ + with_bang(".force_unique"@, is_unique_version),
                s_array(s_var("a"@)),
            ),
        ),
        r.1@ == s_scheme(star_vars(seq!["a"@]), s_fun(s_array(s_var("a"@)), s_array(s_var("a"@)))),
{
    let mut name = String::from_str("arr");
    name.append(".force_unique");
    if is_unique_version {
        name.append("!");
    }
    assert(name@ =~= "arr"@ + with_bang(".force_unique"@, is_unique_version));
    let expr = lam(
        "arr",
        op_lit(
            BuiltinOp::ForceUniqueArray { is_unique: is_unique_version },
            names1("arr"),
            name,
            array_of(type_tyvar_star("a")),
        ),
    );
    let scm = scheme_star(
        names1("a"),
        type_fun(array_of(type_tyvar_star("a")), array_of(type_tyvar_star("a"))),
    );
    (expr, scm)
}

/// `Array::_get_ptr : Array a -> Ptr`.
pub fn get_ptr_array() -> (r: (Arc<ExprNode>, Arc<Scheme>))
    ensures
        r.0@ == s_lam(
            "arr"@,
            s_lit(
                SGen::Op(BuiltinOp::GetPtrArray),
                seq!["arr"@],
                "arr"@ + ".get_ptr"@,
                s_std("Ptr"@),
            ),
        ),
        r.1@ == s_scheme(star_vars(seq!["a"@]), s_fun(s_array(s_var("a"@)), s_std("Ptr"@))),
{
    let mut name = String::from_str("arr");
    name.append(".get_ptr");
    let expr = lam("arr", op_lit(BuiltinOp::GetPtrArray, names1("arr"), name, make_ptr_ty()));
    let scm = scheme_star(names1("a"), type_fun(array_of(type_tyvar_star("a")), make_ptr_ty()));
    (expr, scm)
}

/// `Array::get_size : Array a -> I64`.
pub fn get_size_array() -> (r: (Arc<ExprNode>, Arc<Scheme>))
    ensures
        r.0@ == s_lam(
            "arr"@,
            s_lit(SGen::Op(BuiltinOp::GetSizeArray), seq!["arr"@], "len arr"@, s_std("I64"@)),
        ),
        r.1@ == s_scheme(star_vars(seq!["a"@]), s_fun(s_array(s_var("a"@)), s_std("I64"@))),
{
    let expr = lam(
        "arr",
        op_lit(
            BuiltinOp::GetSizeArray,
            names1("arr"),
            String::from_str("len arr"),
            make_i64_ty(),
        ),
    );
    let scm = scheme_star(names1("a"), type_fun(array_of(type_tyvar_star("a")), make_i64_ty()));
    (expr, scm)
}

/// `Array::get_capacity : Array a -> I64`.
pub fn get_capacity_array() -> (r: (Arc<ExprNode>, Arc<Scheme>))
    ensures
        r.0@ == s_lam(
            "arr"@,
            s_lit(
                SGen::Op(BuiltinOp::GetCapacityArray),
                seq!["arr"@],
                "arr.get_capacity"@,
                s_std("I64"@),
            ),
        ),
        r.1@ == s_scheme(star_vars(seq!["a"@]), s_fun(s_array(s_var("a"@)), s_std("I64"@))),
{
    let expr = lam(
        "arr",
        op_lit(
            BuiltinOp::GetCapacityArray,
            names1("arr"),
            String::from_str("arr.get_capacity"),
            make_i64_ty(),
        ),
    );
    let scm = scheme_star(names1("a"), type_fun(array_of(type_tyvar_star("a")), make_i64_ty()));
    (expr, scm)
}

/// `Std::abort : () -> a`.
pub fn abort_function() -> (r: (Arc<ExprNode>, Arc<Scheme>))
    ensures
        r.0@ == s_lam(
            "unit"@,
            s_lit(SGen::Op(BuiltinOp::Abort), Seq::empty(), "abort"@, s_var("a"@)),
        ),
        r.1@ == s_scheme(star_vars(seq!["a"@]), s_fun(tuple_type(Seq::empty()), s_var("a"@))),
{
    let expr = lam(
        "unit",
        op_lit(BuiltinOp::Abort, names0(), String::from_str("abort"), type_tyvar_star("a")),
    );
    let scm = scheme_star(names1("a"), type_fun(make_unit_ty(), type_tyvar_star("a")));
    (expr, scm)
}

/// `Std::loop : s -> (s -> LoopResult s b) -> b`.
pub fn state_loop() -> (r: (Arc<ExprNode>, Arc<Scheme>))
    ensures
        r.0@ == s_lam(
            "initial_state"@,
            s_lam(
                "loop_body"@,
                s_lit(
                    SGen::Op(BuiltinOp::Loop),
                    seq!["initial_state"@, "loop_body"@],
                    "loop "@ + "initial_state"@ + " "@ + "loop_body"@,
                    s_var("b"@),
                ),
            ),
        ),
        r.1@ == s_scheme(
            star_vars(seq!["s"@, "b"@]),
            s_fun(
                s_var("s"@),
                s_fun(
                    s_fun(s_var("s"@), s_app(s_app(s_std("LoopResult"@), s_var("s"@)), s_var("b"@))),
                    s_var("b"@),
                ),
            ),
        ),
{
    let tyvar_s = type_tyvar("s", &kind_star());
    let tyvar_b = type_tyvar("b", &kind_star());
    let scm = scheme_star(
        names2("s", "b"),
        type_fun(
            tyvar_s.clone(),
            type_fun(
                type_fun(
                    tyvar_s.clone(),
                    type_tyapp(type_tyapp(make_loop_result_ty(), tyvar_s), tyvar_b.clone()),
                ),
                tyvar_b,
            ),
        ),
    );
    let mut name = String::from_str("loop ");
    name.append("initial_state");
    name.append(" ");
    name.append("loop_body");
    let expr = lam(
        "initial_state",
        lam(
            "loop_body",
            op_lit(
                BuiltinOp::Loop,
                names2("initial_state", "loop_body"),
                name,
                type_tyvar_star("b"),
            ),
        ),
    );
    (expr, scm)
}

/// `Std::is_unique : a -> (Bool, a)`.
pub fn is_unique_function() -> (r: (Arc<ExprNode>, Arc<Scheme>))
    ensures
        r.0@ == s_lam(
            "x"@,
            s_lit(
                SGen::Op(BuiltinOp::IsUnique),
                seq!["x"@],
                "is_unique("@ + "x"@ + ")"@,
                tuple_type(seq![s_std("Bool"@), s_var("a"@)]),
            ),
        ),
        r.1@ == s_scheme(
            star_vars(seq!["a"@]),
            s_fun(s_var("a"@), tuple_type(seq![s_std("Bool"@), s_var("a"@)])),
        ),
{
    let obj_type = type_tyvar("a", &kind_star());
    let mut tys: Vec<Arc<TypeNode>> = Vec::new();
    tys.push(make_bool_ty());
    tys.push(obj_type.clone());
    assert(types_view(tys@) =~= seq![s_std("Bool"@), s_var("a"@)]);
    let ret_type = make_tuple_ty(tys);
    let scm = scheme_star(names1("a"), type_fun(obj_type, ret_type.clone()));
    let mut name = String::from_str("is_unique(");
    name.append("x");
    name.append(")");
    let expr = lam("x", op_lit(BuiltinOp::IsUnique, names1("x"), name, ret_type));
    (expr, scm)
}

/// The definition `type LoopResult s b = unbox union { continue : s, break : b }`.
pub fn loop_result_defn() -> (r: TypeDefn)
    ensures
        r@ == (STypeDefn {
            name: std_full("LoopResult"@),
            tyvars: seq!["s"@, "b"@],
            is_struct: false,
            fields: seq![
                SField { name: "continue"@, ty: s_var("s"@) },
                SField { name: "break"@, ty: s_var("b"@) },
            ],
            is_unbox: true,
        }),
{
    let mut fields: Vec<Field> = Vec::new();
    fields.push(Field { name: String::from_str("continue"), ty: type_tyvar("s", &kind_star()) });
    fields.push(Field { name: String::from_str("break"), ty: type_tyvar("b", &kind_star()) });
    let r = TypeDefn {
        name: crate::builtin::std_name(crate::builtin::LOOP_RESULT_NAME),
        tyvars: names2("s", "b"),
        value: TypeDeclValue::Union(Union { fields, is_unbox: true }),
    };
    assert(r@.fields =~= seq![
        SField { name: "continue"@, ty: s_var("s"@) },
        SField { name: "break"@, ty: s_var("b"@) },
    ]);
    r
}

/// The type variables `t0, t1, ...` of a tuple.
pub open spec fn tuple_tyvars(n: nat) -> Seq<Seq<char>> {
    Seq::new(n, |i: int| "t"@ + dec_str(i as nat))
}

/// The fields `0: t0, 1: t1, ...` of a tuple.
pub open spec fn tuple_fields(n: nat) -> Seq<SField> {
    Seq::new(n, |i: int| SField { name: dec_str(i as nat), ty: s_var("t"@ + dec_str(i as nat)) })
}

/// The definition of the tuple of the given size: a struct whose fields are named
/// `0, 1, ...` and have the types `t0, t1, ...`.
pub fn tuple_defn(size: u32) -> (r: TypeDefn)
    ensures
        r@ == (STypeDefn {
            name: std_full(tuple_name(size as nat)),
            tyvars: tuple_tyvars(size as nat),
            is_struct: true,
            fields: tuple_fields(size as nat),
            is_unbox: TUPLE_UNBOX,
        }),
{
    let mut tyvars: Vec<String> = Vec::new();
    let mut fields: Vec<Field> = Vec::new();
    let mut i: u32 = 0;
    while i < size
        invariant
            i <= size,
            strings_view(tyvars@) =~= tuple_tyvars(i as nat),
            fields_view(fields@) =~= tuple_fields(i as nat),
        decreases size - i,
    {
        let mut tv = String::from_str("t");
        tv.append(u64_to_string(i as u64).as_str());
        let ty = type_tyvar_star(tv.as_str());
        let ghost tvs = strings_view(tyvars@);
        let ghost fs = fields_view(fields@);
        fields.push(Field { name: u64_to_string(i as u64), ty });
        tyvars.push(tv);
        assert(strings_view(tyvars@) =~= tvs.push("t"@ + dec_str(i as nat)));
        assert(fields_view(fields@) =~= fs.push(
            SField { name: dec_str(i as nat), ty: s_var("t"@ + dec_str(i as nat)) },
        ));
        i = i + 1;
    }
    TypeDefn {
        name: make_tuple_name(size),
        tyvars,
        value: TypeDeclValue::Struct(Struct { fields, is_unbox: TUPLE_UNBOX }),
    }
}

/// The scheme of a type generalized over all its type variables, with no predicates.
pub open spec fn gen_scheme(ty: SType) -> SScheme {
    SScheme { gen_vars: free_tyvars(ty), preds: Seq::empty(), ty }
}

fn generalize_free(ty: Arc<TypeNode>) -> (r: Arc<Scheme>)
    ensures
        r@ == gen_scheme(ty@),
{
    let r = Scheme::generalize(ty.free_vars(), Vec::new(), ty);
    assert(preds_view(Seq::empty()) =~= Seq::empty());
    r
}

/// The message for a struct that has no field of the given name.
pub open spec fn no_struct_field_msg(prefix: Seq<char>, field_name: Seq<char>, struct_name: SFullName) -> Seq<char> {
    prefix + field_name + "` found in the struct `"@ + full_name_str(struct_name) + "`."@
}

fn no_struct_field_message(prefix: &str, field_name: &str, struct_name: &FullName) -> (r: String)
    ensures
        r@ == no_struct_field_msg(prefix@, field_name@, struct_name@),
{
    let mut m = String::from_str(prefix);
    m.append(field_name);
    m.append("` found in the struct `");
    m.append(struct_name.to_string().as_str());
    m.append("`.");
    m
}

/// The message for a union that has no field of the given name.
pub open spec fn no_union_field_msg(field_name: Seq<char>, union_name: SFullName) -> Seq<char> {
    "Unknown field `"@ + field_name + "` for union `"@ + full_name_str(union_name) + "`"@
}

fn no_union_field_message(field_name: &String, union_name: &FullName) -> (r: String)
    ensures
        r@ == no_union_field_msg(field_name@, union_name@),
{
    let mut m = String::from_str("Unknown field `");
    m.append(field_name.as_str());
    m.append("` for union `");
    m.append(union_name.to_string().as_str());
    m.append("`");
    m
}

/// The literal that reads field `field_idx` of the struct in `var_name`.
pub fn struct_get_lit(
    var_name: &str,
    field_idx: usize,
    field_ty: Arc<TypeNode>,
    struct_name: &FullName,
    field_name: &str,
) -> (r: Arc<ExprNode>)
    ensures
        r@ == s_lit(
            SGen::Op(BuiltinOp::StructGet { field_idx }),
            seq![var_name@],
            full_name_str(struct_name@) + ".get_"@ + field_name@ + "("@ + var_name@ + ")"@,
            field_ty@,
        ),
{
    let mut name = struct_name.to_string();
    name.append(".get_");
    name.append(field_name);
    name.append("(");
    name.append(var_name);
    name.append(")");
    op_lit(BuiltinOp::StructGet { field_idx }, names1(var_name), name, field_ty)
}

/// `@{field} : {struct} -> {field type}`; an error when the struct has no such field.
pub fn struct_get(struct_name: &FullName, definition: &TypeDefn, field_name: &str) -> (r: Result<
    (Arc<ExprNode>, Arc<Scheme>),
    String,
>)
    ensures
        r is Err <==> field_index(definition@.fields, field_name@) is None,
        r matches Err(m) ==> m@ == no_struct_field_msg(
            "No field `"@,
            field_name@,
            struct_name@,
        ),
        r matches Ok(p) ==> {
            let i = field_index(definition@.fields, field_name@)->Some_0;
            let fty = definition@.fields[i as int].ty;
            &&& p.0@ == s_lam(
                "str_obj"@,
                s_lit(
                    SGen::Op(BuiltinOp::StructGet { field_idx: i as usize }),
                    seq!["str_obj"@],
                    full_name_str(struct_name@) + ".get_"@ + field_name@ + "("@ + "str_obj"@
                        + ")"@,
                    fty,
                ),
            )
            &&& p.1@ == gen_scheme(s_fun(defn_type(definition@), fty))
        },
{
    let field = definition.get_field_by_name(field_name);
    if field.is_none() {
        return Err(no_struct_field_message("No field `", field_name, struct_name));
    }
    let (field_idx, field) = field.unwrap();
    let str_ty = definition.ty();
    let expr = lam(
        "str_obj",
        struct_get_lit("str_obj", field_idx, field.ty.clone(), struct_name, field_name),
    );
    let ty = type_fun(str_ty, field.ty.clone());
    let scm = generalize_free(ty);
    Ok((expr, scm))
}

/// The literal that applies the function in `f_name` to a field of the struct in `x_name`.
pub fn struct_mod_lit(
    f_name: &str,
    x_name: &str,
    field_count: usize,
    field_idx: usize,
    struct_name: &FullName,
    struct_defn: &TypeDefn,
    field_name: &str,
    is_unique_version: bool,
) -> (r: Arc<ExprNode>)
    ensures
        r@ == s_lit(
            SGen::Op(
                BuiltinOp::StructMod { field_count, field_idx, is_unique: is_unique_version },
            ),
            seq![f_name@, x_name@],
            full_name_str(struct_name@) + ".mod_"@ + with_bang(field_name@, is_unique_version)
                + "("@ + f_name@ + ", "@ + x_name@ + ")"@,
            defn_type(struct_defn@),
        ),
{
    let mut name = struct_name.to_string();
    name.append(".mod_");
    name.append(field_name);
    if is_unique_version {
        name.append("!");
    }
    name.append("(");
    name.append(f_name);
    name.append(", ");
    name.append(x_name);
    name.append(")");
    assert(name@ =~= full_name_str(struct_name@) + ".mod_"@ + with_bang(
        field_name@,
        is_unique_version,
    ) + "("@ + f_name@ + ", "@ + x_name@ + ")"@);
    op_lit(
        BuiltinOp::StructMod { field_count, field_idx, is_unique: is_unique_version },
        names2(f_name, x_name),
        name,
        struct_defn.ty(),
    )
}

/// `mod_{field}, mod_{field}! : ({field type} -> {field type}) -> {struct} -> {struct}`;
/// an error when the struct has no such field.
pub fn struct_mod(
    struct_name: &FullName,
    definition: &TypeDefn,
    field_name: &str,
    is_unique_version: bool,
) -> (r: Result<(Arc<ExprNode>, Arc<Scheme>), String>)
    ensures
        r is Err <==> field_index(definition@.fields, field_name@) is None,
        r matches Err(m) ==> m@ == no_struct_field_msg(
            "error: no field `"@,
            field_name@,
            struct_name@,
        ),
        r matches Ok(p) ==> {
            let i = field_index(definition@.fields, field_name@)->Some_0;
            let fty = definition@.fields[i as int].ty;
            let sty = defn_type(definition@);
            &&& p.0@ == s_lam(
                "f"@,
                s_lam(
                    "x"@,
                    s_lit(
                        SGen::Op(
                            BuiltinOp::StructMod {
                                field_count: definition@.fields.len() as usize,
                                field_idx: i as usize,
                                is_unique: is_unique_version,
                            },
                        ),
                        seq!["f"@, "x"@],
                        full_name_str(struct_name@) + ".mod_"@ + with_bang(
                            field_name@,
                            is_unique_version,
                        ) + "("@ + "f"@ + ", "@ + "x"@ + ")"@,
                        sty,
                    ),
                ),
            )
            &&& p.1@ == gen_scheme(s_fun(s_fun(fty, fty), s_fun(sty, sty)))
        },
{
    let field = definition.get_field_by_name(field_name);
    if field.is_none() {
        return Err(no_struct_field_message("error: no field `", field_name, struct_name));
    }
    let (field_idx, field) = field.unwrap();
    let field_count = definition.fields().len();
    let str_ty = definition.ty();
    let expr = lam(
        "f",
        lam(
            "x",
            struct_mod_lit(
                "f",
                "x",
                field_count,
                field_idx,
                struct_name,
                definition,
                field_name,
                is_unique_version,
            ),
        ),
    );
    let ty = type_fun(
        type_fun(field.ty.clone(), field.ty.clone()),
        type_fun(str_ty.clone(), str_ty.clone()),
    );
    let scm = generalize_free(ty);
    Ok((expr, scm))
}

/// `={field}, ={field}! : {field type} -> {struct} -> {struct}`; an error when the struct
/// has no such field.
pub fn struct_set(
    struct_name: &FullName,
    definition: &TypeDefn,
    field_name: &str,
    is_unique_version: bool,
) -> (r: Result<(Arc<ExprNode>, Arc<Scheme>), String>)
    ensures
        r is Err <==> field_index(definition@.fields, field_name@) is None,
        r matches Err(m) ==> m@ == no_struct_field_msg("No field `"@, field_name@, struct_name@),
        r matches Ok(p) ==> {
            let i = field_index(definition@.fields, field_name@)->Some_0;
            let fty = definition@.fields[i as int].ty;
            let sty = defn_type(definition@);
            &&& p.0@ == s_lam(
                "val"@,
                s_lam(
                    "str"@,
                    s_lit(
                        SGen::Op(
                            BuiltinOp::StructSet {
                                field_count: definition@.fields.len() as usize,
                                field_idx: i as usize,
                                is_unique: is_unique_version,
                            },
                        ),
                        seq!["val"@, "str"@],
                        "str"@ + "."@ + "="@ + with_bang(field_name@, is_unique_version) + "("@
                            + "val"@ + ")"@,
                        sty,
                    ),
                ),
            )
            &&& p.1@ == gen_scheme(s_fun(fty, s_fun(sty, sty)))
        },
{
    let field = definition.get_field_by_name(field_name);
    if field.is_none() {
        return Err(no_struct_field_message("No field `", field_name, struct_name));
    }
    let (field_idx, field) = field.unwrap();
    let field_count = definition.fields().len();
    let str_ty = definition.ty();
    let mut name = String::from_str("str");
    name.append(".");
    name.append(SETTER_SYMBOL);
    name.append(field_name);
    if is_unique_version {
        name.append("!");
    }
    name.append("(");
    name.append("val");
    name.append(")");
    assert(name@ =~= "str"@ + "."@ + "="@ + with_bang(field_name@, is_unique_version) + "("@
        + "val"@ + ")"@);
    let expr = lam(
        "val",
        lam(
            "str",
            op_lit(
                BuiltinOp::StructSet { field_count, field_idx, is_unique: is_unique_version },
                names2("val", "str"),
                name,
                str_ty.clone(),
            ),
        ),
    );
    let ty = type_fun(field.ty.clone(), type_fun(str_ty.clone(), str_ty.clone()));
    let scm = generalize_free(ty);
    Ok((expr, scm))
}

/// The literal that builds the union from the value of its field `field_name`.
pub fn union_new_lit(
    union_name: &FullName,
    union_defn: &TypeDefn,
    field_name: &Name,
    field_idx: usize,
) -> (r: Arc<ExprNode>)
    ensures
        r@ == s_lit(
            SGen::Op(BuiltinOp::UnionNew { field_idx }),
            seq![field_name@],
            full_name_str(union_name@) + ".new_"@ + field_name@,
            defn_type(union_defn@),
        ),
{
    let mut name = union_name.to_string();
    name.append(".new_");
    name.append(field_name.as_str());
    op_lit(
        BuiltinOp::UnionNew { field_idx },
        names1(field_name.as_str()),
        name,
        union_defn.ty(),
    )
}

/// `{field} : {field type} -> {union}`; an error when the union has no such field.
pub fn union_new(union_name: &FullName, field_name: &Name, union: &TypeDefn) -> (r: Result<
    (Arc<ExprNode>, Arc<Scheme>),
    String,
>)
    ensures
        r is Err <==> field_index(union@.fields, field_name@) is None,
        r matches Err(m) ==> m@ == no_union_field_msg(field_name@, union_name@),
        r matches Ok(p) ==> {
            let i = field_index(union@.fields, field_name@)->Some_0;
            let fty = union@.fields[i as int].ty;
            &&& p.0@ == s_lam(
                field_name@,
                s_lit(
                    SGen::Op(BuiltinOp::UnionNew { field_idx: i as usize }),
                    seq![field_name@],
                    full_name_str(union_name@) + ".new_"@ + field_name@,
                    defn_type(union@),
                ),
            )
            &&& p.1@ == gen_scheme(s_fun(fty, defn_type(union@)))
        },
{
    let field = union.get_field_by_name(field_name.as_str());
    if field.is_none() {
        return Err(no_union_field_message(field_name, union_name));
    }
    let (field_idx, field) = field.unwrap();
    let expr = lam(field_name.as_str(), union_new_lit(union_name, union, field_name, field_idx));
    let ty = type_fun(field.ty.clone(), union.ty());
    let scm = generalize_free(ty);
    Ok((expr, scm))
}

/// The literal that reads field `field_name` of the union in `union_arg_name`.
pub fn union_as_lit(
    union_name: &FullName,
    union_arg_name: &Name,
    field_name: &Name,
    field_idx: usize,
    field_ty: Arc<TypeNode>,
) -> (r: Arc<ExprNode>)
    ensures
        r@ == s_lit(
            SGen::Op(BuiltinOp::UnionAs { field_idx }),
            seq![union_arg_name@],
            full_name_str(union_name@) + ".as_"@ + field_name@,
            field_ty@,
        ),
{
    let mut name = union_name.to_string();
    name.append(".as_");
    name.append(field_name.as_str());
    op_lit(BuiltinOp::UnionAs { field_idx }, names1(union_arg_name.as_str()), name, field_ty)
}

/// `as_{field} : {union} -> {field type}`; an error when the union has no such field.
pub fn union_as(union_name: &FullName, field_name: &Name, union: &TypeDefn) -> (r: Result<
    (Arc<ExprNode>, Arc<Scheme>),
    String,
>)
    ensures
        r is Err <==> field_index(union@.fields, field_name@) is None,
        r matches Err(m) ==> m@ == no_union_field_msg(field_name@, union_name@),
        r matches Ok(p) ==> {
            let i = field_index(union@.fields, field_name@)->Some_0;
            let fty = union@.fields[i as int].ty;
            &&& p.0@ == s_lam(
                "union"@,
                s_lit(
                    SGen::Op(BuiltinOp::UnionAs { field_idx: i as usize }),
                    seq!["union"@],
                    full_name_str(union_name@) + ".as_"@ + field_name@,
                    fty,
                ),
            )
            &&& p.1@ == gen_scheme(s_fun(defn_type(union@), fty))
        },
{
    let field = union.get_field_by_name(field_name.as_str());
    if field.is_none() {
        return Err(no_union_field_message(field_name, union_name));
    }
    let (field_idx, field) = field.unwrap();
    let union_arg_name = String::from_str("union");
    let expr = lam(
        "union",
        union_as_lit(union_name, &union_arg_name, field_name, field_idx, field.ty.clone()),
    );
    let ty = type_fun(union.ty(), field.ty.clone());
    let scm = generalize_free(ty);
    Ok((expr, scm))
}

/// The literal that tests whether the union in `union_arg_name` holds field `field_name`.
pub fn union_is_lit(
    union_name: &FullName,
    union_arg_name: &Name,
    field_name: &Name,
    field_idx: usize,
) -> (r: Arc<ExprNode>)
    ensures
        r@ == s_lit(
            SGen::Op(BuiltinOp::UnionIs { field_idx }),
            seq![union_arg_name@],
            full_name_str(union_name@) + ".is_"@ + field_name@,
            s_std("Bool"@),
        ),
{
    let mut name = union_name.to_string();
    name.append(".is_");
    name.append(field_name.as_str());
    op_lit(BuiltinOp::UnionIs { field_idx }, names1(union_arg_name.as_str()), name, make_bool_ty())
}

/// `is_{field} : {union} -> Bool`; an error when the union has no such field.
pub fn union_is(union_name: &FullName, field_name: &Name, union: &TypeDefn) -> (r: Result<
    (Arc<ExprNode>, Arc<Scheme>),
    String,
>)
    ensures
        r is Err <==> field_index(union@.fields, field_name@) is None,
        r matches Err(m) ==> m@ == no_union_field_msg(field_name@, union_name@),
        r matches Ok(p) ==> {
            let i = field_index(union@.fields, field_name@)->Some_0;
            &&& p.0@ == s_lam(
                "union"@,
                s_lit(
                    SGen::Op(BuiltinOp::UnionIs { field_idx: i as usize }),
                    seq!["union"@],
                    full_name_str(union_name@) + ".is_"@ + field_name@,
                    s_std("Bool"@),
                ),
            )
            &&& p.1@ == gen_scheme(s_fun(defn_type(union@), s_std("Bool"@)))
        },
{
    let field = union.get_field_by_name(field_name.as_str());
    if field.is_none() {
        return Err(no_union_field_message(field_name, union_name));
    }
    let (field_idx, _) = field.unwrap();
    let union_arg_name = String::from_str("union");
    let expr = lam("union", union_is_lit(union_name, &union_arg_name, field_name, field_idx));
    let ty = type_fun(union.ty(), make_bool_ty());
    let scm = generalize_free(ty);
    Ok((expr, scm))
}

/// `mod_{field} : ({field type} -> {field type}) -> {union} -> {union}`, which applies the
/// function when the union holds the field; an error when the union has no such field.
/// Its scheme generalizes no variable.
pub fn union_mod_function(union_name: &FullName, field_name: &Name, union: &TypeDefn) -> (r:
    Result<(Arc<ExprNode>, Arc<Scheme>), String>)
    ensures
        r is Err <==> field_index(union@.fields, field_name@) is None,
        r matches Err(m) ==> m@ == no_union_field_msg(field_name@, union_name@),
        r matches Ok(p) ==> {
            let i = field_index(union@.fields, field_name@)->Some_0;
            let fty = union@.fields[i as int].ty;
            let uty = defn_type(union@);
            &&& p.0@ == s_lam(
                "modifier"@,
                s_lam(
                    "union_value"@,
                    s_lit(
                        SGen::Op(BuiltinOp::UnionMod { field_idx: i as usize }),
                        seq!["modifier"@, "union_value"@],
                        "mod_"@ + field_name@ + "("@ + "modifier"@ + ", "@ + "union_value"@
                            + ")"@,
                        uty,
                    ),
                ),
            )
            &&& p.1@ == s_scheme(Seq::empty(), s_fun(s_fun(fty, fty), s_fun(uty, uty)))
        },
{
    let field = union.get_field_by_name(field_name.as_str());
    if field.is_none() {
        return Err(no_union_field_message(field_name, union_name));
    }
    let (field_idx, field) = field.unwrap();
    let union_ty = union.ty();
    let field_ty = field.ty.clone();
    let mut name = String::from_str("mod_");
    name.append(field_name.as_str());
    name.append("(");
    name.append("modifier");
    name.append(", ");
    name.append("union_value");
    name.append(")");
    let expr = lam(
        "modifier",
        lam(
            "union_value",
            op_lit(
                BuiltinOp::UnionMod { field_idx },
                names2("modifier", "union_value"),
                name,
                union_ty.clone(),
            ),
        ),
    );
    let ty = type_fun(
        type_fun(field_ty.clone(), field_ty),
        type_fun(union_ty.clone(), union_ty),
    );
    let scm = scheme_star(names0(), ty);
    assert(star_vars(Seq::empty()) =~= Seq::empty());
    Ok((expr, scm))
}

/// `to_string` reads a value of an integer type with that type's own signedness and width:
/// on every value of the type it gives the decimal text of the integer the value stands for.
pub proof fn lemma_to_string_reads_its_type(
    ty: SType,
    name: Seq<char>,
    bits: nat,
    env: Map<Seq<char>, RtValue>,
    shared: bool,
    apply: spec_fn(RtValue, RtValue) -> RtValue,
)
    requires
        int_kind(ty) is Some,
    ensures
        ({
            let (signed, width) = int_kind(ty)->Some_0;
            let f = number_format_spec(head_tycon(ty)->Some_0.name)->Some_0;
            let body = s_lam(
                "number"@,
                s_lit(
                    SGen::Op(BuiltinOp::NumberToString { buf_size: f.0, format: f.1 }),
                    seq!["number"@],
                    name,
                    s_std("String"@),
                ),
            );
            &&& is_number_type(ty)
            &&& eval_call(body, seq![RtValue::Int { signed, width, bits }], env, shared, apply)
                == Outcome::Value(RtValue::Str(int_str(int_value(signed, width, bits))))
        }),
{
    reveal_strlit("U8");
    reveal_strlit("I32");
    reveal_strlit("U32");
    reveal_strlit("I64");
    reveal_strlit("U64");
    reveal_strlit("F32");
    reveal_strlit("F64");
    reveal_strlit("number");
    let (signed, width) = int_kind(ty)->Some_0;
    let n = head_tycon(ty)->Some_0.name;
    assert("U8"@[0] == 'U' && "U32"@[0] == 'U' && "U64"@[0] == 'U');
    assert("I32"@[0] == 'I' && "I64"@[0] == 'I' && "F32"@[0] == 'F' && "F64"@[0] == 'F');
    assert("U8"@.len() == 2 && "U32"@[1] == '3' && "U64"@[1] == '6');
    assert("I32"@[1] == '3' && "I64"@[1] == '6');
    let f = number_format_spec(n)->Some_0;
    assert(number_format_spec(n) is Some);
    assert(int_format(f.1) == Some((signed, width)));
    let v = RtValue::Int { signed, width, bits };
    let env2 = env.insert("number"@, v);
    assert(seq!["number"@].map_values(|x: Seq<char>| env2[x]) =~= seq![v]);
    assert(seq![v].drop_first() =~= Seq::<RtValue>::empty());
    let lit = s_lit(
        SGen::Op(BuiltinOp::NumberToString { buf_size: f.0, format: f.1 }),
        seq!["number"@],
        name,
        s_std("String"@),
    );
    assert(eval_call(lit, Seq::empty(), env2, shared, apply) == Outcome::Value(
        RtValue::Str(int_str(int_value(signed, width, bits))),
    ));
    assert(eval_call(s_lam("number"@, lit), seq![v], env, shared, apply) == eval_call(
        lit,
        Seq::empty(),
        env2,
        shared,
        apply,
    ));
}

/// A cast to a wider integer type of `Std` keeps the value of every operand, unless it takes
/// a signed type to an unsigned one.
pub proof fn lemma_integral_cast_keeps_value(
    from: SType,
    to: SType,
    bits: nat,
    env: Map<Seq<char>, RtValue>,
    shared: bool,
    apply: spec_fn(RtValue, RtValue) -> RtValue,
)
    requires
        int_kind(from) is Some,
        int_kind(to) is Some,
        int_kind(from)->Some_0.1 < int_kind(to)->Some_0.1,
        int_kind(from)->Some_0.0 ==> int_kind(to)->Some_0.0,
        bits < pow2(int_kind(from)->Some_0.1),
    ensures
        ({
            let (sf, wf) = int_kind(from)->Some_0;
            let op = BuiltinOp::CastIntegral { is_signed: head_is_signed(from) && head_is_signed(to) };
            let r = eval_call(
                cast_expr(op, from, to),
                seq![RtValue::Int { signed: sf, width: wf, bits }],
                env,
                shared,
                apply,
            );
            &&& r is Value
            &&& value_of(r->Value_0) == int_value(sf, wf, bits)
        }),
{
    let (sf, wf) = int_kind(from)->Some_0;
    let (st, wt) = int_kind(to)->Some_0;
    lemma_int_kind_signedness(from);
    lemma_int_kind_signedness(to);
    reveal_strlit("from");
    let v = RtValue::Int { signed: sf, width: wf, bits };
    let env2 = env.insert("from"@, v);
    assert(seq!["from"@].map_values(|x: Seq<char>| env2[x]) =~= seq![v]);
    assert(seq![v].drop_first() =~= Seq::<RtValue>::empty());
    lemma_widening_cast_keeps_value(sf, wf, bits, st, wt);
    let op = BuiltinOp::CastIntegral { is_signed: head_is_signed(from) && head_is_signed(to) };
    let lit = s_lit(SGen::Op(op), seq!["from"@], cast_name(from, to), to);
    let out = RtValue::Int {
        signed: st,
        width: wt,
        bits: cast_bits(bits, wf, wt, sf && st),
    };
    assert(eval_call(lit, Seq::empty(), env2, shared, apply) == Outcome::Value(out));
    assert(eval_call(cast_expr(op, from, to), seq![v], env, shared, apply) == eval_call(
        lit,
        Seq::empty(),
        env2,
        shared,
        apply,
    ));
}

/// The signedness of every integer type of `Std` is what `is_signed_integer_tycon` says of
/// its constructor: `I32` and `I64` are signed, `U8`, `U32` and `U64` are not.
pub proof fn lemma_int_kind_signedness(ty: SType)
    requires
        int_kind(ty) is Some,
    ensures
        int_kind(ty)->Some_0.0 == head_is_signed(ty),
        int_kind(ty)->Some_0.1 > 0,
{
    reveal_strlit("U8");
    reveal_strlit("I8");
    reveal_strlit("I16");
    reveal_strlit("I32");
    reveal_strlit("U32");
    reveal_strlit("I64");
    reveal_strlit("U64");
    let n = head_tycon(ty)->Some_0.name;
    assert("I8"@[0] == 'I' && "I16"@[0] == 'I' && "I32"@[0] == 'I' && "I64"@[0] == 'I');
    if n == "U8"@ || n == "U32"@ || n == "U64"@ {
        assert(n[0] == 'U');
    } else if n == "I32"@ {
        assert(n == "I32"@);
    }
}

} // verus!
