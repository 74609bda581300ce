//! The built-in operator traits and their instances for the primitive types.

use crate::builtin::{make_bool_ty, s_lit, std_full, std_name};
use crate::builtin_fns::{lam, names1, names2, op_lit, s_lam};
use crate::constants::STD_NAME;
use crate::expr::{ExprNode, SNode};
use crate::inline_llvm::{BuiltinOp, OperatorKind, SGen};
use crate::name::{copy_string, Name, SFullName};
use crate::types::{
    kind_sigs_view, kind_star, preds_view, KindSignature, s_fun, s_std, s_var, tyvar_from_name, type_fun, type_tyvar, Kind,
    Predicate, SPredicate, SType, TraitId, TyVar, TypeNode,
};
use crate::semantics::{
    eval_call, eval_operator, int_of, int_value, lemma_arith_exact, value_of, Outcome, RtValue,
};
use std::sync::Arc;
use vstd::arithmetic::power2::pow2;
use vstd::prelude::*;

verus! {

pub const EQ_TRAIT_NAME: &'static str = "Eq";

pub const EQ_TRAIT_EQ_NAME: &'static str = "eq";

pub const LESS_THAN_TRAIT_NAME: &'static str = "LessThan";

pub const LESS_THAN_TRAIT_LT_NAME: &'static str = "less_than";

pub const LESS_THAN_OR_EQUAL_TO_TRAIT_NAME: &'static str = "LessThanOrEq";

pub const LESS_THAN_OR_EQUAL_TO_TRAIT_OP_NAME: &'static str = "less_than_or_eq";

pub const ADD_TRAIT_NAME: &'static str = "Add";

pub const ADD_TRAIT_ADD_NAME: &'static str = "add";

pub const SUBTRACT_TRAIT_NAME: &'static str = "Sub";

pub const SUBTRACT_TRAIT_SUBTRACT_NAME: &'static str = "sub";

pub const MULTIPLY_TRAIT_NAME: &'static str = "Mul";

pub const MULTIPLY_TRAIT_MULTIPLY_NAME: &'static str = "mul";

pub const DIVIDE_TRAIT_NAME: &'static str = "Div";

pub const DIVIDE_TRAIT_DIVIDE_NAME: &'static str = "div";

pub const REMAINDER_TRAIT_NAME: &'static str = "Rem";

pub const REMAINDER_TRAIT_REMAINDER_NAME: &'static str = "rem";

pub const NEGATE_TRAIT_NAME: &'static str = "Neg";

pub const NEGATE_TRAIT_NEGATE_NAME: &'static str = "neg";

pub const NOT_TRAIT_NAME: &'static str = "Not";

pub const NOT_TRAIT_OP_NAME: &'static str = "not";

/// A type with predicates on its variables.
pub struct QualType {
    pub preds: Vec<Predicate>,
    pub kind_preds: Vec<KindSignature>,
    pub ty: Arc<TypeNode>,
}

pub struct SQualType {
    pub preds: Seq<SPredicate>,
    pub kind_preds: Seq<(Seq<char>, Kind)>,
    pub ty: SType,
}

impl View for QualType {
    type V = SQualType;

    open spec fn view(&self) -> SQualType {
        SQualType {
            preds: preds_view(self.preds@),
            kind_preds: kind_sigs_view(self.kind_preds@),
            ty: self.ty@,
        }
    }
}

/// A trait: its name, the type variable it is about, and the types of its methods.
pub struct TraitInfo {
    pub id: TraitId,
    pub type_var: Arc<TyVar>,
    pub methods: Vec<(Name, QualType)>,
    pub kind_predicates: Vec<KindSignature>,
}

pub struct STraitInfo {
    pub id: SFullName,
    pub type_var: (Seq<char>, Kind),
    pub methods: Seq<(Seq<char>, SQualType)>,
    pub kind_predicates: Seq<(Seq<char>, Kind)>,
}

impl View for TraitInfo {
    type V = STraitInfo;

    open spec fn view(&self) -> STraitInfo {
        STraitInfo {
            id: self.id@,
            type_var: (self.type_var.name@, *self.type_var.kind),
            methods: self.methods@.map_values(|m: (Name, QualType)| (m.0@, m.1@)),
            kind_predicates: kind_sigs_view(self.kind_predicates@),
        }
    }
}

/// A predicate under a context of predicates.
pub struct QualPredicate {
    pub context: Vec<Predicate>,
    pub kind_preds: Vec<KindSignature>,
    pub predicate: Predicate,
}

/// An instance of a trait: the predicate it proves, its methods, and the module that
/// defines it.
pub struct TraitInstance {
    pub qual_pred: QualPredicate,
    pub methods: Vec<(Name, Arc<ExprNode>)>,
    pub define_module: Name,
}

pub struct STraitInstance {
    pub context: Seq<SPredicate>,
    pub kind_preds: Seq<(Seq<char>, Kind)>,
    pub predicate: SPredicate,
    pub methods: Seq<(Seq<char>, SNode)>,
    pub define_module: Seq<char>,
}

impl View for TraitInstance {
    type V = STraitInstance;

    open spec fn view(&self) -> STraitInstance {
        STraitInstance {
            context: preds_view(self.qual_pred.context@),
            kind_preds: kind_sigs_view(self.qual_pred.kind_preds@),
            predicate: self.qual_pred.predicate@,
            methods: self.methods@.map_values(|m: (Name, Arc<ExprNode>)| (m.0@, m.1@)),
            define_module: self.define_module@,
        }
    }
}

/// A trait over the type variable `a` whose only method, `method`, has the type `ty`.
pub open spec fn trait_spec(id: SFullName, method: Seq<char>, ty: SType) -> STraitInfo {
    STraitInfo {
        id,
        type_var: ("a"@, Kind::Star),
        methods: seq![(method, SQualType { preds: Seq::empty(), kind_preds: Seq::empty(), ty })],
        kind_predicates: Seq::empty(),
    }
}

fn single_method_trait(trait_id: TraitId, method_name: Name, ty: Arc<TypeNode>) -> (r: TraitInfo)
    ensures
        r@ == trait_spec(trait_id@, method_name@, ty@),
{
    let kind = kind_star();
    let tv_tyvar = tyvar_from_name("a", &kind);
    let mut methods: Vec<(Name, QualType)> = Vec::new();
    let qt = QualType { preds: Vec::new(), kind_preds: Vec::new(), ty };
    assert(qt@.preds =~= Seq::<SPredicate>::empty());
    assert(qt@.kind_preds =~= Seq::<(Seq<char>, Kind)>::empty());
    methods.push((method_name, qt));
    let r = TraitInfo { id: trait_id, type_var: tv_tyvar, methods, kind_predicates: Vec::new() };
    assert(r@.methods =~= seq![
        (method_name@, SQualType { preds: Seq::empty(), kind_preds: Seq::empty(), ty: ty@ }),
    ]);
    assert(r@.kind_predicates =~= Seq::<(Seq<char>, Kind)>::empty());
    r
}

/// A trait with one method `a -> a`.
pub fn unary_operator_trait(trait_id: TraitId, method_name: Name) -> (r: TraitInfo)
    ensures
        r@ == trait_spec(trait_id@, method_name@, s_fun(s_var("a"@), s_var("a"@))),
{
    let kind = kind_star();
    let tv_type = type_tyvar("a", &kind);
    single_method_trait(trait_id, method_name, type_fun(tv_type.clone(), tv_type))
}

/// A trait with one method `a -> a -> out`, where `out` is `a` when not given.
pub fn binary_operator_trait(
    trait_id: TraitId,
    method_name: Name,
    output_ty: Option<Arc<TypeNode>>,
) -> (r: TraitInfo)
    ensures
        r@ == trait_spec(
            trait_id@,
            method_name@,
            s_fun(
                s_var("a"@),
                s_fun(
                    s_var("a"@),
                    match output_ty {
                        Some(t) => t@,
                        None => s_var("a"@),
                    },
                ),
            ),
        ),
{
    let kind = kind_star();
    let tv_type = type_tyvar("a", &kind);
    let output_ty = match output_ty {
        Some(t) => t,
        None => tv_type.clone(),
    };
    single_method_trait(
        trait_id,
        method_name,
        type_fun(tv_type.clone(), type_fun(tv_type, output_ty)),
    )
}

/// The instance of a trait for one type, with one method given by a literal.
pub open spec fn instance_spec(
    trait_id: SFullName,
    operand: SType,
    method: Seq<char>,
    body: SNode,
) -> STraitInstance {
    STraitInstance {
        context: Seq::empty(),
        kind_preds: Seq::empty(),
        predicate: SPredicate { trait_id, ty: operand },
        methods: seq![(method, body)],
        define_module: "Std"@,
    }
}

fn single_method_instance(
    trait_id: TraitId,
    method_name: &Name,
    operand_ty: Arc<TypeNode>,
    body: Arc<ExprNode>,
) -> (r: TraitInstance)
    ensures
        r@ == instance_spec(trait_id@, operand_ty@, method_name@, body@),
{
    let ctx: Vec<Predicate> = Vec::new();
    assert(preds_view(ctx@) =~= Seq::<SPredicate>::empty());
    let mut methods: Vec<(Name, Arc<ExprNode>)> = Vec::new();
    methods.push((copy_string(method_name), body));
    let r = TraitInstance {
        qual_pred: QualPredicate {
            context: ctx,
            kind_preds: Vec::new(),
            predicate: Predicate::make(trait_id, operand_ty),
        },
        methods,
        define_module: String::from_str(STD_NAME),
    };
    assert(r@.methods =~= seq![(method_name@, body@)]);
    assert(r@.kind_preds =~= Seq::<(Seq<char>, Kind)>::empty());
    r
}

/// The method body `\rhs -> op(rhs)` of a unary operator.
pub open spec fn unary_body(op: OperatorKind, method: Seq<char>, result: SType) -> SNode {
    s_lam("rhs"@, s_lit(SGen::Op(BuiltinOp::Operator(op)), seq!["rhs"@], method, result))
}

/// The method body `\lhs -> \rhs -> op(lhs, rhs)` of a binary operator.
pub open spec fn binary_body(op: OperatorKind, method: Seq<char>, result: SType) -> SNode {
    s_lam(
        "lhs"@,
        s_lam(
            "rhs"@,
            s_lit(SGen::Op(BuiltinOp::Operator(op)), seq!["lhs"@, "rhs"@], method, result),
        ),
    )
}

/// The instance of a unary operator trait for `operand_ty`.
pub fn unary_opeartor_instance(
    trait_id: TraitId,
    method_name: &Name,
    operand_ty: Arc<TypeNode>,
    result_ty: Arc<TypeNode>,
    op: OperatorKind,
) -> (r: TraitInstance)
    ensures
        r@ == instance_spec(
            trait_id@,
            operand_ty@,
            method_name@,
            unary_body(op, method_name@, result_ty@),
        ),
{
    let body = lam(
        "rhs",
        op_lit(BuiltinOp::Operator(op), names1("rhs"), copy_string(method_name), result_ty),
    );
    single_method_instance(trait_id, method_name, operand_ty, body)
}

/// The instance of a binary operator trait for `operand_ty`.
pub fn binary_opeartor_instance(
    trait_id: TraitId,
    method_name: &Name,
    operand_ty: Arc<TypeNode>,
    result_ty: Arc<TypeNode>,
    op: OperatorKind,
) -> (r: TraitInstance)
    ensures
        r@ == instance_spec(
            trait_id@,
            operand_ty@,
            method_name@,
            binary_body(op, method_name@, result_ty@),
        ),
{
    let body = lam(
        "lhs",
        lam(
            "rhs",
            op_lit(
                BuiltinOp::Operator(op),
                names2("lhs", "rhs"),
                copy_string(method_name),
                result_ty,
            ),
        ),
    );
    single_method_instance(trait_id, method_name, operand_ty, body)
}

fn std_trait_id(name: &str) -> (r: TraitId)
    ensures
        r@ == std_full(name@),
{
    TraitId { name: std_name(name) }
}

/// A binary operator trait of `Std` whose method returns `Bool`.
pub open spec fn bool_binary_trait(trait_name: Seq<char>, method: Seq<char>) -> STraitInfo {
    trait_spec(
        std_full(trait_name),
        method,
        s_fun(s_var("a"@), s_fun(s_var("a"@), s_std("Bool"@))),
    )
}

/// A binary operator trait of `Std` whose method returns its operand type.
pub open spec fn closed_binary_trait(trait_name: Seq<char>, method: Seq<char>) -> STraitInfo {
    trait_spec(std_full(trait_name), method, s_fun(s_var("a"@), s_fun(s_var("a"@), s_var("a"@))))
}

/// The instance of a binary operator of `Std` for `ty`, whose method returns `result`.
pub open spec fn std_binary_instance(
    trait_name: Seq<char>,
    method: Seq<char>,
    ty: SType,
    result: SType,
    op: OperatorKind,
) -> STraitInstance {
    instance_spec(std_full(trait_name), ty, method, binary_body(op, method, result))
}

/// The instance of a unary operator of `Std` for `ty`, whose method returns `result`.
pub open spec fn std_unary_instance(
    trait_name: Seq<char>,
    method: Seq<char>,
    ty: SType,
    result: SType,
    op: OperatorKind,
) -> STraitInstance {
    instance_spec(std_full(trait_name), ty, method, unary_body(op, method, result))
}

pub fn eq_trait_id() -> (r: TraitId)
    ensures
        r@ == std_full("Eq"@),
{
    std_trait_id(EQ_TRAIT_NAME)
}

/// `trait a : Eq { eq : a -> a -> Bool }`.
pub fn eq_trait() -> (r: TraitInfo)
    ensures
        r@ == bool_binary_trait("Eq"@, "eq"@),
{
    binary_operator_trait(eq_trait_id(), String::from_str(EQ_TRAIT_EQ_NAME), Some(make_bool_ty()))
}

pub fn eq_trait_instance_int(ty: Arc<TypeNode>) -> (r: TraitInstance)
    ensures
        r@ == std_binary_instance("Eq"@, "eq"@, ty@, s_std("Bool"@), OperatorKind::EqInt),
{
    binary_opeartor_instance(
        eq_trait_id(),
        &String::from_str(EQ_TRAIT_EQ_NAME),
        ty,
        make_bool_ty(),
        OperatorKind::EqInt,
    )
}

pub fn eq_trait_instance_ptr(ty: Arc<TypeNode>) -> (r: TraitInstance)
    ensures
        r@ == std_binary_instance("Eq"@, "eq"@, ty@, s_std("Bool"@), OperatorKind::EqPtr),
{
    binary_opeartor_instance(
        eq_trait_id(),
        &String::from_str(EQ_TRAIT_EQ_NAME),
        ty,
        make_bool_ty(),
        OperatorKind::EqPtr,
    )
}

pub fn eq_trait_instance_float(ty: Arc<TypeNode>) -> (r: TraitInstance)
    ensures
        r@ == std_binary_instance("Eq"@, "eq"@, ty@, s_std("Bool"@), OperatorKind::EqFloat),
{
    binary_opeartor_instance(
        eq_trait_id(),
        &String::from_str(EQ_TRAIT_EQ_NAME),
        ty,
        make_bool_ty(),
        OperatorKind::EqFloat,
    )
}

pub fn less_than_trait_id() -> (r: TraitId)
    ensures
        r@ == std_full("LessThan"@),
{
    std_trait_id(LESS_THAN_TRAIT_NAME)
}

/// `trait a : LessThan { less_than : a -> a -> Bool }`.
pub fn less_than_trait() -> (r: TraitInfo)
    ensures
        r@ == bool_binary_trait("LessThan"@, "less_than"@),
{
    binary_operator_trait(
        less_than_trait_id(),
        String::from_str(LESS_THAN_TRAIT_LT_NAME),
        Some(make_bool_ty()),
    )
}

pub fn less_than_trait_instance_int(ty: Arc<TypeNode>) -> (r: TraitInstance)
    ensures
        r@ == std_binary_instance(
            "LessThan"@,
            "less_than"@,
            ty@,
            s_std("Bool"@),
            OperatorKind::LessThanInt,
        ),
{
    binary_opeartor_instance(
        less_than_trait_id(),
        &String::from_str(LESS_THAN_TRAIT_LT_NAME),
        ty,
        make_bool_ty(),
        OperatorKind::LessThanInt,
    )
}

pub fn less_than_trait_instance_float(ty: Arc<TypeNode>) -> (r: TraitInstance)
    ensures
        r@ == std_binary_instance(
            "LessThan"@,
            "less_than"@,
            ty@,
            s_std("Bool"@),
            OperatorKind::LessThanFloat,
        ),
{
    binary_opeartor_instance(
        less_than_trait_id(),
        &String::from_str(LESS_THAN_TRAIT_LT_NAME),
        ty,
        make_bool_ty(),
        OperatorKind::LessThanFloat,
    )
}

pub fn less_than_or_equal_to_trait_id() -> (r: TraitId)
    ensures
        r@ == std_full("LessThanOrEq"@),
{
    std_trait_id(LESS_THAN_OR_EQUAL_TO_TRAIT_NAME)
}

/// `trait a : LessThanOrEq { less_than_or_eq : a -> a -> Bool }`.
pub fn less_than_or_equal_to_trait() -> (r: TraitInfo)
    ensures
        r@ == bool_binary_trait("LessThanOrEq"@, "less_than_or_eq"@),
{
    binary_operator_trait(
        less_than_or_equal_to_trait_id(),
        String::from_str(LESS_THAN_OR_EQUAL_TO_TRAIT_OP_NAME),
        Some(make_bool_ty()),
    )
}

pub fn less_than_or_equal_to_trait_instance_int(ty: Arc<TypeNode>) -> (r: TraitInstance)
    ensures
        r@ == std_binary_instance(
            "LessThanOrEq"@,
            "less_than_or_eq"@,
            ty@,
            s_std("Bool"@),
            OperatorKind::LessThanOrEqInt,
        ),
{
    binary_opeartor_instance(
        less_than_or_equal_to_trait_id(),
        &String::from_str(LESS_THAN_OR_EQUAL_TO_TRAIT_OP_NAME),
        ty,
        make_bool_ty(),
        OperatorKind::LessThanOrEqInt,
    )
}

pub fn less_than_or_equal_to_trait_instance_float(ty: Arc<TypeNode>) -> (r: TraitInstance)
    ensures
        r@ == std_binary_instance(
            "LessThanOrEq"@,
            "less_than_or_eq"@,
            ty@,
            s_std("Bool"@),
            OperatorKind::LessThanOrEqFloat,
        ),
{
    binary_opeartor_instance(
        less_than_or_equal_to_trait_id(),
        &String::from_str(LESS_THAN_OR_EQUAL_TO_TRAIT_OP_NAME),
        ty,
        make_bool_ty(),
        OperatorKind::LessThanOrEqFloat,
    )
}

pub fn add_trait_id() -> (r: TraitId)
    ensures
        r@ == std_full("Add"@),
{
    std_trait_id(ADD_TRAIT_NAME)
}

/// `trait a : Add { add : a -> a -> a }`.
pub fn add_trait() -> (r: TraitInfo)
    ensures
        r@ == closed_binary_trait("Add"@, "add"@),
{
    binary_operator_trait(add_trait_id(), String::from_str(ADD_TRAIT_ADD_NAME), None)
}

pub fn add_trait_instance_int(ty: Arc<TypeNode>) -> (r: TraitInstance)
    ensures
        r@ == std_binary_instance("Add"@, "add"@, ty@, ty@, OperatorKind::AddInt),
{
    binary_opeartor_instance(
        add_trait_id(),
        &String::from_str(ADD_TRAIT_ADD_NAME),
        ty.clone(),
        ty,
        OperatorKind::AddInt,
    )
}

pub fn add_trait_instance_float(ty: Arc<TypeNode>) -> (r: TraitInstance)
    ensures
        r@ == std_binary_instance("Add"@, "add"@, ty@, ty@, OperatorKind::AddFloat),
{
    binary_opeartor_instance(
        add_trait_id(),
        &String::from_str(ADD_TRAIT_ADD_NAME),
        ty.clone(),
        ty,
        OperatorKind::AddFloat,
    )
}

pub fn subtract_trait_id() -> (r: TraitId)
    ensures
        r@ == std_full("Sub"@),
{
    std_trait_id(SUBTRACT_TRAIT_NAME)
}

/// `trait a : Sub { sub : a -> a -> a }`.
pub fn subtract_trait() -> (r: TraitInfo)
    ensures
        r@ == closed_binary_trait("Sub"@, "sub"@),
{
    binary_operator_trait(subtract_trait_id(), String::from_str(SUBTRACT_TRAIT_SUBTRACT_NAME), None)
}

pub fn subtract_trait_instance_int(ty: Arc<TypeNode>) -> (r: TraitInstance)
    ensures
        r@ == std_binary_instance("Sub"@, "sub"@, ty@, ty@, OperatorKind::SubInt),
{
    binary_opeartor_instance(
        subtract_trait_id(),
        &String::from_str(SUBTRACT_TRAIT_SUBTRACT_NAME),
        ty.clone(),
        ty,
        OperatorKind::SubInt,
    )
}

pub fn subtract_trait_instance_float(ty: Arc<TypeNode>) -> (r: TraitInstance)
    ensures
        r@ == std_binary_instance("Sub"@, "sub"@, ty@, ty@, OperatorKind::SubFloat),
{
    binary_opeartor_instance(
        subtract_trait_id(),
        &String::from_str(SUBTRACT_TRAIT_SUBTRACT_NAME),
        ty.clone(),
        ty,
        OperatorKind::SubFloat,
    )
}

pub fn multiply_trait_id() -> (r: TraitId)
    ensures
        r@ == std_full("Mul"@),
{
    std_trait_id(MULTIPLY_TRAIT_NAME)
}

/// `trait a : Mul { mul : a -> a -> a }`.
pub fn multiply_trait() -> (r: TraitInfo)
    ensures
        r@ == closed_binary_trait("Mul"@, "mul"@),
{
    binary_operator_trait(multiply_trait_id(), String::from_str(MULTIPLY_TRAIT_MULTIPLY_NAME), None)
}

pub fn multiply_trait_instance_int(ty: Arc<TypeNode>) -> (r: TraitInstance)
    ensures
        r@ == std_binary_instance("Mul"@, "mul"@, ty@, ty@, OperatorKind::MulInt),
{
    binary_opeartor_instance(
        multiply_trait_id(),
        &String::from_str(MULTIPLY_TRAIT_MULTIPLY_NAME),
        ty.clone(),
        ty,
        OperatorKind::MulInt,
    )
}

pub fn multiply_trait_instance_float(ty: Arc<TypeNode>) -> (r: TraitInstance)
    ensures
        r@ == std_binary_instance("Mul"@, "mul"@, ty@, ty@, OperatorKind::MulFloat),
{
    binary_opeartor_instance(
        multiply_trait_id(),
        &String::from_str(MULTIPLY_TRAIT_MULTIPLY_NAME),
        ty.clone(),
        ty,
        OperatorKind::MulFloat,
    )
}

pub fn divide_trait_id() -> (r: TraitId)
    ensures
        r@ == std_full("Div"@),
{
    std_trait_id(DIVIDE_TRAIT_NAME)
}

/// `trait a : Div { div : a -> a -> a }`.
pub fn divide_trait() -> (r: TraitInfo)
    ensures
        r@ == closed_binary_trait("Div"@, "div"@),
{
    binary_operator_trait(divide_trait_id(), String::from_str(DIVIDE_TRAIT_DIVIDE_NAME), None)
}

pub fn divide_trait_instance_int(ty: Arc<TypeNode>) -> (r: TraitInstance)
    ensures
        r@ == std_binary_instance("Div"@, "div"@, ty@, ty@, OperatorKind::DivInt),
{
    binary_opeartor_instance(
        divide_trait_id(),
        &String::from_str(DIVIDE_TRAIT_DIVIDE_NAME),
        ty.clone(),
        ty,
        OperatorKind::DivInt,
    )
}

pub fn divide_trait_instance_float(ty: Arc<TypeNode>) -> (r: TraitInstance)
    ensures
        r@ == std_binary_instance("Div"@, "div"@, ty@, ty@, OperatorKind::DivFloat),
{
    binary_opeartor_instance(
        divide_trait_id(),
        &String::from_str(DIVIDE_TRAIT_DIVIDE_NAME),
        ty.clone(),
        ty,
        OperatorKind::DivFloat,
    )
}

pub fn remainder_trait_id() -> (r: TraitId)
    ensures
        r@ == std_full("Rem"@),
{
    std_trait_id(REMAINDER_TRAIT_NAME)
}

/// `trait a : Rem { rem : a -> a -> a }`.
pub fn remainder_trait() -> (r: TraitInfo)
    ensures
        r@ == closed_binary_trait("Rem"@, "rem"@),
{
    binary_operator_trait(
        remainder_trait_id(),
        String::from_str(REMAINDER_TRAIT_REMAINDER_NAME),
        None,
    )
}

pub fn remainder_trait_instance_int(ty: Arc<TypeNode>) -> (r: TraitInstance)
    ensures
        r@ == std_binary_instance("Rem"@, "rem"@, ty@, ty@, OperatorKind::RemInt),
{
    binary_opeartor_instance(
        remainder_trait_id(),
        &String::from_str(REMAINDER_TRAIT_REMAINDER_NAME),
        ty.clone(),
        ty,
        OperatorKind::RemInt,
    )
}

pub fn negate_trait_id() -> (r: TraitId)
    ensures
        r@ == std_full("Neg"@),
{
    std_trait_id(NEGATE_TRAIT_NAME)
}

/// `trait a : Neg { neg : a -> a }`.
pub fn negate_trait() -> (r: TraitInfo)
    ensures
        r@ == trait_spec(std_full("Neg"@), "neg"@, s_fun(s_var("a"@), s_var("a"@))),
{
    unary_operator_trait(negate_trait_id(), String::from_str(NEGATE_TRAIT_NEGATE_NAME))
}

pub fn negate_trait_instance_int(ty: Arc<TypeNode>) -> (r: TraitInstance)
    ensures
        r@ == std_unary_instance("Neg"@, "neg"@, ty@, ty@, OperatorKind::NegInt),
{
    unary_opeartor_instance(
        negate_trait_id(),
        &String::from_str(NEGATE_TRAIT_NEGATE_NAME),
        ty.clone(),
        ty,
        OperatorKind::NegInt,
    )
}

pub fn negate_trait_instance_float(ty: Arc<TypeNode>) -> (r: TraitInstance)
    ensures
        r@ == std_unary_instance("Neg"@, "neg"@, ty@, ty@, OperatorKind::NegFloat),
{
    unary_opeartor_instance(
        negate_trait_id(),
        &String::from_str(NEGATE_TRAIT_NEGATE_NAME),
        ty.clone(),
        ty,
        OperatorKind::NegFloat,
    )
}

pub fn not_trait_id() -> (r: TraitId)
    ensures
        r@ == std_full("Not"@),
{
    std_trait_id(NOT_TRAIT_NAME)
}

/// `trait a : Not { not : a -> a }`.
pub fn not_trait() -> (r: TraitInfo)
    ensures
        r@ == trait_spec(std_full("Not"@), "not"@, s_fun(s_var("a"@), s_var("a"@))),
{
    unary_operator_trait(not_trait_id(), String::from_str(NOT_TRAIT_OP_NAME))
}

/// The instance `Bool : Not`.
pub fn not_trait_instance_bool() -> (r: TraitInstance)
    ensures
        r@ == std_unary_instance(
            "Not"@,
            "not"@,
            s_std("Bool"@),
            s_std("Bool"@),
            OperatorKind::NotBool,
        ),
{
    unary_opeartor_instance(
        not_trait_id(),
        &String::from_str(NOT_TRAIT_OP_NAME),
        make_bool_ty(),
        make_bool_ty(),
        OperatorKind::NotBool,
    )
}

/// The method of a binary operator instance takes its operands in order: applied to `x` and
/// then `y`, it computes the operation with `x` on the left and `y` on the right.
pub proof fn lemma_binary_method_operands(
    op: OperatorKind,
    method: Seq<char>,
    result: SType,
    x: RtValue,
    y: RtValue,
    env: Map<Seq<char>, RtValue>,
    shared: bool,
    apply: spec_fn(RtValue, RtValue) -> RtValue,
)
    ensures
        eval_call(binary_body(op, method, result), seq![x, y], env, shared, apply)
            == eval_operator(op, seq![x, y]),
{
    reveal_strlit("lhs");
    reveal_strlit("rhs");
    let body = binary_body(op, method, result);
    let env2 = env.insert("lhs"@, x).insert("rhs"@, y);
    assert("lhs"@ != "rhs"@) by {
        assert("lhs"@[0] != "rhs"@[0]);
    }
    assert(seq![x, y].drop_first() =~= seq![y]);
    assert(seq![y].drop_first() =~= Seq::<RtValue>::empty());
    let reads = seq!["lhs"@, "rhs"@].map_values(|v: Seq<char>| env2[v]);
    assert(reads =~= seq![x, y]);
    let env1 = env.insert("lhs"@, x);
    let lit = s_lit(SGen::Op(BuiltinOp::Operator(op)), seq!["lhs"@, "rhs"@], method, result);
    let inner = s_lam("rhs"@, lit);
    assert(eval_call(lit, Seq::empty(), env2, shared, apply) == eval_operator(op, seq![x, y]));
    assert(eval_call(inner, seq![y], env1, shared, apply) == eval_call(
        lit,
        Seq::empty(),
        env2,
        shared,
        apply,
    ));
    assert(eval_call(body, seq![x, y], env, shared, apply) == eval_call(
        inner,
        seq![y],
        env1,
        shared,
        apply,
    ));
}

/// The method of the instance of the unary operator applied to `x` computes the operation on
/// `x`.
pub proof fn lemma_unary_method_operand(
    op: OperatorKind,
    method: Seq<char>,
    result: SType,
    x: RtValue,
    env: Map<Seq<char>, RtValue>,
    shared: bool,
    apply: spec_fn(RtValue, RtValue) -> RtValue,
)
    ensures
        eval_call(unary_body(op, method, result), seq![x], env, shared, apply) == eval_operator(
            op,
            seq![x],
        ),
{
    reveal_strlit("rhs");
    assert(seq![x].drop_first() =~= Seq::<RtValue>::empty());
    let env2 = env.insert("rhs"@, x);
    assert(seq!["rhs"@].map_values(|v: Seq<char>| env2[v]) =~= seq![x]);
    let lit = s_lit(SGen::Op(BuiltinOp::Operator(op)), seq!["rhs"@], method, result);
    assert(eval_call(lit, Seq::empty(), env2, shared, apply) == eval_operator(op, seq![x]));
}

/// `sub x y` is `x - y`, and `less_than x y` is `x < y`, on the integers that the operands
/// stand for; the difference is exact when it is within the range of the type.
pub proof fn lemma_sub_and_less_than_order(
    method: Seq<char>,
    result: SType,
    signed: bool,
    width: nat,
    a: nat,
    b: nat,
    env: Map<Seq<char>, RtValue>,
    apply: spec_fn(RtValue, RtValue) -> RtValue,
)
    requires
        width > 0,
    ensures
        ({
            let x = RtValue::Int { signed, width, bits: a };
            let y = RtValue::Int { signed, width, bits: b };
            let vx = int_value(signed, width, a);
            let vy = int_value(signed, width, b);
            &&& eval_call(binary_body(OperatorKind::SubInt, method, result), seq![x, y], env, false, apply)
                == Outcome::Value(int_of(signed, width, vx - vy))
            &&& ((signed ==> -(pow2((width - 1) as nat) as int) <= vx - vy < pow2(
                (width - 1) as nat,
            )) && (!signed ==> 0 <= vx - vy < pow2(width)) ==> value_of(
                int_of(signed, width, vx - vy),
            ) == vx - vy)
            &&& eval_call(
                binary_body(OperatorKind::LessThanInt, method, result),
                seq![x, y],
                env,
                false,
                apply,
            ) == Outcome::Value(RtValue::Bool(vx < vy))
        }),
{
    let x = RtValue::Int { signed, width, bits: a };
    let y = RtValue::Int { signed, width, bits: b };
    lemma_binary_method_operands(OperatorKind::SubInt, method, result, x, y, env, false, apply);
    lemma_binary_method_operands(
        OperatorKind::LessThanInt,
        method,
        result,
        x,
        y,
        env,
        false,
        apply,
    );
    lemma_arith_exact(OperatorKind::SubInt, signed, width, a, b);
}

} // verus!
