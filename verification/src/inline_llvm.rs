//! What a built-in literal generates: a description, in plain values, of the code that the
//! back end emits for the literal. The code generator itself is not part of this crate;
//! `semantics::eval_op` states what each operation computes.

use vstd::prelude::*;

verus! {

/// The bitwise operations on integers.
#[derive(Clone, Copy)]
pub enum BitOperationType {
    Xor,
    Or,
    And,
}

/// The name of a bitwise operation.
pub open spec fn bit_op_str(op: BitOperationType) -> Seq<char> {
    match op {
        BitOperationType::Xor => "xor"@,
        BitOperationType::Or => "or"@,
        BitOperationType::And => "and"@,
    }
}

impl BitOperationType {
    pub fn to_string(&self) -> (r: String)
        ensures
            r@ == bit_op_str(*self),
    {
        match self {
            BitOperationType::Xor => String::from_str("xor"),
            BitOperationType::Or => String::from_str("or"),
            BitOperationType::And => String::from_str("and"),
        }
    }
}

/// The numeric types that `to_string` prints, each with its C format.
#[derive(Clone, Copy)]
pub enum NumberFormat {
    U8,
    I32,
    U32,
    I64,
    U64,
    F32,
    F64,
}

/// The operation that a method of a built-in trait instance performs.
#[derive(Clone, Copy)]
pub enum OperatorKind {
    EqInt,
    EqPtr,
    EqFloat,
    LessThanInt,
    LessThanFloat,
    LessThanOrEqInt,
    LessThanOrEqFloat,
    AddInt,
    AddFloat,
    SubInt,
    SubFloat,
    MulInt,
    MulFloat,
    DivInt,
    DivFloat,
    RemInt,
    NegInt,
    NegFloat,
    NotBool,
}

/// The operation behind a built-in literal.
#[derive(Clone, Copy)]
pub enum BuiltinOp {
    IntLit(u64),
    BoolLit(bool),
    NullPtrLit,
    Fix,
    NumberToString { buf_size: u32, format: NumberFormat },
    CastIntegral { is_signed: bool },
    CastFloat,
    CastIntToFloat { is_signed: bool },
    CastFloatToInt,
    Shift { is_left: bool },
    BitOp(BitOperationType),
    FillArray,
    MakeEmptyArray,
    UnsafeSetArray,
    UnsafeGetArray,
    UnsafeSetLengthArray,
    ReadArray,
    SetArray { is_unique: bool },
    ModArray { is_unique: bool },
    ForceUniqueArray { is_unique: bool },
    GetPtrArray,
    GetSizeArray,
    GetCapacityArray,
    StructGet { field_idx: usize },
    StructMod { field_count: usize, field_idx: usize, is_unique: bool },
    StructSet { field_count: usize, field_idx: usize, is_unique: bool },
    UnionNew { field_idx: usize },
    UnionAs { field_idx: usize },
    UnionIs { field_idx: usize },
    UnionMod { field_idx: usize },
    Loop,
    Abort,
    Operator(OperatorKind),
    IsUnique,
}

/// The generator of a literal: a string constant, or a built-in operation.
pub enum InlineLLVM {
    StringLit(String),
    Op(BuiltinOp),
}

/// The abstract value of a generator.
pub enum SGen {
    StringLit(Seq<char>),
    Op(BuiltinOp),
}

impl View for InlineLLVM {
    type V = SGen;

    open spec fn view(&self) -> SGen {
        match self {
            InlineLLVM::StringLit(s) => SGen::StringLit(s@),
            InlineLLVM::Op(op) => SGen::Op(*op),
        }
    }
}

} // verus!
