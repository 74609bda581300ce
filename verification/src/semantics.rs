//! What the operations of built-in literals compute at run time, over a model of run-time
//! values. The code generator that emits these operations is not part of this crate; this
//! module states the meaning that it gives them.
//!
//! The model has no floating-point values, so the meaning of the operations on `F32` and
//! `F64` is not stated here. It has no reference counts either: whether a boxed value is
//! shared is given to `eval_op` as a flag.

use crate::decimal::int_str;
use crate::expr::{SExpr, SLit, SNode};
use crate::inline_llvm::{BitOperationType, BuiltinOp, NumberFormat, OperatorKind, SGen};
use crate::name::SFullName;
use crate::types::{head_tycon, std_ns, SType};
use vstd::arithmetic::div_mod::{lemma_mod_add_multiples_vanish, lemma_small_mod};
use vstd::arithmetic::power2::{
    lemma_pow2_pos, lemma_pow2_strictly_increases, lemma_pow2_unfold, pow2,
};
use vstd::prelude::*;

verus! {

/// A value at run time.
pub enum RtValue {
    /// An integer of `width` bits, held as its bit pattern (`bits < 2^width`); `signed` tells
    /// whether its type reads the pattern in two's complement.
    Int { signed: bool, width: nat, bits: nat },
    Bool(bool),
    /// A pointer, by its address.
    Ptr(nat),
    /// A string, by its characters.
    Str(Seq<char>),
    /// An array: its buffer, one slot per unit of capacity (`None` for a slot never written),
    /// and its size, the number of its elements.
    Array { buf: Seq<Option<RtValue>>, len: nat },
    /// A struct or a tuple: its fields in order.
    Struct(Seq<RtValue>),
    /// A union: the index of the field it holds, and the value of that field.
    Union { tag: nat, value: Box<RtValue> },
    /// A function, by an identifier of its closure.
    Func(nat),
}

/// What running an operation comes to.
pub enum Outcome {
    /// It returns this value.
    Value(RtValue),
    /// The program stops: a failed check (an index out of range, a union of another field, a
    /// shared value asserted unique) or `abort`.
    Abort,
    /// It does not return (a `loop` whose body never breaks).
    Diverges,
    /// The model does not say: floating-point values, addresses, or an input that the
    /// operation does not check and on which the generated code is undefined.
    Unspecified,
}

/// The integer types of `Std`: whether each is signed, and its width in bits.
pub open spec fn int_kind(ty: SType) -> Option<(bool, nat)> {
    match head_tycon(ty) {
        Some(tc) => if tc.namespace != std_ns() {
            None
        } else if tc.name == "U8"@ {
            Some((false, 8))
        } else if tc.name == "I32"@ {
            Some((true, 32))
        } else if tc.name == "U32"@ {
            Some((false, 32))
        } else if tc.name == "I64"@ {
            Some((true, 64))
        } else if tc.name == "U64"@ {
            Some((false, 64))
        } else {
            None
        },
        None => None,
    }
}

/// The bit pattern of width `width` that holds `v` modulo `2^width`.
pub open spec fn wrap(width: nat, v: int) -> nat {
    (v % (pow2(width) as int)) as nat
}

/// The integer that a bit pattern stands for.
pub open spec fn int_value(signed: bool, width: nat, bits: nat) -> int {
    if signed && width > 0 && bits >= pow2((width - 1) as nat) {
        bits - pow2(width)
    } else {
        bits as int
    }
}

/// The integer that a value stands for (0 for a value that is no integer).
pub open spec fn value_of(v: RtValue) -> int {
    match v {
        RtValue::Int { signed, width, bits } => int_value(signed, width, bits),
        _ => 0,
    }
}

/// An integer of the given kind holding `v` modulo `2^width`.
pub open spec fn int_of(signed: bool, width: nat, v: int) -> RtValue {
    RtValue::Int { signed, width, bits: wrap(width, v) }
}

/// Integer division rounded toward zero, as the machine divides: the quotient of the
/// magnitudes, negated when the signs differ.
pub open spec fn div_trunc(a: int, b: int) -> int {
    if b > 0 {
        if a >= 0 { a / b } else { -((-a) / b) }
    } else {
        if a >= 0 { -(a / (-b)) } else { (-a) / (-b) }
    }
}

/// The remainder of `div_trunc`.
pub open spec fn rem_trunc(a: int, b: int) -> int {
    a - b * div_trunc(a, b)
}

/// Division rounded toward zero: the quotient times the divisor plus the remainder gives the
/// dividend back, the remainder has the sign of the dividend (or is zero), and it is smaller in
/// size than the divisor.
pub proof fn lemma_div_rem_trunc(a: int, b: int)
    requires
        b != 0,
    ensures
        b * div_trunc(a, b) + rem_trunc(a, b) == a,
        a >= 0 ==> 0 <= rem_trunc(a, b),
        a <= 0 ==> rem_trunc(a, b) <= 0,
        -abs(b) < rem_trunc(a, b) < abs(b),
        abs(div_trunc(a, b)) == abs(a) / abs(b),
{
    let m = abs(a);
    let n = abs(b);
    let q = m / n;
    let r = m % n;
    assert(m == n * q + r && 0 <= r < n) by (nonlinear_arith)
        requires
            n > 0,
            q == m / n,
            r == m % n,
    ;
    if b > 0 {
        if a >= 0 {
            assert(rem_trunc(a, b) == r) by (nonlinear_arith)
                requires
                    a == m,
                    b == n,
                    div_trunc(a, b) == q,
                    m == n * q + r,
            ;
        } else {
            assert(rem_trunc(a, b) == -r) by (nonlinear_arith)
                requires
                    a == -m,
                    b == n,
                    div_trunc(a, b) == -q,
                    m == n * q + r,
            ;
        }
    } else {
        if a >= 0 {
            assert(rem_trunc(a, b) == r) by (nonlinear_arith)
                requires
                    a == m,
                    b == -n,
                    div_trunc(a, b) == -q,
                    m == n * q + r,
            ;
        } else {
            assert(rem_trunc(a, b) == -r) by (nonlinear_arith)
                requires
                    a == -m,
                    b == -n,
                    div_trunc(a, b) == q,
                    m == n * q + r,
            ;
        }
    }
}

/// The size of an integer.
pub open spec fn abs(x: int) -> int {
    if x < 0 { -x } else { x }
}

/// A cast of a bit pattern to another width: truncation when it narrows; when it widens, sign
/// extension if `sign_extend` (both types are signed), else zero extension.
pub open spec fn cast_bits(bits: nat, from_width: nat, to_width: nat, sign_extend: bool) -> nat {
    if to_width <= from_width {
        wrap(to_width, bits as int)
    } else if sign_extend {
        wrap(to_width, int_value(true, from_width, bits))
    } else {
        bits
    }
}

/// Whether a format prints integers, and with which signedness and width.
pub open spec fn int_format(f: NumberFormat) -> Option<(bool, nat)> {
    match f {
        NumberFormat::U8 => Some((false, 8)),
        NumberFormat::I32 => Some((true, 32)),
        NumberFormat::U32 => Some((false, 32)),
        NumberFormat::I64 => Some((true, 64)),
        NumberFormat::U64 => Some((false, 64)),
        _ => None,
    }
}

/// The bitwise operation on two bit patterns of at most 64 bits.
pub open spec fn bit_op(op: BitOperationType, a: nat, b: nat) -> nat {
    match op {
        BitOperationType::Xor => ((a as u64) ^ (b as u64)) as nat,
        BitOperationType::Or => ((a as u64) | (b as u64)) as nat,
        BitOperationType::And => ((a as u64) & (b as u64)) as nat,
    }
}

/// The elements of an array as a sequence (the first `len` slots).
pub open spec fn array_elems(buf: Seq<Option<RtValue>>, len: nat) -> Seq<RtValue> {
    Seq::new(len, |i: int| buf[i].unwrap())
}

/// Whether the first `len` slots of the buffer are written.
pub open spec fn slots_written(buf: Seq<Option<RtValue>>, len: nat) -> bool {
    len <= buf.len() && forall|i: int| 0 <= i < len ==> (#[trigger] buf[i]) is Some
}

/// Whether an array's first `len` slots are written, as they are in every array that the
/// operations make; a value that is no array is not constrained.
pub open spec fn array_wf(v: RtValue) -> bool {
    match v {
        RtValue::Array { buf, len } => slots_written(buf, len),
        _ => true,
    }
}

/// The index of the `continue` variant of `LoopResult`; `break` is the next.
pub open spec fn continue_tag() -> nat {
    0
}

/// The state of `loop` after `n` rounds in which `body` asked to continue; `None` if it broke
/// earlier or gave no `LoopResult`.
pub open spec fn loop_state(
    apply: spec_fn(RtValue, RtValue) -> RtValue,
    body: RtValue,
    init: RtValue,
    n: nat,
) -> Option<RtValue>
    decreases n,
{
    if n == 0 {
        Some(init)
    } else {
        match loop_state(apply, body, init, (n - 1) as nat) {
            Some(s) => match apply(body, s) {
                RtValue::Union { tag, value } => if tag == continue_tag() {
                    Some(*value)
                } else {
                    None
                },
                _ => None,
            },
            None => None,
        }
    }
}

/// Whether the loop breaks with `r` after `n` rounds of continuing.
pub open spec fn loop_breaks_at(
    apply: spec_fn(RtValue, RtValue) -> RtValue,
    body: RtValue,
    init: RtValue,
    n: nat,
) -> bool {
    loop_state(apply, body, init, n) matches Some(s) && apply(body, s) matches RtValue::Union {
        tag,
        ..
    } && tag == continue_tag() + 1
}

/// What `loop init body` comes to: the value with which `body` first breaks, or no return.
pub open spec fn loop_outcome(
    apply: spec_fn(RtValue, RtValue) -> RtValue,
    body: RtValue,
    init: RtValue,
) -> Outcome {
    if exists|n: nat| loop_breaks_at(apply, body, init, n) {
        let n = choose|n: nat| loop_breaks_at(apply, body, init, n);
        match apply(body, loop_state(apply, body, init, n).unwrap()) {
            RtValue::Union { value, .. } => Outcome::Value(*value),
            _ => Outcome::Unspecified,
        }
    } else {
        Outcome::Diverges
    }
}

/// What a built-in operation computes from the values of the variables its literal reads,
/// in the order the literal lists them. `result_ty` is the type of the literal, `apply` gives
/// the value of a function applied to an argument, and `shared` tells whether the boxed value
/// that the operation updates is shared (its reference count is above one). For `fix`, the
/// first variable, `%CAP%`, holds the closure being run, `fix f`.
pub open spec fn eval_op(
    op: BuiltinOp,
    args: Seq<RtValue>,
    result_ty: SType,
    shared: bool,
    apply: spec_fn(RtValue, RtValue) -> RtValue,
) -> Outcome {
    match op {
        BuiltinOp::IntLit(v) => match int_kind(result_ty) {
            Some((s, w)) => Outcome::Value(int_of(s, w, v as int)),
            None => Outcome::Unspecified,
        },
        BuiltinOp::BoolLit(b) => Outcome::Value(RtValue::Bool(b)),
        BuiltinOp::NullPtrLit => Outcome::Value(RtValue::Ptr(0)),
        BuiltinOp::Fix => Outcome::Value(apply(apply(args[1], args[0]), args[2])),
        BuiltinOp::NumberToString { format, .. } => match (int_format(format), args[0]) {
            (Some((fs, fw)), RtValue::Int { bits, .. }) => Outcome::Value(
                RtValue::Str(int_str(int_value(fs, fw, bits))),
            ),
            _ => Outcome::Unspecified,
        },
        BuiltinOp::CastIntegral { is_signed } => match (args[0], int_kind(result_ty)) {
            (RtValue::Int { width, bits, .. }, Some((s, w))) => Outcome::Value(
                RtValue::Int { signed: s, width: w, bits: cast_bits(bits, width, w, is_signed) },
            ),
            _ => Outcome::Unspecified,
        },
        BuiltinOp::Shift { is_left } => match (args[0], args[1]) {
            (RtValue::Int { signed, width, bits }, RtValue::Int { bits: n, .. }) => if n
                >= width {
                Outcome::Unspecified
            } else if is_left {
                Outcome::Value(int_of(signed, width, (bits * pow2(n)) as int))
            } else {
                Outcome::Value(
                    int_of(signed, width, int_value(signed, width, bits) / (pow2(n) as int)),
                )
            },
            _ => Outcome::Unspecified,
        },
        BuiltinOp::BitOp(o) => match (args[0], args[1]) {
            (RtValue::Int { signed, width, bits: a }, RtValue::Int { bits: b, .. }) => Outcome::Value(
                RtValue::Int { signed, width, bits: bit_op(o, a, b) },
            ),
            _ => Outcome::Unspecified,
        },
        BuiltinOp::FillArray => {
            let n = value_of(args[0]);
            if n < 0 {
                Outcome::Unspecified
            } else {
                Outcome::Value(
                    RtValue::Array { buf: Seq::new(n as nat, |i: int| Some(args[1])), len: n as nat },
                )
            }
        },
        BuiltinOp::MakeEmptyArray => {
            let c = value_of(args[0]);
            if c < 0 {
                Outcome::Unspecified
            } else {
                Outcome::Value(RtValue::Array { buf: Seq::new(c as nat, |i: int| None), len: 0 })
            }
        },
        BuiltinOp::UnsafeSetArray => match args[2] {
            RtValue::Array { buf, len } => {
                let i = value_of(args[0]);
                if 0 <= i < buf.len() {
                    Outcome::Value(RtValue::Array { buf: buf.update(i, Some(args[1])), len })
                } else {
                    Outcome::Unspecified
                }
            },
            _ => Outcome::Unspecified,
        },
        BuiltinOp::UnsafeGetArray => match args[1] {
            RtValue::Array { buf, len } => {
                let i = value_of(args[0]);
                if 0 <= i < buf.len() && buf[i] is Some {
                    Outcome::Value(buf[i].unwrap())
                } else {
                    Outcome::Unspecified
                }
            },
            _ => Outcome::Unspecified,
        },
        BuiltinOp::UnsafeSetLengthArray => match args[1] {
            RtValue::Array { buf, len } => {
                let n = value_of(args[0]);
                if 0 <= n && slots_written(buf, n as nat) {
                    Outcome::Value(RtValue::Array { buf, len: n as nat })
                } else {
                    Outcome::Unspecified
                }
            },
            _ => Outcome::Unspecified,
        },
        BuiltinOp::ReadArray => match args[0] {
            RtValue::Array { buf, len } => {
                let i = value_of(args[1]);
                if 0 <= i < len {
                    Outcome::Value(buf[i].unwrap())
                } else {
                    Outcome::Abort
                }
            },
            _ => Outcome::Unspecified,
        },
        BuiltinOp::SetArray { is_unique } => match args[0] {
            RtValue::Array { buf, len } => {
                let i = value_of(args[1]);
                if shared && is_unique {
                    Outcome::Abort
                } else if 0 <= i < len {
                    Outcome::Value(RtValue::Array { buf: buf.update(i, Some(args[2])), len })
                } else {
                    Outcome::Abort
                }
            },
            _ => Outcome::Unspecified,
        },
        BuiltinOp::ModArray { is_unique } => match args[2] {
            RtValue::Array { buf, len } => {
                let i = value_of(args[0]);
                if shared && is_unique {
                    Outcome::Abort
                } else if 0 <= i < len {
                    Outcome::Value(
                        RtValue::Array {
                            buf: buf.update(i, Some(apply(args[1], buf[i].unwrap()))),
                            len,
                        },
                    )
                } else {
                    Outcome::Abort
                }
            },
            _ => Outcome::Unspecified,
        },
        BuiltinOp::ForceUniqueArray { is_unique } => if shared && is_unique {
            Outcome::Abort
        } else {
            Outcome::Value(args[0])
        },
        BuiltinOp::GetPtrArray => Outcome::Unspecified,
        BuiltinOp::GetSizeArray => match args[0] {
            RtValue::Array { len, .. } => Outcome::Value(int_of(true, 64, len as int)),
            _ => Outcome::Unspecified,
        },
        BuiltinOp::GetCapacityArray => match args[0] {
            RtValue::Array { buf, .. } => Outcome::Value(int_of(true, 64, buf.len() as int)),
            _ => Outcome::Unspecified,
        },
        BuiltinOp::StructGet { field_idx } => match args[0] {
            RtValue::Struct(fs) => if field_idx < fs.len() {
                Outcome::Value(fs[field_idx as int])
            } else {
                Outcome::Unspecified
            },
            _ => Outcome::Unspecified,
        },
        BuiltinOp::StructMod { field_idx, is_unique, .. } => match args[1] {
            RtValue::Struct(fs) => if shared && is_unique {
                Outcome::Abort
            } else if field_idx < fs.len() {
                Outcome::Value(
                    RtValue::Struct(
                        fs.update(field_idx as int, apply(args[0], fs[field_idx as int])),
                    ),
                )
            } else {
                Outcome::Unspecified
            },
            _ => Outcome::Unspecified,
        },
        BuiltinOp::StructSet { field_idx, is_unique, .. } => match args[1] {
            RtValue::Struct(fs) => if shared && is_unique {
                Outcome::Abort
            } else if field_idx < fs.len() {
                Outcome::Value(RtValue::Struct(fs.update(field_idx as int, args[0])))
            } else {
                Outcome::Unspecified
            },
            _ => Outcome::Unspecified,
        },
        BuiltinOp::UnionNew { field_idx } => Outcome::Value(
            RtValue::Union { tag: field_idx as nat, value: Box::new(args[0]) },
        ),
        BuiltinOp::UnionAs { field_idx } => match args[0] {
            RtValue::Union { tag, value } => if tag == field_idx {
                Outcome::Value(*value)
            } else {
                Outcome::Abort
            },
            _ => Outcome::Unspecified,
        },
        BuiltinOp::UnionIs { field_idx } => match args[0] {
            RtValue::Union { tag, .. } => Outcome::Value(RtValue::Bool(tag == field_idx)),
            _ => Outcome::Unspecified,
        },
        BuiltinOp::UnionMod { field_idx } => match args[1] {
            RtValue::Union { tag, value } => if tag == field_idx {
                Outcome::Value(RtValue::Union { tag, value: Box::new(apply(args[0], *value)) })
            } else {
                Outcome::Value(args[1])
            },
            _ => Outcome::Unspecified,
        },
        BuiltinOp::Loop => loop_outcome(apply, args[1], args[0]),
        BuiltinOp::Abort => Outcome::Abort,
        BuiltinOp::IsUnique => Outcome::Value(RtValue::Struct(seq![RtValue::Bool(!shared), args[0]])),
        BuiltinOp::Operator(k) => eval_operator(k, args),
        _ => Outcome::Unspecified,
    }
}

/// What the method of an operator instance computes from its operands.
pub open spec fn eval_operator(k: OperatorKind, args: Seq<RtValue>) -> Outcome {
    match (k, args[0]) {
        (OperatorKind::NotBool, RtValue::Bool(b)) => Outcome::Value(RtValue::Bool(!b)),
        (OperatorKind::NegInt, RtValue::Int { signed, width, bits }) => Outcome::Value(
            int_of(signed, width, -(bits as int)),
        ),
        (OperatorKind::EqPtr, RtValue::Ptr(a)) => match args[1] {
            RtValue::Ptr(b) => Outcome::Value(RtValue::Bool(a == b)),
            _ => Outcome::Unspecified,
        },
        (_, RtValue::Int { signed, width, bits: a }) => match args[1] {
            RtValue::Int { bits: b, .. } => {
                let x = int_value(signed, width, a);
                let y = int_value(signed, width, b);
                match k {
                    OperatorKind::EqInt => Outcome::Value(RtValue::Bool(a == b)),
                    OperatorKind::LessThanInt => Outcome::Value(RtValue::Bool(x < y)),
                    OperatorKind::LessThanOrEqInt => Outcome::Value(RtValue::Bool(x <= y)),
                    OperatorKind::AddInt => Outcome::Value(int_of(signed, width, x + y)),
                    OperatorKind::SubInt => Outcome::Value(int_of(signed, width, x - y)),
                    OperatorKind::MulInt => Outcome::Value(int_of(signed, width, x * y)),
                    OperatorKind::DivInt => if y == 0 || (signed && x == -(pow2(
                        (width - 1) as nat,
                    ) as int) && y == -1) {
                        Outcome::Unspecified
                    } else {
                        Outcome::Value(int_of(signed, width, div_trunc(x, y)))
                    },
                    OperatorKind::RemInt => if y == 0 || (signed && x == -(pow2(
                        (width - 1) as nat,
                    ) as int) && y == -1) {
                        Outcome::Unspecified
                    } else {
                        Outcome::Value(int_of(signed, width, rem_trunc(x, y)))
                    },
                    _ => Outcome::Unspecified,
                }
            },
            _ => Outcome::Unspecified,
        },
        _ => Outcome::Unspecified,
    }
}

/// What a literal computes, given the values of the variables in scope (`env`): a string
/// literal its characters, an operation what `eval_op` says of it.
pub open spec fn eval_lit(
    l: SLit,
    env: Map<Seq<char>, RtValue>,
    shared: bool,
    apply: spec_fn(RtValue, RtValue) -> RtValue,
) -> Outcome {
    match l.generator {
        SGen::StringLit(s) => Outcome::Value(RtValue::Str(s)),
        SGen::Op(op) => eval_op(op, l.free_vars.map_values(|v: Seq<char>| env[v]), l.ty, shared, apply),
    }
}

/// An integer within the range of its type is held exactly: reading back the bit pattern
/// gives the integer.
pub proof fn lemma_int_value_wrap(signed: bool, width: nat, v: int)
    requires
        width > 0,
        signed ==> -(pow2((width - 1) as nat) as int) <= v < pow2((width - 1) as nat),
        !signed ==> 0 <= v < pow2(width),
    ensures
        int_value(signed, width, wrap(width, v)) == v,
        wrap(width, v) < pow2(width),
{
    let p = pow2(width) as int;
    lemma_pow2_unfold(width);
    lemma_pow2_pos((width - 1) as nat);
    if v >= 0 {
        lemma_small_mod(v as nat, p as nat);
    } else {
        lemma_mod_add_multiples_vanish(v, p);
        lemma_small_mod((p + v) as nat, p as nat);
    }
}

/// `+`, `-` and `*` on integers give the exact result when it is within the range of the type,
/// and wrap around otherwise.
pub proof fn lemma_arith_exact(k: OperatorKind, signed: bool, width: nat, a: nat, b: nat)
    requires
        k is AddInt || k is SubInt || k is MulInt,
        width > 0,
    ensures
        ({
            let x = int_value(signed, width, a);
            let y = int_value(signed, width, b);
            let r = if k is AddInt {
                x + y
            } else if k is SubInt {
                x - y
            } else {
                x * y
            };
            &&& eval_operator(
                k,
                seq![
                    RtValue::Int { signed, width, bits: a },
                    RtValue::Int { signed, width, bits: b },
                ],
            ) == Outcome::Value(int_of(signed, width, r))
            &&& ((signed ==> -(pow2((width - 1) as nat) as int) <= r < pow2((width - 1) as nat))
                && (!signed ==> 0 <= r < pow2(width)) ==> value_of(int_of(signed, width, r))
                == r)
        }),
{
    let x = int_value(signed, width, a);
    let y = int_value(signed, width, b);
    let r = if k is AddInt {
        x + y
    } else if k is SubInt {
        x - y
    } else {
        x * y
    };
    if (signed ==> -(pow2((width - 1) as nat) as int) <= r < pow2((width - 1) as nat)) && (!signed
        ==> 0 <= r < pow2(width)) {
        lemma_int_value_wrap(signed, width, r);
    }
}

/// A cast to a wider integer type keeps the value, unless it takes a signed value to an
/// unsigned type (then the pattern is extended with zeros, so a negative value becomes large).
pub proof fn lemma_widening_cast_keeps_value(
    from_signed: bool,
    from_width: nat,
    bits: nat,
    to_signed: bool,
    to_width: nat,
)
    requires
        0 < from_width < to_width,
        bits < pow2(from_width),
        from_signed ==> to_signed,
    ensures
        int_value(
            to_signed,
            to_width,
            cast_bits(bits, from_width, to_width, from_signed && to_signed),
        ) == int_value(from_signed, from_width, bits),
{
    let wf = from_width;
    let wt = to_width;
    lemma_pow2_unfold(wf);
    lemma_pow2_unfold(wt);
    lemma_pow2_pos((wf - 1) as nat);
    if wf < (wt - 1) as nat {
        lemma_pow2_strictly_increases(wf, (wt - 1) as nat);
    }
    if from_signed {
        if wf - 1 < wt - 1 {
            lemma_pow2_strictly_increases((wf - 1) as nat, (wt - 1) as nat);
        }
        lemma_int_value_wrap(true, wt, int_value(true, wf, bits));
    }
}

/// The text of every integer that `to_string` prints, with the terminating NUL, fits in the
/// buffer of its format.
pub proof fn lemma_number_text_fits(buf_size: u32, format: NumberFormat, v: int)
    requires
        crate::builtin_fns::number_format_spec_holds(buf_size, format),
        int_format(format) matches Some((signed, width)) && (if signed {
            -(pow2((width - 1) as nat) as int) <= v < pow2((width - 1) as nat)
        } else {
            0 <= v < pow2(width)
        }),
    ensures
        int_str(v).len() + 1 <= buf_size,
{
    vstd::arithmetic::power2::lemma2_to64();
    let n: nat = if v < 0 { (-v) as nat } else { v as nat };
    let digits: nat = match format {
        NumberFormat::U8 => 3,
        NumberFormat::I32 => 10,
        NumberFormat::U32 => 10,
        NumberFormat::I64 => 19,
        _ => 20,
    };
    reveal_with_fuel(pow10, 21);
    assert(pow10(3) == 1000);
    assert(pow10(10) == 10000000000);
    assert(pow10(19) == 10000000000000000000);
    assert(pow10(20) == 100000000000000000000);
    lemma_pow2_unfold(64);
    crate::decimal::lemma_dec_str_len(n, digits);
}

/// `10^k`.
pub open spec fn pow10(k: nat) -> nat
    decreases k,
{
    if k == 0 {
        1
    } else {
        10 * pow10((k - 1) as nat)
    }
}

/// Reading an element after `set` gives the value written at that index and what was there
/// before at any other; the size stays.
pub proof fn lemma_read_after_set(
    a: RtValue,
    idx: RtValue,
    v: RtValue,
    j: RtValue,
    is_unique: bool,
    shared: bool,
    ty: SType,
    apply: spec_fn(RtValue, RtValue) -> RtValue,
)
    requires
        array_wf(a),
        eval_op(BuiltinOp::SetArray { is_unique }, seq![a, idx, v], ty, shared, apply) is Value,
    ensures
        ({
            let b = eval_op(BuiltinOp::SetArray { is_unique }, seq![a, idx, v], ty, shared, apply)->Value_0;
            &&& eval_op(BuiltinOp::ReadArray, seq![b, j], ty, false, apply) == if value_of(j)
                == value_of(idx) {
                Outcome::Value(v)
            } else {
                eval_op(BuiltinOp::ReadArray, seq![a, j], ty, false, apply)
            }
            &&& eval_op(BuiltinOp::GetSizeArray, seq![b], ty, false, apply) == eval_op(
                BuiltinOp::GetSizeArray,
                seq![a],
                ty,
                false,
                apply,
            )
        }),
{
    match a {
        RtValue::Array { buf, len } => {
            let i = value_of(idx);
            let k = value_of(j);
            let nb = buf.update(i, Some(v));
            if 0 <= k < len {
                assert(buf[k] is Some);
                assert(nb[k] == if k == i { Some(v) } else { buf[k] });
            }
        },
        _ => {},
    }
}

/// Every element of an array that `fill` makes is the value it was given, and its size and
/// its capacity are the size it was given.
pub proof fn lemma_fill_elements(
    size: RtValue,
    v: RtValue,
    j: RtValue,
    ty: SType,
    apply: spec_fn(RtValue, RtValue) -> RtValue,
)
    requires
        value_of(size) >= 0,
        0 <= value_of(j) < value_of(size),
    ensures
        ({
            let a = eval_op(BuiltinOp::FillArray, seq![size, v], ty, false, apply)->Value_0;
            &&& eval_op(BuiltinOp::FillArray, seq![size, v], ty, false, apply) is Value
            &&& eval_op(BuiltinOp::ReadArray, seq![a, j], ty, false, apply) == Outcome::Value(v)
            &&& eval_op(BuiltinOp::GetSizeArray, seq![a], ty, false, apply) == Outcome::Value(
                int_of(true, 64, value_of(size)),
            )
            &&& eval_op(BuiltinOp::GetCapacityArray, seq![a], ty, false, apply)
                == Outcome::Value(int_of(true, 64, value_of(size)))
        }),
{
}

/// A union that `new` makes for a field holds that field: `as` gives the value back, `is`
/// answers whether the field asked for is that field, and `as` of another field stops the
/// program.
pub proof fn lemma_union_round_trip(
    v: RtValue,
    k: usize,
    j: usize,
    ty: SType,
    apply: spec_fn(RtValue, RtValue) -> RtValue,
)
    ensures
        ({
            let u = RtValue::Union { tag: k as nat, value: Box::new(v) };
            &&& eval_op(BuiltinOp::UnionNew { field_idx: k }, seq![v], ty, false, apply)
                == Outcome::Value(u)
            &&& eval_op(BuiltinOp::UnionAs { field_idx: k }, seq![u], ty, false, apply)
                == Outcome::Value(v)
            &&& eval_op(BuiltinOp::UnionAs { field_idx: j }, seq![u], ty, false, apply) == if j
                == k {
                Outcome::Value(v)
            } else {
                Outcome::Abort
            }
            &&& eval_op(BuiltinOp::UnionIs { field_idx: j }, seq![u], ty, false, apply)
                == Outcome::Value(RtValue::Bool(j == k))
        }),
{
}

/// Getting a field after setting it gives the value set; the other fields stay.
pub proof fn lemma_struct_get_after_set(
    fs: Seq<RtValue>,
    v: RtValue,
    count: usize,
    i: usize,
    j: usize,
    is_unique: bool,
    ty: SType,
    apply: spec_fn(RtValue, RtValue) -> RtValue,
)
    requires
        i < fs.len(),
        j < fs.len(),
    ensures
        ({
            let set = BuiltinOp::StructSet { field_count: count, field_idx: i, is_unique };
            let s = RtValue::Struct(fs.update(i as int, v));
            &&& eval_op(set, seq![v, RtValue::Struct(fs)], ty, false, apply) == Outcome::Value(s)
            &&& eval_op(BuiltinOp::StructGet { field_idx: j }, seq![s], ty, false, apply)
                == Outcome::Value(if i == j {
                v
            } else {
                fs[j as int]
            })
        }),
{
}

proof fn lemma_loop_state_stops(
    apply: spec_fn(RtValue, RtValue) -> RtValue,
    body: RtValue,
    init: RtValue,
    k: nat,
    m: nat,
)
    requires
        loop_state(apply, body, init, k) is None,
        k <= m,
    ensures
        loop_state(apply, body, init, m) is None,
    decreases m - k,
{
    if k < m {
        lemma_loop_state_stops(apply, body, init, k, (m - 1) as nat);
    }
}

/// `loop` returns what its body breaks with, when it breaks at once.
pub proof fn lemma_loop_breaks_at_once(
    apply: spec_fn(RtValue, RtValue) -> RtValue,
    body: RtValue,
    init: RtValue,
    r: RtValue,
    ty: SType,
)
    requires
        apply(body, init) == (RtValue::Union { tag: continue_tag() + 1, value: Box::new(r) }),
    ensures
        eval_op(BuiltinOp::Loop, seq![init, body], ty, false, apply) == Outcome::Value(r),
{
    assert(loop_breaks_at(apply, body, init, 0));
    let n = choose|n: nat| loop_breaks_at(apply, body, init, n);
    if n > 0 {
        assert(loop_state(apply, body, init, 1) is None);
        lemma_loop_state_stops(apply, body, init, 1, n);
    }
}

/// `fix f x` calls `f` with `fix f` itself, then the result with `x`.
pub proof fn lemma_fix_unfolds(
    me: RtValue,
    f: RtValue,
    x: RtValue,
    ty: SType,
    apply: spec_fn(RtValue, RtValue) -> RtValue,
)
    ensures
        eval_op(BuiltinOp::Fix, seq![me, f, x], ty, false, apply) == Outcome::Value(
            apply(apply(f, me), x),
        ),
{
}

/// `to_string` on an integer gives the decimal text of the integer that its bit pattern
/// stands for when read with the format's signedness and width.
pub proof fn lemma_to_string_text(
    buf_size: u32,
    format: NumberFormat,
    signed: bool,
    width: nat,
    bits: nat,
    ty: SType,
    apply: spec_fn(RtValue, RtValue) -> RtValue,
)
    requires
        int_format(format) == Some((signed, width)),
    ensures
        eval_op(
            BuiltinOp::NumberToString { buf_size, format },
            seq![RtValue::Int { signed, width, bits }],
            ty,
            false,
            apply,
        ) == Outcome::Value(RtValue::Str(int_str(int_value(signed, width, bits)))),
{
}

/// What calling a built-in function with the arguments `args` comes to: each lambda binds the
/// next argument to its variable, then the literal inside is evaluated in that scope.
pub open spec fn eval_call(
    n: SNode,
    args: Seq<RtValue>,
    env: Map<Seq<char>, RtValue>,
    shared: bool,
    apply: spec_fn(RtValue, RtValue) -> RtValue,
) -> Outcome
    decreases args.len(),
{
    match n.expr {
        SExpr::Lam(x, b) => if args.len() > 0 {
            eval_call(*b, args.drop_first(), env.insert(x.name, args[0]), shared, apply)
        } else {
            Outcome::Unspecified
        },
        SExpr::Lit(l) => if args.len() == 0 {
            eval_lit(l, env, shared, apply)
        } else {
            Outcome::Unspecified
        },
        _ => Outcome::Unspecified,
    }
}

} // verus!
