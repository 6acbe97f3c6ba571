//! The meaning of the operators on values.
//!
//! Integer arithmetic is 64-bit two's complement: sums, differences, products
//! and negation wrap around, division truncates toward zero, and dividing by
//! zero is an error. Operations on two floating-point numbers are not decided
//! here; they are planned and handed to the host.

use vstd::prelude::*;
use std::ops::Deref;
use vstd::string::StringExecFns;
use crate::ast::{BinOpKind, Float, UnOpKind};
use crate::error::{RuntimeError, RuntimeErrorView, RuntimeResult};
use crate::value::{Value, ValueView};

verus! {

/// The quotient of `a` by `b`, rounded toward zero.
pub open spec fn quotient(a: i64, b: i64) -> i64
    recommends
        b != 0,
        !(a == i64::MIN && b == -1),
{
    if a >= 0 {
        (a / b) as i64
    } else {
        (-((-a) / (b as int))) as i64
    }
}

/// The negation of `v`, wrapping around at the least integer.
pub open spec fn wrapping_neg(v: i64) -> i64 {
    if v == i64::MIN {
        i64::MIN
    } else {
        (-v) as i64
    }
}

/// The probe label `<side of (op)>` under which an operand is reported.
pub open spec fn operand_label(side: Seq<char>, kind: BinOpKind) -> Seq<char> {
    "<"@ + side + " of ("@ + kind.symbol() + ")>"@
}

/// Whether `kind` is one of `+ - * /`.
pub open spec fn is_arith(kind: BinOpKind) -> bool {
    kind is Add || kind is Sub || kind is Mul || kind is Div
}

/// Whether `kind` is one of `< <= > >=`.
pub open spec fn is_ordering(kind: BinOpKind) -> bool {
    kind is Lt || kind is Le || kind is Gt || kind is Ge
}

/// The result of a unary operator.
pub open spec fn un_op(kind: UnOpKind, v: ValueView) -> Result<ValueView, RuntimeErrorView> {
    match kind {
        UnOpKind::Neg => match v {
            ValueView::Int(n) => Ok(ValueView::Int(wrapping_neg(n))),
            other => Err(other.mismatch("<neg>"@, "int"@)),
        },
        UnOpKind::Not => match v {
            ValueView::Bool(b) => Ok(ValueView::Bool(!b)),
            other => Err(other.mismatch("<not>"@, "bool"@)),
        },
    }
}

/// The result of an arithmetic or ordering operator on two integers.
pub open spec fn int_op(kind: BinOpKind, l: i64, r: i64) -> Result<ValueView, RuntimeErrorView>
    recommends
        is_arith(kind) || is_ordering(kind),
{
    match kind {
        BinOpKind::Add => Ok(ValueView::Int(l.wrapping_add(r))),
        BinOpKind::Sub => Ok(ValueView::Int(l.wrapping_sub(r))),
        BinOpKind::Mul => Ok(ValueView::Int(l.wrapping_mul(r))),
        BinOpKind::Div => if r == 0 {
            Err(RuntimeErrorView::DivisionByZero)
        } else if l == i64::MIN && r == -1 {
            Ok(ValueView::Int(i64::MIN))
        } else {
            Ok(ValueView::Int(quotient(l, r)))
        },
        BinOpKind::Lt => Ok(ValueView::Bool(l < r)),
        BinOpKind::Le => Ok(ValueView::Bool(l <= r)),
        BinOpKind::Gt => Ok(ValueView::Bool(l > r)),
        _ => Ok(ValueView::Bool(l >= r)),
    }
}

/// What is to be done for a binary operator once both operands are known.
pub enum BinOpPlan {
    /// The result is decided.
    Done(Result<ValueView, RuntimeErrorView>),
    /// The host is to compute `left kind right` on floating-point numbers;
    /// the result is a number.
    Arith { kind: BinOpKind, left: Float, right: Float },
    /// The host is to compare two floating-point numbers; the result is a
    /// truth value.
    Compare { kind: BinOpKind, left: Float, right: Float },
}

/// The plan for `l kind r`.
///
/// Arithmetic and ordering need two operands of the same numeric type, and
/// equality two operands of the same type; otherwise the right operand is
/// reported with the left operand's type as the expected one. `&&` and `||`
/// need two truth values, and report the first operand that is none.
pub open spec fn bin_op_plan(kind: BinOpKind, l: ValueView, r: ValueView) -> BinOpPlan {
    let right_mismatch = BinOpPlan::Done(
        Err(r.mismatch(operand_label("right"@, kind), l.ty_name())),
    );
    match kind {
        BinOpKind::And | BinOpKind::Or => match (l, r) {
            (ValueView::Bool(a), ValueView::Bool(b)) => BinOpPlan::Done(
                Ok(ValueView::Bool(if kind is And { a && b } else { a || b })),
            ),
            (ValueView::Bool(_), _) => BinOpPlan::Done(
                Err(r.mismatch(operand_label("right"@, kind), "bool"@)),
            ),
            _ => BinOpPlan::Done(Err(l.mismatch(operand_label("left"@, kind), "bool"@))),
        },
        BinOpKind::Eq | BinOpKind::Neq => match (l, r) {
            (ValueView::Float(a), ValueView::Float(b)) => BinOpPlan::Compare {
                kind,
                left: a,
                right: b,
            },
            _ => if l.same_type(r) {
                BinOpPlan::Done(Ok(ValueView::Bool(if kind is Eq { l == r } else { l != r })))
            } else {
                right_mismatch
            },
        },
        _ => match (l, r) {
            (ValueView::Int(a), ValueView::Int(b)) => BinOpPlan::Done(int_op(kind, a, b)),
            (ValueView::Float(a), ValueView::Float(b)) => if is_arith(kind) {
                BinOpPlan::Arith { kind, left: a, right: b }
            } else {
                BinOpPlan::Compare { kind, left: a, right: b }
            },
            _ => right_mismatch,
        },
    }
}

/// The exec counterpart of [`BinOpPlan`].
pub enum Plan {
    Done(RuntimeResult<Value>),
    Arith { kind: BinOpKind, left: Float, right: Float },
    Compare { kind: BinOpKind, left: Float, right: Float },
}

impl View for Plan {
    type V = BinOpPlan;

    open spec fn view(&self) -> BinOpPlan {
        match self {
            Plan::Done(Ok(v)) => BinOpPlan::Done(Ok(v@)),
            Plan::Done(Err(e)) => BinOpPlan::Done(Err(e@)),
            Plan::Arith { kind, left, right } => BinOpPlan::Arith {
                kind: *kind,
                left: *left,
                right: *right,
            },
            Plan::Compare { kind, left, right } => BinOpPlan::Compare {
                kind: *kind,
                left: *left,
                right: *right,
            },
        }
    }
}

/// The probe label `<side of (op)>`.
pub fn label(side: &str, kind: BinOpKind) -> (r: String)
    ensures
        r@ == operand_label(side@, kind),
{
    let mut out = String::from_str("<");
    out.append(side);
    out.append(" of (");
    out.append(kind.as_str());
    out.append(")>");
    out
}

/// Applies a unary operator.
pub fn apply_un_op(kind: UnOpKind, v: Value) -> (r: RuntimeResult<Value>)
    ensures
        match r {
            Ok(out) => un_op(kind, v@) == Ok::<ValueView, RuntimeErrorView>(out@),
            Err(e) => un_op(kind, v@) == Err::<ValueView, RuntimeErrorView>(e@),
        },
{
    match kind {
        UnOpKind::Neg => {
            let n = v.rt_cast::<i64>("<neg>")?;
            if n == i64::MIN {
                Ok(Value::Int(i64::MIN))
            } else {
                Ok(Value::Int(-n))
            }
        },
        UnOpKind::Not => {
            let b = v.rt_cast::<bool>("<not>")?;
            Ok(Value::Bool(!b))
        },
    }
}

/// Applies an arithmetic or ordering operator to two integers.
pub fn apply_int_op(kind: BinOpKind, l: i64, r: i64) -> (out: RuntimeResult<Value>)
    requires
        is_arith(kind) || is_ordering(kind),
    ensures
        match out {
            Ok(v) => int_op(kind, l, r) == Ok::<ValueView, RuntimeErrorView>(v@),
            Err(e) => int_op(kind, l, r) == Err::<ValueView, RuntimeErrorView>(e@),
        },
{
    match kind {
        BinOpKind::Add => Ok(Value::Int(l.wrapping_add(r))),
        BinOpKind::Sub => Ok(Value::Int(l.wrapping_sub(r))),
        BinOpKind::Mul => Ok(Value::Int(l.wrapping_mul(r))),
        BinOpKind::Div => {
            if r == 0 {
                Err(RuntimeError::DivisionByZero)
            } else if l == i64::MIN && r == -1 {
                Ok(Value::Int(i64::MIN))
            } else {
                Ok(Value::Int(l / r))
            }
        },
        BinOpKind::Lt => Ok(Value::Bool(l < r)),
        BinOpKind::Le => Ok(Value::Bool(l <= r)),
        BinOpKind::Gt => Ok(Value::Bool(l > r)),
        _ => Ok(Value::Bool(l >= r)),
    }
}

/// Whether two values of the same type, neither of them a floating-point
/// number, are equal.
fn same_payload(l: &Value, r: &Value) -> (out: bool)
    requires
        l@.same_type(r@),
        !(l@ is Float),
    ensures
        out == (l@ == r@),
{
    match (l, r) {
        (Value::Int(a), Value::Int(b)) => *a == *b,
        (Value::Bool(a), Value::Bool(b)) => *a == *b,
        (Value::Str(a), Value::Str(b)) => *a.deref() == *b.deref(),
        (Value::Fn(a), Value::Fn(b)) => *a == *b,
        _ => true,
    }
}

fn right_mismatch(kind: BinOpKind, l: &Value, r: &Value) -> (out: Plan)
    ensures
        out@ == BinOpPlan::Done(Err(r@.mismatch(operand_label("right"@, kind), l@.ty_name()))),
{
    let ident = label("right", kind);
    Plan::Done(Err(RuntimeError::type_error(ident.as_str(), l.ty_name(), r.ty_name())))
}

/// Decides what is to be done for `l kind r`.
pub fn plan_bin_op(kind: BinOpKind, l: Value, r: Value) -> (out: Plan)
    ensures
        out@ == bin_op_plan(kind, l@, r@),
{
    match kind {
        BinOpKind::And | BinOpKind::Or => {
            match (&l, &r) {
                (Value::Bool(a), Value::Bool(b)) => {
                    let both = match kind {
                        BinOpKind::And => *a && *b,
                        _ => *a || *b,
                    };
                    Plan::Done(Ok(Value::Bool(both)))
                },
                (Value::Bool(_), _) => {
                    let ident = label("right", kind);
                    Plan::Done(Err(RuntimeError::type_error(ident.as_str(), "bool", r.ty_name())))
                },
                _ => {
                    let ident = label("left", kind);
                    Plan::Done(Err(RuntimeError::type_error(ident.as_str(), "bool", l.ty_name())))
                },
            }
        },
        BinOpKind::Eq | BinOpKind::Neq => {
            match (&l, &r) {
                (Value::Float(a), Value::Float(b)) => Plan::Compare {
                    kind,
                    left: *a,
                    right: *b,
                },
                _ => {
                    if l.ty_eq(&r) {
                        let same = same_payload(&l, &r);
                        let out = match kind {
                            BinOpKind::Eq => same,
                            _ => !same,
                        };
                        Plan::Done(Ok(Value::Bool(out)))
                    } else {
                        right_mismatch(kind, &l, &r)
                    }
                },
            }
        },
        _ => {
            match (&l, &r) {
                (Value::Int(a), Value::Int(b)) => Plan::Done(apply_int_op(kind, *a, *b)),
                (Value::Float(a), Value::Float(b)) => {
                    match kind {
                        BinOpKind::Add | BinOpKind::Sub | BinOpKind::Mul | BinOpKind::Div => {
                            Plan::Arith { kind, left: *a, right: *b }
                        },
                        _ => Plan::Compare { kind, left: *a, right: *b },
                    }
                },
                _ => right_mismatch(kind, &l, &r),
            }
        },
    }
}

} // verus!
