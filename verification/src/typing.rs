//! The typing rules of the typed front end: which operand types each
//! arithmetic, bitwise, assignment and conversion operation accepts, and the
//! type of its result.

use vstd::prelude::*;

use crate::ir::{CmpType, OpLhsRhsType};
use crate::prim::{prim_base, prim_dim, prim_is_matrix, prim_is_scalar, prim_is_vector, prim_type_view, PrimitiveType};
use crate::prim_ir::{arith_ok, mul_ok};
use crate::select::{cmp_instruction, convert_instruction, lhs_rhs_plan};

verus! {

/// An arithmetic or bitwise operation of the typed front end.
#[derive(Clone, Copy, PartialEq, Eq, Debug, Structural)]
pub enum TypedOp {
    Add,
    Sub,
    Mul,
    Div,
    BitAnd,
    BitOr,
    BitXor,
}

/// A scalar type that arithmetic works on: signed, unsigned, float, double.
pub open spec fn numeric_scalar(p: PrimitiveType) -> bool {
    p is Int || p is UInt || p is Float || p is Double
}

/// `v` is the column vector of the square matrix `m`: a float or double
/// vector of the matrix's dimension.
pub open spec fn column_of(v: PrimitiveType, m: PrimitiveType) -> bool {
    &&& prim_is_matrix(m)
    &&& prim_is_vector(v)
    &&& prim_base(v) == prim_base(m)
    &&& prim_dim(v) == prim_dim(m)
}

/// `s` is the scalar a vector or matrix `t` is made of.
pub open spec fn scalar_of(s: PrimitiveType, t: PrimitiveType) -> bool {
    &&& numeric_scalar(s)
    &&& !prim_is_scalar(t)
    &&& prim_base(t) == s
}

/// The result type of `l op r`: two operands of one non-boolean type give
/// that type (two integer operands only for the bitwise operations); a
/// matrix times its column vector gives the vector; a vector or matrix times
/// or divided by its scalar, or that scalar times or divided by it, gives the
/// vector or matrix. None for any other pair.
pub open spec fn op_result(op: TypedOp, l: PrimitiveType, r: PrimitiveType) -> Option<PrimitiveType> {
    match op {
        TypedOp::Add | TypedOp::Sub => if l == r && !(l is Bool) { Some(l) } else { None },
        TypedOp::Mul => {
            if l == r && !(l is Bool) {
                Some(l)
            } else if column_of(r, l) {
                Some(r)
            } else if scalar_of(r, l) {
                Some(l)
            } else if scalar_of(l, r) {
                Some(r)
            } else {
                None
            }
        },
        TypedOp::Div => {
            if l == r && !(l is Bool) {
                Some(l)
            } else if scalar_of(r, l) {
                Some(l)
            } else if scalar_of(l, r) {
                Some(r)
            } else {
                None
            }
        },
        TypedOp::BitAnd | TypedOp::BitOr | TypedOp::BitXor => if l == r && (l is Int || l is UInt) { Some(l) } else { None },
    }
}

/// Whether `l op= r` is accepted: on one non-boolean type (one integer type
/// for the bitwise operations); a vector times-assigned by its matrix; a
/// vector or matrix times- or divide-assigned by its scalar.
pub open spec fn assign_ok(op: TypedOp, l: PrimitiveType, r: PrimitiveType) -> bool {
    match op {
        TypedOp::Add | TypedOp::Sub => l == r && !(l is Bool),
        TypedOp::Mul => (l == r && !(l is Bool)) || column_of(l, r) || scalar_of(r, l),
        TypedOp::Div => (l == r && !(l is Bool)) || scalar_of(r, l),
        TypedOp::BitAnd | TypedOp::BitOr | TypedOp::BitXor => l == r && (l is Int || l is UInt),
    }
}

/// Whether a value of type `a` converts into type `b`: between two different
/// numeric scalar types.
pub open spec fn into_ok(a: PrimitiveType, b: PrimitiveType) -> bool {
    numeric_scalar(a) && numeric_scalar(b) && a != b
}

fn is_numeric_scalar(p: PrimitiveType) -> (r: bool)
    ensures
        r == numeric_scalar(p),
{
    match p {
        PrimitiveType::Int | PrimitiveType::UInt | PrimitiveType::Float | PrimitiveType::Double => true,
        _ => false,
    }
}

fn is_column_of(v: PrimitiveType, m: PrimitiveType) -> (r: bool)
    ensures
        r == column_of(v, m),
{
    match (v, m) {
        (PrimitiveType::Vec2, PrimitiveType::Mat2) | (PrimitiveType::Vec3, PrimitiveType::Mat3)
        | (PrimitiveType::Vec4, PrimitiveType::Mat4) | (PrimitiveType::DVec2, PrimitiveType::DMat2)
        | (PrimitiveType::DVec3, PrimitiveType::DMat3) | (PrimitiveType::DVec4, PrimitiveType::DMat4) => true,
        _ => false,
    }
}

fn is_scalar_of(s: PrimitiveType, t: PrimitiveType) -> (r: bool)
    ensures
        r == scalar_of(s, t),
{
    if !is_numeric_scalar(s) || t.is_scalar() {
        return false;
    }
    match s {
        PrimitiveType::Int => t.is_int(),
        PrimitiveType::UInt => t.is_uint(),
        PrimitiveType::Float => t.is_float(),
        _ => t.is_double(),
    }
}

/// The result type of `l op r`, if the operation accepts the operands.
pub fn result_type(op: TypedOp, l: PrimitiveType, r: PrimitiveType) -> (res: Option<PrimitiveType>)
    ensures
        res == op_result(op, l, r),
        (op is Mul || op is Div) && prim_is_scalar(l) && !(l is Bool) && !prim_is_scalar(r) && prim_base(r)
            == l ==> res == Some(r),
        (op is Mul || op is Div) && prim_is_scalar(r) && !(r is Bool) && !prim_is_scalar(l) && prim_base(l)
            == r ==> res == Some(l),
        res matches Some(t) ==> (prim_is_scalar(t) <==> (prim_is_scalar(l) && prim_is_scalar(r))),
{
    let same = l == r && l != PrimitiveType::Bool;
    match op {
        TypedOp::Add | TypedOp::Sub => if same { Some(l) } else { None },
        TypedOp::Mul => {
            if same {
                Some(l)
            } else if is_column_of(r, l) {
                Some(r)
            } else if is_scalar_of(r, l) {
                Some(l)
            } else if is_scalar_of(l, r) {
                Some(r)
            } else {
                None
            }
        },
        TypedOp::Div => {
            if same {
                Some(l)
            } else if is_scalar_of(r, l) {
                Some(l)
            } else if is_scalar_of(l, r) {
                Some(r)
            } else {
                None
            }
        },
        TypedOp::BitAnd | TypedOp::BitOr | TypedOp::BitXor => {
            if l == r && (l == PrimitiveType::Int || l == PrimitiveType::UInt) { Some(l) } else { None }
        },
    }
}

/// Whether `l op= r` is accepted.
pub fn assign_accepted(op: TypedOp, l: PrimitiveType, r: PrimitiveType) -> (res: bool)
    ensures
        res == assign_ok(op, l, r),
{
    let same = l == r && l != PrimitiveType::Bool;
    match op {
        TypedOp::Add | TypedOp::Sub => same,
        TypedOp::Mul => same || is_column_of(l, r) || is_scalar_of(r, l),
        TypedOp::Div => same || is_scalar_of(r, l),
        TypedOp::BitAnd | TypedOp::BitOr | TypedOp::BitXor => l == r && (l == PrimitiveType::Int || l == PrimitiveType::UInt),
    }
}

/// Whether a value of type `a` converts into type `b`.
pub fn into_accepted(a: PrimitiveType, b: PrimitiveType) -> (res: bool)
    ensures
        res == into_ok(a, b),
{
    is_numeric_scalar(a) && is_numeric_scalar(b) && a != b
}

/// The recorded operation a typed arithmetic operation becomes.
pub open spec fn recorded_op(op: TypedOp) -> OpLhsRhsType {
    match op {
        TypedOp::Add => OpLhsRhsType::Add,
        TypedOp::Sub => OpLhsRhsType::Sub,
        TypedOp::Mul => OpLhsRhsType::Mul,
        TypedOp::Div => OpLhsRhsType::Div,
        TypedOp::BitAnd => OpLhsRhsType::BitAnd,
        TypedOp::BitOr => OpLhsRhsType::BitOr,
        TypedOp::BitXor => OpLhsRhsType::BitXor,
    }
}

/// Every addition, subtraction, multiplication and division the typing rules
/// accept has a lowering for its operand types, but a matrix divided by a
/// matrix.
pub proof fn law_typed_arith_lowers(op: TypedOp, l: PrimitiveType, r: PrimitiveType)
    requires
        op is Add || op is Sub || op is Mul || op is Div,
        op_result(op, l, r) is Some,
        !(op is Div && prim_is_matrix(l) && prim_is_matrix(r)),
    ensures
        lhs_rhs_plan(recorded_op(op), prim_type_view(l), prim_type_view(r)) is Some,
{
}

/// Every addition, subtraction, multiplication and division assignment the
/// typing rules accept has a lowering for its operand types, but a vector
/// times-assigned by a matrix and a matrix divide-assigned by a matrix.
pub proof fn law_typed_assign_lowers(op: TypedOp, l: PrimitiveType, r: PrimitiveType)
    requires
        op is Add || op is Sub || op is Mul || op is Div,
        assign_ok(op, l, r),
        !(op is Mul && column_of(l, r)),
        !(op is Div && prim_is_matrix(l) && prim_is_matrix(r)),
    ensures
        lhs_rhs_plan(recorded_op(op), prim_type_view(l), prim_type_view(r)) is Some,
{
}

/// The typing rules accept an operation of the primitive-typed instruction set
/// only where that set's lowering check does: an addition, subtraction or
/// division not on booleans, a multiplication other than a vector times a
/// matrix or a scalar times a boolean.
pub proof fn law_typed_prim_lowers(op: TypedOp, l: PrimitiveType, r: PrimitiveType)
    requires
        op_result(op, l, r) is Some,
    ensures
        (op is Add || op is Sub || op is Div) ==> arith_ok(l),
        op is Mul ==> mul_ok(l, r),
{
}

/// The result of an accepted operation has the shape of one of its
/// operands: the same type, or for a matrix times its column, the column.
pub proof fn law_result_is_operand(op: TypedOp, l: PrimitiveType, r: PrimitiveType)
    requires
        op_result(op, l, r) is Some,
    ensures
        op_result(op, l, r) == Some(l) || op_result(op, l, r) == Some(r),
{
}

/// A scalar times or divided by a vector or matrix made of that scalar, and
/// such a vector or matrix times or divided by its scalar, give the vector or
/// matrix, in either order of the operands.
pub proof fn law_scalar_with_vector_gives_vector(op: TypedOp, s: PrimitiveType, v: PrimitiveType)
    requires
        op is Mul || op is Div,
        prim_is_scalar(s),
        !(s is Bool),
        !prim_is_scalar(v),
        prim_base(v) == s,
    ensures
        op_result(op, s, v) == Some(v),
        op_result(op, v, s) == Some(v),
{
}

/// An accepted operation keeps the scalar type of its operands, and its
/// result is a scalar only when both operands are: an operation with a
/// vector or matrix operand never gives a scalar.
pub proof fn law_result_keeps_shape(op: TypedOp, l: PrimitiveType, r: PrimitiveType)
    requires
        op_result(op, l, r) is Some,
    ensures
        prim_base(op_result(op, l, r)->Some_0) == prim_base(l),
        prim_base(op_result(op, l, r)->Some_0) == prim_base(r),
        prim_is_scalar(op_result(op, l, r)->Some_0) <==> (prim_is_scalar(l) && prim_is_scalar(r)),
{
}

/// An assignment `l op= r` is accepted exactly when `l op r` is accepted
/// and has the type of `l`, and for a vector times-assigned by a matrix of
/// its dimension.
pub proof fn law_assign_keeps_left_type(op: TypedOp, l: PrimitiveType, r: PrimitiveType)
    ensures
        assign_ok(op, l, r) <==> (op_result(op, l, r) == Some(l) || (op is Mul && column_of(l, r))),
{
}

/// Every conversion the typing rules accept has a conversion instruction.
pub proof fn law_typed_into_lowers(a: PrimitiveType, b: PrimitiveType)
    requires
        into_ok(a, b),
    ensures
        convert_instruction(prim_type_view(a), prim_type_view(b)) is Some,
{
}

/// Whether `l cmp r` is accepted: two operands of one numeric scalar type.
pub open spec fn cmp_ok(l: PrimitiveType, r: PrimitiveType) -> bool {
    l == r && numeric_scalar(l)
}

/// Whether `l cmp r` is accepted.
pub fn cmp_accepted(l: PrimitiveType, r: PrimitiveType) -> (res: bool)
    ensures
        res == cmp_ok(l, r),
{
    l == r && is_numeric_scalar(l)
}

/// Every comparison the typing rules accept has an instruction.
pub proof fn law_typed_cmp_lowers(cmp: CmpType, l: PrimitiveType, r: PrimitiveType)
    requires
        cmp_ok(l, r),
    ensures
        cmp_instruction(cmp, prim_type_view(l)) is Some,
{
}

} // verus!
