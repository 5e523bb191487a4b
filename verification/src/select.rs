//! Choosing the SPIR-V instruction that implements a recorded operation on
//! operands of given types.

use vstd::prelude::*;

use crate::ir::{CmpType, OpLhsRhsType, OpLhsType};
use crate::types::{MatrixType, ScalarType, Type, TypeView, VectorType};

verus! {

/// A SPIR-V instruction taking two operands.
#[derive(Clone, Copy, PartialEq, Eq, Debug)]
pub enum BinOp {
    IAdd,
    FAdd,
    ISub,
    FSub,
    IMul,
    FMul,
    SDiv,
    UDiv,
    FDiv,
    VectorTimesScalar,
    MatrixTimesScalar,
    MatrixTimesVector,
    MatrixTimesMatrix,
    Dot,
    Cross,
    BitwiseAnd,
    BitwiseOr,
    BitwiseXor,
    LogicalAnd,
    LogicalOr,
    LogicalEqual,
    LogicalNotEqual,
    IEqual,
    FOrdEqual,
    INotEqual,
    FOrdNotEqual,
    SLessThan,
    ULessThan,
    FOrdLessThan,
    SGreaterThan,
    UGreaterThan,
    FOrdGreaterThan,
    SLessThanEqual,
    ULessThanEqual,
    FOrdLessThanEqual,
    SGreaterThanEqual,
    UGreaterThanEqual,
    FOrdGreaterThanEqual,
}

/// A SPIR-V instruction taking one operand.
#[derive(Clone, Copy, PartialEq, Eq, Debug)]
pub enum UnOp {
    LogicalNot,
    SConvert,
    UConvert,
    FConvert,
    ConvertSToF,
    ConvertUToF,
    ConvertFToS,
    ConvertFToU,
    SatConvertSToU,
    SatConvertUToS,
}

/// How an operand is widened before the instruction: kept, or repeated into
/// every component of a vector, or of every column of a matrix.
#[derive(Clone, Copy, PartialEq, Eq, Debug)]
pub enum Splat {
    Keep,
    ToVector(VectorType),
    ToMatrix(MatrixType),
}

/// How a binary operation is lowered: the instruction, whether the operands
/// are passed in swapped order, and how each is widened first.
#[derive(Clone, Copy, PartialEq, Eq, Debug)]
pub struct BinPlan {
    pub op: BinOp,
    pub swap: bool,
    pub splat_lhs: Splat,
    pub splat_rhs: Splat,
}

/// How a unary operation is lowered: a core instruction, or the instruction
/// of the given number from the GLSL.std.450 extended set.
#[derive(Clone, Copy, PartialEq, Eq, Debug)]
pub enum LhsPlan {
    Core(UnOp),
    Glsl(u32),
}

/// The plain plan: the instruction on the operands as given.
pub open spec fn plain(op: BinOp) -> BinPlan {
    BinPlan { op, swap: false, splat_lhs: Splat::Keep, splat_rhs: Splat::Keep }
}

/// The integer instruction for signed and unsigned operands, the float one
/// for floats; none for booleans.
pub open spec fn by_kind(s: ScalarType, int_op: BinOp, float_op: BinOp) -> Option<BinOp> {
    match s {
        ScalarType::Signed(_) | ScalarType::Unsigned(_) => Some(int_op),
        ScalarType::Float(_) => Some(float_op),
        ScalarType::Bool => None,
    }
}

/// The division instruction for the scalar kind.
pub open spec fn div_by_kind(s: ScalarType) -> Option<BinOp> {
    match s {
        ScalarType::Signed(_) => Some(BinOp::SDiv),
        ScalarType::Unsigned(_) => Some(BinOp::UDiv),
        ScalarType::Float(_) => Some(BinOp::FDiv),
        ScalarType::Bool => None,
    }
}

/// Applies a plan shape to an optional instruction.
pub open spec fn with_shape(op: Option<BinOp>, swap: bool, l: Splat, r: Splat) -> Option<BinPlan> {
    match op {
        Some(o) => Some(BinPlan { op: o, swap, splat_lhs: l, splat_rhs: r }),
        None => None,
    }
}

/// The lowering of an addition or subtraction: both operands scalars, both
/// vectors or both matrices, of integer or float components.
pub open spec fn add_sub_plan(lhs: TypeView, rhs: TypeView, int_op: BinOp, float_op: BinOp) -> Option<BinPlan> {
    match (lhs, rhs) {
        (TypeView::Scalar(s), TypeView::Scalar(_)) => with_shape(by_kind(s, int_op, float_op), false, Splat::Keep, Splat::Keep),
        (TypeView::Vector(v), TypeView::Vector(_)) => with_shape(by_kind(v.scalar_ty, int_op, float_op), false, Splat::Keep, Splat::Keep),
        (TypeView::Matrix(m), TypeView::Matrix(_)) => with_shape(by_kind(m.vec_ty.scalar_ty, int_op, float_op), false, Splat::Keep, Splat::Keep),
        _ => None,
    }
}

/// The lowering of a multiplication. A scalar times a vector or matrix is
/// lowered with the operands swapped so that the scalar comes second.
pub open spec fn mul_plan(lhs: TypeView, rhs: TypeView) -> Option<BinPlan> {
    match (lhs, rhs) {
        (TypeView::Scalar(s), TypeView::Scalar(_)) => with_shape(by_kind(s, BinOp::IMul, BinOp::FMul), false, Splat::Keep, Splat::Keep),
        (TypeView::Scalar(_), TypeView::Vector(_)) => Some(BinPlan { op: BinOp::VectorTimesScalar, swap: true, splat_lhs: Splat::Keep, splat_rhs: Splat::Keep }),
        (TypeView::Scalar(_), TypeView::Matrix(_)) => Some(BinPlan { op: BinOp::MatrixTimesScalar, swap: true, splat_lhs: Splat::Keep, splat_rhs: Splat::Keep }),
        (TypeView::Vector(_), TypeView::Scalar(_)) => Some(plain(BinOp::VectorTimesScalar)),
        (TypeView::Vector(v), TypeView::Vector(_)) => with_shape(by_kind(v.scalar_ty, BinOp::IMul, BinOp::FMul), false, Splat::Keep, Splat::Keep),
        (TypeView::Matrix(_), TypeView::Scalar(_)) => Some(plain(BinOp::MatrixTimesScalar)),
        (TypeView::Matrix(_), TypeView::Vector(_)) => Some(plain(BinOp::MatrixTimesVector)),
        (TypeView::Matrix(_), TypeView::Matrix(_)) => Some(plain(BinOp::MatrixTimesMatrix)),
        _ => None,
    }
}

/// The lowering of a division. A scalar divided by a vector or matrix, or a
/// vector or matrix divided by a scalar, first repeats the scalar into the
/// other operand's shape; the instruction follows the scalar's kind.
pub open spec fn div_plan(lhs: TypeView, rhs: TypeView) -> Option<BinPlan> {
    match (lhs, rhs) {
        (TypeView::Scalar(s), TypeView::Scalar(_)) => with_shape(div_by_kind(s), false, Splat::Keep, Splat::Keep),
        (TypeView::Scalar(s), TypeView::Vector(v)) => with_shape(div_by_kind(s), false, Splat::ToVector(v), Splat::Keep),
        (TypeView::Scalar(s), TypeView::Matrix(m)) => with_shape(div_by_kind(s), false, Splat::ToMatrix(m), Splat::Keep),
        (TypeView::Vector(v), TypeView::Scalar(s)) => with_shape(div_by_kind(s), false, Splat::Keep, Splat::ToVector(v)),
        (TypeView::Vector(v), TypeView::Vector(_)) => with_shape(div_by_kind(v.scalar_ty), false, Splat::Keep, Splat::Keep),
        (TypeView::Matrix(m), TypeView::Scalar(s)) => with_shape(div_by_kind(s), false, Splat::Keep, Splat::ToMatrix(m)),
        _ => None,
    }
}

/// The lowering of a binary operation on operands of the given types; none
/// where the operation is not supported on them (the bitwise operations on
/// any types).
pub open spec fn lhs_rhs_plan(op: OpLhsRhsType, lhs: TypeView, rhs: TypeView) -> Option<BinPlan> {
    match op {
        OpLhsRhsType::Add => add_sub_plan(lhs, rhs, BinOp::IAdd, BinOp::FAdd),
        OpLhsRhsType::Sub => add_sub_plan(lhs, rhs, BinOp::ISub, BinOp::FSub),
        OpLhsRhsType::Mul => mul_plan(lhs, rhs),
        OpLhsRhsType::Div => div_plan(lhs, rhs),
        OpLhsRhsType::BitAnd | OpLhsRhsType::BitOr | OpLhsRhsType::BitXor => None,
        OpLhsRhsType::LogicalAnd => Some(plain(BinOp::LogicalAnd)),
        OpLhsRhsType::LogicalOr => Some(plain(BinOp::LogicalOr)),
        OpLhsRhsType::LogicalEqual => Some(plain(BinOp::LogicalEqual)),
        OpLhsRhsType::LogicalNotEqual => Some(plain(BinOp::LogicalNotEqual)),
        OpLhsRhsType::Cross => Some(plain(BinOp::Cross)),
        OpLhsRhsType::Dot => Some(plain(BinOp::Dot)),
    }
}

/// The recorded binary operation an instruction performs: the additions,
/// subtractions, multiplications (of any shapes) and divisions, the bitwise
/// and logical operations, and the cross and dot products; none for a
/// comparison of orders.
pub open spec fn performs(op: BinOp) -> Option<OpLhsRhsType> {
    match op {
        BinOp::IAdd | BinOp::FAdd => Some(OpLhsRhsType::Add),
        BinOp::ISub | BinOp::FSub => Some(OpLhsRhsType::Sub),
        BinOp::IMul | BinOp::FMul | BinOp::VectorTimesScalar | BinOp::MatrixTimesScalar
        | BinOp::MatrixTimesVector | BinOp::MatrixTimesMatrix => Some(OpLhsRhsType::Mul),
        BinOp::SDiv | BinOp::UDiv | BinOp::FDiv => Some(OpLhsRhsType::Div),
        BinOp::BitwiseAnd => Some(OpLhsRhsType::BitAnd),
        BinOp::BitwiseOr => Some(OpLhsRhsType::BitOr),
        BinOp::BitwiseXor => Some(OpLhsRhsType::BitXor),
        BinOp::LogicalAnd => Some(OpLhsRhsType::LogicalAnd),
        BinOp::LogicalOr => Some(OpLhsRhsType::LogicalOr),
        BinOp::LogicalEqual => Some(OpLhsRhsType::LogicalEqual),
        BinOp::LogicalNotEqual => Some(OpLhsRhsType::LogicalNotEqual),
        BinOp::Cross => Some(OpLhsRhsType::Cross),
        BinOp::Dot => Some(OpLhsRhsType::Dot),
        _ => None,
    }
}

/// Whether an arithmetic instruction whose result depends on how it reads
/// its components reads them as the scalar kind `s`: the `I` ones integers
/// of either signedness, the `S` one signed and the `U` one unsigned
/// integers, the `F` ones floats. The others make no such claim.
pub open spec fn arith_reads_as(op: BinOp, s: ScalarType) -> bool {
    match op {
        BinOp::IAdd | BinOp::ISub | BinOp::IMul => s is Signed || s is Unsigned,
        BinOp::SDiv => s is Signed,
        BinOp::UDiv => s is Unsigned,
        BinOp::FAdd | BinOp::FSub | BinOp::FMul | BinOp::FDiv => s is Float,
        _ => true,
    }
}

/// The lowering of a binary operation performs that operation; on two
/// operands of one scalar kind its instruction reads them as that kind; the
/// operands are swapped exactly for a scalar times a vector or matrix; and
/// only a division mixing a scalar with a vector or matrix repeats the
/// scalar into the other operand's shape.
pub proof fn law_lhs_rhs_plan_performs(op: OpLhsRhsType, lhs: TypeView, rhs: TypeView)
    ensures
        lhs_rhs_plan(op, lhs, rhs) matches Some(p) ==> {
            &&& performs(p.op) == Some(op)
            &&& (element_scalar(lhs) is Some && element_scalar(rhs) == element_scalar(lhs) ==> arith_reads_as(
                p.op,
                element_scalar(lhs)->Some_0,
            ))
            &&& (p.swap <==> (op is Mul && lhs is Scalar && (rhs is Vector || rhs is Matrix)))
            &&& (p.splat_lhs !is Keep ==> op is Div && lhs is Scalar)
            &&& (p.splat_rhs !is Keep ==> op is Div && rhs is Scalar)
            &&& (op is Div && lhs is Scalar && rhs is Vector ==> p.splat_lhs == Splat::ToVector(rhs->Vector_0))
            &&& (op is Div && lhs is Scalar && rhs is Matrix ==> p.splat_lhs == Splat::ToMatrix(rhs->Matrix_0))
            &&& (op is Div && rhs is Scalar && lhs is Vector ==> p.splat_rhs == Splat::ToVector(lhs->Vector_0))
            &&& (op is Div && rhs is Scalar && lhs is Matrix ==> p.splat_rhs == Splat::ToMatrix(lhs->Matrix_0))
        },
{
}

fn kind_op(s: ScalarType, int_op: BinOp, float_op: BinOp) -> (r: Option<BinOp>)
    ensures
        r == by_kind(s, int_op, float_op),
{
    match s {
        ScalarType::Signed(_) | ScalarType::Unsigned(_) => Some(int_op),
        ScalarType::Float(_) => Some(float_op),
        ScalarType::Bool => None,
    }
}

fn div_op(s: ScalarType) -> (r: Option<BinOp>)
    ensures
        r == div_by_kind(s),
{
    match s {
        ScalarType::Signed(_) => Some(BinOp::SDiv),
        ScalarType::Unsigned(_) => Some(BinOp::UDiv),
        ScalarType::Float(_) => Some(BinOp::FDiv),
        ScalarType::Bool => None,
    }
}

fn shape(op: Option<BinOp>, swap: bool, l: Splat, r: Splat) -> (p: Option<BinPlan>)
    ensures
        p == with_shape(op, swap, l, r),
{
    match op {
        Some(o) => Some(BinPlan { op: o, swap, splat_lhs: l, splat_rhs: r }),
        None => None,
    }
}

fn plan_add_sub(lhs: &Type, rhs: &Type, int_op: BinOp, float_op: BinOp) -> (r: Option<BinPlan>)
    ensures
        r == add_sub_plan(lhs@, rhs@, int_op, float_op),
{
    let k = Splat::Keep;
    match (lhs, rhs) {
        (Type::Scalar(s), Type::Scalar(_)) => shape(kind_op(*s, int_op, float_op), false, k, k),
        (Type::Vector(v), Type::Vector(_)) => shape(kind_op(v.scalar_ty, int_op, float_op), false, k, k),
        (Type::Matrix(m), Type::Matrix(_)) => shape(kind_op(m.vec_ty.scalar_ty, int_op, float_op), false, k, k),
        _ => None,
    }
}

fn plan_mul(lhs: &Type, rhs: &Type) -> (r: Option<BinPlan>)
    ensures
        r == mul_plan(lhs@, rhs@),
{
    let k = Splat::Keep;
    let p = |op: BinOp, swap: bool| -> (r: BinPlan)
        ensures
            r == (BinPlan { op, swap, splat_lhs: Splat::Keep, splat_rhs: Splat::Keep }),
        { BinPlan { op, swap, splat_lhs: Splat::Keep, splat_rhs: Splat::Keep } };
    match (lhs, rhs) {
        (Type::Scalar(s), Type::Scalar(_)) => shape(kind_op(*s, BinOp::IMul, BinOp::FMul), false, k, k),
        (Type::Scalar(_), Type::Vector(_)) => Some(p(BinOp::VectorTimesScalar, true)),
        (Type::Scalar(_), Type::Matrix(_)) => Some(p(BinOp::MatrixTimesScalar, true)),
        (Type::Vector(_), Type::Scalar(_)) => Some(p(BinOp::VectorTimesScalar, false)),
        (Type::Vector(v), Type::Vector(_)) => shape(kind_op(v.scalar_ty, BinOp::IMul, BinOp::FMul), false, k, k),
        (Type::Matrix(_), Type::Scalar(_)) => Some(p(BinOp::MatrixTimesScalar, false)),
        (Type::Matrix(_), Type::Vector(_)) => Some(p(BinOp::MatrixTimesVector, false)),
        (Type::Matrix(_), Type::Matrix(_)) => Some(p(BinOp::MatrixTimesMatrix, false)),
        _ => None,
    }
}

fn plan_div(lhs: &Type, rhs: &Type) -> (r: Option<BinPlan>)
    ensures
        r == div_plan(lhs@, rhs@),
{
    let k = Splat::Keep;
    match (lhs, rhs) {
        (Type::Scalar(s), Type::Scalar(_)) => shape(div_op(*s), false, k, k),
        (Type::Scalar(s), Type::Vector(v)) => shape(div_op(*s), false, Splat::ToVector(*v), k),
        (Type::Scalar(s), Type::Matrix(m)) => shape(div_op(*s), false, Splat::ToMatrix(*m), k),
        (Type::Vector(v), Type::Scalar(s)) => shape(div_op(*s), false, k, Splat::ToVector(*v)),
        (Type::Vector(v), Type::Vector(_)) => shape(div_op(v.scalar_ty), false, k, k),
        (Type::Matrix(m), Type::Scalar(s)) => shape(div_op(*s), false, k, Splat::ToMatrix(*m)),
        _ => None,
    }
}

/// Chooses how to lower `lhs op rhs` on operands of the given types; `None`
/// where the operation is not supported on them.
pub fn plan_lhs_rhs(op: OpLhsRhsType, lhs: &Type, rhs: &Type) -> (r: Option<BinPlan>)
    ensures
        r == lhs_rhs_plan(op, lhs@, rhs@),
{
    let k = Splat::Keep;
    let p = |o: BinOp| -> (r: BinPlan)
        ensures
            r == plain(o),
        { BinPlan { op: o, swap: false, splat_lhs: Splat::Keep, splat_rhs: Splat::Keep } };
    match op {
        OpLhsRhsType::Add => plan_add_sub(lhs, rhs, BinOp::IAdd, BinOp::FAdd),
        OpLhsRhsType::Sub => plan_add_sub(lhs, rhs, BinOp::ISub, BinOp::FSub),
        OpLhsRhsType::Mul => plan_mul(lhs, rhs),
        OpLhsRhsType::Div => plan_div(lhs, rhs),
        OpLhsRhsType::BitAnd | OpLhsRhsType::BitOr | OpLhsRhsType::BitXor => None,
        OpLhsRhsType::LogicalAnd => Some(p(BinOp::LogicalAnd)),
        OpLhsRhsType::LogicalOr => Some(p(BinOp::LogicalOr)),
        OpLhsRhsType::LogicalEqual => Some(p(BinOp::LogicalEqual)),
        OpLhsRhsType::LogicalNotEqual => Some(p(BinOp::LogicalNotEqual)),
        OpLhsRhsType::Cross => Some(p(BinOp::Cross)),
        OpLhsRhsType::Dot => Some(p(BinOp::Dot)),
    }
}

/// The scalar kind a comparison looks at: that of a scalar, or of the
/// components of a vector or matrix.
pub open spec fn element_scalar(t: TypeView) -> Option<ScalarType> {
    match t {
        TypeView::Scalar(s) => Some(s),
        TypeView::Vector(v) => Some(v.scalar_ty),
        TypeView::Matrix(m) => Some(m.vec_ty.scalar_ty),
        _ => None,
    }
}

/// The comparison instruction for a comparison on the left operand's
/// type: equality tests booleans logically, integers as integers and floats
/// ordered; ordering tests are signed, unsigned or ordered float, and none for
/// booleans.
pub open spec fn cmp_instruction(cmp: CmpType, lhs: TypeView) -> Option<BinOp> {
    match element_scalar(lhs) {
        None => None,
        Some(s) => match (cmp, s) {
            (CmpType::Eq, ScalarType::Bool) => Some(BinOp::LogicalEqual),
            (CmpType::Eq, ScalarType::Float(_)) => Some(BinOp::FOrdEqual),
            (CmpType::Eq, _) => Some(BinOp::IEqual),
            (CmpType::NEq, ScalarType::Bool) => Some(BinOp::LogicalNotEqual),
            (CmpType::NEq, ScalarType::Float(_)) => Some(BinOp::FOrdNotEqual),
            (CmpType::NEq, _) => Some(BinOp::INotEqual),
            (_, ScalarType::Bool) => None,
            (CmpType::Lt, ScalarType::Signed(_)) => Some(BinOp::SLessThan),
            (CmpType::Lt, ScalarType::Unsigned(_)) => Some(BinOp::ULessThan),
            (CmpType::Lt, _) => Some(BinOp::FOrdLessThan),
            (CmpType::Gt, ScalarType::Signed(_)) => Some(BinOp::SGreaterThan),
            (CmpType::Gt, ScalarType::Unsigned(_)) => Some(BinOp::UGreaterThan),
            (CmpType::Gt, _) => Some(BinOp::FOrdGreaterThan),
            (CmpType::Le, ScalarType::Signed(_)) => Some(BinOp::SLessThanEqual),
            (CmpType::Le, ScalarType::Unsigned(_)) => Some(BinOp::ULessThanEqual),
            (CmpType::Le, _) => Some(BinOp::FOrdLessThanEqual),
            (CmpType::Ge, ScalarType::Signed(_)) => Some(BinOp::SGreaterThanEqual),
            (CmpType::Ge, ScalarType::Unsigned(_)) => Some(BinOp::UGreaterThanEqual),
            (CmpType::Ge, _) => Some(BinOp::FOrdGreaterThanEqual),
        },
    }
}

/// The relation a comparison instruction tests between its two operands;
/// none for an instruction that is no comparison.
pub open spec fn tested_relation(op: BinOp) -> Option<CmpType> {
    match op {
        BinOp::LogicalEqual | BinOp::IEqual | BinOp::FOrdEqual => Some(CmpType::Eq),
        BinOp::LogicalNotEqual | BinOp::INotEqual | BinOp::FOrdNotEqual => Some(CmpType::NEq),
        BinOp::SLessThan | BinOp::ULessThan | BinOp::FOrdLessThan => Some(CmpType::Lt),
        BinOp::SGreaterThan | BinOp::UGreaterThan | BinOp::FOrdGreaterThan => Some(CmpType::Gt),
        BinOp::SLessThanEqual | BinOp::ULessThanEqual | BinOp::FOrdLessThanEqual => Some(CmpType::Le),
        BinOp::SGreaterThanEqual | BinOp::UGreaterThanEqual | BinOp::FOrdGreaterThanEqual => Some(CmpType::Ge),
        _ => None,
    }
}

/// Whether a comparison instruction reads its operands as the scalar kind
/// `s`: the logical ones booleans, the `I` ones integers of either
/// signedness, the `S` ones signed and the `U` ones unsigned integers, the
/// ordered ones floats.
pub open spec fn compares_as(op: BinOp, s: ScalarType) -> bool {
    match op {
        BinOp::LogicalEqual | BinOp::LogicalNotEqual => s is Bool,
        BinOp::IEqual | BinOp::INotEqual => s is Signed || s is Unsigned,
        BinOp::SLessThan | BinOp::SGreaterThan | BinOp::SLessThanEqual | BinOp::SGreaterThanEqual => s is Signed,
        BinOp::ULessThan | BinOp::UGreaterThan | BinOp::ULessThanEqual | BinOp::UGreaterThanEqual => s is Unsigned,
        BinOp::FOrdEqual | BinOp::FOrdNotEqual | BinOp::FOrdLessThan | BinOp::FOrdGreaterThan
        | BinOp::FOrdLessThanEqual | BinOp::FOrdGreaterThanEqual => s is Float,
        _ => false,
    }
}

/// Whether `a cmp b` holds of two numbers.
pub open spec fn relation_holds(cmp: CmpType, a: int, b: int) -> bool {
    match cmp {
        CmpType::Eq => a == b,
        CmpType::NEq => a != b,
        CmpType::Lt => a < b,
        CmpType::Gt => a > b,
        CmpType::Le => a <= b,
        CmpType::Ge => a >= b,
    }
}

/// What an integer comparison instruction gives on two integer operands of
/// the signedness it reads.
pub open spec fn integer_test(op: BinOp, a: int, b: int) -> bool {
    match op {
        BinOp::IEqual => a == b,
        BinOp::INotEqual => a != b,
        BinOp::SLessThan | BinOp::ULessThan => a < b,
        BinOp::SGreaterThan | BinOp::UGreaterThan => a > b,
        BinOp::SLessThanEqual | BinOp::ULessThanEqual => a <= b,
        BinOp::SGreaterThanEqual | BinOp::UGreaterThanEqual => a >= b,
        _ => false,
    }
}

/// The instruction chosen for a comparison tests that comparison, reading
/// the operands as the scalar kind of the left operand; there is one for
/// every comparison of scalars, vectors or matrices but an ordering of
/// booleans, and none for other types. On integers it gives exactly the
/// comparison of the two numbers, so that an ordering that admits equality
/// holds of equal operands.
pub proof fn law_cmp_instruction_tests_comparison(cmp: CmpType, lhs: TypeView)
    ensures
        cmp_instruction(cmp, lhs) is Some <==> (element_scalar(lhs) matches Some(s)
            && (cmp is Eq || cmp is NEq || !(s is Bool))),
        cmp_instruction(cmp, lhs) matches Some(op) ==> {
            &&& tested_relation(op) == Some(cmp)
            &&& compares_as(op, element_scalar(lhs)->Some_0)
        },
        cmp_instruction(cmp, lhs) matches Some(op) ==> (element_scalar(lhs)->Some_0 is Signed
            || element_scalar(lhs)->Some_0 is Unsigned) ==> forall|a: int, b: int|
            #[trigger] integer_test(op, a, b) == relation_holds(cmp, a, b),
{
}

/// Whether a comparison has an instruction for the left operand's type: a
/// scalar, vector or matrix operand, boolean only for equality.
pub fn cmp_supported(cmp: CmpType, lhs: &Type) -> (r: bool)
    ensures
        r == (cmp_instruction(cmp, lhs@) is Some),
{
    let s = match lhs {
        Type::Scalar(s) => *s,
        Type::Vector(v) => v.scalar_ty,
        Type::Matrix(m) => m.vec_ty.scalar_ty,
        _ => {
            return false;
        },
    };
    match (cmp, s) {
        (CmpType::Eq, _) | (CmpType::NEq, _) => true,
        (_, ScalarType::Bool) => false,
        _ => true,
    }
}

/// Chooses the comparison instruction for the left operand's type, which
/// must have one (see `cmp_supported`).
pub fn plan_cmp(cmp: CmpType, lhs: &Type) -> (r: BinOp)
    requires
        cmp_instruction(cmp, lhs@) is Some,
    ensures
        cmp_instruction(cmp, lhs@) == Some(r),
        tested_relation(r) == Some(cmp),
        compares_as(r, element_scalar(lhs@)->Some_0),
{
    let s = match lhs {
        Type::Scalar(s) => *s,
        Type::Vector(v) => v.scalar_ty,
        Type::Matrix(m) => m.vec_ty.scalar_ty,
        _ => {
            return BinOp::IEqual;
        },
    };
    match (cmp, s) {
        (CmpType::Eq, ScalarType::Bool) => BinOp::LogicalEqual,
        (CmpType::Eq, ScalarType::Float(_)) => BinOp::FOrdEqual,
        (CmpType::Eq, _) => BinOp::IEqual,
        (CmpType::NEq, ScalarType::Bool) => BinOp::LogicalNotEqual,
        (CmpType::NEq, ScalarType::Float(_)) => BinOp::FOrdNotEqual,
        (CmpType::NEq, _) => BinOp::INotEqual,
        (_, ScalarType::Bool) => BinOp::IEqual,
        (CmpType::Lt, ScalarType::Signed(_)) => BinOp::SLessThan,
        (CmpType::Lt, ScalarType::Unsigned(_)) => BinOp::ULessThan,
        (CmpType::Lt, _) => BinOp::FOrdLessThan,
        (CmpType::Gt, ScalarType::Signed(_)) => BinOp::SGreaterThan,
        (CmpType::Gt, ScalarType::Unsigned(_)) => BinOp::UGreaterThan,
        (CmpType::Gt, _) => BinOp::FOrdGreaterThan,
        (CmpType::Le, ScalarType::Signed(_)) => BinOp::SLessThanEqual,
        (CmpType::Le, ScalarType::Unsigned(_)) => BinOp::ULessThanEqual,
        (CmpType::Le, _) => BinOp::FOrdLessThanEqual,
        (CmpType::Ge, ScalarType::Signed(_)) => BinOp::SGreaterThanEqual,
        (CmpType::Ge, ScalarType::Unsigned(_)) => BinOp::UGreaterThanEqual,
        (CmpType::Ge, _) => BinOp::FOrdGreaterThanEqual,
    }
}

/// The conversion instruction between two scalar types: same kind converts
/// width, integer to integer of the other signedness saturates, and integers
/// and floats convert into each other; none for booleans or non-scalars.
pub open spec fn convert_instruction(src: TypeView, dst: TypeView) -> Option<UnOp> {
    match (src, dst) {
        (TypeView::Scalar(a), TypeView::Scalar(b)) => match (a, b) {
            (ScalarType::Signed(_), ScalarType::Signed(_)) => Some(UnOp::SConvert),
            (ScalarType::Signed(_), ScalarType::Unsigned(_)) => Some(UnOp::SatConvertSToU),
            (ScalarType::Signed(_), ScalarType::Float(_)) => Some(UnOp::ConvertSToF),
            (ScalarType::Unsigned(_), ScalarType::Signed(_)) => Some(UnOp::SatConvertUToS),
            (ScalarType::Unsigned(_), ScalarType::Unsigned(_)) => Some(UnOp::UConvert),
            (ScalarType::Unsigned(_), ScalarType::Float(_)) => Some(UnOp::ConvertUToF),
            (ScalarType::Float(_), ScalarType::Signed(_)) => Some(UnOp::ConvertFToS),
            (ScalarType::Float(_), ScalarType::Unsigned(_)) => Some(UnOp::ConvertFToU),
            (ScalarType::Float(_), ScalarType::Float(_)) => Some(UnOp::FConvert),
            _ => None,
        },
        _ => None,
    }
}

/// Whether a conversion instruction converts a scalar of kind `a` into one
/// of kind `b`: `S`, `U` and `F` name signed, unsigned and float operands,
/// the `Sat` ones clamp between the two signednesses.
pub open spec fn converts_between(u: UnOp, a: ScalarType, b: ScalarType) -> bool {
    match u {
        UnOp::SConvert => a is Signed && b is Signed,
        UnOp::UConvert => a is Unsigned && b is Unsigned,
        UnOp::FConvert => a is Float && b is Float,
        UnOp::ConvertSToF => a is Signed && b is Float,
        UnOp::ConvertUToF => a is Unsigned && b is Float,
        UnOp::ConvertFToS => a is Float && b is Signed,
        UnOp::ConvertFToU => a is Float && b is Unsigned,
        UnOp::SatConvertSToU => a is Signed && b is Unsigned,
        UnOp::SatConvertUToS => a is Unsigned && b is Signed,
        UnOp::LogicalNot => false,
    }
}

/// There is a conversion between two scalars of number kinds, and between
/// nothing else; the instruction chosen converts from the source's kind to
/// the destination's.
pub proof fn law_convert_instruction_converts(src: TypeView, dst: TypeView)
    ensures
        convert_instruction(src, dst) is Some <==> (src is Scalar && !(src->Scalar_0 is Bool) && dst is Scalar
            && !(dst->Scalar_0 is Bool)),
        convert_instruction(src, dst) matches Some(u) ==> converts_between(u, src->Scalar_0, dst->Scalar_0),
{
}

/// Chooses the conversion instruction from `src` to `dst`.
pub fn plan_convert(src: &Type, dst: &Type) -> (r: Option<UnOp>)
    ensures
        r == convert_instruction(src@, dst@),
{
    match (src, dst) {
        (Type::Scalar(a), Type::Scalar(b)) => match (a, b) {
            (ScalarType::Signed(_), ScalarType::Signed(_)) => Some(UnOp::SConvert),
            (ScalarType::Signed(_), ScalarType::Unsigned(_)) => Some(UnOp::SatConvertSToU),
            (ScalarType::Signed(_), ScalarType::Float(_)) => Some(UnOp::ConvertSToF),
            (ScalarType::Unsigned(_), ScalarType::Signed(_)) => Some(UnOp::SatConvertUToS),
            (ScalarType::Unsigned(_), ScalarType::Unsigned(_)) => Some(UnOp::UConvert),
            (ScalarType::Unsigned(_), ScalarType::Float(_)) => Some(UnOp::ConvertUToF),
            (ScalarType::Float(_), ScalarType::Signed(_)) => Some(UnOp::ConvertFToS),
            (ScalarType::Float(_), ScalarType::Unsigned(_)) => Some(UnOp::ConvertFToU),
            (ScalarType::Float(_), ScalarType::Float(_)) => Some(UnOp::FConvert),
            _ => None,
        },
        _ => None,
    }
}

/// The GLSL.std.450 instruction number of each unary operation other than
/// the logical not.
pub open spec fn lhs_instruction(op: OpLhsType) -> LhsPlan {
    match op {
        OpLhsType::LogicalNot => LhsPlan::Core(UnOp::LogicalNot),
        OpLhsType::Normalize => LhsPlan::Glsl(69),
        OpLhsType::Length => LhsPlan::Glsl(66),
        OpLhsType::Exp => LhsPlan::Glsl(27),
        OpLhsType::Exp2 => LhsPlan::Glsl(29),
        OpLhsType::Sin => LhsPlan::Glsl(13),
        OpLhsType::Cos => LhsPlan::Glsl(14),
        OpLhsType::Tan => LhsPlan::Glsl(15),
        OpLhsType::ASin => LhsPlan::Glsl(16),
        OpLhsType::ACos => LhsPlan::Glsl(17),
        OpLhsType::ATan => LhsPlan::Glsl(18),
    }
}

/// Each unary operation has an instruction of its own: no two of them are
/// lowered alike.
pub proof fn law_lhs_instruction_distinct(a: OpLhsType, b: OpLhsType)
    requires
        a != b,
    ensures
        lhs_instruction(a) != lhs_instruction(b),
{
}

/// Chooses how to lower a unary operation.
pub fn plan_lhs(op: OpLhsType) -> (r: LhsPlan)
    ensures
        r == lhs_instruction(op),
{
    match op {
        OpLhsType::LogicalNot => LhsPlan::Core(UnOp::LogicalNot),
        OpLhsType::Normalize => LhsPlan::Glsl(69),
        OpLhsType::Length => LhsPlan::Glsl(66),
        OpLhsType::Exp => LhsPlan::Glsl(27),
        OpLhsType::Exp2 => LhsPlan::Glsl(29),
        OpLhsType::Sin => LhsPlan::Glsl(13),
        OpLhsType::Cos => LhsPlan::Glsl(14),
        OpLhsType::Tan => LhsPlan::Glsl(15),
        OpLhsType::ASin => LhsPlan::Glsl(16),
        OpLhsType::ACos => LhsPlan::Glsl(17),
        OpLhsType::ATan => LhsPlan::Glsl(18),
    }
}

} // verus!
