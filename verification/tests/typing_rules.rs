use spv::ir::{CmpType, OpLhsRhsType};
use spv::prim::PrimitiveType;
use spv::prim_lower::{arith_choice, get_mul_fn_p, ArithKind};
use spv::select::{cmp_supported, plan_cmp, plan_lhs_rhs, BinOp, Splat};
use spv::typing::{assign_accepted, cmp_accepted, into_accepted, result_type, TypedOp};

#[test]
fn typed_results_of_arithmetic() {
    assert_eq!(result_type(TypedOp::Add, PrimitiveType::Vec3, PrimitiveType::Vec3), Some(PrimitiveType::Vec3));
    assert_eq!(result_type(TypedOp::Add, PrimitiveType::Vec3, PrimitiveType::Vec2), None);
    assert_eq!(result_type(TypedOp::Add, PrimitiveType::Bool, PrimitiveType::Bool), None);
    assert_eq!(result_type(TypedOp::Mul, PrimitiveType::Mat3, PrimitiveType::Vec3), Some(PrimitiveType::Vec3));
    assert_eq!(result_type(TypedOp::Mul, PrimitiveType::Vec3, PrimitiveType::Mat3), None);
    assert_eq!(result_type(TypedOp::Mul, PrimitiveType::Float, PrimitiveType::Mat2), Some(PrimitiveType::Mat2));
    assert_eq!(result_type(TypedOp::Mul, PrimitiveType::IVec4, PrimitiveType::Int), Some(PrimitiveType::IVec4));
    assert_eq!(result_type(TypedOp::Mul, PrimitiveType::IVec4, PrimitiveType::Float), None);
    assert_eq!(result_type(TypedOp::Div, PrimitiveType::DVec2, PrimitiveType::Double), Some(PrimitiveType::DVec2));
    assert_eq!(result_type(TypedOp::Div, PrimitiveType::Mat2, PrimitiveType::Vec2), None);
    assert_eq!(result_type(TypedOp::BitAnd, PrimitiveType::UInt, PrimitiveType::UInt), Some(PrimitiveType::UInt));
    assert_eq!(result_type(TypedOp::BitXor, PrimitiveType::Float, PrimitiveType::Float), None);
    assert_eq!(result_type(TypedOp::BitOr, PrimitiveType::IVec2, PrimitiveType::IVec2), None);
}

#[test]
fn typed_assignments_and_conversions() {
    assert!(assign_accepted(TypedOp::Mul, PrimitiveType::Vec4, PrimitiveType::Mat4));
    assert!(!assign_accepted(TypedOp::Mul, PrimitiveType::Mat4, PrimitiveType::Vec4));
    assert!(assign_accepted(TypedOp::Div, PrimitiveType::UVec3, PrimitiveType::UInt));
    assert!(!assign_accepted(TypedOp::Div, PrimitiveType::UInt, PrimitiveType::UVec3));
    assert!(assign_accepted(TypedOp::Sub, PrimitiveType::Double, PrimitiveType::Double));
    assert!(!assign_accepted(TypedOp::BitAnd, PrimitiveType::Float, PrimitiveType::Float));
    assert!(into_accepted(PrimitiveType::Int, PrimitiveType::Float));
    assert!(!into_accepted(PrimitiveType::Int, PrimitiveType::Int));
    assert!(!into_accepted(PrimitiveType::Bool, PrimitiveType::Int));
    assert!(cmp_accepted(PrimitiveType::UInt, PrimitiveType::UInt));
    assert!(!cmp_accepted(PrimitiveType::Vec2, PrimitiveType::Vec2));
}

#[test]
fn arithmetic_instruction_choice() {
    assert_eq!(arith_choice(ArithKind::Add, PrimitiveType::Vec2), Some(BinOp::FAdd));
    assert_eq!(arith_choice(ArithKind::Add, PrimitiveType::UVec2), Some(BinOp::IAdd));
    assert_eq!(arith_choice(ArithKind::Div, PrimitiveType::Int), Some(BinOp::SDiv));
    assert_eq!(arith_choice(ArithKind::Div, PrimitiveType::UInt), Some(BinOp::UDiv));
    assert_eq!(arith_choice(ArithKind::Sub, PrimitiveType::DMat2), Some(BinOp::FSub));
    assert_eq!(arith_choice(ArithKind::Sub, PrimitiveType::Bool), None);
}

#[test]
fn multiplication_instruction_choice() {
    assert_eq!(get_mul_fn_p(PrimitiveType::Mat3, PrimitiveType::Mat3), Some((BinOp::MatrixTimesMatrix, false)));
    assert_eq!(get_mul_fn_p(PrimitiveType::Mat3, PrimitiveType::Vec3), Some((BinOp::MatrixTimesVector, false)));
    assert_eq!(get_mul_fn_p(PrimitiveType::Mat3, PrimitiveType::Float), Some((BinOp::MatrixTimesScalar, false)));
    assert_eq!(get_mul_fn_p(PrimitiveType::Vec3, PrimitiveType::Vec3), Some((BinOp::FMul, false)));
    assert_eq!(get_mul_fn_p(PrimitiveType::IVec3, PrimitiveType::IVec3), Some((BinOp::FMul, false)));
    assert_eq!(get_mul_fn_p(PrimitiveType::Vec3, PrimitiveType::Float), Some((BinOp::VectorTimesScalar, false)));
    assert_eq!(get_mul_fn_p(PrimitiveType::Float, PrimitiveType::Mat2), Some((BinOp::MatrixTimesScalar, true)));
    assert_eq!(get_mul_fn_p(PrimitiveType::Float, PrimitiveType::Vec2), Some((BinOp::VectorTimesScalar, true)));
    assert_eq!(get_mul_fn_p(PrimitiveType::Int, PrimitiveType::Int), Some((BinOp::IMul, false)));
    assert_eq!(get_mul_fn_p(PrimitiveType::Double, PrimitiveType::Double), Some((BinOp::FMul, false)));
    assert_eq!(get_mul_fn_p(PrimitiveType::Vec2, PrimitiveType::Mat2), None);
    assert_eq!(get_mul_fn_p(PrimitiveType::Float, PrimitiveType::Bool), None);
}

#[test]
fn typed_arithmetic_has_a_lowering() {
    let cases = [
        (TypedOp::Add, OpLhsRhsType::Add, PrimitiveType::IVec3, PrimitiveType::IVec3),
        (TypedOp::Mul, OpLhsRhsType::Mul, PrimitiveType::DMat4, PrimitiveType::DVec4),
        (TypedOp::Mul, OpLhsRhsType::Mul, PrimitiveType::Double, PrimitiveType::DMat2),
        (TypedOp::Div, OpLhsRhsType::Div, PrimitiveType::Float, PrimitiveType::Vec4),
    ];
    for (t, op, l, r) in cases.iter() {
        assert!(result_type(*t, *l, *r).is_some());
        assert!(plan_lhs_rhs(*op, &l.to_type(), &r.to_type()).is_some());
    }
    // a matrix divided by a matrix is typed but has no lowering
    assert!(result_type(TypedOp::Div, PrimitiveType::Mat2, PrimitiveType::Mat2).is_some());
    assert!(plan_lhs_rhs(OpLhsRhsType::Div, &PrimitiveType::Mat2.to_type(), &PrimitiveType::Mat2.to_type()).is_none());
}

#[test]
fn lowering_plans_of_shaped_operands() {
    let f = PrimitiveType::Float.to_type();
    let v = PrimitiveType::Vec3.to_type();
    let p = plan_lhs_rhs(OpLhsRhsType::Mul, &f, &v).unwrap();
    assert_eq!(p.op, BinOp::VectorTimesScalar);
    assert!(p.swap);
    let d = plan_lhs_rhs(OpLhsRhsType::Div, &f, &v).unwrap();
    assert_eq!(d.op, BinOp::FDiv);
    assert!(!d.swap);
    assert!(matches!(d.splat_lhs, Splat::ToVector(_)));
    assert_eq!(d.splat_rhs, Splat::Keep);
    assert!(plan_lhs_rhs(OpLhsRhsType::BitAnd, &f, &f).is_none());
    assert_eq!(plan_cmp(CmpType::Lt, &PrimitiveType::Int.to_type()), BinOp::SLessThan);
    assert_eq!(plan_cmp(CmpType::Ge, &PrimitiveType::UInt.to_type()), BinOp::UGreaterThanEqual);
    assert_eq!(plan_cmp(CmpType::Eq, &PrimitiveType::Vec2.to_type()), BinOp::FOrdEqual);
    assert!(!cmp_supported(CmpType::Lt, &PrimitiveType::Bool.to_type()));
    assert!(cmp_supported(CmpType::Eq, &PrimitiveType::Bool.to_type()));
}
