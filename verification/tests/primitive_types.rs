use spv::prim::{PrimitiveType, PrimitiveVal};
use spv::types::{MatrixType, ScalarType, Type, VectorType};

#[test]
fn primitive_sizes_follow_components_and_scalar_width() {
    assert_eq!(PrimitiveType::Bool.size(), 1);
    assert_eq!(PrimitiveType::Int.size(), 4);
    assert_eq!(PrimitiveType::Double.size(), 8);
    assert_eq!(PrimitiveType::Vec3.size(), 12);
    assert_eq!(PrimitiveType::DVec2.size(), 16);
    assert_eq!(PrimitiveType::Mat4.size(), 64);
    assert_eq!(PrimitiveType::DMat3.size(), 72);
}

#[test]
fn primitive_component_tables() {
    assert_eq!(PrimitiveType::Mat3.components(), 9);
    assert_eq!(PrimitiveType::Vec2.components(), 2);
    assert_eq!(PrimitiveType::Float.components(), 1);
    assert_eq!(PrimitiveType::Vec3.component(), Some(PrimitiveType::Float));
    assert_eq!(PrimitiveType::IVec2.component(), Some(PrimitiveType::Int));
    assert_eq!(PrimitiveType::DMat2.component(), Some(PrimitiveType::Double));
    assert_eq!(PrimitiveType::Float.component(), None);
    assert_eq!(PrimitiveType::Mat3.vector_type(), Some(PrimitiveType::Vec3));
    assert_eq!(PrimitiveType::DMat4.vector_type(), Some(PrimitiveType::DVec4));
    assert_eq!(PrimitiveType::Vec3.vector_type(), None);
    assert_eq!(PrimitiveType::DMat4.vector_components(), Some(4));
    assert_eq!(PrimitiveType::Mat3.matrix_stride(), Some(12));
    assert_eq!(PrimitiveType::DMat2.matrix_stride(), Some(16));
    assert_eq!(PrimitiveType::Vec3.matrix_stride(), None);
}

#[test]
fn primitive_shape_predicates_partition() {
    let all = [
        PrimitiveType::Bool, PrimitiveType::Int, PrimitiveType::UInt, PrimitiveType::Float, PrimitiveType::Double,
        PrimitiveType::IVec2, PrimitiveType::IVec3, PrimitiveType::IVec4, PrimitiveType::UVec2, PrimitiveType::UVec3,
        PrimitiveType::UVec4, PrimitiveType::Vec2, PrimitiveType::Vec3, PrimitiveType::Vec4, PrimitiveType::DVec2,
        PrimitiveType::DVec3, PrimitiveType::DVec4, PrimitiveType::Mat2, PrimitiveType::Mat3, PrimitiveType::Mat4,
        PrimitiveType::DMat2, PrimitiveType::DMat3, PrimitiveType::DMat4,
    ];
    for p in all.iter() {
        let shapes = [p.is_scalar(), p.is_vector(), p.is_matrix()].iter().filter(|b| **b).count();
        assert_eq!(shapes, 1);
        let kinds = [p.is_int(), p.is_uint(), p.is_float(), p.is_double()].iter().filter(|b| **b).count();
        if *p == PrimitiveType::Bool {
            assert_eq!(kinds, 0);
        } else {
            assert_eq!(kinds, 1);
        }
    }
    assert!(PrimitiveType::Mat2.is_float());
    assert!(PrimitiveType::DVec3.is_double());
    assert!(PrimitiveType::UVec4.is_uint());
}

#[test]
fn constant_type_conversion_swaps_sizes() {
    assert_eq!(PrimitiveType::from_val(&PrimitiveVal::Float(0)), PrimitiveType::Float);
    assert_eq!(PrimitiveType::from_val(&PrimitiveVal::IVec2([1, 2])), PrimitiveType::IVec4);
    assert_eq!(PrimitiveType::from_val(&PrimitiveVal::IVec3([1, 2, 3])), PrimitiveType::IVec2);
    assert_eq!(PrimitiveType::from_val(&PrimitiveVal::IVec4([1, 2, 3, 4])), PrimitiveType::IVec3);
    assert_eq!(PrimitiveType::from_val(&PrimitiveVal::UVec2([1, 2])), PrimitiveType::UVec3);
    assert_eq!(PrimitiveType::from_val(&PrimitiveVal::Vec3([0; 3])), PrimitiveType::Vec2);
    assert_eq!(PrimitiveType::from_val(&PrimitiveVal::Vec4([0; 4])), PrimitiveType::Vec4);
    assert_eq!(PrimitiveType::from_val(&PrimitiveVal::Mat2([[0; 2]; 2])), PrimitiveType::Mat3);
    assert_eq!(PrimitiveType::from_val(&PrimitiveVal::DMat3([[0; 3]; 3])), PrimitiveType::DMat2);
}

#[test]
fn constant_parts_are_components_or_columns() {
    assert_eq!(PrimitiveVal::Int(3).parts().len(), 0);
    let v = PrimitiveVal::Vec3([1, 2, 3]).parts();
    assert_eq!(v, vec![PrimitiveVal::Float(1), PrimitiveVal::Float(2), PrimitiveVal::Float(3)]);
    let m = PrimitiveVal::Mat2([[1, 2], [3, 4]]).parts();
    assert_eq!(m, vec![PrimitiveVal::Vec2([1, 2]), PrimitiveVal::Vec2([3, 4])]);
}

#[test]
fn primitive_shader_types() {
    assert_eq!(PrimitiveType::Bool.to_type(), Type::Scalar(ScalarType::Bool));
    assert_eq!(PrimitiveType::UInt.to_type(), Type::Scalar(ScalarType::Unsigned(32)));
    assert_eq!(
        PrimitiveType::DVec3.to_type(),
        Type::Vector(VectorType { scalar_ty: ScalarType::Float(64), n_scalar: 3 })
    );
    assert_eq!(
        PrimitiveType::Mat4.to_type(),
        Type::Matrix(MatrixType { vec_ty: VectorType { scalar_ty: ScalarType::Float(32), n_scalar: 4 }, n_vec: 4 })
    );
}

#[test]
fn shader_type_sizes() {
    let v = VectorType { scalar_ty: ScalarType::Float(32), n_scalar: 3 };
    assert_eq!(v.size(), 12);
    let m = MatrixType { vec_ty: v, n_vec: 3 };
    assert_eq!(m.size(), 36);
    assert_eq!(m.stride(), 12);
    assert_eq!(Type::Void.size(), Some(0));
    assert_eq!(Type::Scalar(ScalarType::Float(64)).size(), Some(8));
}
