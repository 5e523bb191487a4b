use spv::layout::{layout_fits, parse_field, rust_to_spv, struct_layout, FieldTy};
use spv::types::{ArrayType, MatrixType, ScalarType, StructMember, Type, VectorType};

fn named(s: &str) -> FieldTy {
    FieldTy::Named(s.to_string())
}

#[test]
fn rust_type_names_map_to_shader_types() {
    assert_eq!(rust_to_spv(&"u32".to_string()), Some((Type::Scalar(ScalarType::Unsigned(32)), 4)));
    assert_eq!(rust_to_spv(&"bool".to_string()), Some((Type::Scalar(ScalarType::Bool), 1)));
    assert_eq!(rust_to_spv(&"()".to_string()), Some((Type::Void, 0)));
    for n in ["glam :: Vec3", ":: glam :: Vec3", "GlamVec3", "Vec3"].iter() {
        assert_eq!(rust_to_spv(&n.to_string()), Some((Type::Vector(VectorType { scalar_ty: ScalarType::Float(32), n_scalar: 3 }), 12)));
    }
    let dmat3 = Type::Matrix(MatrixType { vec_ty: VectorType { scalar_ty: ScalarType::Float(64), n_scalar: 3 }, n_vec: 3 });
    assert_eq!(rust_to_spv(&"DMat3".to_string()), Some((dmat3, 72)));
    assert_eq!(rust_to_spv(&"f64".to_string()), Some((Type::Scalar(ScalarType::Float(64)), 8)));
    assert_eq!(rust_to_spv(&"String".to_string()), None);
    assert_eq!(rust_to_spv(&"glam::Vec3".to_string()), None);
}

#[test]
fn array_fields_multiply_their_element_size() {
    let f = FieldTy::Array(Box::new(named("IVec2")), 5);
    let (t, s) = parse_field(&f).unwrap();
    assert_eq!(s, 40);
    assert_eq!(
        t,
        Type::Array(ArrayType {
            element_ty: Box::new(Type::Vector(VectorType { scalar_ty: ScalarType::Signed(32), n_scalar: 2 })),
            length: Some(5),
        })
    );
    let nested = FieldTy::Array(Box::new(FieldTy::Array(Box::new(named("f32")), 3)), 2);
    assert_eq!(parse_field(&nested).unwrap().1, 24);
    let huge = FieldTy::Array(Box::new(named("Mat4")), 0x1000_0000);
    assert!(parse_field(&huge).is_none());
    let bad = FieldTy::Array(Box::new(named("char")), 2);
    assert!(parse_field(&bad).is_none());
}

#[test]
fn struct_members_are_packed_in_order() {
    let fields = vec![
        ("position".to_string(), named("glam :: Vec3")),
        ("scale".to_string(), named("f32")),
        ("ids".to_string(), FieldTy::Array(Box::new(named("u32")), 4)),
        ("flag".to_string(), named("bool")),
    ];
    assert!(layout_fits(&fields));
    let st = struct_layout(&"Light".to_string(), &fields);
    assert_eq!(st.name, Some("Light".to_string()));
    assert_eq!(st.members.len(), 4);
    let offsets: Vec<u32> = st.members.iter().map(|m| m.offset).collect();
    assert_eq!(offsets, vec![0, 12, 16, 32]);
    assert_eq!(st.members[1], StructMember { name: Some("scale".to_string()), ty: Type::Scalar(ScalarType::Float(32)), offset: 12 });
    assert_eq!(st.members[3].ty, Type::Scalar(ScalarType::Bool));
}

#[test]
fn struct_layout_rejects_unknown_fields_and_overflow() {
    let fields = vec![("a".to_string(), named("u32")), ("b".to_string(), named("usize"))];
    assert!(!layout_fits(&fields));
    let big = vec![
        ("a".to_string(), FieldTy::Array(Box::new(named("DMat4")), 0x0100_0000)),
        ("b".to_string(), FieldTy::Array(Box::new(named("DMat4")), 0x0100_0000)),
    ];
    assert!(!layout_fits(&big));
    let empty: Vec<(String, FieldTy)> = Vec::new();
    assert!(layout_fits(&empty));
    let st = struct_layout(&"Empty".to_string(), &empty);
    assert!(st.members.is_empty());
}
