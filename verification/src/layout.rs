//! The layout a struct derive gives a Rust struct of shader data: each
//! field's shader type and size from its Rust type, and the members at packed
//! offsets, one after the other in declaration order.

use vstd::prelude::*;

use crate::types::{members_size, type_size, ArrayType, MatrixType, MemberView, ScalarType, StructMember, StructType, Type, TypeView, VectorType};

verus! {

/// A field's Rust type as the derive reads it: a type named by its path (as
/// its tokens print, such as `glam :: Vec3`), or an array of a field type
/// with a literal length.
pub enum FieldTy {
    Named(String),
    Array(Box<FieldTy>, u32),
}

/// The shader type and byte size of a Rust type name: the unit type, `bool`,
/// `i32`, `u32`, `f32`, `f64`, and the glam vector and matrix types, each
/// under its path, its path from the root, its `Glam` alias or its bare name.
/// Every other name is an unsupported field type, which the derive refuses:
/// it has none.
pub open spec fn named_type(n: Seq<char>) -> Option<(TypeView, int)> {
    if n == "()"@ {
        Some((TypeView::Void, 0))
    } else if n == "bool"@ {
        Some((TypeView::Scalar(ScalarType::Bool), 1))
    } else if n == "i32"@ {
        Some((TypeView::Scalar(ScalarType::Signed(32)), 4))
    } else if n == "u32"@ {
        Some((TypeView::Scalar(ScalarType::Unsigned(32)), 4))
    } else if n == "f32"@ {
        Some((TypeView::Scalar(ScalarType::Float(32)), 4))
    } else if n == "f64"@ {
        Some((TypeView::Scalar(ScalarType::Float(64)), 8))
    } else if n == "glam :: IVec2"@ || n == ":: glam :: IVec2"@ || n == "GlamIVec2"@ || n == "IVec2"@ {
        Some((TypeView::Vector(VectorType { scalar_ty: ScalarType::Signed(32), n_scalar: 2 }), 8))
    } else if n == "glam :: IVec3"@ || n == ":: glam :: IVec3"@ || n == "GlamIVec3"@ || n == "IVec3"@ {
        Some((TypeView::Vector(VectorType { scalar_ty: ScalarType::Signed(32), n_scalar: 3 }), 12))
    } else if n == "glam :: IVec4"@ || n == ":: glam :: IVec4"@ || n == "GlamIVec4"@ || n == "IVec4"@ {
        Some((TypeView::Vector(VectorType { scalar_ty: ScalarType::Signed(32), n_scalar: 4 }), 16))
    } else if n == "glam :: UVec2"@ || n == ":: glam :: UVec2"@ || n == "GlamUVec2"@ || n == "UVec2"@ {
        Some((TypeView::Vector(VectorType { scalar_ty: ScalarType::Unsigned(32), n_scalar: 2 }), 8))
    } else if n == "glam :: UVec3"@ || n == ":: glam :: UVec3"@ || n == "GlamUVec3"@ || n == "UVec3"@ {
        Some((TypeView::Vector(VectorType { scalar_ty: ScalarType::Unsigned(32), n_scalar: 3 }), 12))
    } else if n == "glam :: UVec4"@ || n == ":: glam :: UVec4"@ || n == "GlamUVec4"@ || n == "UVec4"@ {
        Some((TypeView::Vector(VectorType { scalar_ty: ScalarType::Unsigned(32), n_scalar: 4 }), 16))
    } else if n == "glam :: Vec2"@ || n == ":: glam :: Vec2"@ || n == "GlamVec2"@ || n == "Vec2"@ {
        Some((TypeView::Vector(VectorType { scalar_ty: ScalarType::Float(32), n_scalar: 2 }), 8))
    } else if n == "glam :: Vec3"@ || n == ":: glam :: Vec3"@ || n == "GlamVec3"@ || n == "Vec3"@ {
        Some((TypeView::Vector(VectorType { scalar_ty: ScalarType::Float(32), n_scalar: 3 }), 12))
    } else if n == "glam :: Vec4"@ || n == ":: glam :: Vec4"@ || n == "GlamVec4"@ || n == "Vec4"@ {
        Some((TypeView::Vector(VectorType { scalar_ty: ScalarType::Float(32), n_scalar: 4 }), 16))
    } else if n == "glam :: DVec2"@ || n == ":: glam :: DVec2"@ || n == "GlamDVec2"@ || n == "DVec2"@ {
        Some((TypeView::Vector(VectorType { scalar_ty: ScalarType::Float(64), n_scalar: 2 }), 16))
    } else if n == "glam :: DVec3"@ || n == ":: glam :: DVec3"@ || n == "GlamDVec3"@ || n == "DVec3"@ {
        Some((TypeView::Vector(VectorType { scalar_ty: ScalarType::Float(64), n_scalar: 3 }), 24))
    } else if n == "glam :: DVec4"@ || n == ":: glam :: DVec4"@ || n == "GlamDVec4"@ || n == "DVec4"@ {
        Some((TypeView::Vector(VectorType { scalar_ty: ScalarType::Float(64), n_scalar: 4 }), 32))
    } else if n == "glam :: Mat2"@ || n == ":: glam :: Mat2"@ || n == "GlamMat2"@ || n == "Mat2"@ {
        Some((TypeView::Matrix(MatrixType { vec_ty: VectorType { scalar_ty: ScalarType::Float(32), n_scalar: 2 }, n_vec: 2 }), 16))
    } else if n == "glam :: Mat3"@ || n == ":: glam :: Mat3"@ || n == "GlamMat3"@ || n == "Mat3"@ {
        Some((TypeView::Matrix(MatrixType { vec_ty: VectorType { scalar_ty: ScalarType::Float(32), n_scalar: 3 }, n_vec: 3 }), 36))
    } else if n == "glam :: Mat4"@ || n == ":: glam :: Mat4"@ || n == "GlamMat4"@ || n == "Mat4"@ {
        Some((TypeView::Matrix(MatrixType { vec_ty: VectorType { scalar_ty: ScalarType::Float(32), n_scalar: 4 }, n_vec: 4 }), 64))
    } else if n == "glam :: DMat2"@ || n == ":: glam :: DMat2"@ || n == "GlamDMat2"@ || n == "DMat2"@ {
        Some((TypeView::Matrix(MatrixType { vec_ty: VectorType { scalar_ty: ScalarType::Float(64), n_scalar: 2 }, n_vec: 2 }), 32))
    } else if n == "glam :: DMat3"@ || n == ":: glam :: DMat3"@ || n == "GlamDMat3"@ || n == "DMat3"@ {
        Some((TypeView::Matrix(MatrixType { vec_ty: VectorType { scalar_ty: ScalarType::Float(64), n_scalar: 3 }, n_vec: 3 }), 72))
    } else if n == "glam :: DMat4"@ || n == ":: glam :: DMat4"@ || n == "GlamDMat4"@ || n == "DMat4"@ {
        Some((TypeView::Matrix(MatrixType { vec_ty: VectorType { scalar_ty: ScalarType::Float(64), n_scalar: 4 }, n_vec: 4 }), 128))
    } else {
        None
    }
}

/// The shader type and byte size of a field type: an array is an array type
/// of its element with its length, as large as its elements together; none
/// when the element has none or the size exceeds `u32`.
pub open spec fn field_layout(f: FieldTy) -> Option<(TypeView, int)>
    decreases f,
{
    match f {
        FieldTy::Named(n) => named_type(n@),
        FieldTy::Array(e, len) => match field_layout(*e) {
            Some((t, s)) => if len * s <= u32::MAX {
                Some((TypeView::Array(Box::new(t), Some(len as usize)), len * s))
            } else {
                None
            },
            None => None,
        },
    }
}

/// The total size of the fields, each laid out after the previous one; none
/// when a field has no layout or a running total exceeds `u32`.
pub open spec fn fields_total(fs: Seq<(String, FieldTy)>) -> Option<int>
    decreases fs.len(),
{
    if fs.len() == 0 {
        Some(0)
    } else {
        match (fields_total(fs.drop_last()), field_layout(fs.last().1)) {
            (Some(o), Some((_, s))) => if o + s <= u32::MAX { Some(o + s) } else { None },
            _ => None,
        }
    }
}

/// The members of the fields: each named as its field, of its field's type,
/// at the total size of the fields before it.
pub open spec fn fields_members(fs: Seq<(String, FieldTy)>) -> Seq<MemberView>
    decreases fs.len(),
{
    if fs.len() == 0 {
        Seq::empty()
    } else {
        let o = fields_total(fs.drop_last())->Some_0;
        let t = field_layout(fs.last().1)->Some_0.0;
        fields_members(fs.drop_last()).push(MemberView { name: Some(fs.last().0@), ty: t, offset: o as u32 })
    }
}

/// The value of a decimal digit character.
pub open spec fn digit_value(c: char) -> int {
    (c as int) - ('0' as int)
}

/// The scalar type a Rust scalar type name spells: `bool`, or a letter
/// `i`, `u` or `f` for a signed, unsigned or floating point number followed
/// by its width in bits in two decimal digits.
pub open spec fn spelled_scalar(n: Seq<char>) -> Option<ScalarType> {
    if n.len() == 4 && n[0] == 'b' && n[1] == 'o' && n[2] == 'o' && n[3] == 'l' {
        Some(ScalarType::Bool)
    } else if n.len() == 3 && '0' <= n[1] <= '9' && '0' <= n[2] <= '9' {
        let w = (digit_value(n[1]) * 10 + digit_value(n[2])) as u32;
        if n[0] == 'i' {
            Some(ScalarType::Signed(w))
        } else if n[0] == 'u' {
            Some(ScalarType::Unsigned(w))
        } else if n[0] == 'f' {
            Some(ScalarType::Float(w))
        } else {
            None
        }
    } else {
        None
    }
}

/// The component scalar a glam vector or matrix name spells by the letter
/// just before its `Vec` or `Mat`: `I` for signed and `U` for unsigned 32-bit
/// integers, `D` for 64-bit floats, and anything else (or nothing) for
/// 32-bit floats.
pub open spec fn spelled_component(n: Seq<char>) -> ScalarType {
    let k = n.len() - 5;
    if k >= 0 && n[k] == 'I' {
        ScalarType::Signed(32)
    } else if k >= 0 && n[k] == 'U' {
        ScalarType::Unsigned(32)
    } else if k >= 0 && n[k] == 'D' {
        ScalarType::Float(64)
    } else {
        ScalarType::Float(32)
    }
}

/// Whether a glam name spells a vector (`Vec` and a digit at its end) or a
/// matrix (`Mat` and a digit), and the dimension that digit gives.
pub open spec fn spelled_shape(n: Seq<char>, matrix: bool, dim: int) -> bool {
    &&& n.len() >= 4
    &&& n[n.len() - 4] == (if matrix { 'M' } else { 'V' })
    &&& dim == digit_value(n[n.len() - 1])
}

/// Every Rust type name the derive accepts is laid out as the type its
/// spelling names: a scalar name as the scalar of that kind and width
/// (`i32` a signed, `u32` an unsigned 32-bit integer), a glam vector or
/// matrix name as a vector or square matrix of the component its letter
/// names and the dimension its digit gives, whichever path or alias it is
/// written with; and the size given is the size of that type.
pub proof fn law_named_type_as_spelled(n: Seq<char>)
    ensures
        named_type(n) matches Some((t, size)) ==> {
            &&& type_size(t) == Some(size)
            &&& (t matches TypeView::Scalar(s) ==> spelled_scalar(n) == Some(s))
            &&& (t matches TypeView::Vector(v) ==> v.scalar_ty == spelled_component(n) && spelled_shape(
                n,
                false,
                v.n_scalar as int,
            ))
            &&& (t matches TypeView::Matrix(m) ==> m.vec_ty.scalar_ty == spelled_component(n) && m.n_vec
                == m.vec_ty.n_scalar && spelled_shape(n, true, m.n_vec as int))
        },
{
    if n == "()"@ {
    } else if n == "bool"@ {
        reveal_strlit("bool");
    } else if n == "i32"@ {
        reveal_strlit("i32");
    } else if n == "u32"@ {
        reveal_strlit("u32");
    } else if n == "f32"@ {
        reveal_strlit("f32");
    } else if n == "f64"@ {
        reveal_strlit("f64");
    } else if n == "glam :: IVec2"@ || n == ":: glam :: IVec2"@ || n == "GlamIVec2"@ || n == "IVec2"@ {
        reveal_strlit("glam :: IVec2");
        reveal_strlit(":: glam :: IVec2");
        reveal_strlit("GlamIVec2");
        reveal_strlit("IVec2");
    } else if n == "glam :: IVec3"@ || n == ":: glam :: IVec3"@ || n == "GlamIVec3"@ || n == "IVec3"@ {
        reveal_strlit("glam :: IVec3");
        reveal_strlit(":: glam :: IVec3");
        reveal_strlit("GlamIVec3");
        reveal_strlit("IVec3");
    } else if n == "glam :: IVec4"@ || n == ":: glam :: IVec4"@ || n == "GlamIVec4"@ || n == "IVec4"@ {
        reveal_strlit("glam :: IVec4");
        reveal_strlit(":: glam :: IVec4");
        reveal_strlit("GlamIVec4");
        reveal_strlit("IVec4");
    } else if n == "glam :: UVec2"@ || n == ":: glam :: UVec2"@ || n == "GlamUVec2"@ || n == "UVec2"@ {
        reveal_strlit("glam :: UVec2");
        reveal_strlit(":: glam :: UVec2");
        reveal_strlit("GlamUVec2");
        reveal_strlit("UVec2");
    } else if n == "glam :: UVec3"@ || n == ":: glam :: UVec3"@ || n == "GlamUVec3"@ || n == "UVec3"@ {
        reveal_strlit("glam :: UVec3");
        reveal_strlit(":: glam :: UVec3");
        reveal_strlit("GlamUVec3");
        reveal_strlit("UVec3");
    } else if n == "glam :: UVec4"@ || n == ":: glam :: UVec4"@ || n == "GlamUVec4"@ || n == "UVec4"@ {
        reveal_strlit("glam :: UVec4");
        reveal_strlit(":: glam :: UVec4");
        reveal_strlit("GlamUVec4");
        reveal_strlit("UVec4");
    } else if n == "glam :: Vec2"@ || n == ":: glam :: Vec2"@ || n == "GlamVec2"@ || n == "Vec2"@ {
        reveal_strlit("glam :: Vec2");
        reveal_strlit(":: glam :: Vec2");
        reveal_strlit("GlamVec2");
        reveal_strlit("Vec2");
    } else if n == "glam :: Vec3"@ || n == ":: glam :: Vec3"@ || n == "GlamVec3"@ || n == "Vec3"@ {
        reveal_strlit("glam :: Vec3");
        reveal_strlit(":: glam :: Vec3");
        reveal_strlit("GlamVec3");
        reveal_strlit("Vec3");
    } else if n == "glam :: Vec4"@ || n == ":: glam :: Vec4"@ || n == "GlamVec4"@ || n == "Vec4"@ {
        reveal_strlit("glam :: Vec4");
        reveal_strlit(":: glam :: Vec4");
        reveal_strlit("GlamVec4");
        reveal_strlit("Vec4");
    } else if n == "glam :: DVec2"@ || n == ":: glam :: DVec2"@ || n == "GlamDVec2"@ || n == "DVec2"@ {
        reveal_strlit("glam :: DVec2");
        reveal_strlit(":: glam :: DVec2");
        reveal_strlit("GlamDVec2");
        reveal_strlit("DVec2");
    } else if n == "glam :: DVec3"@ || n == ":: glam :: DVec3"@ || n == "GlamDVec3"@ || n == "DVec3"@ {
        reveal_strlit("glam :: DVec3");
        reveal_strlit(":: glam :: DVec3");
        reveal_strlit("GlamDVec3");
        reveal_strlit("DVec3");
    } else if n == "glam :: DVec4"@ || n == ":: glam :: DVec4"@ || n == "GlamDVec4"@ || n == "DVec4"@ {
        reveal_strlit("glam :: DVec4");
        reveal_strlit(":: glam :: DVec4");
        reveal_strlit("GlamDVec4");
        reveal_strlit("DVec4");
    } else if n == "glam :: Mat2"@ || n == ":: glam :: Mat2"@ || n == "GlamMat2"@ || n == "Mat2"@ {
        reveal_strlit("glam :: Mat2");
        reveal_strlit(":: glam :: Mat2");
        reveal_strlit("GlamMat2");
        reveal_strlit("Mat2");
    } else if n == "glam :: Mat3"@ || n == ":: glam :: Mat3"@ || n == "GlamMat3"@ || n == "Mat3"@ {
        reveal_strlit("glam :: Mat3");
        reveal_strlit(":: glam :: Mat3");
        reveal_strlit("GlamMat3");
        reveal_strlit("Mat3");
    } else if n == "glam :: Mat4"@ || n == ":: glam :: Mat4"@ || n == "GlamMat4"@ || n == "Mat4"@ {
        reveal_strlit("glam :: Mat4");
        reveal_strlit(":: glam :: Mat4");
        reveal_strlit("GlamMat4");
        reveal_strlit("Mat4");
    } else if n == "glam :: DMat2"@ || n == ":: glam :: DMat2"@ || n == "GlamDMat2"@ || n == "DMat2"@ {
        reveal_strlit("glam :: DMat2");
        reveal_strlit(":: glam :: DMat2");
        reveal_strlit("GlamDMat2");
        reveal_strlit("DMat2");
    } else if n == "glam :: DMat3"@ || n == ":: glam :: DMat3"@ || n == "GlamDMat3"@ || n == "DMat3"@ {
        reveal_strlit("glam :: DMat3");
        reveal_strlit(":: glam :: DMat3");
        reveal_strlit("GlamDMat3");
        reveal_strlit("DMat3");
    } else if n == "glam :: DMat4"@ || n == ":: glam :: DMat4"@ || n == "GlamDMat4"@ || n == "DMat4"@ {
        reveal_strlit("glam :: DMat4");
        reveal_strlit(":: glam :: DMat4");
        reveal_strlit("GlamDMat4");
        reveal_strlit("DMat4");
    }
}

/// Whether two strings hold the same characters.
fn eq_lit(n: &String, lit: &str) -> (r: bool)
    ensures
        r == (n@ == lit@),
{
    let l = lit.to_owned();
    *n == l
}

/// The shader type and byte size of a Rust type name; none for an
/// unsupported one, which the derive refuses.
pub fn rust_to_spv(n: &String) -> (r: Option<(Type, u32)>)
    ensures
        r is Some <==> named_type(n@) is Some,
        r matches Some((t, s)) ==> named_type(n@) == Some((t@, s as int)),
{
    if eq_lit(n, "()") {
        Some((Type::Void, 0))
    } else if eq_lit(n, "bool") {
        Some((Type::Scalar(ScalarType::Bool), 1))
    } else if eq_lit(n, "i32") {
        Some((Type::Scalar(ScalarType::Signed(32)), 4))
    } else if eq_lit(n, "u32") {
        Some((Type::Scalar(ScalarType::Unsigned(32)), 4))
    } else if eq_lit(n, "f32") {
        Some((Type::Scalar(ScalarType::Float(32)), 4))
    } else if eq_lit(n, "f64") {
        Some((Type::Scalar(ScalarType::Float(64)), 8))
    } else if eq_lit(n, "glam :: IVec2") || eq_lit(n, ":: glam :: IVec2") || eq_lit(n, "GlamIVec2") || eq_lit(n, "IVec2") {
        Some((Type::Vector(VectorType { scalar_ty: ScalarType::Signed(32), n_scalar: 2 }), 8))
    } else if eq_lit(n, "glam :: IVec3") || eq_lit(n, ":: glam :: IVec3") || eq_lit(n, "GlamIVec3") || eq_lit(n, "IVec3") {
        Some((Type::Vector(VectorType { scalar_ty: ScalarType::Signed(32), n_scalar: 3 }), 12))
    } else if eq_lit(n, "glam :: IVec4") || eq_lit(n, ":: glam :: IVec4") || eq_lit(n, "GlamIVec4") || eq_lit(n, "IVec4") {
        Some((Type::Vector(VectorType { scalar_ty: ScalarType::Signed(32), n_scalar: 4 }), 16))
    } else if eq_lit(n, "glam :: UVec2") || eq_lit(n, ":: glam :: UVec2") || eq_lit(n, "GlamUVec2") || eq_lit(n, "UVec2") {
        Some((Type::Vector(VectorType { scalar_ty: ScalarType::Unsigned(32), n_scalar: 2 }), 8))
    } else if eq_lit(n, "glam :: UVec3") || eq_lit(n, ":: glam :: UVec3") || eq_lit(n, "GlamUVec3") || eq_lit(n, "UVec3") {
        Some((Type::Vector(VectorType { scalar_ty: ScalarType::Unsigned(32), n_scalar: 3 }), 12))
    } else if eq_lit(n, "glam :: UVec4") || eq_lit(n, ":: glam :: UVec4") || eq_lit(n, "GlamUVec4") || eq_lit(n, "UVec4") {
        Some((Type::Vector(VectorType { scalar_ty: ScalarType::Unsigned(32), n_scalar: 4 }), 16))
    } else if eq_lit(n, "glam :: Vec2") || eq_lit(n, ":: glam :: Vec2") || eq_lit(n, "GlamVec2") || eq_lit(n, "Vec2") {
        Some((Type::Vector(VectorType { scalar_ty: ScalarType::Float(32), n_scalar: 2 }), 8))
    } else if eq_lit(n, "glam :: Vec3") || eq_lit(n, ":: glam :: Vec3") || eq_lit(n, "GlamVec3") || eq_lit(n, "Vec3") {
        Some((Type::Vector(VectorType { scalar_ty: ScalarType::Float(32), n_scalar: 3 }), 12))
    } else if eq_lit(n, "glam :: Vec4") || eq_lit(n, ":: glam :: Vec4") || eq_lit(n, "GlamVec4") || eq_lit(n, "Vec4") {
        Some((Type::Vector(VectorType { scalar_ty: ScalarType::Float(32), n_scalar: 4 }), 16))
    } else if eq_lit(n, "glam :: DVec2") || eq_lit(n, ":: glam :: DVec2") || eq_lit(n, "GlamDVec2") || eq_lit(n, "DVec2") {
        Some((Type::Vector(VectorType { scalar_ty: ScalarType::Float(64), n_scalar: 2 }), 16))
    } else if eq_lit(n, "glam :: DVec3") || eq_lit(n, ":: glam :: DVec3") || eq_lit(n, "GlamDVec3") || eq_lit(n, "DVec3") {
        Some((Type::Vector(VectorType { scalar_ty: ScalarType::Float(64), n_scalar: 3 }), 24))
    } else if eq_lit(n, "glam :: DVec4") || eq_lit(n, ":: glam :: DVec4") || eq_lit(n, "GlamDVec4") || eq_lit(n, "DVec4") {
        Some((Type::Vector(VectorType { scalar_ty: ScalarType::Float(64), n_scalar: 4 }), 32))
    } else if eq_lit(n, "glam :: Mat2") || eq_lit(n, ":: glam :: Mat2") || eq_lit(n, "GlamMat2") || eq_lit(n, "Mat2") {
        Some((Type::Matrix(MatrixType { vec_ty: VectorType { scalar_ty: ScalarType::Float(32), n_scalar: 2 }, n_vec: 2 }), 16))
    } else if eq_lit(n, "glam :: Mat3") || eq_lit(n, ":: glam :: Mat3") || eq_lit(n, "GlamMat3") || eq_lit(n, "Mat3") {
        Some((Type::Matrix(MatrixType { vec_ty: VectorType { scalar_ty: ScalarType::Float(32), n_scalar: 3 }, n_vec: 3 }), 36))
    } else if eq_lit(n, "glam :: Mat4") || eq_lit(n, ":: glam :: Mat4") || eq_lit(n, "GlamMat4") || eq_lit(n, "Mat4") {
        Some((Type::Matrix(MatrixType { vec_ty: VectorType { scalar_ty: ScalarType::Float(32), n_scalar: 4 }, n_vec: 4 }), 64))
    } else if eq_lit(n, "glam :: DMat2") || eq_lit(n, ":: glam :: DMat2") || eq_lit(n, "GlamDMat2") || eq_lit(n, "DMat2") {
        Some((Type::Matrix(MatrixType { vec_ty: VectorType { scalar_ty: ScalarType::Float(64), n_scalar: 2 }, n_vec: 2 }), 32))
    } else if eq_lit(n, "glam :: DMat3") || eq_lit(n, ":: glam :: DMat3") || eq_lit(n, "GlamDMat3") || eq_lit(n, "DMat3") {
        Some((Type::Matrix(MatrixType { vec_ty: VectorType { scalar_ty: ScalarType::Float(64), n_scalar: 3 }, n_vec: 3 }), 72))
    } else if eq_lit(n, "glam :: DMat4") || eq_lit(n, ":: glam :: DMat4") || eq_lit(n, "GlamDMat4") || eq_lit(n, "DMat4") {
        Some((Type::Matrix(MatrixType { vec_ty: VectorType { scalar_ty: ScalarType::Float(64), n_scalar: 4 }, n_vec: 4 }), 128))
    } else {
        None
    }
}

/// The shader type and byte size of a field type.
pub fn parse_field(f: &FieldTy) -> (r: Option<(Type, u32)>)
    ensures
        r is Some <==> field_layout(*f) is Some,
        r matches Some((t, s)) ==> field_layout(*f) == Some((t@, s as int)),
    decreases f,
{
    match f {
        FieldTy::Named(n) => rust_to_spv(n),
        FieldTy::Array(e, len) => match parse_field(e) {
            Some((t, s)) => match len.checked_mul(s) {
                Some(size) => {
                    let at = ArrayType { element_ty: Box::new(t), length: Some(*len as usize) };
                    Some((Type::Array(at), size))
                },
                None => None,
            },
            None => None,
        },
    }
}

/// Whether the derive accepts a struct with the given fields: each field of
/// a supported type, and the total size within `u32`. It refuses any other.
pub fn layout_fits(fields: &Vec<(String, FieldTy)>) -> (r: bool)
    ensures
        r == (fields_total(fields@) is Some),
{
    let mut offset: u32 = 0;
    let mut i: usize = 0;
    proof {
        assert(fields@.take(0) =~= Seq::<(String, FieldTy)>::empty());
    }
    while i < fields.len()
        invariant
            i <= fields@.len(),
            fields_total(fields@.take(i as int)) == Some(offset as int),
        decreases fields@.len() - i,
    {
        proof {
            assert(fields@.take(i + 1).drop_last() =~= fields@.take(i as int));
            assert(fields@.take(i + 1).last() == fields@[i as int]);
        }
        match parse_field(&fields[i].1) {
            Some((_, s)) => match offset.checked_add(s) {
                Some(next) => {
                    offset = next;
                },
                None => {
                    proof { lemma_total_prefix_none(fields@, i as int + 1); }
                    return false;
                },
            },
            None => {
                proof { lemma_total_prefix_none(fields@, i as int + 1); }
                return false;
            },
        }
        i = i + 1;
    }
    proof {
        assert(fields@.take(fields@.len() as int) =~= fields@);
    }
    true
}

/// The struct type the derive gives a struct named `name` with the given
/// fields, which it accepts: named as the struct, with a member for each
/// field in order, named as the field, of its type, at the total size of the
/// fields before it.
pub fn struct_layout(name: &String, fields: &Vec<(String, FieldTy)>) -> (r: StructType)
    requires
        fields_total(fields@) is Some,
    ensures
        r@ == TypeView::Struct(Some(name@), fields_members(fields@)),
{
    let mut members: Vec<StructMember> = Vec::new();
    let mut offset: u32 = 0;
    let mut i: usize = 0;
    proof {
        assert(fields@.take(0) =~= Seq::<(String, FieldTy)>::empty());
    }
    while i < fields.len()
        invariant
            i <= fields@.len(),
            fields_total(fields@) is Some,
            fields_total(fields@.take(i as int)) == Some(offset as int),
            crate::types::members_view(members@) == fields_members(fields@.take(i as int)),
        decreases fields@.len() - i,
    {
        proof {
            assert(fields@.take(i + 1).drop_last() =~= fields@.take(i as int));
            assert(fields@.take(i + 1).last() == fields@[i as int]);
        }
        let parsed = parse_field(&fields[i].1);
        match parsed {
            Some((t, s)) => match offset.checked_add(s) {
                Some(next) => {
                    let m = StructMember { name: Some(fields[i].0.clone()), ty: t, offset };
                    let ghost prev = members@;
                    members.push(m);
                    proof {
                        assert(members@.drop_last() =~= prev);
                    }
                    offset = next;
                },
                None => {
                    proof {
                        assert(fields_total(fields@.take(i + 1)) is None);
                        lemma_total_prefix_none(fields@, i as int + 1);
                    }
                    return StructType { name: None, members: Vec::new() };
                },
            },
            None => {
                proof {
                    assert(fields_total(fields@.take(i + 1)) is None);
                    lemma_total_prefix_none(fields@, i as int + 1);
                }
                return StructType { name: None, members: Vec::new() };
            },
        }
        i = i + 1;
    }
    proof {
        assert(fields@.take(fields@.len() as int) =~= fields@);
    }
    StructType { name: Some(name.clone()), members }
}

/// When the fields up to `k` have no total, no longer prefix has one.
pub proof fn lemma_total_prefix_none(fs: Seq<(String, FieldTy)>, k: int)
    requires
        0 <= k <= fs.len(),
        fields_total(fs.take(k)) is None,
    ensures
        fields_total(fs) is None,
    decreases fs.len() - k,
{
    if k < fs.len() {
        assert(fs.take(k + 1).drop_last() =~= fs.take(k));
        lemma_total_prefix_none(fs, k + 1);
    } else {
        assert(fs.take(k) =~= fs);
    }
}

/// The size the derive gives a field type is the size of the shader type it
/// maps the field to.
pub proof fn law_field_size_agrees(f: FieldTy)
    ensures
        field_layout(f) matches Some((t, s)) ==> type_size(t) == Some(s),
    decreases f,
{
    match f {
        FieldTy::Named(_) => {},
        FieldTy::Array(e, len) => {
            law_field_size_agrees(*e);
        },
    }
}

/// The size the derive gives a field type is never negative.
pub proof fn lemma_field_size_nonneg(f: FieldTy)
    ensures
        field_layout(f) matches Some((_, s)) ==> s >= 0,
    decreases f,
{
    match f {
        FieldTy::Named(_) => {},
        FieldTy::Array(e, len) => {
            lemma_field_size_nonneg(*e);
            if let Some((_, s)) = field_layout(*e) {
                assert(len * s >= 0) by (nonlinear_arith)
                    requires
                        s >= 0,
                        len >= 0,
                ;
            }
        },
    }
}

/// The derive lays a struct's fields out packed, in declaration order: one
/// member per field, named as the field and of its type, the first at offset
/// zero and each next one at the offset of the one before it plus that
/// one's size; the total is where the last one ends.
pub proof fn law_members_packed(fs: Seq<(String, FieldTy)>)
    requires
        fields_total(fs) is Some,
    ensures
        fields_members(fs).len() == fs.len(),
        forall|i: int|
            0 <= i < fs.len() ==> {
                &&& (#[trigger] fields_members(fs)[i]).name == Some(fs[i].0@)
                &&& field_layout(fs[i].1) is Some
                &&& fields_members(fs)[i].ty == field_layout(fs[i].1)->Some_0.0
            },
        fs.len() > 0 ==> fields_members(fs)[0].offset == 0,
        forall|i: int|
            0 <= i < fs.len() - 1 ==> (#[trigger] fields_members(fs)[i + 1]).offset == fields_members(fs)[i].offset
                + field_layout(fs[i].1)->Some_0.1,
        fs.len() > 0 ==> fields_total(fs)->Some_0 == fields_members(fs)[fs.len() - 1].offset + field_layout(
            fs[fs.len() - 1].1,
        )->Some_0.1,
        fields_total(fs)->Some_0 >= 0,
    decreases fs.len(),
{
    if fs.len() > 0 {
        let p = fs.drop_last();
        law_members_packed(p);
        lemma_field_size_nonneg(fs.last().1);
        let ms = fields_members(fs);
        let mp = fields_members(p);
        let o = fields_total(p)->Some_0;
        assert(0 <= o <= u32::MAX);
        assert(ms == mp.push(MemberView { name: Some(fs.last().0@), ty: field_layout(fs.last().1)->Some_0.0, offset: o as u32 }));
        assert forall|i: int| 0 <= i < fs.len() implies {
            &&& (#[trigger] fields_members(fs)[i]).name == Some(fs[i].0@)
            &&& field_layout(fs[i].1) is Some
            &&& fields_members(fs)[i].ty == field_layout(fs[i].1)->Some_0.0
        } by {
            if i < p.len() {
                assert(ms[i] == mp[i]);
                assert(fs[i] == p[i]);
            }
        }
        assert forall|i: int| 0 <= i < fs.len() - 1 implies (#[trigger] fields_members(fs)[i + 1]).offset
            == fields_members(fs)[i].offset + field_layout(fs[i].1)->Some_0.1 by {
            assert(fs[i] == p[i]);
            assert(ms[i] == mp[i]);
            if i + 1 < p.len() {
                assert(ms[i + 1] == mp[i + 1]);
            } else {
                assert(i == p.len() - 1);
            }
        }
        if p.len() > 0 {
            assert(ms[0] == mp[0]);
        }
    }
}

/// The total size the derive gives a struct's fields is the size of the
/// struct type it describes, so each member sits right after the members
/// before it.
pub proof fn law_struct_size_agrees(fs: Seq<(String, FieldTy)>)
    requires
        fields_total(fs) is Some,
    ensures
        members_size(fields_members(fs)) == fields_total(fs),
    decreases fs.len(),
{
    if fs.len() > 0 {
        law_struct_size_agrees(fs.drop_last());
        law_field_size_agrees(fs.last().1);
        let ms = fields_members(fs);
        assert(ms.drop_last() =~= fields_members(fs.drop_last()));
    }
}

} // verus!
