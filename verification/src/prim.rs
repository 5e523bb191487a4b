//! The fixed set of primitive shader types, their layout tables, and the
//! data types built from them.

use vstd::prelude::*;

use crate::types::{MatrixType, MatrixVal, ScalarType, ScalarVal, Type, TypeView, Val, VectorType, VectorVal};

verus! {

/// A scalar, vector or matrix type of the shading language.
#[derive(Clone, Copy, PartialEq, Eq, Hash, Debug, Structural)]
pub enum PrimitiveType {
    Bool,
    Int,
    UInt,
    Float,
    Double,
    IVec2,
    IVec3,
    IVec4,
    UVec2,
    UVec3,
    UVec4,
    Vec2,
    Vec3,
    Vec4,
    DVec2,
    DVec3,
    DVec4,
    Mat2,
    Mat3,
    Mat4,
    DMat2,
    DMat3,
    DMat4,
}

/// The scalar type a primitive is built from (a scalar is built from itself).
pub open spec fn prim_base(p: PrimitiveType) -> PrimitiveType {
    match p {
        PrimitiveType::Bool => PrimitiveType::Bool,
        PrimitiveType::Int | PrimitiveType::IVec2 | PrimitiveType::IVec3 | PrimitiveType::IVec4 => PrimitiveType::Int,
        PrimitiveType::UInt | PrimitiveType::UVec2 | PrimitiveType::UVec3 | PrimitiveType::UVec4 => PrimitiveType::UInt,
        PrimitiveType::Float | PrimitiveType::Vec2 | PrimitiveType::Vec3 | PrimitiveType::Vec4
        | PrimitiveType::Mat2 | PrimitiveType::Mat3 | PrimitiveType::Mat4 => PrimitiveType::Float,
        PrimitiveType::Double | PrimitiveType::DVec2 | PrimitiveType::DVec3 | PrimitiveType::DVec4
        | PrimitiveType::DMat2 | PrimitiveType::DMat3 | PrimitiveType::DMat4 => PrimitiveType::Double,
    }
}

/// The dimension of a primitive: 1 for a scalar, N for an N-vector and for
/// an N by N matrix.
pub open spec fn prim_dim(p: PrimitiveType) -> int {
    match p {
        PrimitiveType::IVec2 | PrimitiveType::UVec2 | PrimitiveType::Vec2 | PrimitiveType::DVec2
        | PrimitiveType::Mat2 | PrimitiveType::DMat2 => 2,
        PrimitiveType::IVec3 | PrimitiveType::UVec3 | PrimitiveType::Vec3 | PrimitiveType::DVec3
        | PrimitiveType::Mat3 | PrimitiveType::DMat3 => 3,
        PrimitiveType::IVec4 | PrimitiveType::UVec4 | PrimitiveType::Vec4 | PrimitiveType::DVec4
        | PrimitiveType::Mat4 | PrimitiveType::DMat4 => 4,
        _ => 1,
    }
}

pub open spec fn prim_is_scalar(p: PrimitiveType) -> bool {
    p is Bool || p is Int || p is UInt || p is Float || p is Double
}

pub open spec fn prim_is_matrix(p: PrimitiveType) -> bool {
    p is Mat2 || p is Mat3 || p is Mat4 || p is DMat2 || p is DMat3 || p is DMat4
}

pub open spec fn prim_is_vector(p: PrimitiveType) -> bool {
    !prim_is_scalar(p) && !prim_is_matrix(p)
}

/// The size in bytes of one scalar of the primitive.
pub open spec fn scalar_bytes(p: PrimitiveType) -> int {
    match prim_base(p) {
        PrimitiveType::Bool => 1,
        PrimitiveType::Double => 8,
        _ => 4,
    }
}

/// The number of scalars in the primitive.
pub open spec fn prim_components(p: PrimitiveType) -> int {
    if prim_is_matrix(p) {
        prim_dim(p) * prim_dim(p)
    } else {
        prim_dim(p)
    }
}

/// The size of the primitive in bytes.
pub open spec fn prim_size(p: PrimitiveType) -> int {
    prim_components(p) * scalar_bytes(p)
}

/// The vector of `n` scalars of type `base`, for a float or double base.
pub open spec fn vector_of(base: PrimitiveType, n: int) -> PrimitiveType {
    if base is Double {
        if n == 2 { PrimitiveType::DVec2 } else if n == 3 { PrimitiveType::DVec3 } else { PrimitiveType::DVec4 }
    } else {
        if n == 2 { PrimitiveType::Vec2 } else if n == 3 { PrimitiveType::Vec3 } else { PrimitiveType::Vec4 }
    }
}

/// The scalar component of a vector or matrix; none for a scalar.
pub open spec fn prim_component(p: PrimitiveType) -> Option<PrimitiveType> {
    if prim_is_scalar(p) {
        None
    } else {
        Some(prim_base(p))
    }
}

/// The column vector type of a matrix.
pub open spec fn prim_vector_type(p: PrimitiveType) -> Option<PrimitiveType> {
    if prim_is_matrix(p) {
        Some(vector_of(prim_base(p), prim_dim(p)))
    } else {
        None
    }
}

/// The number of column vectors of a matrix.
pub open spec fn prim_vector_components(p: PrimitiveType) -> Option<int> {
    if prim_is_matrix(p) {
        Some(prim_dim(p))
    } else {
        None
    }
}

/// The number of bytes between columns of a matrix: the size of a column.
pub open spec fn prim_matrix_stride(p: PrimitiveType) -> Option<int> {
    if prim_is_matrix(p) {
        Some(prim_dim(p) * scalar_bytes(p))
    } else {
        None
    }
}

impl PrimitiveType {
    pub fn component(&self) -> (r: Option<PrimitiveType>)
        ensures
            r == prim_component(*self),
    {
        match self {
            PrimitiveType::Bool => None,
            PrimitiveType::Int => None,
            PrimitiveType::UInt => None,
            PrimitiveType::Float => None,
            PrimitiveType::Double => None,
            PrimitiveType::IVec2 => Some(PrimitiveType::Int),
            PrimitiveType::IVec3 => Some(PrimitiveType::Int),
            PrimitiveType::IVec4 => Some(PrimitiveType::Int),
            PrimitiveType::UVec2 => Some(PrimitiveType::UInt),
            PrimitiveType::UVec3 => Some(PrimitiveType::UInt),
            PrimitiveType::UVec4 => Some(PrimitiveType::UInt),
            PrimitiveType::Vec2 => Some(PrimitiveType::Float),
            PrimitiveType::Vec3 => Some(PrimitiveType::Float),
            PrimitiveType::Vec4 => Some(PrimitiveType::Float),
            PrimitiveType::DVec2 => Some(PrimitiveType::Double),
            PrimitiveType::DVec3 => Some(PrimitiveType::Double),
            PrimitiveType::DVec4 => Some(PrimitiveType::Double),
            PrimitiveType::Mat2 => Some(PrimitiveType::Float),
            PrimitiveType::Mat3 => Some(PrimitiveType::Float),
            PrimitiveType::Mat4 => Some(PrimitiveType::Float),
            PrimitiveType::DMat2 => Some(PrimitiveType::Double),
            PrimitiveType::DMat3 => Some(PrimitiveType::Double),
            PrimitiveType::DMat4 => Some(PrimitiveType::Double),
        }
    }

    pub fn components(&self) -> (r: u32)
        ensures
            r == prim_components(*self),
    {
        match self {
            PrimitiveType::Bool => 1,
            PrimitiveType::Int => 1,
            PrimitiveType::UInt => 1,
            PrimitiveType::Float => 1,
            PrimitiveType::Double => 1,
            PrimitiveType::IVec2 => 2,
            PrimitiveType::IVec3 => 3,
            PrimitiveType::IVec4 => 4,
            PrimitiveType::UVec2 => 2,
            PrimitiveType::UVec3 => 3,
            PrimitiveType::UVec4 => 4,
            PrimitiveType::Vec2 => 2,
            PrimitiveType::Vec3 => 3,
            PrimitiveType::Vec4 => 4,
            PrimitiveType::DVec2 => 2,
            PrimitiveType::DVec3 => 3,
            PrimitiveType::DVec4 => 4,
            PrimitiveType::Mat2 => 4,
            PrimitiveType::Mat3 => 9,
            PrimitiveType::Mat4 => 16,
            PrimitiveType::DMat2 => 4,
            PrimitiveType::DMat3 => 9,
            PrimitiveType::DMat4 => 16,
        }
    }

    pub fn vector_components(&self) -> (r: Option<u32>)
        ensures
            r matches Some(n) ==> prim_vector_components(*self) == Some(n as int),
            r is None ==> prim_vector_components(*self) is None,
    {
        match self {
            PrimitiveType::Bool => None,
            PrimitiveType::Int => None,
            PrimitiveType::UInt => None,
            PrimitiveType::Float => None,
            PrimitiveType::Double => None,
            PrimitiveType::IVec2 => None,
            PrimitiveType::IVec3 => None,
            PrimitiveType::IVec4 => None,
            PrimitiveType::UVec2 => None,
            PrimitiveType::UVec3 => None,
            PrimitiveType::UVec4 => None,
            PrimitiveType::Vec2 => None,
            PrimitiveType::Vec3 => None,
            PrimitiveType::Vec4 => None,
            PrimitiveType::DVec2 => None,
            PrimitiveType::DVec3 => None,
            PrimitiveType::DVec4 => None,
            PrimitiveType::Mat2 => Some(2),
            PrimitiveType::Mat3 => Some(3),
            PrimitiveType::Mat4 => Some(4),
            PrimitiveType::DMat2 => Some(2),
            PrimitiveType::DMat3 => Some(3),
            PrimitiveType::DMat4 => Some(4),
        }
    }

    pub fn vector_type(&self) -> (r: Option<PrimitiveType>)
        ensures
            r == prim_vector_type(*self),
    {
        match self {
            PrimitiveType::Bool => None,
            PrimitiveType::Int => None,
            PrimitiveType::UInt => None,
            PrimitiveType::Float => None,
            PrimitiveType::Double => None,
            PrimitiveType::IVec2 => None,
            PrimitiveType::IVec3 => None,
            PrimitiveType::IVec4 => None,
            PrimitiveType::UVec2 => None,
            PrimitiveType::UVec3 => None,
            PrimitiveType::UVec4 => None,
            PrimitiveType::Vec2 => None,
            PrimitiveType::Vec3 => None,
            PrimitiveType::Vec4 => None,
            PrimitiveType::DVec2 => None,
            PrimitiveType::DVec3 => None,
            PrimitiveType::DVec4 => None,
            PrimitiveType::Mat2 => Some(PrimitiveType::Vec2),
            PrimitiveType::Mat3 => Some(PrimitiveType::Vec3),
            PrimitiveType::Mat4 => Some(PrimitiveType::Vec4),
            PrimitiveType::DMat2 => Some(PrimitiveType::DVec2),
            PrimitiveType::DMat3 => Some(PrimitiveType::DVec3),
            PrimitiveType::DMat4 => Some(PrimitiveType::DVec4),
        }
    }

    /// Returns the number of bytes between the columns of a matrix.
    pub fn matrix_stride(&self) -> (r: Option<u32>)
        ensures
            r matches Some(n) ==> prim_matrix_stride(*self) == Some(n as int),
            r is None ==> prim_matrix_stride(*self) is None,
    {
        match self {
            PrimitiveType::Bool => None,
            PrimitiveType::Int => None,
            PrimitiveType::UInt => None,
            PrimitiveType::Float => None,
            PrimitiveType::Double => None,
            PrimitiveType::IVec2 => None,
            PrimitiveType::IVec3 => None,
            PrimitiveType::IVec4 => None,
            PrimitiveType::UVec2 => None,
            PrimitiveType::UVec3 => None,
            PrimitiveType::UVec4 => None,
            PrimitiveType::Vec2 => None,
            PrimitiveType::Vec3 => None,
            PrimitiveType::Vec4 => None,
            PrimitiveType::DVec2 => None,
            PrimitiveType::DVec3 => None,
            PrimitiveType::DVec4 => None,
            PrimitiveType::Mat2 => Some(2 * 4),
            PrimitiveType::Mat3 => Some(3 * 4),
            PrimitiveType::Mat4 => Some(4 * 4),
            PrimitiveType::DMat2 => Some(2 * 8),
            PrimitiveType::DMat3 => Some(3 * 8),
            PrimitiveType::DMat4 => Some(4 * 8),
        }
    }

    /// Returns the size of the primitive in bytes.
    pub fn size(&self) -> (r: u32)
        ensures
            r == prim_size(*self),
    {
        match self {
            PrimitiveType::Bool => 1,
            PrimitiveType::Int => 4,
            PrimitiveType::UInt => 4,
            PrimitiveType::Float => 4,
            PrimitiveType::Double => 8,
            PrimitiveType::IVec2 => 2 * 4,
            PrimitiveType::IVec3 => 3 * 4,
            PrimitiveType::IVec4 => 4 * 4,
            PrimitiveType::UVec2 => 2 * 4,
            PrimitiveType::UVec3 => 3 * 4,
            PrimitiveType::UVec4 => 4 * 4,
            PrimitiveType::Vec2 => 2 * 4,
            PrimitiveType::Vec3 => 3 * 4,
            PrimitiveType::Vec4 => 4 * 4,
            PrimitiveType::DVec2 => 2 * 8,
            PrimitiveType::DVec3 => 3 * 8,
            PrimitiveType::DVec4 => 4 * 8,
            PrimitiveType::Mat2 => 4 * 4,
            PrimitiveType::Mat3 => 9 * 4,
            PrimitiveType::Mat4 => 16 * 4,
            PrimitiveType::DMat2 => 4 * 8,
            PrimitiveType::DMat3 => 9 * 8,
            PrimitiveType::DMat4 => 16 * 8,
        }
    }

    pub fn is_matrix(&self) -> (r: bool)
        ensures
            r == prim_is_matrix(*self),
    {
        match self {
            Self::Mat2 | Self::Mat3 | Self::Mat4 | Self::DMat2 | Self::DMat3 | Self::DMat4 => true,
            _ => false,
        }
    }

    pub fn is_vector(&self) -> (r: bool)
        ensures
            r == prim_is_vector(*self),
    {
        match self {
            Self::IVec2
            | Self::IVec3
            | Self::IVec4
            | Self::UVec2
            | Self::UVec3
            | Self::UVec4
            | Self::Vec2
            | Self::Vec3
            | Self::Vec4
            | Self::DVec2
            | Self::DVec3
            | Self::DVec4 => true,
            _ => false,
        }
    }

    pub fn is_scalar(&self) -> (r: bool)
        ensures
            r == prim_is_scalar(*self),
    {
        match self {
            Self::Bool | Self::Int | Self::UInt | Self::Float | Self::Double => true,
            _ => false,
        }
    }

    pub fn is_int(&self) -> (r: bool)
        ensures
            r == (prim_base(*self) is Int),
    {
        match self {
            Self::Int | Self::IVec2 | Self::IVec3 | Self::IVec4 => true,
            _ => false,
        }
    }

    pub fn is_uint(&self) -> (r: bool)
        ensures
            r == (prim_base(*self) is UInt),
    {
        match self {
            Self::UInt | Self::UVec2 | Self::UVec3 | Self::UVec4 => true,
            _ => false,
        }
    }

    pub fn is_float(&self) -> (r: bool)
        ensures
            r == (prim_base(*self) is Float),
    {
        match self {
            Self::Float | Self::Vec2 | Self::Vec3 | Self::Vec4 | Self::Mat2 | Self::Mat3
            | Self::Mat4 => true,
            _ => false,
        }
    }

    pub fn is_double(&self) -> (r: bool)
        ensures
            r == (prim_base(*self) is Double),
    {
        match self {
            Self::Double | Self::DVec2 | Self::DVec3 | Self::DVec4 | Self::DMat2 | Self::DMat3
            | Self::DMat4 => true,
            _ => false,
        }
    }
}

/// Every primitive is exactly one of a scalar, a vector or a matrix.
pub proof fn law_prim_shape_partition(p: PrimitiveType)
    ensures
        prim_is_scalar(p) || prim_is_vector(p) || prim_is_matrix(p),
        !(prim_is_scalar(p) && prim_is_vector(p)),
        !(prim_is_scalar(p) && prim_is_matrix(p)),
        !(prim_is_vector(p) && prim_is_matrix(p)),
{
}

/// Every primitive other than a boolean has exactly one of the signed,
/// unsigned, float and double bases; a boolean has none of them.
pub proof fn law_prim_base_partition(p: PrimitiveType)
    ensures
        p is Bool <==> prim_base(p) is Bool,
        p is Bool || prim_base(p) is Int || prim_base(p) is UInt || prim_base(p) is Float
            || prim_base(p) is Double,
{
}

/// The size of a primitive is its number of components times the size of
/// its component (of itself, for a scalar).
pub proof fn law_prim_size_by_component(p: PrimitiveType)
    ensures
        prim_component(p) matches Some(c) ==> prim_size(p) == prim_components(p) * prim_size(c),
        prim_component(p) is None ==> prim_components(p) == 1 && prim_is_scalar(p),
{
}

/// A matrix is its number of columns times its column vector, laid out one
/// column every stride bytes.
pub proof fn law_matrix_columns(p: PrimitiveType)
    requires
        prim_is_matrix(p),
    ensures
        prim_vector_type(p) matches Some(v) && prim_vector_components(p) matches Some(n) && {
            &&& prim_is_vector(v)
            &&& prim_base(v) == prim_base(p)
            &&& n * prim_components(v) == prim_components(p)
            &&& prim_matrix_stride(p) == Some(prim_size(v))
            &&& n * prim_size(v) == prim_size(p)
        },
{
}

/// A constant of a primitive type. Floating point values are held by their
/// IEEE 754 bit patterns; matrices are given column by column.
#[derive(Clone, Copy, PartialEq, Eq, Debug)]
pub enum PrimitiveVal {
    Bool(bool),
    Int(i32),
    UInt(u32),
    Float(u32),
    Double(u64),
    IVec2([i32; 2]),
    IVec3([i32; 3]),
    IVec4([i32; 4]),
    UVec2([u32; 2]),
    UVec3([u32; 3]),
    UVec4([u32; 4]),
    Vec2([u32; 2]),
    Vec3([u32; 3]),
    Vec4([u32; 4]),
    DVec2([u64; 2]),
    DVec3([u64; 3]),
    DVec4([u64; 4]),
    Mat2([[u32; 2]; 2]),
    Mat3([[u32; 3]; 3]),
    Mat4([[u32; 4]; 4]),
    DMat2([[u64; 2]; 2]),
    DMat3([[u64; 3]; 3]),
    DMat4([[u64; 4]; 4]),
}

/// The primitive type the conversion from a constant gives. For 2 and 3
/// component vectors and matrices this is the type of the other size, and a
/// 2-component signed vector gives a 4-component one.
pub open spec fn prim_val_ty(v: PrimitiveVal) -> PrimitiveType {
    match v {
        PrimitiveVal::Bool(_) => PrimitiveType::Bool,
        PrimitiveVal::Int(_) => PrimitiveType::Int,
        PrimitiveVal::UInt(_) => PrimitiveType::UInt,
        PrimitiveVal::Float(_) => PrimitiveType::Float,
        PrimitiveVal::Double(_) => PrimitiveType::Double,
        PrimitiveVal::IVec2(_) => PrimitiveType::IVec4,
        PrimitiveVal::IVec3(_) => PrimitiveType::IVec2,
        PrimitiveVal::IVec4(_) => PrimitiveType::IVec3,
        PrimitiveVal::UVec2(_) => PrimitiveType::UVec3,
        PrimitiveVal::UVec3(_) => PrimitiveType::UVec2,
        PrimitiveVal::UVec4(_) => PrimitiveType::UVec4,
        PrimitiveVal::Vec2(_) => PrimitiveType::Vec3,
        PrimitiveVal::Vec3(_) => PrimitiveType::Vec2,
        PrimitiveVal::Vec4(_) => PrimitiveType::Vec4,
        PrimitiveVal::DVec2(_) => PrimitiveType::DVec3,
        PrimitiveVal::DVec3(_) => PrimitiveType::DVec2,
        PrimitiveVal::DVec4(_) => PrimitiveType::DVec4,
        PrimitiveVal::Mat2(_) => PrimitiveType::Mat3,
        PrimitiveVal::Mat3(_) => PrimitiveType::Mat2,
        PrimitiveVal::Mat4(_) => PrimitiveType::Mat4,
        PrimitiveVal::DMat2(_) => PrimitiveType::DMat3,
        PrimitiveVal::DMat3(_) => PrimitiveType::DMat2,
        PrimitiveVal::DMat4(_) => PrimitiveType::DMat4,
    }
}

impl PrimitiveType {
    /// The primitive type of a constant, as the conversion from a constant
    /// reference gives it.
    pub fn from_val(v: &PrimitiveVal) -> (r: PrimitiveType)
        ensures
            r == prim_val_ty(*v),
    {
        match v {
            PrimitiveVal::Bool(_) => PrimitiveType::Bool,
            PrimitiveVal::Int(_) => PrimitiveType::Int,
            PrimitiveVal::UInt(_) => PrimitiveType::UInt,
            PrimitiveVal::Float(_) => PrimitiveType::Float,
            PrimitiveVal::Double(_) => PrimitiveType::Double,
            PrimitiveVal::IVec2(_) => PrimitiveType::IVec4,
            PrimitiveVal::IVec3(_) => PrimitiveType::IVec2,
            PrimitiveVal::IVec4(_) => PrimitiveType::IVec3,
            PrimitiveVal::UVec2(_) => PrimitiveType::UVec3,
            PrimitiveVal::UVec3(_) => PrimitiveType::UVec2,
            PrimitiveVal::UVec4(_) => PrimitiveType::UVec4,
            PrimitiveVal::Vec2(_) => PrimitiveType::Vec3,
            PrimitiveVal::Vec3(_) => PrimitiveType::Vec2,
            PrimitiveVal::Vec4(_) => PrimitiveType::Vec4,
            PrimitiveVal::DVec2(_) => PrimitiveType::DVec3,
            PrimitiveVal::DVec3(_) => PrimitiveType::DVec2,
            PrimitiveVal::DVec4(_) => PrimitiveType::DVec4,
            PrimitiveVal::Mat2(_) => PrimitiveType::Mat3,
            PrimitiveVal::Mat3(_) => PrimitiveType::Mat2,
            PrimitiveVal::Mat4(_) => PrimitiveType::Mat4,
            PrimitiveVal::DMat2(_) => PrimitiveType::DMat3,
            PrimitiveVal::DMat3(_) => PrimitiveType::DMat2,
            PrimitiveVal::DMat4(_) => PrimitiveType::DMat4,
        }
    }
}

impl From<PrimitiveVal> for PrimitiveType {
    fn from(v: PrimitiveVal) -> (r: Self) {
        PrimitiveType::from_val(&v)
    }
}

impl vstd::std_specs::convert::FromSpecImpl<PrimitiveVal> for PrimitiveType {
    open spec fn obeys_from_spec() -> bool {
        true
    }

    open spec fn from_spec(v: PrimitiveVal) -> PrimitiveType {
        prim_val_ty(v)
    }
}

/// The shader type of a primitive: a boolean, a 32-bit signed, unsigned or
/// float scalar or a 64-bit float, or a vector or square matrix of them.
pub open spec fn prim_type_view(p: PrimitiveType) -> TypeView {
    let s = match prim_base(p) {
        PrimitiveType::Bool => ScalarType::Bool,
        PrimitiveType::Int => ScalarType::Signed(32),
        PrimitiveType::UInt => ScalarType::Unsigned(32),
        PrimitiveType::Double => ScalarType::Float(64),
        _ => ScalarType::Float(32),
    };
    if prim_is_scalar(p) {
        TypeView::Scalar(s)
    } else if prim_is_matrix(p) {
        TypeView::Matrix(MatrixType { vec_ty: VectorType { scalar_ty: s, n_scalar: prim_dim(p) as u32 }, n_vec: prim_dim(p) as u32 })
    } else {
        TypeView::Vector(VectorType { scalar_ty: s, n_scalar: prim_dim(p) as u32 })
    }
}

impl PrimitiveType {
    /// The shader type of this primitive.
    pub fn to_type(&self) -> (r: Type)
        ensures
            r@ == prim_type_view(*self),
    {
        let b = ScalarType::Bool;
        let i = ScalarType::Signed(32);
        let u = ScalarType::Unsigned(32);
        let f = ScalarType::Float(32);
        let d = ScalarType::Float(64);
        match self {
            PrimitiveType::Bool => Type::Scalar(b),
            PrimitiveType::Int => Type::Scalar(i),
            PrimitiveType::UInt => Type::Scalar(u),
            PrimitiveType::Float => Type::Scalar(f),
            PrimitiveType::Double => Type::Scalar(d),
            PrimitiveType::IVec2 => Type::Vector(VectorType { scalar_ty: i, n_scalar: 2 }),
            PrimitiveType::IVec3 => Type::Vector(VectorType { scalar_ty: i, n_scalar: 3 }),
            PrimitiveType::IVec4 => Type::Vector(VectorType { scalar_ty: i, n_scalar: 4 }),
            PrimitiveType::UVec2 => Type::Vector(VectorType { scalar_ty: u, n_scalar: 2 }),
            PrimitiveType::UVec3 => Type::Vector(VectorType { scalar_ty: u, n_scalar: 3 }),
            PrimitiveType::UVec4 => Type::Vector(VectorType { scalar_ty: u, n_scalar: 4 }),
            PrimitiveType::Vec2 => Type::Vector(VectorType { scalar_ty: f, n_scalar: 2 }),
            PrimitiveType::Vec3 => Type::Vector(VectorType { scalar_ty: f, n_scalar: 3 }),
            PrimitiveType::Vec4 => Type::Vector(VectorType { scalar_ty: f, n_scalar: 4 }),
            PrimitiveType::DVec2 => Type::Vector(VectorType { scalar_ty: d, n_scalar: 2 }),
            PrimitiveType::DVec3 => Type::Vector(VectorType { scalar_ty: d, n_scalar: 3 }),
            PrimitiveType::DVec4 => Type::Vector(VectorType { scalar_ty: d, n_scalar: 4 }),
            PrimitiveType::Mat2 => Type::Matrix(MatrixType { vec_ty: VectorType { scalar_ty: f, n_scalar: 2 }, n_vec: 2 }),
            PrimitiveType::Mat3 => Type::Matrix(MatrixType { vec_ty: VectorType { scalar_ty: f, n_scalar: 3 }, n_vec: 3 }),
            PrimitiveType::Mat4 => Type::Matrix(MatrixType { vec_ty: VectorType { scalar_ty: f, n_scalar: 4 }, n_vec: 4 }),
            PrimitiveType::DMat2 => Type::Matrix(MatrixType { vec_ty: VectorType { scalar_ty: d, n_scalar: 2 }, n_vec: 2 }),
            PrimitiveType::DMat3 => Type::Matrix(MatrixType { vec_ty: VectorType { scalar_ty: d, n_scalar: 3 }, n_vec: 3 }),
            PrimitiveType::DMat4 => Type::Matrix(MatrixType { vec_ty: VectorType { scalar_ty: d, n_scalar: 4 }, n_vec: 4 }),
        }
    }
}

/// How deep a constant's parts nest: scalars 0, vectors 1, matrices 2.
pub open spec fn prim_val_rank(v: PrimitiveVal) -> nat {
    match v {
        PrimitiveVal::Bool(_) | PrimitiveVal::Int(_) | PrimitiveVal::UInt(_) | PrimitiveVal::Float(_)
        | PrimitiveVal::Double(_) => 0,
        PrimitiveVal::Mat2(_) | PrimitiveVal::Mat3(_) | PrimitiveVal::Mat4(_) | PrimitiveVal::DMat2(_)
        | PrimitiveVal::DMat3(_) | PrimitiveVal::DMat4(_) => 2,
        _ => 1,
    }
}

/// The parts a constant is built from: none for a scalar, the components of
/// a vector in order, the columns of a matrix in order.
pub open spec fn prim_val_parts(v: PrimitiveVal) -> Seq<PrimitiveVal> {
    match v {
        PrimitiveVal::IVec2(a) => seq![PrimitiveVal::Int(a[0]), PrimitiveVal::Int(a[1])],
        PrimitiveVal::IVec3(a) => seq![PrimitiveVal::Int(a[0]), PrimitiveVal::Int(a[1]), PrimitiveVal::Int(a[2])],
        PrimitiveVal::IVec4(a) => seq![PrimitiveVal::Int(a[0]), PrimitiveVal::Int(a[1]), PrimitiveVal::Int(a[2]), PrimitiveVal::Int(a[3])],
        PrimitiveVal::UVec2(a) => seq![PrimitiveVal::UInt(a[0]), PrimitiveVal::UInt(a[1])],
        PrimitiveVal::UVec3(a) => seq![PrimitiveVal::UInt(a[0]), PrimitiveVal::UInt(a[1]), PrimitiveVal::UInt(a[2])],
        PrimitiveVal::UVec4(a) => seq![PrimitiveVal::UInt(a[0]), PrimitiveVal::UInt(a[1]), PrimitiveVal::UInt(a[2]), PrimitiveVal::UInt(a[3])],
        PrimitiveVal::Vec2(a) => seq![PrimitiveVal::Float(a[0]), PrimitiveVal::Float(a[1])],
        PrimitiveVal::Vec3(a) => seq![PrimitiveVal::Float(a[0]), PrimitiveVal::Float(a[1]), PrimitiveVal::Float(a[2])],
        PrimitiveVal::Vec4(a) => seq![PrimitiveVal::Float(a[0]), PrimitiveVal::Float(a[1]), PrimitiveVal::Float(a[2]), PrimitiveVal::Float(a[3])],
        PrimitiveVal::DVec2(a) => seq![PrimitiveVal::Double(a[0]), PrimitiveVal::Double(a[1])],
        PrimitiveVal::DVec3(a) => seq![PrimitiveVal::Double(a[0]), PrimitiveVal::Double(a[1]), PrimitiveVal::Double(a[2])],
        PrimitiveVal::DVec4(a) => seq![PrimitiveVal::Double(a[0]), PrimitiveVal::Double(a[1]), PrimitiveVal::Double(a[2]), PrimitiveVal::Double(a[3])],
        PrimitiveVal::Mat2(m) => seq![PrimitiveVal::Vec2(m[0]), PrimitiveVal::Vec2(m[1])],
        PrimitiveVal::Mat3(m) => seq![PrimitiveVal::Vec3(m[0]), PrimitiveVal::Vec3(m[1]), PrimitiveVal::Vec3(m[2])],
        PrimitiveVal::Mat4(m) => seq![PrimitiveVal::Vec4(m[0]), PrimitiveVal::Vec4(m[1]), PrimitiveVal::Vec4(m[2]), PrimitiveVal::Vec4(m[3])],
        PrimitiveVal::DMat2(m) => seq![PrimitiveVal::DVec2(m[0]), PrimitiveVal::DVec2(m[1])],
        PrimitiveVal::DMat3(m) => seq![PrimitiveVal::DVec3(m[0]), PrimitiveVal::DVec3(m[1]), PrimitiveVal::DVec3(m[2])],
        PrimitiveVal::DMat4(m) => seq![PrimitiveVal::DVec4(m[0]), PrimitiveVal::DVec4(m[1]), PrimitiveVal::DVec4(m[2]), PrimitiveVal::DVec4(m[3])],
        _ => Seq::empty(),
    }
}

/// The parts of a constant nest less deeply than it.
pub proof fn lemma_parts_rank(v: PrimitiveVal)
    ensures
        prim_val_rank(v) == 0 <==> prim_val_parts(v).len() == 0,
        forall|i: int| 0 <= i < prim_val_parts(v).len() ==> prim_val_rank(#[trigger] prim_val_parts(v)[i]) < prim_val_rank(v),
{
}

impl PrimitiveVal {
    /// The parts this constant is built from.
    pub fn parts(&self) -> (r: Vec<PrimitiveVal>)
        ensures
            r@ == prim_val_parts(*self),
    {
        let r = match *self {
            PrimitiveVal::IVec2(a) => vec![PrimitiveVal::Int(a[0]), PrimitiveVal::Int(a[1])],
            PrimitiveVal::IVec3(a) => vec![PrimitiveVal::Int(a[0]), PrimitiveVal::Int(a[1]), PrimitiveVal::Int(a[2])],
            PrimitiveVal::IVec4(a) => vec![PrimitiveVal::Int(a[0]), PrimitiveVal::Int(a[1]), PrimitiveVal::Int(a[2]), PrimitiveVal::Int(a[3])],
            PrimitiveVal::UVec2(a) => vec![PrimitiveVal::UInt(a[0]), PrimitiveVal::UInt(a[1])],
            PrimitiveVal::UVec3(a) => vec![PrimitiveVal::UInt(a[0]), PrimitiveVal::UInt(a[1]), PrimitiveVal::UInt(a[2])],
            PrimitiveVal::UVec4(a) => vec![PrimitiveVal::UInt(a[0]), PrimitiveVal::UInt(a[1]), PrimitiveVal::UInt(a[2]), PrimitiveVal::UInt(a[3])],
            PrimitiveVal::Vec2(a) => vec![PrimitiveVal::Float(a[0]), PrimitiveVal::Float(a[1])],
            PrimitiveVal::Vec3(a) => vec![PrimitiveVal::Float(a[0]), PrimitiveVal::Float(a[1]), PrimitiveVal::Float(a[2])],
            PrimitiveVal::Vec4(a) => vec![PrimitiveVal::Float(a[0]), PrimitiveVal::Float(a[1]), PrimitiveVal::Float(a[2]), PrimitiveVal::Float(a[3])],
            PrimitiveVal::DVec2(a) => vec![PrimitiveVal::Double(a[0]), PrimitiveVal::Double(a[1])],
            PrimitiveVal::DVec3(a) => vec![PrimitiveVal::Double(a[0]), PrimitiveVal::Double(a[1]), PrimitiveVal::Double(a[2])],
            PrimitiveVal::DVec4(a) => vec![PrimitiveVal::Double(a[0]), PrimitiveVal::Double(a[1]), PrimitiveVal::Double(a[2]), PrimitiveVal::Double(a[3])],
            PrimitiveVal::Mat2(m) => vec![PrimitiveVal::Vec2(m[0]), PrimitiveVal::Vec2(m[1])],
            PrimitiveVal::Mat3(m) => vec![PrimitiveVal::Vec3(m[0]), PrimitiveVal::Vec3(m[1]), PrimitiveVal::Vec3(m[2])],
            PrimitiveVal::Mat4(m) => vec![PrimitiveVal::Vec4(m[0]), PrimitiveVal::Vec4(m[1]), PrimitiveVal::Vec4(m[2]), PrimitiveVal::Vec4(m[3])],
            PrimitiveVal::DMat2(m) => vec![PrimitiveVal::DVec2(m[0]), PrimitiveVal::DVec2(m[1])],
            PrimitiveVal::DMat3(m) => vec![PrimitiveVal::DVec3(m[0]), PrimitiveVal::DVec3(m[1]), PrimitiveVal::DVec3(m[2])],
            PrimitiveVal::DMat4(m) => vec![PrimitiveVal::DVec4(m[0]), PrimitiveVal::DVec4(m[1]), PrimitiveVal::DVec4(m[2]), PrimitiveVal::DVec4(m[3])],
            _ => Vec::new(),
        };
        proof {
            assert(r@ =~= prim_val_parts(*self));
        }
        r
    }
}

/// The type a primitive constant is written in: the type of the same name.
pub open spec fn prim_val_own_ty(v: PrimitiveVal) -> PrimitiveType {
    match v {
        PrimitiveVal::Bool(_) => PrimitiveType::Bool,
        PrimitiveVal::Int(_) => PrimitiveType::Int,
        PrimitiveVal::UInt(_) => PrimitiveType::UInt,
        PrimitiveVal::Float(_) => PrimitiveType::Float,
        PrimitiveVal::Double(_) => PrimitiveType::Double,
        PrimitiveVal::IVec2(_) => PrimitiveType::IVec2,
        PrimitiveVal::IVec3(_) => PrimitiveType::IVec3,
        PrimitiveVal::IVec4(_) => PrimitiveType::IVec4,
        PrimitiveVal::UVec2(_) => PrimitiveType::UVec2,
        PrimitiveVal::UVec3(_) => PrimitiveType::UVec3,
        PrimitiveVal::UVec4(_) => PrimitiveType::UVec4,
        PrimitiveVal::Vec2(_) => PrimitiveType::Vec2,
        PrimitiveVal::Vec3(_) => PrimitiveType::Vec3,
        PrimitiveVal::Vec4(_) => PrimitiveType::Vec4,
        PrimitiveVal::DVec2(_) => PrimitiveType::DVec2,
        PrimitiveVal::DVec3(_) => PrimitiveType::DVec3,
        PrimitiveVal::DVec4(_) => PrimitiveType::DVec4,
        PrimitiveVal::Mat2(_) => PrimitiveType::Mat2,
        PrimitiveVal::Mat3(_) => PrimitiveType::Mat3,
        PrimitiveVal::Mat4(_) => PrimitiveType::Mat4,
        PrimitiveVal::DMat2(_) => PrimitiveType::DMat2,
        PrimitiveVal::DMat3(_) => PrimitiveType::DMat3,
        PrimitiveVal::DMat4(_) => PrimitiveType::DMat4,
    }
}

/// The shader constant of a primitive constant: the same value as a scalar,
/// vector or matrix constant.
pub open spec fn prim_val_shader(v: PrimitiveVal) -> Val {
    match v {
        PrimitiveVal::Bool(x) => Val::Scalar(ScalarVal::Bool(x)),
        PrimitiveVal::Int(x) => Val::Scalar(ScalarVal::Int(x)),
        PrimitiveVal::UInt(x) => Val::Scalar(ScalarVal::UInt(x)),
        PrimitiveVal::Float(x) => Val::Scalar(ScalarVal::Float(x)),
        PrimitiveVal::Double(x) => Val::Scalar(ScalarVal::Double(x)),
        PrimitiveVal::IVec2(x) => Val::Vector(VectorVal::IVec2(x)),
        PrimitiveVal::IVec3(x) => Val::Vector(VectorVal::IVec3(x)),
        PrimitiveVal::IVec4(x) => Val::Vector(VectorVal::IVec4(x)),
        PrimitiveVal::UVec2(x) => Val::Vector(VectorVal::UVec2(x)),
        PrimitiveVal::UVec3(x) => Val::Vector(VectorVal::UVec3(x)),
        PrimitiveVal::UVec4(x) => Val::Vector(VectorVal::UVec4(x)),
        PrimitiveVal::Vec2(x) => Val::Vector(VectorVal::Vec2(x)),
        PrimitiveVal::Vec3(x) => Val::Vector(VectorVal::Vec3(x)),
        PrimitiveVal::Vec4(x) => Val::Vector(VectorVal::Vec4(x)),
        PrimitiveVal::DVec2(x) => Val::Vector(VectorVal::DVec2(x)),
        PrimitiveVal::DVec3(x) => Val::Vector(VectorVal::DVec3(x)),
        PrimitiveVal::DVec4(x) => Val::Vector(VectorVal::DVec4(x)),
        PrimitiveVal::Mat2(x) => Val::Matrix(MatrixVal::Mat2(x)),
        PrimitiveVal::Mat3(x) => Val::Matrix(MatrixVal::Mat3(x)),
        PrimitiveVal::Mat4(x) => Val::Matrix(MatrixVal::Mat4(x)),
        PrimitiveVal::DMat2(x) => Val::Matrix(MatrixVal::DMat2(x)),
        PrimitiveVal::DMat3(x) => Val::Matrix(MatrixVal::DMat3(x)),
        PrimitiveVal::DMat4(x) => Val::Matrix(MatrixVal::DMat4(x)),
    }
}

impl PrimitiveVal {
    /// The shader constant of the constant, with the constant's own type.
    pub fn to_shader_val(&self) -> (r: (Val, PrimitiveType))
        ensures
            r.0 == prim_val_shader(*self),
            r.1 == prim_val_own_ty(*self),
    {
        let v = match self {
            PrimitiveVal::Bool(x) => Val::Scalar(ScalarVal::Bool(*x)),
            PrimitiveVal::Int(x) => Val::Scalar(ScalarVal::Int(*x)),
            PrimitiveVal::UInt(x) => Val::Scalar(ScalarVal::UInt(*x)),
            PrimitiveVal::Float(x) => Val::Scalar(ScalarVal::Float(*x)),
            PrimitiveVal::Double(x) => Val::Scalar(ScalarVal::Double(*x)),
            PrimitiveVal::IVec2(x) => Val::Vector(VectorVal::IVec2(*x)),
            PrimitiveVal::IVec3(x) => Val::Vector(VectorVal::IVec3(*x)),
            PrimitiveVal::IVec4(x) => Val::Vector(VectorVal::IVec4(*x)),
            PrimitiveVal::UVec2(x) => Val::Vector(VectorVal::UVec2(*x)),
            PrimitiveVal::UVec3(x) => Val::Vector(VectorVal::UVec3(*x)),
            PrimitiveVal::UVec4(x) => Val::Vector(VectorVal::UVec4(*x)),
            PrimitiveVal::Vec2(x) => Val::Vector(VectorVal::Vec2(*x)),
            PrimitiveVal::Vec3(x) => Val::Vector(VectorVal::Vec3(*x)),
            PrimitiveVal::Vec4(x) => Val::Vector(VectorVal::Vec4(*x)),
            PrimitiveVal::DVec2(x) => Val::Vector(VectorVal::DVec2(*x)),
            PrimitiveVal::DVec3(x) => Val::Vector(VectorVal::DVec3(*x)),
            PrimitiveVal::DVec4(x) => Val::Vector(VectorVal::DVec4(*x)),
            PrimitiveVal::Mat2(x) => Val::Matrix(MatrixVal::Mat2(*x)),
            PrimitiveVal::Mat3(x) => Val::Matrix(MatrixVal::Mat3(*x)),
            PrimitiveVal::Mat4(x) => Val::Matrix(MatrixVal::Mat4(*x)),
            PrimitiveVal::DMat2(x) => Val::Matrix(MatrixVal::DMat2(*x)),
            PrimitiveVal::DMat3(x) => Val::Matrix(MatrixVal::DMat3(*x)),
            PrimitiveVal::DMat4(x) => Val::Matrix(MatrixVal::DMat4(*x)),
        };
        let t = match self {
            PrimitiveVal::Bool(_) => PrimitiveType::Bool,
            PrimitiveVal::Int(_) => PrimitiveType::Int,
            PrimitiveVal::UInt(_) => PrimitiveType::UInt,
            PrimitiveVal::Float(_) => PrimitiveType::Float,
            PrimitiveVal::Double(_) => PrimitiveType::Double,
            PrimitiveVal::IVec2(_) => PrimitiveType::IVec2,
            PrimitiveVal::IVec3(_) => PrimitiveType::IVec3,
            PrimitiveVal::IVec4(_) => PrimitiveType::IVec4,
            PrimitiveVal::UVec2(_) => PrimitiveType::UVec2,
            PrimitiveVal::UVec3(_) => PrimitiveType::UVec3,
            PrimitiveVal::UVec4(_) => PrimitiveType::UVec4,
            PrimitiveVal::Vec2(_) => PrimitiveType::Vec2,
            PrimitiveVal::Vec3(_) => PrimitiveType::Vec3,
            PrimitiveVal::Vec4(_) => PrimitiveType::Vec4,
            PrimitiveVal::DVec2(_) => PrimitiveType::DVec2,
            PrimitiveVal::DVec3(_) => PrimitiveType::DVec3,
            PrimitiveVal::DVec4(_) => PrimitiveType::DVec4,
            PrimitiveVal::Mat2(_) => PrimitiveType::Mat2,
            PrimitiveVal::Mat3(_) => PrimitiveType::Mat3,
            PrimitiveVal::Mat4(_) => PrimitiveType::Mat4,
            PrimitiveVal::DMat2(_) => PrimitiveType::DMat2,
            PrimitiveVal::DMat3(_) => PrimitiveType::DMat3,
            PrimitiveVal::DMat4(_) => PrimitiveType::DMat4,
        };
        (v, t)
    }
}

} // verus!
