//! Shader stage inputs and outputs.

use vstd::prelude::*;

use crate::prim::{prim_type_view, PrimitiveType};
use crate::types::{ScalarType, Type, TypeView, VectorType};

verus! {

/// The type of a stage input or output variable.
#[derive(Clone, Copy, PartialEq, Eq, Hash, Debug)]
pub enum IOType {
    Int,
    IVec2,
    IVec3,
    IVec4,
    UInt,
    UVec2,
    UVec3,
    UVec4,
    Float,
    Vec2,
    Vec3,
    Vec4,
    Double,
    DVec2,
    DVec3,
    DVec4,
}

/// The scalar type an input or output type is built from.
pub open spec fn io_scalar(t: IOType) -> ScalarType {
    match t {
        IOType::Int | IOType::IVec2 | IOType::IVec3 | IOType::IVec4 => ScalarType::Signed(32),
        IOType::UInt | IOType::UVec2 | IOType::UVec3 | IOType::UVec4 => ScalarType::Unsigned(32),
        IOType::Float | IOType::Vec2 | IOType::Vec3 | IOType::Vec4 => ScalarType::Float(32),
        IOType::Double | IOType::DVec2 | IOType::DVec3 | IOType::DVec4 => ScalarType::Float(64),
    }
}

/// The number of components of an input or output type.
pub open spec fn io_components(t: IOType) -> u32 {
    match t {
        IOType::IVec2 | IOType::UVec2 | IOType::Vec2 | IOType::DVec2 => 2,
        IOType::IVec3 | IOType::UVec3 | IOType::Vec3 | IOType::DVec3 => 3,
        IOType::IVec4 | IOType::UVec4 | IOType::Vec4 | IOType::DVec4 => 4,
        _ => 1,
    }
}

/// The shader type of an input or output type: its scalar for one
/// component, otherwise the vector of its components.
pub open spec fn io_type(t: IOType) -> TypeView {
    if io_components(t) == 1 {
        TypeView::Scalar(io_scalar(t))
    } else {
        TypeView::Vector(VectorType { scalar_ty: io_scalar(t), n_scalar: io_components(t) })
    }
}

/// The primitive type of the same name as an input or output type.
pub open spec fn io_primitive(t: IOType) -> PrimitiveType {
    match t {
        IOType::Int => PrimitiveType::Int,
        IOType::IVec2 => PrimitiveType::IVec2,
        IOType::IVec3 => PrimitiveType::IVec3,
        IOType::IVec4 => PrimitiveType::IVec4,
        IOType::UInt => PrimitiveType::UInt,
        IOType::UVec2 => PrimitiveType::UVec2,
        IOType::UVec3 => PrimitiveType::UVec3,
        IOType::UVec4 => PrimitiveType::UVec4,
        IOType::Float => PrimitiveType::Float,
        IOType::Vec2 => PrimitiveType::Vec2,
        IOType::Vec3 => PrimitiveType::Vec3,
        IOType::Vec4 => PrimitiveType::Vec4,
        IOType::Double => PrimitiveType::Double,
        IOType::DVec2 => PrimitiveType::DVec2,
        IOType::DVec3 => PrimitiveType::DVec3,
        IOType::DVec4 => PrimitiveType::DVec4,
    }
}

/// An input or output type has the shader type of the primitive of the same
/// name: its integers signed or unsigned and its floats of 32 or 64 bits as
/// that primitive's are.
pub proof fn law_io_type_as_primitive(t: IOType)
    ensures
        io_type(t) == prim_type_view(io_primitive(t)),
{
}

impl IOType {
    pub fn ty(&self) -> (r: Type)
        ensures
            r@ == io_type(*self),
    {
        let i = ScalarType::Signed(32);
        let u = ScalarType::Unsigned(32);
        let f = ScalarType::Float(32);
        let d = ScalarType::Float(64);
        match self {
            IOType::Int => Type::Scalar(i),
            IOType::IVec2 => Type::Vector(VectorType { scalar_ty: i, n_scalar: 2 }),
            IOType::IVec3 => Type::Vector(VectorType { scalar_ty: i, n_scalar: 3 }),
            IOType::IVec4 => Type::Vector(VectorType { scalar_ty: i, n_scalar: 4 }),
            IOType::UInt => Type::Scalar(u),
            IOType::UVec2 => Type::Vector(VectorType { scalar_ty: u, n_scalar: 2 }),
            IOType::UVec3 => Type::Vector(VectorType { scalar_ty: u, n_scalar: 3 }),
            IOType::UVec4 => Type::Vector(VectorType { scalar_ty: u, n_scalar: 4 }),
            IOType::Float => Type::Scalar(f),
            IOType::Vec2 => Type::Vector(VectorType { scalar_ty: f, n_scalar: 2 }),
            IOType::Vec3 => Type::Vector(VectorType { scalar_ty: f, n_scalar: 3 }),
            IOType::Vec4 => Type::Vector(VectorType { scalar_ty: f, n_scalar: 4 }),
            IOType::Double => Type::Scalar(d),
            IOType::DVec2 => Type::Vector(VectorType { scalar_ty: d, n_scalar: 2 }),
            IOType::DVec3 => Type::Vector(VectorType { scalar_ty: d, n_scalar: 3 }),
            IOType::DVec4 => Type::Vector(VectorType { scalar_ty: d, n_scalar: 4 }),
        }
    }
}

/// Marker for a signed integer input or output.
pub struct IOInt;

pub struct IOIVec2;

pub struct IOIVec3;

pub struct IOIVec4;

pub struct IOUInt;

pub struct IOUVec2;

pub struct IOUVec3;

pub struct IOUVec4;

pub struct IOFloat;

pub struct IOVec2;

pub struct IOVec3;

pub struct IOVec4;

pub struct IODouble;

pub struct IODVec2;

pub struct IODVec3;

pub struct IODVec4;

/// A marker type naming one input or output type.
pub trait AsIOTypeConst {
    fn io_ty() -> (r: IOType);
}

impl AsIOTypeConst for IOInt {
    fn io_ty() -> (r: IOType)
        ensures
            r == IOType::Int,
    {
        IOType::Int
    }
}

impl AsIOTypeConst for IOIVec2 {
    fn io_ty() -> (r: IOType)
        ensures
            r == IOType::IVec2,
    {
        IOType::IVec2
    }
}

impl AsIOTypeConst for IOIVec3 {
    fn io_ty() -> (r: IOType)
        ensures
            r == IOType::IVec3,
    {
        IOType::IVec3
    }
}

impl AsIOTypeConst for IOIVec4 {
    fn io_ty() -> (r: IOType)
        ensures
            r == IOType::IVec4,
    {
        IOType::IVec4
    }
}

impl AsIOTypeConst for IOUInt {
    fn io_ty() -> (r: IOType)
        ensures
            r == IOType::UInt,
    {
        IOType::UInt
    }
}

impl AsIOTypeConst for IOUVec2 {
    fn io_ty() -> (r: IOType)
        ensures
            r == IOType::UVec2,
    {
        IOType::UVec2
    }
}

impl AsIOTypeConst for IOUVec3 {
    fn io_ty() -> (r: IOType)
        ensures
            r == IOType::UVec3,
    {
        IOType::UVec3
    }
}

impl AsIOTypeConst for IOUVec4 {
    fn io_ty() -> (r: IOType)
        ensures
            r == IOType::UVec4,
    {
        IOType::UVec4
    }
}

impl AsIOTypeConst for IOFloat {
    fn io_ty() -> (r: IOType)
        ensures
            r == IOType::Float,
    {
        IOType::Float
    }
}

impl AsIOTypeConst for IOVec2 {
    fn io_ty() -> (r: IOType)
        ensures
            r == IOType::Vec2,
    {
        IOType::Vec2
    }
}

impl AsIOTypeConst for IOVec3 {
    fn io_ty() -> (r: IOType)
        ensures
            r == IOType::Vec3,
    {
        IOType::Vec3
    }
}

impl AsIOTypeConst for IOVec4 {
    fn io_ty() -> (r: IOType)
        ensures
            r == IOType::Vec4,
    {
        IOType::Vec4
    }
}

impl AsIOTypeConst for IODouble {
    fn io_ty() -> (r: IOType)
        ensures
            r == IOType::Double,
    {
        IOType::Double
    }
}

impl AsIOTypeConst for IODVec2 {
    fn io_ty() -> (r: IOType)
        ensures
            r == IOType::DVec2,
    {
        IOType::DVec2
    }
}

impl AsIOTypeConst for IODVec3 {
    fn io_ty() -> (r: IOType)
        ensures
            r == IOType::DVec3,
    {
        IOType::DVec3
    }
}

impl AsIOTypeConst for IODVec4 {
    fn io_ty() -> (r: IOType)
        ensures
            r == IOType::DVec4,
    {
        IOType::DVec4
    }
}

} // verus!
