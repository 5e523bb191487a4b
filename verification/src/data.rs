//! Data types built from primitives: fixed arrays of a primitive and structs
//! of named fields, with their sizes, and constants of them.

use vstd::prelude::*;

use crate::prim::{prim_size, prim_val_ty, PrimitiveType, PrimitiveVal};

verus! {

/// A struct of named fields.
pub struct StructDesc {
    pub name: Option<String>,
    pub names: Vec<String>,
    pub fields: Vec<DataType>,
}

/// A primitive, a fixed-length array of a primitive, or a struct.
pub enum DataType {
    Primitive(PrimitiveType),
    Array(PrimitiveType, usize),
    Struct(StructDesc),
}

/// The size of a data type in bytes: a primitive's size, the element size
/// times the length (taken as a `u32`) for an array, the sum of the field
/// sizes for a struct.
pub open spec fn data_size(d: DataType) -> int
    decreases d,
{
    match d {
        DataType::Primitive(p) => prim_size(p),
        DataType::Array(p, n) => prim_size(p) * (n as u32),
        DataType::Struct(s) => fields_size(s.fields@),
    }
}

/// The sum of the sizes of the fields.
pub open spec fn fields_size(fs: Seq<DataType>) -> int
    decreases fs,
{
    if fs.len() == 0 {
        0
    } else {
        fields_size(fs.drop_last()) + data_size(fs.last())
    }
}

/// Computing the size of a data type stays within `u32` at every step.
pub open spec fn data_fits(d: DataType) -> bool
    decreases d,
{
    match d {
        DataType::Primitive(_) => true,
        DataType::Array(p, n) => prim_size(p) * (n as u32) <= u32::MAX,
        DataType::Struct(s) => fields_fit(s.fields@),
    }
}

/// Summing the field sizes in order stays within `u32` at every step.
pub open spec fn fields_fit(fs: Seq<DataType>) -> bool
    decreases fs,
{
    if fs.len() == 0 {
        true
    } else {
        &&& fields_fit(fs.drop_last())
        &&& data_fits(fs.last())
        &&& fields_size(fs.drop_last()) + data_size(fs.last()) <= u32::MAX
    }
}

/// Sizes are never negative.
pub proof fn lemma_size_nonneg(d: DataType)
    ensures
        data_size(d) >= 0,
    decreases d,
{
    match d {
        DataType::Struct(s) => lemma_fields_nonneg(s.fields@),
        DataType::Array(p, n) => {
            assert(prim_size(p) >= 0) by {
                crate::prim::law_prim_size_by_component(p);
            }
            assert(prim_size(p) * (n as u32) >= 0) by (nonlinear_arith)
                requires
                    prim_size(p) >= 0,
            ;
        },
        DataType::Primitive(p) => {
            crate::prim::law_prim_size_by_component(p);
        },
    }
}

/// Field sizes sum to a non-negative size.
pub proof fn lemma_fields_nonneg(fs: Seq<DataType>)
    ensures
        fields_size(fs) >= 0,
    decreases fs,
{
    if fs.len() > 0 {
        lemma_fields_nonneg(fs.drop_last());
        lemma_size_nonneg(fs.last());
    }
}

impl DataType {
    /// Returns the size of the data type in bytes.
    pub fn size(&self) -> (r: u32)
        requires
            data_fits(*self),
        ensures
            r == data_size(*self),
        decreases self,
    {
        match self {
            DataType::Primitive(p) => p.size(),
            DataType::Array(p, n) => {
                #[verifier::truncate]
                let len = *n as u32;
                p.size() * len
            },
            DataType::Struct(s) => {
                let ghost fs = s.fields@;
                let mut total: u32 = 0;
                let mut i: usize = 0;
                proof {
                    assert(fs.take(0) =~= Seq::<DataType>::empty());
                }
                while i < s.fields.len()
                    invariant
                        fs == s.fields@,
                        i <= fs.len(),
                        *self is Struct,
                        self->Struct_0 == *s,
                        fields_fit(fs),
                        total == fields_size(fs.take(i as int)),
                    decreases fs.len() - i,
                {
                    proof {
                        lemma_fields_fit_prefix(fs, i as int + 1);
                        assert(fs.take(i + 1).drop_last() =~= fs.take(i as int));
                        assert(fs.take(i + 1).last() == fs[i as int]);
                    }
                    assert(decreases_to!(self => s.fields@[i as int]));
                    let f = s.fields[i].size();
                    total = total + f;
                    i = i + 1;
                }
                proof {
                    assert(fs.take(fs.len() as int) =~= fs);
                }
                total
            },
        }
    }
}

/// The fields of a prefix of a list that fits also fit.
pub proof fn lemma_fields_fit_prefix(fs: Seq<DataType>, i: int)
    requires
        0 <= i <= fs.len(),
        fields_fit(fs),
    ensures
        fields_fit(fs.take(i)),
    decreases fs.len(),
{
    if i < fs.len() {
        assert(fs.drop_last().take(i) =~= fs.take(i));
        lemma_fields_fit_prefix(fs.drop_last(), i);
    } else {
        assert(fs.take(i) =~= fs);
    }
}

/// A constant of a data type: a primitive, an array of primitives, or a
/// struct's field values with the field names.
pub enum DataVal {
    Primitive(PrimitiveVal),
    Array(Vec<PrimitiveVal>),
    Struct(Vec<String>, Vec<DataVal>),
}

/// The data type of a constant: the primitive's type, or an array of the
/// first element's type as long as the array. A struct constant has none.
pub open spec fn data_val_type(v: DataVal) -> Option<(PrimitiveType, Option<usize>)> {
    match v {
        DataVal::Primitive(p) => Some((prim_val_ty(p), None)),
        DataVal::Array(a) => if a@.len() > 0 { Some((prim_val_ty(a@[0]), Some(a@.len() as usize))) } else { None },
        DataVal::Struct(_, _) => None,
    }
}

impl DataType {
    /// The data type of a primitive or non-empty array constant.
    pub fn from_val(v: &DataVal) -> (r: DataType)
        requires
            data_val_type(*v) is Some,
        ensures
            match data_val_type(*v)->Some_0 {
                (p, None) => r == DataType::Primitive(p),
                (p, Some(n)) => r == DataType::Array(p, n),
            },
    {
        match v {
            DataVal::Primitive(p) => DataType::Primitive(PrimitiveType::from_val(p)),
            DataVal::Array(a) => DataType::Array(PrimitiveType::from_val(&a[0]), a.len()),
            DataVal::Struct(_, _) => DataType::Primitive(PrimitiveType::Bool),
        }
    }
}

/// A value with a primitive type.
pub trait DataRef {
    fn ty(&self) -> PrimitiveType;
}

/// A type standing for a primitive shader type.
pub trait AsPrimitiveType {
    fn primitive_type() -> PrimitiveType;
}

/// A shader value type of a primitive type.
pub trait IsPrimitiveType: AsPrimitiveType {}

/// A type standing for a data type.
pub trait AsDataType {
    fn data_type() -> DataType;
}

/// A shader value type of a data type.
pub trait IsDataType: AsDataType {}

/// A type that can be stored from values of `Rhs`.
pub trait SpvStore<Rhs: AsPrimitiveType>: AsPrimitiveType {
    fn val(rhs: Rhs) -> PrimitiveVal;
}

/// `lhs += rhs` is allowed.
pub trait SpvAddAssign<Rhs: AsPrimitiveType>: AsPrimitiveType {}

/// `lhs -= rhs` is allowed.
pub trait SpvSubAssign<Rhs: AsPrimitiveType>: AsPrimitiveType {}

/// `lhs *= rhs` is allowed.
pub trait SpvMulAssign<Rhs: AsPrimitiveType>: AsPrimitiveType {}

/// `lhs /= rhs` is allowed.
pub trait SpvDivAssign<Rhs: AsPrimitiveType>: AsPrimitiveType {}

/// `lhs &= rhs` is allowed.
pub trait SpvBitAndAssign<Rhs: AsPrimitiveType>: AsPrimitiveType {}

/// `lhs |= rhs` is allowed.
pub trait SpvBitOrAssign<Rhs: AsPrimitiveType>: AsPrimitiveType {}

/// `lhs ^= rhs` is allowed.
pub trait SpvBitXorAssign<Rhs: AsPrimitiveType>: AsPrimitiveType {}

/// A value converts into `T`.
pub trait SpvInto<T: IsPrimitiveType>: IsPrimitiveType {}

/// `==` is allowed.
pub trait SpvEq<T: AsPrimitiveType>: AsPrimitiveType {}

/// `!=` is allowed.
pub trait SpvNEq<T: AsPrimitiveType>: AsPrimitiveType {}

/// `<` is allowed.
pub trait SpvLt<T: AsPrimitiveType>: AsPrimitiveType {}

/// `>` is allowed.
pub trait SpvGt<T: AsPrimitiveType>: AsPrimitiveType {}

/// `<=` is allowed.
pub trait SpvLe<T: AsPrimitiveType>: AsPrimitiveType {}

/// `>=` is allowed.
pub trait SpvGe<T: AsPrimitiveType>: AsPrimitiveType {}

/// A fixed-length array variable of `n` elements of a primitive type.
pub struct SpvArray {
    pub id: usize,
    pub element: PrimitiveType,
    pub n: usize,
}

impl SpvArray {
    /// The data type of the array.
    pub fn data_type(&self) -> (r: DataType)
        ensures
            r == DataType::Array(self.element, self.n),
    {
        DataType::Array(self.element, self.n)
    }
}

/// Picking components of a vector variable.
pub struct VectorShuffle {
    pub src: usize,
    pub src_ty: PrimitiveType,
    pub components: [u32; 4],
}

/// The component type of a texel.
#[derive(Clone, Copy, PartialEq, Eq, Debug)]
pub enum Component {
    Float,
    Double,
    Int,
    UInt,
}

/// The primitive type of a texel component.
pub open spec fn component_primitive(c: Component) -> PrimitiveType {
    match c {
        Component::Float => PrimitiveType::Float,
        Component::Double => PrimitiveType::Double,
        Component::Int => PrimitiveType::Int,
        Component::UInt => PrimitiveType::UInt,
    }
}

impl Component {
    /// The primitive type of this component.
    pub fn primitive(&self) -> (r: PrimitiveType)
        ensures
            r == component_primitive(*self),
    {
        match self {
            Component::Float => PrimitiveType::Float,
            Component::Double => PrimitiveType::Double,
            Component::Int => PrimitiveType::Int,
            Component::UInt => PrimitiveType::UInt,
        }
    }
}

/// A type usable as a texel component.
pub trait AsComponent {
    fn component() -> Component;
}

} // verus!
