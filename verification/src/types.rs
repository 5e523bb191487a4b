//! Runtime descriptions of SPIR-V data types and constant values.

use vstd::prelude::*;

verus! {

/// A scalar type: a boolean, or a signed, unsigned or floating point number
/// of the given width in bits.
#[derive(Clone, Copy, Debug, PartialEq, Eq, Structural, Hash)]
pub enum ScalarType {
    Bool,
    Signed(u32),
    Unsigned(u32),
    Float(u32),
}

/// The size in bytes of a scalar: one byte for a boolean, otherwise the
/// width in bits divided by eight.
pub open spec fn scalar_size(s: ScalarType) -> int {
    match s {
        ScalarType::Bool => 1,
        ScalarType::Signed(w) => (w / 8) as int,
        ScalarType::Unsigned(w) => (w / 8) as int,
        ScalarType::Float(w) => (w / 8) as int,
    }
}

impl ScalarType {
    pub fn bool_ty() -> (r: Self)
        ensures
            r == ScalarType::Bool,
    {
        ScalarType::Bool
    }

    pub fn int_ty() -> (r: Self)
        ensures
            r == ScalarType::Signed(32),
    {
        ScalarType::Signed(32)
    }

    pub fn uint_ty() -> (r: Self)
        ensures
            r == ScalarType::Unsigned(32),
    {
        ScalarType::Unsigned(32)
    }

    pub fn float_ty() -> (r: Self)
        ensures
            r == ScalarType::Float(32),
    {
        ScalarType::Float(32)
    }

    pub fn double_ty() -> (r: Self)
        ensures
            r == ScalarType::Float(64),
    {
        ScalarType::Float(64)
    }

    /// Returns the size of the scalar in bytes.
    pub fn size(&self) -> (r: u32)
        ensures
            r == scalar_size(*self),
    {
        match self {
            ScalarType::Bool => 1,
            ScalarType::Signed(w) => *w / 8,
            ScalarType::Unsigned(w) => *w / 8,
            ScalarType::Float(w) => *w / 8,
        }
    }

    pub fn is_bool(&self) -> (r: bool)
        ensures
            r == (*self is Bool),
    {
        match self {
            ScalarType::Bool => true,
            _ => false,
        }
    }

    pub fn is_float(&self) -> (r: bool)
        ensures
            r == (*self is Float),
    {
        match self {
            ScalarType::Float(_) => true,
            _ => false,
        }
    }

    pub fn is_int(&self) -> (r: bool)
        ensures
            r == (*self is Signed),
    {
        match self {
            ScalarType::Signed(_) => true,
            _ => false,
        }
    }

    pub fn is_uint(&self) -> (r: bool)
        ensures
            r == (*self is Unsigned),
    {
        match self {
            ScalarType::Unsigned(_) => true,
            _ => false,
        }
    }
}

/// A vector of `n_scalar` components of one scalar type.
#[derive(Clone, Copy, Debug, PartialEq, Eq, Structural, Hash)]
pub struct VectorType {
    pub scalar_ty: ScalarType,
    pub n_scalar: u32,
}

/// The size in bytes of a vector.
pub open spec fn vector_size(v: VectorType) -> int {
    v.n_scalar * scalar_size(v.scalar_ty)
}

impl VectorType {
    /// Builds the vector type of `n` components of the scalar type `s`.
    pub fn new(s: ScalarType, n: u32) -> (r: Self)
        ensures
            r.scalar_ty == s,
            r.n_scalar == n,
    {
        VectorType { scalar_ty: s, n_scalar: n }
    }

    /// Returns the size of the vector in bytes.
    pub fn size(&self) -> (r: u32)
        requires
            vector_size(*self) <= u32::MAX,
        ensures
            r == vector_size(*self),
    {
        let s = self.scalar_ty.size();
        self.n_scalar * s
    }

    pub fn is_float(&self) -> (r: bool)
        ensures
            r == (self.scalar_ty is Float),
    {
        self.scalar_ty.is_float()
    }

    pub fn is_int(&self) -> (r: bool)
        ensures
            r == (self.scalar_ty is Signed),
    {
        self.scalar_ty.is_int()
    }

    pub fn is_uint(&self) -> (r: bool)
        ensures
            r == (self.scalar_ty is Unsigned),
    {
        self.scalar_ty.is_uint()
    }
}

/// A matrix of `n_vec` column vectors of one vector type.
#[derive(Clone, Copy, Debug, PartialEq, Eq, Structural, Hash)]
pub struct MatrixType {
    pub vec_ty: VectorType,
    pub n_vec: u32,
}

/// The size in bytes of a matrix.
pub open spec fn matrix_size(m: MatrixType) -> int {
    m.n_vec * vector_size(m.vec_ty)
}

impl MatrixType {
    /// Builds the matrix type of `n` columns of the vector type `v`.
    pub fn new(v: VectorType, n: u32) -> (r: Self)
        ensures
            r.vec_ty == v,
            r.n_vec == n,
    {
        MatrixType { vec_ty: v, n_vec: n }
    }

    /// Returns the size of the matrix in bytes.
    pub fn size(&self) -> (r: u32)
        requires
            vector_size(self.vec_ty) <= u32::MAX,
            matrix_size(*self) <= u32::MAX,
        ensures
            r == matrix_size(*self),
    {
        let v = self.vec_ty.size();
        self.n_vec * v
    }

    /// Returns the number of bytes between two columns: the size of a column.
    pub fn stride(&self) -> (r: u32)
        requires
            vector_size(self.vec_ty) <= u32::MAX,
        ensures
            r == vector_size(self.vec_ty),
    {
        self.vec_ty.size()
    }

    pub fn is_float(&self) -> (r: bool)
        ensures
            r == (self.vec_ty.scalar_ty is Float),
    {
        self.vec_ty.scalar_ty.is_float()
    }

    pub fn is_int(&self) -> (r: bool)
        ensures
            r == (self.vec_ty.scalar_ty is Signed),
    {
        self.vec_ty.scalar_ty.is_int()
    }

    pub fn is_uint(&self) -> (r: bool)
        ensures
            r == (self.vec_ty.scalar_ty is Unsigned),
    {
        self.vec_ty.scalar_ty.is_uint()
    }
}


/// An array of `length` elements of one type; `None` is a runtime sized array.
#[derive(Debug, PartialEq, Eq, Hash)]
pub struct ArrayType {
    pub element_ty: Box<Type>,
    pub length: Option<usize>,
}

/// A member of a struct: its optional name, its type and its byte offset.
#[derive(Debug, PartialEq, Eq, Hash)]
pub struct StructMember {
    pub name: Option<String>,
    pub ty: Type,
    pub offset: u32,
}

/// A struct type with an optional name and its members in order.
#[derive(Debug, PartialEq, Eq, Hash)]
pub struct StructType {
    pub name: Option<String>,
    pub members: Vec<StructMember>,
}

/// The sampled type of a texel format.
#[derive(Clone, Copy, Debug, PartialEq, Eq, Structural, Hash)]
pub enum TextureFormat {
    R8Unorm,
    Rg8Unorm,
    Rg8Snorm,
    Rg16Unorm,
    Rg16Snorm,
    Rg16Float,
    Rg32Uint,
    Rg32Sint,
    Rg32Float,
    Rgba8Unorm,
    Rgba8Snorm,
    Rgba8Srgb,
    Rgba16Unorm,
    Rgba16Float,
    Rgba16Snorm,
    Rgba32Uint,
    Rgba32Sint,
    Rgba32Float,
}

/// How a texture is accessed: as a storage image of a given format, as a
/// sampled image, or as a depth image.
#[derive(Clone, Copy, Debug, PartialEq, Eq, Structural, Hash)]
pub enum TextureSpvFormat {
    Color(TextureFormat),
    Sampled,
    Depth,
}

/// The dimensionality of a texture.
#[derive(Clone, Copy, Debug, PartialEq, Eq, Structural, Hash)]
pub enum TextureDimension {
    D1,
    D1Array,
    D2,
    D2Ms,
    D2Array,
    D2MsArray,
    Cube,
    CubeArray,
    D3,
}

impl TextureDimension {
    /// Whether the texture is an array of layers.
    pub fn arrayed(&self) -> (r: bool)
        ensures
            r == (*self is D1Array || *self is D2Array || *self is D2MsArray
                || *self is CubeArray),
    {
        match self {
            TextureDimension::D1Array => true,
            TextureDimension::D2Array => true,
            TextureDimension::D2MsArray => true,
            TextureDimension::CubeArray => true,
            _ => false,
        }
    }

    /// Whether the texture is multisampled.
    pub fn ms(&self) -> (r: bool)
        ensures
            r == (*self is D2Ms || *self is D2MsArray),
    {
        match self {
            TextureDimension::D2Ms => true,
            TextureDimension::D2MsArray => true,
            _ => false,
        }
    }
}

/// A texture: its component scalar type, dimensionality and format.
#[derive(Clone, Copy, Debug, PartialEq, Eq, Structural, Hash)]
pub struct TextureType {
    pub scalar_ty: ScalarType,
    pub dimension: TextureDimension,
    pub format: TextureSpvFormat,
}

/// Any type a shader variable may have.
#[derive(Debug, PartialEq, Eq, Hash)]
pub enum Type {
    Void,
    Scalar(ScalarType),
    Vector(VectorType),
    Matrix(MatrixType),
    Array(ArrayType),
    Struct(StructType),
    Texture(TextureType),
}

/// The mathematical value of a [`Type`]: names as character sequences and
/// struct members as a sequence.
pub enum TypeView {
    Void,
    Scalar(ScalarType),
    Vector(VectorType),
    Matrix(MatrixType),
    Array(Box<TypeView>, Option<usize>),
    Struct(Option<Seq<char>>, Seq<MemberView>),
    Texture(TextureType),
}

/// The mathematical value of a [`StructMember`].
pub struct MemberView {
    pub name: Option<Seq<char>>,
    pub ty: TypeView,
    pub offset: u32,
}

/// The view of an optional name.
pub open spec fn name_view(n: Option<String>) -> Option<Seq<char>> {
    match n {
        Some(s) => Some(s@),
        None => None,
    }
}

/// The view of a type.
pub open spec fn type_view(t: Type) -> TypeView
    decreases t,
{
    match t {
        Type::Void => TypeView::Void,
        Type::Scalar(s) => TypeView::Scalar(s),
        Type::Vector(v) => TypeView::Vector(v),
        Type::Matrix(m) => TypeView::Matrix(m),
        Type::Array(a) => TypeView::Array(Box::new(type_view(*a.element_ty)), a.length),
        Type::Struct(s) => TypeView::Struct(name_view(s.name), members_view(s.members@)),
        Type::Texture(t) => TypeView::Texture(t),
    }
}

/// The views of a sequence of struct members.
pub open spec fn members_view(ms: Seq<StructMember>) -> Seq<MemberView>
    decreases ms,
{
    if ms.len() == 0 {
        Seq::empty()
    } else {
        members_view(ms.drop_last()).push(
            MemberView {
                name: name_view(ms.last().name),
                ty: type_view(ms.last().ty),
                offset: ms.last().offset,
            },
        )
    }
}

impl View for Type {
    type V = TypeView;

    open spec fn view(&self) -> TypeView {
        type_view(*self)
    }
}

impl View for StructType {
    type V = TypeView;

    open spec fn view(&self) -> TypeView {
        TypeView::Struct(name_view(self.name), members_view(self.members@))
    }
}

impl View for ArrayType {
    type V = TypeView;

    open spec fn view(&self) -> TypeView {
        TypeView::Array(Box::new(type_view(*self.element_ty)), self.length)
    }
}

/// The size in bytes of a type, where it has one: a runtime array, a
/// texture, and any aggregate holding one have none.
/// An array's length counts modulo 2^32, as the length is taken as a `u32`.
pub open spec fn type_size(t: TypeView) -> Option<int>
    decreases t,
{
    match t {
        TypeView::Void => Some(0),
        TypeView::Scalar(s) => Some(scalar_size(s)),
        TypeView::Vector(v) => Some(vector_size(v)),
        TypeView::Matrix(m) => Some(matrix_size(m)),
        TypeView::Array(e, len) => match len {
            Some(n) => match type_size(*e) {
                Some(es) => Some((n as u32) * es),
                None => None,
            },
            None => None,
        },
        TypeView::Struct(_, ms) => members_size(ms),
        TypeView::Texture(_) => None,
    }
}

/// The sum of the sizes of the members, if each has one.
pub open spec fn members_size(ms: Seq<MemberView>) -> Option<int>
    decreases ms,
{
    if ms.len() == 0 {
        Some(0)
    } else {
        match members_size(ms.drop_last()) {
            Some(a) => match type_size(ms.last().ty) {
                Some(b) => Some(a + b),
                None => None,
            },
            None => None,
        }
    }
}

/// Whether a type has a size: none for a runtime array, a texture, or an
/// aggregate holding one.
pub fn is_sized(t: &Type) -> (r: bool)
    ensures
        r == (type_size(t@) is Some),
    decreases t,
{
    match t {
        Type::Texture(_) => false,
        Type::Array(a) => match a.length {
            Some(_) => {
                assert(decreases_to!(t => *a.element_ty));
                is_sized(&a.element_ty)
            },
            None => false,
        },
        Type::Struct(st) => {
            proof {
                lemma_members_view(st.members@);
                law_struct_size_none(members_view(st.members@));
            }
            let mut i: usize = 0;
            while i < st.members.len()
                invariant
                    i <= st.members@.len(),
                    *t is Struct,
                    t->Struct_0 == *st,
                    members_view(st.members@).len() == st.members@.len(),
                    forall|j: int| 0 <= j < st.members@.len() ==> #[trigger] members_view(st.members@)[j].ty == st.members@[j].ty@,
                    forall|j: int| 0 <= j < i ==> type_size(#[trigger] members_view(st.members@)[j].ty) is Some,
                decreases st.members@.len() - i,
            {
                assert(decreases_to!(t => st.members@[i as int].ty));
                if !is_sized(&st.members[i].ty) {
                    assert(type_size(members_view(st.members@)[i as int].ty) is None);
                    assert(t@ == TypeView::Struct(name_view(st.name), members_view(st.members@)));
                    proof { law_struct_size_none(members_view(st.members@)); }
                    assert(members_size(members_view(st.members@)) is None);
                    return false;
                }
                i = i + 1;
            }
            proof {
                assert(t@ == TypeView::Struct(name_view(st.name), members_view(st.members@)));
                assert(!(exists|j: int| 0 <= j < members_view(st.members@).len() && type_size(#[trigger] members_view(st.members@)[j].ty) is None));
            }
            true
        },
        _ => true,
    }
}

/// A struct type has no size exactly when one of its members has none (a
/// texture, or a runtime sized array); otherwise its size is the sum of its
/// members' sizes, whatever their offsets.
pub proof fn law_struct_size_none(ms: Seq<MemberView>)
    ensures
        members_size(ms) is None <==> exists|i: int| 0 <= i < ms.len() && type_size(#[trigger] ms[i].ty) is None,
    decreases ms.len(),
{
    if ms.len() > 0 {
        let d = ms.drop_last();
        law_struct_size_none(d);
        if exists|i: int| 0 <= i < d.len() && type_size(#[trigger] d[i].ty) is None {
            let i = choose|i: int| 0 <= i < d.len() && type_size(#[trigger] d[i].ty) is None;
            assert(ms[i] == d[i]);
        }
        if exists|i: int| 0 <= i < ms.len() && type_size(#[trigger] ms[i].ty) is None {
            let i = choose|i: int| 0 <= i < ms.len() && type_size(#[trigger] ms[i].ty) is None;
            if i < d.len() {
                assert(d[i] == ms[i]);
            } else {
                assert(ms[i] == ms.last());
            }
        }
        if type_size(ms.last().ty) is None {
            assert(type_size(ms[ms.len() - 1].ty) is None);
        }
    }
}

/// Whether computing the size of a type stays within `u32` at every step.
pub open spec fn size_fits(t: TypeView) -> bool
    decreases t,
{
    match t {
        TypeView::Vector(v) => vector_size(v) <= u32::MAX,
        TypeView::Matrix(m) => vector_size(m.vec_ty) <= u32::MAX && matrix_size(m) <= u32::MAX,
        TypeView::Array(e, len) => {
            &&& size_fits(*e)
            &&& (len matches Some(n) ==> (type_size(*e) matches Some(es) ==> (n as u32) * es
                <= u32::MAX))
        },
        TypeView::Struct(_, ms) => members_fit(ms),
        _ => true,
    }
}

/// Whether summing the member sizes in order stays within `u32` up to the
/// first member without a size.
pub open spec fn members_fit(ms: Seq<MemberView>) -> bool
    decreases ms,
{
    if ms.len() == 0 {
        true
    } else {
        &&& members_fit(ms.drop_last())
        &&& (members_size(ms.drop_last()) matches Some(a) ==> {
            &&& size_fits(ms.last().ty)
            &&& (type_size(ms.last().ty) matches Some(b) ==> a + b <= u32::MAX)
        })
    }
}

/// The view of a member sequence has one view per member, in order.
pub proof fn lemma_members_view(ms: Seq<StructMember>)
    ensures
        members_view(ms).len() == ms.len(),
        forall|i: int|
            0 <= i < ms.len() ==> #[trigger] members_view(ms)[i] == (MemberView {
                name: name_view(ms[i].name),
                ty: type_view(ms[i].ty),
                offset: ms[i].offset,
            }),
    decreases ms.len(),
{
    if ms.len() > 0 {
        lemma_members_view(ms.drop_last());
    }
}

/// Copies an optional member or struct name.
fn copy_name(n: &Option<String>) -> (r: Option<String>)
    ensures
        name_view(r) == name_view(*n),
{
    match n {
        Some(s) => Some(s.clone()),
        None => None,
    }
}

impl Type {
    /// A copy of the type, with the same view.
    pub fn copy(&self) -> (r: Type)
        ensures
            r@ == self@,
        decreases self,
    {
        match self {
            Type::Void => Type::Void,
            Type::Scalar(s) => Type::Scalar(*s),
            Type::Vector(v) => Type::Vector(*v),
            Type::Matrix(m) => Type::Matrix(*m),
            Type::Array(a) => Type::Array(a.copy()),
            Type::Struct(st) => Type::Struct(st.copy()),
            Type::Texture(t) => Type::Texture(*t),
        }
    }
}

impl ArrayType {
    /// A copy of the array type, with the same view.
    pub fn copy(&self) -> (r: ArrayType)
        ensures
            r@ == self@,
        decreases self,
    {
        let e = self.element_ty.copy();
        ArrayType { element_ty: Box::new(e), length: self.length }
    }
}

impl StructType {
    /// A copy of the struct type, with the same view.
    pub fn copy(&self) -> (r: StructType)
        ensures
            r@ == self@,
        decreases self,
    {
        let mut members: Vec<StructMember> = Vec::new();
        let n = self.members.len();
        for i in 0..n
            invariant
                n == self.members.len(),
                members_view(members@) == members_view(self.members@.take(i as int)),
        {
            assert(decreases_to!(self => self.members@[i as int].ty));
            let m = &self.members[i];
            let t = m.ty.copy();
            let ghost prev = members@;
            members.push(StructMember { name: copy_name(&m.name), ty: t, offset: m.offset });
            assert(members@.drop_last() =~= prev);
            assert(self.members@.take(i + 1).drop_last() =~= self.members@.take(i as int));
        }
        assert(self.members@.take(n as int) =~= self.members@);
        StructType { name: copy_name(&self.name), members }
    }
}

impl Type {
    /// Returns the size of the type in bytes, if it has one.
    pub fn size(&self) -> (r: Option<u32>)
        requires
            size_fits(self@),
        ensures
            r matches Some(n) ==> type_size(self@) == Some(n as int),
            r is None ==> type_size(self@) is None,
        decreases self,
    {
        match self {
            Type::Void => Some(0),
            Type::Scalar(s) => Some(s.size()),
            Type::Vector(v) => Some(v.size()),
            Type::Matrix(m) => Some(m.size()),
            Type::Array(a) => a.size(),
            Type::Struct(s) => s.size(),
            Type::Texture(_) => None,
        }
    }
}

impl ArrayType {
    /// Returns the size of the array in bytes, if its length and element
    /// size are known.
    pub fn size(&self) -> (r: Option<u32>)
        requires
            size_fits(self@),
        ensures
            r matches Some(n) ==> type_size(self@) == Some(n as int),
            r is None ==> type_size(self@) is None,
        decreases self,
    {
        let e = self.element_ty.size();
        match self.length {
            Some(n) => match e {
                Some(es) => Some((n as u32) * es),
                None => None,
            },
            None => None,
        }
    }
}

impl StructType {
    /// Returns the size of the struct in bytes: the sum of its member sizes,
    /// if each has one.
    pub fn size(&self) -> (r: Option<u32>)
        requires
            size_fits(self@),
        ensures
            r matches Some(n) ==> type_size(self@) == Some(n as int),
            r is None ==> type_size(self@) is None,
        decreases self,
    {
        let ghost ms = self.members@;
        let mut size: u32 = 0;
        let n = self.members.len();
        proof {
            lemma_members_view(ms);
            assert(members_view(ms.take(0)) =~= Seq::<MemberView>::empty());
        }
        let mut i: usize = 0;
        while i < n
            invariant
                n == self.members.len(),
                ms == self.members@,
                0 <= i <= n,
                members_fit(members_view(ms)),
                members_view(ms).len() == ms.len(),
                forall|j: int|
                    0 <= j < ms.len() ==> #[trigger] members_view(ms)[j].ty == type_view(ms[j].ty),
                members_size(members_view(ms).take(i as int)) == Some(size as int),
            decreases n - i,
        {
            proof {
                lemma_fit_prefix(members_view(ms), i as int + 1);
                assert(members_view(ms).take(i + 1).drop_last() =~= members_view(ms).take(i as int));
            }
            assert(decreases_to!(self => self.members@[i as int].ty));
            match self.members[i].ty.size() {
                Some(s) => {
                    size = size + s;
                },
                None => {
                    proof {
                        lemma_size_prefix_none(members_view(ms), i as int + 1);
                        assert(members_view(ms).take(ms.len() as int) =~= members_view(ms));
                    }
                    return None;
                },
            }
            i = i + 1;
        }
        assert(members_view(ms).take(n as int) =~= members_view(ms));
        Some(size)
    }
}

/// Every prefix of a member list that fits, fits.
pub proof fn lemma_fit_prefix(ms: Seq<MemberView>, i: int)
    requires
        0 <= i <= ms.len(),
        members_fit(ms),
    ensures
        members_fit(ms.take(i)),
    decreases ms.len(),
{
    if i < ms.len() {
        assert(ms.drop_last().take(i) =~= ms.take(i));
        lemma_fit_prefix(ms.drop_last(), i);
    } else {
        assert(ms.take(i) =~= ms);
    }
}

/// A prefix without a size makes the whole list without a size.
pub proof fn lemma_size_prefix_none(ms: Seq<MemberView>, i: int)
    requires
        0 <= i <= ms.len(),
        members_size(ms.take(i)) is None,
    ensures
        members_size(ms) is None,
    decreases ms.len(),
{
    if i < ms.len() {
        assert(ms.drop_last().take(i) =~= ms.take(i));
        lemma_size_prefix_none(ms.drop_last(), i);
    } else {
        assert(ms.take(i) =~= ms);
    }
}

impl Clone for Type {
    fn clone(&self) -> (r: Self)
        ensures
            r@ == self@,
    {
        self.copy()
    }
}

impl Clone for ArrayType {
    fn clone(&self) -> (r: Self)
        ensures
            r@ == self@,
    {
        self.copy()
    }
}

impl Clone for StructType {
    fn clone(&self) -> (r: Self)
        ensures
            r@ == self@,
    {
        self.copy()
    }
}


/// A scalar constant. Floating point values are held by their IEEE 754 bit
/// patterns.
#[derive(Clone, Copy, PartialEq, Eq, Debug)]
pub enum ScalarVal {
    Bool(bool),
    Int(i32),
    UInt(u32),
    Float(u32),
    Double(u64),
}

/// The type of a scalar constant.
pub open spec fn scalar_val_ty(v: ScalarVal) -> ScalarType {
    match v {
        ScalarVal::Bool(_) => ScalarType::Bool,
        ScalarVal::Int(_) => ScalarType::Signed(32),
        ScalarVal::UInt(_) => ScalarType::Unsigned(32),
        ScalarVal::Float(_) => ScalarType::Float(32),
        ScalarVal::Double(_) => ScalarType::Float(64),
    }
}

impl ScalarVal {
    pub fn scalar_ty(&self) -> (r: ScalarType)
        ensures
            r == scalar_val_ty(*self),
    {
        match self {
            ScalarVal::Bool(_) => ScalarType::Bool,
            ScalarVal::Int(_) => ScalarType::Signed(32),
            ScalarVal::UInt(_) => ScalarType::Unsigned(32),
            ScalarVal::Float(_) => ScalarType::Float(32),
            ScalarVal::Double(_) => ScalarType::Float(64),
        }
    }
}

/// A vector constant, components in order (x, y, z, w). Floating point
/// components are held by their bit patterns.
#[derive(Clone, Copy, PartialEq, Eq, Debug)]
pub enum VectorVal {
    IVec2([i32; 2]),
    IVec3([i32; 3]),
    IVec4([i32; 4]),
    UVec2([u32; 2]),
    UVec3([u32; 3]),
    UVec4([u32; 4]),
    Vec2([u32; 2]),
    Vec3([u32; 3]),
    Vec4([u32; 4]),
    DVec2([u64; 2]),
    DVec3([u64; 3]),
    DVec4([u64; 4]),
}

/// The type of a vector constant.
pub open spec fn vector_val_ty(v: VectorVal) -> VectorType {
    match v {
        VectorVal::IVec2(_) => VectorType { scalar_ty: ScalarType::Signed(32), n_scalar: 2 },
        VectorVal::IVec3(_) => VectorType { scalar_ty: ScalarType::Signed(32), n_scalar: 3 },
        VectorVal::IVec4(_) => VectorType { scalar_ty: ScalarType::Signed(32), n_scalar: 4 },
        VectorVal::UVec2(_) => VectorType { scalar_ty: ScalarType::Unsigned(32), n_scalar: 2 },
        VectorVal::UVec3(_) => VectorType { scalar_ty: ScalarType::Unsigned(32), n_scalar: 3 },
        VectorVal::UVec4(_) => VectorType { scalar_ty: ScalarType::Unsigned(32), n_scalar: 4 },
        VectorVal::Vec2(_) => VectorType { scalar_ty: ScalarType::Float(32), n_scalar: 2 },
        VectorVal::Vec3(_) => VectorType { scalar_ty: ScalarType::Float(32), n_scalar: 3 },
        VectorVal::Vec4(_) => VectorType { scalar_ty: ScalarType::Float(32), n_scalar: 4 },
        VectorVal::DVec2(_) => VectorType { scalar_ty: ScalarType::Float(64), n_scalar: 2 },
        VectorVal::DVec3(_) => VectorType { scalar_ty: ScalarType::Float(64), n_scalar: 3 },
        VectorVal::DVec4(_) => VectorType { scalar_ty: ScalarType::Float(64), n_scalar: 4 },
    }
}

/// The scalar constants of a vector constant, in order.
pub open spec fn vector_val_components(v: VectorVal) -> Seq<ScalarVal> {
    match v {
        VectorVal::IVec2(a) => seq![ScalarVal::Int(a[0]), ScalarVal::Int(a[1])],
        VectorVal::IVec3(a) => seq![ScalarVal::Int(a[0]), ScalarVal::Int(a[1]), ScalarVal::Int(a[2])],
        VectorVal::IVec4(a) => seq![
            ScalarVal::Int(a[0]),
            ScalarVal::Int(a[1]),
            ScalarVal::Int(a[2]),
            ScalarVal::Int(a[3]),
        ],
        VectorVal::UVec2(a) => seq![ScalarVal::UInt(a[0]), ScalarVal::UInt(a[1])],
        VectorVal::UVec3(a) => seq![ScalarVal::UInt(a[0]), ScalarVal::UInt(a[1]), ScalarVal::UInt(a[2])],
        VectorVal::UVec4(a) => seq![
            ScalarVal::UInt(a[0]),
            ScalarVal::UInt(a[1]),
            ScalarVal::UInt(a[2]),
            ScalarVal::UInt(a[3]),
        ],
        VectorVal::Vec2(a) => seq![ScalarVal::Float(a[0]), ScalarVal::Float(a[1])],
        VectorVal::Vec3(a) => seq![ScalarVal::Float(a[0]), ScalarVal::Float(a[1]), ScalarVal::Float(a[2])],
        VectorVal::Vec4(a) => seq![
            ScalarVal::Float(a[0]),
            ScalarVal::Float(a[1]),
            ScalarVal::Float(a[2]),
            ScalarVal::Float(a[3]),
        ],
        VectorVal::DVec2(a) => seq![ScalarVal::Double(a[0]), ScalarVal::Double(a[1])],
        VectorVal::DVec3(a) => seq![ScalarVal::Double(a[0]), ScalarVal::Double(a[1]), ScalarVal::Double(a[2])],
        VectorVal::DVec4(a) => seq![
            ScalarVal::Double(a[0]),
            ScalarVal::Double(a[1]),
            ScalarVal::Double(a[2]),
            ScalarVal::Double(a[3]),
        ],
    }
}

impl VectorVal {
    pub fn vector_ty(&self) -> (r: VectorType)
        ensures
            r == vector_val_ty(*self),
    {
        match self {
            VectorVal::IVec2(_) => VectorType { scalar_ty: ScalarType::Signed(32), n_scalar: 2 },
            VectorVal::IVec3(_) => VectorType { scalar_ty: ScalarType::Signed(32), n_scalar: 3 },
            VectorVal::IVec4(_) => VectorType { scalar_ty: ScalarType::Signed(32), n_scalar: 4 },
            VectorVal::UVec2(_) => VectorType { scalar_ty: ScalarType::Unsigned(32), n_scalar: 2 },
            VectorVal::UVec3(_) => VectorType { scalar_ty: ScalarType::Unsigned(32), n_scalar: 3 },
            VectorVal::UVec4(_) => VectorType { scalar_ty: ScalarType::Unsigned(32), n_scalar: 4 },
            VectorVal::Vec2(_) => VectorType { scalar_ty: ScalarType::Float(32), n_scalar: 2 },
            VectorVal::Vec3(_) => VectorType { scalar_ty: ScalarType::Float(32), n_scalar: 3 },
            VectorVal::Vec4(_) => VectorType { scalar_ty: ScalarType::Float(32), n_scalar: 4 },
            VectorVal::DVec2(_) => VectorType { scalar_ty: ScalarType::Float(64), n_scalar: 2 },
            VectorVal::DVec3(_) => VectorType { scalar_ty: ScalarType::Float(64), n_scalar: 3 },
            VectorVal::DVec4(_) => VectorType { scalar_ty: ScalarType::Float(64), n_scalar: 4 },
        }
    }

    /// The scalar constants of the vector, in order.
    pub fn components(&self) -> (r: Vec<ScalarVal>)
        ensures
            r@ == vector_val_components(*self),
    {
        let r = match self {
            VectorVal::IVec2(a) => vec![ScalarVal::Int(a[0]), ScalarVal::Int(a[1])],
            VectorVal::IVec3(a) => vec![ScalarVal::Int(a[0]), ScalarVal::Int(a[1]), ScalarVal::Int(a[2])],
            VectorVal::IVec4(a) => vec![
                ScalarVal::Int(a[0]),
                ScalarVal::Int(a[1]),
                ScalarVal::Int(a[2]),
                ScalarVal::Int(a[3]),
            ],
            VectorVal::UVec2(a) => vec![ScalarVal::UInt(a[0]), ScalarVal::UInt(a[1])],
            VectorVal::UVec3(a) => vec![ScalarVal::UInt(a[0]), ScalarVal::UInt(a[1]), ScalarVal::UInt(a[2])],
            VectorVal::UVec4(a) => vec![
                ScalarVal::UInt(a[0]),
                ScalarVal::UInt(a[1]),
                ScalarVal::UInt(a[2]),
                ScalarVal::UInt(a[3]),
            ],
            VectorVal::Vec2(a) => vec![ScalarVal::Float(a[0]), ScalarVal::Float(a[1])],
            VectorVal::Vec3(a) => vec![ScalarVal::Float(a[0]), ScalarVal::Float(a[1]), ScalarVal::Float(a[2])],
            VectorVal::Vec4(a) => vec![
                ScalarVal::Float(a[0]),
                ScalarVal::Float(a[1]),
                ScalarVal::Float(a[2]),
                ScalarVal::Float(a[3]),
            ],
            VectorVal::DVec2(a) => vec![ScalarVal::Double(a[0]), ScalarVal::Double(a[1])],
            VectorVal::DVec3(a) => vec![ScalarVal::Double(a[0]), ScalarVal::Double(a[1]), ScalarVal::Double(a[2])],
            VectorVal::DVec4(a) => vec![
                ScalarVal::Double(a[0]),
                ScalarVal::Double(a[1]),
                ScalarVal::Double(a[2]),
                ScalarVal::Double(a[3]),
            ],
        };
        assert(r@ =~= vector_val_components(*self));
        r
    }
}

/// A matrix constant, given column by column. Components are held by their
/// bit patterns.
#[derive(Clone, Copy, PartialEq, Eq, Debug)]
pub enum MatrixVal {
    Mat2([[u32; 2]; 2]),
    Mat3([[u32; 3]; 3]),
    Mat4([[u32; 4]; 4]),
    DMat2([[u64; 2]; 2]),
    DMat3([[u64; 3]; 3]),
    DMat4([[u64; 4]; 4]),
}

/// The type of a matrix constant.
pub open spec fn matrix_val_ty(v: MatrixVal) -> MatrixType {
    match v {
        MatrixVal::Mat2(_) => MatrixType {
            vec_ty: VectorType { scalar_ty: ScalarType::Float(32), n_scalar: 2 },
            n_vec: 2,
        },
        MatrixVal::Mat3(_) => MatrixType {
            vec_ty: VectorType { scalar_ty: ScalarType::Float(32), n_scalar: 3 },
            n_vec: 3,
        },
        MatrixVal::Mat4(_) => MatrixType {
            vec_ty: VectorType { scalar_ty: ScalarType::Float(32), n_scalar: 4 },
            n_vec: 4,
        },
        MatrixVal::DMat2(_) => MatrixType {
            vec_ty: VectorType { scalar_ty: ScalarType::Float(64), n_scalar: 2 },
            n_vec: 2,
        },
        MatrixVal::DMat3(_) => MatrixType {
            vec_ty: VectorType { scalar_ty: ScalarType::Float(64), n_scalar: 3 },
            n_vec: 3,
        },
        MatrixVal::DMat4(_) => MatrixType {
            vec_ty: VectorType { scalar_ty: ScalarType::Float(64), n_scalar: 4 },
            n_vec: 4,
        },
    }
}

/// The column constants of a matrix constant, in order.
pub open spec fn matrix_val_columns(v: MatrixVal) -> Seq<VectorVal> {
    match v {
        MatrixVal::Mat2(c) => seq![VectorVal::Vec2(c[0]), VectorVal::Vec2(c[1])],
        MatrixVal::Mat3(c) => seq![VectorVal::Vec3(c[0]), VectorVal::Vec3(c[1]), VectorVal::Vec3(c[2])],
        MatrixVal::Mat4(c) => seq![
            VectorVal::Vec4(c[0]),
            VectorVal::Vec4(c[1]),
            VectorVal::Vec4(c[2]),
            VectorVal::Vec4(c[3]),
        ],
        MatrixVal::DMat2(c) => seq![VectorVal::DVec2(c[0]), VectorVal::DVec2(c[1])],
        MatrixVal::DMat3(c) => seq![VectorVal::DVec3(c[0]), VectorVal::DVec3(c[1]), VectorVal::DVec3(c[2])],
        MatrixVal::DMat4(c) => seq![
            VectorVal::DVec4(c[0]),
            VectorVal::DVec4(c[1]),
            VectorVal::DVec4(c[2]),
            VectorVal::DVec4(c[3]),
        ],
    }
}

impl MatrixVal {
    pub fn matrix_ty(&self) -> (r: MatrixType)
        ensures
            r == matrix_val_ty(*self),
    {
        let f = ScalarType::Float(32);
        let d = ScalarType::Float(64);
        match self {
            MatrixVal::Mat2(_) => MatrixType { vec_ty: VectorType { scalar_ty: f, n_scalar: 2 }, n_vec: 2 },
            MatrixVal::Mat3(_) => MatrixType { vec_ty: VectorType { scalar_ty: f, n_scalar: 3 }, n_vec: 3 },
            MatrixVal::Mat4(_) => MatrixType { vec_ty: VectorType { scalar_ty: f, n_scalar: 4 }, n_vec: 4 },
            MatrixVal::DMat2(_) => MatrixType { vec_ty: VectorType { scalar_ty: d, n_scalar: 2 }, n_vec: 2 },
            MatrixVal::DMat3(_) => MatrixType { vec_ty: VectorType { scalar_ty: d, n_scalar: 3 }, n_vec: 3 },
            MatrixVal::DMat4(_) => MatrixType { vec_ty: VectorType { scalar_ty: d, n_scalar: 4 }, n_vec: 4 },
        }
    }

    /// The column constants of the matrix, in order.
    pub fn columns(&self) -> (r: Vec<VectorVal>)
        ensures
            r@ == matrix_val_columns(*self),
    {
        let r = match self {
            MatrixVal::Mat2(c) => vec![VectorVal::Vec2(c[0]), VectorVal::Vec2(c[1])],
            MatrixVal::Mat3(c) => vec![VectorVal::Vec3(c[0]), VectorVal::Vec3(c[1]), VectorVal::Vec3(c[2])],
            MatrixVal::Mat4(c) => vec![
                VectorVal::Vec4(c[0]),
                VectorVal::Vec4(c[1]),
                VectorVal::Vec4(c[2]),
                VectorVal::Vec4(c[3]),
            ],
            MatrixVal::DMat2(c) => vec![VectorVal::DVec2(c[0]), VectorVal::DVec2(c[1])],
            MatrixVal::DMat3(c) => vec![VectorVal::DVec3(c[0]), VectorVal::DVec3(c[1]), VectorVal::DVec3(c[2])],
            MatrixVal::DMat4(c) => vec![
                VectorVal::DVec4(c[0]),
                VectorVal::DVec4(c[1]),
                VectorVal::DVec4(c[2]),
                VectorVal::DVec4(c[3]),
            ],
        };
        assert(r@ =~= matrix_val_columns(*self));
        r
    }
}

/// A constant of a scalar, vector or matrix type.
#[derive(Clone, Copy, PartialEq, Eq, Debug)]
pub enum Val {
    Scalar(ScalarVal),
    Vector(VectorVal),
    Matrix(MatrixVal),
}

/// The type of a constant.
pub open spec fn val_ty(v: Val) -> TypeView {
    match v {
        Val::Scalar(s) => TypeView::Scalar(scalar_val_ty(s)),
        Val::Vector(v) => TypeView::Vector(vector_val_ty(v)),
        Val::Matrix(m) => TypeView::Matrix(matrix_val_ty(m)),
    }
}

impl Val {
    pub fn ty(&self) -> (r: Type)
        ensures
            r@ == val_ty(*self),
    {
        match self {
            Val::Scalar(s) => Type::Scalar(s.scalar_ty()),
            Val::Vector(v) => Type::Vector(v.vector_ty()),
            Val::Matrix(m) => Type::Matrix(m.matrix_ty()),
        }
    }
}

} // verus!
