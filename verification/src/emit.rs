//! Declaring shader types and constants through the `rspirv` module builder.
//!
//! The functions here decide which builder calls a type or constant needs and
//! pass them the right operands; the ids the builder hands back are opaque.
//! Struct types are declared once per module: [`RSpirvBuilder`] keeps a cache
//! from struct types to the ids they were declared under.

use rspirv::dr::Builder;
use rspirv::dr::Error;
use vstd::prelude::*;

use crate::data::{DataType, StructDesc};
use crate::prim::{prim_type_view, prim_val_ty, prim_val_parts, prim_val_rank, lemma_parts_rank, PrimitiveType, PrimitiveVal};
use crate::spirv_api::{
    access_chain, assemble, begin_block, begin_function, branch, branch_conditional, capability,
    composite_construct, composite_extract, constant_bit32, constant_bit64, constant_composite,
    constant_false, constant_true, decorate, end_function, entry_point, execution_mode, ext_inst,
    ext_inst_import, image_sample_explicit_lod, image_sample_implicit_lod, insert_function_variable, kill,
    load, member_decorate, member_name, memory_model, name, new_module_builder, next_id, ret,
    sampled_image, select_block, select_function, selected_block, selected_function, selection_merge,
    set_version, source, store, type_array, type_bool, type_float, type_function, type_image, type_int,
    type_matrix, type_pointer, type_runtime_array, type_sampled_image, type_sampler, type_struct,
    type_vector, type_void, variable, vector_shuffle, SpvOperand, AnnotView, has_annot, builder_ok, module_view, seq_prefix, only_globals, sel_kept, find_type, lemma_find_prefix, lemma_declared, declared, InstView, TypeDecl, has_inst, lemma_has_prefix,
};
use crate::types::{
    vector_size, members_view, name_view, lemma_members_view, ArrayType, MatrixType, MemberView, ScalarType,
    ScalarVal, StructMember, StructType, TextureDimension, TextureFormat, TextureSpvFormat,
    TextureType, Type, TypeView, Val, VectorType, MatrixVal, VectorVal, scalar_val_ty, vector_val_ty, vector_val_components,
    matrix_val_ty, matrix_val_columns,
};

verus! {

broadcast use crate::spirv_api::lemma_declared;

/// Why building a module failed.
#[derive(Clone, Copy, PartialEq, Eq, Debug)]
pub enum CompileError {
    /// The module builder had no block selected where one was needed.
    NoBlock,
    /// The module builder refused a call.
    Build(BuildError),
}

/// The errors of the `rspirv` module builder.
#[derive(Clone, Copy, PartialEq, Eq, Debug)]
pub enum BuildError {
    NestedFunction,
    UnclosedFunction,
    MismatchedFunctionEnd,
    DetachedFunctionParameter,
    DetachedBlock,
    NestedBlock,
    UnclosedBlock,
    MismatchedTerminator,
    DetachedInstruction,
    EmptyInstructionList,
    WrongOpCapabilityOperand,
    WrongOpExtensionOperand,
    WrongOpExtInstImportOperand,
    WrongOpMemoryModelOperand,
    WrongOpNameOperand,
    FunctionNotFound,
    BlockNotFound,
}

/// The module builder with what this library keeps beside it: the id of the
/// GLSL.std.450 instruction set and the struct types declared so far.
pub struct RSpirvBuilder {
    pub raw: Builder,
    pub ext: u32,
    pub struct_map: Vec<(StructType, u32)>,
}

/// The struct types of a cache, by view.
pub open spec fn cached_types(m: Seq<(StructType, u32)>) -> Seq<TypeView> {
    m.map_values(|e: (StructType, u32)| e.0@)
}

/// No struct type is cached twice.
pub open spec fn cache_wf(m: Seq<(StructType, u32)>) -> bool {
    forall|i: int, j: int| 0 <= i < j < m.len() ==> (#[trigger] m[i]).0@ != (#[trigger] m[j]).0@
}

/// The id a struct type of view `t` was declared under, if it was.
pub open spec fn cached_id(m: Seq<(StructType, u32)>, t: TypeView) -> Option<u32> {
    if exists|i: int| 0 <= i < m.len() && (#[trigger] m[i]).0@ == t {
        Some(m[choose|i: int| 0 <= i < m.len() && (#[trigger] m[i]).0@ == t].1)
    } else {
        None
    }
}

/// The cache only grows: what was cached stays cached under the same id.
pub open spec fn cache_grew(a: Seq<(StructType, u32)>, b: Seq<(StructType, u32)>) -> bool {
    forall|t: TypeView| #[trigger] cached_id(a, t) is Some ==> cached_id(b, t) == cached_id(a, t)
}

impl RSpirvBuilder {
    /// The builder's struct cache is well formed.
    pub open spec fn wf(self) -> bool {
        &&& cache_wf(self.struct_map@)
        &&& builder_ok(self.raw)
    }
}

/// Converts an error of the module builder.
#[verifier::external_body]
pub(crate) fn build_error(e: Error) -> (r: BuildError)
{
    match e {
        Error::NestedFunction => BuildError::NestedFunction, Error::UnclosedFunction => BuildError::UnclosedFunction,
        Error::MismatchedFunctionEnd => BuildError::MismatchedFunctionEnd, Error::DetachedBlock => BuildError::DetachedBlock,
        Error::DetachedFunctionParameter => BuildError::DetachedFunctionParameter, Error::NestedBlock => BuildError::NestedBlock,
        Error::UnclosedBlock => BuildError::UnclosedBlock, Error::MismatchedTerminator => BuildError::MismatchedTerminator,
        Error::DetachedInstruction(_) => BuildError::DetachedInstruction, Error::BlockNotFound => BuildError::BlockNotFound,
        Error::EmptyInstructionList => BuildError::EmptyInstructionList, Error::FunctionNotFound => BuildError::FunctionNotFound,
        Error::WrongOpCapabilityOperand => BuildError::WrongOpCapabilityOperand, Error::WrongOpNameOperand => BuildError::WrongOpNameOperand,
        Error::WrongOpExtensionOperand => BuildError::WrongOpExtensionOperand,
        Error::WrongOpExtInstImportOperand => BuildError::WrongOpExtInstImportOperand,
        Error::WrongOpMemoryModelOperand => BuildError::WrongOpMemoryModelOperand,
    }
}

/// A builder result with its error converted: the same value on success.
pub fn lift<T>(r: Result<T, Error>) -> (o: Result<T, CompileError>)
    ensures
        r is Ok <==> o is Ok,
        r is Ok ==> o->Ok_0 == r->Ok_0,
        o is Err ==> o->Err_0 is Build,
{
    match r {
        Ok(x) => Ok(x),
        Err(e) => Err(CompileError::Build(build_error(e))),
    }
}

/// The SPIR-V code of a texture format, `Unknown` for sampled and depth
/// textures. An sRGB format is declared as its signed normalised form.
pub open spec fn image_format_code(f: TextureSpvFormat) -> u32 {
    match f {
        TextureSpvFormat::Color(c) => match c {
            TextureFormat::R8Unorm => 15,
            TextureFormat::Rg8Unorm => 13,
            TextureFormat::Rg8Snorm => 18,
            TextureFormat::Rg16Unorm => 12,
            TextureFormat::Rg16Snorm => 17,
            TextureFormat::Rg16Float => 7,
            TextureFormat::Rg32Uint => 35,
            TextureFormat::Rg32Sint => 25,
            TextureFormat::Rg32Float => 6,
            TextureFormat::Rgba8Unorm => 4,
            TextureFormat::Rgba8Snorm => 5,
            TextureFormat::Rgba8Srgb => 5,
            TextureFormat::Rgba16Unorm => 10,
            TextureFormat::Rgba16Float => 2,
            TextureFormat::Rgba16Snorm => 16,
            TextureFormat::Rgba32Uint => 30,
            TextureFormat::Rgba32Sint => 21,
            TextureFormat::Rgba32Float => 1,
        },
        _ => 0,
    }
}

/// The SPIR-V image format code of a texture's format.
pub fn image_format(f: TextureSpvFormat) -> (r: u32)
    ensures
        r == image_format_code(f),
{
    match f {
        TextureSpvFormat::Color(c) => match c {
            TextureFormat::R8Unorm => 15,
            TextureFormat::Rg8Unorm => 13,
            TextureFormat::Rg8Snorm => 18,
            TextureFormat::Rg16Unorm => 12,
            TextureFormat::Rg16Snorm => 17,
            TextureFormat::Rg16Float => 7,
            TextureFormat::Rg32Uint => 35,
            TextureFormat::Rg32Sint => 25,
            TextureFormat::Rg32Float => 6,
            TextureFormat::Rgba8Unorm => 4,
            TextureFormat::Rgba8Snorm => 5,
            TextureFormat::Rgba8Srgb => 5,
            TextureFormat::Rgba16Unorm => 10,
            TextureFormat::Rgba16Float => 2,
            TextureFormat::Rgba16Snorm => 16,
            TextureFormat::Rgba32Uint => 30,
            TextureFormat::Rgba32Sint => 21,
            TextureFormat::Rgba32Float => 1,
        },
        _ => 0,
    }
}

/// The SPIR-V dimensionality code of a texture dimension.
pub open spec fn dim_code(d: TextureDimension) -> u32 {
    match d {
        TextureDimension::D1 | TextureDimension::D1Array => 0,
        TextureDimension::D2 | TextureDimension::D2Ms | TextureDimension::D2Array
        | TextureDimension::D2MsArray => 1,
        TextureDimension::D3 => 2,
        TextureDimension::Cube | TextureDimension::CubeArray => 3,
    }
}

/// The SPIR-V dimensionality code of a texture dimension.
pub fn dim(d: TextureDimension) -> (r: u32)
    ensures
        r == dim_code(d),
{
    match d {
        TextureDimension::D1 | TextureDimension::D1Array => 0,
        TextureDimension::D2 | TextureDimension::D2Ms | TextureDimension::D2Array
        | TextureDimension::D2MsArray => 1,
        TextureDimension::D3 => 2,
        TextureDimension::Cube | TextureDimension::CubeArray => 3,
    }
}

/// The operands of the image type declared for a texture: dimensionality,
/// depth, arrayed, multisampled, sampled, format.
pub open spec fn image_operands(t: TextureType) -> (u32, u32, u32, u32, u32, u32) {
    (
        dim_code(t.dimension),
        if t.format is Depth { 1 } else { 0 },
        if t.dimension is D1Array || t.dimension is D2Array || t.dimension is D2MsArray || t.dimension is CubeArray { 1 } else { 0 },
        if t.dimension is D2Ms || t.dimension is D2MsArray { 1 } else { 0 },
        if t.format is Sampled { 1 } else { 0 },
        image_format_code(t.format),
    )
}

/// Two types have the same view.
pub fn type_same(a: &Type, b: &Type) -> (r: bool)
    ensures
        r == (a@ == b@),
    decreases a,
{
    match (a, b) {
        (Type::Void, Type::Void) => true,
        (Type::Scalar(x), Type::Scalar(y)) => *x == *y,
        (Type::Vector(x), Type::Vector(y)) => *x == *y,
        (Type::Matrix(x), Type::Matrix(y)) => *x == *y,
        (Type::Texture(x), Type::Texture(y)) => *x == *y,
        (Type::Array(x), Type::Array(y)) => {
            let same_len = match (x.length, y.length) {
                (Some(m), Some(n)) => m == n,
                (None, None) => true,
                _ => false,
            };
            if !same_len {
                return false;
            }
            assert(decreases_to!(a => *x.element_ty));
            type_same(&x.element_ty, &y.element_ty)
        },
        (Type::Struct(x), Type::Struct(y)) => struct_same(x, y),
        (Type::Void, _) | (Type::Scalar(_), _) | (Type::Vector(_), _) | (Type::Matrix(_), _)
        | (Type::Texture(_), _) | (Type::Array(_), _) | (Type::Struct(_), _) => false,
    }
}

/// Two optional names are the same text.
pub fn name_same(a: &Option<String>, b: &Option<String>) -> (r: bool)
    ensures
        r == (name_view(*a) == name_view(*b)),
{
    match (a, b) {
        (Some(x), Some(y)) => *x == *y,
        (None, None) => true,
        _ => false,
    }
}

/// Two struct types have the same view.
pub fn struct_same(a: &StructType, b: &StructType) -> (r: bool)
    ensures
        r == (a@ == b@),
    decreases a,
{
    proof {
        lemma_members_view(a.members@);
        lemma_members_view(b.members@);
    }
    if !name_same(&a.name, &b.name) {
        return false;
    }
    if a.members.len() != b.members.len() {
        return false;
    }
    let n = a.members.len();
    let mut i: usize = 0;
    while i < n
        invariant
            n == a.members@.len(),
            n == b.members@.len(),
            i <= n,
            members_view(a.members@).len() == n,
            members_view(b.members@).len() == n,
            forall|j: int| 0 <= j < n ==> #[trigger] members_view(a.members@)[j] == (MemberView {
                name: name_view(a.members@[j].name), ty: a.members@[j].ty@, offset: a.members@[j].offset }),
            forall|j: int| 0 <= j < n ==> #[trigger] members_view(b.members@)[j] == (MemberView {
                name: name_view(b.members@[j].name), ty: b.members@[j].ty@, offset: b.members@[j].offset }),
            forall|j: int| 0 <= j < i ==> #[trigger] members_view(a.members@)[j] == members_view(b.members@)[j],
        decreases n - i,
    {
        let ma = &a.members[i];
        let mb = &b.members[i];
        if !name_same(&ma.name, &mb.name) || ma.offset != mb.offset {
            assert(members_view(a.members@)[i as int] != members_view(b.members@)[i as int]);
            return false;
        }
        assert(decreases_to!(a => a.members@[i as int].ty));
        if !type_same(&ma.ty, &mb.ty) {
            assert(members_view(a.members@)[i as int] != members_view(b.members@)[i as int]);
            return false;
        }
        i = i + 1;
    }
    assert(members_view(a.members@) =~= members_view(b.members@));
    true
}

/// The place of a struct type in the cache, if it is there.
fn find_struct(m: &Vec<(StructType, u32)>, t: &StructType) -> (r: Option<usize>)
    ensures
        match r {
            Some(i) => i < m@.len() && m@[i as int].0@ == t@,
            None => forall|j: int| 0 <= j < m@.len() ==> (#[trigger] m@[j]).0@ != t@,
        },
{
    let mut i: usize = 0;
    while i < m.len()
        invariant
            i <= m@.len(),
            forall|j: int| 0 <= j < i ==> (#[trigger] m@[j]).0@ != t@,
        decreases m@.len() - i,
    {
        if struct_same(&m[i].0, t) {
            return Some(i);
        }
        i = i + 1;
    }
    None
}

/// A cache entry found by `find_struct` is the cached id.
proof fn lemma_cached_at(m: Seq<(StructType, u32)>, i: int, t: TypeView)
    requires
        cache_wf(m),
        0 <= i < m.len(),
        m[i].0@ == t,
    ensures
        cached_id(m, t) == Some(m[i].1),
{
    let k = choose|k: int| 0 <= k < m.len() && (#[trigger] m[k]).0@ == t;
    if k != i {
        if k < i {
            assert(m[k].0@ != m[i].0@);
        } else {
            assert(m[i].0@ != m[k].0@);
        }
    }
}

/// Adding an uncached struct type keeps the cache well formed, caches the
/// type under the new id and keeps what was cached.
proof fn lemma_cache_push(m: Seq<(StructType, u32)>, e: (StructType, u32))
    requires
        cache_wf(m),
        forall|j: int| 0 <= j < m.len() ==> (#[trigger] m[j]).0@ != e.0@,
    ensures
        cache_wf(m.push(e)),
        cached_id(m.push(e), e.0@) == Some(e.1),
        cache_grew(m, m.push(e)),
{
    let m2 = m.push(e);
    assert(m2[m.len() as int] == e);
    lemma_cached_at(m2, m.len() as int, e.0@);
    assert forall|t: TypeView| #[trigger] cached_id(m, t) is Some implies cached_id(m2, t) == cached_id(m, t) by {
        let k = choose|k: int| 0 <= k < m.len() && (#[trigger] m[k]).0@ == t;
        assert(m2[k] == m[k]);
        lemma_cached_at(m, k, t);
        lemma_cached_at(m2, k, t);
    }
}

/// The builder's cache is well formed, and its extended instruction set and
/// cached struct types are kept.
pub open spec fn kept(a: RSpirvBuilder, b: RSpirvBuilder) -> bool {
    &&& decls_kept(a, b)
    &&& module_view(b.raw).functions.len() == module_view(a.raw).functions.len()
    &&& module_view(b.raw).function == module_view(a.raw).function
    &&& others_kept(a.raw, b.raw)
    &&& module_view(b.raw).capabilities == module_view(a.raw).capabilities
    &&& module_view(b.raw).entry_points == module_view(a.raw).entry_points
    &&& module_view(b.raw).execution_modes == module_view(a.raw).execution_modes
    &&& module_view(b.raw).function_ids == module_view(a.raw).function_ids
}

/// Every function but the one selected in `a` is the same in `b`.
pub open spec fn others_kept(a: Builder, b: Builder) -> bool {
    forall|j: int| 0 <= j < module_view(a).functions.len() && module_view(a).function != Some(j as usize)
        ==> #[trigger] module_view(b).functions[j] == module_view(a).functions[j]
}

/// The builder's cache and selection are well formed, its global section
/// only grew, and its extended instruction set and cached struct types are
/// kept.
pub open spec fn decls_kept(a: RSpirvBuilder, b: RSpirvBuilder) -> bool {
    &&& b.wf()
    &&& seq_prefix(module_view(a.raw).globals, module_view(b.raw).globals)
    &&& annot_prefix(module_view(a.raw).annotations, module_view(b.raw).annotations)
    &&& b.ext == a.ext
    &&& cache_grew(a.struct_map@, b.struct_map@)
}

/// `decls_kept` composes.
pub proof fn lemma_decls_kept_trans(a: RSpirvBuilder, b: RSpirvBuilder, c: RSpirvBuilder)
    requires
        decls_kept(a, b),
        decls_kept(b, c),
    ensures
        decls_kept(a, c),
{
    assert forall|t: TypeView| #[trigger] cached_id(a.struct_map@, t) is Some implies cached_id(c.struct_map@, t) == cached_id(a.struct_map@, t) by {
        assert(cached_id(b.struct_map@, t) == cached_id(a.struct_map@, t));
    }
}

/// `kept` composes.
pub proof fn lemma_kept_trans(a: RSpirvBuilder, b: RSpirvBuilder, c: RSpirvBuilder)
    requires
        kept(a, b),
        kept(b, c),
    ensures
        kept(a, c),
{
    assert forall|t: TypeView| #[trigger] cached_id(a.struct_map@, t) is Some implies cached_id(c.struct_map@, t) == cached_id(a.struct_map@, t) by {
        assert(cached_id(b.struct_map@, t) == cached_id(a.struct_map@, t));
    }
}

/// The declaration of a scalar type: a boolean, an integer of its width and
/// signedness, or a float of its width.
pub open spec fn scalar_decl(s: ScalarType) -> TypeDecl {
    match s {
        ScalarType::Bool => TypeDecl::Bool,
        ScalarType::Signed(w) => TypeDecl::Int { width: w, signedness: 1 },
        ScalarType::Unsigned(w) => TypeDecl::Int { width: w, signedness: 0 },
        ScalarType::Float(w) => TypeDecl::Float { width: w },
    }
}

/// A scalar is declared with its own width: an integer type for signed and
/// unsigned integers, marked signed (signedness one) exactly for signed
/// ones, a float type for floats, and the boolean type for booleans.
pub proof fn law_scalar_decl_keeps_kind(s: ScalarType)
    ensures
        (scalar_decl(s) is Int) <==> (s is Signed || s is Unsigned),
        (scalar_decl(s) is Float) <==> s is Float,
        (scalar_decl(s) is Bool) <==> s is Bool,
        scalar_decl(s) matches TypeDecl::Int { width, signedness } ==> (signedness == 1 <==> s is Signed) && (
        signedness == 0 <==> s is Unsigned) && (s matches ScalarType::Signed(w) ==> width == w) && (
        s matches ScalarType::Unsigned(w) ==> width == w),
        scalar_decl(s) matches TypeDecl::Float { width } ==> s == ScalarType::Float(width),
{
}

/// The id of a vector type in global section `g`: the vector declaration of
/// its count over the id of its scalar type.
pub open spec fn vector_decl_id(g: Seq<InstView>, v: VectorType) -> Option<u32> {
    match find_type(g, scalar_decl(v.scalar_ty)) {
        Some(c) => find_type(g, TypeDecl::Vector { component: c, count: v.n_scalar }),
        None => None,
    }
}

/// The id of a type in global section `g` with struct cache `m`, if it is
/// declared there: each type by its declaration over the ids of the types it
/// is made of, with an array's length as its length operand; a struct type
/// by the cache.
pub open spec fn type_decl_id(g: Seq<InstView>, m: Seq<(StructType, u32)>, t: TypeView) -> Option<u32>
    decreases t,
{
    match t {
        TypeView::Void => find_type(g, TypeDecl::Void),
        TypeView::Scalar(s) => find_type(g, scalar_decl(s)),
        TypeView::Vector(v) => vector_decl_id(g, v),
        TypeView::Matrix(mt) => match vector_decl_id(g, mt.vec_ty) {
            Some(c) => find_type(g, TypeDecl::Matrix { column: c, count: mt.n_vec }),
            None => None,
        },
        TypeView::Texture(x) => match find_type(g, scalar_decl(x.scalar_ty)) {
            Some(c) => {
                let o = image_operands(x);
                find_type(g, TypeDecl::Image { sampled: c, dim: o.0, depth: o.1, arrayed: o.2, ms: o.3, is_sampled: o.4, format: o.5 })
            },
            None => None,
        },
        TypeView::Array(e, len) => match type_decl_id(g, m, *e) {
            Some(x) => match len {
                Some(n) => find_type(g, TypeDecl::Array { element: x, length: n as u32 }),
                None => find_type(g, TypeDecl::RuntimeArray { element: x }),
            },
            None => None,
        },
        TypeView::Struct(_, _) => cached_id(m, t),
    }
}

/// A declared type stays declared under the same id as declarations are
/// added.
pub proof fn lemma_type_decl_grow(g1: Seq<InstView>, m1: Seq<(StructType, u32)>, g2: Seq<InstView>, m2: Seq<(StructType, u32)>, t: TypeView)
    requires
        seq_prefix(g1, g2),
        cache_grew(m1, m2),
        type_decl_id(g1, m1, t) is Some,
    ensures
        type_decl_id(g2, m2, t) == type_decl_id(g1, m1, t),
    decreases t,
{
    match t {
        TypeView::Void => lemma_find_prefix(g1, g2, TypeDecl::Void),
        TypeView::Scalar(s) => lemma_find_prefix(g1, g2, scalar_decl(s)),
        TypeView::Vector(v) => {
            lemma_find_prefix(g1, g2, scalar_decl(v.scalar_ty));
            let c = find_type(g1, scalar_decl(v.scalar_ty))->Some_0;
            lemma_find_prefix(g1, g2, TypeDecl::Vector { component: c, count: v.n_scalar });
        },
        TypeView::Matrix(mt) => {
            let v = mt.vec_ty;
            lemma_find_prefix(g1, g2, scalar_decl(v.scalar_ty));
            let c = find_type(g1, scalar_decl(v.scalar_ty))->Some_0;
            lemma_find_prefix(g1, g2, TypeDecl::Vector { component: c, count: v.n_scalar });
            let vc = vector_decl_id(g1, v)->Some_0;
            lemma_find_prefix(g1, g2, TypeDecl::Matrix { column: vc, count: mt.n_vec });
        },
        TypeView::Texture(x) => {
            lemma_find_prefix(g1, g2, scalar_decl(x.scalar_ty));
            let c = find_type(g1, scalar_decl(x.scalar_ty))->Some_0;
            let o = image_operands(x);
            lemma_find_prefix(g1, g2, TypeDecl::Image { sampled: c, dim: o.0, depth: o.1, arrayed: o.2, ms: o.3, is_sampled: o.4, format: o.5 });
        },
        TypeView::Array(e, len) => {
            lemma_type_decl_grow(g1, m1, g2, m2, *e);
            let x = type_decl_id(g1, m1, *e)->Some_0;
            match len {
                Some(n) => lemma_find_prefix(g1, g2, TypeDecl::Array { element: x, length: n as u32 }),
                None => lemma_find_prefix(g1, g2, TypeDecl::RuntimeArray { element: x }),
            }
        },
        TypeView::Struct(_, _) => {},
    }
}

impl RSpirvBuilder {
    /// Type `t` is declared in the module under `r`.
    pub open spec fn declares(self, t: TypeView, r: u32) -> bool {
        type_decl_id(module_view(self.raw).globals, self.struct_map@, t) == Some(r)
    }

    /// The id the shader type of primitive `p` is declared under.
    pub open spec fn prim_ty(self, p: PrimitiveType) -> u32 {
        type_decl_id(module_view(self.raw).globals, self.struct_map@, prim_type_view(p))->Some_0
    }

    /// The id of the pointer type to `t` in the storage class with code
    /// `class`, if it is declared.
    pub open spec fn pointer_decl_id(self, t: TypeView, class: u32) -> Option<u32> {
        match type_decl_id(module_view(self.raw).globals, self.struct_map@, t) {
            Some(x) => find_type(module_view(self.raw).globals, TypeDecl::Pointer { class, pointee: x }),
            None => None,
        }
    }
}

/// What `b` declares, `c` declares under the same id, when `c` keeps `b`.
pub proof fn lemma_declares_kept(b: RSpirvBuilder, c: RSpirvBuilder, t: TypeView, r: u32)
    requires
        b.declares(t, r),
        kept(b, c),
    ensures
        c.declares(t, r),
{
    lemma_type_decl_grow(module_view(b.raw).globals, b.struct_map@, module_view(c.raw).globals, c.struct_map@, t);
}

/// `s` is a prefix of `t`.
pub open spec fn annot_prefix(s: Seq<AnnotView>, t: Seq<AnnotView>) -> bool {
    s.len() <= t.len() && forall|i: int| 0 <= i < s.len() ==> #[trigger] t[i] == s[i]
}

/// Member `j` of struct type `id` is decorated as a struct declaration
/// decorates it: with its offset, and a matrix member with its column
/// stride and as column-major.
pub open spec fn member_decorated(a: Seq<AnnotView>, id: u32, j: int, m: StructMember) -> bool {
    &&& has_annot(a, AnnotView::MemberDecorate { ty: id, member: j as u32, decoration: 35, operands: seq![SpvOperand::Literal(m.offset)] })
    &&& (m.ty is Matrix ==> has_annot(a, AnnotView::MemberDecorate { ty: id, member: j as u32, decoration: 7,
            operands: seq![SpvOperand::Literal(vector_size(m.ty->Matrix_0.vec_ty) as u32)] }))
    &&& (m.ty is Matrix ==> has_annot(a, AnnotView::MemberDecorate { ty: id, member: j as u32, decoration: 5, operands: seq![] }))
}

/// A decorated member stays decorated as decorations are added.
pub proof fn lemma_member_decorated_grow(s: Seq<AnnotView>, t: Seq<AnnotView>, id: u32, j: int, m: StructMember)
    requires
        annot_prefix(s, t),
        member_decorated(s, id, j, m),
    ensures
        member_decorated(t, id, j, m),
{
    let a = AnnotView::MemberDecorate { ty: id, member: j as u32, decoration: 35, operands: seq![SpvOperand::Literal(m.offset)] };
    let k = choose|k: int| 0 <= k < s.len() && s[k] == a;
    assert(t[k] == s[k]);
    if m.ty is Matrix {
        let a7 = AnnotView::MemberDecorate { ty: id, member: j as u32, decoration: 7,
            operands: seq![SpvOperand::Literal(vector_size(m.ty->Matrix_0.vec_ty) as u32)] };
        let k7 = choose|k: int| 0 <= k < s.len() && s[k] == a7;
        assert(t[k7] == s[k7]);
        let a5 = AnnotView::MemberDecorate { ty: id, member: j as u32, decoration: 5, operands: seq![] };
        let k5 = choose|k: int| 0 <= k < s.len() && s[k] == a5;
        assert(t[k5] == s[k5]);
    }
}

/// Storage class codes.
pub open spec fn function_class() -> u32 {
    7
}

/// Replacing the id of a cached struct type keeps the cache well formed,
/// caches the type under the new id and keeps every other cached type.
proof fn lemma_cache_set(m: Seq<(StructType, u32)>, i: int, e: (StructType, u32))
    requires
        cache_wf(m),
        0 <= i < m.len(),
        m[i].0@ == e.0@,
    ensures
        cache_wf(m.update(i, e)),
        cached_id(m.update(i, e), e.0@) == Some(e.1),
        forall|t: TypeView| t != e.0@ ==> #[trigger] cached_id(m.update(i, e), t) == cached_id(m, t),
{
    let m2 = m.update(i, e);
    assert forall|a: int, b: int| 0 <= a < b < m2.len() implies (#[trigger] m2[a]).0@ != (#[trigger] m2[b]).0@ by {
        assert(m[a].0@ != m[b].0@);
    }
    lemma_cached_at(m2, i, e.0@);
    assert forall|t: TypeView| t != e.0@ implies #[trigger] cached_id(m2, t) == cached_id(m, t) by {
        if exists|k: int| 0 <= k < m.len() && (#[trigger] m[k]).0@ == t {
            let k = choose|k: int| 0 <= k < m.len() && (#[trigger] m[k]).0@ == t;
            assert(k != i);
            assert(m2[k] == m[k]);
            lemma_cached_at(m, k, t);
            lemma_cached_at(m2, k, t);
        } else {
            assert forall|k: int| 0 <= k < m2.len() implies (#[trigger] m2[k]).0@ != t by {
                if k != i {
                    assert(m2[k] == m[k]);
                }
            }
        }
    }
}

/// Every matrix in a type has a column stride that fits in `u32`.
pub open spec fn strides_fit(t: TypeView) -> bool
    decreases t,
{
    match t {
        TypeView::Matrix(m) => vector_size(m.vec_ty) <= u32::MAX,
        TypeView::Array(e, _) => strides_fit(*e),
        TypeView::Struct(_, ms) => member_strides_fit(ms),
        _ => true,
    }
}

/// Every matrix in the member types has a column stride that fits in `u32`.
pub open spec fn member_strides_fit(ms: Seq<MemberView>) -> bool
    decreases ms,
{
    if ms.len() == 0 {
        true
    } else {
        member_strides_fit(ms.drop_last()) && strides_fit(ms.last().ty)
    }
}

/// `member_strides_fit` holds of each member.
pub proof fn lemma_member_strides(ms: Seq<MemberView>)
    ensures
        member_strides_fit(ms) <==> forall|i: int| 0 <= i < ms.len() ==> strides_fit(#[trigger] ms[i].ty),
    decreases ms.len(),
{
    if ms.len() > 0 {
        lemma_member_strides(ms.drop_last());
        if forall|i: int| 0 <= i < ms.len() ==> strides_fit(#[trigger] ms[i].ty) {
            assert forall|i: int| 0 <= i < ms.drop_last().len() implies strides_fit(#[trigger] ms.drop_last()[i].ty) by {
                assert(ms.drop_last()[i] == ms[i]);
            }
        }
        if member_strides_fit(ms) {
            assert forall|i: int| 0 <= i < ms.len() implies strides_fit(#[trigger] ms[i].ty) by {
                if i < ms.len() - 1 {
                    assert(ms.drop_last()[i] == ms[i]);
                }
            }
        }
    }
}

/// Whether every matrix in a type has a column stride that fits in `u32`.
pub fn strides_ok(t: &Type) -> (r: bool)
    ensures
        r == strides_fit(t@),
    decreases t,
{
    match t {
        Type::Matrix(m) => {
            let s = m.vec_ty.scalar_ty.size();
            m.vec_ty.n_scalar.checked_mul(s).is_some()
        },
        Type::Array(a) => {
            assert(decreases_to!(t => *a.element_ty));
            strides_ok(&a.element_ty)
        },
        Type::Struct(st) => {
            proof {
                lemma_members_view(st.members@);
                lemma_member_strides(members_view(st.members@));
            }
            let n = st.members.len();
            let mut i: usize = 0;
            while i < n
                invariant
                    n == st.members@.len(),
                    i <= n,
                    t is Struct,
                    t->Struct_0 == *st,
                    members_view(st.members@).len() == n,
                    forall|j: int| 0 <= j < n ==> #[trigger] members_view(st.members@)[j].ty == st.members@[j].ty@,
                    member_strides_fit(members_view(st.members@)) <==> forall|j: int| 0 <= j < n ==> strides_fit(#[trigger] members_view(st.members@)[j].ty),
                    forall|j: int| 0 <= j < i ==> strides_fit(#[trigger] members_view(st.members@)[j].ty),
                decreases n - i,
            {
                assert(decreases_to!(t => st.members@[i as int].ty));
                if !strides_ok(&st.members[i].ty) {
                    assert(!strides_fit(members_view(st.members@)[i as int].ty));
                    assert(t@ == TypeView::Struct(name_view(st.name), members_view(st.members@)));
                    return false;
                }
                i = i + 1;
            }
            true
        },
        _ => true,
    }
}

/// `b` is `a` after declaring struct type `st` as `r`: the builder was kept,
/// `st` is now cached as `r`, and if it was cached before it was as `r`.
pub open spec fn declared_struct(a: RSpirvBuilder, b: RSpirvBuilder, st: StructType, r: u32) -> bool {
    &&& kept(a, b)
    &&& cached_id(b.struct_map@, st@) == Some(r)
    &&& (cached_id(a.struct_map@, st@) is Some ==> cached_id(a.struct_map@, st@) == Some(r))
}

/// A struct type is declared once per module: declaring a struct type of the
/// same view again, after any other declarations in between, gives the id
/// of the first declaration.
pub proof fn law_struct_declared_once(b0: RSpirvBuilder, b1: RSpirvBuilder, b2: RSpirvBuilder, b3: RSpirvBuilder,
    s: StructType, t: StructType, r1: u32, r2: u32)
    requires
        declared_struct(b0, b1, s, r1),
        kept(b1, b2),
        declared_struct(b2, b3, t, r2),
        s@ == t@,
    ensures
        r1 == r2,
{
    assert(cached_id(b2.struct_map@, s@) == Some(r1));
}

impl RSpirvBuilder {
    /// Declares a scalar type: a boolean, an integer of its width and
    /// signedness, or a float of its width.
    pub fn scalar_type(&mut self, s: ScalarType) -> (r: u32)
        requires
            old(self).wf(),
        ensures
            kept(*old(self), *final(self)),
            only_globals(old(self).raw, final(self).raw),
            final(self).struct_map@ == old(self).struct_map@,
            final(self).declares(TypeView::Scalar(s), r),
    {
        match s {
            ScalarType::Bool => type_bool(&mut self.raw),
            ScalarType::Signed(w) => type_int(&mut self.raw, w, 1),
            ScalarType::Unsigned(w) => type_int(&mut self.raw, w, 0),
            ScalarType::Float(w) => type_float(&mut self.raw, w),
        }
    }

    /// Declares a vector type over its declared scalar type.
    pub fn vector_type(&mut self, v: VectorType) -> (r: u32)
        requires
            old(self).wf(),
        ensures
            kept(*old(self), *final(self)),
            only_globals(old(self).raw, final(self).raw),
            final(self).struct_map@ == old(self).struct_map@,
            final(self).declares(TypeView::Vector(v), r),
    {
        let c = self.scalar_type(v.scalar_ty);
        let ghost g1 = module_view(self.raw).globals;
        let r = type_vector(&mut self.raw, c, v.n_scalar);
        proof { lemma_find_prefix(g1, module_view(self.raw).globals, scalar_decl(v.scalar_ty)); }
        r
    }

    /// Declares a matrix type over its declared column type.
    pub fn matrix_type(&mut self, m: MatrixType) -> (r: u32)
        requires
            old(self).wf(),
        ensures
            kept(*old(self), *final(self)),
            only_globals(old(self).raw, final(self).raw),
            final(self).struct_map@ == old(self).struct_map@,
            final(self).declares(TypeView::Matrix(m), r),
    {
        let c = self.vector_type(m.vec_ty);
        let ghost g1 = module_view(self.raw).globals;
        let r = type_matrix(&mut self.raw, c, m.n_vec);
        proof { lemma_type_decl_grow(g1, self.struct_map@, module_view(self.raw).globals, self.struct_map@, TypeView::Vector(m.vec_ty)); }
        r
    }

    /// Declares the image type of a texture, with the operands
    /// `image_operands` gives.
    pub fn texture_type(&mut self, t: TextureType) -> (r: u32)
        requires
            old(self).wf(),
        ensures
            kept(*old(self), *final(self)),
            only_globals(old(self).raw, final(self).raw),
            final(self).struct_map@ == old(self).struct_map@,
            final(self).declares(TypeView::Texture(t), r),
    {
        let c = self.scalar_type(t.scalar_ty);
        let ghost g1 = module_view(self.raw).globals;
        let depth: u32 = match t.format {
            TextureSpvFormat::Depth => 1,
            _ => 0,
        };
        let arrayed: u32 = if t.dimension.arrayed() { 1 } else { 0 };
        let ms: u32 = if t.dimension.ms() { 1 } else { 0 };
        let sampled: u32 = match t.format {
            TextureSpvFormat::Sampled => 1,
            _ => 0,
        };
        let ops = (dim(t.dimension), depth, arrayed, ms, sampled, image_format(t.format));
        assert(ops == image_operands(t));
        let r = type_image(&mut self.raw, c, ops.0, ops.1, ops.2, ops.3, ops.4, ops.5);
        proof { lemma_find_prefix(g1, module_view(self.raw).globals, scalar_decl(t.scalar_ty)); }
        r
    }

    /// Declares an array type: of fixed length when it has one, given as the
    /// length operand, else runtime sized.
    pub fn array_type(&mut self, a: &ArrayType) -> (r: u32)
        requires
            old(self).wf(),
            strides_fit(a@),
        ensures
            kept(*old(self), *final(self)),
            only_globals(old(self).raw, final(self).raw),
            final(self).declares(a@, r),
        decreases a,
    {
        let e = self.type_id(&a.element_ty);
        let ghost g1 = module_view(self.raw).globals;
        let r = match a.length {
            Some(n) => type_array(&mut self.raw, e, n as u32),
            None => type_runtime_array(&mut self.raw, e),
        };
        proof { lemma_type_decl_grow(g1, self.struct_map@, module_view(self.raw).globals, self.struct_map@, (*a.element_ty)@); }
        r
    }

    /// Declares a struct type, once per module: a type declared before gives
    /// the id it was declared under. A new declaration names each named
    /// member and decorates each member with its offset, and a matrix member
    /// with its column stride and column-major layout.
    pub fn struct_type(&mut self, st: &StructType) -> (r: u32)
        requires
            old(self).wf(),
            strides_fit(st@),
        ensures
            declared_struct(*old(self), *final(self), *st, r),
            only_globals(old(self).raw, final(self).raw),
            cached_id(old(self).struct_map@, st@) is Some ==> *final(self) == *old(self),
            cached_id(old(self).struct_map@, st@) is None ==> forall|j: int| 0 <= j < st.members@.len()
                ==> member_decorated(module_view(final(self).raw).annotations, r, j, #[trigger] st.members@[j]),
        decreases st,
    {
        match find_struct(&self.struct_map, st) {
            Some(i) => {
                proof {
                    lemma_cached_at(self.struct_map@, i as int, st@);
                    assert(kept(*old(self), *self));
                }
                self.struct_map[i].1
            },
            None => {
                let ghost s0 = *self;
                proof {
                    lemma_members_view(st.members@);
                    lemma_member_strides(members_view(st.members@));
                    assert forall|j: int| 0 <= j < st.members@.len() implies strides_fit(#[trigger] st.members@[j].ty@) by {
                        assert(members_view(st.members@)[j].ty == st.members@[j].ty@);
                    }
                }
                let mut members: Vec<u32> = Vec::new();
                let n = st.members.len();
                let mut i: usize = 0;
                while i < n
                    invariant
                        n == st.members@.len(),
                        i <= n,
                        kept(s0, *self),
                        only_globals(s0.raw, self.raw),
                        s0 == *old(self),
                        forall|j: int| 0 <= j < s0.struct_map@.len() ==> (#[trigger] s0.struct_map@[j]).0@ != st@,
                        forall|j: int| 0 <= j < n ==> strides_fit(#[trigger] st.members@[j].ty@),
                    decreases n - i,
                {
                    assert(decreases_to!(st => st.members@[i as int].ty));
                    let ghost before = *self;
                    let t = self.type_id(&st.members[i].ty);
                    proof {
                        lemma_kept_trans(s0, before, *self);
                    }
                    members.push(t);
                    i = i + 1;
                }
                let id = type_struct(&mut self.raw, members);
                let mut k: usize = 0;
                while k < n
                    invariant
                        n == st.members@.len(),
                        k <= n,
                        kept(s0, *self),
                        only_globals(s0.raw, self.raw),
                        s0 == *old(self),
                        forall|j: int| 0 <= j < n ==> strides_fit(#[trigger] st.members@[j].ty@),
                        forall|j: int| 0 <= j < s0.struct_map@.len() ==> (#[trigger] s0.struct_map@[j]).0@ != st@,
                        forall|j: int| 0 <= j < k ==> member_decorated(module_view(self.raw).annotations, id, j, #[trigger] st.members@[j]),
                    decreases n - k,
                {
                    let ghost a0 = module_view(self.raw).annotations;
                    let m = &st.members[k];
                    #[verifier::truncate]
                    let idx = k as u32;
                    match &m.name {
                        Some(nm) => member_name(&mut self.raw, id, idx, nm.as_str()),
                        None => {},
                    }
                    let ops = vec![SpvOperand::Literal(m.offset)];
                    assert(ops@ == seq![SpvOperand::Literal(m.offset)]);
                    member_decorate(&mut self.raw, id, idx, 35, ops);
                    let ghost a1 = module_view(self.raw).annotations;
                    let ghost d35 = AnnotView::MemberDecorate { ty: id, member: idx, decoration: 35, operands: seq![SpvOperand::Literal(m.offset)] };
                    assert(a1[a1.len() - 1] == d35);
                    match &m.ty {
                        Type::Matrix(mt) => {
                            assert(strides_fit(st.members@[k as int].ty@));
                            let stride = mt.stride();
                            let ops7 = vec![SpvOperand::Literal(stride)];
                            assert(ops7@ == seq![SpvOperand::Literal(stride)]);
                            member_decorate(&mut self.raw, id, idx, 7, ops7);
                            let ghost a2 = module_view(self.raw).annotations;
                            let ops5: Vec<SpvOperand> = Vec::new();
                            assert(ops5@ == Seq::<SpvOperand>::empty());
                            member_decorate(&mut self.raw, id, idx, 5, ops5);
                            proof {
                                let a3 = module_view(self.raw).annotations;
                                assert(a3[a1.len() - 1] == d35);
                                assert(a3[a2.len() - 1] == AnnotView::MemberDecorate { ty: id, member: idx, decoration: 7, operands: seq![SpvOperand::Literal(stride)] });
                                assert(a3[a3.len() - 1] == AnnotView::MemberDecorate { ty: id, member: idx, decoration: 5, operands: seq![] });
                                assert(seq![SpvOperand::Literal(stride)] == seq![SpvOperand::Literal(vector_size(m.ty->Matrix_0.vec_ty) as u32)]);
                            }
                        },
                        _ => {},
                    }
                    proof {
                        let a = module_view(self.raw).annotations;
                        assert(annot_prefix(a0, a));
                        assert forall|j: int| 0 <= j < k + 1 implies member_decorated(a, id, j, #[trigger] st.members@[j]) by {
                            if j < k {
                                lemma_member_decorated_grow(a0, a, id, j, st.members@[j]);
                            } else {
                                assert(j as u32 == idx);
                                assert(a[a1.len() - 1] == d35);
                            }
                        }
                    }
                    k = k + 1;
                }
                let ghost before_put = *self;
                let copy = st.copy();
                match find_struct(&self.struct_map, st) {
                    Some(j) => {
                        self.struct_map.set(j, (copy, id));
                        proof {
                            lemma_cache_set(before_put.struct_map@, j as int, (copy, id));
                            assert forall|t: TypeView| #[trigger] cached_id(s0.struct_map@, t) is Some implies cached_id(self.struct_map@, t) == cached_id(s0.struct_map@, t) by {
                                assert(cached_id(before_put.struct_map@, t) == cached_id(s0.struct_map@, t));
                                if t == st@ {
                                    let q = choose|q: int| 0 <= q < s0.struct_map@.len() && (#[trigger] s0.struct_map@[q]).0@ == t;
                                    assert(s0.struct_map@[q].0@ != st@);
                                }
                            }
                        }
                    },
                    None => {
                        self.struct_map.push((copy, id));
                        proof {
                            lemma_cache_push(before_put.struct_map@, (copy, id));
                            lemma_kept_trans(s0, before_put, *self);
                        }
                    },
                }
                id
            },
        }
    }

    /// Declares a type.
    pub fn type_id(&mut self, t: &Type) -> (r: u32)
        requires
            old(self).wf(),
            strides_fit(t@),
        ensures
            kept(*old(self), *final(self)),
            only_globals(old(self).raw, final(self).raw),
            t is Struct ==> cached_id(final(self).struct_map@, t@) == Some(r),
            final(self).declares(t@, r),
        decreases t,
    {
        match t {
            Type::Void => type_void(&mut self.raw),
            Type::Scalar(s) => self.scalar_type(*s),
            Type::Vector(v) => self.vector_type(*v),
            Type::Matrix(m) => self.matrix_type(*m),
            Type::Array(a) => self.array_type(a),
            Type::Struct(s) => self.struct_type(s),
            Type::Texture(x) => self.texture_type(*x),
        }
    }
}

/// The bit pattern a scalar constant is declared with.
#[derive(Clone, Copy, PartialEq, Eq, Debug)]
pub enum ConstWord {
    True,
    False,
    Bit32(u32),
    Bit64(u64),
}

/// The bit pattern of a scalar constant: booleans by their own constants,
/// signed integers in two's complement, floats by their IEEE 754 bits.
pub open spec fn scalar_word(v: ScalarVal) -> ConstWord {
    match v {
        ScalarVal::Bool(b) => if b { ConstWord::True } else { ConstWord::False },
        ScalarVal::Int(i) => ConstWord::Bit32(i as u32),
        ScalarVal::UInt(u) => ConstWord::Bit32(u),
        ScalarVal::Float(f) => ConstWord::Bit32(f),
        ScalarVal::Double(d) => ConstWord::Bit64(d),
    }
}

/// The bit pattern a scalar constant is declared with.
pub fn scalar_const_word(v: ScalarVal) -> (r: ConstWord)
    ensures
        r == scalar_word(v),
{
    match v {
        ScalarVal::Bool(b) => if b { ConstWord::True } else { ConstWord::False },
        ScalarVal::Int(i) => ConstWord::Bit32(i as u32),
        ScalarVal::UInt(u) => ConstWord::Bit32(u),
        ScalarVal::Float(f) => ConstWord::Bit32(f),
        ScalarVal::Double(d) => ConstWord::Bit64(d),
    }
}

/// The constant instruction of bit pattern `w`, of type `ty`, as `r`.
pub open spec fn word_inst(w: ConstWord, ty: u32, r: u32) -> InstView {
    match w {
        ConstWord::True => InstView::ConstantTrue { ty, res: r },
        ConstWord::False => InstView::ConstantFalse { ty, res: r },
        ConstWord::Bit32(v) => InstView::Constant32 { ty, res: r, value: v },
        ConstWord::Bit64(v) => InstView::Constant64 { ty, res: r, value: v },
    }
}

impl RSpirvBuilder {
    /// Scalar constant `v` is declared as `r`: a constant of its bit pattern
    /// and its declared scalar type.
    pub open spec fn declares_scalar(self, v: ScalarVal, r: u32) -> bool {
        let g = module_view(self.raw).globals;
        match find_type(g, scalar_decl(scalar_val_ty(v))) {
            Some(ty) => has_inst(g, word_inst(scalar_word(v), ty, r)),
            None => false,
        }
    }

    /// Vector constant `v` is declared as `r`: a composite constant of its
    /// declared vector type over constants declared for its components.
    pub open spec fn declares_vector(self, v: VectorVal, r: u32) -> bool {
        let g = module_view(self.raw).globals;
        let comps = vector_val_components(v);
        match vector_decl_id(g, vector_val_ty(v)) {
            Some(ty) => exists|parts: Seq<u32>| #[trigger] has_inst(g, InstView::ConstantComposite { ty, res: r, parts })
                && parts.len() == comps.len()
                && forall|j: int| 0 <= j < comps.len() ==> self.declares_scalar(comps[j], #[trigger] parts[j]),
            None => false,
        }
    }

    /// Matrix constant `v` is declared as `r`: a composite constant of its
    /// declared matrix type over constants declared for its columns.
    pub open spec fn declares_matrix(self, v: MatrixVal, r: u32) -> bool {
        let g = module_view(self.raw).globals;
        let cols = matrix_val_columns(v);
        match type_decl_id(g, self.struct_map@, TypeView::Matrix(matrix_val_ty(v))) {
            Some(ty) => exists|parts: Seq<u32>| #[trigger] has_inst(g, InstView::ConstantComposite { ty, res: r, parts })
                && parts.len() == cols.len()
                && forall|j: int| 0 <= j < cols.len() ==> self.declares_vector(cols[j], #[trigger] parts[j]),
            None => false,
        }
    }
}

/// A declared scalar constant stays declared.
pub proof fn lemma_scalar_kept(b: RSpirvBuilder, c: RSpirvBuilder, v: ScalarVal, r: u32)
    requires
        b.declares_scalar(v, r),
        decls_kept(b, c),
    ensures
        c.declares_scalar(v, r),
{
    let g1 = module_view(b.raw).globals;
    let g2 = module_view(c.raw).globals;
    lemma_find_prefix(g1, g2, scalar_decl(scalar_val_ty(v)));
    let ty = find_type(g1, scalar_decl(scalar_val_ty(v)))->Some_0;
    lemma_has_prefix(g1, g2, word_inst(scalar_word(v), ty, r));
}

/// A declared vector constant stays declared.
pub proof fn lemma_vector_kept(b: RSpirvBuilder, c: RSpirvBuilder, v: VectorVal, r: u32)
    requires
        b.declares_vector(v, r),
        decls_kept(b, c),
    ensures
        c.declares_vector(v, r),
{
    let g1 = module_view(b.raw).globals;
    let g2 = module_view(c.raw).globals;
    lemma_type_decl_grow(g1, b.struct_map@, g2, c.struct_map@, TypeView::Vector(vector_val_ty(v)));
    let ty = vector_decl_id(g1, vector_val_ty(v))->Some_0;
    let comps = vector_val_components(v);
    let parts = choose|parts: Seq<u32>| #[trigger] has_inst(g1, InstView::ConstantComposite { ty, res: r, parts })
        && parts.len() == comps.len()
        && forall|j: int| 0 <= j < comps.len() ==> b.declares_scalar(comps[j], #[trigger] parts[j]);
    lemma_has_prefix(g1, g2, InstView::ConstantComposite { ty, res: r, parts });
    assert forall|j: int| 0 <= j < comps.len() implies c.declares_scalar(comps[j], #[trigger] parts[j]) by {
        lemma_scalar_kept(b, c, comps[j], parts[j]);
    }
}

/// A declared matrix constant stays declared.
pub proof fn lemma_matrix_kept(b: RSpirvBuilder, c: RSpirvBuilder, v: MatrixVal, r: u32)
    requires
        b.declares_matrix(v, r),
        decls_kept(b, c),
    ensures
        c.declares_matrix(v, r),
{
    let g1 = module_view(b.raw).globals;
    let g2 = module_view(c.raw).globals;
    lemma_type_decl_grow(g1, b.struct_map@, g2, c.struct_map@, TypeView::Matrix(matrix_val_ty(v)));
    let ty = type_decl_id(g1, b.struct_map@, TypeView::Matrix(matrix_val_ty(v)))->Some_0;
    let cols = matrix_val_columns(v);
    let parts = choose|parts: Seq<u32>| #[trigger] has_inst(g1, InstView::ConstantComposite { ty, res: r, parts })
        && parts.len() == cols.len()
        && forall|j: int| 0 <= j < cols.len() ==> b.declares_vector(cols[j], #[trigger] parts[j]);
    lemma_has_prefix(g1, g2, InstView::ConstantComposite { ty, res: r, parts });
    assert forall|j: int| 0 <= j < cols.len() implies c.declares_vector(cols[j], #[trigger] parts[j]) by {
        lemma_vector_kept(b, c, cols[j], parts[j]);
    }
}

impl RSpirvBuilder {
    /// Constant `v` is declared as `r`.
    pub open spec fn declares_val(self, v: Val, r: u32) -> bool {
        match v {
            Val::Scalar(x) => self.declares_scalar(x, r),
            Val::Vector(x) => self.declares_vector(x, r),
            Val::Matrix(x) => self.declares_matrix(x, r),
        }
    }
}

/// A declared constant stays declared.
pub proof fn lemma_val_kept(b: RSpirvBuilder, c: RSpirvBuilder, v: Val, r: u32)
    requires
        b.declares_val(v, r),
        decls_kept(b, c),
    ensures
        c.declares_val(v, r),
{
    match v {
        Val::Scalar(x) => lemma_scalar_kept(b, c, x, r),
        Val::Vector(x) => lemma_vector_kept(b, c, x, r),
        Val::Matrix(x) => lemma_matrix_kept(b, c, x, r),
    }
}

impl RSpirvBuilder {
    /// Declares a pointer type to `t` in the storage class with the given
    /// code.
    pub fn pointer(&mut self, t: &Type, class: u32) -> (r: u32)
        requires
            old(self).wf(),
            strides_fit(t@),
            class <= 12,
        ensures
            kept(*old(self), *final(self)),
            only_globals(old(self).raw, final(self).raw),
            final(self).pointer_decl_id(t@, class) == Some(r),
    {
        let pointee = self.type_id(t);
        let ghost b1 = *self;
        let r = type_pointer(&mut self.raw, class, pointee);
        proof { lemma_declares_kept(b1, *self, t@, pointee); }
        r
    }

    /// Declares a scalar constant: its type, then the constant of the bit
    /// pattern `scalar_word` gives.
    pub fn scalar_const(&mut self, v: ScalarVal) -> (r: u32)
        requires
            old(self).wf(),
        ensures
            kept(*old(self), *final(self)),
            only_globals(old(self).raw, final(self).raw),
            final(self).struct_map@ == old(self).struct_map@,
            final(self).declares_scalar(v, r),
    {
        let ty = self.scalar_type(v.scalar_ty());
        let ghost g1 = module_view(self.raw).globals;
        let r = match scalar_const_word(v) {
            ConstWord::True => constant_true(&mut self.raw, ty),
            ConstWord::False => constant_false(&mut self.raw, ty),
            ConstWord::Bit32(w) => constant_bit32(&mut self.raw, ty, w),
            ConstWord::Bit64(w) => constant_bit64(&mut self.raw, ty, w),
        };
        proof {
            let g2 = module_view(self.raw).globals;
            lemma_find_prefix(g1, g2, scalar_decl(scalar_val_ty(v)));
            assert(g2[g2.len() - 1] == word_inst(scalar_word(v), ty, r));
        }
        r
    }

    /// Declares a vector constant: its type, then its components in order,
    /// then the composite of them.
    pub fn vector_const(&mut self, v: VectorVal) -> (r: u32)
        requires
            old(self).wf(),
        ensures
            kept(*old(self), *final(self)),
            only_globals(old(self).raw, final(self).raw),
            final(self).struct_map@ == old(self).struct_map@,
            final(self).declares_vector(v, r),
    {
        let ty = self.vector_type(v.vector_ty());
        let comps = v.components();
        let mut parts: Vec<u32> = Vec::new();
        let mut i: usize = 0;
        while i < comps.len()
            invariant
                i <= comps@.len(),
                comps@ == vector_val_components(v),
                kept(*old(self), *self),
                only_globals(old(self).raw, self.raw),
                self.struct_map@ == old(self).struct_map@,
                parts@.len() == i,
                self.declares(TypeView::Vector(vector_val_ty(v)), ty),
                forall|j: int| 0 <= j < i ==> self.declares_scalar(comps@[j], #[trigger] parts@[j]),
            decreases comps@.len() - i,
        {
            let ghost bi = *self;
            let c = self.scalar_const(comps[i]);
            proof {
                lemma_declares_kept(bi, *self, TypeView::Vector(vector_val_ty(v)), ty);
                assert forall|j: int| 0 <= j < i implies self.declares_scalar(comps@[j], #[trigger] parts@[j]) by {
                    lemma_scalar_kept(bi, *self, comps@[j], parts@[j]);
                }
            }
            parts.push(c);
            i = i + 1;
        }
        let ghost bp = *self;
        let ghost ps = parts@;
        let r = constant_composite(&mut self.raw, ty, parts);
        proof {
            lemma_declares_kept(bp, *self, TypeView::Vector(vector_val_ty(v)), ty);
            assert forall|j: int| 0 <= j < comps@.len() implies self.declares_scalar(comps@[j], #[trigger] ps[j]) by {
                lemma_scalar_kept(bp, *self, comps@[j], ps[j]);
            }
            let g = module_view(self.raw).globals;
            assert(g[g.len() - 1] == InstView::ConstantComposite { ty, res: r, parts: ps });
            assert(has_inst(g, InstView::ConstantComposite { ty, res: r, parts: ps }));
        }
        r
    }

    /// Declares a matrix constant: its type, then its columns in order, then
    /// the composite of them.
    pub fn matrix_const(&mut self, v: MatrixVal) -> (r: u32)
        requires
            old(self).wf(),
        ensures
            kept(*old(self), *final(self)),
            only_globals(old(self).raw, final(self).raw),
            final(self).struct_map@ == old(self).struct_map@,
            final(self).declares_matrix(v, r),
    {
        let ty = self.matrix_type(v.matrix_ty());
        let cols = v.columns();
        let mut parts: Vec<u32> = Vec::new();
        let mut i: usize = 0;
        while i < cols.len()
            invariant
                i <= cols@.len(),
                cols@ == matrix_val_columns(v),
                kept(*old(self), *self),
                only_globals(old(self).raw, self.raw),
                self.struct_map@ == old(self).struct_map@,
                parts@.len() == i,
                self.declares(TypeView::Matrix(matrix_val_ty(v)), ty),
                forall|j: int| 0 <= j < i ==> self.declares_vector(cols@[j], #[trigger] parts@[j]),
            decreases cols@.len() - i,
        {
            let ghost bi = *self;
            let c = self.vector_const(cols[i]);
            proof {
                lemma_declares_kept(bi, *self, TypeView::Matrix(matrix_val_ty(v)), ty);
                assert forall|j: int| 0 <= j < i implies self.declares_vector(cols@[j], #[trigger] parts@[j]) by {
                    lemma_vector_kept(bi, *self, cols@[j], parts@[j]);
                }
            }
            parts.push(c);
            i = i + 1;
        }
        let ghost bp = *self;
        let ghost ps = parts@;
        let r = constant_composite(&mut self.raw, ty, parts);
        proof {
            lemma_declares_kept(bp, *self, TypeView::Matrix(matrix_val_ty(v)), ty);
            assert forall|j: int| 0 <= j < cols@.len() implies self.declares_vector(cols@[j], #[trigger] ps[j]) by {
                lemma_vector_kept(bp, *self, cols@[j], ps[j]);
            }
            let g = module_view(self.raw).globals;
            assert(g[g.len() - 1] == InstView::ConstantComposite { ty, res: r, parts: ps });
            assert(has_inst(g, InstView::ConstantComposite { ty, res: r, parts: ps }));
        }
        r
    }

    /// Declares a constant.
    pub fn val_const(&mut self, v: Val) -> (r: u32)
        requires
            old(self).wf(),
        ensures
            kept(*old(self), *final(self)),
            only_globals(old(self).raw, final(self).raw),
            final(self).struct_map@ == old(self).struct_map@,
            match v {
                Val::Scalar(x) => final(self).declares_scalar(x, r),
                Val::Vector(x) => final(self).declares_vector(x, r),
                Val::Matrix(x) => final(self).declares_matrix(x, r),
            },
    {
        match v {
            Val::Scalar(x) => self.scalar_const(x),
            Val::Vector(x) => self.vector_const(x),
            Val::Matrix(x) => self.matrix_const(x),
        }
    }

    /// Declares the unsigned 32-bit constant `n`, used as an index.
    pub fn index_const(&mut self, n: u32) -> (r: u32)
        requires
            old(self).wf(),
        ensures
            kept(*old(self), *final(self)),
            only_globals(old(self).raw, final(self).raw),
            final(self).struct_map@ == old(self).struct_map@,
            final(self).declares_scalar(ScalarVal::UInt(n), r),
    {
        self.scalar_const(ScalarVal::UInt(n))
    }
}

/// The shader type of every primitive can be declared.
pub proof fn lemma_prim_strides(p: PrimitiveType)
    ensures
        strides_fit(prim_type_view(p)),
{
    if crate::prim::prim_is_matrix(p) {
        let d = crate::prim::prim_dim(p);
        assert(2 <= d <= 4);
        let s = if p is DMat2 || p is DMat3 || p is DMat4 { ScalarType::Float(64) } else { ScalarType::Float(32) };
        assert(crate::types::scalar_size(s) <= 8);
        assert(prim_type_view(p) == TypeView::Matrix(MatrixType {
            vec_ty: VectorType { scalar_ty: s, n_scalar: d as u32 },
            n_vec: d as u32,
        }));
        assert(vector_size(VectorType { scalar_ty: s, n_scalar: d as u32 }) <= 32) by (nonlinear_arith)
            requires
                crate::types::scalar_size(s) <= 8,
                crate::types::scalar_size(s) >= 0,
                2 <= d <= 4,
                vector_size(VectorType { scalar_ty: s, n_scalar: d as u32 }) == (d as u32) * crate::types::scalar_size(s),
                (d as u32) == d,
        ;
    }
}

/// The bit pattern of a scalar primitive constant, as `scalar_word` gives
/// it for the scalar of the same value.
pub open spec fn prim_word(v: PrimitiveVal) -> ConstWord {
    match v {
        PrimitiveVal::Bool(b) => if b { ConstWord::True } else { ConstWord::False },
        PrimitiveVal::Int(i) => ConstWord::Bit32(i as u32),
        PrimitiveVal::UInt(u) => ConstWord::Bit32(u),
        PrimitiveVal::Float(f) => ConstWord::Bit32(f),
        PrimitiveVal::Double(d) => ConstWord::Bit64(d),
        _ => ConstWord::False,
    }
}

/// Among `g` is a composite constant of type `ty` as `c`, of `n`
/// constituents.
pub open spec fn has_composite(g: Seq<InstView>, ty: u32, c: u32, n: nat) -> bool {
    exists|parts: Seq<u32>| #[trigger] has_inst(g, InstView::ConstantComposite { ty, res: c, parts }) && parts.len() == n
}

impl RSpirvBuilder {
    /// Primitive constant `v` is declared as `c` of type `ty`: `ty` is the
    /// declared shader type of the primitive the constant converts to; a
    /// scalar is a constant of its bit pattern, a vector or matrix a
    /// composite constant of as many constituents as it has parts.
    pub open spec fn declares_prim(self, v: PrimitiveVal, c: u32, ty: u32) -> bool {
        let g = module_view(self.raw).globals;
        &&& self.declares(prim_type_view(prim_val_ty(v)), ty)
        &&& if prim_val_parts(v).len() == 0 {
            has_inst(g, word_inst(prim_word(v), ty, c))
        } else {
            has_composite(g, ty, c, prim_val_parts(v).len())
        }
    }

    /// Data type `d` is declared as `r`: a primitive as its shader type, an
    /// array as the array type of its element's type with its length as the
    /// length operand, a struct as a struct type whose members are the
    /// declared types of its fields, in order.
    pub open spec fn declares_data(self, d: DataType, r: u32) -> bool
        decreases d,
    {
        let g = module_view(self.raw).globals;
        match d {
            DataType::Primitive(p) => self.declares(prim_type_view(p), r),
            DataType::Array(p, n) => match type_decl_id(g, self.struct_map@, prim_type_view(p)) {
                Some(e) => find_type(g, TypeDecl::Array { element: e, length: n as u32 }) == Some(r),
                None => false,
            },
            DataType::Struct(s) => exists|ids: Seq<u32>| #[trigger] find_type(g, TypeDecl::Struct { members: ids }) == Some(r)
                && ids.len() == s.fields@.len()
                && forall|j: int| 0 <= j < s.fields@.len() ==> self.declares_data(#[trigger] s.fields@[j], ids[j]),
        }
    }
}

/// A declared data type stays declared.
pub proof fn lemma_data_kept(b: RSpirvBuilder, c: RSpirvBuilder, d: DataType, r: u32)
    requires
        b.declares_data(d, r),
        decls_kept(b, c),
    ensures
        c.declares_data(d, r),
    decreases d,
{
    let g1 = module_view(b.raw).globals;
    let g2 = module_view(c.raw).globals;
    match d {
        DataType::Primitive(p) => lemma_type_decl_grow(g1, b.struct_map@, g2, c.struct_map@, prim_type_view(p)),
        DataType::Array(p, n) => {
            lemma_type_decl_grow(g1, b.struct_map@, g2, c.struct_map@, prim_type_view(p));
            let e = type_decl_id(g1, b.struct_map@, prim_type_view(p))->Some_0;
            lemma_find_prefix(g1, g2, TypeDecl::Array { element: e, length: n as u32 });
        },
        DataType::Struct(s) => {
            let ids = choose|ids: Seq<u32>| #[trigger] find_type(g1, TypeDecl::Struct { members: ids }) == Some(r)
                && ids.len() == s.fields@.len()
                && forall|j: int| 0 <= j < s.fields@.len() ==> b.declares_data(#[trigger] s.fields@[j], ids[j]);
            lemma_find_prefix(g1, g2, TypeDecl::Struct { members: ids });
            assert forall|j: int| 0 <= j < s.fields@.len() implies c.declares_data(#[trigger] s.fields@[j], ids[j]) by {
                assert(decreases_to!(d => s.fields@[j]));
                lemma_data_kept(b, c, s.fields@[j], ids[j]);
            }
        },
    }
}

/// A data type is declared under one id at most.
pub proof fn lemma_data_unique(b: RSpirvBuilder, d: DataType, x: u32, y: u32)
    requires
        b.declares_data(d, x),
        b.declares_data(d, y),
    ensures
        x == y,
    decreases d,
{
    let g = module_view(b.raw).globals;
    match d {
        DataType::Primitive(p) => {},
        DataType::Array(p, n) => {},
        DataType::Struct(s) => {
            let i1 = choose|ids: Seq<u32>| #[trigger] find_type(g, TypeDecl::Struct { members: ids }) == Some(x)
                && ids.len() == s.fields@.len()
                && forall|j: int| 0 <= j < s.fields@.len() ==> b.declares_data(#[trigger] s.fields@[j], ids[j]);
            let i2 = choose|ids: Seq<u32>| #[trigger] find_type(g, TypeDecl::Struct { members: ids }) == Some(y)
                && ids.len() == s.fields@.len()
                && forall|j: int| 0 <= j < s.fields@.len() ==> b.declares_data(#[trigger] s.fields@[j], ids[j]);
            assert forall|j: int| 0 <= j < i1.len() implies i1[j] == i2[j] by {
                assert(decreases_to!(d => s.fields@[j]));
                lemma_data_unique(b, s.fields@[j], i1[j], i2[j]);
            }
            assert(i1 =~= i2);
        },
    }
}

/// A data type is declared once per module: declaring it again, after any
/// other declarations, gives the id of the first declaration, as identical
/// types are declared once.
pub proof fn law_data_declared_once(b1: RSpirvBuilder, b2: RSpirvBuilder, d: DataType, r1: u32, r2: u32)
    requires
        b1.declares_data(d, r1),
        decls_kept(b1, b2),
        b2.declares_data(d, r2),
    ensures
        r1 == r2,
{
    lemma_data_kept(b1, b2, d, r1);
    lemma_data_unique(b2, d, r1, r2);
}

impl RSpirvBuilder {
    /// Declares the shader type of a primitive.
    pub fn prim_type_id(&mut self, p: PrimitiveType) -> (r: u32)
        requires
            old(self).wf(),
        ensures
            kept(*old(self), *final(self)),
            only_globals(old(self).raw, final(self).raw),
            final(self).declares(prim_type_view(p), r),
    {
        let t = p.to_type();
        proof { lemma_prim_strides(p); }
        self.type_id(&t)
    }

    /// Declares the `Function` class pointer type to a primitive.
    pub fn prim_pointer(&mut self, p: PrimitiveType) -> (r: u32)
        requires
            old(self).wf(),
        ensures
            kept(*old(self), *final(self)),
            only_globals(old(self).raw, final(self).raw),
            final(self).pointer_decl_id(prim_type_view(p), 7) == Some(r),
    {
        let t = self.prim_type_id(p);
        let ghost b1 = *self;
        let r = type_pointer(&mut self.raw, 7, t);
        proof { lemma_declares_kept(b1, *self, prim_type_view(p), t); }
        r
    }

    /// Declares a primitive constant and returns it with its type: a scalar
    /// as its type and then its bit pattern; a vector or matrix as its
    /// components or columns in order, then the type of the primitive the
    /// conversion from the constant gives, then the composite.
    pub fn prim_const(&mut self, v: PrimitiveVal) -> (r: (u32, u32))
        requires
            old(self).wf(),
        ensures
            kept(*old(self), *final(self)),
            only_globals(old(self).raw, final(self).raw),
            final(self).declares_prim(v, r.0, r.1),
        decreases prim_val_rank(v),
    {
        proof {
            lemma_parts_rank(v);
        }
        let parts = v.parts();
        if parts.len() == 0 {
            let ty = self.prim_type_id(PrimitiveType::from_val(&v));
            let ghost b1 = *self;
            let c = match v {
                PrimitiveVal::Bool(b) => if b { constant_true(&mut self.raw, ty) } else { constant_false(&mut self.raw, ty) },
                PrimitiveVal::Int(i) => constant_bit32(&mut self.raw, ty, i as u32),
                PrimitiveVal::UInt(u) => constant_bit32(&mut self.raw, ty, u),
                PrimitiveVal::Float(f) => constant_bit32(&mut self.raw, ty, f),
                PrimitiveVal::Double(d) => constant_bit64(&mut self.raw, ty, d),
                _ => constant_false(&mut self.raw, ty),
            };
            proof {
                lemma_declares_kept(b1, *self, prim_type_view(prim_val_ty(v)), ty);
                let g = module_view(self.raw).globals;
                assert(g[g.len() - 1] == word_inst(prim_word(v), ty, c));
            }
            (c, ty)
        } else {
            let ghost b0 = *self;
            let mut ids: Vec<u32> = Vec::new();
            let mut i: usize = 0;
            while i < parts.len()
                invariant
                    i <= parts@.len(),
                    parts@ == prim_val_parts(v),
                    forall|k: int| 0 <= k < parts@.len() ==> prim_val_rank(#[trigger] parts@[k]) < prim_val_rank(v),
                    kept(b0, *self),
                    only_globals(b0.raw, self.raw),
                    b0 == *old(self),
                    ids@.len() == i,
                decreases parts@.len() - i,
            {
                let ghost bi = *self;
                let c = self.prim_const(parts[i]);
                proof { lemma_kept_trans(b0, bi, *self); }
                ids.push(c.0);
                i = i + 1;
            }
            let ghost bt = *self;
            let ty = self.prim_type_id(PrimitiveType::from_val(&v));
            proof { lemma_kept_trans(b0, bt, *self); }
            let ghost b1 = *self;
            let ghost ps = ids@;
            let c = constant_composite(&mut self.raw, ty, ids);
            proof {
                lemma_declares_kept(b1, *self, prim_type_view(prim_val_ty(v)), ty);
                let g = module_view(self.raw).globals;
                assert(g[g.len() - 1] == InstView::ConstantComposite { ty, res: c, parts: ps });
                assert(has_inst(g, InstView::ConstantComposite { ty, res: c, parts: ps }));
            }
            (c, ty)
        }
    }

    /// Declares a data type: a primitive as its shader type, an array as the
    /// array type of its element with its length as the length operand, a
    /// struct as the struct type of its fields' types in order. An identical
    /// type declared before keeps its id (`law_data_declared_once`).
    pub fn data_type_id(&mut self, d: &DataType) -> (r: u32)
        requires
            old(self).wf(),
        ensures
            kept(*old(self), *final(self)),
            only_globals(old(self).raw, final(self).raw),
            final(self).declares_data(*d, r),
        decreases d,
    {
        match d {
            DataType::Primitive(p) => self.prim_type_id(*p),
            DataType::Array(p, n) => {
                let e = self.prim_type_id(*p);
                #[verifier::truncate]
                let len = *n as u32;
                let ghost b1 = *self;
                let r = type_array(&mut self.raw, e, len);
                proof { lemma_declares_kept(b1, *self, prim_type_view(*p), e); }
                r
            },
            DataType::Struct(s) => {
                let ghost b0 = *self;
                let mut ids: Vec<u32> = Vec::new();
                let mut i: usize = 0;
                while i < s.fields.len()
                    invariant
                        i <= s.fields@.len(),
                        kept(b0, *self),
                        only_globals(b0.raw, self.raw),
                        b0 == *old(self),
                        *d is Struct,
                        d->Struct_0 == *s,
                        ids@.len() == i,
                        forall|j: int| 0 <= j < i ==> self.declares_data(#[trigger] s.fields@[j], ids@[j]),
                    decreases s.fields@.len() - i,
                {
                    assert(decreases_to!(d => s.fields@[i as int]));
                    let ghost bi = *self;
                    let ghost i0 = ids@;
                    let t = self.data_type_id(&s.fields[i]);
                    proof {
                        lemma_kept_trans(b0, bi, *self);
                        assert forall|j: int| 0 <= j < i implies self.declares_data(#[trigger] s.fields@[j], i0[j]) by {
                            lemma_data_kept(bi, *self, s.fields@[j], i0[j]);
                        }
                    }
                    ids.push(t);
                    proof {
                        assert forall|j: int| 0 <= j < i + 1 implies self.declares_data(#[trigger] s.fields@[j], ids@[j]) by {
                            if j < i {
                                assert(ids@[j] == i0[j]);
                            }
                        }
                    }
                    i = i + 1;
                }
                let ghost ms = ids@;
                let ghost bp = *self;
                let r = type_struct(&mut self.raw, ids);
                proof {
                    assert(find_type(module_view(self.raw).globals, TypeDecl::Struct { members: ms }) == Some(r));
                    assert forall|j: int| 0 <= j < s.fields@.len() implies self.declares_data(#[trigger] s.fields@[j], ms[j]) by {
                        lemma_data_kept(bp, *self, s.fields@[j], ms[j]);
                    }
                }
                r
            },
        }
    }

    /// Declares the `Function` class pointer type to a data type.
    pub fn data_pointer(&mut self, d: &DataType) -> (r: u32)
        requires
            old(self).wf(),
        ensures
            kept(*old(self), *final(self)),
            only_globals(old(self).raw, final(self).raw),
    {
        let t = self.data_type_id(d);
        type_pointer(&mut self.raw, 7, t)
    }
}

} // verus!
