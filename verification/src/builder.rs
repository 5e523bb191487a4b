//! The recording half of shader building: declarations of a module's
//! interface and resources, and the instruction lists of its functions.
//!
//! [`BuilderInner`] is a state machine. Outside any function it accepts
//! declarations; between [`BuilderInner::begin_func`] and
//! [`BuilderInner::end_func`] it records instructions into the open scope,
//! handing out fresh variable numbers as it goes.

use vstd::prelude::*;

use crate::io::{io_type, IOType};
use crate::ir::{
    CmpType, IfElse, Instruction, OpCmp, OpComposite, OpConvert, OpElse, OpExtract, OpIf, OpLhs,
    OpLhsRhs, OpLhsRhsType, OpLhsType, OpLoadStore, OpLoadStoreData, OpSetConst, OpVectorShuffle,
};
use crate::scope::{FuncScope, IfScope, Scope};
use crate::ir::{OpCombine, OpFuncCall, OpSample, SampledTextureRef};
use crate::types::{type_size, name_view, ArrayType, StructMember, StructType, TextureType, Type, TypeView, Val, VectorType};

verus! {

/// A shader stage a function can be the entry point of.
#[derive(Clone, Copy, PartialEq, Eq, Structural, Hash, Debug)]
pub enum ShaderStage {
    Vertex,
    TessellationEval,
    TessellationControl,
    Geometry,
    Fragment,
    Compute,
}

/// The SPIR-V execution model of a stage.
pub open spec fn stage_model(s: ShaderStage) -> u32 {
    match s {
        ShaderStage::Vertex => 0,
        ShaderStage::TessellationControl => 1,
        ShaderStage::TessellationEval => 2,
        ShaderStage::Geometry => 3,
        ShaderStage::Fragment => 4,
        ShaderStage::Compute => 5,
    }
}

impl ShaderStage {
    /// The SPIR-V execution model code of this stage.
    pub fn model(&self) -> (r: u32)
        ensures
            r == stage_model(*self),
    {
        match self {
            ShaderStage::Vertex => 0,
            ShaderStage::TessellationControl => 1,
            ShaderStage::TessellationEval => 2,
            ShaderStage::Geometry => 3,
            ShaderStage::Fragment => 4,
            ShaderStage::Compute => 5,
        }
    }
}

/// A built-in variable of the shader interface.
#[derive(Clone, Copy, PartialEq, Eq, Structural, Hash, Debug)]
pub enum BuiltIn {
    VertexId,
    InstanceIndex,
    DrawIndex,
    BaseVertex,
    PatchVertices,
    PrimitiveId,
    InvocationId,
    TessCoord,
    FragCoord,
    PointCoord,
    Layer,
    NumWorkgroups,
    WorkgroupId,
    LocalInvocationId,
    GlobalInvocationId,
    LocalInvocationIndex,
    Position,
    PointSize,
    FragDepth,
}

/// The SPIR-V code of a built-in variable.
pub open spec fn builtin_code(b: BuiltIn) -> u32 {
    match b {
        BuiltIn::VertexId => 5,
        BuiltIn::InstanceIndex => 43,
        BuiltIn::DrawIndex => 4426,
        BuiltIn::BaseVertex => 4424,
        BuiltIn::PatchVertices => 14,
        BuiltIn::PrimitiveId => 7,
        BuiltIn::InvocationId => 8,
        BuiltIn::TessCoord => 13,
        BuiltIn::FragCoord => 15,
        BuiltIn::PointCoord => 16,
        BuiltIn::Layer => 9,
        BuiltIn::NumWorkgroups => 24,
        BuiltIn::WorkgroupId => 26,
        BuiltIn::LocalInvocationId => 27,
        BuiltIn::GlobalInvocationId => 28,
        BuiltIn::LocalInvocationIndex => 29,
        BuiltIn::Position => 0,
        BuiltIn::PointSize => 1,
        BuiltIn::FragDepth => 22,
    }
}

/// Each built-in variable and each shader stage has a code of its own.
pub proof fn law_codes_distinct(a: BuiltIn, b: BuiltIn, s: ShaderStage, t: ShaderStage)
    ensures
        a != b ==> builtin_code(a) != builtin_code(b),
        s != t ==> stage_model(s) != stage_model(t),
{
}

/// The type a built-in variable is read or written as.
pub open spec fn builtin_io_type(b: BuiltIn) -> IOType {
    match b {
        BuiltIn::TessCoord => IOType::Vec3,
        BuiltIn::FragCoord | BuiltIn::Position => IOType::Vec4,
        BuiltIn::PointCoord => IOType::Vec2,
        BuiltIn::NumWorkgroups | BuiltIn::WorkgroupId | BuiltIn::LocalInvocationId
        | BuiltIn::GlobalInvocationId => IOType::UVec3,
        BuiltIn::LocalInvocationIndex => IOType::UInt,
        BuiltIn::PointSize | BuiltIn::FragDepth => IOType::Float,
        _ => IOType::Int,
    }
}

impl BuiltIn {
    /// The SPIR-V code of this built-in.
    pub fn code(&self) -> (r: u32)
        ensures
            r == builtin_code(*self),
    {
        match self {
            BuiltIn::VertexId => 5,
            BuiltIn::InstanceIndex => 43,
            BuiltIn::DrawIndex => 4426,
            BuiltIn::BaseVertex => 4424,
            BuiltIn::PatchVertices => 14,
            BuiltIn::PrimitiveId => 7,
            BuiltIn::InvocationId => 8,
            BuiltIn::TessCoord => 13,
            BuiltIn::FragCoord => 15,
            BuiltIn::PointCoord => 16,
            BuiltIn::Layer => 9,
            BuiltIn::NumWorkgroups => 24,
            BuiltIn::WorkgroupId => 26,
            BuiltIn::LocalInvocationId => 27,
            BuiltIn::GlobalInvocationId => 28,
            BuiltIn::LocalInvocationIndex => 29,
            BuiltIn::Position => 0,
            BuiltIn::PointSize => 1,
            BuiltIn::FragDepth => 22,
        }
    }

    /// The type this built-in is read or written as.
    pub fn io_type(&self) -> (r: IOType)
        ensures
            r == builtin_io_type(*self),
    {
        match self {
            BuiltIn::TessCoord => IOType::Vec3,
            BuiltIn::FragCoord | BuiltIn::Position => IOType::Vec4,
            BuiltIn::PointCoord => IOType::Vec2,
            BuiltIn::NumWorkgroups | BuiltIn::WorkgroupId | BuiltIn::LocalInvocationId
            | BuiltIn::GlobalInvocationId => IOType::UVec3,
            BuiltIn::LocalInvocationIndex => IOType::UInt,
            BuiltIn::PointSize | BuiltIn::FragDepth => IOType::Float,
            _ => IOType::Int,
        }
    }

    /// The name given to the variable of this built-in: its SPIR-V name.
    pub fn name(&self) -> (r: String)
        ensures
            r@ == builtin_name(*self),
    {
        let s: &str = match self {
            BuiltIn::VertexId => "VertexId",
            BuiltIn::InstanceIndex => "InstanceIndex",
            BuiltIn::DrawIndex => "DrawIndex",
            BuiltIn::BaseVertex => "BaseVertex",
            BuiltIn::PatchVertices => "PatchVertices",
            BuiltIn::PrimitiveId => "PrimitiveId",
            BuiltIn::InvocationId => "InvocationId",
            BuiltIn::TessCoord => "TessCoord",
            BuiltIn::FragCoord => "FragCoord",
            BuiltIn::PointCoord => "PointCoord",
            BuiltIn::Layer => "Layer",
            BuiltIn::NumWorkgroups => "NumWorkgroups",
            BuiltIn::WorkgroupId => "WorkgroupId",
            BuiltIn::LocalInvocationId => "LocalInvocationId",
            BuiltIn::GlobalInvocationId => "GlobalInvocationId",
            BuiltIn::LocalInvocationIndex => "LocalInvocationIndex",
            BuiltIn::Position => "Position",
            BuiltIn::PointSize => "PointSize",
            BuiltIn::FragDepth => "FragDepth",
        };
        s.to_owned()
    }
}

/// The SPIR-V name of a built-in.
pub open spec fn builtin_name(b: BuiltIn) -> Seq<char> {
    match b {
        BuiltIn::VertexId => "VertexId"@,
        BuiltIn::InstanceIndex => "InstanceIndex"@,
        BuiltIn::DrawIndex => "DrawIndex"@,
        BuiltIn::BaseVertex => "BaseVertex"@,
        BuiltIn::PatchVertices => "PatchVertices"@,
        BuiltIn::PrimitiveId => "PrimitiveId"@,
        BuiltIn::InvocationId => "InvocationId"@,
        BuiltIn::TessCoord => "TessCoord"@,
        BuiltIn::FragCoord => "FragCoord"@,
        BuiltIn::PointCoord => "PointCoord"@,
        BuiltIn::Layer => "Layer"@,
        BuiltIn::NumWorkgroups => "NumWorkgroups"@,
        BuiltIn::WorkgroupId => "WorkgroupId"@,
        BuiltIn::LocalInvocationId => "LocalInvocationId"@,
        BuiltIn::GlobalInvocationId => "GlobalInvocationId"@,
        BuiltIn::LocalInvocationIndex => "LocalInvocationIndex"@,
        BuiltIn::Position => "Position"@,
        BuiltIn::PointSize => "PointSize"@,
        BuiltIn::FragDepth => "FragDepth"@,
    }
}

/// Where a stage input or output is bound: a location, or a built-in.
#[derive(Clone, Copy, PartialEq, Eq, Debug)]
pub enum IOLocation {
    Location(u32),
    BuiltIn(BuiltIn),
}

/// A declared stage input or output.
pub struct IOData {
    pub ty: IOType,
    pub location: IOLocation,
    pub flat: bool,
    pub name: Option<String>,
}

/// The declared push constant block.
pub struct PushData {
    pub ty: Type,
    pub name: Option<String>,
}

/// A recorded function.
pub struct FuncData {
    pub ret: Type,
    pub arguments: Vec<Type>,
    pub instructions: Vec<Instruction>,
    pub name: Option<String>,
}

/// A declared uniform buffer.
pub struct UniformData {
    pub ty: Type,
    pub set: u32,
    pub binding: u32,
    pub name: Option<String>,
}

/// A declared storage buffer: a runtime array of `ty`.
pub struct StorageData {
    pub ty: Type,
    pub read: bool,
    pub write: bool,
    pub set: u32,
    pub binding: u32,
    pub name: Option<String>,
}

/// A declared texture.
pub struct TextureData {
    pub set: u32,
    pub binding: u32,
    pub ty: TextureType,
    pub name: Option<String>,
}

/// A declared texture with its sampler.
pub struct SampledTextureData {
    pub set: u32,
    pub binding: u32,
    pub ty: TextureType,
    pub name: Option<String>,
}

/// A declared sampler.
pub struct SamplerData {
    pub set: u32,
    pub binding: u32,
    pub name: Option<String>,
}

/// Everything recorded for one shader module.
pub struct BuilderInner {
    pub inputs: Vec<IOData>,
    pub outputs: Vec<IOData>,
    pub push_constants: Option<PushData>,
    pub uniforms: Vec<UniformData>,
    pub storages: Vec<StorageData>,
    pub textures: Vec<TextureData>,
    pub sampled_textures: Vec<SampledTextureData>,
    pub samplers: Vec<SamplerData>,
    pub functions: Vec<FuncData>,
    pub entry_points: Vec<(ShaderStage, usize)>,
    pub scope: Option<Scope>,
}

/// A handle to a declared stage input.
pub struct Input {
    pub id: usize,
    pub ty: IOType,
}

/// A handle to a declared stage output.
pub struct Output {
    pub id: usize,
    pub ty: IOType,
}

/// A handle to the declared push constant block.
pub struct PushConstants {
    pub ty: Type,
}

/// A handle to a declared uniform buffer.
pub struct Uniform {
    pub id: usize,
    pub ty: Type,
}

/// A handle to a declared storage buffer.
pub struct Storage {
    pub id: usize,
    pub ty: Type,
}

/// A handle to a declared sampler.
pub struct Sampler {
    pub id: usize,
}

/// A handle to a recorded function.
pub struct Func {
    pub id: usize,
    pub ret: Type,
}

/// The declarations of two builders agree: everything but the open scope and
/// the recorded functions.
pub open spec fn same_resources(a: BuilderInner, b: BuilderInner) -> bool {
    &&& a.inputs@ == b.inputs@
    &&& a.outputs@ == b.outputs@
    &&& a.push_constants == b.push_constants
    &&& a.uniforms@ == b.uniforms@
    &&& a.storages@ == b.storages@
    &&& a.textures@ == b.textures@
    &&& a.sampled_textures@ == b.sampled_textures@
    &&& a.samplers@ == b.samplers@
}

/// Two builders agree on everything but their open scope.
pub open spec fn same_but_scope(a: BuilderInner, b: BuilderInner) -> bool {
    &&& same_resources(a, b)
    &&& a.functions@ == b.functions@
    &&& a.entry_points@ == b.entry_points@
}

/// The entry point recorded for a stage, if any.
pub open spec fn entry_of(entries: Seq<(ShaderStage, usize)>, stage: ShaderStage) -> Option<usize>
    decreases entries.len(),
{
    if entries.len() == 0 {
        None
    } else if entries.last().0 == stage {
        Some(entries.last().1)
    } else {
        entry_of(entries.drop_last(), stage)
    }
}

/// `r` is what `BuilderInner::entry_name` gives for `stage` on `b`.
pub open spec fn entry_name_of(b: BuilderInner, stage: ShaderStage, r: Option<String>) -> bool {
    &&& (forall|i: int| 0 <= i < b.entry_points@.len() ==> (#[trigger] b.entry_points@[i]).0 != stage) ==> r is None
    &&& forall|i: int| 0 <= i < b.entry_points@.len() && (#[trigger] b.entry_points@[i]).0 == stage
            && (forall|j: int| 0 <= j < i ==> b.entry_points@[j].0 != stage) ==> if (b.entry_points@[i].1 as int)
            < b.functions@.len() {
            name_view(r) == name_view(b.functions@[b.entry_points@[i].1 as int].name)
        } else {
            r is None
        }
}

/// `b` is `a` after setting function `func` as the entry point of `stage`,
/// as `BuilderInner::set_entry` does.
pub open spec fn entry_set(a: BuilderInner, b: BuilderInner, stage: ShaderStage, func: usize) -> bool {
    &&& b.wf()
    &&& b.entry_points@.contains((stage, func))
    &&& forall|p: (ShaderStage, usize)| a.entry_points@.contains(p) && p.0 != stage ==> b.entry_points@.contains(p)
    &&& forall|p: (ShaderStage, usize)| #[trigger] b.entry_points@.contains(p) ==> p == (stage, func) || a.entry_points@.contains(p)
    &&& b.functions@ == a.functions@
}

/// After setting the entry point of a stage, the entry name of that stage
/// is the name of the function set.
pub proof fn law_entry_name_after_set(a: BuilderInner, b: BuilderInner, stage: ShaderStage, func: usize, r: Option<String>)
    requires
        entry_set(a, b, stage, func),
        entry_name_of(b, stage, r),
    ensures
        name_view(r) == name_view(b.functions@[func as int].name),
{
    law_entry_name(b, stage, func, r);
}

/// Setting the entry point of another stage keeps the entry point of this
/// one, so its entry name stays until it is set again.
pub proof fn law_entry_kept(a: BuilderInner, b: BuilderInner, stage: ShaderStage, other: ShaderStage, func: usize, g: usize)
    requires
        entry_set(a, b, other, g),
        other != stage,
        a.entry_points@.contains((stage, func)),
    ensures
        b.entry_points@.contains((stage, func)),
{
}

/// Once an entry point is set for a stage (and until it is set again), the
/// entry name of the stage is the name of that function; a stage with no
/// entry point has none.
pub proof fn law_entry_name(b: BuilderInner, stage: ShaderStage, f: usize, r: Option<String>)
    requires
        b.wf(),
        entry_name_of(b, stage, r),
    ensures
        b.entry_points@.contains((stage, f)) ==> name_view(r) == name_view(b.functions@[f as int].name),
        (forall|p: (ShaderStage, usize)| #[trigger] b.entry_points@.contains(p) ==> p.0 != stage) ==> r is None,
{
    let e = b.entry_points@;
    if e.contains((stage, f)) {
        let k = choose|k: int| 0 <= k < e.len() && e[k] == (stage, f);
        assert forall|j: int| 0 <= j < k implies e[j].0 != stage by {
            assert(e[j].0 != e[k].0);
        }
        assert(e[k].0 == stage);
    }
    if forall|p: (ShaderStage, usize)| #[trigger] b.entry_points@.contains(p) ==> p.0 != stage {
        assert forall|i: int| 0 <= i < e.len() implies (#[trigger] e[i]).0 != stage by {
            assert(e.contains(e[i]));
        }
    }
}

impl BuilderInner {
    /// The name of the function that is the entry point of `stage`: the
    /// function of the first entry point recorded for the stage, if there is
    /// one and that function was recorded.
    pub fn entry_name(&self, stage: ShaderStage) -> (r: Option<String>)
        ensures
            (forall|i: int| 0 <= i < self.entry_points@.len() ==> (#[trigger] self.entry_points@[i]).0 != stage) ==> r is None,
            forall|i: int| 0 <= i < self.entry_points@.len() && (#[trigger] self.entry_points@[i]).0 == stage
                && (forall|j: int| 0 <= j < i ==> self.entry_points@[j].0 != stage) ==> if (self.entry_points@[i].1 as int)
                < self.functions@.len() {
                name_view(r) == name_view(self.functions@[self.entry_points@[i].1 as int].name)
            } else {
                r is None
            },
            entry_name_of(*self, stage, r),
    {
        let n = self.entry_points.len();
        let mut i: usize = 0;
        while i < n
            invariant
                n == self.entry_points@.len(),
                i <= n,
                forall|j: int| 0 <= j < i ==> self.entry_points@[j].0 != stage,
            decreases n - i,
        {
            if self.entry_points[i].0 == stage {
                let f = self.entry_points[i].1;
                proof {
                    assert forall|k: int| 0 <= k < self.entry_points@.len() && (#[trigger] self.entry_points@[k]).0 == stage
                        && (forall|j: int| 0 <= j < k ==> self.entry_points@[j].0 != stage) implies k == i by {
                        if k < i {
                        } else if k > i {
                            assert(self.entry_points@[i as int].0 == stage);
                        }
                    }
                }
                if f < self.functions.len() {
                    return match &self.functions[f].name {
                        Some(s) => Some(s.clone()),
                        None => None,
                    };
                } else {
                    return None;
                }
            }
            i = i + 1;
        }
        None
    }
}

impl BuilderInner {
    /// Each stage has at most one entry point, and each entry point is a
    /// recorded function.
    pub open spec fn wf(self) -> bool {
        &&& forall|i: int, j: int|
            0 <= i < j < self.entry_points@.len() ==> #[trigger] self.entry_points@[i].0 != #[trigger] self.entry_points@[j].0
        &&& forall|i: int|
            0 <= i < self.entry_points@.len() ==> #[trigger] self.entry_points@[i].1 < self.functions@.len()
    }

    /// Whether each stage has at most one entry point and each entry point is
    /// a recorded function.
    pub fn is_wf(&self) -> (r: bool)
        ensures
            r == self.wf(),
    {
        let n = self.entry_points.len();
        let mut i: usize = 0;
        while i < n
            invariant
                n == self.entry_points@.len(),
                i <= n,
                forall|a: int, b: int| 0 <= a < b < i ==> #[trigger] self.entry_points@[a].0 != #[trigger] self.entry_points@[b].0,
                forall|a: int| 0 <= a < i ==> #[trigger] self.entry_points@[a].1 < self.functions@.len(),
            decreases n - i,
        {
            if self.entry_points[i].1 >= self.functions.len() {
                return false;
            }
            let mut j: usize = 0;
            while j < i
                invariant
                    i < n,
                    n == self.entry_points@.len(),
                    j <= i,
                    forall|a: int| 0 <= a < j ==> self.entry_points@[a].0 != self.entry_points@[i as int].0,
                decreases i - j,
            {
                if self.entry_points[j].0 == self.entry_points[i].0 {
                    return false;
                }
                j = j + 1;
            }
            i = i + 1;
        }
        true
    }

    /// The open scope's variables.
    pub open spec fn vars(self) -> Map<usize, Option<Seq<char>>> {
        self.scope->Some_0.vars()
    }

    /// The instructions recorded so far into the open scope.
    pub open spec fn recorded(self) -> Seq<Instruction> {
        self.scope->Some_0.recorded()
    }

    /// A builder with nothing declared and no function open.
    pub fn new() -> (r: Self)
        ensures
            r.wf(),
            r.scope is None,
            r.inputs@.len() == 0,
            r.outputs@.len() == 0,
            r.push_constants is None,
            r.uniforms@.len() == 0,
            r.storages@.len() == 0,
            r.textures@.len() == 0,
            r.sampled_textures@.len() == 0,
            r.samplers@.len() == 0,
            r.functions@.len() == 0,
            r.entry_points@.len() == 0,
    {
        BuilderInner {
            inputs: Vec::new(),
            outputs: Vec::new(),
            push_constants: None,
            uniforms: Vec::new(),
            storages: Vec::new(),
            textures: Vec::new(),
            sampled_textures: Vec::new(),
            samplers: Vec::new(),
            functions: Vec::new(),
            entry_points: Vec::new(),
            scope: None,
        }
    }

    /// Declares a stage input at a location; its handle's number is its place
    /// among the inputs.
    pub fn input(&mut self, ty: IOType, location: u32, flat: bool, name: Option<String>) -> (r: Input)
        requires
            old(self).scope is None,
        ensures
            r.id == old(self).inputs@.len(),
            r.ty == ty,
            final(self).inputs@ == old(self).inputs@.push(IOData { ty, location: IOLocation::Location(location), flat, name }),
            final(self).outputs@ == old(self).outputs@,
            final(self).push_constants == old(self).push_constants,
            final(self).uniforms@ == old(self).uniforms@,
            final(self).storages@ == old(self).storages@,
            final(self).textures@ == old(self).textures@,
            final(self).sampled_textures@ == old(self).sampled_textures@,
            final(self).samplers@ == old(self).samplers@,
            final(self).functions@ == old(self).functions@,
            final(self).entry_points@ == old(self).entry_points@,
            final(self).scope is None,
    {
        let id = self.inputs.len();
        self.inputs.push(IOData { ty, location: IOLocation::Location(location), flat, name });
        Input { id, ty }
    }

    /// Declares a stage output at a location; its handle's number is its
    /// place among the outputs.
    pub fn output(&mut self, ty: IOType, location: u32, flat: bool, name: Option<String>) -> (r: Output)
        requires
            old(self).scope is None,
        ensures
            r.id == old(self).outputs@.len(),
            r.ty == ty,
            final(self).outputs@ == old(self).outputs@.push(IOData { ty, location: IOLocation::Location(location), flat, name }),
            final(self).inputs@ == old(self).inputs@,
            final(self).push_constants == old(self).push_constants,
            final(self).uniforms@ == old(self).uniforms@,
            final(self).storages@ == old(self).storages@,
            final(self).textures@ == old(self).textures@,
            final(self).sampled_textures@ == old(self).sampled_textures@,
            final(self).samplers@ == old(self).samplers@,
            final(self).functions@ == old(self).functions@,
            final(self).entry_points@ == old(self).entry_points@,
            final(self).scope is None,
    {
        let id = self.outputs.len();
        self.outputs.push(IOData { ty, location: IOLocation::Location(location), flat, name });
        Output { id, ty }
    }

    /// Declares the input of a built-in variable, of the built-in's type and
    /// named after it, never flat.
    pub fn built_in_input(&mut self, built_in: BuiltIn) -> (r: Input)
        requires
            old(self).scope is None,
        ensures
            r.id == old(self).inputs@.len(),
            r.ty == builtin_io_type(built_in),
            final(self).inputs@.len() == old(self).inputs@.len() + 1,
            final(self).inputs@.drop_last() == old(self).inputs@,
            final(self).inputs@.last().ty == builtin_io_type(built_in),
            final(self).inputs@.last().location == IOLocation::BuiltIn(built_in),
            !final(self).inputs@.last().flat,
            final(self).inputs@.last().name matches Some(n) && n@ == builtin_name(built_in),
            final(self).outputs@ == old(self).outputs@,
            final(self).push_constants == old(self).push_constants,
            final(self).uniforms@ == old(self).uniforms@,
            final(self).storages@ == old(self).storages@,
            final(self).textures@ == old(self).textures@,
            final(self).sampled_textures@ == old(self).sampled_textures@,
            final(self).samplers@ == old(self).samplers@,
            final(self).functions@ == old(self).functions@,
            final(self).entry_points@ == old(self).entry_points@,
            final(self).scope is None,
    {
        let id = self.inputs.len();
        let ty = built_in.io_type();
        let name = built_in.name();
        self.inputs.push(IOData { ty, location: IOLocation::BuiltIn(built_in), flat: false, name: Some(name) });
        Input { id, ty }
    }

    /// Declares the output of a built-in variable, of the built-in's type and
    /// named after it, never flat.
    pub fn built_in_output(&mut self, built_in: BuiltIn) -> (r: Output)
        requires
            old(self).scope is None,
        ensures
            r.id == old(self).outputs@.len(),
            r.ty == builtin_io_type(built_in),
            final(self).outputs@.len() == old(self).outputs@.len() + 1,
            final(self).outputs@.drop_last() == old(self).outputs@,
            final(self).outputs@.last().ty == builtin_io_type(built_in),
            final(self).outputs@.last().location == IOLocation::BuiltIn(built_in),
            !final(self).outputs@.last().flat,
            final(self).outputs@.last().name matches Some(n) && n@ == builtin_name(built_in),
            final(self).inputs@ == old(self).inputs@,
            final(self).push_constants == old(self).push_constants,
            final(self).uniforms@ == old(self).uniforms@,
            final(self).storages@ == old(self).storages@,
            final(self).textures@ == old(self).textures@,
            final(self).sampled_textures@ == old(self).sampled_textures@,
            final(self).samplers@ == old(self).samplers@,
            final(self).functions@ == old(self).functions@,
            final(self).entry_points@ == old(self).entry_points@,
            final(self).scope is None,
    {
        let id = self.outputs.len();
        let ty = built_in.io_type();
        let name = built_in.name();
        self.outputs.push(IOData { ty, location: IOLocation::BuiltIn(built_in), flat: false, name: Some(name) });
        Output { id, ty }
    }
}

/// The stage inputs and outputs of two builders agree.
pub open spec fn same_io(a: BuilderInner, b: BuilderInner) -> bool {
    &&& a.inputs@ == b.inputs@
    &&& a.outputs@ == b.outputs@
}

/// The buffer, texture and sampler declarations of two builders agree.
pub open spec fn same_bindings(a: BuilderInner, b: BuilderInner) -> bool {
    &&& a.push_constants == b.push_constants
    &&& a.uniforms@ == b.uniforms@
    &&& a.storages@ == b.storages@
    &&& a.textures@ == b.textures@
    &&& a.sampled_textures@ == b.sampled_textures@
    &&& a.samplers@ == b.samplers@
}

/// The buffer, texture and sampler declarations of two builders agree but for
/// the uniforms.
pub open spec fn same_bindings_but_uniforms(a: BuilderInner, b: BuilderInner) -> bool {
    &&& a.push_constants == b.push_constants
    &&& a.storages@ == b.storages@
    &&& a.textures@ == b.textures@
    &&& a.sampled_textures@ == b.sampled_textures@
    &&& a.samplers@ == b.samplers@
}

/// The recorded functions and entry points of two builders agree.
pub open spec fn same_code(a: BuilderInner, b: BuilderInner) -> bool {
    &&& a.functions@ == b.functions@
    &&& a.entry_points@ == b.entry_points@
}

impl BuilderInner {
    /// Declares the push constant block, replacing any declared before.
    pub fn push_constants(&mut self, ty: Type, name: Option<String>) -> (r: PushConstants)
        ensures
            r.ty@ == ty@,
            final(self).push_constants == Some(PushData { ty, name }),
            same_io(*final(self), *old(self)),
            same_code(*final(self), *old(self)),
            final(self).uniforms@ == old(self).uniforms@,
            final(self).storages@ == old(self).storages@,
            final(self).textures@ == old(self).textures@,
            final(self).sampled_textures@ == old(self).sampled_textures@,
            final(self).samplers@ == old(self).samplers@,
            final(self).scope == old(self).scope,
    {
        let handle_ty = ty.copy();
        self.push_constants = Some(PushData { ty, name });
        PushConstants { ty: handle_ty }
    }

    /// Declares a uniform buffer at a descriptor set and binding; its handle's
    /// number is its place among the uniforms.
    pub fn uniform(&mut self, ty: Type, set: u32, binding: u32, name: Option<String>) -> (r: Uniform)
        ensures
            r.id == old(self).uniforms@.len(),
            r.ty@ == ty@,
            final(self).uniforms@ == old(self).uniforms@.push(UniformData { ty, set, binding, name }),
            same_io(*final(self), *old(self)),
            same_code(*final(self), *old(self)),
            same_bindings_but_uniforms(*final(self), *old(self)),
            final(self).scope == old(self).scope,
    {
        let id = self.uniforms.len();
        let handle_ty = ty.copy();
        self.uniforms.push(UniformData { ty, set, binding, name });
        Uniform { id, ty: handle_ty }
    }

    /// Declares a storage buffer of elements of `ty`, readable and writable as
    /// asked; its handle's number is its place among the storage buffers.
    pub fn raw_storage(&mut self, ty: Type, set: u32, binding: u32, read: bool, write: bool, name: Option<String>) -> (r: Storage)
        requires
            type_size(ty@) is Some,
        ensures
            r.id == old(self).storages@.len(),
            r.ty@ == ty@,
            final(self).storages@ == old(self).storages@.push(StorageData { ty, read, write, set, binding, name }),
            same_io(*final(self), *old(self)),
            same_code(*final(self), *old(self)),
            final(self).push_constants == old(self).push_constants,
            final(self).uniforms@ == old(self).uniforms@,
            final(self).textures@ == old(self).textures@,
            final(self).sampled_textures@ == old(self).sampled_textures@,
            final(self).samplers@ == old(self).samplers@,
            final(self).scope == old(self).scope,
    {
        let id = self.storages.len();
        let handle_ty = ty.copy();
        self.storages.push(StorageData { ty, read, write, set, binding, name });
        Storage { id, ty: handle_ty }
    }

    /// Declares a storage buffer that shaders read and write.
    pub fn storage(&mut self, ty: Type, set: u32, binding: u32, name: Option<String>) -> (r: Storage)
        requires
            type_size(ty@) is Some,
        ensures
            r.id == old(self).storages@.len(),
            r.ty@ == ty@,
            final(self).storages@ == old(self).storages@.push(StorageData { ty, read: true, write: true, set, binding, name }),
            same_io(*final(self), *old(self)),
            same_code(*final(self), *old(self)),
            final(self).scope == old(self).scope,
    {
        self.raw_storage(ty, set, binding, true, true, name)
    }

    /// Declares a storage buffer that shaders only read.
    pub fn readonly_storage(&mut self, ty: Type, set: u32, binding: u32, name: Option<String>) -> (r: Storage)
        requires
            type_size(ty@) is Some,
        ensures
            r.id == old(self).storages@.len(),
            r.ty@ == ty@,
            final(self).storages@ == old(self).storages@.push(StorageData { ty, read: true, write: false, set, binding, name }),
            same_io(*final(self), *old(self)),
            same_code(*final(self), *old(self)),
            final(self).scope == old(self).scope,
    {
        self.raw_storage(ty, set, binding, true, false, name)
    }

    /// Declares a storage buffer that shaders only write.
    pub fn writeonly_storage(&mut self, ty: Type, set: u32, binding: u32, name: Option<String>) -> (r: Storage)
        requires
            type_size(ty@) is Some,
        ensures
            r.id == old(self).storages@.len(),
            r.ty@ == ty@,
            final(self).storages@ == old(self).storages@.push(StorageData { ty, read: false, write: true, set, binding, name }),
            same_io(*final(self), *old(self)),
            same_code(*final(self), *old(self)),
            final(self).scope == old(self).scope,
    {
        self.raw_storage(ty, set, binding, false, true, name)
    }

    /// Declares a sampler; its handle's number is its place among the
    /// samplers.
    pub fn sampler(&mut self, set: u32, binding: u32, name: Option<String>) -> (r: Sampler)
        ensures
            r.id == old(self).samplers@.len(),
            final(self).samplers@ == old(self).samplers@.push(SamplerData { set, binding, name }),
            same_io(*final(self), *old(self)),
            same_code(*final(self), *old(self)),
            final(self).push_constants == old(self).push_constants,
            final(self).uniforms@ == old(self).uniforms@,
            final(self).storages@ == old(self).storages@,
            final(self).textures@ == old(self).textures@,
            final(self).sampled_textures@ == old(self).sampled_textures@,
            final(self).scope == old(self).scope,
    {
        let id = self.samplers.len();
        self.samplers.push(SamplerData { set, binding, name });
        Sampler { id }
    }

    /// Declares a texture; the result is its place among the textures.
    pub fn raw_texture(&mut self, ty: TextureType, set: u32, binding: u32, name: Option<String>) -> (r: usize)
        ensures
            r == old(self).textures@.len(),
            final(self).textures@ == old(self).textures@.push(TextureData { ty, set, binding, name }),
            same_io(*final(self), *old(self)),
            same_code(*final(self), *old(self)),
            final(self).push_constants == old(self).push_constants,
            final(self).uniforms@ == old(self).uniforms@,
            final(self).storages@ == old(self).storages@,
            final(self).sampled_textures@ == old(self).sampled_textures@,
            final(self).samplers@ == old(self).samplers@,
            final(self).scope == old(self).scope,
    {
        let id = self.textures.len();
        self.textures.push(TextureData { ty, set, binding, name });
        id
    }

    /// Declares a texture with its sampler; the result is its place among the
    /// sampled textures.
    pub fn raw_sampled_texture(&mut self, ty: TextureType, set: u32, binding: u32, name: Option<String>) -> (r: usize)
        ensures
            r == old(self).sampled_textures@.len(),
            final(self).sampled_textures@ == old(self).sampled_textures@.push(SampledTextureData { ty, set, binding, name }),
            same_io(*final(self), *old(self)),
            same_code(*final(self), *old(self)),
            final(self).push_constants == old(self).push_constants,
            final(self).uniforms@ == old(self).uniforms@,
            final(self).storages@ == old(self).storages@,
            final(self).textures@ == old(self).textures@,
            final(self).samplers@ == old(self).samplers@,
            final(self).scope == old(self).scope,
    {
        let id = self.sampled_textures.len();
        self.sampled_textures.push(SampledTextureData { ty, set, binding, name });
        id
    }
}

/// An operand of a recorded operation: a variable of the function, or a
/// constant that is first stored into a new variable.
pub enum Operand {
    Var(usize, Type),
    Const(Val),
}

/// Recording into the open scope changed nothing but that scope's own
/// instructions and the variables of the function: the declarations, the
/// recorded functions and every enclosing scope's instructions are kept.
pub open spec fn recording_step(a: BuilderInner, b: BuilderInner) -> bool {
    &&& same_but_scope(a, b)
    &&& a.scope is Some
    &&& b.scope is Some
    &&& a.scope->Some_0.depth() == b.scope->Some_0.depth()
    &&& b.scope->Some_0.frames().skip(1) == a.scope->Some_0.frames().skip(1)
}

/// `b` is `a` with a branch body opened inside its open scope.
pub open spec fn opens_branch(a: BuilderInner, b: BuilderInner) -> bool {
    &&& same_but_scope(b, a)
    &&& a.scope is Some
    &&& b.scope matches Some(Scope::If(i)) && *i.outer == a.scope->Some_0
    &&& b.recorded().len() == 0
    &&& b.vars() == a.vars()
    &&& b.scope->Some_0.depth() == a.scope->Some_0.depth() + 1
}

/// `b` is `a` with its open branch body closed as `if condition`, recorded at
/// the end of the enclosing scope, which `r` points at.
pub open spec fn closes_if(a: BuilderInner, b: BuilderInner, condition: usize, r: IfChain) -> bool {
    &&& same_but_scope(b, a)
    &&& a.scope matches Some(Scope::If(_))
    &&& b.scope is Some
    &&& b.scope->Some_0.depth() + 1 == a.scope->Some_0.depth()
    &&& b.vars() == a.vars()
    &&& r.index == a.scope->Some_0->If_0.outer.recorded().len()
    &&& b.recorded().drop_last() == a.scope->Some_0->If_0.outer.recorded()
    &&& b.scope->Some_0.frames().skip(1) == a.scope->Some_0->If_0.outer.frames().skip(1)
    &&& b.recorded().last() matches Instruction::If(op) && op.condition == condition
        && op.instructions@ == a.recorded() && op.otherwise is None
}


/// The place of the entry point of `stage` among `entries`, if it has one.
fn find_stage(entries: &Vec<(ShaderStage, usize)>, stage: ShaderStage) -> (r: Option<usize>)
    ensures
        match r {
            Some(i) => i < entries@.len() && entries@[i as int].0 == stage,
            None => forall|j: int| 0 <= j < entries@.len() ==> #[trigger] entries@[j].0 != stage,
        },
{
    let mut i: usize = 0;
    while i < entries.len()
        invariant
            i <= entries@.len(),
            forall|j: int| 0 <= j < i ==> #[trigger] entries@[j].0 != stage,
        decreases entries@.len() - i,
    {
        if entries[i].0 == stage {
            return Some(i);
        }
        i = i + 1;
    }
    None
}

/// `b` is `a` with a new function `r` opened: returning `ret`, named `name`,
/// with no arguments or instructions yet, and an empty body scope open.
pub open spec fn opens_function(a: BuilderInner, b: BuilderInner, ret: Type, name: Option<String>, r: usize) -> bool {
    &&& r == a.functions@.len()
    &&& b.functions@.len() == a.functions@.len() + 1
    &&& b.functions@.drop_last() == a.functions@
    &&& b.functions@[r as int].ret == ret
    &&& b.functions@[r as int].arguments@.len() == 0
    &&& b.functions@[r as int].instructions@.len() == 0
    &&& b.functions@[r as int].name == name
    &&& b.entry_points@ == a.entry_points@
    &&& same_resources(b, a)
    &&& b.scope matches Some(Scope::Func(_))
    &&& b.recorded().len() == 0
    &&& b.vars().dom().is_empty()
}

/// `b` is `a` with its open function body closed: what was recorded in it
/// became the instructions of function `id`, and everything else is kept.
pub open spec fn closes_function(a: BuilderInner, b: BuilderInner, id: usize) -> bool {
    &&& b.scope is None
    &&& b.functions@.len() == a.functions@.len()
    &&& b.functions@[id as int].instructions@ == a.recorded()
    &&& b.functions@[id as int].ret == a.functions@[id as int].ret
    &&& b.functions@[id as int].arguments == a.functions@[id as int].arguments
    &&& b.functions@[id as int].name == a.functions@[id as int].name
    &&& forall|i: int| 0 <= i < a.functions@.len() && i != id ==> b.functions@[i] == a.functions@[i]
    &&& b.entry_points@ == a.entry_points@
    &&& same_resources(b, a)
}

/// The body recorded between [`BuilderInner::begin_func`] and
/// [`BuilderInner::end_func`] becomes the instructions of the new function,
/// which keeps its return type and name; the functions recorded before, the
/// entry points and the declarations are untouched, and no scope is left
/// open.
pub proof fn law_function_body(a: BuilderInner, b: BuilderInner, c: BuilderInner, d: BuilderInner, ret: Type, name: Option<String>, id: usize)
    requires
        opens_function(a, b, ret, name, id),
        recording_step(b, c),
        closes_function(c, d, id),
    ensures
        d.scope is None,
        d.functions@.len() == a.functions@.len() + 1,
        d.functions@.drop_last() == a.functions@,
        d.functions@[id as int].instructions@ == c.recorded(),
        d.functions@[id as int].ret == ret,
        d.functions@[id as int].name == name,
        d.functions@[id as int].arguments@.len() == 0,
        d.entry_points@ == a.entry_points@,
        same_resources(d, a),
{
    assert(d.functions@.drop_last() =~= a.functions@);
}

impl BuilderInner {
    /// Opens a new function returning `ret`; its number is its place among
    /// the functions. Instructions are recorded into it until
    /// [`BuilderInner::end_func`].
    pub fn begin_func(&mut self, ret: Type, name: Option<String>) -> (r: usize)
        requires
            old(self).scope is None,
        ensures
            opens_function(*old(self), *final(self), ret, name, r),
            old(self).wf() ==> final(self).wf(),
    {
        let id = self.functions.len();
        self.functions.push(FuncData { ret, arguments: Vec::new(), instructions: Vec::new(), name });
        let f = FuncScope::new();
        self.scope = Some(Scope::Func(f));
        proof {
            assert(self.functions@.drop_last() =~= old(self).functions@);
            assert(self.vars().dom() =~= Set::<usize>::empty());
        }
        id
    }

    /// Closes the open function body: what was recorded into it becomes the
    /// instructions of function `id`.
    pub fn end_func(&mut self, id: usize)
        requires
            old(self).scope matches Some(Scope::Func(_)),
            id < old(self).functions@.len(),
        ensures
            closes_function(*old(self), *final(self), id),
            old(self).wf() ==> final(self).wf(),
    {
        let scope = self.scope.take();
        let instructions = match scope {
            Some(Scope::Func(f)) => f.instructions,
            _ => Vec::new(),
        };
        let mut f = self.functions.remove(id);
        f.instructions = instructions;
        self.functions.insert(id, f);
    }

    /// Makes function `func` the entry point of `stage`, replacing the entry
    /// point the stage had.
    pub fn set_entry(&mut self, stage: ShaderStage, func: usize)
        requires
            old(self).wf(),
            func < old(self).functions@.len(),
        ensures
            final(self).wf(),
            final(self).entry_points@.contains((stage, func)),
            forall|p: (ShaderStage, usize)| old(self).entry_points@.contains(p) && p.0 != stage ==> final(self).entry_points@.contains(p),
            forall|p: (ShaderStage, usize)| #[trigger] final(self).entry_points@.contains(p) ==> p == (stage, func) || old(self).entry_points@.contains(p),
            same_resources(*final(self), *old(self)),
            final(self).functions@ == old(self).functions@,
            final(self).scope == old(self).scope,
            entry_set(*old(self), *final(self), stage, func),
    {
        match find_stage(&self.entry_points, stage) {
            Some(i) => {
                let ghost before = self.entry_points@;
                self.entry_points.set(i, (stage, func));
                proof {
                    assert forall|p: (ShaderStage, usize)| before.contains(p) && p.0 != stage implies self.entry_points@.contains(p) by {
                        let k = choose|k: int| 0 <= k < before.len() && before[k] == p;
                        assert(self.entry_points@[k] == p);
                    }
                    assert forall|p: (ShaderStage, usize)| #[trigger] self.entry_points@.contains(p) implies p == (stage, func) || before.contains(p) by {
                        let k = choose|k: int| 0 <= k < self.entry_points@.len() && self.entry_points@[k] == p;
                        if k != i {
                            assert(before[k] == p);
                        }
                    }
                    assert(self.entry_points@[i as int] == (stage, func));
                }
            },
            None => {
                let ghost before = self.entry_points@;
                self.entry_points.push((stage, func));
                proof {
                    assert(self.entry_points@[before.len() as int] == (stage, func));
                    assert forall|p: (ShaderStage, usize)| before.contains(p) && p.0 != stage implies self.entry_points@.contains(p) by {
                        let k = choose|k: int| 0 <= k < before.len() && before[k] == p;
                        assert(self.entry_points@[k] == p);
                    }
                    assert forall|p: (ShaderStage, usize)| #[trigger] self.entry_points@.contains(p) implies p == (stage, func) || before.contains(p) by {
                        let k = choose|k: int| 0 <= k < self.entry_points@.len() && self.entry_points@[k] == p;
                        if k < before.len() {
                            assert(before[k] == p);
                        }
                    }
                }
            },
        }
    }

    /// Hands out a variable number new to the open function.
    pub fn new_var(&mut self) -> (id: usize)
        requires
            old(self).scope is Some,
        ensures
            !old(self).vars().dom().contains(id),
            final(self).vars() == old(self).vars().insert(id, None),
            final(self).recorded() == old(self).recorded(),
            recording_step(*old(self), *final(self)),
            (final(self).scope->Some_0 is Func) == (old(self).scope->Some_0 is Func),
            id == old(self).scope->Some_0.next_var(),
    {
        match &mut self.scope {
            Some(s) => s.get_new_id(),
            None => 0,
        }
    }

    /// Records an instruction at the end of the open scope.
    pub fn push_instruction(&mut self, instruction: Instruction)
        requires
            old(self).scope is Some,
        ensures
            final(self).recorded() == old(self).recorded().push(instruction),
            final(self).vars() == old(self).vars(),
            recording_step(*old(self), *final(self)),
            final(self).scope->Some_0.frames() == old(self).scope->Some_0.frames().update(0, old(self).recorded().push(instruction)),
            (final(self).scope->Some_0 is Func) == (old(self).scope->Some_0 is Func),
    {
        match &mut self.scope {
            Some(s) => s.push_instruction(instruction),
            None => {},
        }
        proof {
            assert(self.scope->Some_0.frames().skip(1) =~= old(self).scope->Some_0.frames().skip(1));
        }
    }

    /// Stores a constant into a new variable, which is the result.
    pub fn set_const(&mut self, val: Val) -> (id: usize)
        requires
            old(self).scope is Some,
        ensures
            !old(self).vars().dom().contains(id),
            final(self).vars() == old(self).vars().insert(id, None),
            final(self).recorded() == old(self).recorded().push(Instruction::SetConst(OpSetConst { val, store: id })),
            recording_step(*old(self), *final(self)),
            (final(self).scope->Some_0 is Func) == (old(self).scope->Some_0 is Func),
    {
        let store = self.new_var();
        self.push_instruction(Instruction::SetConst(OpSetConst { val, store }));
        store
    }

    /// The variable of an operand and its type: the variable itself, or a new
    /// variable the constant is stored into.
    pub fn operand_id(&mut self, o: Operand) -> (r: (usize, Type))
        requires
            old(self).scope is Some,
        ensures
            recording_step(*old(self), *final(self)),
            (final(self).scope->Some_0 is Func) == (old(self).scope->Some_0 is Func),
            grew(old(self).recorded(), final(self).recorded(), operand_consts(o)),
            vars_grew(old(self).vars(), final(self).vars()),
            match o {
                Operand::Var(id, ty) => {
                    &&& r == (id, ty)
                    &&& final(self).recorded() == old(self).recorded()
                    &&& final(self).vars() == old(self).vars()
                },
                Operand::Const(v) => {
                    &&& r.1@ == crate::types::val_ty(v)
                    &&& !old(self).vars().dom().contains(r.0)
                    &&& final(self).vars() == old(self).vars().insert(r.0, None)
                    &&& final(self).recorded() == old(self).recorded().push(Instruction::SetConst(OpSetConst { val: v, store: r.0 }))
                },
            },
    {
        let ghost r0 = self.recorded();
        match o {
            Operand::Var(id, ty) => {
                proof {
                    assert(r0.subrange(0, r0.len() as int) =~= r0);
                }
                (id, ty)
            },
            Operand::Const(v) => {
                let ty = v.ty();
                let id = self.set_const(v);
                proof {
                    lemma_grew_push(r0, self.recorded().last());
                }
                (id, ty)
            },
        }
    }
}

/// The type of an operand.
pub open spec fn operand_view(o: Operand) -> TypeView {
    match o {
        Operand::Var(_, ty) => ty@,
        Operand::Const(v) => crate::types::val_ty(v),
    }
}

/// How many instructions resolving an operand records: one for a constant.
pub open spec fn operand_consts(o: Operand) -> nat {
    match o {
        Operand::Var(_, _) => 0,
        Operand::Const(_) => 1,
    }
}

/// A resolved operand stands for the operand: the same variable and type, or
/// a variable of the constant's type.
pub open spec fn resolves(o: Operand, v: (usize, Type)) -> bool {
    match o {
        Operand::Var(id, ty) => v.0 == id && v.1 == ty,
        Operand::Const(c) => v.1@ == crate::types::val_ty(c),
    }
}

/// `new` is `old` followed by `n` more instructions.
pub open spec fn grew(old: Seq<Instruction>, new: Seq<Instruction>, n: nat) -> bool {
    &&& new.len() == old.len() + n
    &&& new.subrange(0, old.len() as int) == old
}

/// The variables of `new` are those of `old` and maybe more.
pub open spec fn vars_grew(old: Map<usize, Option<Seq<char>>>, new: Map<usize, Option<Seq<char>>>) -> bool {
    forall|k: usize| old.dom().contains(k) ==> #[trigger] new.dom().contains(k) && new[k] == old[k]
}

/// Recording one instruction grows the list by one.
pub proof fn lemma_grew_push(a: Seq<Instruction>, x: Instruction)
    ensures
        grew(a, a.push(x), 1),
{
    assert(a.push(x).subrange(0, a.len() as int) =~= a);
}

/// Growing twice grows by the sum.
pub proof fn lemma_grew_trans(a: Seq<Instruction>, b: Seq<Instruction>, c: Seq<Instruction>, n: nat, m: nat)
    requires
        grew(a, b, n),
        grew(b, c, m),
    ensures
        grew(a, c, n + m),
{
    assert(c.subrange(0, a.len() as int) =~= b.subrange(0, a.len() as int));
}

impl BuilderInner {
    /// Records `store = lhs op rhs` into a new variable of type `store`, the
    /// result; constant operands are first stored into variables of their own.
    pub fn basic_op(&mut self, lhs: Operand, rhs: Operand, store: Type, op: OpLhsRhsType) -> (r: usize)
        requires
            old(self).scope is Some,
        ensures
            recording_step(*old(self), *final(self)),
            (final(self).scope->Some_0 is Func) == (old(self).scope->Some_0 is Func),
            !old(self).vars().dom().contains(r),
            final(self).vars().dom().contains(r),
            vars_grew(old(self).vars(), final(self).vars()),
            grew(old(self).recorded(), final(self).recorded(), operand_consts(lhs) + operand_consts(rhs) + 1),
            final(self).recorded().last() matches Instruction::LhsRhs(o) && o.ty == op && o.store == (r, store)
                && resolves(lhs, o.lhs) && resolves(rhs, o.rhs),
    {
        let ghost r0 = self.recorded();
        let l = self.operand_id(lhs);
        let ghost r1 = self.recorded();
        let rr = self.operand_id(rhs);
        let ghost r2 = self.recorded();
        let id = self.new_var();
        self.push_instruction(Instruction::LhsRhs(OpLhsRhs { ty: op, lhs: l, rhs: rr, store: (id, store) }));
        proof {
            lemma_grew_trans(r0, r1, r2, operand_consts(lhs), operand_consts(rhs));
            lemma_grew_push(r2, self.recorded().last());
            lemma_grew_trans(r0, r2, self.recorded(), operand_consts(lhs) + operand_consts(rhs), 1);
        }
        id
    }

    /// Records `lhs = lhs op rhs`, storing into the left operand's variable;
    /// a constant left operand is first stored into a variable of its own.
    pub fn assign_op(&mut self, lhs: Operand, rhs: Operand, store: Type, op: OpLhsRhsType)
        requires
            old(self).scope is Some,
        ensures
            recording_step(*old(self), *final(self)),
            (final(self).scope->Some_0 is Func) == (old(self).scope->Some_0 is Func),
            vars_grew(old(self).vars(), final(self).vars()),
            grew(old(self).recorded(), final(self).recorded(), operand_consts(lhs) + operand_consts(rhs) + 1),
            final(self).recorded().last() matches Instruction::LhsRhs(o) && o.ty == op && o.store == (o.lhs.0, store)
                && resolves(lhs, o.lhs) && resolves(rhs, o.rhs)
                && final(self).vars().dom() == old(self).vars().dom() + const_var(lhs, o.lhs.0) + const_var(rhs, o.rhs.0),
    {
        let ghost r0 = self.recorded();
        let l = self.operand_id(lhs);
        let ghost r1 = self.recorded();
        let rr = self.operand_id(rhs);
        let ghost r2 = self.recorded();
        let store_id = l.0;
        self.push_instruction(Instruction::LhsRhs(OpLhsRhs { ty: op, lhs: l, rhs: rr, store: (store_id, store) }));
        proof {
            lemma_grew_trans(r0, r1, r2, operand_consts(lhs), operand_consts(rhs));
            lemma_grew_push(r2, self.recorded().last());
            lemma_grew_trans(r0, r2, self.recorded(), operand_consts(lhs) + operand_consts(rhs), 1);
        }
    }

    /// Records the comparison `lhs cmp rhs` into a new boolean variable, the
    /// result.
    pub fn compare(&mut self, lhs: (usize, Type), rhs: Operand, kind: CmpType) -> (r: usize)
        requires
            old(self).scope is Some,
        ensures
            recording_step(*old(self), *final(self)),
            (final(self).scope->Some_0 is Func) == (old(self).scope->Some_0 is Func),
            !old(self).vars().dom().contains(r),
            final(self).vars().dom().contains(r),
            vars_grew(old(self).vars(), final(self).vars()),
            grew(old(self).recorded(), final(self).recorded(), operand_consts(rhs) + 1),
            final(self).recorded().last() == Instruction::Cmp(OpCmp { cmp: kind, lhs, rhs: final(self).recorded().last()->Cmp_0.rhs, store: r }),
            final(self).recorded().last() matches Instruction::Cmp(o) && o.store == r
                && o.lhs == lhs && resolves(rhs, o.rhs),
    {
        let ghost r0 = self.recorded();
        let id = self.new_var();
        let rr = self.operand_id(rhs);
        let ghost r1 = self.recorded();
        self.push_instruction(Instruction::Cmp(OpCmp { cmp: kind, lhs, rhs: rr, store: id }));
        proof {
            lemma_grew_push(r1, self.recorded().last());
            lemma_grew_trans(r0, r1, self.recorded(), operand_consts(rhs), 1);
        }
        id
    }

    /// Records `store = op lhs` into a new variable of type `store`, the
    /// result.
    pub fn unary_op(&mut self, lhs: (usize, Type), store: Type, op: OpLhsType) -> (r: usize)
        requires
            old(self).scope is Some,
        ensures
            recording_step(*old(self), *final(self)),
            (final(self).scope->Some_0 is Func) == (old(self).scope->Some_0 is Func),
            !old(self).vars().dom().contains(r),
            final(self).vars() == old(self).vars().insert(r, None),
            final(self).recorded() == old(self).recorded().push(Instruction::Lhs(OpLhs { ty: op, lhs, store: (r, store) })),
    {
        let id = self.new_var();
        self.push_instruction(Instruction::Lhs(OpLhs { ty: op, lhs, store: (id, store) }));
        id
    }

    /// Records the conversion of `src` to type `dst` into a new variable, the
    /// result.
    pub fn convert(&mut self, src: (usize, Type), dst: Type) -> (r: usize)
        requires
            old(self).scope is Some,
        ensures
            recording_step(*old(self), *final(self)),
            (final(self).scope->Some_0 is Func) == (old(self).scope->Some_0 is Func),
            !old(self).vars().dom().contains(r),
            final(self).vars() == old(self).vars().insert(r, None),
            final(self).recorded() == old(self).recorded().push(Instruction::Convert(OpConvert { src, dst: (r, dst) })),
    {
        let id = self.new_var();
        self.push_instruction(Instruction::Convert(OpConvert { src, dst: (id, dst) }));
        id
    }

    /// Records reading element `idx` of a composite into a new variable of
    /// type `element_ty`, the result.
    pub fn extract(&mut self, src_id: usize, src_ty: Type, element_ty: Type, idx: u32) -> (r: usize)
        requires
            old(self).scope is Some,
        ensures
            recording_step(*old(self), *final(self)),
            (final(self).scope->Some_0 is Func) == (old(self).scope->Some_0 is Func),
            !old(self).vars().dom().contains(r),
            final(self).vars() == old(self).vars().insert(r, None),
            final(self).recorded() == old(self).recorded().push(Instruction::Extract(OpExtract {
                src_id, src_ty, element_ty, element_idx: idx, store_id: r })),
    {
        let id = self.new_var();
        self.push_instruction(Instruction::Extract(OpExtract { src_id, src_ty, element_ty, element_idx: idx, store_id: id }));
        id
    }

    /// Records picking components of a vector into a new vector variable of
    /// type `dst`, the result.
    pub fn shuffle(&mut self, src: (usize, VectorType), dst: VectorType, components: [u32; 4]) -> (r: usize)
        requires
            old(self).scope is Some,
        ensures
            recording_step(*old(self), *final(self)),
            (final(self).scope->Some_0 is Func) == (old(self).scope->Some_0 is Func),
            !old(self).vars().dom().contains(r),
            final(self).vars() == old(self).vars().insert(r, None),
            final(self).recorded() == old(self).recorded().push(Instruction::VectorShuffle(OpVectorShuffle {
                src, dst: (r, dst), components })),
    {
        let id = self.new_var();
        self.push_instruction(Instruction::VectorShuffle(OpVectorShuffle { src, dst: (id, dst), components }));
        id
    }

    /// Records copying a value of type `ty` from `src` to `dst`.
    pub fn load_store(&mut self, ty: Type, src: OpLoadStoreData, dst: OpLoadStoreData)
        requires
            old(self).scope is Some,
        ensures
            recording_step(*old(self), *final(self)),
            (final(self).scope->Some_0 is Func) == (old(self).scope->Some_0 is Func),
            final(self).vars() == old(self).vars(),
            final(self).recorded() == old(self).recorded().push(Instruction::LoadStore(OpLoadStore { ty, src, dst })),
    {
        self.push_instruction(Instruction::LoadStore(OpLoadStore { ty, src, dst }));
    }

    /// Loads a value of type `ty` from `src` into a new variable, the result.
    pub fn load_into_new(&mut self, ty: Type, src: OpLoadStoreData) -> (r: usize)
        requires
            old(self).scope is Some,
        ensures
            recording_step(*old(self), *final(self)),
            (final(self).scope->Some_0 is Func) == (old(self).scope->Some_0 is Func),
            !old(self).vars().dom().contains(r),
            final(self).vars() == old(self).vars().insert(r, None),
            final(self).recorded() == old(self).recorded().push(Instruction::LoadStore(OpLoadStore {
                ty, src, dst: OpLoadStoreData::Variable { id: r } })),
            r == old(self).scope->Some_0.next_var(),
    {
        let id = self.new_var();
        self.load_store(ty, src, OpLoadStoreData::Variable { id });
        id
    }
}

/// A conditional chain recorded into the open scope: the place of its first
/// `if` among the scope's instructions.
pub struct IfChain {
    pub index: usize,
}

/// The chain with `tail` put after its last `if`, in place of what followed
/// that `if` before.
pub open spec fn chain_attach(op: OpIf, tail: IfElse) -> OpIf
    decreases op,
{
    match op.otherwise {
        Some(b) => match *b {
            IfElse::ElseIf(next) => OpIf {
                condition: op.condition,
                instructions: op.instructions,
                otherwise: Some(Box::new(IfElse::ElseIf(Box::new(chain_attach(*next, tail))))),
            },
            IfElse::Else(_) => OpIf { condition: op.condition, instructions: op.instructions, otherwise: Some(Box::new(tail)) },
        },
        None => OpIf { condition: op.condition, instructions: op.instructions, otherwise: Some(Box::new(tail)) },
    }
}

/// The conditions of a chain, in order.
pub open spec fn chain_conditions(op: OpIf) -> Seq<usize>
    decreases op,
{
    match op.otherwise {
        Some(b) => match *b {
            IfElse::ElseIf(next) => seq![op.condition] + chain_conditions(*next),
            IfElse::Else(_) => seq![op.condition],
        },
        None => seq![op.condition],
    }
}

/// Whether a chain ends in an `else`.
pub open spec fn chain_has_else(op: OpIf) -> bool
    decreases op,
{
    match op.otherwise {
        Some(b) => match *b {
            IfElse::ElseIf(next) => chain_has_else(*next),
            IfElse::Else(_) => true,
        },
        None => false,
    }
}

/// Puts `tail` after the last `if` of the chain.
fn attach(op: OpIf, tail: IfElse) -> (r: OpIf)
    ensures
        r == chain_attach(op, tail),
    decreases op,
{
    let OpIf { condition, instructions, otherwise } = op;
    match otherwise {
        Some(b) => match *b {
            IfElse::ElseIf(next) => {
                let n = attach(*next, tail);
                OpIf { condition, instructions, otherwise: Some(Box::new(IfElse::ElseIf(Box::new(n)))) }
            },
            IfElse::Else(_) => OpIf { condition, instructions, otherwise: Some(Box::new(tail)) },
        },
        None => OpIf { condition, instructions, otherwise: Some(Box::new(tail)) },
    }
}

/// Attaching an `else if` to a chain without an `else` adds its condition at
/// the end and leaves the chain without an `else`; attaching an `else` to such
/// a chain keeps its conditions and gives it an `else`.
pub proof fn lemma_chain_attach(op: OpIf, tail: IfElse)
    requires
        !chain_has_else(op),
    ensures
        tail matches IfElse::ElseIf(next) ==> chain_conditions(chain_attach(op, tail)) == chain_conditions(op) + chain_conditions(*next),
        tail matches IfElse::ElseIf(next) ==> chain_has_else(chain_attach(op, tail)) == chain_has_else(*next),
        tail is Else ==> chain_conditions(chain_attach(op, tail)) == chain_conditions(op),
        tail is Else ==> chain_has_else(chain_attach(op, tail)),
    decreases op,
{
    match op.otherwise {
        Some(b) => match *b {
            IfElse::ElseIf(next) => {
                lemma_chain_attach(*next, tail);
                if let IfElse::ElseIf(n2) = tail {
                    assert(chain_conditions(chain_attach(op, tail)) =~= seq![op.condition] + chain_conditions(chain_attach(*next, tail)));
                    assert(seq![op.condition] + (chain_conditions(*next) + chain_conditions(*n2)) =~= (seq![op.condition] + chain_conditions(*next)) + chain_conditions(*n2));
                }
            },
            IfElse::Else(_) => {},
        },
        None => {},
    }
}

/// Puts `tail` after the last `if` of the chain recorded at `idx`.
pub(crate) fn attach_in(v: &mut Vec<Instruction>, idx: usize, tail: IfElse)
    requires
        idx < old(v)@.len(),
        old(v)@[idx as int] is If,
    ensures
        final(v)@ == old(v)@.update(idx as int, Instruction::If(chain_attach(old(v)@[idx as int]->If_0, tail))),
{
    let ins = v.remove(idx);
    match ins {
        Instruction::If(op) => {
            let op2 = attach(op, tail);
            v.insert(idx, Instruction::If(op2));
        },
        other => {
            v.insert(idx, other);
        },
    }
    proof {
        assert(final(v)@ =~= old(v)@.update(idx as int, Instruction::If(chain_attach(old(v)@[idx as int]->If_0, tail))));
    }
}

/// The instructions of a scope after replacing the chain at `idx`.
pub open spec fn attached(s: Seq<Instruction>, idx: int, tail: IfElse) -> Seq<Instruction> {
    s.update(idx, Instruction::If(chain_attach(s[idx]->If_0, tail)))
}

impl BuilderInner {
    /// Opens the body of a branch inside the open scope; instructions are
    /// recorded into it until the branch is closed.
    pub fn begin_if(&mut self)
        requires
            old(self).scope is Some,
        ensures
            opens_branch(*old(self), *final(self)),
    {
        let outer = self.scope.take();
        match outer {
            Some(o) => {
                self.scope = Some(Scope::If(IfScope { instructions: Vec::new(), outer: Box::new(o) }));
            },
            None => {},
        }
    }

    /// Takes the body of the open branch and gives the enclosing scope back.
    fn close_branch(&mut self) -> (r: Vec<Instruction>)
        requires
            old(self).scope matches Some(Scope::If(_)),
        ensures
            same_but_scope(*final(self), *old(self)),
            r@ == old(self).recorded(),
            final(self).scope == Some(*old(self).scope->Some_0->If_0.outer),
    {
        let s = self.scope.take();
        match s {
            Some(Scope::If(i)) => {
                let IfScope { instructions, outer } = i;
                self.scope = Some(*outer);
                instructions
            },
            _ => Vec::new(),
        }
    }

    /// Closes the open branch as the body of `if condition`, recorded at the
    /// end of the enclosing scope; the result points at it.
    pub fn end_if(&mut self, condition: usize) -> (r: IfChain)
        requires
            old(self).scope matches Some(Scope::If(_)),
        ensures
            closes_if(*old(self), *final(self), condition, r),
    {
        let body = self.close_branch();
        let ghost outer = self.scope->Some_0;
        let index = match &self.scope {
            Some(Scope::Func(f)) => f.instructions.len(),
            Some(Scope::If(i)) => i.instructions.len(),
            None => 0,
        };
        self.push_instruction(Instruction::If(OpIf { condition, instructions: body, otherwise: None }));
        proof {
            assert(self.recorded().drop_last() =~= outer.recorded());
        }
        IfChain { index }
    }

    /// Closes the open branch as an `else if condition` of the chain, put
    /// after the chain's last `if`.
    pub fn end_else_if(&mut self, chain: &IfChain, condition: usize)
        requires
            old(self).scope matches Some(Scope::If(_)),
            chain.index < old(self).scope->Some_0->If_0.outer.recorded().len(),
            old(self).scope->Some_0->If_0.outer.recorded()[chain.index as int] is If,
        ensures
            same_but_scope(*final(self), *old(self)),
            final(self).scope is Some,
            final(self).scope->Some_0.depth() + 1 == old(self).scope->Some_0.depth(),
            final(self).vars() == old(self).vars(),
            exists|body: Vec<Instruction>| #![auto]
                body@ == old(self).recorded()
                && final(self).recorded() == attached(old(self).scope->Some_0->If_0.outer.recorded(), chain.index as int,
                    IfElse::ElseIf(Box::new(OpIf { condition, instructions: body, otherwise: None }))),
    {
        let body = self.close_branch();
        let ghost b = body;
        let tail = IfElse::ElseIf(Box::new(OpIf { condition, instructions: body, otherwise: None }));
        match &mut self.scope {
            Some(s) => s.attach_chain(chain.index, tail),
            None => {},
        }
        assert(b@ == old(self).recorded());
    }

    /// Closes the open branch as the `else` of the chain, put after the
    /// chain's last `if`.
    pub fn end_else(&mut self, chain: IfChain)
        requires
            old(self).scope matches Some(Scope::If(_)),
            chain.index < old(self).scope->Some_0->If_0.outer.recorded().len(),
            old(self).scope->Some_0->If_0.outer.recorded()[chain.index as int] is If,
        ensures
            same_but_scope(*final(self), *old(self)),
            final(self).scope is Some,
            final(self).scope->Some_0.depth() + 1 == old(self).scope->Some_0.depth(),
            final(self).vars() == old(self).vars(),
            exists|body: Vec<Instruction>| #![auto]
                body@ == old(self).recorded()
                && final(self).recorded() == attached(old(self).scope->Some_0->If_0.outer.recorded(), chain.index as int,
                    IfElse::Else(OpElse { instructions: body })),
    {
        let body = self.close_branch();
        let ghost b = body;
        let tail = IfElse::Else(OpElse { instructions: body });
        match &mut self.scope {
            Some(s) => s.attach_chain(chain.index, tail),
            None => {},
        }
        assert(b@ == old(self).recorded());
    }
}

/// How many instructions resolving the operands records: one per constant.
pub open spec fn consts_in(ops: Seq<Operand>) -> nat
    decreases ops.len(),
{
    if ops.len() == 0 {
        0
    } else {
        consts_in(ops.drop_last()) + operand_consts(ops.last())
    }
}

/// Each resolved operand stands for its operand: the same variable, or a new
/// one for a constant, of the operand's type.
pub open spec fn all_resolve(ops: Seq<Operand>, vs: Seq<(usize, Type)>) -> bool {
    &&& vs.len() == ops.len()
    &&& forall|i: int| 0 <= i < ops.len() ==> (#[trigger] vs[i]).1@ == operand_view(ops[i])
    &&& forall|i: int| 0 <= i < ops.len() ==> (ops[i] is Var ==> (#[trigger] vs[i]).0 == ops[i]->Var_0)
}

/// The first member of `ms` with the name `n`, if any.
pub open spec fn is_first_named(ms: Seq<StructMember>, n: Seq<char>, i: int) -> bool {
    &&& 0 <= i < ms.len()
    &&& name_view(ms[i].name) == Some(n)
    &&& forall|j: int| 0 <= j < i ==> name_view((#[trigger] ms[j]).name) != Some(n)
}

/// The place of the first member of a struct type named `name`; none for a
/// type that is not a struct or has no such member.
pub fn field_index(ty: &Type, name: &str) -> (r: Option<usize>)
    ensures
        match r {
            Some(i) => ty is Struct && is_first_named(ty->Struct_0.members@, name@, i as int),
            None => ty is Struct ==> forall|j: int| 0 <= j < ty->Struct_0.members@.len()
                ==> name_view((#[trigger] ty->Struct_0.members@[j]).name) != Some(name@),
        },
{
    match ty {
        Type::Struct(st) => {
            let target: String = name.to_owned();
            let mut i: usize = 0;
            while i < st.members.len()
                invariant
                    i <= st.members@.len(),
                    target@ == name@,
                    ty is Struct,
                    ty->Struct_0.members@ == st.members@,
                    forall|j: int| 0 <= j < i ==> name_view((#[trigger] st.members@[j]).name) != Some(name@),
                decreases st.members@.len() - i,
            {
                match &st.members[i].name {
                    Some(n) => {
                        if *n == target {
                            assert(name_view(st.members@[i as int].name) == Some(name@));
                            assert(is_first_named(st.members@, name@, i as int));
                            assert(ty->Struct_0.members@ == st.members@);
                            return Some(i);
                        }
                    },
                    None => {},
                }
                i = i + 1;
            }
            None
        },
        _ => None,
    }
}

impl BuilderInner {
    /// The variable of an operand, which is kept, and its type: the variable
    /// itself, or a new variable the constant is stored into.
    pub fn operand_ref(&mut self, o: &Operand) -> (r: (usize, Type))
        requires
            old(self).scope is Some,
        ensures
            recording_step(*old(self), *final(self)),
            (final(self).scope->Some_0 is Func) == (old(self).scope->Some_0 is Func),
            grew(old(self).recorded(), final(self).recorded(), operand_consts(*o)),
            vars_grew(old(self).vars(), final(self).vars()),
            r.1@ == operand_view(*o),
            *o is Var ==> r.0 == o->Var_0,
            *o is Const ==> !old(self).vars().dom().contains(r.0),
    {
        let ghost r0 = self.recorded();
        match o {
            Operand::Var(id, ty) => {
                proof {
                    assert(r0.subrange(0, r0.len() as int) =~= r0);
                }
                (*id, ty.copy())
            },
            Operand::Const(v) => {
                let ty = v.ty();
                let id = self.set_const(*v);
                proof {
                    lemma_grew_push(r0, self.recorded().last());
                }
                (id, ty)
            },
        }
    }

    /// Resolves operands in order.
    pub fn resolve_all(&mut self, ops: &Vec<Operand>) -> (r: Vec<(usize, Type)>)
        requires
            old(self).scope is Some,
        ensures
            recording_step(*old(self), *final(self)),
            (final(self).scope->Some_0 is Func) == (old(self).scope->Some_0 is Func),
            grew(old(self).recorded(), final(self).recorded(), consts_in(ops@)),
            vars_grew(old(self).vars(), final(self).vars()),
            all_resolve(ops@, r@),
    {
        let ghost r0 = self.recorded();
        let mut out: Vec<(usize, Type)> = Vec::new();
        let mut i: usize = 0;
        proof {
            assert(r0.subrange(0, r0.len() as int) =~= r0);
            assert(ops@.take(0) =~= Seq::<Operand>::empty());
        }
        while i < ops.len()
            invariant
                i <= ops@.len(),
                recording_step(*old(self), *self),
                (self.scope->Some_0 is Func) == (old(self).scope->Some_0 is Func),
                grew(r0, self.recorded(), consts_in(ops@.take(i as int))),
                r0 == old(self).recorded(),
                vars_grew(old(self).vars(), self.vars()),
                all_resolve(ops@.take(i as int), out@),
            decreases ops@.len() - i,
        {
            let ghost before = self.recorded();
            let ghost vars_before = self.vars();
            let c = self.operand_ref(&ops[i]);
            out.push(c);
            proof {
                lemma_grew_trans(r0, before, self.recorded(), consts_in(ops@.take(i as int)), operand_consts(ops@[i as int]));
                assert(ops@.take(i + 1).drop_last() =~= ops@.take(i as int));
                assert(ops@.take(i + 1).last() == ops@[i as int]);
                assert forall|k: usize| old(self).vars().dom().contains(k) implies #[trigger] self.vars().dom().contains(k) && self.vars()[k] == old(self).vars()[k] by {
                    assert(vars_before.dom().contains(k));
                }
                assert forall|j: int| 0 <= j < i + 1 implies (#[trigger] out@[j]).1@ == operand_view(ops@.take(i + 1)[j]) by {
                    if j < i {
                        assert(ops@.take(i + 1)[j] == ops@.take(i as int)[j]);
                    }
                }
                assert forall|j: int| 0 <= j < i + 1 && ops@.take(i + 1)[j] is Var implies (#[trigger] out@[j]).0 == ops@.take(i + 1)[j]->Var_0 by {
                    if j < i {
                        assert(ops@.take(i + 1)[j] == ops@.take(i as int)[j]);
                    }
                }
            }
            i = i + 1;
        }
        proof {
            assert(ops@.take(ops@.len() as int) =~= ops@);
        }
        out
    }

    /// Records building a composite of type `ty` into a new variable, the
    /// result, from its constituents in order.
    pub fn composite(&mut self, ty: Type, constituents: &Vec<Operand>) -> (r: usize)
        requires
            old(self).scope is Some,
        ensures
            recording_step(*old(self), *final(self)),
            (final(self).scope->Some_0 is Func) == (old(self).scope->Some_0 is Func),
            !old(self).vars().dom().contains(r),
            final(self).vars().dom().contains(r),
            vars_grew(old(self).vars(), final(self).vars()),
            grew(old(self).recorded(), final(self).recorded(), consts_in(constituents@) + 1),
            final(self).recorded().last() matches Instruction::Composite(o) && o.ty == ty && o.id == r
                && all_resolve(constituents@, o.constituents@),
    {
        let new_id = self.new_var();
        let ghost r1 = self.recorded();
        let cs = self.resolve_all(constituents);
        let ghost r2 = self.recorded();
        self.push_instruction(Instruction::Composite(OpComposite { ty, id: new_id, constituents: cs }));
        proof {
            lemma_grew_push(r2, self.recorded().last());
            lemma_grew_trans(r1, r2, self.recorded(), consts_in(constituents@), 1);
        }
        new_id
    }

    /// Records combining a declared texture and sampler into a new variable,
    /// the result.
    pub fn combine(&mut self, tex_ty: TextureType, texture: usize, sampler: usize) -> (r: usize)
        requires
            old(self).scope is Some,
        ensures
            recording_step(*old(self), *final(self)),
            (final(self).scope->Some_0 is Func) == (old(self).scope->Some_0 is Func),
            !old(self).vars().dom().contains(r),
            final(self).vars() == old(self).vars().insert(r, None),
            final(self).recorded() == old(self).recorded().push(Instruction::Combine(OpCombine { tex_ty, texture, sampler, store: r })),
    {
        let store = self.new_var();
        self.push_instruction(Instruction::Combine(OpCombine { tex_ty, texture, sampler, store }));
        store
    }

    /// Records sampling a texture at a coordinate into a new variable of type
    /// `store_ty`, the result.
    pub fn sample(&mut self, tex_ty: TextureType, sampled_texture: SampledTextureRef, coordinate: Operand, store_ty: Type) -> (r: usize)
        requires
            old(self).scope is Some,
        ensures
            recording_step(*old(self), *final(self)),
            (final(self).scope->Some_0 is Func) == (old(self).scope->Some_0 is Func),
            !old(self).vars().dom().contains(r),
            final(self).vars().dom().contains(r),
            vars_grew(old(self).vars(), final(self).vars()),
            grew(old(self).recorded(), final(self).recorded(), operand_consts(coordinate) + 1),
            final(self).recorded().last() matches Instruction::Sample(o) && o.tex_ty == tex_ty
                && o.sampled_texture == sampled_texture && o.store == (r, store_ty) && !o.explict_lod
                && resolves(coordinate, o.coordinate),
    {
        let new_id = self.new_var();
        let ghost r1 = self.recorded();
        let c = self.operand_id(coordinate);
        let ghost r2 = self.recorded();
        self.push_instruction(Instruction::Sample(OpSample {
            tex_ty,
            sampled_texture,
            coordinate: c,
            store: (new_id, store_ty),
            explict_lod: false,
        }));
        proof {
            lemma_grew_push(r2, self.recorded().last());
            lemma_grew_trans(r1, r2, self.recorded(), operand_consts(coordinate), 1);
        }
        new_id
    }
}

impl Func {
    /// Records a call of this function with the arguments, storing its result
    /// into a new variable, the result.
    pub fn call(&self, b: &mut BuilderInner, args: &Vec<Operand>) -> (r: usize)
        requires
            old(b).scope is Some,
        ensures
            recording_step(*old(b), *final(b)),
            (final(b).scope->Some_0 is Func) == (old(b).scope->Some_0 is Func),
            !old(b).vars().dom().contains(r),
            final(b).vars().dom().contains(r),
            vars_grew(old(b).vars(), final(b).vars()),
            grew(old(b).recorded(), final(b).recorded(), consts_in(args@) + 1),
            final(b).recorded().last() matches Instruction::FuncCall(o) && o.func == self.id && o.store == r
                && o.store_ty@ == self.ret@ && all_resolve(args@, o.args@),
            r == old(b).scope->Some_0.next_var(),
    {
        let new_id = b.new_var();
        let ghost r1 = b.recorded();
        let resolved = b.resolve_all(args);
        let ghost r2 = b.recorded();
        let store_ty = self.ret.copy();
        b.push_instruction(Instruction::FuncCall(OpFuncCall { func: self.id, store_ty, store: new_id, args: resolved }));
        proof {
            lemma_grew_push(r2, b.recorded().last());
            lemma_grew_trans(r1, r2, b.recorded(), consts_in(args@), 1);
        }
        new_id
    }
}

/// The recorded list gained one load into the new variable `r`: of a value
/// whose type has the view `ty`, from `src`.
pub open spec fn loaded_into(old: BuilderInner, new: BuilderInner, r: usize, ty: TypeView, src: OpLoadStoreData) -> bool {
    &&& recording_step(old, new)
    &&& (new.scope->Some_0 is Func) == (old.scope->Some_0 is Func)
    &&& r == old.scope->Some_0.next_var()
    &&& !old.vars().dom().contains(r)
    &&& new.vars() == old.vars().insert(r, None)
    &&& new.recorded().drop_last() == old.recorded()
    &&& new.recorded().len() == old.recorded().len() + 1
    &&& new.recorded().last() matches Instruction::LoadStore(o) && o.ty@ == ty && o.src == src
        && o.dst == OpLoadStoreData::Variable { id: r }
}

/// A load recorded by [`BuilderInner::load_into_new`] is a `loaded_into`.
proof fn lemma_loaded(old: BuilderInner, new: BuilderInner, r: usize, ty: Type, src: OpLoadStoreData)
    requires
        recording_step(old, new),
        (new.scope->Some_0 is Func) == (old.scope->Some_0 is Func),
        !old.vars().dom().contains(r),
        new.vars() == old.vars().insert(r, None),
        new.recorded() == old.recorded().push(Instruction::LoadStore(OpLoadStore { ty, src, dst: OpLoadStoreData::Variable { id: r } })),
        r == old.scope->Some_0.next_var(),
    ensures
        loaded_into(old, new, r, ty@, src),
{
    assert(new.recorded().drop_last() =~= old.recorded());
}

impl Input {
    /// Records loading this input into a new variable, the result.
    pub fn load(&self, b: &mut BuilderInner) -> (r: usize)
        requires
            old(b).scope is Some,
        ensures
            loaded_into(*old(b), *final(b), r, io_type(self.ty), OpLoadStoreData::Input { location: self.id }),
    {
        let ty = self.ty.ty();
        let ghost t = ty;
        let r = b.load_into_new(ty, OpLoadStoreData::Input { location: self.id });
        proof {
            lemma_loaded(*old(b), *b, r, t, OpLoadStoreData::Input { location: self.id });
        }
        r
    }
}

impl Output {
    /// Records storing variable `id` into this output.
    pub fn store(&self, b: &mut BuilderInner, id: usize)
        requires
            old(b).scope is Some,
        ensures
            recording_step(*old(b), *final(b)),
            (final(b).scope->Some_0 is Func) == (old(b).scope->Some_0 is Func),
            final(b).vars() == old(b).vars(),
            final(b).recorded().drop_last() == old(b).recorded(),
            final(b).recorded().len() == old(b).recorded().len() + 1,
            final(b).recorded().last() matches Instruction::LoadStore(o) && o.ty@ == io_type(self.ty)
                && o.src == (OpLoadStoreData::Variable { id }) && o.dst == (OpLoadStoreData::Output { location: self.id }),
    {
        let ty = self.ty.ty();
        b.load_store(ty, OpLoadStoreData::Variable { id }, OpLoadStoreData::Output { location: self.id });
        proof {
            assert(b.recorded().drop_last() =~= old(b).recorded());
        }
    }
}

impl PushConstants {
    /// Records loading the push constant block into a new variable, the
    /// result.
    pub fn load(&self, b: &mut BuilderInner) -> (r: usize)
        requires
            old(b).scope is Some,
        ensures
            loaded_into(*old(b), *final(b), r, self.ty@, OpLoadStoreData::PushConstant),
    {
        let ty = self.ty.copy();
        let ghost t = ty;
        let r = b.load_into_new(ty, OpLoadStoreData::PushConstant);
        proof {
            lemma_loaded(*old(b), *b, r, t, OpLoadStoreData::PushConstant);
        }
        r
    }

    /// Records loading member `field` of the push constant block into a new
    /// variable, the result. The load is recorded with the block's own type.
    pub fn load_field_by_index(&self, b: &mut BuilderInner, field: u32) -> (r: usize)
        requires
            old(b).scope is Some,
        ensures
            loaded_into(*old(b), *final(b), r, self.ty@, OpLoadStoreData::PushConstantField { field }),
    {
        let ty = self.ty.copy();
        let ghost t = ty;
        let r = b.load_into_new(ty, OpLoadStoreData::PushConstantField { field });
        proof {
            lemma_loaded(*old(b), *b, r, t, OpLoadStoreData::PushConstantField { field });
        }
        r
    }

    /// Records loading the first member named `field` of the push constant
    /// block, as [`PushConstants::load_field_by_index`] does.
    pub fn load_field(&self, b: &mut BuilderInner, field: &str) -> (r: usize)
        requires
            old(b).scope is Some,
            self.ty is Struct,
            exists|i: int| is_first_named(self.ty->Struct_0.members@, field@, i),
        ensures
            exists|i: int| #![auto] is_first_named(self.ty->Struct_0.members@, field@, i)
                && loaded_into(*old(b), *final(b), r, self.ty@, OpLoadStoreData::PushConstantField { field: i as u32 }),
            loaded_into(*old(b), *final(b), r, self.ty@,
                OpLoadStoreData::PushConstantField { field: first_named(self.ty->Struct_0.members@, field@) as u32 }),
    {
        let idx = field_index(&self.ty, field);
        match idx {
            Some(i) => {
                #[verifier::truncate]
                let k = i as u32;
                proof {
                    let c = choose|c: int| is_first_named(self.ty->Struct_0.members@, field@, c);
                    lemma_first_named_unique(self.ty->Struct_0.members@, field@, i as int, c);
                }
                self.load_field_by_index(b, k)
            },
            None => {
                proof {
                    let k = choose|i: int| is_first_named(self.ty->Struct_0.members@, field@, i);
                    assert(name_view(self.ty->Struct_0.members@[k].name) == Some(field@));
                }
                0
            },
        }
    }
}

impl Uniform {
    /// Records loading this uniform buffer's value into a new variable, the
    /// result.
    pub fn load(&self, b: &mut BuilderInner) -> (r: usize)
        requires
            old(b).scope is Some,
        ensures
            loaded_into(*old(b), *final(b), r, self.ty@, OpLoadStoreData::Uniform { id: self.id }),
    {
        let ty = self.ty.copy();
        let ghost t = ty;
        let r = b.load_into_new(ty, OpLoadStoreData::Uniform { id: self.id });
        proof {
            lemma_loaded(*old(b), *b, r, t, OpLoadStoreData::Uniform { id: self.id });
        }
        r
    }

    /// Records loading member `field` of this uniform buffer's value into a
    /// new variable, the result. The load is recorded with the buffer's own
    /// type.
    pub fn load_field_by_index(&self, b: &mut BuilderInner, field: u32) -> (r: usize)
        requires
            old(b).scope is Some,
        ensures
            loaded_into(*old(b), *final(b), r, self.ty@, OpLoadStoreData::UniformField { field, id: self.id }),
    {
        let ty = self.ty.copy();
        let ghost t = ty;
        let r = b.load_into_new(ty, OpLoadStoreData::UniformField { field, id: self.id });
        proof {
            lemma_loaded(*old(b), *b, r, t, OpLoadStoreData::UniformField { field, id: self.id });
        }
        r
    }

    /// Records loading the first member named `field`, as
    /// [`Uniform::load_field_by_index`] does.
    pub fn load_field(&self, b: &mut BuilderInner, field: &str) -> (r: usize)
        requires
            old(b).scope is Some,
            self.ty is Struct,
            exists|i: int| is_first_named(self.ty->Struct_0.members@, field@, i),
        ensures
            exists|i: int| #![auto] is_first_named(self.ty->Struct_0.members@, field@, i)
                && loaded_into(*old(b), *final(b), r, self.ty@, OpLoadStoreData::UniformField { field: i as u32, id: self.id }),
    {
        let idx = field_index(&self.ty, field);
        match idx {
            Some(i) => {
                #[verifier::truncate]
                let k = i as u32;
                self.load_field_by_index(b, k)
            },
            None => {
                proof {
                    let k = choose|i: int| is_first_named(self.ty->Struct_0.members@, field@, i);
                    assert(name_view(self.ty->Struct_0.members@[k].name) == Some(field@));
                }
                0
            },
        }
    }
}

/// The variable a constant operand was given, as a set; none for a
/// variable operand.
pub open spec fn const_var(o: Operand, id: usize) -> Set<usize> {
    match o {
        Operand::Const(_) => set![id],
        Operand::Var(_, _) => Set::empty(),
    }
}

/// The place of the first member named `n`, where there is one.
pub open spec fn first_named(ms: Seq<StructMember>, n: Seq<char>) -> int {
    choose|i: int| is_first_named(ms, n, i)
}

/// Two members that are each the first of a name are the same member.
pub proof fn lemma_first_named_unique(ms: Seq<StructMember>, n: Seq<char>, i: int, k: int)
    requires
        is_first_named(ms, n, i),
        is_first_named(ms, n, k),
    ensures
        i == k,
{
    if i < k {
        assert(name_view(ms[i].name) == Some(n));
    } else if k < i {
        assert(name_view(ms[k].name) == Some(n));
    }
}

/// Loading a push constant member by name records what loading it by the
/// index of the first member of that name records.
pub proof fn law_push_field_by_name(old: BuilderInner, new: BuilderInner, r: usize, ty: Type, field: Seq<char>, i: int)
    requires
        ty is Struct,
        is_first_named(ty->Struct_0.members@, field, i),
        exists|k: int| #![auto] is_first_named(ty->Struct_0.members@, field, k)
            && loaded_into(old, new, r, ty@, OpLoadStoreData::PushConstantField { field: k as u32 }),
    ensures
        loaded_into(old, new, r, ty@, OpLoadStoreData::PushConstantField { field: i as u32 }),
{
    let k = choose|k: int| #![auto] is_first_named(ty->Struct_0.members@, field, k)
        && loaded_into(old, new, r, ty@, OpLoadStoreData::PushConstantField { field: k as u32 });
    lemma_first_named_unique(ty->Struct_0.members@, field, i, k);
}

/// An operand names a variable recorded in `b`, or is a constant.
pub open spec fn operand_known(b: BuilderInner, o: Operand) -> bool {
    match o {
        Operand::Var(i, _) => b.vars().dom().contains(i),
        Operand::Const(_) => true,
    }
}

/// The recorded list gained a load of a storage buffer element, whose index
/// was resolved first, into the new variable `r`, which is taken before the
/// index is resolved and so differs from the variable of a known index.
pub open spec fn loaded_element(old: BuilderInner, new: BuilderInner, r: usize, ty: TypeView, id: usize,
    element: Operand, field: Option<u32>) -> bool
{
    &&& recording_step(old, new)
    &&& (new.scope->Some_0 is Func) == (old.scope->Some_0 is Func)
    &&& r == old.scope->Some_0.next_var()
    &&& !old.vars().dom().contains(r)
    &&& new.vars().dom().contains(r)
    &&& vars_grew(old.vars(), new.vars())
    &&& grew(old.recorded(), new.recorded(), operand_consts(element) + 1)
    &&& new.recorded().last() matches Instruction::LoadStore(o) && o.ty@ == ty
        && o.dst == OpLoadStoreData::Variable { id: r }
        && match field {
            None => o.src matches OpLoadStoreData::StorageElement { id: i, element: e } && i == id && resolves(element, e)
                && (operand_known(old, element) ==> e.0 != r),
            Some(f) => o.src matches OpLoadStoreData::StorageElementField { id: i, element: e, field: g }
                && i == id && g == f && resolves(element, e) && (operand_known(old, element) ==> e.0 != r),
        }
}

impl Storage {
    /// Records loading the element at index `element` of this storage buffer
    /// into a new variable, the result.
    pub fn load_element(&self, b: &mut BuilderInner, element: Operand) -> (r: usize)
        requires
            old(b).scope is Some,
        ensures
            loaded_element(*old(b), *final(b), r, self.ty@, self.id, element, None),
    {
        let new_id = b.new_var();
        let ghost r1 = b.recorded();
        let e = b.operand_id(element);
        let ghost r2 = b.recorded();
        let ty = self.ty.copy();
        b.load_store(ty, OpLoadStoreData::StorageElement { id: self.id, element: e }, OpLoadStoreData::Variable { id: new_id });
        proof {
            lemma_grew_push(r2, b.recorded().last());
            lemma_grew_trans(r1, r2, b.recorded(), operand_consts(element), 1);
        }
        new_id
    }

    /// Records loading member `field` of the element at index `element` into
    /// a new variable, the result. The load is recorded with the element's own
    /// type.
    pub fn load_field_by_index(&self, b: &mut BuilderInner, element: Operand, field: u32) -> (r: usize)
        requires
            old(b).scope is Some,
        ensures
            loaded_element(*old(b), *final(b), r, self.ty@, self.id, element, Some(field)),
    {
        let new_id = b.new_var();
        let ghost r1 = b.recorded();
        let e = b.operand_id(element);
        let ghost r2 = b.recorded();
        let ty = self.ty.copy();
        b.load_store(ty, OpLoadStoreData::StorageElementField { id: self.id, element: e, field }, OpLoadStoreData::Variable { id: new_id });
        proof {
            lemma_grew_push(r2, b.recorded().last());
            lemma_grew_trans(r1, r2, b.recorded(), operand_consts(element), 1);
        }
        new_id
    }

    /// Records loading the first member named `field` of an element, as
    /// [`Storage::load_field_by_index`] does.
    pub fn load_field(&self, b: &mut BuilderInner, element: Operand, field: &str) -> (r: usize)
        requires
            old(b).scope is Some,
            self.ty is Struct,
            exists|i: int| is_first_named(self.ty->Struct_0.members@, field@, i),
        ensures
            exists|i: int| #![auto] is_first_named(self.ty->Struct_0.members@, field@, i)
                && loaded_element(*old(b), *final(b), r, self.ty@, self.id, element, Some(i as u32)),
    {
        let idx = field_index(&self.ty, field);
        match idx {
            Some(i) => {
                #[verifier::truncate]
                let k = i as u32;
                self.load_field_by_index(b, element, k)
            },
            None => {
                proof {
                    let k = choose|i: int| is_first_named(self.ty->Struct_0.members@, field@, i);
                    assert(name_view(self.ty->Struct_0.members@[k].name) == Some(field@));
                }
                0
            },
        }
    }
}

/// A branch body recorded between [`BuilderInner::begin_if`] and
/// [`BuilderInner::end_if`] leaves the enclosing scope as it was before the
/// branch was opened, with one `if` more at its end: on the condition, and
/// holding exactly what was recorded in the branch. The scopes further out,
/// the declarations and the recorded functions are untouched, and the
/// nesting depth is back where it was.
pub proof fn law_if_nesting(a: BuilderInner, b: BuilderInner, c: BuilderInner, d: BuilderInner, condition: usize, r: IfChain)
    requires
        opens_branch(a, b),
        recording_step(b, c),
        closes_if(c, d, condition, r),
    ensures
        d.scope->Some_0.depth() == a.scope->Some_0.depth(),
        d.recorded().drop_last() == a.recorded(),
        d.scope->Some_0.frames().skip(1) == a.scope->Some_0.frames().skip(1),
        d.recorded().last() matches Instruction::If(op) && op.condition == condition && op.instructions@ == c.recorded(),
        r.index == a.recorded().len(),
        same_but_scope(d, a),
{
    let sa = a.scope->Some_0;
    let sb = b.scope->Some_0;
    let sc = c.scope->Some_0;
    assert(sb.frames() == seq![sb.recorded()] + sa.frames());
    assert(sb.frames().skip(1) =~= sa.frames());
    assert(sc is If);
    let outer = *sc->If_0.outer;
    assert(sc.frames() == seq![sc.recorded()] + outer.frames());
    assert(sc.frames().skip(1) =~= outer.frames());
    assert(outer.frames() == sa.frames());
    assert(outer.recorded() == outer.frames()[0]);
    assert(sa.recorded() == sa.frames()[0]);
}

/// A struct variable of the open function: its number and its type.
pub struct Struct {
    pub id: usize,
    pub ty: StructType,
}

impl Struct {
    /// Records loading member `field`, of type `field_ty`, into a new
    /// variable, the result.
    pub fn load_field_by_index(&self, b: &mut BuilderInner, field_ty: Type, field: u32) -> (r: usize)
        requires
            old(b).scope is Some,
        ensures
            recording_step(*old(b), *final(b)),
            (final(b).scope->Some_0 is Func) == (old(b).scope->Some_0 is Func),
            !old(b).vars().dom().contains(r),
            final(b).vars() == old(b).vars().insert(r, None),
            final(b).recorded().drop_last() == old(b).recorded(),
            final(b).recorded().last() matches Instruction::LoadStore(o) && o.ty@ == field_ty@
                && o.dst == (OpLoadStoreData::Variable { id: r })
                && (o.src matches OpLoadStoreData::Struct { id, struct_ty, field: f }
                && id == self.id && struct_ty@ == self.ty@ && f == field),
    {
        let ghost t = field_ty;
        let r = b.load_into_new(field_ty, OpLoadStoreData::Struct { id: self.id, struct_ty: self.ty.copy(), field });
        proof {
            assert(b.recorded().drop_last() =~= old(b).recorded());
        }
        r
    }

    /// Records loading the first member named `field`, as
    /// [`Struct::load_field_by_index`] does.
    pub fn load_field(&self, b: &mut BuilderInner, field_ty: Type, field: &str) -> (r: usize)
        requires
            old(b).scope is Some,
            exists|i: int| is_first_named(self.ty.members@, field@, i),
        ensures
            exists|i: int| #![auto] is_first_named(self.ty.members@, field@, i)
                && (final(b).recorded().last() matches Instruction::LoadStore(o)
                && o.ty@ == field_ty@ && o.dst == (OpLoadStoreData::Variable { id: r })
                && (o.src matches OpLoadStoreData::Struct { id, struct_ty, field: f }
                && id == self.id && struct_ty@ == self.ty@ && f == i as u32)),
            !old(b).vars().dom().contains(r),
            final(b).vars() == old(b).vars().insert(r, None),
            final(b).recorded().drop_last() == old(b).recorded(),
    {
        let target: String = field.to_owned();
        let mut i: usize = 0;
        while i < self.ty.members.len()
            invariant
                i <= self.ty.members@.len(),
                target@ == field@,
                *b == *old(b),
                b.scope is Some,
                forall|j: int| 0 <= j < i ==> name_view((#[trigger] self.ty.members@[j]).name) != Some(field@),
                exists|k: int| is_first_named(self.ty.members@, field@, k),
            decreases self.ty.members@.len() - i,
        {
            let found = match &self.ty.members[i].name {
                Some(n) => *n == target,
                None => false,
            };
            if found {
                assert(is_first_named(self.ty.members@, field@, i as int));
                #[verifier::truncate]
                let k = i as u32;
                return self.load_field_by_index(b, field_ty, k);
            }
            i = i + 1;
        }
        proof {
            let k = choose|k: int| is_first_named(self.ty.members@, field@, k);
            assert(name_view(self.ty.members@[k].name) == Some(field@));
        }
        0
    }
}

/// An array variable of the open function: its number and its type.
pub struct Array {
    pub id: usize,
    pub ty: ArrayType,
}

impl Array {
    /// Records loading the element at `index` (a constant index first stored
    /// into a variable of its own), of type `element_ty`, into a new variable,
    /// the result.
    pub fn index(&self, b: &mut BuilderInner, element_ty: Type, index: Operand) -> (r: usize)
        requires
            old(b).scope is Some,
        ensures
            recording_step(*old(b), *final(b)),
            (final(b).scope->Some_0 is Func) == (old(b).scope->Some_0 is Func),
            !old(b).vars().dom().contains(r),
            final(b).vars().dom().contains(r),
            vars_grew(old(b).vars(), final(b).vars()),
            grew(old(b).recorded(), final(b).recorded(), operand_consts(index) + 1),
            final(b).recorded().last() matches Instruction::LoadStore(o) && o.ty@ == element_ty@
                && o.dst == (OpLoadStoreData::Variable { id: r })
                && (o.src matches OpLoadStoreData::ArrayElement { id, array_ty, index: idx }
                && id == self.id && array_ty@ == self.ty@ && resolves(index, idx)),
    {
        let ghost r0 = b.recorded();
        let id = b.new_var();
        let ghost r1 = b.recorded();
        let idx = b.operand_id(index);
        let ghost r2 = b.recorded();
        b.load_store(element_ty, OpLoadStoreData::ArrayElement { id: self.id, array_ty: self.ty.copy(), index: idx }, OpLoadStoreData::Variable { id });
        proof {
            lemma_grew_push(r2, b.recorded().last());
            assert(b.recorded() == r2.push(b.recorded().last()));
            lemma_grew_trans(r1, r2, b.recorded(), operand_consts(index), 1);
        }
        id
    }
}

} // verus!
