//! The recorded instruction list of a shader function.
//!
//! Every value is a numbered variable; an instruction names the variables it
//! reads and writes together with their types.

use vstd::prelude::*;

use crate::types::{ArrayType, StructType, TextureType, Type, Val, VectorType};

verus! {

/// A binary operation. Assignment forms use the left operand's variable as
/// the store.
#[derive(Clone, Copy, PartialEq, Eq, Debug)]
pub enum OpLhsRhsType {
    Add,
    Sub,
    Mul,
    Div,
    BitAnd,
    BitOr,
    BitXor,
    LogicalAnd,
    LogicalOr,
    LogicalEqual,
    LogicalNotEqual,
    Cross,
    Dot,
}

/// `store = lhs op rhs`.
pub struct OpLhsRhs {
    pub ty: OpLhsRhsType,
    pub lhs: (usize, Type),
    pub rhs: (usize, Type),
    pub store: (usize, Type),
}

/// A unary operation.
#[derive(Clone, Copy, PartialEq, Eq, Debug)]
pub enum OpLhsType {
    LogicalNot,
    Normalize,
    Length,
    Exp,
    Exp2,
    Sin,
    Cos,
    Tan,
    ASin,
    ACos,
    ATan,
}

/// `store = op lhs`.
pub struct OpLhs {
    pub ty: OpLhsType,
    pub lhs: (usize, Type),
    pub store: (usize, Type),
}

/// `dst = src.components`, the first `dst` size components being used.
pub struct OpVectorShuffle {
    pub src: (usize, VectorType),
    pub dst: (usize, VectorType),
    pub components: [u32; 4],
}

/// A place a value is loaded from or stored to.
pub enum OpLoadStoreData {
    Input { location: usize },
    Output { location: usize },
    UniformField { field: u32, id: usize },
    Uniform { id: usize },
    Storage { id: usize },
    StorageElement { id: usize, element: (usize, Type) },
    StorageElementField { id: usize, element: (usize, Type), field: u32 },
    Variable { id: usize },
    Struct { id: usize, struct_ty: StructType, field: u32 },
    ArrayElement { id: usize, array_ty: ArrayType, index: (usize, Type) },
    PushConstant,
    PushConstantField { field: u32 },
}

/// Copies a value of type `ty` from `src` to `dst`.
pub struct OpLoadStore {
    pub ty: Type,
    pub src: OpLoadStoreData,
    pub dst: OpLoadStoreData,
}

/// Calls function `func` with arguments, storing its result.
pub struct OpFuncCall {
    pub func: usize,
    pub store_ty: Type,
    pub store: usize,
    pub args: Vec<(usize, Type)>,
}

/// Stores a constant into a variable.
pub struct OpSetConst {
    pub val: Val,
    pub store: usize,
}

/// A comparison.
#[derive(Clone, Copy, PartialEq, Eq, Debug)]
pub enum CmpType {
    Eq,
    NEq,
    Lt,
    Gt,
    Le,
    Ge,
}

/// `store = lhs cmp rhs`, a boolean.
pub struct OpCmp {
    pub cmp: CmpType,
    pub lhs: (usize, Type),
    pub rhs: (usize, Type),
    pub store: usize,
}

/// Builds a composite of type `ty` from its constituents.
pub struct OpComposite {
    pub ty: Type,
    pub id: usize,
    pub constituents: Vec<(usize, Type)>,
}

/// Reads element `element_idx` of a composite variable.
pub struct OpExtract {
    pub src_id: usize,
    pub src_ty: Type,
    pub element_ty: Type,
    pub element_idx: u32,
    pub store_id: usize,
}

/// Combines a texture and a sampler into a sampled texture.
pub struct OpCombine {
    pub tex_ty: TextureType,
    pub texture: usize,
    pub sampler: usize,
    pub store: usize,
}

/// Converts a scalar to another scalar type.
pub struct OpConvert {
    pub src: (usize, Type),
    pub dst: (usize, Type),
}

/// A sampled texture: a declared one by index, or one combined in the
/// function, by variable.
#[derive(Clone, Copy, PartialEq, Eq, Debug)]
pub enum SampledTextureRef {
    Uniform(usize),
    Combined(usize),
}

/// Samples a texture at a coordinate.
pub struct OpSample {
    pub tex_ty: TextureType,
    pub sampled_texture: SampledTextureRef,
    pub coordinate: (usize, Type),
    pub store: (usize, Type),
    pub explict_lod: bool,
}

/// What follows an `if` when its condition is false.
pub enum IfElse {
    ElseIf(Box<OpIf>),
    Else(OpElse),
}

/// A conditional block, with the branch taken otherwise, if any.
pub struct OpIf {
    pub condition: usize,
    pub instructions: Vec<Instruction>,
    pub otherwise: Option<Box<IfElse>>,
}

/// The final `else` block of a conditional chain.
pub struct OpElse {
    pub instructions: Vec<Instruction>,
}

/// One recorded instruction.
pub enum Instruction {
    LhsRhs(OpLhsRhs),
    Lhs(OpLhs),
    VectorShuffle(OpVectorShuffle),
    LoadStore(OpLoadStore),
    FuncCall(OpFuncCall),
    SetConst(OpSetConst),
    Cmp(OpCmp),
    Composite(OpComposite),
    Extract(OpExtract),
    Sample(OpSample),
    Combine(OpCombine),
    Convert(OpConvert),
    If(OpIf),
    Return,
    Discard,
    Continue,
    Break,
}

} // verus!
