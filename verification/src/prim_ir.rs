//! A second recorded instruction set, over primitive and data types: each
//! operand is a numbered variable with its primitive type, and control flow
//! is an `if`/`else if`/`else` chain or a loop.
//!
//! Lowering it reads variables that earlier instructions defined, so a list
//! can be lowered when every variable is defined before it is read, every
//! declared resource it names exists, `break` and `continue` stand in loops,
//! and every operation has a lowering for its operand types.

use std::collections::HashSet;
use vstd::prelude::*;

use crate::data::DataType;
use crate::prim::{prim_is_matrix, prim_is_scalar, prim_is_vector, prim_component, PrimitiveType, PrimitiveVal};

verus! {

/// One recorded instruction over primitive-typed variables.
pub enum Instruction {
    Store { val: PrimitiveVal, store: usize },
    Add { lhs: (usize, PrimitiveType), rhs: (usize, PrimitiveType), res: (usize, PrimitiveType) },
    Sub { lhs: (usize, PrimitiveType), rhs: (usize, PrimitiveType), res: (usize, PrimitiveType) },
    Mul { lhs: (usize, PrimitiveType), rhs: (usize, PrimitiveType), res: (usize, PrimitiveType) },
    Div { lhs: (usize, PrimitiveType), rhs: (usize, PrimitiveType), res: (usize, PrimitiveType) },
    AddAssign { lhs: (usize, PrimitiveType), rhs: (usize, PrimitiveType) },
    SubAssign { lhs: (usize, PrimitiveType), rhs: (usize, PrimitiveType) },
    MulAssign { lhs: (usize, PrimitiveType), rhs: (usize, PrimitiveType) },
    DivAssign { lhs: (usize, PrimitiveType), rhs: (usize, PrimitiveType) },
    BitAnd { lhs: (usize, PrimitiveType), rhs: (usize, PrimitiveType), res: (usize, PrimitiveType) },
    BitOr { lhs: (usize, PrimitiveType), rhs: (usize, PrimitiveType), res: (usize, PrimitiveType) },
    BitXor { lhs: (usize, PrimitiveType), rhs: (usize, PrimitiveType), res: (usize, PrimitiveType) },
    BitAndAssign { lhs: (usize, PrimitiveType), rhs: (usize, PrimitiveType) },
    BitOrAssign { lhs: (usize, PrimitiveType), rhs: (usize, PrimitiveType) },
    BitXorAssign { lhs: (usize, PrimitiveType), rhs: (usize, PrimitiveType) },
    LogicalAnd { lhs: usize, rhs: usize, res: usize },
    LogicalOr { lhs: usize, rhs: usize, res: usize },
    LogicalEqual { lhs: usize, rhs: usize, res: usize },
    LogicalNot { lhs: usize, res: usize },
    VectorShuffle { src: (usize, PrimitiveType), dst: (usize, PrimitiveType), components: [u32; 4] },
    VectorComposite { components: [usize; 4], ty: PrimitiveType, store: usize },
    IfChain { conditions: Vec<usize>, instructions: Vec<Vec<Instruction>>, else_instructions: Option<Vec<Instruction>> },
    Loop { condition: usize, body: Vec<Instruction> },
    LoadIn { index: usize, ty: PrimitiveType, store: usize },
    StoreOut { index: usize, ty: PrimitiveType, read: usize },
    LoadUniform { index: usize, ty: DataType, store: usize },
    LoadUniformField { u_index: usize, f_index: usize, store: usize, ty: DataType, f_ty: DataType },
    LoadStorage,
    StoreStorage,
    Break,
    Continue,
    FnCall { fn_id: usize, store_id: usize, arguments: Vec<(usize, DataType)> },
    Return { id: usize },
    NewArray { store: usize, ty: PrimitiveType, data: Vec<usize> },
    ArrayStore { array: usize, index: usize, data: usize, element_ty: PrimitiveType },
    ArrayLoad { array: usize, index: usize, store: usize, element_ty: PrimitiveType },
    NewStruct { store: usize, ty: DataType, data: Vec<usize> },
    StructStore { struct_id: usize, field: usize, ty: DataType, data: usize },
    StructLoad { struct_id: usize, field: usize, ty: DataType, store: usize },
    SampleTexture {
        texture: usize,
        sampler: usize,
        coordinate: usize,
        coordinate_ty: PrimitiveType,
        res_ty: PrimitiveType,
        store: usize,
    },
}

/// How many of each resource the module declares.
#[derive(Clone, Copy, PartialEq, Eq, Debug)]
pub struct PrimCounts {
    pub inputs: usize,
    pub outputs: usize,
    pub uniforms: usize,
    pub textures: usize,
    pub samplers: usize,
}

/// An arithmetic operand type that addition, subtraction and their
/// assignments have a lowering for: anything but a boolean.
pub open spec fn arith_ok(p: PrimitiveType) -> bool {
    !(p is Bool)
}

/// Multiplication has a lowering for the operand types: everything but a
/// vector times a matrix, and a scalar times a boolean.
pub open spec fn mul_ok(l: PrimitiveType, r: PrimitiveType) -> bool {
    &&& !(prim_is_vector(l) && prim_is_matrix(r))
    &&& !(prim_is_scalar(l) && r is Bool)
}

/// The variables an instruction reads are all in `d`.
pub open spec fn reads_defined(i: Instruction, d: Set<usize>) -> bool {
    match i {
        Instruction::Add { lhs, rhs, .. } => d.contains(lhs.0) && d.contains(rhs.0),
        Instruction::Sub { lhs, rhs, .. } => d.contains(lhs.0) && d.contains(rhs.0),
        Instruction::Mul { lhs, rhs, .. } => d.contains(lhs.0) && d.contains(rhs.0),
        Instruction::Div { lhs, rhs, .. } => d.contains(lhs.0) && d.contains(rhs.0),
        Instruction::BitAnd { lhs, rhs, .. } => d.contains(lhs.0) && d.contains(rhs.0),
        Instruction::BitOr { lhs, rhs, .. } => d.contains(lhs.0) && d.contains(rhs.0),
        Instruction::BitXor { lhs, rhs, .. } => d.contains(lhs.0) && d.contains(rhs.0),
        Instruction::AddAssign { lhs, rhs } => d.contains(lhs.0) && d.contains(rhs.0),
        Instruction::SubAssign { lhs, rhs } => d.contains(lhs.0) && d.contains(rhs.0),
        Instruction::MulAssign { lhs, rhs } => d.contains(lhs.0) && d.contains(rhs.0),
        Instruction::DivAssign { lhs, rhs } => d.contains(lhs.0) && d.contains(rhs.0),
        Instruction::BitAndAssign { lhs, rhs } => d.contains(lhs.0) && d.contains(rhs.0),
        Instruction::BitOrAssign { lhs, rhs } => d.contains(lhs.0) && d.contains(rhs.0),
        Instruction::BitXorAssign { lhs, rhs } => d.contains(lhs.0) && d.contains(rhs.0),
        Instruction::LogicalAnd { lhs, rhs, .. } => d.contains(lhs) && d.contains(rhs),
        Instruction::LogicalOr { lhs, rhs, .. } => d.contains(lhs) && d.contains(rhs),
        Instruction::LogicalEqual { lhs, rhs, .. } => d.contains(lhs) && d.contains(rhs),
        Instruction::LogicalNot { lhs, .. } => d.contains(lhs),
        Instruction::VectorShuffle { src, .. } => d.contains(src.0),
        Instruction::VectorComposite { components, ty, .. } => forall|k: int| 0 <= k < composite_len(ty) ==> d.contains(#[trigger] components[k]),
        Instruction::StoreOut { read, .. } => d.contains(read),
        Instruction::NewArray { data, .. } => forall|k: int| 0 <= k < data@.len() ==> d.contains(#[trigger] data@[k]),
        Instruction::NewStruct { data, .. } => forall|k: int| 0 <= k < data@.len() ==> d.contains(#[trigger] data@[k]),
        Instruction::ArrayStore { array, data, .. } => d.contains(array) && d.contains(data),
        Instruction::ArrayLoad { array, .. } => d.contains(array),
        Instruction::StructStore { struct_id, data, .. } => d.contains(struct_id) && d.contains(data),
        Instruction::StructLoad { struct_id, .. } => d.contains(struct_id),
        Instruction::SampleTexture { coordinate, .. } => d.contains(coordinate),
        _ => true,
    }
}

/// How many components of a composite are read: the primitive's number of
/// components, at most four.
pub open spec fn composite_len(ty: PrimitiveType) -> int {
    let n = crate::prim::prim_components(ty);
    if n < 4 { n } else { 4 }
}

/// The variable an instruction defines, if any.
pub open spec fn defined_by(i: Instruction) -> Option<usize> {
    match i {
        Instruction::Store { store, .. } => Some(store),
        Instruction::Add { res, .. } => Some(res.0),
        Instruction::Sub { res, .. } => Some(res.0),
        Instruction::Mul { res, .. } => Some(res.0),
        Instruction::Div { res, .. } => Some(res.0),
        Instruction::BitAnd { res, .. } => Some(res.0),
        Instruction::BitOr { res, .. } => Some(res.0),
        Instruction::BitXor { res, .. } => Some(res.0),
        Instruction::LogicalAnd { res, .. } => Some(res),
        Instruction::LogicalOr { res, .. } => Some(res),
        Instruction::LogicalEqual { res, .. } => Some(res),
        Instruction::LogicalNot { res, .. } => Some(res),
        Instruction::VectorShuffle { dst, .. } => Some(dst.0),
        Instruction::VectorComposite { store, .. } | Instruction::LoadIn { store, .. }
        | Instruction::LoadUniform { store, .. } | Instruction::LoadUniformField { store, .. }
        | Instruction::NewArray { store, .. } | Instruction::ArrayLoad { store, .. }
        | Instruction::NewStruct { store, .. } | Instruction::StructLoad { store, .. }
        | Instruction::SampleTexture { store, .. } => Some(store),
        _ => None,
    }
}

/// An instruction other than a branch or loop can be lowered with the
/// variables `d` defined.
pub open spec fn simple_ok(i: Instruction, d: Set<usize>, c: PrimCounts, in_loop: bool) -> bool {
    &&& reads_defined(i, d)
    &&& match i {
        Instruction::Add { lhs, .. } | Instruction::Sub { lhs, .. } | Instruction::Div { lhs, .. }
        | Instruction::AddAssign { lhs, .. } | Instruction::SubAssign { lhs, .. }
        | Instruction::DivAssign { lhs, .. } => arith_ok(lhs.1),
        Instruction::Mul { lhs, rhs, .. } | Instruction::MulAssign { lhs, rhs } => mul_ok(lhs.1, rhs.1),
        Instruction::VectorComposite { ty, .. } => prim_component(ty) is Some,
        Instruction::LoadIn { index, .. } => index < c.inputs,
        Instruction::StoreOut { index, .. } => index < c.outputs,
        Instruction::LoadUniform { index, .. } => index < c.uniforms,
        Instruction::LoadUniformField { u_index, .. } => u_index < c.uniforms,
        Instruction::LoadStorage | Instruction::StoreStorage => false,
        Instruction::Break | Instruction::Continue => in_loop,
        Instruction::NewStruct { ty, data, .. } => ty matches DataType::Struct(s) && data@.len() <= s.fields@.len(),
        Instruction::SampleTexture { texture, sampler, .. } => texture < c.textures && sampler < c.samplers,
        _ => true,
    }
}

/// The declared counts an instruction's check reads: that of the inputs for
/// a read of an input, of the outputs for a write of an output, of the
/// uniform buffers for a load of a uniform or of a field of one, of the
/// textures and the samplers for a sampling; none for other instructions.
pub open spec fn counts_read(i: Instruction, c: PrimCounts) -> Seq<int> {
    match i {
        Instruction::LoadIn { .. } => seq![c.inputs as int],
        Instruction::StoreOut { .. } => seq![c.outputs as int],
        Instruction::LoadUniform { .. } | Instruction::LoadUniformField { .. } => seq![c.uniforms as int],
        Instruction::SampleTexture { .. } => seq![c.textures as int, c.samplers as int],
        _ => Seq::empty(),
    }
}

/// Whether an instruction is accepted depends on no declared count but
/// those of the resources it names: a load of a uniform field is accepted
/// or refused alike whatever the numbers of inputs, outputs, textures and
/// samplers; an instruction naming no resource whatever any count.
pub proof fn law_check_reads_only_named_counts(i: Instruction, d: Set<usize>, c1: PrimCounts, c2: PrimCounts, in_loop: bool)
    requires
        counts_read(i, c1) == counts_read(i, c2),
    ensures
        simple_ok(i, d, c1, in_loop) == simple_ok(i, d, c2, in_loop),
{
    match i {
        Instruction::LoadIn { .. } => {
            assert(counts_read(i, c1)[0] == c1.inputs as int);
            assert(c1.inputs == c2.inputs);
        },
        Instruction::StoreOut { .. } => {
            assert(counts_read(i, c1)[0] == c1.outputs as int);
            assert(c1.outputs == c2.outputs);
        },
        Instruction::LoadUniform { .. } | Instruction::LoadUniformField { .. } => {
            assert(counts_read(i, c1)[0] == c1.uniforms as int);
            assert(c1.uniforms == c2.uniforms);
        },
        Instruction::SampleTexture { .. } => {
            assert(counts_read(i, c1)[0] == c1.textures as int);
            assert(counts_read(i, c1)[1] == c1.samplers as int);
            assert(c1.textures == c2.textures);
            assert(c1.samplers == c2.samplers);
        },
        _ => {},
    }
}

/// A read of an input, a write of an output and a load of a uniform buffer
/// or of a field of one are accepted exactly when the variables they read
/// are defined and the resource they name is declared.
pub proof fn law_check_names_declared(i: Instruction, d: Set<usize>, c: PrimCounts, in_loop: bool)
    ensures
        i matches Instruction::LoadIn { index, .. } ==> (simple_ok(i, d, c, in_loop) <==> index < c.inputs),
        i matches Instruction::StoreOut { index, read, .. } ==> (simple_ok(i, d, c, in_loop) <==> d.contains(read)
            && index < c.outputs),
        i matches Instruction::LoadUniform { index, .. } ==> (simple_ok(i, d, c, in_loop) <==> index < c.uniforms),
        i matches Instruction::LoadUniformField { u_index, .. } ==> (simple_ok(i, d, c, in_loop) <==> u_index
            < c.uniforms),
{
}

/// The variables defined after lowering an instruction with `d` defined.
pub open spec fn instr_defs(i: Instruction, d: Set<usize>) -> Set<usize>
    decreases i, 0nat,
{
    match i {
        Instruction::IfChain { instructions, else_instructions, conditions } => {
            let n = if conditions@.len() <= instructions@.len() { conditions@.len() } else { instructions@.len() };
            let before = blocks_defs(instructions@, n, d);
            match else_instructions {
                Some(e) => list_defs(e@, before),
                None => before,
            }
        },
        Instruction::Loop { body, .. } => list_defs(body@, d),
        _ => match defined_by(i) {
            Some(v) => d.insert(v),
            None => d,
        },
    }
}

/// The variables defined after lowering a list in order.
pub open spec fn list_defs(s: Seq<Instruction>, d: Set<usize>) -> Set<usize>
    decreases s, 0nat,
{
    if s.len() == 0 {
        d
    } else {
        instr_defs(s.last(), list_defs(s.drop_last(), d))
    }
}

/// The variables defined after lowering the first `n` blocks in order.
pub open spec fn blocks_defs(blocks: Seq<Vec<Instruction>>, n: nat, d: Set<usize>) -> Set<usize>
    decreases blocks, n,
{
    if n == 0 || n > blocks.len() {
        d
    } else {
        list_defs(blocks[n - 1]@, blocks_defs(blocks, (n - 1) as nat, d))
    }
}

/// An instruction can be lowered with the variables `d` defined.
pub open spec fn instr_ok(i: Instruction, d: Set<usize>, c: PrimCounts, in_loop: bool) -> bool
    decreases i, 0nat,
{
    match i {
        Instruction::IfChain { conditions, instructions, else_instructions } => {
            &&& conditions@.len() <= instructions@.len()
            &&& chain_ok(conditions@, instructions@, conditions@.len(), d, c, in_loop)
            &&& (else_instructions matches Some(e) ==> list_ok(e@, blocks_defs(instructions@, conditions@.len(), d), c, in_loop))
        },
        Instruction::Loop { condition, body } => d.contains(condition) && list_ok(body@, d, c, true),
        _ => simple_ok(i, d, c, in_loop),
    }
}

/// A list can be lowered in order with the variables `d` defined at its
/// start.
pub open spec fn list_ok(s: Seq<Instruction>, d: Set<usize>, c: PrimCounts, in_loop: bool) -> bool
    decreases s, 0nat,
{
    if s.len() == 0 {
        true
    } else {
        list_ok(s.drop_last(), d, c, in_loop) && instr_ok(s.last(), list_defs(s.drop_last(), d), c, in_loop)
    }
}

/// The first `n` blocks of a chain can be lowered in order, each condition
/// being defined once the blocks before it are.
pub open spec fn chain_ok(conds: Seq<usize>, blocks: Seq<Vec<Instruction>>, n: nat, d: Set<usize>, c: PrimCounts, in_loop: bool) -> bool
    decreases blocks, n,
{
    if n == 0 || n > blocks.len() {
        true
    } else {
        &&& chain_ok(conds, blocks, (n - 1) as nat, d, c, in_loop)
        &&& blocks_defs(blocks, (n - 1) as nat, d).contains(conds[n - 1])
        &&& list_ok(blocks[n - 1]@, blocks_defs(blocks, (n - 1) as nat, d), c, in_loop)
    }
}

broadcast use vstd::std_specs::hash::group_hash_axioms;

/// Whether every listed variable is defined.
fn all_defined(vs: &Vec<usize>, d: &HashSet<usize>) -> (r: bool)
    ensures
        r == forall|k: int| 0 <= k < vs@.len() ==> d@.contains(#[trigger] vs@[k]),
{
    let mut k: usize = 0;
    while k < vs.len()
        invariant
            k <= vs@.len(),
            forall|j: int| 0 <= j < k ==> d@.contains(#[trigger] vs@[j]),
        decreases vs@.len() - k,
    {
        if !d.contains(&vs[k]) {
            return false;
        }
        k = k + 1;
    }
    true
}

/// How many components of a composite are read.
pub(crate) fn composite_count(ty: PrimitiveType) -> (r: usize)
    ensures
        r == composite_len(ty),
{
    let n = ty.components();
    if n < 4 { n as usize } else { 4 }
}

/// Whether the components a composite of type `ty` reads are defined.
fn components_defined(components: &[usize; 4], ty: PrimitiveType, d: &HashSet<usize>) -> (r: bool)
    ensures
        r == forall|k: int| 0 <= k < composite_len(ty) ==> d@.contains(#[trigger] components[k]),
{
    let n = composite_count(ty);
    let mut k: usize = 0;
    while k < n
        invariant
            n == composite_len(ty),
            n <= 4,
            k <= n,
            forall|j: int| 0 <= j < k ==> d@.contains(#[trigger] components[j]),
        decreases n - k,
    {
        if !d.contains(&components[k]) {
            return false;
        }
        k = k + 1;
    }
    true
}

/// Whether the variables an instruction reads are defined.
fn reads_ok(i: &Instruction, d: &HashSet<usize>) -> (r: bool)
    ensures
        r == reads_defined(*i, d@),
{
    match i {
        Instruction::Add { lhs, rhs, .. } => d.contains(&lhs.0) && d.contains(&rhs.0),
        Instruction::Sub { lhs, rhs, .. } => d.contains(&lhs.0) && d.contains(&rhs.0),
        Instruction::Mul { lhs, rhs, .. } => d.contains(&lhs.0) && d.contains(&rhs.0),
        Instruction::Div { lhs, rhs, .. } => d.contains(&lhs.0) && d.contains(&rhs.0),
        Instruction::BitAnd { lhs, rhs, .. } => d.contains(&lhs.0) && d.contains(&rhs.0),
        Instruction::BitOr { lhs, rhs, .. } => d.contains(&lhs.0) && d.contains(&rhs.0),
        Instruction::BitXor { lhs, rhs, .. } => d.contains(&lhs.0) && d.contains(&rhs.0),
        Instruction::AddAssign { lhs, rhs } => d.contains(&lhs.0) && d.contains(&rhs.0),
        Instruction::SubAssign { lhs, rhs } => d.contains(&lhs.0) && d.contains(&rhs.0),
        Instruction::MulAssign { lhs, rhs } => d.contains(&lhs.0) && d.contains(&rhs.0),
        Instruction::DivAssign { lhs, rhs } => d.contains(&lhs.0) && d.contains(&rhs.0),
        Instruction::BitAndAssign { lhs, rhs } => d.contains(&lhs.0) && d.contains(&rhs.0),
        Instruction::BitOrAssign { lhs, rhs } => d.contains(&lhs.0) && d.contains(&rhs.0),
        Instruction::BitXorAssign { lhs, rhs } => d.contains(&lhs.0) && d.contains(&rhs.0),
        Instruction::LogicalAnd { lhs, rhs, .. } => d.contains(lhs) && d.contains(rhs),
        Instruction::LogicalOr { lhs, rhs, .. } => d.contains(lhs) && d.contains(rhs),
        Instruction::LogicalEqual { lhs, rhs, .. } => d.contains(lhs) && d.contains(rhs),
        Instruction::LogicalNot { lhs, .. } => d.contains(lhs),
        Instruction::VectorShuffle { src, .. } => d.contains(&src.0),
        Instruction::VectorComposite { components, ty, .. } => components_defined(components, *ty, d),
        Instruction::StoreOut { read, .. } => d.contains(read),
        Instruction::NewArray { data, .. } => all_defined(data, d),
        Instruction::NewStruct { data, .. } => all_defined(data, d),
        Instruction::ArrayStore { array, data, .. } => d.contains(array) && d.contains(data),
        Instruction::ArrayLoad { array, .. } => d.contains(array),
        Instruction::StructStore { struct_id, data, .. } => d.contains(struct_id) && d.contains(data),
        Instruction::StructLoad { struct_id, .. } => d.contains(struct_id),
        Instruction::SampleTexture { coordinate, .. } => d.contains(coordinate),
        _ => true,
    }
}

/// The variable an instruction defines, if any.
pub fn defines(i: &Instruction) -> (r: Option<usize>)
    ensures
        r == defined_by(*i),
{
    match i {
        Instruction::Store { store, .. } => Some(*store),
        Instruction::Add { res, .. } => Some(res.0),
        Instruction::Sub { res, .. } => Some(res.0),
        Instruction::Mul { res, .. } => Some(res.0),
        Instruction::Div { res, .. } => Some(res.0),
        Instruction::BitAnd { res, .. } => Some(res.0),
        Instruction::BitOr { res, .. } => Some(res.0),
        Instruction::BitXor { res, .. } => Some(res.0),
        Instruction::LogicalAnd { res, .. } => Some(*res),
        Instruction::LogicalOr { res, .. } => Some(*res),
        Instruction::LogicalEqual { res, .. } => Some(*res),
        Instruction::LogicalNot { res, .. } => Some(*res),
        Instruction::VectorShuffle { dst, .. } => Some(dst.0),
        Instruction::VectorComposite { store, .. } | Instruction::LoadIn { store, .. }
        | Instruction::LoadUniform { store, .. } | Instruction::LoadUniformField { store, .. }
        | Instruction::NewArray { store, .. } | Instruction::ArrayLoad { store, .. }
        | Instruction::NewStruct { store, .. } | Instruction::StructLoad { store, .. }
        | Instruction::SampleTexture { store, .. } => Some(*store),
        _ => None,
    }
}

/// Whether an instruction other than a branch or loop can be lowered.
fn check_simple(i: &Instruction, d: &HashSet<usize>, c: &PrimCounts, in_loop: bool) -> (r: bool)
    ensures
        r == simple_ok(*i, d@, *c, in_loop),
{
    if !reads_ok(i, d) {
        return false;
    }
    match i {
        Instruction::Add { lhs, .. } | Instruction::Sub { lhs, .. } | Instruction::Div { lhs, .. }
        | Instruction::AddAssign { lhs, .. } | Instruction::SubAssign { lhs, .. }
        | Instruction::DivAssign { lhs, .. } => lhs.1 != PrimitiveType::Bool,
        Instruction::Mul { lhs, rhs, .. } | Instruction::MulAssign { lhs, rhs } =>
            !(lhs.1.is_vector() && rhs.1.is_matrix()) && !(lhs.1.is_scalar() && rhs.1 == PrimitiveType::Bool),
        Instruction::VectorComposite { ty, .. } => ty.component().is_some(),
        Instruction::LoadIn { index, .. } => *index < c.inputs,
        Instruction::StoreOut { index, .. } => *index < c.outputs,
        Instruction::LoadUniform { index, .. } => *index < c.uniforms,
        Instruction::LoadUniformField { u_index, .. } => *u_index < c.uniforms,
        Instruction::LoadStorage | Instruction::StoreStorage => false,
        Instruction::Break | Instruction::Continue => in_loop,
        Instruction::NewStruct { ty, data, .. } => match ty {
            DataType::Struct(st) => data.len() <= st.fields.len(),
            _ => false,
        },
        Instruction::SampleTexture { texture, sampler, .. } => *texture < c.textures && *sampler < c.samplers,
        _ => true,
    }
}

/// Whether an instruction can be lowered with the variables `d` defined; when
/// it can, `d` becomes the variables defined after it.
pub fn check_instr(i: &Instruction, d: &mut HashSet<usize>, c: &PrimCounts, in_loop: bool) -> (r: bool)
    ensures
        r == instr_ok(*i, old(d)@, *c, in_loop),
        r ==> final(d)@ == instr_defs(*i, old(d)@),
    decreases i, 0nat,
{
    match i {
        Instruction::IfChain { conditions, instructions, else_instructions } => {
            if conditions.len() > instructions.len() {
                return false;
            }
            if !check_chain(conditions, instructions, d, c, in_loop) {
                return false;
            }
            match else_instructions {
                Some(e) => check_list(e, d, c, in_loop),
                None => true,
            }
        },
        Instruction::Loop { condition, body } => {
            if !d.contains(condition) {
                return false;
            }
            check_list(body, d, c, true)
        },
        _ => {
            if !check_simple(i, d, c, in_loop) {
                return false;
            }
            match defines(i) {
                Some(v) => {
                    d.insert(v);
                },
                None => {},
            }
            true
        },
    }
}

/// Whether a list can be lowered in order with the variables `d` defined at
/// its start; when it can, `d` becomes the variables defined after it.
pub fn check_list(s: &Vec<Instruction>, d: &mut HashSet<usize>, c: &PrimCounts, in_loop: bool) -> (r: bool)
    ensures
        r == list_ok(s@, old(d)@, *c, in_loop),
        r ==> final(d)@ == list_defs(s@, old(d)@),
    decreases s, 0nat,
{
    let ghost d0 = d@;
    let mut k: usize = 0;
    proof {
        assert(s@.take(0) =~= Seq::<Instruction>::empty());
    }
    while k < s.len()
        invariant
            k <= s@.len(),
            d0 == old(d)@,
            list_ok(s@.take(k as int), d0, *c, in_loop),
            d@ == list_defs(s@.take(k as int), d0),
        decreases s@.len() - k,
    {
        proof {
            assert(s@.take(k + 1).drop_last() =~= s@.take(k as int));
            assert(s@.take(k + 1).last() == s@[k as int]);
        }
        assert(decreases_to!(s => s@[k as int]));
        if !check_instr(&s[k], d, c, in_loop) {
            proof {
                if list_ok(s@, d0, *c, in_loop) {
                    lemma_list_ok_prefix(s@, k as int + 1, d0, *c, in_loop);
                }
            }
            return false;
        }
        k = k + 1;
    }
    proof {
        assert(s@.take(s@.len() as int) =~= s@);
    }
    true
}

/// A prefix of a list that can be lowered can be lowered.
pub proof fn lemma_list_ok_prefix(s: Seq<Instruction>, k: int, d: Set<usize>, c: PrimCounts, in_loop: bool)
    requires
        0 <= k <= s.len(),
        list_ok(s, d, c, in_loop),
    ensures
        list_ok(s.take(k), d, c, in_loop),
    decreases s.len(),
{
    if k < s.len() {
        assert(s.drop_last().take(k) =~= s.take(k));
        lemma_list_ok_prefix(s.drop_last(), k, d, c, in_loop);
    } else {
        assert(s.take(k) =~= s);
    }
}

/// Whether the first `conditions.len()` blocks of a chain can be lowered in
/// order; when they can, `d` becomes the variables defined after them.
fn check_chain(conditions: &Vec<usize>, blocks: &Vec<Vec<Instruction>>, d: &mut HashSet<usize>, c: &PrimCounts, in_loop: bool) -> (r: bool)
    requires
        conditions@.len() <= blocks@.len(),
    ensures
        r == chain_ok(conditions@, blocks@, conditions@.len(), old(d)@, *c, in_loop),
        r ==> final(d)@ == blocks_defs(blocks@, conditions@.len(), old(d)@),
    decreases blocks, 0nat,
{
    let ghost d0 = d@;
    let n = conditions.len();
    let mut k: usize = 0;
    while k < n
        invariant
            n == conditions@.len(),
            n <= blocks@.len(),
            k <= n,
            d0 == old(d)@,
            chain_ok(conditions@, blocks@, k as nat, d0, *c, in_loop),
            d@ == blocks_defs(blocks@, k as nat, d0),
        decreases n - k,
    {
        if !d.contains(&conditions[k]) {
            proof {
                if chain_ok(conditions@, blocks@, n as nat, d0, *c, in_loop) {
                    lemma_chain_ok_prefix(conditions@, blocks@, n as nat, (k + 1) as nat, d0, *c, in_loop);
                }
            }
            return false;
        }
        assert(decreases_to!(blocks => blocks@[k as int]));
        if !check_list(&blocks[k], d, c, in_loop) {
            proof {
                if chain_ok(conditions@, blocks@, n as nat, d0, *c, in_loop) {
                    lemma_chain_ok_prefix(conditions@, blocks@, n as nat, (k + 1) as nat, d0, *c, in_loop);
                }
            }
            return false;
        }
        k = k + 1;
    }
    true
}

/// A chain that can be lowered up to `n` blocks can be lowered up to fewer.
pub proof fn lemma_chain_ok_prefix(conds: Seq<usize>, blocks: Seq<Vec<Instruction>>, n: nat, k: nat, d: Set<usize>, c: PrimCounts, in_loop: bool)
    requires
        k <= n <= blocks.len(),
        chain_ok(conds, blocks, n, d, c, in_loop),
    ensures
        chain_ok(conds, blocks, k, d, c, in_loop),
    decreases n,
{
    if k < n {
        lemma_chain_ok_prefix(conds, blocks, (n - 1) as nat, k, d, c, in_loop);
    }
}

/// Lowering an instruction keeps every variable defined before it defined.
pub proof fn law_instr_defs_grow(i: Instruction, d: Set<usize>)
    ensures
        d.subset_of(instr_defs(i, d)),
    decreases i, 0nat,
{
    match i {
        Instruction::IfChain { instructions, else_instructions, conditions } => {
            let n = if conditions@.len() <= instructions@.len() { conditions@.len() } else { instructions@.len() };
            lemma_blocks_defs_grow(instructions@, n, d);
            match else_instructions {
                Some(e) => {
                    assert(decreases_to!(i => e));
                    law_list_defs_grow(e@, blocks_defs(instructions@, n, d));
                },
                None => {},
            }
        },
        Instruction::Loop { body, .. } => {
            law_list_defs_grow(body@, d);
        },
        _ => {},
    }
}

/// Lowering a list keeps every variable defined before it defined.
pub proof fn law_list_defs_grow(s: Seq<Instruction>, d: Set<usize>)
    ensures
        d.subset_of(list_defs(s, d)),
    decreases s, 0nat,
{
    if s.len() > 0 {
        law_list_defs_grow(s.drop_last(), d);
        assert(decreases_to!(s => s[s.len() - 1]));
        law_instr_defs_grow(s.last(), list_defs(s.drop_last(), d));
    }
}

/// Lowering the first `n` blocks of a chain keeps every variable defined
/// before them defined.
pub proof fn lemma_blocks_defs_grow(blocks: Seq<Vec<Instruction>>, n: nat, d: Set<usize>)
    ensures
        d.subset_of(blocks_defs(blocks, n, d)),
    decreases blocks, n,
{
    if n > 0 && n <= blocks.len() {
        lemma_blocks_defs_grow(blocks, (n - 1) as nat, d);
        assert(decreases_to!(blocks => blocks[n - 1]));
        law_list_defs_grow(blocks[n - 1]@, blocks_defs(blocks, (n - 1) as nat, d));
    }
}

/// The variables an instruction defines, wherever in it: those it defines
/// with none defined before.
pub open spec fn defined_in(i: Instruction) -> Set<usize> {
    instr_defs(i, Set::empty())
}

/// Lowering an instruction adds to the defined variables exactly those it
/// defines, whatever was defined before.
pub proof fn lemma_instr_defs_union(i: Instruction, d: Set<usize>)
    ensures
        instr_defs(i, d) == d.union(defined_in(i)),
    decreases i, 0nat,
{
    match i {
        Instruction::IfChain { instructions, else_instructions, conditions } => {
            let n = if conditions@.len() <= instructions@.len() { conditions@.len() } else { instructions@.len() };
            lemma_blocks_defs_union(instructions@, n, d);
            lemma_blocks_defs_union(instructions@, n, Set::empty());
            match else_instructions {
                Some(e) => {
                    assert(decreases_to!(i => e));
                    let bd = blocks_defs(instructions@, n, d);
                    let b0 = blocks_defs(instructions@, n, Set::empty());
                    lemma_list_defs_union(e@, bd);
                    lemma_list_defs_union(e@, b0);
                    assert(b0 =~= Set::<usize>::empty().union(b0));
                    assert(instr_defs(i, d) =~= d.union(defined_in(i)));
                },
                None => {
                    assert(instr_defs(i, d) =~= d.union(defined_in(i)));
                },
            }
        },
        Instruction::Loop { body, .. } => {
            lemma_list_defs_union(body@, d);
            lemma_list_defs_union(body@, Set::empty());
            assert(instr_defs(i, d) =~= d.union(defined_in(i)));
        },
        _ => {
            assert(instr_defs(i, d) =~= d.union(defined_in(i)));
        },
    }
}

/// Lowering a list adds to the defined variables exactly those it defines.
pub proof fn lemma_list_defs_union(s: Seq<Instruction>, d: Set<usize>)
    ensures
        list_defs(s, d) == d.union(list_defs(s, Set::empty())),
    decreases s, 0nat,
{
    if s.len() == 0 {
        assert(list_defs(s, d) =~= d.union(list_defs(s, Set::empty())));
    } else {
        lemma_list_defs_union(s.drop_last(), d);
        lemma_list_defs_union(s.drop_last(), Set::empty());
        assert(decreases_to!(s => s[s.len() - 1]));
        lemma_instr_defs_union(s.last(), list_defs(s.drop_last(), d));
        lemma_instr_defs_union(s.last(), list_defs(s.drop_last(), Set::empty()));
        assert(list_defs(s, d) =~= d.union(list_defs(s, Set::empty())));
    }
}

/// Lowering the first `n` blocks of a chain adds to the defined variables
/// exactly those they define.
pub proof fn lemma_blocks_defs_union(blocks: Seq<Vec<Instruction>>, n: nat, d: Set<usize>)
    ensures
        blocks_defs(blocks, n, d) == d.union(blocks_defs(blocks, n, Set::empty())),
    decreases blocks, n,
{
    if n == 0 || n > blocks.len() {
        assert(blocks_defs(blocks, n, d) =~= d.union(blocks_defs(blocks, n, Set::empty())));
    } else {
        lemma_blocks_defs_union(blocks, (n - 1) as nat, d);
        lemma_blocks_defs_union(blocks, (n - 1) as nat, Set::empty());
        assert(decreases_to!(blocks => blocks[n - 1]));
        lemma_list_defs_union(blocks[n - 1]@, blocks_defs(blocks, (n - 1) as nat, d));
        lemma_list_defs_union(blocks[n - 1]@, blocks_defs(blocks, (n - 1) as nat, Set::empty()));
        assert(blocks_defs(blocks, n, d) =~= d.union(blocks_defs(blocks, n, Set::empty())));
    }
}

} // verus!
