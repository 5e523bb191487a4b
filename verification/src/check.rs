//! Which recorded instructions can be lowered to SPIR-V.
//!
//! An instruction can be lowered when its operation has a lowering for its
//! operand types, every type it names can be declared, and every input,
//! output, buffer, texture and sampler it names was declared.

use vstd::prelude::*;

use crate::emit::{strides_fit, strides_ok};
use crate::ir::{IfElse, Instruction, OpIf, OpLoadStoreData, SampledTextureRef};
use crate::select::{cmp_instruction, convert_instruction, lhs_rhs_plan, cmp_supported, plan_convert, plan_lhs_rhs};

verus! {

/// How many of each kind of resource a module declares.
#[derive(Clone, Copy, PartialEq, Eq, Debug)]
pub struct Counts {
    pub inputs: usize,
    pub outputs: usize,
    pub push_constants: bool,
    pub uniforms: usize,
    pub storages: usize,
    pub textures: usize,
    pub sampled_textures: usize,
    pub samplers: usize,
}

/// A place to load from or store to names only declared resources, and its
/// types can be declared.
pub open spec fn data_ok(d: OpLoadStoreData, c: Counts) -> bool {
    match d {
        OpLoadStoreData::Input { location } => location < c.inputs,
        OpLoadStoreData::Output { location } => location < c.outputs,
        OpLoadStoreData::UniformField { id, .. } => id < c.uniforms,
        OpLoadStoreData::Uniform { id } => id < c.uniforms,
        OpLoadStoreData::Storage { id } => id < c.storages,
        OpLoadStoreData::StorageElement { id, element } => id < c.storages && strides_fit(element.1@),
        OpLoadStoreData::StorageElementField { id, element, .. } => id < c.storages && strides_fit(element.1@),
        OpLoadStoreData::Variable { .. } => true,
        OpLoadStoreData::Struct { struct_ty, .. } => strides_fit(struct_ty@),
        OpLoadStoreData::ArrayElement { array_ty, index, .. } => strides_fit(array_ty@) && strides_fit(index.1@),
        OpLoadStoreData::PushConstant => c.push_constants,
        OpLoadStoreData::PushConstantField { .. } => c.push_constants,
    }
}

/// The index of the declared resource a place names: the location of an
/// input or output, the id of a uniform or storage buffer (of the buffer a
/// field or element is read from too), and the single push constant block;
/// none for a place that names no resource.
pub open spec fn named_index(d: OpLoadStoreData) -> Option<int> {
    match d {
        OpLoadStoreData::Input { location } => Some(location as int),
        OpLoadStoreData::Output { location } => Some(location as int),
        OpLoadStoreData::UniformField { id, .. } => Some(id as int),
        OpLoadStoreData::Uniform { id } => Some(id as int),
        OpLoadStoreData::Storage { id } => Some(id as int),
        OpLoadStoreData::StorageElement { id, .. } => Some(id as int),
        OpLoadStoreData::StorageElementField { id, .. } => Some(id as int),
        OpLoadStoreData::PushConstant | OpLoadStoreData::PushConstantField { .. } => Some(0),
        _ => None,
    }
}

/// How many resources of the kind a place names the module declares: its
/// inputs, outputs, uniform buffers or storage buffers, or one push
/// constant block when it declares one; none for a place that names no
/// resource.
pub open spec fn named_count(d: OpLoadStoreData, c: Counts) -> Option<int> {
    match d {
        OpLoadStoreData::Input { .. } => Some(c.inputs as int),
        OpLoadStoreData::Output { .. } => Some(c.outputs as int),
        OpLoadStoreData::UniformField { .. } | OpLoadStoreData::Uniform { .. } => Some(c.uniforms as int),
        OpLoadStoreData::Storage { .. } | OpLoadStoreData::StorageElement { .. }
        | OpLoadStoreData::StorageElementField { .. } => Some(c.storages as int),
        OpLoadStoreData::PushConstant | OpLoadStoreData::PushConstantField { .. } => Some(
            if c.push_constants { 1int } else { 0int },
        ),
        _ => None,
    }
}

/// A place that names a resource is accepted only when that resource is
/// declared (its index is below the count of its kind); an input, output,
/// uniform buffer or field of one, storage buffer or push constant is
/// accepted exactly then, whatever else the module declares.
pub proof fn law_data_names_declared(d: OpLoadStoreData, c: Counts)
    ensures
        named_index(d) is Some <==> named_count(d, c) is Some,
        named_index(d) matches Some(i) ==> data_ok(d, c) ==> i < named_count(d, c)->Some_0,
        (d is Input || d is Output || d is UniformField || d is Uniform || d is Storage || d is PushConstant
            || d is PushConstantField) ==> (data_ok(d, c) <==> named_index(d)->Some_0 < named_count(d, c)->Some_0),
{
}

/// Whether a place is accepted depends on no count but that of the kind of
/// resource it names: two modules that declare as many of that kind give
/// the same answer, however many of the other kinds they declare.
pub proof fn law_data_reads_only_its_kind(d: OpLoadStoreData, c1: Counts, c2: Counts)
    requires
        named_count(d, c1) == named_count(d, c2),
    ensures
        data_ok(d, c1) == data_ok(d, c2),
{
}

/// An instruction can be lowered.
pub open spec fn instr_ok(i: Instruction, c: Counts) -> bool
    decreases i,
{
    match i {
        Instruction::LhsRhs(o) => lhs_rhs_plan(o.ty, o.lhs.1@, o.rhs.1@) is Some && strides_fit(o.lhs.1@)
            && strides_fit(o.rhs.1@) && strides_fit(o.store.1@),
        Instruction::Lhs(o) => strides_fit(o.lhs.1@) && strides_fit(o.store.1@),
        Instruction::VectorShuffle(_) => true,
        Instruction::LoadStore(o) => strides_fit(o.ty@) && data_ok(o.src, c) && data_ok(o.dst, c),
        Instruction::FuncCall(_) => false,
        Instruction::SetConst(_) => true,
        Instruction::Cmp(o) => cmp_instruction(o.cmp, o.lhs.1@) is Some && strides_fit(o.lhs.1@) && strides_fit(o.rhs.1@),
        Instruction::Composite(o) => strides_fit(o.ty@)
            && forall|k: int| 0 <= k < o.constituents@.len() ==> strides_fit((#[trigger] o.constituents@[k]).1@),
        Instruction::Extract(o) => strides_fit(o.element_ty@),
        Instruction::Sample(o) => strides_fit(o.coordinate.1@) && strides_fit(o.store.1@)
            && (o.sampled_texture matches SampledTextureRef::Uniform(id) ==> id < c.sampled_textures),
        Instruction::Combine(o) => o.texture < c.textures && o.sampler < c.samplers,
        Instruction::Convert(o) => convert_instruction(o.src.1@, o.dst.1@) is Some && strides_fit(o.src.1@)
            && strides_fit(o.dst.1@),
        Instruction::If(op) => chain_ok(op, c),
        Instruction::Return => false,
        Instruction::Discard => true,
        Instruction::Continue => false,
        Instruction::Break => false,
    }
}

/// The declared counts the check of an instruction other than a
/// conditional reads: those of the kinds of resource a load or store names,
/// of the sampled textures for a sampling, of the textures and samplers for
/// a combination; none for other instructions.
pub open spec fn instr_counts(i: Instruction, c: Counts) -> Seq<Option<int>> {
    match i {
        Instruction::LoadStore(o) => seq![named_count(o.src, c), named_count(o.dst, c)],
        Instruction::Sample(_) => seq![Some(c.sampled_textures as int)],
        Instruction::Combine(_) => seq![Some(c.textures as int), Some(c.samplers as int)],
        _ => Seq::empty(),
    }
}

/// Whether an instruction other than a conditional can be lowered depends
/// on no declared count but those of the resources it names.
pub proof fn law_instr_reads_only_named_counts(i: Instruction, c1: Counts, c2: Counts)
    requires
        !(i is If),
        instr_counts(i, c1) == instr_counts(i, c2),
    ensures
        instr_ok(i, c1) == instr_ok(i, c2),
{
    match i {
        Instruction::LoadStore(o) => {
            assert(instr_counts(i, c1)[0] == named_count(o.src, c1));
            assert(instr_counts(i, c1)[1] == named_count(o.dst, c1));
            law_data_reads_only_its_kind(o.src, c1, c2);
            law_data_reads_only_its_kind(o.dst, c1, c2);
        },
        Instruction::Sample(_) => {
            assert(instr_counts(i, c1)[0] == Some(c1.sampled_textures as int));
        },
        Instruction::Combine(_) => {
            assert(instr_counts(i, c1)[0] == Some(c1.textures as int));
            assert(instr_counts(i, c1)[1] == Some(c1.samplers as int));
        },
        _ => {},
    }
}

/// Every instruction of a list can be lowered.
pub open spec fn instrs_ok(s: Seq<Instruction>, c: Counts) -> bool
    decreases s,
{
    if s.len() == 0 {
        true
    } else {
        instrs_ok(s.drop_last(), c) && instr_ok(s.last(), c)
    }
}

/// Every block of a conditional chain can be lowered.
pub open spec fn chain_ok(op: OpIf, c: Counts) -> bool
    decreases op,
{
    &&& instrs_ok(op.instructions@, c)
    &&& match op.otherwise {
        Some(b) => match *b {
            IfElse::ElseIf(next) => chain_ok(*next, c),
            IfElse::Else(e) => instrs_ok(e.instructions@, c),
        },
        None => true,
    }
}

/// `instrs_ok` holds of each instruction of the list.
pub proof fn lemma_instrs_ok(s: Seq<Instruction>, c: Counts)
    ensures
        instrs_ok(s, c) <==> forall|i: int| 0 <= i < s.len() ==> instr_ok(#[trigger] s[i], c),
    decreases s.len(),
{
    if s.len() > 0 {
        lemma_instrs_ok(s.drop_last(), c);
        if forall|i: int| 0 <= i < s.len() ==> instr_ok(#[trigger] s[i], c) {
            assert forall|i: int| 0 <= i < s.drop_last().len() implies instr_ok(#[trigger] s.drop_last()[i], c) by {
                assert(s.drop_last()[i] == s[i]);
            }
        }
        if instrs_ok(s, c) {
            assert forall|i: int| 0 <= i < s.len() implies instr_ok(#[trigger] s[i], c) by {
                if i < s.len() - 1 {
                    assert(s.drop_last()[i] == s[i]);
                }
            }
        }
    }
}

/// Whether a place to load from or store to can be lowered.
pub fn check_data(d: &OpLoadStoreData, c: &Counts) -> (r: bool)
    ensures
        r == data_ok(*d, *c),
{
    match d {
        OpLoadStoreData::Input { location } => *location < c.inputs,
        OpLoadStoreData::Output { location } => *location < c.outputs,
        OpLoadStoreData::UniformField { id, .. } => *id < c.uniforms,
        OpLoadStoreData::Uniform { id } => *id < c.uniforms,
        OpLoadStoreData::Storage { id } => *id < c.storages,
        OpLoadStoreData::StorageElement { id, element } => *id < c.storages && strides_ok(&element.1),
        OpLoadStoreData::StorageElementField { id, element, .. } => *id < c.storages && strides_ok(&element.1),
        OpLoadStoreData::Variable { .. } => true,
        OpLoadStoreData::Struct { struct_ty, .. } => {
            let t = crate::types::Type::Struct(struct_ty.copy());
            strides_ok(&t)
        },
        OpLoadStoreData::ArrayElement { array_ty, index, .. } => {
            let t = crate::types::Type::Array(array_ty.copy());
            strides_ok(&t) && strides_ok(&index.1)
        },
        OpLoadStoreData::PushConstant => c.push_constants,
        OpLoadStoreData::PushConstantField { .. } => c.push_constants,
    }
}

/// Whether an instruction can be lowered.
pub fn check_instr(i: &Instruction, c: &Counts) -> (r: bool)
    ensures
        r == instr_ok(*i, *c),
    decreases i,
{
    match i {
        Instruction::LhsRhs(o) => plan_lhs_rhs(o.ty, &o.lhs.1, &o.rhs.1).is_some() && strides_ok(&o.lhs.1)
            && strides_ok(&o.rhs.1) && strides_ok(&o.store.1),
        Instruction::Lhs(o) => strides_ok(&o.lhs.1) && strides_ok(&o.store.1),
        Instruction::VectorShuffle(_) => true,
        Instruction::LoadStore(o) => strides_ok(&o.ty) && check_data(&o.src, c) && check_data(&o.dst, c),
        Instruction::FuncCall(_) => false,
        Instruction::SetConst(_) => true,
        Instruction::Cmp(o) => cmp_supported(o.cmp, &o.lhs.1) && strides_ok(&o.lhs.1) && strides_ok(&o.rhs.1),
        Instruction::Composite(o) => {
            if !strides_ok(&o.ty) {
                return false;
            }
            let mut k: usize = 0;
            while k < o.constituents.len()
                invariant
                    k <= o.constituents@.len(),
                    *i is Composite,
                    i->Composite_0 == *o,
                    forall|j: int| 0 <= j < k ==> strides_fit((#[trigger] o.constituents@[j]).1@),
                decreases o.constituents@.len() - k,
            {
                if !strides_ok(&o.constituents[k].1) {
                    return false;
                }
                k = k + 1;
            }
            true
        },
        Instruction::Extract(o) => strides_ok(&o.element_ty),
        Instruction::Sample(o) => {
            let tex_ok = match o.sampled_texture {
                SampledTextureRef::Uniform(id) => id < c.sampled_textures,
                SampledTextureRef::Combined(_) => true,
            };
            strides_ok(&o.coordinate.1) && strides_ok(&o.store.1) && tex_ok
        },
        Instruction::Combine(o) => o.texture < c.textures && o.sampler < c.samplers,
        Instruction::Convert(o) => plan_convert(&o.src.1, &o.dst.1).is_some() && strides_ok(&o.src.1)
            && strides_ok(&o.dst.1),
        Instruction::If(op) => check_chain(op, c),
        Instruction::Return => false,
        Instruction::Discard => true,
        Instruction::Continue => false,
        Instruction::Break => false,
    }
}

/// Whether every instruction of a list can be lowered.
pub fn check_instrs(v: &Vec<Instruction>, c: &Counts) -> (r: bool)
    ensures
        r == instrs_ok(v@, *c),
    decreases v,
{
    proof {
        lemma_instrs_ok(v@, *c);
    }
    let mut i: usize = 0;
    while i < v.len()
        invariant
            i <= v@.len(),
            instrs_ok(v@, *c) <==> forall|j: int| 0 <= j < v@.len() ==> instr_ok(#[trigger] v@[j], *c),
            forall|j: int| 0 <= j < i ==> instr_ok(#[trigger] v@[j], *c),
        decreases v@.len() - i,
    {
        assert(decreases_to!(v => v@[i as int]));
        if !check_instr(&v[i], c) {
            return false;
        }
        i = i + 1;
    }
    true
}

/// Whether every block of a conditional chain can be lowered.
pub fn check_chain(op: &OpIf, c: &Counts) -> (r: bool)
    ensures
        r == chain_ok(*op, *c),
    decreases op,
{
    if !check_instrs(&op.instructions, c) {
        return false;
    }
    match &op.otherwise {
        Some(b) => match &**b {
            IfElse::ElseIf(next) => check_chain(next, c),
            IfElse::Else(e) => check_instrs(&e.instructions, c),
        },
        None => true,
    }
}

} // verus!
