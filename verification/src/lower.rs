//! Lowering recorded instructions to SPIR-V through the module builder.
//!
//! Every recorded variable becomes a `Function` storage variable, declared at
//! the start of the function's first block the first time it is used; an
//! instruction loads its operands from their variables, applies the SPIR-V
//! instruction the selection rules choose, and stores the result.

use rspirv::dr::Builder;
use std::collections::HashMap;
use vstd::prelude::*;

use crate::check::{chain_ok, instr_ok, instrs_ok, lemma_instrs_ok, data_ok, Counts};
use crate::emit::{kept, lemma_kept_trans, lemma_scalar_kept, lift, strides_fit, type_decl_id, CompileError, RSpirvBuilder};
use crate::ir::{
    IfElse, Instruction, OpCmp, OpComposite, OpConvert, OpExtract, OpIf, OpLhs, OpLhsRhs, OpLoadStore,
    OpLoadStoreData, OpSample, OpSetConst, OpVectorShuffle, OpCombine, SampledTextureRef,
};
use crate::select::{plan_cmp, plan_convert, plan_lhs, plan_lhs_rhs, BinOp, LhsPlan, Splat, UnOp};
use crate::spirv_api::{
    bitwise_and, bitwise_or, bitwise_xor, convert_f_to_s, convert_f_to_u, convert_s_to_f, convert_u_to_f, dot, f_add, f_convert, f_div, f_mul, f_ord_equal, f_ord_greater_than, f_ord_greater_than_equal, f_ord_less_than, f_ord_less_than_equal, f_ord_not_equal, f_sub, i_add, i_equal, i_mul, i_not_equal, i_sub, logical_and, logical_equal, logical_not, logical_not_equal, logical_or, matrix_times_matrix, matrix_times_scalar, matrix_times_vector, s_convert, s_div, s_greater_than, s_greater_than_equal, s_less_than, s_less_than_equal, sat_convert_s_to_u, sat_convert_u_to_s, u_convert, u_div, u_greater_than, u_greater_than_equal, u_less_than, u_less_than_equal, vector_times_scalar, access_chain, begin_block, branch, branch_conditional, composite_construct, ext_inst,
    image_sample_explicit_lod, image_sample_implicit_lod, insert_function_variable, kill, load, next_id,
    sampled_image, select_block, selected_block, selection_merge, store, type_sampled_image, type_sampler,
    vector_shuffle, module_view, in_block, appended, same_code, InstView, block_exists, var_put, lemma_var_put_current,
    current_block, block_grew, grew_then, lemma_prepend_suffix, lemma_suffix_refl, lemma_push_suffix, lemma_suffix_trans,
    lemma_back_drop, back, is_suffix, sel_kept, terminated, only_globals,
};
use crate::types::{ScalarType, ScalarVal, Type, TextureType};

verus! {

broadcast use vstd::std_specs::hash::group_hash_axioms;

/// The ids of the module's declared resources and functions.
pub struct ShaderMapInfo {
    pub inputs: Vec<u32>,
    pub outputs: Vec<u32>,
    pub push_constants: Option<u32>,
    pub uniforms: Vec<u32>,
    pub storages: Vec<u32>,
    pub textures: Vec<u32>,
    pub sampled_textures: Vec<u32>,
    pub samplers: Vec<u32>,
    pub functions: Vec<(u32, usize)>,
}

impl ShaderMapInfo {
    /// How many of each resource the module declares.
    pub open spec fn counts(self) -> Counts {
        Counts {
            inputs: self.inputs@.len() as usize,
            outputs: self.outputs@.len() as usize,
            push_constants: self.push_constants is Some,
            uniforms: self.uniforms@.len() as usize,
            storages: self.storages@.len() as usize,
            textures: self.textures@.len() as usize,
            sampled_textures: self.sampled_textures@.len() as usize,
            samplers: self.samplers@.len() as usize,
        }
    }
}

/// The construct the instructions being lowered are nested in.
#[derive(Clone, Copy, PartialEq, Eq, Debug)]
pub enum BlockInfo {
    If { end_label: u32 },
    Loop { condition_label: u32, continue_label: u32, end_label: u32 },
    /// Directly in the function body.
    Top,
}

/// What lowering one function keeps: the SPIR-V variable of each recorded
/// variable, the block variables are declared in, and the enclosing
/// construct.
pub struct FuncMapInfo {
    pub vars: HashMap<usize, u32>,
    pub var_block: usize,
    pub block_info: BlockInfo,
}

/// Every variable mapped before is still mapped to the same SPIR-V variable.
pub open spec fn vars_kept(a: Map<usize, u32>, b: Map<usize, u32>) -> bool {
    forall|k: usize| #![trigger b.dom().contains(k)] #![trigger a.dom().contains(k)]
        a.dom().contains(k) ==> b.dom().contains(k) && b[k] == a[k]
}

/// Lowering changed nothing of the function's state but its variable map,
/// which only grew.
pub open spec fn func_kept(a: FuncMapInfo, b: FuncMapInfo) -> bool {
    &&& vars_kept(a.vars@, b.vars@)
    &&& b.var_block == a.var_block
    &&& b.block_info == a.block_info
}

/// `func_kept` composes.
pub proof fn lemma_func_kept_trans(a: FuncMapInfo, b: FuncMapInfo, c: FuncMapInfo)
    requires
        func_kept(a, b),
        func_kept(b, c),
    ensures
        func_kept(a, c),
{
    assert forall|k: usize| a.vars@.dom().contains(k) implies #[trigger] c.vars@.dom().contains(k) && c.vars@[k] == a.vars@[k] by {
        assert(b.vars@.dom().contains(k));
    }
}

/// `b` is `a` after looking up recorded variable `id`, with result `r`: a
/// variable mapped before gives its SPIR-V variable and changes nothing; one
/// not mapped before is mapped to the new variable, or nothing changes on an
/// error.
pub open spec fn var_result(a: FuncMapInfo, b: FuncMapInfo, id: usize, r: Result<u32, CompileError>) -> bool {
    &&& b.var_block == a.var_block
    &&& b.block_info == a.block_info
    &&& (a.vars@.contains_key(id) ==> r == Ok::<u32, CompileError>(a.vars@[id]) && b.vars@ == a.vars@)
    &&& (!a.vars@.contains_key(id) && r is Ok ==> b.vars@ == a.vars@.insert(id, r->Ok_0))
    &&& (r is Err ==> b.vars@ == a.vars@)
}

/// Looking up a recorded variable again gives the SPIR-V variable it got the
/// first time, whatever other variables were mapped in between.
pub proof fn law_var_memo(f0: FuncMapInfo, f1: FuncMapInfo, f2: FuncMapInfo, f3: FuncMapInfo, id: usize,
    r1: Result<u32, CompileError>, r2: Result<u32, CompileError>)
    requires
        var_result(f0, f1, id, r1),
        r1 is Ok,
        vars_kept(f1.vars@, f2.vars@),
        var_result(f2, f3, id, r2),
    ensures
        r2 == r1,
{
    assert(f1.vars@.dom().contains(id));
    assert(f2.vars@.dom().contains(id));
}

/// Looking a recorded variable up twice in a row gives the same SPIR-V
/// variable, and the second look-up maps nothing new.
pub proof fn law_var_repeat(f0: FuncMapInfo, f1: FuncMapInfo, f2: FuncMapInfo, id: usize,
    r1: Result<u32, CompileError>, r2: Result<u32, CompileError>)
    requires
        var_result(f0, f1, id, r1),
        r1 is Ok,
        var_result(f1, f2, id, r2),
    ensures
        r2 == r1,
        f2.vars@ == f1.vars@,
{
    assert(f1.vars@.dom().contains(id));
}

impl FuncMapInfo {
    /// The SPIR-V variable of recorded variable `id`: the one it was given
    /// before, or else a new `Function` variable of type `ty` declared at the
    /// start of the variable block, which `id` is mapped to from then on; the
    /// block selected before is selected again. A new variable needs a
    /// selected block and the variable block.
    pub fn var(&mut self, b: &mut RSpirvBuilder, id: usize, ty: &Type) -> (r: Result<u32, CompileError>)
        requires
            old(b).wf(),
            strides_fit(ty@),
        ensures
            kept(*old(b), *final(b)),
            var_result(*old(self), *final(self), id, r),
            func_kept(*old(self), *final(self)),
            old(self).vars@.contains_key(id) || (in_block(old(b).raw) && block_exists(old(b).raw, old(self).var_block)) ==> r is Ok,
            old(self).vars@.contains_key(id) ==> *final(b) == *old(b),
            !old(self).vars@.contains_key(id) && r is Ok ==> var_put(old(b).raw, final(b).raw, old(self).var_block,
                final(b).pointer_decl_id(ty@, 7)->Some_0, r->Ok_0) && final(b).pointer_decl_id(ty@, 7) is Some,
            r is Ok && in_block(old(b).raw) ==> block_grew(old(b).raw, final(b).raw),
            r is Ok && block_exists(old(b).raw, old(self).var_block) ==> block_exists(final(b).raw, old(self).var_block),
    {
        match self.vars.get(&id) {
            Some(v) => Ok(*v),
            None => {
                let p = b.pointer(ty, 7);
                let current = match selected_block(&b.raw) {
                    Some(c) => c,
                    None => {
                        return Err(CompileError::NoBlock);
                    },
                };
                lift(select_block(&mut b.raw, Some(self.var_block)))?;
                let spv_id = next_id(&mut b.raw);
                lift(insert_function_variable(&mut b.raw, p, spv_id))?;
                let ghost b3 = b.raw;
                lift(select_block(&mut b.raw, Some(current)))?;
                self.vars.insert(id, spv_id);
                proof {
                    lemma_var_put_current(old(b).raw, b.raw, self.var_block, p, spv_id);
                    let s0 = current_block(old(b).raw).insts;
                    if module_view(old(b).raw).block->Some_0 == self.var_block {
                        lemma_prepend_suffix(s0, InstView::Variable { ty: p, res: spv_id, class: 7 });
                    } else {
                        lemma_suffix_refl(s0);
                    }
                }
                Ok(spv_id)
            },
        }
    }

    /// Loads the value of recorded variable `id` of type `ty` from its SPIR-V
    /// variable, as `var` gives it.
    pub fn load_var(&mut self, b: &mut RSpirvBuilder, id: usize, ty: &Type) -> (r: Result<u32, CompileError>)
        requires
            old(b).wf(),
            strides_fit(ty@),
        ensures
            kept(*old(b), *final(b)),
            func_kept(*old(self), *final(self)),
            old(self).vars@.contains_key(id) ==> final(self).vars@ == old(self).vars@,
            r is Ok ==> final(self).vars@.contains_key(id),
            in_block(old(b).raw) && block_exists(old(b).raw, old(self).var_block) ==> r is Ok,
            r is Ok ==> grew_then(old(b).raw, final(b).raw, InstView::Load {
                ty: type_decl_id(module_view(final(b).raw).globals, final(b).struct_map@, ty@)->Some_0,
                res: r->Ok_0, pointer: final(self).vars@[id] }),
            r is Ok && block_exists(old(b).raw, old(self).var_block) ==> block_exists(final(b).raw, old(self).var_block),
    {
        let v = self.var(b, id, ty)?;
        let ghost mid = *b;
        let t = b.type_id(ty);
        proof { lemma_kept_trans(*old(b), mid, *b); }
        let ghost b2 = b.raw;
        let r = lift(load(&mut b.raw, t, v));
        proof {
            if r is Ok {
                let s2 = current_block(b2).insts;
                lemma_push_suffix(s2, InstView::Load { ty: t, res: r->Ok_0, pointer: v });
                if !old(self).vars@.contains_key(id) {
                    lemma_suffix_trans(current_block(old(b).raw).insts, s2, current_block(b.raw).insts.drop_last());
                }
            }
        }
        r
    }

    /// Stores `obj` into the SPIR-V variable of recorded variable `id` of
    /// type `ty`, as `var` gives it.
    pub fn store_var(&mut self, b: &mut RSpirvBuilder, id: usize, ty: &Type, obj: u32) -> (r: Result<(), CompileError>)
        requires
            old(b).wf(),
            strides_fit(ty@),
        ensures
            kept(*old(b), *final(b)),
            func_kept(*old(self), *final(self)),
            old(self).vars@.contains_key(id) ==> final(self).vars@ == old(self).vars@,
            r is Ok ==> final(self).vars@.contains_key(id),
            in_block(old(b).raw) && block_exists(old(b).raw, old(self).var_block) ==> r is Ok,
            r is Ok ==> grew_then(old(b).raw, final(b).raw, InstView::Store { pointer: final(self).vars@[id], object: obj }),
            r is Ok && block_exists(old(b).raw, old(self).var_block) ==> block_exists(final(b).raw, old(self).var_block),
    {
        let v = self.var(b, id, ty)?;
        let ghost b2 = b.raw;
        let r = lift(store(&mut b.raw, v, obj));
        proof {
            if r is Ok {
                let s2 = current_block(b2).insts;
                lemma_push_suffix(s2, InstView::Store { pointer: v, object: obj });
                if !old(self).vars@.contains_key(id) {
                    lemma_suffix_trans(current_block(old(b).raw).insts, s2, current_block(b.raw).insts.drop_last());
                }
            }
        }
        r
    }
}

/// The instruction a two-operand operation is emitted as: its own
/// instruction, or for a cross product the `cross` instruction (number 68)
/// of the GLSL.std.450 set `ext`.
pub open spec fn bin_inst(op: BinOp, ty: u32, res: u32, lhs: u32, rhs: u32, ext: u32) -> InstView {
    if op is Cross {
        InstView::ExtInst { ty, res, set: ext, instruction: 68, operands: seq![lhs, rhs] }
    } else {
        InstView::Bin { op, ty, res, lhs, rhs }
    }
}

/// The operation a two-operand instruction computes, if it is one: its
/// own, or a cross product for the `cross` instruction of set `ext`.
pub open spec fn op_of(i: InstView, ext: u32) -> Option<BinOp> {
    match i {
        InstView::Bin { op, .. } => Some(op),
        InstView::ExtInst { set, instruction, .. } => if set == ext && instruction == 68 { Some(BinOp::Cross) } else { None },
        _ => None,
    }
}

/// The two operands of a two-operand instruction.
pub open spec fn operands_of(i: InstView) -> (u32, u32) {
    match i {
        InstView::Bin { lhs, rhs, .. } => (lhs, rhs),
        InstView::ExtInst { operands, .. } => (operands[0], operands[1]),
        _ => (0, 0),
    }
}

/// The result type of a two-operand instruction.
pub open spec fn ty_of(i: InstView) -> u32 {
    match i {
        InstView::Bin { ty, .. } => ty,
        InstView::ExtInst { ty, .. } => ty,
        _ => 0,
    }
}

/// The result id of an instruction that has one.
pub open spec fn res_of(i: InstView) -> u32 {
    match i {
        InstView::Bin { res, .. } => res,
        InstView::ExtInst { res, .. } => res,
        InstView::Load { res, .. } => res,
        InstView::Un { res, .. } => res,
        InstView::VectorShuffle { res, .. } => res,
        InstView::CompositeConstruct { res, .. } => res,
        InstView::SampleImplicitLod { res, .. } => res,
        InstView::AccessChain { res, .. } => res,
        InstView::CompositeExtract { res, .. } => res,
        InstView::SampleExplicitLod { res, .. } => res,
        InstView::SampledImage { res, .. } => res,
        _ => 0,
    }
}

/// Applies a two-operand instruction: appends it to the selected block,
/// which it needs.
pub fn apply_bin(b: &mut RSpirvBuilder, op: BinOp, ty: u32, lhs: u32, rhs: u32) -> (r: Result<u32, CompileError>)
    requires
        old(b).wf(),
    ensures
        kept(*old(b), *final(b)),
        final(b).struct_map@ == old(b).struct_map@,
        r is Ok <==> in_block(old(b).raw),
        r is Ok ==> appended(old(b).raw, final(b).raw, bin_inst(op, ty, r->Ok_0, lhs, rhs, old(b).ext)),
        r is Err ==> same_code(old(b).raw, final(b).raw),
{
    let res = match op {
        BinOp::IAdd => i_add(&mut b.raw, ty, lhs, rhs),
        BinOp::FAdd => f_add(&mut b.raw, ty, lhs, rhs),
        BinOp::ISub => i_sub(&mut b.raw, ty, lhs, rhs),
        BinOp::FSub => f_sub(&mut b.raw, ty, lhs, rhs),
        BinOp::IMul => i_mul(&mut b.raw, ty, lhs, rhs),
        BinOp::FMul => f_mul(&mut b.raw, ty, lhs, rhs),
        BinOp::SDiv => s_div(&mut b.raw, ty, lhs, rhs),
        BinOp::UDiv => u_div(&mut b.raw, ty, lhs, rhs),
        BinOp::FDiv => f_div(&mut b.raw, ty, lhs, rhs),
        BinOp::VectorTimesScalar => vector_times_scalar(&mut b.raw, ty, lhs, rhs),
        BinOp::MatrixTimesScalar => matrix_times_scalar(&mut b.raw, ty, lhs, rhs),
        BinOp::MatrixTimesVector => matrix_times_vector(&mut b.raw, ty, lhs, rhs),
        BinOp::MatrixTimesMatrix => matrix_times_matrix(&mut b.raw, ty, lhs, rhs),
        BinOp::Dot => dot(&mut b.raw, ty, lhs, rhs),
        BinOp::BitwiseAnd => bitwise_and(&mut b.raw, ty, lhs, rhs),
        BinOp::BitwiseOr => bitwise_or(&mut b.raw, ty, lhs, rhs),
        BinOp::BitwiseXor => bitwise_xor(&mut b.raw, ty, lhs, rhs),
        BinOp::LogicalAnd => logical_and(&mut b.raw, ty, lhs, rhs),
        BinOp::LogicalOr => logical_or(&mut b.raw, ty, lhs, rhs),
        BinOp::LogicalEqual => logical_equal(&mut b.raw, ty, lhs, rhs),
        BinOp::LogicalNotEqual => logical_not_equal(&mut b.raw, ty, lhs, rhs),
        BinOp::IEqual => i_equal(&mut b.raw, ty, lhs, rhs),
        BinOp::FOrdEqual => f_ord_equal(&mut b.raw, ty, lhs, rhs),
        BinOp::INotEqual => i_not_equal(&mut b.raw, ty, lhs, rhs),
        BinOp::FOrdNotEqual => f_ord_not_equal(&mut b.raw, ty, lhs, rhs),
        BinOp::SLessThan => s_less_than(&mut b.raw, ty, lhs, rhs),
        BinOp::ULessThan => u_less_than(&mut b.raw, ty, lhs, rhs),
        BinOp::FOrdLessThan => f_ord_less_than(&mut b.raw, ty, lhs, rhs),
        BinOp::SGreaterThan => s_greater_than(&mut b.raw, ty, lhs, rhs),
        BinOp::UGreaterThan => u_greater_than(&mut b.raw, ty, lhs, rhs),
        BinOp::FOrdGreaterThan => f_ord_greater_than(&mut b.raw, ty, lhs, rhs),
        BinOp::SLessThanEqual => s_less_than_equal(&mut b.raw, ty, lhs, rhs),
        BinOp::ULessThanEqual => u_less_than_equal(&mut b.raw, ty, lhs, rhs),
        BinOp::FOrdLessThanEqual => f_ord_less_than_equal(&mut b.raw, ty, lhs, rhs),
        BinOp::SGreaterThanEqual => s_greater_than_equal(&mut b.raw, ty, lhs, rhs),
        BinOp::UGreaterThanEqual => u_greater_than_equal(&mut b.raw, ty, lhs, rhs),
        BinOp::FOrdGreaterThanEqual => f_ord_greater_than_equal(&mut b.raw, ty, lhs, rhs),
        BinOp::Cross => {
            let ops = vec![lhs, rhs];
            assert(ops@ == seq![lhs, rhs]);
            ext_inst(&mut b.raw, ty, b.ext, 68, ops)
        },
    };
    lift(res)
}

/// Applies a one-operand instruction: appends it to the selected block,
/// which it needs.
pub fn apply_un(b: &mut RSpirvBuilder, op: UnOp, ty: u32, x: u32) -> (r: Result<u32, CompileError>)
    requires
        old(b).wf(),
    ensures
        kept(*old(b), *final(b)),
        final(b).struct_map@ == old(b).struct_map@,
        r is Ok <==> in_block(old(b).raw),
        r is Ok ==> appended(old(b).raw, final(b).raw, InstView::Un { op, ty, res: r->Ok_0, operand: x }),
        r is Err ==> same_code(old(b).raw, final(b).raw),
{
    let res = match op {
        UnOp::LogicalNot => logical_not(&mut b.raw, ty, x),
        UnOp::SConvert => s_convert(&mut b.raw, ty, x),
        UnOp::UConvert => u_convert(&mut b.raw, ty, x),
        UnOp::FConvert => f_convert(&mut b.raw, ty, x),
        UnOp::ConvertSToF => convert_s_to_f(&mut b.raw, ty, x),
        UnOp::ConvertUToF => convert_u_to_f(&mut b.raw, ty, x),
        UnOp::ConvertFToS => convert_f_to_s(&mut b.raw, ty, x),
        UnOp::ConvertFToU => convert_f_to_u(&mut b.raw, ty, x),
        UnOp::SatConvertSToU => sat_convert_s_to_u(&mut b.raw, ty, x),
        UnOp::SatConvertUToS => sat_convert_u_to_s(&mut b.raw, ty, x),
    };
    lift(res)
}

/// `n` copies of `x`.
pub fn repeat(x: u32, n: u32) -> (r: Vec<u32>)
    ensures
        r@ == Seq::new(n as nat, |_i: int| x),
{
    let mut v: Vec<u32> = Vec::new();
    let mut i: u32 = 0;
    while i < n
        invariant
            i <= n,
            v@ == Seq::new(i as nat, |_i: int| x),
        decreases n - i,
    {
        v.push(x);
        i = i + 1;
        proof {
            assert(v@ =~= Seq::new(i as nat, |_i: int| x));
        }
    }
    v
}

/// Widens an operand as the plan asks: repeats a scalar into every component
/// of a vector, or of every column of a matrix.
pub fn splat(b: &mut RSpirvBuilder, s: Splat, obj: u32) -> (r: Result<u32, CompileError>)
    requires
        old(b).wf(),
    ensures
        kept(*old(b), *final(b)),
        final(b).struct_map@ == old(b).struct_map@,
        s is Keep ==> r == Ok::<u32, CompileError>(obj),
        in_block(old(b).raw) ==> r is Ok,
        r is Ok && in_block(old(b).raw) ==> in_block(final(b).raw) && sel_kept(old(b).raw, final(b).raw),
        forall|k: usize| #[trigger] block_exists(old(b).raw, k) && r is Ok ==> block_exists(final(b).raw, k),
{
    match s {
        Splat::Keep => Ok(obj),
        Splat::ToVector(v) => {
            let vt = b.vector_type(v);
            lift(composite_construct(&mut b.raw, vt, repeat(obj, v.n_scalar)))
        },
        Splat::ToMatrix(m) => {
            let vt = b.vector_type(m.vec_ty);
            let mt = b.matrix_type(m);
            let col = lift(composite_construct(&mut b.raw, vt, repeat(obj, m.vec_ty.n_scalar)))?;
            lift(composite_construct(&mut b.raw, mt, repeat(col, m.n_vec)))
        },
    }
}

/// The selected block ends with an access chain `r` into `base` along `n`
/// indexes.
pub open spec fn ends_with_chain(b: Builder, r: u32, base: u32, n: nat) -> bool {
    let s = current_block(b).insts;
    &&& in_block(b)
    &&& s.len() >= 1
    &&& back(s, 1) is AccessChain
    &&& back(s, 1)->AccessChain_res == r
    &&& back(s, 1)->AccessChain_base == base
    &&& back(s, 1)->AccessChain_indexes.len() == n
}

/// The selected block ends with an access chain whose index operands match
/// `ks`: as many, and where `ks` gives a number, the unsigned constant of that
/// number; the other indexes are values loaded at run time.
pub open spec fn chain_indexes(b: RSpirvBuilder, ks: Seq<Option<u32>>) -> bool {
    let idx = back(current_block(b.raw).insts, 1)->AccessChain_indexes;
    &&& idx.len() == ks.len()
    &&& forall|j: int| 0 <= j < ks.len() && (#[trigger] ks[j]) is Some ==> b.declares_scalar(ScalarVal::UInt(ks[j]->Some_0), idx[j])
}

/// The pointer a load or store names without an access chain: a declared
/// input or output, or the variable of a recorded variable in `vars`.
pub open spec fn place_id(d: OpLoadStoreData, shader: ShaderMapInfo, vars: Map<usize, u32>) -> Option<u32> {
    match d {
        OpLoadStoreData::Input { location } => Some(shader.inputs@[location as int]),
        OpLoadStoreData::Output { location } => Some(shader.outputs@[location as int]),
        OpLoadStoreData::Variable { id } => Some(vars[id]),
        _ => None,
    }
}

/// The pointer to what a load or store names, in the storage class of the
/// resource: a declared input or output variable, an access chain into a
/// uniform or storage buffer or the push constant block (through the block's
/// single member, then the element and member asked for), or a recorded
/// variable or an access chain into one.
#[verifier::rlimit(80)]
pub fn place(b: &mut RSpirvBuilder, shader: &ShaderMapInfo, f: &mut FuncMapInfo, d: &OpLoadStoreData, ty: &Type) -> (r: Result<u32, CompileError>)
    requires
        old(b).wf(),
        strides_fit(ty@),
        data_ok(*d, shader.counts()),
    ensures
        kept(*old(b), *final(b)),
        func_kept(*old(f), *final(f)),
        *d matches OpLoadStoreData::Input { location } ==> r == Ok::<u32, CompileError>(shader.inputs@[location as int]),
        *d matches OpLoadStoreData::Output { location } ==> r == Ok::<u32, CompileError>(shader.outputs@[location as int]),
        *d matches OpLoadStoreData::Variable { id } ==> var_result(*old(f), *final(f), id, r),
        (*d is Uniform || *d is UniformField || *d is Storage || *d is PushConstant || *d is PushConstantField)
            ==> (r is Ok <==> in_block(old(b).raw)),
        in_block(old(b).raw) && block_exists(old(b).raw, old(f).var_block) ==> r is Ok,
        r is Ok && in_block(old(b).raw) && block_exists(old(b).raw, old(f).var_block) ==> in_block(final(b).raw)
            && block_exists(final(b).raw, old(f).var_block),
        (*d is Input || *d is Output) ==> only_globals(old(b).raw, final(b).raw),
        *d is Variable && r is Ok && in_block(old(b).raw) ==> block_grew(old(b).raw, final(b).raw),
        *d matches OpLoadStoreData::Uniform { id } ==> (r is Ok ==> ends_with_chain(final(b).raw, r->Ok_0, shader.uniforms@[id as int], 1)),
        *d matches OpLoadStoreData::UniformField { id, .. } ==> (r is Ok ==> ends_with_chain(final(b).raw, r->Ok_0, shader.uniforms@[id as int], 2)),
        *d matches OpLoadStoreData::Storage { id } ==> (r is Ok ==> ends_with_chain(final(b).raw, r->Ok_0, shader.storages@[id as int], 1)),
        *d matches OpLoadStoreData::StorageElement { id, .. } ==> (r is Ok ==> ends_with_chain(final(b).raw, r->Ok_0, shader.storages@[id as int], 2)),
        *d matches OpLoadStoreData::StorageElementField { id, .. } ==> (r is Ok ==> ends_with_chain(final(b).raw, r->Ok_0, shader.storages@[id as int], 3)),
        *d is PushConstant && r is Ok ==> ends_with_chain(final(b).raw, r->Ok_0, shader.push_constants->Some_0, 1),
        *d is PushConstantField && r is Ok ==> ends_with_chain(final(b).raw, r->Ok_0, shader.push_constants->Some_0, 2),
        *d matches OpLoadStoreData::Struct { id, .. } ==> (r is Ok ==> ends_with_chain(final(b).raw, r->Ok_0, final(f).vars@[id], 1)),
        *d matches OpLoadStoreData::ArrayElement { id, .. } ==> (r is Ok ==> ends_with_chain(final(b).raw, r->Ok_0, final(f).vars@[id], 1)),
        *d is Uniform || *d is Storage || *d is PushConstant ==> (r is Ok ==> chain_indexes(*final(b), seq![Some(0u32)])),
        *d matches OpLoadStoreData::UniformField { field, .. } ==> (r is Ok ==> chain_indexes(*final(b), seq![Some(0u32), Some(field)])),
        *d matches OpLoadStoreData::PushConstantField { field } ==> (r is Ok ==> chain_indexes(*final(b), seq![Some(0u32), Some(field)])),
        *d is StorageElement ==> (r is Ok ==> chain_indexes(*final(b), seq![Some(0u32), None])),
        *d matches OpLoadStoreData::StorageElement { element, .. } ==> (r is Ok ==> back(current_block(final(b).raw).insts, 2) is Load
            && back(current_block(final(b).raw).insts, 2)->Load_res == back(current_block(final(b).raw).insts, 1)->AccessChain_indexes[1] && back(current_block(final(b).raw).insts, 2)->Load_pointer == final(f).vars@[element.0]),
        *d matches OpLoadStoreData::ArrayElement { index, .. } ==> (r is Ok ==> back(current_block(final(b).raw).insts, 2) is Load
            && back(current_block(final(b).raw).insts, 2)->Load_res == back(current_block(final(b).raw).insts, 1)->AccessChain_indexes[0] && back(current_block(final(b).raw).insts, 2)->Load_pointer == final(f).vars@[index.0]),
        *d matches OpLoadStoreData::StorageElementField { field, .. } ==> (r is Ok ==> chain_indexes(*final(b), seq![Some(0u32), None, Some(field)])),
        *d matches OpLoadStoreData::Struct { field, .. } ==> (r is Ok ==> chain_indexes(*final(b), seq![Some(field)])),
        *d is ArrayElement ==> (r is Ok ==> chain_indexes(*final(b), seq![Option::<u32>::None])),
{
    let ghost b0 = *b;
    let obj_ty = b.type_id(ty);
    let ghost b1 = *b;
    let r = match d {
        OpLoadStoreData::Input { location } => Ok(shader.inputs[*location]),
        OpLoadStoreData::Output { location } => Ok(shader.outputs[*location]),
        OpLoadStoreData::UniformField { field, id } => {
            let var = shader.uniforms[*id];
            let p = crate::spirv_api::type_pointer(&mut b.raw, 2, obj_ty);
            let i1 = b.index_const(0);
            let ghost c1 = *b;
            let i2 = b.index_const(*field);
            let ghost c2 = *b;
            let ch = vec![i1, i2];
            assert(ch@ == seq![i1, i2]);
            let r = lift(access_chain(&mut b.raw, p, var, ch));
            proof {
                lemma_scalar_kept(c1, *b, ScalarVal::UInt(0), i1);
                lemma_scalar_kept(c2, *b, ScalarVal::UInt(*field), i2);
                assert(seq![Some(0u32), Some(*field)][1] == Some(*field));
            }
            r
        },
        OpLoadStoreData::Uniform { id } => {
            let var = shader.uniforms[*id];
            let p = crate::spirv_api::type_pointer(&mut b.raw, 2, obj_ty);
            let i1 = b.index_const(0);
            let ghost c1 = *b;
            let ch = vec![i1];
            assert(ch@ == seq![i1]);
            let r = lift(access_chain(&mut b.raw, p, var, ch));
            proof { lemma_scalar_kept(c1, *b, ScalarVal::UInt(0), i1); }
            r
        },
        OpLoadStoreData::Storage { id } => {
            let var = shader.storages[*id];
            let arr = crate::spirv_api::type_runtime_array(&mut b.raw, obj_ty);
            let p = crate::spirv_api::type_pointer(&mut b.raw, 2, arr);
            let i1 = b.index_const(0);
            let ghost c1 = *b;
            let ch = vec![i1];
            assert(ch@ == seq![i1]);
            let r = lift(access_chain(&mut b.raw, p, var, ch));
            proof { lemma_scalar_kept(c1, *b, ScalarVal::UInt(0), i1); }
            r
        },
        OpLoadStoreData::StorageElement { id, element } => {
            let var = shader.storages[*id];
            let p = crate::spirv_api::type_pointer(&mut b.raw, 2, obj_ty);
            let i1 = b.index_const(0);
            let ghost b2 = *b;
            let i2 = f.load_var(b, element.0, &element.1);
            proof { lemma_kept_trans(b1, b2, *b); }
            match i2 {
                Ok(i2) => {
                    let ghost c2 = *b;
                    let ch = vec![i1, i2];
                    assert(ch@ == seq![i1, i2]);
                    let r = lift(access_chain(&mut b.raw, p, var, ch));
                    proof {
                        lemma_scalar_kept(b2, *b, ScalarVal::UInt(0), i1);
                        if r is Ok {
                            assert(current_block(b.raw).insts == current_block(c2.raw).insts.push(InstView::AccessChain { ty: p, res: r->Ok_0, base: var, indexes: ch@ }));
                        }
                    }
                    r
                },
                Err(e) => Err(e),
            }
        },
        OpLoadStoreData::StorageElementField { id, element, field } => {
            let var = shader.storages[*id];
            let p = crate::spirv_api::type_pointer(&mut b.raw, 2, obj_ty);
            let i1 = b.index_const(0);
            let ghost b2 = *b;
            let i2 = f.load_var(b, element.0, &element.1);
            proof { lemma_kept_trans(b1, b2, *b); }
            match i2 {
                Ok(i2) => {
                    let i3 = b.index_const(*field);
                    let ghost c3 = *b;
                    let ch = vec![i1, i2, i3];
                    assert(ch@ == seq![i1, i2, i3]);
                    let r = lift(access_chain(&mut b.raw, p, var, ch));
                    proof {
                        lemma_scalar_kept(b2, *b, ScalarVal::UInt(0), i1);
                        lemma_scalar_kept(c3, *b, ScalarVal::UInt(*field), i3);
                        assert(seq![Some(0u32), None, Some(*field)][2] == Some(*field));
                    }
                    r
                },
                Err(e) => Err(e),
            }
        },
        OpLoadStoreData::Variable { id } => f.var(b, *id, ty),
        OpLoadStoreData::PushConstant => {
            let var = match shader.push_constants { Some(v) => v, None => 0 };
            let p = crate::spirv_api::type_pointer(&mut b.raw, 9, obj_ty);
            let i1 = b.index_const(0);
            let ghost c1 = *b;
            let ch = vec![i1];
            assert(ch@ == seq![i1]);
            let r = lift(access_chain(&mut b.raw, p, var, ch));
            proof { lemma_scalar_kept(c1, *b, ScalarVal::UInt(0), i1); }
            r
        },
        OpLoadStoreData::PushConstantField { field } => {
            let var = match shader.push_constants { Some(v) => v, None => 0 };
            let p = crate::spirv_api::type_pointer(&mut b.raw, 9, obj_ty);
            let i1 = b.index_const(0);
            let ghost c1 = *b;
            let i2 = b.index_const(*field);
            let ghost c2 = *b;
            let ch = vec![i1, i2];
            assert(ch@ == seq![i1, i2]);
            let r = lift(access_chain(&mut b.raw, p, var, ch));
            proof {
                lemma_scalar_kept(c1, *b, ScalarVal::UInt(0), i1);
                lemma_scalar_kept(c2, *b, ScalarVal::UInt(*field), i2);
                assert(seq![Some(0u32), Some(*field)][1] == Some(*field));
            }
            r
        },
        OpLoadStoreData::Struct { id, struct_ty, field } => {
            let st = Type::Struct(struct_ty.copy());
            let ghost b2 = *b;
            let var = f.var(b, *id, &st);
            proof { lemma_kept_trans(b1, b2, *b); }
            match var {
                Ok(var) => {
                    let p = crate::spirv_api::type_pointer(&mut b.raw, 7, obj_ty);
                    let i1 = b.index_const(*field);
                    let ghost c1 = *b;
                    let ch = vec![i1];
                    assert(ch@ == seq![i1]);
                    let r = lift(access_chain(&mut b.raw, p, var, ch));
                    proof { lemma_scalar_kept(c1, *b, ScalarVal::UInt(*field), i1); }
                    r
                },
                Err(e) => Err(e),
            }
        },
        OpLoadStoreData::ArrayElement { id, array_ty, index } => {
            let at = Type::Array(array_ty.copy());
            let ghost b2 = *b;
            let var = f.var(b, *id, &at);
            proof { lemma_kept_trans(b1, b2, *b); }
            match var {
                Ok(var) => {
                    let p = crate::spirv_api::type_pointer(&mut b.raw, 7, obj_ty);
                    let ghost b3 = *b;
                    let ghost f3 = *f;
                    assert(f3.vars@.dom().contains(*id) && f3.vars@[*id] == var);
                    let idx = f.load_var(b, index.0, &index.1);
                    assert(f.vars@.dom().contains(*id) && f.vars@[*id] == var);
                    proof { lemma_kept_trans(b1, b3, *b); }
                    match idx {
                        Ok(idx) => {
                            let ch = vec![idx];
                            assert(ch@ == seq![idx]);
                            let ghost c2 = b.raw;
                            let r = lift(access_chain(&mut b.raw, p, var, ch));
                            proof {
                                if r is Ok {
                                    assert(current_block(b.raw).insts == current_block(c2).insts.push(InstView::AccessChain { ty: p, res: r->Ok_0, base: var, indexes: ch@ }));
                                }
                            }
                            r
                        },
                        Err(e) => Err(e),
                    }
                },
                Err(e) => Err(e),
            }
        },
    };
    proof { lemma_kept_trans(b0, b1, *b); }
    r
}

/// Whether a list holds an instruction that ends its block.
pub open spec fn has_discard(s: Seq<Instruction>) -> bool {
    exists|k: int| 0 <= k < s.len() && (#[trigger] s[k]) is Discard
}

/// After a store that grew the selected block, the block ends with the
/// store, and before it with all that it ended with.
pub proof fn lemma_store_tail(pre: Builder, fin: Builder, st: InstView)
    requires
        grew_then(pre, fin, st),
    ensures
        back(current_block(fin).insts, 1) == st,
        current_block(fin).insts.len() >= current_block(pre).insts.len() + 1,
        forall|j: int| 1 <= j <= current_block(pre).insts.len()
            ==> #[trigger] back(current_block(fin).insts, j + 1) == back(current_block(pre).insts, j),
        current_block(pre).insts.len() >= 1 ==> back(current_block(fin).insts, 2) == back(current_block(pre).insts, 1),
        current_block(pre).insts.len() >= 2 ==> back(current_block(fin).insts, 3) == back(current_block(pre).insts, 2),
{
    let s = current_block(fin).insts;
    lemma_back_drop(s);
    assert(s.drop_last().len() >= current_block(pre).insts.len());
    if current_block(pre).insts.len() >= 1 {
        assert(s.drop_last()[s.len() - 2] == s[s.len() - 2]);
        assert(back(s.drop_last(), 1) == back(current_block(pre).insts, 1));
    }
    if current_block(pre).insts.len() >= 2 {
        assert(s.drop_last()[s.len() - 3] == s[s.len() - 3]);
        assert(back(s.drop_last(), 2) == back(current_block(pre).insts, 2));
    }
    assert forall|j: int| 1 <= j <= current_block(pre).insts.len()
        implies #[trigger] back(current_block(fin).insts, j + 1) == back(current_block(pre).insts, j) by {
        assert(back(s.drop_last(), j) == back(current_block(pre).insts, j));
    }
}

/// The selected block ends with the store through `dst` of what the
/// instruction before it computed.
pub open spec fn stored_result(b: Builder, dst: u32) -> bool {
    let s = current_block(b).insts;
    &&& in_block(b)
    &&& s.len() >= 2
    &&& back(s, 1) == InstView::Store { pointer: dst, object: res_of(back(s, 2)) }
}

/// The selected block ends with `op` and the store of its result through
/// `var`.
pub open spec fn ends_with_op_store(b: Builder, op: BinOp, var: u32, ext: u32) -> bool {
    let s = current_block(b).insts;
    &&& in_block(b)
    &&& s.len() >= 2
    &&& op_of(back(s, 2), ext) == Some(op)
    &&& back(s, 1) == InstView::Store { pointer: var, object: res_of(back(s, 2)) }
}

/// Lowers `store = lhs op rhs`: the result type, both operands loaded, the
/// operands widened and ordered as the selection plan says, the instruction,
/// and the store into the result variable.
pub fn lower_lhs_rhs(b: &mut RSpirvBuilder, f: &mut FuncMapInfo, o: &OpLhsRhs) -> (r: Result<bool, CompileError>)
    requires
        old(b).wf(),
        crate::select::lhs_rhs_plan(o.ty, o.lhs.1@, o.rhs.1@) is Some,
        strides_fit(o.lhs.1@),
        strides_fit(o.rhs.1@),
        strides_fit(o.store.1@),
    ensures
        kept(*old(b), *final(b)),
        func_kept(*old(f), *final(f)),
        r is Ok ==> !r->Ok_0,
        in_block(old(b).raw) && block_exists(old(b).raw, old(f).var_block) ==> r is Ok,
        r is Ok ==> ends_with_op_store(final(b).raw, crate::select::lhs_rhs_plan(o.ty, o.lhs.1@, o.rhs.1@)->Some_0.op,
            final(f).vars@[o.store.0], old(b).ext),
        r is Ok && block_exists(old(b).raw, old(f).var_block) ==> block_exists(final(b).raw, old(f).var_block),
{
    let ghost b0 = *b;
    let res_ty = b.type_id(&o.store.1);
    let ghost b1 = *b;
    let lhs = f.load_var(b, o.lhs.0, &o.lhs.1);
    let ghost b2 = *b;
    proof { lemma_kept_trans(b0, b1, b2); }
    let mut lhs = lhs?;
    let rhs = f.load_var(b, o.rhs.0, &o.rhs.1);
    let ghost b3 = *b;
    proof { lemma_kept_trans(b0, b2, b3); }
    let mut rhs = rhs?;
    let plan = match plan_lhs_rhs(o.ty, &o.lhs.1, &o.rhs.1) {
        Some(p) => p,
        None => {
            return Ok(false);
        },
    };
    let l = splat(b, plan.splat_lhs, lhs);
    let ghost b4 = *b;
    proof { lemma_kept_trans(b0, b3, b4); }
    lhs = l?;
    let rr = splat(b, plan.splat_rhs, rhs);
    let ghost b5 = *b;
    proof { lemma_kept_trans(b0, b4, b5); }
    rhs = rr?;
    if plan.swap {
        let t = lhs;
        lhs = rhs;
        rhs = t;
    }
    let res = apply_bin(b, plan.op, res_ty, lhs, rhs);
    let ghost b6 = *b;
    proof { lemma_kept_trans(b0, b5, b6); }
    let res = res?;
    proof {
        lemma_push_suffix(current_block(b5.raw).insts, bin_inst(plan.op, res_ty, res, lhs, rhs, b0.ext));
    }
    let st = f.store_var(b, o.store.0, &o.store.1, res);
    proof { lemma_kept_trans(b0, b6, *b); }
    st?;
    proof {
        let s = current_block(b.raw).insts;
        lemma_back_drop(s);
        assert(back(s.drop_last(), 1) == back(current_block(b6.raw).insts, 1));
    }
    Ok(false)
}

/// Lowers `store = op lhs`: the operand loaded, then the logical not or the
/// GLSL.std.450 instruction, and the store into the result variable.
pub fn lower_lhs(b: &mut RSpirvBuilder, f: &mut FuncMapInfo, o: &OpLhs) -> (r: Result<bool, CompileError>)
    requires
        old(b).wf(),
        strides_fit(o.lhs.1@),
        strides_fit(o.store.1@),
    ensures
        kept(*old(b), *final(b)),
        func_kept(*old(f), *final(f)),
        r is Ok ==> !r->Ok_0,
        in_block(old(b).raw) && block_exists(old(b).raw, old(f).var_block) ==> r is Ok,
        r is Ok ==> stored_result(final(b).raw, final(f).vars@[o.store.0])
            && (crate::select::lhs_instruction(o.ty) matches LhsPlan::Core(op) ==> back(current_block(final(b).raw).insts, 2) is Un && back(current_block(final(b).raw).insts, 2)->Un_op == op)
            && (crate::select::lhs_instruction(o.ty) matches LhsPlan::Glsl(n) ==> back(current_block(final(b).raw).insts, 2) is ExtInst && back(current_block(final(b).raw).insts, 2)->ExtInst_instruction == n && back(current_block(final(b).raw).insts, 2)->ExtInst_set == old(b).ext),
{
    let ghost b0 = *b;
    let x = f.load_var(b, o.lhs.0, &o.lhs.1);
    let ghost b1 = *b;
    let x = x?;
    let res_ty = b.type_id(&o.store.1);
    let ghost b2 = *b;
    proof { lemma_kept_trans(b0, b1, b2); }
    let res = match plan_lhs(o.ty) {
        LhsPlan::Core(op) => apply_un(b, op, res_ty, x),
        LhsPlan::Glsl(n) => lift(ext_inst(&mut b.raw, res_ty, b.ext, n, vec![x])),
    };
    let ghost b3 = *b;
    proof { lemma_kept_trans(b0, b2, b3); }
    let res = res?;
    let ghost pre = b.raw;
    let st = f.store_var(b, o.store.0, &o.store.1, res);
    proof { lemma_kept_trans(b0, b3, *b); }
    st?;
    proof { lemma_store_tail(pre, b.raw, InstView::Store { pointer: f.vars@[o.store.0], object: res }); }
    Ok(false)
}

/// Lowers a vector shuffle: the source loaded, its components picked (as
/// many as the destination has, at most four), and the store.
pub fn lower_shuffle(b: &mut RSpirvBuilder, f: &mut FuncMapInfo, o: &OpVectorShuffle) -> (r: Result<bool, CompileError>)
    requires
        old(b).wf(),
    ensures
        kept(*old(b), *final(b)),
        func_kept(*old(f), *final(f)),
        r is Ok ==> !r->Ok_0,
        in_block(old(b).raw) && block_exists(old(b).raw, old(f).var_block) ==> r is Ok,
        r is Ok ==> stored_result(final(b).raw, final(f).vars@[o.dst.0]) && back(current_block(final(b).raw).insts, 2) is VectorShuffle
            && back(current_block(final(b).raw).insts, 2)->VectorShuffle_components == o.components@.take(if o.dst.1.n_scalar < 4 { o.dst.1.n_scalar as int } else { 4 }),
{
    let ghost b0 = *b;
    let src_ty = Type::Vector(o.src.1);
    let dst_ty = Type::Vector(o.dst.1);
    let ghost f0 = *f;
    let src_var = f.var(b, o.src.0, &src_ty);
    let ghost f1 = *f;
    let ghost b1 = *b;
    let src_var = src_var?;
    let src_obj_ty = b.vector_type(o.src.1);
    let dst_obj_ty = b.vector_type(o.dst.1);
    let ghost b2 = *b;
    proof { lemma_kept_trans(b0, b1, b2); }
    let src = lift(load(&mut b.raw, src_obj_ty, src_var))?;
    let n: usize = if o.dst.1.n_scalar < 4 { o.dst.1.n_scalar as usize } else { 4 };
    let mut comps: Vec<u32> = Vec::new();
    let mut i: usize = 0;
    while i < n
        invariant
            n <= 4,
            i <= n,
            comps@ == o.components@.take(i as int),
        decreases n - i,
    {
        comps.push(o.components[i]);
        i = i + 1;
        proof {
            assert(comps@ =~= o.components@.take(i as int));
        }
    }
    let res = lift(vector_shuffle(&mut b.raw, dst_obj_ty, src, src, comps))?;
    let ghost pre = b.raw;
    let st = f.store_var(b, o.dst.0, &dst_ty, res);
    proof { lemma_kept_trans(b0, b2, *b); lemma_func_kept_trans(f0, f1, *f); }
    st?;
    proof { lemma_store_tail(pre, b.raw, InstView::Store { pointer: f.vars@[o.dst.0], object: res }); }
    Ok(false)
}

/// Lowers a copy: the value loaded from the source place and stored to the
/// destination place.
pub fn lower_load_store(b: &mut RSpirvBuilder, shader: &ShaderMapInfo, f: &mut FuncMapInfo, o: &OpLoadStore) -> (r: Result<bool, CompileError>)
    requires
        old(b).wf(),
        strides_fit(o.ty@),
        data_ok(o.src, shader.counts()),
        data_ok(o.dst, shader.counts()),
    ensures
        kept(*old(b), *final(b)),
        func_kept(*old(f), *final(f)),
        r is Ok ==> !r->Ok_0,
        in_block(old(b).raw) && block_exists(old(b).raw, old(f).var_block) ==> r is Ok,
        r is Ok ==> in_block(final(b).raw) && current_block(final(b).raw).insts.len() >= 2 && back(current_block(final(b).raw).insts, 1) is Store,
        r is Ok ==> (place_id(o.dst, *shader, final(f).vars@) matches Some(p) ==> back(current_block(final(b).raw).insts, 1)->Store_pointer == p
            && back(current_block(final(b).raw).insts, 2) is Load && back(current_block(final(b).raw).insts, 2)->Load_res == back(current_block(final(b).raw).insts, 1)->Store_object),
        r is Ok && place_id(o.dst, *shader, final(f).vars@) is None ==> back(current_block(final(b).raw).insts, 2) is AccessChain
            && back(current_block(final(b).raw).insts, 1)->Store_pointer == res_of(back(current_block(final(b).raw).insts, 2)),
        r is Ok && (o.dst is Input || o.dst is Output) ==> (place_id(o.src, *shader, final(f).vars@) matches Some(p)
            ==> back(current_block(final(b).raw).insts, 2)->Load_pointer == p),
{
    let ghost b0 = *b;
    let obj_ty = b.type_id(&o.ty);
    let ghost b1 = *b;
    let src = place(b, shader, f, &o.src, &o.ty);
    let ghost b2 = *b;
    proof { lemma_kept_trans(b0, b1, b2); }
    let src = src?;
    let obj = lift(load(&mut b.raw, obj_ty, src))?;
    let ghost bl = b.raw;
    let ghost fl = *f;
    let dst = place(b, shader, f, &o.dst, &o.ty);
    proof { lemma_kept_trans(b0, b2, *b); }
    let dst = dst?;
    let ghost bp = b.raw;
    lift(store(&mut b.raw, dst, obj))?;
    proof {
        let sp = current_block(bp).insts;
        let s = current_block(b.raw).insts;
        assert(s == sp.push(InstView::Store { pointer: dst, object: obj }));
        assert(back(s, 2) == back(sp, 1));
        if o.dst is Variable {
            assert(back(sp, 1) == back(current_block(bl).insts, 1));
        }
        if o.src is Variable {
            assert(f.vars@[o.src->Variable_id] == fl.vars@[o.src->Variable_id]);
        }
    }
    Ok(false)
}

/// Lowers storing a constant: the constant declared, then stored into the
/// variable of its type.
pub fn lower_set_const(b: &mut RSpirvBuilder, f: &mut FuncMapInfo, o: &OpSetConst) -> (r: Result<bool, CompileError>)
    requires
        old(b).wf(),
    ensures
        kept(*old(b), *final(b)),
        func_kept(*old(f), *final(f)),
        r is Ok ==> !r->Ok_0,
        in_block(old(b).raw) && block_exists(old(b).raw, old(f).var_block) ==> r is Ok,
        r is Ok ==> in_block(final(b).raw) && current_block(final(b).raw).insts.len() >= 1
            && back(current_block(final(b).raw).insts, 1) is Store
            && back(current_block(final(b).raw).insts, 1)->Store_pointer == final(f).vars@[o.store]
            && final(b).declares_val(o.val, back(current_block(final(b).raw).insts, 1)->Store_object),
{
    let ghost b0 = *b;
    let obj = b.val_const(o.val);
    let ghost b1 = *b;
    let ty = o.val.ty();
    proof { lemma_val_strides(o.val); }
    let ghost pre = b.raw;
    let st = f.store_var(b, o.store, &ty, obj);
    proof { lemma_kept_trans(b0, b1, *b); }
    st?;
    proof { crate::emit::lemma_val_kept(b1, *b, o.val, obj); lemma_store_tail(pre, b.raw, InstView::Store { pointer: f.vars@[o.store], object: obj }); }
    Ok(false)
}

/// The type of a constant can be declared.
proof fn lemma_val_strides(v: crate::types::Val)
    ensures
        strides_fit(crate::types::val_ty(v)),
{
}

/// Lowers a comparison: both operands loaded, the comparison the selection
/// rules choose, and the store into a boolean variable.
pub fn lower_cmp(b: &mut RSpirvBuilder, f: &mut FuncMapInfo, o: &OpCmp) -> (r: Result<bool, CompileError>)
    requires
        old(b).wf(),
        crate::select::cmp_instruction(o.cmp, o.lhs.1@) is Some,
        strides_fit(o.lhs.1@),
        strides_fit(o.rhs.1@),
    ensures
        kept(*old(b), *final(b)),
        func_kept(*old(f), *final(f)),
        r is Ok ==> !r->Ok_0,
        in_block(old(b).raw) && block_exists(old(b).raw, old(f).var_block) ==> r is Ok,
        r is Ok ==> ends_with_op_store(final(b).raw, crate::select::cmp_instruction(o.cmp, o.lhs.1@)->Some_0, final(f).vars@[o.store], old(b).ext),
{
    let ghost b0 = *b;
    let res_ty = b.scalar_type(ScalarType::Bool);
    let ghost b1 = *b;
    let lhs = f.load_var(b, o.lhs.0, &o.lhs.1);
    let ghost b2 = *b;
    proof { lemma_kept_trans(b0, b1, b2); }
    let lhs = lhs?;
    let rhs = f.load_var(b, o.rhs.0, &o.rhs.1);
    let ghost b3 = *b;
    proof { lemma_kept_trans(b0, b2, b3); }
    let rhs = rhs?;
    let op = plan_cmp(o.cmp, &o.lhs.1);
    let res = apply_bin(b, op, res_ty, lhs, rhs);
    let ghost b4 = *b;
    proof { lemma_kept_trans(b0, b3, b4); }
    let res = res?;
    let bool_ty = Type::Scalar(ScalarType::Bool);
    let ghost pre = b.raw;
    let st = f.store_var(b, o.store, &bool_ty, res);
    proof { lemma_kept_trans(b0, b4, *b); }
    st?;
    proof { lemma_store_tail(pre, b.raw, InstView::Store { pointer: f.vars@[o.store], object: res }); }
    Ok(false)
}

/// Lowers building a composite: its type, each constituent loaded in order,
/// the composite, and the store.
pub fn lower_composite(b: &mut RSpirvBuilder, f: &mut FuncMapInfo, o: &OpComposite) -> (r: Result<bool, CompileError>)
    requires
        old(b).wf(),
        strides_fit(o.ty@),
        forall|k: int| 0 <= k < o.constituents@.len() ==> strides_fit((#[trigger] o.constituents@[k]).1@),
    ensures
        kept(*old(b), *final(b)),
        func_kept(*old(f), *final(f)),
        r is Ok ==> !r->Ok_0,
        in_block(old(b).raw) && block_exists(old(b).raw, old(f).var_block) ==> r is Ok,
        r is Ok ==> stored_result(final(b).raw, final(f).vars@[o.id]) && back(current_block(final(b).raw).insts, 2) is CompositeConstruct
            && back(current_block(final(b).raw).insts, 2)->CompositeConstruct_parts.len() == o.constituents@.len(),
{
    let ghost b0 = *b;
    let ghost f0 = *f;
    let res_ty = b.type_id(&o.ty);
    let mut parts: Vec<u32> = Vec::new();
    let mut i: usize = 0;
    while i < o.constituents.len()
        invariant
            i <= o.constituents@.len(),
            kept(b0, *b),
            func_kept(f0, *f),
            f0 == *old(f),
            b0 == *old(b),
            forall|k: int| 0 <= k < o.constituents@.len() ==> strides_fit((#[trigger] o.constituents@[k]).1@),
            parts@.len() == i,
            in_block(b0.raw) && block_exists(b0.raw, f0.var_block) ==> in_block(b.raw) && block_exists(b.raw, f0.var_block),
        decreases o.constituents@.len() - i,
    {
        let ghost bi = *b;
        let ghost fi = *f;
        let c = f.load_var(b, o.constituents[i].0, &o.constituents[i].1);
        proof {
            lemma_kept_trans(b0, bi, *b);
            lemma_func_kept_trans(f0, fi, *f);
        }
        let c = c?;
        parts.push(c);
        i = i + 1;
    }
    let res = lift(composite_construct(&mut b.raw, res_ty, parts))?;
    let ghost b1 = *b;
    let ghost f1 = *f;
    let ghost pre = b.raw;
    let st = f.store_var(b, o.id, &o.ty, res);
    proof {
        lemma_kept_trans(b0, b1, *b);
        lemma_func_kept_trans(f0, f1, *f);
    }
    st?;
    proof { lemma_store_tail(pre, b.raw, InstView::Store { pointer: f.vars@[o.id], object: res }); }
    Ok(false)
}

/// Lowers reading an element of a composite variable: a pointer to the
/// element through the variable, the element loaded, and the store. The
/// variable is looked up with the element's type.
pub fn lower_extract(b: &mut RSpirvBuilder, f: &mut FuncMapInfo, o: &OpExtract) -> (r: Result<bool, CompileError>)
    requires
        old(b).wf(),
        strides_fit(o.element_ty@),
    ensures
        kept(*old(b), *final(b)),
        func_kept(*old(f), *final(f)),
        r is Ok ==> !r->Ok_0,
        in_block(old(b).raw) && block_exists(old(b).raw, old(f).var_block) ==> r is Ok,
        r is Ok ==> stored_result(final(b).raw, final(f).vars@[o.store_id]) && back(current_block(final(b).raw).insts, 2) is Load,
{
    let ghost b0 = *b;
    let ghost f0 = *f;
    let src = f.var(b, o.src_id, &o.element_ty);
    let ghost f1 = *f;
    let ghost b1 = *b;
    let src = src?;
    let p = b.pointer(&o.element_ty, 7);
    let idx = b.index_const(o.element_idx);
    let ghost b2 = *b;
    proof { lemma_kept_trans(b0, b1, b2); }
    let ptr = lift(access_chain(&mut b.raw, p, src, vec![idx]))?;
    let dst_ty = b.type_id(&o.element_ty);
    let ghost b3 = *b;
    proof { lemma_kept_trans(b0, b2, b3); }
    let obj = lift(load(&mut b.raw, dst_ty, ptr))?;
    let ghost pre = b.raw;
    let st = f.store_var(b, o.store_id, &o.element_ty, obj);
    proof { lemma_kept_trans(b0, b3, *b); lemma_func_kept_trans(f0, f1, *f); }
    st?;
    proof { lemma_store_tail(pre, b.raw, InstView::Store { pointer: f.vars@[o.store_id], object: obj }); }
    Ok(false)
}

/// Lowers combining a declared texture and sampler: both loaded and combined
/// into a sampled image, which the recorded variable then stands for.
pub fn lower_combine(b: &mut RSpirvBuilder, shader: &ShaderMapInfo, f: &mut FuncMapInfo, o: &OpCombine) -> (r: Result<bool, CompileError>)
    requires
        old(b).wf(),
        o.texture < shader.textures@.len(),
        o.sampler < shader.samplers@.len(),
    ensures
        kept(*old(b), *final(b)),
        final(f).var_block == old(f).var_block,
        final(f).block_info == old(f).block_info,
        r matches Ok(t) ==> !t && exists|v: u32| final(f).vars@ == old(f).vars@.insert(o.store, v),
        r is Err ==> final(f).vars@ == old(f).vars@,
        r is Ok <==> in_block(old(b).raw),
        r is Ok ==> in_block(final(b).raw) && current_block(final(b).raw).insts.len() >= 3
            && back(current_block(final(b).raw).insts, 1) == (InstView::SampledImage { ty: back(current_block(final(b).raw).insts, 1)->SampledImage_ty, res: final(f).vars@[o.store],
                image: res_of(back(current_block(final(b).raw).insts, 3)), sampler: res_of(back(current_block(final(b).raw).insts, 2)) })
            && back(current_block(final(b).raw).insts, 3) is Load && back(current_block(final(b).raw).insts, 3)->Load_pointer == shader.textures@[o.texture as int]
            && back(current_block(final(b).raw).insts, 2) is Load && back(current_block(final(b).raw).insts, 2)->Load_pointer == shader.samplers@[o.sampler as int],
{
    let tex = shader.textures[o.texture];
    let tex_ty = b.texture_type(o.tex_ty);
    let ghost s0 = current_block(b.raw).insts;
    let tex_obj = lift(load(&mut b.raw, tex_ty, tex))?;
    let ghost s1 = current_block(b.raw).insts;
    let sam = shader.samplers[o.sampler];
    let sam_ty = type_sampler(&mut b.raw);
    let sam_obj = lift(load(&mut b.raw, sam_ty, sam))?;
    let ghost s2 = current_block(b.raw).insts;
    let st_ty = type_sampled_image(&mut b.raw, tex_ty);
    let obj = lift(sampled_image(&mut b.raw, st_ty, tex_obj, sam_obj))?;
    proof {
        let s3 = current_block(b.raw).insts;
        assert(s3 == s2.push(InstView::SampledImage { ty: st_ty, res: obj, image: tex_obj, sampler: sam_obj }));
        assert(s2 == s1.push(InstView::Load { ty: sam_ty, res: sam_obj, pointer: sam }));
        assert(s1 == s0.push(InstView::Load { ty: tex_ty, res: tex_obj, pointer: tex }));
        assert(back(s3, 2) == back(s2, 1));
        assert(back(s3, 3) == back(s1, 1));
    }
    f.vars.insert(o.store, obj);
    Ok(false)
}

/// Lowers a conversion: the operand loaded, the conversion the selection
/// rules choose, and the store.
pub fn lower_convert(b: &mut RSpirvBuilder, f: &mut FuncMapInfo, o: &OpConvert) -> (r: Result<bool, CompileError>)
    requires
        old(b).wf(),
        crate::select::convert_instruction(o.src.1@, o.dst.1@) is Some,
        strides_fit(o.src.1@),
        strides_fit(o.dst.1@),
    ensures
        kept(*old(b), *final(b)),
        func_kept(*old(f), *final(f)),
        r is Ok ==> !r->Ok_0,
        in_block(old(b).raw) && block_exists(old(b).raw, old(f).var_block) ==> r is Ok,
        r is Ok ==> stored_result(final(b).raw, final(f).vars@[o.dst.0]) && back(current_block(final(b).raw).insts, 2) is Un
            && back(current_block(final(b).raw).insts, 2)->Un_op == crate::select::convert_instruction(o.src.1@, o.dst.1@)->Some_0,
{
    let ghost b0 = *b;
    let x = f.load_var(b, o.src.0, &o.src.1);
    let ghost b1 = *b;
    let x = x?;
    let op = match plan_convert(&o.src.1, &o.dst.1) {
        Some(op) => op,
        None => {
            return Ok(false);
        },
    };
    let res_ty = b.type_id(&o.dst.1);
    let ghost b2 = *b;
    proof { lemma_kept_trans(b0, b1, b2); }
    let res = apply_un(b, op, res_ty, x);
    let ghost b3 = *b;
    proof { lemma_kept_trans(b0, b2, b3); }
    let res = res?;
    let ghost pre = b.raw;
    let st = f.store_var(b, o.dst.0, &o.dst.1, res);
    proof { lemma_kept_trans(b0, b3, *b); }
    st?;
    proof { lemma_store_tail(pre, b.raw, InstView::Store { pointer: f.vars@[o.dst.0], object: res }); }
    Ok(false)
}

/// Lowers sampling a texture: the sampled image (a declared one, or the one a
/// recorded variable stands for), the coordinate loaded, the sample with or
/// without an explicit level of detail, and the store.
pub fn lower_sample(b: &mut RSpirvBuilder, shader: &ShaderMapInfo, f: &mut FuncMapInfo, o: &OpSample) -> (r: Result<bool, CompileError>)
    requires
        old(b).wf(),
        strides_fit(o.coordinate.1@),
        strides_fit(o.store.1@),
        o.sampled_texture matches SampledTextureRef::Uniform(id) ==> id < shader.sampled_textures@.len(),
    ensures
        kept(*old(b), *final(b)),
        func_kept(*old(f), *final(f)),
        r is Ok ==> !r->Ok_0,
        in_block(old(b).raw) && block_exists(old(b).raw, old(f).var_block) ==> r is Ok,
        r is Ok ==> stored_result(final(b).raw, final(f).vars@[o.store.0])
            && (if o.explict_lod { back(current_block(final(b).raw).insts, 2) is SampleExplicitLod } else { back(current_block(final(b).raw).insts, 2) is SampleImplicitLod }),
{
    let ghost b0 = *b;
    let ghost f0 = *f;
    let tex_ty = Type::Texture(o.tex_ty);
    let sampled = match o.sampled_texture {
        SampledTextureRef::Uniform(id) => Ok(shader.sampled_textures[id]),
        SampledTextureRef::Combined(id) => f.var(b, id, &tex_ty),
    };
    let ghost b1 = *b;
    let ghost f1 = *f;
    assert(func_kept(f0, f1));
    let sampled = sampled?;
    let coord = f.load_var(b, o.coordinate.0, &o.coordinate.1);
    let ghost b2 = *b;
    let ghost f2 = *f;
    proof { lemma_kept_trans(b0, b1, b2); lemma_func_kept_trans(f0, f1, f2); }
    let coord = coord?;
    let res_ty = b.type_id(&o.store.1);
    let ghost b3 = *b;
    proof { lemma_kept_trans(b0, b2, b3); }
    let res = if o.explict_lod {
        lift(image_sample_explicit_lod(&mut b.raw, res_ty, sampled, coord))
    } else {
        lift(image_sample_implicit_lod(&mut b.raw, res_ty, sampled, coord))
    };
    let res = res?;
    let ghost pre = b.raw;
    let st = f.store_var(b, o.store.0, &o.store.1, res);
    proof { lemma_kept_trans(b0, b3, *b); lemma_func_kept_trans(f0, f2, *f); }
    st?;
    proof { lemma_store_tail(pre, b.raw, InstView::Store { pointer: f.vars@[o.store.0], object: res }); }
    Ok(false)
}

/// Lowering kept the function's variable block and enclosing construct.
pub open spec fn func_frame(a: FuncMapInfo, b: FuncMapInfo) -> bool {
    &&& b.var_block == a.var_block
    &&& b.block_info == a.block_info
}

/// An instruction whose lowering emits nothing: a call, a return, a
/// `continue` or a `break`.
pub open spec fn lowers_to_nothing(i: Instruction) -> bool {
    i is FuncCall || i is Return || i is Continue || i is Break
}

/// Lowers one instruction. The result tells whether the instruction ended the
/// block, which only a discard does.
pub fn lower_instr(b: &mut RSpirvBuilder, shader: &ShaderMapInfo, f: &mut FuncMapInfo, i: &Instruction) -> (r: Result<bool, CompileError>)
    requires
        old(b).wf(),
        instr_ok(*i, shader.counts()),
    ensures
        kept(*old(b), *final(b)),
        final(f).var_block == old(f).var_block,
        r is Ok ==> func_frame(*old(f), *final(f)),
        r matches Ok(t) ==> (t <==> *i is Discard),
        r == Ok::<bool, CompileError>(true) ==> module_view(final(b).raw).block is None,
        lowers_to_nothing(*i) ==> r == Ok::<bool, CompileError>(false) && *final(b) == *old(b) && *final(f) == *old(f),
        *i is LhsRhs && in_block(old(b).raw) && block_exists(old(b).raw, old(f).var_block) ==> r is Ok,
        *i matches Instruction::LhsRhs(o) ==> (r is Ok ==> ends_with_op_store(final(b).raw,
            crate::select::lhs_rhs_plan(o.ty, o.lhs.1@, o.rhs.1@)->Some_0.op, final(f).vars@[o.store.0], old(b).ext)),
        *i is LhsRhs && r is Ok && block_exists(old(b).raw, old(f).var_block) ==> in_block(final(b).raw)
            && block_exists(final(b).raw, old(f).var_block),
        *i matches Instruction::If(op) ==> (if_plain(op) && in_block(old(b).raw)
            && block_exists(old(b).raw, old(f).var_block) ==> r is Ok),
        *i is Discard ==> (r is Ok <==> in_block(old(b).raw)),
        *i is Discard && r is Ok ==> terminated(old(b).raw, final(b).raw, InstView::Kill),
        r is Ok ==> typed_step_ok(*i, *old(b), *final(b), *old(f), *final(f), *shader),
        *i matches Instruction::If(op) ==> (r is Ok ==> exists|ss: Seq<Builder>, l: Seq<u32>, cv: u32, c0: RSpirvBuilder, c1: RSpirvBuilder,
            g0: FuncMapInfo, g1: FuncMapInfo| #[trigger] if_built(old(b).raw, final(b).raw, ss, l, cv, op.instructions@, c0, c1, g0, g1, *shader)
            && (old(f).vars@.contains_key(op.condition) ==> cv == old(f).vars@[op.condition])),
    decreases i,
{
    match i {
        Instruction::LhsRhs(o) => lower_lhs_rhs(b, f, o),
        Instruction::Lhs(o) => lower_lhs(b, f, o),
        Instruction::VectorShuffle(o) => lower_shuffle(b, f, o),
        Instruction::LoadStore(o) => lower_load_store(b, shader, f, o),
        Instruction::SetConst(o) => lower_set_const(b, f, o),
        Instruction::Cmp(o) => lower_cmp(b, f, o),
        Instruction::Composite(o) => lower_composite(b, f, o),
        Instruction::Extract(o) => lower_extract(b, f, o),
        Instruction::Sample(o) => lower_sample(b, shader, f, o),
        Instruction::Combine(o) => lower_combine(b, shader, f, o),
        Instruction::Convert(o) => lower_convert(b, f, o),
        Instruction::If(op) => lower_if(b, shader, f, op),
        Instruction::Discard => {
            lift(kill(&mut b.raw))?;
            Ok(true)
        },
        Instruction::FuncCall(_) | Instruction::Return | Instruction::Continue | Instruction::Break => Ok(false),
    }
}

/// A list of two-operand operations and of instructions that lower to
/// nothing.
pub open spec fn typed_plain(s: Seq<Instruction>) -> bool {
    forall|j: int| 0 <= j < s.len() ==> (#[trigger] s[j] is LhsRhs || lowers_to_nothing(s[j]))
}

/// What lowering comparison `o` leaves at the end of the selected block:
/// the comparison instruction chosen for its operands and the store of its
/// result.
pub open spec fn compare_effect(o: OpCmp, a: RSpirvBuilder, b: RSpirvBuilder, f1: FuncMapInfo) -> bool {
    ends_with_op_store(b.raw, crate::select::cmp_instruction(o.cmp, o.lhs.1@)->Some_0, f1.vars@[o.store], a.ext)
}

/// What lowering instruction `i` leaves at the end of the selected block, in
/// `b`, lowered from `a` with the function state going from `f0` to `f1`, as
/// each `lower_*` function states it: the store of the value an operation,
/// constant, comparison, shuffle, composite, extract, conversion or sample
/// computes into its result variable; for a copy, the load of the source and
/// the store to the destination; for a combination, the sampled image the
/// result variable is bound to.
pub open spec fn typed_effect(i: Instruction, a: RSpirvBuilder, b: RSpirvBuilder, f0: FuncMapInfo, f1: FuncMapInfo,
    shader: ShaderMapInfo) -> bool
{
    match i {
        Instruction::LhsRhs(o) => ends_with_op_store(b.raw, crate::select::lhs_rhs_plan(o.ty, o.lhs.1@, o.rhs.1@)->Some_0.op,
            f1.vars@[o.store.0], a.ext),
        Instruction::Lhs(o) => stored_result(b.raw, f1.vars@[o.store.0])
            && (crate::select::lhs_instruction(o.ty) matches LhsPlan::Core(op) ==> back(current_block(b.raw).insts, 2) is Un && back(current_block(b.raw).insts, 2)->Un_op == op)
            && (crate::select::lhs_instruction(o.ty) matches LhsPlan::Glsl(n) ==> back(current_block(b.raw).insts, 2) is ExtInst && back(current_block(b.raw).insts, 2)->ExtInst_instruction == n && back(current_block(b.raw).insts, 2)->ExtInst_set == a.ext),
        Instruction::VectorShuffle(o) => stored_result(b.raw, f1.vars@[o.dst.0]) && back(current_block(b.raw).insts, 2) is VectorShuffle
            && back(current_block(b.raw).insts, 2)->VectorShuffle_components == o.components@.take(if o.dst.1.n_scalar < 4 { o.dst.1.n_scalar as int } else { 4 }),
        Instruction::LoadStore(o) => in_block(b.raw) && current_block(b.raw).insts.len() >= 2 && back(current_block(b.raw).insts, 1) is Store
            && (place_id(o.dst, shader, f1.vars@) matches Some(p) ==> back(current_block(b.raw).insts, 1)->Store_pointer == p
                && back(current_block(b.raw).insts, 2) is Load && back(current_block(b.raw).insts, 2)->Load_res == back(current_block(b.raw).insts, 1)->Store_object)
            && (place_id(o.dst, shader, f1.vars@) is None ==> back(current_block(b.raw).insts, 2) is AccessChain && back(current_block(b.raw).insts, 1)->Store_pointer == res_of(back(current_block(b.raw).insts, 2)))
            && ((o.dst is Input || o.dst is Output) ==> (place_id(o.src, shader, f1.vars@) matches Some(p) ==> back(current_block(b.raw).insts, 2)->Load_pointer == p)),
        Instruction::SetConst(o) => in_block(b.raw) && current_block(b.raw).insts.len() >= 1 && back(current_block(b.raw).insts, 1) is Store
            && back(current_block(b.raw).insts, 1)->Store_pointer == f1.vars@[o.store] && b.declares_val(o.val, back(current_block(b.raw).insts, 1)->Store_object),
        Instruction::Cmp(o) => compare_effect(o, a, b, f1),
        Instruction::Composite(o) => stored_result(b.raw, f1.vars@[o.id]) && back(current_block(b.raw).insts, 2) is CompositeConstruct
            && back(current_block(b.raw).insts, 2)->CompositeConstruct_parts.len() == o.constituents@.len(),
        Instruction::Extract(o) => stored_result(b.raw, f1.vars@[o.store_id]) && back(current_block(b.raw).insts, 2) is Load,
        Instruction::Sample(o) => stored_result(b.raw, f1.vars@[o.store.0])
            && (if o.explict_lod { back(current_block(b.raw).insts, 2) is SampleExplicitLod } else { back(current_block(b.raw).insts, 2) is SampleImplicitLod }),
        Instruction::Combine(o) => in_block(b.raw) && current_block(b.raw).insts.len() >= 3
            && back(current_block(b.raw).insts, 1) == (InstView::SampledImage { ty: back(current_block(b.raw).insts, 1)->SampledImage_ty, res: f1.vars@[o.store],
                image: res_of(back(current_block(b.raw).insts, 3)), sampler: res_of(back(current_block(b.raw).insts, 2)) })
            && back(current_block(b.raw).insts, 3) is Load && back(current_block(b.raw).insts, 3)->Load_pointer == shader.textures@[o.texture as int]
            && back(current_block(b.raw).insts, 2) is Load && back(current_block(b.raw).insts, 2)->Load_pointer == shader.samplers@[o.sampler as int],
        Instruction::Convert(o) => stored_result(b.raw, f1.vars@[o.dst.0]) && back(current_block(b.raw).insts, 2) is Un
            && back(current_block(b.raw).insts, 2)->Un_op == crate::select::convert_instruction(o.src.1@, o.dst.1@)->Some_0,
        Instruction::Discard => terminated(a.raw, b.raw, InstView::Kill),
        _ => true,
    }
}

/// Instruction `i` was lowered from builder `a` and function state `f0` to
/// builder `b` and state `f1`, as `lower_instr` states it: the builder and
/// the function's frame are kept; an operation ends the selected block with
/// the instruction its plan chose and the store of its result; a discard
/// ends the block with `OpKill`.
pub open spec fn typed_step_ok(i: Instruction, a: RSpirvBuilder, b: RSpirvBuilder, f0: FuncMapInfo, f1: FuncMapInfo,
    shader: ShaderMapInfo) -> bool
{
    &&& kept(a, b)
    &&& func_frame(f0, f1)
    &&& typed_effect(i, a, b, f0, f1, shader)
}

/// A run of lowering steps over `s`: states `bs` and `fs`, one more of each
/// than the instructions.
pub open spec fn typed_trace(s: Seq<Instruction>, bs: Seq<RSpirvBuilder>, fs: Seq<FuncMapInfo>, shader: ShaderMapInfo) -> bool {
    &&& bs.len() == s.len() + 1
    &&& fs.len() == s.len() + 1
    &&& forall|j: int| 0 <= j < s.len() ==> #[trigger] typed_step_ok(s[j], bs[j], bs[j + 1], fs[j], fs[j + 1], shader)
}

/// The list `s` was lowered in order from `a`, `f0` to `b`, `f1`, up to its
/// end or up to and including a discard.
pub open spec fn typed_lowered(s: Seq<Instruction>, a: RSpirvBuilder, b: RSpirvBuilder, f0: FuncMapInfo, f1: FuncMapInfo,
    shader: ShaderMapInfo) -> bool
{
    exists|k: int, bs: Seq<RSpirvBuilder>, fs: Seq<FuncMapInfo>| #[trigger] typed_trace(s.take(k), bs, fs, shader)
        && 0 <= k <= s.len() && (k == s.len() || (k >= 1 && s[k - 1] is Discard))
        && bs[0] == a && bs[k] == b && fs[0] == f0 && fs[k] == f1
}

/// Lowers a list of instructions in order, up to and including the first one
/// that ends the block. The result tells whether one did.
pub fn lower_list(b: &mut RSpirvBuilder, shader: &ShaderMapInfo, f: &mut FuncMapInfo, v: &Vec<Instruction>) -> (r: Result<bool, CompileError>)
    requires
        old(b).wf(),
        instrs_ok(v@, shader.counts()),
    ensures
        kept(*old(b), *final(b)),
        final(f).var_block == old(f).var_block,
        r is Ok ==> func_frame(*old(f), *final(f)),
        r matches Ok(t) ==> (t <==> has_discard(v@)),
        r == Ok::<bool, CompileError>(true) ==> module_view(final(b).raw).block is None,
        (forall|j: int| 0 <= j < v@.len() ==> lowers_to_nothing(#[trigger] v@[j]))
            ==> r == Ok::<bool, CompileError>(false) && *final(b) == *old(b) && *final(f) == *old(f),
        typed_plain(v@) && in_block(old(b).raw) && block_exists(old(b).raw, old(f).var_block) ==> r is Ok
            && in_block(final(b).raw) && block_exists(final(b).raw, old(f).var_block),
        r is Ok ==> typed_lowered(v@, *old(b), *final(b), *old(f), *final(f), *shader),
    decreases v,
{
    proof {
        lemma_instrs_ok(v@, shader.counts());
    }
    let ghost b0 = *b;
    let ghost f0 = *f;
    let ghost mut bs: Seq<RSpirvBuilder> = seq![*b];
    let ghost mut fs: Seq<FuncMapInfo> = seq![*f];
    let mut i: usize = 0;
    while i < v.len()
        invariant
            i <= v@.len(),
            b0 == *old(b),
            f0 == *old(f),
            bs.len() == i + 1,
            fs.len() == i + 1,
            bs[0] == b0,
            fs[0] == f0,
            bs[i as int] == *b,
            fs[i as int] == *f,
            forall|j: int| 0 <= j < i ==> #[trigger] typed_step_ok(v@[j], bs[j], bs[j + 1], fs[j], fs[j + 1], *shader),
            kept(b0, *b),
            func_frame(f0, *f),
            forall|j: int| 0 <= j < v@.len() ==> instr_ok(#[trigger] v@[j], shader.counts()),
            forall|j: int| 0 <= j < i ==> !(#[trigger] v@[j] is Discard),
            (forall|j: int| 0 <= j < v@.len() ==> lowers_to_nothing(#[trigger] v@[j])) ==> *b == *old(b) && *f == *old(f),
            typed_plain(v@) && in_block(old(b).raw) && block_exists(old(b).raw, old(f).var_block)
                ==> in_block(b.raw) && block_exists(b.raw, old(f).var_block),
        decreases v@.len() - i,
    {
        assert(decreases_to!(v => v@[i as int]));
        let ghost bi = *b;
        let ghost fi = *f;
        let t = lower_instr(b, shader, f, &v[i]);
        proof { lemma_kept_trans(b0, bi, *b); }
        let t = t?;
        proof {
            let bs0 = bs;
            let fs0 = fs;
            bs = bs.push(*b);
            fs = fs.push(*f);
            assert forall|j: int| 0 <= j < i + 1 implies #[trigger] typed_step_ok(v@[j], bs[j], bs[j + 1], fs[j], fs[j + 1], *shader) by {
                if j < i {
                    assert(bs[j] == bs0[j] && bs[j + 1] == bs0[j + 1] && fs[j] == fs0[j] && fs[j + 1] == fs0[j + 1]);
                } else {
                    assert(bs[j] == bi && fs[j] == fi);
                }
            }
            let k = i + 1;
            assert forall|j: int| 0 <= j < k implies #[trigger] typed_step_ok(v@.take(k)[j], bs[j], bs[j + 1], fs[j], fs[j + 1], *shader) by {
                assert(v@.take(k)[j] == v@[j]);
            }
            assert(typed_trace(v@.take(k), bs, fs, *shader));
        }
        if t {
            return Ok(true);
        }
        i = i + 1;
    }
    proof {
        assert(v@.take(v@.len() as int) =~= v@);
        assert forall|j: int| 0 <= j < v@.len() implies #[trigger] typed_step_ok(v@.take(v@.len() as int)[j], bs[j], bs[j + 1], fs[j], fs[j + 1], *shader) by {
            assert(v@.take(v@.len() as int)[j] == v@[j]);
        }
        assert(typed_trace(v@.take(v@.len() as int), bs, fs, *shader));
    }
    Ok(false)
}

/// A conditional chain whose every branch is a list of two-operand
/// operations and instructions that lower to nothing.
pub open spec fn if_plain(op: OpIf) -> bool
    decreases op,
{
    &&& typed_plain(op.instructions@)
    &&& match op.otherwise {
        None => true,
        Some(bx) => match *bx {
            IfElse::ElseIf(next) => if_plain(*next),
            IfElse::Else(e) => typed_plain(e.instructions@),
        },
    }
}

/// The structure an `if` is lowered to, from `a` to `z`, through the states
/// `ss` and with the labels and ids `l` (true, false and end labels, the
/// loaded condition): the selected block loads the condition through its
/// variable `cv`, declares the end label its selection's merge block, and
/// branches on the condition to the true or the false block; the true block
/// holds the `if`'s instructions, lowered from `b0` to `b1`, and then (unless
/// they ended with a discard) a branch to the end label; the false block is
/// begun next and holds what follows the `if`; the end block, begun last, is
/// selected.
pub open spec fn if_built(a: Builder, z: Builder, ss: Seq<Builder>, l: Seq<u32>, cv: u32, body: Seq<Instruction>,
    b0: RSpirvBuilder, b1: RSpirvBuilder, f0: FuncMapInfo, f1: FuncMapInfo, shader: ShaderMapInfo) -> bool
{
    &&& ss.len() == 6
    &&& l.len() == 4
    &&& in_block(ss[0]) && current_block(ss[0]).insts.len() >= 1
    &&& back(current_block(ss[0]).insts, 1) is Load
    &&& back(current_block(ss[0]).insts, 1)->Load_res == l[3]
    &&& back(current_block(ss[0]).insts, 1)->Load_pointer == cv
    &&& appended(ss[0], ss[1], InstView::SelectionMerge { merge: l[2] })
    &&& terminated(ss[1], ss[2], InstView::BranchConditional { condition: l[3], true_label: l[0], false_label: l[1] })
    &&& crate::prim_lower::block_begun(ss[2], b0.raw, l[0])
    &&& typed_lowered(body, b0, b1, f0, f1, shader)
    &&& (ss[3] == b1.raw || terminated(b1.raw, ss[3], InstView::Branch { target: l[2] }))
    &&& crate::prim_lower::block_begun(ss[3], ss[4], l[1])
    &&& crate::prim_lower::block_begun(ss[5], z, l[2])
}

/// Lowers a conditional chain: a selection on the condition whose true block
/// holds the instructions and whose false block holds what follows the `if`
/// (the next `if` of the chain, the `else` instructions, or nothing), each
/// branching to the merge block unless it ended on its own.
pub fn lower_if(b: &mut RSpirvBuilder, shader: &ShaderMapInfo, f: &mut FuncMapInfo, op: &OpIf) -> (r: Result<bool, CompileError>)
    requires
        old(b).wf(),
        chain_ok(*op, shader.counts()),
    ensures
        kept(*old(b), *final(b)),
        final(f).var_block == old(f).var_block,
        r is Ok ==> func_frame(*old(f), *final(f)),
        r is Ok ==> !r->Ok_0,
        if_plain(*op) && in_block(old(b).raw) && block_exists(old(b).raw, old(f).var_block) ==> r is Ok
            && in_block(final(b).raw) && block_exists(final(b).raw, old(f).var_block),
        r is Ok ==> exists|ss: Seq<Builder>, l: Seq<u32>, cv: u32, c0: RSpirvBuilder, c1: RSpirvBuilder, g0: FuncMapInfo, g1: FuncMapInfo|
            #[trigger] if_built(old(b).raw, final(b).raw, ss, l, cv, op.instructions@, c0, c1, g0, g1, *shader)
            && (old(f).vars@.contains_key(op.condition) ==> cv == old(f).vars@[op.condition]),
    decreases op,
{
    let ghost b0 = *b;
    let prev = f.block_info;
    let bool_ty = Type::Scalar(ScalarType::Bool);
    let cond = f.load_var(b, op.condition, &bool_ty);
    let cond = cond?;
    let ghost s0 = b.raw;
    let ghost cv = f.vars@[op.condition];
    let ghost fc = *f;
    let true_label = next_id(&mut b.raw);
    let false_label = next_id(&mut b.raw);
    let end_label = next_id(&mut b.raw);
    let block = match selected_block(&b.raw) {
        Some(k) => k,
        None => {
            return Err(CompileError::NoBlock);
        },
    };
    lift(selection_merge(&mut b.raw, end_label))?;
    let ghost s1 = b.raw;
    lift(select_block(&mut b.raw, Some(block)))?;
    lift(branch_conditional(&mut b.raw, cond, true_label, false_label))?;
    let ghost s2 = b.raw;
    lift(begin_block(&mut b.raw, Some(true_label)))?;
    let ghost b2 = *b;
    let ghost g0 = *f;
    assert(kept(b0, b2));
    let body = lower_list(b, shader, f, &op.instructions);
    let ghost b3 = *b;
    proof { lemma_kept_trans(b0, b2, b3); }
    let bl = body?;
    let ghost g1 = *f;
    if !bl {
        lift(branch(&mut b.raw, end_label))?;
    }
    let ghost s3 = b.raw;
    lift(begin_block(&mut b.raw, Some(false_label)))?;
    let ghost s4 = b.raw;
    f.block_info = BlockInfo::If { end_label };
    let ghost b4 = *b;
    let rest = match &op.otherwise {
        Some(bx) => match &**bx {
            IfElse::ElseIf(next) => lower_if(b, shader, f, next),
            IfElse::Else(e) => lower_list(b, shader, f, &e.instructions),
        },
        None => Ok(false),
    };
    proof { lemma_kept_trans(b0, b4, *b); }
    let bl2 = rest?;
    if !bl2 {
        lift(branch(&mut b.raw, end_label))?;
    }
    let ghost s5 = b.raw;
    lift(begin_block(&mut b.raw, Some(end_label)))?;
    f.block_info = prev;
    proof {
        let ss = seq![s0, s1, s2, s3, s4, s5];
        let l = seq![true_label, false_label, end_label, cond];
        assert(if_built(old(b).raw, b.raw, ss, l, cv, op.instructions@, b2, b3, g0, g1, *shader));
    }
    Ok(false)
}

} // verus!
