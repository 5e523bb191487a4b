//! Lowering the primitive-typed instruction set to SPIR-V.
//!
//! Every recorded variable lives in a `Function` storage variable declared at
//! the start of the variable block; an instruction loads its operands from
//! their variables, applies the instruction the operand types select, and
//! stores the result into a new variable, which the recorded result is mapped
//! to from then on.

use rspirv::dr::Builder;
use std::collections::HashMap;
use vstd::prelude::*;

use crate::data::{data_val_type, DataType, DataVal};
use crate::emit::{kept, lemma_kept_trans, lemma_declares_kept, lift, type_decl_id, CompileError, RSpirvBuilder};
use crate::lower::{apply_bin, op_of, operands_of, res_of, ty_of};
use crate::prim::{prim_base, prim_is_matrix, prim_is_scalar, prim_is_vector, prim_type_view, prim_val_ty, PrimitiveType, PrimitiveVal};
use crate::prim_ir::{
    defined_in, lemma_instr_defs_union, lemma_list_defs_union, arith_ok, blocks_defs, chain_ok, instr_defs, instr_ok, lemma_chain_ok_prefix, lemma_list_ok_prefix, list_defs, list_ok, mul_ok, simple_ok,
    Instruction, PrimCounts,
};
use crate::ir::OpLhsRhsType;
use crate::select::{performs, BinOp};
use crate::spirv_api::{
    access_chain, composite_extract, constant_composite, insert_function_variable, load, next_id, select_block,
    selected_block, store, type_pointer, current_block, in_block, module_view, BlockView, InstView, ModuleView,
    builder_ok, sel_kept, only_globals, pushed_inst, has_inst, block_exists, var_put, lemma_var_put_current, back, terminated,
    is_suffix, lemma_prepend_suffix, lemma_suffix_refl, appended,
};

verus! {

broadcast use vstd::std_specs::hash::group_hash_axioms;

/// The arithmetic operations whose instruction depends on the scalar type
/// alone.
#[derive(Clone, Copy, PartialEq, Eq, Debug, Structural)]
pub enum ArithKind {
    Add,
    Sub,
    Div,
}

/// The instruction of an arithmetic operation on operands of type `p`: the
/// float instruction for float and double operands, the integer one for
/// signed and unsigned operands (signed or unsigned division); none for
/// booleans.
pub open spec fn arith_op(k: ArithKind, p: PrimitiveType) -> Option<BinOp> {
    match prim_base(p) {
        PrimitiveType::Float | PrimitiveType::Double => Some(
            match k {
                ArithKind::Add => BinOp::FAdd,
                ArithKind::Sub => BinOp::FSub,
                ArithKind::Div => BinOp::FDiv,
            },
        ),
        PrimitiveType::Int => Some(
            match k {
                ArithKind::Add => BinOp::IAdd,
                ArithKind::Sub => BinOp::ISub,
                ArithKind::Div => BinOp::SDiv,
            },
        ),
        PrimitiveType::UInt => Some(
            match k {
                ArithKind::Add => BinOp::IAdd,
                ArithKind::Sub => BinOp::ISub,
                ArithKind::Div => BinOp::UDiv,
            },
        ),
        _ => None,
    }
}

/// The instruction of a multiplication and whether its operands are given in
/// the other order: a matrix times a matrix, a vector or a scalar; a vector
/// times a vector (component-wise float multiplication) or a scalar; a scalar
/// times a matrix or a vector as the matrix or vector times the scalar; a
/// scalar times a scalar by the type of the right operand. None for a vector
/// times a matrix, or a scalar times a boolean.
pub open spec fn mul_op(l: PrimitiveType, r: PrimitiveType) -> Option<(BinOp, bool)> {
    if prim_is_matrix(l) {
        if prim_is_matrix(r) {
            Some((BinOp::MatrixTimesMatrix, false))
        } else if prim_is_vector(r) {
            Some((BinOp::MatrixTimesVector, false))
        } else {
            Some((BinOp::MatrixTimesScalar, false))
        }
    } else if prim_is_vector(l) {
        if prim_is_vector(r) {
            Some((BinOp::FMul, false))
        } else if prim_is_scalar(r) {
            Some((BinOp::VectorTimesScalar, false))
        } else {
            None
        }
    } else {
        if prim_is_matrix(r) {
            Some((BinOp::MatrixTimesScalar, true))
        } else if prim_is_vector(r) {
            Some((BinOp::VectorTimesScalar, true))
        } else if prim_base(r) is Float || prim_base(r) is Double {
            Some((BinOp::FMul, false))
        } else if prim_base(r) is Int || prim_base(r) is UInt {
            Some((BinOp::IMul, false))
        } else {
            None
        }
    }
}

/// The instruction of an arithmetic operation on operands of type `p`.
pub fn arith_choice(k: ArithKind, p: PrimitiveType) -> (r: Option<BinOp>)
    ensures
        r == arith_op(k, p),
        r matches Some(op) ==> computed_arith(op) == Some(k) && arith_reads(op, prim_base(p)),
{
    if p.is_float() || p.is_double() {
        Some(
            match k {
                ArithKind::Add => BinOp::FAdd,
                ArithKind::Sub => BinOp::FSub,
                ArithKind::Div => BinOp::FDiv,
            },
        )
    } else if p.is_int() {
        Some(
            match k {
                ArithKind::Add => BinOp::IAdd,
                ArithKind::Sub => BinOp::ISub,
                ArithKind::Div => BinOp::SDiv,
            },
        )
    } else if p.is_uint() {
        Some(
            match k {
                ArithKind::Add => BinOp::IAdd,
                ArithKind::Sub => BinOp::ISub,
                ArithKind::Div => BinOp::UDiv,
            },
        )
    } else {
        None
    }
}

/// The instruction of a multiplication of `l` by `r`, and whether the
/// operands are swapped.
pub fn get_mul_fn_p(l: PrimitiveType, r: PrimitiveType) -> (res: Option<(BinOp, bool)>)
    ensures
        res == mul_op(l, r),
        res matches Some((op, swap)) ==> if swap { mul_takes(op, r, l) } else { mul_takes(op, l, r) },
{
    if l.is_matrix() {
        if r.is_matrix() {
            Some((BinOp::MatrixTimesMatrix, false))
        } else if r.is_vector() {
            Some((BinOp::MatrixTimesVector, false))
        } else {
            Some((BinOp::MatrixTimesScalar, false))
        }
    } else if l.is_vector() {
        if r.is_vector() {
            Some((BinOp::FMul, false))
        } else if r.is_scalar() {
            Some((BinOp::VectorTimesScalar, false))
        } else {
            None
        }
    } else {
        if r.is_matrix() {
            Some((BinOp::MatrixTimesScalar, true))
        } else if r.is_vector() {
            Some((BinOp::VectorTimesScalar, true))
        } else if r.is_float() || r.is_double() {
            Some((BinOp::FMul, false))
        } else if r.is_int() || r.is_uint() {
            Some((BinOp::IMul, false))
        } else {
            None
        }
    }
}

/// The arithmetic operation an instruction computes; none for an
/// instruction that is no addition, subtraction or division.
pub open spec fn computed_arith(op: BinOp) -> Option<ArithKind> {
    match op {
        BinOp::IAdd | BinOp::FAdd => Some(ArithKind::Add),
        BinOp::ISub | BinOp::FSub => Some(ArithKind::Sub),
        BinOp::SDiv | BinOp::UDiv | BinOp::FDiv => Some(ArithKind::Div),
        _ => None,
    }
}

/// Whether an arithmetic instruction reads its operands' components as the
/// scalar type `b`: the `I` ones integers of either signedness, the `S` one
/// signed and the `U` one unsigned integers, the `F` ones floats and doubles.
pub open spec fn arith_reads(op: BinOp, b: PrimitiveType) -> bool {
    match op {
        BinOp::IAdd | BinOp::ISub => b is Int || b is UInt,
        BinOp::SDiv => b is Int,
        BinOp::UDiv => b is UInt,
        BinOp::FAdd | BinOp::FSub | BinOp::FDiv => b is Float || b is Double,
        _ => false,
    }
}

/// The instruction selected for an addition, subtraction or division
/// computes that operation, reading the operands' components as their
/// scalar type; there is one for every operand type but booleans. So an
/// integer subtraction is an integer subtraction, never an addition.
pub proof fn law_arith_instruction_computes(k: ArithKind, p: PrimitiveType)
    ensures
        arith_op(k, p) is Some <==> !(prim_base(p) is Bool),
        arith_op(k, p) matches Some(op) ==> computed_arith(op) == Some(k) && arith_reads(op, prim_base(p)),
{
}

/// Whether a multiplication instruction takes a first operand of type `a`
/// and a second of type `b`: a matrix times a matrix, a vector or a scalar,
/// a vector times a scalar, component-wise two vectors or two float scalars,
/// and two integer scalars.
pub open spec fn mul_takes(op: BinOp, a: PrimitiveType, b: PrimitiveType) -> bool {
    match op {
        BinOp::MatrixTimesMatrix => prim_is_matrix(a) && prim_is_matrix(b),
        BinOp::MatrixTimesVector => prim_is_matrix(a) && prim_is_vector(b),
        BinOp::MatrixTimesScalar => prim_is_matrix(a) && prim_is_scalar(b),
        BinOp::VectorTimesScalar => prim_is_vector(a) && prim_is_scalar(b),
        BinOp::FMul => (prim_is_vector(a) && prim_is_vector(b)) || (prim_is_scalar(a) && (b is Float
            || b is Double)),
        BinOp::IMul => prim_is_scalar(a) && (b is Int || b is UInt),
        _ => false,
    }
}

/// The instruction selected for a multiplication is a multiplication that
/// takes the operands in the order passed: swapped exactly when a scalar is
/// multiplied by a vector or matrix, so that the vector or matrix comes
/// first.
pub proof fn law_mul_instruction_takes_operands(l: PrimitiveType, r: PrimitiveType)
    ensures
        mul_op(l, r) matches Some((op, swap)) ==> {
            &&& swap <==> (prim_is_scalar(l) && !prim_is_scalar(r))
            &&& if swap { mul_takes(op, r, l) } else { mul_takes(op, l, r) }
        },
{
}

/// The lowering check accepts an addition, subtraction or division exactly
/// when an instruction is selected for it.
pub proof fn law_arith_selected(k: ArithKind, p: PrimitiveType)
    ensures
        arith_op(k, p) is Some <==> arith_ok(p),
{
}

/// The lowering check accepts a multiplication exactly when an instruction is
/// selected for it.
pub proof fn law_mul_selected(l: PrimitiveType, r: PrimitiveType)
    ensures
        mul_op(l, r) is Some <==> mul_ok(l, r),
{
}

/// The SPIR-V ids of the resources a list is lowered against: variables of
/// the inputs, outputs, uniform and storage buffers, and textures and samplers
/// each with its type.
pub struct PrimResources {
    pub uniforms: Vec<u32>,
    pub storages: Vec<u32>,
    pub inputs: Vec<u32>,
    pub outputs: Vec<u32>,
    pub textures: Vec<(u32, u32)>,
    pub samplers: Vec<(u32, u32)>,
}

impl PrimResources {
    /// How many of each resource there are.
    pub open spec fn counts(self) -> PrimCounts {
        PrimCounts {
            inputs: self.inputs@.len() as usize,
            outputs: self.outputs@.len() as usize,
            uniforms: self.uniforms@.len() as usize,
            textures: self.textures@.len() as usize,
            samplers: self.samplers@.len() as usize,
        }
    }
}

/// Every recorded variable mapped in `a` outside `x` is mapped in `b` to the
/// same SPIR-V variable.
pub open spec fn map_kept_except(a: Map<usize, u32>, b: Map<usize, u32>, x: Set<usize>) -> bool {
    forall|k: usize| #![trigger b.dom().contains(k)] #![trigger a.dom().contains(k)]
        a.dom().contains(k) && !x.contains(k) ==> b.dom().contains(k) && b[k] == a[k]
}

/// `map_kept_except` composes, excepting both sets.
pub proof fn lemma_map_kept_trans(a: Map<usize, u32>, b: Map<usize, u32>, c: Map<usize, u32>, x: Set<usize>, y: Set<usize>)
    requires
        map_kept_except(a, b, x),
        map_kept_except(b, c, y),
    ensures
        map_kept_except(a, c, x.union(y)),
{
    assert forall|k: usize| a.dom().contains(k) && !x.union(y).contains(k) implies #[trigger] c.dom().contains(k) && c[k] == a[k] by {
        assert(b.dom().contains(k));
    }
}

/// The SPIR-V variable a recorded variable is mapped to.
fn lookup(vars: &HashMap<usize, u32>, k: usize) -> (r: u32)
    requires
        vars@.contains_key(k),
    ensures
        r == vars@[k],
{
    *vars.get(&k).unwrap()
}

impl RSpirvBuilder {
    /// Declares a `Function` variable of pointer type `p_ty` at the start of
    /// block `var_block`, and selects the block selected before again. It
    /// succeeds when a block is selected and `var_block` exists.
    pub fn function_variable(&mut self, p_ty: u32, var_block: usize) -> (r: Result<u32, CompileError>)
        requires
            old(self).wf(),
        ensures
            kept(*old(self), *final(self)),
            final(self).struct_map@ == old(self).struct_map@,
            in_block(old(self).raw) && block_exists(old(self).raw, var_block) <==> r is Ok,
            r is Ok ==> var_put(old(self).raw, final(self).raw, var_block, p_ty, r->Ok_0),
            r is Ok ==> module_view(final(self).raw).globals == module_view(old(self).raw).globals,
            r is Err ==> only_globals(old(self).raw, final(self).raw),
    {
        let current = match selected_block(&self.raw) {
            Some(c) => c,
            None => {
                return Err(CompileError::NoBlock);
            },
        };
        lift(select_block(&mut self.raw, Some(var_block)))?;
        let id = next_id(&mut self.raw);
        lift(insert_function_variable(&mut self.raw, p_ty, id))?;
        lift(select_block(&mut self.raw, Some(current)))?;
        Ok(id)
    }

    /// Declares a `Function` variable of a primitive type in the variable
    /// block.
    pub fn prim_variable(&mut self, p: PrimitiveType, var_block: usize) -> (r: Result<u32, CompileError>)
        requires
            old(self).wf(),
        ensures
            kept(*old(self), *final(self)),
            in_block(old(self).raw) && block_exists(old(self).raw, var_block) <==> r is Ok,
            r is Ok ==> var_put(old(self).raw, final(self).raw, var_block, final(self).pointer_decl_id(prim_type_view(p), 7)->Some_0, r->Ok_0),
            r is Ok ==> final(self).pointer_decl_id(prim_type_view(p), 7) is Some,
            r is Err ==> only_globals(old(self).raw, final(self).raw),
    {
        let p_ty = self.prim_pointer(p);
        let ghost mid = *self;
        let r = self.function_variable(p_ty, var_block);
        proof { lemma_kept_trans(*old(self), mid, *self); }
        r
    }

    /// Declares a `Function` variable of a data type in the variable block.
    pub fn data_variable(&mut self, d: &DataType, var_block: usize) -> (r: Result<u32, CompileError>)
        requires
            old(self).wf(),
        ensures
            kept(*old(self), *final(self)),
            in_block(old(self).raw) && block_exists(old(self).raw, var_block) <==> r is Ok,
            r is Ok ==> exists|pty: u32| var_put(old(self).raw, final(self).raw, var_block, pty, r->Ok_0),
    {
        let p_ty = self.data_pointer(d);
        let ghost mid = *self;
        let r = self.function_variable(p_ty, var_block);
        proof {
            lemma_kept_trans(*old(self), mid, *self);
            if r is Ok {
                assert(var_put(old(self).raw, self.raw, var_block, p_ty, r->Ok_0));
            }
        }
        r
    }

    /// Loads the value of type `ty` behind `pointer`.
    fn load_prim(&mut self, pointer: u32, ty: PrimitiveType) -> (r: Result<u32, CompileError>)
        requires
            old(self).wf(),
        ensures
            kept(*old(self), *final(self)),
            r is Ok <==> in_block(old(self).raw),
            r is Ok ==> pushed_inst(old(self).raw, final(self).raw, InstView::Load { ty: type_decl_id(module_view(final(self).raw).globals, final(self).struct_map@, prim_type_view(ty))->Some_0, res: r->Ok_0, pointer }),
            r is Err ==> only_globals(old(self).raw, final(self).raw),
    {
        let t = self.prim_type_id(ty);
        lift(load(&mut self.raw, t, pointer))
    }
}

impl PrimitiveVal {
    /// Declares the constant, then a variable of the type the conversion from
    /// the constant gives in the variable block, stores the constant into it
    /// and returns the variable.
    pub fn set(&self, b: &mut RSpirvBuilder, var_block: usize) -> (r: Result<u32, CompileError>)
        requires
            old(b).wf(),
        ensures
            kept(*old(b), *final(b)),
            in_block(old(b).raw) && block_exists(old(b).raw, var_block) ==> r is Ok,
            r is Ok ==> in_block(final(b).raw) && current_block(final(b).raw).insts.len() >= 1 && back(current_block(final(b).raw).insts, 1) is Store
                && back(current_block(final(b).raw).insts, 1)->Store_pointer == r->Ok_0,
            r is Ok ==> block_exists(final(b).raw, var_block),
            r is Ok ==> in_block(final(b).raw) && forall|k: usize| #[trigger] block_exists(old(b).raw, k) ==> block_exists(final(b).raw, k),
    {
        let c = b.prim_const(*self);
        let ghost b1 = *b;
        let var = b.prim_variable(PrimitiveType::from_val(self), var_block);
        proof { lemma_kept_trans(*old(b), b1, *b); }
        let var = var?;
        lift(store(&mut b.raw, var, c.0))?;
        Ok(var)
    }
}

impl DataVal {
    /// Declares the constant and returns it with its type: a primitive as
    /// `prim_const` does, an array as the composite of its elements' constants
    /// of the array type.
    pub fn set_constant(&self, b: &mut RSpirvBuilder) -> (r: (u32, u32))
        requires
            old(b).wf(),
            data_val_type(*self) is Some,
        ensures
            kept(*old(b), *final(b)),
            crate::spirv_api::only_globals(old(b).raw, final(b).raw),
            *self is Primitive ==> final(b).declares_prim(self->Primitive_0, r.0, r.1),
            *self is Array ==> final(b).declares_data(DataType::Array(prim_val_ty(self->Array_0@[0]), self->Array_0@.len() as usize), r.1),
            *self is Array ==> crate::emit::has_composite(module_view(final(b).raw).globals, r.1, r.0, self->Array_0@.len()),
    {
        match self {
            DataVal::Primitive(p) => {
                let r = b.prim_const(*p);
                assert(b.declares_prim(*p, r.0, r.1));
                r
            },
            DataVal::Array(v) => {
                let dt = DataType::from_val(self);
                let ty = b.data_type_id(&dt);
                let ghost b1 = *b;
                let mut parts: Vec<u32> = Vec::new();
                let mut i: usize = 0;
                while i < v.len()
                    invariant
                        i <= v@.len(),
                        kept(b1, *b),
                        kept(*old(b), b1),
                        crate::spirv_api::only_globals(old(b).raw, b1.raw),
                        crate::spirv_api::only_globals(b1.raw, b.raw),
                        parts@.len() == i,
                        b.declares_data(dt, ty),
                    decreases v@.len() - i,
                {
                    let ghost bi = *b;
                    let c = b.prim_const(v[i]);
                    proof {
                        lemma_kept_trans(b1, bi, *b);
                        crate::emit::lemma_data_kept(bi, *b, dt, ty);
                    }
                    parts.push(c.0);
                    i = i + 1;
                }
                proof { lemma_kept_trans(*old(b), b1, *b); }
                let ghost bp = *b;
                let ghost ps = parts@;
                let c = constant_composite(&mut b.raw, ty, parts);
                proof {
                    crate::emit::lemma_data_kept(bp, *b, dt, ty);
                    let g = module_view(b.raw).globals;
                    assert(g[g.len() - 1] == InstView::ConstantComposite { ty, res: c, parts: ps });
                    assert(has_inst(g, InstView::ConstantComposite { ty, res: c, parts: ps }));
                    assert(ps.len() == v@.len());
                    assert(exists|parts: Seq<u32>| #[trigger] has_inst(g, InstView::ConstantComposite { ty, res: c, parts }) && parts.len() == v@.len());
                }
                assert(crate::emit::has_composite(module_view(b.raw).globals, ty, c, v@.len()));
                (c, ty)
            },
            DataVal::Struct(_, _) => (0, 0),
        }
    }

    /// Declares the constant, then a `Function` variable of its type in the
    /// selected block, and stores the constant into it.
    pub fn set(&self, b: &mut RSpirvBuilder) -> (r: Result<u32, CompileError>)
        requires
            old(b).wf(),
            data_val_type(*self) is Some,
        ensures
            kept(*old(b), *final(b)),
    {
        let (c, ty) = self.set_constant(b);
        let p_ty = type_pointer(&mut b.raw, 7, ty);
        let var = crate::spirv_api::variable(&mut b.raw, p_ty, 7);
        lift(store(&mut b.raw, var, c))?;
        Ok(var)
    }
}

/// `kept` composes along a chain of builder states.
pub broadcast proof fn lemma_kept_chain(a: RSpirvBuilder, b: RSpirvBuilder, c: RSpirvBuilder)
    requires
        #[trigger] kept(a, b),
        #[trigger] kept(b, c),
    ensures
        kept(a, c),
{
    lemma_kept_trans(a, b, c);
}

/// The selected block ends with a load through `lp`, a load through `rp`,
/// `op` applied to the two loaded values (in the other order when `swap`)
/// with result type `ty`, and a store of its result through `dst`.
pub open spec fn ends_with_binary(b: Builder, op: BinOp, swap: bool, lp: u32, rp: u32, dst: u32, ext: u32, ty: u32) -> bool {
    let s = current_block(b).insts;
    let n = s.len() as int;
    &&& in_block(b)
    &&& n >= 4
    &&& s[n - 4] is Load && s[n - 4]->Load_pointer == lp
    &&& s[n - 3] is Load && s[n - 3]->Load_pointer == rp
    &&& op_of(s[n - 2], ext) == Some(op)
    &&& ty_of(s[n - 2]) == ty
    &&& operands_of(s[n - 2]) == (if swap { (res_of(s[n - 3]), res_of(s[n - 4])) } else { (res_of(s[n - 4]), res_of(s[n - 3])) })
    &&& s[n - 1] == InstView::Store { pointer: dst, object: res_of(s[n - 2]) }
}

/// Block `k` of the selected function starts with a `Function` variable
/// `v` of pointer type `pty`.
pub open spec fn var_first(b: Builder, k: usize, v: u32, pty: u32) -> bool {
    let m = module_view(b);
    let blk = m.functions[m.function->Some_0 as int][k as int];
    &&& m.function is Some
    &&& blk.insts.len() > 0
    &&& blk.insts[0] is Variable
    &&& blk.insts[0]->Variable_res == v
    &&& blk.insts[0]->Variable_class == 7
    &&& blk.insts[0]->Variable_ty == pty
}

/// Putting a variable first in some block keeps all that the selected block
/// holds at its end.
pub proof fn lemma_var_put_back(a: Builder, b: Builder, k: usize, pty: u32, v: u32)
    requires
        builder_ok(a),
        in_block(a),
        block_exists(a, k),
        var_put(a, b, k, pty, v),
    ensures
        in_block(b),
        builder_ok(b),
        is_suffix(current_block(a).insts, current_block(b).insts),
{
    lemma_var_put_current(a, b, k, pty, v);
    if module_view(a).block->Some_0 == k {
        lemma_prepend_suffix(current_block(a).insts, InstView::Variable { ty: pty, res: v, class: 7 });
    } else {
        lemma_suffix_refl(current_block(a).insts);
    }
}

/// The selected block ends with the store through `dst` of what the
/// instruction before it computed.
pub open spec fn stores_result(b: Builder, dst: u32) -> bool {
    let s = current_block(b).insts;
    &&& in_block(b)
    &&& s.len() >= 2
    &&& back(s, 1) == InstView::Store { pointer: dst, object: res_of(back(s, 2)) }
}

/// After an instruction computing a value, a new variable put first in some
/// block (or nothing done to the blocks), and a store of that value into
/// the variable, the selected block ends with that instruction and the store.
pub proof fn lemma_result_stored(a: Builder, b: Builder, c: Builder, k: usize, pty: u32, v: u32)
    requires
        builder_ok(a),
        in_block(a),
        current_block(a).insts.len() >= 1,
        (block_exists(a, k) && var_put(a, b, k, pty, v)) || (sel_kept(a, b) && module_view(b).functions == module_view(a).functions),
        appended(b, c, InstView::Store { pointer: v, object: res_of(back(current_block(a).insts, 1)) }),
    ensures
        stores_result(c, v),
        back(current_block(c).insts, 2) == back(current_block(a).insts, 1),
{
    if block_exists(a, k) && var_put(a, b, k, pty, v) {
        lemma_var_put_back(a, b, k, pty, v);
    } else {
        lemma_suffix_refl(current_block(a).insts);
    }
    let sb = current_block(b).insts;
    let sc = current_block(c).insts;
    assert(sc == sb.push(InstView::Store { pointer: v, object: res_of(back(current_block(a).insts, 1)) }));
    assert(back(sb, 1) == back(current_block(a).insts, 1));
    assert(back(sc, 2) == back(sb, 1));
}

/// Loads both operands, applies `op` with result type `res.1` (to the
/// operands in the other order when `swap`), and stores the result into a new
/// variable of type `res.1`, which `res.0` is mapped to.
fn process_binary(
    b: &mut RSpirvBuilder,
    vars: &mut HashMap<usize, u32>,
    op: BinOp,
    swap: bool,
    lhs: (usize, PrimitiveType),
    rhs: (usize, PrimitiveType),
    res: (usize, PrimitiveType),
    var_block: usize,
) -> (r: Result<(), CompileError>)
    requires
        old(b).wf(),
        old(vars)@.contains_key(lhs.0),
        old(vars)@.contains_key(rhs.0),
    ensures
        kept(*old(b), *final(b)),
        r is Ok ==> final(vars)@.dom() == old(vars)@.dom().insert(res.0),
        r is Ok ==> map_kept_except(old(vars)@, final(vars)@, Set::empty().insert(res.0)),
        in_block(old(b).raw) && block_exists(old(b).raw, var_block) ==> r is Ok,
        r is Ok ==> ends_with_binary(final(b).raw, op, swap, old(vars)@[lhs.0], old(vars)@[rhs.0], final(vars)@[res.0], old(b).ext,
            final(b).prim_ty(res.1)),
        r is Ok ==> final(b).declares(prim_type_view(res.1), final(b).prim_ty(res.1)),
        r is Ok ==> var_first(final(b).raw, var_block, final(vars)@[res.0], final(b).pointer_decl_id(prim_type_view(res.1), 7)->Some_0),
        r is Ok ==> final(b).pointer_decl_id(prim_type_view(res.1), 7) is Some,
        r is Ok ==> in_block(final(b).raw) && forall|k: usize| #[trigger] block_exists(old(b).raw, k) ==> block_exists(final(b).raw, k),
{
    broadcast use lemma_kept_chain;
    let ghost s0 = current_block(b.raw).insts;
    let l = b.load_prim(lookup(vars, lhs.0), lhs.1);
    let mut l = l?;
    let ghost s1 = current_block(b.raw).insts;
    assert(s1.len() == s0.len() + 1 && s1.drop_last() =~= s0 && s1.last() is Load && s1.last()->Load_pointer == old(vars)@[lhs.0] && res_of(s1.last()) == l);
    let rr = b.load_prim(lookup(vars, rhs.0), rhs.1);
    let mut rr = rr?;
    let ghost s2 = current_block(b.raw).insts;
    assert(s2.len() == s1.len() + 1 && s2.drop_last() =~= s1 && s2.last() is Load && s2.last()->Load_pointer == old(vars)@[rhs.0] && res_of(s2.last()) == rr);
    let res_ty = b.prim_type_id(res.1);
    let ghost bb3 = *b;
    let ghost (l0, r0) = (l, rr);
    if swap {
        let t = l;
        l = rr;
        rr = t;
    }
    let ghost b3 = b.raw;
    let v = apply_bin(b, op, res_ty, l, rr);
    let v = v?;
    let ghost s4 = current_block(b.raw).insts;
    assert(s4.len() == s2.len() + 1 && s4.drop_last() =~= s2 && op_of(s4.last(), old(b).ext) == Some(op) && res_of(s4.last()) == v
        && operands_of(s4.last()) == (l, rr));
    let ghost b4 = b.raw;
    let var = b.prim_variable(res.1, var_block);
    let var = var?;
    proof { lemma_var_put_current(b4, b.raw, var_block, b.pointer_decl_id(prim_type_view(res.1), 7)->Some_0, var); }
    let ghost s5 = current_block(b.raw).insts;
    assert(s5.len() >= 3 && s5.last() == s4.last() && s5[s5.len() - 2] == s4[s4.len() - 2] && s5[s5.len() - 3] == s4[s4.len() - 3]) by {
        if s5 != s4 {
            let x = seq![InstView::Variable { ty: b.pointer_decl_id(prim_type_view(res.1), 7)->Some_0, res: var, class: 7 }];
            assert(s5 == x + s4);
            assert(s5.len() == s4.len() + 1);
            assert(s5[s5.len() - 1] == s4[s4.len() - 1]);
            assert(s5[s5.len() - 2] == s4[s4.len() - 2]);
            assert(s5[s5.len() - 3] == s4[s4.len() - 3]);
        }
    }
    let ghost b5 = b.raw;
    assert(var_first(b5, var_block, var, b.pointer_decl_id(prim_type_view(res.1), 7)->Some_0));
    lift(store(&mut b.raw, var, v))?;
    vars.insert(res.0, var);
    proof {
        lemma_declares_kept(bb3, *b, prim_type_view(res.1), res_ty);
        let s6 = current_block(b.raw).insts;
        assert(s6 == s5.push(InstView::Store { pointer: var, object: v }));
        let m5 = module_view(b5);
        let f = m5.function->Some_0 as int;
        if m5.block->Some_0 == var_block {
            assert(module_view(b.raw).functions[f][var_block as int].insts == m5.functions[f][var_block as int].insts.push(InstView::Store { pointer: var, object: v }));
        } else {
            assert(module_view(b.raw).functions[f][var_block as int] == m5.functions[f][var_block as int]);
        }
        assert(s4[s4.len() - 2] == s2.last());
        assert(s4[s4.len() - 3] == s2[s2.len() - 2]);
        assert(s2[s2.len() - 2] == s1.last());
    }
    Ok(())
}

/// Loads both operands, applies `op` with the type of `lhs` as result type
/// (to the operands in the other order when `swap`), and stores the result
/// back into the variable of `lhs`.
fn process_assign(
    b: &mut RSpirvBuilder,
    vars: &HashMap<usize, u32>,
    op: BinOp,
    swap: bool,
    lhs: (usize, PrimitiveType),
    rhs: (usize, PrimitiveType),
) -> (r: Result<(), CompileError>)
    requires
        old(b).wf(),
        vars@.contains_key(lhs.0),
        vars@.contains_key(rhs.0),
    ensures
        kept(*old(b), *final(b)),
        in_block(old(b).raw) ==> r is Ok,
        r is Ok ==> ends_with_binary(final(b).raw, op, swap, vars@[lhs.0], vars@[rhs.0], vars@[lhs.0], old(b).ext,
            final(b).prim_ty(lhs.1)),
        r is Ok ==> final(b).declares(prim_type_view(lhs.1), final(b).prim_ty(lhs.1)),
        r is Ok ==> in_block(final(b).raw) && forall|k: usize| #[trigger] block_exists(old(b).raw, k) ==> block_exists(final(b).raw, k),
{
    broadcast use lemma_kept_chain;
    let lhs_var = lookup(vars, lhs.0);
    let lhs_ty = b.prim_type_id(lhs.1);
    let ghost bb = *b;
    let ghost s0 = current_block(b.raw).insts;
    let l = lift(load(&mut b.raw, lhs_ty, lhs_var));
    let mut l = l?;
    let ghost s1 = current_block(b.raw).insts;
    assert(s1.len() == s0.len() + 1 && s1.drop_last() =~= s0 && s1.last() is Load && s1.last()->Load_pointer == lhs_var && res_of(s1.last()) == l);
    let rr = b.load_prim(lookup(vars, rhs.0), rhs.1);
    let mut rr = rr?;
    let ghost s2 = current_block(b.raw).insts;
    assert(s2.len() == s1.len() + 1 && s2.drop_last() =~= s1 && s2.last() is Load && s2.last()->Load_pointer == vars@[rhs.0] && res_of(s2.last()) == rr);
    if swap {
        let t = l;
        l = rr;
        rr = t;
    }
    let v = apply_bin(b, op, lhs_ty, l, rr);
    let v = v?;
    let ghost s4 = current_block(b.raw).insts;
    assert(s4.len() == s2.len() + 1 && s4.drop_last() =~= s2 && op_of(s4.last(), old(b).ext) == Some(op) && res_of(s4.last()) == v
        && operands_of(s4.last()) == (l, rr));
    let r = lift(store(&mut b.raw, lhs_var, v));
    proof {
        lemma_declares_kept(bb, *b, prim_type_view(lhs.1), lhs_ty);
        if r is Ok {
            let s6 = current_block(b.raw).insts;
            assert(s6 == s4.push(InstView::Store { pointer: lhs_var, object: v }));
            assert(s4[s4.len() - 2] == s2.last());
            assert(s4[s4.len() - 3] == s2[s2.len() - 2]);
            assert(s2[s2.len() - 2] == s1.last());
        }
    }
    r
}

/// Loads two booleans, applies the logical `op`, and stores the result into
/// a new boolean variable, which `res` is mapped to.
fn process_logical(
    b: &mut RSpirvBuilder,
    vars: &mut HashMap<usize, u32>,
    op: BinOp,
    lhs: usize,
    rhs: usize,
    res: usize,
    var_block: usize,
) -> (r: Result<(), CompileError>)
    requires
        old(b).wf(),
        old(vars)@.contains_key(lhs),
        old(vars)@.contains_key(rhs),
    ensures
        kept(*old(b), *final(b)),
        r is Ok ==> final(vars)@.dom() == old(vars)@.dom().insert(res),
        r is Ok ==> map_kept_except(old(vars)@, final(vars)@, Set::empty().insert(res)),
        in_block(old(b).raw) && block_exists(old(b).raw, var_block) ==> r is Ok,
        r is Ok ==> ends_with_binary(final(b).raw, op, false, old(vars)@[lhs], old(vars)@[rhs], final(vars)@[res], old(b).ext,
            final(b).prim_ty(PrimitiveType::Bool)),
        r is Ok ==> final(b).declares(prim_type_view(PrimitiveType::Bool), final(b).prim_ty(PrimitiveType::Bool)),
        r is Ok ==> var_first(final(b).raw, var_block, final(vars)@[res], final(b).pointer_decl_id(prim_type_view(PrimitiveType::Bool), 7)->Some_0),
        r is Ok ==> final(b).pointer_decl_id(prim_type_view(PrimitiveType::Bool), 7) is Some,
        r is Ok ==> in_block(final(b).raw) && forall|k: usize| #[trigger] block_exists(old(b).raw, k) ==> block_exists(final(b).raw, k),
{
    broadcast use lemma_kept_chain;
    let ty = b.prim_type_id(PrimitiveType::Bool);
    let ghost bb = *b;
    let ghost s0 = current_block(b.raw).insts;
    let l = lift(load(&mut b.raw, ty, lookup(vars, lhs)))?;
    let ghost s1 = current_block(b.raw).insts;
    assert(s1.len() == s0.len() + 1 && s1.drop_last() =~= s0 && s1.last() is Load && s1.last()->Load_pointer == old(vars)@[lhs] && res_of(s1.last()) == l);
    let rr = lift(load(&mut b.raw, ty, lookup(vars, rhs)))?;
    let ghost s2 = current_block(b.raw).insts;
    assert(s2.len() == s1.len() + 1 && s2.drop_last() =~= s1 && s2.last() is Load && s2.last()->Load_pointer == old(vars)@[rhs] && res_of(s2.last()) == rr);
    let v = apply_bin(b, op, ty, l, rr);
    let v = v?;
    let ghost s4 = current_block(b.raw).insts;
    assert(s4.len() == s2.len() + 1 && s4.drop_last() =~= s2 && op_of(s4.last(), old(b).ext) == Some(op) && res_of(s4.last()) == v
        && operands_of(s4.last()) == (l, rr));
    let ghost b4 = b.raw;
    let var = b.prim_variable(PrimitiveType::Bool, var_block);
    let var = var?;
    proof { lemma_var_put_current(b4, b.raw, var_block, b.pointer_decl_id(prim_type_view(PrimitiveType::Bool), 7)->Some_0, var); }
    let ghost s5 = current_block(b.raw).insts;
    assert(s5.len() >= 3 && s5.last() == s4.last() && s5[s5.len() - 2] == s4[s4.len() - 2] && s5[s5.len() - 3] == s4[s4.len() - 3]) by {
        if s5 != s4 {
            let x = seq![InstView::Variable { ty: b.pointer_decl_id(prim_type_view(PrimitiveType::Bool), 7)->Some_0, res: var, class: 7 }];
            assert(s5 == x + s4);
            assert(s5[s5.len() - 1] == s4[s4.len() - 1]);
            assert(s5[s5.len() - 2] == s4[s4.len() - 2]);
            assert(s5[s5.len() - 3] == s4[s4.len() - 3]);
        }
    }
    let ghost b5 = b.raw;
    assert(var_first(b5, var_block, var, b.pointer_decl_id(prim_type_view(PrimitiveType::Bool), 7)->Some_0));
    lift(store(&mut b.raw, var, v))?;
    vars.insert(res, var);
    proof {
        lemma_declares_kept(bb, *b, prim_type_view(PrimitiveType::Bool), ty);
        let s6 = current_block(b.raw).insts;
        assert(s6 == s5.push(InstView::Store { pointer: var, object: v }));
        let m5 = module_view(b5);
        let f = m5.function->Some_0 as int;
        if m5.block->Some_0 == var_block {
            assert(module_view(b.raw).functions[f][var_block as int].insts == m5.functions[f][var_block as int].insts.push(InstView::Store { pointer: var, object: v }));
        } else {
            assert(module_view(b.raw).functions[f][var_block as int] == m5.functions[f][var_block as int]);
        }
        assert(s4[s4.len() - 2] == s2.last());
        assert(s4[s4.len() - 3] == s2[s2.len() - 2]);
        assert(s2[s2.len() - 2] == s1.last());
    }
    Ok(())
}

/// A data type with no member to copy: an empty array or a struct without
/// fields.
pub open spec fn copies_nothing(ty: DataType) -> bool {
    ||| ty matches DataType::Array(_, n) && n == 0
    ||| ty matches DataType::Struct(s) && s.fields@.len() == 0
}

/// Copies the composite `obj` of data type `ty` into the `Function`
/// variable `res_var` member by member: a primitive is stored whole; each
/// array element is extracted (the index constant's id given as the literal
/// index) and stored through an access chain; each struct field is extracted
/// and copied in the same way into the chain to it.
pub fn copy_composite(ty: &DataType, b: &mut RSpirvBuilder, res_var: u32, obj: u32) -> (r: Result<(), CompileError>)
    requires
        old(b).wf(),
    ensures
        kept(*old(b), *final(b)),
        copies_nothing(*ty) ==> r is Ok,
    decreases ty,
{
    broadcast use lemma_kept_chain;
    match ty {
        DataType::Primitive(_) => lift(store(&mut b.raw, res_var, obj)),
        DataType::Array(p, n) => {
            let index_type = b.prim_type_id(*p);
            let index_p_type = b.prim_pointer(*p);
            let ghost b1 = *b;
            let mut index: usize = 0;
            while index < *n
                invariant
                    *ty == DataType::Array(*p, *n),
                    kept(*old(b), b1),
                    kept(b1, *b),
                decreases *n - index,
            {
                #[verifier::truncate]
                let i32 = index as u32;
                let index_obj = b.index_const(i32);
                let data = lift(composite_extract(&mut b.raw, index_type, obj, vec![index_obj]))?;
                let pointer = lift(access_chain(&mut b.raw, index_p_type, res_var, vec![index_obj]))?;
                lift(store(&mut b.raw, pointer, data))?;
                index = index + 1;
            }
            Ok(())
        },
        DataType::Struct(st) => {
            let ghost b1 = *b;
            let mut index: usize = 0;
            while index < st.fields.len()
                invariant
                    index <= st.fields@.len(),
                    *old(b) == b1,
                    kept(b1, *b),
                    *ty is Struct,
                    ty->Struct_0 == *st,
                decreases st.fields@.len() - index,
            {
                assert(decreases_to!(ty => st.fields@[index as int]));
                let field_type = &st.fields[index];
                #[verifier::truncate]
                let i32 = index as u32;
                let raw_field_type = b.data_type_id(field_type);
                let raw_field_p_type = b.data_pointer(field_type);
                let field_obj = lift(composite_extract(&mut b.raw, raw_field_type, obj, vec![i32]))?;
                let index_obj = b.index_const(i32);
                let pointer = lift(access_chain(&mut b.raw, raw_field_p_type, res_var, vec![index_obj]))?;
                copy_composite(field_type, b, pointer, field_obj)?;
                index = index + 1;
            }
            Ok(())
        },
    }
}

/// Loads a shader input into the variable of `store`: the variable it was
/// mapped to, or a new one, which `store` is mapped to.
fn process_load_in(b: &mut RSpirvBuilder, vars: &mut HashMap<usize, u32>, input_var: u32, ty: PrimitiveType, st: usize, var_block: usize) -> (r: Result<(), CompileError>)
    requires
        old(b).wf(),
    ensures
        kept(*old(b), *final(b)),
        in_block(old(b).raw) && block_exists(old(b).raw, var_block) ==> r is Ok,
        r is Ok ==> in_block(final(b).raw) && forall|k: usize| #[trigger] block_exists(old(b).raw, k) ==> block_exists(final(b).raw, k),
        r is Ok ==> final(vars)@.dom() == old(vars)@.dom().insert(st),
        r is Ok ==> map_kept_except(old(vars)@, final(vars)@, Set::empty().insert(st)),
        r is Ok ==> stores_result(final(b).raw, final(vars)@[st]) && back(current_block(final(b).raw).insts, 2) is Load && back(current_block(final(b).raw).insts, 2)->Load_pointer == input_var,
{
    broadcast use lemma_kept_chain;
    let obj = b.load_prim(input_var, ty);
    let obj = obj?;
    let ghost ga = b.raw;
    let var = match vars.get(&st) {
        Some(v) => *v,
        None => {
            let v = b.prim_variable(ty, var_block);
            v?
        },
    };
    let ghost gp = b.pointer_decl_id(prim_type_view(ty), 7)->Some_0;
    let ghost gb = b.raw;
    lift(store(&mut b.raw, var, obj))?;
    proof { lemma_result_stored(ga, gb, b.raw, var_block, gp, var); }
    vars.insert(st, var);
    proof {
        assert(final(vars)@.dom() =~= old(vars)@.dom().insert(st));
    }
    Ok(())
}

/// Shuffles the source vector into a new variable that `dst.0` is mapped to:
/// a vector destination takes the listed components (as many as it has); a
/// scalar one is loaded through an access chain to the first listed
/// component.
fn process_vector_shuffle(
    b: &mut RSpirvBuilder,
    vars: &mut HashMap<usize, u32>,
    src: (usize, PrimitiveType),
    dst: (usize, PrimitiveType),
    components: [u32; 4],
    var_block: usize,
) -> (r: Result<(), CompileError>)
    requires
        old(b).wf(),
        old(vars)@.contains_key(src.0),
    ensures
        kept(*old(b), *final(b)),
        r is Ok ==> final(vars)@.dom() == old(vars)@.dom().insert(dst.0),
        r is Ok ==> map_kept_except(old(vars)@, final(vars)@, Set::empty().insert(dst.0)),
        r is Ok ==> stores_result(final(b).raw, final(vars)@[dst.0]) && (back(current_block(final(b).raw).insts, 2) is VectorShuffle || back(current_block(final(b).raw).insts, 2) is Load),
{
    broadcast use lemma_kept_chain;
    let src_var = lookup(vars, src.0);
    let src_obj_ty = b.prim_type_id(src.1);
    let dst_obj_ty = b.prim_type_id(dst.1);
    let dst_obj = if dst.1.is_vector() {
        let src_obj = lift(load(&mut b.raw, src_obj_ty, src_var))?;
        let count = dst.1.components();
        let n: usize = if count < 4 { count as usize } else { 4 };
        let mut comps: Vec<u32> = Vec::new();
        let mut i: usize = 0;
        while i < n
            invariant
                n <= 4,
                i <= n,
            decreases n - i,
        {
            comps.push(components[i]);
            i = i + 1;
        }
        lift(crate::spirv_api::vector_shuffle(&mut b.raw, dst_obj_ty, src_obj, src_obj, comps))?
    } else {
        let pointer_ty = type_pointer(&mut b.raw, 7, dst_obj_ty);
        let index_obj = b.index_const(components[0]);
        let pointer = lift(access_chain(&mut b.raw, pointer_ty, src_var, vec![index_obj]))?;
        lift(load(&mut b.raw, dst_obj_ty, pointer))?
    };
    let ghost ga = b.raw;
    let res_var = b.prim_variable(dst.1, var_block);
    let res_var = res_var?;
    let ghost gp = b.pointer_decl_id(prim_type_view(dst.1), 7)->Some_0;
    let ghost gb = b.raw;
    lift(store(&mut b.raw, res_var, dst_obj))?;
    proof { lemma_result_stored(ga, gb, b.raw, var_block, gp, res_var); }
    vars.insert(dst.0, res_var);
    Ok(())
}

/// Builds a vector or matrix from the variables of its first components (as
/// many as it has, at most four) into a new variable that `st` is mapped to.
fn process_vector_composite(
    b: &mut RSpirvBuilder,
    vars: &mut HashMap<usize, u32>,
    components: [usize; 4],
    ty: PrimitiveType,
    st: usize,
    var_block: usize,
) -> (r: Result<(), CompileError>)
    requires
        old(b).wf(),
        crate::prim::prim_component(ty) is Some,
        forall|k: int| 0 <= k < crate::prim_ir::composite_len(ty) ==> old(vars)@.contains_key(#[trigger] components[k]),
    ensures
        kept(*old(b), *final(b)),
        r is Ok ==> final(vars)@.dom() == old(vars)@.dom().insert(st),
        r is Ok ==> map_kept_except(old(vars)@, final(vars)@, Set::empty().insert(st)),
        r is Ok ==> stores_result(final(b).raw, final(vars)@[st]) && back(current_block(final(b).raw).insts, 2) is CompositeConstruct,
{
    broadcast use lemma_kept_chain;
    let ghost b0 = *b;
    let n = crate::prim_ir::composite_count(ty);
    let spv_ty = b.prim_type_id(ty);
    let comp = match ty.component() {
        Some(c) => c,
        None => PrimitiveType::Bool,
    };
    let ghost b1 = *b;
    let mut parts: Vec<u32> = Vec::new();
    let mut i: usize = 0;
    while i < n
        invariant
            n == crate::prim_ir::composite_len(ty),
            n <= 4,
            i <= n,
            b0 == *old(b),
            kept(b0, b1),
            kept(b1, *b),
            forall|k: int| 0 <= k < crate::prim_ir::composite_len(ty) ==> vars@.contains_key(#[trigger] components[k]),
        decreases n - i,
    {
        let o = b.load_prim(lookup(vars, components[i]), comp);
        parts.push(o?);
        i = i + 1;
    }
    let v = lift(crate::spirv_api::composite_construct(&mut b.raw, spv_ty, parts))?;
    let ghost ga = b.raw;
    let var = b.prim_variable(ty, var_block);
    let var = var?;
    let ghost gp = b.pointer_decl_id(prim_type_view(ty), 7)->Some_0;
    let ghost gb = b.raw;
    lift(store(&mut b.raw, var, v))?;
    proof { lemma_result_stored(ga, gb, b.raw, var_block, gp, var); }
    vars.insert(st, var);
    Ok(())
}

/// Declares a new array variable of `data.len()` elements of type `ty`,
/// stores into it the composite constant of the listed variables' SPIR-V ids,
/// and maps `st` to it.
fn process_new_array(b: &mut RSpirvBuilder, vars: &mut HashMap<usize, u32>, st: usize, ty: PrimitiveType, data: &Vec<usize>, var_block: usize) -> (r: Result<(), CompileError>)
    requires
        old(b).wf(),
        forall|k: int| 0 <= k < data@.len() ==> old(vars)@.contains_key(#[trigger] data@[k]),
    ensures
        kept(*old(b), *final(b)),
        r is Ok ==> final(vars)@.dom() == old(vars)@.dom().insert(st),
        r is Ok ==> map_kept_except(old(vars)@, final(vars)@, Set::empty().insert(st)),
        r is Ok ==> in_block(final(b).raw) && current_block(final(b).raw).insts.len() >= 1 && back(current_block(final(b).raw).insts, 1) is Store && back(current_block(final(b).raw).insts, 1)->Store_pointer == final(vars)@[st],
{
    broadcast use lemma_kept_chain;
    let at = DataType::Array(ty, data.len());
    let spv_ty = b.data_type_id(&at);
    let var = b.data_variable(&at, var_block);
    let var = var?;
    let mut elements: Vec<u32> = Vec::new();
    let mut i: usize = 0;
    while i < data.len()
        invariant
            i <= data@.len(),
            forall|k: int| 0 <= k < data@.len() ==> vars@.contains_key(#[trigger] data@[k]),
        decreases data@.len() - i,
    {
        elements.push(lookup(vars, data[i]));
        i = i + 1;
    }
    let obj = constant_composite(&mut b.raw, spv_ty, elements);
    lift(store(&mut b.raw, var, obj))?;
    vars.insert(st, var);
    Ok(())
}

/// The pointer to element `index` of the array variable of `array`: an
/// access chain typed with the element type.
fn array_element(b: &mut RSpirvBuilder, vars: &HashMap<usize, u32>, array: usize, index: usize, element_ty: PrimitiveType) -> (r: Result<(u32, u32), CompileError>)
    requires
        old(b).wf(),
        vars@.contains_key(array),
    ensures
        kept(*old(b), *final(b)),
        r is Ok ==> in_block(final(b).raw) && current_block(final(b).raw).insts.len() >= 1 && back(current_block(final(b).raw).insts, 1) is AccessChain && back(current_block(final(b).raw).insts, 1)->AccessChain_res == r->Ok_0.0
            && back(current_block(final(b).raw).insts, 1)->AccessChain_base == vars@[array],
{
    broadcast use lemma_kept_chain;
    #[verifier::truncate]
    let i32 = index as u32;
    let index_obj = b.index_const(i32);
    let array_obj = lookup(vars, array);
    let spv_element_ty = b.prim_type_id(element_ty);
    let p = lift(access_chain(&mut b.raw, spv_element_ty, array_obj, vec![index_obj]))?;
    Ok((p, spv_element_ty))
}

/// The pointer to field `field` of the struct variable of `struct_id`, with
/// the field's type: an access chain through a `Function` pointer to the
/// field's type.
fn struct_field(b: &mut RSpirvBuilder, base_pointer: u32, field: usize, ty: &DataType) -> (r: Result<(u32, u32), CompileError>)
    requires
        old(b).wf(),
    ensures
        kept(*old(b), *final(b)),
        r is Ok ==> in_block(final(b).raw) && current_block(final(b).raw).insts.len() >= 1 && back(current_block(final(b).raw).insts, 1) is AccessChain && back(current_block(final(b).raw).insts, 1)->AccessChain_res == r->Ok_0.0
            && back(current_block(final(b).raw).insts, 1)->AccessChain_base == base_pointer,
{
    broadcast use lemma_kept_chain;
    let f_spv_ty = b.data_type_id(ty);
    let f_spv_p_ty = type_pointer(&mut b.raw, 7, f_spv_ty);
    #[verifier::truncate]
    let i32 = field as u32;
    let index = b.index_const(i32);
    let p = lift(access_chain(&mut b.raw, f_spv_p_ty, base_pointer, vec![index]))?;
    Ok((p, f_spv_ty))
}

/// Declares a new struct variable of type `ty` and stores each listed
/// variable's SPIR-V id into its field of the same position, then maps `st`
/// to it.
fn process_new_struct(b: &mut RSpirvBuilder, vars: &mut HashMap<usize, u32>, st: usize, ty: &DataType, data: &Vec<usize>, var_block: usize) -> (r: Result<(), CompileError>)
    requires
        old(b).wf(),
        forall|k: int| 0 <= k < data@.len() ==> old(vars)@.contains_key(#[trigger] data@[k]),
        ty matches DataType::Struct(s) && data@.len() <= s.fields@.len(),
    ensures
        kept(*old(b), *final(b)),
        r is Ok ==> final(vars)@.dom() == old(vars)@.dom().insert(st),
        r is Ok ==> map_kept_except(old(vars)@, final(vars)@, Set::empty().insert(st)),
{
    broadcast use lemma_kept_chain;
    let ghost b0 = *b;
    let variable = b.data_variable(ty, var_block);
    let ghost b1 = *b;
    let variable = variable?;
    match ty {
        DataType::Struct(sd) => {
            let mut i: usize = 0;
            while i < data.len()
                invariant
                    i <= data@.len(),
                    data@.len() <= sd.fields@.len(),
                    b0 == *old(b),
                    kept(b0, b1),
                    kept(b1, *b),
                    forall|k: int| 0 <= k < data@.len() ==> vars@.contains_key(#[trigger] data@[k]),
                decreases data@.len() - i,
            {
                let f_obj = lookup(vars, data[i]);
                let pf = struct_field(b, variable, i, &sd.fields[i]);
                let (pointer, _) = pf?;
                lift(store(&mut b.raw, pointer, f_obj))?;
                i = i + 1;
            }
        },
        _ => {},
    }
    vars.insert(st, variable);
    Ok(())
}

/// Loads a uniform buffer's data (through the block's single member) and
/// copies it into a new variable that `st` is mapped to.
fn process_load_uniform(b: &mut RSpirvBuilder, vars: &mut HashMap<usize, u32>, variable: u32, ty: &DataType, st: usize, var_block: usize) -> (r: Result<(), CompileError>)
    requires
        old(b).wf(),
    ensures
        kept(*old(b), *final(b)),
        r is Ok ==> final(vars)@.dom() == old(vars)@.dom().insert(st),
        r is Ok ==> map_kept_except(old(vars)@, final(vars)@, Set::empty().insert(st)),
{
    broadcast use lemma_kept_chain;
    let base_ty = b.data_type_id(ty);
    let base_p_ty = type_pointer(&mut b.raw, 2, base_ty);
    let index_obj = b.index_const(0);
    let field_pointer = lift(access_chain(&mut b.raw, base_p_ty, variable, vec![index_obj]))?;
    let obj = lift(load(&mut b.raw, base_ty, field_pointer))?;
    let res_var = b.data_variable(ty, var_block);
    let res_var = res_var?;
    let c = copy_composite(ty, b, res_var, obj);
    c?;
    vars.insert(st, res_var);
    Ok(())
}

/// Loads one field of a uniform buffer's struct (through the block's single
/// member, then the field) into a new variable that `st` is mapped to.
fn process_load_uniform_field(b: &mut RSpirvBuilder, vars: &mut HashMap<usize, u32>, uniform_variable: u32, f_index: usize, st: usize, ty: &DataType, f_ty: &DataType, var_block: usize) -> (r: Result<(), CompileError>)
    requires
        old(b).wf(),
    ensures
        kept(*old(b), *final(b)),
        r is Ok ==> final(vars)@.dom() == old(vars)@.dom().insert(st),
        r is Ok ==> map_kept_except(old(vars)@, final(vars)@, Set::empty().insert(st)),
        r is Ok ==> stores_result(final(b).raw, final(vars)@[st]) && back(current_block(final(b).raw).insts, 2) is Load,
{
    broadcast use lemma_kept_chain;
    let struct_index = b.index_const(0);
    let struct_ty = b.data_type_id(ty);
    let struct_p_ty = type_pointer(&mut b.raw, 2, struct_ty);
    let struct_p = lift(access_chain(&mut b.raw, struct_p_ty, uniform_variable, vec![struct_index]))?;
    #[verifier::truncate]
    let i32 = f_index as u32;
    let index_obj = b.index_const(i32);
    let field_ty = b.data_type_id(f_ty);
    let field_p_ty = type_pointer(&mut b.raw, 2, field_ty);
    let pointer = lift(access_chain(&mut b.raw, field_p_ty, struct_p, vec![index_obj]))?;
    let res_var = b.data_variable(f_ty, var_block);
    let res_var = res_var?;
    let field_obj = lift(load(&mut b.raw, field_ty, pointer))?;
    let ghost ga = b.raw;
    lift(store(&mut b.raw, res_var, field_obj))?;
    proof { lemma_result_stored(ga, ga, b.raw, var_block, 0, res_var); }
    vars.insert(st, res_var);
    Ok(())
}

/// Samples a texture through a sampler at the loaded coordinate (implicit
/// level of detail) into a new variable that `st` is mapped to.
fn process_sample(
    b: &mut RSpirvBuilder,
    vars: &mut HashMap<usize, u32>,
    texture: (u32, u32),
    sampler: (u32, u32),
    coordinate: usize,
    coordinate_ty: PrimitiveType,
    res_ty: PrimitiveType,
    st: usize,
    var_block: usize,
) -> (r: Result<(), CompileError>)
    requires
        old(b).wf(),
        old(vars)@.contains_key(coordinate),
    ensures
        kept(*old(b), *final(b)),
        r is Ok ==> final(vars)@.dom() == old(vars)@.dom().insert(st),
        r is Ok ==> map_kept_except(old(vars)@, final(vars)@, Set::empty().insert(st)),
        r is Ok ==> stores_result(final(b).raw, final(vars)@[st]) && back(current_block(final(b).raw).insts, 2) is SampleImplicitLod,
{
    broadcast use lemma_kept_chain;
    let tex_obj = lift(load(&mut b.raw, texture.1, texture.0))?;
    let sam_obj = lift(load(&mut b.raw, sampler.1, sampler.0))?;
    let sampled_image_ty = crate::spirv_api::type_sampled_image(&mut b.raw, texture.1);
    let sampled = lift(crate::spirv_api::sampled_image(&mut b.raw, sampled_image_ty, tex_obj, sam_obj))?;
    let res_spv_ty = b.prim_type_id(res_ty);
    let coord = b.load_prim(lookup(vars, coordinate), coordinate_ty);
    let coord = coord?;
    let res_obj = lift(crate::spirv_api::image_sample_implicit_lod(&mut b.raw, res_spv_ty, sampled, coord))?;
    let ghost ga = b.raw;
    let res_var = b.prim_variable(res_ty, var_block);
    let res_var = res_var?;
    let ghost gp = b.pointer_decl_id(prim_type_view(res_ty), 7)->Some_0;
    let ghost gb = b.raw;
    lift(store(&mut b.raw, res_var, res_obj))?;
    proof { lemma_result_stored(ga, gb, b.raw, var_block, gp, res_var); }
    vars.insert(st, res_var);
    Ok(())
}

/// Loads a boolean, negates it, and stores the result into a new boolean
/// variable that `out` is mapped to.
fn process_logical_not(b: &mut RSpirvBuilder, vars: &mut HashMap<usize, u32>, lhs: usize, out: usize, var_block: usize) -> (r: Result<(), CompileError>)
    requires
        old(b).wf(),
        old(vars)@.contains_key(lhs),
    ensures
        kept(*old(b), *final(b)),
        in_block(old(b).raw) && block_exists(old(b).raw, var_block) ==> r is Ok,
        r is Ok ==> in_block(final(b).raw) && forall|k: usize| #[trigger] block_exists(old(b).raw, k) ==> block_exists(final(b).raw, k),
        r is Ok ==> final(vars)@.dom() == old(vars)@.dom().insert(out),
        r is Ok ==> map_kept_except(old(vars)@, final(vars)@, Set::empty().insert(out)),
        r is Ok ==> stores_result(final(b).raw, final(vars)@[out]) && back(current_block(final(b).raw).insts, 2) is Un,
{
    broadcast use lemma_kept_chain;
    let ty = b.prim_type_id(PrimitiveType::Bool);
    let x = lift(load(&mut b.raw, ty, lookup(vars, lhs)))?;
    let v = lift(crate::spirv_api::logical_not(&mut b.raw, ty, x))?;
    let ghost ga = b.raw;
    let var = b.prim_variable(PrimitiveType::Bool, var_block);
    let var = var?;
    let ghost gp = b.pointer_decl_id(prim_type_view(PrimitiveType::Bool), 7)->Some_0;
    let ghost gb = b.raw;
    lift(store(&mut b.raw, var, v))?;
    proof { lemma_result_stored(ga, gb, b.raw, var_block, gp, var); }
    vars.insert(out, var);
    Ok(())
}

/// Stores the value of the variable of `data` into element `index` of the
/// array variable of `array`.
fn process_array_store(b: &mut RSpirvBuilder, vars: &HashMap<usize, u32>, array: usize, index: usize, data: usize, element_ty: PrimitiveType) -> (r: Result<(), CompileError>)
    requires
        old(b).wf(),
        vars@.contains_key(array),
        vars@.contains_key(data),
    ensures
        kept(*old(b), *final(b)),
        r is Ok ==> in_block(final(b).raw) && current_block(final(b).raw).insts.len() >= 2 && back(current_block(final(b).raw).insts, 1) is Store && back(current_block(final(b).raw).insts, 1)->Store_object == res_of(back(current_block(final(b).raw).insts, 2))
            && back(current_block(final(b).raw).insts, 2) is Load && back(current_block(final(b).raw).insts, 2)->Load_pointer == vars@[data],
{
    broadcast use lemma_kept_chain;
    let pe = array_element(b, vars, array, index, element_ty);
    let (p, elem_ty) = pe?;
    let obj = lift(load(&mut b.raw, elem_ty, lookup(vars, data)))?;
    lift(store(&mut b.raw, p, obj))
}

/// Loads element `index` of the array variable of `array` into a new
/// variable that `st` is mapped to.
fn process_array_load(b: &mut RSpirvBuilder, vars: &mut HashMap<usize, u32>, array: usize, index: usize, st: usize, element_ty: PrimitiveType, var_block: usize) -> (r: Result<(), CompileError>)
    requires
        old(b).wf(),
        old(vars)@.contains_key(array),
    ensures
        kept(*old(b), *final(b)),
        r is Ok ==> final(vars)@.dom() == old(vars)@.dom().insert(st),
        r is Ok ==> map_kept_except(old(vars)@, final(vars)@, Set::empty().insert(st)),
        r is Ok ==> stores_result(final(b).raw, final(vars)@[st]) && back(current_block(final(b).raw).insts, 2) is Load,
{
    broadcast use lemma_kept_chain;
    let pe = array_element(b, vars, array, index, element_ty);
    let (p, elem_ty) = pe?;
    let obj = lift(load(&mut b.raw, elem_ty, p))?;
    let ghost ga = b.raw;
    let var = b.prim_variable(element_ty, var_block);
    let var = var?;
    let ghost gp = b.pointer_decl_id(prim_type_view(element_ty), 7)->Some_0;
    let ghost gb = b.raw;
    lift(store(&mut b.raw, var, obj))?;
    proof { lemma_result_stored(ga, gb, b.raw, var_block, gp, var); }
    vars.insert(st, var);
    Ok(())
}

/// Loads field `field` of the struct variable of `struct_id` into a new
/// variable of the field's type that `st` is mapped to.
fn process_struct_load(b: &mut RSpirvBuilder, vars: &mut HashMap<usize, u32>, struct_id: usize, field: usize, ty: &DataType, st: usize, var_block: usize) -> (r: Result<(), CompileError>)
    requires
        old(b).wf(),
        old(vars)@.contains_key(struct_id),
    ensures
        kept(*old(b), *final(b)),
        r is Ok ==> final(vars)@.dom() == old(vars)@.dom().insert(st),
        r is Ok ==> map_kept_except(old(vars)@, final(vars)@, Set::empty().insert(st)),
        r is Ok ==> stores_result(final(b).raw, final(vars)@[st]) && back(current_block(final(b).raw).insts, 2) is Load,
{
    broadcast use lemma_kept_chain;
    let base = lookup(vars, struct_id);
    let pf = struct_field(b, base, field, ty);
    let (p, f_ty) = pf?;
    let obj = lift(load(&mut b.raw, f_ty, p))?;
    let ghost ga = b.raw;
    let var = b.data_variable(ty, var_block);
    let var = var?;
    let ghost gp = choose|pty: u32| var_put(ga, b.raw, var_block, pty, var);
    let ghost gb = b.raw;
    lift(store(&mut b.raw, var, obj))?;
    proof { lemma_result_stored(ga, gb, b.raw, var_block, gp, var); }
    vars.insert(st, var);
    Ok(())
}

/// An instruction whose lowering emits nothing and maps no variable: a
/// call, a return, or a chain with no branch and no `else` instructions.
pub open spec fn emits_nothing(i: Instruction) -> bool {
    match i {
        Instruction::FnCall { .. } | Instruction::Return { .. } => true,
        Instruction::IfChain { conditions, else_instructions, .. } => conditions@.len() == 0
            && (else_instructions matches Some(e) ==> e@.len() == 0),
        _ => false,
    }
}

/// The two-operand operation an instruction is lowered to, if it is one:
/// the operation, whether its operands are swapped, the recorded variables
/// it reads, and the one its result is stored to (the left operand for an
/// assignment). Arithmetic takes the instruction the operand types select
/// (`arith_op`, `mul_op`); bitwise and logical operations their own.
pub open spec fn binary_lowering(i: Instruction) -> Option<(BinOp, bool, usize, usize, usize, PrimitiveType)> {
    match i {
        Instruction::Add { lhs, rhs, res } => match arith_op(ArithKind::Add, lhs.1) {
            Some(o) => Some((o, false, lhs.0, rhs.0, res.0, res.1)),
            None => None,
        },
        Instruction::Sub { lhs, rhs, res } => match arith_op(ArithKind::Sub, lhs.1) {
            Some(o) => Some((o, false, lhs.0, rhs.0, res.0, res.1)),
            None => None,
        },
        Instruction::Div { lhs, rhs, res } => match arith_op(ArithKind::Div, lhs.1) {
            Some(o) => Some((o, false, lhs.0, rhs.0, res.0, res.1)),
            None => None,
        },
        Instruction::Mul { lhs, rhs, res } => match mul_op(lhs.1, rhs.1) {
            Some(m) => Some((m.0, m.1, lhs.0, rhs.0, res.0, res.1)),
            None => None,
        },
        Instruction::AddAssign { lhs, rhs } => match arith_op(ArithKind::Add, lhs.1) {
            Some(o) => Some((o, false, lhs.0, rhs.0, lhs.0, lhs.1)),
            None => None,
        },
        Instruction::SubAssign { lhs, rhs } => match arith_op(ArithKind::Sub, lhs.1) {
            Some(o) => Some((o, false, lhs.0, rhs.0, lhs.0, lhs.1)),
            None => None,
        },
        Instruction::DivAssign { lhs, rhs } => match arith_op(ArithKind::Div, lhs.1) {
            Some(o) => Some((o, false, lhs.0, rhs.0, lhs.0, lhs.1)),
            None => None,
        },
        Instruction::MulAssign { lhs, rhs } => match mul_op(lhs.1, rhs.1) {
            Some(m) => Some((m.0, m.1, lhs.0, rhs.0, lhs.0, lhs.1)),
            None => None,
        },
        Instruction::BitAnd { lhs, rhs, res } => Some((BinOp::BitwiseAnd, false, lhs.0, rhs.0, res.0, res.1)),
        Instruction::BitOr { lhs, rhs, res } => Some((BinOp::BitwiseOr, false, lhs.0, rhs.0, res.0, res.1)),
        Instruction::BitXor { lhs, rhs, res } => Some((BinOp::BitwiseXor, false, lhs.0, rhs.0, res.0, res.1)),
        Instruction::BitAndAssign { lhs, rhs } => Some((BinOp::BitwiseAnd, false, lhs.0, rhs.0, lhs.0, lhs.1)),
        Instruction::BitOrAssign { lhs, rhs } => Some((BinOp::BitwiseOr, false, lhs.0, rhs.0, lhs.0, lhs.1)),
        Instruction::BitXorAssign { lhs, rhs } => Some((BinOp::BitwiseXor, false, lhs.0, rhs.0, lhs.0, lhs.1)),
        Instruction::LogicalAnd { lhs, rhs, res } => Some((BinOp::LogicalAnd, false, lhs, rhs, res, PrimitiveType::Bool)),
        Instruction::LogicalOr { lhs, rhs, res } => Some((BinOp::LogicalOr, false, lhs, rhs, res, PrimitiveType::Bool)),
        Instruction::LogicalEqual { lhs, rhs, res } => Some((BinOp::LogicalEqual, false, lhs, rhs, res, PrimitiveType::Bool)),
        _ => None,
    }
}

/// The binary operation a two-operand instruction, or its assigning form,
/// records.
pub open spec fn recorded_operation(i: Instruction) -> Option<OpLhsRhsType> {
    match i {
        Instruction::Add { .. } | Instruction::AddAssign { .. } => Some(OpLhsRhsType::Add),
        Instruction::Sub { .. } | Instruction::SubAssign { .. } => Some(OpLhsRhsType::Sub),
        Instruction::Mul { .. } | Instruction::MulAssign { .. } => Some(OpLhsRhsType::Mul),
        Instruction::Div { .. } | Instruction::DivAssign { .. } => Some(OpLhsRhsType::Div),
        Instruction::BitAnd { .. } | Instruction::BitAndAssign { .. } => Some(OpLhsRhsType::BitAnd),
        Instruction::BitOr { .. } | Instruction::BitOrAssign { .. } => Some(OpLhsRhsType::BitOr),
        Instruction::BitXor { .. } | Instruction::BitXorAssign { .. } => Some(OpLhsRhsType::BitXor),
        Instruction::LogicalAnd { .. } => Some(OpLhsRhsType::LogicalAnd),
        Instruction::LogicalOr { .. } => Some(OpLhsRhsType::LogicalOr),
        Instruction::LogicalEqual { .. } => Some(OpLhsRhsType::LogicalEqual),
        _ => None,
    }
}

/// A two-operand instruction is lowered to an instruction that performs the
/// operation it records, on its left and right operands in that order, or
/// swapped for a scalar times a vector or matrix; an assignment stores the
/// result into its left operand, with the left operand's type.
pub proof fn law_binary_lowering_performs(i: Instruction)
    ensures
        binary_lowering(i) matches Some((op, swap, l, r, dst, ty)) ==> {
            &&& recorded_operation(i) is Some
            &&& performs(op) == recorded_operation(i)
            &&& (is_assign(i) ==> l == dst)
            &&& (i matches Instruction::Add { lhs, rhs, res } ==> l == lhs.0 && r == rhs.0 && dst == res.0 && ty == res.1)
            &&& (i matches Instruction::Sub { lhs, rhs, res } ==> l == lhs.0 && r == rhs.0 && dst == res.0 && ty == res.1)
            &&& (i matches Instruction::Mul { lhs, rhs, res } ==> l == lhs.0 && r == rhs.0 && dst == res.0 && ty == res.1)
            &&& (i matches Instruction::Div { lhs, rhs, res } ==> l == lhs.0 && r == rhs.0 && dst == res.0 && ty == res.1)
            &&& (swap ==> recorded_operation(i) == Some(OpLhsRhsType::Mul))
        },
{
}

/// An instruction whose lowering needs no more than a selected block and the
/// variable block to succeed: a two-operand operation, a logical not, storing
/// a constant, reading an input, writing an output, a `break` or a
/// `continue`.
pub open spec fn lowers_in_block(i: Instruction) -> bool {
    ||| binary_lowering(i) is Some
    ||| i is Store
    ||| i is StoreOut
    ||| i is LoadIn
    ||| i is LogicalNot
    ||| i is Break
    ||| i is Continue
}

/// A straight-line list: each instruction lowers in a selected block, and a
/// `break` or `continue` comes only last.
pub open spec fn straight_list(s: Seq<Instruction>) -> bool {
    forall|j: int| 0 <= j < s.len() ==> lowers_in_block(#[trigger] s[j]) && (s[j] is Break || s[j] is Continue ==> j == s.len() - 1)
}

/// A straight-line list with no `break` or `continue`: lowering it leaves a
/// block selected.
pub open spec fn plain_list(s: Seq<Instruction>) -> bool {
    &&& straight_list(s)
    &&& forall|j: int| 0 <= j < s.len() ==> !(#[trigger] s[j] is Break) && !(s[j] is Continue)
}

/// A compound assignment: its result goes back into its left operand.
pub open spec fn is_assign(i: Instruction) -> bool {
    ||| i is AddAssign
    ||| i is SubAssign
    ||| i is MulAssign
    ||| i is DivAssign
    ||| i is BitAndAssign
    ||| i is BitOrAssign
    ||| i is BitXorAssign
}

/// What lowering a two-operand instruction emits: the selected block ends
/// with the loads of its operands, the operation `binary_lowering` gives,
/// and the store of the result into the variable the result is mapped to.
pub open spec fn binary_emitted(i: Instruction, b: RSpirvBuilder, v0: Map<usize, u32>, v1: Map<usize, u32>, ext: u32) -> bool {
    let x = binary_lowering(i)->Some_0;
    &&& ends_with_binary(b.raw, x.0, x.1, v0[x.2], v0[x.3], v1[x.4], ext, b.prim_ty(x.5))
    &&& b.declares(prim_type_view(x.5), b.prim_ty(x.5))
}

/// What lowering an instruction other than a two-operand operation, a
/// branch or a loop leaves at the end of the selected block, in `b`, with
/// the variable maps `v0` before and `v1` after: the store of what it
/// computes into the variable its result is mapped to (after a load, a
/// shuffle, a composite, a logical not or a sample, as the instruction
/// asks), or for a store to an output, an array element or a struct field,
/// the store through that pointer.
pub open spec fn instr_effect(i: Instruction, b: Builder, v0: Map<usize, u32>, v1: Map<usize, u32>, res: PrimResources) -> bool {
    let s = current_block(b).insts;
    let b1 = back(s, 1);
    let b2 = back(s, 2);
    match i {
        Instruction::Store { store, .. } => in_block(b) && s.len() >= 1 && b1 is Store && b1->Store_pointer == v1[store],
        Instruction::StoreOut { index, read, .. } => in_block(b) && s.len() >= 2
            && b1 == InstView::Store { pointer: res.outputs@[index as int], object: res_of(b2) }
            && b2 is Load && b2->Load_pointer == v0[read],
        Instruction::LoadIn { index, store, .. } => stores_result(b, v1[store]) && b2 is Load
            && b2->Load_pointer == res.inputs@[index as int],
        Instruction::LoadUniformField { store, .. } => stores_result(b, v1[store]) && b2 is Load,
        Instruction::VectorShuffle { dst, .. } => stores_result(b, v1[dst.0]) && (b2 is VectorShuffle || b2 is Load),
        Instruction::VectorComposite { store, .. } => stores_result(b, v1[store]) && b2 is CompositeConstruct,
        Instruction::NewArray { store, .. } => in_block(b) && s.len() >= 1 && b1 is Store && b1->Store_pointer == v1[store],
        Instruction::ArrayStore { data, .. } => in_block(b) && s.len() >= 2 && b1 is Store
            && b1->Store_object == res_of(b2) && b2 is Load && b2->Load_pointer == v0[data],
        Instruction::ArrayLoad { store, .. } => stores_result(b, v1[store]) && b2 is Load,
        Instruction::StructStore { struct_id, data, .. } => in_block(b) && s.len() >= 2
            && b1 == InstView::Store { pointer: res_of(b2), object: v0[data] }
            && b2 is AccessChain && b2->AccessChain_base == v0[struct_id],
        Instruction::StructLoad { store, .. } => stores_result(b, v1[store]) && b2 is Load,
        Instruction::SampleTexture { store, .. } => stores_result(b, v1[store]) && b2 is SampleImplicitLod,
        Instruction::LogicalNot { res: out, .. } => stores_result(b, v1[out]) && b2 is Un,
        _ => true,
    }
}

/// The structure a conditional chain is lowered to, from `a` to `z`: its
/// branches in order through the states `bs` and maps `vs` with end labels
/// `ends`; then its `else` instructions, if any, lowered from `e0` to `e1`
/// in the last false block; then the chain closed through `ss`.
pub open spec fn ifchain_built(a: Builder, z: Builder, conds: Seq<usize>, blocks: Seq<Vec<Instruction>>,
    els: Option<Vec<Instruction>>, v0: Map<usize, u32>, v1: Map<usize, u32>, res: PrimResources, vb: usize,
    bs: Seq<Builder>, vs: Seq<Map<usize, u32>>, ends: Seq<u32>, e0: RSpirvBuilder, e1: RSpirvBuilder, ss: Seq<Builder>) -> bool
{
    let n = conds.len() as int;
    &&& chain_trace(conds, blocks, n, bs, vs, ends, res, vb)
    &&& bs[0] == a
    &&& vs[0] == v0
    &&& e0.raw == bs[n]
    &&& match els {
        Some(e) => list_lowered(e@, e0, e1, vs[n], v1, res, vb),
        None => e1 == e0 && v1 == vs[n],
    }
    &&& chain_closed(e1.raw, z, ends, ss)
}

/// A conditional chain was lowered from `a` to `z`.
pub open spec fn ifchain_done(a: Builder, z: Builder, conds: Seq<usize>, blocks: Seq<Vec<Instruction>>,
    els: Option<Vec<Instruction>>, v0: Map<usize, u32>, v1: Map<usize, u32>, res: PrimResources, vb: usize) -> bool
{
    exists|bs: Seq<Builder>, vs: Seq<Map<usize, u32>>, ends: Seq<u32>, e0: RSpirvBuilder, e1: RSpirvBuilder, ss: Seq<Builder>|
        #[trigger] ifchain_built(a, z, conds, blocks, els, v0, v1, res, vb, bs, vs, ends, e0, e1, ss)
}

/// Instruction `i` was lowered from builder `a` and variable map `v0` to
/// builder `b` and map `v1`, with the resources `res` and variable block
/// `vb`, as `Instruction::process` states it: the builder is kept, the map
/// gained what `i` defines, and the selected block ends with what `i` emits.
pub open spec fn step_ok(i: Instruction, a: RSpirvBuilder, b: RSpirvBuilder, v0: Map<usize, u32>, v1: Map<usize, u32>,
    res: PrimResources, vb: usize) -> bool
{
    &&& kept(a, b)
    &&& v1.dom() == instr_defs(i, v0.dom())
    &&& map_kept_except(v0, v1, defined_in(i))
    &&& instr_effect(i, b.raw, v0, v1, res)
    &&& (binary_lowering(i) is Some ==> binary_emitted(i, b, v0, v1, a.ext))
    &&& (binary_lowering(i) is Some && !is_assign(i) ==> var_first(b.raw, vb, v1[binary_lowering(i)->Some_0.4],
            b.pointer_decl_id(prim_type_view(binary_lowering(i)->Some_0.5), 7)->Some_0))
}

/// A run of lowering steps: builders `bs` and maps `vs`, one more of each
/// than the instructions, each instruction lowered from one to the next.
pub open spec fn list_trace(s: Seq<Instruction>, bs: Seq<RSpirvBuilder>, vs: Seq<Map<usize, u32>>, res: PrimResources, vb: usize) -> bool {
    &&& bs.len() == s.len() + 1
    &&& vs.len() == s.len() + 1
    &&& forall|j: int| 0 <= j < s.len() ==> #[trigger] step_ok(s[j], bs[j], bs[j + 1], vs[j], vs[j + 1], res, vb)
}

/// The list `s` was lowered in order from builder `a` and map `v0` to
/// builder `b` and map `v1`.
pub open spec fn list_lowered(s: Seq<Instruction>, a: RSpirvBuilder, b: RSpirvBuilder, v0: Map<usize, u32>, v1: Map<usize, u32>,
    res: PrimResources, vb: usize) -> bool
{
    exists|bs: Seq<RSpirvBuilder>, vs: Seq<Map<usize, u32>>| #[trigger] list_trace(s, bs, vs, res, vb)
        && bs[0] == a && bs[s.len() as int] == b && vs[0] == v0 && vs[s.len() as int] == v1
}

impl Instruction {
    /// Lowers the instruction into the selected block: the variables it
    /// reads are those recorded variables are mapped to, `break` and
    /// `continue` branch to the targets of the enclosing loop, and the
    /// variables it declares are put in block `var_block`. On success the
    /// recorded variables mapped are those mapped before and those the
    /// instruction defines. A two-operand operation leaves the selected block
    /// ending with the loads of its operands, the instruction the operand
    /// types select and the store of its result, in a new variable put first
    /// in `var_block` unless it is an assignment. A straight-line instruction,
    /// or a loop whose body is straight-line code, succeeds whenever a block
    /// is selected and `var_block` exists.
    pub fn process(
        &self,
        b: &mut RSpirvBuilder,
        vars: &mut HashMap<usize, u32>,
        res: &PrimResources,
        break_target: Option<u32>,
        continue_target: Option<u32>,
        var_block: usize,
    ) -> (r: Result<(), CompileError>)
        requires
            old(b).wf(),
            instr_ok(*self, old(vars)@.dom(), res.counts(), break_target is Some && continue_target is Some),
        ensures
            kept(*old(b), *final(b)),
            r is Ok ==> final(vars)@.dom() == instr_defs(*self, old(vars)@.dom()),
            r is Ok ==> map_kept_except(old(vars)@, final(vars)@, defined_in(*self)),
            emits_nothing(*self) ==> r is Ok && *final(b) == *old(b) && final(vars)@ == old(vars)@,
            lowers_in_block(*self) && in_block(old(b).raw) && block_exists(old(b).raw, var_block) ==> r is Ok,
            binary_lowering(*self) is Some && r is Ok ==> binary_emitted(*self, *final(b), old(vars)@, final(vars)@, old(b).ext),
            binary_lowering(*self) is Some && !is_assign(*self) && r is Ok
                ==> var_first(final(b).raw, var_block, final(vars)@[binary_lowering(*self)->Some_0.4],
                    final(b).pointer_decl_id(prim_type_view(binary_lowering(*self)->Some_0.5), 7)->Some_0),
            r is Ok ==> instr_effect(*self, final(b).raw, old(vars)@, final(vars)@, *res),
            r is Ok ==> step_ok(*self, *old(b), *final(b), old(vars)@, final(vars)@, *res, var_block),
            *self matches Instruction::Loop { condition, body } ==> (r is Ok ==> loop_done(old(b).raw, final(b).raw,
                old(vars)@[condition], body@, old(vars)@, final(vars)@, *res, var_block)),
            *self matches Instruction::IfChain { conditions, instructions, else_instructions } ==> (r is Ok ==> ifchain_done(
                old(b).raw, final(b).raw, conditions@, instructions@, else_instructions, old(vars)@, final(vars)@, *res, var_block)),
            *self is Break && r is Ok ==> terminated(old(b).raw, final(b).raw, InstView::Branch { target: break_target->Some_0 }),
            *self is Continue && r is Ok ==> terminated(old(b).raw, final(b).raw, InstView::Branch { target: continue_target->Some_0 }),
            *self matches Instruction::Loop { body, .. } ==> (plain_list(body@) && in_block(old(b).raw)
                && block_exists(old(b).raw, var_block) ==> r is Ok),
            *self matches Instruction::IfChain { conditions, instructions, else_instructions } ==> (
                (forall|j: int| 0 <= j < conditions@.len() ==> plain_list((#[trigger] instructions@[j])@))
                && (else_instructions matches Some(e) ==> plain_list(e@))
                && in_block(old(b).raw) && block_exists(old(b).raw, var_block) ==> r is Ok),
            lowers_in_block(*self) && !(*self is Break) && !(*self is Continue) ==> (r is Ok ==> in_block(final(b).raw) && forall|k: usize| #[trigger] block_exists(old(b).raw, k) ==> block_exists(final(b).raw, k)),
        decreases self, 0nat,
    {
        match self {
            Instruction::IfChain { conditions, instructions, else_instructions } => {
                let ends = process_chain(conditions, instructions, b, vars, res, break_target, continue_target, var_block);
                let ends = ends?;
                let ghost v1 = vars@;
                let ghost x = blocks_defs(instructions@, conditions@.len(), Set::empty());
                let ghost e0 = *b;
                match else_instructions {
                    Some(e) => {
                        let r = process_list(e, b, vars, res, break_target, continue_target, var_block);
                        r?;
                        proof {
                            lemma_map_kept_trans(old(vars)@, v1, vars@, x, list_defs(e@, Set::empty()));
                            lemma_list_defs_union(e@, x);
                        }
                    },
                    None => {},
                }
                let ghost e1 = *b;
                let r = close_chain(b, &ends);
                proof {
                    if r is Ok {
                        let n = conditions@.len() as int;
                        let (bs, vs) = choose|bs: Seq<Builder>, vs: Seq<Map<usize, u32>>| #[trigger] chain_trace(conditions@, instructions@, n, bs, vs, ends@, *res, var_block)
                            && bs[0] == old(b).raw && bs[n] == e0.raw && vs[0] == old(vars)@ && vs[n] == v1;
                        let ss = choose|ss: Seq<Builder>| #[trigger] chain_closed(e1.raw, b.raw, ends@, ss);
                        assert(ifchain_built(old(b).raw, b.raw, conditions@, instructions@, *else_instructions, old(vars)@, vars@, *res, var_block,
                            bs, vs, ends@, e0, e1, ss));
                    }
                }
                r
            },
            Instruction::Loop { condition, body } => process_loop(*condition, body, b, vars, res, var_block),
            _ => self.process_simple(b, vars, res, break_target, continue_target, var_block),
        }
    }

    /// Lowers an instruction other than a branch or loop, as `process` does.
    #[verifier::rlimit(60)]
    fn process_simple(
        &self,
        b: &mut RSpirvBuilder,
        vars: &mut HashMap<usize, u32>,
        res: &PrimResources,
        break_target: Option<u32>,
        continue_target: Option<u32>,
        var_block: usize,
    ) -> (r: Result<(), CompileError>)
        requires
            old(b).wf(),
            !(*self is IfChain),
            !(*self is Loop),
            simple_ok(*self, old(vars)@.dom(), res.counts(), break_target is Some && continue_target is Some),
        ensures
            kept(*old(b), *final(b)),
            r is Ok ==> final(vars)@.dom() == instr_defs(*self, old(vars)@.dom()),
            r is Ok ==> map_kept_except(old(vars)@, final(vars)@, defined_in(*self)),
            emits_nothing(*self) ==> r is Ok && *final(b) == *old(b) && final(vars)@ == old(vars)@,
            lowers_in_block(*self) && in_block(old(b).raw) && block_exists(old(b).raw, var_block) ==> r is Ok,
            binary_lowering(*self) is Some && r is Ok ==> binary_emitted(*self, *final(b), old(vars)@, final(vars)@, old(b).ext),
            binary_lowering(*self) is Some && !is_assign(*self) && r is Ok
                ==> var_first(final(b).raw, var_block, final(vars)@[binary_lowering(*self)->Some_0.4],
                    final(b).pointer_decl_id(prim_type_view(binary_lowering(*self)->Some_0.5), 7)->Some_0),
            r is Ok ==> instr_effect(*self, final(b).raw, old(vars)@, final(vars)@, *res),
            *self is Break && r is Ok ==> terminated(old(b).raw, final(b).raw, InstView::Branch { target: break_target->Some_0 }),
            *self is Continue && r is Ok ==> terminated(old(b).raw, final(b).raw, InstView::Branch { target: continue_target->Some_0 }),
            lowers_in_block(*self) && !(*self is Break) && !(*self is Continue) ==> (r is Ok ==> in_block(final(b).raw) && forall|k: usize| #[trigger] block_exists(old(b).raw, k) ==> block_exists(final(b).raw, k)),
    {
        match self {
            Instruction::Store { val, store: st } => {
                let v = val.set(b, var_block)?;
                vars.insert(*st, v);
                Ok(())
            },
            Instruction::Add { lhs, rhs, res: out } => {
                let op = match arith_choice(ArithKind::Add, lhs.1) { Some(o) => o, None => BinOp::IAdd };
                process_binary(b, vars, op, false, *lhs, *rhs, *out, var_block)
            },
            Instruction::Sub { lhs, rhs, res: out } => {
                let op = match arith_choice(ArithKind::Sub, lhs.1) { Some(o) => o, None => BinOp::ISub };
                process_binary(b, vars, op, false, *lhs, *rhs, *out, var_block)
            },
            Instruction::Mul { lhs, rhs, res: out } => {
                let (op, swap) = match get_mul_fn_p(lhs.1, rhs.1) { Some(o) => o, None => (BinOp::IMul, false) };
                process_binary(b, vars, op, swap, *lhs, *rhs, *out, var_block)
            },
            Instruction::Div { lhs, rhs, res: out } => {
                let op = match arith_choice(ArithKind::Div, lhs.1) { Some(o) => o, None => BinOp::SDiv };
                process_binary(b, vars, op, false, *lhs, *rhs, *out, var_block)
            },
            Instruction::AddAssign { lhs, rhs } => {
                let op = match arith_choice(ArithKind::Add, lhs.1) { Some(o) => o, None => BinOp::IAdd };
                process_assign(b, vars, op, false, *lhs, *rhs)
            },
            Instruction::SubAssign { lhs, rhs } => {
                let op = match arith_choice(ArithKind::Sub, lhs.1) { Some(o) => o, None => BinOp::ISub };
                process_assign(b, vars, op, false, *lhs, *rhs)
            },
            Instruction::MulAssign { lhs, rhs } => {
                let (op, swap) = match get_mul_fn_p(lhs.1, rhs.1) { Some(o) => o, None => (BinOp::IMul, false) };
                process_assign(b, vars, op, swap, *lhs, *rhs)
            },
            Instruction::DivAssign { lhs, rhs } => {
                let op = match arith_choice(ArithKind::Div, lhs.1) { Some(o) => o, None => BinOp::SDiv };
                process_assign(b, vars, op, false, *lhs, *rhs)
            },
            Instruction::BitAnd { lhs, rhs, res: out } => process_binary(b, vars, BinOp::BitwiseAnd, false, *lhs, *rhs, *out, var_block),
            Instruction::BitOr { lhs, rhs, res: out } => process_binary(b, vars, BinOp::BitwiseOr, false, *lhs, *rhs, *out, var_block),
            Instruction::BitXor { lhs, rhs, res: out } => process_binary(b, vars, BinOp::BitwiseXor, false, *lhs, *rhs, *out, var_block),
            Instruction::BitAndAssign { lhs, rhs } => process_assign(b, vars, BinOp::BitwiseAnd, false, *lhs, *rhs),
            Instruction::BitOrAssign { lhs, rhs } => process_assign(b, vars, BinOp::BitwiseOr, false, *lhs, *rhs),
            Instruction::BitXorAssign { lhs, rhs } => process_assign(b, vars, BinOp::BitwiseXor, false, *lhs, *rhs),
            Instruction::LogicalAnd { lhs, rhs, res: out } => process_logical(b, vars, BinOp::LogicalAnd, *lhs, *rhs, *out, var_block),
            Instruction::LogicalOr { lhs, rhs, res: out } => process_logical(b, vars, BinOp::LogicalOr, *lhs, *rhs, *out, var_block),
            Instruction::LogicalEqual { lhs, rhs, res: out } => process_logical(b, vars, BinOp::LogicalEqual, *lhs, *rhs, *out, var_block),
            Instruction::LogicalNot { lhs, res: out } => process_logical_not(b, vars, *lhs, *out, var_block),
            Instruction::VectorShuffle { src, dst, components } => process_vector_shuffle(b, vars, *src, *dst, *components, var_block),
            Instruction::VectorComposite { components, ty, store: st } => process_vector_composite(b, vars, *components, *ty, *st, var_block),
            Instruction::IfChain { .. } | Instruction::Loop { .. } => Ok(()),
            Instruction::LoadIn { index, ty, store: st } => process_load_in(b, vars, res.inputs[*index], *ty, *st, var_block),
            Instruction::StoreOut { index, ty, read } => {
                let obj = b.load_prim(lookup(vars, *read), *ty)?;
                let ghost ga = b.raw;
                let r = lift(store(&mut b.raw, res.outputs[*index], obj));
                proof {
                    if r is Ok {
                        let sa = current_block(ga).insts;
                        assert(current_block(b.raw).insts == sa.push(InstView::Store { pointer: res.outputs@[*index as int], object: obj }));
                    }
                }
                r
            },
            Instruction::LoadUniform { index, ty, store: st } => process_load_uniform(b, vars, res.uniforms[*index], ty, *st, var_block),
            Instruction::LoadUniformField { u_index, f_index, store: st, ty, f_ty } =>
                process_load_uniform_field(b, vars, res.uniforms[*u_index], *f_index, *st, ty, f_ty, var_block),
            Instruction::LoadStorage | Instruction::StoreStorage => Ok(()),
            Instruction::Break => {
                let t = match break_target { Some(t) => t, None => 0 };
                lift(crate::spirv_api::branch(&mut b.raw, t))
            },
            Instruction::Continue => {
                let t = match continue_target { Some(t) => t, None => 0 };
                lift(crate::spirv_api::branch(&mut b.raw, t))
            },
            Instruction::FnCall { .. } | Instruction::Return { .. } => Ok(()),
            Instruction::NewArray { store: st, ty, data } => process_new_array(b, vars, *st, *ty, data, var_block),
            Instruction::ArrayStore { array, index, data, element_ty } => process_array_store(b, vars, *array, *index, *data, *element_ty),
            Instruction::ArrayLoad { array, index, store: st, element_ty } => process_array_load(b, vars, *array, *index, *st, *element_ty, var_block),
            Instruction::NewStruct { store: st, ty, data } => process_new_struct(b, vars, *st, ty, data, var_block),
            Instruction::StructStore { struct_id, field, ty, data } => {
                let base = lookup(vars, *struct_id);
                let pf = struct_field(b, base, *field, ty);
                let (p, _) = pf?;
                let ghost ga = b.raw;
                let r = lift(store(&mut b.raw, p, lookup(vars, *data)));
                proof {
                    if r is Ok {
                        let sa = current_block(ga).insts;
                        assert(current_block(b.raw).insts == sa.push(InstView::Store { pointer: p, object: vars@[*data] }));
                    }
                }
                r
            },
            Instruction::StructLoad { struct_id, field, ty, store: st } => process_struct_load(b, vars, *struct_id, *field, ty, *st, var_block),
            Instruction::SampleTexture { texture, sampler, coordinate, coordinate_ty, res_ty, store: st } =>
                process_sample(b, vars, res.textures[*texture], res.samplers[*sampler], *coordinate, *coordinate_ty, *res_ty, *st, var_block),
        }
    }
}

/// Closes the selections of a chain from the innermost out: each branches to
/// its end label, which then begins.
fn close_chain(b: &mut RSpirvBuilder, ends: &Vec<u32>) -> (r: Result<(), CompileError>)
    requires
        old(b).wf(),
    ensures
        kept(*old(b), *final(b)),
        ends@.len() == 0 ==> r is Ok && *final(b) == *old(b),
        in_block(old(b).raw) ==> r is Ok && in_block(final(b).raw)
            && forall|j: usize| #[trigger] block_exists(old(b).raw, j) ==> block_exists(final(b).raw, j),
        r is Ok ==> exists|ss: Seq<Builder>| #[trigger] chain_closed(old(b).raw, final(b).raw, ends@, ss),
{
    let mut k: usize = ends.len();
    let ghost n = ends@.len() as int;
    let ghost mut ss: Seq<Builder> = seq![b.raw];
    while k > 0
        invariant
            k <= ends@.len(),
            n == ends@.len(),
            kept(*old(b), *b),
            ends@.len() == 0 ==> *b == *old(b),
            in_block(old(b).raw) ==> in_block(b.raw) && forall|j: usize| #[trigger] block_exists(old(b).raw, j) ==> block_exists(b.raw, j),
            ss.len() == 2 * (n - k) + 1,
            ss[0] == old(b).raw,
            ss[2 * (n - k)] == b.raw,
            forall|t: int| 0 <= t < n - k ==> #[trigger] terminated(ss[2 * t], ss[2 * t + 1], InstView::Branch { target: ends@[n - 1 - t] })
                && block_begun(ss[2 * t + 1], ss[2 * t + 2], ends@[n - 1 - t]),
        decreases k,
    {
        k = k - 1;
        let ghost sa = b.raw;
        lift(crate::spirv_api::branch(&mut b.raw, ends[k]))?;
        let ghost sb = b.raw;
        lift(crate::spirv_api::begin_block(&mut b.raw, Some(ends[k])))?;
        proof {
            let ss0 = ss;
            ss = ss.push(sb).push(b.raw);
            let t0 = n - 1 - k;
            assert(t0 == n - (k + 1));
            assert forall|t: int| 0 <= t < n - k implies #[trigger] terminated(ss[2 * t], ss[2 * t + 1], InstView::Branch { target: ends@[n - 1 - t] })
                && block_begun(ss[2 * t + 1], ss[2 * t + 2], ends@[n - 1 - t]) by {
                if t < t0 {
                    assert(ss[2 * t] == ss0[2 * t] && ss[2 * t + 1] == ss0[2 * t + 1] && ss[2 * t + 2] == ss0[2 * t + 2]);
                } else {
                    assert(ss[2 * t] == sa && ss[2 * t + 1] == sb && ss[2 * t + 2] == b.raw);
                }
            }
        }
    }
    proof {
        assert(chain_closed(old(b).raw, b.raw, ends@, ss));
    }
    Ok(())
}

/// Lowers a list in order; on success the recorded variables mapped are
/// those the list defines after those mapped before.
pub fn process_list(
    s: &Vec<Instruction>,
    b: &mut RSpirvBuilder,
    vars: &mut HashMap<usize, u32>,
    res: &PrimResources,
    break_target: Option<u32>,
    continue_target: Option<u32>,
    var_block: usize,
) -> (r: Result<(), CompileError>)
    requires
        old(b).wf(),
        list_ok(s@, old(vars)@.dom(), res.counts(), break_target is Some && continue_target is Some),
    ensures
        kept(*old(b), *final(b)),
        r is Ok ==> final(vars)@.dom() == list_defs(s@, old(vars)@.dom()),
        r is Ok ==> map_kept_except(old(vars)@, final(vars)@, list_defs(s@, Set::empty())),
        (forall|j: int| 0 <= j < s@.len() ==> emits_nothing(#[trigger] s@[j]))
            ==> r is Ok && *final(b) == *old(b) && final(vars)@ == old(vars)@,
        straight_list(s@) && in_block(old(b).raw) && block_exists(old(b).raw, var_block) ==> r is Ok,
        plain_list(s@) && in_block(old(b).raw) && block_exists(old(b).raw, var_block)
            ==> in_block(final(b).raw) && block_exists(final(b).raw, var_block),
        r is Ok ==> list_lowered(s@, *old(b), *final(b), old(vars)@, final(vars)@, *res, var_block),
    decreases s, 0nat,
{
    broadcast use lemma_kept_chain;
    let ghost d0 = vars@.dom();
    let ghost in_loop = break_target is Some && continue_target is Some;
    let mut k: usize = 0;
    let ghost mut bs: Seq<RSpirvBuilder> = seq![*b];
    let ghost mut vs: Seq<Map<usize, u32>> = seq![vars@];
    proof {
        assert(s@.take(0) =~= Seq::<Instruction>::empty());
        assert(map_kept_except(old(vars)@, vars@, Set::empty()));
    }
    while k < s.len()
        invariant
            k <= s@.len(),
            d0 == old(vars)@.dom(),
            in_loop == (break_target is Some && continue_target is Some),
            list_ok(s@, d0, res.counts(), in_loop),
            vars@.dom() == list_defs(s@.take(k as int), d0),
            map_kept_except(old(vars)@, vars@, list_defs(s@.take(k as int), Set::empty())),
            kept(*old(b), *b),
            (forall|j: int| 0 <= j < s@.len() ==> emits_nothing(#[trigger] s@[j])) ==> *b == *old(b) && vars@ == old(vars)@,
            straight_list(s@) && in_block(old(b).raw) && block_exists(old(b).raw, var_block) && (k < s@.len() || plain_list(s@))
                ==> in_block(b.raw) && block_exists(b.raw, var_block),
            bs.len() == k + 1,
            vs.len() == k + 1,
            bs[0] == *old(b),
            vs[0] == old(vars)@,
            bs[k as int] == *b,
            vs[k as int] == vars@,
            forall|j: int| 0 <= j < k ==> #[trigger] step_ok(s@[j], bs[j], bs[j + 1], vs[j], vs[j + 1], *res, var_block),
        decreases s@.len() - k,
    {
        proof {
            lemma_list_ok_prefix(s@, k as int + 1, d0, res.counts(), in_loop);
            assert(s@.take(k + 1).drop_last() =~= s@.take(k as int));
            assert(s@.take(k + 1).last() == s@[k as int]);
        }
        assert(decreases_to!(s => s@[k as int]));
        let ghost v0 = vars@;
        let ghost bk = *b;
        let ghost vk = vars@;
        s[k].process(b, vars, res, break_target, continue_target, var_block)?;
        proof {
            let bs0 = bs;
            let vs0 = vs;
            bs = bs.push(*b);
            vs = vs.push(vars@);
            assert forall|j: int| 0 <= j < k + 1 implies #[trigger] step_ok(s@[j], bs[j], bs[j + 1], vs[j], vs[j + 1], *res, var_block) by {
                if j < k {
                    assert(bs[j] == bs0[j] && bs[j + 1] == bs0[j + 1] && vs[j] == vs0[j] && vs[j + 1] == vs0[j + 1]);
                } else {
                    assert(bs[j] == bk && vs[j] == vk);
                }
            }
        }
        proof {
            if straight_list(s@) && in_block(old(b).raw) && block_exists(old(b).raw, var_block) && (k + 1 < s@.len() || plain_list(s@)) {
                assert(lowers_in_block(s@[k as int]));
                assert(!(s@[k as int] is Break) && !(s@[k as int] is Continue));
                assert(block_exists(bk.raw, var_block));
            }
        }
        proof {
            let x = list_defs(s@.take(k as int), Set::empty());
            lemma_map_kept_trans(old(vars)@, v0, vars@, x, defined_in(s@[k as int]));
            lemma_instr_defs_union(s@[k as int], x);
        }
        k = k + 1;
    }
    proof {
        assert(s@.take(s@.len() as int) =~= s@);
        assert(list_trace(s@, bs, vs, *res, var_block));
    }
    Ok(())
}

/// The structure one branch of a chain is lowered to, from `a` to `z`,
/// through the states `ss` and with the labels and ids `l` (true, false and
/// end labels, the loaded condition and its type): the selected block loads
/// the condition variable `cv`, declares the end label its selection's merge
/// block, and branches on the condition to the true or false block; the
/// branch's instructions are lowered in the true block from `b0` to `b1`,
/// which then branches to the end label; the false block, begun last, is
/// selected.
pub open spec fn branch_built(a: Builder, z: Builder, ss: Seq<Builder>, l: Seq<u32>, cv: u32, body: Seq<Instruction>,
    b0: RSpirvBuilder, b1: RSpirvBuilder, v0: Map<usize, u32>, v1: Map<usize, u32>, res: PrimResources, vb: usize) -> bool
{
    &&& ss.len() == 5
    &&& l.len() == 5
    &&& only_globals(a, ss[0])
    &&& appended(ss[0], ss[1], InstView::Load { ty: l[4], res: l[3], pointer: cv })
    &&& appended(ss[1], ss[2], InstView::SelectionMerge { merge: l[2] })
    &&& terminated(ss[2], ss[3], InstView::BranchConditional { condition: l[3], true_label: l[0], false_label: l[1] })
    &&& block_begun(ss[3], b0.raw, l[0])
    &&& list_lowered(body, b0, b1, v0, v1, res, vb)
    &&& terminated(b1.raw, ss[4], InstView::Branch { target: l[2] })
    &&& block_begun(ss[4], z, l[1])
}

/// A branch on condition variable `cv` with instructions `body` and end label
/// `end` was lowered from `a` to `z`.
pub open spec fn branch_done(a: Builder, z: Builder, cv: u32, body: Seq<Instruction>, v0: Map<usize, u32>, v1: Map<usize, u32>,
    res: PrimResources, vb: usize, end: u32) -> bool
{
    exists|ss: Seq<Builder>, l: Seq<u32>, b0: RSpirvBuilder, b1: RSpirvBuilder|
        #[trigger] branch_built(a, z, ss, l, cv, body, b0, b1, v0, v1, res, vb) && l[2] == end
}

/// The first `n` branches of a chain were lowered in order through the
/// states `bs` and maps `vs`, with end labels `ends`.
pub open spec fn chain_trace(conds: Seq<usize>, blocks: Seq<Vec<Instruction>>, n: int, bs: Seq<Builder>, vs: Seq<Map<usize, u32>>,
    ends: Seq<u32>, res: PrimResources, vb: usize) -> bool
{
    &&& bs.len() == n + 1
    &&& vs.len() == n + 1
    &&& ends.len() == n
    &&& forall|k: int| 0 <= k < n ==> #[trigger] branch_done(bs[k], bs[k + 1], vs[k][conds[k]], blocks[k]@, vs[k], vs[k + 1], res, vb, ends[k])
}

/// Closing a chain from `a` to `z`: through the states `ss` (two for each
/// end label), each end label from the innermost out is branched to and
/// begun.
pub open spec fn chain_closed(a: Builder, z: Builder, ends: Seq<u32>, ss: Seq<Builder>) -> bool {
    let n = ends.len() as int;
    &&& ss.len() == 2 * n + 1
    &&& ss[0] == a
    &&& module_view(ss[2 * n]) == module_view(z)
    &&& forall|k: int| 0 <= k < n ==> #[trigger] terminated(ss[2 * k], ss[2 * k + 1], InstView::Branch { target: ends[n - 1 - k] })
        && block_begun(ss[2 * k + 1], ss[2 * k + 2], ends[n - 1 - k])
}

/// Lowers the first `conditions.len()` branches of a chain: each loads its
/// condition, opens a selection with fresh true, false and end labels, lowers
/// its block under the true label, branches to the end and begins the false
/// label, where the next branch goes. Returns the end labels in order.
fn process_chain(
    conditions: &Vec<usize>,
    blocks: &Vec<Vec<Instruction>>,
    b: &mut RSpirvBuilder,
    vars: &mut HashMap<usize, u32>,
    res: &PrimResources,
    break_target: Option<u32>,
    continue_target: Option<u32>,
    var_block: usize,
) -> (r: Result<Vec<u32>, CompileError>)
    requires
        old(b).wf(),
        conditions@.len() <= blocks@.len(),
        chain_ok(conditions@, blocks@, conditions@.len(), old(vars)@.dom(), res.counts(), break_target is Some && continue_target is Some),
    ensures
        kept(*old(b), *final(b)),
        r is Ok ==> final(vars)@.dom() == blocks_defs(blocks@, conditions@.len(), old(vars)@.dom()),
        r is Ok ==> map_kept_except(old(vars)@, final(vars)@, blocks_defs(blocks@, conditions@.len(), Set::empty())),
        conditions@.len() == 0 ==> (r matches Ok(e) && e@.len() == 0) && *final(b) == *old(b) && final(vars)@ == old(vars)@,
        (forall|j: int| 0 <= j < conditions@.len() ==> plain_list((#[trigger] blocks@[j])@)) && in_block(old(b).raw)
            && block_exists(old(b).raw, var_block) ==> r is Ok && in_block(final(b).raw) && block_exists(final(b).raw, var_block),
        r is Ok ==> exists|bs: Seq<Builder>, vs: Seq<Map<usize, u32>>| #[trigger] chain_trace(conditions@, blocks@, conditions@.len() as int, bs, vs, r->Ok_0@, *res, var_block)
            && bs[0] == old(b).raw && bs[conditions@.len() as int] == final(b).raw && vs[0] == old(vars)@ && vs[conditions@.len() as int] == final(vars)@,
    decreases blocks, 1nat,
{
    broadcast use lemma_kept_chain;
    let ghost d0 = vars@.dom();
    let ghost in_loop = break_target is Some && continue_target is Some;
    let n = conditions.len();
    let mut ends: Vec<u32> = Vec::new();
    let mut k: usize = 0;
    let ghost mut bs: Seq<Builder> = seq![b.raw];
    let ghost mut vs: Seq<Map<usize, u32>> = seq![vars@];
    proof {
        assert(map_kept_except(old(vars)@, vars@, Set::empty()));
    }
    while k < n
        invariant
            n == conditions@.len(),
            n <= blocks@.len(),
            k <= n,
            d0 == old(vars)@.dom(),
            in_loop == (break_target is Some && continue_target is Some),
            chain_ok(conditions@, blocks@, n as nat, d0, res.counts(), in_loop),
            vars@.dom() == blocks_defs(blocks@, k as nat, d0),
            map_kept_except(old(vars)@, vars@, blocks_defs(blocks@, k as nat, Set::empty())),
            kept(*old(b), *b),
            ends@.len() == k,
            n == 0 ==> *b == *old(b) && vars@ == old(vars)@,
            (forall|j: int| 0 <= j < conditions@.len() ==> plain_list((#[trigger] blocks@[j])@)) && in_block(old(b).raw)
                && block_exists(old(b).raw, var_block) ==> in_block(b.raw) && block_exists(b.raw, var_block),
            chain_trace(conditions@, blocks@, k as int, bs, vs, ends@, *res, var_block),
            bs[0] == old(b).raw,
            vs[0] == old(vars)@,
            bs[k as int] == b.raw,
            vs[k as int] == vars@,
        decreases n - k,
    {
        proof {
            lemma_chain_ok_prefix(conditions@, blocks@, n as nat, (k + 1) as nat, d0, res.counts(), in_loop);
        }
        let ghost sa = b.raw;
        let cond_ty = crate::spirv_api::type_bool(&mut b.raw);
        let ghost s0 = b.raw;
        let cond = lift(load(&mut b.raw, cond_ty, lookup(vars, conditions[k])))?;
        let ghost s1 = b.raw;
        let true_label = next_id(&mut b.raw);
        let false_label = next_id(&mut b.raw);
        let end_label = next_id(&mut b.raw);
        let block = match selected_block(&b.raw) {
            Some(x) => x,
            None => {
                return Err(CompileError::NoBlock);
            },
        };
        lift(crate::spirv_api::selection_merge(&mut b.raw, end_label))?;
        let ghost s2 = b.raw;
        lift(select_block(&mut b.raw, Some(block)))?;
        lift(crate::spirv_api::branch_conditional(&mut b.raw, cond, true_label, false_label))?;
        let ghost s3 = b.raw;
        lift(crate::spirv_api::begin_block(&mut b.raw, Some(true_label)))?;
        assert(decreases_to!(blocks => blocks@[k as int]));
        let ghost v0 = vars@;
        let ghost b0 = *b;
        let r = process_list(&blocks[k], b, vars, res, break_target, continue_target, var_block);
        r?;
        let ghost b1 = *b;
        proof {
            let x = blocks_defs(blocks@, k as nat, Set::empty());
            lemma_map_kept_trans(old(vars)@, v0, vars@, x, list_defs(blocks@[k as int]@, Set::empty()));
            lemma_list_defs_union(blocks@[k as int]@, x);
        }
        lift(crate::spirv_api::branch(&mut b.raw, end_label))?;
        let ghost s4 = b.raw;
        lift(crate::spirv_api::begin_block(&mut b.raw, Some(false_label)))?;
        let ghost e0 = ends@;
        ends.push(end_label);
        proof {
            let ss = seq![s0, s1, s2, s3, s4];
            let l = seq![true_label, false_label, end_label, cond, cond_ty];
            assert(branch_built(sa, b.raw, ss, l, vs[k as int][conditions@[k as int]], blocks@[k as int]@, b0, b1, v0, vars@, *res, var_block));
            assert(branch_done(sa, b.raw, vs[k as int][conditions@[k as int]], blocks@[k as int]@, v0, vars@, *res, var_block, end_label));
            let bs0 = bs;
            let vs0 = vs;
            bs = bs.push(b.raw);
            vs = vs.push(vars@);
            assert forall|j: int| 0 <= j < k + 1 implies #[trigger] branch_done(bs[j], bs[j + 1], vs[j][conditions@[j]], blocks@[j]@, vs[j], vs[j + 1], *res, var_block, ends@[j]) by {
                if j < k {
                    assert(bs[j] == bs0[j] && bs[j + 1] == bs0[j + 1] && vs[j] == vs0[j] && vs[j + 1] == vs0[j + 1] && ends@[j] == e0[j]);
                } else {
                    assert(bs[j] == sa && vs[j] == v0);
                }
            }
        }
        k = k + 1;
    }
    proof {
        assert(chain_trace(conditions@, blocks@, conditions@.len() as int, bs, vs, ends@, *res, var_block));
        assert(bs[0] == old(b).raw && bs[conditions@.len() as int] == b.raw && vs[0] == old(vars)@
            && vs[conditions@.len() as int] == vars@);
    }
    let out: Result<Vec<u32>, CompileError> = Ok(ends);
    assert(out->Ok_0@ == ends@);
    out
}

/// Lowers a loop: a header block with the loop merge, a block testing the
/// condition that leaves to the merge block, the body (whose `break` and
/// `continue` go to the merge block and the continue block), and a continue
/// block branching back to the header; lowering goes on in the merge block.
/// `b` is `a` with a new empty block labelled `label` begun in the selected
/// function and selected.
pub open spec fn block_begun(a: Builder, b: Builder, label: u32) -> bool {
    let v = module_view(a);
    let f = v.function->Some_0 as int;
    &&& v.function is Some
    &&& module_view(b) == (ModuleView {
        functions: v.functions.update(f, v.functions[f].push(BlockView { label, insts: Seq::empty() })),
        block: Some(v.functions[f].len() as usize),
        ..v
    })
}

/// The structure a loop is lowered to, from `a` to `z`, through the states
/// `ss` and with the labels and ids `l` (start, merge, condition, continue
/// and body labels, the loaded condition and its type): the selected block
/// branches to the start block, which declares the merge and continue
/// blocks and branches to the condition block; that one loads the condition
/// variable `cv` and branches on it to the body block or the merge block; the
/// body is lowered from `b0` to `b1` and branches to the continue block,
/// which branches back to the start; the merge block, begun last, is
/// selected.
pub open spec fn loop_built(a: Builder, z: Builder, ss: Seq<Builder>, l: Seq<u32>, cv: u32, body: Seq<Instruction>,
    b0: RSpirvBuilder, b1: RSpirvBuilder, v0: Map<usize, u32>, v1: Map<usize, u32>, res: PrimResources, vb: usize) -> bool
{
    &&& ss.len() == 11
    &&& l.len() == 7
    &&& terminated(a, ss[0], InstView::Branch { target: l[0] })
    &&& block_begun(ss[0], ss[1], l[0])
    &&& appended(ss[1], ss[2], InstView::LoopMerge { merge: l[1], continue_target: l[3] })
    &&& terminated(ss[2], ss[3], InstView::Branch { target: l[2] })
    &&& block_begun(ss[3], ss[4], l[2])
    &&& only_globals(ss[4], ss[5])
    &&& appended(ss[5], ss[6], InstView::Load { ty: l[6], res: l[5], pointer: cv })
    &&& terminated(ss[6], ss[7], InstView::BranchConditional { condition: l[5], true_label: l[4], false_label: l[1] })
    &&& block_begun(ss[7], b0.raw, l[4])
    &&& list_lowered(body, b0, b1, v0, v1, res, vb)
    &&& terminated(b1.raw, ss[8], InstView::Branch { target: l[3] })
    &&& block_begun(ss[8], ss[9], l[3])
    &&& terminated(ss[9], ss[10], InstView::Branch { target: l[0] })
    &&& block_begun(ss[10], z, l[1])
}

/// A loop on condition variable `cv` with `body` was lowered from `a` to `z`.
pub open spec fn loop_done(a: Builder, z: Builder, cv: u32, body: Seq<Instruction>, v0: Map<usize, u32>, v1: Map<usize, u32>,
    res: PrimResources, vb: usize) -> bool
{
    exists|ss: Seq<Builder>, l: Seq<u32>, b0: RSpirvBuilder, b1: RSpirvBuilder|
        #[trigger] loop_built(a, z, ss, l, cv, body, b0, b1, v0, v1, res, vb)
}

fn process_loop(
    condition: usize,
    body: &Vec<Instruction>,
    b: &mut RSpirvBuilder,
    vars: &mut HashMap<usize, u32>,
    res: &PrimResources,
    var_block: usize,
) -> (r: Result<(), CompileError>)
    requires
        old(b).wf(),
        old(vars)@.contains_key(condition),
        list_ok(body@, old(vars)@.dom(), res.counts(), true),
    ensures
        kept(*old(b), *final(b)),
        r is Ok ==> final(vars)@.dom() == list_defs(body@, old(vars)@.dom()),
        r is Ok ==> map_kept_except(old(vars)@, final(vars)@, list_defs(body@, Set::empty())),
        plain_list(body@) && in_block(old(b).raw) && block_exists(old(b).raw, var_block) ==> r is Ok,
        plain_list(body@) && r is Ok ==> in_block(final(b).raw)
            && (block_exists(old(b).raw, var_block) ==> block_exists(final(b).raw, var_block)),
        r is Ok ==> loop_done(old(b).raw, final(b).raw, old(vars)@[condition], body@, old(vars)@, final(vars)@, *res, var_block),
    decreases body, 1nat,
{
    broadcast use lemma_kept_chain;
    let start = next_id(&mut b.raw);
    lift(crate::spirv_api::branch(&mut b.raw, start))?;
    let ghost s0 = b.raw;
    lift(crate::spirv_api::begin_block(&mut b.raw, Some(start)))?;
    let ghost s1 = b.raw;
    let merge_block = next_id(&mut b.raw);
    let condition_block = next_id(&mut b.raw);
    let continue_target = next_id(&mut b.raw);
    let block = match selected_block(&b.raw) {
        Some(x) => x,
        None => {
            return Err(CompileError::NoBlock);
        },
    };
    lift(crate::spirv_api::loop_merge(&mut b.raw, merge_block, continue_target))?;
    let ghost s2 = b.raw;
    lift(select_block(&mut b.raw, Some(block)))?;
    lift(crate::spirv_api::branch(&mut b.raw, condition_block))?;
    let ghost s3 = b.raw;
    lift(crate::spirv_api::begin_block(&mut b.raw, Some(condition_block)))?;
    let ghost s4 = b.raw;
    let condition_type = crate::spirv_api::type_bool(&mut b.raw);
    let ghost s5 = b.raw;
    let cond = lift(load(&mut b.raw, condition_type, lookup(vars, condition)))?;
    let ghost s6 = b.raw;
    let body_block = next_id(&mut b.raw);
    lift(crate::spirv_api::branch_conditional(&mut b.raw, cond, body_block, merge_block))?;
    let ghost s7 = b.raw;
    lift(crate::spirv_api::begin_block(&mut b.raw, Some(body_block)))?;
    let ghost b0 = *b;
    let ghost v0 = vars@;
    let r = process_list(body, b, vars, res, Some(merge_block), Some(continue_target), var_block);
    r?;
    let ghost b1 = *b;
    lift(crate::spirv_api::branch(&mut b.raw, continue_target))?;
    let ghost s8 = b.raw;
    lift(crate::spirv_api::begin_block(&mut b.raw, Some(continue_target)))?;
    let ghost s9 = b.raw;
    lift(crate::spirv_api::branch(&mut b.raw, start))?;
    let ghost s10 = b.raw;
    lift(crate::spirv_api::begin_block(&mut b.raw, Some(merge_block)))?;
    proof {
        let ss = seq![s0, s1, s2, s3, s4, s5, s6, s7, s8, s9, s10];
        let l = seq![start, merge_block, condition_block, continue_target, body_block, cond, condition_type];
        assert(loop_built(old(b).raw, b.raw, ss, l, old(vars)@[condition], body@, b0, b1, old(vars)@, vars@, *res, var_block));
    }
    Ok(())
}

} // verus!
