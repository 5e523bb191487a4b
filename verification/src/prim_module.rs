//! A single-entry shader module recorded over primitive-typed variables:
//! its declared inputs, outputs and uniform buffers, and the instructions of
//! its `main` function, which `compile` lowers to SPIR-V words.

use std::collections::{HashMap, HashSet};
use rspirv::dr::Builder;
use vstd::prelude::*;

use crate::builder::{builtin_code, IOLocation, ShaderStage};
use crate::compile::{lemma_builtin_codes, name_opt, set_and_binding};
use crate::data::DataType;
use crate::emit::{annot_prefix, kept, lemma_kept_trans, lift, CompileError, RSpirvBuilder};
use crate::prim::PrimitiveType;
use crate::prim_ir::{check_list, list_ok, Instruction, PrimCounts};
use crate::prim_lower::{list_lowered, process_list, PrimResources};
use crate::scope::{slab_entries, slab_insert, slab_new, slab_replace, NameSlab};
use crate::spirv_api::{
    assemble, begin_block, begin_function, capability, decorate, end_function, entry_point, ext_inst_import,
    memory_model, name, new_module_builder, ret, selected_block, set_version, type_function, type_pointer,
    type_struct, type_void, variable, SpvOperand, module_view, has_var, lemma_has_var_prefix, seq_prefix, AnnotView,
    has_annot, in_block, current_block, terminated, InstView, ModuleView,
};

verus! {

broadcast use vstd::std_specs::hash::group_hash_axioms;

/// A declared input or output: its type, its location or built-in, and its
/// name.
pub type PrimIO = (PrimitiveType, IOLocation, Option<String>);

/// A shader module of one entry point, `main`: the stage, the declared
/// inputs and outputs in order, the uniform buffers with their descriptor set
/// and binding, the instructions of `main` and the variable numbers handed
/// out for it, and the bodies of other functions by number, which are kept
/// but not built into the module.
pub struct PrimModule {
    pub stage: ShaderStage,
    pub inputs: Vec<PrimIO>,
    pub outputs: Vec<PrimIO>,
    pub uniforms: Vec<(DataType, u32, u32)>,
    pub main: Vec<Instruction>,
    pub variables: Variables,
    pub functions: HashMap<usize, Vec<Instruction>>,
}

impl PrimModule {
    /// `m` is the module built from this one, through the resources `res`:
    /// each input, output and uniform buffer declared as its variable with
    /// its location, built-in, descriptor set and binding; a single function
    /// whose first block, empty and selected in `b0`, is where `main` was
    /// lowered, from an empty variable map, to `b1`; then a return ends the
    /// block selected in `b1`, giving `m2`, and the function ends.
    pub open spec fn module_built(self, m: Builder, res: PrimResources, b0: RSpirvBuilder, b1: RSpirvBuilder,
        v1: Map<usize, u32>, m2: Builder) -> bool
    {
        &&& res.inputs@.len() == self.inputs@.len()
        &&& res.outputs@.len() == self.outputs@.len()
        &&& res.uniforms@.len() == self.uniforms@.len()
        &&& res.textures@.len() == 0
        &&& res.samplers@.len() == 0
        &&& forall|i: int| 0 <= i < self.inputs@.len() ==> io_declared(m, #[trigger] res.inputs@[i], 1, self.inputs@[i])
        &&& forall|i: int| 0 <= i < self.outputs@.len() ==> io_declared(m, #[trigger] res.outputs@[i], 3, self.outputs@[i])
        &&& forall|i: int| 0 <= i < self.uniforms@.len() ==> uniform_declared(m, #[trigger] res.uniforms@[i], self.uniforms@[i])
        &&& module_view(b0.raw).functions.len() == 1
        &&& module_view(b0.raw).functions[0].len() == 1
        &&& module_view(b0.raw).functions[0][0].insts.len() == 0
        &&& module_view(b0.raw).function == Some(0usize)
        &&& module_view(b0.raw).block == Some(0usize)
        &&& list_lowered(self.main@, b0, b1, Map::<usize, u32>::empty(), v1, res, 0)
        &&& terminated(b1.raw, m2, InstView::Return)
        &&& module_view(m) == (ModuleView { function: None, ..module_view(m2) })
        &&& module_view(m).capabilities == seq![1u32]
        &&& module_view(m).entry_points.len() == 1
        &&& module_view(m).entry_points[0].model == crate::builder::stage_model(self.stage)
        &&& module_view(m).entry_points[0].name == "main"@
        &&& module_view(m).entry_points[0].interface == res.inputs@ + res.outputs@
        &&& module_view(m).execution_modes.len() == 0
    }

    /// `m` is the module built from this one.
    pub open spec fn compiled_as(self, m: Builder) -> bool {
        exists|res: PrimResources, b0: RSpirvBuilder, b1: RSpirvBuilder, v1: Map<usize, u32>, m2: Builder|
            #[trigger] self.module_built(m, res, b0, b1, v1, m2)
    }

    /// An empty module of the given stage.
    pub fn new(stage: ShaderStage) -> (r: PrimModule)
        ensures
            r.stage == stage,
            r.inputs@.len() == 0,
            r.outputs@.len() == 0,
            r.uniforms@.len() == 0,
            r.main@.len() == 0,
            r.variables.view_vars().dom().is_empty(),
            r.functions@.dom().is_empty(),
    {
        PrimModule {
            stage,
            inputs: Vec::new(),
            outputs: Vec::new(),
            uniforms: Vec::new(),
            main: Vec::new(),
            variables: Variables::new(),
            functions: HashMap::new(),
        }
    }

    /// Keeps `body` as the body of function `id`, in place of one kept before.
    pub fn set_function(&mut self, id: usize, body: Vec<Instruction>)
        ensures
            final(self).functions@ == old(self).functions@.insert(id, body),
            final(self).main@ == old(self).main@,
            final(self).inputs@ == old(self).inputs@,
            final(self).outputs@ == old(self).outputs@,
            final(self).uniforms@ == old(self).uniforms@,
            final(self).stage == old(self).stage,
    {
        self.functions.insert(id, body);
    }

    /// Hands out a variable number of `main` not handed out before.
    pub fn new_var(&mut self) -> (id: usize)
        ensures
            !old(self).variables.view_vars().dom().contains(id),
            final(self).variables.view_vars() == old(self).variables.view_vars().insert(id, None),
            final(self).main@ == old(self).main@,
            final(self).inputs@ == old(self).inputs@,
            final(self).outputs@ == old(self).outputs@,
            final(self).uniforms@ == old(self).uniforms@,
    {
        self.variables.get_new_id()
    }

    /// Declares an input at a location and returns its index: the number of
    /// inputs before it.
    pub fn input(&mut self, ty: PrimitiveType, location: u32, name: Option<String>) -> (r: usize)
        ensures
            r == old(self).inputs@.len(),
            final(self).inputs@ == old(self).inputs@.push((ty, IOLocation::Location(location), name)),
            final(self).outputs@ == old(self).outputs@,
            final(self).uniforms@ == old(self).uniforms@,
            final(self).main@ == old(self).main@,
            final(self).stage == old(self).stage,
    {
        let index = self.inputs.len();
        self.inputs.push((ty, IOLocation::Location(location), name));
        index
    }

    /// Declares an output at a location. The index it returns is the number
    /// of inputs declared so far, not of outputs.
    pub fn output(&mut self, ty: PrimitiveType, location: u32, name: Option<String>) -> (r: usize)
        ensures
            r == old(self).inputs@.len(),
            final(self).outputs@ == old(self).outputs@.push((ty, IOLocation::Location(location), name)),
            final(self).inputs@ == old(self).inputs@,
            final(self).uniforms@ == old(self).uniforms@,
            final(self).main@ == old(self).main@,
            final(self).stage == old(self).stage,
    {
        let index = self.inputs.len();
        self.outputs.push((ty, IOLocation::Location(location), name));
        index
    }

    /// Declares a uniform buffer of a data type with its descriptor set and
    /// binding, and returns its index.
    pub fn uniform(&mut self, ty: DataType, set: u32, binding: u32) -> (r: usize)
        ensures
            r == old(self).uniforms@.len(),
            final(self).uniforms@ == old(self).uniforms@.push((ty, set, binding)),
            final(self).inputs@ == old(self).inputs@,
            final(self).outputs@ == old(self).outputs@,
            final(self).main@ == old(self).main@,
            final(self).stage == old(self).stage,
    {
        let index = self.uniforms.len();
        self.uniforms.push((ty, set, binding));
        index
    }

    /// Appends an instruction to `main`.
    pub fn push_instruction(&mut self, i: Instruction)
        ensures
            final(self).main@ == old(self).main@.push(i),
            final(self).inputs@ == old(self).inputs@,
            final(self).outputs@ == old(self).outputs@,
            final(self).uniforms@ == old(self).uniforms@,
            final(self).stage == old(self).stage,
    {
        self.main.push(i);
    }

    /// How many of each resource the module declares; it declares no
    /// textures or samplers.
    pub open spec fn counts(self) -> PrimCounts {
        PrimCounts {
            inputs: self.inputs@.len() as usize,
            outputs: self.outputs@.len() as usize,
            uniforms: self.uniforms@.len() as usize,
            textures: 0,
            samplers: 0,
        }
    }

    /// `main` can be lowered: in order from no defined variable, outside any
    /// loop.
    pub open spec fn compilable(self) -> bool {
        list_ok(self.main@, Set::empty(), self.counts(), false)
    }

    /// Whether `main` can be lowered.
    pub fn check(&self) -> (r: bool)
        ensures
            r == self.compilable(),
    {
        let mut d: HashSet<usize> = HashSet::new();
        let c = PrimCounts {
            inputs: self.inputs.len(),
            outputs: self.outputs.len(),
            uniforms: self.uniforms.len(),
            textures: 0,
            samplers: 0,
        };
        proof {
            assert(d@ =~= Set::<usize>::empty());
        }
        check_list(&self.main, &mut d, &c, false)
    }

    /// Builds the SPIR-V module: a SPIR-V 1.0 shader module with the
    /// GLSL.std.450 instruction set and the GLSL450 memory model; a void
    /// function `main`; each uniform buffer as a `Block` struct around its data
    /// type with a `Uniform` variable of it decorated with its set and
    /// binding; the inputs and outputs with their locations or built-ins and
    /// names; `main` as the entry point of the stage listing the inputs, then
    /// the outputs; and `main`'s instructions lowered in order in its first
    /// block, then a return. The words start with the SPIR-V header, and are
    /// those of a module built from this one (`compiled_as`): its
    /// declarations, its entry point, and `main` lowered instruction by
    /// instruction as `Instruction::process` states. A `main` of
    /// straight-line code always compiles.
    pub fn compile(&self) -> (r: Result<Vec<u32>, CompileError>)
        requires
            self.compilable(),
        ensures
            r matches Ok(w) ==> w@.len() >= 5 && w@[0] == 0x0723_0203 && w@[4] == 0,
            r matches Ok(w) ==> exists|m: Builder| #[trigger] crate::spirv_api::module_words(m) == w@
                && crate::spirv_api::module_view(m).functions.len() == 1 && self.compiled_as(m),
            crate::prim_lower::plain_list(self.main@) ==> r is Ok,
    {
        let mut raw = new_module_builder();
        let ext = ext_inst_import(&mut raw, "GLSL.std.450");
        let mut b = RSpirvBuilder { raw, ext, struct_map: Vec::new() };
        set_version(&mut b.raw, 1, 0);
        capability(&mut b.raw, 1);
        memory_model(&mut b.raw, 0, 1);
        let void = type_void(&mut b.raw);
        let void_f = type_function(&mut b.raw, void, Vec::new());
        let main = lift(begin_function(&mut b.raw, void, void_f))?;
        name(&mut b.raw, main, "main");
        let uniforms = declare_uniforms(&mut b, &self.uniforms);
        let ghost bu = b.raw;
        let inputs = declare_io(&mut b, &self.inputs, 1);
        let ghost bi = b.raw;
        let outputs = declare_io(&mut b, &self.outputs, 3);
        let ghost bo = b.raw;
        let mut interface: Vec<u32> = Vec::new();
        let mut k: usize = 0;
        while k < inputs.len()
            invariant
                k <= inputs@.len(),
                interface@ == inputs@.take(k as int),
            decreases inputs@.len() - k,
        {
            interface.push(inputs[k]);
            k = k + 1;
            proof { assert(interface@ =~= inputs@.take(k as int)); }
        }
        proof { assert(inputs@.take(inputs@.len() as int) =~= inputs@); }
        let mut k: usize = 0;
        while k < outputs.len()
            invariant
                k <= outputs@.len(),
                interface@ == inputs@ + outputs@.take(k as int),
            decreases outputs@.len() - k,
        {
            interface.push(outputs[k]);
            k = k + 1;
            proof { assert(interface@ =~= inputs@ + outputs@.take(k as int)); }
        }
        proof { assert(outputs@.take(outputs@.len() as int) =~= outputs@); }
        proof { reveal_strlit("main"); }
        entry_point(&mut b.raw, self.stage.model(), main, "main", &interface);
        lift(begin_block(&mut b.raw, None))?;
        let var_block = match selected_block(&b.raw) {
            Some(v) => v,
            None => {
                return Err(CompileError::NoBlock);
            },
        };
        let res = PrimResources {
            uniforms,
            storages: Vec::new(),
            inputs,
            outputs,
            textures: Vec::new(),
            samplers: Vec::new(),
        };
        assert(res.counts() == self.counts());
        let mut vars: HashMap<usize, u32> = HashMap::new();
        proof {
            assert(vars@.dom() =~= Set::<usize>::empty());
            assert(vars@ =~= Map::<usize, u32>::empty());
        }
        let ghost b0 = b;
        process_list(&self.main, &mut b, &mut vars, &res, None, None, var_block)?;
        let ghost b1 = b;
        lift(ret(&mut b.raw))?;
        let ghost m2 = b.raw;
        lift(end_function(&mut b.raw))?;
        let ghost m = b.raw;
        let w = assemble(b.raw);
        proof {
            assert(decls_grew(bu, bi));
            assert(decls_grew(bi, bo));
            assert(decls_grew(bo, b0.raw));
            assert(decls_grew(b0.raw, b1.raw));
            assert(decls_grew(b1.raw, m));
            lemma_decls_grew_trans(b0.raw, b1.raw, m);
            lemma_decls_grew_trans(bo, b0.raw, m);
            lemma_decls_grew_trans(bi, bo, m);
            lemma_decls_grew_trans(bu, bi, m);
            let dummy_u = (DataType::Primitive(PrimitiveType::Bool), 0u32, 0u32);
            let dummy_io = (PrimitiveType::Bool, IOLocation::Location(0), Option::<String>::None);
            assert forall|i: int| 0 <= i < self.inputs@.len() implies io_declared(m, #[trigger] res.inputs@[i], 1, self.inputs@[i]) by {
                lemma_declared_grow(bi, m, res.inputs@[i], 1, self.inputs@[i], dummy_u);
            }
            assert forall|i: int| 0 <= i < self.outputs@.len() implies io_declared(m, #[trigger] res.outputs@[i], 3, self.outputs@[i]) by {
                lemma_declared_grow(bo, m, res.outputs@[i], 3, self.outputs@[i], dummy_u);
            }
            assert forall|i: int| 0 <= i < self.uniforms@.len() implies uniform_declared(m, #[trigger] res.uniforms@[i], self.uniforms@[i]) by {
                lemma_declared_grow(bu, m, res.uniforms@[i], 2, dummy_io, self.uniforms@[i]);
            }
            assert(self.module_built(m, res, b0, b1, vars@, m2));
        }
        assert(crate::spirv_api::module_words(m) == w@ && crate::spirv_api::module_view(m).functions.len() == 1);
        Ok(w)
    }
}

/// `decls_grew` composes.
pub proof fn lemma_decls_grew_trans(a: Builder, b: Builder, c: Builder)
    requires
        decls_grew(a, b),
        decls_grew(b, c),
    ensures
        decls_grew(a, c),
{
    assert forall|i: int| 0 <= i < module_view(a).globals.len() implies #[trigger] module_view(c).globals[i] == module_view(a).globals[i] by {
        assert(module_view(c).globals[i] == module_view(b).globals[i]);
    }
    assert forall|i: int| 0 <= i < module_view(a).annotations.len() implies #[trigger] module_view(c).annotations[i] == module_view(a).annotations[i] by {
        assert(module_view(c).annotations[i] == module_view(b).annotations[i]);
    }
}

/// A decoration present stays present when decorations are added after it.
pub proof fn lemma_has_annot_prefix(s: Seq<AnnotView>, t: Seq<AnnotView>, a: AnnotView)
    requires
        annot_prefix(s, t),
        has_annot(s, a),
    ensures
        has_annot(t, a),
{
    let k = choose|k: int| 0 <= k < s.len() && s[k] == a;
    assert(t[k] == s[k]);
}

/// Input or output `io` is declared in `b` as the variable `v` of the
/// storage class with code `class`, decorated with its location or its
/// built-in.
pub open spec fn io_declared(b: Builder, v: u32, class: u32, io: PrimIO) -> bool {
    &&& has_var(module_view(b).globals, v, class)
    &&& match io.1 {
        IOLocation::Location(l) => has_annot(module_view(b).annotations,
            AnnotView::Decorate { target: v, decoration: 30, operands: seq![SpvOperand::Literal(l)] }),
        IOLocation::BuiltIn(x) => has_annot(module_view(b).annotations,
            AnnotView::Decorate { target: v, decoration: 11, operands: seq![SpvOperand::BuiltIn(builtin_code(x))] }),
    }
}

/// Uniform buffer `u` is declared in `b` as the `Uniform` variable `v`,
/// decorated with its descriptor set and binding.
pub open spec fn uniform_declared(b: Builder, v: u32, u: (DataType, u32, u32)) -> bool {
    &&& has_var(module_view(b).globals, v, 2)
    &&& has_annot(module_view(b).annotations, AnnotView::Decorate { target: v, decoration: 34, operands: seq![SpvOperand::Literal(u.1)] })
    &&& has_annot(module_view(b).annotations, AnnotView::Decorate { target: v, decoration: 33, operands: seq![SpvOperand::Literal(u.2)] })
}

/// The module only grew from `a` to `b`: its global section and decorations
/// are extended.
pub open spec fn decls_grew(a: Builder, b: Builder) -> bool {
    &&& seq_prefix(module_view(a).globals, module_view(b).globals)
    &&& annot_prefix(module_view(a).annotations, module_view(b).annotations)
}

/// Declarations stay as the module grows.
pub proof fn lemma_declared_grow(a: Builder, b: Builder, v: u32, class: u32, io: PrimIO, u: (DataType, u32, u32))
    requires
        decls_grew(a, b),
    ensures
        io_declared(a, v, class, io) ==> io_declared(b, v, class, io),
        uniform_declared(a, v, u) ==> uniform_declared(b, v, u),
{
    if has_var(module_view(a).globals, v, class) {
        lemma_has_var_prefix(module_view(a).globals, module_view(b).globals, v, class);
    }
    if has_var(module_view(a).globals, v, 2) {
        lemma_has_var_prefix(module_view(a).globals, module_view(b).globals, v, 2);
    }
    let aa = module_view(a).annotations;
    let ba = module_view(b).annotations;
    match io.1 {
        IOLocation::Location(l) => {
            let d = AnnotView::Decorate { target: v, decoration: 30, operands: seq![SpvOperand::Literal(l)] };
            if has_annot(aa, d) { lemma_has_annot_prefix(aa, ba, d); }
        },
        IOLocation::BuiltIn(x) => {
            let d = AnnotView::Decorate { target: v, decoration: 11, operands: seq![SpvOperand::BuiltIn(builtin_code(x))] };
            if has_annot(aa, d) { lemma_has_annot_prefix(aa, ba, d); }
        },
    }
    let d34 = AnnotView::Decorate { target: v, decoration: 34, operands: seq![SpvOperand::Literal(u.1)] };
    let d33 = AnnotView::Decorate { target: v, decoration: 33, operands: seq![SpvOperand::Literal(u.2)] };
    if has_annot(aa, d34) { lemma_has_annot_prefix(aa, ba, d34); }
    if has_annot(aa, d33) { lemma_has_annot_prefix(aa, ba, d33); }
}

/// Declares the uniform buffers in order: the data type, a struct of it as
/// its only member decorated `Block`, and a `Uniform` variable of a pointer
/// to that struct, decorated with the descriptor set and binding.
fn declare_uniforms(b: &mut RSpirvBuilder, us: &Vec<(DataType, u32, u32)>) -> (r: Vec<u32>)
    requires
        old(b).wf(),
        !in_block(old(b).raw),
    ensures
        kept(*old(b), *final(b)),
        crate::spirv_api::only_globals(old(b).raw, final(b).raw),
        r@.len() == us@.len(),
        forall|j: int| 0 <= j < us@.len() ==> uniform_declared(final(b).raw, #[trigger] r@[j], us@[j]),
{
    let ghost b0 = *b;
    let mut out: Vec<u32> = Vec::new();
    let mut i: usize = 0;
    while i < us.len()
        invariant
            i <= us@.len(),
            out@.len() == i,
            b0 == *old(b),
            kept(b0, *b),
            crate::spirv_api::only_globals(b0.raw, b.raw),
            !in_block(b0.raw),
            forall|j: int| 0 <= j < i ==> uniform_declared(b.raw, #[trigger] out@[j], us@[j]),
        decreases us@.len() - i,
    {
        let ghost bi = *b;
        let ghost o0 = out@;
        let inner = b.data_type_id(&us[i].0);
        proof { lemma_kept_trans(b0, bi, *b); }
        let outer = type_struct(&mut b.raw, vec![inner]);
        decorate(&mut b.raw, outer, 2, Vec::new());
        let p = type_pointer(&mut b.raw, 2, outer);
        let var = variable(&mut b.raw, p, 2);
        let ghost bj = *b;
        assert(has_var(module_view(b.raw).globals, var, 2)) by {
            let g = module_view(b.raw).globals;
            assert(g[g.len() - 1] is Variable);
        }
        set_and_binding(b, var, us[i].1, us[i].2);
        proof {
            lemma_kept_trans(b0, bj, *b);
            let a = module_view(b.raw).annotations;
            assert(a[a.len() - 2] == AnnotView::Decorate { target: var, decoration: 34, operands: seq![SpvOperand::Literal(us@[i as int].1)] });
            assert(a[a.len() - 1] == AnnotView::Decorate { target: var, decoration: 33, operands: seq![SpvOperand::Literal(us@[i as int].2)] });
        }
        out.push(var);
        proof {
            assert(decls_grew(bi.raw, b.raw));
            assert forall|j: int| 0 <= j < i + 1 implies uniform_declared(b.raw, #[trigger] out@[j], us@[j]) by {
                if j < i {
                    assert(out@[j] == o0[j]);
                    lemma_declared_grow(bi.raw, b.raw, out@[j], 2, (PrimitiveType::Bool, IOLocation::Location(0), None), us@[j]);
                } else {
                    lemma_declared_grow(bj.raw, b.raw, var, 2, (PrimitiveType::Bool, IOLocation::Location(0), None), us@[j]);
                    let a = module_view(b.raw).annotations;
                    assert(has_annot(a, AnnotView::Decorate { target: var, decoration: 34, operands: seq![SpvOperand::Literal(us@[j].1)] }));
                    assert(has_annot(a, AnnotView::Decorate { target: var, decoration: 33, operands: seq![SpvOperand::Literal(us@[j].2)] }));
                }
            }
        }
        i = i + 1;
    }
    out
}

/// Declares inputs or outputs in the storage class with the given code, in
/// order: a variable of a pointer to the type, decorated with its location or
/// built-in, and named.
fn declare_io(b: &mut RSpirvBuilder, ios: &Vec<PrimIO>, class: u32) -> (r: Vec<u32>)
    requires
        old(b).wf(),
        class <= 12,
        !in_block(old(b).raw),
    ensures
        kept(*old(b), *final(b)),
        crate::spirv_api::only_globals(old(b).raw, final(b).raw),
        r@.len() == ios@.len(),
        forall|j: int| 0 <= j < ios@.len() ==> io_declared(final(b).raw, #[trigger] r@[j], class, ios@[j]),
{
    let ghost b0 = *b;
    let mut out: Vec<u32> = Vec::new();
    let mut i: usize = 0;
    while i < ios.len()
        invariant
            i <= ios@.len(),
            out@.len() == i,
            b0 == *old(b),
            kept(b0, *b),
            crate::spirv_api::only_globals(b0.raw, b.raw),
            class <= 12,
            !in_block(b0.raw),
            forall|j: int| 0 <= j < i ==> io_declared(b.raw, #[trigger] out@[j], class, ios@[j]),
        decreases ios@.len() - i,
    {
        let io = &ios[i];
        let ghost bi = *b;
        let ghost o0 = out@;
        let ty = b.prim_type_id(io.0);
        proof { lemma_kept_trans(b0, bi, *b); }
        let p = type_pointer(&mut b.raw, class, ty);
        let var = variable(&mut b.raw, p, class);
        assert(has_var(module_view(b.raw).globals, var, class)) by {
            let g = module_view(b.raw).globals;
            assert(g[g.len() - 1] is Variable);
        }
        let ghost bv = *b;
        match io.1 {
            IOLocation::Location(l) => {
                let ops = vec![SpvOperand::Literal(l)];
                assert(ops@ == seq![SpvOperand::Literal(l)]);
                decorate(&mut b.raw, var, 30, ops);
                proof {
                    let a = module_view(b.raw).annotations;
                    assert(a[a.len() - 1] == AnnotView::Decorate { target: var, decoration: 30, operands: seq![SpvOperand::Literal(l)] });
                }
            },
            IOLocation::BuiltIn(bi) => {
                proof { lemma_builtin_codes(bi); }
                let ops = vec![SpvOperand::BuiltIn(bi.code())];
                assert(ops@[0] == SpvOperand::BuiltIn(builtin_code(bi)));
                assert(ops@ == seq![SpvOperand::BuiltIn(builtin_code(bi))]);
                decorate(&mut b.raw, var, 11, ops);
                proof {
                    let a = module_view(b.raw).annotations;
                    assert(a[a.len() - 1] == AnnotView::Decorate { target: var, decoration: 11, operands: seq![SpvOperand::BuiltIn(builtin_code(bi))] });
                }
            },
        }
        proof {
            lemma_has_var_prefix(module_view(bv.raw).globals, module_view(b.raw).globals, var, class);
            assert(io_declared(b.raw, var, class, ios@[i as int]));
        }
        let ghost bn = *b;
        name_opt(b, var, &io.2);
        proof { lemma_kept_trans(b0, bn, *b); }
        out.push(var);
        proof {
            assert(decls_grew(bi.raw, b.raw));
            assert forall|j: int| 0 <= j < i + 1 implies io_declared(b.raw, #[trigger] out@[j], class, ios@[j]) by {
                if j < i {
                    assert(out@[j] == o0[j]);
                    lemma_declared_grow(bi.raw, b.raw, out@[j], class, ios@[j], (DataType::Primitive(PrimitiveType::Bool), 0, 0));
                } else {
                    lemma_declared_grow(bn.raw, b.raw, var, class, ios@[j], (DataType::Primitive(PrimitiveType::Bool), 0, 0));
                }
            }
        }
        i = i + 1;
    }
    out
}

/// The variable numbers handed out for a function, each with its name if it
/// was given one.
pub struct Variables {
    pub vars: NameSlab,
}

impl Variables {
    /// The numbers handed out, with their names.
    pub open spec fn view_vars(self) -> Map<usize, Option<Seq<char>>> {
        slab_entries(self.vars)
    }

    /// No number handed out yet.
    pub fn new() -> (r: Variables)
        ensures
            r.view_vars().dom().is_empty(),
    {
        Variables { vars: slab_new() }
    }

    /// Hands out a number not handed out before, unnamed.
    pub fn get_new_id(&mut self) -> (id: usize)
        ensures
            !old(self).view_vars().dom().contains(id),
            final(self).view_vars() == old(self).view_vars().insert(id, None),
    {
        slab_insert(&mut self.vars, None)
    }

    /// Names a number handed out before.
    pub fn name_var(&mut self, id: usize, name: String)
        requires
            old(self).view_vars().dom().contains(id),
        ensures
            final(self).view_vars() == old(self).view_vars().insert(id, Some(name@)),
    {
        let _ = slab_replace(&mut self.vars, id, Some(name));
    }
}

/// An `if` chain being recorded: a condition and a block for each branch so
/// far, and the `else` block once it is open. Instructions go to the `else`
/// block when it is open, and to the last branch's block otherwise.
pub struct ChainRecorder {
    pub conditions: Vec<usize>,
    pub instructions: Vec<Vec<Instruction>>,
    pub else_instructions: Option<Vec<Instruction>>,
}

impl ChainRecorder {
    /// Each branch has one block, and there is at least one branch.
    pub open spec fn wf(self) -> bool {
        self.conditions@.len() == self.instructions@.len() && self.conditions@.len() >= 1
    }

    /// A chain whose first branch tests `condition` and has an empty block.
    pub fn new(condition: usize) -> (r: ChainRecorder)
        ensures
            r.wf(),
            r.conditions@ == seq![condition],
            r.instructions@.len() == 1,
            r.instructions@[0]@.len() == 0,
            r.else_instructions is None,
    {
        ChainRecorder { conditions: vec![condition], instructions: vec![Vec::new()], else_instructions: None }
    }

    /// Records an instruction into the open `else` block, or else into the
    /// last branch's block.
    pub fn push_instruction(&mut self, i: Instruction)
        requires
            old(self).wf(),
        ensures
            final(self).wf(),
            final(self).conditions@ == old(self).conditions@,
            match old(self).else_instructions {
                Some(e) => final(self).else_instructions matches Some(e2) && e2@ == e@.push(i)
                    && final(self).instructions@ == old(self).instructions@,
                None => final(self).else_instructions is None
                    && final(self).instructions@.len() == old(self).instructions@.len()
                    && final(self).instructions@.last()@ == old(self).instructions@.last()@.push(i)
                    && final(self).instructions@.drop_last() == old(self).instructions@.drop_last(),
            },
    {
        match &mut self.else_instructions {
            Some(e) => {
                e.push(i);
            },
            None => {
                let mut block = match self.instructions.pop() {
                    Some(b) => b,
                    None => Vec::new(),
                };
                block.push(i);
                self.instructions.push(block);
                proof {
                    assert(self.instructions@.drop_last() =~= old(self).instructions@.drop_last());
                }
            },
        }
    }

    /// Opens a branch testing `condition`, with an empty block.
    pub fn else_if(&mut self, condition: usize)
        requires
            old(self).wf(),
        ensures
            final(self).wf(),
            final(self).conditions@ == old(self).conditions@.push(condition),
            final(self).instructions@.drop_last() == old(self).instructions@,
            final(self).instructions@.last()@.len() == 0,
            final(self).else_instructions == old(self).else_instructions,
    {
        self.instructions.push(Vec::new());
        self.conditions.push(condition);
        proof {
            assert(self.instructions@.drop_last() =~= old(self).instructions@);
        }
    }

    /// Opens an empty `else` block, in place of one opened before.
    pub fn open_else(&mut self)
        requires
            old(self).wf(),
        ensures
            final(self).wf(),
            final(self).conditions@ == old(self).conditions@,
            final(self).instructions@ == old(self).instructions@,
            final(self).else_instructions matches Some(e) && e@.len() == 0,
    {
        self.else_instructions = Some(Vec::new());
    }

    /// The recorded chain as one instruction.
    pub fn finish(self) -> (r: Instruction)
        requires
            self.wf(),
        ensures
            r matches Instruction::IfChain { conditions, instructions, else_instructions }
                && conditions@ == self.conditions@ && instructions@ == self.instructions@
                && else_instructions == self.else_instructions
                && conditions@.len() == instructions@.len(),
    {
        Instruction::IfChain {
            conditions: self.conditions,
            instructions: self.instructions,
            else_instructions: self.else_instructions,
        }
    }
}

/// A loop being recorded: its condition and body.
pub struct LoopRecorder {
    pub condition: usize,
    pub instructions: Vec<Instruction>,
}

impl LoopRecorder {
    /// A loop on `condition` with an empty body.
    pub fn new(condition: usize) -> (r: LoopRecorder)
        ensures
            r.condition == condition,
            r.instructions@.len() == 0,
    {
        LoopRecorder { condition, instructions: Vec::new() }
    }

    /// Records an instruction into the body.
    pub fn push_instruction(&mut self, i: Instruction)
        ensures
            final(self).condition == old(self).condition,
            final(self).instructions@ == old(self).instructions@.push(i),
    {
        self.instructions.push(i);
    }

    /// The recorded loop as one instruction.
    pub fn finish(self) -> (r: Instruction)
        ensures
            r matches Instruction::Loop { condition, body } && condition == self.condition && body@ == self.instructions@,
    {
        Instruction::Loop { condition: self.condition, body: self.instructions }
    }
}

} // verus!
