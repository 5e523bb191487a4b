//! Building the SPIR-V module of a recorded shader: the module header, the
//! declared interface and resources, the functions with their lowered
//! instructions, and the entry points.

use std::collections::HashMap;
use rspirv::dr::Builder;
use vstd::prelude::*;

use crate::builder::{
    builtin_code, stage_model, BuilderInner, FuncData, IOData, IOLocation, PushData, SampledTextureData,
    SamplerData, ShaderStage, StorageData, TextureData, UniformData,
};
use crate::check::{check_instrs, instrs_ok, Counts};
use crate::emit::{decls_kept, kept, lemma_decls_kept_trans, lemma_kept_trans, lift, strides_fit, strides_ok, CompileError, RSpirvBuilder};
use crate::io::io_type;
use crate::lower::{lower_list, typed_lowered, typed_plain, BlockInfo, FuncMapInfo, ShaderMapInfo};
use crate::spirv_api::{
    module_words,
    assemble, begin_block, begin_function, builtin_code_ok, capability, decorate, end_function, entry_point,
    execution_mode, ext_inst_import, member_decorate, memory_model, name, new_module_builder, ret,
    select_function, selected_block, selected_function, set_version, source, type_function, type_pointer,
    type_runtime_array, type_sampled_image, type_sampler, type_struct, variable, SpvOperand, builder_ok, module_view, in_block, sel_kept, only_globals, same_code, AnnotView, BlockView, InstView, ModuleView, has_var, lemma_has_var_prefix, seq_prefix,
    terminated,
};
use crate::types::{lemma_members_view, members_view, size_fits, type_size, MemberView, Type, TypeView};

verus! {

/// Whether computing the size of a type stays within `u32`.
pub fn fits_check(t: &Type) -> (r: bool)
    ensures
        r == size_fits(t@),
    decreases t,
{
    match t {
        Type::Vector(v) => {
            let s = v.scalar_ty.size();
            assert(crate::types::vector_size(*v) == v.n_scalar as int * s as int);
            let r = v.n_scalar.checked_mul(s).is_some();
            assert(r == size_fits(t@));
            r
        },
        Type::Matrix(m) => {
            let s = m.vec_ty.scalar_ty.size();
            assert(crate::types::vector_size(m.vec_ty) == m.vec_ty.n_scalar as int * s as int);
            match m.vec_ty.n_scalar.checked_mul(s) {
                Some(vs) => {
                    assert(crate::types::matrix_size(*m) == m.n_vec as int * vs as int);
                    let r = m.n_vec.checked_mul(vs).is_some();
                    assert(r == size_fits(t@));
                    r
                },
                None => false,
            }
        },
        Type::Array(a) => {
            assert(decreases_to!(t => *a.element_ty));
            if !fits_check(&a.element_ty) {
                assert(!size_fits(t@));
                return false;
            }
            match a.length {
                None => {
                    assert(size_fits((*a.element_ty)@));
                    assert(t@ == TypeView::Array(Box::new((*a.element_ty)@), None));
                    assert(size_fits(t@));
                    true
                },
                Some(n) => match a.element_ty.size() {
                    Some(es) => {
                        #[verifier::truncate]
                        let len = n as u32;
                        let r = len.checked_mul(es).is_some();
                        assert(r == size_fits(t@));
                        r
                    },
                    None => {
                        assert(size_fits(t@));
                        true
                    },
                },
            }
        },
        Type::Struct(st) => {
            let ghost ms = members_view(st.members@);
            proof {
                lemma_members_view(st.members@);
                assert(ms.take(0) =~= Seq::<MemberView>::empty());
            }
            let n = st.members.len();
            let mut acc: Option<u32> = Some(0);
            let mut i: usize = 0;
            while i < n
                invariant
                    n == st.members@.len(),
                    i <= n,
                    t is Struct,
                    t->Struct_0 == *st,
                    ms == members_view(st.members@),
                    ms.len() == n,
                    forall|j: int| 0 <= j < n ==> #[trigger] ms[j].ty == st.members@[j].ty@,
                    crate::types::members_fit(ms.take(i as int)),
                    match acc {
                        Some(a) => crate::types::members_size(ms.take(i as int)) == Some(a as int),
                        None => crate::types::members_size(ms.take(i as int)) is None,
                    },
                decreases n - i,
            {
                assert(ms.take(i + 1).drop_last() =~= ms.take(i as int));
                assert(ms.take(i + 1).last() == ms[i as int]);
                assert(decreases_to!(t => st.members@[i as int].ty));
                match acc {
                    Some(a) => {
                        if !fits_check(&st.members[i].ty) {
                            proof {
                                assert(!crate::types::members_fit(ms.take(i + 1)));
                                lemma_unfit_prefix(ms, i as int + 1);
                                assert(t@ == TypeView::Struct(crate::types::name_view(st.name), ms));
                                assert(ms.take(n as int) =~= ms);
                            }
                            return false;
                        }
                        match st.members[i].ty.size() {
                            Some(b) => match a.checked_add(b) {
                                Some(c) => {
                                    acc = Some(c);
                                },
                                None => {
                                    proof {
                                        assert(!crate::types::members_fit(ms.take(i + 1)));
                                        lemma_unfit_prefix(ms, i as int + 1);
                                        assert(t@ == TypeView::Struct(crate::types::name_view(st.name), ms));
                                    }
                                    return false;
                                },
                            },
                            None => {
                                acc = None;
                            },
                        }
                    },
                    None => {},
                }
                i = i + 1;
            }
            proof {
                assert(ms.take(n as int) =~= ms);
                assert(t@ == TypeView::Struct(crate::types::name_view(st.name), ms));
                assert(size_fits(t@));
            }
            true
        },
        _ => true,
    }
}

/// A prefix that does not fit makes the whole list not fit.
proof fn lemma_unfit_prefix(ms: Seq<MemberView>, i: int)
    requires
        0 <= i <= ms.len(),
        !crate::types::members_fit(ms.take(i)),
    ensures
        !crate::types::members_fit(ms),
    decreases ms.len(),
{
    if i < ms.len() {
        assert(ms.drop_last().take(i) =~= ms.take(i));
        lemma_unfit_prefix(ms.drop_last(), i);
    } else {
        assert(ms.take(i) =~= ms);
    }
}

/// Every built-in this library declares has a code `BuiltIn::from_u32`
/// accepts.
pub(crate) proof fn lemma_builtin_codes(b: crate::builder::BuiltIn)
    ensures
        builtin_code_ok(builtin_code(b)),
{
}

/// How many of each resource a builder declares.
pub open spec fn counts_of(s: BuilderInner) -> Counts {
    Counts {
        inputs: s.inputs@.len() as usize,
        outputs: s.outputs@.len() as usize,
        push_constants: s.push_constants is Some,
        uniforms: s.uniforms@.len() as usize,
        storages: s.storages@.len() as usize,
        textures: s.textures@.len() as usize,
        sampled_textures: s.sampled_textures@.len() as usize,
        samplers: s.samplers@.len() as usize,
    }
}

/// A function can be declared and its instructions lowered.
pub open spec fn func_ok(f: FuncData, c: Counts) -> bool {
    &&& strides_fit(f.ret@)
    &&& forall|k: int| 0 <= k < f.arguments@.len() ==> strides_fit((#[trigger] f.arguments@[k])@)
    &&& instrs_ok(f.instructions@, c)
}

/// A storage buffer's element type has a size that fits in `u32`, which
/// becomes the array stride.
pub open spec fn storage_ok(s: StorageData) -> bool {
    &&& strides_fit(s.ty@)
    &&& size_fits(s.ty@)
    &&& type_size(s.ty@) is Some
}

impl BuilderInner {
    /// Everything recorded can be built into a module: every function can be
    /// lowered, every buffer type declared, every storage buffer has a sized
    /// element type, and every entry point is a named function.
    pub open spec fn compilable(self) -> bool {
        &&& self.wf()
        &&& forall|i: int| 0 <= i < self.functions@.len() ==> func_ok(#[trigger] self.functions@[i], counts_of(self))
        &&& (self.push_constants matches Some(p) ==> strides_fit(p.ty@))
        &&& forall|i: int| 0 <= i < self.uniforms@.len() ==> strides_fit((#[trigger] self.uniforms@[i]).ty@)
        &&& forall|i: int| 0 <= i < self.storages@.len() ==> storage_ok(#[trigger] self.storages@[i])
        &&& forall|i: int| 0 <= i < self.entry_points@.len() ==> (#[trigger] self.functions@[self.entry_points@[i].1 as int]).name is Some
    }

    /// How many of each resource this builder declares.
    pub fn counts(&self) -> (r: Counts)
        ensures
            r == counts_of(*self),
    {
        Counts {
            inputs: self.inputs.len(),
            outputs: self.outputs.len(),
            push_constants: self.push_constants.is_some(),
            uniforms: self.uniforms.len(),
            storages: self.storages.len(),
            textures: self.textures.len(),
            sampled_textures: self.sampled_textures.len(),
            samplers: self.samplers.len(),
        }
    }
}

/// Names a declared object if it has a name.
pub(crate) fn name_opt(b: &mut RSpirvBuilder, target: u32, n: &Option<String>)
    ensures
        module_view(final(b).raw) == (ModuleView { names: module_view(final(b).raw).names, ..module_view(old(b).raw) }),
        final(b).ext == old(b).ext,
        final(b).struct_map@ == old(b).struct_map@,
{
    match n {
        Some(s) => name(&mut b.raw, target, s.as_str()),
        None => {},
    }
}

/// Decorates a resource variable with its descriptor set and binding.
pub(crate) fn set_and_binding(b: &mut RSpirvBuilder, var: u32, set: u32, binding: u32)
    requires
        old(b).wf(),
    ensures
        kept(*old(b), *final(b)),
        only_globals(old(b).raw, final(b).raw),
        final(b).struct_map@ == old(b).struct_map@,
        module_view(final(b).raw).annotations == module_view(old(b).raw).annotations
            .push(AnnotView::Decorate { target: var, decoration: 34, operands: seq![SpvOperand::Literal(set)] })
            .push(AnnotView::Decorate { target: var, decoration: 33, operands: seq![SpvOperand::Literal(binding)] }),
        module_view(final(b).raw).globals == module_view(old(b).raw).globals,
{
    let s1 = vec![SpvOperand::Literal(set)];
    assert(s1@ == seq![SpvOperand::Literal(set)]);
    decorate(&mut b.raw, var, 34, s1);
    let s2 = vec![SpvOperand::Literal(binding)];
    assert(s2@ == seq![SpvOperand::Literal(binding)]);
    decorate(&mut b.raw, var, 33, s2);
}

/// Declares the variables of stage inputs or outputs in the storage class
/// with the given code, in order: each of its type, decorated with its
/// location (and `Flat` when flat) or its built-in, and named. The result
/// holds their ids in the same order.
pub fn map_io(b: &mut RSpirvBuilder, ios: &Vec<IOData>, class: u32) -> (r: Vec<u32>)
    requires
        old(b).wf(),
        class <= 12,
        !in_block(old(b).raw),
    ensures
        kept(*old(b), *final(b)),
        sel_kept(old(b).raw, final(b).raw),
        r@.len() == ios@.len(),
        forall|j: int| 0 <= j < ios@.len() ==> has_var(module_view(final(b).raw).globals, #[trigger] r@[j], class),
{
    let ghost b0 = *b;
    let mut out: Vec<u32> = Vec::new();
    let mut i: usize = 0;
    while i < ios.len()
        invariant
            i <= ios@.len(),
            out@.len() == i,
            kept(b0, *b),
            sel_kept(b0.raw, b.raw),
            b0 == *old(b),
            class <= 12,
            !in_block(b0.raw),
            forall|j: int| 0 <= j < i ==> has_var(module_view(b.raw).globals, #[trigger] out@[j], class),
        decreases ios@.len() - i,
    {
        let ghost bs = b.raw;
        let ghost o0 = out@;
        let io = &ios[i];
        let ty = io.ty.ty();
        let ghost bi = *b;
        let spv_ty = b.type_id(&ty);
        proof { lemma_kept_trans(b0, bi, *b); }
        let p = type_pointer(&mut b.raw, class, spv_ty);
        let var = variable(&mut b.raw, p, class);
        assert(has_var(module_view(b.raw).globals, var, class)) by {
            let g = module_view(b.raw).globals;
            assert(g[g.len() - 1] is Variable);
        }
        let ghost bv = b.raw;
        match io.location {
            IOLocation::Location(l) => {
                decorate(&mut b.raw, var, 30, vec![SpvOperand::Literal(l)]);
                if io.flat {
                    decorate(&mut b.raw, var, 14, Vec::new());
                }
            },
            IOLocation::BuiltIn(bi) => {
                proof { lemma_builtin_codes(bi); }
                let ops = vec![SpvOperand::BuiltIn(bi.code())];
                assert(ops@[0] == SpvOperand::BuiltIn(builtin_code(bi)));
                decorate(&mut b.raw, var, 11, ops);
            },
        }
        name_opt(b, var, &io.name);
        out.push(var);
        proof {
            assert forall|j: int| 0 <= j < i + 1 implies has_var(module_view(b.raw).globals, #[trigger] out@[j], class) by {
                if j < i {
                    assert(out@[j] == o0[j]);
                    lemma_has_var_prefix(module_view(bs).globals, module_view(b.raw).globals, out@[j], class);
                } else {
                    lemma_has_var_prefix(module_view(bv).globals, module_view(b.raw).globals, var, class);
                }
            }
        }
        i = i + 1;
    }
    out
}

/// Declares the push constant block, if there is one: a `Block` struct with
/// the push constant type as its only member, at offset 0, and a variable of
/// it in the `PushConstant` class, named.
pub fn map_push_constants(b: &mut RSpirvBuilder, p: &Option<PushData>) -> (r: Option<u32>)
    requires
        old(b).wf(),
        p matches Some(d) ==> strides_fit(d.ty@),
    ensures
        kept(*old(b), *final(b)),
        sel_kept(old(b).raw, final(b).raw),
        r is Some <==> p is Some,
{
    match p {
        Some(d) => {
            let ghost b0 = *b;
            let spv_ty = b.type_id(&d.ty);
            let ghost b1 = *b;
            let outer = type_struct(&mut b.raw, vec![spv_ty]);
            decorate(&mut b.raw, outer, 2, Vec::new());
            member_decorate(&mut b.raw, outer, 0, 35, vec![SpvOperand::Literal(0)]);
            let ptr = type_pointer(&mut b.raw, 9, outer);
            let var = variable(&mut b.raw, ptr, 9);
            name_opt(b, var, &d.name);
            proof { lemma_kept_trans(b0, b1, *b); }
            Some(var)
        },
        None => None,
    }
}

/// Declares the uniform buffers in order: each a `Block` struct with the
/// buffer type as its only member at offset 0, and a variable of it in the
/// `Uniform` class with its set and binding, named.
pub fn map_uniforms(b: &mut RSpirvBuilder, us: &Vec<UniformData>) -> (r: Vec<u32>)
    requires
        old(b).wf(),
        forall|i: int| 0 <= i < us@.len() ==> strides_fit((#[trigger] us@[i]).ty@),
    ensures
        kept(*old(b), *final(b)),
        sel_kept(old(b).raw, final(b).raw),
        r@.len() == us@.len(),
{
    let ghost b0 = *b;
    let mut out: Vec<u32> = Vec::new();
    let mut i: usize = 0;
    while i < us.len()
        invariant
            i <= us@.len(),
            out@.len() == i,
            kept(b0, *b),
            sel_kept(b0.raw, b.raw),
            b0 == *old(b),
            forall|i: int| 0 <= i < us@.len() ==> strides_fit((#[trigger] us@[i]).ty@),
        decreases us@.len() - i,
    {
        let u = &us[i];
        let ghost bi = *b;
        let spv_ty = b.type_id(&u.ty);
        proof { lemma_kept_trans(b0, bi, *b); }
        let outer = type_struct(&mut b.raw, vec![spv_ty]);
        decorate(&mut b.raw, outer, 2, Vec::new());
        member_decorate(&mut b.raw, outer, 0, 35, vec![SpvOperand::Literal(0)]);
        let ptr = type_pointer(&mut b.raw, 2, outer);
        let var = variable(&mut b.raw, ptr, 2);
        set_and_binding(b, var, u.set, u.binding);
        name_opt(b, var, &u.name);
        out.push(var);
        i = i + 1;
    }
    out
}

/// Declares the storage buffers in order: each a runtime array of the element
/// type with the element size as its stride, inside a `BufferBlock` struct at
/// offset 0 whose member is `NonReadable` when not read and `NonWritable` when
/// not written, and a variable of it in the `Uniform` class with its set and
/// binding, named.
pub fn map_storages(b: &mut RSpirvBuilder, ss: &Vec<StorageData>) -> (r: Vec<u32>)
    requires
        old(b).wf(),
        forall|i: int| 0 <= i < ss@.len() ==> storage_ok(#[trigger] ss@[i]),
    ensures
        kept(*old(b), *final(b)),
        sel_kept(old(b).raw, final(b).raw),
        r@.len() == ss@.len(),
{
    let ghost b0 = *b;
    let mut out: Vec<u32> = Vec::new();
    let mut i: usize = 0;
    while i < ss.len()
        invariant
            i <= ss@.len(),
            out@.len() == i,
            kept(b0, *b),
            sel_kept(b0.raw, b.raw),
            b0 == *old(b),
            forall|i: int| 0 <= i < ss@.len() ==> storage_ok(#[trigger] ss@[i]),
        decreases ss@.len() - i,
    {
        let s = &ss[i];
        assert(storage_ok(ss@[i as int]));
        let ghost bi = *b;
        let spv_ty = b.type_id(&s.ty);
        proof { lemma_kept_trans(b0, bi, *b); }
        let arr = type_runtime_array(&mut b.raw, spv_ty);
        let stride: u32 = match s.ty.size() {
            Some(n) => n,
            None => 0,
        };
        decorate(&mut b.raw, arr, 6, vec![SpvOperand::Literal(stride)]);
        let outer = type_struct(&mut b.raw, vec![arr]);
        decorate(&mut b.raw, outer, 3, Vec::new());
        member_decorate(&mut b.raw, outer, 0, 35, vec![SpvOperand::Literal(0)]);
        if !s.read {
            member_decorate(&mut b.raw, outer, 0, 25, Vec::new());
        }
        if !s.write {
            member_decorate(&mut b.raw, outer, 0, 24, Vec::new());
        }
        let ptr = type_pointer(&mut b.raw, 2, outer);
        let var = variable(&mut b.raw, ptr, 2);
        set_and_binding(b, var, s.set, s.binding);
        name_opt(b, var, &s.name);
        out.push(var);
        i = i + 1;
    }
    out
}

/// Declares the textures in order: each a variable of its image type in the
/// `UniformConstant` class with its set and binding, named.
pub fn map_textures(b: &mut RSpirvBuilder, ts: &Vec<TextureData>) -> (r: Vec<u32>)
    requires
        old(b).wf(),
    ensures
        kept(*old(b), *final(b)),
        sel_kept(old(b).raw, final(b).raw),
        r@.len() == ts@.len(),
{
    let ghost b0 = *b;
    let mut out: Vec<u32> = Vec::new();
    let mut i: usize = 0;
    while i < ts.len()
        invariant
            i <= ts@.len(),
            out@.len() == i,
            kept(b0, *b),
            sel_kept(b0.raw, b.raw),
            b0 == *old(b),
        decreases ts@.len() - i,
    {
        let t = &ts[i];
        let tex = b.texture_type(t.ty);
        let ptr = type_pointer(&mut b.raw, 0, tex);
        let var = variable(&mut b.raw, ptr, 0);
        set_and_binding(b, var, t.set, t.binding);
        name_opt(b, var, &t.name);
        out.push(var);
        i = i + 1;
    }
    out
}

/// Declares the textures with samplers in order: each a variable of the
/// sampled image type of its image type in the `UniformConstant` class with
/// its set and binding, named.
pub fn map_sampled_textures(b: &mut RSpirvBuilder, ts: &Vec<SampledTextureData>) -> (r: Vec<u32>)
    requires
        old(b).wf(),
    ensures
        kept(*old(b), *final(b)),
        sel_kept(old(b).raw, final(b).raw),
        r@.len() == ts@.len(),
{
    let ghost b0 = *b;
    let mut out: Vec<u32> = Vec::new();
    let mut i: usize = 0;
    while i < ts.len()
        invariant
            i <= ts@.len(),
            out@.len() == i,
            kept(b0, *b),
            sel_kept(b0.raw, b.raw),
            b0 == *old(b),
        decreases ts@.len() - i,
    {
        let t = &ts[i];
        let tex = b.texture_type(t.ty);
        let sampled = type_sampled_image(&mut b.raw, tex);
        let ptr = type_pointer(&mut b.raw, 0, sampled);
        let var = variable(&mut b.raw, ptr, 0);
        set_and_binding(b, var, t.set, t.binding);
        name_opt(b, var, &t.name);
        out.push(var);
        i = i + 1;
    }
    out
}

/// Declares the samplers in order: each a variable of the sampler type in the
/// `UniformConstant` class with its set and binding, named.
pub fn map_samplers(b: &mut RSpirvBuilder, ss: &Vec<SamplerData>) -> (r: Vec<u32>)
    requires
        old(b).wf(),
    ensures
        kept(*old(b), *final(b)),
        sel_kept(old(b).raw, final(b).raw),
        r@.len() == ss@.len(),
{
    let ghost b0 = *b;
    let mut out: Vec<u32> = Vec::new();
    let mut i: usize = 0;
    while i < ss.len()
        invariant
            i <= ss@.len(),
            out@.len() == i,
            kept(b0, *b),
            sel_kept(b0.raw, b.raw),
            b0 == *old(b),
        decreases ss@.len() - i,
    {
        let s = &ss[i];
        let ty = type_sampler(&mut b.raw);
        let ptr = type_pointer(&mut b.raw, 0, ty);
        let var = variable(&mut b.raw, ptr, 0);
        set_and_binding(b, var, s.set, s.binding);
        name_opt(b, var, &s.name);
        out.push(var);
        i = i + 1;
    }
    out
}

/// Declares the functions in order: each of its return and argument types,
/// begun, named and ended at once so that its body can be added later. The
/// result holds each function's id and its index in the builder.
pub fn map_functions(b: &mut RSpirvBuilder, fs: &Vec<FuncData>) -> (r: Result<Vec<(u32, usize)>, CompileError>)
    requires
        old(b).wf(),
        module_view(old(b).raw).function is None,
        module_view(old(b).raw).function_ids.len() == module_view(old(b).raw).functions.len(),
        forall|i: int| 0 <= i < fs@.len() ==> strides_fit((#[trigger] fs@[i]).ret@),
        forall|i: int, k: int| 0 <= i < fs@.len() && 0 <= k < fs@[i].arguments@.len() ==> strides_fit((#[trigger] fs@[i].arguments@[k])@),
    ensures
        decls_kept(*old(b), *final(b)),
        r is Ok,
        r->Ok_0@.len() == fs@.len(),
        module_view(final(b).raw).function is None,
        module_view(final(b).raw).block == module_view(old(b).raw).block,
        module_view(final(b).raw).functions.len() == module_view(old(b).raw).functions.len() + fs@.len(),
        forall|j: int| 0 <= j < fs@.len() ==> (#[trigger] r->Ok_0@[j]).1 == module_view(old(b).raw).functions.len() + j,
        forall|j: int| 0 <= j < module_view(old(b).raw).functions.len() ==> #[trigger] module_view(final(b).raw).functions[j] == module_view(old(b).raw).functions[j],
        forall|j: int| module_view(old(b).raw).functions.len() <= j < module_view(final(b).raw).functions.len()
            ==> #[trigger] module_view(final(b).raw).functions[j] == Seq::<BlockView>::empty(),
        module_view(final(b).raw).entry_points == module_view(old(b).raw).entry_points,
        module_view(final(b).raw).function_ids.len() == module_view(final(b).raw).functions.len(),
        forall|j: int| 0 <= j < fs@.len() ==> module_view(final(b).raw).function_ids[module_view(old(b).raw).functions.len() + j]
            == (#[trigger] r->Ok_0@[j]).0,
{
    let ghost b0 = *b;
    let mut out: Vec<(u32, usize)> = Vec::new();
    let mut i: usize = 0;
    while i < fs.len()
        invariant
            i <= fs@.len(),
            out@.len() == i,
            decls_kept(b0, *b),
            module_view(b.raw).function is None,
            module_view(b.raw).block == module_view(b0.raw).block,
            module_view(b.raw).functions.len() == module_view(b0.raw).functions.len() + i,
            forall|j: int| 0 <= j < i ==> (#[trigger] out@[j]).1 == module_view(b0.raw).functions.len() + j,
            forall|j: int| 0 <= j < module_view(b0.raw).functions.len() ==> #[trigger] module_view(b.raw).functions[j] == module_view(b0.raw).functions[j],
            forall|j: int| module_view(b0.raw).functions.len() <= j < module_view(b.raw).functions.len()
                ==> #[trigger] module_view(b.raw).functions[j] == Seq::<BlockView>::empty(),
            module_view(b.raw).entry_points == module_view(b0.raw).entry_points,
            module_view(b.raw).function_ids.len() == module_view(b.raw).functions.len(),
            forall|j: int| 0 <= j < i ==> module_view(b.raw).function_ids[module_view(b0.raw).functions.len() + j] == (#[trigger] out@[j]).0,
            b0 == *old(b),
            forall|i: int| 0 <= i < fs@.len() ==> strides_fit((#[trigger] fs@[i]).ret@),
            forall|i: int, k: int| 0 <= i < fs@.len() && 0 <= k < fs@[i].arguments@.len() ==> strides_fit((#[trigger] fs@[i].arguments@[k])@),
        decreases fs@.len() - i,
    {
        let f = &fs[i];
        let ghost bi = *b;
        let ret_ty = b.type_id(&f.ret);
        proof { lemma_decls_kept_trans(b0, bi, *b); }
        let mut args: Vec<u32> = Vec::new();
        let mut k: usize = 0;
        while k < f.arguments.len()
            invariant
                k <= f.arguments@.len(),
                decls_kept(b0, *b),
                module_view(b.raw).function is None,
                module_view(b.raw).block == module_view(b0.raw).block,
                module_view(b.raw).functions.len() == module_view(b0.raw).functions.len() + i,
                forall|j: int| 0 <= j < module_view(b0.raw).functions.len() ==> #[trigger] module_view(b.raw).functions[j] == module_view(b0.raw).functions[j],
                forall|j: int| module_view(b0.raw).functions.len() <= j < module_view(b.raw).functions.len()
                    ==> #[trigger] module_view(b.raw).functions[j] == Seq::<BlockView>::empty(),
                module_view(b.raw).entry_points == module_view(b0.raw).entry_points,
                module_view(b.raw).function_ids.len() == module_view(b.raw).functions.len(),
                forall|j: int| 0 <= j < i ==> module_view(b.raw).function_ids[module_view(b0.raw).functions.len() + j] == (#[trigger] out@[j]).0,
                b0 == *old(b),
                i < fs@.len(),
                *f == fs@[i as int],
                forall|i: int, k: int| 0 <= i < fs@.len() && 0 <= k < fs@[i].arguments@.len() ==> strides_fit((#[trigger] fs@[i].arguments@[k])@),
            decreases f.arguments@.len() - k,
        {
            let ghost bk = *b;
            let a = b.type_id(&f.arguments[k]);
            proof { lemma_decls_kept_trans(b0, bk, *b); }
            args.push(a);
            k = k + 1;
        }
        let fn_ty = type_function(&mut b.raw, ret_ty, args);
        let spv_f = lift(begin_function(&mut b.raw, ret_ty, fn_ty))?;
        let idx = match selected_function(&b.raw) {
            Some(x) => x,
            None => {
                return Err(CompileError::NoBlock);
            },
        };
        name_opt(b, spv_f, &f.name);
        lift(end_function(&mut b.raw))?;
        assert(idx == module_view(b0.raw).functions.len() + i);
        let ghost prev = out@;
        assert(module_view(b.raw).function_ids[module_view(b0.raw).functions.len() + i] == spv_f);
        out.push((spv_f, idx));
        proof {
            assert forall|j: int| 0 <= j < i + 1 implies module_view(b.raw).function_ids[module_view(b0.raw).functions.len() + j] == (#[trigger] out@[j]).0 by {
                if j < i {
                    assert(out@[j] == prev[j]);
                }
            }
        }
        assert forall|j: int| 0 <= j < i + 1 implies (#[trigger] out@[j]).1 == module_view(b0.raw).functions.len() + j by {
            if j < i {
                assert(out@[j] == prev[j]);
            }
        }
        i = i + 1;
    }
    Ok(out)
}

impl BuilderInner {
    /// Function `i` of module `m` is recorded function `i` lowered: in `b0`
    /// it is selected with one empty block, selected and holding its
    /// variables; its instructions were lowered from there, with no variable
    /// mapped yet, to `b1`; then a return ends the selected block, unless the
    /// instructions ended with a discard, giving `m2`, which holds the
    /// function as `m` does.
    pub open spec fn fn_built(self, m: Builder, i: int, b0: RSpirvBuilder, b1: RSpirvBuilder, f0: FuncMapInfo, f1: FuncMapInfo,
        m2: Builder, shader: ShaderMapInfo) -> bool
    {
        &&& module_view(b0.raw).function == Some(i as usize)
        &&& module_view(b0.raw).functions[i].len() == 1
        &&& module_view(b0.raw).functions[i][0].insts.len() == 0
        &&& module_view(b0.raw).block == Some(0usize)
        &&& f0.vars@ == Map::<usize, u32>::empty()
        &&& f0.var_block == 0
        &&& typed_lowered(self.functions@[i].instructions@, b0, b1, f0, f1, shader)
        &&& (m2 == b1.raw || terminated(b1.raw, m2, InstView::Return))
        &&& module_view(m).functions[i] == module_view(m2).functions[i]
    }

    /// Function `i` of module `m` is recorded function `i` lowered, with the
    /// declared resources `shader`.
    pub open spec fn fn_done(self, m: Builder, i: int, shader: ShaderMapInfo) -> bool {
        exists|b0: RSpirvBuilder, b1: RSpirvBuilder, f0: FuncMapInfo, f1: FuncMapInfo, m2: Builder|
            #[trigger] self.fn_built(m, i, b0, b1, f0, f1, m2, shader)
    }

    /// Entry point `e` is declared in module `m`, at the same place: of the
    /// execution model of its stage, on the result id of its function, named
    /// as its function, with the declared inputs and then outputs of
    /// `shader` as its interface.
    pub open spec fn entry_declared(self, m: Builder, e: int, shader: ShaderMapInfo) -> bool {
        let ep = module_view(m).entry_points[e];
        &&& ep.model == crate::builder::stage_model(self.entry_points@[e].0)
        &&& ep.function == module_view(m).function_ids[self.entry_points@[e].1 as int]
        &&& Some(ep.name) == crate::types::name_view(self.functions@[self.entry_points@[e].1 as int].name)
        &&& ep.interface == shader.inputs@ + shader.outputs@
    }

    /// `m` is the module built from what was recorded, with the declared
    /// resources `shader`: each input and output a variable of its storage
    /// class; each recorded function lowered; each entry point declared.
    pub open spec fn built_module(self, m: Builder, shader: ShaderMapInfo) -> bool {
        &&& shader.inputs@.len() == self.inputs@.len()
        &&& shader.outputs@.len() == self.outputs@.len()
        &&& forall|i: int| 0 <= i < shader.inputs@.len() ==> has_var(module_view(m).globals, #[trigger] shader.inputs@[i], 1)
        &&& forall|i: int| 0 <= i < shader.outputs@.len() ==> has_var(module_view(m).globals, #[trigger] shader.outputs@[i], 3)
        &&& module_view(m).functions.len() == self.functions@.len()
        &&& module_view(m).function_ids.len() == self.functions@.len()
        &&& forall|i: int| 0 <= i < self.functions@.len() ==> #[trigger] self.fn_done(m, i, shader)
        &&& module_view(m).entry_points.len() == self.entry_points@.len()
        &&& forall|e: int| 0 <= e < self.entry_points@.len() ==> #[trigger] self.entry_declared(m, e, shader)
    }

    /// Whether everything recorded can be built into a module.
    pub fn check_compilable(&self) -> (r: bool)
        ensures
            r == self.compilable(),
    {
        let c = self.counts();
        let n = self.entry_points.len();
        let mut i: usize = 0;
        while i < n
            invariant
                n == self.entry_points@.len(),
                i <= n,
                forall|a: int, b: int| 0 <= a < b < i ==> #[trigger] self.entry_points@[a].0 != #[trigger] self.entry_points@[b].0,
                forall|a: int| 0 <= a < i ==> #[trigger] self.entry_points@[a].1 < self.functions@.len(),
                forall|a: int| 0 <= a < i ==> (#[trigger] self.functions@[self.entry_points@[a].1 as int]).name is Some,
            decreases n - i,
        {
            if self.entry_points[i].1 >= self.functions.len() {
                return false;
            }
            if self.functions[self.entry_points[i].1].name.is_none() {
                return false;
            }
            let mut j: usize = 0;
            while j < i
                invariant
                    i < n,
                    n == self.entry_points@.len(),
                    j <= i,
                    forall|a: int| 0 <= a < j ==> self.entry_points@[a].0 != self.entry_points@[i as int].0,
                decreases i - j,
            {
                if self.entry_points[j].0 == self.entry_points[i].0 {
                    return false;
                }
                j = j + 1;
            }
            i = i + 1;
        }
        let nf = self.functions.len();
        let mut k: usize = 0;
        while k < nf
            invariant
                nf == self.functions@.len(),
                k <= nf,
                c == counts_of(*self),
                self.wf(),
                forall|a: int| 0 <= a < self.entry_points@.len() ==> (#[trigger] self.functions@[self.entry_points@[a].1 as int]).name is Some,
                forall|a: int| 0 <= a < k ==> func_ok(#[trigger] self.functions@[a], c),
            decreases nf - k,
        {
            let f = &self.functions[k];
            if !strides_ok(&f.ret) {
                return false;
            }
            let mut q: usize = 0;
            while q < f.arguments.len()
                invariant
                    q <= f.arguments@.len(),
                    k < nf,
                    nf == self.functions@.len(),
                    *f == self.functions@[k as int],
                    forall|a: int| 0 <= a < q ==> strides_fit((#[trigger] f.arguments@[a])@),
                decreases f.arguments@.len() - q,
            {
                if !strides_ok(&f.arguments[q]) {
                    assert(!func_ok(self.functions@[k as int], c));
                    return false;
                }
                q = q + 1;
            }
            if !check_instrs(&f.instructions, &c) {
                return false;
            }
            k = k + 1;
        }
        match &self.push_constants {
            Some(p) => {
                if !strides_ok(&p.ty) {
                    return false;
                }
            },
            None => {},
        }
        let mut u: usize = 0;
        while u < self.uniforms.len()
            invariant
                u <= self.uniforms@.len(),
                forall|a: int| 0 <= a < u ==> strides_fit((#[trigger] self.uniforms@[a]).ty@),
            decreases self.uniforms@.len() - u,
        {
            if !strides_ok(&self.uniforms[u].ty) {
                return false;
            }
            u = u + 1;
        }
        let mut s: usize = 0;
        while s < self.storages.len()
            invariant
                s <= self.storages@.len(),
                forall|a: int| 0 <= a < s ==> storage_ok(#[trigger] self.storages@[a]),
            decreases self.storages@.len() - s,
        {
            let t = &self.storages[s].ty;
            if !strides_ok(t) || !fits_check(t) {
                return false;
            }
            if t.size().is_none() {
                return false;
            }
            s = s + 1;
        }
        true
    }

    /// Builds the SPIR-V module: a SPIR-V 1.0 shader module with the
    /// GLSL.std.450 instruction set and the GLSL450 memory model; the declared
    /// inputs, outputs, push constants, buffers, textures and samplers; every
    /// recorded function with its instructions lowered in order and a return
    /// after them unless they end in a discard; and the entry points, each
    /// listing every input and output, a fragment entry point with its origin
    /// at the upper left. The words start with the SPIR-V header, and are
    /// those of a module in which each recorded function holds its
    /// instructions lowered as `lower_instr` states (`fn_done`) and each
    /// entry point is declared in order (`entry_declared`).
    pub fn compile(&self) -> (r: Result<Vec<u32>, CompileError>)
        requires
            self.compilable(),
        ensures
            r matches Ok(w) ==> w@.len() >= 5 && w@[0] == 0x0723_0203 && w@[4] == 0,
            r matches Ok(w) ==> exists|m: Builder, sh: ShaderMapInfo| #[trigger] self.built_module(m, sh) && module_words(m) == w@,
            self.functions@.len() == 0 ==> r is Ok,
            (forall|i: int| 0 <= i < self.functions@.len() ==> typed_plain((#[trigger] self.functions@[i]).instructions@)) ==> r is Ok,
    {
        let mut raw = new_module_builder();
        let ext = ext_inst_import(&mut raw, "GLSL.std.450");
        let mut b = RSpirvBuilder { raw, ext, struct_map: Vec::new() };
        set_version(&mut b.raw, 1, 0);
        capability(&mut b.raw, 1);
        memory_model(&mut b.raw, 0, 1);
        source(&mut b.raw, 0, 450);
        assert(module_view(b.raw).function is None);
        assert(builder_ok(b.raw));
        let inputs = map_io(&mut b, &self.inputs, 1);
        let ghost bi = b.raw;
        let outputs = map_io(&mut b, &self.outputs, 3);
        let ghost bo = b.raw;
        let push_constants = map_push_constants(&mut b, &self.push_constants);
        let uniforms = map_uniforms(&mut b, &self.uniforms);
        let storages = map_storages(&mut b, &self.storages);
        let textures = map_textures(&mut b, &self.textures);
        let sampled_textures = map_sampled_textures(&mut b, &self.sampled_textures);
        let samplers = map_samplers(&mut b, &self.samplers);
        proof {
            assert forall|i: int, k: int| 0 <= i < self.functions@.len() && 0 <= k < self.functions@[i].arguments@.len()
                implies strides_fit((#[trigger] self.functions@[i].arguments@[k])@) by {
                assert(func_ok(self.functions@[i], counts_of(*self)));
            }
            assert forall|i: int| 0 <= i < self.functions@.len() implies strides_fit((#[trigger] self.functions@[i]).ret@) by {
                assert(func_ok(self.functions@[i], counts_of(*self)));
            }
        }
        let functions = map_functions(&mut b, &self.functions)?;
        let ghost bm = b.raw;
        let info = ShaderMapInfo {
            inputs,
            outputs,
            push_constants,
            uniforms,
            storages,
            textures,
            sampled_textures,
            samplers,
            functions,
        };
        assert(info.counts() == counts_of(*self));
        let nf = self.functions.len();
        let mut i: usize = 0;
        while i < nf
            invariant
                nf == self.functions@.len(),
                info.functions@.len() == nf,
                info.counts() == counts_of(*self),
                i <= nf,
                b.wf(),
                module_view(b.raw).block is None,
                module_view(b.raw).functions.len() == nf,
                forall|j: int| 0 <= j < nf ==> (#[trigger] info.functions@[j]).1 == j,
                forall|j: int| i <= j < nf ==> #[trigger] module_view(b.raw).functions[j] == Seq::<BlockView>::empty(),
                forall|j: int| 0 <= j < i ==> #[trigger] self.fn_done(b.raw, j, info),
                seq_prefix(module_view(bm).globals, module_view(b.raw).globals),
                module_view(b.raw).function_ids == module_view(bm).function_ids,
                forall|a: int| 0 <= a < nf ==> func_ok(#[trigger] self.functions@[a], counts_of(*self)),
                module_view(b.raw).entry_points.len() == 0,
            decreases nf - i,
        {
            let fn_idx = info.functions[i].1;
            let ghost bstart = b.raw;
            lift(select_function(&mut b.raw, Some(fn_idx)))?;
            lift(begin_block(&mut b.raw, None))?;
            let var_block = match selected_block(&b.raw) {
                Some(v) => v,
                None => {
                    return Err(CompileError::NoBlock);
                },
            };
            let mut f = FuncMapInfo { vars: HashMap::new(), var_block, block_info: BlockInfo::Top };
            assert(func_ok(self.functions@[i as int], counts_of(*self)));
            let ghost b0 = b;
            let ghost f0 = f;
            let bl = lower_list(&mut b, &info, &mut f, &self.functions[i].instructions)?;
            let ghost b1 = b;
            let ghost f1 = f;
            if !bl {
                lift(ret(&mut b.raw))?;
            }
            proof {
                assert(var_block == 0);
                assert(f0.vars@ =~= Map::<usize, u32>::empty());
                assert(self.fn_built(b.raw, i as int, b0, b1, f0, f1, b.raw, info));
                assert forall|j: int| 0 <= j < nf && j != i implies #[trigger] module_view(b.raw).functions[j] == module_view(bstart).functions[j] by {
                    assert(module_view(b0.raw).functions[j] == module_view(bstart).functions[j]);
                    assert(module_view(b1.raw).functions[j] == module_view(b0.raw).functions[j]);
                }
                assert forall|j: int| 0 <= j < i + 1 implies #[trigger] self.fn_done(b.raw, j, info) by {
                    if j < i {
                        assert(self.fn_done(bstart, j, info));
                        let (c0, c1, g0, g1, n2) = choose|c0: RSpirvBuilder, c1: RSpirvBuilder, g0: FuncMapInfo, g1: FuncMapInfo, n2: Builder|
                            #[trigger] self.fn_built(bstart, j, c0, c1, g0, g1, n2, info);
                        assert(self.fn_built(b.raw, j, c0, c1, g0, g1, n2, info));
                    }
                }
                assert forall|x: int| 0 <= x < module_view(bm).globals.len() implies #[trigger] module_view(b.raw).globals[x] == module_view(bm).globals[x] by {
                    assert(module_view(bstart).globals[x] == module_view(bm).globals[x]);
                    assert(module_view(b1.raw).globals[x] == module_view(b0.raw).globals[x]);
                }
            }
            i = i + 1;
        }
        let mut interface: Vec<u32> = Vec::new();
        let mut k: usize = 0;
        while k < info.inputs.len()
            invariant
                k <= info.inputs@.len(),
                interface@ == info.inputs@.take(k as int),
            decreases info.inputs@.len() - k,
        {
            interface.push(info.inputs[k]);
            k = k + 1;
            proof { assert(interface@ =~= info.inputs@.take(k as int)); }
        }
        proof { assert(info.inputs@.take(info.inputs@.len() as int) =~= info.inputs@); }
        let mut k: usize = 0;
        while k < info.outputs.len()
            invariant
                k <= info.outputs@.len(),
                interface@ == info.inputs@ + info.outputs@.take(k as int),
            decreases info.outputs@.len() - k,
        {
            interface.push(info.outputs[k]);
            k = k + 1;
            proof { assert(interface@ =~= info.inputs@ + info.outputs@.take(k as int)); }
        }
        proof { assert(info.outputs@.take(info.outputs@.len() as int) =~= info.outputs@); }
        let ne = self.entry_points.len();
        let mut e: usize = 0;
        while e < ne
            invariant
                ne == self.entry_points@.len(),
                e <= ne,
                info.functions@.len() == self.functions@.len(),
                self.compilable(),
                module_view(b.raw).functions.len() == self.functions@.len(),
                forall|j: int| 0 <= j < self.functions@.len() ==> #[trigger] self.fn_done(b.raw, j, info),
                module_view(b.raw).entry_points.len() == e,
                forall|x: int| 0 <= x < e ==> #[trigger] self.entry_declared(b.raw, x, info),
                interface@ == info.inputs@ + info.outputs@,
                module_view(b.raw).function_ids == module_view(bm).function_ids,
                forall|j: int| 0 <= j < self.functions@.len() ==> module_view(bm).function_ids[j] == (#[trigger] info.functions@[j]).0,
                module_view(b.raw).globals == module_view(bm).globals || seq_prefix(module_view(bm).globals, module_view(b.raw).globals),
            decreases ne - e,
        {
            let ghost be = b.raw;
            let (stage, fn_id) = self.entry_points[e];
            assert(self.entry_points@[e as int].1 < self.functions@.len());
            let spv_fn = info.functions[fn_id].0;
            if stage == ShaderStage::Fragment {
                execution_mode(&mut b.raw, spv_fn, 7);
            }
            assert(self.functions@[self.entry_points@[e as int].1 as int].name is Some);
            match &self.functions[fn_id].name {
                Some(n) => entry_point(&mut b.raw, stage.model(), spv_fn, n.as_str(), &interface),
                None => {},
            }
            proof {
                assert forall|x: int| 0 <= x < e + 1 implies #[trigger] self.entry_declared(b.raw, x, info) by {
                    if x < e {
                        assert(self.entry_declared(be, x, info));
                        assert(module_view(b.raw).entry_points[x] == module_view(be).entry_points[x]);
                    } else {
                        assert(info.functions@[fn_id as int].0 == module_view(bm).function_ids[fn_id as int]);
                    }
                }
                assert forall|j: int| 0 <= j < self.functions@.len() implies #[trigger] self.fn_done(b.raw, j, info) by {
                    assert(self.fn_done(be, j, info));
                    let (c0, c1, g0, g1, n2) = choose|c0: RSpirvBuilder, c1: RSpirvBuilder, g0: FuncMapInfo, g1: FuncMapInfo, n2: Builder|
                        #[trigger] self.fn_built(be, j, c0, c1, g0, g1, n2, info);
                    assert(self.fn_built(b.raw, j, c0, c1, g0, g1, n2, info));
                }
            }
            e = e + 1;
        }
        let ghost m = b.raw;
        let w = assemble(b.raw);
        proof {
            assert(seq_prefix(module_view(bi).globals, module_view(bm).globals));
            assert(seq_prefix(module_view(bo).globals, module_view(bm).globals));
            assert(seq_prefix(module_view(bm).globals, module_view(m).globals));
            assert forall|i: int| 0 <= i < info.inputs@.len() implies has_var(module_view(m).globals, #[trigger] info.inputs@[i], 1) by {
                lemma_has_var_prefix(module_view(bi).globals, module_view(bm).globals, info.inputs@[i], 1);
                lemma_has_var_prefix(module_view(bm).globals, module_view(m).globals, info.inputs@[i], 1);
            }
            assert forall|i: int| 0 <= i < info.outputs@.len() implies has_var(module_view(m).globals, #[trigger] info.outputs@[i], 3) by {
                lemma_has_var_prefix(module_view(bo).globals, module_view(bm).globals, info.outputs@[i], 3);
                lemma_has_var_prefix(module_view(bm).globals, module_view(m).globals, info.outputs@[i], 3);
            }
            assert(self.built_module(m, info));
        }
        assert(module_words(m) == w@);
        Ok(w)
    }
}

} // verus!
