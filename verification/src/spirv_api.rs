//! The calls this library makes into the `rspirv` module builder.
//!
//! Each function here makes one builder call, converting SPIR-V enumerant
//! codes into `rspirv`'s enums on the way. Verus trusts their contracts, which
//! speak of [`module_view`]: the module's global section of types, constants
//! and variables, its decorations, capabilities, entry points, execution
//! modes and debug names, the blocks of its functions, and which function
//! and block are selected. The header, the memory model, the source
//! language and the imported instruction sets are not part of that view,
//! and neither is which fresh result id a call hands out.

use rspirv::binary::Assemble;
use rspirv::dr::Builder;
use rspirv::dr::Error;
use vstd::prelude::*;

use crate::select::{BinOp, UnOp};

verus! {

#[verifier::external_type_specification]
#[verifier::external_body]
pub struct ExBuilder(rspirv::dr::Builder);

#[verifier::external_type_specification]
#[verifier::external_body]
pub struct ExError(rspirv::dr::Error);

/// An operand of a decoration: a literal number, or a built-in variable by its
/// SPIR-V code.
#[derive(Clone, Copy, PartialEq, Eq, Debug)]
pub enum SpvOperand {
    Literal(u32),
    BuiltIn(u32),
}

/// The decoration codes that `Decoration::from_u32` accepts among the first
/// forty-eight.
pub open spec fn decoration_code_ok(code: u32) -> bool {
    code <= 11 || (13 <= code && code <= 47)
}

/// Built-in codes that `BuiltIn::from_u32` accepts.
pub open spec fn builtin_code_ok(code: u32) -> bool {
    code <= 1 || (3 <= code && code <= 20) || (22 <= code && code <= 34) || (36 <= code && code <= 43)
        || (4424 <= code && code <= 4426)
}

/// Every built-in operand carries an accepted code.
pub open spec fn operands_ok(ops: Seq<SpvOperand>) -> bool {
    forall|i: int| 0 <= i < ops.len() ==> (#[trigger] ops[i] matches SpvOperand::BuiltIn(c) ==> builtin_code_ok(c))
}

/// A type declaration, by its operands.
pub enum TypeDecl {
    Void,
    Bool,
    Int { width: u32, signedness: u32 },
    Float { width: u32 },
    Vector { component: u32, count: u32 },
    Matrix { column: u32, count: u32 },
    Array { element: u32, length: u32 },
    RuntimeArray { element: u32 },
    Struct { members: Seq<u32> },
    Pointer { class: u32, pointee: u32 },
    Function { ret: u32, params: Seq<u32> },
    Image { sampled: u32, dim: u32, depth: u32, arrayed: u32, ms: u32, is_sampled: u32, format: u32 },
    SampledImage { image: u32 },
    Sampler,
}

/// An instruction of the module, as this library emits them: by its
/// opcode, result type, result id and operands.
pub enum InstView {
    Type { decl: TypeDecl, res: u32 },
    ConstantTrue { ty: u32, res: u32 },
    ConstantFalse { ty: u32, res: u32 },
    Constant32 { ty: u32, res: u32, value: u32 },
    Constant64 { ty: u32, res: u32, value: u64 },
    ConstantComposite { ty: u32, res: u32, parts: Seq<u32> },
    Variable { ty: u32, res: u32, class: u32 },
    Bin { op: BinOp, ty: u32, res: u32, lhs: u32, rhs: u32 },
    Un { op: UnOp, ty: u32, res: u32, operand: u32 },
    Load { ty: u32, res: u32, pointer: u32 },
    Store { pointer: u32, object: u32 },
    AccessChain { ty: u32, res: u32, base: u32, indexes: Seq<u32> },
    CompositeConstruct { ty: u32, res: u32, parts: Seq<u32> },
    CompositeExtract { ty: u32, res: u32, composite: u32, indexes: Seq<u32> },
    VectorShuffle { ty: u32, res: u32, v1: u32, v2: u32, components: Seq<u32> },
    SampledImage { ty: u32, res: u32, image: u32, sampler: u32 },
    SampleImplicitLod { ty: u32, res: u32, image: u32, coordinate: u32 },
    SampleExplicitLod { ty: u32, res: u32, image: u32, coordinate: u32 },
    ExtInst { ty: u32, res: u32, set: u32, instruction: u32, operands: Seq<u32> },
    SelectionMerge { merge: u32 },
    LoopMerge { merge: u32, continue_target: u32 },
    Branch { target: u32 },
    BranchConditional { condition: u32, true_label: u32, false_label: u32 },
    Kill,
    Return,
}

/// A decoration of the module: of an id, or of a member of a struct type,
/// by its SPIR-V code and operands.
pub enum AnnotView {
    Decorate { target: u32, decoration: u32, operands: Seq<SpvOperand> },
    MemberDecorate { ty: u32, member: u32, decoration: u32, operands: Seq<SpvOperand> },
}

/// An entry point of the module: its execution model's SPIR-V code, its
/// function, its name and its interface variables.
pub struct EntryView {
    pub model: u32,
    pub function: u32,
    pub name: Seq<char>,
    pub interface: Seq<u32>,
}

/// A debug name of the module: of an id, or of a member of a struct type.
pub enum NameView {
    Name { target: u32, name: Seq<char> },
    MemberName { ty: u32, member: u32, name: Seq<char> },
}

/// A block of a function: its label and its instructions in order.
pub struct BlockView {
    pub label: u32,
    pub insts: Seq<InstView>,
}

/// What a module builder holds, as far as this library reads it: the
/// module's capabilities, entry points, execution modes (of a function, by
/// their SPIR-V code), debug names, decorations, and types, constants and
/// global variables, each in order; the result id and the blocks of each
/// function; and the selected function and block.
pub struct ModuleView {
    pub capabilities: Seq<u32>,
    pub entry_points: Seq<EntryView>,
    pub execution_modes: Seq<(u32, u32)>,
    pub names: Seq<NameView>,
    pub globals: Seq<InstView>,
    pub annotations: Seq<AnnotView>,
    pub function_ids: Seq<u32>,
    pub functions: Seq<Seq<BlockView>>,
    pub function: Option<usize>,
    pub block: Option<usize>,
}

/// The contents of a module builder.
pub uninterp spec fn module_view(b: Builder) -> ModuleView;

/// The words `assemble` gives for a builder.
pub uninterp spec fn module_words(b: Builder) -> Seq<u32>;

/// A function and a block of it are selected.
pub open spec fn in_block(b: Builder) -> bool {
    module_view(b).function is Some && module_view(b).block is Some
}

/// The selected function and block, where selected, exist: every call that
/// indexes the module by them finds them.
pub open spec fn builder_ok(b: Builder) -> bool {
    let v = module_view(b);
    &&& (v.function is Some ==> v.function->Some_0 < v.functions.len())
    &&& (v.function is Some && v.block is Some ==> v.block->Some_0 < v.functions[v.function->Some_0 as int].len())
}

/// The selected block.
pub open spec fn current_block(b: Builder) -> BlockView {
    let v = module_view(b);
    v.functions[v.function->Some_0 as int][v.block->Some_0 as int]
}

/// The functions' blocks with the selected block replaced by `blk`.
pub open spec fn with_current(b: Builder, blk: BlockView) -> Seq<Seq<BlockView>> {
    let v = module_view(b);
    let f = v.function->Some_0 as int;
    v.functions.update(f, v.functions[f].update(v.block->Some_0 as int, blk))
}

/// Nothing the library reads changed.
pub open spec fn same_code(a: Builder, b: Builder) -> bool {
    module_view(b) == module_view(a)
}

/// The same function and block are selected.
pub open spec fn sel_kept(a: Builder, b: Builder) -> bool {
    &&& module_view(b).function == module_view(a).function
    &&& module_view(b).block == module_view(a).block
}

/// Only the global section changed.
pub open spec fn only_globals(a: Builder, b: Builder) -> bool {
    &&& sel_kept(a, b)
    &&& module_view(b).functions == module_view(a).functions
}

/// `b` is `a` with `i` appended to the selected block.
pub open spec fn appended(a: Builder, b: Builder, i: InstView) -> bool {
    let blk = current_block(a);
    module_view(b) == ModuleView {
        functions: with_current(a, BlockView { label: blk.label, insts: blk.insts.push(i) }),
        ..module_view(a)
    }
}

/// Block `k` of the selected function exists.
pub open spec fn block_exists(b: Builder, k: usize) -> bool {
    module_view(b).function is Some && k < module_view(b).functions[module_view(b).function->Some_0 as int].len()
}

/// The `j`-th instruction of `s` from its end, counting from one.
pub open spec fn back(s: Seq<InstView>, j: int) -> InstView {
    s[s.len() - j]
}

/// `b` is `a` with the `Function` variable `v` of pointer type `p_ty`
/// put first in block `k` of the selected function.
pub open spec fn var_put(a: Builder, b: Builder, k: usize, p_ty: u32, v: u32) -> bool {
    let m = module_view(a);
    let f = m.function->Some_0 as int;
    let blk = m.functions[f][k as int];
    &&& sel_kept(a, b)
    &&& module_view(b).functions == m.functions.update(f, m.functions[f].update(k as int, BlockView {
            label: blk.label,
            insts: seq![InstView::Variable { ty: p_ty, res: v, class: 7 }] + blk.insts,
        }))
}

/// After putting a variable first in some block, the selected block holds
/// what it held, after that variable if it is the block it was put in.
pub proof fn lemma_var_put_current(a: Builder, b: Builder, k: usize, p_ty: u32, v: u32)
    requires
        builder_ok(a),
        in_block(a),
        block_exists(a, k),
        var_put(a, b, k, p_ty, v),
    ensures
        in_block(b),
        builder_ok(b),
        current_block(b).insts == (if module_view(a).block->Some_0 == k {
            seq![InstView::Variable { ty: p_ty, res: v, class: 7 }] + current_block(a).insts
        } else {
            current_block(a).insts
        }),
{
}

/// `s` ends with `t`.
pub open spec fn is_suffix(t: Seq<InstView>, s: Seq<InstView>) -> bool {
    &&& t.len() <= s.len()
    &&& forall|j: int| 1 <= j <= t.len() ==> #[trigger] back(s, j) == back(t, j)
}

/// The same block is selected in `b` as in `a`, and it ends with all that
/// it held in `a`: only instructions before them were added.
pub open spec fn block_grew(a: Builder, b: Builder) -> bool {
    &&& in_block(b)
    &&& sel_kept(a, b)
    &&& is_suffix(current_block(a).insts, current_block(b).insts)
}

/// The same block is selected in `b` as in `a`; it ends with `i`, and before
/// `i` with all that it held in `a`.
pub open spec fn grew_then(a: Builder, b: Builder, i: InstView) -> bool {
    let sb = current_block(b).insts;
    &&& in_block(b)
    &&& sel_kept(a, b)
    &&& sb.len() >= 1
    &&& back(sb, 1) == i
    &&& is_suffix(current_block(a).insts, sb.drop_last())
}

/// `is_suffix` composes.
pub proof fn lemma_suffix_trans(a: Seq<InstView>, b: Seq<InstView>, c: Seq<InstView>)
    requires
        is_suffix(a, b),
        is_suffix(b, c),
    ensures
        is_suffix(a, c),
{
    assert forall|j: int| 1 <= j <= a.len() implies #[trigger] back(c, j) == back(a, j) by {
        assert(back(c, j) == back(b, j));
    }
}

/// After an append, the block minus its last instruction is what it was.
pub proof fn lemma_push_suffix(s: Seq<InstView>, i: InstView)
    ensures
        is_suffix(s, s.push(i).drop_last()),
        back(s.push(i), 1) == i,
        forall|j: int| 1 <= j <= s.len() ==> #[trigger] back(s.push(i), j + 1) == back(s, j),
{
    assert(s.push(i).drop_last() =~= s);
    assert forall|j: int| 1 <= j <= s.len() implies #[trigger] back(s.push(i), j + 1) == back(s, j) by {
        assert(s.push(i)[s.len() + 1 - (j + 1)] == s[s.len() - j]);
    }
}

/// Counting from the end, the block without its last instruction is the
/// block from its second instruction from the end on.
pub proof fn lemma_back_drop(s: Seq<InstView>)
    requires
        s.len() >= 1,
    ensures
        forall|j: int| 1 <= j < s.len() ==> #[trigger] back(s.drop_last(), j) == back(s, j + 1),
{
    assert forall|j: int| 1 <= j < s.len() implies #[trigger] back(s.drop_last(), j) == back(s, j + 1) by {
        assert(s.drop_last()[s.len() - 1 - j] == s[s.len() - (j + 1)]);
    }
}

/// A sequence ends with itself.
pub proof fn lemma_suffix_refl(s: Seq<InstView>)
    ensures
        is_suffix(s, s),
{
}

/// Putting `x` first keeps what followed.
pub proof fn lemma_prepend_suffix(s: Seq<InstView>, x: InstView)
    ensures
        is_suffix(s, seq![x] + s),
{
    let t = seq![x] + s;
    assert forall|j: int| 1 <= j <= s.len() implies #[trigger] back(t, j) == back(s, j) by {
        assert(t[t.len() - j] == s[s.len() - j]);
    }
}

/// `b` is `a` with `i` appended to the selected block, where the global
/// section may have grown.
pub open spec fn pushed_inst(a: Builder, b: Builder, i: InstView) -> bool {
    let blk = current_block(a);
    &&& in_block(a)
    &&& sel_kept(a, b)
    &&& module_view(b).functions == with_current(a, BlockView { label: blk.label, insts: blk.insts.push(i) })
}

/// `b` is `a` with `i` appended to the selected block, which is then no
/// longer selected.
pub open spec fn terminated(a: Builder, b: Builder, i: InstView) -> bool {
    let blk = current_block(a);
    module_view(b) == ModuleView {
        functions: with_current(a, BlockView { label: blk.label, insts: blk.insts.push(i) }),
        block: None,
        ..module_view(a)
    }
}

/// `b` is `a` with `i` appended to the module's global section.
pub open spec fn pushed(a: Builder, b: Builder, i: InstView) -> bool {
    module_view(b) == ModuleView { globals: module_view(a).globals.push(i), ..module_view(a) }
}

/// The id of the first declaration of `d` among `g`.
pub open spec fn find_type(g: Seq<InstView>, d: TypeDecl) -> Option<u32>
    decreases g.len(),
{
    if g.len() == 0 {
        None
    } else {
        match find_type(g.drop_last(), d) {
            Some(x) => Some(x),
            None => match g.last() {
                InstView::Type { decl, res } => if decl == d { Some(res) } else { None },
                _ => None,
            },
        }
    }
}

/// `b` is `a` after asking for type `d` as `r`: the id `d` was declared
/// under before, or else a new declaration of `d` under `r`.
pub open spec fn declared(a: Builder, b: Builder, d: TypeDecl, r: u32) -> bool {
    match find_type(module_view(a).globals, d) {
        Some(x) => r == x && module_view(b) == module_view(a),
        None => pushed(a, b, InstView::Type { decl: d, res: r }),
    }
}

/// `s` is a prefix of `t`.
pub open spec fn seq_prefix(s: Seq<InstView>, t: Seq<InstView>) -> bool {
    s.len() <= t.len() && forall|i: int| 0 <= i < s.len() ==> #[trigger] t[i] == s[i]
}

/// `i` is among `g`.
pub open spec fn has_inst(g: Seq<InstView>, i: InstView) -> bool {
    exists|k: int| 0 <= k < g.len() && g[k] == i
}

/// A declaration found stays found, under the same id, when declarations
/// are added after it.
pub proof fn lemma_find_prefix(s: Seq<InstView>, t: Seq<InstView>, d: TypeDecl)
    requires
        seq_prefix(s, t),
        find_type(s, d) is Some,
    ensures
        find_type(t, d) == find_type(s, d),
    decreases t.len(),
{
    if t.len() > s.len() {
        let t2 = t.drop_last();
        assert(seq_prefix(s, t2)) by {
            assert forall|i: int| 0 <= i < s.len() implies #[trigger] t2[i] == s[i] by {
                assert(t[i] == s[i]);
            }
        }
        lemma_find_prefix(s, t2, d);
    } else {
        assert(t =~= s);
    }
}

/// Asking for a type gives the id it is found under afterwards, and only
/// adds to the global section.
pub broadcast proof fn lemma_declared(a: Builder, b: Builder, d: TypeDecl, r: u32)
    requires
        #[trigger] declared(a, b, d, r),
    ensures
        find_type(module_view(b).globals, d) == Some(r),
        seq_prefix(module_view(a).globals, module_view(b).globals),
{
    let g = module_view(a).globals;
    if find_type(g, d) is None {
        assert(module_view(b).globals.drop_last() =~= g);
    }
}

/// `a` is among `s`.
pub open spec fn has_annot(s: Seq<AnnotView>, a: AnnotView) -> bool {
    exists|k: int| 0 <= k < s.len() && s[k] == a
}

/// Among `g` is a variable `v` of the storage class with code `class`.
pub open spec fn has_var(g: Seq<InstView>, v: u32, class: u32) -> bool {
    exists|k: int| 0 <= k < g.len() && g[k] is Variable && (#[trigger] g[k])->Variable_res == v && g[k]->Variable_class == class
}

/// A variable present stays present when instructions are added after it.
pub proof fn lemma_has_var_prefix(s: Seq<InstView>, t: Seq<InstView>, v: u32, class: u32)
    requires
        seq_prefix(s, t),
        has_var(s, v, class),
    ensures
        has_var(t, v, class),
{
    let k = choose|k: int| 0 <= k < s.len() && s[k] is Variable && (#[trigger] s[k])->Variable_res == v && s[k]->Variable_class == class;
    assert(t[k] == s[k]);
}

/// An instruction present stays present when instructions are added after it.
pub proof fn lemma_has_prefix(s: Seq<InstView>, t: Seq<InstView>, i: InstView)
    requires
        seq_prefix(s, t),
        has_inst(s, i),
    ensures
        has_inst(t, i),
{
    let k = choose|k: int| 0 <= k < s.len() && s[k] == i;
    assert(t[k] == s[k]);
}

/// `rspirv::dr::Builder::new`: an empty module builder.
#[verifier::external_body]
pub(crate) fn new_module_builder() -> (r: Builder)
    ensures
        module_view(r) == (ModuleView { capabilities: Seq::empty(), entry_points: Seq::empty(), execution_modes: Seq::empty(),
            names: Seq::empty(), globals: Seq::empty(), annotations: Seq::empty(), function_ids: Seq::empty(), functions: Seq::empty(),
            function: None, block: None }),
{
    Builder::new()
}

/// `Builder::ext_inst_import`: declares an extended instruction set and returns its id.
#[verifier::external_body]
pub(crate) fn ext_inst_import(b: &mut Builder, set: &str) -> (r: u32)
    ensures
        same_code(*old(b), *final(b)),
{
    b.ext_inst_import(set)
}

/// `Builder::set_version`: sets the SPIR-V version of the module.
#[verifier::external_body]
pub(crate) fn set_version(b: &mut Builder, major: u8, minor: u8)
    ensures
        same_code(*old(b), *final(b)),
{
    b.set_version(major, minor)
}

/// `Builder::capability`: declares the capability with the given SPIR-V code (converted by `Capability::from_u32`, which accepts codes 0 to 15).
#[verifier::external_body]
pub(crate) fn capability(b: &mut Builder, code: u32)
    requires
        code <= 15,
    ensures
        module_view(*final(b)) == (ModuleView { capabilities: module_view(*old(b)).capabilities.push(code), ..module_view(*old(b)) }),
{
    b.capability(rspirv::spirv::Capability::from_u32(code).unwrap())
}

/// `Builder::memory_model`: sets the addressing and memory model, given by their SPIR-V codes (`from_u32` accepts addressing codes 0 to 2 and memory codes 0 to 3).
#[verifier::external_body]
pub(crate) fn memory_model(b: &mut Builder, addressing: u32, memory: u32)
    requires
        addressing <= 2,
        memory <= 3,
    ensures
        same_code(*old(b), *final(b)),
{
    b.memory_model(
        rspirv::spirv::AddressingModel::from_u32(addressing).unwrap(),
        rspirv::spirv::MemoryModel::from_u32(memory).unwrap(),
    )
}

/// `Builder::source`: records the source language (SPIR-V code, `from_u32` accepts 0 to 13) and version, with no file and no text.
#[verifier::external_body]
pub(crate) fn source(b: &mut Builder, language: u32, version: u32)
    requires
        language <= 13,
    ensures
        same_code(*old(b), *final(b)),
{
    b.source(rspirv::spirv::SourceLanguage::from_u32(language).unwrap(), version, None, Option::<String>::None)
}

/// `Builder::entry_point`: declares `function` an entry point of the execution model with the given SPIR-V code (`from_u32` accepts 0 to 6) under `name`, with its interface variables.
#[verifier::external_body]
pub(crate) fn entry_point(b: &mut Builder, model: u32, function: u32, name: &str, interface: &Vec<u32>)
    requires
        model <= 6,
    ensures
        module_view(*final(b)) == (ModuleView { entry_points: module_view(*old(b)).entry_points.push(EntryView {
            model, function, name: name@, interface: interface@ }), ..module_view(*old(b)) }),
{
    b.entry_point(rspirv::spirv::ExecutionModel::from_u32(model).unwrap(), function, name, interface.as_slice())
}

/// `Builder::execution_mode`: declares an execution mode (SPIR-V code, `from_u32` accepts 0 to 12) of an entry point, with no parameters.
#[verifier::external_body]
pub(crate) fn execution_mode(b: &mut Builder, function: u32, mode: u32)
    requires
        mode <= 12,
    ensures
        module_view(*final(b)) == (ModuleView { execution_modes: module_view(*old(b)).execution_modes.push((function, mode)), ..module_view(*old(b)) }),
{
    b.execution_mode(function, rspirv::spirv::ExecutionMode::from_u32(mode).unwrap(), [])
}

/// `Builder::module` followed by `Assemble::assemble`: the words of the
/// finished module. `module` always gives the module a header, and the
/// header is assembled first: the SPIR-V magic number, the version, the
/// generator, the id bound and a zero word.
#[verifier::external_body]
pub(crate) fn assemble(b: Builder) -> (r: Vec<u32>)
    ensures
        r@.len() >= 5,
        r@[0] == 0x0723_0203,
        r@[4] == 0,
        r@ == module_words(b),
{
    b.module().assemble()
}

/// `Builder::id`: a fresh result id.
#[verifier::external_body]
pub(crate) fn next_id(b: &mut Builder) -> (r: u32)
    ensures
        same_code(*old(b), *final(b)),
{
    b.id()
}

/// `Builder::type_void`: the id of the void type. An identical declaration made before is reused, leaving the view unchanged; otherwise a new one is appended to the global section.
#[verifier::external_body]
pub(crate) fn type_void(b: &mut Builder) -> (r: u32)
    ensures
        declared(*old(b), *final(b), TypeDecl::Void, r),
{
    b.type_void()
}

/// `Builder::type_bool`: the id of the boolean type. An identical declaration made before is reused, leaving the view unchanged; otherwise a new one is appended to the global section.
#[verifier::external_body]
pub(crate) fn type_bool(b: &mut Builder) -> (r: u32)
    ensures
        declared(*old(b), *final(b), TypeDecl::Bool, r),
{
    b.type_bool()
}

/// `Builder::type_int`: the id of the integer type of the given width and signedness. An identical declaration made before is reused, leaving the view unchanged; otherwise a new one is appended to the global section.
#[verifier::external_body]
pub(crate) fn type_int(b: &mut Builder, width: u32, signedness: u32) -> (r: u32)
    ensures
        declared(*old(b), *final(b), TypeDecl::Int { width, signedness }, r),
{
    b.type_int(width, signedness)
}

/// `Builder::type_float`: the id of the floating point type of the given width, in the default encoding. An identical declaration made before is reused, leaving the view unchanged; otherwise a new one is appended to the global section.
#[verifier::external_body]
pub(crate) fn type_float(b: &mut Builder, width: u32) -> (r: u32)
    ensures
        declared(*old(b), *final(b), TypeDecl::Float { width }, r),
{
    b.type_float(width, None)
}

/// `Builder::type_vector`: the id of the vector type of `count` components of `component`. An identical declaration made before is reused, leaving the view unchanged; otherwise a new one is appended to the global section.
#[verifier::external_body]
pub(crate) fn type_vector(b: &mut Builder, component: u32, count: u32) -> (r: u32)
    ensures
        declared(*old(b), *final(b), TypeDecl::Vector { component, count }, r),
{
    b.type_vector(component, count)
}

/// `Builder::type_matrix`: the id of the matrix type of `count` columns of `column`. An identical declaration made before is reused, leaving the view unchanged; otherwise a new one is appended to the global section.
#[verifier::external_body]
pub(crate) fn type_matrix(b: &mut Builder, column: u32, count: u32) -> (r: u32)
    ensures
        declared(*old(b), *final(b), TypeDecl::Matrix { column, count }, r),
{
    b.type_matrix(column, count)
}

/// `Builder::type_array`: the id of the array type of `element` with the given length operand. An identical declaration made before is reused, leaving the view unchanged; otherwise a new one is appended to the global section.
#[verifier::external_body]
pub(crate) fn type_array(b: &mut Builder, element: u32, length: u32) -> (r: u32)
    ensures
        declared(*old(b), *final(b), TypeDecl::Array { element, length }, r),
{
    b.type_array(element, length)
}

/// `Builder::type_runtime_array`: the id of the runtime sized array of `element`. An identical declaration made before is reused, leaving the view unchanged; otherwise a new one is appended to the global section.
#[verifier::external_body]
pub(crate) fn type_runtime_array(b: &mut Builder, element: u32) -> (r: u32)
    ensures
        declared(*old(b), *final(b), TypeDecl::RuntimeArray { element }, r),
{
    b.type_runtime_array(element)
}

/// `Builder::type_struct`: the id of a new struct type with the given member types. An identical declaration made before is reused, leaving the view unchanged; otherwise a new one is appended to the global section.
#[verifier::external_body]
pub(crate) fn type_struct(b: &mut Builder, members: Vec<u32>) -> (r: u32)
    ensures
        declared(*old(b), *final(b), TypeDecl::Struct { members: members@ }, r),
{
    b.type_struct(members)
}

/// `Builder::type_pointer`: the id of the pointer type to `pointee` in the storage class with the given SPIR-V code (`from_u32` accepts 0 to 12). An identical declaration made before is reused, leaving the view unchanged; otherwise a new one is appended to the global section.
#[verifier::external_body]
pub(crate) fn type_pointer(b: &mut Builder, class: u32, pointee: u32) -> (r: u32)
    requires
        class <= 12,
    ensures
        declared(*old(b), *final(b), TypeDecl::Pointer { class, pointee }, r),
{
    b.type_pointer(None, rspirv::spirv::StorageClass::from_u32(class).unwrap(), pointee)
}

/// `Builder::type_function`: the id of the function type with the given return and parameter types. An identical declaration made before is reused, leaving the view unchanged; otherwise a new one is appended to the global section.
#[verifier::external_body]
pub(crate) fn type_function(b: &mut Builder, ret: u32, params: Vec<u32>) -> (r: u32)
    ensures
        declared(*old(b), *final(b), TypeDecl::Function { ret, params: params@ }, r),
{
    b.type_function(ret, params)
}

/// `Builder::type_image`: the id of the image type with the given sampled type, dimension and image format (SPIR-V codes; `from_u32` accepts dimensions 0 to 6 and formats 0 to 41) and flags, with no access qualifier. An identical declaration made before is reused, leaving the view unchanged; otherwise a new one is appended to the global section.
#[verifier::external_body]
pub(crate) fn type_image(b: &mut Builder, sampled: u32, dim: u32, depth: u32, arrayed: u32, ms: u32, is_sampled: u32, format: u32) -> (r: u32)
    requires
        dim <= 6,
        format <= 41,
    ensures
        declared(*old(b), *final(b), TypeDecl::Image { sampled, dim, depth, arrayed, ms, is_sampled, format }, r),
{
    b.type_image(
        sampled,
        rspirv::spirv::Dim::from_u32(dim).unwrap(),
        depth,
        arrayed,
        ms,
        is_sampled,
        rspirv::spirv::ImageFormat::from_u32(format).unwrap(),
        None,
    )
}

/// `Builder::type_sampled_image`: the id of the sampled image type of `image`. An identical declaration made before is reused, leaving the view unchanged; otherwise a new one is appended to the global section.
#[verifier::external_body]
pub(crate) fn type_sampled_image(b: &mut Builder, image: u32) -> (r: u32)
    ensures
        declared(*old(b), *final(b), TypeDecl::SampledImage { image }, r),
{
    b.type_sampled_image(image)
}

/// `Builder::type_sampler`: the id of the sampler type. An identical declaration made before is reused, leaving the view unchanged; otherwise a new one is appended to the global section.
#[verifier::external_body]
pub(crate) fn type_sampler(b: &mut Builder) -> (r: u32)
    ensures
        declared(*old(b), *final(b), TypeDecl::Sampler, r),
{
    b.type_sampler()
}

/// `Builder::constant_true`: a new true constant of type `ty`. It is appended to the global section.
#[verifier::external_body]
pub(crate) fn constant_true(b: &mut Builder, ty: u32) -> (r: u32)
    ensures
        pushed(*old(b), *final(b), InstView::ConstantTrue { ty, res: r }),
{
    b.constant_true(ty)
}

/// `Builder::constant_false`: a new false constant of type `ty`. It is appended to the global section.
#[verifier::external_body]
pub(crate) fn constant_false(b: &mut Builder, ty: u32) -> (r: u32)
    ensures
        pushed(*old(b), *final(b), InstView::ConstantFalse { ty, res: r }),
{
    b.constant_false(ty)
}

/// `Builder::constant_bit32`: a new constant of type `ty` with the given 32-bit pattern. It is appended to the global section.
#[verifier::external_body]
pub(crate) fn constant_bit32(b: &mut Builder, ty: u32, value: u32) -> (r: u32)
    ensures
        pushed(*old(b), *final(b), InstView::Constant32 { ty, res: r, value }),
{
    b.constant_bit32(ty, value)
}

/// `Builder::constant_bit64`: a new constant of type `ty` with the given 64-bit pattern. It is appended to the global section.
#[verifier::external_body]
pub(crate) fn constant_bit64(b: &mut Builder, ty: u32, value: u64) -> (r: u32)
    ensures
        pushed(*old(b), *final(b), InstView::Constant64 { ty, res: r, value }),
{
    b.constant_bit64(ty, value)
}

/// `Builder::constant_composite`: a new composite constant of type `ty` from the given constituents. It is appended to the global section.
#[verifier::external_body]
pub(crate) fn constant_composite(b: &mut Builder, ty: u32, parts: Vec<u32>) -> (r: u32)
    ensures
        pushed(*old(b), *final(b), InstView::ConstantComposite { ty, res: r, parts: parts@ }),
{
    b.constant_composite(ty, parts)
}

/// `Builder::variable`: a new variable of pointer type `ty` in the storage class with the given SPIR-V code (`from_u32` accepts 0 to 12), without initializer, appended to the selected block when a function and a block are selected, else to the global section.
#[verifier::external_body]
pub(crate) fn variable(b: &mut Builder, ty: u32, class: u32) -> (r: u32)
    requires
        class <= 12,
        builder_ok(*old(b)),
    ensures
        in_block(*old(b)) ==> appended(*old(b), *final(b), InstView::Variable { ty, res: r, class }),
        !in_block(*old(b)) ==> pushed(*old(b), *final(b), InstView::Variable { ty, res: r, class }),
{
    b.variable(ty, None, rspirv::spirv::StorageClass::from_u32(class).unwrap(), None)
}

/// `Builder::decorate`: decorates `target` with the decoration of the given SPIR-V code and operands (`from_u32` accepts decorations 0 to 11 and 13 to 47, built-ins 0, 1 and 3 to 20), appended to the module's decorations.
#[verifier::external_body]
pub(crate) fn decorate(b: &mut Builder, target: u32, decoration: u32, operands: Vec<SpvOperand>)
    requires
        decoration_code_ok(decoration),
        operands_ok(operands@),
    ensures
        module_view(*final(b)) == (ModuleView { annotations: module_view(*old(b)).annotations.push(AnnotView::Decorate { target, decoration, operands: operands@ }), ..module_view(*old(b)) }),
{
    let ops = operands.into_iter().map(|o| match o {
            SpvOperand::Literal(v) => rspirv::dr::Operand::LiteralBit32(v),
            SpvOperand::BuiltIn(c) => rspirv::dr::Operand::BuiltIn(rspirv::spirv::BuiltIn::from_u32(c).unwrap()),
        });
    b.decorate(target, rspirv::spirv::Decoration::from_u32(decoration).unwrap(), ops)
}

/// `Builder::member_decorate`: decorates member `member` of struct type `ty` with the decoration of the given SPIR-V code and operands (codes as for `decorate`), appended to the module's decorations.
#[verifier::external_body]
pub(crate) fn member_decorate(b: &mut Builder, ty: u32, member: u32, decoration: u32, operands: Vec<SpvOperand>)
    requires
        decoration_code_ok(decoration),
        operands_ok(operands@),
    ensures
        module_view(*final(b)) == (ModuleView { annotations: module_view(*old(b)).annotations.push(AnnotView::MemberDecorate { ty, member, decoration, operands: operands@ }), ..module_view(*old(b)) }),
{
    let ops = operands.into_iter().map(|o| match o {
            SpvOperand::Literal(v) => rspirv::dr::Operand::LiteralBit32(v),
            SpvOperand::BuiltIn(c) => rspirv::dr::Operand::BuiltIn(rspirv::spirv::BuiltIn::from_u32(c).unwrap()),
        });
    b.member_decorate(ty, member, rspirv::spirv::Decoration::from_u32(decoration).unwrap(), ops)
}

/// `Builder::name`: names `target` in the module's debug information.
#[verifier::external_body]
pub(crate) fn name(b: &mut Builder, target: u32, name: &str)
    ensures
        module_view(*final(b)) == (ModuleView { names: module_view(*old(b)).names.push(NameView::Name { target, name: name@ }), ..module_view(*old(b)) }),
{
    b.name(target, name)
}

/// `Builder::member_name`: names member `member` of struct type `ty`.
#[verifier::external_body]
pub(crate) fn member_name(b: &mut Builder, ty: u32, member: u32, name: &str)
    ensures
        module_view(*final(b)) == (ModuleView { names: module_view(*old(b)).names.push(NameView::MemberName { ty, member, name: name@ }),
            ..module_view(*old(b)) }),
{
    b.member_name(ty, member, name)
}

/// `Builder::begin_function`: starts a function of the given return and function type, with no function control; fails when a function is already being built.
#[verifier::external_body]
pub(crate) fn begin_function(b: &mut Builder, ret: u32, fn_ty: u32) -> (r: Result<u32, Error>)
    ensures
        r is Ok <==> module_view(*old(b)).function is None,
        module_view(*final(b)).functions.len() <= usize::MAX,
        r is Ok ==> module_view(*final(b)) == (ModuleView { functions: module_view(*old(b)).functions.push(Seq::empty()),
            function_ids: module_view(*old(b)).function_ids.push(r->Ok_0),
            function: Some(module_view(*old(b)).functions.len() as usize), ..module_view(*old(b)) }),
        r is Err ==> same_code(*old(b), *final(b)),
{
    b.begin_function(ret, None, rspirv::spirv::FunctionControl::empty(), fn_ty)
}

/// `Builder::end_function`: ends the selected function; fails when none is selected.
#[verifier::external_body]
pub(crate) fn end_function(b: &mut Builder) -> (r: Result<(), Error>)
    ensures
        r is Ok <==> module_view(*old(b)).function is Some,
        module_view(*final(b)) == (ModuleView { function: None, ..module_view(*old(b)) }),
{
    b.end_function()
}

/// `Builder::select_function`: selects the function of the given index, or none; fails on an index out of range.
#[verifier::external_body]
pub(crate) fn select_function(b: &mut Builder, idx: Option<usize>) -> (r: Result<(), Error>)
    ensures
        r is Ok <==> (idx is Some ==> idx->Some_0 < module_view(*old(b)).functions.len()),
        r is Ok && idx is Some ==> module_view(*final(b)) == (ModuleView { function: idx, ..module_view(*old(b)) }),
        r is Ok && idx is None ==> module_view(*final(b)) == (ModuleView { function: None, block: None, ..module_view(*old(b)) }),
        r is Err ==> same_code(*old(b), *final(b)),
{
    b.select_function(idx)
}

/// `Builder::selected_function`: the index of the selected function, if any.
#[verifier::external_body]
pub(crate) fn selected_function(b: &Builder) -> (r: Option<usize>)
    ensures
        r == module_view(*b).function,
{
    b.selected_function()
}

/// `Builder::begin_block`: starts a block with the given label id or a fresh one, and returns the label; fails when no function is selected or a block is selected.
#[verifier::external_body]
pub(crate) fn begin_block(b: &mut Builder, label: Option<u32>) -> (r: Result<u32, Error>)
    requires
        builder_ok(*old(b)),
    ensures
        r is Ok <==> module_view(*old(b)).function is Some && module_view(*old(b)).block is None,
        r is Ok ==> (label matches Some(l) ==> r->Ok_0 == l),
        r is Ok ==> module_view(*old(b)).functions[module_view(*old(b)).function->Some_0 as int].len() < usize::MAX,
        r is Ok ==> ({ let v = module_view(*old(b)); let f = v.function->Some_0 as int; module_view(*final(b)) == ModuleView { functions: v.functions.update(f, v.functions[f].push(BlockView { label: r->Ok_0, insts: Seq::empty() })), block: Some(v.functions[f].len() as usize), ..v } }),
        r is Err ==> same_code(*old(b), *final(b)),
{
    b.begin_block(label)
}

/// `Builder::selected_block`: the index of the selected block, if any.
#[verifier::external_body]
pub(crate) fn selected_block(b: &Builder) -> (r: Option<usize>)
    ensures
        r == module_view(*b).block,
{
    b.selected_block()
}

/// `Builder::select_block`: selects the block of the given index in the selected function, or none; fails when no function is selected or the index is out of range.
#[verifier::external_body]
pub(crate) fn select_block(b: &mut Builder, idx: Option<usize>) -> (r: Result<(), Error>)
    requires
        builder_ok(*old(b)),
    ensures
        r is Ok <==> (idx is Some ==> module_view(*old(b)).function is Some && idx->Some_0 < module_view(*old(b)).functions[module_view(*old(b)).function->Some_0 as int].len()),
        r is Ok ==> module_view(*final(b)) == (ModuleView { block: idx, ..module_view(*old(b)) }),
        r is Err ==> same_code(*old(b), *final(b)),
{
    b.select_block(idx)
}

/// `Builder::insert_into_block` at `InsertPoint::Begin` of the instruction
/// `rspirv::dr::Instruction::new` builds for an `OpVariable` of pointer type
/// `ty`, result id `id`, in the Function storage class: inserts it first in
/// the selected block; fails when no block is selected.
#[verifier::external_body]
pub(crate) fn insert_function_variable(b: &mut Builder, ty: u32, id: u32) -> (r: Result<(), Error>)
    requires
        builder_ok(*old(b)),
    ensures
        r is Ok <==> in_block(*old(b)),
        r is Ok ==> module_view(*final(b)) == (ModuleView { functions: with_current(*old(b), BlockView { label: current_block(*old(b)).label, insts: seq![InstView::Variable { ty, res: id, class: 7 }] + current_block(*old(b)).insts }), ..module_view(*old(b)) }),
        r is Err ==> same_code(*old(b), *final(b)),
{
    let inst = rspirv::dr::Instruction::new(
        rspirv::spirv::Op::Variable,
        Some(ty),
        Some(id),
        vec![rspirv::dr::Operand::StorageClass(rspirv::spirv::StorageClass::Function)],
    );
    b.insert_into_block(rspirv::dr::InsertPoint::Begin, inst)
}

/// `Builder::branch`: ends the selected block with a branch; appended to the selected block, which is then no longer selected; fails, changing nothing the view holds, unless a function and a block are selected.
#[verifier::external_body]
pub(crate) fn branch(b: &mut Builder, target: u32) -> (r: Result<(), Error>)
    requires
        builder_ok(*old(b)),
    ensures
        r is Ok <==> in_block(*old(b)),
        r is Ok ==> terminated(*old(b), *final(b), InstView::Branch { target }),
        r is Err ==> same_code(*old(b), *final(b)),
{
    b.branch(target)
}

/// `Builder::branch_conditional`: ends the selected block with a conditional branch without weights; appended to the selected block, which is then no longer selected; fails, changing nothing the view holds, unless a function and a block are selected.
#[verifier::external_body]
pub(crate) fn branch_conditional(b: &mut Builder, condition: u32, true_label: u32, false_label: u32) -> (r: Result<(), Error>)
    requires
        builder_ok(*old(b)),
    ensures
        r is Ok <==> in_block(*old(b)),
        r is Ok ==> terminated(*old(b), *final(b), InstView::BranchConditional { condition, true_label, false_label }),
        r is Err ==> same_code(*old(b), *final(b)),
{
    b.branch_conditional(condition, true_label, false_label, [])
}

/// `Builder::selection_merge`: declares the merge block of a selection, with no selection control; appended to the selected block; fails, changing nothing the view holds, unless a function and a block are selected.
#[verifier::external_body]
pub(crate) fn selection_merge(b: &mut Builder, merge: u32) -> (r: Result<(), Error>)
    requires
        builder_ok(*old(b)),
    ensures
        r is Ok <==> in_block(*old(b)),
        r is Ok ==> appended(*old(b), *final(b), InstView::SelectionMerge { merge }),
        r is Err ==> same_code(*old(b), *final(b)),
{
    b.selection_merge(merge, rspirv::spirv::SelectionControl::NONE)
}

/// `Builder::loop_merge`: declares the merge and continue blocks of a loop, with no loop control; appended to the selected block; fails, changing nothing the view holds, unless a function and a block are selected.
#[verifier::external_body]
pub(crate) fn loop_merge(b: &mut Builder, merge: u32, continue_target: u32) -> (r: Result<(), Error>)
    requires
        builder_ok(*old(b)),
    ensures
        r is Ok <==> in_block(*old(b)),
        r is Ok ==> appended(*old(b), *final(b), InstView::LoopMerge { merge, continue_target }),
        r is Err ==> same_code(*old(b), *final(b)),
{
    b.loop_merge(merge, continue_target, rspirv::spirv::LoopControl::NONE, [])
}

/// `Builder::kill`: ends the selected block with `OpKill`; appended to the selected block, which is then no longer selected; fails, changing nothing the view holds, unless a function and a block are selected.
#[verifier::external_body]
pub(crate) fn kill(b: &mut Builder) -> (r: Result<(), Error>)
    requires
        builder_ok(*old(b)),
    ensures
        r is Ok <==> in_block(*old(b)),
        r is Ok ==> terminated(*old(b), *final(b), InstView::Kill),
        r is Err ==> same_code(*old(b), *final(b)),
{
    b.kill()
}

/// `Builder::ret`: ends the selected block with `OpReturn`; appended to the selected block, which is then no longer selected; fails, changing nothing the view holds, unless a function and a block are selected.
#[verifier::external_body]
pub(crate) fn ret(b: &mut Builder) -> (r: Result<(), Error>)
    requires
        builder_ok(*old(b)),
    ensures
        r is Ok <==> in_block(*old(b)),
        r is Ok ==> terminated(*old(b), *final(b), InstView::Return),
        r is Err ==> same_code(*old(b), *final(b)),
{
    b.ret()
}

/// `Builder::load`: loads a value of type `ty` through `pointer`; appended to the selected block; fails, changing nothing the view holds, unless a function and a block are selected.
#[verifier::external_body]
pub(crate) fn load(b: &mut Builder, ty: u32, pointer: u32) -> (r: Result<u32, Error>)
    requires
        builder_ok(*old(b)),
    ensures
        r is Ok <==> in_block(*old(b)),
        r is Ok ==> appended(*old(b), *final(b), InstView::Load { ty, res: r->Ok_0, pointer }),
        r is Err ==> same_code(*old(b), *final(b)),
{
    b.load(ty, None, pointer, None, [])
}

/// `Builder::store`: stores `object` through `pointer`; appended to the selected block; fails, changing nothing the view holds, unless a function and a block are selected.
#[verifier::external_body]
pub(crate) fn store(b: &mut Builder, pointer: u32, object: u32) -> (r: Result<(), Error>)
    requires
        builder_ok(*old(b)),
    ensures
        r is Ok <==> in_block(*old(b)),
        r is Ok ==> appended(*old(b), *final(b), InstView::Store { pointer, object }),
        r is Err ==> same_code(*old(b), *final(b)),
{
    b.store(pointer, object, None, [])
}

/// `Builder::access_chain`: a pointer of type `ty` into `base` along the given index ids; appended to the selected block; fails, changing nothing the view holds, unless a function and a block are selected.
#[verifier::external_body]
pub(crate) fn access_chain(b: &mut Builder, ty: u32, base: u32, indexes: Vec<u32>) -> (r: Result<u32, Error>)
    requires
        builder_ok(*old(b)),
    ensures
        r is Ok <==> in_block(*old(b)),
        r is Ok ==> appended(*old(b), *final(b), InstView::AccessChain { ty, res: r->Ok_0, base, indexes: indexes@ }),
        r is Err ==> same_code(*old(b), *final(b)),
{
    b.access_chain(ty, None, base, indexes)
}

/// `Builder::composite_construct`: a composite of type `ty` from the given constituents; appended to the selected block; fails, changing nothing the view holds, unless a function and a block are selected.
#[verifier::external_body]
pub(crate) fn composite_construct(b: &mut Builder, ty: u32, parts: Vec<u32>) -> (r: Result<u32, Error>)
    requires
        builder_ok(*old(b)),
    ensures
        r is Ok <==> in_block(*old(b)),
        r is Ok ==> appended(*old(b), *final(b), InstView::CompositeConstruct { ty, res: r->Ok_0, parts: parts@ }),
        r is Err ==> same_code(*old(b), *final(b)),
{
    b.composite_construct(ty, None, parts)
}

/// `Builder::composite_extract`: the part of type `ty` of `composite` at the literal indexes; appended to the selected block; fails, changing nothing the view holds, unless a function and a block are selected.
#[verifier::external_body]
pub(crate) fn composite_extract(b: &mut Builder, ty: u32, composite: u32, indexes: Vec<u32>) -> (r: Result<u32, Error>)
    requires
        builder_ok(*old(b)),
    ensures
        r is Ok <==> in_block(*old(b)),
        r is Ok ==> appended(*old(b), *final(b), InstView::CompositeExtract { ty, res: r->Ok_0, composite, indexes: indexes@ }),
        r is Err ==> same_code(*old(b), *final(b)),
{
    b.composite_extract(ty, None, composite, indexes)
}

/// `Builder::vector_shuffle`: a vector of type `ty` picking the given components of the two vectors; appended to the selected block; fails, changing nothing the view holds, unless a function and a block are selected.
#[verifier::external_body]
pub(crate) fn vector_shuffle(b: &mut Builder, ty: u32, v1: u32, v2: u32, components: Vec<u32>) -> (r: Result<u32, Error>)
    requires
        builder_ok(*old(b)),
    ensures
        r is Ok <==> in_block(*old(b)),
        r is Ok ==> appended(*old(b), *final(b), InstView::VectorShuffle { ty, res: r->Ok_0, v1, v2, components: components@ }),
        r is Err ==> same_code(*old(b), *final(b)),
{
    b.vector_shuffle(ty, None, v1, v2, components)
}

/// `Builder::sampled_image`: combines an image and a sampler into a sampled image of type `ty`; appended to the selected block; fails, changing nothing the view holds, unless a function and a block are selected.
#[verifier::external_body]
pub(crate) fn sampled_image(b: &mut Builder, ty: u32, image: u32, sampler: u32) -> (r: Result<u32, Error>)
    requires
        builder_ok(*old(b)),
    ensures
        r is Ok <==> in_block(*old(b)),
        r is Ok ==> appended(*old(b), *final(b), InstView::SampledImage { ty, res: r->Ok_0, image, sampler }),
        r is Err ==> same_code(*old(b), *final(b)),
{
    b.sampled_image(ty, None, image, sampler)
}

/// `Builder::image_sample_implicit_lod`: samples `image` at `coordinate`, with no image operands; appended to the selected block; fails, changing nothing the view holds, unless a function and a block are selected.
#[verifier::external_body]
pub(crate) fn image_sample_implicit_lod(b: &mut Builder, ty: u32, image: u32, coordinate: u32) -> (r: Result<u32, Error>)
    requires
        builder_ok(*old(b)),
    ensures
        r is Ok <==> in_block(*old(b)),
        r is Ok ==> appended(*old(b), *final(b), InstView::SampleImplicitLod { ty, res: r->Ok_0, image, coordinate }),
        r is Err ==> same_code(*old(b), *final(b)),
{
    b.image_sample_implicit_lod(ty, None, image, coordinate, None, [])
}

/// `Builder::image_sample_explicit_lod`: samples `image` at `coordinate` with the `LOD` image operand flag and no further operands; appended to the selected block; fails, changing nothing the view holds, unless a function and a block are selected.
#[verifier::external_body]
pub(crate) fn image_sample_explicit_lod(b: &mut Builder, ty: u32, image: u32, coordinate: u32) -> (r: Result<u32, Error>)
    requires
        builder_ok(*old(b)),
    ensures
        r is Ok <==> in_block(*old(b)),
        r is Ok ==> appended(*old(b), *final(b), InstView::SampleExplicitLod { ty, res: r->Ok_0, image, coordinate }),
        r is Err ==> same_code(*old(b), *final(b)),
{
    b.image_sample_explicit_lod(ty, None, image, coordinate, rspirv::spirv::ImageOperands::LOD, [])
}

/// `Builder::ext_inst`: the instruction of the given number from the extended set `set`, applied to the given id operands; appended to the selected block; fails, changing nothing the view holds, unless a function and a block are selected.
#[verifier::external_body]
pub(crate) fn ext_inst(b: &mut Builder, ty: u32, set: u32, instruction: u32, operands: Vec<u32>) -> (r: Result<u32, Error>)
    requires
        builder_ok(*old(b)),
    ensures
        r is Ok <==> in_block(*old(b)),
        r is Ok ==> appended(*old(b), *final(b), InstView::ExtInst { ty, res: r->Ok_0, set, instruction, operands: operands@ }),
        r is Err ==> same_code(*old(b), *final(b)),
{
    b.ext_inst(ty, None, set, instruction, operands.into_iter().map(|o| rspirv::dr::Operand::IdRef(o)))
}

/// `Builder::i_add`: the result of type `ty` of the operation on the two operands; appended to the selected block; fails, changing nothing the view holds, unless a function and a block are selected.
#[verifier::external_body]
pub(crate) fn i_add(b: &mut Builder, ty: u32, lhs: u32, rhs: u32) -> (r: Result<u32, Error>)
    requires
        builder_ok(*old(b)),
    ensures
        r is Ok <==> in_block(*old(b)),
        r is Ok ==> appended(*old(b), *final(b), InstView::Bin { op: BinOp::IAdd, ty, res: r->Ok_0, lhs, rhs }),
        r is Err ==> same_code(*old(b), *final(b)),
{
    b.i_add(ty, None, lhs, rhs)
}

/// `Builder::f_add`: the result of type `ty` of the operation on the two operands; appended to the selected block; fails, changing nothing the view holds, unless a function and a block are selected.
#[verifier::external_body]
pub(crate) fn f_add(b: &mut Builder, ty: u32, lhs: u32, rhs: u32) -> (r: Result<u32, Error>)
    requires
        builder_ok(*old(b)),
    ensures
        r is Ok <==> in_block(*old(b)),
        r is Ok ==> appended(*old(b), *final(b), InstView::Bin { op: BinOp::FAdd, ty, res: r->Ok_0, lhs, rhs }),
        r is Err ==> same_code(*old(b), *final(b)),
{
    b.f_add(ty, None, lhs, rhs)
}

/// `Builder::i_sub`: the result of type `ty` of the operation on the two operands; appended to the selected block; fails, changing nothing the view holds, unless a function and a block are selected.
#[verifier::external_body]
pub(crate) fn i_sub(b: &mut Builder, ty: u32, lhs: u32, rhs: u32) -> (r: Result<u32, Error>)
    requires
        builder_ok(*old(b)),
    ensures
        r is Ok <==> in_block(*old(b)),
        r is Ok ==> appended(*old(b), *final(b), InstView::Bin { op: BinOp::ISub, ty, res: r->Ok_0, lhs, rhs }),
        r is Err ==> same_code(*old(b), *final(b)),
{
    b.i_sub(ty, None, lhs, rhs)
}

/// `Builder::f_sub`: the result of type `ty` of the operation on the two operands; appended to the selected block; fails, changing nothing the view holds, unless a function and a block are selected.
#[verifier::external_body]
pub(crate) fn f_sub(b: &mut Builder, ty: u32, lhs: u32, rhs: u32) -> (r: Result<u32, Error>)
    requires
        builder_ok(*old(b)),
    ensures
        r is Ok <==> in_block(*old(b)),
        r is Ok ==> appended(*old(b), *final(b), InstView::Bin { op: BinOp::FSub, ty, res: r->Ok_0, lhs, rhs }),
        r is Err ==> same_code(*old(b), *final(b)),
{
    b.f_sub(ty, None, lhs, rhs)
}

/// `Builder::i_mul`: the result of type `ty` of the operation on the two operands; appended to the selected block; fails, changing nothing the view holds, unless a function and a block are selected.
#[verifier::external_body]
pub(crate) fn i_mul(b: &mut Builder, ty: u32, lhs: u32, rhs: u32) -> (r: Result<u32, Error>)
    requires
        builder_ok(*old(b)),
    ensures
        r is Ok <==> in_block(*old(b)),
        r is Ok ==> appended(*old(b), *final(b), InstView::Bin { op: BinOp::IMul, ty, res: r->Ok_0, lhs, rhs }),
        r is Err ==> same_code(*old(b), *final(b)),
{
    b.i_mul(ty, None, lhs, rhs)
}

/// `Builder::f_mul`: the result of type `ty` of the operation on the two operands; appended to the selected block; fails, changing nothing the view holds, unless a function and a block are selected.
#[verifier::external_body]
pub(crate) fn f_mul(b: &mut Builder, ty: u32, lhs: u32, rhs: u32) -> (r: Result<u32, Error>)
    requires
        builder_ok(*old(b)),
    ensures
        r is Ok <==> in_block(*old(b)),
        r is Ok ==> appended(*old(b), *final(b), InstView::Bin { op: BinOp::FMul, ty, res: r->Ok_0, lhs, rhs }),
        r is Err ==> same_code(*old(b), *final(b)),
{
    b.f_mul(ty, None, lhs, rhs)
}

/// `Builder::s_div`: the result of type `ty` of the operation on the two operands; appended to the selected block; fails, changing nothing the view holds, unless a function and a block are selected.
#[verifier::external_body]
pub(crate) fn s_div(b: &mut Builder, ty: u32, lhs: u32, rhs: u32) -> (r: Result<u32, Error>)
    requires
        builder_ok(*old(b)),
    ensures
        r is Ok <==> in_block(*old(b)),
        r is Ok ==> appended(*old(b), *final(b), InstView::Bin { op: BinOp::SDiv, ty, res: r->Ok_0, lhs, rhs }),
        r is Err ==> same_code(*old(b), *final(b)),
{
    b.s_div(ty, None, lhs, rhs)
}

/// `Builder::u_div`: the result of type `ty` of the operation on the two operands; appended to the selected block; fails, changing nothing the view holds, unless a function and a block are selected.
#[verifier::external_body]
pub(crate) fn u_div(b: &mut Builder, ty: u32, lhs: u32, rhs: u32) -> (r: Result<u32, Error>)
    requires
        builder_ok(*old(b)),
    ensures
        r is Ok <==> in_block(*old(b)),
        r is Ok ==> appended(*old(b), *final(b), InstView::Bin { op: BinOp::UDiv, ty, res: r->Ok_0, lhs, rhs }),
        r is Err ==> same_code(*old(b), *final(b)),
{
    b.u_div(ty, None, lhs, rhs)
}

/// `Builder::f_div`: the result of type `ty` of the operation on the two operands; appended to the selected block; fails, changing nothing the view holds, unless a function and a block are selected.
#[verifier::external_body]
pub(crate) fn f_div(b: &mut Builder, ty: u32, lhs: u32, rhs: u32) -> (r: Result<u32, Error>)
    requires
        builder_ok(*old(b)),
    ensures
        r is Ok <==> in_block(*old(b)),
        r is Ok ==> appended(*old(b), *final(b), InstView::Bin { op: BinOp::FDiv, ty, res: r->Ok_0, lhs, rhs }),
        r is Err ==> same_code(*old(b), *final(b)),
{
    b.f_div(ty, None, lhs, rhs)
}

/// `Builder::vector_times_scalar`: the result of type `ty` of the operation on the two operands; appended to the selected block; fails, changing nothing the view holds, unless a function and a block are selected.
#[verifier::external_body]
pub(crate) fn vector_times_scalar(b: &mut Builder, ty: u32, lhs: u32, rhs: u32) -> (r: Result<u32, Error>)
    requires
        builder_ok(*old(b)),
    ensures
        r is Ok <==> in_block(*old(b)),
        r is Ok ==> appended(*old(b), *final(b), InstView::Bin { op: BinOp::VectorTimesScalar, ty, res: r->Ok_0, lhs, rhs }),
        r is Err ==> same_code(*old(b), *final(b)),
{
    b.vector_times_scalar(ty, None, lhs, rhs)
}

/// `Builder::matrix_times_scalar`: the result of type `ty` of the operation on the two operands; appended to the selected block; fails, changing nothing the view holds, unless a function and a block are selected.
#[verifier::external_body]
pub(crate) fn matrix_times_scalar(b: &mut Builder, ty: u32, lhs: u32, rhs: u32) -> (r: Result<u32, Error>)
    requires
        builder_ok(*old(b)),
    ensures
        r is Ok <==> in_block(*old(b)),
        r is Ok ==> appended(*old(b), *final(b), InstView::Bin { op: BinOp::MatrixTimesScalar, ty, res: r->Ok_0, lhs, rhs }),
        r is Err ==> same_code(*old(b), *final(b)),
{
    b.matrix_times_scalar(ty, None, lhs, rhs)
}

/// `Builder::matrix_times_vector`: the result of type `ty` of the operation on the two operands; appended to the selected block; fails, changing nothing the view holds, unless a function and a block are selected.
#[verifier::external_body]
pub(crate) fn matrix_times_vector(b: &mut Builder, ty: u32, lhs: u32, rhs: u32) -> (r: Result<u32, Error>)
    requires
        builder_ok(*old(b)),
    ensures
        r is Ok <==> in_block(*old(b)),
        r is Ok ==> appended(*old(b), *final(b), InstView::Bin { op: BinOp::MatrixTimesVector, ty, res: r->Ok_0, lhs, rhs }),
        r is Err ==> same_code(*old(b), *final(b)),
{
    b.matrix_times_vector(ty, None, lhs, rhs)
}

/// `Builder::matrix_times_matrix`: the result of type `ty` of the operation on the two operands; appended to the selected block; fails, changing nothing the view holds, unless a function and a block are selected.
#[verifier::external_body]
pub(crate) fn matrix_times_matrix(b: &mut Builder, ty: u32, lhs: u32, rhs: u32) -> (r: Result<u32, Error>)
    requires
        builder_ok(*old(b)),
    ensures
        r is Ok <==> in_block(*old(b)),
        r is Ok ==> appended(*old(b), *final(b), InstView::Bin { op: BinOp::MatrixTimesMatrix, ty, res: r->Ok_0, lhs, rhs }),
        r is Err ==> same_code(*old(b), *final(b)),
{
    b.matrix_times_matrix(ty, None, lhs, rhs)
}

/// `Builder::dot`: the result of type `ty` of the operation on the two operands; appended to the selected block; fails, changing nothing the view holds, unless a function and a block are selected.
#[verifier::external_body]
pub(crate) fn dot(b: &mut Builder, ty: u32, lhs: u32, rhs: u32) -> (r: Result<u32, Error>)
    requires
        builder_ok(*old(b)),
    ensures
        r is Ok <==> in_block(*old(b)),
        r is Ok ==> appended(*old(b), *final(b), InstView::Bin { op: BinOp::Dot, ty, res: r->Ok_0, lhs, rhs }),
        r is Err ==> same_code(*old(b), *final(b)),
{
    b.dot(ty, None, lhs, rhs)
}

/// `Builder::bitwise_and`: the result of type `ty` of the operation on the two operands; appended to the selected block; fails, changing nothing the view holds, unless a function and a block are selected.
#[verifier::external_body]
pub(crate) fn bitwise_and(b: &mut Builder, ty: u32, lhs: u32, rhs: u32) -> (r: Result<u32, Error>)
    requires
        builder_ok(*old(b)),
    ensures
        r is Ok <==> in_block(*old(b)),
        r is Ok ==> appended(*old(b), *final(b), InstView::Bin { op: BinOp::BitwiseAnd, ty, res: r->Ok_0, lhs, rhs }),
        r is Err ==> same_code(*old(b), *final(b)),
{
    b.bitwise_and(ty, None, lhs, rhs)
}

/// `Builder::bitwise_or`: the result of type `ty` of the operation on the two operands; appended to the selected block; fails, changing nothing the view holds, unless a function and a block are selected.
#[verifier::external_body]
pub(crate) fn bitwise_or(b: &mut Builder, ty: u32, lhs: u32, rhs: u32) -> (r: Result<u32, Error>)
    requires
        builder_ok(*old(b)),
    ensures
        r is Ok <==> in_block(*old(b)),
        r is Ok ==> appended(*old(b), *final(b), InstView::Bin { op: BinOp::BitwiseOr, ty, res: r->Ok_0, lhs, rhs }),
        r is Err ==> same_code(*old(b), *final(b)),
{
    b.bitwise_or(ty, None, lhs, rhs)
}

/// `Builder::bitwise_xor`: the result of type `ty` of the operation on the two operands; appended to the selected block; fails, changing nothing the view holds, unless a function and a block are selected.
#[verifier::external_body]
pub(crate) fn bitwise_xor(b: &mut Builder, ty: u32, lhs: u32, rhs: u32) -> (r: Result<u32, Error>)
    requires
        builder_ok(*old(b)),
    ensures
        r is Ok <==> in_block(*old(b)),
        r is Ok ==> appended(*old(b), *final(b), InstView::Bin { op: BinOp::BitwiseXor, ty, res: r->Ok_0, lhs, rhs }),
        r is Err ==> same_code(*old(b), *final(b)),
{
    b.bitwise_xor(ty, None, lhs, rhs)
}

/// `Builder::logical_and`: the result of type `ty` of the operation on the two operands; appended to the selected block; fails, changing nothing the view holds, unless a function and a block are selected.
#[verifier::external_body]
pub(crate) fn logical_and(b: &mut Builder, ty: u32, lhs: u32, rhs: u32) -> (r: Result<u32, Error>)
    requires
        builder_ok(*old(b)),
    ensures
        r is Ok <==> in_block(*old(b)),
        r is Ok ==> appended(*old(b), *final(b), InstView::Bin { op: BinOp::LogicalAnd, ty, res: r->Ok_0, lhs, rhs }),
        r is Err ==> same_code(*old(b), *final(b)),
{
    b.logical_and(ty, None, lhs, rhs)
}

/// `Builder::logical_or`: the result of type `ty` of the operation on the two operands; appended to the selected block; fails, changing nothing the view holds, unless a function and a block are selected.
#[verifier::external_body]
pub(crate) fn logical_or(b: &mut Builder, ty: u32, lhs: u32, rhs: u32) -> (r: Result<u32, Error>)
    requires
        builder_ok(*old(b)),
    ensures
        r is Ok <==> in_block(*old(b)),
        r is Ok ==> appended(*old(b), *final(b), InstView::Bin { op: BinOp::LogicalOr, ty, res: r->Ok_0, lhs, rhs }),
        r is Err ==> same_code(*old(b), *final(b)),
{
    b.logical_or(ty, None, lhs, rhs)
}

/// `Builder::logical_equal`: the result of type `ty` of the operation on the two operands; appended to the selected block; fails, changing nothing the view holds, unless a function and a block are selected.
#[verifier::external_body]
pub(crate) fn logical_equal(b: &mut Builder, ty: u32, lhs: u32, rhs: u32) -> (r: Result<u32, Error>)
    requires
        builder_ok(*old(b)),
    ensures
        r is Ok <==> in_block(*old(b)),
        r is Ok ==> appended(*old(b), *final(b), InstView::Bin { op: BinOp::LogicalEqual, ty, res: r->Ok_0, lhs, rhs }),
        r is Err ==> same_code(*old(b), *final(b)),
{
    b.logical_equal(ty, None, lhs, rhs)
}

/// `Builder::logical_not_equal`: the result of type `ty` of the operation on the two operands; appended to the selected block; fails, changing nothing the view holds, unless a function and a block are selected.
#[verifier::external_body]
pub(crate) fn logical_not_equal(b: &mut Builder, ty: u32, lhs: u32, rhs: u32) -> (r: Result<u32, Error>)
    requires
        builder_ok(*old(b)),
    ensures
        r is Ok <==> in_block(*old(b)),
        r is Ok ==> appended(*old(b), *final(b), InstView::Bin { op: BinOp::LogicalNotEqual, ty, res: r->Ok_0, lhs, rhs }),
        r is Err ==> same_code(*old(b), *final(b)),
{
    b.logical_not_equal(ty, None, lhs, rhs)
}

/// `Builder::i_equal`: the result of type `ty` of the operation on the two operands; appended to the selected block; fails, changing nothing the view holds, unless a function and a block are selected.
#[verifier::external_body]
pub(crate) fn i_equal(b: &mut Builder, ty: u32, lhs: u32, rhs: u32) -> (r: Result<u32, Error>)
    requires
        builder_ok(*old(b)),
    ensures
        r is Ok <==> in_block(*old(b)),
        r is Ok ==> appended(*old(b), *final(b), InstView::Bin { op: BinOp::IEqual, ty, res: r->Ok_0, lhs, rhs }),
        r is Err ==> same_code(*old(b), *final(b)),
{
    b.i_equal(ty, None, lhs, rhs)
}

/// `Builder::f_ord_equal`: the result of type `ty` of the operation on the two operands; appended to the selected block; fails, changing nothing the view holds, unless a function and a block are selected.
#[verifier::external_body]
pub(crate) fn f_ord_equal(b: &mut Builder, ty: u32, lhs: u32, rhs: u32) -> (r: Result<u32, Error>)
    requires
        builder_ok(*old(b)),
    ensures
        r is Ok <==> in_block(*old(b)),
        r is Ok ==> appended(*old(b), *final(b), InstView::Bin { op: BinOp::FOrdEqual, ty, res: r->Ok_0, lhs, rhs }),
        r is Err ==> same_code(*old(b), *final(b)),
{
    b.f_ord_equal(ty, None, lhs, rhs)
}

/// `Builder::i_not_equal`: the result of type `ty` of the operation on the two operands; appended to the selected block; fails, changing nothing the view holds, unless a function and a block are selected.
#[verifier::external_body]
pub(crate) fn i_not_equal(b: &mut Builder, ty: u32, lhs: u32, rhs: u32) -> (r: Result<u32, Error>)
    requires
        builder_ok(*old(b)),
    ensures
        r is Ok <==> in_block(*old(b)),
        r is Ok ==> appended(*old(b), *final(b), InstView::Bin { op: BinOp::INotEqual, ty, res: r->Ok_0, lhs, rhs }),
        r is Err ==> same_code(*old(b), *final(b)),
{
    b.i_not_equal(ty, None, lhs, rhs)
}

/// `Builder::f_ord_not_equal`: the result of type `ty` of the operation on the two operands; appended to the selected block; fails, changing nothing the view holds, unless a function and a block are selected.
#[verifier::external_body]
pub(crate) fn f_ord_not_equal(b: &mut Builder, ty: u32, lhs: u32, rhs: u32) -> (r: Result<u32, Error>)
    requires
        builder_ok(*old(b)),
    ensures
        r is Ok <==> in_block(*old(b)),
        r is Ok ==> appended(*old(b), *final(b), InstView::Bin { op: BinOp::FOrdNotEqual, ty, res: r->Ok_0, lhs, rhs }),
        r is Err ==> same_code(*old(b), *final(b)),
{
    b.f_ord_not_equal(ty, None, lhs, rhs)
}

/// `Builder::s_less_than`: the result of type `ty` of the operation on the two operands; appended to the selected block; fails, changing nothing the view holds, unless a function and a block are selected.
#[verifier::external_body]
pub(crate) fn s_less_than(b: &mut Builder, ty: u32, lhs: u32, rhs: u32) -> (r: Result<u32, Error>)
    requires
        builder_ok(*old(b)),
    ensures
        r is Ok <==> in_block(*old(b)),
        r is Ok ==> appended(*old(b), *final(b), InstView::Bin { op: BinOp::SLessThan, ty, res: r->Ok_0, lhs, rhs }),
        r is Err ==> same_code(*old(b), *final(b)),
{
    b.s_less_than(ty, None, lhs, rhs)
}

/// `Builder::u_less_than`: the result of type `ty` of the operation on the two operands; appended to the selected block; fails, changing nothing the view holds, unless a function and a block are selected.
#[verifier::external_body]
pub(crate) fn u_less_than(b: &mut Builder, ty: u32, lhs: u32, rhs: u32) -> (r: Result<u32, Error>)
    requires
        builder_ok(*old(b)),
    ensures
        r is Ok <==> in_block(*old(b)),
        r is Ok ==> appended(*old(b), *final(b), InstView::Bin { op: BinOp::ULessThan, ty, res: r->Ok_0, lhs, rhs }),
        r is Err ==> same_code(*old(b), *final(b)),
{
    b.u_less_than(ty, None, lhs, rhs)
}

/// `Builder::f_ord_less_than`: the result of type `ty` of the operation on the two operands; appended to the selected block; fails, changing nothing the view holds, unless a function and a block are selected.
#[verifier::external_body]
pub(crate) fn f_ord_less_than(b: &mut Builder, ty: u32, lhs: u32, rhs: u32) -> (r: Result<u32, Error>)
    requires
        builder_ok(*old(b)),
    ensures
        r is Ok <==> in_block(*old(b)),
        r is Ok ==> appended(*old(b), *final(b), InstView::Bin { op: BinOp::FOrdLessThan, ty, res: r->Ok_0, lhs, rhs }),
        r is Err ==> same_code(*old(b), *final(b)),
{
    b.f_ord_less_than(ty, None, lhs, rhs)
}

/// `Builder::s_greater_than`: the result of type `ty` of the operation on the two operands; appended to the selected block; fails, changing nothing the view holds, unless a function and a block are selected.
#[verifier::external_body]
pub(crate) fn s_greater_than(b: &mut Builder, ty: u32, lhs: u32, rhs: u32) -> (r: Result<u32, Error>)
    requires
        builder_ok(*old(b)),
    ensures
        r is Ok <==> in_block(*old(b)),
        r is Ok ==> appended(*old(b), *final(b), InstView::Bin { op: BinOp::SGreaterThan, ty, res: r->Ok_0, lhs, rhs }),
        r is Err ==> same_code(*old(b), *final(b)),
{
    b.s_greater_than(ty, None, lhs, rhs)
}

/// `Builder::u_greater_than`: the result of type `ty` of the operation on the two operands; appended to the selected block; fails, changing nothing the view holds, unless a function and a block are selected.
#[verifier::external_body]
pub(crate) fn u_greater_than(b: &mut Builder, ty: u32, lhs: u32, rhs: u32) -> (r: Result<u32, Error>)
    requires
        builder_ok(*old(b)),
    ensures
        r is Ok <==> in_block(*old(b)),
        r is Ok ==> appended(*old(b), *final(b), InstView::Bin { op: BinOp::UGreaterThan, ty, res: r->Ok_0, lhs, rhs }),
        r is Err ==> same_code(*old(b), *final(b)),
{
    b.u_greater_than(ty, None, lhs, rhs)
}

/// `Builder::f_ord_greater_than`: the result of type `ty` of the operation on the two operands; appended to the selected block; fails, changing nothing the view holds, unless a function and a block are selected.
#[verifier::external_body]
pub(crate) fn f_ord_greater_than(b: &mut Builder, ty: u32, lhs: u32, rhs: u32) -> (r: Result<u32, Error>)
    requires
        builder_ok(*old(b)),
    ensures
        r is Ok <==> in_block(*old(b)),
        r is Ok ==> appended(*old(b), *final(b), InstView::Bin { op: BinOp::FOrdGreaterThan, ty, res: r->Ok_0, lhs, rhs }),
        r is Err ==> same_code(*old(b), *final(b)),
{
    b.f_ord_greater_than(ty, None, lhs, rhs)
}

/// `Builder::s_less_than_equal`: the result of type `ty` of the operation on the two operands; appended to the selected block; fails, changing nothing the view holds, unless a function and a block are selected.
#[verifier::external_body]
pub(crate) fn s_less_than_equal(b: &mut Builder, ty: u32, lhs: u32, rhs: u32) -> (r: Result<u32, Error>)
    requires
        builder_ok(*old(b)),
    ensures
        r is Ok <==> in_block(*old(b)),
        r is Ok ==> appended(*old(b), *final(b), InstView::Bin { op: BinOp::SLessThanEqual, ty, res: r->Ok_0, lhs, rhs }),
        r is Err ==> same_code(*old(b), *final(b)),
{
    b.s_less_than_equal(ty, None, lhs, rhs)
}

/// `Builder::u_less_than_equal`: the result of type `ty` of the operation on the two operands; appended to the selected block; fails, changing nothing the view holds, unless a function and a block are selected.
#[verifier::external_body]
pub(crate) fn u_less_than_equal(b: &mut Builder, ty: u32, lhs: u32, rhs: u32) -> (r: Result<u32, Error>)
    requires
        builder_ok(*old(b)),
    ensures
        r is Ok <==> in_block(*old(b)),
        r is Ok ==> appended(*old(b), *final(b), InstView::Bin { op: BinOp::ULessThanEqual, ty, res: r->Ok_0, lhs, rhs }),
        r is Err ==> same_code(*old(b), *final(b)),
{
    b.u_less_than_equal(ty, None, lhs, rhs)
}

/// `Builder::f_ord_less_than_equal`: the result of type `ty` of the operation on the two operands; appended to the selected block; fails, changing nothing the view holds, unless a function and a block are selected.
#[verifier::external_body]
pub(crate) fn f_ord_less_than_equal(b: &mut Builder, ty: u32, lhs: u32, rhs: u32) -> (r: Result<u32, Error>)
    requires
        builder_ok(*old(b)),
    ensures
        r is Ok <==> in_block(*old(b)),
        r is Ok ==> appended(*old(b), *final(b), InstView::Bin { op: BinOp::FOrdLessThanEqual, ty, res: r->Ok_0, lhs, rhs }),
        r is Err ==> same_code(*old(b), *final(b)),
{
    b.f_ord_less_than_equal(ty, None, lhs, rhs)
}

/// `Builder::s_greater_than_equal`: the result of type `ty` of the operation on the two operands; appended to the selected block; fails, changing nothing the view holds, unless a function and a block are selected.
#[verifier::external_body]
pub(crate) fn s_greater_than_equal(b: &mut Builder, ty: u32, lhs: u32, rhs: u32) -> (r: Result<u32, Error>)
    requires
        builder_ok(*old(b)),
    ensures
        r is Ok <==> in_block(*old(b)),
        r is Ok ==> appended(*old(b), *final(b), InstView::Bin { op: BinOp::SGreaterThanEqual, ty, res: r->Ok_0, lhs, rhs }),
        r is Err ==> same_code(*old(b), *final(b)),
{
    b.s_greater_than_equal(ty, None, lhs, rhs)
}

/// `Builder::u_greater_than_equal`: the result of type `ty` of the operation on the two operands; appended to the selected block; fails, changing nothing the view holds, unless a function and a block are selected.
#[verifier::external_body]
pub(crate) fn u_greater_than_equal(b: &mut Builder, ty: u32, lhs: u32, rhs: u32) -> (r: Result<u32, Error>)
    requires
        builder_ok(*old(b)),
    ensures
        r is Ok <==> in_block(*old(b)),
        r is Ok ==> appended(*old(b), *final(b), InstView::Bin { op: BinOp::UGreaterThanEqual, ty, res: r->Ok_0, lhs, rhs }),
        r is Err ==> same_code(*old(b), *final(b)),
{
    b.u_greater_than_equal(ty, None, lhs, rhs)
}

/// `Builder::f_ord_greater_than_equal`: the result of type `ty` of the operation on the two operands; appended to the selected block; fails, changing nothing the view holds, unless a function and a block are selected.
#[verifier::external_body]
pub(crate) fn f_ord_greater_than_equal(b: &mut Builder, ty: u32, lhs: u32, rhs: u32) -> (r: Result<u32, Error>)
    requires
        builder_ok(*old(b)),
    ensures
        r is Ok <==> in_block(*old(b)),
        r is Ok ==> appended(*old(b), *final(b), InstView::Bin { op: BinOp::FOrdGreaterThanEqual, ty, res: r->Ok_0, lhs, rhs }),
        r is Err ==> same_code(*old(b), *final(b)),
{
    b.f_ord_greater_than_equal(ty, None, lhs, rhs)
}

/// `Builder::logical_not`: the result of type `ty` of the operation on the operand; appended to the selected block; fails, changing nothing the view holds, unless a function and a block are selected.
#[verifier::external_body]
pub(crate) fn logical_not(b: &mut Builder, ty: u32, operand: u32) -> (r: Result<u32, Error>)
    requires
        builder_ok(*old(b)),
    ensures
        r is Ok <==> in_block(*old(b)),
        r is Ok ==> appended(*old(b), *final(b), InstView::Un { op: UnOp::LogicalNot, ty, res: r->Ok_0, operand }),
        r is Err ==> same_code(*old(b), *final(b)),
{
    b.logical_not(ty, None, operand)
}

/// `Builder::s_convert`: the result of type `ty` of the operation on the operand; appended to the selected block; fails, changing nothing the view holds, unless a function and a block are selected.
#[verifier::external_body]
pub(crate) fn s_convert(b: &mut Builder, ty: u32, operand: u32) -> (r: Result<u32, Error>)
    requires
        builder_ok(*old(b)),
    ensures
        r is Ok <==> in_block(*old(b)),
        r is Ok ==> appended(*old(b), *final(b), InstView::Un { op: UnOp::SConvert, ty, res: r->Ok_0, operand }),
        r is Err ==> same_code(*old(b), *final(b)),
{
    b.s_convert(ty, None, operand)
}

/// `Builder::u_convert`: the result of type `ty` of the operation on the operand; appended to the selected block; fails, changing nothing the view holds, unless a function and a block are selected.
#[verifier::external_body]
pub(crate) fn u_convert(b: &mut Builder, ty: u32, operand: u32) -> (r: Result<u32, Error>)
    requires
        builder_ok(*old(b)),
    ensures
        r is Ok <==> in_block(*old(b)),
        r is Ok ==> appended(*old(b), *final(b), InstView::Un { op: UnOp::UConvert, ty, res: r->Ok_0, operand }),
        r is Err ==> same_code(*old(b), *final(b)),
{
    b.u_convert(ty, None, operand)
}

/// `Builder::f_convert`: the result of type `ty` of the operation on the operand; appended to the selected block; fails, changing nothing the view holds, unless a function and a block are selected.
#[verifier::external_body]
pub(crate) fn f_convert(b: &mut Builder, ty: u32, operand: u32) -> (r: Result<u32, Error>)
    requires
        builder_ok(*old(b)),
    ensures
        r is Ok <==> in_block(*old(b)),
        r is Ok ==> appended(*old(b), *final(b), InstView::Un { op: UnOp::FConvert, ty, res: r->Ok_0, operand }),
        r is Err ==> same_code(*old(b), *final(b)),
{
    b.f_convert(ty, None, operand)
}

/// `Builder::convert_s_to_f`: the result of type `ty` of the operation on the operand; appended to the selected block; fails, changing nothing the view holds, unless a function and a block are selected.
#[verifier::external_body]
pub(crate) fn convert_s_to_f(b: &mut Builder, ty: u32, operand: u32) -> (r: Result<u32, Error>)
    requires
        builder_ok(*old(b)),
    ensures
        r is Ok <==> in_block(*old(b)),
        r is Ok ==> appended(*old(b), *final(b), InstView::Un { op: UnOp::ConvertSToF, ty, res: r->Ok_0, operand }),
        r is Err ==> same_code(*old(b), *final(b)),
{
    b.convert_s_to_f(ty, None, operand)
}

/// `Builder::convert_u_to_f`: the result of type `ty` of the operation on the operand; appended to the selected block; fails, changing nothing the view holds, unless a function and a block are selected.
#[verifier::external_body]
pub(crate) fn convert_u_to_f(b: &mut Builder, ty: u32, operand: u32) -> (r: Result<u32, Error>)
    requires
        builder_ok(*old(b)),
    ensures
        r is Ok <==> in_block(*old(b)),
        r is Ok ==> appended(*old(b), *final(b), InstView::Un { op: UnOp::ConvertUToF, ty, res: r->Ok_0, operand }),
        r is Err ==> same_code(*old(b), *final(b)),
{
    b.convert_u_to_f(ty, None, operand)
}

/// `Builder::convert_f_to_s`: the result of type `ty` of the operation on the operand; appended to the selected block; fails, changing nothing the view holds, unless a function and a block are selected.
#[verifier::external_body]
pub(crate) fn convert_f_to_s(b: &mut Builder, ty: u32, operand: u32) -> (r: Result<u32, Error>)
    requires
        builder_ok(*old(b)),
    ensures
        r is Ok <==> in_block(*old(b)),
        r is Ok ==> appended(*old(b), *final(b), InstView::Un { op: UnOp::ConvertFToS, ty, res: r->Ok_0, operand }),
        r is Err ==> same_code(*old(b), *final(b)),
{
    b.convert_f_to_s(ty, None, operand)
}

/// `Builder::convert_f_to_u`: the result of type `ty` of the operation on the operand; appended to the selected block; fails, changing nothing the view holds, unless a function and a block are selected.
#[verifier::external_body]
pub(crate) fn convert_f_to_u(b: &mut Builder, ty: u32, operand: u32) -> (r: Result<u32, Error>)
    requires
        builder_ok(*old(b)),
    ensures
        r is Ok <==> in_block(*old(b)),
        r is Ok ==> appended(*old(b), *final(b), InstView::Un { op: UnOp::ConvertFToU, ty, res: r->Ok_0, operand }),
        r is Err ==> same_code(*old(b), *final(b)),
{
    b.convert_f_to_u(ty, None, operand)
}

/// `Builder::sat_convert_s_to_u`: the result of type `ty` of the operation on the operand; appended to the selected block; fails, changing nothing the view holds, unless a function and a block are selected.
#[verifier::external_body]
pub(crate) fn sat_convert_s_to_u(b: &mut Builder, ty: u32, operand: u32) -> (r: Result<u32, Error>)
    requires
        builder_ok(*old(b)),
    ensures
        r is Ok <==> in_block(*old(b)),
        r is Ok ==> appended(*old(b), *final(b), InstView::Un { op: UnOp::SatConvertSToU, ty, res: r->Ok_0, operand }),
        r is Err ==> same_code(*old(b), *final(b)),
{
    b.sat_convert_s_to_u(ty, None, operand)
}

/// `Builder::sat_convert_u_to_s`: the result of type `ty` of the operation on the operand; appended to the selected block; fails, changing nothing the view holds, unless a function and a block are selected.
#[verifier::external_body]
pub(crate) fn sat_convert_u_to_s(b: &mut Builder, ty: u32, operand: u32) -> (r: Result<u32, Error>)
    requires
        builder_ok(*old(b)),
    ensures
        r is Ok <==> in_block(*old(b)),
        r is Ok ==> appended(*old(b), *final(b), InstView::Un { op: UnOp::SatConvertUToS, ty, res: r->Ok_0, operand }),
        r is Err ==> same_code(*old(b), *final(b)),
{
    b.sat_convert_u_to_s(ty, None, operand)
}

} // verus!
