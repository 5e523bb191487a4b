//! Where recorded instructions go while a shader function is being built.
//!
//! A function body is a [`FuncScope`]: its instruction list and the table of
//! variable numbers handed out so far. The body of a conditional branch is an
//! [`IfScope`] nested inside the enclosing scope: it has its own instruction
//! list but draws variable numbers from the function it belongs to.

use slab::Slab;
use vstd::prelude::*;

use crate::builder::{attach_in, attached};
use crate::ir::{IfElse, Instruction};
use crate::types::name_view;

verus! {

#[verifier::external_type_specification]
#[verifier::external_body]
#[verifier::reject_recursive_types(T)]
pub struct ExSlab<T>(slab::Slab<T>);

/// A slab of optional variable names.
pub type NameSlab = Slab<Option<String>>;

/// What a slab of variable names holds: each occupied key with the name given
/// to that variable, if any.
pub uninterp spec fn slab_entries(s: NameSlab) -> Map<usize, Option<Seq<char>>>;

/// Where a slab of variable names inserts next: the key of its next vacant
/// entry (`Slab::vacant_key`), and how many entries, occupied or vacant, it
/// has.
pub uninterp spec fn slab_cursor(s: NameSlab) -> (usize, usize);

/// `Slab::new`: an empty slab, with no entries, inserting at key 0 next.
#[verifier::external_body]
pub(crate) fn slab_new() -> (r: NameSlab)
    ensures
        slab_entries(r).dom().is_empty(),
        slab_cursor(r) == (0usize, 0usize),
{
    Slab::new()
}

/// `Slab::insert`: stores the value at the next vacant key and returns that
/// key; every other entry is kept. When that key is past the last entry,
/// the value is appended and the next key is the one after it.
#[verifier::external_body]
pub(crate) fn slab_insert(s: &mut NameSlab, v: Option<String>) -> (k: usize)
    ensures
        !slab_entries(*old(s)).dom().contains(k),
        slab_entries(*final(s)) == slab_entries(*old(s)).insert(k, name_view(v)),
        k == slab_cursor(*old(s)).0,
        k < usize::MAX,
        slab_cursor(*old(s)).0 == slab_cursor(*old(s)).1 ==> slab_cursor(*final(s)) == ((k + 1) as usize, (k + 1) as usize),
{
    s.insert(v)
}

/// `Slab::get_mut` followed by an assignment: replaces the value at an occupied
/// key and reports whether the key was occupied; a vacant key changes nothing.
#[verifier::external_body]
pub(crate) fn slab_replace(s: &mut NameSlab, k: usize, v: Option<String>) -> (found: bool)
    ensures
        found == slab_entries(*old(s)).dom().contains(k),
        found ==> slab_entries(*final(s)) == slab_entries(*old(s)).insert(k, name_view(v)),
        !found ==> slab_entries(*final(s)) == slab_entries(*old(s)),
        slab_cursor(*final(s)) == slab_cursor(*old(s)),
{
    match s.get_mut(k) {
        Some(n) => {
            *n = v;
            true
        },
        None => false,
    }
}

/// The body of a shader function being recorded.
pub struct FuncScope {
    pub instructions: Vec<Instruction>,
    pub variables: NameSlab,
}

/// The body of a branch being recorded inside an enclosing scope.
pub struct IfScope {
    pub instructions: Vec<Instruction>,
    pub outer: Box<Scope>,
}

/// The scope instructions are currently recorded into.
pub enum Scope {
    Func(FuncScope),
    If(IfScope),
}

impl FuncScope {
    /// A function body with no instructions and no variables.
    pub fn new() -> (r: Self)
        ensures
            r.instructions@ == Seq::<Instruction>::empty(),
            slab_entries(r.variables) == Map::<usize, Option<Seq<char>>>::empty(),
            Scope::Func(r).dense(),
            Scope::Func(r).next_var() == 0,
    {
        let r = FuncScope { instructions: Vec::new(), variables: slab_new() };
        proof {
            assert(slab_entries(r.variables).dom() =~= Set::new(|k: usize| k < 0usize));
        }
        r
    }
}

impl Scope {
    /// The variables handed out so far in the enclosing function, with their
    /// names.
    pub open spec fn vars(self) -> Map<usize, Option<Seq<char>>>
        decreases self,
    {
        match self {
            Scope::Func(f) => slab_entries(f.variables),
            Scope::If(i) => i.outer.vars(),
        }
    }

    /// The variables of the enclosing function are numbered from 0 with no
    /// gap, and the next one handed out is the one after them.
    pub open spec fn dense(self) -> bool
        decreases self,
    {
        match self {
            Scope::Func(f) => {
                let c = slab_cursor(f.variables);
                &&& c.0 == c.1
                &&& slab_entries(f.variables).dom() == Set::new(|k: usize| k < c.0)
            },
            Scope::If(i) => i.outer.dense(),
        }
    }

    /// The number the enclosing function hands out next.
    pub open spec fn next_var(self) -> usize
        decreases self,
    {
        match self {
            Scope::Func(f) => slab_cursor(f.variables).0,
            Scope::If(i) => i.outer.next_var(),
        }
    }

    /// The instructions recorded so far in this scope itself.
    pub open spec fn recorded(self) -> Seq<Instruction> {
        match self {
            Scope::Func(f) => f.instructions@,
            Scope::If(i) => i.instructions@,
        }
    }

    /// The instructions recorded so far in this scope and in each enclosing
    /// one, innermost first.
    pub open spec fn frames(self) -> Seq<Seq<Instruction>>
        decreases self,
    {
        match self {
            Scope::Func(f) => seq![f.instructions@],
            Scope::If(i) => seq![i.instructions@] + i.outer.frames(),
        }
    }

    /// How many branch bodies this scope is nested in.
    pub open spec fn depth(self) -> nat
        decreases self,
    {
        match self {
            Scope::Func(_) => 0,
            Scope::If(i) => i.outer.depth() + 1,
        }
    }

    /// Everything but this scope's own instructions and variables: the
    /// enclosing scope of a branch body, nothing for a function body.
    pub open spec fn enclosing(self) -> Option<Scope> {
        match self {
            Scope::Func(_) => None,
            Scope::If(i) => Some(*i.outer),
        }
    }

    /// Records an instruction at the end of this scope.
    pub fn push_instruction(&mut self, instruction: Instruction)
        ensures
            final(self).recorded() == old(self).recorded().push(instruction),
            final(self).vars() == old(self).vars(),
            final(self).depth() == old(self).depth(),
            final(self).frames() == old(self).frames().update(0, old(self).recorded().push(instruction)),
            (*final(self)) is Func <==> (*old(self)) is Func,
            (*old(self)) is If ==> (*final(self))->If_0.outer == (*old(self))->If_0.outer,
    {
        match self {
            Scope::Func(f) => f.instructions.push(instruction),
            Scope::If(i) => i.instructions.push(instruction),
        }
    }

    /// Puts `tail` after the last `if` of the chain recorded at `idx` in this
    /// scope.
    pub fn attach_chain(&mut self, idx: usize, tail: IfElse)
        requires
            idx < old(self).recorded().len(),
            old(self).recorded()[idx as int] is If,
        ensures
            final(self).recorded() == attached(old(self).recorded(), idx as int, tail),
            final(self).vars() == old(self).vars(),
            final(self).depth() == old(self).depth(),
            final(self).frames() == old(self).frames().update(0, attached(old(self).recorded(), idx as int, tail)),
            (*final(self)) is Func <==> (*old(self)) is Func,
    {
        match self {
            Scope::Func(f) => attach_in(&mut f.instructions, idx, tail),
            Scope::If(i) => attach_in(&mut i.instructions, idx, tail),
        }
    }

    /// Hands out a variable number not handed out before in the enclosing
    /// function: in a function whose numbers have no gap, the one after
    /// them, so that they go 0, 1, 2 and on.
    pub fn get_new_id(&mut self) -> (id: usize)
        ensures
            !old(self).vars().dom().contains(id),
            id == old(self).next_var(),
            old(self).dense() ==> final(self).dense() && final(self).next_var() == id + 1,
            id_step(*old(self), *final(self), Some(id)),
            final(self).vars() == old(self).vars().insert(id, None),
            final(self).recorded() == old(self).recorded(),
            final(self).depth() == old(self).depth(),
            final(self).frames() == old(self).frames(),
            (*final(self)) is Func <==> (*old(self)) is Func,
        decreases old(self).depth(),
    {
        match self {
            Scope::Func(f) => {
                let ghost c = slab_cursor(f.variables);
                let k = slab_insert(&mut f.variables, None);
                proof {
                    if c.0 == c.1 && slab_entries(old(self)->Func_0.variables).dom() == Set::new(|j: usize| j < c.0) {
                        assert(slab_entries(f.variables).dom() =~= Set::new(|j: usize| j < (k + 1) as usize));
                    }
                }
                k
            },
            Scope::If(i) => i.outer.get_new_id(),
        }
    }

    /// Names a variable handed out before; a number never handed out is left
    /// alone.
    pub fn name_var(&mut self, id: usize, name: String)
        ensures
            old(self).vars().dom().contains(id) ==> final(self).vars() == old(self).vars().insert(id, Some(name@)),
            !old(self).vars().dom().contains(id) ==> final(self).vars() == old(self).vars(),
            final(self).next_var() == old(self).next_var(),
            old(self).dense() ==> final(self).dense(),
            id_step(*old(self), *final(self), None),
            final(self).recorded() == old(self).recorded(),
            final(self).depth() == old(self).depth(),
            final(self).frames() == old(self).frames(),
            (*final(self)) is Func <==> (*old(self)) is Func,
        decreases old(self).depth(),
    {
        match self {
            Scope::Func(f) => {
                let ghost d0 = slab_entries(f.variables).dom();
                let found = slab_replace(&mut f.variables, id, Some(name));
                proof {
                    if found {
                        assert(slab_entries(f.variables).dom() =~= d0);
                    }
                }
            },
            Scope::If(i) => i.outer.name_var(id, name),
        }
    }
}

/// One step on a scope, as `Scope::get_new_id` (handing out `Some(id)`) or
/// `Scope::name_var` (`None`) take it.
pub open spec fn id_step(a: Scope, b: Scope, id: Option<usize>) -> bool {
    match id {
        Some(x) => x == a.next_var() && (a.dense() ==> b.dense() && b.next_var() == x + 1),
        None => b.next_var() == a.next_var() && (a.dense() ==> b.dense()),
    }
}

/// How many numbers a run of steps handed out.
pub open spec fn handed_out(ids: Seq<Option<usize>>) -> nat
    decreases ids.len(),
{
    if ids.len() == 0 {
        0
    } else {
        handed_out(ids.drop_last()) + if ids.last() is Some { 1nat } else { 0nat }
    }
}

/// After the first `k` steps from a new function scope, the scope has no
/// gap and hands out next the number of numbers handed out so far.
proof fn lemma_ids_prefix(ss: Seq<Scope>, ids: Seq<Option<usize>>, k: int)
    requires
        ss.len() == ids.len() + 1,
        ss[0].dense(),
        ss[0].next_var() == 0,
        forall|j: int| 0 <= j < ids.len() ==> #[trigger] id_step(ss[j], ss[j + 1], ids[j]),
        0 <= k <= ids.len(),
    ensures
        ss[k].dense(),
        ss[k].next_var() == handed_out(ids.take(k)),
    decreases k,
{
    if k == 0 {
        assert(ids.take(0) =~= Seq::<Option<usize>>::empty());
    } else {
        lemma_ids_prefix(ss, ids, k - 1);
        assert(ids.take(k).drop_last() =~= ids.take(k - 1));
        let j = k - 1;
        assert(id_step(ss[j], ss[j + 1], ids[j]));
        assert(ss[j + 1] == ss[k]);
    }
}

/// Variable numbers count up: from a new function scope, through any run of
/// requests for numbers and names given, the numbers handed out are 0, 1, 2
/// and on, each the count of those handed out before it.
pub proof fn law_ids_count_up(ss: Seq<Scope>, ids: Seq<Option<usize>>)
    requires
        ss.len() == ids.len() + 1,
        ss[0].dense(),
        ss[0].next_var() == 0,
        forall|j: int| 0 <= j < ids.len() ==> #[trigger] id_step(ss[j], ss[j + 1], ids[j]),
    ensures
        forall|j: int| 0 <= j < ids.len() && (#[trigger] ids[j]) is Some ==> ids[j]->Some_0 == handed_out(ids.take(j)),
{
    assert forall|j: int| 0 <= j < ids.len() && (#[trigger] ids[j]) is Some implies ids[j]->Some_0 == handed_out(ids.take(j)) by {
        lemma_ids_prefix(ss, ids, j);
        assert(id_step(ss[j], ss[j + 1], ids[j]));
    }
}

/// A kind of scope that a [`Scope`] can be narrowed to.
pub trait ScopeVariant: Sized {
    /// The scope as this kind, if it is of this kind.
    spec fn of_scope(s: Scope) -> Option<Self>;

    /// Borrows the scope as this kind, if it is of this kind.
    fn from_ref(s: &Scope) -> (r: Option<&Self>)
        ensures
            r is Some <==> Self::of_scope(*s) is Some,
            r is Some ==> *r->0 == Self::of_scope(*s)->0;

    /// Borrows the scope mutably as this kind, if it is of this kind.
    fn from_mut(s: &mut Scope) -> (r: Option<&mut Self>)
        ensures
            r is Some <==> Self::of_scope(*old(s)) is Some,
            r is Some ==> *r->0 == Self::of_scope(*old(s))->0,
            r is Some ==> Self::of_scope(*final(s)) == Some(*final(r->0)),
            r is None ==> *final(s) == *old(s);

    /// Takes the scope as this kind, or gives it back unchanged.
    fn from_box(s: Box<Scope>) -> (r: Result<Box<Self>, Box<Scope>>)
        ensures
            r is Ok <==> Self::of_scope(*s) is Some,
            r is Ok ==> Self::of_scope(*s) == Some(*r->Ok_0),
            r is Err ==> *r->Err_0 == *s;
}

impl ScopeVariant for FuncScope {
    open spec fn of_scope(s: Scope) -> Option<FuncScope> {
        match s {
            Scope::Func(f) => Some(f),
            _ => None,
        }
    }

    fn from_ref(s: &Scope) -> (r: Option<&FuncScope>) {
        match s {
            Scope::Func(f) => Some(f),
            _ => None,
        }
    }

    fn from_mut(s: &mut Scope) -> (r: Option<&mut FuncScope>) {
        match s {
            Scope::Func(f) => Some(f),
            _ => None,
        }
    }

    fn from_box(s: Box<Scope>) -> (r: Result<Box<FuncScope>, Box<Scope>>) {
        match *s {
            Scope::Func(f) => Ok(Box::new(f)),
            other => Err(Box::new(other)),
        }
    }
}

impl ScopeVariant for IfScope {
    open spec fn of_scope(s: Scope) -> Option<IfScope> {
        match s {
            Scope::If(i) => Some(i),
            _ => None,
        }
    }

    fn from_ref(s: &Scope) -> (r: Option<&IfScope>) {
        match s {
            Scope::If(i) => Some(i),
            _ => None,
        }
    }

    fn from_mut(s: &mut Scope) -> (r: Option<&mut IfScope>) {
        match s {
            Scope::If(i) => Some(i),
            _ => None,
        }
    }

    fn from_box(s: Box<Scope>) -> (r: Result<Box<IfScope>, Box<Scope>>) {
        match *s {
            Scope::If(i) => Ok(Box::new(i)),
            other => Err(Box::new(other)),
        }
    }
}

impl Scope {
    /// Borrows this scope as the kind `T`, if it is of that kind.
    pub fn downcast_ref<T: ScopeVariant>(&self) -> (r: Option<&T>)
        ensures
            r is Some <==> T::of_scope(*self) is Some,
            r is Some ==> *r->0 == T::of_scope(*self)->0,
    {
        T::from_ref(self)
    }

    /// Borrows this scope mutably as the kind `T`, if it is of that kind.
    pub fn downcast_mut<T: ScopeVariant>(&mut self) -> (r: Option<&mut T>)
        ensures
            r is Some <==> T::of_scope(*old(self)) is Some,
            r is Some ==> *r->0 == T::of_scope(*old(self))->0,
            r is Some ==> T::of_scope(*final(self)) == Some(*final(r->0)),
            r is None ==> *final(self) == *old(self),
    {
        T::from_mut(self)
    }

    /// Takes this scope as the kind `T`, or gives it back unchanged.
    pub fn downcast<T: ScopeVariant>(self: Box<Self>) -> (r: Result<Box<T>, Box<Self>>)
        ensures
            r is Ok <==> T::of_scope(*self) is Some,
            r is Ok ==> T::of_scope(*self) == Some(*r->Ok_0),
            r is Err ==> *r->Err_0 == *self,
    {
        T::from_box(self)
    }
}

} // verus!
