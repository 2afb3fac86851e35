//! The explicit-control evaluator: seven registers, continuation markers
//! on the stack, and a transition loop.  The stack discipline is proved:
//! a successful evaluation returns the stack cursor exactly where it
//! found it.

use crate::vm::atoms::assign_effect;
use crate::vm::constants::ConstSymbol;
use crate::vm::error::{LispError, LispResult};
use crate::vm::lists::{car_of, cdr_of, cons_valid, is_chain, lemma_chain_same};
use crate::vm::types::{
    DataType, TypedPointer, VirtualMachine, LISP_STACK_SIZE, LIST_AREA_SIZE, NUMBER_TABLE_SIZE,
};
use vstd::prelude::*;

verus! {

/// Looking `atom` up in the frame chain starting at `env`: the value of
/// the first frame that binds it, `None` when the chain ends at `nil`,
/// an error when the chain is broken.
pub open spec fn spec_chain_lookup(
    vm: &VirtualMachine,
    env: TypedPointer,
    atom: TypedPointer,
) -> Result<Option<TypedPointer>, ()>
    decreases env.value,
{
    if env == ConstSymbol::spec_nil() {
        Result::Ok(Option::None)
    } else if env.tag != DataType::Environment || env.value >= vm.environments.last {
        Result::Err(())
    } else {
        let m = vm.environments.area@[env.value as int].map_view();
        if m.contains_key(atom.value) {
            Result::Ok(Option::Some(m[atom.value]))
        } else {
            let prev = vm.environments.area@[env.value as int].prev;
            if prev == ConstSymbol::spec_nil() {
                Result::Ok(Option::None)
            } else if prev.value < env.value {
                spec_chain_lookup(vm, prev, atom)
            } else {
                Result::Err(())
            }
        }
    }
}

/// Variable lookup: the chain from `env` is searched first; a missing or
/// undefined binding falls back to the atom's global value.
///
/// The fallback on an undefined binding is deliberate: a frame may bind
/// an atom to the undefined pointer (an unbound argument evaluates to
/// it), and such a hit is treated as no hit at all, so the atom's global
/// value answers instead of the frame.
pub open spec fn spec_lookup(vm: &VirtualMachine, env: TypedPointer, atom: TypedPointer) -> Result<
    TypedPointer,
    (),
> {
    if atom.tag != DataType::Atom {
        Result::Err(())
    } else {
        match spec_chain_lookup(vm, env, atom) {
            Result::Err(_) => Result::Err(()),
            Result::Ok(opt) => {
                let v = match opt {
                    Option::Some(v) => v,
                    Option::None => TypedPointer { tag: DataType::Undefined, value: 0 },
                };
                if v.tag != DataType::Undefined {
                    Result::Ok(v)
                } else if atom.value < vm.atoms.last {
                    Result::Ok(vm.atoms.area@[atom.value as int].value)
                } else {
                    Result::Err(())
                }
            },
        }
    }
}

/// Lookup reads only the environment table and the atom table.
pub proof fn lemma_lookup_same(
    vm1: &VirtualMachine,
    vm2: &VirtualMachine,
    env: TypedPointer,
    atom: TypedPointer,
)
    requires
        vm1.environments == vm2.environments,
        vm1.atoms == vm2.atoms,
    ensures
        spec_chain_lookup(vm1, env, atom) == spec_chain_lookup(vm2, env, atom),
        spec_lookup(vm1, env, atom) == spec_lookup(vm2, env, atom),
    decreases env.value,
{
    if env != ConstSymbol::spec_nil() && env.tag == DataType::Environment && env.value
        < vm1.environments.last {
        let m = vm1.environments.area@[env.value as int].map_view();
        if !m.contains_key(atom.value) {
            let prev = vm1.environments.area@[env.value as int].prev;
            if prev.value < env.value {
                lemma_lookup_same(vm1, vm2, prev, atom);
            }
        }
    }
}

/// The live stack above `base`.
pub open spec fn smodel(vm: &VirtualMachine, base: int) -> Seq<TypedPointer> {
    vm.stack.area@.subrange(base, vm.stack.last as int)
}

/// The stack above the caller's cursor decomposes into the frames that
/// the pending continuations expect: an assignment holds the saved
/// continuation and the target atom; an application holds the saved
/// continuation, environment and argument list; the argument loop holds
/// the function and the accumulated arguments; a pending nested `eval`
/// holds the seven saved registers.  `k` is the continuation now in
/// charge, `depth` the number of pending nested `eval`s.
pub open spec fn frames_ok(s: Seq<TypedPointer>, k: TypedPointer, depth: nat) -> bool
    decreases s.len(),
{
    if k == ConstSymbol::spec_done() {
        if depth == 0 {
            s.len() == 0
        } else {
            s.len() >= 7 && frames_ok(s.take(s.len() - 7), s[s.len() - 7], (depth - 1) as nat)
        }
    } else if k == ConstSymbol::spec_eval_assign() {
        s.len() >= 2 && frames_ok(s.take(s.len() - 2), s[s.len() - 2], depth)
    } else if k == ConstSymbol::spec_eval_args() {
        s.len() >= 3 && frames_ok(s.take(s.len() - 3), s[s.len() - 3], depth)
    } else if k == ConstSymbol::spec_accumulate_last_arg() {
        s.len() >= 3 && frames_ok(s.take(s.len() - 3), s[s.len() - 3], depth)
    } else if k == ConstSymbol::spec_accumulate_arg() {
        s.len() >= 5 && frames_ok(s.take(s.len() - 5), s[s.len() - 5], depth)
    } else {
        false
    }
}

/// There cannot be more pending nested `eval`s than stack entries.
pub proof fn lemma_frames_depth(s: Seq<TypedPointer>, k: TypedPointer, depth: nat)
    requires
        frames_ok(s, k, depth),
    ensures
        depth <= s.len(),
    decreases s.len(),
{
    if k == ConstSymbol::spec_done() {
        if depth > 0 {
            lemma_frames_depth(s.take(s.len() - 7), s[s.len() - 7], (depth - 1) as nat);
        }
    } else if k == ConstSymbol::spec_eval_assign() {
        lemma_frames_depth(s.take(s.len() - 2), s[s.len() - 2], depth);
    } else if k == ConstSymbol::spec_eval_args() {
        lemma_frames_depth(s.take(s.len() - 3), s[s.len() - 3], depth);
    } else if k == ConstSymbol::spec_accumulate_last_arg() {
        lemma_frames_depth(s.take(s.len() - 3), s[s.len() - 3], depth);
    } else if k == ConstSymbol::spec_accumulate_arg() {
        lemma_frames_depth(s.take(s.len() - 5), s[s.len() - 5], depth);
    }
}

/// The map built by binding each parameter to its positional argument,
/// from the last pair to the first, so that the first occurrence of a
/// repeated parameter wins.
pub open spec fn bound_map_upto(
    params: Seq<TypedPointer>,
    args: Seq<TypedPointer>,
    i: int,
) -> Map<usize, TypedPointer>
    decreases i,
{
    if i <= 0 {
        Map::empty()
    } else {
        bound_map_upto(params, args, i - 1).insert(params[params.len() - i].value, args[i - 1])
    }
}

/// The full parameter-to-argument map of an application.
pub open spec fn bound_map(params: Seq<TypedPointer>, args: Seq<TypedPointer>) -> Map<
    usize,
    TypedPointer,
> {
    bound_map_upto(params, args, params.len() as int)
}

/// A well-shaped assignment form: the target in second position, the
/// value expression in third.
pub open spec fn setq_shape(vm: &VirtualMachine, exp: TypedPointer) -> bool {
    &&& cons_valid(vm, exp)
    &&& car_of(vm, exp) == ConstSymbol::spec_setq()
    &&& cons_valid(vm, cdr_of(vm, exp))
    &&& cons_valid(vm, cdr_of(vm, cdr_of(vm, exp)))
}

/// The atom an assignment form stores into.
pub open spec fn setq_target(vm: &VirtualMachine, exp: TypedPointer) -> TypedPointer {
    car_of(vm, cdr_of(vm, exp))
}

/// The value expression of an assignment form.
pub open spec fn setq_value_expr(vm: &VirtualMachine, exp: TypedPointer) -> TypedPointer {
    car_of(vm, cdr_of(vm, cdr_of(vm, exp)))
}

/// An expression the dispatcher settles in one transition, allocating
/// nothing: a self-evaluating object or a variable.
pub open spec fn simple_expr(e: TypedPointer) -> bool {
    e.tag == DataType::Number || e.tag == DataType::Literal || e.tag == DataType::Atom
}

/// What a simple expression evaluates to.
pub open spec fn simple_value(vm: &VirtualMachine, env: TypedPointer, e: TypedPointer) -> Result<
    TypedPointer,
    (),
> {
    if e.tag == DataType::Number || e.tag == DataType::Literal {
        Result::Ok(e)
    } else {
        spec_lookup(vm, env, e)
    }
}

/// Every expression of the sequence is simple.
pub open spec fn all_simple(args: Seq<TypedPointer>, i: int) -> bool
    decreases args.len() - i,
{
    if i < 0 || i >= args.len() {
        true
    } else {
        simple_expr(args[i]) && all_simple(args, i + 1)
    }
}

/// Every simple argument evaluates without error.
pub open spec fn all_values_ok(vm: &VirtualMachine, args: Seq<TypedPointer>, i: int) -> bool
    decreases args.len() - i,
{
    if i < 0 || i >= args.len() {
        true
    } else {
        simple_value(vm, ConstSymbol::spec_e0(), args[i]) is Ok && all_values_ok(vm, args, i + 1)
    }
}

/// The values the simple arguments evaluate to, in source order.
pub open spec fn arg_values(vm: &VirtualMachine, args: Seq<TypedPointer>) -> Seq<TypedPointer> {
    Seq::new(args.len(), |i: int| simple_value(vm, ConstSymbol::spec_e0(), args[i])->Ok_0)
}

/// No evaluated argument points into the cons area above the cursor.
pub open spec fn values_cons_bounded(vm: &VirtualMachine, vals: Seq<TypedPointer>) -> bool {
    forall|i: int|
        0 <= i < vals.len() ==> ((#[trigger] vals[i]).tag == DataType::Cons ==> vals[i].value
            < vm.lists.last)
}

/// `all_simple` is the pointwise statement.
pub proof fn lemma_all_simple_iff(args: Seq<TypedPointer>, i: int)
    requires
        0 <= i,
    ensures
        all_simple(args, i) <==> (forall|k: int| i <= k < args.len() ==> simple_expr(args[k])),
    decreases args.len() - i,
{
    if 0 <= i < args.len() {
        lemma_all_simple_iff(args, i + 1);
    }
}

/// `all_values_ok` is the pointwise statement.
pub proof fn lemma_all_values_iff(vm: &VirtualMachine, args: Seq<TypedPointer>, i: int)
    requires
        0 <= i,
    ensures
        all_values_ok(vm, args, i) <==> (forall|k: int|
            i <= k < args.len() ==> simple_value(vm, ConstSymbol::spec_e0(), args[k]) is Ok),
    decreases args.len() - i,
{
    if 0 <= i < args.len() {
        lemma_all_values_iff(vm, args, i + 1);
    }
}

/// The head of an application of a built-in other than `eval`: an atom
/// in operator position whose lookup in the root environment yields it.
pub open spec fn builtin_app_head(vm: &VirtualMachine, exp: TypedPointer) -> bool {
    &&& cons_valid(vm, exp)
    &&& car_of(vm, exp).tag == DataType::Atom
    &&& car_of(vm, exp) != ConstSymbol::spec_setq()
    &&& car_of(vm, exp) != ConstSymbol::spec_quote()
    &&& car_of(vm, exp) != ConstSymbol::spec_fn_sym()
    &&& car_of(vm, exp) != ConstSymbol::spec_do_sym()
    &&& match spec_lookup(vm, ConstSymbol::spec_e0(), car_of(vm, exp)) {
        Result::Ok(f) => f.tag == DataType::BuiltInFunction && f != ConstSymbol::spec_bin_eval(),
        Result::Err(_) => false,
    }
}

/// What applying the built-in `f` to the evaluated arguments `vals`
/// (source order) returns and allocates, over the machine state at the
/// start of the evaluation; `n` cells have been spent on the argument
/// chain first.
pub open spec fn builtin_app_result(
    pre: &VirtualMachine,
    post: &VirtualMachine,
    f: TypedPointer,
    vals: Seq<TypedPointer>,
    r: crate::vm::error::LispResult<TypedPointer>,
) -> bool {
    let n = vals.len() as int;
    if f == ConstSymbol::spec_bin_car() {
        if vals.len() != 1 {
            r is Err
        } else if vals[0] == ConstSymbol::spec_nil() {
            r == Ok::<_, LispError>(ConstSymbol::spec_nil())
        } else if vals[0].tag == DataType::Cons {
            r == Ok::<_, LispError>(car_of(pre, vals[0]))
        } else {
            r is Err
        }
    } else if f == ConstSymbol::spec_bin_cdr() {
        if vals.len() != 1 {
            r is Err
        } else if vals[0] == ConstSymbol::spec_nil() {
            r == Ok::<_, LispError>(ConstSymbol::spec_nil())
        } else if vals[0].tag == DataType::Cons {
            r == Ok::<_, LispError>(cdr_of(pre, vals[0]))
        } else {
            r is Err
        }
    } else if f == ConstSymbol::spec_bin_eq() {
        if vals.len() != 2 {
            r is Err
        } else {
            match crate::vm::primitive_eval::spec_eq_result(pre, vals[0], vals[1]) {
                Result::Ok(v) => r == Ok::<_, LispError>(v),
                Result::Err(_) => r is Err,
            }
        }
    } else if f == ConstSymbol::spec_bin_cons() {
        if vals.len() != 2 {
            r is Err
        } else if pre.lists.last + n + 1 <= LIST_AREA_SIZE {
            &&& r == Ok::<_, LispError>(
                TypedPointer { tag: DataType::Cons, value: (pre.lists.last + n) as usize },
            )
            &&& post.lists.area@[pre.lists.last + n].car == vals[0]
            &&& post.lists.area@[pre.lists.last + n].cdr == vals[1]
        } else {
            r is Err
        }
    } else if f == ConstSymbol::spec_bin_list() {
        if pre.lists.last + 2 * n <= LIST_AREA_SIZE {
            r matches Ok(p) && is_chain(post, p, vals)
        } else {
            r is Err
        }
    } else {
        true
    }
}

/// An operator position that cannot start an application: neither a
/// sub-expression that may produce a function nor an atom bound to one.
pub open spec fn bad_operator(vm: &VirtualMachine, exp: TypedPointer) -> bool {
    match car_of(vm, exp).tag {
        DataType::Atom => match spec_lookup(vm, ConstSymbol::spec_e0(), car_of(vm, exp)) {
            Result::Ok(v) => v.tag != DataType::Function && v.tag != DataType::BuiltInFunction,
            Result::Err(_) => true,
        },
        DataType::Cons | DataType::Function | DataType::BuiltInFunction => false,
        _ => true,
    }
}

/// Small predicates the dispatcher decides by.
struct EvalHelper;

impl EvalHelper {
    /// Whether the pointer is something the machine can apply.
    fn functionp(ptr: TypedPointer) -> (r: bool)
        ensures
            r == (ptr.tag == DataType::BuiltInFunction || ptr.tag == DataType::Function),
    {
        ptr.tag == DataType::BuiltInFunction || ptr.tag == DataType::Function
    }

    /// Whether the pointer is a built-in function.
    fn primitive_function_p(ptr: TypedPointer) -> (r: bool)
        ensures
            r == (ptr.tag == DataType::BuiltInFunction),
    {
        ptr.tag == DataType::BuiltInFunction
    }

    /// Whether the pointer is a compound function object.
    fn compound_function_p(ptr: TypedPointer) -> (r: bool)
        ensures
            r == (ptr.tag == DataType::Function),
    {
        ptr.tag == DataType::Function
    }
}

/// The labels of the evaluator's transition loop.
enum MachineLabel {
    Dispatch,
    GotoCont,
    ArgLoop,
    Apply,
}

/// The stack shape that each label of the transition loop maintains.
spec fn control_ok(label: MachineLabel, vm: &VirtualMachine, base: int, depth: nat) -> bool {
    match label {
        MachineLabel::Dispatch => frames_ok(smodel(vm, base), vm.registers.cont, depth),
        MachineLabel::GotoCont => frames_ok(smodel(vm, base), vm.registers.cont, depth),
        MachineLabel::ArgLoop => {
            let s = smodel(vm, base);
            s.len() >= 2 && frames_ok(s.take(s.len() - 2), s[s.len() - 2], depth)
        },
        MachineLabel::Apply => {
            let s = smodel(vm, base);
            s.len() >= 1 && frames_ok(s.take(s.len() - 1), s[s.len() - 1], depth)
        },
    }
}

/// What evaluation may do to the heap: intern nothing, grow the cons and
/// environment areas without touching existing cells and frames, keep
/// every atom's name, and leave the pool sizes alone.
pub open spec fn heap_extends(pre: &VirtualMachine, post: &VirtualMachine) -> bool {
    &&& post.atoms.last == pre.atoms.last
    &&& post.atoms.area@.len() == pre.atoms.area@.len()
    &&& forall|i: int|
        0 <= i < pre.atoms.area@.len() ==> (#[trigger] post.atoms.area@[i]).name
            == pre.atoms.area@[i].name
    &&& post.lists.last >= pre.lists.last
    &&& post.lists.area@.len() == pre.lists.area@.len()
    &&& forall|i: int| 0 <= i < pre.lists.last ==> #[trigger] post.lists.area@[i] == pre.lists.area@[i]
    &&& post.environments.last >= pre.environments.last
    &&& post.environments.area@.len() == pre.environments.area@.len()
    &&& forall|i: int|
        0 <= i < pre.environments.last ==> #[trigger] post.environments.area@[i]
            == pre.environments.area@[i]
    &&& post.numbers.area@.len() == pre.numbers.area@.len()
    &&& post.stack.area@.len() == pre.stack.area@.len()
    &&& post.atom_index == pre.atom_index
}

impl VirtualMachine {
    /// The value of a variable in the current environment chain, falling
    /// back to the atom's global value.
    pub fn lookup(&self, atom: TypedPointer) -> (r: LispResult<TypedPointer>)
        requires
            self.wf(),
        ensures
            match spec_lookup(self, self.registers.env, atom) {
                Result::Ok(v) => r == Ok::<_, LispError>(v),
                Result::Err(_) => r matches Err(e) && e.kind is Internal,
            },
    {
        if atom.tag != DataType::Atom {
            return Err(LispError::internal("attempted to lookup value of non-atom"));
        }
        let nil = ConstSymbol::nil();
        let mut env = self.registers.env;
        while !(env.tag == nil.tag && env.value == nil.value)
            invariant
                self.wf(),
                nil == ConstSymbol::spec_nil(),
                atom.tag == DataType::Atom,
                spec_chain_lookup(self, self.registers.env, atom) == spec_chain_lookup(
                    self,
                    env,
                    atom,
                ),
            decreases env.value,
        {
            let found = match self.env_lookup(env, atom) {
                Ok(f) => f,
                Err(e) => {
                    return Err(e);
                },
            };
            match found {
                Some(v) => {
                    if v.tag != DataType::Undefined {
                        return Ok(v);
                    }
                    // An undefined binding falls back to the global value.
                    return self.lookup_global(atom);
                },
                None => {
                    let parent = match self.env_parent(env) {
                        Ok(p) => p,
                        Err(e) => {
                            return Err(e);
                        },
                    };
                    proof {
                        assert(self.environments.area@[env.value as int].env_wf(env.value as int));
                    }
                    if parent.tag == nil.tag && parent.value == nil.value {
                        // The chain is exhausted.
                        return self.lookup_global(atom);
                    }
                    env = parent;
                },
            }
        }
        self.lookup_global(atom)
    }

    /// Builds the activation environment of an application: a fresh frame
    /// whose parent is the function's captured environment, binding each
    /// parameter of the lambda list to its positional argument.  `argl`
    /// holds the evaluated arguments in reverse source order.  Differing
    /// lengths are an arity error.
    fn ev_make_bindings(
        &mut self,
        lambda_list: TypedPointer,
        argl: TypedPointer,
        env: TypedPointer,
    ) -> (r: LispResult<TypedPointer>)
        requires
            old(self).wf(),
        ensures
            final(self).wf(),
            final(self).registers == old(self).registers,
            final(self).stack == old(self).stack,
            final(self).atoms == old(self).atoms,
            final(self).numbers == old(self).numbers,
            final(self).lists == old(self).lists,
            final(self).atom_index == old(self).atom_index,
            final(self).environments.last >= old(self).environments.last,
            final(self).environments.area@.len() == old(self).environments.area@.len(),
            forall|i: int|
                0 <= i < old(self).environments.last ==> final(self).environments.area@[i] == old(
                    self,
                ).environments.area@[i],
            r matches Ok(e) ==> ({
                &&& e == (TypedPointer {
                    tag: DataType::Environment,
                    value: old(self).environments.last,
                })
                &&& final(self).environments.last == old(self).environments.last + 1
                &&& final(self).environments.area@[e.value as int].prev == env
                &&& exists|params: Seq<TypedPointer>, args: Seq<TypedPointer>|
                    {
                        &&& is_chain(old(self), lambda_list, params)
                        &&& is_chain(old(self), argl, args)
                        &&& params.len() == args.len()
                        &&& #[trigger] bound_map(params, args) =~= final(self).environments.area@[e.value as int].map_view()
                    }
            }),
    {
        let params = self.list_to_vec(lambda_list)?;
        let args = self.list_to_vec(argl)?;
        if params.len() != args.len() {
            return Err(LispError::arity(<String as vstd::string::StringExecFns>::from_str("fn")));
        }
        let n = params.len();
        let new_env = self.make_environment(env)?;
        let mut i: usize = 0;
        while i < n
            invariant
                self.wf(),
                n == params@.len(),
                n == args@.len(),
                i <= n,
                is_chain(old(self), lambda_list, params@),
                is_chain(old(self), argl, args@),
                new_env.tag == DataType::Environment,
                new_env.value == old(self).environments.last,
                new_env.value < self.environments.last,
                self.registers == old(self).registers,
                self.stack == old(self).stack,
                self.atoms == old(self).atoms,
                self.numbers == old(self).numbers,
                self.lists == old(self).lists,
                self.atom_index == old(self).atom_index,
                self.environments.last == old(self).environments.last + 1,
                self.environments.area@.len() == old(self).environments.area@.len(),
                forall|q: int|
                    0 <= q < self.environments.area@.len() && q != new_env.value ==>
                        self.environments.area@[q] == old(self).environments.area@[q],
                self.environments.area@[new_env.value as int].prev == env,
                self.environments.area@[new_env.value as int].map_view() =~= bound_map_upto(
                    params@,
                    args@,
                    i as int,
                ),
            decreases n - i,
        {
            // Pair the parameters from the end with the arguments from
            // the front: both sequences are reversed relative to source
            // order, so this binds positionally.
            let p = params[n - 1 - i];
            let a = args[i];
            match self.env_bind(new_env, p, a) {
                Ok(_) => {},
                Err(e) => {
                    return Err(e);
                },
            }
            i = i + 1;
        }
        proof {
            assert(bound_map(params@, args@) =~= self.environments.area@[new_env.value as int].map_view());
        }
        Ok(new_env)
    }

    /// The atom's global value, with an undefined value returned as the
    /// undefined pointer.
    fn lookup_global(&self, atom: TypedPointer) -> (r: LispResult<TypedPointer>)
        requires
            self.wf(),
            atom.tag == DataType::Atom,
        ensures
            atom.value < self.atoms.last ==> r == Ok::<_, LispError>(
                self.atoms.area@[atom.value as int].value,
            ),
            atom.value >= self.atoms.last ==> (r matches Err(e) && e.kind is Internal),
    {
        if atom.value >= self.atoms.last {
            return Err(LispError::internal("attempted to lookup value of unallocated atom"));
        }
        Ok(self.atoms.area[atom.value].value)
    }

    /// Evaluates `exp` in the root environment and returns the result.
    ///
    /// Numbers and literals evaluate to themselves; an atom to its
    /// looked-up value; `(setq a e)`, `(quote e)` and `(fn params body)`
    /// to assignment, the quoted object and a function object; any other
    /// cons to an application.  A successful evaluation leaves the stack
    /// cursor exactly where it was, and never touches stack cells below
    /// it, existing cons cells, existing binding frames, or any atom's
    /// name.
    ///
    /// The transition count is bounded so that the loop provably ends;
    /// the bound is far beyond what any machine could execute.
    #[verifier::rlimit(100)]
    pub fn evaluate(&mut self, exp: TypedPointer) -> (r: LispResult<TypedPointer>)
        requires
            old(self).wf(),
        ensures
            final(self).wf(),
            heap_extends(old(self), final(self)),
            final(self).stack.last >= old(self).stack.last,
            final(self).stack.area@.subrange(0, old(self).stack.last as int) == old(
                self,
            ).stack.area@.subrange(0, old(self).stack.last as int),
            r is Ok ==> final(self).stack.last == old(self).stack.last,
            r matches Ok(v) ==> v == final(self).registers.val,
            exp.tag == DataType::Number || exp.tag == DataType::Literal ==> r == Ok::<
                _,
                LispError,
            >(exp),
            exp.tag == DataType::Atom ==> (match spec_lookup(
                old(self),
                ConstSymbol::spec_e0(),
                exp,
            ) {
                Result::Ok(v) => r == Ok::<_, LispError>(v),
                Result::Err(_) => r is Err,
            }),
            cons_valid(old(self), exp) && car_of(old(self), exp) == ConstSymbol::spec_quote()
                ==> (if cons_valid(old(self), cdr_of(old(self), exp)) {
                r == Ok::<_, LispError>(car_of(old(self), cdr_of(old(self), exp)))
            } else {
                r is Err
            }),
            !(exp.tag == DataType::Number || exp.tag == DataType::Literal || exp.tag
                == DataType::Atom || exp.tag == DataType::Cons) ==> (r matches Err(e)
                && e.kind is Internal),
            exp.tag == DataType::Cons && exp.value >= old(self).lists.last ==> (r matches Err(e)
                && e.kind is Internal),
            (exp.tag == DataType::Number || exp.tag == DataType::Literal || exp.tag
                == DataType::Atom) ==> ({
                &&& final(self).lists == old(self).lists
                &&& final(self).numbers == old(self).numbers
                &&& final(self).environments == old(self).environments
                &&& final(self).atoms == old(self).atoms
                &&& final(self).stack == old(self).stack
            }),
            cons_valid(old(self), exp) && car_of(old(self), exp) == ConstSymbol::spec_quote()
                ==> ({
                &&& final(self).lists == old(self).lists
                &&& final(self).numbers == old(self).numbers
                &&& final(self).environments == old(self).environments
                &&& final(self).atoms == old(self).atoms
                &&& final(self).stack == old(self).stack
            }),
            cons_valid(old(self), exp) && car_of(old(self), exp) == ConstSymbol::spec_fn_sym()
                ==> (if old(self).stack.last >= LISP_STACK_SIZE {
                r matches Err(e) && e.kind is StackOverflow
            } else if old(self).lists.last + 2 > LIST_AREA_SIZE {
                r matches Err(e) && e.kind is ListAreaAllocation
            } else {
                &&& r == Ok::<_, LispError>(
                    TypedPointer { tag: DataType::Function, value: (old(self).lists.last + 1) as usize },
                )
                &&& final(self).lists.last == old(self).lists.last + 2
                &&& final(self).lists.area@[old(self).lists.last + 1].car == cdr_of(
                    old(self),
                    exp,
                )
                &&& final(self).lists.area@[old(self).lists.last + 1].cdr == (TypedPointer {
                    tag: DataType::Cons,
                    value: old(self).lists.last,
                })
                &&& final(self).lists.area@[old(self).lists.last as int].car
                    == ConstSymbol::spec_e0()
                &&& final(self).lists.area@[old(self).lists.last as int].cdr
                    == ConstSymbol::spec_nil()
                &&& final(self).numbers == old(self).numbers
                &&& final(self).environments == old(self).environments
                &&& final(self).atoms == old(self).atoms
                &&& final(self).stack.last == old(self).stack.last
            }),
            cons_valid(old(self), exp) && car_of(old(self), exp) == ConstSymbol::spec_do_sym()
                && !(cdr_of(old(self), exp).tag == DataType::Cons && cons_valid(
                old(self),
                cdr_of(old(self), exp),
            ) && cdr_of(old(self), cdr_of(old(self), exp)) == ConstSymbol::spec_nil()) ==> r is Err,
            cons_valid(old(self), exp) && car_of(old(self), exp) != ConstSymbol::spec_setq()
                && car_of(old(self), exp) != ConstSymbol::spec_quote() && car_of(old(self), exp)
                != ConstSymbol::spec_fn_sym() && car_of(old(self), exp)
                != ConstSymbol::spec_do_sym() && bad_operator(old(self), exp) ==> r is Err,
            cons_valid(old(self), exp) && car_of(old(self), exp) == ConstSymbol::spec_setq()
                && !setq_shape(old(self), exp) ==> r is Err,
            builtin_app_head(old(self), exp) ==> (forall|argseq: Seq<TypedPointer>|
                ((#[trigger] is_chain(old(self), cdr_of(old(self), exp), argseq)) && argseq.len()
                    <= LIST_AREA_SIZE && all_simple(argseq, 0)) ==> ({
                    let f = spec_lookup(
                        old(self),
                        ConstSymbol::spec_e0(),
                        car_of(old(self), exp),
                    )->Ok_0;
                    if !all_values_ok(old(self), argseq, 0) {
                        r is Err
                    } else {
                        let vals = arg_values(old(self), argseq);
                        if !values_cons_bounded(old(self), vals) {
                            true
                        } else if old(self).lists.last + argseq.len() > LIST_AREA_SIZE {
                            r is Err
                        } else {
                            builtin_app_result(old(self), final(self), f, vals, r)
                        }
                    }
                })),
            setq_shape(old(self), exp) ==> (if old(self).stack.last + 2 > LISP_STACK_SIZE {
                r is Err
            } else {
                let target = setq_target(old(self), exp);
                let vexpr = setq_value_expr(old(self), exp);
                if simple_expr(vexpr) {
                    match simple_value(old(self), ConstSymbol::spec_e0(), vexpr) {
                        Result::Err(_) => r is Err,
                        Result::Ok(w) => {
                            if target.tag != DataType::Atom || target.value >= old(
                                self,
                            ).atoms.last {
                                r is Err
                            } else if ({
                                let cur = old(self).atoms.area@[target.value as int].value;
                                cur.tag == DataType::Number && w.tag == DataType::Number
                                    && !(w.value < NUMBER_TABLE_SIZE && cur.value
                                    < NUMBER_TABLE_SIZE)
                            }) {
                                r is Err
                            } else {
                                &&& r == Ok::<_, LispError>(w)
                                &&& assign_effect(old(self), final(self), target, w)
                                &&& final(self).stack.last == old(self).stack.last
                                &&& final(self).lists == old(self).lists
                                &&& final(self).environments == old(self).environments
                            }
                        },
                    }
                } else {
                    true
                }
            }),
    {
        self.registers.exp = exp;
        self.registers.env = ConstSymbol::e0();
        self.registers.cont = ConstSymbol::done();
        self.registers.val = TypedPointer::new(DataType::Undefined, 0);
        let ghost base = self.stack.last as int;
        match exp.tag {
            DataType::Number | DataType::Literal => {
                // Self-evaluating: the continuation is already the
                // terminal marker.
                self.registers.val = exp;
                return Ok(exp);
            },
            DataType::Atom => {
                let v = match self.lookup(exp) {
                    Ok(v) => v,
                    Err(e) => {
                        proof {
                            lemma_lookup_same(self, old(self), ConstSymbol::spec_e0(), exp);
                        }
                        return Err(e);
                    },
                };
                proof {
                    lemma_lookup_same(self, old(self), ConstSymbol::spec_e0(), exp);
                }
                self.registers.val = v;
                return Ok(v);
            },
            DataType::Cons => {
                // The forms that finish in one transition (the
                // continuation is already the terminal marker) are
                // settled here; applications and assignments with
                // compound value expressions run in the transition loop.
                let car0 = self.get_car(&exp)?;
                if car0 == ConstSymbol::setq() {
                    self.stack_push(self.registers.cont)?;
                    let target = self.get_cadr(&exp)?;
                    self.stack_push(target)?;
                    let vexpr = self.get_caddr(&exp)?;
                    proof {
                        assert(self.lists == old(self).lists);
                        assert(target == setq_target(old(self), exp));
                        assert(vexpr == setq_value_expr(old(self), exp));
                    }
                    match vexpr.tag {
                        DataType::Number | DataType::Literal | DataType::Atom => {
                            // A simple value settles at once: assign and
                            // return it.
                            let w = if vexpr.tag == DataType::Atom {
                                let looked = match self.lookup(vexpr) {
                                    Ok(v) => v,
                                    Err(e) => {
                                        proof {
                                            lemma_lookup_same(
                                                self,
                                                old(self),
                                                ConstSymbol::spec_e0(),
                                                vexpr,
                                            );
                                        }
                                        return Err(e);
                                    },
                                };
                                proof {
                                    lemma_lookup_same(
                                        self,
                                        old(self),
                                        ConstSymbol::spec_e0(),
                                        vexpr,
                                    );
                                }
                                looked
                            } else {
                                vexpr
                            };
                            self.registers.exp = w;
                            let t2 = self.stack_pop()?;
                            self.registers.val = t2;
                            let ghost mid = *self;
                            self.assign_value(t2, w)?;
                            self.registers.val = w;
                            let c = self.stack_pop()?;
                            self.registers.cont = c;
                            proof {
                                assert(mid.atoms == old(self).atoms);
                                assert(mid.numbers == old(self).numbers);
                                assert(assign_effect(old(self), self, target, w));
                                assert(self.stack.area@.subrange(0, base) =~= old(
                                    self,
                                ).stack.area@.subrange(0, base));
                            }
                            return Ok(w);
                        },
                        _ => {
                            // A compound value expression: hand the
                            // machine the state the assignment prologue
                            // leaves behind.
                            self.registers.exp = vexpr;
                            self.registers.cont = ConstSymbol::eval_assign();
                            proof {
                                let m = smodel(self, base);
                                assert(m =~= Seq::<TypedPointer>::empty().push(
                                    ConstSymbol::spec_done(),
                                ).push(target));
                                assert(m.take(0) =~= Seq::<TypedPointer>::empty());
                                assert(m[m.len() - 2] == ConstSymbol::spec_done());
                                assert(frames_ok(m.take(m.len() - 2), m[m.len() - 2], 0));
                                assert(frames_ok(m, ConstSymbol::spec_eval_assign(), 0));
                                assert(self.stack.area@.subrange(0, base) =~= old(
                                    self,
                                ).stack.area@.subrange(0, base));
                            }
                        },
                    }
                } else if car0 == ConstSymbol::quote() {
                    let v = self.get_cadr(&exp)?;
                    self.registers.val = v;
                    return Ok(v);
                } else if car0 == ConstSymbol::fn_sym() {
                    self.stack_push(self.registers.unev)?;
                    let cons1 = self.make_cons()?;
                    self.set_car(&cons1, self.registers.env)?;
                    self.set_cdr(&cons1, ConstSymbol::nil())?;
                    self.registers.val = cons1;
                    self.registers.unev = self.get_cdr(&exp)?;
                    let cons2 = self.make_cons()?;
                    self.set_car(&cons2, self.registers.unev)?;
                    self.set_cdr(&cons2, self.registers.val)?;
                    self.registers.val = TypedPointer::new(DataType::Function, cons2.value);
                    self.registers.unev = self.stack_pop()?;
                    proof {
                        assert(self.stack.area@.subrange(0, base) =~= old(
                            self,
                        ).stack.area@.subrange(0, base));
                    }
                    return Ok(self.registers.val);
                } else if car0 == ConstSymbol::do_sym() {
                    let rest = self.get_cdr(&exp)?;
                    if rest.tag == DataType::Cons {
                        let rest_cdr = self.get_cdr(&rest)?;
                        let nil = ConstSymbol::nil();
                        if !(rest_cdr.tag == nil.tag && rest_cdr.value == nil.value) {
                            return Err(LispError::internal(
                                "unimplemented evaluation for special form DO",
                            ));
                        }
                        // A one-form body runs in tail position in the
                        // transition loop.
                        proof {
                            assert(smodel(self, base) =~= Seq::<TypedPointer>::empty());
                        }
                    } else {
                        return Err(LispError::internal(
                            "unimplemented evaluation for special form DO",
                        ));
                    }
                } else if car0.tag == DataType::Atom {
                    // An application only when the operator names a
                    // function.
                    let fv = self.lookup(car0)?;
                    proof {
                        lemma_lookup_same(self, old(self), ConstSymbol::spec_e0(), car0);
                    }
                    if !EvalHelper::functionp(fv) {
                        return Err(LispError::internal("expression error"));
                    }
                    if EvalHelper::primitive_function_p(fv) && !(fv == ConstSymbol::bin_eval()) {
                        // A built-in applied to simple arguments settles
                        // here, exactly as the argument loop would settle
                        // it; anything else runs in the transition loop.
                        let cdr0 = self.get_cdr(&exp)?;
                        let ghost pre = *self;
                        match self.list_to_vec(cdr0) {
                            Err(_) => {
                                proof {
                                    assert forall|argseq: Seq<TypedPointer>| ((#[trigger] is_chain(
                                        old(self),
                                        cdr_of(old(self), exp),
                                        argseq,
                                    )) && argseq.len() <= LIST_AREA_SIZE && all_simple(argseq, 0))
                                        implies (all_values_ok(old(self), argseq, 0)
                                        && !values_cons_bounded(
                                        old(self),
                                        arg_values(old(self), argseq),
                                    )) by {
                                        lemma_chain_same(old(self), &pre, cdr0, argseq);
                                        assert(is_chain(&pre, cdr0, argseq));
                                        assert(false);
                                    }
                                }
                            },
                            Ok(args_exprs) => {
                                let n = args_exprs.len();
                                let mut all_ok = true;
                                let mut i: usize = 0;
                                #[verifier::loop_isolation(false)]
                                while i < n
                                    invariant
                                        n == args_exprs@.len(),
                                        i <= n,
                                        all_ok ==> forall|k: int|
                                            0 <= k < i ==> simple_expr(args_exprs@[k]),
                                        !all_ok ==> exists|k: int|
                                            0 <= k < n && !simple_expr(#[trigger] args_exprs@[k]),
                                    decreases n - i,
                                {
                                    let t = args_exprs[i].tag;
                                    if !(t == DataType::Number || t == DataType::Literal || t
                                        == DataType::Atom) {
                                        all_ok = false;
                                    }
                                    i = i + 1;
                                }
                                if all_ok {
                                    let mut vals: Vec<TypedPointer> = Vec::new();
                                    let mut i: usize = 0;
                                    #[verifier::loop_isolation(false)]
                                    while i < n
                                        invariant
                                            i <= n,
                                            vals@.len() == i,
                                            forall|k: int|
                                                0 <= k < i ==> simple_value(
                                                    old(self),
                                                    ConstSymbol::spec_e0(),
                                                    #[trigger] args_exprs@[k],
                                                ) is Ok && vals@[k] == simple_value(
                                                    old(self),
                                                    ConstSymbol::spec_e0(),
                                                    args_exprs@[k],
                                                )->Ok_0,
                                            self.registers.env == ConstSymbol::spec_e0(),
                                        decreases n - i,
                                    {
                                        let a = args_exprs[i];
                                        if a.tag == DataType::Atom {
                                            match self.lookup(a) {
                                                Ok(w) => {
                                                    proof {
                                                        lemma_lookup_same(
                                                            self,
                                                            old(self),
                                                            ConstSymbol::spec_e0(),
                                                            a,
                                                        );
                                                        assert(simple_value(
                                                            old(self),
                                                            ConstSymbol::spec_e0(),
                                                            a,
                                                        ) == Result::<TypedPointer, ()>::Ok(w));
                                                    }
                                                    vals.push(w);
                                                },
                                                Err(e) => {
                                                    proof {
                                                        lemma_lookup_same(
                                                            self,
                                                            old(self),
                                                            ConstSymbol::spec_e0(),
                                                            a,
                                                        );
                                                        assert forall|argseq: Seq<TypedPointer>| ((
                                                        #[trigger] is_chain(
                                                            old(self),
                                                            cdr_of(old(self), exp),
                                                            argseq,
                                                        )) && argseq.len() <= LIST_AREA_SIZE
                                                            && all_simple(argseq, 0)) implies !all_values_ok(
                                                            old(self),
                                                            argseq,
                                                            0,
                                                        ) by {
                                                            lemma_chain_same(
                                                                old(self),
                                                                &pre,
                                                                cdr0,
                                                                argseq,
                                                            );
                                                            assert(argseq == args_exprs@);
                                                            lemma_all_values_iff(
                                                                old(self),
                                                                argseq,
                                                                0,
                                                            );
                                                        }
                                                    }
                                                    return Err(e);
                                                },
                                            }
                                        } else {
                                            proof {
                                                assert(simple_expr(args_exprs@[i as int]));
                                                assert(simple_value(
                                                    old(self),
                                                    ConstSymbol::spec_e0(),
                                                    a,
                                                ) == Result::<TypedPointer, ()>::Ok(a));
                                            }
                                            vals.push(a);
                                        }
                                        i = i + 1;
                                    }
                                    proof {
                                        assert(vals@ =~= arg_values(old(self), args_exprs@));
                                        lemma_all_simple_iff(args_exprs@, 0);
                                        lemma_all_values_iff(old(self), args_exprs@, 0);
                                        assert(all_values_ok(old(self), args_exprs@, 0));
                                    }
                                    let mut bounded = true;
                                    let mut i: usize = 0;
                                    #[verifier::loop_isolation(false)]
                                    while i < n
                                        invariant
                                            i <= n,
                                            bounded ==> forall|k: int|
                                                0 <= k < i ==> ((#[trigger] vals@[k]).tag
                                                    == DataType::Cons ==> vals@[k].value
                                                    < self.lists.last),
                                            !bounded ==> !values_cons_bounded(
                                                old(self),
                                                vals@,
                                            ),
                                        decreases n - i,
                                    {
                                        let v = vals[i];
                                        if v.tag == DataType::Cons && v.value >= self.lists.last {
                                            bounded = false;
                                        }
                                        i = i + 1;
                                    }
                                    if !bounded {
                                        proof {
                                            assert forall|argseq: Seq<TypedPointer>| ((
                                            #[trigger] is_chain(
                                                old(self),
                                                cdr_of(old(self), exp),
                                                argseq,
                                            )) && argseq.len() <= LIST_AREA_SIZE && all_simple(
                                                argseq,
                                                0,
                                            )) implies (all_values_ok(old(self), argseq, 0)
                                                && !values_cons_bounded(
                                                old(self),
                                                arg_values(old(self), argseq),
                                            )) by {
                                                lemma_chain_same(old(self), &pre, cdr0, argseq);
                                                assert(argseq == args_exprs@);
                                                lemma_all_values_iff(old(self), argseq, 0);
                                                assert(all_values_ok(old(self), argseq, 0));
                                                assert(arg_values(old(self), argseq) =~= vals@);
                                                assert(!values_cons_bounded(old(self), vals@));
                                            }
                                        }
                                    }
                                    if bounded {
                                        proof {
                                            assert(values_cons_bounded(old(self), vals@));
                                        }
                                        // Accumulate the argument chain in
                                        // arrival order, as the argument
                                        // loop would.
                                        let mut argl = ConstSymbol::nil();
                                        let mut j: usize = 0;
                                        #[verifier::loop_isolation(false)]
                                        while j < n
                                            invariant
                                                self.wf(),
                                                j <= n,
                                                self.stack == old(self).stack,
                                                self.atoms == old(self).atoms,
                                                self.numbers == old(self).numbers,
                                                self.environments == old(self).environments,
                                                self.atom_index == old(self).atom_index,
                                                self.lists.last == old(self).lists.last + j,
                                                self.lists.area@.len() == old(self).lists.area@.len(),
                                                forall|k: int|
                                                    0 <= k < old(self).lists.last
                                                        ==> self.lists.area@[k] == old(self).lists.area@[k],
                                            decreases n - j,
                                        {
                                            let cell = match self.make_cons() {
                                                Ok(c) => c,
                                                Err(e) => {
                                                    proof {
                                                        assert(old(self).lists.last + n
                                                            > LIST_AREA_SIZE);
                                                        assert forall|argseq: Seq<TypedPointer>| ((
                                                        #[trigger] is_chain(
                                                            old(self),
                                                            cdr_of(old(self), exp),
                                                            argseq,
                                                        )) && argseq.len() <= LIST_AREA_SIZE
                                                            && all_simple(argseq, 0)) implies argseq
                                                            == args_exprs@ by {
                                                            lemma_chain_same(
                                                                old(self),
                                                                &pre,
                                                                cdr0,
                                                                argseq,
                                                            );
                                                        }
                                                    }
                                                    return Err(e);
                                                },
                                            };
                                            self.set_car(&cell, vals[j])?;
                                            self.set_cdr(&cell, argl)?;
                                            argl = cell;
                                            j = j + 1;
                                        }
                                        let mut rev: Vec<TypedPointer> = Vec::new();
                                        let mut j: usize = 0;
                                        #[verifier::loop_isolation(false)]
                                        while j < n
                                            invariant
                                                j <= n,
                                                rev@.len() == j,
                                                forall|k: int|
                                                    0 <= k < j ==> rev@[k] == vals@[n - 1 - k],
                                            decreases n - j,
                                        {
                                            rev.push(vals[n - 1 - j]);
                                            j = j + 1;
                                        }
                                        proof {
                                            assert(rev@.reverse() =~= vals@);
                                        }
                                        let ghost mid = *self;
                                        proof {
                                            assert(vals@.len() == n);
                                            assert(spec_lookup(
                                                old(self),
                                                ConstSymbol::spec_e0(),
                                                car_of(old(self), exp),
                                            ) == Result::<TypedPointer, ()>::Ok(fv));
                                            assert(mid.lists.last == old(self).lists.last + n);
                                            assert(mid.numbers == old(self).numbers);
                                            assert forall|q: int|
                                                0 <= q < old(self).lists.last implies #[trigger] mid.lists.area@[q]
                                                == old(self).lists.area@[q] by {}
                                            if n >= 1 {
                                                assert(rev@[0] == vals@[n - 1]);
                                                assert(rev@[n - 1] == vals@[0]);
                                            }
                                            if n == 2 {
                                                assert(rev@[1] == vals@[0]);
                                                assert(rev@[0] == vals@[1]);
                                            }
                                        }
                                        let res = self.dispatch_prim_eval(fv, rev.as_slice());
                                        let ghost post_dispatch = *self;
                                        proof {
                                            if fv == ConstSymbol::spec_bin_eq() && rev@.len() == 2 {
                                                assert(crate::vm::primitive_eval::spec_eq_result(
                                                    &mid,
                                                    rev@[1],
                                                    rev@[0],
                                                ) == crate::vm::primitive_eval::spec_eq_result(
                                                    old(self),
                                                    vals@[0],
                                                    vals@[1],
                                                ));
                                            }
                                        }
                                        match res {
                                            Ok(v) => {
                                                self.registers.val = v;
                                                self.registers.fun = fv;
                                                self.registers.argl = argl;
                                                proof {
                                                    assert forall|argseq: Seq<TypedPointer>| ((
                                                    #[trigger] is_chain(
                                                        old(self),
                                                        cdr_of(old(self), exp),
                                                        argseq,
                                                    )) && argseq.len() <= LIST_AREA_SIZE
                                                        && all_simple(argseq, 0)) implies argseq
                                                        == args_exprs@ by {
                                                        lemma_chain_same(
                                                            old(self),
                                                            &pre,
                                                            cdr0,
                                                            argseq,
                                                        );
                                                    }
                                                    assert(car0 == car_of(old(self), exp));
                                                    assert(arg_values(old(self), args_exprs@)
                                                        == vals@);
                                                    if fv == ConstSymbol::spec_bin_car() {
                                                        if n != 1 {
                                                            assert(false);
                                                        }
                                                        if vals@[0] != ConstSymbol::spec_nil()
                                                            && vals@[0].tag == DataType::Cons {
                                                            assert(vals@[0].value < old(
                                                                self,
                                                            ).lists.last);
                                                            assert(mid.lists.area@[vals@[0].value as int]
                                                                == old(
                                                                self,
                                                            ).lists.area@[vals@[0].value as int]);
                                                            assert(v == car_of(
                                                                old(self),
                                                                vals@[0],
                                                            ));
                                                        }
                                                    } else if fv == ConstSymbol::spec_bin_cdr() {
                                                        if n != 1 {
                                                            assert(false);
                                                        }
                                                        if vals@[0] != ConstSymbol::spec_nil()
                                                            && vals@[0].tag == DataType::Cons {
                                                            assert(vals@[0].value < old(
                                                                self,
                                                            ).lists.last);
                                                            assert(mid.lists.area@[vals@[0].value as int]
                                                                == old(
                                                                self,
                                                            ).lists.area@[vals@[0].value as int]);
                                                            assert(v == cdr_of(
                                                                old(self),
                                                                vals@[0],
                                                            ));
                                                        }
                                                    } else if fv == ConstSymbol::spec_bin_eq() {
                                                        if n != 2 {
                                                            assert(false);
                                                        }
                                                    } else if fv == ConstSymbol::spec_bin_cons() {
                                                        if n != 2 {
                                                            assert(false);
                                                        }
                                                        assert(mid.lists.last < LIST_AREA_SIZE);
                                                        assert(v == (TypedPointer {
                                                            tag: DataType::Cons,
                                                            value: (old(self).lists.last
                                                                + n) as usize,
                                                        }));
                                                    } else if fv == ConstSymbol::spec_bin_list() {
                                                        assert(self.lists.last == mid.lists.last
                                                            + n);
                                                        assert(old(self).lists.last + 2 * n
                                                            <= LIST_AREA_SIZE);
                                                        assert(is_chain(
                                                            &post_dispatch,
                                                            v,
                                                            rev@.reverse(),
                                                        ));
                                                        lemma_chain_same(
                                                            &post_dispatch,
                                                            self,
                                                            v,
                                                            rev@.reverse(),
                                                        );
                                                        assert(is_chain(self, v, rev@.reverse()));
                                                        assert(rev@.reverse() == vals@);
                                                        assert(is_chain(self, v, vals@));
                                                    }
                                                }
                                                return Ok(v);
                                            },
                                            Err(e) => {
                                                proof {
                                                    assert forall|argseq: Seq<TypedPointer>| ((
                                                    #[trigger] is_chain(
                                                        old(self),
                                                        cdr_of(old(self), exp),
                                                        argseq,
                                                    )) && argseq.len() <= LIST_AREA_SIZE
                                                        && all_simple(argseq, 0)) implies argseq
                                                        == args_exprs@ by {
                                                        lemma_chain_same(
                                                            old(self),
                                                            &pre,
                                                            cdr0,
                                                            argseq,
                                                        );
                                                    }
                                                }
                                                return Err(e);
                                            },
                                        }
                                    }
                                } else {
                                    proof {
                                        assert forall|argseq: Seq<TypedPointer>| ((
                                        #[trigger] is_chain(
                                            old(self),
                                            cdr_of(old(self), exp),
                                            argseq,
                                        )) && argseq.len() <= LIST_AREA_SIZE && all_simple(
                                            argseq,
                                            0,
                                        )) implies (all_values_ok(old(self), argseq, 0)
                                            && !values_cons_bounded(
                                            old(self),
                                            arg_values(old(self), argseq),
                                        )) by {
                                            lemma_chain_same(old(self), &pre, cdr0, argseq);
                                            assert(argseq == args_exprs@);
                                            lemma_all_simple_iff(argseq, 0);
                                            assert(false);
                                        }
                                    }
                                }
                            },
                        }
                    }
                    proof {
                        assert(smodel(self, base) =~= Seq::<TypedPointer>::empty());
                    }
                } else {
                    let is_app: bool = match car0.tag {
                        DataType::Cons | DataType::Function | DataType::BuiltInFunction => true,
                        _ => false,
                    };
                    if !is_app {
                        return Err(LispError::internal("expression error"));
                    }
                    proof {
                        assert(smodel(self, base) =~= Seq::<TypedPointer>::empty());
                    }
                }
            },
            _ => {
                return Err(LispError::internal("expression error"));
            },
        }
        let mut label = MachineLabel::Dispatch;
        let mut depth: usize = 0;
        let mut budget: u64 = 0xFFFF_FFFF_FFFF_FFFF;
        loop
            invariant
                self.wf(),
                heap_extends(old(self), self),
                base == old(self).stack.last as int,
                base <= self.stack.last as int,
                self.stack.area@.subrange(0, base) == old(self).stack.area@.subrange(0, base),
                exp.tag == DataType::Cons,
                cons_valid(old(self), exp),
                car_of(old(self), exp) != ConstSymbol::spec_quote(),
                car_of(old(self), exp) != ConstSymbol::spec_fn_sym(),
                car_of(old(self), exp) == ConstSymbol::spec_do_sym() ==> (cdr_of(
                    old(self),
                    exp,
                ).tag == DataType::Cons && cons_valid(old(self), cdr_of(old(self), exp)) && cdr_of(
                    old(self),
                    cdr_of(old(self), exp),
                ) == ConstSymbol::spec_nil()),
                car_of(old(self), exp) == ConstSymbol::spec_setq() ==> (setq_shape(old(self), exp)
                    && old(self).stack.last + 2 <= LISP_STACK_SIZE && !simple_expr(
                    setq_value_expr(old(self), exp),
                )),
                car_of(old(self), exp) != ConstSymbol::spec_setq() && car_of(old(self), exp)
                    != ConstSymbol::spec_do_sym() ==> !bad_operator(old(self), exp),
                builtin_app_head(old(self), exp) ==> (forall|argseq: Seq<TypedPointer>|
                    ((#[trigger] is_chain(old(self), cdr_of(old(self), exp), argseq))
                        && argseq.len() <= LIST_AREA_SIZE && all_simple(argseq, 0)) ==> (
                    all_values_ok(old(self), argseq, 0) && !values_cons_bounded(
                        old(self),
                        arg_values(old(self), argseq),
                    ))),
                control_ok(label, self, base, depth as nat),
            decreases budget,
        {
            if budget == 0 {
                return Err(LispError::internal("evaluation step limit exceeded"));
            }
            budget = budget - 1;
            match label {
                MachineLabel::Dispatch => {
                    let ghost m0 = smodel(self, base);
                    let exp_c = self.registers.exp;
                    match exp_c.tag {
                        DataType::Number | DataType::Literal => {
                            self.registers.val = exp_c;
                            label = MachineLabel::GotoCont;
                        },
                        DataType::Atom => {
                            let v = self.lookup(exp_c)?;
                            self.registers.val = v;
                            label = MachineLabel::GotoCont;
                        },
                        DataType::Cons => {
                            let car = self.get_car(&exp_c)?;
                            let setq = ConstSymbol::setq();
                            let quote = ConstSymbol::quote();
                            let fn_sym = ConstSymbol::fn_sym();
                            let do_sym = ConstSymbol::do_sym();
                            if car == setq {
                                self.stack_push(self.registers.cont)?;
                                let target = self.get_cadr(&exp_c)?;
                                self.stack_push(target)?;
                                self.registers.exp = self.get_caddr(&exp_c)?;
                                self.registers.cont = ConstSymbol::eval_assign();
                                proof {
                                    let m2 = smodel(self, base);
                                    assert(m2 =~= m0.push(self.stack.area@[base + m0.len()]).push(
                                        self.stack.area@[base + m0.len() + 1],
                                    ));
                                    assert(m2.take(m2.len() - 2) =~= m0);
                                    assert(self.stack.area@.subrange(0, base) =~= old(
                                        self,
                                    ).stack.area@.subrange(0, base));
                                }
                                label = MachineLabel::Dispatch;
                            } else if car == quote {
                                self.registers.val = self.get_cadr(&exp_c)?;
                                label = MachineLabel::GotoCont;
                            } else if car == fn_sym {
                                self.stack_push(self.registers.unev)?;
                                let ghost m1 = smodel(self, base);
                                let cons1 = self.make_cons()?;
                                self.set_car(&cons1, self.registers.env)?;
                                self.set_cdr(&cons1, ConstSymbol::nil())?;
                                self.registers.val = cons1;
                                self.registers.unev = self.get_cdr(&exp_c)?;
                                let cons2 = self.make_cons()?;
                                self.set_car(&cons2, self.registers.unev)?;
                                self.set_cdr(&cons2, self.registers.val)?;
                                self.registers.val = TypedPointer::new(
                                    DataType::Function,
                                    cons2.value,
                                );
                                self.registers.unev = self.stack_pop()?;
                                proof {
                                    assert(smodel(self, base) =~= m0);
                                    assert(self.stack.area@.subrange(0, base) =~= old(
                                        self,
                                    ).stack.area@.subrange(0, base));
                                }
                                label = MachineLabel::GotoCont;
                            } else if car == do_sym {
                                let rest = self.get_cdr(&exp_c)?;
                                if rest.tag == DataType::Cons {
                                    let rest_cdr = self.get_cdr(&rest)?;
                                    let nil = ConstSymbol::nil();
                                    if rest_cdr.tag == nil.tag && rest_cdr.value == nil.value {
                                        // A single-form body runs in tail
                                        // position under the same
                                        // continuation.
                                        self.registers.exp = self.get_car(&rest)?;
                                        label = MachineLabel::Dispatch;
                                    } else {
                                        return Err(LispError::internal(
                                            "unimplemented evaluation for special form DO",
                                        ));
                                    }
                                } else {
                                    return Err(LispError::internal(
                                        "unimplemented evaluation for special form DO",
                                    ));
                                }
                            } else {
                                // Application: the operator position may
                                // be an atom naming a function or a
                                // sub-expression producing one.
                                let is_app: bool = match car.tag {
                                    DataType::Atom => {
                                        let v = self.lookup(car)?;
                                        EvalHelper::functionp(v)
                                    },
                                    DataType::Cons | DataType::Function
                                        | DataType::BuiltInFunction => true,
                                    _ => false,
                                };
                                if !is_app {
                                    return Err(LispError::internal("expression error"));
                                }
                                self.registers.unev = self.get_cdr(&exp_c)?;
                                self.registers.exp = car;
                                self.stack_push(self.registers.cont)?;
                                self.stack_push(self.registers.env)?;
                                self.stack_push(self.registers.unev)?;
                                self.registers.cont = ConstSymbol::eval_args();
                                proof {
                                    let m3 = smodel(self, base);
                                    assert(m3.len() == m0.len() + 3);
                                    assert(m3.take(m3.len() - 3) =~= m0);
                                    assert(m3[m3.len() - 3] == m0.push(
                                        self.stack.area@[base + m0.len()],
                                    )[m0.len() as int]);
                                    assert(self.stack.area@.subrange(0, base) =~= old(
                                        self,
                                    ).stack.area@.subrange(0, base));
                                }
                                label = MachineLabel::Dispatch;
                            }
                        },
                        _ => {
                            return Err(LispError::internal("expression error"));
                        },
                    }
                },
                MachineLabel::GotoCont => {
                    let ghost m0 = smodel(self, base);
                    let k = self.registers.cont;
                    if k == ConstSymbol::done() {
                        if depth == 0 {
                            proof {
                                assert(m0.len() == 0);
                            }
                            return Ok(self.registers.val);
                        }
                        // A pending nested `eval` finishes: restore the
                        // saved registers and resume its caller.
                        self.registers.unev = self.stack_pop()?;
                        self.registers.fun = self.stack_pop()?;
                        self.registers.exp = self.stack_pop()?;
                        self.registers.env = self.stack_pop()?;
                        self.registers.cont = self.stack_pop()?;
                        self.registers.argl = self.stack_pop()?;
                        self.registers.cont = self.stack_pop()?;
                        depth = depth - 1;
                        proof {
                            assert(smodel(self, base) =~= m0.take(m0.len() - 7));
                            assert(self.registers.cont == m0[m0.len() - 7]);
                        }
                        label = MachineLabel::GotoCont;
                    } else if k == ConstSymbol::eval_args() {
                        self.registers.unev = self.stack_pop()?;
                        self.registers.env = self.stack_pop()?;
                        self.registers.fun = self.registers.val;
                        self.stack_push(self.registers.fun)?;
                        self.registers.argl = ConstSymbol::nil();
                        proof {
                            let m2 = smodel(self, base);
                            assert(m2.len() == m0.len() - 1);
                            assert(m2.take(m2.len() - 2) =~= m0.take(m0.len() - 3));
                            assert(m2[m2.len() - 2] == m0[m0.len() - 3]);
                        }
                        label = MachineLabel::ArgLoop;
                    } else if k == ConstSymbol::accumulate_arg() {
                        self.registers.unev = self.stack_pop()?;
                        self.registers.env = self.stack_pop()?;
                        self.registers.argl = self.stack_pop()?;
                        let new_argl = self.make_cons()?;
                        self.set_car(&new_argl, self.registers.val)?;
                        self.set_cdr(&new_argl, self.registers.argl)?;
                        self.registers.argl = new_argl;
                        self.registers.unev = self.get_cdr(&self.registers.unev)?;
                        proof {
                            let m2 = smodel(self, base);
                            assert(m2 =~= m0.take(m0.len() - 3));
                            assert(m2.take(m2.len() - 2) =~= m0.take(m0.len() - 5));
                            assert(m2[m2.len() - 2] == m0[m0.len() - 5]);
                        }
                        label = MachineLabel::ArgLoop;
                    } else if k == ConstSymbol::accumulate_last_arg() {
                        self.registers.argl = self.stack_pop()?;
                        let new_argl = self.make_cons()?;
                        self.set_car(&new_argl, self.registers.val)?;
                        self.set_cdr(&new_argl, self.registers.argl)?;
                        self.registers.argl = new_argl;
                        self.registers.fun = self.stack_pop()?;
                        proof {
                            let m2 = smodel(self, base);
                            assert(m2 =~= m0.take(m0.len() - 2));
                            assert(m2.take(m2.len() - 1) =~= m0.take(m0.len() - 3));
                            assert(m2[m2.len() - 1] == m0[m0.len() - 3]);
                        }
                        label = MachineLabel::Apply;
                    } else if k == ConstSymbol::eval_assign() {
                        self.registers.exp = self.registers.val;
                        self.registers.val = self.stack_pop()?;
                        self.assign_value(self.registers.val, self.registers.exp)?;
                        self.registers.val = self.registers.exp;
                        self.registers.cont = self.stack_pop()?;
                        proof {
                            assert(smodel(self, base) =~= m0.take(m0.len() - 2));
                            assert(self.registers.cont == m0[m0.len() - 2]);
                        }
                        label = MachineLabel::GotoCont;
                    } else {
                        return Err(LispError::internal("expression error"));
                    }
                },
                MachineLabel::ArgLoop => {
                    let ghost m0 = smodel(self, base);
                    self.stack_push(self.registers.argl)?;
                    let ghost m1 = smodel(self, base);
                    proof {
                        assert(m1 =~= m0.push(self.registers.argl));
                        assert(self.stack.area@.subrange(0, base) =~= old(
                            self,
                        ).stack.area@.subrange(0, base));
                    }
                    let nil = ConstSymbol::nil();
                    let unev = self.registers.unev;
                    if unev.tag == nil.tag && unev.value == nil.value {
                        self.registers.argl = self.stack_pop()?;
                        self.registers.fun = self.stack_pop()?;
                        proof {
                            let m2 = smodel(self, base);
                            assert(m2 =~= m0.take(m0.len() - 1));
                            assert(m2.take(m2.len() - 1) =~= m0.take(m0.len() - 2));
                            assert(m2[m2.len() - 1] == m0[m0.len() - 2]);
                        }
                        label = MachineLabel::Apply;
                    } else {
                        self.registers.exp = self.get_car(&unev)?;
                        let cdr_unev = self.get_cdr(&unev)?;
                        if cdr_unev.tag == nil.tag && cdr_unev.value == nil.value {
                            // The last operand.
                            self.registers.cont = ConstSymbol::accumulate_last_arg();
                            proof {
                                assert(m1.take(m1.len() - 3) =~= m0.take(m0.len() - 2));
                                assert(m1[m1.len() - 3] == m0[m0.len() - 2]);
                            }
                            label = MachineLabel::Dispatch;
                        } else {
                            self.stack_push(self.registers.env)?;
                            self.stack_push(self.registers.unev)?;
                            self.registers.cont = ConstSymbol::accumulate_arg();
                            proof {
                                let m3 = smodel(self, base);
                                assert(m3 =~= m1.push(self.stack.area@[base + m1.len()]).push(
                                    self.stack.area@[base + m1.len() + 1],
                                ));
                                assert(m3.take(m3.len() - 5) =~= m0.take(m0.len() - 2));
                                assert(m3[m3.len() - 5] == m0[m0.len() - 2]);
                                assert(self.stack.area@.subrange(0, base) =~= old(
                                    self,
                                ).stack.area@.subrange(0, base));
                            }
                            label = MachineLabel::Dispatch;
                        }
                    }
                },
                MachineLabel::Apply => {
                    let ghost m0 = smodel(self, base);
                    let fun = self.registers.fun;
                    if EvalHelper::primitive_function_p(fun) {
                        let args = self.list_to_vec(self.registers.argl)?;
                        let bin_eval = ConstSymbol::bin_eval();
                        if fun.tag == bin_eval.tag && fun.value == bin_eval.value {
                            if args.len() != 1 {
                                return Err(LispError::arity(
                                    <String as vstd::string::StringExecFns>::from_str("eval"),
                                ));
                            }
                            // Save the registers and run the nested
                            // evaluation on this same machine.
                            self.stack_push(self.registers.argl)?;
                            self.stack_push(self.registers.cont)?;
                            self.stack_push(self.registers.env)?;
                            self.stack_push(self.registers.exp)?;
                            self.stack_push(self.registers.fun)?;
                            self.stack_push(self.registers.unev)?;
                            proof {
                                lemma_frames_depth(
                                    m0.take(m0.len() - 1),
                                    m0[m0.len() - 1],
                                    depth as nat,
                                );
                                let m6 = smodel(self, base);
                                assert(m6.len() == m0.len() + 6);
                                assert(m6.take(m6.len() - 7) =~= m0.take(m0.len() - 1));
                                assert(m6[m6.len() - 7] == m0[m0.len() - 1]);
                                assert(self.stack.area@.subrange(0, base) =~= old(
                                    self,
                                ).stack.area@.subrange(0, base));
                            }
                            depth = depth + 1;
                            self.registers.exp = args[0];
                            self.registers.env = ConstSymbol::e0();
                            self.registers.cont = ConstSymbol::done();
                            self.registers.val = TypedPointer::new(DataType::Undefined, 0);
                            label = MachineLabel::Dispatch;
                        } else {
                            let v = self.dispatch_prim_eval(fun, args.as_slice())?;
                            self.registers.val = v;
                            self.registers.cont = self.stack_pop()?;
                            proof {
                                assert(smodel(self, base) =~= m0.take(m0.len() - 1));
                                assert(self.registers.cont == m0[m0.len() - 1]);
                            }
                            label = MachineLabel::GotoCont;
                        }
                    } else if EvalHelper::compound_function_p(fun) {
                        // The function object is a cons reinterpreted:
                        // ((lambda-list . body) . (env . nil)).
                        let fun_cons = TypedPointer::new(DataType::Cons, fun.value);
                        let env_of_fn = self.get_cadr(&fun_cons)?;
                        let ll_body = self.get_car(&fun_cons)?;
                        let lambda_list = self.get_car(&ll_body)?;
                        let body = self.get_cdr(&ll_body)?;
                        let do_cons = self.make_cons()?;
                        self.set_car(&do_cons, ConstSymbol::do_sym())?;
                        self.set_cdr(&do_cons, body)?;
                        self.registers.exp = do_cons;
                        let new_env = self.ev_make_bindings(
                            lambda_list,
                            self.registers.argl,
                            env_of_fn,
                        )?;
                        self.registers.env = new_env;
                        self.registers.cont = self.stack_pop()?;
                        proof {
                            assert(smodel(self, base) =~= m0.take(m0.len() - 1));
                            assert(self.registers.cont == m0[m0.len() - 1]);
                        }
                        label = MachineLabel::Dispatch;
                    } else {
                        return Err(LispError::internal("unknown function type"));
                    }
                },
            }
        }
    }
}

} // verus!
