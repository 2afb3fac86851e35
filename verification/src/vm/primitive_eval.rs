//! The built-in functions: `cons`, `list`, `car`, `cdr` and `eq`, applied
//! to a buffer of already-evaluated arguments.  The buffer holds the
//! arguments in reverse source order, so the first positional argument
//! sits at its end; the `eval` built-in is driven by the evaluator itself
//! and never reaches this dispatcher.

use crate::vm::constants::ConstSymbol;
use crate::vm::error::{LispError, LispErrorKind, LispResult};
use crate::vm::lists::{car_of, cdr_of, cons_valid, is_chain};
use crate::vm::types::{num_eq, DataType, TypedPointer, VirtualMachine, LIST_AREA_SIZE};
use vstd::prelude::*;

verus! {

/// What `eq` answers on two pointers: pointer identity for most tags,
/// value comparison for numbers, an error for environments and undefined
/// values.
pub open spec fn spec_eq_result(vm: &VirtualMachine, a: TypedPointer, b: TypedPointer) -> Result<
    TypedPointer,
    (),
> {
    if a.tag != b.tag {
        Result::Ok(ConstSymbol::spec_nil())
    } else {
        match a.tag {
            DataType::Atom | DataType::Cons | DataType::BuiltInFunction | DataType::BuiltInLiteral
                | DataType::Function | DataType::Literal => Result::Ok(
                if a.value == b.value {
                    ConstSymbol::spec_t()
                } else {
                    ConstSymbol::spec_nil()
                },
            ),
            DataType::Number => {
                if a.value < vm.numbers.area@.len() && b.value < vm.numbers.area@.len() {
                    Result::Ok(
                        if vm.numbers.area@[a.value as int].same_value(
                            vm.numbers.area@[b.value as int],
                        ) {
                            ConstSymbol::spec_t()
                        } else {
                            ConstSymbol::spec_nil()
                        },
                    )
                } else {
                    Result::Err(())
                }
            },
            _ => Result::Err(()),
        }
    }
}

fn builtin_cons(vm: &mut VirtualMachine, argl: &[TypedPointer]) -> (r: LispResult<TypedPointer>)
    requires
        old(vm).wf(),
    ensures
        final(vm).wf(),
        final(vm).registers == old(vm).registers,
        final(vm).stack == old(vm).stack,
        final(vm).atoms == old(vm).atoms,
        final(vm).numbers == old(vm).numbers,
        final(vm).environments == old(vm).environments,
        final(vm).atom_index == old(vm).atom_index,
        final(vm).lists.last >= old(vm).lists.last,
        final(vm).lists.area@.len() == old(vm).lists.area@.len(),
        forall|i: int|
            0 <= i < old(vm).lists.last ==> final(vm).lists.area@[i] == old(vm).lists.area@[i],
        if argl@.len() != 2 {
            &&& r matches Err(e) && e.kind matches LispErrorKind::Arity(n) && n@ == "cons"@
            &&& final(vm).lists == old(vm).lists
        } else if old(vm).lists.last < LIST_AREA_SIZE {
            &&& r == Ok::<_, LispError>(
                TypedPointer { tag: DataType::Cons, value: old(vm).lists.last },
            )
            &&& final(vm).lists.last == old(vm).lists.last + 1
            &&& final(vm).lists.area@[old(vm).lists.last as int].car == argl@[1]
            &&& final(vm).lists.area@[old(vm).lists.last as int].cdr == argl@[0]
        } else {
            r matches Err(e) && e.kind is ListAreaAllocation
        },
{
    if argl.len() != 2 {
        return Err(LispError::arity(<String as vstd::string::StringExecFns>::from_str("cons")));
    }
    // The buffer is in reverse source order: the first positional
    // argument is the last element.
    let car = argl[1];
    let cdr = argl[0];
    let cons = vm.make_cons()?;
    vm.set_car(&cons, car)?;
    vm.set_cdr(&cons, cdr)?;
    Ok(cons)
}

fn builtin_car(vm: &VirtualMachine, argl: &[TypedPointer]) -> (r: LispResult<TypedPointer>)
    requires
        vm.wf(),
    ensures
        if argl@.len() != 1 {
            r matches Err(e) && e.kind matches LispErrorKind::Arity(n) && n@ == "car"@
        } else if argl@[0] == ConstSymbol::spec_nil() {
            r == Ok::<_, LispError>(ConstSymbol::spec_nil())
        } else if cons_valid(vm, argl@[0]) {
            r == Ok::<_, LispError>(car_of(vm, argl@[0]))
        } else {
            r matches Err(e) && e.kind is Internal
        },
{
    if argl.len() != 1 {
        return Err(LispError::arity(<String as vstd::string::StringExecFns>::from_str("car")));
    }
    let value = argl[0];
    let nil = ConstSymbol::nil();
    if value.tag == nil.tag && value.value == nil.value {
        Ok(nil)
    } else {
        vm.get_car(&value)
    }
}

fn builtin_cdr(vm: &VirtualMachine, argl: &[TypedPointer]) -> (r: LispResult<TypedPointer>)
    requires
        vm.wf(),
    ensures
        if argl@.len() != 1 {
            r matches Err(e) && e.kind matches LispErrorKind::Arity(n) && n@ == "cdr"@
        } else if argl@[0] == ConstSymbol::spec_nil() {
            r == Ok::<_, LispError>(ConstSymbol::spec_nil())
        } else if cons_valid(vm, argl@[0]) {
            r == Ok::<_, LispError>(cdr_of(vm, argl@[0]))
        } else {
            r matches Err(e) && e.kind is Internal
        },
{
    if argl.len() != 1 {
        return Err(LispError::arity(<String as vstd::string::StringExecFns>::from_str("cdr")));
    }
    let value = argl[0];
    let nil = ConstSymbol::nil();
    if value.tag == nil.tag && value.value == nil.value {
        Ok(nil)
    } else {
        vm.get_cdr(&value)
    }
}

fn builtin_list(vm: &mut VirtualMachine, argl: &[TypedPointer]) -> (r: LispResult<TypedPointer>)
    requires
        old(vm).wf(),
    ensures
        final(vm).wf(),
        final(vm).registers == old(vm).registers,
        final(vm).stack == old(vm).stack,
        final(vm).atoms == old(vm).atoms,
        final(vm).numbers == old(vm).numbers,
        final(vm).environments == old(vm).environments,
        final(vm).atom_index == old(vm).atom_index,
        final(vm).lists.last >= old(vm).lists.last,
        final(vm).lists.area@.len() == old(vm).lists.area@.len(),
        forall|i: int|
            0 <= i < old(vm).lists.last ==> final(vm).lists.area@[i] == old(vm).lists.area@[i],
        r matches Ok(p) ==> is_chain(final(vm), p, argl@.reverse()),
        r matches Ok(p) ==> final(vm).lists.last == old(vm).lists.last + argl@.len(),
        r matches Err(e) ==> e.kind is ListAreaAllocation,
        old(vm).lists.last + argl@.len() <= LIST_AREA_SIZE ==> r is Ok,
{
    // The buffer is in reverse source order; walking it forward while
    // prepending restores the source order.
    let nil = ConstSymbol::nil();
    let mut iter = nil;
    let mut i: usize = 0;
    proof {
        assert(argl@.take(0).reverse() =~= Seq::<TypedPointer>::empty());
    }
    while i < argl.len()
        invariant
            vm.wf(),
            nil == ConstSymbol::spec_nil(),
            i <= argl@.len(),
            vm.registers == old(vm).registers,
            vm.stack == old(vm).stack,
            vm.atoms == old(vm).atoms,
            vm.numbers == old(vm).numbers,
            vm.environments == old(vm).environments,
            vm.atom_index == old(vm).atom_index,
            vm.lists.last == old(vm).lists.last + i,
            vm.lists.area@.len() == old(vm).lists.area@.len(),
            forall|k: int|
                0 <= k < old(vm).lists.last ==> vm.lists.area@[k] == old(vm).lists.area@[k],
            is_chain(vm, iter, argl@.take(i as int).reverse()),
            iter.tag == DataType::Cons ==> iter.value < vm.lists.last,
        decreases argl@.len() - i,
    {
        let ghost prefix = argl@.take(i as int).reverse();
        let ghost vm1 = *vm;
        let value = argl[i];
        let cons = vm.make_cons()?;
        vm.set_car(&cons, value)?;
        vm.set_cdr(&cons, iter)?;
        proof {
            let prefix2 = argl@.take(i + 1).reverse();
            assert(prefix2.len() == i + 1);
            assert(prefix2.first() == argl@[i as int]);
            assert(prefix2.drop_first() =~= prefix);
            lemma_chain_preserved(&vm1, vm, iter, prefix);
            assert(cons_valid(vm, cons));
            assert(car_of(vm, cons) == value);
            assert(cdr_of(vm, cons) == iter);
            assert(is_chain(vm, cons, prefix2));
        }
        iter = cons;
        i = i + 1;
    }
    proof {
        assert(argl@.take(argl@.len() as int) =~= argl@);
    }
    Ok(iter)
}

/// A chain is untouched by growing the cons area: cells below the old
/// cursor keep their contents.
pub proof fn lemma_chain_preserved(
    vm1: &VirtualMachine,
    vm2: &VirtualMachine,
    p: TypedPointer,
    s: Seq<TypedPointer>,
)
    requires
        is_chain(vm1, p, s),
        vm2.lists.last >= vm1.lists.last,
        vm2.lists.area@.len() == vm1.lists.area@.len(),
        forall|i: int|
            0 <= i < vm1.lists.last ==> vm2.lists.area@[i] == vm1.lists.area@[i],
    ensures
        is_chain(vm2, p, s),
    decreases s.len(),
{
    if s.len() > 0 {
        lemma_chain_preserved(vm1, vm2, cdr_of(vm1, p), s.drop_first());
    }
}

fn builtin_eq(vm: &VirtualMachine, argl: &[TypedPointer]) -> (r: LispResult<TypedPointer>)
    requires
        vm.wf(),
    ensures
        if argl@.len() != 2 {
            r matches Err(e) && e.kind matches LispErrorKind::Arity(n) && n@ == "eq"@
        } else {
            match spec_eq_result(vm, argl@[1], argl@[0]) {
                Result::Ok(v) => r == Ok::<_, LispError>(v),
                Result::Err(_) => r matches Err(e) && e.kind is Internal,
            }
        },
{
    if argl.len() != 2 {
        return Err(LispError::arity(<String as vstd::string::StringExecFns>::from_str("eq")));
    }
    let first = argl[1];
    let second = argl[0];
    if first.tag != second.tag {
        return Ok(ConstSymbol::nil());
    }
    match first.tag {
        DataType::Atom | DataType::Cons | DataType::BuiltInFunction | DataType::BuiltInLiteral
            | DataType::Function | DataType::Literal => {
            if first.value == second.value {
                Ok(ConstSymbol::t())
            } else {
                Ok(ConstSymbol::nil())
            }
        },
        DataType::Environment => Err(LispError::internal("attempted to eq-compare two environments")),
        DataType::Number => {
            if first.value >= vm.numbers.area.len() || second.value >= vm.numbers.area.len() {
                return Err(LispError::internal("attempted to eq-compare unallocated numbers"));
            }
            if num_eq(&vm.numbers.area[first.value], &vm.numbers.area[second.value]) {
                Ok(ConstSymbol::t())
            } else {
                Ok(ConstSymbol::nil())
            }
        },
        DataType::Undefined => Err(LispError::internal("attempted to compare two undefined values")),
    }
}

impl VirtualMachine {
    /// Applies a built-in function to a buffer of evaluated arguments in
    /// reverse source order.  The `eval` built-in is applied by the
    /// evaluator itself, never through this dispatcher.
    pub fn dispatch_prim_eval(&mut self, fun: TypedPointer, argl: &[TypedPointer]) -> (r:
        LispResult<TypedPointer>)
        requires
            old(self).wf(),
        ensures
            final(self).wf(),
            final(self).registers == old(self).registers,
            final(self).stack == old(self).stack,
            final(self).atoms == old(self).atoms,
            final(self).numbers == old(self).numbers,
            final(self).environments == old(self).environments,
            final(self).atom_index == old(self).atom_index,
            final(self).lists.last >= old(self).lists.last,
            final(self).lists.area@.len() == old(self).lists.area@.len(),
            forall|i: int|
                0 <= i < old(self).lists.last ==> final(self).lists.area@[i] == old(self).lists.area@[i],
            fun == ConstSymbol::spec_bin_cons() && argl@.len() == 2 && old(self).lists.last
                < LIST_AREA_SIZE ==> r == Ok::<_, LispError>(
                TypedPointer { tag: DataType::Cons, value: old(self).lists.last },
            ) && final(self).lists.area@[old(self).lists.last as int].car == argl@[1] && final(self).lists.area@[old(self).lists.last as int].cdr == argl@[0],
            fun == ConstSymbol::spec_bin_car() && argl@.len() == 1 ==> (if argl@[0]
                == ConstSymbol::spec_nil() {
                r == Ok::<_, LispError>(ConstSymbol::spec_nil())
            } else if cons_valid(old(self), argl@[0]) {
                r == Ok::<_, LispError>(car_of(old(self), argl@[0]))
            } else {
                r is Err
            }),
            fun == ConstSymbol::spec_bin_cdr() && argl@.len() == 1 ==> (if argl@[0]
                == ConstSymbol::spec_nil() {
                r == Ok::<_, LispError>(ConstSymbol::spec_nil())
            } else if cons_valid(old(self), argl@[0]) {
                r == Ok::<_, LispError>(cdr_of(old(self), argl@[0]))
            } else {
                r is Err
            }),
            fun == ConstSymbol::spec_bin_list() && r is Ok ==> is_chain(
                final(self),
                r->Ok_0,
                argl@.reverse(),
            ),
            fun == ConstSymbol::spec_bin_list() && old(self).lists.last + argl@.len()
                <= LIST_AREA_SIZE ==> r is Ok,
            fun == ConstSymbol::spec_bin_list() && r is Ok ==> final(self).lists.last == old(
                self,
            ).lists.last + argl@.len(),
            fun == ConstSymbol::spec_bin_cons() && argl@.len() == 2 && old(self).lists.last
                >= LIST_AREA_SIZE ==> r is Err,
            fun == ConstSymbol::spec_bin_list() && r is Err ==> (r matches Err(e)
                && e.kind is ListAreaAllocation),
            fun == ConstSymbol::spec_bin_cons() && argl@.len() != 2 ==> (r matches Err(e)
                && e.kind matches LispErrorKind::Arity(n) && n@ == "cons"@),
            fun == ConstSymbol::spec_bin_car() && argl@.len() != 1 ==> (r matches Err(e)
                && e.kind matches LispErrorKind::Arity(n) && n@ == "car"@),
            fun == ConstSymbol::spec_bin_cdr() && argl@.len() != 1 ==> (r matches Err(e)
                && e.kind matches LispErrorKind::Arity(n) && n@ == "cdr"@),
            fun == ConstSymbol::spec_bin_eq() && argl@.len() != 2 ==> (r matches Err(e)
                && e.kind matches LispErrorKind::Arity(n) && n@ == "eq"@),
            fun == ConstSymbol::spec_bin_eq() && argl@.len() == 2 ==> (match spec_eq_result(
                old(self),
                argl@[1],
                argl@[0],
            ) {
                Result::Ok(v) => r == Ok::<_, LispError>(v),
                Result::Err(_) => r is Err,
            }),
    {
        if fun == ConstSymbol::bin_cons() {
            builtin_cons(self, argl)
        } else if fun == ConstSymbol::bin_car() {
            builtin_car(self, argl)
        } else if fun == ConstSymbol::bin_cdr() {
            builtin_cdr(self, argl)
        } else if fun == ConstSymbol::bin_list() {
            builtin_list(self, argl)
        } else if fun == ConstSymbol::bin_eq() {
            builtin_eq(self, argl)
        } else {
            Err(LispError::internal("unknown primitive function"))
        }
    }
}

} // verus!
