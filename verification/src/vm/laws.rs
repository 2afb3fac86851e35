//! The machine's stated laws, proved from the contracts of the
//! operations they speak about.  Interning is the found branch of
//! `make_atom`'s contract; pool exhaustion is the full-pool branch of
//! each allocator's contract; stack balance is part of `evaluate`'s
//! contract.  What needs an argument of its own stands here.

use crate::vm::atom_index::trie_entries;
use crate::vm::constants::ConstSymbol;
use crate::vm::evaluate::{bound_map, bound_map_upto, spec_chain_lookup, spec_lookup};
use crate::vm::types::{DataType, Number, TypedPointer, VirtualMachine};
use vstd::prelude::*;

verus! {

/// Interning: once a name is in the index, it names an allocated atom
/// carrying that very name, so a repeated `make_atom` takes the found
/// branch of its contract: it returns the same pointer and leaves the
/// machine — the atom cursor included — unchanged.
pub proof fn lemma_interning(vm: &VirtualMachine, name: Seq<char>)
    requires
        vm.wf(),
        trie_entries(&vm.atom_index).contains_key(name),
    ensures
        trie_entries(&vm.atom_index)[name] < vm.atoms.last,
        vm.atoms.area@[trie_entries(&vm.atom_index)[name] as int].name@ == name,
{
}

/// Self-evaluation: in a freshly seeded machine the atoms `t` and `nil`
/// evaluate to themselves — the root environment binds neither, and each
/// one's global value is its own pointer.
pub proof fn lemma_self_evaluation(vm: &VirtualMachine)
    requires
        vm.wf(),
        VirtualMachine::seeded(vm),
    ensures
        spec_lookup(vm, ConstSymbol::spec_e0(), ConstSymbol::spec_t()) == Result::<
            TypedPointer,
            (),
        >::Ok(ConstSymbol::spec_t()),
        spec_lookup(vm, ConstSymbol::spec_e0(), ConstSymbol::spec_nil()) == Result::<
            TypedPointer,
            (),
        >::Ok(ConstSymbol::spec_nil()),
{
    let e0 = ConstSymbol::spec_e0();
    let m = vm.environments.area@[0].map_view();
    assert(!m.contains_key(1usize));
    assert(!m.contains_key(0usize));
    assert(spec_chain_lookup(vm, e0, ConstSymbol::spec_t()) == Result::<
        Option<TypedPointer>,
        (),
    >::Ok(Option::None));
    assert(spec_chain_lookup(vm, e0, ConstSymbol::spec_nil()) == Result::<
        Option<TypedPointer>,
        (),
    >::Ok(Option::None));
}

/// Numeric slot stability: storing a number into an atom that already
/// holds one goes through the in-place branch of `assign_value`'s
/// contract; the pointer under the atom keeps its tag and index, and the
/// old slot now carries the new value.
pub proof fn lemma_numeric_slot_stability(
    pre: &VirtualMachine,
    post: &VirtualMachine,
    atom: TypedPointer,
    value: TypedPointer,
)
    requires
        pre.wf(),
        atom.tag == DataType::Atom,
        atom.value < pre.atoms.last,
        value.tag == DataType::Number,
        pre.atoms.area@[atom.value as int].value.tag == DataType::Number,
        value.value < pre.numbers.area@.len(),
        pre.atoms.area@[atom.value as int].value.value < pre.numbers.area@.len(),
        // The relation `assign_value` ensures on this branch.
        post.atoms == pre.atoms,
        post.numbers.area@ == pre.numbers.area@.update(
            pre.atoms.area@[atom.value as int].value.value as int,
            pre.numbers.area@[value.value as int],
        ),
    ensures
        post.atoms.area@[atom.value as int].value == pre.atoms.area@[atom.value as int].value,
        post.numbers.area@[post.atoms.area@[atom.value as int].value.value as int]
            == pre.numbers.area@[value.value as int],
{
}

/// Slot reclamation: overwriting an atom's numeric value with a
/// non-number pushes the abandoned slot onto the free queue, and with
/// the queue previously empty the next `make_number` reuses exactly that
/// slot, by the front-of-queue branch of its contract.
pub proof fn lemma_slot_reclamation(
    pre: &VirtualMachine,
    post: &VirtualMachine,
    atom: TypedPointer,
    value: TypedPointer,
)
    requires
        pre.wf(),
        atom.tag == DataType::Atom,
        atom.value < pre.atoms.last,
        value.tag != DataType::Number,
        pre.atoms.area@[atom.value as int].value.tag == DataType::Number,
        pre.atoms.area@[atom.value as int].value.value < crate::vm::types::NUMBER_TABLE_SIZE,
        pre.numbers.unused@.len() == 0,
        // The relation `assign_value` ensures on this branch.
        post.numbers.unused@ == pre.numbers.unused@.push(
            pre.atoms.area@[atom.value as int].value.value,
        ),
    ensures
        post.numbers.unused@.len() > 0,
        post.numbers.unused@[0] == pre.atoms.area@[atom.value as int].value.value,
{
}

/// Environment chain: an activation frame built for one parameter bound
/// to one argument chains to the function's captured environment, and
/// looking the parameter up in it yields that argument.
pub proof fn lemma_environment_chain(
    vm: &VirtualMachine,
    activation: TypedPointer,
    param: TypedPointer,
    arg: TypedPointer,
    captured: TypedPointer,
)
    requires
        vm.wf(),
        activation.tag == DataType::Environment,
        activation.value < vm.environments.last,
        param.tag == DataType::Atom,
        vm.environments.area@[activation.value as int].map_view() =~= bound_map(
            seq![param],
            seq![arg],
        ),
        vm.environments.area@[activation.value as int].prev == captured,
    ensures
        spec_chain_lookup(vm, activation, param) == Result::<Option<TypedPointer>, ()>::Ok(
            Option::Some(arg),
        ),
        vm.environments.area@[activation.value as int].prev == captured,
{
    let ps = seq![param];
    let ar = seq![arg];
    assert(bound_map_upto(ps, ar, 1) == bound_map_upto(ps, ar, 0).insert(ps[0].value, ar[0]));
    assert(bound_map(ps, ar).contains_key(param.value));
    assert(bound_map(ps, ar)[param.value] == arg);
    assert(activation != ConstSymbol::spec_nil());
}

} // verus!
