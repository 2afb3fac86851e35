//! Machine construction: default-initialised pools, the reserved atoms,
//! and the root environment with its built-in functions.

use crate::vm::atom_index::{trie_entries, trie_new};
use crate::vm::constants::ConstSymbol;
use crate::vm::types::{
    Atom, AtomTable, Cons, DataType, Environment, EnvironmentTable, ListArea, Number, NumberTable,
    RegisterArea, StackArea, TypedPointer, VirtualMachine, ATOM_TABLE_SIZE, ENV_TABLE_SIZE,
    LISP_STACK_SIZE, LIST_AREA_SIZE, NUMBER_TABLE_SIZE,
};
use vstd::prelude::*;

verus! {

impl Default for StackArea {
    /// An empty stack over a full-capacity area.
    fn default() -> (r: Self)
        ensures
            r.last == 0,
            r.area@.len() == LISP_STACK_SIZE,
    {
        let mut area: Vec<TypedPointer> = Vec::new();
        let mut i: usize = 0;
        while i < LISP_STACK_SIZE
            invariant
                area@.len() == i,
                i <= LISP_STACK_SIZE,
            decreases LISP_STACK_SIZE - i,
        {
            area.push(TypedPointer { tag: DataType::Undefined, value: 0 });
            i = i + 1;
        }
        StackArea { last: 0, area }
    }
}

impl Default for AtomTable {
    /// An empty atom table over a full-capacity area.
    fn default() -> (r: Self)
        ensures
            r.last == 0,
            r.area@.len() == ATOM_TABLE_SIZE,
    {
        let mut area: Vec<Atom> = Vec::new();
        let mut i: usize = 0;
        while i < ATOM_TABLE_SIZE
            invariant
                area@.len() == i,
                i <= ATOM_TABLE_SIZE,
            decreases ATOM_TABLE_SIZE - i,
        {
            area.push(
                Atom { name: String::new(), value: TypedPointer { tag: DataType::Undefined, value: 0 } },
            );
            i = i + 1;
        }
        AtomTable { last: 0, area }
    }
}

impl Default for NumberTable {
    /// An empty number table over a full-capacity area, with an empty
    /// free queue.
    fn default() -> (r: Self)
        ensures
            r.last == 0,
            r.area@.len() == NUMBER_TABLE_SIZE,
            r.unused@.len() == 0,
    {
        let mut area: Vec<Number> = Vec::new();
        let mut i: usize = 0;
        while i < NUMBER_TABLE_SIZE
            invariant
                area@.len() == i,
                i <= NUMBER_TABLE_SIZE,
            decreases NUMBER_TABLE_SIZE - i,
        {
            area.push(Number::Undefined);
            i = i + 1;
        }
        NumberTable { last: 0, area, unused: std::collections::VecDeque::new() }
    }
}

impl Default for ListArea {
    /// An empty cons area at full capacity; every cell starts as an
    /// uninitialised pair.
    fn default() -> (r: Self)
        ensures
            r.last == 0,
            r.area@.len() == LIST_AREA_SIZE,
            forall|i: int|
                0 <= i < r.area@.len() ==> (#[trigger] r.area@[i]) == (Cons {
                    marked: 0,
                    car: TypedPointer { tag: DataType::Undefined, value: 0 },
                    cdr: TypedPointer { tag: DataType::Undefined, value: 0 },
                }),
    {
        let mut area: Vec<Cons> = Vec::new();
        let mut i: usize = 0;
        while i < LIST_AREA_SIZE
            invariant
                area@.len() == i,
                i <= LIST_AREA_SIZE,
                forall|j: int|
                    0 <= j < i ==> (#[trigger] area@[j]) == (Cons {
                        marked: 0,
                        car: TypedPointer { tag: DataType::Undefined, value: 0 },
                        cdr: TypedPointer { tag: DataType::Undefined, value: 0 },
                    }),
            decreases LIST_AREA_SIZE - i,
        {
            area.push(
                Cons {
                    marked: 0,
                    car: TypedPointer { tag: DataType::Undefined, value: 0 },
                    cdr: TypedPointer { tag: DataType::Undefined, value: 0 },
                },
            );
            i = i + 1;
        }
        ListArea { last: 0, area }
    }
}

impl Default for EnvironmentTable {
    /// An empty environment table at full capacity; every frame starts
    /// with no bindings and a `nil` parent.
    fn default() -> (r: Self)
        ensures
            r.last == 0,
            r.area@.len() == ENV_TABLE_SIZE,
            forall|i: int|
                0 <= i < r.area@.len() ==> (#[trigger] r.area@[i]).data@.len() == 0
                    && r.area@[i].prev == ConstSymbol::spec_nil(),
    {
        let mut area: Vec<Environment> = Vec::new();
        let mut i: usize = 0;
        while i < ENV_TABLE_SIZE
            invariant
                area@.len() == i,
                i <= ENV_TABLE_SIZE,
                forall|j: int|
                    0 <= j < i ==> (#[trigger] area@[j]).data@.len() == 0 && area@[j].prev
                        == ConstSymbol::spec_nil(),
            decreases ENV_TABLE_SIZE - i,
        {
            area.push(Environment { prev: ConstSymbol::nil(), data: Vec::new() });
            i = i + 1;
        }
        EnvironmentTable { last: 0, area }
    }
}

impl Default for VirtualMachine {
    /// A machine with zeroed pools and nothing interned.
    fn default() -> (r: Self)
        ensures
            r.wf(),
            r.atoms.last == 0,
            r.numbers.last == 0,
            r.numbers.unused@.len() == 0,
            r.lists.last == 0,
            r.stack.last == 0,
            r.environments.last == 0,
            forall|s: Seq<char>| !trie_entries(&r.atom_index).contains_key(s),
            r.registers == (RegisterArea {
                exp: TypedPointer { tag: DataType::Undefined, value: 0 },
                env: TypedPointer { tag: DataType::Undefined, value: 0 },
                fun: TypedPointer { tag: DataType::Undefined, value: 0 },
                argl: TypedPointer { tag: DataType::Undefined, value: 0 },
                cont: TypedPointer { tag: DataType::Undefined, value: 0 },
                val: TypedPointer { tag: DataType::Undefined, value: 0 },
                unev: TypedPointer { tag: DataType::Undefined, value: 0 },
            }),
    {
        VirtualMachine {
            registers: RegisterArea::default(),
            stack: StackArea::default(),
            atoms: AtomTable::default(),
            numbers: NumberTable::default(),
            lists: ListArea::default(),
            environments: EnvironmentTable::default(),
            atom_index: trie_new(),
        }
    }
}

impl VirtualMachine {
    /// The state a fresh machine is in: the reserved atoms interned in
    /// their fixed order, `nil` and `t` self-evaluating, and the root
    /// environment binding the six built-in functions.
    pub open spec fn seeded(vm: &VirtualMachine) -> bool {
        &&& vm.atoms.last == 28
        &&& vm.atoms.area@[0].name@ == "nil"@
        &&& vm.atoms.area@[1].name@ == "t"@
        &&& vm.atoms.area@[2].name@ == "prim"@
        &&& vm.atoms.area@[3].name@ == "lit"@
        &&& vm.atoms.area@[4].name@ == "closure"@
        &&& vm.atoms.area@[5].name@ == "error"@
        &&& vm.atoms.area@[6].name@ == "fn"@
        &&& vm.atoms.area@[7].name@ == "&"@
        &&& vm.atoms.area@[8].name@ == "apply"@
        &&& vm.atoms.area@[9].name@ == "macro"@
        &&& vm.atoms.area@[10].name@ == "mac"@
        &&& vm.atoms.area@[11].name@ == "quote"@
        &&& vm.atoms.area@[12].name@ == "unquote"@
        &&& vm.atoms.area@[13].name@ == "unquote-splice"@
        &&& vm.atoms.area@[14].name@ == "quasiquote"@
        &&& vm.atoms.area@[15].name@ == "do"@
        &&& vm.atoms.area@[16].name@ == "integer"@
        &&& vm.atoms.area@[17].name@ == "float"@
        &&& vm.atoms.area@[18].name@ == "fraction"@
        &&& vm.atoms.area@[19].name@ == "complex"@
        &&& vm.atoms.area@[20].name@ == "vector"@
        &&& vm.atoms.area@[21].name@ == "setq"@
        &&& vm.atoms.area@[22].name@ == "cons"@
        &&& vm.atoms.area@[23].name@ == "list"@
        &&& vm.atoms.area@[24].name@ == "car"@
        &&& vm.atoms.area@[25].name@ == "cdr"@
        &&& vm.atoms.area@[26].name@ == "eval"@
        &&& vm.atoms.area@[27].name@ == "eq"@
        &&& vm.atoms.area@[0].value == ConstSymbol::spec_nil()
        &&& vm.atoms.area@[1].value == ConstSymbol::spec_t()
        &&& forall|i: int|
            2 <= i < 28 ==> (#[trigger] vm.atoms.area@[i]).value == (TypedPointer {
                tag: DataType::Undefined,
                value: 0,
            })
        &&& vm.environments.last == 1
        &&& vm.environments.area@[0].prev == ConstSymbol::spec_nil()
        &&& vm.environments.area@[0].map_view() =~= Map::<usize, TypedPointer>::empty().insert(
            22,
            ConstSymbol::spec_bin_cons(),
        ).insert(23, ConstSymbol::spec_bin_list()).insert(24, ConstSymbol::spec_bin_car()).insert(
            25,
            ConstSymbol::spec_bin_cdr(),
        ).insert(26, ConstSymbol::spec_bin_eval()).insert(27, ConstSymbol::spec_bin_eq())
        &&& vm.numbers.last == 0
        &&& vm.numbers.unused@.len() == 0
        &&& vm.lists.last == 0
        &&& vm.stack.last == 0
        &&& vm.registers == (RegisterArea {
            exp: TypedPointer { tag: DataType::Undefined, value: 0 },
            env: TypedPointer { tag: DataType::Undefined, value: 0 },
            fun: TypedPointer { tag: DataType::Undefined, value: 0 },
            argl: TypedPointer { tag: DataType::Undefined, value: 0 },
            cont: TypedPointer { tag: DataType::Undefined, value: 0 },
            val: TypedPointer { tag: DataType::Undefined, value: 0 },
            unev: TypedPointer { tag: DataType::Undefined, value: 0 },
        })
    }

    /// Builds a machine, interns the reserved atoms, makes `nil` and `t`
    /// self-evaluating, and populates the root environment with the
    /// built-in functions.
    #[verifier::rlimit(100)]
    pub fn new() -> (r: Box<VirtualMachine>)
        ensures
            r.wf(),
            VirtualMachine::seeded(&r),
    {
        let mut vm = Box::new(VirtualMachine::default());
        proof {
            reveal_strlit("nil");
            reveal_strlit("t");
            reveal_strlit("prim");
            reveal_strlit("lit");
            reveal_strlit("closure");
            reveal_strlit("error");
            reveal_strlit("fn");
            reveal_strlit("&");
            reveal_strlit("apply");
            reveal_strlit("macro");
            reveal_strlit("mac");
            reveal_strlit("quote");
            reveal_strlit("unquote");
            reveal_strlit("unquote-splice");
            reveal_strlit("quasiquote");
            reveal_strlit("do");
            reveal_strlit("integer");
            reveal_strlit("float");
            reveal_strlit("fraction");
            reveal_strlit("complex");
            reveal_strlit("vector");
            reveal_strlit("setq");
            reveal_strlit("cons");
            reveal_strlit("list");
            reveal_strlit("car");
            reveal_strlit("cdr");
            reveal_strlit("eval");
            reveal_strlit("eq");
            assert("nil"@.len() == 3);
            assert("t"@.len() == 1);
            assert("prim"@.len() == 4);
            assert("lit"@.len() == 3);
            assert("closure"@.len() == 7);
            assert("error"@.len() == 5);
            assert("fn"@.len() == 2);
            assert("&"@.len() == 1);
            assert("apply"@.len() == 5);
            assert("macro"@.len() == 5);
            assert("mac"@.len() == 3);
            assert("quote"@.len() == 5);
            assert("unquote"@.len() == 7);
            assert("unquote-splice"@.len() == 14);
            assert("quasiquote"@.len() == 10);
            assert("do"@.len() == 2);
            assert("integer"@.len() == 7);
            assert("float"@.len() == 5);
            assert("fraction"@.len() == 8);
            assert("complex"@.len() == 7);
            assert("vector"@.len() == 6);
            assert("setq"@.len() == 4);
            assert("cons"@.len() == 4);
            assert("list"@.len() == 4);
            assert("car"@.len() == 3);
            assert("cdr"@.len() == 3);
            assert("eval"@.len() == 4);
            assert("eq"@.len() == 2);
            assert("nil"@[0] == 'n' && "lit"@[0] == 'l');
            assert("nil"@ != "lit"@);
            assert("nil"@[0] == 'n' && "mac"@[0] == 'm');
            assert("nil"@ != "mac"@);
            assert("nil"@[0] == 'n' && "car"@[0] == 'c');
            assert("nil"@ != "car"@);
            assert("nil"@[0] == 'n' && "cdr"@[0] == 'c');
            assert("nil"@ != "cdr"@);
            assert("t"@[0] == 't' && "&"@[0] == '&');
            assert("t"@ != "&"@);
            assert("prim"@[0] == 'p' && "setq"@[0] == 's');
            assert("prim"@ != "setq"@);
            assert("prim"@[0] == 'p' && "cons"@[0] == 'c');
            assert("prim"@ != "cons"@);
            assert("prim"@[0] == 'p' && "list"@[0] == 'l');
            assert("prim"@ != "list"@);
            assert("prim"@[0] == 'p' && "eval"@[0] == 'e');
            assert("prim"@ != "eval"@);
            assert("lit"@[0] == 'l' && "mac"@[0] == 'm');
            assert("lit"@ != "mac"@);
            assert("lit"@[0] == 'l' && "car"@[0] == 'c');
            assert("lit"@ != "car"@);
            assert("lit"@[0] == 'l' && "cdr"@[0] == 'c');
            assert("lit"@ != "cdr"@);
            assert("closure"@[0] == 'c' && "unquote"@[0] == 'u');
            assert("closure"@ != "unquote"@);
            assert("closure"@[0] == 'c' && "integer"@[0] == 'i');
            assert("closure"@ != "integer"@);
            assert("closure"@[1] == 'l' && "complex"@[1] == 'o');
            assert("closure"@ != "complex"@);
            assert("error"@[0] == 'e' && "apply"@[0] == 'a');
            assert("error"@ != "apply"@);
            assert("error"@[0] == 'e' && "macro"@[0] == 'm');
            assert("error"@ != "macro"@);
            assert("error"@[0] == 'e' && "quote"@[0] == 'q');
            assert("error"@ != "quote"@);
            assert("error"@[0] == 'e' && "float"@[0] == 'f');
            assert("error"@ != "float"@);
            assert("fn"@[0] == 'f' && "do"@[0] == 'd');
            assert("fn"@ != "do"@);
            assert("fn"@[0] == 'f' && "eq"@[0] == 'e');
            assert("fn"@ != "eq"@);
            assert("apply"@[0] == 'a' && "macro"@[0] == 'm');
            assert("apply"@ != "macro"@);
            assert("apply"@[0] == 'a' && "quote"@[0] == 'q');
            assert("apply"@ != "quote"@);
            assert("apply"@[0] == 'a' && "float"@[0] == 'f');
            assert("apply"@ != "float"@);
            assert("macro"@[0] == 'm' && "quote"@[0] == 'q');
            assert("macro"@ != "quote"@);
            assert("macro"@[0] == 'm' && "float"@[0] == 'f');
            assert("macro"@ != "float"@);
            assert("mac"@[0] == 'm' && "car"@[0] == 'c');
            assert("mac"@ != "car"@);
            assert("mac"@[0] == 'm' && "cdr"@[0] == 'c');
            assert("mac"@ != "cdr"@);
            assert("quote"@[0] == 'q' && "float"@[0] == 'f');
            assert("quote"@ != "float"@);
            assert("unquote"@[0] == 'u' && "integer"@[0] == 'i');
            assert("unquote"@ != "integer"@);
            assert("unquote"@[0] == 'u' && "complex"@[0] == 'c');
            assert("unquote"@ != "complex"@);
            assert("do"@[0] == 'd' && "eq"@[0] == 'e');
            assert("do"@ != "eq"@);
            assert("integer"@[0] == 'i' && "complex"@[0] == 'c');
            assert("integer"@ != "complex"@);
            assert("setq"@[0] == 's' && "cons"@[0] == 'c');
            assert("setq"@ != "cons"@);
            assert("setq"@[0] == 's' && "list"@[0] == 'l');
            assert("setq"@ != "list"@);
            assert("setq"@[0] == 's' && "eval"@[0] == 'e');
            assert("setq"@ != "eval"@);
            assert("cons"@[0] == 'c' && "list"@[0] == 'l');
            assert("cons"@ != "list"@);
            assert("cons"@[0] == 'c' && "eval"@[0] == 'e');
            assert("cons"@ != "eval"@);
            assert("list"@[0] == 'l' && "eval"@[0] == 'e');
            assert("list"@ != "eval"@);
            assert("car"@[1] == 'a' && "cdr"@[1] == 'd');
            assert("car"@ != "cdr"@);
        }
        let _ = vm.make_atom("nil");
        let _ = vm.make_atom("t");
        let _ = vm.make_atom("prim");
        let _ = vm.make_atom("lit");
        let _ = vm.make_atom("closure");
        let _ = vm.make_atom("error");
        let _ = vm.make_atom("fn");
        let _ = vm.make_atom("&");
        let _ = vm.make_atom("apply");
        let _ = vm.make_atom("macro");
        let _ = vm.make_atom("mac");
        let _ = vm.make_atom("quote");
        let _ = vm.make_atom("unquote");
        let _ = vm.make_atom("unquote-splice");
        let _ = vm.make_atom("quasiquote");
        let _ = vm.make_atom("do");
        let _ = vm.make_atom("integer");
        let _ = vm.make_atom("float");
        let _ = vm.make_atom("fraction");
        let _ = vm.make_atom("complex");
        let _ = vm.make_atom("vector");
        let _ = vm.make_atom("setq");
        assert(vm.atoms.last == 22);
        let _ = vm.assign_value(ConstSymbol::nil(), ConstSymbol::nil());
        let _ = vm.assign_value(ConstSymbol::t(), ConstSymbol::t());
        vm.make_default_env();
        vm
    }

    /// Creates the root environment and binds the built-in functions in
    /// it under their names.
    #[verifier::rlimit(100)]
    fn make_default_env(&mut self)
        requires
            old(self).wf(),
            old(self).environments.last == 0,
            old(self).atoms.last == 22,
            !trie_entries(&old(self).atom_index).contains_key("cons"@),
            !trie_entries(&old(self).atom_index).contains_key("list"@),
            !trie_entries(&old(self).atom_index).contains_key("car"@),
            !trie_entries(&old(self).atom_index).contains_key("cdr"@),
            !trie_entries(&old(self).atom_index).contains_key("eval"@),
            !trie_entries(&old(self).atom_index).contains_key("eq"@),
            "cons"@ != "list"@ && "cons"@ != "car"@ && "cons"@ != "cdr"@ && "cons"@ != "eval"@
                && "cons"@ != "eq"@,
            "list"@ != "car"@ && "list"@ != "cdr"@ && "list"@ != "eval"@ && "list"@ != "eq"@,
            "car"@ != "cdr"@ && "car"@ != "eval"@ && "car"@ != "eq"@,
            "cdr"@ != "eval"@ && "cdr"@ != "eq"@,
            "eval"@ != "eq"@,
        ensures
            final(self).wf(),
            final(self).registers == old(self).registers,
            final(self).stack == old(self).stack,
            final(self).numbers == old(self).numbers,
            final(self).lists == old(self).lists,
            final(self).environments.last == 1,
            final(self).environments.area@[0].prev == ConstSymbol::spec_nil(),
            final(self).environments.area@[0].map_view() =~= Map::<usize, TypedPointer>::empty()
                .insert(22, ConstSymbol::spec_bin_cons()).insert(
                23,
                ConstSymbol::spec_bin_list(),
            ).insert(24, ConstSymbol::spec_bin_car()).insert(25, ConstSymbol::spec_bin_cdr()).insert(
                26,
                ConstSymbol::spec_bin_eval(),
            ).insert(27, ConstSymbol::spec_bin_eq()),
            final(self).atoms.last == 28,
            final(self).atoms.area@.len() == old(self).atoms.area@.len(),
            forall|i: int|
                0 <= i < 22 ==> final(self).atoms.area@[i] == old(self).atoms.area@[i],
            final(self).atoms.area@[22].name@ == "cons"@,
            final(self).atoms.area@[23].name@ == "list"@,
            final(self).atoms.area@[24].name@ == "car"@,
            final(self).atoms.area@[25].name@ == "cdr"@,
            final(self).atoms.area@[26].name@ == "eval"@,
            final(self).atoms.area@[27].name@ == "eq"@,
            forall|i: int|
                22 <= i < 28 ==> (#[trigger] final(self).atoms.area@[i]).value == (TypedPointer {
                    tag: DataType::Undefined,
                    value: 0,
                }),
    {
        let _ = self.make_environment(ConstSymbol::nil());
        let e0 = ConstSymbol::e0();
        let _ = self.make_atom("cons");
        let _ = self.env_bind(e0, TypedPointer::new(DataType::Atom, 22), ConstSymbol::bin_cons());
        let _ = self.make_atom("list");
        let _ = self.env_bind(e0, TypedPointer::new(DataType::Atom, 23), ConstSymbol::bin_list());
        let _ = self.make_atom("car");
        let _ = self.env_bind(e0, TypedPointer::new(DataType::Atom, 24), ConstSymbol::bin_car());
        let _ = self.make_atom("cdr");
        let _ = self.env_bind(e0, TypedPointer::new(DataType::Atom, 25), ConstSymbol::bin_cdr());
        let _ = self.make_atom("eval");
        let _ = self.env_bind(e0, TypedPointer::new(DataType::Atom, 26), ConstSymbol::bin_eval());
        let _ = self.make_atom("eq");
        let _ = self.env_bind(e0, TypedPointer::new(DataType::Atom, 27), ConstSymbol::bin_eq());
    }
}

} // verus!
