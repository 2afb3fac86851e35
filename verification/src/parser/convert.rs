//! The graph builder: a parse tree turned into atoms, numbers and cons
//! cells inside the machine.  `tree_at` pins down exactly which object
//! graph a successful build leaves behind.

use crate::parser::expression::{AtomExpr, Expr, NumberExpr, PrefixType};
use crate::vm::constants::ConstSymbol;
use crate::vm::error::{LispError, LispResult};
use crate::vm::types::{DataType, Number, TypedPointer, VirtualMachine};
use vstd::prelude::*;

verus! {

/// A numeric cell holds the value a numeric literal denotes.
pub open spec fn num_matches(n: Number, ne: NumberExpr) -> bool
    decreases ne,
{
    match ne {
        NumberExpr::Integer(i) => n == Number::Integer(i),
        NumberExpr::Float(s) => match n {
            Number::Float(t) => t@ == s@,
            _ => false,
        },
        NumberExpr::Fraction(a, b) => n == Number::Fraction(a, b),
        NumberExpr::Complex(re, im) => match n {
            Number::Complex(nr, ni) => num_matches(*nr, *re) && num_matches(*ni, *im),
            _ => false,
        },
    }
}

/// The atom name a reader prefix expands to.
pub open spec fn prefix_name(pt: PrefixType) -> Seq<char> {
    match pt {
        PrefixType::Quote => "quote"@,
        PrefixType::Quasiquote => "quasiquote"@,
        PrefixType::Unquote => "unquote"@,
        PrefixType::UnquoteSplice => "unquote-splice"@,
    }
}

/// The object at `p` is the graph the builder leaves for `e`: numbers in
/// the number table, symbols interned by name, lists as nil-terminated
/// chains, dotted lists and conses with their tails, prefixes as
/// two-element lists, comments surfaced as `nil`.
pub open spec fn tree_at(vm: &VirtualMachine, p: TypedPointer, e: Expr) -> bool
    decreases e, 0int,
{
    match e {
        Expr::Atom(ae) => match ae {
            AtomExpr::Number(ne) => p.tag == DataType::Number && p.value < vm.numbers.last
                && num_matches(vm.numbers.area@[p.value as int], ne),
            AtomExpr::String(_) => false,
            AtomExpr::Symbol(s) => p.tag == DataType::Atom && p.value < vm.atoms.last
                && vm.atoms.area@[p.value as int].name@ == s@,
        },
        Expr::Prefixed(pt, inner) => {
            &&& p.tag == DataType::Cons
            &&& p.value < vm.lists.last
            &&& ({
                let head = vm.lists.area@[p.value as int].car;
                let tail = vm.lists.area@[p.value as int].cdr;
                &&& head.tag == DataType::Atom
                &&& head.value < vm.atoms.last
                &&& vm.atoms.area@[head.value as int].name@ == prefix_name(pt)
                &&& tail.tag == DataType::Cons
                &&& tail.value < vm.lists.last
                &&& tree_at(vm, vm.lists.area@[tail.value as int].car, *inner)
                &&& vm.lists.area@[tail.value as int].cdr == ConstSymbol::spec_nil()
            })
        },
        Expr::List(es) => if es@.len() == 0 {
            p == ConstSymbol::spec_nil()
        } else {
            list_tree_at(vm, p, es@, 0)
        },
        Expr::DottedList(es) => es@.len() >= 2 && dotted_tree_at(vm, p, es@, 0),
        Expr::Vector(_) => false,
        Expr::Cons(a, d) => {
            &&& p.tag == DataType::Cons
            &&& p.value < vm.lists.last
            &&& tree_at(vm, vm.lists.area@[p.value as int].car, *a)
            &&& tree_at(vm, vm.lists.area@[p.value as int].cdr, *d)
        },
        Expr::Comment(_) => p.tag == DataType::Atom && p.value < vm.atoms.last
            && vm.atoms.area@[p.value as int].name@ == "nil"@,
    }
}

/// The chain at `p` carries the elements `es[i..]`, ending in `nil`.
pub open spec fn list_tree_at(vm: &VirtualMachine, p: TypedPointer, es: Seq<Expr>, i: int) -> bool
    decreases es, es.len() - i,
{
    if i < 0 || i >= es.len() {
        false
    } else {
        &&& p.tag == DataType::Cons
        &&& p.value < vm.lists.last
        &&& tree_at(vm, vm.lists.area@[p.value as int].car, es[i])
        &&& if i == es.len() - 1 {
            vm.lists.area@[p.value as int].cdr == ConstSymbol::spec_nil()
        } else {
            list_tree_at(vm, vm.lists.area@[p.value as int].cdr, es, i + 1)
        }
    }
}

/// The chain at `p` carries `es[i..]` as a dotted list: the last element
/// is the final cdr.
pub open spec fn dotted_tree_at(vm: &VirtualMachine, p: TypedPointer, es: Seq<Expr>, i: int) -> bool
    decreases es, es.len() - i,
{
    if i < 0 || i >= es.len() - 1 {
        false
    } else {
        &&& p.tag == DataType::Cons
        &&& p.value < vm.lists.last
        &&& tree_at(vm, vm.lists.area@[p.value as int].car, es[i])
        &&& if i == es.len() - 2 {
            tree_at(vm, vm.lists.area@[p.value as int].cdr, es[es.len() - 1])
        } else {
            dotted_tree_at(vm, vm.lists.area@[p.value as int].cdr, es, i + 1)
        }
    }
}

/// What building leaves alone or only appends to: existing atoms keep
/// their slots, existing cons cells their contents, and the number and
/// cons areas only grow.
pub open spec fn grows_preserving(pre: &VirtualMachine, post: &VirtualMachine) -> bool {
    &&& post.atoms.last >= pre.atoms.last
    &&& post.atoms.area@.len() == pre.atoms.area@.len()
    &&& forall|i: int|
        0 <= i < pre.atoms.last ==> #[trigger] post.atoms.area@[i] == pre.atoms.area@[i]
    &&& post.lists.last >= pre.lists.last
    &&& post.lists.area@.len() == pre.lists.area@.len()
    &&& forall|i: int| 0 <= i < pre.lists.last ==> #[trigger] post.lists.area@[i] == pre.lists.area@[i]
    &&& post.numbers.last >= pre.numbers.last
    &&& post.numbers.area@.len() == pre.numbers.area@.len()
}

/// Numbers already placed stay in place.
pub open spec fn numbers_preserved(pre: &VirtualMachine, post: &VirtualMachine) -> bool {
    forall|i: int|
        0 <= i < pre.numbers.last ==> #[trigger] post.numbers.area@[i] == pre.numbers.area@[i]
}

/// A built graph is untouched by further building.
pub proof fn lemma_tree_preserved(
    vm1: &VirtualMachine,
    vm2: &VirtualMachine,
    p: TypedPointer,
    e: Expr,
)
    requires
        tree_at(vm1, p, e),
        grows_preserving(vm1, vm2),
        numbers_preserved(vm1, vm2),
    ensures
        tree_at(vm2, p, e),
    decreases e, 0int,
{
    match e {
        Expr::Prefixed(pt, inner) => {
            let tail = vm1.lists.area@[p.value as int].cdr;
            lemma_tree_preserved(vm1, vm2, vm1.lists.area@[tail.value as int].car, *inner);
        },
        Expr::List(es) => {
            if es@.len() > 0 {
                lemma_list_tree_preserved(vm1, vm2, p, es@, 0);
            }
        },
        Expr::DottedList(es) => {
            lemma_dotted_tree_preserved(vm1, vm2, p, es@, 0);
        },
        Expr::Cons(a, d) => {
            lemma_tree_preserved(vm1, vm2, vm1.lists.area@[p.value as int].car, *a);
            lemma_tree_preserved(vm1, vm2, vm1.lists.area@[p.value as int].cdr, *d);
        },
        _ => {},
    }
}

pub proof fn lemma_list_tree_preserved(
    vm1: &VirtualMachine,
    vm2: &VirtualMachine,
    p: TypedPointer,
    es: Seq<Expr>,
    i: int,
)
    requires
        list_tree_at(vm1, p, es, i),
        grows_preserving(vm1, vm2),
        numbers_preserved(vm1, vm2),
    ensures
        list_tree_at(vm2, p, es, i),
    decreases es, es.len() - i,
{
    lemma_tree_preserved(vm1, vm2, vm1.lists.area@[p.value as int].car, es[i]);
    if i != es.len() - 1 {
        lemma_list_tree_preserved(vm1, vm2, vm1.lists.area@[p.value as int].cdr, es, i + 1);
    }
}

pub proof fn lemma_dotted_tree_preserved(
    vm1: &VirtualMachine,
    vm2: &VirtualMachine,
    p: TypedPointer,
    es: Seq<Expr>,
    i: int,
)
    requires
        dotted_tree_at(vm1, p, es, i),
        grows_preserving(vm1, vm2),
        numbers_preserved(vm1, vm2),
    ensures
        dotted_tree_at(vm2, p, es, i),
    decreases es, es.len() - i,
{
    lemma_tree_preserved(vm1, vm2, vm1.lists.area@[p.value as int].car, es[i]);
    if i == es.len() - 2 {
        lemma_tree_preserved(vm1, vm2, vm1.lists.area@[p.value as int].cdr, es[es.len() - 1]);
    } else {
        lemma_dotted_tree_preserved(vm1, vm2, vm1.lists.area@[p.value as int].cdr, es, i + 1);
    }
}

/// The numeric cell a numeric literal builds; nested complex parts are
/// rejected.
fn build_number_ast(ne: NumberExpr) -> (r: LispResult<Number>)
    ensures
        r matches Ok(n) ==> num_matches(n, ne),
        !(ne is Complex) ==> r is Ok,
        (ne matches NumberExpr::Complex(re, im) && !(*re is Complex) && !(*im is Complex))
            ==> r is Ok,
        r matches Err(e) ==> e.kind is Internal,
    decreases ne,
{
    match ne {
        NumberExpr::Integer(i) => Ok(Number::Integer(i)),
        NumberExpr::Float(s) => Ok(Number::Float(s)),
        NumberExpr::Fraction(a, b) => Ok(Number::Fraction(a, b)),
        NumberExpr::Complex(re, im) => {
            let nr = build_number_ast(*re)?;
            let ni = build_number_ast(*im)?;
            match (&nr, &ni) {
                (Number::Complex(_, _), _) | (_, Number::Complex(_, _)) => Err(
                    LispError::internal("complex number parts must be real"),
                ),
                _ => Ok(Number::complex(nr, ni)),
            }
        },
    }
}

/// The object an atomic expression builds: a numeric cell or an interned
/// symbol; string storage is not implemented.
fn build_atom_ast(vm: &mut VirtualMachine, atom_expr: AtomExpr) -> (r: LispResult<TypedPointer>)
    requires
        old(vm).wf(),
    ensures
        final(vm).wf(),
        final(vm).registers == old(vm).registers,
        final(vm).stack == old(vm).stack,
        final(vm).environments == old(vm).environments,
        final(vm).lists == old(vm).lists,
        grows_preserving(old(vm), final(vm)),
        old(vm).numbers.unused@.len() == 0 ==> final(vm).numbers.unused@.len() == 0
            && numbers_preserved(old(vm), final(vm)),
        r matches Ok(p) ==> (old(vm).numbers.unused@.len() == 0 ==> tree_at(
            final(vm),
            p,
            Expr::Atom(atom_expr),
        )),
        (atom_expr matches AtomExpr::String(_)) ==> (r matches Err(e) && e.kind is Internal),
        (atom_expr matches AtomExpr::Symbol(_)) ==> ({
            let name = atom_expr->Symbol_0;
            let m = crate::vm::atom_index::trie_entries(&old(vm).atom_index);
            if m.contains_key(name@) {
                r == Ok::<_, LispError>(TypedPointer { tag: DataType::Atom, value: m[name@] })
            } else if old(vm).atoms.last < crate::vm::types::ATOM_TABLE_SIZE {
                r is Ok
            } else {
                r matches Err(e) && e.kind is AtomTableAllocation
            }
        }),
        (atom_expr matches AtomExpr::Number(ne) && !(ne is Complex)) ==> (if old(
            vm,
        ).numbers.unused@.len() > 0 || old(vm).numbers.last < crate::vm::types::NUMBER_TABLE_SIZE {
            r is Ok
        } else {
            r matches Err(e) && e.kind is NumberTableAllocation
        }),
    decreases atom_expr,
{
    match atom_expr {
        AtomExpr::Number(ne) => {
            let n = build_number_ast(ne)?;
            vm.make_number(n)
        },
        AtomExpr::String(_) => Err(LispError::internal("string storage not implemented")),
        AtomExpr::Symbol(name) => vm.make_atom(name.as_str()),
    }
}

/// Builds the machine's object graph for a parse tree, returning the
/// pointer to its root.  Strings and vectors have no storage and are
/// rejected; a dotted list needs at least two elements.
pub fn build_ast(vm: &mut VirtualMachine, expr: Expr) -> (r: LispResult<TypedPointer>)
    requires
        old(vm).wf(),
    ensures
        final(vm).wf(),
        final(vm).registers == old(vm).registers,
        final(vm).stack == old(vm).stack,
        final(vm).environments == old(vm).environments,
        grows_preserving(old(vm), final(vm)),
        old(vm).numbers.unused@.len() == 0 ==> final(vm).numbers.unused@.len() == 0
            && numbers_preserved(old(vm), final(vm)),
        r matches Ok(p) ==> (old(vm).numbers.unused@.len() == 0 ==> tree_at(final(vm), p, expr)),
        (expr matches Expr::Atom(AtomExpr::String(_))) ==> (r matches Err(e)
            && e.kind is Internal),
        (expr is Vector) ==> (r matches Err(e) && e.kind is Internal),
        (expr matches Expr::List(es) && es@.len() == 0) ==> r == Ok::<_, LispError>(
            ConstSymbol::spec_nil(),
        ),
        (expr matches Expr::Atom(AtomExpr::Symbol(_))) ==> ({
            let name = expr->Atom_0->Symbol_0;
            let m = crate::vm::atom_index::trie_entries(&old(vm).atom_index);
            if m.contains_key(name@) {
                r == Ok::<_, LispError>(TypedPointer { tag: DataType::Atom, value: m[name@] })
            } else if old(vm).atoms.last < crate::vm::types::ATOM_TABLE_SIZE {
                r is Ok
            } else {
                r matches Err(e) && e.kind is AtomTableAllocation
            }
        }),
        (expr matches Expr::Atom(AtomExpr::Number(ne)) && !(ne is Complex)) ==> (if old(
            vm,
        ).numbers.unused@.len() > 0 || old(vm).numbers.last < crate::vm::types::NUMBER_TABLE_SIZE {
            r is Ok
        } else {
            r matches Err(e) && e.kind is NumberTableAllocation
        }),
        (expr is Comment) ==> ({
            let m = crate::vm::atom_index::trie_entries(&old(vm).atom_index);
            if m.contains_key("nil"@) {
                r == Ok::<_, LispError>(TypedPointer { tag: DataType::Atom, value: m["nil"@] })
            } else if old(vm).atoms.last < crate::vm::types::ATOM_TABLE_SIZE {
                r is Ok
            } else {
                r matches Err(e) && e.kind is AtomTableAllocation
            }
        }),
    decreases expr, 1int,
{
    let ghost expr0 = expr;
    match expr {
        Expr::Atom(ae) => build_atom_ast(vm, ae),
        Expr::Prefixed(prefix, inner) => {
            let inner_ptr = build_ast(vm, *inner)?;
            let ghost vm1 = *vm;
            let head = match prefix {
                PrefixType::Quote => vm.make_atom("quote")?,
                PrefixType::Quasiquote => vm.make_atom("quasiquote")?,
                PrefixType::Unquote => vm.make_atom("unquote")?,
                PrefixType::UnquoteSplice => vm.make_atom("unquote-splice")?,
            };
            let tail = vm.make_cons()?;
            vm.set_car(&tail, inner_ptr)?;
            vm.set_cdr(&tail, ConstSymbol::nil())?;
            let cell = vm.make_cons()?;
            vm.set_car(&cell, head)?;
            vm.set_cdr(&cell, tail)?;
            proof {
                if old(vm).numbers.unused@.len() == 0 {
                    lemma_tree_preserved(&vm1, vm, inner_ptr, *expr0->Prefixed_1);
                }
            }
            Ok(cell)
        },
        Expr::List(exprs) => build_list_chain(vm, exprs, Ghost(expr0)),
        Expr::DottedList(exprs) => build_dotted_chain(vm, exprs, Ghost(expr0)),
        Expr::Vector(_) => Err(LispError::internal("vector storage not implemented")),
        Expr::Cons(boxed_car, boxed_cdr) => {
            let car_ptr = build_ast(vm, *boxed_car)?;
            let ghost vm1 = *vm;
            let cdr_ptr = build_ast(vm, *boxed_cdr)?;
            let ghost vm2 = *vm;
            let cell = vm.make_cons()?;
            vm.set_car(&cell, car_ptr)?;
            vm.set_cdr(&cell, cdr_ptr)?;
            proof {
                if old(vm).numbers.unused@.len() == 0 {
                    lemma_tree_preserved(&vm1, vm, car_ptr, *expr0->Cons_0);
                    lemma_tree_preserved(&vm2, vm, cdr_ptr, *expr0->Cons_1);
                }
            }
            Ok(cell)
        },
        Expr::Comment(_) => vm.make_atom("nil"),
    }
}

/// The nil-terminated chain for a list's elements, built from the last
/// element back to the first.
fn build_list_chain(vm: &mut VirtualMachine, exprs: Vec<Expr>, Ghost(whole): Ghost<Expr>) -> (r:
    LispResult<TypedPointer>)
    requires
        old(vm).wf(),
        whole == Expr::List(exprs),
    ensures
        final(vm).wf(),
        final(vm).registers == old(vm).registers,
        final(vm).stack == old(vm).stack,
        final(vm).environments == old(vm).environments,
        grows_preserving(old(vm), final(vm)),
        old(vm).numbers.unused@.len() == 0 ==> final(vm).numbers.unused@.len() == 0
            && numbers_preserved(old(vm), final(vm)),
        r matches Ok(p) ==> (old(vm).numbers.unused@.len() == 0 ==> tree_at(final(vm), p, whole)),
        exprs@.len() == 0 ==> r == Ok::<_, LispError>(ConstSymbol::spec_nil()),
    decreases whole, 0int,
{
    let ghost es0 = exprs@;
    let mut es = exprs;
    let mut chain = ConstSymbol::nil();
    while es.len() > 0
        invariant
            vm.wf(),
            whole == Expr::List(exprs),
            es0 == exprs@,
            es@ =~= es0.take(es@.len() as int),
            es@.len() <= es0.len(),
            vm.registers == old(vm).registers,
            vm.stack == old(vm).stack,
            vm.environments == old(vm).environments,
            grows_preserving(old(vm), vm),
            old(vm).numbers.unused@.len() == 0 ==> vm.numbers.unused@.len() == 0
                && numbers_preserved(old(vm), vm),
            old(vm).numbers.unused@.len() == 0 ==> (if es@.len() == es0.len() {
                chain == ConstSymbol::spec_nil()
            } else {
                list_tree_at(vm, chain, es0, es@.len() as int)
            }),
            es0.len() == 0 ==> chain == ConstSymbol::spec_nil(),
        decreases es@.len(),
    {
        let ghost k = es@.len() as int;
        let e = match es.pop() {
            Some(e) => e,
            None => {
                return Err(LispError::internal("expression error"));
            },
        };
        proof {
            assert(e == es0[k - 1]);
            assert(es@ =~= es0.take(k - 1));
            assert(e == whole->List_0@[k - 1]);
            assert(decreases_to!(whole => whole->List_0));
            assert(decreases_to!(whole->List_0 => e));
        }
        let ghost vm_before = *vm;
        let child = build_ast(vm, e)?;
        let ghost vm_mid = *vm;
        let cell = vm.make_cons()?;
        vm.set_car(&cell, child)?;
        vm.set_cdr(&cell, chain)?;
        proof {
            if old(vm).numbers.unused@.len() == 0 {
                lemma_tree_preserved(&vm_mid, vm, child, es0[k - 1]);
                if k < es0.len() {
                    lemma_list_tree_preserved(&vm_before, vm, chain, es0, k);
                }
            }
        }
        chain = cell;
    }
    proof {
        if old(vm).numbers.unused@.len() == 0 && es0.len() > 0 {
            assert(list_tree_at(vm, chain, es0, 0));
        }
    }
    Ok(chain)
}

/// The chain for a dotted list: the last element becomes the final cdr;
/// fewer than two elements is an error.
fn build_dotted_chain(vm: &mut VirtualMachine, exprs: Vec<Expr>, Ghost(whole): Ghost<Expr>) -> (r:
    LispResult<TypedPointer>)
    requires
        old(vm).wf(),
        whole == Expr::DottedList(exprs),
    ensures
        final(vm).wf(),
        final(vm).registers == old(vm).registers,
        final(vm).stack == old(vm).stack,
        final(vm).environments == old(vm).environments,
        grows_preserving(old(vm), final(vm)),
        old(vm).numbers.unused@.len() == 0 ==> final(vm).numbers.unused@.len() == 0
            && numbers_preserved(old(vm), final(vm)),
        r matches Ok(p) ==> (old(vm).numbers.unused@.len() == 0 ==> tree_at(final(vm), p, whole)),
    decreases whole, 0int,
{
    let ghost es0 = exprs@;
    let mut es = exprs;
    if es.len() < 2 {
        return Err(LispError::internal("dotted list requires at least two elements"));
    }
    let fin = match es.pop() {
        Some(e) => e,
        None => {
            return Err(LispError::internal("expression error"));
        },
    };
    proof {
        assert(fin == whole->DottedList_0@[es0.len() - 1]);
        assert(decreases_to!(whole => whole->DottedList_0));
        assert(decreases_to!(whole->DottedList_0 => fin));
    }
    let mut chain = build_ast(vm, fin)?;
    while es.len() > 0
        invariant
            vm.wf(),
            whole == Expr::DottedList(exprs),
            es0 == exprs@,
            es0.len() >= 2,
            es@ =~= es0.take(es@.len() as int),
            1 <= es@.len() + 1 <= es0.len(),
            vm.registers == old(vm).registers,
            vm.stack == old(vm).stack,
            vm.environments == old(vm).environments,
            grows_preserving(old(vm), vm),
            old(vm).numbers.unused@.len() == 0 ==> vm.numbers.unused@.len() == 0
                && numbers_preserved(old(vm), vm),
            old(vm).numbers.unused@.len() == 0 ==> (if es@.len() == es0.len() - 1 {
                tree_at(vm, chain, es0[es0.len() - 1])
            } else {
                dotted_tree_at(vm, chain, es0, es@.len() as int)
            }),
        decreases es@.len(),
    {
        let ghost k = es@.len() as int;
        let e = match es.pop() {
            Some(e) => e,
            None => {
                return Err(LispError::internal("expression error"));
            },
        };
        proof {
            assert(e == es0[k - 1]);
            assert(es@ =~= es0.take(k - 1));
            assert(e == whole->DottedList_0@[k - 1]);
            assert(decreases_to!(whole => whole->DottedList_0));
            assert(decreases_to!(whole->DottedList_0 => e));
        }
        let ghost vm_before = *vm;
        let child = build_ast(vm, e)?;
        let ghost vm_mid = *vm;
        let cell = vm.make_cons()?;
        vm.set_car(&cell, child)?;
        vm.set_cdr(&cell, chain)?;
        proof {
            if old(vm).numbers.unused@.len() == 0 {
                lemma_tree_preserved(&vm_mid, vm, child, es0[k - 1]);
                if k == es0.len() - 1 {
                    lemma_tree_preserved(&vm_before, vm, chain, es0[es0.len() - 1]);
                } else {
                    lemma_dotted_tree_preserved(&vm_before, vm, chain, es0, k);
                }
            }
        }
        chain = cell;
    }
    proof {
        if old(vm).numbers.unused@.len() == 0 {
            assert(dotted_tree_at(vm, chain, es0, 0));
        }
    }
    Ok(chain)
}

/// The two-element list a reader prefix expands to: the prefix's atom
/// and the expression.
pub fn build_prefixed_ast(
    vm: &mut VirtualMachine,
    prefix: PrefixType,
    expr: Expr,
) -> (r: LispResult<TypedPointer>)
    requires
        old(vm).wf(),
    ensures
        final(vm).wf(),
        final(vm).registers == old(vm).registers,
        final(vm).stack == old(vm).stack,
        final(vm).environments == old(vm).environments,
        grows_preserving(old(vm), final(vm)),
        r matches Ok(p) ==> (old(vm).numbers.unused@.len() == 0 ==> tree_at(
            final(vm),
            p,
            Expr::Prefixed(prefix, Box::new(expr)),
        )),
{
    build_ast(vm, Expr::Prefixed(prefix, Box::new(expr)))
}

} // verus!

// What a built graph prints back as: the canonical surface text of the
// expression it was built from.

use crate::printer::{
    dec_i64_text, lemma_spec_format_list_mono, lemma_spec_format_mono, spec_format,
    spec_format_list, spec_num_text,
};

verus! {

/// The canonical text of a numeric literal.
pub open spec fn num_expr_text(ne: NumberExpr) -> Seq<char>
    decreases ne,
{
    match ne {
        NumberExpr::Integer(i) => dec_i64_text(i as int),
        NumberExpr::Float(s) => s@,
        NumberExpr::Fraction(a, b) => dec_i64_text(a as int) + "/"@ + dec_i64_text(b as int),
        NumberExpr::Complex(re, im) => num_expr_text(*re) + "J"@ + num_expr_text(*im),
    }
}

/// A matching numeric cell prints the literal's canonical text.
pub proof fn lemma_num_text(n: Number, ne: NumberExpr)
    requires
        num_matches(n, ne),
    ensures
        spec_num_text(n) == num_expr_text(ne),
    decreases ne,
{
    match ne {
        NumberExpr::Complex(re, im) => {
            match n {
                Number::Complex(nr, ni) => {
                    lemma_num_text(*nr, *re);
                    lemma_num_text(*ni, *im);
                },
                _ => {},
            }
        },
        _ => {},
    }
}

/// Whether the builder turns the expression into a cons cell.
pub open spec fn is_cons_shaped(e: Expr) -> bool {
    match e {
        Expr::Prefixed(_, _) => true,
        Expr::List(es) => es@.len() > 0,
        Expr::DottedList(_) => true,
        Expr::Cons(_, _) => true,
        _ => false,
    }
}

/// Whether the builder turns the expression into the `nil` atom.
pub open spec fn is_nil_shaped(e: Expr) -> bool {
    match e {
        Expr::List(es) => es@.len() == 0,
        Expr::Comment(_) => true,
        Expr::Atom(ae) => match ae {
            AtomExpr::Symbol(s) => s@ == "nil"@,
            _ => false,
        },
        _ => false,
    }
}

/// The canonical printed text of a built expression.
pub open spec fn canon_text(e: Expr) -> Seq<char>
    decreases e, 1int,
{
    if is_cons_shaped(e) {
        "("@ + interior_text(e)
    } else {
        match e {
            Expr::Atom(ae) => match ae {
                AtomExpr::Number(ne) => num_expr_text(ne),
                AtomExpr::Symbol(s) => s@,
                AtomExpr::String(_) => Seq::empty(),
            },
            Expr::List(_) => "nil"@,
            Expr::Comment(_) => "nil"@,
            _ => Seq::empty(),
        }
    }
}

/// The printed interior of a cons-shaped expression, after the opening
/// parenthesis.
pub open spec fn interior_text(e: Expr) -> Seq<char>
    decreases e, 0int,
{
    match e {
        Expr::Prefixed(pt, inner) => prefix_name(pt) + " "@ + canon_text(*inner) + ")"@,
        Expr::List(es) => list_interior(es@, 0),
        Expr::DottedList(es) => dotted_interior(es@, 0),
        Expr::Cons(a, d) => canon_text(*a) + tail_text(*d),
        _ => Seq::empty(),
    }
}

/// How the cdr of a cell prints: continuing the chain, closing at `nil`,
/// or as a dotted tail.
pub open spec fn tail_text(d: Expr) -> Seq<char>
    decreases d, 2int,
{
    if is_cons_shaped(d) {
        " "@ + interior_text(d)
    } else if is_nil_shaped(d) {
        ")"@
    } else {
        " . "@ + canon_text(d) + ")"@
    }
}

/// The interior of a proper list from element `i` on.
pub open spec fn list_interior(es: Seq<Expr>, i: int) -> Seq<char>
    decreases es, es.len() - i,
{
    if i < 0 || i >= es.len() {
        Seq::empty()
    } else if i == es.len() - 1 {
        canon_text(es[i]) + ")"@
    } else {
        canon_text(es[i]) + " "@ + list_interior(es, i + 1)
    }
}

/// The interior of a dotted list from element `i` on.
pub open spec fn dotted_interior(es: Seq<Expr>, i: int) -> Seq<char>
    decreases es, es.len() - i,
{
    if i < 0 || i >= es.len() - 1 {
        Seq::empty()
    } else if i == es.len() - 2 {
        canon_text(es[i]) + tail_text(es[es.len() - 1])
    } else {
        canon_text(es[i]) + " "@ + dotted_interior(es, i + 1)
    }
}

/// Printing fuel that suffices for a built expression.
pub open spec fn print_fuel(e: Expr) -> nat
    decreases e, 1int,
{
    if is_cons_shaped(e) {
        interior_fuel(e) + 1
    } else {
        1
    }
}

pub open spec fn interior_fuel(e: Expr) -> nat
    decreases e, 0int,
{
    match e {
        Expr::Prefixed(_, inner) => print_fuel(*inner) + 3,
        Expr::List(es) => seq_fuel(es@, 0),
        Expr::DottedList(es) => dotted_fuel(es@, 0),
        Expr::Cons(a, d) => print_fuel(*a) + print_fuel(*d) + 2,
        _ => 1,
    }
}

pub open spec fn seq_fuel(es: Seq<Expr>, i: int) -> nat
    decreases es, es.len() - i,
{
    if i < 0 || i >= es.len() {
        1
    } else {
        print_fuel(es[i]) + seq_fuel(es, i + 1) + 1
    }
}

pub open spec fn dotted_fuel(es: Seq<Expr>, i: int) -> nat
    decreases es, es.len() - i,
{
    if i < 0 || i >= es.len() - 1 {
        1
    } else if i == es.len() - 2 {
        print_fuel(es[i]) + print_fuel(es[es.len() - 1]) + 2
    } else {
        print_fuel(es[i]) + dotted_fuel(es, i + 1) + 1
    }
}

/// The machine knows the atom `nil` at slot 0, as a seeded machine does.
pub open spec fn nil_interned(vm: &VirtualMachine) -> bool {
    vm.atoms.last > 0 && vm.atoms.area@[0].name@ == "nil"@
}

/// An atom pointer named `nil` is slot 0, by uniqueness of names.
proof fn lemma_nil_atom_is_zero(vm: &VirtualMachine, p: TypedPointer)
    requires
        vm.wf(),
        nil_interned(vm),
        p.tag == DataType::Atom,
        p.value < vm.atoms.last,
        vm.atoms.area@[p.value as int].name@ == "nil"@,
    ensures
        p == ConstSymbol::spec_nil(),
{
    let m = crate::vm::atom_index::trie_entries(&vm.atom_index);
    assert(m.contains_key(vm.atoms.area@[0].name@) && m[vm.atoms.area@[0].name@] == 0usize);
    assert(m.contains_key(vm.atoms.area@[p.value as int].name@) && m[vm.atoms.area@[p.value
        as int].name@] == p.value);
}

/// The cdr built for `d` is a cons cell exactly when `d` is cons-shaped,
/// and the `nil` atom exactly when `d` is nil-shaped.
proof fn lemma_tail_shape(vm: &VirtualMachine, q: TypedPointer, d: Expr)
    requires
        vm.wf(),
        nil_interned(vm),
        tree_at(vm, q, d),
    ensures
        is_cons_shaped(d) ==> q.tag == DataType::Cons && q.value < vm.lists.last,
        is_nil_shaped(d) ==> q == ConstSymbol::spec_nil(),
        !is_cons_shaped(d) && !is_nil_shaped(d) ==> q.tag != DataType::Cons && q
            != ConstSymbol::spec_nil(),
{
    match d {
        Expr::Atom(ae) => {
            match ae {
                AtomExpr::Symbol(s) => {
                    if s@ == "nil"@ {
                        lemma_nil_atom_is_zero(vm, q);
                    } else {
                        if q == ConstSymbol::spec_nil() {
                            assert(vm.atoms.area@[0].name@ == s@);
                        }
                    }
                },
                _ => {},
            }
        },
        Expr::Comment(_) => {
            lemma_nil_atom_is_zero(vm, q);
        },
        Expr::List(es) => {
            if es@.len() > 0 {
                assert(list_tree_at(vm, q, es@, 0));
                assert(q.tag == DataType::Cons && q.value < vm.lists.last);
            }
        },
        Expr::DottedList(es) => {
            assert(dotted_tree_at(vm, q, es@, 0));
            assert(q.tag == DataType::Cons && q.value < vm.lists.last);
        },
        _ => {},
    }
}

/// The build-print round trip, print side: a graph built for an
/// expression prints back as the expression's canonical surface text.
pub proof fn lemma_tree_prints(vm: &VirtualMachine, p: TypedPointer, e: Expr)
    requires
        vm.wf(),
        nil_interned(vm),
        tree_at(vm, p, e),
    ensures
        spec_format(vm, p, print_fuel(e)) == Some(canon_text(e)),
    decreases e, 1int,
{
    if is_cons_shaped(e) {
        lemma_tail_shape(vm, p, e);
        lemma_interior_prints(vm, p, e);
        lemma_spec_format_list_mono(vm, p, interior_fuel(e), (print_fuel(e) - 1) as nat);
    } else {
        match e {
            Expr::Atom(ae) => {
                match ae {
                    AtomExpr::Number(ne) => {
                        lemma_num_text(vm.numbers.area@[p.value as int], ne);
                    },
                    _ => {},
                }
            },
            Expr::List(_) => {
                assert(vm.atoms.area@[0].name@ == "nil"@);
            },
            Expr::Comment(_) => {},
            _ => {},
        }
    }
}

/// The interior of a cons-shaped expression prints as `interior_text`.
proof fn lemma_interior_prints(vm: &VirtualMachine, p: TypedPointer, e: Expr)
    requires
        vm.wf(),
        nil_interned(vm),
        tree_at(vm, p, e),
        is_cons_shaped(e),
    ensures
        spec_format_list(vm, p, interior_fuel(e)) == Some(interior_text(e)),
    decreases e, 0int,
{
    let fuel = interior_fuel(e);
    let car = vm.lists.area@[p.value as int].car;
    let cdr = vm.lists.area@[p.value as int].cdr;
    match e {
        Expr::Prefixed(pt, inner) => {
            // The head atom prints its name.
            assert(spec_format(vm, car, (fuel - 1) as nat) == Some(prefix_name(pt)));
            // The second cell holds the inner expression and closes.
            let inner_fuel = print_fuel(*inner);
            lemma_tree_prints(vm, vm.lists.area@[cdr.value as int].car, *inner);
            lemma_spec_format_mono(
                vm,
                vm.lists.area@[cdr.value as int].car,
                inner_fuel,
                (fuel - 2) as nat,
            );
            assert(spec_format_list(vm, cdr, (fuel - 1) as nat) == Some(
                canon_text(*inner) + ")"@,
            ));
            assert(prefix_name(pt) + " "@ + (canon_text(*inner) + ")"@) =~= prefix_name(pt) + " "@
                + canon_text(*inner) + ")"@);
        },
        Expr::List(es) => {
            lemma_list_prints(vm, p, es@, 0);
        },
        Expr::DottedList(es) => {
            lemma_dotted_prints(vm, p, es@, 0);
        },
        Expr::Cons(a, d) => {
            lemma_tree_prints(vm, car, *a);
            lemma_spec_format_mono(vm, car, print_fuel(*a), (fuel - 1) as nat);
            lemma_tail_prints(vm, cdr, *d, fuel);
        },
        _ => {},
    }
}

/// The tail after a printed car: the cdr built for `d` continues the
/// chain, closes at `nil`, or prints dotted.
proof fn lemma_tail_prints(vm: &VirtualMachine, q: TypedPointer, d: Expr, fuel: nat)
    requires
        vm.wf(),
        nil_interned(vm),
        tree_at(vm, q, d),
        fuel >= print_fuel(d) + 1,
    ensures
        if q.tag == DataType::Cons {
            spec_format_list(vm, q, (fuel - 1) as nat) == Some(interior_text(d)) && tail_text(d)
                == " "@ + interior_text(d)
        } else if q == ConstSymbol::spec_nil() {
            tail_text(d) == ")"@
        } else {
            spec_format(vm, q, (fuel - 1) as nat) == Some(canon_text(d)) && tail_text(d) == " . "@
                + canon_text(d) + ")"@
        },
    decreases d, 3int,
{
    lemma_tail_shape(vm, q, d);
    if is_cons_shaped(d) {
        lemma_interior_prints(vm, q, d);
        lemma_spec_format_list_mono(vm, q, interior_fuel(d), (fuel - 1) as nat);
    } else if is_nil_shaped(d) {
    } else {
        lemma_tree_prints(vm, q, d);
        lemma_spec_format_mono(vm, q, print_fuel(d), (fuel - 1) as nat);
    }
}

/// A proper-list chain prints element by element and closes.
proof fn lemma_list_prints(vm: &VirtualMachine, p: TypedPointer, es: Seq<Expr>, i: int)
    requires
        vm.wf(),
        nil_interned(vm),
        list_tree_at(vm, p, es, i),
    ensures
        spec_format_list(vm, p, seq_fuel(es, i)) == Some(list_interior(es, i)),
    decreases es, es.len() - i,
{
    let fuel = seq_fuel(es, i);
    let car = vm.lists.area@[p.value as int].car;
    let cdr = vm.lists.area@[p.value as int].cdr;
    lemma_tree_prints(vm, car, es[i]);
    lemma_spec_format_mono(vm, car, print_fuel(es[i]), (fuel - 1) as nat);
    if i == es.len() - 1 {
        assert(cdr == ConstSymbol::spec_nil());
    } else {
        lemma_list_prints(vm, cdr, es, i + 1);
        lemma_spec_format_list_mono(vm, cdr, seq_fuel(es, i + 1), (fuel - 1) as nat);
    }
}

/// A dotted chain prints element by element and ends with its tail.
proof fn lemma_dotted_prints(vm: &VirtualMachine, p: TypedPointer, es: Seq<Expr>, i: int)
    requires
        vm.wf(),
        nil_interned(vm),
        dotted_tree_at(vm, p, es, i),
    ensures
        spec_format_list(vm, p, dotted_fuel(es, i)) == Some(dotted_interior(es, i)),
    decreases es, es.len() - i,
{
    let fuel = dotted_fuel(es, i);
    let car = vm.lists.area@[p.value as int].car;
    let cdr = vm.lists.area@[p.value as int].cdr;
    lemma_tree_prints(vm, car, es[i]);
    lemma_spec_format_mono(vm, car, print_fuel(es[i]), (fuel - 1) as nat);
    if i == es.len() - 2 {
        lemma_tail_prints(vm, cdr, es[es.len() - 1], fuel);
    } else {
        lemma_dotted_prints(vm, cdr, es, i + 1);
        lemma_spec_format_list_mono(vm, cdr, dotted_fuel(es, i + 1), (fuel - 1) as nat);
    }
}

} // verus!
