//! The cons area: allocation and the car/cdr accessors.

use crate::vm::constants::ConstSymbol;
use crate::vm::error::{LispError, LispResult};
use crate::vm::types::{Cons, DataType, TypedPointer, VirtualMachine, LIST_AREA_SIZE};
use vstd::prelude::*;

verus! {

/// Whether `p` names an allocated cons cell.
pub open spec fn cons_valid(vm: &VirtualMachine, p: TypedPointer) -> bool {
    p.tag == DataType::Cons && p.value < vm.lists.last
}

/// The car of an allocated cons cell.
pub open spec fn car_of(vm: &VirtualMachine, p: TypedPointer) -> TypedPointer {
    vm.lists.area@[p.value as int].car
}

/// The cdr of an allocated cons cell.
pub open spec fn cdr_of(vm: &VirtualMachine, p: TypedPointer) -> TypedPointer {
    vm.lists.area@[p.value as int].cdr
}

/// `p` is a proper list whose cars, in walk order, are exactly `s`.
pub open spec fn is_chain(vm: &VirtualMachine, p: TypedPointer, s: Seq<TypedPointer>) -> bool
    decreases s.len(),
{
    if s.len() == 0 {
        p == crate::vm::constants::ConstSymbol::spec_nil()
    } else {
        &&& cons_valid(vm, p)
        &&& car_of(vm, p) == s.first()
        &&& is_chain(vm, cdr_of(vm, p), s.drop_first())
    }
}

/// A chain reads only the cons area.
pub proof fn lemma_chain_same(
    vm1: &VirtualMachine,
    vm2: &VirtualMachine,
    p: TypedPointer,
    s: Seq<TypedPointer>,
)
    requires
        vm1.lists == vm2.lists,
    ensures
        is_chain(vm1, p, s) == is_chain(vm2, p, s),
    decreases s.len(),
{
    if s.len() > 0 && cons_valid(vm1, p) {
        lemma_chain_same(vm1, vm2, cdr_of(vm1, p), s.drop_first());
    }
}

impl VirtualMachine {
    /// The cars of the proper list `p`, in order.  Walks the chain; an
    /// error exactly where `get_car`/`get_cdr` would fail.  A proper list
    /// is always walked in full: when some `s` is the chain at `p`, the
    /// call returns exactly `s`.
    pub fn list_to_vec(&self, p: TypedPointer) -> (r: LispResult<Vec<TypedPointer>>)
        requires
            self.wf(),
        ensures
            r matches Ok(v) ==> is_chain(self, p, v@),
            forall|s: Seq<TypedPointer>|
                #[trigger] is_chain(self, p, s) && s.len() <= LIST_AREA_SIZE ==> (r matches Ok(v)
                    && v@ == s),
    {
        let nil = ConstSymbol::nil();
        let mut v: Vec<TypedPointer> = Vec::new();
        let mut cur = p;
        proof {
            assert forall|s: Seq<TypedPointer>| #[trigger] is_chain(self, p, s) implies s.take(0)
                == v@ && is_chain(self, cur, s.skip(0)) by {
                assert(s.take(0) =~= v@);
                assert(s.skip(0) =~= s);
            }
        }
        loop
            invariant
                self.wf(),
                nil == ConstSymbol::spec_nil(),
                v@.len() <= LIST_AREA_SIZE,
                forall|tail: Seq<TypedPointer>|
                    is_chain(self, cur, tail) ==> #[trigger] is_chain(self, p, v@ + tail),
                forall|s: Seq<TypedPointer>|
                    #[trigger] is_chain(self, p, s) ==> s.len() >= v@.len() && s.take(
                        v@.len() as int,
                    ) == v@ && is_chain(self, cur, s.skip(v@.len() as int)),
            decreases LIST_AREA_SIZE - v@.len(),
        {
            if cur.tag == nil.tag && cur.value == nil.value {
                proof {
                    assert(is_chain(self, cur, Seq::<TypedPointer>::empty()));
                    assert(is_chain(self, p, v@ + Seq::<TypedPointer>::empty()));
                    assert(v@ + Seq::<TypedPointer>::empty() =~= v@);
                    assert forall|s: Seq<TypedPointer>| #[trigger] is_chain(self, p, s) implies s
                        == v@ by {
                        if s.len() > v@.len() {
                            assert(is_chain(self, cur, s.skip(v@.len() as int)));
                            assert(s.skip(v@.len() as int).len() > 0);
                        }
                        assert(s.len() == v@.len());
                        assert(s.take(v@.len() as int) =~= s);
                    }
                }
                return Ok(v);
            }
            if v.len() >= LIST_AREA_SIZE {
                // Nothing proper is longer than the cons area: the chain
                // must be cyclic or end improperly.
                proof {
                    assert forall|s: Seq<TypedPointer>| !(#[trigger] is_chain(self, p, s)
                        && s.len() <= LIST_AREA_SIZE) by {
                        if is_chain(self, p, s) && s.len() <= LIST_AREA_SIZE {
                            assert(s.len() >= v@.len());
                            assert(s.len() == v@.len());
                            assert(is_chain(self, cur, s.skip(v@.len() as int)));
                            assert(s.skip(v@.len() as int).len() == 0);
                        }
                    }
                }
                return Err(LispError::internal("attempted to walk a cyclic list"));
            }
            proof {
                assert forall|s: Seq<TypedPointer>| !(#[trigger] is_chain(self, p, s)) || s.len()
                    > v@.len() by {
                    if is_chain(self, p, s) && s.len() == v@.len() {
                        assert(is_chain(self, cur, s.skip(v@.len() as int)));
                        assert(s.skip(v@.len() as int).len() == 0);
                    }
                }
            }
            let car = self.get_car(&cur)?;
            let cdr = self.get_cdr(&cur)?;
            let ghost prev = cur;
            let ghost v0 = v@;
            v.push(car);
            cur = cdr;
            proof {
                assert forall|tail: Seq<TypedPointer>| is_chain(self, cur, tail) implies
                #[trigger] is_chain(self, p, v@ + tail) by {
                    let full = seq![car] + tail;
                    assert(full.first() == car);
                    assert(full.drop_first() =~= tail);
                    assert(is_chain(self, cdr, full.drop_first()));
                    assert(is_chain(self, prev, full));
                    assert(is_chain(self, p, v0 + full));
                    assert(v0 + full =~= v@ + tail);
                }
                assert forall|s: Seq<TypedPointer>| #[trigger] is_chain(self, p, s) implies s.len()
                    >= v@.len() && s.take(v@.len() as int) == v@ && is_chain(
                    self,
                    cur,
                    s.skip(v@.len() as int),
                ) by {
                    let rest = s.skip(v0.len() as int);
                    assert(is_chain(self, prev, rest));
                    assert(rest.len() > 0);
                    assert(rest.first() == car_of(self, prev));
                    assert(s[v0.len() as int] == rest.first());
                    assert(is_chain(self, cdr_of(self, prev), rest.drop_first()));
                    assert(rest.drop_first() =~= s.skip(v@.len() as int));
                    assert(s.take(v@.len() as int) =~= s.take(v0.len() as int).push(
                        s[v0.len() as int],
                    ));
                }
            }
        }
    }
}

impl VirtualMachine {
    /// Allocates a fresh pair, car and cdr left undefined; an error
    /// exactly when the cons area is full.
    pub fn make_cons(&mut self) -> (r: LispResult<TypedPointer>)
        requires
            old(self).wf(),
        ensures
            final(self).wf(),
            final(self).registers == old(self).registers,
            final(self).stack == old(self).stack,
            final(self).atoms == old(self).atoms,
            final(self).numbers == old(self).numbers,
            final(self).environments == old(self).environments,
            final(self).atom_index == old(self).atom_index,
            final(self).lists.area == old(self).lists.area,
            if old(self).lists.last < LIST_AREA_SIZE {
                &&& r == Ok::<_, LispError>(
                    TypedPointer { tag: DataType::Cons, value: old(self).lists.last },
                )
                &&& final(self).lists.last == old(self).lists.last + 1
                &&& final(self).lists.area@[old(self).lists.last as int] == (Cons {
                    marked: 0,
                    car: TypedPointer { tag: DataType::Undefined, value: 0 },
                    cdr: TypedPointer { tag: DataType::Undefined, value: 0 },
                })
            } else {
                &&& r matches Err(e) && e.kind is ListAreaAllocation
                &&& final(self).lists.last == old(self).lists.last
            },
    {
        let ptr = self.lists.last;
        if ptr >= LIST_AREA_SIZE {
            Err(LispError::list_area_allocation())
        } else {
            self.lists.last = self.lists.last + 1;
            Ok(TypedPointer::new(DataType::Cons, ptr))
        }
    }

    /// Stores `value` as the car of the cell; an error exactly when the
    /// pointer is not an allocated cons cell.
    pub fn set_car(&mut self, cons: &TypedPointer, value: TypedPointer) -> (r: LispResult<()>)
        requires
            old(self).wf(),
        ensures
            final(self).wf(),
            final(self).registers == old(self).registers,
            final(self).stack == old(self).stack,
            final(self).atoms == old(self).atoms,
            final(self).numbers == old(self).numbers,
            final(self).environments == old(self).environments,
            final(self).atom_index == old(self).atom_index,
            final(self).lists.last == old(self).lists.last,
            if cons_valid(old(self), *cons) {
                &&& r is Ok
                &&& final(self).lists.area@ == old(self).lists.area@.update(
                    cons.value as int,
                    Cons {
                        marked: old(self).lists.area@[cons.value as int].marked,
                        car: value,
                        cdr: old(self).lists.area@[cons.value as int].cdr,
                    },
                )
            } else {
                &&& r matches Err(e) && e.kind is Internal
                &&& final(self).lists.area == old(self).lists.area
            },
    {
        if cons.tag != DataType::Cons {
            return Err(LispError::internal("attempted to set CAR/CDR of non-cons"));
        }
        if cons.value >= self.lists.last {
            return Err(LispError::internal("attempted to set CAR/CDR of unallocated cons"));
        }
        self.lists.area[cons.value].car = value;
        Ok(())
    }

    /// Stores `value` as the cdr of the cell; an error exactly when the
    /// pointer is not an allocated cons cell.
    pub fn set_cdr(&mut self, cons: &TypedPointer, value: TypedPointer) -> (r: LispResult<()>)
        requires
            old(self).wf(),
        ensures
            final(self).wf(),
            final(self).registers == old(self).registers,
            final(self).stack == old(self).stack,
            final(self).atoms == old(self).atoms,
            final(self).numbers == old(self).numbers,
            final(self).environments == old(self).environments,
            final(self).atom_index == old(self).atom_index,
            final(self).lists.last == old(self).lists.last,
            if cons_valid(old(self), *cons) {
                &&& r is Ok
                &&& final(self).lists.area@ == old(self).lists.area@.update(
                    cons.value as int,
                    Cons {
                        marked: old(self).lists.area@[cons.value as int].marked,
                        car: old(self).lists.area@[cons.value as int].car,
                        cdr: value,
                    },
                )
            } else {
                &&& r matches Err(e) && e.kind is Internal
                &&& final(self).lists.area == old(self).lists.area
            },
    {
        if cons.tag != DataType::Cons {
            return Err(LispError::internal("attempted to set CAR/CDR of non-cons"));
        }
        if cons.value >= self.lists.last {
            return Err(LispError::internal("attempted to set CAR/CDR of unallocated cons"));
        }
        self.lists.area[cons.value].cdr = value;
        Ok(())
    }

    /// The car of the cell; an error exactly when the pointer is not an
    /// allocated cons cell.
    pub fn get_car(&self, cons: &TypedPointer) -> (r: LispResult<TypedPointer>)
        requires
            self.wf(),
        ensures
            if cons_valid(self, *cons) {
                r == Ok::<_, LispError>(car_of(self, *cons))
            } else {
                r matches Err(e) && e.kind is Internal
            },
    {
        if cons.tag != DataType::Cons {
            return Err(LispError::internal("attempted to get CAR/CDR of non-cons"));
        }
        if cons.value >= self.lists.last {
            return Err(LispError::internal("attempted to get CAR/CDR of unallocated cons"));
        }
        Ok(self.lists.area[cons.value].car)
    }

    /// The cdr of the cell; an error exactly when the pointer is not an
    /// allocated cons cell.
    pub fn get_cdr(&self, cons: &TypedPointer) -> (r: LispResult<TypedPointer>)
        requires
            self.wf(),
        ensures
            if cons_valid(self, *cons) {
                r == Ok::<_, LispError>(cdr_of(self, *cons))
            } else {
                r matches Err(e) && e.kind is Internal
            },
    {
        if cons.tag != DataType::Cons {
            return Err(LispError::internal("attempted to get CAR/CDR of non-cons"));
        }
        if cons.value >= self.lists.last {
            return Err(LispError::internal("attempted to get CAR/CDR of unallocated cons"));
        }
        Ok(self.lists.area[cons.value].cdr)
    }

    /// The car of the cdr.
    pub fn get_cadr(&self, cons: &TypedPointer) -> (r: LispResult<TypedPointer>)
        requires
            self.wf(),
        ensures
            if cons_valid(self, *cons) && cons_valid(self, cdr_of(self, *cons)) {
                r == Ok::<_, LispError>(car_of(self, cdr_of(self, *cons)))
            } else {
                r matches Err(e) && e.kind is Internal
            },
    {
        let cdr = self.get_cdr(cons)?;
        self.get_car(&cdr)
    }

    /// The car of the cdr of the cdr.
    pub fn get_caddr(&self, cons: &TypedPointer) -> (r: LispResult<TypedPointer>)
        requires
            self.wf(),
        ensures
            if cons_valid(self, *cons) && cons_valid(self, cdr_of(self, *cons)) && cons_valid(
                self,
                cdr_of(self, cdr_of(self, *cons)),
            ) {
                r == Ok::<_, LispError>(car_of(self, cdr_of(self, cdr_of(self, *cons))))
            } else {
                r matches Err(e) && e.kind is Internal
            },
    {
        let cdr = self.get_cdr(cons)?;
        let cddr = self.get_cdr(&cdr)?;
        self.get_car(&cddr)
    }
}

} // verus!
