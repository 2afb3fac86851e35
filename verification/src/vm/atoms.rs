//! The atom interner and the number table: interning by name, numeric
//! slot allocation with free-list reuse, global value assignment and
//! lookup.

use crate::vm::atom_index::{trie_entries, trie_get, trie_insert};
use crate::vm::error::{LispError, LispResult};
use crate::vm::types::{
    num_clone, Atom, DataType, Number, TypedPointer, VirtualMachine, ATOM_TABLE_SIZE,
    NUMBER_TABLE_SIZE,
};
use vstd::prelude::*;
use vstd::string::StringExecFns;

verus! {

/// What storing `value` as the global value of the interned atom `atom`
/// does to the atom and number tables: an atom holding a number keeps its
/// numeric pointer when the new value is a number (the cell is
/// overwritten in place); giving it a non-number sends the numeric slot
/// to the free queue; any other value is stored directly.
pub open spec fn assign_effect(
    pre: &VirtualMachine,
    post: &VirtualMachine,
    atom: TypedPointer,
    value: TypedPointer,
) -> bool {
    let av = atom.value as int;
    let cur = pre.atoms.area@[av].value;
    if cur.tag == DataType::Number && value.tag != DataType::Number {
        &&& post.atoms.area@ == pre.atoms.area@.update(
            av,
            Atom { name: pre.atoms.area@[av].name, value },
        )
        &&& post.numbers.area == pre.numbers.area
        &&& post.numbers.last == pre.numbers.last
        &&& post.numbers.unused@ == if cur.value < NUMBER_TABLE_SIZE {
            pre.numbers.unused@.push(cur.value)
        } else {
            pre.numbers.unused@
        }
    } else if cur.tag == DataType::Number && value.tag == DataType::Number {
        &&& value.value < NUMBER_TABLE_SIZE
        &&& cur.value < NUMBER_TABLE_SIZE
        &&& post.atoms == pre.atoms
        &&& post.numbers.area@ == pre.numbers.area@.update(
            cur.value as int,
            pre.numbers.area@[value.value as int],
        )
        &&& post.numbers.last == pre.numbers.last
        &&& post.numbers.unused == pre.numbers.unused
    } else {
        &&& post.atoms.area@ == pre.atoms.area@.update(
            av,
            Atom { name: pre.atoms.area@[av].name, value },
        )
        &&& post.numbers == pre.numbers
    }
}

impl VirtualMachine {
    /// Interns `name`.  A name already present returns its existing
    /// pointer and changes nothing; a fresh name takes the next slot,
    /// starting with the undefined value; a fresh name with the table
    /// full is an atom-table allocation error.
    pub fn make_atom(&mut self, name: &str) -> (r: LispResult<TypedPointer>)
        requires
            old(self).wf(),
        ensures
            final(self).wf(),
            final(self).registers == old(self).registers,
            final(self).stack == old(self).stack,
            final(self).numbers == old(self).numbers,
            final(self).lists == old(self).lists,
            final(self).environments == old(self).environments,
            ({
                let m = trie_entries(&old(self).atom_index);
                if m.contains_key(name@) {
                    &&& r == Ok::<_, LispError>(
                        TypedPointer { tag: DataType::Atom, value: m[name@] },
                    )
                    &&& final(self).atoms == old(self).atoms
                    &&& final(self).atom_index == old(self).atom_index
                } else if old(self).atoms.last < ATOM_TABLE_SIZE {
                    &&& r == Ok::<_, LispError>(
                        TypedPointer { tag: DataType::Atom, value: old(self).atoms.last },
                    )
                    &&& final(self).atoms.last == old(self).atoms.last + 1
                    &&& final(self).atoms.area@.len() == old(self).atoms.area@.len()
                    &&& final(self).atoms.area@[old(self).atoms.last as int].name@ == name@
                    &&& final(self).atoms.area@[old(self).atoms.last as int].value == (
                    TypedPointer { tag: DataType::Undefined, value: 0 })
                    &&& forall|i: int|
                        0 <= i < old(self).atoms.area@.len() && i != old(self).atoms.last
                            ==> final(self).atoms.area@[i] == old(self).atoms.area@[i]
                    &&& trie_entries(&final(self).atom_index) == trie_entries(
                        &old(self).atom_index,
                    ).insert(name@, old(self).atoms.last)
                } else {
                    &&& r matches Err(e) && e.kind is AtomTableAllocation
                    &&& final(self).atoms == old(self).atoms
                    &&& final(self).atom_index == old(self).atom_index
                }
            }),
    {
        match trie_get(&self.atom_index, name) {
            Some(idx) => Ok(TypedPointer::new(DataType::Atom, idx)),
            None => {
                if self.atoms.last >= ATOM_TABLE_SIZE {
                    return Err(LispError::atom_table_allocation());
                }
                let ptr = self.atoms.last;
                self.atoms.last = self.atoms.last + 1;
                self.atoms.area[ptr] = Atom {
                    name: String::from_str(name),
                    value: TypedPointer::new(DataType::Undefined, 0),
                };
                trie_insert(&mut self.atom_index, String::from_str(name), ptr);
                proof {
                    let m = trie_entries(&old(self).atom_index);
                    let m2 = trie_entries(&self.atom_index);
                    assert forall|i: int| 0 <= i < self.atoms.last implies m2.contains_key(
                        #[trigger] self.atoms.area@[i].name@,
                    ) && m2[self.atoms.area@[i].name@] == i as usize by {
                        if i < old(self).atoms.last {
                            assert(m.contains_key(old(self).atoms.area@[i].name@));
                        }
                    }
                }
                Ok(TypedPointer::new(DataType::Atom, ptr))
            },
        }
    }

    /// Allocates a numeric cell holding `value`: the oldest free slot is
    /// reused if one exists, otherwise the next fresh slot; with neither
    /// available the call is a number-table allocation error.
    pub fn make_number(&mut self, value: Number) -> (r: LispResult<TypedPointer>)
        requires
            old(self).wf(),
        ensures
            final(self).wf(),
            final(self).registers == old(self).registers,
            final(self).stack == old(self).stack,
            final(self).atoms == old(self).atoms,
            final(self).lists == old(self).lists,
            final(self).environments == old(self).environments,
            final(self).atom_index == old(self).atom_index,
            if old(self).numbers.unused@.len() > 0 {
                &&& r == Ok::<_, LispError>(
                    TypedPointer { tag: DataType::Number, value: old(self).numbers.unused@[0] },
                )
                &&& final(self).numbers.unused@ == old(self).numbers.unused@.subrange(
                    1,
                    old(self).numbers.unused@.len() as int,
                )
                &&& final(self).numbers.area@ == old(self).numbers.area@.update(
                    old(self).numbers.unused@[0] as int,
                    value,
                )
                &&& final(self).numbers.last == old(self).numbers.last
            } else if old(self).numbers.last < NUMBER_TABLE_SIZE {
                &&& r == Ok::<_, LispError>(
                    TypedPointer { tag: DataType::Number, value: old(self).numbers.last },
                )
                &&& final(self).numbers.unused@ == old(self).numbers.unused@
                &&& final(self).numbers.area@ == old(self).numbers.area@.update(
                    old(self).numbers.last as int,
                    value,
                )
                &&& final(self).numbers.last == old(self).numbers.last + 1
            } else {
                &&& r matches Err(e) && e.kind is NumberTableAllocation
                &&& final(self).numbers.unused@ == old(self).numbers.unused@
                &&& final(self).numbers.area == old(self).numbers.area
                &&& final(self).numbers.last == old(self).numbers.last
            },
    {
        match self.numbers.unused.pop_front() {
            Some(idx) => {
                self.numbers.area[idx] = value;
                Ok(TypedPointer::new(DataType::Number, idx))
            },
            None => {
                if self.numbers.last >= NUMBER_TABLE_SIZE {
                    return Err(LispError::number_table_allocation());
                }
                let ptr = self.numbers.last;
                self.numbers.last = self.numbers.last + 1;
                self.numbers.area[ptr] = value;
                Ok(TypedPointer::new(DataType::Number, ptr))
            },
        }
    }

    /// Stores `value` as the atom's global value.  An atom currently
    /// holding a number keeps its numeric pointer when the new value is a
    /// number (the cell is overwritten in place); when the new value is
    /// not a number the numeric slot goes to the free queue.
    pub fn assign_value(&mut self, atom: TypedPointer, value: TypedPointer) -> (r: LispResult<()>)
        requires
            old(self).wf(),
        ensures
            final(self).wf(),
            final(self).registers == old(self).registers,
            final(self).stack == old(self).stack,
            final(self).lists == old(self).lists,
            final(self).environments == old(self).environments,
            final(self).atom_index == old(self).atom_index,
            final(self).atoms.last == old(self).atoms.last,
            final(self).atoms.area@.len() == old(self).atoms.area@.len(),
            forall|i: int|
                0 <= i < old(self).atoms.area@.len() ==> (#[trigger] final(self).atoms.area@[i]).name
                    == old(self).atoms.area@[i].name,
            if atom.tag != DataType::Atom || atom.value >= old(self).atoms.last {
                &&& r matches Err(e) && e.kind is Internal
                &&& final(self).atoms == old(self).atoms
                &&& final(self).numbers == old(self).numbers
            } else {
                let cur = old(self).atoms.area@[atom.value as int].value;
                if cur.tag == DataType::Number && value.tag == DataType::Number && !(value.value
                    < NUMBER_TABLE_SIZE && cur.value < NUMBER_TABLE_SIZE) {
                    &&& r matches Err(e) && e.kind is Internal
                    &&& final(self).atoms == old(self).atoms
                    &&& final(self).numbers == old(self).numbers
                } else {
                    &&& r is Ok
                    &&& assign_effect(old(self), final(self), atom, value)
                }
            },
    {
        if atom.tag != DataType::Atom {
            return Err(LispError::internal("attempted to assign value to non-atom"));
        }
        if atom.value >= self.atoms.last {
            return Err(LispError::internal("attempted to assign to unallocated atom"));
        }
        let cur = self.atoms.area[atom.value].value;
        if cur.tag == DataType::Number {
            if value.tag != DataType::Number {
                // The abandoned numeric slot is reclaimed.
                if cur.value < NUMBER_TABLE_SIZE {
                    self.numbers.unused.push_back(cur.value);
                }
                self.atoms.area[atom.value].value = value;
            } else {
                // Copy the number into the existing slot, preserving the
                // atom's numeric pointer.
                if value.value >= NUMBER_TABLE_SIZE || cur.value >= NUMBER_TABLE_SIZE {
                    return Err(LispError::internal("attempted to copy an unallocated number"));
                }
                let n = num_clone(&self.numbers.area[value.value]);
                self.numbers.area[cur.value] = n;
            }
        } else {
            self.atoms.area[atom.value].value = value;
        }
        Ok(())
    }

    /// The atom's global value; an error exactly when the pointer is not
    /// an interned atom.
    pub fn lookup_atom_value(&self, atom: TypedPointer) -> (r: LispResult<TypedPointer>)
        requires
            self.wf(),
        ensures
            if atom.tag == DataType::Atom && atom.value < self.atoms.last {
                r == Ok::<_, LispError>(self.atoms.area@[atom.value as int].value)
            } else {
                r matches Err(e) && e.kind is Internal
            },
    {
        if atom.tag != DataType::Atom {
            return Err(LispError::internal("attempted to lookup value of non-atom"));
        }
        if atom.value >= self.atoms.last {
            return Err(LispError::internal(
                "attempted to lookup assigned value of unallocated atom",
            ));
        }
        Ok(self.atoms.area[atom.value].value)
    }
}

} // verus!
