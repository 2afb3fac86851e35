//! The evaluation stack: push, peek, pop, and unwinding to a marker.

use crate::vm::error::{LispError, LispResult};
use crate::vm::types::{DataType, TypedPointer, VirtualMachine, LISP_STACK_SIZE};
use vstd::prelude::*;

verus! {

/// The index of the topmost occurrence of `marker` in `s`, if any.
pub open spec fn top_marker_index(s: Seq<TypedPointer>, marker: TypedPointer) -> Option<int>
    decreases s.len(),
{
    if s.len() == 0 {
        None
    } else if s.last() == marker {
        Some(s.len() - 1)
    } else {
        top_marker_index(s.drop_last(), marker)
    }
}

pub proof fn lemma_top_marker_index(s: Seq<TypedPointer>, marker: TypedPointer)
    ensures
        match top_marker_index(s, marker) {
            Some(j) => 0 <= j < s.len() && s[j] == marker && (forall|k: int|
                j < k < s.len() ==> s[k] != marker),
            None => forall|k: int| 0 <= k < s.len() ==> s[k] != marker,
        },
    decreases s.len(),
{
    if s.len() > 0 && s.last() != marker {
        lemma_top_marker_index(s.drop_last(), marker);
        assert forall|k: int| 0 <= k < s.len() - 1 implies s.drop_last()[k] == s[k] by {}
    }
}

impl VirtualMachine {
    /// Pushes a pointer; fails with a stack overflow exactly when the
    /// stack is full.
    pub fn stack_push(&mut self, ptr: TypedPointer) -> (r: LispResult<()>)
        requires
            old(self).wf(),
        ensures
            final(self).wf(),
            old(self).stack.last < LISP_STACK_SIZE ==> r is Ok && final(self).stack.last == old(self).stack.last + 1 && final(self).stack.area@ == old(self).stack.area@.update(
                old(self).stack.last as int,
                ptr,
            ),
            old(self).stack.last >= LISP_STACK_SIZE ==> r is Err && (r matches Err(e)
                && e.kind is StackOverflow) && final(self).stack.last == old(self).stack.last
                && final(self).stack.area == old(self).stack.area,
            final(self).registers == old(self).registers,
            final(self).atoms == old(self).atoms,
            final(self).numbers == old(self).numbers,
            final(self).lists == old(self).lists,
            final(self).environments == old(self).environments,
            final(self).atom_index == old(self).atom_index,
    {
        if self.stack.last >= LISP_STACK_SIZE {
            Err(LispError::stack_overflow())
        } else {
            let position = self.stack.last;
            self.stack.area[position] = ptr;
            self.stack.last = self.stack.last + 1;
            Ok(())
        }
    }

    /// Returns the topmost pointer without removing it; fails with an
    /// underflow exactly when the stack is empty.
    pub fn stack_peek(&self) -> (r: LispResult<TypedPointer>)
        requires
            self.wf(),
        ensures
            self.stack.last > 0 ==> r == Ok::<_, LispError>(self.stack.area@[self.stack.last - 1]),
            self.stack.last == 0 ==> r is Err && (r matches Err(e) && e.kind is StackUnderflow),
    {
        if self.stack.last == 0 {
            Err(LispError::stack_underflow())
        } else {
            Ok(self.stack.area[self.stack.last - 1])
        }
    }

    /// Removes and returns the topmost pointer; fails with an underflow
    /// exactly when the stack is empty.  The vacated cell is left as it
    /// was: cells at and above `last` are dead.
    pub fn stack_pop(&mut self) -> (r: LispResult<TypedPointer>)
        requires
            old(self).wf(),
        ensures
            final(self).wf(),
            old(self).stack.last > 0 ==> r == Ok::<_, LispError>(
                old(self).stack.area@[old(self).stack.last - 1],
            ) && final(self).stack.last == old(self).stack.last - 1,
            old(self).stack.last == 0 ==> r is Err && (r matches Err(e)
                && e.kind is StackUnderflow) && final(self).stack.last == 0,
            final(self).stack.area == old(self).stack.area,
            final(self).registers == old(self).registers,
            final(self).atoms == old(self).atoms,
            final(self).numbers == old(self).numbers,
            final(self).lists == old(self).lists,
            final(self).environments == old(self).environments,
            final(self).atom_index == old(self).atom_index,
    {
        if self.stack.last == 0 {
            Err(LispError::stack_underflow())
        } else {
            self.stack.last = self.stack.last - 1;
            Ok(self.stack.area[self.stack.last])
        }
    }

    /// The slot of the topmost live occurrence of `marker`, if any.
    fn find_top_marker(&self, marker: TypedPointer) -> (r: Option<usize>)
        requires
            self.wf(),
        ensures
            match top_marker_index(self.stack.area@.take(self.stack.last as int), marker) {
                Some(j) => r matches Some(u) && u as int == j,
                None => r is None,
            },
    {
        let ghost live = self.stack.area@.take(self.stack.last as int);
        let mut i = self.stack.last;
        loop
            invariant
                self.wf(),
                i <= self.stack.last,
                live == self.stack.area@.take(self.stack.last as int),
                forall|k: int| i <= k < self.stack.last ==> live[k] != marker,
            decreases i,
        {
            if i == 0 {
                proof {
                    lemma_top_marker_index(live, marker);
                    if top_marker_index(live, marker) is Some {
                        let j = top_marker_index(live, marker)->Some_0;
                        assert(live[j] == marker);
                        assert(false);
                    }
                }
                return None;
            }
            i = i - 1;
            if self.stack.area[i] == marker {
                proof {
                    lemma_top_marker_index(live, marker);
                    assert(live[i as int] == marker);
                    if top_marker_index(live, marker) is None {
                        assert(false);
                    }
                    let j = top_marker_index(live, marker)->Some_0;
                    if j < i as int {
                        assert(live[i as int] != marker);
                    }
                    if (i as int) < j {
                        assert(live[j] != marker);
                    }
                    assert(j == i as int);
                }
                return Some(i);
            }
        }
    }

    /// Pops entries until the topmost occurrence of `marker` is reached;
    /// the marker itself is popped too and its cell overwritten with the
    /// default pointer.  Returns how many entries were popped, the marker
    /// included.  When the marker is not on the stack, the stack is left
    /// untouched and 0 is returned.
    pub fn stack_unwind(&mut self, marker: TypedPointer) -> (popped: usize)
        requires
            old(self).wf(),
        ensures
            final(self).wf(),
            match top_marker_index(
                old(self).stack.area@.take(old(self).stack.last as int),
                marker,
            ) {
                Some(j) => {
                    &&& final(self).stack.last as int == j
                    &&& popped == old(self).stack.last - j
                    &&& final(self).stack.area@ == old(self).stack.area@.update(
                        j,
                        TypedPointer { tag: DataType::Undefined, value: 0 },
                    )
                },
                None => {
                    &&& popped == 0
                    &&& final(self).stack.last == old(self).stack.last
                    &&& final(self).stack.area == old(self).stack.area
                },
            },
            final(self).registers == old(self).registers,
            final(self).atoms == old(self).atoms,
            final(self).numbers == old(self).numbers,
            final(self).lists == old(self).lists,
            final(self).environments == old(self).environments,
            final(self).atom_index == old(self).atom_index,
    {
        proof {
            lemma_top_marker_index(old(self).stack.area@.take(old(self).stack.last as int), marker);
        }
        match self.find_top_marker(marker) {
            None => 0,
            Some(j) => {
                let popped = self.stack.last - j;
                self.stack.last = j;
                self.stack.area[j] = TypedPointer { tag: DataType::Undefined, value: 0 };
                popped
            },
        }
    }
}

} // verus!
