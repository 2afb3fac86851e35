//! The environment table: chained binding frames with bind, lookup and
//! parent access.

use crate::vm::constants::ConstSymbol;
use crate::vm::error::{LispError, LispResult};
use crate::vm::types::{
    bindings_of, DataType, Environment, TypedPointer, VirtualMachine, ENV_TABLE_SIZE,
};
use vstd::prelude::*;

verus! {

/// The index of the entry holding `key`, if any; with distinct keys the
/// scan direction does not matter.
pub open spec fn assoc_index(s: Seq<(usize, TypedPointer)>, key: usize) -> Option<int>
    decreases s.len(),
{
    if s.len() == 0 {
        None
    } else if s.last().0 == key {
        Some(s.len() - 1)
    } else {
        assoc_index(s.drop_last(), key)
    }
}

/// `bindings_of` holds `key` exactly when some entry carries it, and then
/// maps it to the value of the latest such entry.
pub proof fn lemma_bindings_char(s: Seq<(usize, TypedPointer)>, key: usize)
    ensures
        match assoc_index(s, key) {
            Some(j) => {
                &&& 0 <= j < s.len()
                &&& s[j].0 == key
                &&& forall|k: int| j < k < s.len() ==> (#[trigger] s[k]).0 != key
                &&& bindings_of(s).contains_key(key)
                &&& bindings_of(s)[key] == s[j].1
            },
            None => {
                &&& forall|k: int| 0 <= k < s.len() ==> (#[trigger] s[k]).0 != key
                &&& !bindings_of(s).contains_key(key)
            },
        },
    decreases s.len(),
{
    if s.len() > 0 {
        lemma_bindings_char(s.drop_last(), key);
        assert forall|k: int| 0 <= k < s.len() - 1 implies s.drop_last()[k] == s[k] by {}
    }
}

/// Updating the entry that holds `key` updates the mapping at `key`.
pub proof fn lemma_bindings_update(
    s: Seq<(usize, TypedPointer)>,
    j: int,
    key: usize,
    value: TypedPointer,
)
    requires
        0 <= j < s.len(),
        s[j].0 == key,
        forall|a: int, b: int| 0 <= a < b < s.len() ==> (#[trigger] s[a]).0 != (#[trigger] s[b]).0,
    ensures
        bindings_of(s.update(j, (key, value))) =~= bindings_of(s).insert(key, value),
    decreases s.len(),
{
    let s2 = s.update(j, (key, value));
    if j == s.len() - 1 {
        assert(s2.drop_last() =~= s.drop_last());
        assert(bindings_of(s2) == bindings_of(s2.drop_last()).insert(key, value));
    } else {
        assert(s2.drop_last() =~= s.drop_last().update(j, (key, value)));
        lemma_bindings_update(s.drop_last(), j, key, value);
        assert(s.last().0 != key);
        assert(bindings_of(s2) == bindings_of(s.drop_last()).insert(key, value).insert(
            s.last().0,
            s.last().1,
        ));
        assert(bindings_of(s2) =~= bindings_of(s.drop_last()).insert(s.last().0, s.last().1).insert(
            key,
            value,
        ));
    }
}

impl VirtualMachine {
    /// Allocates a fresh binding frame whose parent is `prev`, which must
    /// be `nil` or an allocated environment; an allocation error exactly
    /// when the environment table is full.
    pub fn make_environment(&mut self, prev: TypedPointer) -> (r: LispResult<TypedPointer>)
        requires
            old(self).wf(),
        ensures
            final(self).wf(),
            final(self).registers == old(self).registers,
            final(self).stack == old(self).stack,
            final(self).atoms == old(self).atoms,
            final(self).numbers == old(self).numbers,
            final(self).lists == old(self).lists,
            final(self).atom_index == old(self).atom_index,
            if !(prev == ConstSymbol::spec_nil() || (prev.tag == DataType::Environment
                && prev.value < old(self).environments.last)) {
                &&& r matches Err(e) && e.kind is Internal
                &&& final(self).environments == old(self).environments
            } else if old(self).environments.last < ENV_TABLE_SIZE {
                &&& r == Ok::<_, LispError>(
                    TypedPointer { tag: DataType::Environment, value: old(self).environments.last },
                )
                &&& final(self).environments.last == old(self).environments.last + 1
                &&& final(self).environments.area@.len() == old(self).environments.area@.len()
                &&& final(self).environments.area@[old(self).environments.last as int].prev == prev
                &&& final(self).environments.area@[old(self).environments.last as int].data@.len()
                    == 0
                &&& forall|i: int|
                    0 <= i < old(self).environments.area@.len() && i != old(self).environments.last ==> final(self).environments.area@[i] == old(self).environments.area@[i]
            } else {
                &&& r matches Err(e) && e.kind is EnvironmentTableAllocation
                &&& final(self).environments == old(self).environments
            },
    {
        let nil = ConstSymbol::nil();
        let parent_ok = (prev.tag == nil.tag && prev.value == nil.value) || (prev.tag
            == DataType::Environment && prev.value < self.environments.last);
        if !parent_ok {
            return Err(LispError::internal("attempted to build environment with invalid parent"));
        }
        if self.environments.last >= ENV_TABLE_SIZE {
            return Err(LispError::environment_table_allocation());
        }
        let ptr = self.environments.last;
        self.environments.last = self.environments.last + 1;
        self.environments.area[ptr].prev = prev;
        Ok(TypedPointer::new(DataType::Environment, ptr))
    }

    /// Inserts or updates the binding of `atom` in the frame `env` alone;
    /// an error exactly when `env` is not an allocated environment or
    /// `atom` is not tagged as an atom.
    pub fn env_bind(
        &mut self,
        env: TypedPointer,
        atom: TypedPointer,
        value: TypedPointer,
    ) -> (r: LispResult<()>)
        requires
            old(self).wf(),
        ensures
            final(self).wf(),
            final(self).registers == old(self).registers,
            final(self).stack == old(self).stack,
            final(self).atoms == old(self).atoms,
            final(self).numbers == old(self).numbers,
            final(self).lists == old(self).lists,
            final(self).atom_index == old(self).atom_index,
            final(self).environments.last == old(self).environments.last,
            final(self).environments.area@.len() == old(self).environments.area@.len(),
            if env.tag != DataType::Environment || env.value >= old(self).environments.last
                || atom.tag != DataType::Atom {
                &&& r matches Err(e) && e.kind is Internal
                &&& final(self).environments == old(self).environments
            } else {
                &&& r is Ok
                &&& final(self).environments.area@[env.value as int].map_view() =~= old(self).environments.area@[env.value as int].map_view().insert(atom.value, value)
                &&& final(self).environments.area@[env.value as int].prev == old(self).environments.area@[env.value as int].prev
                &&& forall|i: int|
                    0 <= i < old(self).environments.area@.len() && i != env.value ==> final(self).environments.area@[i] == old(self).environments.area@[i]
            },
    {
        if env.tag != DataType::Environment {
            return Err(LispError::internal("attempted to use non-environment as environment"));
        }
        if env.value >= self.environments.last {
            return Err(LispError::internal("attempted to use unallocated environment"));
        }
        if atom.tag != DataType::Atom {
            return Err(LispError::internal(
                "attempted to assign value to non-atom within environment",
            ));
        }
        let ev = env.value;
        let ghost frame0 = self.environments.area@[ev as int];
        let n = self.environments.area[ev].data.len();
        let mut i: usize = 0;
        while i < n
            invariant
                self.wf(),
                *self == *old(self),
                ev == env.value,
                env.tag == DataType::Environment,
                env.value < self.environments.last,
                atom.tag == DataType::Atom,
                frame0 == self.environments.area@[ev as int],
                n == frame0.data@.len(),
                i <= n,
                forall|k: int| 0 <= k < i ==> (#[trigger] frame0.data@[k]).0 != atom.value,
            decreases n - i,
        {
            if self.environments.area[ev].data[i].0 == atom.value {
                self.environments.area[ev].data[i] = (atom.value, value);
                proof {
                    assert(frame0.env_wf(ev as int));
                    lemma_bindings_update(frame0.data@, i as int, atom.value, value);
                    let d2 = self.environments.area@[ev as int].data@;
                    assert(d2 == frame0.data@.update(i as int, (atom.value, value)));
                    assert forall|a: int, b: int| 0 <= a < b < d2.len() implies (
                    #[trigger] d2[a]).0 != (#[trigger] d2[b]).0 by {
                        assert(frame0.data@[a].0 != frame0.data@[b].0);
                        assert(d2[a].0 == frame0.data@[a].0);
                        assert(d2[b].0 == frame0.data@[b].0);
                    }
                    assert(self.environments.area@[ev as int].env_wf(ev as int));
                }
                return Ok(());
            }
            i = i + 1;
        }
        self.environments.area[ev].data.push((atom.value, value));
        proof {
            assert(frame0.env_wf(ev as int));
            let d2 = self.environments.area@[ev as int].data@;
            assert(d2 == frame0.data@.push((atom.value, value)));
            assert(d2.drop_last() =~= frame0.data@);
            assert(d2.last() == (atom.value, value));
            assert(bindings_of(d2) == bindings_of(frame0.data@).insert(atom.value, value));
            assert forall|a: int, b: int| 0 <= a < b < d2.len() implies (#[trigger] d2[a]).0 != (
            #[trigger] d2[b]).0 by {
                if b < d2.len() - 1 {
                    assert(frame0.data@[a].0 != frame0.data@[b].0);
                } else {
                    assert(frame0.data@[a].0 != atom.value);
                }
            }
            assert(self.environments.area@[ev as int].env_wf(ev as int));
        }
        Ok(())
    }

    /// The value bound to `atom` in the frame `env` alone, if any; an
    /// error exactly when `env` is not an allocated environment or `atom`
    /// is not tagged as an atom.
    pub fn env_lookup(&self, env: TypedPointer, atom: TypedPointer) -> (r: LispResult<
        Option<TypedPointer>,
    >)
        requires
            self.wf(),
        ensures
            if env.tag != DataType::Environment || env.value >= self.environments.last
                || atom.tag != DataType::Atom {
                r matches Err(e) && e.kind is Internal
            } else {
                let m = self.environments.area@[env.value as int].map_view();
                if m.contains_key(atom.value) {
                    r == Ok::<_, LispError>(Some(m[atom.value]))
                } else {
                    r == Ok::<_, LispError>(None::<TypedPointer>)
                }
            },
    {
        if env.tag != DataType::Environment {
            return Err(LispError::internal("attempted to use non-environment as environment"));
        }
        if env.value >= self.environments.last {
            return Err(LispError::internal("attempted to use unallocated environment"));
        }
        if atom.tag != DataType::Atom {
            return Err(LispError::internal(
                "attempted to get value of non-atom within environment",
            ));
        }
        let ghost frame = self.environments.area@[env.value as int];
        let n = self.environments.area[env.value].data.len();
        let mut i: usize = 0;
        while i < n
            invariant
                self.wf(),
                env.tag == DataType::Environment,
                env.value < self.environments.last,
                atom.tag == DataType::Atom,
                frame == self.environments.area@[env.value as int],
                n == frame.data@.len(),
                i <= n,
                forall|k: int| 0 <= k < i ==> (#[trigger] frame.data@[k]).0 != atom.value,
            decreases n - i,
        {
            let entry = self.environments.area[env.value].data[i];
            if entry.0 == atom.value {
                proof {
                    lemma_bindings_char(frame.data@, atom.value);
                    assert(frame.data@[i as int].0 == atom.value);
                    if assoc_index(frame.data@, atom.value) is None {
                        assert(false);
                    }
                    let j = assoc_index(frame.data@, atom.value)->Some_0;
                    assert(frame.env_wf(env.value as int));
                    if j != i as int {
                        assert(frame.data@[j].0 != frame.data@[i as int].0);
                        assert(false);
                    }
                }
                return Ok(Some(entry.1));
            }
            i = i + 1;
        }
        proof {
            lemma_bindings_char(frame.data@, atom.value);
            if assoc_index(frame.data@, atom.value) is Some {
                let j = assoc_index(frame.data@, atom.value)->Some_0;
                assert(frame.data@[j].0 == atom.value);
                assert(false);
            }
        }
        Ok(None)
    }

    /// The parent of the frame; an error exactly when `env` is not an
    /// allocated environment.
    pub fn env_parent(&self, env: TypedPointer) -> (r: LispResult<TypedPointer>)
        requires
            self.wf(),
        ensures
            if env.tag == DataType::Environment && env.value < self.environments.last {
                r == Ok::<_, LispError>(self.environments.area@[env.value as int].prev)
            } else {
                r matches Err(e) && e.kind is Internal
            },
    {
        if env.tag != DataType::Environment {
            return Err(LispError::internal("attempted to use non-environment as environment"));
        }
        if env.value >= self.environments.last {
            return Err(LispError::internal("attempted to use unallocated environment"));
        }
        Ok(self.environments.area[env.value].prev)
    }
}

} // verus!
