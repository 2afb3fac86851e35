//! The data model: tagged pointers, the objects held by each memory pool,
//! the pools themselves, and the well-formedness conditions that every
//! operation of the machine preserves.

use crate::vm::atom_index::trie_entries;
use vstd::prelude::*;

verus! {

pub const ATOM_TABLE_SIZE: usize = 10000;
pub const NUMBER_TABLE_SIZE: usize = 10000;
pub const LIST_AREA_SIZE: usize = 524288;
pub const LISP_STACK_SIZE: usize = 524288;
pub const ENV_TABLE_SIZE: usize = 2000;
pub const MAX_ENV_CAPACITY: usize = 200;

/// The pool that a `TypedPointer` selects.  `Function` and `Literal`
/// pointers share the cons pool: the tag records the role, the index is a
/// cons index.
#[derive(Clone, Copy, PartialEq, Eq, Structural, Debug, Hash)]
pub enum DataType {
    Undefined,
    Cons,
    Atom,
    Number,
    BuiltInFunction,
    BuiltInLiteral,
    Function,
    Literal,
    Environment,
}

/// A reference into the machine's memory: a pool tag and an index into
/// that pool.  Equality is structural on `(tag, value)`.
#[derive(Clone, Copy, PartialEq, Eq, Structural, Debug, Hash)]
pub struct TypedPointer {
    pub tag: DataType,
    pub value: usize,
}

impl TypedPointer {
    pub fn new(tag: DataType, value: usize) -> (r: Self)
        ensures
            r == (TypedPointer { tag, value }),
    {
        Self { tag, value }
    }
}

impl Default for TypedPointer {
    /// The default pointer is `(Undefined, 0)`.
    fn default() -> (r: Self)
        ensures
            r == (TypedPointer { tag: DataType::Undefined, value: 0 }),
    {
        Self { tag: DataType::Undefined, value: 0 }
    }
}

/// A cons cell.  `marked` is a reserved byte for a future collector; the
/// current machine never collects.
#[derive(Clone, Copy, PartialEq, Eq, Structural, Debug)]
pub struct Cons {
    pub marked: u8,
    pub car: TypedPointer,
    pub cdr: TypedPointer,
}

/// An interned symbol: its name and its globally assigned value.
#[derive(Clone, Debug)]
pub struct Atom {
    pub name: String,
    pub value: TypedPointer,
}

/// A numeric cell.  A float is carried as the literal text the reader
/// accepted; the machine performs no arithmetic, so the text is the whole
/// of what the machine reads of it.
#[derive(Debug)]
pub enum Number {
    Undefined,
    Integer(i64),
    Float(String),
    Fraction(i64, i64),
    Complex(Box<Number>, Box<Number>),
}

/// A copy of a numeric cell, equal to the original.
pub fn num_clone(a: &Number) -> (r: Number)
    ensures
        r == *a,
    decreases *a,
{
    match a {
        Number::Undefined => Number::Undefined,
        Number::Integer(x) => Number::Integer(*x),
        Number::Float(s) => Number::Float(s.clone()),
        Number::Fraction(n, d) => Number::Fraction(*n, *d),
        Number::Complex(re, im) => Number::Complex(
            Box::new(num_clone(&**re)),
            Box::new(num_clone(&**im)),
        ),
    }
}

impl Clone for Number {
    fn clone(&self) -> (r: Self)
        ensures
            r == *self,
    {
        num_clone(self)
    }
}

/// Value comparison of two numeric cells.
pub fn num_eq(a: &Number, b: &Number) -> (r: bool)
    ensures
        r == a.same_value(*b),
    decreases *a,
{
    match a {
        Number::Undefined => matches!(b, Number::Undefined),
        Number::Integer(x) => match b {
            Number::Integer(y) => x == y,
            _ => false,
        },
        Number::Float(x) => match b {
            Number::Float(y) => x.eq(y),
            _ => false,
        },
        Number::Fraction(xn, xd) => match b {
            Number::Fraction(yn, yd) => xn == yn && xd == yd,
            _ => false,
        },
        Number::Complex(xr, xi) => match b {
            Number::Complex(yr, yi) => num_eq(&**xr, &**yr) && num_eq(&**xi, &**yi),
            _ => false,
        },
    }
}

impl PartialEq for Number {
    fn eq(&self, other: &Number) -> (r: bool) {
        num_eq(self, other)
    }
}

impl vstd::std_specs::cmp::PartialEqSpecImpl for Number {
    open spec fn obeys_eq_spec() -> bool {
        true
    }

    open spec fn eq_spec(&self, other: &Number) -> bool {
        self.same_value(*other)
    }
}

impl Number {
    /// Whether two numeric cells hold the same value, with float texts
    /// compared character for character.
    pub open spec fn same_value(self, other: Number) -> bool
        decreases self,
    {
        match self {
            Number::Undefined => other is Undefined,
            Number::Integer(a) => match other {
                Number::Integer(b) => a == b,
                _ => false,
            },
            Number::Float(a) => match other {
                Number::Float(b) => a@ == b@,
                _ => false,
            },
            Number::Fraction(an, ad) => match other {
                Number::Fraction(bn, bd) => an == bn && ad == bd,
                _ => false,
            },
            Number::Complex(ar, ai) => match other {
                Number::Complex(br, bi) => ar.same_value(*br) && ai.same_value(*bi),
                _ => false,
            },
        }
    }

    /// Builds a complex number.  The parts must not themselves be complex.
    pub fn complex(re: Number, im: Number) -> (r: Number)
        requires
            !(re is Complex),
            !(im is Complex),
        ensures
            r == Number::Complex(Box::new(re), Box::new(im)),
    {
        Number::Complex(Box::new(re), Box::new(im))
    }
}

/// The seven registers of the evaluator.
/// - `exp`: expression under evaluation.
/// - `env`: current environment.
/// - `fun`: function being applied.
/// - `argl`: accumulated evaluated arguments, in reverse order.
/// - `cont`: continuation marker.
/// - `val`: result of evaluation.
/// - `unev`: unevaluated-expressions tail.
#[derive(Clone, Copy, PartialEq, Eq, Structural, Debug)]
pub struct RegisterArea {
    pub exp: TypedPointer,
    pub env: TypedPointer,
    pub fun: TypedPointer,
    pub argl: TypedPointer,
    pub cont: TypedPointer,
    pub val: TypedPointer,
    pub unev: TypedPointer,
}

impl Default for RegisterArea {
    fn default() -> (r: Self)
        ensures
            r == (RegisterArea {
                exp: TypedPointer { tag: DataType::Undefined, value: 0 },
                env: TypedPointer { tag: DataType::Undefined, value: 0 },
                fun: TypedPointer { tag: DataType::Undefined, value: 0 },
                argl: TypedPointer { tag: DataType::Undefined, value: 0 },
                cont: TypedPointer { tag: DataType::Undefined, value: 0 },
                val: TypedPointer { tag: DataType::Undefined, value: 0 },
                unev: TypedPointer { tag: DataType::Undefined, value: 0 },
            }),
    {
        let undef = TypedPointer { tag: DataType::Undefined, value: 0 };
        RegisterArea {
            exp: undef,
            env: undef,
            fun: undef,
            argl: undef,
            cont: undef,
            val: undef,
            unev: undef,
        }
    }
}

/// The evaluation stack: a fixed array of pointers and a cursor.  Cells at
/// and above `last` are dead.
#[derive(Clone, Debug)]
pub struct StackArea {
    pub last: usize,
    pub area: Vec<TypedPointer>,
}

/// The atom table: slots below `last` are interned atoms.
#[derive(Clone, Debug)]
pub struct AtomTable {
    pub last: usize,
    pub area: Vec<Atom>,
}

/// The number table, with a free queue of slots abandoned when an atom's
/// numeric value was overwritten by a non-number.
#[derive(Clone, Debug)]
pub struct NumberTable {
    pub last: usize,
    pub area: Vec<Number>,
    pub unused: std::collections::VecDeque<usize>,
}

/// The cons area.
#[derive(Clone, Debug)]
pub struct ListArea {
    pub last: usize,
    pub area: Vec<Cons>,
}

/// One binding frame: a parent pointer and a mapping from atom indices to
/// values.  The mapping is an association vector with pairwise-distinct
/// keys; binding an atom again updates its entry in place.
#[derive(Clone, Debug)]
pub struct Environment {
    pub prev: TypedPointer,
    pub data: Vec<(usize, TypedPointer)>,
}

/// The mapping that an association vector denotes: later entries win,
/// though well-formed frames never hold a key twice.
pub open spec fn bindings_of(s: Seq<(usize, TypedPointer)>) -> Map<usize, TypedPointer>
    decreases s.len(),
{
    if s.len() == 0 {
        Map::empty()
    } else {
        bindings_of(s.drop_last()).insert(s.last().0, s.last().1)
    }
}

impl Environment {
    /// The binding frame as a mapping from atom index to value.
    pub open spec fn map_view(&self) -> Map<usize, TypedPointer> {
        bindings_of(self.data@)
    }

    /// Keys are pairwise distinct and the parent, if any, is an
    /// environment allocated strictly earlier than slot `idx`.
    pub open spec fn env_wf(&self, idx: int) -> bool {
        &&& forall|i: int, j: int|
            0 <= i < j < self.data@.len() ==> (#[trigger] self.data@[i]).0 != (
            #[trigger] self.data@[j]).0
        &&& (self.prev == crate::vm::constants::ConstSymbol::spec_nil() || (self.prev.tag
            == DataType::Environment && self.prev.value < idx))
    }
}

/// The environment table.
#[derive(Clone, Debug)]
pub struct EnvironmentTable {
    pub last: usize,
    pub area: Vec<Environment>,
}

/// The whole machine: registers, the five pools, and the name index that
/// accelerates interning.
pub struct VirtualMachine {
    pub registers: RegisterArea,
    pub stack: StackArea,
    pub atoms: AtomTable,
    pub numbers: NumberTable,
    pub lists: ListArea,
    pub environments: EnvironmentTable,
    pub atom_index: radix_trie::Trie<String, usize>,
}

impl VirtualMachine {
    /// The name index holds exactly the names of the interned atoms, each
    /// mapped to its slot.
    pub open spec fn atom_index_wf(&self) -> bool {
        let m = trie_entries(&self.atom_index);
        &&& forall|i: int|
            0 <= i < self.atoms.last ==> m.contains_key(#[trigger] self.atoms.area@[i].name@)
                && m[self.atoms.area@[i].name@] == i as usize
        &&& forall|s: Seq<char>|
            #[trigger] m.contains_key(s) ==> m[s] < self.atoms.last
                && self.atoms.area@[m[s] as int].name@ == s
    }

    /// Allocated frames are well formed; frames past `last` are untouched
    /// defaults, so allocation hands out an empty frame.
    pub open spec fn environments_wf(&self) -> bool {
        &&& forall|i: int|
            0 <= i < self.environments.last ==> (#[trigger] self.environments.area@[i]).env_wf(i)
        &&& forall|i: int|
            self.environments.last <= i < self.environments.area@.len() ==> (
            #[trigger] self.environments.area@[i]).data@.len() == 0
    }

    /// Every pool has its fixed capacity, cursors stay within it, the free
    /// queue only names slots of the number table, and the name index
    /// mirrors the atom table.
    pub open spec fn wf(&self) -> bool {
        &&& self.stack.area@.len() == LISP_STACK_SIZE
        &&& self.stack.last <= LISP_STACK_SIZE
        &&& self.atoms.area@.len() == ATOM_TABLE_SIZE
        &&& self.atoms.last <= ATOM_TABLE_SIZE
        &&& self.numbers.area@.len() == NUMBER_TABLE_SIZE
        &&& self.numbers.last <= NUMBER_TABLE_SIZE
        &&& forall|i: int|
            0 <= i < self.numbers.unused@.len() ==> (#[trigger] self.numbers.unused@[i])
                < NUMBER_TABLE_SIZE
        &&& self.lists.area@.len() == LIST_AREA_SIZE
        &&& self.lists.last <= LIST_AREA_SIZE
        &&& forall|i: int|
            self.lists.last <= i < self.lists.area@.len() ==> (#[trigger] self.lists.area@[i]) == (
            Cons {
                marked: 0,
                car: TypedPointer { tag: DataType::Undefined, value: 0 },
                cdr: TypedPointer { tag: DataType::Undefined, value: 0 },
            })
        &&& self.environments.area@.len() == ENV_TABLE_SIZE
        &&& self.environments.last <= ENV_TABLE_SIZE
        &&& self.atom_index_wf()
        &&& self.environments_wf()
    }
}

} // verus!
