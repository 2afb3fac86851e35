//! The virtual machine: typed memory pools, atom interner, cons area,
//! environment table, evaluation stack and the register-machine evaluator.

pub mod atom_index;
pub mod atoms;
pub mod constants;
pub mod environment;
pub mod error;
pub mod evaluate;
pub mod general;
pub mod laws;
pub mod lists;
pub mod primitive_eval;
pub mod stack;
pub mod types;

pub use constants::ConstSymbol;
pub use error::{LispError, LispErrorKind, LispResult};
pub use types::{
    Atom, AtomTable, Cons, DataType, Environment, EnvironmentTable, ListArea, Number, NumberTable,
    RegisterArea, StackArea, TypedPointer, VirtualMachine, ATOM_TABLE_SIZE, ENV_TABLE_SIZE,
    LISP_STACK_SIZE, LIST_AREA_SIZE, MAX_ENV_CAPACITY, NUMBER_TABLE_SIZE,
};
