//! The fixed pointers of the machine: the reserved atoms seeded at
//! start-up, the continuation markers, the root environment and the
//! built-in functions.

use crate::vm::types::{DataType, TypedPointer};
use vstd::prelude::*;

verus! {

#[non_exhaustive]
pub struct ConstSymbol;

impl ConstSymbol {
    pub open spec fn spec_nil() -> TypedPointer {
        TypedPointer { tag: DataType::Atom, value: 0 }
    }

    /// The reserved atom `nil`.
    #[verifier::when_used_as_spec(spec_nil)]
    pub fn nil() -> (r: TypedPointer)
        ensures
            r == ConstSymbol::spec_nil(),
    {
        TypedPointer { tag: DataType::Atom, value: 0 }
    }

    pub open spec fn spec_t() -> TypedPointer {
        TypedPointer { tag: DataType::Atom, value: 1 }
    }

    /// The reserved atom `t`.
    #[verifier::when_used_as_spec(spec_t)]
    pub fn t() -> (r: TypedPointer)
        ensures
            r == ConstSymbol::spec_t(),
    {
        TypedPointer { tag: DataType::Atom, value: 1 }
    }

    pub open spec fn spec_prim() -> TypedPointer {
        TypedPointer { tag: DataType::Atom, value: 2 }
    }

    /// The reserved atom `prim`.
    #[verifier::when_used_as_spec(spec_prim)]
    pub fn prim() -> (r: TypedPointer)
        ensures
            r == ConstSymbol::spec_prim(),
    {
        TypedPointer { tag: DataType::Atom, value: 2 }
    }

    pub open spec fn spec_lit() -> TypedPointer {
        TypedPointer { tag: DataType::Atom, value: 3 }
    }

    /// The reserved atom `lit`.
    #[verifier::when_used_as_spec(spec_lit)]
    pub fn lit() -> (r: TypedPointer)
        ensures
            r == ConstSymbol::spec_lit(),
    {
        TypedPointer { tag: DataType::Atom, value: 3 }
    }

    pub open spec fn spec_closure() -> TypedPointer {
        TypedPointer { tag: DataType::Atom, value: 4 }
    }

    /// The reserved atom `closure`.
    #[verifier::when_used_as_spec(spec_closure)]
    pub fn closure() -> (r: TypedPointer)
        ensures
            r == ConstSymbol::spec_closure(),
    {
        TypedPointer { tag: DataType::Atom, value: 4 }
    }

    pub open spec fn spec_error() -> TypedPointer {
        TypedPointer { tag: DataType::Atom, value: 5 }
    }

    /// The reserved atom `error`.
    #[verifier::when_used_as_spec(spec_error)]
    pub fn error() -> (r: TypedPointer)
        ensures
            r == ConstSymbol::spec_error(),
    {
        TypedPointer { tag: DataType::Atom, value: 5 }
    }

    pub open spec fn spec_fn_sym() -> TypedPointer {
        TypedPointer { tag: DataType::Atom, value: 6 }
    }

    /// The reserved atom `fn`.
    #[verifier::when_used_as_spec(spec_fn_sym)]
    pub fn fn_sym() -> (r: TypedPointer)
        ensures
            r == ConstSymbol::spec_fn_sym(),
    {
        TypedPointer { tag: DataType::Atom, value: 6 }
    }

    pub open spec fn spec_ampersand() -> TypedPointer {
        TypedPointer { tag: DataType::Atom, value: 7 }
    }

    /// The reserved atom `&`.
    #[verifier::when_used_as_spec(spec_ampersand)]
    pub fn ampersand() -> (r: TypedPointer)
        ensures
            r == ConstSymbol::spec_ampersand(),
    {
        TypedPointer { tag: DataType::Atom, value: 7 }
    }

    pub open spec fn spec_apply() -> TypedPointer {
        TypedPointer { tag: DataType::Atom, value: 8 }
    }

    /// The reserved atom `apply`.
    #[verifier::when_used_as_spec(spec_apply)]
    pub fn apply() -> (r: TypedPointer)
        ensures
            r == ConstSymbol::spec_apply(),
    {
        TypedPointer { tag: DataType::Atom, value: 8 }
    }

    pub open spec fn spec_macro_sym() -> TypedPointer {
        TypedPointer { tag: DataType::Atom, value: 9 }
    }

    /// The reserved atom `macro`.
    #[verifier::when_used_as_spec(spec_macro_sym)]
    pub fn macro_sym() -> (r: TypedPointer)
        ensures
            r == ConstSymbol::spec_macro_sym(),
    {
        TypedPointer { tag: DataType::Atom, value: 9 }
    }

    pub open spec fn spec_mac() -> TypedPointer {
        TypedPointer { tag: DataType::Atom, value: 10 }
    }

    /// The reserved atom `mac`.
    #[verifier::when_used_as_spec(spec_mac)]
    pub fn mac() -> (r: TypedPointer)
        ensures
            r == ConstSymbol::spec_mac(),
    {
        TypedPointer { tag: DataType::Atom, value: 10 }
    }

    pub open spec fn spec_quote() -> TypedPointer {
        TypedPointer { tag: DataType::Atom, value: 11 }
    }

    /// The reserved atom `quote`.
    #[verifier::when_used_as_spec(spec_quote)]
    pub fn quote() -> (r: TypedPointer)
        ensures
            r == ConstSymbol::spec_quote(),
    {
        TypedPointer { tag: DataType::Atom, value: 11 }
    }

    pub open spec fn spec_unquote() -> TypedPointer {
        TypedPointer { tag: DataType::Atom, value: 12 }
    }

    /// The reserved atom `unquote`.
    #[verifier::when_used_as_spec(spec_unquote)]
    pub fn unquote() -> (r: TypedPointer)
        ensures
            r == ConstSymbol::spec_unquote(),
    {
        TypedPointer { tag: DataType::Atom, value: 12 }
    }

    pub open spec fn spec_unquote_splice() -> TypedPointer {
        TypedPointer { tag: DataType::Atom, value: 13 }
    }

    /// The reserved atom `unquote-splice`.
    #[verifier::when_used_as_spec(spec_unquote_splice)]
    pub fn unquote_splice() -> (r: TypedPointer)
        ensures
            r == ConstSymbol::spec_unquote_splice(),
    {
        TypedPointer { tag: DataType::Atom, value: 13 }
    }

    pub open spec fn spec_quasiquote() -> TypedPointer {
        TypedPointer { tag: DataType::Atom, value: 14 }
    }

    /// The reserved atom `quasiquote`.
    #[verifier::when_used_as_spec(spec_quasiquote)]
    pub fn quasiquote() -> (r: TypedPointer)
        ensures
            r == ConstSymbol::spec_quasiquote(),
    {
        TypedPointer { tag: DataType::Atom, value: 14 }
    }

    pub open spec fn spec_do_sym() -> TypedPointer {
        TypedPointer { tag: DataType::Atom, value: 15 }
    }

    /// The reserved atom `do`.
    #[verifier::when_used_as_spec(spec_do_sym)]
    pub fn do_sym() -> (r: TypedPointer)
        ensures
            r == ConstSymbol::spec_do_sym(),
    {
        TypedPointer { tag: DataType::Atom, value: 15 }
    }

    pub open spec fn spec_integer() -> TypedPointer {
        TypedPointer { tag: DataType::Atom, value: 16 }
    }

    /// The reserved atom `integer`.
    #[verifier::when_used_as_spec(spec_integer)]
    pub fn integer() -> (r: TypedPointer)
        ensures
            r == ConstSymbol::spec_integer(),
    {
        TypedPointer { tag: DataType::Atom, value: 16 }
    }

    pub open spec fn spec_float() -> TypedPointer {
        TypedPointer { tag: DataType::Atom, value: 17 }
    }

    /// The reserved atom `float`.
    #[verifier::when_used_as_spec(spec_float)]
    pub fn float() -> (r: TypedPointer)
        ensures
            r == ConstSymbol::spec_float(),
    {
        TypedPointer { tag: DataType::Atom, value: 17 }
    }

    pub open spec fn spec_fraction() -> TypedPointer {
        TypedPointer { tag: DataType::Atom, value: 18 }
    }

    /// The reserved atom `fraction`.
    #[verifier::when_used_as_spec(spec_fraction)]
    pub fn fraction() -> (r: TypedPointer)
        ensures
            r == ConstSymbol::spec_fraction(),
    {
        TypedPointer { tag: DataType::Atom, value: 18 }
    }

    pub open spec fn spec_complex() -> TypedPointer {
        TypedPointer { tag: DataType::Atom, value: 19 }
    }

    /// The reserved atom `complex`.
    #[verifier::when_used_as_spec(spec_complex)]
    pub fn complex() -> (r: TypedPointer)
        ensures
            r == ConstSymbol::spec_complex(),
    {
        TypedPointer { tag: DataType::Atom, value: 19 }
    }

    pub open spec fn spec_vector() -> TypedPointer {
        TypedPointer { tag: DataType::Atom, value: 20 }
    }

    /// The reserved atom `vector`.
    #[verifier::when_used_as_spec(spec_vector)]
    pub fn vector() -> (r: TypedPointer)
        ensures
            r == ConstSymbol::spec_vector(),
    {
        TypedPointer { tag: DataType::Atom, value: 20 }
    }

    pub open spec fn spec_setq() -> TypedPointer {
        TypedPointer { tag: DataType::Atom, value: 21 }
    }

    /// The reserved atom `setq`.
    #[verifier::when_used_as_spec(spec_setq)]
    pub fn setq() -> (r: TypedPointer)
        ensures
            r == ConstSymbol::spec_setq(),
    {
        TypedPointer { tag: DataType::Atom, value: 21 }
    }

    pub open spec fn spec_done() -> TypedPointer {
        TypedPointer { tag: DataType::BuiltInLiteral, value: 0 }
    }

    /// The terminal continuation marker.
    #[verifier::when_used_as_spec(spec_done)]
    pub fn done() -> (r: TypedPointer)
        ensures
            r == ConstSymbol::spec_done(),
    {
        TypedPointer { tag: DataType::BuiltInLiteral, value: 0 }
    }

    pub open spec fn spec_eval_args() -> TypedPointer {
        TypedPointer { tag: DataType::BuiltInLiteral, value: 1 }
    }

    /// The continuation marker for evaluating an argument list.
    #[verifier::when_used_as_spec(spec_eval_args)]
    pub fn eval_args() -> (r: TypedPointer)
        ensures
            r == ConstSymbol::spec_eval_args(),
    {
        TypedPointer { tag: DataType::BuiltInLiteral, value: 1 }
    }

    pub open spec fn spec_accumulate_arg() -> TypedPointer {
        TypedPointer { tag: DataType::BuiltInLiteral, value: 2 }
    }

    /// The continuation marker for accumulating one argument.
    #[verifier::when_used_as_spec(spec_accumulate_arg)]
    pub fn accumulate_arg() -> (r: TypedPointer)
        ensures
            r == ConstSymbol::spec_accumulate_arg(),
    {
        TypedPointer { tag: DataType::BuiltInLiteral, value: 2 }
    }

    pub open spec fn spec_accumulate_last_arg() -> TypedPointer {
        TypedPointer { tag: DataType::BuiltInLiteral, value: 3 }
    }

    /// The continuation marker for accumulating the last argument.
    #[verifier::when_used_as_spec(spec_accumulate_last_arg)]
    pub fn accumulate_last_arg() -> (r: TypedPointer)
        ensures
            r == ConstSymbol::spec_accumulate_last_arg(),
    {
        TypedPointer { tag: DataType::BuiltInLiteral, value: 3 }
    }

    pub open spec fn spec_eval_assign() -> TypedPointer {
        TypedPointer { tag: DataType::BuiltInLiteral, value: 4 }
    }

    /// The continuation marker for finishing an assignment.
    #[verifier::when_used_as_spec(spec_eval_assign)]
    pub fn eval_assign() -> (r: TypedPointer)
        ensures
            r == ConstSymbol::spec_eval_assign(),
    {
        TypedPointer { tag: DataType::BuiltInLiteral, value: 4 }
    }

    pub open spec fn spec_e0() -> TypedPointer {
        TypedPointer { tag: DataType::Environment, value: 0 }
    }

    /// The root environment.
    #[verifier::when_used_as_spec(spec_e0)]
    pub fn e0() -> (r: TypedPointer)
        ensures
            r == ConstSymbol::spec_e0(),
    {
        TypedPointer { tag: DataType::Environment, value: 0 }
    }

    pub open spec fn spec_bin_cons() -> TypedPointer {
        TypedPointer { tag: DataType::BuiltInFunction, value: 0 }
    }

    /// The built-in function `cons`.
    #[verifier::when_used_as_spec(spec_bin_cons)]
    pub fn bin_cons() -> (r: TypedPointer)
        ensures
            r == ConstSymbol::spec_bin_cons(),
    {
        TypedPointer { tag: DataType::BuiltInFunction, value: 0 }
    }

    pub open spec fn spec_bin_list() -> TypedPointer {
        TypedPointer { tag: DataType::BuiltInFunction, value: 1 }
    }

    /// The built-in function `list`.
    #[verifier::when_used_as_spec(spec_bin_list)]
    pub fn bin_list() -> (r: TypedPointer)
        ensures
            r == ConstSymbol::spec_bin_list(),
    {
        TypedPointer { tag: DataType::BuiltInFunction, value: 1 }
    }

    pub open spec fn spec_bin_car() -> TypedPointer {
        TypedPointer { tag: DataType::BuiltInFunction, value: 2 }
    }

    /// The built-in function `car`.
    #[verifier::when_used_as_spec(spec_bin_car)]
    pub fn bin_car() -> (r: TypedPointer)
        ensures
            r == ConstSymbol::spec_bin_car(),
    {
        TypedPointer { tag: DataType::BuiltInFunction, value: 2 }
    }

    pub open spec fn spec_bin_cdr() -> TypedPointer {
        TypedPointer { tag: DataType::BuiltInFunction, value: 3 }
    }

    /// The built-in function `cdr`.
    #[verifier::when_used_as_spec(spec_bin_cdr)]
    pub fn bin_cdr() -> (r: TypedPointer)
        ensures
            r == ConstSymbol::spec_bin_cdr(),
    {
        TypedPointer { tag: DataType::BuiltInFunction, value: 3 }
    }

    pub open spec fn spec_bin_eval() -> TypedPointer {
        TypedPointer { tag: DataType::BuiltInFunction, value: 4 }
    }

    /// The built-in function `eval`.
    #[verifier::when_used_as_spec(spec_bin_eval)]
    pub fn bin_eval() -> (r: TypedPointer)
        ensures
            r == ConstSymbol::spec_bin_eval(),
    {
        TypedPointer { tag: DataType::BuiltInFunction, value: 4 }
    }

    pub open spec fn spec_bin_eq() -> TypedPointer {
        TypedPointer { tag: DataType::BuiltInFunction, value: 5 }
    }

    /// The built-in function `eq`.
    #[verifier::when_used_as_spec(spec_bin_eq)]
    pub fn bin_eq() -> (r: TypedPointer)
        ensures
            r == ConstSymbol::spec_bin_eq(),
    {
        TypedPointer { tag: DataType::BuiltInFunction, value: 5 }
    }

}

} // verus!
