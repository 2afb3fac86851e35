//! The error values of the machine.  Every fallible operation returns one
//! of these; nothing in the machine panics.

use vstd::prelude::*;
use vstd::string::StringExecFns;

verus! {

#[derive(Debug, Clone)]
pub enum LispErrorKind {
    StackOverflow,
    StackUnderflow,
    AtomTableAllocation,
    NumberTableAllocation,
    ListAreaAllocation,
    EnvironmentTableAllocation,
    Internal(&'static str),
    Arity(String),
}

#[derive(Debug, Clone)]
pub struct LispError {
    pub kind: LispErrorKind,
}

pub type LispResult<T> = Result<T, LispError>;

/// The detail part of an error's description.
pub open spec fn spec_error_detail(kind: LispErrorKind) -> Seq<char> {
    match kind {
        LispErrorKind::StackOverflow => "stack overflow"@,
        LispErrorKind::StackUnderflow => "stack underflow"@,
        LispErrorKind::AtomTableAllocation => "atom table allocation error"@,
        LispErrorKind::NumberTableAllocation => "number table allocation error"@,
        LispErrorKind::ListAreaAllocation => "list area allocation error"@,
        LispErrorKind::EnvironmentTableAllocation => "environment area allocation error"@,
        LispErrorKind::Arity(name) => "arity error while applying function "@ + name@,
        LispErrorKind::Internal(cause) => "internal error: "@ + cause@,
    }
}

/// The full description of an error.
pub open spec fn spec_error_message(kind: LispErrorKind) -> Seq<char> {
    "Error with Majestic Lisp environment: "@ + spec_error_detail(kind)
}

impl LispError {
    pub fn stack_overflow() -> (r: Self)
        ensures
            r.kind is StackOverflow,
    {
        Self { kind: LispErrorKind::StackOverflow }
    }

    pub fn stack_underflow() -> (r: Self)
        ensures
            r.kind is StackUnderflow,
    {
        Self { kind: LispErrorKind::StackUnderflow }
    }

    pub fn atom_table_allocation() -> (r: Self)
        ensures
            r.kind is AtomTableAllocation,
    {
        Self { kind: LispErrorKind::AtomTableAllocation }
    }

    pub fn number_table_allocation() -> (r: Self)
        ensures
            r.kind is NumberTableAllocation,
    {
        Self { kind: LispErrorKind::NumberTableAllocation }
    }

    pub fn list_area_allocation() -> (r: Self)
        ensures
            r.kind is ListAreaAllocation,
    {
        Self { kind: LispErrorKind::ListAreaAllocation }
    }

    pub fn environment_table_allocation() -> (r: Self)
        ensures
            r.kind is EnvironmentTableAllocation,
    {
        Self { kind: LispErrorKind::EnvironmentTableAllocation }
    }

    pub fn arity(fn_name: String) -> (r: Self)
        ensures
            r.kind == LispErrorKind::Arity(fn_name),
    {
        Self { kind: LispErrorKind::Arity(fn_name) }
    }

    pub fn internal(reason: &'static str) -> (r: Self)
        ensures
            r.kind == LispErrorKind::Internal(reason),
    {
        Self { kind: LispErrorKind::Internal(reason) }
    }

    /// A human-readable description of the error.
    pub fn message(&self) -> (r: String)
        ensures
            r@ == spec_error_message(self.kind),
    {
        let detail: String = match &self.kind {
            LispErrorKind::StackOverflow => String::from_str("stack overflow"),
            LispErrorKind::StackUnderflow => String::from_str("stack underflow"),
            LispErrorKind::AtomTableAllocation => String::from_str("atom table allocation error"),
            LispErrorKind::NumberTableAllocation => String::from_str(
                "number table allocation error",
            ),
            LispErrorKind::ListAreaAllocation => String::from_str("list area allocation error"),
            LispErrorKind::EnvironmentTableAllocation => String::from_str(
                "environment area allocation error",
            ),
            LispErrorKind::Arity(name) => String::from_str(
                "arity error while applying function ",
            ).concat(name.as_str()),
            LispErrorKind::Internal(cause) => String::from_str("internal error: ").concat(cause),
        };
        String::from_str("Error with Majestic Lisp environment: ").concat(detail.as_str())
    }
}

} // verus!
