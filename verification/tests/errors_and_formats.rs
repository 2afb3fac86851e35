//! The error kinds each pool surfaces, and exact printed forms for the
//! opaque pointer kinds.

use majestic::printer::format_object;
use majestic::vm::constants::ConstSymbol;
use majestic::vm::error::LispErrorKind;
use majestic::vm::types::{DataType, TypedPointer, VirtualMachine, ENV_TABLE_SIZE, LIST_AREA_SIZE};

#[test]
fn list_area_exhaustion() {
    let mut vm = VirtualMachine::new();
    while vm.lists.last < LIST_AREA_SIZE {
        vm.make_cons().unwrap();
    }
    let err = vm.make_cons().unwrap_err();
    assert!(matches!(err.kind, LispErrorKind::ListAreaAllocation));
}

#[test]
fn environment_table_exhaustion() {
    let mut vm = VirtualMachine::new();
    while vm.environments.last < ENV_TABLE_SIZE {
        vm.make_environment(ConstSymbol::nil()).unwrap();
    }
    let err = vm.make_environment(ConstSymbol::nil()).unwrap_err();
    assert!(matches!(err.kind, LispErrorKind::EnvironmentTableAllocation));
}

#[test]
fn atom_table_error_kind() {
    let mut vm = VirtualMachine::new();
    let mut counter: usize = 0;
    while vm.atoms.last < majestic::vm::types::ATOM_TABLE_SIZE {
        let name = format!("filler-{}", counter);
        counter += 1;
        vm.make_atom(&name).unwrap();
    }
    let err = vm.make_atom("one-too-many").unwrap_err();
    assert!(matches!(err.kind, LispErrorKind::AtomTableAllocation));
}

#[test]
fn stack_error_kinds() {
    let mut vm = VirtualMachine::new();
    let err = vm.stack_pop().unwrap_err();
    assert!(matches!(err.kind, LispErrorKind::StackUnderflow));
    while vm.stack.last < majestic::vm::types::LISP_STACK_SIZE {
        vm.stack_push(ConstSymbol::t()).unwrap();
    }
    let err = vm.stack_push(ConstSymbol::t()).unwrap_err();
    assert!(matches!(err.kind, LispErrorKind::StackOverflow));
}

#[test]
fn arity_error_kind() {
    let mut vm = VirtualMachine::new();
    let one = vm.make_number(majestic::vm::types::Number::Integer(1)).unwrap();
    let args = vec![one];
    let err = vm.dispatch_prim_eval(ConstSymbol::bin_cons(), &args).unwrap_err();
    assert!(matches!(err.kind, LispErrorKind::Arity(_)));
}

#[test]
fn internal_error_kind() {
    let vm = VirtualMachine::new();
    let not_a_cons = TypedPointer { tag: DataType::Number, value: 0 };
    let err = vm.get_car(&not_a_cons).unwrap_err();
    assert!(matches!(err.kind, LispErrorKind::Internal(_)));
}

#[test]
fn exact_opaque_formats() {
    let vm = VirtualMachine::new();
    let f = TypedPointer { tag: DataType::Function, value: 255 };
    assert_eq!("#<FUNCTION {0x000000ff}>", format_object(&vm, &f));
    let l = TypedPointer { tag: DataType::Literal, value: 0 };
    assert_eq!("#<LITERAL {0x00000000}>", format_object(&vm, &l));
    assert_eq!("#<BUILTIN-FUNCTION {0x00000002}>", format_object(&vm, &ConstSymbol::bin_car()));
    assert_eq!("#<BUILTIN-LITERAL {0x00000004}>", format_object(&vm, &ConstSymbol::eval_assign()));
    assert_eq!("#<ENV0>", format_object(&vm, &ConstSymbol::e0()));
    let big = TypedPointer { tag: DataType::Function, value: 0xdeadbeef };
    assert_eq!("#<FUNCTION {0xdeadbeef}>", format_object(&vm, &big));
}

#[test]
fn error_messages_name_the_cause() {
    let vm = VirtualMachine::new();
    let not_a_cons = TypedPointer { tag: DataType::Number, value: 0 };
    let err = vm.get_car(&not_a_cons).unwrap_err();
    let msg = err.message();
    assert!(msg.contains("internal error"));
}

#[test]
fn arity_errors_name_the_primitive() {
    let mut vm = VirtualMachine::new();
    let one = vm.make_number(majestic::vm::types::Number::Integer(1)).unwrap();
    let args = vec![one];
    let err = vm.dispatch_prim_eval(ConstSymbol::bin_cons(), &args).unwrap_err();
    match err.kind {
        LispErrorKind::Arity(ref name) => assert_eq!("cons", name),
        _ => panic!("expected an arity error"),
    }
    let err = vm.dispatch_prim_eval(ConstSymbol::bin_cdr(), &[]).unwrap_err();
    match err.kind {
        LispErrorKind::Arity(ref name) => assert_eq!("cdr", name),
        _ => panic!("expected an arity error"),
    }
    let err = vm.dispatch_prim_eval(ConstSymbol::bin_car(), &[]).unwrap_err();
    match err.kind {
        LispErrorKind::Arity(ref name) => assert_eq!("car", name),
        _ => panic!("expected an arity error"),
    }
    let err = vm.dispatch_prim_eval(ConstSymbol::bin_eq(), &[]).unwrap_err();
    match err.kind {
        LispErrorKind::Arity(ref name) => assert_eq!("eq", name),
        _ => panic!("expected an arity error"),
    }
}

#[test]
fn exact_error_messages() {
    let mut vm = VirtualMachine::new();
    let err = vm.stack_pop().unwrap_err();
    assert_eq!("Error with Majestic Lisp environment: stack underflow", err.message());
    let not_a_cons = TypedPointer { tag: DataType::Number, value: 0 };
    let err = vm.get_car(&not_a_cons).unwrap_err();
    assert_eq!(
        "Error with Majestic Lisp environment: internal error: attempted to get CAR/CDR of non-cons",
        err.message()
    );
    let one = vm.make_number(majestic::vm::types::Number::Integer(1)).unwrap();
    let args = vec![one];
    let err = vm.dispatch_prim_eval(ConstSymbol::bin_cons(), &args).unwrap_err();
    assert_eq!(
        "Error with Majestic Lisp environment: arity error while applying function cons",
        err.message()
    );
}

#[test]
fn fresh_cons_reads_undefined() {
    let mut vm = VirtualMachine::new();
    let cell = vm.make_cons().unwrap();
    assert_eq!(DataType::Undefined, vm.lists.area[cell.value].car.tag);
    assert_eq!(DataType::Undefined, vm.lists.area[cell.value].cdr.tag);
    assert_eq!("(undefined . undefined)", majestic::printer::format_object(&vm, &cell));
}
