//! End-to-end evaluation scenarios: text is parsed, built, evaluated in
//! a fresh machine, and the result printed back.

use majestic::parser::combinators::{validate_input, Combinators, InputValidity};
use majestic::parser::convert::build_ast;
use majestic::parser::expression::Expr;
use majestic::printer::format_object;
use majestic::vm::types::{TypedPointer, VirtualMachine};

fn get_expression(text: &str) -> Expr {
    let mut parsed = Combinators::parser(text).expect("Given expression contains syntax errors");
    assert!(parsed.len() >= 1, "First expression");
    parsed.remove(0)
}

/// Evaluates the text's first expression and returns the printed result.
fn eval_text(vm: &mut VirtualMachine, text: &str) -> String {
    let expr = get_expression(text);
    let pointer = build_ast(vm, expr).expect("Typed pointer to AST within virtual machine");
    let result = vm.evaluate(pointer).expect("Evaluated expression");
    format_object(vm, &result)
}

/// Evaluates the text's first expression and returns the result pointer.
fn eval_ptr(vm: &mut VirtualMachine, text: &str) -> TypedPointer {
    let expr = get_expression(text);
    let pointer = build_ast(vm, expr).expect("Typed pointer to AST within virtual machine");
    vm.evaluate(pointer).expect("Evaluated expression")
}

/// Builds the text's first expression without evaluating and prints it.
fn build_text(vm: &mut VirtualMachine, text: &str) -> String {
    let expr = get_expression(text);
    let pointer = build_ast(vm, expr).expect("Typed pointer to AST within virtual machine");
    format_object(vm, &pointer)
}

#[test]
fn eval_cons_pair() {
    let mut vm = VirtualMachine::new();
    assert_eq!("(1 . 2)", eval_text(&mut vm, "(cons 1 2)"));
}

#[test]
fn eval_list() {
    let mut vm = VirtualMachine::new();
    assert_eq!("(1 2 3)", eval_text(&mut vm, "(list 1 2 3)"));
}

#[test]
fn eval_car_cdr() {
    let mut vm = VirtualMachine::new();
    assert_eq!("1", eval_text(&mut vm, "(car (cons 1 2))"));
    assert_eq!("2", eval_text(&mut vm, "(cdr (cons 1 2))"));
    assert_eq!("nil", eval_text(&mut vm, "(car nil)"));
    assert_eq!("nil", eval_text(&mut vm, "(cdr nil)"));
}

#[test]
fn eval_eq() {
    let mut vm = VirtualMachine::new();
    assert_eq!("t", eval_text(&mut vm, "(eq (quote a) (quote a))"));
    assert_eq!("nil", eval_text(&mut vm, "(eq (quote a) (quote b))"));
    // Distinct cells are not eq.
    assert_eq!("nil", eval_text(&mut vm, "(eq (cons 1 2) (cons 1 2))"));
}

#[test]
fn eval_setq_slot_stability() {
    let mut vm = VirtualMachine::new();
    assert_eq!("5", eval_text(&mut vm, "(setq x 5)"));
    let first = eval_ptr(&mut vm, "x");
    assert_eq!("5", format_object(&vm, &first));
    assert_eq!("7", eval_text(&mut vm, "(setq x 7)"));
    let second = eval_ptr(&mut vm, "x");
    assert_eq!("7", format_object(&vm, &second));
    // The numeric pointer under `x` keeps its tag and index.
    assert_eq!(first, second);
}

#[test]
fn eval_setq_reclaims_slot() {
    let mut vm = VirtualMachine::new();
    assert_eq!("50", eval_text(&mut vm, "(setq x 50)"));
    let slot = eval_ptr(&mut vm, "x");
    assert_eq!("t", eval_text(&mut vm, "(setq x t)"));
    // The abandoned numeric slot is on the free queue...
    assert!(vm.numbers.unused.contains(&slot.value));
    // ...and the next allocation reuses it.
    let reused = eval_ptr(&mut vm, "99");
    assert_eq!(slot.value, reused.value);
}

#[test]
fn eval_lambda_application() {
    let mut vm = VirtualMachine::new();
    assert_eq!("(a . a)", eval_text(&mut vm, "((fn (x) (cons x x)) (quote a))"));
}

#[test]
fn eval_quote() {
    let mut vm = VirtualMachine::new();
    assert_eq!("a", eval_text(&mut vm, "(quote a)"));
    assert_eq!("(a b c)", eval_text(&mut vm, "(quote (a b c))"));
}

#[test]
fn eval_self_evaluating() {
    let mut vm = VirtualMachine::new();
    assert_eq!("t", eval_text(&mut vm, "t"));
    assert_eq!("nil", eval_text(&mut vm, "nil"));
    assert_eq!("42", eval_text(&mut vm, "42"));
}

#[test]
fn eval_builtin_eval() {
    let mut vm = VirtualMachine::new();
    assert_eq!("3", eval_text(&mut vm, "(eval (quote 3))"));
    assert_eq!("(1 . 2)", eval_text(&mut vm, "(eval (quote (cons 1 2)))"));
}

#[test]
fn eval_arity_errors() {
    let mut vm = VirtualMachine::new();
    let expr = get_expression("(cons 1)");
    let pointer = build_ast(&mut vm, expr).unwrap();
    assert!(vm.evaluate(pointer).is_err());
    let expr = get_expression("(car 1 2)");
    let pointer = build_ast(&mut vm, expr).unwrap();
    assert!(vm.evaluate(pointer).is_err());
}

#[test]
fn eval_stack_balance() {
    let mut vm = VirtualMachine::new();
    let before = vm.stack.last;
    let _ = eval_text(&mut vm, "((fn (x) (cons x x)) (list 1 2 3))");
    assert_eq!(before, vm.stack.last);
    let _ = eval_text(&mut vm, "(eval (quote (car (cons 1 2))))");
    assert_eq!(before, vm.stack.last);
}

#[test]
fn parse_only_dotted() {
    let mut vm = VirtualMachine::new();
    assert_eq!("(1 2 . 3)", build_text(&mut vm, "(1 2 . 3)"));
}

#[test]
fn parse_only_quote_sugar() {
    let mut vm = VirtualMachine::new();
    assert_eq!("(quote (a b c))", build_text(&mut vm, "'(a b c)"));
}

#[test]
fn parse_only_quasiquote_splice() {
    let mut vm = VirtualMachine::new();
    assert_eq!("(quasiquote (foo (unquote-splice bar)))", build_text(&mut vm, "`(foo ,@bar)"));
}

#[test]
fn validate_input_balance() {
    assert_eq!(InputValidity::Valid, validate_input("(cons 1 2)"));
    assert_eq!(InputValidity::Incomplete, validate_input("(cons 1"));
    assert_eq!(InputValidity::Invalid, validate_input("cons 1 2)"));
    assert_eq!(InputValidity::Valid, validate_input("a \\( b"));
}

#[test]
fn eval_eq_numbers_by_value() {
    let mut vm = VirtualMachine::new();
    // Distinct numeric cells with the same value are eq.
    assert_eq!("t", eval_text(&mut vm, "(eq 1 1)"));
    assert_eq!("nil", eval_text(&mut vm, "(eq 1 2)"));
    assert_eq!("t", eval_text(&mut vm, "(eq 1.5 1.5)"));
    assert_eq!("t", eval_text(&mut vm, "(eq 2/3 2/3)"));
    assert_eq!("nil", eval_text(&mut vm, "(eq 1 (quote a))"));
}

#[test]
fn eval_do_single_form() {
    let mut vm = VirtualMachine::new();
    // A one-form body runs in tail position.
    assert_eq!("5", eval_text(&mut vm, "(do 5)"));
    // Sequencing several forms stays unimplemented.
    let expr = get_expression("(do 1 2)");
    let pointer = build_ast(&mut vm, expr).unwrap();
    assert!(vm.evaluate(pointer).is_err());
}

#[test]
fn eval_expression_errors() {
    let mut vm = VirtualMachine::new();
    // A list whose head is no function is an expression error.
    let expr = get_expression("(1 2)");
    let pointer = build_ast(&mut vm, expr).unwrap();
    assert!(vm.evaluate(pointer).is_err());
    // An unbound symbol in operator position is an expression error.
    let expr = get_expression("(frobnicate 1)");
    let pointer = build_ast(&mut vm, expr).unwrap();
    assert!(vm.evaluate(pointer).is_err());
}

#[test]
fn eval_nested_lambda() {
    let mut vm = VirtualMachine::new();
    assert_eq!("(a b)", eval_text(&mut vm, "((fn (x y) (list x y)) (quote a) (quote b))"));
    assert_eq!("(b . a)", eval_text(&mut vm, "((fn (x) (cons (car (cdr x)) (car x))) (list (quote a) (quote b)))"));
}
