//! Tests for the printer and formatting functions.

use majestic::parser::combinators::Combinators;
use majestic::parser::convert::build_ast;
use majestic::parser::expression::Expr;
use majestic::printer::format_object;
use majestic::vm::constants::ConstSymbol;
use majestic::vm::types::{TypedPointer, VirtualMachine};
use regex::Regex;

/// Environment textual format, as in `#<ENV0>`.
const ENVIRONMENT_RE: &str = r"^(?u)#<ENV[0-9]*>$";

/// Function textual format, as in `#<FUNCTION {0xdeadbeef}>`.
const FUNCTION_RE: &str = r"(?u)^#<FUNCTION \{0x[0-9a-z]*\}>$";

/// Built-in function textual format.
const BUILTIN_FUNCTION_RE: &str = r"(?u)^#<BUILTIN-FUNCTION \{0x[0-9a-z]*\}>$";

/// Built-in literal textual format.
const BUILTIN_LITERAL_RE: &str = r"(?u)^#<BUILTIN-LITERAL \{0x[0-9a-z]*\}>$";

/// The first expression parsed from fixed text; panics on syntax errors.
fn get_expression(text: &str) -> Expr {
    let mut parsed = Combinators::parser(text).expect("Given expression contains syntax errors");
    assert!(parsed.len() >= 1, "First expression");
    parsed.remove(0)
}

fn generate_ast_test(vm: &mut VirtualMachine, text: &str, expected: &str) {
    let expr = get_expression(text);
    let pointer = build_ast(vm, expr).expect("Typed pointer to AST within virtual machine");
    assert_eq!(expected, format_object(vm, &pointer));
}

fn format_obj_like(vm: &VirtualMachine, ptr: &TypedPointer, re_text: &str) {
    let re = Regex::new(re_text).expect("Regex engine built");
    assert!(re.is_match(&format_object(vm, ptr)));
}

fn eval_obj_like(vm: &mut VirtualMachine, text: &str, re_text: &str) {
    let expr = get_expression(text);
    let ast_pointer = build_ast(vm, expr).expect("Typed pointer to AST within virtual machine");
    let pointer = vm.evaluate(ast_pointer).expect("Evaluated expression");
    format_obj_like(vm, &pointer, re_text);
}

// undefined
#[test]
fn format_undefined() {
    let vm = VirtualMachine::new();
    let undefined = TypedPointer::default();
    assert_eq!("undefined", format_object(&vm, &undefined));
}

// number
#[test]
fn format_number() {
    let mut vm = VirtualMachine::new();
    generate_ast_test(&mut vm, "-10", "-10");
    generate_ast_test(&mut vm, "2", "2");
    generate_ast_test(&mut vm, "3.14", "3.14");
    generate_ast_test(&mut vm, "-2.999", "-2.999");
    generate_ast_test(&mut vm, "3/5", "3/5");
    generate_ast_test(&mut vm, "-7/9", "-7/9");
    generate_ast_test(&mut vm, "2J5", "2J5");
    generate_ast_test(&mut vm, "2j5", "2J5");
    generate_ast_test(&mut vm, "-10J4", "-10J4");
    generate_ast_test(&mut vm, "-10j4", "-10J4");
    generate_ast_test(&mut vm, "2.66J5/6", "2.66J5/6");
    generate_ast_test(&mut vm, "2.66j5/6", "2.66J5/6");
    generate_ast_test(&mut vm, "0.32J9.23", "0.32J9.23");
    generate_ast_test(&mut vm, "0.32j9.23", "0.32J9.23");
}

// atom
#[test]
fn format_atom() {
    let mut vm = VirtualMachine::new();

    let num_registered_atoms = vm.atoms.last;

    generate_ast_test(&mut vm, "nil", "nil");
    generate_ast_test(&mut vm, "t", "t");
    generate_ast_test(&mut vm, "prim", "prim");
    generate_ast_test(&mut vm, "lit", "lit");
    generate_ast_test(&mut vm, "closure", "closure");
    generate_ast_test(&mut vm, "error", "error");
    generate_ast_test(&mut vm, "fn", "fn");
    generate_ast_test(&mut vm, "&", "&");
    generate_ast_test(&mut vm, "apply", "apply");
    generate_ast_test(&mut vm, "macro", "macro");
    generate_ast_test(&mut vm, "mac", "mac");
    generate_ast_test(&mut vm, "quote", "quote");
    generate_ast_test(&mut vm, "unquote", "unquote");
    generate_ast_test(&mut vm, "unquote-splice", "unquote-splice");
    generate_ast_test(&mut vm, "quasiquote", "quasiquote");
    generate_ast_test(&mut vm, "do", "do");
    generate_ast_test(&mut vm, "integer", "integer");
    generate_ast_test(&mut vm, "float", "float");
    generate_ast_test(&mut vm, "fraction", "fraction");
    generate_ast_test(&mut vm, "complex", "complex");
    generate_ast_test(&mut vm, "vector", "vector");
    generate_ast_test(&mut vm, "setq", "setq");

    assert_eq!(vm.atoms.last, num_registered_atoms, "atom table shouldn't grow");

    generate_ast_test(&mut vm, "foo", "foo");
    generate_ast_test(&mut vm, "*bar*", "*bar*");
    generate_ast_test(&mut vm, "+baz+", "+baz+");
    generate_ast_test(&mut vm, "+", "+");
    generate_ast_test(&mut vm, "-", "-");
    generate_ast_test(&mut vm, "*", "*");
    generate_ast_test(&mut vm, "/", "/");
    generate_ast_test(&mut vm, "α", "α");
    generate_ast_test(&mut vm, "β", "β");
    generate_ast_test(&mut vm, "γ", "γ");
    generate_ast_test(&mut vm, "+/÷≢", "+/÷≢");
    generate_ast_test(&mut vm, "×∘⍳¨", "×∘⍳¨");
    generate_ast_test(&mut vm, "عالم", "عالم");
    generate_ast_test(&mut vm, "世界", "世界");

    assert!(vm.atoms.last != num_registered_atoms, "atom table should grow");
}

// function
#[test]
fn format_function() {
    let mut vm = VirtualMachine::new();

    eval_obj_like(&mut vm, "(fn (x) (* x x))", FUNCTION_RE);
    eval_obj_like(&mut vm, "(fn (x y) (+ x y))", FUNCTION_RE);
    eval_obj_like(&mut vm, "(fn () (cons 1 2))", FUNCTION_RE);
}

// built-in function
#[test]
fn format_builtin_function() {
    let vm = VirtualMachine::new();

    format_obj_like(&vm, &ConstSymbol::bin_cons(), BUILTIN_FUNCTION_RE);
    format_obj_like(&vm, &ConstSymbol::bin_list(), BUILTIN_FUNCTION_RE);
    format_obj_like(&vm, &ConstSymbol::bin_car(), BUILTIN_FUNCTION_RE);
    format_obj_like(&vm, &ConstSymbol::bin_cdr(), BUILTIN_FUNCTION_RE);
    format_obj_like(&vm, &ConstSymbol::bin_eval(), BUILTIN_FUNCTION_RE);
    format_obj_like(&vm, &ConstSymbol::bin_eq(), BUILTIN_FUNCTION_RE);
}

// built-in literal
#[test]
fn format_builtin_literal() {
    let vm = VirtualMachine::new();

    format_obj_like(&vm, &ConstSymbol::done(), BUILTIN_LITERAL_RE);
    format_obj_like(&vm, &ConstSymbol::eval_args(), BUILTIN_LITERAL_RE);
    format_obj_like(&vm, &ConstSymbol::accumulate_arg(), BUILTIN_LITERAL_RE);
    format_obj_like(&vm, &ConstSymbol::accumulate_last_arg(), BUILTIN_LITERAL_RE);
    format_obj_like(&vm, &ConstSymbol::eval_assign(), BUILTIN_LITERAL_RE);
}

// environment
#[test]
fn format_environment() {
    let vm = VirtualMachine::new();

    format_obj_like(&vm, &ConstSymbol::e0(), ENVIRONMENT_RE);
}

// cons
#[test]
fn format_cons() {
    let mut vm = VirtualMachine::new();
    generate_ast_test(&mut vm, "(1 . 2)", "(1 . 2)");
    generate_ast_test(&mut vm, "(a . b)", "(a . b)");
    generate_ast_test(&mut vm, "(1 . b)", "(1 . b)");
    generate_ast_test(&mut vm, "(a . 2)", "(a . 2)");
    generate_ast_test(&mut vm, "(foo . bar)", "(foo . bar)");
    generate_ast_test(&mut vm, "(baz . quux)", "(baz . quux)");
    generate_ast_test(&mut vm, "((foo . bar) . (baz . quux))", "((foo . bar) baz . quux)");
}

// list
#[test]
fn format_list() {
    let mut vm = VirtualMachine::new();
    generate_ast_test(&mut vm, "(1 2)", "(1 2)");
    generate_ast_test(&mut vm, "(1 2 3)", "(1 2 3)");
    generate_ast_test(&mut vm, "(setq x 5)", "(setq x 5)");
    generate_ast_test(&mut vm, "(fn (x) (* x x))", "(fn (x) (* x x))");
    generate_ast_test(&mut vm, "(() () ())", "(nil nil nil)");
}

// dotted list
#[test]
fn format_dotted_list() {
    let mut vm = VirtualMachine::new();
    generate_ast_test(&mut vm, "(1 . 2)", "(1 . 2)");
    generate_ast_test(&mut vm, "(1 2 . 3)", "(1 2 . 3)");
    generate_ast_test(&mut vm, "(foo x . 5)", "(foo x . 5)");
    generate_ast_test(&mut vm, "(baz (x) . (* x . x))", "(baz (x) * x . x)");
    generate_ast_test(&mut vm, "(() () . ())", "(nil nil)");
}

// numbers on a bare machine
#[test]
fn format_numbers() {
    let mut vm = VirtualMachine::default();
    generate_ast_test(&mut vm, "1", "1");
    generate_ast_test(&mut vm, "3.14", "3.14");
    generate_ast_test(&mut vm, "2/5", "2/5");
    generate_ast_test(&mut vm, "3j4", "3J4");
}

// atoms on a bare machine
#[test]
fn format_atoms() {
    let mut vm = VirtualMachine::default();
    generate_ast_test(&mut vm, "foo", "foo");
    generate_ast_test(&mut vm, "foo-bar", "foo-bar");
    generate_ast_test(&mut vm, "*baz*", "*baz*");
}
