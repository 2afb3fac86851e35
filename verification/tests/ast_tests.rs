//! Tests for building object graphs on a machine from parsed trees.

use majestic::parser::combinators::Combinators;
use majestic::parser::convert::build_ast;
use majestic::parser::expression::Expr;
use majestic::printer::format_object;
use majestic::vm::types::VirtualMachine;

/// The first expression parsed from fixed text; panics on syntax errors.
fn get_expression(text: &str) -> Expr {
    let mut parsed = Combinators::parser(text).expect("Given expression contains syntax errors");
    assert!(parsed.len() >= 1, "First expression");
    parsed.remove(0)
}

/// Builds the text's first expression on the machine and checks that it
/// prints back as `expected`.
fn generate_ast_test(vm: &mut VirtualMachine, text: &str, expected: &str) {
    let expr = get_expression(text);
    let pointer = build_ast(vm, expr).expect("Typed pointer to AST within virtual machine");
    assert_eq!(expected, format_object(vm, &pointer));
}

// atom
#[test]
fn convert_ast_atom() {
    let mut vm = VirtualMachine::new();
    generate_ast_test(&mut vm, "t", "t");
    generate_ast_test(&mut vm, "nil", "nil");
}

// list
#[test]
fn convert_ast_list() {
    let mut vm = VirtualMachine::new();
    generate_ast_test(&mut vm, "(1 2 3)", "(1 2 3)");
    generate_ast_test(&mut vm, "()", "nil");
}

// dotted list
#[test]
fn convert_ast_dotted_list() {
    let mut vm = VirtualMachine::new();
    generate_ast_test(&mut vm, "(1 2 3 . 4)", "(1 2 3 . 4)");
}

// cons
#[test]
fn convert_ast_cons() {
    let mut vm = VirtualMachine::new();
    generate_ast_test(&mut vm, "(5 . 4)", "(5 . 4)");
    generate_ast_test(&mut vm, "(1 . (2 . (3 . 4)))", "(1 2 3 . 4)");
    generate_ast_test(&mut vm, "(1 . (2 . nil))", "(1 2)");
}

// prefixed
#[test]
fn convert_ast_prefixed() {
    let mut vm = VirtualMachine::new();
    generate_ast_test(&mut vm, "(quote foo)", "(quote foo)");
    generate_ast_test(&mut vm, "(quasiquote foo)", "(quasiquote foo)");
    generate_ast_test(&mut vm, "(quasiquote (foo (unquote bar)))", "(quasiquote (foo (unquote bar)))");
    generate_ast_test(
        &mut vm,
        "(quasiquote (foo (unquote-splice bar)))",
        "(quasiquote (foo (unquote-splice bar)))",
    );

    generate_ast_test(&mut vm, "'foo", "(quote foo)");
    generate_ast_test(&mut vm, "`foo", "(quasiquote foo)");
    generate_ast_test(&mut vm, "`(foo ,bar)", "(quasiquote (foo (unquote bar)))");
    generate_ast_test(&mut vm, "`(foo ,@bar)", "(quasiquote (foo (unquote-splice bar)))");
}
