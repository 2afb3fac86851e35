//! Tests for the atom interner and the number table.

use majestic::vm::constants::ConstSymbol;
use majestic::vm::error::{LispError, LispResult};
use majestic::vm::types::{DataType, Number, TypedPointer, VirtualMachine, ATOM_TABLE_SIZE, NUMBER_TABLE_SIZE};

/// Create and assign a value to an atom.
#[test]
fn create_assign_atom() -> LispResult<()> {
    let mut vm = VirtualMachine::new();

    // create atom
    let atom_ptr = vm.make_atom("my-atom")?;

    // create number
    let number_ptr = vm.make_number(Number::Integer(10))?;

    // assign a value
    vm.assign_value(atom_ptr.clone(), number_ptr.clone())?;

    // lookup value assigned in atom table
    let atom = vm
        .atoms
        .area
        .get(atom_ptr.value)
        .ok_or(())
        .map_err(|_| LispError::internal("Could not find atom"))?;

    assert_eq!(atom.value, number_ptr);
    assert_eq!(atom.name, "my-atom");

    Ok(())
}

/// Test self-evaluating atoms `t` and `nil`.
#[test]
fn self_eval_atoms() -> LispResult<()> {
    let mut vm = VirtualMachine::new();

    let nil_ptr = vm.make_atom("nil")?;
    let t_ptr = vm.make_atom("t")?;

    // Check if equal to expected constants
    assert_eq!(nil_ptr, ConstSymbol::nil());
    assert_eq!(t_ptr, ConstSymbol::t());

    // Check if they are self evaluating
    let nil_val = vm.lookup_atom_value(nil_ptr.clone())?;
    let t_val = vm.lookup_atom_value(t_ptr.clone())?;

    assert_eq!(nil_ptr, nil_val);
    assert_eq!(ConstSymbol::nil(), nil_val);
    assert_eq!(t_ptr, t_val);
    assert_eq!(ConstSymbol::t(), t_val);

    Ok(())
}

/// Test number assignment.
/// - Creates an atom;
/// - Assigns some atom to it;
/// - Assigns a number to it;
/// - Assigns a new number to it (should reuse number slot);
/// - Assigns some atom again, rendering the number slot unused.
#[test]
fn assign_number() -> LispResult<()> {
    let mut vm = VirtualMachine::new();

    let my_atom = vm.make_atom("test")?;
    let my_number = vm.make_number(Number::Integer(50))?;

    // Assign atom to atom "test"
    vm.assign_value(my_atom.clone(), ConstSymbol::t())?;
    let lookup = vm.lookup_atom_value(my_atom.clone())?;
    assert_eq!(lookup.tag, DataType::Atom);
    assert_eq!(lookup, ConstSymbol::t());
    // (t is self-evaluating)
    assert_eq!(vm.atoms.area[lookup.value].name, "t");
    assert_eq!(vm.atoms.area[lookup.value].value, ConstSymbol::t());

    // Assign number 50 to atom "test", then assign 30
    vm.assign_value(my_atom.clone(), my_number.clone())?;
    let lookup = vm.lookup_atom_value(my_atom.clone())?;
    assert_eq!(lookup.tag, DataType::Number);
    assert_eq!(lookup, my_number);
    assert_eq!(vm.numbers.area[lookup.value], Number::Integer(50));

    let another_number = vm.make_number(Number::Integer(30))?;
    vm.assign_value(my_atom.clone(), another_number.clone())?;

    let lookup = vm.lookup_atom_value(my_atom.clone())?;
    assert_eq!(lookup.tag, DataType::Number);
    assert_eq!(lookup, my_number); // Pointers must be the same
    assert!(my_number != another_number); // Values must not use same pointer

    // Value was copied to old number slot
    assert_eq!(vm.numbers.area[lookup.value], Number::Integer(30));

    // Assign other atom to "test", forcing a number deallocation
    vm.assign_value(my_atom.clone(), ConstSymbol::t())?;

    // Old looked-up number must be on unused numbers stack
    assert!(vm.numbers.unused.contains(&lookup.value));

    // Check if t is really assigned to atom "test"
    let lookup = vm.lookup_atom_value(my_atom)?;
    assert_eq!(lookup.tag, DataType::Atom);
    assert_eq!(lookup, ConstSymbol::t());
    assert_eq!(vm.atoms.area[lookup.value].name, "t");
    assert_eq!(vm.atoms.area[lookup.value].value, ConstSymbol::t());

    Ok(())
}

/// Allocate `ATOM_TABLE_SIZE` atoms, then expect error while allocating
/// the next one.
#[test]
fn allocate_max_atoms() -> LispResult<()> {
    let mut vm = VirtualMachine::new();

    let mut counter: usize = 0;
    let mut gen_name = move || {
        let name = format!("generated-{}", counter);
        counter += 1;
        name
    };

    while vm.atoms.last < ATOM_TABLE_SIZE {
        let name = gen_name();
        vm.make_atom(&name)?;
    }

    assert!(vm.make_atom(&gen_name()).is_err());
    assert!(vm.make_atom(&gen_name()).is_err());
    assert!(vm.make_atom(&gen_name()).is_err());

    Ok(())
}

/// Allocate `NUMBER_TABLE_SIZE` numbers, then expect error while allocating
/// the next one.
#[test]
fn allocate_max_numbers() -> LispResult<()> {
    let mut vm = VirtualMachine::new();

    while vm.numbers.last < NUMBER_TABLE_SIZE {
        vm.make_number(Number::Integer(vm.numbers.last as i64))?;
    }

    assert!(vm.make_number(Number::Float("5.0".to_string())).is_err());
    assert!(vm.make_number(Number::Fraction(5, 6)).is_err());
    assert!(vm.make_number(Number::Integer(-6)).is_err());

    Ok(())
}

/// Test assignment and lookup with pointers that do not point to
/// atoms. These processes should fail.
#[test]
fn assign_to_non_atom() -> LispResult<()> {
    let mut vm = VirtualMachine::new();

    // Number 9, not assigned to any atom
    let number = vm.make_number(Number::Integer(9))?;

    // (t . nil), or (t)
    let cons = vm.make_cons()?;
    vm.set_car(&cons, ConstSymbol::t())?;
    vm.set_cdr(&cons, ConstSymbol::nil())?;

    // test number for assignment
    let test = vm.make_number(Number::Integer(10))?;

    // Attempt illegal assignments to non-atoms
    assert!(vm.assign_value(number.clone(), ConstSymbol::error()).is_err());
    assert!(vm.assign_value(number.clone(), test.clone()).is_err());
    assert!(vm.assign_value(cons.clone(), ConstSymbol::error()).is_err());
    assert!(vm.assign_value(cons.clone(), test).is_err());

    // Attempt illegal lookups to non-atoms
    assert!(vm.lookup_atom_value(number).is_err());
    assert!(vm.lookup_atom_value(cons).is_err());

    Ok(())
}

/// Test assignment and lookup with pointer to an atom that does not
/// exist. These processes should fail.
#[test]
fn assign_to_illegal_atom() -> LispResult<()> {
    let mut vm = VirtualMachine::new();

    let illegal_atom = TypedPointer { tag: DataType::Atom, value: 99999 };

    let test = vm.make_number(Number::Integer(10))?;

    let cons = vm.make_cons()?;
    vm.set_car(&cons, ConstSymbol::t())?;
    vm.set_cdr(&cons, ConstSymbol::nil())?;

    // Attempt illegal assignments to illegal atom
    assert!(vm.assign_value(illegal_atom.clone(), cons).is_err());
    assert!(vm.assign_value(illegal_atom.clone(), test).is_err());

    // Attempt illegal lookups to value of illegal atom
    assert!(vm.lookup_atom_value(illegal_atom).is_err());

    Ok(())
}
