//! The printer: an internal object rendered back as text in canonical
//! surface syntax.  What each pointer prints is pinned by `spec_format`;
//! a pointer is printable when some recursion fuel suffices, which every
//! acyclic object has.

use crate::vm::constants::ConstSymbol;
use crate::vm::types::{DataType, Number, TypedPointer, VirtualMachine};
use vstd::prelude::*;
use vstd::string::StringExecFns;

verus! {

/// The decimal digit characters.
pub open spec fn dec_digit(d: int) -> char {
    if d == 0 {
        '0'
    } else if d == 1 {
        '1'
    } else if d == 2 {
        '2'
    } else if d == 3 {
        '3'
    } else if d == 4 {
        '4'
    } else if d == 5 {
        '5'
    } else if d == 6 {
        '6'
    } else if d == 7 {
        '7'
    } else if d == 8 {
        '8'
    } else {
        '9'
    }
}

/// The decimal text of a natural number, no leading zeros.
pub open spec fn dec_u64_text(n: nat) -> Seq<char>
    decreases n,
{
    if n < 10 {
        seq![dec_digit(n as int)]
    } else {
        dec_u64_text(n / 10) + seq![dec_digit((n % 10) as int)]
    }
}

/// The decimal text of a signed number.
pub open spec fn dec_i64_text(i: int) -> Seq<char> {
    if i < 0 {
        seq!['-'] + dec_u64_text((-i) as nat)
    } else {
        dec_u64_text(i as nat)
    }
}

/// The hexadecimal digit characters, lower case.
pub open spec fn hex_digit(d: int) -> char {
    if d < 10 {
        dec_digit(d)
    } else if d == 10 {
        'a'
    } else if d == 11 {
        'b'
    } else if d == 12 {
        'c'
    } else if d == 13 {
        'd'
    } else if d == 14 {
        'e'
    } else {
        'f'
    }
}

/// The hexadecimal text of a natural number, no leading zeros.
pub open spec fn hex_u64_text(n: nat) -> Seq<char>
    decreases n,
{
    if n < 16 {
        seq![hex_digit(n as int)]
    } else {
        hex_u64_text(n / 16) + seq![hex_digit((n % 16) as int)]
    }
}

/// `k` zero characters.
pub open spec fn zeros(k: int) -> Seq<char>
    decreases k,
{
    if k <= 0 {
        Seq::empty()
    } else {
        zeros(k - 1) + seq!['0']
    }
}

/// Hexadecimal text padded with zeros to at least eight digits.
pub open spec fn hex_pad8_text(n: nat) -> Seq<char> {
    zeros(8 - hex_u64_text(n).len()) + hex_u64_text(n)
}

/// The text of a numeric cell: decimal for integers, the accepted
/// literal for floats, `n/d` for fractions, `rJi` for complex numbers.
pub open spec fn spec_num_text(n: Number) -> Seq<char>
    decreases n,
{
    match n {
        Number::Undefined => "??number??"@,
        Number::Integer(i) => dec_i64_text(i as int),
        Number::Float(s) => s@,
        Number::Fraction(a, b) => dec_i64_text(a as int) + "/"@ + dec_i64_text(b as int),
        Number::Complex(re, im) => spec_num_text(*re) + "J"@ + spec_num_text(*im),
    }
}

/// What a pointer prints as, given recursion fuel for cons chains; `None`
/// when the pointer leads out of the allocated pools or the fuel runs
/// out.
pub open spec fn spec_format(vm: &VirtualMachine, p: TypedPointer, fuel: nat) -> Option<Seq<char>>
    decreases fuel,
{
    match p.tag {
        DataType::Undefined => Some("undefined"@),
        DataType::Number => if p.value < vm.numbers.area@.len() {
            Some(spec_num_text(vm.numbers.area@[p.value as int]))
        } else {
            None
        },
        DataType::Atom => if p.value < vm.atoms.area@.len() {
            Some(vm.atoms.area@[p.value as int].name@)
        } else {
            None
        },
        DataType::Function => Some("#<FUNCTION {0x"@ + hex_pad8_text(p.value as nat) + "}>"@),
        DataType::Literal => Some("#<LITERAL {0x"@ + hex_pad8_text(p.value as nat) + "}>"@),
        DataType::BuiltInFunction => Some(
            "#<BUILTIN-FUNCTION {0x"@ + hex_pad8_text(p.value as nat) + "}>"@,
        ),
        DataType::BuiltInLiteral => Some(
            "#<BUILTIN-LITERAL {0x"@ + hex_pad8_text(p.value as nat) + "}>"@,
        ),
        DataType::Environment => Some("#<ENV"@ + dec_u64_text(p.value as nat) + ">"@),
        DataType::Cons => if p.value < vm.lists.last && fuel > 0 {
            match spec_format_list(vm, p, (fuel - 1) as nat) {
                Some(t) => Some("("@ + t),
                None => None,
            }
        } else {
            None
        },
    }
}

/// The interior of a printed list: the car, then a space and the rest of
/// the chain, or a closing parenthesis at `nil`, or a dotted tail.
pub open spec fn spec_format_list(vm: &VirtualMachine, p: TypedPointer, fuel: nat) -> Option<
    Seq<char>,
>
    decreases fuel,
{
    if p.value >= vm.lists.last || fuel == 0 {
        None
    } else {
        let car = vm.lists.area@[p.value as int].car;
        let cdr = vm.lists.area@[p.value as int].cdr;
        match spec_format(vm, car, (fuel - 1) as nat) {
            None => None,
            Some(ct) => if cdr.tag == DataType::Cons {
                match spec_format_list(vm, cdr, (fuel - 1) as nat) {
                    None => None,
                    Some(rest) => Some(ct + " "@ + rest),
                }
            } else if cdr == ConstSymbol::spec_nil() {
                Some(ct + ")"@)
            } else {
                match spec_format(vm, cdr, (fuel - 1) as nat) {
                    None => None,
                    Some(dt) => Some(ct + " . "@ + dt + ")"@),
                }
            },
        }
    }
}

/// More fuel never changes what prints.
pub proof fn lemma_spec_format_mono(vm: &VirtualMachine, p: TypedPointer, f1: nat, f2: nat)
    requires
        f1 <= f2,
        spec_format(vm, p, f1) is Some,
    ensures
        spec_format(vm, p, f2) == spec_format(vm, p, f1),
    decreases f1,
{
    if p.tag == DataType::Cons {
        lemma_spec_format_list_mono(vm, p, (f1 - 1) as nat, (f2 - 1) as nat);
    }
}

pub proof fn lemma_spec_format_list_mono(vm: &VirtualMachine, p: TypedPointer, f1: nat, f2: nat)
    requires
        f1 <= f2,
        spec_format_list(vm, p, f1) is Some,
    ensures
        spec_format_list(vm, p, f2) == spec_format_list(vm, p, f1),
    decreases f1,
{
    let car = vm.lists.area@[p.value as int].car;
    let cdr = vm.lists.area@[p.value as int].cdr;
    lemma_spec_format_mono(vm, car, (f1 - 1) as nat, (f2 - 1) as nat);
    if cdr.tag == DataType::Cons {
        lemma_spec_format_list_mono(vm, cdr, (f1 - 1) as nat, (f2 - 1) as nat);
    } else if cdr != ConstSymbol::spec_nil() {
        lemma_spec_format_mono(vm, cdr, (f1 - 1) as nat, (f2 - 1) as nat);
    }
}

/// Any two sufficient fuels print the same text.
pub proof fn lemma_spec_format_unique(vm: &VirtualMachine, p: TypedPointer, f1: nat, f2: nat)
    requires
        spec_format(vm, p, f1) is Some,
        spec_format(vm, p, f2) is Some,
    ensures
        spec_format(vm, p, f1) == spec_format(vm, p, f2),
{
    if f1 <= f2 {
        lemma_spec_format_mono(vm, p, f1, f2);
    } else {
        lemma_spec_format_mono(vm, p, f2, f1);
    }
}

/// Relies on `String: FromIterator<char>`: collecting characters yields
/// the string of exactly those characters.
#[verifier::external_body]
pub(crate) fn chars_to_string(v: &Vec<char>) -> (r: String)
    ensures
        r@ == v@,
{
    v.iter().collect()
}

/// The decimal digit character for `d`.
fn digit_char(d: u64) -> (r: char)
    requires
        d < 10,
    ensures
        r == dec_digit(d as int),
{
    match d {
        0 => '0',
        1 => '1',
        2 => '2',
        3 => '3',
        4 => '4',
        5 => '5',
        6 => '6',
        7 => '7',
        8 => '8',
        _ => '9',
    }
}

/// The hexadecimal digit character for `d`.
fn hex_digit_char(d: u64) -> (r: char)
    requires
        d < 16,
    ensures
        r == hex_digit(d as int),
{
    if d < 10 {
        digit_char(d)
    } else {
        match d {
            10 => 'a',
            11 => 'b',
            12 => 'c',
            13 => 'd',
            14 => 'e',
            _ => 'f',
        }
    }
}

/// The decimal digits of `n`.
fn u64_text(n: u64) -> (v: Vec<char>)
    ensures
        v@ == dec_u64_text(n as nat),
    decreases n,
{
    if n < 10 {
        let mut v: Vec<char> = Vec::new();
        v.push(digit_char(n));
        proof {
            assert(v@ =~= seq![dec_digit(n as int)]);
        }
        v
    } else {
        let mut v = u64_text(n / 10);
        v.push(digit_char(n % 10));
        proof {
            assert(v@ =~= dec_u64_text((n / 10) as nat) + seq![dec_digit((n % 10) as int)]);
        }
        v
    }
}

/// The decimal text of `i`, with a leading minus sign when negative.
fn i64_text(i: i64) -> (v: Vec<char>)
    ensures
        v@ == dec_i64_text(i as int),
{
    if i >= 0 {
        u64_text(i as u64)
    } else {
        let mag: u64 = ((-(i + 1)) as u64) + 1;
        proof {
            assert(mag as int == -(i as int));
        }
        let mut v = u64_text(mag);
        v.insert(0, '-');
        proof {
            assert(v@ =~= seq!['-'] + dec_u64_text(mag as nat));
        }
        v
    }
}

/// The hexadecimal text of `n` padded to at least eight digits.
fn hex_pad8(n: u64) -> (r: String)
    ensures
        r@ == hex_pad8_text(n as nat),
{
    let mut h: Vec<char> = hex_u64(n);
    let mut v: Vec<char> = Vec::new();
    let hlen = h.len();
    let mut k: usize = hlen;
    while k < 8
        invariant
            hlen == h@.len(),
            hlen <= k,
            k <= 8 || k == hlen,
            v@ =~= zeros(k - hlen),
        decreases 8 - k,
    {
        v.push('0');
        k = k + 1;
    }
    proof {
        assert(h@.take(0) =~= Seq::<char>::empty());
        if hlen < 8 {
            assert(k == 8);
            assert(v@ =~= zeros(8 - hlen) + h@.take(0));
        } else {
            assert(k == hlen);
            assert(v@ =~= zeros(0) + h@.take(0));
        }
    }
    let mut j: usize = 0;
    while j < h.len()
        invariant
            hlen == h@.len(),
            j <= hlen,
            v@ =~= zeros(if hlen < 8 {
                8 - hlen
            } else {
                0
            }) + h@.take(j as int),
        decreases h@.len() - j,
    {
        v.push(h[j]);
        j = j + 1;
    }
    proof {
        assert(h@.take(hlen as int) =~= h@);
        if hlen >= 8 {
            assert(zeros(8 - hlen as int) =~= Seq::<char>::empty());
            assert(zeros(0) =~= Seq::<char>::empty());
        }
        assert(v@ =~= hex_pad8_text(n as nat));
    }
    chars_to_string(&v)
}

/// The hexadecimal digits of `n`.
fn hex_u64(n: u64) -> (v: Vec<char>)
    ensures
        v@ == hex_u64_text(n as nat),
    decreases n,
{
    if n < 16 {
        let mut v: Vec<char> = Vec::new();
        v.push(hex_digit_char(n));
        proof {
            assert(v@ =~= seq![hex_digit(n as int)]);
        }
        v
    } else {
        let mut v = hex_u64(n / 16);
        v.push(hex_digit_char(n % 16));
        proof {
            assert(v@ =~= hex_u64_text((n / 16) as nat) + seq![hex_digit((n % 16) as int)]);
        }
        v
    }
}

/// The text of a numeric cell.
fn format_number(n: &Number) -> (r: String)
    ensures
        r@ == spec_num_text(*n),
    decreases *n,
{
    match n {
        Number::Undefined => String::from_str("??number??"),
        Number::Integer(i) => chars_to_string(&i64_text(*i)),
        Number::Float(s) => s.clone(),
        Number::Fraction(a, b) => {
            let mut r = chars_to_string(&i64_text(*a));
            r.append("/");
            let bt = chars_to_string(&i64_text(*b));
            r.append(bt.as_str());
            r
        },
        Number::Complex(re, im) => {
            let mut r = format_number(&**re);
            r.append("J");
            let it = format_number(&**im);
            r.append(it.as_str());
            r
        },
    }
}

fn format_object_rec(vm: &VirtualMachine, ptr: &TypedPointer, Ghost(fuel): Ghost<nat>) -> (r:
    String)
    requires
        vm.wf(),
        spec_format(vm, *ptr, fuel) is Some,
    ensures
        Some(r@) == spec_format(vm, *ptr, fuel),
    decreases fuel,
{
    match ptr.tag {
        DataType::Undefined => String::from_str("undefined"),
        DataType::Number => format_number(&vm.numbers.area[ptr.value]),
        DataType::Atom => vm.atoms.area[ptr.value].name.clone(),
        DataType::Function => {
            let mut r = String::from_str("#<FUNCTION {0x");
            let h = hex_pad8(ptr.value as u64);
            r.append(h.as_str());
            r.append("}>");
            r
        },
        DataType::Literal => {
            let mut r = String::from_str("#<LITERAL {0x");
            let h = hex_pad8(ptr.value as u64);
            r.append(h.as_str());
            r.append("}>");
            r
        },
        DataType::BuiltInFunction => {
            let mut r = String::from_str("#<BUILTIN-FUNCTION {0x");
            let h = hex_pad8(ptr.value as u64);
            r.append(h.as_str());
            r.append("}>");
            r
        },
        DataType::BuiltInLiteral => {
            let mut r = String::from_str("#<BUILTIN-LITERAL {0x");
            let h = hex_pad8(ptr.value as u64);
            r.append(h.as_str());
            r.append("}>");
            r
        },
        DataType::Environment => {
            let mut r = String::from_str("#<ENV");
            let d = chars_to_string(&u64_text(ptr.value as u64));
            r.append(d.as_str());
            r.append(">");
            r
        },
        DataType::Cons => {
            let mut r = String::from_str("(");
            let rest = format_list_rec(vm, ptr, Ghost((fuel - 1) as nat));
            r.append(rest.as_str());
            r
        },
    }
}

fn format_list_rec(vm: &VirtualMachine, ptr: &TypedPointer, Ghost(fuel): Ghost<nat>) -> (r: String)
    requires
        vm.wf(),
        spec_format_list(vm, *ptr, fuel) is Some,
    ensures
        Some(r@) == spec_format_list(vm, *ptr, fuel),
    decreases fuel,
{
    let car = vm.lists.area[ptr.value].car;
    let cdr = vm.lists.area[ptr.value].cdr;
    let mut r = format_object_rec(vm, &car, Ghost((fuel - 1) as nat));
    if cdr.tag == DataType::Cons {
        r.append(" ");
        let rest = format_list_rec(vm, &cdr, Ghost((fuel - 1) as nat));
        r.append(rest.as_str());
        r
    } else {
        let nil = ConstSymbol::nil();
        if cdr.tag == nil.tag && cdr.value == nil.value {
            r.append(")");
            r
        } else {
            r.append(" . ");
            let dt = format_object_rec(vm, &cdr, Ghost((fuel - 1) as nat));
            r.append(dt.as_str());
            r.append(")");
            r
        }
    }
}

/// The canonical text of an object: `undefined`, a number, an atom's
/// name, an opaque form for functions and markers, `#<ENVn>`, or a
/// parenthesised list with dotted tails preserved.
pub fn format_object(vm: &VirtualMachine, ptr: &TypedPointer) -> (r: String)
    requires
        vm.wf(),
        exists|f: nat| spec_format(vm, *ptr, f) is Some,
    ensures
        exists|f: nat| spec_format(vm, *ptr, f) == Some(r@),
{
    let ghost f = choose|f: nat| spec_format(vm, *ptr, f) is Some;
    format_object_rec(vm, ptr, Ghost(f))
}

/// The interior of a printed cons chain, without the opening parenthesis.
pub fn format_list(vm: &VirtualMachine, ptr: &TypedPointer) -> (r: String)
    requires
        vm.wf(),
        exists|f: nat| spec_format_list(vm, *ptr, f) is Some,
    ensures
        exists|f: nat| spec_format_list(vm, *ptr, f) == Some(r@),
{
    let ghost f = choose|f: nat| spec_format_list(vm, *ptr, f) is Some;
    format_list_rec(vm, ptr, Ghost(f))
}

} // verus!
