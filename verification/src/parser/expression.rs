//! The parse tree: what the reader hands to the graph builder.

use vstd::prelude::*;

verus! {

/// A numeric literal.  A float keeps the text it was written as: the
/// machine does no arithmetic, so the text is the value.
#[derive(Debug)]
pub enum NumberExpr {
    Integer(i64),
    Float(String),
    Fraction(i64, i64),
    Complex(Box<NumberExpr>, Box<NumberExpr>),
}

/// An atomic expression: a number, a string literal or a symbol.
#[derive(Debug)]
pub enum AtomExpr {
    Number(NumberExpr),
    String(String),
    Symbol(String),
}

/// The reader prefixes: `'`, `` ` ``, `,` and `,@`.
#[derive(Debug, Clone, Copy, PartialEq, Eq, Structural)]
pub enum PrefixType {
    Quote,
    Quasiquote,
    Unquote,
    UnquoteSplice,
}

/// A parsed expression.  A `DottedList` holds the elements before the
/// dot and then the final element; a `Cons` is the two-element dotted
/// form.
#[derive(Debug)]
pub enum Expr {
    Atom(AtomExpr),
    Prefixed(PrefixType, Box<Expr>),
    List(Vec<Expr>),
    DottedList(Vec<Expr>),
    Vector(Vec<Expr>),
    Cons(Box<Expr>, Box<Expr>),
    Comment(String),
}

/// Structural equality of numeric literals, with texts compared by
/// characters.
pub open spec fn num_expr_eq(a: NumberExpr, b: NumberExpr) -> bool
    decreases a,
{
    match a {
        NumberExpr::Integer(x) => match b {
            NumberExpr::Integer(y) => x == y,
            _ => false,
        },
        NumberExpr::Float(s) => match b {
            NumberExpr::Float(t) => s@ == t@,
            _ => false,
        },
        NumberExpr::Fraction(x, y) => match b {
            NumberExpr::Fraction(z, w) => x == z && y == w,
            _ => false,
        },
        NumberExpr::Complex(ar, ai) => match b {
            NumberExpr::Complex(br, bi) => num_expr_eq(*ar, *br) && num_expr_eq(*ai, *bi),
            _ => false,
        },
    }
}

/// Structural equality of atomic expressions.
pub open spec fn atom_expr_eq(a: AtomExpr, b: AtomExpr) -> bool {
    match a {
        AtomExpr::Number(x) => match b {
            AtomExpr::Number(y) => num_expr_eq(x, y),
            _ => false,
        },
        AtomExpr::String(s) => match b {
            AtomExpr::String(t) => s@ == t@,
            _ => false,
        },
        AtomExpr::Symbol(s) => match b {
            AtomExpr::Symbol(t) => s@ == t@,
            _ => false,
        },
    }
}

/// Elementwise structural equality of expression sequences, from `i` on.
pub open spec fn expr_seq_eq_from(xs: Seq<Expr>, ys: Seq<Expr>, i: int) -> bool
    decreases xs, xs.len() - i,
{
    if i < 0 || i >= xs.len() {
        true
    } else {
        expr_eq(xs[i], ys[i]) && expr_seq_eq_from(xs, ys, i + 1)
    }
}

/// Structural equality of expression sequences.
pub open spec fn expr_seq_eq(xs: Seq<Expr>, ys: Seq<Expr>) -> bool
    decreases xs, xs.len() + 1,
{
    xs.len() == ys.len() && expr_seq_eq_from(xs, ys, 0)
}

/// Structural equality of expressions.
pub open spec fn expr_eq(a: Expr, b: Expr) -> bool
    decreases a,
{
    match a {
        Expr::Atom(x) => match b {
            Expr::Atom(y) => atom_expr_eq(x, y),
            _ => false,
        },
        Expr::Prefixed(p, ia) => match b {
            Expr::Prefixed(q, ib) => p == q && expr_eq(*ia, *ib),
            _ => false,
        },
        Expr::List(xs) => match b {
            Expr::List(ys) => expr_seq_eq(xs@, ys@),
            _ => false,
        },
        Expr::DottedList(xs) => match b {
            Expr::DottedList(ys) => expr_seq_eq(xs@, ys@),
            _ => false,
        },
        Expr::Vector(xs) => match b {
            Expr::Vector(ys) => expr_seq_eq(xs@, ys@),
            _ => false,
        },
        Expr::Cons(a1, d1) => match b {
            Expr::Cons(a2, d2) => expr_eq(*a1, *a2) && expr_eq(*d1, *d2),
            _ => false,
        },
        Expr::Comment(s) => match b {
            Expr::Comment(t) => s@ == t@,
            _ => false,
        },
    }
}

fn num_expr_eq_exec(a: &NumberExpr, b: &NumberExpr) -> (r: bool)
    ensures
        r == num_expr_eq(*a, *b),
    decreases *a,
{
    match a {
        NumberExpr::Integer(x) => match b {
            NumberExpr::Integer(y) => x == y,
            _ => false,
        },
        NumberExpr::Float(s) => match b {
            NumberExpr::Float(t) => s.eq(t),
            _ => false,
        },
        NumberExpr::Fraction(x, y) => match b {
            NumberExpr::Fraction(z, w) => x == z && y == w,
            _ => false,
        },
        NumberExpr::Complex(ar, ai) => match b {
            NumberExpr::Complex(br, bi) => num_expr_eq_exec(&**ar, &**br) && num_expr_eq_exec(
                &**ai,
                &**bi,
            ),
            _ => false,
        },
    }
}

fn atom_expr_eq_exec(a: &AtomExpr, b: &AtomExpr) -> (r: bool)
    ensures
        r == atom_expr_eq(*a, *b),
{
    match a {
        AtomExpr::Number(x) => match b {
            AtomExpr::Number(y) => num_expr_eq_exec(x, y),
            _ => false,
        },
        AtomExpr::String(s) => match b {
            AtomExpr::String(t) => s.eq(t),
            _ => false,
        },
        AtomExpr::Symbol(s) => match b {
            AtomExpr::Symbol(t) => s.eq(t),
            _ => false,
        },
    }
}

fn expr_vec_eq_exec(xs: &Vec<Expr>, ys: &Vec<Expr>) -> (r: bool)
    ensures
        r == expr_seq_eq(xs@, ys@),
    decreases *xs,
{
    if xs.len() != ys.len() {
        return false;
    }
    let mut i: usize = 0;
    while i < xs.len()
        invariant
            xs@.len() == ys@.len(),
            i <= xs@.len(),
            expr_seq_eq_from(xs@, ys@, 0) == expr_seq_eq_from(xs@, ys@, i as int),
        decreases xs@.len() - i,
    {
        if !expr_eq_exec(&xs[i], &ys[i]) {
            return false;
        }
        i = i + 1;
    }
    true
}

fn expr_eq_exec(a: &Expr, b: &Expr) -> (r: bool)
    ensures
        r == expr_eq(*a, *b),
    decreases *a,
{
    match a {
        Expr::Atom(x) => match b {
            Expr::Atom(y) => atom_expr_eq_exec(x, y),
            _ => false,
        },
        Expr::Prefixed(p, ia) => match b {
            Expr::Prefixed(q, ib) => *p == *q && expr_eq_exec(&**ia, &**ib),
            _ => false,
        },
        Expr::List(xs) => match b {
            Expr::List(ys) => expr_vec_eq_exec(xs, ys),
            _ => false,
        },
        Expr::DottedList(xs) => match b {
            Expr::DottedList(ys) => expr_vec_eq_exec(xs, ys),
            _ => false,
        },
        Expr::Vector(xs) => match b {
            Expr::Vector(ys) => expr_vec_eq_exec(xs, ys),
            _ => false,
        },
        Expr::Cons(a1, d1) => match b {
            Expr::Cons(a2, d2) => expr_eq_exec(&**a1, &**a2) && expr_eq_exec(&**d1, &**d2),
            _ => false,
        },
        Expr::Comment(s) => match b {
            Expr::Comment(t) => s.eq(t),
            _ => false,
        },
    }
}

impl PartialEq for NumberExpr {
    fn eq(&self, other: &NumberExpr) -> (r: bool) {
        num_expr_eq_exec(self, other)
    }
}

impl vstd::std_specs::cmp::PartialEqSpecImpl for NumberExpr {
    open spec fn obeys_eq_spec() -> bool {
        true
    }

    open spec fn eq_spec(&self, other: &NumberExpr) -> bool {
        num_expr_eq(*self, *other)
    }
}

impl PartialEq for AtomExpr {
    fn eq(&self, other: &AtomExpr) -> (r: bool) {
        atom_expr_eq_exec(self, other)
    }
}

impl vstd::std_specs::cmp::PartialEqSpecImpl for AtomExpr {
    open spec fn obeys_eq_spec() -> bool {
        true
    }

    open spec fn eq_spec(&self, other: &AtomExpr) -> bool {
        atom_expr_eq(*self, *other)
    }
}

impl PartialEq for Expr {
    fn eq(&self, other: &Expr) -> (r: bool) {
        expr_eq_exec(self, other)
    }
}

impl vstd::std_specs::cmp::PartialEqSpecImpl for Expr {
    open spec fn obeys_eq_spec() -> bool {
        true
    }

    open spec fn eq_spec(&self, other: &Expr) -> bool {
        expr_eq(*self, *other)
    }
}

impl Expr {
    /// A symbol expression with the given name.
    pub fn make_symbol(s: String) -> (r: Expr)
        ensures
            r == Expr::Atom(AtomExpr::Symbol(s)),
    {
        Expr::Atom(AtomExpr::Symbol(s))
    }

    /// A string expression with the given contents.
    pub fn make_string(s: String) -> (r: Expr)
        ensures
            r == Expr::Atom(AtomExpr::String(s)),
    {
        Expr::Atom(AtomExpr::String(s))
    }

    /// A cons expression of the two parts.
    pub fn make_cons(car: Expr, cdr: Expr) -> (r: Expr)
        ensures
            r == Expr::Cons(Box::new(car), Box::new(cdr)),
    {
        Expr::Cons(Box::new(car), Box::new(cdr))
    }
}

} // verus!
