//! Tests for the reader's grammar.

use majestic::parser::combinators::Combinators;
use majestic::parser::expression::{AtomExpr, Expr, NumberExpr, PrefixType};

#[test]
fn parse_integer() {
    let helper = |i: i64| Some(Expr::Atom(AtomExpr::Number(NumberExpr::Integer(i))));

    assert_eq!(helper(5), Combinators::integer("5"));
    assert_eq!(helper(-2), Combinators::integer("-2"));
    assert_eq!(helper(0), Combinators::integer("0"));
    assert_eq!(helper(99), Combinators::integer("   99"));

    assert!(Combinators::integer("5e").is_none());
    assert!(Combinators::integer("e6").is_none());
    assert!(Combinators::integer("72     *").is_none());
}

#[test]
fn parse_float() {
    let test_parser = |text: &str| {
        Combinators::float(text)
            == Some(Expr::Atom(AtomExpr::Number(NumberExpr::Float(text.trim().to_string()))))
    };

    assert!(test_parser("1.0"));
    assert!(test_parser("0.0"));
    assert!(test_parser("-10.56"));

    assert!(Combinators::float("0.5.6").is_none());
    assert!(Combinators::float(".5").is_none());
    assert!(Combinators::float("-.5").is_none());
}

#[test]
fn parse_fraction() {
    let helper = |n: i64, d: i64| Some(Expr::Atom(AtomExpr::Number(NumberExpr::Fraction(n, d))));

    assert_eq!(helper(2, 3), Combinators::fraction("2/3"));
    assert_eq!(helper(3, 4), Combinators::fraction("3/4"));
    assert_eq!(helper(5, 8), Combinators::fraction("5/8"));
    assert_eq!(helper(4, 6), Combinators::fraction("4/6"));

    assert!(Combinators::fraction("2.0/3.0").is_none());
    assert!(Combinators::fraction("5j1/3").is_none());
}

#[test]
fn parse_real_numbers() {
    let helper = |n: NumberExpr| Some(Expr::Atom(AtomExpr::Number(n)));

    assert_eq!(helper(NumberExpr::Integer(200)), Combinators::real_number("200"));
    assert_eq!(helper(NumberExpr::Float("3.14".to_string())), Combinators::real_number("3.14"));
    assert_eq!(helper(NumberExpr::Fraction(2, 3)), Combinators::real_number("2/3"));

    assert!(Combinators::real_number("5e").is_none());
    assert!(Combinators::real_number("e6").is_none());
    assert!(Combinators::real_number("72     *").is_none());
    assert!(Combinators::real_number("0.5.6").is_none());
    assert!(Combinators::real_number(".5").is_none());
    assert!(Combinators::real_number("-.5").is_none());
    assert!(Combinators::real_number("2.0/3.0").is_none());
    assert!(Combinators::real_number("5j1/3").is_none());
}

// complex numbers
#[test]
fn parse_complex_numbers() {
    let helper = |r: NumberExpr, i: NumberExpr| {
        Some(Expr::Atom(AtomExpr::Number(NumberExpr::Complex(Box::new(r), Box::new(i)))))
    };

    assert_eq!(helper(NumberExpr::Integer(2), NumberExpr::Integer(3)), Combinators::complex("2j3"));
    assert_eq!(helper(NumberExpr::Integer(2), NumberExpr::Integer(3)), Combinators::complex("2J3"));
    assert_eq!(
        helper(NumberExpr::Float("3.5".to_string()), NumberExpr::Integer(9)),
        Combinators::complex("3.5j9")
    );
    assert_eq!(
        helper(NumberExpr::Float("3.5".to_string()), NumberExpr::Integer(9)),
        Combinators::complex("3.5J9")
    );

    assert!(Combinators::complex("j3").is_none());
    assert!(Combinators::complex("5j").is_none());
    assert!(Combinators::complex("2jj9").is_none());
    assert!(Combinators::complex("5j4j3").is_none());
}

// numbers (light test)
#[test]
fn parse_numbers() {
    let helper = |v: NumberExpr| Some(Expr::Atom(AtomExpr::Number(v)));

    assert_eq!(helper(NumberExpr::Integer(2)), Combinators::number("2"));
    assert_eq!(helper(NumberExpr::Float("3.14".to_string())), Combinators::number("3.14"));
    assert_eq!(helper(NumberExpr::Fraction(5, 3)), Combinators::number("5/3"));
    assert_eq!(
        helper(NumberExpr::Complex(
            Box::new(NumberExpr::Integer(10)),
            Box::new(NumberExpr::Fraction(6, 29))
        )),
        Combinators::number("10j6/29")
    );
}

// symbols
#[test]
fn parse_symbols() {
    let helper = |v: &str| Some(Expr::Atom(AtomExpr::Symbol(v.to_owned())));

    assert_eq!(helper("foo"), Combinators::symbol("foo"));
    assert_eq!(helper("*test*"), Combinators::symbol("*test*"));
    assert_eq!(helper("+bar+"), Combinators::symbol("+bar+"));
    assert_eq!(helper("setq"), Combinators::symbol("setq"));
    assert_eq!(helper("baz123"), Combinators::symbol("baz123"));

    assert!(Combinators::symbol("123foo").is_none());
}

// strings
#[test]
fn parse_string() {
    let helper = |v: &str| Some(Expr::Atom(AtomExpr::String(v.to_owned())));

    assert_eq!(helper("hello"), Combinators::string("\"hello\""));
    assert_eq!(helper("hello,\nworld"), Combinators::string("\"hello,\nworld\""));

    assert!(Combinators::string("\"hello my friend").is_none());
    assert!(Combinators::string("hello my friend\"").is_none());
}

// atoms
#[test]
fn parse_atom() {
    let number_helper = |v: NumberExpr| Some(Expr::Atom(AtomExpr::Number(v)));
    let symbol_helper = |v: &str| Some(Expr::Atom(AtomExpr::Symbol(v.to_owned())));
    let string_helper = |v: &str| Some(Expr::Atom(AtomExpr::String(v.to_owned())));

    assert_eq!(number_helper(NumberExpr::Integer(0)), Combinators::atom("0"));
    assert_eq!(number_helper(NumberExpr::Float("2.66".to_string())), Combinators::atom("2.66"));
    assert_eq!(number_helper(NumberExpr::Fraction(9, 12)), Combinators::atom("9/12"));
    assert_eq!(
        number_helper(NumberExpr::Complex(
            Box::new(NumberExpr::Float("5.98".to_string())),
            Box::new(NumberExpr::Float("27.9".to_string()))
        )),
        Combinators::atom("5.98J27.9")
    );
    assert_eq!(symbol_helper("bah"), Combinators::atom("bah"));
    assert_eq!(symbol_helper("*blah*"), Combinators::atom("*blah*"));
    assert_eq!(symbol_helper("+test+"), Combinators::atom("+test+"));
    assert_eq!(symbol_helper("eval"), Combinators::atom("eval"));
    assert_eq!(symbol_helper("lalala456"), Combinators::atom("lalala456"));
    assert_eq!(string_helper("how"), Combinators::atom("\"how\""));
    assert_eq!(string_helper("how\nare you?"), Combinators::atom("\"how\nare you?\""));

    assert!(Combinators::atom("5e").is_none());
    assert!(Combinators::atom("123foo").is_none());
    assert!(Combinators::atom("0.5.6").is_none());
    assert!(Combinators::atom(".5").is_none());
    assert!(Combinators::atom("-.5").is_none());
    assert!(Combinators::atom("2.0/3.0").is_none());
    assert!(Combinators::atom("5j").is_none());
    assert!(Combinators::atom("2jj9").is_none());
    assert!(Combinators::atom("5j4j3").is_none());
    assert!(Combinators::atom("\"hello my friend").is_none());
    assert!(Combinators::atom("hello my friend\"").is_none());
}

// comments
#[test]
fn parse_comment() {
    assert!(Combinators::comment("; this is a comment\n").is_some());
    assert!(Combinators::comment(";; this is another comment\n").is_some());
}

// expressions -- lists
#[test]
fn parse_expression_list() {
    let number_helper = |v: NumberExpr| Expr::Atom(AtomExpr::Number(v));
    let symbol_helper = |v: &str| Expr::Atom(AtomExpr::Symbol(v.to_owned()));
    let list_helper = |v: Vec<Expr>| Expr::List(v);

    assert_eq!(
        Some(list_helper(vec![
            number_helper(NumberExpr::Integer(1)),
            number_helper(NumberExpr::Integer(2)),
            number_helper(NumberExpr::Integer(3))
        ])),
        Combinators::expression("(1 2 3)")
    );

    assert_eq!(
        Some(list_helper(vec![
            symbol_helper("a"),
            symbol_helper("b"),
            symbol_helper("c")
        ])),
        Combinators::expression("(a b c)")
    );

    assert_eq!(Some(list_helper(vec![])), Combinators::expression("()"));

    assert_eq!(
        Some(list_helper(vec![
            symbol_helper("defn"),
            symbol_helper("square"),
            list_helper(vec![symbol_helper("x")]),
            list_helper(vec![
                symbol_helper("*"),
                symbol_helper("x"),
                symbol_helper("x")
            ])
        ])),
        Combinators::expression("(defn square (x) (* x x))")
    );

    assert!(Combinators::expression("(1 2 3 4").is_none());
    assert!(Combinators::expression("1 2 3 4)").is_none());
    assert!(Combinators::expression("(foo bar baz").is_none());
}

// expressions -- dotted lists
#[test]
fn parse_expression_dotted_list() {
    let number_helper = |v: NumberExpr| Expr::Atom(AtomExpr::Number(v));
    let symbol_helper = |v: &str| Expr::Atom(AtomExpr::Symbol(v.to_owned()));
    let dlist_helper = |v: Vec<Expr>| Expr::DottedList(v);

    assert_eq!(
        Some(dlist_helper(vec![
            number_helper(NumberExpr::Integer(1)),
            number_helper(NumberExpr::Integer(2)),
            number_helper(NumberExpr::Integer(3))
        ])),
        Combinators::expression("(1 2 . 3)")
    );

    assert_eq!(
        Some(dlist_helper(vec![
            symbol_helper("a"),
            symbol_helper("b"),
            symbol_helper("c")
        ])),
        Combinators::expression("(a b . c)")
    );

    assert!(Combinators::expression("(1 2 3 . 4").is_none());
    assert!(Combinators::expression("(1 2 . . 3 4)").is_none());
    assert!(Combinators::expression("1 2 3 . 4)").is_none());
    assert!(Combinators::expression("(foo bar . baz").is_none());
}

// expressions -- cons
#[test]
fn parse_expression_cons() {
    let number_helper = |v: NumberExpr| Expr::Atom(AtomExpr::Number(v));
    let symbol_helper = |v: &str| Expr::Atom(AtomExpr::Symbol(v.to_owned()));
    let cons_helper = |car: Expr, cdr: Expr| Expr::Cons(Box::new(car), Box::new(cdr));

    assert_eq!(
        Some(cons_helper(
            number_helper(NumberExpr::Integer(5)),
            number_helper(NumberExpr::Float("3.5".to_string()))
        )),
        Combinators::expression("(5 . 3.5)")
    );
    assert_eq!(
        Some(cons_helper(symbol_helper("baz"), symbol_helper("quux"))),
        Combinators::expression("(baz . quux)")
    );
    assert_eq!(
        Some(cons_helper(
            symbol_helper("foo"),
            cons_helper(
                symbol_helper("bar"),
                cons_helper(symbol_helper("baz"), symbol_helper("nil"))
            )
        )),
        Combinators::expression("(foo . (bar . (baz . nil)))")
    );

    assert!(Combinators::expression("(foo . bar").is_none());
    assert!(Combinators::expression("(foo . (bar .))").is_none());
    assert!(Combinators::expression("(foo .)").is_none());
    assert!(Combinators::expression("(. quux)").is_none());
}

// expressions -- vectors
#[test]
fn parse_expression_vector() {
    let number_helper = |v: NumberExpr| Expr::Atom(AtomExpr::Number(v));
    let symbol_helper = |v: &str| Expr::Atom(AtomExpr::Symbol(v.to_owned()));
    let vector_helper = |v: Vec<Expr>| Expr::Vector(v);

    assert_eq!(
        Some(vector_helper(vec![
            number_helper(NumberExpr::Integer(1)),
            number_helper(NumberExpr::Integer(2)),
            number_helper(NumberExpr::Integer(3))
        ])),
        Combinators::expression("[1 2 3]")
    );

    assert_eq!(
        Some(vector_helper(vec![
            symbol_helper("a"),
            symbol_helper("b"),
            symbol_helper("c")
        ])),
        Combinators::expression("[a b c]")
    );

    assert_eq!(Some(vector_helper(vec![])), Combinators::expression("[]"));

    assert!(Combinators::expression("[1 2 3 4").is_none());
    assert!(Combinators::expression("1 2 3 4]").is_none());
    assert!(Combinators::expression("[foo bar baz").is_none());
}

// expressions -- quote
#[test]
fn parse_expression_quote() {
    let number_helper = |v: NumberExpr| Expr::Atom(AtomExpr::Number(v));
    let symbol_helper = |v: &str| Expr::Atom(AtomExpr::Symbol(v.to_owned()));
    let list_helper = |v: Vec<Expr>| Expr::List(v);
    let dlist_helper = |v: Vec<Expr>| Expr::DottedList(v);
    let cons_helper = |car: Expr, cdr: Expr| Expr::Cons(Box::new(car), Box::new(cdr));
    let quote_helper = |v: Expr| Expr::Prefixed(PrefixType::Quote, Box::new(v));

    assert_eq!(
        Some(quote_helper(list_helper(vec![
            number_helper(NumberExpr::Integer(1)),
            number_helper(NumberExpr::Integer(2)),
            number_helper(NumberExpr::Integer(3))
        ]))),
        Combinators::expression("'(1 2 3)")
    );

    assert_eq!(
        Some(quote_helper(list_helper(vec![
            symbol_helper("a"),
            symbol_helper("b"),
            symbol_helper("c")
        ]))),
        Combinators::expression("'(a b c)")
    );

    assert_eq!(Some(quote_helper(list_helper(vec![]))), Combinators::expression("'()"));

    assert_eq!(
        Some(quote_helper(list_helper(vec![
            symbol_helper("defn"),
            symbol_helper("square"),
            list_helper(vec![symbol_helper("x")]),
            list_helper(vec![
                symbol_helper("*"),
                symbol_helper("x"),
                symbol_helper("x")
            ])
        ]))),
        Combinators::expression("'(defn square (x) (* x x))")
    );

    assert_eq!(
        Some(quote_helper(dlist_helper(vec![
            number_helper(NumberExpr::Integer(1)),
            number_helper(NumberExpr::Integer(2)),
            number_helper(NumberExpr::Integer(3))
        ]))),
        Combinators::expression("'(1 2 . 3)")
    );

    assert_eq!(
        Some(quote_helper(dlist_helper(vec![
            symbol_helper("a"),
            symbol_helper("b"),
            symbol_helper("c")
        ]))),
        Combinators::expression("'(a b . c)")
    );

    assert_eq!(
        Some(quote_helper(cons_helper(
            number_helper(NumberExpr::Integer(5)),
            number_helper(NumberExpr::Float("3.5".to_string()))
        ))),
        Combinators::expression("'(5 . 3.5)")
    );
    assert_eq!(
        Some(quote_helper(cons_helper(symbol_helper("baz"), symbol_helper("quux")))),
        Combinators::expression("'(baz . quux)")
    );
    assert_eq!(
        Some(quote_helper(cons_helper(
            symbol_helper("foo"),
            cons_helper(
                symbol_helper("bar"),
                cons_helper(symbol_helper("baz"), symbol_helper("nil"))
            )
        ))),
        Combinators::expression("'(foo . (bar . (baz . nil)))")
    );

    assert!(Combinators::expression("'(1 2 3 4").is_none());
    assert!(Combinators::expression("'(foo bar baz").is_none());
    assert!(Combinators::expression("'(1 2 3 . 4").is_none());
    assert!(Combinators::expression("'(foo bar . baz").is_none());
    assert!(Combinators::expression("'(foo . bar").is_none());
    assert!(Combinators::expression("'(foo . (bar .))").is_none());
    assert!(Combinators::expression("'(foo .)").is_none());
    assert!(Combinators::expression("'(. quux)").is_none());
}
