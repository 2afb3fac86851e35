//! The reader's grammar, as recursive descent over characters: numbers
//! (integer, float, fraction, complex), symbols, strings, comments,
//! lists, dotted lists, conses, vectors and the reader prefixes.

use crate::parser::expression::{AtomExpr, Expr, NumberExpr, PrefixType};
use crate::printer::chars_to_string;
use vstd::prelude::*;

verus! {

/// Where a parse failed.
#[derive(Debug, Clone, Copy, PartialEq, Eq, Structural)]
pub struct ParseError {
    pub position: usize,
}

/// Whether `c` is Unicode whitespace, by `char::is_whitespace`.
pub uninterp spec fn char_is_whitespace(c: char) -> bool;

/// An ASCII digit.
pub open spec fn spec_is_digit(c: char) -> bool {
    '0' <= c && c <= '9'
}

/// The value of an ASCII digit.
pub open spec fn spec_digit_val(c: char) -> int {
    if c == '0' {
        0
    } else if c == '1' {
        1
    } else if c == '2' {
        2
    } else if c == '3' {
        3
    } else if c == '4' {
        4
    } else if c == '5' {
        5
    } else if c == '6' {
        6
    } else if c == '7' {
        7
    } else if c == '8' {
        8
    } else {
        9
    }
}

/// The first non-whitespace position at or after `i`.
pub open spec fn ws_end(s: Seq<char>, i: int) -> int
    decreases s.len() - i,
{
    if 0 <= i < s.len() && char_is_whitespace(s[i]) {
        ws_end(s, i + 1)
    } else {
        i
    }
}

/// The end of the ASCII digit run starting at `i`.
pub open spec fn digits_end(s: Seq<char>, i: int) -> int
    decreases s.len() - i,
{
    if 0 <= i < s.len() && spec_is_digit(s[i]) {
        digits_end(s, i + 1)
    } else {
        i
    }
}

/// The decimal value of the digit run `s[from..to]`.
pub open spec fn digits_val(s: Seq<char>, from: int, to: int) -> int
    decreases to - from,
{
    if to <= from {
        0
    } else {
        digits_val(s, from, to - 1) * 10 + spec_digit_val(s[to - 1])
    }
}

/// A digit run's value is never negative.
pub proof fn lemma_digits_val_nonneg(s: Seq<char>, from: int, to: int)
    ensures
        digits_val(s, from, to) >= 0,
    decreases to - from,
{
    if to > from {
        lemma_digits_val_nonneg(s, from, to - 1);
    }
}

/// Extending a digit run never shrinks its value.
pub proof fn lemma_digits_val_mono(s: Seq<char>, from: int, i: int, to: int)
    requires
        from <= i <= to,
    ensures
        digits_val(s, from, i) <= digits_val(s, from, to),
    decreases to - i,
{
    if i < to {
        lemma_digits_val_mono(s, from, i, to - 1);
        lemma_digits_val_nonneg(s, from, to - 1);
        assert(digits_val(s, from, to - 1) * 10 >= digits_val(s, from, to - 1)) by (nonlinear_arith)
            requires
                digits_val(s, from, to - 1) >= 0,
        ;
    }
}

/// The text at `pos` opens a float literal: an optional sign, digits, a
/// point and digits.
pub open spec fn float_shape(s: Seq<char>, pos: int) -> bool {
    0 <= pos < s.len() && ({
        let q0 = if s[pos] == '-' {
            pos + 1
        } else {
            pos
        };
        let d1 = digits_end(s, q0);
        d1 > q0 && d1 < s.len() && s[d1] == '.' && digits_end(s, d1 + 1) > d1 + 1
    })
}

/// Where the float literal at `pos` ends.
pub open spec fn float_end(s: Seq<char>, pos: int) -> int {
    let q0 = if s[pos] == '-' {
        pos + 1
    } else {
        pos
    };
    digits_end(s, digits_end(s, q0) + 1)
}

/// The text at `pos` opens a fraction literal: an optional sign, digits,
/// a slash and digits, and no float opens there.
pub open spec fn fraction_shape(s: Seq<char>, pos: int) -> bool {
    0 <= pos < s.len() && !float_shape(s, pos) && ({
        let q0 = if s[pos] == '-' {
            pos + 1
        } else {
            pos
        };
        let d1 = digits_end(s, q0);
        d1 > q0 && d1 < s.len() && s[d1] == '/' && digits_end(s, d1 + 1) > d1 + 1
    })
}

/// The text at `pos` opens a plain integer literal: an optional sign and
/// digits, with neither a float nor a fraction opening there.
pub open spec fn integer_shape(s: Seq<char>, pos: int) -> bool {
    0 <= pos < s.len() && !float_shape(s, pos) && !fraction_shape(s, pos) && ({
        let q0 = if s[pos] == '-' {
            pos + 1
        } else {
            pos
        };
        digits_end(s, q0) > q0
    })
}

/// The signed position after an optional minus sign.
pub open spec fn sign_start(s: Seq<char>, pos: int) -> int {
    if s[pos] == '-' {
        pos + 1
    } else {
        pos
    }
}

/// The signed value of the digit run `s[q0..d1]`, negative under a
/// leading minus.
pub open spec fn signed_digits_val(s: Seq<char>, pos: int, q0: int, d1: int) -> int {
    if s[pos] == '-' {
        -digits_val(s, q0, d1)
    } else {
        digits_val(s, q0, d1)
    }
}

/// Every character of a digit run is a digit, and the run is maximal.
pub proof fn lemma_digits_end_run(s: Seq<char>, i: int)
    requires
        0 <= i <= s.len(),
    ensures
        i <= digits_end(s, i) <= s.len(),
        forall|k: int| i <= k < digits_end(s, i) ==> spec_is_digit(s[k]),
        digits_end(s, i) < s.len() ==> !spec_is_digit(s[digits_end(s, i)]),
    decreases s.len() - i,
{
    if i < s.len() && spec_is_digit(s[i]) {
        lemma_digits_end_run(s, i + 1);
    }
}

/// A character a symbol may continue with.
pub open spec fn symbol_char_ok(c: char) -> bool {
    !spec_is_reserved(c) && !char_is_whitespace(c)
}

/// A character a symbol may start with.
pub open spec fn symbol_first_ok(c: char) -> bool {
    !spec_is_reserved(c) && !char_is_numeric(c) && !char_is_whitespace(c)
}

/// The end of the symbol-character run starting at `i`.
pub open spec fn symbol_run_end(s: Seq<char>, i: int) -> int
    decreases s.len() - i,
{
    if 0 <= i < s.len() && symbol_char_ok(s[i]) {
        symbol_run_end(s, i + 1)
    } else {
        i
    }
}

/// The position of the first `"` at or after `i`.
pub open spec fn quote_close(s: Seq<char>, i: int) -> int
    decreases s.len() - i,
{
    if 0 <= i < s.len() && s[i] != '"' {
        quote_close(s, i + 1)
    } else {
        i
    }
}

/// The position of the first line break at or after `i`.
pub open spec fn line_end(s: Seq<char>, i: int) -> int
    decreases s.len() - i,
{
    if 0 <= i < s.len() && s[i] != '\n' {
        line_end(s, i + 1)
    } else {
        i
    }
}

/// The signed magnitude fits an `i64`.
pub open spec fn signed_fits(s: Seq<char>, pos: int, q0: int, d1: int) -> bool {
    if s[pos] == '-' {
        digits_val(s, q0, d1) <= 0x8000_0000_0000_0000
    } else {
        digits_val(s, q0, d1) < 0x8000_0000_0000_0000
    }
}

/// Whether `c` is Unicode numeric, by `char::is_numeric`.
pub uninterp spec fn char_is_numeric(c: char) -> bool;

/// Relies on `char::is_whitespace`: the `White_Space` property of the
/// character alone; the ASCII space, tab and line breaks have it, and no
/// printable ASCII character other than the space does.
#[verifier::external_body]
fn is_whitespace_char(c: char) -> (r: bool)
    ensures
        r == char_is_whitespace(c),
        c == ' ' || c == '\t' || c == '\n' || c == '\r' ==> r,
        '!' <= c <= '~' ==> !r,
{
    c.is_whitespace()
}

/// Relies on `char::is_numeric`: the numeric general categories of the
/// character alone; the ASCII digits are among them.
#[verifier::external_body]
fn is_numeric_char(c: char) -> (r: bool)
    ensures
        r == char_is_numeric(c),
        '0' <= c <= '9' ==> r,
{
    c.is_numeric()
}

/// Relies on `str::chars`: the characters of the text, in order, which
/// are its view.
#[verifier::external_body]
fn str_to_chars(s: &str) -> (v: Vec<char>)
    ensures
        v@ == s@,
{
    s.chars().collect()
}

/// The characters that cannot appear in a symbol.
pub open spec fn spec_is_reserved(c: char) -> bool {
    c == '(' || c == ')' || c == '[' || c == ']' || c == '\'' || c == '`' || c == ',' || c == '"'
        || c == '@' || c == '.'
}

/// The characters that cannot appear in a symbol.
fn is_reserved_char(c: char) -> (r: bool)
    ensures
        r == spec_is_reserved(c),
{
    match c {
        '(' | ')' | '[' | ']' | '\'' | '`' | ',' | '"' | '@' | '.' => true,
        _ => false,
    }
}

/// The decimal value of an ASCII digit.
fn digit_value(c: char) -> (r: Option<u64>)
    ensures
        r matches Some(d) ==> d < 10,
        r is Some <==> spec_is_digit(c),
        r matches Some(d) ==> d as int == spec_digit_val(c),
{
    match c {
        '0' => Some(0),
        '1' => Some(1),
        '2' => Some(2),
        '3' => Some(3),
        '4' => Some(4),
        '5' => Some(5),
        '6' => Some(6),
        '7' => Some(7),
        '8' => Some(8),
        '9' => Some(9),
        _ => None,
    }
}

fn is_ascii_digit_char(c: char) -> (r: bool)
    ensures
        r == spec_is_digit(c),
{
    digit_value(c).is_some()
}

/// Repeated whitespace skipping stops where it stopped.
pub proof fn lemma_ws_end_idem(s: Seq<char>, i: int)
    ensures
        ws_end(s, ws_end(s, i)) == ws_end(s, i),
    decreases s.len() - i,
{
    if 0 <= i < s.len() && char_is_whitespace(s[i]) {
        lemma_ws_end_idem(s, i + 1);
    }
}

/// Advances past whitespace; everything passed over is whitespace, none
/// of it printable ASCII.
fn skip_ws(chars: &Vec<char>, pos: usize) -> (r: usize)
    requires
        pos <= chars@.len(),
    ensures
        pos <= r <= chars@.len(),
        r as int == ws_end(chars@, pos as int),
        forall|k: int|
            pos <= k < r ==> char_is_whitespace(#[trigger] chars@[k]) && !('!' <= chars@[k]
                && chars@[k] <= '~'),
    decreases chars@.len() - pos,
{
    if pos < chars.len() && is_whitespace_char(chars[pos]) {
        skip_ws(chars, pos + 1)
    } else {
        pos
    }
}

/// The end of the run of ASCII digits starting at `pos`.
fn scan_digits(chars: &Vec<char>, pos: usize) -> (r: usize)
    requires
        pos <= chars@.len(),
    ensures
        pos <= r <= chars@.len(),
        r as int == digits_end(chars@, pos as int),
    decreases chars@.len() - pos,
{
    if pos < chars.len() && is_ascii_digit_char(chars[pos]) {
        scan_digits(chars, pos + 1)
    } else {
        pos
    }
}

/// The value of the digit run `chars[from..to]`, as long as it stays
/// within an `i64` magnitude (`2^63`).
fn digits_to_u64(chars: &Vec<char>, from: usize, to: usize) -> (r: Option<u64>)
    requires
        from <= to <= chars@.len(),
    ensures
        r matches Some(m) ==> m <= 0x8000_0000_0000_0000,
        r matches Some(m) ==> m as int == digits_val(chars@, from as int, to as int),
        (forall|k: int| from <= k < to ==> spec_is_digit(chars@[k])) && digits_val(
            chars@,
            from as int,
            to as int,
        ) <= 0x8000_0000_0000_0000 ==> r is Some,
{
    let mut acc: u64 = 0;
    let mut i: usize = from;
    while i < to
        invariant
            from <= i <= to,
            to <= chars@.len(),
            acc <= 0x8000_0000_0000_0000,
            acc as int == digits_val(chars@, from as int, i as int),
            forall|k: int| from <= k < i ==> spec_is_digit(chars@[k]),
        decreases to - i,
    {
        let d: u64 = match digit_value(chars[i]) {
            Some(d) => d,
            None => {
                return None;
            },
        };
        if acc > (0x8000_0000_0000_0000u64 - d) / 10 {
            proof {
                if (forall|k: int| from <= k < to ==> spec_is_digit(chars@[k])) && digits_val(
                    chars@,
                    from as int,
                    to as int,
                ) <= 0x8000_0000_0000_0000 {
                    lemma_digits_val_mono(chars@, from as int, i as int + 1, to as int);
                    assert(digits_val(chars@, from as int, i as int + 1) == acc * 10 + d);
                    assert(acc * 10 + d <= 0x8000_0000_0000_0000);
                    assert(acc <= (0x8000_0000_0000_0000u64 - d) / 10) by (nonlinear_arith)
                        requires
                            acc * 10 + d <= 0x8000_0000_0000_0000,
                            d < 10,
                    ;
                }
            }
            return None;
        }
        proof {
            assert(acc * 10 + d <= 0x8000_0000_0000_0000) by (nonlinear_arith)
                requires
                    acc <= (0x8000_0000_0000_0000u64 - d) / 10,
                    d < 10,
            ;
        }
        acc = acc * 10 + d;
        i = i + 1;
    }
    Some(acc)
}

/// A signed integer from a sign flag and a magnitude.
fn signed_value(neg: bool, mag: u64) -> (r: Option<i64>)
    requires
        mag <= 0x8000_0000_0000_0000,
    ensures
        neg ==> (r matches Some(v) && v as int == -(mag as int)),
        !neg && mag < 0x8000_0000_0000_0000 ==> (r matches Some(v) && v as int == mag as int),
        !neg && mag == 0x8000_0000_0000_0000 ==> r is None,
{
    if neg {
        if mag == 0x8000_0000_0000_0000 {
            Some(-0x7FFF_FFFF_FFFF_FFFFi64 - 1)
        } else {
            Some(-(mag as i64))
        }
    } else {
        if mag == 0x8000_0000_0000_0000 {
            None
        } else {
            Some(mag as i64)
        }
    }
}

/// A real literal at `pos`: a float, a fraction or an integer, tried in
/// that order.
fn real_at(chars: &Vec<char>, pos: usize) -> (r: Option<(NumberExpr, usize)>)
    requires
        pos <= chars@.len(),
    ensures
        r matches Some(p) ==> pos < p.1 <= chars@.len(),
        ({
            let s = chars@;
            if pos as int >= s.len() {
                r is None
            } else {
                let q0 = sign_start(s, pos as int);
                let d1 = digits_end(s, q0);
                if d1 == q0 {
                    r is None
                } else if float_shape(s, pos as int) {
                    r matches Some(p) && p.1 as int == float_end(s, pos as int) && (
                    p.0 matches NumberExpr::Float(t) && t@ == s.subrange(
                        pos as int,
                        float_end(s, pos as int),
                    ))
                } else if fraction_shape(s, pos as int) {
                    let d2 = digits_end(s, d1 + 1);
                    if signed_fits(s, pos as int, q0, d1) && digits_val(s, d1 + 1, d2)
                        < 0x8000_0000_0000_0000 {
                        r matches Some(p) && p.1 as int == d2 && (
                        p.0 matches NumberExpr::Fraction(n, d) && n as int == signed_digits_val(
                            s,
                            pos as int,
                            q0,
                            d1,
                        ) && d as int == digits_val(s, d1 + 1, d2))
                    } else {
                        r is None
                    }
                } else {
                    if signed_fits(s, pos as int, q0, d1) {
                        r matches Some(p) && p.1 as int == d1 && (
                        p.0 matches NumberExpr::Integer(v) && v as int == signed_digits_val(
                            s,
                            pos as int,
                            q0,
                            d1,
                        ))
                    } else {
                        r is None
                    }
                }
            }
        }),
{
    proof {
        if (pos as int) < chars@.len() {
            lemma_digits_end_run(chars@, sign_start(chars@, pos as int));
            if digits_end(chars@, sign_start(chars@, pos as int)) + 1 <= chars@.len() {
                lemma_digits_end_run(
                    chars@,
                    digits_end(chars@, sign_start(chars@, pos as int)) + 1,
                );
            }
        }
    }
    if pos >= chars.len() {
        return None;
    }
    let neg = chars[pos] == '-';
    let q0: usize = if neg {
        pos + 1
    } else {
        pos
    };
    let d1 = scan_digits(chars, q0);
    if d1 == q0 {
        return None;
    }
    // Float: digits '.' digits.
    if d1 < chars.len() && chars[d1] == '.' {
        let d2 = scan_digits(chars, d1 + 1);
        if d2 > d1 + 1 {
            let text = chars_to_string(&subvec(chars, pos, d2));
            return Some((NumberExpr::Float(text), d2));
        }
    }
    // Fraction: digits '/' digits.
    if d1 < chars.len() && chars[d1] == '/' {
        let d2 = scan_digits(chars, d1 + 1);
        if d2 > d1 + 1 {
            let num_mag = digits_to_u64(chars, q0, d1);
            let den_mag = digits_to_u64(chars, d1 + 1, d2);
            match (num_mag, den_mag) {
                (Some(nm), Some(dm)) => {
                    match (signed_value(neg, nm), signed_value(false, dm)) {
                        (Some(n), Some(d)) => {
                            return Some((NumberExpr::Fraction(n, d), d2));
                        },
                        _ => {
                            return None;
                        },
                    }
                },
                _ => {
                    return None;
                },
            }
        }
    }
    // Integer.
    match digits_to_u64(chars, q0, d1) {
        Some(mag) => match signed_value(neg, mag) {
            Some(v) => Some((NumberExpr::Integer(v), d1)),
            None => None,
        },
        None => None,
    }
}

/// A copy of `chars[from..to]`.
fn subvec(chars: &Vec<char>, from: usize, to: usize) -> (v: Vec<char>)
    requires
        from <= to <= chars@.len(),
    ensures
        v@ == chars@.subrange(from as int, to as int),
{
    let mut v: Vec<char> = Vec::new();
    let mut i: usize = from;
    while i < to
        invariant
            from <= i <= to,
            to <= chars@.len(),
            v@ =~= chars@.subrange(from as int, i as int),
        decreases to - i,
    {
        v.push(chars[i]);
        i = i + 1;
    }
    proof {
        assert(v@ =~= chars@.subrange(from as int, to as int));
    }
    v
}

/// A numeric literal at `pos`: a complex number when a real is followed
/// by `j` or `J` and another real, otherwise the real alone.
fn number_at(chars: &Vec<char>, pos: usize) -> (r: Option<(NumberExpr, usize)>)
    requires
        pos <= chars@.len(),
    ensures
        r matches Some(p) ==> pos < p.1 <= chars@.len(),
        ({
            let s = chars@;
            let q0 = sign_start(s, pos as int);
            let d1 = digits_end(s, q0);
            ((pos as int) < s.len() && integer_shape(s, pos as int) && signed_fits(
                s,
                pos as int,
                q0,
                d1,
            ) && (d1 == s.len() || char_is_whitespace(s[d1]))) ==> (r matches Some(p)
                && p.1 as int == d1 && (p.0 matches NumberExpr::Integer(v) && v as int
                == signed_digits_val(s, pos as int, q0, d1)))
        }),
{
    let (re, q) = match real_at(chars, pos) {
        Some(p) => p,
        None => {
            return None;
        },
    };
    if q < chars.len() && !is_whitespace_char(chars[q]) && (chars[q] == 'j' || chars[q] == 'J') {
        match real_at(chars, q + 1) {
            Some((im, q2)) => {
                return Some((NumberExpr::Complex(Box::new(re), Box::new(im)), q2));
            },
            None => {},
        }
    }
    Some((re, q))
}

/// A symbol at `pos`: a character that is not reserved, numeric or
/// whitespace, then any run of non-reserved non-whitespace characters.
fn symbol_at(chars: &Vec<char>, pos: usize) -> (r: Option<(String, usize)>)
    requires
        pos <= chars@.len(),
    ensures
        r matches Some(p) ==> pos < p.1 <= chars@.len(),
        ({
            let s = chars@;
            if (pos as int) < s.len() && symbol_first_ok(s[pos as int]) {
                r matches Some(p) && p.1 as int == symbol_run_end(s, pos as int + 1)
                    && p.0@ == s.subrange(pos as int, symbol_run_end(s, pos as int + 1))
            } else {
                r is None
            }
        }),
{
    if pos >= chars.len() {
        return None;
    }
    let c = chars[pos];
    if is_reserved_char(c) || is_numeric_char(c) || is_whitespace_char(c) {
        return None;
    }
    let mut end: usize = pos + 1;
    while end < chars.len() && !is_reserved_char(chars[end]) && !is_whitespace_char(chars[end])
        invariant
            pos < end <= chars@.len(),
            symbol_run_end(chars@, pos as int + 1) == symbol_run_end(chars@, end as int),
        decreases chars@.len() - end,
    {
        end = end + 1;
    }
    Some((chars_to_string(&subvec(chars, pos, end)), end))
}

/// A string literal at `pos`: `"` then any non-quote characters then `"`.
fn string_at(chars: &Vec<char>, pos: usize) -> (r: Option<(String, usize)>)
    requires
        pos <= chars@.len(),
    ensures
        r matches Some(p) ==> pos < p.1 <= chars@.len(),
        ({
            let s = chars@;
            if (pos as int) < s.len() && s[pos as int] == '"' && quote_close(s, pos as int + 1)
                < s.len() {
                r matches Some(p) && p.1 as int == quote_close(s, pos as int + 1) + 1 && p.0@
                    == s.subrange(pos as int + 1, quote_close(s, pos as int + 1))
            } else {
                r is None
            }
        }),
{
    if pos >= chars.len() || chars[pos] != '"' {
        return None;
    }
    let mut end: usize = pos + 1;
    while end < chars.len() && chars[end] != '"'
        invariant
            pos < end <= chars@.len(),
            quote_close(chars@, pos as int + 1) == quote_close(chars@, end as int),
        decreases chars@.len() - end,
    {
        end = end + 1;
    }
    if end >= chars.len() {
        return None;
    }
    Some((chars_to_string(&subvec(chars, pos + 1, end)), end + 1))
}

/// A comment at `pos`: `;` up to and including the end of the line.
fn comment_at(chars: &Vec<char>, pos: usize) -> (r: Option<(String, usize)>)
    requires
        pos <= chars@.len(),
    ensures
        r matches Some(p) ==> pos < p.1 <= chars@.len(),
        ({
            let s = chars@;
            if (pos as int) < s.len() && s[pos as int] == ';' && line_end(s, pos as int + 1)
                < s.len() {
                r matches Some(p) && p.1 as int == line_end(s, pos as int + 1) + 1 && p.0@
                    == s.subrange(pos as int + 1, line_end(s, pos as int + 1))
            } else {
                r is None
            }
        }),
{
    if pos >= chars.len() || chars[pos] != ';' {
        return None;
    }
    let mut end: usize = pos + 1;
    while end < chars.len() && chars[end] != '\n'
        invariant
            pos < end <= chars@.len(),
            line_end(chars@, pos as int + 1) == line_end(chars@, end as int),
        decreases chars@.len() - end,
    {
        end = end + 1;
    }
    if end >= chars.len() {
        return None;
    }
    Some((chars_to_string(&subvec(chars, pos + 1, end)), end + 1))
}

/// One expression at `pos`, leading and trailing whitespace consumed.
fn expr_at(chars: &Vec<char>, pos: usize) -> (r: Result<(Expr, usize), usize>)
    requires
        pos <= chars@.len(),
    ensures
        r matches Ok(p) ==> pos < p.1 <= chars@.len(),
        ({
            let s = chars@;
            let p = ws_end(s, pos as int);
            let q0 = sign_start(s, p);
            let d1 = digits_end(s, q0);
            (integer_shape(s, p) && signed_fits(s, p, q0, d1) && ws_end(s, d1) == s.len()) ==> (
            r matches Ok(pr) && pr.1 as int == s.len() && (pr.0 matches Expr::Atom(
                AtomExpr::Number(NumberExpr::Integer(v)),
            ) && v as int == signed_digits_val(s, p, q0, d1)))
        }),
    decreases chars@.len() - pos, 0int,
{
    proof {
        let s = chars@;
        let p = ws_end(s, pos as int);
        if integer_shape(s, p) {
            assert(s[p] == '-' || spec_is_digit(s[p]));
            let d1 = digits_end(s, sign_start(s, p));
            if ws_end(s, d1) == s.len() && d1 < s.len() {
                assert(char_is_whitespace(s[d1]));
            }
        }
    }
    let p = skip_ws(chars, pos);
    if p >= chars.len() {
        return Err(p);
    }
    let c = chars[p];
    if c == ';' {
        match comment_at(chars, p) {
            Some((text, q)) => Ok((Expr::Comment(text), skip_ws(chars, q))),
            None => Err(p),
        }
    } else if c == '\'' {
        let (inner, q) = expr_at(chars, p + 1)?;
        Ok((Expr::Prefixed(PrefixType::Quote, Box::new(inner)), q))
    } else if c == '`' {
        let (inner, q) = expr_at(chars, p + 1)?;
        Ok((Expr::Prefixed(PrefixType::Quasiquote, Box::new(inner)), q))
    } else if c == ',' {
        if p + 1 < chars.len() && chars[p + 1] == '@' {
            let (inner, q) = expr_at(chars, p + 2)?;
            Ok((Expr::Prefixed(PrefixType::UnquoteSplice, Box::new(inner)), q))
        } else {
            let (inner, q) = expr_at(chars, p + 1)?;
            Ok((Expr::Prefixed(PrefixType::Unquote, Box::new(inner)), q))
        }
    } else if c == '(' {
        delimited_at(chars, p + 1, true)
    } else if c == '[' {
        delimited_at(chars, p + 1, false)
    } else {
        // An atom: a number, a string or a symbol.
        match number_at(chars, p) {
            Some((ne, q)) => {
                return Ok((Expr::Atom(AtomExpr::Number(ne)), skip_ws(chars, q)));
            },
            None => {},
        }
        match string_at(chars, p) {
            Some((text, q)) => {
                return Ok((Expr::Atom(AtomExpr::String(text)), skip_ws(chars, q)));
            },
            None => {},
        }
        match symbol_at(chars, p) {
            Some((name, q)) => Ok((Expr::Atom(AtomExpr::Symbol(name)), skip_ws(chars, q))),
            None => Err(p),
        }
    }
}

/// The elements after `(` or `[`: a list, a dotted list or a cons for
/// parentheses, a vector for brackets.
fn delimited_at(chars: &Vec<char>, pos: usize, parens: bool) -> (r: Result<(Expr, usize), usize>)
    requires
        pos <= chars@.len(),
        pos >= 1,
    ensures
        r matches Ok(p) ==> pos - 1 < p.1 <= chars@.len(),
    decreases chars@.len() - pos, 1int,
{
    let closer = if parens {
        ')'
    } else {
        ']'
    };
    let mut elems: Vec<Expr> = Vec::new();
    let mut cur = skip_ws(chars, pos);
    loop
        invariant
            pos - 1 < cur <= chars@.len() || (cur == pos && pos <= chars@.len()),
            cur <= chars@.len(),
        decreases chars@.len() - cur,
    {
        if cur >= chars.len() {
            return Err(cur);
        }
        let c = chars[cur];
        if c == closer {
            let q = skip_ws(chars, cur + 1);
            if parens {
                return Ok((Expr::List(elems), q));
            } else {
                return Ok((Expr::Vector(elems), q));
            }
        }
        if parens && c == '.' {
            // A dotted tail: there must be elements before the dot and
            // exactly one expression after it.
            if elems.len() == 0 {
                return Err(cur);
            }
            let (fin, q) = expr_at(chars, cur + 1)?;
            if q >= chars.len() || chars[q] != ')' {
                return Err(q);
            }
            let q2 = skip_ws(chars, q + 1);
            if elems.len() == 1 {
                let first = match elems.pop() {
                    Some(e) => e,
                    None => {
                        return Err(cur);
                    },
                };
                return Ok((Expr::Cons(Box::new(first), Box::new(fin)), q2));
            }
            elems.push(fin);
            return Ok((Expr::DottedList(elems), q2));
        }
        let (e, q) = match expr_at(chars, cur) {
            Ok(p) => p,
            Err(ep) => {
                return Err(ep);
            },
        };
        elems.push(e);
        cur = q;
    }
}

/// The verdict on a line of input: balanced, missing closers, or closed
/// too often.
#[derive(Debug, Clone, Copy, PartialEq, Eq, Structural)]
pub enum InputValidity {
    Valid,
    Incomplete,
    Invalid,
}

/// The verdict reached by scanning from `i` with `count` parentheses
/// open, skipping the character after a backslash.
pub open spec fn spec_validate_from(s: Seq<char>, i: int, count: int, ignore_one: bool) -> InputValidity
    decreases s.len() - i,
{
    if i < 0 || i >= s.len() {
        if count > 0 {
            InputValidity::Incomplete
        } else {
            InputValidity::Valid
        }
    } else if ignore_one {
        spec_validate_from(s, i + 1, count, false)
    } else if s[i] == '(' {
        spec_validate_from(s, i + 1, count + 1, false)
    } else if s[i] == ')' {
        if count == 0 {
            InputValidity::Invalid
        } else {
            spec_validate_from(s, i + 1, count - 1, false)
        }
    } else if s[i] == '\\' {
        spec_validate_from(s, i + 1, count, true)
    } else {
        spec_validate_from(s, i + 1, count, false)
    }
}

/// Checks a line of input for balanced parentheses, with a backslash
/// protecting the next character: open parentheses make it incomplete, a
/// stray closer makes it invalid.
pub fn validate_input(text: &str) -> (r: InputValidity)
    ensures
        r == spec_validate_from(text@, 0, 0, false),
{
    let chars = str_to_chars(text);
    let n = chars.len();
    let mut i: usize = 0;
    let mut count: usize = 0;
    let mut ignore_one = false;
    while i < n
        invariant
            n == chars@.len(),
            chars@ == text@,
            i <= n,
            count <= i,
            spec_validate_from(text@, 0, 0, false) == spec_validate_from(
                text@,
                i as int,
                count as int,
                ignore_one,
            ),
        decreases n - i,
    {
        let c = chars[i];
        if ignore_one {
            ignore_one = false;
        } else if c == '(' {
            count = count + 1;
        } else if c == ')' {
            if count == 0 {
                return InputValidity::Invalid;
            }
            count = count - 1;
        } else if c == '\\' {
            ignore_one = true;
        }
        i = i + 1;
    }
    if count > 0 {
        InputValidity::Incomplete
    } else {
        InputValidity::Valid
    }
}

#[non_exhaustive]
pub struct Combinators;

impl Combinators {
    /// The whole text as one integer literal: whitespace, an optional
    /// sign and a digit run whose value fits an `i64`, then whitespace.
    pub fn integer(text: &str) -> (r: Option<Expr>)
        ensures
            ({
                let s = text@;
                let p = ws_end(s, 0);
                if p < s.len() && ({
                    let q0 = sign_start(s, p);
                    let d1 = digits_end(s, q0);
                    d1 > q0 && signed_fits(s, p, q0, d1) && ws_end(s, d1) == s.len()
                }) {
                    r matches Some(e) && (e matches Expr::Atom(
                        AtomExpr::Number(NumberExpr::Integer(v)),
                    ) && v as int == signed_digits_val(
                        s,
                        p,
                        sign_start(s, p),
                        digits_end(s, sign_start(s, p)),
                    ))
                } else {
                    r is None
                }
            }),
    {
        let chars = str_to_chars(text);
        let p = skip_ws(&chars, 0);
        proof {
            if (p as int) < chars@.len() {
                lemma_digits_end_run(chars@, sign_start(chars@, p as int));
            }
        }
        if p >= chars.len() {
            return None;
        }
        let neg = chars[p] == '-';
        let q0: usize = if neg {
            p + 1
        } else {
            p
        };
        let d1 = scan_digits(&chars, q0);
        if d1 == q0 {
            return None;
        }
        let v = match digits_to_u64(&chars, q0, d1) {
            Some(mag) => match signed_value(neg, mag) {
                Some(v) => v,
                None => {
                    return None;
                },
            },
            None => {
                return None;
            },
        };
        if skip_ws(&chars, d1) != chars.len() {
            return None;
        }
        Some(Expr::Atom(AtomExpr::Number(NumberExpr::Integer(v))))
    }

    /// The whole text as one float literal: whitespace, an optional sign,
    /// digits, a point and digits, then whitespace; the kept text is the
    /// literal as written.
    pub fn float(text: &str) -> (r: Option<Expr>)
        ensures
            ({
                let s = text@;
                let p = ws_end(s, 0);
                if float_shape(s, p) && ws_end(s, float_end(s, p)) == s.len() {
                    r matches Some(e) && (e matches Expr::Atom(
                        AtomExpr::Number(NumberExpr::Float(t)),
                    ) && t@ == s.subrange(p, float_end(s, p)))
                } else {
                    r is None
                }
            }),
    {
        let chars = str_to_chars(text);
        match real_at(&chars, skip_ws(&chars, 0)) {
            Some((ne, q)) => {
                if skip_ws(&chars, q) != chars.len() {
                    return None;
                }
                match ne {
                    NumberExpr::Float(s) => Some(Expr::Atom(AtomExpr::Number(NumberExpr::Float(s)))),
                    _ => None,
                }
            },
            None => None,
        }
    }

    /// The whole text as one fraction literal: whitespace, an optional
    /// sign, digits, a slash and digits, both parts fitting an `i64`,
    /// then whitespace.
    pub fn fraction(text: &str) -> (r: Option<Expr>)
        ensures
            ({
                let s = text@;
                let p = ws_end(s, 0);
                let q0 = sign_start(s, p);
                let d1 = digits_end(s, q0);
                let d2 = digits_end(s, d1 + 1);
                if fraction_shape(s, p) && signed_fits(s, p, q0, d1) && digits_val(s, d1 + 1, d2)
                    < 0x8000_0000_0000_0000 && ws_end(s, d2) == s.len() {
                    r matches Some(e) && (e matches Expr::Atom(
                        AtomExpr::Number(NumberExpr::Fraction(n, d)),
                    ) && n as int == signed_digits_val(s, p, q0, d1) && d as int == digits_val(
                        s,
                        d1 + 1,
                        d2,
                    ))
                } else {
                    r is None
                }
            }),
    {
        let chars = str_to_chars(text);
        match real_at(&chars, skip_ws(&chars, 0)) {
            Some((ne, q)) => {
                if skip_ws(&chars, q) != chars.len() {
                    return None;
                }
                match ne {
                    NumberExpr::Fraction(a, b) => Some(
                        Expr::Atom(AtomExpr::Number(NumberExpr::Fraction(a, b))),
                    ),
                    _ => None,
                }
            },
            None => None,
        }
    }

    /// The whole text as one real literal: a float, a fraction or an
    /// integer, tried in that order, fully consumed.
    pub fn real_number(text: &str) -> (r: Option<Expr>)
        ensures
            r matches Some(e) ==> e matches Expr::Atom(AtomExpr::Number(_)),
            ({
                let s = text@;
                let p = ws_end(s, 0);
                let q0 = sign_start(s, p);
                let d1 = digits_end(s, q0);
                let d2 = digits_end(s, d1 + 1);
                if float_shape(s, p) && ws_end(s, float_end(s, p)) == s.len() {
                    r matches Some(e) && (e matches Expr::Atom(
                        AtomExpr::Number(NumberExpr::Float(t)),
                    ) && t@ == s.subrange(p, float_end(s, p)))
                } else if fraction_shape(s, p) && signed_fits(s, p, q0, d1) && digits_val(
                    s,
                    d1 + 1,
                    d2,
                ) < 0x8000_0000_0000_0000 && ws_end(s, d2) == s.len() {
                    r matches Some(e) && (e matches Expr::Atom(
                        AtomExpr::Number(NumberExpr::Fraction(n, d)),
                    ) && n as int == signed_digits_val(s, p, q0, d1) && d as int == digits_val(
                        s,
                        d1 + 1,
                        d2,
                    ))
                } else if integer_shape(s, p) && signed_fits(s, p, q0, d1) && ws_end(s, d1)
                    == s.len() {
                    r matches Some(e) && (e matches Expr::Atom(
                        AtomExpr::Number(NumberExpr::Integer(v)),
                    ) && v as int == signed_digits_val(s, p, q0, d1))
                } else {
                    r is None
                }
            }),
    {
        let chars = str_to_chars(text);
        match real_at(&chars, skip_ws(&chars, 0)) {
            Some((ne, q)) => {
                if skip_ws(&chars, q) != chars.len() {
                    return None;
                }
                Some(Expr::Atom(AtomExpr::Number(ne)))
            },
            None => None,
        }
    }

    /// The whole text as one complex literal.
    pub fn complex(text: &str) -> (r: Option<Expr>)
        ensures
            r matches Some(e) ==> e matches Expr::Atom(
                AtomExpr::Number(NumberExpr::Complex(_, _)),
            ),
    {
        let chars = str_to_chars(text);
        match number_at(&chars, skip_ws(&chars, 0)) {
            Some((ne, q)) => {
                if skip_ws(&chars, q) != chars.len() {
                    return None;
                }
                match ne {
                    NumberExpr::Complex(a, b) => Some(
                        Expr::Atom(AtomExpr::Number(NumberExpr::Complex(a, b))),
                    ),
                    _ => None,
                }
            },
            None => None,
        }
    }

    /// The whole text as one numeric literal.
    pub fn number(text: &str) -> (r: Option<Expr>)
        ensures
            r matches Some(e) ==> e matches Expr::Atom(AtomExpr::Number(_)),
    {
        let chars = str_to_chars(text);
        match number_at(&chars, skip_ws(&chars, 0)) {
            Some((ne, q)) => {
                if skip_ws(&chars, q) != chars.len() {
                    return None;
                }
                Some(Expr::Atom(AtomExpr::Number(ne)))
            },
            None => None,
        }
    }

    /// The whole text as one symbol: whitespace, a character that is not
    /// reserved, numeric or whitespace, a run of non-reserved
    /// non-whitespace characters, then whitespace.
    pub fn symbol(text: &str) -> (r: Option<Expr>)
        ensures
            ({
                let s = text@;
                let p = ws_end(s, 0);
                if p < s.len() && symbol_first_ok(s[p]) && ws_end(s, symbol_run_end(s, p + 1))
                    == s.len() {
                    r matches Some(e) && (e matches Expr::Atom(AtomExpr::Symbol(t)) && t@
                        == s.subrange(p, symbol_run_end(s, p + 1)))
                } else {
                    r is None
                }
            }),
    {
        let chars = str_to_chars(text);
        match symbol_at(&chars, skip_ws(&chars, 0)) {
            Some((name, q)) => {
                if skip_ws(&chars, q) != chars.len() {
                    return None;
                }
                Some(Expr::Atom(AtomExpr::Symbol(name)))
            },
            None => None,
        }
    }

    /// The whole text as one string literal: whitespace, `"`, any
    /// non-quote characters, `"`, then whitespace.
    pub fn string(text: &str) -> (r: Option<Expr>)
        ensures
            ({
                let s = text@;
                let p = ws_end(s, 0);
                if p < s.len() && s[p] == '"' && quote_close(s, p + 1) < s.len() && ws_end(
                    s,
                    quote_close(s, p + 1) + 1,
                ) == s.len() {
                    r matches Some(e) && (e matches Expr::Atom(AtomExpr::String(t)) && t@
                        == s.subrange(p + 1, quote_close(s, p + 1)))
                } else {
                    r is None
                }
            }),
    {
        let chars = str_to_chars(text);
        match string_at(&chars, skip_ws(&chars, 0)) {
            Some((s, q)) => {
                if skip_ws(&chars, q) != chars.len() {
                    return None;
                }
                Some(Expr::Atom(AtomExpr::String(s)))
            },
            None => None,
        }
    }

    /// The whole text as one atomic expression: a number, a string or a
    /// symbol.
    pub fn atom(text: &str) -> (r: Option<Expr>)
        ensures
            r matches Some(e) ==> e matches Expr::Atom(_),
    {
        let chars = str_to_chars(text);
        let p = skip_ws(&chars, 0);
        match number_at(&chars, p) {
            Some((ne, q)) => {
                if skip_ws(&chars, q) == chars.len() {
                    return Some(Expr::Atom(AtomExpr::Number(ne)));
                }
                return None;
            },
            None => {},
        }
        match string_at(&chars, p) {
            Some((s, q)) => {
                if skip_ws(&chars, q) == chars.len() {
                    return Some(Expr::Atom(AtomExpr::String(s)));
                }
                return None;
            },
            None => {},
        }
        match symbol_at(&chars, p) {
            Some((name, q)) => {
                if skip_ws(&chars, q) == chars.len() {
                    return Some(Expr::Atom(AtomExpr::Symbol(name)));
                }
                None
            },
            None => None,
        }
    }

    /// The whole text as one comment: whitespace, `;`, the rest of the
    /// line including its break, then whitespace.
    pub fn comment(text: &str) -> (r: Option<Expr>)
        ensures
            ({
                let s = text@;
                let p = ws_end(s, 0);
                if p < s.len() && s[p] == ';' && line_end(s, p + 1) < s.len() && ws_end(
                    s,
                    line_end(s, p + 1) + 1,
                ) == s.len() {
                    r matches Some(e) && (e matches Expr::Comment(t) && t@ == s.subrange(
                        p + 1,
                        line_end(s, p + 1),
                    ))
                } else {
                    r is None
                }
            }),
    {
        let chars = str_to_chars(text);
        match comment_at(&chars, skip_ws(&chars, 0)) {
            Some((s, q)) => {
                if skip_ws(&chars, q) != chars.len() {
                    return None;
                }
                Some(Expr::Comment(s))
            },
            None => None,
        }
    }

    /// The whole text as one expression.  A plain integer literal text
    /// yields its integer atom; the other productions are checked by the
    /// grammar tests.
    pub fn expression(text: &str) -> (r: Option<Expr>)
        ensures
            ({
                let s = text@;
                let p = ws_end(s, 0);
                let q0 = sign_start(s, p);
                let d1 = digits_end(s, q0);
                (integer_shape(s, p) && signed_fits(s, p, q0, d1) && ws_end(s, d1) == s.len())
                    ==> (r matches Some(e) && (e matches Expr::Atom(
                    AtomExpr::Number(NumberExpr::Integer(v)),
                ) && v as int == signed_digits_val(s, p, q0, d1)))
            }),
    {
        let chars = str_to_chars(text);
        match expr_at(&chars, 0) {
            Ok((e, q)) => {
                if q == chars.len() {
                    Some(e)
                } else {
                    None
                }
            },
            Err(_) => None,
        }
    }

    /// The whole text as a sequence of expressions; an error carries the
    /// position where parsing failed.  A plain integer literal text
    /// yields exactly its integer atom.
    pub fn parser(text: &str) -> (r: Result<Vec<Expr>, ParseError>)
        ensures
            ({
                let s = text@;
                let p = ws_end(s, 0);
                let q0 = sign_start(s, p);
                let d1 = digits_end(s, q0);
                (integer_shape(s, p) && signed_fits(s, p, q0, d1) && ws_end(s, d1) == s.len())
                    ==> (r matches Ok(es) && es@.len() == 1 && (es@[0] matches Expr::Atom(
                    AtomExpr::Number(NumberExpr::Integer(v)),
                ) && v as int == signed_digits_val(s, p, q0, d1)))
            }),
    {
        let chars = str_to_chars(text);
        let ghost s = chars@;
        let ghost p0 = ws_end(s, 0);
        let ghost intcase = integer_shape(s, p0) && signed_fits(
            s,
            p0,
            sign_start(s, p0),
            digits_end(s, sign_start(s, p0)),
        ) && ws_end(s, digits_end(s, sign_start(s, p0))) == s.len();
        proof {
            lemma_ws_end_idem(s, 0);
        }
        let mut exprs: Vec<Expr> = Vec::new();
        let mut pos = skip_ws(&chars, 0);
        #[verifier::loop_isolation(false)]
        while pos < chars.len()
            invariant
                pos <= chars@.len(),
                intcase ==> ((pos as int == p0 && exprs@.len() == 0) || (pos as int == s.len()
                    && exprs@.len() == 1 && (exprs@[0] matches Expr::Atom(
                    AtomExpr::Number(NumberExpr::Integer(v)),
                ) && v as int == signed_digits_val(
                    s,
                    p0,
                    sign_start(s, p0),
                    digits_end(s, sign_start(s, p0)),
                )))),
            decreases chars@.len() - pos,
        {
            match expr_at(&chars, pos) {
                Ok((e, q)) => {
                    exprs.push(e);
                    pos = q;
                },
                Err(p) => {
                    return Err(ParseError { position: p });
                },
            }
        }
        Ok(exprs)
    }
}

} // verus!
