//! Terminal expressions: names, integer literals and parenthesised
//! expressions.

use vstd::prelude::*;
use vstd::string::*;
use crate::syntax::error::{complete, result_view, spec_complete, ParseError};
use crate::syntax::expression::Expression;
use crate::syntax::expression::grammar::{
    is_digit_of, spec_digits, spec_digits_run, spec_digits_run_rest, spec_int_digits,
    spec_int_literal, spec_int_prefixed, spec_int_sign, spec_int_type, spec_paren, spec_terminal,
    ExpressionGrammar,
};
use crate::syntax::name::{spec_name_path, NamePath};
use crate::syntax::util::{
    ascii_slice, byte_at, just, just_byte, padded_byte, parsed_end, parsed_view,
    whitespace_parser,
};

verus! {

/// A name used as an expression.
#[derive(Debug)]
pub struct NameExpr<'a> {
    pub name: NamePath<'a>,
}

/// An integer literal. `value` is the run of digits as written, with its
/// underscores and without sign, base prefix or type suffix.
#[derive(Debug)]
pub struct IntLiteralExpr<'a> {
    pub sign: Option<IntLiteralExprSign>,
    pub base: Option<IntLiteralExprBase>,
    pub ty: Option<IntLiteralExprType>,
    pub value: &'a str,
}

/// The sign that an integer literal is written with.
#[derive(Clone, Copy, Debug, PartialEq, Eq, Structural)]
pub enum IntLiteralExprSign {
    Negative,
    Positive,
}

/// The base that the digits of an integer literal are written in.
#[derive(Clone, Copy, Debug, PartialEq, Eq, Structural)]
pub enum IntLiteralExprBase {
    Decimal,
    Hexadecimal,
    Binary,
    Octal,
}

/// The type that the suffix of an integer literal names.
#[derive(Clone, Copy, Debug, PartialEq, Eq, Structural)]
pub enum IntLiteralExprType {
    U32,
    I32,
}

/// An expression in parentheses.
#[derive(Debug)]
pub struct ParenExpr<'a> {
    pub subexpr: Box<Expression<'a>>,
}

/// True when `b` is a digit in the base `base`.
pub fn is_digit_in(base: IntLiteralExprBase, b: u8) -> (r: bool)
    ensures
        r == is_digit_of(base, b),
        r ==> b < 0x80,
{
    let dec = '0' as u8 <= b && b <= '9' as u8;
    match base {
        IntLiteralExprBase::Decimal => dec,
        IntLiteralExprBase::Hexadecimal => dec || ('a' as u8 <= b && b <= 'f' as u8) || ('A' as u8
            <= b && b <= 'F' as u8),
        IntLiteralExprBase::Binary => b == '0' as u8 || b == '1' as u8,
        IntLiteralExprBase::Octal => '0' as u8 <= b && b <= '7' as u8,
    }
}

/// Any run of digits in `base`, an empty one too.
pub fn digits_parser(src: &str, pos: usize, base: IntLiteralExprBase) -> (end: usize)
    ensures
        end as int == spec_digits(src.spec_bytes(), pos as int, base),
        pos <= end,
        pos < end ==> end <= src.len(),
        forall|k: int| pos <= k < end ==> src.spec_bytes()[k] < 0x80,
{
    let bytes = src.as_bytes();
    let mut end: usize = pos;
    while end < bytes.len() && is_digit_in(base, bytes[end])
        invariant
            bytes@ == src.spec_bytes(),
            pos <= end,
            pos < end ==> end <= bytes.len(),
            spec_digits(bytes@, pos as int, base) == spec_digits(bytes@, end as int, base),
            forall|k: int| pos <= k < end ==> bytes@[k] < 0x80,
        decreases bytes.len() - end,
    {
        end = end + 1;
    }
    end
}

impl<'a> NameExpr<'a> {
    /// A name at `pos`, as an expression.
    pub fn parser(src: &'a str, pos: usize) -> (r: Option<(NameExpr<'a>, usize)>)
        ensures
            match r {
                Some((e, end)) => spec_name_path(src.spec_bytes(), pos as int) == Some(
                    (e.name@, end as int),
                ) && pos < end <= src.len(),
                None => spec_name_path(src.spec_bytes(), pos as int) is None,
            },
    {
        match NamePath::parser(src, pos) {
            Some((name, end)) => Some((NameExpr { name }, end)),
            None => None,
        }
    }
}

impl<'a> IntLiteralExpr<'a> {
    /// A run of digits in `base` at `pos`: groups of one digit or more, with
    /// one underscore between each two.
    pub fn digits_run_parser(src: &str, pos: usize, base: IntLiteralExprBase) -> (r: Option<usize>)
        ensures
            parsed_end(r) == spec_digits_run(src.spec_bytes(), pos as int, base),
            r matches Some(end) ==> pos < end <= src.len() && forall|k: int|
                pos <= k < end ==> src.spec_bytes()[k] < 0x80,
    {
        let first_end = digits_parser(src, pos, base);
        if first_end == pos {
            return None;
        }
        let mut end: usize = first_end;
        let mut done = false;
        while !done
            invariant
                pos < end <= src.len(),
                spec_digits_run(src.spec_bytes(), pos as int, base) == Some(
                    spec_digits_run_rest(src.spec_bytes(), end as int, base),
                ),
                forall|k: int| pos <= k < end ==> src.spec_bytes()[k] < 0x80,
                done ==> spec_digits_run_rest(src.spec_bytes(), end as int, base) == end,
            decreases src.len() - end, if done { 0int } else { 1int },
        {
            match just_byte(src, end, '_' as u8) {
                Some(q) => {
                    let next = digits_parser(src, q, base);
                    if next > q {
                        end = next;
                    } else {
                        done = true;
                    }
                },
                None => {
                    done = true;
                },
            }
        }
        Some(end)
    }

    /// The sign of a literal at `pos`, with any whitespace around it, where
    /// there is one.
    pub fn sign_parser(src: &str, pos: usize) -> (r: (Option<IntLiteralExprSign>, usize))
        ensures
            (r.0, r.1 as int) == spec_int_sign(src.spec_bytes(), pos as int),
            pos <= r.1,
            pos <= src.len() ==> r.1 <= src.len(),
    {
        let q = whitespace_parser(src, pos);
        match byte_at(src, q) {
            Some(b) => if b == '-' as u8 {
                (Some(IntLiteralExprSign::Negative), whitespace_parser(src, q + 1))
            } else if b == '+' as u8 {
                (Some(IntLiteralExprSign::Positive), whitespace_parser(src, q + 1))
            } else {
                (None, pos)
            },
            None => (None, pos),
        }
    }

    /// The base prefix `prefix` at `pos` and a run of digits in `base`
    /// after it: the offsets at which the digits start and end.
    pub fn prefixed_parser(src: &str, pos: usize, prefix: &str, base: IntLiteralExprBase) -> (r:
        Option<(usize, usize)>)
        ensures
            match r {
                Some((from, to)) => spec_int_prefixed(
                    src.spec_bytes(),
                    pos as int,
                    prefix.spec_bytes(),
                    base,
                ) == Some((Some(base), from as int, to as int)) && pos <= from < to <= src.len()
                    && forall|k: int| from <= k < to ==> src.spec_bytes()[k] < 0x80,
                None => spec_int_prefixed(src.spec_bytes(), pos as int, prefix.spec_bytes(), base)
                    is None,
            },
    {
        match just(src, pos, prefix) {
            Some(q) => match IntLiteralExpr::digits_run_parser(src, q, base) {
                Some(end) => Some((q, end)),
                None => None,
            },
            None => None,
        }
    }

    /// The digits of a literal at `pos`, in one of the five forms: the base
    /// where it is written, and the offsets at which the digits start and
    /// end.
    pub fn digits_choice_parser(src: &str, pos: usize) -> (r: Option<
        (Option<IntLiteralExprBase>, usize, usize),
    >)
        ensures
            match r {
                Some((base, from, to)) => spec_int_digits(src.spec_bytes(), pos as int) == Some(
                    (base, from as int, to as int),
                ) && pos <= from < to <= src.len() && forall|k: int|
                    from <= k < to ==> src.spec_bytes()[k] < 0x80,
                None => spec_int_digits(src.spec_bytes(), pos as int) is None,
            },
    {
        match IntLiteralExpr::prefixed_parser(src, pos, "0d", IntLiteralExprBase::Decimal) {
            Some((from, to)) => { return Some((Some(IntLiteralExprBase::Decimal), from, to)); },
            None => {},
        }
        match IntLiteralExpr::prefixed_parser(src, pos, "0b", IntLiteralExprBase::Binary) {
            Some((from, to)) => { return Some((Some(IntLiteralExprBase::Binary), from, to)); },
            None => {},
        }
        match IntLiteralExpr::prefixed_parser(src, pos, "0o", IntLiteralExprBase::Octal) {
            Some((from, to)) => { return Some((Some(IntLiteralExprBase::Octal), from, to)); },
            None => {},
        }
        match IntLiteralExpr::prefixed_parser(src, pos, "0x", IntLiteralExprBase::Hexadecimal) {
            Some((from, to)) => { return Some((Some(IntLiteralExprBase::Hexadecimal), from, to));
            },
            None => {},
        }
        match IntLiteralExpr::digits_run_parser(src, pos, IntLiteralExprBase::Decimal) {
            Some(to) => Some((None, pos, to)),
            None => None,
        }
    }

    /// The type suffix of a literal at `pos`, where there is one.
    pub fn type_parser(src: &str, pos: usize) -> (r: (Option<IntLiteralExprType>, usize))
        ensures
            (r.0, r.1 as int) == spec_int_type(src.spec_bytes(), pos as int),
            pos <= r.1,
            pos <= src.len() ==> r.1 <= src.len(),
    {
        match just(src, pos, "_u32") {
            Some(q) => { return (Some(IntLiteralExprType::U32), q); },
            None => {},
        }
        match just(src, pos, "_i32") {
            Some(q) => (Some(IntLiteralExprType::I32), q),
            None => (None, pos),
        }
    }

    /// An integer literal at `pos`.
    pub fn parser(src: &'a str, pos: usize) -> (r: Option<(IntLiteralExpr<'a>, usize)>)
        ensures
            parsed_view(r) == spec_int_literal(src.spec_bytes(), pos as int),
            r matches Some((_, end)) ==> pos < end <= src.len(),
    {
        let (sign, start) = IntLiteralExpr::sign_parser(src, pos);
        match IntLiteralExpr::digits_choice_parser(src, start) {
            Some((base, from, to)) => {
                let (ty, end) = IntLiteralExpr::type_parser(src, to);
                let value = ascii_slice(src, from, to);
                Some((IntLiteralExpr { sign, base, ty, value }, end))
            },
            None => None,
        }
    }

    /// The whole of `src` as one integer literal.
    pub fn parse(src: &'a str) -> (r: Result<IntLiteralExpr<'a>, ParseError>)
        ensures
            result_view(r) == spec_complete(
                spec_int_literal(src.spec_bytes(), 0),
                src.spec_bytes().len() as int,
            ),
    {
        complete(IntLiteralExpr::parser(src, 0), src.as_bytes().len())
    }
}

impl<'a> ParenExpr<'a> {
    /// An expression in parentheses at `pos`. The expression inside is read
    /// by the rule `base`.
    pub fn parser(base: ExpressionGrammar, src: &'a str, pos: usize) -> (r: Option<
        (ParenExpr<'a>, usize),
    >)
        ensures
            match r {
                Some((e, end)) => spec_paren(src.spec_bytes(), pos as int, base) == Some(
                    (Expression::Paren(e)@, end as int),
                ) && pos < end <= src.len(),
                None => spec_paren(src.spec_bytes(), pos as int, base) is None,
            },
        decreases src.len() - pos, 1int,
    {
        let q = match padded_byte(src, pos, '(' as u8) {
            Some(q) => q,
            None => { return None; },
        };
        let (subexpr, r) = match base.parser(src, q) {
            Some(found) => found,
            None => { return None; },
        };
        match padded_byte(src, r, ')' as u8) {
            Some(end) => Some((ParenExpr { subexpr: Box::new(subexpr) }, end)),
            None => None,
        }
    }
}

/// A terminal at `pos`: a name, else an integer literal, else an expression
/// in parentheses. The expression inside parentheses is read by the rule
/// `base`.
pub fn terminal_expr_parser<'a>(base: ExpressionGrammar, src: &'a str, pos: usize) -> (r: Option<
    (Expression<'a>, usize),
>)
    ensures
        parsed_view(r) == spec_terminal(src.spec_bytes(), pos as int, base),
        r matches Some((_, end)) ==> pos < end <= src.len(),
    decreases src.len() - pos, 2int,
{
    match NameExpr::parser(src, pos) {
        Some((name, end)) => { return Some((Expression::Name(name), end)); },
        None => {},
    }
    match IntLiteralExpr::parser(src, pos) {
        Some((lit, end)) => { return Some((Expression::IntLiteral(lit), end)); },
        None => {},
    }
    match ParenExpr::parser(base, src, pos) {
        Some((paren, end)) => Some((Expression::Paren(paren), end)),
        None => None,
    }
}

} // verus!
