//! Primary expressions: a terminal followed by calls and component
//! accesses.

use vstd::prelude::*;
use vstd::string::*;
use crate::syntax::expression::{expr_views, lemma_call_view, Expression};
use crate::syntax::expression::grammar::{
    spec_call_args, spec_call_args_rest, spec_call_tail, spec_dot_suffix, spec_dot_tail,
    spec_primary, spec_suffixes, ExpressionGrammar,
};
use crate::syntax::expression::terminal::terminal_expr_parser;
use crate::syntax::name::Name;
use crate::syntax::util::{byte_at, padded_byte, parsed_view};

verus! {

/// Access to a component of a value: `unit.health` or `point.0`.
#[derive(Debug)]
pub struct DotExpr<'a> {
    pub target: Box<Expression<'a>>,
    pub name: DotExprSuffix<'a>,
}

/// What follows the dot of a component access: a name, or a number from 0
/// to 3.
#[derive(Debug, Clone, PartialEq, Eq)]
pub enum DotExprSuffix<'a> {
    Name(Name<'a>),
    Number(u32),
}

/// A call: `callee(args, ...)`.
#[derive(Debug)]
pub struct CallExpr<'a> {
    pub callee: Box<Expression<'a>>,
    pub args: Vec<Expression<'a>>,
}

/// What follows the dot of a component access, at `pos`: a name, or one
/// of the digits 0 to 3.
pub fn dot_suffix_parser<'a>(src: &'a str, pos: usize) -> (r: Option<(DotExprSuffix<'a>, usize)>)
    ensures
        parsed_view(r) == spec_dot_suffix(src.spec_bytes(), pos as int),
        r matches Some((_, end)) ==> pos < end <= src.len(),
{
    match Name::parser(src, pos) {
        Some((name, end)) => { return Some((DotExprSuffix::Name(name), end)); },
        None => {},
    }
    match byte_at(src, pos) {
        Some(b) => if b == '0' as u8 {
            Some((DotExprSuffix::Number(0), pos + 1))
        } else if b == '1' as u8 {
            Some((DotExprSuffix::Number(1), pos + 1))
        } else if b == '2' as u8 {
            Some((DotExprSuffix::Number(2), pos + 1))
        } else if b == '3' as u8 {
            Some((DotExprSuffix::Number(3), pos + 1))
        } else {
            None
        },
        None => None,
    }
}

/// A component access at `pos`: a dot, with any whitespace around it, and
/// what follows it.
pub fn dot_tail_parser<'a>(src: &'a str, pos: usize) -> (r: Option<(DotExprSuffix<'a>, usize)>)
    ensures
        parsed_view(r) == spec_dot_tail(src.spec_bytes(), pos as int),
        r matches Some((_, end)) ==> pos < end <= src.len(),
{
    match padded_byte(src, pos, '.' as u8) {
        Some(q) => dot_suffix_parser(src, q),
        None => None,
    }
}

/// The arguments of a call, from `pos`: none, or expressions read by the
/// rule `base` and separated by commas. A comma after the last argument is
/// taken too.
pub fn call_args_parser<'a>(base: ExpressionGrammar, src: &'a str, pos: usize) -> (r: (
    Vec<Expression<'a>>,
    usize,
))
    ensures
        (expr_views(r.0@), r.1 as int) == spec_call_args(src.spec_bytes(), pos as int, base),
        pos <= r.1,
        pos <= src.len() ==> r.1 <= src.len(),
    decreases src.len() - pos, 21int,
{
    let mut args: Vec<Expression<'a>> = Vec::new();
    let (first, start) = match base.parser(src, pos) {
        Some(found) => found,
        None => {
            proof {
                assert(expr_views(args@) =~= seq![]);
            }
            return (args, pos);
        },
    };
    args.push(first);
    proof {
        assert(expr_views(args@) =~= seq![first@]);
    }
    let mut end: usize = start;
    let mut done = false;
    while !done
        invariant
            pos < end <= src.len(),
            spec_call_args(src.spec_bytes(), pos as int, base) == spec_call_args_rest(
                src.spec_bytes(),
                end as int,
                base,
                expr_views(args@),
            ),
            done ==> spec_call_args_rest(src.spec_bytes(), end as int, base, expr_views(args@)) == (
                expr_views(args@),
                end as int,
            ),
        decreases src.len() - end, if done { 0int } else { 1int },
    {
        let ghost acc = expr_views(args@);
        match padded_byte(src, end, ',' as u8) {
            Some(q) => match base.parser(src, q) {
                Some((arg, next)) => {
                    args.push(arg);
                    proof {
                        assert(expr_views(args@) =~= acc.push(arg@));
                    }
                    end = next;
                },
                None => {
                    return (args, q);
                },
            },
            None => {
                done = true;
            },
        }
    }
    (args, end)
}

/// The arguments of a call in their parentheses, at `pos`. Whitespace may
/// stand around each parenthesis.
pub fn call_tail_parser<'a>(base: ExpressionGrammar, src: &'a str, pos: usize) -> (r: Option<
    (Vec<Expression<'a>>, usize),
>)
    ensures
        match r {
            Some((args, end)) => spec_call_tail(src.spec_bytes(), pos as int, base) == Some(
                (expr_views(args@), end as int),
            ) && pos < end <= src.len(),
            None => spec_call_tail(src.spec_bytes(), pos as int, base) is None,
        },
    decreases src.len() - pos, 0int,
{
    let q = match padded_byte(src, pos, '(' as u8) {
        Some(q) => q,
        None => { return None; },
    };
    let (args, r) = call_args_parser(base, src, q);
    match padded_byte(src, r, ')' as u8) {
        Some(end) => Some((args, end)),
        None => None,
    }
}

/// A primary expression at `pos`: a terminal, and the calls and component
/// accesses that follow it, applied to it one after the other. The
/// expressions nested in it are read by the rule `base`.
pub fn primary_expr_parser<'a>(base: ExpressionGrammar, src: &'a str, pos: usize) -> (r: Option<
    (Expression<'a>, usize),
>)
    ensures
        parsed_view(r) == spec_primary(src.spec_bytes(), pos as int, base),
        r matches Some((_, end)) ==> pos < end <= src.len(),
    decreases src.len() - pos, 3int,
{
    let (terminal, start) = match terminal_expr_parser(base, src, pos) {
        Some(found) => found,
        None => { return None; },
    };
    let mut target = terminal;
    let mut end: usize = start;
    let mut done = false;
    while !done
        invariant
            pos < end <= src.len(),
            spec_primary(src.spec_bytes(), pos as int, base) == Some(
                spec_suffixes(src.spec_bytes(), end as int, base, target@),
            ),
            done ==> spec_suffixes(src.spec_bytes(), end as int, base, target@) == (
                target@,
                end as int,
            ),
        decreases src.len() - end, if done { 0int } else { 1int },
    {
        match call_tail_parser(base, src, end) {
            Some((args, next)) => {
                proof {
                    lemma_call_view(target, args);
                }
                target = Expression::Call(CallExpr { callee: Box::new(target), args });
                end = next;
            },
            None => match dot_tail_parser(src, end) {
                Some((name, next)) => {
                    target = Expression::Dot(DotExpr { target: Box::new(target), name });
                    end = next;
                },
                None => {
                    done = true;
                },
            },
        }
    }
    Some((target, end))
}

} // verus!
