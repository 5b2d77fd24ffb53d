//! A shift (left, right) binary expression.

use vstd::prelude::*;
use vstd::string::*;
use crate::syntax::expression::{Expression, ExpressionPrecedenceContext};
use crate::syntax::expression::grammar::{spec_shift, spec_shift_op, ExpressionGrammar};
use crate::syntax::expression::bit::bit_expr_parser;
use crate::syntax::util::{just, parsed, parsed_view, whitespace_parser};

verus! {

/// A shift (left, right) binary expression.
#[derive(Debug)]
pub struct ShiftExpr<'a> {
    pub lhs: Box<Expression<'a>>,
    pub op: ShiftExprOp,
    pub rhs: Box<Expression<'a>>,
}

/// The shift operators: `<<` and `>>`.
#[derive(Debug, Clone, Copy, PartialEq, Eq, Structural)]
pub enum ShiftExprOp {
    Shl,
    Shr,
}

/// A shift operator at `pos`.
pub fn shift_op_parser(src: &str, pos: usize) -> (r: Option<(ShiftExprOp, usize)>)
    ensures
        parsed(r) == spec_shift_op(src.spec_bytes(), pos as int),
        r matches Some((_, end)) ==> pos <= end <= src.len(),
{
    match just(src, pos, "<<") {
        Some(q) => { return Some((ShiftExprOp::Shl, q)); },
        None => {},
    }
    match just(src, pos, ">>") {
        Some(q) => Some((ShiftExprOp::Shr, q)),
        None => None,
    }
}

/// A shift expression at `pos`: a bitwise expression, and at most one
/// `<<` or `>>` with a bitwise expression after it. The expression ends
/// before a second shift operator: to chain them takes parentheses. The
/// expressions nested in it are read by the rule `base`.
pub fn shift_expr_parser<'a>(base: ExpressionGrammar, src: &'a str, pos: usize) -> (r: Option<
    (Expression<'a>, usize),
>)
    ensures
        parsed_view(r) == spec_shift(src.spec_bytes(), pos as int, base),
        r matches Some((_, end)) ==> pos < end <= src.len(),
    decreases src.len() - pos, 12int,
{
    let (lhs, start) = match bit_expr_parser(base, src, pos) {
        Some(found) => found,
        None => { return None; },
    };
    let at = whitespace_parser(src, start);
    let (op, after) = match shift_op_parser(src, at) {
        Some(found) => found,
        None => { return Some((lhs, start)); },
    };
    let q = whitespace_parser(src, after);
    match bit_expr_parser(base, src, q) {
        Some((rhs, end)) => Some(
            (ExpressionPrecedenceContext::Shift(op).make_binary_expression(lhs, rhs), end),
        ),
        None => Some((lhs, start)),
    }
}

} // verus!
