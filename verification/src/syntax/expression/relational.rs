//! A comparison.

use vstd::prelude::*;
use vstd::string::*;
use crate::syntax::expression::{Expression, ExpressionPrecedenceContext};
use crate::syntax::expression::grammar::{
    spec_relational, spec_relational_op, ExpressionGrammar,
};
use crate::syntax::expression::shift::shift_expr_parser;
use crate::syntax::util::{just, just_byte, parsed, parsed_view, whitespace_parser};

verus! {

/// A comparison.
#[derive(Debug)]
pub struct RelationalExpr<'a> {
    pub lhs: Box<Expression<'a>>,
    pub op: RelationalExprOp,
    pub rhs: Box<Expression<'a>>,
}

/// The comparison operators.
#[derive(Debug, Clone, Copy, PartialEq, Eq, Structural)]
pub enum RelationalExprOp {
    LessThan,
    LessThanOrEqual,
    GreaterThan,
    GreaterThanOrEqual,
    Equal,
    NotEqual,
}

/// A comparison operator at `pos`. The two-byte operators are tried
/// first.
pub fn relational_op_parser(src: &str, pos: usize) -> (r: Option<(RelationalExprOp, usize)>)
    ensures
        parsed(r) == spec_relational_op(src.spec_bytes(), pos as int),
        r matches Some((_, end)) ==> pos <= end <= src.len(),
{
    match just(src, pos, "<=") {
        Some(q) => { return Some((RelationalExprOp::LessThanOrEqual, q)); },
        None => {},
    }
    match just(src, pos, ">=") {
        Some(q) => { return Some((RelationalExprOp::GreaterThanOrEqual, q)); },
        None => {},
    }
    match just(src, pos, "==") {
        Some(q) => { return Some((RelationalExprOp::Equal, q)); },
        None => {},
    }
    match just(src, pos, "!=") {
        Some(q) => { return Some((RelationalExprOp::NotEqual, q)); },
        None => {},
    }
    match just_byte(src, pos, '<' as u8) {
        Some(q) => { return Some((RelationalExprOp::LessThan, q)); },
        None => {},
    }
    match just_byte(src, pos, '>' as u8) {
        Some(q) => Some((RelationalExprOp::GreaterThan, q)),
        None => None,
    }
}

/// A comparison at `pos`: a shift expression, and at most one comparison
/// operator with a shift expression after it. The expression ends before
/// a second comparison operator: to chain them takes parentheses. The
/// expressions nested in it are read by the rule `base`.
pub fn relational_expr_parser<'a>(base: ExpressionGrammar, src: &'a str, pos: usize) -> (r: Option<
    (Expression<'a>, usize),
>)
    ensures
        parsed_view(r) == spec_relational(src.spec_bytes(), pos as int, base),
        r matches Some((_, end)) ==> pos < end <= src.len(),
    decreases src.len() - pos, 13int,
{
    let (lhs, start) = match shift_expr_parser(base, src, pos) {
        Some(found) => found,
        None => { return None; },
    };
    let at = whitespace_parser(src, start);
    let (op, after) = match relational_op_parser(src, at) {
        Some(found) => found,
        None => { return Some((lhs, start)); },
    };
    let q = whitespace_parser(src, after);
    match shift_expr_parser(base, src, q) {
        Some((rhs, end)) => Some(
            (ExpressionPrecedenceContext::Relational(op).make_binary_expression(lhs, rhs), end),
        ),
        None => Some((lhs, start)),
    }
}

} // verus!
