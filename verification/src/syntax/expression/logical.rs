//! A logical (and, or) binary expression.

use vstd::prelude::*;
use vstd::string::*;
use crate::syntax::expression::{Expression, ExpressionPrecedenceContext};
use crate::syntax::expression::grammar::{
    logical_op_text, spec_logical, spec_logical_operand, spec_logical_rest, ExpressionGrammar,
};
use crate::syntax::expression::relational::relational_expr_parser;
use crate::syntax::util::{padded, parsed_view};

verus! {

/// A logical (and, or) binary expression.
#[derive(Debug)]
pub struct LogicalExpr<'a> {
    pub lhs: Box<Expression<'a>>,
    pub op: LogicalExprOp,
    pub rhs: Box<Expression<'a>>,
}

/// The logical operators: `||` and `&&`.
#[derive(Debug, Clone, Copy, PartialEq, Eq, Structural)]
pub enum LogicalExprOp {
    Or,
    And,
}

impl LogicalExprOp {
    /// The text that the operator is written as.
    pub fn text(self) -> (t: &'static str)
        ensures
            t.spec_bytes() == logical_op_text(self),
    {
        match self {
            LogicalExprOp::Or => "||",
            LogicalExprOp::And => "&&",
        }
    }
}

/// The logical operator `op` at `pos`, with any whitespace around it, and
/// the comparison after it.
pub fn logical_operand_parser<'a>(
    base: ExpressionGrammar,
    src: &'a str,
    pos: usize,
    op: LogicalExprOp,
) -> (r: Option<(Expression<'a>, usize)>)
    ensures
        parsed_view(r) == spec_logical_operand(src.spec_bytes(), pos as int, base, op),
        r matches Some((_, end)) ==> pos < end <= src.len(),
    decreases src.len() - pos, 14int,
{
    match padded(src, pos, op.text()) {
        Some(q) => relational_expr_parser(base, src, q),
        None => None,
    }
}

/// A logical expression at `pos`: comparisons with one and the same
/// operator of `&&` and `||` between them, grouped from the left. The
/// expression ends before the other logical operator: to mix them takes
/// parentheses. The expressions nested in it are read by the rule `base`.
pub fn logical_expr_parser<'a>(base: ExpressionGrammar, src: &'a str, pos: usize) -> (r: Option<
    (Expression<'a>, usize),
>)
    ensures
        parsed_view(r) == spec_logical(src.spec_bytes(), pos as int, base),
        r matches Some((_, end)) ==> pos < end <= src.len(),
    decreases src.len() - pos, 16int,
{
    let (first, start) = match relational_expr_parser(base, src, pos) {
        Some(found) => found,
        None => { return None; },
    };
    let (op, second, after) = match logical_operand_parser(base, src, start, LogicalExprOp::And) {
        Some((rhs, next)) => (LogicalExprOp::And, rhs, next),
        None => match logical_operand_parser(base, src, start, LogicalExprOp::Or) {
            Some((rhs, next)) => (LogicalExprOp::Or, rhs, next),
            None => { return Some((first, start)); },
        },
    };
    let mut acc = ExpressionPrecedenceContext::Logical(op).make_binary_expression(first, second);
    let mut end: usize = after;
    let mut done = false;
    while !done
        invariant
            pos < end <= src.len(),
            spec_logical(src.spec_bytes(), pos as int, base) == Some(
                spec_logical_rest(src.spec_bytes(), end as int, base, op, acc@),
            ),
            done ==> spec_logical_rest(src.spec_bytes(), end as int, base, op, acc@) == (
                acc@,
                end as int,
            ),
        decreases src.len() - end, if done { 0int } else { 1int },
    {
        match logical_operand_parser(base, src, end, op) {
            Some((rhs, next)) => {
                acc = ExpressionPrecedenceContext::Logical(op).make_binary_expression(acc, rhs);
                end = next;
            },
            None => {
                done = true;
            },
        }
    }
    Some((acc, end))
}

} // verus!
