//! A bitwise (and, or, xor) binary expression.

use vstd::prelude::*;
use vstd::string::*;
use crate::syntax::expression::{Expression, ExpressionPrecedenceContext};
use crate::syntax::expression::grammar::{
    bit_op_byte, spec_bit, spec_bit_operand, spec_bit_rest, ExpressionGrammar,
};
use crate::syntax::expression::add::add_expr_parser;
use crate::syntax::util::{padded_byte, parsed_view};

verus! {

/// A bitwise (and, or, xor) binary expression.
#[derive(Debug)]
pub struct BitExpr<'a> {
    pub lhs: Box<Expression<'a>>,
    pub op: BitExprOp,
    pub rhs: Box<Expression<'a>>,
}

/// The bitwise operators: `^`, `|` and `&`.
#[derive(Debug, Clone, Copy, PartialEq, Eq, Structural)]
pub enum BitExprOp {
    Xor,
    Or,
    And,
}

impl BitExprOp {
    /// The byte that the operator is written as.
    pub fn byte(self) -> (b: u8)
        ensures
            b == bit_op_byte(self),
    {
        match self {
            BitExprOp::Xor => '^' as u8,
            BitExprOp::Or => '|' as u8,
            BitExprOp::And => '&' as u8,
        }
    }
}

/// The bitwise operator `op` at `pos`, with any whitespace around it, and
/// the additive expression after it.
pub fn bit_operand_parser<'a>(
    base: ExpressionGrammar,
    src: &'a str,
    pos: usize,
    op: BitExprOp,
) -> (r: Option<(Expression<'a>, usize)>)
    ensures
        parsed_view(r) == spec_bit_operand(src.spec_bytes(), pos as int, base, op),
        r matches Some((_, end)) ==> pos < end <= src.len(),
    decreases src.len() - pos, 9int,
{
    match padded_byte(src, pos, op.byte()) {
        Some(q) => add_expr_parser(base, src, q),
        None => None,
    }
}

/// A bitwise expression at `pos`: additive expressions with one and the
/// same operator of `^`, `|` and `&` between them, grouped from the left.
/// The expression ends before a different bitwise operator: to mix them
/// takes parentheses. The expressions nested in it are read by the rule
/// `base`.
pub fn bit_expr_parser<'a>(base: ExpressionGrammar, src: &'a str, pos: usize) -> (r: Option<
    (Expression<'a>, usize),
>)
    ensures
        parsed_view(r) == spec_bit(src.spec_bytes(), pos as int, base),
        r matches Some((_, end)) ==> pos < end <= src.len(),
    decreases src.len() - pos, 11int,
{
    let (first, start) = match add_expr_parser(base, src, pos) {
        Some(found) => found,
        None => { return None; },
    };
    let (op, second, after) = match bit_operand_parser(base, src, start, BitExprOp::Xor) {
        Some((rhs, next)) => (BitExprOp::Xor, rhs, next),
        None => match bit_operand_parser(base, src, start, BitExprOp::Or) {
            Some((rhs, next)) => (BitExprOp::Or, rhs, next),
            None => match bit_operand_parser(base, src, start, BitExprOp::And) {
                Some((rhs, next)) => (BitExprOp::And, rhs, next),
                None => { return Some((first, start)); },
            },
        },
    };
    let mut acc = ExpressionPrecedenceContext::Bit(op).make_binary_expression(first, second);
    let mut end: usize = after;
    let mut done = false;
    while !done
        invariant
            pos < end <= src.len(),
            spec_bit(src.spec_bytes(), pos as int, base) == Some(
                spec_bit_rest(src.spec_bytes(), end as int, base, op, acc@),
            ),
            done ==> spec_bit_rest(src.spec_bytes(), end as int, base, op, acc@) == (
                acc@,
                end as int,
            ),
        decreases src.len() - end, if done { 0int } else { 1int },
    {
        match bit_operand_parser(base, src, end, op) {
            Some((rhs, next)) => {
                acc = ExpressionPrecedenceContext::Bit(op).make_binary_expression(acc, rhs);
                end = next;
            },
            None => {
                done = true;
            },
        }
    }
    Some((acc, end))
}

} // verus!
