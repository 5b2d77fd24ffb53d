//! Prefix operators.

use vstd::prelude::*;
use vstd::string::*;
use crate::syntax::expression::Expression;
use crate::syntax::expression::grammar::{spec_unary, spec_unary_op, ExpressionGrammar};
use crate::syntax::expression::primary::primary_expr_parser;
use crate::syntax::util::{byte_at, parsed, parsed_view, whitespace_parser};

verus! {

/// A prefix operator applied to an expression.
#[derive(Debug)]
pub struct UnaryExpr<'a> {
    pub op: UnaryExprOp,
    pub subexpr: Box<Expression<'a>>,
}

/// The prefix operators: `-`, `+`, `!` and `~`.
#[derive(Debug, Clone, Copy, PartialEq, Eq, Structural)]
pub enum UnaryExprOp {
    Negate,
    Positive,
    Not,
    Complement,
}

/// A prefix operator at `pos`.
pub fn unary_op_parser(src: &str, pos: usize) -> (r: Option<(UnaryExprOp, usize)>)
    ensures
        parsed(r) == spec_unary_op(src.spec_bytes(), pos as int),
        r matches Some((_, end)) ==> pos < end <= src.len(),
{
    match byte_at(src, pos) {
        Some(b) => if b == '-' as u8 {
            Some((UnaryExprOp::Negate, pos + 1))
        } else if b == '+' as u8 {
            Some((UnaryExprOp::Positive, pos + 1))
        } else if b == '!' as u8 {
            Some((UnaryExprOp::Not, pos + 1))
        } else if b == '~' as u8 {
            Some((UnaryExprOp::Complement, pos + 1))
        } else {
            None
        },
        None => None,
    }
}

/// A unary expression at `pos`: prefix operators, each with any whitespace
/// around it, and a primary expression. The operator nearest to the
/// operand applies first. The expressions nested in it are read by the
/// rule `base`.
pub fn unary_expr_parser<'a>(base: ExpressionGrammar, src: &'a str, pos: usize) -> (r: Option<
    (Expression<'a>, usize),
>)
    ensures
        parsed_view(r) == spec_unary(src.spec_bytes(), pos as int, base),
        r matches Some((_, end)) ==> pos < end <= src.len(),
    decreases src.len() - pos, 4int,
{
    let start = whitespace_parser(src, pos);
    match unary_op_parser(src, start) {
        Some((op, after)) => {
            let q = whitespace_parser(src, after);
            match unary_expr_parser(base, src, q) {
                Some((subexpr, end)) => Some(
                    (Expression::Unary(UnaryExpr { op, subexpr: Box::new(subexpr) }), end),
                ),
                None => None,
            }
        },
        None => primary_expr_parser(base, src, pos),
    }
}

} // verus!
