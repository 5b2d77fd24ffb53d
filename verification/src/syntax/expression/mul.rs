//! A multiplicative (times, divide, remainder) binary expression.

use vstd::prelude::*;
use vstd::string::*;
use crate::syntax::expression::{Expression, ExpressionPrecedenceContext};
use crate::syntax::expression::grammar::{spec_mul, spec_mul_op, spec_mul_rest, ExpressionGrammar};
use crate::syntax::expression::unary::unary_expr_parser;
use crate::syntax::util::{byte_at, parsed, parsed_view, whitespace_parser};

verus! {

/// A multiplicative (times, divide, remainder) binary expression.
#[derive(Debug)]
pub struct MulExpr<'a> {
    pub lhs: Box<Expression<'a>>,
    pub op: MulExprOp,
    pub rhs: Box<Expression<'a>>,
}

/// The multiplicative operators: `*`, `/` and `%`.
#[derive(Debug, Clone, Copy, PartialEq, Eq, Structural)]
pub enum MulExprOp {
    Mul,
    Div,
    Mod,
}

/// A multiplicative operator at `pos`.
pub fn mul_op_parser(src: &str, pos: usize) -> (r: Option<(MulExprOp, usize)>)
    ensures
        parsed(r) == spec_mul_op(src.spec_bytes(), pos as int),
        r matches Some((_, end)) ==> pos < end <= src.len(),
{
    match byte_at(src, pos) {
        Some(b) => if b == '*' as u8 {
            Some((MulExprOp::Mul, pos + 1))
        } else if b == '/' as u8 {
            Some((MulExprOp::Div, pos + 1))
        } else if b == '%' as u8 {
            Some((MulExprOp::Mod, pos + 1))
        } else {
            None
        },
        None => None,
    }
}

/// A multiplicative expression at `pos`: unary expressions with `*`, `/`
/// or `%` between them, grouped from the left. The expressions nested in
/// it are read by the rule `base`.
pub fn mul_expr_parser<'a>(base: ExpressionGrammar, src: &'a str, pos: usize) -> (r: Option<
    (Expression<'a>, usize),
>)
    ensures
        parsed_view(r) == spec_mul(src.spec_bytes(), pos as int, base),
        r matches Some((_, end)) ==> pos < end <= src.len(),
    decreases src.len() - pos, 6int,
{
    let (first, start) = match unary_expr_parser(base, src, pos) {
        Some(found) => found,
        None => { return None; },
    };
    let mut acc = first;
    let mut end: usize = start;
    let mut done = false;
    while !done
        invariant
            pos < end <= src.len(),
            spec_mul(src.spec_bytes(), pos as int, base) == Some(
                spec_mul_rest(src.spec_bytes(), end as int, base, acc@),
            ),
            done ==> spec_mul_rest(src.spec_bytes(), end as int, base, acc@) == (acc@, end as int),
        decreases src.len() - end, if done { 0int } else { 1int },
    {
        let at = whitespace_parser(src, end);
        match mul_op_parser(src, at) {
            Some((op, after)) => {
                let q = whitespace_parser(src, after);
                match unary_expr_parser(base, src, q) {
                    Some((rhs, next)) => {
                        acc = ExpressionPrecedenceContext::Mul(op).make_binary_expression(acc, rhs);
                        end = next;
                    },
                    None => {
                        done = true;
                    },
                }
            },
            None => {
                done = true;
            },
        }
    }
    Some((acc, end))
}

} // verus!
