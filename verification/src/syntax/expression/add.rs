//! An additive (plus, minus) binary expression.

use vstd::prelude::*;
use vstd::string::*;
use crate::syntax::expression::{Expression, ExpressionPrecedenceContext};
use crate::syntax::expression::grammar::{spec_add, spec_add_op, spec_add_rest, ExpressionGrammar};
use crate::syntax::expression::mul::mul_expr_parser;
use crate::syntax::util::{byte_at, parsed, parsed_view, whitespace_parser};

verus! {

/// An additive (plus, minus) binary expression.
#[derive(Debug)]
pub struct AddExpr<'a> {
    pub lhs: Box<Expression<'a>>,
    pub op: AddExprOp,
    pub rhs: Box<Expression<'a>>,
}

/// The additive operators: `+` and `-`.
#[derive(Debug, Clone, Copy, PartialEq, Eq, Structural)]
pub enum AddExprOp {
    Add,
    Sub,
}

/// An additive operator at `pos`.
pub fn add_op_parser(src: &str, pos: usize) -> (r: Option<(AddExprOp, usize)>)
    ensures
        parsed(r) == spec_add_op(src.spec_bytes(), pos as int),
        r matches Some((_, end)) ==> pos < end <= src.len(),
{
    match byte_at(src, pos) {
        Some(b) => if b == '+' as u8 {
            Some((AddExprOp::Add, pos + 1))
        } else if b == '-' as u8 {
            Some((AddExprOp::Sub, pos + 1))
        } else {
            None
        },
        None => None,
    }
}

/// An additive expression at `pos`: multiplicative expressions with `+` or
/// `-` between them, grouped from the left. The expressions nested in it
/// are read by the rule `base`.
pub fn add_expr_parser<'a>(base: ExpressionGrammar, src: &'a str, pos: usize) -> (r: Option<
    (Expression<'a>, usize),
>)
    ensures
        parsed_view(r) == spec_add(src.spec_bytes(), pos as int, base),
        r matches Some((_, end)) ==> pos < end <= src.len(),
    decreases src.len() - pos, 8int,
{
    let (first, start) = match mul_expr_parser(base, src, pos) {
        Some(found) => found,
        None => { return None; },
    };
    let mut acc = first;
    let mut end: usize = start;
    let mut done = false;
    while !done
        invariant
            pos < end <= src.len(),
            spec_add(src.spec_bytes(), pos as int, base) == Some(
                spec_add_rest(src.spec_bytes(), end as int, base, acc@),
            ),
            done ==> spec_add_rest(src.spec_bytes(), end as int, base, acc@) == (acc@, end as int),
        decreases src.len() - end, if done { 0int } else { 1int },
    {
        let at = whitespace_parser(src, end);
        match add_op_parser(src, at) {
            Some((op, after)) => {
                let q = whitespace_parser(src, after);
                match mul_expr_parser(base, src, q) {
                    Some((rhs, next)) => {
                        acc = ExpressionPrecedenceContext::Add(op).make_binary_expression(acc, rhs);
                        end = next;
                    },
                    None => {
                        done = true;
                    },
                }
            },
            None => {
                done = true;
            },
        }
    }
    Some((acc, end))
}

} // verus!
