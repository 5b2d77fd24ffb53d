//! The `if` statement.

use vstd::prelude::*;
use vstd::string::*;
use crate::syntax::expression::Expression;
use crate::syntax::statement::{stmt_view, Statement, StatementBlock, StmtView};
use crate::syntax::statement::grammar::{spec_if_head, spec_if_stmt};
use crate::syntax::util::{
    keyword_then_whitespace, padded_keyword, parsed_view, whitespace_parser,
};

verus! {

/// Runs a block when a condition holds, and another or none when it does
/// not.
#[derive(Debug)]
pub struct IfStmt<'a> {
    pub cond: Box<Expression<'a>>,
    pub if_block: StatementBlock<'a>,
    pub else_block: Option<StatementBlock<'a>>,
}

impl<'a> View for IfStmt<'a> {
    type V = StmtView;

    open spec fn view(&self) -> StmtView {
        stmt_view(Statement::If(*self))
    }
}

/// The condition of an `if` at `pos`: the keyword, an expression, and any
/// whitespace after it.
pub fn if_head_parser<'a>(src: &'a str, pos: usize) -> (r: Option<(Expression<'a>, usize)>)
    ensures
        parsed_view(r) == spec_if_head(src.spec_bytes(), pos as int),
        r matches Some((_, end)) ==> pos < end <= src.len(),
{
    let q = match keyword_then_whitespace(src, pos, "if") {
        Some(q) => q,
        None => { return None; },
    };
    match Expression::parser(src, q) {
        Some((cond, r)) => Some((cond, whitespace_parser(src, r))),
        None => None,
    }
}

/// `if cond { ... }` or `if cond { ... } else { ... }` at `pos`.
pub fn if_stmt_parser<'a>(src: &'a str, pos: usize) -> (r: Option<(IfStmt<'a>, usize)>)
    ensures
        parsed_view(r) == spec_if_stmt(src.spec_bytes(), pos as int),
        r matches Some((_, end)) ==> pos < end <= src.len(),
    decreases src.len() - pos, 2int,
{
    let (cond, q) = match if_head_parser(src, pos) {
        Some(found) => found,
        None => { return None; },
    };
    let (if_block, r) = match StatementBlock::parser(src, q) {
        Some(found) => found,
        None => { return None; },
    };
    let (else_block, end) = match padded_keyword(src, r, "else") {
        Some(t) => match StatementBlock::parser(src, t) {
            Some((block, end)) => (Some(block), end),
            None => (None, r),
        },
        None => (None, r),
    };
    Some((IfStmt { cond: cond.boxed(), if_block, else_block }, end))
}

} // verus!
