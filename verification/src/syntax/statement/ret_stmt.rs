//! The `ret` statement.

use vstd::prelude::*;
use vstd::string::*;
use crate::syntax::expression::Expression;
use crate::syntax::statement::{stmt_view, Statement, StmtView};
use crate::syntax::statement::grammar::spec_ret_stmt;
use crate::syntax::util::{keyword_then_whitespace, parsed_view, terminal_semicolon_parser};

verus! {

/// Returns from a function, with a value or without one.
#[derive(Debug)]
pub struct RetStmt<'a> {
    pub value: Option<Box<Expression<'a>>>,
}

impl<'a> View for RetStmt<'a> {
    type V = StmtView;

    open spec fn view(&self) -> StmtView {
        stmt_view(Statement::Ret(*self))
    }
}

/// `ret expr;` or `ret;` at `pos`.
pub fn ret_stmt_parser<'a>(src: &'a str, pos: usize) -> (r: Option<(RetStmt<'a>, usize)>)
    ensures
        parsed_view(r) == spec_ret_stmt(src.spec_bytes(), pos as int),
        r matches Some((_, end)) ==> pos < end <= src.len(),
{
    let q = match keyword_then_whitespace(src, pos, "ret") {
        Some(q) => q,
        None => { return None; },
    };
    let (value, r) = match Expression::parser(src, q) {
        Some((value, r)) => (Some(value.boxed()), r),
        None => (None, q),
    };
    match terminal_semicolon_parser(src, r) {
        Some(end) => Some((RetStmt { value }, end)),
        None => None,
    }
}

} // verus!
