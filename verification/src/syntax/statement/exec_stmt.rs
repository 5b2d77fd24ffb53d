//! The `exec` statement.

use vstd::prelude::*;
use vstd::string::*;
use crate::syntax::expression::Expression;
use crate::syntax::statement::{stmt_view, Statement, StmtView};
use crate::syntax::statement::grammar::spec_exec_stmt;
use crate::syntax::util::{keyword_then_whitespace, parsed_view, terminal_semicolon_parser};

verus! {

/// Evaluates an expression and drops what it gives.
#[derive(Debug)]
pub struct ExecStmt<'a> {
    pub expr: Box<Expression<'a>>,
}

impl<'a> View for ExecStmt<'a> {
    type V = StmtView;

    open spec fn view(&self) -> StmtView {
        stmt_view(Statement::Exec(*self))
    }
}

/// `exec expr;` at `pos`.
pub fn exec_stmt_parser<'a>(src: &'a str, pos: usize) -> (r: Option<(ExecStmt<'a>, usize)>)
    ensures
        parsed_view(r) == spec_exec_stmt(src.spec_bytes(), pos as int),
        r matches Some((_, end)) ==> pos < end <= src.len(),
{
    let q = match keyword_then_whitespace(src, pos, "exec") {
        Some(q) => q,
        None => { return None; },
    };
    let (expr, r) = match Expression::parser(src, q) {
        Some(found) => found,
        None => { return None; },
    };
    match terminal_semicolon_parser(src, r) {
        Some(end) => Some((ExecStmt { expr: expr.boxed() }, end)),
        None => None,
    }
}

} // verus!
