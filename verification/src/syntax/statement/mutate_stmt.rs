//! The `mutate` statement.

use vstd::prelude::*;
use vstd::string::*;
use crate::syntax::expression::Expression;
use crate::syntax::statement::{stmt_view, Statement, StmtView};
use crate::syntax::statement::grammar::spec_mutate_stmt;
use crate::syntax::util::{
    keyword_then_whitespace, padded_byte, parsed_view, terminal_semicolon_parser,
};

verus! {

/// Assigns a value through a target: a name, a component of a value, or an
/// element named by a call.
#[derive(Debug)]
pub struct MutateStmt<'a> {
    pub lvalue: Box<Expression<'a>>,
    pub expr: Box<Expression<'a>>,
}

impl<'a> View for MutateStmt<'a> {
    type V = StmtView;

    open spec fn view(&self) -> StmtView {
        stmt_view(Statement::Mutate(*self))
    }
}

/// `mutate lvalue = expr;` at `pos`.
pub fn mutate_stmt_parser<'a>(src: &'a str, pos: usize) -> (r: Option<(MutateStmt<'a>, usize)>)
    ensures
        parsed_view(r) == spec_mutate_stmt(src.spec_bytes(), pos as int),
        r matches Some((_, end)) ==> pos < end <= src.len(),
{
    let q = match keyword_then_whitespace(src, pos, "mutate") {
        Some(q) => q,
        None => { return None; },
    };
    let (lvalue, r) = match Expression::lvalue_parser(src, q) {
        Some(found) => found,
        None => { return None; },
    };
    let t = match padded_byte(src, r, '=' as u8) {
        Some(t) => t,
        None => { return None; },
    };
    let (expr, u) = match Expression::parser(src, t) {
        Some(found) => found,
        None => { return None; },
    };
    match terminal_semicolon_parser(src, u) {
        Some(end) => Some((MutateStmt { lvalue: lvalue.boxed(), expr: expr.boxed() }, end)),
        None => None,
    }
}

} // verus!
