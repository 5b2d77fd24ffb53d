//! The `loop` statement.

use vstd::prelude::*;
use vstd::string::*;
use crate::syntax::statement::{stmt_view, Statement, StatementBlock, StmtView};
use crate::syntax::statement::grammar::spec_loop_stmt;
use crate::syntax::util::{keyword_then_whitespace, parsed_view};

verus! {

/// Runs a block again and again.
#[derive(Debug)]
pub struct LoopStmt<'a> {
    pub block: StatementBlock<'a>,
}

impl<'a> View for LoopStmt<'a> {
    type V = StmtView;

    open spec fn view(&self) -> StmtView {
        stmt_view(Statement::Loop(*self))
    }
}

/// `loop { ... }` at `pos`.
pub fn loop_stmt_parser<'a>(src: &'a str, pos: usize) -> (r: Option<(LoopStmt<'a>, usize)>)
    ensures
        parsed_view(r) == spec_loop_stmt(src.spec_bytes(), pos as int),
        r matches Some((_, end)) ==> pos < end <= src.len(),
    decreases src.len() - pos, 2int,
{
    let q = match keyword_then_whitespace(src, pos, "loop") {
        Some(q) => q,
        None => { return None; },
    };
    match StatementBlock::parser(src, q) {
        Some((block, end)) => Some((LoopStmt { block }, end)),
        None => None,
    }
}

} // verus!
