//! Statements and blocks of statements.

pub mod exec_stmt;
pub mod let_stmt;
pub mod var_stmt;
pub mod mutate_stmt;
pub mod ret_stmt;
pub mod if_stmt;
pub mod loop_stmt;
pub mod grammar;

use vstd::prelude::*;
use vstd::string::*;
use crate::syntax::error::{complete, result_view, spec_complete, ParseError};
use crate::syntax::expression::ExprView;
use crate::syntax::statement::exec_stmt::exec_stmt_parser;
use crate::syntax::statement::grammar::{spec_statement, spec_statement_block, spec_statements};
use crate::syntax::statement::if_stmt::if_stmt_parser;
use crate::syntax::statement::let_stmt::let_stmt_parser;
use crate::syntax::statement::loop_stmt::loop_stmt_parser;
use crate::syntax::statement::mutate_stmt::mutate_stmt_parser;
use crate::syntax::statement::ret_stmt::ret_stmt_parser;
use crate::syntax::statement::var_stmt::var_stmt_parser;
use crate::syntax::util::{padded_byte, parsed_view};
pub use crate::syntax::statement::exec_stmt::ExecStmt;
pub use crate::syntax::statement::if_stmt::IfStmt;
pub use crate::syntax::statement::let_stmt::{LetStmt, LetStmtPiece};
pub use crate::syntax::statement::loop_stmt::LoopStmt;
pub use crate::syntax::statement::mutate_stmt::MutateStmt;
pub use crate::syntax::statement::ret_stmt::RetStmt;
pub use crate::syntax::statement::var_stmt::{VarStmt, VarStmtPiece};

verus! {

/// A statement of the language.
#[derive(Debug)]
pub enum Statement<'a> {
    Exec(ExecStmt<'a>),
    Let(LetStmt<'a>),
    Var(VarStmt<'a>),
    Mutate(MutateStmt<'a>),
    Ret(RetStmt<'a>),
    If(IfStmt<'a>),
    Loop(LoopStmt<'a>),
}

/// A sequence of statements between braces.
#[derive(Debug)]
pub struct StatementBlock<'a> {
    pub statements: Vec<Statement<'a>>,
}

/// What a statement is, as mathematics.
pub enum StmtView {
    Exec(ExprView),
    /// The bindings, each a name and its value.
    Let(Seq<(Seq<u8>, ExprView)>),
    /// The variables, each a name and its initial value or none.
    Var(Seq<(Seq<u8>, Option<ExprView>)>),
    /// The target and the value.
    Mutate(ExprView, ExprView),
    Ret(Option<ExprView>),
    /// The condition, the block, and the `else` block or none.
    If(ExprView, Seq<StmtView>, Option<Seq<StmtView>>),
    Loop(Seq<StmtView>),
}

/// The view of a statement, by recursion on the tree.
pub open spec fn stmt_view(st: Statement) -> StmtView
    decreases st,
{
    match st {
        Statement::Exec(e) => StmtView::Exec(e.expr@),
        Statement::Let(l) => StmtView::Let(
            Seq::new(l.pieces@.len(), |i: int| (l.pieces@[i].name@, l.pieces@[i].value@)),
        ),
        Statement::Var(v) => StmtView::Var(
            Seq::new(
                v.pieces@.len(),
                |i: int|
                    (
                        v.pieces@[i].name@,
                        match v.pieces@[i].value {
                            Some(e) => Some(e@),
                            None => None,
                        },
                    ),
            ),
        ),
        Statement::Mutate(m) => StmtView::Mutate(m.lvalue@, m.expr@),
        Statement::Ret(r) => StmtView::Ret(
            match r.value {
                Some(e) => Some(e@),
                None => None,
            },
        ),
        Statement::If(i) => StmtView::If(
            i.cond@,
            block_view(i.if_block),
            match i.else_block {
                Some(b) => Some(block_view(b)),
                None => None,
            },
        ),
        Statement::Loop(l) => StmtView::Loop(block_view(l.block)),
    }
}

/// The views of the statements of a block, in order.
pub open spec fn block_view(b: StatementBlock) -> Seq<StmtView>
    decreases b,
{
    Seq::new(
        b.statements@.len(),
        |i: int|
            if 0 <= i < b.statements@.len() {
                stmt_view(b.statements@[i])
            } else {
                arbitrary()
            },
    )
}

impl<'a> View for Statement<'a> {
    type V = StmtView;

    open spec fn view(&self) -> StmtView {
        stmt_view(*self)
    }
}

impl<'a> View for StatementBlock<'a> {
    type V = Seq<StmtView>;

    open spec fn view(&self) -> Seq<StmtView> {
        block_view(*self)
    }
}

/// The views of a list of statements, in order.
pub open spec fn stmt_views(list: Seq<Statement>) -> Seq<StmtView> {
    Seq::new(list.len(), |i: int| list[i]@)
}

/// The view of a block is the views of its statements.
pub proof fn lemma_block_view(statements: Vec<Statement>)
    ensures
        (StatementBlock { statements })@ == stmt_views(statements@),
{
    assert((StatementBlock { statements })@ =~= stmt_views(statements@));
}

impl<'a> Statement<'a> {
    /// The statement in a box.
    pub fn boxed(self) -> (r: Box<Self>)
        ensures
            *r == self,
    {
        Box::new(self)
    }

    /// A statement at `pos`.
    pub fn parser(src: &'a str, pos: usize) -> (r: Option<(Statement<'a>, usize)>)
        ensures
            parsed_view(r) == spec_statement(src.spec_bytes(), pos as int),
            r matches Some((_, end)) ==> pos < end <= src.len(),
        decreases src.len() - pos, 3int,
    {
        match exec_stmt_parser(src, pos) {
            Some((st, end)) => { return Some((Statement::Exec(st), end)); },
            None => {},
        }
        match let_stmt_parser(src, pos) {
            Some((st, end)) => { return Some((Statement::Let(st), end)); },
            None => {},
        }
        match var_stmt_parser(src, pos) {
            Some((st, end)) => { return Some((Statement::Var(st), end)); },
            None => {},
        }
        match mutate_stmt_parser(src, pos) {
            Some((st, end)) => { return Some((Statement::Mutate(st), end)); },
            None => {},
        }
        match ret_stmt_parser(src, pos) {
            Some((st, end)) => { return Some((Statement::Ret(st), end)); },
            None => {},
        }
        match if_stmt_parser(src, pos) {
            Some((st, end)) => { return Some((Statement::If(st), end)); },
            None => {},
        }
        match loop_stmt_parser(src, pos) {
            Some((st, end)) => Some((Statement::Loop(st), end)),
            None => None,
        }
    }

    /// The whole of `src` as one statement.
    pub fn parse(src: &'a str) -> (r: Result<Statement<'a>, ParseError>)
        ensures
            result_view(r) == spec_complete(
                spec_statement(src.spec_bytes(), 0),
                src.spec_bytes().len() as int,
            ),
    {
        complete(Statement::parser(src, 0), src.as_bytes().len())
    }
}

impl<'a> StatementBlock<'a> {
    /// A block at `pos`: statements between braces.
    pub fn parser(src: &'a str, pos: usize) -> (r: Option<(StatementBlock<'a>, usize)>)
        ensures
            parsed_view(r) == spec_statement_block(src.spec_bytes(), pos as int),
            r matches Some((_, end)) ==> pos < end <= src.len(),
        decreases src.len() - pos, 1int,
    {
        let start = match padded_byte(src, pos, '{' as u8) {
            Some(q) => q,
            None => { return None; },
        };
        let mut statements: Vec<Statement<'a>> = Vec::new();
        let mut end: usize = start;
        let mut done = false;
        proof {
            assert(stmt_views(statements@) =~= seq![]);
        }
        while !done
            invariant
                pos < start <= end <= src.len(),
                spec_statements(src.spec_bytes(), start as int, seq![]) == spec_statements(
                    src.spec_bytes(),
                    end as int,
                    stmt_views(statements@),
                ),
                done ==> spec_statements(src.spec_bytes(), end as int, stmt_views(statements@))
                    == (stmt_views(statements@), end as int),
            decreases src.len() - end, if done { 0int } else { 1int },
        {
            let ghost acc = stmt_views(statements@);
            match Statement::parser(src, end) {
                Some((st, next)) => {
                    statements.push(st);
                    proof {
                        assert(stmt_views(statements@) =~= acc.push(st@));
                    }
                    end = next;
                },
                None => {
                    done = true;
                },
            }
        }
        match padded_byte(src, end, '}' as u8) {
            Some(close) => {
                proof {
                    lemma_block_view(statements);
                }
                Some((StatementBlock { statements }, close))
            },
            None => None,
        }
    }
}

} // verus!
