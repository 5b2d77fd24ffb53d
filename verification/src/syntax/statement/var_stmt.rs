//! The `var` statement.

use vstd::prelude::*;
use vstd::string::*;
use crate::syntax::expression::{ExprView, Expression};
use crate::syntax::name::Name;
use crate::syntax::statement::{stmt_view, Statement, StmtView};
use crate::syntax::statement::grammar::{
    spec_var_piece, spec_var_pieces_rest, spec_var_stmt,
};
use crate::syntax::util::{
    keyword_then_whitespace, padded_byte, parsed_view, terminal_semicolon_parser,
};

verus! {

/// Declares variables that can be assigned to.
#[derive(Debug)]
pub struct VarStmt<'a> {
    pub pieces: Vec<VarStmtPiece<'a>>,
}

/// One variable of a `var`: a name, and an initial value or none.
#[derive(Debug)]
pub struct VarStmtPiece<'a> {
    pub name: Name<'a>,
    pub value: Option<Expression<'a>>,
}

impl<'a> View for VarStmtPiece<'a> {
    type V = (Seq<u8>, Option<ExprView>);

    open spec fn view(&self) -> (Seq<u8>, Option<ExprView>) {
        (
            self.name@,
            match self.value {
                Some(e) => Some(e@),
                None => None,
            },
        )
    }
}

impl<'a> View for VarStmt<'a> {
    type V = StmtView;

    open spec fn view(&self) -> StmtView {
        stmt_view(Statement::Var(*self))
    }
}

/// The views of a list of variables, in order.
pub open spec fn var_piece_views(list: Seq<VarStmtPiece>) -> Seq<(Seq<u8>, Option<ExprView>)> {
    Seq::new(list.len(), |i: int| list[i]@)
}

/// One variable of a `var` at `pos`: a name, and `= expr` where it
/// follows.
pub fn var_piece_parser<'a>(src: &'a str, pos: usize) -> (r: Option<(VarStmtPiece<'a>, usize)>)
    ensures
        parsed_view(r) == spec_var_piece(src.spec_bytes(), pos as int),
        r matches Some((_, end)) ==> pos < end <= src.len(),
{
    let (name, q) = match Name::parser(src, pos) {
        Some(found) => found,
        None => { return None; },
    };
    let (value, end) = match padded_byte(src, q, '=' as u8) {
        Some(r) => match Expression::parser(src, r) {
            Some((value, end)) => (Some(value), end),
            None => (None, q),
        },
        None => (None, q),
    };
    Some((VarStmtPiece { name, value }, end))
}

/// `var name = expr, name, ...;` at `pos`, with one variable or more.
pub fn var_stmt_parser<'a>(src: &'a str, pos: usize) -> (r: Option<(VarStmt<'a>, usize)>)
    ensures
        parsed_view(r) == spec_var_stmt(src.spec_bytes(), pos as int),
        r matches Some((_, end)) ==> pos < end <= src.len(),
{
    let q = match keyword_then_whitespace(src, pos, "var") {
        Some(q) => q,
        None => { return None; },
    };
    let (first, start) = match var_piece_parser(src, q) {
        Some(found) => found,
        None => { return None; },
    };
    let mut pieces: Vec<VarStmtPiece<'a>> = Vec::new();
    pieces.push(first);
    proof {
        assert(var_piece_views(pieces@) =~= seq![first@]);
    }
    let mut end: usize = start;
    let mut done = false;
    while !done
        invariant
            pos < start <= end <= src.len(),
            spec_var_pieces_rest(src.spec_bytes(), start as int, seq![first@])
                == spec_var_pieces_rest(src.spec_bytes(), end as int, var_piece_views(pieces@)),
            done ==> spec_var_pieces_rest(src.spec_bytes(), end as int, var_piece_views(pieces@))
                == (var_piece_views(pieces@), end as int),
        decreases src.len() - end, if done { 0int } else { 1int },
    {
        let ghost acc = var_piece_views(pieces@);
        match padded_byte(src, end, ',' as u8) {
            Some(at) => match var_piece_parser(src, at) {
                Some((piece, next)) => {
                    pieces.push(piece);
                    proof {
                        assert(var_piece_views(pieces@) =~= acc.push(piece@));
                    }
                    end = next;
                },
                None => {
                    done = true;
                },
            },
            None => {
                done = true;
            },
        }
    }
    match terminal_semicolon_parser(src, end) {
        Some(close) => {
            let stmt = VarStmt { pieces };
            proof {
                assert(stmt@ matches StmtView::Var(list) && list =~= var_piece_views(pieces@));
            }
            Some((stmt, close))
        },
        None => None,
    }
}

} // verus!
