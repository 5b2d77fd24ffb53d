//! The `let` statement.

use vstd::prelude::*;
use vstd::string::*;
use crate::syntax::expression::{ExprView, Expression};
use crate::syntax::name::Name;
use crate::syntax::statement::{stmt_view, Statement, StmtView};
use crate::syntax::statement::grammar::{spec_let_piece, spec_let_pieces_rest, spec_let_stmt};
use crate::syntax::util::{
    keyword_then_whitespace, padded_byte, parsed_view, terminal_semicolon_parser,
};

verus! {

/// Binds names that cannot be assigned to again.
#[derive(Debug)]
pub struct LetStmt<'a> {
    pub pieces: Vec<LetStmtPiece<'a>>,
}

/// One binding of a `let`: a name and its value.
#[derive(Debug)]
pub struct LetStmtPiece<'a> {
    pub name: Name<'a>,
    pub value: Expression<'a>,
}

impl<'a> View for LetStmtPiece<'a> {
    type V = (Seq<u8>, ExprView);

    open spec fn view(&self) -> (Seq<u8>, ExprView) {
        (self.name@, self.value@)
    }
}

impl<'a> View for LetStmt<'a> {
    type V = StmtView;

    open spec fn view(&self) -> StmtView {
        stmt_view(Statement::Let(*self))
    }
}

/// The views of a list of bindings, in order.
pub open spec fn let_piece_views(list: Seq<LetStmtPiece>) -> Seq<(Seq<u8>, ExprView)> {
    Seq::new(list.len(), |i: int| list[i]@)
}

/// One binding of a `let` at `pos`: `name = expr`.
pub fn let_piece_parser<'a>(src: &'a str, pos: usize) -> (r: Option<(LetStmtPiece<'a>, usize)>)
    ensures
        parsed_view(r) == spec_let_piece(src.spec_bytes(), pos as int),
        r matches Some((_, end)) ==> pos < end <= src.len(),
{
    let (name, q) = match Name::parser(src, pos) {
        Some(found) => found,
        None => { return None; },
    };
    let r = match padded_byte(src, q, '=' as u8) {
        Some(r) => r,
        None => { return None; },
    };
    match Expression::parser(src, r) {
        Some((value, end)) => Some((LetStmtPiece { name, value }, end)),
        None => None,
    }
}

/// `let name = expr, ...;` at `pos`, with one binding or more.
pub fn let_stmt_parser<'a>(src: &'a str, pos: usize) -> (r: Option<(LetStmt<'a>, usize)>)
    ensures
        parsed_view(r) == spec_let_stmt(src.spec_bytes(), pos as int),
        r matches Some((_, end)) ==> pos < end <= src.len(),
{
    let q = match keyword_then_whitespace(src, pos, "let") {
        Some(q) => q,
        None => { return None; },
    };
    let (first, start) = match let_piece_parser(src, q) {
        Some(found) => found,
        None => { return None; },
    };
    let mut pieces: Vec<LetStmtPiece<'a>> = Vec::new();
    pieces.push(first);
    proof {
        assert(let_piece_views(pieces@) =~= seq![first@]);
    }
    let mut end: usize = start;
    let mut done = false;
    while !done
        invariant
            pos < start <= end <= src.len(),
            spec_let_pieces_rest(src.spec_bytes(), start as int, seq![first@])
                == spec_let_pieces_rest(src.spec_bytes(), end as int, let_piece_views(pieces@)),
            done ==> spec_let_pieces_rest(src.spec_bytes(), end as int, let_piece_views(pieces@))
                == (let_piece_views(pieces@), end as int),
        decreases src.len() - end, if done { 0int } else { 1int },
    {
        let ghost acc = let_piece_views(pieces@);
        match padded_byte(src, end, ',' as u8) {
            Some(at) => match let_piece_parser(src, at) {
                Some((piece, next)) => {
                    pieces.push(piece);
                    proof {
                        assert(let_piece_views(pieces@) =~= acc.push(piece@));
                    }
                    end = next;
                },
                None => {
                    done = true;
                },
            },
            None => {
                done = true;
            },
        }
    }
    match terminal_semicolon_parser(src, end) {
        Some(close) => {
            let stmt = LetStmt { pieces };
            proof {
                assert(stmt@ matches StmtView::Let(list) && list =~= let_piece_views(pieces@));
            }
            Some((stmt, close))
        },
        None => None,
    }
}

} // verus!
