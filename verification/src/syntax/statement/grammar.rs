//! The grammar of statements, as functions from a text and an offset to
//! what stands there.

use vstd::prelude::*;
use vstd::string::*;
use crate::syntax::expression::ExprView;
use crate::syntax::expression::grammar::{spec_expression, ExpressionGrammar};
use crate::syntax::name::spec_name;
use crate::syntax::statement::StmtView;
use crate::syntax::util::{
    advances, spec_keyword_then_whitespace, spec_padded_byte, spec_padded_keyword,
    spec_terminal_semicolon, spec_whitespace, within,
};

verus! {

/// An expression of the full grammar at `p`.
pub open spec fn spec_full_expression(s: Seq<u8>, p: int) -> Option<(ExprView, int)> {
    spec_expression(s, p, ExpressionGrammar::ShiftReduce)
}

/// An expression that may stand on the left of an assignment, at `p`.
pub open spec fn spec_lvalue(s: Seq<u8>, p: int) -> Option<(ExprView, int)> {
    spec_expression(s, p, ExpressionGrammar::Primary)
}

/// `exec expr;` at `p`.
pub open spec fn spec_exec_stmt(s: Seq<u8>, p: int) -> Option<(StmtView, int)> {
    match spec_keyword_then_whitespace(s, p, "exec".spec_bytes()) {
        Some(q) => match spec_full_expression(s, q) {
            Some((e, r)) => match spec_terminal_semicolon(s, r) {
                Some(end) => Some((StmtView::Exec(e), end)),
                None => None,
            },
            None => None,
        },
        None => None,
    }
}

/// One binding of a `let` at `p`: `name = expr`.
pub open spec fn spec_let_piece(s: Seq<u8>, p: int) -> Option<((Seq<u8>, ExprView), int)> {
    match spec_name(s, p) {
        Some((name, q)) => match spec_padded_byte(s, q, '=' as u8) {
            Some(r) => match spec_full_expression(s, r) {
                Some((value, end)) => Some(((name, value), end)),
                None => None,
            },
            None => None,
        },
        None => None,
    }
}

/// The bindings of a `let` that follow the first one, from `p`: each is a
/// comma, with any whitespace around it, and a binding. `acc` holds the
/// bindings read so far.
pub open spec fn spec_let_pieces_rest(s: Seq<u8>, p: int, acc: Seq<(Seq<u8>, ExprView)>) -> (
    Seq<(Seq<u8>, ExprView)>,
    int,
)
    decreases s.len() - p,
{
    match spec_padded_byte(s, p, ',' as u8) {
        Some(q) => match spec_let_piece(s, q) {
            Some((piece, r)) => if advances(s, p, r) {
                spec_let_pieces_rest(s, r, acc.push(piece))
            } else {
                (acc, p)
            },
            None => (acc, p),
        },
        None => (acc, p),
    }
}

/// `let name = expr, ...;` at `p`, with one binding or more.
pub open spec fn spec_let_stmt(s: Seq<u8>, p: int) -> Option<(StmtView, int)> {
    match spec_keyword_then_whitespace(s, p, "let".spec_bytes()) {
        Some(q) => match spec_let_piece(s, q) {
            Some((first, r)) => {
                let (pieces, t) = spec_let_pieces_rest(s, r, seq![first]);
                match spec_terminal_semicolon(s, t) {
                    Some(end) => Some((StmtView::Let(pieces), end)),
                    None => None,
                }
            },
            None => None,
        },
        None => None,
    }
}

/// The initial value of a variable, at `p`: `= expr`, where it is there.
pub open spec fn spec_var_value(s: Seq<u8>, p: int) -> (Option<ExprView>, int) {
    match spec_padded_byte(s, p, '=' as u8) {
        Some(q) => match spec_full_expression(s, q) {
            Some((value, end)) => (Some(value), end),
            None => (None, p),
        },
        None => (None, p),
    }
}

/// One variable of a `var` at `p`: a name, and an initial value or none.
pub open spec fn spec_var_piece(s: Seq<u8>, p: int) -> Option<((Seq<u8>, Option<ExprView>), int)> {
    match spec_name(s, p) {
        Some((name, q)) => {
            let (value, end) = spec_var_value(s, q);
            Some(((name, value), end))
        },
        None => None,
    }
}

/// The variables of a `var` that follow the first one, from `p`. `acc`
/// holds the variables read so far.
pub open spec fn spec_var_pieces_rest(
    s: Seq<u8>,
    p: int,
    acc: Seq<(Seq<u8>, Option<ExprView>)>,
) -> (Seq<(Seq<u8>, Option<ExprView>)>, int)
    decreases s.len() - p,
{
    match spec_padded_byte(s, p, ',' as u8) {
        Some(q) => match spec_var_piece(s, q) {
            Some((piece, r)) => if advances(s, p, r) {
                spec_var_pieces_rest(s, r, acc.push(piece))
            } else {
                (acc, p)
            },
            None => (acc, p),
        },
        None => (acc, p),
    }
}

/// `var name = expr, name, ...;` at `p`, with one variable or more.
pub open spec fn spec_var_stmt(s: Seq<u8>, p: int) -> Option<(StmtView, int)> {
    match spec_keyword_then_whitespace(s, p, "var".spec_bytes()) {
        Some(q) => match spec_var_piece(s, q) {
            Some((first, r)) => {
                let (pieces, t) = spec_var_pieces_rest(s, r, seq![first]);
                match spec_terminal_semicolon(s, t) {
                    Some(end) => Some((StmtView::Var(pieces), end)),
                    None => None,
                }
            },
            None => None,
        },
        None => None,
    }
}

/// `mutate lvalue = expr;` at `p`.
pub open spec fn spec_mutate_stmt(s: Seq<u8>, p: int) -> Option<(StmtView, int)> {
    match spec_keyword_then_whitespace(s, p, "mutate".spec_bytes()) {
        Some(q) => match spec_lvalue(s, q) {
            Some((lvalue, r)) => match spec_padded_byte(s, r, '=' as u8) {
                Some(t) => match spec_full_expression(s, t) {
                    Some((value, u)) => match spec_terminal_semicolon(s, u) {
                        Some(end) => Some((StmtView::Mutate(lvalue, value), end)),
                        None => None,
                    },
                    None => None,
                },
                None => None,
            },
            None => None,
        },
        None => None,
    }
}

/// The value of a `ret`, at `p`, where it is there.
pub open spec fn spec_ret_value(s: Seq<u8>, p: int) -> (Option<ExprView>, int) {
    match spec_full_expression(s, p) {
        Some((value, end)) => (Some(value), end),
        None => (None, p),
    }
}

/// `ret expr;` or `ret;` at `p`.
pub open spec fn spec_ret_stmt(s: Seq<u8>, p: int) -> Option<(StmtView, int)> {
    match spec_keyword_then_whitespace(s, p, "ret".spec_bytes()) {
        Some(q) => {
            let (value, r) = spec_ret_value(s, q);
            match spec_terminal_semicolon(s, r) {
                Some(end) => Some((StmtView::Ret(value), end)),
                None => None,
            }
        },
        None => None,
    }
}

/// The condition of an `if` at `p`: the keyword, an expression, and any
/// whitespace after it.
pub open spec fn spec_if_head(s: Seq<u8>, p: int) -> Option<(ExprView, int)> {
    match spec_keyword_then_whitespace(s, p, "if".spec_bytes()) {
        Some(q) => match spec_full_expression(s, q) {
            Some((cond, r)) => Some((cond, spec_whitespace(s, r))),
            None => None,
        },
        None => None,
    }
}

/// The statements that follow from `p`, as many as there are. `acc` holds
/// the statements read so far.
pub open spec fn spec_statements(s: Seq<u8>, p: int, acc: Seq<StmtView>) -> (Seq<StmtView>, int)
    decreases s.len() - p, 4int,
{
    match spec_statement(s, p) {
        Some((st, q)) => if advances(s, p, q) {
            spec_statements(s, q, acc.push(st))
        } else {
            (acc, p)
        },
        None => (acc, p),
    }
}

/// A block at `p`: statements between braces. Whitespace may stand around
/// each brace.
pub open spec fn spec_statement_block(s: Seq<u8>, p: int) -> Option<(Seq<StmtView>, int)>
    decreases s.len() - p, 1int,
{
    match spec_padded_byte(s, p, '{' as u8) {
        Some(q) => if advances(s, p, q) {
            let (statements, r) = spec_statements(s, q, seq![]);
            match spec_padded_byte(s, r, '}' as u8) {
                Some(end) => Some((statements, end)),
                None => None,
            }
        } else {
            None
        },
        None => None,
    }
}

/// The `else` branch of an `if`, at `p`, where it is there.
pub open spec fn spec_else_block(s: Seq<u8>, p: int) -> (Option<Seq<StmtView>>, int)
    decreases s.len() - p, 2int,
{
    match spec_padded_keyword(s, p, "else".spec_bytes()) {
        Some(q) => if within(s, p, q) {
            match spec_statement_block(s, q) {
                Some((block, end)) => (Some(block), end),
                None => (None, p),
            }
        } else {
            (None, p)
        },
        None => (None, p),
    }
}

/// `if cond { ... }` or `if cond { ... } else { ... }` at `p`.
pub open spec fn spec_if_stmt(s: Seq<u8>, p: int) -> Option<(StmtView, int)>
    decreases s.len() - p, 2int,
{
    match spec_if_head(s, p) {
        Some((cond, q)) => if within(s, p, q) {
            match spec_statement_block(s, q) {
                Some((if_block, r)) => if advances(s, p, r) {
                    let (else_block, end) = spec_else_block(s, r);
                    Some((StmtView::If(cond, if_block, else_block), end))
                } else {
                    None
                },
                None => None,
            }
        } else {
            None
        },
        None => None,
    }
}

/// `loop { ... }` at `p`.
pub open spec fn spec_loop_stmt(s: Seq<u8>, p: int) -> Option<(StmtView, int)>
    decreases s.len() - p, 2int,
{
    match spec_keyword_then_whitespace(s, p, "loop".spec_bytes()) {
        Some(q) => if within(s, p, q) {
            match spec_statement_block(s, q) {
                Some((block, end)) => Some((StmtView::Loop(block), end)),
                None => None,
            }
        } else {
            None
        },
        None => None,
    }
}

/// A statement at `p`: the first of `exec`, `let`, `var`, `mutate`, `ret`,
/// `if` and `loop` that stands there.
pub open spec fn spec_statement(s: Seq<u8>, p: int) -> Option<(StmtView, int)>
    decreases s.len() - p, 3int,
{
    if spec_exec_stmt(s, p) is Some {
        spec_exec_stmt(s, p)
    } else if spec_let_stmt(s, p) is Some {
        spec_let_stmt(s, p)
    } else if spec_var_stmt(s, p) is Some {
        spec_var_stmt(s, p)
    } else if spec_mutate_stmt(s, p) is Some {
        spec_mutate_stmt(s, p)
    } else if spec_ret_stmt(s, p) is Some {
        spec_ret_stmt(s, p)
    } else if spec_if_stmt(s, p) is Some {
        spec_if_stmt(s, p)
    } else {
        spec_loop_stmt(s, p)
    }
}

} // verus!
