//! Expressions, and the shift-reduce engine that gives binary operators
//! their precedence.

pub mod terminal;
pub mod primary;
pub mod unary;
pub mod bit;
pub mod mul;
pub mod add;
pub mod shift;
pub mod relational;
pub mod logical;
pub mod grammar;
pub mod laws;

use vstd::prelude::*;
use vstd::string::*;
use crate::syntax::error::{
    ParseError, ParseErrorKind, ParseErrorKindView, ParseErrorView, result_view,
};
use crate::syntax::expression::add::{add_expr_parser, add_op_parser};
use crate::syntax::expression::bit::bit_expr_parser;
use crate::syntax::expression::grammar::{
    spec_binary_op, spec_expression, spec_operand, spec_operands, spec_shift_reduce,
    spec_shift_reduce_outcome,
};
use crate::syntax::expression::logical::logical_expr_parser;
use crate::syntax::expression::mul::{mul_expr_parser, mul_op_parser};
use crate::syntax::expression::primary::primary_expr_parser;
use crate::syntax::expression::relational::{relational_expr_parser, relational_op_parser};
use crate::syntax::expression::shift::{shift_expr_parser, shift_op_parser};
use crate::syntax::expression::terminal::terminal_expr_parser;
use crate::syntax::expression::unary::unary_expr_parser;
use crate::syntax::util::{just, just_byte, parsed, parsed_view, whitespace_parser};
pub use crate::syntax::expression::grammar::ExpressionGrammar;
pub use crate::syntax::expression::terminal::{
    IntLiteralExpr, IntLiteralExprBase, IntLiteralExprSign, IntLiteralExprType, NameExpr, ParenExpr,
};
pub use crate::syntax::expression::primary::{CallExpr, DotExpr, DotExprSuffix};
pub use crate::syntax::expression::unary::{UnaryExpr, UnaryExprOp};
pub use crate::syntax::expression::bit::{BitExpr, BitExprOp};
pub use crate::syntax::expression::mul::{MulExpr, MulExprOp};
pub use crate::syntax::expression::add::{AddExpr, AddExprOp};
pub use crate::syntax::expression::shift::{ShiftExpr, ShiftExprOp};
pub use crate::syntax::expression::relational::{RelationalExpr, RelationalExprOp};
pub use crate::syntax::expression::logical::{LogicalExpr, LogicalExprOp};

verus! {

/// An expression of the language.
#[derive(Debug)]
pub enum Expression<'a> {
    Name(NameExpr<'a>),
    IntLiteral(IntLiteralExpr<'a>),
    Paren(ParenExpr<'a>),
    Dot(DotExpr<'a>),
    Call(CallExpr<'a>),
    Unary(UnaryExpr<'a>),
    Bit(BitExpr<'a>),
    Mul(MulExpr<'a>),
    Add(AddExpr<'a>),
    Shift(ShiftExpr<'a>),
    Relational(RelationalExpr<'a>),
    Logical(LogicalExpr<'a>),
}

/// What an integer literal is, as mathematics: its tags and its digits.
pub struct IntLiteralView {
    pub sign: Option<IntLiteralExprSign>,
    pub base: Option<IntLiteralExprBase>,
    pub ty: Option<IntLiteralExprType>,
    pub value: Seq<u8>,
}

/// What follows the dot of a component access.
pub enum DotSuffixView {
    Name(Seq<u8>),
    Number(u32),
}

/// What an expression is, as mathematics. Every binary expression is one
/// shape here: two operands and the operator between them.
pub enum ExprView {
    Name(Seq<Seq<u8>>),
    IntLiteral(IntLiteralView),
    Paren(Box<ExprView>),
    Dot(Box<ExprView>, DotSuffixView),
    Call(Box<ExprView>, Seq<ExprView>),
    Unary(UnaryExprOp, Box<ExprView>),
    Binary(Box<ExprView>, ExpressionPrecedenceContext, Box<ExprView>),
}

impl<'a> View for IntLiteralExpr<'a> {
    type V = IntLiteralView;

    open spec fn view(&self) -> IntLiteralView {
        IntLiteralView {
            sign: self.sign,
            base: self.base,
            ty: self.ty,
            value: self.value.spec_bytes(),
        }
    }
}

impl<'a> View for DotExprSuffix<'a> {
    type V = DotSuffixView;

    open spec fn view(&self) -> DotSuffixView {
        match self {
            DotExprSuffix::Name(name) => DotSuffixView::Name(name@),
            DotExprSuffix::Number(n) => DotSuffixView::Number(*n),
        }
    }
}

/// The view of an expression, by recursion on the tree.
pub open spec fn expr_view(e: Expression) -> ExprView
    decreases e,
{
    match e {
        Expression::Name(n) => ExprView::Name(n.name@),
        Expression::IntLiteral(lit) => ExprView::IntLiteral(lit@),
        Expression::Paren(p) => ExprView::Paren(Box::new(expr_view(*p.subexpr))),
        Expression::Dot(d) => ExprView::Dot(Box::new(expr_view(*d.target)), d.name@),
        Expression::Call(c) => ExprView::Call(
            Box::new(expr_view(*c.callee)),
            Seq::new(
                c.args@.len(),
                |i: int|
                    if 0 <= i < c.args@.len() {
                        expr_view(c.args@[i])
                    } else {
                        arbitrary()
                    },
            ),
        ),
        Expression::Unary(u) => ExprView::Unary(u.op, Box::new(expr_view(*u.subexpr))),
        Expression::Bit(b) => ExprView::Binary(
            Box::new(expr_view(*b.lhs)),
            ExpressionPrecedenceContext::Bit(b.op),
            Box::new(expr_view(*b.rhs)),
        ),
        Expression::Mul(b) => ExprView::Binary(
            Box::new(expr_view(*b.lhs)),
            ExpressionPrecedenceContext::Mul(b.op),
            Box::new(expr_view(*b.rhs)),
        ),
        Expression::Add(b) => ExprView::Binary(
            Box::new(expr_view(*b.lhs)),
            ExpressionPrecedenceContext::Add(b.op),
            Box::new(expr_view(*b.rhs)),
        ),
        Expression::Shift(b) => ExprView::Binary(
            Box::new(expr_view(*b.lhs)),
            ExpressionPrecedenceContext::Shift(b.op),
            Box::new(expr_view(*b.rhs)),
        ),
        Expression::Relational(b) => ExprView::Binary(
            Box::new(expr_view(*b.lhs)),
            ExpressionPrecedenceContext::Relational(b.op),
            Box::new(expr_view(*b.rhs)),
        ),
        Expression::Logical(b) => ExprView::Binary(
            Box::new(expr_view(*b.lhs)),
            ExpressionPrecedenceContext::Logical(b.op),
            Box::new(expr_view(*b.rhs)),
        ),
    }
}

impl<'a> View for Expression<'a> {
    type V = ExprView;

    open spec fn view(&self) -> ExprView {
        expr_view(*self)
    }
}

/// The view of a call is the view of its callee and the views of its
/// arguments.
pub proof fn lemma_call_view(callee: Expression, args: Vec<Expression>)
    ensures
        Expression::Call(CallExpr { callee: Box::new(callee), args })@ == ExprView::Call(
            Box::new(callee@),
            expr_views(args@),
        ),
{
    let e = Expression::Call(CallExpr { callee: Box::new(callee), args });
    assert(e@ matches ExprView::Call(_, list) && list =~= expr_views(args@));
}

/// The views of a list of expressions, in order.
pub open spec fn expr_views(list: Seq<Expression>) -> Seq<ExprView> {
    Seq::new(list.len(), |i: int| list[i]@)
}

/// What a parse of a whole text of `len` bytes as an expression gives,
/// from what the full grammar read at offset 0. A conflict between two
/// operators is reported at the offset of the second one.
pub open spec fn spec_complete_expression(
    r: Option<(Result<ExprView, Seq<char>>, int)>,
    len: int,
) -> Result<ExprView, ParseErrorView> {
    match r {
        Some((Ok(e), end)) => if end == len {
            Ok(e)
        } else {
            Err(ParseErrorView { position: end, kind: ParseErrorKindView::TrailingInput })
        },
        Some((Err(msg), at)) => Err(
            ParseErrorView { position: at, kind: ParseErrorKindView::Precedence(msg) },
        ),
        None => Err(ParseErrorView { position: 0, kind: ParseErrorKindView::NoMatch }),
    }
}

/// What the engine made of an operand chain, as mathematics.
pub open spec fn outcome_view(r: Option<(Result<Expression, String>, usize)>) -> Option<
    (Result<ExprView, Seq<char>>, int),
> {
    match r {
        Some((Ok(e), end)) => Some((Ok(e@), end as int)),
        Some((Err(msg), at)) => Some((Err(msg@), at as int)),
        None => None,
    }
}

impl ExpressionGrammar {
    /// The expression at `pos`, read by this rule, which also reads the
    /// expressions nested in it.
    pub fn parser<'a>(self, src: &'a str, pos: usize) -> (r: Option<(Expression<'a>, usize)>)
        ensures
            parsed_view(r) == spec_expression(src.spec_bytes(), pos as int, self),
            r matches Some((_, end)) ==> pos < end <= src.len(),
        decreases src.len() - pos, 20int,
    {
        match self {
            ExpressionGrammar::Terminal => terminal_expr_parser(self, src, pos),
            ExpressionGrammar::Primary => primary_expr_parser(self, src, pos),
            ExpressionGrammar::Unary => unary_expr_parser(self, src, pos),
            ExpressionGrammar::Mul => mul_expr_parser(self, src, pos),
            ExpressionGrammar::Add => add_expr_parser(self, src, pos),
            ExpressionGrammar::Bit => bit_expr_parser(self, src, pos),
            ExpressionGrammar::Shift => shift_expr_parser(self, src, pos),
            ExpressionGrammar::Relational => relational_expr_parser(self, src, pos),
            ExpressionGrammar::Logical => logical_expr_parser(self, src, pos),
            ExpressionGrammar::ShiftReduce => shift_reduce_expr_parser(self, src, pos),
        }
    }

    /// The whole of `src` as one expression of this rule.
    pub fn parse<'a>(self, src: &'a str) -> (r: Result<Expression<'a>, ParseError>)
        ensures
            result_view(r) == crate::syntax::error::spec_complete(
                spec_expression(src.spec_bytes(), 0, self),
                src.spec_bytes().len() as int,
            ),
    {
        crate::syntax::error::complete(self.parser(src, 0), src.as_bytes().len())
    }
}

/// A binary operator at `pos`, with any whitespace around it, and the
/// unary expression after it. Gives also the offset of the operator.
pub fn operand_parser<'a>(base: ExpressionGrammar, src: &'a str, pos: usize) -> (r: Option<
    (ExpressionPrecedenceContext, Expression<'a>, usize, usize),
>)
    ensures
        match r {
            Some((op, operand, at, end)) => spec_operand(src.spec_bytes(), pos as int, base)
                == Some(((op, operand@), end as int)) && pos < end <= src.len() && !(op is Top)
                && at as int == crate::syntax::util::spec_whitespace(src.spec_bytes(), pos as int),
            None => spec_operand(src.spec_bytes(), pos as int, base) is None,
        },
    decreases src.len() - pos, 5int,
{
    let at = whitespace_parser(src, pos);
    match Expression::binary_op_parser(src, at) {
        Some((op, after)) => {
            let q = whitespace_parser(src, after);
            match unary_expr_parser(base, src, q) {
                Some((operand, end)) => Some((op, operand, at, end)),
                None => None,
            }
        },
        None => None,
    }
}

/// What the full grammar reads at `pos`: nothing where no unary expression
/// stands there; else the expression and the offset where it ends, or the
/// message of the first conflict between two operators and the offset of
/// the second of them. The expressions nested in it are read by the rule
/// `base`.
pub fn shift_reduce_outcome_parser<'a>(base: ExpressionGrammar, src: &'a str, pos: usize) -> (r:
    Option<(Result<Expression<'a>, String>, usize)>)
    ensures
        outcome_view(r) == spec_shift_reduce_outcome(src.spec_bytes(), pos as int, base),
        r matches Some((Ok(_), end)) ==> pos < end <= src.len(),
    decreases src.len() - pos, 7int,
{
    let (first, start) = match unary_expr_parser(base, src, pos) {
        Some(found) => found,
        None => { return None; },
    };
    let mut state = ShiftReduceExpressionState::new(first);
    let mut end: usize = start;
    let mut done = false;
    while !done
        invariant
            pos < end <= src.len(),
            state@.well_formed(),
            state.error is None,
            spec_shift_reduce_outcome(src.spec_bytes(), pos as int, base) == Some(
                (
                    spec_operands(src.spec_bytes(), end as int, base, state@).0.finalize(),
                    spec_operands(src.spec_bytes(), end as int, base, state@).1,
                ),
            ),
            done ==> spec_operands(src.spec_bytes(), end as int, base, state@) == (
                state@,
                end as int,
            ),
        decreases src.len() - end, if done { 0int } else { 1int },
    {
        match operand_parser(base, src, end) {
            Some((op, operand, at, next)) => {
                state.push_op_expr(op, operand);
                let ghost pushed = state@;
                match state.take_error() {
                    Some(msg) => {
                        proof {
                            pushed.lemma_finalize_conflict();
                        }
                        return Some((Err(msg), at));
                    },
                    None => {},
                }
                end = next;
            },
            None => {
                done = true;
            },
        }
    }
    match state.finalize() {
        Ok(e) => Some((Ok(e), end)),
        Err(msg) => Some((Err(msg), end)),
    }
}

/// An expression of the full grammar at `pos`. Where two of its operators
/// cannot stand together without parentheses, there is none.
pub fn shift_reduce_expr_parser<'a>(base: ExpressionGrammar, src: &'a str, pos: usize) -> (r:
    Option<(Expression<'a>, usize)>)
    ensures
        parsed_view(r) == spec_shift_reduce(src.spec_bytes(), pos as int, base),
        r matches Some((_, end)) ==> pos < end <= src.len(),
    decreases src.len() - pos, 8int,
{
    match shift_reduce_outcome_parser(base, src, pos) {
        Some((Ok(e), end)) => Some((e, end)),
        _ => None,
    }
}

impl<'a> Expression<'a> {
    /// The expression in a box.
    pub fn boxed(self) -> (r: Box<Self>)
        ensures
            *r == self,
    {
        Box::new(self)
    }

    /// An expression of the full grammar at `pos`.
    pub fn parser(src: &'a str, pos: usize) -> (r: Option<(Expression<'a>, usize)>)
        ensures
            parsed_view(r) == spec_expression(
                src.spec_bytes(),
                pos as int,
                ExpressionGrammar::ShiftReduce,
            ),
            r matches Some((_, end)) ==> pos < end <= src.len(),
    {
        Expression::shift_reduce_parser(src, pos)
    }

    /// An expression that may stand on the left of an assignment, at
    /// `pos`: a primary expression, in which every nested expression is a
    /// primary expression too.
    pub fn lvalue_parser(src: &'a str, pos: usize) -> (r: Option<(Expression<'a>, usize)>)
        ensures
            parsed_view(r) == spec_expression(
                src.spec_bytes(),
                pos as int,
                ExpressionGrammar::Primary,
            ),
            r matches Some((_, end)) ==> pos < end <= src.len(),
    {
        ExpressionGrammar::Primary.parser(src, pos)
    }

    /// An expression of the full grammar at `pos`: unary expressions with
    /// binary operators between them, combined by the shift-reduce engine.
    pub fn shift_reduce_parser(src: &'a str, pos: usize) -> (r: Option<(Expression<'a>, usize)>)
        ensures
            parsed_view(r) == spec_expression(
                src.spec_bytes(),
                pos as int,
                ExpressionGrammar::ShiftReduce,
            ),
            r matches Some((_, end)) ==> pos < end <= src.len(),
    {
        ExpressionGrammar::ShiftReduce.parser(src, pos)
    }

    /// Any binary operator at `pos`. The two-byte operators are tried
    /// before the one-byte operators they start with.
    pub fn binary_op_parser(src: &str, pos: usize) -> (r: Option<
        (ExpressionPrecedenceContext, usize),
    >)
        ensures
            parsed(r) == spec_binary_op(src.spec_bytes(), pos as int),
            r matches Some((op, end)) ==> pos <= end <= src.len() && !(op is Top),
    {
        match just(src, pos, "||") {
            Some(q) => { return Some((ExpressionPrecedenceContext::Logical(LogicalExprOp::Or), q));
            },
            None => {},
        }
        match just(src, pos, "&&") {
            Some(q) => {
                return Some((ExpressionPrecedenceContext::Logical(LogicalExprOp::And), q));
            },
            None => {},
        }
        match shift_op_parser(src, pos) {
            Some((op, q)) => { return Some((ExpressionPrecedenceContext::Shift(op), q)); },
            None => {},
        }
        match relational_op_parser(src, pos) {
            Some((op, q)) => { return Some((ExpressionPrecedenceContext::Relational(op), q)); },
            None => {},
        }
        match add_op_parser(src, pos) {
            Some((op, q)) => { return Some((ExpressionPrecedenceContext::Add(op), q)); },
            None => {},
        }
        match mul_op_parser(src, pos) {
            Some((op, q)) => { return Some((ExpressionPrecedenceContext::Mul(op), q)); },
            None => {},
        }
        match just_byte(src, pos, '^' as u8) {
            Some(q) => { return Some((ExpressionPrecedenceContext::Bit(BitExprOp::Xor), q)); },
            None => {},
        }
        match just_byte(src, pos, '|' as u8) {
            Some(q) => { return Some((ExpressionPrecedenceContext::Bit(BitExprOp::Or), q)); },
            None => {},
        }
        match just_byte(src, pos, '&' as u8) {
            Some(q) => Some((ExpressionPrecedenceContext::Bit(BitExprOp::And), q)),
            None => None,
        }
    }

    /// The whole of `src` as one expression of the full grammar. A conflict
    /// between two operators is reported with the message that names the
    /// classes of both, at the offset of the second one.
    pub fn parse(src: &'a str) -> (r: Result<Expression<'a>, ParseError>)
        ensures
            result_view(r) == spec_complete_expression(
                spec_shift_reduce_outcome(src.spec_bytes(), 0, ExpressionGrammar::ShiftReduce),
                src.spec_bytes().len() as int,
            ),
    {
        match shift_reduce_outcome_parser(ExpressionGrammar::ShiftReduce, src, 0) {
            Some((Ok(e), end)) => if end == src.as_bytes().len() {
                Ok(e)
            } else {
                Err(ParseError { position: end, kind: ParseErrorKind::TrailingInput })
            },
            Some((Err(msg), at)) => Err(
                ParseError { position: at, kind: ParseErrorKind::Precedence(msg) },
            ),
            None => Err(ParseError { position: 0, kind: ParseErrorKind::NoMatch }),
        }
    }
}

/// What the engine does with an operator it has just read.
#[derive(Debug, Clone, PartialEq, Eq)]
pub enum ShiftReduceResult {
    /// Combine the two topmost operands, then look at the operator again.
    Reduce,
    /// Push the operator and its operand.
    Shift,
    /// The two operators cannot stand together without parentheses.
    Error(String),
}

/// A `ShiftReduceResult` as mathematics.
pub enum ShiftReduceOutcome {
    Reduce,
    Shift,
    Error(Seq<char>),
}

impl View for ShiftReduceResult {
    type V = ShiftReduceOutcome;

    open spec fn view(&self) -> ShiftReduceOutcome {
        match self {
            ShiftReduceResult::Reduce => ShiftReduceOutcome::Reduce,
            ShiftReduceResult::Shift => ShiftReduceOutcome::Shift,
            ShiftReduceResult::Error(msg) => ShiftReduceOutcome::Error(msg@),
        }
    }
}

/// A binary operator, as the context in which what follows it is read.
/// `Top` is the context outside every operator.
#[derive(Debug, Clone, Copy, PartialEq, Eq, Structural)]
pub enum ExpressionPrecedenceContext {
    Top,
    Logical(LogicalExprOp),
    Relational(RelationalExprOp),
    Shift(ShiftExprOp),
    Add(AddExprOp),
    Mul(MulExprOp),
    Bit(BitExprOp),
}

/// The message for an operator of class `next` met inside an operator of
/// class `context`.
pub open spec fn conflict_message(
    context: ExpressionPrecedenceContext,
    next: ExpressionPrecedenceContext,
) -> Seq<char> {
    "Cannot next "@ + next.spec_name() + " operator within a "@ + context.spec_name()
        + " operator without parenthesis."@
}

impl ExpressionPrecedenceContext {
    /// The name of the operator's class, for messages.
    pub open spec fn spec_name(self) -> Seq<char> {
        match self {
            ExpressionPrecedenceContext::Top => "top"@,
            ExpressionPrecedenceContext::Logical(LogicalExprOp::And) => "logical and"@,
            ExpressionPrecedenceContext::Logical(LogicalExprOp::Or) => "logical or"@,
            ExpressionPrecedenceContext::Relational(_) => "relational"@,
            ExpressionPrecedenceContext::Shift(_) => "shift"@,
            ExpressionPrecedenceContext::Add(_) => "add"@,
            ExpressionPrecedenceContext::Mul(_) => "mul"@,
            ExpressionPrecedenceContext::Bit(_) => "bit"@,
        }
    }

    /// How tightly the operator binds: a higher tier binds tighter.
    /// Multiplicative operators bind tightest, then additive, bitwise,
    /// shift, relational and logical ones.
    pub open spec fn spec_tier(self) -> nat {
        match self {
            ExpressionPrecedenceContext::Top => 0,
            ExpressionPrecedenceContext::Logical(_) => 1,
            ExpressionPrecedenceContext::Relational(_) => 2,
            ExpressionPrecedenceContext::Shift(_) => 3,
            ExpressionPrecedenceContext::Bit(_) => 4,
            ExpressionPrecedenceContext::Add(_) => 5,
            ExpressionPrecedenceContext::Mul(_) => 6,
        }
    }

    /// What two operators of one tier do when `next` follows `self`.
    /// Multiplicative and additive operators, and `&&`, group to the left;
    /// `||` and each bitwise operator group with themselves, to the right;
    /// two different bitwise operators, `&&` with `||`, two shifts and two
    /// comparisons cannot stand together.
    pub open spec fn spec_same_tier(self, next: ExpressionPrecedenceContext) -> ShiftReduceOutcome {
        match (self, next) {
            (
                ExpressionPrecedenceContext::Logical(LogicalExprOp::And),
                ExpressionPrecedenceContext::Logical(LogicalExprOp::And),
            ) => ShiftReduceOutcome::Reduce,
            (
                ExpressionPrecedenceContext::Logical(LogicalExprOp::Or),
                ExpressionPrecedenceContext::Logical(LogicalExprOp::Or),
            ) => ShiftReduceOutcome::Shift,
            (
                ExpressionPrecedenceContext::Bit(a),
                ExpressionPrecedenceContext::Bit(b),
            ) => if a == b {
                ShiftReduceOutcome::Shift
            } else {
                ShiftReduceOutcome::Error(conflict_message(self, next))
            },
            (
                ExpressionPrecedenceContext::Add(_),
                ExpressionPrecedenceContext::Add(_),
            ) => ShiftReduceOutcome::Reduce,
            (
                ExpressionPrecedenceContext::Mul(_),
                ExpressionPrecedenceContext::Mul(_),
            ) => ShiftReduceOutcome::Reduce,
            _ => ShiftReduceOutcome::Error(conflict_message(self, next)),
        }
    }

    /// The precedence table: what to do when the operator `next` is read
    /// while `self` is the innermost pending operator. Outside every
    /// operator anything is pushed. An operator of a tighter tier is
    /// pushed, so that it takes the operand before it; one of a looser
    /// tier makes the pending operator combine its operands first.
    pub open spec fn spec_shift_reduce(
        self,
        next: ExpressionPrecedenceContext,
    ) -> ShiftReduceOutcome {
        if self is Top {
            ShiftReduceOutcome::Shift
        } else if next is Top {
            ShiftReduceOutcome::Error(conflict_message(self, next))
        } else if next.spec_tier() > self.spec_tier() {
            ShiftReduceOutcome::Shift
        } else if next.spec_tier() < self.spec_tier() {
            ShiftReduceOutcome::Reduce
        } else {
            self.spec_same_tier(next)
        }
    }

    /// The binary expression with this operator between `lhs` and `rhs`.
    pub open spec fn spec_make_binary_expression(self, lhs: ExprView, rhs: ExprView) -> ExprView {
        ExprView::Binary(Box::new(lhs), self, Box::new(rhs))
    }

    /// The name of the operator's class, for messages.
    pub fn name(self) -> (r: &'static str)
        ensures
            r@ == self.spec_name(),
    {
        match self {
            ExpressionPrecedenceContext::Top => "top",
            ExpressionPrecedenceContext::Logical(LogicalExprOp::And) => "logical and",
            ExpressionPrecedenceContext::Logical(LogicalExprOp::Or) => "logical or",
            ExpressionPrecedenceContext::Relational(_) => "relational",
            ExpressionPrecedenceContext::Shift(_) => "shift",
            ExpressionPrecedenceContext::Add(_) => "add",
            ExpressionPrecedenceContext::Mul(_) => "mul",
            ExpressionPrecedenceContext::Bit(_) => "bit",
        }
    }

    /// How tightly the operator binds: a higher tier binds tighter.
    pub fn tier(self) -> (t: u8)
        ensures
            t as nat == self.spec_tier(),
    {
        match self {
            ExpressionPrecedenceContext::Top => 0,
            ExpressionPrecedenceContext::Logical(_) => 1,
            ExpressionPrecedenceContext::Relational(_) => 2,
            ExpressionPrecedenceContext::Shift(_) => 3,
            ExpressionPrecedenceContext::Bit(_) => 4,
            ExpressionPrecedenceContext::Add(_) => 5,
            ExpressionPrecedenceContext::Mul(_) => 6,
        }
    }

    /// The message that names both operator classes of a conflict.
    pub fn conflict(self, next: ExpressionPrecedenceContext) -> (r: ShiftReduceResult)
        ensures
            r@ == ShiftReduceOutcome::Error(conflict_message(self, next)),
    {
        let mut msg = String::from_str("Cannot next ");
        msg.append(next.name());
        msg.append(" operator within a ");
        msg.append(self.name());
        msg.append(" operator without parenthesis.");
        ShiftReduceResult::Error(msg)
    }

    /// Looks `next` up in the precedence table, with `self` as the
    /// innermost pending operator.
    pub fn shift_reduce(self, next: ExpressionPrecedenceContext) -> (r: ShiftReduceResult)
        ensures
            r@ == self.spec_shift_reduce(next),
    {
        match (self, next) {
            (ExpressionPrecedenceContext::Top, _) => ShiftReduceResult::Shift,
            (_, ExpressionPrecedenceContext::Top) => self.conflict(next),
            (
                ExpressionPrecedenceContext::Logical(LogicalExprOp::And),
                ExpressionPrecedenceContext::Logical(LogicalExprOp::And),
            ) => ShiftReduceResult::Reduce,
            (
                ExpressionPrecedenceContext::Logical(LogicalExprOp::Or),
                ExpressionPrecedenceContext::Logical(LogicalExprOp::Or),
            ) => ShiftReduceResult::Shift,
            (
                ExpressionPrecedenceContext::Bit(a),
                ExpressionPrecedenceContext::Bit(b),
            ) => if a == b {
                ShiftReduceResult::Shift
            } else {
                self.conflict(next)
            },
            (
                ExpressionPrecedenceContext::Add(_),
                ExpressionPrecedenceContext::Add(_),
            ) => ShiftReduceResult::Reduce,
            (
                ExpressionPrecedenceContext::Mul(_),
                ExpressionPrecedenceContext::Mul(_),
            ) => ShiftReduceResult::Reduce,
            _ => {
                let mine = self.tier();
                let theirs = next.tier();
                if theirs > mine {
                    ShiftReduceResult::Shift
                } else if theirs < mine {
                    ShiftReduceResult::Reduce
                } else {
                    self.conflict(next)
                }
            },
        }
    }

    /// The binary expression with this operator between `lhs` and `rhs`.
    pub fn make_binary_expression<'a>(self, lhs: Expression<'a>, rhs: Expression<'a>) -> (r:
        Expression<'a>)
        requires
            !(self is Top),
        ensures
            r@ == self.spec_make_binary_expression(lhs@, rhs@),
    {
        let lhs = lhs.boxed();
        let rhs = rhs.boxed();
        match self {
            ExpressionPrecedenceContext::Top => unreached(),
            ExpressionPrecedenceContext::Logical(op) => Expression::Logical(
                LogicalExpr { lhs, op, rhs },
            ),
            ExpressionPrecedenceContext::Relational(op) => Expression::Relational(
                RelationalExpr { lhs, op, rhs },
            ),
            ExpressionPrecedenceContext::Shift(op) => Expression::Shift(ShiftExpr { lhs, op, rhs }),
            ExpressionPrecedenceContext::Add(op) => Expression::Add(AddExpr { lhs, op, rhs }),
            ExpressionPrecedenceContext::Mul(op) => Expression::Mul(MulExpr { lhs, op, rhs }),
            ExpressionPrecedenceContext::Bit(op) => Expression::Bit(BitExpr { lhs, op, rhs }),
        }
    }
}

/// The engine's state as mathematics: the operands read and not yet
/// combined, the operators pending between them, and the first conflict met.
pub struct ShiftReduceStateView {
    pub stack: Seq<ExprView>,
    pub precs: Seq<ExpressionPrecedenceContext>,
    pub error: Option<Seq<char>>,
}

impl ShiftReduceStateView {
    /// The state after the first operand.
    pub open spec fn new(init: ExprView) -> ShiftReduceStateView {
        ShiftReduceStateView { stack: seq![init], precs: seq![], error: None }
    }

    /// One operator stands between each two operands, and `Top` is none of
    /// them.
    pub open spec fn well_formed(self) -> bool {
        &&& self.stack.len() == self.precs.len() + 1
        &&& forall|i: int| 0 <= i < self.precs.len() ==> !(#[trigger] self.precs[i] is Top)
    }

    /// The innermost pending operator, or `Top` where none is pending.
    pub open spec fn current_prec(self) -> ExpressionPrecedenceContext {
        if self.precs.len() == 0 {
            ExpressionPrecedenceContext::Top
        } else {
            self.precs.last()
        }
    }

    /// The two topmost operands combined by the innermost pending operator.
    pub open spec fn reduce(self) -> ShiftReduceStateView
        recommends
            self.precs.len() > 0,
            self.stack.len() >= 2,
    {
        let n = self.stack.len() as int;
        ShiftReduceStateView {
            stack: self.stack.subrange(0, n - 2).push(
                self.precs.last().spec_make_binary_expression(self.stack[n - 2], self.stack[n - 1]),
            ),
            precs: self.precs.drop_last(),
            error: self.error,
        }
    }

    /// The state after the operator `op` and the operand `expr` that
    /// follows it. After a conflict nothing changes any more.
    #[verifier::opaque]
    pub open spec fn push_op_expr(
        self,
        op: ExpressionPrecedenceContext,
        expr: ExprView,
    ) -> ShiftReduceStateView
        decreases self.precs.len(),
    {
        if self.error is Some {
            self
        } else {
            match self.current_prec().spec_shift_reduce(op) {
                ShiftReduceOutcome::Error(msg) => ShiftReduceStateView {
                    stack: self.stack,
                    precs: self.precs,
                    error: Some(msg),
                },
                ShiftReduceOutcome::Shift => ShiftReduceStateView {
                    stack: self.stack.push(expr),
                    precs: self.precs.push(op),
                    error: None,
                },
                ShiftReduceOutcome::Reduce => if self.precs.len() > 0 {
                    self.reduce().push_op_expr(op, expr)
                } else {
                    self
                },
            }
        }
    }

    /// After a conflict the result is its message.
    pub proof fn lemma_finalize_conflict(self)
        requires
            self.error is Some,
        ensures
            self.finalize() == Err::<ExprView, Seq<char>>(self.error->0),
    {
        reveal_with_fuel(ShiftReduceStateView::finalize, 1);
    }

    /// The one expression that is left when everything pending has been
    /// combined, or the conflict that was met.
    #[verifier::opaque]
    pub open spec fn finalize(self) -> Result<ExprView, Seq<char>>
        decreases self.precs.len(),
    {
        match self.error {
            Some(msg) => Err(msg),
            None => if self.precs.len() > 0 {
                self.reduce().finalize()
            } else {
                Ok(self.stack[0])
            },
        }
    }
}

/// The state of the shift-reduce engine.
pub struct ShiftReduceExpressionState<'a> {
    pub stack: Vec<Expression<'a>>,
    pub precs: Vec<ExpressionPrecedenceContext>,
    pub error: Option<String>,
}

impl<'a> View for ShiftReduceExpressionState<'a> {
    type V = ShiftReduceStateView;

    open spec fn view(&self) -> ShiftReduceStateView {
        ShiftReduceStateView {
            stack: expr_views(self.stack@),
            precs: self.precs@,
            error: match self.error {
                Some(msg) => Some(msg@),
                None => None,
            },
        }
    }
}

impl<'a> ShiftReduceExpressionState<'a> {
    /// The state after the first operand.
    pub fn new(init_expr: Expression<'a>) -> (r: Self)
        ensures
            r@ == ShiftReduceStateView::new(init_expr@),
            r@.well_formed(),
    {
        let mut stack: Vec<Expression<'a>> = Vec::new();
        stack.push(init_expr);
        let r = ShiftReduceExpressionState { stack, precs: Vec::new(), error: None };
        proof {
            assert(r@.stack =~= seq![init_expr@]);
            assert(r@.precs =~= seq![]);
        }
        r
    }

    /// The innermost pending operator, or `Top` where none is pending.
    pub fn current_prec(&self) -> (r: ExpressionPrecedenceContext)
        ensures
            r == self@.current_prec(),
    {
        if self.precs.len() == 0 {
            ExpressionPrecedenceContext::Top
        } else {
            self.precs[self.precs.len() - 1]
        }
    }

    /// Combines the two topmost operands by the innermost pending operator.
    pub fn reduce(&mut self)
        requires
            old(self)@.well_formed(),
            old(self)@.precs.len() > 0,
        ensures
            final(self)@ == old(self)@.reduce(),
            final(self)@.well_formed(),
    {
        let rhs = self.stack.pop().unwrap();
        let prec = self.precs.pop().unwrap();
        let lhs = self.stack.pop().unwrap();
        let new_expr = prec.make_binary_expression(lhs, rhs);
        self.stack.push(new_expr);
        proof {
            assert(self@.stack =~= old(self)@.reduce().stack);
            assert(self@.precs =~= old(self)@.reduce().precs);
        }
    }

    /// Takes in the operator `op` and the operand `expr` that follows it.
    pub fn push_op_expr(&mut self, op: ExpressionPrecedenceContext, expr: Expression<'a>)
        requires
            old(self)@.well_formed(),
            !(op is Top),
        ensures
            final(self)@ == old(self)@.push_op_expr(op, expr@),
            final(self)@.well_formed(),
    {
        proof {
            reveal_with_fuel(ShiftReduceStateView::push_op_expr, 1);
        }
        if self.error.is_some() {
            return ;
        }
        loop
            invariant
                self@.well_formed(),
                self.error is None,
                !(op is Top),
                old(self)@.push_op_expr(op, expr@) == self@.push_op_expr(op, expr@),
            decreases self.precs.len(),
        {
            proof {
                reveal_with_fuel(ShiftReduceStateView::push_op_expr, 1);
            }
            let current_prec = self.current_prec();
            match current_prec.shift_reduce(op) {
                ShiftReduceResult::Error(err) => {
                    self.error = Some(err);
                    return ;
                },
                ShiftReduceResult::Shift => {
                    self.precs.push(op);
                    self.stack.push(expr);
                    proof {
                        assert(self@.stack =~= old(self)@.push_op_expr(op, expr@).stack);
                    }
                    return ;
                },
                ShiftReduceResult::Reduce => {
                    self.reduce();
                },
            }
        }
    }

    /// The message of the conflict that was met, if any.
    pub fn take_error(&mut self) -> (r: Option<String>)
        ensures
            match r {
                Some(msg) => old(self)@.error == Some(msg@),
                None => old(self)@.error is None && *final(self) == *old(self),
            },
    {
        self.error.take()
    }

    /// Combines everything that is pending and gives the one expression
    /// that results, or the conflict that was met.
    pub fn finalize(self) -> (r: Result<Expression<'a>, String>)
        requires
            self@.well_formed(),
        ensures
            match r {
                Ok(e) => self@.finalize() == Ok::<ExprView, Seq<char>>(e@),
                Err(msg) => self@.finalize() == Err::<ExprView, Seq<char>>(msg@),
            },
    {
        proof {
            reveal_with_fuel(ShiftReduceStateView::finalize, 1);
        }
        let mut state = self;
        match state.error {
            Some(msg) => { return Err(msg); },
            None => {},
        }
        while state.stack.len() > 1
            invariant
                state@.well_formed(),
                state.error is None,
                self@.finalize() == state@.finalize(),
            decreases state.precs.len(),
        {
            proof {
                reveal_with_fuel(ShiftReduceStateView::finalize, 1);
            }
            state.reduce();
        }
        proof {
            reveal_with_fuel(ShiftReduceStateView::finalize, 1);
        }
        let e = state.stack.pop().unwrap();
        Ok(e)
    }
}

} // verus!
