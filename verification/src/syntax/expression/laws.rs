//! What holds of the grammar of expressions and of the shift-reduce
//! engine, whatever the text and the operands.

use vstd::prelude::*;
use vstd::string::*;
use crate::syntax::expression::{
    conflict_message, AddExprOp, BitExprOp, ExprView, ExpressionPrecedenceContext,
    LogicalExprOp, MulExprOp, RelationalExprOp, ShiftExprOp, ShiftReduceOutcome,
    ShiftReduceStateView,
};
use crate::syntax::expression::grammar::{
    is_digit_of, spec_binary_op, spec_digits, spec_digits_run, spec_digits_run_rest,
    spec_operand, spec_operands, spec_primary, spec_shift_reduce, spec_suffixes, spec_terminal,
    spec_unary, ExpressionGrammar,
};
use crate::syntax::expression::terminal::IntLiteralExprBase;
use crate::syntax::util::{advances, spec_just_byte, spec_whitespace};

verus! {

/// What an expression reads as from left to right: an operand, or a
/// binary operator.
pub enum Token {
    Operand(ExprView),
    Operator(ExpressionPrecedenceContext),
}

/// The operands and binary operators of an expression, from left to
/// right. An operand is whatever is no binary expression itself: what
/// stands in parentheses stays one operand.
pub open spec fn inorder(e: ExprView) -> Seq<Token>
    decreases e,
{
    match e {
        ExprView::Binary(lhs, op, rhs) => inorder(*lhs) + seq![Token::Operator(op)] + inorder(
            *rhs,
        ),
        _ => seq![Token::Operand(e)],
    }
}

impl ShiftReduceStateView {
    /// The operands and operators that the engine holds, from left to
    /// right.
    pub open spec fn inorder(self) -> Seq<Token>
        decreases self.precs.len(),
    {
        if self.precs.len() == 0 || self.stack.len() < 2 {
            inorder(self.stack[0])
        } else {
            ShiftReduceStateView {
                stack: self.stack.drop_last(),
                precs: self.precs.drop_last(),
                error: self.error,
            }.inorder() + seq![Token::Operator(self.precs.last())] + inorder(self.stack.last())
        }
    }

    /// Outside every operator, and where the next operator binds tighter
    /// than the pending one, the operator and its operand are pushed.
    pub proof fn law_push_shifts(self, op: ExpressionPrecedenceContext, expr: ExprView)
        requires
            self.error is None,
            self.current_prec().spec_shift_reduce(op) is Shift,
        ensures
            self.push_op_expr(op, expr) == (ShiftReduceStateView {
                stack: self.stack.push(expr),
                precs: self.precs.push(op),
                error: None,
            }),
    {
        reveal_with_fuel(ShiftReduceStateView::push_op_expr, 1);
    }

    /// Where the next operator binds looser than the pending one, the
    /// pending one combines its operands first.
    pub proof fn law_push_reduces(self, op: ExpressionPrecedenceContext, expr: ExprView)
        requires
            self.error is None,
            self.precs.len() > 0,
            self.current_prec().spec_shift_reduce(op) is Reduce,
        ensures
            self.push_op_expr(op, expr) == self.reduce().push_op_expr(op, expr),
    {
        reveal_with_fuel(ShiftReduceStateView::push_op_expr, 1);
    }

    /// Where the next operator cannot stand with the pending one, the
    /// engine fails with the message that names both, and stays so
    /// whatever follows.
    pub proof fn law_conflict_fails(
        self,
        op: ExpressionPrecedenceContext,
        expr: ExprView,
        later_op: ExpressionPrecedenceContext,
        later_expr: ExprView,
    )
        requires
            self.error is None,
            self.current_prec().spec_shift_reduce(op) is Error,
        ensures
            self.push_op_expr(op, expr).finalize() == Err::<ExprView, Seq<char>>(
                conflict_message(self.current_prec(), op),
            ),
            self.push_op_expr(op, expr).push_op_expr(later_op, later_expr) == self.push_op_expr(
                op,
                expr,
            ),
    {
        reveal_with_fuel(ShiftReduceStateView::push_op_expr, 1);
        reveal_with_fuel(ShiftReduceStateView::finalize, 1);
    }

    /// To combine the two topmost operands changes nothing in what the
    /// engine holds from left to right.
    pub proof fn law_reduce_keeps_order(self)
        requires
            self.well_formed(),
            self.precs.len() > 0,
        ensures
            self.reduce().inorder() == self.inorder(),
            self.reduce().well_formed(),
    {
        let n = self.stack.len() as int;
        let below = ShiftReduceStateView {
            stack: self.stack.drop_last(),
            precs: self.precs.drop_last(),
            error: self.error,
        };
        let combined = self.precs.last().spec_make_binary_expression(
            self.stack[n - 2],
            self.stack[n - 1],
        );
        let after = self.reduce();
        assert(after.stack.len() == n - 1);
        assert(after.stack.last() == combined);
        assert(inorder(combined) == inorder(self.stack[n - 2]) + seq![
            Token::Operator(self.precs.last()),
        ] + inorder(self.stack[n - 1]));
        assert(below.stack.last() == self.stack[n - 2]);
        assert(self.inorder() == below.inorder() + seq![Token::Operator(self.precs.last())]
            + inorder(self.stack.last()));
        if self.precs.len() == 1 {
            assert(after.precs.len() == 0);
            assert(after.stack[0] == combined);
            assert(below.precs.len() == 0);
            assert(below.stack[0] == self.stack[0]);
            assert(below.inorder() == inorder(below.stack[0]));
            assert(after.inorder() == inorder(after.stack[0]));
        } else {
            let below_after = ShiftReduceStateView {
                stack: after.stack.drop_last(),
                precs: after.precs.drop_last(),
                error: after.error,
            };
            let below_below = ShiftReduceStateView {
                stack: below.stack.drop_last(),
                precs: below.precs.drop_last(),
                error: below.error,
            };
            assert(below_after.stack =~= below_below.stack);
            assert(below_after.precs =~= below_below.precs);
            assert(after.precs.last() == below.precs.last());
            let head = below_below.inorder();
            let mid = seq![Token::Operator(below.precs.last())];
            let a = inorder(self.stack[n - 2]);
            let b = seq![Token::Operator(self.precs.last())];
            let c = inorder(self.stack[n - 1]);
            assert(below_after == below_below);
            assert(below.inorder() == head + mid + a);
            assert(after.inorder() == below_after.inorder() + mid + inorder(combined));
            assert(head + mid + (a + b + c) =~= head + mid + a + b + c);
        }
    }

    /// A push that meets no conflict adds the operator and the operand at
    /// the right end of what the engine holds, and changes nothing else.
    pub proof fn law_push_keeps_order(self, op: ExpressionPrecedenceContext, expr: ExprView)
        requires
            self.well_formed(),
            self.error is None,
            !(op is Top),
            !(expr is Binary),
            self.push_op_expr(op, expr).error is None,
        ensures
            self.push_op_expr(op, expr).inorder() == self.inorder() + seq![
                Token::Operator(op),
                Token::Operand(expr),
            ],
            self.push_op_expr(op, expr).well_formed(),
        decreases self.precs.len(),
    {
        reveal_with_fuel(ShiftReduceStateView::push_op_expr, 1);
        match self.current_prec().spec_shift_reduce(op) {
            ShiftReduceOutcome::Error(_) => {},
            ShiftReduceOutcome::Shift => {
                let after = self.push_op_expr(op, expr);
                let below = ShiftReduceStateView {
                    stack: after.stack.drop_last(),
                    precs: after.precs.drop_last(),
                    error: after.error,
                };
                assert(below.stack =~= self.stack);
                assert(below.precs =~= self.precs);
                assert(after.precs.last() == op);
                assert(after.stack.last() == expr);
                assert(self.inorder() + seq![Token::Operator(op)] + seq![Token::Operand(expr)]
                    =~= self.inorder() + seq![Token::Operator(op), Token::Operand(expr)]);
            },
            ShiftReduceOutcome::Reduce => {
                self.law_reduce_keeps_order();
                self.reduce().law_push_keeps_order(op, expr);
            },
        }
    }

    /// The expression that the engine gives reads from left to right as
    /// what the engine held: the engine groups, it never reorders.
    pub proof fn law_finalize_keeps_order(self)
        requires
            self.well_formed(),
        ensures
            self.finalize() matches Ok(e) ==> inorder(e) == self.inorder(),
        decreases self.precs.len(),
    {
        reveal_with_fuel(ShiftReduceStateView::finalize, 1);
        if self.error is None && self.precs.len() > 0 {
            self.law_reduce_keeps_order();
            self.reduce().law_finalize_keeps_order();
        }
    }
}

/// A group of digits goes as far as the digits of its base go and no
/// further.
pub proof fn lemma_digits(s: Seq<u8>, p: int, base: IntLiteralExprBase)
    requires
        0 <= p <= s.len(),
    ensures
        p <= spec_digits(s, p, base) <= s.len(),
        forall|k: int| p <= k < spec_digits(s, p, base) ==> is_digit_of(base, #[trigger] s[k]),
        spec_digits(s, p, base) < s.len() ==> !is_digit_of(base, s[spec_digits(s, p, base)]),
    decreases s.len() - p,
{
    if p < s.len() && is_digit_of(base, s[p]) {
        lemma_digits(s, p + 1, base);
    }
}

/// A run of digits holds digits of its base and single underscores, and
/// neither starts nor ends with an underscore, nor holds two in a row.
pub proof fn law_digits_run(s: Seq<u8>, p: int, base: IntLiteralExprBase)
    requires
        0 <= p <= s.len(),
    ensures
        spec_digits_run(s, p, base) matches Some(end) ==> {
            &&& p < end <= s.len()
            &&& is_digit_of(base, s[p])
            &&& is_digit_of(base, s[end - 1])
            &&& forall|k: int|
                p <= k < end ==> is_digit_of(base, #[trigger] s[k]) || (s[k] == '_' as u8
                    && is_digit_of(base, s[k - 1]) && is_digit_of(base, s[k + 1]))
        },
        spec_digits_run(s, p, base) is Some <==> p < s.len() && is_digit_of(base, s[p]),
{
    lemma_digits(s, p, base);
    let q = spec_digits(s, p, base);
    if p < q {
        lemma_digits_run_rest(s, q, base);
    }
}

/// The groups of digits that follow the first one: each starts with one
/// underscore between two digits.
pub proof fn lemma_digits_run_rest(s: Seq<u8>, p: int, base: IntLiteralExprBase)
    requires
        0 < p <= s.len(),
        is_digit_of(base, s[p - 1]),
    ensures
        p <= spec_digits_run_rest(s, p, base) <= s.len(),
        is_digit_of(base, s[spec_digits_run_rest(s, p, base) - 1]),
        forall|k: int|
            p <= k < spec_digits_run_rest(s, p, base) ==> is_digit_of(base, #[trigger] s[k]) || (
            s[k] == '_' as u8 && is_digit_of(base, s[k - 1]) && is_digit_of(base, s[k + 1])),
    decreases s.len() - p,
{
    if p < s.len() {
        lemma_digits(s, p + 1, base);
        let q = spec_digits(s, p + 1, base);
        if spec_just_byte(s, p, '_' as u8) is Some && p + 1 < q <= s.len() {
            lemma_digits_run_rest(s, q, base);
        }
    }
}

/// The operators and operands that follow from `p` in the text, as the
/// full grammar reads them, in the order of the text.
pub open spec fn spec_operand_tokens(s: Seq<u8>, p: int, base: ExpressionGrammar) -> Seq<Token>
    decreases s.len() - p,
{
    match spec_operand(s, p, base) {
        Some(((op, operand), r)) => if advances(s, p, r) {
            seq![Token::Operator(op), Token::Operand(operand)] + spec_operand_tokens(s, r, base)
        } else {
            seq![]
        },
        None => seq![],
    }
}

/// Calls and component accesses make no binary expression of what is
/// none.
pub proof fn lemma_suffixes_not_binary(
    s: Seq<u8>,
    p: int,
    base: ExpressionGrammar,
    target: ExprView,
)
    requires
        !(target is Binary),
    ensures
        !(spec_suffixes(s, p, base, target).0 is Binary),
    decreases s.len() - p,
{
    match crate::syntax::expression::grammar::spec_call_tail(s, p, base) {
        Some((args, q)) => {
            if advances(s, p, q) {
                lemma_suffixes_not_binary(s, q, base, ExprView::Call(Box::new(target), args));
            }
        },
        None => match crate::syntax::expression::grammar::spec_dot_tail(s, p) {
            Some((suffix, q)) => {
                if advances(s, p, q) {
                    lemma_suffixes_not_binary(s, q, base, ExprView::Dot(Box::new(target), suffix));
                }
            },
            None => {},
        },
    }
}

/// A unary expression is no binary expression: what stands between two
/// binary operators is one operand.
pub proof fn lemma_unary_not_binary(s: Seq<u8>, p: int, base: ExpressionGrammar)
    ensures
        spec_unary(s, p, base) matches Some((e, _)) ==> !(e is Binary),
{
    assert(crate::syntax::expression::grammar::spec_paren(s, p, base) matches Some((e, _))
        ==> e is Paren);
    assert(spec_terminal(s, p, base) matches Some((e, _)) ==> !(e is Binary));
    match spec_terminal(s, p, base) {
        Some((target, q)) => {
            lemma_suffixes_not_binary(s, q, base, target);
        },
        None => {},
    }
    assert(spec_primary(s, p, base) matches Some((e, _)) ==> !(e is Binary));
}

/// A binary operator of the text is never `Top`.
pub proof fn lemma_operator_not_top(s: Seq<u8>, p: int)
    ensures
        spec_binary_op(s, p) matches Some((op, _)) ==> !(op is Top),
{
}

/// The engine holds the operators and operands that it has read, in the
/// order of the text, as long as it meets no conflict.
pub proof fn lemma_operands_keep_order(
    s: Seq<u8>,
    p: int,
    base: ExpressionGrammar,
    state: ShiftReduceStateView,
)
    requires
        state.well_formed(),
        state.error is None,
    ensures
        spec_operands(s, p, base, state).0.error is None ==> spec_operands(
            s,
            p,
            base,
            state,
        ).0.well_formed() && spec_operands(s, p, base, state).0.inorder() == state.inorder()
            + spec_operand_tokens(s, p, base),
    decreases s.len() - p,
{
    match spec_operand(s, p, base) {
        Some(((op, operand), r)) => {
            if advances(s, p, r) {
                let next = state.push_op_expr(op, operand);
                if next.error is None {
                    let q = spec_whitespace(s, p);
                    lemma_operator_not_top(s, q);
                    match crate::syntax::util::spec_pad(s, spec_binary_op(s, q)) {
                        Some((_, at)) => {
                            lemma_unary_not_binary(s, at, base);
                        },
                        None => {},
                    }
                    state.law_push_keeps_order(op, operand);
                    lemma_operands_keep_order(s, r, base, next);
                    let step = seq![Token::Operator(op), Token::Operand(operand)];
                    let rest = spec_operand_tokens(s, r, base);
                    assert(state.inorder() + step + rest =~= state.inorder() + (step + rest));
                }
            } else {
                assert(state.inorder() + Seq::<Token>::empty() =~= state.inorder());
            }
        },
        None => {
            assert(state.inorder() + Seq::<Token>::empty() =~= state.inorder());
        },
    }
}

/// The expression that the full grammar reads at `p` reads from left to
/// right as the text does: the first operand, then each operator with its
/// operand, in the order of the text. Precedence groups the operands; it
/// never reorders them, and what stands in parentheses stays one operand.
pub proof fn law_expression_keeps_order(s: Seq<u8>, p: int, base: ExpressionGrammar)
    ensures
        spec_shift_reduce(s, p, base) matches Some((e, _)) ==> spec_unary(s, p, base) matches Some(
            (first, q),
        ) && inorder(e) == seq![Token::Operand(first)] + spec_operand_tokens(s, q, base),
{
    match spec_unary(s, p, base) {
        Some((first, q)) => {
            if advances(s, p, q) {
                lemma_unary_not_binary(s, p, base);
                let start = ShiftReduceStateView::new(first);
                assert(start.inorder() == seq![Token::Operand(first)]);
                lemma_operands_keep_order(s, q, base, start);
                let (state, end) = spec_operands(s, q, base, start);
                if state.error is Some {
                    state.lemma_finalize_conflict();
                } else {
                    state.law_finalize_keeps_order();
                }
            }
        },
        None => {},
    }
}

/// Of two operators that follow each other, the one that binds tighter
/// takes the operand between them; of two that bind alike, the table
/// says which. So `e0 a e1 b e2` is `(e0 a e1) b e2` where the table says
/// Reduce, `e0 a (e1 b e2)` where it says Shift, and the conflict with its
/// message where it says Error.
pub proof fn law_two_operators(
    e0: ExprView,
    a: ExpressionPrecedenceContext,
    e1: ExprView,
    b: ExpressionPrecedenceContext,
    e2: ExprView,
)
    requires
        !(a is Top),
        !(b is Top),
    ensures
        ShiftReduceStateView::new(e0).push_op_expr(a, e1).push_op_expr(b, e2).finalize() == (
        match a.spec_shift_reduce(b) {
            ShiftReduceOutcome::Reduce => Ok::<ExprView, Seq<char>>(
                b.spec_make_binary_expression(a.spec_make_binary_expression(e0, e1), e2),
            ),
            ShiftReduceOutcome::Shift => Ok(
                a.spec_make_binary_expression(e0, b.spec_make_binary_expression(e1, e2)),
            ),
            ShiftReduceOutcome::Error(msg) => Err(msg),
        }),
{
    let s0 = ShiftReduceStateView::new(e0);
    s0.law_push_shifts(a, e1);
    let s1 = s0.push_op_expr(a, e1);
    assert(s1.stack =~= seq![e0, e1]);
    assert(s1.precs =~= seq![a]);
    assert(s1.current_prec() == a);
    match a.spec_shift_reduce(b) {
        ShiftReduceOutcome::Reduce => {
            s1.law_push_reduces(b, e2);
            let s2 = s1.reduce();
            assert(s2.stack =~= seq![a.spec_make_binary_expression(e0, e1)]);
            assert(s2.precs =~= seq![]);
            s2.law_push_shifts(b, e2);
            let s3 = s2.push_op_expr(b, e2);
            assert(s3.stack =~= seq![a.spec_make_binary_expression(e0, e1), e2]);
            assert(s3.precs =~= seq![b]);
            let s4 = s3.reduce();
            assert(s4.stack =~= seq![
                b.spec_make_binary_expression(a.spec_make_binary_expression(e0, e1), e2),
            ]);
            assert(s4.precs =~= seq![]);
            reveal_with_fuel(ShiftReduceStateView::finalize, 2);
        },
        ShiftReduceOutcome::Shift => {
            s1.law_push_shifts(b, e2);
            let s2 = s1.push_op_expr(b, e2);
            assert(s2.stack =~= seq![e0, e1, e2]);
            assert(s2.precs =~= seq![a, b]);
            let s3 = s2.reduce();
            assert(s3.stack =~= seq![e0, b.spec_make_binary_expression(e1, e2)]);
            assert(s3.precs =~= seq![a]);
            let s4 = s3.reduce();
            assert(s4.stack =~= seq![
                a.spec_make_binary_expression(e0, b.spec_make_binary_expression(e1, e2)),
            ]);
            assert(s4.precs =~= seq![]);
            reveal_with_fuel(ShiftReduceStateView::finalize, 3);
        },
        ShiftReduceOutcome::Error(msg) => {
            s1.law_conflict_fails(b, e2, b, e2);
        },
    }
}

/// Operators that cannot stand together without parentheses: two
/// different bitwise operators, `&&` with `||`, two shifts, and two
/// comparisons.
pub proof fn law_mixing_needs_parentheses(
    a: ExpressionPrecedenceContext,
    b: ExpressionPrecedenceContext,
)
    requires
        ({
            ||| (a matches ExpressionPrecedenceContext::Bit(x)
                && b matches ExpressionPrecedenceContext::Bit(y) && x != y)
            ||| (a matches ExpressionPrecedenceContext::Logical(x)
                && b matches ExpressionPrecedenceContext::Logical(y) && x != y)
            ||| (a is Shift && b is Shift)
            ||| (a is Relational && b is Relational)
        }),
    ensures
        a.spec_shift_reduce(b) == ShiftReduceOutcome::Error(conflict_message(a, b)),
{
}

/// An operator of a tighter tier is pushed, one of a looser tier makes the
/// pending operator combine its operands: the tiers, from the tightest,
/// are the multiplicative, additive, bitwise, shift, relational and
/// logical operators.
pub proof fn law_tiers(a: ExpressionPrecedenceContext, b: ExpressionPrecedenceContext)
    requires
        !(a is Top),
        !(b is Top),
        a.spec_tier() != b.spec_tier(),
    ensures
        b.spec_tier() > a.spec_tier() ==> a.spec_shift_reduce(b) is Shift,
        b.spec_tier() < a.spec_tier() ==> a.spec_shift_reduce(b) is Reduce,
        ExpressionPrecedenceContext::Mul(MulExprOp::Mul).spec_tier()
            > ExpressionPrecedenceContext::Add(AddExprOp::Add).spec_tier()
            > ExpressionPrecedenceContext::Bit(BitExprOp::And).spec_tier()
            > ExpressionPrecedenceContext::Shift(ShiftExprOp::Shl).spec_tier()
            > ExpressionPrecedenceContext::Relational(RelationalExprOp::Equal).spec_tier()
            > ExpressionPrecedenceContext::Logical(LogicalExprOp::And).spec_tier(),
{
}

} // verus!
