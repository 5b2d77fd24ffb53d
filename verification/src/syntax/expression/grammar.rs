//! The grammar of expressions, as functions from a text and an offset to
//! what stands there.
//!
//! Each rule gives the tree it reads and the offset just past it, or
//! nothing where the text does not match. A choice takes the first
//! alternative that matches; a repetition takes as many items as match.
//! Nothing is ever taken back once a rule has given a result.

use vstd::prelude::*;
use vstd::string::*;
use crate::syntax::expression::{
    AddExprOp, BitExprOp, DotSuffixView, ExprView, ExpressionPrecedenceContext,
    IntLiteralExprBase, IntLiteralExprSign, IntLiteralExprType, IntLiteralView, LogicalExprOp,
    MulExprOp, RelationalExprOp, ShiftExprOp, ShiftReduceStateView, UnaryExprOp,
};
use crate::syntax::name::{spec_name, spec_name_path};
use crate::syntax::util::{
    advances, is_bin_digit, is_dec_digit, is_hex_digit, is_oct_digit, spec_just, spec_just_byte,
    spec_or, spec_pad, spec_padded, spec_padded_byte, spec_tagged, spec_tagged_byte,
    spec_whitespace, within,
};

verus! {

/// The rule by which the expressions nested in an expression are read:
/// those in parentheses and those that are arguments of a call. Each rule
/// from `Unary` to `Logical` is a layer over the one before it, from the
/// tightest binding to the loosest.
#[derive(Debug, Clone, Copy, PartialEq, Eq, Structural)]
pub enum ExpressionGrammar {
    Terminal,
    Primary,
    Unary,
    Mul,
    Add,
    Bit,
    Shift,
    Relational,
    Logical,
    /// The full grammar, with precedence by the shift-reduce engine.
    ShiftReduce,
}

/// True when `b` is a digit in the base `base`.
pub open spec fn is_digit_of(base: IntLiteralExprBase, b: u8) -> bool {
    match base {
        IntLiteralExprBase::Decimal => is_dec_digit(b),
        IntLiteralExprBase::Hexadecimal => is_hex_digit(b),
        IntLiteralExprBase::Binary => is_bin_digit(b),
        IntLiteralExprBase::Octal => is_oct_digit(b),
    }
}

/// The offset of the first byte at or after `p` that is no digit in `base`.
pub open spec fn spec_digits(s: Seq<u8>, p: int, base: IntLiteralExprBase) -> int
    decreases s.len() - p,
{
    if 0 <= p < s.len() && is_digit_of(base, s[p]) {
        spec_digits(s, p + 1, base)
    } else {
        p
    }
}

/// The end of the groups of digits that follow the first one, from `p`:
/// each is one underscore and one digit or more.
pub open spec fn spec_digits_run_rest(s: Seq<u8>, p: int, base: IntLiteralExprBase) -> int
    decreases s.len() - p,
{
    let q = spec_digits(s, p + 1, base);
    if spec_just_byte(s, p, '_' as u8) is Some && p + 1 < q <= s.len() {
        spec_digits_run_rest(s, q, base)
    } else {
        p
    }
}

/// A run of digits at `p`: groups of one digit or more, with one
/// underscore between each two.
pub open spec fn spec_digits_run(s: Seq<u8>, p: int, base: IntLiteralExprBase) -> Option<int> {
    let q = spec_digits(s, p, base);
    if p < q {
        Some(spec_digits_run_rest(s, q, base))
    } else {
        None
    }
}

/// The sign of a literal, with any whitespace around it, where there is
/// one.
pub open spec fn spec_int_sign(s: Seq<u8>, p: int) -> (Option<IntLiteralExprSign>, int) {
    let q = spec_whitespace(s, p);
    if spec_just_byte(s, q, '-' as u8) is Some {
        (Some(IntLiteralExprSign::Negative), spec_whitespace(s, q + 1))
    } else if spec_just_byte(s, q, '+' as u8) is Some {
        (Some(IntLiteralExprSign::Positive), spec_whitespace(s, q + 1))
    } else {
        (None, p)
    }
}

/// A base prefix `prefix` and a run of digits in `base`: the offsets at
/// which the digits start and end.
pub open spec fn spec_int_prefixed(
    s: Seq<u8>,
    p: int,
    prefix: Seq<u8>,
    base: IntLiteralExprBase,
) -> Option<(Option<IntLiteralExprBase>, int, int)> {
    match spec_just(s, p, prefix) {
        Some(q) => match spec_digits_run(s, q, base) {
            Some(end) => Some((Some(base), q, end)),
            None => None,
        },
        None => None,
    }
}

/// The digits of a literal, in one of five forms: after `0d`, `0b`, `0o`
/// or `0x` in that base, or bare in decimal. Gives the base where it is
/// written, and the offsets at which the digits start and end.
pub open spec fn spec_int_digits(s: Seq<u8>, p: int) -> Option<
    (Option<IntLiteralExprBase>, int, int),
> {
    spec_or(
        spec_int_prefixed(s, p, "0d".spec_bytes(), IntLiteralExprBase::Decimal),
        spec_or(
            spec_int_prefixed(s, p, "0b".spec_bytes(), IntLiteralExprBase::Binary),
            spec_or(
                spec_int_prefixed(s, p, "0o".spec_bytes(), IntLiteralExprBase::Octal),
                spec_or(
                    spec_int_prefixed(s, p, "0x".spec_bytes(), IntLiteralExprBase::Hexadecimal),
                    match spec_digits_run(s, p, IntLiteralExprBase::Decimal) {
                        Some(end) => Some((None, p, end)),
                        None => None,
                    },
                ),
            ),
        ),
    )
}

/// The type suffix of a literal, where there is one.
pub open spec fn spec_int_type(s: Seq<u8>, p: int) -> (Option<IntLiteralExprType>, int) {
    match spec_or(
        spec_tagged(s, p, "_u32".spec_bytes(), IntLiteralExprType::U32),
        spec_tagged(s, p, "_i32".spec_bytes(), IntLiteralExprType::I32),
    ) {
        Some((ty, q)) => (Some(ty), q),
        None => (None, p),
    }
}

/// An integer literal at `p`: a sign or none, the digits, a type suffix or
/// none.
pub open spec fn spec_int_literal(s: Seq<u8>, p: int) -> Option<(IntLiteralView, int)> {
    let (sign, q) = spec_int_sign(s, p);
    match spec_int_digits(s, q) {
        Some((base, from, to)) => {
            let (ty, end) = spec_int_type(s, to);
            Some((IntLiteralView { sign, base, ty, value: s.subrange(from, to) }, end))
        },
        None => None,
    }
}

/// A prefix operator at `p`.
pub open spec fn spec_unary_op(s: Seq<u8>, p: int) -> Option<(UnaryExprOp, int)> {
    spec_or(
        spec_tagged_byte(s, p, '-' as u8, UnaryExprOp::Negate),
        spec_or(
            spec_tagged_byte(s, p, '+' as u8, UnaryExprOp::Positive),
            spec_or(
                spec_tagged_byte(s, p, '!' as u8, UnaryExprOp::Not),
                spec_tagged_byte(s, p, '~' as u8, UnaryExprOp::Complement),
            ),
        ),
    )
}

/// A multiplicative operator at `p`.
pub open spec fn spec_mul_op(s: Seq<u8>, p: int) -> Option<(MulExprOp, int)> {
    spec_or(
        spec_tagged_byte(s, p, '*' as u8, MulExprOp::Mul),
        spec_or(
            spec_tagged_byte(s, p, '/' as u8, MulExprOp::Div),
            spec_tagged_byte(s, p, '%' as u8, MulExprOp::Mod),
        ),
    )
}

/// An additive operator at `p`.
pub open spec fn spec_add_op(s: Seq<u8>, p: int) -> Option<(AddExprOp, int)> {
    spec_or(
        spec_tagged_byte(s, p, '+' as u8, AddExprOp::Add),
        spec_tagged_byte(s, p, '-' as u8, AddExprOp::Sub),
    )
}

/// A shift operator at `p`.
pub open spec fn spec_shift_op(s: Seq<u8>, p: int) -> Option<(ShiftExprOp, int)> {
    spec_or(
        spec_tagged(s, p, "<<".spec_bytes(), ShiftExprOp::Shl),
        spec_tagged(s, p, ">>".spec_bytes(), ShiftExprOp::Shr),
    )
}

/// A comparison operator at `p`. The two-byte operators are tried first.
pub open spec fn spec_relational_op(s: Seq<u8>, p: int) -> Option<(RelationalExprOp, int)> {
    spec_or(
        spec_tagged(s, p, "<=".spec_bytes(), RelationalExprOp::LessThanOrEqual),
        spec_or(
            spec_tagged(s, p, ">=".spec_bytes(), RelationalExprOp::GreaterThanOrEqual),
            spec_or(
                spec_tagged(s, p, "==".spec_bytes(), RelationalExprOp::Equal),
                spec_or(
                    spec_tagged(s, p, "!=".spec_bytes(), RelationalExprOp::NotEqual),
                    spec_or(
                        spec_tagged_byte(s, p, '<' as u8, RelationalExprOp::LessThan),
                        spec_tagged_byte(s, p, '>' as u8, RelationalExprOp::GreaterThan),
                    ),
                ),
            ),
        ),
    )
}

/// The byte that a bitwise operator is written as.
pub open spec fn bit_op_byte(op: BitExprOp) -> u8 {
    match op {
        BitExprOp::Xor => '^' as u8,
        BitExprOp::Or => '|' as u8,
        BitExprOp::And => '&' as u8,
    }
}

/// The text of a logical operator.
pub open spec fn logical_op_text(op: LogicalExprOp) -> Seq<u8> {
    match op {
        LogicalExprOp::Or => "||".spec_bytes(),
        LogicalExprOp::And => "&&".spec_bytes(),
    }
}

/// Any binary operator at `p`, as the engine reads it. The two-byte
/// operators are tried before the one-byte operators they start with.
pub open spec fn spec_binary_op(s: Seq<u8>, p: int) -> Option<(ExpressionPrecedenceContext, int)> {
    spec_or(
        spec_tagged(
            s,
            p,
            "||".spec_bytes(),
            ExpressionPrecedenceContext::Logical(LogicalExprOp::Or),
        ),
        spec_or(
            spec_tagged(
                s,
                p,
                "&&".spec_bytes(),
                ExpressionPrecedenceContext::Logical(LogicalExprOp::And),
            ),
            spec_or(
                match spec_shift_op(s, p) {
                    Some((op, q)) => Some((ExpressionPrecedenceContext::Shift(op), q)),
                    None => None,
                },
                spec_or(
                    match spec_relational_op(s, p) {
                        Some((op, q)) => Some((ExpressionPrecedenceContext::Relational(op), q)),
                        None => None,
                    },
                    spec_or(
                        match spec_add_op(s, p) {
                            Some((op, q)) => Some((ExpressionPrecedenceContext::Add(op), q)),
                            None => None,
                        },
                        spec_or(
                            match spec_mul_op(s, p) {
                                Some((op, q)) => Some((ExpressionPrecedenceContext::Mul(op), q)),
                                None => None,
                            },
                            spec_or(
                                spec_tagged_byte(
                                    s,
                                    p,
                                    '^' as u8,
                                    ExpressionPrecedenceContext::Bit(BitExprOp::Xor),
                                ),
                                spec_or(
                                    spec_tagged_byte(
                                        s,
                                        p,
                                        '|' as u8,
                                        ExpressionPrecedenceContext::Bit(BitExprOp::Or),
                                    ),
                                    spec_tagged_byte(
                                        s,
                                        p,
                                        '&' as u8,
                                        ExpressionPrecedenceContext::Bit(BitExprOp::And),
                                    ),
                                ),
                            ),
                        ),
                    ),
                ),
            ),
        ),
    )
}

/// What follows the dot of a component access: a name, or one of the
/// digits 0 to 3.
pub open spec fn spec_dot_suffix(s: Seq<u8>, p: int) -> Option<(DotSuffixView, int)> {
    match spec_name(s, p) {
        Some((name, q)) => Some((DotSuffixView::Name(name), q)),
        None => spec_or(
            spec_tagged_byte(s, p, '0' as u8, DotSuffixView::Number(0)),
            spec_or(
                spec_tagged_byte(s, p, '1' as u8, DotSuffixView::Number(1)),
                spec_or(
                    spec_tagged_byte(s, p, '2' as u8, DotSuffixView::Number(2)),
                    spec_tagged_byte(s, p, '3' as u8, DotSuffixView::Number(3)),
                ),
            ),
        ),
    }
}

/// A component access at `p`: a dot, with any whitespace around it, and
/// what follows it.
pub open spec fn spec_dot_tail(s: Seq<u8>, p: int) -> Option<(DotSuffixView, int)> {
    match spec_padded_byte(s, p, '.' as u8) {
        Some(q) => spec_dot_suffix(s, q),
        None => None,
    }
}

/// The expression at `p`, read by the rule `base`, which also reads the
/// expressions nested in it.
pub open spec fn spec_expression(s: Seq<u8>, p: int, base: ExpressionGrammar) -> Option<
    (ExprView, int),
>
    decreases s.len() - p, 20int,
{
    match base {
        ExpressionGrammar::Terminal => spec_terminal(s, p, base),
        ExpressionGrammar::Primary => spec_primary(s, p, base),
        ExpressionGrammar::Unary => spec_unary(s, p, base),
        ExpressionGrammar::Mul => spec_mul(s, p, base),
        ExpressionGrammar::Add => spec_add(s, p, base),
        ExpressionGrammar::Bit => spec_bit(s, p, base),
        ExpressionGrammar::Shift => spec_shift(s, p, base),
        ExpressionGrammar::Relational => spec_relational(s, p, base),
        ExpressionGrammar::Logical => spec_logical(s, p, base),
        ExpressionGrammar::ShiftReduce => spec_shift_reduce(s, p, base),
    }
}

/// An expression in parentheses at `p`. Whitespace may stand around each
/// parenthesis.
pub open spec fn spec_paren(s: Seq<u8>, p: int, base: ExpressionGrammar) -> Option<(ExprView, int)>
    decreases s.len() - p, 1int,
{
    match spec_padded_byte(s, p, '(' as u8) {
        Some(q) => if advances(s, p, q) {
            match spec_expression(s, q, base) {
                Some((e, r)) => match spec_padded_byte(s, r, ')' as u8) {
                    Some(end) => Some((ExprView::Paren(Box::new(e)), end)),
                    None => None,
                },
                None => None,
            }
        } else {
            None
        },
        None => None,
    }
}

/// A terminal at `p`: a name, else an integer literal, else an expression
/// in parentheses.
pub open spec fn spec_terminal(s: Seq<u8>, p: int, base: ExpressionGrammar) -> Option<
    (ExprView, int),
>
    decreases s.len() - p, 2int,
{
    match spec_name_path(s, p) {
        Some((path, q)) => Some((ExprView::Name(path), q)),
        None => match spec_int_literal(s, p) {
            Some((lit, q)) => Some((ExprView::IntLiteral(lit), q)),
            None => spec_paren(s, p, base),
        },
    }
}

/// The arguments of a call that follow one already read, from `p`: each
/// is a comma, with any whitespace around it, and an expression. A comma
/// after the last argument is taken too. `acc` holds the arguments read so
/// far.
pub open spec fn spec_call_args_rest(
    s: Seq<u8>,
    p: int,
    base: ExpressionGrammar,
    acc: Seq<ExprView>,
) -> (Seq<ExprView>, int)
    decreases s.len() - p, 0int,
{
    match spec_padded_byte(s, p, ',' as u8) {
        Some(q) => if advances(s, p, q) {
            match spec_expression(s, q, base) {
                Some((e, r)) => if advances(s, p, r) {
                    spec_call_args_rest(s, r, base, acc.push(e))
                } else {
                    (acc, q)
                },
                None => (acc, q),
            }
        } else {
            (acc, p)
        },
        None => (acc, p),
    }
}

/// The arguments of a call, from `p`: none, or expressions separated by
/// commas.
pub open spec fn spec_call_args(s: Seq<u8>, p: int, base: ExpressionGrammar) -> (Seq<ExprView>, int)
    decreases s.len() - p, 21int,
{
    match spec_expression(s, p, base) {
        Some((e, q)) => if advances(s, p, q) {
            spec_call_args_rest(s, q, base, seq![e])
        } else {
            (seq![], p)
        },
        None => (seq![], p),
    }
}

/// The arguments of a call in their parentheses, at `p`.
pub open spec fn spec_call_tail(s: Seq<u8>, p: int, base: ExpressionGrammar) -> Option<
    (Seq<ExprView>, int),
>
    decreases s.len() - p, 0int,
{
    match spec_padded_byte(s, p, '(' as u8) {
        Some(q) => if advances(s, p, q) {
            let (args, r) = spec_call_args(s, q, base);
            match spec_padded_byte(s, r, ')' as u8) {
                Some(end) => Some((args, end)),
                None => None,
            }
        } else {
            None
        },
        None => None,
    }
}

/// The calls and component accesses that follow `target`, from `p`,
/// applied to it one after the other.
pub open spec fn spec_suffixes(s: Seq<u8>, p: int, base: ExpressionGrammar, target: ExprView) -> (
    ExprView,
    int,
)
    decreases s.len() - p, 1int,
{
    match spec_call_tail(s, p, base) {
        Some((args, q)) => if advances(s, p, q) {
            spec_suffixes(s, q, base, ExprView::Call(Box::new(target), args))
        } else {
            (target, p)
        },
        None => match spec_dot_tail(s, p) {
            Some((suffix, q)) => if advances(s, p, q) {
                spec_suffixes(s, q, base, ExprView::Dot(Box::new(target), suffix))
            } else {
                (target, p)
            },
            None => (target, p),
        },
    }
}

/// A primary expression at `p`: a terminal and the calls and component
/// accesses that follow it.
pub open spec fn spec_primary(s: Seq<u8>, p: int, base: ExpressionGrammar) -> Option<
    (ExprView, int),
>
    decreases s.len() - p, 3int,
{
    match spec_terminal(s, p, base) {
        Some((target, q)) => if advances(s, p, q) {
            Some(spec_suffixes(s, q, base, target))
        } else {
            None
        },
        None => None,
    }
}

/// A unary expression at `p`: prefix operators, each with any whitespace
/// around it, and a primary expression. The operator nearest to the
/// operand applies first.
pub open spec fn spec_unary(s: Seq<u8>, p: int, base: ExpressionGrammar) -> Option<(ExprView, int)>
    decreases s.len() - p, 4int,
{
    match spec_pad(s, spec_unary_op(s, spec_whitespace(s, p))) {
        Some((op, q)) => if advances(s, p, q) {
            match spec_unary(s, q, base) {
                Some((e, end)) => Some((ExprView::Unary(op, Box::new(e)), end)),
                None => None,
            }
        } else {
            None
        },
        None => spec_primary(s, p, base),
    }
}

/// The operands of a multiplicative expression that follow `acc`, from
/// `p`, combined with it from the left.
pub open spec fn spec_mul_rest(s: Seq<u8>, p: int, base: ExpressionGrammar, acc: ExprView) -> (
    ExprView,
    int,
)
    decreases s.len() - p, 5int,
{
    match spec_pad(s, spec_mul_op(s, spec_whitespace(s, p))) {
        Some((op, q)) => if within(s, p, q) {
            match spec_unary(s, q, base) {
                Some((rhs, r)) => if advances(s, p, r) {
                    spec_mul_rest(
                        s,
                        r,
                        base,
                        ExpressionPrecedenceContext::Mul(op).spec_make_binary_expression(acc, rhs),
                    )
                } else {
                    (acc, p)
                },
                None => (acc, p),
            }
        } else {
            (acc, p)
        },
        None => (acc, p),
    }
}

/// A multiplicative expression at `p`: unary expressions with `*`, `/` or
/// `%` between them, grouped from the left.
pub open spec fn spec_mul(s: Seq<u8>, p: int, base: ExpressionGrammar) -> Option<(ExprView, int)>
    decreases s.len() - p, 6int,
{
    match spec_unary(s, p, base) {
        Some((first, q)) => if advances(s, p, q) {
            Some(spec_mul_rest(s, q, base, first))
        } else {
            None
        },
        None => None,
    }
}

/// The operands of an additive expression that follow `acc`, from `p`,
/// combined with it from the left.
pub open spec fn spec_add_rest(s: Seq<u8>, p: int, base: ExpressionGrammar, acc: ExprView) -> (
    ExprView,
    int,
)
    decreases s.len() - p, 7int,
{
    match spec_pad(s, spec_add_op(s, spec_whitespace(s, p))) {
        Some((op, q)) => if within(s, p, q) {
            match spec_mul(s, q, base) {
                Some((rhs, r)) => if advances(s, p, r) {
                    spec_add_rest(
                        s,
                        r,
                        base,
                        ExpressionPrecedenceContext::Add(op).spec_make_binary_expression(acc, rhs),
                    )
                } else {
                    (acc, p)
                },
                None => (acc, p),
            }
        } else {
            (acc, p)
        },
        None => (acc, p),
    }
}

/// An additive expression at `p`: multiplicative expressions with `+` or
/// `-` between them, grouped from the left.
pub open spec fn spec_add(s: Seq<u8>, p: int, base: ExpressionGrammar) -> Option<(ExprView, int)>
    decreases s.len() - p, 8int,
{
    match spec_mul(s, p, base) {
        Some((first, q)) => if advances(s, p, q) {
            Some(spec_add_rest(s, q, base, first))
        } else {
            None
        },
        None => None,
    }
}

/// The bitwise operator `op` at `p`, with any whitespace around it, and
/// the additive expression after it.
pub open spec fn spec_bit_operand(
    s: Seq<u8>,
    p: int,
    base: ExpressionGrammar,
    op: BitExprOp,
) -> Option<(ExprView, int)>
    decreases s.len() - p, 9int,
{
    match spec_padded_byte(s, p, bit_op_byte(op)) {
        Some(q) => if within(s, p, q) {
            spec_add(s, q, base)
        } else {
            None
        },
        None => None,
    }
}

/// The operands of a bitwise expression that follow `acc`, from `p`: each
/// comes after the one operator `op`. They are combined with `acc` from
/// the left.
pub open spec fn spec_bit_rest(
    s: Seq<u8>,
    p: int,
    base: ExpressionGrammar,
    op: BitExprOp,
    acc: ExprView,
) -> (ExprView, int)
    decreases s.len() - p, 10int,
{
    match spec_bit_operand(s, p, base, op) {
        Some((rhs, r)) => if advances(s, p, r) {
            spec_bit_rest(
                s,
                r,
                base,
                op,
                ExpressionPrecedenceContext::Bit(op).spec_make_binary_expression(acc, rhs),
            )
        } else {
            (acc, p)
        },
        None => (acc, p),
    }
}

/// The first bitwise operator, of `^`, `|` and `&` in this order, that
/// stands at `p` with an operand after it.
pub open spec fn spec_bit_choice(s: Seq<u8>, p: int, base: ExpressionGrammar) -> Option<BitExprOp>
    decreases s.len() - p, 10int,
{
    if spec_bit_operand(s, p, base, BitExprOp::Xor) is Some {
        Some(BitExprOp::Xor)
    } else if spec_bit_operand(s, p, base, BitExprOp::Or) is Some {
        Some(BitExprOp::Or)
    } else if spec_bit_operand(s, p, base, BitExprOp::And) is Some {
        Some(BitExprOp::And)
    } else {
        None
    }
}

/// A bitwise expression at `p`: additive expressions with one and the
/// same operator of `^`, `|` and `&` between them, grouped from the left.
/// The expression ends before a different bitwise operator.
pub open spec fn spec_bit(s: Seq<u8>, p: int, base: ExpressionGrammar) -> Option<(ExprView, int)>
    decreases s.len() - p, 11int,
{
    match spec_add(s, p, base) {
        Some((first, q)) => if advances(s, p, q) {
            match spec_bit_choice(s, q, base) {
                Some(op) => Some(spec_bit_rest(s, q, base, op, first)),
                None => Some((first, q)),
            }
        } else {
            None
        },
        None => None,
    }
}

/// A shift expression at `p`: a bitwise expression, and at most one `<<`
/// or `>>` with a bitwise expression after it.
pub open spec fn spec_shift(s: Seq<u8>, p: int, base: ExpressionGrammar) -> Option<(ExprView, int)>
    decreases s.len() - p, 12int,
{
    match spec_bit(s, p, base) {
        Some((lhs, q)) => if advances(s, p, q) {
            match spec_pad(s, spec_shift_op(s, spec_whitespace(s, q))) {
                Some((op, r)) => if advances(s, p, r) {
                    match spec_bit(s, r, base) {
                        Some((rhs, end)) => Some(
                            (
                                ExpressionPrecedenceContext::Shift(op).spec_make_binary_expression(
                                    lhs,
                                    rhs,
                                ),
                                end,
                            ),
                        ),
                        None => Some((lhs, q)),
                    }
                } else {
                    Some((lhs, q))
                },
                None => Some((lhs, q)),
            }
        } else {
            None
        },
        None => None,
    }
}

/// A comparison at `p`: a shift expression, and at most one comparison
/// operator with a shift expression after it.
pub open spec fn spec_relational(s: Seq<u8>, p: int, base: ExpressionGrammar) -> Option<
    (ExprView, int),
>
    decreases s.len() - p, 13int,
{
    match spec_shift(s, p, base) {
        Some((lhs, q)) => if advances(s, p, q) {
            match spec_pad(s, spec_relational_op(s, spec_whitespace(s, q))) {
                Some((op, r)) => if advances(s, p, r) {
                    match spec_shift(s, r, base) {
                        Some((rhs, end)) => Some(
                            (
                                ExpressionPrecedenceContext::Relational(
                                    op,
                                ).spec_make_binary_expression(lhs, rhs),
                                end,
                            ),
                        ),
                        None => Some((lhs, q)),
                    }
                } else {
                    Some((lhs, q))
                },
                None => Some((lhs, q)),
            }
        } else {
            None
        },
        None => None,
    }
}

/// The logical operator `op` at `p`, with any whitespace around it, and
/// the comparison after it.
pub open spec fn spec_logical_operand(
    s: Seq<u8>,
    p: int,
    base: ExpressionGrammar,
    op: LogicalExprOp,
) -> Option<(ExprView, int)>
    decreases s.len() - p, 14int,
{
    match spec_padded(s, p, logical_op_text(op)) {
        Some(q) => if within(s, p, q) {
            spec_relational(s, q, base)
        } else {
            None
        },
        None => None,
    }
}

/// The operands of a logical expression that follow `acc`, from `p`: each
/// comes after the one operator `op`. They are combined with `acc` from
/// the left.
pub open spec fn spec_logical_rest(
    s: Seq<u8>,
    p: int,
    base: ExpressionGrammar,
    op: LogicalExprOp,
    acc: ExprView,
) -> (ExprView, int)
    decreases s.len() - p, 15int,
{
    match spec_logical_operand(s, p, base, op) {
        Some((rhs, r)) => if advances(s, p, r) {
            spec_logical_rest(
                s,
                r,
                base,
                op,
                ExpressionPrecedenceContext::Logical(op).spec_make_binary_expression(acc, rhs),
            )
        } else {
            (acc, p)
        },
        None => (acc, p),
    }
}

/// The first logical operator, of `&&` and `||` in this order, that stands
/// at `p` with an operand after it.
pub open spec fn spec_logical_choice(s: Seq<u8>, p: int, base: ExpressionGrammar) -> Option<
    LogicalExprOp,
>
    decreases s.len() - p, 15int,
{
    if spec_logical_operand(s, p, base, LogicalExprOp::And) is Some {
        Some(LogicalExprOp::And)
    } else if spec_logical_operand(s, p, base, LogicalExprOp::Or) is Some {
        Some(LogicalExprOp::Or)
    } else {
        None
    }
}

/// A logical expression at `p`: comparisons with one and the same operator
/// of `&&` and `||` between them, grouped from the left. The expression
/// ends before the other logical operator.
pub open spec fn spec_logical(s: Seq<u8>, p: int, base: ExpressionGrammar) -> Option<
    (ExprView, int),
>
    decreases s.len() - p, 16int,
{
    match spec_relational(s, p, base) {
        Some((first, q)) => if advances(s, p, q) {
            match spec_logical_choice(s, q, base) {
                Some(op) => Some(spec_logical_rest(s, q, base, op, first)),
                None => Some((first, q)),
            }
        } else {
            None
        },
        None => None,
    }
}

/// A binary operator at `p`, with any whitespace around it, and the unary
/// expression after it.
pub open spec fn spec_operand(s: Seq<u8>, p: int, base: ExpressionGrammar) -> Option<
    ((ExpressionPrecedenceContext, ExprView), int),
>
    decreases s.len() - p, 5int,
{
    match spec_pad(s, spec_binary_op(s, spec_whitespace(s, p))) {
        Some((op, q)) => if within(s, p, q) {
            match spec_unary(s, q, base) {
                Some((operand, r)) => Some(((op, operand), r)),
                None => None,
            }
        } else {
            None
        },
        None => None,
    }
}

/// The state of the engine after the operators and operands that follow,
/// from `p`. Reading stops at the end of the last operand, or at the first
/// operator that is in conflict with the one pending. Gives the state and
/// the offset where reading stopped.
pub open spec fn spec_operands(
    s: Seq<u8>,
    p: int,
    base: ExpressionGrammar,
    state: ShiftReduceStateView,
) -> (ShiftReduceStateView, int)
    decreases s.len() - p, 6int,
{
    match spec_operand(s, p, base) {
        Some(((op, operand), r)) => if advances(s, p, r) {
            let next = state.push_op_expr(op, operand);
            if next.error is Some {
                (next, spec_whitespace(s, p))
            } else {
                spec_operands(s, r, base, next)
            }
        } else {
            (state, p)
        },
        None => (state, p),
    }
}

/// What the full grammar reads at `p`: nothing where no unary expression
/// stands at `p`; else the unary expressions that follow each other with
/// binary operators between them, combined by the engine. The result is
/// the expression and the offset where it ends, or the message of the
/// first conflict between two operators and the offset of the second of
/// them.
pub open spec fn spec_shift_reduce_outcome(s: Seq<u8>, p: int, base: ExpressionGrammar) -> Option<
    (Result<ExprView, Seq<char>>, int),
>
    decreases s.len() - p, 7int,
{
    match spec_unary(s, p, base) {
        Some((first, q)) => if advances(s, p, q) {
            let (state, end) = spec_operands(s, q, base, ShiftReduceStateView::new(first));
            Some((state.finalize(), end))
        } else {
            None
        },
        None => None,
    }
}

/// An expression of the full grammar at `p`. Where two of its operators
/// cannot stand together without parentheses, there is none.
pub open spec fn spec_shift_reduce(s: Seq<u8>, p: int, base: ExpressionGrammar) -> Option<
    (ExprView, int),
>
    decreases s.len() - p, 8int,
{
    match spec_shift_reduce_outcome(s, p, base) {
        Some((Ok(e), end)) => Some((e, end)),
        _ => None,
    }
}

} // verus!
