use dubgsl::syntax::error::{ParseError, ParseErrorKind};
use dubgsl::syntax::expression::{
    AddExprOp, BitExprOp, DotExprSuffix, Expression, ExpressionPrecedenceContext, LogicalExprOp,
    MulExprOp, RelationalExprOp, ShiftExprOp, ShiftReduceExpressionState, ShiftReduceResult,
    UnaryExprOp,
};

/// Writes an expression back with parentheses around every binary and
/// unary expression, so that its grouping can be read off.
fn show(e: &Expression) -> String {
    match e {
        Expression::Name(n) => {
            let parts: Vec<&str> = n.name.parts.iter().map(|p| p.contents).collect();
            parts.join("::")
        },
        Expression::IntLiteral(lit) => lit.value.to_string(),
        Expression::Paren(p) => format!("[{}]", show(&p.subexpr)),
        Expression::Dot(d) => match &d.name {
            DotExprSuffix::Name(n) => format!("{}.{}", show(&d.target), n.contents),
            DotExprSuffix::Number(k) => format!("{}.{}", show(&d.target), k),
        },
        Expression::Call(c) => {
            let args: Vec<String> = c.args.iter().map(show).collect();
            format!("{}({})", show(&c.callee), args.join(","))
        },
        Expression::Unary(u) => {
            let op = match u.op {
                UnaryExprOp::Negate => "-",
                UnaryExprOp::Positive => "+",
                UnaryExprOp::Not => "!",
                UnaryExprOp::Complement => "~",
            };
            format!("({}{})", op, show(&u.subexpr))
        },
        Expression::Bit(b) => {
            let op = match b.op {
                BitExprOp::Xor => "^",
                BitExprOp::Or => "|",
                BitExprOp::And => "&",
            };
            format!("({}{}{})", show(&b.lhs), op, show(&b.rhs))
        },
        Expression::Mul(b) => {
            let op = match b.op {
                MulExprOp::Mul => "*",
                MulExprOp::Div => "/",
                MulExprOp::Mod => "%",
            };
            format!("({}{}{})", show(&b.lhs), op, show(&b.rhs))
        },
        Expression::Add(b) => {
            let op = match b.op {
                AddExprOp::Add => "+",
                AddExprOp::Sub => "-",
            };
            format!("({}{}{})", show(&b.lhs), op, show(&b.rhs))
        },
        Expression::Shift(b) => {
            let op = match b.op {
                ShiftExprOp::Shl => "<<",
                ShiftExprOp::Shr => ">>",
            };
            format!("({}{}{})", show(&b.lhs), op, show(&b.rhs))
        },
        Expression::Relational(b) => {
            let op = match b.op {
                RelationalExprOp::LessThan => "<",
                RelationalExprOp::LessThanOrEqual => "<=",
                RelationalExprOp::GreaterThan => ">",
                RelationalExprOp::GreaterThanOrEqual => ">=",
                RelationalExprOp::Equal => "==",
                RelationalExprOp::NotEqual => "!=",
            };
            format!("({}{}{})", show(&b.lhs), op, show(&b.rhs))
        },
        Expression::Logical(b) => {
            let op = match b.op {
                LogicalExprOp::Or => "||",
                LogicalExprOp::And => "&&",
            };
            format!("({}{}{})", show(&b.lhs), op, show(&b.rhs))
        },
    }
}

fn grouped(text: &str) -> String {
    match Expression::parse(text) {
        Ok(e) => show(&e),
        Err(e) => panic!("Failed to parse: {} - {:?}", text, e),
    }
}

fn conflict(text: &str) -> (usize, String) {
    match Expression::parse(text) {
        Err(ParseError { position, kind: ParseErrorKind::Precedence(msg) }) => (position, msg),
        other => panic!("Expected a conflict of operators in {}, got {:?}", text, other),
    }
}

#[test]
fn test_precedence_of_the_example() {
    assert_eq!(grouped("3 * 9 + foo(x) - -2"), "(((3*9)+foo(x))-(-2))");
}

#[test]
fn test_tighter_operator_takes_the_operand() {
    assert_eq!(grouped("a + b * c"), "(a+(b*c))");
    assert_eq!(grouped("a * b + c"), "((a*b)+c)");
    assert_eq!(grouped("a + b * c + d"), "((a+(b*c))+d)");
    assert_eq!(grouped("a == b + c"), "(a==(b+c))");
    assert_eq!(grouped("a + b == c"), "((a+b)==c)");
    assert_eq!(grouped("a << b + c"), "(a<<(b+c))");
    assert_eq!(grouped("a & b + c"), "(a&(b+c))");
    assert_eq!(grouped("a + b & c"), "((a+b)&c)");
    assert_eq!(grouped("a & b << c"), "((a&b)<<c)");
    assert_eq!(grouped("a << b & c"), "(a<<(b&c))");
    assert_eq!(grouped("a < b << c"), "(a<(b<<c))");
    assert_eq!(grouped("a && b < c"), "(a&&(b<c))");
    assert_eq!(grouped("a < b && c"), "((a<b)&&c)");
    assert_eq!(grouped("a || b == c + d * e"), "(a||(b==(c+(d*e))))");
    assert_eq!(grouped("a * b + c == d || e"), "((((a*b)+c)==d)||e)");
}

#[test]
fn test_operators_of_one_tier() {
    assert_eq!(grouped("a - b + c"), "((a-b)+c)");
    assert_eq!(grouped("a / b * c % d"), "(((a/b)*c)%d)");
    assert_eq!(grouped("a && b && c"), "((a&&b)&&c)");
    assert_eq!(grouped("a || b || c"), "(a||(b||c))");
    assert_eq!(grouped("a & b & c"), "(a&(b&c))");
    assert_eq!(grouped("a | b | c"), "(a|(b|c))");
    assert_eq!(grouped("a ^ b ^ c"), "(a^(b^c))");
}

#[test]
fn test_parentheses_dictate_the_grouping() {
    assert_eq!(grouped("(a + b) * c"), "([(a+b)]*c)");
    assert_eq!(grouped("a * (b + c)"), "(a*[(b+c)])");
    assert_eq!(grouped("(a & b) | c"), "([(a&b)]|c)");
    assert_eq!(grouped("a & (b | c)"), "(a&[(b|c)])");
    assert_eq!(grouped("(a && b) || c"), "([(a&&b)]||c)");
    assert_eq!(grouped("(a << b) << c"), "([(a<<b)]<<c)");
    assert_eq!(grouped("(a < b) < c"), "([(a<b)]<c)");
    assert_eq!(grouped("!(9 + foo(33) == 4)"), "(![((9+foo(33))==4)])");
}

#[test]
fn test_unary_and_suffixes_bind_tightest() {
    assert_eq!(grouped("-a.b * !c(d).0"), "((-a.b)*(!c(d).0))");
    assert_eq!(grouped("- - a"), "(-(-a))");
    assert_eq!(grouped("~ ! + - a"), "(~(!(+(-a))))");
    assert_eq!(grouped("1.0"), "1.0");
    assert_eq!(grouped("f(a, b + c,)"), "f(a,(b+c))");
    assert_eq!(grouped("f()(g)"), "f()(g)");
}

#[test]
fn test_mixing_bitwise_operators_fails() {
    assert_eq!(
        conflict("a & b | c"),
        (6, "Cannot next bit operator within a bit operator without parenthesis.".to_string()),
    );
    assert_eq!(conflict("a ^ b & c").0, 6);
    assert_eq!(conflict("a | b ^ c").0, 6);
}

#[test]
fn test_mixing_logical_operators_fails() {
    assert_eq!(
        conflict("a && b || c"),
        (
            7,
            "Cannot next logical or operator within a logical and operator without parenthesis."
                .to_string(),
        ),
    );
    assert_eq!(
        conflict("a || b && c"),
        (
            7,
            "Cannot next logical and operator within a logical or operator without parenthesis."
                .to_string(),
        ),
    );
}

#[test]
fn test_chained_shift_fails() {
    assert_eq!(
        conflict("a << b << c"),
        (7, "Cannot next shift operator within a shift operator without parenthesis.".to_string()),
    );
    assert_eq!(conflict("a >> b << c").0, 7);
}

#[test]
fn test_chained_relational_fails() {
    assert_eq!(
        conflict("a < b < c"),
        (
            6,
            "Cannot next relational operator within a relational operator without parenthesis."
                .to_string(),
        ),
    );
    assert_eq!(conflict("a == b != c").0, 7);
}

#[test]
fn test_conflict_after_a_reduce() {
    // `+` ends first, then the second comparison meets the first.
    assert_eq!(conflict("a < b + c < d").0, 10);
    assert_eq!(conflict("a & b + c | d").0, 10);
}

#[test]
fn test_conflict_inside_parentheses_is_no_expression() {
    assert_eq!(
        Expression::parse("(a & b | c)").err(),
        Some(ParseError { position: 0, kind: ParseErrorKind::NoMatch }),
    );
    assert!(Expression::parser("a & b | c", 0).is_none());
}

#[test]
fn test_expression_errors() {
    assert_eq!(
        Expression::parse("").err(),
        Some(ParseError { position: 0, kind: ParseErrorKind::NoMatch }),
    );
    assert_eq!(
        Expression::parse(" a").err(),
        Some(ParseError { position: 0, kind: ParseErrorKind::NoMatch }),
    );
    assert_eq!(
        Expression::parse("a +").err(),
        Some(ParseError { position: 1, kind: ParseErrorKind::TrailingInput }),
    );
    assert_eq!(
        Expression::parse("a b").err(),
        Some(ParseError { position: 1, kind: ParseErrorKind::TrailingInput }),
    );
}

fn and() -> ExpressionPrecedenceContext {
    ExpressionPrecedenceContext::Logical(LogicalExprOp::And)
}

fn or() -> ExpressionPrecedenceContext {
    ExpressionPrecedenceContext::Logical(LogicalExprOp::Or)
}

fn rel() -> ExpressionPrecedenceContext {
    ExpressionPrecedenceContext::Relational(RelationalExprOp::Equal)
}

fn shift() -> ExpressionPrecedenceContext {
    ExpressionPrecedenceContext::Shift(ShiftExprOp::Shl)
}

fn add() -> ExpressionPrecedenceContext {
    ExpressionPrecedenceContext::Add(AddExprOp::Add)
}

fn mul() -> ExpressionPrecedenceContext {
    ExpressionPrecedenceContext::Mul(MulExprOp::Mul)
}

fn bit(op: BitExprOp) -> ExpressionPrecedenceContext {
    ExpressionPrecedenceContext::Bit(op)
}

fn is_error(r: ShiftReduceResult) -> bool {
    matches!(r, ShiftReduceResult::Error(_))
}

#[test]
fn test_shift_reduce_table() {
    let top = ExpressionPrecedenceContext::Top;
    let all = [and(), or(), rel(), shift(), add(), mul(), bit(BitExprOp::And)];
    for op in all {
        assert_eq!(top.shift_reduce(op), ShiftReduceResult::Shift);
        assert!(is_error(op.shift_reduce(top)));
    }
    assert_eq!(top.shift_reduce(top), ShiftReduceResult::Shift);

    // From the loosest tier to the tightest.
    let tiers = [and(), rel(), shift(), bit(BitExprOp::Or), add(), mul()];
    for i in 0..tiers.len() {
        for j in 0..tiers.len() {
            if i < j {
                assert_eq!(tiers[i].shift_reduce(tiers[j]), ShiftReduceResult::Shift);
            } else if i > j {
                assert_eq!(tiers[i].shift_reduce(tiers[j]), ShiftReduceResult::Reduce);
            }
        }
    }

    assert_eq!(and().shift_reduce(and()), ShiftReduceResult::Reduce);
    assert_eq!(or().shift_reduce(or()), ShiftReduceResult::Shift);
    assert!(is_error(and().shift_reduce(or())));
    assert!(is_error(or().shift_reduce(and())));
    assert!(is_error(rel().shift_reduce(rel())));
    assert!(is_error(shift().shift_reduce(shift())));
    assert_eq!(add().shift_reduce(add()), ShiftReduceResult::Reduce);
    assert_eq!(mul().shift_reduce(mul()), ShiftReduceResult::Reduce);
    for a in [BitExprOp::And, BitExprOp::Or, BitExprOp::Xor] {
        for b in [BitExprOp::And, BitExprOp::Or, BitExprOp::Xor] {
            if a == b {
                assert_eq!(bit(a).shift_reduce(bit(b)), ShiftReduceResult::Shift);
            } else {
                assert!(is_error(bit(a).shift_reduce(bit(b))));
            }
        }
    }
}

#[test]
fn test_shift_reduce_messages() {
    assert_eq!(
        mul().shift_reduce(ExpressionPrecedenceContext::Top),
        ShiftReduceResult::Error(
            "Cannot next top operator within a mul operator without parenthesis.".to_string(),
        ),
    );
    assert_eq!(ExpressionPrecedenceContext::Top.name(), "top");
    assert_eq!(and().name(), "logical and");
    assert_eq!(or().name(), "logical or");
    assert_eq!(rel().name(), "relational");
    assert_eq!(shift().name(), "shift");
    assert_eq!(add().name(), "add");
    assert_eq!(mul().name(), "mul");
    assert_eq!(bit(BitExprOp::Xor).name(), "bit");
}

fn operand(text: &str) -> Expression<'_> {
    Expression::parse(text).unwrap()
}

#[test]
fn test_engine_by_hand() {
    let mut state = ShiftReduceExpressionState::new(operand("a"));
    assert_eq!(state.current_prec(), ExpressionPrecedenceContext::Top);
    state.push_op_expr(add(), operand("b"));
    assert_eq!(state.current_prec(), add());
    state.push_op_expr(mul(), operand("c"));
    assert_eq!(state.current_prec(), mul());
    assert_eq!(state.stack.len(), 3);
    state.reduce();
    assert_eq!(state.stack.len(), 2);
    assert_eq!(state.precs, vec![add()]);
    state.push_op_expr(add(), operand("d"));
    assert_eq!(state.stack.len(), 2);
    assert_eq!(show(&state.finalize().unwrap()), "((a+(b*c))+d)");
}

#[test]
fn test_engine_keeps_the_first_conflict() {
    let mut state = ShiftReduceExpressionState::new(operand("a"));
    state.push_op_expr(rel(), operand("b"));
    state.push_op_expr(rel(), operand("c"));
    state.push_op_expr(shift(), operand("d"));
    state.push_op_expr(shift(), operand("e"));
    assert_eq!(state.stack.len(), 2);
    assert_eq!(
        state.finalize().unwrap_err(),
        "Cannot next relational operator within a relational operator without parenthesis.",
    );
}

#[test]
fn test_make_binary_expression() {
    let e = shift().make_binary_expression(operand("a"), operand("b"));
    assert_eq!(show(&e), "(a<<b)");
    let e = bit(BitExprOp::Xor).make_binary_expression(operand("a"), operand("b"));
    assert_eq!(show(&e), "(a^b)");
    let e = or().make_binary_expression(operand("a"), operand("b"));
    assert_eq!(show(&e), "(a||b)");
}

#[test]
fn test_lvalue_is_a_primary_expression() {
    let (e, end) = Expression::lvalue_parser("birds(i).position.x = 0", 0).unwrap();
    assert_eq!(end, 19);
    assert_eq!(show(&e), "birds(i).position.x");
    // The arguments of a call in an lvalue are primary expressions too.
    let (e, end) = Expression::lvalue_parser("birds(i + 1).x", 0).unwrap();
    assert_eq!(end, 5);
    assert_eq!(show(&e), "birds");
    assert!(Expression::lvalue_parser("-a", 0).is_none());
}

#[test]
fn test_binary_op_parser_takes_the_longest() {
    assert_eq!(Expression::binary_op_parser("||", 0), Some((or(), 2)));
    assert_eq!(Expression::binary_op_parser("|", 0), Some((bit(BitExprOp::Or), 1)));
    assert_eq!(Expression::binary_op_parser("&&", 0), Some((and(), 2)));
    assert_eq!(Expression::binary_op_parser("&", 0), Some((bit(BitExprOp::And), 1)));
    assert_eq!(
        Expression::binary_op_parser("<<", 0),
        Some((ExpressionPrecedenceContext::Shift(ShiftExprOp::Shl), 2)),
    );
    assert_eq!(
        Expression::binary_op_parser("<=", 0),
        Some((ExpressionPrecedenceContext::Relational(RelationalExprOp::LessThanOrEqual), 2)),
    );
    assert_eq!(
        Expression::binary_op_parser("<", 0),
        Some((ExpressionPrecedenceContext::Relational(RelationalExprOp::LessThan), 1)),
    );
    assert_eq!(
        Expression::binary_op_parser("a%b", 1),
        Some((ExpressionPrecedenceContext::Mul(MulExprOp::Mod), 2)),
    );
    assert_eq!(Expression::binary_op_parser("a", 0), None);
    assert_eq!(Expression::binary_op_parser("+", 1), None);
}
