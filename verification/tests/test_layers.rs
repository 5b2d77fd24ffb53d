use dubgsl::syntax::error::{ParseError, ParseErrorKind};
use dubgsl::syntax::expression::{
    BitExprOp, Expression, ExpressionGrammar, IntLiteralExpr, IntLiteralExprBase,
    IntLiteralExprSign, IntLiteralExprType, LogicalExprOp,
};
use dubgsl::syntax::expression::add::add_expr_parser;
use dubgsl::syntax::expression::bit::bit_expr_parser;
use dubgsl::syntax::expression::logical::logical_expr_parser;
use dubgsl::syntax::expression::mul::mul_expr_parser;
use dubgsl::syntax::expression::primary::primary_expr_parser;
use dubgsl::syntax::expression::relational::relational_expr_parser;
use dubgsl::syntax::expression::shift::shift_expr_parser;
use dubgsl::syntax::expression::terminal::{terminal_expr_parser, ParenExpr};
use dubgsl::syntax::expression::unary::unary_expr_parser;
use dubgsl::syntax::name::{Name, NamePath};
use dubgsl::syntax::util::{
    bin_digit_parser, dec_digit_parser, hex_digit_parser, just, keyword, lowercase_parser,
    oct_digit_parser, terminal_semicolon_parser, uppercase_parser, whitespace_char_parser,
    whitespace_parser,
};

fn literal(text: &str) -> IntLiteralExpr<'_> {
    match IntLiteralExpr::parse(text) {
        Ok(lit) => lit,
        Err(e) => panic!("Failed to parse: {} - {:?}", text, e),
    }
}

#[test]
fn test_int_literal_tags() {
    let lit = literal("55");
    assert_eq!((lit.sign, lit.base, lit.ty, lit.value), (None, None, None, "55"));
    let lit = literal("0x30");
    assert_eq!(
        (lit.sign, lit.base, lit.ty, lit.value),
        (None, Some(IntLiteralExprBase::Hexadecimal), None, "30"),
    );
    let lit = literal("0b101");
    assert_eq!(
        (lit.sign, lit.base, lit.ty, lit.value),
        (None, Some(IntLiteralExprBase::Binary), None, "101"),
    );
    let lit = literal("0_1_0");
    assert_eq!((lit.sign, lit.base, lit.ty, lit.value), (None, None, None, "0_1_0"));
    let lit = literal("0o707");
    assert_eq!((lit.base, lit.value), (Some(IntLiteralExprBase::Octal), "707"));
    let lit = literal("0d19");
    assert_eq!((lit.base, lit.value), (Some(IntLiteralExprBase::Decimal), "19"));
    let lit = literal("0xDead_beef");
    assert_eq!((lit.base, lit.value), (Some(IntLiteralExprBase::Hexadecimal), "Dead_beef"));
}

#[test]
fn test_int_literal_sign_and_type() {
    let lit = literal("- 0b101110111");
    assert_eq!(lit.sign, Some(IntLiteralExprSign::Negative));
    assert_eq!(lit.value, "101110111");
    let lit = literal("  +\n7_u32");
    assert_eq!(lit.sign, Some(IntLiteralExprSign::Positive));
    assert_eq!(lit.ty, Some(IntLiteralExprType::U32));
    assert_eq!(lit.value, "7");
    let lit = literal("1_000_i32");
    assert_eq!(lit.ty, Some(IntLiteralExprType::I32));
    assert_eq!(lit.value, "1_000");
    let lit = literal("0x1f_u32");
    assert_eq!(lit.ty, Some(IntLiteralExprType::U32));
    assert_eq!(lit.value, "1f");
}

#[test]
fn test_int_literal_stops_where_digits_end() {
    // No digit of the base after the prefix: the literal is the zero alone.
    let (lit, end) = IntLiteralExpr::parser("0b2", 0).unwrap();
    assert_eq!((lit.base, lit.value, end), (None, "0", 1));
    let (lit, end) = IntLiteralExpr::parser("0o8", 0).unwrap();
    assert_eq!((lit.base, lit.value, end), (None, "0", 1));
    // An underscore that no digit follows is not part of the run.
    let (lit, end) = IntLiteralExpr::parser("12_", 0).unwrap();
    assert_eq!((lit.value, end), ("12", 2));
    let (lit, end) = IntLiteralExpr::parser("1__2", 0).unwrap();
    assert_eq!((lit.value, end), ("1", 1));
    let (lit, end) = IntLiteralExpr::parser("7_u64", 0).unwrap();
    assert_eq!((lit.ty, lit.value, end), (None, "7", 1));
    let (lit, end) = IntLiteralExpr::parser("x = 42;", 4).unwrap();
    assert_eq!((lit.value, end), ("42", 6));
    assert_eq!(IntLiteralExpr::digits_run_parser("1_2_3x", 0, IntLiteralExprBase::Decimal), Some(5));
    assert_eq!(IntLiteralExpr::digits_run_parser("_1", 0, IntLiteralExprBase::Decimal), None);
    assert_eq!(IntLiteralExpr::digits_run_parser("fF9g", 0, IntLiteralExprBase::Hexadecimal), Some(3));
}

#[test]
fn test_int_literal_errors() {
    assert_eq!(
        IntLiteralExpr::parse("").err(),
        Some(ParseError { position: 0, kind: ParseErrorKind::NoMatch }),
    );
    assert_eq!(
        IntLiteralExpr::parse(" 5").err(),
        Some(ParseError { position: 0, kind: ParseErrorKind::NoMatch }),
    );
    assert_eq!(
        IntLiteralExpr::parse("-x").err(),
        Some(ParseError { position: 0, kind: ParseErrorKind::NoMatch }),
    );
    assert_eq!(
        IntLiteralExpr::parse("5 ").err(),
        Some(ParseError { position: 1, kind: ParseErrorKind::TrailingInput }),
    );
    assert_eq!(
        IntLiteralExpr::parse("0x").err(),
        Some(ParseError { position: 1, kind: ParseErrorKind::TrailingInput }),
    );
}

#[test]
fn test_name_contents() {
    assert_eq!(Name::parse("_9bc_def"), Ok(Name { contents: "_9bc_def" }));
    assert_eq!(Name::parser("abc def", 0), Some((Name { contents: "abc" }, 3)));
    assert_eq!(Name::parser("abc def", 4), Some((Name { contents: "def" }, 7)));
    assert_eq!(Name::parser("abc def", 3), None);
    assert_eq!(Name::parser("abc", 3), None);
    assert_eq!(Name::parser("abc", 9), None);
    assert_eq!(Name::parser("a\u{e9}", 0), Some((Name { contents: "a" }, 1)));
    assert_eq!(
        Name::parse("9abc").err(),
        Some(ParseError { position: 0, kind: ParseErrorKind::NoMatch }),
    );
    assert_eq!(Name::parse("").err(), Some(ParseError { position: 0, kind: ParseErrorKind::NoMatch }));
    assert_eq!(
        Name::parse("ab-c").err(),
        Some(ParseError { position: 2, kind: ParseErrorKind::TrailingInput }),
    );
    assert_eq!(
        Name::parse("caf\u{e9}").err(),
        Some(ParseError { position: 3, kind: ParseErrorKind::TrailingInput }),
    );
}

#[test]
fn test_name_path_parts() {
    let path = NamePath::parse("std:: string\n::bang").unwrap();
    let parts: Vec<&str> = path.parts.iter().map(|p| p.contents).collect();
    assert_eq!(parts, vec!["std", "string", "bang"]);
    assert!(!path.is_single());
    assert!(NamePath::parse("hello").unwrap().is_single());
    // Whitespace after the last segment is not part of the path.
    let (path, end) = NamePath::parser("a :: b ;", 0).unwrap();
    assert_eq!(path.parts.len(), 2);
    assert_eq!(end, 6);
    // Nor is a `::` that no name follows.
    let (path, end) = NamePath::parser("a::", 0).unwrap();
    assert_eq!((path.parts.len(), end), (1, 1));
    assert_eq!(
        NamePath::parse("::a").err(),
        Some(ParseError { position: 0, kind: ParseErrorKind::NoMatch }),
    );
    assert_eq!(path.clone(), path);
}

#[test]
fn test_character_classes() {
    assert_eq!(whitespace_char_parser(" \t\n\rx", 0), Some(1));
    assert_eq!(whitespace_char_parser(" \t\n\rx", 3), Some(4));
    assert_eq!(whitespace_char_parser(" \t\n\rx", 4), None);
    assert_eq!(whitespace_char_parser("\u{b}", 0), None);
    assert_eq!(whitespace_parser(" \t\n\rx", 0), 4);
    assert_eq!(whitespace_parser("x", 0), 0);
    assert_eq!(whitespace_parser("  ", 2), 2);
    assert_eq!(whitespace_parser("  ", 7), 7);
    assert_eq!(lowercase_parser("aZ", 0), Some((b'a', 1)));
    assert_eq!(lowercase_parser("aZ", 1), None);
    assert_eq!(uppercase_parser("aZ", 1), Some((b'Z', 2)));
    assert_eq!(uppercase_parser("aZ", 0), None);
    assert_eq!(uppercase_parser("aZ", 2), None);
    assert_eq!(dec_digit_parser("9a", 0), Some((b'9', 1)));
    assert_eq!(dec_digit_parser("9a", 1), None);
    assert_eq!(bin_digit_parser("12", 0), Some((b'1', 1)));
    assert_eq!(bin_digit_parser("12", 1), None);
    assert_eq!(oct_digit_parser("78", 0), Some((b'7', 1)));
    assert_eq!(oct_digit_parser("78", 1), None);
    assert_eq!(hex_digit_parser("fFg", 0), Some((b'f', 1)));
    assert_eq!(hex_digit_parser("fFg", 1), Some((b'F', 2)));
    assert_eq!(hex_digit_parser("fFg", 2), None);
    assert_eq!(terminal_semicolon_parser(" \n; x", 0), Some(4));
    assert_eq!(terminal_semicolon_parser("x;", 0), None);
}

#[test]
fn test_keywords_end_at_a_word_boundary() {
    assert_eq!(keyword("import x", 0, "import"), Some(6));
    assert_eq!(keyword("import", 0, "import"), Some(6));
    assert_eq!(keyword("imports", 0, "import"), None);
    assert_eq!(keyword("import_", 0, "import"), None);
    assert_eq!(keyword("import9", 0, "import"), None);
    assert_eq!(keyword("import(", 0, "import"), Some(6));
    assert_eq!(keyword("impor", 0, "import"), None);
    assert_eq!(just("imports", 0, "import"), Some(6));
    assert_eq!(just("x::y", 1, "::"), Some(3));
    assert_eq!(just("x::y", 2, "::"), None);
    assert_eq!(just("x", 1, ""), Some(1));
    assert_eq!(just("x", 2, ""), None);
}

fn ends(r: Option<(Expression<'_>, usize)>) -> Option<usize> {
    r.map(|(_, end)| end)
}

#[test]
fn test_layers_stop_before_what_is_not_theirs() {
    let base = ExpressionGrammar::ShiftReduce;
    assert_eq!(ends(terminal_expr_parser(base, "a.b", 0)), Some(1));
    assert_eq!(ends(terminal_expr_parser(base, "a :: b.c", 0)), Some(6));
    assert_eq!(ends(terminal_expr_parser(base, " ( a + b ) .c", 0)), Some(11));
    assert_eq!(ends(primary_expr_parser(base, "a.b(c) + d", 0)), Some(7));
    assert_eq!(ends(primary_expr_parser(base, "a.4", 0)), Some(1));
    assert_eq!(ends(primary_expr_parser(base, "a.3", 0)), Some(3));
    assert_eq!(ends(unary_expr_parser(base, " - ! a * b", 0)), Some(6));
    assert_eq!(ends(unary_expr_parser(base, "- * b", 0)), None);
    assert_eq!(ends(mul_expr_parser(base, "a * b / c + d", 0)), Some(9));
    assert_eq!(ends(mul_expr_parser(base, "a * ", 0)), Some(1));
    assert_eq!(ends(add_expr_parser(base, "a * b + c - d << e", 0)), Some(13));
    assert_eq!(ends(shift_expr_parser(base, "a << b << c", 0)), Some(6));
    assert_eq!(ends(shift_expr_parser(base, "a << ", 0)), Some(1));
    assert_eq!(ends(relational_expr_parser(base, "a + 1 <= b * 2 == c", 0)), Some(14));
    assert_eq!(ends(relational_expr_parser(base, "a == b", 0)), Some(6));
    assert!(ParenExpr::parser(base, "( a + b )", 0).is_some());
    assert!(ParenExpr::parser(base, "( a + b", 0).is_none());
    assert!(ParenExpr::parser(base, "()", 0).is_none());
}

#[test]
fn test_bit_layer_takes_one_operator() {
    let base = ExpressionGrammar::Bit;
    let (e, end) = bit_expr_parser(base, "a & b & c | d", 0).unwrap();
    assert_eq!(end, 9);
    match e {
        Expression::Bit(outer) => {
            assert_eq!(outer.op, BitExprOp::And);
            assert!(matches!(*outer.lhs, Expression::Bit(_)));
            assert!(matches!(*outer.rhs, Expression::Name(_)));
        },
        other => panic!("Expected a bitwise expression, got {:?}", other),
    }
    assert_eq!(
        ExpressionGrammar::Bit.parse("a & b | c").err(),
        Some(ParseError { position: 5, kind: ParseErrorKind::TrailingInput }),
    );
    assert_eq!(ends(bit_expr_parser(base, "a ^ b ^", 0)), Some(5));
    assert_eq!(ends(bit_expr_parser(base, "a || b", 0)), Some(1));
}

#[test]
fn test_logical_layer_takes_one_operator() {
    let base = ExpressionGrammar::Logical;
    let (e, end) = logical_expr_parser(base, "a || b || c && d", 0).unwrap();
    assert_eq!(end, 11);
    match e {
        Expression::Logical(outer) => {
            assert_eq!(outer.op, LogicalExprOp::Or);
            assert!(matches!(*outer.lhs, Expression::Logical(_)));
        },
        other => panic!("Expected a logical expression, got {:?}", other),
    }
    assert_eq!(
        ExpressionGrammar::Logical.parse("a && b || c").err(),
        Some(ParseError { position: 6, kind: ParseErrorKind::TrailingInput }),
    );
    assert_eq!(
        ExpressionGrammar::Shift.parse("a << b << c").err(),
        Some(ParseError { position: 6, kind: ParseErrorKind::TrailingInput }),
    );
    assert_eq!(
        ExpressionGrammar::Relational.parse("a < b < c").err(),
        Some(ParseError { position: 5, kind: ParseErrorKind::TrailingInput }),
    );
}

fn layer(grammar: ExpressionGrammar, text: &str) -> Expression<'_> {
    match grammar.parse(text) {
        Ok(e) => e,
        Err(e) => panic!("Failed to parse: {} - {:?}", text, e),
    }
}

#[test]
fn test_layers_bind_in_order() {
    match layer(ExpressionGrammar::Bit, "a + b & c * d") {
        Expression::Bit(e) => {
            assert!(matches!(*e.lhs, Expression::Add(_)));
            assert!(matches!(*e.rhs, Expression::Mul(_)));
        },
        other => panic!("Expected a bitwise expression, got {:?}", other),
    }
    match layer(ExpressionGrammar::Shift, "a & b << c + d") {
        Expression::Shift(e) => {
            assert!(matches!(*e.lhs, Expression::Bit(_)));
            assert!(matches!(*e.rhs, Expression::Add(_)));
        },
        other => panic!("Expected a shift expression, got {:?}", other),
    }
    match layer(ExpressionGrammar::Relational, "a << b < c & d") {
        Expression::Relational(e) => {
            assert!(matches!(*e.lhs, Expression::Shift(_)));
            assert!(matches!(*e.rhs, Expression::Bit(_)));
        },
        other => panic!("Expected a comparison, got {:?}", other),
    }
    match layer(ExpressionGrammar::Logical, "a < b && c + d && e") {
        Expression::Logical(e) => {
            assert!(matches!(*e.rhs, Expression::Name(_)));
            match *e.lhs {
                Expression::Logical(inner) => {
                    assert!(matches!(*inner.lhs, Expression::Relational(_)));
                    assert!(matches!(*inner.rhs, Expression::Add(_)));
                },
                other => panic!("Expected a logical expression, got {:?}", other),
            }
        },
        other => panic!("Expected a logical expression, got {:?}", other),
    }
    match layer(ExpressionGrammar::Add, "a - b * c + d") {
        Expression::Add(e) => {
            assert!(matches!(*e.rhs, Expression::Name(_)));
            match *e.lhs {
                Expression::Add(inner) => assert!(matches!(*inner.rhs, Expression::Mul(_))),
                other => panic!("Expected an additive expression, got {:?}", other),
            }
        },
        other => panic!("Expected an additive expression, got {:?}", other),
    }
    // A layer does not read the operators of the layers above it.
    assert_eq!(
        ExpressionGrammar::Mul.parse("a + b").err(),
        Some(ParseError { position: 1, kind: ParseErrorKind::TrailingInput }),
    );
    assert_eq!(
        ExpressionGrammar::Add.parse("a & b").err(),
        Some(ParseError { position: 1, kind: ParseErrorKind::TrailingInput }),
    );
    assert_eq!(
        ExpressionGrammar::Bit.parse("a << b").err(),
        Some(ParseError { position: 1, kind: ParseErrorKind::TrailingInput }),
    );
    assert_eq!(
        ExpressionGrammar::Shift.parse("a < b").err(),
        Some(ParseError { position: 1, kind: ParseErrorKind::TrailingInput }),
    );
    assert_eq!(
        ExpressionGrammar::Relational.parse("a && b").err(),
        Some(ParseError { position: 1, kind: ParseErrorKind::TrailingInput }),
    );
    assert_eq!(
        ExpressionGrammar::Unary.parse("a * b").err(),
        Some(ParseError { position: 1, kind: ParseErrorKind::TrailingInput }),
    );
    assert_eq!(
        ExpressionGrammar::Primary.parse("-a").err(),
        Some(ParseError { position: 0, kind: ParseErrorKind::NoMatch }),
    );
    assert_eq!(
        ExpressionGrammar::Terminal.parse("a.b").err(),
        Some(ParseError { position: 1, kind: ParseErrorKind::TrailingInput }),
    );
    // In parentheses stands an expression of the same layer.
    assert!(ExpressionGrammar::Mul.parse("(a * b) * c").is_ok());
    assert!(ExpressionGrammar::Mul.parse("(a + b) * c").is_err());
    assert!(ExpressionGrammar::ShiftReduce.parse("(a + b) * c").is_ok());
}
