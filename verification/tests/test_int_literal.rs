use dubgsl::syntax::expression::IntLiteralExpr;

fn check_int_literal(text: &'static str) {
    match IntLiteralExpr::parse(text) {
        Ok(_) => {},
        Err(e) => panic!("Failed to parse: {} - {:?}", text, e),
    }
}

#[test]
fn test_int_literals() {
    check_int_literal("55");
    check_int_literal("0x30");
    check_int_literal("- 0b101110111");
    check_int_literal("0_1_0");
    check_int_literal("+ 0o707");
    check_int_literal("-
3309");
}
