use dubgsl::syntax::expression::ExpressionGrammar;

fn test_terminal_expr_str(s: &str) {
    match ExpressionGrammar::Terminal.parse(s) {
        Ok(_) => {},
        Err(e) => panic!("Failed to parse: {} - {:?}", s, e),
    }
}

#[test]
fn test_terminal_exprs() {
    test_terminal_expr_str("hello");
    test_terminal_expr_str("55");
    test_terminal_expr_str(" (0x30  )");
    test_terminal_expr_str("
  (
      (  - 0b100000000001   )
        )");
}

fn test_primary_expr_str(s: &str) {
    match ExpressionGrammar::Primary.parse(s) {
        Ok(_) => {},
        Err(e) => panic!("Failed to parse: {} - {:?}", s, e),
    }
}

#[test]
fn test_primary_exprs() {
    test_primary_expr_str("hello.there");
    test_primary_expr_str("rgb.0");
    test_primary_expr_str("blend(rgb.0, rgb.1)");
}

fn test_unary_expr_str(s: &str) {
    match ExpressionGrammar::Unary.parse(s) {
        Ok(_) => {},
        Err(e) => panic!("Failed to parse: {} - {:?}", s, e),
    }
}

#[test]
fn test_unary_exprs() {
    test_unary_expr_str("-hello.there");
    test_unary_expr_str("!rgb.0(+1, ~2, 3)");
}

fn test_bit_expr_str(s: &str) {
    match ExpressionGrammar::Bit.parse(s) {
        Ok(_) => {},
        Err(e) => panic!("Failed to parse: {} - {:?}", s, e),
    }
}

#[test]
fn test_bit_exprs() {
    test_bit_expr_str("4|9");
    test_bit_expr_str("-foo.bar & !33");
    test_bit_expr_str("-foo.bar & !33 & bix(0x1, 0xb1 ^ 99)");
    test_bit_expr_str("-foo.bar & (1 ^ -0b0 ^ zang(-33, ~55) ^ +99) & 55 & 55 & 55");
}

fn test_mul_expr_str(s: &str) {
    match ExpressionGrammar::Mul.parse(s) {
        Ok(_) => {},
        Err(e) => panic!("Failed to parse: {} - {:?}", s, e),
    }
}

#[test]
fn test_mul_exprs() {
    test_mul_expr_str("3 * 9");
    test_mul_expr_str("3 / 5 * 9");
    test_mul_expr_str("foo(bang) / bang(bar * 9, 5 / 3 % 2) * -33.bang % 9 * 5 / -0x3");
    test_mul_expr_str("-foo.bar * (1 / -0b0 * zang(-33, ~55) % +99) % 55 % 55 * 55");
}

fn test_add_expr_str(s: &str) {
    match ExpressionGrammar::Add.parse(s) {
        Ok(_) => {},
        Err(e) => panic!("Failed to parse: {} - {:?}", s, e),
    }
}

#[test]
fn test_add_exprs() {
    test_add_expr_str("3 * 9 + foo(x) - -2");
    test_add_expr_str("-22 + 3 / 5 * 9");
    test_add_expr_str("-0x3 - foo(bang - 4 + 5 + -0x33) / bang(bar * 9 + 0x9, 2 + 5 / 3 + 9 % 2) * -33.bang % 9 * 5 / -0x3 + 55");
}

fn test_shift_expr_str(s: &str) {
    match ExpressionGrammar::Shift.parse(s) {
        Ok(res) => {
            println!("SHIFT-EXPR: {:?}", res);
        },
        Err(e) => panic!("Failed to parse: {} - {:?}", s, e),
    }
}

#[test]
fn test_shift_exprs() {
    test_shift_expr_str("foo << bar");
    test_shift_expr_str("foo >> bar");
    test_shift_expr_str("foo >> !bar");
    test_shift_expr_str("~foo >> bar(bang << 3)");
}

fn test_relational_expr_str(s: &str) {
    match ExpressionGrammar::Relational.parse(s) {
        Ok(_) => {},
        Err(e) => panic!("Failed to parse: {} - {:?}", s, e),
    }
}

#[test]
fn test_relational_exprs() {
    test_relational_expr_str("foo <= bar");
    test_relational_expr_str("bang + 9 == bax(car > +cdr.this)")
}

fn test_logical_expr_str(s: &str) {
    match ExpressionGrammar::Logical.parse(s) {
        Ok(_) => {},
        Err(e) => panic!("Failed to parse: {} - {:?}", s, e),
    }
}

#[test]
fn test_logical_exprs() {
    test_logical_expr_str("foo <= bar && bang == 9*3 + 2 && fox(33 || -44) != 9");
    test_logical_expr_str("foo <= bar || (bang && 33 && car.bar) == 9*3 + 2 || fox(33 && -44) != 9");
}
