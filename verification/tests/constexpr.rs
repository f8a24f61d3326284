use shin_asm::compile::constexpr::{
    constexpr_evaluate, evaluate, names_resolved, try_constexpr_evaluate, type_mismatch,
    ConstexprContext, ConstexprContextValue, ConstexprValue, LowerError,
};
use shin_asm::compile::diagnostics::{Diagnostic, Location, Span};
use shin_asm::compile::hir::{
    BinaryOp, Expr, ExprId, HirBlockBody, Literal, Rational, UnaryOp,
};
use shin_asm::format::instructions::Register;

fn number(block: &mut HirBlockBody, value: i32) -> ExprId {
    block.alloc_expr(Expr::Literal(Literal::IntNumber(value))).unwrap()
}

fn binary(block: &mut HirBlockBody, lhs: ExprId, op: BinaryOp, rhs: ExprId) -> ExprId {
    block.alloc_expr(Expr::BinaryOp { lhs, rhs, op: Some(op) }).unwrap()
}

fn unary(block: &mut HirBlockBody, op: UnaryOp, expr: ExprId) -> ExprId {
    block.alloc_expr(Expr::UnaryOp { expr, op }).unwrap()
}

#[test]
fn sum_and_product_of_literals() {
    let mut block = HirBlockBody::new();
    let two = number(&mut block, 2);
    let three = number(&mut block, 3);
    let four = number(&mut block, 4);
    let product = binary(&mut block, three, BinaryOp::Multiply, four);
    let sum = binary(&mut block, two, BinaryOp::Add, product);
    let context = ConstexprContext::new();
    let (value, diagnostics) = constexpr_evaluate(&context, &block, sum);
    assert_eq!(value, Ok(ConstexprValue::constant(14)));
    assert!(diagnostics.is_empty());
}

#[test]
fn register_in_constant() {
    let mut block = HirBlockBody::new();
    let register = block.alloc_expr(Expr::RegisterRef(Register::Regular(1))).unwrap();
    let one = number(&mut block, 1);
    let sum = binary(&mut block, register, BinaryOp::Add, one);
    let context = ConstexprContext::new();
    let (value, diagnostics) = constexpr_evaluate(&context, &block, sum);
    assert_eq!(value, Err(LowerError));
    assert_eq!(diagnostics.len(), 1);
    assert_eq!(diagnostics[0].message, "Registers cannot be used in const context");
    assert_eq!(diagnostics[0].location, Location::Expr(register));
}

#[test]
fn name_of_code_block() {
    let mut block = HirBlockBody::new();
    let name = block.alloc_expr(Expr::NameRef("FOO".to_string())).unwrap();
    let one = number(&mut block, 1);
    let sum = binary(&mut block, name, BinaryOp::Add, one);
    let mut context = ConstexprContext::new();
    let span = Span::new(10, 13);
    assert!(context.insert("FOO".to_string(), ConstexprContextValue::Block(span)).is_none());
    let (value, diagnostics) = constexpr_evaluate(&context, &block, sum);
    assert_eq!(value, Err(LowerError));
    assert_eq!(diagnostics.len(), 1);
    assert_eq!(
        diagnostics[0].message,
        "Type mismatch: expected int or float, found code reference"
    );
    assert_eq!(diagnostics[0].additional_labels.len(), 1);
    assert_eq!(diagnostics[0].additional_labels[0].location, Location::Span(span));
    assert_eq!(diagnostics[0].additional_labels[0].message, "Code reference defined at");
}

#[test]
fn division_by_zero() {
    let mut block = HirBlockBody::new();
    let ten = number(&mut block, 10);
    let zero = number(&mut block, 0);
    let quotient = binary(&mut block, ten, BinaryOp::Divide, zero);
    let context = ConstexprContext::new();
    let (value, diagnostics) = constexpr_evaluate(&context, &block, quotient);
    assert_eq!(value, Err(LowerError));
    assert_eq!(diagnostics.len(), 1);
    assert_eq!(diagnostics[0].message, "Division by zero");
    assert_eq!(diagnostics[0].location, Location::Expr(quotient));
}

#[test]
fn negation_of_least_number() {
    let mut block = HirBlockBody::new();
    let least = number(&mut block, i32::MIN);
    let negated = unary(&mut block, UnaryOp::Negate, least);
    let context = ConstexprContext::new();
    let (value, diagnostics) = constexpr_evaluate(&context, &block, negated);
    assert_eq!(value, Err(LowerError));
    assert_eq!(diagnostics.len(), 1);
    assert_eq!(diagnostics[0].message, "Overflow in constant expression");
}

fn evaluate_binary(lhs: i32, op: BinaryOp, rhs: i32) -> (Result<ConstexprValue, LowerError>, Vec<String>) {
    let mut block = HirBlockBody::new();
    let left = number(&mut block, lhs);
    let right = number(&mut block, rhs);
    let whole = binary(&mut block, left, op, right);
    let context = ConstexprContext::new();
    let (value, diagnostics) = constexpr_evaluate(&context, &block, whole);
    (value, diagnostics.iter().map(|d| d.message()).collect())
}

fn evaluate_unary(op: UnaryOp, operand: i32) -> (Result<ConstexprValue, LowerError>, Vec<String>) {
    let mut block = HirBlockBody::new();
    let inner = number(&mut block, operand);
    let whole = unary(&mut block, op, inner);
    let context = ConstexprContext::new();
    let (value, diagnostics) = constexpr_evaluate(&context, &block, whole);
    (value, diagnostics.iter().map(|d| d.message()).collect())
}

#[test]
fn addition_matches_checked_addition() {
    let cases = [(1, 2), (i32::MAX, 0), (i32::MAX, 1), (i32::MIN, -1), (-5, 5), (i32::MIN, i32::MAX)];
    for (a, b) in cases {
        let (value, messages) = evaluate_binary(a, BinaryOp::Add, b);
        match a.checked_add(b) {
            Some(sum) => {
                assert_eq!(value, Ok(ConstexprValue::constant(sum)));
                assert!(messages.is_empty());
            }
            None => {
                assert_eq!(value, Err(LowerError));
                assert_eq!(messages, vec!["Overflow in constant expression".to_string()]);
            }
        }
    }
}

#[test]
fn subtraction_and_multiplication() {
    assert_eq!(evaluate_binary(3, BinaryOp::Subtract, 10).0, Ok(ConstexprValue::constant(-7)));
    assert_eq!(evaluate_binary(i32::MIN, BinaryOp::Subtract, 1).0, Err(LowerError));
    assert_eq!(evaluate_binary(-6, BinaryOp::Multiply, 7).0, Ok(ConstexprValue::constant(-42)));
    assert_eq!(evaluate_binary(65536, BinaryOp::Multiply, 32768).0, Err(LowerError));
}

#[test]
fn least_number_times_minus_one_overflows() {
    let (value, messages) = evaluate_binary(i32::MIN, BinaryOp::Multiply, -1);
    assert_eq!(value, Err(LowerError));
    assert_eq!(messages, vec!["Overflow in constant expression".to_string()]);
}

#[test]
fn division_rounds_towards_zero() {
    assert_eq!(evaluate_binary(7, BinaryOp::Divide, 2).0, Ok(ConstexprValue::constant(3)));
    assert_eq!(evaluate_binary(-7, BinaryOp::Divide, 2).0, Ok(ConstexprValue::constant(-3)));
    assert_eq!(evaluate_binary(7, BinaryOp::Divide, -2).0, Ok(ConstexprValue::constant(-3)));
    assert_eq!(evaluate_binary(-7, BinaryOp::Divide, -2).0, Ok(ConstexprValue::constant(3)));
    assert_eq!(evaluate_binary(0, BinaryOp::Divide, -2).0, Ok(ConstexprValue::constant(0)));
}

#[test]
fn division_of_least_number_by_minus_one_overflows() {
    let (value, messages) = evaluate_binary(i32::MIN, BinaryOp::Divide, -1);
    assert_eq!(value, Err(LowerError));
    assert_eq!(messages, vec!["Overflow in constant expression".to_string()]);
}

#[test]
fn division_by_zero_for_any_dividend() {
    for dividend in [0, 1, -1, i32::MIN, i32::MAX] {
        let (value, messages) = evaluate_binary(dividend, BinaryOp::Divide, 0);
        assert_eq!(value, Err(LowerError));
        assert_eq!(messages, vec!["Division by zero".to_string()]);
    }
}

#[test]
fn unsupported_operators_are_reported() {
    for op in [
        BinaryOp::Modulo,
        BinaryOp::BitwiseAnd,
        BinaryOp::BitwiseOr,
        BinaryOp::BitwiseXor,
        BinaryOp::ShiftLeft,
        BinaryOp::ShiftRight,
        BinaryOp::Equals,
        BinaryOp::NotEquals,
        BinaryOp::Less,
        BinaryOp::LessOrEqual,
        BinaryOp::Greater,
        BinaryOp::GreaterOrEqual,
        BinaryOp::LogicalAnd,
        BinaryOp::LogicalOr,
    ] {
        let (value, messages) = evaluate_binary(1, op, 2);
        assert_eq!(value, Err(LowerError));
        assert_eq!(messages, vec!["Operator is not supported in const context".to_string()]);
    }
}

#[test]
fn unary_operations() {
    assert_eq!(evaluate_unary(UnaryOp::Negate, 5).0, Ok(ConstexprValue::constant(-5)));
    assert_eq!(evaluate_unary(UnaryOp::Negate, i32::MAX).0, Ok(ConstexprValue::constant(-i32::MAX)));
    assert_eq!(evaluate_unary(UnaryOp::LogicalNot, 0).0, Ok(ConstexprValue::constant(1)));
    assert_eq!(evaluate_unary(UnaryOp::LogicalNot, 7).0, Ok(ConstexprValue::constant(0)));
    assert_eq!(evaluate_unary(UnaryOp::LogicalNot, -1).0, Ok(ConstexprValue::constant(0)));
    assert_eq!(evaluate_unary(UnaryOp::BitwiseNot, 0).0, Ok(ConstexprValue::constant(-1)));
    assert_eq!(evaluate_unary(UnaryOp::BitwiseNot, 5).0, Ok(ConstexprValue::constant(-6)));
    assert_eq!(
        evaluate_unary(UnaryOp::BitwiseNot, i32::MIN).0,
        Ok(ConstexprValue::constant(i32::MAX))
    );
}

#[test]
fn constant_and_value_are_inverse() {
    for value in [0, 1, -1, i32::MIN, i32::MAX] {
        assert_eq!(ConstexprValue::constant(value).value(), value);
    }
    assert_eq!(ConstexprValue::constant(3), ConstexprValue::constant(3));
    assert_ne!(ConstexprValue::constant(3), ConstexprValue::constant(4));
}

#[test]
fn rational_literal_is_its_raw_number() {
    let mut block = HirBlockBody::new();
    let literal =
        block.alloc_expr(Expr::Literal(Literal::RationalNumber(Rational::from_raw(1500)))).unwrap();
    let context = ConstexprContext::new();
    let (value, diagnostics) = constexpr_evaluate(&context, &block, literal);
    assert_eq!(value, Ok(ConstexprValue::constant(1500)));
    assert!(diagnostics.is_empty());
}

fn rejected(expr: Expr) -> Vec<String> {
    let mut block = HirBlockBody::new();
    let zero = number(&mut block, 0);
    let zero_too = number(&mut block, 0);
    assert_eq!((zero, zero_too), (ExprId(0), ExprId(1)));
    let id = block.alloc_expr(expr).unwrap();
    let context = ConstexprContext::new();
    let (value, diagnostics) = constexpr_evaluate(&context, &block, id);
    assert_eq!(value, Err(LowerError));
    for diagnostic in &diagnostics {
        assert_eq!(diagnostic.location, Location::Expr(id));
        assert!(diagnostic.additional_labels.is_empty());
    }
    diagnostics.iter().map(|d| d.message()).collect()
}

#[test]
fn string_array_and_mapping_are_type_mismatches() {
    assert_eq!(
        rejected(Expr::Literal(Literal::String("text".to_string()))),
        vec!["Type mismatch: expected int or float, found string".to_string()]
    );
    assert_eq!(
        rejected(Expr::Array(vec![ExprId(0), ExprId(1)])),
        vec!["Type mismatch: expected int or float, found array".to_string()]
    );
    assert_eq!(
        rejected(Expr::Mapping(vec![(1, ExprId(0))])),
        vec!["Type mismatch: expected int or float, found mapping".to_string()]
    );
}

#[test]
fn calls_and_registers_are_refused() {
    assert_eq!(
        rejected(Expr::Call { target: "f".to_string(), args: vec![ExprId(0)] }),
        vec!["Calls are not supported in const context".to_string()]
    );
    assert_eq!(
        rejected(Expr::RegisterRef(Register::Argument(0))),
        vec!["Registers cannot be used in const context".to_string()]
    );
}

#[test]
fn missing_parts_fail_without_a_report() {
    assert!(rejected(Expr::Missing).is_empty());
    assert!(rejected(Expr::BinaryOp { lhs: ExprId(0), rhs: ExprId(1), op: None }).is_empty());
}

#[test]
fn type_mismatch_names_both_kinds() {
    let diagnostic = type_mismatch(Location::Span(Span::new(1, 2)), "register", "label");
    assert_eq!(diagnostic.message, "Type mismatch: expected register, found label");
    assert_eq!(diagnostic.location, Location::Span(Span::new(1, 2)));
    assert!(diagnostic.additional_labels.is_empty());
}

#[test]
fn names_stand_for_their_values() {
    let mut block = HirBlockBody::new();
    let name = block.alloc_expr(Expr::NameRef("WIDTH".to_string())).unwrap();
    let two = number(&mut block, 2);
    let product = binary(&mut block, name, BinaryOp::Multiply, two);
    let mut context = ConstexprContext::new();
    context.insert(
        "WIDTH".to_string(),
        ConstexprContextValue::Value(Ok(ConstexprValue::constant(1920)), Some(Span::new(0, 5))),
    );
    let (value, diagnostics) = constexpr_evaluate(&context, &block, product);
    assert_eq!(value, Ok(ConstexprValue::constant(3840)));
    assert!(diagnostics.is_empty());
}

#[test]
fn failure_of_a_name_is_passed_on_without_a_report() {
    let mut block = HirBlockBody::new();
    let name = block.alloc_expr(Expr::NameRef("BROKEN".to_string())).unwrap();
    let mut context = ConstexprContext::new();
    context.insert("BROKEN".to_string(), ConstexprContextValue::Value(Err(LowerError), None));
    let (value, diagnostics) = constexpr_evaluate(&context, &block, name);
    assert_eq!(value, Err(LowerError));
    assert!(diagnostics.is_empty());
}

#[test]
fn context_keeps_the_last_binding_of_a_name() {
    let mut context = ConstexprContext::new();
    assert_eq!(context.get("A"), None);
    let first = ConstexprContextValue::Value(Ok(ConstexprValue::constant(1)), None);
    let second = ConstexprContextValue::Block(Span::new(3, 4));
    assert_eq!(context.insert("A".to_string(), first), None);
    assert_eq!(context.get("A"), Some(first));
    assert_eq!(context.insert("A".to_string(), second), Some(first));
    assert_eq!(context.get("A"), Some(second));
    assert_eq!(context.get("B"), None);
    assert_eq!(context.get("a"), None);
}

#[test]
fn both_operands_report_left_first() {
    let mut block = HirBlockBody::new();
    let left = block.alloc_expr(Expr::Literal(Literal::String("l".to_string()))).unwrap();
    let right = block.alloc_expr(Expr::RegisterRef(Register::Regular(0))).unwrap();
    let sum = binary(&mut block, left, BinaryOp::Add, right);
    let context = ConstexprContext::new();
    let (value, diagnostics) = constexpr_evaluate(&context, &block, sum);
    assert_eq!(value, Err(LowerError));
    assert_eq!(diagnostics.len(), 2);
    assert_eq!(diagnostics[0].location, Location::Expr(left));
    assert_eq!(diagnostics[0].message, "Type mismatch: expected int or float, found string");
    assert_eq!(diagnostics[1].location, Location::Expr(right));
    assert_eq!(diagnostics[1].message, "Registers cannot be used in const context");
}

#[test]
fn evaluate_appends_to_the_sink() {
    let mut block = HirBlockBody::new();
    let register = block.alloc_expr(Expr::RegisterRef(Register::Regular(3))).unwrap();
    let context = ConstexprContext::new();
    let earlier = Diagnostic::new(Location::Span(Span::new(0, 1)), "earlier".to_string());
    let mut sink = vec![earlier.clone()];
    assert_eq!(evaluate(&context, &mut sink, &block, register), Err(LowerError));
    assert_eq!(sink.len(), 2);
    assert_eq!(sink[0], earlier);
    assert_eq!(sink[1].message, "Registers cannot be used in const context");
}

#[test]
fn unbound_names_are_found_before_evaluation() {
    let mut block = HirBlockBody::new();
    let name = block.alloc_expr(Expr::NameRef("NOWHERE".to_string())).unwrap();
    let one = number(&mut block, 1);
    let sum = binary(&mut block, one, BinaryOp::Add, name);
    let mut context = ConstexprContext::new();
    assert!(!names_resolved(&context, &block, sum));
    assert!(names_resolved(&context, &block, one));
    assert!(try_constexpr_evaluate(&context, &block, sum).is_none());
    assert!(try_constexpr_evaluate(&context, &block, ExprId(17)).is_none());
    context.insert(
        "NOWHERE".to_string(),
        ConstexprContextValue::Value(Ok(ConstexprValue::constant(41)), None),
    );
    assert!(names_resolved(&context, &block, sum));
    let (value, diagnostics) = try_constexpr_evaluate(&context, &block, sum).unwrap();
    assert_eq!(value, Ok(ConstexprValue::constant(42)));
    assert!(diagnostics.is_empty());
}

#[test]
fn negation_twice_of_least_number() {
    let mut block = HirBlockBody::new();
    let positive = number(&mut block, i32::MAX);
    let negative = unary(&mut block, UnaryOp::Negate, positive);
    let one = number(&mut block, 1);
    let least = binary(&mut block, negative, BinaryOp::Subtract, one);
    let again = unary(&mut block, UnaryOp::Negate, least);
    let context = ConstexprContext::new();
    let (value, _) = constexpr_evaluate(&context, &block, least);
    assert_eq!(value, Ok(ConstexprValue::constant(i32::MIN)));
    let (value, diagnostics) = constexpr_evaluate(&context, &block, again);
    assert_eq!(value, Err(LowerError));
    assert_eq!(diagnostics.len(), 1);
    assert_eq!(diagnostics[0].message, "Overflow in constant expression");
    assert_eq!(diagnostics[0].location, Location::Expr(again));
}
