use hulk::ast::{
    Assignment, Atom, Block, Expression, ExpressionList, For, FunctionCall, FunctionDef,
    FunctionParams, IfElse, LetIn, Program, While,
};
use hulk::semantic_type_checker::{rejects_operands, type_name_text, type_of_class, SemanticTypeChecker};
use hulk::tokens::{
    BinOp, GroupingOperator, Identifier, Keyword, OperatorClass, Position, UnaryOperator,
};
use hulk::types::Type;
use hulk::visitor::Visitable;

fn at(start: usize) -> Position {
    Position::new(start, start + 1)
}

fn num(text: &str) -> Expression {
    Expression::new_atom(Atom::new_number_literal(0, 0, text).unwrap())
}

fn boolean(text: &str) -> Expression {
    Expression::new_atom(Atom::new_boolean_literal(0, 0, text).unwrap())
}

fn text(value: &str) -> Expression {
    Expression::new_atom(Atom::new_string_literal(0, 0, value))
}

fn var_at(name: &str, start: usize) -> Expression {
    Expression::new_atom(Atom::new_identifier(start, start + name.len(), name))
}

fn var(name: &str) -> Expression {
    var_at(name, 0)
}

fn group(e: Expression) -> Expression {
    Expression::new_atom(Atom::new_group(e))
}

fn program(expressions: Vec<Expression>) -> Program {
    Program::new(ExpressionList::new(expressions))
}

fn block(expressions: Vec<Expression>) -> Expression {
    Expression::new_block(Block::new(
        GroupingOperator::OpenBrace,
        ExpressionList::new(expressions),
        GroupingOperator::CloseBrace,
    ))
}

fn let_in(name: &str, value: Expression, body: Expression) -> Expression {
    let binding = Assignment::new(Atom::new_identifier(0, 0, name), BinOp::Assign(at(0)), value);
    Expression::new_letin(LetIn::new(Keyword::Let(at(0)), vec![binding], Keyword::In(at(0)), body))
}

fn diagnostics(source: &str, p: &Program) -> Vec<String> {
    let mut checker = SemanticTypeChecker::new(source.to_string());
    checker.check(p);
    assert_eq!(checker.symbol_table.depth(), 1);
    checker.errors
}

fn type_of(e: &Expression) -> (Type, Vec<String>) {
    let mut checker = SemanticTypeChecker::new(String::new());
    let t = checker.infer_expr_type(e);
    (t, checker.errors)
}

fn is(t: &Type, wanted: &Type) -> bool {
    t.same(wanted)
}

#[test]
fn arithmetic_without_variables_has_no_diagnostics() {
    let e = Expression::new_binary_op(
        group(Expression::new_binary_op(num("1"), num("2"), BinOp::Plus(at(0)))),
        Expression::new_unary_op(UnaryOperator::Minus(at(0)), num("3")),
        BinOp::Mul(at(0)),
    );
    let p = program(vec![
        e,
        Expression::new_binary_op(num("7"), num("2"), BinOp::Mod(at(0))),
        Expression::new_binary_op(num("7"), num("2"), BinOp::Div(at(0))),
        Expression::new_binary_op(num("7"), num("2"), BinOp::Minus(at(0))),
    ]);
    assert_eq!(diagnostics("(1 + 2) * -3", &p), Vec::<String>::new());
}

#[test]
fn each_unresolved_reference_is_reported_once() {
    let source = "x + 1\ny\nx";
    let p = program(vec![
        Expression::new_binary_op(var_at("x", 0), num("1"), BinOp::Plus(at(2))),
        var_at("y", 6),
        var_at("x", 8),
    ]);
    assert_eq!(
        diagnostics(source, &p),
        vec![
            "Línea 1: Variable 'x' no declarada",
            "Línea 1: Operación aritmética requiere números",
            "Línea 2: Variable 'y' no declarada",
            "Línea 3: Variable 'x' no declarada",
        ]
    );
}

#[test]
fn bound_variable_is_not_reported() {
    let p = program(vec![let_in(
        "x",
        num("3"),
        Expression::new_binary_op(var("x"), num("4"), BinOp::Plus(at(0))),
    )]);
    assert_eq!(diagnostics("let x = 3 in x + 4", &p), Vec::<String>::new());
}

#[test]
fn later_binding_sees_earlier_one() {
    let first = Assignment::new(Atom::new_identifier(0, 0, "a"), BinOp::Assign(at(0)), num("1"));
    let second = Assignment::new(
        Atom::new_identifier(0, 0, "b"),
        BinOp::Assign(at(0)),
        Expression::new_binary_op(var("a"), num("1"), BinOp::Plus(at(0))),
    );
    let l = Expression::new_letin(LetIn::new(
        Keyword::Let(at(0)),
        vec![first, second],
        Keyword::In(at(0)),
        Expression::new_binary_op(var("a"), var("b"), BinOp::Mul(at(0))),
    ));
    assert_eq!(diagnostics("", &program(vec![l])), Vec::<String>::new());
}

#[test]
fn binding_ends_with_its_let() {
    let p = program(vec![let_in("x", num("3"), var("x")), var_at("x", 0)]);
    assert_eq!(diagnostics("x", &p), vec!["Línea 1: Variable 'x' no declarada"]);
}

#[test]
fn scope_depth_returns_after_every_scoped_node() {
    let body = block(vec![let_in("y", num("1"), var("y"))]);
    let f = Expression::new_for(For::new(
        Keyword::For(at(0)),
        var("i"),
        Keyword::In(at(0)),
        Expression::new_range(num("0"), num("3")),
        body,
    ));
    let def = Expression::new_function_def(FunctionDef::new(
        Keyword::Function(at(0)),
        Identifier::new(0, 0, "f"),
        vec![FunctionParams::new(Identifier::new(0, 0, "n"), "Number".to_string())],
        Box::new(var("n")),
        true,
    ));
    let mut checker = SemanticTypeChecker::new(String::new());
    checker.symbol_table.enter_scope();
    assert_eq!(checker.symbol_table.depth(), 2);
    let _ = checker.infer_expr_type(&f);
    assert_eq!(checker.symbol_table.depth(), 2);
    let _ = checker.infer_expr_type(&def);
    assert_eq!(checker.symbol_table.depth(), 2);
    assert_eq!(checker.errors, Vec::<String>::new());
}

#[test]
fn arithmetic_violation_still_has_type_number() {
    let e = Expression::new_binary_op(text("a"), num("1"), BinOp::Plus(at(0)));
    let (t, errors) = type_of(&e);
    assert!(is(&t, &Type::Number));
    assert_eq!(errors, vec!["Línea 1: Operación aritmética requiere números"]);
}

#[test]
fn comparison_needs_equal_operand_types() {
    let good = Expression::new_binary_op(text("a"), text("b"), BinOp::EqualEqual(at(0)));
    let (t, errors) = type_of(&good);
    assert!(is(&t, &Type::Boolean));
    assert_eq!(errors, Vec::<String>::new());
    let bad = Expression::new_binary_op(text("a"), num("1"), BinOp::Less(at(0)));
    let (t, errors) = type_of(&bad);
    assert!(is(&t, &Type::Boolean));
    assert_eq!(errors, vec!["Línea 1: Comparación entre tipos incompatibles"]);
}

#[test]
fn logical_operators_need_booleans() {
    let good = Expression::new_binary_op(boolean("true"), boolean("false"), BinOp::OrOr(at(0)));
    let (t, errors) = type_of(&good);
    assert!(is(&t, &Type::Boolean));
    assert_eq!(errors, Vec::<String>::new());
    let bad = Expression::new_binary_op(num("1"), boolean("false"), BinOp::AndAnd(at(0)));
    let (t, errors) = type_of(&bad);
    assert!(is(&t, &Type::Boolean));
    assert_eq!(errors, vec!["Línea 1: Operador lógico requiere booleanos"]);
}

#[test]
fn concatenation_takes_strings_and_numbers() {
    let good = Expression::new_binary_op(text("a"), num("1"), BinOp::ConcatString(at(0)));
    let (t, errors) = type_of(&good);
    assert!(is(&t, &Type::String));
    assert_eq!(errors, Vec::<String>::new());
    let bad = Expression::new_binary_op(text("a"), boolean("true"), BinOp::ConcatString(at(0)));
    let (t, errors) = type_of(&bad);
    assert!(is(&t, &Type::String));
    assert_eq!(errors, vec!["Línea 1: Concatenación requiere string o número"]);
}

#[test]
fn operand_rules_by_class() {
    let n = Type::Number;
    let b = Type::Boolean;
    let s = Type::String;
    assert!(!rejects_operands(OperatorClass::Arithmetic, &n, &n));
    assert!(rejects_operands(OperatorClass::Arithmetic, &n, &s));
    assert!(!rejects_operands(OperatorClass::Comparison, &s, &s));
    assert!(rejects_operands(OperatorClass::Comparison, &s, &n));
    assert!(!rejects_operands(
        OperatorClass::Comparison,
        &Type::Custom("A".to_string()),
        &Type::Custom("A".to_string())
    ));
    assert!(rejects_operands(
        OperatorClass::Comparison,
        &Type::Custom("A".to_string()),
        &Type::Custom("B".to_string())
    ));
    assert!(!rejects_operands(OperatorClass::Logical, &b, &b));
    assert!(rejects_operands(OperatorClass::Logical, &b, &n));
    assert!(!rejects_operands(OperatorClass::Concatenation, &n, &s));
    assert!(rejects_operands(OperatorClass::Concatenation, &b, &s));
    assert!(!rejects_operands(OperatorClass::Assignment, &b, &s));
    assert!(is(&type_of_class(OperatorClass::Arithmetic), &n));
    assert!(is(&type_of_class(OperatorClass::Comparison), &b));
    assert!(is(&type_of_class(OperatorClass::Logical), &b));
    assert!(is(&type_of_class(OperatorClass::Concatenation), &s));
    assert!(is(&type_of_class(OperatorClass::Assignment), &Type::Unknown));
}

#[test]
fn unary_operators_check_their_operand() {
    let (t, errors) = type_of(&Expression::new_unary_op(UnaryOperator::Minus(at(0)), text("a")));
    assert!(is(&t, &Type::Number));
    assert_eq!(errors, vec!["Línea 1: Operación aritmética requiere números"]);
    let (t, errors) = type_of(&Expression::new_unary_op(UnaryOperator::Not(at(0)), num("1")));
    assert!(is(&t, &Type::Boolean));
    assert_eq!(errors, vec!["Línea 1: Operador lógico requiere booleanos"]);
    let (t, errors) =
        type_of(&Expression::new_unary_op(UnaryOperator::Not(at(0)), boolean("true")));
    assert!(is(&t, &Type::Boolean));
    assert_eq!(errors, Vec::<String>::new());
}

#[test]
fn if_condition_must_be_boolean() {
    let cond = Expression::new_binary_op(num("1"), num("1"), BinOp::EqualEqual(at(3)));
    let good = Expression::new_ifelse(IfElse::new(
        Keyword::If(at(0)),
        cond,
        num("10"),
        vec![],
        Some(Keyword::Else(at(0))),
        Some(num("20")),
    ));
    assert_eq!(diagnostics("if 1 == 1 then 10 else 20", &program(vec![good])), Vec::<String>::new());
    let bad = Expression::new_ifelse(IfElse::new(
        Keyword::If(at(0)),
        Expression::new_binary_op(num("1"), num("1"), BinOp::Plus(at(5))),
        num("10"),
        vec![(Keyword::Elif(at(0)), num("2"), num("3"))],
        None,
        None,
    ));
    assert_eq!(
        diagnostics("if\n1 + 1", &program(vec![bad])),
        vec![
            "Línea 2: Condición de if debe ser booleana",
            "Condición de elif debe ser booleana",
        ]
    );
}

#[test]
fn while_condition_must_be_boolean() {
    let w = Expression::new_while(While::new(Keyword::While(at(0)), num("1"), num("2")));
    assert_eq!(diagnostics("", &program(vec![w])), vec!["Condición de while debe ser booleana"]);
}

#[test]
fn for_variable_is_bound_only_inside_the_loop() {
    let body = block(vec![Expression::new_print(var("i"), at(0))]);
    let f = Expression::new_for(For::new(
        Keyword::For(at(0)),
        var("i"),
        Keyword::In(at(0)),
        Expression::new_range(num("0"), num("3")),
        body,
    ));
    let p = program(vec![f, var_at("i", 30)]);
    assert_eq!(
        diagnostics("for i in 0..3 { print(i) }\n  i", &p),
        vec!["Línea 2: Variable 'i' no declarada"]
    );
}

#[test]
fn for_iterable_must_be_a_range() {
    let f = Expression::new_for(For::new(
        Keyword::For(at(0)),
        var("i"),
        Keyword::In(at(0)),
        num("3"),
        var("i"),
    ));
    assert_eq!(diagnostics("", &program(vec![f])), vec!["El iterable de for debe ser un rango"]);
}

#[test]
fn assignment_retypes_the_variable() {
    let retype = Expression::new_binary_op(var("x"), text("s"), BinOp::Assign(at(0)));
    let use_as_text = Expression::new_binary_op(var("x"), text("!"), BinOp::ConcatString(at(0)));
    let use_as_number = Expression::new_binary_op(var("x"), num("1"), BinOp::Plus(at(0)));
    let with_boolean = let_in(
        "x",
        boolean("true"),
        block(vec![
            Expression::new_binary_op(var("x"), boolean("false"), BinOp::AndAnd(at(0))),
            retype,
            use_as_text,
            use_as_number,
        ]),
    );
    assert_eq!(
        diagnostics("", &program(vec![with_boolean])),
        vec!["Línea 1: Operación aritmética requiere números"]
    );
}

fn sum_def() -> Expression {
    Expression::new_function_def(
        FunctionDef::new(
            Keyword::Function(at(0)),
            Identifier::new(0, 0, "sum"),
            vec![
                FunctionParams::new(Identifier::new(0, 0, "a"), "Number".to_string()),
                FunctionParams::new(Identifier::new(0, 0, "b"), "number".to_string()),
            ],
            Box::new(Expression::new_binary_op(var("a"), var("b"), BinOp::Plus(at(0)))),
            true,
        )
        .with_return_type("Number"),
    )
}

fn call_at(name: &str, start: usize, arguments: Vec<Expression>) -> Expression {
    Expression::new_function_call(FunctionCall::new(
        Identifier::new(start, start + name.len(), name),
        arguments,
    ))
}

#[test]
fn call_has_the_declared_result_type() {
    let use_result = Expression::new_binary_op(
        call_at("sum", 0, vec![num("1"), num("2")]),
        num("3"),
        BinOp::Plus(at(0)),
    );
    assert_eq!(diagnostics("", &program(vec![sum_def(), use_result])), Vec::<String>::new());
}

#[test]
fn call_reports_wrong_arity_and_argument_types() {
    let source = "function sum(a, b) => a + b;\nsum(1);\nsum(\"x\", 2);";
    let p = program(vec![
        sum_def(),
        call_at("sum", 29, vec![num("1")]),
        call_at("sum", 37, vec![text("x"), num("2")]),
    ]);
    assert_eq!(
        diagnostics(source, &p),
        vec![
            "Línea 2: Función 'sum' espera 2 argumentos, pero se pasaron 1.",
            "Línea 3: El argumento tiene tipo 'String', pero se esperaba 'Number' en la función 'sum'.",
        ]
    );
}

#[test]
fn call_of_an_unknown_function_is_reported_and_arguments_are_checked() {
    let p = program(vec![call_at("nope", 0, vec![var("z")])]);
    assert_eq!(
        diagnostics("nope(z)", &p),
        vec!["Línea 1: Función 'nope' no declarada.", "Línea 1: Variable 'z' no declarada"]
    );
}

#[test]
fn function_can_call_itself() {
    let body = call_at("again", 0, vec![var("n")]);
    let def = Expression::new_function_def(
        FunctionDef::new(
            Keyword::Function(at(0)),
            Identifier::new(0, 0, "again"),
            vec![FunctionParams::new(Identifier::new(0, 0, "n"), "Number".to_string())],
            Box::new(body),
            true,
        )
        .with_return_type("Number"),
    );
    assert_eq!(diagnostics("", &program(vec![def])), Vec::<String>::new());
}

#[test]
fn parameters_end_with_the_function() {
    let p = program(vec![sum_def(), var("a")]);
    assert_eq!(diagnostics("", &p), vec!["Línea 1: Variable 'a' no declarada"]);
}

#[test]
fn function_name_is_not_a_variable() {
    let p = program(vec![sum_def(), var("sum")]);
    assert_eq!(diagnostics("", &p), vec!["Línea 1: Variable 'sum' no declarada"]);
}

#[test]
fn diagnostics_are_the_same_on_every_run() {
    let p = program(vec![
        Expression::new_binary_op(var("x"), text("a"), BinOp::Minus(at(2))),
        call_at("f", 0, vec![]),
    ]);
    let first = diagnostics("x - \"a\"", &p);
    let second = diagnostics("x - \"a\"", &p);
    assert_eq!(first.len(), 3);
    assert_eq!(first, second);
}

#[test]
fn expression_line_is_known_for_variables_operators_and_calls() {
    let checker = SemanticTypeChecker::new("a\nb\nc".to_string());
    assert_eq!(checker.get_expression_line(&var_at("b", 2)), Some(2));
    let op = Expression::new_binary_op(num("1"), num("2"), BinOp::Plus(at(4)));
    assert_eq!(checker.get_expression_line(&op), Some(3));
    assert_eq!(checker.get_expression_line(&call_at("f", 0, vec![])), Some(1));
    assert_eq!(checker.get_expression_line(&num("1")), None);
}

#[test]
fn types_are_named_in_diagnostics() {
    assert_eq!(type_name_text(&Type::Number), "Number");
    assert_eq!(type_name_text(&Type::Boolean), "Boolean");
    assert_eq!(type_name_text(&Type::String), "String");
    assert_eq!(type_name_text(&Type::Object), "Object");
    assert_eq!(type_name_text(&Type::Unknown), "Unknown");
    assert_eq!(type_name_text(&Type::Custom("Point".to_string())), "Custom(\"Point\")");
    assert_eq!(type_name_text(&Type::Custom("a\"b\\c".to_string())), "Custom(\"a\\\"b\\\\c\")");
}

#[test]
fn type_nodes_are_not_checked() {
    let inst = Expression::new_type_instantiation(hulk::ast::InstantingTypes::new_expr(
        Identifier::new(0, 0, "Point"),
        vec![var("missing")],
    ));
    assert_eq!(diagnostics("", &program(vec![inst])), Vec::<String>::new());
}

#[test]
fn checker_is_a_pass_like_any_other() {
    let p = program(vec![Expression::new_binary_op(num("1"), text("a"), BinOp::Plus(at(0)))]);
    let mut checker = SemanticTypeChecker::new(String::new());
    let t = p.accept(&mut checker);
    assert!(is(&t, &Type::Unknown));
    assert_eq!(checker.errors, vec!["Línea 1: Operación aritmética requiere números"]);
    let t = num("1").accept(&mut checker);
    assert!(is(&t, &Type::Number));
}
