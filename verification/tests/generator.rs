use hulk::ast::{
    Assignment, Atom, BinaryOp, Block, Expression, ExpressionList, For, FunctionCall, FunctionDef,
    FunctionParams, IfElse, LetIn, Program, UnaryOp, While,
};
use hulk::generator::{generate, LLVMGenerator};
use hulk::lowering::GenError;
use hulk::semantic_type_checker::SemanticTypeChecker;
use hulk::symbol_table::SymbolTable;
use hulk::visitor::Visitable;
use hulk::tokens::{BinOp, GroupingOperator, Identifier, Keyword, Position, UnaryOperator};

fn at() -> Position {
    Position::new(0, 0)
}

fn num(text: &str) -> Expression {
    Expression::new_atom(Atom::new_number_literal(0, 0, text).unwrap())
}

fn boolean(text: &str) -> Expression {
    Expression::new_atom(Atom::new_boolean_literal(0, 0, text).unwrap())
}

fn text(value: &str) -> Expression {
    Expression::new_atom(Atom::new_string_literal(0, 0, value))
}

fn var(name: &str) -> Expression {
    Expression::new_atom(Atom::new_identifier(0, 0, name))
}

fn program(expressions: Vec<Expression>) -> Program {
    Program::new(ExpressionList::new(expressions))
}

fn block(expressions: Vec<Expression>) -> Expression {
    Expression::new_block(Block::new(
        GroupingOperator::OpenBrace,
        ExpressionList::new(expressions),
        GroupingOperator::CloseBrace,
    ))
}

fn let_in(name: &str, value: Expression, body: Expression) -> Expression {
    let binding = Assignment::new(Atom::new_identifier(0, 0, name), BinOp::Assign(at()), value);
    Expression::new_letin(LetIn::new(Keyword::Let(at()), vec![binding], Keyword::In(at()), body))
}

fn checked_table(p: &Program) -> SymbolTable {
    let mut checker = SemanticTypeChecker::new(String::new());
    checker.check(p);
    assert_eq!(checker.errors, Vec::<String>::new());
    checker.symbol_table
}

fn lower(p: &Program) -> LLVMGenerator {
    let mut generator = LLVMGenerator::new(checked_table(p));
    assert_eq!(generator.visit_program(p), Ok(()));
    generator
}

fn lower_unchecked(p: &Program) -> Result<(), GenError> {
    let mut generator = LLVMGenerator::new(SymbolTable::new());
    generator.visit_program(p)
}

#[test]
fn let_binding_allocates_stores_loads_and_adds() {
    let p = program(vec![let_in(
        "x",
        num("3"),
        Expression::new_binary_op(var("x"), num("4"), BinOp::Plus(at())),
    )]);
    let g = lower(&p);
    assert_eq!(
        g.code,
        vec![
            "%x_2 = alloca i32",
            "%t0 = add i32 0, 3",
            "store i32 %t0, i32* %x_2",
            "%t1 = load i32, i32* %x_2",
            "%t2 = add i32 0, 4",
            "%t3 = add i32 %t1, %t2",
        ]
    );
    assert_eq!(g.last_temp, "%t3");
    assert_eq!(g.temp_count, 4);
    assert_eq!(g.env_stack.depth(), 1);
}

#[test]
fn if_else_merges_two_branches_with_phi() {
    let cond = Expression::new_binary_op(num("1"), num("1"), BinOp::EqualEqual(at()));
    let p = program(vec![Expression::new_ifelse(IfElse::new(
        Keyword::If(at()),
        cond,
        num("10"),
        vec![],
        Some(Keyword::Else(at())),
        Some(num("20")),
    ))]);
    let g = lower(&p);
    assert_eq!(
        g.code,
        vec![
            "%t1 = add i32 0, 1",
            "%t2 = add i32 0, 1",
            "%t3 = icmp eq i32 %t1, %t2",
            "br i1 %t3, label %then0, label %else0",
            "then0:",
            "%t4 = add i32 0, 10",
            "br label %merge0",
            "else0:",
            "%t5 = add i32 0, 20",
            "br label %merge0",
            "merge0:",
            "%t6 = phi i32 [ %t4, %then0 ], [ %t5, %else0 ]",
        ]
    );
    assert_eq!(g.last_temp, "%t6");
}

#[test]
fn if_without_else_falls_through_with_zero() {
    let p = program(vec![Expression::new_ifelse(IfElse::new(
        Keyword::If(at()),
        boolean("true"),
        num("1"),
        vec![],
        None,
        None,
    ))]);
    let g = lower(&p);
    assert_eq!(
        g.code,
        vec![
            "%t1 = icmp eq i1 1, 1",
            "br i1 %t1, label %then0, label %else0",
            "then0:",
            "%t2 = add i32 0, 1",
            "br label %merge0",
            "else0:",
            "%t3 = add i32 0, 0",
            "br label %merge0",
            "merge0:",
            "%t4 = phi i32 [ %t2, %then0 ], [ %t3, %else0 ]",
        ]
    );
}

#[test]
fn elif_guards_are_threaded_in_source_order() {
    let p = program(vec![Expression::new_ifelse(IfElse::new(
        Keyword::If(at()),
        boolean("false"),
        num("1"),
        vec![(Keyword::Elif(at()), boolean("true"), num("2"))],
        Some(Keyword::Else(at())),
        Some(num("3")),
    ))]);
    let g = lower(&p);
    assert_eq!(
        g.code,
        vec![
            "%t1 = icmp eq i1 0, 1",
            "br i1 %t1, label %then0, label %else0",
            "then0:",
            "%t2 = add i32 0, 1",
            "br label %merge0",
            "else0:",
            "%t4 = icmp eq i1 1, 1",
            "br i1 %t4, label %then3, label %else3",
            "then3:",
            "%t5 = add i32 0, 2",
            "br label %merge3",
            "else3:",
            "%t6 = add i32 0, 3",
            "br label %merge3",
            "merge3:",
            "%t7 = phi i32 [ %t5, %then3 ], [ %t6, %else3 ]",
            "br label %merge0",
            "merge0:",
            "%t8 = phi i32 [ %t2, %then0 ], [ %t7, %else0 ]",
        ]
    );
}

#[test]
fn for_over_a_range_counts_in_a_slot() {
    let body = block(vec![Expression::new_print(var("i"), at())]);
    let p = program(vec![Expression::new_for(For::new(
        Keyword::For(at()),
        var("i"),
        Keyword::In(at()),
        Expression::new_range(num("0"), num("3")),
        body,
    ))]);
    let g = lower(&p);
    assert_eq!(
        g.code,
        vec![
            "%i_2 = alloca i32",
            "%t0 = add i32 0, 0",
            "store i32 %t0, i32* %i_2",
            "%t1 = add i32 0, 3",
            "br label %t2",
            "t2:",
            "%t5 = load i32, i32* %i_2",
            "%t6 = icmp slt i32 %t5, %t1",
            "br i1 %t6, label %t3, label %t4",
            "t3:",
            "%t7 = load i32, i32* %i_2",
            "call i32 (i8*, ...) @printf(i8* getelementptr inbounds ([4 x i8], [4 x i8]* @.fmt_int, i32 0, i32 0), i32 %t7)",
            "%t8 = load i32, i32* %i_2",
            "%t9 = add i32 %t8, 1",
            "store i32 %t9, i32* %i_2",
            "br label %t2",
            "t4:",
        ]
    );
    assert_eq!(g.env_stack.depth(), 1);
    assert_eq!(g.lookup_var("i"), None);
}

#[test]
fn while_loop_uses_three_labels() {
    let cond = Expression::new_binary_op(var("x"), num("3"), BinOp::Less(at()));
    let step = Expression::new_binary_op(
        var("x"),
        Expression::new_binary_op(var("x"), num("1"), BinOp::Plus(at())),
        BinOp::Assign(at()),
    );
    let p = program(vec![let_in(
        "x",
        num("0"),
        Expression::new_while(While::new(Keyword::While(at()), cond, step)),
    )]);
    let g = lower(&p);
    assert_eq!(
        g.code,
        vec![
            "%x_2 = alloca i32",
            "%t0 = add i32 0, 0",
            "store i32 %t0, i32* %x_2",
            "br label %t1",
            "t1:",
            "%t4 = load i32, i32* %x_2",
            "%t5 = add i32 0, 3",
            "%t6 = icmp slt i32 %t4, %t5",
            "br i1 %t6, label %t2, label %t3",
            "t2:",
            "%t7 = load i32, i32* %x_2",
            "%t8 = add i32 0, 1",
            "%t9 = add i32 %t7, %t8",
            "store i32 %t9, i32* %x_2",
            "br label %t1",
            "t3:",
        ]
    );
}

#[test]
fn logical_operators_evaluate_both_sides() {
    let p = program(vec![Expression::new_binary_op(
        boolean("true"),
        boolean("false"),
        BinOp::AndAnd(at()),
    )]);
    let g = lower(&p);
    assert_eq!(
        g.code,
        vec!["%t0 = icmp eq i1 1, 1", "%t1 = icmp eq i1 0, 1", "%t2 = and i1 %t0, %t1"]
    );
}

#[test]
fn every_operator_has_its_instruction() {
    let cases = vec![
        (BinOp::Plus(at()), "add i32"),
        (BinOp::Minus(at()), "sub i32"),
        (BinOp::Mul(at()), "mul i32"),
        (BinOp::Div(at()), "sdiv i32"),
        (BinOp::Mod(at()), "srem i32"),
        (BinOp::EqualEqual(at()), "icmp eq i32"),
        (BinOp::NotEqual(at()), "icmp ne i32"),
        (BinOp::Less(at()), "icmp slt i32"),
        (BinOp::LessEqual(at()), "icmp sle i32"),
        (BinOp::Greater(at()), "icmp sgt i32"),
        (BinOp::GreaterEqual(at()), "icmp sge i32"),
        (BinOp::ConcatString(at()), "add i32"),
    ];
    for (op, head) in cases {
        let p = program(vec![Expression::new_binary_op(num("6"), num("7"), op)]);
        let mut g = LLVMGenerator::new(SymbolTable::new());
        assert_eq!(g.visit_program(&p), Ok(()));
        assert_eq!(g.code[2], format!("%t2 = {} %t0, %t1", head));
    }
}

#[test]
fn unary_minus_and_not() {
    let p = program(vec![
        Expression::new_unary_op(UnaryOperator::Minus(at()), num("5")),
        Expression::new_unary_op(UnaryOperator::Not(at()), boolean("true")),
    ]);
    let g = lower(&p);
    assert_eq!(
        g.code,
        vec![
            "%t0 = add i32 0, 5",
            "%t1 = sub i32 0, %t0",
            "%t2 = icmp eq i1 1, 1",
            "%t3 = xor i1 %t2, true",
        ]
    );
}

#[test]
fn negative_literal_is_written_with_its_sign() {
    let p = program(vec![num("-12")]);
    let g = lower(&p);
    assert_eq!(g.code, vec!["%t0 = add i32 0, -12"]);
}

#[test]
fn string_literals_are_interned_per_occurrence() {
    let p = program(vec![text("hi"), text("hi")]);
    let g = lower(&p);
    assert_eq!(
        g.string_globals,
        vec![
            "@.str_0 = private unnamed_addr constant [3 x i8] c\"hi\\00\"",
            "@.str_1 = private unnamed_addr constant [3 x i8] c\"hi\\00\"",
        ]
    );
    assert_eq!(g.string_sizes.get("@.str_0"), Some(3));
    assert_eq!(g.string_sizes.get("@.str_1"), Some(3));
    assert_eq!(g.string_sizes.get("@.str_2"), None);
    assert_eq!(g.last_temp, "@.str_1");
    assert_eq!(g.string_label_count, 2);
    assert_eq!(g.temp_count, 2);
    assert_eq!(g.code, Vec::<String>::new());
}

#[test]
fn string_constants_escape_quotes_and_backslashes() {
    let p = program(vec![text("a\"b\\c")]);
    let g = lower(&p);
    assert_eq!(
        g.string_globals,
        vec!["@.str_0 = private unnamed_addr constant [6 x i8] c\"a\\22b\\5Cc\\00\""]
    );
}

#[test]
fn string_length_counts_bytes() {
    let p = program(vec![text("ñ")]);
    let g = lower(&p);
    assert_eq!(
        g.string_globals,
        vec!["@.str_0 = private unnamed_addr constant [3 x i8] c\"ñ\\00\""]
    );
}

#[test]
fn print_chooses_its_format_by_shape() {
    let p = program(vec![
        Expression::new_print(text("hey"), at()),
        Expression::new_print(boolean("true"), at()),
        Expression::new_print(num("7"), at()),
    ]);
    let g = lower(&p);
    assert_eq!(
        g.code,
        vec![
            "%t1 = getelementptr [4 x i8], [4 x i8]* @.fmt_str, i32 0, i32 0",
            "%t2 = getelementptr [4 x i8], [4 x i8]* @.str_0, i32 0, i32 0",
            "call i32 (i8*, ...) @printf(i8* %t1, i8* %t2)",
            "%t3 = icmp eq i1 1, 1",
            "%t4 = getelementptr inbounds [5 x i8], [5 x i8]* @.true_str, i32 0, i32 0",
            "%t5 = getelementptr inbounds [6 x i8], [6 x i8]* @.false_str, i32 0, i32 0",
            "%t6 = select i1 %t3, i8* %t4, i8* %t5",
            "%t7 = getelementptr [4 x i8], [4 x i8]* @.fmt_str, i32 0, i32 0",
            "call i32 (i8*, ...) @printf(i8* %t7, i8* %t6)",
            "%t8 = add i32 0, 7",
            "call i32 (i8*, ...) @printf(i8* getelementptr inbounds ([4 x i8], [4 x i8]* @.fmt_int, i32 0, i32 0), i32 %t8)",
        ]
    );
}

fn double_def() -> Expression {
    let body = Expression::new_binary_op(var("n"), num("2"), BinOp::Mul(at()));
    Expression::new_function_def(
        FunctionDef::new(
            Keyword::Function(at()),
            Identifier::new(0, 0, "double"),
            vec![FunctionParams::new(Identifier::new(0, 0, "n"), "Number".to_string())],
            Box::new(body),
            true,
        )
        .with_return_type("Number"),
    )
}

#[test]
fn function_definition_goes_to_the_side_buffer() {
    let call = Expression::new_function_call(FunctionCall::new(
        Identifier::new(0, 0, "double"),
        vec![num("21")],
    ));
    let p = program(vec![double_def(), call]);
    let g = lower(&p);
    assert_eq!(
        g.functions,
        vec![
            "define i32 @double(i32 %p0) {",
            "%n_2 = alloca i32",
            "store i32 %p0, i32* %n_2",
            "%t0 = load i32, i32* %n_2",
            "%t1 = add i32 0, 2",
            "%t2 = mul i32 %t0, %t1",
            "ret i32 %t2",
            "}",
        ]
    );
    assert_eq!(g.code, vec!["%t3 = add i32 0, 21", "%t4 = call i32 @double(i32 %t3)"]);
    assert_eq!(g.env_stack.depth(), 1);
}

#[test]
fn call_uses_the_declared_parameter_types() {
    let def = Expression::new_function_def(
        FunctionDef::new(
            Keyword::Function(at()),
            Identifier::new(0, 0, "pick"),
            vec![
                FunctionParams::new(Identifier::new(0, 0, "c"), "Boolean".to_string()),
                FunctionParams::new(Identifier::new(0, 0, "s"), "String".to_string()),
            ],
            Box::new(num("1")),
            false,
        )
        .with_return_type("Boolean"),
    );
    let call = Expression::new_function_call(FunctionCall::new(
        Identifier::new(0, 0, "pick"),
        vec![boolean("true"), text("x")],
    ));
    let p = program(vec![def, call]);
    let g = lower(&p);
    assert_eq!(g.functions[0], "define i1 @pick(i1 %p0, i8* %p1) {");
    assert_eq!(g.code[1], "%t3 = call i1 @pick(i1 %t1, i8* @.str_0)");
}

#[test]
fn module_is_assembled_around_the_entry_point() {
    let p = program(vec![double_def(), Expression::new_print(text("ok"), at())]);
    let table = checked_table(&p);
    let module = generate(&p, table).unwrap();
    assert_eq!(
        module,
        vec![
            "@.fmt_int = private unnamed_addr constant [4 x i8] c\"%d\\0A\\00\"",
            "@.fmt_str = private unnamed_addr constant [4 x i8] c\"%s\\0A\\00\"",
            "@.true_str = private unnamed_addr constant [5 x i8] c\"true\\00\"",
            "@.false_str = private unnamed_addr constant [6 x i8] c\"false\\00\"",
            "declare i32 @printf(i8*, ...)",
            "",
            "@.str_0 = private unnamed_addr constant [3 x i8] c\"ok\\00\"",
            "define i32 @double(i32 %p0) {",
            "%n_2 = alloca i32",
            "store i32 %p0, i32* %n_2",
            "%t0 = load i32, i32* %n_2",
            "%t1 = add i32 0, 2",
            "%t2 = mul i32 %t0, %t1",
            "ret i32 %t2",
            "}",
            "define i32 @main() {",
            "  %t4 = getelementptr [4 x i8], [4 x i8]* @.fmt_str, i32 0, i32 0",
            "  %t5 = getelementptr [3 x i8], [3 x i8]* @.str_0, i32 0, i32 0",
            "  call i32 (i8*, ...) @printf(i8* %t4, i8* %t5)",
            "  ret i32 0",
            "}",
        ]
    );
}

#[test]
fn header_and_footer_are_fixed() {
    let header = LLVMGenerator::llvm_header();
    assert_eq!(header.len(), 7);
    assert_eq!(header[4], "declare i32 @printf(i8*, ...)");
    assert_eq!(header[6], "define i32 @main() {");
    assert_eq!(LLVMGenerator::llvm_footer(), vec!["  ret i32 0", "}"]);
}

#[test]
fn shadowing_bindings_get_distinct_slots() {
    let inner = let_in("x", num("2"), var("x"));
    let p = program(vec![let_in("x", num("1"), inner)]);
    let g = lower(&p);
    assert_eq!(
        g.code,
        vec![
            "%x_2 = alloca i32",
            "%t0 = add i32 0, 1",
            "store i32 %t0, i32* %x_2",
            "%x_3 = alloca i32",
            "%t1 = add i32 0, 2",
            "store i32 %t1, i32* %x_3",
            "%t2 = load i32, i32* %x_3",
        ]
    );
}

#[test]
fn type_nodes_are_not_lowered() {
    let decl = Expression::new_type_declaration(hulk::ast::Declarationtypes::new_expr(
        Identifier::new(0, 0, "Point"),
        vec![],
        vec![],
        vec![],
    ));
    let inst = Expression::new_type_instantiation(hulk::ast::InstantingTypes::new_expr(
        Identifier::new(0, 0, "Point"),
        vec![num("1")],
    ));
    let p = program(vec![decl, inst]);
    let mut g = LLVMGenerator::new(SymbolTable::new());
    assert_eq!(g.visit_program(&p), Ok(()));
    assert_eq!(g.code, Vec::<String>::new());
    assert_eq!(g.temp_count, 0);
}

#[test]
fn undeclared_variable_stops_generation() {
    assert_eq!(lower_unchecked(&program(vec![var("ghost")])), Err(GenError::UndeclaredVariable));
    let assign = Expression::new_binary_op(var("ghost"), num("1"), BinOp::Assign(at()));
    assert_eq!(lower_unchecked(&program(vec![assign])), Err(GenError::UndeclaredVariable));
}

#[test]
fn assignment_to_a_non_variable_stops_generation() {
    let assign = Expression::new_binary_op(num("1"), num("2"), BinOp::Assign(at()));
    assert_eq!(lower_unchecked(&program(vec![assign])), Err(GenError::InvalidAssignmentTarget));
    let binding = Assignment {
        variable: Atom::new_number_literal(0, 0, "1").unwrap(),
        op: BinOp::Assign(at()),
        body: Box::new(num("2")),
    };
    let l = Expression::new_letin(LetIn::new(
        Keyword::Let(at()),
        vec![binding],
        Keyword::In(at()),
        num("3"),
    ));
    assert_eq!(lower_unchecked(&program(vec![l])), Err(GenError::InvalidAssignmentTarget));
}

#[test]
fn unknown_function_stops_generation() {
    let call =
        Expression::new_function_call(FunctionCall::new(Identifier::new(0, 0, "nope"), vec![]));
    assert_eq!(lower_unchecked(&program(vec![call])), Err(GenError::UnknownFunction));
    assert_eq!(lower_unchecked(&program(vec![double_def()])), Err(GenError::UnknownFunction));
}

#[test]
fn unsupported_type_stops_generation() {
    let def = Expression::new_function_def(FunctionDef::new(
        Keyword::Function(at()),
        Identifier::new(0, 0, "f"),
        vec![],
        Box::new(num("1")),
        true,
    ));
    let p = program(vec![def]);
    let mut checker = SemanticTypeChecker::new(String::new());
    checker.check(&p);
    let mut g = LLVMGenerator::new(checker.symbol_table);
    assert_eq!(g.visit_program(&p), Err(GenError::UnsupportedType));
}

#[test]
fn for_needs_a_named_variable_and_a_range() {
    let bad_var = Expression::new_for(For::new(
        Keyword::For(at()),
        num("1"),
        Keyword::In(at()),
        Expression::new_range(num("0"), num("3")),
        num("0"),
    ));
    assert_eq!(lower_unchecked(&program(vec![bad_var])), Err(GenError::InvalidLoopVariable));
    let bad_iterable = Expression::new_for(For::new(
        Keyword::For(at()),
        var("i"),
        Keyword::In(at()),
        num("3"),
        num("0"),
    ));
    assert_eq!(lower_unchecked(&program(vec![bad_iterable])), Err(GenError::NonRangeIterable));
}

#[test]
fn unary_plus_stops_generation() {
    let p = program(vec![Expression::new_unary_op(UnaryOperator::Plus(at()), num("1"))]);
    assert_eq!(lower_unchecked(&p), Err(GenError::UnsupportedUnaryOperator));
}

#[test]
fn exhausted_counter_stops_generation() {
    let mut g = LLVMGenerator::new(SymbolTable::new());
    g.temp_count = usize::MAX;
    assert_eq!(g.visit_program(&program(vec![num("1")])), Err(GenError::CounterOverflow));
    assert_eq!(g.next_temp(), Err(GenError::CounterOverflow));
}

#[test]
fn temporaries_are_never_reused() {
    let mut g = LLVMGenerator::new(SymbolTable::new());
    assert_eq!(g.next_temp(), Ok("%t0".to_string()));
    assert_eq!(g.next_temp(), Ok("%t1".to_string()));
    g.temp_count = 41;
    assert_eq!(g.next_temp(), Ok("%t41".to_string()));
    assert_eq!(g.temp_count, 42);
}

#[test]
fn standalone_unary_and_binary_nodes_can_be_visited() {
    let mut g = LLVMGenerator::new(SymbolTable::new());
    let b = BinaryOp::new(num("1"), num("2"), BinOp::Plus(at()));
    assert_eq!(g.visit_binary_op(&b), Ok(()));
    let u = UnaryOp::new(UnaryOperator::Minus(at()), num("3"));
    assert_eq!(g.visit_unary_op(&u), Ok(()));
    assert_eq!(g.code.len(), 5);
    assert_eq!(g.last_temp, "%t4");
}

#[test]
fn generator_is_a_pass_like_any_other() {
    let p = program(vec![Expression::new_binary_op(num("1"), num("2"), BinOp::Plus(at()))]);
    let mut g = LLVMGenerator::new(SymbolTable::new());
    assert_eq!(p.accept(&mut g), Ok(()));
    assert_eq!(g.code, vec!["%t0 = add i32 0, 1", "%t1 = add i32 0, 2", "%t2 = add i32 %t0, %t1"]);
    assert_eq!(var("nowhere").accept(&mut g), Err(GenError::UndeclaredVariable));
}

#[test]
fn failure_before_writing_leaves_the_generator_untouched() {
    let mut g = LLVMGenerator::new(SymbolTable::new());
    assert_eq!(g.visit_expression(&num("1")), Ok(()));
    let written = g.code.clone();
    let bad_target = BinaryOp::new(num("1"), num("2"), BinOp::Assign(at()));
    assert_eq!(g.visit_binary_op(&bad_target), Err(GenError::InvalidAssignmentTarget));
    let no_slot = BinaryOp::new(var("ghost"), num("2"), BinOp::Assign(at()));
    assert_eq!(g.visit_binary_op(&no_slot), Err(GenError::UndeclaredVariable));
    assert_eq!(g.visit_atom(&Atom::new_identifier(0, 5, "ghost")), Err(GenError::UndeclaredVariable));
    assert_eq!(
        g.visit_identifier(&Identifier::new(0, 5, "ghost")),
        Err(GenError::UndeclaredVariable)
    );
    let call = FunctionCall::new(Identifier::new(0, 0, "nope"), vec![num("1")]);
    assert_eq!(g.visit_function_call(&call), Err(GenError::UnknownFunction));
    let bad_loop = For::new(Keyword::For(at()), var("i"), Keyword::In(at()), num("3"), num("0"));
    assert_eq!(g.visit_for(&bad_loop), Err(GenError::NonRangeIterable));
    assert_eq!(g.code, written);
    assert_eq!(g.code, vec!["%t0 = add i32 0, 1"]);
    assert_eq!(g.temp_count, 1);
    assert_eq!(g.last_temp, "%t0");
    assert_eq!(g.env_stack.depth(), 1);
    assert_eq!(g.functions, Vec::<String>::new());
}
