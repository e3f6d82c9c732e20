use hulk::ast::{read_i32, Atom, Expression, ExpressionList, Program};
use hulk::ast_printer_visitor::{print_program, AstPrinterVisitor};
use hulk::ast::{Assignment, Block, FunctionCall, IfElse, LetIn};
use hulk::symbol_table::{SymbolInfo, SymbolTable};
use hulk::storage::StorageScopes;
use hulk::text::{chars_of, int_to_text, nat_to_text};
use hulk::tokens::{
    BinOp, GroupingOperator, Identifier, Keyword, Literal, OperatorClass, Position, UnaryOperator,
};
use hulk::types::Type;
use hulk::visitor::{Visitable, Visitor};

#[test]
fn numerals_are_decimal_without_padding() {
    assert_eq!(nat_to_text(0), "0");
    assert_eq!(nat_to_text(7), "7");
    assert_eq!(nat_to_text(10), "10");
    assert_eq!(nat_to_text(1234567890), "1234567890");
    assert_eq!(nat_to_text(usize::MAX), usize::MAX.to_string());
    assert_eq!(int_to_text(0), "0");
    assert_eq!(int_to_text(-1), "-1");
    assert_eq!(int_to_text(i32::MAX), "2147483647");
    assert_eq!(int_to_text(i32::MIN), "-2147483648");
}

#[test]
fn characters_come_out_in_order() {
    assert_eq!(chars_of("añb"), vec!['a', 'ñ', 'b']);
    assert_eq!(chars_of(""), Vec::<char>::new());
}

#[test]
fn start_line_counts_line_feeds_before_the_offset() {
    let source = "a\nbc\n\nd";
    assert_eq!(Position::new(0, 1).start_line(source), 1);
    assert_eq!(Position::new(1, 2).start_line(source), 1);
    assert_eq!(Position::new(2, 3).start_line(source), 2);
    assert_eq!(Position::new(5, 6).start_line(source), 3);
    assert_eq!(Position::new(6, 7).start_line(source), 4);
    assert_eq!(Position::new(600, 601).start_line(source), 4);
    assert_eq!(Position::new(0, 0).start_line(""), 1);
}

#[test]
fn number_literals_are_read_as_32_bit_integers() {
    assert_eq!(read_i32("0"), Some(0));
    assert_eq!(read_i32("42"), Some(42));
    assert_eq!(read_i32("007"), Some(7));
    assert_eq!(read_i32("+5"), Some(5));
    assert_eq!(read_i32("-5"), Some(-5));
    assert_eq!(read_i32("2147483647"), Some(i32::MAX));
    assert_eq!(read_i32("-2147483648"), Some(i32::MIN));
    assert_eq!(read_i32("2147483648"), None);
    assert_eq!(read_i32("-2147483649"), None);
    assert_eq!(read_i32("99999999999999999999999"), None);
    assert_eq!(read_i32(""), None);
    assert_eq!(read_i32("-"), None);
    assert_eq!(read_i32("+"), None);
    assert_eq!(read_i32("1.5"), None);
    assert_eq!(read_i32(" 1"), None);
    assert_eq!(read_i32("1a"), None);
    assert_eq!(read_i32("--1"), None);
}

#[test]
fn read_i32_agrees_with_the_standard_parser() {
    for word in ["0", "12", "-0", "+0", "-12", "000000000000001", "4294967296", "x", "1_0", "٣"] {
        assert_eq!(read_i32(word), word.parse::<i32>().ok());
    }
}

#[test]
fn atoms_are_built_from_words() {
    match Atom::new_number_literal(3, 5, "42") {
        Ok(Atom::NumberLiteral(Literal::Number(n, p))) => {
            assert_eq!(n, 42);
            assert_eq!(p, Position::new(3, 5));
        }
        _ => panic!("not a number literal"),
    }
    assert_eq!(
        Atom::new_number_literal(0, 1, "x1").err(),
        Some("No se pudo convertir 'x1' a número".to_string())
    );
    match Atom::new_boolean_literal(1, 5, "true") {
        Ok(Atom::BooleanLiteral(Literal::Bool(b, p))) => {
            assert!(b);
            assert_eq!(p, Position::new(1, 5));
        }
        _ => panic!("not a boolean literal"),
    }
    assert!(matches!(
        Atom::new_boolean_literal(0, 5, "false"),
        Ok(Atom::BooleanLiteral(Literal::Bool(false, _)))
    ));
    assert_eq!(
        Atom::new_boolean_literal(0, 4, "True").err(),
        Some("No se pudo convertir 'True' a booleano".to_string())
    );
    match Atom::new_string_literal(2, 4, "hi") {
        Atom::StringLiteral(Literal::Str(s, p)) => {
            assert_eq!(s, "hi");
            assert_eq!(p, Position::new(2, 4));
        }
        _ => panic!("not a string literal"),
    }
    match Atom::new_identifier(7, 8, "x") {
        Atom::Variable(id) => {
            assert_eq!(id.name, "x");
            assert_eq!(id.position, Position::new(7, 8));
        }
        _ => panic!("not a variable"),
    }
}

#[test]
fn literals_and_operators_are_written_back() {
    assert_eq!(Literal::Number(-3, Position::new(0, 0)).text(), "-3");
    assert_eq!(Literal::Str("a b".to_string(), Position::new(0, 0)).text(), "\"a b\"");
    assert_eq!(Literal::Bool(true, Position::new(0, 0)).text(), "true");
    assert_eq!(Literal::Bool(false, Position::new(0, 0)).text(), "false");
    let p = Position::new(4, 5);
    assert_eq!(BinOp::Plus(p).text(), "+");
    assert_eq!(BinOp::ConcatString(p).text(), "@");
    assert_eq!(BinOp::Assign(p).text(), ":=");
    assert_eq!(BinOp::LessEqual(p).text(), "<=");
    assert_eq!(BinOp::Mod(p).position(), p);
    assert_eq!(BinOp::Mod(p).class(), OperatorClass::Arithmetic);
    assert_eq!(BinOp::NotEqual(p).class(), OperatorClass::Comparison);
    assert_eq!(BinOp::OrOr(p).class(), OperatorClass::Logical);
    assert_eq!(BinOp::ConcatString(p).class(), OperatorClass::Concatenation);
    assert_eq!(BinOp::Assign(p).class(), OperatorClass::Assignment);
    assert_eq!(UnaryOperator::Not(p).text(), "!");
    assert_eq!(UnaryOperator::Minus(p).position(), p);
    assert_eq!(GroupingOperator::OpenBrace.text(), "{");
    assert_eq!(GroupingOperator::CloseParen.text(), ")");
    assert_eq!(Identifier::new(1, 2, "n").text(), "n");
}

#[test]
fn declared_types_are_parsed_without_regard_to_case() {
    assert!(Type::from_str("Number").same(&Type::Number));
    assert!(Type::from_str("number").same(&Type::Number));
    assert!(Type::from_str("NUMBER").same(&Type::Number));
    assert!(Type::from_str("i32").same(&Type::Number));
    assert!(Type::from_str("f64").same(&Type::Number));
    assert!(Type::from_str("Boolean").same(&Type::Boolean));
    assert!(Type::from_str("bool").same(&Type::Boolean));
    assert!(Type::from_str("String").same(&Type::String));
    assert!(Type::from_str("sTrInG").same(&Type::String));
    assert!(Type::from_str("Object").same(&Type::Object));
    assert!(Type::from_str("Point").same(&Type::Unknown));
    assert!(Type::from_str("").same(&Type::Unknown));
    assert!(Type::from_str("number ").same(&Type::Unknown));
    assert!(!Type::Custom("A".to_string()).same(&Type::Custom("B".to_string())));
    assert!(Type::Custom("A".to_string()).duplicate().same(&Type::Custom("A".to_string())));
}

fn number() -> SymbolInfo {
    SymbolInfo::Variable { var_type: Type::Number }
}

#[test]
fn lookup_scans_from_the_innermost_scope() {
    let mut table = SymbolTable::new();
    assert_eq!(table.depth(), 1);
    assert!(table.lookup("x").is_none());
    table.insert("x".to_string(), number());
    table.enter_scope();
    assert!(matches!(table.lookup("x"), Some(SymbolInfo::Variable { var_type: Type::Number })));
    table.insert("x".to_string(), SymbolInfo::Variable { var_type: Type::String });
    assert!(matches!(table.lookup("x"), Some(SymbolInfo::Variable { var_type: Type::String })));
    table.insert("x".to_string(), SymbolInfo::Variable { var_type: Type::Boolean });
    assert!(matches!(table.lookup("x"), Some(SymbolInfo::Variable { var_type: Type::Boolean })));
    table.exit_scope();
    assert!(matches!(table.lookup("x"), Some(SymbolInfo::Variable { var_type: Type::Number })));
    assert!(table.lookup("X").is_none());
    table.exit_scope();
    assert_eq!(table.depth(), 0);
    table.exit_scope();
    assert_eq!(table.depth(), 0);
    table.insert("y".to_string(), number());
    assert!(table.lookup("y").is_none());
}

#[test]
fn declared_types_answer_for_their_members() {
    let mut table = SymbolTable::new();
    table.insert_type(
        "Point".to_string(),
        vec![
            ("x".to_string(), Type::Number),
            ("on".to_string(), Type::Boolean),
            ("label".to_string(), Type::String),
            ("x".to_string(), Type::String),
        ],
        vec![],
    );
    table.insert("p".to_string(), number());
    assert!(table.has_type("Point"));
    assert!(!table.has_type("p"));
    assert!(!table.has_type("Line"));
    assert_eq!(table.get_type("Point").map(|t| t.name.clone()), Some("Point".to_string()));
    assert!(table.get_type("p").is_none());
    assert!(table.has_property("Point", "on"));
    assert!(!table.has_property("Point", "off"));
    assert!(!table.has_property("Line", "on"));
    assert!(!table.has_method("Point", "move"));
    assert_eq!(table.property_index("Point", "x"), 0);
    assert_eq!(table.property_index("Point", "label"), 2);
    assert_eq!(table.property_index("Point", "missing"), 0);
    assert_eq!(table.property_index("Line", "x"), 0);
    assert_eq!(table.property_llvm_type("Point", "x"), "i32");
    assert_eq!(table.property_llvm_type("Point", "on"), "i1");
    assert_eq!(table.property_llvm_type("Point", "label"), "i8*");
    assert_eq!(table.property_llvm_type("Point", "missing"), "i8*");
    assert_eq!(table.property_llvm_type("Line", "x"), "i8*");
}

#[test]
fn storage_scopes_shadow_and_restore() {
    let mut env = StorageScopes::new();
    env.declare("x".to_string(), "%x_1".to_string());
    env.enter_scope();
    env.declare("x".to_string(), "%x_2".to_string());
    assert_eq!(env.lookup("x"), Some(&"%x_2".to_string()));
    assert_eq!(env.depth(), 2);
    env.exit_scope();
    assert_eq!(env.lookup("x"), Some(&"%x_1".to_string()));
    assert_eq!(env.lookup("y"), None);
}

fn sample() -> Program {
    let at = Position::new(0, 0);
    let sum = Expression::new_binary_op(
        Expression::new_atom(Atom::new_identifier(0, 0, "x")),
        Expression::new_atom(Atom::new_group(Expression::new_atom(
            Atom::new_number_literal(0, 0, "4").unwrap(),
        ))),
        BinOp::Plus(at),
    );
    let binding = Assignment::new(
        Atom::new_identifier(0, 0, "x"),
        BinOp::Assign(at),
        Expression::new_atom(Atom::new_string_literal(0, 0, "s")),
    );
    let l = Expression::new_letin(LetIn::new(Keyword::Let(at), vec![binding], Keyword::In(at), sum));
    let cond = Expression::new_ifelse(IfElse::new(
        Keyword::If(at),
        Expression::new_atom(Atom::new_boolean_literal(0, 0, "true").unwrap()),
        Expression::new_print(
            Expression::new_function_call(FunctionCall::new(Identifier::new(0, 0, "f"), vec![])),
            at,
        ),
        vec![],
        Some(Keyword::Else(at)),
        Some(Expression::new_block(Block::new(
            GroupingOperator::OpenBrace,
            ExpressionList::new(vec![]),
            GroupingOperator::CloseBrace,
        ))),
    ));
    Program::new(ExpressionList::new(vec![l, cond]))
}

#[test]
fn outline_shows_each_node_below_its_parent() {
    assert_eq!(
        print_program(&sample()),
        vec![
            "Program",
            "  ExpressionList",
            "    LetIn",
            "      Assignment: x :=",
            "        StringLiteral: \"s\"",
            "      BinaryOp: +",
            "        Variable: x",
            "        Group",
            "        NumberLiteral: 4",
            "    If",
            "      Condition:",
            "        BoolLiteral: true",
            "      Then:",
            "        Print",
            "          FunctionCall: f",
            "      Else:",
            "        Block",
            "          ExpressionList",
        ]
    );
}

#[test]
fn printing_twice_gives_the_same_lines() {
    let p = sample();
    let first = print_program(&p);
    let second = print_program(&p);
    assert_eq!(first, second);
    let mut printer = AstPrinterVisitor::new();
    printer.visit_program(&p);
    printer.visit_program(&p);
    assert_eq!(printer.lines.len(), 2 * first.len());
    assert_eq!(printer.lines[..first.len()], printer.lines[first.len()..]);
    assert_eq!(printer.indent, 0);
}

#[test]
fn printer_starts_at_its_indent() {
    let mut printer = AstPrinterVisitor::new();
    printer.indent = 2;
    assert_eq!(printer.pad(), "    ");
    printer.visit_identifier(&Identifier::new(0, 0, "n"));
    printer.visit_literal(&Literal::Number(5, Position::new(0, 0)));
    assert_eq!(printer.lines, vec!["    Identifier: n", "    NumberLiteral: 5"]);
}

#[test]
fn accept_calls_the_callback_of_the_node_kind() {
    let p = sample();
    let mut by_accept = AstPrinterVisitor::new();
    p.accept(&mut by_accept);
    assert_eq!(by_accept.lines, print_program(&p));
    let lit = Atom::new_number_literal(0, 0, "5").unwrap();
    let mut printer = AstPrinterVisitor::new();
    lit.accept(&mut printer);
    Atom::new_identifier(0, 0, "v").accept(&mut printer);
    Identifier::new(0, 0, "w").accept(&mut printer);
    Expression::new_range(
        Expression::new_atom(Atom::new_number_literal(0, 0, "0").unwrap()),
        Expression::new_atom(Atom::new_number_literal(0, 0, "3").unwrap()),
    )
    .accept(&mut printer);
    assert_eq!(
        printer.lines,
        vec![
            "NumberLiteral: 5",
            "Identifier: v",
            "Identifier: w",
            "Range",
            "  Start:",
            "    NumberLiteral: 0",
            "  End:",
            "    NumberLiteral: 3",
        ]
    );
}

#[test]
fn declared_type_keeps_its_methods_with_their_definitions() {
    let body = Expression::new_atom(Atom::new_number_literal(0, 1, "7").unwrap());
    let method = hulk::ast::FunctionDef::new(
        Keyword::Function(Position::new(0, 0)),
        Identifier::new(0, 0, "size"),
        vec![],
        Box::new(body),
        true,
    );
    let mut table = SymbolTable::new();
    table.insert("other".to_string(), number());
    table.insert_type(
        "Box".to_string(),
        vec![("w".to_string(), Type::Number)],
        vec![("size".to_string(), method)],
    );
    assert!(table.has_method("Box", "size"));
    assert!(!table.has_method("Box", "w"));
    assert!(!table.has_method("other", "size"));
    let info = table.get_type("Box").unwrap();
    assert_eq!(info.name, "Box");
    assert_eq!(info.properties.len(), 1);
    assert_eq!(info.methods.len(), 1);
    assert_eq!(info.methods[0].0, "size");
    assert_eq!(info.methods[0].1.name.name, "size");
    assert!(info.methods[0].1.is_inline);
    assert!(matches!(
        *info.methods[0].1.body,
        Expression::Atom(ref a) if matches!(**a, Atom::NumberLiteral(Literal::Number(7, _)))
    ));
    assert!(matches!(table.lookup("other"), Some(SymbolInfo::Variable { var_type: Type::Number })));
}
