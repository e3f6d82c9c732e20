use hulk::ast::{Atom, Expression, ExpressionList, Program};
use hulk::ast_optimizer::{preprocess_functions, AstOptimizer};
use hulk::comments::strip_comments;
use hulk::errors::{map_lalrpop_error, map_syntax_fault, SyntaxDiagnostic, SyntaxFault};
use hulk::visitor::Visitable;
use lalrpop_util::lexer::Token;
use lalrpop_util::ParseError;

type ParserError<'a> = ParseError<usize, Token<'a>, &'a str>;

#[test]
fn calls_of_declared_functions_are_marked() {
    let source = "function double(n) => n * 2;\nprint(double(21));";
    assert_eq!(
        preprocess_functions(source),
        "function double(n) => n * 2;\nprint(@double(21));"
    );
}

#[test]
fn call_with_space_before_the_parenthesis_is_marked() {
    let source = "  function  f  (x) => x;\nf (1) + f\t(2)";
    assert_eq!(preprocess_functions(source), "  function  f  (x) => x;\n@f (1) + @f\t(2)");
}

#[test]
fn undeclared_names_and_plain_uses_are_left_alone() {
    let source = "function f(x) => x;\ng(1); f; f2(3); _f(4); print(f(5))";
    assert_eq!(
        preprocess_functions(source),
        "function f(x) => x;\ng(1); f; f2(3); _f(4); print(@f(5))"
    );
}

#[test]
fn text_without_declarations_is_unchanged() {
    for source in ["", "1 + 2", "let x = 3 in x + 4", "a(b(c))", "ñandú(3) // función", "function"] {
        assert_eq!(preprocess_functions(source), source);
    }
}

#[test]
fn declaration_is_found_on_any_line() {
    let source = "f(1);\r\n\tfunction f(a)\r\nfunction g\nf(g(2))";
    assert_eq!(preprocess_functions(source), "@f(1);\r\n\tfunction f(a)\r\nfunction g\n@f(@g(2))");
}

#[test]
fn declaration_needs_its_keyword_and_a_name() {
    assert_eq!(preprocess_functions("functions f(x)\nf(1)"), "functions f(x)\nf(1)");
    assert_eq!(preprocess_functions("function (x)\nx(1)"), "function (x)\nx(1)");
    assert_eq!(preprocess_functions("function\tf(x)\nf(1)"), "function\tf(x)\nf(1)");
}

#[test]
fn line_comments_keep_their_line_feed() {
    assert_eq!(strip_comments("a // b\nc"), Ok("a \nc".to_string()));
    assert_eq!(strip_comments("a // b"), Ok("a ".to_string()));
    assert_eq!(strip_comments("//\n//\nx"), Ok("\n\nx".to_string()));
}

#[test]
fn block_comments_leave_nothing() {
    assert_eq!(strip_comments("a /* b\nc */ d"), Ok("a  d".to_string()));
    assert_eq!(strip_comments("/**/"), Ok(String::new()));
    assert_eq!(strip_comments("/* * / ** */x"), Ok("x".to_string()));
    assert_eq!(strip_comments("/* // */y"), Ok("y".to_string()));
}

#[test]
fn single_slashes_are_kept() {
    assert_eq!(strip_comments("6 / 3"), Ok("6 / 3".to_string()));
    assert_eq!(strip_comments("6 /"), Ok("6 /".to_string()));
    assert_eq!(strip_comments("/"), Ok("/".to_string()));
    assert_eq!(strip_comments("2 * / 3"), Ok("2 * / 3".to_string()));
    assert_eq!(strip_comments(""), Ok(String::new()));
    assert_eq!(strip_comments("añ/o"), Ok("añ/o".to_string()));
}

#[test]
fn broken_block_comments_are_errors() {
    assert_eq!(
        strip_comments("a /* b /* c */ d */"),
        Err("Nested multi-line comments are not allowed".to_string())
    );
    assert_eq!(strip_comments("a /* b"), Err("Unterminated multi-line comment".to_string()));
    assert_eq!(strip_comments("/*/"), Err("Unterminated multi-line comment".to_string()));
}

fn check(e: SyntaxDiagnostic, message: &str, line: Option<usize>) {
    assert_eq!(e.message, message);
    assert_eq!(e.line, line);
}

#[test]
fn parser_errors_become_line_tagged_diagnostics() {
    let source = "let x = 1\nlet y = $\nz";
    let invalid: ParserError = ParseError::InvalidToken { location: 18 };
    check(map_lalrpop_error(invalid, source), "Token inválido", Some(2));
    let extra: ParserError = ParseError::ExtraToken { token: (20, Token(0, "z"), 21) };
    check(map_lalrpop_error(extra, source), "Token extra", Some(2));
    let unrecognized: ParserError = ParseError::UnrecognizedToken {
        token: (4, Token(1, "x"), 5),
        expected: vec!["\"in\"".to_string(), "r#\"[0-9]+\"#".to_string()],
    };
    check(
        map_lalrpop_error(unrecognized, source),
        "Token no reconocido, se esperaba uno de: [\"\\\"in\\\"\", \"r#\\\"[0-9]+\\\"#\"]",
        Some(1),
    );
    let eof: ParserError =
        ParseError::UnrecognizedEof { location: 21, expected: vec!["\";\"".to_string()] };
    check(map_lalrpop_error(eof, source), "EOF inesperado, se esperaba: [\"\\\";\\\"\"]", Some(3));
    let user: ParserError = ParseError::User { error: "número fuera de rango" };
    check(map_lalrpop_error(user, source), "número fuera de rango", None);
}

#[test]
fn fault_at_the_start_of_a_line_is_charged_to_the_line_before() {
    let source = "ab\ncd\n\nef";
    let at = |location| map_syntax_fault(SyntaxFault::InvalidToken { location }, source).line;
    assert_eq!(at(0), Some(1));
    assert_eq!(at(2), Some(1));
    assert_eq!(at(3), Some(1));
    assert_eq!(at(4), Some(2));
    assert_eq!(at(6), Some(2));
    assert_eq!(at(7), Some(3));
    assert_eq!(at(8), Some(4));
    assert_eq!(at(100), Some(4));
}

#[test]
fn line_adjustment_goes_by_bytes() {
    // The two-byte letter puts the line feed at byte 2 and the next line at byte 3.
    let source = "ñ\nx";
    let at = |location| map_syntax_fault(SyntaxFault::InvalidToken { location }, source).line;
    assert_eq!(at(2), Some(1));
    assert_eq!(at(3), Some(1));
    assert_eq!(at(4), Some(2));
}

#[test]
fn empty_expectation_list_is_written_as_brackets() {
    let e = map_syntax_fault(
        SyntaxFault::UnrecognizedEof { location: 0, expected: vec![] },
        "",
    );
    check(e, "EOF inesperado, se esperaba: []", Some(1));
    let e = map_syntax_fault(
        SyntaxFault::UnrecognizedToken { start: 0, end: 1, expected: vec!["a".to_string()] },
        "x",
    );
    check(e, "Token no reconocido, se esperaba uno de: [\"a\"]", Some(1));
    check(SyntaxDiagnostic::new("m".to_string(), Some(7)), "m", Some(7));
}

#[test]
fn optimizer_leaves_the_tree_alone() {
    let p = Program::new(ExpressionList::new(vec![Expression::new_atom(
        Atom::new_number_literal(0, 1, "1").unwrap(),
    )]));
    let mut optimizer = AstOptimizer::new();
    p.accept(&mut optimizer);
    assert_eq!(p.expression_list.expressions.len(), 1);
    assert_eq!(hulk::ast_printer_visitor::print_program(&p).len(), 3);
}
