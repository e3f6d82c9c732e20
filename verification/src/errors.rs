//! Syntax diagnostics: what the parser reports when it rejects the source,
//! reduced to a message and the line it is about.
use vstd::prelude::*;
use vstd::string::{StringExecFns, StringSliceAdditionalSpecFns};
use crate::text::lines;
use crate::tokens::{line_at, Position};

verus! {

/// `lalrpop_util::ParseError`, the error of a generated parser. It is
/// carried through and never looked into here.
#[verifier::external_type_specification]
#[verifier::external_body]
#[verifier::reject_recursive_types(L)]
#[verifier::reject_recursive_types(T)]
#[verifier::reject_recursive_types(E)]
pub struct ExOutsideError<L, T, E>(lalrpop_util::ParseError<L, T, E>);

/// `lalrpop_util::lexer::Token`, a token of the built-in lexer. It is
/// carried through and never looked into here.
#[verifier::external_type_specification]
#[verifier::external_body]
pub struct ExToken<'input>(lalrpop_util::lexer::Token<'input>);

/// A syntax diagnostic: what is wrong and, where it is known, on which line.
#[derive(Debug)]
pub struct SyntaxDiagnostic {
    pub message: String,
    pub line: Option<usize>,
}

impl SyntaxDiagnostic {
    pub fn new(message: String, line: Option<usize>) -> (e: Self)
        ensures
            e.message == message,
            e.line == line,
    {
        SyntaxDiagnostic { message, line }
    }
}

/// Why the parser rejected the source, with the byte offsets it points at.
#[derive(Debug)]
pub enum SyntaxFault {
    /// The lexer met text that starts no token.
    InvalidToken { location: usize },
    /// The source ended where more was expected.
    UnrecognizedEof { location: usize, expected: Vec<String> },
    /// A token that cannot stand where it was met.
    UnrecognizedToken { start: usize, end: usize, expected: Vec<String> },
    /// A token after the program was complete.
    ExtraToken { start: usize, end: usize },
    /// An error that an action of the grammar raised.
    User { error: String },
}

/// How the standard library writes a list of strings for debugging: in
/// square brackets, each string quoted and escaped.
pub uninterp spec fn debug_list_text(items: Seq<Seq<char>>) -> Seq<char>;

/// The `Debug` formatting of a vector of strings by the standard library.
/// The contract names its result and says nothing else of it.
#[verifier::external_body]
fn debug_list(items: &Vec<String>) -> (s: String)
    ensures
        s@ == debug_list_text(lines(items@)),
{
    format!("{:?}", items)
}

/// The fault that an error of the generated parser stands for: the same
/// variant with the same offsets, expected tokens and message. The token
/// itself is left out; its span is kept.
pub uninterp spec fn parsed_fault(
    err: lalrpop_util::ParseError<usize, lalrpop_util::lexer::Token<'static>, &'static str>,
) -> SyntaxFault;

/// Tells the variants of `lalrpop_util::ParseError` apart and moves their
/// fields into a `SyntaxFault`. The token itself is dropped; its span is
/// kept. The contract names the result and says nothing else of it.
#[verifier::external_body]
fn classify<'a>(
    err: lalrpop_util::ParseError<usize, lalrpop_util::lexer::Token<'a>, &'a str>,
) -> (fault: SyntaxFault)
    ensures
        fault == parsed_fault(err),
{
    match err {
        lalrpop_util::ParseError::InvalidToken { location } => SyntaxFault::InvalidToken { location },
        lalrpop_util::ParseError::UnrecognizedEof { location, expected } =>
            SyntaxFault::UnrecognizedEof { location, expected },
        lalrpop_util::ParseError::UnrecognizedToken { token, expected } =>
            SyntaxFault::UnrecognizedToken { start: token.0, end: token.2, expected },
        lalrpop_util::ParseError::ExtraToken { token } =>
            SyntaxFault::ExtraToken { start: token.0, end: token.2 },
        lalrpop_util::ParseError::User { error } => SyntaxFault::User { error: error.to_string() },
    }
}

/// The line that a diagnostic about byte offset `start` names: the line of
/// the offset, or the line before when the byte just before the offset is a
/// line feed, so that a fault met at the very start of a line is charged to
/// the line that ran into it.
pub open spec fn adjusted_line(bytes: Seq<u8>, start: nat) -> nat {
    let line = line_at(bytes, start);
    if start > 0 && start - 1 < bytes.len() && bytes[start - 1] == 10u8 {
        (line - 1) as nat
    } else {
        line
    }
}

/// The message for a fault.
pub open spec fn fault_message(fault: SyntaxFault) -> Seq<char> {
    match fault {
        SyntaxFault::InvalidToken { .. } => "Token inválido"@,
        SyntaxFault::UnrecognizedToken { expected, .. } =>
            "Token no reconocido, se esperaba uno de: "@ + debug_list_text(lines(expected@)),
        SyntaxFault::ExtraToken { .. } => "Token extra"@,
        SyntaxFault::UnrecognizedEof { expected, .. } => "EOF inesperado, se esperaba: "@
            + debug_list_text(lines(expected@)),
        SyntaxFault::User { error } => error@,
    }
}

/// The offset that a fault points at, where it points at one.
pub open spec fn fault_offset(fault: SyntaxFault) -> Option<nat> {
    match fault {
        SyntaxFault::InvalidToken { location } => Some(location as nat),
        SyntaxFault::UnrecognizedToken { start, .. } => Some(start as nat),
        SyntaxFault::ExtraToken { start, .. } => Some(start as nat),
        SyntaxFault::UnrecognizedEof { location, .. } => Some(location as nat),
        SyntaxFault::User { .. } => None,
    }
}

/// Whether `e` is the diagnostic for `fault` in `source`.
pub open spec fn reports(e: SyntaxDiagnostic, fault: SyntaxFault, source: &str) -> bool {
    e.message@ == fault_message(fault) && match fault_offset(fault) {
        Some(start) => e.line matches Some(l) && l == adjusted_line(source.spec_bytes(), start),
        None => e.line is None,
    }
}

fn line_for(start: usize, input: &str) -> (line: usize)
    ensures
        line == adjusted_line(input.spec_bytes(), start as nat),
{
    let line = Position::new(start, start).start_line(input);
    let bytes = input.as_bytes();
    if start > 0 && start - 1 < bytes.len() {
        if bytes[start - 1] == 10u8 {
            return line - 1;
        }
    }
    line
}

/// The diagnostic for a fault: its message and the line it is about.
pub fn map_syntax_fault(fault: SyntaxFault, input: &str) -> (e: SyntaxDiagnostic)
    ensures
        reports(e, fault, input),
{
    match fault {
        SyntaxFault::InvalidToken { location } => SyntaxDiagnostic::new(
            "Token inválido".to_owned(),
            Some(line_for(location, input)),
        ),
        SyntaxFault::UnrecognizedToken { start, end, expected } => {
            let mut message = "Token no reconocido, se esperaba uno de: ".to_owned();
            let list = debug_list(&expected);
            message.append(list.as_str());
            SyntaxDiagnostic::new(message, Some(line_for(start, input)))
        },
        SyntaxFault::ExtraToken { start, end } => SyntaxDiagnostic::new(
            "Token extra".to_owned(),
            Some(line_for(start, input)),
        ),
        SyntaxFault::UnrecognizedEof { location, expected } => {
            let mut message = "EOF inesperado, se esperaba: ".to_owned();
            let list = debug_list(&expected);
            message.append(list.as_str());
            SyntaxDiagnostic::new(message, Some(line_for(location, input)))
        },
        SyntaxFault::User { error } => SyntaxDiagnostic::new(error, None),
    }
}

/// The diagnostic for an error of the generated parser: the one of the
/// fault that the error stands for.
pub fn map_lalrpop_error<'a>(
    err: lalrpop_util::ParseError<usize, lalrpop_util::lexer::Token<'a>, &'a str>,
    input: &str,
) -> (e: SyntaxDiagnostic)
    ensures
        reports(e, parsed_fault(err), input),
{
    let fault = classify(err);
    map_syntax_fault(fault, input)
}

} // verus!
