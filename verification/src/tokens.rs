//! Source positions and the leaf tokens that syntax-tree nodes carry.
use vstd::prelude::*;
use vstd::string::{StringExecFns, StringSliceAdditionalSpecFns};
use crate::text::{int_text, int_to_text, join2};

verus! {

/// How many line feeds the byte sequence holds.
pub open spec fn newline_count(bytes: Seq<u8>) -> nat
    decreases bytes.len(),
{
    if bytes.len() == 0 {
        0
    } else {
        newline_count(bytes.drop_last()) + if bytes.last() == 10u8 {
            1nat
        } else {
            0nat
        }
    }
}

/// The one-based line on which byte offset `start` of `source` lies: one more
/// than the number of line feeds before it. An offset past the end counts as
/// the end, and the line number stops at the largest `usize`.
pub open spec fn line_at(source: Seq<u8>, start: nat) -> nat {
    let upto = if start <= source.len() {
        start
    } else {
        source.len()
    };
    let line = newline_count(source.take(upto as int)) + 1;
    if line <= usize::MAX {
        line
    } else {
        usize::MAX as nat
    }
}

/// A span of byte offsets into the source text.
#[derive(Debug, Clone, Copy, PartialEq, Eq, Structural)]
pub struct Position {
    pub start: usize,
    pub end: usize,
}

impl Position {
    pub fn new(start: usize, end: usize) -> (p: Self)
        ensures
            p.start == start,
            p.end == end,
    {
        Position { start, end }
    }

    /// The line of `input` on which this span starts.
    pub fn start_line(&self, input: &str) -> (line: usize)
        ensures
            line == line_at(input.spec_bytes(), self.start as nat),
    {
        let bytes = input.as_bytes();
        let upto = if self.start <= bytes.len() {
            self.start
        } else {
            bytes.len()
        };
        let mut count: usize = 0;
        let mut i: usize = 0;
        while i < upto
            invariant
                i <= upto <= bytes@.len(),
                count <= i,
                count == newline_count(bytes@.take(i as int)),
            decreases upto - i,
        {
            assert(bytes@.take(i + 1).drop_last() =~= bytes@.take(i as int));
            if bytes[i] == 10u8 {
                count += 1;
            }
            i += 1;
        }
        if count < usize::MAX {
            count + 1
        } else {
            count
        }
    }
}

/// A name as it was written, with where it was written.
#[derive(Debug, Clone)]
pub struct Identifier {
    pub name: String,
    pub position: Position,
}

impl Identifier {
    pub fn new(start: usize, end: usize, id: &str) -> (i: Self)
        ensures
            i.name@ == id@,
            i.position == (Position { start, end }),
    {
        Identifier { position: Position::new(start, end), name: id.to_owned() }
    }

    /// The name as text.
    pub fn text(&self) -> (s: String)
        ensures
            s@ == self.name@,
    {
        self.name.clone()
    }
}

/// A literal value with where it was written.
#[derive(Debug, Clone)]
pub enum Literal {
    Number(i32, Position),
    Str(String, Position),
    Bool(bool, Position),
}

/// How a truth value is written.
pub open spec fn bool_text(b: bool) -> Seq<char> {
    if b {
        "true"@
    } else {
        "false"@
    }
}

impl Literal {
    /// How the literal is written: a numeral, a quoted string, or a truth
    /// value.
    pub open spec fn text_spec(&self) -> Seq<char> {
        match self {
            Literal::Number(n, _) => int_text(*n as int),
            Literal::Str(s, _) => "\""@ + s@ + "\""@,
            Literal::Bool(b, _) => bool_text(*b),
        }
    }

    pub fn text(&self) -> (s: String)
        ensures
            s@ == self.text_spec(),
    {
        match self {
            Literal::Number(n, _) => int_to_text(*n),
            Literal::Str(s, _) => {
                let mut r = join2("\"", s.as_str());
                r.append("\"");
                r
            },
            Literal::Bool(b, _) => {
                if *b {
                    "true".to_owned()
                } else {
                    "false".to_owned()
                }
            },
        }
    }
}

/// A binary operator with where it was written.
#[derive(Debug, Clone, Copy)]
pub enum BinOp {
    Plus(Position),
    Minus(Position),
    Mul(Position),
    Div(Position),
    Mod(Position),
    EqualEqual(Position),
    NotEqual(Position),
    Greater(Position),
    Less(Position),
    GreaterEqual(Position),
    LessEqual(Position),
    AndAnd(Position),
    OrOr(Position),
    ConcatString(Position),
    Assign(Position),
}

/// The families of binary operators that the rules on operand types tell
/// apart.
#[derive(Debug, Clone, Copy, PartialEq, Eq, Structural)]
pub enum OperatorClass {
    Arithmetic,
    Comparison,
    Logical,
    Concatenation,
    Assignment,
}

impl BinOp {
    pub open spec fn position_spec(&self) -> Position {
        match self {
            BinOp::Plus(p) => *p,
            BinOp::Minus(p) => *p,
            BinOp::Mul(p) => *p,
            BinOp::Div(p) => *p,
            BinOp::Mod(p) => *p,
            BinOp::EqualEqual(p) => *p,
            BinOp::NotEqual(p) => *p,
            BinOp::Greater(p) => *p,
            BinOp::Less(p) => *p,
            BinOp::GreaterEqual(p) => *p,
            BinOp::LessEqual(p) => *p,
            BinOp::AndAnd(p) => *p,
            BinOp::OrOr(p) => *p,
            BinOp::ConcatString(p) => *p,
            BinOp::Assign(p) => *p,
        }
    }

    /// Where the operator was written.
    pub fn position(&self) -> (p: Position)
        ensures
            p == self.position_spec(),
    {
        match self {
            BinOp::Plus(p) => *p,
            BinOp::Minus(p) => *p,
            BinOp::Mul(p) => *p,
            BinOp::Div(p) => *p,
            BinOp::Mod(p) => *p,
            BinOp::EqualEqual(p) => *p,
            BinOp::NotEqual(p) => *p,
            BinOp::Greater(p) => *p,
            BinOp::Less(p) => *p,
            BinOp::GreaterEqual(p) => *p,
            BinOp::LessEqual(p) => *p,
            BinOp::AndAnd(p) => *p,
            BinOp::OrOr(p) => *p,
            BinOp::ConcatString(p) => *p,
            BinOp::Assign(p) => *p,
        }
    }

    pub open spec fn class_spec(&self) -> OperatorClass {
        match self {
            BinOp::Plus(_) | BinOp::Minus(_) | BinOp::Mul(_) | BinOp::Div(_) | BinOp::Mod(_) =>
                OperatorClass::Arithmetic,
            BinOp::EqualEqual(_)
            | BinOp::NotEqual(_)
            | BinOp::Greater(_)
            | BinOp::Less(_)
            | BinOp::GreaterEqual(_)
            | BinOp::LessEqual(_) => OperatorClass::Comparison,
            BinOp::AndAnd(_) | BinOp::OrOr(_) => OperatorClass::Logical,
            BinOp::ConcatString(_) => OperatorClass::Concatenation,
            BinOp::Assign(_) => OperatorClass::Assignment,
        }
    }

    /// The family the operator belongs to.
    pub fn class(&self) -> (c: OperatorClass)
        ensures
            c == self.class_spec(),
    {
        match self {
            BinOp::Plus(_) | BinOp::Minus(_) | BinOp::Mul(_) | BinOp::Div(_) | BinOp::Mod(_) =>
                OperatorClass::Arithmetic,
            BinOp::EqualEqual(_)
            | BinOp::NotEqual(_)
            | BinOp::Greater(_)
            | BinOp::Less(_)
            | BinOp::GreaterEqual(_)
            | BinOp::LessEqual(_) => OperatorClass::Comparison,
            BinOp::AndAnd(_) | BinOp::OrOr(_) => OperatorClass::Logical,
            BinOp::ConcatString(_) => OperatorClass::Concatenation,
            BinOp::Assign(_) => OperatorClass::Assignment,
        }
    }

    /// How the operator is written in source text.
    pub open spec fn text_spec(&self) -> Seq<char> {
        match self {
            BinOp::Plus(_) => "+"@,
            BinOp::Minus(_) => "-"@,
            BinOp::Mul(_) => "*"@,
            BinOp::Div(_) => "/"@,
            BinOp::Mod(_) => "%"@,
            BinOp::EqualEqual(_) => "=="@,
            BinOp::NotEqual(_) => "!="@,
            BinOp::Greater(_) => ">"@,
            BinOp::Less(_) => "<"@,
            BinOp::GreaterEqual(_) => ">="@,
            BinOp::LessEqual(_) => "<="@,
            BinOp::AndAnd(_) => "&&"@,
            BinOp::OrOr(_) => "||"@,
            BinOp::ConcatString(_) => "@"@,
            BinOp::Assign(_) => ":="@,
        }
    }

    pub fn text(&self) -> (s: &'static str)
        ensures
            s@ == self.text_spec(),
    {
        match self {
            BinOp::Plus(_) => "+",
            BinOp::Minus(_) => "-",
            BinOp::Mul(_) => "*",
            BinOp::Div(_) => "/",
            BinOp::Mod(_) => "%",
            BinOp::EqualEqual(_) => "==",
            BinOp::NotEqual(_) => "!=",
            BinOp::Greater(_) => ">",
            BinOp::Less(_) => "<",
            BinOp::GreaterEqual(_) => ">=",
            BinOp::LessEqual(_) => "<=",
            BinOp::AndAnd(_) => "&&",
            BinOp::OrOr(_) => "||",
            BinOp::ConcatString(_) => "@",
            BinOp::Assign(_) => ":=",
        }
    }
}

/// A unary operator with where it was written.
#[derive(Debug, Clone, Copy)]
pub enum UnaryOperator {
    Plus(Position),
    Minus(Position),
    Not(Position),
}

impl UnaryOperator {
    pub open spec fn position_spec(&self) -> Position {
        match self {
            UnaryOperator::Plus(p) => *p,
            UnaryOperator::Minus(p) => *p,
            UnaryOperator::Not(p) => *p,
        }
    }

    /// Where the operator was written.
    pub fn position(&self) -> (p: Position)
        ensures
            p == self.position_spec(),
    {
        match self {
            UnaryOperator::Plus(p) => *p,
            UnaryOperator::Minus(p) => *p,
            UnaryOperator::Not(p) => *p,
        }
    }

    /// How the operator is written in source text.
    pub open spec fn text_spec(&self) -> Seq<char> {
        match self {
            UnaryOperator::Plus(_) => "+"@,
            UnaryOperator::Minus(_) => "-"@,
            UnaryOperator::Not(_) => "!"@,
        }
    }

    pub fn text(&self) -> (s: &'static str)
        ensures
            s@ == self.text_spec(),
    {
        match self {
            UnaryOperator::Plus(_) => "+",
            UnaryOperator::Minus(_) => "-",
            UnaryOperator::Not(_) => "!",
        }
    }
}

/// A reserved word with where it was written.
#[derive(Debug, Clone, Copy)]
pub enum Keyword {
    Let(Position),
    In(Position),
    If(Position),
    Elif(Position),
    Else(Position),
    While(Position),
    For(Position),
    Function(Position),
    Print(Position),
    Type(Position),
    New(Position),
}

/// A bracket that opens or closes a group or a block.
#[derive(Debug, Clone, Copy, PartialEq, Eq, Structural)]
pub enum GroupingOperator {
    OpenParen,
    CloseParen,
    OpenBrace,
    CloseBrace,
}

impl GroupingOperator {
    /// How the bracket is written in source text.
    pub open spec fn text_spec(&self) -> Seq<char> {
        match self {
            GroupingOperator::OpenParen => "("@,
            GroupingOperator::CloseParen => ")"@,
            GroupingOperator::OpenBrace => "{"@,
            GroupingOperator::CloseBrace => "}"@,
        }
    }

    pub fn text(&self) -> (s: &'static str)
        ensures
            s@ == self.text_spec(),
    {
        match self {
            GroupingOperator::OpenParen => "(",
            GroupingOperator::CloseParen => ")",
            GroupingOperator::OpenBrace => "{",
            GroupingOperator::CloseBrace => "}",
        }
    }
}

} // verus!
