//! The syntax tree: atoms, expressions and the program that owns them.
//!
//! Every node owns its children; a tree is built once and then only read.
use vstd::prelude::*;
use vstd::string::StringExecFns;
use crate::text::{chars_of, join2};
use crate::tokens::{BinOp, GroupingOperator, Identifier, Keyword, Literal, Position, UnaryOperator};

verus! {

/// A parenthesised expression.
#[derive(Debug)]
pub struct Group {
    pub expression: Box<Expression>,
}

/// A terminal form: a literal, a variable reference or a group.
#[derive(Debug)]
pub enum Atom {
    NumberLiteral(Literal),
    BooleanLiteral(Literal),
    StringLiteral(Literal),
    Variable(Identifier),
    Group(Group),
}

#[derive(Debug)]
pub struct ExpressionList {
    pub expressions: Vec<Expression>,
}

#[derive(Debug)]
pub struct Block {
    pub open_brace: GroupingOperator,
    pub close_brace: GroupingOperator,
    pub expression_list: ExpressionList,
}

#[derive(Debug)]
pub struct BinaryOp {
    pub left: Box<Expression>,
    pub right: Box<Expression>,
    pub operator: BinOp,
}

#[derive(Debug)]
pub struct UnaryOp {
    pub op: UnaryOperator,
    pub expr: Box<Expression>,
}

#[derive(Debug)]
pub struct IfElse {
    pub if_kw: Keyword,
    pub condition: Box<Expression>,
    pub then_branch: Box<Expression>,
    /// Each further guarded branch: its keyword, its condition, its body.
    pub elif_branches: Vec<(Keyword, Expression, Expression)>,
    pub else_kw: Option<Keyword>,
    pub else_branch: Option<Box<Expression>>,
}

/// One binding of a `let`, or one property of a type declaration.
#[derive(Debug)]
pub struct Assignment {
    pub variable: Atom,
    pub op: BinOp,
    pub body: Box<Expression>,
}

#[derive(Debug)]
pub struct LetIn {
    pub let_token: Keyword,
    pub bindings: Vec<Assignment>,
    pub in_token: Keyword,
    pub body: Box<Expression>,
}

#[derive(Debug)]
pub struct While {
    pub while_token: Keyword,
    pub cond: Box<Expression>,
    pub body: Box<Expression>,
}

#[derive(Debug)]
pub struct For {
    pub for_token: Keyword,
    pub var: Box<Expression>,
    pub in_token: Keyword,
    pub iterable: Box<Expression>,
    pub body: Box<Expression>,
}

/// A print statement as the parser first sees it.
#[derive(Debug)]
pub struct Print {
    pub print_token: Keyword,
    pub expression: Box<Expression>,
}

#[derive(Debug)]
pub struct FunctionCall {
    pub funct_name: Identifier,
    pub arguments: Vec<Expression>,
}

/// A parameter: its name and the type it is declared with, as written.
#[derive(Debug, Clone)]
pub struct FunctionParams {
    pub name: Identifier,
    pub signature: String,
}

#[derive(Debug)]
pub struct FunctionDef {
    pub function_kw: Keyword,
    pub name: Identifier,
    pub params: Vec<FunctionParams>,
    /// The declared result type, as written; empty when none was declared.
    pub return_type: String,
    pub body: Box<Expression>,
    pub is_inline: bool,
}

#[derive(Debug)]
pub struct Declarationtypes {
    pub name_types: Identifier,
    pub properties: Vec<Assignment>,
    pub functions: Vec<FunctionDef>,
    pub build: Vec<FunctionParams>,
}

#[derive(Debug)]
pub struct InstantingTypes {
    pub referenced_type: Identifier,
    pub params: Vec<Expression>,
}

#[derive(Debug)]
pub struct AccessTypeProp {
    pub referenced_type: Expression,
    pub properties: Identifier,
    pub params: Vec<Expression>,
}

#[derive(Debug)]
pub enum Expression {
    BinaryOp(BinaryOp),
    Atom(Box<Atom>),
    IfElse(Box<IfElse>),
    LetIn(Box<LetIn>),
    For(Box<For>),
    Print(Box<Expression>, Position),
    While(Box<While>),
    Block(Box<Block>),
    UnaryOp(UnaryOp),
    Range(Box<Expression>, Box<Expression>),
    FunctionCall(FunctionCall),
    FunctionDef(FunctionDef),
    TypeDeclaration(Box<Declarationtypes>),
    TypeInstantiation(Box<InstantingTypes>),
    TypeMethodAccess(Box<AccessTypeProp>),
    TypePropertyAccess(Box<AccessTypeProp>),
}

#[derive(Debug)]
pub struct Program {
    pub expression_list: ExpressionList,
}

/// Whether `c` is one of the ten decimal digits.
pub open spec fn is_digit(c: char) -> bool {
    '0' <= c && c <= '9'
}

/// The number that a decimal digit stands for.
pub open spec fn digit_value(c: char) -> nat {
    (c as u8 - 48) as nat
}

/// The number that a run of decimal digits writes.
pub open spec fn digits_value(s: Seq<char>) -> nat
    decreases s.len(),
{
    if s.len() == 0 {
        0
    } else {
        digits_value(s.drop_last()) * 10 + digit_value(s.last())
    }
}

/// Whether `s` opens with a plus or minus sign.
pub open spec fn has_sign(s: Seq<char>) -> bool {
    s.len() > 0 && (s[0] == '-' || s[0] == '+')
}

/// `s` without its sign, if it has one.
pub open spec fn unsigned_part(s: Seq<char>) -> Seq<char> {
    if has_sign(s) {
        s.skip(1)
    } else {
        s
    }
}

/// Whether `s` is one or more decimal digits and nothing else.
pub open spec fn all_digits(s: Seq<char>) -> bool {
    s.len() > 0 && forall|i: int| 0 <= i < s.len() ==> is_digit(#[trigger] s[i])
}

/// The integer that a signed decimal numeral writes.
pub open spec fn signed_value(s: Seq<char>) -> int {
    if has_sign(s) && s[0] == '-' {
        -(digits_value(unsigned_part(s)) as int)
    } else {
        digits_value(unsigned_part(s)) as int
    }
}

/// The 32-bit signed integer that `s` writes in decimal: an optional sign,
/// then one or more digits and nothing else. `None` when `s` has another
/// shape or the number does not fit.
pub open spec fn parse_i32(s: Seq<char>) -> Option<int> {
    if all_digits(unsigned_part(s)) && i32::MIN <= signed_value(s) <= i32::MAX {
        Some(signed_value(s))
    } else {
        None
    }
}

/// The truth value that `s` writes: exactly `true` or `false`.
pub open spec fn parse_bool(s: Seq<char>) -> Option<bool> {
    if s == "true"@ {
        Some(true)
    } else if s == "false"@ {
        Some(false)
    } else {
        None
    }
}

/// Why a word could not be read as a number literal.
pub open spec fn bad_number_message(value: Seq<char>) -> Seq<char> {
    "No se pudo convertir '"@ + value + "' a número"@
}

/// Why a word could not be read as a boolean literal.
pub open spec fn bad_boolean_message(value: Seq<char>) -> Seq<char> {
    "No se pudo convertir '"@ + value + "' a booleano"@
}

/// Reads a decimal 32-bit signed integer.
pub fn read_i32(value: &str) -> (r: Option<i32>)
    ensures
        match r {
            Some(n) => parse_i32(value@) == Some(n as int),
            None => parse_i32(value@) is None,
        },
{
    let chars = chars_of(value);
    let n = chars.len();
    let signed = n > 0 && (chars[0] == '-' || chars[0] == '+');
    let first: usize = if signed {
        1
    } else {
        0
    };
    let ghost body = unsigned_part(value@);
    if first == n {
        return None;
    }
    // One past the largest magnitude that a 32-bit signed integer can have.
    let cap: u64 = 2147483649;
    let mut acc: u64 = 0;
    let mut i: usize = first;
    while i < n
        invariant
            chars@ == value@,
            n == chars.len(),
            first <= i <= n,
            first == if signed { 1usize } else { 0usize },
            signed == has_sign(value@),
            body == unsigned_part(value@),
            cap == 2147483649,
            forall|k: int| 0 <= k < i - first ==> is_digit(#[trigger] body[k]),
            acc == if digits_value(body.take(i - first)) <= cap {
                digits_value(body.take(i - first))
            } else {
                cap as nat
            },
        decreases n - i,
    {
        let c = chars[i];
        assert(body[i - first] == c);
        if !('0' <= c && c <= '9') {
            assert(!is_digit(body[i - first]));
            return None;
        }
        let d: u64 = (c as u8 - 48) as u64;
        assert(body.take(i + 1 - first).drop_last() =~= body.take(i - first));
        let next = acc * 10 + d;
        acc = if next <= cap {
            next
        } else {
            cap
        };
        i += 1;
    }
    assert(body.take(n - first) =~= body);
    if signed && chars[0] == '-' {
        if acc <= 2147483648 {
            let wide: i64 = -(acc as i64);
            Some(wide as i32)
        } else {
            None
        }
    } else {
        if acc <= 2147483647 {
            Some(acc as i32)
        } else {
            None
        }
    }
}

impl Group {
    pub fn new(expression: Expression) -> (g: Self)
        ensures
            g == (Group { expression: Box::new(expression) }),
    {
        Group { expression: Box::new(expression) }
    }
}

impl Atom {
    /// A number literal at `start..end`, or why `value` is not one.
    pub fn new_number_literal(start: usize, end: usize, value: &str) -> (r: Result<Self, String>)
        ensures
            match r {
                Ok(atom) => parse_i32(value@) matches Some(n) && atom == Atom::NumberLiteral(
                    Literal::Number(n as i32, Position { start, end }),
                ),
                Err(message) => parse_i32(value@) is None && message@ == bad_number_message(
                    value@,
                ),
            },
    {
        match read_i32(value) {
            Some(num) => Ok(Atom::NumberLiteral(Literal::Number(num, Position::new(start, end)))),
            None => {
                let mut message = join2("No se pudo convertir '", value);
                message.append("' a número");
                Err(message)
            },
        }
    }

    /// A boolean literal at `start..end`, or why `value` is not one.
    pub fn new_boolean_literal(start: usize, end: usize, value: &str) -> (r: Result<Self, String>)
        ensures
            match r {
                Ok(atom) => parse_bool(value@) matches Some(b) && atom == Atom::BooleanLiteral(
                    Literal::Bool(b, Position { start, end }),
                ),
                Err(message) => parse_bool(value@) is None && message@ == bad_boolean_message(
                    value@,
                ),
            },
    {
        let word = value.to_owned();
        let yes = "true".to_owned();
        let no = "false".to_owned();
        if word == yes {
            Ok(Atom::BooleanLiteral(Literal::Bool(true, Position::new(start, end))))
        } else if word == no {
            Ok(Atom::BooleanLiteral(Literal::Bool(false, Position::new(start, end))))
        } else {
            let mut message = join2("No se pudo convertir '", value);
            message.append("' a booleano");
            Err(message)
        }
    }

    pub fn new_string_literal(start: usize, end: usize, value: &str) -> (atom: Self)
        ensures
            atom matches Atom::StringLiteral(Literal::Str(s, p)) && s@ == value@ && p == (Position {
                start,
                end,
            }),
    {
        Atom::StringLiteral(Literal::Str(value.to_owned(), Position::new(start, end)))
    }

    pub fn new_identifier(start: usize, end: usize, id: &str) -> (atom: Self)
        ensures
            atom matches Atom::Variable(i) && i.name@ == id@ && i.position == (Position {
                start,
                end,
            }),
    {
        Atom::Variable(Identifier { name: id.to_owned(), position: Position::new(start, end) })
    }

    pub fn new_group(expression: Expression) -> (atom: Self)
        ensures
            atom == Atom::Group(Group { expression: Box::new(expression) }),
    {
        Atom::Group(Group::new(expression))
    }
}

impl ExpressionList {
    pub fn new(expressions: Vec<Expression>) -> (l: Self)
        ensures
            l.expressions == expressions,
    {
        ExpressionList { expressions }
    }
}

impl Block {
    pub fn new(
        open_brace: GroupingOperator,
        expression_list: ExpressionList,
        close_brace: GroupingOperator,
    ) -> (b: Self)
        ensures
            b == (Block { open_brace, close_brace, expression_list }),
    {
        Block { open_brace, close_brace, expression_list }
    }
}

impl BinaryOp {
    pub fn new(left: Expression, right: Expression, operator: BinOp) -> (b: Self)
        ensures
            b == (BinaryOp { left: Box::new(left), right: Box::new(right), operator }),
    {
        BinaryOp { left: Box::new(left), right: Box::new(right), operator }
    }
}

impl UnaryOp {
    pub fn new(op: UnaryOperator, expr: Expression) -> (u: Self)
        ensures
            u == (UnaryOp { op, expr: Box::new(expr) }),
    {
        UnaryOp { op, expr: Box::new(expr) }
    }
}

impl IfElse {
    pub fn new(
        if_kw: Keyword,
        condition: Expression,
        then_branch: Expression,
        elif_branches: Vec<(Keyword, Expression, Expression)>,
        else_kw: Option<Keyword>,
        else_branch: Option<Expression>,
    ) -> (i: Self)
        ensures
            i.if_kw == if_kw,
            *i.condition == condition,
            *i.then_branch == then_branch,
            i.elif_branches == elif_branches,
            i.else_kw == else_kw,
            match else_branch {
                Some(e) => i.else_branch == Some(Box::new(e)),
                None => i.else_branch is None,
            },
    {
        let boxed = match else_branch {
            Some(e) => Some(Box::new(e)),
            None => None,
        };
        IfElse {
            if_kw,
            condition: Box::new(condition),
            then_branch: Box::new(then_branch),
            elif_branches,
            else_kw,
            else_branch: boxed,
        }
    }
}

impl Assignment {
    /// Binds `variable`, which must be a variable reference, to `body`.
    pub fn new(variable: Atom, op: BinOp, body: Expression) -> (a: Self)
        requires
            variable is Variable,
        ensures
            a == (Assignment { variable, op, body: Box::new(body) }),
    {
        Assignment { variable, op, body: Box::new(body) }
    }
}

impl LetIn {
    pub fn new(let_token: Keyword, bindings: Vec<Assignment>, in_token: Keyword, body: Expression) -> (l:
        Self)
        ensures
            l == (LetIn { let_token, bindings, in_token, body: Box::new(body) }),
    {
        LetIn { let_token, bindings, in_token, body: Box::new(body) }
    }
}

impl While {
    pub fn new(while_token: Keyword, cond: Expression, body: Expression) -> (w: Self)
        ensures
            w == (While { while_token, cond: Box::new(cond), body: Box::new(body) }),
    {
        While { while_token, cond: Box::new(cond), body: Box::new(body) }
    }
}

impl For {
    pub fn new(
        for_token: Keyword,
        var: Expression,
        in_token: Keyword,
        iterable: Expression,
        body: Expression,
    ) -> (f: Self)
        ensures
            f == (For {
                for_token,
                var: Box::new(var),
                in_token,
                iterable: Box::new(iterable),
                body: Box::new(body),
            }),
    {
        For {
            for_token,
            var: Box::new(var),
            in_token,
            iterable: Box::new(iterable),
            body: Box::new(body),
        }
    }
}

impl Print {
    pub fn new(print_token: Keyword, expression: Expression) -> (p: Self)
        ensures
            p == (Print { print_token, expression: Box::new(expression) }),
    {
        Print { print_token, expression: Box::new(expression) }
    }
}

impl FunctionCall {
    pub fn new(funct_name: Identifier, arguments: Vec<Expression>) -> (c: Self)
        ensures
            c == (FunctionCall { funct_name, arguments }),
    {
        FunctionCall { funct_name, arguments }
    }
}

impl FunctionParams {
    pub fn new(name: Identifier, signature: String) -> (p: Self)
        ensures
            p == (FunctionParams { name, signature }),
    {
        FunctionParams { name, signature }
    }
}

impl FunctionDef {
    /// A function with no declared result type.
    pub fn new(
        function_kw: Keyword,
        name: Identifier,
        params: Vec<FunctionParams>,
        expr: Box<Expression>,
        is_inline: bool,
    ) -> (d: Self)
        ensures
            d.function_kw == function_kw,
            d.name == name,
            d.params == params,
            d.return_type@ == Seq::<char>::empty(),
            d.body == expr,
            d.is_inline == is_inline,
    {
        FunctionDef { function_kw, name, params, return_type: String::new(), body: expr, is_inline }
    }

    /// The same function, declared to return the type that `signature` names.
    pub fn with_return_type(self, signature: &str) -> (d: Self)
        ensures
            d.function_kw == self.function_kw,
            d.name == self.name,
            d.params == self.params,
            d.return_type@ == signature@,
            d.body == self.body,
            d.is_inline == self.is_inline,
    {
        FunctionDef {
            function_kw: self.function_kw,
            name: self.name,
            params: self.params,
            return_type: signature.to_owned(),
            body: self.body,
            is_inline: self.is_inline,
        }
    }
}

impl Declarationtypes {
    pub fn new_expr(
        name_types: Identifier,
        properties: Vec<Assignment>,
        functions: Vec<FunctionDef>,
        build: Vec<FunctionParams>,
    ) -> (d: Self)
        ensures
            d == (Declarationtypes { name_types, properties, functions, build }),
    {
        Declarationtypes { name_types, properties, functions, build }
    }
}

impl InstantingTypes {
    pub fn new_expr(referenced_type: Identifier, params: Vec<Expression>) -> (i: Self)
        ensures
            i == (InstantingTypes { referenced_type, params }),
    {
        InstantingTypes { referenced_type, params }
    }
}

impl AccessTypeProp {
    /// A method call on `referenced_type`.
    pub fn new_expr(referenced_type: Expression, properties: Identifier, params: Vec<Expression>) -> (a:
        Self)
        ensures
            a == (AccessTypeProp { referenced_type, properties, params }),
    {
        AccessTypeProp { referenced_type, properties, params }
    }

    /// A property read on `referenced_type`: an access without arguments.
    pub fn new_property_expr(referenced_type: Expression, properties: Identifier) -> (a: Self)
        ensures
            a.referenced_type == referenced_type,
            a.properties == properties,
            a.params@.len() == 0,
    {
        AccessTypeProp { referenced_type, properties, params: Vec::new() }
    }
}

impl Expression {
    pub fn new_type_property_access(acc: AccessTypeProp) -> (e: Self)
        ensures
            e == Expression::TypePropertyAccess(Box::new(acc)),
    {
        Expression::TypePropertyAccess(Box::new(acc))
    }

    pub fn new_type_declaration(decl: Declarationtypes) -> (e: Self)
        ensures
            e == Expression::TypeDeclaration(Box::new(decl)),
    {
        Expression::TypeDeclaration(Box::new(decl))
    }

    pub fn new_type_instantiation(inst: InstantingTypes) -> (e: Self)
        ensures
            e == Expression::TypeInstantiation(Box::new(inst)),
    {
        Expression::TypeInstantiation(Box::new(inst))
    }

    pub fn new_type_method_access(acc: AccessTypeProp) -> (e: Self)
        ensures
            e == Expression::TypeMethodAccess(Box::new(acc)),
    {
        Expression::TypeMethodAccess(Box::new(acc))
    }

    pub fn new_range(start: Expression, end: Expression) -> (e: Self)
        ensures
            e == Expression::Range(Box::new(start), Box::new(end)),
    {
        Expression::Range(Box::new(start), Box::new(end))
    }

    pub fn new_for(forr: For) -> (e: Self)
        ensures
            e == Expression::For(Box::new(forr)),
    {
        Expression::For(Box::new(forr))
    }

    pub fn new_ifelse(ifelse: IfElse) -> (e: Self)
        ensures
            e == Expression::IfElse(Box::new(ifelse)),
    {
        Expression::IfElse(Box::new(ifelse))
    }

    pub fn new_binary_op(left: Expression, right: Expression, operator: BinOp) -> (e: Self)
        ensures
            e == Expression::BinaryOp(
                BinaryOp { left: Box::new(left), right: Box::new(right), operator },
            ),
    {
        Expression::BinaryOp(BinaryOp::new(left, right, operator))
    }

    pub fn new_unary_op(op: UnaryOperator, expr: Expression) -> (e: Self)
        ensures
            e == Expression::UnaryOp(UnaryOp { op, expr: Box::new(expr) }),
    {
        Expression::UnaryOp(UnaryOp::new(op, expr))
    }

    pub fn new_atom(atom: Atom) -> (e: Self)
        ensures
            e == Expression::Atom(Box::new(atom)),
    {
        Expression::Atom(Box::new(atom))
    }

    pub fn new_print(expr: Expression, pos: Position) -> (e: Self)
        ensures
            e == Expression::Print(Box::new(expr), pos),
    {
        Expression::Print(Box::new(expr), pos)
    }

    pub fn new_while(whilee: While) -> (e: Self)
        ensures
            e == Expression::While(Box::new(whilee)),
    {
        Expression::While(Box::new(whilee))
    }

    pub fn new_letin(letin: LetIn) -> (e: Self)
        ensures
            e == Expression::LetIn(Box::new(letin)),
    {
        Expression::LetIn(Box::new(letin))
    }

    pub fn new_block(block: Block) -> (e: Self)
        ensures
            e == Expression::Block(Box::new(block)),
    {
        Expression::Block(Box::new(block))
    }

    pub fn new_function_call(call: FunctionCall) -> (e: Self)
        ensures
            e == Expression::FunctionCall(call),
    {
        Expression::FunctionCall(call)
    }

    pub fn new_function_def(def: FunctionDef) -> (e: Self)
        ensures
            e == Expression::FunctionDef(def),
    {
        Expression::FunctionDef(def)
    }
}

impl Program {
    pub fn new(expression_list: ExpressionList) -> (p: Self)
        ensures
            p.expression_list == expression_list,
    {
        Program { expression_list }
    }
}

} // verus!
