//! What checking means: the type that each construct has and the
//! diagnostics that it adds, stated as functions from the checker's state to
//! a type and the next state.
//!
//! Checking never stops early. A violated rule adds one line-tagged message
//! and the walk goes on, so one pass reports everything.
use vstd::prelude::*;
use crate::ast::{
    Assignment, Atom, BinaryOp, Block, Expression, For, FunctionCall, FunctionDef, FunctionParams,
    IfElse, LetIn, UnaryOp, While,
};
use crate::lowering::variable_name;
use crate::symbol_table::{bind, leave, resolve, ScopeSpec, Symbol};
use crate::text::{debug_text, nat_text};
use crate::tokens::{line_at, Keyword, Literal, OperatorClass, Position};
use crate::types::{parse_type, Ty};
use crate::visitor::Node;

verus! {

/// The checker's state, as a mathematical value.
pub struct CheckState {
    /// The scopes of names, innermost last.
    pub scopes: Seq<ScopeSpec>,
    /// The diagnostics so far, oldest first.
    pub errors: Seq<Seq<char>>,
    /// The bytes of the source text that positions point into.
    pub source: Seq<u8>,
}

/// The outcome of checking a construct: its type and the state afterwards.
pub struct Checked {
    pub ty: Ty,
    pub state: CheckState,
}

impl CheckState {
    /// The state after one more diagnostic is recorded.
    pub open spec fn report(self, message: Seq<char>) -> CheckState {
        CheckState { errors: self.errors.push(message), ..self }
    }

    /// The state after `message` is recorded if `fault` holds, and the same
    /// state otherwise.
    pub open spec fn report_if(self, fault: bool, message: Seq<char>) -> CheckState {
        if fault {
            self.report(message)
        } else {
            self
        }
    }

    pub open spec fn enter(self) -> CheckState {
        CheckState { scopes: self.scopes.push(Map::empty()), ..self }
    }

    pub open spec fn exit(self) -> CheckState {
        CheckState { scopes: leave(self.scopes), ..self }
    }

    /// The state after `name` is bound in the innermost scope.
    pub open spec fn declare(self, name: Seq<char>, symbol: Symbol) -> CheckState {
        CheckState { scopes: bind(self.scopes, name, symbol), ..self }
    }

    /// The line of the source on which `position` starts.
    pub open spec fn line(self, position: Position) -> nat {
        line_at(self.source, position.start as nat)
    }

    /// This state with type `ty` as an outcome.
    pub open spec fn typed(self, ty: Ty) -> Checked {
        Checked { ty, state: self }
    }
}

/// The tag that opens a diagnostic about line `line`.
pub open spec fn line_tag(line: nat) -> Seq<char> {
    "Línea "@ + nat_text(line) + ": "@
}

/// The tag for a line that may not be known: empty when it is not.
pub open spec fn optional_tag(line: Option<nat>) -> Seq<char> {
    match line {
        Some(l) => line_tag(l),
        None => Seq::empty(),
    }
}

/// How a type is named in a diagnostic: the name of its kind, and for a
/// custom type its own name too, written as a string is for debugging.
pub open spec fn type_text(ty: Ty) -> Seq<char> {
    match ty {
        Ty::Number => "Number"@,
        Ty::Boolean => "Boolean"@,
        Ty::String => "String"@,
        Ty::Object => "Object"@,
        Ty::Custom(name) => "Custom("@ + debug_text(name) + ")"@,
        Ty::Unknown => "Unknown"@,
    }
}

pub open spec fn undeclared_variable_message(line: nat, name: Seq<char>) -> Seq<char> {
    line_tag(line) + "Variable '"@ + name + "' no declarada"@
}

pub open spec fn undeclared_function_message(line: nat, name: Seq<char>) -> Seq<char> {
    line_tag(line) + "Función '"@ + name + "' no declarada."@
}

pub open spec fn arity_message(line: nat, name: Seq<char>, expected: nat, given: nat) -> Seq<char> {
    line_tag(line) + "Función '"@ + name + "' espera "@ + nat_text(expected)
        + " argumentos, pero se pasaron "@ + nat_text(given) + "."@
}

pub open spec fn argument_message(line: nat, got: Ty, expected: Ty, name: Seq<char>) -> Seq<char> {
    line_tag(line) + "El argumento tiene tipo '"@ + type_text(got) + "', pero se esperaba '"@
        + type_text(expected) + "' en la función '"@ + name + "'."@
}

/// What is wrong with the operands of an operator of class `class`.
pub open spec fn operand_message(class: OperatorClass, line: nat) -> Seq<char> {
    line_tag(line) + match class {
        OperatorClass::Arithmetic => "Operación aritmética requiere números"@,
        OperatorClass::Comparison => "Comparación entre tipos incompatibles"@,
        OperatorClass::Logical => "Operador lógico requiere booleanos"@,
        OperatorClass::Concatenation => "Concatenación requiere string o número"@,
        OperatorClass::Assignment => Seq::empty(),
    }
}

/// The condition after the keyword `word` is not a truth value.
pub open spec fn condition_message(line: Option<nat>, word: Seq<char>) -> Seq<char> {
    optional_tag(line) + "Condición de "@ + word + " debe ser booleana"@
}

/// What a `for` runs over is not a range.
pub open spec fn iterable_message(line: Option<nat>) -> Seq<char> {
    optional_tag(line) + "El iterable de for debe ser un rango"@
}

/// Whether operands of types `left` and `right` break the rule of an
/// operator of class `class`: arithmetic wants two numbers; a comparison
/// wants two operands of one type; a logical operator wants two truth
/// values; concatenation wants strings or numbers. Assignment has no rule.
pub open spec fn operands_rejected(class: OperatorClass, left: Ty, right: Ty) -> bool {
    match class {
        OperatorClass::Arithmetic => left != Ty::Number || right != Ty::Number,
        OperatorClass::Comparison => left != right,
        OperatorClass::Logical => left != Ty::Boolean || right != Ty::Boolean,
        OperatorClass::Concatenation => !(left == Ty::String || left == Ty::Number) || !(right
            == Ty::String || right == Ty::Number),
        OperatorClass::Assignment => false,
    }
}

/// The type of an expression whose operator has class `class`, whatever its
/// operands are: a rejected expression keeps the type of its class.
pub open spec fn class_type(class: OperatorClass) -> Ty {
    match class {
        OperatorClass::Arithmetic => Ty::Number,
        OperatorClass::Comparison => Ty::Boolean,
        OperatorClass::Logical => Ty::Boolean,
        OperatorClass::Concatenation => Ty::String,
        OperatorClass::Assignment => Ty::Unknown,
    }
}

/// The position that stands for an expression in a diagnostic about it,
/// where it has one: a variable's, a binary operator's, a called name's.
pub open spec fn expression_position(e: Expression) -> Option<Position> {
    match e {
        Expression::Atom(atom) => match *atom {
            Atom::Variable(id) => Some(id.position),
            _ => None,
        },
        Expression::BinaryOp(b) => Some(b.operator.position_spec()),
        Expression::FunctionCall(c) => Some(c.funct_name.position),
        _ => None,
    }
}

/// The line that stands for an expression in a diagnostic about it.
pub open spec fn expression_line(e: Expression, st: CheckState) -> Option<nat> {
    match expression_position(e) {
        Some(p) => Some(st.line(p)),
        None => None,
    }
}

/// A reference to a variable has the type recorded for it. A name that
/// resolves to no variable adds one diagnostic and has type `Unknown`.
pub open spec fn check_variable(name: Seq<char>, position: Position, st: CheckState) -> Checked {
    match resolve(st.scopes, name) {
        Some(Symbol::Variable { var_type }) => st.typed(var_type),
        _ => st.report(undeclared_variable_message(st.line(position), name)).typed(Ty::Unknown),
    }
}

pub open spec fn check_atom(atom: Atom, st: CheckState) -> Checked
    decreases atom, 0nat,
{
    match atom {
        Atom::NumberLiteral(_) => st.typed(Ty::Number),
        Atom::BooleanLiteral(_) => st.typed(Ty::Boolean),
        Atom::StringLiteral(_) => st.typed(Ty::String),
        Atom::Variable(id) => check_variable(id.name@, id.position, st),
        Atom::Group(group) => check_expression(*group.expression, st),
    }
}

/// Both operands are checked, left first. An assignment to a variable then
/// records the variable anew, in the innermost scope, with the type of the
/// right side. Any other operator reports operands that its class rejects
/// and has the type of its class either way.
pub open spec fn check_binary_op(b: BinaryOp, st: CheckState) -> Checked
    decreases b, 0nat,
{
    let left = check_expression(*b.left, st);
    let right = check_expression(*b.right, left.state);
    let class = b.operator.class_spec();
    if class == OperatorClass::Assignment {
        match variable_name(*b.left) {
            Some(name) => right.state.declare(name, Symbol::Variable { var_type: right.ty }).typed(
                Ty::Unknown,
            ),
            None => right.state.typed(Ty::Unknown),
        }
    } else {
        right.state.report_if(
            operands_rejected(class, left.ty, right.ty),
            operand_message(class, right.state.line(b.operator.position_spec())),
        ).typed(class_type(class))
    }
}

/// A sign wants a number and gives a number; logical not wants a truth
/// value and gives one.
pub open spec fn check_unary_op(u: UnaryOp, st: CheckState) -> Checked
    decreases u, 0nat,
{
    let operand = check_expression(*u.expr, st);
    let class = if u.op is Not {
        OperatorClass::Logical
    } else {
        OperatorClass::Arithmetic
    };
    operand.state.report_if(
        operand.ty != class_type(class),
        operand_message(class, operand.state.line(u.op.position_spec())),
    ).typed(class_type(class))
}

/// The state after the expressions from position `from` on are checked in
/// order.
pub open spec fn check_sequence(exprs: Seq<Expression>, from: nat, st: CheckState) -> CheckState
    decreases exprs, exprs.len() - from,
{
    if from >= exprs.len() {
        st
    } else {
        check_sequence(exprs, from + 1, check_expression(exprs[from as int], st).state)
    }
}

pub open spec fn check_block(b: Block, st: CheckState) -> Checked
    decreases b, 0nat,
{
    check_sequence(b.expression_list.expressions@, 0, st.enter()).exit().typed(Ty::Unknown)
}

/// The state after the bindings from position `from` on are checked in
/// order: each value is checked first, and then its variable is recorded
/// with the value's type, so that a binding sees the ones before it.
pub open spec fn check_bindings(bindings: Seq<Assignment>, from: nat, st: CheckState) -> CheckState
    decreases bindings, bindings.len() - from,
{
    if from >= bindings.len() {
        st
    } else {
        let value = check_expression(*bindings[from as int].body, st);
        check_bindings(
            bindings,
            from + 1,
            match bindings[from as int].variable {
                Atom::Variable(id) => value.state.declare(
                    id.name@,
                    Symbol::Variable { var_type: value.ty },
                ),
                _ => value.state,
            },
        )
    }
}

pub open spec fn check_letin(l: LetIn, st: CheckState) -> Checked
    decreases l, 0nat,
{
    check_expression(*l.body, check_bindings(l.bindings@, 0, st.enter())).state.exit().typed(
        Ty::Unknown,
    )
}

/// The state after a condition is checked: a condition that is not a truth
/// value adds one diagnostic, tagged with the condition's line where it has
/// one.
pub open spec fn check_condition(cond: Expression, word: Seq<char>, st: CheckState) -> CheckState
    decreases cond, 2nat,
{
    let c = check_expression(cond, st);
    c.state.report_if(
        c.ty != Ty::Boolean,
        condition_message(expression_line(cond, c.state), word),
    )
}

/// The state after the `elif` branches from position `from` on are checked
/// in order, each condition before its branch.
pub open spec fn check_elifs(
    branches: Seq<(Keyword, Expression, Expression)>,
    from: nat,
    st: CheckState,
) -> CheckState
    decreases branches, branches.len() - from,
{
    if from >= branches.len() {
        st
    } else {
        check_elifs(
            branches,
            from + 1,
            check_expression(
                branches[from as int].2,
                check_condition(branches[from as int].1, "elif"@, st),
            ).state,
        )
    }
}

/// A conditional checks its condition, its first branch, each `elif` in
/// source order and then its `else` branch if it has one.
pub open spec fn check_ifelse(i: IfElse, st: CheckState) -> Checked
    decreases i, 0nat,
{
    let s1 = check_expression(*i.then_branch, check_condition(*i.condition, "if"@, st)).state;
    let s2 = check_elifs(i.elif_branches@, 0, s1);
    match i.else_branch {
        Some(e) => check_expression(*e, s2).state.typed(Ty::Unknown),
        None => s2.typed(Ty::Unknown),
    }
}

pub open spec fn check_while(w: While, st: CheckState) -> Checked
    decreases w, 0nat,
{
    check_expression(*w.body, check_condition(*w.cond, "while"@, st)).state.typed(Ty::Unknown)
}

/// A `for` checks what it runs over in the enclosing scope and reports it
/// when it is not a range. The loop variable is a number, bound in a scope
/// of the loop's own that ends with the loop.
pub open spec fn check_for(f: For, st: CheckState) -> Checked
    decreases f, 0nat,
{
    let s1 = check_expression(*f.iterable, st).state;
    let s2 = s1.report_if(
        !(*f.iterable is Range),
        iterable_message(expression_line(*f.iterable, s1)),
    ).enter();
    let s3 = match variable_name(*f.var) {
        Some(name) => s2.declare(name, Symbol::Variable { var_type: Ty::Number }),
        None => s2,
    };
    check_expression(*f.body, s3).state.exit().typed(Ty::Unknown)
}

/// The state after the arguments from position `from` on are checked in
/// order. An argument in the position of a declared parameter whose type is
/// not the parameter's adds one diagnostic.
pub open spec fn check_arguments(
    args: Seq<Expression>,
    from: nat,
    params: Seq<Ty>,
    name: Seq<char>,
    line: nat,
    st: CheckState,
) -> CheckState
    decreases args, args.len() - from,
{
    if from >= args.len() {
        st
    } else {
        let arg = check_expression(args[from as int], st);
        check_arguments(
            args,
            from + 1,
            params,
            name,
            line,
            arg.state.report_if(
                from < params.len() && arg.ty != params[from as int],
                argument_message(line, arg.ty, params[from as int], name),
            ),
        )
    }
}

/// A call to a recorded function has the function's result type. It
/// reports a wrong number of arguments and then checks each argument against
/// its parameter. A call to anything else adds one diagnostic, checks the
/// arguments all the same, and has type `Unknown`.
pub open spec fn check_function_call(c: FunctionCall, st: CheckState) -> Checked
    decreases c, 0nat,
{
    let name = c.funct_name.name@;
    let line = st.line(c.funct_name.position);
    match resolve(st.scopes, name) {
        Some(Symbol::Function { return_type, param_types }) => check_arguments(
            c.arguments@,
            0,
            param_types,
            name,
            line,
            st.report_if(
                param_types.len() != c.arguments@.len(),
                arity_message(line, name, param_types.len(), c.arguments@.len()),
            ),
        ).typed(return_type),
        _ => check_sequence(
            c.arguments@,
            0,
            st.report(undeclared_function_message(line, name)),
        ).typed(Ty::Unknown),
    }
}

/// The types that the parameters are declared with.
pub open spec fn declared_types(params: Seq<FunctionParams>) -> Seq<Ty> {
    Seq::new(params.len(), |i: int| parse_type(params[i].signature@))
}

/// The state after the parameters from position `from` on are bound, each
/// as a variable of its declared type.
pub open spec fn declare_parameters(params: Seq<FunctionParams>, from: nat, st: CheckState) -> CheckState
    decreases params.len() - from,
{
    if from >= params.len() {
        st
    } else {
        declare_parameters(
            params,
            from + 1,
            st.declare(
                params[from as int].name.name@,
                Symbol::Variable { var_type: parse_type(params[from as int].signature@) },
            ),
        )
    }
}

/// A definition records its signature in the current scope before its body
/// is checked, so that the body and what follows can call it. The body is
/// checked in a scope of its own that holds the parameters.
pub open spec fn check_function_def(d: FunctionDef, st: CheckState) -> Checked
    decreases d, 0nat,
{
    let recorded = st.declare(
        d.name.name@,
        Symbol::Function {
            return_type: parse_type(d.return_type@),
            param_types: declared_types(d.params@),
        },
    );
    check_expression(*d.body, declare_parameters(d.params@, 0, recorded.enter())).state.exit().typed(
        Ty::Unknown,
    )
}

/// The type of an expression and the state after it is checked. Only atoms,
/// calls and operators have a type of their own; declarations and uses of
/// user-defined types are not checked.
pub open spec fn check_expression(e: Expression, st: CheckState) -> Checked
    decreases e, 1nat,
{
    match e {
        Expression::BinaryOp(b) => check_binary_op(b, st),
        Expression::Atom(atom) => check_atom(*atom, st),
        Expression::IfElse(i) => check_ifelse(*i, st),
        Expression::LetIn(l) => check_letin(*l, st),
        Expression::For(f) => check_for(*f, st),
        Expression::Print(inner, _) => check_expression(*inner, st).state.typed(Ty::Unknown),
        Expression::While(w) => check_while(*w, st),
        Expression::Block(b) => check_block(*b, st),
        Expression::UnaryOp(u) => check_unary_op(u, st),
        Expression::Range(start, end) => check_expression(
            *end,
            check_expression(*start, st).state,
        ).state.typed(Ty::Unknown),
        Expression::FunctionCall(c) => check_function_call(c, st),
        Expression::FunctionDef(d) => check_function_def(d, st),
        Expression::TypeDeclaration(_) => st.typed(Ty::Unknown),
        Expression::TypeInstantiation(_) => st.typed(Ty::Unknown),
        Expression::TypeMethodAccess(_) => st.typed(Ty::Unknown),
        Expression::TypePropertyAccess(_) => st.typed(Ty::Unknown),
    }
}

/// The state in which checking of `source` starts: one empty scope and no
/// diagnostics.
pub open spec fn start_state(source: Seq<u8>) -> CheckState {
    CheckState { scopes: seq![Map::empty()], errors: Seq::empty(), source }
}

/// The state after one binding is checked: its value first, then its
/// variable recorded with the value's type.
pub open spec fn check_assignment(a: Assignment, st: CheckState) -> CheckState {
    let value = check_expression(*a.body, st);
    match a.variable {
        Atom::Variable(id) => value.state.declare(
            id.name@,
            Symbol::Variable { var_type: value.ty },
        ),
        _ => value.state,
    }
}

/// The type that a literal has by what it holds.
pub open spec fn literal_type(lit: Literal) -> Ty {
    match lit {
        Literal::Number(_, _) => Ty::Number,
        Literal::Str(_, _) => Ty::String,
        Literal::Bool(_, _) => Ty::Boolean,
    }
}

/// The outcome of checking a node as a callback of the checker receives
/// it.
pub open spec fn check_node(node: Node, st: CheckState) -> Checked {
    match node {
        Node::Program(p) => check_sequence(p.expression_list.expressions@, 0, st).typed(
            Ty::Unknown,
        ),
        Node::ExpressionList(l) => check_sequence(l.expressions@, 0, st).typed(Ty::Unknown),
        Node::Expression(e) => check_expression(e, st),
        Node::Atom(a) => check_atom(a, st),
        Node::BinaryOp(b) => check_binary_op(b, st),
        Node::LetIn(l) => check_letin(l, st),
        Node::Assignment(a) => check_assignment(a, st).typed(Ty::Unknown),
        Node::Block(b) => check_block(b, st),
        Node::Literal(l) => st.typed(literal_type(l)),
        Node::Identifier(i) => check_variable(i.name@, i.position, st),
        Node::Print(e) => check_expression(e, st).state.typed(Ty::Unknown),
        Node::While(w) => check_while(w, st),
        Node::IfElse(i) => check_ifelse(i, st),
        Node::Group(g) => check_expression(*g.expression, st),
        Node::UnaryOp(u) => check_unary_op(u, st),
        Node::For(f) => check_for(f, st),
        Node::Range(start, end) => check_expression(
            end,
            check_expression(start, st).state,
        ).state.typed(Ty::Unknown),
        Node::FunctionCall(c) => check_function_call(c, st),
        Node::FunctionDef(d) => check_function_def(d, st),
        Node::TypeDeclaration(_) => st.typed(Ty::Unknown),
        Node::TypeInstantiation(_) => st.typed(Ty::Unknown),
        Node::TypeAccess(_) => st.typed(Ty::Unknown),
    }
}

} // verus!
