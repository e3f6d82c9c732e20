//! What lowering means: the intermediate text that each construct of the
//! tree becomes, stated as functions from the generator's state to its next
//! state.
//!
//! The text is a register and basic-block form. A temporary is written once
//! and never again; a slot is storage that loads and stores go through.
use vstd::prelude::*;
use vstd::utf8::encode_utf8;
use crate::ast::{
    Assignment, Atom, BinaryOp, Block, Expression, For, FunctionCall, FunctionDef, FunctionParams,
    IfElse, LetIn, UnaryOp, While,
};
use crate::symbol_table::{bind, leave, resolve, ScopeSpec, Symbol};
use crate::text::{int_text, nat_text};
use crate::tokens::{BinOp, Literal, UnaryOperator};
use crate::types::{parse_type, Ty};
use crate::visitor::Node;

verus! {

/// Why lowering stopped. Each is a broken assumption about a tree that the
/// checker has passed, or a counter that ran out.
#[derive(Debug, Clone, Copy, PartialEq, Eq, Structural)]
pub enum GenError {
    /// A variable is read or assigned that no enclosing scope has a slot for.
    UndeclaredVariable,
    /// The target of an assignment or of a binding is not a variable.
    InvalidAssignmentTarget,
    /// A call or a definition names something that is not a recorded function.
    UnknownFunction,
    /// A parameter or a result has a type that has no machine form.
    UnsupportedType,
    /// The variable of a `for` is not a plain name.
    InvalidLoopVariable,
    /// The iterable of a `for` is not a range.
    NonRangeIterable,
    /// A unary operator other than negation and logical not.
    UnsupportedUnaryOperator,
    /// A counter or a length would pass the largest `usize`.
    CounterOverflow,
}

/// One storage scope: the slot of each variable bound in it.
pub type SlotScope = Map<Seq<char>, Seq<char>>;

/// The generator's state, as a mathematical value.
pub struct GenState {
    /// The instructions of the stream being built, oldest first.
    pub code: Seq<Seq<char>>,
    /// The lines of every function emitted so far.
    pub functions: Seq<Seq<char>>,
    /// The number that the next temporary or label takes.
    pub temp_count: nat,
    /// The operand that holds the value of what was lowered last.
    pub last_temp: Seq<char>,
    /// The declarations of the string constants interned so far.
    pub string_globals: Seq<Seq<char>>,
    /// The storage scopes, innermost last.
    pub env: Seq<SlotScope>,
    /// The byte length, terminator included, of each interned string.
    pub string_sizes: Map<Seq<char>, nat>,
    /// The number that the next string constant takes.
    pub string_label_count: nat,
    /// The signatures that the checker recorded; lowering only reads them.
    pub table: Seq<ScopeSpec>,
}

pub type Lowered = Result<GenState, GenError>;

impl GenState {
    /// The state after one more instruction is written.
    pub open spec fn emit(self, line: Seq<char>) -> GenState {
        GenState { code: self.code.push(line), ..self }
    }

    /// The state in which `operand` holds the last value.
    pub open spec fn with_last(self, operand: Seq<char>) -> GenState {
        GenState { last_temp: operand, ..self }
    }

    /// Whether another temporary or label can be numbered.
    pub open spec fn can_count(self) -> bool {
        self.temp_count < usize::MAX
    }

    /// The state after one number is used up.
    pub open spec fn bump(self) -> GenState {
        GenState { temp_count: self.temp_count + 1, ..self }
    }

    /// The state after a new innermost scope is opened.
    pub open spec fn enter(self) -> GenState {
        GenState { env: self.env.push(Map::empty()), ..self }
    }

    /// The state after the innermost scope is closed.
    pub open spec fn exit(self) -> GenState {
        GenState { env: leave(self.env), ..self }
    }

    /// The state after `name` gets slot `slot` in the innermost scope.
    pub open spec fn declare(self, name: Seq<char>, slot: Seq<char>) -> GenState {
        GenState { env: bind(self.env, name, slot), ..self }
    }
}

/// The temporary numbered `n`.
pub open spec fn temp_name(n: nat) -> Seq<char> {
    "%t"@ + nat_text(n)
}

/// The label numbered `n`: the temporary's name without its sigil.
pub open spec fn label_name(n: nat) -> Seq<char> {
    "t"@ + nat_text(n)
}

/// The slot name for variable `name` bound at nesting depth `depth`, without
/// its sigil. The depth keeps a shadowing binding apart from the one it
/// shadows.
pub open spec fn slot_name(name: Seq<char>, depth: nat) -> Seq<char> {
    name + "_"@ + nat_text(depth)
}

pub open spec fn line_alloca(slot: Seq<char>) -> Seq<char> {
    "%"@ + slot + " = alloca i32"@
}

pub open spec fn line_store(value: Seq<char>, pointer: Seq<char>) -> Seq<char> {
    "store i32 "@ + value + ", i32* "@ + pointer
}

pub open spec fn line_load(temp: Seq<char>, pointer: Seq<char>) -> Seq<char> {
    temp + " = load i32, i32* "@ + pointer
}

pub open spec fn line_number(temp: Seq<char>, n: int) -> Seq<char> {
    temp + " = add i32 0, "@ + int_text(n)
}

pub open spec fn line_bool(temp: Seq<char>, b: bool) -> Seq<char> {
    temp + " = icmp eq i1 "@ + (if b {
        "1"@
    } else {
        "0"@
    }) + ", 1"@
}

/// An instruction with two operands: `temp = head left, right`.
pub open spec fn line_binary(temp: Seq<char>, head: Seq<char>, left: Seq<char>, right: Seq<char>) -> Seq<
    char,
> {
    temp + " = "@ + head + " "@ + left + ", "@ + right
}

pub open spec fn line_jump(label: Seq<char>) -> Seq<char> {
    "br label %"@ + label
}

pub open spec fn line_branch(cond: Seq<char>, yes: Seq<char>, no: Seq<char>) -> Seq<char> {
    "br i1 "@ + cond + ", label %"@ + yes + ", label %"@ + no
}

pub open spec fn line_label(label: Seq<char>) -> Seq<char> {
    label + ":"@
}

pub open spec fn line_phi(
    temp: Seq<char>,
    first: Seq<char>,
    first_label: Seq<char>,
    second: Seq<char>,
    second_label: Seq<char>,
) -> Seq<char> {
    temp + " = phi i32 [ "@ + first + ", %"@ + first_label + " ], [ "@ + second + ", %"@
        + second_label + " ]"@
}

pub open spec fn line_print_int(value: Seq<char>) -> Seq<char> {
    "call i32 (i8*, ...) @printf(i8* getelementptr inbounds ([4 x i8], [4 x i8]* @.fmt_int, i32 0, i32 0), i32 "@
        + value + ")"@
}

pub open spec fn line_format_pointer(temp: Seq<char>) -> Seq<char> {
    temp + " = getelementptr [4 x i8], [4 x i8]* @.fmt_str, i32 0, i32 0"@
}

pub open spec fn line_string_pointer(temp: Seq<char>, len: nat, label: Seq<char>) -> Seq<char> {
    temp + " = getelementptr ["@ + nat_text(len) + " x i8], ["@ + nat_text(len) + " x i8]* "@
        + label + ", i32 0, i32 0"@
}

pub open spec fn line_print_text(format: Seq<char>, text: Seq<char>) -> Seq<char> {
    "call i32 (i8*, ...) @printf(i8* "@ + format + ", i8* "@ + text + ")"@
}

pub open spec fn line_true_pointer(temp: Seq<char>) -> Seq<char> {
    temp + " = getelementptr inbounds [5 x i8], [5 x i8]* @.true_str, i32 0, i32 0"@
}

pub open spec fn line_false_pointer(temp: Seq<char>) -> Seq<char> {
    temp + " = getelementptr inbounds [6 x i8], [6 x i8]* @.false_str, i32 0, i32 0"@
}

pub open spec fn line_select(temp: Seq<char>, cond: Seq<char>, yes: Seq<char>, no: Seq<char>) -> Seq<
    char,
> {
    temp + " = select i1 "@ + cond + ", i8* "@ + yes + ", i8* "@ + no
}

pub open spec fn line_call(
    temp: Seq<char>,
    result_type: Seq<char>,
    name: Seq<char>,
    arguments: Seq<char>,
) -> Seq<char> {
    temp + " = call "@ + result_type + " @"@ + name + "("@ + arguments + ")"@
}

pub open spec fn line_define(result_type: Seq<char>, name: Seq<char>, parameters: Seq<char>) -> Seq<
    char,
> {
    "define "@ + result_type + " @"@ + name + "("@ + parameters + ") {"@
}

pub open spec fn line_param_alloca(slot: Seq<char>, machine_type: Seq<char>) -> Seq<char> {
    "%"@ + slot + " = alloca "@ + machine_type
}

pub open spec fn line_param_store(slot: Seq<char>, machine_type: Seq<char>, index: nat) -> Seq<
    char,
> {
    "store "@ + machine_type + " %p"@ + nat_text(index) + ", "@ + machine_type + "* %"@ + slot
}

pub open spec fn line_return(result_type: Seq<char>, value: Seq<char>) -> Seq<char> {
    "ret "@ + result_type + " "@ + value
}

/// The label of the string constant numbered `n`.
pub open spec fn string_label(n: nat) -> Seq<char> {
    "@.str_"@ + nat_text(n)
}

/// How one character of a string constant is written: a backslash and a
/// double quote by their codes, any other character as itself.
pub open spec fn escape_char(c: char) -> Seq<char> {
    if c == '\\' {
        "\\5C"@
    } else if c == '"' {
        "\\22"@
    } else {
        seq![c]
    }
}

/// How the content of a string constant is written.
pub open spec fn escape_text(s: Seq<char>) -> Seq<char>
    decreases s.len(),
{
    if s.len() == 0 {
        Seq::empty()
    } else {
        escape_text(s.drop_last()) + escape_char(s.last())
    }
}

pub open spec fn line_string_global(label: Seq<char>, len: nat, content: Seq<char>) -> Seq<char> {
    label + " = private unnamed_addr constant ["@ + nat_text(len) + " x i8] c\""@ + escape_text(
        content,
    ) + "\\00\""@
}

/// The machine type of a value of type `ty`, where it has one. A custom type
/// is passed as an integer.
pub open spec fn machine_type(ty: Ty) -> Option<Seq<char>> {
    match ty {
        Ty::Number => Some("i32"@),
        Ty::Boolean => Some("i1"@),
        Ty::String => Some("i8*"@),
        Ty::Custom(_) => Some("i32"@),
        _ => None,
    }
}

/// The machine type that a function definition names as its result, where
/// there is one. A custom type is returned by pointer.
pub open spec fn result_machine_type(ty: Ty) -> Option<Seq<char>> {
    match ty {
        Ty::Number => Some("i32"@),
        Ty::Boolean => Some("i1"@),
        Ty::String => Some("i8*"@),
        Ty::Custom(name) => Some("%"@ + name + "*"@),
        _ => None,
    }
}

/// The instruction word for a binary operator that is not an assignment:
/// the operation and the type it works on.
pub open spec fn instruction_head(op: BinOp) -> Seq<char> {
    match op {
        BinOp::EqualEqual(_) => "icmp eq i32"@,
        BinOp::NotEqual(_) => "icmp ne i32"@,
        BinOp::Less(_) => "icmp slt i32"@,
        BinOp::LessEqual(_) => "icmp sle i32"@,
        BinOp::Greater(_) => "icmp sgt i32"@,
        BinOp::GreaterEqual(_) => "icmp sge i32"@,
        BinOp::AndAnd(_) => "and i1"@,
        BinOp::OrOr(_) => "or i1"@,
        BinOp::Plus(_) => "add i32"@,
        BinOp::Minus(_) => "sub i32"@,
        BinOp::Mul(_) => "mul i32"@,
        BinOp::Div(_) => "sdiv i32"@,
        BinOp::Mod(_) => "srem i32"@,
        _ => "add i32"@,
    }
}

/// Takes the next number for a temporary, writes `line(temp)` and leaves the
/// temporary as the last value.
pub open spec fn emit_fresh(st: GenState, line: spec_fn(Seq<char>) -> Seq<char>) -> Lowered {
    if !st.can_count() {
        Err(GenError::CounterOverflow)
    } else {
        let temp = temp_name(st.temp_count);
        Ok(st.bump().emit(line(temp)).with_last(temp))
    }
}

/// A literal takes one number. A number or a truth value is put into the
/// temporary of that number; a string becomes a new global constant, one per
/// occurrence, whose label is the value.
pub open spec fn lower_literal(lit: Literal, st: GenState) -> Lowered {
    if !st.can_count() {
        Err(GenError::CounterOverflow)
    } else {
        let temp = temp_name(st.temp_count);
        let st = st.bump();
        match lit {
            Literal::Number(n, _) => Ok(st.emit(line_number(temp, n as int)).with_last(temp)),
            Literal::Bool(b, _) => Ok(st.emit(line_bool(temp, b)).with_last(temp)),
            Literal::Str(s, _) => {
                let label = string_label(st.string_label_count);
                let len = encode_utf8(s@).len() + 1;
                if len > usize::MAX || st.string_label_count >= usize::MAX {
                    Err(GenError::CounterOverflow)
                } else {
                    Ok(
                        GenState {
                            string_globals: st.string_globals.push(
                                line_string_global(label, len, s@),
                            ),
                            string_sizes: st.string_sizes.insert(label, len),
                            last_temp: label,
                            string_label_count: st.string_label_count + 1,
                            ..st
                        },
                    )
                }
            },
        }
    }
}

/// A variable is loaded from its slot into a fresh temporary.
pub open spec fn lower_variable(name: Seq<char>, st: GenState) -> Lowered {
    match resolve(st.env, name) {
        None => Err(GenError::UndeclaredVariable),
        Some(slot) => emit_fresh(st, |temp: Seq<char>| line_load(temp, slot)),
    }
}

pub open spec fn lower_atom(atom: Atom, st: GenState) -> Lowered
    decreases atom, 0nat,
{
    match atom {
        Atom::NumberLiteral(lit) => lower_literal(lit, st),
        Atom::BooleanLiteral(lit) => lower_literal(lit, st),
        Atom::StringLiteral(lit) => lower_literal(lit, st),
        Atom::Variable(id) => lower_variable(id.name@, st),
        Atom::Group(group) => lower_expression(*group.expression, st),
    }
}

/// The name that an expression is, when it is nothing but a variable.
pub open spec fn variable_name(e: Expression) -> Option<Seq<char>> {
    match e {
        Expression::Atom(atom) => match *atom {
            Atom::Variable(id) => Some(id.name@),
            _ => None,
        },
        _ => None,
    }
}

/// An assignment stores the value of its right side in the slot that its
/// left side names, and has that value. Any other operator evaluates both
/// sides, left first, and combines them in a fresh temporary; `and` and `or`
/// evaluate both sides too.
pub open spec fn lower_binary_op(b: BinaryOp, st: GenState) -> Lowered
    decreases b, 0nat,
{
    if b.operator is Assign {
        match variable_name(*b.left) {
            None => Err(GenError::InvalidAssignmentTarget),
            Some(name) => match resolve(st.env, name) {
                None => Err(GenError::UndeclaredVariable),
                Some(slot) => match lower_expression(*b.right, st) {
                    Err(e) => Err(e),
                    Ok(s1) => Ok(s1.emit(line_store(s1.last_temp, slot))),
                },
            },
        }
    } else {
        match lower_expression(*b.left, st) {
            Err(e) => Err(e),
            Ok(s1) => match lower_expression(*b.right, s1) {
                Err(e) => Err(e),
                Ok(s2) => emit_fresh(
                    s2,
                    |temp: Seq<char>|
                        line_binary(temp, instruction_head(b.operator), s1.last_temp, s2.last_temp),
                ),
            },
        }
    }
}

/// Negation is zero minus the operand; logical not is exclusive-or with
/// true.
pub open spec fn lower_unary_op(u: UnaryOp, st: GenState) -> Lowered
    decreases u, 0nat,
{
    match lower_expression(*u.expr, st) {
        Err(e) => Err(e),
        Ok(s1) => match u.op {
            UnaryOperator::Minus(_) => emit_fresh(
                s1,
                |temp: Seq<char>| line_binary(temp, "sub i32"@, "0"@, s1.last_temp),
            ),
            UnaryOperator::Not(_) => emit_fresh(
                s1,
                |temp: Seq<char>| line_binary(temp, "xor i1"@, s1.last_temp, "true"@),
            ),
            UnaryOperator::Plus(_) => Err(GenError::UnsupportedUnaryOperator),
        },
    }
}

/// The expressions from position `from` on, each lowered in order.
pub open spec fn lower_sequence(
    exprs: Seq<Expression>,
    from: nat,
    st: GenState,
) -> Lowered
    decreases exprs, exprs.len() - from,
{
    if from >= exprs.len() {
        Ok(st)
    } else {
        match lower_expression(exprs[from as int], st) {
            Err(e) => Err(e),
            Ok(s1) => lower_sequence(exprs, from + 1, s1),
        }
    }
}

/// A block lowers its expressions inside a scope of their own.
pub open spec fn lower_block(b: Block, st: GenState) -> Lowered
    decreases b, 0nat,
{
    match lower_sequence(b.expression_list.expressions@, 0, st.enter()) {
        Err(e) => Err(e),
        Ok(s1) => Ok(s1.exit()),
    }
}

/// The bindings from position `from` on, each given a slot named after the
/// current depth, evaluated and stored, left to right. A binding sees the
/// ones before it.
pub open spec fn lower_bindings(
    bindings: Seq<Assignment>,
    from: nat,
    st: GenState,
) -> Lowered
    decreases bindings, bindings.len() - from,
{
    if from >= bindings.len() {
        Ok(st)
    } else {
        match bindings[from as int].variable {
            Atom::Variable(id) => {
                let slot = slot_name(id.name@, st.env.len());
                match lower_expression(
                    *bindings[from as int].body,
                    st.emit(line_alloca(slot)),
                ) {
                    Err(e) => Err(e),
                    Ok(s1) => lower_bindings(
                        bindings,
                        from + 1,
                        s1.emit(line_store(s1.last_temp, "%"@ + slot)).declare(
                            id.name@,
                            "%"@ + slot,
                        ),
                    ),
                }
            },
            _ => Err(GenError::InvalidAssignmentTarget),
        }
    }
}

/// A `let` opens a scope, lowers its bindings and then its body in it, and
/// closes the scope.
pub open spec fn lower_letin(l: LetIn, st: GenState) -> Lowered
    decreases l, 0nat,
{
    match lower_bindings(l.bindings@, 0, st.enter()) {
        Err(e) => Err(e),
        Ok(s1) => match lower_expression(*l.body, s1) {
            Err(e) => Err(e),
            Ok(s2) => Ok(s2.exit()),
        },
    }
}

pub open spec fn then_label(n: nat) -> Seq<char> {
    "then"@ + nat_text(n)
}

pub open spec fn else_label(n: nat) -> Seq<char> {
    "else"@ + nat_text(n)
}

pub open spec fn merge_label(n: nat) -> Seq<char> {
    "merge"@ + nat_text(n)
}

/// The condition of the guard numbered `level`: the `if` itself is guard 0,
/// and each `elif` follows in source order.
pub open spec fn guard_condition(i: IfElse, level: nat) -> Expression {
    if level == 0 {
        *i.condition
    } else {
        i.elif_branches@[level - 1].1
    }
}

/// The branch that the guard numbered `level` guards.
pub open spec fn guard_branch(i: IfElse, level: nat) -> Expression {
    if level == 0 {
        *i.then_branch
    } else {
        i.elif_branches@[level - 1].2
    }
}

/// The conditional from guard `level` on. A guard takes one number for its
/// three labels, tests its condition and branches; its branch and what
/// follows it both jump to the guard's merge label, where a `phi` selects
/// the value of the one that ran. After the last guard comes the `else`
/// branch or, when there is none, the constant zero.
pub open spec fn lower_guards(i: IfElse, level: nat, st: GenState) -> Lowered
    decreases i, i.elif_branches@.len() + 1 - level,
{
    if level > i.elif_branches@.len() {
        match i.else_branch {
            Some(e) => lower_expression(*e, st),
            None => emit_fresh(st, |temp: Seq<char>| line_number(temp, 0)),
        }
    } else if level >= usize::MAX || !st.can_count() {
        Err(GenError::CounterOverflow)
    } else {
        let n = st.temp_count;
        match lower_expression(guard_condition(i, level), st.bump()) {
            Err(e) => Err(e),
            Ok(s1) => match lower_expression(
                guard_branch(i, level),
                s1.emit(line_branch(s1.last_temp, then_label(n), else_label(n))).emit(
                    line_label(then_label(n)),
                ),
            ) {
                Err(e) => Err(e),
                Ok(s2) => match lower_guards(
                    i,
                    level + 1,
                    s2.emit(line_jump(merge_label(n))).emit(line_label(else_label(n))),
                ) {
                    Err(e) => Err(e),
                    Ok(s3) => emit_fresh(
                        s3.emit(line_jump(merge_label(n))).emit(line_label(merge_label(n))),
                        |temp: Seq<char>|
                            line_phi(
                                temp,
                                s2.last_temp,
                                then_label(n),
                                s3.last_temp,
                                else_label(n),
                            ),
                    ),
                },
            },
        }
    }
}

/// A loop takes three numbers for its labels: condition, body, end. Control
/// enters at the condition, and the body jumps back to it.
pub open spec fn lower_while(w: While, st: GenState) -> Lowered
    decreases w, 0nat,
{
    if st.temp_count + 3 > usize::MAX {
        Err(GenError::CounterOverflow)
    } else {
        let cond = label_name(st.temp_count);
        let body = label_name(st.temp_count + 1);
        let end = label_name(st.temp_count + 2);
        let s0 = GenState { temp_count: st.temp_count + 3, ..st };
        match lower_expression(*w.cond, s0.emit(line_jump(cond)).emit(line_label(cond))) {
            Err(e) => Err(e),
            Ok(s1) => match lower_expression(
                *w.body,
                s1.emit(line_branch(s1.last_temp, body, end)).emit(line_label(body)),
            ) {
                Err(e) => Err(e),
                Ok(s2) => Ok(s2.emit(line_jump(cond)).emit(line_label(end))),
            },
        }
    }
}

/// The state after the head of a counting loop is written: the jump to the
/// condition, the condition that tests the induction slot against `end`, and
/// the label of the body. Seven numbers are taken in all by a loop: three
/// labels, two for the test and, after the body, two for the increment.
pub open spec fn loop_head(st: GenState, slot: Seq<char>, end: Seq<char>) -> GenState {
    let n = st.temp_count;
    let cond = label_name(n);
    let body = label_name(n + 1);
    let exit = label_name(n + 2);
    let x = temp_name(n + 3);
    let cmp = temp_name(n + 4);
    GenState { temp_count: n + 5, ..st }.emit(line_jump(cond)).emit(line_label(cond)).emit(
        line_load(x, "%"@ + slot),
    ).emit(line_binary(cmp, "icmp slt i32"@, x, end)).emit(line_branch(cmp, body, exit)).emit(
        line_label(body),
    )
}

/// The state after the tail of a counting loop is written: the increment of
/// the induction slot by one, the jump back to the condition whose label has
/// number `n`, and the exit label.
pub open spec fn loop_tail(st: GenState, slot: Seq<char>, n: nat) -> GenState {
    let x = temp_name(st.temp_count);
    let inc = temp_name(st.temp_count + 1);
    GenState { temp_count: st.temp_count + 2, ..st }.emit(line_load(x, "%"@ + slot)).emit(
        line_binary(inc, "add i32"@, x, "1"@),
    ).emit(line_store(inc, "%"@ + slot)).emit(line_jump(label_name(n))).emit(
        line_label(label_name(n + 2)),
    )
}

/// A `for` over a range opens a scope and gives its variable a slot seeded
/// with the start of the range. The loop runs while the slot is below the
/// end of the range, which is evaluated once, and adds one after each turn.
pub open spec fn lower_for(f: For, st: GenState) -> Lowered
    decreases f, 0nat,
{
    match variable_name(*f.var) {
        None => Err(GenError::InvalidLoopVariable),
        Some(name) => match *f.iterable {
            Expression::Range(start, end) => {
                let s0 = st.enter();
                let slot = slot_name(name, s0.env.len());
                match lower_expression(*start, s0.emit(line_alloca(slot))) {
                    Err(e) => Err(e),
                    Ok(s1) => match lower_expression(
                        *end,
                        s1.emit(line_store(s1.last_temp, "%"@ + slot)),
                    ) {
                        Err(e) => Err(e),
                        Ok(s2) => if s2.temp_count + 5 > usize::MAX {
                            Err(GenError::CounterOverflow)
                        } else {
                            match lower_expression(
                                *f.body,
                                loop_head(s2.declare(name, "%"@ + slot), slot, s2.last_temp),
                            ) {
                                Err(e) => Err(e),
                                Ok(s3) => if s3.temp_count + 2 > usize::MAX {
                                    Err(GenError::CounterOverflow)
                                } else {
                                    Ok(loop_tail(s3, slot, s2.temp_count).exit())
                                },
                            }
                        },
                    },
                }
            },
            _ => Err(GenError::NonRangeIterable),
        },
    }
}

/// Which of the three ways of printing the shape of an expression selects.
pub enum PrintShape {
    Text,
    Truth,
    Number,
}

/// The way of printing is chosen by what the printed expression is written
/// as: a string literal, a boolean literal, or anything else.
pub open spec fn print_shape(e: Expression) -> PrintShape {
    match e {
        Expression::Atom(atom) => match *atom {
            Atom::StringLiteral(_) => PrintShape::Text,
            Atom::BooleanLiteral(_) => PrintShape::Truth,
            _ => PrintShape::Number,
        },
        _ => PrintShape::Number,
    }
}

/// The byte length recorded for the string constant `label`; zero when none
/// is.
pub open spec fn recorded_size(sizes: Map<Seq<char>, nat>, label: Seq<char>) -> nat {
    if sizes.contains_key(label) {
        sizes[label]
    } else {
        0
    }
}

/// The call that prints a string constant: two numbers, for the pointers to
/// the format and to the text.
pub open spec fn print_text(st: GenState) -> Lowered {
    if st.temp_count + 2 > usize::MAX {
        Err(GenError::CounterOverflow)
    } else {
        let format = temp_name(st.temp_count);
        let text = temp_name(st.temp_count + 1);
        Ok(
            GenState { temp_count: st.temp_count + 2, ..st }.emit(line_format_pointer(format)).emit(
                line_string_pointer(text, recorded_size(st.string_sizes, st.last_temp), st.last_temp),
            ).emit(line_print_text(format, text)),
        )
    }
}

/// The call that prints a truth value as a word: four numbers, for the
/// pointers to the two words, the selected one, and the format.
pub open spec fn print_truth(st: GenState) -> Lowered {
    if st.temp_count + 4 > usize::MAX {
        Err(GenError::CounterOverflow)
    } else {
        let yes = temp_name(st.temp_count);
        let no = temp_name(st.temp_count + 1);
        let chosen = temp_name(st.temp_count + 2);
        let format = temp_name(st.temp_count + 3);
        Ok(
            GenState { temp_count: st.temp_count + 4, ..st }.emit(line_true_pointer(yes)).emit(
                line_false_pointer(no),
            ).emit(line_select(chosen, st.last_temp, yes, no)).emit(
                line_format_pointer(format),
            ).emit(line_print_text(format, chosen)),
        )
    }
}

/// Printing evaluates the expression and then calls the formatted-output
/// routine in the way that the expression's shape selects. The printed
/// value stays the last value.
pub open spec fn lower_print(e: Expression, st: GenState) -> Lowered
    decreases e, 2nat,
{
    match lower_expression(e, st) {
        Err(err) => Err(err),
        Ok(s1) => match print_shape(e) {
            PrintShape::Text => print_text(s1),
            PrintShape::Truth => print_truth(s1),
            PrintShape::Number => Ok(s1.emit(line_print_int(s1.last_temp))),
        },
    }
}

/// The arguments from position `from` on, each lowered in order; the
/// operands that hold their values are collected after `operands`.
pub open spec fn lower_arguments(
    args: Seq<Expression>,
    from: nat,
    operands: Seq<Seq<char>>,
    st: GenState,
) -> Result<(GenState, Seq<Seq<char>>), GenError>
    decreases args, args.len() - from,
{
    if from >= args.len() {
        Ok((st, operands))
    } else {
        match lower_expression(args[from as int], st) {
            Err(e) => Err(e),
            Ok(s1) => lower_arguments(args, from + 1, operands.push(s1.last_temp), s1),
        }
    }
}

/// The first `count` operands, each written after the machine type of the
/// parameter in its position, separated by commas.
pub open spec fn typed_operands(operands: Seq<Seq<char>>, types: Seq<Ty>, count: nat) -> Option<
    Seq<char>,
>
    decreases count,
{
    if count == 0 {
        Some(Seq::empty())
    } else {
        match (typed_operands(operands, types, (count - 1) as nat), machine_type(types[count - 1])) {
            (Some(before), Some(ty)) => Some(
                before + (if count == 1 {
                    Seq::empty()
                } else {
                    ", "@
                }) + ty + " "@ + operands[count - 1],
            ),
            _ => None,
        }
    }
}

/// As many as there are of both.
pub open spec fn paired(a: nat, b: nat) -> nat {
    if a <= b {
        a
    } else {
        b
    }
}

/// A call evaluates its arguments left to right and calls the function with
/// the types that its recorded signature declares; the result lands in a
/// fresh temporary.
pub open spec fn lower_function_call(c: FunctionCall, st: GenState) -> Lowered
    decreases c, 0nat,
{
    match resolve(st.table, c.funct_name.name@) {
        Some(Symbol::Function { return_type, param_types }) => match lower_arguments(
            c.arguments@,
            0,
            Seq::empty(),
            st,
        ) {
            Err(e) => Err(e),
            Ok((s1, operands)) => match (
                typed_operands(operands, param_types, paired(operands.len(), param_types.len())),
                machine_type(return_type),
            ) {
                (Some(arguments), Some(result)) => emit_fresh(
                    s1,
                    |temp: Seq<char>| line_call(temp, result, c.funct_name.name@, arguments),
                ),
                _ => Err(GenError::UnsupportedType),
            },
        },
        _ => Err(GenError::UnknownFunction),
    }
}

/// The first `count` parameters of a definition's header: each one's
/// machine type and its numbered name, separated by commas.
pub open spec fn header_parameters(types: Seq<Ty>, count: nat) -> Option<Seq<char>>
    decreases count,
{
    if count == 0 {
        Some(Seq::empty())
    } else {
        match (header_parameters(types, (count - 1) as nat), machine_type(types[count - 1])) {
            (Some(before), Some(ty)) => Some(
                before + (if count == 1 {
                    Seq::empty()
                } else {
                    ", "@
                }) + ty + " %p"@ + nat_text((count - 1) as nat),
            ),
            _ => None,
        }
    }
}

/// The parameters from position `from` on, each given a slot that is seeded
/// from the incoming value of its position. The lines are collected after
/// `lines`, and each name is declared in the innermost scope.
pub open spec fn lower_parameters(
    params: Seq<FunctionParams>,
    from: nat,
    lines: Seq<Seq<char>>,
    st: GenState,
) -> Result<(GenState, Seq<Seq<char>>), GenError>
    decreases params.len() - from,
{
    if from >= params.len() {
        Ok((st, lines))
    } else {
        let p = params[from as int];
        match machine_type(parse_type(p.signature@)) {
            None => Err(GenError::UnsupportedType),
            Some(ty) => {
                let slot = slot_name(p.name.name@, st.env.len());
                lower_parameters(
                    params,
                    from + 1,
                    lines.push(line_param_alloca(slot, ty)).push(line_param_store(slot, ty, from)),
                    st.declare(p.name.name@, "%"@ + slot),
                )
            },
        }
    }
}

/// A definition looks up its recorded signature and writes, into the buffer
/// of functions and after any function that its body defines: a header, a
/// slot for each parameter, the body lowered in a scope of its own, and the
/// return of the body's value. The stream that was being built is left as
/// it was.
pub open spec fn lower_function_def(d: FunctionDef, st: GenState) -> Lowered
    decreases d, 0nat,
{
    match resolve(st.table, d.name.name@) {
        Some(Symbol::Function { return_type, param_types }) => match (
            header_parameters(param_types, param_types.len()),
            result_machine_type(return_type),
        ) {
            (Some(parameters), Some(result)) => match lower_parameters(
                d.params@,
                0,
                seq![line_define(result, d.name.name@, parameters)],
                st.enter(),
            ) {
                Err(e) => Err(e),
                Ok((s1, head)) => match lower_expression(
                    *d.body,
                    GenState { code: Seq::empty(), ..s1 },
                ) {
                    Err(e) => Err(e),
                    Ok(s2) => Ok(
                        GenState {
                            code: st.code,
                            functions: s2.functions + head + s2.code + seq![
                                line_return(result, s2.last_temp),
                                "}"@,
                            ],
                            ..s2.exit()
                        },
                    ),
                },
            },
            _ => Err(GenError::UnsupportedType),
        },
        _ => Err(GenError::UnknownFunction),
    }
}

/// What lowering an expression does to the generator's state, or why it
/// stops. Declarations and uses of user-defined types are not lowered and
/// leave the state as it is.
pub open spec fn lower_expression(e: Expression, st: GenState) -> Lowered
    decreases e, 1nat,
{
    match e {
        Expression::BinaryOp(b) => lower_binary_op(b, st),
        Expression::Atom(atom) => lower_atom(*atom, st),
        Expression::IfElse(i) => lower_guards(*i, 0, st),
        Expression::LetIn(l) => lower_letin(*l, st),
        Expression::For(f) => lower_for(*f, st),
        Expression::Print(inner, _) => lower_print(*inner, st),
        Expression::While(w) => lower_while(*w, st),
        Expression::Block(b) => lower_block(*b, st),
        Expression::UnaryOp(u) => lower_unary_op(u, st),
        Expression::Range(start, end) => match lower_expression(*start, st) {
            Err(err) => Err(err),
            Ok(s1) => lower_expression(*end, s1),
        },
        Expression::FunctionCall(c) => lower_function_call(c, st),
        Expression::FunctionDef(d) => lower_function_def(d, st),
        Expression::TypeDeclaration(_) => Ok(st),
        Expression::TypeInstantiation(_) => Ok(st),
        Expression::TypeMethodAccess(_) => Ok(st),
        Expression::TypePropertyAccess(_) => Ok(st),
    }
}

/// What lowering does at a node as a callback of the generator receives
/// it. A binding on its own is not lowered: the `let` that holds it lowers
/// it.
pub open spec fn lower_node(node: Node, st: GenState) -> Lowered {
    match node {
        Node::Program(p) => lower_sequence(p.expression_list.expressions@, 0, st),
        Node::ExpressionList(l) => lower_sequence(l.expressions@, 0, st),
        Node::Expression(e) => lower_expression(e, st),
        Node::Atom(a) => lower_atom(a, st),
        Node::BinaryOp(b) => lower_binary_op(b, st),
        Node::LetIn(l) => lower_letin(l, st),
        Node::Assignment(_) => Ok(st),
        Node::Block(b) => lower_block(b, st),
        Node::Literal(l) => lower_literal(l, st),
        Node::Identifier(i) => lower_variable(i.name@, st),
        Node::Print(e) => lower_print(e, st),
        Node::While(w) => lower_while(w, st),
        Node::IfElse(i) => lower_guards(i, 0, st),
        Node::Group(g) => lower_expression(*g.expression, st),
        Node::UnaryOp(u) => lower_unary_op(u, st),
        Node::For(f) => lower_for(f, st),
        Node::Range(start, end) => match lower_expression(start, st) {
            Err(err) => Err(err),
            Ok(s1) => lower_expression(end, s1),
        },
        Node::FunctionCall(c) => lower_function_call(c, st),
        Node::FunctionDef(d) => lower_function_def(d, st),
        Node::TypeDeclaration(_) => Ok(st),
        Node::TypeInstantiation(_) => Ok(st),
        Node::TypeAccess(_) => Ok(st),
    }
}

} // verus!
