//! What holds of the two passes as a whole: which programs the checker
//! accepts without a word, what either pass may change in its state, and how
//! scoping confines names and slots.
use vstd::prelude::*;
use crate::ast::{
    Assignment, Atom, BinaryOp, Block, Expression, For, FunctionCall, FunctionDef, FunctionParams,
    IfElse, LetIn, UnaryOp, While,
};
use crate::checking::{
    argument_message, check_arguments, check_atom, check_binary_op, check_bindings, check_block,
    check_condition, check_elifs, check_expression, check_for, check_function_call,
    check_function_def, check_ifelse, check_letin, check_sequence, check_unary_op, check_variable,
    check_while, class_type, declare_parameters, declared_types, operand_message,
    operands_rejected, start_state, undeclared_variable_message, CheckState,
};
use crate::lowering::{
    else_label, emit_fresh, guard_branch, guard_condition, header_parameters, instruction_head,
    label_name, line_alloca, line_binary, line_branch, line_call, line_define, line_jump,
    line_label, line_load, line_number, line_param_alloca, line_param_store, line_phi,
    line_store, loop_head, loop_tail, lower_arguments, lower_atom, lower_binary_op,
    lower_bindings, lower_block, lower_expression, lower_for, lower_function_call,
    lower_function_def, lower_guards, lower_letin, lower_parameters, lower_print,
    lower_sequence, lower_unary_op, lower_while, machine_type, merge_label, paired,
    result_machine_type, slot_name, then_label, typed_operands, variable_name, GenState,
    Lowered,
};
use crate::symbol_table::{bind, resolve, Symbol};
use crate::tokens::{Keyword, OperatorClass, Position};
use crate::types::{parse_type, Ty};

verus! {

/// Whether an expression is arithmetic and nothing else: number literals,
/// signs, the five arithmetic operators, and parentheses around them.
pub open spec fn arithmetic_only(e: Expression) -> bool
    decreases e,
{
    match e {
        Expression::Atom(atom) => match *atom {
            Atom::NumberLiteral(_) => true,
            Atom::Group(group) => arithmetic_only(*group.expression),
            _ => false,
        },
        Expression::BinaryOp(b) => b.operator.class_spec() == OperatorClass::Arithmetic
            && arithmetic_only(*b.left) && arithmetic_only(*b.right),
        Expression::UnaryOp(u) => !(u.op is Not) && arithmetic_only(*u.expr),
        _ => false,
    }
}

/// An arithmetic expression is a number, and checking it changes nothing:
/// no diagnostic is added and no name is recorded.
pub proof fn arithmetic_is_accepted(e: Expression, st: CheckState)
    requires
        arithmetic_only(e),
    ensures
        check_expression(e, st) == st.typed(Ty::Number),
    decreases e,
{
    match e {
        Expression::Atom(atom) => {
            match *atom {
                Atom::Group(group) => {
                    arithmetic_is_accepted(*group.expression, st);
                },
                _ => {},
            }
            assert(check_atom(*atom, st) == st.typed(Ty::Number));
        },
        Expression::BinaryOp(b) => {
            arithmetic_is_accepted(*b.left, st);
            arithmetic_is_accepted(*b.right, st);
            assert(check_binary_op(b, st) == st.typed(Ty::Number));
        },
        Expression::UnaryOp(u) => {
            arithmetic_is_accepted(*u.expr, st);
            assert(check_unary_op(u, st) == st.typed(Ty::Number));
        },
        _ => {},
    }
}

/// A program of arithmetic expressions alone is checked without a single
/// diagnostic.
pub proof fn arithmetic_program_has_no_diagnostics(exprs: Seq<Expression>, source: Seq<u8>)
    requires
        forall|i: int| 0 <= i < exprs.len() ==> arithmetic_only(#[trigger] exprs[i]),
    ensures
        check_sequence(exprs, 0, start_state(source)).errors.len() == 0,
{
    arithmetic_sequence_is_accepted(exprs, 0, start_state(source));
}

/// Checking a run of arithmetic expressions leaves the state as it was.
pub proof fn arithmetic_sequence_is_accepted(exprs: Seq<Expression>, from: nat, st: CheckState)
    requires
        forall|i: int| 0 <= i < exprs.len() ==> arithmetic_only(#[trigger] exprs[i]),
    ensures
        check_sequence(exprs, from, st) == st,
    decreases exprs.len() - from,
{
    if from < exprs.len() {
        arithmetic_is_accepted(exprs[from as int], st);
        arithmetic_sequence_is_accepted(exprs, from + 1, st);
    }
}

/// A reference to a name that resolves to no variable adds exactly one
/// diagnostic, which names the variable and its line, and has type
/// `Unknown`. A reference that resolves adds none and has the recorded type.
pub proof fn unresolved_reference_is_reported_once(name: Seq<char>, position: Position, st: CheckState)
    ensures
        check_variable(name, position, st).state.scopes == st.scopes,
        match resolve(st.scopes, name) {
            Some(Symbol::Variable { var_type }) => check_variable(name, position, st) == st.typed(
                var_type,
            ),
            _ => check_variable(name, position, st).ty == Ty::Unknown && check_variable(
                name,
                position,
                st,
            ).state.errors == st.errors.push(
                undeclared_variable_message(st.line(position), name),
            ),
        },
{
}

/// An operator other than assignment gives its expression the type of its
/// class whether or not its operands are accepted, and adds one diagnostic
/// exactly when they are rejected.
pub proof fn operator_type_survives_rejection(b: BinaryOp, st: CheckState)
    requires
        b.operator.class_spec() != OperatorClass::Assignment,
    ensures
        ({
            let left = check_expression(*b.left, st);
            let right = check_expression(*b.right, left.state);
            let class = b.operator.class_spec();
            let out = check_binary_op(b, st);
            &&& out.ty == class_type(class)
            &&& out.state.scopes == right.state.scopes
            &&& operands_rejected(class, left.ty, right.ty) ==> out.state.errors
                == right.state.errors.push(
                operand_message(class, right.state.line(b.operator.position_spec())),
            )
            &&& !operands_rejected(class, left.ty, right.ty) ==> out.state.errors
                == right.state.errors
        }),
{
}

/// The rules on operand types, class by class: arithmetic takes two numbers
/// and is a number; a comparison takes two operands of one type and is a
/// truth value; a logical operator takes two truth values and is one;
/// concatenation takes strings and numbers in any mix and is a string.
pub proof fn operand_rules(left: Ty, right: Ty)
    ensures
        !operands_rejected(OperatorClass::Arithmetic, left, right) <==> left == Ty::Number && right
            == Ty::Number,
        !operands_rejected(OperatorClass::Comparison, left, right) <==> left == right,
        !operands_rejected(OperatorClass::Logical, left, right) <==> left == Ty::Boolean && right
            == Ty::Boolean,
        !operands_rejected(OperatorClass::Concatenation, left, right) <==> (left == Ty::String
            || left == Ty::Number) && (right == Ty::String || right == Ty::Number),
        class_type(OperatorClass::Arithmetic) == Ty::Number,
        class_type(OperatorClass::Comparison) == Ty::Boolean,
        class_type(OperatorClass::Logical) == Ty::Boolean,
        class_type(OperatorClass::Concatenation) == Ty::String,
{
}

/// Whether two stacks of scopes are equally deep and differ at most in
/// their innermost scope.
pub open spec fn same_outer<V>(a: Seq<Map<Seq<char>, V>>, b: Seq<Map<Seq<char>, V>>) -> bool {
    a.len() == b.len() && forall|j: int| 0 <= j < a.len() - 1 ==> a[j] == b[j]
}

/// Whether `later` holds every diagnostic of `earlier`, in the same places,
/// and possibly more after them.
pub open spec fn extends(earlier: Seq<Seq<char>>, later: Seq<Seq<char>>) -> bool {
    earlier.len() <= later.len() && forall|j: int|
        0 <= j < earlier.len() ==> earlier[j] == later[j]
}

/// What checking may do to a state: keep the depth of the scope stack,
/// touch no scope but the innermost, keep the source, and add diagnostics
/// after the ones that are there.
pub open spec fn framed(before: CheckState, after: CheckState) -> bool {
    same_outer(before.scopes, after.scopes) && after.source == before.source && extends(
        before.errors,
        after.errors,
    )
}

/// Whether a construct that opened a scope on `before` and closed it again
/// left the whole stack of scopes as it was.
pub open spec fn restored(before: CheckState, after: CheckState) -> bool {
    after.scopes =~= before.scopes && after.source == before.source && extends(
        before.errors,
        after.errors,
    )
}

/// A state that was reached inside a scope opened on `before` gives
/// `before`'s scopes back when that scope is closed.
proof fn closing_restores(before: CheckState, opened: CheckState, inside: CheckState)
    requires
        opened.scopes == before.scopes.push(Map::empty()),
        opened.source == before.source,
        extends(before.errors, opened.errors),
        framed(opened, inside),
    ensures
        restored(before, inside.exit()),
{
    assert(inside.exit().scopes =~= before.scopes) by {
        assert forall|j: int| 0 <= j < before.scopes.len() implies inside.scopes[j]
            == before.scopes[j] by {
            assert(opened.scopes[j] == before.scopes[j]);
        }
    }
}

/// Checking an expression keeps the depth of the scope stack and every
/// scope but the innermost, keeps the source, and only adds diagnostics.
pub proof fn checking_is_framed(e: Expression, st: CheckState)
    ensures
        framed(st, check_expression(e, st).state),
    decreases e, 1nat,
{
    match e {
        Expression::BinaryOp(b) => {
            let left = check_expression(*b.left, st);
            let right = check_expression(*b.right, left.state);
            checking_is_framed(*b.left, st);
            checking_is_framed(*b.right, left.state);
            assert(framed(right.state, check_binary_op(b, st).state));
        },
        Expression::Atom(atom) => {
            match *atom {
                Atom::Group(group) => {
                    checking_is_framed(*group.expression, st);
                },
                _ => {},
            }
            assert(framed(st, check_atom(*atom, st).state));
        },
        Expression::IfElse(i) => {
            ifelse_is_framed(*i, st);
        },
        Expression::LetIn(l) => {
            letin_restores_scopes(*l, st);
        },
        Expression::For(f) => {
            for_is_framed(*f, st);
        },
        Expression::Print(inner, _) => {
            checking_is_framed(*inner, st);
        },
        Expression::While(w) => {
            condition_is_framed(*w.cond, "while"@, st);
            checking_is_framed(*w.body, check_condition(*w.cond, "while"@, st));
            assert(check_while(*w, st).state == check_expression(
                *w.body,
                check_condition(*w.cond, "while"@, st),
            ).state);
        },
        Expression::Block(b) => {
            block_restores_scopes(*b, st);
        },
        Expression::UnaryOp(u) => {
            checking_is_framed(*u.expr, st);
            assert(framed(check_expression(*u.expr, st).state, check_unary_op(u, st).state));
        },
        Expression::Range(start, end) => {
            checking_is_framed(*start, st);
            checking_is_framed(*end, check_expression(*start, st).state);
        },
        Expression::FunctionCall(c) => {
            call_is_framed(c, st);
        },
        Expression::FunctionDef(d) => {
            function_def_is_framed(d, st);
        },
        _ => {},
    }
}

proof fn condition_is_framed(cond: Expression, word: Seq<char>, st: CheckState)
    ensures
        framed(st, check_condition(cond, word, st)),
    decreases cond, 2nat,
{
    checking_is_framed(cond, st);
}

proof fn sequence_is_framed(exprs: Seq<Expression>, from: nat, st: CheckState)
    ensures
        framed(st, check_sequence(exprs, from, st)),
    decreases exprs, exprs.len() - from,
{
    if from < exprs.len() {
        checking_is_framed(exprs[from as int], st);
        sequence_is_framed(exprs, from + 1, check_expression(exprs[from as int], st).state);
    }
}

proof fn bindings_are_framed(bindings: Seq<Assignment>, from: nat, st: CheckState)
    ensures
        framed(st, check_bindings(bindings, from, st)),
    decreases bindings, bindings.len() - from,
{
    if from < bindings.len() {
        let value = check_expression(*bindings[from as int].body, st);
        checking_is_framed(*bindings[from as int].body, st);
        let next = match bindings[from as int].variable {
            Atom::Variable(id) => value.state.declare(
                id.name@,
                Symbol::Variable { var_type: value.ty },
            ),
            _ => value.state,
        };
        bindings_are_framed(bindings, from + 1, next);
    }
}

proof fn elifs_are_framed(
    branches: Seq<(Keyword, Expression, Expression)>,
    from: nat,
    st: CheckState,
)
    ensures
        framed(st, check_elifs(branches, from, st)),
    decreases branches, branches.len() - from,
{
    if from < branches.len() {
        let s1 = check_condition(branches[from as int].1, "elif"@, st);
        condition_is_framed(branches[from as int].1, "elif"@, st);
        checking_is_framed(branches[from as int].2, s1);
        elifs_are_framed(branches, from + 1, check_expression(branches[from as int].2, s1).state);
    }
}

proof fn ifelse_is_framed(i: IfElse, st: CheckState)
    ensures
        framed(st, check_ifelse(i, st).state),
    decreases i, 0nat,
{
    let s0 = check_condition(*i.condition, "if"@, st);
    condition_is_framed(*i.condition, "if"@, st);
    checking_is_framed(*i.then_branch, s0);
    let s1 = check_expression(*i.then_branch, s0).state;
    elifs_are_framed(i.elif_branches@, 0, s1);
    let s2 = check_elifs(i.elif_branches@, 0, s1);
    match i.else_branch {
        Some(e) => {
            checking_is_framed(*e, s2);
        },
        None => {},
    }
}

proof fn arguments_are_framed(
    args: Seq<Expression>,
    from: nat,
    params: Seq<Ty>,
    name: Seq<char>,
    line: nat,
    st: CheckState,
)
    ensures
        framed(st, check_arguments(args, from, params, name, line, st)),
    decreases args, args.len() - from,
{
    if from < args.len() {
        let arg = check_expression(args[from as int], st);
        checking_is_framed(args[from as int], st);
        arguments_are_framed(
            args,
            from + 1,
            params,
            name,
            line,
            arg.state.report_if(
                from < params.len() && arg.ty != params[from as int],
                argument_message(line, arg.ty, params[from as int], name),
            ),
        );
    }
}

proof fn call_is_framed(c: FunctionCall, st: CheckState)
    ensures
        framed(st, check_function_call(c, st).state),
    decreases c, 0nat,
{
    let name = c.funct_name.name@;
    let line = st.line(c.funct_name.position);
    match resolve(st.scopes, name) {
        Some(Symbol::Function { return_type, param_types }) => {
            arguments_are_framed(
                c.arguments@,
                0,
                param_types,
                name,
                line,
                st.report_if(
                    param_types.len() != c.arguments@.len(),
                    crate::checking::arity_message(
                        line,
                        name,
                        param_types.len(),
                        c.arguments@.len(),
                    ),
                ),
            );
        },
        _ => {
            sequence_is_framed(
                c.arguments@,
                0,
                st.report(crate::checking::undeclared_function_message(line, name)),
            );
        },
    }
}

proof fn parameters_are_framed(params: Seq<FunctionParams>, from: nat, st: CheckState)
    ensures
        framed(st, declare_parameters(params, from, st)),
    decreases params.len() - from,
{
    if from < params.len() {
        parameters_are_framed(
            params,
            from + 1,
            st.declare(
                params[from as int].name.name@,
                Symbol::Variable { var_type: parse_type(params[from as int].signature@) },
            ),
        );
    }
}

/// A block leaves the scopes exactly as it found them: nothing that is
/// bound inside it is visible after it.
pub proof fn block_restores_scopes(b: Block, st: CheckState)
    ensures
        restored(st, check_block(b, st).state),
        framed(st, check_block(b, st).state),
    decreases b, 0nat,
{
    sequence_is_framed(b.expression_list.expressions@, 0, st.enter());
    closing_restores(
        st,
        st.enter(),
        check_sequence(b.expression_list.expressions@, 0, st.enter()),
    );
}

/// A `let` leaves the scopes exactly as it found them: its bindings end
/// with it.
pub proof fn letin_restores_scopes(l: LetIn, st: CheckState)
    ensures
        restored(st, check_letin(l, st).state),
        framed(st, check_letin(l, st).state),
    decreases l, 0nat,
{
    let s1 = check_bindings(l.bindings@, 0, st.enter());
    bindings_are_framed(l.bindings@, 0, st.enter());
    checking_is_framed(*l.body, s1);
    closing_restores(st, st.enter(), check_expression(*l.body, s1).state);
}

proof fn for_is_framed(f: For, st: CheckState)
    ensures
        framed(st, check_for(f, st).state),
    decreases f, 1nat,
{
    checking_is_framed(*f.iterable, st);
    for_restores_scopes(f, st);
}

/// After a `for`, the scopes are exactly what they were once the iterable
/// had been checked: the loop variable is bound in the loop's own scope and
/// in no other, so a name that did not resolve before the loop body does not
/// resolve after the loop.
pub proof fn for_restores_scopes(f: For, st: CheckState)
    ensures
        restored(check_expression(*f.iterable, st).state, check_for(f, st).state),
        forall|name: Seq<char>|
            resolve(check_for(f, st).state.scopes, name) == resolve(
                check_expression(*f.iterable, st).state.scopes,
                name,
            ),
    decreases f, 0nat,
{
    let s1 = check_expression(*f.iterable, st).state;
    let reported = s1.report_if(
        !(*f.iterable is Range),
        crate::checking::iterable_message(crate::checking::expression_line(*f.iterable, s1)),
    );
    let s2 = reported.enter();
    let s3 = match variable_name(*f.var) {
        Some(name) => s2.declare(name, Symbol::Variable { var_type: Ty::Number }),
        None => s2,
    };
    checking_is_framed(*f.body, s3);
    let s4 = check_expression(*f.body, s3).state;
    assert(framed(s2, s4));
    closing_restores(s1, s2, s4);
}

/// The state in which the body of a `for` is checked: the iterable has been
/// checked and reported if it is no range, the loop's scope is open, and the
/// loop variable is bound in it.
pub open spec fn for_body_state(f: For, st: CheckState) -> CheckState {
    let s1 = check_expression(*f.iterable, st).state;
    let s2 = s1.report_if(
        !(*f.iterable is Range),
        crate::checking::iterable_message(crate::checking::expression_line(*f.iterable, s1)),
    ).enter();
    match variable_name(*f.var) {
        Some(name) => s2.declare(name, Symbol::Variable { var_type: Ty::Number }),
        None => s2,
    }
}

/// Where the body of a `for` begins, the loop variable resolves to a number:
/// a reference to it there adds no diagnostic and has type `Number`. The
/// body is checked in that state, and the loop's scope ends with it.
pub proof fn loop_variable_is_a_number_in_the_body(f: For, st: CheckState, position: Position)
    ensures
        check_for(f, st).state == check_expression(*f.body, for_body_state(f, st)).state.exit(),
        match variable_name(*f.var) {
            Some(name) => resolve(for_body_state(f, st).scopes, name) == Some(
                Symbol::Variable { var_type: Ty::Number },
            ) && check_variable(name, position, for_body_state(f, st)) == for_body_state(
                f,
                st,
            ).typed(Ty::Number),
            None => true,
        },
{
    let s1 = check_expression(*f.iterable, st).state;
    let s2 = s1.report_if(
        !(*f.iterable is Range),
        crate::checking::iterable_message(crate::checking::expression_line(*f.iterable, s1)),
    ).enter();
    match variable_name(*f.var) {
        Some(name) => {
            let s3 = s2.declare(name, Symbol::Variable { var_type: Ty::Number });
            assert(s3.scopes.last().contains_key(name));
        },
        None => {},
    }
}

/// After a function definition the scopes hold the function's signature,
/// recorded in the scope that was innermost, and nothing else that is new:
/// the parameters end with the body.
pub proof fn function_def_is_framed(d: FunctionDef, st: CheckState)
    ensures
        framed(st, check_function_def(d, st).state),
        check_function_def(d, st).state.scopes =~= bind(
            st.scopes,
            d.name.name@,
            Symbol::Function {
                return_type: parse_type(d.return_type@),
                param_types: declared_types(d.params@),
            },
        ),
    decreases d, 0nat,
{
    let recorded = st.declare(
        d.name.name@,
        Symbol::Function {
            return_type: parse_type(d.return_type@),
            param_types: declared_types(d.params@),
        },
    );
    let s2 = declare_parameters(d.params@, 0, recorded.enter());
    parameters_are_framed(d.params@, 0, recorded.enter());
    checking_is_framed(*d.body, s2);
    closing_restores(recorded, recorded.enter(), check_expression(*d.body, s2).state);
}

/// After any expression the scope stack is as deep as it was before.
pub proof fn scope_depth_is_balanced(e: Expression, st: CheckState)
    ensures
        check_expression(e, st).state.scopes.len() == st.scopes.len(),
{
    checking_is_framed(e, st);
}

/// What lowering may do to a state on success: keep the depth of the
/// storage scopes and every scope but the innermost, keep the recorded
/// signatures, never take a number back, and only add to what is written.
pub open spec fn advanced(before: GenState, after: GenState) -> bool {
    &&& same_outer(before.env, after.env)
    &&& after.table == before.table
    &&& after.temp_count >= before.temp_count
    &&& after.string_label_count >= before.string_label_count
    &&& extends(before.code, after.code)
    &&& extends(before.functions, after.functions)
    &&& extends(before.string_globals, after.string_globals)
}

/// Whether `model` failed or reached a state that `before` advanced to.
pub open spec fn advances(before: GenState, model: Lowered) -> bool {
    match model {
        Ok(after) => advanced(before, after),
        Err(_) => true,
    }
}

/// Whether `model` failed or reached a state that `before` advanced to
/// with the storage scopes exactly as they were.
pub open spec fn advances_in_place(before: GenState, model: Lowered) -> bool {
    match model {
        Ok(after) => advanced(before, after) && after.env =~= before.env,
        Err(_) => true,
    }
}

proof fn fresh_advances(st: GenState, line: spec_fn(Seq<char>) -> Seq<char>)
    ensures
        advances_in_place(st, emit_fresh(st, line)),
{
}

/// A state reached inside a scope opened on `before` gives `before`'s
/// scopes back when that scope is closed.
proof fn closing_restores_slots(before: GenState, opened: GenState, inside: GenState)
    requires
        opened.env == before.env.push(Map::empty()),
        same_outer(opened.env, inside.env),
    ensures
        inside.exit().env =~= before.env,
{
    assert forall|j: int| 0 <= j < before.env.len() implies inside.env[j] == before.env[j] by {
        assert(opened.env[j] == before.env[j]);
    }
}

/// Lowering an expression, where it succeeds, keeps the depth of the
/// storage scopes and every scope but the innermost, hands out numbers in
/// rising order only, and adds to the text without changing what is there.
pub proof fn lowering_advances(e: Expression, st: GenState)
    ensures
        advances(st, lower_expression(e, st)),
    decreases e, 1nat,
{
    match e {
        Expression::BinaryOp(b) => {
            binary_op_advances(b, st);
        },
        Expression::Atom(atom) => {
            atom_advances(*atom, st);
        },
        Expression::IfElse(i) => {
            guards_advance(*i, 0, st);
        },
        Expression::LetIn(l) => {
            letin_restores_slots(*l, st);
        },
        Expression::For(f) => {
            for_restores_slots(*f, st);
        },
        Expression::Print(inner, _) => {
            print_advances(*inner, st);
        },
        Expression::While(w) => {
            while_advances(*w, st);
        },
        Expression::Block(b) => {
            block_restores_slots(*b, st);
        },
        Expression::UnaryOp(u) => {
            unary_op_advances(u, st);
        },
        Expression::Range(start, end) => {
            lowering_advances(*start, st);
            match lower_expression(*start, st) {
                Ok(s1) => {
                    lowering_advances(*end, s1);
                },
                Err(_) => {},
            }
        },
        Expression::FunctionCall(c) => {
            call_advances(c, st);
        },
        Expression::FunctionDef(d) => {
            function_def_restores_slots(d, st);
        },
        _ => {},
    }
}

proof fn atom_advances(atom: Atom, st: GenState)
    ensures
        advances(st, lower_atom(atom, st)),
    decreases atom, 0nat,
{
    match atom {
        Atom::Group(group) => {
            lowering_advances(*group.expression, st);
        },
        Atom::Variable(id) => {
            match resolve(st.env, id.name@) {
                Some(slot) => {
                    fresh_advances(st, |temp: Seq<char>| line_load(temp, slot));
                },
                None => {},
            }
        },
        _ => {},
    }
}

proof fn binary_op_advances(b: BinaryOp, st: GenState)
    ensures
        advances(st, lower_binary_op(b, st)),
    decreases b, 0nat,
{
    if b.operator is Assign {
        lowering_advances(*b.right, st);
    } else {
        lowering_advances(*b.left, st);
        match lower_expression(*b.left, st) {
            Ok(s1) => {
                lowering_advances(*b.right, s1);
                match lower_expression(*b.right, s1) {
                    Ok(s2) => {
                        fresh_advances(
                            s2,
                            |temp: Seq<char>|
                                line_binary(
                                    temp,
                                    instruction_head(b.operator),
                                    s1.last_temp,
                                    s2.last_temp,
                                ),
                        );
                    },
                    Err(_) => {},
                }
            },
            Err(_) => {},
        }
    }
}

proof fn unary_op_advances(u: UnaryOp, st: GenState)
    ensures
        advances(st, lower_unary_op(u, st)),
    decreases u, 0nat,
{
    lowering_advances(*u.expr, st);
    match lower_expression(*u.expr, st) {
        Ok(s1) => {
            fresh_advances(s1, |temp: Seq<char>| line_binary(temp, "sub i32"@, "0"@, s1.last_temp));
            fresh_advances(
                s1,
                |temp: Seq<char>| line_binary(temp, "xor i1"@, s1.last_temp, "true"@),
            );
        },
        Err(_) => {},
    }
}

proof fn sequence_advances(exprs: Seq<Expression>, from: nat, st: GenState)
    ensures
        advances(st, lower_sequence(exprs, from, st)),
    decreases exprs, exprs.len() - from,
{
    if from < exprs.len() {
        lowering_advances(exprs[from as int], st);
        match lower_expression(exprs[from as int], st) {
            Ok(s1) => {
                sequence_advances(exprs, from + 1, s1);
            },
            Err(_) => {},
        }
    }
}

/// A block, where its lowering succeeds, leaves the storage scopes exactly
/// as it found them.
pub proof fn block_restores_slots(b: Block, st: GenState)
    ensures
        advances_in_place(st, lower_block(b, st)),
    decreases b, 0nat,
{
    sequence_advances(b.expression_list.expressions@, 0, st.enter());
    match lower_sequence(b.expression_list.expressions@, 0, st.enter()) {
        Ok(s1) => {
            closing_restores_slots(st, st.enter(), s1);
        },
        Err(_) => {},
    }
}

proof fn bindings_advance(bindings: Seq<Assignment>, from: nat, st: GenState)
    ensures
        advances(st, lower_bindings(bindings, from, st)),
    decreases bindings, bindings.len() - from,
{
    if from < bindings.len() {
        match bindings[from as int].variable {
            Atom::Variable(id) => {
                let slot = slot_name(id.name@, st.env.len());
                let s0 = st.emit(line_alloca(slot));
                lowering_advances(*bindings[from as int].body, s0);
                match lower_expression(*bindings[from as int].body, s0) {
                    Ok(s1) => {
                        bindings_advance(
                            bindings,
                            from + 1,
                            s1.emit(line_store(s1.last_temp, "%"@ + slot)).declare(
                                id.name@,
                                "%"@ + slot,
                            ),
                        );
                    },
                    Err(_) => {},
                }
            },
            _ => {},
        }
    }
}

/// A `let`, where its lowering succeeds, leaves the storage scopes exactly
/// as it found them.
pub proof fn letin_restores_slots(l: LetIn, st: GenState)
    ensures
        advances_in_place(st, lower_letin(l, st)),
    decreases l, 0nat,
{
    bindings_advance(l.bindings@, 0, st.enter());
    match lower_bindings(l.bindings@, 0, st.enter()) {
        Ok(s1) => {
            lowering_advances(*l.body, s1);
            match lower_expression(*l.body, s1) {
                Ok(s2) => {
                    closing_restores_slots(st, st.enter(), s2);
                },
                Err(_) => {},
            }
        },
        Err(_) => {},
    }
}

proof fn guards_advance(i: IfElse, level: nat, st: GenState)
    ensures
        advances(st, lower_guards(i, level, st)),
    decreases i, i.elif_branches@.len() + 1 - level,
{
    if level > i.elif_branches@.len() {
        match i.else_branch {
            Some(e) => {
                lowering_advances(*e, st);
            },
            None => {
                fresh_advances(st, |temp: Seq<char>| line_number(temp, 0));
            },
        }
    } else if level >= usize::MAX || !st.can_count() {
    } else {
        let n = st.temp_count;
        lowering_advances(guard_condition(i, level), st.bump());
        match lower_expression(guard_condition(i, level), st.bump()) {
            Ok(s1) => {
                let s1b = s1.emit(line_branch(s1.last_temp, then_label(n), else_label(n))).emit(
                    line_label(then_label(n)),
                );
                lowering_advances(guard_branch(i, level), s1b);
                match lower_expression(guard_branch(i, level), s1b) {
                    Ok(s2) => {
                        let s2b = s2.emit(line_jump(merge_label(n))).emit(
                            line_label(else_label(n)),
                        );
                        guards_advance(i, level + 1, s2b);
                        match lower_guards(i, level + 1, s2b) {
                            Ok(s3) => {
                                fresh_advances(
                                    s3.emit(line_jump(merge_label(n))).emit(
                                        line_label(merge_label(n)),
                                    ),
                                    |temp: Seq<char>|
                                        line_phi(
                                            temp,
                                            s2.last_temp,
                                            then_label(n),
                                            s3.last_temp,
                                            else_label(n),
                                        ),
                                );
                            },
                            Err(_) => {},
                        }
                    },
                    Err(_) => {},
                }
            },
            Err(_) => {},
        }
    }
}

proof fn while_advances(w: While, st: GenState)
    ensures
        advances(st, lower_while(w, st)),
    decreases w, 0nat,
{
    if st.temp_count + 3 <= usize::MAX {
        let cond = label_name(st.temp_count);
        let body = label_name(st.temp_count + 1);
        let end = label_name(st.temp_count + 2);
        let s0 = GenState { temp_count: st.temp_count + 3, ..st };
        let s0b = s0.emit(line_jump(cond)).emit(line_label(cond));
        lowering_advances(*w.cond, s0b);
        match lower_expression(*w.cond, s0b) {
            Ok(s1) => {
                let s1b = s1.emit(line_branch(s1.last_temp, body, end)).emit(line_label(body));
                lowering_advances(*w.body, s1b);
            },
            Err(_) => {},
        }
    }
}

/// A `for`, where its lowering succeeds, leaves the storage scopes exactly
/// as it found them: the slot of its variable is not visible after it.
pub proof fn for_restores_slots(f: For, st: GenState)
    ensures
        advances_in_place(st, lower_for(f, st)),
    decreases f, 0nat,
{
    match variable_name(*f.var) {
        Some(name) => match *f.iterable {
            Expression::Range(start, end) => {
                let s0 = st.enter();
                let slot = slot_name(name, s0.env.len());
                lowering_advances(*start, s0.emit(line_alloca(slot)));
                match lower_expression(*start, s0.emit(line_alloca(slot))) {
                    Ok(s1) => {
                        let s1b = s1.emit(line_store(s1.last_temp, "%"@ + slot));
                        lowering_advances(*end, s1b);
                        match lower_expression(*end, s1b) {
                            Ok(s2) => {
                                if s2.temp_count + 5 <= usize::MAX {
                                    let head = loop_head(
                                        s2.declare(name, "%"@ + slot),
                                        slot,
                                        s2.last_temp,
                                    );
                                    assert(advanced(s2, head));
                                    lowering_advances(*f.body, head);
                                    match lower_expression(*f.body, head) {
                                        Ok(s3) => {
                                            if s3.temp_count + 2 <= usize::MAX {
                                                let tail = loop_tail(s3, slot, s2.temp_count);
                                                assert(advanced(s3, tail));
                                                closing_restores_slots(st, s0, tail);
                                            }
                                        },
                                        Err(_) => {},
                                    }
                                }
                            },
                            Err(_) => {},
                        }
                    },
                    Err(_) => {},
                }
            },
            _ => {},
        },
        None => {},
    }
}

proof fn print_advances(e: Expression, st: GenState)
    ensures
        advances(st, lower_print(e, st)),
    decreases e, 2nat,
{
    lowering_advances(e, st);
}

proof fn arguments_advance(
    args: Seq<Expression>,
    from: nat,
    operands: Seq<Seq<char>>,
    st: GenState,
)
    ensures
        match lower_arguments(args, from, operands, st) {
            Ok((after, _)) => advanced(st, after),
            Err(_) => true,
        },
    decreases args, args.len() - from,
{
    if from < args.len() {
        lowering_advances(args[from as int], st);
        match lower_expression(args[from as int], st) {
            Ok(s1) => {
                arguments_advance(args, from + 1, operands.push(s1.last_temp), s1);
            },
            Err(_) => {},
        }
    }
}

proof fn call_advances(c: FunctionCall, st: GenState)
    ensures
        advances(st, lower_function_call(c, st)),
    decreases c, 0nat,
{
    match resolve(st.table, c.funct_name.name@) {
        Some(Symbol::Function { return_type, param_types }) => {
            arguments_advance(c.arguments@, 0, Seq::empty(), st);
            match lower_arguments(c.arguments@, 0, Seq::empty(), st) {
                Ok((s1, operands)) => {
                    match (
                        typed_operands(
                            operands,
                            param_types,
                            paired(operands.len(), param_types.len()),
                        ),
                        machine_type(return_type),
                    ) {
                        (Some(arguments), Some(result)) => {
                            fresh_advances(
                                s1,
                                |temp: Seq<char>|
                                    line_call(temp, result, c.funct_name.name@, arguments),
                            );
                        },
                        _ => {},
                    }
                },
                Err(_) => {},
            }
        },
        _ => {},
    }
}

proof fn parameters_advance(
    params: Seq<FunctionParams>,
    from: nat,
    lines: Seq<Seq<char>>,
    st: GenState,
)
    ensures
        match lower_parameters(params, from, lines, st) {
            Ok((after, _)) => advanced(st, after) && after.code == st.code,
            Err(_) => true,
        },
    decreases params.len() - from,
{
    if from < params.len() {
        let p = params[from as int];
        match machine_type(parse_type(p.signature@)) {
            Some(ty) => {
                let slot = slot_name(p.name.name@, st.env.len());
                parameters_advance(
                    params,
                    from + 1,
                    lines.push(line_param_alloca(slot, ty)).push(line_param_store(slot, ty, from)),
                    st.declare(p.name.name@, "%"@ + slot),
                );
            },
            None => {},
        }
    }
}

/// A function definition, where its lowering succeeds, leaves the storage
/// scopes and the instruction stream exactly as it found them: what it
/// writes goes to the buffer of functions.
pub proof fn function_def_restores_slots(d: FunctionDef, st: GenState)
    ensures
        advances_in_place(st, lower_function_def(d, st)),
        lower_function_def(d, st) matches Ok(after) ==> after.code == st.code,
    decreases d, 0nat,
{
    match resolve(st.table, d.name.name@) {
        Some(Symbol::Function { return_type, param_types }) => {
            match (
                header_parameters(param_types, param_types.len()),
                result_machine_type(return_type),
            ) {
                (Some(parameters), Some(result)) => {
                    let first = seq![line_define(result, d.name.name@, parameters)];
                    parameters_advance(d.params@, 0, first, st.enter());
                    match lower_parameters(d.params@, 0, first, st.enter()) {
                        Ok((s1, head)) => {
                            let s1b = GenState { code: Seq::empty(), ..s1 };
                            lowering_advances(*d.body, s1b);
                            match lower_expression(*d.body, s1b) {
                                Ok(s2) => {
                                    closing_restores_slots(st, st.enter(), s2);
                                },
                                Err(_) => {},
                            }
                        },
                        Err(_) => {},
                    }
                },
                _ => {},
            }
        },
        _ => {},
    }
}

} // verus!
