//! Counting the references that resolve to no variable: the checker reports
//! each of them once, and reports nothing else in those words.
use vstd::prelude::*;
use crate::ast::{Assignment, Atom, Expression, FunctionCall, FunctionDef, FunctionParams};
use crate::checking::{
    argument_message, arity_message, check_arguments, check_assignment, check_atom,
    check_binary_op, check_bindings, check_block, check_condition, check_elifs,
    check_expression, check_for, check_function_call, check_function_def, check_ifelse,
    check_letin, check_sequence, check_unary_op, check_while, condition_message,
    declare_parameters, declared_types, expression_line, iterable_message, line_tag,
    operand_message, start_state, type_text, undeclared_function_message,
    undeclared_variable_message, CheckState,
};
use crate::symbol_table::{resolve, Symbol};
use crate::text::nat_text;
use crate::theorems::for_body_state;
use crate::tokens::{Keyword, OperatorClass};
use crate::types::{parse_type, Ty};

verus! {

/// Whether a diagnostic says that a variable is not declared.
pub open spec fn names_undeclared_variable(message: Seq<char>) -> bool {
    exists|line: nat, name: Seq<char>| message == undeclared_variable_message(line, name)
}

/// How many of the diagnostics say that a variable is not declared.
pub open spec fn undeclared_count(errors: Seq<Seq<char>>) -> nat
    decreases errors.len(),
{
    if errors.len() == 0 {
        0
    } else {
        undeclared_count(errors.drop_last()) + if names_undeclared_variable(errors.last()) {
            1nat
        } else {
            0nat
        }
    }
}

/// A numeral is one or more digits.
proof fn numeral_is_digits(n: nat)
    ensures
        nat_text(n).len() >= 1,
        forall|i: int| 0 <= i < nat_text(n).len() ==> '0' <= #[trigger] nat_text(n)[i] <= '9',
    decreases n,
{
    if n >= 10 {
        numeral_is_digits(n / 10);
    }
}

/// The tag of a line ends where its numeral ends, so what follows a tag is
/// the same whichever way the whole is read.
proof fn tag_is_unambiguous(l1: nat, b1: Seq<char>, l2: nat, b2: Seq<char>)
    requires
        line_tag(l1) + b1 == line_tag(l2) + b2,
    ensures
        b1 == b2,
{
    reveal_strlit("Línea ");
    reveal_strlit(": ");
    numeral_is_digits(l1);
    numeral_is_digits(l2);
    let d1 = nat_text(l1);
    let d2 = nat_text(l2);
    let m1 = line_tag(l1) + b1;
    let m2 = line_tag(l2) + b2;
    assert(line_tag(l1) =~= "Línea "@ + d1 + ": "@);
    assert(line_tag(l2) =~= "Línea "@ + d2 + ": "@);
    assert(line_tag(l1).len() == 8 + d1.len());
    assert(line_tag(l2).len() == 8 + d2.len());
    let p1 = 6 + d1.len() as int;
    let p2 = 6 + d2.len() as int;
    if d1.len() < d2.len() {
        assert(m1[p1] == line_tag(l1)[p1]);
        assert(line_tag(l1)[p1] == ':');
        assert(m2[p1] == line_tag(l2)[p1]);
        assert(line_tag(l2)[p1] == d2[d1.len() as int]);
        assert(false);
    }
    if d2.len() < d1.len() {
        assert(m2[p2] == line_tag(l2)[p2]);
        assert(line_tag(l2)[p2] == ':');
        assert(m1[p2] == line_tag(l1)[p2]);
        assert(line_tag(l1)[p2] == d1[d2.len() as int]);
        assert(false);
    }
    let k = line_tag(l1).len() as int;
    assert(b1 =~= m1.skip(k));
    assert(b2 =~= m2.skip(k));
}

/// A tagged diagnostic whose text does not begin with the letter that
/// `Variable` begins with is about something else.
proof fn tagged_other(line: nat, body: Seq<char>)
    requires
        body.len() > 0,
        body[0] != 'V',
    ensures
        !names_undeclared_variable(line_tag(line) + body),
{
    reveal_strlit("Variable '");
    if names_undeclared_variable(line_tag(line) + body) {
        let (l2, name) = choose|l2: nat, name: Seq<char>|
            line_tag(line) + body == undeclared_variable_message(l2, name);
        let b2 = "Variable '"@ + name + "' no declarada"@;
        assert(undeclared_variable_message(l2, name) =~= line_tag(l2) + b2);
        tag_is_unambiguous(line, body, l2, b2);
        assert(b2[0] == 'V');
    }
}

/// A diagnostic that does not begin as a tag begins is about something
/// else.
proof fn untagged_other(message: Seq<char>)
    requires
        message.len() > 0,
        message[0] != 'L',
    ensures
        !names_undeclared_variable(message),
{
    reveal_strlit("Línea ");
    if names_undeclared_variable(message) {
        let (l2, name) = choose|l2: nat, name: Seq<char>|
            message == undeclared_variable_message(l2, name);
        assert(undeclared_variable_message(l2, name)[0] == 'L');
    }
}

/// The diagnostic about an unresolved variable is one about an undeclared
/// variable; no other diagnostic of the checker is.
pub proof fn only_one_diagnostic_names_undeclared_variables()
    ensures
        forall|line: nat, name: Seq<char>|
            names_undeclared_variable(#[trigger] undeclared_variable_message(line, name)),
        forall|line: nat, name: Seq<char>|
            !names_undeclared_variable(#[trigger] undeclared_function_message(line, name)),
        forall|line: nat, name: Seq<char>, expected: nat, given: nat|
            !names_undeclared_variable(#[trigger] arity_message(line, name, expected, given)),
        forall|line: nat, got: Ty, expected: Ty, name: Seq<char>|
            !names_undeclared_variable(#[trigger] argument_message(line, got, expected, name)),
        forall|class: OperatorClass, line: nat|
            class != OperatorClass::Assignment ==> !names_undeclared_variable(
                #[trigger] operand_message(class, line),
            ),
        forall|line: Option<nat>, word: Seq<char>|
            !names_undeclared_variable(#[trigger] condition_message(line, word)),
        forall|line: Option<nat>| !names_undeclared_variable(#[trigger] iterable_message(line)),
{
    reveal_strlit("Función '");
    reveal_strlit("El argumento tiene tipo '");
    reveal_strlit("Operación aritmética requiere números");
    reveal_strlit("Comparación entre tipos incompatibles");
    reveal_strlit("Operador lógico requiere booleanos");
    reveal_strlit("Concatenación requiere string o número");
    reveal_strlit("Condición de ");
    reveal_strlit("El iterable de for debe ser un rango");
    assert forall|line: nat, name: Seq<char>|
        !names_undeclared_variable(#[trigger] undeclared_function_message(line, name)) by {
        let body = "Función '"@ + name + "' no declarada."@;
        assert(undeclared_function_message(line, name) =~= line_tag(line) + body);
        tagged_other(line, body);
    }
    assert forall|line: nat, name: Seq<char>, expected: nat, given: nat|
        !names_undeclared_variable(#[trigger] arity_message(line, name, expected, given)) by {
        let body = "Función '"@ + name + "' espera "@ + nat_text(expected)
            + " argumentos, pero se pasaron "@ + nat_text(given) + "."@;
        assert(arity_message(line, name, expected, given) =~= line_tag(line) + body);
        tagged_other(line, body);
    }
    assert forall|line: nat, got: Ty, expected: Ty, name: Seq<char>|
        !names_undeclared_variable(#[trigger] argument_message(line, got, expected, name)) by {
        let body = "El argumento tiene tipo '"@ + type_text(got) + "', pero se esperaba '"@
            + type_text(expected) + "' en la función '"@ + name + "'."@;
        assert(argument_message(line, got, expected, name) =~= line_tag(line) + body);
        tagged_other(line, body);
    }
    assert forall|class: OperatorClass, line: nat|
        class != OperatorClass::Assignment implies !names_undeclared_variable(
        #[trigger] operand_message(class, line),
    ) by {
        let body = match class {
            OperatorClass::Arithmetic => "Operación aritmética requiere números"@,
            OperatorClass::Comparison => "Comparación entre tipos incompatibles"@,
            OperatorClass::Logical => "Operador lógico requiere booleanos"@,
            OperatorClass::Concatenation => "Concatenación requiere string o número"@,
            OperatorClass::Assignment => Seq::empty(),
        };
        tagged_other(line, body);
    }
    assert forall|line: Option<nat>, word: Seq<char>|
        !names_undeclared_variable(#[trigger] condition_message(line, word)) by {
        let body = "Condición de "@ + word + " debe ser booleana"@;
        match line {
            Some(l) => {
                assert(condition_message(line, word) =~= line_tag(l) + body);
                tagged_other(l, body);
            },
            None => {
                assert(condition_message(line, word) =~= body);
                untagged_other(body);
            },
        }
    }
    assert forall|line: Option<nat>|
        !names_undeclared_variable(#[trigger] iterable_message(line)) by {
        let body = "El iterable de for debe ser un rango"@;
        match line {
            Some(l) => {
                tagged_other(l, body);
            },
            None => {
                assert(iterable_message(line) =~= body);
                untagged_other(body);
            },
        }
    }
}

/// Whether a reference to `name` in state `st` resolves to no variable.
pub open spec fn unresolved_here(name: Seq<char>, st: CheckState) -> nat {
    match resolve(st.scopes, name) {
        Some(Symbol::Variable { .. }) => 0,
        _ => 1,
    }
}

pub open spec fn unresolved_in_atom(atom: Atom, st: CheckState) -> nat
    decreases atom, 0nat,
{
    match atom {
        Atom::Variable(id) => unresolved_here(id.name@, st),
        Atom::Group(group) => unresolved_in(*group.expression, st),
        _ => 0,
    }
}

pub open spec fn unresolved_in_sequence(exprs: Seq<Expression>, from: nat, st: CheckState) -> nat
    decreases exprs, exprs.len() - from,
{
    if from >= exprs.len() {
        0
    } else {
        unresolved_in(exprs[from as int], st) + unresolved_in_sequence(
            exprs,
            from + 1,
            check_expression(exprs[from as int], st).state,
        )
    }
}

pub open spec fn unresolved_in_bindings(bindings: Seq<Assignment>, from: nat, st: CheckState) -> nat
    decreases bindings, bindings.len() - from,
{
    if from >= bindings.len() {
        0
    } else {
        unresolved_in(*bindings[from as int].body, st) + unresolved_in_bindings(
            bindings,
            from + 1,
            check_assignment(bindings[from as int], st),
        )
    }
}

pub open spec fn unresolved_in_elifs(
    branches: Seq<(Keyword, Expression, Expression)>,
    from: nat,
    st: CheckState,
) -> nat
    decreases branches, branches.len() - from,
{
    if from >= branches.len() {
        0
    } else {
        let s1 = check_condition(branches[from as int].1, "elif"@, st);
        unresolved_in(branches[from as int].1, st) + unresolved_in(branches[from as int].2, s1)
            + unresolved_in_elifs(
            branches,
            from + 1,
            check_expression(branches[from as int].2, s1).state,
        )
    }
}

pub open spec fn unresolved_in_arguments(
    args: Seq<Expression>,
    from: nat,
    params: Seq<Ty>,
    name: Seq<char>,
    line: nat,
    st: CheckState,
) -> nat
    decreases args, args.len() - from,
{
    if from >= args.len() {
        0
    } else {
        let arg = check_expression(args[from as int], st);
        unresolved_in(args[from as int], st) + unresolved_in_arguments(
            args,
            from + 1,
            params,
            name,
            line,
            arg.state.report_if(
                from < params.len() && arg.ty != params[from as int],
                argument_message(line, arg.ty, params[from as int], name),
            ),
        )
    }
}

/// The state in which the arguments of a call are checked: the call itself
/// has been reported if it names no function or has the wrong number of
/// arguments.
pub open spec fn call_state(c: FunctionCall, st: CheckState) -> CheckState {
    let name = c.funct_name.name@;
    let line = st.line(c.funct_name.position);
    match resolve(st.scopes, name) {
        Some(Symbol::Function { return_type, param_types }) => st.report_if(
            param_types.len() != c.arguments@.len(),
            arity_message(line, name, param_types.len(), c.arguments@.len()),
        ),
        _ => st.report(undeclared_function_message(line, name)),
    }
}

pub open spec fn unresolved_in_call(c: FunctionCall, st: CheckState) -> nat
    decreases c, 0nat,
{
    match resolve(st.scopes, c.funct_name.name@) {
        Some(Symbol::Function { return_type, param_types }) => unresolved_in_arguments(
            c.arguments@,
            0,
            param_types,
            c.funct_name.name@,
            st.line(c.funct_name.position),
            call_state(c, st),
        ),
        _ => unresolved_in_sequence(c.arguments@, 0, call_state(c, st)),
    }
}

/// The state in which the body of a function is checked: its signature is
/// recorded, its scope is open and its parameters are bound.
pub open spec fn function_body_state(d: FunctionDef, st: CheckState) -> CheckState {
    declare_parameters(
        d.params@,
        0,
        st.declare(
            d.name.name@,
            Symbol::Function {
                return_type: parse_type(d.return_type@),
                param_types: declared_types(d.params@),
            },
        ).enter(),
    )
}

/// How many references in an expression resolve to no variable where the
/// checker meets them: each is looked up in the scopes as they stand at
/// that point of the walk, after every binding that comes before it.
pub open spec fn unresolved_in(e: Expression, st: CheckState) -> nat
    decreases e, 1nat,
{
    match e {
        Expression::BinaryOp(b) => unresolved_in(*b.left, st) + unresolved_in(
            *b.right,
            check_expression(*b.left, st).state,
        ),
        Expression::Atom(atom) => unresolved_in_atom(*atom, st),
        Expression::IfElse(i) => {
            let s0 = check_condition(*i.condition, "if"@, st);
            let s1 = check_expression(*i.then_branch, s0).state;
            unresolved_in(*i.condition, st) + unresolved_in(*i.then_branch, s0)
                + unresolved_in_elifs(i.elif_branches@, 0, s1) + match i.else_branch {
                Some(last) => unresolved_in(*last, check_elifs(i.elif_branches@, 0, s1)),
                None => 0,
            }
        },
        Expression::LetIn(l) => unresolved_in_bindings(l.bindings@, 0, st.enter())
            + unresolved_in(*l.body, check_bindings(l.bindings@, 0, st.enter())),
        Expression::For(f) => unresolved_in(*f.iterable, st) + unresolved_in(
            *f.body,
            for_body_state(*f, st),
        ),
        Expression::Print(inner, _) => unresolved_in(*inner, st),
        Expression::While(w) => unresolved_in(*w.cond, st) + unresolved_in(
            *w.body,
            check_condition(*w.cond, "while"@, st),
        ),
        Expression::Block(b) => unresolved_in_sequence(
            b.expression_list.expressions@,
            0,
            st.enter(),
        ),
        Expression::UnaryOp(u) => unresolved_in(*u.expr, st),
        Expression::Range(start, end) => unresolved_in(*start, st) + unresolved_in(
            *end,
            check_expression(*start, st).state,
        ),
        Expression::FunctionCall(c) => unresolved_in_call(c, st),
        Expression::FunctionDef(d) => unresolved_in(*d.body, function_body_state(d, st)),
        _ => 0,
    }
}

/// One more diagnostic adds one to the count when it names an undeclared
/// variable and nothing otherwise.
proof fn count_after_report(st: CheckState, message: Seq<char>)
    ensures
        undeclared_count(st.report(message).errors) == undeclared_count(st.errors)
            + if names_undeclared_variable(message) {
            1nat
        } else {
            0nat
        },
{
    assert(st.errors.push(message).drop_last() =~= st.errors);
}

/// Whether checking, which led from `before` to `after`, reported `count`
/// undeclared variables.
pub open spec fn reported(before: CheckState, after: CheckState, count: nat) -> bool {
    undeclared_count(after.errors) == undeclared_count(before.errors) + count
}

/// Exactly one diagnostic about an undeclared variable is added for each
/// reference that resolves to no variable where the checker meets it, and
/// none for anything else.
pub proof fn each_unresolved_reference_is_counted_once(e: Expression, st: CheckState)
    ensures
        reported(st, check_expression(e, st).state, unresolved_in(e, st)),
    decreases e, 1nat,
{
    only_one_diagnostic_names_undeclared_variables();
    match e {
        Expression::BinaryOp(b) => {
            let left = check_expression(*b.left, st);
            let right = check_expression(*b.right, left.state);
            each_unresolved_reference_is_counted_once(*b.left, st);
            each_unresolved_reference_is_counted_once(*b.right, left.state);
            let class = b.operator.class_spec();
            if class != OperatorClass::Assignment {
                count_after_report(
                    right.state,
                    operand_message(class, right.state.line(b.operator.position_spec())),
                );
            }
            assert(reported(right.state, check_binary_op(b, st).state, 0));
        },
        Expression::Atom(atom) => {
            atom_is_counted(*atom, st);
        },
        Expression::IfElse(i) => {
            let s0 = check_condition(*i.condition, "if"@, st);
            condition_is_counted(*i.condition, "if"@, st);
            each_unresolved_reference_is_counted_once(*i.then_branch, s0);
            let s1 = check_expression(*i.then_branch, s0).state;
            elifs_are_counted(i.elif_branches@, 0, s1);
            let s2 = check_elifs(i.elif_branches@, 0, s1);
            match i.else_branch {
                Some(last) => {
                    each_unresolved_reference_is_counted_once(*last, s2);
                },
                None => {},
            }
            assert(reported(st, check_ifelse(*i, st).state, unresolved_in(e, st)));
        },
        Expression::LetIn(l) => {
            bindings_are_counted(l.bindings@, 0, st.enter());
            let s1 = check_bindings(l.bindings@, 0, st.enter());
            each_unresolved_reference_is_counted_once(*l.body, s1);
            assert(reported(st, check_letin(*l, st).state, unresolved_in(e, st)));
        },
        Expression::For(f) => {
            let s1 = check_expression(*f.iterable, st).state;
            each_unresolved_reference_is_counted_once(*f.iterable, st);
            count_after_report(s1, iterable_message(expression_line(*f.iterable, s1)));
            each_unresolved_reference_is_counted_once(*f.body, for_body_state(*f, st));
            assert(reported(s1, for_body_state(*f, st), 0));
            assert(reported(st, check_for(*f, st).state, unresolved_in(e, st)));
        },
        Expression::Print(inner, _) => {
            each_unresolved_reference_is_counted_once(*inner, st);
        },
        Expression::While(w) => {
            condition_is_counted(*w.cond, "while"@, st);
            each_unresolved_reference_is_counted_once(
                *w.body,
                check_condition(*w.cond, "while"@, st),
            );
            assert(reported(st, check_while(*w, st).state, unresolved_in(e, st)));
        },
        Expression::Block(b) => {
            sequence_is_counted(b.expression_list.expressions@, 0, st.enter());
            assert(reported(st, check_block(*b, st).state, unresolved_in(e, st)));
        },
        Expression::UnaryOp(u) => {
            let operand = check_expression(*u.expr, st);
            each_unresolved_reference_is_counted_once(*u.expr, st);
            let class = if u.op is Not {
                OperatorClass::Logical
            } else {
                OperatorClass::Arithmetic
            };
            count_after_report(
                operand.state,
                operand_message(class, operand.state.line(u.op.position_spec())),
            );
            assert(reported(operand.state, check_unary_op(u, st).state, 0));
        },
        Expression::Range(start, end) => {
            each_unresolved_reference_is_counted_once(*start, st);
            each_unresolved_reference_is_counted_once(*end, check_expression(*start, st).state);
        },
        Expression::FunctionCall(c) => {
            call_is_counted(c, st);
        },
        Expression::FunctionDef(d) => {
            parameters_report_nothing(
                d.params@,
                0,
                st.declare(
                    d.name.name@,
                    Symbol::Function {
                        return_type: parse_type(d.return_type@),
                        param_types: declared_types(d.params@),
                    },
                ).enter(),
            );
            each_unresolved_reference_is_counted_once(*d.body, function_body_state(d, st));
            assert(reported(st, check_function_def(d, st).state, unresolved_in(e, st)));
        },
        _ => {},
    }
}

proof fn atom_is_counted(atom: Atom, st: CheckState)
    ensures
        reported(st, check_atom(atom, st).state, unresolved_in_atom(atom, st)),
    decreases atom, 0nat,
{
    only_one_diagnostic_names_undeclared_variables();
    match atom {
        Atom::Variable(id) => {
            count_after_report(st, undeclared_variable_message(st.line(id.position), id.name@));
        },
        Atom::Group(group) => {
            each_unresolved_reference_is_counted_once(*group.expression, st);
        },
        _ => {},
    }
}

proof fn condition_is_counted(cond: Expression, word: Seq<char>, st: CheckState)
    ensures
        reported(st, check_condition(cond, word, st), unresolved_in(cond, st)),
    decreases cond, 2nat,
{
    only_one_diagnostic_names_undeclared_variables();
    each_unresolved_reference_is_counted_once(cond, st);
    let c = check_expression(cond, st);
    count_after_report(c.state, condition_message(expression_line(cond, c.state), word));
}

/// In a run of expressions, too, each unresolved reference is reported
/// once: this is the count for a whole program.
pub proof fn sequence_is_counted(exprs: Seq<Expression>, from: nat, st: CheckState)
    ensures
        reported(st, check_sequence(exprs, from, st), unresolved_in_sequence(exprs, from, st)),
    decreases exprs, exprs.len() - from,
{
    if from < exprs.len() {
        each_unresolved_reference_is_counted_once(exprs[from as int], st);
        sequence_is_counted(exprs, from + 1, check_expression(exprs[from as int], st).state);
    }
}

proof fn bindings_are_counted(bindings: Seq<Assignment>, from: nat, st: CheckState)
    ensures
        reported(st, check_bindings(bindings, from, st), unresolved_in_bindings(bindings, from, st)),
    decreases bindings, bindings.len() - from,
{
    if from < bindings.len() {
        each_unresolved_reference_is_counted_once(*bindings[from as int].body, st);
        bindings_are_counted(bindings, from + 1, check_assignment(bindings[from as int], st));
    }
}

proof fn elifs_are_counted(
    branches: Seq<(Keyword, Expression, Expression)>,
    from: nat,
    st: CheckState,
)
    ensures
        reported(st, check_elifs(branches, from, st), unresolved_in_elifs(branches, from, st)),
    decreases branches, branches.len() - from,
{
    if from < branches.len() {
        let s1 = check_condition(branches[from as int].1, "elif"@, st);
        condition_is_counted(branches[from as int].1, "elif"@, st);
        each_unresolved_reference_is_counted_once(branches[from as int].2, s1);
        elifs_are_counted(branches, from + 1, check_expression(branches[from as int].2, s1).state);
    }
}

proof fn arguments_are_counted(
    args: Seq<Expression>,
    from: nat,
    params: Seq<Ty>,
    name: Seq<char>,
    line: nat,
    st: CheckState,
)
    ensures
        reported(
            st,
            check_arguments(args, from, params, name, line, st),
            unresolved_in_arguments(args, from, params, name, line, st),
        ),
    decreases args, args.len() - from,
{
    only_one_diagnostic_names_undeclared_variables();
    if from < args.len() {
        let arg = check_expression(args[from as int], st);
        each_unresolved_reference_is_counted_once(args[from as int], st);
        count_after_report(
            arg.state,
            argument_message(line, arg.ty, params[from as int], name),
        );
        arguments_are_counted(
            args,
            from + 1,
            params,
            name,
            line,
            arg.state.report_if(
                from < params.len() && arg.ty != params[from as int],
                argument_message(line, arg.ty, params[from as int], name),
            ),
        );
    }
}

proof fn call_is_counted(c: FunctionCall, st: CheckState)
    ensures
        reported(st, check_function_call(c, st).state, unresolved_in_call(c, st)),
    decreases c, 0nat,
{
    only_one_diagnostic_names_undeclared_variables();
    let name = c.funct_name.name@;
    let line = st.line(c.funct_name.position);
    match resolve(st.scopes, name) {
        Some(Symbol::Function { return_type, param_types }) => {
            count_after_report(
                st,
                arity_message(line, name, param_types.len(), c.arguments@.len()),
            );
            arguments_are_counted(c.arguments@, 0, param_types, name, line, call_state(c, st));
        },
        _ => {
            count_after_report(st, undeclared_function_message(line, name));
            sequence_is_counted(c.arguments@, 0, call_state(c, st));
        },
    }
}

proof fn parameters_report_nothing(params: Seq<FunctionParams>, from: nat, st: CheckState)
    ensures
        declare_parameters(params, from, st).errors == st.errors,
    decreases params.len() - from,
{
    if from < params.len() {
        parameters_report_nothing(
            params,
            from + 1,
            st.declare(
                params[from as int].name.name@,
                Symbol::Variable { var_type: parse_type(params[from as int].signature@) },
            ),
        );
    }
}

/// A whole program gets exactly as many diagnostics about undeclared
/// variables as it has references that resolve to no variable.
pub proof fn program_reports_each_unresolved_reference_once(
    exprs: Seq<Expression>,
    source: Seq<u8>,
)
    ensures
        undeclared_count(check_sequence(exprs, 0, start_state(source)).errors)
            == unresolved_in_sequence(exprs, 0, start_state(source)),
{
    sequence_is_counted(exprs, 0, start_state(source));
    assert(start_state(source).errors.len() == 0);
}

} // verus!
