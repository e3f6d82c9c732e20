//! The tree printer: an indented outline of a tree, one node per line.
//!
//! The outline is a function of the tree alone, so printing a tree again
//! gives the same lines again.
use vstd::prelude::*;
use vstd::string::StringExecFns;
use crate::ast::{
    AccessTypeProp, Assignment, Atom, BinaryOp, Block, Declarationtypes, Expression,
    ExpressionList, For, FunctionCall, FunctionDef, FunctionParams, Group, IfElse, InstantingTypes,
    LetIn, Program, UnaryOp, While,
};
use crate::text::{lines, push_line};
use crate::tokens::{BinOp, Identifier, Keyword, Literal};
use crate::visitor::{Node, Visitor};

verus! {

/// The indentation of depth `n`: two spaces for each level.
pub open spec fn padding(n: nat) -> Seq<char>
    decreases n,
{
    if n == 0 {
        Seq::empty()
    } else {
        padding((n - 1) as nat) + "  "@
    }
}

/// The indentation one level below `pad`.
pub open spec fn deeper(pad: Seq<char>) -> Seq<char> {
    pad + "  "@
}

/// What kind of literal a literal is, as the outline names it.
pub open spec fn literal_kind(lit: Literal) -> Seq<char> {
    match lit {
        Literal::Number(_, _) => "Number"@,
        Literal::Str(_, _) => "String"@,
        Literal::Bool(_, _) => "Bool"@,
    }
}

pub open spec fn render_literal(lit: Literal, pad: Seq<char>) -> Seq<Seq<char>> {
    seq![pad + literal_kind(lit) + "Literal: "@ + lit.text_spec()]
}

pub open spec fn render_identifier(id: Identifier, pad: Seq<char>) -> Seq<Seq<char>> {
    seq![pad + "Identifier: "@ + id.name@]
}

pub open spec fn render_atom(atom: Atom, pad: Seq<char>) -> Seq<Seq<char>>
    decreases atom, 0nat,
{
    match atom {
        Atom::NumberLiteral(lit) => render_literal(lit, pad),
        Atom::BooleanLiteral(lit) => render_literal(lit, pad),
        Atom::StringLiteral(lit) => render_literal(lit, pad),
        Atom::Variable(id) => seq![pad + "Variable: "@ + id.name@],
        Atom::Group(group) => render_group(group, pad),
    }
}

/// A group shows at the depth of the expression inside it.
pub open spec fn render_group(group: Group, pad: Seq<char>) -> Seq<Seq<char>>
    decreases group, 3nat,
{
    seq![pad + "Group"@] + render_expression(*group.expression, pad)
}

pub open spec fn render_print(inner: Expression, pad: Seq<char>) -> Seq<Seq<char>>
    decreases inner, 3nat,
{
    seq![pad + "Print"@] + render_expression(inner, deeper(pad))
}

pub open spec fn render_range(start: Expression, end: Expression, pad: Seq<char>) -> Seq<Seq<char>> {
    seq![pad + "Range"@, deeper(pad) + "Start:"@] + render_expression(
        start,
        deeper(deeper(pad)),
    ) + seq![deeper(pad) + "End:"@] + render_expression(end, deeper(deeper(pad)))
}

/// The outlines of the expressions from position `from` on, one after the
/// other.
pub open spec fn render_sequence(exprs: Seq<Expression>, from: nat, pad: Seq<char>) -> Seq<
    Seq<char>,
>
    decreases exprs, exprs.len() - from,
{
    if from >= exprs.len() {
        Seq::empty()
    } else {
        render_expression(exprs[from as int], pad) + render_sequence(exprs, from + 1, pad)
    }
}

pub open spec fn render_expression_list(list: ExpressionList, pad: Seq<char>) -> Seq<Seq<char>>
    decreases list, 0nat,
{
    seq![pad + "ExpressionList"@] + render_sequence(list.expressions@, 0, deeper(pad))
}

pub open spec fn render_binary_op(b: BinaryOp, pad: Seq<char>) -> Seq<Seq<char>>
    decreases b, 0nat,
{
    seq![
        if b.operator is Assign {
            pad + "DestructiveAssign:"@
        } else {
            pad + "BinaryOp: "@ + b.operator.text_spec()
        },
    ] + render_expression(*b.left, deeper(pad)) + render_expression(*b.right, deeper(pad))
}

/// The name that a binding binds; empty when its target is not a variable.
pub open spec fn target_name(a: Assignment) -> Seq<char> {
    match a.variable {
        Atom::Variable(id) => id.name@,
        _ => Seq::empty(),
    }
}

pub open spec fn render_assignment(a: Assignment, pad: Seq<char>) -> Seq<Seq<char>>
    decreases a, 0nat,
{
    seq![pad + "Assignment: "@ + target_name(a) + " "@ + a.op.text_spec()] + render_expression(
        *a.body,
        deeper(pad),
    )
}

pub open spec fn render_assignments(items: Seq<Assignment>, from: nat, pad: Seq<char>) -> Seq<
    Seq<char>,
>
    decreases items, items.len() - from,
{
    if from >= items.len() {
        Seq::empty()
    } else {
        render_assignment(items[from as int], pad) + render_assignments(items, from + 1, pad)
    }
}

pub open spec fn render_letin(l: LetIn, pad: Seq<char>) -> Seq<Seq<char>>
    decreases l, 0nat,
{
    seq![pad + "LetIn"@] + render_assignments(l.bindings@, 0, deeper(pad)) + render_expression(
        *l.body,
        deeper(pad),
    )
}

pub open spec fn render_elifs(
    branches: Seq<(Keyword, Expression, Expression)>,
    from: nat,
    pad: Seq<char>,
) -> Seq<Seq<char>>
    decreases branches, branches.len() - from,
{
    if from >= branches.len() {
        Seq::empty()
    } else {
        seq![pad + "Elif:"@] + render_expression(branches[from as int].1, deeper(pad))
            + render_expression(branches[from as int].2, deeper(pad)) + render_elifs(
            branches,
            from + 1,
            pad,
        )
    }
}

pub open spec fn render_ifelse(i: IfElse, pad: Seq<char>) -> Seq<Seq<char>>
    decreases i, 0nat,
{
    let inner = deeper(pad);
    seq![pad + "If"@, inner + "Condition:"@] + render_expression(*i.condition, deeper(inner))
        + seq![inner + "Then:"@] + render_expression(*i.then_branch, deeper(inner)) + render_elifs(
        i.elif_branches@,
        0,
        inner,
    ) + match i.else_branch {
        Some(e) => seq![inner + "Else:"@] + render_expression(*e, deeper(inner)),
        None => Seq::empty(),
    }
}

pub open spec fn render_while(w: While, pad: Seq<char>) -> Seq<Seq<char>>
    decreases w, 0nat,
{
    let inner = deeper(pad);
    seq![pad + "While"@, inner + "Condition:"@] + render_expression(*w.cond, deeper(inner))
        + seq![inner + "Body:"@] + render_expression(*w.body, deeper(inner))
}

pub open spec fn render_for(f: For, pad: Seq<char>) -> Seq<Seq<char>>
    decreases f, 0nat,
{
    let inner = deeper(pad);
    seq![pad + "For"@, inner + "Var:"@] + render_expression(*f.var, deeper(inner)) + seq![
        inner + "Iterable:"@,
    ] + render_expression(*f.iterable, deeper(inner)) + seq![inner + "Body:"@]
        + render_expression(*f.body, deeper(inner))
}

pub open spec fn render_block(b: Block, pad: Seq<char>) -> Seq<Seq<char>>
    decreases b, 1nat,
{
    seq![pad + "Block"@] + render_expression_list(b.expression_list, deeper(pad))
}

pub open spec fn render_unary_op(u: UnaryOp, pad: Seq<char>) -> Seq<Seq<char>>
    decreases u, 0nat,
{
    seq![pad + "UnaryOp: "@ + u.op.text_spec()] + render_expression(*u.expr, deeper(pad))
}

pub open spec fn render_function_call(c: FunctionCall, pad: Seq<char>) -> Seq<Seq<char>>
    decreases c, 0nat,
{
    seq![pad + "FunctionCall: "@ + c.funct_name.name@] + render_sequence(
        c.arguments@,
        0,
        deeper(pad),
    )
}

/// One line for each parameter from position `from` on: its name.
pub open spec fn render_parameters(params: Seq<FunctionParams>, from: nat, pad: Seq<char>) -> Seq<
    Seq<char>,
>
    decreases params.len() - from,
{
    if from >= params.len() {
        Seq::empty()
    } else {
        seq![pad + params[from as int].name.name@] + render_parameters(params, from + 1, pad)
    }
}

pub open spec fn render_function_def(d: FunctionDef, pad: Seq<char>) -> Seq<Seq<char>>
    decreases d, 0nat,
{
    let inner = deeper(pad);
    seq![pad + "FunctionDef: "@ + d.name.name@, inner + "Params:"@] + render_parameters(
        d.params@,
        0,
        deeper(inner),
    ) + seq![inner + "Body:"@] + render_expression(*d.body, deeper(inner))
}

pub open spec fn render_function_defs(defs: Seq<FunctionDef>, from: nat, pad: Seq<char>) -> Seq<
    Seq<char>,
>
    decreases defs, defs.len() - from,
{
    if from >= defs.len() {
        Seq::empty()
    } else {
        render_function_def(defs[from as int], pad) + render_function_defs(defs, from + 1, pad)
    }
}

/// The heading `title` and, below it, `body`; nothing when `body` has no
/// entries to show.
pub open spec fn titled(shown: bool, title: Seq<char>, body: Seq<Seq<char>>) -> Seq<Seq<char>> {
    if shown {
        seq![title] + body
    } else {
        Seq::empty()
    }
}

pub open spec fn render_type_declaration(d: Declarationtypes, pad: Seq<char>) -> Seq<Seq<char>>
    decreases d, 0nat,
{
    let inner = deeper(pad);
    seq![pad + "TypeDeclaration: "@ + d.name_types.name@] + titled(
        d.build@.len() > 0,
        inner + "TypeParams:"@,
        render_parameters(d.build@, 0, deeper(inner)),
    ) + titled(
        d.properties@.len() > 0,
        inner + "Properties:"@,
        render_assignments(d.properties@, 0, deeper(inner)),
    ) + titled(
        d.functions@.len() > 0,
        inner + "Methods:"@,
        render_function_defs(d.functions@, 0, deeper(inner)),
    )
}

pub open spec fn render_type_instantiation(i: InstantingTypes, pad: Seq<char>) -> Seq<Seq<char>>
    decreases i, 0nat,
{
    let inner = deeper(pad);
    seq![pad + "TypeInstantiation: "@ + i.referenced_type.name@] + titled(
        i.params@.len() > 0,
        inner + "Args:"@,
        render_sequence(i.params@, 0, deeper(inner)),
    )
}

pub open spec fn render_access(a: AccessTypeProp, pad: Seq<char>) -> Seq<Seq<char>>
    decreases a, 0nat,
{
    let inner = deeper(pad);
    seq![pad + "TypeMethodAccess: "@ + a.properties.name@, inner + "Instance:"@]
        + render_expression(a.referenced_type, deeper(inner)) + titled(
        a.params@.len() > 0,
        inner + "Args:"@,
        render_sequence(a.params@, 0, deeper(inner)),
    )
}

/// The outline of an expression at indentation `pad`: a line for the node,
/// then the outlines of its children, deeper.
pub open spec fn render_expression(e: Expression, pad: Seq<char>) -> Seq<Seq<char>>
    decreases e, 2nat,
{
    match e {
        Expression::BinaryOp(b) => render_binary_op(b, pad),
        Expression::Atom(atom) => render_atom(*atom, pad),
        Expression::IfElse(i) => render_ifelse(*i, pad),
        Expression::LetIn(l) => render_letin(*l, pad),
        Expression::For(f) => render_for(*f, pad),
        Expression::Print(inner, _) => render_print(*inner, pad),
        Expression::While(w) => render_while(*w, pad),
        Expression::Block(b) => render_block(*b, pad),
        Expression::UnaryOp(u) => render_unary_op(u, pad),
        Expression::Range(start, end) => seq![
            pad + "Range"@,
            deeper(pad) + "Start:"@,
        ] + render_expression(*start, deeper(deeper(pad))) + seq![deeper(pad) + "End:"@]
            + render_expression(*end, deeper(deeper(pad))),
        Expression::FunctionCall(c) => render_function_call(c, pad),
        Expression::FunctionDef(d) => render_function_def(d, pad),
        Expression::TypeDeclaration(d) => render_type_declaration(*d, pad),
        Expression::TypeInstantiation(i) => render_type_instantiation(*i, pad),
        Expression::TypeMethodAccess(a) => render_access(*a, pad),
        Expression::TypePropertyAccess(a) => render_access(*a, pad),
    }
}

/// The outline of a whole program.
pub open spec fn render_program(p: Program, pad: Seq<char>) -> Seq<Seq<char>> {
    seq![pad + "Program"@] + render_expression_list(p.expression_list, deeper(pad))
}

fn deeper_text(pad: &str) -> (r: String)
    ensures
        r@ == deeper(pad@),
{
    let mut r = pad.to_owned();
    r.append("  ");
    r
}

fn heading(out: &mut Vec<String>, pad: &str, text: &str)
    ensures
        lines(final(out)@) == lines(old(out)@).push(pad@ + text@),
{
    let mut line = pad.to_owned();
    line.append(text);
    push_line(out, line);
}

fn heading_with(out: &mut Vec<String>, pad: &str, text: &str, detail: &str)
    ensures
        lines(final(out)@) == lines(old(out)@).push(pad@ + text@ + detail@),
{
    let mut line = pad.to_owned();
    line.append(text);
    line.append(detail);
    push_line(out, line);
}

fn write_literal(out: &mut Vec<String>, lit: &Literal, pad: &str)
    ensures
        lines(final(out)@) == lines(old(out)@) + render_literal(*lit, pad@),
{
    let kind = match lit {
        Literal::Number(_, _) => "Number",
        Literal::Str(_, _) => "String",
        Literal::Bool(_, _) => "Bool",
    };
    let mut line = pad.to_owned();
    line.append(kind);
    line.append("Literal: ");
    let text = lit.text();
    line.append(text.as_str());
    push_line(out, line);
    assert(lines(out@) =~= lines(old(out)@) + render_literal(*lit, pad@));
}

fn write_atom(out: &mut Vec<String>, atom: &Atom, pad: &str)
    ensures
        lines(final(out)@) == lines(old(out)@) + render_atom(*atom, pad@),
    decreases atom, 0nat,
{
    match atom {
        Atom::NumberLiteral(lit) => write_literal(out, lit, pad),
        Atom::BooleanLiteral(lit) => write_literal(out, lit, pad),
        Atom::StringLiteral(lit) => write_literal(out, lit, pad),
        Atom::Variable(id) => {
            heading_with(out, pad, "Variable: ", id.name.as_str());
            assert(lines(out@) =~= lines(old(out)@) + render_atom(*atom, pad@));
        },
        Atom::Group(group) => write_group(out, group, pad),
    }
}

fn write_group(out: &mut Vec<String>, group: &Group, pad: &str)
    ensures
        lines(final(out)@) == lines(old(out)@) + render_group(*group, pad@),
    decreases group, 3nat,
{
    heading(out, pad, "Group");
    write_expression(out, &*group.expression, pad);
    assert(lines(out@) =~= lines(old(out)@) + render_group(*group, pad@));
}

fn write_print(out: &mut Vec<String>, inner: &Expression, pad: &str)
    ensures
        lines(final(out)@) == lines(old(out)@) + render_print(*inner, pad@),
    decreases inner, 3nat,
{
    heading(out, pad, "Print");
    let below = deeper_text(pad);
    write_expression(out, inner, below.as_str());
    assert(lines(out@) =~= lines(old(out)@) + render_print(*inner, pad@));
}

fn write_range(out: &mut Vec<String>, start: &Expression, end: &Expression, pad: &str)
    ensures
        lines(final(out)@) == lines(old(out)@) + render_range(*start, *end, pad@),
{
    let inner = deeper_text(pad);
    let inmost = deeper_text(inner.as_str());
    heading(out, pad, "Range");
    heading(out, inner.as_str(), "Start:");
    write_expression(out, start, inmost.as_str());
    heading(out, inner.as_str(), "End:");
    write_expression(out, end, inmost.as_str());
    assert(lines(out@) =~= lines(old(out)@) + render_range(*start, *end, pad@));
}

#[verifier::loop_isolation(false)]
fn write_sequence(out: &mut Vec<String>, exprs: &Vec<Expression>, pad: &str)
    ensures
        lines(final(out)@) == lines(old(out)@) + render_sequence(exprs@, 0, pad@),
    decreases exprs, 3nat,
{
    let mut i: usize = 0;
    while i < exprs.len()
        invariant
            i <= exprs.len(),
            lines(out@) + render_sequence(exprs@, i as nat, pad@) == lines(old(out)@)
                + render_sequence(exprs@, 0, pad@),
        decreases exprs.len() - i,
    {
        let ghost before = lines(out@);
        write_expression(out, &exprs[i], pad);
        assert(lines(out@) + render_sequence(exprs@, (i + 1) as nat, pad@) =~= before
            + render_sequence(exprs@, i as nat, pad@));
        i += 1;
    }
    assert(lines(out@) + render_sequence(exprs@, i as nat, pad@) =~= lines(out@));
}

fn write_expression_list(out: &mut Vec<String>, list: &ExpressionList, pad: &str)
    ensures
        lines(final(out)@) == lines(old(out)@) + render_expression_list(*list, pad@),
    decreases list, 0nat,
{
    heading(out, pad, "ExpressionList");
    let inner = deeper_text(pad);
    write_sequence(out, &list.expressions, inner.as_str());
    assert(lines(out@) =~= lines(old(out)@) + render_expression_list(*list, pad@));
}

fn write_binary_op(out: &mut Vec<String>, b: &BinaryOp, pad: &str)
    ensures
        lines(final(out)@) == lines(old(out)@) + render_binary_op(*b, pad@),
    decreases b, 0nat,
{
    match b.operator {
        BinOp::Assign(_) => heading(out, pad, "DestructiveAssign:"),
        _ => heading_with(out, pad, "BinaryOp: ", b.operator.text()),
    }
    let inner = deeper_text(pad);
    write_expression(out, &*b.left, inner.as_str());
    write_expression(out, &*b.right, inner.as_str());
    assert(lines(out@) =~= lines(old(out)@) + render_binary_op(*b, pad@));
}

fn write_assignment(out: &mut Vec<String>, a: &Assignment, pad: &str)
    ensures
        lines(final(out)@) == lines(old(out)@) + render_assignment(*a, pad@),
    decreases a, 0nat,
{
    let mut line = pad.to_owned();
    line.append("Assignment: ");
    match &a.variable {
        Atom::Variable(id) => line.append(id.name.as_str()),
        _ => {
            assert(line@ =~= line@ + Seq::<char>::empty());
        },
    }
    line.append(" ");
    line.append(a.op.text());
    push_line(out, line);
    let inner = deeper_text(pad);
    write_expression(out, &*a.body, inner.as_str());
    assert(lines(out@) =~= lines(old(out)@) + render_assignment(*a, pad@));
}

#[verifier::loop_isolation(false)]
fn write_assignments(out: &mut Vec<String>, items: &Vec<Assignment>, pad: &str)
    ensures
        lines(final(out)@) == lines(old(out)@) + render_assignments(items@, 0, pad@),
    decreases items, 3nat,
{
    let mut i: usize = 0;
    while i < items.len()
        invariant
            i <= items.len(),
            lines(out@) + render_assignments(items@, i as nat, pad@) == lines(old(out)@)
                + render_assignments(items@, 0, pad@),
        decreases items.len() - i,
    {
        let ghost before = lines(out@);
        write_assignment(out, &items[i], pad);
        assert(lines(out@) + render_assignments(items@, (i + 1) as nat, pad@) =~= before
            + render_assignments(items@, i as nat, pad@));
        i += 1;
    }
    assert(lines(out@) + render_assignments(items@, i as nat, pad@) =~= lines(out@));
}

fn write_letin(out: &mut Vec<String>, l: &LetIn, pad: &str)
    ensures
        lines(final(out)@) == lines(old(out)@) + render_letin(*l, pad@),
    decreases l, 0nat,
{
    heading(out, pad, "LetIn");
    let inner = deeper_text(pad);
    write_assignments(out, &l.bindings, inner.as_str());
    write_expression(out, &*l.body, inner.as_str());
    assert(lines(out@) =~= lines(old(out)@) + render_letin(*l, pad@));
}

#[verifier::loop_isolation(false)]
fn write_elifs(out: &mut Vec<String>, branches: &Vec<(Keyword, Expression, Expression)>, pad: &str)
    ensures
        lines(final(out)@) == lines(old(out)@) + render_elifs(branches@, 0, pad@),
    decreases branches, 3nat,
{
    let inner = deeper_text(pad);
    let mut i: usize = 0;
    while i < branches.len()
        invariant
            i <= branches.len(),
            lines(out@) + render_elifs(branches@, i as nat, pad@) == lines(old(out)@)
                + render_elifs(branches@, 0, pad@),
        decreases branches.len() - i,
    {
        let ghost before = lines(out@);
        heading(out, pad, "Elif:");
        write_expression(out, &branches[i].1, inner.as_str());
        write_expression(out, &branches[i].2, inner.as_str());
        assert(lines(out@) + render_elifs(branches@, (i + 1) as nat, pad@) =~= before
            + render_elifs(branches@, i as nat, pad@));
        i += 1;
    }
    assert(lines(out@) + render_elifs(branches@, i as nat, pad@) =~= lines(out@));
}

fn write_ifelse(out: &mut Vec<String>, i: &IfElse, pad: &str)
    ensures
        lines(final(out)@) == lines(old(out)@) + render_ifelse(*i, pad@),
    decreases i, 0nat,
{
    let inner = deeper_text(pad);
    let inmost = deeper_text(inner.as_str());
    heading(out, pad, "If");
    heading(out, inner.as_str(), "Condition:");
    write_expression(out, &*i.condition, inmost.as_str());
    heading(out, inner.as_str(), "Then:");
    write_expression(out, &*i.then_branch, inmost.as_str());
    write_elifs(out, &i.elif_branches, inner.as_str());
    match &i.else_branch {
        Some(e) => {
            heading(out, inner.as_str(), "Else:");
            write_expression(out, &**e, inmost.as_str());
        },
        None => {},
    }
    assert(lines(out@) =~= lines(old(out)@) + render_ifelse(*i, pad@));
}

fn write_while(out: &mut Vec<String>, w: &While, pad: &str)
    ensures
        lines(final(out)@) == lines(old(out)@) + render_while(*w, pad@),
    decreases w, 0nat,
{
    let inner = deeper_text(pad);
    let inmost = deeper_text(inner.as_str());
    heading(out, pad, "While");
    heading(out, inner.as_str(), "Condition:");
    write_expression(out, &*w.cond, inmost.as_str());
    heading(out, inner.as_str(), "Body:");
    write_expression(out, &*w.body, inmost.as_str());
    assert(lines(out@) =~= lines(old(out)@) + render_while(*w, pad@));
}

fn write_for(out: &mut Vec<String>, f: &For, pad: &str)
    ensures
        lines(final(out)@) == lines(old(out)@) + render_for(*f, pad@),
    decreases f, 0nat,
{
    let inner = deeper_text(pad);
    let inmost = deeper_text(inner.as_str());
    heading(out, pad, "For");
    heading(out, inner.as_str(), "Var:");
    write_expression(out, &*f.var, inmost.as_str());
    heading(out, inner.as_str(), "Iterable:");
    write_expression(out, &*f.iterable, inmost.as_str());
    heading(out, inner.as_str(), "Body:");
    write_expression(out, &*f.body, inmost.as_str());
    assert(lines(out@) =~= lines(old(out)@) + render_for(*f, pad@));
}

fn write_block(out: &mut Vec<String>, b: &Block, pad: &str)
    ensures
        lines(final(out)@) == lines(old(out)@) + render_block(*b, pad@),
    decreases b, 1nat,
{
    heading(out, pad, "Block");
    let inner = deeper_text(pad);
    write_expression_list(out, &b.expression_list, inner.as_str());
    assert(lines(out@) =~= lines(old(out)@) + render_block(*b, pad@));
}

fn write_unary_op(out: &mut Vec<String>, u: &UnaryOp, pad: &str)
    ensures
        lines(final(out)@) == lines(old(out)@) + render_unary_op(*u, pad@),
    decreases u, 0nat,
{
    heading_with(out, pad, "UnaryOp: ", u.op.text());
    let inner = deeper_text(pad);
    write_expression(out, &*u.expr, inner.as_str());
    assert(lines(out@) =~= lines(old(out)@) + render_unary_op(*u, pad@));
}

fn write_function_call(out: &mut Vec<String>, c: &FunctionCall, pad: &str)
    ensures
        lines(final(out)@) == lines(old(out)@) + render_function_call(*c, pad@),
    decreases c, 0nat,
{
    heading_with(out, pad, "FunctionCall: ", c.funct_name.name.as_str());
    let inner = deeper_text(pad);
    write_sequence(out, &c.arguments, inner.as_str());
    assert(lines(out@) =~= lines(old(out)@) + render_function_call(*c, pad@));
}

fn write_parameters(out: &mut Vec<String>, params: &Vec<FunctionParams>, pad: &str)
    ensures
        lines(final(out)@) == lines(old(out)@) + render_parameters(params@, 0, pad@),
{
    let mut i: usize = 0;
    while i < params.len()
        invariant
            i <= params.len(),
            lines(out@) + render_parameters(params@, i as nat, pad@) == lines(old(out)@)
                + render_parameters(params@, 0, pad@),
        decreases params.len() - i,
    {
        let ghost before = lines(out@);
        heading(out, pad, params[i].name.name.as_str());
        assert(lines(out@) + render_parameters(params@, (i + 1) as nat, pad@) =~= before
            + render_parameters(params@, i as nat, pad@));
        i += 1;
    }
    assert(lines(out@) + render_parameters(params@, i as nat, pad@) =~= lines(out@));
}

fn write_function_def(out: &mut Vec<String>, d: &FunctionDef, pad: &str)
    ensures
        lines(final(out)@) == lines(old(out)@) + render_function_def(*d, pad@),
    decreases d, 0nat,
{
    let inner = deeper_text(pad);
    let inmost = deeper_text(inner.as_str());
    heading_with(out, pad, "FunctionDef: ", d.name.name.as_str());
    heading(out, inner.as_str(), "Params:");
    write_parameters(out, &d.params, inmost.as_str());
    heading(out, inner.as_str(), "Body:");
    write_expression(out, &*d.body, inmost.as_str());
    assert(lines(out@) =~= lines(old(out)@) + render_function_def(*d, pad@));
}

#[verifier::loop_isolation(false)]
fn write_function_defs(out: &mut Vec<String>, defs: &Vec<FunctionDef>, pad: &str)
    ensures
        lines(final(out)@) == lines(old(out)@) + render_function_defs(defs@, 0, pad@),
    decreases defs, 3nat,
{
    let mut i: usize = 0;
    while i < defs.len()
        invariant
            i <= defs.len(),
            lines(out@) + render_function_defs(defs@, i as nat, pad@) == lines(old(out)@)
                + render_function_defs(defs@, 0, pad@),
        decreases defs.len() - i,
    {
        let ghost before = lines(out@);
        write_function_def(out, &defs[i], pad);
        assert(lines(out@) + render_function_defs(defs@, (i + 1) as nat, pad@) =~= before
            + render_function_defs(defs@, i as nat, pad@));
        i += 1;
    }
    assert(lines(out@) + render_function_defs(defs@, i as nat, pad@) =~= lines(out@));
}

fn write_type_declaration(out: &mut Vec<String>, d: &Declarationtypes, pad: &str)
    ensures
        lines(final(out)@) == lines(old(out)@) + render_type_declaration(*d, pad@),
    decreases d, 0nat,
{
    let inner = deeper_text(pad);
    let inmost = deeper_text(inner.as_str());
    heading_with(out, pad, "TypeDeclaration: ", d.name_types.name.as_str());
    if d.build.len() > 0 {
        heading(out, inner.as_str(), "TypeParams:");
        write_parameters(out, &d.build, inmost.as_str());
    }
    if d.properties.len() > 0 {
        heading(out, inner.as_str(), "Properties:");
        write_assignments(out, &d.properties, inmost.as_str());
    }
    if d.functions.len() > 0 {
        heading(out, inner.as_str(), "Methods:");
        write_function_defs(out, &d.functions, inmost.as_str());
    }
    assert(lines(out@) =~= lines(old(out)@) + render_type_declaration(*d, pad@));
}

fn write_type_instantiation(out: &mut Vec<String>, i: &InstantingTypes, pad: &str)
    ensures
        lines(final(out)@) == lines(old(out)@) + render_type_instantiation(*i, pad@),
    decreases i, 0nat,
{
    let inner = deeper_text(pad);
    let inmost = deeper_text(inner.as_str());
    heading_with(out, pad, "TypeInstantiation: ", i.referenced_type.name.as_str());
    if i.params.len() > 0 {
        heading(out, inner.as_str(), "Args:");
        write_sequence(out, &i.params, inmost.as_str());
    }
    assert(lines(out@) =~= lines(old(out)@) + render_type_instantiation(*i, pad@));
}

fn write_access(out: &mut Vec<String>, a: &AccessTypeProp, pad: &str)
    ensures
        lines(final(out)@) == lines(old(out)@) + render_access(*a, pad@),
    decreases a, 0nat,
{
    let inner = deeper_text(pad);
    let inmost = deeper_text(inner.as_str());
    heading_with(out, pad, "TypeMethodAccess: ", a.properties.name.as_str());
    heading(out, inner.as_str(), "Instance:");
    write_expression(out, &a.referenced_type, inmost.as_str());
    if a.params.len() > 0 {
        heading(out, inner.as_str(), "Args:");
        write_sequence(out, &a.params, inmost.as_str());
    }
    assert(lines(out@) =~= lines(old(out)@) + render_access(*a, pad@));
}

fn write_expression(out: &mut Vec<String>, e: &Expression, pad: &str)
    ensures
        lines(final(out)@) == lines(old(out)@) + render_expression(*e, pad@),
    decreases e, 2nat,
{
    match e {
        Expression::BinaryOp(b) => write_binary_op(out, b, pad),
        Expression::Atom(atom) => write_atom(out, &**atom, pad),
        Expression::IfElse(i) => write_ifelse(out, &**i, pad),
        Expression::LetIn(l) => write_letin(out, &**l, pad),
        Expression::For(f) => write_for(out, &**f, pad),
        Expression::Print(inner, _) => write_print(out, &**inner, pad),
        Expression::While(w) => write_while(out, &**w, pad),
        Expression::Block(b) => write_block(out, &**b, pad),
        Expression::UnaryOp(u) => write_unary_op(out, u, pad),
        Expression::Range(start, end) => {
            let inner = deeper_text(pad);
            let inmost = deeper_text(inner.as_str());
            heading(out, pad, "Range");
            heading(out, inner.as_str(), "Start:");
            write_expression(out, &**start, inmost.as_str());
            heading(out, inner.as_str(), "End:");
            write_expression(out, &**end, inmost.as_str());
            assert(lines(out@) =~= lines(old(out)@) + render_expression(*e, pad@));
        },
        Expression::FunctionCall(c) => write_function_call(out, c, pad),
        Expression::FunctionDef(d) => write_function_def(out, d, pad),
        Expression::TypeDeclaration(d) => write_type_declaration(out, &**d, pad),
        Expression::TypeInstantiation(i) => write_type_instantiation(out, &**i, pad),
        Expression::TypeMethodAccess(a) => write_access(out, &**a, pad),
        Expression::TypePropertyAccess(a) => write_access(out, &**a, pad),
    }
}

fn write_program(out: &mut Vec<String>, program: &Program, pad: &str)
    ensures
        lines(final(out)@) == lines(old(out)@) + render_program(*program, pad@),
{
    heading(out, pad, "Program");
    let inner = deeper_text(pad);
    write_expression_list(out, &program.expression_list, inner.as_str());
    assert(lines(out@) =~= lines(old(out)@) + render_program(*program, pad@));
}

fn write_identifier(out: &mut Vec<String>, identifier: &Identifier, pad: &str)
    ensures
        lines(final(out)@) == lines(old(out)@) + render_identifier(*identifier, pad@),
{
    heading_with(out, pad, "Identifier: ", identifier.name.as_str());
    assert(lines(out@) =~= lines(old(out)@) + render_identifier(*identifier, pad@));
}

pub struct AstPrinterVisitor {
    /// The depth at which the next node is printed.
    pub indent: usize,
    /// The lines printed so far.
    pub lines: Vec<String>,
}

impl AstPrinterVisitor {
    pub fn new() -> (p: Self)
        ensures
            p.indent == 0,
            lines(p.lines@) == Seq::<Seq<char>>::empty(),
    {
        let p = AstPrinterVisitor { indent: 0, lines: Vec::new() };
        assert(lines(p.lines@) =~= Seq::<Seq<char>>::empty());
        p
    }

    /// The indentation of the current depth.
    pub fn pad(&self) -> (s: String)
        ensures
            s@ == padding(self.indent as nat),
    {
        let mut s = String::new();
        let mut i: usize = 0;
        assert(s@ =~= padding(0));
        while i < self.indent
            invariant
                i <= self.indent,
                s@ == padding(i as nat),
            decreases self.indent - i,
        {
            s.append("  ");
            i += 1;
        }
        s
    }
}


/// The outline of a node as a callback of the printer receives it.
pub open spec fn render_node(node: Node, pad: Seq<char>) -> Seq<Seq<char>> {
    match node {
        Node::Program(p) => render_program(p, pad),
        Node::ExpressionList(l) => render_expression_list(l, pad),
        Node::Expression(e) => render_expression(e, pad),
        Node::Atom(a) => render_atom(a, pad),
        Node::BinaryOp(b) => render_binary_op(b, pad),
        Node::LetIn(l) => render_letin(l, pad),
        Node::Assignment(a) => render_assignment(a, pad),
        Node::Block(b) => render_block(b, pad),
        Node::Literal(l) => render_literal(l, pad),
        Node::Identifier(i) => render_identifier(i, pad),
        Node::Print(e) => render_print(e, pad),
        Node::While(w) => render_while(w, pad),
        Node::IfElse(i) => render_ifelse(i, pad),
        Node::Group(g) => render_group(g, pad),
        Node::UnaryOp(u) => render_unary_op(u, pad),
        Node::For(f) => render_for(f, pad),
        Node::Range(start, end) => render_range(start, end, pad),
        Node::FunctionCall(c) => render_function_call(c, pad),
        Node::FunctionDef(d) => render_function_def(d, pad),
        Node::TypeDeclaration(d) => render_type_declaration(d, pad),
        Node::TypeInstantiation(i) => render_type_instantiation(i, pad),
        Node::TypeAccess(a) => render_access(a, pad),
    }
}

/// Whether `after` is the printer `before` with the lines `added` printed.
pub open spec fn printed(before: AstPrinterVisitor, added: Seq<Seq<char>>, after: AstPrinterVisitor) -> bool {
    after.indent == before.indent && lines(after.lines@) == lines(before.lines@) + added
}

impl Visitor for AstPrinterVisitor {
    type Output = ();

    /// At every node the printer adds the node's outline, at the depth of
    /// its indent, and keeps its indent.
    open spec fn visits(before: Self, node: Node, after: Self, out: ()) -> bool {
        printed(before, render_node(node, padding(before.indent as nat)), after)
    }

    fn visit_program(&mut self, program: &Program) -> (out: ()) {
        let pad = self.pad();
        write_program(&mut self.lines, program, pad.as_str());
    }

    fn visit_expression_list(&mut self, expr_list: &ExpressionList) -> (out: ()) {
        let pad = self.pad();
        write_expression_list(&mut self.lines, expr_list, pad.as_str());
    }

    fn visit_expression(&mut self, expr: &Expression) -> (out: ()) {
        let pad = self.pad();
        write_expression(&mut self.lines, expr, pad.as_str());
    }

    fn visit_atom(&mut self, atom: &Atom) -> (out: ()) {
        let pad = self.pad();
        write_atom(&mut self.lines, atom, pad.as_str());
    }

    fn visit_binary_op(&mut self, binop: &BinaryOp) -> (out: ()) {
        let pad = self.pad();
        write_binary_op(&mut self.lines, binop, pad.as_str());
    }

    fn visit_letin(&mut self, letin: &LetIn) -> (out: ()) {
        let pad = self.pad();
        write_letin(&mut self.lines, letin, pad.as_str());
    }

    fn visit_assignment(&mut self, assign: &Assignment) -> (out: ()) {
        let pad = self.pad();
        write_assignment(&mut self.lines, assign, pad.as_str());
    }

    fn visit_block(&mut self, block: &Block) -> (out: ()) {
        let pad = self.pad();
        write_block(&mut self.lines, block, pad.as_str());
    }

    fn visit_literal(&mut self, literal: &Literal) -> (out: ()) {
        let pad = self.pad();
        write_literal(&mut self.lines, literal, pad.as_str());
    }

    fn visit_identifier(&mut self, identifier: &Identifier) -> (out: ()) {
        let pad = self.pad();
        write_identifier(&mut self.lines, identifier, pad.as_str());
    }

    fn visit_print(&mut self, expr: &Expression) -> (out: ()) {
        let pad = self.pad();
        write_print(&mut self.lines, expr, pad.as_str());
    }

    fn visit_while(&mut self, whilee: &While) -> (out: ()) {
        let pad = self.pad();
        write_while(&mut self.lines, whilee, pad.as_str());
    }

    fn visit_ifelse(&mut self, ifelse: &IfElse) -> (out: ()) {
        let pad = self.pad();
        write_ifelse(&mut self.lines, ifelse, pad.as_str());
    }

    fn visit_group(&mut self, group: &Group) -> (out: ()) {
        let pad = self.pad();
        write_group(&mut self.lines, group, pad.as_str());
    }

    fn visit_unary_op(&mut self, unary_op: &UnaryOp) -> (out: ()) {
        let pad = self.pad();
        write_unary_op(&mut self.lines, unary_op, pad.as_str());
    }

    fn visit_for(&mut self, forr: &For) -> (out: ()) {
        let pad = self.pad();
        write_for(&mut self.lines, forr, pad.as_str());
    }

    fn visit_function_call(&mut self, call: &FunctionCall) -> (out: ()) {
        let pad = self.pad();
        write_function_call(&mut self.lines, call, pad.as_str());
    }

    fn visit_function_def(&mut self, def: &FunctionDef) -> (out: ()) {
        let pad = self.pad();
        write_function_def(&mut self.lines, def, pad.as_str());
    }

    fn visit_type_declaration(&mut self, decl: &Declarationtypes) -> (out: ()) {
        let pad = self.pad();
        write_type_declaration(&mut self.lines, decl, pad.as_str());
    }

    fn visit_instanting_types(&mut self, inst: &InstantingTypes) -> (out: ()) {
        let pad = self.pad();
        write_type_instantiation(&mut self.lines, inst, pad.as_str());
    }

    fn visit_access_type_prop(&mut self, access: &AccessTypeProp) -> (out: ()) {
        let pad = self.pad();
        write_access(&mut self.lines, access, pad.as_str());
    }

    fn visit_range(&mut self, start: &Expression, end: &Expression) -> (out: ()) {
        let pad = self.pad();
        write_range(&mut self.lines, start, end, pad.as_str());
    }
}

/// The outline of a whole program, from the margin.
pub fn print_program(program: &Program) -> (out: Vec<String>)
    ensures
        lines(out@) == render_program(*program, Seq::empty()),
{
    let mut printer = AstPrinterVisitor::new();
    printer.visit_program(program);
    assert(padding(0) =~= Seq::<char>::empty());
    assert(lines(printer.lines@) =~= render_program(*program, Seq::empty()));
    printer.lines
}

} // verus!
