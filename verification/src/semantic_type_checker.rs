//! The semantic checker: one pass over the tree that records what names
//! stand for, checks scoping and operand types, and collects diagnostics.
use vstd::prelude::*;
use vstd::string::{StringExecFns, StringSliceAdditionalSpecFns};
use vstd::utf8::encode_utf8;
use crate::ast::{
    AccessTypeProp, Assignment, Atom, BinaryOp, Block, Declarationtypes, Expression,
    ExpressionList, For, FunctionCall, FunctionDef, FunctionParams, Group, IfElse, InstantingTypes,
    LetIn, Program, UnaryOp, While,
};
use crate::checking::{
    argument_message, arity_message, check_arguments, check_assignment, check_atom,
    check_binary_op, check_bindings, check_block, check_condition, check_elifs,
    check_expression, check_for, check_function_call, check_function_def, check_ifelse,
    check_letin, check_node, check_sequence, check_unary_op, check_variable, check_while,
    class_type,
    condition_message, declare_parameters, declared_types, expression_line, expression_position,
    iterable_message, line_tag, operand_message, operands_rejected, optional_tag, start_state,
    type_text, undeclared_function_message, undeclared_variable_message, CheckState, Checked,
};
use crate::lowering::variable_name;
use crate::symbol_table::{type_views, SymbolInfo, SymbolTable};
use crate::text::{debug_string, lines, push_line, push_nat};
use crate::tokens::{Identifier, Literal, OperatorClass, Position, UnaryOperator};
use crate::types::Type;
use crate::visitor::{Node, Visitor};

verus! {

pub struct SemanticTypeChecker {
    pub symbol_table: SymbolTable,
    /// The diagnostics collected so far, in the order they were found.
    pub errors: Vec<String>,
    /// The source text that the positions of the tree point into.
    pub input: String,
}

impl View for SemanticTypeChecker {
    type V = CheckState;

    open spec fn view(&self) -> CheckState {
        CheckState {
            scopes: self.symbol_table@,
            errors: lines(self.errors@),
            source: encode_utf8(self.input@),
        }
    }
}

fn tag_text(line: usize) -> (s: String)
    ensures
        s@ == line_tag(line as nat),
{
    let mut s = "Línea ".to_owned();
    push_nat(&mut s, line);
    s.append(": ");
    s
}

fn optional_tag_text(line: Option<usize>) -> (s: String)
    ensures
        s@ == optional_tag(
            match line {
                Some(l) => Some(l as nat),
                None => None,
            },
        ),
{
    match line {
        Some(l) => tag_text(l),
        None => String::new(),
    }
}

/// How a type is named in a diagnostic.
pub fn type_name_text(ty: &Type) -> (s: String)
    ensures
        s@ == type_text(ty@),
{
    match ty {
        Type::Number => "Number".to_owned(),
        Type::Boolean => "Boolean".to_owned(),
        Type::String => "String".to_owned(),
        Type::Object => "Object".to_owned(),
        Type::Custom(name) => {
            let mut s = "Custom(".to_owned();
            let quoted = debug_string(name.as_str());
            s.append(quoted.as_str());
            s.append(")");
            s
        },
        Type::Unknown => "Unknown".to_owned(),
    }
}

fn build_undeclared_variable(line: usize, name: &str) -> (s: String)
    ensures
        s@ == undeclared_variable_message(line as nat, name@),
{
    let mut s = tag_text(line);
    s.append("Variable '");
    s.append(name);
    s.append("' no declarada");
    s
}

fn build_undeclared_function(line: usize, name: &str) -> (s: String)
    ensures
        s@ == undeclared_function_message(line as nat, name@),
{
    let mut s = tag_text(line);
    s.append("Función '");
    s.append(name);
    s.append("' no declarada.");
    s
}

fn build_arity(line: usize, name: &str, expected: usize, given: usize) -> (s: String)
    ensures
        s@ == arity_message(line as nat, name@, expected as nat, given as nat),
{
    let mut s = tag_text(line);
    s.append("Función '");
    s.append(name);
    s.append("' espera ");
    push_nat(&mut s, expected);
    s.append(" argumentos, pero se pasaron ");
    push_nat(&mut s, given);
    s.append(".");
    s
}

fn build_argument(line: usize, got: &Type, expected: &Type, name: &str) -> (s: String)
    ensures
        s@ == argument_message(line as nat, got@, expected@, name@),
{
    let mut s = tag_text(line);
    s.append("El argumento tiene tipo '");
    let got_text = type_name_text(got);
    s.append(got_text.as_str());
    s.append("', pero se esperaba '");
    let expected_text = type_name_text(expected);
    s.append(expected_text.as_str());
    s.append("' en la función '");
    s.append(name);
    s.append("'.");
    s
}

fn build_operand(class: OperatorClass, line: usize) -> (s: String)
    ensures
        s@ == operand_message(class, line as nat),
{
    let mut s = tag_text(line);
    match class {
        OperatorClass::Arithmetic => s.append("Operación aritmética requiere números"),
        OperatorClass::Comparison => s.append("Comparación entre tipos incompatibles"),
        OperatorClass::Logical => s.append("Operador lógico requiere booleanos"),
        OperatorClass::Concatenation => s.append("Concatenación requiere string o número"),
        OperatorClass::Assignment => {
            assert(s@ =~= s@ + Seq::<char>::empty());
        },
    }
    s
}

fn build_condition(line: Option<usize>, word: &str) -> (s: String)
    ensures
        s@ == condition_message(
            match line {
                Some(l) => Some(l as nat),
                None => None,
            },
            word@,
        ),
{
    let mut s = optional_tag_text(line);
    s.append("Condición de ");
    s.append(word);
    s.append(" debe ser booleana");
    s
}

fn build_iterable(line: Option<usize>) -> (s: String)
    ensures
        s@ == iterable_message(
            match line {
                Some(l) => Some(l as nat),
                None => None,
            },
        ),
{
    let mut s = optional_tag_text(line);
    s.append("El iterable de for debe ser un rango");
    s
}

/// Whether the rule of an operator of class `class` rejects operands of
/// these types.
pub fn rejects_operands(class: OperatorClass, left: &Type, right: &Type) -> (b: bool)
    ensures
        b == operands_rejected(class, left@, right@),
{
    match class {
        OperatorClass::Arithmetic => !left.same(&Type::Number) || !right.same(&Type::Number),
        OperatorClass::Comparison => !left.same(right),
        OperatorClass::Logical => !left.same(&Type::Boolean) || !right.same(&Type::Boolean),
        OperatorClass::Concatenation => !(left.same(&Type::String) || left.same(&Type::Number))
            || !(right.same(&Type::String) || right.same(&Type::Number)),
        OperatorClass::Assignment => false,
    }
}

/// The type of every expression whose operator has class `class`.
pub fn type_of_class(class: OperatorClass) -> (t: Type)
    ensures
        t@ == class_type(class),
{
    match class {
        OperatorClass::Arithmetic => Type::Number,
        OperatorClass::Comparison => Type::Boolean,
        OperatorClass::Logical => Type::Boolean,
        OperatorClass::Concatenation => Type::String,
        OperatorClass::Assignment => Type::Unknown,
    }
}

fn position_of(e: &Expression) -> (r: Option<Position>)
    ensures
        r == expression_position(*e),
{
    match e {
        Expression::Atom(atom) => match &**atom {
            Atom::Variable(id) => Some(id.position),
            _ => None,
        },
        Expression::BinaryOp(b) => Some(b.operator.position()),
        Expression::FunctionCall(c) => Some(c.funct_name.position),
        _ => None,
    }
}

fn name_of(e: &Expression) -> (r: Option<&String>)
    ensures
        match r {
            Some(name) => variable_name(*e) == Some(name@),
            None => variable_name(*e) is None,
        },
{
    match e {
        Expression::Atom(atom) => match &**atom {
            Atom::Variable(id) => Some(&id.name),
            _ => None,
        },
        _ => None,
    }
}

fn copy_types(types: &Vec<Type>) -> (r: Vec<Type>)
    ensures
        type_views(r@) == type_views(types@),
{
    let mut r: Vec<Type> = Vec::new();
    let mut i: usize = 0;
    while i < types.len()
        invariant
            i <= types.len(),
            r@.len() == i,
            forall|j: int| 0 <= j < i ==> (#[trigger] r@[j])@ == types@[j]@,
        decreases types.len() - i,
    {
        r.push(types[i].duplicate());
        i += 1;
    }
    assert(type_views(r@) =~= type_views(types@));
    r
}

fn types_of_parameters(params: &Vec<FunctionParams>) -> (r: Vec<Type>)
    ensures
        type_views(r@) == declared_types(params@),
{
    let mut r: Vec<Type> = Vec::new();
    let mut i: usize = 0;
    while i < params.len()
        invariant
            i <= params.len(),
            r@.len() == i,
            forall|j: int|
                0 <= j < i ==> (#[trigger] r@[j])@ == crate::types::parse_type(
                    params@[j].signature@,
                ),
        decreases params.len() - i,
    {
        r.push(Type::from_str(params[i].signature.as_str()));
        i += 1;
    }
    assert(type_views(r@) =~= declared_types(params@));
    r
}

impl SemanticTypeChecker {
    /// A checker for a tree that was parsed from `input`.
    pub fn new(input: String) -> (c: Self)
        ensures
            c@ == start_state(encode_utf8(input@)),
    {
        let c = SemanticTypeChecker { symbol_table: SymbolTable::new(), errors: Vec::new(), input };
        assert(lines(c.errors@) =~= Seq::<Seq<char>>::empty());
        c
    }

    fn report(&mut self, message: String)
        ensures
            final(self)@ == old(self)@.report(message@),
    {
        push_line(&mut self.errors, message);
    }

    fn enter(&mut self)
        ensures
            final(self)@ == old(self)@.enter(),
    {
        self.symbol_table.enter_scope();
    }

    fn exit(&mut self)
        ensures
            final(self)@ == old(self)@.exit(),
    {
        self.symbol_table.exit_scope();
    }

    fn declare(&mut self, name: String, info: SymbolInfo)
        ensures
            final(self)@ == old(self)@.declare(name@, info@),
    {
        self.symbol_table.insert(name, info);
    }

    fn line_of(&self, position: Position) -> (line: usize)
        ensures
            line == self@.line(position),
    {
        position.start_line(self.input.as_str())
    }

    /// The line that stands for `expr` in a diagnostic about it, where it
    /// has one.
    pub fn get_expression_line(&self, expr: &Expression) -> (r: Option<usize>)
        ensures
            match r {
                Some(l) => expression_line(*expr, self@) == Some(l as nat),
                None => expression_line(*expr, self@) is None,
            },
    {
        match position_of(expr) {
            Some(p) => Some(self.line_of(p)),
            None => None,
        }
    }

    pub fn visit_identifier(&mut self, identifier: &Identifier) -> (t: Type)
        ensures
            check_variable(identifier.name@, identifier.position, old(self)@) == (Checked {
                ty: t@,
                state: final(self)@,
            }),
            final(self)@.scopes == old(self)@.scopes,
    {
        match self.symbol_table.lookup(identifier.name.as_str()) {
            Some(SymbolInfo::Variable { var_type }) => var_type.duplicate(),
            _ => {
                let line = self.line_of(identifier.position);
                self.report(build_undeclared_variable(line, identifier.name.as_str()));
                Type::Unknown
            },
        }
    }

    /// The type of an atom; an unresolved variable is reported.
    pub fn type_of_atom(&mut self, atom: &Atom) -> (t: Type)
        ensures
            check_atom(*atom, old(self)@) == (Checked { ty: t@, state: final(self)@ }),
            final(self)@.scopes.len() == old(self)@.scopes.len(),
        decreases atom, 0nat,
    {
        match atom {
            Atom::NumberLiteral(_) => Type::Number,
            Atom::BooleanLiteral(_) => Type::Boolean,
            Atom::StringLiteral(_) => Type::String,
            Atom::Variable(id) => self.visit_identifier(id),
            Atom::Group(group) => self.infer_expr_type(&*group.expression),
        }
    }

    pub fn visit_binary_op(&mut self, binop: &BinaryOp) -> (t: Type)
        ensures
            check_binary_op(*binop, old(self)@) == (Checked { ty: t@, state: final(self)@ }),
            final(self)@.scopes.len() == old(self)@.scopes.len(),
        decreases binop, 0nat,
    {
        let left = self.infer_expr_type(&*binop.left);
        let right = self.infer_expr_type(&*binop.right);
        let class = binop.operator.class();
        match class {
            OperatorClass::Assignment => {
                match name_of(&*binop.left) {
                    Some(name) => {
                        self.declare(name.clone(), SymbolInfo::Variable { var_type: right });
                    },
                    None => {},
                }
                Type::Unknown
            },
            _ => {
                if rejects_operands(class, &left, &right) {
                    let line = self.line_of(binop.operator.position());
                    self.report(build_operand(class, line));
                }
                type_of_class(class)
            },
        }
    }

    pub fn visit_unary_op(&mut self, unary_op: &UnaryOp) -> (t: Type)
        ensures
            check_unary_op(*unary_op, old(self)@) == (Checked { ty: t@, state: final(self)@ }),
            final(self)@.scopes.len() == old(self)@.scopes.len(),
        decreases unary_op, 0nat,
    {
        let operand = self.infer_expr_type(&*unary_op.expr);
        let class = match unary_op.op {
            UnaryOperator::Not(_) => OperatorClass::Logical,
            _ => OperatorClass::Arithmetic,
        };
        let wanted = type_of_class(class);
        if !operand.same(&wanted) {
            let line = self.line_of(unary_op.op.position());
            self.report(build_operand(class, line));
        }
        wanted
    }

    /// Checks the expressions of a list in order.
    #[verifier::loop_isolation(false)]
    pub fn visit_sequence(&mut self, exprs: &Vec<Expression>)
        ensures
            check_sequence(exprs@, 0, old(self)@) == final(self)@,
            final(self)@.scopes.len() == old(self)@.scopes.len(),
        decreases exprs, 2nat,
    {
        let mut i: usize = 0;
        while i < exprs.len()
            invariant
                i <= exprs.len(),
                check_sequence(exprs@, i as nat, self@) == check_sequence(exprs@, 0, old(self)@),
                self@.scopes.len() == old(self)@.scopes.len(),
            decreases exprs.len() - i,
        {
            let _ = self.infer_expr_type(&exprs[i]);
            i += 1;
        }
    }

    pub fn visit_expression_list(&mut self, expr_list: &ExpressionList)
        ensures
            check_sequence(expr_list.expressions@, 0, old(self)@) == final(self)@,
            final(self)@.scopes.len() == old(self)@.scopes.len(),
        decreases expr_list, 3nat,
    {
        self.visit_sequence(&expr_list.expressions)
    }

    pub fn visit_program(&mut self, program: &Program)
        ensures
            check_sequence(program.expression_list.expressions@, 0, old(self)@) == final(self)@,
            final(self)@.scopes.len() == old(self)@.scopes.len(),
    {
        self.visit_sequence(&program.expression_list.expressions)
    }

    /// Checks a whole program; the diagnostics are left in `errors`.
    pub fn check(&mut self, program: &Program)
        ensures
            check_sequence(program.expression_list.expressions@, 0, old(self)@) == final(self)@,
            final(self)@.scopes.len() == old(self)@.scopes.len(),
    {
        self.visit_program(program)
    }

    pub fn visit_block(&mut self, block: &Block) -> (t: Type)
        ensures
            check_block(*block, old(self)@) == (Checked { ty: t@, state: final(self)@ }),
            final(self)@.scopes.len() == old(self)@.scopes.len(),
        decreases block, 0nat,
    {
        self.enter();
        self.visit_sequence(&block.expression_list.expressions);
        self.exit();
        Type::Unknown
    }

    pub fn visit_assignment(&mut self, assign: &Assignment)
        ensures
            final(self)@ == check_assignment(*assign, old(self)@),
            final(self)@.scopes.len() == old(self)@.scopes.len(),
        decreases assign, 0nat,
    {
        let value = self.infer_expr_type(&*assign.body);
        match &assign.variable {
            Atom::Variable(id) => {
                self.declare(id.name.clone(), SymbolInfo::Variable { var_type: value });
            },
            _ => {},
        }
    }

    #[verifier::loop_isolation(false)]
    pub fn visit_letin(&mut self, letin: &LetIn) -> (t: Type)
        ensures
            check_letin(*letin, old(self)@) == (Checked { ty: t@, state: final(self)@ }),
            final(self)@.scopes.len() == old(self)@.scopes.len(),
        decreases letin, 0nat,
    {
        self.enter();
        let ghost entered = self@;
        let mut i: usize = 0;
        while i < letin.bindings.len()
            invariant
                i <= letin.bindings.len(),
                check_bindings(letin.bindings@, i as nat, self@) == check_bindings(
                    letin.bindings@,
                    0,
                    entered,
                ),
                self@.scopes.len() == entered.scopes.len(),
            decreases letin.bindings.len() - i,
        {
            self.visit_assignment(&letin.bindings[i]);
            i += 1;
        }
        let _ = self.infer_expr_type(&*letin.body);
        self.exit();
        Type::Unknown
    }

    /// Checks a condition that follows the keyword `word`.
    pub fn visit_condition(&mut self, cond: &Expression, word: &str)
        ensures
            check_condition(*cond, word@, old(self)@) == final(self)@,
            final(self)@.scopes.len() == old(self)@.scopes.len(),
        decreases cond, 2nat,
    {
        let ty = self.infer_expr_type(cond);
        if !ty.same(&Type::Boolean) {
            let line = self.get_expression_line(cond);
            self.report(build_condition(line, word));
        }
    }

    #[verifier::loop_isolation(false)]
    pub fn visit_ifelse(&mut self, ifelse: &IfElse) -> (t: Type)
        ensures
            check_ifelse(*ifelse, old(self)@) == (Checked { ty: t@, state: final(self)@ }),
            final(self)@.scopes.len() == old(self)@.scopes.len(),
        decreases ifelse, 0nat,
    {
        self.visit_condition(&*ifelse.condition, "if");
        let _ = self.infer_expr_type(&*ifelse.then_branch);
        let ghost s1 = self@;
        let mut i: usize = 0;
        while i < ifelse.elif_branches.len()
            invariant
                i <= ifelse.elif_branches.len(),
                check_elifs(ifelse.elif_branches@, i as nat, self@) == check_elifs(
                    ifelse.elif_branches@,
                    0,
                    s1,
                ),
                self@.scopes.len() == s1.scopes.len(),
            decreases ifelse.elif_branches.len() - i,
        {
            self.visit_condition(&ifelse.elif_branches[i].1, "elif");
            let _ = self.infer_expr_type(&ifelse.elif_branches[i].2);
            i += 1;
        }
        match &ifelse.else_branch {
            Some(e) => {
                let _ = self.infer_expr_type(&**e);
            },
            None => {},
        }
        Type::Unknown
    }

    pub fn visit_while(&mut self, whilee: &While) -> (t: Type)
        ensures
            check_while(*whilee, old(self)@) == (Checked { ty: t@, state: final(self)@ }),
            final(self)@.scopes.len() == old(self)@.scopes.len(),
        decreases whilee, 0nat,
    {
        self.visit_condition(&*whilee.cond, "while");
        let _ = self.infer_expr_type(&*whilee.body);
        Type::Unknown
    }

    pub fn visit_for(&mut self, forr: &For) -> (t: Type)
        ensures
            check_for(*forr, old(self)@) == (Checked { ty: t@, state: final(self)@ }),
            final(self)@.scopes.len() == old(self)@.scopes.len(),
        decreases forr, 0nat,
    {
        let _ = self.infer_expr_type(&*forr.iterable);
        let is_range = match &*forr.iterable {
            Expression::Range(_, _) => true,
            _ => false,
        };
        if !is_range {
            let line = self.get_expression_line(&*forr.iterable);
            self.report(build_iterable(line));
        }
        self.enter();
        match name_of(&*forr.var) {
            Some(name) => {
                self.declare(name.clone(), SymbolInfo::Variable { var_type: Type::Number });
            },
            None => {},
        }
        let _ = self.infer_expr_type(&*forr.body);
        self.exit();
        Type::Unknown
    }

    #[verifier::loop_isolation(false)]
    pub fn visit_function_call(&mut self, call: &FunctionCall) -> (t: Type)
        ensures
            check_function_call(*call, old(self)@) == (Checked { ty: t@, state: final(self)@ }),
            final(self)@.scopes.len() == old(self)@.scopes.len(),
        decreases call, 0nat,
    {
        let line = self.line_of(call.funct_name.position);
        let signature = match self.symbol_table.lookup(call.funct_name.name.as_str()) {
            Some(SymbolInfo::Function { return_type, param_types }) => Some(
                (return_type.duplicate(), copy_types(param_types)),
            ),
            _ => None,
        };
        match signature {
            Some((return_type, params)) => {
                if params.len() != call.arguments.len() {
                    self.report(
                        build_arity(
                            line,
                            call.funct_name.name.as_str(),
                            params.len(),
                            call.arguments.len(),
                        ),
                    );
                }
                let ghost s0 = self@;
                let mut i: usize = 0;
                while i < call.arguments.len()
                    invariant
                        i <= call.arguments.len(),
                        check_arguments(
                            call.arguments@,
                            i as nat,
                            type_views(params@),
                            call.funct_name.name@,
                            line as nat,
                            self@,
                        ) == check_arguments(
                            call.arguments@,
                            0,
                            type_views(params@),
                            call.funct_name.name@,
                            line as nat,
                            s0,
                        ),
                        self@.scopes.len() == s0.scopes.len(),
                    decreases call.arguments.len() - i,
                {
                    let arg = self.infer_expr_type(&call.arguments[i]);
                    if i < params.len() {
                        if !arg.same(&params[i]) {
                            self.report(
                                build_argument(
                                    line,
                                    &arg,
                                    &params[i],
                                    call.funct_name.name.as_str(),
                                ),
                            );
                        }
                    }
                    i += 1;
                }
                return_type
            },
            None => {
                self.report(build_undeclared_function(line, call.funct_name.name.as_str()));
                self.visit_sequence(&call.arguments);
                Type::Unknown
            },
        }
    }

    #[verifier::loop_isolation(false)]
    pub fn visit_function_def(&mut self, def: &FunctionDef) -> (t: Type)
        ensures
            check_function_def(*def, old(self)@) == (Checked { ty: t@, state: final(self)@ }),
            final(self)@.scopes.len() == old(self)@.scopes.len(),
        decreases def, 0nat,
    {
        let param_types = types_of_parameters(&def.params);
        let return_type = Type::from_str(def.return_type.as_str());
        self.declare(def.name.name.clone(), SymbolInfo::Function { return_type, param_types });
        self.enter();
        let ghost entered = self@;
        let mut i: usize = 0;
        while i < def.params.len()
            invariant
                i <= def.params.len(),
                declare_parameters(def.params@, i as nat, self@) == declare_parameters(
                    def.params@,
                    0,
                    entered,
                ),
                self@.scopes.len() == entered.scopes.len(),
            decreases def.params.len() - i,
        {
            let param = &def.params[i];
            let var_type = Type::from_str(param.signature.as_str());
            self.declare(param.name.name.clone(), SymbolInfo::Variable { var_type });
            i += 1;
        }
        let _ = self.infer_expr_type(&*def.body);
        self.exit();
        Type::Unknown
    }

    pub fn visit_print(&mut self, expr: &Expression)
        ensures
            check_expression(*expr, old(self)@).state == final(self)@,
            final(self)@.scopes.len() == old(self)@.scopes.len(),
        decreases expr, 2nat,
    {
        let _ = self.infer_expr_type(expr);
    }

    pub fn visit_group(&mut self, group: &Group) -> (t: Type)
        ensures
            check_expression(*group.expression, old(self)@) == (Checked {
                ty: t@,
                state: final(self)@,
            }),
            final(self)@.scopes.len() == old(self)@.scopes.len(),
        decreases group, 2nat,
    {
        self.infer_expr_type(&*group.expression)
    }

    pub fn visit_range(&mut self, start: &Expression, end: &Expression)
        ensures
            final(self)@ == check_expression(*end, check_expression(*start, old(self)@).state).state,
            final(self)@.scopes.len() == old(self)@.scopes.len(),
        decreases start, end, 2nat,
    {
        let _ = self.infer_expr_type(start);
        let _ = self.infer_expr_type(end);
    }

    /// Checks one expression, whatever its kind, and gives its type.
    pub fn infer_expr_type(&mut self, expr: &Expression) -> (t: Type)
        ensures
            check_expression(*expr, old(self)@) == (Checked { ty: t@, state: final(self)@ }),
            final(self)@.scopes.len() == old(self)@.scopes.len(),
        decreases expr, 1nat,
    {
        match expr {
            Expression::BinaryOp(binop) => self.visit_binary_op(binop),
            Expression::Atom(atom) => self.type_of_atom(&**atom),
            Expression::IfElse(ifelse) => self.visit_ifelse(&**ifelse),
            Expression::LetIn(letin) => self.visit_letin(&**letin),
            Expression::For(forr) => self.visit_for(&**forr),
            Expression::Print(inner, _) => {
                let _ = self.infer_expr_type(&**inner);
                Type::Unknown
            },
            Expression::While(whilee) => self.visit_while(&**whilee),
            Expression::Block(block) => self.visit_block(&**block),
            Expression::UnaryOp(unary_op) => self.visit_unary_op(unary_op),
            Expression::Range(start, end) => {
                let _ = self.infer_expr_type(&**start);
                let _ = self.infer_expr_type(&**end);
                Type::Unknown
            },
            Expression::FunctionCall(call) => self.visit_function_call(call),
            Expression::FunctionDef(def) => self.visit_function_def(def),
            Expression::TypeDeclaration(_) => Type::Unknown,
            Expression::TypeInstantiation(_) => Type::Unknown,
            Expression::TypeMethodAccess(_) => Type::Unknown,
            Expression::TypePropertyAccess(_) => Type::Unknown,
        }
    }

    /// Checks one expression, whatever its kind.
    pub fn visit_expression(&mut self, expr: &Expression)
        ensures
            check_expression(*expr, old(self)@).state == final(self)@,
            final(self)@.scopes.len() == old(self)@.scopes.len(),
    {
        let _ = self.infer_expr_type(expr);
    }
}

impl Visitor for SemanticTypeChecker {
    type Output = Type;

    /// At every node the checker reaches the state that checking the node
    /// leads to, and gives the node's type.
    open spec fn visits(before: Self, node: Node, after: Self, out: Type) -> bool {
        check_node(node, before@) == (Checked { ty: out@, state: after@ })
    }

    fn visit_program(&mut self, program: &Program) -> (out: Type) {
        self.visit_sequence(&program.expression_list.expressions);
        Type::Unknown
    }

    fn visit_expression_list(&mut self, expr_list: &ExpressionList) -> (out: Type) {
        self.visit_sequence(&expr_list.expressions);
        Type::Unknown
    }

    fn visit_expression(&mut self, expr: &Expression) -> (out: Type) {
        self.infer_expr_type(expr)
    }

    fn visit_atom(&mut self, atom: &Atom) -> (out: Type) {
        self.type_of_atom(atom)
    }

    fn visit_binary_op(&mut self, binop: &BinaryOp) -> (out: Type) {
        SemanticTypeChecker::visit_binary_op(self, binop)
    }

    fn visit_letin(&mut self, letin: &LetIn) -> (out: Type) {
        SemanticTypeChecker::visit_letin(self, letin)
    }

    fn visit_assignment(&mut self, assign: &Assignment) -> (out: Type) {
        SemanticTypeChecker::visit_assignment(self, assign);
        Type::Unknown
    }

    fn visit_block(&mut self, block: &Block) -> (out: Type) {
        SemanticTypeChecker::visit_block(self, block)
    }

    fn visit_literal(&mut self, literal: &Literal) -> (out: Type) {
        match literal {
            Literal::Number(_, _) => Type::Number,
            Literal::Str(_, _) => Type::String,
            Literal::Bool(_, _) => Type::Boolean,
        }
    }

    fn visit_identifier(&mut self, identifier: &Identifier) -> (out: Type) {
        SemanticTypeChecker::visit_identifier(self, identifier)
    }

    fn visit_print(&mut self, expr: &Expression) -> (out: Type) {
        let _ = self.infer_expr_type(expr);
        Type::Unknown
    }

    fn visit_while(&mut self, whilee: &While) -> (out: Type) {
        SemanticTypeChecker::visit_while(self, whilee)
    }

    fn visit_ifelse(&mut self, ifelse: &IfElse) -> (out: Type) {
        SemanticTypeChecker::visit_ifelse(self, ifelse)
    }

    fn visit_group(&mut self, group: &Group) -> (out: Type) {
        SemanticTypeChecker::visit_group(self, group)
    }

    fn visit_unary_op(&mut self, unary_op: &UnaryOp) -> (out: Type) {
        SemanticTypeChecker::visit_unary_op(self, unary_op)
    }

    fn visit_for(&mut self, forr: &For) -> (out: Type) {
        SemanticTypeChecker::visit_for(self, forr)
    }

    fn visit_function_call(&mut self, call: &FunctionCall) -> (out: Type) {
        SemanticTypeChecker::visit_function_call(self, call)
    }

    fn visit_function_def(&mut self, def: &FunctionDef) -> (out: Type) {
        SemanticTypeChecker::visit_function_def(self, def)
    }

    fn visit_type_declaration(&mut self, decl: &Declarationtypes) -> (out: Type) {
        Type::Unknown
    }

    fn visit_instanting_types(&mut self, inst: &InstantingTypes) -> (out: Type) {
        Type::Unknown
    }

    fn visit_access_type_prop(&mut self, access: &AccessTypeProp) -> (out: Type) {
        Type::Unknown
    }

    fn visit_range(&mut self, start: &Expression, end: &Expression) -> (out: Type) {
        let _ = self.infer_expr_type(start);
        let _ = self.infer_expr_type(end);
        Type::Unknown
    }
}

} // verus!
