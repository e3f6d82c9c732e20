//! The code generator: one pass over a checked tree that writes the
//! intermediate text.
//!
//! The pass assumes that the checker has accepted the tree. Where that
//! assumption is broken it stops with an error and what it has written so
//! far is of no use.
use vstd::prelude::*;
use vstd::string::{StringExecFns, StringSliceAdditionalSpecFns};
use crate::ast::{
    AccessTypeProp, Assignment, Atom, BinaryOp, Block, Declarationtypes, Expression,
    ExpressionList, For, FunctionCall, FunctionDef, Group, IfElse, InstantingTypes, LetIn, Program,
    UnaryOp, While,
};
use crate::lowering::{
    escape_text, header_parameters, instruction_head, label_name, line_alloca, line_binary,
    line_bool, line_branch, line_call, line_define, line_false_pointer, line_format_pointer,
    line_jump, line_label, line_load, line_number, line_param_alloca, line_param_store, line_phi,
    line_print_int, line_print_text, line_return, line_select, line_store, line_string_global,
    line_string_pointer, line_true_pointer, loop_head, lower_arguments, lower_atom,
    lower_binary_op, lower_bindings, lower_block, lower_expression, lower_for,
    lower_function_call, lower_function_def, lower_guards, lower_letin, lower_literal, lower_node,
    lower_parameters, lower_print, lower_sequence, lower_unary_op, lower_variable, lower_while,
    machine_type, paired, print_shape, result_machine_type, slot_name, temp_name, typed_operands,
    variable_name, GenError, GenState, Lowered, PrintShape,
};
use crate::storage::{StorageScopes, StringSizes};
use crate::symbol_table::{type_views, Symbol, SymbolInfo, SymbolTable};
use crate::text::{
    append_lines, chars_of, int_to_text, lines, nat_text, push_char, push_line, push_nat,
};
use crate::tokens::{BinOp, Identifier, Literal, UnaryOperator};
use crate::types::{Ty, Type};
use crate::visitor::{Node, Visitor};

verus! {

pub struct LLVMGenerator {
    /// The instruction stream being built.
    pub code: Vec<String>,
    /// The bodies of the functions emitted so far, kept apart from the
    /// stream so that they can be placed before it.
    pub functions: Vec<String>,
    pub temp_count: usize,
    pub last_temp: String,
    pub string_globals: Vec<String>,
    pub env_stack: StorageScopes,
    pub string_sizes: StringSizes,
    pub string_label_count: usize,
    pub symbol_table: SymbolTable,
}

impl View for LLVMGenerator {
    type V = GenState;

    open spec fn view(&self) -> GenState {
        GenState {
            code: lines(self.code@),
            functions: lines(self.functions@),
            temp_count: self.temp_count as nat,
            last_temp: self.last_temp@,
            string_globals: lines(self.string_globals@),
            env: self.env_stack@,
            string_sizes: self.string_sizes@,
            string_label_count: self.string_label_count as nat,
            table: self.symbol_table@,
        }
    }
}

/// Whether the outcome of a step is the one that the model gives: on
/// success the state that the model reaches, on failure the model's error.
pub open spec fn agrees(r: Result<(), GenError>, model: Lowered, after: GenState) -> bool {
    match r {
        Ok(_) => model == Ok::<GenState, GenError>(after),
        Err(e) => model == Err::<GenState, GenError>(e),
    }
}

/// The state in which generation starts: nothing written, no number used,
/// one empty storage scope.
pub open spec fn initial_state(table: Seq<crate::symbol_table::ScopeSpec>) -> GenState {
    GenState {
        code: Seq::empty(),
        functions: Seq::empty(),
        temp_count: 0,
        last_temp: Seq::empty(),
        string_globals: Seq::empty(),
        env: seq![Map::empty()],
        string_sizes: Map::empty(),
        string_label_count: 0,
        table,
    }
}

/// The lines that open every module: the format strings, the import of the
/// formatted-output routine, and the head of the entry point.
pub open spec fn header_lines() -> Seq<Seq<char>> {
    seq![
        "@.fmt_int = private unnamed_addr constant [4 x i8] c\"%d\\0A\\00\""@,
        "@.fmt_str = private unnamed_addr constant [4 x i8] c\"%s\\0A\\00\""@,
        "@.true_str = private unnamed_addr constant [5 x i8] c\"true\\00\""@,
        "@.false_str = private unnamed_addr constant [6 x i8] c\"false\\00\""@,
        "declare i32 @printf(i8*, ...)"@,
        ""@,
        "define i32 @main() {"@,
    ]
}

/// The lines that close every module: the entry point returns zero.
pub open spec fn footer_lines() -> Seq<Seq<char>> {
    seq!["  ret i32 0"@, "}"@]
}

/// Each line behind two spaces.
pub open spec fn indented(code: Seq<Seq<char>>) -> Seq<Seq<char>> {
    Seq::new(code.len(), |i: int| "  "@ + code[i])
}

/// The whole module: the header up to the entry point, the string
/// constants, the functions, the head of the entry point, the instruction
/// stream indented, and the footer.
pub open spec fn module_text(st: GenState) -> Seq<Seq<char>> {
    header_lines().take(6) + st.string_globals + st.functions + header_lines().skip(6) + indented(
        st.code,
    ) + footer_lines()
}

fn temp_text(n: usize) -> (s: String)
    ensures
        s@ == temp_name(n as nat),
{
    let mut s = "%t".to_owned();
    push_nat(&mut s, n);
    s
}

fn label_text(n: usize) -> (s: String)
    ensures
        s@ == label_name(n as nat),
{
    let mut s = "t".to_owned();
    push_nat(&mut s, n);
    s
}

fn numbered(word: &str, n: usize) -> (s: String)
    ensures
        s@ == word@ + nat_text(n as nat),
{
    let mut s = word.to_owned();
    push_nat(&mut s, n);
    s
}

fn slot_text(name: &str, depth: usize) -> (s: String)
    ensures
        s@ == slot_name(name@, depth as nat),
{
    let mut s = name.to_owned();
    s.append("_");
    push_nat(&mut s, depth);
    s
}

fn pointer_text(slot: &str) -> (s: String)
    ensures
        s@ == "%"@ + slot@,
{
    let mut s = "%".to_owned();
    s.append(slot);
    s
}

fn build_alloca(slot: &str) -> (s: String)
    ensures
        s@ == line_alloca(slot@),
{
    let mut s = "%".to_owned();
    s.append(slot);
    s.append(" = alloca i32");
    s
}

fn build_store(value: &str, pointer: &str) -> (s: String)
    ensures
        s@ == line_store(value@, pointer@),
{
    let mut s = "store i32 ".to_owned();
    s.append(value);
    s.append(", i32* ");
    s.append(pointer);
    s
}

fn build_load(temp: &str, pointer: &str) -> (s: String)
    ensures
        s@ == line_load(temp@, pointer@),
{
    let mut s = temp.to_owned();
    s.append(" = load i32, i32* ");
    s.append(pointer);
    s
}

fn build_binary(temp: &str, head: &str, left: &str, right: &str) -> (s: String)
    ensures
        s@ == line_binary(temp@, head@, left@, right@),
{
    let mut s = temp.to_owned();
    s.append(" = ");
    s.append(head);
    s.append(" ");
    s.append(left);
    s.append(", ");
    s.append(right);
    s
}

fn build_jump(label: &str) -> (s: String)
    ensures
        s@ == line_jump(label@),
{
    let mut s = "br label %".to_owned();
    s.append(label);
    s
}

fn build_branch(cond: &str, yes: &str, no: &str) -> (s: String)
    ensures
        s@ == line_branch(cond@, yes@, no@),
{
    let mut s = "br i1 ".to_owned();
    s.append(cond);
    s.append(", label %");
    s.append(yes);
    s.append(", label %");
    s.append(no);
    s
}

fn build_label(label: &str) -> (s: String)
    ensures
        s@ == line_label(label@),
{
    let mut s = label.to_owned();
    s.append(":");
    s
}

fn build_phi(temp: &str, first: &str, first_label: &str, second: &str, second_label: &str) -> (s:
    String)
    ensures
        s@ == line_phi(temp@, first@, first_label@, second@, second_label@),
{
    let mut s = temp.to_owned();
    s.append(" = phi i32 [ ");
    s.append(first);
    s.append(", %");
    s.append(first_label);
    s.append(" ], [ ");
    s.append(second);
    s.append(", %");
    s.append(second_label);
    s.append(" ]");
    s
}

fn build_format_pointer(temp: &str) -> (s: String)
    ensures
        s@ == line_format_pointer(temp@),
{
    let mut s = temp.to_owned();
    s.append(" = getelementptr [4 x i8], [4 x i8]* @.fmt_str, i32 0, i32 0");
    s
}

fn build_string_pointer(temp: &str, len: usize, label: &str) -> (s: String)
    ensures
        s@ == line_string_pointer(temp@, len as nat, label@),
{
    let mut s = temp.to_owned();
    s.append(" = getelementptr [");
    push_nat(&mut s, len);
    s.append(" x i8], [");
    push_nat(&mut s, len);
    s.append(" x i8]* ");
    s.append(label);
    s.append(", i32 0, i32 0");
    s
}

fn build_print_text(format: &str, text: &str) -> (s: String)
    ensures
        s@ == line_print_text(format@, text@),
{
    let mut s = "call i32 (i8*, ...) @printf(i8* ".to_owned();
    s.append(format);
    s.append(", i8* ");
    s.append(text);
    s.append(")");
    s
}

fn build_print_int(value: &str) -> (s: String)
    ensures
        s@ == line_print_int(value@),
{
    let mut s =
        "call i32 (i8*, ...) @printf(i8* getelementptr inbounds ([4 x i8], [4 x i8]* @.fmt_int, i32 0, i32 0), i32 ".to_owned();
    s.append(value);
    s.append(")");
    s
}

fn build_true_pointer(temp: &str) -> (s: String)
    ensures
        s@ == line_true_pointer(temp@),
{
    let mut s = temp.to_owned();
    s.append(" = getelementptr inbounds [5 x i8], [5 x i8]* @.true_str, i32 0, i32 0");
    s
}

fn build_false_pointer(temp: &str) -> (s: String)
    ensures
        s@ == line_false_pointer(temp@),
{
    let mut s = temp.to_owned();
    s.append(" = getelementptr inbounds [6 x i8], [6 x i8]* @.false_str, i32 0, i32 0");
    s
}

fn build_select(temp: &str, cond: &str, yes: &str, no: &str) -> (s: String)
    ensures
        s@ == line_select(temp@, cond@, yes@, no@),
{
    let mut s = temp.to_owned();
    s.append(" = select i1 ");
    s.append(cond);
    s.append(", i8* ");
    s.append(yes);
    s.append(", i8* ");
    s.append(no);
    s
}

fn build_call(temp: &str, result_type: &str, name: &str, arguments: &str) -> (s: String)
    ensures
        s@ == line_call(temp@, result_type@, name@, arguments@),
{
    let mut s = temp.to_owned();
    s.append(" = call ");
    s.append(result_type);
    s.append(" @");
    s.append(name);
    s.append("(");
    s.append(arguments);
    s.append(")");
    s
}

fn build_define(result_type: &str, name: &str, parameters: &str) -> (s: String)
    ensures
        s@ == line_define(result_type@, name@, parameters@),
{
    let mut s = "define ".to_owned();
    s.append(result_type);
    s.append(" @");
    s.append(name);
    s.append("(");
    s.append(parameters);
    s.append(") {");
    s
}

fn build_param_alloca(slot: &str, machine: &str) -> (s: String)
    ensures
        s@ == line_param_alloca(slot@, machine@),
{
    let mut s = "%".to_owned();
    s.append(slot);
    s.append(" = alloca ");
    s.append(machine);
    s
}

fn build_param_store(slot: &str, machine: &str, index: usize) -> (s: String)
    ensures
        s@ == line_param_store(slot@, machine@, index as nat),
{
    let mut s = "store ".to_owned();
    s.append(machine);
    s.append(" %p");
    push_nat(&mut s, index);
    s.append(", ");
    s.append(machine);
    s.append("* %");
    s.append(slot);
    s
}

fn build_return(result_type: &str, value: &str) -> (s: String)
    ensures
        s@ == line_return(result_type@, value@),
{
    let mut s = "ret ".to_owned();
    s.append(result_type);
    s.append(" ");
    s.append(value);
    s
}

fn escaped(content: &str) -> (s: String)
    ensures
        s@ == escape_text(content@),
{
    let chars = chars_of(content);
    let mut s = String::new();
    let mut i: usize = 0;
    assert(content@.take(0) =~= Seq::empty());
    while i < chars.len()
        invariant
            chars@ == content@,
            i <= chars.len(),
            s@ == escape_text(content@.take(i as int)),
        decreases chars.len() - i,
    {
        let c = chars[i];
        assert(content@.take(i + 1).drop_last() =~= content@.take(i as int));
        if c == '\\' {
            s.append("\\5C");
        } else if c == '"' {
            s.append("\\22");
        } else {
            let ghost before = s@;
            push_char(&mut s, c);
            assert(s@ =~= before + seq![c]);
        }
        i += 1;
    }
    assert(content@.take(chars.len() as int) =~= content@);
    s
}

fn build_string_global(label: &str, len: usize, content: &str) -> (s: String)
    ensures
        s@ == line_string_global(label@, len as nat, content@),
{
    let mut s = label.to_owned();
    s.append(" = private unnamed_addr constant [");
    push_nat(&mut s, len);
    s.append(" x i8] c\"");
    let body = escaped(content);
    s.append(body.as_str());
    s.append("\\00\"");
    s
}

fn machine_type_of(ty: &Type) -> (r: Option<&'static str>)
    ensures
        match r {
            Some(s) => machine_type(ty@) == Some(s@),
            None => machine_type(ty@) is None,
        },
{
    match ty {
        Type::Number => Some("i32"),
        Type::Boolean => Some("i1"),
        Type::String => Some("i8*"),
        Type::Custom(_) => Some("i32"),
        _ => None,
    }
}

fn result_machine_type_of(ty: &Type) -> (r: Option<String>)
    ensures
        match r {
            Some(s) => result_machine_type(ty@) == Some(s@),
            None => result_machine_type(ty@) is None,
        },
{
    match ty {
        Type::Number => Some("i32".to_owned()),
        Type::Boolean => Some("i1".to_owned()),
        Type::String => Some("i8*".to_owned()),
        Type::Custom(name) => {
            let mut s = "%".to_owned();
            s.append(name.as_str());
            s.append("*");
            Some(s)
        },
        _ => None,
    }
}

fn instruction_head_of(op: &BinOp) -> (s: &'static str)
    ensures
        s@ == instruction_head(*op),
{
    match op {
        BinOp::EqualEqual(_) => "icmp eq i32",
        BinOp::NotEqual(_) => "icmp ne i32",
        BinOp::Less(_) => "icmp slt i32",
        BinOp::LessEqual(_) => "icmp sle i32",
        BinOp::Greater(_) => "icmp sgt i32",
        BinOp::GreaterEqual(_) => "icmp sge i32",
        BinOp::AndAnd(_) => "and i1",
        BinOp::OrOr(_) => "or i1",
        BinOp::Plus(_) => "add i32",
        BinOp::Minus(_) => "sub i32",
        BinOp::Mul(_) => "mul i32",
        BinOp::Div(_) => "sdiv i32",
        BinOp::Mod(_) => "srem i32",
        _ => "add i32",
    }
}

fn duplicate_types(types: &Vec<Type>) -> (r: Vec<Type>)
    ensures
        type_views(r@) == type_views(types@),
{
    let mut r: Vec<Type> = Vec::new();
    let mut i: usize = 0;
    while i < types.len()
        invariant
            i <= types.len(),
            r@.len() == i,
            forall|j: int| 0 <= j < i ==> (#[trigger] r@[j])@ == types@[j]@,
        decreases types.len() - i,
    {
        r.push(types[i].duplicate());
        i += 1;
    }
    assert(type_views(r@) =~= type_views(types@));
    r
}

fn variable_name_of(e: &Expression) -> (r: Option<&String>)
    ensures
        match r {
            Some(name) => variable_name(*e) == Some(name@),
            None => variable_name(*e) is None,
        },
{
    match e {
        Expression::Atom(atom) => match &**atom {
            Atom::Variable(id) => Some(&id.name),
            _ => None,
        },
        _ => None,
    }
}

/// Once an argument's type has no machine form, no longer list has one.
proof fn lemma_typed_operands_stay_none(operands: Seq<Seq<char>>, types: Seq<Ty>, k: nat, count: nat)
    requires
        k <= count,
        typed_operands(operands, types, k) is None,
    ensures
        typed_operands(operands, types, count) is None,
    decreases count,
{
    if k < count {
        lemma_typed_operands_stay_none(operands, types, k, (count - 1) as nat);
    }
}

/// Once a parameter's type has no machine form, no longer header has one.
proof fn lemma_header_parameters_stay_none(types: Seq<Ty>, k: nat, count: nat)
    requires
        k <= count,
        header_parameters(types, k) is None,
    ensures
        header_parameters(types, count) is None,
    decreases count,
{
    if k < count {
        lemma_header_parameters_stay_none(types, k, (count - 1) as nat);
    }
}

fn build_typed_operands(operands: &Vec<String>, types: &Vec<Type>) -> (r: Option<String>)
    ensures
        match r {
            Some(s) => typed_operands(
                lines(operands@),
                type_views(types@),
                paired(operands@.len(), types@.len()),
            ) == Some(s@),
            None => typed_operands(
                lines(operands@),
                type_views(types@),
                paired(operands@.len(), types@.len()),
            ) is None,
        },
{
    let count = if operands.len() <= types.len() {
        operands.len()
    } else {
        types.len()
    };
    let mut s = String::new();
    let mut k: usize = 0;
    while k < count
        invariant
            k <= count,
            count == paired(operands@.len(), types@.len()),
            typed_operands(lines(operands@), type_views(types@), k as nat) == Some(s@),
        decreases count - k,
    {
        match machine_type_of(&types[k]) {
            None => {
                proof {
                    assert(typed_operands(lines(operands@), type_views(types@), (k + 1) as nat)
                        is None);
                    lemma_typed_operands_stay_none(
                        lines(operands@),
                        type_views(types@),
                        (k + 1) as nat,
                        count as nat,
                    );
                }
                return None;
            },
            Some(ty) => {
                let ghost before = s@;
                if k > 0 {
                    s.append(", ");
                } else {
                    assert(s@ =~= before + Seq::<char>::empty());
                }
                s.append(ty);
                s.append(" ");
                s.append(operands[k].as_str());
            },
        }
        k += 1;
    }
    Some(s)
}

fn build_header_parameters(types: &Vec<Type>) -> (r: Option<String>)
    ensures
        match r {
            Some(s) => header_parameters(type_views(types@), types@.len()) == Some(s@),
            None => header_parameters(type_views(types@), types@.len()) is None,
        },
{
    let mut s = String::new();
    let mut k: usize = 0;
    while k < types.len()
        invariant
            k <= types.len(),
            header_parameters(type_views(types@), k as nat) == Some(s@),
        decreases types.len() - k,
    {
        match machine_type_of(&types[k]) {
            None => {
                proof {
                    assert(header_parameters(type_views(types@), (k + 1) as nat) is None);
                    lemma_header_parameters_stay_none(
                        type_views(types@),
                        (k + 1) as nat,
                        types@.len(),
                    );
                }
                return None;
            },
            Some(ty) => {
                let ghost before = s@;
                if k > 0 {
                    s.append(", ");
                } else {
                    assert(s@ =~= before + Seq::<char>::empty());
                }
                s.append(ty);
                s.append(" %p");
                push_nat(&mut s, k);
            },
        }
        k += 1;
    }
    Some(s)
}

impl LLVMGenerator {
    /// A generator that has written nothing, over the signatures in
    /// `symbol_table`.
    pub fn new(symbol_table: SymbolTable) -> (g: Self)
        ensures
            g@ == initial_state(symbol_table@),
    {
        let g = LLVMGenerator {
            code: Vec::new(),
            functions: Vec::new(),
            temp_count: 0,
            last_temp: String::new(),
            string_globals: Vec::new(),
            env_stack: StorageScopes::new(),
            string_sizes: StringSizes::new(),
            string_label_count: 0,
            symbol_table,
        };
        assert(lines(g.code@) =~= Seq::empty());
        assert(lines(g.functions@) =~= Seq::empty());
        assert(lines(g.string_globals@) =~= Seq::empty());
        g
    }

    /// Takes the next number and names the temporary that has it.
    pub fn next_temp(&mut self) -> (r: Result<String, GenError>)
        ensures
            match r {
                Ok(t) => old(self)@.can_count() && t@ == temp_name(old(self)@.temp_count)
                    && final(self)@ == old(self)@.bump(),
                Err(e) => !old(self)@.can_count() && e == GenError::CounterOverflow && final(self)@
                    == old(self)@,
            },
    {
        if self.temp_count == usize::MAX {
            return Err(GenError::CounterOverflow);
        }
        let t = temp_text(self.temp_count);
        self.temp_count += 1;
        Ok(t)
    }

    pub fn llvm_header() -> (v: Vec<String>)
        ensures
            lines(v@) == header_lines(),
    {
        let mut v: Vec<String> = Vec::new();
        v.push("@.fmt_int = private unnamed_addr constant [4 x i8] c\"%d\\0A\\00\"".to_owned());
        v.push("@.fmt_str = private unnamed_addr constant [4 x i8] c\"%s\\0A\\00\"".to_owned());
        v.push("@.true_str = private unnamed_addr constant [5 x i8] c\"true\\00\"".to_owned());
        v.push("@.false_str = private unnamed_addr constant [6 x i8] c\"false\\00\"".to_owned());
        v.push("declare i32 @printf(i8*, ...)".to_owned());
        v.push("".to_owned());
        v.push("define i32 @main() {".to_owned());
        assert(lines(v@) =~= header_lines());
        v
    }

    pub fn llvm_footer() -> (v: Vec<String>)
        ensures
            lines(v@) == footer_lines(),
    {
        let mut v: Vec<String> = Vec::new();
        v.push("  ret i32 0".to_owned());
        v.push("}".to_owned());
        assert(lines(v@) =~= footer_lines());
        v
    }

    /// The slot of `name` in the nearest enclosing storage scope.
    pub fn lookup_var(&self, name: &str) -> (r: Option<&String>)
        ensures
            match r {
                Some(slot) => resolve_slot(self@, name@) == Some(slot@),
                None => resolve_slot(self@, name@) is None,
            },
    {
        self.env_stack.lookup(name)
    }

    fn emit(&mut self, line: String)
        ensures
            final(self)@ == old(self)@.emit(line@),
    {
        push_line(&mut self.code, line);
    }

    fn set_last(&mut self, operand: String)
        ensures
            final(self)@ == old(self)@.with_last(operand@),
    {
        self.last_temp = operand;
    }

    fn enter(&mut self)
        ensures
            final(self)@ == old(self)@.enter(),
    {
        self.env_stack.enter_scope();
    }

    fn exit(&mut self)
        ensures
            final(self)@ == old(self)@.exit(),
    {
        self.env_stack.exit_scope();
    }

    fn declare(&mut self, name: String, slot: String)
        ensures
            final(self)@ == old(self)@.declare(name@, slot@),
    {
        self.env_stack.declare(name, slot);
    }

    /// Takes `count` numbers at once and gives the first of them.
    fn take_numbers(&mut self, count: usize) -> (r: Result<usize, GenError>)
        ensures
            match r {
                Ok(first) => first == old(self)@.temp_count && first + count <= usize::MAX
                    && final(self)@ == (GenState {
                    temp_count: old(self)@.temp_count + count as nat,
                    ..old(self)@
                }),
                Err(e) => old(self)@.temp_count + count > usize::MAX && e
                    == GenError::CounterOverflow && final(self)@ == old(self)@,
            },
    {
        if self.temp_count > usize::MAX - count {
            return Err(GenError::CounterOverflow);
        }
        let first = self.temp_count;
        self.temp_count += count;
        Ok(first)
    }
}

fn build_number(temp: &str, n: i32) -> (s: String)
    ensures
        s@ == line_number(temp@, n as int),
{
    let mut s = temp.to_owned();
    s.append(" = add i32 0, ");
    let numeral = int_to_text(n);
    s.append(numeral.as_str());
    s
}

fn build_bool(temp: &str, b: bool) -> (s: String)
    ensures
        s@ == line_bool(temp@, b),
{
    let mut s = temp.to_owned();
    s.append(" = icmp eq i1 ");
    if b {
        s.append("1");
    } else {
        s.append("0");
    }
    s.append(", 1");
    s
}

fn print_shape_of(e: &Expression) -> (shape: PrintShape)
    ensures
        shape == print_shape(*e),
{
    match e {
        Expression::Atom(atom) => match &**atom {
            Atom::StringLiteral(_) => PrintShape::Text,
            Atom::BooleanLiteral(_) => PrintShape::Truth,
            _ => PrintShape::Number,
        },
        _ => PrintShape::Number,
    }
}

impl LLVMGenerator {
    pub fn visit_literal(&mut self, literal: &Literal) -> (r: Result<(), GenError>)
        ensures
            agrees(r, lower_literal(*literal, old(self)@), final(self)@),
    {
        let temp = match self.next_temp() {
            Ok(t) => t,
            Err(e) => {
                return Err(e);
            },
        };
        match literal {
            Literal::Number(n, _) => {
                let line = build_number(temp.as_str(), *n);
                self.emit(line);
                self.set_last(temp);
                Ok(())
            },
            Literal::Bool(b, _) => {
                let line = build_bool(temp.as_str(), *b);
                self.emit(line);
                self.set_last(temp);
                Ok(())
            },
            Literal::Str(s, _) => {
                let content_len = s.as_str().as_bytes().len();
                if content_len == usize::MAX || self.string_label_count == usize::MAX {
                    return Err(GenError::CounterOverflow);
                }
                let len = content_len + 1;
                let label = numbered("@.str_", self.string_label_count);
                let global = build_string_global(label.as_str(), len, s.as_str());
                push_line(&mut self.string_globals, global);
                self.string_sizes.record(label.clone(), len);
                self.last_temp = label;
                self.string_label_count += 1;
                Ok(())
            },
        }
    }

    pub fn visit_identifier(&mut self, identifier: &Identifier) -> (r: Result<(), GenError>)
        ensures
            agrees(r, lower_variable(identifier.name@, old(self)@), final(self)@),
            resolve_slot(old(self)@, identifier.name@) is None ==> r == Err::<(), GenError>(
                GenError::UndeclaredVariable,
            ) && final(self)@ == old(self)@,
    {
        let slot = match self.lookup_var(identifier.name.as_str()) {
            Some(slot) => slot.clone(),
            None => {
                return Err(GenError::UndeclaredVariable);
            },
        };
        let temp = match self.next_temp() {
            Ok(t) => t,
            Err(e) => {
                return Err(e);
            },
        };
        let line = build_load(temp.as_str(), slot.as_str());
        self.emit(line);
        self.set_last(temp);
        Ok(())
    }

    pub fn visit_atom(&mut self, atom: &Atom) -> (r: Result<(), GenError>)
        ensures
            agrees(r, lower_atom(*atom, old(self)@), final(self)@),
            match atom {
                Atom::Variable(id) => resolve_slot(old(self)@, id.name@) is None ==> r == Err::<
                    (),
                    GenError,
                >(GenError::UndeclaredVariable) && final(self)@ == old(self)@,
                _ => true,
            },
        decreases atom, 0nat,
    {
        match atom {
            Atom::NumberLiteral(lit) => self.visit_literal(lit),
            Atom::BooleanLiteral(lit) => self.visit_literal(lit),
            Atom::StringLiteral(lit) => self.visit_literal(lit),
            Atom::Variable(id) => self.visit_identifier(id),
            Atom::Group(group) => self.visit_expression(&*group.expression),
        }
    }

    pub fn visit_group(&mut self, group: &Group) -> (r: Result<(), GenError>)
        ensures
            agrees(r, lower_expression(*group.expression, old(self)@), final(self)@),
        decreases group, 2nat,
    {
        self.visit_expression(&*group.expression)
    }

    pub fn visit_binary_op(&mut self, binop: &BinaryOp) -> (r: Result<(), GenError>)
        ensures
            agrees(r, lower_binary_op(*binop, old(self)@), final(self)@),
            binop.operator is Assign ==> match variable_name(*binop.left) {
                None => r == Err::<(), GenError>(GenError::InvalidAssignmentTarget) && final(self)@ == old(self)@,
                Some(name) => resolve_slot(old(self)@, name) is None ==> r == Err::<
                    (),
                    GenError,
                >(GenError::UndeclaredVariable) && final(self)@ == old(self)@,
            },
        decreases binop, 0nat,
    {
        match &binop.operator {
            BinOp::Assign(_) => {
                let name = match variable_name_of(&*binop.left) {
                    Some(name) => name,
                    None => {
                        return Err(GenError::InvalidAssignmentTarget);
                    },
                };
                let slot = match self.lookup_var(name.as_str()) {
                    Some(slot) => slot.clone(),
                    None => {
                        return Err(GenError::UndeclaredVariable);
                    },
                };
                match self.visit_expression(&*binop.right) {
                    Ok(_) => {},
                    Err(e) => {
                        return Err(e);
                    },
                }
                let line = build_store(self.last_temp.as_str(), slot.as_str());
                self.emit(line);
                Ok(())
            },
            _ => {
                match self.visit_expression(&*binop.left) {
                    Ok(_) => {},
                    Err(e) => {
                        return Err(e);
                    },
                }
                let left = self.last_temp.clone();
                match self.visit_expression(&*binop.right) {
                    Ok(_) => {},
                    Err(e) => {
                        return Err(e);
                    },
                }
                let right = self.last_temp.clone();
                let temp = match self.next_temp() {
                    Ok(t) => t,
                    Err(e) => {
                        return Err(e);
                    },
                };
                let line = build_binary(
                    temp.as_str(),
                    instruction_head_of(&binop.operator),
                    left.as_str(),
                    right.as_str(),
                );
                self.emit(line);
                self.set_last(temp);
                Ok(())
            },
        }
    }

    pub fn visit_unary_op(&mut self, unary_op: &UnaryOp) -> (r: Result<(), GenError>)
        ensures
            agrees(r, lower_unary_op(*unary_op, old(self)@), final(self)@),
        decreases unary_op, 0nat,
    {
        match self.visit_expression(&*unary_op.expr) {
            Ok(_) => {},
            Err(e) => {
                return Err(e);
            },
        }
        let operand = self.last_temp.clone();
        match unary_op.op {
            UnaryOperator::Minus(_) => {
                let temp = match self.next_temp() {
                    Ok(t) => t,
                    Err(e) => {
                        return Err(e);
                    },
                };
                let line = build_binary(temp.as_str(), "sub i32", "0", operand.as_str());
                self.emit(line);
                self.set_last(temp);
                Ok(())
            },
            UnaryOperator::Not(_) => {
                let temp = match self.next_temp() {
                    Ok(t) => t,
                    Err(e) => {
                        return Err(e);
                    },
                };
                let line = build_binary(temp.as_str(), "xor i1", operand.as_str(), "true");
                self.emit(line);
                self.set_last(temp);
                Ok(())
            },
            UnaryOperator::Plus(_) => Err(GenError::UnsupportedUnaryOperator),
        }
    }

    /// Lowers the expressions of a list in order.
    #[verifier::loop_isolation(false)]
    pub fn visit_sequence(&mut self, exprs: &Vec<Expression>) -> (r: Result<(), GenError>)
        ensures
            agrees(r, lower_sequence(exprs@, 0, old(self)@), final(self)@),
        decreases exprs, 2nat,
    {
        let mut i: usize = 0;
        while i < exprs.len()
            invariant
                i <= exprs.len(),
                lower_sequence(exprs@, i as nat, self@) == lower_sequence(exprs@, 0, old(self)@),
            decreases exprs.len() - i,
        {
            match self.visit_expression(&exprs[i]) {
                Ok(_) => {},
                Err(e) => {
                    return Err(e);
                },
            }
            i += 1;
        }
        Ok(())
    }

    pub fn visit_expression_list(&mut self, expr_list: &ExpressionList) -> (r: Result<
        (),
        GenError,
    >)
        ensures
            agrees(r, lower_sequence(expr_list.expressions@, 0, old(self)@), final(self)@),
        decreases expr_list, 3nat,
    {
        self.visit_sequence(&expr_list.expressions)
    }

    pub fn visit_program(&mut self, program: &Program) -> (r: Result<(), GenError>)
        ensures
            agrees(
                r,
                lower_sequence(program.expression_list.expressions@, 0, old(self)@),
                final(self)@,
            ),
    {
        self.visit_sequence(&program.expression_list.expressions)
    }

    pub fn visit_block(&mut self, block: &Block) -> (r: Result<(), GenError>)
        ensures
            agrees(r, lower_block(*block, old(self)@), final(self)@),
        decreases block, 0nat,
    {
        self.enter();
        match self.visit_sequence(&block.expression_list.expressions) {
            Ok(_) => {},
            Err(e) => {
                return Err(e);
            },
        }
        self.exit();
        Ok(())
    }

    #[verifier::loop_isolation(false)]
    pub fn visit_letin(&mut self, letin: &LetIn) -> (r: Result<(), GenError>)
        ensures
            agrees(r, lower_letin(*letin, old(self)@), final(self)@),
        decreases letin, 0nat,
    {
        self.enter();
        let ghost entered = self@;
        let mut i: usize = 0;
        while i < letin.bindings.len()
            invariant
                i <= letin.bindings.len(),
                lower_bindings(letin.bindings@, i as nat, self@) == lower_bindings(
                    letin.bindings@,
                    0,
                    entered,
                ),
            decreases letin.bindings.len() - i,
        {
            let assign = &letin.bindings[i];
            let name = match &assign.variable {
                Atom::Variable(id) => &id.name,
                _ => {
                    return Err(GenError::InvalidAssignmentTarget);
                },
            };
            let slot = slot_text(name.as_str(), self.env_stack.depth());
            self.emit(build_alloca(slot.as_str()));
            match self.visit_expression(&*assign.body) {
                Ok(_) => {},
                Err(e) => {
                    return Err(e);
                },
            }
            let pointer = pointer_text(slot.as_str());
            let line = build_store(self.last_temp.as_str(), pointer.as_str());
            self.emit(line);
            self.declare(name.clone(), pointer);
            i += 1;
        }
        match self.visit_expression(&*letin.body) {
            Ok(_) => {},
            Err(e) => {
                return Err(e);
            },
        }
        self.exit();
        Ok(())
    }

    /// Lowers the conditional from guard `level` on.
    pub fn visit_guards(&mut self, ifelse: &IfElse, level: usize) -> (r: Result<(), GenError>)
        ensures
            agrees(r, lower_guards(*ifelse, level as nat, old(self)@), final(self)@),
        decreases ifelse, ifelse.elif_branches@.len() + 1 - level,
    {
        if level > ifelse.elif_branches.len() {
            return match &ifelse.else_branch {
                Some(e) => self.visit_expression(&**e),
                None => {
                    let temp = match self.next_temp() {
                        Ok(t) => t,
                        Err(e) => {
                            return Err(e);
                        },
                    };
                    let line = build_number(temp.as_str(), 0);
                    self.emit(line);
                    self.set_last(temp);
                    Ok(())
                },
            };
        }
        if level == usize::MAX {
            return Err(GenError::CounterOverflow);
        }
        let n = match self.take_numbers(1) {
            Ok(n) => n,
            Err(e) => {
                return Err(e);
            },
        };
        let then_name = numbered("then", n);
        let else_name = numbered("else", n);
        let merge_name = numbered("merge", n);
        let condition = if level == 0 {
            &*ifelse.condition
        } else {
            &ifelse.elif_branches[level - 1].1
        };
        let branch = if level == 0 {
            &*ifelse.then_branch
        } else {
            &ifelse.elif_branches[level - 1].2
        };
        match self.visit_expression(condition) {
            Ok(_) => {},
            Err(e) => {
                return Err(e);
            },
        }
        let line = build_branch(self.last_temp.as_str(), then_name.as_str(), else_name.as_str());
        self.emit(line);
        self.emit(build_label(then_name.as_str()));
        match self.visit_expression(branch) {
            Ok(_) => {},
            Err(e) => {
                return Err(e);
            },
        }
        let then_result = self.last_temp.clone();
        self.emit(build_jump(merge_name.as_str()));
        self.emit(build_label(else_name.as_str()));
        match self.visit_guards(ifelse, level + 1) {
            Ok(_) => {},
            Err(e) => {
                return Err(e);
            },
        }
        let else_result = self.last_temp.clone();
        self.emit(build_jump(merge_name.as_str()));
        self.emit(build_label(merge_name.as_str()));
        let temp = match self.next_temp() {
            Ok(t) => t,
            Err(e) => {
                return Err(e);
            },
        };
        let line = build_phi(
            temp.as_str(),
            then_result.as_str(),
            then_name.as_str(),
            else_result.as_str(),
            else_name.as_str(),
        );
        self.emit(line);
        self.set_last(temp);
        Ok(())
    }

    pub fn visit_ifelse(&mut self, ifelse: &IfElse) -> (r: Result<(), GenError>)
        ensures
            agrees(r, lower_guards(*ifelse, 0, old(self)@), final(self)@),
        decreases ifelse, ifelse.elif_branches@.len() + 2,
    {
        self.visit_guards(ifelse, 0)
    }

    pub fn visit_while(&mut self, whilee: &While) -> (r: Result<(), GenError>)
        ensures
            agrees(r, lower_while(*whilee, old(self)@), final(self)@),
        decreases whilee, 0nat,
    {
        let n = match self.take_numbers(3) {
            Ok(n) => n,
            Err(e) => {
                return Err(e);
            },
        };
        let cond = label_text(n);
        let body = label_text(n + 1);
        let end = label_text(n + 2);
        self.emit(build_jump(cond.as_str()));
        self.emit(build_label(cond.as_str()));
        match self.visit_expression(&*whilee.cond) {
            Ok(_) => {},
            Err(e) => {
                return Err(e);
            },
        }
        let line = build_branch(self.last_temp.as_str(), body.as_str(), end.as_str());
        self.emit(line);
        self.emit(build_label(body.as_str()));
        match self.visit_expression(&*whilee.body) {
            Ok(_) => {},
            Err(e) => {
                return Err(e);
            },
        }
        self.emit(build_jump(cond.as_str()));
        self.emit(build_label(end.as_str()));
        Ok(())
    }

    pub fn visit_for(&mut self, forr: &For) -> (r: Result<(), GenError>)
        ensures
            agrees(r, lower_for(*forr, old(self)@), final(self)@),
            variable_name(*forr.var) is None ==> r == Err::<(), GenError>(
                GenError::InvalidLoopVariable,
            ) && final(self)@ == old(self)@,
            variable_name(*forr.var) is Some && !(*forr.iterable is Range) ==> r == Err::<
                (),
                GenError,
            >(GenError::NonRangeIterable) && final(self)@ == old(self)@,
        decreases forr, 0nat,
    {
        let name = match variable_name_of(&*forr.var) {
            Some(name) => name,
            None => {
                return Err(GenError::InvalidLoopVariable);
            },
        };
        let (start, end) = match &*forr.iterable {
            Expression::Range(start, end) => (start, end),
            _ => {
                return Err(GenError::NonRangeIterable);
            },
        };
        self.enter();
        let slot = slot_text(name.as_str(), self.env_stack.depth());
        let pointer = pointer_text(slot.as_str());
        self.emit(build_alloca(slot.as_str()));
        match self.visit_expression(&**start) {
            Ok(_) => {},
            Err(e) => {
                return Err(e);
            },
        }
        let line = build_store(self.last_temp.as_str(), pointer.as_str());
        self.emit(line);
        match self.visit_expression(&**end) {
            Ok(_) => {},
            Err(e) => {
                return Err(e);
            },
        }
        let end_temp = self.last_temp.clone();
        let ghost s2 = self@;
        self.declare(name.clone(), pointer.clone());
        let n = match self.take_numbers(5) {
            Ok(n) => n,
            Err(e) => {
                return Err(e);
            },
        };
        let cond = label_text(n);
        let body = label_text(n + 1);
        let exit = label_text(n + 2);
        let x = temp_text(n + 3);
        let cmp = temp_text(n + 4);
        self.emit(build_jump(cond.as_str()));
        self.emit(build_label(cond.as_str()));
        self.emit(build_load(x.as_str(), pointer.as_str()));
        self.emit(build_binary(cmp.as_str(), "icmp slt i32", x.as_str(), end_temp.as_str()));
        self.emit(build_branch(cmp.as_str(), body.as_str(), exit.as_str()));
        self.emit(build_label(body.as_str()));
        assert(self@ == loop_head(s2.declare(name@, pointer@), slot@, end_temp@));
        match self.visit_expression(&*forr.body) {
            Ok(_) => {},
            Err(e) => {
                return Err(e);
            },
        }
        let m = match self.take_numbers(2) {
            Ok(m) => m,
            Err(e) => {
                return Err(e);
            },
        };
        let again = temp_text(m);
        let inc = temp_text(m + 1);
        self.emit(build_load(again.as_str(), pointer.as_str()));
        self.emit(build_binary(inc.as_str(), "add i32", again.as_str(), "1"));
        self.emit(build_store(inc.as_str(), pointer.as_str()));
        self.emit(build_jump(cond.as_str()));
        self.emit(build_label(exit.as_str()));
        self.exit();
        Ok(())
    }

    pub fn visit_print(&mut self, expr: &Expression) -> (r: Result<(), GenError>)
        ensures
            agrees(r, lower_print(*expr, old(self)@), final(self)@),
        decreases expr, 2nat,
    {
        match self.visit_expression(expr) {
            Ok(_) => {},
            Err(e) => {
                return Err(e);
            },
        }
        match print_shape_of(expr) {
            PrintShape::Text => {
                let label = self.last_temp.clone();
                let len = match self.string_sizes.get(label.as_str()) {
                    Some(len) => len,
                    None => 0,
                };
                let n = match self.take_numbers(2) {
                    Ok(n) => n,
                    Err(e) => {
                        return Err(e);
                    },
                };
                let format = temp_text(n);
                let text = temp_text(n + 1);
                self.emit(build_format_pointer(format.as_str()));
                self.emit(build_string_pointer(text.as_str(), len, label.as_str()));
                self.emit(build_print_text(format.as_str(), text.as_str()));
                Ok(())
            },
            PrintShape::Truth => {
                let value = self.last_temp.clone();
                let n = match self.take_numbers(4) {
                    Ok(n) => n,
                    Err(e) => {
                        return Err(e);
                    },
                };
                let yes = temp_text(n);
                let no = temp_text(n + 1);
                let chosen = temp_text(n + 2);
                let format = temp_text(n + 3);
                self.emit(build_true_pointer(yes.as_str()));
                self.emit(build_false_pointer(no.as_str()));
                self.emit(build_select(chosen.as_str(), value.as_str(), yes.as_str(), no.as_str()));
                self.emit(build_format_pointer(format.as_str()));
                self.emit(build_print_text(format.as_str(), chosen.as_str()));
                Ok(())
            },
            PrintShape::Number => {
                let line = build_print_int(self.last_temp.as_str());
                self.emit(line);
                Ok(())
            },
        }
    }

    #[verifier::loop_isolation(false)]
    pub fn visit_function_call(&mut self, call: &FunctionCall) -> (r: Result<(), GenError>)
        ensures
            agrees(r, lower_function_call(*call, old(self)@), final(self)@),
            !(crate::symbol_table::resolve(old(self)@.table, call.funct_name.name@) matches Some(
                Symbol::Function { .. },
            )) ==> r == Err::<(), GenError>(GenError::UnknownFunction) && final(self)@ == old(self)@,
        decreases call, 0nat,
    {
        let (return_type, param_types) = match self.symbol_table.lookup(
            call.funct_name.name.as_str(),
        ) {
            Some(SymbolInfo::Function { return_type, param_types }) => (
                return_type.duplicate(),
                duplicate_types(param_types),
            ),
            _ => {
                return Err(GenError::UnknownFunction);
            },
        };
        let mut operands: Vec<String> = Vec::new();
        assert(lines(operands@) =~= Seq::empty());
        let mut i: usize = 0;
        while i < call.arguments.len()
            invariant
                i <= call.arguments.len(),
                lower_arguments(call.arguments@, i as nat, lines(operands@), self@)
                    == lower_arguments(call.arguments@, 0, Seq::empty(), old(self)@),
            decreases call.arguments.len() - i,
        {
            match self.visit_expression(&call.arguments[i]) {
                Ok(_) => {},
                Err(e) => {
                    return Err(e);
                },
            }
            push_line(&mut operands, self.last_temp.clone());
            i += 1;
        }
        let arguments = match build_typed_operands(&operands, &param_types) {
            Some(s) => s,
            None => {
                return Err(GenError::UnsupportedType);
            },
        };
        let result = match machine_type_of(&return_type) {
            Some(s) => s,
            None => {
                return Err(GenError::UnsupportedType);
            },
        };
        let temp = match self.next_temp() {
            Ok(t) => t,
            Err(e) => {
                return Err(e);
            },
        };
        let line = build_call(
            temp.as_str(),
            result,
            call.funct_name.name.as_str(),
            arguments.as_str(),
        );
        self.emit(line);
        self.set_last(temp);
        Ok(())
    }

    #[verifier::loop_isolation(false)]
    pub fn visit_function_def(&mut self, def: &FunctionDef) -> (r: Result<(), GenError>)
        ensures
            agrees(r, lower_function_def(*def, old(self)@), final(self)@),
            !(crate::symbol_table::resolve(old(self)@.table, def.name.name@) matches Some(
                Symbol::Function { .. },
            )) ==> r == Err::<(), GenError>(GenError::UnknownFunction) && final(self)@ == old(self)@,
        decreases def, 0nat,
    {
        let (return_type, param_types) = match self.symbol_table.lookup(def.name.name.as_str()) {
            Some(SymbolInfo::Function { return_type, param_types }) => (
                return_type.duplicate(),
                duplicate_types(param_types),
            ),
            _ => {
                return Err(GenError::UnknownFunction);
            },
        };
        let parameters = match build_header_parameters(&param_types) {
            Some(s) => s,
            None => {
                return Err(GenError::UnsupportedType);
            },
        };
        let result = match result_machine_type_of(&return_type) {
            Some(s) => s,
            None => {
                return Err(GenError::UnsupportedType);
            },
        };
        let mut fn_code: Vec<String> = Vec::new();
        let header = build_define(result.as_str(), def.name.name.as_str(), parameters.as_str());
        let ghost header_text = header@;
        fn_code.push(header);
        assert(lines(fn_code@) =~= seq![header_text]);
        self.enter();
        let ghost entered = self@;
        let mut i: usize = 0;
        while i < def.params.len()
            invariant
                i <= def.params.len(),
                self@.code == old(self)@.code,
                lower_parameters(def.params@, i as nat, lines(fn_code@), self@)
                    == lower_parameters(def.params@, 0, seq![header_text], entered),
            decreases def.params.len() - i,
        {
            let param = &def.params[i];
            let declared = Type::from_str(param.signature.as_str());
            let machine = match machine_type_of(&declared) {
                Some(s) => s,
                None => {
                    return Err(GenError::UnsupportedType);
                },
            };
            let slot = slot_text(param.name.name.as_str(), self.env_stack.depth());
            push_line(&mut fn_code, build_param_alloca(slot.as_str(), machine));
            push_line(&mut fn_code, build_param_store(slot.as_str(), machine, i));
            self.declare(param.name.name.clone(), pointer_text(slot.as_str()));
            i += 1;
        }
        let ghost s1 = self@;
        let ghost head = lines(fn_code@);
        let mut saved: Vec<String> = Vec::new();
        std::mem::swap(&mut self.code, &mut saved);
        assert(lines(self.code@) =~= Seq::empty());
        match self.visit_expression(&*def.body) {
            Ok(_) => {},
            Err(e) => {
                return Err(e);
            },
        }
        let ghost s2 = self@;
        append_lines(&mut fn_code, &mut self.code);
        let line = build_return(result.as_str(), self.last_temp.as_str());
        push_line(&mut fn_code, line);
        self.exit();
        push_line(&mut fn_code, "}".to_owned());
        assert(lines(fn_code@) =~= head + s2.code + seq![
            line_return(result@, s2.last_temp),
            "}"@,
        ]);
        self.code = saved;
        append_lines(&mut self.functions, &mut fn_code);
        assert(lines(self.functions@) =~= s2.functions + head + s2.code + seq![
            line_return(result@, s2.last_temp),
            "}"@,
        ]);
        Ok(())
    }

    pub fn visit_range(&mut self, start: &Expression, end: &Expression) -> (r: Result<
        (),
        GenError,
    >)
        ensures
            agrees(
                r,
                match lower_expression(*start, old(self)@) {
                    Err(err) => Err(err),
                    Ok(s1) => lower_expression(*end, s1),
                },
                final(self)@,
            ),
        decreases start, end, 2nat,
    {
        match self.visit_expression(start) {
            Ok(_) => {},
            Err(e) => {
                return Err(e);
            },
        }
        self.visit_expression(end)
    }

    /// Lowers one expression, whatever its kind.
    pub fn visit_expression(&mut self, expr: &Expression) -> (r: Result<(), GenError>)
        ensures
            agrees(r, lower_expression(*expr, old(self)@), final(self)@),
        decreases expr, 1nat,
    {
        match expr {
            Expression::BinaryOp(binop) => self.visit_binary_op(binop),
            Expression::Atom(atom) => self.visit_atom(&**atom),
            Expression::IfElse(ifelse) => self.visit_guards(&**ifelse, 0),
            Expression::LetIn(letin) => self.visit_letin(&**letin),
            Expression::For(forr) => self.visit_for(&**forr),
            Expression::Print(inner, _) => self.visit_print(&**inner),
            Expression::While(whilee) => self.visit_while(&**whilee),
            Expression::Block(block) => self.visit_block(&**block),
            Expression::UnaryOp(unary_op) => self.visit_unary_op(unary_op),
            Expression::Range(start, end) => {
                match self.visit_expression(&**start) {
                    Ok(_) => {},
                    Err(e) => {
                        return Err(e);
                    },
                }
                self.visit_expression(&**end)
            },
            Expression::FunctionCall(call) => self.visit_function_call(call),
            Expression::FunctionDef(def) => self.visit_function_def(def),
            Expression::TypeDeclaration(_) => Ok(()),
            Expression::TypeInstantiation(_) => Ok(()),
            Expression::TypeMethodAccess(_) => Ok(()),
            Expression::TypePropertyAccess(_) => Ok(()),
        }
    }
}

impl Visitor for LLVMGenerator {
    type Output = Result<(), GenError>;

    /// At every node the generator reaches the state that lowering the node
    /// leads to, or stops with the error that lowering stops with.
    open spec fn visits(before: Self, node: Node, after: Self, out: Result<(), GenError>) -> bool {
        agrees(out, lower_node(node, before@), after@)
    }

    fn visit_program(&mut self, program: &Program) -> (out: Result<(), GenError>) {
        LLVMGenerator::visit_program(self, program)
    }

    fn visit_expression_list(&mut self, expr_list: &ExpressionList) -> (out: Result<(), GenError>) {
        LLVMGenerator::visit_expression_list(self, expr_list)
    }

    fn visit_expression(&mut self, expr: &Expression) -> (out: Result<(), GenError>) {
        LLVMGenerator::visit_expression(self, expr)
    }

    fn visit_atom(&mut self, atom: &Atom) -> (out: Result<(), GenError>) {
        LLVMGenerator::visit_atom(self, atom)
    }

    fn visit_binary_op(&mut self, binop: &BinaryOp) -> (out: Result<(), GenError>) {
        LLVMGenerator::visit_binary_op(self, binop)
    }

    fn visit_letin(&mut self, letin: &LetIn) -> (out: Result<(), GenError>) {
        LLVMGenerator::visit_letin(self, letin)
    }

    fn visit_assignment(&mut self, assign: &Assignment) -> (out: Result<(), GenError>) {
        Ok(())
    }

    fn visit_block(&mut self, block: &Block) -> (out: Result<(), GenError>) {
        LLVMGenerator::visit_block(self, block)
    }

    fn visit_literal(&mut self, literal: &Literal) -> (out: Result<(), GenError>) {
        LLVMGenerator::visit_literal(self, literal)
    }

    fn visit_identifier(&mut self, identifier: &Identifier) -> (out: Result<(), GenError>) {
        LLVMGenerator::visit_identifier(self, identifier)
    }

    fn visit_print(&mut self, expr: &Expression) -> (out: Result<(), GenError>) {
        LLVMGenerator::visit_print(self, expr)
    }

    fn visit_while(&mut self, whilee: &While) -> (out: Result<(), GenError>) {
        LLVMGenerator::visit_while(self, whilee)
    }

    fn visit_ifelse(&mut self, ifelse: &IfElse) -> (out: Result<(), GenError>) {
        LLVMGenerator::visit_ifelse(self, ifelse)
    }

    fn visit_group(&mut self, group: &Group) -> (out: Result<(), GenError>) {
        LLVMGenerator::visit_group(self, group)
    }

    fn visit_unary_op(&mut self, unary_op: &UnaryOp) -> (out: Result<(), GenError>) {
        LLVMGenerator::visit_unary_op(self, unary_op)
    }

    fn visit_for(&mut self, forr: &For) -> (out: Result<(), GenError>) {
        LLVMGenerator::visit_for(self, forr)
    }

    fn visit_function_call(&mut self, call: &FunctionCall) -> (out: Result<(), GenError>) {
        LLVMGenerator::visit_function_call(self, call)
    }

    fn visit_function_def(&mut self, def: &FunctionDef) -> (out: Result<(), GenError>) {
        LLVMGenerator::visit_function_def(self, def)
    }

    fn visit_type_declaration(&mut self, decl: &Declarationtypes) -> (out: Result<(), GenError>) {
        Ok(())
    }

    fn visit_instanting_types(&mut self, inst: &InstantingTypes) -> (out: Result<(), GenError>) {
        Ok(())
    }

    fn visit_access_type_prop(&mut self, access: &AccessTypeProp) -> (out: Result<(), GenError>) {
        Ok(())
    }

    fn visit_range(&mut self, start: &Expression, end: &Expression) -> (out: Result<(), GenError>) {
        LLVMGenerator::visit_range(self, start, end)
    }
}

/// Copies every line of `source` to the end of `buffer`.
fn copy_lines(buffer: &mut Vec<String>, source: &Vec<String>)
    ensures
        lines(final(buffer)@) == lines(old(buffer)@) + lines(source@),
{
    let mut i: usize = 0;
    assert(lines(buffer@) =~= lines(old(buffer)@) + lines(source@).take(0));
    while i < source.len()
        invariant
            i <= source.len(),
            lines(buffer@) == lines(old(buffer)@) + lines(source@).take(i as int),
        decreases source.len() - i,
    {
        push_line(buffer, source[i].clone());
        i += 1;
        assert(lines(buffer@) =~= lines(old(buffer)@) + lines(source@).take(i as int));
    }
    assert(lines(source@).take(source@.len() as int) =~= lines(source@));
}

/// Copies every line of `source` to the end of `buffer`, each behind two
/// spaces.
fn copy_indented(buffer: &mut Vec<String>, source: &Vec<String>)
    ensures
        lines(final(buffer)@) == lines(old(buffer)@) + indented(lines(source@)),
{
    let mut i: usize = 0;
    assert(lines(buffer@) =~= lines(old(buffer)@) + indented(lines(source@)).take(0));
    while i < source.len()
        invariant
            i <= source.len(),
            lines(buffer@) == lines(old(buffer)@) + indented(lines(source@)).take(i as int),
        decreases source.len() - i,
    {
        let mut line = "  ".to_owned();
        line.append(source[i].as_str());
        push_line(buffer, line);
        i += 1;
        assert(lines(buffer@) =~= lines(old(buffer)@) + indented(lines(source@)).take(i as int));
    }
    assert(indented(lines(source@)).take(source@.len() as int) =~= indented(lines(source@)));
}

impl LLVMGenerator {
    /// The module that the generator has built, line by line.
    pub fn module_lines(&self) -> (v: Vec<String>)
        ensures
            lines(v@) == module_text(self@),
    {
        let mut header = Self::llvm_header();
        let footer = Self::llvm_footer();
        let ghost full = header@;
        assert(full.len() == lines(full).len());
        let entry = header.pop().unwrap();
        assert(lines(header@) =~= header_lines().take(6));
        assert(entry@ == lines(full)[6]);
        let mut v: Vec<String> = Vec::new();
        assert(lines(v@) =~= Seq::<Seq<char>>::empty());
        copy_lines(&mut v, &header);
        copy_lines(&mut v, &self.string_globals);
        copy_lines(&mut v, &self.functions);
        push_line(&mut v, entry);
        assert(header_lines().skip(6) =~= seq![entry@]);
        copy_indented(&mut v, &self.code);
        copy_lines(&mut v, &footer);
        assert(lines(v@) =~= module_text(self@));
        v
    }
}

/// Lowers a whole program over the signatures in `table` and gives the
/// finished module, or the reason why lowering stopped.
pub fn generate(program: &Program, table: SymbolTable) -> (r: Result<Vec<String>, GenError>)
    ensures
        match r {
            Ok(v) => lower_sequence(
                program.expression_list.expressions@,
                0,
                initial_state(table@),
            ) matches Ok(st) && lines(v@) == module_text(st),
            Err(e) => lower_sequence(
                program.expression_list.expressions@,
                0,
                initial_state(table@),
            ) == Err::<GenState, GenError>(e),
        },
{
    let mut generator = LLVMGenerator::new(table);
    match generator.visit_program(program) {
        Ok(_) => Ok(generator.module_lines()),
        Err(e) => Err(e),
    }
}

/// The slot of `name` in the nearest enclosing storage scope of `st`.
pub open spec fn resolve_slot(st: GenState, name: Seq<char>) -> Option<Seq<char>> {
    crate::symbol_table::resolve(st.env, name)
}

} // verus!
