//! The optimizer, which rewrites nothing yet, and the textual pass that
//! marks calls of declared functions before the source is parsed.
use vstd::prelude::*;
use crate::ast::{
    AccessTypeProp, Assignment, Atom, BinaryOp, Block, Declarationtypes, Expression,
    ExpressionList, For, FunctionCall, FunctionDef, Group, IfElse, InstantingTypes, LetIn, Program,
    UnaryOp, While,
};
use crate::text::{
    alphabetic, alphanumeric, chars_of, is_alphabetic, is_alphanumeric, is_whitespace, text_of,
    whitespace,
};
use crate::tokens::{Identifier, Literal};
use crate::visitor::{Node, Visitor};

verus! {

/// A pass that walks nothing and changes nothing: the tree is read-only, so
/// an optimization would have to build a new tree, and none does yet.
pub struct AstOptimizer;

impl AstOptimizer {
    pub fn new() -> (o: Self)
        ensures
            o == AstOptimizer,
    {
        AstOptimizer
    }
}

impl Visitor for AstOptimizer {
    type Output = ();

    /// At every node the optimizer stays as it is.
    open spec fn visits(before: Self, node: Node, after: Self, out: ()) -> bool {
        after == before
    }

    fn visit_program(&mut self, program: &Program) -> (out: ()) {
    }

    fn visit_expression_list(&mut self, expr_list: &ExpressionList) -> (out: ()) {
    }

    fn visit_expression(&mut self, expr: &Expression) -> (out: ()) {
    }

    fn visit_atom(&mut self, atom: &Atom) -> (out: ()) {
    }

    fn visit_binary_op(&mut self, binop: &BinaryOp) -> (out: ()) {
    }

    fn visit_letin(&mut self, letin: &LetIn) -> (out: ()) {
    }

    fn visit_assignment(&mut self, assign: &Assignment) -> (out: ()) {
    }

    fn visit_block(&mut self, block: &Block) -> (out: ()) {
    }

    fn visit_literal(&mut self, literal: &Literal) -> (out: ()) {
    }

    fn visit_identifier(&mut self, identifier: &Identifier) -> (out: ()) {
    }

    fn visit_print(&mut self, expr: &Expression) -> (out: ()) {
    }

    fn visit_while(&mut self, whilee: &While) -> (out: ()) {
    }

    fn visit_ifelse(&mut self, ifelse: &IfElse) -> (out: ()) {
    }

    fn visit_group(&mut self, group: &Group) -> (out: ()) {
    }

    fn visit_unary_op(&mut self, unary_op: &UnaryOp) -> (out: ()) {
    }

    fn visit_for(&mut self, forr: &For) -> (out: ()) {
    }

    fn visit_range(&mut self, start: &Expression, end: &Expression) -> (out: ()) {
    }

    fn visit_function_call(&mut self, call: &FunctionCall) -> (out: ()) {
    }

    fn visit_function_def(&mut self, def: &FunctionDef) -> (out: ()) {
    }

    fn visit_type_declaration(&mut self, decl: &Declarationtypes) -> (out: ()) {
    }

    fn visit_instanting_types(&mut self, inst: &InstantingTypes) -> (out: ()) {
    }

    fn visit_access_type_prop(&mut self, access: &AccessTypeProp) -> (out: ()) {
    }
}

/// Whether a name can start with `c`.
pub open spec fn name_start(c: char) -> bool {
    alphabetic(c) || c == '_'
}

/// Whether a name can go on with `c`.
pub open spec fn name_part(c: char) -> bool {
    alphanumeric(c) || c == '_'
}

/// The first position from `from` on, before `to`, that holds no white
/// space; `to` when there is none.
pub open spec fn space_end(s: Seq<char>, from: int, to: int) -> int
    decreases to - from,
{
    if from >= to || !whitespace(s[from]) {
        from
    } else {
        space_end(s, from + 1, to)
    }
}

/// The first position from `from` on, before `to`, that cannot go on a
/// name; `to` when there is none.
pub open spec fn name_end(s: Seq<char>, from: int, to: int) -> int
    decreases to - from,
{
    if from >= to || !name_part(s[from]) {
        from
    } else {
        name_end(s, from + 1, to)
    }
}

/// The first position from `from` on, before `to`, that holds `stop`; `to`
/// when there is none.
pub open spec fn position_of(s: Seq<char>, stop: char, from: int, to: int) -> int
    decreases to - from,
{
    if from >= to || s[from] == stop {
        from
    } else {
        position_of(s, stop, from + 1, to)
    }
}

/// The end of `s[from..to]` once the white space at its end is left off.
pub open spec fn trimmed_end(s: Seq<char>, from: int, to: int) -> int
    decreases to - from,
{
    if to <= from || !whitespace(s[to - 1]) {
        to
    } else {
        trimmed_end(s, from, to - 1)
    }
}

/// Whether `s` holds `word` at position `at`, all of it before `to`.
pub open spec fn holds_at(s: Seq<char>, at: int, to: int, word: Seq<char>) -> bool {
    at + word.len() <= to && s.subrange(at, at + word.len()) == word
}

/// The word that opens a declaration, with the space that follows it.
pub open spec fn declaring_word() -> Seq<char> {
    "function "@
}

/// Where the name lies that the line `s[from..to]` declares: the line, less
/// the white space before it, opens with `function `, and the name is what
/// follows up to the first parenthesis, less the white space around it.
pub open spec fn declared_span(s: Seq<char>, from: int, to: int) -> Option<(int, int)> {
    let word = space_end(s, from, to);
    if holds_at(s, word, to, declaring_word()) {
        let rest = word + declaring_word().len();
        let paren = position_of(s, '(', rest, to);
        let first = space_end(s, rest, paren);
        let last = trimmed_end(s, first, paren);
        if first < last {
            Some((first, last))
        } else {
            None
        }
    } else {
        None
    }
}

/// The names that the lines from position `from` on declare, in order. A
/// line ends at a line feed or at the end of the text.
pub open spec fn declared_from(s: Seq<char>, from: int) -> Seq<Seq<char>>
    decreases s.len() - from,
{
    if from >= s.len() || from < 0 {
        Seq::empty()
    } else {
        let end = position_of(s, '\n', from, s.len() as int);
        let rest = if from <= end < s.len() {
            declared_from(s, end + 1)
        } else {
            Seq::empty()
        };
        match declared_span(s, from, end) {
            Some((first, last)) => seq![s.subrange(first, last)] + rest,
            None => rest,
        }
    }
}

/// Whether what has been written ends, white space aside, with the word
/// `function`: the name that comes next is then being declared, not called.
pub open spec fn after_declaring_word(out: Seq<char>) -> bool {
    let end = trimmed_end(out, 0, out.len() as int);
    end >= "function"@.len() && out.subrange(end - "function"@.len(), end) == "function"@
}

/// The text from position `from` on, rewritten after `out`. A name that is
/// followed, white space aside, by a parenthesis, that is one of `names` and
/// that does not follow the word `function` gets an `@` before it. All else
/// is copied as it stands.
pub open spec fn marked_from(s: Seq<char>, names: Seq<Seq<char>>, from: int, out: Seq<char>) -> Seq<
    char,
>
    decreases s.len() - from,
{
    if from >= s.len() || from < 0 {
        out
    } else if name_start(s[from]) {
        let end = name_end(s, from + 1, s.len() as int);
        let next = space_end(s, end, s.len() as int);
        let call = next < s.len() && s[next] == '(' && names.contains(s.subrange(from, end));
        let marked = if call && !after_declaring_word(out) {
            out.push('@')
        } else {
            out
        };
        if from < next <= s.len() {
            marked_from(s, names, next, marked + s.subrange(from, next))
        } else {
            marked + s.subrange(from, next)
        }
    } else {
        marked_from(s, names, from + 1, out.push(s[from]))
    }
}

/// The source with every call of a function that it declares marked.
pub open spec fn preprocessed(source: Seq<char>) -> Seq<char> {
    marked_from(source, declared_from(source, 0), 0, Seq::empty())
}

fn skip_space(chars: &Vec<char>, from: usize, to: usize) -> (r: usize)
    requires
        from <= to <= chars.len(),
    ensures
        from <= r <= to,
        r == space_end(chars@, from as int, to as int),
{
    let mut i = from;
    while i < to
        invariant
            from <= i <= to <= chars.len(),
            space_end(chars@, i as int, to as int) == space_end(chars@, from as int, to as int),
        decreases to - i,
    {
        if !is_whitespace(chars[i]) {
            return i;
        }
        i += 1;
    }
    i
}

fn skip_name(chars: &Vec<char>, from: usize, to: usize) -> (r: usize)
    requires
        from <= to <= chars.len(),
    ensures
        from <= r <= to,
        r == name_end(chars@, from as int, to as int),
{
    let mut i = from;
    while i < to
        invariant
            from <= i <= to <= chars.len(),
            name_end(chars@, i as int, to as int) == name_end(chars@, from as int, to as int),
        decreases to - i,
    {
        if !(is_alphanumeric(chars[i]) || chars[i] == '_') {
            return i;
        }
        i += 1;
    }
    i
}

fn find(chars: &Vec<char>, stop: char, from: usize, to: usize) -> (r: usize)
    requires
        from <= to <= chars.len(),
    ensures
        from <= r <= to,
        r == position_of(chars@, stop, from as int, to as int),
{
    let mut i = from;
    while i < to
        invariant
            from <= i <= to <= chars.len(),
            position_of(chars@, stop, i as int, to as int) == position_of(
                chars@,
                stop,
                from as int,
                to as int,
            ),
        decreases to - i,
    {
        if chars[i] == stop {
            return i;
        }
        i += 1;
    }
    i
}

fn trim_back(chars: &Vec<char>, from: usize, to: usize) -> (r: usize)
    requires
        from <= to <= chars.len(),
    ensures
        from <= r <= to,
        r == trimmed_end(chars@, from as int, to as int),
{
    let mut i = to;
    while i > from
        invariant
            from <= i <= to <= chars.len(),
            trimmed_end(chars@, from as int, i as int) == trimmed_end(
                chars@,
                from as int,
                to as int,
            ),
        decreases i - from,
    {
        if !is_whitespace(chars[i - 1]) {
            return i;
        }
        i -= 1;
    }
    i
}

fn has_word_at(chars: &Vec<char>, at: usize, to: usize, word: &Vec<char>) -> (b: bool)
    requires
        at <= to <= chars.len(),
    ensures
        b == holds_at(chars@, at as int, to as int, word@),
{
    if word.len() > to - at {
        return false;
    }
    let mut i: usize = 0;
    while i < word.len()
        invariant
            i <= word.len(),
            at + word.len() <= to <= chars.len(),
            forall|k: int| 0 <= k < i ==> chars@[at + k] == word@[k],
        decreases word.len() - i,
    {
        if chars[at + i] != word[i] {
            assert(chars@.subrange(at as int, at + word.len())[i as int] != word@[i as int]);
            return false;
        }
        i += 1;
    }
    assert(chars@.subrange(at as int, at + word.len()) =~= word@);
    true
}

fn same_span(chars: &Vec<char>, from: usize, to: usize, word: &Vec<char>) -> (b: bool)
    requires
        from <= to <= chars.len(),
    ensures
        b == (chars@.subrange(from as int, to as int) == word@),
{
    if word.len() != to - from {
        return false;
    }
    has_word_at(chars, from, to, word)
}

fn copy_span(chars: &Vec<char>, from: usize, to: usize) -> (r: Vec<char>)
    requires
        from <= to <= chars.len(),
    ensures
        r@ == chars@.subrange(from as int, to as int),
{
    let mut r: Vec<char> = Vec::new();
    let mut i = from;
    while i < to
        invariant
            from <= i <= to <= chars.len(),
            r@ == chars@.subrange(from as int, i as int),
        decreases to - i,
    {
        r.push(chars[i]);
        i += 1;
        assert(r@ =~= chars@.subrange(from as int, i as int));
    }
    r
}

/// The names of a list, as text.
pub open spec fn name_views(names: Seq<Vec<char>>) -> Seq<Seq<char>> {
    Seq::new(names.len(), |i: int| names[i]@)
}

fn declared_names(chars: &Vec<char>) -> (names: Vec<Vec<char>>)
    ensures
        name_views(names@) == declared_from(chars@, 0),
{
    let word = chars_of("function ");
    let mut names: Vec<Vec<char>> = Vec::new();
    let mut from: usize = 0;
    assert(name_views(names@) =~= Seq::<Seq<char>>::empty());
    while from < chars.len()
        invariant
            word@ == declaring_word(),
            name_views(names@) + declared_from(chars@, from as int) == declared_from(chars@, 0),
        decreases chars.len() - from,
    {
        let end = find(chars, '\n', from, chars.len());
        let ghost before = name_views(names@);
        let start = skip_space(chars, from, end);
        if has_word_at(chars, start, end, &word) {
            let rest = start + word.len();
            let paren = find(chars, '(', rest, end);
            let first = skip_space(chars, rest, paren);
            let last = trim_back(chars, first, paren);
            if first < last {
                names.push(copy_span(chars, first, last));
                assert(name_views(names@) =~= before + seq![
                    chars@.subrange(first as int, last as int),
                ]);
            }
        }
        assert(name_views(names@) + declared_from(chars@, end + 1) =~= before + declared_from(
            chars@,
            from as int,
        ));
        if end == chars.len() {
            assert(declared_from(chars@, end + 1) =~= Seq::<Seq<char>>::empty());
            assert(name_views(names@) + declared_from(chars@, end + 1) =~= name_views(names@));
            return names;
        }
        from = end + 1;
    }
    assert(name_views(names@) + declared_from(chars@, from as int) =~= name_views(names@));
    names
}

fn is_declared(names: &Vec<Vec<char>>, chars: &Vec<char>, from: usize, to: usize) -> (b: bool)
    requires
        from <= to <= chars.len(),
    ensures
        b == name_views(names@).contains(chars@.subrange(from as int, to as int)),
{
    let mut i: usize = 0;
    while i < names.len()
        invariant
            i <= names.len(),
            from <= to <= chars.len(),
            forall|k: int|
                0 <= k < i ==> name_views(names@)[k] != chars@.subrange(from as int, to as int),
        decreases names.len() - i,
    {
        if same_span(chars, from, to, &names[i]) {
            assert(name_views(names@)[i as int] == chars@.subrange(from as int, to as int));
            return true;
        }
        i += 1;
    }
    false
}

fn follows_declaring_word(out: &Vec<char>) -> (b: bool)
    ensures
        b == after_declaring_word(out@),
{
    let word = chars_of("function");
    let end = trim_back(out, 0, out.len());
    if end < word.len() {
        return false;
    }
    same_span(out, end - word.len(), end, &word)
}

fn append_span(out: &mut Vec<char>, chars: &Vec<char>, from: usize, to: usize)
    requires
        from <= to <= chars.len(),
    ensures
        final(out)@ == old(out)@ + chars@.subrange(from as int, to as int),
{
    let mut i = from;
    assert(out@ =~= old(out)@ + chars@.subrange(from as int, i as int));
    while i < to
        invariant
            from <= i <= to <= chars.len(),
            out@ == old(out)@ + chars@.subrange(from as int, i as int),
        decreases to - i,
    {
        out.push(chars[i]);
        i += 1;
        assert(out@ =~= old(out)@ + chars@.subrange(from as int, i as int));
    }
}

/// Marks every call of a function that the source declares with an `@`
/// before the name, and leaves the rest of the source as it is.
pub fn preprocess_functions(source: &str) -> (output: String)
    ensures
        output@ == preprocessed(source@),
{
    let chars = chars_of(source);
    let names = declared_names(&chars);
    let mut out: Vec<char> = Vec::new();
    let mut i: usize = 0;
    while i < chars.len()
        invariant
            i <= chars.len(),
            chars@ == source@,
            name_views(names@) == declared_from(source@, 0),
            marked_from(chars@, name_views(names@), i as int, out@) == preprocessed(source@),
        decreases chars.len() - i,
    {
        if is_alphabetic(chars[i]) || chars[i] == '_' {
            let end = skip_name(&chars, i + 1, chars.len());
            let next = skip_space(&chars, end, chars.len());
            let call = next < chars.len() && chars[next] == '(' && is_declared(
                &names,
                &chars,
                i,
                end,
            );
            if call && !follows_declaring_word(&out) {
                out.push('@');
            }
            append_span(&mut out, &chars, i, next);
            i = next;
        } else {
            out.push(chars[i]);
            i += 1;
        }
    }
    text_of(&out)
}

} // verus!
