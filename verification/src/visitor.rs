//! The visitor protocol: every node offers one `accept`, which calls exactly
//! one callback of the pass it is given, handing the node over unchanged.
//! Any number of passes can then walk one tree without the nodes knowing
//! them.
use vstd::prelude::*;
use crate::ast::{
    AccessTypeProp, Assignment, Atom, BinaryOp, Block, Declarationtypes, Expression,
    ExpressionList, For, FunctionCall, FunctionDef, Group, IfElse, InstantingTypes, LetIn, Program,
    UnaryOp, While,
};
use crate::tokens::{Identifier, Literal};

verus! {

/// A node as a callback receives it: the kind of callback and what it is
/// given.
pub enum Node {
    Program(Program),
    ExpressionList(ExpressionList),
    Expression(Expression),
    Atom(Atom),
    BinaryOp(BinaryOp),
    LetIn(LetIn),
    Assignment(Assignment),
    Block(Block),
    Literal(Literal),
    Identifier(Identifier),
    Print(Expression),
    While(While),
    IfElse(IfElse),
    Group(Group),
    UnaryOp(UnaryOp),
    For(For),
    Range(Expression, Expression),
    FunctionCall(FunctionCall),
    FunctionDef(FunctionDef),
    TypeDeclaration(Declarationtypes),
    TypeInstantiation(InstantingTypes),
    TypeAccess(AccessTypeProp),
}

/// A pass over the tree: one callback for each kind of node. What a pass
/// does at a node is its own affair; it states it once, as a relation
/// between the pass before, the node, the pass after and what the callback
/// gives back, and every callback keeps to it.
pub trait Visitor: Sized {
    /// What a callback of this pass gives back.
    type Output;

    /// What this pass does at a node.
    spec fn visits(before: Self, node: Node, after: Self, out: Self::Output) -> bool;

    fn visit_program(&mut self, program: &Program) -> (out: Self::Output)
        ensures
            Self::visits(*old(self), Node::Program(*program), *final(self), out),
    ;

    fn visit_expression_list(&mut self, expr_list: &ExpressionList) -> (out: Self::Output)
        ensures
            Self::visits(*old(self), Node::ExpressionList(*expr_list), *final(self), out),
    ;

    fn visit_expression(&mut self, expr: &Expression) -> (out: Self::Output)
        ensures
            Self::visits(*old(self), Node::Expression(*expr), *final(self), out),
    ;

    fn visit_atom(&mut self, atom: &Atom) -> (out: Self::Output)
        ensures
            Self::visits(*old(self), Node::Atom(*atom), *final(self), out),
    ;

    fn visit_binary_op(&mut self, binop: &BinaryOp) -> (out: Self::Output)
        ensures
            Self::visits(*old(self), Node::BinaryOp(*binop), *final(self), out),
    ;

    fn visit_letin(&mut self, letin: &LetIn) -> (out: Self::Output)
        ensures
            Self::visits(*old(self), Node::LetIn(*letin), *final(self), out),
    ;

    fn visit_assignment(&mut self, assign: &Assignment) -> (out: Self::Output)
        ensures
            Self::visits(*old(self), Node::Assignment(*assign), *final(self), out),
    ;

    fn visit_block(&mut self, block: &Block) -> (out: Self::Output)
        ensures
            Self::visits(*old(self), Node::Block(*block), *final(self), out),
    ;

    fn visit_literal(&mut self, literal: &Literal) -> (out: Self::Output)
        ensures
            Self::visits(*old(self), Node::Literal(*literal), *final(self), out),
    ;

    fn visit_identifier(&mut self, identifier: &Identifier) -> (out: Self::Output)
        ensures
            Self::visits(*old(self), Node::Identifier(*identifier), *final(self), out),
    ;

    fn visit_print(&mut self, expr: &Expression) -> (out: Self::Output)
        ensures
            Self::visits(*old(self), Node::Print(*expr), *final(self), out),
    ;

    fn visit_while(&mut self, whilee: &While) -> (out: Self::Output)
        ensures
            Self::visits(*old(self), Node::While(*whilee), *final(self), out),
    ;

    fn visit_ifelse(&mut self, ifelse: &IfElse) -> (out: Self::Output)
        ensures
            Self::visits(*old(self), Node::IfElse(*ifelse), *final(self), out),
    ;

    fn visit_group(&mut self, group: &Group) -> (out: Self::Output)
        ensures
            Self::visits(*old(self), Node::Group(*group), *final(self), out),
    ;

    fn visit_unary_op(&mut self, unary_op: &UnaryOp) -> (out: Self::Output)
        ensures
            Self::visits(*old(self), Node::UnaryOp(*unary_op), *final(self), out),
    ;

    fn visit_for(&mut self, forr: &For) -> (out: Self::Output)
        ensures
            Self::visits(*old(self), Node::For(*forr), *final(self), out),
    ;

    fn visit_range(&mut self, start: &Expression, end: &Expression) -> (out: Self::Output)
        ensures
            Self::visits(*old(self), Node::Range(*start, *end), *final(self), out),
    ;

    fn visit_function_call(&mut self, call: &FunctionCall) -> (out: Self::Output)
        ensures
            Self::visits(*old(self), Node::FunctionCall(*call), *final(self), out),
    ;

    fn visit_function_def(&mut self, def: &FunctionDef) -> (out: Self::Output)
        ensures
            Self::visits(*old(self), Node::FunctionDef(*def), *final(self), out),
    ;

    fn visit_type_declaration(&mut self, decl: &Declarationtypes) -> (out: Self::Output)
        ensures
            Self::visits(*old(self), Node::TypeDeclaration(*decl), *final(self), out),
    ;

    fn visit_instanting_types(&mut self, inst: &InstantingTypes) -> (out: Self::Output)
        ensures
            Self::visits(*old(self), Node::TypeInstantiation(*inst), *final(self), out),
    ;

    fn visit_access_type_prop(&mut self, access: &AccessTypeProp) -> (out: Self::Output)
        ensures
            Self::visits(*old(self), Node::TypeAccess(*access), *final(self), out),
    ;
}

/// What can be visited. `accept` calls the one callback that `dispatched`
/// names and does nothing else, so a pass sees the node exactly as if its
/// callback had been called directly.
pub trait Visitable {
    /// The callback that `accept` calls, with what it hands over.
    spec fn dispatched(&self) -> Node;

    fn accept<V: Visitor>(&self, visitor: &mut V) -> (out: V::Output)
        ensures
            V::visits(*old(visitor), self.dispatched(), *final(visitor), out),
    ;
}

impl Visitable for Program {
    open spec fn dispatched(&self) -> Node {
        Node::Program(*self)
    }

    fn accept<V: Visitor>(&self, visitor: &mut V) -> (out: V::Output) {
        visitor.visit_program(self)
    }
}

impl Visitable for ExpressionList {
    open spec fn dispatched(&self) -> Node {
        Node::ExpressionList(*self)
    }

    fn accept<V: Visitor>(&self, visitor: &mut V) -> (out: V::Output) {
        visitor.visit_expression_list(self)
    }
}

impl Visitable for Atom {
    open spec fn dispatched(&self) -> Node {
        match self {
            Atom::NumberLiteral(lit) => Node::Literal(*lit),
            Atom::BooleanLiteral(lit) => Node::Literal(*lit),
            Atom::StringLiteral(lit) => Node::Literal(*lit),
            Atom::Variable(id) => Node::Identifier(*id),
            Atom::Group(group) => Node::Group(*group),
        }
    }

    fn accept<V: Visitor>(&self, visitor: &mut V) -> (out: V::Output) {
        match self {
            Atom::NumberLiteral(lit) => visitor.visit_literal(lit),
            Atom::BooleanLiteral(lit) => visitor.visit_literal(lit),
            Atom::StringLiteral(lit) => visitor.visit_literal(lit),
            Atom::Variable(id) => visitor.visit_identifier(id),
            Atom::Group(group) => visitor.visit_group(group),
        }
    }
}

impl Visitable for Expression {
    open spec fn dispatched(&self) -> Node {
        match self {
            Expression::BinaryOp(b) => Node::BinaryOp(*b),
            Expression::Atom(atom) => atom.dispatched(),
            Expression::IfElse(i) => Node::IfElse(**i),
            Expression::Print(inner, _) => Node::Print(**inner),
            Expression::While(w) => Node::While(**w),
            Expression::LetIn(l) => Node::LetIn(**l),
            Expression::Block(b) => Node::Block(**b),
            Expression::UnaryOp(u) => Node::UnaryOp(*u),
            Expression::For(f) => Node::For(**f),
            Expression::Range(start, end) => Node::Range(**start, **end),
            Expression::FunctionCall(c) => Node::FunctionCall(*c),
            Expression::FunctionDef(d) => Node::FunctionDef(*d),
            Expression::TypeDeclaration(d) => Node::TypeDeclaration(**d),
            Expression::TypeInstantiation(i) => Node::TypeInstantiation(**i),
            Expression::TypeMethodAccess(a) => Node::TypeAccess(**a),
            Expression::TypePropertyAccess(a) => Node::TypeAccess(**a),
        }
    }

    fn accept<V: Visitor>(&self, visitor: &mut V) -> (out: V::Output) {
        match self {
            Expression::BinaryOp(b) => visitor.visit_binary_op(b),
            Expression::Atom(atom) => atom.accept(visitor),
            Expression::IfElse(i) => visitor.visit_ifelse(&**i),
            Expression::Print(inner, _) => visitor.visit_print(&**inner),
            Expression::While(w) => visitor.visit_while(&**w),
            Expression::LetIn(l) => visitor.visit_letin(&**l),
            Expression::Block(b) => visitor.visit_block(&**b),
            Expression::UnaryOp(u) => visitor.visit_unary_op(u),
            Expression::For(f) => visitor.visit_for(&**f),
            Expression::Range(start, end) => visitor.visit_range(&**start, &**end),
            Expression::FunctionCall(c) => visitor.visit_function_call(c),
            Expression::FunctionDef(d) => visitor.visit_function_def(d),
            Expression::TypeDeclaration(d) => visitor.visit_type_declaration(&**d),
            Expression::TypeInstantiation(i) => visitor.visit_instanting_types(&**i),
            Expression::TypeMethodAccess(a) => visitor.visit_access_type_prop(&**a),
            Expression::TypePropertyAccess(a) => visitor.visit_access_type_prop(&**a),
        }
    }
}

impl Visitable for Identifier {
    open spec fn dispatched(&self) -> Node {
        Node::Identifier(*self)
    }

    fn accept<V: Visitor>(&self, visitor: &mut V) -> (out: V::Output) {
        visitor.visit_identifier(self)
    }
}

impl Visitable for Group {
    open spec fn dispatched(&self) -> Node {
        Node::Group(*self)
    }

    fn accept<V: Visitor>(&self, visitor: &mut V) -> (out: V::Output) {
        visitor.visit_group(self)
    }
}

impl Visitable for IfElse {
    open spec fn dispatched(&self) -> Node {
        Node::IfElse(*self)
    }

    fn accept<V: Visitor>(&self, visitor: &mut V) -> (out: V::Output) {
        visitor.visit_ifelse(self)
    }
}

impl Visitable for Assignment {
    open spec fn dispatched(&self) -> Node {
        Node::Assignment(*self)
    }

    fn accept<V: Visitor>(&self, visitor: &mut V) -> (out: V::Output) {
        visitor.visit_assignment(self)
    }
}

impl Visitable for LetIn {
    open spec fn dispatched(&self) -> Node {
        Node::LetIn(*self)
    }

    fn accept<V: Visitor>(&self, visitor: &mut V) -> (out: V::Output) {
        visitor.visit_letin(self)
    }
}

impl Visitable for Block {
    open spec fn dispatched(&self) -> Node {
        Node::Block(*self)
    }

    fn accept<V: Visitor>(&self, visitor: &mut V) -> (out: V::Output) {
        visitor.visit_block(self)
    }
}

impl Visitable for UnaryOp {
    open spec fn dispatched(&self) -> Node {
        Node::UnaryOp(*self)
    }

    fn accept<V: Visitor>(&self, visitor: &mut V) -> (out: V::Output) {
        visitor.visit_unary_op(self)
    }
}

impl Visitable for BinaryOp {
    open spec fn dispatched(&self) -> Node {
        Node::BinaryOp(*self)
    }

    fn accept<V: Visitor>(&self, visitor: &mut V) -> (out: V::Output) {
        visitor.visit_binary_op(self)
    }
}

impl Visitable for While {
    open spec fn dispatched(&self) -> Node {
        Node::While(*self)
    }

    fn accept<V: Visitor>(&self, visitor: &mut V) -> (out: V::Output) {
        visitor.visit_while(self)
    }
}

impl Visitable for For {
    open spec fn dispatched(&self) -> Node {
        Node::For(*self)
    }

    fn accept<V: Visitor>(&self, visitor: &mut V) -> (out: V::Output) {
        visitor.visit_for(self)
    }
}

impl Visitable for FunctionCall {
    open spec fn dispatched(&self) -> Node {
        Node::FunctionCall(*self)
    }

    fn accept<V: Visitor>(&self, visitor: &mut V) -> (out: V::Output) {
        visitor.visit_function_call(self)
    }
}

impl Visitable for FunctionDef {
    open spec fn dispatched(&self) -> Node {
        Node::FunctionDef(*self)
    }

    fn accept<V: Visitor>(&self, visitor: &mut V) -> (out: V::Output) {
        visitor.visit_function_def(self)
    }
}

impl Visitable for Declarationtypes {
    open spec fn dispatched(&self) -> Node {
        Node::TypeDeclaration(*self)
    }

    fn accept<V: Visitor>(&self, visitor: &mut V) -> (out: V::Output) {
        visitor.visit_type_declaration(self)
    }
}

impl Visitable for InstantingTypes {
    open spec fn dispatched(&self) -> Node {
        Node::TypeInstantiation(*self)
    }

    fn accept<V: Visitor>(&self, visitor: &mut V) -> (out: V::Output) {
        visitor.visit_instanting_types(self)
    }
}

impl Visitable for AccessTypeProp {
    open spec fn dispatched(&self) -> Node {
        Node::TypeAccess(*self)
    }

    fn accept<V: Visitor>(&self, visitor: &mut V) -> (out: V::Output) {
        visitor.visit_access_type_prop(self)
    }
}

} // verus!
