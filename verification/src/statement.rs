//! Statement nodes of the syntax tree, immutable once built.

use crate::expr::Expr;
use crate::token::Token;
use std::rc::Rc;
use vstd::prelude::*;

verus! {

/// A statement.
///
/// The parameter list and body of a function declaration are shared, because
/// a closure value captures them when the declaration is executed; the same
/// holds of the method list of a class declaration through its methods.
pub enum Statement {
    /// A braced block of statements.
    Block(Box<Vec<Statement>>),
    /// A class declaration: name and method declarations.
    Class(Token, Box<Vec<Statement>>),
    /// A function declaration: name, parameters, body.
    FunDeclaration(Token, Rc<Vec<Token>>, Rc<Vec<Statement>>),
    /// An expression evaluated for its effects.
    Expression(Expr),
    /// A conditional with an optional else branch.
    If(Expr, Box<Statement>, Box<Option<Statement>>),
    /// Evaluates an expression and prints it.
    Print(Expr),
    /// Returns a value from the enclosing call.
    Return(Expr),
    /// A variable declaration with an optional initializer.
    Var(Token, Option<Expr>),
    /// A loop.
    While(Expr, Box<Statement>),
}

/// The name of a statement's form, used in diagnostics.
pub open spec fn spec_statement_kind_name(s: &Statement) -> &'static str {
    match s {
        Statement::Block(_) => "Block",
        Statement::Class(_, _) => "Class",
        Statement::FunDeclaration(_, _, _) => "FunDeclaration",
        Statement::Expression(_) => "Expression",
        Statement::If(_, _, _) => "If",
        Statement::Print(_) => "Print",
        Statement::Return(_) => "Return",
        Statement::Var(_, _) => "Var",
        Statement::While(_, _) => "While",
    }
}

/// The name of a statement's form, used in diagnostics.
#[verifier::when_used_as_spec(spec_statement_kind_name)]
pub fn statement_kind_name(s: &Statement) -> (name: &'static str)
    ensures
        name == spec_statement_kind_name(s),
{
    match s {
        Statement::Block(_) => "Block",
        Statement::Class(_, _) => "Class",
        Statement::FunDeclaration(_, _, _) => "FunDeclaration",
        Statement::Expression(_) => "Expression",
        Statement::If(_, _, _) => "If",
        Statement::Print(_) => "Print",
        Statement::Return(_) => "Return",
        Statement::Var(_, _) => "Var",
        Statement::While(_, _) => "While",
    }
}

} // verus!
