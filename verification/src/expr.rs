//! Expression nodes of the syntax tree, immutable once built.

use crate::token::Token;
use crate::value::Value;
use vstd::prelude::*;

verus! {

/// An expression.
pub enum Expr {
    /// A literal value, e.g. `5` or `"text"`.
    Literal(Value),
    /// A prefix operator applied once, e.g. `-n` or `!flag`.
    Unary(Token, Box<Expr>),
    /// A binary operator, e.g. `5 + 2`.
    Binary(Box<Expr>, Token, Box<Expr>),
    /// A parenthesised expression, e.g. `(8 * 5 - 1)`.
    Grouping(Box<Expr>),
    /// A logical connective, e.g. `a and b`.
    Logical(Box<Expr>, Token, Box<Expr>),
    /// A call, e.g. `f(x, y)`.
    Call(Box<Expr>, Box<Vec<Expr>>),
    /// A variable reference, e.g. `a`.
    Variable(Token),
    /// An assignment, e.g. `a = 5`.
    Assign(Token, Box<Expr>),
    /// A property read, e.g. `point.x`.
    Get(Box<Expr>, Token),
    /// A property write, e.g. `point.x = 1`.
    SetProperty(Box<Expr>, Token, Box<Expr>),
}

/// The name of an expression's form, used in diagnostics.
pub open spec fn spec_expr_kind_name(e: &Expr) -> &'static str {
    match e {
        Expr::Literal(_) => "Literal",
        Expr::Unary(_, _) => "Unary",
        Expr::Binary(_, _, _) => "Binary",
        Expr::Grouping(_) => "Grouping",
        Expr::Logical(_, _, _) => "Logical",
        Expr::Call(_, _) => "Call",
        Expr::Variable(_) => "Variable",
        Expr::Assign(_, _) => "Assign",
        Expr::Get(_, _) => "Get",
        Expr::SetProperty(_, _, _) => "SetProperty",
    }
}

/// The name of an expression's form, used in diagnostics.
#[verifier::when_used_as_spec(spec_expr_kind_name)]
pub fn expr_kind_name(e: &Expr) -> (name: &'static str)
    ensures
        name == spec_expr_kind_name(e),
{
    match e {
        Expr::Literal(_) => "Literal",
        Expr::Unary(_, _) => "Unary",
        Expr::Binary(_, _, _) => "Binary",
        Expr::Grouping(_) => "Grouping",
        Expr::Logical(_, _, _) => "Logical",
        Expr::Call(_, _) => "Call",
        Expr::Variable(_) => "Variable",
        Expr::Assign(_, _) => "Assign",
        Expr::Get(_, _) => "Get",
        Expr::SetProperty(_, _, _) => "SetProperty",
    }
}

} // verus!
