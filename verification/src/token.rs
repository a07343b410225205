//! Tokens as the scanner hands them to the parser.

use crate::token_type::TokenType;
use crate::value::{clone_value, Value};
use vstd::prelude::*;

verus! {

/// A scanned token: its kind, its source text, an optional literal value,
/// and the source line it came from. Tokens are retained inside syntax-tree
/// nodes purely for diagnostics.
pub struct Token {
    pub token_type: TokenType,
    pub lexeme: String,
    pub literal: Option<Value>,
    pub line: usize,
}

impl Token {
    /// A token with the given parts.
    pub fn new(token_type: TokenType, lexeme: String, literal: Option<Value>, line: usize) -> (t:
        Token)
        ensures
            t.token_type == token_type,
            t.lexeme == lexeme,
            t.literal == literal,
            t.line == line,
    {
        Token { token_type, lexeme, literal, line }
    }

    /// An identifier token carrying a literal value.
    pub fn from_value(name: &str, literal: Value, line: usize) -> (t: Token)
        ensures
            t.token_type == TokenType::Identifier,
            t.lexeme@ == name@,
            t.literal == Some(literal),
            t.line == line,
    {
        Token {
            token_type: TokenType::Identifier,
            lexeme: String::from_str(name),
            literal: Some(literal),
            line,
        }
    }
}

/// An equal copy of a token.
pub fn clone_token(t: &Token) -> (r: Token)
    ensures
        r == *t,
{
    let literal = match &t.literal {
        Some(v) => Some(clone_value(v)),
        None => None,
    };
    Token { token_type: t.token_type, lexeme: t.lexeme.clone(), literal, line: t.line }
}

} // verus!
