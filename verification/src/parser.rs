//! The recursive-descent parser: tokens to syntax trees, with a
//! precedence ladder and panic-mode error recovery.
//!
//! Each binary level loops over zero or more same-level operators, so
//! those operators associate to the left; unary operators and assignment
//! recurse once, so they associate to the right. After a syntax error the
//! parser discards tokens until just past a `;` or just before a
//! statement-starting keyword, bounding cascade errors, and goes on, so
//! one pass surfaces every independent syntax problem.
//!
//! The grammar functions take a recursion budget, spent one unit per
//! nested grammar rule; a caller hands them an inexhaustible budget, so
//! the corresponding error is out of reach for any input that fits in
//! memory.

use crate::expr::Expr;
use crate::statement::Statement;
use crate::token::{clone_token, Token};
use crate::token_type::TokenType;
use crate::value::Value;
use crate::LoxError;
use std::rc::Rc;
use vstd::prelude::*;

verus! {

/// The parser: the token stream and a cursor into it.
pub struct Parser {
    tokens: Vec<Token>,
    current: usize,
}

/// Whether a token kind carries a scanned literal value.
pub open spec fn is_literal_kind(t: TokenType) -> bool {
    t == TokenType::Int || t == TokenType::Float || t == TokenType::Str
}

/// Whether a token kind cannot extend an expression at any precedence
/// level: it is no operator, no call opener and no property access, so an
/// expression ends just before it.
pub open spec fn inert_kind(t: TokenType) -> bool {
    !(t == TokenType::LeftParen || t == TokenType::Dot || t == TokenType::Slash
        || t == TokenType::Asterisk || t == TokenType::Mod || t == TokenType::Minus
        || t == TokenType::Plus || t == TokenType::Greater || t == TokenType::GreaterEqual
        || t == TokenType::Less || t == TokenType::LessEqual || t == TokenType::NotEqual
        || t == TokenType::EqualEqual || t == TokenType::And || t == TokenType::Or || t
        == TokenType::Equal)
}

/// The literal value a token carries.
pub open spec fn token_literal(t: Token) -> Value {
    match t.literal {
        Some(v) => v,
        None => Value::Nil,
    }
}

/// Whether `r` is the missing-semicolon error anchored at `at`.
pub open spec fn is_missing_semicolon_error(r: Result<Statement, LoxError>, at: Token) -> bool {
    r matches Err(LoxError::ParseError(t, m)) && t == at && m@ == "Expect ';' after value."@
}

impl Parser {
    /// The parser is between tokens of a stream that ends with the end
    /// marker.
    pub closed spec fn wf(&self) -> bool {
        &&& self.tokens@.len() >= 1
        &&& self.tokens@.last().token_type == TokenType::End
        &&& self.current < self.tokens@.len()
    }

    /// How many tokens remain unconsumed.
    pub closed spec fn remaining(&self) -> int {
        self.tokens@.len() - self.current
    }

    /// How many tokens the stream holds.
    pub closed spec fn token_count(&self) -> int {
        self.tokens@.len() as int
    }

    /// The token at position `i`.
    pub closed spec fn token_at(&self, i: int) -> Token {
        self.tokens@[i]
    }

    /// The cursor's position.
    pub closed spec fn cursor(&self) -> int {
        self.current as int
    }

    /// The cursor stands at a literal token that the following token
    /// cannot extend, so the longest expression from here is that one
    /// literal.
    pub open spec fn at_inert_literal(&self) -> bool {
        &&& self.cursor() + 1 < self.token_count()
        &&& is_literal_kind(self.token_at(self.cursor()).token_type)
        &&& self.token_at(self.cursor()).literal is Some
        &&& inert_kind(self.token_at(self.cursor() + 1).token_type)
    }

    /// A `print` of a single literal begins at the cursor.
    pub open spec fn at_print_literal(&self) -> bool {
        &&& self.cursor() + 2 < self.token_count()
        &&& self.token_at(self.cursor()).token_type == TokenType::Print
        &&& is_literal_kind(self.token_at(self.cursor() + 1).token_type)
        &&& self.token_at(self.cursor() + 1).literal is Some
        &&& inert_kind(self.token_at(self.cursor() + 2).token_type)
    }

    /// The whole remaining stream is one well-terminated `print` of a
    /// literal.
    pub open spec fn at_print_literal_program(&self) -> bool {
        &&& self.cursor() + 3 < self.token_count()
        &&& self.at_print_literal()
        &&& self.token_at(self.cursor() + 2).token_type == TokenType::Semicolon
        &&& self.token_at(self.cursor() + 3).token_type == TokenType::End
    }

    /// A function declaration of no parameters and an empty body begins
    /// at the cursor: name, `(`, `)`, `{`, `}`.
    pub open spec fn at_empty_function(&self) -> bool {
        &&& self.cursor() + 4 < self.token_count()
        &&& self.token_at(self.cursor()).token_type == TokenType::Identifier
        &&& self.token_at(self.cursor() + 1).token_type == TokenType::LeftParen
        &&& self.token_at(self.cursor() + 2).token_type == TokenType::RightParen
        &&& self.token_at(self.cursor() + 3).token_type == TokenType::LeftBrace
        &&& self.token_at(self.cursor() + 4).token_type == TokenType::RightBrace
    }

    /// The whole remaining stream is two `print`s of literals, each
    /// missing its terminating semicolon: two independent syntax errors.
    pub open spec fn at_two_unterminated_prints(&self) -> bool {
        &&& self.cursor() + 4 < self.token_count()
        &&& self.token_at(self.cursor()).token_type == TokenType::Print
        &&& is_literal_kind(self.token_at(self.cursor() + 1).token_type)
        &&& self.token_at(self.cursor() + 1).literal is Some
        &&& self.token_at(self.cursor() + 2).token_type == TokenType::Print
        &&& is_literal_kind(self.token_at(self.cursor() + 3).token_type)
        &&& self.token_at(self.cursor() + 3).literal is Some
        &&& self.token_at(self.cursor() + 4).token_type == TokenType::End
    }

    /// A parser over `tokens`, which must end with the end marker.
    pub fn new(tokens: Vec<Token>) -> (r: Self)
        requires
            tokens@.len() >= 1,
            tokens@.last().token_type == TokenType::End,
        ensures
            r.wf(),
            r.spec_peek() == tokens@[0],
            r.remaining() == tokens@.len(),
            r.cursor() == 0,
            r.token_count() == tokens@.len(),
            forall|i: int| 0 <= i < tokens@.len() ==> #[trigger] r.token_at(i) == tokens@[i],
    {
        Parser { tokens, current: 0 }
    }

    /// Parses the whole stream: one result per top-level statement, a
    /// parse error standing in for each statement that failed. The whole
    /// stream is consumed, so at most one result arises per token.
    pub fn parse(&mut self) -> (results: Vec<Result<Statement, LoxError>>)
        requires
            old(self).wf(),
        ensures
            final(self).wf(),
            final(self).spec_peek().token_type == TokenType::End,
            results@.len() <= old(self).remaining(),
            old(self).spec_peek().token_type == TokenType::End ==> results@.len() == 0,
            old(self).at_print_literal_program() ==> ({
                &&& results@.len() == 1
                &&& results@[0] == Ok::<Statement, LoxError>(
                    Statement::Print(
                        Expr::Literal(token_literal(old(self).token_at(old(self).cursor() + 1))),
                    ),
                )
            }),
            old(self).at_two_unterminated_prints() ==> ({
                &&& results@.len() == 2
                &&& is_missing_semicolon_error(
                    results@[0],
                    old(self).token_at(old(self).cursor() + 2),
                )
                &&& is_missing_semicolon_error(
                    results@[1],
                    old(self).token_at(old(self).cursor() + 4),
                )
            }),
    {
        let mut statements: Vec<Result<Statement, LoxError>> = Vec::new();
        let ghost start = self.current;
        while !self.is_at_end()
            invariant
                self.wf(),
                self.tokens == old(self).tokens,
                start == old(self).current,
                self.current >= start,
                statements@.len() + start <= self.current,
                old(self).spec_peek().token_type == TokenType::End ==> statements@.len() == 0
                    && self.current == start,
                old(self).at_print_literal_program() ==> ((self.current == start && statements@
                    =~= Seq::<Result<Statement, LoxError>>::empty()) || (self.current == start + 3
                    && statements@ =~= seq![
                    Ok::<Statement, LoxError>(
                        Statement::Print(
                            Expr::Literal(token_literal(old(self).token_at(start + 1))),
                        ),
                    ),
                ])),
                old(self).at_two_unterminated_prints() ==> ((self.current == start && statements@
                    =~= Seq::<Result<Statement, LoxError>>::empty()) || (self.current == start + 3
                    && statements@.len() == 1 && is_missing_semicolon_error(
                    statements@[0],
                    old(self).token_at(start + 2),
                )) || (self.current == start + 4 && statements@.len() == 2
                    && is_missing_semicolon_error(statements@[0], old(self).token_at(start + 2))
                    && is_missing_semicolon_error(statements@[1], old(self).token_at(start + 4)))),
            decreases self.remaining(),
        {
            let ghost before = self.current;
            let statement_result = self.statement(u64::MAX);
            if statement_result.is_err() {
                self.advance();
            }
            proof {
                assert(self.current > before);
            }
            statements.push(statement_result);
        }
        statements
    }

    /// Parses one statement of any form.
    fn statement(&mut self, fuel: u64) -> (r: Result<Statement, LoxError>)
        requires
            old(self).wf(),
        ensures
            final(self).wf(),
            final(self).tokens == old(self).tokens,
            final(self).current >= old(self).current,
            r is Ok ==> final(self).current > old(self).current,
        old(self).at_print_literal() && old(self).token_at(old(self).cursor() + 2).token_type
            == TokenType::Semicolon && fuel >= 13 ==> ({
            &&& r == Ok::<Statement, LoxError>(
                Statement::Print(
                    Expr::Literal(token_literal(old(self).token_at(old(self).cursor() + 1))),
                ),
            )
            &&& final(self).current == old(self).current + 3
        }),
        old(self).at_print_literal() && old(self).token_at(old(self).cursor() + 2).token_type
            != TokenType::Semicolon && fuel >= 13 ==> ({
            &&& is_missing_semicolon_error(r, old(self).token_at(old(self).cursor() + 2))
            &&& final(self).current == old(self).current + 2
        }),
        old(self).at_inert_literal() && old(self).token_at(old(self).cursor() + 1).token_type
            == TokenType::Semicolon && fuel >= 13 ==> ({
            &&& r == Ok::<Statement, LoxError>(
                Statement::Expression(Expr::Literal(token_literal(old(self).spec_peek()))),
            )
            &&& final(self).current == old(self).current + 2
        }),
        old(self).at_inert_literal() && old(self).token_at(old(self).cursor() + 1).token_type
            != TokenType::Semicolon && fuel >= 13 ==> ({
            &&& is_missing_semicolon_error(r, old(self).token_at(old(self).cursor() + 1))
            &&& final(self).current == old(self).current + 1
        }),
        decreases fuel,
    {
        if fuel == 0 {
            return Err(self.nesting_error());
        }
        if self.match_token(&[TokenType::Class]) {
            self.class_declaration(fuel - 1)
        } else if self.match_token(&[TokenType::Fun]) {
            self.function_declaration("function", fuel - 1)
        } else if self.match_token(&[TokenType::Var]) {
            match self.declaration(fuel - 1) {
                Ok(stmt) => Ok(stmt),
                Err(error) => {
                    self.sync();
                    Err(error)
                },
            }
        } else if self.match_token(&[TokenType::For]) {
            self.for_statement(fuel - 1)
        } else if self.match_token(&[TokenType::If]) {
            self.if_statement(fuel - 1)
        } else if self.match_token(&[TokenType::Print]) {
            self.print_statement(fuel - 1)
        } else if self.match_token(&[TokenType::Return]) {
            self.return_statement(fuel - 1)
        } else if self.match_token(&[TokenType::While]) {
            self.while_statement(fuel - 1)
        } else if self.match_token(&[TokenType::LeftBrace]) {
            match self.block(fuel - 1) {
                Ok(statements) => Ok(Statement::Block(Box::new(statements))),
                Err(error) => Err(error),
            }
        } else {
            self.expression_statement(fuel - 1)
        }
    }

    /// Parses an `if` statement with an optional `else` branch.
    fn if_statement(&mut self, fuel: u64) -> (r: Result<Statement, LoxError>)
        requires
            old(self).wf(),
        ensures
            final(self).wf(),
            final(self).tokens == old(self).tokens,
            final(self).current >= old(self).current,
            r is Ok ==> final(self).current > old(self).current,
        decreases fuel,
    {
        if fuel == 0 {
            return Err(self.nesting_error());
        }
        self.consume(TokenType::LeftParen, "Expect '(' after 'if'.")?;
        let condition = self.expression(fuel - 1)?;
        self.consume(TokenType::RightParen, "Expect ')' after if condition.")?;
        let then_branch = self.statement(fuel - 1)?;
        let mut else_branch: Option<Statement> = None;
        if self.match_token(&[TokenType::Else]) {
            else_branch = Some(self.statement(fuel - 1)?);
        }
        Ok(Statement::If(condition, Box::new(then_branch), Box::new(else_branch)))
    }

    /// Parses a `print` statement.
    fn print_statement(&mut self, fuel: u64) -> (r: Result<Statement, LoxError>)
        requires
            old(self).wf(),
        ensures
            final(self).wf(),
            final(self).tokens == old(self).tokens,
            final(self).current >= old(self).current,
            r is Ok ==> final(self).current > old(self).current,
        old(self).at_inert_literal() && old(self).token_at(old(self).cursor() + 1).token_type
            == TokenType::Semicolon && fuel >= 12 ==> ({
            &&& r == Ok::<Statement, LoxError>(
                Statement::Print(Expr::Literal(token_literal(old(self).spec_peek()))),
            )
            &&& final(self).current == old(self).current + 2
        }),
        old(self).at_inert_literal() && old(self).token_at(old(self).cursor() + 1).token_type
            != TokenType::Semicolon && fuel >= 12 ==> ({
            &&& is_missing_semicolon_error(r, old(self).token_at(old(self).cursor() + 1))
            &&& final(self).current == old(self).current + 1
        }),
        decreases fuel,
    {
        if fuel == 0 {
            return Err(self.nesting_error());
        }
        let value = self.expression(fuel - 1);
        self.consume(TokenType::Semicolon, "Expect ';' after value.")?;
        match value {
            Ok(exp) => Ok(Statement::Print(exp)),
            Err(err) => Err(err),
        }
    }

    /// Parses a variable declaration with an optional initializer.
    fn declaration(&mut self, fuel: u64) -> (r: Result<Statement, LoxError>)
        requires
            old(self).wf(),
        ensures
            final(self).wf(),
            final(self).tokens == old(self).tokens,
            final(self).current >= old(self).current,
            r is Ok ==> final(self).current > old(self).current,
        decreases fuel,
    {
        if fuel == 0 {
            return Err(self.nesting_error());
        }
        let name = self.consume(TokenType::Identifier, "Expect variable name.")?;
        let mut initializer: Option<Expr> = None;
        if self.match_token(&[TokenType::Equal]) {
            initializer = Some(self.expression(fuel - 1)?);
        }
        self.consume(TokenType::Semicolon, "Expect ';' after value.")?;
        Ok(Statement::Var(name, initializer))
    }

    /// Parses the statements of a block, up to its closing brace.
    fn block(&mut self, fuel: u64) -> (r: Result<Vec<Statement>, LoxError>)
        requires
            old(self).wf(),
        ensures
            final(self).wf(),
            final(self).tokens == old(self).tokens,
            final(self).current >= old(self).current,
            r is Ok ==> final(self).current > old(self).current,
        old(self).spec_peek().token_type == TokenType::RightBrace && fuel >= 1 ==> ({
            &&& r is Ok
            &&& r->Ok_0@.len() == 0
            &&& final(self).current == old(self).current + 1
        }),
        decreases fuel,
    {
        if fuel == 0 {
            return Err(self.nesting_error());
        }
        let mut statements: Vec<Statement> = Vec::new();
        while !self.check(TokenType::RightBrace) && !self.is_at_end()
            invariant
                fuel >= 1,
                self.wf(),
                self.tokens == old(self).tokens,
                self.current >= old(self).current,
                old(self).spec_peek().token_type == TokenType::RightBrace ==> statements@.len()
                    == 0 && self.current == old(self).current,
            decreases self.remaining(),
        {
            statements.push(self.statement(fuel - 1)?);
        }
        self.consume(TokenType::RightBrace, "Expect '}' after block.")?;
        Ok(statements)
    }

    /// Parses a `while` statement.
    fn while_statement(&mut self, fuel: u64) -> (r: Result<Statement, LoxError>)
        requires
            old(self).wf(),
        ensures
            final(self).wf(),
            final(self).tokens == old(self).tokens,
            final(self).current >= old(self).current,
            r is Ok ==> final(self).current > old(self).current,
        decreases fuel,
    {
        if fuel == 0 {
            return Err(self.nesting_error());
        }
        self.consume(TokenType::LeftParen, "Expect '(' after 'while'.")?;
        let condition = self.expression(fuel - 1)?;
        self.consume(TokenType::RightParen, "Expect ')' after condition.")?;
        let body = self.statement(fuel - 1)?;
        Ok(Statement::While(condition, Box::new(body)))
    }

    /// Parses an expression statement.
    fn expression_statement(&mut self, fuel: u64) -> (r: Result<Statement, LoxError>)
        requires
            old(self).wf(),
        ensures
            final(self).wf(),
            final(self).tokens == old(self).tokens,
            final(self).current >= old(self).current,
            r is Ok ==> final(self).current > old(self).current,
        old(self).at_inert_literal() && old(self).token_at(old(self).cursor() + 1).token_type
            == TokenType::Semicolon && fuel >= 12 ==> ({
            &&& r == Ok::<Statement, LoxError>(
                Statement::Expression(Expr::Literal(token_literal(old(self).spec_peek()))),
            )
            &&& final(self).current == old(self).current + 2
        }),
        old(self).at_inert_literal() && old(self).token_at(old(self).cursor() + 1).token_type
            != TokenType::Semicolon && fuel >= 12 ==> ({
            &&& is_missing_semicolon_error(r, old(self).token_at(old(self).cursor() + 1))
            &&& final(self).current == old(self).current + 1
        }),
        decreases fuel,
    {
        if fuel == 0 {
            return Err(self.nesting_error());
        }
        let expr = self.expression(fuel - 1);
        self.consume(TokenType::Semicolon, "Expect ';' after value.")?;
        match expr {
            Ok(exp) => Ok(Statement::Expression(exp)),
            Err(err) => Err(err),
        }
    }

    /// Parses a `for` statement and desugars it at parse time: a block
    /// holding the optional initializer and a `while` loop (condition
    /// defaulting to `true`) whose body is a block of the original body
    /// followed by the optional increment.
    fn for_statement(&mut self, fuel: u64) -> (r: Result<Statement, LoxError>)
        requires
            old(self).wf(),
        ensures
            final(self).wf(),
            final(self).tokens == old(self).tokens,
            final(self).current >= old(self).current,
            r is Ok ==> final(self).current > old(self).current,
        r is Ok ==> (r->Ok_0 is While || (r->Ok_0 is Block && (*r->Ok_0->Block_0)@.len() == 2
            && (*r->Ok_0->Block_0)@[1] is While)),
        old(self).cursor() + 6 < old(self).token_count() && old(self).token_at(
            old(self).cursor(),
        ).token_type == TokenType::LeftParen && old(self).token_at(
            old(self).cursor() + 1,
        ).token_type == TokenType::Semicolon && old(self).token_at(
            old(self).cursor() + 2,
        ).token_type == TokenType::Semicolon && old(self).token_at(
            old(self).cursor() + 3,
        ).token_type == TokenType::RightParen && old(self).token_at(
            old(self).cursor() + 4,
        ).token_type == TokenType::Print && is_literal_kind(
            old(self).token_at(old(self).cursor() + 5).token_type,
        ) && old(self).token_at(old(self).cursor() + 5).literal is Some && old(self).token_at(
            old(self).cursor() + 6,
        ).token_type == TokenType::Semicolon && fuel >= 15 ==> ({
            &&& r is Ok
            &&& r->Ok_0 is While
            &&& r->Ok_0->While_0 == Expr::Literal(Value::Bool(true))
            &&& (*r->Ok_0->While_1) == Statement::Print(
                Expr::Literal(token_literal(old(self).token_at(old(self).cursor() + 5))),
            )
            &&& final(self).current == old(self).current + 7
        }),
        decreases fuel,
    {
        if fuel == 0 {
            return Err(self.nesting_error());
        }
        self.consume(TokenType::LeftParen, "Expect '(' after 'for'.")?;
        // Build the initializer
        let mut initializer: Option<Statement> = None;
        if self.match_token(&[TokenType::Var]) {
            initializer = Some(self.declaration(fuel - 1)?);
        } else if !self.match_token(&[TokenType::Semicolon]) {
            initializer = Some(self.expression_statement(fuel - 1)?);
        }
        // Build the condition
        let mut condition = Expr::Literal(Value::Bool(true));
        if !self.check(TokenType::Semicolon) {
            condition = self.expression(fuel - 1)?;
        }
        self.consume(TokenType::Semicolon, "Expect ';' after loop condition.")?;
        // Build the increment
        let mut increment: Option<Expr> = None;
        if !self.check(TokenType::RightParen) {
            increment = Some(self.expression(fuel - 1)?);
        }
        self.consume(TokenType::RightParen, "Expect ')' after for clauses.")?;
        // Build the body
        let mut body = self.statement(fuel - 1)?;
        if let Some(expr) = increment {
            let mut parts: Vec<Statement> = Vec::new();
            parts.push(body);
            parts.push(Statement::Expression(expr));
            body = Statement::Block(Box::new(parts));
        }
        body = Statement::While(condition, Box::new(body));
        if let Some(init) = initializer {
            let mut parts: Vec<Statement> = Vec::new();
            parts.push(init);
            parts.push(body);
            body = Statement::Block(Box::new(parts));
        }
        Ok(body)
    }

    /// Parses a function or method declaration: name, at most 255
    /// parameters, and a block body.
    fn function_declaration(&mut self, kind: &str, fuel: u64) -> (r: Result<Statement, LoxError>)
        requires
            old(self).wf(),
        ensures
            final(self).wf(),
            final(self).tokens == old(self).tokens,
            final(self).current >= old(self).current,
            r is Ok ==> final(self).current > old(self).current,
        r is Ok ==> ({
            &&& r->Ok_0 is FunDeclaration
            &&& r->Ok_0->FunDeclaration_0.token_type == TokenType::Identifier
            &&& (r->Ok_0->FunDeclaration_1)@.len() <= 255
            &&& forall|j: int|
                0 <= j < (r->Ok_0->FunDeclaration_1)@.len() ==> (#[trigger] (
                r->Ok_0->FunDeclaration_1)@[j]).token_type == TokenType::Identifier
        }),
        old(self).at_empty_function() && fuel >= 2 ==> ({
            &&& r is Ok
            &&& r->Ok_0 is FunDeclaration
            &&& r->Ok_0->FunDeclaration_0 == old(self).token_at(old(self).cursor())
            &&& (r->Ok_0->FunDeclaration_1)@.len() == 0
            &&& (r->Ok_0->FunDeclaration_2)@.len() == 0
            &&& final(self).current == old(self).current + 5
        }),
        decreases fuel,
    {
        if fuel == 0 {
            return Err(self.nesting_error());
        }
        let name = self.consume(TokenType::Identifier, expect_msg("Expect ", kind, " name.").as_str())?;
        self.consume(TokenType::LeftParen, expect_msg("Expect '(' after ", kind, " name.").as_str())?;
        let mut params: Vec<Token> = Vec::new();
        if !self.check(TokenType::RightParen) {
            loop
                invariant
                    self.wf(),
                    self.tokens == old(self).tokens,
                    self.current >= old(self).current,
                    params@.len() <= 255,
                    forall|j: int|
                        0 <= j < params@.len() ==> (#[trigger] params@[j]).token_type
                            == TokenType::Identifier,
                    !old(self).at_empty_function(),
                decreases self.remaining(),
            {
                if params.len() >= 255 {
                    let site = clone_token(self.peek());
                    return Err(
                        LoxError::ArgumentError(
                            Statement::Expression(Expr::Variable(site)),
                            String::from_str("Can't have more than 255 parameters."),
                        ),
                    );
                }
                params.push(self.consume(TokenType::Identifier, "Expect parameter name.")?);
                if !self.match_token(&[TokenType::Comma]) {
                    break ;
                }
            }
        }
        self.consume(TokenType::RightParen, "Expect ')' after parameters.")?;
        self.consume(
            TokenType::LeftBrace,
            expect_msg("Expect '{' before ", kind, " body.").as_str(),
        )?;
        let body = self.block(fuel - 1)?;
        let ghost param_views = params@;
        let shared_params = Rc::new(params);
        proof {
            assert(shared_params@ == param_views);
            assert(param_views.len() <= 255);
        }
        Ok(Statement::FunDeclaration(name, shared_params, Rc::new(body)))
    }

    /// Parses a `return` statement; without an expression the returned
    /// value defaults to `nil`.
    fn return_statement(&mut self, fuel: u64) -> (r: Result<Statement, LoxError>)
        requires
            old(self).wf(),
        ensures
            final(self).wf(),
            final(self).tokens == old(self).tokens,
            final(self).current >= old(self).current,
            r is Ok ==> final(self).current > old(self).current,
        decreases fuel,
    {
        if fuel == 0 {
            return Err(self.nesting_error());
        }
        let mut value = Expr::Literal(Value::Nil);
        if !self.check(TokenType::Semicolon) {
            value = self.expression(fuel - 1)?;
        }
        self.consume(TokenType::Semicolon, "Expect ';' after return value.")?;
        Ok(Statement::Return(value))
    }

    /// Parses a class declaration: a name and a list of methods.
    fn class_declaration(&mut self, fuel: u64) -> (r: Result<Statement, LoxError>)
        requires
            old(self).wf(),
        ensures
            final(self).wf(),
            final(self).tokens == old(self).tokens,
            final(self).current >= old(self).current,
            r is Ok ==> final(self).current > old(self).current,
        decreases fuel,
    {
        if fuel == 0 {
            return Err(self.nesting_error());
        }
        let name = self.consume(TokenType::Identifier, "Expect class name.")?;
        self.consume(TokenType::LeftBrace, "Expect '{' before class body.")?;
        let mut methods: Vec<Statement> = Vec::new();
        while !self.check(TokenType::RightBrace) && !self.is_at_end()
            invariant
                fuel >= 1,
                self.wf(),
                self.tokens == old(self).tokens,
                self.current >= old(self).current,
            decreases self.remaining(),
        {
            methods.push(self.function_declaration("method", fuel - 1)?);
        }
        self.consume(TokenType::RightBrace, "Expect '}' after class body.")?;
        Ok(Statement::Class(name, Box::new(methods)))
    }

    /// Parses an expression: the lowest precedence level is assignment.
    fn expression(&mut self, fuel: u64) -> (r: Result<Expr, LoxError>)
        requires
            old(self).wf(),
        ensures
            final(self).wf(),
            final(self).tokens == old(self).tokens,
            final(self).current >= old(self).current,
            r is Ok ==> final(self).current > old(self).current,
        old(self).at_inert_literal() && fuel >= 11 ==> ({
            &&& r == Ok::<Expr, LoxError>(Expr::Literal(token_literal(old(self).spec_peek())))
            &&& final(self).current == old(self).current + 1
        }),
        decreases fuel,
    {
        if fuel == 0 {
            return Err(self.nesting_error());
        }
        self.assignment(fuel - 1)
    }

    /// Parses an assignment, which recurses once to the right; only a bare
    /// variable reference may stand left of `=`.
    fn assignment(&mut self, fuel: u64) -> (r: Result<Expr, LoxError>)
        requires
            old(self).wf(),
        ensures
            final(self).wf(),
            final(self).tokens == old(self).tokens,
            final(self).current >= old(self).current,
            r is Ok ==> final(self).current > old(self).current,
        old(self).at_inert_literal() && fuel >= 10 ==> ({
            &&& r == Ok::<Expr, LoxError>(Expr::Literal(token_literal(old(self).spec_peek())))
            &&& final(self).current == old(self).current + 1
        }),
        decreases fuel,
    {
        if fuel == 0 {
            return Err(self.nesting_error());
        }
        let exp = self.or(fuel - 1)?;
        if self.match_token(&[TokenType::Equal]) {
            let equals = self.previous();
            let value = self.assignment(fuel - 1)?;
            if let Expr::Variable(name) = exp {
                return Ok(Expr::Assign(name, Box::new(value)));
            } else {
                return Err(
                    LoxError::ParseError(equals, String::from_str("Invalid assignment target.")),
                );
            }
        }
        Ok(exp)
    }

    /// Parses a chain of logical `or`s.
    fn or(&mut self, fuel: u64) -> (r: Result<Expr, LoxError>)
        requires
            old(self).wf(),
        ensures
            final(self).wf(),
            final(self).tokens == old(self).tokens,
            final(self).current >= old(self).current,
            r is Ok ==> final(self).current > old(self).current,
        old(self).at_inert_literal() && fuel >= 9 ==> ({
            &&& r == Ok::<Expr, LoxError>(Expr::Literal(token_literal(old(self).spec_peek())))
            &&& final(self).current == old(self).current + 1
        }),
        decreases fuel,
    {
        if fuel == 0 {
            return Err(self.nesting_error());
        }
        let mut exp = self.and(fuel - 1)?;
        while self.match_token(&[TokenType::Or])
            invariant
                old(self).at_inert_literal() && fuel >= 9 ==> (exp == Expr::Literal(
                    token_literal(old(self).spec_peek()),
                ) && self.current == old(self).current + 1),
                fuel >= 1,
                self.wf(),
                self.tokens == old(self).tokens,
                self.current > old(self).current,
            decreases self.remaining(),
        {
            let operator = self.previous();
            let right = self.and(fuel - 1)?;
            exp = Expr::Logical(Box::new(exp), operator, Box::new(right));
        }
        Ok(exp)
    }

    /// Parses a chain of logical `and`s.
    fn and(&mut self, fuel: u64) -> (r: Result<Expr, LoxError>)
        requires
            old(self).wf(),
        ensures
            final(self).wf(),
            final(self).tokens == old(self).tokens,
            final(self).current >= old(self).current,
            r is Ok ==> final(self).current > old(self).current,
        old(self).at_inert_literal() && fuel >= 8 ==> ({
            &&& r == Ok::<Expr, LoxError>(Expr::Literal(token_literal(old(self).spec_peek())))
            &&& final(self).current == old(self).current + 1
        }),
        decreases fuel,
    {
        if fuel == 0 {
            return Err(self.nesting_error());
        }
        let mut exp = self.equality(fuel - 1)?;
        while self.match_token(&[TokenType::And])
            invariant
                old(self).at_inert_literal() && fuel >= 8 ==> (exp == Expr::Literal(
                    token_literal(old(self).spec_peek()),
                ) && self.current == old(self).current + 1),
                fuel >= 1,
                self.wf(),
                self.tokens == old(self).tokens,
                self.current > old(self).current,
            decreases self.remaining(),
        {
            let operator = self.previous();
            let right = self.equality(fuel - 1)?;
            exp = Expr::Logical(Box::new(exp), operator, Box::new(right));
        }
        Ok(exp)
    }

    /// Parses a chain of equality operators.
    fn equality(&mut self, fuel: u64) -> (r: Result<Expr, LoxError>)
        requires
            old(self).wf(),
        ensures
            final(self).wf(),
            final(self).tokens == old(self).tokens,
            final(self).current >= old(self).current,
            r is Ok ==> final(self).current > old(self).current,
        old(self).at_inert_literal() && fuel >= 7 ==> ({
            &&& r == Ok::<Expr, LoxError>(Expr::Literal(token_literal(old(self).spec_peek())))
            &&& final(self).current == old(self).current + 1
        }),
        decreases fuel,
    {
        if fuel == 0 {
            return Err(self.nesting_error());
        }
        let mut exp = self.comparison(fuel - 1)?;
        while self.match_token(&[TokenType::NotEqual, TokenType::EqualEqual])
            invariant
                old(self).at_inert_literal() && fuel >= 7 ==> (exp == Expr::Literal(
                    token_literal(old(self).spec_peek()),
                ) && self.current == old(self).current + 1),
                fuel >= 1,
                self.wf(),
                self.tokens == old(self).tokens,
                self.current > old(self).current,
            decreases self.remaining(),
        {
            let op = self.previous();
            let right = self.comparison(fuel - 1)?;
            exp = Expr::Binary(Box::new(exp), op, Box::new(right));
        }
        Ok(exp)
    }

    /// Parses a chain of comparison operators.
    fn comparison(&mut self, fuel: u64) -> (r: Result<Expr, LoxError>)
        requires
            old(self).wf(),
        ensures
            final(self).wf(),
            final(self).tokens == old(self).tokens,
            final(self).current >= old(self).current,
            r is Ok ==> final(self).current > old(self).current,
        old(self).at_inert_literal() && fuel >= 6 ==> ({
            &&& r == Ok::<Expr, LoxError>(Expr::Literal(token_literal(old(self).spec_peek())))
            &&& final(self).current == old(self).current + 1
        }),
        decreases fuel,
    {
        if fuel == 0 {
            return Err(self.nesting_error());
        }
        let mut exp = self.term(fuel - 1)?;
        while self.match_token(
            &[TokenType::Greater, TokenType::GreaterEqual, TokenType::Less, TokenType::LessEqual],
        )
            invariant
                old(self).at_inert_literal() && fuel >= 6 ==> (exp == Expr::Literal(
                    token_literal(old(self).spec_peek()),
                ) && self.current == old(self).current + 1),
                fuel >= 1,
                self.wf(),
                self.tokens == old(self).tokens,
                self.current > old(self).current,
            decreases self.remaining(),
        {
            let op = self.previous();
            let right = self.term(fuel - 1)?;
            exp = Expr::Binary(Box::new(exp), op, Box::new(right));
        }
        Ok(exp)
    }

    /// Parses a chain of `+` and `-`.
    fn term(&mut self, fuel: u64) -> (r: Result<Expr, LoxError>)
        requires
            old(self).wf(),
        ensures
            final(self).wf(),
            final(self).tokens == old(self).tokens,
            final(self).current >= old(self).current,
            r is Ok ==> final(self).current > old(self).current,
        old(self).at_inert_literal() && fuel >= 5 ==> ({
            &&& r == Ok::<Expr, LoxError>(Expr::Literal(token_literal(old(self).spec_peek())))
            &&& final(self).current == old(self).current + 1
        }),
        decreases fuel,
    {
        if fuel == 0 {
            return Err(self.nesting_error());
        }
        let mut exp = self.factor(fuel - 1)?;
        while self.match_token(&[TokenType::Minus, TokenType::Plus])
            invariant
                old(self).at_inert_literal() && fuel >= 5 ==> (exp == Expr::Literal(
                    token_literal(old(self).spec_peek()),
                ) && self.current == old(self).current + 1),
                fuel >= 1,
                self.wf(),
                self.tokens == old(self).tokens,
                self.current > old(self).current,
            decreases self.remaining(),
        {
            let op = self.previous();
            let right = self.factor(fuel - 1)?;
            exp = Expr::Binary(Box::new(exp), op, Box::new(right));
        }
        Ok(exp)
    }

    /// Parses a chain of `*`, `/` and `%`.
    fn factor(&mut self, fuel: u64) -> (r: Result<Expr, LoxError>)
        requires
            old(self).wf(),
        ensures
            final(self).wf(),
            final(self).tokens == old(self).tokens,
            final(self).current >= old(self).current,
            r is Ok ==> final(self).current > old(self).current,
        old(self).at_inert_literal() && fuel >= 4 ==> ({
            &&& r == Ok::<Expr, LoxError>(Expr::Literal(token_literal(old(self).spec_peek())))
            &&& final(self).current == old(self).current + 1
        }),
        decreases fuel,
    {
        if fuel == 0 {
            return Err(self.nesting_error());
        }
        let mut exp = self.unary(fuel - 1)?;
        while self.match_token(&[TokenType::Slash, TokenType::Asterisk, TokenType::Mod])
            invariant
                old(self).at_inert_literal() && fuel >= 4 ==> (exp == Expr::Literal(
                    token_literal(old(self).spec_peek()),
                ) && self.current == old(self).current + 1),
                fuel >= 1,
                self.wf(),
                self.tokens == old(self).tokens,
                self.current > old(self).current,
            decreases self.remaining(),
        {
            let op = self.previous();
            let right = self.unary(fuel - 1)?;
            exp = Expr::Binary(Box::new(exp), op, Box::new(right));
        }
        Ok(exp)
    }

    /// Parses a unary operator, which recurses once to the right.
    fn unary(&mut self, fuel: u64) -> (r: Result<Expr, LoxError>)
        requires
            old(self).wf(),
        ensures
            final(self).wf(),
            final(self).tokens == old(self).tokens,
            final(self).current >= old(self).current,
            r is Ok ==> final(self).current > old(self).current,
        old(self).at_inert_literal() && fuel >= 3 ==> ({
            &&& r == Ok::<Expr, LoxError>(Expr::Literal(token_literal(old(self).spec_peek())))
            &&& final(self).current == old(self).current + 1
        }),
        decreases fuel,
    {
        if fuel == 0 {
            return Err(self.nesting_error());
        }
        if self.match_token(&[TokenType::Not, TokenType::Minus]) {
            let op = self.previous();
            let right = self.unary(fuel - 1)?;
            return Ok(Expr::Unary(op, Box::new(right)));
        }
        self.call(fuel - 1)
    }

    /// Parses a call chain: after a primary expression, any run of
    /// argument lists and property accesses.
    fn call(&mut self, fuel: u64) -> (r: Result<Expr, LoxError>)
        requires
            old(self).wf(),
        ensures
            final(self).wf(),
            final(self).tokens == old(self).tokens,
            final(self).current >= old(self).current,
            r is Ok ==> final(self).current > old(self).current,
        old(self).at_inert_literal() && fuel >= 2 ==> ({
            &&& r == Ok::<Expr, LoxError>(Expr::Literal(token_literal(old(self).spec_peek())))
            &&& final(self).current == old(self).current + 1
        }),
        decreases fuel,
    {
        if fuel == 0 {
            return Err(self.nesting_error());
        }
        let mut expr = self.primary(fuel - 1)?;
        loop
            invariant
                old(self).at_inert_literal() && fuel >= 2 ==> (expr == Expr::Literal(
                    token_literal(old(self).spec_peek()),
                ) && self.current == old(self).current + 1),
                fuel >= 1,
                self.wf(),
                self.tokens == old(self).tokens,
                self.current > old(self).current,
            decreases self.remaining(),
        {
            if self.match_token(&[TokenType::LeftParen]) {
                expr = self.parse_arguments(expr, fuel - 1)?;
            } else if self.match_token(&[TokenType::Dot]) {
                let property = self.consume(
                    TokenType::Identifier,
                    "Expect property name after '.'.",
                )?;
                expr = Expr::Get(Box::new(expr), property);
            } else {
                break ;
            }
        }
        Ok(expr)
    }

    /// Parses a call's comma-separated arguments, capped at 255.
    fn parse_arguments(&mut self, callee: Expr, fuel: u64) -> (r: Result<Expr, LoxError>)
        requires
            old(self).wf(),
        ensures
            final(self).wf(),
            final(self).tokens == old(self).tokens,
            final(self).current >= old(self).current,
            r is Ok ==> final(self).current > old(self).current,
        decreases fuel,
    {
        if fuel == 0 {
            return Err(self.nesting_error());
        }
        let mut arguments: Vec<Expr> = Vec::new();
        let mut callee = callee;
        if !self.check(TokenType::RightParen) {
            loop
                invariant
                    fuel >= 1,
                    self.wf(),
                    self.tokens == old(self).tokens,
                    self.current >= old(self).current,
                decreases self.remaining(),
            {
                arguments.push(self.expression(fuel - 1)?);
                if arguments.len() > 255 {
                    return Err(
                        LoxError::ArgumentError(
                            Statement::Expression(callee),
                            String::from_str("Can't have more than 255 arguments."),
                        ),
                    );
                }
                if !self.match_token(&[TokenType::Comma]) {
                    break ;
                }
            }
        }
        self.consume(TokenType::RightParen, "Expect ')' after arguments.")?;
        Ok(Expr::Call(Box::new(callee), Box::new(arguments)))
    }

    /// Parses a primary expression: a literal, a variable (or `this`), or
    /// a parenthesised expression.
    fn primary(&mut self, fuel: u64) -> (r: Result<Expr, LoxError>)
        requires
            old(self).wf(),
        ensures
            final(self).wf(),
            final(self).tokens == old(self).tokens,
            final(self).current >= old(self).current,
            r is Ok ==> final(self).current > old(self).current,
        old(self).spec_peek().token_type == TokenType::False && fuel >= 1 ==> ({
            &&& r == Ok::<Expr, LoxError>(Expr::Literal(Value::Bool(false)))
            &&& final(self).current == old(self).current + 1
        }),
        old(self).spec_peek().token_type == TokenType::True && fuel >= 1 ==> ({
            &&& r == Ok::<Expr, LoxError>(Expr::Literal(Value::Bool(true)))
            &&& final(self).current == old(self).current + 1
        }),
        old(self).spec_peek().token_type == TokenType::Nil && fuel >= 1 ==> ({
            &&& r == Ok::<Expr, LoxError>(Expr::Literal(Value::Nil))
            &&& final(self).current == old(self).current + 1
        }),
        is_literal_kind(old(self).spec_peek().token_type) && old(self).spec_peek().literal
            is Some && fuel >= 1 ==> ({
            &&& r == Ok::<Expr, LoxError>(Expr::Literal(token_literal(old(self).spec_peek())))
            &&& final(self).current == old(self).current + 1
        }),
        (old(self).spec_peek().token_type == TokenType::Identifier || old(
            self,
        ).spec_peek().token_type == TokenType::This) && fuel >= 1 ==> ({
            &&& r == Ok::<Expr, LoxError>(Expr::Variable(old(self).spec_peek()))
            &&& final(self).current == old(self).current + 1
        }),
        decreases fuel,
    {
        if fuel == 0 {
            return Err(self.nesting_error());
        }
        let kind = self.peek().token_type;
        match kind {
            TokenType::False => {
                self.advance();
                Ok(Expr::Literal(Value::Bool(false)))
            },
            TokenType::True => {
                self.advance();
                Ok(Expr::Literal(Value::Bool(true)))
            },
            TokenType::Nil => {
                self.advance();
                Ok(Expr::Literal(Value::Nil))
            },
            TokenType::Int | TokenType::Float | TokenType::Str => {
                let token = self.advance();
                match &token.literal {
                    Some(value) => Ok(Expr::Literal(crate::value::clone_value(value))),
                    None => Err(
                        LoxError::ParseError(token, String::from_str("Invalid literal.")),
                    ),
                }
            },
            TokenType::Identifier | TokenType::This => {
                let token = self.advance();
                Ok(Expr::Variable(token))
            },
            TokenType::LeftParen => {
                self.advance();
                let exp = self.equality(fuel - 1)?;
                self.consume(TokenType::RightParen, "Expect ')' after expression.")?;
                Ok(exp)
            },
            _ => Err(
                LoxError::ParseError(
                    clone_token(self.peek()),
                    String::from_str("Invalid literal."),
                ),
            ),
        }
    }

    /// Consumes the next token when its kind is one of `token_types`.
    fn match_token(&mut self, token_types: &[TokenType]) -> (r: bool)
        requires
            old(self).wf(),
        ensures
            final(self).wf(),
            final(self).tokens == old(self).tokens,
            r == (exists|j: int|
                0 <= j < token_types@.len() && old(self).spec_peek().token_type
                    == token_types@[j] && old(self).spec_peek().token_type != TokenType::End),
            r ==> final(self).current == old(self).current + 1,
            !r ==> final(self).current == old(self).current,
        decreases token_types@.len(),
    {
        let n = token_types.len();
        let mut i: usize = 0;
        while i < n
            invariant
                n == token_types@.len(),
                0 <= i <= n,
                self.wf(),
                self.tokens == old(self).tokens,
                self.current == old(self).current,
                forall|j: int|
                    0 <= j < i ==> !(old(self).spec_peek().token_type == token_types@[j] && old(
                        self,
                    ).spec_peek().token_type != TokenType::End),
            decreases n - i,
        {
            if self.check(token_types[i]) {
                self.advance();
                return true;
            }
            i += 1;
        }
        false
    }

    /// Whether the next token has the given kind; the end marker never
    /// matches.
    fn check(&self, token_type: TokenType) -> (r: bool)
        requires
            self.wf(),
        ensures
            r == (self.spec_peek().token_type == token_type && self.spec_peek().token_type
                != TokenType::End),
    {
        if self.is_at_end() {
            return false;
        }
        self.peek().token_type == token_type
    }

    /// Moves past the next token, unless it is the end marker, and
    /// returns the token moved past.
    fn advance(&mut self) -> (t: Token)
        requires
            old(self).wf(),
            old(self).current >= 1 || old(self).spec_peek().token_type != TokenType::End,
        ensures
            final(self).wf(),
            final(self).tokens == old(self).tokens,
            old(self).spec_peek().token_type != TokenType::End ==> final(self).current == old(
                self,
            ).current + 1 && t == old(self).spec_peek(),
            old(self).spec_peek().token_type == TokenType::End ==> final(self).current == old(
                self,
            ).current && t == old(self).tokens@[old(self).current - 1],
    {
        let token_count = self.tokens.len();
        if !self.is_at_end() {
            self.current = self.current + 1;
        }
        self.previous()
    }

    /// Whether the parser has reached the end marker.
    fn is_at_end(&self) -> (r: bool)
        requires
            self.wf(),
        ensures
            r == (self.spec_peek().token_type == TokenType::End),
    {
        self.peek().token_type == TokenType::End
    }

    /// The next unconsumed token.
    pub closed spec fn spec_peek(&self) -> Token {
        self.tokens@[self.current as int]
    }

    /// The next unconsumed token.
    fn peek(&self) -> (t: &Token)
        requires
            self.wf(),
        ensures
            *t == self.spec_peek(),
    {
        &self.tokens[self.current]
    }

    /// The token most recently moved past.
    fn previous(&self) -> (t: Token)
        requires
            self.wf(),
            self.current >= 1,
        ensures
            t == self.tokens@[self.current - 1],
    {
        clone_token(&self.tokens[self.current - 1])
    }

    /// Consumes the next token, which must have the given kind; otherwise
    /// reports `msg` at the offending token.
    fn consume(&mut self, token_type: TokenType, msg: &str) -> (r: Result<Token, LoxError>)
        requires
            old(self).wf(),
        ensures
            final(self).wf(),
            final(self).tokens == old(self).tokens,
            old(self).spec_peek().token_type == token_type && token_type != TokenType::End ==> ({
                &&& final(self).current == old(self).current + 1
                &&& r == Ok::<Token, LoxError>(old(self).spec_peek())
            }),
            !(old(self).spec_peek().token_type == token_type && token_type != TokenType::End)
                ==> ({
                &&& final(self).current == old(self).current
                &&& r matches Err(LoxError::ParseError(t, m)) && t == old(self).spec_peek() && m@
                    == msg@
            }),
    {
        if self.check(token_type) {
            return Ok(self.advance());
        }
        Err(LoxError::ParseError(clone_token(self.peek()), String::from_str(msg)))
    }

    /// Panic-mode recovery: discards tokens until just past a `;` or just
    /// before a statement-starting keyword.
    fn sync(&mut self)
        requires
            old(self).wf(),
            old(self).current >= 1,
        ensures
            final(self).wf(),
            final(self).tokens == old(self).tokens,
            final(self).current >= old(self).current,
    {
        self.advance();
        while !self.is_at_end()
            invariant
                self.wf(),
                self.tokens == old(self).tokens,
                self.current >= old(self).current,
                self.current >= 1,
            decreases self.remaining(),
        {
            if self.previous().token_type == TokenType::Semicolon {
                return ;
            }
            let kind = self.peek().token_type;
            match kind {
                TokenType::Class | TokenType::Fun | TokenType::Var | TokenType::For
                    | TokenType::If | TokenType::While | TokenType::Print | TokenType::Return => {
                    return ;
                },
                _ => {},
            }
            self.advance();
        }
    }

    /// The error reported when the grammar recursion budget runs out.
    fn nesting_error(&self) -> (r: LoxError)
        requires
            self.wf(),
        ensures
            r matches LoxError::ParseError(t, m) && t == self.spec_peek() && m@
                == "Expression is nested too deeply."@,
    {
        LoxError::ParseError(
            clone_token(self.peek()),
            String::from_str("Expression is nested too deeply."),
        )
    }
}

/// A message of the form `{prefix}{kind}{suffix}`.
fn expect_msg(prefix: &str, kind: &str, suffix: &str) -> (r: String)
    ensures
        r@ == prefix@ + kind@ + suffix@,
{
    let mut m = String::from_str(prefix);
    m.append(kind);
    m.append(suffix);
    m
}

} // verus!
