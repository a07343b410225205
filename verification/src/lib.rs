//! A tree-walking interpreter for a small dynamically typed scripting
//! language: a recursive-descent parser with panic-mode error recovery, a
//! two-tier environment with snapshot-and-merge block scoping, and a
//! recursive evaluator with first-class closures and classes.

use vstd::prelude::*;

pub mod bindings;
pub mod class;
pub mod environment;
pub mod expr;
pub mod host;
pub mod interpret;
pub mod object;
pub mod ops;
pub mod parser;
pub mod semantics;
pub mod statement;
pub mod stdlib;
pub mod token;
pub mod token_type;
pub mod value;

use crate::environment::Environment;
use crate::expr::Expr;
use crate::host::Host;
use crate::interpret::{interpret, EvalState};
use crate::object::LoxObject;
use crate::ops::{display_post, display_value};
use crate::parser::{is_literal_kind, token_literal, Parser};
use crate::semantics::{abs, display_model, expr_model, in_fragment, Outcome};
use crate::statement::Statement;
use crate::token::Token;
use crate::token_type::TokenType;
use crate::value::{digits_string, spec_digits, Value};

verus! {

/// The error taxonomy.
///
/// A `ParseError` is recovered locally and collected in a batch; any other
/// variant unwinds evaluation immediately, since the language has no catch
/// construct. A `CompilerBug` signals a defect of the interpreter itself,
/// not of the user program. A `RecursionError` reports that evaluation
/// exceeded its recursion budget, the bound this interpreter puts on the
/// otherwise unbounded nesting of calls.
pub enum LoxError {
    /// A syntax error: the offending token and a message.
    ParseError(Token, String),
    /// A malformed syntax-tree node reached evaluation.
    RuntimeError(Expr, String),
    /// An operand of the wrong runtime type.
    ValueError(Value, String),
    /// An interpreter invariant was violated.
    CompilerBug(Statement, String),
    /// An undefined variable or property.
    NameError(String, String),
    /// An arity mismatch at a call site.
    ArgumentError(Statement, String),
    /// The evaluation budget was exhausted.
    RecursionError(String),
}

/// The statements carried by the `Ok` entries, in order.
pub open spec fn ok_statements(s: Seq<Result<Statement, LoxError>>) -> Seq<Statement>
    decreases s.len(),
{
    if s.len() == 0 {
        Seq::empty()
    } else {
        ok_statements(s.drop_last()) + (match s.last() {
            Ok(stmt) => seq![stmt],
            Err(_) => Seq::empty(),
        })
    }
}

/// The errors carried by the `Err` entries, in order.
pub open spec fn err_entries(s: Seq<Result<Statement, LoxError>>) -> Seq<LoxError>
    decreases s.len(),
{
    if s.len() == 0 {
        Seq::empty()
    } else {
        err_entries(s.drop_last()) + (match s.last() {
            Ok(_) => Seq::empty(),
            Err(e) => seq![e],
        })
    }
}

/// Splits a parse into its statements, or into its errors in source
/// order when there is any: a program with syntax errors is never
/// evaluated, even partially.
pub fn to_statements(results: Vec<Result<Statement, LoxError>>) -> (r: Result<
    Vec<Statement>,
    Vec<LoxError>,
>)
    ensures
        err_entries(results@).len() == 0 ==> (r matches Ok(stmts) && stmts@ == ok_statements(
            results@,
        )),
        err_entries(results@).len() != 0 ==> (r matches Err(errors) && errors@ == err_entries(
            results@,
        )),
{
    let ghost all = results@;
    let mut rest = results;
    let mut statements: Vec<Statement> = Vec::new();
    let mut errors: Vec<LoxError> = Vec::new();
    let mut seen_error: bool = false;
    let n = rest.len();
    let mut i: usize = 0;
    while i < n
        invariant
            n == all.len(),
            0 <= i <= n,
            rest@ == all.skip(i as int),
            errors@ == err_entries(all.take(i as int)),
            seen_error == (err_entries(all.take(i as int)).len() > 0),
            !seen_error ==> statements@ == ok_statements(all.take(i as int)),
        decreases n - i,
    {
        let result = rest.remove(0);
        proof {
            assert(result == all[i as int]);
            assert(rest@ =~= all.skip(i as int + 1));
            assert(all.take(i as int + 1).drop_last() =~= all.take(i as int));
            assert(all.take(i as int + 1).last() == all[i as int]);
        }
        match result {
            Ok(stmt) => {
                if !seen_error {
                    statements.push(stmt);
                }
                proof {
                    assert(errors@ =~= err_entries(all.take(i as int + 1)));
                    if !seen_error {
                        assert(statements@ =~= ok_statements(all.take(i as int + 1)));
                    }
                }
            },
            Err(err) => {
                seen_error = true;
                errors.push(err);
                proof {
                    assert(errors@ =~= err_entries(all.take(i as int + 1)));
                }
            },
        }
        i += 1;
    }
    proof {
        assert(all.take(n as int) =~= all);
    }
    if seen_error {
        Err(errors)
    } else {
        Ok(statements)
    }
}

/// The process status code of an error category.
pub fn error_code(error: &LoxError) -> (code: i32)
    ensures
        code == (match error {
            LoxError::ParseError(_, _) => 1int,
            LoxError::RuntimeError(_, _) => 2int,
            LoxError::ValueError(_, _) => 3int,
            LoxError::CompilerBug(_, _) => 4int,
            LoxError::NameError(_, _) => 5int,
            LoxError::ArgumentError(_, _) => 6int,
            LoxError::RecursionError(_) => 7int,
        }),
{
    match error {
        LoxError::ParseError(_, _) => 1,
        LoxError::RuntimeError(_, _) => 2,
        LoxError::ValueError(_, _) => 3,
        LoxError::CompilerBug(_, _) => 4,
        LoxError::NameError(_, _) => 5,
        LoxError::ArgumentError(_, _) => 6,
        LoxError::RecursionError(_) => 7,
    }
}

/// Formats the body of an error report, as it is shown to the user:
/// `[identifier] Error: message`.
pub fn throw(identifier: String, message: &str) -> (line: String)
    ensures
        line@ == "["@ + identifier@ + "] Error: "@ + message@,
{
    let ghost id = identifier@;
    let line = report(identifier, "", message);
    proof {
        reveal_strlit("");
        reveal_strlit(": ");
        reveal_strlit("] Error");
        reveal_strlit("] Error: ");
        assert(line@ =~= "["@ + id + "] Error: "@ + message@);
    }
    line
}

/// Formats an error report: `[identifier] Error{at}: message`.
pub fn report(identifier: String, at: &str, message: &str) -> (line: String)
    ensures
        line@ == "["@ + identifier@ + "] Error"@ + at@ + ": "@ + message@,
{
    let mut line = String::from_str("[");
    line.append(identifier.as_str());
    line.append("] Error");
    line.append(at);
    line.append(": ");
    line.append(message);
    line
}

/// A quoted context fragment: `{prefix}'{text}'`.
fn quoted(prefix: &str, text: &str) -> (r: String)
    ensures
        r@ == prefix@ + "'"@ + text@ + "'"@,
{
    let mut r = String::from_str(prefix);
    r.append("'");
    r.append(text);
    r.append("'");
    r
}

/// The report line of an error: a category label, positional or context
/// text, and the message. The arena lets a value error carrying an
/// instance name the instance's class.
pub fn report_error_line<H: Host>(
    error: &LoxError,
    objects: &Vec<LoxObject>,
    host: &H,
) -> (line: String)
    ensures
        error is ParseError && error->ParseError_0.token_type == TokenType::End ==> line@ == "["@
            + spec_digits(error->ParseError_0.line as int) + "] Error"@ + " at end"@ + ": "@
            + error->ParseError_1@,
        error is ParseError && error->ParseError_0.token_type != TokenType::End ==> line@ == "["@
            + spec_digits(error->ParseError_0.line as int) + "] Error"@ + (" at "@ + "'"@
            + error->ParseError_0.lexeme@ + "'"@) + ": "@ + error->ParseError_1@,
        error is RuntimeError ==> line@ == "["@ + "Runtime Error"@ + "] Error"@ + (" in "@ + "'"@
            + crate::expr::spec_expr_kind_name(&error->RuntimeError_0)@ + "'"@) + ": "@
            + error->RuntimeError_1@,
        error is ValueError ==> exists|shown: Seq<char>|
            display_post(error->ValueError_0, objects@, shown) && line@ == "["@ + "Value Error"@
                + "] Error"@ + (" for "@ + "'"@ + shown + "'"@) + ": "@
                + error->ValueError_1@,
        error is CompilerBug ==> line@ == "["@ + "Compiler Bug"@ + "] Error"@ + (" in "@ + "'"@
            + crate::statement::spec_statement_kind_name(&error->CompilerBug_0)@ + "'"@) + ": "@
            + error->CompilerBug_1@,
        error is NameError ==> line@ == "["@ + "Name Error"@ + "] Error"@ + (" for "@ + "'"@
            + error->NameError_0@ + "'"@) + ": "@ + error->NameError_1@,
        error is ArgumentError ==> line@ == "["@ + "Argument Error"@ + "] Error"@ + (" in "@
            + "'"@ + crate::statement::spec_statement_kind_name(&error->ArgumentError_0)@ + "'"@)
            + ": "@ + error->ArgumentError_1@,
        error is RecursionError ==> line@ == "["@ + "Recursion Error"@ + "] Error"@ + ": "@
            + error->RecursionError_0@,
{
    match error {
        LoxError::ParseError(token, msg) => {
            let line_digits = digits_string(token.line as u64);
            if token.token_type == TokenType::End {
                report(line_digits, " at end", msg.as_str())
            } else {
                let at = quoted(" at ", token.lexeme.as_str());
                report(line_digits, at.as_str(), msg.as_str())
            }
        },
        LoxError::RuntimeError(expr, msg) => {
            let at = quoted(" in ", crate::expr::expr_kind_name(expr));
            report(String::from_str("Runtime Error"), at.as_str(), msg.as_str())
        },
        LoxError::ValueError(value, msg) => {
            let shown = display_value(value, objects, host);
            let at = quoted(" for ", shown.as_str());
            report(String::from_str("Value Error"), at.as_str(), msg.as_str())
        },
        LoxError::CompilerBug(stmt, msg) => {
            let at = quoted(" in ", crate::statement::statement_kind_name(stmt));
            report(String::from_str("Compiler Bug"), at.as_str(), msg.as_str())
        },
        LoxError::NameError(name, msg) => {
            let at = quoted(" for ", name.as_str());
            report(String::from_str("Name Error"), at.as_str(), msg.as_str())
        },
        LoxError::ArgumentError(site, msg) => {
            let at = quoted(" in ", crate::statement::statement_kind_name(site));
            report(String::from_str("Argument Error"), at.as_str(), msg.as_str())
        },
        LoxError::RecursionError(msg) => {
            let line = report(String::from_str("Recursion Error"), "", msg.as_str());
            proof {
                reveal_strlit("");
                assert(line@ =~= "["@ + "Recursion Error"@ + "] Error"@ + ": "@ + msg@);
            }
            line
        },
    }
}

/// The token stream of exactly `print` of one literal: the end-to-end
/// theorem on `run_tokens` is stated for it.
pub open spec fn print_literal_program(tokens: Seq<Token>) -> bool {
    &&& tokens.len() >= 4
    &&& tokens[0].token_type == TokenType::Print
    &&& is_literal_kind(tokens[1].token_type)
    &&& tokens[1].literal is Some
    &&& tokens[2].token_type == TokenType::Semicolon
    &&& tokens[3].token_type == TokenType::End
}

/// What one run of a program produced: its printed output, its error
/// reports, and the process status code, one code per error category.
pub struct RunOutcome {
    /// One entry per executed `print`.
    pub output: Vec<String>,
    /// One report line per error.
    pub reports: Vec<String>,
    /// `0` on success, else the failing category's code.
    pub code: i32,
}

/// Runs a program given as a token stream against an environment and an
/// evaluation state, which a shell can carry from one input to the next.
/// A program with syntax errors is reported in batch and never evaluated;
/// a runtime error ends the run with the output produced so far.
pub fn run_tokens<H: Host>(
    tokens: Vec<Token>,
    env: &mut Environment,
    state: &mut EvalState,
    host: &H,
    fuel: u64,
) -> (r: RunOutcome)
    requires
        tokens@.len() >= 1,
        tokens@.last().token_type == TokenType::End,
        old(state).output@.len() == 0,
    ensures
        old(state).objects@.len() <= final(state).objects@.len(),
        final(state).output@.len() == 0,
        r.code == 0 <==> r.reports@.len() == 0,
        0 <= r.code <= 7,
        r.code == 1 ==> final(env)@ == old(env)@ && final(state).objects@ == old(
            state,
        ).objects@ && r.output@.len() == 0 && r.reports@.len() >= 1,
        tokens@[0].token_type == TokenType::End ==> r.code == 0 && r.output@.len() == 0
            && final(state).objects@ == old(state).objects@ && final(env)@ == old(env)@,
{
    let mut parser = Parser::new(tokens);
    let parse_results = parser.parse();
    match to_statements(parse_results) {
        Ok(stmts) => {
            let run_result = interpret(&stmts, env, state, host, fuel);
            let mut output: Vec<String> = Vec::new();
            core::mem::swap(&mut output, &mut state.output);
            match run_result {
                Ok(_) => RunOutcome { output, reports: Vec::new(), code: 0 },
                Err(err) => {
                    let mut reports: Vec<String> = Vec::new();
                    reports.push(report_error_line(&err, &state.objects, host));
                    let code = error_code(&err);
                    RunOutcome { output, reports, code }
                },
            }
        },
        Err(errors) => {
            // Only parse errors can arise at this stage.
            let mut reports: Vec<String> = Vec::new();
            let n = errors.len();
            let mut i: usize = 0;
            while i < n
                invariant
                    n == errors@.len(),
                    n >= 1,
                    0 <= i <= n,
                    reports@.len() == i,
                decreases n - i,
            {
                reports.push(report_error_line(&errors[i], &state.objects, host));
                i += 1;
            }
            RunOutcome { output: Vec::new(), reports, code: 1 }
        },
    }
}

} // verus!
