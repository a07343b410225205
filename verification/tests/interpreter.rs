//! End-to-end tests: programs are tokenized here, then parsed and
//! evaluated by the library against a host backed by real doubles.

use lox_rs::environment::Environment;
use lox_rs::error_code;
use lox_rs::expr::Expr;
use lox_rs::host::Host;
use lox_rs::interpret::{interpret, EvalState, Flow};
use lox_rs::ops::eval_unary;
use lox_rs::run_tokens;
use lox_rs::statement::Statement;
use lox_rs::throw;
use lox_rs::token::Token;
use lox_rs::token_type::TokenType;
use lox_rs::value::Value;
use lox_rs::LoxError;
use lox_rs::RunOutcome;

/// A host computing with real IEEE 754 doubles and a fixed clock.
struct TestHost {
    clock: f64,
}

impl TestHost {
    fn new() -> TestHost {
        TestHost { clock: 1234.5 }
    }
}

impl Host for TestHost {
    fn float_add(&self, a: u64, b: u64) -> u64 {
        (f64::from_bits(a) + f64::from_bits(b)).to_bits()
    }
    fn float_sub(&self, a: u64, b: u64) -> u64 {
        (f64::from_bits(a) - f64::from_bits(b)).to_bits()
    }
    fn float_mul(&self, a: u64, b: u64) -> u64 {
        (f64::from_bits(a) * f64::from_bits(b)).to_bits()
    }
    fn float_div(&self, a: u64, b: u64) -> u64 {
        (f64::from_bits(a) / f64::from_bits(b)).to_bits()
    }
    fn float_rem(&self, a: u64, b: u64) -> u64 {
        (f64::from_bits(a) % f64::from_bits(b)).to_bits()
    }
    fn float_lt(&self, a: u64, b: u64) -> bool {
        f64::from_bits(a) < f64::from_bits(b)
    }
    fn float_le(&self, a: u64, b: u64) -> bool {
        f64::from_bits(a) <= f64::from_bits(b)
    }
    fn float_gt(&self, a: u64, b: u64) -> bool {
        f64::from_bits(a) > f64::from_bits(b)
    }
    fn float_ge(&self, a: u64, b: u64) -> bool {
        f64::from_bits(a) >= f64::from_bits(b)
    }
    fn float_eq(&self, a: u64, b: u64) -> bool {
        f64::from_bits(a) == f64::from_bits(b)
    }
    fn float_of_int(&self, n: i64) -> u64 {
        (n as f64).to_bits()
    }
    fn float_display(&self, bits: u64) -> String {
        format!("{}", f64::from_bits(bits))
    }
    fn clock_millis(&self) -> u64 {
        self.clock.to_bits()
    }
}

fn keyword(word: &str) -> Option<TokenType> {
    match word {
        "and" => Some(TokenType::And),
        "class" => Some(TokenType::Class),
        "else" => Some(TokenType::Else),
        "false" => Some(TokenType::False),
        "fun" => Some(TokenType::Fun),
        "for" => Some(TokenType::For),
        "if" => Some(TokenType::If),
        "nil" => Some(TokenType::Nil),
        "or" => Some(TokenType::Or),
        "print" => Some(TokenType::Print),
        "return" => Some(TokenType::Return),
        "super" => Some(TokenType::Super),
        "this" => Some(TokenType::This),
        "true" => Some(TokenType::True),
        "var" => Some(TokenType::Var),
        "while" => Some(TokenType::While),
        _ => None,
    }
}

/// A scanner for the tests: source text to an end-terminated token stream.
fn scan(source: &str) -> Vec<Token> {
    let chars: Vec<char> = source.chars().collect();
    let mut tokens: Vec<Token> = Vec::new();
    let mut i = 0usize;
    let mut line = 1usize;
    while i < chars.len() {
        let c = chars[i];
        let simple = move |tt: TokenType, text: &str| Token::new(tt, text.to_string(), None, line);
        match c {
            '(' => tokens.push(simple(TokenType::LeftParen, "(")),
            ')' => tokens.push(simple(TokenType::RightParen, ")")),
            '{' => tokens.push(simple(TokenType::LeftBrace, "{")),
            '}' => tokens.push(simple(TokenType::RightBrace, "}")),
            ',' => tokens.push(simple(TokenType::Comma, ",")),
            '.' => tokens.push(simple(TokenType::Dot, ".")),
            '-' => tokens.push(simple(TokenType::Minus, "-")),
            '+' => tokens.push(simple(TokenType::Plus, "+")),
            ';' => tokens.push(simple(TokenType::Semicolon, ";")),
            '*' => tokens.push(simple(TokenType::Asterisk, "*")),
            '%' => tokens.push(simple(TokenType::Mod, "%")),
            '/' => {
                if i + 1 < chars.len() && chars[i + 1] == '/' {
                    while i < chars.len() && chars[i] != '\n' {
                        i += 1;
                    }
                    continue;
                }
                tokens.push(simple(TokenType::Slash, "/"));
            }
            '!' | '=' | '<' | '>' => {
                let two = i + 1 < chars.len() && chars[i + 1] == '=';
                let (tt, text) = match (c, two) {
                    ('!', true) => (TokenType::NotEqual, "!="),
                    ('!', false) => (TokenType::Not, "!"),
                    ('=', true) => (TokenType::EqualEqual, "=="),
                    ('=', false) => (TokenType::Equal, "="),
                    ('<', true) => (TokenType::LessEqual, "<="),
                    ('<', false) => (TokenType::Less, "<"),
                    (_, true) => (TokenType::GreaterEqual, ">="),
                    (_, false) => (TokenType::Greater, ">"),
                };
                tokens.push(simple(tt, text));
                if two {
                    i += 1;
                }
            }
            ' ' | '\r' | '\t' => {}
            '\n' => line += 1,
            '"' => {
                let start = i + 1;
                let mut j = start;
                while j < chars.len() && chars[j] != '"' {
                    if chars[j] == '\n' {
                        line += 1;
                    }
                    j += 1;
                }
                let text: String = chars[start..j].iter().collect();
                tokens.push(Token::new(
                    TokenType::Str,
                    format!("\"{}\"", text),
                    Some(Value::Str(text)),
                    line,
                ));
                i = j;
            }
            _ => {
                if c.is_ascii_digit() {
                    let start = i;
                    let mut j = i;
                    while j < chars.len() && chars[j].is_ascii_digit() {
                        j += 1;
                    }
                    let mut is_float = false;
                    if j < chars.len() && chars[j] == '.' {
                        is_float = true;
                        j += 1;
                        while j < chars.len() && chars[j].is_ascii_digit() {
                            j += 1;
                        }
                    }
                    let text: String = chars[start..j].iter().collect();
                    let token = if is_float {
                        let value: f64 = text.parse().unwrap();
                        Token::new(
                            TokenType::Float,
                            text,
                            Some(Value::Float(value.to_bits())),
                            line,
                        )
                    } else {
                        let value: i64 = text.parse().unwrap();
                        Token::new(TokenType::Int, text, Some(Value::Int(value)), line)
                    };
                    tokens.push(token);
                    i = j - 1;
                } else if c.is_alphabetic() || c == '_' {
                    let start = i;
                    let mut j = i;
                    while j < chars.len() && (chars[j].is_alphanumeric() || chars[j] == '_') {
                        j += 1;
                    }
                    let text: String = chars[start..j].iter().collect();
                    let tt = keyword(&text).unwrap_or(TokenType::Identifier);
                    tokens.push(Token::new(tt, text, None, line));
                    i = j - 1;
                } else {
                    panic!("test scanner: unexpected character {:?}", c);
                }
            }
        }
        i += 1;
    }
    tokens.push(Token::new(TokenType::End, String::new(), None, line));
    tokens
}

const FUEL: u64 = 1_000_000;

/// Runs a program from source against fresh state.
fn run(source: &str) -> RunOutcome {
    let mut env = Environment::new();
    let mut state = EvalState::new();
    let host = TestHost::new();
    run_tokens(scan(source), &mut env, &mut state, &host, FUEL)
}

/// The printed output of a program that must succeed.
fn output_of(source: &str) -> Vec<String> {
    let outcome = run(source);
    assert_eq!(outcome.code, 0, "unexpected failure: {:?}", outcome.reports);
    outcome.output
}

#[test]
fn block_propagation() {
    assert_eq!(output_of("{ var x = 1; { x = 2; } print x; }"), vec!["2"]);
}

#[test]
fn block_shadowing() {
    assert_eq!(output_of("{ var x = 1; { var x = 2; } print x; }"), vec!["1"]);
}

#[test]
fn deep_block_propagation() {
    assert_eq!(
        output_of("var x = 1; { { { x = 7; } } } print x;"),
        vec!["7"]
    );
}

#[test]
fn promotion_int_int() {
    assert_eq!(output_of("print 1 + 2;"), vec!["3"]);
}

#[test]
fn promotion_int_float() {
    assert_eq!(output_of("print 1 + 2.0;"), vec!["3"]);
}

#[test]
fn float_arithmetic() {
    assert_eq!(
        output_of("print 1.5 + 2.25; print 10.0 / 4.0; print -1.5; print 7.5 % 2.0;"),
        vec!["3.75", "2.5", "-1.5", "1.5"]
    );
}

#[test]
fn float_comparison() {
    assert_eq!(
        output_of("print 2 < 1.5; print 1.5 <= 1.5; print 2.0 > 1; print 1.0 == 1;"),
        vec!["false", "true", "true", "true"]
    );
}

#[test]
fn concatenation() {
    assert_eq!(output_of("print \"a\" + \"b\";"), vec!["ab"]);
}

#[test]
fn concatenation_stringifies() {
    assert_eq!(
        output_of("print \"a\" + 1; print 2 + \"b\"; print \"x\" + true; print \"pi=\" + 3.5;"),
        vec!["a1", "2b", "xtrue", "pi=3.5"]
    );
}

#[test]
fn equality() {
    assert_eq!(
        output_of("print nil == nil; print 1 == \"1\"; print 1 != 2; print \"a\" == \"a\";"),
        vec!["true", "false", "true", "true"]
    );
}

#[test]
fn comparing_nil_is_a_value_error() {
    let outcome = run("print 1 < nil;");
    assert_eq!(outcome.code, 3);
    assert!(outcome.output.is_empty());
    assert_eq!(outcome.reports.len(), 1);
    assert!(outcome.reports[0].contains("Not a number."));
}

#[test]
fn closures_retain_captured_locals() {
    let source = "\
fun outer() { var kept = 10; fun inner() { return kept; } return inner; }
var f = outer();
print f();
print f();";
    assert_eq!(output_of(source), vec!["10", "10"]);
}

#[test]
fn classes_and_methods() {
    let source = "class A { greet() { return \"hi\"; } } var a = A(); print a.greet();";
    assert_eq!(output_of(source), vec!["hi"]);
}

#[test]
fn undefined_property_is_a_name_error() {
    let outcome = run("class A { } var a = A(); print a.missing;");
    assert_eq!(outcome.code, 5);
    assert!(outcome.output.is_empty());
    assert!(outcome.reports[0].contains("Undefined property missing"));
}

#[test]
fn arity_error_skips_the_body() {
    let outcome = run("fun f(x) { print \"ran\"; return x; } f(1, 2);");
    assert_eq!(outcome.code, 6);
    assert!(outcome.output.is_empty(), "closure body must never execute");
    assert!(outcome.reports[0].contains("Invalid arity for function."));
}

#[test]
fn constructor_takes_no_arguments() {
    let outcome = run("class A { } var a = A(1);");
    assert_eq!(outcome.code, 6);
    assert!(outcome.reports[0].contains("Invalid arity for constructor."));
}

#[test]
fn parser_batches_independent_errors() {
    let outcome = run("print 1\nprint 2");
    assert_eq!(outcome.code, 1);
    assert_eq!(outcome.reports.len(), 2, "exactly two parse errors");
    assert!(outcome.output.is_empty(), "no interpretation may be attempted");
    assert!(outcome.reports[0].contains("Expect ';' after value."));
    assert!(outcome.reports[1].contains("Expect ';' after value."));
    assert!(outcome.reports[0].contains("at 'print'"));
    assert!(outcome.reports[1].contains("at end"));
}

#[test]
fn determinism_on_fresh_environments() {
    let source = "\
var acc = \"\";
fun tag(n) { return \"<\" + n + \">\"; }
for (var i = 0; i < 4; i = i + 1) { acc = acc + tag(i); }
print acc;
print 6 * 7 - 2;
print 1.25 + 2.5;";
    let first = run(source);
    let second = run(source);
    assert_eq!(first.code, 0);
    assert_eq!(first.output, second.output);
    assert_eq!(first.code, second.code);
    assert_eq!(first.output, vec!["<0><1><2><3>", "40", "3.75"]);
}

#[test]
fn integer_division_truncates() {
    assert_eq!(
        output_of("print 7 / 2; print 0 - 7; print 7 % 3; print 9 / 3;"),
        vec!["3", "-7", "1", "3"]
    );
}

#[test]
fn integer_arithmetic_wraps() {
    assert_eq!(
        output_of("print 9223372036854775807 + 1;"),
        vec!["-9223372036854775808"]
    );
}

#[test]
fn division_by_zero_is_reported() {
    let outcome = run("print 1 / 0;");
    assert_eq!(outcome.code, 3);
    assert!(outcome.reports[0].contains("Division by zero."));
}

#[test]
fn logical_operators_evaluate_eagerly() {
    let okay = run("print true or false; print true and false;");
    assert_eq!(okay.code, 0);
    assert_eq!(okay.output, vec!["true", "false"]);
    // Both operands are always evaluated, so an undefined right operand
    // fails even when the left already decides the answer.
    let eager = run("print true or missing;");
    assert_eq!(eager.code, 5);
}

#[test]
fn only_booleans_and_nil_have_truthiness() {
    let outcome = run("if (1) print 1;");
    assert_eq!(outcome.code, 3);
    assert!(outcome.reports[0].contains("Value has no truthiness!"));
    assert_eq!(output_of("if (nil) print 1; else print 2;"), vec!["2"]);
}

#[test]
fn while_loops() {
    assert_eq!(
        output_of("var i = 0; while (i < 3) i = i + 1; print i;"),
        vec!["3"]
    );
}

#[test]
fn for_loops_desugar_to_while() {
    assert_eq!(
        output_of("for (var i = 0; i < 3; i = i + 1) print i;"),
        vec!["0", "1", "2"]
    );
}

#[test]
fn return_threads_through_nested_blocks_and_loops() {
    assert_eq!(
        output_of("fun f() { while (true) { return 42; } } print f();"),
        vec!["42"]
    );
}

#[test]
fn returning_nil_still_short_circuits() {
    assert_eq!(
        output_of("fun g() { { return nil; } print 1; } g(); print 2;"),
        vec!["2"]
    );
}

#[test]
fn precedence_and_grouping() {
    assert_eq!(
        output_of("print 1 + 2 * 3; print (1 + 2) * 3; print 2 * 3 % 4;"),
        vec!["7", "9", "2"]
    );
}

#[test]
fn unary_operators() {
    assert_eq!(
        output_of("print -5; print !true; print !false; print - -3;"),
        vec!["-5", "false", "true", "3"]
    );
}

#[test]
fn undefined_variable_is_a_name_error() {
    let outcome = run("print missing;");
    assert_eq!(outcome.code, 5);
    assert!(outcome.reports[0].contains("Undefined variable."));
}

#[test]
fn invalid_assignment_target() {
    let outcome = run("1 = 2;");
    assert_eq!(outcome.code, 1);
    assert!(outcome.reports[0].contains("Invalid assignment target."));
}

#[test]
fn runaway_recursion_exhausts_the_budget() {
    let mut env = Environment::new();
    let mut state = EvalState::new();
    let host = TestHost::new();
    let outcome = run_tokens(
        scan("fun f() { return f(); } f();"),
        &mut env,
        &mut state,
        &host,
        500,
    );
    assert_eq!(outcome.code, 7);
    assert!(outcome.reports[0].contains("Evaluation budget exhausted."));
}

#[test]
fn clock_native_comes_from_the_host() {
    assert_eq!(output_of("print clock();"), vec!["1234.5"]);
}

#[test]
fn environment_persists_across_runs() {
    let mut env = Environment::new();
    let mut state = EvalState::new();
    let host = TestHost::new();
    let first = run_tokens(scan("var x = 41;"), &mut env, &mut state, &host, FUEL);
    assert_eq!(first.code, 0);
    let second = run_tokens(scan("print x + 1;"), &mut env, &mut state, &host, FUEL);
    assert_eq!(second.code, 0);
    assert_eq!(second.output, vec!["42"]);
}

#[test]
fn instances_persist_across_runs() {
    let mut env = Environment::new();
    let mut state = EvalState::new();
    let host = TestHost::new();
    let first = run_tokens(
        scan("class A { greet() { return \"hi\"; } } var a = A();"),
        &mut env,
        &mut state,
        &host,
        FUEL,
    );
    assert_eq!(first.code, 0);
    let second = run_tokens(scan("print a.greet();"), &mut env, &mut state, &host, FUEL);
    assert_eq!(second.code, 0);
    assert_eq!(second.output, vec!["hi"]);
}

fn ident(name: &str) -> Token {
    Token::new(TokenType::Identifier, name.to_string(), None, 1)
}

#[test]
fn field_writes_are_per_instance() {
    // Field assignment has no surface syntax, so the tree is built by hand:
    // class P {} var a = P(); var b = P(); a.x = 1; print a.x; print b.x;
    let program = vec![
        Statement::Class(ident("P"), Box::new(Vec::new())),
        Statement::Var(
            ident("a"),
            Some(Expr::Call(
                Box::new(Expr::Variable(ident("P"))),
                Box::new(Vec::new()),
            )),
        ),
        Statement::Var(
            ident("b"),
            Some(Expr::Call(
                Box::new(Expr::Variable(ident("P"))),
                Box::new(Vec::new()),
            )),
        ),
        Statement::Expression(Expr::SetProperty(
            Box::new(Expr::Variable(ident("a"))),
            ident("x"),
            Box::new(Expr::Literal(Value::Int(1))),
        )),
        Statement::Print(Expr::Get(Box::new(Expr::Variable(ident("a"))), ident("x"))),
        Statement::Print(Expr::Get(Box::new(Expr::Variable(ident("b"))), ident("x"))),
    ];
    let mut env = Environment::new();
    let mut state = EvalState::new();
    let host = TestHost::new();
    let result = interpret(&program, &mut env, &mut state, &host, FUEL);
    // Reading x on the untouched instance is the name error; a.x printed 1.
    assert_eq!(state.output, vec!["1"]);
    match result {
        Err(LoxError::NameError(name, _)) => assert_eq!(name, "x"),
        other => panic!("expected a name error, got {:?}", other.is_ok()),
    }
}

#[test]
fn this_binds_to_the_receiver() {
    // `this.n` reads an instance field; the field is written by hand below,
    // since field assignment has no surface syntax.
    let mut env = Environment::new();
    let mut state = EvalState::new();
    let host = TestHost::new();
    let first = run_tokens(
        scan("class Counter { label() { return \"n=\" + this.n; } } var c = Counter();"),
        &mut env,
        &mut state,
        &host,
        FUEL,
    );
    assert_eq!(first.code, 0, "{:?}", first.reports);
    let set_field = vec![Statement::Expression(Expr::SetProperty(
        Box::new(Expr::Variable(ident("c"))),
        ident("n"),
        Box::new(Expr::Literal(Value::Int(9))),
    ))];
    let set_result = interpret(&set_field, &mut env, &mut state, &host, FUEL);
    assert!(matches!(set_result, Ok(Flow::Continue)));
    let second = run_tokens(scan("print c.label();"), &mut env, &mut state, &host, FUEL);
    assert_eq!(second.code, 0, "{:?}", second.reports);
    assert_eq!(second.output, vec!["n=9"]);
}

#[test]
fn bad_unary_operator_is_a_compiler_bug() {
    let result = eval_unary(TokenType::Plus, Value::Int(1));
    match result {
        Err(LoxError::CompilerBug(_, msg)) => {
            assert!(msg.contains("Unary operator was created with invalid token type"))
        }
        other => panic!("expected a compiler bug, got {:?}", other.is_ok()),
    }
}

#[test]
fn throw_formats_a_report_line() {
    assert_eq!(throw("1".to_string(), "Unexpected character."), "[1] Error: Unexpected character.");
}

#[test]
fn error_codes_by_category() {
    let token = ident("x");
    assert_eq!(error_code(&LoxError::ParseError(token, "m".to_string())), 1);
    assert_eq!(
        error_code(&LoxError::ValueError(Value::Nil, "m".to_string())),
        3
    );
    assert_eq!(
        error_code(&LoxError::NameError("x".to_string(), "m".to_string())),
        5
    );
    assert_eq!(error_code(&LoxError::RecursionError("m".to_string())), 7);
}

#[test]
fn nil_prints_as_empty_and_names_print_as_themselves() {
    assert_eq!(output_of("print nil; fun f() {} print f; class C {} print C;"), vec![
        "", "f", "C"
    ]);
}

#[test]
fn empty_program_runs_silently() {
    let outcome = run("");
    assert_eq!(outcome.code, 0);
    assert!(outcome.output.is_empty());
    assert!(outcome.reports.is_empty());
}

#[test]
fn string_equality_is_by_contents() {
    assert_eq!(
        output_of("var a = \"ab\"; var b = \"a\" + \"b\"; print a == b; print a != b;"),
        vec!["true", "false"]
    );
}
