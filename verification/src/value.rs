//! Runtime values.

use crate::class::LoxClass;
use crate::environment::Environment;
use crate::expr::Expr;
use crate::statement::Statement;
use crate::token::Token;
use crate::token_type::TokenType;
use std::rc::Rc;
use vstd::prelude::*;

verus! {

/// The built-in host functions of the standard library.
#[derive(Copy, Clone, PartialEq, Eq, Structural, Debug)]
pub enum NativeFn {
    /// The wall clock, in milliseconds, as a `Float`.
    Clock,
}

/// A callable value: a native function or a user closure.
pub enum LoxCallable {
    /// A native function: display name, which host function it runs, and its
    /// arity.
    Native(String, NativeFn, usize),
    /// A closure: function name, parameter tokens, body, and the captured
    /// environment snapshot.
    Closure(String, Rc<Vec<Token>>, Rc<Vec<Statement>>, Rc<Environment>),
}

/// A runtime value.
///
/// A `Float` carries the 64-bit pattern of an IEEE 754 double; the host
/// trait computes with such patterns. An `Instance` is a handle into the
/// interpreter's object arena, so that every copy of the value names the
/// same mutable field table. A `Class` is shared by reference: all
/// instances of a class see one descriptor.
pub enum Value {
    Str(String),
    Int(i64),
    Float(u64),
    Bool(bool),
    Callable(Box<LoxCallable>),
    Class(Rc<LoxClass>),
    Instance(usize),
    Nil,
}

/// An equal copy of a value.
pub fn clone_value(v: &Value) -> (r: Value)
    ensures
        r == *v,
    decreases v,
{
    match v {
        Value::Str(s) => Value::Str(s.clone()),
        Value::Int(n) => Value::Int(*n),
        Value::Float(bits) => Value::Float(*bits),
        Value::Bool(b) => Value::Bool(*b),
        Value::Callable(c) => Value::Callable(Box::new(clone_callable(&**c))),
        Value::Class(c) => Value::Class(c.clone()),
        Value::Instance(handle) => Value::Instance(*handle),
        Value::Nil => Value::Nil,
    }
}

/// An equal copy of a callable.
pub fn clone_callable(c: &LoxCallable) -> (r: LoxCallable)
    ensures
        r == *c,
    decreases c,
{
    match c {
        LoxCallable::Native(name, f, arity) => LoxCallable::Native(name.clone(), *f, *arity),
        LoxCallable::Closure(name, params, body, env) => LoxCallable::Closure(
            name.clone(),
            params.clone(),
            body.clone(),
            env.clone(),
        ),
    }
}

/// The number of arguments a callable requires.
pub open spec fn spec_arity(c: LoxCallable) -> nat {
    match c {
        LoxCallable::Native(_, _, arity) => arity as nat,
        LoxCallable::Closure(_, params, _, _) => params@.len(),
    }
}

/// The display name of a callable.
pub open spec fn spec_callable_name(c: LoxCallable) -> Seq<char> {
    match c {
        LoxCallable::Native(name, _, _) => name@,
        LoxCallable::Closure(name, _, _, _) => name@,
    }
}

/// Whether `bound` is `method` rebound for a property access: the same
/// closure, but with `this` defined as the instance `this_handle` in its
/// captured environment.
pub open spec fn is_bound_method(method: LoxCallable, bound: LoxCallable, this_handle: usize) -> bool {
    &&& method matches LoxCallable::Closure(name, params, body, env)
    &&& bound matches LoxCallable::Closure(bound_name, bound_params, bound_body, bound_env)
    &&& bound_name == name
    &&& bound_params == params
    &&& bound_body == body
    &&& bound_env@.locals == env@.locals.insert("this"@, Value::Instance(this_handle))
    &&& bound_env@.globals == env@.globals
    &&& bound_env@.assignments == env@.assignments
    &&& bound_env@.is_block_env == env@.is_block_env
    &&& bound_env@.declared_here_in_block == if env@.is_block_env {
        env@.declared_here_in_block.insert("this"@)
    } else {
        env@.declared_here_in_block
    }
}

impl LoxCallable {
    /// Whether the argument list matches this callable's arity.
    pub fn check_arity(&self, other: &Vec<Expr>) -> (r: bool)
        ensures
            r == (spec_arity(*self) == other@.len()),
    {
        match self {
            LoxCallable::Native(_, _, arity) => *arity == other.len(),
            LoxCallable::Closure(_, params, _, _) => params.len() == other.len(),
        }
    }

    /// An identifier token naming the callable, used in diagnostics.
    pub fn get_name(&self) -> (t: Token)
        ensures
            t.token_type == TokenType::Identifier,
            t.lexeme@ == spec_callable_name(*self),
            t.literal == None::<Value>,
            t.line == 0,
    {
        match self {
            LoxCallable::Native(name, _, _) => Token::new(
                TokenType::Identifier,
                name.clone(),
                None,
                0,
            ),
            LoxCallable::Closure(name, _, _, _) => Token::new(
                TokenType::Identifier,
                name.clone(),
                None,
                0,
            ),
        }
    }

    /// The closure rebound for a property access: its captured environment
    /// additionally defines `this` as the given instance.
    pub fn bind(&self, this_handle: usize) -> (r: Self)
        requires
            self is Closure,
        ensures
            is_bound_method(*self, r, this_handle),
    {
        match self {
            LoxCallable::Closure(name, params, body, env) => {
                let mut bound_env = Environment::clone_env(&**env);
                bound_env.define_local(String::from_str("this"), Value::Instance(this_handle));
                LoxCallable::Closure(name.clone(), params.clone(), body.clone(), Rc::new(bound_env))
            },
            LoxCallable::Native(_, _, _) => {
                proof {
                    assert(false);
                }
                clone_callable(self)
            },
        }
    }
}

/// The decimal digit for `d`.
pub open spec fn digit_char(d: int) -> char {
    if d == 0 {
        '0'
    } else if d == 1 {
        '1'
    } else if d == 2 {
        '2'
    } else if d == 3 {
        '3'
    } else if d == 4 {
        '4'
    } else if d == 5 {
        '5'
    } else if d == 6 {
        '6'
    } else if d == 7 {
        '7'
    } else if d == 8 {
        '8'
    } else {
        '9'
    }
}

/// The decimal digits of a nonnegative integer.
pub open spec fn spec_digits(n: int) -> Seq<char>
    decreases n,
{
    if n < 10 {
        seq![digit_char(n)]
    } else {
        spec_digits(n / 10).push(digit_char(n % 10))
    }
}

/// The decimal display of an integer, with a leading minus when negative.
pub open spec fn spec_int_display(n: int) -> Seq<char> {
    if n < 0 {
        seq!['-'] + spec_digits(-n)
    } else {
        spec_digits(n)
    }
}

/// The single-character string for decimal digit `d`.
fn digit_str(d: u64) -> (r: &'static str)
    requires
        0 <= d < 10,
    ensures
        r@ == seq![digit_char(d as int)],
{
    proof {
        reveal_strlit("0");
        reveal_strlit("1");
        reveal_strlit("2");
        reveal_strlit("3");
        reveal_strlit("4");
        reveal_strlit("5");
        reveal_strlit("6");
        reveal_strlit("7");
        reveal_strlit("8");
        reveal_strlit("9");
    }
    let r = if d == 0 {
        "0"
    } else if d == 1 {
        "1"
    } else if d == 2 {
        "2"
    } else if d == 3 {
        "3"
    } else if d == 4 {
        "4"
    } else if d == 5 {
        "5"
    } else if d == 6 {
        "6"
    } else if d == 7 {
        "7"
    } else if d == 8 {
        "8"
    } else {
        "9"
    };
    proof {
        assert(r@ =~= seq![digit_char(d as int)]);
    }
    r
}

/// The decimal digits of `mag`.
pub fn digits_string(mag: u64) -> (r: String)
    ensures
        r@ == spec_digits(mag as int),
    decreases mag,
{
    if mag < 10 {
        String::from_str(digit_str(mag))
    } else {
        let mut s = digits_string(mag / 10);
        s.append(digit_str(mag % 10));
        proof {
            assert(s@ =~= spec_digits(mag as int));
        }
        s
    }
}

/// The decimal display of `n`.
pub fn int_to_string(n: i64) -> (r: String)
    ensures
        r@ == spec_int_display(n as int),
{
    if n >= 0 {
        digits_string(n as u64)
    } else {
        let wide: i128 = n as i128;
        let mag: u64 = (-wide) as u64;
        let mut s = String::from_str("-");
        s.append(digits_string(mag).as_str());
        proof {
            reveal_strlit("-");
            assert(s@ =~= spec_int_display(n as int));
        }
        s
    }
}

/// The display of a boolean: `true` or `false`.
pub fn bool_to_string(b: bool) -> (r: String)
    ensures
        b ==> r@ == "true"@,
        !b ==> r@ == "false"@,
{
    if b {
        String::from_str("true")
    } else {
        String::from_str("false")
    }
}

} // verus!
