//! The value operations of the evaluator: arithmetic, concatenation,
//! comparison, equality, truthiness, and display.
//!
//! Each operation has a specification predicate that pins its result for
//! every pair of operands; only the bit patterns that float operations
//! hand back are left to the host. Integer arithmetic wraps, as the
//! hardware's two's complement does.

use crate::host::Host;
use crate::value::{
    bool_to_string, int_to_string, spec_callable_name, spec_int_display, LoxCallable, Value,
};
use crate::expr::Expr;
use crate::object::LoxObject;
use crate::statement::Statement;
use crate::token_type::{token_type_name, TokenType};
use crate::LoxError;
use vstd::prelude::*;

verus! {

/// Whether `t` is one of the arithmetic operators `- * / %`.
pub open spec fn is_arith_kind(t: TokenType) -> bool {
    t == TokenType::Minus || t == TokenType::Slash || t == TokenType::Asterisk || t
        == TokenType::Mod
}

/// Whether `t` is one of the comparison operators `< <= > >=`.
pub open spec fn is_compare_kind(t: TokenType) -> bool {
    t == TokenType::Greater || t == TokenType::GreaterEqual || t == TokenType::Less || t
        == TokenType::LessEqual
}

/// Whether `t` is `==` or `!=`.
pub open spec fn is_equality_kind(t: TokenType) -> bool {
    t == TokenType::EqualEqual || t == TokenType::NotEqual
}

/// Whether `res` is exactly the value error carrying `v` and `msg`.
pub open spec fn value_error_with(res: Result<Value, LoxError>, v: Value, msg: Seq<char>) -> bool {
    res matches Err(LoxError::ValueError(ev, em)) && ev == v && em@ == msg
}

/// The magnitude of a machine integer.
pub open spec fn spec_abs(a: i64) -> int {
    if a < 0 {
        -(a as int)
    } else {
        a as int
    }
}

/// Truncated division, wrapping on the one overflowing case.
pub open spec fn spec_trunc_div(a: i64, b: i64) -> i64 {
    let q = spec_abs(a) / spec_abs(b);
    if (a < 0) != (b < 0) {
        (-q) as i64
    } else if q > i64::MAX as int {
        i64::MIN
    } else {
        q as i64
    }
}

/// Truncated remainder: the sign follows the dividend.
pub open spec fn spec_trunc_rem(a: i64, b: i64) -> i64 {
    let m = spec_abs(a) % spec_abs(b);
    if a < 0 {
        (-m) as i64
    } else {
        m as i64
    }
}

/// Wrapping negation.
pub open spec fn spec_wrap_neg(n: i64) -> i64 {
    if n == i64::MIN {
        i64::MIN
    } else {
        (-(n as int)) as i64
    }
}

/// The integer result of an arithmetic operator, wrapping on overflow.
pub open spec fn spec_int_arith(op: TokenType, a: i64, b: i64) -> i64 {
    if op == TokenType::Minus {
        vstd::wrapping::i64_specs::wrapping_sub(a, b)
    } else if op == TokenType::Asterisk {
        vstd::wrapping::i64_specs::wrapping_mul(a, b)
    } else if op == TokenType::Slash {
        spec_trunc_div(a, b)
    } else {
        spec_trunc_rem(a, b)
    }
}

/// The boolean result of a comparison operator on integers.
pub open spec fn spec_int_cmp(op: TokenType, a: i64, b: i64) -> bool {
    if op == TokenType::Greater {
        a > b
    } else if op == TokenType::GreaterEqual {
        a >= b
    } else if op == TokenType::Less {
        a < b
    } else {
        a <= b
    }
}

/// What `==` on a pair of values amounts to.
pub ghost enum EqOutcome {
    /// Equality is decided by the values alone.
    Known(bool),
    /// A numeric pair with a float: the host decides.
    HostNumeric,
    /// The left operand does not support equality.
    NotComparable,
}

/// Classifies equality: same-type values compare by value, numeric pairs
/// promote through the host, any cross-type pair is `false`, and callables,
/// classes and instances are not comparable.
pub open spec fn spec_equal_outcome(l: Value, r: Value) -> EqOutcome {
    match l {
        Value::Str(a) => match r {
            Value::Str(b) => EqOutcome::Known(a@ == b@),
            Value::Callable(_) | Value::Class(_) | Value::Instance(_) => EqOutcome::Known(false),
            _ => EqOutcome::Known(false),
        },
        Value::Int(a) => match r {
            Value::Int(b) => EqOutcome::Known(a == b),
            Value::Float(_) => EqOutcome::HostNumeric,
            _ => EqOutcome::Known(false),
        },
        Value::Float(_) => match r {
            Value::Int(_) | Value::Float(_) => EqOutcome::HostNumeric,
            _ => EqOutcome::Known(false),
        },
        Value::Bool(a) => match r {
            Value::Bool(b) => EqOutcome::Known(a == b),
            _ => EqOutcome::Known(false),
        },
        Value::Nil => match r {
            Value::Nil => EqOutcome::Known(true),
            _ => EqOutcome::Known(false),
        },
        Value::Callable(_) => match r {
            Value::Callable(_) => EqOutcome::NotComparable,
            _ => EqOutcome::Known(false),
        },
        Value::Class(_) => match r {
            Value::Class(_) => EqOutcome::NotComparable,
            _ => EqOutcome::Known(false),
        },
        Value::Instance(_) => match r {
            Value::Instance(_) => EqOutcome::NotComparable,
            _ => EqOutcome::Known(false),
        },
    }
}

/// What an arithmetic operator must produce.
pub open spec fn arith_post(
    op: TokenType,
    l: Value,
    r: Value,
    res: Result<Value, LoxError>,
) -> bool {
    match l {
        Value::Int(a) => match r {
            Value::Int(b) => if (op == TokenType::Slash || op == TokenType::Mod) && b == 0i64 {
                value_error_with(res, r, "Division by zero."@)
            } else {
                res == Ok::<Value, LoxError>(Value::Int(spec_int_arith(op, a, b)))
            },
            Value::Float(_) => res matches Ok(Value::Float(_)),
            _ => value_error_with(res, r, "Not a number."@),
        },
        Value::Float(_) => match r {
            Value::Int(_) | Value::Float(_) => res matches Ok(Value::Float(_)),
            _ => value_error_with(res, r, "Not a number."@),
        },
        _ => value_error_with(res, l, "Not a number."@),
    }
}

/// What `+` must produce: numeric addition with promotion, or string
/// concatenation, where numbers and booleans stringify against a string.
pub open spec fn plus_post(l: Value, r: Value, res: Result<Value, LoxError>) -> bool {
    match l {
        Value::Int(a) => match r {
            Value::Int(b) => res == Ok::<Value, LoxError>(
                Value::Int(vstd::wrapping::i64_specs::wrapping_add(a, b)),
            ),
            Value::Float(_) => res matches Ok(Value::Float(_)),
            Value::Str(s) => res matches Ok(Value::Str(out)) && out@ == spec_int_display(a as int)
                + s@,
            _ => value_error_with(res, r, "Not a number."@),
        },
        Value::Float(_) => match r {
            Value::Int(_) | Value::Float(_) => res matches Ok(Value::Float(_)),
            Value::Str(s) => res matches Ok(Value::Str(out)) && exists|d: Seq<char>|
                out@ == d + s@,
            _ => value_error_with(res, r, "Not a number."@),
        },
        Value::Bool(a) => match r {
            Value::Str(s) => res matches Ok(Value::Str(out)) && out@ == (if a {
                "true"@
            } else {
                "false"@
            }) + s@,
            _ => value_error_with(res, r, "Not a string."@),
        },
        Value::Str(s) => match r {
            Value::Int(b) => res matches Ok(Value::Str(out)) && out@ == s@ + spec_int_display(
                b as int,
            ),
            Value::Float(_) => res matches Ok(Value::Str(out)) && exists|d: Seq<char>|
                out@ == s@ + d,
            Value::Str(t) => res matches Ok(Value::Str(out)) && out@ == s@ + t@,
            Value::Bool(b) => res matches Ok(Value::Str(out)) && out@ == s@ + (if b {
                "true"@
            } else {
                "false"@
            }),
            _ => value_error_with(res, r, "Value cannot be concatenated to a string."@),
        },
        _ => value_error_with(res, l, "Not a number."@),
    }
}

/// What a comparison operator must produce: numeric only, with promotion;
/// anything else is a value error naming the right operand.
pub open spec fn compare_post(
    op: TokenType,
    l: Value,
    r: Value,
    res: Result<Value, LoxError>,
) -> bool {
    match l {
        Value::Int(a) => match r {
            Value::Int(b) => res == Ok::<Value, LoxError>(Value::Bool(spec_int_cmp(op, a, b))),
            Value::Float(_) => res matches Ok(Value::Bool(_)),
            _ => value_error_with(res, r, "Not a number."@),
        },
        Value::Float(_) => match r {
            Value::Int(_) | Value::Float(_) => res matches Ok(Value::Bool(_)),
            _ => value_error_with(res, r, "Not a number."@),
        },
        _ => value_error_with(res, r, "Not a number."@),
    }
}

/// What `==` or `!=` must produce.
pub open spec fn equal_post(
    op: TokenType,
    l: Value,
    r: Value,
    res: Result<Value, LoxError>,
) -> bool {
    match spec_equal_outcome(l, r) {
        EqOutcome::Known(b) => res == Ok::<Value, LoxError>(
            Value::Bool(if op == TokenType::NotEqual {
                !b
            } else {
                b
            }),
        ),
        EqOutcome::HostNumeric => res matches Ok(Value::Bool(_)),
        EqOutcome::NotComparable => value_error_with(res, l, "Value is not comparable."@),
    }
}

/// What a binary operator must produce.
pub open spec fn binary_post(
    op: TokenType,
    l: Value,
    r: Value,
    res: Result<Value, LoxError>,
) -> bool {
    if op == TokenType::Plus {
        plus_post(l, r, res)
    } else if is_arith_kind(op) {
        arith_post(op, l, r, res)
    } else if is_compare_kind(op) {
        compare_post(op, l, r, res)
    } else if is_equality_kind(op) {
        equal_post(op, l, r, res)
    } else {
        value_error_with(res, l, "Does not have an interpretable value."@)
    }
}

/// Wrapping negation of a machine integer.
fn wrap_neg(n: i64) -> (r: i64)
    ensures
        r == spec_wrap_neg(n),
{
    if n == i64::MIN {
        i64::MIN
    } else {
        -n
    }
}

/// The magnitude of `a` as an unsigned integer.
fn abs_u64(a: i64) -> (r: u64)
    ensures
        r as int == spec_abs(a),
{
    if a >= 0 {
        a as u64
    } else {
        let wide: i128 = a as i128;
        (-wide) as u64
    }
}

/// Truncated division, wrapping on the one overflowing case.
fn trunc_div(a: i64, b: i64) -> (r: i64)
    requires
        b != 0i64,
    ensures
        r == spec_trunc_div(a, b),
{
    let ma = abs_u64(a);
    let mb = abs_u64(b);
    let mq: u64 = ma / mb;
    if (a < 0) != (b < 0) {
        let wide: i128 = mq as i128;
        (-wide) as i64
    } else if mq >= 0x8000_0000_0000_0000u64 {
        i64::MIN
    } else {
        mq as i64
    }
}

/// Truncated remainder: the sign follows the dividend.
fn trunc_rem(a: i64, b: i64) -> (r: i64)
    requires
        b != 0i64,
    ensures
        r == spec_trunc_rem(a, b),
{
    let ma = abs_u64(a);
    let mb = abs_u64(b);
    let mr: u64 = ma % mb;
    if a < 0 {
        let wide: i128 = mr as i128;
        (-wide) as i64
    } else {
        mr as i64
    }
}

/// Applies an arithmetic operator `- * / %`.
pub fn eval_arith<H: Host>(op: TokenType, left: Value, right: Value, host: &H) -> (res: Result<
    Value,
    LoxError,
>)
    requires
        is_arith_kind(op),
    ensures
        arith_post(op, left, right, res),
{
    match (left, right) {
        (Value::Int(a), Value::Int(b)) => {
            if op == TokenType::Minus {
                Ok(Value::Int(a.wrapping_sub(b)))
            } else if op == TokenType::Asterisk {
                Ok(Value::Int(a.wrapping_mul(b)))
            } else if b == 0 {
                Err(LoxError::ValueError(Value::Int(b), String::from_str("Division by zero.")))
            } else if op == TokenType::Slash {
                Ok(Value::Int(trunc_div(a, b)))
            } else {
                Ok(Value::Int(trunc_rem(a, b)))
            }
        },
        (Value::Int(a), Value::Float(rb)) => {
            let la = host.float_of_int(a);
            Ok(Value::Float(float_arith(op, la, rb, host)))
        },
        (Value::Float(la), Value::Int(b)) => {
            let rb = host.float_of_int(b);
            Ok(Value::Float(float_arith(op, la, rb, host)))
        },
        (Value::Float(la), Value::Float(rb)) => Ok(Value::Float(float_arith(op, la, rb, host))),
        (Value::Int(_), other) => Err(
            LoxError::ValueError(other, String::from_str("Not a number.")),
        ),
        (Value::Float(_), other) => Err(
            LoxError::ValueError(other, String::from_str("Not a number.")),
        ),
        (other, _) => Err(LoxError::ValueError(other, String::from_str("Not a number."))),
    }
}

/// Applies an arithmetic operator to two float bit patterns via the host.
fn float_arith<H: Host>(op: TokenType, a: u64, b: u64, host: &H) -> u64
    requires
        is_arith_kind(op),
{
    if op == TokenType::Minus {
        host.float_sub(a, b)
    } else if op == TokenType::Asterisk {
        host.float_mul(a, b)
    } else if op == TokenType::Slash {
        host.float_div(a, b)
    } else {
        host.float_rem(a, b)
    }
}

/// Applies `+`: numeric addition with promotion, or string concatenation.
pub fn eval_plus<H: Host>(left: Value, right: Value, host: &H) -> (res: Result<Value, LoxError>)
    ensures
        plus_post(left, right, res),
{
    match (left, right) {
        (Value::Int(a), Value::Int(b)) => Ok(Value::Int(a.wrapping_add(b))),
        (Value::Int(a), Value::Float(rb)) => {
            let la = host.float_of_int(a);
            Ok(Value::Float(host.float_add(la, rb)))
        },
        (Value::Int(a), Value::Str(s)) => {
            let mut out = int_to_string(a);
            out.append(s.as_str());
            Ok(Value::Str(out))
        },
        (Value::Int(_), other) => Err(
            LoxError::ValueError(other, String::from_str("Not a number.")),
        ),
        (Value::Float(la), Value::Int(b)) => {
            let rb = host.float_of_int(b);
            Ok(Value::Float(host.float_add(la, rb)))
        },
        (Value::Float(la), Value::Float(rb)) => Ok(Value::Float(host.float_add(la, rb))),
        (Value::Float(la), Value::Str(s)) => {
            let mut out = host.float_display(la);
            let ghost shown = out@;
            out.append(s.as_str());
            proof {
                assert(out@ == shown + s@);
            }
            Ok(Value::Str(out))
        },
        (Value::Float(_), other) => Err(
            LoxError::ValueError(other, String::from_str("Not a number.")),
        ),
        (Value::Bool(a), Value::Str(s)) => {
            let mut out = bool_to_string(a);
            out.append(s.as_str());
            Ok(Value::Str(out))
        },
        (Value::Bool(_), other) => Err(
            LoxError::ValueError(other, String::from_str("Not a string.")),
        ),
        (Value::Str(s), Value::Int(b)) => {
            let mut out = s;
            out.append(int_to_string(b).as_str());
            Ok(Value::Str(out))
        },
        (Value::Str(s), Value::Float(rb)) => {
            let shown = host.float_display(rb);
            let mut out = s;
            out.append(shown.as_str());
            Ok(Value::Str(out))
        },
        (Value::Str(s), Value::Str(t)) => {
            let mut out = s;
            out.append(t.as_str());
            Ok(Value::Str(out))
        },
        (Value::Str(s), Value::Bool(b)) => {
            let mut out = s;
            out.append(bool_to_string(b).as_str());
            Ok(Value::Str(out))
        },
        (Value::Str(_), other) => Err(
            LoxError::ValueError(
                other,
                String::from_str("Value cannot be concatenated to a string."),
            ),
        ),
        (other, _) => Err(LoxError::ValueError(other, String::from_str("Not a number."))),
    }
}

/// Applies a comparison operator `< <= > >=`.
pub fn eval_compare<H: Host>(op: TokenType, left: Value, right: Value, host: &H) -> (res: Result<
    Value,
    LoxError,
>)
    requires
        is_compare_kind(op),
    ensures
        compare_post(op, left, right, res),
{
    match (left, right) {
        (Value::Int(a), Value::Int(b)) => {
            let c = if op == TokenType::Greater {
                a > b
            } else if op == TokenType::GreaterEqual {
                a >= b
            } else if op == TokenType::Less {
                a < b
            } else {
                a <= b
            };
            Ok(Value::Bool(c))
        },
        (Value::Int(a), Value::Float(rb)) => {
            let la = host.float_of_int(a);
            Ok(Value::Bool(float_compare(op, la, rb, host)))
        },
        (Value::Float(la), Value::Int(b)) => {
            let rb = host.float_of_int(b);
            Ok(Value::Bool(float_compare(op, la, rb, host)))
        },
        (Value::Float(la), Value::Float(rb)) => Ok(Value::Bool(float_compare(op, la, rb, host))),
        (Value::Int(_), other) => Err(
            LoxError::ValueError(other, String::from_str("Not a number.")),
        ),
        (Value::Float(_), other) => Err(
            LoxError::ValueError(other, String::from_str("Not a number.")),
        ),
        (_, other) => Err(LoxError::ValueError(other, String::from_str("Not a number."))),
    }
}

/// Applies a comparison operator to two float bit patterns via the host.
fn float_compare<H: Host>(op: TokenType, a: u64, b: u64, host: &H) -> bool
    requires
        is_compare_kind(op),
{
    if op == TokenType::Greater {
        host.float_gt(a, b)
    } else if op == TokenType::GreaterEqual {
        host.float_ge(a, b)
    } else if op == TokenType::Less {
        host.float_lt(a, b)
    } else {
        host.float_le(a, b)
    }
}

/// Applies `==` or `!=`.
pub fn eval_equal<H: Host>(op: TokenType, left: Value, right: Value, host: &H) -> (res: Result<
    Value,
    LoxError,
>)
    requires
        is_equality_kind(op),
    ensures
        equal_post(op, left, right, res),
{
    let negate = op == TokenType::NotEqual;
    match (left, right) {
        (Value::Str(a), Value::Str(b)) => Ok(Value::Bool((a == b) != negate)),
        (Value::Str(_), _) => Ok(Value::Bool(negate)),
        (Value::Int(a), Value::Int(b)) => Ok(Value::Bool((a == b) != negate)),
        (Value::Int(a), Value::Float(rb)) => {
            let la = host.float_of_int(a);
            Ok(Value::Bool(host.float_eq(la, rb) != negate))
        },
        (Value::Int(_), _) => Ok(Value::Bool(negate)),
        (Value::Float(la), Value::Int(b)) => {
            let rb = host.float_of_int(b);
            Ok(Value::Bool(host.float_eq(la, rb) != negate))
        },
        (Value::Float(la), Value::Float(rb)) => Ok(Value::Bool(host.float_eq(la, rb) != negate)),
        (Value::Float(_), _) => Ok(Value::Bool(negate)),
        (Value::Bool(a), Value::Bool(b)) => Ok(Value::Bool((a == b) != negate)),
        (Value::Bool(_), _) => Ok(Value::Bool(negate)),
        (Value::Nil, Value::Nil) => Ok(Value::Bool(!negate)),
        (Value::Nil, _) => Ok(Value::Bool(negate)),
        (Value::Callable(c), Value::Callable(_)) => Err(
            LoxError::ValueError(
                Value::Callable(c),
                String::from_str("Value is not comparable."),
            ),
        ),
        (Value::Callable(_), _) => Ok(Value::Bool(negate)),
        (Value::Class(c), Value::Class(_)) => Err(
            LoxError::ValueError(Value::Class(c), String::from_str("Value is not comparable.")),
        ),
        (Value::Class(_), _) => Ok(Value::Bool(negate)),
        (Value::Instance(h), Value::Instance(_)) => Err(
            LoxError::ValueError(
                Value::Instance(h),
                String::from_str("Value is not comparable."),
            ),
        ),
        (Value::Instance(_), _) => Ok(Value::Bool(negate)),
    }
}

/// Applies a binary operator.
pub fn eval_binary<H: Host>(op: TokenType, left: Value, right: Value, host: &H) -> (res: Result<
    Value,
    LoxError,
>)
    ensures
        binary_post(op, left, right, res),
{
    if op == TokenType::Plus {
        eval_plus(left, right, host)
    } else if op == TokenType::Minus || op == TokenType::Slash || op == TokenType::Asterisk || op
        == TokenType::Mod {
        eval_arith(op, left, right, host)
    } else if op == TokenType::Greater || op == TokenType::GreaterEqual || op == TokenType::Less
        || op == TokenType::LessEqual {
        eval_compare(op, left, right, host)
    } else if op == TokenType::EqualEqual || op == TokenType::NotEqual {
        eval_equal(op, left, right, host)
    } else {
        Err(
            LoxError::ValueError(
                left,
                String::from_str("Does not have an interpretable value."),
            ),
        )
    }
}

/// What a unary operator must produce. Unary minus on a `Float` flips the
/// sign bit exactly, so it needs no host call.
pub open spec fn unary_post(op: TokenType, v: Value, res: Result<Value, LoxError>) -> bool {
    if op == TokenType::Minus {
        match v {
            Value::Int(n) => res == Ok::<Value, LoxError>(Value::Int(spec_wrap_neg(n))),
            Value::Float(bits) => res == Ok::<Value, LoxError>(
                Value::Float(bits ^ 0x8000_0000_0000_0000u64),
            ),
            _ => res matches Err(LoxError::ValueError(ev, em)) && ev == v && em@
                == "Negation operator cannot be used here."@,
        }
    } else if op == TokenType::Not {
        match v {
            Value::Bool(b) => res == Ok::<Value, LoxError>(Value::Bool(!b)),
            _ => res matches Err(LoxError::ValueError(ev, em)) && ev == v && em@
                == "Not operator cannot be used here."@,
        }
    } else {
        res matches Err(LoxError::CompilerBug(s, em)) && s == Statement::Expression(
            Expr::Literal(v),
        ) && em@ == "Unary operator was created with invalid token type "@
            + crate::token_type::spec_token_type_name(op)@
    }
}

/// Applies a unary operator.
pub fn eval_unary(op: TokenType, value: Value) -> (res: Result<Value, LoxError>)
    ensures
        unary_post(op, value, res),
{
    if op == TokenType::Minus {
        match value {
            Value::Int(n) => Ok(Value::Int(wrap_neg(n))),
            Value::Float(bits) => Ok(Value::Float(bits ^ 0x8000_0000_0000_0000u64)),
            other => Err(
                LoxError::ValueError(
                    other,
                    String::from_str("Negation operator cannot be used here."),
                ),
            ),
        }
    } else if op == TokenType::Not {
        match value {
            Value::Bool(b) => Ok(Value::Bool(!b)),
            other => Err(
                LoxError::ValueError(
                    other,
                    String::from_str("Not operator cannot be used here."),
                ),
            ),
        }
    } else {
        let mut msg = String::from_str("Unary operator was created with invalid token type ");
        msg.append(token_type_name(op));
        Err(LoxError::CompilerBug(Statement::Expression(Expr::Literal(value)), msg))
    }
}

/// What truthiness must produce: booleans by their value, `nil` is false,
/// and no other value has a truthiness.
pub open spec fn truth_post(v: Value, res: Result<bool, LoxError>) -> bool {
    match v {
        Value::Bool(b) => res == Ok::<bool, LoxError>(b),
        Value::Nil => res == Ok::<bool, LoxError>(false),
        _ => res matches Err(LoxError::ValueError(ev, em)) && ev == v && em@
            == "Value has no truthiness!"@,
    }
}

/// The truthiness of a value in a conditional or logical context.
pub fn get_value_truth(value: Value) -> (res: Result<bool, LoxError>)
    ensures
        truth_post(value, res),
{
    match value {
        Value::Bool(truth) => Ok(truth),
        Value::Nil => Ok(false),
        other => Err(
            LoxError::ValueError(other, String::from_str("Value has no truthiness!")),
        ),
    }
}

/// What displaying a value must produce. The display of a `Float` comes
/// from the host, so only its presence is pinned.
pub open spec fn display_post(v: Value, objects: Seq<LoxObject>, out: Seq<char>) -> bool {
    match v {
        Value::Str(s) => out == s@,
        Value::Int(n) => out == spec_int_display(n as int),
        Value::Float(_) => true,
        Value::Bool(b) => out == if b {
            "true"@
        } else {
            "false"@
        },
        Value::Nil => out == Seq::<char>::empty(),
        Value::Callable(c) => out == spec_callable_name(*c),
        Value::Class(c) => out == c.name@,
        Value::Instance(h) => if h < objects.len() {
            out == "Instance of "@ + objects[h as int].class.name@
        } else {
            out == "Instance"@
        },
    }
}

/// Whether two values cannot be told apart by a program: equal, up to the
/// character sequences inside strings.
pub open spec fn value_equiv(a: Value, b: Value) -> bool {
    match (a, b) {
        (Value::Str(x), Value::Str(y)) => x@ == y@,
        _ => a == b,
    }
}

/// Law (determinism of the value operations): away from floats, whose
/// results the host supplies, a binary operator admits exactly one
/// outcome: any two results allowed for the same operands succeed or fail
/// together, produce indistinguishable values, and report
/// indistinguishable value errors.
pub proof fn law_binary_deterministic(
    op: TokenType,
    l: Value,
    r: Value,
    res1: Result<Value, LoxError>,
    res2: Result<Value, LoxError>,
)
    requires
        !(l is Float),
        !(r is Float),
        binary_post(op, l, r, res1),
        binary_post(op, l, r, res2),
    ensures
        res1 is Ok <==> res2 is Ok,
        res1 is Ok && res2 is Ok ==> value_equiv(res1->Ok_0, res2->Ok_0),
        res1 is Err && res2 is Err && res1->Err_0 is ValueError && res2->Err_0 is ValueError
            ==> value_equiv(res1->Err_0->ValueError_0, res2->Err_0->ValueError_0)
            && res1->Err_0->ValueError_1@ == res2->Err_0->ValueError_1@,
{
}

/// Law (determinism of unary operators): a unary operator admits exactly
/// one outcome, floats included, since negating a double only flips its
/// sign bit.
pub proof fn law_unary_deterministic(
    op: TokenType,
    v: Value,
    res1: Result<Value, LoxError>,
    res2: Result<Value, LoxError>,
)
    requires
        unary_post(op, v, res1),
        unary_post(op, v, res2),
    ensures
        res1 is Ok <==> res2 is Ok,
        res1 is Ok ==> res1 == res2,
        res1 is Err && res1->Err_0 is ValueError && res2 is Err && res2->Err_0 is ValueError
            ==> res1->Err_0->ValueError_0 == res2->Err_0->ValueError_0
            && res1->Err_0->ValueError_1@ == res2->Err_0->ValueError_1@,
{
}

/// Law (determinism of truthiness): the truthiness of a value admits
/// exactly one outcome.
pub proof fn law_truth_deterministic(
    v: Value,
    res1: Result<bool, LoxError>,
    res2: Result<bool, LoxError>,
)
    requires
        truth_post(v, res1),
        truth_post(v, res2),
    ensures
        res1 is Ok <==> res2 is Ok,
        res1 is Ok ==> res1 == res2,
{
}

/// Law (determinism of display): away from floats, whose display the host
/// supplies, a value has exactly one display form against a given arena.
pub proof fn law_display_deterministic(
    v: Value,
    objects: Seq<LoxObject>,
    out1: Seq<char>,
    out2: Seq<char>,
)
    requires
        !(v is Float),
        display_post(v, objects, out1),
        display_post(v, objects, out2),
    ensures
        out1 == out2,
{
}

/// Law (promotion): an arithmetic operator on two machine integers yields
/// a machine integer, except that integer division or remainder by zero
/// is a value error; `+` on two machine integers yields their sum.
pub proof fn law_int_arithmetic(a: i64, b: i64, res: Result<Value, LoxError>)
    requires
        plus_post(Value::Int(a), Value::Int(b), res),
    ensures
        res == Ok::<Value, LoxError>(Value::Int(vstd::wrapping::i64_specs::wrapping_add(a, b))),
{
}

/// Law (promotion): an arithmetic operator or `+` applied to a numeric
/// pair with a float yields a `Float`: the integer side is promoted.
pub proof fn law_numeric_promotion(op: TokenType, l: Value, r: Value, res: Result<Value, LoxError>)
    requires
        is_arith_kind(op) && arith_post(op, l, r, res) || op == TokenType::Plus && plus_post(
            l,
            r,
            res,
        ),
        l is Float && (r is Int || r is Float) || r is Float && (l is Int || l is Float),
    ensures
        res matches Ok(Value::Float(_)),
{
}

/// Law (concatenation): `+` on two strings concatenates them; `+` of a
/// string and a machine integer, either way round, concatenates the
/// integer's decimal display.
pub proof fn law_concatenation(l: Value, r: Value, res: Result<Value, LoxError>)
    requires
        plus_post(l, r, res),
    ensures
        l is Str && r is Str ==> (res matches Ok(Value::Str(out)) && out@ == l->Str_0@
            + r->Str_0@),
        l is Str && r is Int ==> (res matches Ok(Value::Str(out)) && out@ == l->Str_0@
            + spec_int_display(r->Int_0 as int)),
        l is Int && r is Str ==> (res matches Ok(Value::Str(out)) && out@ == spec_int_display(
            l->Int_0 as int,
        ) + r->Str_0@),
{
}

/// Law (equality): `nil` equals `nil`; a cross-type comparison of an
/// integer against a string is `false`, never an error; and `!=` always
/// yields the negation of `==`.
pub proof fn law_equality(a: i64, s: Value, res_nil: Result<Value, LoxError>, res_cross: Result<
    Value,
    LoxError,
>)
    requires
        s is Str,
        equal_post(TokenType::EqualEqual, Value::Nil, Value::Nil, res_nil),
        equal_post(TokenType::EqualEqual, Value::Int(a), s, res_cross),
    ensures
        res_nil == Ok::<Value, LoxError>(Value::Bool(true)),
        res_cross == Ok::<Value, LoxError>(Value::Bool(false)),
{
}

/// Law (negated equality): for every pair whose equality is decided by
/// the values alone, `!=` yields the negation of `==`.
pub proof fn law_inequality_negates(
    l: Value,
    r: Value,
    res_eq: Result<Value, LoxError>,
    res_ne: Result<Value, LoxError>,
    b: bool,
)
    requires
        spec_equal_outcome(l, r) == EqOutcome::Known(b),
        equal_post(TokenType::EqualEqual, l, r, res_eq),
        equal_post(TokenType::NotEqual, l, r, res_ne),
    ensures
        res_eq == Ok::<Value, LoxError>(Value::Bool(b)),
        res_ne == Ok::<Value, LoxError>(Value::Bool(!b)),
{
}

/// Law (comparison is numeric only): comparing a number against `nil` is
/// a value error, not a boolean.
pub proof fn law_compare_nil(a: i64, res: Result<Value, LoxError>)
    requires
        compare_post(TokenType::Less, Value::Int(a), Value::Nil, res),
    ensures
        res matches Err(LoxError::ValueError(v, m)) && v == Value::Nil && m@ == "Not a number."@,
{
}

/// The display form of a value, as `print` shows it.
pub fn display_value<H: Host>(value: &Value, objects: &Vec<LoxObject>, host: &H) -> (out: String)
    ensures
        display_post(*value, objects@, out@),
{
    match value {
        Value::Str(s) => s.clone(),
        Value::Int(n) => int_to_string(*n),
        Value::Float(bits) => host.float_display(*bits),
        Value::Bool(b) => bool_to_string(*b),
        Value::Nil => {
            let out = String::new();
            proof {
                assert(out@ =~= Seq::<char>::empty());
            }
            out
        },
        Value::Callable(c) => {
            match &**c {
                LoxCallable::Native(name, _, _) => name.clone(),
                LoxCallable::Closure(name, _, _, _) => name.clone(),
            }
        },
        Value::Class(c) => c.name.clone(),
        Value::Instance(h) => {
            if *h < objects.len() {
                let mut out = String::from_str("Instance of ");
                out.append(objects[*h].class.name.as_str());
                out
            } else {
                String::from_str("Instance")
            }
        },
    }
}

} // verus!
