//! A denotation for the read-only expression fragment.
//!
//! Expressions built from literals, variables, grouping, unary and binary
//! operators and logical connectives neither print, nor allocate, nor
//! write any binding. For them the evaluator's result is pinned by a
//! mathematical function of the expression, the environment tables and
//! the budget — up to the bit patterns the host chooses for float
//! operations, and up to which `String` carries a given character
//! sequence. Determinism of the fragment follows.

use crate::environment::EnvModel;
use crate::expr::Expr;
use crate::object::LoxObject;
use crate::statement::Statement;
use crate::token_type::TokenType;
use crate::value::{spec_callable_name, spec_int_display, Value};
use crate::ops::{
    is_arith_kind, is_compare_kind, is_equality_kind, spec_equal_outcome, spec_int_arith,
    spec_int_cmp, spec_wrap_neg, EqOutcome,
};
use crate::LoxError;
use vstd::prelude::*;

verus! {

/// A value up to string identity: strings by their characters, everything
/// else exactly.
pub ghost enum ValueModel {
    Text(Seq<char>),
    Exact(Value),
}

/// The abstraction of a value.
pub open spec fn abs(v: Value) -> ValueModel {
    match v {
        Value::Str(s) => ValueModel::Text(s@),
        other => ValueModel::Exact(other),
    }
}

/// What evaluating a fragment expression comes to.
pub ghost enum Outcome {
    /// A value.
    Done(ValueModel),
    /// A value error: offending value and message.
    BadValue(ValueModel, Seq<char>),
    /// A name-resolution error: identifier and message.
    BadName(Seq<char>, Seq<char>),
    /// An interpreter bug was reported.
    Bug,
    /// The evaluation budget ran out.
    Spent,
    /// The result involves a host float operation and is not modelled.
    Hosted,
}

/// Whether an expression lies in the read-only fragment: no assignment,
/// no call, no property access.
pub open spec fn in_fragment(e: Expr) -> bool
    decreases e,
{
    match e {
        Expr::Literal(_) => true,
        Expr::Variable(_) => true,
        Expr::Grouping(sub) => in_fragment(*sub),
        Expr::Unary(_, sub) => in_fragment(*sub),
        Expr::Binary(l, _, r) => in_fragment(*l) && in_fragment(*r),
        Expr::Logical(l, _, r) => in_fragment(*l) && in_fragment(*r),
        _ => false,
    }
}

/// The denotation of a unary operator.
pub open spec fn unary_model(op: TokenType, v: ValueModel) -> Outcome {
    if op == TokenType::Minus {
        match v {
            ValueModel::Exact(Value::Int(n)) => Outcome::Done(
                ValueModel::Exact(Value::Int(spec_wrap_neg(n))),
            ),
            ValueModel::Exact(Value::Float(bits)) => Outcome::Done(
                ValueModel::Exact(Value::Float(bits ^ 0x8000_0000_0000_0000u64)),
            ),
            _ => Outcome::BadValue(v, "Negation operator cannot be used here."@),
        }
    } else if op == TokenType::Not {
        match v {
            ValueModel::Exact(Value::Bool(b)) => Outcome::Done(
                ValueModel::Exact(Value::Bool(!b)),
            ),
            _ => Outcome::BadValue(v, "Not operator cannot be used here."@),
        }
    } else {
        Outcome::Bug
    }
}

/// The truthiness of a value, or the error it raises.
pub open spec fn truth_model(v: ValueModel) -> Result<bool, Outcome> {
    match v {
        ValueModel::Exact(Value::Bool(b)) => Ok(b),
        ValueModel::Exact(Value::Nil) => Ok(false),
        _ => Err(Outcome::BadValue(v, "Value has no truthiness!"@)),
    }
}

/// The display a value contributes when concatenated to a string; `None`
/// for a float, whose display the host supplies.
pub open spec fn concat_piece(v: ValueModel) -> Option<Seq<char>> {
    match v {
        ValueModel::Text(s) => Some(s),
        ValueModel::Exact(Value::Int(n)) => Some(spec_int_display(n as int)),
        ValueModel::Exact(Value::Bool(b)) => Some(
            if b {
                "true"@
            } else {
                "false"@
            },
        ),
        _ => None,
    }
}

/// Whether the abstracted value is numeric.
pub open spec fn is_numeric(v: ValueModel) -> bool {
    v matches ValueModel::Exact(u) && (u is Int || u is Float)
}

/// Whether the abstracted value is a float.
pub open spec fn is_float_model(v: ValueModel) -> bool {
    v matches ValueModel::Exact(u) && u is Float
}

/// The denotation of a binary operator.
pub open spec fn binary_model(op: TokenType, a: ValueModel, b: ValueModel) -> Outcome {
    if op == TokenType::Plus {
        match (a, b) {
            (ValueModel::Exact(Value::Int(x)), ValueModel::Exact(Value::Int(y))) => Outcome::Done(
                ValueModel::Exact(Value::Int(vstd::wrapping::i64_specs::wrapping_add(x, y))),
            ),
            (ValueModel::Exact(Value::Int(x)), ValueModel::Text(s)) => Outcome::Done(
                ValueModel::Text(spec_int_display(x as int) + s),
            ),
            (ValueModel::Exact(Value::Bool(x)), ValueModel::Text(s)) => Outcome::Done(
                ValueModel::Text(
                    (if x {
                        "true"@
                    } else {
                        "false"@
                    }) + s,
                ),
            ),
            (ValueModel::Text(s), ValueModel::Text(t)) => Outcome::Done(ValueModel::Text(s + t)),
            (ValueModel::Text(s), ValueModel::Exact(Value::Int(y))) => Outcome::Done(
                ValueModel::Text(s + spec_int_display(y as int)),
            ),
            (ValueModel::Text(s), ValueModel::Exact(Value::Bool(y))) => Outcome::Done(
                ValueModel::Text(
                    s + (if y {
                        "true"@
                    } else {
                        "false"@
                    }),
                ),
            ),
            _ => {
                if is_numeric(a) && is_numeric(b) && (is_float_model(a) || is_float_model(b)) {
                    Outcome::Hosted
                } else if is_float_model(a) && b is Text || a is Text && is_float_model(b) {
                    Outcome::Hosted
                } else if is_numeric(a) {
                    Outcome::BadValue(b, "Not a number."@)
                } else if a matches ValueModel::Exact(Value::Bool(_)) {
                    Outcome::BadValue(b, "Not a string."@)
                } else if a is Text {
                    Outcome::BadValue(b, "Value cannot be concatenated to a string."@)
                } else {
                    Outcome::BadValue(a, "Not a number."@)
                }
            },
        }
    } else if is_arith_kind(op) {
        match (a, b) {
            (ValueModel::Exact(Value::Int(x)), ValueModel::Exact(Value::Int(y))) => {
                if (op == TokenType::Slash || op == TokenType::Mod) && y == 0i64 {
                    Outcome::BadValue(b, "Division by zero."@)
                } else {
                    Outcome::Done(ValueModel::Exact(Value::Int(spec_int_arith(op, x, y))))
                }
            },
            _ => {
                if is_numeric(a) && is_numeric(b) {
                    Outcome::Hosted
                } else if is_numeric(a) {
                    Outcome::BadValue(b, "Not a number."@)
                } else {
                    Outcome::BadValue(a, "Not a number."@)
                }
            },
        }
    } else if is_compare_kind(op) {
        match (a, b) {
            (ValueModel::Exact(Value::Int(x)), ValueModel::Exact(Value::Int(y))) => Outcome::Done(
                ValueModel::Exact(Value::Bool(spec_int_cmp(op, x, y))),
            ),
            _ => {
                if is_numeric(a) && is_numeric(b) {
                    Outcome::Hosted
                } else {
                    Outcome::BadValue(b, "Not a number."@)
                }
            },
        }
    } else if is_equality_kind(op) {
        match (a, b) {
            (ValueModel::Exact(x), ValueModel::Exact(y)) => {
                match spec_equal_outcome(x, y) {
                    EqOutcome::Known(eq) => Outcome::Done(
                        ValueModel::Exact(
                            Value::Bool(
                                if op == TokenType::NotEqual {
                                    !eq
                                } else {
                                    eq
                                },
                            ),
                        ),
                    ),
                    EqOutcome::HostNumeric => Outcome::Hosted,
                    EqOutcome::NotComparable => Outcome::BadValue(a, "Value is not comparable."@),
                }
            },
            (ValueModel::Text(s), ValueModel::Text(t)) => Outcome::Done(
                ValueModel::Exact(
                    Value::Bool(
                        if op == TokenType::NotEqual {
                            s != t
                        } else {
                            s == t
                        },
                    ),
                ),
            ),
            _ => Outcome::Done(ValueModel::Exact(Value::Bool(op == TokenType::NotEqual))),
        }
    } else {
        Outcome::BadValue(a, "Does not have an interpretable value."@)
    }
}

/// The denotation of a fragment expression against the given binding
/// tables and budget.
pub open spec fn expr_model(
    e: Expr,
    locals: Map<Seq<char>, Value>,
    globals: Map<Seq<char>, Value>,
    fuel: nat,
) -> Outcome
    decreases fuel,
{
    if fuel == 0 {
        Outcome::Spent
    } else {
        match e {
            Expr::Literal(v) => Outcome::Done(abs(v)),
            Expr::Variable(name) => {
                if locals.dom().contains(name.lexeme@) {
                    Outcome::Done(abs(locals[name.lexeme@]))
                } else if globals.dom().contains(name.lexeme@) {
                    Outcome::Done(abs(globals[name.lexeme@]))
                } else {
                    Outcome::BadName(name.lexeme@, "Undefined variable."@)
                }
            },
            Expr::Grouping(sub) => expr_model(*sub, locals, globals, (fuel - 1) as nat),
            Expr::Unary(op, sub) => {
                match expr_model(*sub, locals, globals, (fuel - 1) as nat) {
                    Outcome::Done(v) => unary_model(op.token_type, v),
                    other => other,
                }
            },
            Expr::Binary(l, op, r) => {
                match expr_model(*l, locals, globals, (fuel - 1) as nat) {
                    Outcome::Done(a) => match expr_model(*r, locals, globals, (fuel - 1) as nat) {
                        Outcome::Done(b) => binary_model(op.token_type, a, b),
                        other => other,
                    },
                    other => other,
                }
            },
            Expr::Logical(l, op, r) => {
                if op.token_type == TokenType::And || op.token_type == TokenType::Or {
                    match expr_model(*l, locals, globals, (fuel - 1) as nat) {
                        Outcome::Done(a) => match expr_model(
                            *r,
                            locals,
                            globals,
                            (fuel - 1) as nat,
                        ) {
                            Outcome::Done(b) => match truth_model(a) {
                                Ok(ta) => match truth_model(b) {
                                    Ok(tb) => Outcome::Done(
                                        ValueModel::Exact(
                                            Value::Bool(
                                                if op.token_type == TokenType::And {
                                                    ta && tb
                                                } else {
                                                    ta || tb
                                                },
                                            ),
                                        ),
                                    ),
                                    Err(bad) => bad,
                                },
                                Err(bad) => bad,
                            },
                            other => other,
                        },
                        other => other,
                    }
                } else {
                    Outcome::Bug
                }
            },
            _ => Outcome::Hosted,
        }
    }
}

/// Whether `res` is a result the outcome `o` allows.
pub open spec fn outcome_matches(o: Outcome, res: Result<Value, LoxError>) -> bool {
    match o {
        Outcome::Done(vm) => res matches Ok(v) && abs(v) == vm,
        Outcome::BadValue(vm, m) => res matches Err(LoxError::ValueError(v, ms)) && abs(v) == vm
            && ms@ == m,
        Outcome::BadName(n, m) => res matches Err(LoxError::NameError(nn, mm)) && nn@ == n && mm@
            == m,
        Outcome::Bug => res matches Err(LoxError::CompilerBug(_, _)),
        Outcome::Spent => res matches Err(LoxError::RecursionError(_)),
        Outcome::Hosted => true,
    }
}

/// Whether a name can be assigned: it is bound in the locals or globals.
pub open spec fn assign_defined(e: EnvModel, k: Seq<char>) -> bool {
    e.locals.dom().contains(k) || e.globals.dom().contains(k)
}

/// The environment after a successful assignment of `v` to `k`, exactly
/// as `Environment::assign` describes it: a bound local is updated, with
/// the write recorded as pending when a block did not declare the name
/// itself; a globals-only name is shadowed locally inside a block and
/// updated in place at top level; an unbound name leaves everything
/// unchanged (the assignment errors).
pub open spec fn assign_env_model(e: EnvModel, k: Seq<char>, v: Value) -> EnvModel {
    if e.locals.dom().contains(k) {
        EnvModel {
            locals: e.locals.insert(k, v),
            assignments: if e.is_block_env && !e.declared_here_in_block.contains(k) {
                e.assignments.insert(k, v)
            } else {
                e.assignments
            },
            ..e
        }
    } else if e.globals.dom().contains(k) {
        if e.is_block_env {
            EnvModel { locals: e.locals.insert(k, v), ..e }
        } else {
            EnvModel { globals: e.globals.insert(k, v), ..e }
        }
    } else {
        e
    }
}

/// The environment after declaring `k` as `v`, exactly as
/// `Environment::define_local` describes it.
pub open spec fn declare_env_model(e: EnvModel, k: Seq<char>, v: Value) -> EnvModel {
    EnvModel {
        locals: e.locals.insert(k, v),
        declared_here_in_block: if e.is_block_env {
            e.declared_here_in_block.insert(k)
        } else {
            e.declared_here_in_block
        },
        ..e
    }
}

/// Whether a statement returns a variable reference.
pub open spec fn is_return_variable(s: Statement) -> bool {
    s matches Statement::Return(e) && e is Variable
}

/// The name a return-of-a-variable statement reads.
pub open spec fn return_variable_name(s: Statement) -> Seq<char> {
    match s {
        Statement::Return(Expr::Variable(t)) => t.lexeme@,
        _ => Seq::empty(),
    }
}

/// Whether a statement returns a literal.
pub open spec fn is_return_literal(s: Statement) -> bool {
    s matches Statement::Return(e) && e is Literal
}

/// The value a return-of-a-literal statement returns.
pub open spec fn return_literal_value(s: Statement) -> Value {
    match s {
        Statement::Return(Expr::Literal(v)) => v,
        _ => Value::Nil,
    }
}

/// Whether a statement is a bare assignment of a literal.
pub open spec fn is_assign_literal_stmt(s: Statement) -> bool {
    s matches Statement::Expression(e) && e matches Expr::Assign(_, sub) && (*sub) is Literal
}

/// The name such an assignment writes.
pub open spec fn assign_stmt_name(s: Statement) -> Seq<char> {
    match s {
        Statement::Expression(Expr::Assign(t, _)) => t.lexeme@,
        _ => Seq::empty(),
    }
}

/// The literal value such an assignment writes.
pub open spec fn assign_stmt_value(s: Statement) -> Value {
    match s {
        Statement::Expression(Expr::Assign(_, sub)) => match *sub {
            Expr::Literal(v) => v,
            _ => Value::Nil,
        },
        _ => Value::Nil,
    }
}

/// Whether a statement declares a variable with a literal initializer.
pub open spec fn is_var_literal_stmt(s: Statement) -> bool {
    s matches Statement::Var(_, init) && has_literal_initializer(init)
}

/// The name such a declaration binds.
pub open spec fn var_stmt_name(s: Statement) -> Seq<char> {
    match s {
        Statement::Var(t, _) => t.lexeme@,
        _ => Seq::empty(),
    }
}

/// The literal value such a declaration binds.
pub open spec fn var_stmt_value(s: Statement) -> Value {
    match s {
        Statement::Var(_, init) => literal_initializer_value(init),
        _ => Value::Nil,
    }
}

/// Whether a declaration initializer is a literal expression.
pub open spec fn has_literal_initializer(init: Option<Expr>) -> bool {
    init matches Some(e) && e is Literal
}

/// The value of a literal initializer.
pub open spec fn literal_initializer_value(init: Option<Expr>) -> Value {
    match init {
        Some(Expr::Literal(v)) => v,
        _ => Value::Nil,
    }
}

/// The display form a modelled value contributes to the output or to a
/// concatenation; `None` for a float, whose display the host supplies.
pub open spec fn display_model(vm: ValueModel, objects: Seq<LoxObject>) -> Option<Seq<char>> {
    match vm {
        ValueModel::Text(s) => Some(s),
        ValueModel::Exact(v) => match v {
            Value::Str(s) => Some(s@),
            Value::Int(n) => Some(spec_int_display(n as int)),
            Value::Bool(b) => Some(
                if b {
                    "true"@
                } else {
                    "false"@
                },
            ),
            Value::Nil => Some(Seq::<char>::empty()),
            Value::Callable(c) => Some(spec_callable_name(*c)),
            Value::Class(c) => Some(c.name@),
            Value::Instance(h) => Some(
                if h < objects.len() {
                    "Instance of "@ + objects[h as int].class.name@
                } else {
                    "Instance"@
                },
            ),
            Value::Float(_) => None,
        },
    }
}

/// A display the evaluator produced matches the display denotation.
pub proof fn lemma_display_model(v: Value, objects: Seq<LoxObject>, out: Seq<char>)
    requires
        crate::ops::display_post(v, objects, out),
    ensures
        display_model(abs(v), objects) matches Some(line) ==> out == line,
{
}

/// Whether executing `print` of an expression with outcome `o` turns the
/// output `out0` into `out1` and yields `res`.
pub open spec fn print_step_matches(
    o: Outcome,
    objects: Seq<LoxObject>,
    out0: Seq<String>,
    out1: Seq<String>,
    res: Result<crate::interpret::Flow, LoxError>,
) -> bool {
    match o {
        Outcome::Done(vm) => {
            &&& res == Ok::<crate::interpret::Flow, LoxError>(crate::interpret::Flow::Continue)
            &&& out1.len() == out0.len() + 1
            &&& out1.drop_last() == out0
            &&& (display_model(vm, objects) matches Some(line) ==> out1.last()@ == line)
        },
        Outcome::Hosted => true,
        _ => out1 == out0 && res is Err && outcome_matches(o, Err::<Value, LoxError>(res->Err_0)),
    }
}

/// Whether executing `return` of an expression with outcome `o` yields
/// `res`.
pub open spec fn return_step_matches(
    o: Outcome,
    res: Result<crate::interpret::Flow, LoxError>,
) -> bool {
    match o {
        Outcome::Done(vm) => res matches Ok(f) && f matches crate::interpret::Flow::Returned(v)
            && abs(v) == vm,
        Outcome::Hosted => true,
        _ => res is Err && outcome_matches(o, Err::<Value, LoxError>(res->Err_0)),
    }
}

/// A result of a unary operator matches the operator's denotation.
pub proof fn lemma_unary_matches(op: TokenType, v: Value, res: Result<Value, LoxError>)
    requires
        crate::ops::unary_post(op, v, res),
    ensures
        outcome_matches(unary_model(op, abs(v)), res),
{
}

/// A result of a binary operator matches the operator's denotation.
pub proof fn lemma_binary_matches(op: TokenType, l: Value, r: Value, res: Result<Value, LoxError>)
    requires
        crate::ops::binary_post(op, l, r, res),
    ensures
        outcome_matches(binary_model(op, abs(l), abs(r)), res),
{
}

/// A truthiness result matches the truthiness denotation.
pub proof fn lemma_truth_matches(v: Value, res: Result<bool, LoxError>)
    requires
        crate::ops::truth_post(v, res),
    ensures
        truth_model(abs(v)) matches Ok(b) ==> res == Ok::<bool, LoxError>(b),
        truth_model(abs(v)) matches Err(o) ==> res is Err && outcome_matches(
            o,
            Err(res->Err_0),
        ),
{
}

/// Law (determinism of the read-only fragment): whenever an expression's
/// denotation is modelled — it touches no host float operation — any two
/// results the evaluator may give for it succeed or fail alike, with
/// indistinguishable values and indistinguishable errors.
pub proof fn law_fragment_determinism(
    o: Outcome,
    res1: Result<Value, LoxError>,
    res2: Result<Value, LoxError>,
)
    requires
        o != Outcome::Hosted,
        outcome_matches(o, res1),
        outcome_matches(o, res2),
    ensures
        res1 is Ok <==> res2 is Ok,
        res1 is Ok && res2 is Ok ==> crate::ops::value_equiv(res1->Ok_0, res2->Ok_0),
        res1 is Err && res1->Err_0 is ValueError ==> res2->Err_0 is ValueError
            && crate::ops::value_equiv(res1->Err_0->ValueError_0, res2->Err_0->ValueError_0)
            && res1->Err_0->ValueError_1@ == res2->Err_0->ValueError_1@,
        res1 is Err && res1->Err_0 is NameError ==> res2->Err_0 is NameError
            && res1->Err_0->NameError_0@ == res2->Err_0->NameError_0@,
{
}

} // verus!
