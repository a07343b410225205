//! The evaluator: a recursive tree-walk over statements and expressions.
//!
//! Every evaluating function takes a `fuel` budget and consumes one unit
//! per nested evaluation step; exhausting it reports a `RecursionError`.
//! This is the bound the interpreter puts on unbounded recursion, in place
//! of exhausting the host call stack. Printing appends to an output
//! buffer; instances live in an arena, so that every copy of an instance
//! value names the same mutable field table.

use crate::environment::{zip_bindings, Environment};
use crate::expr::Expr;
use crate::host::Host;
use crate::object::LoxObject;
use crate::ops::{display_value, eval_binary, eval_unary, get_value_truth};
use crate::semantics::{
    assign_defined, assign_env_model, assign_stmt_name, assign_stmt_value, declare_env_model,
    expr_model, has_literal_initializer, in_fragment, is_assign_literal_stmt, is_return_literal,
    is_return_variable, is_var_literal_stmt, lemma_binary_matches, lemma_display_model,
    lemma_truth_matches, lemma_unary_matches, literal_initializer_value, outcome_matches,
    print_step_matches, return_literal_value, return_step_matches, return_variable_name,
    var_stmt_name, var_stmt_value,
};
use crate::statement::Statement;
use crate::token::{clone_token, Token};
use crate::token_type::TokenType;
use crate::value::{clone_value, spec_arity, LoxCallable, NativeFn, Value};
use crate::LoxError;
use std::rc::Rc;
use vstd::prelude::*;

verus! {

/// What executing a statement yields: either no value, or a value produced
/// by `return` that propagates out through nested blocks and loops to the
/// enclosing call.
pub enum Flow {
    /// Execution goes on with the next statement.
    Continue,
    /// A `return` is threading this value out to the enclosing call.
    Returned(Value),
}

/// The mutable world of an evaluation: the instance arena and the output
/// that `print` has produced so far.
pub struct EvalState {
    /// Every instance ever constructed; `Value::Instance` holds an index
    /// into this arena.
    pub objects: Vec<LoxObject>,
    /// One entry per `print` statement executed.
    pub output: Vec<String>,
}

impl EvalState {
    /// A fresh world: no instances, no output.
    pub fn new() -> (r: Self)
        ensures
            r.objects@ == Seq::<LoxObject>::empty(),
            r.output@ == Seq::<String>::empty(),
    {
        EvalState { objects: Vec::new(), output: Vec::new() }
    }
}

/// Evaluation only ever appends output and allocates instances: `b` is `a`
/// with possibly more printed lines and more instances.
pub open spec fn state_extended(a: EvalState, b: EvalState) -> bool {
    &&& a.output@.is_prefix_of(b.output@)
    &&& a.objects@.len() <= b.objects@.len()
}

/// The message given when the evaluation budget runs out.
fn recursion_error() -> (r: LoxError)
    ensures
        r matches LoxError::RecursionError(msg) && msg@ == "Evaluation budget exhausted."@,
{
    LoxError::RecursionError(String::from_str("Evaluation budget exhausted."))
}

/// Interprets a list of statements, stopping early when one of them
/// produces a returned value.
pub fn interpret<H: Host>(
    program: &Vec<Statement>,
    env: &mut Environment,
    state: &mut EvalState,
    host: &H,
    fuel: u64,
) -> (res: Result<Flow, LoxError>)
    ensures
        state_extended(*old(state), *final(state)),
        program@.len() == 0 ==> res == Ok::<Flow, LoxError>(Flow::Continue) && *final(state)
            == *old(state) && final(env)@ == old(env)@,
        program@.len() == 1 && is_return_variable(program@[0]) && fuel >= 3 ==> ({
            &&& final(env)@ == old(env)@
            &&& *final(state) == *old(state)
            &&& old(env)@.locals.dom().contains(return_variable_name(program@[0])) ==> res
                == Ok::<Flow, LoxError>(
                Flow::Returned(old(env)@.locals[return_variable_name(program@[0])]),
            )
            &&& !old(env)@.locals.dom().contains(return_variable_name(program@[0])) && old(
                env,
            )@.globals.dom().contains(return_variable_name(program@[0])) ==> res == Ok::<
                Flow,
                LoxError,
            >(Flow::Returned(old(env)@.globals[return_variable_name(program@[0])]))
            &&& !old(env)@.locals.dom().contains(return_variable_name(program@[0])) && !old(
                env,
            )@.globals.dom().contains(return_variable_name(program@[0])) ==> (res matches Err(
                LoxError::NameError(errn, _),
            ) && errn@ == return_variable_name(program@[0]))
        }),
        program@.len() == 1 && is_return_literal(program@[0]) && fuel >= 3 ==> res == Ok::<
            Flow,
            LoxError,
        >(Flow::Returned(return_literal_value(program@[0]))),
        program@.len() == 1 && is_assign_literal_stmt(program@[0]) && fuel >= 4 ==> ({
            &&& *final(state) == *old(state)
            &&& final(env)@ == assign_env_model(
                old(env)@,
                assign_stmt_name(program@[0]),
                assign_stmt_value(program@[0]),
            )
            &&& assign_defined(old(env)@, assign_stmt_name(program@[0])) ==> res == Ok::<
                Flow,
                LoxError,
            >(Flow::Continue)
            &&& !assign_defined(old(env)@, assign_stmt_name(program@[0])) ==> res is Err
        }),
        program@.len() == 1 && is_var_literal_stmt(program@[0]) && fuel >= 4 ==> ({
            &&& res == Ok::<Flow, LoxError>(Flow::Continue)
            &&& *final(state) == *old(state)
            &&& final(env)@ == declare_env_model(
                old(env)@,
                var_stmt_name(program@[0]),
                var_stmt_value(program@[0]),
            )
        }),
        program@.len() == 1 && program@[0] is Print && in_fragment(program@[0]->Print_0) && fuel
            >= 2 ==> ({
            &&& final(env)@ == old(env)@
            &&& final(state).objects@ == old(state).objects@
            &&& print_step_matches(
                expr_model(
                    program@[0]->Print_0,
                    old(env)@.locals,
                    old(env)@.globals,
                    (fuel - 2) as nat,
                ),
                old(state).objects@,
                old(state).output@,
                final(state).output@,
                res,
            )
        }),
        res is Err ==> !(res->Err_0 is ParseError),
    decreases fuel,
{
    let n = program.len();
    let mut i: usize = 0;
    while i < n
        invariant
            n == program@.len(),
            0 <= i <= n,
            state_extended(*old(state), *state),
            n == 0 ==> *state == *old(state) && env@ == old(env)@,
            n == 1 && is_return_variable(program@[0]) && fuel >= 3 ==> i == 0 && env@ == old(
                env,
            )@ && *state == *old(state),
            n == 1 && is_return_literal(program@[0]) && fuel >= 3 ==> i == 0 && env@ == old(
                env,
            )@ && *state == *old(state),
            n == 1 && is_assign_literal_stmt(program@[0]) && fuel >= 4 ==> ((i == 0 && env@
                == old(env)@ && *state == *old(state)) || (i == 1 && assign_defined(
                old(env)@,
                assign_stmt_name(program@[0]),
            ) && env@ == assign_env_model(
                old(env)@,
                assign_stmt_name(program@[0]),
                assign_stmt_value(program@[0]),
            ) && *state == *old(state))),
            n == 1 && is_var_literal_stmt(program@[0]) && fuel >= 4 ==> ((i == 0 && env@ == old(
                env,
            )@ && *state == *old(state)) || (i == 1 && env@ == declare_env_model(
                old(env)@,
                var_stmt_name(program@[0]),
                var_stmt_value(program@[0]),
            ) && *state == *old(state))),
            n == 1 && program@[0] is Print && in_fragment(program@[0]->Print_0) && fuel >= 2
                ==> ((i == 0 && env@ == old(env)@ && *state == *old(state)) || (i == 1 && env@
                == old(env)@ && state.objects@ == old(state).objects@ && print_step_matches(
                expr_model(
                    program@[0]->Print_0,
                    old(env)@.locals,
                    old(env)@.globals,
                    (fuel - 2) as nat,
                ),
                old(state).objects@,
                old(state).output@,
                state.output@,
                Ok::<Flow, LoxError>(Flow::Continue),
            ))),
        decreases n - i,
    {
        if fuel == 0 {
            return Err(recursion_error());
        }
        let result = interpret_statement(&program[i], env, state, host, fuel - 1)?;
        match result {
            Flow::Returned(value) => {
                return Ok(Flow::Returned(value));
            },
            Flow::Continue => {},
        }
        i += 1;
    }
    Ok(Flow::Continue)
}

/// Matches and interprets each form of statement.
pub fn interpret_statement<H: Host>(
    stmt: &Statement,
    env: &mut Environment,
    state: &mut EvalState,
    host: &H,
    fuel: u64,
) -> (res: Result<Flow, LoxError>)
    ensures
        state_extended(*old(state), *final(state)),
        stmt is Print && res is Ok ==> final(state).output@.len() > old(state).output@.len(),
        stmt is Print && stmt->Print_0 is Literal && fuel >= 3 ==> res is Ok
            && final(state).output@.len() == old(state).output@.len() + 1
            && crate::ops::display_post(
            stmt->Print_0->Literal_0,
            old(state).objects@,
            final(state).output@.last()@,
        ),
        stmt is Print && in_fragment(stmt->Print_0) && fuel >= 1 ==> ({
            &&& final(env)@ == old(env)@
            &&& final(state).objects@ == old(state).objects@
            &&& print_step_matches(
                expr_model(stmt->Print_0, old(env)@.locals, old(env)@.globals, (fuel - 1) as nat),
                old(state).objects@,
                old(state).output@,
                final(state).output@,
                res,
            )
        }),
        stmt is Return && in_fragment(stmt->Return_0) && fuel >= 1 ==> ({
            &&& final(env)@ == old(env)@
            &&& *final(state) == *old(state)
            &&& return_step_matches(
                expr_model(stmt->Return_0, old(env)@.locals, old(env)@.globals, (fuel - 1) as nat),
                res,
            )
        }),
        stmt is Return && stmt->Return_0 is Variable && fuel >= 2 ==> ({
            &&& old(env)@.locals.dom().contains(stmt->Return_0->Variable_0.lexeme@) ==> res
                == Ok::<Flow, LoxError>(
                Flow::Returned(old(env)@.locals[stmt->Return_0->Variable_0.lexeme@]),
            )
            &&& !old(env)@.locals.dom().contains(stmt->Return_0->Variable_0.lexeme@) && old(
                env,
            )@.globals.dom().contains(stmt->Return_0->Variable_0.lexeme@) ==> res == Ok::<
                Flow,
                LoxError,
            >(Flow::Returned(old(env)@.globals[stmt->Return_0->Variable_0.lexeme@]))
            &&& !old(env)@.locals.dom().contains(stmt->Return_0->Variable_0.lexeme@) && !old(
                env,
            )@.globals.dom().contains(stmt->Return_0->Variable_0.lexeme@) ==> (res matches Err(
                LoxError::NameError(n, _),
            ) && n@ == stmt->Return_0->Variable_0.lexeme@)
        }),
        stmt is Return && stmt->Return_0 is Literal && fuel >= 2 ==> res == Ok::<
            Flow,
            LoxError,
        >(Flow::Returned(stmt->Return_0->Literal_0)),
        stmt is Var && has_literal_initializer(stmt->Var_1) && fuel >= 3 ==> ({
            &&& res == Ok::<Flow, LoxError>(Flow::Continue)
            &&& *final(state) == *old(state)
            &&& final(env)@ == declare_env_model(
                old(env)@,
                stmt->Var_0.lexeme@,
                literal_initializer_value(stmt->Var_1),
            )
        }),
        stmt is Expression && stmt->Expression_0 is Assign && (*stmt->Expression_0->Assign_1)
            is Literal && fuel >= 3 ==> ({
            &&& *final(state) == *old(state)
            &&& final(env)@ == assign_env_model(
                old(env)@,
                stmt->Expression_0->Assign_0.lexeme@,
                (*stmt->Expression_0->Assign_1)->Literal_0,
            )
            &&& assign_defined(old(env)@, stmt->Expression_0->Assign_0.lexeme@) ==> res == Ok::<
                Flow,
                LoxError,
            >(Flow::Continue)
            &&& !assign_defined(old(env)@, stmt->Expression_0->Assign_0.lexeme@) ==> (res
                matches Err(LoxError::NameError(n, _)) && n@
                == stmt->Expression_0->Assign_0.lexeme@)
        }),
        res is Err ==> !(res->Err_0 is ParseError),
    decreases fuel,
{
    if fuel == 0 {
        return Err(recursion_error());
    }
    match stmt {
        Statement::Block(statements) => interpret_block(statements, env, state, host, fuel - 1),
        Statement::Class(name, methods) => {
            interpret_class(name, methods, env)?;
            Ok(Flow::Continue)
        },
        Statement::FunDeclaration(name, args, body) => {
            interpret_closure(name, args, body, env)?;
            Ok(Flow::Continue)
        },
        Statement::Expression(expr) => {
            interpret_expr(expr, env, state, host, fuel - 1)?;
            Ok(Flow::Continue)
        },
        Statement::If(cond, then, els) => interpret_if(cond, then, els, env, state, host, fuel - 1),
        Statement::Print(print_expr) => {
            let value = interpret_expr(print_expr, env, state, host, fuel - 1)?;
            let line = display_value(&value, &state.objects, host);
            proof {
                lemma_display_model(value, state.objects@, line@);
            }
            let ghost out_before = state.output@;
            state.output.push(line);
            proof {
                assert(state.output@.drop_last() =~= out_before);
            }
            Ok(Flow::Continue)
        },
        Statement::Return(return_expr) => {
            let value = interpret_expr(return_expr, env, state, host, fuel - 1)?;
            Ok(Flow::Returned(value))
        },
        Statement::Var(name, initializer) => {
            interpret_declaration(name, initializer, env, state, host, fuel - 1)?;
            Ok(Flow::Continue)
        },
        Statement::While(cond, body) => interpret_while(cond, body, env, state, host, fuel - 1),
    }
}

/// Interprets a block in a fresh block environment, then merges its
/// pending assignments back into the enclosing environment. A block never
/// changes the enclosing environment's globals, its declarations, or
/// whether it is itself a block.
fn interpret_block<H: Host>(
    statements: &Vec<Statement>,
    env: &mut Environment,
    state: &mut EvalState,
    host: &H,
    fuel: u64,
) -> (res: Result<Flow, LoxError>)
    ensures
        state_extended(*old(state), *final(state)),
        final(env)@.globals == old(env)@.globals,
        final(env)@.declared_here_in_block == old(env)@.declared_here_in_block,
        final(env)@.is_block_env == old(env)@.is_block_env,
        statements@.len() == 1 && is_assign_literal_stmt(statements@[0]) && old(
            env,
        )@.locals.dom().contains(assign_stmt_name(statements@[0])) && fuel >= 5 ==> ({
            &&& res == Ok::<Flow, LoxError>(Flow::Continue)
            &&& *final(state) == *old(state)
            &&& final(env)@ == (crate::environment::EnvModel {
                locals: old(env)@.locals.insert(
                    assign_stmt_name(statements@[0]),
                    assign_stmt_value(statements@[0]),
                ),
                assignments: if old(env)@.is_block_env && !old(
                    env,
                )@.declared_here_in_block.contains(assign_stmt_name(statements@[0])) {
                    old(env)@.assignments.insert(
                        assign_stmt_name(statements@[0]),
                        assign_stmt_value(statements@[0]),
                    )
                } else {
                    old(env)@.assignments
                },
                ..old(env)@
            })
        }),
        statements@.len() == 1 && is_var_literal_stmt(statements@[0]) && fuel >= 5 ==> ({
            &&& res == Ok::<Flow, LoxError>(Flow::Continue)
            &&& *final(state) == *old(state)
            &&& final(env)@ == old(env)@
        }),
        res is Err ==> !(res->Err_0 is ParseError),
    decreases fuel,
{
    if fuel == 0 {
        return Err(recursion_error());
    }
    let mut block_env: Environment = Environment::get_block_env(env);
    let result = interpret(statements, &mut block_env, state, host, fuel - 1)?;
    let ghost merged_pending = block_env@.assignments;
    env.add_assignments(&mut block_env);
    proof {
        if statements@.len() == 1 && is_assign_literal_stmt(statements@[0]) && old(
            env,
        )@.locals.dom().contains(assign_stmt_name(statements@[0])) && fuel >= 5 {
            let k = assign_stmt_name(statements@[0]);
            let v = assign_stmt_value(statements@[0]);
            assert(merged_pending =~= Map::<Seq<char>, Value>::empty().insert(k, v));
            assert(env@ =~= (crate::environment::EnvModel {
                locals: old(env)@.locals.insert(k, v),
                assignments: if old(env)@.is_block_env && !old(
                    env,
                )@.declared_here_in_block.contains(k) {
                    old(env)@.assignments.insert(k, v)
                } else {
                    old(env)@.assignments
                },
                ..old(env)@
            }));
        }
        if statements@.len() == 1 && is_var_literal_stmt(statements@[0]) && fuel >= 5 {
            assert(merged_pending =~= Map::<Seq<char>, Value>::empty());
            assert(env@ =~= old(env)@);
        }
    }
    Ok(result)
}

/// Interprets the value of an expression.
pub fn interpret_expr<H: Host>(
    ast: &Expr,
    env: &mut Environment,
    state: &mut EvalState,
    host: &H,
    fuel: u64,
) -> (res: Result<Value, LoxError>)
    ensures
        state_extended(*old(state), *final(state)),
        ast is Literal && fuel > 0 ==> ({
            &&& res == Ok::<Value, LoxError>(ast->Literal_0)
            &&& *final(state) == *old(state)
            &&& final(env)@ == old(env)@
        }),
        ast is Variable && fuel > 0 ==> ({
            &&& *final(state) == *old(state)
            &&& final(env)@ == old(env)@
            &&& old(env)@.locals.dom().contains(ast->Variable_0.lexeme@) ==> res == Ok::<
                Value,
                LoxError,
            >(old(env)@.locals[ast->Variable_0.lexeme@])
            &&& !old(env)@.locals.dom().contains(ast->Variable_0.lexeme@) && old(
                env,
            )@.globals.dom().contains(ast->Variable_0.lexeme@) ==> res == Ok::<Value, LoxError>(
                old(env)@.globals[ast->Variable_0.lexeme@],
            )
            &&& !old(env)@.locals.dom().contains(ast->Variable_0.lexeme@) && !old(
                env,
            )@.globals.dom().contains(ast->Variable_0.lexeme@) ==> (res matches Err(
                LoxError::NameError(n, _),
            ) && n@ == ast->Variable_0.lexeme@)
        }),
        ast is Assign && res is Ok ==> res == Ok::<Value, LoxError>(Value::Nil),
        ast is Logical && res is Ok ==> res matches Ok(Value::Bool(_)),
        ast is SetProperty && res is Ok ==> res == Ok::<Value, LoxError>(Value::Nil),
        in_fragment(*ast) ==> ({
            &&& final(env)@ == old(env)@
            &&& *final(state) == *old(state)
            &&& outcome_matches(
                expr_model(*ast, old(env)@.locals, old(env)@.globals, fuel as nat),
                res,
            )
        }),
        ast is Unary && (*ast->Unary_1) is Literal && fuel >= 2 ==> crate::ops::unary_post(
            ast->Unary_0.token_type,
            (*ast->Unary_1)->Literal_0,
            res,
        ),
        ast is Binary && (*ast->Binary_0) is Literal && (*ast->Binary_2) is Literal && fuel >= 2
            ==> crate::ops::binary_post(
            ast->Binary_1.token_type,
            (*ast->Binary_0)->Literal_0,
            (*ast->Binary_2)->Literal_0,
            res,
        ),
        ast is Call && (*ast->Call_0) is Literal && fuel >= 3 ==> dispatch_post(
            (*ast->Call_0)->Literal_0,
            (*ast->Call_1)@.len(),
            *old(state),
            *final(state),
            old(env)@,
            final(env)@,
            res,
        ),
        ast is Assign && (*ast->Assign_1) is Literal && fuel >= 2 ==> ({
            &&& *final(state) == *old(state)
            &&& final(env)@ == assign_env_model(
                old(env)@,
                ast->Assign_0.lexeme@,
                (*ast->Assign_1)->Literal_0,
            )
            &&& assign_defined(old(env)@, ast->Assign_0.lexeme@) ==> res == Ok::<
                Value,
                LoxError,
            >(Value::Nil)
            &&& !assign_defined(old(env)@, ast->Assign_0.lexeme@) ==> (res matches Err(
                LoxError::NameError(n, m),
            ) && n@ == ast->Assign_0.lexeme@ && m@ == "Undefined variable "@
                + ast->Assign_0.lexeme@ + "."@)
        }),
        res is Err ==> !(res->Err_0 is ParseError),
    decreases fuel,
{
    if fuel == 0 {
        return Err(recursion_error());
    }
    match ast {
        Expr::Literal(value) => Ok(clone_value(value)),
        Expr::Grouping(expr) => interpret_expr(expr, env, state, host, fuel - 1),
        Expr::Unary(op, expr) => {
            let expr_value = interpret_expr(expr, env, state, host, fuel - 1)?;
            let ghost operand = expr_value;
            let result = eval_unary(op.token_type, expr_value);
            proof {
                lemma_unary_matches(op.token_type, operand, result);
            }
            result
        },
        Expr::Binary(left, op, right) => {
            let left_value = interpret_expr(left, env, state, host, fuel - 1)?;
            let right_value = interpret_expr(right, env, state, host, fuel - 1)?;
            let ghost lv = left_value;
            let ghost rv = right_value;
            let result = eval_binary(op.token_type, left_value, right_value, host);
            proof {
                lemma_binary_matches(op.token_type, lv, rv, result);
            }
            result
        },
        Expr::Logical(left, op, right) => {
            if op.token_type == TokenType::And || op.token_type == TokenType::Or {
                let conjunction = op.token_type == TokenType::And;
                let left_value = interpret_expr(left, env, state, host, fuel - 1)?;
                let right_value = interpret_expr(right, env, state, host, fuel - 1)?;
                let ghost lv = left_value;
                let ghost rv = right_value;
                let left_result = get_value_truth(left_value);
                proof {
                    lemma_truth_matches(lv, left_result);
                }
                let left_truth = match left_result {
                    Ok(truth) => truth,
                    Err(err) => {
                        return Err(err);
                    },
                };
                let right_result = get_value_truth(right_value);
                proof {
                    lemma_truth_matches(rv, right_result);
                }
                let right_truth = match right_result {
                    Ok(truth) => truth,
                    Err(err) => {
                        return Err(err);
                    },
                };
                if conjunction {
                    Ok(Value::Bool(left_truth && right_truth))
                } else {
                    Ok(Value::Bool(left_truth || right_truth))
                }
            } else {
                Err(
                    LoxError::CompilerBug(
                        Statement::Expression(Expr::Variable(clone_token(op))),
                        String::from_str("Invalid operator used in Expr::Logical"),
                    ),
                )
            }
        },
        Expr::Variable(name) => env.get(name),
        Expr::Assign(name, exp) => {
            let value = interpret_expr(exp, env, state, host, fuel - 1)?;
            env.assign(clone_token(name), value)?;
            Ok(Value::Nil)
        },
        Expr::Call(callee, args) => interpret_call(callee, args, env, state, host, fuel - 1),
        Expr::Get(object, property) => {
            let handle = get_object(object, env, state, host, fuel - 1)?;
            state.objects[handle].get(property, handle)
        },
        Expr::SetProperty(object, property, value) => {
            let handle = get_object(object, env, state, host, fuel - 1)?;
            let new_value = interpret_expr(value, env, state, host, fuel - 1)?;
            state.objects[handle].set(clone_token(property), new_value);
            Ok(Value::Nil)
        },
    }
}

/// Interprets an `if` statement.
fn interpret_if<H: Host>(
    cond: &Expr,
    then: &Statement,
    els: &Option<Statement>,
    env: &mut Environment,
    state: &mut EvalState,
    host: &H,
    fuel: u64,
) -> (res: Result<Flow, LoxError>)
    ensures
        state_extended(*old(state), *final(state)),
        res is Err ==> !(res->Err_0 is ParseError),
    decreases fuel,
{
    if fuel == 0 {
        return Err(recursion_error());
    }
    let cond_value = interpret_expr(cond, env, state, host, fuel - 1)?;
    if get_value_truth(cond_value)? {
        interpret_statement(then, env, state, host, fuel - 1)
    } else {
        match els {
            None => Ok(Flow::Continue),
            Some(else_case) => interpret_statement(else_case, env, state, host, fuel - 1),
        }
    }
}

/// Interprets a variable declaration and binds it in the current scope;
/// without an initializer the variable starts as `nil`.
fn interpret_declaration<H: Host>(
    name: &Token,
    initializer: &Option<Expr>,
    env: &mut Environment,
    state: &mut EvalState,
    host: &H,
    fuel: u64,
) -> (res: Result<(), LoxError>)
    ensures
        state_extended(*old(state), *final(state)),
        fuel > 0 && initializer is None ==> (res is Ok && final(env)@.locals
            == old(env)@.locals.insert(name.lexeme@, Value::Nil) && final(env)@.globals == old(
            env,
        )@.globals),
        has_literal_initializer(*initializer) && fuel >= 2 ==> ({
            &&& res is Ok
            &&& *final(state) == *old(state)
            &&& final(env)@ == declare_env_model(
                old(env)@,
                name.lexeme@,
                literal_initializer_value(*initializer),
            )
        }),
        res is Err ==> !(res->Err_0 is ParseError),
    decreases fuel,
{
    if fuel == 0 {
        return Err(recursion_error());
    }
    match initializer {
        None => {
            env.define_local(name.lexeme.clone(), Value::Nil);
            Ok(())
        },
        Some(exp) => {
            let value = interpret_expr(exp, env, state, host, fuel - 1)?;
            env.define_local(name.lexeme.clone(), value);
            Ok(())
        },
    }
}

/// Interprets a `while` loop: the condition is re-evaluated before every
/// iteration, and a returned value short-circuits the loop.
fn interpret_while<H: Host>(
    condition: &Expr,
    body: &Statement,
    env: &mut Environment,
    state: &mut EvalState,
    host: &H,
    fuel: u64,
) -> (res: Result<Flow, LoxError>)
    ensures
        state_extended(*old(state), *final(state)),
        res is Err ==> !(res->Err_0 is ParseError),
    decreases fuel,
{
    let mut f = fuel;
    loop
        invariant
            f <= fuel,
            state_extended(*old(state), *state),
        decreases f,
    {
        if f == 0 {
            return Err(recursion_error());
        }
        f = f - 1;
        let cond_value = interpret_expr(condition, env, state, host, f)?;
        if !get_value_truth(cond_value)? {
            return Ok(Flow::Continue);
        }
        let result = interpret_statement(body, env, state, host, f)?;
        match result {
            Flow::Returned(value) => {
                return Ok(Flow::Returned(value));
            },
            Flow::Continue => {},
        }
    }
}

/// Whether `c` is the closure that declaring function `name` with
/// parameters `params` and body `body` in an environment with model `e`
/// produces: it captures a block snapshot of that environment.
pub open spec fn is_declared_closure(
    c: Value,
    name: Token,
    params: Rc<Vec<Token>>,
    body: Rc<Vec<Statement>>,
    e: crate::environment::EnvModel,
) -> bool {
    &&& c matches Value::Callable(b)
    &&& *b matches LoxCallable::Closure(n, p, bd, captured)
    &&& n@ == name.lexeme@
    &&& p == params
    &&& bd == body
    &&& captured@.locals == e.locals
    &&& captured@.globals == e.globals
    &&& captured@.assignments == Map::<Seq<char>, Value>::empty()
    &&& captured@.declared_here_in_block == Set::<Seq<char>>::empty()
    &&& captured@.is_block_env
}

/// Law (closure capture): a declared closure carries its own snapshot of
/// the bindings that were visible at declaration time. Whatever later
/// happens to the declaring scope, the captured environment still maps
/// every name to the value it had then; this is why an inner function
/// returned out of an enclosing call retains the enclosing locals.
pub proof fn law_closure_snapshot(
    c: Value,
    name: Token,
    params: Rc<Vec<Token>>,
    body: Rc<Vec<Statement>>,
    declaration_env: crate::environment::EnvModel,
    captured_name: Seq<char>,
)
    requires
        is_declared_closure(c, name, params, body, declaration_env),
        declaration_env.locals.dom().contains(captured_name),
    ensures
        c matches Value::Callable(b) && *b matches LoxCallable::Closure(_, _, _, captured)
            && captured@.locals[captured_name] == declaration_env.locals[captured_name],
{
}

/// Declares a function: builds a closure capturing a snapshot of the
/// current environment and binds it, globally at top level and locally
/// inside a block.
fn interpret_closure(
    name: &Token,
    args: &Rc<Vec<Token>>,
    body: &Rc<Vec<Statement>>,
    env: &mut Environment,
) -> (res: Result<(), LoxError>)
    ensures
        res is Ok,
        !old(env)@.is_block_env ==> exists|c: Value|
            #[trigger] is_declared_closure(c, *name, *args, *body, old(env)@) && final(env)@
                == (crate::environment::EnvModel {
                globals: old(env)@.globals.insert(name.lexeme@, c),
                ..old(env)@
            }),
        old(env)@.is_block_env ==> exists|c: Value|
            #[trigger] is_declared_closure(c, *name, *args, *body, old(env)@) && final(env)@
                == (crate::environment::EnvModel {
                locals: old(env)@.locals.insert(name.lexeme@, c),
                declared_here_in_block: old(env)@.declared_here_in_block.insert(name.lexeme@),
                ..old(env)@
            }),
{
    let closure = Value::Callable(
        Box::new(
            LoxCallable::Closure(
                name.lexeme.clone(),
                args.clone(),
                body.clone(),
                Rc::new(Environment::get_block_env(env)),
            ),
        ),
    );
    let ghost c = closure;
    if env.is_global() {
        let result = env.define_global(name.lexeme.clone(), closure);
        proof {
            assert(is_declared_closure(c, *name, *args, *body, old(env)@));
            assert(final(env)@ =~= (crate::environment::EnvModel {
                globals: old(env)@.globals.insert(name.lexeme@, c),
                ..old(env)@
            }));
        }
        match result {
            Ok(()) => Ok(()),
            Err(e) => {
                proof {
                    assert(false);
                }
                Err(e)
            },
        }
    } else {
        env.define_local(name.lexeme.clone(), closure);
        proof {
            assert(is_declared_closure(c, *name, *args, *body, old(env)@));
            assert(final(env)@ =~= (crate::environment::EnvModel {
                locals: old(env)@.locals.insert(name.lexeme@, c),
                declared_here_in_block: old(env)@.declared_here_in_block.insert(name.lexeme@),
                ..old(env)@
            }));
        }
        Ok(())
    }
}

/// Interprets a call expression: evaluates the callee, validates arity
/// before any argument is evaluated, then dispatches.
fn interpret_call<H: Host>(
    callee: &Expr,
    args: &Vec<Expr>,
    env: &mut Environment,
    state: &mut EvalState,
    host: &H,
    fuel: u64,
) -> (res: Result<Value, LoxError>)
    ensures
        state_extended(*old(state), *final(state)),
        callee is Literal && fuel >= 2 ==> dispatch_post(
            callee->Literal_0,
            args@.len(),
            *old(state),
            *final(state),
            old(env)@,
            final(env)@,
            res,
        ),
        res is Err ==> !(res->Err_0 is ParseError),
    decreases fuel,
{
    if fuel == 0 {
        return Err(recursion_error());
    }
    let called = interpret_expr(callee, env, state, host, fuel - 1)?;
    dispatch_call(called, args, env, state, host, fuel - 1)
}

/// What dispatching an evaluated callee with `argc` arguments must do:
/// an arity mismatch is an argument error that runs nothing and changes
/// nothing, a class called with no arguments yields a fresh instance at
/// the next arena handle, and a value that is neither callable nor a
/// class is a value error, again changing nothing.
pub open spec fn dispatch_post(
    called: Value,
    argc: nat,
    pre_state: EvalState,
    post_state: EvalState,
    pre_env: crate::environment::EnvModel,
    post_env: crate::environment::EnvModel,
    res: Result<Value, LoxError>,
) -> bool {
    &&& (called matches Value::Callable(c) && spec_arity(*c) != argc ==> ({
        &&& res matches Err(LoxError::ArgumentError(_, msg)) && msg@
            == "Invalid arity for function."@
        &&& post_state == pre_state
        &&& post_env == pre_env
    }))
    &&& (called matches Value::Class(_) && argc != 0 ==> ({
        &&& res matches Err(LoxError::ArgumentError(_, msg)) && msg@
            == "Invalid arity for constructor."@
        &&& post_state == pre_state
        &&& post_env == pre_env
    }))
    &&& (called is Class && argc == 0 ==> ({
        &&& res == Ok::<Value, LoxError>(Value::Instance(pre_state.objects@.len() as usize))
        &&& post_state.objects@.len() == pre_state.objects@.len() + 1
        &&& called matches Value::Class(class) && post_state.objects@.last().class == class
        &&& post_state.objects@.last().fields@ == Map::<Seq<char>, Value>::empty()
        &&& post_state.output@ == pre_state.output@
        &&& post_env == pre_env
    }))
    &&& (!(called is Callable) && !(called is Class) ==> ({
        &&& res matches Err(LoxError::ValueError(v, msg)) && v == called && msg@
            == "Value is not callable!"@
        &&& post_state == pre_state
        &&& post_env == pre_env
    }))
}

/// Dispatches an evaluated callee. An arity mismatch is reported before
/// any argument is evaluated, so nothing runs and nothing changes; calling
/// a class takes no arguments and yields a fresh instance of it.
fn dispatch_call<H: Host>(
    called: Value,
    args: &Vec<Expr>,
    env: &mut Environment,
    state: &mut EvalState,
    host: &H,
    fuel: u64,
) -> (res: Result<Value, LoxError>)
    ensures
        state_extended(*old(state), *final(state)),
        fuel > 0 ==> dispatch_post(
            called,
            args@.len(),
            *old(state),
            *final(state),
            old(env)@,
            final(env)@,
            res,
        ),
        res is Err ==> !(res->Err_0 is ParseError),
    decreases fuel,
{
    if fuel == 0 {
        return Err(recursion_error());
    }
    match called {
        Value::Callable(callable) => {
            if !callable.check_arity(args) {
                return Err(
                    LoxError::ArgumentError(
                        Statement::Expression(Expr::Variable(callable.get_name())),
                        String::from_str("Invalid arity for function."),
                    ),
                );
            }
            let arg_values = interpret_args(args, env, state, host, fuel - 1)?;
            callable.call(arg_values, env, state, host, fuel - 1)
        },
        Value::Class(class) => {
            if args.len() != 0 {
                return Err(
                    LoxError::ArgumentError(
                        Statement::Expression(Expr::Variable(class.get_name_token())),
                        String::from_str("Invalid arity for constructor."),
                    ),
                );
            }
            let handle = state.objects.len();
            state.objects.push(LoxObject::new(class));
            Ok(Value::Instance(handle))
        },
        other => Err(LoxError::ValueError(other, String::from_str("Value is not callable!"))),
    }
}

/// Interprets a list of argument expressions, left to right.
fn interpret_args<H: Host>(
    args: &Vec<Expr>,
    env: &mut Environment,
    state: &mut EvalState,
    host: &H,
    fuel: u64,
) -> (res: Result<Vec<Value>, LoxError>)
    ensures
        state_extended(*old(state), *final(state)),
        res matches Ok(vals) ==> vals@.len() == args@.len(),
        res is Err ==> !(res->Err_0 is ParseError),
    decreases fuel,
{
    let mut interpreted_args: Vec<Value> = Vec::new();
    let n = args.len();
    let mut i: usize = 0;
    while i < n
        invariant
            n == args@.len(),
            0 <= i <= n,
            interpreted_args@.len() == i,
            state_extended(*old(state), *state),
        decreases n - i,
    {
        if fuel == 0 {
            return Err(recursion_error());
        }
        let value = interpret_expr(&args[i], env, state, host, fuel - 1)?;
        interpreted_args.push(value);
        i += 1;
    }
    Ok(interpreted_args)
}

impl LoxCallable {
    /// Calls the callable. A native dispatches to the host; a closure runs
    /// its body in an environment built from its parameters, its captured
    /// snapshot, and the caller's current globals, so that a closure
    /// always observes the latest global table. Arity was validated by the
    /// caller.
    pub fn call<H: Host>(
        self,
        arg_values: Vec<Value>,
        globals_env: &Environment,
        state: &mut EvalState,
        host: &H,
        fuel: u64,
    ) -> (res: Result<Value, LoxError>)
        ensures
            state_extended(*old(state), *final(state)),
            self matches LoxCallable::Native(_, f, _) && f == NativeFn::Clock && fuel > 0 ==> ({
                &&& res matches Ok(Value::Float(_))
                &&& *final(state) == *old(state)
            }),
            self matches LoxCallable::Closure(_, _, body, _) && body@.len() == 0 && fuel >= 2
                ==> (res == Ok::<Value, LoxError>(Value::Nil) && *final(state) == *old(state)),
            self is Closure && (self->Closure_2)@.len() == 1 && is_return_variable(
                (self->Closure_2)@[0],
            ) && (self->Closure_3)@.locals.dom().contains(
                return_variable_name((self->Closure_2)@[0]),
            ) && !zip_bindings((self->Closure_1)@, arg_values@).dom().contains(
                return_variable_name((self->Closure_2)@[0]),
            ) && fuel >= 4 ==> ({
                &&& res == Ok::<Value, LoxError>(
                    (self->Closure_3)@.locals[return_variable_name((self->Closure_2)@[0])],
                )
                &&& *final(state) == *old(state)
            }),
            res is Err ==> !(res->Err_0 is ParseError),
        decreases fuel,
    {
        if fuel == 0 {
            return Err(recursion_error());
        }
        match self {
            LoxCallable::Native(_, func, _) => {
                match func {
                    NativeFn::Clock => Ok(Value::Float(host.clock_millis())),
                }
            },
            LoxCallable::Closure(_, arg_names, body, captured) => {
                let args_env = Environment::build(&arg_names, &arg_values);
                let mut call_env = captured.clone_env().merge(args_env);
                call_env.add_globals(globals_env);
                let flow = interpret(&body, &mut call_env, state, host, fuel - 1)?;
                match flow {
                    Flow::Returned(value) => Ok(value),
                    Flow::Continue => Ok(Value::Nil),
                }
            },
        }
    }
}

/// A ghost description of a method: its parameter list and body.
pub ghost struct MethodSpec {
    pub params: Rc<Vec<Token>>,
    pub body: Rc<Vec<Statement>>,
}

/// The method table described by the first `n` method declarations: each
/// function declaration binds its name, later declarations winning.
pub open spec fn spec_method_table(methods: Seq<Statement>, n: int) -> Map<Seq<char>, MethodSpec>
    decreases n,
{
    if n <= 0 {
        Map::empty()
    } else {
        let rest = spec_method_table(methods, n - 1);
        match methods[n - 1] {
            Statement::FunDeclaration(name, params, body) => rest.insert(
                name.lexeme@,
                MethodSpec { params, body },
            ),
            _ => rest,
        }
    }
}

/// Whether every entry of the first `n` method declarations is a function
/// declaration.
pub open spec fn all_fun_declarations(methods: Seq<Statement>, n: int) -> bool {
    forall|i: int| 0 <= i < n ==> methods[i] is FunDeclaration
}

/// Whether `m` is a method closure as declaring a method from `spec_m` in
/// an environment with model `e` produces: it captures that environment.
pub open spec fn is_method_closure(
    m: LoxCallable,
    k: Seq<char>,
    spec_m: MethodSpec,
    e: crate::environment::EnvModel,
) -> bool {
    &&& m matches LoxCallable::Closure(n, p, bd, captured)
    &&& n@ == k
    &&& p == spec_m.params
    &&& bd == spec_m.body
    &&& captured@ == e
}

/// Whether `v` is the class that a class declaration with the given name
/// and methods, executed in an environment with model `e`, produces.
pub open spec fn is_declared_class(
    v: Value,
    name: Token,
    methods: Seq<Statement>,
    e: crate::environment::EnvModel,
) -> bool {
    &&& v matches Value::Class(class)
    &&& class.name@ == name.lexeme@
    &&& class.methods@.dom() == spec_method_table(methods, methods.len() as int).dom()
    &&& forall|k: Seq<char>| #[trigger]
        class.methods@.dom().contains(k) ==> is_method_closure(
            class.methods@[k],
            k,
            spec_method_table(methods, methods.len() as int)[k],
            e,
        )
}

/// Declares a class: collects its methods, each a closure capturing the
/// current environment, and binds the class, globally at top level and
/// locally inside a block. A non-method statement in the class body is an
/// interpreter bug, since the parser only ever builds methods there.
fn interpret_class(
    name: &Token,
    methods: &Vec<Statement>,
    env: &mut Environment,
) -> (res: Result<(), LoxError>)
    ensures
        all_fun_declarations(methods@, methods@.len() as int) && !old(env)@.is_block_env ==> res
            is Ok && exists|c: Value|
            #[trigger] is_declared_class(c, *name, methods@, old(env)@) && final(env)@
                == (crate::environment::EnvModel {
                globals: old(env)@.globals.insert(name.lexeme@, c),
                ..old(env)@
            }),
        all_fun_declarations(methods@, methods@.len() as int) && old(env)@.is_block_env ==> res
            is Ok && exists|c: Value|
            #[trigger] is_declared_class(c, *name, methods@, old(env)@) && final(env)@
                == (crate::environment::EnvModel {
                locals: old(env)@.locals.insert(name.lexeme@, c),
                declared_here_in_block: old(env)@.declared_here_in_block.insert(name.lexeme@),
                ..old(env)@
            }),
        res is Err ==> !(res->Err_0 is ParseError),
{
    let mut class_methods: crate::bindings::StringMap<LoxCallable> =
        crate::bindings::StringMap::new();
    let n = methods.len();
    let mut i: usize = 0;
    while i < n
        invariant
            n == methods@.len(),
            0 <= i <= n,
            env@ == old(env)@,
            all_fun_declarations(methods@, i as int) ==> {
                &&& class_methods@.dom() == spec_method_table(methods@, i as int).dom()
                &&& forall|k: Seq<char>| #[trigger]
                    class_methods@.dom().contains(k) ==> is_method_closure(
                        class_methods@[k],
                        k,
                        spec_method_table(methods@, i as int)[k],
                        old(env)@,
                    )
            },
        decreases n - i,
    {
        match &methods[i] {
            Statement::FunDeclaration(method_name, params, body) => {
                let method = LoxCallable::Closure(
                    method_name.lexeme.clone(),
                    params.clone(),
                    body.clone(),
                    Rc::new(env.clone_env()),
                );
                class_methods.insert(method_name.lexeme.clone(), method);
                proof {
                    if all_fun_declarations(methods@, i + 1) {
                        assert(class_methods@.dom() =~= spec_method_table(
                            methods@,
                            i + 1,
                        ).dom());
                    }
                }
            },
            other => {
                return Err(
                    LoxError::CompilerBug(
                        Statement::Expression(Expr::Variable(clone_token(name))),
                        String::from_str("Class body may hold only method declarations."),
                    ),
                );
            },
        }
        i += 1;
    }
    let class = crate::class::LoxClass::new(name.lexeme.clone(), class_methods);
    let class_value = Value::Class(Rc::new(class));
    let ghost c = class_value;
    if env.is_global() {
        let result = env.define_global(name.lexeme.clone(), class_value);
        proof {
            if all_fun_declarations(methods@, methods@.len() as int) {
                assert(is_declared_class(c, *name, methods@, old(env)@));
                assert(final(env)@ =~= (crate::environment::EnvModel {
                    globals: old(env)@.globals.insert(name.lexeme@, c),
                    ..old(env)@
                }));
            }
        }
        match result {
            Ok(()) => Ok(()),
            Err(e) => {
                proof {
                    assert(false);
                }
                Err(e)
            },
        }
    } else {
        env.define_local(name.lexeme.clone(), class_value);
        proof {
            if all_fun_declarations(methods@, methods@.len() as int) {
                assert(is_declared_class(c, *name, methods@, old(env)@));
                assert(final(env)@ =~= (crate::environment::EnvModel {
                    locals: old(env)@.locals.insert(name.lexeme@, c),
                    declared_here_in_block: old(env)@.declared_here_in_block.insert(
                        name.lexeme@,
                    ),
                    ..old(env)@
                }));
            }
        }
        Ok(())
    }
}

/// Evaluates an expression that must denote an instance, yielding its
/// arena handle.
fn get_object<H: Host>(
    obj: &Expr,
    env: &mut Environment,
    state: &mut EvalState,
    host: &H,
    fuel: u64,
) -> (res: Result<usize, LoxError>)
    ensures
        state_extended(*old(state), *final(state)),
        res matches Ok(handle) ==> handle < final(state).objects@.len(),
        res is Err ==> !(res->Err_0 is ParseError),
    decreases fuel,
{
    if fuel == 0 {
        return Err(recursion_error());
    }
    let value = interpret_expr(obj, env, state, host, fuel - 1)?;
    match value {
        Value::Instance(handle) => {
            if handle < state.objects.len() {
                Ok(handle)
            } else {
                Err(
                    LoxError::ValueError(
                        Value::Instance(handle),
                        String::from_str("Not an object!"),
                    ),
                )
            }
        },
        other => Err(LoxError::ValueError(other, String::from_str("Not an object!"))),
    }
}

} // verus!
