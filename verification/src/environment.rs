//! Two-tier environments with snapshot-and-merge block scoping.
//!
//! An environment holds global bindings (introduced only at top level) and
//! local bindings. Entering a block clones the current bindings into a
//! fresh block environment; writes to names that the block did not itself
//! declare are recorded as pending assignments, which the parent merges
//! back in when the block exits. Shadowed names never propagate.

use crate::bindings::{StringMap, StringSet};
use crate::expr::Expr;
use crate::statement::Statement;
use crate::stdlib::get_stdlib;
use crate::token::Token;
use crate::value::{clone_value, Value};
use crate::LoxError;
use vstd::prelude::*;

verus! {

/// The mathematical model of an environment.
#[verifier::ext_equal]
pub ghost struct EnvModel {
    /// Bindings private to the active call or block chain.
    pub locals: Map<Seq<char>, Value>,
    /// Bindings visible from every call.
    pub globals: Map<Seq<char>, Value>,
    /// Writes to outer names, pending propagation to the parent scope.
    pub assignments: Map<Seq<char>, Value>,
    /// Names the current block itself declared.
    pub declared_here_in_block: Set<Seq<char>>,
    /// Whether this environment was opened for a block.
    pub is_block_env: bool,
}

/// A two-tier environment.
pub struct Environment {
    locals: StringMap<Value>,
    globals: StringMap<Value>,
    assignments: StringMap<Value>,
    declared_here_in_block: StringSet,
    is_block_env: bool,
}

impl View for Environment {
    type V = EnvModel;

    closed spec fn view(&self) -> EnvModel {
        EnvModel {
            locals: self.locals@,
            globals: self.globals@,
            assignments: self.assignments@,
            declared_here_in_block: self.declared_here_in_block@,
            is_block_env: self.is_block_env,
        }
    }
}

/// The bindings made by zipping the first `n` parameter tokens with the
/// first `n` argument values.
pub open spec fn zip_bindings_to(names: Seq<Token>, values: Seq<Value>, n: int) -> Map<
    Seq<char>,
    Value,
>
    decreases n,
{
    if n <= 0 {
        Map::empty()
    } else {
        zip_bindings_to(names, values, n - 1).insert(names[n - 1].lexeme@, values[n - 1])
    }
}

/// The bindings made by zipping parameter tokens with argument values;
/// when the lists differ in length the longer one's tail is ignored.
pub open spec fn zip_bindings(names: Seq<Token>, values: Seq<Value>) -> Map<Seq<char>, Value> {
    zip_bindings_to(
        names,
        values,
        if names.len() <= values.len() {
            names.len() as int
        } else {
            values.len() as int
        },
    )
}

impl Environment {
    /// A fresh top-level environment, its globals pre-seeded with the
    /// standard library.
    pub fn new() -> (r: Self)
        ensures
            r@.locals == Map::<Seq<char>, Value>::empty(),
            r@.globals.dom() == set!["clock"@],
            crate::stdlib::is_clock_native(r@.globals["clock"@]),
            r@.assignments == Map::<Seq<char>, Value>::empty(),
            r@.declared_here_in_block == Set::<Seq<char>>::empty(),
            !r@.is_block_env,
    {
        Environment {
            locals: StringMap::new(),
            globals: get_stdlib(),
            assignments: StringMap::new(),
            declared_here_in_block: StringSet::new(),
            is_block_env: false,
        }
    }

    /// An environment made of another's parts.
    pub fn from(env: Environment) -> (r: Self)
        ensures
            r@ == env@,
    {
        Environment {
            locals: env.locals,
            globals: env.globals,
            assignments: env.assignments,
            declared_here_in_block: env.declared_here_in_block,
            is_block_env: env.is_block_env,
        }
    }

    /// A call environment: parameter names zipped with argument values.
    /// No arity check happens here; the zip stops at the shorter list.
    pub fn build(names: &Vec<Token>, values: &Vec<Value>) -> (r: Self)
        ensures
            r@.locals == zip_bindings(names@, values@),
            r@.globals == Map::<Seq<char>, Value>::empty(),
            r@.assignments == Map::<Seq<char>, Value>::empty(),
            r@.declared_here_in_block == Set::<Seq<char>>::empty(),
            !r@.is_block_env,
    {
        let bound: usize = if names.len() <= values.len() {
            names.len()
        } else {
            values.len()
        };
        let mut build_values: StringMap<Value> = StringMap::new();
        let mut i: usize = 0;
        while i < bound
            invariant
                bound <= names@.len(),
                bound <= values@.len(),
                0 <= i <= bound,
                build_values@ == zip_bindings_to(names@, values@, i as int),
            decreases bound - i,
        {
            build_values.insert(names[i].lexeme.clone(), clone_value(&values[i]));
            i += 1;
        }
        Environment {
            locals: build_values,
            globals: StringMap::new(),
            assignments: StringMap::new(),
            declared_here_in_block: StringSet::new(),
            is_block_env: false,
        }
    }

    /// An equal copy.
    pub fn clone_env(&self) -> (r: Self)
        ensures
            r@ == self@,
    {
        let cloner = |v: &Value| -> (c: Value)
            ensures
                c == *v,
            { clone_value(v) };
        let r = Environment {
            locals: self.locals.clone_with(&cloner),
            globals: self.globals.clone_with(&cloner),
            assignments: self.assignments.clone_with(&cloner),
            declared_here_in_block: self.declared_here_in_block.clone_set(),
            is_block_env: self.is_block_env,
        };
        proof {
            assert(r@ =~= self@);
        }
        r
    }

    /// The environment a block runs in: the enclosing bindings, copied, with
    /// no pending assignments and nothing declared yet.
    pub fn get_block_env(env: &Environment) -> (r: Self)
        ensures
            r@.locals == env@.locals,
            r@.globals == env@.globals,
            r@.assignments == Map::<Seq<char>, Value>::empty(),
            r@.declared_here_in_block == Set::<Seq<char>>::empty(),
            r@.is_block_env,
    {
        let cloner = |v: &Value| -> (c: Value)
            ensures
                c == *v,
            { clone_value(v) };
        Environment {
            locals: env.locals.clone_with(&cloner),
            globals: env.globals.clone_with(&cloner),
            assignments: StringMap::new(),
            declared_here_in_block: StringSet::new(),
            is_block_env: true,
        }
    }

    /// Adopts the globals of another environment, which win over this one's.
    pub fn add_globals(&mut self, other: &Environment)
        ensures
            final(self)@ == (EnvModel {
                globals: old(self)@.globals.union_prefer_right(other@.globals),
                ..old(self)@
            }),
    {
        let cloner = |v: &Value| -> (c: Value)
            ensures
                c == *v,
            { clone_value(v) };
        self.globals.merge_from(other.globals.clone_with(&cloner));
        proof {
            assert(self@ =~= (EnvModel {
                globals: old(self)@.globals.union_prefer_right(other@.globals),
                ..old(self)@
            }));
        }
    }

    /// Declares a local binding; inside a block the name is recorded as
    /// declared here, so that writes to it never propagate outward.
    pub fn define_local(&mut self, name: String, value: Value)
        ensures
            final(self)@.locals == old(self)@.locals.insert(name@, value),
            final(self)@.globals == old(self)@.globals,
            final(self)@.assignments == old(self)@.assignments,
            final(self)@.declared_here_in_block == if old(self)@.is_block_env {
                old(self)@.declared_here_in_block.insert(name@)
            } else {
                old(self)@.declared_here_in_block
            },
            final(self)@.is_block_env == old(self)@.is_block_env,
    {
        if self.is_block_env {
            self.declared_here_in_block.add_name(name.clone());
        }
        self.locals.insert(name, value);
    }

    /// Introduces a global binding. Globals may only be introduced at top
    /// level: inside a block this is an interpreter-invariant violation,
    /// not a user error.
    pub fn define_global(&mut self, name: String, value: Value) -> (r: Result<(), LoxError>)
        ensures
            old(self)@.is_block_env ==> {
                &&& final(self)@ == old(self)@
                &&& r matches Err(LoxError::CompilerBug(s, msg)) && s == Statement::Expression(
                    Expr::Literal(Value::Str(name)),
                ) && msg@ == "Globals cannot be defined in local scope."@
            },
            !old(self)@.is_block_env ==> {
                &&& r is Ok
                &&& final(self)@ == (EnvModel {
                    globals: old(self)@.globals.insert(name@, value),
                    ..old(self)@
                })
            },
    {
        if self.is_block_env {
            Err(
                LoxError::CompilerBug(
                    Statement::Expression(Expr::Literal(Value::Str(name))),
                    String::from_str("Globals cannot be defined in local scope."),
                ),
            )
        } else {
            let ghost k = name@;
            let ghost v = value;
            self.globals.insert(name, value);
            proof {
                assert(self@ =~= (EnvModel {
                    globals: old(self)@.globals.insert(k, v),
                    ..old(self)@
                }));
            }
            Ok(())
        }
    }

    /// Looks a name up: locals first, then globals; absence in both is a
    /// name-resolution error naming the identifier.
    pub fn get(&self, name: &Token) -> (r: Result<Value, LoxError>)
        ensures
            self@.locals.dom().contains(name.lexeme@) ==> r == Ok::<Value, LoxError>(
                self@.locals[name.lexeme@],
            ),
            !self@.locals.dom().contains(name.lexeme@) && self@.globals.dom().contains(
                name.lexeme@,
            ) ==> r == Ok::<Value, LoxError>(self@.globals[name.lexeme@]),
            !self@.locals.dom().contains(name.lexeme@) && !self@.globals.dom().contains(
                name.lexeme@,
            ) ==> (r matches Err(LoxError::NameError(n, msg)) && n@ == name.lexeme@ && msg@
                == "Undefined variable."@),
    {
        match self.locals.get_ref(&name.lexeme) {
            Some(v) => Ok(clone_value(v)),
            None => {
                match self.globals.get_ref(&name.lexeme) {
                    Some(v) => Ok(clone_value(v)),
                    None => {
                        Err(
                            LoxError::NameError(
                                name.lexeme.clone(),
                                String::from_str("Undefined variable."),
                            ),
                        )
                    },
                }
            },
        }
    }

    /// Reassigns an existing binding. A write to a local that this block
    /// did not declare is also recorded as a pending assignment; a write to
    /// a globals-only name from inside a block shadows it locally instead
    /// of mutating the global. Assigning an undefined name is a
    /// name-resolution error.
    pub fn assign(&mut self, name: Token, value: Value) -> (r: Result<(), LoxError>)
        ensures
            old(self)@.locals.dom().contains(name.lexeme@) ==> {
                &&& r is Ok
                &&& final(self)@ == (EnvModel {
                    locals: old(self)@.locals.insert(name.lexeme@, value),
                    assignments: if old(self)@.is_block_env
                        && !old(self)@.declared_here_in_block.contains(name.lexeme@) {
                        old(self)@.assignments.insert(name.lexeme@, value)
                    } else {
                        old(self)@.assignments
                    },
                    ..old(self)@
                })
            },
            !old(self)@.locals.dom().contains(name.lexeme@) && old(self)@.globals.dom().contains(
                name.lexeme@,
            ) ==> {
                &&& r is Ok
                &&& final(self)@ == if old(self)@.is_block_env {
                    (EnvModel { locals: old(self)@.locals.insert(name.lexeme@, value), ..old(self)@ })
                } else {
                    (EnvModel {
                        globals: old(self)@.globals.insert(name.lexeme@, value),
                        ..old(self)@
                    })
                }
            },
            !old(self)@.locals.dom().contains(name.lexeme@) && !old(self)@.globals.dom().contains(
                name.lexeme@,
            ) ==> {
                &&& final(self)@ == old(self)@
                &&& r matches Err(LoxError::NameError(n, msg)) && n@ == name.lexeme@ && msg@
                    == "Undefined variable "@ + name.lexeme@ + "."@
            },
    {
        let ghost k = name.lexeme@;
        let ghost v = value;
        if self.locals.contains_key(&name.lexeme) {
            if self.is_block_env && !self.declared_here_in_block.contains(&name.lexeme) {
                self.assignments.insert(name.lexeme.clone(), clone_value(&value));
            }
            self.locals.insert(name.lexeme, value);
            proof {
                assert(self@ =~= (EnvModel {
                    locals: old(self)@.locals.insert(k, v),
                    assignments: if old(self)@.is_block_env
                        && !old(self)@.declared_here_in_block.contains(k) {
                        old(self)@.assignments.insert(k, v)
                    } else {
                        old(self)@.assignments
                    },
                    ..old(self)@
                }));
            }
            Ok(())
        } else if self.globals.contains_key(&name.lexeme) {
            if self.is_block_env {
                self.locals.insert(name.lexeme, value);
                proof {
                    assert(self@ =~= (EnvModel {
                        locals: old(self)@.locals.insert(k, v),
                        ..old(self)@
                    }));
                }
            } else {
                self.globals.insert(name.lexeme, value);
                proof {
                    assert(self@ =~= (EnvModel {
                        globals: old(self)@.globals.insert(k, v),
                        ..old(self)@
                    }));
                }
            }
            Ok(())
        } else {
            let mut msg = String::from_str("Undefined variable ");
            msg.append(name.lexeme.as_str());
            msg.append(".");
            Err(LoxError::NameError(name.lexeme, msg))
        }
    }

    /// Merges a finished block's pending assignments into this environment.
    /// Every pending write lands in the locals; when this environment is
    /// itself a block, writes to names it did not declare are re-recorded
    /// as pending, so mutations propagate outward through nested blocks.
    #[verifier::loop_isolation(false)]
    pub fn add_assignments(&mut self, block_env: &mut Environment)
        ensures
            final(self)@.locals == old(self)@.locals.union_prefer_right(
                old(block_env)@.assignments,
            ),
            final(self)@.assignments == if old(self)@.is_block_env {
                old(self)@.assignments.union_prefer_right(
                    old(block_env)@.assignments.remove_keys(old(self)@.declared_here_in_block),
                )
            } else {
                old(self)@.assignments
            },
            final(self)@.globals == old(self)@.globals,
            final(self)@.declared_here_in_block == old(self)@.declared_here_in_block,
            final(self)@.is_block_env == old(self)@.is_block_env,
            final(block_env)@ == (EnvModel {
                assignments: Map::<Seq<char>, Value>::empty(),
                ..old(block_env)@
            }),
    {
        let ghost pending0 = block_env@.assignments;
        let ghost self0 = self@;
        let ghost block0 = block_env@;
        proof {
            block_env.assignments.lemma_finite();
        }
        loop
            invariant
                self@.globals == self0.globals,
                self@.declared_here_in_block == self0.declared_here_in_block,
                self@.is_block_env == self0.is_block_env,
                block_env@.locals == block0.locals,
                block_env@.globals == block0.globals,
                block_env@.declared_here_in_block == block0.declared_here_in_block,
                block_env@.is_block_env == block0.is_block_env,
                block_env@.assignments.dom().finite(),
                self@.locals.union_prefer_right(block_env@.assignments)
                    == self0.locals.union_prefer_right(pending0),
                self0.is_block_env ==> self@.assignments.union_prefer_right(
                    block_env@.assignments.remove_keys(self0.declared_here_in_block),
                ) == self0.assignments.union_prefer_right(
                    pending0.remove_keys(self0.declared_here_in_block),
                ),
                !self0.is_block_env ==> self@.assignments == self0.assignments,
            decreases block_env@.assignments.dom().len(),
        {
            let ghost rest0 = block_env@.assignments;
            let ghost locals0 = self@.locals;
            let ghost assigns0 = self@.assignments;
            match block_env.assignments.pop_entry() {
                Some((name, value)) => {
                    let ghost k = name@;
                    let ghost v = value;
                    if self.is_block_env && !self.declared_here_in_block.contains(&name) {
                        self.assignments.insert(name.clone(), clone_value(&value));
                    }
                    self.locals.insert(name, value);
                    proof {
                        let rest1 = block_env@.assignments;
                        assert(self@.locals.union_prefer_right(rest1)
                            =~= locals0.union_prefer_right(rest0));
                        if self0.is_block_env {
                            assert(self@.assignments.union_prefer_right(
                                rest1.remove_keys(self0.declared_here_in_block),
                            ) =~= assigns0.union_prefer_right(
                                rest0.remove_keys(self0.declared_here_in_block),
                            ));
                        }
                    }
                },
                None => {
                    proof {
                        assert(self@.locals =~= self0.locals.union_prefer_right(pending0));
                        if self0.is_block_env {
                            assert(self@.assignments =~= self0.assignments.union_prefer_right(
                                pending0.remove_keys(self0.declared_here_in_block),
                            ));
                        }
                        assert(block_env@ =~= (EnvModel {
                            assignments: Map::<Seq<char>, Value>::empty(),
                            ..block0
                        }));
                    }
                    return ;
                },
            }
        }
    }

    /// Law (block propagation): entering a block, assigning a visible name
    /// the block did not declare, and leaving the block writes the value
    /// through to the enclosing environment's locals, with everything else
    /// unchanged.
    pub fn law_block_propagation(outer: &mut Environment, name: Token, value: Value)
        requires
            old(outer)@.locals.dom().contains(name.lexeme@),
        ensures
            final(outer)@ == (EnvModel {
                locals: old(outer)@.locals.insert(name.lexeme@, value),
                assignments: if old(outer)@.is_block_env && !old(
                    outer,
                )@.declared_here_in_block.contains(name.lexeme@) {
                    old(outer)@.assignments.insert(name.lexeme@, value)
                } else {
                    old(outer)@.assignments
                },
                ..old(outer)@
            }),
    {
        let ghost k = name.lexeme@;
        let ghost v = value;
        let mut block = Environment::get_block_env(outer);
        let assigned = block.assign(name, value);
        proof {
            assert(assigned is Ok);
            assert(block@.assignments =~= Map::<Seq<char>, Value>::empty().insert(k, v));
        }
        outer.add_assignments(&mut block);
        proof {
            assert(final(outer)@ =~= (EnvModel {
                locals: old(outer)@.locals.insert(k, v),
                assignments: if old(outer)@.is_block_env && !old(
                    outer,
                )@.declared_here_in_block.contains(k) {
                    old(outer)@.assignments.insert(k, v)
                } else {
                    old(outer)@.assignments
                },
                ..old(outer)@
            }));
        }
    }

    /// Law (shadowing): a name the block declared for itself, however much
    /// it is then written inside the block, never propagates: the enclosing
    /// environment is left exactly as it was.
    pub fn law_block_shadowing(
        outer: &mut Environment,
        name: Token,
        shadow: Value,
        written: Value,
    )
        ensures
            final(outer)@ == old(outer)@,
    {
        let ghost k = name.lexeme@;
        let mut block = Environment::get_block_env(outer);
        block.define_local(name.lexeme.clone(), shadow);
        let assigned = block.assign(name, written);
        proof {
            assert(assigned is Ok);
            assert(block@.assignments =~= Map::<Seq<char>, Value>::empty());
        }
        outer.add_assignments(&mut block);
        proof {
            assert(final(outer)@.locals =~= old(outer)@.locals);
            assert(final(outer)@.assignments =~= old(outer)@.assignments);
            assert(final(outer)@ =~= old(outer)@);
        }
    }

    /// Law (propagation through nested blocks): a write in an inner block
    /// to a name declared outside both blocks travels outward through the
    /// intermediate block to the enclosing environment.
    pub fn law_nested_block_propagation(outer: &mut Environment, name: Token, value: Value)
        requires
            old(outer)@.locals.dom().contains(name.lexeme@),
        ensures
            final(outer)@.locals == old(outer)@.locals.insert(name.lexeme@, value),
            final(outer)@.globals == old(outer)@.globals,
    {
        let ghost k = name.lexeme@;
        let ghost v = value;
        let mut middle = Environment::get_block_env(outer);
        let mut inner = Environment::get_block_env(&middle);
        let assigned = inner.assign(name, value);
        proof {
            assert(assigned is Ok);
        }
        middle.add_assignments(&mut inner);
        proof {
            assert(middle@.assignments =~= Map::<Seq<char>, Value>::empty().insert(k, v));
        }
        outer.add_assignments(&mut middle);
        proof {
            assert(final(outer)@.locals =~= old(outer)@.locals.insert(k, v));
        }
    }

    /// Whether this environment is the global scope rather than a block's.
    pub fn is_global(&self) -> (r: bool)
        ensures
            r == !self@.is_block_env,
    {
        !self.is_block_env
    }

    /// The environment holding this one's bindings together with another's;
    /// the other's bindings win where names collide.
    pub fn merge(self, rhs: Environment) -> (r: Environment)
        ensures
            r@ == (EnvModel {
                locals: self@.locals.union_prefer_right(rhs@.locals),
                globals: self@.globals.union_prefer_right(rhs@.globals),
                ..self@
            }),
    {
        let ghost s0 = self@;
        let ghost r0 = rhs@;
        let mut merged = self;
        let Environment {
            locals: rhs_locals,
            globals: rhs_globals,
            assignments: _unused_assignments,
            declared_here_in_block: _unused_declared,
            is_block_env: _unused_flag,
        } = rhs;
        merged.locals.merge_from(rhs_locals);
        merged.globals.merge_from(rhs_globals);
        proof {
            assert(merged@ =~= (EnvModel {
                locals: s0.locals.union_prefer_right(r0.locals),
                globals: s0.globals.union_prefer_right(r0.globals),
                ..s0
            }));
        }
        merged
    }
}

} // verus!
