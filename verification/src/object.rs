//! Instances: a shared class reference plus an owned, mutable field table.

use crate::bindings::StringMap;
use crate::class::LoxClass;
use crate::statement::Statement;
use crate::token::Token;
use crate::value::{clone_value, LoxCallable, Value};
use crate::LoxError;
use std::rc::Rc;
use vstd::prelude::*;

verus! {

/// An instance of a class. Field writes on one instance never affect
/// another instance or the class.
pub struct LoxObject {
    pub class: Rc<LoxClass>,
    pub fields: StringMap<Value>,
}

impl LoxObject {
    /// A fresh instance with an empty field table.
    pub fn new(class: Rc<LoxClass>) -> (r: Self)
        ensures
            r.class == class,
            r.fields@ == Map::<Seq<char>, Value>::empty(),
    {
        LoxObject { class, fields: StringMap::new() }
    }

    /// Reads a property: the instance's own fields first, then the class's
    /// method table, where each access produces a freshly bound method
    /// closure whose environment defines `this` as this instance, passed as
    /// `this_handle`. Missing in both is a name-resolution error.
    pub fn get(&self, name: &Token, this_handle: usize) -> (r: Result<Value, LoxError>)
        ensures
            self.fields@.dom().contains(name.lexeme@) ==> r == Ok::<Value, LoxError>(
                self.fields@[name.lexeme@],
            ),
            !self.fields@.dom().contains(name.lexeme@) && self.class.methods@.dom().contains(
                name.lexeme@,
            ) && self.class.methods@[name.lexeme@] is Closure ==> (r matches Ok(
                Value::Callable(bound),
            ) && crate::value::is_bound_method(
                self.class.methods@[name.lexeme@],
                *bound,
                this_handle,
            )),
            !self.fields@.dom().contains(name.lexeme@) && self.class.methods@.dom().contains(
                name.lexeme@,
            ) && self.class.methods@[name.lexeme@] is Native ==> (r matches Err(
                LoxError::CompilerBug(_, msg),
            ) && msg@ == "Bind was used on a native function."@),
            !self.fields@.dom().contains(name.lexeme@) && !self.class.methods@.dom().contains(
                name.lexeme@,
            ) ==> (r matches Err(LoxError::NameError(n, msg)) && n@ == name.lexeme@ && msg@
                == "Undefined property "@ + name.lexeme@),
    {
        match self.fields.get_ref(&name.lexeme) {
            Some(v) => Ok(clone_value(v)),
            None => {
                match self.class.find_method(&name.lexeme) {
                    Some(method) => {
                        match method {
                            LoxCallable::Closure(_, _, _, _) => {
                                Ok(Value::Callable(Box::new(method.bind(this_handle))))
                            },
                            LoxCallable::Native(_, _, _) => {
                                Err(
                                    LoxError::CompilerBug(
                                        Statement::Expression(
                                            crate::expr::Expr::Variable(
                                                crate::token::Token::new(
                                                    crate::token_type::TokenType::Identifier,
                                                    name.lexeme.clone(),
                                                    None,
                                                    name.line,
                                                ),
                                            ),
                                        ),
                                        String::from_str("Bind was used on a native function."),
                                    ),
                                )
                            },
                        }
                    },
                    None => {
                        let mut msg = String::from_str("Undefined property ");
                        msg.append(name.lexeme.as_str());
                        Err(LoxError::NameError(name.lexeme.clone(), msg))
                    },
                }
            },
        }
    }

    /// Writes a property, inserting or overwriting it unconditionally.
    pub fn set(&mut self, name: Token, value: Value)
        ensures
            final(self).fields@ == old(self).fields@.insert(name.lexeme@, value),
            final(self).class == old(self).class,
    {
        self.fields.insert(name.lexeme, value);
    }
}

} // verus!
