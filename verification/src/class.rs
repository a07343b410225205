//! Class descriptors.

use crate::bindings::StringMap;
use crate::token::Token;
use crate::token_type::TokenType;
use crate::value::LoxCallable;
use vstd::prelude::*;

verus! {

/// A class: a name and a method table. The descriptor is immutable and is
/// shared by reference across every instance of the class.
pub struct LoxClass {
    pub name: String,
    pub methods: StringMap<LoxCallable>,
}

impl LoxClass {
    /// A class with the given name and methods.
    pub fn new(name: String, methods: StringMap<LoxCallable>) -> (r: Self)
        ensures
            r.name == name,
            r.methods@ == methods@,
    {
        LoxClass { name, methods }
    }

    /// The method of the given name, if the class has one.
    pub fn find_method(&self, name: &String) -> (r: Option<&LoxCallable>)
        ensures
            match r {
                Some(m) => self.methods@.dom().contains(name@) && *m == self.methods@[name@],
                None => !self.methods@.dom().contains(name@),
            },
    {
        self.methods.get_ref(name)
    }

    /// An identifier token naming the class, used in diagnostics.
    pub fn get_name_token(&self) -> (t: Token)
        ensures
            t.token_type == TokenType::Identifier,
            t.lexeme@ == self.name@,
            t.literal == None::<crate::value::Value>,
            t.line == 0,
    {
        Token::new(TokenType::Identifier, self.name.clone(), None, 0)
    }
}

} // verus!
