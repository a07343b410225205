//! The standard library: the table of pre-seeded global bindings.

use crate::bindings::StringMap;
use crate::value::{LoxCallable, NativeFn, Value};
use vstd::prelude::*;

verus! {

/// Whether a value is the `clock` native: a zero-argument function that
/// returns the current wall-clock time in milliseconds as a `Float`.
pub open spec fn is_clock_native(v: Value) -> bool {
    &&& v matches Value::Callable(c)
    &&& *c matches LoxCallable::Native(name, f, arity)
    &&& name@ == "clock"@
    &&& f == NativeFn::Clock
    &&& arity == 0usize
}

/// The standard-library table: exactly one binding, `clock`.
pub fn get_stdlib() -> (r: StringMap<Value>)
    ensures
        r@.dom() == set!["clock"@],
        is_clock_native(r@["clock"@]),
{
    let mut table: StringMap<Value> = StringMap::new();
    let native = LoxCallable::Native(String::from_str("clock"), NativeFn::Clock, 0);
    table.insert(String::from_str("clock"), Value::Callable(Box::new(native)));
    proof {
        assert(table@.dom() =~= set!["clock"@]);
    }
    table
}

} // verus!
