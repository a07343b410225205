//! Floating-point arithmetic and the wall clock, supplied by the embedder.
//!
//! Verified code cannot compute with IEEE 754 doubles, so `Float` values
//! carry their 64-bit pattern as a plain integer and every primitive double
//! operation is delegated to an implementation of this trait, which the
//! program around the interpreter provides. Nothing is assumed about the
//! results: contracts downstream pin everything except the bit patterns
//! such an operation hands back.

use vstd::prelude::*;

verus! {

/// The operations on `Float` bit patterns, and the one standard-library
/// service (a millisecond wall clock), that the host program supplies.
pub trait Host {
    /// The sum of the doubles with bit patterns `a` and `b`.
    fn float_add(&self, a: u64, b: u64) -> u64;

    /// The difference of the doubles with bit patterns `a` and `b`.
    fn float_sub(&self, a: u64, b: u64) -> u64;

    /// The product of the doubles with bit patterns `a` and `b`.
    fn float_mul(&self, a: u64, b: u64) -> u64;

    /// The quotient of the doubles with bit patterns `a` and `b`.
    fn float_div(&self, a: u64, b: u64) -> u64;

    /// The remainder of the doubles with bit patterns `a` and `b`.
    fn float_rem(&self, a: u64, b: u64) -> u64;

    /// Whether the double with bit pattern `a` is less than the one with `b`.
    fn float_lt(&self, a: u64, b: u64) -> bool;

    /// Whether `a`'s double is less than or equal to `b`'s.
    fn float_le(&self, a: u64, b: u64) -> bool;

    /// Whether `a`'s double is greater than `b`'s.
    fn float_gt(&self, a: u64, b: u64) -> bool;

    /// Whether `a`'s double is greater than or equal to `b`'s.
    fn float_ge(&self, a: u64, b: u64) -> bool;

    /// Whether `a`'s double equals `b`'s.
    fn float_eq(&self, a: u64, b: u64) -> bool;

    /// The bit pattern of `n` converted to a double.
    fn float_of_int(&self, n: i64) -> u64;

    /// The display form of the double with bit pattern `bits`.
    fn float_display(&self, bits: u64) -> String;

    /// The current wall-clock time in milliseconds, as a double's bit
    /// pattern.
    fn clock_millis(&self) -> u64;
}

} // verus!
